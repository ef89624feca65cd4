use vstd::prelude::*;

verus! {

/// Errors a request can end in. Each maps to one HTTP status.
#[derive(Debug)]
pub enum AppError {
    BadRequest(String),
    Unauthorized,
    Forbidden,
    NotFound(String),
    Internal(String),
}

/// The HTTP status code of each error kind.
pub open spec fn spec_status_code(e: AppError) -> u16 {
    match e {
        AppError::BadRequest(_) => 400,
        AppError::Unauthorized => 401,
        AppError::Forbidden => 403,
        AppError::NotFound(_) => 404,
        AppError::Internal(_) => 500,
    }
}

impl AppError {
    /// The HTTP status code with which this error is answered.
    pub fn status_code(&self) -> (r: u16)
        ensures
            r == spec_status_code(*self),
    {
        match self {
            AppError::BadRequest(_) => 400,
            AppError::Unauthorized => 401,
            AppError::Forbidden => 403,
            AppError::NotFound(_) => 404,
            AppError::Internal(_) => 500,
        }
    }

    /// The text with which this error is answered: the carried message, or
    /// the name of the refusal.
    pub fn message(&self) -> (r: String)
        ensures
            match self {
                AppError::BadRequest(m) => r@ == m@,
                AppError::Unauthorized => r@ == "unauthorized"@,
                AppError::Forbidden => r@ == "forbidden"@,
                AppError::NotFound(m) => r@ == m@,
                AppError::Internal(m) => r@ == m@,
            },
    {
        match self {
            AppError::BadRequest(m) => m.clone(),
            AppError::Unauthorized => "unauthorized".to_owned(),
            AppError::Forbidden => "forbidden".to_owned(),
            AppError::NotFound(m) => m.clone(),
            AppError::Internal(m) => m.clone(),
        }
    }
}

} // verus!
