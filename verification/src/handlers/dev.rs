use vstd::prelude::*;

use crate::error::AppError;
use crate::models::email_log::{EmailLog, EmailLogResponse};

verus! {

/// The optional recipient filter of the latest-email lookup; without it the
/// latest email to anyone is meant.
#[derive(Debug)]
pub struct LatestEmailLogQuery {
    pub email: Option<String>,
}

/// The answer to the latest-email lookup: the email found, shown; none found
/// is not found.
pub fn latest_email_log_response(log: Option<EmailLog>) -> (r: Result<EmailLogResponse, AppError>)
    ensures
        match log {
            Some(l) => r matches Ok(resp) && resp.id == l.id && resp.to == l.email && resp.code
                == l.code && resp.purpose == l.purpose && resp.created_at == l.created_at,
            None => r matches Err(AppError::NotFound(m)) && m@ == "no email logs found"@,
        },
{
    match log {
        Some(l) => Ok(EmailLogResponse::from(l)),
        None => Err(AppError::NotFound("no email logs found".to_owned())),
    }
}

} // verus!
