use vstd::prelude::*;

use crate::auth::password::{new_password_hash, spec_password_verifies};
use crate::error::AppError;
use crate::models::user::{SeedUsersResponse, User, UserResponse, UserRole};

verus! {

/// A fixed account the seed step makes sure exists.
#[derive(Debug)]
pub struct SeedAccount {
    pub full_name: &'static str,
    pub email: &'static str,
    pub password: &'static str,
    pub role: UserRole,
}

/// The fixed accounts, in order: the administrator and the staff member
/// James Bond, with their development passwords.
pub fn seed_accounts() -> (r: Vec<SeedAccount>)
    ensures
        r@.len() == 2,
        r@[0].full_name@ == "Admin"@,
        r@[0].email@ == "admin@example.com"@,
        r@[0].password@ == "Admin@12345"@,
        r@[0].role == UserRole::Admin,
        r@[1].full_name@ == "James Bond"@,
        r@[1].email@ == "jamesbond@example.com"@,
        r@[1].password@ == "JamesBond@12345"@,
        r@[1].role == UserRole::Staff,
        forall|i: int| 0 <= i < r@.len() ==> #[trigger] r@[i].password@.len() <= 64,
{
    proof {
        reveal_strlit("Admin@12345");
        reveal_strlit("JamesBond@12345");
    }
    let mut r = Vec::new();
    r.push(
        SeedAccount {
            full_name: "Admin",
            email: "admin@example.com",
            password: "Admin@12345",
            role: UserRole::Admin,
        },
    );
    r.push(
        SeedAccount {
            full_name: "James Bond",
            email: "jamesbond@example.com",
            password: "JamesBond@12345",
            role: UserRole::Staff,
        },
    );
    r
}

/// What seeding does with one fixed account: reuse the user already stored
/// under its email, or create it with this password hash.
#[derive(Debug)]
pub enum SeedStep {
    Reuse(User),
    Create(String),
}

/// Decides one account of the seed step from the user stored under its email
/// (if any). An existing user is reused as is, which makes seeding
/// idempotent; a missing one is to be created with a fresh hash of the
/// account's password, which that password verifies against. Hashing is owed
/// for every password of at most `0x3FFF_FFFF` characters; a failure is an
/// internal error.
pub fn seed_step(account: &SeedAccount, existing: Option<User>) -> (r: Result<SeedStep, AppError>)
    ensures
        match existing {
            Some(u) => r == Ok::<SeedStep, AppError>(SeedStep::Reuse(u)),
            None => {
                &&& r matches Ok(step) ==> (step matches SeedStep::Create(h)
                    && spec_password_verifies(account.password@, h@) == Some(true))
                &&& r matches Err(e) ==> e is Internal
                &&& account.password@.len() <= 0x3FFF_FFFF ==> r is Ok
            },
        },
{
    match existing {
        Some(u) => Ok(SeedStep::Reuse(u)),
        None => match new_password_hash(account.password) {
            Ok(h) => Ok(SeedStep::Create(h)),
            Err(e) => Err(e),
        },
    }
}

impl SeedUsersResponse {
    /// The answer to seeding: the accounts, as shown, in seed order.
    pub fn ready(users: Vec<UserResponse>) -> (r: SeedUsersResponse)
        ensures
            r.users@ == users@,
            r.message@ == "Admin and James Bond are ready. See README.md for seeded passwords."@,
    {
        SeedUsersResponse {
            message: "Admin and James Bond are ready. See README.md for seeded passwords.".to_owned(),
            users,
        }
    }
}

} // verus!
