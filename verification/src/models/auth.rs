use vstd::prelude::*;

use crate::clock::{parse_rfc3339, spec_parse_rfc3339, Timestamp};
use crate::ids::{parse_id, spec_parse_id};
use crate::models::user::spec_reads_as_time;

verus! {

/// The first login step: email and password.
#[derive(Debug)]
pub struct LoginRequest {
    pub email: String,
    pub password: String,
}

/// The answer to the first login step. It holds no access token: the caller
/// must complete the second factor with the challenge's identifier.
#[derive(Debug)]
pub struct LoginResponse {
    pub login_challenge_id: u128,
    pub message: String,
}

impl LoginResponse {
    /// The answer that points the caller at the challenge just created.
    pub fn for_challenge(login_challenge_id: u128) -> (r: LoginResponse)
        ensures
            r.login_challenge_id == login_challenge_id,
            r.message@
                == "Verification code sent. Check GET /dev/email-logs/latest for the code."@,
    {
        LoginResponse {
            login_challenge_id,
            message: "Verification code sent. Check GET /dev/email-logs/latest for the code.".to_owned(),
        }
    }
}

/// The second login step: the challenge and the code that was sent.
#[derive(Debug)]
pub struct Verify2faRequest {
    pub login_challenge_id: u128,
    pub code: String,
}

/// The answer to a completed login: a bearer access token.
#[derive(Debug)]
pub struct Verify2faResponse {
    pub access_token: String,
    pub token_type: String,
    pub expires_in: i64,
}

impl Verify2faResponse {
    /// The answer carrying a bearer token that lasts `expires_in` seconds.
    pub fn bearer(access_token: String, expires_in: i64) -> (r: Verify2faResponse)
        ensures
            r.access_token == access_token,
            r.token_type@ == "Bearer"@,
            r.expires_in == expires_in,
    {
        Verify2faResponse { access_token, token_type: "Bearer".to_owned(), expires_in }
    }
}

/// A login challenge as stored: identifiers and times are text, `used` is 0
/// or not.
#[derive(Debug)]
pub struct LoginChallengeRow {
    pub id: String,
    pub user_id: String,
    pub code_hash: String,
    pub expires_at: String,
    pub used: i64,
    pub created_at: String,
}

/// A pending second factor: the hash of the code sent, when it expires and
/// whether it was already used.
#[derive(Debug)]
pub struct LoginChallenge {
    pub id: u128,
    pub user_id: u128,
    pub code_hash: String,
    pub expires_at: Timestamp,
    pub used: bool,
    pub created_at: Timestamp,
}

/// Every text field of a stored challenge reads as what it stands for.
pub open spec fn spec_challenge_row_valid(row: LoginChallengeRow) -> bool {
    &&& spec_parse_id(row.id@) is Some
    &&& spec_parse_id(row.user_id@) is Some
    &&& spec_parse_rfc3339(row.expires_at@) is Some
    &&& spec_parse_rfc3339(row.created_at@) is Some
}

/// `c` is what the stored `row` stands for; any non-zero `used` means used.
pub open spec fn spec_challenge_from_row(row: LoginChallengeRow, c: LoginChallenge) -> bool {
    &&& spec_parse_id(row.id@) == Some(c.id)
    &&& spec_parse_id(row.user_id@) == Some(c.user_id)
    &&& c.code_hash@ == row.code_hash@
    &&& spec_reads_as_time(row.expires_at@, c.expires_at)
    &&& c.used == (row.used != 0)
    &&& spec_reads_as_time(row.created_at@, c.created_at)
}

impl LoginChallenge {
    /// Reads a stored challenge. Fails exactly where some identifier or time
    /// does not read; the message then comes from the reading crate and its
    /// wording is left unsaid.
    pub fn try_from(row: LoginChallengeRow) -> (r: Result<LoginChallenge, String>)
        ensures
            r is Ok <==> spec_challenge_row_valid(row),
            r matches Ok(c) ==> spec_challenge_from_row(row, c),
    {
        let id = match parse_id(row.id.as_str()) {
            Ok(v) => v,
            Err(e) => return Err(e),
        };
        let user_id = match parse_id(row.user_id.as_str()) {
            Ok(v) => v,
            Err(e) => return Err(e),
        };
        let expires_at = match parse_rfc3339(row.expires_at.as_str()) {
            Ok(v) => v,
            Err(e) => return Err(e),
        };
        let created_at = match parse_rfc3339(row.created_at.as_str()) {
            Ok(v) => v,
            Err(e) => return Err(e),
        };
        Ok(LoginChallenge {
            id,
            user_id,
            code_hash: row.code_hash,
            expires_at,
            used: row.used != 0,
            created_at,
        })
    }
}

/// The claims an access token carries: the user's identifier (as text),
/// email and role, and when it was issued and expires (Unix seconds).
#[derive(Debug)]
pub struct Claims {
    pub sub: String,
    pub email: String,
    pub role: String,
    pub exp: i64,
    pub iat: i64,
}

} // verus!
