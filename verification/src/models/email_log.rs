use vstd::prelude::*;

use crate::clock::{parse_rfc3339, spec_parse_rfc3339, Timestamp};
use crate::ids::{parse_id, spec_parse_id};
use crate::models::user::spec_reads_as_time;

verus! {

/// An email as stored in the development outbox: identifiers and time are
/// text.
#[derive(Debug)]
pub struct EmailLogRow {
    pub id: String,
    pub user_id: String,
    pub email: String,
    pub code: String,
    pub purpose: String,
    pub created_at: String,
}

/// An email that was "sent": to whom, with which code and for what.
#[derive(Debug)]
pub struct EmailLog {
    pub id: u128,
    pub user_id: u128,
    pub email: String,
    pub code: String,
    pub purpose: String,
    pub created_at: Timestamp,
}

/// Every text field of a stored email reads as what it stands for.
pub open spec fn spec_email_row_valid(row: EmailLogRow) -> bool {
    &&& spec_parse_id(row.id@) is Some
    &&& spec_parse_id(row.user_id@) is Some
    &&& spec_parse_rfc3339(row.created_at@) is Some
}

/// `log` is what the stored `row` stands for.
pub open spec fn spec_email_from_row(row: EmailLogRow, log: EmailLog) -> bool {
    &&& spec_parse_id(row.id@) == Some(log.id)
    &&& spec_parse_id(row.user_id@) == Some(log.user_id)
    &&& log.email@ == row.email@
    &&& log.code@ == row.code@
    &&& log.purpose@ == row.purpose@
    &&& spec_reads_as_time(row.created_at@, log.created_at)
}

impl EmailLog {
    /// Reads a stored email. Fails exactly where some identifier or time does
    /// not read; the message then comes from the reading crate and its wording
    /// is left unsaid.
    pub fn try_from(row: EmailLogRow) -> (r: Result<EmailLog, String>)
        ensures
            r is Ok <==> spec_email_row_valid(row),
            r matches Ok(log) ==> spec_email_from_row(row, log),
    {
        let id = match parse_id(row.id.as_str()) {
            Ok(v) => v,
            Err(e) => return Err(e),
        };
        let user_id = match parse_id(row.user_id.as_str()) {
            Ok(v) => v,
            Err(e) => return Err(e),
        };
        let created_at = match parse_rfc3339(row.created_at.as_str()) {
            Ok(v) => v,
            Err(e) => return Err(e),
        };
        Ok(EmailLog {
            id,
            user_id,
            email: row.email,
            code: row.code,
            purpose: row.purpose,
            created_at,
        })
    }
}

/// The development view of a sent email.
#[derive(Debug)]
pub struct EmailLogResponse {
    pub id: u128,
    pub to: String,
    pub purpose: String,
    pub code: String,
    pub created_at: Timestamp,
}

impl EmailLogResponse {
    /// The shown form of a sent email: `to` is its recipient.
    pub fn from(log: EmailLog) -> (r: EmailLogResponse)
        ensures
            r.id == log.id,
            r.to == log.email,
            r.purpose == log.purpose,
            r.code == log.code,
            r.created_at == log.created_at,
    {
        EmailLogResponse {
            id: log.id,
            to: log.email,
            purpose: log.purpose,
            code: log.code,
            created_at: log.created_at,
        }
    }
}

} // verus!
