use vstd::prelude::*;

use crate::clock::{parse_rfc3339, spec_parse_rfc3339, Timestamp};
use crate::ids::{parse_id, spec_parse_id};
use crate::text::{concat, str_equals};

verus! {

/// A user's role: administrators manage tasks, staff see their own.
#[derive(Clone, Copy, Debug, PartialEq, Eq, Structural)]
pub enum UserRole {
    Admin,
    Staff,
}

/// The stored and displayed text of a role.
pub open spec fn spec_role_text(r: UserRole) -> Seq<char> {
    match r {
        UserRole::Admin => seq!['a', 'd', 'm', 'i', 'n'],
        UserRole::Staff => seq!['s', 't', 'a', 'f', 'f'],
    }
}

impl UserRole {
    pub fn as_str(&self) -> (r: &'static str)
        ensures
            r@ == spec_role_text(*self),
    {
        match self {
            UserRole::Admin => {
                proof {
                    reveal_strlit("admin");
                }
                "admin"
            },
            UserRole::Staff => {
                proof {
                    reveal_strlit("staff");
                }
                "staff"
            },
        }
    }
}

/// The role whose text is `s`, if any.
pub open spec fn spec_parse_role(s: Seq<char>) -> Option<UserRole> {
    if s == spec_role_text(UserRole::Admin) {
        Some(UserRole::Admin)
    } else if s == spec_role_text(UserRole::Staff) {
        Some(UserRole::Staff)
    } else {
        None
    }
}

impl UserRole {
    /// Reads a role from its text; any other text is refused with
    /// the message `invalid role: <text>`.
    pub fn from_str(s: &str) -> (r: Result<UserRole, String>)
        ensures
            match r {
                Ok(role) => spec_parse_role(s@) == Some(role),
                Err(msg) => spec_parse_role(s@) is None && msg@ == "invalid role: "@ + s@,
            },
    {
        let admin = UserRole::Admin.as_str();
        let staff = UserRole::Staff.as_str();
        if str_equals(s, admin) {
            Ok(UserRole::Admin)
        } else if str_equals(s, staff) {
            Ok(UserRole::Staff)
        } else {
            Err(concat("invalid role: ", s))
        }
    }
}

/// Reading back the text of a role gives the role.
pub proof fn lemma_role_text_round_trip(r: UserRole)
    ensures
        spec_parse_role(spec_role_text(r)) == Some(r),
{
    assert(spec_role_text(UserRole::Admin) != spec_role_text(UserRole::Staff)) by {
        assert(spec_role_text(UserRole::Admin)[0] != spec_role_text(UserRole::Staff)[0]);
    }
}

/// A text that is read as a role is that role's text.
pub proof fn lemma_role_parse_inverse(s: Seq<char>)
    ensures
        spec_parse_role(s) matches Some(r) ==> spec_role_text(r) == s,
{
}

/// A user as stored: identifiers and times are text.
#[derive(Debug)]
pub struct UserRow {
    pub id: String,
    pub full_name: String,
    pub email: String,
    pub password_hash: String,
    pub role: String,
    pub created_at: String,
    pub updated_at: String,
}

/// A user, with its identifier, role and times read from their text.
#[derive(Debug)]
pub struct User {
    pub id: u128,
    pub full_name: String,
    pub email: String,
    pub password_hash: String,
    pub role: UserRole,
    pub created_at: Timestamp,
    pub updated_at: Timestamp,
}

/// A stored time text reads as the given point in time.
pub open spec fn spec_reads_as_time(text: Seq<char>, t: Timestamp) -> bool {
    spec_parse_rfc3339(text) == Some((t.secs, t.nanos))
}

/// Every text field of a stored user reads as what it stands for.
pub open spec fn spec_user_row_valid(row: UserRow) -> bool {
    &&& spec_parse_id(row.id@) is Some
    &&& spec_parse_role(row.role@) is Some
    &&& spec_parse_rfc3339(row.created_at@) is Some
    &&& spec_parse_rfc3339(row.updated_at@) is Some
}

/// `user` is what the stored `row` stands for.
pub open spec fn spec_user_from_row(row: UserRow, user: User) -> bool {
    &&& spec_parse_id(row.id@) == Some(user.id)
    &&& user.full_name@ == row.full_name@
    &&& user.email@ == row.email@
    &&& user.password_hash@ == row.password_hash@
    &&& spec_parse_role(row.role@) == Some(user.role)
    &&& spec_reads_as_time(row.created_at@, user.created_at)
    &&& spec_reads_as_time(row.updated_at@, user.updated_at)
}

impl User {
    /// Reads a stored user. Fails exactly where some field does not read.
    /// Fields are read in order (identifier, role, times); where the role is
    /// the first that fails, the message is `invalid role: <text>`, while the
    /// wording for an identifier or a time comes from the reading crate and
    /// is left unsaid.
    pub fn try_from(row: UserRow) -> (r: Result<User, String>)
        ensures
            r is Ok <==> spec_user_row_valid(row),
            r matches Ok(user) ==> spec_user_from_row(row, user),
            spec_parse_id(row.id@) is Some && spec_parse_role(row.role@) is None ==> (r matches Err(
                msg,
            ) ==> msg@ == "invalid role: "@ + row.role@),
    {
        let id = match parse_id(row.id.as_str()) {
            Ok(v) => v,
            Err(e) => return Err(e),
        };
        let role = match UserRole::from_str(row.role.as_str()) {
            Ok(v) => v,
            Err(e) => return Err(e),
        };
        let created_at = match parse_rfc3339(row.created_at.as_str()) {
            Ok(v) => v,
            Err(e) => return Err(e),
        };
        let updated_at = match parse_rfc3339(row.updated_at.as_str()) {
            Ok(v) => v,
            Err(e) => return Err(e),
        };
        Ok(User {
            id,
            full_name: row.full_name,
            email: row.email,
            password_hash: row.password_hash,
            role,
            created_at,
            updated_at,
        })
    }
}

/// A user as shown in responses.
#[derive(Debug)]
pub struct UserResponse {
    pub id: u128,
    pub full_name: String,
    pub email: String,
    pub role: String,
}

impl UserResponse {
    /// The shown form of a user: its identifier, name, email and role text.
    pub fn from(user: &User) -> (r: UserResponse)
        ensures
            r.id == user.id,
            r.full_name@ == user.full_name@,
            r.email@ == user.email@,
            r.role@ == spec_role_text(user.role),
    {
        UserResponse {
            id: user.id,
            full_name: user.full_name.clone(),
            email: user.email.clone(),
            role: user.role.as_str().to_owned(),
        }
    }
}

/// The request to create an arbitrary user.
#[derive(Debug)]
pub struct CreateUserRequest {
    pub full_name: String,
    pub email: String,
    pub password: String,
    pub role: String,
}

/// The answer to seeding the fixed accounts.
#[derive(Debug)]
pub struct SeedUsersResponse {
    pub message: String,
    pub users: Vec<UserResponse>,
}

} // verus!
