use vstd::prelude::*;

use crate::auth::jwt::parse_user_id;
use crate::error::AppError;
use crate::ids::{spec_id_text, spec_parse_id};
use crate::models::auth::Claims;
use crate::models::user::{lemma_role_text_round_trip, spec_parse_role, spec_role_text, UserRole};

verus! {

/// The authenticated caller: who they are and their role, from a valid
/// access token.
#[derive(Debug)]
pub struct AuthUser {
    pub user_id: u128,
    pub email: String,
    pub role: UserRole,
}

/// The scheme word, and the space after it, that starts a bearer
/// `Authorization` header.
pub open spec fn spec_bearer_prefix() -> Seq<char> {
    seq!['B', 'e', 'a', 'r', 'e', 'r', ' ']
}

/// The token a header value carries: what follows `Bearer `, if it starts so.
pub open spec fn spec_bearer_token(header: Seq<char>) -> Option<Seq<char>> {
    if header.len() >= 7 && header.subrange(0, 7) == spec_bearer_prefix() {
        Some(header.subrange(7, header.len() as int))
    } else {
        None
    }
}

/// The header `Bearer ` followed by any text carries exactly that text as its
/// token, however long.
pub proof fn law_bearer_token_is_the_rest(t: Seq<char>)
    ensures
        spec_bearer_token(seq!['B', 'e', 'a', 'r', 'e', 'r', ' '] + t) == Some(t),
{
    let h = seq!['B', 'e', 'a', 'r', 'e', 'r', ' '] + t;
    assert(h.subrange(0, 7) =~= spec_bearer_prefix());
    assert(h.subrange(7, h.len() as int) =~= t);
}

/// A header yields a token only when it is `Bearer ` followed by that token;
/// any other header yields none.
pub proof fn law_bearer_token_needs_the_prefix(h: Seq<char>)
    ensures
        spec_bearer_token(h) matches Some(t) ==> h == seq!['B', 'e', 'a', 'r', 'e', 'r', ' '] + t,
        (forall|t: Seq<char>| h != seq!['B', 'e', 'a', 'r', 'e', 'r', ' '] + t) ==> spec_bearer_token(
            h,
        ) is None,
{
    if h.len() >= 7 && h.subrange(0, 7) == spec_bearer_prefix() {
        let t = h.subrange(7, h.len() as int);
        assert(h =~= seq!['B', 'e', 'a', 'r', 'e', 'r', ' '] + t);
    }
}

/// The token of an `Authorization` header: missing headers and headers that
/// do not start with `Bearer ` are refused as unauthorized; otherwise the
/// token is the whole rest of the header.
pub fn bearer_token(header: Option<&str>) -> (r: Result<&str, AppError>)
    ensures
        r matches Ok(tok) ==> (header matches Some(h) && h@ == spec_bearer_prefix() + tok@),
        forall|t: Seq<char>|
            header matches Some(h) && h@ == #[trigger] (spec_bearer_prefix() + t) ==> (
            r matches Ok(tok) && tok@ == t),
        match header {
            None => r == Err::<&str, AppError>(AppError::Unauthorized),
            Some(h) => match spec_bearer_token(h@) {
                Some(t) => r matches Ok(token) && token@ == t,
                None => r == Err::<&str, AppError>(AppError::Unauthorized),
            },
        },
{
    let h = match header {
        Some(h) => h,
        None => return Err(AppError::Unauthorized),
    };
    let prefix = "Bearer ";
    proof {
        reveal_strlit("Bearer ");
    }
    let n = h.unicode_len();
    if n < 7 {
        return Err(AppError::Unauthorized);
    }
    let mut i: usize = 0;
    while i < 7
        invariant
            i <= 7,
            n == h@.len(),
            n >= 7,
            header == Some(h),
            prefix@ == spec_bearer_prefix(),
            forall|k: int| 0 <= k < i ==> h@[k] == spec_bearer_prefix()[k],
        decreases 7 - i,
    {
        if h.get_char(i) != prefix.get_char(i) {
            let ghost c = h@.subrange(0, 7);
            assert(c[i as int] != spec_bearer_prefix()[i as int]);
            assert(c != spec_bearer_prefix());
            assert(spec_bearer_token(h@) is None);
            return Err(AppError::Unauthorized);
        }
        i = i + 1;
    }
    assert(h@.subrange(0, 7) =~= spec_bearer_prefix());
    let tok = h.substring_char(7, n);
    proof {
        assert(h@ =~= spec_bearer_prefix() + tok@);
        assert forall|t: Seq<char>| h@ == #[trigger] (spec_bearer_prefix() + t) implies tok@ == t by {
            assert(t =~= h@.subrange(7, h@.len() as int));
        }
    }
    Ok(tok)
}

impl AuthUser {
    /// Only administrators pass; anyone else is forbidden.
    pub fn require_admin(&self) -> (r: Result<(), AppError>)
        ensures
            self.role == UserRole::Admin ==> r == Ok::<(), AppError>(()),
            self.role != UserRole::Admin ==> r == Err::<(), AppError>(AppError::Forbidden),
    {
        match self.role {
            UserRole::Admin => Ok(()),
            UserRole::Staff => Err(AppError::Forbidden),
        }
    }

    /// The caller a token's verified claims name. A subject that is not an
    /// identifier, or a role that is not a role, is refused as unauthorized.
    /// Claims issued for a user (their identifier's text and role text) are
    /// always accepted, as that user.
    pub fn from_claims(claims: &Claims) -> (r: Result<AuthUser, AppError>)
        ensures
            r is Ok <==> spec_parse_id(claims.sub@) is Some && spec_parse_role(claims.role@) is Some,
            r matches Ok(a) ==> {
                &&& spec_parse_id(claims.sub@) == Some(a.user_id)
                &&& spec_parse_role(claims.role@) == Some(a.role)
                &&& a.email@ == claims.email@
            },
            r matches Err(e) ==> e == AppError::Unauthorized,
            forall|id: u128, role: UserRole|
                #![trigger spec_id_text(id), spec_role_text(role)]
                claims.sub@ == spec_id_text(id) && claims.role@ == spec_role_text(role) ==> (
                r matches Ok(a) && a.user_id == id && a.role == role && a.email@ == claims.email@),
    {
        let user_id = match parse_user_id(claims) {
            Ok(id) => id,
            Err(e) => return Err(e),
        };
        let role = match UserRole::from_str(claims.role.as_str()) {
            Ok(role) => role,
            Err(_) => return Err(AppError::Unauthorized),
        };
        let r = AuthUser { user_id, email: claims.email.clone(), role };
        proof {
            assert forall|id: u128, role2: UserRole|
                #![trigger spec_id_text(id), spec_role_text(role2)]
                claims.sub@ == spec_id_text(id) && claims.role@ == spec_role_text(role2) implies (
                r.user_id == id && r.role == role2) by {
                lemma_role_text_round_trip(role2);
            }
        }
        Ok(r)
    }
}

} // verus!
