use vstd::prelude::*;

use crate::clock::{
    add_seconds, spec_add_seconds, spec_in_range, spec_max_secs, utc_now, Timestamp,
};
use crate::error::AppError;
use crate::ids::{id_text, parse_id, spec_id_text, spec_parse_id};
use crate::models::auth::Claims;
use crate::models::user::{spec_role_text, User};

verus! {

/// `claims` name `user` (its identifier's text, email and role text) and
/// were issued at `iat` to expire at `exp`.
pub open spec fn spec_claims_for(user: User, iat: int, exp: int, claims: Claims) -> bool {
    &&& claims.sub@ == spec_id_text(user.id)
    &&& claims.email@ == user.email@
    &&& claims.role@ == spec_role_text(user.role)
    &&& claims.iat == iat
    &&& claims.exp == exp
}

impl Claims {
    /// The claims of an access token for `user` issued at `now` that lasts
    /// `expiry_seconds` seconds: issued at `now`'s second, expiring at the
    /// second of `now` plus the expiry. `None` where that sum is out of the
    /// calendar's range.
    pub fn for_user(user: &User, now: Timestamp, expiry_seconds: i64) -> (r: Option<Claims>)
        ensures
            match r {
                Some(c) => spec_add_seconds(now.secs, now.nanos, expiry_seconds) matches Some(
                    end,
                ) && spec_claims_for(*user, now.secs as int, end.0 as int, c),
                None => spec_add_seconds(now.secs, now.nanos, expiry_seconds) is None,
            },
            now.nanos < 1_000_000_000 ==> (r matches Some(c) ==> c.exp == now.secs
                + expiry_seconds),
            now.nanos < 1_000_000_000 && spec_in_range(now.secs as int) && spec_in_range(
                now.secs + expiry_seconds,
            ) ==> r is Some,
    {
        let end = match add_seconds(now, expiry_seconds) {
            Some(t) => t,
            None => return None,
        };
        Some(
            Claims {
                sub: id_text(user.id),
                email: user.email.clone(),
                role: user.role.as_str().to_owned(),
                iat: now.secs,
                exp: end.secs,
            },
        )
    }
}

/// The claims of an access token for `user` issued now that lasts
/// `expiry_seconds` seconds. `None` where the expiry is out of the
/// calendar's range.
pub fn token_claims(user: &User, expiry_seconds: i64) -> (r: Option<Claims>)
    ensures
        r matches Some(c) ==> 0 <= c.iat <= spec_max_secs(),
        match r {
            Some(c) => c.exp == c.iat + expiry_seconds && spec_claims_for(
                *user,
                c.iat as int,
                c.exp as int,
                c,
            ),
            None => exists|now: Timestamp|
                now.nanos < 1_000_000_000 && 0 <= now.secs <= spec_max_secs() && !spec_in_range(
                    now.secs + expiry_seconds,
                ) && #[trigger] spec_add_seconds(now.secs, now.nanos, expiry_seconds) is None,
        },
{
    let now = utc_now();
    let r = Claims::for_user(user, now, expiry_seconds);
    proof {
        if r is None {
            assert(spec_in_range(now.secs as int));
        }
    }
    r
}

/// The user identifier a token's subject names; a subject that is not an
/// identifier is refused as unauthorized.
pub fn parse_user_id(claims: &Claims) -> (r: Result<u128, AppError>)
    ensures
        match r {
            Ok(id) => spec_parse_id(claims.sub@) == Some(id),
            Err(e) => spec_parse_id(claims.sub@) is None && e == AppError::Unauthorized,
        },
        forall|id: u128| #[trigger] spec_id_text(id) == claims.sub@ ==> r == Ok::<u128, AppError>(id),
{
    match parse_id(claims.sub.as_str()) {
        Ok(id) => Ok(id),
        Err(_) => Err(AppError::Unauthorized),
    }
}

} // verus!
