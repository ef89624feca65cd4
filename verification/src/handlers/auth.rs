use vstd::prelude::*;

use crate::auth::otp::{generate_code, hash_code, spec_hash_code, spec_is_code};
use crate::clock::{
    add_seconds, spec_add_seconds, spec_before, spec_in_range, spec_max_secs, utc_now, Timestamp,
};
use crate::error::AppError;
use crate::models::auth::LoginChallenge;
use crate::models::user::User;
use crate::text::str_equals;

verus! {

/// What a new login challenge stores: the hash of the code sent and when
/// the code stops being accepted.
#[derive(Debug)]
pub struct ChallengeTerms {
    pub code_hash: String,
    pub expires_at: Timestamp,
}

/// The terms of a challenge for `code` opened at `now` that lasts
/// `ttl_seconds`: the code's hash, and `now` plus the time to live. `None`
/// where that sum is out of the calendar's range.
pub fn challenge_terms(code: &str, now: Timestamp, ttl_seconds: i64) -> (r: Option<ChallengeTerms>)
    ensures
        match r {
            Some(t) => t.code_hash@ == spec_hash_code(code@) && spec_add_seconds(
                now.secs,
                now.nanos,
                ttl_seconds,
            ) == Some((t.expires_at.secs, t.expires_at.nanos)),
            None => spec_add_seconds(now.secs, now.nanos, ttl_seconds) is None,
        },
        now.nanos < 1_000_000_000 ==> (r matches Some(t) ==> t.expires_at == Timestamp {
            secs: (now.secs + ttl_seconds) as i64,
            nanos: now.nanos,
        }),
        now.nanos < 1_000_000_000 && spec_in_range(now.secs as int) && spec_in_range(
            now.secs + ttl_seconds,
        ) ==> r is Some,
{
    let expires_at = match add_seconds(now, ttl_seconds) {
        Some(t) => t,
        None => return None,
    };
    Some(ChallengeTerms { code_hash: hash_code(code), expires_at })
}

/// Opens a login challenge now: a fresh random six-digit code (to be sent to
/// the user) and the terms to store, lasting `ttl_seconds`. `None` where the
/// expiry is out of the calendar's range.
pub fn open_challenge(ttl_seconds: i64) -> (r: Option<(String, ChallengeTerms)>)
    ensures
        match r {
            Some(p) => {
                &&& spec_is_code(p.0@)
                &&& p.1.code_hash@ == spec_hash_code(p.0@)
                &&& exists|now: Timestamp|
                    now.nanos < 1_000_000_000 && #[trigger] spec_add_seconds(
                        now.secs,
                        now.nanos,
                        ttl_seconds,
                    ) == Some((p.1.expires_at.secs, p.1.expires_at.nanos)) && p.1.expires_at
                        == (Timestamp { secs: (now.secs + ttl_seconds) as i64, nanos: now.nanos })
            },
            None => exists|now: Timestamp|
                now.nanos < 1_000_000_000 && 0 <= now.secs <= spec_max_secs() && !spec_in_range(
                    now.secs + ttl_seconds,
                ) && #[trigger] spec_add_seconds(now.secs, now.nanos, ttl_seconds) is None,
        },
{
    let code = generate_code();
    let now = utc_now();
    match challenge_terms(code.as_str(), now, ttl_seconds) {
        Some(terms) => Some((code, terms)),
        None => None,
    }
}

/// How a submitted second-factor code is judged.
#[derive(Clone, Copy, Debug, PartialEq, Eq, Structural)]
pub enum Verdict {
    Accepted,
    UnknownChallenge,
    AlreadyUsed,
    Expired,
    WrongCode,
}

/// The verdict on `code` submitted at `now` for a challenge (if it exists):
/// a used challenge is refused first, then an expired one (its expiry lies
/// strictly before `now`), then a code whose hash differs from the stored
/// hash.
pub open spec fn spec_verdict(c: Option<LoginChallenge>, code: Seq<char>, now: Timestamp) -> Verdict {
    match c {
        None => Verdict::UnknownChallenge,
        Some(ch) => if ch.used {
            Verdict::AlreadyUsed
        } else if spec_before(ch.expires_at, now) {
            Verdict::Expired
        } else if spec_hash_code(code) != ch.code_hash@ {
            Verdict::WrongCode
        } else {
            Verdict::Accepted
        },
    }
}

/// The challenge as stored after it was accepted: the same, marked used.
pub open spec fn spec_mark_used(c: LoginChallenge) -> LoginChallenge {
    LoginChallenge { used: true, ..c }
}

/// `r` is the outcome for verdict `v`: on acceptance, the challenge marked
/// used; for an unknown, used or expired challenge, a bad request with its
/// message; for a wrong code, unauthorized.
pub open spec fn spec_answers(
    c: Option<LoginChallenge>,
    v: Verdict,
    r: Result<LoginChallenge, AppError>,
) -> bool {
    match v {
        Verdict::Accepted => c matches Some(ch) && r == Ok::<LoginChallenge, AppError>(
            spec_mark_used(ch),
        ),
        Verdict::UnknownChallenge => r matches Err(AppError::BadRequest(m)) && m@
            == "invalid login_challenge_id"@,
        Verdict::AlreadyUsed => r matches Err(AppError::BadRequest(m)) && m@
            == "verification code already used"@,
        Verdict::Expired => r matches Err(AppError::BadRequest(m)) && m@
            == "verification code expired"@,
        Verdict::WrongCode => r == Err::<LoginChallenge, AppError>(AppError::Unauthorized),
    }
}

/// Judges `code` submitted at `now` for a challenge. On success the
/// challenge comes back marked used, to be stored so, which makes the code
/// single-use.
pub fn check_challenge(challenge: Option<LoginChallenge>, code: &str, now: Timestamp) -> (r: Result<
    LoginChallenge,
    AppError,
>)
    ensures
        spec_answers(challenge, spec_verdict(challenge, code@, now), r),
        r matches Ok(out) ==> {
            &&& challenge matches Some(c)
            &&& !c.used
            &&& (now.secs < c.expires_at.secs || (now.secs == c.expires_at.secs && now.nanos
                <= c.expires_at.nanos))
            &&& spec_hash_code(code@) == c.code_hash@
            &&& out.used
            &&& out.id == c.id
            &&& out.user_id == c.user_id
            &&& out.code_hash == c.code_hash
            &&& out.expires_at == c.expires_at
            &&& out.created_at == c.created_at
        },
        challenge matches Some(c) && !c.used && (c.expires_at.secs < now.secs || (
        c.expires_at.secs == now.secs && c.expires_at.nanos < now.nanos)) ==> (r matches Err(
            AppError::BadRequest(m),
        ) && m@ == "verification code expired"@),
        challenge matches Some(c) && c.used ==> (r matches Err(AppError::BadRequest(m)) && m@
            == "verification code already used"@),
{
    let c = match challenge {
        Some(c) => c,
        None => return Err(AppError::BadRequest("invalid login_challenge_id".to_owned())),
    };
    if c.used {
        return Err(AppError::BadRequest("verification code already used".to_owned()));
    }
    if c.expires_at.is_before(&now) {
        return Err(AppError::BadRequest("verification code expired".to_owned()));
    }
    let submitted = hash_code(code);
    if !str_equals(submitted.as_str(), c.code_hash.as_str()) {
        return Err(AppError::Unauthorized);
    }
    Ok(LoginChallenge { used: true, ..c })
}

/// Judges `code` submitted now for a challenge, as `check_challenge` does
/// at the current time.
pub fn verify_challenge(challenge: Option<LoginChallenge>, code: &str) -> (r: Result<
    LoginChallenge,
    AppError,
>)
    ensures
        exists|now: Timestamp|
            now.nanos < 1_000_000_000 && 0 <= now.secs <= spec_max_secs() && #[trigger]
                spec_answers(challenge, spec_verdict(challenge, code@, now), r),
        challenge matches Some(c) && c.used ==> (r matches Err(AppError::BadRequest(m)) && m@
            == "verification code already used"@),
        challenge is None ==> (r matches Err(AppError::BadRequest(m)) && m@
            == "invalid login_challenge_id"@),
        r matches Ok(out) ==> (challenge matches Some(c) && !c.used && spec_hash_code(code@)
            == c.code_hash@ && out.used),
{
    let now = utc_now();
    check_challenge(challenge, code, now)
}

/// The user a verified challenge belongs to must exist; if not, that is an
/// internal error.
pub fn challenge_owner(user: Option<User>) -> (r: Result<User, AppError>)
    ensures
        match user {
            Some(u) => r == Ok::<User, AppError>(u),
            None => r matches Err(AppError::Internal(m)) && m@ == "user for challenge not found"@,
        },
{
    match user {
        Some(u) => Ok(u),
        None => Err(AppError::Internal("user for challenge not found".to_owned())),
    }
}

/// A code is accepted at most once: once a challenge was accepted and stored
/// marked used, every later submission for it, with any code at any time, is
/// refused as already used.
pub proof fn law_code_single_use(
    c: LoginChallenge,
    code: Seq<char>,
    now: Timestamp,
    later_code: Seq<char>,
    later: Timestamp,
)
    requires
        spec_verdict(Some(c), code, now) == Verdict::Accepted,
    ensures
        spec_verdict(Some(spec_mark_used(c)), later_code, later) == Verdict::AlreadyUsed,
{
}

/// A challenge's own code, submitted before its expiry to an unused
/// challenge, is accepted.
pub proof fn law_own_code_accepted(code: Seq<char>, c: LoginChallenge, now: Timestamp)
    requires
        c.code_hash@ == spec_hash_code(code),
        !c.used,
        !spec_before(c.expires_at, now),
    ensures
        spec_verdict(Some(c), code, now) == Verdict::Accepted,
{
}

/// An unused challenge opened at `opened` (outside a leap second) with a time
/// to live of `ttl_seconds` refuses every code as expired once more than the
/// time to live has passed.
pub proof fn law_code_expires(
    opened: Timestamp,
    ttl_seconds: i64,
    c: LoginChallenge,
    code: Seq<char>,
    now: Timestamp,
)
    requires
        opened.nanos < 1_000_000_000,
        c.expires_at == (Timestamp { secs: (opened.secs + ttl_seconds) as i64, nanos: opened.nanos }),
        opened.secs + ttl_seconds <= i64::MAX,
        opened.secs + ttl_seconds >= i64::MIN,
        !c.used,
        now.secs > opened.secs + ttl_seconds,
    ensures
        spec_verdict(Some(c), code, now) == Verdict::Expired,
{
}

/// A challenge opened at `opened` (outside a leap second) with a
/// non-negative time to live accepts its own code when judged at the moment
/// it was opened or any moment up to the end of its time to live, and refuses
/// it as expired at any later moment: the window of a code is exactly the
/// time to live that follows the opening.
pub proof fn law_code_window(
    opened: Timestamp,
    ttl_seconds: i64,
    c: LoginChallenge,
    code: Seq<char>,
    judged: Timestamp,
)
    requires
        opened.nanos < 1_000_000_000,
        ttl_seconds >= 0,
        opened.secs + ttl_seconds <= i64::MAX,
        c.expires_at == (Timestamp { secs: (opened.secs + ttl_seconds) as i64, nanos: opened.nanos }),
        c.code_hash@ == spec_hash_code(code),
        !c.used,
    ensures
        (opened.secs < judged.secs || (opened.secs == judged.secs && opened.nanos <= judged.nanos))
            && (judged.secs < opened.secs + ttl_seconds || (judged.secs == opened.secs
            + ttl_seconds && judged.nanos <= opened.nanos)) ==> spec_verdict(Some(c), code, judged)
            == Verdict::Accepted,
        judged.secs > opened.secs + ttl_seconds ==> spec_verdict(Some(c), code, judged)
            == Verdict::Expired,
        judged == opened ==> spec_verdict(Some(c), code, judged) == Verdict::Accepted,
{
}

/// A code whose hash is not the stored one is refused as a wrong code by an
/// unused, unexpired challenge.
pub proof fn law_wrong_code_refused(c: LoginChallenge, code: Seq<char>, now: Timestamp)
    requires
        spec_hash_code(code) != c.code_hash@,
        !c.used,
        !spec_before(c.expires_at, now),
    ensures
        spec_verdict(Some(c), code, now) == Verdict::WrongCode,
{
}

} // verus!
