//! The decisions of request authentication: the scheme of the
//! `Authorization` header, the expiry of a verified token, and what an
//! optional or required authentication yields.

use vstd::prelude::*;
use crate::error::AppError;

verus! {

/// How long a session token stays valid: two weeks, in seconds.
pub const SESSION_LENGTH_SECONDS: i64 = 1209600;

/// The authenticated caller.
#[derive(Clone, Debug)]
pub struct AuthUser {
    pub user_id: String,
}

/// The caller, if a valid token came with the request.
#[derive(Clone, Debug)]
pub struct MaybeAuthUser(pub Option<AuthUser>);

/// The scheme that precedes the token in the `Authorization` header.
pub open spec fn scheme_prefix() -> Seq<char> {
    seq!['B', 'e', 'a', 'r', 'e', 'r', ' ']
}

pub open spec fn has_scheme_prefix(header: Seq<char>) -> bool {
    header.len() >= scheme_prefix().len() && header.subrange(0, scheme_prefix().len() as int) == scheme_prefix()
}

/// The token of an `Authorization` header: what follows `"Bearer "`. A
/// header without that prefix is `Unauthorized`.
pub fn bearer_token(header: &str) -> (r: Result<&str, AppError>)
    ensures
        r is Ok <==> has_scheme_prefix(header@),
        r matches Ok(t) ==> t@ == header@.subrange(scheme_prefix().len() as int, header@.len() as int),
        r matches Err(e) ==> e == AppError::Unauthorized,
{
    let prefix: [char; 7] = ['B', 'e', 'a', 'r', 'e', 'r', ' '];
    let len = header.unicode_len();
    if len < 7 {
        return Err(AppError::Unauthorized);
    }
    let mut i: usize = 0;
    while i < 7
        invariant
            0 <= i <= 7,
            len == header@.len(),
            len >= 7,
            prefix@ == scheme_prefix(),
            forall|j: int| 0 <= j < i ==> header@[j] == #[trigger] scheme_prefix()[j],
        decreases 7 - i,
    {
        if header.get_char(i) != prefix[i] {
            assert(header@.subrange(0, 7)[i as int] != scheme_prefix()[i as int]);
            return Err(AppError::Unauthorized);
        }
        i += 1;
    }
    assert(header@.subrange(0, 7) =~= scheme_prefix());
    Ok(header.substring_char(7, len))
}

/// The expiry of a token issued at `now` (seconds since the epoch).
pub fn session_expiry(now: i64) -> (r: i64)
    requires
        now <= i64::MAX - SESSION_LENGTH_SECONDS,
    ensures
        r == now + SESSION_LENGTH_SECONDS,
{
    now + SESSION_LENGTH_SECONDS
}

/// Accepts the claims of a verified token at time `now`: the caller is the
/// token's user unless the token expired before `now`.
pub fn check_claims(user_id: String, exp: i64, now: i64) -> (r: Result<AuthUser, AppError>)
    ensures
        r is Ok <==> exp >= now,
        r matches Ok(u) ==> u.user_id == user_id,
        r matches Err(e) ==> e == AppError::Unauthorized,
{
    if exp < now {
        Err(AppError::Unauthorized)
    } else {
        Ok(AuthUser { user_id })
    }
}

impl MaybeAuthUser {
    /// Optional authentication: no header, or a header that fails, is an
    /// anonymous caller.
    pub fn from_outcome(outcome: Option<Result<AuthUser, AppError>>) -> (r: MaybeAuthUser)
        ensures
            r.0 == match outcome {
                Some(Ok(u)) => Some(u),
                _ => None::<AuthUser>,
            },
    {
        match outcome {
            Some(Ok(u)) => MaybeAuthUser(Some(u)),
            _ => MaybeAuthUser(None),
        }
    }
}

impl AuthUser {
    /// Required authentication: a missing header is `Unauthorized`, a header
    /// that fails keeps its error.
    pub fn from_outcome(outcome: Option<Result<AuthUser, AppError>>) -> (r: Result<AuthUser, AppError>)
        ensures
            r == match outcome {
                Some(o) => o,
                None => Err::<AuthUser, AppError>(AppError::Unauthorized),
            },
    {
        match outcome {
            Some(o) => o,
            None => Err(AppError::Unauthorized),
        }
    }
}

/// The outcome of checking a password against a stored hash.
#[derive(Clone, Copy, Debug, PartialEq, Eq, Structural)]
pub enum PasswordCheck {
    /// The password matches the hash.
    Match,
    /// The hash was read, and the password does not match it.
    Mismatch,
    /// The stored hash could not be read or used.
    Unreadable,
}

/// A wrong password is `Unauthorized`; a hash that cannot be used is a
/// `HashingError`.
pub fn password_check_result(check: PasswordCheck) -> (r: Result<(), AppError>)
    ensures
        r is Ok <==> check == PasswordCheck::Match,
        check == PasswordCheck::Mismatch ==> r == Err::<(), AppError>(AppError::Unauthorized),
        check == PasswordCheck::Unreadable ==> r == Err::<(), AppError>(AppError::HashingError),
{
    match check {
        PasswordCheck::Match => Ok(()),
        PasswordCheck::Mismatch => Err(AppError::Unauthorized),
        PasswordCheck::Unreadable => Err(AppError::HashingError),
    }
}

} // verus!
