//! Principals: the claims carried by a bearer token, and the authenticated or
//! guest caller that handlers consult.
use vstd::prelude::*;
use crate::models;

verus! {

/// The scheme prefix of an `Authorization` header value.
pub const BEARER: &'static str = "Bearer ";

/// The name of the header that carries the token.
pub const AUTHORIZATION: &'static str = "Authorization";

/// How long an issued token stays valid, in seconds: one day.
pub const TOKEN_LIFETIME_SECS: i64 = 86400;

/// Why a request carries no usable token.
#[derive(Clone, Debug)]
pub enum AuthenticationError {
    Missing,
    Decoding(String),
    Expired,
}

/// The claims of a token: the user it was issued to, and when it expires
/// (seconds since the Unix epoch).
#[derive(Clone, Debug)]
pub struct AuthenticatedUser {
    pub data: models::User,
    pub exp: usize,
}

/// The caller of a handler: authenticated, or a guest.
#[derive(Clone, Debug)]
pub enum User {
    Authenticated(AuthenticatedUser),
    Guest,
}

/// The principal's id: present only for an authenticated caller whose user
/// record has one.
pub open spec fn principal_of(u: User) -> Option<i32> {
    match u {
        User::Authenticated(a) => a.data.id,
        User::Guest => None,
    }
}

/// Relies on `chrono::Utc::now`: the current time in whole seconds since the
/// Unix epoch.
#[verifier::external_body]
fn unix_now() -> (r: i64) {
    chrono::Utc::now().timestamp()
}

/// The token in a `Bearer <token>` header value; `Missing` when the value
/// does not start with the scheme.
pub fn bearer_token(value: &str) -> (r: Result<String, AuthenticationError>)
    ensures
        match r {
            Ok(t) => BEARER@.is_prefix_of(value@) && t@ == value@.skip(BEARER@.len() as int),
            Err(e) => !BEARER@.is_prefix_of(value@) && e is Missing,
        },
{
    let n = value.unicode_len();
    let m = BEARER.unicode_len();
    if n < m {
        return Err(AuthenticationError::Missing);
    }
    let mut i: usize = 0;
    while i < m
        invariant
            n == value@.len(),
            m == BEARER@.len(),
            m <= n,
            i <= m,
            value@.subrange(0, i as int) =~= BEARER@.subrange(0, i as int),
        decreases m - i,
    {
        if value.get_char(i) != BEARER.get_char(i) {
            assert(!BEARER@.is_prefix_of(value@)) by {
                if BEARER@.is_prefix_of(value@) {
                    assert(value@.subrange(0, m as int)[i as int] == value@[i as int]);
                }
            }
            return Err(AuthenticationError::Missing);
        }
        i = i + 1;
        assert(value@.subrange(0, i as int) =~= BEARER@.subrange(0, i as int));
    }
    assert(BEARER@.subrange(0, m as int) =~= BEARER@);
    Ok(String::from_str(value.substring_char(m, n)))
}

/// The expiry of a token issued at `now`: a day later, if that is a
/// timestamp both `i64` and `usize` can hold.
pub open spec fn expiry_after(now: int) -> Option<int> {
    let e = now + TOKEN_LIFETIME_SECS;
    if 0 <= e <= i64::MAX && e <= usize::MAX {
        Some(e)
    } else {
        None
    }
}

impl AuthenticatedUser {
    /// The id of the user; the user must have been stored.
    pub fn id(&self) -> (r: i32)
        requires
            self.data.id is Some,
        ensures
            r == self.data.id->0,
    {
        self.data.id.unwrap()
    }

    /// Claims for a user, not yet given an expiry.
    pub fn from_user(user: models::User) -> (r: Self)
        ensures
            r.data == user,
            r.exp == 0,
    {
        AuthenticatedUser { data: user, exp: 0 }
    }

    /// Claims as decoded from a token.
    pub fn from_claims(data: models::User, exp: usize) -> (r: Self)
        ensures
            r.data == data,
            r.exp == exp,
    {
        AuthenticatedUser { data, exp }
    }

    /// When the token expires, in seconds since the Unix epoch.
    pub fn expires_at(&self) -> (r: usize)
        ensures
            r == self.exp,
    {
        self.exp
    }

    /// The claims with the expiry of a token issued at `now`; absent when that
    /// expiry is not a valid timestamp.
    pub fn issued_at(self, now: i64) -> (r: Option<Self>)
        ensures
            match expiry_after(now as int) {
                Some(e) => r matches Some(c) && c.data == self.data && c.exp == e,
                None => r is None,
            },
    {
        if now > i64::MAX - TOKEN_LIFETIME_SECS {
            return None;
        }
        let e = now + TOKEN_LIFETIME_SECS;
        if e < 0 || e as u64 > usize::MAX as u64 {
            return None;
        }
        Some(AuthenticatedUser { data: self.data, exp: e as usize })
    }

    /// The claims with the expiry of a token issued now.
    pub fn issue(self) -> (r: Option<Self>)
        ensures
            r matches Some(c) ==> c.data == self.data,
    {
        self.issued_at(unix_now())
    }
}

impl User {
    /// The principal's id; absent for a guest, and for a user record with no
    /// id, so that such a caller is refused wherever an id is compared.
    pub fn id(&self) -> (r: Option<i32>)
        ensures
            r == principal_of(*self),
    {
        match self {
            User::Authenticated(u) => u.data.id,
            User::Guest => None,
        }
    }
}

} // verus!
