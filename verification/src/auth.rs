//! Decision procedures of the authentication service.
//!
//! The service itself lives with the database and token library it calls;
//! what is decided from plain values is here: the error taxonomy, the
//! per-user rate-limiting window, the password comparison, the claims a
//! token carries and the check a presented token must pass. Times are
//! plain seconds; the caller reads the clock.

use vstd::prelude::*;

verus! {

/// The default lifetime of an issued token, in seconds.
pub const DEFAULT_JWT_EXPIRY_SECONDS: usize = 3600;

/// How many authentication requests one user may make per minute.
pub const DEFAULT_AUTH_RATE_LIMIT_PER_MINUTE: u32 = 5;

/// The rate-limiting window, in seconds.
pub const AUTH_RATE_LIMIT_WINDOW_SECONDS: u64 = 60;

/// Why an authentication operation failed.
#[derive(Debug)]
pub enum AuthError {
    UserAlreadyExists,
    UserNotFound,
    InvalidPassword,
    DbError(String),
    JwtError(String),
    RateLimitExceeded,
    Unauthorized,
}

/// A user as the authentication store holds it.
pub struct AuthUser {
    pub id: i64,
    pub username: String,
    pub password_hash: String,
    pub salt: String,
    pub email: String,
    pub created_at: String,
    pub updated_at: String,
}

/// A user as shown outward: no password hash, no salt.
pub struct SafeUser {
    pub id: i64,
    pub username: String,
    pub email: String,
    pub created_at: String,
    pub updated_at: String,
}

impl From<AuthUser> for SafeUser {
    /// Keep everything but the secrets.
    fn from(user: AuthUser) -> (r: Self) {
        SafeUser {
            id: user.id,
            username: user.username,
            email: user.email,
            created_at: user.created_at,
            updated_at: user.updated_at,
        }
    }
}

impl vstd::std_specs::convert::FromSpecImpl<AuthUser> for SafeUser {
    open spec fn obeys_from_spec() -> bool {
        true
    }

    open spec fn from_spec(user: AuthUser) -> SafeUser {
        SafeUser {
            id: user.id,
            username: user.username,
            email: user.email,
            created_at: user.created_at,
            updated_at: user.updated_at,
        }
    }
}

/// What a token asserts: the user it was issued to and when it expires,
/// in seconds since the epoch.
pub struct Claims {
    pub sub: String,
    pub exp: usize,
}

/// The claims a fresh token for `username` carries: issued now, expiring
/// `expiry_secs` from now.
pub fn make_claims(username: &str, now_secs: usize, expiry_secs: usize) -> (r: Claims)
    requires
        now_secs + expiry_secs <= usize::MAX,
    ensures
        r.sub@ == username@,
        r.exp == now_secs + expiry_secs,
{
    Claims { sub: username.to_owned(), exp: now_secs + expiry_secs }
}

/// The check a presented token must pass: it names exactly the user the
/// caller claims to be. Anything else is `Unauthorized`.
pub fn validate_claims(claims: &Claims, username: &str) -> (r: Result<(), AuthError>)
    ensures
        r is Ok <==> claims.sub@ == username@,
        r matches Err(e) ==> e is Unauthorized,
{
    if claims.sub == username.to_owned() {
        Ok(())
    } else {
        Err(AuthError::Unauthorized)
    }
}

/// The password check: authentication succeeds exactly when the presented
/// hash matches the stored one; otherwise the password is rejected.
pub fn check_password(stored: &AuthUser, password_hash: &str) -> (r: Result<(), AuthError>)
    ensures
        r is Ok <==> stored.password_hash@ == password_hash@,
        r matches Err(e) ==> e is InvalidPassword,
{
    if stored.password_hash == password_hash.to_owned() {
        Ok(())
    } else {
        Err(AuthError::InvalidPassword)
    }
}

/// One user's standing with the rate limiter: how many requests the
/// current window has seen, and when it started, in seconds.
#[derive(Clone, Copy, PartialEq, Eq, Structural, Debug)]
pub struct RateLimitEntry {
    pub count: u32,
    pub window_start_secs: u64,
}

/// Advance one user's rate-limiting state by one request at time
/// `now_secs`: a window older than the limit is reset and the request
/// admitted as its first; within the window, the request is admitted
/// while the count is below the per-minute limit and refused once it
/// reaches it, leaving the state untouched.
pub fn check_rate_limit_entry(entry: RateLimitEntry, now_secs: u64) -> (r: (
    bool,
    RateLimitEntry,
))
    requires
        entry.window_start_secs <= now_secs,
    ensures
        now_secs - entry.window_start_secs > AUTH_RATE_LIMIT_WINDOW_SECONDS ==> r == (
            true,
            RateLimitEntry { count: 1, window_start_secs: now_secs },
        ),
        now_secs - entry.window_start_secs <= AUTH_RATE_LIMIT_WINDOW_SECONDS
            && entry.count < DEFAULT_AUTH_RATE_LIMIT_PER_MINUTE ==> r == (
            true,
            RateLimitEntry { count: (entry.count + 1) as u32, window_start_secs: entry.window_start_secs },
        ),
        now_secs - entry.window_start_secs <= AUTH_RATE_LIMIT_WINDOW_SECONDS
            && entry.count >= DEFAULT_AUTH_RATE_LIMIT_PER_MINUTE ==> r == (false, entry),
{
    if now_secs - entry.window_start_secs > AUTH_RATE_LIMIT_WINDOW_SECONDS {
        (true, RateLimitEntry { count: 1, window_start_secs: now_secs })
    } else if entry.count < DEFAULT_AUTH_RATE_LIMIT_PER_MINUTE {
        (true, RateLimitEntry { count: entry.count + 1, window_start_secs: entry.window_start_secs })
    } else {
        (false, entry)
    }
}

/// Registration is refused exactly when the username is already taken.
pub fn check_registration(user_exists: bool) -> (r: Result<(), AuthError>)
    ensures
        r is Ok <==> !user_exists,
        r matches Err(e) ==> e is UserAlreadyExists,
{
    if user_exists {
        Err(AuthError::UserAlreadyExists)
    } else {
        Ok(())
    }
}

} // verus!
