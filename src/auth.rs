//! Credential checks: which requests need a session credential, how one is
//! read from a request, registration and login.
use vstd::prelude::*;
use vstd::string::{StrSliceExecFns, StringExecFns};
use crate::model::{AppError, Claims, CreateUser, LoginUser, User};
use crate::store::{find_user, MonitorStore};
use crate::text::{has_prefix, starts_with, str_eq};

verus! {

/// A session credential lives this long, in seconds.
pub const TOKEN_LIFETIME: i64 = 86400;

/// Whether `password` matches the bcrypt hash `hash`.
pub uninterp spec fn bcrypt_accepts(password: Seq<char>, hash: Seq<char>) -> bool;

/// Relies on `bcrypt::verify`: checks a password against a stored hash; a
/// hash that does not parse matches nothing.
#[verifier::external_body]
fn bcrypt_verify(password: &str, hash: &str) -> (r: bool)
    ensures
        r == bcrypt_accepts(password@, hash@),
{
    bcrypt::verify(password.as_bytes(), hash).unwrap_or(false)
}

impl User {
    /// Whether `password` is this account's password.
    pub fn verify_password(&self, password: &str) -> (r: bool)
        ensures
            r == bcrypt_accepts(password@, self.password_hash@),
    {
        bcrypt_verify(password, self.password_hash.as_str())
    }
}

/// Requests to these paths need no credential.
pub open spec fn is_public(path: Seq<char>) -> bool {
    starts_with(path, "/api/auth"@) || path == "/"@ || path == "/api/status"@
}

/// Whether a request to `path` goes through without a credential.
pub fn is_public_path(path: &str) -> (r: bool)
    ensures
        r == is_public(path@),
{
    has_prefix(path, "/api/auth") || str_eq(path, "/") || str_eq(path, "/api/status")
}

/// The credential an `Authorization` header carries: what follows
/// `Bearer `. A missing header or another scheme is `Unauthorized`.
pub fn bearer_token(header: Option<&str>) -> (r: Result<String, AppError>)
    ensures
        match header {
            Some(h) => if starts_with(h@, "Bearer "@) {
                r matches Ok(t) && t@ == h@.skip(7)
            } else {
                r matches Err(AppError::Unauthorized)
            },
            None => r matches Err(AppError::Unauthorized),
        },
{
    proof {
        reveal_strlit("Bearer ");
    }
    match header {
        None => Err(AppError::Unauthorized),
        Some(h) => if has_prefix(h, "Bearer ") {
            let n = h.unicode_len();
            Ok(String::from_str(h.substring_char(7, n)))
        } else {
            Err(AppError::Unauthorized)
        },
    }
}

/// An account added under a free name is the one a login under that name
/// finds, and its stored hash accepts the password it registered with, so
/// that login succeeds.
pub proof fn lemma_register_then_login(users: Seq<User>, u: User, password: Seq<char>)
    requires
        find_user(users, u.username@).is_none(),
        bcrypt_accepts(password, u.password_hash@),
    ensures
        find_user(users.push(u), u.username@) == Some(u),
        bcrypt_accepts(password, find_user(users.push(u), u.username@)->0.password_hash@),
{
    let s = users.push(u);
    assert(s[users.len() as int].username@ == u.username@);
    let k = choose|k: int| 0 <= k < s.len() && s[k].username@ == u.username@;
    if k < users.len() {
        assert(users[k].username@ == u.username@);
    }
}

pub struct AuthService {}

impl AuthService {
    pub fn new() -> Self {
        AuthService {}
    }

    /// Registers an account; a name that is taken is `UsernameTaken`.
    pub fn register(&self, store: &mut MonitorStore, user: CreateUser, now: i64) -> (r: Result<
        User,
        AppError,
    >)
        requires
            old(store).wf(),
        ensures
            final(store).wf(),
            find_user(old(store).users(), user.username@).is_some() ==> (r matches Err(
                AppError::UsernameTaken,
            ) && final(store).users() == old(store).users()),
            find_user(old(store).users(), user.username@).is_none() ==> (r is Ok || r matches Err(
                AppError::DatabaseError,
            )),
            r matches Ok(u) ==> u.username == user.username && u.email == user.email
                && bcrypt_accepts(user.password@, u.password_hash@) && final(store).users() == old(
                store).users().push(u),
            final(store).monitors() == old(store).monitors(),
            final(store).notifications() == old(store).notifications(),
    {
        if User::find_by_username(store, user.username.as_str()).is_some() {
            return Err(AppError::UsernameTaken);
        }
        User::create(store, user, now)
    }

    /// Logs in with `credentials`: the account's claims, valid for a day
    /// from `now`. An unknown name and a wrong password are the same error.
    pub fn login(&self, store: &MonitorStore, credentials: &LoginUser, now: i64) -> (r: Result<
        Claims,
        AppError,
    >)
        requires
            store.wf(),
            now <= i64::MAX - TOKEN_LIFETIME,
        ensures
            match find_user(store.users(), credentials.username@) {
                Some(u) => if bcrypt_accepts(credentials.password@, u.password_hash@) {
                    r == Ok::<Claims, AppError>(
                        Claims { sub: u.id, username: u.username, exp: (now + TOKEN_LIFETIME) as i64 },
                    )
                } else {
                    r matches Err(AppError::InvalidCredentials)
                },
                None => r matches Err(AppError::InvalidCredentials),
            },
    {
        let user = match User::find_by_username(store, credentials.username.as_str()) {
            Some(u) => u,
            None => return Err(AppError::InvalidCredentials),
        };
        if !user.verify_password(credentials.password.as_str()) {
            return Err(AppError::InvalidCredentials);
        }
        Ok(Claims { sub: user.id, username: user.username, exp: now + TOKEN_LIFETIME })
    }
}

} // verus!
