//! Login and logout orchestration: request validation, credential
//! lookup, claim building, and the caller-scoped session that remembers
//! or forgets a token. Signing the claim into a bearer token is the
//! collaborating token layer's job; the caller hands the signed token to
//! the session.

use vstd::prelude::*;
use vstd::string::StrSliceExecFns;

use crate::crypto::hash;
use crate::crypto::hash_of;
use crate::errors::ApiError;
use crate::user::auth_index;
use crate::user::find_by_auth;
use crate::user::invalid_login_msg;
use crate::user::response_of;
use crate::user::UserResponse;
use crate::user::UserStore;

verus! {

/// How long an issued claim stays valid, in seconds.
pub const TOKEN_TTL_SECONDS: i64 = 3600;

/// A login request body: an email and a plaintext password.
#[derive(Clone, Debug, PartialEq)]
pub struct LoginRequest {
    pub email: String,
    pub password: String,
}

/// The payload embedded into a signed token: subject id, email, and the
/// issue and expiry instants.
#[derive(Clone, Debug, PartialEq)]
pub struct PrivateClaim {
    pub user_id: String,
    pub email: String,
    pub issued_at: i64,
    pub expires_at: i64,
}

impl PrivateClaim {
    /// A claim for the given identity, issued now and expiring one
    /// lifetime later.
    pub fn new(user_id: String, email: String, now: i64) -> (r: PrivateClaim)
        requires
            now <= i64::MAX - TOKEN_TTL_SECONDS,
        ensures
            r.user_id == user_id,
            r.email == email,
            r.issued_at == now,
            r.expires_at == now + TOKEN_TTL_SECONDS,
    {
        PrivateClaim { user_id, email, issued_at: now, expires_at: now + TOKEN_TTL_SECONDS }
    }
}

/// A caller-scoped session: it remembers at most one token, and only
/// through `remember` and `forget`, never inspecting the token's format.
#[derive(Clone, Debug, PartialEq)]
pub struct Session {
    pub token: Option<String>,
}

impl Session {
    /// A session with nothing remembered.
    pub fn new() -> (r: Session)
        ensures
            r.token is None,
    {
        Session { token: None }
    }

    /// Remember a token for this caller, replacing any earlier one.
    pub fn remember(&mut self, token: String)
        ensures
            final(self).token == Some(token),
    {
        self.token = Some(token);
    }

    /// Forget the remembered token; forgetting twice is not an error.
    pub fn forget(&mut self)
        ensures
            final(self).token is None,
    {
        self.token = None;
    }
}

/// Whether a string passes the email syntax check.
pub uninterp spec fn is_email(s: Seq<char>) -> bool;

/// Relies on validator's `ValidateEmail` for `str`: the HTML5 email
/// syntax check, a function of the characters alone; its source rejects
/// an empty string and any string without an '@'.
#[verifier::external_body]
fn check_email(s: &str) -> (r: bool)
    ensures
        r == is_email(s@),
        s@.len() == 0 ==> !r,
        !s@.contains('@') ==> !r,
{
    validator::ValidateEmail::validate_email(&s)
}

/// The message reported for a malformed email field.
pub open spec fn email_err_msg() -> Seq<char> {
    "email must be a valid email"@
}

/// The message reported for a too-short password field.
pub open spec fn password_err_msg() -> Seq<char> {
    "password is required and must be at least 6 characters"@
}

/// A login request's field constraints all hold: the email is
/// syntactically valid and the password has at least 6 characters.
pub open spec fn login_request_valid(email: Seq<char>, password: Seq<char>) -> bool {
    is_email(email) && password.len() >= 6
}

/// Check a login request's field constraints; a failure enumerates every
/// violated field, not just the first, and nothing else is touched.
pub fn validate(request: &LoginRequest) -> (r: Result<(), ApiError>)
    ensures
        r is Ok <==> login_request_valid(request.email@, request.password@),
        match r {
            Ok(()) => true,
            Err(e) => match e {
                ApiError::ValidationError(msgs) => {
                    &&& msgs@.len() == (if !is_email(request.email@) { 1int } else { 0int }) + (
                    if request.password@.len() < 6 { 1int } else { 0int })
                    &&& (!is_email(request.email@) ==> msgs@[0]@ == email_err_msg())
                    &&& (request.password@.len() < 6 ==> msgs@[msgs@.len() - 1]@
                        == password_err_msg())
                },
                _ => false,
            },
        },
        !request.email@.contains('@') ==> !is_email(request.email@),
        request.email@.len() == 0 ==> !is_email(request.email@),
{
    let mut msgs: Vec<String> = Vec::new();
    let email_ok = check_email(request.email.as_str());
    if !email_ok {
        msgs.push("email must be a valid email".to_owned());
    }
    let password_len = request.password.as_str().unicode_len();
    if password_len < 6 {
        msgs.push("password is required and must be at least 6 characters".to_owned());
    }
    if email_ok && password_len >= 6 {
        Ok(())
    } else {
        Err(ApiError::ValidationError(msgs))
    }
}

/// Log a user in: validate the request, hash the supplied password, look
/// the pair up, and on a match hand back the claim to be signed together
/// with the user's public shape. A validation failure reports the bad
/// fields; any credential mismatch is the same generic `Unauthorized`.
pub fn login(store: &UserStore, request: &LoginRequest, now: i64) -> (r: Result<
    (PrivateClaim, UserResponse),
    ApiError,
>)
    requires
        now <= i64::MAX - TOKEN_TTL_SECONDS,
    ensures
        match r {
            Ok((claim, resp)) => {
                let k = auth_index(store@, request.email@, hash_of(request.password@));
                &&& login_request_valid(request.email@, request.password@)
                &&& k >= 0
                &&& resp == response_of(store@[k])
                &&& claim.user_id == store@[k].id
                &&& claim.email == store@[k].email
                &&& claim.issued_at == now
                &&& claim.expires_at == now + TOKEN_TTL_SECONDS
            },
            Err(e) => match e {
                ApiError::ValidationError(msgs) => {
                    &&& !login_request_valid(request.email@, request.password@)
                    &&& msgs@.len() == (if !is_email(request.email@) { 1int } else { 0int }) + (
                    if request.password@.len() < 6 { 1int } else { 0int })
                    &&& (!is_email(request.email@) ==> msgs@[0]@ == email_err_msg())
                    &&& (request.password@.len() < 6 ==> msgs@[msgs@.len() - 1]@
                        == password_err_msg())
                },
                ApiError::Unauthorized(m) => {
                    &&& login_request_valid(request.email@, request.password@)
                    &&& auth_index(store@, request.email@, hash_of(request.password@)) == -1
                    &&& m@ == invalid_login_msg()
                },
                _ => false,
            },
        },
{
    match validate(request) {
        Ok(()) => {}
        Err(e) => {
            return Err(e);
        }
    }
    let hashed = hash(request.password.as_str());
    match find_by_auth(store, request.email.as_str(), hashed.as_str()) {
        Ok(user) => {
            let claim = PrivateClaim::new(user.id.clone(), user.email.clone(), now);
            Ok((claim, user))
        }
        Err(e) => Err(e),
    }
}

/// Log a user out: forget the session's token and acknowledge success.
/// This always succeeds, even when no token was remembered.
pub fn logout(session: &mut Session) -> (r: Result<(), ApiError>)
    ensures
        r is Ok,
        final(session).token is None,
{
    session.forget();
    Ok(())
}

} // verus!
