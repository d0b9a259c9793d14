//! The shared-secret check that guards the operations that change anything.
//!
//! There is one secret, configured at startup. Whoever presents it, in the
//! cookie named `auth`, is the administrator. There are no sessions and
//! nothing expires: the cookie's value is the secret itself.

use vstd::prelude::*;
use crate::error::ServiceError;

verus! {

/// The name of the cookie that carries the secret.
pub const COOKIE_NAME: &'static str = "auth";

/// The path for which the cookie is set.
pub const COOKIE_PATH: &'static str = "/";

/// The body of a login request.
#[derive(Debug)]
pub struct LoginRequest {
    pub token: String,
}

/// What is known of the sender of a request.
#[derive(Debug)]
pub struct AuthData {
    pub admin: bool,
}

/// The capability to create, update and delete: only an administrator's
/// request yields one.
#[derive(Debug)]
pub struct NeedAuth {}

/// The cookie that a successful login sets.
#[derive(Debug)]
pub struct AuthCookie {
    pub name: String,
    pub value: String,
    pub path: String,
    pub secure: bool,
    pub http_only: bool,
}

/// Why a login was refused.
#[derive(Clone, Copy, Debug, PartialEq, Eq, Structural)]
pub enum LoginError {
    /// The presented token is not the configured secret.
    InvalidToken,
    /// The token is right, but the configured cookie-secure flag is
    /// neither `true` nor `false`.
    InvalidSecureFlag,
}

/// The value of a cookie-secure flag: `true` and `false` are read, nothing
/// else is.
pub open spec fn flag_of(text: Seq<char>) -> Option<bool> {
    if text == "true"@ {
        Some(true)
    } else if text == "false"@ {
        Some(false)
    } else {
        None
    }
}

/// Whether a request with this cookie presents the secret. A request that
/// carries no cookie presents nothing, whatever the secret is.
pub open spec fn presents(cookie: Option<&str>, secret: Seq<char>) -> bool {
    cookie matches Some(value) && value@ == secret
}

/// Whether the presented secret is the configured one.
pub fn check_secret(presented: &str, configured: &str) -> (granted: bool)
    ensures
        granted == (presented@ == configured@),
{
    presented.to_owned() == configured.to_owned()
}

/// Reads a flag: `true` or `false`, exactly so.
pub fn parse_flag(text: &str) -> (flag: Option<bool>)
    ensures
        flag == flag_of(text@),
{
    if check_secret(text, "true") {
        Some(true)
    } else if check_secret(text, "false") {
        Some(false)
    } else {
        None
    }
}

impl AuthData {
    /// Judges a request by its cookie: the sender is the administrator
    /// where the cookie is there and its value is the secret. A request
    /// without the cookie is never the administrator's.
    pub fn from_cookie(cookie: Option<&str>, admin_token: &str) -> (data: AuthData)
        ensures
            data.admin == presents(cookie, admin_token@),
    {
        match cookie {
            Some(value) => AuthData { admin: check_secret(value, admin_token) },
            None => AuthData { admin: false },
        }
    }
}

impl NeedAuth {
    /// Grants the capability to an administrator and refuses it to anyone
    /// else.
    pub fn from_auth_data(data: &AuthData) -> (r: Result<NeedAuth, ServiceError>)
        ensures
            r.is_ok() == data.admin,
            r matches Err(e) ==> e == ServiceError::Auth,
    {
        if data.admin {
            Ok(NeedAuth {  })
        } else {
            Err(ServiceError::Auth)
        }
    }

    /// Judges a request by its cookie and grants or refuses the capability.
    pub fn from_cookie(cookie: Option<&str>, admin_token: &str) -> (r: Result<
        NeedAuth,
        ServiceError,
    >)
        ensures
            r.is_ok() == presents(cookie, admin_token@),
            r matches Err(e) ==> e == ServiceError::Auth,
    {
        let data = AuthData::from_cookie(cookie, admin_token);
        NeedAuth::from_auth_data(&data)
    }
}

/// Decides a login. A token that is the configured secret earns the cookie
/// that carries it: named `auth`, set for the path `/`, hidden from scripts,
/// and bound to secure transport as the configured flag says. The flag is
/// read only once the token has been found right.
pub fn login(request: LoginRequest, admin_token: &str, cookie_secure: &str) -> (r: Result<
    AuthCookie,
    LoginError,
>)
    ensures
        request.token@ != admin_token@ ==> r == Err::<AuthCookie, LoginError>(
            LoginError::InvalidToken,
        ),
        request.token@ == admin_token@ && flag_of(cookie_secure@) is None ==> r == Err::<
            AuthCookie,
            LoginError,
        >(LoginError::InvalidSecureFlag),
        request.token@ == admin_token@ && flag_of(cookie_secure@) is Some ==> (r matches Ok(cookie)
            && cookie.name@ == COOKIE_NAME@ && cookie.value@ == request.token@ && cookie.path@
            == COOKIE_PATH@ && cookie.secure == flag_of(cookie_secure@).unwrap()
            && cookie.http_only),
{
    if !check_secret(request.token.as_str(), admin_token) {
        return Err(LoginError::InvalidToken);
    }
    match parse_flag(cookie_secure) {
        Some(secure) => Ok(
            AuthCookie {
                name: COOKIE_NAME.to_owned(),
                value: request.token,
                path: COOKIE_PATH.to_owned(),
                secure,
                http_only: true,
            },
        ),
        None => Err(LoginError::InvalidSecureFlag),
    }
}

} // verus!
