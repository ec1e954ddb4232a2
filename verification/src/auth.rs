//! Authentication: its error set and the decisions of the auth routes.
//!
//! The route handlers interleave database calls with decisions; the
//! decisions stand here as pure functions over the call results, so that
//! the classification of every outcome is verified whatever the database
//! returned.

use crate::error::{AppError, DbFailure, ErrorShape};
use crate::message::{Message, MessageModel};
use crate::model::User;
use crate::route_error;
use crate::session::SessionOrApiKey;
use crate::text::{bytes_eq, str_eq};
use vstd::prelude::*;

verus! {

/// The digest the password hasher derives from a password and the user id
/// used as its salt: a function of those two values alone.
pub uninterp spec fn spec_password_digest(password: Seq<char>, user_id: u128) -> Seq<u8>;

/// A password of at most this many characters hashes successfully: a
/// character takes at most four UTF-8 bytes, and the hasher accepts
/// passwords up to four times this many bytes.
pub const MAX_PASSWORD_CHARS: usize = 0x3FFF_FFFF;

/// Hashes a password, using the user's id as a salt.
///
/// Relies on `argon2::Argon2::hash_password_into` with the default
/// parameters: a pure digest of password and salt, written into a 32-byte
/// buffer. The 16-byte salt and the 32-byte output are within its
/// documented bounds, so with a password of at most
/// [`MAX_PASSWORD_CHARS`] characters the call succeeds; allocation of
/// the hasher's working memory is taken to succeed, as this environment
/// takes every allocation. Any failure is reported here as `None`.
#[verifier::external_body]
pub fn hash_password(password: &str, user_id: u128) -> (r: Option<Vec<u8>>)
    ensures
        r matches Some(h) ==> h@ == spec_password_digest(password@, user_id) && h@.len() == 32,
        password@.len() <= MAX_PASSWORD_CHARS ==> r is Some,
{
    let mut hash = [0u8; 32];
    let salt = uuid::Uuid::from_u128(user_id);
    match argon2::Argon2::default().hash_password_into(password.as_bytes(), salt.as_bytes(), &mut hash) {
        Ok(()) => Some(hash.to_vec()),
        Err(_) => None,
    }
}

/// An error that can occur during authentication.
///
/// Note that the messages are presented to the client, so they do not
/// contain sensitive information; in particular, a failed login never
/// reveals whether the email or the password was wrong.
#[derive(Debug, PartialEq)]
pub enum Error {
    /// The login credentials did not match a user.
    InvalidUsernameOrPassword,
    /// The password hasher failed.
    Argon,
    /// A cookie could not be parsed.
    Cookie,
    /// The request carried neither a session cookie nor an API key.
    NoSessionCookieOrApiKey,
    /// The session cookie did not resolve to a session.
    InvalidSessionCookie,
    /// The API key did not resolve to a user.
    InvalidApiKey,
    /// The chosen username is already taken.
    UsernameTaken,
    /// The chosen email is already taken.
    EmailTaken,
}

/// The auth routes' composed error type.
pub type RouteError = route_error::RouteError<Error>;

/// The body of a login request.
#[derive(Debug, PartialEq)]
pub struct LoginInput {
    pub email: String,
    pub password: String,
}

/// The body of a registration request.
#[derive(Debug, PartialEq)]
pub struct RegisterInput {
    pub email: String,
    pub password: String,
    /// The username that is displayed to the public.
    pub username: String,
}

/// The body of a profile update request; absent fields stay unchanged.
#[derive(Debug, PartialEq)]
pub struct UpdateUserInput {
    pub email: Option<String>,
    pub username: Option<String>,
}

impl ErrorShape for Error {
    /// Missing or invalid credentials are 401, internal failures 500,
    /// uniqueness conflicts 409.
    open spec fn spec_status(&self) -> u16 {
        match self {
            Error::InvalidUsernameOrPassword
            | Error::NoSessionCookieOrApiKey
            | Error::InvalidSessionCookie
            | Error::InvalidApiKey => 401,
            Error::Argon | Error::Cookie => 500,
            Error::UsernameTaken | Error::EmailTaken => 409,
        }
    }

    open spec fn spec_messages(&self) -> Seq<MessageModel> {
        match self {
            Error::InvalidUsernameOrPassword => seq![
                crate::error::spec_code_content(
                    "invalid_username_or_password"@,
                    "An invalid username or password was provided."@,
                ),
            ],
            Error::Argon => seq![
                crate::error::spec_code_content(
                    "password_hash_error"@,
                    "An error occurred while hashing the password."@,
                ),
            ],
            Error::Cookie => seq![
                crate::error::spec_code_content(
                    "cookie_parse_error"@,
                    "An error occurred while parsing the cookie."@,
                ),
            ],
            Error::NoSessionCookieOrApiKey => seq![
                crate::error::spec_code_content(
                    "authentication_required"@,
                    "An authentication cookie or API key is required."@,
                ),
            ],
            Error::InvalidSessionCookie => seq![
                crate::error::spec_code_content(
                    "invalid_session"@,
                    "The provided session cookie is invalid."@,
                ),
            ],
            Error::InvalidApiKey => seq![
                crate::error::spec_code_content(
                    "invalid_api_key"@,
                    "The provided API key is invalid."@,
                ),
            ],
            Error::UsernameTaken => seq![
                crate::error::spec_code_content(
                    "username_taken"@,
                    "The provided username is already taken."@,
                ),
            ],
            Error::EmailTaken => seq![
                crate::error::spec_code_content(
                    "email_taken"@,
                    "The provided email is already taken."@,
                ),
            ],
        }
    }

    open spec fn spec_headers(&self) -> Option<Seq<(Seq<char>, Seq<char>)>> {
        None
    }

    fn status(&self) -> u16 {
        match self {
            Error::InvalidUsernameOrPassword
            | Error::NoSessionCookieOrApiKey
            | Error::InvalidSessionCookie
            | Error::InvalidApiKey => 401,
            Error::Argon | Error::Cookie => 500,
            Error::UsernameTaken | Error::EmailTaken => 409,
        }
    }

    fn into_errors(self) -> (r: Vec<Message>) {
        match self {
            Error::InvalidUsernameOrPassword => crate::error::msg_with_content(
                "invalid_username_or_password",
                "An invalid username or password was provided.",
            ).into_vec(),
            Error::Argon => crate::error::msg_with_content(
                "password_hash_error",
                "An error occurred while hashing the password.",
            ).into_vec(),
            Error::Cookie => crate::error::msg_with_content(
                "cookie_parse_error",
                "An error occurred while parsing the cookie.",
            ).into_vec(),
            Error::NoSessionCookieOrApiKey => crate::error::msg_with_content(
                "authentication_required",
                "An authentication cookie or API key is required.",
            ).into_vec(),
            Error::InvalidSessionCookie => crate::error::msg_with_content(
                "invalid_session",
                "The provided session cookie is invalid.",
            ).into_vec(),
            Error::InvalidApiKey => crate::error::msg_with_content(
                "invalid_api_key",
                "The provided API key is invalid.",
            ).into_vec(),
            Error::UsernameTaken => crate::error::msg_with_content(
                "username_taken",
                "The provided username is already taken.",
            ).into_vec(),
            Error::EmailTaken => crate::error::msg_with_content(
                "email_taken",
                "The provided email is already taken.",
            ).into_vec(),
        }
    }

    fn headers(&self) -> Option<Vec<(String, String)>> {
        None
    }
}

// ---------------------------------------------------------------------------
// Route decisions
// ---------------------------------------------------------------------------

/// The login decision over the results of the user lookup and of the
/// password hasher: any lookup failure and any digest mismatch become the
/// same `invalid_username_or_password` error, a hasher failure becomes an
/// internal error, and only a matching digest logs the user in.
pub open spec fn spec_login_decision(lookup: Result<User, DbFailure>, hash: Option<Vec<u8>>)
    -> Result<User, RouteError> {
    match lookup {
        Err(_) => Err(route_error::RouteError::Route(Error::InvalidUsernameOrPassword)),
        Ok(u) => match hash {
            None => Err(route_error::RouteError::Route(Error::Argon)),
            Some(h) => if u.password@ == h@ {
                Ok(u)
            } else {
                Err(route_error::RouteError::Route(Error::InvalidUsernameOrPassword))
            },
        },
    }
}

/// Decides a login attempt from the lookup and hashing results.
pub fn login_decision(lookup: Result<User, DbFailure>, hash: Option<Vec<u8>>) -> (r: Result<
    User,
    RouteError,
>)
    ensures
        r == spec_login_decision(lookup, hash),
{
    let user = match lookup {
        Ok(u) => u,
        Err(_) => {
            return Err(route_error::RouteError::Route(Error::InvalidUsernameOrPassword));
        },
    };
    let hashed = match hash {
        Some(h) => h,
        None => {
            return Err(route_error::RouteError::Route(Error::Argon));
        },
    };
    if bytes_eq(&user.password, &hashed) {
        Ok(user)
    } else {
        Err(route_error::RouteError::Route(Error::InvalidUsernameOrPassword))
    }
}

/// Verifies a login attempt: hashes the password with the looked-up
/// user's id as salt and applies [`login_decision`]. For any password of
/// at most [`MAX_PASSWORD_CHARS`] characters, success is returned if and
/// only if the stored password equals the freshly derived digest.
pub fn login_verify(lookup: Result<User, DbFailure>, password: &str) -> (r: Result<
    User,
    RouteError,
>)
    ensures
        lookup matches Err(_) ==> r == Err::<User, RouteError>(
            route_error::RouteError::Route(Error::InvalidUsernameOrPassword),
        ),
        lookup matches Ok(u) ==> (password@.len() <= MAX_PASSWORD_CHARS && u.password@
            == spec_password_digest(password@, u.id) ==> r == Ok::<User, RouteError>(u)),
        r matches Ok(u) ==> lookup == Ok::<User, DbFailure>(u) && u.password@
            == spec_password_digest(password@, u.id),
        lookup matches Ok(u) ==> (r matches Err(e) ==> ((e == route_error::RouteError::Route(
            Error::InvalidUsernameOrPassword,
        ) && u.password@ != spec_password_digest(password@, u.id)) || e
            == route_error::RouteError::Route(Error::Argon))),
{
    match lookup {
        Ok(u) => {
            let ghost gu = u;
            let hash = hash_password(password, u.id);
            let ghost ghash = hash;
            let r = login_decision(Ok(u), hash);
            proof {
                match ghash {
                    Some(h) => {
                        assert(h@ == spec_password_digest(password@, gu.id));
                    },
                    None => {
                        assert(r == Err::<User, RouteError>(
                            route_error::RouteError::Route(Error::Argon),
                        ));
                    },
                }
            }
            r
        },
        Err(f) => login_decision(Err(f), None),
    }
}

/// A failed login answers with the same error value whether no user
/// matched the email or the password digest did not match: the client
/// cannot tell accounts apart from the response.
pub proof fn lemma_login_failures_identical(
    f: DbFailure,
    u: User,
    h: Vec<u8>,
    g: Option<Vec<u8>>,
)
    requires
        u.password@ != h@,
    ensures
        spec_login_decision(Err(f), g) == spec_login_decision(Ok(u), Some(h)),
{
}

/// Where each failed user insertion goes: the two named uniqueness
/// constraints become their 409 conflict errors, everything else stays a
/// hidden persistence failure.
pub open spec fn spec_classify_registration_failure(f: DbFailure) -> RouteError {
    match f {
        DbFailure::Constraint(n) => if n@ == "user_email_key"@ {
            route_error::RouteError::Route(Error::EmailTaken)
        } else if n@ == "user_username_key"@ {
            route_error::RouteError::Route(Error::UsernameTaken)
        } else {
            route_error::RouteError::App(AppError::Database(f))
        },
        DbFailure::Other(_) => route_error::RouteError::App(AppError::Database(f)),
    }
}

/// Classifies a failed user insertion by the constraint name the
/// persistence collaborator reported.
pub fn classify_registration_failure(f: DbFailure) -> (r: RouteError)
    ensures
        r == spec_classify_registration_failure(f),
{
    match f {
        DbFailure::Constraint(n) => {
            if str_eq(n.as_str(), "user_email_key") {
                route_error::RouteError::Route(Error::EmailTaken)
            } else if str_eq(n.as_str(), "user_username_key") {
                route_error::RouteError::Route(Error::UsernameTaken)
            } else {
                route_error::RouteError::App(AppError::Database(DbFailure::Constraint(n)))
            }
        },
        DbFailure::Other(t) => route_error::RouteError::App(
            AppError::Database(DbFailure::Other(t)),
        ),
    }
}

/// The registration insert outcome: a fresh user id on success, the
/// classified failure otherwise.
pub fn register_outcome(insert: Result<u128, DbFailure>) -> (r: Result<u128, RouteError>)
    ensures
        r == (match insert {
            Ok(id) => Ok::<u128, RouteError>(id),
            Err(f) => Err::<u128, RouteError>(spec_classify_registration_failure(f)),
        }),
{
    match insert {
        Ok(id) => Ok(id),
        Err(f) => Err(classify_registration_failure(f)),
    }
}

/// What a logout performs: the session to delete, whether to clear the
/// session cookie, and the status to answer with.
#[derive(Debug, PartialEq)]
pub struct LogoutAction {
    /// The session row to delete, if the caller authenticated by cookie.
    pub delete_session: Option<u128>,
    /// Whether to send a clearing `Set-Cookie` header.
    pub clear_cookie: bool,
    /// The status of the response.
    pub status: u16,
}

/// The logout decision. A cookie-backed session is deleted and its cookie
/// cleared; an identity derived from an API key logs nothing out and the
/// key stays valid, which is this library's fixed reading of that case.
/// Both answers are 204.
pub fn logout_decision(id: &SessionOrApiKey) -> (r: LogoutAction)
    ensures
        id matches SessionOrApiKey::Session(s) ==> r == (LogoutAction {
            delete_session: Some(*s),
            clear_cookie: true,
            status: 204,
        }),
        id matches SessionOrApiKey::ApiKey(_) ==> r == (LogoutAction {
            delete_session: None,
            clear_cookie: false,
            status: 204,
        }),
{
    match id {
        SessionOrApiKey::Session(s) => LogoutAction {
            delete_session: Some(*s),
            clear_cookie: true,
            status: 204,
        },
        SessionOrApiKey::ApiKey(_) => LogoutAction {
            delete_session: None,
            clear_cookie: false,
            status: 204,
        },
    }
}

/// The profile update outcome: the updated user, or the hidden
/// persistence failure.
pub fn update_me_outcome(updated: Result<User, DbFailure>) -> (r: Result<User, RouteError>)
    ensures
        updated matches Ok(u) ==> r == Ok::<User, RouteError>(u),
        updated matches Err(f) ==> r == Err::<User, RouteError>(
            route_error::RouteError::App(AppError::Database(f)),
        ),
{
    match updated {
        Ok(u) => Ok(u),
        Err(f) => Err(route_error::RouteError::from_db(f)),
    }
}

/// The account deletion outcome: clear the cookie and answer 204, or the
/// hidden persistence failure.
pub fn delete_me_outcome(deleted: Result<u64, DbFailure>) -> (r: Result<LogoutAction, RouteError>)
    ensures
        deleted matches Ok(_) ==> r == Ok::<LogoutAction, RouteError>(LogoutAction {
            delete_session: None,
            clear_cookie: true,
            status: 204,
        }),
        deleted matches Err(f) ==> r == Err::<LogoutAction, RouteError>(
            route_error::RouteError::App(AppError::Database(f)),
        ),
{
    match deleted {
        Ok(_) => Ok(LogoutAction { delete_session: None, clear_cookie: true, status: 204 }),
        Err(f) => Err(route_error::RouteError::from_db(f)),
    }
}

} // verus!
