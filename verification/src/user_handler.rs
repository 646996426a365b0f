//! The user endpoints' decisions: the email-verification check, the sign-up
//! step that turns a verified one-time code into a stored user and a
//! session, and the session-validation decision. Store lookups, cookie
//! handling and the one-time-code delivery live outside the library.

use vstd::prelude::*;

use crate::jwt_service::{generate_jwt, token_of, SESSION_SECONDS};
use crate::models::User;
use crate::password::{hash_password, password_verified};

verus! {

/// The body of a sign-up request.
#[derive(Clone, Debug)]
pub struct SignupPayload {
    pub email: String,
    pub otp: String,
    pub first_name: String,
    pub middle_name: Option<String>,
    pub last_name: String,
    pub password: String,
}

/// The body of a send-me-a-code request.
#[derive(Clone, Debug)]
pub struct OtpRequest {
    pub email: String,
}

/// Why a sign-up is refused.
#[derive(Clone, Copy, PartialEq, Eq, Structural, Debug)]
pub enum SignupError {
    /// The email is already registered.
    EmailRegistered,
    /// The one-time code did not check out or had expired.
    InvalidOtp,
    /// The password hash could not be drawn.
    HashingFailed,
}

/// The sign-up decision, run after the caller has checked the email against
/// the user store and the one-time code against the code store: a fresh
/// email with a valid code becomes the user record to store (its password
/// held only as a checking hash) and a session token expiring a day after
/// `now` (unix seconds).
pub fn verify_and_delete_otp_and_signup(
    payload: SignupPayload,
    email_registered: bool,
    otp_valid: bool,
    secret: &str,
    now: u64,
) -> (r: Result<(User, String), SignupError>)
    requires
        now <= u64::MAX - SESSION_SECONDS,
    ensures
        email_registered ==> r == Err::<(User, String), SignupError>(SignupError::EmailRegistered),
        !email_registered && !otp_valid ==> r == Err::<(User, String), SignupError>(
            SignupError::InvalidOtp,
        ),
        !email_registered && otp_valid ==> match r {
            Ok((user, jwt)) => user.id is None && user.first_name == payload.first_name
                && user.middle_name == payload.middle_name && user.last_name == payload.last_name
                && user.email == payload.email && password_verified(
                payload.password@,
                user.password_hash@,
            ) && jwt@ == token_of(payload.email@, (now + SESSION_SECONDS) as u64, secret@),
            Err(e) => e == SignupError::HashingFailed,
        },
{
    if email_registered {
        Err(SignupError::EmailRegistered)
    } else if !otp_valid {
        Err(SignupError::InvalidOtp)
    } else {
        match hash_password(payload.password.as_str()) {
            Some(password_hash) => {
                let jwt = generate_jwt(payload.email.as_str(), secret, now);
                let user = User {
                    id: None,
                    first_name: payload.first_name,
                    middle_name: payload.middle_name,
                    last_name: payload.last_name,
                    email: payload.email,
                    password_hash,
                };
                Ok((user, jwt))
            },
            None => Err(SignupError::HashingFailed),
        }
    }
}

/// The session-validation decision.
#[derive(Clone, Debug)]
pub enum SessionValidation {
    /// The token was present, checked out, and names a known user.
    Valid(User),
    /// The token was present but did not check out.
    InvalidToken,
    /// No token, or no user under the token's subject.
    Unauthorized,
}

/// The decision on a session check: `had_token` says whether a session
/// cookie came with the request, `subject` what the token check made of it,
/// `user` what the store holds under that subject.
pub fn validate_user(had_token: bool, subject: Option<String>, user: Option<User>) -> (r:
    SessionValidation)
    ensures
        !had_token ==> r is Unauthorized,
        had_token && subject is None ==> r is InvalidToken,
        had_token && subject is Some ==> match user {
            Some(u) => r matches SessionValidation::Valid(v) && v == u,
            None => r is Unauthorized,
        },
{
    if !had_token {
        SessionValidation::Unauthorized
    } else {
        match subject {
            None => SessionValidation::InvalidToken,
            Some(_) => match user {
                Some(u) => SessionValidation::Valid(u),
                None => SessionValidation::Unauthorized,
            },
        }
    }
}

} // verus!
