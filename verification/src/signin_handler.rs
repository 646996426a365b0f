//! The sign-in decision: a user found under the submitted email signs in
//! exactly when the submitted password checks against the stored hash; on
//! success the response carries the user's details without the hash, and a
//! fresh session token is issued. The user lookup, the cookie and the HTTP
//! response live outside the library.

use vstd::prelude::*;
use vstd::string::StringExecFns;

use crate::jwt_service::{generate_jwt, token_of, SESSION_SECONDS};
use crate::models::User;
use crate::password::{password_verified, verify_password};
use crate::text::{oid_hex, oid_to_hex};

verus! {

/// The body of a sign-in request.
#[derive(Clone, Debug)]
pub struct SigninRequest {
    pub email: String,
    pub password: String,
}

/// A successful sign-in's body.
#[derive(Clone, Debug)]
pub struct SigninResponse {
    pub message: String,
    pub data: UserResponse,
}

/// A user's details as answered to clients: everything but the password
/// hash, the id in the store's hex form.
#[derive(Clone, Debug)]
pub struct UserResponse {
    pub id: Option<String>,
    pub first_name: String,
    pub middle_name: Option<String>,
    pub last_name: String,
    pub email: String,
}

/// Whether `r` is exactly `u`'s public details.
pub open spec fn is_user_response(u: User, r: UserResponse) -> bool {
    &&& match u.id {
        Some(v) => r.id matches Some(s) && s@ == oid_hex(v),
        None => r.id is None,
    }
    &&& r.first_name == u.first_name
    &&& r.middle_name == u.middle_name
    &&& r.last_name == u.last_name
    &&& r.email == u.email
}

/// Builds the user's public details, leaving the password hash out.
pub fn user_response_of(user: &User) -> (r: UserResponse)
    ensures
        is_user_response(*user, r),
{
    UserResponse {
        id: match &user.id {
            Some(v) => Some(oid_to_hex(*v)),
            None => None,
        },
        first_name: user.first_name.clone(),
        middle_name: match &user.middle_name {
            Some(m) => Some(m.clone()),
            None => None,
        },
        last_name: user.last_name.clone(),
        email: user.email.clone(),
    }
}

/// The sign-in decision on a fetched user: succeeds exactly when a user was
/// found and the password checks against the stored hash; then the response
/// and the session token (expiring a day after `now`, unix seconds) are
/// returned. Anything else is answered as invalid credentials by the caller.
pub fn signin(user: Option<User>, password: &String, secret: &str, now: u64) -> (r: Option<
    (SigninResponse, String),
>)
    requires
        now <= u64::MAX - SESSION_SECONDS,
    ensures
        match user {
            Some(u) => if password_verified(password@, u.password_hash@) {
                r matches Some((resp, jwt)) && resp.message@ == "Sign-in successful"@
                    && is_user_response(u, resp.data) && jwt@ == token_of(
                    u.email@,
                    (now + SESSION_SECONDS) as u64,
                    secret@,
                )
            } else {
                r is None
            },
            None => r is None,
        },
{
    match user {
        Some(u) => {
            if verify_password(password.as_str(), u.password_hash.as_str()) {
                let jwt = generate_jwt(u.email.as_str(), secret, now);
                let data = user_response_of(&u);
                Some(
                    (SigninResponse { message: String::from_str("Sign-in successful"), data }, jwt),
                )
            } else {
                None
            }
        },
        None => None,
    }
}

} // verus!
