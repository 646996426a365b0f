//! The session middleware's decision: every guarded request passes exactly
//! when it carries a session token that checks out and whose subject names a
//! known user. The transport adapter that wraps services, reads the cookie
//! and answers rejections lives outside the library and hands in plain
//! values.

use vstd::prelude::*;

use crate::gate::LookupOutcome;
use crate::models::User;

verus! {

/// What the middleware does with a request.
#[derive(Clone, Debug)]
pub enum AuthOutcome {
    /// Hand the request on with this user attached.
    Authenticated(User),
    /// Reject: no session token came with the request.
    MissingToken,
    /// Reject: the token did not check out or had expired.
    InvalidToken,
    /// Reject: no user is registered under the token's subject.
    UserNotFound,
    /// Reject: the user lookup failed against the store.
    StoreFailed,
}

/// The middleware's decision: `had_token` says whether a session cookie
/// came with the request, `subject` what the token check made of it, `user`
/// what the store holds under that subject.
pub fn authorize_session(
    had_token: bool,
    subject: Option<String>,
    user: LookupOutcome<User>,
) -> (r: AuthOutcome)
    ensures
        !had_token ==> r is MissingToken,
        had_token && subject is None ==> r is InvalidToken,
        had_token && subject is Some ==> match user {
            LookupOutcome::Found(u) => r matches AuthOutcome::Authenticated(v) && v == u,
            LookupOutcome::Missing => r is UserNotFound,
            LookupOutcome::StoreFailed => r is StoreFailed,
        },
{
    if !had_token {
        AuthOutcome::MissingToken
    } else {
        match subject {
            None => AuthOutcome::InvalidToken,
            Some(_) => match user {
                LookupOutcome::Found(u) => AuthOutcome::Authenticated(u),
                LookupOutcome::Missing => AuthOutcome::UserNotFound,
                LookupOutcome::StoreFailed => AuthOutcome::StoreFailed,
            },
        }
    }
}

} // verus!
