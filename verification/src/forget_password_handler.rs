//! The password-reset decisions: a reset code goes only to a registered
//! address, a checked code admits a new password, and the update's outcome
//! tells a reset apart from an unknown user. Store reads and writes and the
//! code's email delivery live outside the library.

use vstd::prelude::*;

use crate::password::{hash_password, password_verified};

verus! {

/// The body of a send-reset-code request.
#[derive(Clone, Debug)]
pub struct ResetPasswordRequest {
    pub email: String,
}

/// The body of a check-reset-code request.
#[derive(Clone, Debug)]
pub struct VerifyOtpRequest {
    pub email: String,
    pub otp: String,
}

/// The body of a set-new-password request.
#[derive(Clone, Debug)]
pub struct NewPasswordRequest {
    pub email: String,
    pub otp: String,
    pub new_password: String,
}

/// Why a password reset is refused.
#[derive(Clone, Copy, PartialEq, Eq, Structural, Debug)]
pub enum ResetError {
    /// The one-time code did not check out or had expired.
    InvalidOtp,
    /// The password hash could not be drawn.
    HashingFailed,
    /// No user record matched the address when updating.
    UserNotFound,
}

/// Only a registered address is sent a reset code.
pub fn send_reset_otp(user_exists: bool) -> (r: Result<(), ()>)
    ensures
        r is Ok <==> user_exists,
{
    if user_exists {
        Ok(())
    } else {
        Err(())
    }
}

/// The reset decision once the caller has checked the one-time code: a
/// valid code admits the new password, handed back as the checking hash the
/// store is to keep.
pub fn reset_password(otp_valid: bool, new_password: &String) -> (r: Result<String, ResetError>)
    ensures
        !otp_valid ==> r == Err::<String, ResetError>(ResetError::InvalidOtp),
        otp_valid ==> match r {
            Ok(h) => password_verified(new_password@, h@),
            Err(e) => e == ResetError::HashingFailed,
        },
{
    if !otp_valid {
        Err(ResetError::InvalidOtp)
    } else {
        match hash_password(new_password.as_str()) {
            Some(h) => Ok(h),
            None => Err(ResetError::HashingFailed),
        }
    }
}

/// The decision on the store's update outcome: the reset took effect on one
/// user, or no user holds the address.
pub fn reset_update_outcome(matched_count: u64) -> (r: Result<(), ResetError>)
    ensures
        matched_count > 0 <==> r is Ok,
        r is Err ==> r == Err::<(), ResetError>(ResetError::UserNotFound),
{
    if matched_count > 0 {
        Ok(())
    } else {
        Err(ResetError::UserNotFound)
    }
}

} // verus!
