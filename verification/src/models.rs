//! The stored records, held as plain values: object ids as the integer value
//! of the store's 12-byte id (see `text::oid_hex`), timestamps as unix
//! milliseconds. The store itself serialises and persists these outside the
//! library; the logic here only reads and builds them.

use vstd::prelude::*;

verus! {

/// A tenant organization, with its dashboard login and the credential pair
/// (`cd_id`, `cd_secret`) that client applications authenticate with.
#[derive(Clone, Debug)]
pub struct Organization {
    pub id: Option<u128>,
    pub org_name: String,
    pub admin_email: String,
    pub admin_password: String,
    pub cd_id: String,
    pub cd_secret: String,
}

/// An organization update, where the credential pair may be left as is.
#[derive(Clone, Debug)]
pub struct UpdateOrganization {
    pub id: Option<u128>,
    pub org_name: String,
    pub admin_email: String,
    pub admin_password: String,
    pub cd_id: Option<String>,
    pub cd_secret: Option<String>,
}

/// A registered client application belonging to one organization.
#[derive(Clone, Debug)]
pub struct Application {
    pub id: Option<u128>,
    pub organization_id: Option<u128>,
    pub application_name: String,
}

/// The body of a delete-application request.
#[derive(Clone, Debug)]
pub struct DeleteApplicationPayload {
    pub application_id: String,
}

/// A submitted log event; scope ids are attached after authentication.
#[derive(Clone, Debug)]
pub struct LogPayload {
    pub id: Option<u128>,
    pub organization_id: Option<u128>,
    pub application_id: Option<u128>,
    pub error: String,
    pub traceback: String,
    pub url: String,
    pub method: String,
    pub created_at: Option<u64>,
    pub updated_at: Option<u64>,
}

/// A dashboard user account.
#[derive(Clone, Debug)]
pub struct User {
    pub id: Option<u128>,
    pub first_name: String,
    pub middle_name: Option<String>,
    pub last_name: String,
    pub email: String,
    pub password_hash: String,
}

/// A one-time code awaiting verification; the store expires it by
/// `created_at`.
#[derive(Clone, Debug)]
pub struct OtpEntry {
    pub id: u128,
    pub email: String,
    pub otp: String,
    pub created_at: u64,
}

} // verus!
