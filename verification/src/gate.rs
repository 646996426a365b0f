//! Credential admission and the request-authorization decisions every
//! handler runs before touching logs, applications or the delivery
//! subsystem. The store lookups themselves happen outside the library; their
//! outcomes come back as plain `LookupOutcome` values and the decisions on
//! them are made here.

use vstd::prelude::*;

use crate::models::{Application, Organization};

verus! {

/// One request header, as the transport hands it over.
#[derive(Clone, Debug)]
pub enum HeaderField {
    /// The header is absent.
    Missing,
    /// The header is present but not readable as text.
    Unreadable,
    /// The header's text value.
    Value(String),
}

/// The outcome of a point lookup against the store.
#[derive(Clone, Debug)]
pub enum LookupOutcome<T> {
    /// The record was found.
    Found(T),
    /// No record matched.
    Missing,
    /// The store was unreachable or the read failed.
    StoreFailed,
}

/// Why a request is rejected, with the status code and body the original
/// endpoints answer with.
#[derive(Clone, Copy, PartialEq, Eq, Structural, Debug)]
pub enum ApiError {
    MissingCdId,
    InvalidCdIdEncoding,
    MissingCdSecret,
    InvalidCdSecretEncoding,
    MissingApplicationId,
    InvalidApplicationIdEncoding,
    InvalidApplicationIdFormat,
    InvalidCredentials,
    AuthenticationStoreFailed,
    ApplicationNotFound,
    ApplicationNotOwned,
    ApplicationStoreFailed,
    LogNotFound,
    LogStoreFailed,
}

impl ApiError {
    /// The HTTP status the error is answered with.
    pub open spec fn spec_status(&self) -> u16 {
        match *self {
            ApiError::MissingCdId => 400,
            ApiError::InvalidCdIdEncoding => 400,
            ApiError::MissingCdSecret => 400,
            ApiError::InvalidCdSecretEncoding => 400,
            ApiError::MissingApplicationId => 400,
            ApiError::InvalidApplicationIdEncoding => 400,
            ApiError::InvalidApplicationIdFormat => 400,
            ApiError::InvalidCredentials => 401,
            ApiError::AuthenticationStoreFailed => 500,
            ApiError::ApplicationNotFound => 404,
            ApiError::ApplicationNotOwned => 401,
            ApiError::ApplicationStoreFailed => 500,
            ApiError::LogNotFound => 404,
            ApiError::LogStoreFailed => 500,
        }
    }

    pub fn status(&self) -> (s: u16)
        ensures
            s == self.spec_status(),
    {
        match *self {
            ApiError::MissingCdId => 400,
            ApiError::InvalidCdIdEncoding => 400,
            ApiError::MissingCdSecret => 400,
            ApiError::InvalidCdSecretEncoding => 400,
            ApiError::MissingApplicationId => 400,
            ApiError::InvalidApplicationIdEncoding => 400,
            ApiError::InvalidApplicationIdFormat => 400,
            ApiError::InvalidCredentials => 401,
            ApiError::AuthenticationStoreFailed => 500,
            ApiError::ApplicationNotFound => 404,
            ApiError::ApplicationNotOwned => 401,
            ApiError::ApplicationStoreFailed => 500,
            ApiError::LogNotFound => 404,
            ApiError::LogStoreFailed => 500,
        }
    }

    /// The response body text for the error.
    pub fn message(&self) -> (m: &'static str)
        ensures
            match *self {
                ApiError::MissingCdId => m@ == "Missing CD-ID header"@,
                ApiError::InvalidCdIdEncoding => m@ == "Invalid CD-ID header encoding"@,
                ApiError::MissingCdSecret => m@ == "Missing CD-Secret header"@,
                ApiError::InvalidCdSecretEncoding => m@ == "Invalid CD-Secret header encoding"@,
                ApiError::MissingApplicationId => m@ == "Missing Application-ID header"@,
                ApiError::InvalidApplicationIdEncoding => m@ == "Invalid Application-ID header"@,
                ApiError::InvalidApplicationIdFormat => m@ == "Invalid Application-ID format"@,
                ApiError::InvalidCredentials => m@ == "Invalid CD-ID or CD-Secret"@,
                ApiError::AuthenticationStoreFailed => m@
                    == "Failed to authenticate organization"@,
                ApiError::ApplicationNotFound => m@ == "Application not found"@,
                ApiError::ApplicationNotOwned => m@
                    == "Application does not belong to the organization"@,
                ApiError::ApplicationStoreFailed => m@ == "Failed to validate application"@,
                ApiError::LogNotFound => m@ == "Log not found"@,
                ApiError::LogStoreFailed => m@ == "Failed to retrieve log"@,
            },
    {
        match *self {
            ApiError::MissingCdId => "Missing CD-ID header",
            ApiError::InvalidCdIdEncoding => "Invalid CD-ID header encoding",
            ApiError::MissingCdSecret => "Missing CD-Secret header",
            ApiError::InvalidCdSecretEncoding => "Invalid CD-Secret header encoding",
            ApiError::MissingApplicationId => "Missing Application-ID header",
            ApiError::InvalidApplicationIdEncoding => "Invalid Application-ID header",
            ApiError::InvalidApplicationIdFormat => "Invalid Application-ID format",
            ApiError::InvalidCredentials => "Invalid CD-ID or CD-Secret",
            ApiError::AuthenticationStoreFailed => "Failed to authenticate organization",
            ApiError::ApplicationNotFound => "Application not found",
            ApiError::ApplicationNotOwned => "Application does not belong to the organization",
            ApiError::ApplicationStoreFailed => "Failed to validate application",
            ApiError::LogNotFound => "Log not found",
            ApiError::LogStoreFailed => "Failed to retrieve log",
        }
    }
}

/// The header's text, or the empty string: how every endpoint but the
/// ingestion one reads its credential headers.
pub fn header_or_default(h: &HeaderField) -> (r: String)
    ensures
        match h {
            HeaderField::Value(v) => r@ == v@,
            _ => r@ == Seq::<char>::empty(),
        },
{
    match h {
        HeaderField::Value(v) => v.clone(),
        _ => String::new(),
    }
}

/// The decision on a credential lookup: the organization on a match, the
/// rejection the endpoint answers with otherwise.
pub open spec fn spec_authenticate_organization(lookup: LookupOutcome<Organization>) -> Result<
    Organization,
    ApiError,
> {
    match lookup {
        LookupOutcome::Found(org) => Ok(org),
        LookupOutcome::Missing => Err(ApiError::InvalidCredentials),
        LookupOutcome::StoreFailed => Err(ApiError::AuthenticationStoreFailed),
    }
}

/// Turns the outcome of the credential lookup into the admission decision:
/// rejected requests never reach the registry or the queue.
pub fn authenticate_organization(lookup: LookupOutcome<Organization>) -> (r: Result<
    Organization,
    ApiError,
>)
    ensures
        r == spec_authenticate_organization(lookup),
{
    match lookup {
        LookupOutcome::Found(org) => Ok(org),
        LookupOutcome::Missing => Err(ApiError::InvalidCredentials),
        LookupOutcome::StoreFailed => Err(ApiError::AuthenticationStoreFailed),
    }
}

/// Whether the application belongs to the organization.
pub open spec fn spec_owned_by(app: Application, org_id: u128) -> bool {
    app.organization_id == Some(org_id)
}

/// The collapsed application check most endpoints run: the application must
/// exist and belong to the authenticated organization; a missing or foreign
/// application is answered as not owned, a failed read as a store failure.
pub open spec fn spec_authorize_application(
    lookup: LookupOutcome<Application>,
    org_id: u128,
) -> Result<Application, ApiError> {
    match lookup {
        LookupOutcome::Found(app) => if spec_owned_by(app, org_id) {
            Ok(app)
        } else {
            Err(ApiError::ApplicationNotOwned)
        },
        LookupOutcome::Missing => Err(ApiError::ApplicationNotOwned),
        LookupOutcome::StoreFailed => Err(ApiError::ApplicationStoreFailed),
    }
}

pub fn authorize_application(lookup: LookupOutcome<Application>, org_id: u128) -> (r: Result<
    Application,
    ApiError,
>)
    ensures
        r == spec_authorize_application(lookup, org_id),
{
    match lookup {
        LookupOutcome::Found(app) => {
            let owned = match app.organization_id {
                Some(oid) => oid == org_id,
                None => false,
            };
            if owned {
                Ok(app)
            } else {
                Err(ApiError::ApplicationNotOwned)
            }
        },
        LookupOutcome::Missing => Err(ApiError::ApplicationNotOwned),
        LookupOutcome::StoreFailed => Err(ApiError::ApplicationStoreFailed),
    }
}

/// The split application check the ingestion endpoint runs, which tells a
/// missing application apart from a foreign one.
pub open spec fn spec_require_application(lookup: LookupOutcome<Application>) -> Result<
    Application,
    ApiError,
> {
    match lookup {
        LookupOutcome::Found(app) => Ok(app),
        LookupOutcome::Missing => Err(ApiError::ApplicationNotFound),
        LookupOutcome::StoreFailed => Err(ApiError::ApplicationStoreFailed),
    }
}

pub fn require_application(lookup: LookupOutcome<Application>) -> (r: Result<
    Application,
    ApiError,
>)
    ensures
        r == spec_require_application(lookup),
{
    match lookup {
        LookupOutcome::Found(app) => Ok(app),
        LookupOutcome::Missing => Err(ApiError::ApplicationNotFound),
        LookupOutcome::StoreFailed => Err(ApiError::ApplicationStoreFailed),
    }
}

/// The ingestion endpoint's ownership check on an already fetched
/// application.
pub fn require_ownership(app: &Application, org_id: u128) -> (r: Result<(), ApiError>)
    ensures
        r == (if spec_owned_by(*app, org_id) {
            Ok::<(), ApiError>(())
        } else {
            Err(ApiError::ApplicationNotOwned)
        }),
{
    let owned = match app.organization_id {
        Some(oid) => oid == org_id,
        None => false,
    };
    if owned {
        Ok(())
    } else {
        Err(ApiError::ApplicationNotOwned)
    }
}

} // verus!
