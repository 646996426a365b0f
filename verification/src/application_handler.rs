//! The application endpoints' decisions beyond the shared admission checks:
//! building the record for a newly created application and deciding a
//! deletion's outcome. Authentication and ownership checks live in `gate`;
//! the store lives outside the library.

use vstd::prelude::*;

use crate::gate::ApiError;
use crate::models::Application;

verus! {

/// The record to store for a new application: the caller-assigned id and
/// the authenticated organization, with the submitted name kept as is.
pub fn create_application(payload: Application, organization_id: u128, app_id: u128) -> (r:
    Application)
    ensures
        r.id == Some(app_id),
        r.organization_id == Some(organization_id),
        r.application_name == payload.application_name,
{
    Application {
        id: Some(app_id),
        organization_id: Some(organization_id),
        application_name: payload.application_name,
    }
}

/// The decision on a deletion that removed `deleted_count` records: the
/// application is gone, or it was not there.
pub fn delete_application_outcome(deleted_count: u64) -> (r: Result<(), ApiError>)
    ensures
        deleted_count > 0 <==> r is Ok,
        r is Err ==> r == Err::<(), ApiError>(ApiError::ApplicationNotFound),
{
    if deleted_count > 0 {
        Ok(())
    } else {
        Err(ApiError::ApplicationNotFound)
    }
}

} // verus!
