//! The tenant scope: the `{organization_id, application_id}` pair that bounds
//! both authorization and notification routing. Identifiers are held as the
//! integer value of the store's 12-byte object ids, so they fit in a `u128`.

use vstd::prelude::*;

verus! {

/// The isolation and routing key for both logs and live connections.
/// Immutable once bound to a connection or a log.
#[derive(Clone, Copy, PartialEq, Eq, Structural, Debug, Hash)]
pub struct TenantScope {
    pub organization_id: u128,
    pub application_id: u128,
}

impl TenantScope {
    pub fn new(organization_id: u128, application_id: u128) -> (s: TenantScope)
        ensures
            s.organization_id == organization_id,
            s.application_id == application_id,
    {
        TenantScope { organization_id, application_id }
    }
}

} // verus!
