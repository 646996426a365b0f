//! The organization endpoints' decisions: creating an organization with its
//! freshly drawn credential pair, the dashboard login's response, and the
//! details answered to an authenticated organization. Store lookups and
//! inserts happen outside the library.

use vstd::prelude::*;

use crate::gate::{ApiError, LookupOutcome};
use crate::models::Organization;
use crate::text::{is_alphanumeric_char, oid_hex, oid_to_hex};

verus! {

/// The body of a create-organization request.
#[derive(Clone, Debug)]
pub struct CreateOrganization {
    pub org_name: String,
    pub admin_email: String,
    pub admin_password: String,
}

/// The body of a dashboard login request.
#[derive(Clone, Debug)]
pub struct LoginPayload {
    pub admin_email: String,
    pub admin_password: String,
}

/// A successful login's body: the organization's name, its id in the
/// store's hex form, and its credential pair.
#[derive(Clone, Debug)]
pub struct LoginResponse {
    pub organization_name: String,
    pub id: String,
    pub cd_id: String,
    pub cd_secret: String,
}

/// Relies on rand's Alphanumeric distribution sampled from the thread-local
/// generator: 32 characters, each an ASCII letter or digit; nothing else is
/// assumed of which string comes out.
#[verifier::external_body]
fn generate_unique_id() -> (r: String)
    ensures
        r@.len() == 32,
        forall|i: int| 0 <= i < r@.len() ==> is_alphanumeric_char(#[trigger] r@[i]),
{
    rand::Rng::sample_iter(rand::thread_rng(), &rand::distributions::Alphanumeric)
        .take(32)
        .map(char::from)
        .collect()
}

/// The credential pair: 32 alphanumeric characters each.
pub open spec fn is_credential(s: Seq<char>) -> bool {
    s.len() == 32 && (forall|i: int| 0 <= i < s.len() ==> is_alphanumeric_char(#[trigger] s[i]))
}

/// The create-organization decision: refused when an organization already
/// holds the name or the email; otherwise the record to store, under the
/// caller-assigned id, with a freshly drawn credential pair.
pub fn create_organization(payload: &CreateOrganization, already_exists: bool, id: u128) -> (r:
    Result<Organization, ()>)
    ensures
        already_exists <==> r is Err,
        r matches Ok(o) ==> o.id == Some(id) && o.org_name == payload.org_name
            && o.admin_email == payload.admin_email && o.admin_password == payload.admin_password
            && is_credential(o.cd_id@) && is_credential(o.cd_secret@),
{
    if already_exists {
        Err(())
    } else {
        Ok(
            Organization {
                id: Some(id),
                org_name: payload.org_name.clone(),
                admin_email: payload.admin_email.clone(),
                admin_password: payload.admin_password.clone(),
                cd_id: generate_unique_id(),
                cd_secret: generate_unique_id(),
            },
        )
    }
}

/// The login decision on a fetched organization: succeeds exactly when the
/// credential lookup found one, answering its name, hex id and credential
/// pair. The organization must carry its stored id.
pub fn login(org: Option<Organization>) -> (r: Option<LoginResponse>)
    requires
        org matches Some(o) ==> o.id is Some,
    ensures
        match org {
            Some(o) => r matches Some(resp) && resp.organization_name == o.org_name && resp.id@
                == oid_hex(o.id->0) && resp.cd_id == o.cd_id && resp.cd_secret == o.cd_secret,
            None => r is None,
        },
{
    match org {
        Some(o) => {
            let id = match o.id {
                Some(v) => v,
                None => {
                    proof {
                        assert(false);
                    }
                    0
                },
            };
            Some(
                LoginResponse {
                    organization_name: o.org_name,
                    id: oid_to_hex(id),
                    cd_id: o.cd_id,
                    cd_secret: o.cd_secret,
                },
            )
        },
        None => None,
    }
}

/// The organization-details decision: an authenticated organization is
/// answered its hex id and name; a record missing either is answered as
/// incomplete, and failed credentials as invalid.
pub fn get_organization_details(lookup: LookupOutcome<Organization>) -> (r: Result<
    (String, String),
    ApiError,
>)
    ensures
        match lookup {
            LookupOutcome::Found(o) => if o.id is Some {
                r matches Ok((id, name)) && id@ == oid_hex(o.id->0) && name == o.org_name
            } else {
                r == Err::<(String, String), ApiError>(ApiError::AuthenticationStoreFailed)
            },
            LookupOutcome::Missing => r == Err::<(String, String), ApiError>(
                ApiError::InvalidCredentials,
            ),
            LookupOutcome::StoreFailed => r == Err::<(String, String), ApiError>(
                ApiError::AuthenticationStoreFailed,
            ),
        },
{
    match lookup {
        LookupOutcome::Found(o) => match o.id {
            Some(v) => Ok((oid_to_hex(v), o.org_name)),
            None => Err(ApiError::AuthenticationStoreFailed),
        },
        LookupOutcome::Missing => Err(ApiError::InvalidCredentials),
        LookupOutcome::StoreFailed => Err(ApiError::AuthenticationStoreFailed),
    }
}

} // verus!
