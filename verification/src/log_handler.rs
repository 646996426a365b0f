//! The pure decisions of the log endpoints: the ingestion endpoint's strict
//! header validation, attaching the authenticated scope to a submission, the
//! fetch and update outcomes, the query pagination window, and the day
//! bounds the application statistics are counted over. Header extraction,
//! store reads and writes happen outside the library and hand in plain
//! values.

use vstd::prelude::*;

use crate::gate::{ApiError, HeaderField, LookupOutcome};
use crate::models::LogPayload;

verus! {

/// The ingestion endpoint's header validation: `CD-ID`, `CD-Secret` and
/// `Application-ID` must all be present and readable, checked in that order,
/// each failure answered with its own message.
pub open spec fn spec_save_log_credentials(
    cd_id: HeaderField,
    cd_secret: HeaderField,
    application_id: HeaderField,
) -> Result<(String, String, String), ApiError> {
    match cd_id {
        HeaderField::Missing => Err(ApiError::MissingCdId),
        HeaderField::Unreadable => Err(ApiError::InvalidCdIdEncoding),
        HeaderField::Value(id) => match cd_secret {
            HeaderField::Missing => Err(ApiError::MissingCdSecret),
            HeaderField::Unreadable => Err(ApiError::InvalidCdSecretEncoding),
            HeaderField::Value(secret) => match application_id {
                HeaderField::Missing => Err(ApiError::MissingApplicationId),
                HeaderField::Unreadable => Err(ApiError::InvalidApplicationIdEncoding),
                HeaderField::Value(app) => Ok((id, secret, app)),
            },
        },
    }
}

pub fn save_log_credentials(
    cd_id: HeaderField,
    cd_secret: HeaderField,
    application_id: HeaderField,
) -> (r: Result<(String, String, String), ApiError>)
    ensures
        r == spec_save_log_credentials(cd_id, cd_secret, application_id),
{
    match cd_id {
        HeaderField::Missing => Err(ApiError::MissingCdId),
        HeaderField::Unreadable => Err(ApiError::InvalidCdIdEncoding),
        HeaderField::Value(id) => match cd_secret {
            HeaderField::Missing => Err(ApiError::MissingCdSecret),
            HeaderField::Unreadable => Err(ApiError::InvalidCdSecretEncoding),
            HeaderField::Value(secret) => match application_id {
                HeaderField::Missing => Err(ApiError::MissingApplicationId),
                HeaderField::Unreadable => Err(ApiError::InvalidApplicationIdEncoding),
                HeaderField::Value(app) => Ok((id, secret, app)),
            },
        },
    }
}

/// The submission with the authenticated scope attached; everything the
/// client sent is kept as is.
pub fn attach_scope(log: LogPayload, organization_id: u128, application_id: u128) -> (r:
    LogPayload)
    ensures
        r.organization_id == Some(organization_id),
        r.application_id == Some(application_id),
        r.id == log.id,
        r.error == log.error,
        r.traceback == log.traceback,
        r.url == log.url,
        r.method == log.method,
        r.created_at == log.created_at,
        r.updated_at == log.updated_at,
{
    LogPayload {
        organization_id: Some(organization_id),
        application_id: Some(application_id),
        ..log
    }
}

/// The decision on a log point lookup.
pub fn fetch_log_outcome(lookup: LookupOutcome<LogPayload>) -> (r: Result<LogPayload, ApiError>)
    ensures
        r == (match lookup {
            LookupOutcome::Found(log) => Ok::<LogPayload, ApiError>(log),
            LookupOutcome::Missing => Err(ApiError::LogNotFound),
            LookupOutcome::StoreFailed => Err(ApiError::LogStoreFailed),
        }),
{
    match lookup {
        LookupOutcome::Found(log) => Ok(log),
        LookupOutcome::Missing => Err(ApiError::LogNotFound),
        LookupOutcome::StoreFailed => Err(ApiError::LogStoreFailed),
    }
}

/// The decision on an update that matched `matched_count` records: the
/// update took effect on the one log, or the log was not there.
pub fn update_outcome(matched_count: u64) -> (r: Result<(), ApiError>)
    ensures
        matched_count > 0 <==> r is Ok,
        r is Err ==> r == Err::<(), ApiError>(ApiError::LogNotFound),
{
    if matched_count > 0 {
        Ok(())
    } else {
        Err(ApiError::LogNotFound)
    }
}

/// The query pagination window: pages are 1-based, ten records by default;
/// the skip count never goes below zero.
pub fn page_window(page: Option<i32>, limit: Option<i32>) -> (r: (u64, i64))
    ensures
        ({
            let p = if page is Some { page->0 } else { 1i32 };
            let l = if limit is Some { limit->0 } else { 10i32 };
            let skip = (p - 1) * l;
            r.0 == (if skip > 0 { skip as u64 } else { 0u64 }) && r.1 == l as i64
        }),
{
    let p: i64 = match page {
        Some(v) => v as i64,
        None => 1,
    };
    let l: i64 = match limit {
        Some(v) => v as i64,
        None => 10,
    };
    proof {
        assert((p - 1) * l <= 0x4000000080000000 && (p - 1) * l >= -0x4000000080000000)
            by (nonlinear_arith)
            requires
                -0x80000001 <= p - 1 <= 0x7fffffff,
                -0x80000000 <= l <= 0x7fffffff,
        ;
    }
    let skip: i64 = (p - 1) * l;
    let skip_u: u64 = if skip > 0 {
        skip as u64
    } else {
        0
    };
    (skip_u, l)
}

/// The bounds of the calendar day containing `now_ms` (unix milliseconds):
/// from midnight up to and including second 23:59:59, as the daily log
/// statistics count them.
pub fn day_bounds(now_ms: u64) -> (r: (u64, u64))
    requires
        now_ms <= u64::MAX - 86400000,
    ensures
        r.0 == now_ms - now_ms % 86400000,
        r.1 == r.0 + 86399000,
        r.0 <= now_ms,
{
    let start = now_ms - now_ms % 86400000;
    (start, start + 86399000)
}

} // verus!
