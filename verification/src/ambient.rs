//! What a ledger draws from its surroundings: fresh identifiers and the time.
//!
//! Neither is a function of anything the ledger holds, so two calls may
//! differ, and the contracts say only what holds of every outcome.

use crate::types::Timestamp;
use vstd::prelude::*;

verus! {

/// `id` carries the marks of a random UUID: version 4, and the variant of
/// RFC 9562.
pub open spec fn is_random_uuid(id: u128) -> bool {
    id & 0x0000_0000_0000_f000_c000_0000_0000_0000u128
        == 0x0000_0000_0000_4000_8000_0000_0000_0000u128
}

/// Calls `uuid::Uuid::new_v4` and hands out the identifier's 128 bits, as
/// `Uuid::as_u128` gives them.
///
/// Trusted: the version and variant bits are those of a random UUID. The
/// other 122 bits are random; that two identifiers differ is likely and not
/// promised.
#[verifier::external_body]
pub(crate) fn fresh_id() -> (id: u128)
    ensures
        is_random_uuid(id),
{
    uuid::Uuid::new_v4().as_u128()
}

/// Calls `chrono::Utc::now` and hands out the instant as the seconds of
/// `DateTime::timestamp` and the nanoseconds of
/// `DateTime::timestamp_subsec_nanos`. Nothing is claimed of the instant.
///
/// `Utc::now` panics where the system clock stands before 1970.
#[verifier::external_body]
pub(crate) fn current_time() -> (now: Timestamp) {
    let now = chrono::Utc::now();
    Timestamp { secs: now.timestamp(), nanos: now.timestamp_subsec_nanos() }
}

} // verus!
