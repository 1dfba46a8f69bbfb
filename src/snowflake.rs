//! Identifiers whose high bits carry a creation time.
use vstd::prelude::*;
use std::time::Duration;
use crate::time::duration_from_millis;

verus! {

/// Milliseconds since the Unix epoch at which identifier time starts.
pub const ID_EPOCH_MS: i64 = 1288834974657;

/// The creation time, in Unix milliseconds, encoded in `id`.
pub open spec fn spec_timestamp_millis(id: i64) -> int {
    (id >> 22) + ID_EPOCH_MS
}

/// The identifier with zero low bits created at `timestamp_ms`.
pub open spec fn spec_from_timestamp(timestamp_ms: i64) -> i64 {
    ((timestamp_ms - ID_EPOCH_MS) as i64) << 22
}

/// Timestamps that an identifier can carry: an offset from the epoch that
/// fits in 42 signed bits, so that the identifier fits in an `i64`.
pub open spec fn representable(timestamp_ms: i64) -> bool {
    -0x200_0000_0000 <= timestamp_ms - ID_EPOCH_MS < 0x200_0000_0000
}

/// Extracts the creation timestamp, in Unix milliseconds, from an identifier.
pub fn timestamp_millis(snowflake_id: i64) -> (r: i64)
    ensures
        r == spec_timestamp_millis(snowflake_id),
{
    proof {
        assert((snowflake_id >> 22) <= 0x1ff_ffff_ffff && (snowflake_id >> 22) >= -0x200_0000_0000)
            by (bit_vector);
    }
    (snowflake_id >> 22) + ID_EPOCH_MS
}

/// An identifier created at `timestamp_ms`, with zero low bits.
pub fn from_timestamp(timestamp_ms: i64) -> (r: i64)
    requires
        representable(timestamp_ms),
    ensures
        r == spec_from_timestamp(timestamp_ms),
{
    let offset: i64 = timestamp_ms - ID_EPOCH_MS;
    proof {
        assert(-0x200_0000_0000 <= offset < 0x200_0000_0000 ==> (offset << 22) >> 22 == offset)
            by (bit_vector);
    }
    offset << 22
}

/// Encoding a representable timestamp and decoding it again gives it back.
pub proof fn lemma_timestamp_round_trip(timestamp_ms: i64)
    requires
        representable(timestamp_ms),
    ensures
        spec_timestamp_millis(spec_from_timestamp(timestamp_ms)) == timestamp_ms,
{
    let offset: i64 = (timestamp_ms - ID_EPOCH_MS) as i64;
    assert(-0x200_0000_0000 <= offset < 0x200_0000_0000 ==> (offset << 22) >> 22 == offset)
        by (bit_vector);
}

/// Every identifier carries a representable timestamp, and encoding that
/// timestamp gives the identifier back with its 22 low bits cleared.
pub proof fn lemma_id_round_trip(id: i64)
    ensures
        representable(spec_timestamp_millis(id) as i64),
        spec_from_timestamp(spec_timestamp_millis(id) as i64) == id & !0x3f_ffffi64,
{
    assert((id >> 22) <= 0x1ff_ffff_ffff && (id >> 22) >= -0x200_0000_0000) by (bit_vector);
    assert(((id >> 22) << 22) == id & !0x3f_ffffi64) by (bit_vector);
}

/// Milliseconds from the creation of `snowflake_id` to `now_ms`, when the
/// identifier was created before `now_ms`.
pub open spec fn spec_age_millis(snowflake_id: i64, now_ms: i64) -> Option<u64> {
    if now_ms > spec_timestamp_millis(snowflake_id) {
        Some((now_ms - spec_timestamp_millis(snowflake_id)) as u64)
    } else {
        None
    }
}

/// The time from the creation of `snowflake_id` to `now_ms`, in
/// milliseconds, or `None` when the identifier is not older than `now_ms`.
pub fn age_millis_at(snowflake_id: i64, now_ms: i64) -> (r: Option<u64>)
    ensures
        r == spec_age_millis(snowflake_id, now_ms),
{
    let creation_ms = timestamp_millis(snowflake_id);
    if now_ms > creation_ms {
        Some((now_ms as i128 - creation_ms as i128) as u64)
    } else {
        None
    }
}

/// Relies on chrono's `From<SystemTime> for DateTime<Utc>` and
/// `DateTime::timestamp_millis`: the current time in Unix milliseconds,
/// negative when the system clock reads before the Unix epoch. Nothing is
/// promised of the value.
#[verifier::external_body]
pub(crate) fn now_millis() -> (r: i64) {
    chrono::DateTime::<chrono::Utc>::from(std::time::SystemTime::now()).timestamp_millis()
}

/// The time since `snowflake_id` was created, or `None` when it was not
/// created before now.
pub fn duration_since_creation_opt(snowflake_id: i64) -> (r: Option<Duration>) {
    let now_ms = now_millis();
    match age_millis_at(snowflake_id, now_ms) {
        Some(ms) => Some(duration_from_millis(ms)),
        None => None,
    }
}

} // verus!
