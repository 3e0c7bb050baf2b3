//! Activity records that the monitor and the filter report to the daemon.
use vstd::prelude::*;

verus! {

/// What kind of activity a record describes.
#[derive(Debug, Clone)]
pub enum ActivityType {
    ApplicationUsage,
    WebBrowsing { url: String },
    TerminalCommand { command: String },
    PolicyViolation { reason: String },
}

/// One reported activity. Identifiers are UUIDs as 128-bit integers, the
/// timestamp is in milliseconds since the Unix epoch (UTC).
#[derive(Debug, Clone)]
pub struct Activity {
    pub id: u128,
    pub profile_id: u128,
    pub timestamp_ms: i64,
    pub activity_type: ActivityType,
    pub application: Option<String>,
    pub window_title: Option<String>,
    pub duration_seconds: u32,
}

/// The nil UUID, whose 128 bits are all zero.
pub const NIL_ID: u128 = 0;

/// Whether a UUID, as a big-endian integer, is a random one: its version
/// field reads 4 and its variant bits read 0b10.
pub open spec fn is_random_uuid(id: u128) -> bool {
    &&& (id >> 76u128) & 0xFu128 == 4
    &&& (id >> 62u128) & 0x3u128 == 2
}

/// A fresh random UUID from `uuid::Uuid::new_v4`, as an integer
/// (`Uuid::as_u128`, big-endian): whatever the random bits, the version
/// field reads 4 and the variant bits read 0b10. Nothing else is known of it.
#[verifier::external_body]
pub(crate) fn new_random_id() -> (id: u128)
    ensures
        is_random_uuid(id),
{
    uuid::Uuid::new_v4().as_u128()
}

/// The current UTC time from `chrono::Utc::now`, in milliseconds since the
/// Unix epoch.
#[verifier::external_body]
pub(crate) fn utc_now_millis() -> (t: i64) {
    chrono::Utc::now().timestamp_millis()
}

} // verus!
