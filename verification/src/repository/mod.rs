//! Storage helpers shared by the record stores.

use vstd::prelude::*;

verus! {

/// Milliseconds elapsed since the Unix epoch by the system clock
/// (`SystemTime::now().duration_since(UNIX_EPOCH)` in milliseconds), or `None`
/// when the clock is set before the epoch. The value depends on the clock.
#[verifier::external_body]
fn unix_millis() -> Option<u128> {
    match std::time::SystemTime::now().duration_since(std::time::UNIX_EPOCH) {
        Ok(d) => Some(d.as_millis()),
        Err(_) => None,
    }
}

/// A clock reading in milliseconds since the Unix epoch as an `i64` (its low
/// 64 bits, as `as i64` takes them), 0 for a clock set before the epoch.
pub fn millis_or_zero(reading: Option<u128>) -> (r: i64)
    ensures
        r == match reading {
            Some(ms) => ms as i64,
            None => 0,
        },
{
    match reading {
        Some(ms) => ms as i64,
        None => 0,
    }
}

/// The current time in milliseconds since the Unix epoch, 0 when the clock
/// reads before the epoch. Which instant is read is the system clock's.
pub fn now_ms() -> i64 {
    millis_or_zero(unix_millis())
}

} // verus!
