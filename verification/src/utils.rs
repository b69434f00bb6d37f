//! The clock, and the cell that keeps shared state on disk.

use std::time::{Duration, SystemTime, SystemTimeError};
use vstd::prelude::*;

pub mod rw_save;

verus! {

/// `std::time::SystemTime`, a reading of the system clock. Nothing is known of
/// what a value holds.
#[verifier::external_type_specification]
#[verifier::external_body]
pub struct ExSystemTime(std::time::SystemTime);

/// `std::time::SystemTimeError`, the error of a clock reading that lies before
/// the moment it is measured from.
#[verifier::external_type_specification]
#[verifier::external_body]
pub struct ExSystemTimeError(std::time::SystemTimeError);

/// `SystemTime::now` reads the system clock; nothing is claimed of the reading.
pub assume_specification[ std::time::SystemTime::now ]() -> SystemTime;

/// `SystemTime::duration_since` measures the time from `earlier` to `later`, or
/// fails if `later` lies before `earlier`; nothing is claimed of which it is.
pub assume_specification[ std::time::SystemTime::duration_since ](
    later: &SystemTime,
    earlier: SystemTime,
) -> Result<Duration, SystemTimeError>;

/// `Duration::as_millis` gives the whole milliseconds in a duration; nothing
/// is claimed of their number.
pub assume_specification[ std::time::Duration::as_millis ](duration: &Duration) -> u128;

/// The constant `std::time::UNIX_EPOCH`, the moment that timestamps count from.
#[verifier::external_body]
fn unix_epoch() -> SystemTime {
    std::time::UNIX_EPOCH
}

/// The timestamp for `millis` milliseconds: their lowest 64 bits.
pub open spec fn stamp_of(millis: u128) -> u64 {
    (millis % 0x1_0000_0000_0000_0000) as u64
}

/// The timestamp for a measured time since the epoch, or for a clock that
/// stands before the epoch (`None`), which reads as zero.
pub open spec fn stamp_of_reading(elapsed: Option<u128>) -> u64 {
    match elapsed {
        Some(millis) => stamp_of(millis),
        None => 0,
    }
}

/// Turns a measured time since the epoch into a timestamp.
pub fn timestamp(elapsed: Option<u128>) -> (stamp: u64)
    ensures
        stamp == stamp_of_reading(elapsed),
{
    match elapsed {
        Some(millis) => {
            let low: u128 = millis % 0x1_0000_0000_0000_0000;
            low as u64
        },
        None => 0,
    }
}

/// The milliseconds that have passed since the epoch, by the system clock.
/// A clock that stands before the epoch reads as zero.
pub fn epoch_ms() -> u64 {
    let now: SystemTime = SystemTime::now();
    let elapsed: Option<u128> = match now.duration_since(unix_epoch()) {
        Ok(duration) => Some(duration.as_millis()),
        Err(_) => None,
    };
    timestamp(elapsed)
}

} // verus!
