//! Conversions of durations and fibre lengths into picoseconds, the unit of a time tag.

use vstd::prelude::*;

verus! {

pub const PICOSECONDS_PER_SECOND: u64 = 1_000_000_000_000;

pub const PICOSECONDS_PER_MINUTE: u64 = 60_000_000_000_000;

/// Picoseconds that light needs for one centimetre of optical fibre (approximately).
pub const PICOSECONDS_PER_FIBER_CENTIMETER: u64 = 50;

/// The number of picoseconds in `seconds` seconds.
pub fn pico_seconds(seconds: u64) -> (picoseconds: u64)
    requires
        seconds * PICOSECONDS_PER_SECOND <= u64::MAX,
    ensures
        picoseconds == seconds * PICOSECONDS_PER_SECOND,
{
    PICOSECONDS_PER_SECOND * seconds
}

/// The number of picoseconds in `minutes` minutes.
pub fn pico_minutes(minutes: u64) -> (picoseconds: u64)
    requires
        minutes * PICOSECONDS_PER_MINUTE <= u64::MAX,
    ensures
        picoseconds == minutes * PICOSECONDS_PER_MINUTE,
{
    PICOSECONDS_PER_MINUTE * minutes
}

/// The time, in picoseconds, that light takes to pass through `centimeters` centimetres of
/// optical fibre.
pub fn pico_fiber_centimeters(centimeters: u64) -> (picoseconds: u64)
    requires
        centimeters * PICOSECONDS_PER_FIBER_CENTIMETER <= u64::MAX,
    ensures
        picoseconds == centimeters * PICOSECONDS_PER_FIBER_CENTIMETER,
{
    PICOSECONDS_PER_FIBER_CENTIMETER * centimeters
}

} // verus!
