//! The event record that the writer takes in.

use vstd::prelude::*;

verus! {

/// One detected event: the channel it arrived on and when.
#[derive(Clone, Copy, Debug, PartialEq, Eq, Structural)]
pub struct NormalizedTimeTag {
    pub channel_id: u16,
    /// The time tag, in picoseconds, counting up from the start of the measurement.
    pub time_tag_ps: u64,
}

} // verus!
