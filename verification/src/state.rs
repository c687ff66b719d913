//! What the pool remembers between two operations.

use crate::math::{AMP_PRECISION, MAX_AMP};
use vstd::prelude::*;

verus! {

/// The state of the pool: the price oracle and the amplification ramp.
///
/// The amplification runs in a straight line from `init_amp` at
/// `init_amp_time` to `next_amp` at `next_amp_time` and stays there. Both
/// values are scaled by `AMP_PRECISION`.
#[derive(Clone, Copy, Debug, PartialEq, Eq, Structural)]
pub struct Config {
    /// Time in seconds of the last update of the oracle.
    pub block_time_last: u64,
    /// Sum over time of the price of the first asset in the second.
    pub price0_cumulative_last: u128,
    /// Sum over time of the price of the second asset in the first.
    pub price1_cumulative_last: u128,
    /// Amplification at the start of the ramp.
    pub init_amp: u64,
    /// Time in seconds at which the ramp starts.
    pub init_amp_time: u64,
    /// Amplification at the end of the ramp.
    pub next_amp: u64,
    /// Time in seconds at which the ramp ends.
    pub next_amp_time: u64,
}

impl Config {
    /// Whether a scaled amplification is above zero and not above the
    /// maximum.
    pub open spec fn amp_in_range(amp: u64) -> bool {
        0 < amp <= MAX_AMP * AMP_PRECISION
    }

    /// What holds of the ramp in every state that the pool reaches: both ends
    /// are in range, the ramp does not end before it starts, and a ramp of no
    /// length has one value.
    pub open spec fn wf(&self) -> bool {
        &&& Self::amp_in_range(self.init_amp)
        &&& Self::amp_in_range(self.next_amp)
        &&& self.init_amp_time <= self.next_amp_time
        &&& (self.init_amp_time == self.next_amp_time ==> self.init_amp == self.next_amp)
    }
}

} // verus!
