//! Frame pacer: accumulates measured wall-clock time into fixed-size
//! virtual frame steps, clamping each measurement so a long stall cannot
//! cause an unbounded burst of catch-up ticks. Simulation speed is thereby
//! independent of the rendering rate; time is carried in nanoseconds.

use vstd::prelude::*;

use crate::constants::FRAME_NS;
use crate::constants::MAX_STEP_NS;

verus! {

/// The wall-clock delta actually credited to the accumulator: the
/// measured delta, clamped to the maximum step.
pub open spec fn clamped_step(elapsed_ns: u64) -> u64 {
    if elapsed_ns > MAX_STEP_NS {
        MAX_STEP_NS
    } else {
        elapsed_ns
    }
}

/// Fixed-timestep accumulator driving a variable number of simulation
/// ticks per rendered frame.
#[derive(Clone, Copy, Debug)]
pub struct FramePacer {
    /// Wall-clock time not yet turned into virtual frames; kept below one
    /// frame duration between polls.
    pub accumulator_ns: u64,
}

impl FramePacer {
    /// Creates a pacer with an empty accumulator.
    pub fn new() -> (r: Self)
        ensures
            r.accumulator_ns == 0,
    {
        Self { accumulator_ns: 0 }
    }

    /// Credits one measured wall-clock delta (clamped to the maximum
    /// step) and returns how many whole virtual frames to simulate now;
    /// the remainder stays in the accumulator. Zero ticks means the prior
    /// state is simply redisplayed. The clamp bounds any burst at sixteen
    /// ticks, whatever the stall.
    pub fn advance(&mut self, elapsed_ns: u64) -> (ticks: u64)
        requires
            old(self).accumulator_ns < FRAME_NS,
        ensures
            ticks == (old(self).accumulator_ns + clamped_step(elapsed_ns)) / FRAME_NS as int,
            final(self).accumulator_ns == (old(self).accumulator_ns + clamped_step(elapsed_ns))
                % FRAME_NS as int,
            final(self).accumulator_ns < FRAME_NS,
            ticks <= 16,
    {
        let clamped = if elapsed_ns > MAX_STEP_NS {
            MAX_STEP_NS
        } else {
            elapsed_ns
        };
        let total = self.accumulator_ns + clamped;
        let ticks = total / FRAME_NS;
        self.accumulator_ns = total % FRAME_NS;
        ticks
    }
}

} // verus!
