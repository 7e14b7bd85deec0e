//! Deterministic sequence generator: a 16-bit linear-feedback shift
//! register producing a reproducible pseudo-random stream.

use vstd::prelude::*;

verus! {

/// Feedback mask XOR-ed in when the evicted low bit is 1.
pub const LFSR_TAPS: u16 = 0xB400;

/// Fixed non-zero seed substituted for a zero seed, avoiding the
/// degenerate all-zero absorbing state.
pub const LFSR_DEFAULT_SEED: u16 = 0xACE1;

/// One step of the shift register: shift right, XOR-ing the tap mask in
/// when the evicted bit was 1.
pub open spec fn lfsr_step(s: u16) -> u16 {
    if s & 1 == 1 {
        (s >> 1) ^ LFSR_TAPS
    } else {
        s >> 1
    }
}

/// A non-zero register never steps to the zero register, so the generator
/// seeded away from zero can never emit zero or get absorbed.
pub proof fn lemma_lfsr_step_nonzero(s: u16)
    requires
        s != 0,
    ensures
        lfsr_step(s) != 0,
{
    assert(s != 0 ==> (if s & 1 == 1 { (s >> 1) ^ 0xB400u16 } else { s >> 1 }) != 0)
        by (bit_vector);
}

/// The step function is injective, so the reachable states form pure
/// cycles: the stream repeats its full cycle identically, with no tail
/// leading into it.
pub proof fn lemma_lfsr_step_injective(a: u16, b: u16)
    requires
        lfsr_step(a) == lfsr_step(b),
    ensures
        a == b,
{
    assert((if a & 1 == 1 { (a >> 1) ^ 0xB400u16 } else { a >> 1 }) == (if b & 1 == 1 {
        (b >> 1) ^ 0xB400u16
    } else {
        b >> 1
    }) ==> a == b) by (bit_vector);
}

/// Deterministic pseudo-random generator over a single 16-bit register.
#[derive(Clone, Copy, Debug)]
pub struct Lfsr {
    /// Current register state; zero is unreachable from a fresh generator.
    pub s: u16,
}

impl Lfsr {
    /// Creates a generator from a seed, remapping the degenerate zero seed
    /// to a fixed non-zero default.
    pub fn new(seed: u16) -> (r: Self)
        ensures
            r.s == (if seed == 0 {
                LFSR_DEFAULT_SEED
            } else {
                seed
            }),
            r.s != 0,
    {
        Self { s: if seed == 0 { LFSR_DEFAULT_SEED } else { seed } }
    }

    /// Advances the register one step and returns the new state.
    pub fn next(&mut self) -> (r: u16)
        ensures
            final(self).s == lfsr_step(old(self).s),
            r == final(self).s,
            old(self).s != 0 ==> final(self).s != 0,
    {
        proof {
            if self.s != 0 {
                lemma_lfsr_step_nonzero(self.s);
            }
            let sv = self.s;
            assert(sv & 1 == 1 || sv & 1 == 0) by (bit_vector);
        }
        let lsb = self.s & 1;
        self.s >>= 1;
        if lsb != 0 {
            self.s ^= LFSR_TAPS;
        }
        self.s
    }

    /// Draws an integer uniformly positioned in the inclusive range
    /// `lo..=hi` as `lo + (next() mod span)`.
    ///
    /// Callers must keep the span positive and within the register width;
    /// a reversed range is a precondition violation, not a handled error.
    pub fn range(&mut self, lo: i32, hi: i32) -> (r: i32)
        requires
            lo <= hi,
            hi - lo <= 0xFFFE,
        ensures
            final(self).s == lfsr_step(old(self).s),
            r == lo + (lfsr_step(old(self).s) % ((hi - lo + 1) as u16)) as i32,
            lo <= r <= hi,
            old(self).s != 0 ==> final(self).s != 0,
    {
        let span = (hi - lo + 1) as u16;
        lo + (self.next() % span) as i32
    }
}

} // verus!
