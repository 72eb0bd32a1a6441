//! A decaying peak estimate, held as the bit pattern of a linear gain.
use vstd::prelude::*;
use crate::float_bits::{abs_bits, is_signed, less_than, lt_bits, magnitude};

verus! {

/// The meter's next value: an amplitude above the current estimate replaces
/// it at once; otherwise the estimate takes the released value, which the
/// caller computes as `current * weight + amplitude * (1 - weight)`. Both are
/// taken as absolute values.
pub open spec fn next_peak(current: u32, amplitude: u32, released: u32) -> u32 {
    if less_than(current, magnitude(amplitude)) {
        magnitude(amplitude)
    } else {
        magnitude(released)
    }
}

/// A peak meter holding the bit pattern of a non-negative linear gain.
pub struct PeakMeter {
    bits: u32,
}

impl PeakMeter {
    /// The bit pattern the meter currently holds.
    pub closed spec fn value(self) -> u32 {
        self.bits
    }

    #[verifier::type_invariant]
    closed spec fn non_negative(self) -> bool {
        !is_signed(self.bits)
    }

    /// A meter at silence, a linear gain of zero.
    pub fn new() -> (m: Self)
        ensures
            m.value() == 0,
    {
        PeakMeter { bits: 0 }
    }

    /// The current estimate; its sign bit is never set.
    pub fn load(&self) -> (r: u32)
        ensures
            r == self.value(),
            !is_signed(r),
    {
        proof {
            use_type_invariant(self);
        }
        self.bits
    }

    /// Replaces the estimate with a non-negative value.
    pub fn store(&mut self, v: u32)
        requires
            !is_signed(v),
        ensures
            final(self).value() == v,
    {
        self.bits = v;
    }

    /// Applies one update: instant attack, exponential release.
    pub fn update(&mut self, amplitude: u32, released: u32)
        ensures
            final(self).value() == next_peak(old(self).value(), amplitude, released),
    {
        proof {
            use_type_invariant(&*self);
        }
        let a = abs_bits(amplitude);
        if lt_bits(self.bits, a) {
            self.bits = a;
        } else {
            self.bits = abs_bits(released);
        }
    }
}

/// An amplitude above the current estimate becomes the estimate exactly.
pub proof fn lemma_instant_attack(current: u32, amplitude: u32, released: u32)
    requires
        !is_signed(amplitude),
        less_than(current, amplitude),
    ensures
        next_peak(current, amplitude, released) == amplitude,
{
}

/// An amplitude at or below the current estimate gives the released value,
/// whatever the amplitude was.
pub proof fn lemma_release(current: u32, amplitude: u32, released: u32)
    requires
        !less_than(current, magnitude(amplitude)),
    ensures
        next_peak(current, amplitude, released) == magnitude(released),
{
}

/// Every update leaves a value without a sign bit.
pub proof fn lemma_next_peak_non_negative(current: u32, amplitude: u32, released: u32)
    ensures
        !is_signed(next_peak(current, amplitude, released)),
{
}

} // verus!
