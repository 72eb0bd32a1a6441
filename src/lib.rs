//! The real-time core of a stereo gain plugin with a side-chain path and peak
//! metering: range-checked parameters, the bookkeeping of their smoothers, and
//! a decaying peak meter with instant attack. Floating-point values are
//! carried as their IEEE-754 single-precision bit patterns.
use vstd::prelude::*;

pub mod float_bits;
pub mod param;
pub mod peak_meter;
pub mod processor;
pub mod smoother;

verus! {

} // verus!
