//! Parameters: a target value kept within a declared range, and for gains a
//! smoother that follows the target sample by sample.
use vstd::prelude::*;
use crate::float_bits::{le_bits, less_equal};
use crate::smoother::{retarget, step, Smoother};

verus! {

/// A target value outside the parameter's declared range was refused.
#[derive(Clone, Copy, Debug, PartialEq, Eq, Structural)]
pub struct OutOfRangeError;

/// The closed interval of a gain parameter, as single-precision bit patterns.
#[derive(Clone, Copy, Debug, PartialEq, Eq, Structural)]
pub struct FloatRange {
    pub min: u32,
    pub max: u32,
}

/// Whether `v` is a number between the range's ends, both included.
pub open spec fn in_float_range(r: FloatRange, v: u32) -> bool {
    less_equal(r.min, v) && less_equal(v, r.max)
}

impl FloatRange {
    /// Whether `v` lies within the range; a NaN never does.
    pub fn contains(&self, v: u32) -> (b: bool)
        ensures
            b == in_float_range(*self, v),
    {
        le_bits(self.min, v) && le_bits(v, self.max)
    }
}

/// A floating-point parameter: a target within its range, and the smoother
/// that moves toward it over `smoothing_steps` samples.
pub struct FloatParam {
    range: FloatRange,
    value: u32,
    smoothed: Smoother,
    smoothing_steps: u32,
}

impl FloatParam {
    pub closed spec fn target_value(self) -> u32 {
        self.value
    }

    pub closed spec fn range(self) -> FloatRange {
        self.range
    }

    pub closed spec fn smoother(self) -> Smoother {
        self.smoothed
    }

    pub closed spec fn steps(self) -> u32 {
        self.smoothing_steps
    }

    #[verifier::type_invariant]
    closed spec fn within_range(self) -> bool {
        in_float_range(self.range, self.value)
    }

    /// A parameter at `default`, with no smoothing until a step count is set.
    pub fn new(default: u32, range: FloatRange) -> (p: Self)
        requires
            in_float_range(range, default),
        ensures
            p.target_value() == default,
            p.range() == range,
            p.smoother() == (Smoother { current: default, target: default, steps_left: 0 }),
            p.steps() == 0,
    {
        FloatParam { range, value: default, smoothed: Smoother::new(default), smoothing_steps: 0 }
    }

    /// The target always lies within the range.
    pub fn value(&self) -> (v: u32)
        ensures
            v == self.target_value(),
            in_float_range(self.range(), v),
    {
        proof {
            use_type_invariant(self);
        }
        self.value
    }

    /// Sets how many samples a trajectory takes, derived from the sample
    /// rate and the smoothing time.
    pub fn set_smoothing_steps(&mut self, num_steps: u32)
        ensures
            final(self).steps() == num_steps,
            final(self).target_value() == old(self).target_value(),
            final(self).range() == old(self).range(),
            final(self).smoother() == old(self).smoother(),
    {
        proof {
            use_type_invariant(&*self);
        }
        self.smoothing_steps = num_steps;
    }

    /// Sets a new target and starts smoothing toward it, or refuses a value
    /// outside the range and leaves everything as it was.
    pub fn set_target(&mut self, v: u32) -> (r: Result<(), OutOfRangeError>)
        ensures
            r is Ok <==> in_float_range(old(self).range(), v),
            final(self).range() == old(self).range(),
            final(self).steps() == old(self).steps(),
            r is Ok ==> final(self).target_value() == v,
            r is Ok ==> final(self).smoother() == retarget(old(self).smoother(), v, old(self).steps()),
            r is Err ==> final(self).target_value() == old(self).target_value(),
            r is Err ==> final(self).smoother() == old(self).smoother(),
    {
        proof {
            use_type_invariant(&*self);
        }
        if self.range.contains(v) {
            self.value = v;
            let mut smoothed = self.smoothed;
            smoothed.set_target(v, self.smoothing_steps);
            self.smoothed = smoothed;
            Ok(())
        } else {
            Err(OutOfRangeError)
        }
    }

    /// Advances the smoother one sample; `stepped` is the next point of its
    /// curve. Returns the smoothed value.
    pub fn next_smoothed(&mut self, stepped: u32) -> (r: u32)
        ensures
            final(self).smoother() == step(old(self).smoother(), stepped),
            r == final(self).smoother().current,
            final(self).target_value() == old(self).target_value(),
            final(self).range() == old(self).range(),
            final(self).steps() == old(self).steps(),
    {
        proof {
            use_type_invariant(&*self);
        }
        let mut smoothed = self.smoothed;
        let r = smoothed.next(stepped);
        self.smoothed = smoothed;
        r
    }

    /// The smoother's state, without advancing it.
    pub fn smoothed(&self) -> (s: Smoother)
        ensures
            s == self.smoother(),
    {
        self.smoothed
    }

    /// Rests the smoother on the target, ending any trajectory.
    pub fn reset_smoother(&mut self)
        ensures
            final(self).smoother() == (Smoother {
                current: old(self).target_value(),
                target: old(self).target_value(),
                steps_left: 0,
            }),
            final(self).target_value() == old(self).target_value(),
            final(self).range() == old(self).range(),
            final(self).steps() == old(self).steps(),
    {
        proof {
            use_type_invariant(&*self);
        }
        let mut smoothed = self.smoothed;
        smoothed.reset(self.value);
        self.smoothed = smoothed;
    }
}

/// The closed interval of an integer parameter.
#[derive(Clone, Copy, Debug, PartialEq, Eq, Structural)]
pub struct IntRange {
    pub min: i32,
    pub max: i32,
}

/// An integer parameter: a value within its range, applied without smoothing.
pub struct IntParam {
    range: IntRange,
    value: i32,
}

impl IntParam {
    pub closed spec fn target_value(self) -> i32 {
        self.value
    }

    pub closed spec fn range(self) -> IntRange {
        self.range
    }

    #[verifier::type_invariant]
    closed spec fn within_range(self) -> bool {
        self.range.min <= self.value <= self.range.max
    }

    /// A parameter at `default`.
    pub fn new(default: i32, range: IntRange) -> (p: Self)
        requires
            range.min <= default <= range.max,
        ensures
            p.target_value() == default,
            p.range() == range,
    {
        IntParam { range, value: default }
    }

    /// The value always lies within the range.
    pub fn value(&self) -> (v: i32)
        ensures
            v == self.target_value(),
            self.range().min <= v <= self.range().max,
    {
        proof {
            use_type_invariant(self);
        }
        self.value
    }

    /// Sets a new value, or refuses one outside the range and keeps the old.
    pub fn set_target(&mut self, v: i32) -> (r: Result<(), OutOfRangeError>)
        ensures
            r is Ok <==> old(self).range().min <= v <= old(self).range().max,
            final(self).range() == old(self).range(),
            final(self).target_value() == (if r is Ok {
                v
            } else {
                old(self).target_value()
            }),
    {
        if self.range.min <= v && v <= self.range.max {
            self.value = v;
            Ok(())
        } else {
            Err(OutOfRangeError)
        }
    }
}

} // verus!
