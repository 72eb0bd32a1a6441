//! The bookkeeping of a parameter smoother: how many interpolation steps are
//! left, and when the value lands on its target.
use vstd::prelude::*;
use crate::float_bits::less_equal;

verus! {

/// A smoothed value. `current` and `target` are single-precision bit
/// patterns; `steps_left` counts the samples until `current` reaches `target`.
#[derive(Clone, Copy, Debug, PartialEq, Eq, Structural)]
pub struct Smoother {
    pub current: u32,
    pub target: u32,
    pub steps_left: u32,
}

/// A smoother with no steps left sits on its target.
pub open spec fn settled_on_target(s: Smoother) -> bool {
    s.steps_left == 0 ==> s.current == s.target
}

/// One sample. While more than one step is left the value moves to `stepped`,
/// the next point of the curve that the caller computed; on the last step it
/// lands on the target exactly, and it stays there.
pub open spec fn step(s: Smoother, stepped: u32) -> Smoother {
    if s.steps_left > 1 {
        Smoother { current: stepped, target: s.target, steps_left: (s.steps_left - 1) as u32 }
    } else {
        Smoother { current: s.target, target: s.target, steps_left: 0 }
    }
}

/// The smoother after one sample for each entry of `stepped`, in order.
pub open spec fn run(s: Smoother, stepped: Seq<u32>) -> Smoother
    decreases stepped.len(),
{
    if stepped.len() == 0 {
        s
    } else {
        run(step(s, stepped[0]), stepped.drop_first())
    }
}

/// A new trajectory from the current value to `target` over `num_steps`
/// samples; with no steps the value jumps to the target.
pub open spec fn retarget(s: Smoother, target: u32, num_steps: u32) -> Smoother {
    if num_steps == 0 {
        Smoother { current: target, target, steps_left: 0 }
    } else {
        Smoother { current: s.current, target, steps_left: num_steps }
    }
}

impl Smoother {
    /// A smoother resting on `value`.
    pub fn new(value: u32) -> (s: Self)
        ensures
            s == (Smoother { current: value, target: value, steps_left: 0 }),
    {
        Smoother { current: value, target: value, steps_left: 0 }
    }

    /// Stops any trajectory and rests on `value`.
    pub fn reset(&mut self, value: u32)
        ensures
            *final(self) == (Smoother { current: value, target: value, steps_left: 0 }),
    {
        self.current = value;
        self.target = value;
        self.steps_left = 0;
    }

    /// Starts a trajectory from the current value to `target`.
    pub fn set_target(&mut self, target: u32, num_steps: u32)
        ensures
            *final(self) == retarget(*old(self), target, num_steps),
    {
        self.target = target;
        self.steps_left = num_steps;
        if num_steps == 0 {
            self.current = target;
        }
    }

    /// Advances one sample and returns the new value.
    pub fn next(&mut self, stepped: u32) -> (r: u32)
        ensures
            *final(self) == step(*old(self), stepped),
            r == final(self).current,
    {
        if self.steps_left > 1 {
            self.current = stepped;
            self.steps_left = self.steps_left - 1;
        } else {
            self.current = self.target;
            self.steps_left = 0;
        }
        self.current
    }

    /// The value, without advancing.
    pub fn current(&self) -> (r: u32)
        ensures
            r == self.current,
    {
        self.current
    }

    /// Whether a trajectory is still under way.
    pub fn is_smoothing(&self) -> (r: bool)
        ensures
            r == (self.steps_left > 0),
    {
        self.steps_left > 0
    }
}

/// Every operation keeps a settled smoother on its target.
pub proof fn lemma_settled_preserved(s: Smoother, stepped: u32, target: u32, num_steps: u32)
    ensures
        settled_on_target(step(s, stepped)),
        settled_on_target(retarget(s, target, num_steps)),
{
}

/// The smoother adds no overshoot of its own: when the value lies at or below
/// its target and the caller's next point of the curve lies between the value
/// and the target, one sample keeps the value between where it was and the
/// target. The same holds with every order reversed.
pub proof fn lemma_step_no_overshoot(s: Smoother, stepped: u32)
    ensures
        less_equal(s.current, stepped) && less_equal(stepped, s.target) ==> less_equal(
            s.current,
            step(s, stepped).current,
        ) && less_equal(step(s, stepped).current, s.target),
        less_equal(s.target, stepped) && less_equal(stepped, s.current) ==> less_equal(
            step(s, stepped).current,
            s.current,
        ) && less_equal(s.target, step(s, stepped).current),
{
}

/// Running never changes the target, and after as many samples as there were
/// steps left the smoother sits on it exactly, whatever the intermediate
/// points were.
pub proof fn lemma_reaches_target(s: Smoother, stepped: Seq<u32>)
    requires
        settled_on_target(s),
        stepped.len() >= s.steps_left,
    ensures
        run(s, stepped).target == s.target,
        run(s, stepped).current == s.target,
        run(s, stepped).steps_left == 0,
    decreases stepped.len(),
{
    if stepped.len() > 0 {
        lemma_reaches_target(step(s, stepped[0]), stepped.drop_first());
    }
}

/// After a new target is set with `num_steps` steps, `num_steps` samples or
/// more bring the value onto that target exactly.
pub proof fn lemma_retarget_converges(s: Smoother, target: u32, num_steps: u32, stepped: Seq<u32>)
    requires
        stepped.len() >= num_steps,
    ensures
        run(retarget(s, target, num_steps), stepped).current == target,
        run(retarget(s, target, num_steps), stepped).steps_left == 0,
{
    lemma_reaches_target(retarget(s, target, num_steps), stepped);
}

} // verus!
