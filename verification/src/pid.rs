use vstd::prelude::*;
use crate::routing::PidSlot;

verus! {

/// The inputs of a PID controller for one step: set point and actual value
/// (in input units), and the bounds of the output (in output units).
#[derive(Clone, Copy, Debug)]
pub struct PID_input<I, O> {
    pub set: I,
    pub act: I,
    pub min: O,
    pub max: O,
}

impl<I, O> PID_input<I, O> {
    /// Stores a value arriving on one of the controller's input pins.
    pub fn set_input(&mut self, slot: PidSlot, value: I)
        ensures
            slot == PidSlot::SetPoint ==> final(self).set == value && final(self).act == old(self).act,
            slot == PidSlot::Actual ==> final(self).act == value && final(self).set == old(self).set,
            final(self).min == old(self).min,
            final(self).max == old(self).max,
    {
        match slot {
            PidSlot::SetPoint => self.set = value,
            PidSlot::Actual => self.act = value,
        }
    }
}

/// What a step of the controller does with its error integral.
#[derive(Clone, Copy, Debug, PartialEq, Eq, Structural)]
pub enum IntegralUpdate {
    /// Add the new error to the integral.
    Accumulate,
    /// Recompute the integral from the forced output (tracking reset).
    BackCalculate,
    /// Keep the integral of the previous step (anti-windup).
    Restore,
}

/// The integral rule of a controller step: when the output ends on or beyond
/// one of its bounds the integral of the previous step is kept; otherwise a
/// normal step accumulates the error and a reset step recomputes the
/// integral from the forced output.
pub open spec fn integral_update_spec(reset: bool, saturated: bool) -> IntegralUpdate {
    if saturated {
        IntegralUpdate::Restore
    } else if reset {
        IntegralUpdate::BackCalculate
    } else {
        IntegralUpdate::Accumulate
    }
}

/// Decides what a controller step does with its error integral, given
/// whether the step is a reset and whether its output ended at or beyond
/// one of the output bounds.
pub fn integral_update(reset: bool, saturated: bool) -> (res: IntegralUpdate)
    ensures
        res == integral_update_spec(reset, saturated),
{
    let mut update = if reset == false {
        IntegralUpdate::Accumulate
    } else {
        IntegralUpdate::BackCalculate
    };
    if saturated {
        update = IntegralUpdate::Restore;
    }
    update
}

} // verus!
