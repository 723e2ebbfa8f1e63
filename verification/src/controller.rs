//! The interface of a feedback controller.

use vstd::prelude::*;

verus! {

/// A generic controller interface.
///
/// A controller is fed measurements from the plant, each with the time since
/// the one before, and calculates an actuation value from them. It has a
/// setpoint, which only `set_target` changes.
pub trait Controller {
    /// The setpoint the controller steers toward.
    spec fn setpoint(&self) -> i32;

    /// Record a measurement from the plant and return the new output.
    ///
    /// `delta_t` is the time since the last update; it may not be zero.
    fn update(&mut self, value: i32, delta_t: i32) -> (output: i32)
        requires
            delta_t != 0,
        ensures
            final(self).setpoint() == old(self).setpoint(),
    ;

    /// Adjust the set target for the plant. It takes effect with the next
    /// `update`.
    fn set_target(&mut self, target: i32)
        ensures
            final(self).setpoint() == target,
    ;

    /// Retrieve the target value.
    fn target(&self) -> (target: i32)
        ensures
            target == self.setpoint(),
    ;

    /// Reset the internal state: what the controller has gathered from
    /// earlier measurements, not its parameters nor its target.
    fn reset(&mut self)
        ensures
            final(self).setpoint() == old(self).setpoint(),
    ;
}

} // verus!
