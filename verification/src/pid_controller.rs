//! The PID controller.

use crate::controller::Controller;
use crate::model::PidModel;
use crate::model::Reading;
use crate::quotient::lemma_div_toward_zero_bound;
use crate::range::limit_range;
use vstd::prelude::*;

verus! {

/// PID controller derivative modes.
///
/// Two different ways of calculating the derivative can be used with the PID
/// controller. `OnMeasurement` avoids large bumps in the controller output
/// when the setpoint is changed with `set_target()`.
#[derive(Debug, Clone, Copy)]
pub enum DerivativeMode {
    /// Calculate the derivative of the error (classic PID controller).
    OnError,
    /// Calculate the derivative of the actual changes in value.
    OnMeasurement,
}

/// The previous sample as the controller stores it. The error of two 32-bit
/// values needs 33 bits.
#[derive(Debug, Clone, Copy)]
struct Stored {
    value: i32,
    error: i64,
}

/// What a controller holds besides its configuration: the setpoint, the
/// integral accumulator and the previous sample. Only the controller's own
/// operations read or change them.
#[derive(Debug, Clone, Copy)]
pub struct Internal {
    target: i32,
    err_sum: i32,
    previous: Option<Stored>,
}

impl Internal {
    /// The setpoint.
    pub closed spec fn setpoint(&self) -> i32 {
        self.target
    }

    /// The integral accumulator.
    pub closed spec fn integral(&self) -> int {
        self.err_sum as int
    }

    /// The previous sample, if there is one.
    pub closed spec fn previous(&self) -> Option<Reading> {
        match self.previous {
            None => None,
            Some(stored) => Some(Reading { value: stored.value as int, error: stored.error as int }),
        }
    }
}

/// PID Controller.
///
/// A PID controller, supporting the `Controller` interface. The gains, the
/// limits and the derivative mode are safe to modify while in operation.
///
/// `p_gain`, `i_gain` and `d_gain` are the respective gain values. The
/// controller stores an already adjusted integral, making it safe to alter
/// `i_gain`: it will not result in an immediate large jump in controller
/// output.
///
/// `i_min` and `i_max` are the limits for the internal integral storage.
/// Similarly, `out_min` and `out_max` clip the output value to an acceptable
/// range of values. By default, all limits are as wide as the integer type.
///
/// All sums, products and quotients of one update are formed exactly, in a
/// wider integer type; only the two bounded results, the accumulator and the
/// output, are 32-bit values. No update overflows.
#[derive(Debug)]
pub struct PIDController {
    /// Proportional gain.
    pub p_gain: i32,
    /// Integral gain.
    pub i_gain: i32,
    /// Differential gain.
    pub d_gain: i32,
    /// Lower limit of the integral.
    pub i_min: i32,
    /// Upper limit of the integral.
    pub i_max: i32,
    /// Lower limit of the output.
    pub out_min: i32,
    /// Upper limit of the output.
    pub out_max: i32,
    /// The derivative mode; `OnMeasurement` unless changed.
    pub d_mode: DerivativeMode,
    /// The setpoint and the state. All other fields are configuration values.
    pub internal: Internal,
}

impl Clone for PIDController {
    /// A second controller with the same configuration, setpoint and state.
    fn clone(&self) -> (copy: PIDController)
        ensures
            copy == *self,
    {
        PIDController {
            p_gain: self.p_gain,
            i_gain: self.i_gain,
            d_gain: self.d_gain,
            i_min: self.i_min,
            i_max: self.i_max,
            out_min: self.out_min,
            out_max: self.out_max,
            d_mode: self.d_mode,
            internal: self.internal,
        }
    }
}

impl View for PIDController {
    type V = PidModel;

    open spec fn view(&self) -> PidModel {
        PidModel {
            p_gain: self.p_gain as int,
            i_gain: self.i_gain as int,
            d_gain: self.d_gain as int,
            target: self.internal.setpoint() as int,
            i_min: self.i_min as int,
            i_max: self.i_max as int,
            out_min: self.out_min as int,
            out_max: self.out_max as int,
            d_mode: self.d_mode,
            integral: self.internal.integral(),
            previous: self.internal.previous(),
        }
    }
}

/// One more than the largest 32-bit value: the bound on the magnitude of a
/// gain, a limit, a measurement or a time step.
spec fn word() -> int {
    0x8000_0000
}

/// The product of two bounded integers is bounded by the product of the
/// bounds.
proof fn lemma_product_bound(a: int, b: int, bound_a: int, bound_b: int)
    by (nonlinear_arith)
    requires
        -bound_a <= a <= bound_a,
        -bound_b <= b <= bound_b,
    ensures
        -(bound_a * bound_b) <= a * b <= bound_a * bound_b,
{
}

impl PIDController {
    /// Creates a new PID controller: target zero, no history, all limits as
    /// wide as the integer type, the derivative taken on the measurement.
    pub fn new(p_gain: i32, i_gain: i32, d_gain: i32) -> (pid: PIDController)
        ensures
            pid@ == PidModel::initial(p_gain as int, i_gain as int, d_gain as int),
    {
        PIDController {
            p_gain: p_gain,
            i_gain: i_gain,
            d_gain: d_gain,
            i_min: i32::MIN,
            i_max: i32::MAX,
            out_min: i32::MIN,
            out_max: i32::MAX,
            d_mode: DerivativeMode::OnMeasurement,
            internal: Internal { target: 0, err_sum: 0, previous: None },
        }
    }

    /// Convenience function to set `i_min`/`i_max` and `out_min`/`out_max`
    /// to the same values simultaneously.
    pub fn set_limits(&mut self, min: i32, max: i32)
        ensures
            final(self)@ == old(self)@.with_limits(min as int, max as int),
    {
        self.i_min = min;
        self.i_max = max;
        self.out_min = min;
        self.out_max = max;
    }
}

impl Controller for PIDController {
    open spec fn setpoint(&self) -> i32 {
        self.internal.setpoint()
    }

    /// Replaces the setpoint; configuration and state stay as they are.
    fn set_target(&mut self, target: i32)
        ensures
            final(self)@ == old(self)@.with_target(target as int),
    {
        self.internal.target = target;
    }

    /// The setpoint.
    fn target(&self) -> (target: i32) {
        self.internal.target
    }

    /// Takes one sample and returns the new output.
    ///
    /// The output is the sum of the proportional, integral and derivative
    /// terms, bounded into `[out_min, out_max]`. The accumulator moves by
    /// `i_gain * error * delta_t` and is bounded into `[i_min, i_max]`; the
    /// sample is remembered for the derivative of the next one. The
    /// configuration and the setpoint do not change.
    fn update(&mut self, value: i32, delta_t: i32) -> (output: i32)
        ensures
            final(self)@ == old(self)@.step(value as int, delta_t as int),
            output == old(self)@.output(value as int, delta_t as int),
            final(self).i_min <= final(self).i_max ==> final(self).i_min
                <= final(self).internal.integral() <= final(self).i_max,
            final(self).out_min <= final(self).out_max ==> final(self).out_min <= output
                <= final(self).out_max,
    {
        let error: i64 = self.internal.target as i64 - value as i64;

        // PROPORTIONAL
        proof {
            lemma_product_bound(self.p_gain as int, error as int, word(), 2 * word());
        }
        let p_term: i128 = self.p_gain as i128 * error as i128;

        // INTEGRAL
        proof {
            lemma_product_bound(self.i_gain as int, error as int, word(), 2 * word());
            lemma_product_bound(
                self.i_gain as int * error as int,
                delta_t as int,
                word() * (2 * word()),
                word(),
            );
        }
        let i_term: i128 = limit_range(
            self.i_min as i128,
            self.i_max as i128,
            self.internal.err_sum as i128 + self.i_gain as i128 * error as i128 * delta_t as i128,
        );
        self.internal.err_sum = i_term as i32;

        // DIFFERENTIAL
        let d_term: i128 = match self.internal.previous {
            // we have no previous values, so skip the derivative calculation
            None => 0,
            Some(previous) => {
                let change: i128 = match self.d_mode {
                    // -delta_v instead of delta_error, to reduce "derivative kick"
                    DerivativeMode::OnMeasurement => previous.value as i128 - value as i128,
                    DerivativeMode::OnError => error as i128 - previous.error as i128,
                };
                proof {
                    lemma_product_bound(
                        self.d_gain as int,
                        change as int,
                        word(),
                        0x1_0000_0000_0000_0000,
                    );
                    lemma_div_toward_zero_bound(self.d_gain as int * change as int, delta_t as int);
                }
                self.d_gain as i128 * change / delta_t as i128
            },
        };

        // store previous values
        self.internal.previous = Some(Stored { value: value, error: error });

        let limited: i128 = limit_range(
            self.out_min as i128,
            self.out_max as i128,
            p_term + d_term + i_term,
        );
        limited as i32
    }

    /// Empties the accumulator and forgets the previous sample, which makes
    /// the controller cold. Configuration and setpoint stay as they are.
    fn reset(&mut self)
        ensures
            final(self)@ == old(self)@.reset(),
    {
        self.internal.previous = None;
        self.internal.err_sum = 0;
    }
}

} // verus!
