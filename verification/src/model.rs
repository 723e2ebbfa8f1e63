//! The controller as a mathematical object.
//!
//! A `PidModel` holds the configuration and the state of a PID controller over
//! the unbounded integers, and its functions say what one sample does to it.
//! The contracts of `PIDController` are stated over this model.

use crate::pid_controller::DerivativeMode;
use crate::quotient::div_toward_zero;
use crate::range::clamp;
use vstd::prelude::*;

verus! {

/// The sample a warm controller remembers: the measurement and the error
/// that was computed from it.
pub struct Reading {
    pub value: int,
    pub error: int,
}

/// One input of `update`: a measurement and the time since the one before.
pub struct Sample {
    pub value: int,
    pub delta_t: int,
}

/// Configuration, setpoint and state of a PID controller.
pub struct PidModel {
    /// Proportional gain.
    pub p_gain: int,
    /// Integral gain.
    pub i_gain: int,
    /// Derivative gain.
    pub d_gain: int,
    /// The setpoint.
    pub target: int,
    /// Lower limit of the integral accumulator.
    pub i_min: int,
    /// Upper limit of the integral accumulator.
    pub i_max: int,
    /// Lower limit of the output.
    pub out_min: int,
    /// Upper limit of the output.
    pub out_max: int,
    /// How the derivative term is formed.
    pub d_mode: DerivativeMode,
    /// The integral accumulator.
    pub integral: int,
    /// The previous sample: `None` while the controller is cold.
    pub previous: Option<Reading>,
}

impl PidModel {
    /// A controller as it is created: setpoint zero, no history, the limits
    /// as wide as a 32-bit integer, derivative on the measurement.
    pub open spec fn initial(p_gain: int, i_gain: int, d_gain: int) -> PidModel {
        PidModel {
            p_gain,
            i_gain,
            d_gain,
            target: 0,
            i_min: i32::MIN as int,
            i_max: i32::MAX as int,
            out_min: i32::MIN as int,
            out_max: i32::MAX as int,
            d_mode: DerivativeMode::OnMeasurement,
            integral: 0,
            previous: None,
        }
    }

    /// No sample has been taken since creation or the last reset.
    pub open spec fn is_cold(self) -> bool {
        self.previous is None
    }

    /// The same controller with another setpoint.
    pub open spec fn with_target(self, target: int) -> PidModel {
        PidModel { target, ..self }
    }

    /// The same controller with `[min, max]` as the limits of both the
    /// accumulator and the output.
    pub open spec fn with_limits(self, min: int, max: int) -> PidModel {
        PidModel { i_min: min, i_max: max, out_min: min, out_max: max, ..self }
    }

    /// The controller without its history: accumulator zero, no previous
    /// sample. Configuration and setpoint stay.
    pub open spec fn reset(self) -> PidModel {
        PidModel { integral: 0, previous: None, ..self }
    }

    /// How far the measurement is from the setpoint.
    pub open spec fn error(self, value: int) -> int {
        self.target - value
    }

    /// The proportional term for a measurement.
    pub open spec fn proportional_term(self, value: int) -> int {
        self.p_gain * self.error(value)
    }

    /// The accumulator after a sample: the running sum, bounded into
    /// `[i_min, i_max]`. It is also the integral term of that sample.
    pub open spec fn integral_term(self, value: int, delta_t: int) -> int {
        clamp(self.i_min, self.i_max, self.integral + self.i_gain * self.error(value) * delta_t)
    }

    /// The derivative term for a sample: zero while cold, else the gain
    /// times the change since the previous sample, divided by the elapsed time
    /// and rounded toward zero. The change is that of the measurement, negated,
    /// or that of the error, as `d_mode` says.
    pub open spec fn derivative_term(self, value: int, delta_t: int) -> int {
        match self.previous {
            None => 0,
            Some(previous) => match self.d_mode {
                DerivativeMode::OnMeasurement => div_toward_zero(
                    self.d_gain * (previous.value - value),
                    delta_t,
                ),
                DerivativeMode::OnError => div_toward_zero(
                    self.d_gain * (self.error(value) - previous.error),
                    delta_t,
                ),
            },
        }
    }

    /// The sum of the three terms, before it is bounded.
    pub open spec fn unbounded_output(self, value: int, delta_t: int) -> int {
        self.proportional_term(value) + self.integral_term(value, delta_t) + self.derivative_term(
            value,
            delta_t,
        )
    }

    /// What `update` returns for a sample: the sum of the three terms bounded
    /// into `[out_min, out_max]`.
    pub open spec fn output(self, value: int, delta_t: int) -> int {
        clamp(self.out_min, self.out_max, self.unbounded_output(value, delta_t))
    }

    /// The controller after a sample: the accumulator moved, the sample
    /// remembered, all else unchanged.
    pub open spec fn step(self, value: int, delta_t: int) -> PidModel {
        PidModel {
            integral: self.integral_term(value, delta_t),
            previous: Some(Reading { value, error: self.error(value) }),
            ..self
        }
    }

    /// The controller after a sequence of samples, oldest first.
    pub open spec fn run(self, samples: Seq<Sample>) -> PidModel
        decreases samples.len(),
    {
        if samples.len() == 0 {
            self
        } else {
            self.run(samples.drop_last()).step(samples.last().value, samples.last().delta_t)
        }
    }
}

} // verus!
