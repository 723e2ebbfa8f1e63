//! What holds of every controller, proved over the model.

use crate::model::PidModel;
use crate::model::Sample;
use crate::pid_controller::DerivativeMode;
use crate::quotient::div_toward_zero;
use crate::range::clamp;
use vstd::prelude::*;

verus! {

/// A sequence of samples changes neither the configuration nor the setpoint.
pub proof fn law_run_keeps_configuration(m: PidModel, samples: Seq<Sample>)
    ensures
        m.run(samples).p_gain == m.p_gain,
        m.run(samples).i_gain == m.i_gain,
        m.run(samples).d_gain == m.d_gain,
        m.run(samples).target == m.target,
        m.run(samples).i_min == m.i_min,
        m.run(samples).i_max == m.i_max,
        m.run(samples).out_min == m.out_min,
        m.run(samples).out_max == m.out_max,
        m.run(samples).d_mode == m.d_mode,
    decreases samples.len(),
{
    if samples.len() > 0 {
        law_run_keeps_configuration(m, samples.drop_last());
    }
}

/// With the integral and derivative gains at zero, the output is the
/// proportional term plus what the accumulator holds, bounded. Where the
/// accumulator stays at zero it is the bounded proportional term alone.
pub proof fn law_pure_proportional(m: PidModel, value: int, delta_t: int)
    requires
        m.i_gain == 0,
        m.d_gain == 0,
        delta_t != 0,
    ensures
        m.output(value, delta_t) == clamp(
            m.out_min,
            m.out_max,
            m.p_gain * (m.target - value) + clamp(m.i_min, m.i_max, m.integral),
        ),
        clamp(m.i_min, m.i_max, m.integral) == 0 ==> m.output(value, delta_t) == clamp(
            m.out_min,
            m.out_max,
            m.p_gain * (m.target - value),
        ),
{
    lemma_zero_gain(m.i_gain, m.error(value), delta_t);
    match m.previous {
        None => {},
        Some(previous) => {
            lemma_zero_gain(m.d_gain, previous.value - value, delta_t);
            lemma_zero_gain(m.d_gain, m.error(value) - previous.error, delta_t);
        },
    }
}

/// A controller with the integral and derivative gains at zero, an empty
/// accumulator and integral limits that admit zero gives the bounded
/// proportional term whatever samples it has seen before.
pub proof fn law_pure_proportional_after_any_history(
    m: PidModel,
    history: Seq<Sample>,
    value: int,
    delta_t: int,
)
    requires
        m.i_gain == 0,
        m.d_gain == 0,
        m.integral == 0,
        m.i_min <= 0 <= m.i_max,
        delta_t != 0,
    ensures
        m.run(history).integral == 0,
        m.run(history).output(value, delta_t) == clamp(
            m.out_min,
            m.out_max,
            m.p_gain * (m.target - value),
        ),
    decreases history.len(),
{
    law_run_keeps_configuration(m, history);
    if history.len() > 0 {
        let earlier = history.drop_last();
        law_run_keeps_configuration(m, earlier);
        law_pure_proportional_after_any_history(m, earlier, value, delta_t);
        lemma_zero_gain(m.i_gain, m.run(earlier).error(history.last().value), history.last().delta_t);
    }
    law_pure_proportional(m.run(history), value, delta_t);
}

/// Anti-windup: with the integral limits in order, the accumulator lies
/// within them after every sample.
pub proof fn law_integral_within_limits(m: PidModel, value: int, delta_t: int)
    requires
        m.i_min <= m.i_max,
    ensures
        m.i_min <= m.step(value, delta_t).integral <= m.i_max,
{
}

/// Anti-windup over time: with the integral limits in order, the accumulator
/// lies within them after any sequence of one or more samples.
pub proof fn law_integral_within_limits_after_run(m: PidModel, samples: Seq<Sample>)
    requires
        m.i_min <= m.i_max,
        samples.len() > 0,
    ensures
        m.i_min <= m.run(samples).integral <= m.i_max,
{
    law_run_keeps_configuration(m, samples.drop_last());
}

/// With the output limits in order, every output lies within them.
pub proof fn law_output_within_limits(m: PidModel, value: int, delta_t: int)
    requires
        m.out_min <= m.out_max,
    ensures
        m.out_min <= m.output(value, delta_t) <= m.out_max,
{
}

/// A new controller and a reset one are cold.
pub proof fn law_cold_after_creation_and_reset(m: PidModel, p_gain: int, i_gain: int, d_gain: int)
    ensures
        PidModel::initial(p_gain, i_gain, d_gain).is_cold(),
        m.reset().is_cold(),
{
}

/// A sample leaves the controller warm, and so does every sequence of one
/// or more samples: only a reset makes it cold again.
pub proof fn law_warm_after_sample(m: PidModel, value: int, delta_t: int, samples: Seq<Sample>)
    ensures
        !m.step(value, delta_t).is_cold(),
        samples.len() > 0 ==> !m.run(samples).is_cold(),
{
}

/// Cold start: the first sample of a cold controller has no derivative term,
/// in either mode.
pub proof fn law_cold_start_derivative(m: PidModel, value: int, delta_t: int)
    requires
        m.is_cold(),
    ensures
        m.derivative_term(value, delta_t) == 0,
        m.output(value, delta_t) == clamp(
            m.out_min,
            m.out_max,
            m.proportional_term(value) + m.integral_term(value, delta_t),
        ),
{
}

/// Resetting twice is resetting once.
pub proof fn law_reset_idempotent(m: PidModel)
    ensures
        m.reset().reset() == m.reset(),
{
}

/// Resetting a controller that has taken no sample changes nothing: not the
/// controller, and so not what any later sample gives.
pub proof fn law_reset_of_fresh_controller(m: PidModel, value: int, delta_t: int)
    requires
        m.is_cold(),
        m.integral == 0,
    ensures
        m.reset() == m,
        m.reset().output(value, delta_t) == m.output(value, delta_t),
        m.reset().step(value, delta_t) == m.step(value, delta_t),
{
}

/// A controller as it is created has taken no sample, whatever of its
/// configuration or setpoint is changed afterwards.
pub proof fn law_new_controller_is_fresh(
    p_gain: int,
    i_gain: int,
    d_gain: int,
    target: int,
    min: int,
    max: int,
)
    ensures
        ({
            let m = PidModel::initial(p_gain, i_gain, d_gain);
            &&& m.reset() == m
            &&& m.with_target(target).reset() == m.with_target(target)
            &&& m.with_limits(min, max).reset() == m.with_limits(min, max)
        }),
{
}

/// No setpoint kick: in the mode `OnMeasurement` the derivative term of a
/// sample does not depend on the setpoint.
pub proof fn law_no_setpoint_kick(m: PidModel, target: int, value: int, delta_t: int)
    requires
        m.d_mode is OnMeasurement,
    ensures
        m.with_target(target).derivative_term(value, delta_t) == m.derivative_term(value, delta_t),
{
}

/// In the mode `OnError` a change of the setpoint between two samples shows
/// in the derivative term: the term is that of the error's change, the
/// setpoint's step included.
pub proof fn law_setpoint_kick_on_error(m: PidModel, target: int, value: int, delta_t: int)
    requires
        m.d_mode is OnError,
        m.previous is Some,
    ensures
        m.with_target(target).derivative_term(value, delta_t) == div_toward_zero(
            m.d_gain * ((target - value) - m.previous->0.error),
            delta_t,
        ),
{
}

/// A term whose gain is zero vanishes, also after the division by the time.
proof fn lemma_zero_gain(gain: int, change: int, delta_t: int)
    requires
        gain == 0,
    ensures
        gain * change == 0,
        gain * change * delta_t == 0,
        delta_t != 0 ==> div_toward_zero(gain * change, delta_t) == 0,
{
    assert(gain * change == 0) by (nonlinear_arith)
        requires
            gain == 0,
    ;
    assert(0 * delta_t == 0);
    if delta_t != 0 {
        assert(0int / delta_t == 0) by (nonlinear_arith)
            requires
                delta_t != 0,
        ;
    }
}

} // verus!
