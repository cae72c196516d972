//! What holds of every controller, proved over the model.

use crate::model::{ControllerModel, History, StateModel};
use crate::DerivativeMode;
use vstd::prelude::*;

verus! {

/// The running state of a controller that has met its target and has
/// accumulated nothing.
pub open spec fn steady_state(target: int) -> StateModel {
    StateModel {
        err_sum: 0,
        history: History::HasHistory { prev_value: target, prev_error: 0 },
    }
}

/// A measurement on target has no proportional term. If moreover the
/// controller has no integral gain, has accumulated nothing and admits zero
/// as an integral increment, the step adds nothing to the accumulator, and
/// the sum of its terms is the derivative term alone.
pub proof fn lemma_on_target_step(m: ControllerModel, value: int, delta_t: int)
    requires
        value == m.target,
    ensures
        m.p_term(value) == 0,
        m.step(value, delta_t).state.history == (History::HasHistory {
            prev_value: m.target,
            prev_error: 0,
        }),
        m.i_gain == 0 && m.state.err_sum == 0 && m.i_min <= 0 <= m.i_max ==> {
            &&& m.integral_increment(value, delta_t) == 0
            &&& m.step(value, delta_t).state.err_sum == 0
            &&& m.raw_output(value, delta_t) == m.d_term(value, delta_t)
        },
{
    assert(m.p_gain * 0 == 0);
    if m.i_gain == 0 {
        assert(m.i_gain * m.error(value) * delta_t == 0) by (nonlinear_arith)
            requires
                m.i_gain == 0,
        ;
    }
}

/// A measurement on target has no derivative term where the controller
/// follows the error and the preceding measurement was on target too, or
/// follows the measurement and the preceding measurement was the same.
pub proof fn lemma_on_target_derivative(m: ControllerModel, value: int, delta_t: int)
    requires
        value == m.target,
        delta_t > 0,
        m.state.history matches History::HasHistory { prev_value, prev_error } ==> match m.d_mode {
            DerivativeMode::OnError => prev_error == 0,
            DerivativeMode::OnMeasurement => prev_value == value,
        },
    ensures
        m.d_term(value, delta_t) == 0,
{
    assert(m.d_gain * 0 == 0);
    assert(0int / delta_t == 0);
}

/// A controller without integral gain that starts from the initial state,
/// admits zero as an integral increment and is fed its own target at every
/// step stays where it is for any number of steps: the accumulator stays
/// zero, and each step sums to zero before the output limit applies. Its
/// output is zero wherever the output range admits zero.
pub proof fn lemma_zero_error_steady_state(m: ControllerModel, samples: Seq<(int, int)>)
    requires
        m.state == StateModel::initial(),
        m.i_gain == 0,
        m.i_min <= 0 <= m.i_max,
        forall|j: int|
            0 <= j < samples.len() ==> (#[trigger] samples[j]).0 == m.target && samples[j].1 > 0,
    ensures
        m.after(samples).state == if samples.len() == 0 {
            StateModel::initial()
        } else {
            steady_state(m.target)
        },
        forall|k: int|
            #![trigger samples[k]]
            0 <= k < samples.len() ==> {
                let before = m.after(samples.take(k));
                &&& before.raw_output(samples[k].0, samples[k].1) == 0
                &&& m.out_min <= 0 <= m.out_max ==> before.output(samples[k].0, samples[k].1)
                    == 0
            },
    decreases samples.len(),
{
    if samples.len() > 0 {
        let earlier = samples.drop_last();
        lemma_zero_error_steady_state(m, earlier);
        lemma_after_keeps_configuration(m, earlier);
        let before = m.after(earlier);
        let (value, delta_t) = samples.last();
        assert(value == m.target && delta_t > 0) by {
            assert(samples[samples.len() - 1] == samples.last());
        }
        lemma_on_target_step(before, value, delta_t);
        lemma_on_target_derivative(before, value, delta_t);
        assert forall|k: int| #![trigger samples[k]] 0 <= k < samples.len() implies {
            let at = m.after(samples.take(k));
            &&& at.raw_output(samples[k].0, samples[k].1) == 0
            &&& m.out_min <= 0 <= m.out_max ==> at.output(samples[k].0, samples[k].1) == 0
        } by {
            if k < samples.len() - 1 {
                assert(samples.take(k) == earlier.take(k));
                assert(samples[k] == earlier[k]);
            } else {
                assert(samples.take(k) == earlier);
            }
        }
    }
}

/// Without a preceding sample the derivative term is zero in either mode.
/// That is the case on the first step after construction and after every
/// reset, whose output is then made of the other two terms alone.
pub proof fn lemma_first_step_has_no_derivative(m: ControllerModel, value: int, delta_t: int)
    ensures
        m.state.history is NoHistory ==> m.d_term(value, delta_t) == 0,
        m.cleared().d_term(value, delta_t) == 0,
        m.cleared().raw_output(value, delta_t) == m.cleared().p_term(value) + m.cleared().i_term(
            value,
            delta_t,
        ),
{
}

/// Every step leaves a sample behind, so only the first step after
/// construction or a reset goes without a derivative term.
pub proof fn lemma_step_records_sample(m: ControllerModel, value: int, delta_t: int)
    ensures
        m.step(value, delta_t).state.history == (History::HasHistory {
            prev_value: value,
            prev_error: m.target - value,
        }),
{
}

/// A sum of the three terms that lies in the output range is the output.
pub proof fn lemma_output_in_range_is_unchanged(m: ControllerModel, value: int, delta_t: int)
    requires
        m.out_min <= m.raw_output(value, delta_t) <= m.out_max,
    ensures
        m.output(value, delta_t) == m.raw_output(value, delta_t),
{
}

/// With a non-empty output range the output lies in it.
pub proof fn lemma_output_within_range(m: ControllerModel, value: int, delta_t: int)
    requires
        m.out_min <= m.out_max,
    ensures
        m.out_min <= m.output(value, delta_t) <= m.out_max,
{
}

/// With a non-empty integral range, what one step adds to the accumulator
/// lies in that range. It is the increment that is limited, not the
/// accumulator, which may leave the range over several steps. Where the sum
/// would leave the 64-bit range the accumulator stops at the end of it,
/// having moved by less than the increment.
pub proof fn lemma_integral_increment_bounded(m: ControllerModel, value: int, delta_t: int)
    requires
        m.i_min <= m.i_max,
        i64::MIN <= m.state.err_sum <= i64::MAX,
    ensures
        m.i_min <= m.integral_increment(value, delta_t) <= m.i_max,
        ({
            let increment = m.integral_increment(value, delta_t);
            let added = m.step(value, delta_t).state.err_sum - m.state.err_sum;
            &&& i64::MIN <= m.state.err_sum + increment <= i64::MAX ==> added == increment
            &&& increment >= 0 ==> 0 <= added <= increment
            &&& increment <= 0 ==> increment <= added <= 0
        }),
{
}

/// While the target has not moved since the preceding step, the two modes
/// give the same derivative term: the error rises by what the measurement
/// falls.
pub proof fn lemma_derivative_modes_agree(m: ControllerModel, value: int, delta_t: int)
    requires
        m.target_held(),
    ensures
        m.with_mode(DerivativeMode::OnError).d_term(value, delta_t) == m.with_mode(
            DerivativeMode::OnMeasurement,
        ).d_term(value, delta_t),
{
    if let History::HasHistory { prev_value, prev_error } = m.state.history {
        assert(m.error(value) - prev_error == prev_value - value);
    }
}

/// A step leaves the target where it was, so the modes agree on any step
/// that follows another without a change of target in between.
pub proof fn lemma_step_holds_target(m: ControllerModel, value: int, delta_t: int)
    ensures
        m.step(value, delta_t).target_held(),
{
}

/// Steps change the running state only.
pub proof fn lemma_after_keeps_configuration(m: ControllerModel, samples: Seq<(int, int)>)
    ensures
        m.after(samples) == (ControllerModel { state: m.after(samples).state, ..m }),
    decreases samples.len(),
{
    if samples.len() > 0 {
        lemma_after_keeps_configuration(m, samples.drop_last());
    }
}

} // verus!
