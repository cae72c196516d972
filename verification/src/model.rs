//! The controller as a mathematical object: its configuration and running
//! state over the unbounded integers, and one step of it as a function.

use crate::util::clamp;
use crate::DerivativeMode;
use vstd::prelude::*;

verus! {

/// `x` brought into the range of an `i64`.
pub open spec fn saturate_i64(x: int) -> int {
    clamp(i64::MIN as int, i64::MAX as int, x)
}

/// The quotient of `n` by a positive `d`, rounded toward zero.
pub open spec fn quotient(n: int, d: int) -> int
    recommends
        d > 0,
{
    if n >= 0 {
        n / d
    } else {
        -((-n) / d)
    }
}

/// What the controller remembers of the sample before the current one.
pub enum History {
    /// No sample has been taken since construction or the last reset.
    NoHistory,
    /// The measurement of the preceding step and the error computed from it.
    HasHistory { prev_value: int, prev_error: int },
}

/// The running state of a controller.
pub struct StateModel {
    /// The accumulated integral term.
    pub err_sum: int,
    pub history: History,
}

/// A controller: configuration and running state.
pub struct ControllerModel {
    pub p_gain: int,
    pub i_gain: int,
    pub d_gain: int,
    pub target: int,
    pub i_min: int,
    pub i_max: int,
    pub out_min: int,
    pub out_max: int,
    pub d_mode: DerivativeMode,
    pub state: StateModel,
}

impl StateModel {
    /// The state of a controller that has seen no sample.
    pub open spec fn initial() -> StateModel {
        StateModel { err_sum: 0, history: History::NoHistory }
    }

    /// Whether a controller of 64-bit values can be in this state: the
    /// accumulator and the remembered measurement are 64-bit values, and the
    /// remembered error is a difference of two such values.
    pub open spec fn representable(self) -> bool {
        &&& i64::MIN <= self.err_sum <= i64::MAX
        &&& self.history matches History::HasHistory { prev_value, prev_error } ==> {
            &&& i64::MIN <= prev_value <= i64::MAX
            &&& i64::MIN - i64::MAX <= prev_error <= i64::MAX - i64::MIN
        }
    }
}

impl ControllerModel {
    /// The distance from the measurement to the target.
    pub open spec fn error(self, value: int) -> int {
        self.target - value
    }

    /// The proportional term.
    pub open spec fn p_term(self, value: int) -> int {
        self.p_gain * self.error(value)
    }

    /// What the accumulator would hold after adding this step's integral
    /// contribution, before any limit applies.
    pub open spec fn integral_candidate(self, value: int, delta_t: int) -> int {
        self.state.err_sum + self.i_gain * self.error(value) * delta_t
    }

    /// What this step adds to the accumulator: the candidate, limited to the
    /// integral range.
    pub open spec fn integral_increment(self, value: int, delta_t: int) -> int {
        clamp(self.i_min, self.i_max, self.integral_candidate(value, delta_t))
    }

    /// The accumulator after this step. It stops at the ends of the 64-bit
    /// range.
    pub open spec fn next_err_sum(self, value: int, delta_t: int) -> int {
        saturate_i64(self.state.err_sum + self.integral_increment(value, delta_t))
    }

    /// The integral term, which is the accumulator after this step: the gain
    /// is already part of each increment.
    pub open spec fn i_term(self, value: int, delta_t: int) -> int {
        self.next_err_sum(value, delta_t)
    }

    /// The derivative term: zero without a preceding sample, else the gain
    /// times the rate at which the measurement fell or the error rose, by the
    /// mode.
    pub open spec fn d_term(self, value: int, delta_t: int) -> int {
        match self.state.history {
            History::NoHistory => 0,
            History::HasHistory { prev_value, prev_error } => match self.d_mode {
                DerivativeMode::OnMeasurement => quotient(
                    self.d_gain * (prev_value - value),
                    delta_t,
                ),
                DerivativeMode::OnError => quotient(
                    self.d_gain * (self.error(value) - prev_error),
                    delta_t,
                ),
            },
        }
    }

    /// The sum of the three terms, before the output limit applies.
    pub open spec fn raw_output(self, value: int, delta_t: int) -> int {
        self.p_term(value) + self.i_term(value, delta_t) + self.d_term(value, delta_t)
    }

    /// The control output of this step.
    pub open spec fn output(self, value: int, delta_t: int) -> int {
        clamp(self.out_min, self.out_max, self.raw_output(value, delta_t))
    }

    /// The controller after this step: the configuration is untouched, the
    /// accumulator has advanced, and the sample is remembered.
    pub open spec fn step(self, value: int, delta_t: int) -> ControllerModel {
        ControllerModel {
            state: StateModel {
                err_sum: self.next_err_sum(value, delta_t),
                history: History::HasHistory { prev_value: value, prev_error: self.error(value) },
            },
            ..self
        }
    }

    /// The controller with its running state cleared and its configuration
    /// kept.
    pub open spec fn cleared(self) -> ControllerModel {
        ControllerModel { state: StateModel::initial(), ..self }
    }

    /// The controller after the given samples, taken in order. A sample is a
    /// measurement and the time since the one before it.
    pub open spec fn after(self, samples: Seq<(int, int)>) -> ControllerModel
        decreases samples.len(),
    {
        if samples.len() == 0 {
            self
        } else {
            self.after(samples.drop_last()).step(samples.last().0, samples.last().1)
        }
    }

    /// The controller set to the given derivative mode.
    pub open spec fn with_mode(self, d_mode: DerivativeMode) -> ControllerModel {
        ControllerModel { d_mode, ..self }
    }

    /// Whether the remembered error is the distance of the remembered
    /// measurement from the present target, as it is while the target has
    /// not moved since the preceding step.
    pub open spec fn target_held(self) -> bool {
        match self.state.history {
            History::NoHistory => true,
            History::HasHistory { prev_value, prev_error } => prev_error == self.target
                - prev_value,
        }
    }

    /// The controller with both ranges set to `[min, max]`.
    pub open spec fn with_limits(self, min: int, max: int) -> ControllerModel {
        ControllerModel { i_min: min, i_max: max, out_min: min, out_max: max, ..self }
    }
}

} // verus!
