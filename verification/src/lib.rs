//! A discrete PID controller over 64-bit integers, with every step proved
//! against an exact model over the mathematical integers.
//!
//! A [`PIDController`] holds three gains, a target, a range for the integral
//! increment, a range for the output and a derivative mode, all of which the
//! caller may change between two steps. [`Controller::update`] takes a
//! measurement and the time since the last one, and returns the output.
//!
//! Measurements, gains and outputs are `i64`. The terms of a step are
//! computed without rounding or overflow, however large they grow; the
//! derivative, the one quotient of a step, is rounded toward zero. The
//! accumulated integral is an `i64` too and stops at the ends of that range.
//!
//! - [`model`] states what a step computes.
//! - [`laws`] proves what follows for every controller.
//! - [`util`] holds the range limiter that a step uses twice.

pub mod laws;
pub mod model;
pub mod util;
mod wide;

use crate::model::{ControllerModel, History, StateModel};
use crate::wide::Wide;
use vstd::prelude::*;

verus! {

/// Anything that turns a measurement and the time since the last one into a
/// control output.
pub trait Controller {
    /// Advances the controller by one sample and returns the output for it.
    /// `delta_t` is the time since the preceding call.
    fn update(&mut self, value: i64, delta_t: i64) -> (output: i64)
        requires
            delta_t > 0,
    ;
}

/// Which rate the derivative term follows.
#[derive(Debug, Clone, Copy)]
pub enum DerivativeMode {
    /// The rate of change of the error. A step in the target shows up as a
    /// spike in the output.
    OnError,
    /// The negated rate of change of the measurement, which a step in the
    /// target leaves alone.
    OnMeasurement,
}

/// The sample that a controller keeps between two steps.
#[derive(Debug, Clone, Copy)]
enum Sample {
    NoHistory,
    /// The measurement and the target of the preceding step. The error is
    /// their difference, which may need 65 bits.
    HasHistory { prev_value: i64, prev_target: i64 },
}

/// The running state of a [`PIDController`]. Only `update` and `reset`
/// change what it holds.
#[derive(Debug, Clone, Copy)]
pub struct RunningState {
    err_sum: i64,
    sample: Sample,
}

impl View for RunningState {
    type V = StateModel;

    closed spec fn view(&self) -> StateModel {
        StateModel {
            err_sum: self.err_sum as int,
            history: match self.sample {
                Sample::NoHistory => History::NoHistory,
                Sample::HasHistory { prev_value, prev_target } => History::HasHistory {
                    prev_value: prev_value as int,
                    prev_error: prev_target - prev_value,
                },
            },
        }
    }
}

impl RunningState {
    /// The state that a controller holds is one that 64-bit values can
    /// form.
    pub proof fn lemma_representable(&self)
        ensures
            self@.representable(),
    {
    }
}

/// A PID controller.
#[derive(Debug, Clone)]
pub struct PIDController {
    /// Proportional gain.
    pub p_gain: i64,
    /// Integral gain.
    pub i_gain: i64,
    /// Derivative gain.
    pub d_gain: i64,
    /// The value that the measurement is driven to.
    pub target: i64,
    /// Lower end of the range of an integral increment.
    pub i_min: i64,
    /// Upper end of the range of an integral increment.
    pub i_max: i64,
    /// Lower end of the output range.
    pub out_min: i64,
    /// Upper end of the output range.
    pub out_max: i64,
    pub d_mode: DerivativeMode,
    /// The accumulated integral and the preceding sample. Code outside this
    /// crate can neither build one nor change what it holds; it can only
    /// carry the state of one controller over to another.
    pub state: RunningState,
}

impl View for PIDController {
    type V = ControllerModel;

    open spec fn view(&self) -> ControllerModel {
        ControllerModel {
            p_gain: self.p_gain as int,
            i_gain: self.i_gain as int,
            d_gain: self.d_gain as int,
            target: self.target as int,
            i_min: self.i_min as int,
            i_max: self.i_max as int,
            out_min: self.out_min as int,
            out_max: self.out_max as int,
            d_mode: self.d_mode,
            state: self.state@,
        }
    }
}

impl PIDController {
    /// A controller with the given gains, target 0, both ranges unlimited,
    /// the derivative on the measurement, and no sample seen.
    pub fn new(p_gain: i64, i_gain: i64, d_gain: i64) -> (pid: PIDController)
        ensures
            pid@ == (ControllerModel {
                p_gain: p_gain as int,
                i_gain: i_gain as int,
                d_gain: d_gain as int,
                target: 0,
                i_min: i64::MIN as int,
                i_max: i64::MAX as int,
                out_min: i64::MIN as int,
                out_max: i64::MAX as int,
                d_mode: DerivativeMode::OnMeasurement,
                state: StateModel::initial(),
            }),
    {
        PIDController {
            p_gain,
            i_gain,
            d_gain,
            target: 0,
            i_min: i64::MIN,
            i_max: i64::MAX,
            out_min: i64::MIN,
            out_max: i64::MAX,
            d_mode: DerivativeMode::OnMeasurement,
            state: RunningState { err_sum: 0, sample: Sample::NoHistory },
        }
    }

    /// Sets the integral range and the output range to `[min, max]`.
    pub fn limits(&mut self, min: i64, max: i64)
        ensures
            final(self)@ == old(self)@.with_limits(min as int, max as int),
    {
        self.i_min = min;
        self.i_max = max;
        self.out_min = min;
        self.out_max = max;
    }

    /// Forgets the accumulated integral and the preceding sample. The
    /// configuration stays.
    pub fn reset(&mut self)
        ensures
            final(self)@ == old(self)@.cleared(),
    {
        self.state = RunningState { err_sum: 0, sample: Sample::NoHistory };
    }
}

impl Controller for PIDController {
    /// One step of the controller: the proportional term, the limited
    /// integral increment, the derivative term unless this is the first
    /// sample, and the limited sum of the three. Every term is computed
    /// exactly, whatever its size; only the accumulator stops at the ends of
    /// the 64-bit range.
    fn update(&mut self, value: i64, delta_t: i64) -> (output: i64)
        ensures
            final(self)@ == old(self)@.step(value as int, delta_t as int),
            output == old(self)@.output(value as int, delta_t as int),
    {
        let error: i128 = self.target as i128 - value as i128;

        let p_term = Wide::new(error).times(self.p_gain);
        proof {
            lemma_product_of_difference(error as int, self.p_gain as int);
        }

        let scaled_error = Wide::new(error).times(self.i_gain);
        proof {
            lemma_product_of_difference(error as int, self.i_gain as int);
        }
        let candidate = scaled_error.times(delta_t).plus(Wide::new(self.state.err_sum as i128));
        let increment = candidate.clamp_into(self.i_min, self.i_max);
        let err_sum = Wide::new(self.state.err_sum as i128 + increment as i128).clamp_into(
            i64::MIN,
            i64::MAX,
        );

        let d_term = match self.state.sample {
            Sample::NoHistory => Wide::new(0),
            Sample::HasHistory { prev_value, prev_target } => {
                let change: i128 = match self.d_mode {
                    DerivativeMode::OnMeasurement => prev_value as i128 - value as i128,
                    DerivativeMode::OnError => error - (prev_target as i128 - prev_value as i128),
                };
                proof {
                    lemma_product_of_double_difference(change as int, self.d_gain as int);
                }
                Wide::new(change).times(self.d_gain).over(delta_t)
            },
        };

        self.state = RunningState {
            err_sum,
            sample: Sample::HasHistory { prev_value: value, prev_target: self.target },
        };
        p_term.plus(Wide::new(err_sum as i128)).plus(d_term).clamp_into(self.out_min, self.out_max)
    }
}

/// The product of a difference of two 64-bit values with a 64-bit value
/// has a magnitude of at most `2^127 - 2^63`.
proof fn lemma_product_of_difference(a: int, b: int)
    by (nonlinear_arith)
    requires
        -0xffff_ffff_ffff_ffff <= a <= 0xffff_ffff_ffff_ffff,
        -0x8000_0000_0000_0000 <= b <= 0x7fff_ffff_ffff_ffff,
    ensures
        -0x7fff_ffff_ffff_ffff_8000_0000_0000_0000 <= a * b
            <= 0x7fff_ffff_ffff_ffff_8000_0000_0000_0000,
        a * b == b * a,
{
}

/// The product of a difference of two such differences with a 64-bit value
/// has a magnitude below `2^128`.
proof fn lemma_product_of_double_difference(a: int, b: int)
    by (nonlinear_arith)
    requires
        -0x1_ffff_ffff_ffff_fffe <= a <= 0x1_ffff_ffff_ffff_fffe,
        -0x8000_0000_0000_0000 <= b <= 0x7fff_ffff_ffff_ffff,
    ensures
        -0xffff_ffff_ffff_ffff_0000_0000_0000_0000 <= a * b
            <= 0xffff_ffff_ffff_ffff_0000_0000_0000_0000,
        a * b == b * a,
{
}

} // verus!
