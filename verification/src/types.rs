//! The values that go into a simulation and come out of it.

use crate::binary64::{greater, is_greater, is_positive, positive};
use vstd::prelude::*;

verus! {

/// The rule by which the state is advanced over one time step.
#[derive(Clone, Copy, Debug, PartialEq, Eq, Structural)]
pub enum IntegrationMethod {
    /// One derivative per step.
    Euler,
    /// The classic four-stage Runge-Kutta rule.
    RungeKutta4,
    /// A predictor step followed by the mean of two derivatives.
    TrapezoidalDamping,
}

/// A series RLC circuit behind a constant voltage source, with the time
/// grid on which it is simulated. Every quantity is a binary64 pattern.
#[derive(Clone, Copy, Debug, PartialEq, Eq)]
pub struct CircuitParameters {
    /// Capacitance in farad.
    pub capacitance: u64,
    /// Inductance in henry.
    pub inductance: u64,
    /// Total resistance in ohm.
    pub resistance: u64,
    /// Source voltage in volt, switched on at time zero.
    pub voltage: u64,
    /// Time step in seconds.
    pub dt: u64,
    /// Simulated duration in seconds.
    pub t_max: u64,
    /// The rule used for every step of a run.
    pub method: IntegrationMethod,
}

/// The parameter that a validation error speaks of.
#[derive(Clone, Copy, Debug, PartialEq, Eq, Structural)]
pub enum Parameter {
    Capacitance,
    Inductance,
    TimeStep,
    Duration,
}

/// What is wrong with a parameter.
#[derive(Clone, Copy, Debug, PartialEq, Eq, Structural)]
pub enum Violation {
    /// The value is zero, negative or not a number.
    NotPositive,
    /// The duration is not greater than the time step.
    NotBeyondTimeStep,
}

/// Why a simulation was not run.
#[derive(Clone, Copy, Debug, PartialEq, Eq, Structural)]
pub enum SimulationError {
    /// A parameter is outside the range in which the circuit equations
    /// can be stepped.
    InvalidParameter { field: Parameter, reason: Violation },
}

/// Whether a run is in progress. At most one is at any time.
#[derive(Clone, Copy, Debug, PartialEq, Eq, Structural)]
pub enum SimulationState {
    /// No run is in progress: one may be started.
    Ready,
    /// A run is in progress: a request to start another is turned down.
    Running,
}

impl SimulationState {
    /// Asks for a run. The request is accepted exactly if none is in
    /// progress; either way one is in progress afterwards.
    pub fn request_start(&mut self) -> (accepted: bool)
        ensures
            accepted == (*old(self) == SimulationState::Ready),
            *final(self) == SimulationState::Running,
    {
        let accepted = match self {
            SimulationState::Ready => true,
            SimulationState::Running => false,
        };
        *self = SimulationState::Running;
        accepted
    }

    /// Records that the run in progress has ended, with a result or with
    /// an error.
    pub fn finish(&mut self)
        ensures
            *final(self) == SimulationState::Ready,
    {
        *self = SimulationState::Ready;
    }
}

/// The state of the circuit at one instant.
#[derive(Clone, Copy, Debug, PartialEq, Eq)]
pub struct State {
    /// Voltage across the capacitor.
    pub voltage: u64,
    /// Current through the inductor.
    pub current: u64,
}

/// What a run produced: sample `i` of each series belongs to the same
/// instant.
#[derive(Clone, Debug, PartialEq, Eq)]
pub struct SimulationResults {
    pub time_series: Vec<u64>,
    pub voltage_series: Vec<u64>,
    pub current_series: Vec<u64>,
}

/// The three series of a run as sequences.
pub struct Trace {
    pub time: Seq<u64>,
    pub voltage: Seq<u64>,
    pub current: Seq<u64>,
}

impl Trace {
    /// The three series have one length, so that an index names one
    /// instant in all of them.
    pub open spec fn aligned(self) -> bool {
        self.time.len() == self.voltage.len() && self.time.len() == self.current.len()
    }
}

impl View for SimulationResults {
    type V = Trace;

    open spec fn view(&self) -> Trace {
        Trace {
            time: self.time_series@,
            voltage: self.voltage_series@,
            current: self.current_series@,
        }
    }
}

impl Parameter {
    /// The parameter's name as the circuit's fields spell it.
    pub open spec fn name_spec(self) -> Seq<char> {
        match self {
            Parameter::Capacitance => "capacitance"@,
            Parameter::Inductance => "inductance"@,
            Parameter::TimeStep => "dt"@,
            Parameter::Duration => "t_max"@,
        }
    }

    /// The parameter's name as the circuit's fields spell it.
    pub fn name(&self) -> (s: &'static str)
        ensures
            s@ == self.name_spec(),
    {
        match self {
            Parameter::Capacitance => "capacitance",
            Parameter::Inductance => "inductance",
            Parameter::TimeStep => "dt",
            Parameter::Duration => "t_max",
        }
    }
}

impl CircuitParameters {
    /// The first broken rule, in the order capacitance, inductance, time
    /// step, duration; `None` if the parameters can be simulated.
    pub open spec fn first_violation(self) -> Option<SimulationError> {
        if !positive(self.capacitance) {
            Some(
                SimulationError::InvalidParameter {
                    field: Parameter::Capacitance,
                    reason: Violation::NotPositive,
                },
            )
        } else if !positive(self.inductance) {
            Some(
                SimulationError::InvalidParameter {
                    field: Parameter::Inductance,
                    reason: Violation::NotPositive,
                },
            )
        } else if !positive(self.dt) {
            Some(
                SimulationError::InvalidParameter {
                    field: Parameter::TimeStep,
                    reason: Violation::NotPositive,
                },
            )
        } else if !greater(self.t_max, self.dt) {
            Some(
                SimulationError::InvalidParameter {
                    field: Parameter::Duration,
                    reason: Violation::NotBeyondTimeStep,
                },
            )
        } else {
            None
        }
    }

    /// Capacitance, inductance and time step are positive, and the
    /// duration is greater than the time step.
    pub open spec fn valid(self) -> bool {
        &&& positive(self.capacitance)
        &&& positive(self.inductance)
        &&& positive(self.dt)
        &&& greater(self.t_max, self.dt)
    }

    /// Checks the parameters before any step is taken.
    pub fn validate(&self) -> (r: Result<(), SimulationError>)
        ensures
            r is Ok <==> self.valid(),
            r matches Err(e) ==> self.first_violation() == Some(e),
    {
        if !is_positive(self.capacitance) {
            Err(
                SimulationError::InvalidParameter {
                    field: Parameter::Capacitance,
                    reason: Violation::NotPositive,
                },
            )
        } else if !is_positive(self.inductance) {
            Err(
                SimulationError::InvalidParameter {
                    field: Parameter::Inductance,
                    reason: Violation::NotPositive,
                },
            )
        } else if !is_positive(self.dt) {
            Err(
                SimulationError::InvalidParameter {
                    field: Parameter::TimeStep,
                    reason: Violation::NotPositive,
                },
            )
        } else if !is_greater(self.t_max, self.dt) {
            Err(
                SimulationError::InvalidParameter {
                    field: Parameter::Duration,
                    reason: Violation::NotBeyondTimeStep,
                },
            )
        } else {
            Ok(())
        }
    }
}

impl Default for CircuitParameters {
    /// One microfarad, one millihenry and 0.11 ohm behind five volt,
    /// stepped by one microsecond over five milliseconds with the
    /// Runge-Kutta rule.
    fn default() -> (p: Self)
        ensures
            p == (CircuitParameters {
                capacitance: 0x3EB0_C6F7_A0B5_ED8D,
                inductance: 0x3F50_624D_D2F1_A9FC,
                resistance: 0x3FBC_28F5_C28F_5C29,
                voltage: 0x4014_0000_0000_0000,
                dt: 0x3EB0_C6F7_A0B5_ED8D,
                t_max: 0x3F74_7AE1_47AE_147B,
                method: IntegrationMethod::RungeKutta4,
            }),
            p.valid(),
    {
        CircuitParameters {
            capacitance: 0x3EB0_C6F7_A0B5_ED8D,
            inductance: 0x3F50_624D_D2F1_A9FC,
            resistance: 0x3FBC_28F5_C28F_5C29,
            voltage: 0x4014_0000_0000_0000,
            dt: 0x3EB0_C6F7_A0B5_ED8D,
            t_max: 0x3F74_7AE1_47AE_147B,
            method: IntegrationMethod::RungeKutta4,
        }
    }
}

/// The parameters are valid exactly if no rule is broken.
pub proof fn lemma_valid_iff_no_violation(p: CircuitParameters)
    ensures
        p.valid() <==> p.first_violation() is None,
{
}

} // verus!
