//! The circuit equations, the three step rules and the run that applies
//! one of them over the time grid.
//!
//! The circuit is a resistor, an inductor and a capacitor in series behind
//! a voltage source that is switched on at time zero:
//!
//! ```text
//! d(Vc)/dt = Il / C
//! d(Il)/dt = (V - Vc - R * Il) / L
//! ```

use crate::arithmetic::{
    difference, evaluate, follows, from_integer, product, quotient, sum, to_integer, total, Model,
    Operation,
};
use crate::binary64::{SIX, TWO, ZERO};
use crate::types::{CircuitParameters, IntegrationMethod, SimulationError, SimulationResults, State, Trace};
use vstd::prelude::*;

verus! {

/// The rate of change of the state: the right-hand side of the circuit
/// equations.
pub open spec fn derivative(model: Model, p: CircuitParameters, s: State) -> State {
    State {
        voltage: quotient(model, s.current, p.capacitance),
        current: quotient(
            model,
            difference(
                model,
                difference(model, p.voltage, s.voltage),
                product(model, p.resistance, s.current),
            ),
            p.inductance,
        ),
    }
}

/// `s + k * h` in each component: the state moved along the slope `k`
/// for the time `h`.
pub open spec fn advanced(model: Model, s: State, k: State, h: u64) -> State {
    State {
        voltage: sum(model, s.voltage, product(model, k.voltage, h)),
        current: sum(model, s.current, product(model, k.current, h)),
    }
}

/// `((k1 + k2 * 2) + k3 * 2) + k4` in each component: the four slopes of
/// the Runge-Kutta rule with their weights.
pub open spec fn weighted(model: Model, k1: State, k2: State, k3: State, k4: State) -> State {
    State {
        voltage: sum(
            model,
            sum(
                model,
                sum(model, k1.voltage, product(model, k2.voltage, TWO)),
                product(model, k3.voltage, TWO),
            ),
            k4.voltage,
        ),
        current: sum(
            model,
            sum(
                model,
                sum(model, k1.current, product(model, k2.current, TWO)),
                product(model, k3.current, TWO),
            ),
            k4.current,
        ),
    }
}

/// `s + ((k1 + k2) * h) / 2` in each component: the state moved along the
/// mean of two slopes.
pub open spec fn averaged(model: Model, s: State, k1: State, k2: State, h: u64) -> State {
    State {
        voltage: sum(
            model,
            s.voltage,
            quotient(model, product(model, sum(model, k1.voltage, k2.voltage), h), TWO),
        ),
        current: sum(
            model,
            s.current,
            quotient(model, product(model, sum(model, k1.current, k2.current), h), TWO),
        ),
    }
}

/// Euler's rule: the state moved along its own slope for one time step.
pub open spec fn euler_rule(model: Model, p: CircuitParameters, s: State) -> State {
    advanced(model, s, derivative(model, p, s), p.dt)
}

/// The classic Runge-Kutta rule: slopes at the start, twice at the middle
/// and at the end of the step, weighted 1, 2, 2, 1 and applied for a
/// sixth of the step each.
pub open spec fn runge_kutta4_rule(model: Model, p: CircuitParameters, s: State) -> State {
    let half = quotient(model, p.dt, TWO);
    let k1 = derivative(model, p, s);
    let k2 = derivative(model, p, advanced(model, s, k1, half));
    let k3 = derivative(model, p, advanced(model, s, k2, half));
    let k4 = derivative(model, p, advanced(model, s, k3, p.dt));
    advanced(model, s, weighted(model, k1, k2, k3, k4), quotient(model, p.dt, SIX))
}

/// The predictor-corrector rule: the slope at the start, the slope at the
/// state that Euler's rule predicts, and a step along their mean.
pub open spec fn trapezoidal_rule(model: Model, p: CircuitParameters, s: State) -> State {
    let k1 = derivative(model, p, s);
    let k2 = derivative(model, p, advanced(model, s, k1, p.dt));
    averaged(model, s, k1, k2, p.dt)
}

/// The rule that the parameters select.
pub open spec fn step_rule(model: Model, p: CircuitParameters, s: State) -> State {
    match p.method {
        IntegrationMethod::Euler => euler_rule(model, p, s),
        IntegrationMethod::RungeKutta4 => runge_kutta4_rule(model, p, s),
        IntegrationMethod::TrapezoidalDamping => trapezoidal_rule(model, p, s),
    }
}

/// The state after `k` steps from rest.
pub open spec fn state_after(model: Model, p: CircuitParameters, k: nat) -> State
    decreases k,
{
    if k == 0 {
        State { voltage: ZERO, current: ZERO }
    } else {
        step_rule(model, p, state_after(model, p, (k - 1) as nat))
    }
}

/// The instant of sample `k`: zero for the first, and `k * dt` after it,
/// computed by one multiplication so that no error adds up.
pub open spec fn time_at(model: Model, p: CircuitParameters, k: nat) -> u64 {
    if k == 0 {
        ZERO
    } else {
        product(model, from_integer(model, k as u64), p.dt)
    }
}

/// The number of samples of a full run: the integer part of
/// `t_max / dt`, at most `usize::MAX`, and at least the one sample that
/// holds the initial state.
pub open spec fn sample_count(model: Model, p: CircuitParameters) -> nat {
    let whole = to_integer(model, quotient(model, p.t_max, p.dt));
    if whole == 0 {
        1
    } else if whole > usize::MAX {
        usize::MAX as nat
    } else {
        whole as nat
    }
}

/// The first `len` samples of the run.
pub open spec fn trace(model: Model, p: CircuitParameters, len: nat) -> Trace {
    Trace {
        time: Seq::new(len, |k: int| time_at(model, p, k as nat)),
        voltage: Seq::new(len, |k: int| state_after(model, p, k as nat).voltage),
        current: Seq::new(len, |k: int| state_after(model, p, k as nat).current),
    }
}

/// The three series of a run are aligned: they have one length, the
/// number of samples asked for. A full run has `sample_count` of them, which is the integer part
/// of `t_max / dt` wherever that is at least one and fits in `usize`.
pub proof fn lemma_series_lengths(model: Model, p: CircuitParameters, len: nat)
    ensures
        trace(model, p, len).aligned(),
        trace(model, p, len).time.len() == len,
        trace(model, p, len).voltage.len() == len,
        trace(model, p, len).current.len() == len,
        sample_count(model, p) >= 1,
        1 <= to_integer(model, quotient(model, p.t_max, p.dt)) <= usize::MAX ==> sample_count(
            model,
            p,
        ) == to_integer(model, quotient(model, p.t_max, p.dt)),
{
}

/// A run starts at rest at time zero, whatever the rule.
pub proof fn lemma_run_starts_at_rest(model: Model, p: CircuitParameters, len: nat)
    requires
        len >= 1,
    ensures
        trace(model, p, len).time[0] == ZERO,
        trace(model, p, len).voltage[0] == ZERO,
        trace(model, p, len).current[0] == ZERO,
{
}

/// The instant of sample `i` is the product of `i` and the time step: it
/// is not the sum of `i` steps. The first instant is zero as it stands,
/// so it is of this form wherever zero times the step is zero.
pub proof fn lemma_time_is_index_times_step(model: Model, p: CircuitParameters, len: nat, i: nat)
    requires
        i < len,
        i <= u64::MAX,
        i >= 1 || product(model, from_integer(model, 0), p.dt) == ZERO,
    ensures
        trace(model, p, len).time[i as int] == product(model, from_integer(model, i as u64), p.dt),
{
}

/// Each sample after the first is one step of the selected rule away
/// from the sample before it.
pub proof fn lemma_sample_follows_from_previous(
    model: Model,
    p: CircuitParameters,
    len: nat,
    i: nat,
)
    requires
        1 <= i < len,
    ensures
        (State {
            voltage: trace(model, p, len).voltage[i as int],
            current: trace(model, p, len).current[i as int],
        }) == step_rule(
            model,
            p,
            State {
                voltage: trace(model, p, len).voltage[i - 1],
                current: trace(model, p, len).current[i - 1],
            },
        ),
{
    let before = state_after(model, p, (i - 1) as nat);
    assert(state_after(model, p, i) == step_rule(model, p, before));
    assert(before == State { voltage: before.voltage, current: before.current });
}

/// A run that was ended early holds, sample for sample, what a longer
/// run of the same circuit starts with.
pub proof fn lemma_shorter_run_is_prefix(
    model: Model,
    p: CircuitParameters,
    kept: nat,
    full: nat,
)
    requires
        kept <= full,
    ensures
        trace(model, p, kept).time == trace(model, p, full).time.take(kept as int),
        trace(model, p, kept).voltage == trace(model, p, full).voltage.take(kept as int),
        trace(model, p, kept).current == trace(model, p, full).current.take(kept as int),
        forall|i: int|
            0 <= i < kept ==> {
                &&& trace(model, p, kept).time[i] == trace(model, p, full).time[i]
                &&& trace(model, p, kept).voltage[i] == trace(model, p, full).voltage[i]
                &&& trace(model, p, kept).current[i] == trace(model, p, full).current[i]
            },
{
    assert(trace(model, p, kept).time =~= trace(model, p, full).time.take(kept as int));
    assert(trace(model, p, kept).voltage =~= trace(model, p, full).voltage.take(kept as int));
    assert(trace(model, p, kept).current =~= trace(model, p, full).current.take(kept as int));
}

/// Evaluates the circuit equations at one state.
pub fn derivative_at<A: Fn(Operation, u64, u64) -> u64>(
    arith: &A,
    p: &CircuitParameters,
    s: State,
) -> (d: State)
    requires
        total(*arith),
    ensures
        forall|model: Model| #[trigger] follows(*arith, model) ==> d == derivative(model, *p, s),
{
    let dv = evaluate(arith, Operation::Divide, s.current, p.capacitance);
    let across = evaluate(arith, Operation::Subtract, p.voltage, s.voltage);
    let drop = evaluate(arith, Operation::Multiply, p.resistance, s.current);
    let driving = evaluate(arith, Operation::Subtract, across, drop);
    let di = evaluate(arith, Operation::Divide, driving, p.inductance);
    State { voltage: dv, current: di }
}

/// Moves a state along a slope for the time `h`.
pub fn advance<A: Fn(Operation, u64, u64) -> u64>(arith: &A, s: State, k: State, h: u64) -> (r:
    State)
    requires
        total(*arith),
    ensures
        forall|model: Model| #[trigger] follows(*arith, model) ==> r == advanced(model, s, k, h),
{
    let dv = evaluate(arith, Operation::Multiply, k.voltage, h);
    let di = evaluate(arith, Operation::Multiply, k.current, h);
    State {
        voltage: evaluate(arith, Operation::Add, s.voltage, dv),
        current: evaluate(arith, Operation::Add, s.current, di),
    }
}

/// One component of the weighted sum of four slopes.
fn weigh<A: Fn(Operation, u64, u64) -> u64>(arith: &A, k1: u64, k2: u64, k3: u64, k4: u64) -> (r:
    u64)
    requires
        total(*arith),
    ensures
        forall|model: Model| #[trigger]
            follows(*arith, model) ==> r == sum(
                model,
                sum(model, sum(model, k1, product(model, k2, TWO)), product(model, k3, TWO)),
                k4,
            ),
{
    let second = evaluate(arith, Operation::Multiply, k2, TWO);
    let third = evaluate(arith, Operation::Multiply, k3, TWO);
    let upto2 = evaluate(arith, Operation::Add, k1, second);
    let upto3 = evaluate(arith, Operation::Add, upto2, third);
    evaluate(arith, Operation::Add, upto3, k4)
}

/// One component of a step along the mean of two slopes.
fn average<A: Fn(Operation, u64, u64) -> u64>(arith: &A, s: u64, k1: u64, k2: u64, h: u64) -> (r:
    u64)
    requires
        total(*arith),
    ensures
        forall|model: Model| #[trigger]
            follows(*arith, model) ==> r == sum(
                model,
                s,
                quotient(model, product(model, sum(model, k1, k2), h), TWO),
            ),
{
    let both = evaluate(arith, Operation::Add, k1, k2);
    let moved = evaluate(arith, Operation::Multiply, both, h);
    let halved = evaluate(arith, Operation::Divide, moved, TWO);
    evaluate(arith, Operation::Add, s, halved)
}

/// One step by Euler's rule.
pub fn euler_step<A: Fn(Operation, u64, u64) -> u64>(
    arith: &A,
    p: &CircuitParameters,
    s: State,
) -> (r: State)
    requires
        total(*arith),
    ensures
        forall|model: Model| #[trigger] follows(*arith, model) ==> r == euler_rule(model, *p, s),
{
    let k1 = derivative_at(arith, p, s);
    advance(arith, s, k1, p.dt)
}

/// One step by the classic Runge-Kutta rule.
pub fn runge_kutta4_step<A: Fn(Operation, u64, u64) -> u64>(
    arith: &A,
    p: &CircuitParameters,
    s: State,
) -> (r: State)
    requires
        total(*arith),
    ensures
        forall|model: Model| #[trigger]
            follows(*arith, model) ==> r == runge_kutta4_rule(model, *p, s),
{
    let half = evaluate(arith, Operation::Divide, p.dt, TWO);
    let k1 = derivative_at(arith, p, s);
    let k2 = derivative_at(arith, p, advance(arith, s, k1, half));
    let k3 = derivative_at(arith, p, advance(arith, s, k2, half));
    let k4 = derivative_at(arith, p, advance(arith, s, k3, p.dt));
    let slope = State {
        voltage: weigh(arith, k1.voltage, k2.voltage, k3.voltage, k4.voltage),
        current: weigh(arith, k1.current, k2.current, k3.current, k4.current),
    };
    let sixth = evaluate(arith, Operation::Divide, p.dt, SIX);
    advance(arith, s, slope, sixth)
}

/// One step by the predictor-corrector rule.
pub fn trapezoidal_step<A: Fn(Operation, u64, u64) -> u64>(
    arith: &A,
    p: &CircuitParameters,
    s: State,
) -> (r: State)
    requires
        total(*arith),
    ensures
        forall|model: Model| #[trigger]
            follows(*arith, model) ==> r == trapezoidal_rule(model, *p, s),
{
    let k1 = derivative_at(arith, p, s);
    let k2 = derivative_at(arith, p, advance(arith, s, k1, p.dt));
    State {
        voltage: average(arith, s.voltage, k1.voltage, k2.voltage, p.dt),
        current: average(arith, s.current, k1.current, k2.current, p.dt),
    }
}

/// One step by the rule that the parameters select.
pub fn step<A: Fn(Operation, u64, u64) -> u64>(arith: &A, p: &CircuitParameters, s: State) -> (r:
    State)
    requires
        total(*arith),
    ensures
        forall|model: Model| #[trigger] follows(*arith, model) ==> r == step_rule(model, *p, s),
{
    match p.method {
        IntegrationMethod::Euler => euler_step(arith, p, s),
        IntegrationMethod::RungeKutta4 => runge_kutta4_step(arith, p, s),
        IntegrationMethod::TrapezoidalDamping => trapezoidal_step(arith, p, s),
    }
}

/// The number of samples of a full run.
pub fn count_samples<A: Fn(Operation, u64, u64) -> u64>(arith: &A, p: &CircuitParameters) -> (n:
    usize)
    requires
        total(*arith),
    ensures
        n >= 1,
        forall|model: Model| #[trigger] follows(*arith, model) ==> n == sample_count(model, *p),
{
    let ratio = evaluate(arith, Operation::Divide, p.t_max, p.dt);
    let whole = evaluate(arith, Operation::ToInteger, ratio, 0);
    if whole == 0 {
        1
    } else if whole > usize::MAX as u64 {
        usize::MAX
    } else {
        whole as usize
    }
}

/// A circuit that is ready to be simulated.
pub struct Circuit {
    params: CircuitParameters,
}

impl Circuit {
    /// The parameters that the circuit was made with.
    pub closed spec fn parameters(&self) -> CircuitParameters {
        self.params
    }

    /// Takes the parameters as they are; `simulate` checks them.
    pub fn new(params: CircuitParameters) -> (c: Self)
        ensures
            c.parameters() == params,
    {
        Circuit { params }
    }

    /// The parameters that the circuit was made with.
    pub fn params(&self) -> (p: CircuitParameters)
        ensures
            p == self.parameters(),
    {
        self.params
    }

    /// Runs the simulation from rest to the end of the time grid.
    ///
    /// Invalid parameters are reported before any step is taken. Valid
    /// ones always give a result: the samples of the full run, the first
    /// of them the initial state at time zero.
    pub fn simulate<A: Fn(Operation, u64, u64) -> u64>(&self, arith: &A) -> (res: Result<
        SimulationResults,
        SimulationError,
    >)
        requires
            total(*arith),
        ensures
            res is Ok <==> self.parameters().valid(),
            res matches Err(e) ==> self.parameters().first_violation() == Some(e),
            res matches Ok(r) ==> {
                &&& r@.aligned()
                &&& r@.time.len() >= 1
                &&& r@.time[0] == ZERO
                &&& r@.voltage[0] == ZERO
                &&& r@.current[0] == ZERO
                &&& forall|model: Model| #[trigger]
                    follows(*arith, model) ==> r@ == trace(
                        model,
                        self.parameters(),
                        sample_count(model, self.parameters()),
                    )
            },
    {
        let never = |k: usize| -> (stop: bool)
            ensures
                !stop,
            { false };
        self.simulate_until(arith, &never)
    }

    /// Runs the simulation, asking `stop` once before each step whether
    /// to end the run there.
    ///
    /// `stop` is handed the index of the sample that the step would
    /// produce. The first time it answers `true` the run ends without an
    /// error and returns the samples made so far, the initial one
    /// included. These are the samples that the full run starts with.
    pub fn simulate_until<A: Fn(Operation, u64, u64) -> u64, S: Fn(usize) -> bool>(
        &self,
        arith: &A,
        stop: &S,
    ) -> (res: Result<SimulationResults, SimulationError>)
        requires
            total(*arith),
            forall|k: usize| #[trigger] call_requires(*stop, (k,)),
        ensures
            res is Ok <==> self.parameters().valid(),
            res matches Err(e) ==> self.parameters().first_violation() == Some(e),
            res matches Ok(r) ==> {
                &&& r@.aligned()
                &&& r@.time.len() >= 1
                &&& r@.time[0] == ZERO
                &&& r@.voltage[0] == ZERO
                &&& r@.current[0] == ZERO
                &&& forall|k: usize|
                    1 <= k < r@.time.len() ==> #[trigger] call_ensures(*stop, (k,), false)
                &&& forall|model: Model| #[trigger]
                    follows(*arith, model) ==> {
                        &&& r@.time.len() <= sample_count(model, self.parameters())
                        &&& r@ == trace(model, self.parameters(), r@.time.len())
                        &&& r@.time.len() < sample_count(model, self.parameters()) ==> call_ensures(
                            *stop,
                            (r@.time.len() as usize,),
                            true,
                        )
                    }
            },
    {
        let p = self.params;
        match p.validate() {
            Err(e) => {
                return Err(e);
            },
            Ok(()) => {},
        }
        let n = count_samples(arith, &p);
        let mut time_series: Vec<u64> = Vec::new();
        let mut voltage_series: Vec<u64> = Vec::new();
        let mut current_series: Vec<u64> = Vec::new();
        let mut state = State { voltage: ZERO, current: ZERO };
        time_series.push(ZERO);
        voltage_series.push(state.voltage);
        current_series.push(state.current);
        let mut k: usize = 1;
        let mut stopped = false;
        while k < n && !stopped
            invariant
                total(*arith),
                forall|j: usize| #[trigger] call_requires(*stop, (j,)),
                1 <= k <= n,
                time_series.len() == k,
                voltage_series.len() == k,
                current_series.len() == k,
                time_series[0] == ZERO,
                voltage_series[0] == ZERO,
                current_series[0] == ZERO,
                stopped ==> k < n && call_ensures(*stop, (k,), true),
                forall|j: usize| 1 <= j < k ==> #[trigger] call_ensures(*stop, (j,), false),
                forall|model: Model| #[trigger]
                    follows(*arith, model) ==> {
                        &&& n == sample_count(model, p)
                        &&& state == state_after(model, p, (k - 1) as nat)
                        &&& time_series@ =~= trace(model, p, k as nat).time
                        &&& voltage_series@ =~= trace(model, p, k as nat).voltage
                        &&& current_series@ =~= trace(model, p, k as nat).current
                    },
            decreases n - k + (if stopped { 0int } else { 1int }),
        {
            if stop(k) {
                stopped = true;
            } else {
                state = step(arith, &p, state);
                let index = evaluate(arith, Operation::FromInteger, k as u64, 0);
                let instant = evaluate(arith, Operation::Multiply, index, p.dt);
                time_series.push(instant);
                voltage_series.push(state.voltage);
                current_series.push(state.current);
                k += 1;
            }
        }
        Ok(SimulationResults { time_series, voltage_series, current_series })
    }
}

} // verus!
