//! The trajectory driver: iterates the integrator for a fixed number of
//! steps and produces the emitted sequence of phase-space points.

use vstd::prelude::*;
use vstd::assert_seqs_equal;
use crate::integrator::{runge_kutta, spec_rk4_step};
use crate::state::{Params, ParamsModel, State, StateModel};

verus! {

/// Step-size and iteration-count configuration of one run. `delta_t` is a
/// Q32.32 fixed-point scalar; zero degenerates to a stationary trajectory
/// and a negative value integrates backward in time — neither is an error.
#[derive(Clone, Copy, PartialEq, Eq, Structural, Debug)]
pub struct StepConfig {
    pub delta_t: i64,
    pub step_count: usize,
}

/// The state reached after exactly `n` RK4 steps of size `dt` from `init`.
pub open spec fn spec_state_at(n: nat, init: StateModel, p: ParamsModel, dt: int) -> StateModel
    decreases n,
{
    if n == 0 {
        init
    } else {
        spec_rk4_step(spec_state_at((n - 1) as nat, init, p, dt), p, dt)
    }
}

/// The emitted trajectory: `n` points, the `i`-th being the state after
/// exactly `i` steps (so the first point is the initial condition).
pub open spec fn spec_trajectory(n: nat, init: StateModel, p: ParamsModel, dt: int)
    -> Seq<StateModel> {
    Seq::new(n, |i: int| spec_state_at(i as nat, init, p, dt))
}

/// Holds the current state of one trajectory and advances it step by
/// step, so that the points can be emitted one at a time and never have
/// to be materialized as a whole. The parameter set and the step size are
/// fixed for the driver's lifetime.
pub struct TrajectoryDriver {
    pub params: Params,
    pub delta_t: i64,
    pub state: State,
}

impl TrajectoryDriver {
    /// Start a trajectory at `initial`.
    pub fn new(initial: State, params: Params, delta_t: i64) -> (d: TrajectoryDriver)
        ensures
            d.state == initial,
            d.params == params,
            d.delta_t == delta_t,
    {
        TrajectoryDriver { params, delta_t, state: initial }
    }

    /// The point to emit next: the current state of the trajectory.
    pub fn current(&self) -> (s: State)
        ensures
            s == self.state,
    {
        self.state
    }

    /// Advance the trajectory by exactly one RK4 step; the parameter set
    /// and the step size never change.
    pub fn advance(&mut self)
        ensures
            final(self).state@
                == spec_rk4_step(old(self).state@, old(self).params@, old(self).delta_t as int),
            final(self).params == old(self).params,
            final(self).delta_t == old(self).delta_t,
    {
        self.state = runge_kutta(&self.params, self.delta_t, &self.state);
    }
}

/// Integrate the Lorenz system for `cfg.step_count` RK4 steps of size
/// `cfg.delta_t`, starting from `initial`, and return the emitted points
/// in trajectory order: point `i` is the state after exactly `i` steps,
/// point 0 the initial condition unmodified. The state advanced past the
/// final emitted point is computed and discarded, so the result holds
/// exactly `cfg.step_count` points.
pub fn run(initial: &State, p: &Params, cfg: &StepConfig) -> (out: Vec<State>)
    ensures
        out@.len() == cfg.step_count,
        forall|i: int| 0 <= i < out@.len() ==>
            (#[trigger] out@[i])@ == spec_state_at(i as nat, initial@, p@, cfg.delta_t as int),
        out@.map_values(|s: State| s@)
            == spec_trajectory(cfg.step_count as nat, initial@, p@, cfg.delta_t as int),
{
    let mut out: Vec<State> = Vec::new();
    let mut d = TrajectoryDriver::new(*initial, *p, cfg.delta_t);
    let mut i: usize = 0;
    while i < cfg.step_count
        invariant
            i <= cfg.step_count,
            out@.len() == i,
            d.params == *p,
            d.delta_t == cfg.delta_t,
            d.state@ == spec_state_at(i as nat, initial@, p@, cfg.delta_t as int),
            forall|j: int| 0 <= j < i ==>
                (#[trigger] out@[j])@ == spec_state_at(j as nat, initial@, p@, cfg.delta_t as int),
        decreases cfg.step_count - i,
    {
        out.push(d.current());
        d.advance();
        i = i + 1;
    }
    proof {
        assert_seqs_equal!(
            out@.map_values(|s: State| s@),
            spec_trajectory(cfg.step_count as nat, initial@, p@, cfg.delta_t as int)
        );
    }
    out
}

} // verus!
