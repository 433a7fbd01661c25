//! Laws of the integrator and driver, stated and proved once and for all
//! inputs.

use vstd::prelude::*;
use crate::driver::{spec_state_at, spec_trajectory};
use crate::field::spec_derivative;
use crate::integrator::spec_rk4_step;
use crate::state::{ParamsModel, StateModel, spec_state_valid};

verus! {

/// The origin of phase space.
pub open spec fn origin() -> StateModel {
    StateModel { x: 0, y: 0, z: 0 }
}

/// The Lorenz derivative vanishes at the origin, for every parameter set.
pub proof fn lemma_derivative_vanishes_at_origin(p: ParamsModel)
    ensures
        spec_derivative(origin(), p) == origin(),
{
    crate::fixed::lemma_mul_zero(p.sigma);
    crate::fixed::lemma_mul_zero(p.r);
    crate::fixed::lemma_mul_zero(p.b);
    crate::fixed::lemma_mul_zero(0);
}

/// The origin is a fixed point of one RK4 step, for every parameter set
/// and every step size: all four stages are the zero vector, and adding
/// their weighted sum to the origin leaves it unchanged.
pub proof fn lemma_rk4_fixes_origin(p: ParamsModel, dt: int)
    ensures
        spec_rk4_step(origin(), p, dt) == origin(),
{
    lemma_derivative_vanishes_at_origin(p);
    crate::fixed::lemma_mul_zero(dt);
}

/// Starting exactly at the origin, every point of the trajectory is the
/// origin, regardless of the parameter set, the step size and the number
/// of steps taken.
pub proof fn lemma_origin_is_stationary(n: nat, p: ParamsModel, dt: int)
    ensures
        spec_state_at(n, origin(), p, dt) == origin(),
    decreases n,
{
    if n > 0 {
        lemma_origin_is_stationary((n - 1) as nat, p, dt);
        lemma_rk4_fixes_origin(p, dt);
    }
}

/// A step of size zero leaves every valid state unchanged: all four
/// stages vanish.
pub proof fn lemma_zero_step_size_fixes_state(s: StateModel, p: ParamsModel)
    requires
        spec_state_valid(s),
    ensures
        spec_rk4_step(s, p, 0) == s,
{
    let d = spec_derivative(s, p);
    crate::fixed::lemma_mul_zero(d.x);
    crate::fixed::lemma_mul_zero(d.y);
    crate::fixed::lemma_mul_zero(d.z);
}

/// With a step size of zero the whole trajectory is stationary: every
/// point equals the initial condition.
pub proof fn lemma_zero_step_size_is_stationary(n: nat, init: StateModel, p: ParamsModel)
    requires
        spec_state_valid(init),
    ensures
        spec_state_at(n, init, p, 0) == init,
    decreases n,
{
    if n > 0 {
        lemma_zero_step_size_is_stationary((n - 1) as nat, init, p);
        lemma_zero_step_size_fixes_state(init, p);
    }
}

/// A run of zero steps emits nothing.
pub proof fn lemma_zero_steps(init: StateModel, p: ParamsModel, dt: int)
    ensures
        spec_trajectory(0, init, p, dt) == Seq::<StateModel>::empty(),
{
    assert(spec_trajectory(0, init, p, dt) =~= Seq::<StateModel>::empty());
}

/// A run of at least one step emits the initial condition first,
/// unmodified.
pub proof fn lemma_first_point_is_initial(n: nat, init: StateModel, p: ParamsModel, dt: int)
    requires
        n >= 1,
    ensures
        spec_trajectory(n, init, p, dt)[0] == init,
{
}

/// Determinism: two runs with identical configuration emit identical
/// sequences.
pub proof fn lemma_runs_are_deterministic(
    a: Seq<StateModel>,
    b: Seq<StateModel>,
    n: nat,
    init: StateModel,
    p: ParamsModel,
    dt: int,
)
    requires
        a == spec_trajectory(n, init, p, dt),
        b == spec_trajectory(n, init, p, dt),
    ensures
        a == b,
{
}

} // verus!
