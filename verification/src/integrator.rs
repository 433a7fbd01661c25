//! One step of the classical fourth-order Runge-Kutta method, applied to
//! the Lorenz vector field.

use vstd::prelude::*;
use crate::field::{derivative, spec_derivative};
use crate::state::{Params, ParamsModel, State, StateModel, spec_state_add, spec_state_div,
    spec_state_scale};

verus! {

/// One classical RK4 step of size `delta_t` from `s`:
/// ```text
/// k1 = delta_t * f(s)
/// k2 = delta_t * f(s + k1/2)
/// k3 = delta_t * f(s + k2/2)
/// k4 = delta_t * f(s + k3)
/// next = s + (k1 + 2*k2 + 2*k3 + k4) / 6
/// ```
/// Halving a stage and dividing the weighted sum by six are exact
/// truncating divisions; doubling is saturating addition.
pub open spec fn spec_rk4_step(s: StateModel, p: ParamsModel, dt: int) -> StateModel {
    let k1 = spec_state_scale(spec_derivative(s, p), dt);
    let k2 = spec_state_scale(spec_derivative(spec_state_add(s, spec_state_div(k1, 2)), p), dt);
    let k3 = spec_state_scale(spec_derivative(spec_state_add(s, spec_state_div(k2, 2)), p), dt);
    let k4 = spec_state_scale(spec_derivative(spec_state_add(s, k3), p), dt);
    let sum = spec_state_add(
        spec_state_add(spec_state_add(k1, spec_state_add(k2, k2)), spec_state_add(k3, k3)),
        k4,
    );
    spec_state_add(s, spec_state_div(sum, 6))
}

/// Advance the state by exactly one fixed time increment `delta_t` using
/// classical fourth-order Runge-Kutta. The vector field is evaluated
/// exactly four times, each stage depending on the previous one. Pure
/// function of its inputs: identical inputs yield identical output.
pub fn runge_kutta(p: &Params, delta_t: i64, s: &State) -> (next: State)
    ensures
        next@ == spec_rk4_step(s@, p@, delta_t as int),
{
    let k1 = derivative(s, p).scale(delta_t);
    let k2 = derivative(&s.add(&k1.div(2)), p).scale(delta_t);
    let k3 = derivative(&s.add(&k2.div(2)), p).scale(delta_t);
    let k4 = derivative(&s.add(&k3), p).scale(delta_t);
    let sum = k1.add(&k2.add(&k2)).add(&k3.add(&k3)).add(&k4);
    s.add(&sum.div(6))
}

} // verus!
