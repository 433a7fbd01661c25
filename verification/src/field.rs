//! The vector field of the Lorenz system: the right-hand side of the
//! ordinary differential equations.

use vstd::prelude::*;
use crate::fixed::{fx_mul, fx_sub, spec_mul, spec_sub};
use crate::state::{Params, ParamsModel, State, StateModel};

verus! {

/// The Lorenz derivative in the fixed-point model:
/// ```text
/// dx/dt = sigma * (y - x)
/// dy/dt = r*x - y - x*z
/// dz/dt = x*y - b*z
/// ```
pub open spec fn spec_derivative(s: StateModel, p: ParamsModel) -> StateModel {
    StateModel {
        x: spec_mul(p.sigma, spec_sub(s.y, s.x)),
        y: spec_sub(spec_sub(spec_mul(p.r, s.x), s.y), spec_mul(s.x, s.z)),
        z: spec_sub(spec_mul(s.x, s.y), spec_mul(p.b, s.z)),
    }
}

/// Instantaneous derivative of the Lorenz system at `s` for the parameter
/// set `p`. Pure: no state, no side effects, total over all inputs.
pub fn derivative(s: &State, p: &Params) -> (d: State)
    ensures
        d@ == spec_derivative(s@, p@),
{
    State {
        x: fx_mul(p.sigma, fx_sub(s.y, s.x)),
        y: fx_sub(fx_sub(fx_mul(p.r, s.x), s.y), fx_mul(s.x, s.z)),
        z: fx_sub(fx_mul(s.x, s.y), fx_mul(p.b, s.z)),
    }
}

} // verus!
