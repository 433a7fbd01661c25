//! Phase-space points, derivative vectors, and the Lorenz parameter set.

use vstd::prelude::*;
use crate::fixed::{fx_add, fx_div, fx_mul, spec_add, spec_div, spec_mul};

verus! {

/// Mathematical model of a 3-D vector: each component is the integer
/// reading of a Q32.32 fixed-point scalar.
pub ghost struct StateModel {
    pub x: int,
    pub y: int,
    pub z: int,
}

/// A point of phase space (or a derivative vector): an ordered triple of
/// Q32.32 fixed-point scalars. A value, never mutated in place; every
/// integration step produces a fresh `State`.
#[derive(Clone, Copy, PartialEq, Eq, Structural, Debug)]
pub struct State {
    pub x: i64,
    pub y: i64,
    pub z: i64,
}

impl View for State {
    type V = StateModel;

    open spec fn view(&self) -> StateModel {
        StateModel { x: self.x as int, y: self.y as int, z: self.z as int }
    }
}

/// Mathematical model of the Lorenz parameter set.
pub ghost struct ParamsModel {
    pub sigma: int,
    pub r: int,
    pub b: int,
}

/// The three Lorenz parameters, in Q32.32 fixed point: `sigma` (Prandtl
/// number), `r` (Rayleigh number) and `b` (geometric parameter). Fixed for
/// the duration of one run.
#[derive(Clone, Copy, PartialEq, Eq, Structural, Debug)]
pub struct Params {
    pub sigma: i64,
    pub r: i64,
    pub b: i64,
}

impl View for Params {
    type V = ParamsModel;

    open spec fn view(&self) -> ParamsModel {
        ParamsModel { sigma: self.sigma as int, r: self.r as int, b: self.b as int }
    }
}

/// A model is valid when each component is the reading of some `i64`;
/// every view of a `State` is valid.
pub open spec fn spec_state_valid(s: StateModel) -> bool {
    &&& i64::MIN <= s.x <= i64::MAX
    &&& i64::MIN <= s.y <= i64::MAX
    &&& i64::MIN <= s.z <= i64::MAX
}

/// Component-wise vector addition.
pub open spec fn spec_state_add(a: StateModel, b: StateModel) -> StateModel {
    StateModel {
        x: spec_add(a.x, b.x),
        y: spec_add(a.y, b.y),
        z: spec_add(a.z, b.z),
    }
}

/// Component-wise scaling of a vector by a scalar.
pub open spec fn spec_state_scale(a: StateModel, c: int) -> StateModel {
    StateModel {
        x: spec_mul(a.x, c),
        y: spec_mul(a.y, c),
        z: spec_mul(a.z, c),
    }
}

/// Component-wise truncating division of a vector by a positive integer.
pub open spec fn spec_state_div(a: StateModel, d: int) -> StateModel
    recommends
        d > 0,
{
    StateModel {
        x: spec_div(a.x, d),
        y: spec_div(a.y, d),
        z: spec_div(a.z, d),
    }
}

impl State {
    /// Component-wise vector addition.
    pub fn add(&self, other: &State) -> (r: State)
        ensures
            r@ == spec_state_add(self@, other@),
    {
        State {
            x: fx_add(self.x, other.x),
            y: fx_add(self.y, other.y),
            z: fx_add(self.z, other.z),
        }
    }

    /// Component-wise scaling by a fixed-point scalar.
    pub fn scale(&self, c: i64) -> (r: State)
        ensures
            r@ == spec_state_scale(self@, c as int),
    {
        State {
            x: fx_mul(self.x, c),
            y: fx_mul(self.y, c),
            z: fx_mul(self.z, c),
        }
    }

    /// Component-wise truncating division by a small positive integer.
    pub fn div(&self, d: i64) -> (r: State)
        requires
            d > 0,
        ensures
            r@ == spec_state_div(self@, d as int),
    {
        State {
            x: fx_div(self.x, d),
            y: fx_div(self.y, d),
            z: fx_div(self.z, d),
        }
    }
}

} // verus!
