//! The two ways a tool combines with the density field.

use vstd::prelude::*;
use crate::fixed::in_unit_range;

verus! {

/// Action represents operations to perform on a Terrain with a given
/// Tool.
#[derive(Clone, Copy, Debug, PartialEq, Eq, Structural)]
pub enum Action {
    /// Subtract material from the Terrain.
    Remove,
    /// Add material to the Terrain.
    Place,
}

/// `Place` keeps the larger density; `Remove` keeps the smaller of the
/// old density and the negated tool value.
pub open spec fn apply_value_spec(action: Action, point: int, val: int) -> int {
    match action {
        Action::Place => vstd::math::max(point, val),
        Action::Remove => vstd::math::min(point, -val),
    }
}

impl Action {
    pub fn apply_value(&self, point: &mut i64, val: i64)
        requires
            in_unit_range(*old(point) as int),
            in_unit_range(val as int),
        ensures
            *final(point) == apply_value_spec(*self, *old(point) as int, val as int),
            in_unit_range(*final(point) as int),
    {
        match self {
            Action::Place => {
                if val > *point {
                    *point = val;
                }
            },
            Action::Remove => {
                if -val < *point {
                    *point = -val;
                }
            },
        }
    }
}

/// Applying the same action with the same tool value twice gives the
/// same density as applying it once.
///
/// Law: `apply_value` is idempotent for a fixed action and tool value.
pub proof fn lemma_apply_value_idempotent(action: Action, point: int, val: int)
    ensures
        apply_value_spec(action, apply_value_spec(action, point, val), val)
            == apply_value_spec(action, point, val),
{
}

/// A `Remove` whose tool value is zero clamps the density to at most
/// zero, so it leaves every density that is not positive unchanged.
///
/// Law: removing nothing is a no-op on empty space. (A positive density
/// is still truncated to zero, since `Remove` keeps `min(point, -0)`.)
pub proof fn lemma_remove_zero(point: int)
    ensures
        apply_value_spec(Action::Remove, point, 0) == vstd::math::min(point, 0),
        point <= 0 ==> apply_value_spec(Action::Remove, point, 0) == point,
{
}

} // verus!
