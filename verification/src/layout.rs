//! Pane-grid layout planning.
//!
//! The planner turns a host count into the number of additional splits the
//! driver must perform along each axis. The design targets a two-row grid:
//! vertical splits add rows, horizontal splits add columns within a row,
//! together yielding enough panes to hold all hosts two per column.

use vstd::prelude::*;

verus! {

/// The number of required splits for the horizontal and vertical direction.
#[derive(Debug)]
pub struct Splits {
    pub horizontal_split_count: u8,
    pub vertical_split_count: u8,
}

/// The possible errors which can happen while planning a session.
#[derive(Eq, PartialEq, Structural, Debug)]
pub enum ScitsifreineErrors {
    /// There were no hosts supplied, so no layout exists.
    NoHosts,
}

impl Splits {
    pub fn new(horizontal_split_count: u8, vertical_split_count: u8) -> (r: Splits)
        ensures
            r.horizontal_split_count == horizontal_split_count,
            r.vertical_split_count == vertical_split_count,
    {
        Splits { horizontal_split_count, vertical_split_count }
    }
}

/// The number of horizontal splits planned for `n` hosts: `ceil(n / 2) - 1`,
/// clamped to the range of the split counter.
pub open spec fn plan_horizontal(n: nat) -> nat {
    if n == 0 {
        0
    } else {
        let h = (n + 1) / 2 - 1;
        if h > 255 {
            255 as nat
        } else {
            h as nat
        }
    }
}

/// The number of vertical splits planned for `n` hosts: `floor(n / 2)`,
/// clamped to the range of the split counter.
pub open spec fn plan_vertical(n: nat) -> nat {
    if n / 2 > 255 {
        255 as nat
    } else {
        (n / 2) as nat
    }
}

/// For every host count that the split counters can represent, the planned
/// split counts follow the two-row grid formula exactly:
/// `horizontal = ceil(n / 2) - 1` and `vertical = floor(n / 2)`.
/// Beyond that range both counts saturate at the counter's maximum.
pub proof fn lemma_split_plan_formula(n: nat)
    requires
        1 <= n <= 511,
    ensures
        plan_horizontal(n) == (n + 1) / 2 - 1,
        plan_vertical(n) == n / 2,
{
}

/// The split plan is a pure function of the host count: any two plans for
/// the same count agree.
pub proof fn lemma_split_plan_deterministic(n: nat, a: Splits, b: Splits)
    requires
        a.horizontal_split_count == plan_horizontal(n),
        a.vertical_split_count == plan_vertical(n),
        b.horizontal_split_count == plan_horizontal(n),
        b.vertical_split_count == plan_vertical(n),
    ensures
        a == b,
{
}

} // verus!
