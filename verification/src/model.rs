//! The mathematical model of one simulation step.
//!
//! These specification functions say exactly what the two stages compute:
//! [`pair_dv_x`] / [`pair_dv_y`] give the velocity increment one attracting
//! entity contributes to another in one pass, [`vel_after`] folds those
//! increments over the attractors in creation order, and
//! [`stepped_velocities`] / [`stepped_positions`] give the whole state after
//! one step: a full velocity pass, then a position pass over the *updated*
//! velocities.
//!
//! Two semantic choices are deliberate and tested: the per-axis directional
//! weight is always signed toward the attracting entity (attraction pulls on
//! both axis directions, never an unsigned magnitude), and a coincident pair
//! (zero squared separation) contributes nothing instead of dividing by
//! zero. The long-range cutoff is a configuration toggle, absent when
//! [`crate::types::Params::cutoff`] is `None`.

use vstd::prelude::*;
use crate::fixed::{sat_to_i64, fmul, fdiv};
use crate::types::{Position, Velocity, Mass, Params};

verus! {

/// Saturated coordinate difference `x_j - x_i`.
pub open spec fn pair_dx(ps: Seq<Position>, i: int, j: int) -> i64 {
    sat_to_i64(ps[j].x - ps[i].x)
}

/// Saturated coordinate difference `y_j - y_i`.
pub open spec fn pair_dy(ps: Seq<Position>, i: int, j: int) -> i64 {
    sat_to_i64(ps[j].y - ps[i].y)
}

/// Squared separation of entities `i` and `j`:
/// `(x_j - x_i)^2 + (y_j - y_i)^2` in saturating fixed point.
pub open spec fn pair_r2(ps: Seq<Position>, i: int, j: int) -> i64 {
    sat_to_i64(
        fmul(pair_dx(ps, i, j) as int, pair_dx(ps, i, j) as int)
            + fmul(pair_dy(ps, i, j) as int, pair_dy(ps, i, j) as int),
    )
}

/// Whether the cutoff, if configured, suppresses a pair at squared
/// separation `r2`.
pub open spec fn excluded_by_cutoff(cutoff: Option<i64>, r2: i64) -> bool {
    match cutoff {
        Some(c) => r2 >= c,
        None => false,
    }
}

/// The `x` velocity increment entity `j` contributes to entity `i` in one
/// velocity pass: force magnitude `gravity * mass_j / r2`, weighted by the
/// directional share `dx^2 / r2`, signed toward `j`, integrated over
/// `delta`. Zero when the cutoff suppresses the pair and when the two
/// entities coincide (`r2 == 0`): this engine skips a coincident pair
/// rather than divide by zero.
pub open spec fn pair_dv_x(ps: Seq<Position>, ms: Seq<Mass>, p: Params, i: int, j: int) -> i64 {
    let dx = pair_dx(ps, i, j);
    let dx2 = fmul(dx as int, dx as int);
    let r2 = pair_r2(ps, i, j);
    if excluded_by_cutoff(p.cutoff, r2) || r2 == 0 {
        0
    } else {
        let force = fdiv(fmul(p.gravity as int, ms[j].value as int) as int, r2 as int);
        let ux = fdiv(dx2 as int, r2 as int);
        let sx: int = if ps[j].x > ps[i].x {
            ux as int
        } else {
            -(ux as int)
        };
        fmul(fmul(force as int, sx) as int, p.delta as int)
    }
}

/// The `y` velocity increment entity `j` contributes to entity `i`; the
/// mirror image of [`pair_dv_x`].
pub open spec fn pair_dv_y(ps: Seq<Position>, ms: Seq<Mass>, p: Params, i: int, j: int) -> i64 {
    let dy = pair_dy(ps, i, j);
    let dy2 = fmul(dy as int, dy as int);
    let r2 = pair_r2(ps, i, j);
    if excluded_by_cutoff(p.cutoff, r2) || r2 == 0 {
        0
    } else {
        let force = fdiv(fmul(p.gravity as int, ms[j].value as int) as int, r2 as int);
        let uy = fdiv(dy2 as int, r2 as int);
        let sy: int = if ps[j].y > ps[i].y {
            uy as int
        } else {
            -(uy as int)
        };
        fmul(fmul(force as int, sy) as int, p.delta as int)
    }
}

/// Velocity of entity `i` after the contributions of attractors
/// `0, 1, ..., k-1` (skipping `i` itself) have been folded, in order, onto
/// the starting velocity `v0`.
pub open spec fn vel_after(
    ps: Seq<Position>,
    ms: Seq<Mass>,
    p: Params,
    v0: Velocity,
    i: int,
    k: int,
) -> Velocity
    decreases k,
{
    if k <= 0 {
        v0
    } else {
        let v = vel_after(ps, ms, p, v0, i, k - 1);
        if k - 1 == i {
            v
        } else {
            Velocity {
                x: sat_to_i64(v.x + pair_dv_x(ps, ms, p, i, k - 1)),
                y: sat_to_i64(v.y + pair_dv_y(ps, ms, p, i, k - 1)),
            }
        }
    }
}

/// Velocity of entity `i` after one full velocity-update pass.
pub open spec fn upd_vel(
    ps: Seq<Position>,
    vs: Seq<Velocity>,
    ms: Seq<Mass>,
    p: Params,
    i: int,
) -> Velocity {
    vel_after(ps, ms, p, vs[i], i, ps.len() as int)
}

/// All velocities after one full velocity-update pass.
pub open spec fn stepped_velocities(
    ps: Seq<Position>,
    vs: Seq<Velocity>,
    ms: Seq<Mass>,
    p: Params,
) -> Seq<Velocity> {
    Seq::new(ps.len(), |i: int| upd_vel(ps, vs, ms, p, i))
}

/// One position advanced by its velocity over one time step.
pub open spec fn moved_position(pos: Position, v: Velocity, delta: i64) -> Position {
    Position {
        x: sat_to_i64(pos.x + fmul(v.x as int, delta as int)),
        y: sat_to_i64(pos.y + fmul(v.y as int, delta as int)),
    }
}

/// All positions advanced by the given velocities over one time step.
pub open spec fn integrated_positions(
    ps: Seq<Position>,
    vs: Seq<Velocity>,
    delta: i64,
) -> Seq<Position> {
    Seq::new(ps.len(), |i: int| moved_position(ps[i], vs[i], delta))
}

/// All positions after one full step: the integration pass reads the
/// velocities the velocity pass has already finished writing — the barrier
/// between the two stages.
pub open spec fn stepped_positions(
    ps: Seq<Position>,
    vs: Seq<Velocity>,
    ms: Seq<Mass>,
    p: Params,
) -> Seq<Position> {
    integrated_positions(ps, stepped_velocities(ps, vs, ms, p), p.delta)
}

} // verus!
