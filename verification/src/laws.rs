//! Engine-wide laws, proved against the model in [`crate::model`].
//!
//! Each public proof function here states one guarantee of the engine as a
//! whole: a zero time step is a fixed point of the step (and hence
//! idempotent), a cutoff that no pair reaches changes nothing, and a step
//! is a function of the state and parameters alone.

use vstd::prelude::*;
use crate::fixed::{fmul, fdiv, lemma_fmul_zero};
use crate::types::{Position, Velocity, Mass, Params};
use crate::model::{
    pair_dx, pair_dy, pair_r2, excluded_by_cutoff, pair_dv_x, pair_dv_y, vel_after,
    stepped_velocities, moved_position, integrated_positions, stepped_positions,
};

verus! {

/// With a zero time step, no pair contributes any velocity increment: the
/// final factor of every contribution is the time step.
proof fn lemma_pair_dv_zero_delta(ps: Seq<Position>, ms: Seq<Mass>, p: Params, i: int, j: int)
    requires
        p.delta == 0,
    ensures
        pair_dv_x(ps, ms, p, i, j) == 0,
        pair_dv_y(ps, ms, p, i, j) == 0,
{
    let r2 = pair_r2(ps, i, j);
    if !(excluded_by_cutoff(p.cutoff, r2) || r2 == 0) {
        let dx = pair_dx(ps, i, j);
        let dy = pair_dy(ps, i, j);
        let dx2 = fmul(dx as int, dx as int);
        let dy2 = fmul(dy as int, dy as int);
        let force = fdiv(fmul(p.gravity as int, ms[j].value as int) as int, r2 as int);
        let ux = fdiv(dx2 as int, r2 as int);
        let uy = fdiv(dy2 as int, r2 as int);
        let sx: int = if ps[j].x > ps[i].x {
            ux as int
        } else {
            -(ux as int)
        };
        let sy: int = if ps[j].y > ps[i].y {
            uy as int
        } else {
            -(uy as int)
        };
        lemma_fmul_zero(fmul(force as int, sx) as int);
        lemma_fmul_zero(fmul(force as int, sy) as int);
    }
}

/// With a zero time step, folding any number of attractors onto a starting
/// velocity returns it unchanged.
proof fn lemma_vel_after_zero_delta(
    ps: Seq<Position>,
    ms: Seq<Mass>,
    p: Params,
    v0: Velocity,
    i: int,
    k: int,
)
    requires
        p.delta == 0,
    ensures
        vel_after(ps, ms, p, v0, i, k) == v0,
    decreases k,
{
    if k > 0 {
        lemma_vel_after_zero_delta(ps, ms, p, v0, i, k - 1);
        if k - 1 != i {
            lemma_pair_dv_zero_delta(ps, ms, p, i, k - 1);
        }
    }
}

/// Law: a velocity update pass with a zero time step leaves every velocity
/// exactly unchanged, whatever the positions, masses, gravity and cutoff:
/// every acceleration is scaled by the time step.
pub proof fn lemma_zero_delta_velocity_pass(
    ps: Seq<Position>,
    vs: Seq<Velocity>,
    ms: Seq<Mass>,
    p: Params,
)
    requires
        p.delta == 0,
        vs.len() == ps.len(),
    ensures
        stepped_velocities(ps, vs, ms, p) == vs,
{
    assert forall|i: int| 0 <= i < ps.len() implies stepped_velocities(ps, vs, ms, p)[i]
        == vs[i] by {
        lemma_vel_after_zero_delta(ps, ms, p, vs[i], i, ps.len() as int);
    }
    assert(stepped_velocities(ps, vs, ms, p) =~= vs);
}

/// Law: a full step with a zero time step is the identity on the state,
/// and hence idempotent: the last two conclusions say that a second step
/// applied to the first step's output reproduces that output, so two
/// consecutive zero-delta steps equal one.
pub proof fn lemma_zero_delta_step_identity(
    ps: Seq<Position>,
    vs: Seq<Velocity>,
    ms: Seq<Mass>,
    p: Params,
)
    requires
        p.delta == 0,
        vs.len() == ps.len(),
    ensures
        stepped_velocities(ps, vs, ms, p) == vs,
        stepped_positions(ps, vs, ms, p) == ps,
        stepped_velocities(
            stepped_positions(ps, vs, ms, p),
            stepped_velocities(ps, vs, ms, p),
            ms,
            p,
        ) == stepped_velocities(ps, vs, ms, p),
        stepped_positions(
            stepped_positions(ps, vs, ms, p),
            stepped_velocities(ps, vs, ms, p),
            ms,
            p,
        ) == stepped_positions(ps, vs, ms, p),
{
    lemma_zero_delta_velocity_pass(ps, vs, ms, p);
    assert forall|i: int| 0 <= i < ps.len() implies stepped_positions(ps, vs, ms, p)[i]
        == ps[i] by {
        lemma_fmul_zero(vs[i].x as int);
        lemma_fmul_zero(vs[i].y as int);
        assert(moved_position(ps[i], vs[i], 0) == ps[i]);
    }
    assert(stepped_positions(ps, vs, ms, p) =~= ps);
}

/// A pair's velocity increment does not depend on the cutoff when neither
/// parameter set's cutoff suppresses the pair, provided gravity and time
/// step agree.
proof fn lemma_pair_dv_cutoff_inactive(
    ps: Seq<Position>,
    ms: Seq<Mass>,
    p1: Params,
    p2: Params,
    i: int,
    j: int,
)
    requires
        p1.delta == p2.delta,
        p1.gravity == p2.gravity,
        !excluded_by_cutoff(p1.cutoff, pair_r2(ps, i, j)),
        !excluded_by_cutoff(p2.cutoff, pair_r2(ps, i, j)),
    ensures
        pair_dv_x(ps, ms, p1, i, j) == pair_dv_x(ps, ms, p2, i, j),
        pair_dv_y(ps, ms, p1, i, j) == pair_dv_y(ps, ms, p2, i, j),
{
}

/// Folding attractors gives the same velocity under two parameter sets
/// whose cutoffs suppress none of the pairs involved.
proof fn lemma_vel_after_cutoff_inactive(
    ps: Seq<Position>,
    ms: Seq<Mass>,
    p1: Params,
    p2: Params,
    v0: Velocity,
    i: int,
    k: int,
)
    requires
        p1.delta == p2.delta,
        p1.gravity == p2.gravity,
        forall|j: int|
            0 <= j < k && j != i ==> !excluded_by_cutoff(
                p1.cutoff,
                #[trigger] pair_r2(ps, i, j),
            ) && !excluded_by_cutoff(p2.cutoff, pair_r2(ps, i, j)),
    ensures
        vel_after(ps, ms, p1, v0, i, k) == vel_after(ps, ms, p2, v0, i, k),
    decreases k,
{
    if k > 0 {
        lemma_vel_after_cutoff_inactive(ps, ms, p1, p2, v0, i, k - 1);
        if k - 1 != i {
            lemma_pair_dv_cutoff_inactive(ps, ms, p1, p2, i, k - 1);
        }
    }
}

/// Law: when every distinct pair lies strictly within the configured
/// cutoff, a step under that cutoff produces exactly the velocities and
/// positions of a step with the cutoff disabled (or any other cutoff that
/// also suppresses no pair): the cutoff only removes terms beyond the
/// threshold. Gravity and time step must agree between the two parameter
/// sets.
pub proof fn lemma_cutoff_within_equals_disabled(
    ps: Seq<Position>,
    vs: Seq<Velocity>,
    ms: Seq<Mass>,
    p1: Params,
    p2: Params,
)
    requires
        p1.delta == p2.delta,
        p1.gravity == p2.gravity,
        vs.len() == ps.len(),
        forall|i: int, j: int|
            0 <= i < ps.len() && 0 <= j < ps.len() && j != i ==> !excluded_by_cutoff(
                p1.cutoff,
                #[trigger] pair_r2(ps, i, j),
            ) && !excluded_by_cutoff(p2.cutoff, pair_r2(ps, i, j)),
    ensures
        stepped_velocities(ps, vs, ms, p1) == stepped_velocities(ps, vs, ms, p2),
        stepped_positions(ps, vs, ms, p1) == stepped_positions(ps, vs, ms, p2),
{
    assert forall|i: int| 0 <= i < ps.len() implies stepped_velocities(ps, vs, ms, p1)[i]
        == stepped_velocities(ps, vs, ms, p2)[i] by {
        lemma_vel_after_cutoff_inactive(ps, ms, p1, p2, vs[i], i, ps.len() as int);
    }
    assert(stepped_velocities(ps, vs, ms, p1) =~= stepped_velocities(ps, vs, ms, p2));
    assert(stepped_positions(ps, vs, ms, p1) =~= stepped_positions(ps, vs, ms, p2));
}

/// Law: one step is a function of the state and the parameters alone. Two
/// runs from equal stores with equal parameters step to equal stores —
/// whatever order or thread schedule executed the passes, since the step's
/// outcome is fixed slot by slot.
pub proof fn lemma_step_deterministic(
    ps1: Seq<Position>,
    vs1: Seq<Velocity>,
    ms1: Seq<Mass>,
    p1: Params,
    ps2: Seq<Position>,
    vs2: Seq<Velocity>,
    ms2: Seq<Mass>,
    p2: Params,
)
    requires
        ps1 == ps2,
        vs1 == vs2,
        ms1 == ms2,
        p1 == p2,
    ensures
        stepped_velocities(ps1, vs1, ms1, p1) == stepped_velocities(ps2, vs2, ms2, p2),
        stepped_positions(ps1, vs1, ms1, p1) == stepped_positions(ps2, vs2, ms2, p2),
{
}

} // verus!


