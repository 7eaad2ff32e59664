//! The component store, the two stages, and the step scheduler.
//!
//! [`Simulation`] owns the three co-indexed attribute arrays (position,
//! velocity, mass) and the run parameters. One step runs the velocity
//! update stage to completion over all entities, then the position
//! integration stage: the contract of [`Simulation::step`] pins the final
//! positions to [`stepped_positions`], which reads the *updated*
//! velocities, so the two stages never interleave their effects.
//!
//! The velocity pass over the entities is data parallel: each entity's new
//! velocity depends only on the old positions and masses, so the pass is
//! farmed out to worker threads, one output slot per entity, through
//! [`par_updated_velocities`]. The per-entity kernel
//! [`updated_velocity_of`] itself is verified.

use vstd::prelude::*;
use rayon::iter::IntoParallelIterator;
use rayon::iter::ParallelIterator;
use crate::fixed::{sat_add, sat_sub, fp_mul, fp_div, lemma_fmul_nonneg, lemma_fdiv_nonneg};
use crate::types::{Position, Velocity, Mass, Params, EntityId, SimError};
use crate::model::{
    upd_vel, vel_after, stepped_velocities, moved_position, integrated_positions,
    stepped_positions,
};

verus! {

/// The simulation state: three co-indexed per-entity attribute arrays and
/// the shared run parameters, fixed at construction.
pub struct Simulation {
    positions: Vec<Position>,
    velocities: Vec<Velocity>,
    masses: Vec<Mass>,
    params: Params,
}

impl Simulation {
    /// The positions, in creation order.
    pub closed spec fn ps(&self) -> Seq<Position> {
        self.positions@
    }

    /// The velocities, in creation order.
    pub closed spec fn vs(&self) -> Seq<Velocity> {
        self.velocities@
    }

    /// The masses, in creation order.
    pub closed spec fn ms(&self) -> Seq<Mass> {
        self.masses@
    }

    /// The run parameters.
    pub closed spec fn params(&self) -> Params {
        self.params
    }

    /// Well-formedness: the three stores are co-indexed and never diverge
    /// in population, every stored mass is strictly positive, and the
    /// parameters are valid. Established at construction and preserved by
    /// every operation, so a population mismatch — a programming error, not
    /// a runtime condition — is ruled out statically rather than detected
    /// and reported during a step.
    pub open spec fn wf(&self) -> bool {
        &&& self.vs().len() == self.ps().len()
        &&& self.ms().len() == self.ps().len()
        &&& (forall|i: int| 0 <= i < self.ms().len() ==> self.ms()[i].value > 0)
        &&& self.params().wf()
    }

    /// An empty simulation with the given parameters.
    pub fn new(params: Params) -> (s: Simulation)
        requires
            params.wf(),
        ensures
            s.wf(),
            s.ps().len() == 0,
            s.vs().len() == 0,
            s.ms().len() == 0,
            s.params() == params,
    {
        Simulation {
            positions: Vec::new(),
            velocities: Vec::new(),
            masses: Vec::new(),
            params,
        }
    }

    /// Number of live entities.
    pub fn len(&self) -> (n: usize)
        ensures
            n as int == self.ps().len(),
    {
        self.positions.len()
    }

    /// Append one entity with the given initial attributes and hand back
    /// its identifier. A non-positive mass is rejected with
    /// [`SimError::InvalidMass`] and the population is unchanged; the mass
    /// never enters the store, so the force law never divides by a
    /// non-positive mass's record.
    pub fn create(&mut self, position: Position, velocity: Velocity, mass: Mass) -> (r: Result<
        EntityId,
        SimError,
    >)
        requires
            old(self).wf(),
        ensures
            final(self).wf(),
            final(self).params() == old(self).params(),
            mass.value <= 0 ==> r == Err::<EntityId, SimError>(SimError::InvalidMass),
            mass.value <= 0 ==> {
                &&& final(self).ps() == old(self).ps()
                &&& final(self).vs() == old(self).vs()
                &&& final(self).ms() == old(self).ms()
            },
            mass.value > 0 ==> (r matches Ok(id) && id.index() == old(self).ps().len()),
            mass.value > 0 ==> {
                &&& final(self).ps() == old(self).ps().push(position)
                &&& final(self).vs() == old(self).vs().push(velocity)
                &&& final(self).ms() == old(self).ms().push(mass)
            },
    {
        if mass.value <= 0 {
            Err(SimError::InvalidMass)
        } else {
            let idx: usize = self.positions.len();
            self.positions.push(position);
            self.velocities.push(velocity);
            self.masses.push(mass);
            Ok(EntityId::from_index(idx))
        }
    }

    /// The run parameters, as fixed at construction.
    pub fn config(&self) -> (p: Params)
        ensures
            p == self.params(),
    {
        self.params
    }

    /// Current position of the entity `id` denotes.
    pub fn position(&self, id: EntityId) -> (r: Position)
        requires
            0 <= id.index() < self.ps().len(),
        ensures
            r == self.ps()[id.index()],
    {
        self.positions[id.id()]
    }

    /// Current velocity of the entity `id` denotes.
    pub fn velocity(&self, id: EntityId) -> (r: Velocity)
        requires
            self.wf(),
            0 <= id.index() < self.ps().len(),
        ensures
            r == self.vs()[id.index()],
    {
        self.velocities[id.id()]
    }

    /// Mass of the entity `id` denotes.
    pub fn mass(&self, id: EntityId) -> (r: Mass)
        requires
            self.wf(),
            0 <= id.index() < self.ps().len(),
        ensures
            r == self.ms()[id.index()],
    {
        self.masses[id.id()]
    }

    /// A snapshot of every live entity in creation order: identifier,
    /// position, velocity, mass.
    pub fn read_all(&self) -> (r: Vec<(EntityId, Position, Velocity, Mass)>)
        requires
            self.wf(),
        ensures
            r@.len() == self.ps().len(),
            forall|i: int|
                0 <= i < r@.len() ==> {
                    &&& (#[trigger] r@[i]).0.index() == i
                    &&& r@[i].1 == self.ps()[i]
                    &&& r@[i].2 == self.vs()[i]
                    &&& r@[i].3 == self.ms()[i]
                },
    {
        let n: usize = self.positions.len();
        let mut r: Vec<(EntityId, Position, Velocity, Mass)> = Vec::new();
        let mut i: usize = 0;
        while i < n
            invariant
                self.wf(),
                n == self.ps().len(),
                i <= n,
                r@.len() == i as int,
                forall|k: int|
                    0 <= k < r@.len() ==> {
                        &&& (#[trigger] r@[k]).0.index() == k
                        &&& r@[k].1 == self.ps()[k]
                        &&& r@[k].2 == self.vs()[k]
                        &&& r@[k].3 == self.ms()[k]
                    },
            decreases n - i,
        {
            r.push(
                (EntityId::from_index(i), self.positions[i], self.velocities[i], self.masses[i]),
            );
            i += 1;
        }
        r
    }

    /// The velocity update stage: replace every velocity by the result of
    /// one full pairwise pass over the old positions and masses. Positions,
    /// masses and parameters are left untouched.
    pub fn run_velocity_stage(&mut self)
        requires
            old(self).wf(),
        ensures
            final(self).wf(),
            final(self).vs() == stepped_velocities(
                old(self).ps(),
                old(self).vs(),
                old(self).ms(),
                old(self).params(),
            ),
            final(self).ps() == old(self).ps(),
            final(self).ms() == old(self).ms(),
            final(self).params() == old(self).params(),
    {
        let nv: Vec<Velocity> = par_updated_velocities(
            &self.positions,
            &self.velocities,
            &self.masses,
            self.params,
        );
        self.velocities = nv;
        proof {
            assert(self.vs() =~= stepped_velocities(
                old(self).ps(),
                old(self).vs(),
                old(self).ms(),
                old(self).params(),
            ));
        }
    }

    /// The position integration stage: advance every position by its
    /// entity's current velocity times the time step. Velocities, masses
    /// and parameters are left untouched.
    pub fn run_position_stage(&mut self)
        requires
            old(self).wf(),
        ensures
            final(self).wf(),
            final(self).ps() == integrated_positions(
                old(self).ps(),
                old(self).vs(),
                old(self).params().delta,
            ),
            final(self).vs() == old(self).vs(),
            final(self).ms() == old(self).ms(),
            final(self).params() == old(self).params(),
    {
        let n: usize = self.positions.len();
        let mut i: usize = 0;
        while i < n
            invariant
                n == self.ps().len(),
                self.ps().len() == old(self).ps().len(),
                self.vs() == old(self).vs(),
                self.ms() == old(self).ms(),
                self.params() == old(self).params(),
                old(self).wf(),
                self.vs().len() == n,
                i <= n,
                forall|k: int|
                    0 <= k < i ==> self.ps()[k] == moved_position(
                        old(self).ps()[k],
                        old(self).vs()[k],
                        old(self).params().delta,
                    ),
                forall|k: int| i <= k < n ==> self.ps()[k] == old(self).ps()[k],
            decreases n - i,
        {
            let pos: Position = self.positions[i];
            let v: Velocity = self.velocities[i];
            let np = Position {
                x: sat_add(pos.x, fp_mul(v.x, self.params.delta)),
                y: sat_add(pos.y, fp_mul(v.y, self.params.delta)),
            };
            self.positions.set(i, np);
            i += 1;
        }
        proof {
            assert(self.ps() =~= integrated_positions(
                old(self).ps(),
                old(self).vs(),
                old(self).params().delta,
            ));
        }
    }

    /// One discrete simulation step: the velocity update stage runs to
    /// completion over all entities, then the position integration stage
    /// reads the step's final velocities. The post-state is an exact
    /// function of the pre-state, so a run of steps is deterministic.
    pub fn step(&mut self)
        requires
            old(self).wf(),
        ensures
            final(self).wf(),
            final(self).vs() == stepped_velocities(
                old(self).ps(),
                old(self).vs(),
                old(self).ms(),
                old(self).params(),
            ),
            final(self).ps() == stepped_positions(
                old(self).ps(),
                old(self).vs(),
                old(self).ms(),
                old(self).params(),
            ),
            final(self).ms() == old(self).ms(),
            final(self).params() == old(self).params(),
    {
        self.run_velocity_stage();
        self.run_position_stage();
    }
}

/// The per-entity velocity kernel: the velocity entity `i` has after one
/// full pass that accumulates, in creation order, the contribution of every
/// other entity `j` from the (unchanged) positions and masses. A pair is
/// skipped when `j == i`, when the configured cutoff suppresses it, and
/// when the two entities coincide (zero squared separation), so no
/// division by zero can occur.
pub fn updated_velocity_of(
    ps: &Vec<Position>,
    vs: &Vec<Velocity>,
    ms: &Vec<Mass>,
    p: Params,
    i: usize,
) -> (v: Velocity)
    requires
        vs@.len() == ps@.len(),
        ms@.len() == ps@.len(),
        (i as int) < ps@.len(),
    ensures
        v == upd_vel(ps@, vs@, ms@, p, i as int),
{
    let n: usize = ps.len();
    let mut vx: i64 = vs[i].x;
    let mut vy: i64 = vs[i].y;
    let mut j: usize = 0;
    while j < n
        invariant
            vs@.len() == ps@.len(),
            ms@.len() == ps@.len(),
            (i as int) < ps@.len(),
            n == ps@.len(),
            j <= n,
            (Velocity { x: vx, y: vy }) == vel_after(
                ps@,
                ms@,
                p,
                vs@[i as int],
                i as int,
                j as int,
            ),
        decreases n - j,
    {
        if j != i {
            let dx: i64 = sat_sub(ps[j].x, ps[i].x);
            let dy: i64 = sat_sub(ps[j].y, ps[i].y);
            let dx2: i64 = fp_mul(dx, dx);
            let dy2: i64 = fp_mul(dy, dy);
            proof {
                lemma_fmul_nonneg(dx as int, dx as int);
                lemma_fmul_nonneg(dy as int, dy as int);
            }
            let r2: i64 = sat_add(dx2, dy2);
            let excl: bool = match p.cutoff {
                Some(c) => r2 >= c,
                None => false,
            };
            if !excl && r2 != 0 {
                let f: i64 = fp_div(fp_mul(p.gravity, ms[j].value), r2);
                let ux: i64 = fp_div(dx2, r2);
                let uy: i64 = fp_div(dy2, r2);
                proof {
                    lemma_fdiv_nonneg(dx2 as int, r2 as int);
                    lemma_fdiv_nonneg(dy2 as int, r2 as int);
                }
                let sx: i64 = if ps[j].x > ps[i].x {
                    ux
                } else {
                    -ux
                };
                let sy: i64 = if ps[j].y > ps[i].y {
                    uy
                } else {
                    -uy
                };
                let ax: i64 = fp_mul(f, sx);
                let ay: i64 = fp_mul(f, sy);
                let dvx: i64 = fp_mul(ax, p.delta);
                let dvy: i64 = fp_mul(ay, p.delta);
                vx = sat_add(vx, dvx);
                vy = sat_add(vy, dvy);
            }
        }
        j += 1;
    }
    Velocity { x: vx, y: vy }
}

/// Relies on rayon's `into_par_iter` over `0..n` with `map` and `collect`:
/// a parallel iterator over a range is indexed, `map` keeps it indexed, and
/// collecting an indexed parallel iterator into a `Vec` places each
/// closure result at its own index, whatever the thread schedule. The
/// closure only calls the verified [`updated_velocity_of`], whose contract
/// gives each slot's value.
#[verifier::external_body]
fn par_updated_velocities(
    ps: &Vec<Position>,
    vs: &Vec<Velocity>,
    ms: &Vec<Mass>,
    p: Params,
) -> (r: Vec<Velocity>)
    requires
        vs@.len() == ps@.len(),
        ms@.len() == ps@.len(),
    ensures
        r@.len() == ps@.len(),
        forall|i: int| 0 <= i < r@.len() ==> r@[i] == upd_vel(ps@, vs@, ms@, p, i),
{
    (0..ps.len()).into_par_iter().map(|i| updated_velocity_of(ps, vs, ms, p, i)).collect()
}

} // verus!
