//! End-to-end tests of the simulation engine.
//!
//! All scalars are fixed-point with `SCALE` (1e9) sub-units per world
//! unit: a mass of one world unit is `1_000_000_000`, a gravitational
//! constant of 1e-5 is `10_000`, and so on.

use gravity_sim::sim::Simulation;
use gravity_sim::types::{Mass, Params, Position, SimError, Velocity};

const UNIT: i64 = 1_000_000_000;
const G_REF: i64 = 10_000; // 1e-5 world units

fn params(delta: i64, gravity: i64, cutoff: Option<i64>) -> Params {
    Params {
        delta,
        gravity,
        cutoff,
    }
}

fn two_bodies(x0: i64, x1: i64, p: Params) -> Simulation {
    let mut s = Simulation::new(p);
    s.create(
        Position { x: x0, y: 0 },
        Velocity { x: 0, y: 0 },
        Mass { value: UNIT },
    )
    .unwrap();
    s.create(
        Position { x: x1, y: 0 },
        Velocity { x: 0, y: 0 },
        Mass { value: UNIT },
    )
    .unwrap();
    s
}

#[test]
fn create_rejects_nonpositive_mass() {
    let mut s = Simulation::new(params(UNIT, G_REF, None));
    let zero = s.create(
        Position { x: 1, y: 2 },
        Velocity { x: 3, y: 4 },
        Mass { value: 0 },
    );
    assert_eq!(zero, Err(SimError::InvalidMass));
    assert_eq!(s.len(), 0);
    let negative = s.create(
        Position { x: 1, y: 2 },
        Velocity { x: 3, y: 4 },
        Mass { value: -UNIT },
    );
    assert_eq!(negative, Err(SimError::InvalidMass));
    assert_eq!(s.len(), 0);
    assert_eq!(s.read_all().len(), 0);
    let ok = s.create(
        Position { x: 1, y: 2 },
        Velocity { x: 3, y: 4 },
        Mass { value: 1 },
    );
    assert!(ok.is_ok());
    assert_eq!(s.len(), 1);
}

#[test]
fn entity_ids_follow_creation_order() {
    let mut s = Simulation::new(params(UNIT, G_REF, None));
    for k in 0..5i64 {
        let id = s
            .create(
                Position { x: k * UNIT, y: 0 },
                Velocity { x: 0, y: 0 },
                Mass { value: UNIT },
            )
            .unwrap();
        assert_eq!(id.id(), k as usize);
    }
    let all = s.read_all();
    assert_eq!(all.len(), 5);
    for (k, (id, pos, vel, mass)) in all.iter().enumerate() {
        assert_eq!(id.id(), k);
        assert_eq!(pos.x, k as i64 * UNIT);
        assert_eq!(vel.x, 0);
        assert_eq!(mass.value, UNIT);
        assert_eq!(s.position(*id), *pos);
        assert_eq!(s.velocity(*id), *vel);
        assert_eq!(s.mass(*id), *mass);
    }
    assert_eq!(s.config().gravity, G_REF);
}

#[test]
fn zero_delta_velocity_pass_is_identity() {
    // Two separated entities with nonzero velocities: a pass with delta = 0
    // must leave every velocity bitwise unchanged.
    let mut s = Simulation::new(params(0, G_REF, None));
    s.create(
        Position { x: 0, y: 0 },
        Velocity { x: 7, y: -9 },
        Mass { value: UNIT },
    )
    .unwrap();
    s.create(
        Position { x: 3 * UNIT, y: 4 * UNIT },
        Velocity { x: -2, y: 11 },
        Mass { value: 5 * UNIT },
    )
    .unwrap();
    s.run_velocity_stage();
    let all = s.read_all();
    assert_eq!((all[0].2.x, all[0].2.y), (7, -9));
    assert_eq!((all[1].2.x, all[1].2.y), (-2, 11));
}

#[test]
fn two_body_acceleration_matches_analytic_value() {
    // Masses 1.0 at separation 2.0: r^2 = 4.0, so the acceleration
    // magnitude is G * m / r^2 = 1e-5 / 4 = 2.5e-6, i.e. 2500 sub-units,
    // integrated over delta = 1.0.
    let mut s = two_bodies(0, 2 * UNIT, params(UNIT, G_REF, None));
    s.run_velocity_stage();
    let all = s.read_all();
    assert_eq!(all[0].2.x, 2500);
    assert_eq!(all[0].2.y, 0);
    assert_eq!(all[1].2.x, -2500);
    assert_eq!(all[1].2.y, 0);
}

#[test]
fn end_to_end_two_body_step() {
    // Masses 1.0 at (0,0) and (10,0), delta 1.0, G = 1e-5, no cutoff:
    // each velocity magnitude becomes 1e-5 / 100 = 1e-7 (100 sub-units),
    // entity 0 pulled toward +x, entity 1 toward -x, and entity 0's
    // position then advances by velocity times delta.
    let mut s = two_bodies(0, 10 * UNIT, params(UNIT, G_REF, None));
    s.step();
    let all = s.read_all();
    assert_eq!(all[0].2.x, 100);
    assert_eq!(all[1].2.x, -100);
    assert_eq!(all[0].2.y, 0);
    assert_eq!(all[1].2.y, 0);
    assert_eq!(all[0].1.x, 100);
    assert_eq!(all[1].1.x, 10 * UNIT - 100);
    assert_eq!(all[0].1.y, 0);
    assert_eq!(all[1].1.y, 0);
}

#[test]
fn attraction_is_signed_toward_the_attractor() {
    // The attractor sits at negative x: the pull must be negative on that
    // axis, never an unsigned magnitude.
    let mut s = two_bodies(0, -10 * UNIT, params(UNIT, G_REF, None));
    s.step();
    let all = s.read_all();
    assert_eq!(all[0].2.x, -100);
    assert_eq!(all[1].2.x, 100);
}

#[test]
fn cutoff_boundary_suppresses_pair() {
    // r^2 = 4.0 exactly. A cutoff at 4.0 suppresses the pair (the test is
    // `r^2 >= cutoff`); a cutoff just above lets it through.
    let mut at = two_bodies(0, 2 * UNIT, params(UNIT, G_REF, Some(4 * UNIT)));
    at.run_velocity_stage();
    let all = at.read_all();
    assert_eq!(all[0].2.x, 0);
    assert_eq!(all[1].2.x, 0);

    let mut above = two_bodies(0, 2 * UNIT, params(UNIT, G_REF, Some(4 * UNIT + 1)));
    above.run_velocity_stage();
    let all = above.read_all();
    assert_eq!(all[0].2.x, 2500);
    assert_eq!(all[1].2.x, -2500);
}

#[test]
fn cutoff_covering_all_pairs_equals_disabled() {
    // Every pair lies within the (huge) cutoff, so one step must produce
    // exactly the same state as a step with the cutoff disabled.
    let build = |cutoff: Option<i64>| -> Simulation {
        let mut s = Simulation::new(params(UNIT / 10, G_REF, cutoff));
        s.create(
            Position { x: 0, y: 0 },
            Velocity { x: 5, y: 0 },
            Mass { value: UNIT },
        )
        .unwrap();
        s.create(
            Position { x: 3 * UNIT, y: UNIT },
            Velocity { x: 0, y: -5 },
            Mass { value: 2 * UNIT },
        )
        .unwrap();
        s.create(
            Position { x: -2 * UNIT, y: 2 * UNIT },
            Velocity { x: 1, y: 1 },
            Mass { value: 3 * UNIT },
        )
        .unwrap();
        s
    };
    let mut with_cutoff = build(Some(1_000_000 * UNIT));
    let mut without = build(None);
    with_cutoff.step();
    without.step();
    assert_eq!(with_cutoff.read_all(), without.read_all());
}

#[test]
fn zero_delta_step_is_idempotent() {
    // With delta = 0 the state is a fixed point: one step and two steps
    // both equal the initial state.
    let build = || two_bodies(0, 10 * UNIT, params(0, G_REF, None));
    let initial = build().read_all();
    let mut once = build();
    once.step();
    let mut twice = build();
    twice.step();
    twice.step();
    assert_eq!(once.read_all(), initial);
    assert_eq!(twice.read_all(), once.read_all());
}

#[test]
fn repeated_runs_are_identical() {
    // Two runs from the same initial state take the same trajectory,
    // exactly: the step is a function of the state alone.
    let build = || {
        let mut s = Simulation::new(params(UNIT / 10, G_REF, Some(1_000_000 * UNIT)));
        for k in 0..8i64 {
            s.create(
                Position {
                    x: (k % 4) * UNIT,
                    y: (k / 4) * 3 * UNIT,
                },
                Velocity { x: 0, y: 0 },
                Mass { value: (k + 1) * UNIT },
            )
            .unwrap();
        }
        s
    };
    let mut a = build();
    let mut b = build();
    for _ in 0..5 {
        a.step();
        b.step();
    }
    assert_eq!(a.read_all(), b.read_all());
}

#[test]
fn coincident_entities_contribute_no_force() {
    // Two entities at the same point have zero squared separation; the
    // engine skips the pair instead of dividing by zero, so nothing moves.
    let mut s = two_bodies(5 * UNIT, 5 * UNIT, params(UNIT, G_REF, None));
    s.step();
    let all = s.read_all();
    assert_eq!((all[0].2.x, all[0].2.y), (0, 0));
    assert_eq!((all[1].2.x, all[1].2.y), (0, 0));
    assert_eq!(all[0].1.x, 5 * UNIT);
    assert_eq!(all[1].1.x, 5 * UNIT);
}

#[test]
fn velocity_stage_leaves_positions_and_masses_untouched() {
    let mut s = two_bodies(0, 2 * UNIT, params(UNIT, G_REF, None));
    s.run_velocity_stage();
    let all = s.read_all();
    assert_eq!(all[0].1, Position { x: 0, y: 0 });
    assert_eq!(all[1].1, Position { x: 2 * UNIT, y: 0 });
    assert_eq!(all[0].3, Mass { value: UNIT });
    assert_eq!(all[1].3, Mass { value: UNIT });
}
