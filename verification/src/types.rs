//! Per-entity attribute types, run parameters, and the creation error.
//!
//! All scalar fields are fixed-point numbers with [`crate::fixed::SCALE`]
//! sub-units per world unit.

use vstd::prelude::*;

verus! {

/// World-space coordinates of one entity. Mutated only by the position
/// integration stage.
#[derive(Debug, Clone, Copy, PartialEq, Eq, Structural)]
pub struct Position {
    pub x: i64,
    pub y: i64,
}

/// Instantaneous velocity of one entity. Mutated only by the velocity
/// update stage.
#[derive(Debug, Clone, Copy, PartialEq, Eq, Structural)]
pub struct Velocity {
    pub x: i64,
    pub y: i64,
}

/// Scalar mass of one entity: strictly positive, constant for the entity's
/// lifetime.
#[derive(Debug, Clone, Copy, PartialEq, Eq, Structural)]
pub struct Mass {
    pub value: i64,
}

/// Run-wide parameters, fixed at construction of a simulation.
#[derive(Debug, Clone, Copy)]
pub struct Params {
    /// Time-step size, nonnegative.
    pub delta: i64,
    /// Gravitational constant, nonnegative.
    pub gravity: i64,
    /// Optional squared-distance threshold: a pair whose squared separation
    /// reaches it contributes no force. `None` disables the cutoff.
    pub cutoff: Option<i64>,
}

impl Params {
    /// Validity of a parameter set.
    pub open spec fn wf(self) -> bool {
        &&& self.delta >= 0
        &&& self.gravity >= 0
        &&& match self.cutoff {
            Some(c) => c >= 0,
            None => true,
        }
    }
}

/// Opaque, unique, stable identifier of one entity, assigned at creation
/// and never reused.
#[derive(Debug, Clone, Copy, PartialEq, Eq, Structural)]
pub struct EntityId {
    pub(crate) idx: usize,
}

impl EntityId {
    /// The creation-order index this identifier denotes.
    pub closed spec fn index(self) -> int {
        self.idx as int
    }

    /// An identifier for the entity stored at `idx`.
    pub(crate) fn from_index(idx: usize) -> (e: EntityId)
        ensures
            e.index() == idx as int,
    {
        EntityId { idx }
    }

    /// The identifier as a number.
    pub fn id(&self) -> (r: usize)
        ensures
            r as int == self.index(),
    {
        self.idx
    }
}

/// Why an entity could not be created.
#[derive(Debug, Clone, Copy, PartialEq, Eq, Structural)]
pub enum SimError {
    /// Creation was requested with a non-positive mass.
    InvalidMass,
}

} // verus!
