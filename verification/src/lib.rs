//! A small-N gravitational simulation engine.
//!
//! A fixed population of point masses attracts one another pairwise under an
//! inverse-square law; velocities and positions advance in discrete time
//! steps. Every scalar quantity (coordinate, velocity component, mass,
//! time step) is a signed 64-bit fixed-point number with `fixed::SCALE`
//! sub-units per world unit, so the whole update is exact integer
//! arithmetic that saturates at the representable extremes instead of
//! overflowing.
//!
//! - [`fixed`] holds the saturating fixed-point scalar operations.
//! - [`types`] holds the per-entity attribute types and the run parameters.
//! - [`model`] states, as specification functions, exactly what one
//!   velocity-update pass and one position-integration pass compute.
//! - [`sim`] is the component store plus the two stages and the step
//!   scheduler, verified against [`model`].
//! - [`laws`] proves the engine-wide laws (zero time step is a fixed point,
//!   an inactive cutoff changes nothing, a step is deterministic).

pub mod fixed;
pub mod types;
pub mod model;
pub mod sim;
pub mod laws;
