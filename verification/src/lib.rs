//! A fragmentation model for orbital collisions and explosions, in the family
//! of the NASA standard breakup model.
//!
//! Callers build [`satellite::Satellite`] values, wrap them in a
//! [`event::CollisionEvent`] or [`event::ExplosionEvent`], and hand the event
//! to the generation engine in [`engine`], which returns the fragment
//! population (size, mass, area-to-mass ratio, velocity delta, position).
//!
//! All physical quantities are held in fixed-point arithmetic: a value `v` in
//! base units (meters, kilograms, meters per second) is stored as the integer
//! `v * 1_000_000`, i.e. in micro-units. The module [`fixed`] defines the
//! arithmetic, including the fractional powers that the empirical breakup
//! laws use, with exact contracts over the integer semantics.

use vstd::prelude::*;

pub mod engine;
pub mod event;
pub mod fixed;
pub mod rng;
pub mod satellite;

pub use engine::{run, run_seeded, Fragment};
pub use event::{CollisionEvent, ExplosionEvent, FragmentationEvent};
pub use satellite::{SatKind, Satellite, Vec3};

verus! {

/// The error kinds the model surfaces. All are reported synchronously and
/// none is retried: the model is deterministic for valid input.
#[derive(Clone, Copy, Debug, PartialEq, Eq, Structural)]
pub enum BreakupError {
    /// Wrong satellite count handed to an event constructor.
    InvalidConstruction,
    /// An integer satellite-kind code outside the closed enumeration.
    InvalidKindCode,
    /// A minimum characteristic length greater than the maximum.
    InvalidBounds,
    /// A fragment-count law produced no representable non-negative value
    /// (for instance from a zero length, or a value beyond the fixed-point
    /// range), indicating malformed physical input.
    InvalidCount,
    /// A derived physical quantity left the representable fixed-point range.
    ValueOutOfRange,
}

} // verus!
