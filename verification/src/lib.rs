//! Navigation core of a camera-guided vehicle.
//!
//! An overhead camera sees a wheeled vehicle and a target. The vehicle first
//! turns until it faces the target, then approaches it, then rests on it until
//! the target moves away. This crate holds the geometry, the steering rule and
//! the three-state machine that sequences the work; it performs no I/O itself.
//! A driver performs each [`Action`] that the [`Pilot`] asks for and reports
//! back with an [`Event`].
//!
//! All quantities are integers: positions lie on the pixel grid of the camera
//! frame, angles are measured in microradians and steering deflections in
//! millionths of the full lock. A heading error is held exactly, as the
//! scaled sine and cosine of its angle ([`Rotation`]); its measure in
//! microradians needs an arctangent, which the pilot asks its driver for
//! ([`Action::Measure`]).

pub mod fault;
pub mod geometry;
pub mod machine;
pub mod perception;
pub mod run;
pub mod steering;

pub use fault::Fault;
pub use geometry::{angle_between, vector_from, Offset, Position, Rotation, Turn, Vector};
pub use machine::{
    Action, Color, Direction, Event, Hint, Outcome, Pilot, Stage, State, TeamColors, STRETCH_MILLIS,
};
pub use perception::{MapState, Region};
pub use steering::{
    assess, damped, steerable, within_tolerance, Angle, Verdict, DAMPING, FULL_LOCK, TOLERANCE,
};
