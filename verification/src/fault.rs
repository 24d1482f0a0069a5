//! The ways in which a step of the navigation can fail.

use vstd::prelude::*;

verus! {

/// Why a step was given up. No fault is recovered from inside this crate: each
/// one ends the step in which it arises.
#[derive(Clone, Copy, Debug, PartialEq, Eq, Structural)]
pub enum Fault {
    /// The detector did not locate the vehicle or the target in the frame.
    Perception,
    /// The damped correction lies beyond the full lock of the steering.
    AngleOutOfRange,
    /// A drive or steering command did not complete.
    Actuation,
    /// The approach or the idle routine did not complete.
    Collaborator,
}

} // verus!
