//! The steering deflection and the rule that derives it from a heading error.

use crate::fault::Fault;
use vstd::prelude::*;

verus! {

/// A heading error of at most this many microradians counts as none.
pub const TOLERANCE: i64 = 10_000;

/// One turn applies the heading error divided by this.
pub const DAMPING: i64 = 5;

/// The deflection at the full lock, to either side, in millionths.
pub const FULL_LOCK: i64 = 1_000_000;

/// Whether a heading error, in microradians, is small enough to start the
/// approach.
pub open spec fn within_tolerance(correction: int) -> bool {
    -TOLERANCE <= correction <= TOLERANCE
}

/// The share of a heading error that one turn steers by: the error divided by
/// [`DAMPING`], rounded toward zero.
pub open spec fn damped(correction: int) -> int {
    if correction >= 0 {
        correction / (DAMPING as int)
    } else {
        -((-correction) / (DAMPING as int))
    }
}

/// Whether the steering can take a deflection, in millionths of the full lock.
pub open spec fn steerable(deflection: int) -> bool {
    -FULL_LOCK <= deflection <= FULL_LOCK
}

/// A steering deflection that the actuator accepts, in millionths of the full
/// lock: negative to the left, positive to the right.
#[derive(Clone, Copy, Debug, PartialEq, Eq, Structural)]
pub struct Angle {
    millionths: i32,
}

impl View for Angle {
    type V = int;

    closed spec fn view(&self) -> int {
        self.millionths as int
    }
}

impl Angle {
    #[verifier::type_invariant]
    spec fn in_range(self) -> bool {
        steerable(self.millionths as int)
    }

    /// The deflection of `millionths`. It is one that the steering accepts
    /// only where `steerable(millionths)`.
    pub closed spec fn of(millionths: int) -> Angle {
        Angle { millionths: millionths as i32 }
    }

    /// What [`Angle::try_new`] makes of `millionths`.
    pub open spec fn checked(millionths: int) -> Result<Angle, Fault> {
        if steerable(millionths) {
            Ok(Angle::of(millionths))
        } else {
            Err(Fault::AngleOutOfRange)
        }
    }

    /// The deflection of `millionths`, where the steering can take it.
    pub fn try_new(millionths: i64) -> (made: Result<Angle, Fault>)
        ensures
            made == Angle::checked(millionths as int),
            steerable(millionths as int) ==> (made matches Ok(angle) && angle@ == millionths),
            !steerable(millionths as int) ==> made == Err::<Angle, Fault>(Fault::AngleOutOfRange),
    {
        if -FULL_LOCK <= millionths && millionths <= FULL_LOCK {
            Ok(Angle { millionths: millionths as i32 })
        } else {
            Err(Fault::AngleOutOfRange)
        }
    }

    /// No deflection: the wheels point straight ahead.
    pub fn straight() -> (angle: Angle)
        ensures
            angle == Angle::of(0),
            angle@ == 0,
    {
        Angle { millionths: 0 }
    }

    /// The deflection in millionths of the full lock.
    pub fn into_inner(self) -> (millionths: i32)
        ensures
            millionths == self@,
            steerable(millionths as int),
    {
        proof {
            use_type_invariant(self);
        }
        self.millionths
    }
}

/// What a turn does about a heading error.
#[derive(Clone, Copy, Debug, PartialEq, Eq, Structural)]
pub enum Verdict {
    /// The vehicle points at the target closely enough.
    Aligned,
    /// The vehicle is to drive a stretch with this deflection.
    Steer(Angle),
}

/// What [`assess`] decides about a heading error of `correction`
/// microradians.
pub open spec fn assessed(correction: int) -> Result<Verdict, Fault> {
    if within_tolerance(correction) {
        Ok(Verdict::Aligned)
    } else if steerable(damped(correction)) {
        Ok(Verdict::Steer(Angle::of(damped(correction))))
    } else {
        Err(Fault::AngleOutOfRange)
    }
}

/// Two deflections of the same amount are the same deflection, and a
/// deflection that the steering accepts amounts to what it was made of.
pub proof fn lemma_angle_amount(millionths: int, angle: Angle)
    ensures
        angle == Angle::of(angle@),
        steerable(millionths) ==> Angle::of(millionths)@ == millionths,
{
}

/// Damping brings a heading error nearer to zero and keeps its sign.
pub proof fn lemma_damped_shrinks(correction: int)
    ensures
        correction >= 0 ==> 0 <= damped(correction) <= correction,
        correction <= 0 ==> correction <= damped(correction) <= 0,
        correction != 0 ==> damped(correction) != correction,
        damped(-correction) == -damped(correction),
        steerable(damped(correction)) ==> steerable(damped(damped(correction))),
{
}

/// Decides what a turn does about a heading error of `correction`
/// microradians.
///
/// Within the tolerance nothing is steered. Beyond it the vehicle steers by
/// the damped error, to the side of its sign, which fails where the steering
/// cannot take so much.
pub fn assess(correction: i64) -> (verdict: Result<Verdict, Fault>)
    ensures
        verdict == assessed(correction as int),
        within_tolerance(correction as int) ==> verdict == Ok::<Verdict, Fault>(Verdict::Aligned),
        !within_tolerance(correction as int) && steerable(damped(correction as int)) ==> (verdict
            matches Ok(Verdict::Steer(angle)) && angle@ == damped(correction as int)),
        !within_tolerance(correction as int) && !steerable(damped(correction as int)) ==> verdict
            == Err::<Verdict, Fault>(Fault::AngleOutOfRange),
{
    if -TOLERANCE <= correction && correction <= TOLERANCE {
        return Ok(Verdict::Aligned);
    }
    let wide: i128 = correction as i128;
    let share: i128 = if wide >= 0 {
        wide / (DAMPING as i128)
    } else {
        -((-wide) / (DAMPING as i128))
    };
    match Angle::try_new(share as i64) {
        Ok(angle) => Ok(Verdict::Steer(angle)),
        Err(fault) => Err(fault),
    }
}

} // verus!
