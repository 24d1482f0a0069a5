//! The three-state machine that sequences turning, approaching and idling.
//!
//! The machine does no work of its own. [`Pilot::execute`] takes the outcome
//! of the work it asked for last and answers with the work to do next, until
//! the step is over.

use crate::fault::Fault;
use crate::geometry::Rotation;
use crate::perception::{MapState, Region};
use crate::steering::{assess, assessed, Angle, Verdict};
use vstd::prelude::*;

verus! {

/// A colour by which the detector tells objects apart.
#[derive(Clone, Copy, Debug, PartialEq, Eq, Structural)]
pub enum Color {
    Red,
    Green,
    Blue,
    White,
}

/// Which colour marks the vehicle and which the target.
#[derive(Clone, Copy, Debug, PartialEq, Eq, Structural)]
pub struct TeamColors {
    pub car: Color,
    pub target: Color,
}

/// What the vehicle is busy with. It changes only when a step ends.
#[derive(Clone, Copy, Debug, PartialEq, Eq, Structural)]
pub enum State {
    /// Correcting the heading by short stretches back and forth, until the
    /// vehicle faces the target.
    Turning,
    /// Closing in on the target.
    Approaching,
    /// Resting on the target until it moves away.
    Idle,
}

/// Why the approach routine returned.
#[derive(Clone, Copy, Debug, PartialEq, Eq, Structural)]
pub enum Hint {
    /// The vehicle reached the target.
    TargetWasHit,
    /// The heading drifted too far to go on.
    OrientationIsOff,
}

/// How a step ended.
#[derive(Clone, Copy, Debug, PartialEq, Eq, Structural)]
pub enum Outcome {
    /// A turn found the heading within the tolerance.
    Aligned,
    /// A turn steered the vehicle by a share of its heading error.
    Steered,
    /// The approach routine returned.
    Approached(Hint),
    /// The idle routine returned: the target moved away.
    TargetMoved,
}

/// The sense of a straight stretch.
#[derive(Clone, Copy, Debug, PartialEq, Eq, Structural)]
pub enum Direction {
    Forward,
    Backward,
}

/// How long each stretch of a turn lasts, in milliseconds.
pub const STRETCH_MILLIS: u64 = 1000;

/// The work that the machine asks its driver to do next.
#[derive(Clone, Copy, Debug, PartialEq, Eq, Structural)]
pub enum Action {
    /// Locate the vehicle and the target in the current frame.
    Sight(TeamColors),
    /// Drive straight at constant speed for so many milliseconds.
    Drive(Direction, u64),
    /// Measure the angle of a rotation, in microradians.
    Measure(Rotation),
    /// Set the steering to a deflection.
    Steer(Angle),
    /// Run the approach routine.
    Approach(TeamColors),
    /// Run the idle routine.
    Idle(TeamColors),
    /// Nothing: the step is over.
    Finish,
    /// Nothing: the step was given up.
    Abort(Fault),
}

/// What the driver reports to the machine.
#[derive(Clone, Copy, Debug, PartialEq, Eq, Structural)]
pub enum Event {
    /// A new step is to begin.
    Begin,
    /// The detector located the vehicle, in the first box, and the target, in
    /// the second.
    Sighted(Region, Region),
    /// The angle asked for measures so many microradians.
    Measured(i64),
    /// The drive command, the steering command or the idle routine returned.
    Completed,
    /// The approach routine returned.
    Approached(Hint),
    /// The work asked for failed.
    Failed,
}

/// How far a step has come: the work whose outcome is awaited.
#[derive(Clone, Copy, Debug, PartialEq, Eq, Structural)]
pub enum Stage {
    /// No step is under way.
    Rest,
    /// A turn awaits its first look.
    FirstSight,
    /// A turn awaits the end of its stretch backward.
    Reverse { before: MapState },
    /// A turn awaits its second look.
    SecondSight { before: MapState },
    /// A turn awaits the measure of its heading error.
    Measure,
    /// A turn awaits the steering to take the deflection.
    Steer,
    /// A turn awaits the end of its stretch forward.
    Advance,
    /// A turn awaits the steering to return to straight.
    Straighten,
    /// The approach routine runs.
    Approach,
    /// The idle routine runs.
    Hold,
}

impl State {
    /// The state that follows `self` when a step ends with `outcome`. An
    /// outcome that no step of `self` ends with changes nothing.
    pub open spec fn after(self, outcome: Outcome) -> State {
        match (self, outcome) {
            (State::Turning, Outcome::Aligned) => State::Approaching,
            (State::Turning, Outcome::Steered) => State::Turning,
            (State::Approaching, Outcome::Approached(Hint::TargetWasHit)) => State::Idle,
            (State::Approaching, Outcome::Approached(Hint::OrientationIsOff)) => State::Turning,
            (State::Idle, Outcome::TargetMoved) => State::Turning,
            _ => self,
        }
    }

    /// The state that follows `self` when a step ends with `outcome`.
    pub fn next(self, outcome: Outcome) -> (next: State)
        ensures
            next == self.after(outcome),
    {
        match self {
            State::Turning => match outcome {
                Outcome::Aligned => State::Approaching,
                _ => State::Turning,
            },
            State::Approaching => match outcome {
                Outcome::Approached(Hint::TargetWasHit) => State::Idle,
                Outcome::Approached(Hint::OrientationIsOff) => State::Turning,
                _ => State::Approaching,
            },
            State::Idle => match outcome {
                Outcome::TargetMoved => State::Turning,
                _ => State::Idle,
            },
        }
    }
}

impl Stage {
    /// The fault that the work awaited at this stage ends in when it does not
    /// deliver. At rest no work is awaited.
    pub open spec fn failure(self) -> Option<Fault> {
        match self {
            Stage::Rest => None,
            Stage::FirstSight | Stage::SecondSight { .. } | Stage::Measure => Some(Fault::Perception),
            Stage::Reverse { .. } | Stage::Steer | Stage::Advance | Stage::Straighten => Some(
                Fault::Actuation,
            ),
            Stage::Approach | Stage::Hold => Some(Fault::Collaborator),
        }
    }

    /// Whether `event` is the outcome that the work awaited at this stage
    /// delivers.
    pub open spec fn awaits(self, event: Event) -> bool {
        match self {
            Stage::Rest => event is Begin,
            Stage::FirstSight | Stage::SecondSight { .. } => event is Sighted,
            Stage::Measure => event is Measured,
            Stage::Reverse { .. } | Stage::Steer | Stage::Advance | Stage::Straighten
            | Stage::Hold => event is Completed,
            Stage::Approach => event is Approached,
        }
    }

    /// Whether this stage is part of a step of `state`.
    pub open spec fn belongs_to(self, state: State) -> bool {
        match self {
            Stage::Rest => true,
            Stage::Approach => state is Approaching,
            Stage::Hold => state is Idle,
            _ => state is Turning,
        }
    }
}

/// The machine: the state, and how far the step under way has come.
#[derive(Clone, Copy, Debug, PartialEq, Eq, Structural)]
pub struct Pilot {
    /// The colours handed to the detector and to the routines.
    pub colors: TeamColors,
    /// What the vehicle is busy with.
    pub state: State,
    /// The work awaited within the step under way.
    pub stage: Stage,
}

impl Pilot {
    /// Whether the step under way is one of the state. [`Pilot::new`] makes
    /// such a machine and [`Pilot::execute`] keeps it so.
    pub open spec fn wf(self) -> bool {
        self.stage.belongs_to(self.state)
    }

    /// The machine moved on to `stage`, asking for `action`.
    pub open spec fn awaiting(self, stage: Stage, action: Action) -> (Pilot, Action) {
        (Pilot { stage, ..self }, action)
    }

    /// The machine at the end of a step with `outcome`.
    pub open spec fn finished(self, outcome: Outcome) -> (Pilot, Action) {
        (Pilot { state: self.state.after(outcome), stage: Stage::Rest, ..self }, Action::Finish)
    }

    /// The machine after it gave the step up: at rest, in the state it was in.
    pub open spec fn aborted(self, fault: Fault) -> (Pilot, Action) {
        (Pilot { stage: Stage::Rest, ..self }, Action::Abort(fault))
    }

    /// The first move of a step: a turn begins with a look, the other two
    /// states hand over to their routine.
    pub open spec fn begun(self) -> (Pilot, Action) {
        match self.state {
            State::Turning => self.awaiting(Stage::FirstSight, Action::Sight(self.colors)),
            State::Approaching => self.awaiting(Stage::Approach, Action::Approach(self.colors)),
            State::Idle => self.awaiting(Stage::Hold, Action::Idle(self.colors)),
        }
    }

    /// The move that follows when the awaited work delivered `event`.
    pub open spec fn advanced(self, event: Event) -> (Pilot, Action) {
        match (self.stage, event) {
            (Stage::Rest, _) => self.begun(),
            (Stage::FirstSight, Event::Sighted(car, target)) => self.awaiting(
                Stage::Reverse { before: MapState::inferred(car, target) },
                Action::Drive(Direction::Backward, STRETCH_MILLIS),
            ),
            (Stage::Reverse { before }, _) => self.awaiting(
                Stage::SecondSight { before },
                Action::Sight(self.colors),
            ),
            (Stage::SecondSight { before }, Event::Sighted(car, target)) => self.awaiting(
                Stage::Measure,
                Action::Measure(MapState::corrected(before, MapState::inferred(car, target))),
            ),
            (Stage::Measure, Event::Measured(correction)) => match assessed(correction as int) {
                Ok(Verdict::Aligned) => self.finished(Outcome::Aligned),
                Ok(Verdict::Steer(angle)) => self.awaiting(Stage::Steer, Action::Steer(angle)),
                Err(fault) => self.aborted(fault),
            },
            (Stage::Steer, _) => self.awaiting(
                Stage::Advance,
                Action::Drive(Direction::Forward, STRETCH_MILLIS),
            ),
            (Stage::Advance, _) => self.awaiting(
                Stage::Straighten,
                Action::Steer(Angle::of(0)),
            ),
            (Stage::Straighten, _) => self.finished(Outcome::Steered),
            (Stage::Approach, Event::Approached(hint)) => self.finished(Outcome::Approached(hint)),
            (Stage::Hold, _) => self.finished(Outcome::TargetMoved),
            _ => (self, Action::Finish),
        }
    }

    /// The machine after `event`, and the work it then asks for.
    ///
    /// The event that the stage awaits moves the machine on. Any other event
    /// means that the awaited work did not deliver: the step is given up with
    /// the fault of that work. At rest, where no work is awaited, such an
    /// event changes nothing.
    pub open spec fn react(self, event: Event) -> (Pilot, Action) {
        if self.stage.awaits(event) {
            self.advanced(event)
        } else {
            match self.stage.failure() {
                Some(fault) => self.aborted(fault),
                None => (self, Action::Finish),
            }
        }
    }

    /// A machine at rest, about to turn.
    pub fn new(colors: TeamColors) -> (pilot: Pilot)
        ensures
            pilot == (Pilot { colors, state: State::Turning, stage: Stage::Rest }),
            pilot.wf(),
    {
        Pilot { colors, state: State::Turning, stage: Stage::Rest }
    }

    fn await_next(&mut self, stage: Stage, action: Action) -> (asked: Action)
        ensures
            (*final(self), asked) == old(self).awaiting(stage, action),
    {
        self.stage = stage;
        action
    }

    fn finish(&mut self, outcome: Outcome) -> (asked: Action)
        ensures
            (*final(self), asked) == old(self).finished(outcome),
    {
        self.state = self.state.next(outcome);
        self.stage = Stage::Rest;
        Action::Finish
    }

    fn abort(&mut self, fault: Fault) -> (asked: Action)
        ensures
            (*final(self), asked) == old(self).aborted(fault),
    {
        self.stage = Stage::Rest;
        Action::Abort(fault)
    }

    fn begin(&mut self) -> (asked: Action)
        ensures
            (*final(self), asked) == old(self).begun(),
    {
        match self.state {
            State::Turning => self.await_next(Stage::FirstSight, Action::Sight(self.colors)),
            State::Approaching => self.await_next(Stage::Approach, Action::Approach(self.colors)),
            State::Idle => self.await_next(Stage::Hold, Action::Idle(self.colors)),
        }
    }

    /// Takes the outcome of the work asked for last and answers with the work
    /// to do next.
    ///
    /// The driver begins each step with [`Event::Begin`], performs every
    /// action it is handed and reports its outcome, until it is handed
    /// [`Action::Finish`] or [`Action::Abort`]. The state changes only with
    /// [`Action::Finish`]; a look that fails gives the step up with a
    /// perception fault.
    pub fn execute(&mut self, event: Event) -> (asked: Action)
        ensures
            (*final(self), asked) == old(self).react(event),
            final(self).colors == old(self).colors,
            final(self).state != old(self).state ==> asked is Finish,
            asked is Finish || asked is Abort <==> final(self).stage is Rest,
            old(self).wf() ==> final(self).wf(),
            (old(self).stage is FirstSight || old(self).stage is SecondSight) && !(event is Sighted)
                ==> asked == Action::Abort(Fault::Perception),
            asked is Abort ==> final(self).state == old(self).state,
    {
        match self.stage {
            Stage::Rest => match event {
                Event::Begin => self.begin(),
                _ => Action::Finish,
            },
            Stage::FirstSight => match event {
                Event::Sighted(car, target) => {
                    let before = MapState::infer(car, target);
                    self.await_next(
                        Stage::Reverse { before },
                        Action::Drive(Direction::Backward, STRETCH_MILLIS),
                    )
                },
                _ => self.abort(Fault::Perception),
            },
            Stage::Reverse { before } => match event {
                Event::Completed => self.await_next(
                    Stage::SecondSight { before },
                    Action::Sight(self.colors),
                ),
                _ => self.abort(Fault::Actuation),
            },
            Stage::SecondSight { before } => match event {
                Event::Sighted(car, target) => {
                    let after = MapState::infer(car, target);
                    let error = MapState::correction(&before, &after);
                    self.await_next(Stage::Measure, Action::Measure(error))
                },
                _ => self.abort(Fault::Perception),
            },
            Stage::Measure => match event {
                Event::Measured(correction) => match assess(correction) {
                    Ok(Verdict::Aligned) => self.finish(Outcome::Aligned),
                    Ok(Verdict::Steer(angle)) => self.await_next(
                        Stage::Steer,
                        Action::Steer(angle),
                    ),
                    Err(fault) => self.abort(fault),
                },
                _ => self.abort(Fault::Perception),
            },
            Stage::Steer => match event {
                Event::Completed => self.await_next(
                    Stage::Advance,
                    Action::Drive(Direction::Forward, STRETCH_MILLIS),
                ),
                _ => self.abort(Fault::Actuation),
            },
            Stage::Advance => match event {
                Event::Completed => self.await_next(
                    Stage::Straighten,
                    Action::Steer(Angle::straight()),
                ),
                _ => self.abort(Fault::Actuation),
            },
            Stage::Straighten => match event {
                Event::Completed => self.finish(Outcome::Steered),
                _ => self.abort(Fault::Actuation),
            },
            Stage::Approach => match event {
                Event::Approached(hint) => self.finish(Outcome::Approached(hint)),
                _ => self.abort(Fault::Collaborator),
            },
            Stage::Hold => match event {
                Event::Completed => self.finish(Outcome::TargetMoved),
                _ => self.abort(Fault::Collaborator),
            },
        }
    }
}

} // verus!
