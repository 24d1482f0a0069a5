//! Whole steps: what the machine has become when the driver has carried a
//! step through, and after how many turns the vehicle faces the target.

use crate::fault::Fault;
use crate::machine::{
    Action, Direction, Event, Hint, Pilot, Stage, State, TeamColors, STRETCH_MILLIS,
};
use crate::perception::{MapState, Region};
use crate::steering::{
    damped, lemma_damped_shrinks, steerable, within_tolerance, Angle, DAMPING, TOLERANCE,
};
use vstd::prelude::*;

verus! {

/// The two boxes of one look: the vehicle's, then the target's.
pub type Look = (Region, Region);

impl Pilot {
    /// The machine after one turn in which every command completes: the
    /// camera shows `first`, then after the stretch backward `second`, and the
    /// heading error measures `correction` microradians.
    pub open spec fn turn(self, first: Look, second: Look, correction: i64) -> Pilot {
        let sighted = self.react(Event::Begin).0.react(Event::Sighted(first.0, first.1)).0;
        let resighted = sighted.react(Event::Completed).0.react(
            Event::Sighted(second.0, second.1),
        ).0;
        let measured = resighted.react(Event::Measured(correction)).0;
        if measured.stage is Rest {
            measured
        } else {
            measured.react(Event::Completed).0.react(Event::Completed).0.react(
                Event::Completed,
            ).0
        }
    }

    /// The work that the machine asks for in the course of [`Pilot::turn`],
    /// in order.
    pub open spec fn turn_asks(self, first: Look, second: Look, correction: i64) -> Seq<Action> {
        let (begun, look) = self.react(Event::Begin);
        let (sighted, reverse) = begun.react(Event::Sighted(first.0, first.1));
        let (reversed, look_again) = sighted.react(Event::Completed);
        let (resighted, measure) = reversed.react(Event::Sighted(second.0, second.1));
        let (measured, steer) = resighted.react(Event::Measured(correction));
        if measured.stage is Rest {
            seq![look, reverse, look_again, measure, steer]
        } else {
            let (steered, advance) = measured.react(Event::Completed);
            let (advanced, straighten) = steered.react(Event::Completed);
            let finish = advanced.react(Event::Completed).1;
            seq![look, reverse, look_again, measure, steer, advance, straighten, finish]
        }
    }

    /// The machine after one step in which the approach routine returns
    /// `hint`.
    pub open spec fn approach(self, hint: Hint) -> Pilot {
        self.react(Event::Begin).0.react(Event::Approached(hint)).0
    }

    /// The machine after one step in which the idle routine returns.
    pub open spec fn idle(self) -> Pilot {
        self.react(Event::Begin).0.react(Event::Completed).0
    }

    /// The machine after at most `turns` turns, as long as it is turning. The
    /// first turn measures a heading error of `correction` microradians and
    /// each further one the damped error of the turn before; turn `k` sees the
    /// looks `looks(2 * k)` and `looks(2 * k + 1)`.
    pub open spec fn turns(self, looks: spec_fn(nat) -> Look, correction: i64, turns: nat) -> Pilot
        decreases turns,
    {
        if turns == 0 || !(self.state is Turning) {
            self
        } else {
            self.turn(looks(0), looks(1), correction).turns(
                |k: nat| looks(k + 2),
                damped(correction as int) as i64,
                (turns - 1) as nat,
            )
        }
    }
}

/// The work of a turn that sees `before` and then `after` and measures a
/// heading error of `correction` microradians, in order.
pub open spec fn turn_script(
    colors: TeamColors,
    before: MapState,
    after: MapState,
    correction: int,
) -> Seq<Action> {
    let measure = seq![
        Action::Sight(colors),
        Action::Drive(Direction::Backward, STRETCH_MILLIS),
        Action::Sight(colors),
        Action::Measure(MapState::corrected(before, after)),
    ];
    if within_tolerance(correction) {
        measure + seq![Action::Finish]
    } else if steerable(damped(correction)) {
        measure + seq![
            Action::Steer(Angle::of(damped(correction))),
            Action::Drive(Direction::Forward, STRETCH_MILLIS),
            Action::Steer(Angle::of(0)),
            Action::Finish,
        ]
    } else {
        measure + seq![Action::Abort(Fault::AngleOutOfRange)]
    }
}

/// The number of turns after which a vehicle faces the target, where the
/// first turn measures a heading error of `correction` microradians and each
/// turn leaves the damped error behind.
pub open spec fn turns_to_align(correction: int) -> nat
    decreases
        if correction >= 0 {
            correction
        } else {
            -correction
        },
{
    if within_tolerance(correction) {
        1
    } else {
        1 + turns_to_align(damped(correction))
    }
}

/// A turn ends in `Approaching` where the heading error is within the
/// tolerance and in `Turning` where it is not, whatever the camera shows. The
/// machine is at rest again either way.
pub proof fn lemma_turn(pilot: Pilot, first: Look, second: Look, correction: i64)
    requires
        pilot.stage is Rest,
        pilot.state is Turning,
    ensures
        pilot.turn(first, second, correction) == (Pilot {
            state: if within_tolerance(correction as int) {
                State::Approaching
            } else {
                State::Turning
            },
            ..pilot
        }),
{
}

/// What a turn asks for, in order: a look, a stretch backward, a second look
/// and the measure of the heading error between the two looks. Within the
/// tolerance the turn is over. Beyond it the turn goes on with the damped
/// deflection, a stretch forward and the steering straight again, or is given
/// up where the steering cannot take the deflection.
pub proof fn lemma_turn_asks(pilot: Pilot, first: Look, second: Look, correction: i64)
    requires
        pilot.stage is Rest,
        pilot.state is Turning,
    ensures
        pilot.turn_asks(first, second, correction) == turn_script(
            pilot.colors,
            MapState::inferred(first.0, first.1),
            MapState::inferred(second.0, second.1),
            correction as int,
        ),
{
    assert(pilot.turn_asks(first, second, correction) =~= turn_script(
        pilot.colors,
        MapState::inferred(first.0, first.1),
        MapState::inferred(second.0, second.1),
        correction as int,
    ));
}

/// A step of approach ends in `Idle` where the target was hit and in
/// `Turning` where the heading was lost.
pub proof fn lemma_approach(pilot: Pilot, hint: Hint)
    requires
        pilot.stage is Rest,
        pilot.state is Approaching,
    ensures
        pilot.react(Event::Begin).1 == Action::Approach(pilot.colors),
        pilot.approach(hint) == (Pilot {
            state: match hint {
                Hint::TargetWasHit => State::Idle,
                Hint::OrientationIsOff => State::Turning,
            },
            ..pilot
        }),
{
}

/// A step of idling ends in `Turning`.
pub proof fn lemma_idle(pilot: Pilot)
    requires
        pilot.stage is Rest,
        pilot.state is Idle,
    ensures
        pilot.react(Event::Begin).1 == Action::Idle(pilot.colors),
        pilot.idle() == (Pilot { state: State::Turning, ..pilot }),
{
}

/// Where the detector fails at either look of a turn, the step is given up
/// with a perception fault and the state stays as it was.
pub proof fn lemma_lost_sight_keeps_state(pilot: Pilot, event: Event)
    requires
        pilot.stage is FirstSight || pilot.stage is SecondSight,
        !(event is Sighted),
    ensures
        pilot.react(event) == (Pilot { stage: Stage::Rest, ..pilot }, Action::Abort(Fault::Perception)),
{
}

/// Whatever the event, the state changes only as a step ends, and a step that
/// is given up leaves it as it was.
pub proof fn lemma_state_changes_at_the_end(pilot: Pilot, event: Event)
    ensures
        pilot.react(event).0.state != pilot.state ==> pilot.react(event).1 is Finish,
        pilot.react(event).0.colors == pilot.colors,
        pilot.wf() ==> pilot.react(event).0.wf(),
{
}

/// Turning converges: where each turn measures the damped error of the turn
/// before, the machine is in `Approaching` after exactly
/// `turns_to_align(correction)` turns, and stays turning until then.
pub proof fn lemma_turning_converges(
    pilot: Pilot,
    looks: spec_fn(nat) -> Look,
    correction: i64,
    turns: nat,
)
    requires
        pilot.stage is Rest,
        pilot.state is Turning,
    ensures
        turns < turns_to_align(correction as int) ==> pilot.turns(looks, correction, turns).state
            is Turning,
        turns >= turns_to_align(correction as int) ==> pilot.turns(looks, correction, turns).state
            is Approaching,
        pilot.turns(looks, correction, turns).stage is Rest,
    decreases turns,
{
    if turns > 0 {
        let turned = pilot.turn(looks(0), looks(1), correction);
        lemma_turn(pilot, looks(0), looks(1), correction);
        lemma_damped_shrinks(correction as int);
        if within_tolerance(correction as int) {
            assert(turned.turns(
                |k: nat| looks(k + 2),
                damped(correction as int) as i64,
                (turns - 1) as nat,
            ) == turned);
        } else {
            lemma_turning_converges(
                turned,
                |k: nat| looks(k + 2),
                damped(correction as int) as i64,
                (turns - 1) as nat,
            );
        }
    }
}

/// The largest heading error, in microradians, that `turns` turns overcome,
/// for one turn or more.
pub open spec fn reach(turns: nat) -> int
    decreases turns,
{
    if turns <= 1 {
        TOLERANCE as int
    } else {
        DAMPING * reach((turns - 1) as nat) + (DAMPING - 1)
    }
}

/// A heading error needs at most `turns` turns exactly where its magnitude is
/// at most `reach(turns)`: each further turn takes on errors five times as
/// large.
pub proof fn lemma_turns_to_align(correction: int, turns: nat)
    requires
        turns >= 1,
    ensures
        turns_to_align(correction) <= turns <==> -reach(turns) <= correction <= reach(turns),
    decreases turns,
{
    if !within_tolerance(correction) {
        if turns >= 2 {
            lemma_reach_grows((turns - 1) as nat);
            lemma_turns_to_align(damped(correction), (turns - 1) as nat);
        } else {
            assert(turns_to_align(damped(correction)) >= 1);
        }
    } else {
        lemma_reach_grows(turns);
    }
}

proof fn lemma_reach_grows(turns: nat)
    ensures
        reach(turns) >= TOLERANCE,
    decreases turns,
{
    if turns >= 2 {
        lemma_reach_grows((turns - 1) as nat);
    }
}

/// No heading error whose damped share the steering can take needs more than
/// five turns.
pub proof fn lemma_turns_to_align_bound(correction: int)
    requires
        within_tolerance(correction) || steerable(damped(correction)),
    ensures
        1 <= turns_to_align(correction) <= 5,
{
    reveal_with_fuel(reach, 6);
    lemma_turns_to_align(correction, 5);
}

} // verus!
