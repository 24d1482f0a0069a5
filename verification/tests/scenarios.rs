use pursuit::{
    Action, Angle, Color, Direction, Event, Fault, Hint, Pilot, Region, Rotation, Stage, State,
    TeamColors,
};
use std::f64::consts::PI;

const COLORS: TeamColors = TeamColors { car: Color::Blue, target: Color::Green };

fn point(x: i32, y: i32) -> Region {
    Region { x_min: x, y_min: y, x_max: x, y_max: y }
}

/// The angle of a rotation in microradians, rounded away from zero.
fn microradians(rotation: Rotation) -> i64 {
    let scaled = (rotation.sine as f64).atan2(rotation.cosine as f64) * 1_000_000.0;
    if scaled >= 0.0 {
        scaled.ceil() as i64
    } else {
        scaled.floor() as i64
    }
}

/// Carries one step through on a world in which every command completes: the
/// camera shows the looks in order, and angles are measured as they are.
/// Returns the actions that the pilot asked for.
fn step(pilot: &mut Pilot, looks: &[(Region, Region)], hint: Hint) -> Vec<Action> {
    let mut looks = looks.iter();
    let mut asked = Vec::new();
    let mut event = Event::Begin;
    loop {
        let action = pilot.execute(event);
        asked.push(action);
        event = match action {
            Action::Finish | Action::Abort(_) => return asked,
            Action::Sight(_) => match looks.next() {
                Some(&(car, target)) => Event::Sighted(car, target),
                None => Event::Failed,
            },
            Action::Measure(rotation) => Event::Measured(microradians(rotation)),
            Action::Drive(_, _) | Action::Steer(_) | Action::Idle(_) => Event::Completed,
            Action::Approach(_) => Event::Approached(hint),
        };
    }
}

/// Two looks around a stretch of `(0, 1000)` that ends at the origin, with the
/// target at `angle` radians, positive clockwise, from the heading so shown.
fn looks_at(angle: f64) -> [(Region, Region); 2] {
    let far = 1_000_000.0;
    let target = point((far * angle.sin()).round() as i32, (far * angle.cos()).round() as i32);
    [(point(0, -1000), target), (point(0, 0), target)]
}

#[test]
fn perpendicular_target_steers_by_a_tenth_of_pi_and_keeps_turning() {
    let mut pilot = Pilot::new(COLORS);
    let looks = [(point(0, -1), point(10, 0)), (point(0, 0), point(10, 0))];
    let asked = step(&mut pilot, &looks, Hint::TargetWasHit);
    let quarter = Rotation { sine: 10, cosine: 0 };
    let correction = microradians(quarter);
    assert!((correction as f64 / 1e6 - PI / 2.0).abs() < 1e-6);
    let steering = match asked[4] {
        Action::Steer(angle) => angle,
        other => panic!("no steering but {:?}", other),
    };
    assert_eq!(steering.into_inner(), 314_159);
    assert!((steering.into_inner() as f64 / 1e6 - PI / 10.0).abs() < 1e-6);
    assert_eq!(
        asked,
        vec![
            Action::Sight(COLORS),
            Action::Drive(Direction::Backward, 1000),
            Action::Sight(COLORS),
            Action::Measure(quarter),
            Action::Steer(steering),
            Action::Drive(Direction::Forward, 1000),
            Action::Steer(Angle::straight()),
            Action::Finish,
        ]
    );
    assert_eq!(pilot.state, State::Turning);
    assert_eq!(pilot.stage, Stage::Rest);
}

#[test]
fn nearly_aligned_target_starts_the_approach() {
    let mut pilot = Pilot::new(COLORS);
    let looks = [(point(-1000, 0), point(1000, 1)), (point(0, 0), point(1000, 1))];
    let asked = step(&mut pilot, &looks, Hint::TargetWasHit);
    let slight = Rotation { sine: -1000, cosine: 1_000_000 };
    assert_eq!(microradians(slight).abs(), 1000);
    assert_eq!(
        asked,
        vec![
            Action::Sight(COLORS),
            Action::Drive(Direction::Backward, 1000),
            Action::Sight(COLORS),
            Action::Measure(slight),
            Action::Finish,
        ]
    );
    assert_eq!(pilot.state, State::Approaching);
    assert_eq!(pilot.stage, Stage::Rest);
}

#[test]
fn approach_ends_in_idle_or_in_turning() {
    let mut hit = Pilot { colors: COLORS, state: State::Approaching, stage: Stage::Rest };
    assert_eq!(
        step(&mut hit, &[], Hint::TargetWasHit),
        vec![Action::Approach(COLORS), Action::Finish]
    );
    assert_eq!(hit.state, State::Idle);
    let mut off = Pilot { colors: COLORS, state: State::Approaching, stage: Stage::Rest };
    assert_eq!(
        step(&mut off, &[], Hint::OrientationIsOff),
        vec![Action::Approach(COLORS), Action::Finish]
    );
    assert_eq!(off.state, State::Turning);
}

#[test]
fn idle_ends_in_turning() {
    let mut pilot = Pilot { colors: COLORS, state: State::Idle, stage: Stage::Rest };
    assert_eq!(
        step(&mut pilot, &[], Hint::TargetWasHit),
        vec![Action::Idle(COLORS), Action::Finish]
    );
    assert_eq!(pilot.state, State::Turning);
    assert_eq!(pilot.stage, Stage::Rest);
}

#[test]
fn detector_failure_at_the_first_look_leaves_the_state() {
    let mut pilot = Pilot::new(COLORS);
    let asked = step(&mut pilot, &[], Hint::TargetWasHit);
    assert_eq!(asked, vec![Action::Sight(COLORS), Action::Abort(Fault::Perception)]);
    assert_eq!(pilot.state, State::Turning);
    assert_eq!(pilot.stage, Stage::Rest);
}

#[test]
fn detector_failure_at_the_second_look_leaves_the_state() {
    let mut pilot = Pilot::new(COLORS);
    let asked = step(&mut pilot, &[(point(0, -1), point(10, 0))], Hint::TargetWasHit);
    assert_eq!(
        asked,
        vec![
            Action::Sight(COLORS),
            Action::Drive(Direction::Backward, 1000),
            Action::Sight(COLORS),
            Action::Abort(Fault::Perception),
        ]
    );
    assert_eq!(pilot.state, State::Turning);
    assert_eq!(pilot.stage, Stage::Rest);
}

#[test]
fn turning_converges_when_each_correction_is_a_fifth_of_the_last() {
    let mut pilot = Pilot::new(COLORS);
    let mut angle = 0.5;
    let mut turns = 0;
    let mut measured = Vec::new();
    while pilot.state == State::Turning {
        assert!(turns < 10);
        for action in step(&mut pilot, &looks_at(angle), Hint::TargetWasHit) {
            assert!(!matches!(action, Action::Abort(_)));
            if let Action::Measure(rotation) = action {
                measured.push(microradians(rotation));
            }
        }
        angle /= 5.0;
        turns += 1;
    }
    assert_eq!(pilot.state, State::Approaching);
    assert_eq!(turns, 4);
    assert_eq!(measured.len(), 4);
    for (correction, expected) in measured.iter().zip([500_000.0, 100_000.0, 20_000.0, 4_000.0]) {
        assert!((*correction as f64 - expected).abs() < 2.0);
    }
}

#[test]
fn turning_converges_from_any_correction_within_five_turns() {
    for first in [5_000_004_i64, -5_000_004, 3_141_593, -3_141_592, 1_250_125, 10_001, 0] {
        let mut pilot = Pilot::new(COLORS);
        let mut correction = first;
        let mut turns = 0;
        while pilot.state == State::Turning {
            assert!(turns < 5);
            let script = [
                Event::Begin,
                Event::Sighted(point(0, 0), point(0, 0)),
                Event::Completed,
                Event::Sighted(point(0, 0), point(0, 0)),
                Event::Measured(correction),
                Event::Completed,
                Event::Completed,
                Event::Completed,
            ];
            for event in script {
                let asked = pilot.execute(event);
                assert!(!matches!(asked, Action::Abort(_)));
                if asked == Action::Finish {
                    break;
                }
            }
            assert_eq!(pilot.stage, Stage::Rest);
            correction /= 5;
            turns += 1;
        }
        assert_eq!(pilot.state, State::Approaching);
    }
}

#[test]
fn a_whole_round_of_the_three_states() {
    let mut pilot = Pilot::new(COLORS);
    step(&mut pilot, &looks_at(0.3), Hint::TargetWasHit);
    assert_eq!(pilot.state, State::Turning);
    step(&mut pilot, &looks_at(0.004), Hint::TargetWasHit);
    assert_eq!(pilot.state, State::Approaching);
    step(&mut pilot, &[], Hint::OrientationIsOff);
    assert_eq!(pilot.state, State::Turning);
    step(&mut pilot, &looks_at(-0.002), Hint::TargetWasHit);
    assert_eq!(pilot.state, State::Approaching);
    step(&mut pilot, &[], Hint::TargetWasHit);
    assert_eq!(pilot.state, State::Idle);
    step(&mut pilot, &[], Hint::TargetWasHit);
    assert_eq!(pilot.state, State::Turning);
}
