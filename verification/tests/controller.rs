use desk_control::controller::{
    move_to_target, FeedSample, MotionController, StepOutcome, ARRIVAL_TOLERANCE_UNITS,
};
use desk_control::error::DeskError;
use desk_control::protocol::{DeskCommand, Direction};

fn sample(height: u32) -> FeedSample {
    FeedSample { height, elapsed_ms: 50 }
}

#[test]
fn start_rejects_target_above_range() {
    // 1.30 m: immediately rejected before any motion
    assert_eq!(
        MotionController::start(13000, 11200),
        Err(DeskError::TargetHeightTooHigh(13000))
    );
}

#[test]
fn start_rejects_target_below_range() {
    assert_eq!(
        MotionController::start(6100, 11200),
        Err(DeskError::TargetHeightTooLow(6100))
    );
}

#[test]
fn start_accepts_range_endpoints() {
    assert!(MotionController::start(6200, 7000).is_ok());
    assert!(MotionController::start(12700, 7000).is_ok());
    let controller = MotionController::start(7400, 11200).unwrap();
    assert_eq!(controller.target, 7400);
    assert_eq!(controller.previous_height, 11200);
    assert!(!controller.will_move_up);
}

#[test]
fn seek_rejects_high_target_with_zero_writes() {
    // target 1.30 m: immediate bounds error, no commands issued
    let feed = vec![sample(11200), sample(11000)];
    let report = move_to_target(13000, 11200, &feed);
    assert_eq!(report.result, Err(DeskError::TargetHeightTooHigh(13000)));
    assert_eq!(report.commands.len(), 0);
    assert_eq!(report.steps_taken, 0);
}

#[test]
fn seek_rejects_low_target_with_zero_writes() {
    let feed = vec![sample(11200)];
    let report = move_to_target(6150, 11200, &feed);
    assert_eq!(report.result, Err(DeskError::TargetHeightTooLow(6150)));
    assert_eq!(report.commands.len(), 0);
    assert_eq!(report.steps_taken, 0);
}

#[test]
fn seek_descends_to_sitting_height() {
    // target 0.74 m from a standing 1.12 m: Down commands while the height
    // falls, then a stop within 3 mm of the target
    let feed = vec![
        sample(10700),
        sample(10200),
        sample(9700),
        sample(9200),
        sample(8700),
        sample(8200),
        sample(7700),
        sample(7420),
    ];
    let report = move_to_target(7400, 11200, &feed);
    assert_eq!(report.result, Ok(()));
    assert_eq!(report.steps_taken, 8);
    assert!(report.final_height >= 7370 && report.final_height <= 7430);
    // every move issued was downward, and the seek ended in a stop
    for c in &report.commands {
        assert!(matches!(c, DeskCommand::Stop | DeskCommand::Move(Direction::Down)));
    }
    assert_eq!(report.commands.first(), Some(&DeskCommand::Move(Direction::Down)));
    assert_eq!(report.commands.last(), Some(&DeskCommand::Stop));
}

#[test]
fn seek_rises_to_standing_height() {
    let feed = vec![sample(8000), sample(9000), sample(10000), sample(11000), sample(11180)];
    let report = move_to_target(11200, 7400, &feed);
    assert_eq!(report.result, Ok(()));
    assert_eq!(report.steps_taken, 5);
    assert_eq!(report.commands.last(), Some(&DeskCommand::Stop));
    assert_eq!(
        report.commands[0..4],
        [
            DeskCommand::Move(Direction::Up),
            DeskCommand::Move(Direction::Up),
            DeskCommand::Move(Direction::Up),
            DeskCommand::Move(Direction::Up)
        ]
    );
}

#[test]
fn seek_aborts_when_height_rises_while_seeking_down() {
    // seeking down, the desk rises 15 mm: obstacle protection kicked in
    let feed = vec![sample(11150), sample(11300), sample(11000)];
    let report = move_to_target(7400, 11200, &feed);
    assert_eq!(report.result, Err(DeskError::DeskMoveSafetyKickedIn));
    assert_eq!(report.steps_taken, 2);
    // a stop was issued on the aborting step itself
    assert_eq!(report.commands.last(), Some(&DeskCommand::Stop));
}

#[test]
fn seek_aborts_when_height_falls_while_seeking_up() {
    let feed = vec![sample(7600), sample(7450)];
    let report = move_to_target(11200, 7400, &feed);
    assert_eq!(report.result, Err(DeskError::DeskMoveSafetyKickedIn));
    assert_eq!(report.steps_taken, 2);
    assert_eq!(report.commands.last(), Some(&DeskCommand::Stop));
}

#[test]
fn seek_times_out_when_feed_ends_short_of_target() {
    let feed = vec![sample(8000), sample(9000)];
    let report = move_to_target(11200, 7400, &feed);
    assert_eq!(report.result, Err(DeskError::SeekTimedOut));
    assert_eq!(report.steps_taken, 2);
    assert_eq!(report.final_height, 9000);
    assert_eq!(
        report.commands,
        vec![DeskCommand::Move(Direction::Up), DeskCommand::Move(Direction::Up)]
    );
}

#[test]
fn step_arrival_boundary_is_three_millimeters() {
    // 30 units away: arrived
    let mut at_tolerance = MotionController::start(7400, 7500).unwrap();
    let plan = at_tolerance.step(7400 + ARRIVAL_TOLERANCE_UNITS, 50);
    assert_eq!(plan.outcome, StepOutcome::Arrived);
    assert_eq!(plan.commands.last(), Some(&DeskCommand::Stop));

    // 31 units away: still seeking (with stopping pressure applied)
    let mut outside = MotionController::start(7400, 7500).unwrap();
    let plan = outside.step(7400 + ARRIVAL_TOLERANCE_UNITS + 1, 50);
    assert_eq!(plan.outcome, StepOutcome::Continue);
    assert_eq!(plan.commands, vec![DeskCommand::Stop]);
}

#[test]
fn step_reversal_needs_more_than_ten_millimeters_left() {
    // rose 50 units while seeking down, but only 100 units from target:
    // final-approach jitter, no abort
    let mut near = MotionController::start(7400, 7450).unwrap();
    let plan = near.step(7500, 50);
    assert_eq!(plan.outcome, StepOutcome::Continue);

    // rose while seeking down with 101 units left: genuine reversal
    let mut far = MotionController::start(7400, 7450).unwrap();
    let plan = far.step(7501, 50);
    assert_eq!(plan.outcome, StepOutcome::SafetyAbort);
    assert_eq!(plan.commands, vec![DeskCommand::Stop]);
}

#[test]
fn step_instant_sample_applies_stopping_pressure() {
    // no time elapsed means an unbounded speed estimate: stop, no move
    let mut controller = MotionController::start(8000, 7000).unwrap();
    let plan = controller.step(7200, 0);
    assert_eq!(plan.outcome, StepOutcome::Continue);
    assert_eq!(plan.commands, vec![DeskCommand::Stop]);
}

#[test]
fn step_fast_sampling_applies_stopping_pressure() {
    // 200 units left after only 10 ms: remaining distance is below half
    // the speed estimate, so the move is suppressed for this cycle
    let mut controller = MotionController::start(8000, 7700).unwrap();
    let plan = controller.step(7800, 10);
    assert_eq!(plan.outcome, StepOutcome::Continue);
    assert_eq!(plan.commands, vec![DeskCommand::Stop]);
}

#[test]
fn step_normal_cadence_moves_toward_target() {
    let mut controller = MotionController::start(8000, 7700).unwrap();
    let plan = controller.step(7800, 50);
    assert_eq!(plan.outcome, StepOutcome::Continue);
    assert_eq!(plan.commands, vec![DeskCommand::Move(Direction::Up)]);
    // the sample becomes the new previous height
    assert_eq!(controller.previous_height, 7800);
}
