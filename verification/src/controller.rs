use vstd::prelude::*;

use crate::error::DeskError;
use crate::protocol::{DeskCommand, Direction};
use crate::units::{MAX_HEIGHT_UNITS, MIN_HEIGHT_UNITS};

verus! {

/// The desk reverses on its own when it detects an obstacle. A move against
/// the direction of travel only counts as such a safety reversal when the
/// remaining distance exceeds this threshold (10 mm); smaller wobble during
/// the final approach is jitter, not an obstacle.
pub const SAFETY_REVERSAL_UNITS: u32 = 100;

/// The seek ends successfully once the sampled height is within this
/// tolerance of the target (3 mm).
pub const ARRIVAL_TOLERANCE_UNITS: u32 = 30;

/// How long the control loop pauses between steps, so the transport is not
/// saturated.
pub const SEEK_SLEEP_MS: u64 = 50;

/// Magnitude of the distance between a target and a sampled height.
pub open spec fn abs_difference(target: u32, current: u32) -> int {
    if target >= current {
        target - current
    } else {
        current - target
    }
}

/// The desk moved opposite to the direction of travel while still far from
/// the target: its obstacle protection has kicked in and the seek must abort.
pub open spec fn safety_reversal(target: u32, previous: u32, current: u32, will_up: bool) -> bool {
    &&& ((current < previous && will_up) || (current > previous && !will_up))
    &&& abs_difference(target, current) > SAFETY_REVERSAL_UNITS
}

/// The sampled height is within the arrival tolerance of the target.
pub open spec fn arrival(target: u32, current: u32) -> bool {
    abs_difference(target, current) <= ARRIVAL_TOLERANCE_UNITS
}

/// The remaining distance is below `max(speed / 2, 10 mm)`, where the speed
/// estimate is `distance / elapsed_ms * 100` meters per second, so a stop is
/// issued this step to prevent overshoot. Written over height units with the
/// common positive factors multiplied out: distance `d` units over `e`
/// milliseconds gives `d < max(d * 50 / e, 100)`, hence
/// `d * e < max(d * 50, 100 * e)`. An instantaneous sample (`e == 0`) counts
/// as unbounded speed.
pub open spec fn anticipatory_stop(target: u32, current: u32, elapsed_ms: u64) -> bool {
    let diff = abs_difference(target, current);
    &&& diff != 0
    &&& (elapsed_ms == 0 || {
        let speed_term = diff * 50;
        let floor_term = 100 * (elapsed_ms as int);
        diff * (elapsed_ms as int) < (if speed_term >= floor_term {
            speed_term
        } else {
            floor_term
        })
    })
}

/// How one control step ends.
#[derive(Debug, Clone, Copy, PartialEq, Eq, Structural)]
pub enum StepOutcome {
    /// Keep seeking: sample again after the inter-step pause.
    Continue,
    /// The height is within tolerance; the seek succeeded.
    Arrived,
    /// The desk's obstacle protection reversed the motion; the seek aborts.
    SafetyAbort,
}

/// What one control step decided: the transport commands to issue, in order,
/// and whether the seek goes on.
pub struct StepPlan {
    pub commands: Vec<DeskCommand>,
    pub outcome: StepOutcome,
}

/// How one control step ends, as a function of the sampled height. A safety
/// reversal aborts; otherwise arrival within tolerance succeeds; otherwise
/// the seek continues.
pub open spec fn step_outcome_spec(
    target: u32,
    previous: u32,
    current: u32,
    will_up: bool,
) -> StepOutcome {
    if safety_reversal(target, previous, current, will_up) {
        StepOutcome::SafetyAbort
    } else if arrival(target, current) {
        StepOutcome::Arrived
    } else {
        StepOutcome::Continue
    }
}

/// The ordered commands one control step issues. An abort or an arrival
/// always ends in a stop; an anticipatory stop suppresses the move command
/// for that step.
pub open spec fn step_commands_spec(
    target: u32,
    previous: u32,
    current: u32,
    will_up: bool,
    elapsed_ms: u64,
) -> Seq<DeskCommand> {
    if safety_reversal(target, previous, current, will_up) {
        seq![DeskCommand::Stop]
    } else {
        let anti = anticipatory_stop(target, current, elapsed_ms);
        if arrival(target, current) {
            if anti {
                seq![DeskCommand::Stop, DeskCommand::Stop]
            } else {
                seq![DeskCommand::Stop]
            }
        } else if anti {
            seq![DeskCommand::Stop]
        } else if target > current {
            seq![DeskCommand::Move(Direction::Up)]
        } else {
            seq![DeskCommand::Move(Direction::Down)]
        }
    }
}

/// The closed-loop motion controller for one seek. It is constructed once
/// the target is validated, and fed one height sample per control step.
#[derive(Debug, Clone, Copy, PartialEq, Eq, Structural)]
pub struct MotionController {
    /// The validated target height, in height units.
    pub target: u32,
    /// The height sampled on the previous step (initially the starting
    /// height), against which a safety reversal is detected.
    pub previous_height: u32,
    /// Whether the seek travels upward, fixed when the seek starts.
    pub will_move_up: bool,
}

impl MotionController {
    /// Validate the target and set up a seek from the given starting height.
    /// A target outside the reachable range is rejected before any motion,
    /// with the bound it violates.
    pub fn start(target: u32, initial_height: u32) -> (r: Result<MotionController, DeskError>)
        ensures
            target > MAX_HEIGHT_UNITS ==> r == Err::<MotionController, DeskError>(
                DeskError::TargetHeightTooHigh(target),
            ),
            target < MIN_HEIGHT_UNITS ==> r == Err::<MotionController, DeskError>(
                DeskError::TargetHeightTooLow(target),
            ),
            MIN_HEIGHT_UNITS <= target <= MAX_HEIGHT_UNITS ==> r == Ok::<
                MotionController,
                DeskError,
            >(
                (MotionController {
                    target,
                    previous_height: initial_height,
                    will_move_up: target > initial_height,
                }),
            ),
    {
        if target > MAX_HEIGHT_UNITS {
            return Err(DeskError::TargetHeightTooHigh(target));
        }
        if target < MIN_HEIGHT_UNITS {
            return Err(DeskError::TargetHeightTooLow(target));
        }
        Ok(
            MotionController {
                target,
                previous_height: initial_height,
                will_move_up: target > initial_height,
            },
        )
    }

    /// Run one control step on a fresh height sample taken `elapsed_ms`
    /// after the previous one. The returned plan carries the transport
    /// commands to issue, in order, and the sample becomes the new previous
    /// height for the reversal check of the next step.
    pub fn step(&mut self, current_height: u32, elapsed_ms: u64) -> (plan: StepPlan)
        ensures
            plan.outcome == step_outcome_spec(
                old(self).target,
                old(self).previous_height,
                current_height,
                old(self).will_move_up,
            ),
            plan.commands@ == step_commands_spec(
                old(self).target,
                old(self).previous_height,
                current_height,
                old(self).will_move_up,
                elapsed_ms,
            ),
            final(self).target == old(self).target,
            final(self).will_move_up == old(self).will_move_up,
            final(self).previous_height == current_height,
    {
        let target = self.target;
        let previous = self.previous_height;
        let will_up = self.will_move_up;
        let diff_abs: u32 = if target >= current_height {
            target - current_height
        } else {
            current_height - target
        };

        let mut commands: Vec<DeskCommand> = Vec::new();
        let outcome: StepOutcome;

        let reversed = (current_height < previous && will_up) || (current_height > previous
            && !will_up);
        if reversed && diff_abs > SAFETY_REVERSAL_UNITS {
            commands.push(DeskCommand::Stop);
            outcome = StepOutcome::SafetyAbort;
        } else {
            let anticipatory: bool = if diff_abs == 0 {
                false
            } else if elapsed_ms == 0 {
                true
            } else {
                proof {
                    assert((diff_abs as int) * (elapsed_ms as int) <= 0xFFFF_FFFF * (
                    0xFFFF_FFFF_FFFF_FFFF as int)) by (nonlinear_arith)
                        requires
                            diff_abs <= 0xFFFF_FFFFu32,
                            elapsed_ms <= 0xFFFF_FFFF_FFFF_FFFFu64,
                    ;
                }
                let travel: u128 = (diff_abs as u128) * (elapsed_ms as u128);
                let speed_term: u128 = (diff_abs as u128) * 50;
                let floor_term: u128 = 100 * (elapsed_ms as u128);
                let bound: u128 = if speed_term >= floor_term {
                    speed_term
                } else {
                    floor_term
                };
                travel < bound
            };
            if anticipatory {
                commands.push(DeskCommand::Stop);
            }
            if diff_abs <= ARRIVAL_TOLERANCE_UNITS {
                commands.push(DeskCommand::Stop);
                outcome = StepOutcome::Arrived;
            } else if anticipatory {
                outcome = StepOutcome::Continue;
            } else {
                if target > current_height {
                    commands.push(DeskCommand::Move(Direction::Up));
                } else {
                    commands.push(DeskCommand::Move(Direction::Down));
                }
                outcome = StepOutcome::Continue;
            }
        }

        self.previous_height = current_height;
        proof {
            assert(commands@ =~= step_commands_spec(
                target,
                previous,
                current_height,
                will_up,
                elapsed_ms,
            ));
        }
        StepPlan { commands, outcome }
    }
}

/// One reading of the height feed: the sampled height and how many
/// milliseconds passed since the previous sample.
#[derive(Debug, Clone, Copy, PartialEq, Eq, Structural)]
pub struct FeedSample {
    pub height: u32,
    pub elapsed_ms: u64,
}

/// What a whole seek does over a feed of samples, one control step per
/// sample: the commands issued in order, the number of samples consumed,
/// and the result. A feed that runs out before arrival times out.
pub open spec fn seek_spec(
    target: u32,
    previous: u32,
    will_up: bool,
    samples: Seq<FeedSample>,
) -> (Seq<DeskCommand>, nat, Result<(), DeskError>)
    decreases samples.len(),
{
    if samples.len() == 0 {
        (Seq::<DeskCommand>::empty(), 0nat, Err::<(), DeskError>(DeskError::SeekTimedOut))
    } else {
        let s = samples[0];
        let commands = step_commands_spec(target, previous, s.height, will_up, s.elapsed_ms);
        match step_outcome_spec(target, previous, s.height, will_up) {
            StepOutcome::Continue => {
                let rest = seek_spec(target, s.height, will_up, samples.drop_first());
                (commands + rest.0, 1 + rest.1, rest.2)
            },
            StepOutcome::Arrived => (commands, 1nat, Ok::<(), DeskError>(())),
            StepOutcome::SafetyAbort => (
                commands,
                1nat,
                Err::<(), DeskError>(DeskError::DeskMoveSafetyKickedIn),
            ),
        }
    }
}

/// The feed never moves against the direction of travel: seeking up, no
/// sample is below its predecessor; seeking down, none is above it. The
/// chain starts at `previous`, the height the controller saw last.
pub open spec fn no_reversal(previous: u32, will_up: bool, samples: Seq<FeedSample>) -> bool
    decreases samples.len(),
{
    samples.len() == 0 || {
        let h = samples[0].height;
        &&& !(will_up && h < previous)
        &&& !(!will_up && h > previous)
        &&& no_reversal(h, will_up, samples.drop_first())
    }
}

/// The height the controller holds as "previous" when it reaches step `i`
/// of a feed: the starting height for the first step, else the sample
/// before.
pub open spec fn height_before(previous: u32, samples: Seq<FeedSample>, i: int) -> u32 {
    if i == 0 {
        previous
    } else {
        samples[i - 1].height
    }
}

/// Law: over a feed that never reverses against the direction of travel and
/// whose sample `k` lies within the arrival tolerance, a seek succeeds, in
/// at most `k + 1` steps, and the last command it issues is a stop.
pub proof fn lemma_monotonic_feed_arrives(
    target: u32,
    previous: u32,
    will_up: bool,
    samples: Seq<FeedSample>,
    k: int,
)
    requires
        no_reversal(previous, will_up, samples),
        0 <= k < samples.len(),
        arrival(target, samples[k].height),
    ensures
        seek_spec(target, previous, will_up, samples).2 == Ok::<(), DeskError>(()),
        seek_spec(target, previous, will_up, samples).1 <= k + 1,
        seek_spec(target, previous, will_up, samples).0.len() >= 1,
        seek_spec(target, previous, will_up, samples).0.last() == DeskCommand::Stop,
    decreases k,
{
    let s0 = samples[0];
    assert(!safety_reversal(target, previous, s0.height, will_up));
    if arrival(target, s0.height) {
        assert(seek_spec(target, previous, will_up, samples).0.last() == DeskCommand::Stop);
    } else {
        assert(k > 0);
        let rest = samples.drop_first();
        assert(rest[k - 1] == samples[k]);
        lemma_monotonic_feed_arrives(target, s0.height, will_up, rest, k - 1);
        let head = step_commands_spec(target, previous, s0.height, will_up, s0.elapsed_ms);
        let tail = seek_spec(target, s0.height, will_up, rest).0;
        assert((head + tail).last() == tail.last());
    }
}

/// Law: if every step before `k` lets the seek continue and the sample at
/// `k` is a safety reversal, the seek aborts at step `k + 1` with the
/// obstacle error, and the command issued on that very step is a stop.
pub proof fn lemma_reversal_aborts(
    target: u32,
    previous: u32,
    will_up: bool,
    samples: Seq<FeedSample>,
    k: int,
)
    requires
        0 <= k < samples.len(),
        forall|i: int|
            0 <= i < k ==> step_outcome_spec(
                target,
                height_before(previous, samples, i),
                samples[i].height,
                will_up,
            ) == StepOutcome::Continue,
        safety_reversal(target, height_before(previous, samples, k), samples[k].height, will_up),
    ensures
        seek_spec(target, previous, will_up, samples).2 == Err::<(), DeskError>(
            DeskError::DeskMoveSafetyKickedIn,
        ),
        seek_spec(target, previous, will_up, samples).1 == k + 1,
        seek_spec(target, previous, will_up, samples).0.len() >= 1,
        seek_spec(target, previous, will_up, samples).0.last() == DeskCommand::Stop,
    decreases k,
{
    let s0 = samples[0];
    if k == 0 {
        assert(step_outcome_spec(target, previous, s0.height, will_up)
            == StepOutcome::SafetyAbort);
    } else {
        assert(step_outcome_spec(target, height_before(previous, samples, 0), s0.height, will_up)
            == StepOutcome::Continue);
        let rest = samples.drop_first();
        assert forall|i: int| 0 <= i < k - 1 implies step_outcome_spec(
            target,
            height_before(s0.height, rest, i),
            rest[i].height,
            will_up,
        ) == StepOutcome::Continue by {
            assert(height_before(s0.height, rest, i) == height_before(previous, samples, i + 1));
            assert(rest[i] == samples[i + 1]);
            assert(step_outcome_spec(
                target,
                height_before(previous, samples, i + 1),
                samples[i + 1].height,
                will_up,
            ) == StepOutcome::Continue);
        }
        assert(height_before(s0.height, rest, k - 1) == height_before(previous, samples, k));
        assert(rest[k - 1] == samples[k]);
        lemma_reversal_aborts(target, s0.height, will_up, rest, k - 1);
        let head = step_commands_spec(target, previous, s0.height, will_up, s0.elapsed_ms);
        let tail = seek_spec(target, s0.height, will_up, rest).0;
        assert((head + tail).last() == tail.last());
    }
}

/// Everything a finished seek reports: the transport commands issued in
/// order, how many samples were consumed, the result, and the last height
/// the controller saw.
pub struct SeekReport {
    pub commands: Vec<DeskCommand>,
    pub steps_taken: usize,
    pub result: Result<(), DeskError>,
    pub final_height: u32,
}

/// Drive a whole seek over a recorded or simulated feed of height samples.
/// A target outside the reachable range is rejected with the corresponding
/// bounds error before a single command is issued; otherwise the report is
/// exactly what [`seek_spec`] says the controller does on that feed.
pub fn move_to_target(target: u32, initial_height: u32, samples: &Vec<FeedSample>) -> (r:
    SeekReport)
    ensures
        target > MAX_HEIGHT_UNITS ==> r.result == Err::<(), DeskError>(
            DeskError::TargetHeightTooHigh(target),
        ) && r.commands@ == Seq::<DeskCommand>::empty() && r.steps_taken == 0 && r.final_height
            == initial_height,
        target < MIN_HEIGHT_UNITS ==> r.result == Err::<(), DeskError>(
            DeskError::TargetHeightTooLow(target),
        ) && r.commands@ == Seq::<DeskCommand>::empty() && r.steps_taken == 0 && r.final_height
            == initial_height,
        MIN_HEIGHT_UNITS <= target <= MAX_HEIGHT_UNITS ==> ({
            let run = seek_spec(target, initial_height, target > initial_height, samples@);
            &&& r.commands@ == run.0
            &&& r.steps_taken == run.1
            &&& r.result == run.2
            &&& r.final_height == (if run.1 == 0 {
                initial_height as int
            } else {
                samples@[run.1 - 1].height as int
            })
        }),
{
    let mut controller = match MotionController::start(target, initial_height) {
        Ok(c) => c,
        Err(e) => {
            return SeekReport {
                commands: Vec::new(),
                steps_taken: 0,
                result: Err(e),
                final_height: initial_height,
            };
        },
    };
    let will_up = controller.will_move_up;
    let ghost run = seek_spec(target, initial_height, will_up, samples@);

    let mut commands: Vec<DeskCommand> = Vec::new();
    let mut i: usize = 0;
    proof {
        assert(samples@.skip(0) =~= samples@);
        assert(commands@ + run.0 =~= run.0);
    }
    while i < samples.len()
        invariant
            MIN_HEIGHT_UNITS <= target <= MAX_HEIGHT_UNITS,
            will_up == (target > initial_height),
            i <= samples@.len(),
            controller.target == target,
            controller.will_move_up == will_up,
            controller.previous_height == (if i == 0 {
                initial_height as int
            } else {
                samples@[i - 1].height as int
            }),
            run == seek_spec(target, initial_height, will_up, samples@),
            ({
                let rest = seek_spec(
                    target,
                    controller.previous_height,
                    will_up,
                    samples@.skip(i as int),
                );
                &&& run.0 == commands@ + rest.0
                &&& run.1 == i + rest.1
                &&& run.2 == rest.2
            }),
        decreases samples@.len() - i,
    {
        let sample = samples[i];
        proof {
            let remaining = samples@.skip(i as int);
            assert(remaining[0] == samples@[i as int]);
            assert(remaining.drop_first() =~= samples@.skip(i as int + 1));
        }
        let ghost previous = controller.previous_height;
        let plan = controller.step(sample.height, sample.elapsed_ms);
        let mut issued = plan.commands;
        commands.append(&mut issued);
        match plan.outcome {
            StepOutcome::Continue => {
                i = i + 1;
            },
            StepOutcome::Arrived => {
                proof {
                    assert(run.0 =~= commands@);
                }
                return SeekReport {
                    commands,
                    steps_taken: i + 1,
                    result: Ok(()),
                    final_height: sample.height,
                };
            },
            StepOutcome::SafetyAbort => {
                proof {
                    assert(run.0 =~= commands@);
                }
                return SeekReport {
                    commands,
                    steps_taken: i + 1,
                    result: Err(DeskError::DeskMoveSafetyKickedIn),
                    final_height: sample.height,
                };
            },
        }
    }
    proof {
        assert(samples@.skip(samples@.len() as int) =~= Seq::<FeedSample>::empty());
        assert(run.0 =~= commands@);
    }
    SeekReport {
        commands,
        steps_taken: i,
        result: Err(DeskError::SeekTimedOut),
        final_height: controller.previous_height,
    }
}

} // verus!
