use critical_section as _;

use gse_integrated_board::krs_servo::IcsError;
use gse_integrated_board::servo_test::{
    checked_test_position, ServoTest, ServoTestAction, ServoTestError, ServoTestEvent,
    ServoTestPlan, ServoTestStage,
};

fn once() -> ServoTestPlan {
    ServoTestPlan {
        repeat: false,
        ..ServoTestPlan::standard()
    }
}

/// Answers every action well until the test ends or repeats; returns the commanded positions.
fn run(test: &mut ServoTest) -> Vec<u16> {
    let mut targets = Vec::new();
    let mut at = 7000;
    loop {
        let event = match test.action() {
            ServoTestAction::GetId => ServoTestEvent::Id(Ok(0)),
            ServoTestAction::GetPos => ServoTestEvent::Position(Ok(at)),
            ServoTestAction::SetPos(position) => {
                targets.push(position);
                at = position;
                ServoTestEvent::Position(Ok(position))
            }
            ServoTestAction::SetFree => ServoTestEvent::Position(Ok(7499)),
            ServoTestAction::WaitMs(_) => ServoTestEvent::Waited,
            ServoTestAction::ReportAndWaitMs(_) | ServoTestAction::Finish => return targets,
        };
        test.advance(event);
    }
}

#[test]
fn the_standard_plan_repeats_small_moves() {
    let mut test = ServoTest::new(ServoTestPlan::standard()).unwrap();
    assert_eq!(run(&mut test), [7500, 7200, 7500, 7800, 7500]);
    assert_eq!(test.action(), ServoTestAction::ReportAndWaitMs(1000));
    assert_eq!(test.stage(), Some(ServoTestStage::RepeatWait));
    let summary = test.summary();
    assert_eq!(summary.initial_position, 7000);
    assert_eq!(summary.initial_angle_x10, -168);
    assert_eq!(summary.final_position, 7500);
    assert_eq!(summary.final_angle_x10, 0);
    assert_eq!(summary.move_count, 5);
    assert_eq!(summary.communication_success_count, 12);
    assert_eq!(summary.min_test_position, 7200);
    assert_eq!(summary.max_test_position, 7800);
    assert_eq!(test.outcome(), None);

    test.advance(ServoTestEvent::Waited);
    assert_eq!(run(&mut test), [7200, 7500, 7800, 7500]);
    assert_eq!(test.summary().move_count, 9);
    assert!(test.can_count());
}

#[test]
fn a_single_round_ends_at_the_center() {
    let mut test = ServoTest::new(once()).unwrap();
    assert_eq!(run(&mut test), [7500, 7200, 7500, 7800, 7500, 7500]);
    let summary = test.outcome().unwrap().unwrap();
    assert_eq!(summary.move_count, 6);
    assert_eq!(summary.communication_success_count, 13);
    assert!(!summary.free_at_end);
    assert_eq!(test.stage(), None);
}

#[test]
fn the_full_range_closes_opens_and_closes() {
    let plan = ServoTestPlan {
        open_close_full_range: true,
        free_at_end: true,
        ..once()
    };
    let mut test = ServoTest::new(plan).unwrap();
    assert_eq!(
        run(&mut test),
        [7500, 7200, 7500, 7800, 7500, 9135, 6468, 9135, 7500, 7500]
    );
    let summary = test.outcome().unwrap().unwrap();
    assert_eq!(summary.final_position, 7499);
    assert_eq!(summary.move_count, 10);
    assert_eq!(summary.communication_success_count, 21);
}

#[test]
fn moves_out_of_range_are_refused() {
    let plan = |step_pos| ServoTestPlan {
        step_pos,
        ..once()
    };
    assert!(ServoTest::new(plan(4000)).is_ok());
    assert_eq!(
        ServoTest::new(plan(4001)).err(),
        Some(ServoTestError::InvalidTestPosition {
            stage: ServoTestStage::SmallSweepMin,
            position: 3499,
        })
    );
    assert_eq!(
        ServoTest::new(plan(u16::MAX)).err(),
        Some(ServoTestError::InvalidTestPosition {
            stage: ServoTestStage::SmallSweepMin,
            position: 0,
        })
    );
    assert_eq!(
        checked_test_position(11501, ServoTestStage::SmallSweepMax),
        Err(ServoTestError::InvalidTestPosition {
            stage: ServoTestStage::SmallSweepMax,
            position: 11501,
        })
    );
    assert_eq!(
        checked_test_position(3500, ServoTestStage::FullRange),
        Ok(3500)
    );
}

/// Answers well until the action after `steps` events.
fn after_steps(plan: ServoTestPlan, steps: usize) -> ServoTest {
    let mut test = ServoTest::new(plan).unwrap();
    for _ in 0..steps {
        let event = match test.action() {
            ServoTestAction::GetId => ServoTestEvent::Id(Ok(1)),
            ServoTestAction::WaitMs(_) | ServoTestAction::ReportAndWaitMs(_) => {
                ServoTestEvent::Waited
            }
            _ => ServoTestEvent::Position(Ok(7500)),
        };
        test.advance(event);
    }
    test
}

const LOST: IcsError = IcsError::TimeoutError;

fn fails_with(plan: ServoTestPlan, steps: usize) -> ServoTestError {
    let mut test = after_steps(plan, steps);
    test.advance(ServoTestEvent::Position(Err(LOST)));
    test.outcome().unwrap().unwrap_err()
}

#[test]
fn early_failures_end_the_test_at_once() {
    let mut test = after_steps(once(), 0);
    test.advance(ServoTestEvent::Id(Err(IcsError::CommunicationError)));
    assert_eq!(
        test.outcome(),
        Some(Err(ServoTestError::GetIdFailed {
            stage: ServoTestStage::GetId,
            source: IcsError::CommunicationError,
        }))
    );
    assert_eq!(
        fails_with(once(), 1),
        ServoTestError::GetPosFailed {
            stage: ServoTestStage::GetPosInitial,
            source: LOST,
        }
    );
    assert_eq!(
        fails_with(once(), 2),
        ServoTestError::SetCenterFailed {
            stage: ServoTestStage::SetCenter,
            expected: 7500,
            source: LOST,
        }
    );
    assert_eq!(
        fails_with(once(), 4),
        ServoTestError::GetPosFailed {
            stage: ServoTestStage::GetPosAfterCenter,
            source: LOST,
        }
    );
}

#[test]
fn failures_in_a_sweep_return_to_the_center_first() {
    let mut test = after_steps(once(), 5);
    assert_eq!(test.action(), ServoTestAction::SetPos(7200));
    test.advance(ServoTestEvent::Position(Err(LOST)));
    assert_eq!(test.outcome(), None);
    assert_eq!(test.stage(), Some(ServoTestStage::ErrorReturnCenter));
    assert_eq!(test.action(), ServoTestAction::SetPos(7500));
    let counted = test.summary();
    test.advance(ServoTestEvent::Position(Ok(7500)));
    assert_eq!(
        test.outcome(),
        Some(Err(ServoTestError::SmallMoveFailed {
            stage: ServoTestStage::SmallSweep,
            expected: 7200,
            source: LOST,
        }))
    );
    assert_eq!(test.summary(), counted);

    let mut test = after_steps(once(), 7);
    assert_eq!(test.action(), ServoTestAction::GetPos);
    test.advance(ServoTestEvent::Position(Err(LOST)));
    test.advance(ServoTestEvent::Position(Err(IcsError::CommunicationError)));
    assert_eq!(
        test.outcome(),
        Some(Err(ServoTestError::ReturnCenterFailed {
            stage: ServoTestStage::ErrorReturnCenter,
            expected: 7500,
            source: IcsError::CommunicationError,
        }))
    );
}

#[test]
fn late_failures_are_told_apart() {
    let full = ServoTestPlan {
        open_close_full_range: true,
        ..once()
    };
    assert_eq!(
        fails_with(full, 33),
        ServoTestError::ReturnCenterFailed {
            stage: ServoTestStage::FullRangeReturnCenter,
            expected: 7500,
            source: LOST,
        }
    );
    assert_eq!(
        fails_with(once(), 21),
        ServoTestError::ReturnCenterFailed {
            stage: ServoTestStage::FinalCenter,
            expected: 7500,
            source: LOST,
        }
    );
    let free = ServoTestPlan {
        free_at_end: true,
        ..once()
    };
    assert_eq!(
        fails_with(free, 22),
        ServoTestError::FreeFailed {
            stage: ServoTestStage::SetFree,
            source: LOST,
        }
    );
}

#[test]
fn waits_have_their_lengths() {
    assert_eq!(
        after_steps(once(), 3).action(),
        ServoTestAction::WaitMs(500)
    );
    assert_eq!(
        after_steps(once(), 6).action(),
        ServoTestAction::WaitMs(500)
    );
    assert_eq!(
        after_steps(once(), 8).action(),
        ServoTestAction::WaitMs(1000)
    );
}

#[test]
fn stages_have_their_names() {
    assert_eq!(ServoTestStage::SmallSweepMin.name(), "small_sweep_min");
    assert_eq!(ServoTestStage::GetPosInitial.name(), "get_pos_initial");
    assert_eq!(
        ServoTestStage::ErrorReturnCenter.name(),
        "error_return_center"
    );
    assert_eq!(
        ServoTestStage::FullRangeReturnCenter.name(),
        "full_range_return_center"
    );
    assert_eq!(ServoTestStage::SetFree.name(), "set_free");
}
