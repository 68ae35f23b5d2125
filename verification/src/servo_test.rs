//! The bench test of the valve servo: small moves round the centre, and on request the whole way
//! between open and closed.
use vstd::prelude::*;

use crate::krs_servo::IcsError;
use crate::{
    angle, MAIN_VALVE_CLOSED_ANGLE_X10, MAIN_VALVE_OPEN_ANGLE_X10, SERVO_CENTER_POS, SERVO_MAX_POS,
    SERVO_MIN_POS,
};

verus! {

pub const SERVO_TEST_ID: u8 = 0;

pub const SERVO_TEST_STEP_POS: u16 = 300;

pub const SERVO_TEST_HOLD_MS: u64 = 1000;

pub const SERVO_TEST_SETTLE_MS: u64 = 500;

pub const SERVO_TEST_FREE_AT_END: bool = false;

pub const SERVO_TEST_REPEAT: bool = true;

pub const SERVO_TEST_OPEN_CLOSE_FULL_RANGE: bool = false;

/// What the test does.
#[derive(Clone, Copy, Debug, PartialEq, Eq, Structural)]
pub struct ServoTestPlan {
    /// How far the small moves go.
    pub step_pos: u16,
    /// The servo is let go at the end.
    pub free_at_end: bool,
    /// The sweeps are repeated without end.
    pub repeat: bool,
    /// The valve is closed and opened all the way.
    pub open_close_full_range: bool,
}

/// The plan of the constants above.
pub open spec fn standard_plan() -> ServoTestPlan {
    ServoTestPlan {
        step_pos: SERVO_TEST_STEP_POS,
        free_at_end: SERVO_TEST_FREE_AT_END,
        repeat: SERVO_TEST_REPEAT,
        open_close_full_range: SERVO_TEST_OPEN_CLOSE_FULL_RANGE,
    }
}

impl ServoTestPlan {
    pub fn standard() -> (plan: Self)
        ensures
            plan == standard_plan(),
    {
        Self {
            step_pos: SERVO_TEST_STEP_POS,
            free_at_end: SERVO_TEST_FREE_AT_END,
            repeat: SERVO_TEST_REPEAT,
            open_close_full_range: SERVO_TEST_OPEN_CLOSE_FULL_RANGE,
        }
    }
}

/// The names under which the test reports.
#[derive(Clone, Copy, Debug, PartialEq, Eq, Structural)]
pub enum ServoTestStage {
    SmallSweepMin,
    SmallSweepMax,
    GetId,
    GetPosInitial,
    SetCenter,
    GetPosAfterCenter,
    SmallSweep,
    FullRange,
    ErrorReturnCenter,
    FullRangeReturnCenter,
    RepeatWait,
    FinalCenter,
    SetFree,
}

pub open spec fn stage_name(stage: ServoTestStage) -> Seq<char> {
    match stage {
        ServoTestStage::SmallSweepMin => "small_sweep_min"@,
        ServoTestStage::SmallSweepMax => "small_sweep_max"@,
        ServoTestStage::GetId => "get_id"@,
        ServoTestStage::GetPosInitial => "get_pos_initial"@,
        ServoTestStage::SetCenter => "set_center"@,
        ServoTestStage::GetPosAfterCenter => "get_pos_after_center"@,
        ServoTestStage::SmallSweep => "small_sweep"@,
        ServoTestStage::FullRange => "full_range"@,
        ServoTestStage::ErrorReturnCenter => "error_return_center"@,
        ServoTestStage::FullRangeReturnCenter => "full_range_return_center"@,
        ServoTestStage::RepeatWait => "repeat_wait"@,
        ServoTestStage::FinalCenter => "final_center"@,
        ServoTestStage::SetFree => "set_free"@,
    }
}

impl ServoTestStage {
    pub fn name(self) -> (name: &'static str)
        ensures
            name@ == stage_name(self),
    {
        match self {
            Self::SmallSweepMin => "small_sweep_min",
            Self::SmallSweepMax => "small_sweep_max",
            Self::GetId => "get_id",
            Self::GetPosInitial => "get_pos_initial",
            Self::SetCenter => "set_center",
            Self::GetPosAfterCenter => "get_pos_after_center",
            Self::SmallSweep => "small_sweep",
            Self::FullRange => "full_range",
            Self::ErrorReturnCenter => "error_return_center",
            Self::FullRangeReturnCenter => "full_range_return_center",
            Self::RepeatWait => "repeat_wait",
            Self::FinalCenter => "final_center",
            Self::SetFree => "set_free",
        }
    }
}

#[derive(Clone, Copy, Debug, PartialEq, Eq, Structural)]
pub struct ServoTestSummary {
    pub detected_id: u8,
    pub initial_position: u16,
    pub initial_angle_x10: i16,
    pub final_position: u16,
    pub final_angle_x10: i16,
    pub move_count: u32,
    pub communication_success_count: u32,
    pub center_position: u16,
    pub min_test_position: u16,
    pub max_test_position: u16,
    pub free_at_end: bool,
}

#[derive(Clone, Copy, Debug, PartialEq, Eq, Structural)]
pub enum ServoTestError {
    GetIdFailed { stage: ServoTestStage, source: IcsError },
    GetPosFailed { stage: ServoTestStage, source: IcsError },
    SetCenterFailed { stage: ServoTestStage, expected: u16, source: IcsError },
    SmallMoveFailed { stage: ServoTestStage, expected: u16, source: IcsError },
    ReturnCenterFailed { stage: ServoTestStage, expected: u16, source: IcsError },
    FreeFailed { stage: ServoTestStage, source: IcsError },
    InvalidTestPosition { stage: ServoTestStage, position: u16 },
}

#[derive(Clone, Copy, Debug, PartialEq, Eq, Structural)]
pub enum Sweep {
    Small,
    FullRange,
}

/// How far the test has come. In a sweep, `index` counts the positions that were held already.
#[derive(Clone, Copy, Debug, PartialEq, Eq)]
pub enum ServoTestPhase {
    GetId,
    GetInitialPos,
    SetCenter,
    SettleAtCenter,
    GetCenterPos,
    Move { sweep: Sweep, index: usize },
    Settle { sweep: Sweep, index: usize },
    Sample { sweep: Sweep, index: usize },
    Hold { sweep: Sweep, index: usize },
    FullRangeReturn,
    RepeatWait,
    FinalCenter,
    SetFree,
    /// The servo is sent back to the centre before the failure is reported.
    ErrorReturn(ServoTestError),
    Finished(Result<(), ServoTestError>),
}

/// What has to be done next.
#[derive(Clone, Copy, Debug, PartialEq, Eq, Structural)]
pub enum ServoTestAction {
    GetId,
    GetPos,
    SetPos(u16),
    SetFree,
    WaitMs(u64),
    /// Report a passed round, and wait.
    ReportAndWaitMs(u64),
    Finish,
}

/// What came of it.
#[derive(Clone, Copy, Debug, PartialEq, Eq)]
pub enum ServoTestEvent {
    Id(Result<u8, IcsError>),
    Position(Result<u16, IcsError>),
    Waited,
}

pub open spec fn in_servo_range(position: u16) -> bool {
    SERVO_MIN_POS <= position <= SERVO_MAX_POS
}

pub fn checked_test_position(position: u16, stage: ServoTestStage) -> (checked: Result<
    u16,
    ServoTestError,
>)
    ensures
        checked == if in_servo_range(position) {
            Ok::<u16, ServoTestError>(position)
        } else {
            Err(ServoTestError::InvalidTestPosition { stage, position })
        },
{
    if SERVO_MIN_POS <= position && position <= SERVO_MAX_POS {
        Ok(position)
    } else {
        Err(ServoTestError::InvalidTestPosition { stage, position })
    }
}

/// The lowest and the highest position of the small moves.
pub open spec fn min_position(step_pos: u16) -> u16 {
    if step_pos <= SERVO_CENTER_POS {
        (SERVO_CENTER_POS - step_pos) as u16
    } else {
        0
    }
}

pub open spec fn max_position(step_pos: u16) -> u16 {
    if SERVO_CENTER_POS + step_pos <= u16::MAX {
        (SERVO_CENTER_POS + step_pos) as u16
    } else {
        u16::MAX
    }
}

/// The positions that a sweep goes through.
pub open spec fn sweep_positions(summary: ServoTestSummary, sweep: Sweep) -> Seq<u16> {
    match sweep {
        Sweep::Small => seq![
            summary.min_test_position,
            summary.center_position,
            summary.max_test_position,
            summary.center_position,
        ],
        Sweep::FullRange => seq![
            angle::position_of(MAIN_VALVE_CLOSED_ANGLE_X10) as u16,
            angle::position_of(MAIN_VALVE_OPEN_ANGLE_X10) as u16,
            angle::position_of(MAIN_VALVE_CLOSED_ANGLE_X10) as u16,
        ],
    }
}

pub open spec fn sweep_stage(sweep: Sweep) -> ServoTestStage {
    match sweep {
        Sweep::Small => ServoTestStage::SmallSweep,
        Sweep::FullRange => ServoTestStage::FullRange,
    }
}

/// A test on its way.
pub struct ServoTestModel {
    pub plan: ServoTestPlan,
    pub summary: ServoTestSummary,
    pub phase: ServoTestPhase,
}

impl ServoTestModel {
    pub open spec fn wf(self) -> bool {
        &&& self.summary.center_position == SERVO_CENTER_POS
        &&& in_servo_range(self.summary.min_test_position)
        &&& in_servo_range(self.summary.max_test_position)
        &&& match self.phase {
            ServoTestPhase::Move { sweep, index } => index < sweep_positions(
                self.summary,
                sweep,
            ).len(),
            ServoTestPhase::Settle { sweep, index } => index < sweep_positions(
                self.summary,
                sweep,
            ).len(),
            ServoTestPhase::Sample { sweep, index } => index < sweep_positions(
                self.summary,
                sweep,
            ).len(),
            ServoTestPhase::Hold { sweep, index } => index < sweep_positions(
                self.summary,
                sweep,
            ).len(),
            _ => true,
        }
    }

    /// The counters can take one more.
    pub open spec fn can_count(self) -> bool {
        self.summary.move_count < u32::MAX && self.summary.communication_success_count < u32::MAX
    }

    pub open spec fn to(self, phase: ServoTestPhase) -> ServoTestModel {
        ServoTestModel { phase, ..self }
    }

    pub open spec fn failed(self, error: ServoTestError) -> ServoTestModel {
        self.to(ServoTestPhase::Finished(Err(error)))
    }

    /// A move was confirmed.
    pub open spec fn moved(self) -> ServoTestModel {
        ServoTestModel {
            summary: ServoTestSummary {
                move_count: (self.summary.move_count + 1) as u32,
                ..self.summary
            },
            ..self
        }.heard()
    }

    /// The servo has answered.
    pub open spec fn heard(self) -> ServoTestModel {
        ServoTestModel {
            summary: ServoTestSummary {
                communication_success_count: (self.summary.communication_success_count + 1) as u32,
                ..self.summary
            },
            ..self
        }
    }

    /// The servo was last seen at `position`.
    pub open spec fn seen_at(self, position: u16) -> ServoTestModel {
        ServoTestModel {
            summary: ServoTestSummary {
                final_position: position,
                final_angle_x10: angle::angle_of(position) as i16,
                ..self.summary
            },
            ..self
        }
    }
}

/// The test before its first request.
pub open spec fn initial_test(plan: ServoTestPlan) -> ServoTestModel {
    ServoTestModel {
        plan,
        summary: ServoTestSummary {
            detected_id: 0,
            initial_position: 0,
            initial_angle_x10: 0,
            final_position: 0,
            final_angle_x10: 0,
            move_count: 0,
            communication_success_count: 0,
            center_position: SERVO_CENTER_POS,
            min_test_position: min_position(plan.step_pos),
            max_test_position: max_position(plan.step_pos),
            free_at_end: plan.free_at_end,
        },
        phase: ServoTestPhase::GetId,
    }
}

pub open spec fn action_of(t: ServoTestModel) -> ServoTestAction {
    match t.phase {
        ServoTestPhase::GetId => ServoTestAction::GetId,
        ServoTestPhase::GetInitialPos => ServoTestAction::GetPos,
        ServoTestPhase::SetCenter => ServoTestAction::SetPos(SERVO_CENTER_POS),
        ServoTestPhase::SettleAtCenter => ServoTestAction::WaitMs(SERVO_TEST_SETTLE_MS),
        ServoTestPhase::GetCenterPos => ServoTestAction::GetPos,
        ServoTestPhase::Move { sweep, index } => ServoTestAction::SetPos(
            sweep_positions(t.summary, sweep)[index as int],
        ),
        ServoTestPhase::Settle { .. } => ServoTestAction::WaitMs(SERVO_TEST_SETTLE_MS),
        ServoTestPhase::Sample { .. } => ServoTestAction::GetPos,
        ServoTestPhase::Hold { .. } => ServoTestAction::WaitMs(SERVO_TEST_HOLD_MS),
        ServoTestPhase::FullRangeReturn => ServoTestAction::SetPos(SERVO_CENTER_POS),
        ServoTestPhase::RepeatWait => ServoTestAction::ReportAndWaitMs(SERVO_TEST_HOLD_MS),
        ServoTestPhase::FinalCenter => ServoTestAction::SetPos(SERVO_CENTER_POS),
        ServoTestPhase::SetFree => ServoTestAction::SetFree,
        ServoTestPhase::ErrorReturn(_) => ServoTestAction::SetPos(SERVO_CENTER_POS),
        ServoTestPhase::Finished(_) => ServoTestAction::Finish,
    }
}

/// All sweeps of a round are done.
pub open spec fn after_round(t: ServoTestModel) -> ServoTestModel {
    t.to(
        if t.plan.repeat {
            ServoTestPhase::RepeatWait
        } else {
            ServoTestPhase::FinalCenter
        },
    )
}

/// A position of a sweep was held long enough.
pub open spec fn after_hold(t: ServoTestModel, sweep: Sweep, index: usize) -> ServoTestModel {
    if index + 1 < sweep_positions(t.summary, sweep).len() {
        t.to(ServoTestPhase::Move { sweep, index: (index + 1) as usize })
    } else if sweep == Sweep::FullRange {
        t.to(ServoTestPhase::FullRangeReturn)
    } else if t.plan.open_close_full_range {
        t.to(ServoTestPhase::Move { sweep: Sweep::FullRange, index: 0 })
    } else {
        after_round(t)
    }
}

/// The test after the servo has told its identifier, or failed to.
pub open spec fn after_id(t: ServoTestModel, reply: Result<u8, IcsError>) -> ServoTestModel {
    match (t.phase, reply) {
        (ServoTestPhase::GetId, Ok(id)) => ServoTestModel {
            summary: ServoTestSummary { detected_id: id, ..t.summary },
            ..t.to(ServoTestPhase::GetInitialPos)
        }.heard(),
        (ServoTestPhase::GetId, Err(source)) => t.failed(
            ServoTestError::GetIdFailed { stage: ServoTestStage::GetId, source },
        ),
        _ => t,
    }
}

/// The test after a wait.
pub open spec fn after_wait(t: ServoTestModel) -> ServoTestModel {
    match t.phase {
        ServoTestPhase::SettleAtCenter => t.to(ServoTestPhase::GetCenterPos),
        ServoTestPhase::Settle { sweep, index } => t.to(ServoTestPhase::Sample { sweep, index }),
        ServoTestPhase::Hold { sweep, index } => after_hold(t, sweep, index),
        ServoTestPhase::RepeatWait => t.to(
            ServoTestPhase::Move { sweep: Sweep::Small, index: 0 },
        ),
        _ => t,
    }
}

/// The test after the servo has told its position.
pub open spec fn after_position(t: ServoTestModel, position: u16) -> ServoTestModel {
    match t.phase {
        ServoTestPhase::GetInitialPos => ServoTestModel {
            summary: ServoTestSummary {
                initial_position: position,
                initial_angle_x10: angle::angle_of(position) as i16,
                ..t.summary
            },
            ..t.to(ServoTestPhase::SetCenter)
        }.heard().seen_at(position),
        ServoTestPhase::SetCenter => t.to(ServoTestPhase::SettleAtCenter).moved(),
        ServoTestPhase::GetCenterPos => t.to(
            ServoTestPhase::Move { sweep: Sweep::Small, index: 0 },
        ).heard().seen_at(position),
        ServoTestPhase::Move { sweep, index } => t.to(
            ServoTestPhase::Settle { sweep, index },
        ).moved(),
        ServoTestPhase::Sample { sweep, index } => t.to(
            ServoTestPhase::Hold { sweep, index },
        ).heard().seen_at(position),
        ServoTestPhase::FullRangeReturn => after_round(t).moved().seen_at(position),
        ServoTestPhase::FinalCenter => t.to(
            if t.plan.free_at_end {
                ServoTestPhase::SetFree
            } else {
                ServoTestPhase::Finished(Ok(()))
            },
        ).moved().seen_at(position),
        ServoTestPhase::SetFree => t.to(ServoTestPhase::Finished(Ok(()))).heard().seen_at(position),
        ServoTestPhase::ErrorReturn(error) => t.failed(error),
        _ => t,
    }
}

/// The test after the servo has failed to answer. From the first sweep on, the servo is sent back
/// to the centre first.
pub open spec fn after_failure(t: ServoTestModel, source: IcsError) -> ServoTestModel {
    match t.phase {
        ServoTestPhase::GetInitialPos => t.failed(
            ServoTestError::GetPosFailed { stage: ServoTestStage::GetPosInitial, source },
        ),
        ServoTestPhase::SetCenter => t.failed(
            ServoTestError::SetCenterFailed {
                stage: ServoTestStage::SetCenter,
                expected: SERVO_CENTER_POS,
                source,
            },
        ),
        ServoTestPhase::GetCenterPos => t.failed(
            ServoTestError::GetPosFailed { stage: ServoTestStage::GetPosAfterCenter, source },
        ),
        ServoTestPhase::Move { sweep, index } => t.to(
            ServoTestPhase::ErrorReturn(
                ServoTestError::SmallMoveFailed {
                    stage: sweep_stage(sweep),
                    expected: sweep_positions(t.summary, sweep)[index as int],
                    source,
                },
            ),
        ),
        ServoTestPhase::Sample { sweep, index } => t.to(
            ServoTestPhase::ErrorReturn(
                ServoTestError::GetPosFailed { stage: sweep_stage(sweep), source },
            ),
        ),
        ServoTestPhase::FullRangeReturn => t.failed(
            ServoTestError::ReturnCenterFailed {
                stage: ServoTestStage::FullRangeReturnCenter,
                expected: SERVO_CENTER_POS,
                source,
            },
        ),
        ServoTestPhase::FinalCenter => t.failed(
            ServoTestError::ReturnCenterFailed {
                stage: ServoTestStage::FinalCenter,
                expected: SERVO_CENTER_POS,
                source,
            },
        ),
        ServoTestPhase::SetFree => t.failed(
            ServoTestError::FreeFailed { stage: ServoTestStage::SetFree, source },
        ),
        ServoTestPhase::ErrorReturn(_) => t.failed(
            ServoTestError::ReturnCenterFailed {
                stage: ServoTestStage::ErrorReturnCenter,
                expected: SERVO_CENTER_POS,
                source,
            },
        ),
        _ => t,
    }
}

/// The test after an event. One that does not answer the action changes nothing.
pub open spec fn after_event(t: ServoTestModel, event: ServoTestEvent) -> ServoTestModel {
    match event {
        ServoTestEvent::Id(reply) => after_id(t, reply),
        ServoTestEvent::Position(Ok(position)) => after_position(t, position),
        ServoTestEvent::Position(Err(source)) => after_failure(t, source),
        ServoTestEvent::Waited => after_wait(t),
    }
}

/// The event is an answer of the servo, which the summary counts.
pub open spec fn is_answer(event: ServoTestEvent) -> bool {
    match event {
        ServoTestEvent::Id(reply) => reply is Ok,
        ServoTestEvent::Position(reply) => reply is Ok,
        ServoTestEvent::Waited => false,
    }
}

/// The name under which a phase reports.
pub open spec fn phase_stage(phase: ServoTestPhase) -> Option<ServoTestStage> {
    match phase {
        ServoTestPhase::GetId => Some(ServoTestStage::GetId),
        ServoTestPhase::GetInitialPos => Some(ServoTestStage::GetPosInitial),
        ServoTestPhase::SetCenter => Some(ServoTestStage::SetCenter),
        ServoTestPhase::SettleAtCenter => Some(ServoTestStage::SetCenter),
        ServoTestPhase::GetCenterPos => Some(ServoTestStage::GetPosAfterCenter),
        ServoTestPhase::Move { sweep, .. } => Some(sweep_stage(sweep)),
        ServoTestPhase::Settle { sweep, .. } => Some(sweep_stage(sweep)),
        ServoTestPhase::Sample { sweep, .. } => Some(sweep_stage(sweep)),
        ServoTestPhase::Hold { sweep, .. } => Some(sweep_stage(sweep)),
        ServoTestPhase::FullRangeReturn => Some(ServoTestStage::FullRangeReturnCenter),
        ServoTestPhase::RepeatWait => Some(ServoTestStage::RepeatWait),
        ServoTestPhase::FinalCenter => Some(ServoTestStage::FinalCenter),
        ServoTestPhase::SetFree => Some(ServoTestStage::SetFree),
        ServoTestPhase::ErrorReturn(_) => Some(ServoTestStage::ErrorReturnCenter),
        ServoTestPhase::Finished(_) => None,
    }
}

/// The test of one servo.
pub struct ServoTest {
    plan: ServoTestPlan,
    summary: ServoTestSummary,
    phase: ServoTestPhase,
}

impl View for ServoTest {
    type V = ServoTestModel;

    closed spec fn view(&self) -> ServoTestModel {
        ServoTestModel { plan: self.plan, summary: self.summary, phase: self.phase }
    }
}

impl ServoTest {
    /// A test that follows `plan`. Small moves out of the servo's range are refused.
    pub fn new(plan: ServoTestPlan) -> (test: Result<Self, ServoTestError>)
        ensures
            match test {
                Ok(test) => test@.wf() && test@ == initial_test(plan),
                Err(error) => if !in_servo_range(min_position(plan.step_pos)) {
                    error == (ServoTestError::InvalidTestPosition {
                        stage: ServoTestStage::SmallSweepMin,
                        position: min_position(plan.step_pos),
                    })
                } else {
                    !in_servo_range(max_position(plan.step_pos)) && error == (
                    ServoTestError::InvalidTestPosition {
                        stage: ServoTestStage::SmallSweepMax,
                        position: max_position(plan.step_pos),
                    })
                },
            },
    {
        let min_test_position = match checked_test_position(
            SERVO_CENTER_POS.saturating_sub(plan.step_pos),
            ServoTestStage::SmallSweepMin,
        ) {
            Ok(position) => position,
            Err(error) => return Err(error),
        };
        let max_test_position = match checked_test_position(
            SERVO_CENTER_POS.saturating_add(plan.step_pos),
            ServoTestStage::SmallSweepMax,
        ) {
            Ok(position) => position,
            Err(error) => return Err(error),
        };
        Ok(
            Self {
                plan,
                summary: ServoTestSummary {
                    detected_id: 0,
                    initial_position: 0,
                    initial_angle_x10: 0,
                    final_position: 0,
                    final_angle_x10: 0,
                    move_count: 0,
                    communication_success_count: 0,
                    center_position: SERVO_CENTER_POS,
                    min_test_position,
                    max_test_position,
                    free_at_end: plan.free_at_end,
                },
                phase: ServoTestPhase::GetId,
            },
        )
    }

    pub fn summary(&self) -> (summary: ServoTestSummary)
        ensures
            summary == self@.summary,
    {
        self.summary
    }

    /// The counters can take one more.
    pub fn can_count(&self) -> (can_count: bool)
        ensures
            can_count == self@.can_count(),
    {
        self.summary.move_count < u32::MAX && self.summary.communication_success_count < u32::MAX
    }

    /// The name under which the test reports at this point, until it has ended.
    pub fn stage(&self) -> (stage: Option<ServoTestStage>)
        ensures
            stage == phase_stage(self@.phase),
    {
        match self.phase {
            ServoTestPhase::GetId => Some(ServoTestStage::GetId),
            ServoTestPhase::GetInitialPos => Some(ServoTestStage::GetPosInitial),
            ServoTestPhase::SetCenter | ServoTestPhase::SettleAtCenter => Some(
                ServoTestStage::SetCenter,
            ),
            ServoTestPhase::GetCenterPos => Some(ServoTestStage::GetPosAfterCenter),
            ServoTestPhase::Move { sweep, .. } | ServoTestPhase::Settle { sweep, .. }
            | ServoTestPhase::Sample { sweep, .. } | ServoTestPhase::Hold { sweep, .. } => Some(
                Self::stage_of(sweep),
            ),
            ServoTestPhase::FullRangeReturn => Some(ServoTestStage::FullRangeReturnCenter),
            ServoTestPhase::RepeatWait => Some(ServoTestStage::RepeatWait),
            ServoTestPhase::FinalCenter => Some(ServoTestStage::FinalCenter),
            ServoTestPhase::SetFree => Some(ServoTestStage::SetFree),
            ServoTestPhase::ErrorReturn(_) => Some(ServoTestStage::ErrorReturnCenter),
            ServoTestPhase::Finished(_) => None,
        }
    }

    /// How the test has ended, once it has.
    pub fn outcome(&self) -> (outcome: Option<Result<ServoTestSummary, ServoTestError>>)
        ensures
            outcome == match self@.phase {
                ServoTestPhase::Finished(Ok(_)) => Some(
                    Ok::<ServoTestSummary, ServoTestError>(self@.summary),
                ),
                ServoTestPhase::Finished(Err(error)) => Some(Err(error)),
                _ => None,
            },
    {
        match self.phase {
            ServoTestPhase::Finished(Ok(())) => Some(Ok(self.summary)),
            ServoTestPhase::Finished(Err(error)) => Some(Err(error)),
            _ => None,
        }
    }

    fn stage_of(sweep: Sweep) -> (stage: ServoTestStage)
        ensures
            stage == sweep_stage(sweep),
    {
        match sweep {
            Sweep::Small => ServoTestStage::SmallSweep,
            Sweep::FullRange => ServoTestStage::FullRange,
        }
    }

    fn sweep_len(sweep: Sweep) -> (len: usize)
        ensures
            forall|summary: ServoTestSummary|
                len == #[trigger] sweep_positions(summary, sweep).len(),
    {
        match sweep {
            Sweep::Small => 4,
            Sweep::FullRange => 3,
        }
    }

    fn target(&self, sweep: Sweep, index: usize) -> (position: u16)
        requires
            index < sweep_positions(self@.summary, sweep).len(),
        ensures
            position == sweep_positions(self@.summary, sweep)[index as int],
    {
        match sweep {
            Sweep::Small => if index == 0 {
                self.summary.min_test_position
            } else if index == 2 {
                self.summary.max_test_position
            } else {
                self.summary.center_position
            },
            Sweep::FullRange => if index == 1 {
                angle::angle_x10_to_position(MAIN_VALVE_OPEN_ANGLE_X10)
            } else {
                angle::angle_x10_to_position(MAIN_VALVE_CLOSED_ANGLE_X10)
            },
        }
    }

    /// What has to be done next.
    pub fn action(&self) -> (action: ServoTestAction)
        requires
            self@.wf(),
        ensures
            action == action_of(self@),
    {
        match self.phase {
            ServoTestPhase::GetId => ServoTestAction::GetId,
            ServoTestPhase::GetInitialPos | ServoTestPhase::GetCenterPos | ServoTestPhase::Sample {
                ..
            } => ServoTestAction::GetPos,
            ServoTestPhase::SetCenter | ServoTestPhase::FullRangeReturn
            | ServoTestPhase::FinalCenter | ServoTestPhase::ErrorReturn(_) =>
                ServoTestAction::SetPos(SERVO_CENTER_POS),
            ServoTestPhase::SettleAtCenter | ServoTestPhase::Settle { .. } =>
                ServoTestAction::WaitMs(SERVO_TEST_SETTLE_MS),
            ServoTestPhase::Move { sweep, index } => ServoTestAction::SetPos(
                self.target(sweep, index),
            ),
            ServoTestPhase::Hold { .. } => ServoTestAction::WaitMs(SERVO_TEST_HOLD_MS),
            ServoTestPhase::RepeatWait => ServoTestAction::ReportAndWaitMs(SERVO_TEST_HOLD_MS),
            ServoTestPhase::SetFree => ServoTestAction::SetFree,
            ServoTestPhase::Finished(_) => ServoTestAction::Finish,
        }
    }

    fn count_reply(&mut self)
        requires
            old(self)@.can_count(),
        ensures
            final(self)@ == old(self)@.heard(),
    {
        self.summary.communication_success_count = self.summary.communication_success_count + 1;
    }

    fn count_move(&mut self)
        requires
            old(self)@.can_count(),
        ensures
            final(self)@ == old(self)@.moved(),
    {
        self.summary.move_count = self.summary.move_count + 1;
        self.summary.communication_success_count = self.summary.communication_success_count + 1;
    }

    fn see_at(&mut self, position: u16)
        ensures
            final(self)@ == old(self)@.seen_at(position),
    {
        self.summary.final_position = position;
        self.summary.final_angle_x10 = angle::position_to_angle_x10(position);
    }

    fn end_round(&mut self)
        ensures
            final(self)@ == after_round(old(self)@),
    {
        self.phase = if self.plan.repeat {
            ServoTestPhase::RepeatWait
        } else {
            ServoTestPhase::FinalCenter
        };
    }

    fn on_id(&mut self, reply: Result<u8, IcsError>)
        requires
            reply is Ok ==> old(self)@.can_count(),
        ensures
            final(self)@ == after_id(old(self)@, reply),
    {
        match self.phase {
            ServoTestPhase::GetId => match reply {
                Ok(id) => {
                    self.summary.detected_id = id;
                    self.phase = ServoTestPhase::GetInitialPos;
                    self.count_reply();
                },
                Err(source) => {
                    self.phase = ServoTestPhase::Finished(
                        Err(ServoTestError::GetIdFailed { stage: ServoTestStage::GetId, source }),
                    );
                },
            },
            _ => {},
        }
    }

    fn on_waited(&mut self)
        requires
            old(self)@.wf(),
        ensures
            final(self)@ == after_wait(old(self)@),
    {
        match self.phase {
            ServoTestPhase::SettleAtCenter => {
                self.phase = ServoTestPhase::GetCenterPos;
            },
            ServoTestPhase::Settle { sweep, index } => {
                self.phase = ServoTestPhase::Sample { sweep, index };
            },
            ServoTestPhase::Hold { sweep, index } => {
                if index + 1 < Self::sweep_len(sweep) {
                    self.phase = ServoTestPhase::Move { sweep, index: index + 1 };
                } else if sweep == Sweep::FullRange {
                    self.phase = ServoTestPhase::FullRangeReturn;
                } else if self.plan.open_close_full_range {
                    self.phase = ServoTestPhase::Move { sweep: Sweep::FullRange, index: 0 };
                } else {
                    self.end_round();
                }
            },
            ServoTestPhase::RepeatWait => {
                self.phase = ServoTestPhase::Move { sweep: Sweep::Small, index: 0 };
            },
            _ => {},
        }
    }

    fn on_position(&mut self, position: u16)
        requires
            old(self)@.wf(),
            old(self)@.can_count(),
        ensures
            final(self)@ == after_position(old(self)@, position),
    {
        match self.phase {
            ServoTestPhase::GetInitialPos => {
                self.summary.initial_position = position;
                self.summary.initial_angle_x10 = angle::position_to_angle_x10(position);
                self.phase = ServoTestPhase::SetCenter;
                self.count_reply();
                self.see_at(position);
            },
            ServoTestPhase::SetCenter => {
                self.phase = ServoTestPhase::SettleAtCenter;
                self.count_move();
            },
            ServoTestPhase::GetCenterPos => {
                self.phase = ServoTestPhase::Move { sweep: Sweep::Small, index: 0 };
                self.count_reply();
                self.see_at(position);
            },
            ServoTestPhase::Move { sweep, index } => {
                self.phase = ServoTestPhase::Settle { sweep, index };
                self.count_move();
            },
            ServoTestPhase::Sample { sweep, index } => {
                self.phase = ServoTestPhase::Hold { sweep, index };
                self.count_reply();
                self.see_at(position);
            },
            ServoTestPhase::FullRangeReturn => {
                self.end_round();
                self.count_move();
                self.see_at(position);
            },
            ServoTestPhase::FinalCenter => {
                self.phase = if self.plan.free_at_end {
                    ServoTestPhase::SetFree
                } else {
                    ServoTestPhase::Finished(Ok(()))
                };
                self.count_move();
                self.see_at(position);
            },
            ServoTestPhase::SetFree => {
                self.phase = ServoTestPhase::Finished(Ok(()));
                self.count_reply();
                self.see_at(position);
            },
            ServoTestPhase::ErrorReturn(error) => {
                self.phase = ServoTestPhase::Finished(Err(error));
            },
            _ => {},
        }
    }

    fn on_failure(&mut self, source: IcsError)
        requires
            old(self)@.wf(),
        ensures
            final(self)@ == after_failure(old(self)@, source),
    {
        let expected: u16 = SERVO_CENTER_POS;
        let error = match self.phase {
            ServoTestPhase::GetInitialPos => ServoTestError::GetPosFailed {
                stage: ServoTestStage::GetPosInitial,
                source,
            },
            ServoTestPhase::SetCenter => ServoTestError::SetCenterFailed {
                stage: ServoTestStage::SetCenter,
                expected,
                source,
            },
            ServoTestPhase::GetCenterPos => ServoTestError::GetPosFailed {
                stage: ServoTestStage::GetPosAfterCenter,
                source,
            },
            ServoTestPhase::Move { sweep, index } => {
                self.phase = ServoTestPhase::ErrorReturn(
                    ServoTestError::SmallMoveFailed {
                        stage: Self::stage_of(sweep),
                        expected: self.target(sweep, index),
                        source,
                    },
                );
                return;
            },
            ServoTestPhase::Sample { sweep, .. } => {
                self.phase = ServoTestPhase::ErrorReturn(
                    ServoTestError::GetPosFailed { stage: Self::stage_of(sweep), source },
                );
                return;
            },
            ServoTestPhase::FullRangeReturn => ServoTestError::ReturnCenterFailed {
                stage: ServoTestStage::FullRangeReturnCenter,
                expected,
                source,
            },
            ServoTestPhase::FinalCenter => ServoTestError::ReturnCenterFailed {
                stage: ServoTestStage::FinalCenter,
                expected,
                source,
            },
            ServoTestPhase::SetFree => ServoTestError::FreeFailed {
                stage: ServoTestStage::SetFree,
                source,
            },
            ServoTestPhase::ErrorReturn(_) => ServoTestError::ReturnCenterFailed {
                stage: ServoTestStage::ErrorReturnCenter,
                expected,
                source,
            },
            _ => return,
        };
        self.phase = ServoTestPhase::Finished(Err(error));
    }

    /// Takes in what came of the action.
    pub fn advance(&mut self, event: ServoTestEvent)
        requires
            old(self)@.wf(),
            is_answer(event) ==> old(self)@.can_count(),
        ensures
            final(self)@.wf(),
            final(self)@ == after_event(old(self)@, event),
    {
        match event {
            ServoTestEvent::Id(reply) => self.on_id(reply),
            ServoTestEvent::Position(Ok(position)) => self.on_position(position),
            ServoTestEvent::Position(Err(source)) => self.on_failure(source),
            ServoTestEvent::Waited => self.on_waited(),
        }
    }
}

/// Every event keeps a test well formed.
pub proof fn law_test_stays_well_formed(t: ServoTestModel, event: ServoTestEvent)
    requires
        t.wf(),
    ensures
        after_event(t, event).wf(),
{
}

/// The servo is never sent out of its range.
pub proof fn law_targets_are_in_range(t: ServoTestModel)
    requires
        t.wf(),
    ensures
        action_of(t) matches ServoTestAction::SetPos(position) ==> in_servo_range(position),
{
    angle::law_positions_are_in_range(MAIN_VALVE_CLOSED_ANGLE_X10);
    angle::law_positions_are_in_range(MAIN_VALVE_OPEN_ANGLE_X10);
}

/// A failure in a sweep is reported only after the servo was sent back to the centre, and is
/// reported as it was unless that fails too.
pub proof fn law_failed_sweep_returns_to_center(t: ServoTestModel, source: IcsError)
    requires
        t.phase is Move || t.phase is Sample,
    ensures
        ({
            let after = after_event(t, ServoTestEvent::Position(Err(source)));
            &&& after.phase matches ServoTestPhase::ErrorReturn(error)
            &&& action_of(after) == ServoTestAction::SetPos(SERVO_CENTER_POS)
            &&& after.summary == t.summary
            &&& forall|position: u16| (#[trigger] after_event(
                after,
                ServoTestEvent::Position(Ok(position)),
            )) == after.failed(error)
        }),
{
}

/// A test passes only when the servo confirms the last return to the centre, or, if it is let go at
/// the end, that.
pub proof fn law_test_passes_at_the_center(t: ServoTestModel, event: ServoTestEvent)
    requires
        t.phase !is Finished,
        after_event(t, event).phase matches ServoTestPhase::Finished(Ok(_)),
    ensures
        t.phase == ServoTestPhase::SetFree || (action_of(t) == ServoTestAction::SetPos(
            SERVO_CENTER_POS,
        ) && t.phase == ServoTestPhase::FinalCenter && !t.plan.free_at_end),
{
}

/// Only a plan without repetition leads to the last return to the centre.
pub proof fn law_repetition_does_not_end(t: ServoTestModel, event: ServoTestEvent)
    requires
        t.plan.repeat,
        t.phase != ServoTestPhase::FinalCenter,
    ensures
        after_event(t, event).phase != ServoTestPhase::FinalCenter,
        after_event(t, event).plan == t.plan,
{
}

/// A test that has ended stays as it is.
pub proof fn law_end_is_final(t: ServoTestModel, event: ServoTestEvent)
    requires
        t.phase is Finished,
    ensures
        after_event(t, event) == t,
{
}

/// The standard plan moves three hundred steps to either side, over and over.
pub proof fn law_standard_plan()
    ensures
        standard_plan().step_pos == 300,
        standard_plan().repeat,
        !standard_plan().free_at_end,
        !standard_plan().open_close_full_range,
{
}

/// The small moves go as far to one side of the centre as to the other, and a plan is sound exactly
/// if they stay in the servo's range, four thousand steps to either side.
pub proof fn law_small_moves(plan: ServoTestPlan)
    ensures
        in_servo_range(min_position(plan.step_pos)) && in_servo_range(max_position(plan.step_pos))
            <==> plan.step_pos <= 4000,
        plan.step_pos <= 4000 ==> {
            let summary = initial_test(plan).summary;
            &&& summary.center_position == 7500
            &&& summary.min_test_position == 7500 - plan.step_pos
            &&& summary.max_test_position == 7500 + plan.step_pos
            &&& summary.move_count == 0 && summary.communication_success_count == 0
            &&& summary.free_at_end == plan.free_at_end
        },
        forall|position: u16| #[trigger]
            in_servo_range(position) <==> 3500 <= position <= 11500,
{
}

/// The test opens by asking for the identifier and the position, goes to the centre, lets the servo
/// settle for half a second, asks for the position again, and begins the small moves. Every answer
/// is counted and the move too; the first position is kept as the initial one, and the last one as
/// the final one.
pub proof fn law_opening_of_the_test(
    plan: ServoTestPlan,
    id: u8,
    first: u16,
    returned: u16,
    centered: u16,
)
    ensures
        ({
            let t0 = initial_test(plan);
            let t1 = after_event(t0, ServoTestEvent::Id(Ok(id)));
            let t2 = after_event(t1, ServoTestEvent::Position(Ok(first)));
            let t3 = after_event(t2, ServoTestEvent::Position(Ok(returned)));
            let t4 = after_event(t3, ServoTestEvent::Waited);
            let t5 = after_event(t4, ServoTestEvent::Position(Ok(centered)));
            &&& action_of(t0) == ServoTestAction::GetId
            &&& action_of(t1) == ServoTestAction::GetPos
            &&& action_of(t2) == ServoTestAction::SetPos(7500)
            &&& action_of(t3) == ServoTestAction::WaitMs(500)
            &&& action_of(t4) == ServoTestAction::GetPos
            &&& t5.phase == (ServoTestPhase::Move { sweep: Sweep::Small, index: 0 })
            &&& t5.summary.detected_id == id
            &&& t5.summary.initial_position == first
            &&& t5.summary.initial_angle_x10 == angle::angle_of(first) as i16
            &&& t2.summary.final_position == first && t3.summary.final_position == first
            &&& t5.summary.final_position == centered
            &&& t5.summary.move_count == 1
            &&& t5.summary.communication_success_count == 4
        }),
{
}

/// Each position of a sweep is commanded, given half a second to settle, sampled, and held for a
/// second; then the next one follows. The move and both answers are counted, and the sample is the
/// final position so far.
pub proof fn law_positions_of_a_sweep(
    t: ServoTestModel,
    sweep: Sweep,
    index: usize,
    returned: u16,
    sampled: u16,
)
    requires
        t.wf(),
        t.phase == (ServoTestPhase::Move { sweep, index }),
        t.summary.move_count < u32::MAX,
        t.summary.communication_success_count < u32::MAX - 1,
    ensures
        ({
            let t1 = after_event(t, ServoTestEvent::Position(Ok(returned)));
            let t2 = after_event(t1, ServoTestEvent::Waited);
            let t3 = after_event(t2, ServoTestEvent::Position(Ok(sampled)));
            let t4 = after_event(t3, ServoTestEvent::Waited);
            let last: int = if sweep == Sweep::Small {
                3
            } else {
                2
            };
            &&& action_of(t1) == ServoTestAction::WaitMs(500)
            &&& action_of(t2) == ServoTestAction::GetPos
            &&& action_of(t3) == ServoTestAction::WaitMs(1000)
            &&& t4.summary.move_count == t.summary.move_count + 1
            &&& t4.summary.communication_success_count == t.summary.communication_success_count + 2
            &&& t4.summary.final_position == sampled
            &&& t4.summary.final_angle_x10 == angle::angle_of(sampled) as i16
            &&& index < last ==> t4.phase == (ServoTestPhase::Move {
                sweep,
                index: (index + 1) as usize,
            })
            &&& index == last && sweep == Sweep::Small && t.plan.open_close_full_range ==> t4.phase
                == (ServoTestPhase::Move { sweep: Sweep::FullRange, index: 0 })
            &&& index == last && sweep == Sweep::Small && !t.plan.open_close_full_range
                && t.plan.repeat ==> action_of(t4) == ServoTestAction::ReportAndWaitMs(1000)
            &&& index == last && sweep == Sweep::Small && !t.plan.open_close_full_range
                && !t.plan.repeat ==> t4.phase == ServoTestPhase::FinalCenter
            &&& index == last && sweep == Sweep::FullRange ==> t4.phase
                == ServoTestPhase::FullRangeReturn
        }),
{
}

/// The small sweep goes to the lower side, back to the centre, to the upper side and back; the full
/// sweep closes the valve, opens it and closes it again.
pub proof fn law_targets_of_the_sweeps(t: ServoTestModel, sweep: Sweep, index: usize)
    requires
        t.wf(),
        t.phase == (ServoTestPhase::Move { sweep, index }),
    ensures
        action_of(t) == ServoTestAction::SetPos(
            match sweep {
                Sweep::Small => if index == 0 {
                    t.summary.min_test_position
                } else if index == 2 {
                    t.summary.max_test_position
                } else {
                    7500
                },
                Sweep::FullRange => if index == 1 {
                    6468
                } else {
                    9135
                },
            },
        ),
        index <= match sweep {
            Sweep::Small => 3int,
            Sweep::FullRange => 2int,
        },
{
}

/// After the full sweep the servo returns to the centre, and the round ends as any other: a plan that
/// repeats reports and begins the next round after a second; any other returns to the centre for the
/// last time, lets the servo go if it is to, and passes.
pub proof fn law_end_of_the_test(t: ServoTestModel, position: u16)
    ensures
        ({
            let answered = after_event(t, ServoTestEvent::Position(Ok(position)));
            &&& t.phase == ServoTestPhase::FullRangeReturn ==> action_of(t)
                == ServoTestAction::SetPos(7500) && answered.phase == if t.plan.repeat {
                ServoTestPhase::RepeatWait
            } else {
                ServoTestPhase::FinalCenter
            }
            &&& t.phase == ServoTestPhase::RepeatWait ==> action_of(t)
                == ServoTestAction::ReportAndWaitMs(1000) && after_event(
                t,
                ServoTestEvent::Waited,
            ).phase == (ServoTestPhase::Move { sweep: Sweep::Small, index: 0 })
            &&& t.phase == ServoTestPhase::FinalCenter ==> action_of(t) == ServoTestAction::SetPos(
                7500,
            ) && (if t.plan.free_at_end {
                answered.phase == ServoTestPhase::SetFree
            } else {
                answered.phase == ServoTestPhase::Finished(Ok(()))
            })
            &&& t.phase == ServoTestPhase::SetFree ==> action_of(t) == ServoTestAction::SetFree
                && answered.phase == ServoTestPhase::Finished(Ok(()))
        }),
{
}

/// What an answer adds to the summary: one to the answers, one to the moves if it confirms a move,
/// and the final position unless it confirms a move that is sampled later. On the way back after a
/// failure nothing is counted.
pub proof fn law_answers_are_counted(t: ServoTestModel, position: u16)
    requires
        t.can_count(),
        action_of(t) is SetPos || action_of(t) == ServoTestAction::GetPos || action_of(t)
            == ServoTestAction::SetFree,
    ensures
        ({
            let after = after_event(t, ServoTestEvent::Position(Ok(position))).summary;
            let before = t.summary;
            let sampled_later = t.phase == ServoTestPhase::SetCenter || t.phase is Move;
            if t.phase is ErrorReturn {
                after == before
            } else {
                &&& after.communication_success_count == before.communication_success_count + 1
                &&& after.move_count == before.move_count + if action_of(t) is SetPos {
                    1int
                } else {
                    0
                }
                &&& after.final_position == if sampled_later {
                    before.final_position
                } else {
                    position
                }
                &&& after.final_angle_x10 == if sampled_later {
                    before.final_angle_x10
                } else {
                    angle::angle_of(position) as i16
                }
                &&& t.phase != ServoTestPhase::GetInitialPos ==> after.initial_position
                    == before.initial_position
                &&& after.detected_id == before.detected_id
            }
        }),
{
}

/// A failure is named by the request that failed: a move by the position that was commanded, and both
/// by the stage of the test. Before the sweeps and on the returns to the centre the test ends with
/// it at once.
pub proof fn law_failures_are_named(t: ServoTestModel, source: IcsError)
    ensures
        ({
            let after = after_event(t, ServoTestEvent::Position(Err(source)));
            let ends_with = |error: ServoTestError|
                after.phase == ServoTestPhase::Finished(Err(error));
            match t.phase {
                ServoTestPhase::GetInitialPos => ends_with(
                    ServoTestError::GetPosFailed { stage: ServoTestStage::GetPosInitial, source },
                ),
                ServoTestPhase::SetCenter => ends_with(
                    ServoTestError::SetCenterFailed {
                        stage: ServoTestStage::SetCenter,
                        expected: 7500,
                        source,
                    },
                ),
                ServoTestPhase::GetCenterPos => ends_with(
                    ServoTestError::GetPosFailed {
                        stage: ServoTestStage::GetPosAfterCenter,
                        source,
                    },
                ),
                ServoTestPhase::Move { sweep, .. } => after.phase == ServoTestPhase::ErrorReturn(
                    ServoTestError::SmallMoveFailed {
                        stage: if sweep == Sweep::Small {
                            ServoTestStage::SmallSweep
                        } else {
                            ServoTestStage::FullRange
                        },
                        expected: action_of(t)->SetPos_0,
                        source,
                    },
                ),
                ServoTestPhase::Sample { sweep, .. } => after.phase == ServoTestPhase::ErrorReturn(
                    ServoTestError::GetPosFailed {
                        stage: if sweep == Sweep::Small {
                            ServoTestStage::SmallSweep
                        } else {
                            ServoTestStage::FullRange
                        },
                        source,
                    },
                ),
                ServoTestPhase::FullRangeReturn => ends_with(
                    ServoTestError::ReturnCenterFailed {
                        stage: ServoTestStage::FullRangeReturnCenter,
                        expected: 7500,
                        source,
                    },
                ),
                ServoTestPhase::FinalCenter => ends_with(
                    ServoTestError::ReturnCenterFailed {
                        stage: ServoTestStage::FinalCenter,
                        expected: 7500,
                        source,
                    },
                ),
                ServoTestPhase::SetFree => ends_with(
                    ServoTestError::FreeFailed { stage: ServoTestStage::SetFree, source },
                ),
                ServoTestPhase::ErrorReturn(_) => ends_with(
                    ServoTestError::ReturnCenterFailed {
                        stage: ServoTestStage::ErrorReturnCenter,
                        expected: 7500,
                        source,
                    },
                ),
                _ => after == t,
            }
        }),
        t.phase == ServoTestPhase::GetId ==> after_event(t, ServoTestEvent::Id(Err(source))).phase
            == ServoTestPhase::Finished(
            Err(ServoTestError::GetIdFailed { stage: ServoTestStage::GetId, source }),
        ),
{
}

/// The test reports under the stage that it is in: the requests of the opening and the returns under
/// their own names, everything in a sweep under that of the sweep, and nothing once it has ended.
pub proof fn law_stages_are_named(t: ServoTestModel, sweep: Sweep)
    ensures
        ({
            let named = |stage: ServoTestStage, name: Seq<char>|
                phase_stage(t.phase) == Some(stage) && stage_name(stage) == name;
            let in_sweep = if sweep == Sweep::Small {
                named(ServoTestStage::SmallSweep, "small_sweep"@)
            } else {
                named(ServoTestStage::FullRange, "full_range"@)
            };
            match t.phase {
                ServoTestPhase::GetId => named(ServoTestStage::GetId, "get_id"@),
                ServoTestPhase::GetInitialPos => named(
                    ServoTestStage::GetPosInitial,
                    "get_pos_initial"@,
                ),
                ServoTestPhase::SetCenter => named(ServoTestStage::SetCenter, "set_center"@),
                ServoTestPhase::SettleAtCenter => named(ServoTestStage::SetCenter, "set_center"@),
                ServoTestPhase::GetCenterPos => named(
                    ServoTestStage::GetPosAfterCenter,
                    "get_pos_after_center"@,
                ),
                ServoTestPhase::Move { sweep: s, .. } => s == sweep ==> in_sweep,
                ServoTestPhase::Settle { sweep: s, .. } => s == sweep ==> in_sweep,
                ServoTestPhase::Sample { sweep: s, .. } => s == sweep ==> in_sweep,
                ServoTestPhase::Hold { sweep: s, .. } => s == sweep ==> in_sweep,
                ServoTestPhase::FullRangeReturn => named(
                    ServoTestStage::FullRangeReturnCenter,
                    "full_range_return_center"@,
                ),
                ServoTestPhase::RepeatWait => named(ServoTestStage::RepeatWait, "repeat_wait"@),
                ServoTestPhase::FinalCenter => named(ServoTestStage::FinalCenter, "final_center"@),
                ServoTestPhase::SetFree => named(ServoTestStage::SetFree, "set_free"@),
                ServoTestPhase::ErrorReturn(_) => named(
                    ServoTestStage::ErrorReturnCenter,
                    "error_return_center"@,
                ),
                ServoTestPhase::Finished(_) => phase_stage(t.phase) is None,
            }
        }),
{
}

} // verus!
