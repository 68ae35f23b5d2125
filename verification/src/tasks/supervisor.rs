//! The supervisor: runs the firing sequence and drives the outputs.
use vstd::prelude::*;

use crate::board::{BoardModel, BoardState};
use crate::control::{ControlDecision, ControlIntent, SequencePhase, ServoAction};
use crate::servo_control::{
    RequestedServoAction, ScheduleCall, ScheduleRules, ServoCommandModel, ServoCommandState,
    ServoDispatch, ServoPhase,
};
use crate::{
    board, control, servo_control, time, CAN_FAULTS, FIRING_OPEN_SEND_MAX, FIRING_TOTAL_TIMEOUT_MS,
    IGNITION_WAIT_MS, INPUT_CAN_LINK_ACTIVE, INPUT_DUMP_REQUEST, INPUT_FILL_REQUEST,
    INPUT_FIRE_REQUEST, INPUT_O2_TEST_REQUEST, INPUT_OPERATOR_ACTION_MASK, INPUT_SEPARATE_REQUEST,
    INPUT_VALVE_OPEN_REQUEST, INPUT_VALVE_SET_REQUEST, IN_IGNITER_POWER_PRESENT, IN_RELAY_12V_ON,
    IN_RELAY_24V_ON, IN_SOLENOID_POWER_PRESENT, MAIN_VALVE_CLOSED_ANGLE_X10,
    MAIN_VALVE_OPEN_ANGLE_X10, MAIN_VALVE_OPEN_DELAY_MS, O2_OFF_DELAY_AFTER_VALVE_OPEN_MS,
    OPEN_LATCH_RELEASE_DELAY_MS, OUT_DUMP, OUT_FILL, OUT_IGNITER, OUT_O2, OUT_SEPARATE,
    SERVO_COMM_ERROR, SERVO_MODE_COMMAND, SERVO_MODE_HOLD, SERVO_POLL_INTERVAL_MS,
};

verus! {

/// The levels of the monitored input pins at one moment.
#[derive(Clone, Copy, Debug, PartialEq, Eq, Structural)]
pub struct InputGpioPins {
    pub solenoid_power_check: bool,
    pub relay_12v_check: bool,
    pub igniter_power_check: bool,
    pub relay_24v_check: bool,
}

/// `mask` if `on`, otherwise nothing.
pub open spec fn bit_if(on: bool, mask: u8) -> int {
    if on {
        mask as int
    } else {
        0
    }
}

/// The input status byte: one bit for each pin that is high.
pub open spec fn input_status(pins: InputGpioPins) -> u8 {
    (bit_if(pins.solenoid_power_check, IN_SOLENOID_POWER_PRESENT) + bit_if(
        pins.relay_12v_check,
        IN_RELAY_12V_ON,
    ) + bit_if(pins.igniter_power_check, IN_IGNITER_POWER_PRESENT) + bit_if(
        pins.relay_24v_check,
        IN_RELAY_24V_ON,
    )) as u8
}

impl InputGpioPins {
    pub fn new(
        solenoid_power_check: bool,
        relay_12v_check: bool,
        igniter_power_check: bool,
        relay_24v_check: bool,
    ) -> (pins: Self)
        ensures
            pins == (InputGpioPins {
                solenoid_power_check,
                relay_12v_check,
                igniter_power_check,
                relay_24v_check,
            }),
    {
        Self { solenoid_power_check, relay_12v_check, igniter_power_check, relay_24v_check }
    }

    pub fn status(&self) -> (status: u8)
        ensures
            status == input_status(*self),
    {
        let mut status: u8 = 0;
        if self.solenoid_power_check {
            status = status | IN_SOLENOID_POWER_PRESENT;
        }
        if self.relay_12v_check {
            status = status | IN_RELAY_12V_ON;
        }
        if self.igniter_power_check {
            status = status | IN_IGNITER_POWER_PRESENT;
        }
        if self.relay_24v_check {
            status = status | IN_RELAY_24V_ON;
        }
        proof {
            lemma_disjoint_bits();
        }
        status
    }
}

/// Joining a bit that is not there yet adds it.
proof fn lemma_disjoint_bits()
    ensures
        forall|s: u8| s < 0x01 ==> #[trigger] (s | 0x01u8) == s + 0x01,
        forall|s: u8| s < 0x02 ==> #[trigger] (s | 0x02u8) == s + 0x02,
        forall|s: u8| s < 0x04 ==> #[trigger] (s | 0x04u8) == s + 0x04,
        forall|s: u8| s < 0x08 ==> #[trigger] (s | 0x08u8) == s + 0x08,
        forall|s: u8| s < 0x10 ==> #[trigger] (s | 0x10u8) == s + 0x10,
{
    assert(forall|s: u8| s < 0x01 ==> #[trigger] (s | 0x01u8) == s + 0x01) by (bit_vector);
    assert(forall|s: u8| s < 0x02 ==> #[trigger] (s | 0x02u8) == s + 0x02) by (bit_vector);
    assert(forall|s: u8| s < 0x04 ==> #[trigger] (s | 0x04u8) == s + 0x04) by (bit_vector);
    assert(forall|s: u8| s < 0x08 ==> #[trigger] (s | 0x08u8) == s + 0x08) by (bit_vector);
    assert(forall|s: u8| s < 0x10 ==> #[trigger] (s | 0x10u8) == s + 0x10) by (bit_vector);
}

/// The levels that the output pins are driven to.
#[derive(Clone, Copy, Debug, PartialEq, Eq, Structural)]
pub struct OutputLevels {
    pub ignition: bool,
    pub dump: bool,
    pub fill: bool,
    pub separate: bool,
    pub o2: bool,
}

/// The operator holds `request`.
pub open spec fn requested(inputs: u32, request: u32) -> bool {
    inputs & request != 0
}

/// The operator asks for nothing.
pub open spec fn operator_neutral(inputs: u32) -> bool {
    inputs & INPUT_OPERATOR_ACTION_MASK == 0
}

/// What the operator's requests mean outside firing. Setting the valve wins over opening it.
pub open spec fn manual_intent(inputs: u32, fire_means_main_valve_open: bool) -> ControlIntent {
    ControlIntent {
        ignition_on: false,
        dump_on: requested(inputs, INPUT_DUMP_REQUEST),
        fill_on: requested(inputs, INPUT_FILL_REQUEST),
        separate_on: requested(inputs, INPUT_SEPARATE_REQUEST),
        o2_on: requested(inputs, INPUT_O2_TEST_REQUEST),
        servo_target_angle_x10: if requested(inputs, INPUT_VALVE_SET_REQUEST) {
            Some(MAIN_VALVE_CLOSED_ANGLE_X10)
        } else if requested(inputs, INPUT_VALVE_OPEN_REQUEST) || (fire_means_main_valve_open
            && requested(inputs, INPUT_FIRE_REQUEST)) {
            Some(MAIN_VALVE_OPEN_ANGLE_X10)
        } else {
            None
        },
    }
}

pub fn apply_manual_outputs(inputs: u32, fire_means_main_valve_open: bool) -> (intent:
    ControlIntent)
    ensures
        intent == manual_intent(inputs, fire_means_main_valve_open),
{
    let mut intent = ControlIntent {
        ignition_on: false,
        dump_on: inputs & INPUT_DUMP_REQUEST != 0,
        fill_on: inputs & INPUT_FILL_REQUEST != 0,
        separate_on: inputs & INPUT_SEPARATE_REQUEST != 0,
        o2_on: inputs & INPUT_O2_TEST_REQUEST != 0,
        servo_target_angle_x10: None,
    };

    let main_valve_open_requested = inputs & INPUT_VALVE_OPEN_REQUEST != 0 || (
    fire_means_main_valve_open && inputs & INPUT_FIRE_REQUEST != 0);

    if inputs & INPUT_VALVE_SET_REQUEST != 0 {
        intent.servo_target_angle_x10 = Some(MAIN_VALVE_CLOSED_ANGLE_X10);
    } else if main_valve_open_requested {
        intent.servo_target_angle_x10 = Some(MAIN_VALVE_OPEN_ANGLE_X10);
    }
    intent
}

/// When, after the start of firing, the igniter comes on.
pub open spec fn ignition_at() -> int {
    time::ms_to_ticks(IGNITION_WAIT_MS)
}

/// When, after the start of firing, the igniter goes off and the main valve opens.
pub open spec fn valve_open_at() -> int {
    time::ms_to_ticks((IGNITION_WAIT_MS + MAIN_VALVE_OPEN_DELAY_MS) as u64)
}

/// When, after the start of firing, the oxygen goes off.
pub open spec fn o2_off_at() -> int {
    valve_open_at() + time::ms_to_ticks(O2_OFF_DELAY_AFTER_VALVE_OPEN_MS)
}

/// When, after its start, firing is over.
pub open spec fn firing_over_at() -> int {
    time::ms_to_ticks(FIRING_TOTAL_TIMEOUT_MS)
}

/// What the firing sequence wants `elapsed` ticks after its start.
pub open spec fn firing_intent(inputs: u32, elapsed: int) -> ControlIntent {
    ControlIntent {
        ignition_on: ignition_at() <= elapsed < valve_open_at(),
        dump_on: requested(inputs, INPUT_DUMP_REQUEST),
        fill_on: false,
        separate_on: false,
        o2_on: elapsed < o2_off_at(),
        servo_target_angle_x10: if elapsed >= valve_open_at() {
            Some(MAIN_VALVE_OPEN_ANGLE_X10)
        } else {
            None
        },
    }
}

pub fn apply_firing_sequence_outputs(inputs: u32, elapsed: u64) -> (intent: ControlIntent)
    ensures
        intent == firing_intent(inputs, elapsed as int),
{
    let mut intent = ControlIntent::safe();
    intent.dump_on = inputs & INPUT_DUMP_REQUEST != 0;

    let valve_open_at_ms: u64 = IGNITION_WAIT_MS + MAIN_VALVE_OPEN_DELAY_MS;
    let o2_off_at_ms: u64 = valve_open_at_ms + O2_OFF_DELAY_AFTER_VALVE_OPEN_MS;

    intent.o2_on = elapsed < time::duration_from_millis(o2_off_at_ms);
    intent.ignition_on = elapsed >= time::duration_from_millis(IGNITION_WAIT_MS) && elapsed
        < time::duration_from_millis(valve_open_at_ms);

    if elapsed >= time::duration_from_millis(valve_open_at_ms) {
        intent.servo_target_angle_x10 = Some(MAIN_VALVE_OPEN_ANGLE_X10);
    }
    intent
}

pub open spec fn safe_decision() -> ControlDecision {
    ControlDecision {
        ignition_on: false,
        dump_on: false,
        fill_on: false,
        separate_on: false,
        o2_on: false,
        servo_action: ServoAction::Hold,
        allow_new_ignition: false,
    }
}

/// The decision that switches everything off and leaves the servo where it is.
pub fn force_safe_outputs() -> (decision: ControlDecision)
    ensures
        decision == safe_decision(),
{
    ControlDecision {
        ignition_on: false,
        dump_on: false,
        fill_on: false,
        separate_on: false,
        o2_on: false,
        servo_action: ServoAction::Hold,
        allow_new_ignition: false,
    }
}

/// A CAN fault is latched and the control panel is not heard.
pub open spec fn can_input_fault(faults: u8, inputs: u32) -> bool {
    faults & CAN_FAULTS != 0 && !control::link_active(inputs)
}

pub fn has_active_can_input_fault(faults: u8, inputs: u32) -> (fault: bool)
    ensures
        fault == can_input_fault(faults, inputs),
{
    faults & CAN_FAULTS != 0 && inputs & INPUT_CAN_LINK_ACTIVE == 0
}

pub fn has_firing_fault(faults: u8, phase: SequencePhase) -> (fault: bool)
    ensures
        fault == (faults != 0 && phase == SequencePhase::Firing),
{
    faults != 0 && phase == SequencePhase::Firing
}

/// The conditions under which an abort may be left: no fault, the control panel heard, and the
/// operator asking for nothing.
pub open spec fn may_leave_abort(inputs: u32, faults: u8, phase: SequencePhase) -> bool {
    &&& phase == SequencePhase::Abort
    &&& faults == 0
    &&& operator_neutral(inputs)
    &&& control::link_active(inputs)
}

/// A fresh reset acknowledgement takes an abort back to idle, unless a servo fault during firing
/// has latched it.
pub fn reset_ack_allows_idle(
    reset_ack_edge: bool,
    inputs: u32,
    faults: u8,
    servo_abort_latched: bool,
    phase: SequencePhase,
) -> (allowed: bool)
    ensures
        allowed == (reset_ack_edge && !servo_abort_latched && may_leave_abort(
            inputs,
            faults,
            phase,
        )),
{
    reset_ack_edge && faults == 0 && !servo_abort_latched && phase == SequencePhase::Abort && inputs
        & INPUT_OPERATOR_ACTION_MASK == 0 && inputs & INPUT_CAN_LINK_ACTIVE != 0
}

/// An abort that was entered from idle is left by itself.
pub fn pre_firing_recovery_allows_idle(
    inputs: u32,
    faults: u8,
    abort_before_firing: bool,
    phase: SequencePhase,
) -> (allowed: bool)
    ensures
        allowed == (abort_before_firing && may_leave_abort(inputs, faults, phase)),
{
    abort_before_firing && faults == 0 && phase == SequencePhase::Abort && inputs
        & INPUT_OPERATOR_ACTION_MASK == 0 && inputs & INPUT_CAN_LINK_ACTIVE != 0
}

/// The board together with what the supervisor remembers of the running sequence.
#[verifier::ext_equal]
pub struct SequenceModel {
    pub board: BoardModel,
    pub firing_started_at: Option<u64>,
    pub abort_before_firing: bool,
}

impl SequenceModel {
    pub open spec fn phase(self) -> SequencePhase {
        control::phase_of_byte(self.board.sequence_phase)
    }
}

/// Firing starts on the operator's request, with the control panel heard, no fault at all, and no
/// latch held from an earlier firing.
pub open spec fn firing_starts(inputs: u32, faults: u8, can_start_firing: bool) -> bool {
    &&& control::link_active(inputs)
    &&& faults == 0
    &&& can_start_firing
    &&& requested(inputs, INPUT_FIRE_REQUEST)
}

pub open spec fn after_idle(
    q: SequenceModel,
    inputs: u32,
    faults: u8,
    now: u64,
    can_start_firing: bool,
) -> SequenceModel {
    if firing_starts(inputs, faults, can_start_firing) {
        SequenceModel {
            board: board::after_phase_set(q.board, SequencePhase::Firing),
            firing_started_at: Some(now),
            abort_before_firing: false,
        }
    } else {
        SequenceModel { firing_started_at: None, ..q }
    }
}

pub open spec fn idle_intent(inputs: u32, faults: u8, can_start_firing: bool) -> ControlIntent {
    if firing_starts(inputs, faults, can_start_firing) {
        firing_intent(inputs, 0)
    } else {
        manual_intent(inputs, false)
    }
}

pub fn handle_idle_phase(
    board: &mut BoardState,
    inputs: u32,
    faults: u8,
    now: u64,
    firing_started_at: &mut Option<u64>,
    abort_before_firing: &mut bool,
    can_start_firing: bool,
) -> (intent: ControlIntent)
    ensures
        intent == idle_intent(inputs, faults, can_start_firing),
        (SequenceModel {
            board: final(board)@,
            firing_started_at: *final(firing_started_at),
            abort_before_firing: *final(abort_before_firing),
        }) == after_idle(
            SequenceModel {
                board: old(board)@,
                firing_started_at: *old(firing_started_at),
                abort_before_firing: *old(abort_before_firing),
            },
            inputs,
            faults,
            now,
            can_start_firing,
        ),
{
    *firing_started_at = None;

    let start_permission = control::resolve_control(
        SequencePhase::Idle,
        faults,
        inputs,
        ControlIntent::safe(),
    ).allow_new_ignition;

    if start_permission && can_start_firing && inputs & INPUT_FIRE_REQUEST != 0 {
        *abort_before_firing = false;
        *firing_started_at = Some(now);
        board::set_sequence_phase(board, SequencePhase::Firing);
        return apply_firing_sequence_outputs(inputs, time::duration_from_millis(0));
    }
    apply_manual_outputs(inputs, false)
}

/// The time since the start of firing; firing that has no start on record starts now.
pub open spec fn firing_elapsed(firing_started_at: Option<u64>, now: u64) -> int {
    match firing_started_at {
        Some(started) => now - started,
        None => 0,
    }
}

/// Firing that is over becomes a timeout.
pub open spec fn board_after_firing(
    b: BoardModel,
    firing_started_at: Option<u64>,
    now: u64,
) -> BoardModel {
    if firing_elapsed(firing_started_at, now) >= firing_over_at() {
        board::after_phase_set(b, SequencePhase::Timeout)
    } else {
        b
    }
}

pub open spec fn start_after_firing(firing_started_at: Option<u64>, now: u64) -> Option<u64> {
    if firing_elapsed(firing_started_at, now) >= firing_over_at() {
        None
    } else {
        Some(
            match firing_started_at {
                Some(started) => started,
                None => now,
            },
        )
    }
}

pub open spec fn firing_phase_intent(
    inputs: u32,
    firing_started_at: Option<u64>,
    now: u64,
) -> ControlIntent {
    let elapsed = firing_elapsed(firing_started_at, now);
    if elapsed >= firing_over_at() {
        manual_intent(inputs, true)
    } else {
        firing_intent(inputs, elapsed)
    }
}

pub fn handle_firing_phase(
    board: &mut BoardState,
    inputs: u32,
    now: u64,
    firing_started_at: &mut Option<u64>,
) -> (intent: ControlIntent)
    requires
        *old(firing_started_at) matches Some(started) ==> started <= now,
    ensures
        intent == firing_phase_intent(inputs, *old(firing_started_at), now),
        final(board)@ == board_after_firing(old(board)@, *old(firing_started_at), now),
        *final(firing_started_at) == start_after_firing(*old(firing_started_at), now),
{
    let start: u64 = match *firing_started_at {
        Some(started) => started,
        None => now,
    };
    *firing_started_at = Some(start);
    let elapsed: u64 = time::duration_since(now, start);

    if elapsed >= time::duration_from_millis(FIRING_TOTAL_TIMEOUT_MS) {
        *firing_started_at = None;
        board::set_sequence_phase(board, SequencePhase::Timeout);
        return apply_manual_outputs(inputs, true);
    }
    apply_firing_sequence_outputs(inputs, elapsed)
}

pub fn handle_timeout_phase(
    inputs: u32,
    firing_started_at: &mut Option<u64>,
    abort_before_firing: &mut bool,
) -> (intent: ControlIntent)
    ensures
        intent == manual_intent(inputs, true),
        *final(firing_started_at) is None,
        !*final(abort_before_firing),
{
    *abort_before_firing = false;
    *firing_started_at = None;
    apply_manual_outputs(inputs, true)
}

pub fn handle_abort_phase(inputs: u32, firing_started_at: &mut Option<u64>) -> (intent:
    ControlIntent)
    ensures
        intent == manual_intent(inputs, true),
        *final(firing_started_at) is None,
{
    *firing_started_at = None;
    apply_manual_outputs(inputs, true)
}

/// An abort remembers whether it was entered from idle; a running abort is not entered again.
pub open spec fn after_enter_abort(q: SequenceModel, current_phase: SequencePhase) -> SequenceModel {
    if current_phase != SequencePhase::Abort {
        SequenceModel {
            board: board::after_phase_set(q.board, SequencePhase::Abort),
            abort_before_firing: current_phase == SequencePhase::Idle,
            ..q
        }
    } else {
        q
    }
}

pub fn enter_abort(
    board: &mut BoardState,
    current_phase: SequencePhase,
    abort_before_firing: &mut bool,
)
    ensures
        ({
            let q = SequenceModel {
                board: old(board)@,
                firing_started_at: None,
                abort_before_firing: *old(abort_before_firing),
            };
            &&& final(board)@ == after_enter_abort(q, current_phase).board
            &&& *final(abort_before_firing) == after_enter_abort(
                q,
                current_phase,
            ).abort_before_firing
        }),
{
    if current_phase != SequencePhase::Abort {
        *abort_before_firing = current_phase == SequencePhase::Idle;
        board::set_sequence_phase(board, SequencePhase::Abort);
    }
}

/// The sequence goes back to idle if `allowed`.
pub open spec fn idle_if(q: SequenceModel, allowed: bool) -> SequenceModel {
    if allowed {
        SequenceModel {
            board: board::after_phase_set(q.board, SequencePhase::Idle),
            firing_started_at: None,
            abort_before_firing: false,
        }
    } else {
        q
    }
}

pub fn return_to_idle_after_reset_ack(
    board: &mut BoardState,
    reset_ack_edge: bool,
    inputs: u32,
    faults: u8,
    servo_abort_latched: bool,
    firing_started_at: &mut Option<u64>,
    abort_before_firing: &mut bool,
)
    ensures
        (SequenceModel {
            board: final(board)@,
            firing_started_at: *final(firing_started_at),
            abort_before_firing: *final(abort_before_firing),
        }) == ({
            let q = SequenceModel {
                board: old(board)@,
                firing_started_at: *old(firing_started_at),
                abort_before_firing: *old(abort_before_firing),
            };
            idle_if(
                q,
                reset_ack_edge && !servo_abort_latched && may_leave_abort(inputs, faults, q.phase()),
            )
        }),
{
    if reset_ack_allows_idle(
        reset_ack_edge,
        inputs,
        faults,
        servo_abort_latched,
        board::sequence_phase(board),
    ) {
        *abort_before_firing = false;
        *firing_started_at = None;
        board::set_sequence_phase(board, SequencePhase::Idle);
    }
}

pub fn return_to_idle_after_pre_firing_recovery(
    board: &mut BoardState,
    inputs: u32,
    faults: u8,
    firing_started_at: &mut Option<u64>,
    abort_before_firing: &mut bool,
)
    ensures
        (SequenceModel {
            board: final(board)@,
            firing_started_at: *final(firing_started_at),
            abort_before_firing: *final(abort_before_firing),
        }) == ({
            let q = SequenceModel {
                board: old(board)@,
                firing_started_at: *old(firing_started_at),
                abort_before_firing: *old(abort_before_firing),
            };
            idle_if(q, q.abort_before_firing && may_leave_abort(inputs, faults, q.phase()))
        }),
{
    if pre_firing_recovery_allows_idle(
        inputs,
        faults,
        *abort_before_firing,
        board::sequence_phase(board),
    ) {
        *abort_before_firing = false;
        *firing_started_at = None;
        board::set_sequence_phase(board, SequencePhase::Idle);
    }
}

/// The output status byte: one bit for each output that is on.
pub open spec fn output_status(decision: ControlDecision) -> u8 {
    (bit_if(decision.dump_on, OUT_DUMP) + bit_if(decision.fill_on, OUT_FILL) + bit_if(
        decision.separate_on,
        OUT_SEPARATE,
    ) + bit_if(decision.o2_on, OUT_O2) + bit_if(decision.ignition_on, OUT_IGNITER)) as u8
}

pub open spec fn output_levels(decision: ControlDecision) -> OutputLevels {
    OutputLevels {
        ignition: decision.ignition_on,
        dump: decision.dump_on,
        fill: decision.fill_on,
        separate: decision.separate_on,
        o2: decision.o2_on,
    }
}

/// A hold keeps the last target on record; a signalled angle replaces one that nobody has taken.
pub open spec fn after_decision(
    b: BoardModel,
    decision: ControlDecision,
    angle_command: Option<i16>,
) -> BoardModel {
    BoardModel {
        output_status: output_status(decision),
        servo_control_mode: match decision.servo_action {
            ServoAction::Hold => SERVO_MODE_HOLD,
            ServoAction::MoveTo(_) => SERVO_MODE_COMMAND,
        },
        servo_target_angle_x10: match decision.servo_action {
            ServoAction::Hold => b.servo_target_angle_x10,
            ServoAction::MoveTo(angle_x10) => angle_x10,
        },
        angle_command: match angle_command {
            Some(angle_x10) => seq![angle_x10],
            None => b.angle_command,
        },
        ..b
    }
}

/// Records `decision` on the board, signals the angle to the servo task, and gives the levels to
/// drive.
pub fn apply_decision(
    board: &mut BoardState,
    decision: ControlDecision,
    angle_command: Option<i16>,
) -> (levels: OutputLevels)
    ensures
        levels == output_levels(decision),
        final(board)@ == after_decision(old(board)@, decision, angle_command),
{
    let mut output_status: u8 = 0;
    if decision.dump_on {
        output_status = output_status | OUT_DUMP;
    }
    if decision.fill_on {
        output_status = output_status | OUT_FILL;
    }
    if decision.separate_on {
        output_status = output_status | OUT_SEPARATE;
    }
    if decision.o2_on {
        output_status = output_status | OUT_O2;
    }
    if decision.ignition_on {
        output_status = output_status | OUT_IGNITER;
    }
    proof {
        lemma_disjoint_bits();
    }
    board.output_status = output_status;

    match decision.servo_action {
        ServoAction::Hold => {
            board.servo_control_mode = SERVO_MODE_HOLD;
        },
        ServoAction::MoveTo(angle_x10) => {
            board.servo_target_angle_x10 = angle_x10;
            board.servo_control_mode = SERVO_MODE_COMMAND;
        },
    }
    if let Some(angle_x10) = angle_command {
        board.angle_command_signal.raise(angle_x10);
    }
    OutputLevels {
        ignition: decision.ignition_on,
        dump: decision.dump_on,
        fill: decision.fill_on,
        separate: decision.separate_on,
        o2: decision.o2_on,
    }
}

pub open spec fn servo_phase(phase: SequencePhase) -> ServoPhase {
    match phase {
        SequencePhase::Idle => ServoPhase::Idle,
        SequencePhase::Firing => ServoPhase::Firing,
        SequencePhase::Timeout => ServoPhase::Timeout,
        SequencePhase::Abort => ServoPhase::Abort,
    }
}

impl vstd::std_specs::convert::FromSpecImpl<SequencePhase> for ServoPhase {
    open spec fn obeys_from_spec() -> bool {
        true
    }

    open spec fn from_spec(value: SequencePhase) -> Self {
        servo_phase(value)
    }
}

impl From<SequencePhase> for ServoPhase {
    fn from(value: SequencePhase) -> (phase: Self) {
        match value {
            SequencePhase::Idle => Self::Idle,
            SequencePhase::Firing => Self::Firing,
            SequencePhase::Timeout => Self::Timeout,
            SequencePhase::Abort => Self::Abort,
        }
    }
}

pub open spec fn requested_action(action: ServoAction) -> RequestedServoAction {
    match action {
        ServoAction::Hold => RequestedServoAction::Hold,
        ServoAction::MoveTo(angle_x10) => RequestedServoAction::MoveTo(angle_x10),
    }
}

impl vstd::std_specs::convert::FromSpecImpl<ServoAction> for RequestedServoAction {
    open spec fn obeys_from_spec() -> bool {
        true
    }

    open spec fn from_spec(value: ServoAction) -> Self {
        requested_action(value)
    }
}

impl From<ServoAction> for RequestedServoAction {
    fn from(value: ServoAction) -> (action: Self) {
        match value {
            ServoAction::Hold => Self::Hold,
            ServoAction::MoveTo(angle_x10) => Self::MoveTo(angle_x10),
        }
    }
}

pub open spec fn granted_action(action: RequestedServoAction) -> ServoAction {
    match action {
        RequestedServoAction::Hold => ServoAction::Hold,
        RequestedServoAction::MoveTo(angle_x10) => ServoAction::MoveTo(angle_x10),
    }
}

impl vstd::std_specs::convert::FromSpecImpl<RequestedServoAction> for ServoAction {
    open spec fn obeys_from_spec() -> bool {
        true
    }

    open spec fn from_spec(value: RequestedServoAction) -> Self {
        granted_action(value)
    }
}

impl From<RequestedServoAction> for ServoAction {
    fn from(value: RequestedServoAction) -> (action: Self) {
        match value {
            RequestedServoAction::Hold => Self::Hold,
            RequestedServoAction::MoveTo(angle_x10) => Self::MoveTo(angle_x10),
        }
    }
}

pub open spec fn servo_after_observing(
    servo: ServoCommandModel,
    previous_phase: SequencePhase,
    current_phase: SequencePhase,
    now_ms: u64,
) -> ServoCommandModel {
    if current_phase != previous_phase {
        servo_control::after_phase_transition(servo, servo_phase(current_phase), now_ms)
    } else {
        servo
    }
}

/// Tells the servo scheduler when the phase has changed since it was last told.
pub fn observe_phase_transition(
    board: &BoardState,
    previous_phase: &mut SequencePhase,
    servo_command_state: &mut ServoCommandState,
    now_ms: u64,
)
    ensures
        *final(previous_phase) == control::phase_of_byte(board@.sequence_phase),
        final(servo_command_state)@ == servo_after_observing(
            old(servo_command_state)@,
            *old(previous_phase),
            control::phase_of_byte(board@.sequence_phase),
            now_ms,
        ),
{
    let current_phase = board::sequence_phase(board);
    if current_phase != *previous_phase {
        servo_command_state.on_phase_transition(ServoPhase::from(current_phase), now_ms);
        *previous_phase = current_phase;
    }
}

pub open spec fn after_diagnostics(b: BoardModel, servo: ServoCommandModel) -> BoardModel {
    BoardModel {
        firing_open_latched: servo.open_latched,
        firing_open_send_count: servo.firing_open_send_count,
        open_latch_release_pending: servo.open_latch_release_started_ms is Some,
        ..b
    }
}

/// Puts the state of the open latch on the board.
pub fn publish_servo_diagnostics(board: &mut BoardState, state: &ServoCommandState)
    ensures
        final(board)@ == after_diagnostics(old(board)@, state@),
{
    board.firing_open_latched = state.open_latched();
    board.firing_open_send_count = state.firing_open_send_count();
    board.open_latch_release_pending = state.release_pending();
}

/// Why a servo command was sent.
#[derive(Clone, Copy, Debug, PartialEq, Eq, Structural)]
pub enum ServoCommandKind {
    FiringOpen,
    Close,
    ManualOpen,
}

impl ServoCommandKind {
    /// The name of the kind in the debug log.
    pub fn name(self) -> (name: &'static str)
        ensures
            name@ == match self {
                ServoCommandKind::FiringOpen => "firing_open"@,
                ServoCommandKind::Close => "close"@,
                ServoCommandKind::ManualOpen => "manual_open"@,
            },
    {
        match self {
            Self::FiringOpen => "firing_open",
            Self::Close => "close",
            Self::ManualOpen => "manual_open",
        }
    }
}

/// A line of the debug log about a servo command.
#[derive(Clone, Copy, Debug, PartialEq, Eq, Structural)]
pub struct ServoCommandLog {
    pub kind: ServoCommandKind,
    pub angle_x10: i16,
    pub open_count: u8,
    pub at_ms: u64,
}

pub open spec fn dispatch_log(
    dispatch: ServoDispatch,
    servo: ServoCommandModel,
    now_ms: u64,
) -> Option<ServoCommandLog> {
    match dispatch.signal_angle_x10 {
        Some(angle_x10) => Some(
            ServoCommandLog {
                kind: if angle_x10 == MAIN_VALVE_OPEN_ANGLE_X10 && servo.open_latched {
                    ServoCommandKind::FiringOpen
                } else if angle_x10 == MAIN_VALVE_CLOSED_ANGLE_X10 {
                    ServoCommandKind::Close
                } else {
                    ServoCommandKind::ManualOpen
                },
                angle_x10,
                open_count: servo.firing_open_send_count,
                at_ms: now_ms,
            },
        ),
        None => None,
    }
}

/// The log line of a dispatch that signals an angle.
pub fn log_servo_dispatch(dispatch: ServoDispatch, state: &ServoCommandState, now_ms: u64) -> (log:
    Option<ServoCommandLog>)
    ensures
        log == dispatch_log(dispatch, state@, now_ms),
{
    match dispatch.signal_angle_x10 {
        Some(angle_x10) => {
            let kind = if angle_x10 == MAIN_VALVE_OPEN_ANGLE_X10 && state.open_latched() {
                ServoCommandKind::FiringOpen
            } else if angle_x10 == MAIN_VALVE_CLOSED_ANGLE_X10 {
                ServoCommandKind::Close
            } else {
                ServoCommandKind::ManualOpen
            };
            Some(
                ServoCommandLog {
                    kind,
                    angle_x10,
                    open_count: state.firing_open_send_count(),
                    at_ms: now_ms,
                },
            )
        },
        None => None,
    }
}

/// What one pass of the supervisor asks of the hardware.
#[derive(Clone, Copy, Debug, PartialEq, Eq)]
pub struct SupervisorOutput {
    pub levels: OutputLevels,
    pub servo_command: Option<ServoCommandLog>,
}

/// What the supervisor remembers from one pass to the next.
pub struct SupervisorModel {
    pub firing_started_at: Option<u64>,
    pub abort_before_firing: bool,
    pub servo_abort_latched: bool,
    pub previous_reset_ack_event: u8,
    pub previous_phase: SequencePhase,
    pub servo: ServoCommandModel,
}

/// The supervisor and the board that it works on.
#[verifier::ext_equal]
pub struct ControlModel {
    pub supervisor: SupervisorModel,
    pub board: BoardModel,
}

impl ControlModel {
    pub open spec fn phase(self) -> SequencePhase {
        control::phase_of_byte(self.board.sequence_phase)
    }

    pub open spec fn sequence(self) -> SequenceModel {
        SequenceModel {
            board: self.board,
            firing_started_at: self.supervisor.firing_started_at,
            abort_before_firing: self.supervisor.abort_before_firing,
        }
    }

    pub open spec fn with_sequence(self, q: SequenceModel) -> ControlModel {
        ControlModel {
            supervisor: SupervisorModel {
                firing_started_at: q.firing_started_at,
                abort_before_firing: q.abort_before_firing,
                ..self.supervisor
            },
            board: q.board,
        }
    }
}

/// The servo scheduler has been told of the current phase.
pub open spec fn observed(c: ControlModel, now_ms: u64) -> ControlModel {
    ControlModel {
        supervisor: SupervisorModel {
            previous_phase: c.phase(),
            servo: servo_after_observing(
                c.supervisor.servo,
                c.supervisor.previous_phase,
                c.phase(),
                now_ms,
            ),
            ..c.supervisor
        },
        ..c
    }
}

/// A reset acknowledgement has arrived since the last pass.
pub open spec fn reset_ack_edge(c: ControlModel) -> bool {
    c.board.reset_ack_event_counter != c.supervisor.previous_reset_ack_event
}

/// There is a fault while firing.
pub open spec fn firing_fault(c: ControlModel) -> bool {
    c.board.fault_flags != 0 && c.phase() == SequencePhase::Firing
}

/// A pass begins: the latch may be released, the pins are recorded, the reset counter is read, and
/// a servo fault while firing latches the abort that it leads to.
pub open spec fn sampled(c: ControlModel, now_ms: u64, pins: InputGpioPins) -> ControlModel {
    ControlModel {
        supervisor: SupervisorModel {
            servo: servo_control::after_latch_release(
                c.supervisor.servo,
                now_ms,
                OPEN_LATCH_RELEASE_DELAY_MS,
            ),
            previous_reset_ack_event: c.board.reset_ack_event_counter,
            servo_abort_latched: c.supervisor.servo_abort_latched || (firing_fault(c)
                && c.board.fault_flags & SERVO_COMM_ERROR != 0),
            ..c.supervisor
        },
        board: BoardModel { input_gpio_status: input_status(pins), ..c.board },
    }
}

/// A pass ends with everything switched off and firing forgotten.
pub open spec fn shut_down(c: ControlModel, now_ms: u64) -> ControlModel {
    let c = observed(c, now_ms);
    ControlModel {
        supervisor: SupervisorModel { firing_started_at: None, ..c.supervisor },
        board: after_diagnostics(
            after_decision(c.board, safe_decision(), None),
            c.supervisor.servo,
        ),
    }
}

/// The pass of a board that has lost its control panel: requests are dropped and the sequence
/// aborts.
pub open spec fn aborted_without_link(c: ControlModel, now_ms: u64) -> ControlModel {
    let phase = c.phase();
    let q = SequenceModel {
        board: board::with_inputs(
            c.board,
            board::operator_inputs_replaced(c.board.input_flags, 0),
        ),
        ..c.sequence()
    };
    shut_down(c.with_sequence(after_enter_abort(q, phase)), now_ms)
}

/// An abort is left where the rules allow it.
pub open spec fn recovered(c: ControlModel, reset_ack_edge: bool, now_ms: u64) -> ControlModel {
    let inputs = c.board.input_flags;
    let faults = c.board.fault_flags;
    let acknowledged = if reset_ack_edge {
        observed(
            c.with_sequence(
                idle_if(
                    c.sequence(),
                    !c.supervisor.servo_abort_latched && may_leave_abort(inputs, faults, c.phase()),
                ),
            ),
            now_ms,
        )
    } else {
        c
    };
    observed(
        acknowledged.with_sequence(
            idle_if(
                acknowledged.sequence(),
                acknowledged.supervisor.abort_before_firing && may_leave_abort(
                    inputs,
                    faults,
                    acknowledged.phase(),
                ),
            ),
        ),
        now_ms,
    )
}

/// What the current phase wants.
pub open spec fn phase_intent(c: ControlModel, now: u64) -> ControlIntent {
    let inputs = c.board.input_flags;
    match c.phase() {
        SequencePhase::Idle => idle_intent(
            inputs,
            c.board.fault_flags,
            !c.supervisor.servo.open_latched,
        ),
        SequencePhase::Firing => firing_phase_intent(inputs, c.supervisor.firing_started_at, now),
        SequencePhase::Timeout | SequencePhase::Abort => manual_intent(inputs, true),
    }
}

/// Where the current phase leads.
pub open spec fn advanced(c: ControlModel, now: u64) -> ControlModel {
    let q = c.sequence();
    observed(
        c.with_sequence(
            match c.phase() {
                SequencePhase::Idle => after_idle(
                    q,
                    c.board.input_flags,
                    c.board.fault_flags,
                    now,
                    !c.supervisor.servo.open_latched,
                ),
                SequencePhase::Firing => SequenceModel {
                    board: board_after_firing(q.board, q.firing_started_at, now),
                    firing_started_at: start_after_firing(q.firing_started_at, now),
                    ..q
                },
                SequencePhase::Timeout => SequenceModel {
                    firing_started_at: None,
                    abort_before_firing: false,
                    ..q
                },
                SequencePhase::Abort => SequenceModel { firing_started_at: None, ..q },
            },
        ),
        time::ticks_to_ms(now),
    )
}

/// The limits and angles of the main valve.
pub open spec fn valve_rules() -> ScheduleRules {
    ScheduleRules {
        poll_interval_ms: SERVO_POLL_INTERVAL_MS,
        max_open_attempts: FIRING_OPEN_SEND_MAX,
        open_angle_x10: MAIN_VALVE_OPEN_ANGLE_X10,
        closed_angle_x10: MAIN_VALVE_CLOSED_ANGLE_X10,
    }
}

/// What the interlocks leave of `intent`.
pub open spec fn interlocked(c: ControlModel, intent: ControlIntent) -> ControlDecision {
    control::resolved_control(c.phase(), c.board.fault_flags, c.board.input_flags, intent)
}

/// What the servo scheduler is asked.
pub open spec fn servo_call(c: ControlModel, intent: ControlIntent, now: u64) -> ScheduleCall {
    ScheduleCall {
        phase: servo_phase(c.phase()),
        firing_open_phase: c.phase() == SequencePhase::Firing
            && c.supervisor.firing_started_at is Some && firing_elapsed(
            c.supervisor.firing_started_at,
            now,
        ) >= valve_open_at(),
        requested: requested_action(interlocked(c, intent).servo_action),
        now_ms: time::ticks_to_ms(now),
    }
}

pub open spec fn servo_answer(c: ControlModel, intent: ControlIntent, now: u64) -> ServoDispatch {
    servo_control::scheduled_dispatch(
        c.supervisor.servo,
        servo_call(c, intent, now),
        valve_rules(),
    )
}

/// What is done in the end: the interlocked intent, with the servo as its scheduler says.
pub open spec fn final_decision(c: ControlModel, intent: ControlIntent, now: u64) -> ControlDecision {
    ControlDecision {
        servo_action: granted_action(servo_answer(c, intent, now).action),
        ..interlocked(c, intent)
    }
}

/// A pass ends with `intent` carried out as far as the interlocks allow.
pub open spec fn driven(c: ControlModel, intent: ControlIntent, now: u64) -> ControlModel {
    let servo = servo_control::after_schedule(
        c.supervisor.servo,
        servo_call(c, intent, now),
        valve_rules(),
    );
    ControlModel {
        supervisor: SupervisorModel { servo, ..c.supervisor },
        board: after_diagnostics(
            after_decision(
                c.board,
                final_decision(c, intent, now),
                servo_answer(c, intent, now).signal_angle_x10,
            ),
            servo,
        ),
    }
}

pub open spec fn safe_output() -> SupervisorOutput {
    SupervisorOutput { levels: output_levels(safe_decision()), servo_command: None }
}

/// The supervisor and the board after a pass.
pub open spec fn after_pass(c: ControlModel, now: u64, pins: InputGpioPins) -> ControlModel {
    let now_ms = time::ticks_to_ms(now);
    let start = sampled(c, now_ms, pins);
    if can_input_fault(c.board.fault_flags, c.board.input_flags) {
        aborted_without_link(start, now_ms)
    } else {
        let ready = recovered(start, reset_ack_edge(c), now_ms);
        if firing_fault(ready) {
            shut_down(
                ready.with_sequence(after_enter_abort(ready.sequence(), SequencePhase::Firing)),
                now_ms,
            )
        } else {
            driven(advanced(ready, now), phase_intent(ready, now), now)
        }
    }
}

/// What a pass asks of the hardware.
pub open spec fn pass_output(c: ControlModel, now: u64, pins: InputGpioPins) -> SupervisorOutput {
    let now_ms = time::ticks_to_ms(now);
    let start = sampled(c, now_ms, pins);
    let ready = recovered(start, reset_ack_edge(c), now_ms);
    if can_input_fault(c.board.fault_flags, c.board.input_flags) || firing_fault(ready) {
        safe_output()
    } else {
        let intent = phase_intent(ready, now);
        let next = advanced(ready, now);
        SupervisorOutput {
            levels: output_levels(final_decision(next, intent, now)),
            servo_command: dispatch_log(
                servo_answer(next, intent, now),
                driven(next, intent, now).supervisor.servo,
                now_ms,
            ),
        }
    }
}

/// What a supervisor remembers before its first pass.
pub open spec fn initial_supervisor(b: BoardModel) -> SupervisorModel {
    SupervisorModel {
        firing_started_at: None,
        abort_before_firing: false,
        servo_abort_latched: false,
        previous_reset_ack_event: b.reset_ack_event_counter,
        previous_phase: control::phase_of_byte(b.sequence_phase),
        servo: servo_control::fresh_servo_commands(),
    }
}

/// Runs the firing sequence, one pass at a time.
pub struct Supervisor {
    firing_started_at: Option<u64>,
    abort_before_firing: bool,
    servo_abort_latched: bool,
    previous_reset_ack_event: u8,
    previous_phase: SequencePhase,
    servo_command_state: ServoCommandState,
}

impl View for Supervisor {
    type V = SupervisorModel;

    closed spec fn view(&self) -> SupervisorModel {
        SupervisorModel {
            firing_started_at: self.firing_started_at,
            abort_before_firing: self.abort_before_firing,
            servo_abort_latched: self.servo_abort_latched,
            previous_reset_ack_event: self.previous_reset_ack_event,
            previous_phase: self.previous_phase,
            servo: self.servo_command_state@,
        }
    }
}

impl Supervisor {
    /// A supervisor that takes over `board` as it is.
    pub fn new(board: &BoardState) -> (supervisor: Self)
        ensures
            supervisor@ == initial_supervisor(board@),
    {
        Self {
            firing_started_at: None,
            abort_before_firing: false,
            servo_abort_latched: false,
            previous_reset_ack_event: board.reset_ack_event_counter,
            previous_phase: board::sequence_phase(board),
            servo_command_state: ServoCommandState::new(),
        }
    }

    /// One pass at time `now`, with the input pins at the levels `pins`. The clock never runs
    /// backwards.
    pub fn step(&mut self, board: &mut BoardState, now: u64, pins: InputGpioPins) -> (output:
        SupervisorOutput)
        requires
            old(self)@.firing_started_at matches Some(started) ==> started <= now,
        ensures
            output == pass_output(
                ControlModel { supervisor: old(self)@, board: old(board)@ },
                now,
                pins,
            ),
            (ControlModel { supervisor: final(self)@, board: final(board)@ }) == after_pass(
                ControlModel { supervisor: old(self)@, board: old(board)@ },
                now,
                pins,
            ),
    {
        let now_ms: u64 = time::instant_as_millis(now);
        let ghost c = ControlModel { supervisor: self@, board: board@ };
        let reset_ack_edge = self.sample(board, now_ms, pins);
        let ghost start = ControlModel { supervisor: self@, board: board@ };
        assert(start == sampled(c, now_ms, pins));
        if has_active_can_input_fault(board.fault_flags, board.input_flags) {
            return self.abort_without_link(board, now_ms);
        }
        self.recover(board, reset_ack_edge, now_ms);
        let ghost ready = ControlModel { supervisor: self@, board: board@ };
        assert(ready == recovered(start, reset_ack_edge, now_ms));
        let phase = board::sequence_phase(board);
        if has_firing_fault(board.fault_flags, phase) {
            enter_abort(board, SequencePhase::Firing, &mut self.abort_before_firing);
            assert((ControlModel { supervisor: self@, board: board@ }) == ready.with_sequence(
                after_enter_abort(ready.sequence(), SequencePhase::Firing),
            ));
            return self.finish_safely(board, now_ms);
        }
        let intent = self.advance(board, now);
        self.drive(board, intent, now)
    }

    /// Begins a pass, and tells whether a reset acknowledgement has arrived since the last one.
    fn sample(&mut self, board: &mut BoardState, now_ms: u64, pins: InputGpioPins) -> (edge: bool)
        ensures
            edge == reset_ack_edge(ControlModel { supervisor: old(self)@, board: old(board)@ }),
            (ControlModel { supervisor: final(self)@, board: final(board)@ }) == sampled(
                ControlModel { supervisor: old(self)@, board: old(board)@ },
                now_ms,
                pins,
            ),
    {
        self.servo_command_state.update_latch_release(now_ms, OPEN_LATCH_RELEASE_DELAY_MS);
        board.input_gpio_status = pins.status();
        let faults: u8 = board.fault_flags;
        let reset_ack_event: u8 = board.reset_ack_event_counter;
        let reset_ack_edge = reset_ack_event != self.previous_reset_ack_event;
        self.previous_reset_ack_event = reset_ack_event;

        if has_firing_fault(faults, board::sequence_phase(board)) && faults & SERVO_COMM_ERROR
            != 0 {
            self.servo_abort_latched = true;
        }
        reset_ack_edge
    }

    /// Drops the operator's requests and aborts.
    fn abort_without_link(&mut self, board: &mut BoardState, now_ms: u64) -> (output:
        SupervisorOutput)
        ensures
            output == safe_output(),
            (ControlModel { supervisor: final(self)@, board: final(board)@ })
                == aborted_without_link(
                ControlModel { supervisor: old(self)@, board: old(board)@ },
                now_ms,
            ),
    {
        board::replace_operator_input_flags(board, 0);
        let phase = board::sequence_phase(board);
        enter_abort(board, phase, &mut self.abort_before_firing);
        self.finish_safely(board, now_ms)
    }

    /// Leaves an abort where the rules allow it.
    fn recover(&mut self, board: &mut BoardState, reset_ack_edge: bool, now_ms: u64)
        ensures
            (ControlModel { supervisor: final(self)@, board: final(board)@ }) == recovered(
                ControlModel { supervisor: old(self)@, board: old(board)@ },
                reset_ack_edge,
                now_ms,
            ),
    {
        let inputs: u32 = board.input_flags;
        let faults: u8 = board.fault_flags;
        if reset_ack_edge {
            return_to_idle_after_reset_ack(
                board,
                reset_ack_edge,
                inputs,
                faults,
                self.servo_abort_latched,
                &mut self.firing_started_at,
                &mut self.abort_before_firing,
            );
            self.observe(board, now_ms);
        }
        return_to_idle_after_pre_firing_recovery(
            board,
            inputs,
            faults,
            &mut self.firing_started_at,
            &mut self.abort_before_firing,
        );
        self.observe(board, now_ms);
    }

    /// Runs the current phase.
    fn advance(&mut self, board: &mut BoardState, now: u64) -> (intent: ControlIntent)
        requires
            old(self)@.firing_started_at matches Some(started) ==> started <= now,
        ensures
            final(self)@.firing_started_at matches Some(started) ==> started <= now,
            intent == phase_intent(
                ControlModel { supervisor: old(self)@, board: old(board)@ },
                now,
            ),
            (ControlModel { supervisor: final(self)@, board: final(board)@ }) == advanced(
                ControlModel { supervisor: old(self)@, board: old(board)@ },
                now,
            ),
    {
        let inputs: u32 = board.input_flags;
        let faults: u8 = board.fault_flags;
        let intent = match board::sequence_phase(board) {
            SequencePhase::Idle => {
                let can_start_firing = self.servo_command_state.can_start_firing();
                handle_idle_phase(
                    board,
                    inputs,
                    faults,
                    now,
                    &mut self.firing_started_at,
                    &mut self.abort_before_firing,
                    can_start_firing,
                )
            },
            SequencePhase::Firing => handle_firing_phase(
                board,
                inputs,
                now,
                &mut self.firing_started_at,
            ),
            SequencePhase::Timeout => handle_timeout_phase(
                inputs,
                &mut self.firing_started_at,
                &mut self.abort_before_firing,
            ),
            SequencePhase::Abort => handle_abort_phase(inputs, &mut self.firing_started_at),
        };
        self.observe(board, time::instant_as_millis(now));
        intent
    }

    /// Ends a pass by carrying out `intent` as far as the interlocks allow.
    fn drive(&mut self, board: &mut BoardState, intent: ControlIntent, now: u64) -> (output:
        SupervisorOutput)
        requires
            old(self)@.firing_started_at matches Some(started) ==> started <= now,
        ensures
            ({
                let c = ControlModel { supervisor: old(self)@, board: old(board)@ };
                &&& output.levels == output_levels(final_decision(c, intent, now))
                &&& output.servo_command == dispatch_log(
                    servo_answer(c, intent, now),
                    final(self)@.servo,
                    time::ticks_to_ms(now),
                )
                &&& (ControlModel { supervisor: final(self)@, board: final(board)@ }) == driven(
                    c,
                    intent,
                    now,
                )
            }),
    {
        let now_ms: u64 = time::instant_as_millis(now);
        let phase = board::sequence_phase(board);
        let mut decision = control::resolve_control(
            phase,
            board.fault_flags,
            board.input_flags,
            intent,
        );
        let firing_open_phase = match self.firing_started_at {
            Some(started) => phase == SequencePhase::Firing && time::duration_since(now, started)
                >= time::duration_from_millis(IGNITION_WAIT_MS + MAIN_VALVE_OPEN_DELAY_MS),
            None => false,
        };
        let dispatch = self.servo_command_state.schedule(
            ServoPhase::from(phase),
            firing_open_phase,
            RequestedServoAction::from(decision.servo_action),
            now_ms,
            SERVO_POLL_INTERVAL_MS,
            FIRING_OPEN_SEND_MAX,
            MAIN_VALVE_OPEN_ANGLE_X10,
            MAIN_VALVE_CLOSED_ANGLE_X10,
        );
        decision.servo_action = ServoAction::from(dispatch.action);
        let servo_command = log_servo_dispatch(dispatch, &self.servo_command_state, now_ms);
        let levels = apply_decision(board, decision, dispatch.signal_angle_x10);
        publish_servo_diagnostics(board, &self.servo_command_state);
        SupervisorOutput { levels, servo_command }
    }

    /// Tells the servo scheduler of the current phase.
    fn observe(&mut self, board: &BoardState, now_ms: u64)
        ensures
            (ControlModel { supervisor: final(self)@, board: board@ }) == observed(
                ControlModel { supervisor: old(self)@, board: board@ },
                now_ms,
            ),
    {
        observe_phase_transition(
            board,
            &mut self.previous_phase,
            &mut self.servo_command_state,
            now_ms,
        );
    }

    /// Ends a pass with everything switched off.
    fn finish_safely(&mut self, board: &mut BoardState, now_ms: u64) -> (output: SupervisorOutput)
        ensures
            output == safe_output(),
            (ControlModel { supervisor: final(self)@, board: final(board)@ }) == shut_down(
                ControlModel { supervisor: old(self)@, board: old(board)@ },
                now_ms,
            ),
    {
        self.observe(board, now_ms);
        self.firing_started_at = None;
        let levels = apply_decision(board, force_safe_outputs(), None);
        publish_servo_diagnostics(board, &self.servo_command_state);
        SupervisorOutput { levels, servo_command: None }
    }
}

} // verus!
