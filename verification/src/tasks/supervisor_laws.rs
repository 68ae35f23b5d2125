//! What holds of every pass of the supervisor.
use vstd::prelude::*;

use crate::board::BoardModel;
use crate::control::SequencePhase;
use crate::tasks::supervisor;
use crate::tasks::supervisor::{ControlModel, InputGpioPins, ServoCommandKind};
use crate::{
    bits, control, servo_control, time, CAN_FAULTS, FIRING_OPEN_SEND_MAX,
    HARD_OUTPUT_INHIBIT_FAULTS, INPUT_CAN_LINK_ACTIVE, INPUT_DUMP_REQUEST, INPUT_FILL_REQUEST,
    INPUT_FIRE_REQUEST, INPUT_O2_TEST_REQUEST, INPUT_OPERATOR_ACTION_MASK, INPUT_SEPARATE_REQUEST,
    INPUT_VALVE_OPEN_REQUEST, INPUT_VALVE_SET_REQUEST, MAIN_VALVE_OPEN_ANGLE_X10,
    OPEN_LATCH_RELEASE_DELAY_MS, SERVO_COMM_ERROR, SERVO_MODE_COMMAND, SERVO_MODE_HOLD,
    SERVO_POLL_INTERVAL_MS,
};

verus! {

/// The state in which the phase is run: sampled, and with an abort left where that is allowed.
pub open spec fn ready(c: ControlModel, now: u64, pins: InputGpioPins) -> ControlModel {
    let now_ms = time::ticks_to_ms(now);
    supervisor::recovered(
        supervisor::sampled(c, now_ms, pins),
        supervisor::reset_ack_edge(c),
        now_ms,
    )
}

/// An abort is left in this pass.
pub open spec fn leaves_abort(c: ControlModel, now: u64, pins: InputGpioPins) -> bool {
    let servo_abort_latched = supervisor::sampled(
        c,
        time::ticks_to_ms(now),
        pins,
    ).supervisor.servo_abort_latched;
    &&& supervisor::may_leave_abort(c.board.input_flags, c.board.fault_flags, c.phase())
    &&& c.supervisor.abort_before_firing || (supervisor::reset_ack_edge(c) && !servo_abort_latched)
}

proof fn lemma_ready(c: ControlModel, now: u64, pins: InputGpioPins)
    ensures
        ({
            let r = ready(c, now, pins);
            &&& r.board.fault_flags == c.board.fault_flags
            &&& r.board.input_flags == c.board.input_flags
            &&& r.phase() == if leaves_abort(c, now, pins) {
                SequencePhase::Idle
            } else {
                c.phase()
            }
            &&& !leaves_abort(c, now, pins) ==> {
                &&& r.supervisor.firing_started_at == c.supervisor.firing_started_at
                &&& r.supervisor.abort_before_firing == c.supervisor.abort_before_firing
            }
            &&& leaves_abort(c, now, pins) ==> {
                &&& r.supervisor.firing_started_at is None
                &&& !r.supervisor.abort_before_firing
            }
            &&& r.supervisor.servo_abort_latched == supervisor::sampled(
                c,
                time::ticks_to_ms(now),
                pins,
            ).supervisor.servo_abort_latched
            &&& r.supervisor.servo.open_latched == servo_control::after_latch_release(
                c.supervisor.servo,
                time::ticks_to_ms(now),
                OPEN_LATCH_RELEASE_DELAY_MS,
            ).open_latched
        }),
{
}

proof fn lemma_neutral_operator_does_not_fire(inputs: u32)
    requires
        supervisor::operator_neutral(inputs),
    ensures
        !supervisor::requested(inputs, INPUT_FIRE_REQUEST),
{
    assert(inputs & INPUT_OPERATOR_ACTION_MASK == 0 ==> inputs & INPUT_FIRE_REQUEST == 0)
        by (bit_vector);
}

/// The igniter is on only while firing, with the control panel heard, without any fault, and
/// between the end of the ignition wait and the opening of the main valve. The servo holds then.
pub proof fn law_igniter_interlock(c: ControlModel, now: u64, pins: InputGpioPins)
    requires
        supervisor::pass_output(c, now, pins).levels.ignition,
    ensures
        control::link_active(c.board.input_flags),
        c.board.fault_flags == 0,
        supervisor::after_pass(c, now, pins).phase() == SequencePhase::Firing,
        c.phase() == SequencePhase::Firing,
        supervisor::ignition_at() <= supervisor::firing_elapsed(
            c.supervisor.firing_started_at,
            now,
        ) < supervisor::valve_open_at(),
        supervisor::after_pass(c, now, pins).board.servo_control_mode == SERVO_MODE_HOLD,
{
    lemma_ready(c, now, pins);
    let r = ready(c, now, pins);
    let next = supervisor::advanced(r, now);
    assert(next.board.fault_flags == c.board.fault_flags);
    assert(next.board.input_flags == c.board.input_flags);
}

/// Nothing is on and the servo is left alone: no level is high, the servo holds, and no angle is
/// signalled.
pub open spec fn outputs_off(c: ControlModel, now: u64, pins: InputGpioPins) -> bool {
    &&& supervisor::pass_output(c, now, pins) == supervisor::safe_output()
    &&& supervisor::after_pass(c, now, pins).board.output_status == 0
    &&& supervisor::after_pass(c, now, pins).board.servo_control_mode == SERVO_MODE_HOLD
    &&& supervisor::after_pass(c, now, pins).board.angle_command == c.board.angle_command
}

/// Without the control panel nothing is driven.
pub proof fn law_no_link_no_outputs(c: ControlModel, now: u64, pins: InputGpioPins)
    requires
        !control::link_active(c.board.input_flags),
    ensures
        outputs_off(c, now, pins),
{
    lemma_ready(c, now, pins);
    let next = supervisor::advanced(ready(c, now, pins), now);
    assert(next.board.input_flags == c.board.input_flags);
}

/// With a fault that inhibits outputs nothing is driven.
pub proof fn law_hard_fault_no_outputs(c: ControlModel, now: u64, pins: InputGpioPins)
    requires
        c.board.fault_flags & HARD_OUTPUT_INHIBIT_FAULTS != 0,
    ensures
        outputs_off(c, now, pins),
{
    lemma_ready(c, now, pins);
    let next = supervisor::advanced(ready(c, now, pins), now);
    assert(next.board.fault_flags == c.board.fault_flags);
}

/// Any fault while firing aborts in the same pass and switches everything off.
pub proof fn law_fault_while_firing_aborts(c: ControlModel, now: u64, pins: InputGpioPins)
    requires
        supervisor::firing_fault(c),
    ensures
        outputs_off(c, now, pins),
        supervisor::after_pass(c, now, pins).phase() == SequencePhase::Abort,
        supervisor::after_pass(c, now, pins).supervisor.firing_started_at is None,
        !supervisor::after_pass(c, now, pins).supervisor.abort_before_firing,
{
    lemma_ready(c, now, pins);
}

/// A latched CAN fault without the control panel aborts from every phase and drops the operator's
/// requests.
pub proof fn law_lost_link_aborts(c: ControlModel, now: u64, pins: InputGpioPins)
    requires
        supervisor::can_input_fault(c.board.fault_flags, c.board.input_flags),
    ensures
        outputs_off(c, now, pins),
        supervisor::after_pass(c, now, pins).phase() == SequencePhase::Abort,
        supervisor::operator_neutral(supervisor::after_pass(c, now, pins).board.input_flags),
        supervisor::after_pass(c, now, pins).supervisor.abort_before_firing == if c.phase()
            == SequencePhase::Abort {
            c.supervisor.abort_before_firing
        } else {
            c.phase() == SequencePhase::Idle
        },
{
    let inputs = c.board.input_flags;
    assert(((inputs & !crate::INPUT_COMMAND_MASK) | (0u32 & INPUT_OPERATOR_ACTION_MASK))
        & INPUT_OPERATOR_ACTION_MASK == 0) by (bit_vector);
}

/// Firing starts only from idle, on the operator's request, with the control panel heard, without
/// any fault, and without a latch held from an earlier firing. Its clock starts with it.
pub proof fn law_start_of_firing(c: ControlModel, now: u64, pins: InputGpioPins)
    requires
        c.phase() != SequencePhase::Firing,
    ensures
        supervisor::after_pass(c, now, pins).phase() == SequencePhase::Firing <==> {
            &&& c.phase() == SequencePhase::Idle
            &&& supervisor::requested(c.board.input_flags, INPUT_FIRE_REQUEST)
            &&& control::link_active(c.board.input_flags)
            &&& c.board.fault_flags == 0
            &&& !servo_control::after_latch_release(
                c.supervisor.servo,
                time::ticks_to_ms(now),
                OPEN_LATCH_RELEASE_DELAY_MS,
            ).open_latched
        },
        supervisor::after_pass(c, now, pins).phase() == SequencePhase::Firing
            ==> supervisor::after_pass(c, now, pins).supervisor.firing_started_at == Some(now),
{
    lemma_ready(c, now, pins);
    if leaves_abort(c, now, pins) {
        lemma_neutral_operator_does_not_fire(c.board.input_flags);
    }
    bits::lemma_no_faults();
}

/// The outputs of a firing board without faults follow the clock of the sequence: the oxygen until
/// it is shut off, the igniter between its wait and the opening of the valve, dumping on request,
/// filling and separating never.
pub proof fn law_firing_timeline(c: ControlModel, now: u64, pins: InputGpioPins, started: u64)
    requires
        c.phase() == SequencePhase::Firing,
        c.supervisor.firing_started_at == Some(started),
        control::link_active(c.board.input_flags),
        c.board.fault_flags == 0,
        0 <= now - started < supervisor::firing_over_at(),
    ensures
        ({
            let levels = supervisor::pass_output(c, now, pins).levels;
            let after = supervisor::after_pass(c, now, pins);
            &&& levels.o2 == (now - started < supervisor::o2_off_at())
            &&& levels.ignition == (supervisor::ignition_at() <= now - started
                < supervisor::valve_open_at())
            &&& levels.dump == supervisor::requested(c.board.input_flags, INPUT_DUMP_REQUEST)
            &&& !levels.fill
            &&& !levels.separate
            &&& after.phase() == SequencePhase::Firing
            &&& after.supervisor.firing_started_at == Some(started)
            &&& now - started >= supervisor::valve_open_at() ==> after.supervisor.servo.open_latched
        }),
{
    lemma_ready(c, now, pins);
    bits::lemma_no_faults();
}

/// From the opening of the valve on, the servo task is told the open angle as often as the scheduler
/// allows: attempts are left, and the last one lies the poll interval back.
pub proof fn law_valve_is_opened(c: ControlModel, now: u64, pins: InputGpioPins, started: u64)
    requires
        c.phase() == SequencePhase::Firing,
        c.supervisor.previous_phase == SequencePhase::Firing,
        c.supervisor.firing_started_at == Some(started),
        c.supervisor.servo.open_latch_release_started_ms is None,
        control::link_active(c.board.input_flags),
        c.board.fault_flags == 0,
        supervisor::valve_open_at() <= now - started < supervisor::firing_over_at(),
        c.supervisor.servo.firing_open_send_count < FIRING_OPEN_SEND_MAX,
        servo_control::send_due(
            c.supervisor.servo.last_firing_open_send_ms,
            time::ticks_to_ms(now),
            SERVO_POLL_INTERVAL_MS,
        ),
    ensures
        ({
            let after = supervisor::after_pass(c, now, pins).board;
            &&& after.angle_command == seq![MAIN_VALVE_OPEN_ANGLE_X10]
            &&& after.servo_control_mode == SERVO_MODE_COMMAND
            &&& after.servo_target_angle_x10 == MAIN_VALVE_OPEN_ANGLE_X10
            &&& after.firing_open_send_count == c.supervisor.servo.firing_open_send_count + 1
        }),
{
    lemma_ready(c, now, pins);
    bits::lemma_no_faults();
}

/// Firing ends as a timeout once its time is over, if no fault ends it before.
pub proof fn law_firing_times_out(c: ControlModel, now: u64, pins: InputGpioPins, started: u64)
    requires
        c.phase() == SequencePhase::Firing,
        c.supervisor.firing_started_at == Some(started),
        now - started >= supervisor::firing_over_at(),
    ensures
        supervisor::after_pass(c, now, pins).phase() == if c.board.fault_flags == 0 {
            SequencePhase::Timeout
        } else {
            SequencePhase::Abort
        },
        supervisor::after_pass(c, now, pins).supervisor.firing_started_at is None,
{
    lemma_ready(c, now, pins);
    bits::lemma_no_faults();
}

/// A timeout is final, but for the abort of a lost control panel.
pub proof fn law_timeout_is_not_left(c: ControlModel, now: u64, pins: InputGpioPins)
    requires
        c.phase() == SequencePhase::Timeout,
    ensures
        supervisor::after_pass(c, now, pins).phase() == if supervisor::can_input_fault(
            c.board.fault_flags,
            c.board.input_flags,
        ) {
            SequencePhase::Abort
        } else {
            SequencePhase::Timeout
        },
{
    lemma_ready(c, now, pins);
}

/// An abort is left only for idle, and only without faults, with the control panel heard and the
/// operator asking for nothing: by itself if it was entered from idle, otherwise on a fresh reset
/// acknowledgement that no servo fault while firing blocks.
pub proof fn law_end_of_abort(c: ControlModel, now: u64, pins: InputGpioPins)
    requires
        c.phase() == SequencePhase::Abort,
    ensures
        supervisor::after_pass(c, now, pins).phase() == if leaves_abort(c, now, pins) {
            SequencePhase::Idle
        } else {
            SequencePhase::Abort
        },
{
    lemma_ready(c, now, pins);
    if leaves_abort(c, now, pins) {
        lemma_neutral_operator_does_not_fire(c.board.input_flags);
        bits::lemma_no_faults();
    }
}

/// In an abort the servo holds whatever is requested.
pub proof fn law_abort_holds_servo(c: ControlModel, now: u64, pins: InputGpioPins)
    requires
        supervisor::after_pass(c, now, pins).phase() == SequencePhase::Abort,
    ensures
        supervisor::after_pass(c, now, pins).board.servo_control_mode == SERVO_MODE_HOLD,
        supervisor::after_pass(c, now, pins).board.angle_command == c.board.angle_command,
        supervisor::pass_output(c, now, pins).servo_command is None,
{
    lemma_ready(c, now, pins);
}

/// While firing, and while the open latch is held, the valve is never told to close: a commanded
/// angle is the open angle, and so is a newly signalled one.
pub proof fn law_valve_never_closes_while_firing_or_latched(
    c: ControlModel,
    now: u64,
    pins: InputGpioPins,
)
    requires
        ({
            let after = supervisor::after_pass(c, now, pins);
            after.phase() == SequencePhase::Firing || after.supervisor.servo.open_latched
        }),
    ensures
        ({
            let after = supervisor::after_pass(c, now, pins).board;
            &&& after.servo_control_mode == SERVO_MODE_COMMAND ==> after.servo_target_angle_x10
                == MAIN_VALVE_OPEN_ANGLE_X10
            &&& after.angle_command == c.board.angle_command || after.angle_command
                == seq![MAIN_VALVE_OPEN_ANGLE_X10]
        }),
{
    lemma_ready(c, now, pins);
}

/// The output status byte has one bit for each level that is driven: dump, fill, separate, oxygen and
/// igniter from the lowest on.
pub proof fn law_output_status_reports_levels(c: ControlModel, now: u64, pins: InputGpioPins)
    ensures
        ({
            let levels = supervisor::pass_output(c, now, pins).levels;
            supervisor::after_pass(c, now, pins).board.output_status == (if levels.dump {
                1int
            } else {
                0
            }) + (if levels.fill {
                2int
            } else {
                0
            }) + (if levels.separate {
                4int
            } else {
                0
            }) + (if levels.o2 {
                8int
            } else {
                0
            }) + (if levels.ignition {
                16int
            } else {
                0
            })
        }),
{
}

/// The input status byte has one bit for each pin that is high: solenoid power, the 12 V relay,
/// igniter power and the 24 V relay from the lowest on.
pub proof fn law_input_status_reports_pins(c: ControlModel, now: u64, pins: InputGpioPins)
    ensures
        supervisor::after_pass(c, now, pins).board.input_gpio_status == (
        if pins.solenoid_power_check {
            1int
        } else {
            0
        }) + (if pins.relay_12v_check {
            2int
        } else {
            0
        }) + (if pins.igniter_power_check {
            4int
        } else {
            0
        }) + (if pins.relay_24v_check {
            8int
        } else {
            0
        }),
{
    lemma_ready(c, now, pins);
}

/// A pass changes no fault, and nothing that belongs to the CAN link, to the servo's communication
/// or to the data logger.
pub proof fn law_pass_keeps_what_is_not_its_own(c: ControlModel, now: u64, pins: InputGpioPins)
    ensures
        ({
            let after = supervisor::after_pass(c, now, pins).board;
            &&& after.fault_flags == c.board.fault_flags
            &&& after.reset_ack_event_counter == c.board.reset_ack_event_counter
            &&& after.current_position == c.board.current_position
            &&& after.servo_comm_active == c.board.servo_comm_active
            &&& after.servo_comm_error_count == c.board.servo_comm_error_count
            &&& after.can_comm_active == c.board.can_comm_active
            &&& after.can_health == c.board.can_health
            &&& after.can_tec == c.board.can_tec
            &&& after.can_rec == c.board.can_rec
            &&& after.can_tx_error_count == c.board.can_tx_error_count
            &&& after.can_rx_error_count == c.board.can_rx_error_count
            &&& after.latest_log_data == c.board.latest_log_data
        }),
{
    lemma_ready(c, now, pins);
}

/// What holds between passes: the scheduler's state is well formed, the diagnostics on the board
/// are its own, and only a firing board has a start of firing, which lies in the past.
pub open spec fn between_passes(c: ControlModel, now: u64) -> bool {
    &&& c.supervisor.servo.wf()
    &&& c.supervisor.previous_phase == c.phase()
    &&& c.supervisor.firing_started_at matches Some(started) ==> started <= now && c.phase()
        == SequencePhase::Firing
    &&& c.board.firing_open_latched == c.supervisor.servo.open_latched
    &&& c.board.firing_open_send_count == c.supervisor.servo.firing_open_send_count
    &&& c.board.open_latch_release_pending == (
    c.supervisor.servo.open_latch_release_started_ms is Some)
}

proof fn lemma_observed_is_well_formed(c: ControlModel, now_ms: u64)
    requires
        c.supervisor.servo.wf(),
    ensures
        supervisor::observed(c, now_ms).supervisor.servo.wf(),
        supervisor::observed(c, now_ms).supervisor.previous_phase == c.phase(),
        supervisor::observed(c, now_ms).phase() == c.phase(),
{
}

proof fn lemma_ready_is_well_formed(c: ControlModel, now: u64, pins: InputGpioPins)
    requires
        c.supervisor.servo.wf(),
    ensures
        ready(c, now, pins).supervisor.servo.wf(),
{
    let now_ms = time::ticks_to_ms(now);
    let start = supervisor::sampled(c, now_ms, pins);
    assert(start.supervisor.servo.wf());
    assert forall|q: supervisor::SequenceModel, d: ControlModel|
        d.supervisor.servo.wf() implies #[trigger] supervisor::observed(
        d.with_sequence(q),
        now_ms,
    ).supervisor.servo.wf() by {
        lemma_observed_is_well_formed(d.with_sequence(q), now_ms);
    }
}

proof fn lemma_shut_down_is_well_formed(c: ControlModel, now_ms: u64, later: u64)
    requires
        c.supervisor.servo.wf(),
    ensures
        between_passes(supervisor::shut_down(c, now_ms), later),
{
    lemma_observed_is_well_formed(c, now_ms);
}

proof fn lemma_advanced_is_well_formed(c: ControlModel, now: u64)
    requires
        c.supervisor.servo.wf(),
        c.supervisor.firing_started_at matches Some(started) ==> started <= now,
    ensures
        ({
            let next = supervisor::advanced(c, now);
            &&& next.supervisor.servo.wf()
            &&& next.supervisor.previous_phase == next.phase()
            &&& next.supervisor.firing_started_at matches Some(started) ==> started <= now
                && next.phase() == SequencePhase::Firing
        }),
{
}

/// Every pass that starts well ends well, so that the next one may follow at any later time.
pub proof fn law_passes_follow_each_other(c: ControlModel, now: u64, pins: InputGpioPins, later: u64)
    requires
        c.supervisor.servo.wf(),
        c.supervisor.firing_started_at matches Some(started) ==> started <= now,
        now <= later,
    ensures
        between_passes(supervisor::after_pass(c, now, pins), later),
{
    let now_ms = time::ticks_to_ms(now);
    let start = supervisor::sampled(c, now_ms, pins);
    assert(start.supervisor.servo.wf());
    if supervisor::can_input_fault(c.board.fault_flags, c.board.input_flags) {
        let q = supervisor::SequenceModel {
            board: crate::board::with_inputs(
                start.board,
                crate::board::operator_inputs_replaced(start.board.input_flags, 0),
            ),
            ..start.sequence()
        };
        lemma_shut_down_is_well_formed(
            start.with_sequence(supervisor::after_enter_abort(q, start.phase())),
            now_ms,
            later,
        );
    } else {
        let r = ready(c, now, pins);
        lemma_ready(c, now, pins);
        lemma_ready_is_well_formed(c, now, pins);
        if supervisor::firing_fault(r) {
            lemma_shut_down_is_well_formed(
                r.with_sequence(
                    supervisor::after_enter_abort(r.sequence(), SequencePhase::Firing),
                ),
                now_ms,
                later,
            );
        } else {
            lemma_advanced_is_well_formed(r, now);
            let next = supervisor::advanced(r, now);
            let intent = supervisor::phase_intent(r, now);
            lemma_driven_is_well_formed(next, intent, now, later);
        }
    }
}

proof fn lemma_driven_is_well_formed(
    c: ControlModel,
    intent: crate::control::ControlIntent,
    now: u64,
    later: u64,
)
    requires
        c.supervisor.servo.wf(),
        c.supervisor.previous_phase == c.phase(),
        c.supervisor.firing_started_at matches Some(started) ==> started <= now && c.phase()
            == SequencePhase::Firing,
        now <= later,
    ensures
        between_passes(supervisor::driven(c, intent, now), later),
{
}

/// The abort of a servo fault while firing.
pub open spec fn aborted_for_servo(c: ControlModel) -> bool {
    &&& c.phase() == SequencePhase::Abort
    &&& c.supervisor.servo_abort_latched
    &&& !c.supervisor.abort_before_firing
}

/// A servo fault while firing leads to an abort that no pass ever leaves.
pub proof fn law_servo_abort_is_final(c: ControlModel, now: u64, pins: InputGpioPins)
    requires
        aborted_for_servo(c) || (supervisor::firing_fault(c) && c.board.fault_flags
            & SERVO_COMM_ERROR != 0),
    ensures
        aborted_for_servo(supervisor::after_pass(c, now, pins)),
{
    lemma_ready(c, now, pins);
}

/// The pass is one in which the operator's requests count: the control panel is heard, no fault
/// inhibits outputs, and no fault meets a firing.
pub open spec fn operator_counts(c: ControlModel) -> bool {
    &&& c.board.input_flags & INPUT_CAN_LINK_ACTIVE != 0
    &&& c.board.fault_flags & HARD_OUTPUT_INHIBIT_FAULTS == 0
    &&& !(c.board.sequence_phase == 1 && c.board.fault_flags != 0)
}

/// A pass that ends outside firing carries out the operator's requests, be it in idle, after a timeout
/// or in an abort: dump, fill, separate and oxygen are each on exactly if they are requested. The
/// igniter is off.
pub proof fn law_operator_drives_the_outputs(c: ControlModel, now: u64, pins: InputGpioPins)
    requires
        operator_counts(c),
        supervisor::after_pass(c, now, pins).board.sequence_phase != 1,
    ensures
        ({
            let levels = supervisor::pass_output(c, now, pins).levels;
            let inputs = c.board.input_flags;
            &&& levels.dump == (inputs & INPUT_DUMP_REQUEST != 0)
            &&& levels.fill == (inputs & INPUT_FILL_REQUEST != 0)
            &&& levels.separate == (inputs & INPUT_SEPARATE_REQUEST != 0)
            &&& levels.o2 == (inputs & INPUT_O2_TEST_REQUEST != 0)
            &&& !levels.ignition
        }),
{
    lemma_ready(c, now, pins);
    let next = supervisor::advanced(ready(c, now, pins), now);
    assert(next.board.input_flags == c.board.input_flags);
    assert(next.board.fault_flags == c.board.fault_flags);
}

/// The open latch is held during the pass: it was held before, and its release has not run for ten
/// seconds.
pub open spec fn latch_is_kept(c: ControlModel, now: u64) -> bool {
    let servo = c.supervisor.servo;
    &&& servo.open_latched
    &&& !(servo.open_latch_release_started_ms matches Some(started) && started <= now as int / 1000
        && now as int / 1000 - started >= 10_000)
}

/// What the operator asks of the main valve: to close, which goes first, to open, for which the fire
/// button stands too after a timeout, or nothing.
pub open spec fn valve_request(inputs: u32, after_timeout: bool) -> Option<i16> {
    if inputs & INPUT_VALVE_SET_REQUEST != 0 {
        Some(552i16)
    } else if inputs & INPUT_VALVE_OPEN_REQUEST != 0 || (after_timeout && inputs
        & INPUT_FIRE_REQUEST != 0) {
        Some(-348i16)
    } else {
        None
    }
}

/// In idle and after a timeout, without the latch and without a servo fault, the main valve does what
/// the operator asks: the servo is commanded to that angle, or holds with its last target on record.
pub proof fn law_operator_moves_the_valve(c: ControlModel, now: u64, pins: InputGpioPins)
    requires
        operator_counts(c),
        c.board.fault_flags & SERVO_COMM_ERROR == 0,
        !latch_is_kept(c, now),
        ({
            let phase = supervisor::after_pass(c, now, pins).board.sequence_phase;
            phase == 0 || phase == 2
        }),
    ensures
        ({
            let after = supervisor::after_pass(c, now, pins).board;
            match valve_request(c.board.input_flags, after.sequence_phase == 2) {
                Some(angle_x10) => after.servo_control_mode == SERVO_MODE_COMMAND
                    && after.servo_target_angle_x10 == angle_x10,
                None => after.servo_control_mode == SERVO_MODE_HOLD && after.servo_target_angle_x10
                    == c.board.servo_target_angle_x10 && after.angle_command
                    == c.board.angle_command,
            }
        }),
{
    lemma_ready(c, now, pins);
    let r = ready(c, now, pins);
    let next = supervisor::advanced(r, now);
    assert(next.board.input_flags == c.board.input_flags);
    assert(next.board.fault_flags == c.board.fault_flags);
    assert(crate::SERVO_FAULTS == SERVO_COMM_ERROR);
    assert(!r.supervisor.servo.open_latched);
    assert(!next.supervisor.servo.open_latched);
}

/// On a board that stays in idle or in a timeout, without the latch and without a servo fault, a
/// request to close is sent to the servo task at once and then every fifth of a second: exactly if no
/// close is on record or the recorded one is that long ago.
pub proof fn law_close_reaches_the_servo(c: ControlModel, now: u64, pins: InputGpioPins)
    requires
        operator_counts(c),
        c.board.fault_flags & SERVO_COMM_ERROR == 0,
        !latch_is_kept(c, now),
        c.board.sequence_phase == 0 || c.board.sequence_phase == 2,
        supervisor::after_pass(c, now, pins).board.sequence_phase == c.board.sequence_phase,
        c.board.input_flags & INPUT_VALVE_SET_REQUEST != 0,
    ensures
        ({
            let after = supervisor::after_pass(c, now, pins);
            let last = c.supervisor.servo.last_close_send_ms;
            let now_ms = now as int / 1000;
            let due = last matches Some(at) ==> at <= now_ms && now_ms - at >= 200;
            &&& after.board.angle_command == if due {
                seq![552i16]
            } else {
                c.board.angle_command
            }
            &&& after.supervisor.servo.last_close_send_ms == if due {
                Some((now / 1000) as u64)
            } else {
                last
            }
        }),
{
    lemma_ready(c, now, pins);
    let r = ready(c, now, pins);
    let next = supervisor::advanced(r, now);
    assert(next.board.input_flags == c.board.input_flags);
    assert(next.board.fault_flags == c.board.fault_flags);
    assert(crate::SERVO_FAULTS == SERVO_COMM_ERROR);
    assert(!r.supervisor.servo.open_latched);
    assert(!next.supervisor.servo.open_latched);
    assert(next.supervisor.servo.last_close_send_ms == c.supervisor.servo.last_close_send_ms);
}

/// The ticks since the start of a firing; one without a start on record starts now.
pub open spec fn ticks_into_firing(c: ControlModel, now: u64) -> int {
    match c.supervisor.firing_started_at {
        Some(started) => now - started,
        None => 0,
    }
}

/// A pass that ends in firing drives the outputs by the clock of the sequence, in microseconds: the
/// oxygen for the first 15.2 s, the igniter from 10 s to 13.2 s, dump on request, fill and separate
/// never. Until the valve opens at 13.2 s the servo holds and hears nothing. This holds of the pass
/// that starts the firing too.
pub proof fn law_firing_drives_the_outputs(c: ControlModel, now: u64, pins: InputGpioPins)
    requires
        supervisor::after_pass(c, now, pins).board.sequence_phase == 1,
    ensures
        ({
            let elapsed = if c.board.sequence_phase == 1 {
                ticks_into_firing(c, now)
            } else {
                0
            };
            let levels = supervisor::pass_output(c, now, pins).levels;
            let after = supervisor::after_pass(c, now, pins);
            let heard = c.board.input_flags & INPUT_CAN_LINK_ACTIVE != 0;
            &&& c.board.fault_flags == 0
            &&& elapsed < 23_200_000
            &&& levels.o2 == (heard && elapsed < 15_200_000)
            &&& levels.ignition == (heard && 10_000_000 <= elapsed < 13_200_000)
            &&& levels.dump == (heard && c.board.input_flags & INPUT_DUMP_REQUEST != 0)
            &&& !levels.fill && !levels.separate
            &&& elapsed < 13_200_000 ==> after.board.servo_control_mode == SERVO_MODE_HOLD
                && after.board.angle_command == c.board.angle_command
            &&& after.supervisor.firing_started_at == Some(
                if c.board.sequence_phase == 1 && c.supervisor.firing_started_at is Some {
                    c.supervisor.firing_started_at->0
                } else {
                    now
                },
            )
        }),
{
    lemma_ready(c, now, pins);
    bits::lemma_no_faults();
    let next = supervisor::advanced(ready(c, now, pins), now);
    assert(next.board.input_flags == c.board.input_flags);
    assert(next.board.fault_flags == c.board.fault_flags);
}

/// A firing lasts 23.2 s, not less and not more, unless a fault ends it.
pub proof fn law_firing_lasts(c: ControlModel, now: u64, pins: InputGpioPins)
    requires
        c.board.sequence_phase == 1,
    ensures
        supervisor::after_pass(c, now, pins).board.sequence_phase == if c.board.fault_flags != 0 {
            3
        } else if ticks_into_firing(c, now) >= 23_200_000 {
            2
        } else {
            1int
        },
{
    lemma_ready(c, now, pins);
    bits::lemma_no_faults();
}

/// Firing starts from idle alone, on the fire button, with the control panel heard, without a fault
/// and without the latch of an earlier firing.
pub proof fn law_firing_starts(c: ControlModel, now: u64, pins: InputGpioPins)
    requires
        c.board.sequence_phase != 1,
    ensures
        supervisor::after_pass(c, now, pins).board.sequence_phase == 1 <==> {
            &&& c.board.sequence_phase != 2
            &&& c.board.sequence_phase != 3
            &&& c.board.input_flags & INPUT_FIRE_REQUEST != 0
            &&& c.board.input_flags & INPUT_CAN_LINK_ACTIVE != 0
            &&& c.board.fault_flags == 0
            &&& !latch_is_kept(c, now)
        },
{
    law_start_of_firing(c, now, pins);
    lemma_ready(c, now, pins);
}

/// A CAN fault while the control panel is not heard, and any fault while firing, lead to an abort,
/// whatever the phase; an abort from idle remembers that it was from idle. Nothing else does.
pub proof fn law_aborts(c: ControlModel, now: u64, pins: InputGpioPins)
    requires
        c.board.sequence_phase <= 2,
    ensures
        ({
            let after = supervisor::after_pass(c, now, pins);
            let lost = c.board.fault_flags & CAN_FAULTS != 0 && c.board.input_flags
                & INPUT_CAN_LINK_ACTIVE == 0;
            let fault = c.board.sequence_phase == 1 && c.board.fault_flags != 0;
            &&& after.board.sequence_phase == 3 <==> lost || fault
            &&& lost || fault ==> after.supervisor.abort_before_firing == (c.board.sequence_phase
                == 0) && after.supervisor.firing_started_at is None
            &&& after.board.input_flags & INPUT_OPERATOR_ACTION_MASK == if lost {
                0
            } else {
                c.board.input_flags & INPUT_OPERATOR_ACTION_MASK
            }
        }),
{
    lemma_ready(c, now, pins);
    bits::lemma_no_faults();
    if supervisor::can_input_fault(c.board.fault_flags, c.board.input_flags) {
        law_lost_link_aborts(c, now, pins);
    }
}

/// An abort ends in idle exactly without faults, with the control panel heard and no request of the
/// operator, if it came from idle, or if a reset was acknowledged since the last pass and no servo
/// fault has made it final.
pub proof fn law_abort_ends(c: ControlModel, now: u64, pins: InputGpioPins)
    requires
        c.board.sequence_phase == 3,
    ensures
        ({
            let after = supervisor::after_pass(c, now, pins);
            let acknowledged = c.board.reset_ack_event_counter
                != c.supervisor.previous_reset_ack_event;
            let ends = {
                &&& c.board.fault_flags == 0
                &&& c.board.input_flags & INPUT_CAN_LINK_ACTIVE != 0
                &&& c.board.input_flags & INPUT_OPERATOR_ACTION_MASK == 0
                &&& c.supervisor.abort_before_firing || (acknowledged
                    && !c.supervisor.servo_abort_latched)
            };
            after.board.sequence_phase == if ends {
                0
            } else {
                3int
            }
        }),
{
    law_end_of_abort(c, now, pins);
    lemma_ready(c, now, pins);
}

/// What a pass remembers: the reset counter that it has seen, and for good a servo fault that it has
/// met while firing.
pub proof fn law_pass_remembers(c: ControlModel, now: u64, pins: InputGpioPins)
    ensures
        ({
            let after = supervisor::after_pass(c, now, pins).supervisor;
            &&& after.previous_reset_ack_event == c.board.reset_ack_event_counter
            &&& after.servo_abort_latched <==> c.supervisor.servo_abort_latched || (
            c.board.sequence_phase == 1 && c.board.fault_flags & SERVO_COMM_ERROR != 0)
        }),
{
    lemma_ready(c, now, pins);
    bits::lemma_no_faults();
}

/// While firing has the valve open and no fault, the servo task is told so up to ten times, a fifth of
/// a second apart: exactly if attempts are left and the last one is that long ago.
pub proof fn law_firing_opens_the_valve(c: ControlModel, now: u64, pins: InputGpioPins)
    requires
        c.board.sequence_phase == 1,
        c.supervisor.previous_phase == SequencePhase::Firing,
        c.board.fault_flags == 0,
        c.board.input_flags & INPUT_CAN_LINK_ACTIVE != 0,
        c.supervisor.servo.open_latch_release_started_ms is None,
        c.supervisor.firing_started_at is Some,
        13_200_000 <= ticks_into_firing(c, now) < 23_200_000,
    ensures
        ({
            let after = supervisor::after_pass(c, now, pins);
            let count = c.supervisor.servo.firing_open_send_count;
            let now_ms = now as int / 1000;
            let sent = count < 10 && (c.supervisor.servo.last_firing_open_send_ms matches Some(at)
                ==> at <= now_ms && now_ms - at >= 200);
            &&& after.board.angle_command == if sent {
                seq![-348i16]
            } else {
                c.board.angle_command
            }
            &&& after.board.firing_open_send_count == count + if sent {
                1int
            } else {
                0
            }
            &&& count < 10 ==> after.board.servo_control_mode == SERVO_MODE_COMMAND
                && after.board.servo_target_angle_x10 == -348
            &&& after.board.firing_open_latched
        }),
{
    lemma_ready(c, now, pins);
    bits::lemma_no_faults();
}

/// The log of a pass tells exactly of an angle that was handed to the servo task: which, when, how
/// many attempts of firing there were, and whether the firing or the operator wanted it.
pub proof fn law_servo_commands_are_logged(c: ControlModel, now: u64, pins: InputGpioPins)
    ensures
        ({
            let after = supervisor::after_pass(c, now, pins).board;
            match supervisor::pass_output(c, now, pins).servo_command {
                Some(log) => {
                    &&& after.angle_command == seq![log.angle_x10]
                    &&& after.servo_control_mode == SERVO_MODE_COMMAND
                    &&& after.servo_target_angle_x10 == log.angle_x10
                    &&& log.at_ms == now / 1000
                    &&& log.open_count == after.firing_open_send_count
                    &&& log.kind == ServoCommandKind::FiringOpen <==> log.angle_x10 == -348
                        && after.firing_open_latched
                    &&& log.kind == ServoCommandKind::Close <==> log.angle_x10 == 552
                },
                None => after.angle_command == c.board.angle_command,
            }
        }),
{
    lemma_ready(c, now, pins);
}

/// Whenever a pass changes the phase or drops a request, the next pass follows at once.
pub proof fn law_changes_wake_the_supervisor(c: ControlModel, now: u64, pins: InputGpioPins)
    ensures
        ({
            let after = supervisor::after_pass(c, now, pins).board;
            &&& after.sequence_phase != c.board.sequence_phase || after.input_flags
                != c.board.input_flags ==> after.control_update == seq![()]
            &&& after.control_update == c.board.control_update || after.control_update == seq![()]
        }),
{
    lemma_ready(c, now, pins);
}

/// The safe decision drives nothing, holds the servo, and allows no ignition.
pub proof fn law_safe_decision_drives_nothing()
    ensures
        ({
            let decision = supervisor::safe_decision();
            &&& !decision.ignition_on && !decision.dump_on && !decision.fill_on
                && !decision.separate_on && !decision.o2_on
            &&& decision.servo_action == control::ServoAction::Hold
            &&& !decision.allow_new_ignition
        }),
{
}

/// A supervisor takes a board over as it is: no firing has begun, no abort is latched, and neither
/// the phase nor the reset counter counts as new.
pub proof fn law_supervisor_takes_over(b: BoardModel)
    ensures
        ({
            let supervisor = supervisor::initial_supervisor(b);
            &&& supervisor.firing_started_at is None
            &&& !supervisor.abort_before_firing && !supervisor.servo_abort_latched
            &&& supervisor.previous_reset_ack_event == b.reset_ack_event_counter
            &&& control::byte_of_phase(supervisor.previous_phase) == if b.sequence_phase <= 3 {
                b.sequence_phase
            } else {
                0
            }
            &&& !supervisor.servo.open_latched && supervisor.servo.wf()
        }),
{
}

/// Over a pass the latch is kept until its release has run for ten seconds, and taken 13.2 s into a
/// firing. The release starts in the pass that leads into a timeout or an abort, and one that runs is
/// not started anew.
pub proof fn law_latch_over_a_pass(c: ControlModel, now: u64, pins: InputGpioPins)
    requires
        c.supervisor.servo.wf(),
        c.supervisor.previous_phase == c.phase(),
    ensures
        ({
            let after = supervisor::after_pass(c, now, pins);
            let phase = after.board.sequence_phase;
            let open_phase = phase == 1 && c.board.sequence_phase == 1
                && c.supervisor.firing_started_at is Some && ticks_into_firing(c, now)
                >= 13_200_000;
            let release = c.supervisor.servo.open_latch_release_started_ms;
            &&& after.supervisor.servo.open_latched <==> latch_is_kept(c, now) || open_phase
            &&& latch_is_kept(c, now) ==> after.supervisor.servo.open_latch_release_started_ms
                == if release is None && phase != c.board.sequence_phase && (phase == 2 || phase
                == 3) {
                Some((now / 1000) as u64)
            } else {
                release
            }
            &&& !latch_is_kept(c, now) && !open_phase
                ==> after.supervisor.servo.firing_open_send_count == 0
                && after.supervisor.servo.open_latch_release_started_ms is None
        }),
{
    lemma_ready(c, now, pins);
    bits::lemma_no_faults();
    lemma_ready_is_well_formed(c, now, pins);
}

/// On a board that stays in idle or in a timeout, without the latch and without a servo fault, a
/// request to open is handed to the servo task once, at its beginning.
pub proof fn law_opening_reaches_the_servo(c: ControlModel, now: u64, pins: InputGpioPins)
    requires
        operator_counts(c),
        c.board.fault_flags & SERVO_COMM_ERROR == 0,
        !latch_is_kept(c, now),
        c.board.sequence_phase == 0 || c.board.sequence_phase == 2,
        supervisor::after_pass(c, now, pins).board.sequence_phase == c.board.sequence_phase,
        valve_request(c.board.input_flags, c.board.sequence_phase == 2) == Some(-348i16),
    ensures
        supervisor::after_pass(c, now, pins).board.angle_command
            == if c.supervisor.servo.manual_open_command_active {
            c.board.angle_command
        } else {
            seq![-348i16]
        },
        supervisor::after_pass(c, now, pins).supervisor.servo.manual_open_command_active,
{
    lemma_ready(c, now, pins);
    let r = ready(c, now, pins);
    let next = supervisor::advanced(r, now);
    assert(next.board.input_flags == c.board.input_flags);
    assert(next.board.fault_flags == c.board.fault_flags);
    assert(crate::SERVO_FAULTS == SERVO_COMM_ERROR);
    assert(!r.supervisor.servo.open_latched);
    assert(!next.supervisor.servo.open_latched);
    assert(next.supervisor.servo.manual_open_command_active
        == c.supervisor.servo.manual_open_command_active);
}

} // verus!
