//! The state that the tasks of the board share.
use vstd::prelude::*;

use crate::control::SequencePhase;
use crate::tasks::espnow::LogData;
use crate::signal::{AngleCommandSignal, ControlUpdateSignal};
use crate::{
    bits, control, signal, INPUT_CAN_LINK_ACTIVE, INPUT_COMMAND_MASK, INPUT_OPERATOR_ACTION_MASK,
    INPUT_RESET_ACK_REQUEST, MAIN_VALVE_CLOSED_ANGLE_X10, SERVO_CENTER_POS, SERVO_MODE_HOLD,
};

verus! {

/// Everything that one task of the board tells another. The firmware keeps one of these behind a
/// lock.
pub struct BoardState {
    pub fault_flags: u8,
    pub input_flags: u32,
    pub sequence_phase: u8,
    pub output_status: u8,
    pub input_gpio_status: u8,
    pub servo_control_mode: u8,
    pub servo_target_angle_x10: i16,
    pub current_position: u16,
    pub servo_comm_active: bool,
    pub servo_comm_error_count: u8,
    pub firing_open_latched: bool,
    pub firing_open_send_count: u8,
    pub open_latch_release_pending: bool,
    pub can_comm_active: bool,
    pub reset_ack_event_counter: u8,
    pub can_health: u8,
    pub can_tec: u8,
    pub can_rec: u8,
    pub can_tx_error_count: u32,
    pub can_rx_error_count: u32,
    pub latest_log_data: Option<LogData>,
    pub control_update_signal: ControlUpdateSignal,
    pub angle_command_signal: AngleCommandSignal,
}

/// The contents of a [`BoardState`], with the signals as what waits in them.
#[verifier::ext_equal]
pub struct BoardModel {
    pub fault_flags: u8,
    pub input_flags: u32,
    pub sequence_phase: u8,
    pub output_status: u8,
    pub input_gpio_status: u8,
    pub servo_control_mode: u8,
    pub servo_target_angle_x10: i16,
    pub current_position: u16,
    pub servo_comm_active: bool,
    pub servo_comm_error_count: u8,
    pub firing_open_latched: bool,
    pub firing_open_send_count: u8,
    pub open_latch_release_pending: bool,
    pub can_comm_active: bool,
    pub reset_ack_event_counter: u8,
    pub can_health: u8,
    pub can_tec: u8,
    pub can_rec: u8,
    pub can_tx_error_count: u32,
    pub can_rx_error_count: u32,
    pub latest_log_data: Option<LogData>,
    pub control_update: Seq<()>,
    pub angle_command: Seq<i16>,
}

impl View for BoardState {
    type V = BoardModel;

    open spec fn view(&self) -> BoardModel {
        BoardModel {
            fault_flags: self.fault_flags,
            input_flags: self.input_flags,
            sequence_phase: self.sequence_phase,
            output_status: self.output_status,
            input_gpio_status: self.input_gpio_status,
            servo_control_mode: self.servo_control_mode,
            servo_target_angle_x10: self.servo_target_angle_x10,
            current_position: self.current_position,
            servo_comm_active: self.servo_comm_active,
            servo_comm_error_count: self.servo_comm_error_count,
            firing_open_latched: self.firing_open_latched,
            firing_open_send_count: self.firing_open_send_count,
            open_latch_release_pending: self.open_latch_release_pending,
            can_comm_active: self.can_comm_active,
            reset_ack_event_counter: self.reset_ack_event_counter,
            can_health: self.can_health,
            can_tec: self.can_tec,
            can_rec: self.can_rec,
            can_tx_error_count: self.can_tx_error_count,
            can_rx_error_count: self.can_rx_error_count,
            latest_log_data: self.latest_log_data,
            control_update: signal::queued_updates(self.control_update_signal),
            angle_command: signal::queued_angles(self.angle_command_signal),
        }
    }
}

/// The board as it powers up.
pub open spec fn initial_board() -> BoardModel {
    BoardModel {
        fault_flags: 0,
        input_flags: 0,
        sequence_phase: 0,
        output_status: 0,
        input_gpio_status: 0,
        servo_control_mode: SERVO_MODE_HOLD,
        servo_target_angle_x10: MAIN_VALVE_CLOSED_ANGLE_X10,
        current_position: SERVO_CENTER_POS,
        servo_comm_active: false,
        servo_comm_error_count: 0,
        firing_open_latched: false,
        firing_open_send_count: 0,
        open_latch_release_pending: false,
        can_comm_active: false,
        reset_ack_event_counter: 0,
        can_health: 0,
        can_tec: 0,
        can_rec: 0,
        can_tx_error_count: 0,
        can_rx_error_count: 0,
        latest_log_data: None,
        control_update: Seq::empty(),
        angle_command: Seq::empty(),
    }
}

impl BoardState {
    pub fn new() -> (board: Self)
        ensures
            board@ == initial_board(),
    {
        Self {
            fault_flags: 0,
            input_flags: 0,
            sequence_phase: 0,
            output_status: 0,
            input_gpio_status: 0,
            servo_control_mode: SERVO_MODE_HOLD,
            servo_target_angle_x10: MAIN_VALVE_CLOSED_ANGLE_X10,
            current_position: SERVO_CENTER_POS,
            servo_comm_active: false,
            servo_comm_error_count: 0,
            firing_open_latched: false,
            firing_open_send_count: 0,
            open_latch_release_pending: false,
            can_comm_active: false,
            reset_ack_event_counter: 0,
            can_health: 0,
            can_tec: 0,
            can_rec: 0,
            can_tx_error_count: 0,
            can_rx_error_count: 0,
            latest_log_data: None,
            control_update_signal: ControlUpdateSignal::new(),
            angle_command_signal: AngleCommandSignal::new(),
        }
    }
}

/// `b`, with the supervisor woken if `wake` holds.
pub open spec fn woken_if(b: BoardModel, wake: bool) -> BoardModel {
    BoardModel {
        control_update: if wake {
            seq![()]
        } else {
            b.control_update
        },
        ..b
    }
}

pub open spec fn after_faults_set(b: BoardModel, flags: u8) -> BoardModel {
    woken_if(
        BoardModel { fault_flags: b.fault_flags | flags, ..b },
        b.fault_flags & flags != flags,
    )
}

/// Raises `flags`; the supervisor is woken if one of them is new.
pub fn set_fault_flags(board: &mut BoardState, flags: u8)
    ensures
        final(board)@ == after_faults_set(old(board)@, flags),
{
    let previous = board.fault_flags;
    board.fault_flags = previous | flags;
    if previous & flags != flags {
        board.control_update_signal.raise();
    }
}

pub open spec fn after_faults_reset(b: BoardModel, flags: u8) -> BoardModel {
    woken_if(BoardModel { fault_flags: b.fault_flags & !flags, ..b }, true)
}

/// Clears latched faults only when an explicit reset policy has approved it.
pub fn clear_fault_flags_for_reset(board: &mut BoardState, flags: u8)
    ensures
        final(board)@ == after_faults_reset(old(board)@, flags),
{
    board.fault_flags = board.fault_flags & !flags;
    board.control_update_signal.raise();
}

pub open spec fn after_faults_recovered(b: BoardModel, flags: u8) -> BoardModel {
    woken_if(BoardModel { fault_flags: b.fault_flags & !flags, ..b }, b.fault_flags & flags != 0)
}

/// Clears faults whose recovery policy is a successful retry.
pub fn clear_fault_flags_on_recovery(board: &mut BoardState, flags: u8)
    ensures
        final(board)@ == after_faults_recovered(old(board)@, flags),
{
    let previous = board.fault_flags;
    board.fault_flags = previous & !flags;
    if previous & flags != 0 {
        board.control_update_signal.raise();
    }
}

/// `b` with other input flags; the supervisor is woken if they differ.
pub open spec fn with_inputs(b: BoardModel, input_flags: u32) -> BoardModel {
    woken_if(BoardModel { input_flags, ..b }, b.input_flags != input_flags)
}

pub open spec fn after_input_update(b: BoardModel, flag: u32, asserted: bool) -> BoardModel {
    with_inputs(
        b,
        if asserted {
            b.input_flags | flag
        } else {
            b.input_flags & !flag
        },
    )
}

/// Sets or clears `flag`; the supervisor is woken if that changes anything.
pub fn update_input_flag(board: &mut BoardState, flag: u32, asserted: bool)
    ensures
        final(board)@ == after_input_update(old(board)@, flag, asserted),
{
    let previous = board.input_flags;
    let current = if asserted {
        previous | flag
    } else {
        previous & !flag
    };
    board.input_flags = current;
    if previous != current {
        board.control_update_signal.raise();
    }
}

/// The input flags with the operator's requests replaced by those in `flags`. A reset
/// acknowledgement is never kept among them.
pub open spec fn operator_inputs_replaced(input_flags: u32, flags: u32) -> u32 {
    (input_flags & !INPUT_COMMAND_MASK) | (flags & INPUT_OPERATOR_ACTION_MASK)
}

/// Replaces the operator's requests; the supervisor is woken if that changes anything.
pub fn replace_operator_input_flags(board: &mut BoardState, flags: u32)
    ensures
        final(board)@ == with_inputs(
            old(board)@,
            operator_inputs_replaced(old(board)@.input_flags, flags),
        ),
{
    let operator_flags = flags & INPUT_OPERATOR_ACTION_MASK;
    let previous = board.input_flags;
    let current = (previous & !INPUT_COMMAND_MASK) | operator_flags;
    board.input_flags = current;
    if previous != current {
        board.control_update_signal.raise();
    }
}

/// Replaces the operator's requests and marks the control panel as heard; the supervisor is woken
/// if that changes anything.
pub fn replace_operator_input_flags_and_set_can_link_active(board: &mut BoardState, flags: u32)
    ensures
        final(board)@ == with_inputs(
            old(board)@,
            operator_inputs_replaced(old(board)@.input_flags, flags) | INPUT_CAN_LINK_ACTIVE,
        ),
{
    let operator_flags = flags & INPUT_OPERATOR_ACTION_MASK;
    let previous = board.input_flags;
    let current = (previous & !INPUT_COMMAND_MASK) | operator_flags | INPUT_CAN_LINK_ACTIVE;
    board.input_flags = current;
    if previous != current {
        board.control_update_signal.raise();
    }
}

/// The phase that the board is in.
pub fn sequence_phase(board: &BoardState) -> (phase: SequencePhase)
    ensures
        phase == control::phase_of_byte(board@.sequence_phase),
{
    SequencePhase::from_u8(board.sequence_phase)
}

pub open spec fn after_phase_set(b: BoardModel, phase: SequencePhase) -> BoardModel {
    woken_if(BoardModel { sequence_phase: control::byte_of_phase(phase), ..b }, true)
}

/// Enters `phase` and wakes the supervisor.
pub fn set_sequence_phase(board: &mut BoardState, phase: SequencePhase)
    ensures
        final(board)@ == after_phase_set(old(board)@, phase),
{
    board.sequence_phase = phase.as_u8();
    board.control_update_signal.raise();
}

pub open spec fn after_reset_ack(b: BoardModel) -> BoardModel {
    woken_if(
        BoardModel {
            reset_ack_event_counter: if b.reset_ack_event_counter == u8::MAX {
                0
            } else {
                (b.reset_ack_event_counter + 1) as u8
            },
            ..b
        },
        true,
    )
}

/// Counts a reset acknowledgement, modulo the counter's range, and wakes the supervisor.
pub fn signal_reset_ack_event(board: &mut BoardState)
    ensures
        final(board)@ == after_reset_ack(old(board)@),
{
    board.reset_ack_event_counter = board.reset_ack_event_counter.wrapping_add(1);
    board.control_update_signal.raise();
}

/// Raised faults are all set afterwards, and no other fault changes; the supervisor is woken exactly
/// if one of them is new.
pub proof fn law_faults_are_raised(b: BoardModel, flags: u8)
    ensures
        ({
            let after = after_faults_set(b, flags);
            &&& after.fault_flags & flags == flags
            &&& after.fault_flags & !flags == b.fault_flags & !flags
            &&& after.control_update == if after.fault_flags == b.fault_flags {
                b.control_update
            } else {
                seq![()]
            }
            &&& after == (BoardModel {
                fault_flags: after.fault_flags,
                control_update: after.control_update,
                ..b
            })
        }),
{
    bits::lemma_raise_and_clear(b.fault_flags, flags);
}

/// Cleared faults are all clear afterwards, and no other fault changes. After a reset the supervisor
/// is always woken, after a recovery exactly if one of them was set.
pub proof fn law_faults_are_cleared(b: BoardModel, flags: u8)
    ensures
        ({
            let reset = after_faults_reset(b, flags);
            let recovered = after_faults_recovered(b, flags);
            &&& reset.fault_flags & flags == 0
            &&& reset.fault_flags & !flags == b.fault_flags & !flags
            &&& recovered.fault_flags == reset.fault_flags
            &&& reset.control_update == seq![()]
            &&& recovered.control_update == if recovered.fault_flags == b.fault_flags {
                b.control_update
            } else {
                seq![()]
            }
            &&& reset == (BoardModel {
                fault_flags: reset.fault_flags,
                control_update: reset.control_update,
                ..b
            })
            &&& recovered == (BoardModel {
                fault_flags: recovered.fault_flags,
                control_update: recovered.control_update,
                ..b
            })
        }),
{
    bits::lemma_raise_and_clear(b.fault_flags, flags);
}

/// An input flag is set or cleared as told, and no other flag changes; the supervisor is woken exactly
/// if the flags differ afterwards.
pub proof fn law_input_flag_is_updated(b: BoardModel, flag: u32, asserted: bool)
    ensures
        ({
            let after = after_input_update(b, flag, asserted);
            &&& after.input_flags & flag == if asserted {
                flag
            } else {
                0
            }
            &&& after.input_flags & !flag == b.input_flags & !flag
            &&& after.control_update == if after.input_flags == b.input_flags {
                b.control_update
            } else {
                seq![()]
            }
            &&& after == (BoardModel {
                input_flags: after.input_flags,
                control_update: after.control_update,
                ..b
            })
        }),
{
    bits::lemma_assert_and_release(b.input_flags, flag);
}

/// The operator's requests afterwards are those that were given, without a reset acknowledgement,
/// and no flag beside the requests changes.
pub proof fn law_requests_are_replaced(input_flags: u32, flags: u32)
    ensures
        ({
            let after = operator_inputs_replaced(input_flags, flags);
            &&& after & INPUT_OPERATOR_ACTION_MASK == flags & INPUT_OPERATOR_ACTION_MASK
            &&& after & INPUT_RESET_ACK_REQUEST == 0
            &&& after & !INPUT_COMMAND_MASK == input_flags & !INPUT_COMMAND_MASK
        }),
{
    let after = operator_inputs_replaced(input_flags, flags);
    assert(after & INPUT_OPERATOR_ACTION_MASK == flags & INPUT_OPERATOR_ACTION_MASK && after
        & INPUT_RESET_ACK_REQUEST == 0 && after & !INPUT_COMMAND_MASK == input_flags
        & !INPUT_COMMAND_MASK) by (bit_vector)
        requires
            after == (input_flags & !INPUT_COMMAND_MASK) | (flags & INPUT_OPERATOR_ACTION_MASK),
    ;
}

/// Entering a phase and acknowledging a reset always wake the supervisor. The phase is the one that
/// was entered, and acknowledgements are counted one by one, modulo the counter's range.
pub proof fn law_phases_and_acknowledgements(b: BoardModel, phase: SequencePhase)
    ensures
        ({
            let entered = after_phase_set(b, phase);
            let acknowledged = after_reset_ack(b);
            &&& control::phase_of_byte(entered.sequence_phase) == phase
            &&& entered == (BoardModel {
                sequence_phase: entered.sequence_phase,
                control_update: seq![()],
                ..b
            })
            &&& acknowledged.reset_ack_event_counter == (b.reset_ack_event_counter + 1) % 256
            &&& acknowledged == (BoardModel {
                reset_ack_event_counter: acknowledged.reset_ack_event_counter,
                control_update: seq![()],
                ..b
            })
        }),
{
}

/// A new board is idle, without faults, requests or samples, with the servo on hold at its centre.
pub proof fn law_new_board_is_quiet()
    ensures
        ({
            let b = initial_board();
            &&& b.fault_flags == 0 && b.input_flags == 0 && b.sequence_phase == 0
            &&& b.output_status == 0 && b.servo_control_mode == SERVO_MODE_HOLD
            &&& b.current_position == 7500 && b.servo_comm_error_count == 0
            &&& !b.servo_comm_active && !b.can_comm_active && !b.firing_open_latched
            &&& b.latest_log_data is None
            &&& b.control_update.len() == 0 && b.angle_command.len() == 0
        }),
{
}

} // verus!
