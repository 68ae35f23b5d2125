//! The CAN manager: listens to the control panel, reports the status of the board, and keeps the
//! link alive.
use vstd::prelude::*;

use crate::board::{BoardModel, BoardState};
use crate::can::health::CanHealth;
use crate::can::protocol::{CanDecodeError, GseCanMessage, CAN_ID_BUTTON_FROM_CTRL_PANEL};
use crate::can::tx::CanTxError;
use crate::can::{health, protocol};
use crate::tasks::espnow;
use crate::tasks::espnow::LogData;
use crate::{
    angle, board, time, CAN_BUS_OFF, CAN_PEER_LOST, CAN_TX_FRAME_CREATE_FAILED, CAN_TX_TIMEOUT,
    COMMUNICATION_TIMEOUT_MS, INPUT_CAN_LINK_ACTIVE, INPUT_COMMAND_MASK, INPUT_DUMP_REQUEST,
    INPUT_FILL_REQUEST, INPUT_FIRE_REQUEST, INPUT_O2_TEST_REQUEST, INPUT_OPERATOR_ACTION_MASK,
    INPUT_RESET_ACK_REQUEST, INPUT_SEPARATE_REQUEST, INPUT_VALVE_OPEN_REQUEST,
    INPUT_VALVE_SET_REQUEST,
};

verus! {

pub const CAN_HEALTH_MONITOR_INTERVAL_MS: u64 = 100;

pub const BUTTON_RESET_ACK_BIT: u8 = 0x80;

pub const BUTTON_COMMAND_BITS: u8 = 0x7f;

pub const STATUS_FRAME_COUNT: u8 = 5;

/// Whether frames may be sent. After a timeout or a bus-off nothing is sent until the control
/// panel is heard again and a probe has gone through.
#[derive(Clone, Copy, Debug, PartialEq, Eq, Structural)]
pub enum CanTxRuntimeState {
    Normal,
    SuspendedAfterTimeout,
    ProbePending,
}

/// The error counters of the CAN controller at one moment.
#[derive(Clone, Copy, Debug, PartialEq, Eq, Structural)]
pub struct CanErrorCounters {
    pub tec: u8,
    pub rec: u8,
    pub bus_off: bool,
}

/// The identifier of a received frame.
#[derive(Clone, Copy, Debug, PartialEq, Eq, Structural)]
pub enum FrameId {
    Standard(u16),
    Extended(u32),
}

/// A frame from the bus.
#[derive(Debug, PartialEq, Eq)]
pub struct ReceivedFrame {
    pub id: FrameId,
    pub data: Vec<u8>,
}

/// What went wrong while receiving.
#[derive(Clone, Copy, Debug, PartialEq, Eq, Structural)]
pub enum CanRxError {
    BusOff,
    Overrun,
    Other,
}

/// The board stops trusting the control panel: it counts as not heard, and its requests are
/// dropped.
pub open spec fn after_inhibit(b: BoardModel) -> BoardModel {
    board::with_inputs(
        BoardModel { can_comm_active: false, ..b },
        b.input_flags & !(INPUT_CAN_LINK_ACTIVE | INPUT_COMMAND_MASK),
    )
}

pub fn inhibit_can_inputs(board: &mut BoardState)
    ensures
        final(board)@ == after_inhibit(old(board)@),
{
    let ghost inputs = board.input_flags;
    board.can_comm_active = false;
    if board.input_flags & INPUT_CAN_LINK_ACTIVE != 0 {
        board::update_input_flag(board, INPUT_CAN_LINK_ACTIVE, false);
    }
    board::replace_operator_input_flags(board, 0);
    proof {
        assert(inputs & INPUT_CAN_LINK_ACTIVE == 0 ==> (inputs & !INPUT_COMMAND_MASK) | (0u32
            & INPUT_OPERATOR_ACTION_MASK) == inputs & !(INPUT_CAN_LINK_ACTIVE
            | INPUT_COMMAND_MASK)) by (bit_vector);
        assert(inputs & INPUT_CAN_LINK_ACTIVE != 0 ==> {
            &&& inputs & !INPUT_CAN_LINK_ACTIVE != inputs
            &&& ((inputs & !INPUT_CAN_LINK_ACTIVE) & !INPUT_COMMAND_MASK) | (0u32
                & INPUT_OPERATOR_ACTION_MASK) == inputs & !(INPUT_CAN_LINK_ACTIVE
                | INPUT_COMMAND_MASK)
            &&& inputs & !(INPUT_CAN_LINK_ACTIVE | INPUT_COMMAND_MASK) != inputs
        }) by (bit_vector);
    }
}

/// `flag` if bit `bit` of the button byte is set, otherwise nothing.
pub open spec fn request_if(raw: u8, bit: u8, flag: u32) -> int {
    if raw & bit != 0 {
        flag as int
    } else {
        0
    }
}

/// The requests that the bits of a button byte stand for.
pub open spec fn requests_of_buttons(raw: u8) -> u32 {
    (request_if(raw, 0x01, INPUT_DUMP_REQUEST) + request_if(raw, 0x02, INPUT_FIRE_REQUEST)
        + request_if(raw, 0x04, INPUT_FILL_REQUEST) + request_if(raw, 0x08, INPUT_SEPARATE_REQUEST)
        + request_if(raw, 0x10, INPUT_VALVE_SET_REQUEST) + request_if(
        raw,
        0x20,
        INPUT_O2_TEST_REQUEST,
    ) + request_if(raw, 0x40, INPUT_VALVE_OPEN_REQUEST) + request_if(
        raw,
        BUTTON_RESET_ACK_BIT,
        INPUT_RESET_ACK_REQUEST,
    )) as u32
}

pub fn button_inputs(raw: u8) -> (inputs: u32)
    ensures
        inputs == requests_of_buttons(raw),
{
    let dump: u32 = if raw & 0x01 != 0 {
        INPUT_DUMP_REQUEST
    } else {
        0
    };
    let fire: u32 = if raw & 0x02 != 0 {
        INPUT_FIRE_REQUEST
    } else {
        0
    };
    let fill: u32 = if raw & 0x04 != 0 {
        INPUT_FILL_REQUEST
    } else {
        0
    };
    let separate: u32 = if raw & 0x08 != 0 {
        INPUT_SEPARATE_REQUEST
    } else {
        0
    };
    let valve_set: u32 = if raw & 0x10 != 0 {
        INPUT_VALVE_SET_REQUEST
    } else {
        0
    };
    let o2_test: u32 = if raw & 0x20 != 0 {
        INPUT_O2_TEST_REQUEST
    } else {
        0
    };
    let valve_open: u32 = if raw & 0x40 != 0 {
        INPUT_VALVE_OPEN_REQUEST
    } else {
        0
    };
    let reset_ack: u32 = if raw & BUTTON_RESET_ACK_BIT != 0 {
        INPUT_RESET_ACK_REQUEST
    } else {
        0
    };
    assert(dump | fire | fill | separate | valve_set | o2_test | valve_open | reset_ack == dump
        + fire + fill + separate + valve_set + o2_test + valve_open + reset_ack) by (bit_vector)
        requires
            dump == INPUT_DUMP_REQUEST || dump == 0,
            fire == INPUT_FIRE_REQUEST || fire == 0,
            fill == INPUT_FILL_REQUEST || fill == 0,
            separate == INPUT_SEPARATE_REQUEST || separate == 0,
            valve_set == INPUT_VALVE_SET_REQUEST || valve_set == 0,
            o2_test == INPUT_O2_TEST_REQUEST || o2_test == 0,
            valve_open == INPUT_VALVE_OPEN_REQUEST || valve_open == 0,
            reset_ack == INPUT_RESET_ACK_REQUEST || reset_ack == 0,
    ;
    dump | fire | fill | separate | valve_set | o2_test | valve_open | reset_ack
}

/// The faults that a reset acknowledgement may clear: a lost peer always, a transmit timeout once
/// frames are sent again, and a bus-off once the controller is error active.
pub open spec fn clearable_faults(can_health: u8, tx_runtime_state: CanTxRuntimeState) -> u8 {
    CAN_PEER_LOST | (if tx_runtime_state == CanTxRuntimeState::Normal {
        CAN_TX_TIMEOUT
    } else {
        0
    }) | (if can_health == health::byte_of_health(CanHealth::Active) {
        CAN_BUS_OFF
    } else {
        0
    })
}

/// A reset acknowledgement on a bus that is off has no effect.
pub open spec fn after_reset_ack_edge(
    b: BoardModel,
    tx_runtime_state: CanTxRuntimeState,
) -> BoardModel {
    if b.can_health == health::byte_of_health(CanHealth::BusOff) {
        b
    } else {
        board::after_reset_ack(
            BoardModel {
                fault_flags: b.fault_flags & !clearable_faults(b.can_health, tx_runtime_state),
                ..b
            },
        )
    }
}

pub fn handle_reset_ack_edge(board: &mut BoardState, tx_runtime_state: CanTxRuntimeState)
    ensures
        final(board)@ == after_reset_ack_edge(old(board)@, tx_runtime_state),
{
    let health: u8 = board.can_health;
    if health == CanHealth::BusOff.as_u8() {
        return;
    }
    let mut clearable: u8 = CAN_PEER_LOST;
    clearable = clearable | if tx_runtime_state == CanTxRuntimeState::Normal {
        CAN_TX_TIMEOUT
    } else {
        0
    };
    clearable = clearable | if health == CanHealth::Active.as_u8() {
        CAN_BUS_OFF
    } else {
        0
    };

    let faults: u8 = board.fault_flags;
    let faults_to_clear: u8 = faults & clearable;
    proof {
        assert(faults & !(faults & clearable) == faults & !clearable) by (bit_vector);
        assert(faults & clearable == 0 ==> faults & !clearable == faults) by (bit_vector);
    }
    if faults_to_clear != 0 {
        board::clear_fault_flags_for_reset(board, faults_to_clear);
    }
    board::signal_reset_ack_event(board);
}

/// The button byte in a frame from the control panel.
pub open spec fn button_in(id: FrameId, data: Seq<u8>) -> Option<u8> {
    match id {
        FrameId::Standard(raw_id) => match protocol::decoded(raw_id, data) {
            Ok(GseCanMessage::ButtonFromCtrlPanel { raw }) => Some(raw),
            _ => None,
        },
        FrameId::Extended(_) => None,
    }
}

/// A frame with the identifier of the buttons that does not have their length.
pub open spec fn broken_button_frame(id: FrameId, data: Seq<u8>) -> bool {
    id == FrameId::Standard(CAN_ID_BUTTON_FROM_CTRL_PANEL) && data.len() != 1
}

/// One more, modulo the counter's range.
pub open spec fn counted(count: u32) -> u32 {
    if count == u32::MAX {
        0
    } else {
        (count + 1) as u32
    }
}

/// A button byte with nothing but the acknowledgement, after one without it.
pub open spec fn reset_acknowledged(raw: u8, reset_ack_prev: bool) -> bool {
    raw & BUTTON_RESET_ACK_BIT != 0 && !reset_ack_prev && raw & BUTTON_COMMAND_BITS == 0
}

/// The board after a frame. Only a good button frame on a live bus makes the operator's input
/// trustworthy again; latched faults stay until a reset.
pub open spec fn after_frame(
    b: BoardModel,
    id: FrameId,
    data: Seq<u8>,
    health: CanHealth,
    reset_ack_prev: bool,
    tx_runtime_state: CanTxRuntimeState,
) -> BoardModel {
    match button_in(id, data) {
        Some(raw) => if health == CanHealth::BusOff {
            after_inhibit(b)
        } else {
            let heard = board::with_inputs(
                BoardModel { can_comm_active: true, ..b },
                board::operator_inputs_replaced(b.input_flags, requests_of_buttons(raw))
                    | INPUT_CAN_LINK_ACTIVE,
            );
            if reset_acknowledged(raw, reset_ack_prev) {
                after_reset_ack_edge(heard, tx_runtime_state)
            } else {
                heard
            }
        },
        None => BoardModel {
            can_rx_error_count: if broken_button_frame(id, data) {
                counted(b.can_rx_error_count)
            } else {
                b.can_rx_error_count
            },
            ..b
        },
    }
}

/// Takes in a frame, and tells whether it shows that the control panel is alive.
pub fn handle_received_frame(
    board: &mut BoardState,
    frame: &ReceivedFrame,
    health: CanHealth,
    reset_ack_prev: &mut bool,
    tx_runtime_state: CanTxRuntimeState,
) -> (alive: bool)
    ensures
        alive == (button_in(frame.id, frame.data@) is Some && health != CanHealth::BusOff),
        *final(reset_ack_prev) == match button_in(frame.id, frame.data@) {
            Some(raw) => raw & BUTTON_RESET_ACK_BIT != 0,
            None => *old(reset_ack_prev),
        },
        final(board)@ == after_frame(
            old(board)@,
            frame.id,
            frame.data@,
            health,
            *old(reset_ack_prev),
            tx_runtime_state,
        ),
{
    let id: u16 = match frame.id {
        FrameId::Standard(id) => id,
        FrameId::Extended(_) => return false,
    };
    match GseCanMessage::decode_standard(id, frame.data.as_slice()) {
        Ok(GseCanMessage::ButtonFromCtrlPanel { raw }) => {
            let reset_ack_now = raw & BUTTON_RESET_ACK_BIT != 0;
            if health == CanHealth::BusOff {
                *reset_ack_prev = reset_ack_now;
                inhibit_can_inputs(board);
                return false;
            }
            board.can_comm_active = true;
            board::replace_operator_input_flags_and_set_can_link_active(board, button_inputs(raw));

            if reset_ack_now && !*reset_ack_prev && raw & BUTTON_COMMAND_BITS == 0 {
                handle_reset_ack_edge(board, tx_runtime_state);
            }
            *reset_ack_prev = reset_ack_now;
            true
        },
        Err(CanDecodeError::InvalidDlc { id: invalid_id, .. }) => {
            if invalid_id == CAN_ID_BUTTON_FROM_CTRL_PANEL {
                board.can_rx_error_count = board.can_rx_error_count.wrapping_add(1);
            }
            false
        },
        _ => false,
    }
}

/// The control panel was not heard for the communication timeout. Before its first frame the time
/// runs from the start of the link.
pub open spec fn peer_silent(start: u64, last_peer_rx: Option<u64>, now: u64) -> bool {
    now - (match last_peer_rx {
        Some(last_rx) => last_rx,
        None => start,
    }) >= time::ms_to_ticks(COMMUNICATION_TIMEOUT_MS)
}

/// The operator's input is dropped and `fault` is latched.
pub open spec fn after_link_fault(b: BoardModel, fault: u8) -> BoardModel {
    board::after_faults_set(after_inhibit(b), fault)
}

pub fn update_peer_liveness(
    board: &mut BoardState,
    start: u64,
    last_peer_rx: Option<u64>,
    now: u64,
)
    requires
        start <= now,
        last_peer_rx matches Some(last_rx) ==> last_rx <= now,
    ensures
        final(board)@ == if peer_silent(start, last_peer_rx, now) {
            after_link_fault(old(board)@, CAN_PEER_LOST)
        } else {
            old(board)@
        },
{
    let since: u64 = match last_peer_rx {
        Some(last_rx) => last_rx,
        None => start,
    };
    if time::duration_since(now, since) >= time::duration_from_millis(COMMUNICATION_TIMEOUT_MS) {
        inhibit_can_inputs(board);
        board::set_fault_flags(board, CAN_PEER_LOST);
    }
}

/// Frames are sent in the normal state and probes while one is pending, but never on a bus that is
/// off.
pub fn can_tx_allowed(board: &BoardState, tx_runtime_state: CanTxRuntimeState, probe: bool) -> (
    allowed: bool)
    ensures
        allowed == (board@.can_health != health::byte_of_health(CanHealth::BusOff)
            && tx_runtime_state == if probe {
            CanTxRuntimeState::ProbePending
        } else {
            CanTxRuntimeState::Normal
        }),
{
    if board.can_health == CanHealth::BusOff.as_u8() {
        return false;
    }
    match tx_runtime_state {
        CanTxRuntimeState::Normal => !probe,
        CanTxRuntimeState::ProbePending => probe,
        CanTxRuntimeState::SuspendedAfterTimeout => false,
    }
}

/// The phase and the faults. A servo that has failed is reported once its failures in a row have
/// raised the servo fault.
pub open spec fn internal_status(b: BoardModel) -> GseCanMessage {
    GseCanMessage::InternalStatus {
        phase: crate::control::byte_of_phase(crate::control::phase_of_byte(b.sequence_phase)),
        flags: b.fault_flags,
    }
}

pub fn internal_status_message(board: &BoardState) -> (message: GseCanMessage)
    ensures
        message == internal_status(board@),
{
    GseCanMessage::InternalStatus {
        phase: board::sequence_phase(board).as_u8(),
        flags: board.fault_flags,
    }
}

/// What the status slots report, in turn.
#[derive(Clone, Copy, Debug, PartialEq, Eq)]
pub enum StatusReport {
    Message(GseCanMessage),
    Logger(LogData),
    Nothing,
}

pub open spec fn report_in_slot(b: BoardModel, status_slot: u8) -> StatusReport {
    let slot = status_slot % STATUS_FRAME_COUNT;
    if slot == 0 {
        StatusReport::Message(GseCanMessage::OutputGpioStatus { output_bits: b.output_status })
    } else if slot == 1 {
        StatusReport::Message(GseCanMessage::InputGpioStatus { input_bits: b.input_gpio_status })
    } else if slot == 2 {
        StatusReport::Message(
            GseCanMessage::MainValveAngleToCtrlPanel {
                angle_x10: angle::angle_of(b.current_position) as i16,
            },
        )
    } else if slot == 3 {
        StatusReport::Message(internal_status(b))
    } else {
        match b.latest_log_data {
            Some(sample) => StatusReport::Logger(sample),
            None => StatusReport::Nothing,
        }
    }
}

/// The report of a status slot. The logger's slot stays empty until a sample has arrived.
pub fn status_report(board: &BoardState, status_slot: u8) -> (report: StatusReport)
    ensures
        report == report_in_slot(board@, status_slot),
{
    match status_slot % STATUS_FRAME_COUNT {
        0 => StatusReport::Message(
            GseCanMessage::OutputGpioStatus { output_bits: board.output_status },
        ),
        1 => StatusReport::Message(
            GseCanMessage::InputGpioStatus { input_bits: board.input_gpio_status },
        ),
        2 => StatusReport::Message(
            GseCanMessage::MainValveAngleToCtrlPanel {
                angle_x10: angle::position_to_angle_x10(board.current_position),
            },
        ),
        3 => StatusReport::Message(internal_status_message(board)),
        _ => match espnow::latest_log_data(board) {
            Some(sample) => StatusReport::Logger(sample),
            None => StatusReport::Nothing,
        },
    }
}

/// A timeout or a bus-off suspends sending.
pub open spec fn suspends(error: CanTxError) -> bool {
    error == CanTxError::TimedOutUnknownState || error == CanTxError::BusOff
}

/// After a failed status frame: other errors than those that suspend leave the same frame to be
/// sent again. Tells whether the controller should be restarted.
pub fn handle_normal_tx_error(error: CanTxError, tx_runtime_state: &mut CanTxRuntimeState) -> (
    restart: bool)
    ensures
        restart == suspends(error),
        *final(tx_runtime_state) == if suspends(error) {
            CanTxRuntimeState::SuspendedAfterTimeout
        } else {
            *old(tx_runtime_state)
        },
{
    match error {
        CanTxError::TimedOutUnknownState | CanTxError::BusOff => {
            *tx_runtime_state = CanTxRuntimeState::SuspendedAfterTimeout;
            true
        },
        CanTxError::FrameCreateFailed | CanTxError::TransmitFailed | CanTxError::TxInhibited => {
            false
        },
    }
}

/// After a failed probe: sending is suspended again, whatever the error. Tells whether the
/// controller should be restarted.
pub fn handle_probe_tx_error(
    board: &mut BoardState,
    error: CanTxError,
    tx_runtime_state: &mut CanTxRuntimeState,
) -> (restart: bool)
    ensures
        restart == suspends(error),
        *final(tx_runtime_state) == CanTxRuntimeState::SuspendedAfterTimeout,
        final(board)@ == after_inhibit(old(board)@),
{
    *tx_runtime_state = CanTxRuntimeState::SuspendedAfterTimeout;
    inhibit_can_inputs(board);
    match error {
        CanTxError::TimedOutUnknownState | CanTxError::BusOff => true,
        CanTxError::FrameCreateFailed | CanTxError::TransmitFailed | CanTxError::TxInhibited => {
            false
        },
    }
}

pub open spec fn after_health(b: BoardModel, counters: CanErrorCounters) -> BoardModel {
    let health = health::health_of(counters.tec, counters.rec, counters.bus_off);
    let measured = BoardModel {
        can_tec: counters.tec,
        can_rec: counters.rec,
        can_health: health::byte_of_health(health),
        ..b
    };
    if counters.bus_off {
        after_link_fault(measured, CAN_BUS_OFF)
    } else {
        measured
    }
}

/// Puts the health of the controller on the board. A bus that is off is a link fault.
pub fn update_can_health(board: &mut BoardState, counters: CanErrorCounters) -> (health: CanHealth)
    ensures
        health == health::health_of(counters.tec, counters.rec, counters.bus_off),
        final(board)@ == after_health(old(board)@, counters),
{
    board.can_tec = counters.tec;
    board.can_rec = counters.rec;
    let health = health::classify_can_health(counters.tec, counters.rec, counters.bus_off);
    board.can_health = health.as_u8();
    if health == CanHealth::BusOff {
        inhibit_can_inputs(board);
        board::set_fault_flags(board, CAN_BUS_OFF);
    }
    health
}

/// A bus-off that was reported rather than measured.
pub open spec fn after_bus_off(b: BoardModel) -> BoardModel {
    after_link_fault(
        BoardModel { can_health: health::byte_of_health(CanHealth::BusOff), ..b },
        CAN_BUS_OFF,
    )
}

/// The board after a frame was not sent. A failed attempt alone is only counted. A timeout proves
/// only that completion was not observed, so it counts as a link fault.
pub open spec fn after_tx_error(
    b: BoardModel,
    error: CanTxError,
    counters: CanErrorCounters,
) -> BoardModel {
    let noted = BoardModel { can_tx_error_count: counted(b.can_tx_error_count), ..b };
    match error {
        CanTxError::TxInhibited => b,
        CanTxError::TransmitFailed => noted,
        CanTxError::FrameCreateFailed => after_link_fault(noted, CAN_TX_FRAME_CREATE_FAILED),
        CanTxError::TimedOutUnknownState => after_health(
            after_link_fault(noted, CAN_TX_TIMEOUT),
            counters,
        ),
        CanTxError::BusOff => after_bus_off(noted),
    }
}

pub fn record_tx_error(board: &mut BoardState, error: CanTxError, counters: CanErrorCounters)
    ensures
        final(board)@ == after_tx_error(old(board)@, error, counters),
{
    match error {
        CanTxError::FrameCreateFailed => {
            board.can_tx_error_count = board.can_tx_error_count.wrapping_add(1);
            inhibit_can_inputs(board);
            board::set_fault_flags(board, CAN_TX_FRAME_CREATE_FAILED);
        },
        CanTxError::TimedOutUnknownState => {
            board.can_tx_error_count = board.can_tx_error_count.wrapping_add(1);
            inhibit_can_inputs(board);
            board::set_fault_flags(board, CAN_TX_TIMEOUT);
            update_can_health(board, counters);
        },
        CanTxError::BusOff => {
            board.can_tx_error_count = board.can_tx_error_count.wrapping_add(1);
            board.can_health = CanHealth::BusOff.as_u8();
            inhibit_can_inputs(board);
            board::set_fault_flags(board, CAN_BUS_OFF);
        },
        CanTxError::TransmitFailed => {
            board.can_tx_error_count = board.can_tx_error_count.wrapping_add(1);
        },
        CanTxError::TxInhibited => {},
    }
}

/// The board after an error while receiving. An overrun has lost frames, so the control panel
/// counts as lost.
pub open spec fn after_rx_error(b: BoardModel, error: CanRxError) -> BoardModel {
    let noted = BoardModel { can_rx_error_count: counted(b.can_rx_error_count), ..b };
    match error {
        CanRxError::BusOff => after_bus_off(noted),
        CanRxError::Overrun => after_link_fault(noted, CAN_PEER_LOST),
        CanRxError::Other => noted,
    }
}

/// Records an error while receiving, and tells whether the receive queue is to be cleared.
pub fn record_rx_error(board: &mut BoardState, error: CanRxError) -> (clear_receive_fifo: bool)
    ensures
        clear_receive_fifo == (error == CanRxError::Overrun),
        final(board)@ == after_rx_error(old(board)@, error),
{
    board.can_rx_error_count = board.can_rx_error_count.wrapping_add(1);
    handle_can_error(board, error)
}

/// What an error while receiving does to the link; tells whether the receive queue is to be
/// cleared.
pub fn handle_can_error(board: &mut BoardState, error: CanRxError) -> (clear_receive_fifo: bool)
    ensures
        clear_receive_fifo == (error == CanRxError::Overrun),
        final(board)@ == match error {
            CanRxError::BusOff => after_bus_off(old(board)@),
            CanRxError::Overrun => after_link_fault(old(board)@, CAN_PEER_LOST),
            CanRxError::Other => old(board)@,
        },
{
    match error {
        CanRxError::BusOff => {
            board.can_health = CanHealth::BusOff.as_u8();
            inhibit_can_inputs(board);
            board::set_fault_flags(board, CAN_BUS_OFF);
            false
        },
        CanRxError::Overrun => {
            inhibit_can_inputs(board);
            board::set_fault_flags(board, CAN_PEER_LOST);
            true
        },
        CanRxError::Other => false,
    }
}

/// The slots repeat with their number.
pub proof fn law_slots_repeat(b: BoardModel, status_slot: u8)
    ensures
        report_in_slot(b, status_slot) == report_in_slot(b, (status_slot % 5) as u8),
{
}

/// Sending is suspended by a timeout and by a bus-off, and by no other failure.
pub proof fn law_what_suspends(error: CanTxError)
    ensures
        suspends(error) <==> error is TimedOutUnknownState || error is BusOff,
{
}

} // verus!
