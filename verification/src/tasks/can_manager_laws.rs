//! What holds of the CAN link whatever happens on it.
use vstd::prelude::*;

use crate::board::BoardModel;
use crate::can::health::CanHealth;
use crate::can::protocol::GseCanMessage;
use crate::can::tx::{CanTxError, FrameModel, TransmitOutcome};
use crate::can::{health, protocol, tx};
use crate::tasks::can_communication as link;
use crate::tasks::can_communication::{
    CanErrorCounters, CanRxError, CanTxRuntimeState, FrameId, StatusReport, STATUS_FRAME_COUNT,
};
use crate::tasks::can_manager as manager;
use crate::tasks::can_manager::{FollowUp, LinkModel, TxStepModel};
use crate::tasks::supervisor::{ControlModel, InputGpioPins, SupervisorModel};
use crate::tasks::{supervisor, supervisor_laws};
use crate::{
    angle, bits, board, SequencePhase, CAN_BUS_OFF, CAN_PEER_LOST, CAN_TX_FRAME_CREATE_FAILED,
    CAN_TX_TIMEOUT, INPUT_CAN_LINK_ACTIVE, INPUT_COMMAND_MASK, INPUT_DUMP_REQUEST,
    INPUT_FILL_REQUEST, INPUT_FIRE_REQUEST, INPUT_O2_TEST_REQUEST, INPUT_OPERATOR_ACTION_MASK,
    INPUT_RESET_ACK_REQUEST, INPUT_SEPARATE_REQUEST, INPUT_VALVE_OPEN_REQUEST,
    INPUT_VALVE_SET_REQUEST, SERVO_COMM_ERROR,
};

verus! {

/// Something that happens to the manager.
pub enum LinkEvent {
    Begin,
    Receive { id: FrameId, data: Seq<u8>, counters: CanErrorCounters, now: u64 },
    ReceiveError { error: CanRxError, counters: CanErrorCounters },
    HealthTick { counters: CanErrorCounters, now: u64 },
    TxTick { counters: CanErrorCounters, now: u64 },
    TxOutcome { outcome: TransmitOutcome, counters: CanErrorCounters },
}

/// The link after an event.
pub open spec fn after_event(l: LinkModel, event: LinkEvent) -> LinkModel {
    match event {
        LinkEvent::Begin => manager::after_begin(l),
        LinkEvent::Receive { id, data, counters, now } => manager::after_receive(
            l,
            id,
            data,
            counters,
            now,
        ),
        LinkEvent::ReceiveError { error, counters } => manager::after_bus_check(
            l.with_board(link::after_rx_error(l.board, error)),
            counters,
        ),
        LinkEvent::HealthTick { counters, now } => manager::after_bus_check(
            manager::after_liveness(l, now),
            counters,
        ),
        LinkEvent::TxTick { counters, now } => manager::after_tx_tick(l, counters, now),
        LinkEvent::TxOutcome { outcome, counters } => manager::after_outcome(l, outcome, counters),
    }
}

/// The event is a frame from the control panel on a live bus.
pub open spec fn panel_heard(event: LinkEvent) -> bool {
    event matches LinkEvent::Receive { id, data, counters, .. } && manager::shows_panel(
        id,
        data,
        counters,
    )
}

/// The event is a reset acknowledgement from the control panel on a live bus.
pub open spec fn reset_heard(l: LinkModel, event: LinkEvent) -> bool {
    &&& event matches LinkEvent::Receive { id, data, counters, .. }
    &&& !counters.bus_off
    &&& link::button_in(id, data) matches Some(raw)
    &&& link::reset_acknowledged(raw, l.manager.reset_ack_prev)
}

/// Every event keeps the manager well formed.
pub proof fn law_manager_stays_well_formed(l: LinkModel, event: LinkEvent)
    requires
        l.manager.wf(),
    ensures
        after_event(l, event).manager.wf(),
{
}

/// Nothing is sent while sending is suspended, nor on a bus that is off.
pub proof fn law_nothing_sent_while_suspended(l: LinkModel, counters: CanErrorCounters, now: u64)
    ensures
        l.tx() == CanTxRuntimeState::SuspendedAfterTimeout || counters.bus_off
            ==> manager::tx_tick_step(l, counters, now) !is Transmit,
{
}

/// Sending is resumed in two steps only: the control panel is heard, and then a probe goes through.
pub proof fn law_sending_is_resumed_by_panel_and_probe(l: LinkModel, event: LinkEvent)
    ensures
        l.tx() == CanTxRuntimeState::SuspendedAfterTimeout ==> after_event(l, event).tx() == (
        if panel_heard(event) {
            CanTxRuntimeState::ProbePending
        } else {
            CanTxRuntimeState::SuspendedAfterTimeout
        }),
        l.tx() == CanTxRuntimeState::ProbePending && after_event(l, event).tx()
            == CanTxRuntimeState::Normal ==> {
            &&& event matches LinkEvent::TxOutcome { outcome, .. }
            &&& outcome == TransmitOutcome::Sent
        },
{
}

/// Whatever goes wrong with a probe, sending is suspended again and the operator's input dropped.
pub proof fn law_failed_probe_suspends(
    l: LinkModel,
    outcome: TransmitOutcome,
    counters: CanErrorCounters,
)
    requires
        l.tx() == CanTxRuntimeState::ProbePending,
        outcome != TransmitOutcome::Sent,
    ensures
        ({
            let after = manager::after_outcome(l, outcome, counters);
            &&& after.tx() == CanTxRuntimeState::SuspendedAfterTimeout
            &&& operator_dropped(after.board)
        }),
{
    let noted = link::after_tx_error(l.board, tx::transmit_result(outcome)->Err_0, counters);
    lemma_inhibited(noted);
}

/// After a timeout or a bus-off while sending a status frame nothing more is sent.
pub proof fn law_timeout_and_bus_off_suspend(
    l: LinkModel,
    outcome: TransmitOutcome,
    counters: CanErrorCounters,
)
    requires
        l.tx() == CanTxRuntimeState::Normal,
    ensures
        manager::after_outcome(l, outcome, counters).tx() == (if outcome
            == TransmitOutcome::TimedOut || outcome == TransmitOutcome::BusOff {
            CanTxRuntimeState::SuspendedAfterTimeout
        } else {
            CanTxRuntimeState::Normal
        }),
{
}

/// A status frame that was refused for a passing reason is the next to be sent again.
pub proof fn law_failed_frame_is_sent_again(l: LinkModel, counters: CanErrorCounters)
    requires
        l.tx() == CanTxRuntimeState::Normal,
    ensures
        manager::due_frame(manager::after_outcome(l, TransmitOutcome::OtherError, counters))
            == manager::due_frame(l),
{
}

/// A status frame that went out makes way for the next slot; the slots come round in turn.
pub proof fn law_slots_come_round(l: LinkModel, counters: CanErrorCounters)
    requires
        l.manager.wf(),
        l.tx() == CanTxRuntimeState::Normal,
    ensures
        ({
            let sent = |m: LinkModel| manager::after_outcome(m, TransmitOutcome::Sent, counters);
            &&& sent(l).manager.status_slot == (l.manager.status_slot + 1)
                % STATUS_FRAME_COUNT as int
            &&& sent(sent(sent(sent(sent(l))))) == l
        }),
{
}

/// A slot without anything to report does not hold up the others.
pub proof fn law_empty_slot_is_passed_over(l: LinkModel, counters: CanErrorCounters, now: u64)
    requires
        l.manager.wf(),
        l.tx() == CanTxRuntimeState::Normal,
        !counters.bus_off,
        link::report_in_slot(l.board, l.manager.status_slot) == StatusReport::Nothing,
    ensures
        manager::tx_tick_step(l, counters, now) == TxStepModel::Done(FollowUp::Continue),
        manager::after_tx_tick(l, counters, now).manager.status_slot == 0,
{
}

/// The controller is restarted at most once until frames are sent on a live bus again.
pub proof fn law_one_restart(l: LinkModel, event: LinkEvent)
    requires
        l.manager.restart_attempted,
    ensures
        !after_event(l, event).manager.restart_attempted ==> {
            &&& event is Begin
            &&& l.tx() == CanTxRuntimeState::Normal
            &&& l.board.can_health != health::byte_of_health(CanHealth::BusOff)
        },
        forall|try_restart: bool|
            #[trigger] manager::follow_up(l, try_restart) != FollowUp::Restart,
{
}

/// Neither the control panel's link nor any of its requests is in the input.
pub open spec fn operator_dropped(b: BoardModel) -> bool {
    &&& !b.can_comm_active
    &&& b.input_flags & INPUT_CAN_LINK_ACTIVE == 0
    &&& b.input_flags & INPUT_COMMAND_MASK == 0
}

proof fn lemma_inhibited(b: BoardModel)
    ensures
        operator_dropped(link::after_inhibit(b)),
{
    let flags = b.input_flags;
    assert((flags & !(INPUT_CAN_LINK_ACTIVE | INPUT_COMMAND_MASK)) & INPUT_CAN_LINK_ACTIVE == 0 && (
    flags & !(INPUT_CAN_LINK_ACTIVE | INPUT_COMMAND_MASK)) & INPUT_COMMAND_MASK == 0)
        by (bit_vector);
}

proof fn lemma_fault_is_set(faults: u8, fault: u8)
    ensures
        (faults | fault) & fault == fault,
        (faults | fault) & faults == faults,
{
    bits::lemma_raise_and_clear(faults, fault);
}

/// Every link fault drops the operator's input and is latched.
pub proof fn law_link_fault_drops_operator(b: BoardModel, fault: u8)
    ensures
        operator_dropped(link::after_link_fault(b, fault)),
        link::after_link_fault(b, fault).fault_flags & fault == fault,
{
    lemma_inhibited(b);
    lemma_fault_is_set(b.fault_flags, fault);
}

/// A control panel that is silent for the communication timeout loses its input at the next tick,
/// whichever it is.
pub proof fn law_silent_panel_is_lost(l: LinkModel, counters: CanErrorCounters, now: u64)
    requires
        link::peer_silent(l.manager.start, l.manager.last_peer_rx, now),
    ensures
        ({
            let after = manager::after_bus_check(manager::after_liveness(l, now), counters);
            &&& operator_dropped(after.board)
            &&& after.board.fault_flags & CAN_PEER_LOST == CAN_PEER_LOST
        }),
        operator_dropped(manager::after_tx_tick(l, counters, now).board),
        manager::after_tx_tick(l, counters, now).board.fault_flags & CAN_PEER_LOST == CAN_PEER_LOST,
{
    let silent = link::after_link_fault(l.board, CAN_PEER_LOST);
    law_link_fault_drops_operator(l.board, CAN_PEER_LOST);
    let measured = link::after_health(silent, counters);
    lemma_health_keeps_drop(silent, counters);
    let checked = manager::after_bus_check(manager::after_liveness(l, now), counters);
    assert(checked.board == measured);
    bits::lemma_link_faults_are_apart(measured.fault_flags);
    lemma_inhibited(
        BoardModel { can_tx_error_count: link::counted(measured.can_tx_error_count), ..measured },
    );
}

/// With the control panel silent, the next pass of the supervisor after the next tick aborts and
/// switches everything off.
pub proof fn law_silent_panel_stops_the_board(
    l: LinkModel,
    counters: CanErrorCounters,
    now: u64,
    supervisor: SupervisorModel,
    later: u64,
    pins: InputGpioPins,
)
    requires
        link::peer_silent(l.manager.start, l.manager.last_peer_rx, now),
    ensures
        ({
            let ticked = manager::after_bus_check(manager::after_liveness(l, now), counters);
            let c = ControlModel { supervisor, board: ticked.board };
            &&& supervisor_laws::outputs_off(c, later, pins)
            &&& supervisor::after_pass(c, later, pins).phase() == SequencePhase::Abort
        }),
{
    law_silent_panel_is_lost(l, counters, now);
    let ticked = manager::after_bus_check(manager::after_liveness(l, now), counters);
    bits::lemma_link_faults_are_apart(ticked.board.fault_flags);
    supervisor_laws::law_lost_link_aborts(
        ControlModel { supervisor, board: ticked.board },
        later,
        pins,
    );
}

proof fn lemma_health_keeps_drop(b: BoardModel, counters: CanErrorCounters)
    requires
        operator_dropped(b),
    ensures
        operator_dropped(link::after_health(b, counters)),
        link::after_health(b, counters).fault_flags & CAN_PEER_LOST == b.fault_flags
            & CAN_PEER_LOST,
{
    bits::lemma_link_faults_are_apart(b.fault_flags);
    let measured = BoardModel {
        can_tec: counters.tec,
        can_rec: counters.rec,
        can_health: health::byte_of_health(
            health::health_of(counters.tec, counters.rec, counters.bus_off),
        ),
        ..b
    };
    lemma_inhibited(measured);
}

/// A bus that is off drops the operator's input, is latched as a fault and suspends sending, at
/// whatever event it is noticed but a frame, which leaves the state of sending to the next tick.
pub proof fn law_bus_off_is_noticed(l: LinkModel, counters: CanErrorCounters, now: u64)
    requires
        counters.bus_off,
    ensures
        ({
            let after = manager::after_bus_check(manager::after_liveness(l, now), counters);
            &&& operator_dropped(after.board)
            &&& after.board.fault_flags & CAN_BUS_OFF == CAN_BUS_OFF
            &&& after.tx() == CanTxRuntimeState::SuspendedAfterTimeout
            &&& after == manager::after_tx_tick(l, counters, now)
        }),
        forall|id: FrameId, data: Seq<u8>| #[trigger]
            operator_dropped(manager::after_receive(l, id, data, counters, now).board),
{
    let heard = manager::after_liveness(l, now).board;
    let measured = BoardModel {
        can_tec: counters.tec,
        can_rec: counters.rec,
        can_health: health::byte_of_health(CanHealth::BusOff),
        ..heard
    };
    law_link_fault_drops_operator(measured, CAN_BUS_OFF);
    assert forall|id: FrameId, data: Seq<u8>| #[trigger]
        operator_dropped(manager::after_receive(l, id, data, counters, now).board) by {
        let received = BoardModel {
            can_tec: counters.tec,
            can_rec: counters.rec,
            can_health: health::byte_of_health(CanHealth::BusOff),
            ..l.board
        };
        law_link_fault_drops_operator(received, CAN_BUS_OFF);
        lemma_inhibited(link::after_health(l.board, counters));
    }
}

/// Faults stay until the control panel acknowledges a reset, and even that clears only the faults
/// of the link: the lost peer, the transmit timeout and the bus-off.
pub proof fn law_faults_are_latched(l: LinkModel, event: LinkEvent)
    ensures
        ({
            let before = l.board.fault_flags;
            let after = after_event(l, event).board.fault_flags;
            if reset_heard(l, event) {
                before & !(CAN_PEER_LOST | CAN_TX_TIMEOUT | CAN_BUS_OFF) & !after == 0
            } else {
                before & !after == 0
            }
        }),
{
    lemma_raising_keeps(l.board.fault_flags);
    if reset_heard(l, event) {
        let measured = link::after_health(l.board, event->Receive_counters);
        let clearable = link::clearable_faults(measured.can_health, l.tx());
        let faults = measured.fault_flags;
        assert(clearable & !(CAN_PEER_LOST | CAN_TX_TIMEOUT | CAN_BUS_OFF) == 0) by {
            assert((CAN_PEER_LOST | 0u8 | 0u8) & !(CAN_PEER_LOST | CAN_TX_TIMEOUT | CAN_BUS_OFF)
                == 0 && (CAN_PEER_LOST | CAN_TX_TIMEOUT | 0u8) & !(CAN_PEER_LOST | CAN_TX_TIMEOUT
                | CAN_BUS_OFF) == 0 && (CAN_PEER_LOST | 0u8 | CAN_BUS_OFF) & !(CAN_PEER_LOST
                | CAN_TX_TIMEOUT | CAN_BUS_OFF) == 0 && (CAN_PEER_LOST | CAN_TX_TIMEOUT
                | CAN_BUS_OFF) & !(CAN_PEER_LOST | CAN_TX_TIMEOUT | CAN_BUS_OFF) == 0)
                by (bit_vector);
        }
        assert(faults & !(CAN_PEER_LOST | CAN_TX_TIMEOUT | CAN_BUS_OFF) & !(faults & !clearable)
            == 0) by (bit_vector)
            requires
                clearable & !(CAN_PEER_LOST | CAN_TX_TIMEOUT | CAN_BUS_OFF) == 0,
        ;
        assert(faults & !(CAN_PEER_LOST | CAN_TX_TIMEOUT | CAN_BUS_OFF) & !faults == 0)
            by (bit_vector);
    }
}

proof fn lemma_raising_keeps(faults: u8)
    by (bit_vector)
    ensures
        faults & !faults == 0,
        forall|a: u8| faults & !(#[trigger] (faults | a)) == 0,
        forall|a: u8, b: u8| faults & !(#[trigger] ((faults | a) | b)) == 0,
        forall|a: u8, b: u8, c: u8| faults & !(#[trigger] (((faults | a) | b) | c)) == 0,
{
}

/// Each bit of the button byte stands for one request.
pub proof fn law_each_button_is_one_request(raw: u8)
    ensures
        ({
            let requests = link::requests_of_buttons(raw);
            &&& (requests & INPUT_DUMP_REQUEST != 0) == (raw & 0x01 != 0)
            &&& (requests & INPUT_FIRE_REQUEST != 0) == (raw & 0x02 != 0)
            &&& (requests & INPUT_FILL_REQUEST != 0) == (raw & 0x04 != 0)
            &&& (requests & INPUT_SEPARATE_REQUEST != 0) == (raw & 0x08 != 0)
            &&& (requests & INPUT_VALVE_SET_REQUEST != 0) == (raw & 0x10 != 0)
            &&& (requests & INPUT_O2_TEST_REQUEST != 0) == (raw & 0x20 != 0)
            &&& (requests & INPUT_VALVE_OPEN_REQUEST != 0) == (raw & 0x40 != 0)
            &&& (requests & INPUT_RESET_ACK_REQUEST != 0) == (raw & 0x80 != 0)
            &&& requests & !INPUT_COMMAND_MASK == 0
        }),
{
    let requests = link::requests_of_buttons(raw);
    let a = raw & 0x01 != 0;
    let b = raw & 0x02 != 0;
    let c = raw & 0x04 != 0;
    let d = raw & 0x08 != 0;
    let e = raw & 0x10 != 0;
    let f = raw & 0x20 != 0;
    let g = raw & 0x40 != 0;
    let h = raw & 0x80 != 0;
    assert({
        &&& (requests & INPUT_DUMP_REQUEST != 0) == a
        &&& (requests & INPUT_FIRE_REQUEST != 0) == b
        &&& (requests & INPUT_FILL_REQUEST != 0) == c
        &&& (requests & INPUT_SEPARATE_REQUEST != 0) == d
        &&& (requests & INPUT_VALVE_SET_REQUEST != 0) == e
        &&& (requests & INPUT_O2_TEST_REQUEST != 0) == f
        &&& (requests & INPUT_VALVE_OPEN_REQUEST != 0) == g
        &&& (requests & INPUT_RESET_ACK_REQUEST != 0) == h
        &&& requests & !INPUT_COMMAND_MASK == 0
    }) by (bit_vector)
        requires
            requests == (if a {
                0x200u32
            } else {
                0
            }) + (if b {
                0x100u32
            } else {
                0
            }) + (if c {
                0x400u32
            } else {
                0
            }) + (if d {
                0x800u32
            } else {
                0
            }) + (if e {
                0x1000u32
            } else {
                0
            }) + (if f {
                0x2000u32
            } else {
                0
            }) + (if g {
                0x4000u32
            } else {
                0
            }) + (if h {
                0x8000u32
            } else {
                0
            }),
    ;
}

/// A frame from the control panel on a live bus marks the link as active, and its buttons, but for
/// the reset acknowledgement, are the operator's requests from then on.
pub proof fn law_buttons_become_the_input(
    l: LinkModel,
    id: FrameId,
    data: Seq<u8>,
    counters: CanErrorCounters,
    now: u64,
)
    requires
        manager::shows_panel(id, data, counters),
    ensures
        ({
            let after = manager::after_receive(l, id, data, counters, now);
            let raw = link::button_in(id, data)->0;
            &&& after.board.can_comm_active
            &&& after.board.input_flags & INPUT_CAN_LINK_ACTIVE != 0
            &&& after.board.input_flags & INPUT_COMMAND_MASK == link::requests_of_buttons(raw)
                & INPUT_OPERATOR_ACTION_MASK
            &&& after.board.input_flags & INPUT_RESET_ACK_REQUEST == 0
            &&& after.manager.last_peer_rx == Some(now)
        }),
{
    let raw = link::button_in(id, data)->0;
    let before = l.board.input_flags;
    let requests = link::requests_of_buttons(raw);
    let inputs = board::operator_inputs_replaced(before, requests) | INPUT_CAN_LINK_ACTIVE;
    assert({
        &&& inputs & INPUT_CAN_LINK_ACTIVE != 0
        &&& inputs & INPUT_COMMAND_MASK == requests & INPUT_OPERATOR_ACTION_MASK
        &&& inputs & INPUT_RESET_ACK_REQUEST == 0
    }) by (bit_vector)
        requires
            inputs == ((before & !INPUT_COMMAND_MASK) | (requests & INPUT_OPERATOR_ACTION_MASK))
                | INPUT_CAN_LINK_ACTIVE,
    ;
}

/// A frame that is not the control panel's buttons leaves the operator's input and the faults as
/// they are on a live bus.
pub proof fn law_other_frames_change_nothing(
    l: LinkModel,
    id: FrameId,
    data: Seq<u8>,
    counters: CanErrorCounters,
    now: u64,
)
    requires
        link::button_in(id, data) is None,
        !counters.bus_off,
    ensures
        ({
            let after = manager::after_receive(l, id, data, counters, now);
            &&& after.manager == l.manager
            &&& after.board == (BoardModel {
                can_tec: counters.tec,
                can_rec: counters.rec,
                can_health: after.board.can_health,
                can_rx_error_count: after.board.can_rx_error_count,
                ..l.board
            })
        }),
{
}

/// Two boards agree on the phase, the outputs, and all that belongs to the servo or to the data
/// logger.
pub open spec fn agree_beside_the_link(before: BoardModel, after: BoardModel) -> bool {
    &&& after.sequence_phase == before.sequence_phase
    &&& after.output_status == before.output_status
    &&& after.input_gpio_status == before.input_gpio_status
    &&& after.servo_control_mode == before.servo_control_mode
    &&& after.servo_target_angle_x10 == before.servo_target_angle_x10
    &&& after.current_position == before.current_position
    &&& after.servo_comm_active == before.servo_comm_active
    &&& after.servo_comm_error_count == before.servo_comm_error_count
    &&& after.firing_open_latched == before.firing_open_latched
    &&& after.firing_open_send_count == before.firing_open_send_count
    &&& after.open_latch_release_pending == before.open_latch_release_pending
    &&& after.latest_log_data == before.latest_log_data
    &&& after.angle_command == before.angle_command
}

proof fn lemma_health_agrees(b: BoardModel, counters: CanErrorCounters)
    ensures
        agree_beside_the_link(b, link::after_health(b, counters)),
{
}

proof fn lemma_bus_check_agrees(l: LinkModel, counters: CanErrorCounters)
    ensures
        agree_beside_the_link(l.board, manager::after_bus_check(l, counters).board),
{
    lemma_health_agrees(l.board, counters);
}

proof fn lemma_tx_error_agrees(b: BoardModel, error: CanTxError, counters: CanErrorCounters)
    ensures
        agree_beside_the_link(b, link::after_tx_error(b, error, counters)),
        agree_beside_the_link(b, link::after_inhibit(link::after_tx_error(b, error, counters))),
{
    let noted = BoardModel { can_tx_error_count: link::counted(b.can_tx_error_count), ..b };
    lemma_health_agrees(link::after_link_fault(noted, CAN_TX_TIMEOUT), counters);
}

/// No event changes the phase, the outputs, or anything that belongs to the servo or to the data
/// logger.
pub proof fn law_link_keeps_what_is_not_its_own(l: LinkModel, event: LinkEvent)
    ensures
        agree_beside_the_link(l.board, after_event(l, event).board),
{
    match event {
        LinkEvent::Begin => {},
        LinkEvent::Receive { id, data, counters, now } => {
            lemma_health_agrees(l.board, counters);
        },
        LinkEvent::ReceiveError { error, counters } => {
            lemma_bus_check_agrees(l.with_board(link::after_rx_error(l.board, error)), counters);
        },
        LinkEvent::HealthTick { counters, now } => {
            lemma_bus_check_agrees(manager::after_liveness(l, now), counters);
        },
        LinkEvent::TxTick { counters, now } => {
            let checked = manager::after_bus_check(manager::after_liveness(l, now), counters);
            lemma_bus_check_agrees(manager::after_liveness(l, now), counters);
            lemma_tx_error_agrees(checked.board, CanTxError::FrameCreateFailed, counters);
        },
        LinkEvent::TxOutcome { outcome, counters } => {
            if let Err(error) = tx::transmit_result(outcome) {
                lemma_tx_error_agrees(l.board, error, counters);
            }
        },
    }
}

proof fn lemma_link_faults_leave_servo_fault()
    by (bit_vector)
    ensures
        forall|faults: u8| (#[trigger] (faults | CAN_PEER_LOST)) & SERVO_COMM_ERROR == faults
            & SERVO_COMM_ERROR,
        forall|faults: u8| (#[trigger] (faults | CAN_BUS_OFF)) & SERVO_COMM_ERROR == faults
            & SERVO_COMM_ERROR,
        forall|faults: u8| (#[trigger] (faults | CAN_TX_TIMEOUT)) & SERVO_COMM_ERROR == faults
            & SERVO_COMM_ERROR,
        forall|faults: u8| (#[trigger] (faults | CAN_TX_FRAME_CREATE_FAILED)) & SERVO_COMM_ERROR
            == faults & SERVO_COMM_ERROR,
{
}

proof fn lemma_reset_leaves_servo_fault(
    faults: u8,
    can_health: u8,
    tx_runtime_state: CanTxRuntimeState,
)
    ensures
        (faults & !link::clearable_faults(can_health, tx_runtime_state)) & SERVO_COMM_ERROR
            == faults & SERVO_COMM_ERROR,
{
    let timeout: u8 = if tx_runtime_state == CanTxRuntimeState::Normal {
        CAN_TX_TIMEOUT
    } else {
        0
    };
    let bus_off: u8 = if can_health == health::byte_of_health(CanHealth::Active) {
        CAN_BUS_OFF
    } else {
        0
    };
    assert((faults & !(CAN_PEER_LOST | timeout | bus_off)) & SERVO_COMM_ERROR == faults
        & SERVO_COMM_ERROR) by (bit_vector)
        requires
            timeout == CAN_TX_TIMEOUT || timeout == 0,
            bus_off == CAN_BUS_OFF || bus_off == 0,
    ;
}

/// No event of the link raises or clears the servo fault, not even a reset acknowledgement.
pub proof fn law_link_leaves_the_servo_fault(l: LinkModel, event: LinkEvent)
    ensures
        after_event(l, event).board.fault_flags & SERVO_COMM_ERROR == l.board.fault_flags
            & SERVO_COMM_ERROR,
{
    lemma_link_faults_leave_servo_fault();
    if let LinkEvent::Receive { counters, .. } = event {
        let measured = link::after_health(l.board, counters);
        lemma_reset_leaves_servo_fault(measured.fault_flags, measured.can_health, l.tx());
    }
}

/// The button byte is the only byte of a standard frame with the identifier of the buttons; no other
/// frame holds one.
pub proof fn law_button_frames(id: FrameId, data: Seq<u8>)
    ensures
        link::button_in(id, data) == if id == FrameId::Standard(0x001) && data.len() == 1 {
            Some(data[0])
        } else {
            None
        },
{
}

/// What a frame does to the manager: a button frame on a live bus proves the control panel alive and
/// lets a suspended link be probed, every button frame is remembered for its acknowledgement, and
/// nothing else changes.
pub proof fn law_frames_and_the_manager(
    l: LinkModel,
    id: FrameId,
    data: Seq<u8>,
    counters: CanErrorCounters,
    now: u64,
)
    ensures
        ({
            let after = manager::after_receive(l, id, data, counters, now).manager;
            let buttons = id == FrameId::Standard(0x001) && data.len() == 1;
            let alive = buttons && !counters.bus_off;
            &&& after.last_peer_rx == if alive {
                Some(now)
            } else {
                l.manager.last_peer_rx
            }
            &&& after.tx_runtime_state == if alive && l.tx()
                == CanTxRuntimeState::SuspendedAfterTimeout {
                CanTxRuntimeState::ProbePending
            } else {
                l.tx()
            }
            &&& after.reset_ack_prev == if buttons {
                data[0] >= 0x80
            } else {
                l.manager.reset_ack_prev
            }
            &&& after.start == l.manager.start
            &&& after.restart_attempted == l.manager.restart_attempted
            &&& after.status_slot == l.manager.status_slot
            &&& after.logger_data_id == l.manager.logger_data_id
        }),
{
    if data.len() == 1 {
        lemma_button_bits(data[0]);
    }
}

proof fn lemma_button_bits(raw: u8)
    by (bit_vector)
    ensures
        raw & 0x80u8 != 0 <==> raw >= 0x80,
        raw & 0x80u8 != 0 && raw & 0x7fu8 == 0 <==> raw == 0x80,
{
}

/// The frame is a fresh acknowledgement: a button byte with the acknowledgement alone, after one
/// without it, on a live bus.
pub open spec fn fresh_acknowledgement(
    l: LinkModel,
    id: FrameId,
    data: Seq<u8>,
    counters: CanErrorCounters,
) -> bool {
    &&& id == FrameId::Standard(0x001)
    &&& data.len() == 1 && data[0] == 0x80
    &&& !l.manager.reset_ack_prev
    &&& !counters.bus_off
}

/// Resets are counted exactly on fresh acknowledgements, one by one and modulo the counter's range,
/// and wrong lengths exactly on frames that should hold the buttons.
pub proof fn law_frames_are_counted(
    l: LinkModel,
    id: FrameId,
    data: Seq<u8>,
    counters: CanErrorCounters,
    now: u64,
)
    ensures
        ({
            let after = manager::after_receive(l, id, data, counters, now).board;
            &&& after.reset_ack_event_counter == if fresh_acknowledgement(l, id, data, counters) {
                (l.board.reset_ack_event_counter + 1) % 256
            } else {
                l.board.reset_ack_event_counter as int
            }
            &&& after.can_rx_error_count == if id == FrameId::Standard(0x001) && data.len() != 1 {
                (l.board.can_rx_error_count + 1) % 0x1_0000_0000
            } else {
                l.board.can_rx_error_count as int
            }
            &&& after.can_tx_error_count == l.board.can_tx_error_count
        }),
{
    if data.len() == 1 {
        lemma_button_bits(data[0]);
    }
}

proof fn lemma_clearing(faults: u8, timeout: u8, bus_off: u8)
    by (bit_vector)
    requires
        timeout == CAN_TX_TIMEOUT || timeout == 0,
        bus_off == CAN_BUS_OFF || bus_off == 0,
    ensures
        ({
            let after = faults & !(CAN_PEER_LOST | timeout | bus_off);
            &&& after & CAN_PEER_LOST == 0
            &&& after & CAN_TX_TIMEOUT == if timeout == 0 {
                faults & CAN_TX_TIMEOUT
            } else {
                0
            }
            &&& after & CAN_BUS_OFF == if bus_off == 0 {
                faults & CAN_BUS_OFF
            } else {
                0
            }
            &&& after & !(CAN_PEER_LOST | CAN_TX_TIMEOUT | CAN_BUS_OFF) == faults & !(CAN_PEER_LOST
                | CAN_TX_TIMEOUT | CAN_BUS_OFF)
        }),
{
}

/// What a fresh acknowledgement clears: the lost control panel always, the transmit timeout exactly
/// if frames are sent as usual, the bus-off exactly if no error counter warns, and nothing else. Any
/// other frame on a live bus leaves the faults alone.
pub proof fn law_acknowledgement_clears_what_is_over(
    l: LinkModel,
    id: FrameId,
    data: Seq<u8>,
    counters: CanErrorCounters,
    now: u64,
)
    requires
        !counters.bus_off,
    ensures
        ({
            let before = l.board.fault_flags;
            let after = manager::after_receive(l, id, data, counters, now).board.fault_flags;
            let rest = !(CAN_PEER_LOST | CAN_TX_TIMEOUT | CAN_BUS_OFF);
            if fresh_acknowledgement(l, id, data, counters) {
                &&& after & CAN_PEER_LOST == 0
                &&& after & CAN_TX_TIMEOUT == if l.tx() == CanTxRuntimeState::Normal {
                    0
                } else {
                    before & CAN_TX_TIMEOUT
                }
                &&& after & CAN_BUS_OFF == if counters.tec < 96 && counters.rec < 96 {
                    0
                } else {
                    before & CAN_BUS_OFF
                }
                &&& after & rest == before & rest
            } else {
                after == before
            }
        }),
{
    if data.len() == 1 {
        lemma_button_bits(data[0]);
    }
    let timeout: u8 = if l.tx() == CanTxRuntimeState::Normal {
        CAN_TX_TIMEOUT
    } else {
        0
    };
    let bus_off: u8 = if counters.tec < 96 && counters.rec < 96 {
        CAN_BUS_OFF
    } else {
        0
    };
    lemma_clearing(l.board.fault_flags, timeout, bus_off);
    assert(link::clearable_faults(
        link::after_health(l.board, counters).can_health,
        l.tx(),
    ) == CAN_PEER_LOST | timeout | bus_off);
}

/// The control panel was last heard, or the link begun, three seconds before `now`.
pub open spec fn unheard_for_three_seconds(l: LinkModel, now: u64) -> bool {
    now - (match l.manager.last_peer_rx {
        Some(last) => last,
        None => l.manager.start,
    }) >= 3_000_000
}

/// A tick on a live bus, before the control panel has been silent for three seconds, does nothing
/// to the board but to take down the error counters and the health that they stand for; from then on
/// it drops the operator and latches the lost control panel.
pub proof fn law_ticks_and_silence(l: LinkModel, counters: CanErrorCounters, now: u64)
    requires
        !counters.bus_off,
    ensures
        ({
            let after = manager::after_bus_check(manager::after_liveness(l, now), counters);
            &&& !unheard_for_three_seconds(l, now) ==> after.board == (BoardModel {
                can_tec: counters.tec,
                can_rec: counters.rec,
                can_health: after.board.can_health,
                ..l.board
            })
            &&& unheard_for_three_seconds(l, now) ==> operator_dropped(after.board)
                && after.board.fault_flags & CAN_PEER_LOST == CAN_PEER_LOST
            &&& after.manager == l.manager
        }),
{
    if unheard_for_three_seconds(l, now) {
        law_silent_panel_is_lost(l, counters, now);
    }
}

/// At every event that tells of the controller, its error counters are taken down, and its health is
/// the one that they stand for: a warning from 96 on, passive from 128 on, and bus-off.
pub proof fn law_health_is_taken_down(b: BoardModel, counters: CanErrorCounters)
    ensures
        ({
            let after = link::after_health(b, counters);
            &&& after.can_tec == counters.tec
            &&& after.can_rec == counters.rec
            &&& after.can_health == 3 <==> counters.bus_off
            &&& after.can_health == 2 <==> !counters.bus_off && (counters.tec >= 128
                || counters.rec >= 128)
            &&& after.can_health == 0 <==> !counters.bus_off && counters.tec < 96 && counters.rec
                < 96
            &&& counters.bus_off ==> operator_dropped(after) && after.fault_flags & CAN_BUS_OFF
                == CAN_BUS_OFF
            &&& !counters.bus_off ==> after.fault_flags == b.fault_flags && after.input_flags
                == b.input_flags && after.can_comm_active == b.can_comm_active
        }),
{
    let measured = BoardModel {
        can_tec: counters.tec,
        can_rec: counters.rec,
        can_health: health::byte_of_health(
            health::health_of(counters.tec, counters.rec, counters.bus_off),
        ),
        ..b
    };
    law_link_fault_drops_operator(measured, CAN_BUS_OFF);
}

/// What a failed attempt to send does to the board, in ordinary operation: a passing failure is only
/// counted; the others drop the operator and latch their fault, a frame that cannot be made, a
/// timeout and a bus-off each its own.
pub proof fn law_failed_attempts_are_recorded(
    l: LinkModel,
    outcome: TransmitOutcome,
    counters: CanErrorCounters,
)
    requires
        l.tx() == CanTxRuntimeState::Normal,
        !counters.bus_off,
    ensures
        ({
            let before = l.board;
            let after = manager::after_outcome(l, outcome, counters).board;
            let count = (before.can_tx_error_count + 1) % 0x1_0000_0000;
            match outcome {
                TransmitOutcome::Sent => after == before,
                TransmitOutcome::OtherError => after == (BoardModel {
                    can_tx_error_count: count as u32,
                    ..before
                }),
                TransmitOutcome::FrameRejected => after.can_tx_error_count == count
                    && operator_dropped(after) && after.fault_flags == before.fault_flags
                    | CAN_TX_FRAME_CREATE_FAILED,
                TransmitOutcome::TimedOut => after.can_tx_error_count == count && operator_dropped(
                    after,
                ) && after.fault_flags == before.fault_flags | CAN_TX_TIMEOUT,
                TransmitOutcome::BusOff => after.can_tx_error_count == count && operator_dropped(
                    after,
                ) && after.fault_flags == before.fault_flags | CAN_BUS_OFF && after.can_health == 3,
            }
        }),
{
    let noted = BoardModel {
        can_tx_error_count: link::counted(l.board.can_tx_error_count),
        ..l.board
    };
    lemma_inhibited(noted);
    lemma_inhibited(BoardModel { can_health: 3, ..noted });
}

/// A probe leaves the same trace on the board, and if it fails at all the operator is dropped.
pub proof fn law_failed_probes_are_recorded(
    l: LinkModel,
    outcome: TransmitOutcome,
    counters: CanErrorCounters,
)
    requires
        l.tx() == CanTxRuntimeState::ProbePending,
    ensures
        ({
            let probed = manager::after_outcome(l, outcome, counters).board;
            let usual = manager::after_outcome(
                l.with_tx(CanTxRuntimeState::Normal),
                outcome,
                counters,
            ).board;
            &&& probed.fault_flags == usual.fault_flags
            &&& probed.can_tx_error_count == usual.can_tx_error_count
            &&& probed.can_health == usual.can_health
            &&& outcome == TransmitOutcome::Sent ==> probed == l.board
        }),
{
}

/// What an error while receiving does to the board: it is counted; a bus-off and an overrun drop the
/// operator and latch the bus-off or the lost control panel.
pub proof fn law_receive_errors_are_recorded(b: BoardModel, error: CanRxError)
    ensures
        ({
            let after = link::after_rx_error(b, error);
            &&& after.can_rx_error_count == (b.can_rx_error_count + 1) % 0x1_0000_0000
            &&& match error {
                CanRxError::Other => after == (BoardModel {
                    can_rx_error_count: after.can_rx_error_count,
                    ..b
                }),
                CanRxError::Overrun => operator_dropped(after) && after.fault_flags == b.fault_flags
                    | CAN_PEER_LOST && after.can_health == b.can_health,
                CanRxError::BusOff => operator_dropped(after) && after.fault_flags == b.fault_flags
                    | CAN_BUS_OFF && after.can_health == 3,
            }
        }),
{
    let noted = BoardModel { can_rx_error_count: link::counted(b.can_rx_error_count), ..b };
    lemma_inhibited(noted);
    lemma_inhibited(BoardModel { can_health: 3, ..noted });
}

/// The controller is restarted on a timeout or a bus-off that no restart was tried for yet; after one
/// that was tried the manager pauses, and otherwise it goes on. A restart is remembered until frames
/// are sent as usual on a live bus.
pub proof fn law_restarts(
    l: LinkModel,
    outcome: TransmitOutcome,
    counters: CanErrorCounters,
    now: u64,
)
    ensures
        ({
            let fails = l.tx() != CanTxRuntimeState::SuspendedAfterTimeout && (outcome
                == TransmitOutcome::TimedOut || outcome == TransmitOutcome::BusOff);
            let remembered = l.manager.restart_attempted;
            let next = |wanted: bool|
                if !wanted {
                    FollowUp::Continue
                } else if remembered {
                    FollowUp::Pause
                } else {
                    FollowUp::Restart
                };
            &&& manager::follow_up(l, manager::outcome_restarts(l, outcome)) == next(fails)
            &&& manager::follow_up(l, counters.bus_off) == next(counters.bus_off)
            &&& counters.bus_off ==> manager::tx_tick_step(l, counters, now) == TxStepModel::Done(
                next(true),
            )
            &&& manager::after_outcome(l, outcome, counters).manager.restart_attempted <==> (
            remembered || fails)
            &&& manager::after_bus_check(
                manager::after_liveness(l, now),
                counters,
            ).manager.restart_attempted <==> (remembered || counters.bus_off)
            &&& manager::after_begin(l).manager.restart_attempted <==> remembered && (
            l.board.can_health == 3 || l.tx() != CanTxRuntimeState::Normal)
            &&& manager::after_begin(l).board == l.board && manager::after_begin(l).tx() == l.tx()
        }),
{
}

/// The two's complement of two bytes, low byte first.
pub open spec fn signed_value(low: u8, high: u8) -> int {
    let value = low + 256 * high;
    if value >= 0x8000 {
        value - 0x1_0000
    } else {
        value
    }
}

/// What a frame of the board says, by the slot that it belongs to: the outputs, the inputs, the angle
/// of the main valve, the phase and the faults, or the latest sample. The angle is that of the
/// servo's position, on the side of the centre that the position is on.
pub open spec fn frame_tells(frame: FrameModel, slot: int, b: BoardModel, logger_id: u16) -> bool {
    let data = frame.data;
    if slot == 0 {
        frame.id == 0x103 && data == seq![b.output_status]
    } else if slot == 1 {
        frame.id == 0x104 && data == seq![b.input_gpio_status]
    } else if slot == 2 {
        let angle = signed_value(data[0], data[1]);
        let steps = b.current_position - 7500;
        &&& frame.id == 0x101 && data.len() == 2
        &&& steps >= 0 ==> 0 <= 80 * angle <= 27 * steps < 80 * angle + 80
        &&& steps <= 0 ==> 80 * angle - 80 < 27 * steps <= 80 * angle <= 0
    } else if slot == 3 {
        frame.id == 0x105 && data == seq![
            if b.sequence_phase <= 3 {
                b.sequence_phase
            } else {
                0
            },
            b.fault_flags,
        ]
    } else {
        &&& b.latest_log_data matches Some(sample)
        &&& frame.id == logger_id && data.len() == 8
        &&& data[0] + 256 * data[1] == sample.adc0
        &&& data[2] + 256 * data[3] == sample.adc2
        &&& data[4] + 256 * data[5] == sample.adc3
        &&& data[6] + 256 * data[7] == sample.counter
    }
}

/// On a live bus, a transmit tick in ordinary operation sends what the status slot tells of the
/// board; a pending probe sends the phase and the faults. Only a slot for a sample that has not come
/// yet, or that has no identifier to go under, sends nothing.
pub proof fn law_status_frames(l: LinkModel, counters: CanErrorCounters, now: u64)
    requires
        l.manager.wf(),
        !counters.bus_off,
        l.tx() != CanTxRuntimeState::SuspendedAfterTimeout,
    ensures
        ({
            let slot = if l.tx() == CanTxRuntimeState::ProbePending {
                3
            } else {
                l.manager.status_slot as int
            };
            let after = manager::after_tx_tick(l, counters, now);
            let step = manager::tx_tick_step(l, counters, now);
            &&& step is Transmit <==> slot < 4 || (l.board.latest_log_data is Some
                && l.manager.logger_data_id <= 0x7ff)
            &&& step matches TxStepModel::Transmit(frame) ==> after.manager == l.manager
                && frame_tells(frame, slot, after.board, l.manager.logger_data_id)
        }),
{
    let checked = manager::after_bus_check(manager::after_liveness(l, now), counters);
    lemma_bus_check_agrees(manager::after_liveness(l, now), counters);
    let angle_x10 = angle::angle_of(checked.board.current_position) as i16;
    angle::law_angle_lies_at_its_position(checked.board.current_position);
    protocol::law_messages_carry_their_values(
        GseCanMessage::MainValveAngleToCtrlPanel { angle_x10 },
    );
    if let Some(sample) = checked.board.latest_log_data {
        tx::law_logger_frame_carries_its_sample(sample);
    }
}

/// With the servo where an angle within its range puts it, the angle that the control panel is told
/// is that angle up to a tenth of a degree, sign included.
pub proof fn law_panel_is_told_the_angle(
    l: LinkModel,
    counters: CanErrorCounters,
    now: u64,
    angle_x10: i16,
)
    requires
        l.manager.status_slot == 2,
        l.tx() == CanTxRuntimeState::Normal,
        !counters.bus_off,
        -1350 <= angle_x10 <= 1350,
        l.board.current_position == angle::position_of(angle_x10),
    ensures
        manager::tx_tick_step(l, counters, now) matches TxStepModel::Transmit(frame) && {
            &&& frame.id == 0x101
            &&& angle_x10 - 1 <= signed_value(frame.data[0], frame.data[1]) <= angle_x10
            &&& protocol::decoded(frame.id, frame.data) matches Ok(message)
            &&& message matches GseCanMessage::MainValveAngleToCtrlPanel { angle_x10: told }
            &&& angle_x10 - 1 <= told <= angle_x10
        },
{
    law_status_frames(l, counters, now);
    lemma_bus_check_agrees(manager::after_liveness(l, now), counters);
    angle::law_angle_is_read_back(angle_x10);
    angle::law_angle_lies_at_its_position(l.board.current_position);
    let told = angle::angle_of(l.board.current_position) as i16;
    let message = GseCanMessage::MainValveAngleToCtrlPanel { angle_x10: told };
    protocol::law_messages_carry_their_values(message);
    protocol::law_decode_undoes_encode(message);
}

/// Only a frame that went out, or an empty slot, makes way for the next slot; a probe leaves the slot
/// for the first frame after it.
pub proof fn law_slot_moves_on(
    l: LinkModel,
    outcome: TransmitOutcome,
    counters: CanErrorCounters,
    now: u64,
)
    requires
        l.manager.wf(),
    ensures
        manager::after_outcome(l, outcome, counters).manager.status_slot == if l.tx()
            == CanTxRuntimeState::Normal && outcome == TransmitOutcome::Sent {
            (l.manager.status_slot + 1) % 5
        } else {
            l.manager.status_slot as int
        },
        manager::after_tx_tick(l, counters, now).manager.status_slot == if l.tx()
            == CanTxRuntimeState::Normal && !counters.bus_off && l.manager.status_slot == 4
            && l.board.latest_log_data is None {
            0
        } else {
            l.manager.status_slot as int
        },
{
    lemma_bus_check_agrees(manager::after_liveness(l, now), counters);
}

/// A manager begins with the first slot of ordinary sending, with the control panel unheard, no
/// acknowledgement seen and no restart tried.
pub proof fn law_manager_begins(start: u64, logger_data_id: u16)
    ensures
        ({
            let begun = manager::initial_manager(start, logger_data_id);
            &&& begun.wf() && begun.status_slot == 0
            &&& begun.tx_runtime_state == CanTxRuntimeState::Normal
            &&& begun.start == start && begun.last_peer_rx is None
            &&& !begun.restart_attempted && !begun.reset_ack_prev
            &&& begun.logger_data_id == logger_data_id
        }),
{
}

/// Dropping the operator touches no other input, and wakes the supervisor exactly if it changes the
/// input.
pub proof fn law_dropping_touches_nothing_else(b: BoardModel)
    ensures
        ({
            let after = link::after_inhibit(b);
            let operator = INPUT_CAN_LINK_ACTIVE | INPUT_COMMAND_MASK;
            &&& after.input_flags & !operator == b.input_flags & !operator
            &&& after.control_update == if after.input_flags == b.input_flags {
                b.control_update
            } else {
                seq![()]
            }
            &&& after == (BoardModel {
                input_flags: after.input_flags,
                can_comm_active: false,
                control_update: after.control_update,
                ..b
            })
        }),
{
    bits::lemma_assert_and_release(b.input_flags, INPUT_CAN_LINK_ACTIVE | INPUT_COMMAND_MASK);
}

/// A sample that has no identifier to go under is a frame that cannot be made: it is counted, drops
/// the operator and is latched as a fault, and its slot is kept.
pub proof fn law_sample_without_identifier(l: LinkModel, counters: CanErrorCounters, now: u64)
    requires
        l.tx() == CanTxRuntimeState::Normal,
        !counters.bus_off,
        l.manager.status_slot == 4,
        l.board.latest_log_data is Some,
        l.manager.logger_data_id > 0x7ff,
        !unheard_for_three_seconds(l, now),
    ensures
        ({
            let after = manager::after_tx_tick(l, counters, now);
            &&& manager::tx_tick_step(l, counters, now) == TxStepModel::Done(FollowUp::Continue)
            &&& operator_dropped(after.board)
            &&& after.board.fault_flags == l.board.fault_flags | CAN_TX_FRAME_CREATE_FAILED
            &&& after.board.can_tx_error_count == (l.board.can_tx_error_count + 1) % 0x1_0000_0000
            &&& after.manager == l.manager
        }),
{
    let checked = manager::after_bus_check(l, counters).board;
    lemma_inhibited(
        BoardModel { can_tx_error_count: link::counted(checked.can_tx_error_count), ..checked },
    );
}

} // verus!
