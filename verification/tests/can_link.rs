use critical_section as _;

use embassy_time::Duration;
use gse_integrated_board::can::protocol::GseCanMessage;
use gse_integrated_board::can::tx::{CanFrame, CanTxError, TransmitOutcome};
use gse_integrated_board::krs_servo::IcsError;
use gse_integrated_board::tasks::can_communication::{
    button_inputs, can_tx_allowed, handle_normal_tx_error, handle_probe_tx_error,
    handle_reset_ack_edge, internal_status_message, record_rx_error, record_tx_error,
    status_report, update_peer_liveness, CanErrorCounters, CanRxError, CanTxRuntimeState, FrameId,
    ReceivedFrame, StatusReport,
};
use gse_integrated_board::tasks::can_manager::{CanManager, FollowUp, TxStep};
use gse_integrated_board::tasks::espnow::LogData;
use gse_integrated_board::tasks::servo::{handle_servo_result, ServoOperation};
use gse_integrated_board::{
    BoardState, CanHealth, CAN_BUS_OFF, CAN_PEER_LOST, CAN_TX_FRAME_CREATE_FAILED, CAN_TX_TIMEOUT,
    INPUT_CAN_LINK_ACTIVE, INPUT_DUMP_REQUEST, INPUT_FILL_REQUEST, INPUT_FIRE_REQUEST,
    INPUT_O2_TEST_REQUEST, INPUT_RESET_ACK_REQUEST, INPUT_SEPARATE_REQUEST,
    INPUT_VALVE_OPEN_REQUEST, INPUT_VALVE_SET_REQUEST, POWER_ERROR, SERVO_COMM_ERROR,
};

const LOGGER_ID: u16 = 0x106;

const WELL: CanErrorCounters = CanErrorCounters {
    tec: 0,
    rec: 0,
    bus_off: false,
};

const OFF: CanErrorCounters = CanErrorCounters {
    tec: 0,
    rec: 0,
    bus_off: true,
};

fn ms(millis: u64) -> u64 {
    Duration::from_millis(millis).as_ticks()
}

fn buttons(raw: u8) -> ReceivedFrame {
    ReceivedFrame {
        id: FrameId::Standard(0x001),
        data: vec![raw],
    }
}

fn link() -> (CanManager, BoardState) {
    let mut board = BoardState::new();
    let manager = CanManager::new(&mut board, 0, LOGGER_ID, WELL);
    (manager, board)
}

fn sent(step: TxStep) -> CanFrame {
    match step {
        TxStep::Transmit(frame) => frame,
        TxStep::Done(next) => panic!("nothing to send, but {next:?}"),
    }
}

fn done(step: TxStep) -> FollowUp {
    match step {
        TxStep::Transmit(frame) => panic!("unexpected {frame:?}"),
        TxStep::Done(next) => next,
    }
}

#[test]
fn each_button_is_one_request() {
    let requests = [
        INPUT_DUMP_REQUEST,
        INPUT_FIRE_REQUEST,
        INPUT_FILL_REQUEST,
        INPUT_SEPARATE_REQUEST,
        INPUT_VALVE_SET_REQUEST,
        INPUT_O2_TEST_REQUEST,
        INPUT_VALVE_OPEN_REQUEST,
        INPUT_RESET_ACK_REQUEST,
    ];
    for raw in 0..=255u8 {
        let mut expected = 0;
        for (bit, request) in requests.iter().enumerate() {
            if raw >> bit & 1 == 1 {
                expected |= request;
            }
        }
        assert_eq!(button_inputs(raw), expected);
    }
}

#[test]
fn a_button_frame_becomes_the_input() {
    let (mut manager, mut board) = link();
    manager.on_receive(&mut board, &buttons(0x83), WELL, ms(5));
    assert_eq!(
        board.input_flags,
        INPUT_CAN_LINK_ACTIVE | INPUT_DUMP_REQUEST | INPUT_FIRE_REQUEST
    );
    assert!(board.can_comm_active);
    assert!(board.control_update_signal.inner.try_take().is_some());
    manager.on_receive(&mut board, &buttons(0), WELL, ms(6));
    assert_eq!(board.input_flags, INPUT_CAN_LINK_ACTIVE);
}

#[test]
fn other_frames_are_ignored() {
    let (mut manager, mut board) = link();
    let frames = [
        ReceivedFrame {
            id: FrameId::Extended(0x001),
            data: vec![2],
        },
        ReceivedFrame {
            id: FrameId::Standard(0x103),
            data: vec![2],
        },
        ReceivedFrame {
            id: FrameId::Standard(0x7ff),
            data: vec![],
        },
        ReceivedFrame {
            id: FrameId::Standard(0x105),
            data: vec![1],
        },
    ];
    for frame in &frames {
        manager.on_receive(&mut board, frame, WELL, ms(1));
    }
    assert_eq!(board.input_flags, 0);
    assert_eq!(board.can_rx_error_count, 0);
    let broken = ReceivedFrame {
        id: FrameId::Standard(0x001),
        data: vec![2, 2],
    };
    manager.on_receive(&mut board, &broken, WELL, ms(1));
    assert_eq!(board.input_flags, 0);
    assert_eq!(board.can_rx_error_count, 1);
}

#[test]
fn buttons_on_a_bus_that_is_off_are_not_trusted() {
    let (mut manager, mut board) = link();
    manager.on_receive(&mut board, &buttons(1), WELL, ms(1));
    manager.on_receive(&mut board, &buttons(1), OFF, ms(2));
    assert_eq!(board.input_flags, 0);
    assert!(!board.can_comm_active);
    assert_eq!(board.fault_flags, CAN_BUS_OFF);
    assert_eq!(board.can_health, CanHealth::BusOff.as_u8());
}

#[test]
fn a_silent_panel_is_lost_after_three_seconds() {
    let (mut manager, mut board) = link();
    manager.on_receive(&mut board, &buttons(1), WELL, ms(100));
    assert_eq!(
        manager.on_health_tick(&mut board, WELL, ms(3100) - 1),
        FollowUp::Continue
    );
    assert_eq!(board.fault_flags, 0);
    manager.on_health_tick(&mut board, WELL, ms(3100));
    assert_eq!(board.fault_flags, CAN_PEER_LOST);
    assert_eq!(board.input_flags, 0);
    assert!(!board.can_comm_active);

    manager.on_receive(&mut board, &buttons(0), WELL, ms(3200));
    manager.on_health_tick(&mut board, WELL, ms(3300));
    assert_eq!(board.fault_flags, CAN_PEER_LOST);
    assert_eq!(board.input_flags, INPUT_CAN_LINK_ACTIVE);
}

#[test]
fn before_the_first_frame_the_time_runs_from_the_start() {
    let mut board = BoardState::new();
    update_peer_liveness(&mut board, ms(10), None, ms(3010) - 1);
    assert_eq!(board.fault_flags, 0);
    update_peer_liveness(&mut board, ms(10), None, ms(3010));
    assert_eq!(board.fault_flags, CAN_PEER_LOST);
}

#[test]
fn an_acknowledgement_edge_clears_the_link_faults() {
    let (mut manager, mut board) = link();
    board.fault_flags = CAN_PEER_LOST | CAN_TX_TIMEOUT | CAN_BUS_OFF | SERVO_COMM_ERROR;
    manager.on_receive(&mut board, &buttons(0x81), WELL, ms(1));
    assert_eq!(board.reset_ack_event_counter, 0);
    manager.on_receive(&mut board, &buttons(0x80), WELL, ms(2));
    assert_eq!(board.reset_ack_event_counter, 0);
    manager.on_receive(&mut board, &buttons(0x00), WELL, ms(3));
    manager.on_receive(&mut board, &buttons(0x80), WELL, ms(4));
    assert_eq!(board.reset_ack_event_counter, 1);
    assert_eq!(board.fault_flags, SERVO_COMM_ERROR);
    assert_eq!(board.input_flags, INPUT_CAN_LINK_ACTIVE);
    manager.on_receive(&mut board, &buttons(0x80), WELL, ms(5));
    assert_eq!(board.reset_ack_event_counter, 1);
}

#[test]
fn what_an_acknowledgement_clears_depends_on_the_link() {
    let all = CAN_PEER_LOST | CAN_TX_TIMEOUT | CAN_BUS_OFF | CAN_TX_FRAME_CREATE_FAILED;
    let mut board = BoardState::new();
    board.fault_flags = all;
    board.can_health = CanHealth::Warning.as_u8();
    handle_reset_ack_edge(&mut board, CanTxRuntimeState::ProbePending);
    assert_eq!(board.fault_flags, all & !CAN_PEER_LOST);

    board.fault_flags = all;
    board.can_health = CanHealth::Active.as_u8();
    handle_reset_ack_edge(&mut board, CanTxRuntimeState::Normal);
    assert_eq!(board.fault_flags, CAN_TX_FRAME_CREATE_FAILED);

    board.fault_flags = all;
    board.can_health = CanHealth::BusOff.as_u8();
    let before = board.reset_ack_event_counter;
    handle_reset_ack_edge(&mut board, CanTxRuntimeState::Normal);
    assert_eq!(board.fault_flags, all);
    assert_eq!(board.reset_ack_event_counter, before);
}

#[test]
fn status_slots_report_in_turn() {
    let (mut manager, mut board) = link();
    board.output_status = 0x1f;
    board.input_gpio_status = 0x0a;
    board.current_position = 7800;
    board.fault_flags = POWER_ERROR;
    board.sequence_phase = 2;
    board.latest_log_data = Some(LogData {
        start_time: 0,
        adc0: 1,
        adc2: 2,
        adc3: 3,
        counter: 4,
    });
    let expected = [
        (0x103, vec![0x1f]),
        (0x104, vec![0x0a]),
        (0x101, vec![101, 0]),
        (0x105, vec![2, POWER_ERROR]),
        (LOGGER_ID, vec![1, 0, 2, 0, 3, 0, 4, 0]),
        (0x103, vec![0x1f]),
    ];
    for (id, data) in expected {
        let frame = sent(manager.on_tx_tick(&mut board, WELL, ms(1)));
        assert_eq!(frame, CanFrame { id, data });
        assert_eq!(
            manager.on_tx_outcome(&mut board, TransmitOutcome::Sent, WELL),
            FollowUp::Continue
        );
    }
}

#[test]
fn the_logger_slot_is_passed_over_without_a_sample() {
    let (mut manager, mut board) = link();
    for _ in 0..4 {
        sent(manager.on_tx_tick(&mut board, WELL, ms(1)));
        manager.on_tx_outcome(&mut board, TransmitOutcome::Sent, WELL);
    }
    assert_eq!(status_report(&board, 4), StatusReport::Nothing);
    assert_eq!(
        done(manager.on_tx_tick(&mut board, WELL, ms(1))),
        FollowUp::Continue
    );
    assert_eq!(sent(manager.on_tx_tick(&mut board, WELL, ms(1))).id, 0x103);
}

#[test]
fn the_internal_status_holds_phase_and_faults() {
    let mut board = BoardState::new();
    assert_eq!(
        internal_status_message(&board),
        GseCanMessage::InternalStatus { phase: 0, flags: 0 }
    );
    board.fault_flags = CAN_PEER_LOST;
    board.sequence_phase = 3;
    assert_eq!(
        internal_status_message(&board),
        GseCanMessage::InternalStatus {
            phase: 3,
            flags: CAN_PEER_LOST,
        }
    );
}

#[test]
fn the_servo_fault_is_reported_from_the_tenth_failure_to_the_next_success() {
    let mut board = BoardState::new();
    let flags_of = |board: &BoardState| match internal_status_message(board) {
        GseCanMessage::InternalStatus { flags, .. } => flags,
        other => panic!("unexpected {other:?}"),
    };
    for count in 1..=12 {
        handle_servo_result(
            &mut board,
            ServoOperation::GetPosition,
            Err(IcsError::TimeoutError),
            ms(count),
        );
        let expected = if count < 10 { 0 } else { SERVO_COMM_ERROR };
        assert_eq!(flags_of(&board), expected, "{count}");
    }
    handle_servo_result(&mut board, ServoOperation::GetPosition, Ok(7500), ms(13));
    assert_eq!(flags_of(&board), 0);
}

#[test]
fn a_passing_failure_sends_the_same_frame_again() {
    let (mut manager, mut board) = link();
    let first = sent(manager.on_tx_tick(&mut board, WELL, ms(1)));
    assert_eq!(
        manager.on_tx_outcome(&mut board, TransmitOutcome::OtherError, WELL),
        FollowUp::Continue
    );
    assert_eq!(board.can_tx_error_count, 1);
    assert_eq!(board.fault_flags, 0);
    assert_eq!(sent(manager.on_tx_tick(&mut board, WELL, ms(2))), first);
}

#[test]
fn after_a_timeout_only_panel_and_probe_resume_sending() {
    let (mut manager, mut board) = link();
    manager.on_receive(&mut board, &buttons(1), WELL, ms(1));
    sent(manager.on_tx_tick(&mut board, WELL, ms(2)));
    assert_eq!(
        manager.on_tx_outcome(&mut board, TransmitOutcome::TimedOut, WELL),
        FollowUp::Restart
    );
    assert_eq!(board.fault_flags, CAN_TX_TIMEOUT);
    assert_eq!(board.input_flags, 0);
    manager.begin(&board);
    assert_eq!(
        done(manager.on_tx_tick(&mut board, WELL, ms(3))),
        FollowUp::Continue
    );

    manager.on_receive(&mut board, &buttons(0), WELL, ms(4));
    let probe = sent(manager.on_tx_tick(&mut board, WELL, ms(5)));
    assert_eq!(
        probe,
        CanFrame {
            id: 0x105,
            data: vec![0, CAN_TX_TIMEOUT],
        }
    );
    assert_eq!(
        manager.on_tx_outcome(&mut board, TransmitOutcome::OtherError, WELL),
        FollowUp::Continue
    );
    assert_eq!(board.input_flags, 0);
    assert_eq!(
        done(manager.on_tx_tick(&mut board, WELL, ms(6))),
        FollowUp::Continue
    );

    manager.on_receive(&mut board, &buttons(0), WELL, ms(7));
    sent(manager.on_tx_tick(&mut board, WELL, ms(8)));
    manager.on_tx_outcome(&mut board, TransmitOutcome::Sent, WELL);
    assert_eq!(sent(manager.on_tx_tick(&mut board, WELL, ms(9))).id, 0x103);
}

#[test]
fn the_controller_is_restarted_once_until_the_link_works() {
    let (mut manager, mut board) = link();
    manager.begin(&board);
    assert_eq!(
        manager.on_health_tick(&mut board, OFF, ms(1)),
        FollowUp::Restart
    );
    manager.begin(&board);
    assert_eq!(
        done(manager.on_tx_tick(&mut board, OFF, ms(2))),
        FollowUp::Pause
    );
    manager.begin(&board);
    assert!(!record_rx_error(&mut board, CanRxError::BusOff));
    assert_eq!(
        manager.after_receive_error(&mut board, OFF),
        FollowUp::Pause
    );

    manager.begin(&board);
    manager.on_receive(&mut board, &buttons(0), WELL, ms(4));
    manager.begin(&board);
    sent(manager.on_tx_tick(&mut board, WELL, ms(5)));
    manager.on_tx_outcome(&mut board, TransmitOutcome::Sent, WELL);
    manager.begin(&board);
    assert_eq!(
        manager.on_health_tick(&mut board, OFF, ms(6)),
        FollowUp::Restart
    );
}

#[test]
fn a_frame_that_cannot_be_made_is_a_fault() {
    let mut board = BoardState::new();
    let mut manager = CanManager::new(&mut board, 0, 0x800, WELL);
    board.latest_log_data = Some(LogData {
        start_time: 0,
        adc0: 0,
        adc2: 0,
        adc3: 0,
        counter: 1,
    });
    for _ in 0..4 {
        sent(manager.on_tx_tick(&mut board, WELL, ms(1)));
        manager.on_tx_outcome(&mut board, TransmitOutcome::Sent, WELL);
    }
    assert_eq!(
        done(manager.on_tx_tick(&mut board, WELL, ms(1))),
        FollowUp::Continue
    );
    assert_eq!(board.fault_flags, CAN_TX_FRAME_CREATE_FAILED);
    assert_eq!(board.can_tx_error_count, 1);
}

#[test]
fn receive_errors_are_told_apart() {
    let mut board = BoardState::new();
    board.input_flags = INPUT_CAN_LINK_ACTIVE | INPUT_FIRE_REQUEST;
    assert!(!record_rx_error(&mut board, CanRxError::Other));
    assert_eq!(board.fault_flags, 0);
    assert_eq!(board.can_rx_error_count, 1);
    assert!(record_rx_error(&mut board, CanRxError::Overrun));
    assert_eq!(board.fault_flags, CAN_PEER_LOST);
    assert_eq!(board.input_flags, 0);
    assert!(!record_rx_error(&mut board, CanRxError::BusOff));
    assert_eq!(board.fault_flags, CAN_PEER_LOST | CAN_BUS_OFF);
    assert_eq!(board.can_health, 3);
    board.can_rx_error_count = u32::MAX;
    record_rx_error(&mut board, CanRxError::Other);
    assert_eq!(board.can_rx_error_count, 0);
}

#[test]
fn transmit_errors_are_told_apart() {
    let mut board = BoardState::new();
    record_tx_error(&mut board, CanTxError::TxInhibited, WELL);
    assert_eq!(board.can_tx_error_count, 0);
    record_tx_error(&mut board, CanTxError::TransmitFailed, WELL);
    assert_eq!((board.can_tx_error_count, board.fault_flags), (1, 0));
    record_tx_error(&mut board, CanTxError::FrameCreateFailed, WELL);
    assert_eq!(board.fault_flags, CAN_TX_FRAME_CREATE_FAILED);
    board.fault_flags = 0;
    let passive = CanErrorCounters {
        tec: 128,
        rec: 3,
        bus_off: false,
    };
    record_tx_error(&mut board, CanTxError::TimedOutUnknownState, passive);
    assert_eq!(board.fault_flags, CAN_TX_TIMEOUT);
    assert_eq!((board.can_tec, board.can_rec, board.can_health), (128, 3, 2));
    record_tx_error(&mut board, CanTxError::BusOff, WELL);
    assert_eq!(board.fault_flags, CAN_TX_TIMEOUT | CAN_BUS_OFF);
    assert_eq!(board.can_health, 3);
    assert_eq!(board.can_tx_error_count, 4);
}

#[test]
fn failed_attempts_change_the_state_of_sending() {
    let mut state = CanTxRuntimeState::Normal;
    assert!(!handle_normal_tx_error(
        CanTxError::TransmitFailed,
        &mut state
    ));
    assert_eq!(state, CanTxRuntimeState::Normal);
    assert!(handle_normal_tx_error(CanTxError::BusOff, &mut state));
    assert_eq!(state, CanTxRuntimeState::SuspendedAfterTimeout);

    let mut board = BoardState::new();
    state = CanTxRuntimeState::ProbePending;
    assert!(!handle_probe_tx_error(
        &mut board,
        CanTxError::FrameCreateFailed,
        &mut state
    ));
    assert_eq!(state, CanTxRuntimeState::SuspendedAfterTimeout);
    assert!(handle_probe_tx_error(
        &mut board,
        CanTxError::TimedOutUnknownState,
        &mut state
    ));
}

#[test]
fn sending_is_allowed_by_state_and_health() {
    let mut board = BoardState::new();
    assert!(can_tx_allowed(&board, CanTxRuntimeState::Normal, false));
    assert!(!can_tx_allowed(&board, CanTxRuntimeState::Normal, true));
    assert!(can_tx_allowed(&board, CanTxRuntimeState::ProbePending, true));
    assert!(!can_tx_allowed(
        &board,
        CanTxRuntimeState::ProbePending,
        false
    ));
    assert!(!can_tx_allowed(
        &board,
        CanTxRuntimeState::SuspendedAfterTimeout,
        false
    ));
    board.can_health = CanHealth::BusOff.as_u8();
    assert!(!can_tx_allowed(&board, CanTxRuntimeState::Normal, false));
}
