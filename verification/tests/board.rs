use critical_section as _;

use gse_integrated_board::tasks::can_debug::{CanDebugStatus, CAN_DEBUG_LOG_INTERVAL_MS};
use gse_integrated_board::tasks::espnow::{latest_log_data, receive_packet, LogData};
use gse_integrated_board::tasks::status_led::{
    active_or_blink, level_name, servo_comm_active, CanLedStatus, LampLevels, Level, StatusLeds,
};
use gse_integrated_board::{
    clear_fault_flags_for_reset, clear_fault_flags_on_recovery, replace_operator_input_flags,
    replace_operator_input_flags_and_set_can_link_active, set_fault_flags, set_sequence_phase,
    signal_reset_ack_event, update_input_flag, BoardState, CanHealth, SequencePhase, CAN_BUS_OFF,
    CAN_FAULTS, CAN_PEER_LOST, CAN_TX_FRAME_CREATE_FAILED, CAN_TX_TIMEOUT,
    HARD_OUTPUT_INHIBIT_FAULTS, INPUT_CAN_LINK_ACTIVE, INPUT_COMMAND_MASK, INPUT_DUMP_REQUEST,
    INPUT_FIRE_REQUEST, INPUT_OPERATOR_ACTION_MASK, INPUT_RESET_ACK_REQUEST,
    MAIN_VALVE_CLOSED_ANGLE_X10, SERVO_CENTER_POS, SERVO_COMM_ERROR, SERVO_MODE_HOLD,
};

fn woken(board: &BoardState) -> bool {
    board.control_update_signal.inner.try_take().is_some()
}

#[test]
fn a_new_board_is_idle_and_silent() {
    let board = BoardState::new();
    assert_eq!(board.fault_flags, 0);
    assert_eq!(board.input_flags, 0);
    assert_eq!(board.current_position, SERVO_CENTER_POS);
    assert_eq!(board.servo_control_mode, SERVO_MODE_HOLD);
    assert_eq!(board.servo_target_angle_x10, MAIN_VALVE_CLOSED_ANGLE_X10);
    assert_eq!(board.latest_log_data, None);
    assert!(!woken(&board));
    assert_eq!(board.angle_command_signal.inner.try_take(), None);
}

#[test]
fn masks_hold_their_flags() {
    assert_eq!(CAN_FAULTS, 0xc3);
    assert_eq!(HARD_OUTPUT_INHIBIT_FAULTS, 0xb0);
    assert_eq!(INPUT_OPERATOR_ACTION_MASK, 0x7f00);
    assert_eq!(INPUT_COMMAND_MASK, 0xff00);
}

#[test]
fn only_new_faults_wake_the_supervisor() {
    let mut board = BoardState::new();
    set_fault_flags(&mut board, CAN_PEER_LOST);
    assert_eq!(board.fault_flags, CAN_PEER_LOST);
    assert!(woken(&board));
    set_fault_flags(&mut board, CAN_PEER_LOST);
    assert!(!woken(&board));
    set_fault_flags(&mut board, CAN_PEER_LOST | CAN_BUS_OFF);
    assert_eq!(board.fault_flags, CAN_PEER_LOST | CAN_BUS_OFF);
    assert!(woken(&board));
}

#[test]
fn a_reset_clears_and_always_wakes() {
    let mut board = BoardState::new();
    board.fault_flags = CAN_PEER_LOST | CAN_TX_TIMEOUT;
    clear_fault_flags_for_reset(&mut board, CAN_PEER_LOST);
    assert_eq!(board.fault_flags, CAN_TX_TIMEOUT);
    assert!(woken(&board));
    clear_fault_flags_for_reset(&mut board, CAN_PEER_LOST);
    assert!(woken(&board));
}

#[test]
fn a_recovery_wakes_only_if_it_clears() {
    let mut board = BoardState::new();
    board.fault_flags = SERVO_COMM_ERROR | CAN_TX_FRAME_CREATE_FAILED;
    clear_fault_flags_on_recovery(&mut board, SERVO_COMM_ERROR);
    assert_eq!(board.fault_flags, CAN_TX_FRAME_CREATE_FAILED);
    assert!(woken(&board));
    clear_fault_flags_on_recovery(&mut board, SERVO_COMM_ERROR);
    assert!(!woken(&board));
}

#[test]
fn input_flags_wake_on_change() {
    let mut board = BoardState::new();
    update_input_flag(&mut board, INPUT_CAN_LINK_ACTIVE, true);
    assert_eq!(board.input_flags, INPUT_CAN_LINK_ACTIVE);
    assert!(woken(&board));
    update_input_flag(&mut board, INPUT_CAN_LINK_ACTIVE, true);
    assert!(!woken(&board));
    update_input_flag(&mut board, INPUT_CAN_LINK_ACTIVE, false);
    assert_eq!(board.input_flags, 0);
    assert!(woken(&board));
}

#[test]
fn operator_requests_are_replaced_as_a_whole() {
    let mut board = BoardState::new();
    board.input_flags = INPUT_DUMP_REQUEST | INPUT_RESET_ACK_REQUEST | 0x1;
    replace_operator_input_flags(&mut board, INPUT_FIRE_REQUEST | INPUT_RESET_ACK_REQUEST);
    assert_eq!(board.input_flags, INPUT_FIRE_REQUEST | 0x1);
    assert!(woken(&board));
    replace_operator_input_flags(&mut board, INPUT_FIRE_REQUEST);
    assert!(!woken(&board));
    replace_operator_input_flags_and_set_can_link_active(&mut board, 0);
    assert_eq!(board.input_flags, INPUT_CAN_LINK_ACTIVE | 0x1);
    assert!(woken(&board));
}

#[test]
fn phases_and_acknowledgements_wake() {
    let mut board = BoardState::new();
    set_sequence_phase(&mut board, SequencePhase::Abort);
    assert_eq!(board.sequence_phase, 3);
    assert!(woken(&board));
    board.reset_ack_event_counter = 255;
    signal_reset_ack_event(&mut board);
    assert_eq!(board.reset_ack_event_counter, 0);
    assert!(woken(&board));
}

fn packet() -> [u8; 16] {
    [1, 2, 3, 4, 5, 6, 7, 8, 0x10, 0x20, 0x30, 0x40, 0x50, 0x60, 0xaa, 0xbb]
}

#[test]
fn packets_are_read_low_byte_first() {
    assert_eq!(
        LogData::parse(&packet()),
        Some(LogData {
            start_time: 0x0807_0605_0403_0201,
            adc0: 0x2010,
            adc2: 0x4030,
            adc3: 0x6050,
            counter: 0,
        })
    );
    assert_eq!(LogData::LEN, 16);
}

#[test]
fn packets_of_another_length_are_left_aside() {
    let mut board = BoardState::new();
    assert!(!receive_packet(&mut board, &packet()[..15]));
    assert!(!receive_packet(&mut board, &[0; 17]));
    assert!(!receive_packet(&mut board, &[]));
    assert_eq!(latest_log_data(&board), None);
}

#[test]
fn samples_are_counted() {
    let mut board = BoardState::new();
    assert!(receive_packet(&mut board, &packet()));
    assert_eq!(latest_log_data(&board).unwrap().counter, 1);
    assert!(!receive_packet(&mut board, &[0; 8]));
    let mut other = packet();
    other[8] = 0x11;
    assert!(receive_packet(&mut board, &other));
    assert_eq!(latest_log_data(&board).unwrap().counter, 2);
    assert_eq!(latest_log_data(&board).unwrap().adc0, 0x2011);
    board.latest_log_data = Some(LogData {
        counter: u16::MAX,
        ..latest_log_data(&board).unwrap()
    });
    assert!(receive_packet(&mut board, &packet()));
    assert_eq!(latest_log_data(&board).unwrap().counter, 0);
    assert_eq!(latest_log_data(&board).unwrap().adc3, 0x6050);
}

#[test]
fn lamps_are_steady_or_blink() {
    assert_eq!(active_or_blink(true, false), Level::High);
    assert_eq!(active_or_blink(false, true), Level::High);
    assert_eq!(active_or_blink(false, false), Level::Low);
    assert_eq!(level_name(Level::High), "High");
    assert_eq!(level_name(Level::Low), "Low");
}

#[test]
fn the_can_lamp_needs_a_link_that_is_well() {
    let mut board = BoardState::new();
    assert!(!CanLedStatus::load(&board).active);
    board.can_comm_active = true;
    assert!(CanLedStatus::load(&board).active);
    board.fault_flags = SERVO_COMM_ERROR;
    assert!(CanLedStatus::load(&board).active);
    board.fault_flags = CAN_TX_TIMEOUT;
    assert!(!CanLedStatus::load(&board).active);
    board.fault_flags = 0;
    board.can_health = CanHealth::Warning.as_u8();
    assert_eq!(
        CanLedStatus::load(&board),
        CanLedStatus {
            active: false,
            comm_active: true,
            health: 1,
            fault_flags: 0,
        }
    );
}

#[test]
fn lamps_alternate_from_tick_to_tick() {
    let mut board = BoardState::new();
    board.servo_comm_active = true;
    assert!(servo_comm_active(&board));
    let mut leds = StatusLeds::new();
    let on = LampLevels {
        servo: Level::High,
        can: Level::High,
    };
    let off = LampLevels {
        servo: Level::High,
        can: Level::Low,
    };
    assert_eq!(leds.tick(&board), on);
    assert_eq!(leds.tick(&board), off);
    assert_eq!(leds.tick(&board), on);
}

#[test]
fn the_debug_status_tells_of_link_and_servo() {
    assert_eq!(CAN_DEBUG_LOG_INTERVAL_MS, 1000);
    let mut board = BoardState::new();
    board.can_comm_active = true;
    board.can_health = 1;
    board.can_tec = 2;
    board.can_rec = 3;
    board.fault_flags = 4;
    board.can_tx_error_count = 5;
    board.can_rx_error_count = 6;
    board.firing_open_latched = true;
    board.firing_open_send_count = 7;
    board.open_latch_release_pending = true;
    board.servo_control_mode = 1;
    board.servo_target_angle_x10 = -348;
    assert_eq!(
        CanDebugStatus::load(&board),
        CanDebugStatus {
            can_comm_active: true,
            can_health: 1,
            can_tec: 2,
            can_rec: 3,
            fault_flags: 4,
            can_tx_error_count: 5,
            can_rx_error_count: 6,
            open_latched: true,
            open_send_count: 7,
            open_release_pending: true,
            servo_mode: 1,
            servo_target_x10: -348,
        }
    );
}
