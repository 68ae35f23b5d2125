//! Control logic of a ground-support-equipment board: the firing sequence and its interlocks, the
//! CAN link to the control panel, the main-valve servo and the status outputs.
//!
//! Everything here decides and computes on plain values. Reading pins and clocks, driving the
//! buses and waiting is left to the firmware around this library.
pub mod angle;
mod bits;
pub mod board;
pub mod can;
pub mod can_fire;
pub mod control;
pub mod krs_servo;
pub mod servo_control;
pub mod servo_test;
pub mod signal;
pub mod tasks;
pub mod time;

pub use angle::{angle_x10_to_position, position_to_angle_x10};
pub use board::{
    clear_fault_flags_for_reset, clear_fault_flags_on_recovery, replace_operator_input_flags,
    replace_operator_input_flags_and_set_can_link_active, sequence_phase, set_fault_flags,
    set_sequence_phase, signal_reset_ack_event, update_input_flag, BoardState,
};
pub use can::health::CanHealth;
pub use can::protocol::{
    CAN_ID_BUTTON_FROM_CTRL_PANEL, CAN_ID_INPUT_GPIO_STATUS, CAN_ID_INTERNAL_STATUS,
    CAN_ID_MAIN_VALVE_ANGLE_TO_CTRL_PANEL, CAN_ID_OUTPUT_GPIO_STATUS,
};
pub use control::{resolve_control, ControlDecision, ControlIntent, SequencePhase, ServoAction};

use vstd::prelude::*;

verus! {

pub const COMMUNICATION_TIMEOUT_MS: u64 = 3000;

pub const CAN_STATUS_TX_INTERVAL_MS: u64 = 50;

pub const CAN_TX_TIMEOUT_MS: u64 = 10;

pub const SUPERVISOR_INTERVAL_MS: u64 = 10;

// Sequence timing.
pub const IGNITION_WAIT_MS: u64 = 10000;

pub const MAIN_VALVE_OPEN_DELAY_MS: u64 = 3200;

pub const O2_OFF_DELAY_AFTER_VALVE_OPEN_MS: u64 = 2000;

pub const IGNITION_SEQUENCE_TIMEOUT_MS: u64 = 10000;

pub const RUNNING_DURATION_MS: u64 = IGNITION_SEQUENCE_TIMEOUT_MS;

pub const FIRING_TOTAL_TIMEOUT_MS: u64 = IGNITION_WAIT_MS + MAIN_VALVE_OPEN_DELAY_MS
    + RUNNING_DURATION_MS;

// Valve and servo positions.
pub const MAIN_VALVE_OPEN_ANGLE_X10: i16 = -348;

pub const MAIN_VALVE_CLOSED_ANGLE_X10: i16 = 552;

pub const SERVO_MIN_POS: u16 = 3500;

pub const SERVO_CENTER_POS: u16 = 7500;

pub const SERVO_MAX_POS: u16 = 11500;

pub const SERVO_POLL_INTERVAL_MS: u64 = 200;

pub const SERVO_GET_POS_INTERVAL_MS: u64 = 200;

pub const SERVO_COMM_ERROR_LIMIT: u8 = 10;

pub const FIRING_OPEN_SEND_MAX: u8 = 10;

pub const OPEN_LATCH_RELEASE_DELAY_MS: u64 = 10000;

// Fault flags. CAN faults are latched until an explicit reset; the servo communication fault
// clears automatically after a successful servo transaction.
pub const CAN_PEER_LOST: u8 = 0x01;

pub const CAN_BUS_OFF: u8 = 0x02;

pub const SERVO_COMM_ERROR: u8 = 0x04;

// Reserved for an abnormal ignition watchdog fault; a normal end of firing is a timeout.
pub const IGNITION_TIMEOUT: u8 = 0x10;

pub const POWER_ERROR: u8 = 0x20;

pub const CAN_TX_TIMEOUT: u8 = 0x40;

pub const CAN_TX_FRAME_CREATE_FAILED: u8 = 0x80;

pub const CAN_FAULTS: u8 = CAN_PEER_LOST | CAN_BUS_OFF | CAN_TX_TIMEOUT
    | CAN_TX_FRAME_CREATE_FAILED;

pub const RECOVERABLE_CAN_FAULTS: u8 = CAN_PEER_LOST;

pub const SERVO_FAULTS: u8 = SERVO_COMM_ERROR;

pub const HARD_OUTPUT_INHIBIT_FAULTS: u8 = IGNITION_TIMEOUT | POWER_ERROR
    | CAN_TX_FRAME_CREATE_FAILED;

// Input conditions and operator requests.
pub const INPUT_CAN_LINK_ACTIVE: u32 = 0x0002;

pub const INPUT_FIRE_REQUEST: u32 = 0x0100;

pub const INPUT_DUMP_REQUEST: u32 = 0x0200;

pub const INPUT_FILL_REQUEST: u32 = 0x0400;

pub const INPUT_SEPARATE_REQUEST: u32 = 0x0800;

pub const INPUT_VALVE_SET_REQUEST: u32 = 0x1000;

pub const INPUT_O2_TEST_REQUEST: u32 = 0x2000;

pub const INPUT_VALVE_OPEN_REQUEST: u32 = 0x4000;

pub const INPUT_RESET_ACK_REQUEST: u32 = 0x8000;

pub const INPUT_OPERATOR_ACTION_MASK: u32 = INPUT_FIRE_REQUEST | INPUT_DUMP_REQUEST
    | INPUT_FILL_REQUEST | INPUT_SEPARATE_REQUEST | INPUT_VALVE_SET_REQUEST | INPUT_O2_TEST_REQUEST
    | INPUT_VALVE_OPEN_REQUEST;

pub const INPUT_COMMAND_MASK: u32 = INPUT_OPERATOR_ACTION_MASK | INPUT_RESET_ACK_REQUEST;

// Bits of the output status message.
pub const OUT_DUMP: u8 = 0x01;

pub const OUT_FILL: u8 = 0x02;

pub const OUT_SEPARATE: u8 = 0x04;

pub const OUT_O2: u8 = 0x08;

pub const OUT_IGNITER: u8 = 0x10;

pub const OUT_SPARE_SOLENOID: u8 = 0x20;

// Bits of the input status message.
pub const IN_SOLENOID_POWER_PRESENT: u8 = 0x01;

pub const IN_RELAY_12V_ON: u8 = 0x02;

pub const IN_IGNITER_POWER_PRESENT: u8 = 0x04;

pub const IN_RELAY_24V_ON: u8 = 0x08;

pub const SERVO_MODE_HOLD: u8 = 0;

pub const SERVO_MODE_COMMAND: u8 = 1;

} // verus!
