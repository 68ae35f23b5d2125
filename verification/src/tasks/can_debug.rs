//! What the debug log tells of the CAN link and of the servo commands.
use vstd::prelude::*;

use crate::board::{BoardModel, BoardState};

verus! {

pub const CAN_DEBUG_LOG_INTERVAL_MS: u64 = 1000;

/// An entry of the debug log.
#[derive(Clone, Copy, Debug, PartialEq, Eq, Structural)]
pub struct CanDebugStatus {
    pub can_comm_active: bool,
    pub can_health: u8,
    pub can_tec: u8,
    pub can_rec: u8,
    pub fault_flags: u8,
    pub can_tx_error_count: u32,
    pub can_rx_error_count: u32,
    pub open_latched: bool,
    pub open_send_count: u8,
    pub open_release_pending: bool,
    pub servo_mode: u8,
    pub servo_target_x10: i16,
}

pub open spec fn debug_status(b: BoardModel) -> CanDebugStatus {
    CanDebugStatus {
        can_comm_active: b.can_comm_active,
        can_health: b.can_health,
        can_tec: b.can_tec,
        can_rec: b.can_rec,
        fault_flags: b.fault_flags,
        can_tx_error_count: b.can_tx_error_count,
        can_rx_error_count: b.can_rx_error_count,
        open_latched: b.firing_open_latched,
        open_send_count: b.firing_open_send_count,
        open_release_pending: b.open_latch_release_pending,
        servo_mode: b.servo_control_mode,
        servo_target_x10: b.servo_target_angle_x10,
    }
}

impl CanDebugStatus {
    pub fn load(board: &BoardState) -> (status: Self)
        ensures
            status == debug_status(board@),
    {
        Self {
            can_comm_active: board.can_comm_active,
            can_health: board.can_health,
            can_tec: board.can_tec,
            can_rec: board.can_rec,
            fault_flags: board.fault_flags,
            can_tx_error_count: board.can_tx_error_count,
            can_rx_error_count: board.can_rx_error_count,
            open_latched: board.firing_open_latched,
            open_send_count: board.firing_open_send_count,
            open_release_pending: board.open_latch_release_pending,
            servo_mode: board.servo_control_mode,
            servo_target_x10: board.servo_target_angle_x10,
        }
    }
}

/// Two boards with the same entry agree on the link, its error counts, the faults and the servo
/// commands.
pub proof fn law_debug_status_tells_boards_apart(a: BoardModel, b: BoardModel)
    requires
        debug_status(a) == debug_status(b),
    ensures
        a.can_comm_active == b.can_comm_active && a.can_health == b.can_health,
        a.can_tec == b.can_tec && a.can_rec == b.can_rec,
        a.fault_flags == b.fault_flags,
        a.can_tx_error_count == b.can_tx_error_count,
        a.can_rx_error_count == b.can_rx_error_count,
        a.firing_open_latched == b.firing_open_latched,
        a.firing_open_send_count == b.firing_open_send_count,
        a.open_latch_release_pending == b.open_latch_release_pending,
        a.servo_control_mode == b.servo_control_mode,
        a.servo_target_angle_x10 == b.servo_target_angle_x10,
{
}

} // verus!
