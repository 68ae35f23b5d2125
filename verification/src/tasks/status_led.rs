//! The status lamps: steady while a link is well, blinking otherwise.
use vstd::prelude::*;

use crate::board::{BoardModel, BoardState};
use crate::can::health;
use crate::can::health::CanHealth;
use crate::CAN_FAULTS;

verus! {

pub const STATUS_LED_BLINK_INTERVAL_MS: u64 = 500;

#[derive(Clone, Copy, Debug, PartialEq, Eq, Structural)]
pub enum Level {
    Low,
    High,
}

pub open spec fn lamp_level(active: bool, blink_on: bool) -> Level {
    if active || blink_on {
        Level::High
    } else {
        Level::Low
    }
}

pub fn active_or_blink(active: bool, blink_on: bool) -> (level: Level)
    ensures
        level == lamp_level(active, blink_on),
{
    if active || blink_on {
        Level::High
    } else {
        Level::Low
    }
}

pub fn level_name(level: Level) -> (name: &'static str)
    ensures
        name@ == match level {
            Level::High => "High"@,
            Level::Low => "Low"@,
        },
{
    match level {
        Level::High => "High",
        Level::Low => "Low",
    }
}

pub fn servo_comm_active(board: &BoardState) -> (active: bool)
    ensures
        active == board@.servo_comm_active,
{
    board.servo_comm_active
}

/// What the CAN lamp shows, and why.
#[derive(Clone, Copy, Debug, PartialEq, Eq, Structural)]
pub struct CanLedStatus {
    pub active: bool,
    pub comm_active: bool,
    pub health: u8,
    pub fault_flags: u8,
}

/// The link is well: the control panel is heard, the controller is error active and no CAN fault
/// is latched.
pub open spec fn can_link_well(b: BoardModel) -> bool {
    &&& b.can_comm_active
    &&& b.can_health == health::byte_of_health(CanHealth::Active)
    &&& b.fault_flags & CAN_FAULTS == 0
}

impl CanLedStatus {
    pub fn load(board: &BoardState) -> (status: Self)
        ensures
            status == (CanLedStatus {
                active: can_link_well(board@),
                comm_active: board@.can_comm_active,
                health: board@.can_health,
                fault_flags: board@.fault_flags,
            }),
    {
        let comm_active = board.can_comm_active;
        let health: u8 = board.can_health;
        let fault_flags: u8 = board.fault_flags;
        let active = comm_active && health == CanHealth::Active.as_u8() && fault_flags & CAN_FAULTS
            == 0;
        Self { active, comm_active, health, fault_flags }
    }
}

/// The levels of the lamps.
#[derive(Clone, Copy, Debug, PartialEq, Eq, Structural)]
pub struct LampLevels {
    pub servo: Level,
    pub can: Level,
}

pub open spec fn levels_of(b: BoardModel, blink_on: bool) -> LampLevels {
    LampLevels {
        servo: lamp_level(b.servo_comm_active, blink_on),
        can: lamp_level(can_link_well(b), blink_on),
    }
}

/// Drives the lamps from one tick to the next.
pub struct StatusLeds {
    pub blink_on: bool,
}

impl StatusLeds {
    pub fn new() -> (leds: Self)
        ensures
            !leds.blink_on,
    {
        Self { blink_on: false }
    }

    /// The levels from this tick on.
    pub fn tick(&mut self, board: &BoardState) -> (levels: LampLevels)
        ensures
            final(self).blink_on == !old(self).blink_on,
            levels == levels_of(board@, !old(self).blink_on),
    {
        self.blink_on = !self.blink_on;
        LampLevels {
            servo: active_or_blink(servo_comm_active(board), self.blink_on),
            can: active_or_blink(CanLedStatus::load(board).active, self.blink_on),
        }
    }
}

/// A lamp is steady over two ticks exactly while what it shows is well.
pub proof fn law_lamp_is_steady_while_well(b: BoardModel, blink_on: bool)
    ensures
        levels_of(b, blink_on).servo == levels_of(b, !blink_on).servo <==> b.servo_comm_active,
        levels_of(b, blink_on).can == levels_of(b, !blink_on).can <==> can_link_well(b),
        b.servo_comm_active ==> levels_of(b, blink_on).servo == Level::High,
        can_link_well(b) ==> levels_of(b, blink_on).can == Level::High,
{
}

/// The servo lamp is dark only in the dark half of a blink while the servo is not heard; the CAN
/// lamp only in that half while the control panel is not heard, an error counter warns, or a CAN
/// fault is latched.
pub proof fn law_lamps_are_dark(b: BoardModel, blink_on: bool)
    ensures
        levels_of(b, blink_on).servo == Level::Low <==> !blink_on && !b.servo_comm_active,
        levels_of(b, blink_on).can == Level::Low <==> !blink_on && !(b.can_comm_active
            && b.can_health == 0 && b.fault_flags & CAN_FAULTS == 0),
{
}

} // verus!
