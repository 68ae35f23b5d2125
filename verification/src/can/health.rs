//! How well the CAN controller gets along with the bus.
use vstd::prelude::*;

verus! {

#[derive(Clone, Copy, Debug, PartialEq, Eq, Structural)]
pub enum CanHealth {
    Active,
    Warning,
    Passive,
    BusOff,
}

pub const CAN_ERROR_WARNING_THRESHOLD: u8 = 96;

pub const CAN_ERROR_PASSIVE_THRESHOLD: u8 = 128;

/// The byte under which a health is shared.
pub open spec fn byte_of_health(health: CanHealth) -> u8 {
    match health {
        CanHealth::Active => 0,
        CanHealth::Warning => 1,
        CanHealth::Passive => 2,
        CanHealth::BusOff => 3,
    }
}

impl CanHealth {
    pub fn as_u8(self) -> (raw: u8)
        ensures
            raw == byte_of_health(self),
    {
        match self {
            Self::Active => 0,
            Self::Warning => 1,
            Self::Passive => 2,
            Self::BusOff => 3,
        }
    }
}

/// The health that the error counters stand for; one counter over a threshold is enough.
pub open spec fn health_of(tec: u8, rec: u8, bus_off: bool) -> CanHealth {
    if bus_off {
        CanHealth::BusOff
    } else if tec >= CAN_ERROR_PASSIVE_THRESHOLD || rec >= CAN_ERROR_PASSIVE_THRESHOLD {
        CanHealth::Passive
    } else if tec >= CAN_ERROR_WARNING_THRESHOLD || rec >= CAN_ERROR_WARNING_THRESHOLD {
        CanHealth::Warning
    } else {
        CanHealth::Active
    }
}

/// Classifies the transmit and receive error counters.
pub fn classify_can_health(tec: u8, rec: u8, bus_off: bool) -> (health: CanHealth)
    ensures
        health == health_of(tec, rec, bus_off),
{
    if bus_off {
        CanHealth::BusOff
    } else {
        let count: u8 = if tec > rec {
            tec
        } else {
            rec
        };
        if count >= CAN_ERROR_PASSIVE_THRESHOLD {
            CanHealth::Passive
        } else if count >= CAN_ERROR_WARNING_THRESHOLD {
            CanHealth::Warning
        } else {
            CanHealth::Active
        }
    }
}

/// More errors never make the health better.
pub proof fn law_health_worsens_with_errors(
    tec: u8,
    rec: u8,
    bus_off: bool,
    more_tec: u8,
    more_rec: u8,
    later_bus_off: bool,
)
    requires
        tec <= more_tec,
        rec <= more_rec,
        bus_off ==> later_bus_off,
    ensures
        byte_of_health(health_of(tec, rec, bus_off)) <= byte_of_health(
            health_of(more_tec, more_rec, later_bus_off),
        ),
{
}

/// The health is told by the larger of the error counters: a warning from 96 on, passive from 128
/// on, and by nothing else on a bus that is off.
pub proof fn law_health_thresholds(tec: u8, rec: u8)
    ensures
        ({
            let health = byte_of_health(health_of(tec, rec, false));
            &&& health == 0 <==> tec < 96 && rec < 96
            &&& health == 1 <==> (tec >= 96 || rec >= 96) && tec < 128 && rec < 128
            &&& health == 2 <==> tec >= 128 || rec >= 128
            &&& byte_of_health(health_of(tec, rec, true)) == 3
        }),
{
}

} // verus!
