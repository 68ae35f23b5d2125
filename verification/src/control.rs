//! Sequence phases and the interlock that turns an intent into outputs.
use vstd::prelude::*;

use crate::{HARD_OUTPUT_INHIBIT_FAULTS, INPUT_CAN_LINK_ACTIVE, SERVO_FAULTS};

verus! {

/// Where the firing sequence stands.
#[derive(Clone, Copy, Debug, PartialEq, Eq, Structural)]
pub enum SequencePhase {
    Idle,
    Firing,
    Timeout,
    Abort,
}

/// The phase that a status byte stands for; unknown bytes stand for `Idle`.
pub open spec fn phase_of_byte(raw: u8) -> SequencePhase {
    if raw == 1 {
        SequencePhase::Firing
    } else if raw == 2 {
        SequencePhase::Timeout
    } else if raw == 3 {
        SequencePhase::Abort
    } else {
        SequencePhase::Idle
    }
}

/// The status byte of a phase.
pub open spec fn byte_of_phase(phase: SequencePhase) -> u8 {
    match phase {
        SequencePhase::Idle => 0,
        SequencePhase::Firing => 1,
        SequencePhase::Timeout => 2,
        SequencePhase::Abort => 3,
    }
}

impl SequencePhase {
    pub fn from_u8(raw: u8) -> (phase: Self)
        ensures
            phase == phase_of_byte(raw),
    {
        match raw {
            1 => Self::Firing,
            2 => Self::Timeout,
            3 => Self::Abort,
            _ => Self::Idle,
        }
    }

    pub fn as_u8(self) -> (raw: u8)
        ensures
            raw == byte_of_phase(self),
    {
        match self {
            Self::Idle => 0,
            Self::Firing => 1,
            Self::Timeout => 2,
            Self::Abort => 3,
        }
    }
}

/// A phase is read back from its status byte.
pub proof fn law_phase_is_read_back(phase: SequencePhase)
    ensures
        phase_of_byte(byte_of_phase(phase)) == phase,
{
}

/// What the servo is allowed to do.
#[derive(Clone, Copy, Debug, PartialEq, Eq, Structural)]
pub enum ServoAction {
    Hold,
    MoveTo(i16),
}

/// What the sequence and the operator want, before any interlock.
#[derive(Clone, Copy, Debug, PartialEq, Eq)]
pub struct ControlIntent {
    pub ignition_on: bool,
    pub dump_on: bool,
    pub fill_on: bool,
    pub separate_on: bool,
    pub o2_on: bool,
    pub servo_target_angle_x10: Option<i16>,
}

pub open spec fn safe_intent() -> ControlIntent {
    ControlIntent {
        ignition_on: false,
        dump_on: false,
        fill_on: false,
        separate_on: false,
        o2_on: false,
        servo_target_angle_x10: None,
    }
}

impl ControlIntent {
    /// The intent that wants nothing.
    pub fn safe() -> (intent: Self)
        ensures
            intent == safe_intent(),
    {
        Self {
            ignition_on: false,
            dump_on: false,
            fill_on: false,
            separate_on: false,
            o2_on: false,
            servo_target_angle_x10: None,
        }
    }
}

/// What is done, after the interlocks.
#[derive(Clone, Copy, Debug, PartialEq, Eq)]
pub struct ControlDecision {
    pub ignition_on: bool,
    pub dump_on: bool,
    pub fill_on: bool,
    pub separate_on: bool,
    pub o2_on: bool,
    pub servo_action: ServoAction,
    pub allow_new_ignition: bool,
}

/// The control panel is heard.
pub open spec fn link_active(input_flags: u32) -> bool {
    input_flags & INPUT_CAN_LINK_ACTIVE != 0
}

/// Outputs may be driven at all: the control panel is heard and no fault inhibits outputs.
pub open spec fn outputs_enabled(fault_flags: u8, input_flags: u32) -> bool {
    link_active(input_flags) && fault_flags & HARD_OUTPUT_INHIBIT_FAULTS == 0
}

/// The servo may move: never in `Abort`, never with a servo fault, and in `Firing` only without
/// any fault.
pub open spec fn servo_enabled(phase: SequencePhase, fault_flags: u8) -> bool {
    &&& phase != SequencePhase::Abort
    &&& fault_flags & SERVO_FAULTS == 0
    &&& phase == SequencePhase::Firing ==> fault_flags == 0
}

pub open spec fn resolved_control(
    phase: SequencePhase,
    fault_flags: u8,
    input_flags: u32,
    intent: ControlIntent,
) -> ControlDecision {
    let enabled = outputs_enabled(fault_flags, input_flags);
    ControlDecision {
        ignition_on: enabled && intent.ignition_on && phase == SequencePhase::Firing && fault_flags
            == 0,
        dump_on: enabled && intent.dump_on,
        fill_on: enabled && intent.fill_on && phase != SequencePhase::Firing,
        separate_on: enabled && intent.separate_on && phase != SequencePhase::Firing,
        o2_on: enabled && intent.o2_on,
        servo_action: match intent.servo_target_angle_x10 {
            Some(angle_x10) if enabled && servo_enabled(phase, fault_flags) => ServoAction::MoveTo(
                angle_x10,
            ),
            _ => ServoAction::Hold,
        },
        allow_new_ignition: phase == SequencePhase::Idle && link_active(input_flags) && fault_flags
            == 0,
    }
}

/// Applies the interlocks of `phase`, faults and inputs to `intent`.
pub fn resolve_control(
    phase: SequencePhase,
    fault_flags: u8,
    input_flags: u32,
    intent: ControlIntent,
) -> (decision: ControlDecision)
    ensures
        decision == resolved_control(phase, fault_flags, input_flags, intent),
{
    let operator_input_available = input_flags & INPUT_CAN_LINK_ACTIVE != 0;
    let hard_output_inhibited = fault_flags & HARD_OUTPUT_INHIBIT_FAULTS != 0;
    let allow_new_ignition = phase == SequencePhase::Idle && operator_input_available && fault_flags
        == 0;

    if !operator_input_available || hard_output_inhibited {
        proof {
            assert(0u8 & HARD_OUTPUT_INHIBIT_FAULTS == 0) by (bit_vector);
        }
        return ControlDecision {
            ignition_on: false,
            dump_on: false,
            fill_on: false,
            separate_on: false,
            o2_on: false,
            servo_action: ServoAction::Hold,
            allow_new_ignition: false,
        };
    }
    let manual_phase = match phase {
        SequencePhase::Idle | SequencePhase::Timeout | SequencePhase::Abort => true,
        SequencePhase::Firing => false,
    };
    let firing_phase = phase == SequencePhase::Firing;
    let servo_allowed = phase != SequencePhase::Abort && fault_flags & SERVO_FAULTS == 0 && !(
    firing_phase && fault_flags != 0);

    ControlDecision {
        ignition_on: firing_phase && intent.ignition_on && fault_flags == 0,
        dump_on: intent.dump_on,
        fill_on: manual_phase && intent.fill_on,
        separate_on: manual_phase && intent.separate_on,
        o2_on: (manual_phase || firing_phase) && intent.o2_on,
        servo_action: if servo_allowed {
            match intent.servo_target_angle_x10 {
                Some(angle) => ServoAction::MoveTo(angle),
                None => ServoAction::Hold,
            }
        } else {
            ServoAction::Hold
        },
        allow_new_ignition,
    }
}

/// Fill and separate belong to the operator alone: the firing sequence never drives them. The
/// igniter belongs to the firing sequence alone.
pub proof fn law_outputs_belong_to_phases(
    phase: SequencePhase,
    fault_flags: u8,
    input_flags: u32,
    intent: ControlIntent,
)
    ensures
        ({
            let decision = resolved_control(phase, fault_flags, input_flags, intent);
            &&& phase == SequencePhase::Firing ==> !decision.fill_on && !decision.separate_on
            &&& phase != SequencePhase::Firing ==> !decision.ignition_on
        }),
{
}

/// No output is driven that the intent does not ask for.
pub proof fn law_interlocks_only_remove(
    phase: SequencePhase,
    fault_flags: u8,
    input_flags: u32,
    intent: ControlIntent,
)
    ensures
        ({
            let decision = resolved_control(phase, fault_flags, input_flags, intent);
            &&& decision.ignition_on ==> intent.ignition_on
            &&& decision.dump_on ==> intent.dump_on
            &&& decision.fill_on ==> intent.fill_on
            &&& decision.separate_on ==> intent.separate_on
            &&& decision.o2_on ==> intent.o2_on
            &&& decision.servo_action matches ServoAction::MoveTo(angle_x10)
                ==> intent.servo_target_angle_x10 == Some(angle_x10)
        }),
{
}

/// With the control panel heard and no fault that inhibits outputs, what is wanted is done: dumping
/// and oxygen in every phase, filling and separating in every phase but firing, and the igniter
/// while firing without any fault.
pub proof fn law_allowed_outputs_are_driven(
    phase: SequencePhase,
    fault_flags: u8,
    input_flags: u32,
    intent: ControlIntent,
)
    requires
        input_flags & INPUT_CAN_LINK_ACTIVE != 0,
        fault_flags & HARD_OUTPUT_INHIBIT_FAULTS == 0,
    ensures
        ({
            let decision = resolved_control(phase, fault_flags, input_flags, intent);
            &&& decision.dump_on == intent.dump_on
            &&& decision.o2_on == intent.o2_on
            &&& phase != SequencePhase::Firing ==> decision.fill_on == intent.fill_on
                && decision.separate_on == intent.separate_on
            &&& phase == SequencePhase::Firing && fault_flags == 0 ==> decision.ignition_on
                == intent.ignition_on
            &&& phase == SequencePhase::Firing && fault_flags != 0 ==> !decision.ignition_on
        }),
{
}

/// Without the control panel, or with a fault that inhibits outputs, nothing is driven at all.
pub proof fn law_inhibited_outputs(
    phase: SequencePhase,
    fault_flags: u8,
    input_flags: u32,
    intent: ControlIntent,
)
    requires
        input_flags & INPUT_CAN_LINK_ACTIVE == 0 || fault_flags & HARD_OUTPUT_INHIBIT_FAULTS != 0,
    ensures
        ({
            let decision = resolved_control(phase, fault_flags, input_flags, intent);
            &&& !decision.ignition_on && !decision.dump_on && !decision.fill_on
                && !decision.separate_on && !decision.o2_on
            &&& decision.servo_action == ServoAction::Hold
            &&& !decision.allow_new_ignition
        }),
{
    crate::bits::lemma_no_faults();
}

/// The servo goes where it is wanted, with the control panel heard and no fault that inhibits
/// outputs, exactly if the phase is not an abort, the servo has no fault, and firing has no fault at
/// all; otherwise it holds.
pub proof fn law_servo_is_allowed(
    phase: SequencePhase,
    fault_flags: u8,
    input_flags: u32,
    intent: ControlIntent,
    angle_x10: i16,
)
    requires
        input_flags & INPUT_CAN_LINK_ACTIVE != 0,
        fault_flags & HARD_OUTPUT_INHIBIT_FAULTS == 0,
        intent.servo_target_angle_x10 == Some(angle_x10),
    ensures
        ({
            let allowed = match phase {
                SequencePhase::Abort => false,
                SequencePhase::Firing => fault_flags == 0,
                SequencePhase::Idle | SequencePhase::Timeout => fault_flags & SERVO_FAULTS == 0,
            };
            resolved_control(phase, fault_flags, input_flags, intent).servo_action == if allowed {
                ServoAction::MoveTo(angle_x10)
            } else {
                ServoAction::Hold
            }
        }),
{
    crate::bits::lemma_no_faults();
}

/// A new ignition is allowed exactly in idle, with the control panel heard and without any fault.
pub proof fn law_new_ignition(
    phase: SequencePhase,
    fault_flags: u8,
    input_flags: u32,
    intent: ControlIntent,
)
    ensures
        resolved_control(phase, fault_flags, input_flags, intent).allow_new_ignition <==> phase
            == SequencePhase::Idle && input_flags & INPUT_CAN_LINK_ACTIVE != 0 && fault_flags == 0,
{
}

/// The phases are told by the bytes from nought to three, in order; every other byte is idle.
pub proof fn law_phase_bytes(raw: u8)
    ensures
        phase_of_byte(raw) == SequencePhase::Firing <==> raw == 1,
        phase_of_byte(raw) == SequencePhase::Timeout <==> raw == 2,
        phase_of_byte(raw) == SequencePhase::Abort <==> raw == 3,
        byte_of_phase(phase_of_byte(raw)) == if raw <= 3 {
            raw
        } else {
            0
        },
{
}

/// The safe intent wants nothing.
pub proof fn law_safe_intent_wants_nothing()
    ensures
        ({
            let intent = safe_intent();
            &&& !intent.ignition_on && !intent.dump_on && !intent.fill_on && !intent.separate_on
                && !intent.o2_on
            &&& intent.servo_target_angle_x10 is None
        }),
{
}

} // verus!
