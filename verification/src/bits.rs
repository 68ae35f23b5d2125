//! Facts about flags that the laws share.
use vstd::prelude::*;

use crate::{
    CAN_BUS_OFF, CAN_FAULTS, CAN_PEER_LOST, CAN_TX_FRAME_CREATE_FAILED, CAN_TX_TIMEOUT,
    HARD_OUTPUT_INHIBIT_FAULTS, SERVO_COMM_ERROR, SERVO_FAULTS,
};

verus! {

pub(crate) proof fn lemma_no_faults()
    by (bit_vector)
    ensures
        0u8 & CAN_FAULTS == 0,
        0u8 & HARD_OUTPUT_INHIBIT_FAULTS == 0,
        0u8 & SERVO_FAULTS == 0,
        0u8 & SERVO_COMM_ERROR == 0,
{
}

/// Raising `flags` sets them and nothing else; clearing them clears them and nothing else.
pub(crate) proof fn lemma_raise_and_clear(before: u8, flags: u8)
    by (bit_vector)
    ensures
        (before | flags) & flags == flags,
        (before | flags) & !flags == before & !flags,
        (before | flags) & before == before,
        (before & !flags) & flags == 0,
        (before & !flags) & !flags == before & !flags,
        before & flags == flags <==> before | flags == before,
        before & flags == 0 <==> before & !flags == before,
{
}

/// The same of the input flags.
pub(crate) proof fn lemma_assert_and_release(before: u32, flag: u32)
    by (bit_vector)
    ensures
        (before | flag) & flag == flag,
        (before | flag) & !flag == before & !flag,
        (before & !flag) & flag == 0,
        (before & !flag) & !flag == before & !flag,
{
}

/// The faults of the link are four different bits, none of them the servo's.
pub(crate) proof fn lemma_link_faults_are_apart(faults: u8)
    by (bit_vector)
    ensures
        faults & CAN_PEER_LOST == CAN_PEER_LOST ==> faults & CAN_FAULTS != 0,
        (faults | CAN_PEER_LOST) & SERVO_COMM_ERROR == faults & SERVO_COMM_ERROR,
        (faults | CAN_BUS_OFF) & SERVO_COMM_ERROR == faults & SERVO_COMM_ERROR,
        (faults | CAN_TX_TIMEOUT) & SERVO_COMM_ERROR == faults & SERVO_COMM_ERROR,
        (faults | CAN_TX_FRAME_CREATE_FAILED) & SERVO_COMM_ERROR == faults & SERVO_COMM_ERROR,
        (faults | CAN_BUS_OFF) & CAN_PEER_LOST == faults & CAN_PEER_LOST,
        (faults | CAN_TX_FRAME_CREATE_FAILED) & CAN_PEER_LOST == faults & CAN_PEER_LOST,
        faults & SERVO_COMM_ERROR == SERVO_COMM_ERROR || faults & SERVO_COMM_ERROR == 0,
{
}

} // verus!
