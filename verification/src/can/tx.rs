//! Frames on their way to the CAN bus.
use embedded_can::StandardId;
use vstd::prelude::*;

use crate::can::protocol;
use crate::can::protocol::GseCanMessage;
use crate::tasks::espnow::LogData;

verus! {

#[derive(Clone, Copy, Debug, PartialEq, Eq, Structural)]
pub enum CanFrameError {
    InvalidId(u16),
    InvalidPayloadLength(usize),
}

#[derive(Clone, Copy, Debug, PartialEq, Eq, Structural)]
pub enum CanTxError {
    TxInhibited,
    FrameCreateFailed,
    TransmitFailed,
    TimedOutUnknownState,
    BusOff,
}

/// The longest payload of a frame.
pub const CAN_MAX_DLC: usize = 8;

/// A data frame with a standard identifier.
#[derive(Debug, PartialEq, Eq)]
pub struct CanFrame {
    pub id: u16,
    pub data: Vec<u8>,
}

/// The contents of a [`CanFrame`].
#[verifier::ext_equal]
pub struct FrameModel {
    pub id: u16,
    pub data: Seq<u8>,
}

impl View for CanFrame {
    type V = FrameModel;

    open spec fn view(&self) -> FrameModel {
        FrameModel { id: self.id, data: self.data@ }
    }
}

/// Calls `embedded_can::StandardId::new` and `StandardId::as_raw`. Claims that exactly the
/// identifiers of eleven bits are accepted, and kept as they are.
#[verifier::external_body]
fn standard_id(raw: u16) -> (id: Option<u16>)
    ensures
        id == if raw <= 0x7ff {
            Some(raw)
        } else {
            None
        },
{
    StandardId::new(raw).map(|id| id.as_raw())
}

impl CanFrame {
    /// A frame with the first `len` bytes of `payload`, if a frame can hold that many.
    pub fn new(id: u16, payload: &[u8; 8], len: usize) -> (frame: Option<Self>)
        ensures
            frame is Some <==> len <= CAN_MAX_DLC,
            frame matches Some(frame) ==> frame@ == (FrameModel {
                id,
                data: payload@.take(len as int),
            }),
    {
        if len > CAN_MAX_DLC {
            return None;
        }
        let mut data: Vec<u8> = Vec::new();
        let mut i: usize = 0;
        while i < len
            invariant
                i <= len <= 8,
                data@ == payload@.take(i as int),
            decreases len - i,
        {
            data.push(payload[i]);
            assert(payload@.take(i + 1) == payload@.take(i as int).push(payload@[i as int]));
            i = i + 1;
        }
        Some(Self { id, data })
    }
}

pub open spec fn frame_of(msg: GseCanMessage) -> FrameModel {
    FrameModel { id: protocol::id_of(msg), data: protocol::payload_of(msg) }
}

/// The frame that carries `msg`. Every message has one.
pub fn create_frame_from_message(msg: GseCanMessage) -> (frame: Result<CanFrame, CanFrameError>)
    ensures
        frame matches Ok(frame) && frame@ == frame_of(msg),
{
    let mut payload: [u8; 8] = [0u8; 8];
    let len = msg.encode_payload(&mut payload);
    let id = match standard_id(msg.id()) {
        Some(id) => id,
        None => return Err(CanFrameError::InvalidId(msg.id())),
    };
    assert(payload@.take(len as int) == protocol::payload_of(msg));
    match CanFrame::new(id, &payload, len) {
        Some(frame) => Ok(frame),
        None => Err(CanFrameError::InvalidPayloadLength(len)),
    }
}

/// The readings and the number of a logger sample, each low byte first.
pub open spec fn logger_payload(sample: LogData) -> Seq<u8> {
    seq![
        (sample.adc0 % 256) as u8,
        (sample.adc0 / 256) as u8,
        (sample.adc2 % 256) as u8,
        (sample.adc2 / 256) as u8,
        (sample.adc3 % 256) as u8,
        (sample.adc3 / 256) as u8,
        (sample.counter % 256) as u8,
        (sample.counter / 256) as u8,
    ]
}

/// The frame that carries a logger sample under the identifier `id`.
pub fn create_logger_frame(id: u16, sample: LogData) -> (frame: Result<CanFrame, CanFrameError>)
    ensures
        match frame {
            Ok(frame) => id <= 0x7ff && frame@ == (FrameModel { id, data: logger_payload(sample) }),
            Err(error) => id > 0x7ff && error == CanFrameError::InvalidId(id),
        },
{
    let payload: [u8; 8] = [
        (sample.adc0 % 256) as u8,
        (sample.adc0 / 256) as u8,
        (sample.adc2 % 256) as u8,
        (sample.adc2 / 256) as u8,
        (sample.adc3 % 256) as u8,
        (sample.adc3 / 256) as u8,
        (sample.counter % 256) as u8,
        (sample.counter / 256) as u8,
    ];
    assert(payload@.take(8) == logger_payload(sample));
    match standard_id(id) {
        Some(id) => match CanFrame::new(id, &payload, CAN_MAX_DLC) {
            Some(frame) => Ok(frame),
            None => Err(CanFrameError::InvalidPayloadLength(CAN_MAX_DLC)),
        },
        None => Err(CanFrameError::InvalidId(id)),
    }
}

/// How an attempt to send a frame within its time ended.
#[derive(Clone, Copy, Debug, PartialEq, Eq, Structural)]
pub enum TransmitOutcome {
    Sent,
    FrameRejected,
    BusOff,
    OtherError,
    TimedOut,
}

/// What an attempt to send means for the link. After a timeout it is not known whether the frame
/// went out.
pub open spec fn transmit_result(outcome: TransmitOutcome) -> Result<(), CanTxError> {
    match outcome {
        TransmitOutcome::Sent => Ok(()),
        TransmitOutcome::FrameRejected => Err(CanTxError::FrameCreateFailed),
        TransmitOutcome::BusOff => Err(CanTxError::BusOff),
        TransmitOutcome::OtherError => Err(CanTxError::TransmitFailed),
        TransmitOutcome::TimedOut => Err(CanTxError::TimedOutUnknownState),
    }
}

pub fn classify_transmit(outcome: TransmitOutcome) -> (result: Result<(), CanTxError>)
    ensures
        result == transmit_result(outcome),
{
    match outcome {
        TransmitOutcome::Sent => Ok(()),
        TransmitOutcome::FrameRejected => Err(CanTxError::FrameCreateFailed),
        TransmitOutcome::BusOff => Err(CanTxError::BusOff),
        TransmitOutcome::OtherError => Err(CanTxError::TransmitFailed),
        TransmitOutcome::TimedOut => Err(CanTxError::TimedOutUnknownState),
    }
}

/// A message travels under its own identifier with its own payload.
pub proof fn law_frame_carries_its_message(msg: GseCanMessage)
    ensures
        protocol::decoded(frame_of(msg).id, frame_of(msg).data) == Ok::<
            GseCanMessage,
            protocol::CanDecodeError,
        >(msg),
{
    protocol::law_decode_undoes_encode(msg);
}

/// A logger frame holds three readings and the number of the sample, two bytes each, low byte first.
pub proof fn law_logger_frame_carries_its_sample(sample: LogData)
    ensures
        ({
            let data = logger_payload(sample);
            &&& data.len() == 8
            &&& data[0] + 256 * data[1] == sample.adc0
            &&& data[2] + 256 * data[3] == sample.adc2
            &&& data[4] + 256 * data[5] == sample.adc3
            &&& data[6] + 256 * data[7] == sample.counter
        }),
{
}

/// Only a frame that was sent counts as sent, and every way to fail is told apart.
pub proof fn law_attempts_are_told_apart(first: TransmitOutcome, second: TransmitOutcome)
    ensures
        transmit_result(first) is Ok <==> first == TransmitOutcome::Sent,
        transmit_result(first) == transmit_result(second) ==> first == second,
        transmit_result(first) == Err::<(), CanTxError>(CanTxError::BusOff) <==> first
            == TransmitOutcome::BusOff,
        transmit_result(first) == Err::<(), CanTxError>(CanTxError::TimedOutUnknownState) <==> first
            == TransmitOutcome::TimedOut,
        transmit_result(first) == Err::<(), CanTxError>(CanTxError::TransmitFailed) <==> first
            == TransmitOutcome::OtherError,
{
}

} // verus!
