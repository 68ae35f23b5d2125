//! The messages on the CAN bus.
use vstd::prelude::*;

verus! {

pub const CAN_ID_BUTTON_FROM_CTRL_PANEL: u16 = 0x001;

pub const CAN_ID_MAIN_VALVE_ANGLE_TO_CTRL_PANEL: u16 = 0x101;

pub const CAN_ID_OUTPUT_GPIO_STATUS: u16 = 0x103;

pub const CAN_ID_INPUT_GPIO_STATUS: u16 = 0x104;

pub const CAN_ID_INTERNAL_STATUS: u16 = 0x105;

#[derive(Clone, Copy, Debug, PartialEq, Eq, Structural)]
pub enum GseCanMessage {
    ButtonFromCtrlPanel { raw: u8 },
    MainValveAngleToCtrlPanel { angle_x10: i16 },
    OutputGpioStatus { output_bits: u8 },
    InputGpioStatus { input_bits: u8 },
    InternalStatus { phase: u8, flags: u8 },
}

#[derive(Clone, Copy, Debug, PartialEq, Eq, Structural)]
pub enum CanDecodeError {
    UnknownId(u16),
    InvalidDlc { id: u16, expected: usize, actual: usize },
}

/// The identifier of a message.
pub open spec fn id_of(message: GseCanMessage) -> u16 {
    match message {
        GseCanMessage::ButtonFromCtrlPanel { .. } => CAN_ID_BUTTON_FROM_CTRL_PANEL,
        GseCanMessage::MainValveAngleToCtrlPanel { .. } => CAN_ID_MAIN_VALVE_ANGLE_TO_CTRL_PANEL,
        GseCanMessage::OutputGpioStatus { .. } => CAN_ID_OUTPUT_GPIO_STATUS,
        GseCanMessage::InputGpioStatus { .. } => CAN_ID_INPUT_GPIO_STATUS,
        GseCanMessage::InternalStatus { .. } => CAN_ID_INTERNAL_STATUS,
    }
}

/// The payload length that belongs to an identifier; unknown identifiers have none.
pub open spec fn payload_len(id: u16) -> Option<usize> {
    if id == CAN_ID_BUTTON_FROM_CTRL_PANEL || id == CAN_ID_OUTPUT_GPIO_STATUS || id
        == CAN_ID_INPUT_GPIO_STATUS {
        Some(1)
    } else if id == CAN_ID_MAIN_VALVE_ANGLE_TO_CTRL_PANEL || id == CAN_ID_INTERNAL_STATUS {
        Some(2)
    } else {
        None
    }
}

/// The value of two bytes, low byte first, in two's complement.
pub open spec fn le_i16(low: u8, high: u8) -> int {
    low + 256 * high - if high >= 0x80 {
        0x1_0000int
    } else {
        0
    }
}

/// The low byte of `value` in two's complement.
pub open spec fn low_byte(value: i16) -> u8 {
    (value % 256) as u8
}

/// The high byte of `value` in two's complement.
pub open spec fn high_byte(value: i16) -> u8 {
    ((value / 256) % 256) as u8
}

/// The payload of a message.
pub open spec fn payload_of(message: GseCanMessage) -> Seq<u8> {
    match message {
        GseCanMessage::ButtonFromCtrlPanel { raw } => seq![raw],
        GseCanMessage::MainValveAngleToCtrlPanel { angle_x10 } => seq![
            low_byte(angle_x10),
            high_byte(angle_x10),
        ],
        GseCanMessage::OutputGpioStatus { output_bits } => seq![output_bits],
        GseCanMessage::InputGpioStatus { input_bits } => seq![input_bits],
        GseCanMessage::InternalStatus { phase, flags } => seq![phase, flags],
    }
}

/// What a frame with a known identifier and the right length says.
pub open spec fn message_of(id: u16, data: Seq<u8>) -> GseCanMessage {
    if id == CAN_ID_BUTTON_FROM_CTRL_PANEL {
        GseCanMessage::ButtonFromCtrlPanel { raw: data[0] }
    } else if id == CAN_ID_MAIN_VALVE_ANGLE_TO_CTRL_PANEL {
        GseCanMessage::MainValveAngleToCtrlPanel { angle_x10: le_i16(data[0], data[1]) as i16 }
    } else if id == CAN_ID_OUTPUT_GPIO_STATUS {
        GseCanMessage::OutputGpioStatus { output_bits: data[0] }
    } else if id == CAN_ID_INPUT_GPIO_STATUS {
        GseCanMessage::InputGpioStatus { input_bits: data[0] }
    } else {
        GseCanMessage::InternalStatus { phase: data[0], flags: data[1] }
    }
}

/// What a frame with a standard identifier says, or what is wrong with it.
pub open spec fn decoded(id: u16, data: Seq<u8>) -> Result<GseCanMessage, CanDecodeError> {
    match payload_len(id) {
        None => Err(CanDecodeError::UnknownId(id)),
        Some(expected) => if data.len() == expected {
            Ok(message_of(id, data))
        } else {
            Err(CanDecodeError::InvalidDlc { id, expected, actual: data.len() as usize })
        },
    }
}

fn i16_to_le_bytes(value: i16) -> (bytes: (u8, u8))
    ensures
        bytes.0 == low_byte(value),
        bytes.1 == high_byte(value),
{
    let raw: i32 = if value < 0 {
        value as i32 + 0x1_0000
    } else {
        value as i32
    };
    ((raw % 256) as u8, (raw / 256) as u8)
}

fn i16_from_le_bytes(low: u8, high: u8) -> (value: i16)
    ensures
        value == le_i16(low, high),
{
    let raw: i32 = low as i32 + 256 * (high as i32);
    if high >= 0x80 {
        (raw - 0x1_0000) as i16
    } else {
        raw as i16
    }
}

impl GseCanMessage {
    pub fn id(&self) -> (id: u16)
        ensures
            id == id_of(*self),
    {
        match self {
            Self::ButtonFromCtrlPanel { .. } => CAN_ID_BUTTON_FROM_CTRL_PANEL,
            Self::MainValveAngleToCtrlPanel { .. } => CAN_ID_MAIN_VALVE_ANGLE_TO_CTRL_PANEL,
            Self::OutputGpioStatus { .. } => CAN_ID_OUTPUT_GPIO_STATUS,
            Self::InputGpioStatus { .. } => CAN_ID_INPUT_GPIO_STATUS,
            Self::InternalStatus { .. } => CAN_ID_INTERNAL_STATUS,
        }
    }

    pub fn dlc(&self) -> (len: usize)
        ensures
            len == payload_of(*self).len(),
    {
        match self {
            Self::MainValveAngleToCtrlPanel { .. } | Self::InternalStatus { .. } => 2,
            Self::ButtonFromCtrlPanel { .. }
            | Self::OutputGpioStatus { .. }
            | Self::InputGpioStatus { .. } => 1,
        }
    }

    /// Writes the payload to the front of `out`, leaves the rest of it alone, and gives the length.
    pub fn encode_payload(&self, out: &mut [u8; 8]) -> (len: usize)
        ensures
            len == payload_of(*self).len(),
            final(out)@ == payload_of(*self) + old(out)@.skip(len as int),
    {
        match *self {
            Self::ButtonFromCtrlPanel { raw } => {
                out[0] = raw;
            },
            Self::MainValveAngleToCtrlPanel { angle_x10 } => {
                let bytes = i16_to_le_bytes(angle_x10);
                out[0] = bytes.0;
                out[1] = bytes.1;
            },
            Self::OutputGpioStatus { output_bits } => {
                out[0] = output_bits;
            },
            Self::InputGpioStatus { input_bits } => {
                out[0] = input_bits;
            },
            Self::InternalStatus { phase, flags } => {
                out[0] = phase;
                out[1] = flags;
            },
        }
        self.dlc()
    }

    /// Reads a frame with a standard identifier.
    pub fn decode_standard(id: u16, data: &[u8]) -> (message: Result<Self, CanDecodeError>)
        ensures
            message == decoded(id, data@),
    {
        let expected: usize = if id == CAN_ID_BUTTON_FROM_CTRL_PANEL || id
            == CAN_ID_OUTPUT_GPIO_STATUS || id == CAN_ID_INPUT_GPIO_STATUS {
            1
        } else if id == CAN_ID_MAIN_VALVE_ANGLE_TO_CTRL_PANEL || id == CAN_ID_INTERNAL_STATUS {
            2
        } else {
            return Err(CanDecodeError::UnknownId(id));
        };

        if data.len() != expected {
            return Err(CanDecodeError::InvalidDlc { id, expected, actual: data.len() });
        }
        if id == CAN_ID_BUTTON_FROM_CTRL_PANEL {
            Ok(Self::ButtonFromCtrlPanel { raw: data[0] })
        } else if id == CAN_ID_MAIN_VALVE_ANGLE_TO_CTRL_PANEL {
            Ok(
                Self::MainValveAngleToCtrlPanel {
                    angle_x10: i16_from_le_bytes(data[0], data[1]),
                },
            )
        } else if id == CAN_ID_OUTPUT_GPIO_STATUS {
            Ok(Self::OutputGpioStatus { output_bits: data[0] })
        } else if id == CAN_ID_INPUT_GPIO_STATUS {
            Ok(Self::InputGpioStatus { input_bits: data[0] })
        } else {
            Ok(Self::InternalStatus { phase: data[0], flags: data[1] })
        }
    }
}

/// Decoding undoes encoding: every message is read back from its own identifier and payload.
pub proof fn law_decode_undoes_encode(message: GseCanMessage)
    ensures
        decoded(id_of(message), payload_of(message)) == Ok::<GseCanMessage, CanDecodeError>(message),
{
}

/// Encoding undoes decoding: a frame that was understood is the one that its message is sent as.
pub proof fn law_encode_undoes_decode(id: u16, data: Seq<u8>)
    requires
        decoded(id, data) is Ok,
    ensures
        id_of(decoded(id, data)->Ok_0) == id,
        payload_of(decoded(id, data)->Ok_0) == data,
{
}

/// Every message has the length that belongs to its identifier, and fits into a frame.
pub proof fn law_payload_has_the_expected_length(message: GseCanMessage)
    ensures
        payload_len(id_of(message)) == Some(payload_of(message).len() as usize),
        payload_of(message).len() <= 8,
        id_of(message) <= 0x7ff,
{
}

/// Each message has its own identifier, and its payload holds its values: one byte each, an angle as
/// two bytes in two's complement, low byte first.
pub proof fn law_messages_carry_their_values(message: GseCanMessage)
    ensures
        ({
            let data = payload_of(message);
            match message {
                GseCanMessage::ButtonFromCtrlPanel { raw } => id_of(message) == 0x001 && data
                    == seq![raw],
                GseCanMessage::MainValveAngleToCtrlPanel { angle_x10 } => id_of(message) == 0x101
                    && data.len() == 2 && data[0] + 256 * data[1] == if angle_x10 >= 0 {
                    angle_x10 as int
                } else {
                    angle_x10 + 0x1_0000
                },
                GseCanMessage::OutputGpioStatus { output_bits } => id_of(message) == 0x103 && data
                    == seq![output_bits],
                GseCanMessage::InputGpioStatus { input_bits } => id_of(message) == 0x104 && data
                    == seq![input_bits],
                GseCanMessage::InternalStatus { phase, flags } => id_of(message) == 0x105 && data
                    == seq![phase, flags],
            }
        }),
{
}

/// A frame is refused exactly for an identifier that no message has, or for a length that is not
/// the message's, and the refusal tells which.
pub proof fn law_refused_frames(id: u16, data: Seq<u8>)
    requires
        data.len() <= usize::MAX,
    ensures
        ({
            let one = id == 0x001 || id == 0x103 || id == 0x104;
            let two = id == 0x101 || id == 0x105;
            let expected: usize = if one {
                1
            } else {
                2
            };
            &&& !one && !two ==> decoded(id, data) == Err::<GseCanMessage, CanDecodeError>(
                CanDecodeError::UnknownId(id),
            )
            &&& one || two ==> (decoded(id, data) is Ok <==> data.len() == expected)
            &&& (one || two) && data.len() != expected ==> decoded(id, data) == Err::<
                GseCanMessage,
                CanDecodeError,
            >(CanDecodeError::InvalidDlc { id, expected, actual: data.len() as usize })
        }),
{
}

} // verus!
