//! Samples of the data logger, received by radio.
use vstd::prelude::*;

use crate::board::{BoardModel, BoardState};

verus! {

// Must match the channel that the sender of the logger is set to.
pub const ESPNOW_CHANNEL: u8 = 1;

/// One sample of the data logger. The counter tells how many samples have arrived.
#[derive(Clone, Copy, Debug, PartialEq, Eq, Structural)]
pub struct LogData {
    pub start_time: u64,
    pub adc0: u16,
    pub adc2: u16,
    pub adc3: u16,
    pub counter: u16,
}

/// The value of two bytes, low byte first.
pub open spec fn le_u16(bytes: Seq<u8>, at: int) -> int {
    bytes[at] + 0x100 * bytes[at + 1]
}

/// The value of eight bytes, low byte first.
pub open spec fn le_u64(bytes: Seq<u8>, at: int) -> int {
    le_u16(bytes, at) + 0x1_0000 * le_u16(bytes, at + 2) + 0x1_0000_0000 * le_u16(bytes, at + 4)
        + 0x1_0000_0000_0000 * le_u16(bytes, at + 6)
}

/// A packet has sixteen bytes: the start time, three readings, and two bytes that are not used.
pub open spec fn parsed(payload: Seq<u8>) -> Option<LogData> {
    if payload.len() == 16 {
        Some(
            LogData {
                start_time: le_u64(payload, 0) as u64,
                adc0: le_u16(payload, 8) as u16,
                adc2: le_u16(payload, 10) as u16,
                adc3: le_u16(payload, 12) as u16,
                counter: 0,
            },
        )
    } else {
        None
    }
}

fn read_u16(payload: &[u8], at: usize) -> (value: u16)
    requires
        at + 1 < payload@.len(),
    ensures
        value == le_u16(payload@, at as int),
{
    (payload[at] as u32 + 0x100 * payload[at + 1] as u32) as u16
}

impl LogData {
    pub const LEN: usize = 16;

    pub fn parse(payload: &[u8]) -> (data: Option<Self>)
        ensures
            data == parsed(payload@),
    {
        if payload.len() != Self::LEN {
            return None;
        }
        let start_time: u64 = read_u16(payload, 0) as u64 + 0x1_0000 * read_u16(payload, 2) as u64
            + 0x1_0000_0000 * read_u16(payload, 4) as u64 + 0x1_0000_0000_0000 * read_u16(
            payload,
            6,
        ) as u64;
        Some(
            Self {
                start_time,
                adc0: read_u16(payload, 8),
                adc2: read_u16(payload, 10),
                adc3: read_u16(payload, 12),
                counter: 0,
            },
        )
    }
}

/// The sample that was received last.
pub fn latest_log_data(board: &BoardState) -> (data: Option<LogData>)
    ensures
        data == board@.latest_log_data,
{
    board.latest_log_data
}

/// The number of the next sample. It starts over after the largest one.
pub open spec fn next_counter(latest: Option<LogData>) -> u16 {
    match latest {
        Some(latest) => if latest.counter == u16::MAX {
            0
        } else {
            (latest.counter + 1) as u16
        },
        None => 1,
    }
}

pub open spec fn after_packet(b: BoardModel, payload: Seq<u8>) -> BoardModel {
    match parsed(payload) {
        Some(data) => BoardModel {
            latest_log_data: Some(
                LogData { counter: next_counter(b.latest_log_data), ..data },
            ),
            ..b
        },
        None => b,
    }
}

/// Takes in a packet: a sample is numbered and kept, anything else is left aside and reported.
pub fn receive_packet(board: &mut BoardState, payload: &[u8]) -> (accepted: bool)
    ensures
        accepted == (payload@.len() == 16),
        final(board)@ == after_packet(old(board)@, payload@),
{
    match LogData::parse(payload) {
        Some(mut log_data) => {
            log_data.counter = match board.latest_log_data {
                Some(latest) => latest.counter.wrapping_add(1),
                None => 1,
            };
            board.latest_log_data = Some(log_data);
            true
        },
        None => false,
    }
}

/// The board after `payloads`, one after the other.
pub open spec fn after_packets(b: BoardModel, payloads: Seq<Seq<u8>>) -> BoardModel
    decreases payloads.len(),
{
    if payloads.len() == 0 {
        b
    } else {
        after_packet(after_packets(b, payloads.drop_last()), payloads.last())
    }
}

/// How many of `payloads` are samples.
pub open spec fn sample_count(payloads: Seq<Seq<u8>>) -> nat
    decreases payloads.len(),
{
    if payloads.len() == 0 {
        0
    } else {
        sample_count(payloads.drop_last()) + if payloads.last().len() == 16 {
            1nat
        } else {
            0nat
        }
    }
}

/// On a board that starts without a sample, the counter of the latest sample is the number of
/// samples among all packets that have arrived, modulo its range; as long as none of them is a
/// sample, there is no latest one.
pub proof fn law_counter_counts_samples(b: BoardModel, payloads: Seq<Seq<u8>>)
    requires
        b.latest_log_data is None,
    ensures
        match after_packets(b, payloads).latest_log_data {
            Some(latest) => sample_count(payloads) > 0 && latest.counter == sample_count(payloads)
                % 0x1_0000,
            None => sample_count(payloads) == 0,
        },
    decreases payloads.len(),
{
    if payloads.len() > 0 {
        law_counter_counts_samples(b, payloads.drop_last());
    }
}

/// A packet of another length changes nothing.
pub proof fn law_odd_packets_are_left_aside(b: BoardModel, payload: Seq<u8>)
    requires
        payload.len() != 16,
    ensures
        after_packet(b, payload) == b,
{
}

/// A sample is read byte for byte: its start time holds the first eight bytes of the packet, low
/// byte first, and its readings the next two bytes each.
pub proof fn law_sample_holds_its_bytes(payload: Seq<u8>)
    requires
        payload.len() == 16,
    ensures
        parsed(payload) matches Some(data) && {
            &&& data.start_time == payload[0] + 0x100 * payload[1] + 0x1_0000 * payload[2]
                + 0x100_0000 * payload[3] + 0x1_0000_0000 * payload[4] + 0x100_0000_0000
                * payload[5] + 0x1_0000_0000_0000 * payload[6] + 0x100_0000_0000_0000 * payload[7]
            &&& data.adc0 == payload[8] + 0x100 * payload[9]
            &&& data.adc2 == payload[10] + 0x100 * payload[11]
            &&& data.adc3 == payload[12] + 0x100 * payload[13]
        },
{
}

/// The latest sample is the one that arrived last, whatever was there before, and a sample changes
/// nothing else on the board.
pub proof fn law_latest_sample_is_kept(b: BoardModel, payload: Seq<u8>)
    requires
        payload.len() == 16,
    ensures
        ({
            let after = after_packet(b, payload);
            let data = parsed(payload)->0;
            &&& after.latest_log_data matches Some(latest)
            &&& latest.start_time == data.start_time
            &&& latest.adc0 == data.adc0
            &&& latest.adc2 == data.adc2
            &&& latest.adc3 == data.adc3
            &&& after == (BoardModel { latest_log_data: after.latest_log_data, ..b })
        }),
{
}

} // verus!
