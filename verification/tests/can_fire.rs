use critical_section as _;

use embassy_time::Duration;
use gse_integrated_board::can::tx::{CanFrame, TransmitOutcome};
use gse_integrated_board::can_fire::{CanFireTest, FireTxStep};
use gse_integrated_board::tasks::can_communication::{
    CanRxError, CanTxRuntimeState, FrameId, ReceivedFrame,
};
use gse_integrated_board::OUT_IGNITER;

const LOGGER_ID: u16 = 0x106;

fn ms(millis: u64) -> u64 {
    Duration::from_millis(millis).as_ticks()
}

fn buttons(raw: u8) -> ReceivedFrame {
    ReceivedFrame {
        id: FrameId::Standard(0x001),
        data: vec![raw],
    }
}

fn sent(step: FireTxStep) -> CanFrame {
    match step {
        FireTxStep::Transmit(frame) => frame,
        other => panic!("nothing to send, but {other:?}"),
    }
}

#[test]
fn the_output_follows_bit_one() {
    let mut test = CanFireTest::new(LOGGER_ID);
    for raw in 0..=255u8 {
        test.on_receive(&buttons(raw), ms(raw as u64));
        assert_eq!(test.fire_on(), raw & 2 != 0);
    }
}

#[test]
fn a_command_lasts_half_a_second() {
    let mut test = CanFireTest::new(LOGGER_ID);
    test.on_receive(&buttons(2), ms(100));
    test.on_watch_tick(ms(600) - 1);
    assert!(test.fire_on());
    test.on_receive(&buttons(2), ms(550));
    test.on_watch_tick(ms(600));
    assert!(test.fire_on());
    test.on_watch_tick(ms(1050));
    assert!(!test.fire_on());
}

#[test]
fn broken_and_foreign_frames() {
    let mut test = CanFireTest::new(LOGGER_ID);
    test.on_receive(&buttons(2), ms(1));
    test.on_receive(
        &ReceivedFrame {
            id: FrameId::Extended(0x001),
            data: vec![0],
        },
        ms(2),
    );
    test.on_receive(
        &ReceivedFrame {
            id: FrameId::Standard(0x105),
            data: vec![0],
        },
        ms(2),
    );
    assert!(test.fire_on());
    test.on_receive(
        &ReceivedFrame {
            id: FrameId::Standard(0x001),
            data: vec![2, 2],
        },
        ms(3),
    );
    assert!(!test.fire_on());
}

#[test]
fn five_status_frames_in_turn() {
    let mut test = CanFireTest::new(LOGGER_ID);
    test.on_receive(&buttons(2), ms(1));
    let expected = [
        (0x103, vec![OUT_IGNITER]),
        (0x104, vec![0]),
        (0x101, vec![0x28, 0x02]),
        (0x105, vec![0, 0]),
        (LOGGER_ID, vec![0; 8]),
        (0x103, vec![OUT_IGNITER]),
    ];
    for (id, data) in expected {
        assert_eq!(sent(test.on_tx_tick(ms(2))), CanFrame { id, data });
        assert!(!test.on_tx_outcome(TransmitOutcome::Sent, ms(2)));
    }
}

#[test]
fn a_passing_failure_repeats_the_frame() {
    let mut test = CanFireTest::new(LOGGER_ID);
    let first = sent(test.on_tx_tick(ms(1)));
    assert!(!test.on_tx_outcome(TransmitOutcome::OtherError, ms(1)));
    assert_eq!(sent(test.on_tx_tick(ms(2))), first);
}

#[test]
fn a_timeout_waits_for_panel_and_probe() {
    let mut test = CanFireTest::new(LOGGER_ID);
    test.on_receive(&buttons(2), ms(1));
    sent(test.on_tx_tick(ms(2)));
    assert!(test.on_tx_outcome(TransmitOutcome::TimedOut, ms(2)));
    assert!(!test.fire_on());
    assert!(matches!(test.on_tx_tick(ms(3)), FireTxStep::Nothing));

    test.on_receive(&buttons(2), ms(4));
    assert!(!test.fire_on());
    assert_eq!(test.tx_runtime_state(), CanTxRuntimeState::ProbePending);
    assert_eq!(
        sent(test.on_tx_tick(ms(5))),
        CanFrame {
            id: 0x105,
            data: vec![0, 0],
        }
    );
    assert!(!test.on_tx_outcome(TransmitOutcome::BusOff, ms(5)));
    assert!(matches!(test.on_tx_tick(ms(505) - 1), FireTxStep::Nothing));
    assert!(matches!(test.on_tx_tick(ms(505)), FireTxStep::Restart));
    assert!(matches!(test.on_tx_tick(ms(2000)), FireTxStep::Nothing));

    test.on_receive(&buttons(2), ms(2001));
    sent(test.on_tx_tick(ms(2002)));
    assert!(!test.on_tx_outcome(TransmitOutcome::OtherError, ms(2002)));
    sent(test.on_tx_tick(ms(2052)));
    assert!(!test.on_tx_outcome(TransmitOutcome::Sent, ms(2052)));
    assert_eq!(test.tx_runtime_state(), CanTxRuntimeState::Normal);
    assert!(!test.fire_on());
    test.on_receive(&buttons(2), ms(2060));
    assert!(test.fire_on());
}

#[test]
fn the_end_of_time_matters_only_to_a_suspended_probe() {
    let mut test = CanFireTest::new(LOGGER_ID);
    assert!(!test.on_tx_outcome(TransmitOutcome::Sent, u64::MAX));
    assert_eq!(test.status_slot(), 1);
    assert!(test.on_tx_outcome(TransmitOutcome::TimedOut, u64::MAX));
    test.on_receive(&buttons(0), u64::MAX);
    assert!(!test.on_tx_outcome(TransmitOutcome::Sent, u64::MAX));
    assert_eq!(test.tx_runtime_state(), CanTxRuntimeState::Normal);
}

#[test]
fn receive_errors_switch_the_output_off() {
    let mut test = CanFireTest::new(LOGGER_ID);
    test.on_receive(&buttons(2), ms(1));
    assert!(!test.on_receive_error(CanRxError::Other));
    assert!(!test.fire_on());
    assert_eq!(test.tx_runtime_state(), CanTxRuntimeState::Normal);
    test.on_receive(&buttons(2), ms(2));
    assert!(test.on_receive_error(CanRxError::BusOff));
    assert!(!test.fire_on());
    assert_eq!(
        test.tx_runtime_state(),
        CanTxRuntimeState::SuspendedAfterTimeout
    );
}
