//! The bench test of the ignition output: the control panel switches it over the CAN bus.
use vstd::prelude::*;

use crate::can::protocol::{CanDecodeError, GseCanMessage, CAN_ID_BUTTON_FROM_CTRL_PANEL};
use crate::can::protocol;
use crate::can::tx;
use crate::can::tx::{CanFrame, CanTxError, FrameModel, TransmitOutcome};
use crate::tasks::can_communication as link;
use crate::tasks::can_communication::{
    CanRxError, CanTxRuntimeState, FrameId, ReceivedFrame, StatusReport, STATUS_FRAME_COUNT,
};
use crate::tasks::espnow::LogData;
use crate::{time, MAIN_VALVE_CLOSED_ANGLE_X10, OUT_IGNITER};

verus! {

pub const COMMAND_TIMEOUT_MS: u64 = 500;

pub const COMMAND_WATCH_INTERVAL_MS: u64 = 50;

pub const STATUS_TX_INTERVAL_MS: u64 = 50;

pub const CAN_RECOVERY_RETRY_INTERVAL_MS: u64 = 500;

/// The bit of the button byte that stands for firing.
pub const FIRE_BIT: u8 = 0x02;

/// What a transmit tick leads to.
#[derive(Debug)]
pub enum FireTxStep {
    Transmit(CanFrame),
    Restart,
    Nothing,
}

/// The contents of a [`FireTxStep`].
#[verifier::ext_equal]
pub enum FireTxStepModel {
    Transmit(FrameModel),
    Restart,
    Nothing,
}

impl View for FireTxStep {
    type V = FireTxStepModel;

    open spec fn view(&self) -> FireTxStepModel {
        match *self {
            FireTxStep::Transmit(frame) => FireTxStepModel::Transmit(frame@),
            FireTxStep::Restart => FireTxStepModel::Restart,
            FireTxStep::Nothing => FireTxStepModel::Nothing,
        }
    }
}

/// What the test remembers from one event to the next.
pub struct CanFireModel {
    /// The level of the ignition output.
    pub fire_on: bool,
    pub last_valid_command: Option<u64>,
    pub status_slot: u8,
    pub tx_runtime_state: CanTxRuntimeState,
    pub next_restart_at: Option<u64>,
    pub logger_data_id: u16,
}

impl CanFireModel {
    /// The output is on only while frames are sent as usual and a command is on record.
    pub open spec fn wf(self) -> bool {
        &&& self.status_slot < STATUS_FRAME_COUNT
        &&& self.fire_on ==> self.last_valid_command is Some
        &&& self.last_valid_command is Some ==> self.tx_runtime_state == CanTxRuntimeState::Normal
    }

    pub open spec fn not_after(self, now: u64) -> bool {
        self.last_valid_command matches Some(last) ==> last <= now
    }

    /// The output is off, and the command that switched it is forgotten.
    pub open spec fn fire_off(self) -> CanFireModel {
        CanFireModel { fire_on: false, last_valid_command: None, ..self }
    }

    /// Nothing more is sent.
    pub open spec fn suspended(self) -> CanFireModel {
        CanFireModel {
            tx_runtime_state: CanTxRuntimeState::SuspendedAfterTimeout,
            ..self.fire_off()
        }
    }
}

/// The test before the first event.
pub open spec fn initial_fire_test(logger_data_id: u16) -> CanFireModel {
    CanFireModel {
        fire_on: false,
        last_valid_command: None,
        status_slot: 0,
        tx_runtime_state: CanTxRuntimeState::Normal,
        next_restart_at: None,
        logger_data_id,
    }
}

/// The test after a button byte. While sending is not as usual, a command only brings the probe
/// about; the first one after that counts.
pub open spec fn after_button(f: CanFireModel, raw: u8, now: u64) -> CanFireModel {
    match f.tx_runtime_state {
        CanTxRuntimeState::Normal => CanFireModel {
            fire_on: raw & FIRE_BIT != 0,
            last_valid_command: Some(now),
            ..f
        },
        CanTxRuntimeState::SuspendedAfterTimeout => CanFireModel {
            tx_runtime_state: CanTxRuntimeState::ProbePending,
            next_restart_at: None,
            ..f.fire_off()
        },
        CanTxRuntimeState::ProbePending => f.fire_off(),
    }
}

/// The test after a frame. One that should hold the buttons but has another length switches the
/// output off.
pub open spec fn after_frame(f: CanFireModel, id: FrameId, data: Seq<u8>, now: u64) -> CanFireModel {
    match link::button_in(id, data) {
        Some(raw) => after_button(f, raw, now),
        None => if link::broken_button_frame(id, data) {
            f.fire_off()
        } else {
            f
        },
    }
}

pub open spec fn after_rx_error(f: CanFireModel, error: CanRxError) -> CanFireModel {
    if error == CanRxError::BusOff {
        CanFireModel { next_restart_at: None, ..f.suspended() }
    } else {
        f.fire_off()
    }
}

/// The last command is too old to count.
pub open spec fn command_expired(f: CanFireModel, now: u64) -> bool {
    f.last_valid_command matches Some(last) && now - last >= time::ms_to_ticks(COMMAND_TIMEOUT_MS)
}

pub open spec fn after_watch_tick(f: CanFireModel, now: u64) -> CanFireModel {
    if f.fire_on && command_expired(f, now) {
        f.fire_off()
    } else {
        f
    }
}

/// A sample for a board without a data logger.
pub open spec fn empty_sample() -> LogData {
    LogData { start_time: 0, adc0: 0, adc2: 0, adc3: 0, counter: 0 }
}

/// What a status slot reports.
pub open spec fn report_in_slot(slot: u8, fire_on: bool) -> StatusReport {
    let slot = slot % STATUS_FRAME_COUNT;
    if slot == 0 {
        StatusReport::Message(
            GseCanMessage::OutputGpioStatus {
                output_bits: if fire_on {
                    OUT_IGNITER
                } else {
                    0
                },
            },
        )
    } else if slot == 1 {
        StatusReport::Message(GseCanMessage::InputGpioStatus { input_bits: 0 })
    } else if slot == 2 {
        StatusReport::Message(
            GseCanMessage::MainValveAngleToCtrlPanel { angle_x10: MAIN_VALVE_CLOSED_ANGLE_X10 },
        )
    } else if slot == 3 {
        StatusReport::Message(GseCanMessage::InternalStatus { phase: 0, flags: 0 })
    } else {
        StatusReport::Logger(empty_sample())
    }
}

/// The frame of a report, if there is one.
pub open spec fn frame_of_report(report: StatusReport, logger_data_id: u16) -> Option<FrameModel> {
    match report {
        StatusReport::Message(message) => Some(tx::frame_of(message)),
        StatusReport::Logger(sample) => if logger_data_id <= 0x7ff {
            Some(FrameModel { id: logger_data_id, data: tx::logger_payload(sample) })
        } else {
            None
        },
        StatusReport::Nothing => None,
    }
}

/// The frame that is due: the status of the slot, or a probe.
pub open spec fn due_frame(f: CanFireModel) -> Option<FrameModel> {
    match f.tx_runtime_state {
        CanTxRuntimeState::Normal => frame_of_report(
            report_in_slot(f.status_slot, f.fire_on),
            f.logger_data_id,
        ),
        CanTxRuntimeState::SuspendedAfterTimeout => None,
        CanTxRuntimeState::ProbePending => frame_of_report(
            report_in_slot(3, false),
            f.logger_data_id,
        ),
    }
}

/// The time for another restart has come.
pub open spec fn restart_due(f: CanFireModel, now: u64) -> bool {
    &&& f.tx_runtime_state == CanTxRuntimeState::SuspendedAfterTimeout
    &&& f.next_restart_at matches Some(deadline)
    &&& now >= deadline
}

pub open spec fn tx_tick_step(f: CanFireModel, now: u64) -> FireTxStepModel {
    if restart_due(f, now) {
        FireTxStepModel::Restart
    } else {
        match due_frame(f) {
            Some(frame) => FireTxStepModel::Transmit(frame),
            None => FireTxStepModel::Nothing,
        }
    }
}

pub open spec fn after_tx_tick(f: CanFireModel, now: u64) -> CanFireModel {
    if restart_due(f, now) {
        CanFireModel { next_restart_at: None, ..f }
    } else {
        f
    }
}

/// The controller is to be restarted at once: sending was suspended in ordinary operation.
pub open spec fn outcome_restarts(f: CanFireModel, outcome: TransmitOutcome) -> bool {
    &&& f.tx_runtime_state == CanTxRuntimeState::Normal
    &&& tx::transmit_result(outcome) matches Err(error)
    &&& link::suspends(error)
}

/// A pending probe has ended in a way that suspends sending, until the time for another restart.
pub open spec fn probe_suspends(f: CanFireModel, outcome: TransmitOutcome) -> bool {
    &&& f.tx_runtime_state == CanTxRuntimeState::ProbePending
    &&& tx::transmit_result(outcome) matches Err(error)
    &&& link::suspends(error)
}

/// The test after an attempt to send. What fails for a passing reason is tried again.
pub open spec fn after_outcome(f: CanFireModel, outcome: TransmitOutcome, now: u64) -> CanFireModel {
    match (f.tx_runtime_state, tx::transmit_result(outcome)) {
        (CanTxRuntimeState::Normal, Ok(_)) => CanFireModel {
            status_slot: ((f.status_slot + 1) % STATUS_FRAME_COUNT as int) as u8,
            ..f
        },
        (CanTxRuntimeState::Normal, Err(error)) => if link::suspends(error) {
            CanFireModel { next_restart_at: None, ..f.suspended() }
        } else {
            f
        },
        (CanTxRuntimeState::ProbePending, Ok(_)) => CanFireModel {
            tx_runtime_state: CanTxRuntimeState::Normal,
            next_restart_at: None,
            ..f
        },
        (CanTxRuntimeState::ProbePending, Err(error)) => if link::suspends(error) {
            CanFireModel {
                next_restart_at: Some(
                    (now + time::ms_to_ticks(CAN_RECOVERY_RETRY_INTERVAL_MS)) as u64,
                ),
                ..f.suspended()
            }
        } else {
            f
        },
        (CanTxRuntimeState::SuspendedAfterTimeout, _) => f,
    }
}

/// The test, driven by what happens on the bus and by its tickers.
pub struct CanFireTest {
    fire_on: bool,
    last_valid_command: Option<u64>,
    status_slot: u8,
    tx_runtime_state: CanTxRuntimeState,
    next_restart_at: Option<u64>,
    logger_data_id: u16,
}

impl View for CanFireTest {
    type V = CanFireModel;

    closed spec fn view(&self) -> CanFireModel {
        CanFireModel {
            fire_on: self.fire_on,
            last_valid_command: self.last_valid_command,
            status_slot: self.status_slot,
            tx_runtime_state: self.tx_runtime_state,
            next_restart_at: self.next_restart_at,
            logger_data_id: self.logger_data_id,
        }
    }
}

impl CanFireTest {
    /// A test that sends logger samples under the identifier `logger_data_id`.
    pub fn new(logger_data_id: u16) -> (test: Self)
        ensures
            test@.wf(),
            test@ == initial_fire_test(logger_data_id),
    {
        Self {
            fire_on: false,
            last_valid_command: None,
            status_slot: 0,
            tx_runtime_state: CanTxRuntimeState::Normal,
            next_restart_at: None,
            logger_data_id,
        }
    }

    /// The level that the ignition output is to be driven to.
    pub fn fire_on(&self) -> (on: bool)
        ensures
            on == self@.fire_on,
    {
        self.fire_on
    }

    pub fn tx_runtime_state(&self) -> (state: CanTxRuntimeState)
        ensures
            state == self@.tx_runtime_state,
    {
        self.tx_runtime_state
    }

    /// The status slot that is reported next.
    pub fn status_slot(&self) -> (slot: u8)
        ensures
            slot == self@.status_slot,
    {
        self.status_slot
    }

    fn force_fire_off(&mut self)
        ensures
            final(self)@ == old(self)@.fire_off(),
    {
        self.fire_on = false;
        self.last_valid_command = None;
    }

    fn suspend_tx(&mut self)
        ensures
            final(self)@ == old(self)@.suspended(),
    {
        self.tx_runtime_state = CanTxRuntimeState::SuspendedAfterTimeout;
        self.force_fire_off();
    }

    /// A frame has arrived.
    pub fn on_receive(&mut self, frame: &ReceivedFrame, now: u64)
        requires
            old(self)@.wf(),
        ensures
            final(self)@.wf(),
            final(self)@ == after_frame(old(self)@, frame.id, frame.data@, now),
    {
        let id: u16 = match frame.id {
            FrameId::Standard(id) => id,
            FrameId::Extended(_) => {
                return;
            },
        };
        match GseCanMessage::decode_standard(id, frame.data.as_slice()) {
            Ok(GseCanMessage::ButtonFromCtrlPanel { raw }) => {
                if self.tx_runtime_state == CanTxRuntimeState::SuspendedAfterTimeout {
                    self.tx_runtime_state = CanTxRuntimeState::ProbePending;
                    self.next_restart_at = None;
                }
                if self.tx_runtime_state != CanTxRuntimeState::Normal {
                    self.force_fire_off();
                } else {
                    self.last_valid_command = Some(now);
                    self.fire_on = raw & FIRE_BIT != 0;
                }
            },
            Err(CanDecodeError::InvalidDlc { id: invalid_id, .. }) => {
                if invalid_id == CAN_ID_BUTTON_FROM_CTRL_PANEL {
                    self.force_fire_off();
                }
            },
            _ => {},
        }
    }

    /// Receiving has failed. Tells whether to restart the controller.
    pub fn on_receive_error(&mut self, error: CanRxError) -> (restart: bool)
        requires
            old(self)@.wf(),
        ensures
            final(self)@.wf(),
            restart == (error == CanRxError::BusOff),
            final(self)@ == after_rx_error(old(self)@, error),
    {
        self.force_fire_off();
        if error == CanRxError::BusOff {
            self.suspend_tx();
            self.next_restart_at = None;
            return true;
        }
        false
    }

    /// The command watch ticks.
    pub fn on_watch_tick(&mut self, now: u64)
        requires
            old(self)@.wf(),
            old(self)@.not_after(now),
        ensures
            final(self)@.wf(),
            final(self)@ == after_watch_tick(old(self)@, now),
    {
        if let Some(last) = self.last_valid_command {
            if self.fire_on && time::duration_since(now, last) >= time::duration_from_millis(
                COMMAND_TIMEOUT_MS,
            ) {
                self.force_fire_off();
            }
        }
    }

    fn frame_of(report: StatusReport, logger_data_id: u16) -> (frame: Option<CanFrame>)
        ensures
            match frame {
                Some(frame) => frame_of_report(report, logger_data_id) == Some(frame@),
                None => frame_of_report(report, logger_data_id) is None,
            },
    {
        let frame = match report {
            StatusReport::Message(message) => tx::create_frame_from_message(message),
            StatusReport::Logger(sample) => tx::create_logger_frame(logger_data_id, sample),
            StatusReport::Nothing => return None,
        };
        match frame {
            Ok(frame) => Some(frame),
            Err(_) => None,
        }
    }

    fn status_message(slot: u8, fire_on: bool) -> (report: StatusReport)
        ensures
            report == report_in_slot(slot, fire_on),
    {
        match slot % STATUS_FRAME_COUNT {
            0 => StatusReport::Message(
                GseCanMessage::OutputGpioStatus {
                    output_bits: if fire_on {
                        OUT_IGNITER
                    } else {
                        0
                    },
                },
            ),
            1 => StatusReport::Message(GseCanMessage::InputGpioStatus { input_bits: 0 }),
            2 => StatusReport::Message(
                GseCanMessage::MainValveAngleToCtrlPanel { angle_x10: MAIN_VALVE_CLOSED_ANGLE_X10 },
            ),
            3 => StatusReport::Message(GseCanMessage::InternalStatus { phase: 0, flags: 0 }),
            _ => StatusReport::Logger(
                LogData { start_time: 0, adc0: 0, adc2: 0, adc3: 0, counter: 0 },
            ),
        }
    }

    /// The transmit ticker ticks. A frame that comes out of it is to be sent, and its outcome
    /// reported.
    pub fn on_tx_tick(&mut self, now: u64) -> (step: FireTxStep)
        requires
            old(self)@.wf(),
        ensures
            final(self)@.wf(),
            step@ == tx_tick_step(old(self)@, now),
            final(self)@ == after_tx_tick(old(self)@, now),
    {
        let report = match self.tx_runtime_state {
            CanTxRuntimeState::Normal => Self::status_message(self.status_slot, self.fire_on),
            CanTxRuntimeState::SuspendedAfterTimeout => {
                if let Some(deadline) = self.next_restart_at {
                    if now >= deadline {
                        self.next_restart_at = None;
                        return FireTxStep::Restart;
                    }
                }
                return FireTxStep::Nothing;
            },
            CanTxRuntimeState::ProbePending => Self::status_message(3, false),
        };
        match Self::frame_of(report, self.logger_data_id) {
            Some(frame) => FireTxStep::Transmit(frame),
            None => FireTxStep::Nothing,
        }
    }

    /// The attempt to send the frame of the last transmit tick has ended. Tells whether to restart
    /// the controller.
    pub fn on_tx_outcome(&mut self, outcome: TransmitOutcome, now: u64) -> (restart: bool)
        requires
            old(self)@.wf(),
            probe_suspends(old(self)@, outcome) ==> now + time::ms_to_ticks(
                CAN_RECOVERY_RETRY_INTERVAL_MS,
            ) <= u64::MAX,
        ensures
            final(self)@.wf(),
            restart == outcome_restarts(old(self)@, outcome),
            final(self)@ == after_outcome(old(self)@, outcome, now),
    {
        let result = tx::classify_transmit(outcome);
        match self.tx_runtime_state {
            CanTxRuntimeState::Normal => match result {
                Ok(()) => {
                    self.status_slot = (self.status_slot + 1) % STATUS_FRAME_COUNT;
                    false
                },
                Err(error) => {
                    if Self::tx_error_suspends(error) {
                        self.suspend_tx();
                        self.next_restart_at = None;
                        true
                    } else {
                        false
                    }
                },
            },
            CanTxRuntimeState::SuspendedAfterTimeout => false,
            CanTxRuntimeState::ProbePending => {
                match result {
                    Ok(()) => {
                        self.tx_runtime_state = CanTxRuntimeState::Normal;
                        self.next_restart_at = None;
                    },
                    Err(error) => {
                        if Self::tx_error_suspends(error) {
                            self.suspend_tx();
                            self.next_restart_at = Some(
                                now + time::duration_from_millis(CAN_RECOVERY_RETRY_INTERVAL_MS),
                            );
                        }
                    },
                }
                false
            },
        }
    }

    fn tx_error_suspends(error: CanTxError) -> (suspends: bool)
        ensures
            suspends == link::suspends(error),
    {
        match error {
            CanTxError::TimedOutUnknownState | CanTxError::BusOff => true,
            CanTxError::FrameCreateFailed | CanTxError::TransmitFailed
            | CanTxError::TxInhibited => false,
        }
    }
}

/// Something that happens to the test.
pub enum FireEvent {
    Receive { id: FrameId, data: Seq<u8>, now: u64 },
    ReceiveError(CanRxError),
    WatchTick { now: u64 },
    TxTick { now: u64 },
    TxOutcome { outcome: TransmitOutcome, now: u64 },
}

pub open spec fn after_event(f: CanFireModel, event: FireEvent) -> CanFireModel {
    match event {
        FireEvent::Receive { id, data, now } => after_frame(f, id, data, now),
        FireEvent::ReceiveError(error) => after_rx_error(f, error),
        FireEvent::WatchTick { now } => after_watch_tick(f, now),
        FireEvent::TxTick { now } => after_tx_tick(f, now),
        FireEvent::TxOutcome { outcome, now } => after_outcome(f, outcome, now),
    }
}

/// Every event keeps the test well formed.
pub proof fn law_fire_test_stays_well_formed(f: CanFireModel, event: FireEvent)
    requires
        f.wf(),
    ensures
        after_event(f, event).wf(),
{
}

/// While frames are sent as usual, the output follows the fire bit of each button frame.
pub proof fn law_output_follows_the_fire_bit(f: CanFireModel, id: FrameId, data: Seq<u8>, now: u64)
    requires
        f.tx_runtime_state == CanTxRuntimeState::Normal,
        link::button_in(id, data) is Some,
    ensures
        after_frame(f, id, data, now).fire_on == (link::button_in(id, data)->0 & FIRE_BIT != 0),
{
}

/// Nothing but a button frame with the fire bit, while frames are sent as usual, switches the
/// output on.
pub proof fn law_only_a_command_fires(f: CanFireModel, event: FireEvent)
    requires
        !f.fire_on,
        after_event(f, event).fire_on,
    ensures
        f.tx_runtime_state == CanTxRuntimeState::Normal,
        event matches FireEvent::Receive { id, data, .. } && link::button_in(
            id,
            data,
        ) matches Some(raw) && raw & FIRE_BIT != 0,
{
}

/// The output is off after the first watch tick at which the last command is as old as the command
/// timeout; before that a watch tick changes nothing.
pub proof fn law_old_command_expires(f: CanFireModel, now: u64)
    requires
        f.wf(),
    ensures
        f.last_valid_command matches Some(last) && now - last >= time::ms_to_ticks(
            COMMAND_TIMEOUT_MS,
        ) ==> !after_watch_tick(f, now).fire_on,
        f.last_valid_command matches Some(last) && now - last < time::ms_to_ticks(
            COMMAND_TIMEOUT_MS,
        ) ==> after_watch_tick(f, now) == f,
{
}

/// A timeout or a bus-off, while sending or receiving, switches the output off and stops the status
/// frames.
pub proof fn law_link_failure_stops_the_test(f: CanFireModel, event: FireEvent)
    requires
        f.tx_runtime_state != CanTxRuntimeState::SuspendedAfterTimeout,
        event == FireEvent::ReceiveError(CanRxError::BusOff) || (
        event matches FireEvent::TxOutcome { outcome, .. } && (outcome == TransmitOutcome::TimedOut
            || outcome == TransmitOutcome::BusOff)),
    ensures
        !after_event(f, event).fire_on,
        after_event(f, event).tx_runtime_state == CanTxRuntimeState::SuspendedAfterTimeout,
{
}

/// While sending is suspended, nothing is sent, and only a button frame brings a probe about.
pub proof fn law_suspension_waits_for_the_panel(f: CanFireModel, event: FireEvent, now: u64)
    requires
        f.tx_runtime_state == CanTxRuntimeState::SuspendedAfterTimeout,
    ensures
        tx_tick_step(f, now) !is Transmit,
        after_event(f, event).tx_runtime_state == if event matches FireEvent::Receive { id, data, .. }
            && link::button_in(id, data) is Some {
            CanTxRuntimeState::ProbePending
        } else {
            CanTxRuntimeState::SuspendedAfterTimeout
        },
{
}

/// Only a probe that goes through brings ordinary sending back; the output stays off until the
/// next command.
pub proof fn law_probe_resumes_the_test(f: CanFireModel, event: FireEvent)
    requires
        f.wf(),
        f.tx_runtime_state == CanTxRuntimeState::ProbePending,
    ensures
        !after_event(f, event).fire_on,
        after_event(f, event).tx_runtime_state == CanTxRuntimeState::Normal <==> (
        event matches FireEvent::TxOutcome { outcome, .. } && outcome == TransmitOutcome::Sent),
{
}

/// What fails to be sent for a passing reason is the next to be sent again.
pub proof fn law_failed_frame_is_sent_again(f: CanFireModel, now: u64)
    ensures
        after_outcome(f, TransmitOutcome::OtherError, now) == f,
{
}

/// A frame is a command exactly if it is a standard frame with the identifier of the buttons and one
/// byte. Such a frame of another length switches the output off, and every other frame changes
/// nothing.
pub proof fn law_frames_that_count(f: CanFireModel, id: FrameId, data: Seq<u8>, now: u64)
    ensures
        ({
            let after = after_frame(f, id, data, now);
            if id == FrameId::Standard(0x001) {
                &&& data.len() != 1 ==> after == f.fire_off()
                &&& data.len() == 1 && f.tx_runtime_state == CanTxRuntimeState::Normal ==> after
                    == (CanFireModel {
                    fire_on: data[0] & 0x02 != 0,
                    last_valid_command: Some(now),
                    ..f
                })
                &&& data.len() == 1 && f.tx_runtime_state != CanTxRuntimeState::Normal
                    ==> !after.fire_on && after.last_valid_command is None
                    && after.tx_runtime_state == CanTxRuntimeState::ProbePending
            } else {
                after == f
            }
        }),
        !f.fire_off().fire_on,
        f.fire_off().last_valid_command is None,
        f.fire_off().tx_runtime_state == f.tx_runtime_state,
        f.fire_off().status_slot == f.status_slot,
{
}

/// The output is switched off half a second after the last command, by the first watch tick from then
/// on.
pub proof fn law_command_lasts_half_a_second(f: CanFireModel, last: u64, now: u64)
    requires
        f.fire_on,
        f.last_valid_command == Some(last),
        last <= now,
    ensures
        after_watch_tick(f, now).fire_on <==> now - last < 500_000,
{
}

/// The status frames tell of a board on the bench: the igniter by the output, no inputs, a closed
/// valve, no phase and no fault, and a sample of nothing. A probe tells of no phase and no fault.
pub proof fn law_bench_status_frames(f: CanFireModel, now: u64)
    requires
        f.wf(),
        f.tx_runtime_state != CanTxRuntimeState::SuspendedAfterTimeout,
        f.logger_data_id <= 0x7ff,
    ensures
        ({
            let slot = if f.tx_runtime_state == CanTxRuntimeState::ProbePending {
                3
            } else {
                f.status_slot as int
            };
            tx_tick_step(f, now) matches FireTxStepModel::Transmit(frame) && {
                &&& slot == 0 ==> frame.id == 0x103 && frame.data == seq![
                    if f.fire_on {
                        0x10u8
                    } else {
                        0
                    },
                ]
                &&& slot == 1 ==> frame.id == 0x104 && frame.data == seq![0u8]
                &&& slot == 2 ==> frame.id == 0x101 && frame.data.len() == 2 && frame.data[0] + 256
                    * frame.data[1] == 552
                &&& slot == 3 ==> frame.id == 0x105 && frame.data == seq![0u8, 0u8]
                &&& slot == 4 ==> frame.id == f.logger_data_id && frame.data == seq![
                    0u8,
                    0u8,
                    0u8,
                    0u8,
                    0u8,
                    0u8,
                    0u8,
                    0u8,
                ]
            }
        }),
        after_tx_tick(f, now) == f,
{
    protocol::law_messages_carry_their_values(
        GseCanMessage::MainValveAngleToCtrlPanel { angle_x10: MAIN_VALVE_CLOSED_ANGLE_X10 },
    );
    if f.tx_runtime_state == CanTxRuntimeState::Normal && f.status_slot == 4 {
        let frame = tx_tick_step(f, now)->Transmit_0;
        assert(frame.data =~= seq![0u8, 0u8, 0u8, 0u8, 0u8, 0u8, 0u8, 0u8]);
    }
}

/// What an attempt to send leads to: a frame that went out makes way for the next of five slots, a
/// probe that went out brings ordinary sending back, and a timeout or a bus-off asks for a restart,
/// at once in ordinary operation, and half a second later after a probe.
pub proof fn law_attempts_of_the_bench(
    f: CanFireModel,
    outcome: TransmitOutcome,
    now: u64,
    later: u64,
)
    requires
        f.wf(),
        f.tx_runtime_state != CanTxRuntimeState::SuspendedAfterTimeout,
        now + 500_000 <= u64::MAX,
    ensures
        ({
            let after = after_outcome(f, outcome, now);
            let usual = f.tx_runtime_state == CanTxRuntimeState::Normal;
            let fails = outcome == TransmitOutcome::TimedOut || outcome == TransmitOutcome::BusOff;
            &&& outcome_restarts(f, outcome) <==> usual && fails
            &&& after.status_slot == if usual && outcome == TransmitOutcome::Sent {
                (f.status_slot + 1) % 5
            } else {
                f.status_slot as int
            }
            &&& !usual && fails ==> (tx_tick_step(after, later) == FireTxStepModel::Restart
                <==> later >= now + 500_000)
            &&& usual && fails ==> tx_tick_step(after, later) == FireTxStepModel::Nothing
            &&& !fails ==> after.fire_on == f.fire_on && after.last_valid_command
                == f.last_valid_command
        }),
{
}

/// A restart that was due is done once.
pub proof fn law_due_restart_is_done_once(f: CanFireModel, now: u64, later: u64)
    requires
        tx_tick_step(f, now) == FireTxStepModel::Restart,
    ensures
        tx_tick_step(after_tx_tick(f, now), later) == FireTxStepModel::Nothing,
        after_tx_tick(f, now).tx_runtime_state == CanTxRuntimeState::SuspendedAfterTimeout,
        after_tx_tick(f, now).fire_on == f.fire_on,
{
}

/// Every error while receiving switches the output off; a bus-off suspends sending as well.
pub proof fn law_receive_errors_of_the_bench(f: CanFireModel, error: CanRxError)
    ensures
        ({
            let after = after_rx_error(f, error);
            &&& !after.fire_on && after.last_valid_command is None
            &&& after.tx_runtime_state == if error == CanRxError::BusOff {
                CanTxRuntimeState::SuspendedAfterTimeout
            } else {
                f.tx_runtime_state
            }
            &&& after.status_slot == f.status_slot
        }),
{
}

} // verus!
