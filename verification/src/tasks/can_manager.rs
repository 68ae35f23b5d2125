//! The decisions of the CAN manager from one event to the next.
use vstd::prelude::*;

use crate::board::{BoardModel, BoardState};
use crate::can::health::CanHealth;
use crate::can::protocol::GseCanMessage;
use crate::can::tx::{CanFrame, CanTxError, FrameModel, TransmitOutcome};
use crate::can::{health, tx};
use crate::tasks::can_communication as link;
use crate::tasks::can_communication::{
    CanErrorCounters, CanTxRuntimeState, FrameId, ReceivedFrame, StatusReport, STATUS_FRAME_COUNT,
};
use crate::CAN_PEER_LOST;

verus! {

/// What to do with the controller once an event is dealt with.
#[derive(Clone, Copy, Debug, PartialEq, Eq, Structural)]
pub enum FollowUp {
    /// Wait for the next event.
    Continue,
    /// Stop and start the controller.
    Restart,
    /// Wait for the health monitor interval: a restart was tried already.
    Pause,
}

/// What a transmit tick leads to.
#[derive(Debug)]
pub enum TxStep {
    Transmit(CanFrame),
    Done(FollowUp),
}

/// The contents of a [`TxStep`].
#[verifier::ext_equal]
pub enum TxStepModel {
    Transmit(FrameModel),
    Done(FollowUp),
}

impl View for TxStep {
    type V = TxStepModel;

    open spec fn view(&self) -> TxStepModel {
        match *self {
            TxStep::Transmit(frame) => TxStepModel::Transmit(frame@),
            TxStep::Done(follow_up) => TxStepModel::Done(follow_up),
        }
    }
}

/// What the manager remembers from one event to the next.
pub struct CanManagerModel {
    pub start: u64,
    pub last_peer_rx: Option<u64>,
    pub restart_attempted: bool,
    pub tx_runtime_state: CanTxRuntimeState,
    pub status_slot: u8,
    pub reset_ack_prev: bool,
    pub logger_data_id: u16,
}

impl CanManagerModel {
    pub open spec fn wf(self) -> bool {
        self.status_slot < STATUS_FRAME_COUNT
    }

    /// Nothing on record lies after `now`.
    pub open spec fn not_after(self, now: u64) -> bool {
        self.start <= now && (self.last_peer_rx matches Some(last_rx) ==> last_rx <= now)
    }
}

/// The manager and the board that it works on.
#[verifier::ext_equal]
pub struct LinkModel {
    pub manager: CanManagerModel,
    pub board: BoardModel,
}

impl LinkModel {
    pub open spec fn tx(self) -> CanTxRuntimeState {
        self.manager.tx_runtime_state
    }

    pub open spec fn with_tx(self, tx_runtime_state: CanTxRuntimeState) -> LinkModel {
        LinkModel { manager: CanManagerModel { tx_runtime_state, ..self.manager }, ..self }
    }

    pub open spec fn with_board(self, board: BoardModel) -> LinkModel {
        LinkModel { board, ..self }
    }
}

/// Before an event: a link that works again may be restarted again.
pub open spec fn after_begin(l: LinkModel) -> LinkModel {
    LinkModel {
        manager: CanManagerModel {
            restart_attempted: l.manager.restart_attempted && !(l.board.can_health
                != health::byte_of_health(CanHealth::BusOff) && l.tx()
                == CanTxRuntimeState::Normal),
            ..l.manager
        },
        ..l
    }
}

/// The controller is restarted once; after that it is left alone for a while.
pub open spec fn follow_up(l: LinkModel, try_restart: bool) -> FollowUp {
    if !try_restart {
        FollowUp::Continue
    } else if l.manager.restart_attempted {
        FollowUp::Pause
    } else {
        FollowUp::Restart
    }
}

pub open spec fn after_follow_up(l: LinkModel, try_restart: bool) -> LinkModel {
    LinkModel {
        manager: CanManagerModel {
            restart_attempted: l.manager.restart_attempted || try_restart,
            ..l.manager
        },
        ..l
    }
}

/// The frame shows that the control panel is alive.
pub open spec fn shows_panel(id: FrameId, data: Seq<u8>, counters: CanErrorCounters) -> bool {
    link::button_in(id, data) is Some && !counters.bus_off
}

pub open spec fn after_receive(
    l: LinkModel,
    id: FrameId,
    data: Seq<u8>,
    counters: CanErrorCounters,
    now: u64,
) -> LinkModel {
    let alive = shows_panel(id, data, counters);
    LinkModel {
        manager: CanManagerModel {
            reset_ack_prev: match link::button_in(id, data) {
                Some(raw) => raw & link::BUTTON_RESET_ACK_BIT != 0,
                None => l.manager.reset_ack_prev,
            },
            last_peer_rx: if alive {
                Some(now)
            } else {
                l.manager.last_peer_rx
            },
            tx_runtime_state: if alive && l.tx() == CanTxRuntimeState::SuspendedAfterTimeout {
                CanTxRuntimeState::ProbePending
            } else {
                l.tx()
            },
            ..l.manager
        },
        board: link::after_frame(
            link::after_health(l.board, counters),
            id,
            data,
            health::health_of(counters.tec, counters.rec, counters.bus_off),
            l.manager.reset_ack_prev,
            l.tx(),
        ),
    }
}

/// The health is measured; a bus that is off suspends sending.
pub open spec fn after_bus_check(l: LinkModel, counters: CanErrorCounters) -> LinkModel {
    let measured = l.with_board(link::after_health(l.board, counters));
    if counters.bus_off {
        after_follow_up(measured.with_tx(CanTxRuntimeState::SuspendedAfterTimeout), true)
    } else {
        measured
    }
}

pub open spec fn after_liveness(l: LinkModel, now: u64) -> LinkModel {
    if link::peer_silent(l.manager.start, l.manager.last_peer_rx, now) {
        l.with_board(link::after_link_fault(l.board, CAN_PEER_LOST))
    } else {
        l
    }
}

/// The next status slot.
pub open spec fn after_slot(l: LinkModel) -> LinkModel {
    LinkModel {
        manager: CanManagerModel {
            status_slot: ((l.manager.status_slot + 1) % STATUS_FRAME_COUNT as int) as u8,
            ..l.manager
        },
        ..l
    }
}

/// The frame that is to be sent now, if there is one to send.
pub open spec fn due_frame(l: LinkModel) -> Option<FrameModel> {
    match l.tx() {
        CanTxRuntimeState::Normal => match link::report_in_slot(l.board, l.manager.status_slot) {
            StatusReport::Message(message) => Some(tx::frame_of(message)),
            StatusReport::Logger(sample) => if l.manager.logger_data_id <= 0x7ff {
                Some(
                    FrameModel {
                        id: l.manager.logger_data_id,
                        data: tx::logger_payload(sample),
                    },
                )
            } else {
                None
            },
            StatusReport::Nothing => None,
        },
        CanTxRuntimeState::SuspendedAfterTimeout => None,
        CanTxRuntimeState::ProbePending => Some(tx::frame_of(link::internal_status(l.board))),
    }
}

/// A tick without a frame: an empty slot is passed over, and a logger frame that cannot be made is
/// a fault.
pub open spec fn after_no_frame(l: LinkModel, counters: CanErrorCounters) -> LinkModel {
    match l.tx() {
        CanTxRuntimeState::Normal => match link::report_in_slot(l.board, l.manager.status_slot) {
            StatusReport::Nothing => after_slot(l),
            _ => l.with_board(
                link::after_tx_error(l.board, CanTxError::FrameCreateFailed, counters),
            ),
        },
        _ => l,
    }
}

pub open spec fn after_tx_tick(l: LinkModel, counters: CanErrorCounters, now: u64) -> LinkModel {
    let checked = after_bus_check(after_liveness(l, now), counters);
    if counters.bus_off || due_frame(checked) is Some {
        checked
    } else {
        after_no_frame(checked, counters)
    }
}

pub open spec fn tx_tick_step(l: LinkModel, counters: CanErrorCounters, now: u64) -> TxStepModel {
    let checked = after_bus_check(after_liveness(l, now), counters);
    if counters.bus_off {
        TxStepModel::Done(follow_up(l, true))
    } else {
        match due_frame(checked) {
            Some(frame) => TxStepModel::Transmit(frame),
            None => TxStepModel::Done(FollowUp::Continue),
        }
    }
}

/// The attempt to send failed in a way that asks for a restart.
pub open spec fn outcome_restarts(l: LinkModel, outcome: TransmitOutcome) -> bool {
    &&& l.tx() != CanTxRuntimeState::SuspendedAfterTimeout
    &&& tx::transmit_result(outcome) matches Err(error)
    &&& link::suspends(error)
}

pub open spec fn after_outcome(
    l: LinkModel,
    outcome: TransmitOutcome,
    counters: CanErrorCounters,
) -> LinkModel {
    let try_restart = outcome_restarts(l, outcome);
    match (l.tx(), tx::transmit_result(outcome)) {
        (CanTxRuntimeState::Normal, Ok(_)) => after_slot(l),
        (CanTxRuntimeState::Normal, Err(error)) => {
            let noted = l.with_board(link::after_tx_error(l.board, error, counters));
            if link::suspends(error) {
                after_follow_up(noted.with_tx(CanTxRuntimeState::SuspendedAfterTimeout), true)
            } else {
                noted
            }
        },
        (CanTxRuntimeState::ProbePending, Ok(_)) => l.with_tx(CanTxRuntimeState::Normal),
        (CanTxRuntimeState::ProbePending, Err(error)) => after_follow_up(
            l.with_board(
                link::after_inhibit(link::after_tx_error(l.board, error, counters)),
            ).with_tx(CanTxRuntimeState::SuspendedAfterTimeout),
            try_restart,
        ),
        (CanTxRuntimeState::SuspendedAfterTimeout, _) => l,
    }
}

/// What a manager that starts at `start` remembers.
pub open spec fn initial_manager(start: u64, logger_data_id: u16) -> CanManagerModel {
    CanManagerModel {
        start,
        last_peer_rx: None,
        restart_attempted: false,
        tx_runtime_state: CanTxRuntimeState::Normal,
        status_slot: 0,
        reset_ack_prev: false,
        logger_data_id,
    }
}

/// Decides what happens on the CAN link.
pub struct CanManager {
    start: u64,
    last_peer_rx: Option<u64>,
    restart_attempted: bool,
    tx_runtime_state: CanTxRuntimeState,
    status_slot: u8,
    reset_ack_prev: bool,
    logger_data_id: u16,
}

impl View for CanManager {
    type V = CanManagerModel;

    closed spec fn view(&self) -> CanManagerModel {
        CanManagerModel {
            start: self.start,
            last_peer_rx: self.last_peer_rx,
            restart_attempted: self.restart_attempted,
            tx_runtime_state: self.tx_runtime_state,
            status_slot: self.status_slot,
            reset_ack_prev: self.reset_ack_prev,
            logger_data_id: self.logger_data_id,
        }
    }
}

impl CanManager {
    /// A manager that starts at time `start` on a controller with the error counters `counters`,
    /// and sends logger samples under the identifier `logger_data_id`.
    pub fn new(
        board: &mut BoardState,
        start: u64,
        logger_data_id: u16,
        counters: CanErrorCounters,
    ) -> (manager: Self)
        ensures
            manager@ == initial_manager(start, logger_data_id),
            final(board)@ == link::after_health(old(board)@, counters),
    {
        link::update_can_health(board, counters);
        Self {
            start,
            last_peer_rx: None,
            restart_attempted: false,
            tx_runtime_state: CanTxRuntimeState::Normal,
            status_slot: 0,
            reset_ack_prev: false,
            logger_data_id,
        }
    }

    /// To be called before each event.
    pub fn begin(&mut self, board: &BoardState)
        ensures
            (LinkModel { manager: final(self)@, board: board@ }) == after_begin(
                LinkModel { manager: old(self)@, board: board@ },
            ),
    {
        if board.can_health != CanHealth::BusOff.as_u8() && self.tx_runtime_state
            == CanTxRuntimeState::Normal {
            self.restart_attempted = false;
        }
    }

    /// A frame has arrived.
    pub fn on_receive(
        &mut self,
        board: &mut BoardState,
        frame: &ReceivedFrame,
        counters: CanErrorCounters,
        now: u64,
    )
        ensures
            (LinkModel { manager: final(self)@, board: final(board)@ }) == after_receive(
                LinkModel { manager: old(self)@, board: old(board)@ },
                frame.id,
                frame.data@,
                counters,
                now,
            ),
    {
        let health = link::update_can_health(board, counters);
        if link::handle_received_frame(
            board,
            frame,
            health,
            &mut self.reset_ack_prev,
            self.tx_runtime_state,
        ) {
            self.last_peer_rx = Some(now);
            if self.tx_runtime_state == CanTxRuntimeState::SuspendedAfterTimeout {
                self.tx_runtime_state = CanTxRuntimeState::ProbePending;
            }
        }
    }

    /// An error while receiving has been recorded, and the receive queue cleared if need be.
    pub fn after_receive_error(&mut self, board: &mut BoardState, counters: CanErrorCounters) -> (
        next: FollowUp)
        ensures
            next == follow_up(
                LinkModel { manager: old(self)@, board: old(board)@ },
                counters.bus_off,
            ),
            (LinkModel { manager: final(self)@, board: final(board)@ }) == after_bus_check(
                LinkModel { manager: old(self)@, board: old(board)@ },
                counters,
            ),
    {
        let mut try_restart = false;
        if link::update_can_health(board, counters) == CanHealth::BusOff {
            self.tx_runtime_state = CanTxRuntimeState::SuspendedAfterTimeout;
            try_restart = true;
        }
        self.finish(try_restart)
    }

    /// The health monitor ticks.
    pub fn on_health_tick(
        &mut self,
        board: &mut BoardState,
        counters: CanErrorCounters,
        now: u64,
    ) -> (next: FollowUp)
        requires
            old(self)@.not_after(now),
        ensures
            next == follow_up(
                LinkModel { manager: old(self)@, board: old(board)@ },
                counters.bus_off,
            ),
            (LinkModel { manager: final(self)@, board: final(board)@ }) == after_bus_check(
                after_liveness(LinkModel { manager: old(self)@, board: old(board)@ }, now),
                counters,
            ),
    {
        link::update_peer_liveness(board, self.start, self.last_peer_rx, now);
        self.after_receive_error(board, counters)
    }

    /// The transmit ticker ticks. A frame that comes out of it is to be sent, and its outcome
    /// reported.
    pub fn on_tx_tick(
        &mut self,
        board: &mut BoardState,
        counters: CanErrorCounters,
        now: u64,
    ) -> (step: TxStep)
        requires
            old(self)@.wf(),
            old(self)@.not_after(now),
        ensures
            final(self)@.wf(),
            step@ == tx_tick_step(
                LinkModel { manager: old(self)@, board: old(board)@ },
                counters,
                now,
            ),
            (LinkModel { manager: final(self)@, board: final(board)@ }) == after_tx_tick(
                LinkModel { manager: old(self)@, board: old(board)@ },
                counters,
                now,
            ),
    {
        link::update_peer_liveness(board, self.start, self.last_peer_rx, now);
        let health = link::update_can_health(board, counters);
        if health == CanHealth::BusOff {
            self.tx_runtime_state = CanTxRuntimeState::SuspendedAfterTimeout;
            return TxStep::Done(self.finish(true));
        }
        match self.tx_runtime_state {
            CanTxRuntimeState::Normal => {
                let tx_allowed = link::can_tx_allowed(board, self.tx_runtime_state, false);
                match link::status_report(board, self.status_slot) {
                    StatusReport::Message(message) => self.transmit(
                        board,
                        Self::message_frame(message),
                        tx_allowed,
                        counters,
                    ),
                    StatusReport::Logger(sample) => self.transmit(
                        board,
                        Self::frame_or_none(tx::create_logger_frame(self.logger_data_id, sample)),
                        tx_allowed,
                        counters,
                    ),
                    StatusReport::Nothing => {
                        self.status_slot = (self.status_slot + 1) % STATUS_FRAME_COUNT;
                        TxStep::Done(FollowUp::Continue)
                    },
                }
            },
            CanTxRuntimeState::SuspendedAfterTimeout => TxStep::Done(FollowUp::Continue),
            CanTxRuntimeState::ProbePending => {
                let tx_allowed = link::can_tx_allowed(board, self.tx_runtime_state, true);
                let message = link::internal_status_message(board);
                self.transmit(board, Self::message_frame(message), tx_allowed, counters)
            },
        }
    }

    fn message_frame(message: GseCanMessage) -> (frame: Option<CanFrame>)
        ensures
            frame matches Some(frame) && frame@ == tx::frame_of(message),
    {
        Self::frame_or_none(tx::create_frame_from_message(message))
    }

    fn frame_or_none(frame: Result<CanFrame, tx::CanFrameError>) -> (some_frame: Option<CanFrame>)
        ensures
            some_frame == match frame {
                Ok(frame) => Some(frame),
                Err(_) => None,
            },
    {
        match frame {
            Ok(frame) => Some(frame),
            Err(_) => None,
        }
    }

    /// Hands out a frame, or records that it could not be made. Nothing happens while sending is
    /// inhibited.
    fn transmit(
        &mut self,
        board: &mut BoardState,
        frame: Option<CanFrame>,
        tx_allowed: bool,
        counters: CanErrorCounters,
    ) -> (step: TxStep)
        ensures
            final(self)@ == old(self)@,
            step@ == match frame {
                Some(frame) if tx_allowed => TxStepModel::Transmit(frame@),
                _ => TxStepModel::Done(FollowUp::Continue),
            },
            final(board)@ == if tx_allowed && frame is None {
                link::after_tx_error(old(board)@, CanTxError::FrameCreateFailed, counters)
            } else {
                old(board)@
            },
    {
        if !tx_allowed {
            return TxStep::Done(FollowUp::Continue);
        }
        match frame {
            Some(frame) => TxStep::Transmit(frame),
            None => {
                link::record_tx_error(board, CanTxError::FrameCreateFailed, counters);
                TxStep::Done(FollowUp::Continue)
            },
        }
    }

    /// The attempt to send the frame of the last transmit tick has ended.
    pub fn on_tx_outcome(
        &mut self,
        board: &mut BoardState,
        outcome: TransmitOutcome,
        counters: CanErrorCounters,
    ) -> (next: FollowUp)
        requires
            old(self)@.wf(),
        ensures
            final(self)@.wf(),
            next == ({
                let l = LinkModel { manager: old(self)@, board: old(board)@ };
                follow_up(l, outcome_restarts(l, outcome))
            }),
            (LinkModel { manager: final(self)@, board: final(board)@ }) == after_outcome(
                LinkModel { manager: old(self)@, board: old(board)@ },
                outcome,
                counters,
            ),
    {
        let result = tx::classify_transmit(outcome);
        let mut try_restart = false;
        match self.tx_runtime_state {
            CanTxRuntimeState::Normal => match result {
                Ok(()) => {
                    self.status_slot = (self.status_slot + 1) % STATUS_FRAME_COUNT;
                },
                Err(error) => {
                    link::record_tx_error(board, error, counters);
                    try_restart = link::handle_normal_tx_error(error, &mut self.tx_runtime_state);
                },
            },
            CanTxRuntimeState::SuspendedAfterTimeout => {},
            CanTxRuntimeState::ProbePending => match result {
                Ok(()) => {
                    self.tx_runtime_state = CanTxRuntimeState::Normal;
                },
                Err(error) => {
                    link::record_tx_error(board, error, counters);
                    try_restart =
                    link::handle_probe_tx_error(board, error, &mut self.tx_runtime_state);
                },
            },
        }
        self.finish(try_restart)
    }

    fn finish(&mut self, try_restart: bool) -> (next: FollowUp)
        ensures
            next == if !try_restart {
                FollowUp::Continue
            } else if old(self)@.restart_attempted {
                FollowUp::Pause
            } else {
                FollowUp::Restart
            },
            final(self)@ == (CanManagerModel {
                restart_attempted: old(self)@.restart_attempted || try_restart,
                ..old(self)@
            }),
    {
        if !try_restart {
            FollowUp::Continue
        } else if !self.restart_attempted {
            self.restart_attempted = true;
            FollowUp::Restart
        } else {
            FollowUp::Pause
        }
    }
}

} // verus!
