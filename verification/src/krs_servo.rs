//! The half-duplex serial protocol of the valve servo.
use vstd::prelude::*;
use vstd::slice::slice_subrange;

use crate::{SERVO_MAX_POS, SERVO_MIN_POS};

verus! {

pub const MAX_ID: u8 = 31;

/// How long a reply may take, in microseconds.
pub const REPLY_TIMEOUT_US: u64 = 100000;

pub const RX_POLL_INTERVAL_US: u64 = 100;

/// Flushing may end before the last stop bit has left the line. At 115200 baud a bit takes about
/// 8.7 us.
pub const ICS_TX_TURNAROUND_DELAY_US: u32 = 20;

/// The servo is left alone for this long after it has told its identifier.
pub const GET_ID_SETTLE_US: u32 = 520000;

#[derive(Clone, Copy, Debug, PartialEq, Eq, Structural)]
pub enum IcsError {
    InvalidId,
    PositionOutOfRange,
    CommunicationError,
    ParameterError,
    TimeoutError,
}

#[derive(Clone, Copy, Debug, PartialEq, Eq, Structural)]
pub enum IcsCommand {
    SetPos,
    SetFree,
    GetId,
    GetSpd,
    GetPos,
}

/// How far an exchange with the servo has come.
#[derive(Clone, Copy, Debug, PartialEq, Eq)]
pub enum IcsStage {
    Idle,
    /// Wait until the line is quiet.
    Synchronize,
    /// Throw away what is left of an earlier exchange.
    DiscardStale,
    StartSending,
    Send,
    FinishSending,
    Turnaround,
    /// Throw away the command that came back over the shared line.
    DiscardEcho,
    StartListening,
    Listen,
    ListenPause,
    Settle,
    Done(Result<(), IcsError>),
}

/// What the line has to do next.
#[derive(Clone, Copy, Debug, PartialEq, Eq, Structural)]
pub enum IcsAction {
    /// Nothing: no exchange is going on.
    Rest,
    /// Wait until everything written has left.
    Flush,
    /// Read and drop what is there, if anything is.
    Discard,
    /// Drive the enable pin: high to send, low to listen.
    SetEnable(bool),
    /// Write what is left of the command.
    Write,
    /// Wait without giving up the processor.
    DelayMicros(u32),
    /// Read at most so many bytes, if any are there.
    Read(usize),
    /// Wait before looking again.
    PauseMicros(u64),
}

/// What came of an action.
#[derive(Debug)]
pub enum IcsEvent {
    Done,
    /// Nothing was there to read.
    Nothing,
    Discarded(usize),
    Written(usize),
    Received(Vec<u8>),
    Failed,
}

/// The upper and the lower seven bits of a position.
pub open spec fn position_bytes(pos: u16) -> (u8, u8) {
    ((pos / 128 % 128) as u8, (pos % 128) as u8)
}

/// The position in the lower seven bits of two bytes.
pub open spec fn position_of_bytes(high: u8, low: u8) -> u16 {
    ((high % 128) * 128 + low % 128) as u16
}

pub open spec fn reply_len(command: IcsCommand) -> nat {
    match command {
        IcsCommand::SetPos => 3,
        IcsCommand::SetFree => 3,
        IcsCommand::GetId => 1,
        IcsCommand::GetSpd => 3,
        IcsCommand::GetPos => 4,
    }
}

/// What a whole reply says.
pub open spec fn reply_of(command: IcsCommand, rx: Seq<u8>) -> u16 {
    match command {
        IcsCommand::SetPos => position_of_bytes(rx[1], rx[2]),
        IcsCommand::SetFree => position_of_bytes(rx[1], rx[2]),
        IcsCommand::GetId => (rx[0] % 32) as u16,
        IcsCommand::GetSpd => rx[2] as u16,
        IcsCommand::GetPos => position_of_bytes(rx[2], rx[3]),
    }
}

/// An exchange with the servo.
#[verifier::ext_equal]
pub struct IcsModel {
    pub command: IcsCommand,
    pub tx: Seq<u8>,
    pub sent: nat,
    pub rx: Seq<u8>,
    pub listening_since: u64,
    pub stage: IcsStage,
    /// The level of the enable pin.
    pub sending: bool,
}

impl IcsModel {
    /// The command is on its way out, or is about to be.
    pub open spec fn before_reply(self) -> bool {
        ||| self.stage == IcsStage::Synchronize
        ||| self.stage == IcsStage::DiscardStale
        ||| self.stage == IcsStage::StartSending
        ||| self.stage == IcsStage::Send
        ||| self.stage == IcsStage::FinishSending
        ||| self.stage == IcsStage::Turnaround
        ||| self.stage == IcsStage::DiscardEcho
        ||| self.stage == IcsStage::StartListening
    }

    /// Nothing of the command has been written yet.
    pub open spec fn before_sending(self) -> bool {
        ||| self.stage == IcsStage::Synchronize
        ||| self.stage == IcsStage::DiscardStale
        ||| self.stage == IcsStage::StartSending
    }

    pub open spec fn listening(self) -> bool {
        self.stage == IcsStage::Listen || self.stage == IcsStage::ListenPause
    }

    /// The reply is all there.
    pub open spec fn answered(self) -> bool {
        self.stage == IcsStage::Settle || self.stage matches IcsStage::Done(Ok(_))
    }

    pub open spec fn wf(self) -> bool {
        &&& self.sent <= self.tx.len()
        &&& self.tx.len() <= 4
        &&& self.rx.len() <= reply_len(self.command)
        &&& self.before_reply() ==> self.rx.len() == 0
        &&& self.before_sending() ==> self.sent == 0 && self.tx.len() > 0
        &&& self.stage == IcsStage::Send ==> self.sending && self.sent < self.tx.len()
        &&& self.stage == IcsStage::FinishSending || self.stage == IcsStage::Turnaround
            || self.stage == IcsStage::DiscardEcho || self.stage == IcsStage::StartListening
            ==> self.sending
        &&& !self.before_sending() && self.before_reply() && self.stage != IcsStage::Send
            ==> self.sent == self.tx.len()
        &&& self.listening() ==> !self.sending && self.sent == self.tx.len() && self.rx.len()
            < reply_len(self.command)
        &&& self.answered() ==> !self.sending && self.sent == self.tx.len() && self.rx.len()
            == reply_len(self.command)
    }

    /// The event is one that the line can report: it has not written or read more than it was
    /// asked to, and time does not run backwards.
    pub open spec fn admits(self, event: IcsEvent, now: u64) -> bool {
        &&& event matches IcsEvent::Written(n) ==> n <= self.tx.len() - self.sent
        &&& event matches IcsEvent::Received(bytes) ==> bytes@.len() <= reply_len(self.command)
            - self.rx.len()
        &&& self.listening_since <= now
    }

    /// What is left of the command.
    pub open spec fn unsent(self) -> Seq<u8> {
        self.tx.skip(self.sent as int)
    }

    pub open spec fn to(self, stage: IcsStage) -> IcsModel {
        IcsModel { stage, ..self }
    }
}

/// Why a command to servo `id`, with the position `pos` if it has one, is refused.
pub open spec fn refusal(command: IcsCommand, id: u8, pos: u16) -> Option<IcsError> {
    if command != IcsCommand::GetId && id > MAX_ID {
        Some(IcsError::InvalidId)
    } else if command == IcsCommand::SetPos && !(SERVO_MIN_POS <= pos <= SERVO_MAX_POS) {
        Some(IcsError::PositionOutOfRange)
    } else {
        None
    }
}

/// The bytes of a command to servo `id`, with the position `pos` if it has one.
pub open spec fn command_bytes(command: IcsCommand, id: u8, pos: u16) -> Seq<u8> {
    match command {
        IcsCommand::SetPos => seq![
            (0x80 + id) as u8,
            position_bytes(pos).0,
            position_bytes(pos).1,
        ],
        IcsCommand::SetFree => seq![(0x80 + id) as u8, 0u8, 0u8],
        IcsCommand::GetId => seq![0xffu8, 0x00u8, 0x00u8, 0x00u8],
        IcsCommand::GetSpd => seq![(0xa0 + id) as u8, 0x02u8],
        IcsCommand::GetPos => seq![(0xa0 + id) as u8, 0x05u8],
    }
}

/// What has come of an exchange, once it has ended.
pub open spec fn outcome_of(d: IcsModel) -> Option<Result<u16, IcsError>> {
    match d.stage {
        IcsStage::Done(Ok(_)) => Some(Ok(reply_of(d.command, d.rx))),
        IcsStage::Done(Err(error)) => Some(Err(error)),
        _ => None,
    }
}

/// Before the first exchange: nothing sent, nothing received, and the enable pin low.
pub open spec fn idle_device() -> IcsModel {
    IcsModel {
        command: IcsCommand::GetPos,
        tx: Seq::empty(),
        sent: 0,
        rx: Seq::empty(),
        listening_since: 0,
        stage: IcsStage::Idle,
        sending: false,
    }
}

/// A new exchange, on a line that is left as it was.
pub open spec fn started(d: IcsModel, command: IcsCommand, tx: Seq<u8>) -> IcsModel {
    IcsModel {
        command,
        tx,
        sent: 0,
        rx: Seq::empty(),
        listening_since: 0,
        stage: IcsStage::Synchronize,
        sending: d.sending,
    }
}

pub open spec fn action_of(d: IcsModel) -> IcsAction {
    match d.stage {
        IcsStage::Idle => IcsAction::Rest,
        IcsStage::Synchronize => IcsAction::Flush,
        IcsStage::DiscardStale => IcsAction::Discard,
        IcsStage::StartSending => IcsAction::SetEnable(true),
        IcsStage::Send => IcsAction::Write,
        IcsStage::FinishSending => IcsAction::Flush,
        IcsStage::Turnaround => IcsAction::DelayMicros(ICS_TX_TURNAROUND_DELAY_US),
        IcsStage::DiscardEcho => IcsAction::Discard,
        IcsStage::StartListening => IcsAction::SetEnable(false),
        IcsStage::Listen => IcsAction::Read((reply_len(d.command) - d.rx.len()) as usize),
        IcsStage::ListenPause => IcsAction::PauseMicros(RX_POLL_INTERVAL_US),
        IcsStage::Settle => IcsAction::DelayMicros(GET_ID_SETTLE_US),
        IcsStage::Done(_) => IcsAction::Rest,
    }
}

/// Bytes were thrown away: that goes on until none are left.
pub open spec fn after_discard(d: IcsModel, event: IcsEvent, next: IcsStage) -> IcsModel {
    match event {
        IcsEvent::Nothing => d.to(next),
        IcsEvent::Discarded(n) => if n == 0 {
            d.to(next)
        } else {
            d
        },
        IcsEvent::Failed => d.to(IcsStage::Done(Err(IcsError::CommunicationError))),
        _ => d,
    }
}

pub open spec fn after_write(d: IcsModel, n: usize) -> IcsModel {
    if n == 0 {
        d.to(IcsStage::Done(Err(IcsError::CommunicationError)))
    } else {
        IcsModel {
            sent: d.sent + n as nat,
            stage: if d.sent + n == d.tx.len() {
                IcsStage::FinishSending
            } else {
                IcsStage::Send
            },
            ..d
        }
    }
}

pub open spec fn after_bytes(d: IcsModel, bytes: Seq<u8>) -> IcsModel {
    IcsModel {
        rx: d.rx + bytes,
        stage: if d.rx.len() + bytes.len() < reply_len(d.command) {
            IcsStage::Listen
        } else if d.command == IcsCommand::GetId {
            IcsStage::Settle
        } else {
            IcsStage::Done(Ok(()))
        },
        ..d
    }
}

/// No byte has come: the exchange waits a little, or gives up.
pub open spec fn after_silence(d: IcsModel, now: u64) -> IcsModel {
    if now - d.listening_since >= REPLY_TIMEOUT_US {
        d.to(IcsStage::Done(Err(IcsError::TimeoutError)))
    } else {
        d.to(IcsStage::ListenPause)
    }
}

/// The exchange after an event. One that does not answer the action changes nothing.
pub open spec fn after_event(d: IcsModel, event: IcsEvent, now: u64) -> IcsModel {
    match d.stage {
        IcsStage::Idle => d,
        IcsStage::Synchronize => match event {
            IcsEvent::Done => d.to(IcsStage::DiscardStale),
            IcsEvent::Failed => d.to(IcsStage::Done(Err(IcsError::CommunicationError))),
            _ => d,
        },
        IcsStage::DiscardStale => after_discard(d, event, IcsStage::StartSending),
        IcsStage::StartSending => match event {
            IcsEvent::Done => IcsModel { sending: true, ..d.to(IcsStage::Send) },
            _ => d,
        },
        IcsStage::Send => match event {
            IcsEvent::Written(n) => after_write(d, n),
            IcsEvent::Failed => d.to(IcsStage::Done(Err(IcsError::CommunicationError))),
            _ => d,
        },
        IcsStage::FinishSending => match event {
            IcsEvent::Done => d.to(IcsStage::Turnaround),
            IcsEvent::Failed => d.to(IcsStage::Done(Err(IcsError::CommunicationError))),
            _ => d,
        },
        IcsStage::Turnaround => match event {
            IcsEvent::Done => d.to(IcsStage::DiscardEcho),
            _ => d,
        },
        IcsStage::DiscardEcho => after_discard(d, event, IcsStage::StartListening),
        IcsStage::StartListening => match event {
            IcsEvent::Done => IcsModel {
                sending: false,
                listening_since: now,
                ..d.to(IcsStage::Listen)
            },
            _ => d,
        },
        IcsStage::Listen => match event {
            IcsEvent::Nothing => after_silence(d, now),
            IcsEvent::Received(bytes) => if bytes@.len() == 0 {
                after_silence(d, now)
            } else {
                after_bytes(d, bytes@)
            },
            IcsEvent::Failed => d.to(IcsStage::Done(Err(IcsError::CommunicationError))),
            _ => d,
        },
        IcsStage::ListenPause => match event {
            IcsEvent::Done => d.to(IcsStage::Listen),
            _ => d,
        },
        IcsStage::Settle => match event {
            IcsEvent::Done => d.to(IcsStage::Done(Ok(()))),
            _ => d,
        },
        IcsStage::Done(_) => d,
    }
}

/// The servo as seen over its line: one command at a time is sent and its reply collected.
pub struct IcsDevice {
    command: IcsCommand,
    tx: Vec<u8>,
    sent: usize,
    rx: Vec<u8>,
    listening_since: u64,
    stage: IcsStage,
    sending: bool,
}

impl View for IcsDevice {
    type V = IcsModel;

    closed spec fn view(&self) -> IcsModel {
        IcsModel {
            command: self.command,
            tx: self.tx@,
            sent: self.sent as nat,
            rx: self.rx@,
            listening_since: self.listening_since,
            stage: self.stage,
            sending: self.sending,
        }
    }
}

impl IcsDevice {
    /// A device on a line whose enable pin is low.
    pub fn new() -> (device: Self)
        ensures
            device@.wf(),
            device@ == idle_device(),
    {
        Self {
            command: IcsCommand::GetPos,
            tx: Vec::new(),
            sent: 0,
            rx: Vec::new(),
            listening_since: 0,
            stage: IcsStage::Idle,
            sending: false,
        }
    }

    pub fn check_id(id: u8) -> (checked: Result<u8, IcsError>)
        ensures
            checked == if id > MAX_ID {
                Err::<u8, IcsError>(IcsError::InvalidId)
            } else {
                Ok(id)
            },
    {
        if id > MAX_ID {
            Err(IcsError::InvalidId)
        } else {
            Ok(id)
        }
    }

    /// A position outside the servo's range is refused, not moved into it.
    pub fn clip_pos(pos: u16) -> (checked: Result<u16, IcsError>)
        ensures
            checked == if SERVO_MIN_POS <= pos <= SERVO_MAX_POS {
                Ok::<u16, IcsError>(pos)
            } else {
                Err(IcsError::PositionOutOfRange)
            },
    {
        if pos < SERVO_MIN_POS || pos > SERVO_MAX_POS {
            return Err(IcsError::PositionOutOfRange);
        }
        Ok(pos)
    }

    fn start(&mut self, command: IcsCommand, tx: Vec<u8>)
        requires
            0 < tx@.len() <= 4,
        ensures
            final(self)@ == started(old(self)@, command, tx@),
            final(self)@.wf(),
    {
        self.command = command;
        self.tx = tx;
        self.sent = 0;
        self.rx = Vec::new();
        self.listening_since = 0;
        self.stage = IcsStage::Synchronize;
    }

    /// Starts to move the servo to `pos`. The reply is the position that it is at.
    pub fn set_pos(&mut self, id: u8, pos: u16) -> (checked: Result<(), IcsError>)
        ensures
            checked == match refusal(IcsCommand::SetPos, id, pos) {
                Some(error) => Err::<(), IcsError>(error),
                None => Ok(()),
            },
            checked is Err ==> final(self)@ == old(self)@,
            checked is Ok ==> final(self)@.wf() && final(self)@ == started(
                old(self)@,
                IcsCommand::SetPos,
                command_bytes(IcsCommand::SetPos, id, pos),
            ),
    {
        let valid_id = match Self::check_id(id) {
            Ok(id) => id,
            Err(error) => return Err(error),
        };
        let valid_pos = match Self::clip_pos(pos) {
            Ok(pos) => pos,
            Err(error) => return Err(error),
        };
        let tx_cmd: Vec<u8> = vec![
            0x80 + valid_id,
            (valid_pos / 128 % 128) as u8,
            (valid_pos % 128) as u8,
        ];
        assert(tx_cmd@ == seq![(0x80 + id) as u8, position_bytes(pos).0, position_bytes(pos).1]);
        self.start(IcsCommand::SetPos, tx_cmd);
        Ok(())
    }

    /// Starts to let the servo go. The reply is the position that it is at.
    pub fn set_free(&mut self, id: u8) -> (checked: Result<(), IcsError>)
        ensures
            checked == match refusal(IcsCommand::SetFree, id, 0) {
                Some(error) => Err::<(), IcsError>(error),
                None => Ok(()),
            },
            checked is Err ==> final(self)@ == old(self)@,
            checked is Ok ==> final(self)@.wf() && final(self)@ == started(
                old(self)@,
                IcsCommand::SetFree,
                command_bytes(IcsCommand::SetFree, id, 0),
            ),
    {
        let valid_id = match Self::check_id(id) {
            Ok(id) => id,
            Err(error) => return Err(error),
        };
        let tx_cmd: Vec<u8> = vec![0x80 + valid_id, 0, 0];
        assert(tx_cmd@ == seq![(0x80 + id) as u8, 0u8, 0u8]);
        self.start(IcsCommand::SetFree, tx_cmd);
        Ok(())
    }

    /// Starts to ask for the identifier of the servo.
    pub fn get_id(&mut self)
        ensures
            final(self)@.wf(),
            final(self)@ == started(
                old(self)@,
                IcsCommand::GetId,
                command_bytes(IcsCommand::GetId, 0, 0),
            ),
    {
        let tx_cmd: Vec<u8> = vec![0xff, 0x00, 0x00, 0x00];
        assert(tx_cmd@ == seq![0xffu8, 0x00u8, 0x00u8, 0x00u8]);
        self.start(IcsCommand::GetId, tx_cmd);
    }

    /// Starts to ask for the speed setting.
    pub fn get_spd(&mut self, id: u8) -> (checked: Result<(), IcsError>)
        ensures
            checked == match refusal(IcsCommand::GetSpd, id, 0) {
                Some(error) => Err::<(), IcsError>(error),
                None => Ok(()),
            },
            checked is Err ==> final(self)@ == old(self)@,
            checked is Ok ==> final(self)@.wf() && final(self)@ == started(
                old(self)@,
                IcsCommand::GetSpd,
                command_bytes(IcsCommand::GetSpd, id, 0),
            ),
    {
        let valid_id = match Self::check_id(id) {
            Ok(id) => id,
            Err(error) => return Err(error),
        };
        let tx_cmd: Vec<u8> = vec![0xa0 + valid_id, 0x02];
        assert(tx_cmd@ == seq![(0xa0 + id) as u8, 0x02u8]);
        self.start(IcsCommand::GetSpd, tx_cmd);
        Ok(())
    }

    /// Starts to ask for the position. Servos understand this from version 3.6 of the protocol on.
    pub fn get_pos(&mut self, id: u8) -> (checked: Result<(), IcsError>)
        ensures
            checked == match refusal(IcsCommand::GetPos, id, 0) {
                Some(error) => Err::<(), IcsError>(error),
                None => Ok(()),
            },
            checked is Err ==> final(self)@ == old(self)@,
            checked is Ok ==> final(self)@.wf() && final(self)@ == started(
                old(self)@,
                IcsCommand::GetPos,
                command_bytes(IcsCommand::GetPos, id, 0),
            ),
    {
        let valid_id = match Self::check_id(id) {
            Ok(id) => id,
            Err(error) => return Err(error),
        };
        let tx_cmd: Vec<u8> = vec![0xa0 + valid_id, 0x05];
        assert(tx_cmd@ == seq![(0xa0 + id) as u8, 0x05u8]);
        self.start(IcsCommand::GetPos, tx_cmd);
        Ok(())
    }

    fn expected(&self) -> (len: usize)
        ensures
            len == reply_len(self@.command),
    {
        match self.command {
            IcsCommand::SetPos | IcsCommand::SetFree | IcsCommand::GetSpd => 3,
            IcsCommand::GetId => 1,
            IcsCommand::GetPos => 4,
        }
    }

    /// What the line has to do next.
    pub fn action(&self) -> (action: IcsAction)
        requires
            self@.wf(),
        ensures
            action == action_of(self@),
    {
        match self.stage {
            IcsStage::Idle => IcsAction::Rest,
            IcsStage::Synchronize => IcsAction::Flush,
            IcsStage::DiscardStale => IcsAction::Discard,
            IcsStage::StartSending => IcsAction::SetEnable(true),
            IcsStage::Send => IcsAction::Write,
            IcsStage::FinishSending => IcsAction::Flush,
            IcsStage::Turnaround => IcsAction::DelayMicros(ICS_TX_TURNAROUND_DELAY_US),
            IcsStage::DiscardEcho => IcsAction::Discard,
            IcsStage::StartListening => IcsAction::SetEnable(false),
            IcsStage::Listen => IcsAction::Read(self.expected() - self.rx.len()),
            IcsStage::ListenPause => IcsAction::PauseMicros(RX_POLL_INTERVAL_US),
            IcsStage::Settle => IcsAction::DelayMicros(GET_ID_SETTLE_US),
            IcsStage::Done(_) => IcsAction::Rest,
        }
    }

    /// What is left of the command.
    pub fn unsent(&self) -> (bytes: &[u8])
        requires
            self@.wf(),
        ensures
            bytes@ == self@.unsent(),
    {
        slice_subrange(self.tx.as_slice(), self.sent, self.tx.len())
    }

    fn discard(&mut self, event: IcsEvent, next: IcsStage)
        ensures
            final(self)@ == after_discard(old(self)@, event, next),
    {
        match event {
            IcsEvent::Nothing => {
                self.stage = next;
            },
            IcsEvent::Discarded(n) => {
                if n == 0 {
                    self.stage = next;
                }
            },
            IcsEvent::Failed => {
                self.stage = IcsStage::Done(Err(IcsError::CommunicationError));
            },
            _ => {},
        }
    }

    fn send(&mut self, event: IcsEvent)
        requires
            old(self)@.wf(),
            old(self)@.stage == IcsStage::Send,
            old(self)@.admits(event, u64::MAX),
        ensures
            final(self)@ == after_event(old(self)@, event, u64::MAX),
    {
        match event {
            IcsEvent::Written(n) => {
                if n == 0 {
                    self.stage = IcsStage::Done(Err(IcsError::CommunicationError));
                } else {
                    self.sent = self.sent + n;
                    if self.sent == self.tx.len() {
                        self.stage = IcsStage::FinishSending;
                    }
                }
            },
            IcsEvent::Failed => {
                self.stage = IcsStage::Done(Err(IcsError::CommunicationError));
            },
            _ => {},
        }
    }

    fn wait_for_reply(&mut self, now: u64)
        requires
            old(self)@.listening_since <= now,
        ensures
            final(self)@ == after_silence(old(self)@, now),
    {
        if now - self.listening_since >= REPLY_TIMEOUT_US {
            self.stage = IcsStage::Done(Err(IcsError::TimeoutError));
        } else {
            self.stage = IcsStage::ListenPause;
        }
    }

    fn listen(&mut self, event: IcsEvent, now: u64)
        requires
            old(self)@.wf(),
            old(self)@.stage == IcsStage::Listen,
            old(self)@.admits(event, now),
        ensures
            final(self)@ == after_event(old(self)@, event, now),
    {
        match event {
            IcsEvent::Nothing => self.wait_for_reply(now),
            IcsEvent::Received(bytes) => {
                if bytes.len() == 0 {
                    self.wait_for_reply(now);
                } else {
                    let mut bytes = bytes;
                    self.rx.append(&mut bytes);
                    if self.rx.len() == self.expected() {
                        self.stage = if self.command == IcsCommand::GetId {
                            IcsStage::Settle
                        } else {
                            IcsStage::Done(Ok(()))
                        };
                    }
                }
            },
            IcsEvent::Failed => {
                self.stage = IcsStage::Done(Err(IcsError::CommunicationError));
            },
            _ => {},
        }
    }

    /// Takes in what came of the action, at `now` microseconds.
    pub fn advance(&mut self, event: IcsEvent, now: u64)
        requires
            old(self)@.wf(),
            old(self)@.admits(event, now),
        ensures
            final(self)@.wf(),
            final(self)@ == after_event(old(self)@, event, now),
    {
        let done = match event {
            IcsEvent::Done => true,
            _ => false,
        };
        let failed = match event {
            IcsEvent::Failed => true,
            _ => false,
        };
        match self.stage {
            IcsStage::Idle | IcsStage::Done(_) => {},
            IcsStage::Synchronize => {
                if done {
                    self.stage = IcsStage::DiscardStale;
                } else if failed {
                    self.stage = IcsStage::Done(Err(IcsError::CommunicationError));
                }
            },
            IcsStage::DiscardStale => self.discard(event, IcsStage::StartSending),
            IcsStage::StartSending => {
                if done {
                    self.sending = true;
                    self.stage = IcsStage::Send;
                }
            },
            IcsStage::Send => self.send(event),
            IcsStage::FinishSending => {
                if done {
                    self.stage = IcsStage::Turnaround;
                } else if failed {
                    self.stage = IcsStage::Done(Err(IcsError::CommunicationError));
                }
            },
            IcsStage::Turnaround => {
                if done {
                    self.stage = IcsStage::DiscardEcho;
                }
            },
            IcsStage::DiscardEcho => self.discard(event, IcsStage::StartListening),
            IcsStage::StartListening => {
                if done {
                    self.sending = false;
                    self.listening_since = now;
                    self.stage = IcsStage::Listen;
                }
            },
            IcsStage::Listen => self.listen(event, now),
            IcsStage::ListenPause => {
                if done {
                    self.stage = IcsStage::Listen;
                }
            },
            IcsStage::Settle => {
                if done {
                    self.stage = IcsStage::Done(Ok(()));
                }
            },
        }
    }

    fn position(high: u8, low: u8) -> (pos: u16)
        ensures
            pos == position_of_bytes(high, low),
    {
        (high % 128) as u16 * 128 + (low % 128) as u16
    }

    /// The reply, or why there is none, once the exchange has ended.
    pub fn outcome(&self) -> (outcome: Option<Result<u16, IcsError>>)
        requires
            self@.wf(),
        ensures
            outcome == outcome_of(self@),
    {
        match self.stage {
            IcsStage::Done(Ok(())) => Some(
                Ok(
                    match self.command {
                        IcsCommand::SetPos | IcsCommand::SetFree => Self::position(
                            self.rx[1],
                            self.rx[2],
                        ),
                        IcsCommand::GetId => (self.rx[0] % 32) as u16,
                        IcsCommand::GetSpd => self.rx[2] as u16,
                        IcsCommand::GetPos => Self::position(self.rx[2], self.rx[3]),
                    },
                ),
            ),
            IcsStage::Done(Err(error)) => Some(Err(error)),
            _ => None,
        }
    }
}

/// A position of the servo's range is told exactly: two bytes, each with the top bit clear, from
/// which it is read back.
pub proof fn law_position_is_read_back(pos: u16)
    requires
        pos <= SERVO_MAX_POS,
    ensures
        position_bytes(pos).0 < 128,
        position_bytes(pos).1 < 128,
        position_of_bytes(position_bytes(pos).0, position_bytes(pos).1) == pos,
{
}

/// Only the first byte of a command to one servo has its top bit set.
pub proof fn law_command_byte_is_marked(id: u8)
    requires
        id <= MAX_ID,
    ensures
        128 <= 0x80 + id < 0xa0 <= 0xa0 + id < 0xff,
{
}

/// Every event keeps an exchange well formed.
pub proof fn law_exchange_stays_well_formed(d: IcsModel, event: IcsEvent, now: u64)
    requires
        d.wf(),
        d.admits(event, now),
    ensures
        after_event(d, event, now).wf(),
{
}

/// An exchange that ends well has sent its whole command, has read a whole reply, and leaves the
/// enable pin low.
pub proof fn law_success_is_complete(d: IcsModel)
    requires
        d.wf(),
        d.stage matches IcsStage::Done(Ok(_)),
    ensures
        d.sent == d.tx.len(),
        d.rx.len() == reply_len(d.command),
        !d.sending,
{
}

/// The command is written only while the enable pin is high, and the reply read only while it is
/// low.
pub proof fn law_line_is_half_duplex(d: IcsModel)
    requires
        d.wf(),
    ensures
        action_of(d) == IcsAction::Write ==> d.sending,
        action_of(d) is Read ==> !d.sending,
{
}

/// The bytes of the command leave in order, each once: what is left after a write is what was left
/// before it, without the bytes that were written.
pub proof fn law_bytes_leave_in_order(d: IcsModel, n: usize, now: u64)
    requires
        d.wf(),
        d.stage == IcsStage::Send,
        0 < n,
        d.admits(IcsEvent::Written(n), now),
    ensures
        ({
            let after = after_event(d, IcsEvent::Written(n), now);
            &&& after.unsent() == d.unsent().skip(n as int)
            &&& after.tx == d.tx
        }),
{
}

/// A reply that stays away ends the exchange with a timeout, exactly once the time is up.
pub proof fn law_silence_times_out(d: IcsModel, now: u64)
    requires
        d.stage == IcsStage::Listen,
        d.listening_since <= now,
    ensures
        after_event(d, IcsEvent::Nothing, now).stage == IcsStage::Done(Err(IcsError::TimeoutError))
            <==> now - d.listening_since >= REPLY_TIMEOUT_US,
{
}

/// An exchange that has ended stays as it is.
pub proof fn law_end_is_final(d: IcsModel, event: IcsEvent, now: u64)
    requires
        d.stage is Done,
    ensures
        after_event(d, event, now) == d,
{
}

/// The two bytes of a position are its upper and its lower seven bits, in that order.
pub proof fn law_position_is_split_high_byte_first(pos: u16)
    requires
        pos <= 0x3fff,
    ensures
        128 * position_bytes(pos).0 + position_bytes(pos).1 == pos,
        position_bytes(pos).1 < 128,
{
}

/// What a reply says: after a command to move, to let go or to ask for the position, the position
/// whose upper and lower seven bits are in the last two bytes, high byte first and with their top
/// bits ignored; after a question for the identifier, the lower five bits of the only byte; after a
/// question for the speed, the last byte.
pub proof fn law_replies_are_read(command: IcsCommand, rx: Seq<u8>, high: u8, low: u8)
    requires
        rx.len() == reply_len(command),
        high < 128,
        low < 128,
    ensures
        match command {
            IcsCommand::SetPos => rx.len() == 3 && (rx[1] % 128 == high && rx[2] % 128 == low
                ==> reply_of(command, rx) == 128 * high + low),
            IcsCommand::SetFree => rx.len() == 3 && (rx[1] % 128 == high && rx[2] % 128 == low
                ==> reply_of(command, rx) == 128 * high + low),
            IcsCommand::GetPos => rx.len() == 4 && (rx[2] % 128 == high && rx[3] % 128 == low
                ==> reply_of(command, rx) == 128 * high + low),
            IcsCommand::GetId => rx.len() == 1 && reply_of(command, rx) < 32 && (rx[0] - reply_of(
                command,
                rx,
            )) % 32 == 0,
            IcsCommand::GetSpd => rx.len() == 3 && reply_of(command, rx) == rx[2],
        },
{
}

/// An exchange whose last bytes complete a reply that carries `pos`, high byte first, ends with
/// `pos`: the servo's position is read back as it was sent.
pub proof fn law_exchange_ends_with_the_position(
    d: IcsModel,
    bytes: Vec<u8>,
    pos: u16,
    now: u64,
)
    requires
        d.wf(),
        d.stage == IcsStage::Listen,
        d.admits(IcsEvent::Received(bytes), now),
        d.command == IcsCommand::SetPos || d.command == IcsCommand::SetFree || d.command
            == IcsCommand::GetPos,
        d.rx.len() + bytes@.len() == reply_len(d.command),
        bytes@.len() > 0,
        pos <= 0x3fff,
        ({
            let reply = d.rx + bytes@;
            let n = reply.len() as int;
            reply[n - 2] == pos / 128 && reply[n - 1] == pos % 128
        }),
    ensures
        outcome_of(after_event(d, IcsEvent::Received(bytes), now)) == Some(
            Ok::<u16, IcsError>(pos),
        ),
{
}

/// A command is refused exactly for an identifier over 31 or, if it moves the servo, a position out
/// of its range, and the refusal tells which.
pub proof fn law_refusals(command: IcsCommand, id: u8, pos: u16)
    ensures
        command == IcsCommand::GetId ==> refusal(command, id, pos) is None,
        command != IcsCommand::GetId ==> (refusal(command, id, pos) == Some(IcsError::InvalidId)
            <==> id >= 32),
        refusal(command, id, pos) == Some(IcsError::PositionOutOfRange) <==> command
            == IcsCommand::SetPos && id < 32 && (pos < 3500 || pos > 11500),
        command != IcsCommand::SetPos && id < 32 ==> refusal(command, id, pos) is None,
        id < 32 && 3500 <= pos <= 11500 ==> refusal(command, id, pos) is None,
{
}

/// What a command says: its first byte holds the kind of the command above the identifier, and the
/// bytes after it the position or the item that is asked for.
pub proof fn law_commands_are_written(command: IcsCommand, id: u8, pos: u16)
    requires
        id < 32,
        pos <= 0x3fff,
    ensures
        ({
            let tx = command_bytes(command, id, pos);
            match command {
                IcsCommand::SetPos => tx.len() == 3 && tx[0] == 0x80 + id && tx[1] < 128 && tx[2]
                    < 128 && 128 * tx[1] + tx[2] == pos,
                IcsCommand::SetFree => tx.len() == 3 && tx[0] == 0x80 + id && tx[1] == 0 && tx[2]
                    == 0,
                IcsCommand::GetId => tx == seq![0xffu8, 0u8, 0u8, 0u8],
                IcsCommand::GetSpd => tx.len() == 2 && tx[0] == 0xa0 + id && tx[1] == 2,
                IcsCommand::GetPos => tx.len() == 2 && tx[0] == 0xa0 + id && tx[1] == 5,
            }
        }),
{
}

/// On a quiet line an exchange goes its way: the line is flushed and emptied, the enable pin goes
/// high, the whole command is written and flushed, the echo is thrown away after a short delay, the
/// enable pin goes low, and the whole reply is awaited from that moment on.
pub proof fn law_quiet_exchange(d: IcsModel, command: IcsCommand, tx: Seq<u8>, now: u64)
    requires
        0 < tx.len() <= 4,
    ensures
        ({
            let d0 = started(d, command, tx);
            let d1 = after_event(d0, IcsEvent::Done, now);
            let d2 = after_event(d1, IcsEvent::Nothing, now);
            let d3 = after_event(d2, IcsEvent::Done, now);
            let d4 = after_event(d3, IcsEvent::Written(tx.len() as usize), now);
            let d5 = after_event(d4, IcsEvent::Done, now);
            let d6 = after_event(d5, IcsEvent::Done, now);
            let d7 = after_event(d6, IcsEvent::Nothing, now);
            let d8 = after_event(d7, IcsEvent::Done, now);
            &&& action_of(d0) == IcsAction::Flush
            &&& action_of(d1) == IcsAction::Discard
            &&& action_of(d2) == IcsAction::SetEnable(true)
            &&& action_of(d3) == IcsAction::Write && d3.unsent() == tx && d3.sending
            &&& action_of(d4) == IcsAction::Flush
            &&& action_of(d5) == IcsAction::DelayMicros(20)
            &&& action_of(d6) == IcsAction::Discard
            &&& action_of(d7) == IcsAction::SetEnable(false)
            &&& action_of(d8) == IcsAction::Read(reply_len(command) as usize) && !d8.sending
            &&& d8.listening_since == now
            &&& d8.rx.len() == 0
        }),
{
}

/// Bytes that are thrown away are not counted: as long as there are any, the same is done again.
pub proof fn law_discarding_goes_on(d: IcsModel, n: usize, now: u64)
    requires
        action_of(d) == IcsAction::Discard,
    ensures
        n > 0 ==> after_event(d, IcsEvent::Discarded(n), now) == d,
        after_event(d, IcsEvent::Discarded(0), now) == after_event(d, IcsEvent::Nothing, now),
{
}

/// A line that fails, or that takes no byte of the command, ends the exchange with a communication
/// error and leaves the enable pin as it is.
pub proof fn law_line_failures_end_the_exchange(d: IcsModel, now: u64)
    ensures
        ({
            let failed = IcsModel {
                stage: IcsStage::Done(Err(IcsError::CommunicationError)),
                ..d
            };
            &&& action_of(d) == IcsAction::Flush || action_of(d) == IcsAction::Discard || action_of(
                d,
            ) == IcsAction::Write || action_of(d) is Read ==> after_event(d, IcsEvent::Failed, now)
                == failed
            &&& action_of(d) == IcsAction::Write ==> after_event(d, IcsEvent::Written(0), now)
                == failed
        }),
{
}

/// A reply is collected piece by piece, in the order in which the pieces come, and is complete with
/// its last byte; only the identifier is followed by a long rest.
pub proof fn law_reply_is_collected(d: IcsModel, bytes: Vec<u8>, now: u64)
    requires
        d.wf(),
        d.stage == IcsStage::Listen,
        bytes@.len() > 0,
        d.admits(IcsEvent::Received(bytes), now),
    ensures
        ({
            let after = after_event(d, IcsEvent::Received(bytes), now);
            &&& after.rx == d.rx + bytes@
            &&& after.rx.len() < reply_len(d.command) ==> action_of(after) == IcsAction::Read(
                (reply_len(d.command) - after.rx.len()) as usize,
            )
            &&& after.rx.len() == reply_len(d.command) && d.command != IcsCommand::GetId
                ==> outcome_of(after) is Some
            &&& after.rx.len() == reply_len(d.command) && d.command == IcsCommand::GetId
                ==> action_of(after) == IcsAction::DelayMicros(520000) && outcome_of(after) is None
                && outcome_of(after_event(after, IcsEvent::Done, now)) == Some(
                Ok::<u16, IcsError>(reply_of(d.command, after.rx)),
            )
        }),
{
}

/// Before the time is up, an exchange that hears nothing looks again a tenth of a millisecond later.
pub proof fn law_silence_is_waited_out(d: IcsModel, now: u64, later: u64)
    requires
        d.stage == IcsStage::Listen,
        d.listening_since <= now,
    ensures
        ({
            let after = after_event(d, IcsEvent::Nothing, now);
            &&& now - d.listening_since >= 100000 <==> outcome_of(after) == Some(
                Err::<u16, IcsError>(IcsError::TimeoutError),
            )
            &&& now - d.listening_since < 100000 ==> action_of(after) == IcsAction::PauseMicros(100)
                && after_event(after, IcsEvent::Done, later) == d
        }),
{
}

/// What is left of the command after some of its bytes were sent: its length shrinks by as many, and
/// what is left comes last in the command.
pub proof fn law_rest_of_the_command(d: IcsModel, i: int)
    requires
        d.wf(),
        0 <= i < d.tx.len() - d.sent,
    ensures
        d.unsent().len() == d.tx.len() - d.sent,
        d.unsent()[i] == d.tx[d.sent + i],
{
}

/// A device starts at rest, with the enable pin low; a new exchange starts with nothing sent and
/// nothing received, and leaves the pin alone.
pub proof fn law_beginnings(d: IcsModel, command: IcsCommand, tx: Seq<u8>)
    ensures
        action_of(idle_device()) == IcsAction::Rest,
        !idle_device().sending,
        outcome_of(idle_device()) is None,
        ({
            let begun = started(d, command, tx);
            &&& begun.command == command && begun.tx == tx && begun.unsent() == tx
            &&& begun.rx.len() == 0
            &&& begun.sending == d.sending
            &&& outcome_of(begun) is None
        }),
{
}

} // verus!
