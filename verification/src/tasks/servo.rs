//! The servo task: sends the commanded angles, watches the position, and keeps count of failures.
use vstd::prelude::*;

use crate::board::{BoardModel, BoardState};
use crate::krs_servo::IcsError;
use crate::tasks::can_manager::{CanManagerModel, LinkModel};
use crate::tasks::can_manager_laws::LinkEvent;
use crate::tasks::supervisor::{ControlModel, InputGpioPins};
use crate::tasks::{can_communication, can_manager_laws, supervisor, supervisor_laws};
use crate::{
    angle, bits, board, time, SequencePhase, SERVO_COMM_ERROR, SERVO_COMM_ERROR_LIMIT,
    SERVO_MODE_COMMAND,
};

verus! {

#[derive(Clone, Copy, Debug, PartialEq, Eq, Structural)]
pub enum ServoOperation {
    SetPosition,
    GetPosition,
}

impl ServoOperation {
    pub fn name(self) -> (name: &'static str)
        ensures
            name@ == match self {
                ServoOperation::SetPosition => "set_pos"@,
                ServoOperation::GetPosition => "get_pos"@,
            },
    {
        match self {
            Self::SetPosition => "set_pos",
            Self::GetPosition => "get_pos",
        }
    }
}

/// What wakes the task: a commanded angle, or the time to look at the position.
#[derive(Clone, Copy, Debug, PartialEq, Eq, Structural)]
pub enum ServoWake {
    Angle(i16),
    PollTime,
}

/// What to ask of the servo.
#[derive(Clone, Copy, Debug, PartialEq, Eq, Structural)]
pub enum ServoRequest {
    Nothing,
    SetPosition(u16),
    GetPosition,
}

pub open spec fn request_after(b: BoardModel, wake: ServoWake) -> ServoRequest {
    match wake {
        ServoWake::Angle(angle_x10) => if b.servo_control_mode == SERVO_MODE_COMMAND {
            ServoRequest::SetPosition(angle::position_of(angle_x10) as u16)
        } else {
            ServoRequest::Nothing
        },
        ServoWake::PollTime => ServoRequest::GetPosition,
    }
}

/// The request that follows a wake. An angle that was commanded before the servo went on hold is
/// dropped.
pub fn servo_request(board: &BoardState, wake: ServoWake) -> (request: ServoRequest)
    ensures
        request == request_after(board@, wake),
{
    match wake {
        ServoWake::Angle(angle_x10) => {
            if board.servo_control_mode != SERVO_MODE_COMMAND {
                return ServoRequest::Nothing;
            }
            ServoRequest::SetPosition(angle::angle_x10_to_position(angle_x10))
        },
        ServoWake::PollTime => ServoRequest::GetPosition,
    }
}

pub fn servo_fault_active(error_count: u8) -> (active: bool)
    ensures
        active == (error_count >= SERVO_COMM_ERROR_LIMIT),
{
    error_count >= SERVO_COMM_ERROR_LIMIT
}

pub fn servo_fault_raised(error_count: u8) -> (raised: bool)
    ensures
        raised == (error_count == SERVO_COMM_ERROR_LIMIT),
{
    error_count == SERVO_COMM_ERROR_LIMIT
}

#[derive(Clone, Copy, Debug, PartialEq, Eq, Structural)]
pub enum ServoCommEvent {
    CommError,
    FaultRaised,
    Recovered,
}

impl ServoCommEvent {
    pub fn name(self) -> (name: &'static str)
        ensures
            name@ == match self {
                ServoCommEvent::CommError => "comm_error"@,
                ServoCommEvent::FaultRaised => "fault_raised"@,
                ServoCommEvent::Recovered => "recovered"@,
            },
    {
        match self {
            Self::CommError => "comm_error",
            Self::FaultRaised => "fault_raised",
            Self::Recovered => "recovered",
        }
    }
}

/// An entry for the log of the servo's communication.
#[derive(Clone, Copy, Debug, PartialEq, Eq)]
pub struct ServoCommLog {
    pub event: ServoCommEvent,
    pub operation: ServoOperation,
    pub at_ms: u64,
    /// The failures in a row: up to now, or before the recovery.
    pub consecutive_error_count: u8,
    pub fault_active: bool,
    /// Why the transaction has failed, if it has.
    pub error: Option<IcsError>,
}

/// The entry of the failure that makes it `error_count` in a row.
pub open spec fn error_log(
    operation: ServoOperation,
    error: IcsError,
    error_count: u8,
    at_ms: u64,
) -> ServoCommLog {
    ServoCommLog {
        event: if error_count == SERVO_COMM_ERROR_LIMIT {
            ServoCommEvent::FaultRaised
        } else {
            ServoCommEvent::CommError
        },
        operation,
        at_ms,
        consecutive_error_count: error_count,
        fault_active: error_count >= SERVO_COMM_ERROR_LIMIT,
        error: Some(error),
    }
}

pub fn log_servo_comm_error(
    operation: ServoOperation,
    error: &IcsError,
    error_count: u8,
    at_ms: u64,
) -> (log: ServoCommLog)
    ensures
        log == error_log(operation, *error, error_count, at_ms),
{
    let event = if error_count == SERVO_COMM_ERROR_LIMIT {
        ServoCommEvent::FaultRaised
    } else {
        ServoCommEvent::CommError
    };
    ServoCommLog {
        event,
        operation,
        at_ms,
        consecutive_error_count: error_count,
        fault_active: error_count >= SERVO_COMM_ERROR_LIMIT,
        error: Some(*error),
    }
}

/// A success is worth an entry only if it ends a row of failures.
pub open spec fn recovery_log(
    operation: ServoOperation,
    previous_error_count: u8,
    at_ms: u64,
) -> Option<ServoCommLog> {
    if previous_error_count == 0 {
        None
    } else {
        Some(
            ServoCommLog {
                event: ServoCommEvent::Recovered,
                operation,
                at_ms,
                consecutive_error_count: previous_error_count,
                fault_active: false,
                error: None,
            },
        )
    }
}

pub fn log_servo_comm_recovered(
    operation: ServoOperation,
    previous_error_count: u8,
    at_ms: u64,
) -> (log: Option<ServoCommLog>)
    ensures
        log == recovery_log(operation, previous_error_count, at_ms),
{
    if previous_error_count == 0 {
        return None;
    }
    Some(
        ServoCommLog {
            event: ServoCommEvent::Recovered,
            operation,
            at_ms,
            consecutive_error_count: previous_error_count,
            fault_active: false,
            error: None,
        },
    )
}

/// One failure more, up to the counter's limit.
pub open spec fn one_more(error_count: u8) -> u8 {
    if error_count == u8::MAX {
        u8::MAX
    } else {
        (error_count + 1) as u8
    }
}

/// The board after the servo has told its position.
pub open spec fn after_success(b: BoardModel, position: u16) -> BoardModel {
    let noted = BoardModel {
        current_position: position,
        servo_comm_error_count: 0,
        servo_comm_active: true,
        ..b
    };
    if b.servo_comm_error_count >= SERVO_COMM_ERROR_LIMIT {
        board::after_faults_recovered(noted, SERVO_COMM_ERROR)
    } else {
        noted
    }
}

/// The board after the servo has failed to answer.
pub open spec fn after_failure(b: BoardModel) -> BoardModel {
    let noted = BoardModel {
        servo_comm_error_count: one_more(b.servo_comm_error_count),
        servo_comm_active: false,
        ..b
    };
    if noted.servo_comm_error_count == SERVO_COMM_ERROR_LIMIT {
        board::after_faults_set(noted, SERVO_COMM_ERROR)
    } else {
        noted
    }
}

/// The board after a transaction.
pub open spec fn after_transaction(b: BoardModel, result: Result<u16, IcsError>) -> BoardModel {
    match result {
        Ok(position) => after_success(b, position),
        Err(_) => after_failure(b),
    }
}

/// Takes in what came of a request at time `now`, and tells what to log.
pub fn handle_servo_result(
    board: &mut BoardState,
    operation: ServoOperation,
    result: Result<u16, IcsError>,
    now: u64,
) -> (log: Option<ServoCommLog>)
    ensures
        final(board)@ == after_transaction(old(board)@, result),
        log == match result {
            Ok(_) => recovery_log(
                operation,
                old(board)@.servo_comm_error_count,
                time::ticks_to_ms(now),
            ),
            Err(error) => Some(
                error_log(
                    operation,
                    error,
                    one_more(old(board)@.servo_comm_error_count),
                    time::ticks_to_ms(now),
                ),
            ),
        },
{
    let at_ms: u64 = time::instant_as_millis(now);
    match result {
        Ok(current_position) => {
            board.current_position = current_position;
            let previous_error_count: u8 = board.servo_comm_error_count;
            board.servo_comm_error_count = 0;
            if servo_fault_active(previous_error_count) {
                board::clear_fault_flags_on_recovery(board, SERVO_COMM_ERROR);
            }
            board.servo_comm_active = true;
            log_servo_comm_recovered(operation, previous_error_count, at_ms)
        },
        Err(error) => {
            let error_count: u8 = board.servo_comm_error_count.saturating_add(1);
            board.servo_comm_error_count = error_count;
            if servo_fault_raised(error_count) {
                board::set_fault_flags(board, SERVO_COMM_ERROR);
            }
            board.servo_comm_active = false;
            Some(log_servo_comm_error(operation, &error, error_count, at_ms))
        },
    }
}

/// The servo fault is set exactly when the failures in a row have reached the limit.
pub open spec fn fault_agrees(b: BoardModel) -> bool {
    b.fault_flags & SERVO_COMM_ERROR == SERVO_COMM_ERROR <==> b.servo_comm_error_count
        >= SERVO_COMM_ERROR_LIMIT
}

/// Every transaction keeps the servo fault in step with the failures in a row, and a success
/// always clears it.
pub proof fn law_servo_fault_follows_failures(b: BoardModel, result: Result<u16, IcsError>)
    requires
        fault_agrees(b),
    ensures
        fault_agrees(after_transaction(b, result)),
        result is Ok ==> after_transaction(b, result).fault_flags & SERVO_COMM_ERROR == 0,
{
    bits::lemma_raise_and_clear(b.fault_flags, SERVO_COMM_ERROR);
    bits::lemma_link_faults_are_apart(b.fault_flags);
}

/// The servo fault is in step with the failures in a row on every board: on a new one, and after
/// whatever the CAN link or the supervisor does. What a transaction does is told by
/// [`law_servo_fault_follows_failures`].
pub proof fn law_servo_fault_is_always_in_step(
    c: ControlModel,
    link: CanManagerModel,
    event: LinkEvent,
    now: u64,
    pins: InputGpioPins,
)
    requires
        fault_agrees(c.board),
    ensures
        fault_agrees(board::initial_board()),
        fault_agrees(
            can_manager_laws::after_event(
                LinkModel { manager: link, board: c.board },
                event,
            ).board,
        ),
        fault_agrees(supervisor::after_pass(c, now, pins).board),
{
    bits::lemma_no_faults();
    let l = LinkModel { manager: link, board: c.board };
    can_manager_laws::law_link_leaves_the_servo_fault(l, event);
    can_manager_laws::law_link_keeps_what_is_not_its_own(l, event);
    supervisor_laws::law_pass_keeps_what_is_not_its_own(c, now, pins);
}

/// `n` failures in a row.
pub open spec fn after_failures(b: BoardModel, n: nat) -> BoardModel
    decreases n,
{
    if n == 0 {
        b
    } else {
        after_failure(after_failures(b, (n - 1) as nat))
    }
}

/// From a servo that answers, the fault comes with the last of as many failures in a row as the
/// limit says and no sooner, and one success takes it away again.
pub proof fn law_failures_in_a_row(b: BoardModel, n: nat, position: u16)
    requires
        b.servo_comm_error_count == 0,
        b.fault_flags & SERVO_COMM_ERROR == 0,
    ensures
        after_failures(b, n).servo_comm_error_count == if n <= u8::MAX {
            n as int
        } else {
            u8::MAX as int
        },
        after_failures(b, n).fault_flags & SERVO_COMM_ERROR == SERVO_COMM_ERROR <==> n
            >= SERVO_COMM_ERROR_LIMIT,
        after_success(after_failures(b, n), position).fault_flags & SERVO_COMM_ERROR == 0,
    decreases n,
{
    if n > 0 {
        law_failures_in_a_row(b, (n - 1) as nat, position);
        law_servo_fault_follows_failures(
            after_failures(b, (n - 1) as nat),
            Err(IcsError::TimeoutError),
        );
    }
    law_servo_fault_follows_failures(after_failures(b, n), Ok(position));
}

/// A transaction leaves every other fault as it is.
pub proof fn law_other_faults_are_kept(b: BoardModel, result: Result<u16, IcsError>)
    ensures
        after_transaction(b, result).fault_flags & !SERVO_COMM_ERROR == b.fault_flags
            & !SERVO_COMM_ERROR,
{
    bits::lemma_raise_and_clear(b.fault_flags, SERVO_COMM_ERROR);
}

/// The internal status reports the servo fault exactly while the failures in a row have reached the
/// limit: not before, and no longer after one success.
pub proof fn law_servo_fault_is_reported(b: BoardModel, position: u16)
    requires
        fault_agrees(b),
    ensures
        ({
            let flags = can_communication::internal_status(b)->flags;
            flags & SERVO_COMM_ERROR == SERVO_COMM_ERROR <==> b.servo_comm_error_count
                >= SERVO_COMM_ERROR_LIMIT
        }),
        ({
            let flags = can_communication::internal_status(after_success(b, position))->flags;
            flags & SERVO_COMM_ERROR == 0
        }),
{
    law_servo_fault_follows_failures(b, Ok(position));
}

/// A servo that fails as many times in a row as the limit says ends a firing: the next pass of the
/// supervisor aborts, switches everything off, and latches the abort.
pub proof fn law_silent_servo_stops_firing(
    c: ControlModel,
    n: nat,
    now: u64,
    pins: InputGpioPins,
)
    requires
        c.phase() == SequencePhase::Firing,
        c.board.servo_comm_error_count == 0,
        c.board.fault_flags & SERVO_COMM_ERROR == 0,
        n >= SERVO_COMM_ERROR_LIMIT,
    ensures
        ({
            let failed = ControlModel { board: after_failures(c.board, n), ..c };
            &&& supervisor_laws::outputs_off(failed, now, pins)
            &&& supervisor::after_pass(failed, now, pins).phase() == SequencePhase::Abort
            &&& supervisor::after_pass(failed, now, pins).supervisor.servo_abort_latched
        }),
{
    law_failures_in_a_row(c.board, n, 0);
    lemma_failures_keep_phase(c.board, n);
    let failed = ControlModel { board: after_failures(c.board, n), ..c };
    bits::lemma_no_faults();
    supervisor_laws::law_fault_while_firing_aborts(failed, now, pins);
}

proof fn lemma_failures_keep_phase(b: BoardModel, n: nat)
    ensures
        after_failures(b, n).sequence_phase == b.sequence_phase,
    decreases n,
{
    if n > 0 {
        lemma_failures_keep_phase(b, (n - 1) as nat);
    }
}

/// In command mode, an angle that the servo can reach leads to the position from which that very
/// angle is read back up to a tenth of a degree, sign included; an angle beyond the range leads to
/// the end of the range on its side. Out of command mode an angle leads to nothing.
pub proof fn law_commanded_angle_is_reached(b: BoardModel, angle_x10: i16)
    ensures
        b.servo_control_mode != SERVO_MODE_COMMAND ==> request_after(b, ServoWake::Angle(angle_x10))
            == ServoRequest::Nothing,
        b.servo_control_mode == SERVO_MODE_COMMAND ==> (request_after(
            b,
            ServoWake::Angle(angle_x10),
        ) matches ServoRequest::SetPosition(p) && {
            &&& 3500 <= p <= 11500
            &&& -1350 <= angle_x10 <= 1350 ==> angle_x10 - 1 <= angle::angle_of(p) <= angle_x10
            &&& -1350 <= angle_x10 <= 1350 ==> 27 * (p - 7500) <= 80 * angle_x10 < 27 * (p - 7500)
                + 27
            &&& angle_x10 < -1350 ==> p == 3500
            &&& angle_x10 > 1350 ==> p == 11500
        }),
{
    angle::law_position_lies_at_its_angle(angle_x10);
    angle::law_positions_are_in_range(angle_x10);
    if -1350 <= angle_x10 <= 1350 {
        angle::law_angle_is_read_back(angle_x10);
    }
}

/// The ends of the main valve have their positions, and the poll timer always asks for the position.
pub proof fn law_valve_ends_and_polls(b: BoardModel)
    ensures
        request_after(b, ServoWake::PollTime) == ServoRequest::GetPosition,
        b.servo_control_mode == SERVO_MODE_COMMAND ==> request_after(b, ServoWake::Angle(-348i16))
            == ServoRequest::SetPosition(6468) && request_after(b, ServoWake::Angle(552))
            == ServoRequest::SetPosition(9135),
{
}

/// A success records the position that was told, ends the row of failures and marks the servo as
/// heard; a failure leaves the position, adds one to the row up to the counter's limit, and marks
/// the servo as not heard. Nothing but that, the fault and the wake of the supervisor changes.
pub proof fn law_transactions_are_recorded(b: BoardModel, result: Result<u16, IcsError>)
    ensures
        ({
            let after = after_transaction(b, result);
            &&& result matches Ok(position) ==> after.current_position == position
                && after.servo_comm_error_count == 0 && after.servo_comm_active
            &&& result is Err ==> after.current_position == b.current_position
                && !after.servo_comm_active && after.servo_comm_error_count == if b.servo_comm_error_count
                < 255 {
                b.servo_comm_error_count + 1
            } else {
                255
            }
            &&& after == (BoardModel {
                current_position: after.current_position,
                servo_comm_error_count: after.servo_comm_error_count,
                servo_comm_active: after.servo_comm_active,
                fault_flags: after.fault_flags,
                control_update: after.control_update,
                ..b
            })
        }),
{
}

/// The supervisor is woken exactly when the servo fault comes or goes.
pub proof fn law_supervisor_hears_of_the_servo_fault(b: BoardModel, result: Result<u16, IcsError>)
    requires
        fault_agrees(b),
    ensures
        ({
            let after = after_transaction(b, result);
            after.control_update == if after.fault_flags & SERVO_COMM_ERROR != b.fault_flags
                & SERVO_COMM_ERROR {
                seq![()]
            } else {
                b.control_update
            }
        }),
{
    bits::lemma_raise_and_clear(b.fault_flags, SERVO_COMM_ERROR);
    bits::lemma_link_faults_are_apart(b.fault_flags);
}

/// Every failure is logged with its error, its time and the length of the row; the tenth as the one
/// that raises the fault. A success is logged only at the end of a row, with the length of that row.
pub proof fn law_servo_log(
    operation: ServoOperation,
    error: IcsError,
    error_count: u8,
    at_ms: u64,
)
    ensures
        ({
            let log = error_log(operation, error, error_count, at_ms);
            &&& log.event == ServoCommEvent::FaultRaised <==> error_count == 10
            &&& log.event == ServoCommEvent::CommError <==> error_count != 10
            &&& log.fault_active <==> error_count >= 10
            &&& log.operation == operation && log.at_ms == at_ms && log.error == Some(error)
            &&& log.consecutive_error_count == error_count
        }),
        recovery_log(operation, 0, at_ms) is None,
        error_count > 0 ==> (recovery_log(operation, error_count, at_ms) matches Some(log) && {
            &&& log.event == ServoCommEvent::Recovered
            &&& log.operation == operation && log.at_ms == at_ms && log.error is None
            &&& log.consecutive_error_count == error_count && !log.fault_active
        }),
{
}

} // verus!
