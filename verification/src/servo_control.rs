//! Scheduling of main-valve servo commands.
//!
//! Once the firing sequence has asked for the valve to open, an *open latch* is held. While it is
//! held, no close command leaves this module; it is dropped only after a release delay that starts
//! when the sequence times out or aborts.
use vstd::prelude::*;

verus! {

/// The sequence phase as the servo scheduler sees it.
#[derive(Clone, Copy, Debug, PartialEq, Eq, Structural)]
pub enum ServoPhase {
    Idle,
    Firing,
    Timeout,
    Abort,
}

/// What the control logic asks the servo to do.
#[derive(Clone, Copy, Debug, PartialEq, Eq, Structural)]
pub enum RequestedServoAction {
    Hold,
    MoveTo(i16),
}

/// What the servo is told to do, and the angle to signal to the servo task, if any.
#[derive(Clone, Copy, Debug, PartialEq, Eq)]
pub struct ServoDispatch {
    pub action: RequestedServoAction,
    pub signal_angle_x10: Option<i16>,
}

pub open spec fn hold_dispatch() -> ServoDispatch {
    ServoDispatch { action: RequestedServoAction::Hold, signal_angle_x10: None }
}

pub open spec fn command_dispatch(angle_x10: i16, signal: bool) -> ServoDispatch {
    ServoDispatch {
        action: RequestedServoAction::MoveTo(angle_x10),
        signal_angle_x10: if signal {
            Some(angle_x10)
        } else {
            None
        },
    }
}

impl ServoDispatch {
    /// The dispatch that leaves the servo where it is.
    pub fn hold() -> (dispatch: Self)
        ensures
            dispatch == hold_dispatch(),
    {
        Self { action: RequestedServoAction::Hold, signal_angle_x10: None }
    }

    /// The dispatch that moves to `angle_x10`, signalled to the servo task when `signal` is set.
    pub fn command(angle_x10: i16, signal: bool) -> (dispatch: Self)
        ensures
            dispatch == command_dispatch(angle_x10, signal),
    {
        Self {
            action: RequestedServoAction::MoveTo(angle_x10),
            signal_angle_x10: if signal {
                Some(angle_x10)
            } else {
                None
            },
        }
    }
}

/// The contents of a [`ServoCommandState`].
pub struct ServoCommandModel {
    pub open_latched: bool,
    pub firing_open_send_count: u8,
    pub last_firing_open_send_ms: Option<u64>,
    pub open_latch_release_started_ms: Option<u64>,
    pub last_close_send_ms: Option<u64>,
    pub manual_open_command_active: bool,
}

impl ServoCommandModel {
    /// What holds of every state that is reached from [`ServoCommandState::new`]: the open attempts
    /// and a pending release exist only under the latch, the attempt count and the time of the last
    /// attempt go together, and a held latch leaves no trace of manual commands.
    pub open spec fn wf(self) -> bool {
        &&& self.firing_open_send_count > 0 <==> self.last_firing_open_send_ms is Some
        &&& !self.open_latched ==> {
            &&& self.firing_open_send_count == 0
            &&& self.open_latch_release_started_ms is None
        }
        &&& self.open_latched ==> {
            &&& self.last_close_send_ms is None
            &&& !self.manual_open_command_active
        }
    }
}

/// The state of a board that has sent no servo command yet.
pub open spec fn fresh_servo_commands() -> ServoCommandModel {
    ServoCommandModel {
        open_latched: false,
        firing_open_send_count: 0,
        last_firing_open_send_ms: None,
        open_latch_release_started_ms: None,
        last_close_send_ms: None,
        manual_open_command_active: false,
    }
}

/// At least `interval` milliseconds lie between `since` and `now`; a clock that went backwards
/// counts as no time at all.
pub open spec fn interval_elapsed(since: u64, now: u64, interval: u64) -> bool {
    (if now >= since {
        now - since
    } else {
        0
    }) >= interval
}

/// A periodic command is due when it was never sent or its interval has elapsed.
pub open spec fn send_due(last: Option<u64>, now: u64, interval: u64) -> bool {
    match last {
        Some(last) => interval_elapsed(last, now, interval),
        None => true,
    }
}

/// The release delay of a held latch is running and over.
pub open spec fn latch_release_due(s: ServoCommandModel, now_ms: u64, delay_ms: u64) -> bool {
    &&& s.open_latched
    &&& s.open_latch_release_started_ms matches Some(started)
    &&& interval_elapsed(started, now_ms, delay_ms)
}

pub open spec fn after_latch_release(
    s: ServoCommandModel,
    now_ms: u64,
    delay_ms: u64,
) -> ServoCommandModel {
    if latch_release_due(s, now_ms, delay_ms) {
        ServoCommandModel {
            open_latched: false,
            open_latch_release_started_ms: None,
            firing_open_send_count: 0,
            last_firing_open_send_ms: None,
            ..s
        }
    } else {
        s
    }
}

pub open spec fn after_phase_transition(
    s: ServoCommandModel,
    phase: ServoPhase,
    now_ms: u64,
) -> ServoCommandModel {
    if phase == ServoPhase::Firing && !s.open_latched {
        ServoCommandModel {
            firing_open_send_count: 0,
            last_firing_open_send_ms: None,
            open_latch_release_started_ms: None,
            ..s
        }
    } else if (phase == ServoPhase::Timeout || phase == ServoPhase::Abort) && s.open_latched
        && s.open_latch_release_started_ms is None {
        ServoCommandModel { open_latch_release_started_ms: Some(now_ms), ..s }
    } else {
        s
    }
}

/// One question put to the scheduler.
pub struct ScheduleCall {
    pub phase: ServoPhase,
    pub firing_open_phase: bool,
    pub requested: RequestedServoAction,
    pub now_ms: u64,
}

/// The limits and angles that the scheduler works with.
pub struct ScheduleRules {
    pub poll_interval_ms: u64,
    pub max_open_attempts: u8,
    pub open_angle_x10: i16,
    pub closed_angle_x10: i16,
}

/// The latch is held while `call` is answered.
pub open spec fn latch_held(s: ServoCommandModel, call: ScheduleCall) -> bool {
    s.open_latched || (call.phase == ServoPhase::Firing && call.firing_open_phase)
}

/// The firing sequence wants the valve open right now.
pub open spec fn firing_open_wanted(call: ScheduleCall, rules: ScheduleRules) -> bool {
    &&& call.phase == ServoPhase::Firing
    &&& call.firing_open_phase
    &&& call.requested == RequestedServoAction::MoveTo(rules.open_angle_x10)
}

/// `call` sends a firing-open attempt: it is wanted, attempts are left, and the last one lies far
/// enough back.
pub open spec fn firing_open_sent(
    s: ServoCommandModel,
    call: ScheduleCall,
    rules: ScheduleRules,
) -> bool {
    &&& firing_open_wanted(call, rules)
    &&& s.firing_open_send_count < rules.max_open_attempts
    &&& send_due(s.last_firing_open_send_ms, call.now_ms, rules.poll_interval_ms)
}

pub open spec fn scheduled_dispatch(
    s: ServoCommandModel,
    call: ScheduleCall,
    rules: ScheduleRules,
) -> ServoDispatch {
    if latch_held(s, call) {
        if !firing_open_wanted(call, rules) {
            hold_dispatch()
        } else if s.firing_open_send_count < rules.max_open_attempts {
            command_dispatch(rules.open_angle_x10, firing_open_sent(s, call, rules))
        } else if s.last_firing_open_send_ms is Some && send_due(
            s.last_firing_open_send_ms,
            call.now_ms,
            rules.poll_interval_ms,
        ) {
            hold_dispatch()
        } else {
            command_dispatch(rules.open_angle_x10, false)
        }
    } else if call.phase == ServoPhase::Firing {
        hold_dispatch()
    } else {
        match call.requested {
            RequestedServoAction::Hold => hold_dispatch(),
            RequestedServoAction::MoveTo(angle) => command_dispatch(
                angle,
                if angle == rules.closed_angle_x10 {
                    send_due(s.last_close_send_ms, call.now_ms, rules.poll_interval_ms)
                } else if angle == rules.open_angle_x10 {
                    !s.manual_open_command_active
                } else {
                    true
                },
            ),
        }
    }
}

pub open spec fn after_schedule(
    s: ServoCommandModel,
    call: ScheduleCall,
    rules: ScheduleRules,
) -> ServoCommandModel {
    if latch_held(s, call) {
        let sent = firing_open_sent(s, call, rules);
        ServoCommandModel {
            open_latched: true,
            firing_open_send_count: if sent {
                (s.firing_open_send_count + 1) as u8
            } else {
                s.firing_open_send_count
            },
            last_firing_open_send_ms: if sent {
                Some(call.now_ms)
            } else {
                s.last_firing_open_send_ms
            },
            last_close_send_ms: None,
            manual_open_command_active: false,
            ..s
        }
    } else {
        let manual_close = call.phase != ServoPhase::Firing && call.requested
            == RequestedServoAction::MoveTo(rules.closed_angle_x10);
        let manual_open = call.phase != ServoPhase::Firing && call.requested
            == RequestedServoAction::MoveTo(rules.open_angle_x10) && !manual_close;
        ServoCommandModel {
            last_close_send_ms: if !manual_close {
                None
            } else if send_due(s.last_close_send_ms, call.now_ms, rules.poll_interval_ms) {
                Some(call.now_ms)
            } else {
                s.last_close_send_ms
            },
            manual_open_command_active: manual_open,
            ..s
        }
    }
}

/// Remembers which servo commands were sent and when.
pub struct ServoCommandState {
    open_latched: bool,
    firing_open_send_count: u8,
    last_firing_open_send_ms: Option<u64>,
    open_latch_release_started_ms: Option<u64>,
    last_close_send_ms: Option<u64>,
    manual_open_command_active: bool,
}

impl View for ServoCommandState {
    type V = ServoCommandModel;

    closed spec fn view(&self) -> ServoCommandModel {
        ServoCommandModel {
            open_latched: self.open_latched,
            firing_open_send_count: self.firing_open_send_count,
            last_firing_open_send_ms: self.last_firing_open_send_ms,
            open_latch_release_started_ms: self.open_latch_release_started_ms,
            last_close_send_ms: self.last_close_send_ms,
            manual_open_command_active: self.manual_open_command_active,
        }
    }
}

fn is_send_due(last: Option<u64>, now: u64, interval: u64) -> (due: bool)
    ensures
        due == send_due(last, now, interval),
{
    match last {
        Some(last) => now.saturating_sub(last) >= interval,
        None => true,
    }
}

impl ServoCommandState {
    /// A state with no command sent and no latch held.
    pub fn new() -> (state: Self)
        ensures
            state@ == fresh_servo_commands(),
            state@.wf(),
    {
        Self {
            open_latched: false,
            firing_open_send_count: 0,
            last_firing_open_send_ms: None,
            open_latch_release_started_ms: None,
            last_close_send_ms: None,
            manual_open_command_active: false,
        }
    }

    /// Drops the latch once `release_delay_ms` have passed since its release began.
    pub fn update_latch_release(&mut self, now_ms: u64, release_delay_ms: u64)
        ensures
            final(self)@ == after_latch_release(old(self)@, now_ms, release_delay_ms),
            old(self)@.wf() ==> final(self)@.wf(),
    {
        let release_over = match self.open_latch_release_started_ms {
            Some(started) => now_ms.saturating_sub(started) >= release_delay_ms,
            None => false,
        };
        if self.open_latched && release_over {
            self.open_latched = false;
            self.open_latch_release_started_ms = None;
            self.firing_open_send_count = 0;
            self.last_firing_open_send_ms = None;
        }
    }

    /// Takes note that the sequence has entered `phase`: firing starts with a full set of open
    /// attempts, and a timeout or an abort starts the release of a held latch.
    pub fn on_phase_transition(&mut self, phase: ServoPhase, now_ms: u64)
        ensures
            final(self)@ == after_phase_transition(old(self)@, phase, now_ms),
            old(self)@.wf() ==> final(self)@.wf(),
    {
        match phase {
            ServoPhase::Firing => {
                if !self.open_latched {
                    self.firing_open_send_count = 0;
                    self.last_firing_open_send_ms = None;
                    self.open_latch_release_started_ms = None;
                }
            },
            ServoPhase::Timeout | ServoPhase::Abort => {
                if self.open_latched && self.open_latch_release_started_ms.is_none() {
                    self.open_latch_release_started_ms = Some(now_ms);
                }
            },
            ServoPhase::Idle => {},
        }
    }

    /// Firing may start only when no earlier firing still holds the latch.
    pub fn can_start_firing(&self) -> (allowed: bool)
        ensures
            allowed == !self@.open_latched,
    {
        !self.open_latched
    }

    pub fn open_latched(&self) -> (latched: bool)
        ensures
            latched == self@.open_latched,
    {
        self.open_latched
    }

    pub fn firing_open_send_count(&self) -> (count: u8)
        ensures
            count == self@.firing_open_send_count,
    {
        self.firing_open_send_count
    }

    /// The release delay of the latch is running.
    pub fn release_pending(&self) -> (pending: bool)
        ensures
            pending == (self@.open_latch_release_started_ms is Some),
    {
        self.open_latch_release_started_ms.is_some()
    }

    /// Decides what the servo is told now and which angle is signalled to the servo task.
    pub fn schedule(
        &mut self,
        phase: ServoPhase,
        firing_open_phase: bool,
        requested: RequestedServoAction,
        now_ms: u64,
        poll_interval_ms: u64,
        max_open_attempts: u8,
        open_angle_x10: i16,
        closed_angle_x10: i16,
    ) -> (dispatch: ServoDispatch)
        ensures
            ({
                let call = ScheduleCall { phase, firing_open_phase, requested, now_ms };
                let rules = ScheduleRules {
                    poll_interval_ms,
                    max_open_attempts,
                    open_angle_x10,
                    closed_angle_x10,
                };
                &&& dispatch == scheduled_dispatch(old(self)@, call, rules)
                &&& final(self)@ == after_schedule(old(self)@, call, rules)
            }),
            old(self)@.wf() ==> final(self)@.wf(),
    {
        if phase == ServoPhase::Firing && firing_open_phase {
            self.open_latched = true;
        }
        if self.open_latched {
            self.last_close_send_ms = None;
            self.manual_open_command_active = false;

            if phase != ServoPhase::Firing || !firing_open_phase || requested
                != RequestedServoAction::MoveTo(open_angle_x10) {
                return ServoDispatch::hold();
            }
            if self.firing_open_send_count >= max_open_attempts {
                let final_attempt_settled = match self.last_firing_open_send_ms {
                    Some(last) => now_ms.saturating_sub(last) >= poll_interval_ms,
                    None => false,
                };
                return if final_attempt_settled {
                    ServoDispatch::hold()
                } else {
                    ServoDispatch::command(open_angle_x10, false)
                };
            }
            let due = is_send_due(self.last_firing_open_send_ms, now_ms, poll_interval_ms);
            if due {
                self.last_firing_open_send_ms = Some(now_ms);
                self.firing_open_send_count = self.firing_open_send_count + 1;
            }
            return ServoDispatch::command(open_angle_x10, due);
        }
        if phase == ServoPhase::Firing {
            self.last_close_send_ms = None;
            self.manual_open_command_active = false;
            return ServoDispatch::hold();
        }
        match requested {
            RequestedServoAction::MoveTo(angle) => {
                if angle == closed_angle_x10 {
                    self.manual_open_command_active = false;
                    let due = is_send_due(self.last_close_send_ms, now_ms, poll_interval_ms);
                    if due {
                        self.last_close_send_ms = Some(now_ms);
                    }
                    ServoDispatch::command(angle, due)
                } else if angle == open_angle_x10 {
                    self.last_close_send_ms = None;
                    let signal = !self.manual_open_command_active;
                    self.manual_open_command_active = true;
                    ServoDispatch::command(angle, signal)
                } else {
                    self.last_close_send_ms = None;
                    self.manual_open_command_active = false;
                    ServoDispatch::command(angle, true)
                }
            },
            RequestedServoAction::Hold => {
                self.last_close_send_ms = None;
                self.manual_open_command_active = false;
                ServoDispatch::hold()
            },
        }
    }
}

/// One thing that happens to a [`ServoCommandState`].
pub enum ServoCommandEvent {
    Release { now_ms: u64, delay_ms: u64 },
    Transition { phase: ServoPhase, now_ms: u64 },
    Schedule(ScheduleCall),
}

pub open spec fn after_event(
    s: ServoCommandModel,
    event: ServoCommandEvent,
    rules: ScheduleRules,
) -> ServoCommandModel {
    match event {
        ServoCommandEvent::Release { now_ms, delay_ms } => after_latch_release(s, now_ms, delay_ms),
        ServoCommandEvent::Transition { phase, now_ms } => after_phase_transition(s, phase, now_ms),
        ServoCommandEvent::Schedule(call) => after_schedule(s, call, rules),
    }
}

/// The state after the first `n` of `events`.
pub open spec fn state_after(
    s: ServoCommandModel,
    events: Seq<ServoCommandEvent>,
    rules: ScheduleRules,
    n: nat,
) -> ServoCommandModel
    decreases n,
{
    if n == 0 {
        s
    } else {
        after_event(state_after(s, events, rules, (n - 1) as nat), events[n - 1], rules)
    }
}

/// Event `i` sends a firing-open attempt.
pub open spec fn open_sent_at(
    s: ServoCommandModel,
    events: Seq<ServoCommandEvent>,
    rules: ScheduleRules,
    i: nat,
) -> bool {
    &&& events[i as int] matches ServoCommandEvent::Schedule(call)
    &&& firing_open_sent(state_after(s, events, rules, i), call, rules)
}

/// Event `i` drops the latch.
pub open spec fn latch_dropped_at(
    s: ServoCommandModel,
    events: Seq<ServoCommandEvent>,
    rules: ScheduleRules,
    i: nat,
) -> bool {
    &&& state_after(s, events, rules, i).open_latched
    &&& !state_after(s, events, rules, i + 1).open_latched
}

/// How many of the first `n` events send a firing-open attempt.
pub open spec fn open_sends(
    s: ServoCommandModel,
    events: Seq<ServoCommandEvent>,
    rules: ScheduleRules,
    n: nat,
) -> nat
    decreases n,
{
    if n == 0 {
        0
    } else {
        open_sends(s, events, rules, (n - 1) as nat) + if open_sent_at(
            s,
            events,
            rules,
            (n - 1) as nat,
        ) {
            1nat
        } else {
            0nat
        }
    }
}

/// Every event keeps the state well formed.
pub proof fn law_states_stay_well_formed(
    s: ServoCommandModel,
    events: Seq<ServoCommandEvent>,
    rules: ScheduleRules,
    n: nat,
)
    requires
        s.wf(),
    ensures
        state_after(s, events, rules, n).wf(),
    decreases n,
{
    if n > 0 {
        law_states_stay_well_formed(s, events, rules, (n - 1) as nat);
    }
}

/// While the latch is held the servo is never told anything but to hold or to open.
pub proof fn law_held_latch_never_closes(
    s: ServoCommandModel,
    call: ScheduleCall,
    rules: ScheduleRules,
)
    requires
        latch_held(s, call),
    ensures
        ({
            let dispatch = scheduled_dispatch(s, call, rules);
            ||| dispatch == hold_dispatch()
            ||| dispatch == command_dispatch(rules.open_angle_x10, true)
            ||| dispatch == command_dispatch(rules.open_angle_x10, false)
        }),
{
}

/// During firing the servo is never told anything but to hold or to open, whatever is requested;
/// before the open phase it holds.
pub proof fn law_firing_never_closes(s: ServoCommandModel, call: ScheduleCall, rules: ScheduleRules)
    requires
        call.phase == ServoPhase::Firing,
    ensures
        ({
            let action = scheduled_dispatch(s, call, rules).action;
            ||| action == RequestedServoAction::Hold
            ||| action == RequestedServoAction::MoveTo(rules.open_angle_x10)
        }),
        !call.firing_open_phase ==> scheduled_dispatch(s, call, rules) == hold_dispatch(),
{
}

/// A held latch forces a hold in every phase but firing.
pub proof fn law_held_latch_holds_outside_firing(
    s: ServoCommandModel,
    call: ScheduleCall,
    rules: ScheduleRules,
)
    requires
        s.open_latched,
        call.phase != ServoPhase::Firing,
    ensures
        scheduled_dispatch(s, call, rules) == hold_dispatch(),
{
}

/// An angle is signalled only together with the command to move there.
pub proof fn law_signal_matches_action(
    s: ServoCommandModel,
    call: ScheduleCall,
    rules: ScheduleRules,
)
    ensures
        scheduled_dispatch(s, call, rules).signal_angle_x10 matches Some(angle)
            ==> scheduled_dispatch(s, call, rules).action == RequestedServoAction::MoveTo(angle),
{
}

/// An inhibited servo neither emits nor counts an open attempt, though the latch is taken.
pub proof fn law_inhibited_open_is_not_counted(
    s: ServoCommandModel,
    call: ScheduleCall,
    rules: ScheduleRules,
)
    requires
        call.phase == ServoPhase::Firing,
        call.firing_open_phase,
        call.requested == RequestedServoAction::Hold,
    ensures
        scheduled_dispatch(s, call, rules) == hold_dispatch(),
        after_schedule(s, call, rules).open_latched,
        after_schedule(s, call, rules).firing_open_send_count == s.firing_open_send_count,
        after_schedule(s, call, rules).last_firing_open_send_ms == s.last_firing_open_send_ms,
{
}

/// Only the end of a running release delay drops a held latch. Phase changes and scheduling never
/// do.
pub proof fn law_latch_is_dropped_only_by_its_release(
    s: ServoCommandModel,
    event: ServoCommandEvent,
    rules: ScheduleRules,
)
    requires
        s.open_latched,
        !after_event(s, event, rules).open_latched,
    ensures
        event matches ServoCommandEvent::Release { now_ms, delay_ms } && latch_release_due(
            s,
            now_ms,
            delay_ms,
        ),
{
}

/// The release delay of a held latch starts with a timeout or an abort, and a running one is not
/// started anew.
pub proof fn law_release_starts_once(
    s: ServoCommandModel,
    event: ServoCommandEvent,
    rules: ScheduleRules,
)
    requires
        s.open_latched,
        after_event(s, event, rules).open_latched,
        after_event(s, event, rules).open_latch_release_started_ms
            != s.open_latch_release_started_ms,
    ensures
        s.open_latch_release_started_ms is None,
        event matches ServoCommandEvent::Transition { phase, now_ms } && (phase
            == ServoPhase::Timeout || phase == ServoPhase::Abort)
            && after_event(s, event, rules).open_latch_release_started_ms == Some(now_ms),
{
}

/// As long as the latch is not dropped, the attempts that were sent are the ones that were
/// counted, and they never exceed the allowed number.
pub proof fn law_open_attempts_are_bounded(
    s: ServoCommandModel,
    events: Seq<ServoCommandEvent>,
    rules: ScheduleRules,
    n: nat,
)
    requires
        s.wf(),
        s.firing_open_send_count <= rules.max_open_attempts,
        forall|i: nat| i < n ==> !#[trigger] latch_dropped_at(s, events, rules, i),
    ensures
        state_after(s, events, rules, n).firing_open_send_count == s.firing_open_send_count
            + open_sends(s, events, rules, n),
        s.firing_open_send_count + open_sends(s, events, rules, n) <= rules.max_open_attempts,
    decreases n,
{
    if n > 0 {
        let m = (n - 1) as nat;
        law_open_attempts_are_bounded(s, events, rules, m);
        law_states_stay_well_formed(s, events, rules, m);
        assert(!latch_dropped_at(s, events, rules, m));
        assert(state_after(s, events, rules, n) == after_event(
            state_after(s, events, rules, m),
            events[m as int],
            rules,
        ));
    }
}

/// After an attempt at event `i`, and as long as the latch is kept, the last attempt on record is
/// never older than that one.
proof fn lemma_last_attempt_is_recent(
    s: ServoCommandModel,
    events: Seq<ServoCommandEvent>,
    rules: ScheduleRules,
    i: nat,
    n: nat,
)
    requires
        s.wf(),
        rules.poll_interval_ms > 0,
        i < n,
        open_sent_at(s, events, rules, i),
        forall|k: nat| i <= k < n ==> !#[trigger] latch_dropped_at(s, events, rules, k),
    ensures
        events[i as int] matches ServoCommandEvent::Schedule(call) && state_after(
            s,
            events,
            rules,
            n,
        ).last_firing_open_send_ms matches Some(last) && call.now_ms <= last,
        state_after(s, events, rules, n).open_latched,
    decreases n,
{
    let m = (n - 1) as nat;
    assert(state_after(s, events, rules, n) == after_event(
        state_after(s, events, rules, m),
        events[m as int],
        rules,
    ));
    if i < m {
        lemma_last_attempt_is_recent(s, events, rules, i, m);
        assert(!latch_dropped_at(s, events, rules, m));
    }
}

/// Two firing-open attempts under one latch lie at least the poll interval apart.
pub proof fn law_open_attempts_are_spaced(
    s: ServoCommandModel,
    events: Seq<ServoCommandEvent>,
    rules: ScheduleRules,
    i: nat,
    j: nat,
)
    requires
        s.wf(),
        rules.poll_interval_ms > 0,
        i < j,
        open_sent_at(s, events, rules, i),
        open_sent_at(s, events, rules, j),
        forall|k: nat| i <= k < j ==> !#[trigger] latch_dropped_at(s, events, rules, k),
    ensures
        events[i as int] matches ServoCommandEvent::Schedule(first)
            && events[j as int] matches ServoCommandEvent::Schedule(second) && second.now_ms
            >= first.now_ms + rules.poll_interval_ms,
{
    lemma_last_attempt_is_recent(s, events, rules, i, j);
}

/// `last` is long enough ago at `now` for the next of a row of commands, or there was none.
pub open spec fn long_ago(last: Option<u64>, now: u64, interval: u64) -> bool {
    last matches Some(at) ==> interval == 0 || (at <= now && now - at >= interval)
}

/// Outside firing and without the latch, the operator's request is what the servo is told: to move
/// to that very angle, or to hold.
pub proof fn law_operator_request_is_followed(
    s: ServoCommandModel,
    call: ScheduleCall,
    rules: ScheduleRules,
)
    requires
        !s.open_latched,
        call.phase != ServoPhase::Firing,
    ensures
        scheduled_dispatch(s, call, rules).action == call.requested,
        call.requested == RequestedServoAction::Hold ==> scheduled_dispatch(
            s,
            call,
            rules,
        ).signal_angle_x10 is None,
{
}

/// The operator's closing is sent at once and then once per poll interval: the angle is signalled
/// exactly if no close is on record or the interval has elapsed since the recorded one, and a close
/// that is sent is recorded.
pub proof fn law_close_is_sent_and_repeated(
    s: ServoCommandModel,
    call: ScheduleCall,
    rules: ScheduleRules,
)
    requires
        !s.open_latched,
        call.phase != ServoPhase::Firing,
        call.requested == RequestedServoAction::MoveTo(rules.closed_angle_x10),
    ensures
        ({
            let sent = long_ago(s.last_close_send_ms, call.now_ms, rules.poll_interval_ms);
            let after = after_schedule(s, call, rules);
            &&& scheduled_dispatch(s, call, rules).signal_angle_x10 == if sent {
                Some(rules.closed_angle_x10)
            } else {
                None
            }
            &&& after.last_close_send_ms == if sent {
                Some(call.now_ms)
            } else {
                s.last_close_send_ms
            }
            &&& !after.manual_open_command_active
            &&& !after.open_latched
        }),
{
}

/// The operator's opening is signalled on the first of successive requests and on no other.
pub proof fn law_manual_open_is_signalled_once(
    s: ServoCommandModel,
    call: ScheduleCall,
    rules: ScheduleRules,
)
    requires
        !s.open_latched,
        call.phase != ServoPhase::Firing,
        call.requested == RequestedServoAction::MoveTo(rules.open_angle_x10),
        rules.open_angle_x10 != rules.closed_angle_x10,
    ensures
        scheduled_dispatch(s, call, rules).signal_angle_x10 == if s.manual_open_command_active {
            None
        } else {
            Some(rules.open_angle_x10)
        },
        after_schedule(s, call, rules).manual_open_command_active,
        after_schedule(s, call, rules).last_close_send_ms is None,
        !after_schedule(s, call, rules).open_latched,
{
}

/// Any other angle of the operator is signalled every time.
pub proof fn law_other_angles_are_always_signalled(
    s: ServoCommandModel,
    call: ScheduleCall,
    rules: ScheduleRules,
    angle: i16,
)
    requires
        !s.open_latched,
        call.phase != ServoPhase::Firing,
        call.requested == RequestedServoAction::MoveTo(angle),
        angle != rules.open_angle_x10,
        angle != rules.closed_angle_x10,
    ensures
        scheduled_dispatch(s, call, rules).signal_angle_x10 == Some(angle),
{
}

/// A close stays on record only through an unbroken row of requests to close, and an opening only
/// through an unbroken row of requests to open, both outside firing and without the latch.
pub proof fn law_rows_of_requests_are_broken(
    s: ServoCommandModel,
    call: ScheduleCall,
    rules: ScheduleRules,
)
    ensures
        ({
            let after = after_schedule(s, call, rules);
            let manual = !s.open_latched && call.phase != ServoPhase::Firing;
            &&& after.last_close_send_ms is Some ==> manual && call.requested
                == RequestedServoAction::MoveTo(rules.closed_angle_x10)
            &&& after.manual_open_command_active ==> manual && call.requested
                == RequestedServoAction::MoveTo(rules.open_angle_x10)
        }),
{
}

/// Two requests to close in a row, the first of which was sent: the second is sent exactly if the
/// poll interval lies between them.
pub proof fn law_two_closes_in_a_row(
    s: ServoCommandModel,
    first: ScheduleCall,
    second: ScheduleCall,
    rules: ScheduleRules,
)
    requires
        !s.open_latched,
        first.phase != ServoPhase::Firing,
        second.phase != ServoPhase::Firing,
        first.requested == RequestedServoAction::MoveTo(rules.closed_angle_x10),
        second.requested == first.requested,
        scheduled_dispatch(s, first, rules).signal_angle_x10 is Some,
        first.now_ms <= second.now_ms,
    ensures
        scheduled_dispatch(after_schedule(s, first, rules), second, rules).signal_angle_x10 is Some
            <==> second.now_ms - first.now_ms >= rules.poll_interval_ms,
{
}

/// A request to close or to open that follows any other request of the operator is sent at once.
pub proof fn law_new_request_is_sent_at_once(
    s: ServoCommandModel,
    first: ScheduleCall,
    second: ScheduleCall,
    rules: ScheduleRules,
    angle: i16,
)
    requires
        !s.open_latched,
        first.phase != ServoPhase::Firing,
        second.phase != ServoPhase::Firing,
        second.requested == RequestedServoAction::MoveTo(angle),
        first.requested != second.requested,
    ensures
        scheduled_dispatch(after_schedule(s, first, rules), second, rules).signal_angle_x10 == Some(
            angle,
        ),
{
}

/// While firing wants the valve open and attempts are left, the servo is told to open; the angle is
/// signalled exactly if the last attempt is long enough ago, and then it is counted and recorded.
pub proof fn law_open_attempts_while_any_are_left(
    s: ServoCommandModel,
    call: ScheduleCall,
    rules: ScheduleRules,
)
    requires
        call.phase == ServoPhase::Firing,
        call.firing_open_phase,
        call.requested == RequestedServoAction::MoveTo(rules.open_angle_x10),
        s.firing_open_send_count < rules.max_open_attempts,
    ensures
        ({
            let sent = long_ago(s.last_firing_open_send_ms, call.now_ms, rules.poll_interval_ms);
            let dispatch = scheduled_dispatch(s, call, rules);
            let after = after_schedule(s, call, rules);
            &&& dispatch.action == RequestedServoAction::MoveTo(rules.open_angle_x10)
            &&& dispatch.signal_angle_x10 == if sent {
                Some(rules.open_angle_x10)
            } else {
                None
            }
            &&& after.firing_open_send_count == s.firing_open_send_count + if sent {
                1int
            } else {
                0
            }
            &&& after.last_firing_open_send_ms == if sent {
                Some(call.now_ms)
            } else {
                s.last_firing_open_send_ms
            }
        }),
{
}

/// After the last attempt nothing more is signalled or counted; the servo is told to open until the
/// poll interval has elapsed since that attempt, and to hold from then on.
pub proof fn law_open_attempts_when_none_are_left(
    s: ServoCommandModel,
    call: ScheduleCall,
    rules: ScheduleRules,
)
    requires
        call.phase == ServoPhase::Firing,
        call.firing_open_phase,
        call.requested == RequestedServoAction::MoveTo(rules.open_angle_x10),
        s.firing_open_send_count >= rules.max_open_attempts,
    ensures
        ({
            let settled = s.last_firing_open_send_ms is Some && long_ago(
                s.last_firing_open_send_ms,
                call.now_ms,
                rules.poll_interval_ms,
            );
            let dispatch = scheduled_dispatch(s, call, rules);
            let after = after_schedule(s, call, rules);
            &&& dispatch.signal_angle_x10 is None
            &&& dispatch.action == if settled {
                RequestedServoAction::Hold
            } else {
                RequestedServoAction::MoveTo(rules.open_angle_x10)
            }
            &&& after.firing_open_send_count == s.firing_open_send_count
            &&& after.last_firing_open_send_ms == s.last_firing_open_send_ms
        }),
{
}

/// The latch is taken by the open phase of firing, whatever is requested, and by nothing else.
/// Scheduling touches neither a running release nor, outside the attempts of firing, their record.
pub proof fn law_latch_is_taken_by_the_open_phase(
    s: ServoCommandModel,
    call: ScheduleCall,
    rules: ScheduleRules,
)
    ensures
        ({
            let after = after_schedule(s, call, rules);
            let open_phase = call.phase == ServoPhase::Firing && call.firing_open_phase;
            &&& after.open_latched <==> s.open_latched || open_phase
            &&& after.open_latch_release_started_ms == s.open_latch_release_started_ms
            &&& !open_phase || call.requested != RequestedServoAction::MoveTo(rules.open_angle_x10)
                ==> after.firing_open_send_count == s.firing_open_send_count
                && after.last_firing_open_send_ms == s.last_firing_open_send_ms
        }),
{
}

/// A latch is dropped exactly when its release has run for the delay; with it go the attempts, so
/// that the next firing starts afresh. Nothing else changes.
pub proof fn law_release_after_the_delay(s: ServoCommandModel, now_ms: u64, delay_ms: u64)
    requires
        s.open_latched,
        delay_ms > 0,
    ensures
        ({
            let after = after_latch_release(s, now_ms, delay_ms);
            let over = s.open_latch_release_started_ms matches Some(started) && started <= now_ms
                && now_ms - started >= delay_ms;
            &&& after.open_latched == !over
            &&& over ==> after.firing_open_send_count == 0 && after.last_firing_open_send_ms is None
                && after.open_latch_release_started_ms is None
            &&& !over ==> after == s
            &&& after.last_close_send_ms == s.last_close_send_ms
            &&& after.manual_open_command_active == s.manual_open_command_active
        }),
        after_latch_release(ServoCommandModel { open_latched: false, ..s }, now_ms, delay_ms) == (
        ServoCommandModel { open_latched: false, ..s }),
{
}

/// A firing that begins without the latch has all its attempts before it; the end of one that holds
/// the latch starts the release, unless it runs already. No other change of phase does anything.
pub proof fn law_phase_changes(s: ServoCommandModel, phase: ServoPhase, now_ms: u64)
    ensures
        ({
            let after = after_phase_transition(s, phase, now_ms);
            let begins = phase == ServoPhase::Firing && !s.open_latched;
            let ends = (phase == ServoPhase::Timeout || phase == ServoPhase::Abort)
                && s.open_latched && s.open_latch_release_started_ms is None;
            &&& begins ==> after.firing_open_send_count == 0
                && after.last_firing_open_send_ms is None
                && after.open_latch_release_started_ms is None
            &&& ends ==> after.open_latch_release_started_ms == Some(now_ms)
                && after.firing_open_send_count == s.firing_open_send_count
                && after.last_firing_open_send_ms == s.last_firing_open_send_ms
            &&& !begins && !ends ==> after == s
            &&& after.open_latched == s.open_latched
            &&& after.last_close_send_ms == s.last_close_send_ms
            &&& after.manual_open_command_active == s.manual_open_command_active
        }),
{
}

/// A scheduler begins without the latch, without attempts, and without a command on record, so that
/// the first request of the operator is sent at once.
pub proof fn law_scheduler_begins_afresh(call: ScheduleCall, rules: ScheduleRules, angle: i16)
    requires
        call.phase != ServoPhase::Firing,
        call.requested == RequestedServoAction::MoveTo(angle),
    ensures
        !fresh_servo_commands().open_latched,
        fresh_servo_commands().firing_open_send_count == 0,
        fresh_servo_commands().open_latch_release_started_ms is None,
        scheduled_dispatch(fresh_servo_commands(), call, rules).signal_angle_x10 == Some(angle),
{
}

} // verus!
