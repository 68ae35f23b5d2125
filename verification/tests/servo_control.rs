use critical_section as _;

use gse_integrated_board::servo_control::{
    RequestedServoAction, ServoCommandState, ServoDispatch, ServoPhase,
};

const OPEN: i16 = -348;
const CLOSED: i16 = 552;
const POLL_MS: u64 = 200;
const MAX_OPEN: u8 = 10;

fn schedule_open(state: &mut ServoCommandState, now_ms: u64) -> ServoDispatch {
    state.schedule(
        ServoPhase::Firing,
        true,
        RequestedServoAction::MoveTo(OPEN),
        now_ms,
        POLL_MS,
        MAX_OPEN,
        OPEN,
        CLOSED,
    )
}

#[test]
fn firing_open_is_spaced_and_stops_after_ten_attempts() {
    let mut state = ServoCommandState::new();
    state.on_phase_transition(ServoPhase::Firing, 0);

    assert_eq!(
        schedule_open(&mut state, 13_000).signal_angle_x10,
        Some(OPEN)
    );
    assert!(state.open_latched());
    assert_eq!(schedule_open(&mut state, 13_199).signal_angle_x10, None);

    for attempt in 2..=MAX_OPEN {
        let now = 13_000 + u64::from(attempt - 1) * POLL_MS;
        assert_eq!(schedule_open(&mut state, now).signal_angle_x10, Some(OPEN));
    }

    assert_eq!(state.firing_open_send_count(), MAX_OPEN);
    assert_eq!(
        schedule_open(&mut state, 14_999),
        ServoDispatch::command(OPEN, false)
    );
    let dispatch = schedule_open(&mut state, 15_000);
    assert_eq!(dispatch, ServoDispatch::hold());
}

#[test]
fn close_is_periodic_and_never_runs_during_firing() {
    let mut state = ServoCommandState::new();
    let requested = RequestedServoAction::MoveTo(CLOSED);

    let first = state.schedule(
        ServoPhase::Idle,
        false,
        requested,
        0,
        POLL_MS,
        MAX_OPEN,
        OPEN,
        CLOSED,
    );
    assert_eq!(first.signal_angle_x10, Some(CLOSED));
    assert_eq!(
        state
            .schedule(
                ServoPhase::Idle,
                false,
                requested,
                199,
                POLL_MS,
                MAX_OPEN,
                OPEN,
                CLOSED
            )
            .signal_angle_x10,
        None
    );
    assert_eq!(
        state
            .schedule(
                ServoPhase::Idle,
                false,
                requested,
                200,
                POLL_MS,
                MAX_OPEN,
                OPEN,
                CLOSED
            )
            .signal_angle_x10,
        Some(CLOSED)
    );
    assert_eq!(
        state.schedule(
            ServoPhase::Firing,
            false,
            requested,
            400,
            POLL_MS,
            MAX_OPEN,
            OPEN,
            CLOSED
        ),
        ServoDispatch::hold()
    );
}

#[test]
fn latch_survives_abort_and_idle_until_release_delay() {
    let mut state = ServoCommandState::new();
    schedule_open(&mut state, 13_000);
    state.on_phase_transition(ServoPhase::Abort, 14_000);
    assert!(state.release_pending());

    state.on_phase_transition(ServoPhase::Idle, 14_100);
    state.update_latch_release(23_999, 10_000);
    assert!(state.open_latched());
    assert!(!state.can_start_firing());
    assert_eq!(
        state.schedule(
            ServoPhase::Idle,
            false,
            RequestedServoAction::MoveTo(CLOSED),
            23_999,
            POLL_MS,
            MAX_OPEN,
            OPEN,
            CLOSED,
        ),
        ServoDispatch::hold()
    );

    state.update_latch_release(24_000, 10_000);
    assert!(!state.open_latched());
    assert!(state.can_start_firing());
    assert_eq!(
        state
            .schedule(
                ServoPhase::Idle,
                false,
                RequestedServoAction::MoveTo(CLOSED),
                24_000,
                POLL_MS,
                MAX_OPEN,
                OPEN,
                CLOSED,
            )
            .signal_angle_x10,
        Some(CLOSED)
    );
}

#[test]
fn timeout_starts_release_and_latched_state_forces_hold() {
    let mut state = ServoCommandState::new();
    schedule_open(&mut state, 13_000);
    state.on_phase_transition(ServoPhase::Timeout, 23_000);

    assert_eq!(
        state.schedule(
            ServoPhase::Timeout,
            false,
            RequestedServoAction::MoveTo(CLOSED),
            23_000,
            POLL_MS,
            MAX_OPEN,
            OPEN,
            CLOSED,
        ),
        ServoDispatch::hold()
    );
}

#[test]
fn servo_inhibit_does_not_emit_or_count_an_open_attempt() {
    let mut state = ServoCommandState::new();
    assert_eq!(
        state.schedule(
            ServoPhase::Firing,
            true,
            RequestedServoAction::Hold,
            13_000,
            POLL_MS,
            MAX_OPEN,
            OPEN,
            CLOSED,
        ),
        ServoDispatch::hold()
    );
    assert!(state.open_latched());
    assert_eq!(state.firing_open_send_count(), 0);
}

#[test]
fn manual_open_is_signalled_once() {
    let mut state = ServoCommandState::new();
    let open = RequestedServoAction::MoveTo(OPEN);
    let at = |state: &mut ServoCommandState, requested, now_ms| {
        state.schedule(
            ServoPhase::Idle,
            false,
            requested,
            now_ms,
            POLL_MS,
            MAX_OPEN,
            OPEN,
            CLOSED,
        )
    };
    assert_eq!(at(&mut state, open, 0), ServoDispatch::command(OPEN, true));
    assert_eq!(at(&mut state, open, 5000), ServoDispatch::command(OPEN, false));
    assert_eq!(
        at(&mut state, RequestedServoAction::Hold, 5010),
        ServoDispatch::hold()
    );
    assert_eq!(at(&mut state, open, 5020), ServoDispatch::command(OPEN, true));
}

#[test]
fn other_angles_are_always_signalled() {
    let mut state = ServoCommandState::new();
    for now_ms in [0, 1, 2] {
        assert_eq!(
            state.schedule(
                ServoPhase::Idle,
                false,
                RequestedServoAction::MoveTo(100),
                now_ms,
                POLL_MS,
                MAX_OPEN,
                OPEN,
                CLOSED,
            ),
            ServoDispatch::command(100, true)
        );
    }
}

#[test]
fn release_starts_once_and_clears_the_attempts() {
    let mut state = ServoCommandState::new();
    state.on_phase_transition(ServoPhase::Timeout, 10);
    assert!(!state.release_pending());

    schedule_open(&mut state, 13_000);
    assert_eq!(state.firing_open_send_count(), 1);
    state.on_phase_transition(ServoPhase::Timeout, 20_000);
    state.on_phase_transition(ServoPhase::Abort, 25_000);
    state.update_latch_release(29_999, 10_000);
    assert!(state.open_latched());
    state.update_latch_release(30_000, 10_000);
    assert!(!state.open_latched());
    assert!(!state.release_pending());
    assert_eq!(state.firing_open_send_count(), 0);
}
