//! Single-slot signals through which one task wakes another.
use embassy_sync::blocking_mutex::raw::CriticalSectionRawMutex;
use embassy_sync::signal::Signal;
use vstd::prelude::*;

verus! {

/// Wakes the supervisor; the firmware waits on `inner`.
#[verifier::external_body]
pub struct ControlUpdateSignal {
    pub inner: Signal<CriticalSectionRawMutex, ()>,
}

/// Hands an angle, in tenths of a degree, to the servo task; the firmware waits on `inner`.
#[verifier::external_body]
pub struct AngleCommandSignal {
    pub inner: Signal<CriticalSectionRawMutex, i16>,
}

/// What waits in a [`ControlUpdateSignal`]: nothing, or one update.
pub uninterp spec fn queued_updates(signal: ControlUpdateSignal) -> Seq<()>;

/// What waits in an [`AngleCommandSignal`]: nothing, or the latest angle.
pub uninterp spec fn queued_angles(signal: AngleCommandSignal) -> Seq<i16>;

impl ControlUpdateSignal {
    /// Calls `embassy_sync::signal::Signal::new`. Claims that nothing waits in a new signal.
    #[verifier::external_body]
    pub(crate) fn new() -> (signal: Self)
        ensures
            queued_updates(signal) == Seq::<()>::empty(),
    {
        Self { inner: Signal::new() }
    }

    /// Calls `embassy_sync::signal::Signal::signal`. Claims that afterwards exactly one update
    /// waits, whatever waited before. That a waiting task is woken is not stated.
    #[verifier::external_body]
    pub(crate) fn raise(&mut self)
        ensures
            queued_updates(*final(self)) == seq![()],
    {
        self.inner.signal(());
    }
}

impl AngleCommandSignal {
    /// Calls `embassy_sync::signal::Signal::new`. Claims that nothing waits in a new signal.
    #[verifier::external_body]
    pub(crate) fn new() -> (signal: Self)
        ensures
            queued_angles(signal) == Seq::<i16>::empty(),
    {
        Self { inner: Signal::new() }
    }

    /// Calls `embassy_sync::signal::Signal::signal`. Claims that afterwards `angle_x10` waits
    /// alone: a value that nobody has taken is replaced. That a waiting task is woken is not
    /// stated.
    #[verifier::external_body]
    pub(crate) fn raise(&mut self, angle_x10: i16)
        ensures
            queued_angles(*final(self)) == seq![angle_x10],
    {
        self.inner.signal(angle_x10);
    }
}

} // verus!
