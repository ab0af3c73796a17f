use vstd::prelude::*;

verus! {

/// Shutdown helper which allows to propagate a termination signal
/// amongst the daemon's concurrent tasks.
///
/// Each task holds one latch, bound to the shared [`ShutdownCoordinator`].
/// The actual waiting on the shared broadcast happens outside this crate;
/// when the broadcast delivers, the caller records the observation here
/// through [`ShutdownCoordinator::deliver`]. The latched flag is monotonic:
/// once set it never resets, so a wait that comes strictly after the
/// trigger still returns immediately.
pub struct Shutdown {
    /// False until the shared trigger has been observed.
    kill: bool,
}

impl Shutdown {
    /// Whether this latch has observed the shared trigger.
    pub closed spec fn spec_is_shutdown(&self) -> bool {
        self.kill
    }

    /// Constructor: a fresh latch has not observed any trigger yet.
    pub fn new() -> (latch: Shutdown)
        ensures
            !latch.spec_is_shutdown(),
    {
        Shutdown { kill: false }
    }

    /// Non-blocking poll of the latched state.
    pub fn is_shutdown(&self) -> (down: bool)
        ensures
            down == self.spec_is_shutdown(),
    {
        self.kill
    }

    /// Records that the shared trigger has been observed; permanent.
    pub fn observe(&mut self)
        ensures
            final(self).spec_is_shutdown(),
    {
        self.kill = true;
    }
}

/// The shared one-shot shutdown trigger, fanned out to every subscribed
/// latch. Firing is idempotent and the fired state never resets, so every
/// subscriber eventually observes the same single event, independently of
/// whether it subscribed before or after the trigger.
pub struct ShutdownCoordinator {
    /// Whether the single shutdown event has been fired.
    fired: bool,
}

/// The coordinator state after its trigger has been fired.
pub closed spec fn spec_trigger(coordinator: ShutdownCoordinator) -> ShutdownCoordinator {
    ShutdownCoordinator { fired: true }
}

/// The latch state after the coordinator's state has been delivered to it:
/// the latch stays latched, and latches onto a fired trigger.
pub closed spec fn spec_deliver(coordinator: ShutdownCoordinator, latch: Shutdown) -> Shutdown {
    Shutdown { kill: latch.kill || coordinator.fired }
}

impl ShutdownCoordinator {
    /// Whether the single shutdown event has been fired.
    pub closed spec fn spec_fired(&self) -> bool {
        self.fired
    }

    /// Constructor: the event starts unfired.
    pub fn new() -> (coordinator: ShutdownCoordinator)
        ensures
            !coordinator.spec_fired(),
    {
        ShutdownCoordinator { fired: false }
    }

    /// Returns a new latch bound to this trigger. A latch subscribed after
    /// the trigger has fired catches up at its next [`Self::deliver`].
    pub fn subscribe(&self) -> (latch: Shutdown)
        ensures
            !latch.spec_is_shutdown(),
    {
        Shutdown::new()
    }

    /// Fires the shared event. Firing it again after the first time has no
    /// additional effect, and the fired state never resets.
    pub fn trigger(&mut self)
        ensures
            *final(self) == spec_trigger(*old(self)),
            final(self).spec_fired(),
    {
        self.fired = true;
    }

    /// Propagates the trigger's current state to one latch: the completion
    /// of that latch's wait. If the event has fired, the latch observes it,
    /// whether it subscribed before or after the trigger; an observation
    /// already made is kept either way.
    pub fn deliver(&self, latch: &mut Shutdown)
        ensures
            *final(latch) == spec_deliver(*self, *old(latch)),
            final(latch).spec_is_shutdown() == (old(latch).spec_is_shutdown()
                || self.spec_fired()),
    {
        if self.fired {
            latch.observe();
        }
    }
}

/// Law: once the trigger has fired, delivery to any latch leaves it
/// observed, whether the latch subscribed before the trigger or only
/// checks after it.
pub proof fn lemma_fired_is_observed(coordinator: ShutdownCoordinator, latch: Shutdown)
    requires
        coordinator.spec_fired(),
    ensures
        spec_deliver(coordinator, latch).spec_is_shutdown(),
{
}

/// Law: firing the trigger a second time has no additional effect.
pub proof fn lemma_trigger_idempotent(coordinator: ShutdownCoordinator)
    ensures
        spec_trigger(spec_trigger(coordinator)) == spec_trigger(coordinator),
{
}

/// Law: delivery never clears a latch that has already observed shutdown.
pub proof fn lemma_observation_is_permanent(coordinator: ShutdownCoordinator, latch: Shutdown)
    requires
        latch.spec_is_shutdown(),
    ensures
        spec_deliver(coordinator, latch).spec_is_shutdown(),
{
}

} // verus!
