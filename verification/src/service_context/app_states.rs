//! The lifecycle signal: the one flag by which every part of the service
//! learns that the service runs and that it is asked to stop.

use vstd::prelude::*;

verus! {

/// What the lifecycle signal says.
#[derive(Clone, Copy, PartialEq, Eq, Debug, Structural)]
pub enum LifecyclePhase {
    /// The service was not started yet.
    Uninitialized,
    /// The service runs.
    Running,
    /// The service was asked to stop. Nothing takes this back.
    ShutdownRequested,
}

/// The lifecycle signal of one service.
#[derive(Clone, Copy, PartialEq, Eq, Debug, Structural)]
pub struct AppStates {
    phase: LifecyclePhase,
}

impl LifecyclePhase {
    /// The phase after the service was marked as running: a service that
    /// was asked to stop stays asked to stop.
    pub open spec fn marked_running(self) -> LifecyclePhase {
        match self {
            LifecyclePhase::ShutdownRequested => LifecyclePhase::ShutdownRequested,
            _ => LifecyclePhase::Running,
        }
    }

    /// Whether `next` is this phase or a later one.
    pub open spec fn leads_to(self, next: LifecyclePhase) -> bool {
        match (self, next) {
            (LifecyclePhase::Uninitialized, _) => true,
            (LifecyclePhase::Running, LifecyclePhase::Uninitialized) => false,
            (LifecyclePhase::Running, _) => true,
            (LifecyclePhase::ShutdownRequested, LifecyclePhase::ShutdownRequested) => true,
            (LifecyclePhase::ShutdownRequested, _) => false,
        }
    }
}

impl AppStates {
    /// What the signal says.
    pub closed spec fn phase(self) -> LifecyclePhase {
        self.phase
    }

    /// The signal of a service that was not started yet.
    pub fn create_un_initialized() -> (signal: AppStates)
        ensures
            signal.phase() == LifecyclePhase::Uninitialized,
    {
        AppStates { phase: LifecyclePhase::Uninitialized }
    }

    /// What the signal says.
    pub fn current(&self) -> (phase: LifecyclePhase)
        ensures
            phase == self.phase(),
    {
        self.phase
    }

    /// Marks the service as running. A request to stop that came earlier
    /// stays in force.
    pub fn set_initialized(&mut self)
        ensures
            final(self).phase() == old(self).phase().marked_running(),
            old(self).phase().leads_to(final(self).phase()),
    {
        match self.phase {
            LifecyclePhase::ShutdownRequested => {},
            _ => {
                self.phase = LifecyclePhase::Running;
            },
        }
    }

    /// Asks the service to stop.
    pub fn set_shutting_down(&mut self)
        ensures
            final(self).phase() == LifecyclePhase::ShutdownRequested,
            old(self).phase().leads_to(final(self).phase()),
    {
        self.phase = LifecyclePhase::ShutdownRequested;
    }

    /// Whether the service runs and was not asked to stop.
    pub fn is_initialized(&self) -> (b: bool)
        ensures
            b == (self.phase() == LifecyclePhase::Running),
    {
        self.phase == LifecyclePhase::Running
    }

    /// Whether the service was asked to stop.
    pub fn is_shutting_down(&self) -> (b: bool)
        ensures
            b == (self.phase() == LifecyclePhase::ShutdownRequested),
    {
        self.phase == LifecyclePhase::ShutdownRequested
    }

    /// Whether one who waits for the shutdown has to go on waiting: until
    /// the service is asked to stop.
    pub fn wait_until_shutdown(&self) -> (keep_waiting: bool)
        ensures
            keep_waiting == (self.phase() != LifecyclePhase::ShutdownRequested),
    {
        self.phase != LifecyclePhase::ShutdownRequested
    }
}

} // verus!
