//! The lifecycle coordination: the process-wide single-fire shutdown signal,
//! the supervisor's reaction to what its liveness poll observes, and the
//! fan-out that folds every exit source - tray quit, interrupt signal,
//! companion-process exit - into that one signal.

use crate::trigger::Debouncer;
use crate::trigger::TickAction;
use crate::trigger::tick_action;
use vstd::prelude::*;

verus! {

/// The process-wide single-fire shutdown event: once raised it is never
/// un-raised, and every polling schedule observing it exits.
pub struct ShutdownSignal {
    pub raised: bool,
}

impl ShutdownSignal {
    /// A fresh, unraised signal.
    pub fn new() -> (signal: ShutdownSignal)
        ensures
            !signal.raised,
    {
        ShutdownSignal { raised: false }
    }

    /// Raises the signal; raising an already-raised signal changes nothing.
    pub fn raise(&mut self)
        ensures
            final(self).raised,
    {
        self.raised = true;
    }

    /// Whether the signal has been raised.
    pub fn is_raised(&self) -> (raised: bool)
        ensures
            raised == self.raised,
    {
        self.raised
    }
}

/// What one liveness poll of the companion process observed.
#[derive(Clone, Copy, Debug, PartialEq, Eq, Structural)]
pub enum LivenessObservation {
    /// The process is still running.
    Running,
    /// The process has exited.
    Exited,
    /// The liveness query itself failed; treated like an exit.
    QueryFailed,
}

/// The signal state after one supervisor step.
pub open spec fn supervisor_post(
    signal: ShutdownSignal,
    observed: LivenessObservation,
) -> ShutdownSignal {
    if observed == LivenessObservation::Running {
        signal
    } else {
        ShutdownSignal { raised: true }
    }
}

/// One step of the supervisor's liveness schedule: on an observed exit or a
/// failed query it raises the shutdown signal and reports that its polling
/// must stop, so the signal is raised exactly once and the query is never
/// retried; while the process runs it changes nothing.
pub fn supervisor_step(signal: &mut ShutdownSignal, observed: LivenessObservation) -> (stop: bool)
    ensures
        *final(signal) == supervisor_post(*old(signal), observed),
        stop == (observed != LivenessObservation::Running),
{
    match observed {
        LivenessObservation::Running => false,
        LivenessObservation::Exited => {
            signal.raise();
            true
        },
        LivenessObservation::QueryFailed => {
            signal.raise();
            true
        },
    }
}

/// Why a shutdown was requested.
#[derive(Clone, Copy, Debug, PartialEq, Eq, Structural)]
pub enum ShutdownCause {
    /// The operator picked quit in the tray menu.
    TrayQuit,
    /// The interrupt signal arrived.
    Interrupt,
    /// The supervised companion process exited on its own.
    CompanionExit,
}

/// The signal state after the coordinator handles a cause: always raised.
pub open spec fn coordinator_post(signal: ShutdownSignal, cause: ShutdownCause) -> ShutdownSignal {
    ShutdownSignal { raised: true }
}

/// Folds one shutdown cause into the signal, and says whether the companion
/// process must be killed: it must for an operator quit or an interrupt, but
/// not when it already exited on its own.
pub fn coordinator_step(signal: &mut ShutdownSignal, cause: ShutdownCause) -> (kill_companion:
    bool)
    ensures
        *final(signal) == coordinator_post(*old(signal), cause),
        final(signal).raised,
        kill_companion == (cause != ShutdownCause::CompanionExit),
{
    signal.raise();
    match cause {
        ShutdownCause::TrayQuit => true,
        ShutdownCause::Interrupt => true,
        ShutdownCause::CompanionExit => false,
    }
}

/// The shutdown signal is monotone: once raised, it stays raised through
/// every supervisor step and every coordinator step.
pub proof fn lemma_shutdown_monotone(
    signal: ShutdownSignal,
    observed: LivenessObservation,
    cause: ShutdownCause,
)
    requires
        signal.raised,
    ensures
        supervisor_post(signal, observed).raised,
        coordinator_post(signal, cause).raised,
{
}

/// Companion-process exit propagates to the trigger loop: the supervisor
/// step that observes the exit (or a failed query) raises the shutdown
/// signal, and every trigger-loop tick that then reads the signal exits,
/// whatever the keys, the debouncer and the clock say - so the loop leaves
/// within one poll interval of the observation.
pub proof fn lemma_exit_propagation(
    signal: ShutdownSignal,
    observed: LivenessObservation,
    control_down: bool,
    shift_down: bool,
    chord_key_down: bool,
    deb: Debouncer,
    now_ms: u64,
)
    requires
        observed != LivenessObservation::Running,
    ensures
        supervisor_post(signal, observed).raised,
        tick_action(
            supervisor_post(signal, observed).raised,
            control_down,
            shift_down,
            chord_key_down,
            deb,
            now_ms,
        ) == TickAction::Exit,
{
}

} // verus!
