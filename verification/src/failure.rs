//! Which answers of the host count as failures, and which of them end
//! start-up.
//!
//! Every failure of a window customization is tolerated: the machine goes on
//! as if the step had never been asked for. Only a failure to start the
//! event loop is fatal.

use vstd::prelude::*;
use crate::bootstrap::{Action, Bootstrap, Event, Setter, Stage};

verus! {

/// A failure that the host may report during start-up.
#[derive(Clone, Copy, Debug, PartialEq, Eq, Structural)]
pub enum Failure {
    /// No primary display was reported; the window keeps the placement that
    /// the host gave it.
    MonitorUnavailable,
    /// The capture-exclusion request could not be carried through; the
    /// window stays visible to captures.
    HandleConversionFailure,
    /// One window setting could not be set and is left as it was.
    SetterFailure(Setter),
    /// The event loop did not start.
    BootstrapFatal,
}

impl Failure {
    /// Only the failure to start the event loop is fatal.
    pub open spec fn is_fatal_spec(self) -> bool {
        self is BootstrapFatal
    }

    /// Whether the failure ends the process.
    pub fn is_fatal(self) -> (fatal: bool)
        ensures
            fatal == self.is_fatal_spec(),
    {
        match self {
            Failure::BootstrapFatal => true,
            _ => false,
        }
    }
}

impl Stage {
    /// The failure that `event` reports when it arrives in this stage, or
    /// `None` when it reports a success or does not answer this stage's
    /// call.
    pub open spec fn failure(self, event: Event) -> Option<Failure> {
        match (self, event) {
            (Stage::ObtainingHandle, Event::HandleUnavailable) => Some(
                Failure::HandleConversionFailure,
            ),
            (Stage::ConvertingHandle, Event::HandleForeign) => Some(
                Failure::HandleConversionFailure,
            ),
            (Stage::RequestingExclusion, Event::ExclusionRefused) => Some(
                Failure::HandleConversionFailure,
            ),
            (Stage::ResolvingMonitor, Event::MonitorUnavailable) => Some(
                Failure::MonitorUnavailable,
            ),
            (Stage::Applying(s), Event::SetterFailed) => Some(Failure::SetterFailure(s)),
            (Stage::EnteringRunLoop, Event::RunLoopFailed) => Some(Failure::BootstrapFatal),
            _ => None,
        }
    }
}

impl Bootstrap {
    /// Classifies the host's answer before it is handed to `step`.
    ///
    /// A classified event is always one that the machine accepts, and the
    /// machine aborts on it exactly when the failure is fatal.
    pub fn failure_of(&self, event: Event) -> (r: Option<Failure>)
        ensures
            r == self.stage.failure(event),
            r is Some ==> self.accepts(event),
            (r matches Some(f) && f.is_fatal_spec()) <==> self.response(event) is Abort,
    {
        match self.stage {
            Stage::ObtainingHandle => match event {
                Event::HandleUnavailable => Some(Failure::HandleConversionFailure),
                _ => None,
            },
            Stage::ConvertingHandle => match event {
                Event::HandleForeign => Some(Failure::HandleConversionFailure),
                _ => None,
            },
            Stage::RequestingExclusion => match event {
                Event::ExclusionRefused => Some(Failure::HandleConversionFailure),
                _ => None,
            },
            Stage::ResolvingMonitor => match event {
                Event::MonitorUnavailable => Some(Failure::MonitorUnavailable),
                _ => None,
            },
            Stage::Applying(s) => match event {
                Event::SetterFailed => Some(Failure::SetterFailure(s)),
                _ => None,
            },
            Stage::EnteringRunLoop => match event {
                Event::RunLoopFailed => Some(Failure::BootstrapFatal),
                _ => None,
            },
            _ => None,
        }
    }
}

/// A failed setter is passed over: the machine goes on exactly as it does
/// after a setter that succeeded, so no setter depends on another.
pub proof fn law_setter_failure_is_discarded(b: Bootstrap)
    requires
        b.stage is Applying,
    ensures
        b.after(Event::SetterFailed) == b.after(Event::SetterApplied),
        b.response(Event::SetterFailed) == b.response(Event::SetterApplied),
        b.response(Event::SetterFailed) is Apply || b.response(Event::SetterFailed) is EnterRunLoop,
{
}

/// Whatever goes wrong with capture exclusion, the next call is the one
/// that resolves the display: placement is attempted all the same.
pub proof fn law_capture_failure_is_discarded(b: Bootstrap, event: Event)
    requires
        b.stage.failure(event) == Some(Failure::HandleConversionFailure),
    ensures
        b.response(event) == Action::ResolveMonitor,
        b.after(event).stage == Stage::ResolvingMonitor,
{
}

/// A failure that is not fatal never stops start-up: the machine accepts the
/// event, moves on, and names a call other than `Abort`.
pub proof fn law_only_fatal_failures_abort(b: Bootstrap, event: Event)
    requires
        b.stage.failure(event) is Some,
    ensures
        b.accepts(event),
        b.after(event).stage.remaining() < b.stage.remaining(),
        b.response(event) is Abort <==> b.stage.failure(event)->0.is_fatal_spec(),
        b.after(event).stage is Aborted <==> b.stage.failure(event)->0.is_fatal_spec(),
{
}

} // verus!
