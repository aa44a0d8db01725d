//! The start-up state machine.
//!
//! A [`Bootstrap`] value records how far start-up has come. The embedding
//! program performs one host call at a time and reports its answer with
//! [`Bootstrap::step`], which moves the machine on and names the next call.
//! The machine never touches the window itself.

use vstd::prelude::*;
use crate::config::Plugin;

verus! {

/// Whether the target platform can omit a window from screen captures.
#[derive(Clone, Copy, Debug, PartialEq, Eq, Structural)]
pub enum CaptureCapability {
    /// The platform offers a native request for capture exclusion.
    ExcludeFromCapture,
    /// The platform has no such request; nothing is attempted.
    NoOp,
}

/// A window setting that start-up sets once the display is known.
#[derive(Clone, Copy, Debug, PartialEq, Eq, Structural)]
pub enum Setter {
    Size,
    Position,
    AlwaysOnTop,
}

impl Setter {
    /// The setter applied right after this one, if any.
    pub open spec fn successor(self) -> Option<Setter> {
        match self {
            Setter::Size => Some(Setter::Position),
            Setter::Position => Some(Setter::AlwaysOnTop),
            Setter::AlwaysOnTop => None,
        }
    }

    /// The setter to apply after this one; `None` after the last.
    pub fn next(self) -> (r: Option<Setter>)
        ensures
            r == self.successor(),
    {
        match self {
            Setter::Size => Some(Setter::Position),
            Setter::Position => Some(Setter::AlwaysOnTop),
            Setter::AlwaysOnTop => None,
        }
    }
}

/// The coarse state of start-up.
#[derive(Clone, Copy, Debug, PartialEq, Eq, Structural)]
pub enum Phase {
    Init,
    PluginsRegistered,
    WindowReady,
    Running,
}

impl Phase {
    /// Position of the phase in the order in which start-up passes them.
    pub open spec fn ordinal(self) -> nat {
        match self {
            Phase::Init => 0,
            Phase::PluginsRegistered => 1,
            Phase::WindowReady => 2,
            Phase::Running => 3,
        }
    }
}

/// The host call whose answer the machine is waiting for.
#[derive(Clone, Copy, Debug, PartialEq, Eq, Structural)]
pub enum Stage {
    /// Nothing has been asked of the host yet.
    Init,
    RegisteringPlugin(Plugin),
    LookingUpWindow,
    ObtainingHandle,
    ConvertingHandle,
    RequestingExclusion,
    ResolvingMonitor,
    Applying(Setter),
    EnteringRunLoop,
    /// The host's event loop has taken over; start-up is complete.
    Running,
    /// The event loop could not be started; the process must end.
    Aborted,
}

/// What the embedding program reports to the machine.
#[derive(Clone, Copy, Debug, PartialEq, Eq, Structural)]
pub enum Event {
    /// The program asks for the first host call.
    Start,
    PluginRegistered,
    WindowFound,
    WindowAbsent,
    HandleObtained,
    HandleUnavailable,
    /// The native handle is of the platform's own kind.
    HandleConverted,
    /// The native handle is of a kind the platform request cannot take.
    HandleForeign,
    ExclusionGranted,
    ExclusionRefused,
    MonitorResolved,
    MonitorUnavailable,
    SetterApplied,
    SetterFailed,
    RunLoopStarted,
    RunLoopFailed,
}

/// The host call that the embedding program is to make next.
#[derive(Clone, Copy, Debug, PartialEq, Eq, Structural)]
pub enum Action {
    /// Invoke the plugin's initialization hook.
    RegisterPlugin(Plugin),
    /// Ask the window registry for the main window.
    LookUpWindow,
    /// Ask the window for its native handle.
    ObtainHandle,
    /// Turn the native handle into the platform's raw window identifier.
    ConvertHandle,
    /// Ask the platform to omit the window from captures.
    RequestExclusion,
    /// Ask for the primary display.
    ResolveMonitor,
    /// Set one window setting.
    Apply(Setter),
    /// Hand control to the host's event loop.
    EnterRunLoop,
    /// End the process with a diagnostic.
    Abort,
    /// Nothing to do: the event was not the awaited answer, or start-up is
    /// over.
    Idle,
}

impl Action {
    /// Whether the action sets a window setting.
    pub open spec fn is_setter(self) -> bool {
        self is Apply
    }

    /// Whether the action belongs to the capture-exclusion request.
    pub open spec fn is_capture(self) -> bool {
        self is ObtainHandle || self is ConvertHandle || self is RequestExclusion
    }

    /// Whether the action reads or changes the window once it was found.
    pub open spec fn touches_window(self) -> bool {
        self.is_capture() || self.is_setter() || self is ResolveMonitor
    }
}

impl Stage {
    /// The host call that is outstanding in this stage.
    pub open spec fn duty(self) -> Action {
        match self {
            Stage::Init => Action::Idle,
            Stage::RegisteringPlugin(p) => Action::RegisterPlugin(p),
            Stage::LookingUpWindow => Action::LookUpWindow,
            Stage::ObtainingHandle => Action::ObtainHandle,
            Stage::ConvertingHandle => Action::ConvertHandle,
            Stage::RequestingExclusion => Action::RequestExclusion,
            Stage::ResolvingMonitor => Action::ResolveMonitor,
            Stage::Applying(s) => Action::Apply(s),
            Stage::EnteringRunLoop => Action::EnterRunLoop,
            Stage::Running => Action::Idle,
            Stage::Aborted => Action::Abort,
        }
    }

    /// The coarse state that the stage belongs to. A start-up that was
    /// aborted never left `WindowReady`.
    pub open spec fn phase(self) -> Phase {
        match self {
            Stage::Init | Stage::RegisteringPlugin(_) => Phase::Init,
            Stage::EnteringRunLoop | Stage::Aborted => Phase::WindowReady,
            Stage::Running => Phase::Running,
            _ => Phase::PluginsRegistered,
        }
    }

    /// Whether no event moves the machine any further.
    pub open spec fn is_terminal(self) -> bool {
        self is Running || self is Aborted
    }

    /// The stage that follows when `event` arrives in this stage, or `None`
    /// when the event is not an answer to the outstanding call.
    pub open spec fn successor(self, capability: CaptureCapability, event: Event) -> Option<Stage> {
        match (self, event) {
            (Stage::Init, Event::Start) => Some(Stage::RegisteringPlugin(Plugin::Autostart)),
            (Stage::RegisteringPlugin(p), Event::PluginRegistered) => match p.successor() {
                Some(q) => Some(Stage::RegisteringPlugin(q)),
                None => Some(Stage::LookingUpWindow),
            },
            (Stage::LookingUpWindow, Event::WindowFound) => match capability {
                CaptureCapability::ExcludeFromCapture => Some(Stage::ObtainingHandle),
                CaptureCapability::NoOp => Some(Stage::ResolvingMonitor),
            },
            (Stage::LookingUpWindow, Event::WindowAbsent) => Some(Stage::EnteringRunLoop),
            (Stage::ObtainingHandle, Event::HandleObtained) => Some(Stage::ConvertingHandle),
            (Stage::ObtainingHandle, Event::HandleUnavailable) => Some(Stage::ResolvingMonitor),
            (Stage::ConvertingHandle, Event::HandleConverted) => Some(Stage::RequestingExclusion),
            (Stage::ConvertingHandle, Event::HandleForeign) => Some(Stage::ResolvingMonitor),
            (Stage::RequestingExclusion, Event::ExclusionGranted) => Some(Stage::ResolvingMonitor),
            (Stage::RequestingExclusion, Event::ExclusionRefused) => Some(Stage::ResolvingMonitor),
            (Stage::ResolvingMonitor, Event::MonitorResolved) => Some(
                Stage::Applying(Setter::Size),
            ),
            (Stage::ResolvingMonitor, Event::MonitorUnavailable) => Some(Stage::EnteringRunLoop),
            (Stage::Applying(s), Event::SetterApplied) | (Stage::Applying(s), Event::SetterFailed) => match s.successor() {
                Some(t) => Some(Stage::Applying(t)),
                None => Some(Stage::EnteringRunLoop),
            },
            (Stage::EnteringRunLoop, Event::RunLoopStarted) => Some(Stage::Running),
            (Stage::EnteringRunLoop, Event::RunLoopFailed) => Some(Stage::Aborted),
            _ => None,
        }
    }

    /// An upper bound on the number of answers still to come before
    /// start-up is over.
    pub open spec fn remaining(self) -> nat {
        match self {
            Stage::Init => 14,
            Stage::RegisteringPlugin(p) => (13 - p.position()) as nat,
            Stage::LookingUpWindow => 9,
            Stage::ObtainingHandle => 8,
            Stage::ConvertingHandle => 7,
            Stage::RequestingExclusion => 6,
            Stage::ResolvingMonitor => 5,
            Stage::Applying(Setter::Size) => 4,
            Stage::Applying(Setter::Position) => 3,
            Stage::Applying(Setter::AlwaysOnTop) => 2,
            Stage::EnteringRunLoop => 1,
            Stage::Running | Stage::Aborted => 0,
        }
    }
}

/// The start-up state machine: the platform's capture capability, fixed when
/// the machine is made, and the current stage.
#[derive(Clone, Copy, Debug, PartialEq, Eq, Structural)]
pub struct Bootstrap {
    pub capability: CaptureCapability,
    pub stage: Stage,
}

impl Bootstrap {
    /// The machine before anything was asked of the host.
    pub open spec fn initial(capability: CaptureCapability) -> Bootstrap {
        Bootstrap { capability, stage: Stage::Init }
    }

    /// Whether the stage is one that the capability allows: a machine for a
    /// platform without capture exclusion is never in a stage of the
    /// capture-exclusion request.
    pub open spec fn well_formed(self) -> bool {
        self.capability is NoOp ==> !self.stage.duty().is_capture()
    }

    /// Whether `event` answers the outstanding call.
    pub open spec fn accepts(self, event: Event) -> bool {
        self.stage.successor(self.capability, event) is Some
    }

    /// The machine after `event`. An event that is not accepted changes
    /// nothing.
    pub open spec fn after(self, event: Event) -> Bootstrap {
        match self.stage.successor(self.capability, event) {
            Some(next) => Bootstrap { capability: self.capability, stage: next },
            None => self,
        }
    }

    /// The call that `event` gives rise to: the duty of the stage it leads
    /// to, or `Idle` when the event is not accepted.
    pub open spec fn response(self, event: Event) -> Action {
        match self.stage.successor(self.capability, event) {
            Some(next) => next.duty(),
            None => Action::Idle,
        }
    }

    /// A machine for a platform of the given capability, before anything
    /// was asked of the host.
    pub fn new(capability: CaptureCapability) -> (b: Bootstrap)
        ensures
            b == Self::initial(capability),
            b.well_formed(),
    {
        Bootstrap { capability, stage: Stage::Init }
    }

    /// The capability that the machine was made with.
    pub fn capability(&self) -> (c: CaptureCapability)
        ensures
            c == self.capability,
    {
        self.capability
    }

    /// The current stage.
    pub fn stage(&self) -> (s: Stage)
        ensures
            s == self.stage,
    {
        self.stage
    }

    /// The coarse state that the current stage belongs to.
    pub fn phase(&self) -> (p: Phase)
        ensures
            p == self.stage.phase(),
    {
        match self.stage {
            Stage::Init => Phase::Init,
            Stage::RegisteringPlugin(_) => Phase::Init,
            Stage::EnteringRunLoop => Phase::WindowReady,
            Stage::Aborted => Phase::WindowReady,
            Stage::Running => Phase::Running,
            _ => Phase::PluginsRegistered,
        }
    }

    /// Whether start-up is over, with the event loop running or not.
    pub fn is_terminal(&self) -> (t: bool)
        ensures
            t == self.stage.is_terminal(),
    {
        match self.stage {
            Stage::Running => true,
            Stage::Aborted => true,
            _ => false,
        }
    }

    /// The call that is outstanding now.
    pub fn pending(&self) -> (a: Action)
        ensures
            a == self.stage.duty(),
    {
        duty_of(self.stage)
    }

    /// The stage that `event` leads to, if it answers the outstanding call.
    pub fn next_stage(&self, event: Event) -> (r: Option<Stage>)
        ensures
            r == self.stage.successor(self.capability, event),
    {
        match self.stage {
            Stage::Init => match event {
                Event::Start => Some(Stage::RegisteringPlugin(Plugin::first())),
                _ => None,
            },
            Stage::RegisteringPlugin(p) => match event {
                Event::PluginRegistered => match p.next() {
                    Some(q) => Some(Stage::RegisteringPlugin(q)),
                    None => Some(Stage::LookingUpWindow),
                },
                _ => None,
            },
            Stage::LookingUpWindow => match event {
                Event::WindowFound => match self.capability {
                    CaptureCapability::ExcludeFromCapture => Some(Stage::ObtainingHandle),
                    CaptureCapability::NoOp => Some(Stage::ResolvingMonitor),
                },
                Event::WindowAbsent => Some(Stage::EnteringRunLoop),
                _ => None,
            },
            Stage::ObtainingHandle => match event {
                Event::HandleObtained => Some(Stage::ConvertingHandle),
                Event::HandleUnavailable => Some(Stage::ResolvingMonitor),
                _ => None,
            },
            Stage::ConvertingHandle => match event {
                Event::HandleConverted => Some(Stage::RequestingExclusion),
                Event::HandleForeign => Some(Stage::ResolvingMonitor),
                _ => None,
            },
            Stage::RequestingExclusion => match event {
                Event::ExclusionGranted => Some(Stage::ResolvingMonitor),
                Event::ExclusionRefused => Some(Stage::ResolvingMonitor),
                _ => None,
            },
            Stage::ResolvingMonitor => match event {
                Event::MonitorResolved => Some(Stage::Applying(Setter::Size)),
                Event::MonitorUnavailable => Some(Stage::EnteringRunLoop),
                _ => None,
            },
            Stage::Applying(s) => match event {
                Event::SetterApplied | Event::SetterFailed => match s.next() {
                    Some(t) => Some(Stage::Applying(t)),
                    None => Some(Stage::EnteringRunLoop),
                },
                _ => None,
            },
            Stage::EnteringRunLoop => match event {
                Event::RunLoopStarted => Some(Stage::Running),
                Event::RunLoopFailed => Some(Stage::Aborted),
                _ => None,
            },
            Stage::Running => None,
            Stage::Aborted => None,
        }
    }

    /// Whether `event` answers the outstanding call.
    pub fn expects(&self, event: Event) -> (r: bool)
        ensures
            r == self.accepts(event),
    {
        self.next_stage(event).is_some()
    }

    /// Takes the host's answer and names the next call.
    ///
    /// An accepted event moves the machine to the following stage and the
    /// result is that stage's duty. Any other event leaves the machine as it
    /// was and the result is `Idle`. The phase never goes back, and every
    /// accepted event brings the end of start-up nearer.
    pub fn step(&mut self, event: Event) -> (action: Action)
        ensures
            *final(self) == old(self).after(event),
            action == old(self).response(event),
            final(self).capability == old(self).capability,
            final(self).stage.phase().ordinal() >= old(self).stage.phase().ordinal(),
            old(self).accepts(event) ==> final(self).stage.remaining() < old(self).stage.remaining(),
            old(self).well_formed() ==> final(self).well_formed(),
            action is Abort <==> old(self).stage is EnteringRunLoop && event is RunLoopFailed,
            final(self).stage is Running <==> old(self).stage is Running || (old(
                self,
            ).stage is EnteringRunLoop && event is RunLoopStarted),
            action.is_setter() ==> old(self).stage is Applying || (old(
                self,
            ).stage is ResolvingMonitor && event is MonitorResolved),
    {
        match self.next_stage(event) {
            Some(next) => {
                self.stage = next;
                duty_of(next)
            },
            None => Action::Idle,
        }
    }
}

/// Start-up is never stuck: as long as it is not over, some answer of the
/// host moves it on.
pub proof fn law_never_stuck(b: Bootstrap)
    requires
        !b.stage.is_terminal(),
    ensures
        exists|event: Event| b.accepts(event),
{
    let witness = match b.stage {
        Stage::Init => Event::Start,
        Stage::RegisteringPlugin(_) => Event::PluginRegistered,
        Stage::LookingUpWindow => Event::WindowAbsent,
        Stage::ObtainingHandle => Event::HandleObtained,
        Stage::ConvertingHandle => Event::HandleConverted,
        Stage::RequestingExclusion => Event::ExclusionGranted,
        Stage::ResolvingMonitor => Event::MonitorResolved,
        Stage::Applying(_) => Event::SetterApplied,
        _ => Event::RunLoopStarted,
    };
    assert(b.accepts(witness));
}

/// The host call that is outstanding in `stage`.
pub fn duty_of(stage: Stage) -> (a: Action)
    ensures
        a == stage.duty(),
{
    match stage {
        Stage::Init => Action::Idle,
        Stage::RegisteringPlugin(p) => Action::RegisterPlugin(p),
        Stage::LookingUpWindow => Action::LookUpWindow,
        Stage::ObtainingHandle => Action::ObtainHandle,
        Stage::ConvertingHandle => Action::ConvertHandle,
        Stage::RequestingExclusion => Action::RequestExclusion,
        Stage::ResolvingMonitor => Action::ResolveMonitor,
        Stage::Applying(s) => Action::Apply(s),
        Stage::EnteringRunLoop => Action::EnterRunLoop,
        Stage::Running => Action::Idle,
        Stage::Aborted => Action::Abort,
    }
}

} // verus!
