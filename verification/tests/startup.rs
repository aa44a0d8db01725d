use window_bootstrap::bootstrap::duty_of;
use window_bootstrap::{
    main_window_label, replay, Action, Bootstrap, CaptureCapability, Event, Failure,
    LauncherMode, Phase, Plugin, Setter, Stage, WindowSpec,
};

fn plugin_events() -> Vec<Event> {
    vec![
        Event::Start,
        Event::PluginRegistered,
        Event::PluginRegistered,
        Event::PluginRegistered,
        Event::PluginRegistered,
    ]
}

fn plugin_actions() -> Vec<Action> {
    vec![
        Action::RegisterPlugin(Plugin::Autostart),
        Action::RegisterPlugin(Plugin::Process),
        Action::RegisterPlugin(Plugin::Updater),
        Action::RegisterPlugin(Plugin::Opener),
        Action::LookUpWindow,
    ]
}

fn at_stage(capability: CaptureCapability, stage: Stage) -> Bootstrap {
    Bootstrap { capability, stage }
}

#[test]
fn window_spec_is_fixed() {
    let spec = WindowSpec::fixed();
    assert_eq!(spec.logical_width, 420);
    assert_eq!(spec.logical_height, 300);
    assert_eq!(spec.vertical_offset, -300);
}

#[test]
fn main_window_is_looked_up_as_main() {
    assert_eq!(main_window_label(), "main");
}

#[test]
fn plugin_chain_order() {
    assert_eq!(Plugin::first(), Plugin::Autostart);
    assert_eq!(Plugin::Autostart.next(), Some(Plugin::Process));
    assert_eq!(Plugin::Process.next(), Some(Plugin::Updater));
    assert_eq!(Plugin::Updater.next(), Some(Plugin::Opener));
    assert_eq!(Plugin::Opener.next(), None);
}

#[test]
fn only_autostart_takes_a_launcher() {
    assert_eq!(Plugin::Autostart.launcher(), Some(LauncherMode::LaunchAgent));
    assert_eq!(Plugin::Process.launcher(), None);
    assert_eq!(Plugin::Updater.launcher(), None);
    assert_eq!(Plugin::Opener.launcher(), None);
}

#[test]
fn setter_order() {
    assert_eq!(Setter::Size.next(), Some(Setter::Position));
    assert_eq!(Setter::Position.next(), Some(Setter::AlwaysOnTop));
    assert_eq!(Setter::AlwaysOnTop.next(), None);
}

#[test]
fn new_machine_is_in_init() {
    let machine = Bootstrap::new(CaptureCapability::ExcludeFromCapture);
    assert_eq!(machine.stage(), Stage::Init);
    assert_eq!(machine.phase(), Phase::Init);
    assert_eq!(machine.capability(), CaptureCapability::ExcludeFromCapture);
    assert_eq!(machine.pending(), Action::Idle);
    assert!(!machine.is_terminal());
}

#[test]
fn plugins_are_registered_in_declared_order() {
    let (machine, actions) = replay(CaptureCapability::NoOp, &plugin_events());
    assert_eq!(actions, plugin_actions());
    assert_eq!(machine.stage(), Stage::LookingUpWindow);
    assert_eq!(machine.phase(), Phase::PluginsRegistered);
}

#[test]
fn phase_is_init_until_the_last_plugin_is_registered() {
    let mut machine = Bootstrap::new(CaptureCapability::NoOp);
    machine.step(Event::Start);
    for _ in 0..3 {
        machine.step(Event::PluginRegistered);
        assert_eq!(machine.phase(), Phase::Init);
    }
    machine.step(Event::PluginRegistered);
    assert_eq!(machine.phase(), Phase::PluginsRegistered);
}

#[test]
fn full_run_with_capture_exclusion() {
    let mut events = plugin_events();
    events.extend([
        Event::WindowFound,
        Event::HandleObtained,
        Event::HandleConverted,
        Event::ExclusionGranted,
        Event::MonitorResolved,
        Event::SetterApplied,
        Event::SetterApplied,
        Event::SetterApplied,
        Event::RunLoopStarted,
    ]);
    let (machine, actions) = replay(CaptureCapability::ExcludeFromCapture, &events);
    let mut expected = plugin_actions();
    expected.extend([
        Action::ObtainHandle,
        Action::ConvertHandle,
        Action::RequestExclusion,
        Action::ResolveMonitor,
        Action::Apply(Setter::Size),
        Action::Apply(Setter::Position),
        Action::Apply(Setter::AlwaysOnTop),
        Action::EnterRunLoop,
        Action::Idle,
    ]);
    assert_eq!(actions, expected);
    assert_eq!(events.len(), 14);
    assert_eq!(machine.stage(), Stage::Running);
    assert_eq!(machine.phase(), Phase::Running);
    assert!(machine.is_terminal());
}

#[test]
fn no_op_platform_still_applies_geometry() {
    let mut events = plugin_events();
    events.extend([
        Event::WindowFound,
        Event::MonitorResolved,
        Event::SetterApplied,
        Event::SetterApplied,
        Event::SetterApplied,
        Event::RunLoopStarted,
    ]);
    let (machine, actions) = replay(CaptureCapability::NoOp, &events);
    let mut expected = plugin_actions();
    expected.extend([
        Action::ResolveMonitor,
        Action::Apply(Setter::Size),
        Action::Apply(Setter::Position),
        Action::Apply(Setter::AlwaysOnTop),
        Action::EnterRunLoop,
        Action::Idle,
    ]);
    assert_eq!(actions, expected);
    assert_eq!(machine.stage(), Stage::Running);
    assert!(!actions.iter().any(|a| matches!(
        a,
        Action::ObtainHandle | Action::ConvertHandle | Action::RequestExclusion
    )));
}

#[test]
fn absent_window_skips_to_the_run_loop() {
    for capability in [CaptureCapability::ExcludeFromCapture, CaptureCapability::NoOp] {
        let mut events = plugin_events();
        events.extend([Event::WindowAbsent, Event::RunLoopStarted]);
        let (machine, actions) = replay(capability, &events);
        let mut expected = plugin_actions();
        expected.extend([Action::EnterRunLoop, Action::Idle]);
        assert_eq!(actions, expected);
        assert_eq!(machine.stage(), Stage::Running);
        assert_eq!(machine.phase(), Phase::Running);
    }
}

#[test]
fn absent_monitor_applies_no_setter() {
    let mut events = plugin_events();
    events.extend([
        Event::WindowFound,
        Event::HandleObtained,
        Event::HandleConverted,
        Event::ExclusionGranted,
        Event::MonitorUnavailable,
        Event::SetterApplied,
        Event::RunLoopStarted,
    ]);
    let (machine, actions) = replay(CaptureCapability::ExcludeFromCapture, &events);
    assert!(!actions.iter().any(|a| matches!(a, Action::Apply(_))));
    assert_eq!(
        actions[9..].to_vec(),
        vec![Action::EnterRunLoop, Action::Idle, Action::Idle]
    );
    assert_eq!(machine.stage(), Stage::Running);
}

#[test]
fn failed_setters_do_not_block_the_others() {
    let mut events = plugin_events();
    events.extend([
        Event::WindowFound,
        Event::MonitorResolved,
        Event::SetterFailed,
        Event::SetterFailed,
        Event::SetterFailed,
        Event::RunLoopStarted,
    ]);
    let (machine, actions) = replay(CaptureCapability::NoOp, &events);
    assert_eq!(
        actions[5..].to_vec(),
        vec![
            Action::ResolveMonitor,
            Action::Apply(Setter::Size),
            Action::Apply(Setter::Position),
            Action::Apply(Setter::AlwaysOnTop),
            Action::EnterRunLoop,
            Action::Idle,
        ]
    );
    assert_eq!(machine.stage(), Stage::Running);
}

#[test]
fn capture_failures_lead_to_the_monitor() {
    let cap = CaptureCapability::ExcludeFromCapture;
    let cases = [
        (Stage::ObtainingHandle, Event::HandleUnavailable),
        (Stage::ConvertingHandle, Event::HandleForeign),
        (Stage::RequestingExclusion, Event::ExclusionRefused),
        (Stage::RequestingExclusion, Event::ExclusionGranted),
    ];
    for (stage, event) in cases {
        let mut machine = at_stage(cap, stage);
        assert_eq!(machine.step(event), Action::ResolveMonitor);
        assert_eq!(machine.stage(), Stage::ResolvingMonitor);
    }
}

#[test]
fn capture_request_has_three_steps() {
    let cap = CaptureCapability::ExcludeFromCapture;
    let mut machine = at_stage(cap, Stage::LookingUpWindow);
    assert_eq!(machine.step(Event::WindowFound), Action::ObtainHandle);
    assert_eq!(machine.step(Event::HandleObtained), Action::ConvertHandle);
    assert_eq!(machine.step(Event::HandleConverted), Action::RequestExclusion);
    assert_eq!(machine.phase(), Phase::PluginsRegistered);
}

#[test]
fn run_loop_failure_aborts() {
    let mut machine = at_stage(CaptureCapability::NoOp, Stage::EnteringRunLoop);
    assert_eq!(machine.phase(), Phase::WindowReady);
    assert_eq!(machine.failure_of(Event::RunLoopFailed), Some(Failure::BootstrapFatal));
    assert_eq!(machine.step(Event::RunLoopFailed), Action::Abort);
    assert_eq!(machine.stage(), Stage::Aborted);
    assert_eq!(machine.phase(), Phase::WindowReady);
    assert_eq!(machine.pending(), Action::Abort);
    assert!(machine.is_terminal());
    assert_eq!(machine.step(Event::RunLoopStarted), Action::Idle);
    assert_eq!(machine.stage(), Stage::Aborted);
}

#[test]
fn unexpected_event_changes_nothing() {
    let mut machine = Bootstrap::new(CaptureCapability::ExcludeFromCapture);
    assert_eq!(machine.step(Event::SetterApplied), Action::Idle);
    assert_eq!(machine.stage(), Stage::Init);
    assert_eq!(machine.next_stage(Event::WindowFound), None);
    machine.step(Event::Start);
    assert_eq!(machine.step(Event::Start), Action::Idle);
    assert_eq!(machine.stage(), Stage::RegisteringPlugin(Plugin::Autostart));
    assert_eq!(machine.pending(), Action::RegisterPlugin(Plugin::Autostart));
}

#[test]
fn running_machine_ignores_every_event() {
    let mut machine = at_stage(CaptureCapability::NoOp, Stage::Running);
    for event in [Event::Start, Event::WindowFound, Event::RunLoopFailed, Event::SetterApplied] {
        assert_eq!(machine.step(event), Action::Idle);
        assert_eq!(machine.stage(), Stage::Running);
    }
}

#[test]
fn failures_are_classified() {
    let cap = CaptureCapability::ExcludeFromCapture;
    let cases = [
        (Stage::ResolvingMonitor, Event::MonitorUnavailable, Failure::MonitorUnavailable),
        (Stage::ObtainingHandle, Event::HandleUnavailable, Failure::HandleConversionFailure),
        (Stage::ConvertingHandle, Event::HandleForeign, Failure::HandleConversionFailure),
        (Stage::RequestingExclusion, Event::ExclusionRefused, Failure::HandleConversionFailure),
        (Stage::Applying(Setter::Size), Event::SetterFailed, Failure::SetterFailure(Setter::Size)),
        (
            Stage::Applying(Setter::Position),
            Event::SetterFailed,
            Failure::SetterFailure(Setter::Position),
        ),
        (
            Stage::Applying(Setter::AlwaysOnTop),
            Event::SetterFailed,
            Failure::SetterFailure(Setter::AlwaysOnTop),
        ),
        (Stage::EnteringRunLoop, Event::RunLoopFailed, Failure::BootstrapFatal),
    ];
    for (stage, event, failure) in cases {
        assert_eq!(at_stage(cap, stage).failure_of(event), Some(failure));
        assert_eq!(failure.is_fatal(), failure == Failure::BootstrapFatal);
    }
}

#[test]
fn successes_and_stray_events_are_no_failures() {
    let cap = CaptureCapability::ExcludeFromCapture;
    assert_eq!(at_stage(cap, Stage::ResolvingMonitor).failure_of(Event::MonitorResolved), None);
    assert_eq!(at_stage(cap, Stage::Applying(Setter::Size)).failure_of(Event::SetterApplied), None);
    assert_eq!(at_stage(cap, Stage::Init).failure_of(Event::SetterFailed), None);
    assert_eq!(at_stage(cap, Stage::LookingUpWindow).failure_of(Event::WindowAbsent), None);
    assert_eq!(at_stage(cap, Stage::Running).failure_of(Event::RunLoopFailed), None);
}

#[test]
fn replay_of_nothing_is_a_fresh_machine() {
    let (machine, actions) = replay(CaptureCapability::NoOp, &Vec::new());
    assert_eq!(machine, Bootstrap::new(CaptureCapability::NoOp));
    assert!(actions.is_empty());
}

#[test]
fn expects_only_the_awaited_answers() {
    let machine = at_stage(CaptureCapability::ExcludeFromCapture, Stage::ResolvingMonitor);
    assert!(machine.expects(Event::MonitorResolved));
    assert!(machine.expects(Event::MonitorUnavailable));
    assert!(!machine.expects(Event::SetterApplied));
    assert!(!machine.expects(Event::Start));
    assert_eq!(machine.next_stage(Event::MonitorResolved), Some(Stage::Applying(Setter::Size)));
    assert_eq!(machine.next_stage(Event::MonitorUnavailable), Some(Stage::EnteringRunLoop));
}

#[test]
fn no_call_is_named_twice() {
    let mut events = plugin_events();
    events.extend([
        Event::PluginRegistered,
        Event::WindowFound,
        Event::WindowFound,
        Event::HandleObtained,
        Event::Start,
        Event::HandleConverted,
        Event::ExclusionRefused,
        Event::ExclusionGranted,
        Event::MonitorResolved,
        Event::MonitorResolved,
        Event::SetterApplied,
        Event::SetterFailed,
        Event::SetterApplied,
        Event::SetterApplied,
        Event::RunLoopStarted,
        Event::RunLoopFailed,
    ]);
    let (machine, actions) = replay(CaptureCapability::ExcludeFromCapture, &events);
    assert_eq!(actions.len(), events.len());
    let named: Vec<Action> = actions.into_iter().filter(|a| *a != Action::Idle).collect();
    assert_eq!(named.len(), 13);
    for (i, a) in named.iter().enumerate() {
        assert!(!named[..i].contains(a));
    }
    assert_eq!(machine.stage(), Stage::Running);
}

#[test]
fn duty_of_each_stage() {
    assert_eq!(duty_of(Stage::Init), Action::Idle);
    assert_eq!(duty_of(Stage::RegisteringPlugin(Plugin::Updater)), Action::RegisterPlugin(Plugin::Updater));
    assert_eq!(duty_of(Stage::LookingUpWindow), Action::LookUpWindow);
    assert_eq!(duty_of(Stage::ObtainingHandle), Action::ObtainHandle);
    assert_eq!(duty_of(Stage::ConvertingHandle), Action::ConvertHandle);
    assert_eq!(duty_of(Stage::RequestingExclusion), Action::RequestExclusion);
    assert_eq!(duty_of(Stage::ResolvingMonitor), Action::ResolveMonitor);
    assert_eq!(duty_of(Stage::Applying(Setter::Position)), Action::Apply(Setter::Position));
    assert_eq!(duty_of(Stage::EnteringRunLoop), Action::EnterRunLoop);
    assert_eq!(duty_of(Stage::Running), Action::Idle);
    assert_eq!(duty_of(Stage::Aborted), Action::Abort);
}
