use kaspa_ng_core::supervisor::{
    Command, Event, ExitKind, Notice, RestartReason, StartOutcome, Supervisor, RESTART_DELAY_SECS,
};

fn enable() -> Event {
    Event::Enable { applicable: true }
}

fn running() -> Supervisor {
    let mut s = Supervisor::new(false, true);
    assert_eq!(s.handle(enable()), vec![Command::Start]);
    assert_eq!(s.handle(Event::Started(StartOutcome::Spawned)), vec![Command::Note(Notice::Started)]);
    assert!(s.is_running());
    s
}

#[test]
fn restart_delay_is_three_seconds() {
    assert_eq!(RESTART_DELAY_SECS, 3);
}

#[test]
fn new_supervisor_holds_no_child() {
    let s = Supervisor::new(true, true);
    assert!(s.is_enabled());
    assert!(!s.is_running());
    assert!(!s.is_starting());
    assert!(!s.is_restart_pending());
    assert!(!s.is_done());
}

#[test]
fn enable_asks_for_one_start() {
    let mut s = Supervisor::new(false, true);
    assert_eq!(s.handle(enable()), vec![Command::Start]);
    assert!(s.is_enabled());
    assert!(s.is_starting());
    assert!(!s.is_running());
}

#[test]
fn enable_twice_starts_once() {
    let mut s = Supervisor::new(false, true);
    let first = s.handle(enable());
    let second = s.handle(enable());
    assert_eq!(first, vec![Command::Start]);
    assert_eq!(second, vec![]);
    assert_eq!(s.handle(Event::Started(StartOutcome::Spawned)), vec![Command::Note(Notice::Started)]);
    assert!(s.is_running());
    assert!(!s.is_starting());
}

#[test]
fn enable_while_running_stops_then_starts() {
    let mut s = running();
    assert_eq!(s.handle(enable()), vec![Command::Stop, Command::Start]);
    assert!(!s.is_running());
    assert!(s.is_starting());
}

#[test]
fn enable_on_unsupported_context_only_tells() {
    let mut s = Supervisor::new(false, true);
    assert_eq!(
        s.handle(Event::Enable { applicable: false }),
        vec![Command::Note(Notice::Unsupported)]
    );
    assert!(s.is_enabled());
    assert!(!s.is_starting());
    assert_eq!(s.handle(Event::Tick), vec![]);
    assert_eq!(s.handle(Event::RestartDue), vec![]);
}

#[test]
fn disable_stops_a_running_child() {
    let mut s = running();
    assert_eq!(s.handle(Event::Disable), vec![Command::Stop, Command::Note(Notice::Stopped)]);
    assert!(!s.is_enabled());
    assert!(!s.is_running());
    assert_eq!(s.handle(Event::Disable), vec![]);
}

#[test]
fn update_settings_restarts_only_when_enabled() {
    let mut off = Supervisor::new(false, true);
    assert_eq!(off.handle(Event::UpdateSettings { applicable: true }), vec![]);
    assert!(!off.is_starting());
    let mut on = running();
    assert_eq!(
        on.handle(Event::UpdateSettings { applicable: true }),
        vec![Command::Stop, Command::Start]
    );
    let mut gone = running();
    assert_eq!(
        gone.handle(Event::UpdateSettings { applicable: false }),
        vec![Command::Stop, Command::Note(Notice::Unsupported)]
    );
    assert!(!gone.is_running());
}

#[test]
fn crash_schedules_one_restart() {
    let mut s = running();
    let kind = ExitKind::Exited { success: false };
    assert_eq!(
        s.handle(Event::ChildExited(kind)),
        vec![Command::Note(Notice::Exited(kind)), Command::ArmRestart(RestartReason::Exited)]
    );
    assert!(!s.is_running());
    assert!(s.is_restart_pending());
    assert_eq!(s.handle(Event::RestartDue), vec![Command::Start]);
    assert!(!s.is_restart_pending());
    assert!(s.is_starting());
}

#[test]
fn crash_while_restart_pending_schedules_nothing() {
    let mut s = running();
    s.handle(Event::ChildExited(ExitKind::MonitorError));
    assert!(s.is_restart_pending());
    assert_eq!(s.handle(Event::Started(StartOutcome::SpawnFailed)), vec![]);
    assert_eq!(s.handle(enable()), vec![Command::Start]);
    assert_eq!(s.handle(Event::Started(StartOutcome::BinaryMissing)), vec![]);
    assert!(s.is_restart_pending());
    assert_eq!(s.handle(Event::Started(StartOutcome::Spawned)), vec![]);
}

#[test]
fn disable_cancels_a_pending_restart() {
    let mut s = running();
    s.handle(Event::ChildExited(ExitKind::Exited { success: false }));
    assert!(s.is_restart_pending());
    assert_eq!(s.handle(Event::Disable), vec![]);
    assert_eq!(s.handle(Event::RestartDue), vec![]);
    assert!(!s.is_restart_pending());
    assert!(!s.is_starting());
    assert!(!s.is_running());
}

#[test]
fn failed_start_schedules_a_restart() {
    let mut s = Supervisor::new(false, true);
    s.handle(enable());
    assert_eq!(
        s.handle(Event::Started(StartOutcome::BinaryMissing)),
        vec![Command::ArmRestart(RestartReason::BinaryMissing)]
    );
    assert_eq!(s.handle(Event::RestartDue), vec![Command::Start]);
    assert_eq!(
        s.handle(Event::Started(StartOutcome::SpawnFailed)),
        vec![Command::ArmRestart(RestartReason::SpawnFailed)]
    );
}

#[test]
fn port_in_use_is_final_until_settings_change() {
    let mut s = Supervisor::new(false, true);
    s.handle(enable());
    assert_eq!(s.handle(Event::Started(StartOutcome::PortInUse)), vec![]);
    assert!(!s.is_restart_pending());
    assert_eq!(s.handle(Event::RestartDue), vec![]);
    assert_eq!(s.handle(Event::UpdateSettings { applicable: true }), vec![Command::Start]);
}

#[test]
fn deferred_start_is_retried_on_a_tick() {
    let mut s = Supervisor::new(true, true);
    assert_eq!(s.handle(Event::Tick), vec![Command::Start]);
    assert_eq!(s.handle(Event::Tick), vec![]);
    assert_eq!(s.handle(Event::Started(StartOutcome::NotReady)), vec![]);
    assert_eq!(s.handle(Event::Tick), vec![Command::Start]);
    assert_eq!(s.handle(Event::Started(StartOutcome::Spawned)), vec![Command::Note(Notice::Started)]);
    assert_eq!(s.handle(Event::Tick), vec![]);
}

#[test]
fn child_spawned_after_disable_is_stopped() {
    let mut s = Supervisor::new(false, true);
    s.handle(enable());
    assert_eq!(s.handle(Event::Disable), vec![]);
    assert_eq!(s.handle(Event::Started(StartOutcome::Spawned)), vec![Command::Stop]);
    assert!(!s.is_running());
}

#[test]
fn exit_stops_and_signals_once() {
    let mut s = running();
    assert_eq!(s.handle(Event::Exit), vec![Command::Stop, Command::Done]);
    assert!(s.is_done());
    assert_eq!(s.handle(Event::Exit), vec![]);
    assert_eq!(s.handle(enable()), vec![]);
    assert!(!s.is_running());
    let mut idle = Supervisor::new(false, true);
    assert_eq!(idle.handle(Event::Exit), vec![Command::Done]);
}

#[test]
fn stale_events_change_nothing() {
    let mut s = Supervisor::new(true, true);
    assert_eq!(s.handle(Event::Started(StartOutcome::Spawned)), vec![]);
    assert_eq!(s.handle(Event::ChildExited(ExitKind::MonitorError)), vec![]);
    assert_eq!(s.handle(Event::RestartDue), vec![]);
    assert!(!s.is_running());
}

#[test]
fn child_spawned_after_exit_is_stopped() {
    let mut s = Supervisor::new(false, true);
    assert_eq!(s.handle(Event::Enable { applicable: true }), vec![Command::Start]);
    assert!(s.is_starting());
    assert_eq!(s.handle(Event::Exit), vec![Command::Done]);
    assert!(s.is_done());
    // The start that was in flight brings a child: nobody holds it.
    assert_eq!(s.handle(Event::Started(StartOutcome::Spawned)), vec![Command::Stop]);
    assert!(!s.is_running());
    assert!(!s.is_starting());
    // A second report of the same attempt changes nothing.
    assert_eq!(s.handle(Event::Started(StartOutcome::Spawned)), vec![]);
    assert_eq!(s.handle(Event::Enable { applicable: true }), vec![]);
    assert_eq!(s.handle(Event::Tick), vec![]);
}

#[test]
fn failed_start_after_exit_schedules_nothing() {
    for outcome in [
        StartOutcome::BinaryMissing,
        StartOutcome::SpawnFailed,
        StartOutcome::NotReady,
        StartOutcome::PortInUse,
        StartOutcome::Unsupported,
    ] {
        let mut s = Supervisor::new(true, true);
        assert_eq!(s.handle(Event::Tick), vec![Command::Start]);
        assert_eq!(s.handle(Event::Exit), vec![Command::Done]);
        assert_eq!(s.handle(Event::Started(outcome)), vec![]);
        assert!(!s.is_starting());
        assert!(!s.is_restart_pending());
    }
}
