use tauri_python_sidecar::monitor::{
    harness_status_event, sidecar_status_event, HarnessAction, HarnessMonitor, HarnessReply,
    MonitorAction, MonitorPhase, MonitorReply, SidecarMonitor, Status,
};
use tauri_python_sidecar::restart::RESTART_WINDOW_NANOS;
use tauri_python_sidecar::state::{PollExit, SidecarPoll};
use tauri_python_sidecar::supervisor::{HealthSpec, LaunchSpec, PortSpec};

const AWAKE: MonitorReply = MonitorReply::Woke { halted: false };

fn exited(now: u128) -> MonitorReply {
    MonitorReply::Polled { poll: SidecarPoll::Exited, halted: false, now }
}

fn emit(status: Status, attempt: usize) -> MonitorAction {
    MonitorAction::Emit { status, attempt }
}

/// One crash, up to the sleep before the restart.
fn crash(monitor: &mut SidecarMonitor, now: u128) -> (MonitorAction, MonitorAction) {
    assert_eq!(monitor.step(AWAKE), MonitorAction::Poll);
    let told = monitor.step(exited(now));
    (told, monitor.step(MonitorReply::Emitted))
}

#[test]
fn crashes_climb_the_ladder_and_are_given_up() {
    let (mut monitor, first) = SidecarMonitor::new(0);
    assert_eq!(first, MonitorAction::Sleep { secs: 1 });
    for (i, secs) in [1u64, 2, 5, 5, 5].into_iter().enumerate() {
        let (told, sleep) = crash(&mut monitor, 1);
        assert_eq!(told, emit(Status::Down, i + 1));
        assert_eq!(sleep, MonitorAction::Sleep { secs });
        assert_eq!(monitor.step(AWAKE), MonitorAction::Spawn);
        assert_eq!(
            monitor.step(MonitorReply::Spawned { ok: true }),
            emit(Status::Restarted, i + 1)
        );
        assert_eq!(monitor.step(MonitorReply::Emitted), MonitorAction::Sleep { secs: 1 });
    }
    let (told, given_up) = crash(&mut monitor, 1);
    assert_eq!(told, emit(Status::Down, 6));
    assert_eq!(given_up, emit(Status::Failed, 5));
    assert_eq!(monitor.step(MonitorReply::Emitted), MonitorAction::Stop);
    assert_eq!(monitor.phase, MonitorPhase::Stopped);
    assert_eq!(monitor.step(AWAKE), MonitorAction::Stop);
}

#[test]
fn failed_spawns_use_up_attempts() {
    let (mut monitor, _) = SidecarMonitor::new(0);
    let (_, mut action) = crash(&mut monitor, 1);
    let mut spawns = 0;
    while action != emit(Status::Failed, 5) {
        assert!(matches!(action, MonitorAction::Sleep { .. }));
        assert_eq!(monitor.step(AWAKE), MonitorAction::Spawn);
        spawns += 1;
        action = monitor.step(MonitorReply::Spawned { ok: false });
    }
    assert_eq!(spawns, 5);
}

#[test]
fn old_crashes_are_forgotten() {
    let (mut monitor, _) = SidecarMonitor::new(0);
    for _ in 0..4 {
        crash(&mut monitor, 1);
        monitor.step(AWAKE);
        monitor.step(MonitorReply::Spawned { ok: true });
        monitor.step(MonitorReply::Emitted);
    }
    let (told, sleep) = crash(&mut monitor, RESTART_WINDOW_NANOS + 1);
    assert_eq!(told, emit(Status::Down, 1));
    assert_eq!(sleep, MonitorAction::Sleep { secs: 1 });
}

#[test]
fn shutdown_stops_the_monitor_everywhere() {
    let halted = MonitorReply::Woke { halted: true };
    let (mut napping, _) = SidecarMonitor::new(0);
    assert_eq!(napping.step(halted), MonitorAction::Stop);

    let (mut polling, _) = SidecarMonitor::new(0);
    polling.step(AWAKE);
    let killed = MonitorReply::Polled { poll: SidecarPoll::Exited, halted: true, now: 0 };
    assert_eq!(polling.step(killed), MonitorAction::Stop);

    let (mut backing_off, _) = SidecarMonitor::new(0);
    crash(&mut backing_off, 1);
    assert_eq!(backing_off.step(halted), MonitorAction::Stop);

    let (mut absent, _) = SidecarMonitor::new(0);
    absent.step(AWAKE);
    let gone = MonitorReply::Polled { poll: SidecarPoll::Absent, halted: false, now: 0 };
    assert_eq!(absent.step(gone), MonitorAction::Stop);
}

#[test]
fn running_process_is_polled_again() {
    let (mut monitor, _) = SidecarMonitor::new(0);
    for _ in 0..3 {
        assert_eq!(monitor.step(AWAKE), MonitorAction::Poll);
        let running = MonitorReply::Polled { poll: SidecarPoll::Running, halted: true, now: 5 };
        assert_eq!(monitor.step(running), MonitorAction::Sleep { secs: 1 });
    }
}

#[test]
fn events_for_the_user_interface() {
    let event = sidecar_status_event(Status::Down, 2);
    assert_eq!(event.channel, "sidecar-status");
    assert_eq!(event.payload["status"], "down");
    assert_eq!(event.payload["attempt"], 2);
    assert_eq!(event.payload.as_object().unwrap().len(), 2);
    let event = harness_status_event("we\"b", Status::Failed, 5);
    assert_eq!(event.channel, "harness-status");
    assert_eq!(event.payload["id"], "we\"b");
    assert_eq!(event.payload["status"], "failed");
    assert_eq!(event.payload["attempt"], 5);
    assert_eq!(event.payload.as_object().unwrap().len(), 3);
    assert_eq!(Status::Restarted.text(), "restarted");
}

fn spec() -> LaunchSpec {
    LaunchSpec {
        command: "serve".to_string(),
        args: Vec::new(),
        cwd: None,
        env: Vec::new(),
        port: PortSpec { strategy: "fixed".to_string(), value: Some(80), env: None, arg: None },
        health: HealthSpec { kind: "ws".to_string(), path: None, probe: None },
    }
}

fn awake() -> HarnessReply {
    HarnessReply::Woke { halted: false }
}

fn harness_crash(monitor: &mut HarnessMonitor, now: u128) -> (HarnessAction, HarnessAction) {
    assert_eq!(monitor.step(awake()), HarnessAction::Poll);
    let poll = PollExit::Exited { spec: spec(), port: 81 };
    let told = monitor.step(HarnessReply::Polled { poll, halted: false, now });
    (told, monitor.step(HarnessReply::Emitted { now }))
}

#[test]
fn harness_is_restarted_as_it_was() {
    let (mut monitor, first) = HarnessMonitor::new(0);
    assert_eq!(first, HarnessAction::Sleep { secs: 1 });
    assert!(monitor.restart.is_none());
    let (told, sleep) = harness_crash(&mut monitor, 1);
    assert_eq!(told, HarnessAction::Emit { status: Status::Down, attempt: 1 });
    assert_eq!(sleep, HarnessAction::Sleep { secs: 1 });
    assert_eq!(monitor.step(awake()), HarnessAction::Spawn);
    let (kept, port) = monitor.restart.as_ref().unwrap();
    assert_eq!(kept.command, "serve");
    assert_eq!(*port, 81);
    assert_eq!(
        monitor.step(HarnessReply::Spawned { ok: true, now: 2 }),
        HarnessAction::Emit { status: Status::Restarted, attempt: 1 }
    );
    assert_eq!(
        monitor.step(HarnessReply::Emitted { now: 2 }),
        HarnessAction::Sleep { secs: 1 }
    );
}

#[test]
fn harness_is_given_up_after_its_lock_is_removed() {
    let (mut monitor, _) = HarnessMonitor::new(0);
    let (_, mut action) = harness_crash(&mut monitor, 1);
    let mut delays = Vec::new();
    while let HarnessAction::Sleep { secs } = action {
        delays.push(secs);
        assert_eq!(monitor.step(awake()), HarnessAction::Spawn);
        action = monitor.step(HarnessReply::Spawned { ok: false, now: 2 });
    }
    assert_eq!(delays, vec![1, 2, 5, 5, 5]);
    assert_eq!(action, HarnessAction::RemoveLock);
    assert_eq!(
        monitor.step(HarnessReply::LockRemoved),
        HarnessAction::Emit { status: Status::Failed, attempt: 5 }
    );
    assert_eq!(monitor.step(HarnessReply::Emitted { now: 3 }), HarnessAction::Stop);
}

#[test]
fn harness_window_opens_anew_between_retries() {
    let (mut monitor, _) = HarnessMonitor::new(0);
    harness_crash(&mut monitor, 1);
    for now in [2, 2, 2, 2] {
        monitor.step(awake());
        monitor.step(HarnessReply::Spawned { ok: false, now });
    }
    monitor.step(awake());
    let late = RESTART_WINDOW_NANOS + 1;
    assert_eq!(
        monitor.step(HarnessReply::Spawned { ok: false, now: late }),
        HarnessAction::Sleep { secs: 1 }
    );
    assert_eq!(monitor.window.start, late);
}

#[test]
fn halted_harness_is_left_alone() {
    let (mut monitor, _) = HarnessMonitor::new(0);
    assert_eq!(monitor.step(HarnessReply::Woke { halted: true }), HarnessAction::Stop);
    let (mut backing_off, _) = HarnessMonitor::new(0);
    harness_crash(&mut backing_off, 1);
    assert_eq!(backing_off.step(HarnessReply::Woke { halted: true }), HarnessAction::Stop);
    let (mut polling, _) = HarnessMonitor::new(0);
    polling.step(awake());
    let poll = PollExit::Exited { spec: spec(), port: 1 };
    assert_eq!(
        polling.step(HarnessReply::Polled { poll, halted: true, now: 0 }),
        HarnessAction::Stop
    );
    let (mut absent, _) = HarnessMonitor::new(0);
    absent.step(awake());
    assert_eq!(
        absent.step(HarnessReply::Polled { poll: PollExit::Absent, halted: false, now: 0 }),
        HarnessAction::Stop
    );
}
