use tauri_python_sidecar::state::{
    spawn_failure, start_failure, Disposal, HarnessSupervisor, PollExit, SidecarPoll,
    SidecarSupervisor,
};
use tauri_python_sidecar::paths::Platform;
use tauri_python_sidecar::supervisor::{
    build_command, is_harness_lock, lock_file, HealthSpec, LaunchSpec, PortSpec,
};

fn long_spec() -> LaunchSpec {
    LaunchSpec {
        command: "sleep".to_string(),
        args: vec!["30".to_string()],
        cwd: None,
        env: Vec::new(),
        port: PortSpec {
            strategy: "dynamic".to_string(),
            value: None,
            env: None,
            arg: None,
        },
        health: HealthSpec {
            kind: "process".to_string(),
            path: None,
            probe: None,
        },
    }
}

fn short_spec() -> LaunchSpec {
    let mut spec = long_spec();
    spec.command = "sh".to_string();
    spec.args = vec!["-c".to_string(), "exit 0".to_string()];
    spec
}

#[test]
fn test_build_command_injects_port_env_and_arg() {
    let mut spec = long_spec();
    spec.port.env = Some("API_SERVER_PORT".to_string());
    spec.port.arg = Some("--port".to_string());
    let cmd = build_command(&spec, 12345);

    assert!(cmd.args.contains(&"--port".to_string()));
    assert!(cmd.args.contains(&"12345".to_string()));

    assert!(cmd
        .env
        .iter()
        .any(|(k, v)| k == "API_SERVER_PORT" && v == "12345"));
}

#[test]
fn command_carries_the_whole_specification() {
    let mut spec = long_spec();
    spec.cwd = Some("/srv".to_string());
    spec.env = vec![("PORT".to_string(), "1".to_string()), ("A".to_string(), "b".to_string())];
    spec.port.env = Some("PORT".to_string());
    let plan = build_command(&spec, 8080);
    assert_eq!(plan.program, "sleep");
    assert_eq!(plan.args, vec!["30"]);
    assert_eq!(plan.cwd.as_deref(), Some("/srv"));
    assert_eq!(plan.env.last().unwrap(), &("PORT".to_string(), "8080".to_string()));
    assert_eq!(plan.env.len(), 3);
    spec.port.env = None;
    assert_eq!(build_command(&spec, 8080).env, spec.env);
}

#[test]
fn test_spawn_and_clean_stop() {
    let mut sup = HarnessSupervisor::default();
    let id = "test-stop";
    sup.spawn_process(id, long_spec(), 4321, 77).unwrap();

    assert!(sup.is_running(id, false));
    assert_eq!(sup.child_of(id), Some(77));
    assert_eq!(sup.port_of(id), Some(4321));

    let stopped = sup.stop(id).unwrap();
    assert_eq!(stopped.child, 77);
    assert!(!sup.is_running(id, false));
    assert!(sup.is_stopping(id));
    assert!(sup.is_halted(id));
    assert!(sup.stop(id).is_none());
}

#[test]
fn test_poll_exit_then_respawn() {
    let mut sup = HarnessSupervisor::default();
    let id = "test-respawn";

    // Spawn a process that exits immediately, then observe the exit.
    sup.spawn_process(id, short_spec(), 4322, 1).unwrap();
    assert!(matches!(sup.poll_exit(id, false), PollExit::Running));
    match sup.poll_exit(id, true) {
        PollExit::Exited { port, spec } => {
            assert_eq!(port, 4322);
            assert_eq!(spec.command, "sh");
        }
        _ => panic!("expected the short-lived child to be reaped as Exited"),
    }
    assert!(!sup.is_running(id, false), "exited child should be removed from map");
    assert!(matches!(sup.poll_exit(id, true), PollExit::Absent));

    // Simulate the monitor's restart with a long-running process.
    sup.spawn_process(id, long_spec(), 4322, 2).unwrap();
    assert!(sup.is_running(id, false));
    assert!(sup.stop(id).is_some());
}

#[test]
fn test_stop_all_kills_children() {
    let mut sup = HarnessSupervisor::default();
    let id = "test-stopall";
    sup.spawn_process(id, long_spec(), 4323, 5).unwrap();
    sup.spawn_process("other", long_spec(), 4324, 6).unwrap();
    assert!(sup.is_running(id, false));

    let mut killed: Vec<(String, u32)> =
        sup.stop_all().into_iter().map(|(id, harness)| (id, harness.child)).collect();
    killed.sort();
    assert_eq!(killed, vec![("other".to_string(), 6), ("test-stopall".to_string(), 5)]);
    assert!(!sup.is_running(id, false));
    assert!(sup.is_shutting_down());
}

#[test]
fn nothing_is_recorded_once_all_is_shut_down() {
    let mut sup = HarnessSupervisor::default();
    assert!(sup.stop_all().is_empty());
    assert_eq!(
        sup.spawn_process("late", long_spec(), 1, 9).unwrap_err(),
        "Harness 'late' not started: supervisor is shutting down"
    );
    assert!(!sup.is_running("late", false));
    assert!(sup.is_halted("late"));
    assert!(!sup.is_stopping("late"));
}

#[test]
fn spawning_again_lifts_a_stop() {
    let mut sup = HarnessSupervisor::default();
    assert!(sup.stop("h").is_none());
    assert!(sup.stop("h").is_none());
    assert!(sup.is_stopping("h"));
    assert_eq!(sup.spawn_process("h", long_spec(), 10, 3), Ok(3));
    assert!(!sup.is_halted("h"));
    assert_eq!(sup.spawn_process("h", long_spec(), 11, 4), Ok(4));
    assert_eq!(sup.child_of("h"), Some(4));
    let status = sup.status("h", false);
    assert_eq!(status.id, "h");
    assert!(status.running);
    assert_eq!(status.port, Some(11));
    let absent = sup.status("x", false);
    assert!(!absent.running);
    assert_eq!(absent.port, None);
}

#[test]
fn harnesses_do_not_touch_each_other() {
    let mut sup = HarnessSupervisor::default();
    sup.spawn_process("a", long_spec(), 1, 1).unwrap();
    sup.spawn_process("b", long_spec(), 2, 2).unwrap();
    sup.stop("a");
    assert!(sup.is_running("b", false));
    assert!(!sup.is_stopping("b"));
    assert!(matches!(sup.poll_exit("b", true), PollExit::Exited { port: 2, .. }));
    assert!(sup.is_stopping("a"));
}

#[test]
fn sidecar_supervisor_follows_its_child() {
    let mut sup = SidecarSupervisor::default();
    assert_eq!(sup.poll(true), SidecarPoll::Absent);
    sup.record(12);
    assert_eq!(sup.poll(false), SidecarPoll::Running);
    assert_eq!(sup.child, Some(12));
    assert_eq!(sup.poll(true), SidecarPoll::Exited);
    assert_eq!(sup.poll(false), SidecarPoll::Absent);
    sup.record(13);
    sup.begin_shutdown();
    assert!(sup.shutting_down);
    assert_eq!(sup.release(), Some(13));
    assert_eq!(sup.release(), None);
    assert!(sup.shutting_down);
}

#[test]
fn locks_are_named_after_their_harness() {
    assert_eq!(
        lock_file(Platform::Linux, "/data", "web"),
        "/data/.index/harness_web.lock"
    );
    assert!(is_harness_lock("harness_web.lock"));
    assert!(is_harness_lock("harness_.lock"));
    assert!(!is_harness_lock("sidecar_server.lock"));
    assert!(!is_harness_lock("harness_web.lock.tmp"));
    assert!(!is_harness_lock("my_harness_web.lock"));
}

#[test]
fn spawn_failures_are_readable() {
    assert_eq!(spawn_failure("web", "no such file"), "Failed to spawn harness 'web': no such file");
    assert_eq!(start_failure("no such file"), "Failed to start sidecar server: no such file");
}

#[test]
fn dead_child_does_not_run() {
    let mut sup = HarnessSupervisor::default();
    sup.spawn_process("h", long_spec(), 10, 3).unwrap();
    assert!(sup.is_running("h", false));
    assert!(!sup.is_running("h", true));
    let status = sup.status("h", true);
    assert!(!status.running);
    assert_eq!(status.port, Some(10));
    assert!(!sup.is_running("x", true));
}

#[test]
fn what_leaves_supervision_is_disposed_of() {
    let mut sup = HarnessSupervisor::default();
    let nothing = Disposal { kill: None, remove_lock: false };
    let recorded = sup.spawn_process("a", long_spec(), 1, 11);
    assert_eq!(Disposal::after_spawn(&recorded, 11), nothing);
    assert_eq!(Disposal::after_poll(&sup.poll_exit("a", false)), nothing);
    assert_eq!(
        Disposal::after_poll(&sup.poll_exit("a", true)),
        Disposal { kill: None, remove_lock: true }
    );
    assert_eq!(Disposal::after_poll(&sup.poll_exit("a", true)), nothing);

    sup.spawn_process("b", long_spec(), 2, 12).unwrap();
    assert_eq!(
        Disposal::after_stop(&sup.stop("b")),
        Disposal { kill: Some(12), remove_lock: true }
    );
    assert_eq!(
        Disposal::after_stop(&sup.stop("b")),
        Disposal { kill: None, remove_lock: true }
    );

    sup.spawn_process("c", long_spec(), 3, 13).unwrap();
    let left = sup.stop_all();
    assert_eq!(left.len(), 1);
    assert_eq!(
        Disposal::after_shutdown(&left[0].1),
        Disposal { kill: Some(13), remove_lock: true }
    );
    let refused = sup.spawn_process("d", long_spec(), 4, 14);
    assert_eq!(
        Disposal::after_spawn(&refused, 14),
        Disposal { kill: Some(14), remove_lock: true }
    );
}
