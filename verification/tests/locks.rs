use tauri_python_sidecar::locks::{
    cleanup_worker_lock, cleanup_worker_lock_with_timeout, lock_content, workers, CleanupAction,
    CleanupOutcome, CleanupPhase, CleanupReply, LockCleanup, LockRead, LockRemoval,
};

fn content(text: &str) -> CleanupReply {
    CleanupReply::Read(LockRead::Content(text.to_string()))
}

fn image(name: &str) -> CleanupReply {
    CleanupReply::Identified(Some(name.to_string()))
}

const ALIVE: CleanupReply = CleanupReply::Checked { alive: true };
const DEAD: CleanupReply = CleanupReply::Checked { alive: false };
const SIGNALLED: CleanupReply = CleanupReply::Signalled(Ok(()));

fn outcome(action: CleanupAction) -> CleanupOutcome {
    match action {
        CleanupAction::Finish(outcome) => outcome,
        other => panic!("unexpected action {:?}", other),
    }
}

/// A sweep of a lock whose process runs, up to the question for its name.
fn identifying(lock: &str) -> LockCleanup {
    let (mut cleanup, first) = cleanup_worker_lock();
    assert!(matches!(first, CleanupAction::Read));
    assert!(matches!(cleanup.step(content(lock)), CleanupAction::Check { pid: 4242 }));
    assert!(matches!(cleanup.step(ALIVE), CleanupAction::Identify { pid: 4242 }));
    cleanup
}

#[test]
fn one_worker_is_registered() {
    let list = workers();
    assert_eq!(list.len(), 1);
    assert_eq!(list[0].lock_file, "sidecar_server.lock");
    assert_eq!(list[0].name, "Sidecar server");
}

#[test]
fn missing_lock_is_nothing_to_do() {
    let (mut cleanup, _) = cleanup_worker_lock();
    let end = outcome(cleanup.step(CleanupReply::Read(LockRead::Missing)));
    assert!(matches!(end, CleanupOutcome::NoLock));
    assert_eq!(end.result("Sidecar server"), Ok(()));
    assert_eq!(cleanup.phase, CleanupPhase::Finished);
}

#[test]
fn unreadable_lock_is_an_error() {
    let (mut cleanup, _) = cleanup_worker_lock();
    let end = outcome(cleanup.step(CleanupReply::Read(LockRead::Failed("denied".to_string()))));
    assert_eq!(
        end.result("Sidecar server"),
        Err("Failed to read Sidecar server lock file: denied".to_string())
    );
}

#[test]
fn lock_without_a_pid_is_an_error() {
    let message = |lock: &str| {
        let (mut cleanup, _) = cleanup_worker_lock();
        outcome(cleanup.step(content(lock))).result("Stale harness").unwrap_err()
    };
    assert_eq!(
        message("abc"),
        "Invalid PID in Stale harness lock file: invalid digit found in string"
    );
    assert_eq!(
        message(" \n"),
        "Invalid PID in Stale harness lock file: cannot parse integer from empty string"
    );
    assert_eq!(
        message("4294967296"),
        "Invalid PID in Stale harness lock file: number too large to fit in target type"
    );
    assert_eq!(
        message("-1"),
        "Invalid PID in Stale harness lock file: invalid digit found in string"
    );
}

#[test]
fn dead_process_leaves_a_stale_lock() {
    for begun in [cleanup_worker_lock(), cleanup_worker_lock_with_timeout(3)] {
        let (mut cleanup, _) = begun;
        cleanup.step(content("4242\npython.exe\n"));
        assert!(matches!(cleanup.step(DEAD), CleanupAction::Remove));
        let end = outcome(cleanup.step(CleanupReply::Removed(LockRemoval::Removed)));
        assert!(matches!(end, CleanupOutcome::StaleRemoved));
    }
}

#[test]
fn stale_lock_that_stays_is_no_failure() {
    let (mut cleanup, _) = cleanup_worker_lock();
    cleanup.step(content("1"));
    cleanup.step(DEAD);
    let end =
        outcome(cleanup.step(CleanupReply::Removed(LockRemoval::Failed("busy".to_string()))));
    assert!(matches!(end, CleanupOutcome::StaleKept(_)));
    assert_eq!(end.result("Sidecar server"), Ok(()));
}

#[test]
fn sweep_kills_a_namesake() {
    let mut cleanup = identifying(" 4242\npy-sidecar.exe\n");
    assert!(matches!(
        cleanup.step(image("py-sidecar.exe")),
        CleanupAction::Kill { pid: 4242 }
    ));
    let refused = CleanupReply::Signalled(Err("no taskkill".to_string()));
    assert!(matches!(cleanup.step(refused), CleanupAction::Sleep { millis: 20 }));
    assert!(matches!(cleanup.step(CleanupReply::Slept), CleanupAction::Check { pid: 4242 }));
    assert!(matches!(cleanup.step(DEAD), CleanupAction::Check { pid: 4242 }));
    assert_eq!(cleanup.phase, CleanupPhase::Confirming { pid: 4242 });
    assert!(matches!(cleanup.step(DEAD), CleanupAction::Remove));
    let end = outcome(cleanup.step(CleanupReply::Removed(LockRemoval::Missing)));
    assert!(matches!(end, CleanupOutcome::Removed));
    assert_eq!(end.result("x"), Ok(()));
}

#[test]
fn sweep_spares_strangers() {
    for (lock, name) in [
        ("4242\npy-sidecar.exe", Some("notepad.exe")),
        ("4242\npy-sidecar.exe", Some("py-sidecar.EXE")),
        ("4242\npy-sidecar.exe", None),
        ("4242", Some("py-sidecar.exe")),
        ("4242\n", Some("")),
    ] {
        let mut cleanup = identifying(lock);
        let action = cleanup.step(CleanupReply::Identified(name.map(|n| n.to_string())));
        assert!(matches!(action, CleanupAction::Remove), "{lock:?} {name:?}");
        assert_eq!(cleanup.phase, CleanupPhase::RemovingStale);
    }
}

#[test]
fn sweep_looks_ten_times() {
    let mut cleanup = identifying("4242 python");
    cleanup.step(image("python"));
    let mut action = cleanup.step(SIGNALLED);
    let mut looks = 0;
    while let CleanupAction::Sleep { millis } = action {
        assert_eq!(millis, 20);
        cleanup.step(CleanupReply::Slept);
        looks += 1;
        action = cleanup.step(ALIVE);
    }
    assert_eq!(looks, 10);
    assert!(matches!(action, CleanupAction::Check { .. }));
    assert!(matches!(cleanup.step(ALIVE), CleanupAction::Remove));
    let end =
        outcome(cleanup.step(CleanupReply::Removed(LockRemoval::Failed("busy".to_string()))));
    assert_eq!(end.result("x"), Err("Failed to remove lock file: busy".to_string()));
}

fn terminating(timeout_secs: u64) -> (LockCleanup, CleanupAction) {
    let (mut cleanup, _) = cleanup_worker_lock_with_timeout(timeout_secs);
    cleanup.step(content("99"));
    assert!(matches!(cleanup.step(ALIVE), CleanupAction::Terminate { pid: 99 }));
    let action = cleanup.step(CleanupReply::Signalled(Err("no kill".to_string())));
    (cleanup, action)
}

#[test]
fn exit_waits_for_the_process() {
    let (mut cleanup, action) = terminating(3);
    assert!(matches!(action, CleanupAction::Sleep { millis: 200 }));
    cleanup.step(CleanupReply::Slept);
    assert!(matches!(cleanup.step(DEAD), CleanupAction::Remove));
    let end = outcome(cleanup.step(CleanupReply::Removed(LockRemoval::Removed)));
    assert!(matches!(end, CleanupOutcome::Removed));
}

#[test]
fn exit_kills_after_the_timeout() {
    let (mut cleanup, mut action) = terminating(3);
    let mut millis_slept = 0;
    while let CleanupAction::Sleep { millis } = action {
        millis_slept += millis;
        cleanup.step(CleanupReply::Slept);
        action = cleanup.step(ALIVE);
    }
    assert_eq!(millis_slept, 3000);
    assert!(matches!(action, CleanupAction::Kill { pid: 99 }));
    assert!(matches!(cleanup.step(SIGNALLED), CleanupAction::Remove));
}

#[test]
fn exit_reports_a_kill_that_failed() {
    let (mut cleanup, action) = terminating(0);
    assert!(matches!(action, CleanupAction::Kill { pid: 99 }));
    let end = outcome(cleanup.step(CleanupReply::Signalled(Err("no taskkill".to_string()))));
    assert_eq!(
        end.result("Sidecar server"),
        Err("Failed to force kill PID 99: no taskkill".to_string())
    );
}

#[test]
fn lock_is_read_back_as_written() {
    assert_eq!(lock_content(7, &None), "7");
    let written = lock_content(4242, &Some("my worker.exe".to_string()));
    assert_eq!(written, "4242\nmy worker.exe");
    let mut cleanup = identifying(&written);
    assert!(matches!(
        cleanup.step(image("my worker.exe")),
        CleanupAction::Kill { pid: 4242 }
    ));
}
