use tauri_python_sidecar::paths::Platform;
use tauri_python_sidecar::shutdown::{
    cleanup_workers, exit_jobs, prepare_for_update, ExitAction, ExitPhase, UpdateAction,
    UpdatePhase, UpdateReply, SHUTDOWN_FLAG_CONTENT,
};
use tauri_python_sidecar::sweep::{
    cleanup_stale_workers, stale_harness_jobs, stale_worker_jobs, LockJob, StartupSweep,
    SweepAction, SweepPhase, SweepReply,
};

fn pairs(jobs: Vec<LockJob>) -> Vec<(String, String)> {
    jobs.into_iter().map(|job| (job.path, job.name)).collect()
}

fn pair(path: &str, name: &str) -> (String, String) {
    (path.to_string(), name.to_string())
}

fn names(list: &[&str]) -> Vec<Option<String>> {
    list.iter().map(|n| Some(n.to_string())).collect()
}

fn begin() -> (StartupSweep, SweepAction) {
    cleanup_stale_workers(Platform::Linux, "/data".to_string())
}

#[test]
fn sweep_runs_in_its_order() {
    let (mut sweep, first) = begin();
    assert!(matches!(first, SweepAction::CreateIndex));
    assert!(matches!(sweep.step(SweepReply::Done), SweepAction::LookForFlag));
    assert!(matches!(sweep.step(SweepReply::Found(true)), SweepAction::RemoveFlag));
    let denied = SweepReply::Failed("denied".to_string());
    assert!(matches!(sweep.step(denied), SweepAction::LookForLocks));
    match sweep.step(SweepReply::Present(vec![true])) {
        SweepAction::CleanUpTogether(jobs) => assert_eq!(
            pairs(jobs),
            vec![pair("/data/.index/sidecar_server.lock", "Stale Sidecar server")]
        ),
        other => panic!("unexpected action {:?}", other),
    }
    assert!(matches!(sweep.step(SweepReply::Done), SweepAction::ListIndex));
    match sweep.step(SweepReply::Listed(names(&["a.txt", "harness_web.lock"]))) {
        SweepAction::CleanUpInTurn(jobs) => assert_eq!(
            pairs(jobs),
            vec![pair("/data/.index/harness_web.lock", "Stale harness")]
        ),
        other => panic!("unexpected action {:?}", other),
    }
    assert!(matches!(sweep.step(SweepReply::Done), SweepAction::RecoverDatabase));
    assert!(matches!(sweep.step(SweepReply::Done), SweepAction::Finish(Ok(()))));
    assert_eq!(sweep.phase, SweepPhase::Finished);
}

#[test]
fn clean_start_skips_what_is_not_there() {
    let (mut sweep, _) = begin();
    sweep.step(SweepReply::Done);
    assert!(matches!(sweep.step(SweepReply::Found(false)), SweepAction::LookForLocks));
    assert!(matches!(sweep.step(SweepReply::Present(vec![false])), SweepAction::ListIndex));
    let gone = SweepReply::Failed("gone".to_string());
    assert!(matches!(sweep.step(gone), SweepAction::RecoverDatabase));
    assert!(matches!(sweep.step(SweepReply::Done), SweepAction::Finish(Ok(()))));
}

#[test]
fn index_that_cannot_be_made_ends_the_sweep() {
    let (mut sweep, _) = begin();
    match sweep.step(SweepReply::Failed("read-only".to_string())) {
        SweepAction::Finish(Err(reason)) => assert_eq!(reason, "read-only"),
        other => panic!("unexpected action {:?}", other),
    }
}

#[test]
fn only_harness_locks_become_harness_jobs() {
    let mut entries = names(&["harness_b.lock", "sidecar_server.lock", "harness_a.lock", "harness_"]);
    entries.insert(1, None);
    assert_eq!(
        pairs(stale_harness_jobs(Platform::Windows, "C:\\d", &entries)),
        vec![
            pair("C:\\d\\.index\\harness_b.lock", "Stale harness"),
            pair("C:\\d\\.index\\harness_a.lock", "Stale harness"),
        ]
    );
    assert!(stale_worker_jobs(Platform::Linux, "/d", &Vec::new()).is_empty());
    assert_eq!(stale_worker_jobs(Platform::Linux, "/d", &vec![true, true]).len(), 1);
}

#[test]
fn exit_tells_every_worker() {
    let (mut exit, first) = cleanup_workers(Platform::Linux, "/data".to_string());
    assert!(matches!(first, ExitAction::WriteFlag));
    assert_eq!(SHUTDOWN_FLAG_CONTENT, "shutdown");
    match exit.step() {
        ExitAction::CleanUpTogether { jobs, timeout_secs } => {
            assert_eq!(timeout_secs, 3);
            assert_eq!(
                pairs(jobs),
                vec![pair("/data/.index/sidecar_server.lock", "Sidecar server")]
            );
        }
        other => panic!("unexpected action {:?}", other),
    }
    assert!(matches!(exit.step(), ExitAction::RemoveFlag));
    assert!(matches!(exit.step(), ExitAction::Finish));
    assert_eq!(exit.phase, ExitPhase::Finished);
    assert_eq!(exit_jobs(Platform::Linux, "/data").len(), 1);
}

#[test]
fn update_waits_for_sidecars_to_go() {
    let (mut preparation, first) = prepare_for_update();
    assert_eq!(first, UpdateAction::BeginShutdown);
    assert_eq!(preparation.step(UpdateReply::Done), UpdateAction::CleanUpWorkers);
    assert_eq!(preparation.step(UpdateReply::Done), UpdateAction::KillSidecars);
    assert_eq!(preparation.step(UpdateReply::Done), UpdateAction::Look);
    assert_eq!(
        preparation.step(UpdateReply::Running(true)),
        UpdateAction::Sleep { millis: 200 }
    );
    assert_eq!(preparation.step(UpdateReply::Done), UpdateAction::Look);
    assert_eq!(
        preparation.step(UpdateReply::Running(false)),
        UpdateAction::Finish { confirmed: true }
    );
    assert_eq!(preparation.phase, UpdatePhase::Finished);
}

#[test]
fn update_goes_ahead_after_ten_looks() {
    let (mut preparation, _) = prepare_for_update();
    let mut looks = 0;
    let mut action = preparation.step(UpdateReply::Done);
    while !matches!(action, UpdateAction::Finish { .. }) {
        if action == UpdateAction::Look {
            looks += 1;
        }
        action = preparation.step(UpdateReply::Running(true));
    }
    assert_eq!(looks, 10);
    assert_eq!(action, UpdateAction::Finish { confirmed: false });
}
