use tauri_python_sidecar::recovery::{
    recover_sqlite_wal, DatabaseFile, RecoveryAction, RecoveryOutcome, RecoveryPhase,
    RecoveryReply, Severity, WalRecovery, CHECKPOINT_MODE, CHECKPOINT_PRAGMA, HEALTH_QUERY,
};

fn failed() -> RecoveryReply {
    RecoveryReply::Failed("disk I/O error".to_string())
}

fn outcome(action: RecoveryAction) -> RecoveryOutcome {
    match action {
        RecoveryAction::Finish(outcome) => outcome,
        other => panic!("unexpected action {:?}", other),
    }
}

/// A recovery that has found a log and is about to open the database.
fn opening() -> WalRecovery {
    let (mut recovery, first) = recover_sqlite_wal();
    assert!(matches!(first, RecoveryAction::Look(DatabaseFile::Main)));
    assert!(matches!(
        recovery.step(RecoveryReply::Found(true)),
        RecoveryAction::Look(DatabaseFile::Wal)
    ));
    assert!(matches!(recovery.step(RecoveryReply::Found(true)), RecoveryAction::Open));
    recovery
}

#[test]
fn nothing_to_recover() {
    let (mut recovery, _) = recover_sqlite_wal();
    let end = outcome(recovery.step(RecoveryReply::Found(false)));
    assert!(matches!(end, RecoveryOutcome::NoDatabase));
    assert!(end.report("/d/sidecar.db").is_empty());
}

#[test]
fn clean_database_is_not_opened() {
    let (mut recovery, _) = recover_sqlite_wal();
    recovery.step(RecoveryReply::Found(true));
    assert!(matches!(
        recovery.step(RecoveryReply::Found(false)),
        RecoveryAction::Look(DatabaseFile::Shm)
    ));
    let end = outcome(recovery.step(RecoveryReply::Found(false)));
    assert!(matches!(end, RecoveryOutcome::Clean));
    let report = end.report("/d/sidecar.db");
    assert_eq!(report.len(), 1);
    assert_eq!(report[0].severity, Severity::Debug);
}

#[test]
fn index_alone_is_enough_to_recover() {
    let (mut recovery, _) = recover_sqlite_wal();
    recovery.step(RecoveryReply::Found(true));
    recovery.step(RecoveryReply::Found(false));
    assert!(matches!(recovery.step(RecoveryReply::Found(true)), RecoveryAction::Open));
}

#[test]
fn checkpoint_is_followed_by_a_query() {
    let mut recovery = opening();
    assert!(matches!(recovery.step(RecoveryReply::Done), RecoveryAction::Checkpoint));
    assert!(matches!(recovery.step(RecoveryReply::Done), RecoveryAction::Query));
    let end = outcome(recovery.step(RecoveryReply::Done));
    assert!(matches!(end, RecoveryOutcome::Recovered));
    assert_eq!(recovery.phase, RecoveryPhase::Finished);
    let texts: Vec<String> = end.report("x").into_iter().map(|line| line.text).collect();
    assert_eq!(
        texts,
        vec![
            "WAL checkpoint completed successfully",
            "Database health check passed after WAL recovery"
        ]
    );
    assert_eq!((CHECKPOINT_PRAGMA, CHECKPOINT_MODE), ("wal_checkpoint", "RESTART"));
    assert_eq!(HEALTH_QUERY, "SELECT 1");
}

#[test]
fn database_that_cannot_be_opened() {
    let end = outcome(opening().step(failed()));
    let report = end.report("/d/sidecar.db");
    assert_eq!(report[0].text, "Failed to open database for WAL recovery: disk I/O error");
    assert_eq!(
        report[1].text,
        "Database may be locked or corrupted. If errors persist, restore from backup: \
         /d/sidecar.db.backup"
    );
    assert!(report.iter().all(|line| line.severity == Severity::Error));
}

#[test]
fn checkpoint_that_fails() {
    let mut recovery = opening();
    recovery.step(RecoveryReply::Done);
    let end = outcome(recovery.step(failed()));
    assert!(matches!(end, RecoveryOutcome::CheckpointFailed(_)));
    let report = end.report("/d/sidecar.db");
    assert_eq!(report[0].text, "WAL checkpoint failed (non-fatal): disk I/O error");
    assert_eq!(
        report[1].text,
        "Database may be in inconsistent state. If errors persist, restore from backup: \
         /d/sidecar.db.backup"
    );
    assert_eq!(report[0].severity, Severity::Warning);
}

#[test]
fn corruption_is_reported() {
    let mut recovery = opening();
    recovery.step(RecoveryReply::Done);
    recovery.step(RecoveryReply::Done);
    let report = outcome(recovery.step(failed())).report("/d/sidecar.db");
    assert_eq!(report.len(), 3);
    assert_eq!(
        report[1].text,
        "DATABASE CORRUPTION DETECTED: Database unusable after WAL recovery: disk I/O error"
    );
    assert_eq!(
        report[2].text,
        "Action required: Database may be corrupted. \
         Check logs and consider restoring from backup at: /d/sidecar.db.backup"
    );
    assert_eq!(report[2].severity, Severity::Error);
}

#[test]
fn files_of_a_database() {
    assert_eq!(DatabaseFile::Main.path("/d/sidecar.db"), "/d/sidecar.db");
    assert_eq!(DatabaseFile::Wal.path("/d/sidecar.db"), "/d/sidecar.db-wal");
    assert_eq!(DatabaseFile::Shm.path("/d/sidecar.db"), "/d/sidecar.db-shm");
}
