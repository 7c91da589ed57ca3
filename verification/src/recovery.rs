//! Recovery of the database after a crash left its write-ahead log behind.
//!
//! It runs at startup, before any worker opens the database. A checkpoint that
//! succeeds proves that the log was replayed, not that the database can be read:
//! a query that makes SQLite parse the schema follows. Nothing that goes wrong
//! here keeps the application from starting.

use vstd::prelude::*;

use crate::text::{cat, has_suffix};

verus! {

/// The pragma that merges the log into the database, and its argument.
pub const CHECKPOINT_PRAGMA: &'static str = "wal_checkpoint";

pub const CHECKPOINT_MODE: &'static str = "RESTART";

/// The query that shows whether the database can be read.
pub const HEALTH_QUERY: &'static str = "SELECT 1";

/// Said before a recovery begins.
pub const STALE_LOG_NOTICE: &'static str =
    "Found stale WAL files after crash, triggering checkpoint and recovery...";

/// The files of a database.
#[derive(Clone, Copy, PartialEq, Eq, Structural, Debug)]
pub enum DatabaseFile {
    Main,
    /// The write-ahead log.
    Wal,
    /// The index of the write-ahead log.
    Shm,
}

impl DatabaseFile {
    pub open spec fn location(self, database: Seq<char>) -> Seq<char> {
        match self {
            DatabaseFile::Main => database,
            DatabaseFile::Wal => database + "-wal"@,
            DatabaseFile::Shm => database + "-shm"@,
        }
    }

    /// Where the file of a database is.
    pub fn path(self, database: &str) -> (path: String)
        ensures
            path@ == self.location(database@),
    {
        match self {
            DatabaseFile::Main => database.to_owned(),
            DatabaseFile::Wal => cat(database, "-wal"),
            DatabaseFile::Shm => cat(database, "-shm"),
        }
    }
}

/// How far a recovery has come: what the next reply answers.
#[derive(Clone, Copy, PartialEq, Eq, Structural, Debug)]
pub enum RecoveryPhase {
    Looking(DatabaseFile),
    Opening,
    Checkpointing,
    Querying,
    Finished,
}

/// What is to be done next.
#[derive(Debug)]
pub enum RecoveryAction {
    /// Find out whether the file exists.
    Look(DatabaseFile),
    /// Open the database.
    Open,
    /// Run the checkpoint.
    Checkpoint,
    /// Run the health query.
    Query,
    Finish(RecoveryOutcome),
}

/// What came of an action.
#[derive(Debug)]
pub enum RecoveryReply {
    Found(bool),
    Done,
    /// The action failed, for this reason.
    Failed(String),
}

/// How a recovery ended.
#[derive(Debug)]
pub enum RecoveryOutcome {
    NoDatabase,
    /// No log was left behind.
    Clean,
    /// The log was merged and the database can be read.
    Recovered,
    OpenFailed(String),
    CheckpointFailed(String),
    /// The log was merged and the database cannot be read.
    Corrupt(String),
}

/// How much a line of a report matters.
#[derive(Clone, Copy, PartialEq, Eq, Structural, Debug)]
pub enum Severity {
    Debug,
    Info,
    Warning,
    Error,
}

/// One line of a report.
#[derive(Debug)]
pub struct ReportLine {
    pub severity: Severity,
    pub text: String,
}

/// A report, line by line.
pub open spec fn report_texts(lines: Seq<ReportLine>) -> Seq<(Severity, Seq<char>)> {
    Seq::new(lines.len(), |i: int| (lines[i].severity, lines[i].text@))
}

fn report_line(severity: Severity, text: String) -> (line: ReportLine)
    ensures
        line.severity == severity,
        line.text@ == text@,
{
    ReportLine { severity, text }
}

/// The name of the backup that a report points to.
pub open spec fn backup_of(database: Seq<char>) -> Seq<char> {
    database + ".backup"@
}

impl RecoveryOutcome {
    /// What is said of the recovery of a database.
    pub open spec fn lines(self, database: Seq<char>) -> Seq<(Severity, Seq<char>)> {
        match self {
            RecoveryOutcome::NoDatabase => Seq::empty(),
            RecoveryOutcome::Clean => seq![
                (Severity::Debug, "No stale WAL files found, database is clean"@),
            ],
            RecoveryOutcome::Recovered => seq![
                (Severity::Info, "WAL checkpoint completed successfully"@),
                (Severity::Info, "Database health check passed after WAL recovery"@),
            ],
            RecoveryOutcome::OpenFailed(reason) => seq![
                (Severity::Error, "Failed to open database for WAL recovery: "@ + reason@),
                (
                    Severity::Error,
                    "Database may be locked or corrupted. If errors persist, restore from backup: "@
                        + backup_of(database),
                ),
            ],
            RecoveryOutcome::CheckpointFailed(reason) => seq![
                (Severity::Warning, "WAL checkpoint failed (non-fatal): "@ + reason@),
                (
                    Severity::Warning,
                    "Database may be in inconsistent state. If errors persist, restore from backup: "@
                        + backup_of(database),
                ),
            ],
            RecoveryOutcome::Corrupt(reason) => seq![
                (Severity::Info, "WAL checkpoint completed successfully"@),
                (
                    Severity::Error,
                    "DATABASE CORRUPTION DETECTED: Database unusable after WAL recovery: "@
                        + reason@,
                ),
                (
                    Severity::Error,
                    "Action required: Database may be corrupted. Check logs and consider restoring from backup at: "@
                        + backup_of(database),
                ),
            ],
        }
    }

    /// What is to be said of the recovery of a database.
    pub fn report(&self, database: &str) -> (lines: Vec<ReportLine>)
        ensures
            report_texts(lines@) == self.lines(database@),
    {
        let backup = cat(database, ".backup");
        let lines = match self {
            RecoveryOutcome::NoDatabase => Vec::new(),
            RecoveryOutcome::Clean => vec![
                report_line(
                    Severity::Debug,
                    "No stale WAL files found, database is clean".to_owned(),
                ),
            ],
            RecoveryOutcome::Recovered => vec![
                report_line(Severity::Info, "WAL checkpoint completed successfully".to_owned()),
                report_line(
                    Severity::Info,
                    "Database health check passed after WAL recovery".to_owned(),
                ),
            ],
            RecoveryOutcome::OpenFailed(reason) => vec![
                report_line(
                    Severity::Error,
                    cat("Failed to open database for WAL recovery: ", reason.as_str()),
                ),
                report_line(
                    Severity::Error,
                    cat(
                        "Database may be locked or corrupted. If errors persist, restore from backup: ",
                        backup.as_str(),
                    ),
                ),
            ],
            RecoveryOutcome::CheckpointFailed(reason) => vec![
                report_line(
                    Severity::Warning,
                    cat("WAL checkpoint failed (non-fatal): ", reason.as_str()),
                ),
                report_line(
                    Severity::Warning,
                    cat(
                        "Database may be in inconsistent state. If errors persist, restore from backup: ",
                        backup.as_str(),
                    ),
                ),
            ],
            RecoveryOutcome::Corrupt(reason) => vec![
                report_line(Severity::Info, "WAL checkpoint completed successfully".to_owned()),
                report_line(
                    Severity::Error,
                    cat(
                        "DATABASE CORRUPTION DETECTED: Database unusable after WAL recovery: ",
                        reason.as_str(),
                    ),
                ),
                report_line(
                    Severity::Error,
                    cat(
                        "Action required: Database may be corrupted. Check logs and consider restoring from backup at: ",
                        backup.as_str(),
                    ),
                ),
            ],
        };
        assert(report_texts(lines@) =~= self.lines(database@));
        lines
    }
}

/// The recovery of one database.
#[derive(Clone, Copy, Debug)]
pub struct WalRecovery {
    pub phase: RecoveryPhase,
}

impl WalRecovery {
    /// The reply answers what was to be done.
    pub open spec fn answered_by(self, reply: RecoveryReply) -> bool {
        match self.phase {
            RecoveryPhase::Looking(_) => reply is Found,
            RecoveryPhase::Finished => false,
            _ => !(reply is Found),
        }
    }

    pub open spec fn finish(outcome: RecoveryOutcome) -> (WalRecovery, RecoveryAction) {
        (WalRecovery { phase: RecoveryPhase::Finished }, RecoveryAction::Finish(outcome))
    }

    pub open spec fn look(file: DatabaseFile) -> (WalRecovery, RecoveryAction) {
        (WalRecovery { phase: RecoveryPhase::Looking(file) }, RecoveryAction::Look(file))
    }

    pub open spec fn open() -> (WalRecovery, RecoveryAction) {
        (WalRecovery { phase: RecoveryPhase::Opening }, RecoveryAction::Open)
    }

    /// The recovery after a reply that answers the last action, and what is done
    /// next.
    pub open spec fn next(self, reply: RecoveryReply) -> (WalRecovery, RecoveryAction) {
        match (self.phase, reply) {
            (RecoveryPhase::Looking(DatabaseFile::Main), RecoveryReply::Found(found)) => if found {
                Self::look(DatabaseFile::Wal)
            } else {
                Self::finish(RecoveryOutcome::NoDatabase)
            },
            (RecoveryPhase::Looking(DatabaseFile::Wal), RecoveryReply::Found(found)) => if found {
                Self::open()
            } else {
                Self::look(DatabaseFile::Shm)
            },
            (RecoveryPhase::Looking(DatabaseFile::Shm), RecoveryReply::Found(found)) => if found {
                Self::open()
            } else {
                Self::finish(RecoveryOutcome::Clean)
            },
            (RecoveryPhase::Opening, RecoveryReply::Done) => (
                WalRecovery { phase: RecoveryPhase::Checkpointing },
                RecoveryAction::Checkpoint,
            ),
            (RecoveryPhase::Opening, RecoveryReply::Failed(reason)) => Self::finish(
                RecoveryOutcome::OpenFailed(reason),
            ),
            (RecoveryPhase::Checkpointing, RecoveryReply::Done) => (
                WalRecovery { phase: RecoveryPhase::Querying },
                RecoveryAction::Query,
            ),
            (RecoveryPhase::Checkpointing, RecoveryReply::Failed(reason)) => Self::finish(
                RecoveryOutcome::CheckpointFailed(reason),
            ),
            (RecoveryPhase::Querying, RecoveryReply::Failed(reason)) => Self::finish(
                RecoveryOutcome::Corrupt(reason),
            ),
            _ => Self::finish(RecoveryOutcome::Recovered),
        }
    }

    fn end(&mut self, outcome: RecoveryOutcome) -> (action: RecoveryAction)
        ensures
            (*final(self), action) == Self::finish(outcome),
    {
        self.phase = RecoveryPhase::Finished;
        RecoveryAction::Finish(outcome)
    }

    /// Takes the reply to the last action and says what is done next.
    pub fn step(&mut self, reply: RecoveryReply) -> (action: RecoveryAction)
        requires
            old(self).answered_by(reply),
        ensures
            (*final(self), action) == old(self).next(reply),
    {
        match (self.phase, reply) {
            (RecoveryPhase::Looking(file), RecoveryReply::Found(found)) => match (file, found) {
                (DatabaseFile::Main, true) => {
                    self.phase = RecoveryPhase::Looking(DatabaseFile::Wal);
                    RecoveryAction::Look(DatabaseFile::Wal)
                },
                (DatabaseFile::Main, false) => self.end(RecoveryOutcome::NoDatabase),
                (DatabaseFile::Wal, false) => {
                    self.phase = RecoveryPhase::Looking(DatabaseFile::Shm);
                    RecoveryAction::Look(DatabaseFile::Shm)
                },
                (DatabaseFile::Shm, false) => self.end(RecoveryOutcome::Clean),
                (_, true) => {
                    self.phase = RecoveryPhase::Opening;
                    RecoveryAction::Open
                },
            },
            (RecoveryPhase::Opening, RecoveryReply::Done) => {
                self.phase = RecoveryPhase::Checkpointing;
                RecoveryAction::Checkpoint
            },
            (RecoveryPhase::Opening, RecoveryReply::Failed(reason)) => self.end(
                RecoveryOutcome::OpenFailed(reason),
            ),
            (RecoveryPhase::Checkpointing, RecoveryReply::Done) => {
                self.phase = RecoveryPhase::Querying;
                RecoveryAction::Query
            },
            (RecoveryPhase::Checkpointing, RecoveryReply::Failed(reason)) => self.end(
                RecoveryOutcome::CheckpointFailed(reason),
            ),
            (RecoveryPhase::Querying, RecoveryReply::Failed(reason)) => self.end(
                RecoveryOutcome::Corrupt(reason),
            ),
            _ => self.end(RecoveryOutcome::Recovered),
        }
    }
}

/// Begins the recovery of a database: first of all, is there one?
pub fn recover_sqlite_wal() -> (begun: (WalRecovery, RecoveryAction))
    ensures
        begun == WalRecovery::look(DatabaseFile::Main),
{
    (
        WalRecovery { phase: RecoveryPhase::Looking(DatabaseFile::Main) },
        RecoveryAction::Look(DatabaseFile::Main),
    )
}

/// A database is opened only where it exists and a log was left behind.
pub proof fn law_clean_database_is_not_opened(recovery: WalRecovery, reply: RecoveryReply)
    requires
        recovery.answered_by(reply),
    ensures
        recovery.next(reply).1 is Open <==> reply == RecoveryReply::Found(true) && (recovery.phase
            == RecoveryPhase::Looking(DatabaseFile::Wal) || recovery.phase
            == RecoveryPhase::Looking(DatabaseFile::Shm)),
        recovery.next(reply).1 == RecoveryAction::Look(DatabaseFile::Wal) <==> recovery.phase
            == RecoveryPhase::Looking(DatabaseFile::Main) && reply == RecoveryReply::Found(true),
        recovery.next(reply).1 == RecoveryAction::Look(DatabaseFile::Shm) <==> recovery.phase
            == RecoveryPhase::Looking(DatabaseFile::Wal) && reply == RecoveryReply::Found(false),
{
}

/// The health query follows on every checkpoint that succeeded and on nothing
/// else, and only a query that succeeded makes a database count as recovered.
pub proof fn law_checkpoint_is_followed_by_query(recovery: WalRecovery, reply: RecoveryReply)
    requires
        recovery.answered_by(reply),
    ensures
        recovery.next(reply).1 is Query <==> recovery.phase == RecoveryPhase::Checkpointing
            && reply is Done,
        recovery.next(reply).1 == RecoveryAction::Finish(RecoveryOutcome::Recovered)
            <==> recovery.phase == RecoveryPhase::Querying && reply is Done,
{
}

/// How many replies at most are still to come.
pub open spec fn recovery_steps_left(phase: RecoveryPhase) -> nat {
    match phase {
        RecoveryPhase::Looking(DatabaseFile::Main) => 6,
        RecoveryPhase::Looking(DatabaseFile::Wal) => 5,
        RecoveryPhase::Looking(DatabaseFile::Shm) => 4,
        RecoveryPhase::Opening => 3,
        RecoveryPhase::Checkpointing => 2,
        RecoveryPhase::Querying => 1,
        RecoveryPhase::Finished => 0,
    }
}

/// Whatever goes wrong, a recovery comes to its end.
pub proof fn law_recovery_ends(recovery: WalRecovery, reply: RecoveryReply)
    requires
        recovery.answered_by(reply),
    ensures
        recovery_steps_left(recovery.next(reply).0.phase) < recovery_steps_left(recovery.phase),
        recovery.next(reply).1 is Finish <==> recovery.next(reply).0.phase
            == RecoveryPhase::Finished,
{
}

/// Whatever goes wrong, the report ends with the name of the backup.
pub proof fn law_trouble_names_backup(outcome: RecoveryOutcome, database: Seq<char>)
    requires
        outcome is OpenFailed || outcome is CheckpointFailed || outcome is Corrupt,
    ensures
        outcome.lines(database).len() > 0,
        has_suffix(outcome.lines(database).last().1, backup_of(database)),
{
    let text = outcome.lines(database).last().1;
    let backup = backup_of(database);
    assert(text.skip(text.len() - backup.len()) =~= backup);
}

/// The log and its index stand beside the database, under its name.
pub proof fn law_files_of_a_database(database: Seq<char>)
    ensures
        DatabaseFile::Main.location(database) == database,
        DatabaseFile::Wal.location(database) == database + "-wal"@,
        DatabaseFile::Shm.location(database) == database + "-shm"@,
        backup_of(database) == database + ".backup"@,
{
}

/// The whole course of a recovery: a database that exists and has left either file
/// behind is opened, checkpointed and queried, and counts as recovered in the end.
pub proof fn law_left_log_is_recovered(wal: bool, shm: bool)
    ensures
        ({
            let (start, _) = WalRecovery::look(DatabaseFile::Main);
            let (second, look) = start.next(RecoveryReply::Found(true));
            let (third, then_look) = second.next(RecoveryReply::Found(wal));
            let (found, open) = if wal {
                (third, then_look)
            } else {
                third.next(RecoveryReply::Found(shm))
            };
            let (opened, checkpoint) = found.next(RecoveryReply::Done);
            let (merged, query) = opened.next(RecoveryReply::Done);
            let (ended, end) = merged.next(RecoveryReply::Done);
            &&& look == RecoveryAction::Look(DatabaseFile::Wal)
            &&& !wal ==> then_look == RecoveryAction::Look(DatabaseFile::Shm)
            &&& wal || shm ==> {
                &&& open == RecoveryAction::Open
                &&& checkpoint == RecoveryAction::Checkpoint
                &&& query == RecoveryAction::Query
                &&& end == RecoveryAction::Finish(RecoveryOutcome::Recovered)
                &&& ended.phase == RecoveryPhase::Finished
            }
            &&& !wal && !shm ==> open == RecoveryAction::Finish(RecoveryOutcome::Clean)
            &&& start.next(RecoveryReply::Found(false)).1 == RecoveryAction::Finish(
                RecoveryOutcome::NoDatabase,
            )
        }),
{
}

/// Each step that fails ends the recovery, and says which step and why.
pub proof fn law_recovery_failures(reason: String)
    ensures
        (WalRecovery { phase: RecoveryPhase::Opening }).next(RecoveryReply::Failed(reason)).1
            == RecoveryAction::Finish(RecoveryOutcome::OpenFailed(reason)),
        (WalRecovery { phase: RecoveryPhase::Checkpointing }).next(
            RecoveryReply::Failed(reason),
        ).1 == RecoveryAction::Finish(RecoveryOutcome::CheckpointFailed(reason)),
        (WalRecovery { phase: RecoveryPhase::Querying }).next(RecoveryReply::Failed(reason)).1
            == RecoveryAction::Finish(RecoveryOutcome::Corrupt(reason)),
{
}

/// What is reported: nothing that matters where all is well, a warning where the
/// checkpoint failed, errors where the database cannot be opened or read; and always
/// the reason.
pub proof fn law_report_by_outcome(database: Seq<char>, reason: String)
    ensures
        RecoveryOutcome::NoDatabase.lines(database).len() == 0,
        ({
            let lines = RecoveryOutcome::Clean.lines(database);
            lines.len() == 1 && lines[0].0 == Severity::Debug && lines[0].1
                == "No stale WAL files found, database is clean"@
        }),
        ({
            let lines = RecoveryOutcome::Recovered.lines(database);
            &&& lines.len() == 2
            &&& lines[0] == (Severity::Info, "WAL checkpoint completed successfully"@)
            &&& lines[1] == (Severity::Info, "Database health check passed after WAL recovery"@)
        }),
        ({
            let lines = RecoveryOutcome::OpenFailed(reason).lines(database);
            &&& lines.len() == 2
            &&& lines[0] == (
                Severity::Error,
                "Failed to open database for WAL recovery: "@ + reason@,
            )
            &&& lines[1] == (
                Severity::Error,
                "Database may be locked or corrupted. If errors persist, restore from backup: "@ + (
                database + ".backup"@),
            )
        }),
        ({
            let lines = RecoveryOutcome::CheckpointFailed(reason).lines(database);
            &&& lines.len() == 2
            &&& lines[0] == (Severity::Warning, "WAL checkpoint failed (non-fatal): "@ + reason@)
            &&& lines[1] == (
                Severity::Warning,
                "Database may be in inconsistent state. If errors persist, restore from backup: "@
                    + (database + ".backup"@),
            )
        }),
        ({
            let lines = RecoveryOutcome::Corrupt(reason).lines(database);
            &&& lines.len() == 3
            &&& lines[0] == (Severity::Info, "WAL checkpoint completed successfully"@)
            &&& lines[1] == (
                Severity::Error,
                "DATABASE CORRUPTION DETECTED: Database unusable after WAL recovery: "@ + reason@,
            )
            &&& lines[2] == (
                Severity::Error,
                "Action required: Database may be corrupted. Check logs and consider restoring from backup at: "@
                    + (database + ".backup"@),
            )
        }),
{
}

/// The texts of a report are those of its lines, each in its place.
pub proof fn law_report_in_place(lines: Seq<ReportLine>, i: int)
    requires
        0 <= i < lines.len(),
    ensures
        report_texts(lines).len() == lines.len(),
        report_texts(lines)[i] == (lines[i].severity, lines[i].text@),
{
}

/// What is asked of the database.
pub proof fn law_recovery_statements()
    ensures
        CHECKPOINT_PRAGMA@ == "wal_checkpoint"@,
        CHECKPOINT_MODE@ == "RESTART"@,
        HEALTH_QUERY@ == "SELECT 1"@,
{
}

/// Every phase but the last takes every reply that can answer it: whether a file
/// was found, or whether a step was done or failed.
pub proof fn law_every_answer_is_taken(file: DatabaseFile, found: bool, reason: String)
    ensures
        (WalRecovery { phase: RecoveryPhase::Looking(file) }).answered_by(
            RecoveryReply::Found(found),
        ),
        (WalRecovery { phase: RecoveryPhase::Opening }).answered_by(RecoveryReply::Done),
        (WalRecovery { phase: RecoveryPhase::Opening }).answered_by(RecoveryReply::Failed(reason)),
        (WalRecovery { phase: RecoveryPhase::Checkpointing }).answered_by(RecoveryReply::Done),
        (WalRecovery { phase: RecoveryPhase::Checkpointing }).answered_by(
            RecoveryReply::Failed(reason),
        ),
        (WalRecovery { phase: RecoveryPhase::Querying }).answered_by(RecoveryReply::Done),
        (WalRecovery { phase: RecoveryPhase::Querying }).answered_by(RecoveryReply::Failed(reason)),
{
}

} // verus!
