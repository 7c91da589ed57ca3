//! PID locks: what a worker's lock file says, and how a lock that outlived its
//! worker is cleaned up.
//!
//! A lock holds the worker's PID and, next to it, the worker's image name. An
//! operating system reuses a PID as soon as it is free, so a lock from an earlier
//! run may name a stranger: at startup only a process that still carries the
//! recorded name is killed.

use vstd::prelude::*;
use vstd::string::*;

use crate::command::opt_text;
use crate::numbers::{
    int_error_message, law_u32_is_read_back, parse_u32, u32_refusal, u32_value,
};
use crate::text::{
    all_space, cat, cat3, cat4, decimal, decimal_text, is_space, law_decimal_round_trip,
    law_leading_word_ends_at_space, law_trimmed_is_the_middle, leading_word, lemma_decimal_digits,
    lemma_trimmed_start, no_space, same_text, split_word, trim, trim_start, trimmed, trimmed_end,
    trimmed_start,
};

verus! {

/// A supervised background process, identified by the lock file it writes.
#[derive(Clone, Copy, Debug)]
pub struct Worker {
    /// File name in the index directory.
    pub lock_file: &'static str,
    /// Name for people.
    pub name: &'static str,
}

/// The processes that are supervised by their locks.
pub open spec fn registry() -> Seq<(Seq<char>, Seq<char>)> {
    seq![("sidecar_server.lock"@, "Sidecar server"@)]
}

/// The processes that are supervised by their locks. Every cleanup walks this
/// list.
pub fn workers() -> (list: Vec<Worker>)
    ensures
        list@.len() == registry().len(),
        forall|i: int|
            0 <= i < list@.len() ==> ((#[trigger] list@[i]).lock_file@, list@[i].name@)
                == registry()[i],
{
    vec![Worker { lock_file: "sidecar_server.lock", name: "Sidecar server" }]
}

/// The PID that a lock holds: its first word, as a number.
pub open spec fn lock_pid(content: Seq<char>) -> Option<u32> {
    u32_value(leading_word(trimmed_start(content)))
}

/// The image name that a lock holds: what follows the PID, where anything does.
pub open spec fn lock_image(content: Seq<char>) -> Option<Seq<char>> {
    let text = trimmed_start(content);
    let rest = trimmed(text.skip(leading_word(text).len() as int));
    if rest.len() > 0 {
        Some(rest)
    } else {
        None
    }
}

/// The content of a lock.
pub open spec fn lock_text(pid: u32, image: Option<Seq<char>>) -> Seq<char> {
    match image {
        Some(name) => decimal(pid as nat) + "\n"@ + name,
        None => decimal(pid as nat),
    }
}

/// The content of the lock of a process.
pub fn lock_content(pid: u32, image: &Option<String>) -> (content: String)
    ensures
        content@ == lock_text(pid, opt_text(*image)),
{
    let number = decimal_text(pid as u64);
    match image {
        Some(name) => cat3(number.as_str(), "\n", name.as_str()),
        None => number,
    }
}

proof fn lemma_leading_digits(digits: Seq<char>, rest: Seq<char>)
    requires
        forall|i: int| 0 <= i < digits.len() ==> '0' <= #[trigger] digits[i] <= '9',
        rest.len() > 0 ==> crate::text::is_space(rest[0]),
    ensures
        leading_word(digits + rest) == digits,
    decreases digits.len(),
{
    let all = digits + rest;
    if digits.len() > 0 {
        let tail = digits.drop_first();
        assert forall|i: int| 0 <= i < tail.len() implies '0' <= #[trigger] tail[i] <= '9' by {
            assert(tail[i] == digits[i + 1]);
        }
        lemma_leading_digits(tail, rest);
        assert(all.drop_first() =~= tail + rest);
        assert(all[0] == digits[0]);
        assert(seq![digits[0]] + tail =~= digits);
    } else {
        assert(leading_word(all) =~= digits);
    }
}

/// What was written into a lock is read back from it: the PID always, and the
/// image name where it is a name at all (not blank, no white space at its ends).
pub proof fn law_lock_round_trip(pid: u32, image: Option<Seq<char>>)
    requires
        image matches Some(name) ==> name.len() > 0 && trimmed(name) == name,
    ensures
        lock_pid(lock_text(pid, image)) == Some(pid),
        lock_image(lock_text(pid, image)) == image,
{
    let number = decimal(pid as nat);
    lemma_decimal_digits(pid as nat);
    law_decimal_round_trip(pid as nat);
    assert(crate::text::is_digit(number[0]));
    reveal_strlit("\n");
    let rest = match image {
        Some(name) => "\n"@ + name,
        None => Seq::empty(),
    };
    let content = lock_text(pid, image);
    assert(content =~= number + rest);
    assert(content[0] == number[0]);
    assert(trimmed_start(content) == content);
    assert forall|i: int| 0 <= i < number.len() implies '0' <= #[trigger] number[i] <= '9' by {
        assert(crate::text::is_digit(number[i]));
    }
    lemma_leading_digits(number, rest);
    assert(content.skip(number.len() as int) =~= rest);
    if let Some(name) = image {
        assert(rest.drop_first() =~= name);
        assert(trimmed_start(rest) == trimmed_start(name));
        assert(trimmed(rest) == trimmed(name));
    } else {
        assert(trimmed_start(rest) == rest);
        assert(trimmed_end(rest) == rest);
    }
}

/// The PID that a lock holds.
fn read_lock_pid(content: &str) -> (pid: Option<u32>)
    ensures
        pid == lock_pid(content@),
{
    let (word, _) = split_word(trim_start(content));
    match parse_u32(word) {
        Ok(pid) => Some(pid),
        Err(_) => None,
    }
}

/// The process carries the name that the lock recorded.
pub open spec fn carries_name(content: Seq<char>, image: Option<Seq<char>>) -> bool {
    lock_image(content) is Some && lock_image(content) == image
}

/// Whether a process carries the name that the lock recorded. A lock without a
/// name, and a process whose name is not known, match nothing.
fn is_namesake(content: &str, image: &Option<String>) -> (same: bool)
    ensures
        same == carries_name(content@, opt_text(*image)),
{
    let (_, rest) = split_word(trim_start(content));
    let recorded = trim(rest);
    match image {
        Some(name) => recorded.unicode_len() > 0 && same_text(recorded, name.as_str()),
        None => false,
    }
}

/// How a lock is cleaned up.
#[derive(Clone, Copy, PartialEq, Eq, Structural, Debug)]
pub enum CleanupMode {
    /// At startup: a process left behind by a crash is killed at once.
    Sweep,
    /// At exit: the process is asked to end, and killed if it does not in time.
    Shutdown,
}

/// How far a cleanup has come: what the next reply answers.
#[derive(Clone, Copy, PartialEq, Eq, Structural, Debug)]
pub enum CleanupPhase {
    Reading,
    Checking { pid: u32 },
    Identifying { pid: u32 },
    /// Killing a process that a crash left behind.
    Killing { pid: u32 },
    Terminating { pid: u32 },
    /// Sleeping, with so many polls ahead.
    Waiting { pid: u32, polls: u64 },
    /// Looking whether the process is gone, with so many polls still ahead.
    Polling { pid: u32, polls: u64 },
    /// Looking once more whether a killed process is gone.
    Confirming { pid: u32 },
    /// Killing a process that did not end in time.
    ForceKilling { pid: u32 },
    /// Removing the lock of a process that is gone or a stranger.
    RemovingStale,
    Removing,
    Finished,
}

/// What is to be done next.
#[derive(Debug)]
pub enum CleanupAction {
    /// Read the lock file.
    Read,
    /// Find out whether the process runs.
    Check { pid: u32 },
    /// Find out the process's image name.
    Identify { pid: u32 },
    /// Ask the process to end.
    Terminate { pid: u32 },
    /// End the process by force.
    Kill { pid: u32 },
    Sleep { millis: u64 },
    /// Remove the lock file.
    Remove,
    Finish(CleanupOutcome),
}

/// What came of reading a lock file.
#[derive(Debug)]
pub enum LockRead {
    /// There is none, or it vanished before it was read.
    Missing,
    Content(String),
    Failed(String),
}

/// What came of removing a lock file.
#[derive(Debug)]
pub enum LockRemoval {
    Removed,
    /// The worker's own cleanup was faster.
    Missing,
    Failed(String),
}

/// What came of an action.
#[derive(Debug)]
pub enum CleanupReply {
    Read(LockRead),
    Checked { alive: bool },
    Identified(Option<String>),
    /// A process was asked to end or ended by force, or the command for it could
    /// not be run, for this reason.
    Signalled(Result<(), String>),
    Slept,
    Removed(LockRemoval),
}

/// How a cleanup ended.
#[derive(Debug)]
pub enum CleanupOutcome {
    /// There was no lock.
    NoLock,
    /// The lock was stale and was removed.
    StaleRemoved,
    /// The lock was stale and could not be removed, for this reason.
    StaleKept(String),
    /// The process was ended and the lock removed.
    Removed,
    ReadFailed(String),
    /// This content names no PID.
    InvalidPid(String),
    KillFailed { pid: u32, reason: String },
    RemoveFailed(String),
}

impl CleanupOutcome {
    /// The message for people, where the cleanup failed. A stale lock that could
    /// not be removed is no failure.
    pub open spec fn message(self, worker: Seq<char>) -> Option<Seq<char>> {
        match self {
            CleanupOutcome::ReadFailed(reason) => Some(
                "Failed to read "@ + worker + " lock file: "@ + reason@,
            ),
            CleanupOutcome::InvalidPid(content) => if lock_pid(content@) is None {
                Some(
                    "Invalid PID in "@ + worker + " lock file: "@ + u32_refusal(
                        leading_word(trimmed_start(content@)),
                    ),
                )
            } else {
                None
            },
            CleanupOutcome::KillFailed { pid, reason } => Some(
                "Failed to force kill PID "@ + decimal(pid as nat) + ": "@ + reason@,
            ),
            CleanupOutcome::RemoveFailed(reason) => Some("Failed to remove lock file: "@ + reason@),
            _ => None,
        }
    }

    /// The result of the cleanup of `worker`'s lock.
    pub fn result(&self, worker: &str) -> (result: Result<(), String>)
        ensures
            result is Ok <==> self.message(worker@) is None,
            result matches Err(message) ==> self.message(worker@) == Some(message@),
    {
        match self {
            CleanupOutcome::ReadFailed(reason) => Err(
                cat4("Failed to read ", worker, " lock file: ", reason.as_str()),
            ),
            CleanupOutcome::InvalidPid(content) => {
                let (word, _) = split_word(trim_start(content.as_str()));
                match parse_u32(word) {
                    Ok(_) => Ok(()),
                    Err(error) => {
                        let reason = int_error_message(&error);
                        Err(cat4("Invalid PID in ", worker, " lock file: ", reason.as_str()))
                    },
                }
            },
            CleanupOutcome::KillFailed { pid, reason } => {
                let number = decimal_text(*pid as u64);
                Err(cat4("Failed to force kill PID ", number.as_str(), ": ", reason.as_str()))
            },
            CleanupOutcome::RemoveFailed(reason) => Err(
                cat("Failed to remove lock file: ", reason.as_str()),
            ),
            _ => Ok(()),
        }
    }
}

/// The cleanup of one lock.
#[derive(Debug)]
pub struct LockCleanup {
    pub mode: CleanupMode,
    /// How often is looked whether the process is gone.
    pub polls: u64,
    /// Milliseconds before each look.
    pub interval_millis: u64,
    /// What the lock holds, once it was read.
    pub content: Option<String>,
    pub phase: CleanupPhase,
}

impl LockCleanup {
    pub open spec fn at(self, phase: CleanupPhase) -> LockCleanup {
        LockCleanup { phase, ..self }
    }

    /// The reply answers what was to be done.
    pub open spec fn answered_by(self, reply: CleanupReply) -> bool {
        match self.phase {
            CleanupPhase::Reading => reply is Read,
            CleanupPhase::Checking { .. }
            | CleanupPhase::Polling { .. }
            | CleanupPhase::Confirming { .. } => reply is Checked,
            CleanupPhase::Identifying { .. } => reply is Identified,
            CleanupPhase::Killing { .. }
            | CleanupPhase::Terminating { .. }
            | CleanupPhase::ForceKilling { .. } => reply is Signalled,
            CleanupPhase::Waiting { .. } => reply is Slept,
            CleanupPhase::RemovingStale | CleanupPhase::Removing => reply is Removed,
            CleanupPhase::Finished => false,
        }
    }

    /// The cleanup is over.
    pub open spec fn finish(self, outcome: CleanupOutcome) -> (LockCleanup, CleanupAction) {
        (self.at(CleanupPhase::Finished), CleanupAction::Finish(outcome))
    }

    pub open spec fn remove_stale(self) -> (LockCleanup, CleanupAction) {
        (self.at(CleanupPhase::RemovingStale), CleanupAction::Remove)
    }

    pub open spec fn remove(self) -> (LockCleanup, CleanupAction) {
        (self.at(CleanupPhase::Removing), CleanupAction::Remove)
    }

    /// The polls are over, with the process gone or not.
    pub open spec fn polls_over(self, pid: u32, alive: bool) -> (LockCleanup, CleanupAction) {
        if self.mode == CleanupMode::Sweep {
            (self.at(CleanupPhase::Confirming { pid }), CleanupAction::Check { pid })
        } else if alive {
            (self.at(CleanupPhase::ForceKilling { pid }), CleanupAction::Kill { pid })
        } else {
            self.remove()
        }
    }

    /// Waits for the process to go, as long as polls are left.
    pub open spec fn wait(self, pid: u32, polls: u64) -> (LockCleanup, CleanupAction) {
        if polls > 0 {
            (
                self.at(CleanupPhase::Waiting { pid, polls }),
                CleanupAction::Sleep { millis: self.interval_millis },
            )
        } else {
            self.polls_over(pid, true)
        }
    }

    /// The cleanup after a reply that answers the last action, and what is done
    /// next.
    pub open spec fn next(self, reply: CleanupReply) -> (LockCleanup, CleanupAction) {
        match (self.phase, reply) {
            (CleanupPhase::Reading, CleanupReply::Read(LockRead::Missing)) => self.finish(
                CleanupOutcome::NoLock,
            ),
            (CleanupPhase::Reading, CleanupReply::Read(LockRead::Failed(reason))) => self.finish(
                CleanupOutcome::ReadFailed(reason),
            ),
            (CleanupPhase::Reading, CleanupReply::Read(LockRead::Content(content))) => {
                match lock_pid(content@) {
                    Some(pid) => (
                        LockCleanup {
                            content: Some(content),
                            phase: CleanupPhase::Checking { pid },
                            ..self
                        },
                        CleanupAction::Check { pid },
                    ),
                    None => self.finish(CleanupOutcome::InvalidPid(content)),
                }
            },
            (CleanupPhase::Checking { pid }, CleanupReply::Checked { alive }) => if !alive {
                self.remove_stale()
            } else if self.mode == CleanupMode::Sweep {
                (self.at(CleanupPhase::Identifying { pid }), CleanupAction::Identify { pid })
            } else {
                (self.at(CleanupPhase::Terminating { pid }), CleanupAction::Terminate { pid })
            },
            (CleanupPhase::Identifying { pid }, CleanupReply::Identified(image)) => if self.content
                is Some && carries_name(self.content->0@, opt_text(image)) {
                (self.at(CleanupPhase::Killing { pid }), CleanupAction::Kill { pid })
            } else {
                self.remove_stale()
            },
            (CleanupPhase::Killing { pid }, CleanupReply::Signalled(_)) => self.wait(
                pid,
                self.polls,
            ),
            (CleanupPhase::Terminating { pid }, CleanupReply::Signalled(_)) => self.wait(
                pid,
                self.polls,
            ),
            (CleanupPhase::Waiting { pid, polls }, CleanupReply::Slept) => (
                self.at(CleanupPhase::Polling { pid, polls: (polls - 1) as u64 }),
                CleanupAction::Check { pid },
            ),
            (CleanupPhase::Polling { pid, polls }, CleanupReply::Checked { alive }) => if alive {
                self.wait(pid, polls)
            } else {
                self.polls_over(pid, false)
            },
            (CleanupPhase::Confirming { .. }, CleanupReply::Checked { .. }) => self.remove(),
            (CleanupPhase::ForceKilling { pid }, CleanupReply::Signalled(result)) => match result {
                Ok(_) => self.remove(),
                Err(reason) => self.finish(CleanupOutcome::KillFailed { pid, reason }),
            },
            (CleanupPhase::RemovingStale, CleanupReply::Removed(LockRemoval::Failed(reason))) => {
                self.finish(CleanupOutcome::StaleKept(reason))
            },
            (CleanupPhase::RemovingStale, CleanupReply::Removed(_)) => self.finish(
                CleanupOutcome::StaleRemoved,
            ),
            (CleanupPhase::Removing, CleanupReply::Removed(LockRemoval::Failed(reason))) => {
                self.finish(CleanupOutcome::RemoveFailed(reason))
            },
            (CleanupPhase::Removing, CleanupReply::Removed(_)) => self.finish(
                CleanupOutcome::Removed,
            ),
            _ => (self, CleanupAction::Remove),
        }
    }

    /// The process that the cleanup is about is the one that the lock names, and
    /// no more polls are ahead than there are at all. A sweep never asks a process
    /// to end, and an exit never asks for names.
    pub open spec fn wf(self) -> bool {
        match self.phase {
            CleanupPhase::Checking { pid } => self.names(pid),
            CleanupPhase::Identifying { pid } | CleanupPhase::Killing { pid } => {
                self.names(pid) && self.mode == CleanupMode::Sweep
            },
            CleanupPhase::Confirming { pid } => self.names(pid) && self.mode == CleanupMode::Sweep,
            CleanupPhase::Terminating { pid } | CleanupPhase::ForceKilling { pid } => {
                self.names(pid) && self.mode == CleanupMode::Shutdown
            },
            CleanupPhase::Waiting { pid, polls } => self.names(pid) && 0 < polls <= self.polls,
            CleanupPhase::Polling { pid, polls } => self.names(pid) && polls < self.polls,
            _ => true,
        }
    }

    /// The lock was read and names this process.
    pub open spec fn names(self, pid: u32) -> bool {
        self.content is Some && lock_pid(self.content->0@) == Some(pid)
    }

    fn begin_wait(&mut self, pid: u32, polls: u64) -> (action: CleanupAction)
        requires
            old(self).names(pid),
            polls <= old(self).polls,
        ensures
            final(self).wf(),
            (*final(self), action) == old(self).wait(pid, polls),
    {
        if polls > 0 {
            self.phase = CleanupPhase::Waiting { pid, polls };
            CleanupAction::Sleep { millis: self.interval_millis }
        } else {
            self.end_polls(pid, true)
        }
    }

    fn end_polls(&mut self, pid: u32, alive: bool) -> (action: CleanupAction)
        requires
            old(self).names(pid),
        ensures
            final(self).wf(),
            (*final(self), action) == old(self).polls_over(pid, alive),
    {
        if matches!(self.mode, CleanupMode::Sweep) {
            self.phase = CleanupPhase::Confirming { pid };
            CleanupAction::Check { pid }
        } else if alive {
            self.phase = CleanupPhase::ForceKilling { pid };
            CleanupAction::Kill { pid }
        } else {
            self.phase = CleanupPhase::Removing;
            CleanupAction::Remove
        }
    }

    fn read(&mut self, read: LockRead) -> (action: CleanupAction)
        requires
            old(self).phase == CleanupPhase::Reading,
        ensures
            final(self).wf(),
            (*final(self), action) == old(self).next(CleanupReply::Read(read)),
    {
        match read {
            LockRead::Missing => {
                self.phase = CleanupPhase::Finished;
                CleanupAction::Finish(CleanupOutcome::NoLock)
            },
            LockRead::Failed(reason) => {
                self.phase = CleanupPhase::Finished;
                CleanupAction::Finish(CleanupOutcome::ReadFailed(reason))
            },
            LockRead::Content(content) => match read_lock_pid(content.as_str()) {
                Some(pid) => {
                    self.content = Some(content);
                    self.phase = CleanupPhase::Checking { pid };
                    CleanupAction::Check { pid }
                },
                None => {
                    self.phase = CleanupPhase::Finished;
                    CleanupAction::Finish(CleanupOutcome::InvalidPid(content))
                },
            },
        }
    }

    fn checked(&mut self, alive: bool) -> (action: CleanupAction)
        requires
            old(self).wf(),
            old(self).answered_by(CleanupReply::Checked { alive }),
        ensures
            final(self).wf(),
            (*final(self), action) == old(self).next(CleanupReply::Checked { alive }),
    {
        match self.phase {
            CleanupPhase::Checking { pid } => {
                if !alive {
                    self.phase = CleanupPhase::RemovingStale;
                    CleanupAction::Remove
                } else if matches!(self.mode, CleanupMode::Sweep) {
                    self.phase = CleanupPhase::Identifying { pid };
                    CleanupAction::Identify { pid }
                } else {
                    self.phase = CleanupPhase::Terminating { pid };
                    CleanupAction::Terminate { pid }
                }
            },
            CleanupPhase::Polling { pid, polls } => {
                if alive {
                    self.begin_wait(pid, polls)
                } else {
                    self.end_polls(pid, false)
                }
            },
            _ => {
                self.phase = CleanupPhase::Removing;
                CleanupAction::Remove
            },
        }
    }

    fn identified(&mut self, image: Option<String>) -> (action: CleanupAction)
        requires
            old(self).wf(),
            old(self).answered_by(CleanupReply::Identified(image)),
        ensures
            final(self).wf(),
            (*final(self), action) == old(self).next(CleanupReply::Identified(image)),
    {
        if let CleanupPhase::Identifying { pid } = self.phase {
            let same = match &self.content {
                Some(content) => is_namesake(content.as_str(), &image),
                None => false,
            };
            if same {
                self.phase = CleanupPhase::Killing { pid };
                return CleanupAction::Kill { pid };
            }
        }
        self.phase = CleanupPhase::RemovingStale;
        CleanupAction::Remove
    }

    fn signalled(&mut self, result: Result<(), String>) -> (action: CleanupAction)
        requires
            old(self).wf(),
            old(self).answered_by(CleanupReply::Signalled(result)),
        ensures
            final(self).wf(),
            (*final(self), action) == old(self).next(CleanupReply::Signalled(result)),
    {
        match self.phase {
            CleanupPhase::Killing { pid } => {
                let polls: u64 = self.polls;
                self.begin_wait(pid, polls)
            },
            CleanupPhase::Terminating { pid } => {
                let polls: u64 = self.polls;
                self.begin_wait(pid, polls)
            },
            CleanupPhase::ForceKilling { pid } => match result {
                Ok(_) => {
                    self.phase = CleanupPhase::Removing;
                    CleanupAction::Remove
                },
                Err(reason) => {
                    self.phase = CleanupPhase::Finished;
                    CleanupAction::Finish(CleanupOutcome::KillFailed { pid, reason })
                },
            },
            _ => CleanupAction::Remove,
        }
    }

    fn removed(&mut self, removal: LockRemoval) -> (action: CleanupAction)
        requires
            old(self).answered_by(CleanupReply::Removed(removal)),
        ensures
            final(self).wf(),
            (*final(self), action) == old(self).next(CleanupReply::Removed(removal)),
    {
        let stale = matches!(self.phase, CleanupPhase::RemovingStale);
        self.phase = CleanupPhase::Finished;
        match removal {
            LockRemoval::Failed(reason) => if stale {
                CleanupAction::Finish(CleanupOutcome::StaleKept(reason))
            } else {
                CleanupAction::Finish(CleanupOutcome::RemoveFailed(reason))
            },
            _ => if stale {
                CleanupAction::Finish(CleanupOutcome::StaleRemoved)
            } else {
                CleanupAction::Finish(CleanupOutcome::Removed)
            },
        }
    }

    /// Takes the reply to the last action and says what is done next.
    pub fn step(&mut self, reply: CleanupReply) -> (action: CleanupAction)
        requires
            old(self).wf(),
            old(self).answered_by(reply),
        ensures
            final(self).wf(),
            (*final(self), action) == old(self).next(reply),
            action matches CleanupAction::Finish(CleanupOutcome::InvalidPid(content))
                ==> lock_pid(content@) is None,
    {
        match reply {
            CleanupReply::Read(read) => self.read(read),
            CleanupReply::Checked { alive } => self.checked(alive),
            CleanupReply::Identified(image) => self.identified(image),
            CleanupReply::Signalled(result) => self.signalled(result),
            CleanupReply::Slept => {
                if let CleanupPhase::Waiting { pid, polls } = self.phase {
                    let left: u64 = polls - 1;
                    self.phase = CleanupPhase::Polling { pid, polls: left };
                    return CleanupAction::Check { pid };
                }
                CleanupAction::Remove
            },
            CleanupReply::Removed(removal) => self.removed(removal),
        }
    }
}

/// Looks for the processes that a crash left behind, ten times at most.
pub const SWEEP_POLLS: u64 = 10;

/// Milliseconds between two looks at a process that was killed.
pub const SWEEP_INTERVAL_MILLIS: u64 = 20;

/// Milliseconds between two looks at a process that was asked to end.
pub const SHUTDOWN_INTERVAL_MILLIS: u64 = 200;

/// Begins the cleanup of one lock at startup: a process that the lock names, that
/// runs and that carries the recorded name is killed at once.
pub fn cleanup_worker_lock() -> (begun: (LockCleanup, CleanupAction))
    ensures
        begun.0.wf(),
        begun.0 == (LockCleanup {
            mode: CleanupMode::Sweep,
            polls: SWEEP_POLLS,
            interval_millis: SWEEP_INTERVAL_MILLIS,
            content: None,
            phase: CleanupPhase::Reading,
        }),
        begun.1 is Read,
{
    let cleanup = LockCleanup {
        mode: CleanupMode::Sweep,
        polls: SWEEP_POLLS,
        interval_millis: SWEEP_INTERVAL_MILLIS,
        content: None,
        phase: CleanupPhase::Reading,
    };
    (cleanup, CleanupAction::Read)
}

/// Begins the cleanup of one lock at exit: the process that it names is asked to
/// end, and killed where it runs on for `timeout_secs`.
pub fn cleanup_worker_lock_with_timeout(timeout_secs: u64) -> (begun: (LockCleanup, CleanupAction))
    requires
        timeout_secs * 1000 <= u64::MAX,
    ensures
        begun.0.wf(),
        begun.0 == (LockCleanup {
            mode: CleanupMode::Shutdown,
            polls: (timeout_secs * 1000 / 200) as u64,
            interval_millis: SHUTDOWN_INTERVAL_MILLIS,
            content: None,
            phase: CleanupPhase::Reading,
        }),
        begun.1 is Read,
{
    let cleanup = LockCleanup {
        mode: CleanupMode::Shutdown,
        polls: timeout_secs * 1000 / SHUTDOWN_INTERVAL_MILLIS,
        interval_millis: SHUTDOWN_INTERVAL_MILLIS,
        content: None,
        phase: CleanupPhase::Reading,
    };
    (cleanup, CleanupAction::Read)
}

/// At startup a process is killed only where the lock names it and it still
/// carries the image name that the lock recorded; nothing is asked to end.
pub proof fn law_sweep_kills_only_namesakes(cleanup: LockCleanup, reply: CleanupReply)
    requires
        cleanup.wf(),
        cleanup.mode == CleanupMode::Sweep,
        cleanup.answered_by(reply),
    ensures
        !(cleanup.next(reply).1 is Terminate),
        cleanup.next(reply).1 matches CleanupAction::Kill { pid } ==> {
            &&& cleanup.content is Some
            &&& lock_pid(cleanup.content->0@) == Some(pid)
            &&& lock_image(cleanup.content->0@) is Some
            &&& reply matches CleanupReply::Identified(image)
            &&& opt_text(image) == lock_image(cleanup.content->0@)
        },
{
}

/// At startup a lock without a recorded name gets nobody killed, and neither does
/// a process whose name cannot be found out; the lock is removed.
pub proof fn law_unnamed_is_never_killed(cleanup: LockCleanup, reply: CleanupReply)
    requires
        cleanup.wf(),
        cleanup.mode == CleanupMode::Sweep,
        cleanup.answered_by(reply),
        (cleanup.content matches Some(content) ==> lock_image(content@) is None) || reply == (
        CleanupReply::Identified(None)),
    ensures
        !(cleanup.next(reply).1 is Kill),
        cleanup.phase is Identifying ==> cleanup.next(reply) == cleanup.remove_stale(),
{
}

/// The cleanup after some replies, in order.
pub open spec fn after_cleanup_replies(
    cleanup: LockCleanup,
    replies: Seq<CleanupReply>,
) -> LockCleanup
    decreases replies.len(),
{
    if replies.len() == 0 {
        cleanup
    } else {
        after_cleanup_replies(cleanup, replies.drop_last()).next(replies.last()).0
    }
}

/// Each of the replies answers the action before it.
pub open spec fn all_answered(cleanup: LockCleanup, replies: Seq<CleanupReply>) -> bool
    decreases replies.len(),
{
    replies.len() == 0 || {
        &&& all_answered(cleanup, replies.drop_last())
        &&& after_cleanup_replies(cleanup, replies.drop_last()).answered_by(replies.last())
    }
}

/// For how many milliseconds the replies were slept for.
pub open spec fn millis_slept(cleanup: LockCleanup, replies: Seq<CleanupReply>) -> nat
    decreases replies.len(),
{
    if replies.len() == 0 {
        0
    } else {
        millis_slept(cleanup, replies.drop_last()) + if replies.last() is Slept {
            cleanup.interval_millis as nat
        } else {
            0
        }
    }
}

/// How many of the polls lie behind.
pub open spec fn polls_done(cleanup: LockCleanup) -> int {
    match cleanup.phase {
        CleanupPhase::Waiting { polls, .. } => cleanup.polls - polls,
        CleanupPhase::Polling { polls, .. } => cleanup.polls - polls,
        CleanupPhase::ForceKilling { .. } => cleanup.polls as int,
        _ => 0,
    }
}

/// The cleanup is before or in the middle of its polls, or about to kill.
pub open spec fn counts_polls(phase: CleanupPhase) -> bool {
    match phase {
        CleanupPhase::Removing
        | CleanupPhase::Confirming { .. }
        | CleanupPhase::RemovingStale
        | CleanupPhase::Finished => false,
        _ => true,
    }
}

proof fn lemma_polls_are_slept_for(cleanup: LockCleanup, replies: Seq<CleanupReply>)
    requires
        cleanup.wf(),
        cleanup.phase == CleanupPhase::Reading,
        all_answered(cleanup, replies),
    ensures
        ({
            let later = after_cleanup_replies(cleanup, replies);
            &&& later.wf()
            &&& later.mode == cleanup.mode
            &&& later.polls == cleanup.polls
            &&& later.interval_millis == cleanup.interval_millis
            &&& counts_polls(later.phase) ==> millis_slept(cleanup, replies) == polls_done(later)
                * cleanup.interval_millis
        }),
    decreases replies.len(),
{
    if replies.len() > 0 {
        let earlier = replies.drop_last();
        lemma_polls_are_slept_for(cleanup, earlier);
        let before = after_cleanup_replies(cleanup, earlier);
        let done = polls_done(before);
        let millis = cleanup.interval_millis as int;
        assert((done + 1) * millis == done * millis + millis) by (nonlinear_arith);
        assert(0 * millis == 0);
        if let CleanupPhase::Polling { polls, .. } = before.phase {
            if polls == 0 {
                assert(done == before.polls);
            }
        }
    }
}

/// At exit a process is killed only after it had the whole timeout to end by
/// itself.
pub proof fn law_killed_only_after_timeout(
    timeout_secs: u64,
    cleanup: LockCleanup,
    replies: Seq<CleanupReply>,
)
    requires
        timeout_secs * 1000 <= u64::MAX,
        cleanup == (LockCleanup {
            mode: CleanupMode::Shutdown,
            polls: (timeout_secs * 1000 / 200) as u64,
            interval_millis: SHUTDOWN_INTERVAL_MILLIS,
            content: None,
            phase: CleanupPhase::Reading,
        }),
        all_answered(cleanup, replies),
        replies.len() > 0,
        after_cleanup_replies(cleanup, replies.drop_last()).next(replies.last()).1 is Kill,
    ensures
        millis_slept(cleanup, replies) == timeout_secs * 1000,
{
    lemma_polls_are_slept_for(cleanup, replies);
    lemma_polls_are_slept_for(cleanup, replies.drop_last());
    assert(after_cleanup_replies(cleanup, replies).phase is ForceKilling);
    assert(cleanup.polls as int == timeout_secs * 5);
}

/// How many replies at most are still to come.
pub open spec fn steps_left(cleanup: LockCleanup) -> int {
    match cleanup.phase {
        CleanupPhase::Reading => 2 * cleanup.polls + 7,
        CleanupPhase::Checking { .. } => 2 * cleanup.polls + 6,
        CleanupPhase::Identifying { .. } => 2 * cleanup.polls + 5,
        CleanupPhase::Killing { .. } => 2 * cleanup.polls + 4,
        CleanupPhase::Terminating { .. } => 2 * cleanup.polls + 4,
        CleanupPhase::Waiting { polls, .. } => 2 * polls + 3,
        CleanupPhase::Polling { polls, .. } => 2 * polls + 4,
        CleanupPhase::Confirming { .. } => 2,
        CleanupPhase::ForceKilling { .. } => 2,
        CleanupPhase::RemovingStale => 1,
        CleanupPhase::Removing => 1,
        CleanupPhase::Finished => 0,
    }
}

/// Every reply brings a cleanup nearer to its end.
pub proof fn law_cleanup_ends(cleanup: LockCleanup, reply: CleanupReply)
    requires
        cleanup.wf(),
        cleanup.answered_by(reply),
    ensures
        0 <= steps_left(cleanup.next(reply).0) < steps_left(cleanup),
        cleanup.next(reply).1 is Finish <==> cleanup.next(reply).0.phase == CleanupPhase::Finished,
{
}

/// A lock that was found and named a process is removed, unless the process
/// could not be killed: every way to another end leads through the removal.
pub proof fn law_found_lock_is_removed(cleanup: LockCleanup, reply: CleanupReply)
    requires
        cleanup.wf(),
        cleanup.answered_by(reply),
        cleanup.phase != CleanupPhase::Reading,
    ensures
        cleanup.next(reply).1 matches CleanupAction::Finish(outcome) ==> {
            ||| reply is Removed
            ||| outcome is KillFailed && cleanup.mode == CleanupMode::Shutdown
        },
{
}

/// One worker is supervised by its lock.
pub proof fn law_registry()
    ensures
        registry().len() == 1,
        registry()[0] == ("sidecar_server.lock"@, "Sidecar server"@),
{
}

/// A lock is read as its first word and what follows that, with any white space
/// around and between them. Without a second part there is no name.
pub proof fn law_lock_is_pid_and_name(
    before: Seq<char>,
    word: Seq<char>,
    gap: Seq<char>,
    name: Seq<char>,
    after: Seq<char>,
)
    requires
        all_space(before),
        word.len() > 0,
        no_space(word),
        gap.len() > 0,
        all_space(gap),
        name.len() > 0 ==> !is_space(name[0]) && !is_space(name.last()),
        all_space(after),
    ensures
        ({
            let content = before + (word + (gap + name + after));
            &&& lock_pid(content) == u32_value(word)
            &&& name.len() > 0 ==> lock_image(content) == Some(name)
            &&& name.len() == 0 ==> lock_image(content) is None
        }),
        lock_pid(before + word) == u32_value(word),
        lock_image(before + word) is None,
        lock_pid(before) is None,
{
    let rest = gap + name + after;
    let content = before + (word + rest);
    assert(rest[0] == gap[0]);
    assert((word + rest)[0] == word[0]);
    lemma_trimmed_start(before, word + rest);
    law_leading_word_ends_at_space(word, rest);
    assert((word + rest).skip(word.len() as int) =~= rest);
    law_trimmed_is_the_middle(gap, name, after);
    lemma_trimmed_start(before, word);
    law_leading_word_ends_at_space(word, Seq::empty());
    assert(word + Seq::<char>::empty() =~= word);
    assert(word.skip(word.len() as int) =~= Seq::<char>::empty());
    law_trimmed_is_the_middle(Seq::empty(), Seq::empty(), Seq::empty());
    assert(Seq::<char>::empty() + Seq::<char>::empty() + Seq::<char>::empty() =~= Seq::<
        char,
    >::empty());
    lemma_trimmed_start(before, Seq::empty());
    assert(before + Seq::<char>::empty() =~= before);
    assert(leading_word(Seq::<char>::empty()) =~= Seq::<char>::empty());
    law_u32_is_read_back(0, Seq::empty());
}

/// A lock is written as the PID in decimal and, on a line of its own, the name.
pub proof fn law_lock_as_written(pid: u32, name: Seq<char>)
    ensures
        lock_text(pid, None) == decimal(pid as nat),
        lock_text(pid, Some(name)) == decimal(pid as nat).push('\n') + name,
{
    reveal_strlit("\n");
    assert(lock_text(pid, Some(name)) =~= decimal(pid as nat).push('\n') + name);
}

/// A process carries the recorded name exactly where a name was recorded, its own
/// is known, and the two are the same.
pub proof fn law_namesakes(content: Seq<char>, recorded: Seq<char>, own: Seq<char>)
    ensures
        !carries_name(content, None),
        lock_image(content) is None ==> !carries_name(content, Some(own)),
        lock_image(content) == Some(recorded) ==> (carries_name(content, Some(own)) <==> recorded
            == own),
{
}

/// A lock that is missing is nothing to do, one that cannot be read or names no PID
/// ends the cleanup with an error, and any other leads to a look at its process.
pub proof fn law_cleanup_reads_the_lock(cleanup: LockCleanup, content: String, reason: String)
    requires
        cleanup.phase == CleanupPhase::Reading,
    ensures
        cleanup.next(CleanupReply::Read(LockRead::Missing)).1 == CleanupAction::Finish(
            CleanupOutcome::NoLock,
        ),
        cleanup.next(CleanupReply::Read(LockRead::Failed(reason))).1 == CleanupAction::Finish(
            CleanupOutcome::ReadFailed(reason),
        ),
        lock_pid(content@) is None ==> cleanup.next(
            CleanupReply::Read(LockRead::Content(content)),
        ).1 == CleanupAction::Finish(CleanupOutcome::InvalidPid(content)),
        lock_pid(content@) matches Some(pid) ==> {
            let (next, action) = cleanup.next(CleanupReply::Read(LockRead::Content(content)));
            &&& action == (CleanupAction::Check { pid })
            &&& next.phase == (CleanupPhase::Checking { pid })
            &&& next.content == Some(content)
            &&& next.mode == cleanup.mode
            &&& next.polls == cleanup.polls
            &&& next.interval_millis == cleanup.interval_millis
        },
{
}

/// A process that is dead leaves only its lock to be removed. One that is alive is
/// asked for its name at startup, and asked to end at exit.
pub proof fn law_live_process_is_dealt_with(cleanup: LockCleanup, pid: u32)
    requires
        cleanup.phase == (CleanupPhase::Checking { pid }),
    ensures
        cleanup.next(CleanupReply::Checked { alive: false }).1 == CleanupAction::Remove,
        cleanup.next(CleanupReply::Checked { alive: false }).0.phase
            == CleanupPhase::RemovingStale,
        cleanup.mode == CleanupMode::Sweep ==> cleanup.next(
            CleanupReply::Checked { alive: true },
        ).1 == (CleanupAction::Identify { pid }),
        cleanup.mode == CleanupMode::Shutdown ==> cleanup.next(
            CleanupReply::Checked { alive: true },
        ).1 == (CleanupAction::Terminate { pid }),
{
}

/// At startup a namesake is killed, whatever comes of the command, and waited for;
/// anybody else is left alone and only the lock goes.
pub proof fn law_namesake_is_killed(
    cleanup: LockCleanup,
    pid: u32,
    content: String,
    image: Option<String>,
    result: Result<(), String>,
)
    requires
        cleanup.phase == (CleanupPhase::Identifying { pid }),
        cleanup.content == Some(content),
    ensures
        (image matches Some(own) && lock_image(content@) == Some(own@)) ==> {
            let (killing, kill) = cleanup.next(CleanupReply::Identified(image));
            let (waiting, sleep) = killing.next(CleanupReply::Signalled(result));
            &&& kill == (CleanupAction::Kill { pid })
            &&& cleanup.polls > 0 ==> waiting.phase == (CleanupPhase::Waiting {
                pid,
                polls: cleanup.polls,
            }) && sleep == (CleanupAction::Sleep { millis: cleanup.interval_millis })
            &&& cleanup.polls == 0 && cleanup.mode == CleanupMode::Sweep ==> sleep == (
            CleanupAction::Check { pid })
        },
        !(image matches Some(own) && lock_image(content@) == Some(own@)) ==> cleanup.next(
            CleanupReply::Identified(image),
        ).1 == CleanupAction::Remove && cleanup.next(CleanupReply::Identified(image)).0.phase
            == CleanupPhase::RemovingStale,
{
}

/// Waiting is a sleep and a look, until the process is gone or all looks are used
/// up. After that, at startup, one more look is taken and the lock removed whatever
/// it shows; at exit the lock of a process that is gone is removed, and one that
/// is not gone is killed first.
pub proof fn law_waiting_for_the_end(cleanup: LockCleanup, pid: u32, polls: u64, alive: bool)
    ensures
        cleanup.phase == (CleanupPhase::Waiting { pid, polls }) && polls > 0 ==> {
            let (looking, look) = cleanup.next(CleanupReply::Slept);
            &&& look == (CleanupAction::Check { pid })
            &&& looking.phase == (CleanupPhase::Polling { pid, polls: (polls - 1) as u64 })
        },
        cleanup.phase == (CleanupPhase::Polling { pid, polls }) ==> {
            let (next, action) = cleanup.next(CleanupReply::Checked { alive });
            &&& alive && polls > 0 ==> next.phase == (CleanupPhase::Waiting { pid, polls })
                && action == (CleanupAction::Sleep { millis: cleanup.interval_millis })
            &&& (!alive || polls == 0) && cleanup.mode == CleanupMode::Sweep ==> next.phase == (
            CleanupPhase::Confirming { pid }) && action == (CleanupAction::Check { pid })
            &&& !alive && cleanup.mode == CleanupMode::Shutdown ==> next.phase
                == CleanupPhase::Removing && action == CleanupAction::Remove
            &&& alive && polls == 0 && cleanup.mode == CleanupMode::Shutdown ==> next.phase == (
            CleanupPhase::ForceKilling { pid }) && action == (CleanupAction::Kill { pid })
        },
        cleanup.phase == (CleanupPhase::Confirming { pid }) ==> cleanup.next(
            CleanupReply::Checked { alive },
        ).0.phase == CleanupPhase::Removing && cleanup.next(CleanupReply::Checked { alive }).1
            == CleanupAction::Remove,
{
}

/// At exit the wait begins once the process was asked to end, whatever came of
/// asking; a kill that fails ends the cleanup with an error, and one that succeeds
/// leads to the removal of the lock.
pub proof fn law_exit_asks_then_kills(
    cleanup: LockCleanup,
    pid: u32,
    result: Result<(), String>,
    reason: String,
)
    ensures
        cleanup.phase == (CleanupPhase::Terminating { pid }) && cleanup.polls > 0 ==> {
            let (waiting, sleep) = cleanup.next(CleanupReply::Signalled(result));
            &&& waiting.phase == (CleanupPhase::Waiting { pid, polls: cleanup.polls })
            &&& sleep == (CleanupAction::Sleep { millis: cleanup.interval_millis })
        },
        cleanup.phase == (CleanupPhase::Terminating { pid }) && cleanup.polls == 0 && cleanup.mode
            == CleanupMode::Shutdown ==> cleanup.next(CleanupReply::Signalled(result)).1 == (
        CleanupAction::Kill { pid }) && cleanup.next(CleanupReply::Signalled(result)).0.phase == (
        CleanupPhase::ForceKilling { pid }),
        cleanup.phase == (CleanupPhase::ForceKilling { pid }) ==> {
            &&& cleanup.next(CleanupReply::Signalled(Ok(()))).1 == CleanupAction::Remove
            &&& cleanup.next(CleanupReply::Signalled(Ok(()))).0.phase == CleanupPhase::Removing
            &&& cleanup.next(CleanupReply::Signalled(Err(reason))).1 == CleanupAction::Finish(
                CleanupOutcome::KillFailed { pid, reason },
            )
        },
{
}

/// A lock that is removed, or that was gone already, ends the cleanup well. One
/// that stays is an error, but for a stale one.
pub proof fn law_removal_ends_the_cleanup(cleanup: LockCleanup, reason: String)
    ensures
        cleanup.phase == CleanupPhase::Removing ==> {
            &&& cleanup.next(CleanupReply::Removed(LockRemoval::Removed)).1
                == CleanupAction::Finish(CleanupOutcome::Removed)
            &&& cleanup.next(CleanupReply::Removed(LockRemoval::Missing)).1
                == CleanupAction::Finish(CleanupOutcome::Removed)
            &&& cleanup.next(CleanupReply::Removed(LockRemoval::Failed(reason))).1
                == CleanupAction::Finish(CleanupOutcome::RemoveFailed(reason))
        },
        cleanup.phase == CleanupPhase::RemovingStale ==> {
            &&& cleanup.next(CleanupReply::Removed(LockRemoval::Removed)).1
                == CleanupAction::Finish(CleanupOutcome::StaleRemoved)
            &&& cleanup.next(CleanupReply::Removed(LockRemoval::Missing)).1
                == CleanupAction::Finish(CleanupOutcome::StaleRemoved)
            &&& cleanup.next(CleanupReply::Removed(LockRemoval::Failed(reason))).1
                == CleanupAction::Finish(CleanupOutcome::StaleKept(reason))
        },
{
}

/// A cleanup keeps its mode, its patience and what it read of the lock to the end.
pub proof fn law_cleanup_keeps_its_lock(cleanup: LockCleanup, reply: CleanupReply)
    requires
        cleanup.wf(),
        cleanup.answered_by(reply),
    ensures
        cleanup.next(reply).0.mode == cleanup.mode,
        cleanup.next(reply).0.polls == cleanup.polls,
        cleanup.next(reply).0.interval_millis == cleanup.interval_millis,
        cleanup.phase != CleanupPhase::Reading ==> cleanup.next(reply).0.content
            == cleanup.content,
{
}

/// What a failed cleanup says of the worker; every other outcome says nothing.
pub proof fn law_cleanup_messages(worker: Seq<char>, pid: u32, reason: String, content: String)
    ensures
        CleanupOutcome::NoLock.message(worker) is None,
        CleanupOutcome::StaleRemoved.message(worker) is None,
        CleanupOutcome::StaleKept(reason).message(worker) is None,
        CleanupOutcome::Removed.message(worker) is None,
        CleanupOutcome::ReadFailed(reason).message(worker) == Some(
            "Failed to read "@ + worker + " lock file: "@ + reason@,
        ),
        (CleanupOutcome::KillFailed { pid, reason }).message(worker) == Some(
            "Failed to force kill PID "@ + decimal(pid as nat) + ": "@ + reason@,
        ),
        CleanupOutcome::RemoveFailed(reason).message(worker) == Some(
            "Failed to remove lock file: "@ + reason@,
        ),
        lock_pid(content@) is None ==> CleanupOutcome::InvalidPid(content).message(worker) == Some(
            "Invalid PID in "@ + worker + " lock file: "@ + u32_refusal(
                leading_word(trimmed_start(content@)),
            ),
        ),
{
}

/// How often and how long is waited for a process to go.
pub proof fn law_cleanup_constants()
    ensures
        SWEEP_POLLS == 10,
        SWEEP_INTERVAL_MILLIS == 20,
        SHUTDOWN_INTERVAL_MILLIS == 200,
{
}

/// Every phase but the last takes every reply that can answer its action.
pub proof fn law_every_cleanup_answer_is_taken(cleanup: LockCleanup, reply: CleanupReply)
    ensures
        cleanup.phase is Reading && reply is Read ==> cleanup.answered_by(reply),
        (cleanup.phase is Checking || cleanup.phase is Polling || cleanup.phase is Confirming)
            && reply is Checked ==> cleanup.answered_by(reply),
        cleanup.phase is Identifying && reply is Identified ==> cleanup.answered_by(reply),
        (cleanup.phase is Killing || cleanup.phase is Terminating || cleanup.phase is ForceKilling)
            && reply is Signalled ==> cleanup.answered_by(reply),
        cleanup.phase is Waiting && reply is Slept ==> cleanup.answered_by(reply),
        (cleanup.phase is RemovingStale || cleanup.phase is Removing) && reply is Removed
            ==> cleanup.answered_by(reply),
{
}

} // verus!
