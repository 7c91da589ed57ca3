//! Leaving: how workers are told to end when the application exits, and how all
//! sidecars are made to go before an update.

use vstd::prelude::*;

use crate::locks::{registry, workers};
use crate::paths::{get_index_file, index_file, Platform};
use crate::sweep::{job_texts, LockJob};

verus! {

/// What the shutdown flag holds. Workers look for the flag and end by themselves
/// once it is there.
pub const SHUTDOWN_FLAG_CONTENT: &'static str = "shutdown";

/// Seconds that each worker has to end by itself.
pub const EXIT_TIMEOUT_SECS: u64 = 3;

/// The job for worker number `i` at exit.
pub open spec fn exit_job(platform: Platform, data_dir: Seq<char>, i: int) -> (
    Seq<char>,
    Seq<char>,
) {
    (index_file(platform, data_dir, registry()[i].0), registry()[i].1)
}

/// The jobs at exit: one for each worker.
pub open spec fn exit_job_list(platform: Platform, data_dir: Seq<char>) -> Seq<
    (Seq<char>, Seq<char>),
> {
    Seq::new(registry().len(), |i: int| exit_job(platform, data_dir, i))
}

/// The jobs at exit.
pub fn exit_jobs(platform: Platform, data_dir: &str) -> (jobs: Vec<LockJob>)
    ensures
        job_texts(jobs@) == exit_job_list(platform, data_dir@),
{
    let list = workers();
    let mut jobs: Vec<LockJob> = Vec::new();
    let mut done: usize = 0;
    while done < list.len()
        invariant
            done <= list.len(),
            jobs@.len() == done,
            list@.len() == registry().len(),
            forall|i: int|
                0 <= i < list@.len() ==> ((#[trigger] list@[i]).lock_file@, list@[i].name@)
                    == registry()[i],
            forall|i: int|
                0 <= i < done ==> ((#[trigger] jobs@[i]).path@, jobs@[i].name@) == exit_job(
                    platform,
                    data_dir@,
                    i,
                ),
        decreases list.len() - done,
    {
        let worker = list[done];
        jobs.push(
            LockJob {
                path: get_index_file(platform, data_dir, worker.lock_file),
                name: worker.name.to_owned(),
            },
        );
        done = done + 1;
    }
    assert(job_texts(jobs@) =~= exit_job_list(platform, data_dir@));
    jobs
}

/// How far the cleanup at exit has come: what is being done.
#[derive(Clone, Copy, PartialEq, Eq, Structural, Debug)]
pub enum ExitPhase {
    WritingFlag,
    CleaningUp,
    RemovingFlag,
    Finished,
}

/// What is to be done next.
#[derive(Debug)]
pub enum ExitAction {
    /// Write the shutdown flag, with [`SHUTDOWN_FLAG_CONTENT`].
    WriteFlag,
    /// Clean up these locks at the same time, each with so many seconds to end.
    CleanUpTogether { jobs: Vec<LockJob>, timeout_secs: u64 },
    RemoveFlag,
    Finish,
}

/// The cleanup at exit. Nothing that fails on the way ends it early.
#[derive(Debug)]
pub struct ExitCleanup {
    pub platform: Platform,
    pub data_dir: String,
    pub phase: ExitPhase,
}

impl ExitCleanup {
    /// The phase after the current one, and the action that follows.
    pub open spec fn steps_to(self, next: ExitPhase, action: ExitAction) -> bool {
        match self.phase {
            ExitPhase::WritingFlag => {
                &&& next == ExitPhase::CleaningUp
                &&& action matches ExitAction::CleanUpTogether { jobs, timeout_secs }
                &&& job_texts(jobs@) == exit_job_list(self.platform, self.data_dir@)
                &&& timeout_secs == EXIT_TIMEOUT_SECS
            },
            ExitPhase::CleaningUp => next == ExitPhase::RemovingFlag && action is RemoveFlag,
            ExitPhase::RemovingFlag => next == ExitPhase::Finished && action is Finish,
            ExitPhase::Finished => next == ExitPhase::Finished && action is Finish,
        }
    }

    /// Says what is done next, once the last action was done.
    pub fn step(&mut self) -> (action: ExitAction)
        ensures
            old(self).steps_to(final(self).phase, action),
            final(self).platform == old(self).platform,
            final(self).data_dir == old(self).data_dir,
    {
        match self.phase {
            ExitPhase::WritingFlag => {
                self.phase = ExitPhase::CleaningUp;
                ExitAction::CleanUpTogether {
                    jobs: exit_jobs(self.platform, self.data_dir.as_str()),
                    timeout_secs: EXIT_TIMEOUT_SECS,
                }
            },
            ExitPhase::CleaningUp => {
                self.phase = ExitPhase::RemovingFlag;
                ExitAction::RemoveFlag
            },
            _ => {
                self.phase = ExitPhase::Finished;
                ExitAction::Finish
            },
        }
    }
}

/// Begins the cleanup of a data directory at exit.
pub fn cleanup_workers(platform: Platform, data_dir: String) -> (begun: (ExitCleanup, ExitAction))
    ensures
        begun.0 == (ExitCleanup { platform, data_dir, phase: ExitPhase::WritingFlag }),
        begun.1 is WriteFlag,
{
    (ExitCleanup { platform, data_dir, phase: ExitPhase::WritingFlag }, ExitAction::WriteFlag)
}

/// Every worker is cleaned up at exit.
pub proof fn law_no_worker_is_orphaned(platform: Platform, data_dir: Seq<char>, i: int)
    requires
        0 <= i < registry().len(),
    ensures
        exit_job_list(platform, data_dir).contains(
            (index_file(platform, data_dir, registry()[i].0), registry()[i].1),
        ),
{
    assert(exit_job_list(platform, data_dir)[i] == exit_job(platform, data_dir, i));
}

/// Looks for sidecars that still run, ten times at most.
pub const UPDATE_POLLS: u64 = 10;

/// Milliseconds between two looks.
pub const UPDATE_INTERVAL_MILLIS: u64 = 200;

/// How far the preparation of an update has come: what the next reply answers.
#[derive(Clone, Copy, PartialEq, Eq, Structural, Debug)]
pub enum UpdatePhase {
    BeginningShutdown,
    CleaningUp,
    Killing,
    /// Looking for sidecars, with so many looks ahead, this one among them.
    Looking { polls: u64 },
    /// Sleeping after a look, with so many looks still ahead.
    Sleeping { polls: u64 },
    Finished,
}

/// What is to be done next.
#[derive(Clone, Copy, PartialEq, Eq, Structural, Debug)]
pub enum UpdateAction {
    /// Keep the sidecar's monitor from restarting it.
    BeginShutdown,
    /// Clean up the workers as at exit.
    CleanUpWorkers,
    /// End all sidecars by name.
    KillSidecars,
    /// Find out whether some sidecar runs.
    Look,
    Sleep { millis: u64 },
    /// The update may go ahead. Whether all sidecars are known to be gone.
    Finish { confirmed: bool },
}

/// What came of an action.
#[derive(Clone, Copy, PartialEq, Eq, Structural, Debug)]
pub enum UpdateReply {
    Done,
    Running(bool),
}

/// The preparation of an update: the installer has to find the sidecar's file
/// unlocked. An update is never refused.
#[derive(Clone, Copy, Debug)]
pub struct UpdatePreparation {
    pub phase: UpdatePhase,
}

impl UpdatePreparation {
    pub open spec fn to(phase: UpdatePhase, action: UpdateAction) -> (
        UpdatePreparation,
        UpdateAction,
    ) {
        (UpdatePreparation { phase }, action)
    }

    /// Looks again while looks are left.
    pub open spec fn look_again(polls: u64) -> (UpdatePreparation, UpdateAction) {
        if polls > 0 {
            Self::to(UpdatePhase::Looking { polls }, UpdateAction::Look)
        } else {
            Self::to(UpdatePhase::Finished, UpdateAction::Finish { confirmed: false })
        }
    }

    /// The preparation after a reply, and what is done next. A look that brought
    /// no answer counts as one that found a sidecar.
    pub open spec fn next(self, reply: UpdateReply) -> (UpdatePreparation, UpdateAction) {
        match self.phase {
            UpdatePhase::BeginningShutdown => Self::to(
                UpdatePhase::CleaningUp,
                UpdateAction::CleanUpWorkers,
            ),
            UpdatePhase::CleaningUp => Self::to(UpdatePhase::Killing, UpdateAction::KillSidecars),
            UpdatePhase::Killing => Self::look_again(UPDATE_POLLS),
            UpdatePhase::Looking { polls } => if reply == UpdateReply::Running(false) {
                Self::to(UpdatePhase::Finished, UpdateAction::Finish { confirmed: true })
            } else {
                Self::to(
                    UpdatePhase::Sleeping { polls: (polls - 1) as u64 },
                    UpdateAction::Sleep { millis: UPDATE_INTERVAL_MILLIS },
                )
            },
            UpdatePhase::Sleeping { polls } => Self::look_again(polls),
            UpdatePhase::Finished => Self::to(
                UpdatePhase::Finished,
                UpdateAction::Finish { confirmed: false },
            ),
        }
    }

    /// No more looks are ahead than there are at all.
    pub open spec fn wf(self) -> bool {
        match self.phase {
            UpdatePhase::Looking { polls } => 0 < polls <= UPDATE_POLLS,
            UpdatePhase::Sleeping { polls } => polls < UPDATE_POLLS,
            _ => true,
        }
    }

    /// Takes the reply to the last action and says what is done next.
    pub fn step(&mut self, reply: UpdateReply) -> (action: UpdateAction)
        requires
            old(self).wf(),
        ensures
            final(self).wf(),
            (*final(self), action) == old(self).next(reply),
    {
        match self.phase {
            UpdatePhase::BeginningShutdown => {
                self.phase = UpdatePhase::CleaningUp;
                UpdateAction::CleanUpWorkers
            },
            UpdatePhase::CleaningUp => {
                self.phase = UpdatePhase::Killing;
                UpdateAction::KillSidecars
            },
            UpdatePhase::Killing => {
                self.phase = UpdatePhase::Looking { polls: UPDATE_POLLS };
                UpdateAction::Look
            },
            UpdatePhase::Looking { polls } => match reply {
                UpdateReply::Running(false) => {
                    self.phase = UpdatePhase::Finished;
                    UpdateAction::Finish { confirmed: true }
                },
                _ => {
                    let left: u64 = polls - 1;
                    self.phase = UpdatePhase::Sleeping { polls: left };
                    UpdateAction::Sleep { millis: UPDATE_INTERVAL_MILLIS }
                },
            },
            UpdatePhase::Sleeping { polls } => {
                if polls > 0 {
                    self.phase = UpdatePhase::Looking { polls };
                    UpdateAction::Look
                } else {
                    self.phase = UpdatePhase::Finished;
                    UpdateAction::Finish { confirmed: false }
                }
            },
            UpdatePhase::Finished => UpdateAction::Finish { confirmed: false },
        }
    }
}

/// Begins the preparation of an update.
pub fn prepare_for_update() -> (begun: (UpdatePreparation, UpdateAction))
    ensures
        begun == UpdatePreparation::to(
            UpdatePhase::BeginningShutdown,
            UpdateAction::BeginShutdown,
        ),
        begun.0.wf(),
{
    (
        UpdatePreparation { phase: UpdatePhase::BeginningShutdown },
        UpdateAction::BeginShutdown,
    )
}

/// How many replies at most are still to come.
pub open spec fn update_steps_left(phase: UpdatePhase) -> nat {
    match phase {
        UpdatePhase::BeginningShutdown => (2 * UPDATE_POLLS + 3) as nat,
        UpdatePhase::CleaningUp => (2 * UPDATE_POLLS + 2) as nat,
        UpdatePhase::Killing => (2 * UPDATE_POLLS + 1) as nat,
        UpdatePhase::Looking { polls } => (2 * polls) as nat,
        UpdatePhase::Sleeping { polls } => (2 * polls + 1) as nat,
        UpdatePhase::Finished => 0,
    }
}

/// Every update goes ahead in the end, after a bounded number of looks, and all
/// sidecars count as gone only where a look found none.
pub proof fn law_update_goes_ahead(preparation: UpdatePreparation, reply: UpdateReply)
    requires
        preparation.wf(),
        preparation.phase != UpdatePhase::Finished,
    ensures
        update_steps_left(preparation.next(reply).0.phase) < update_steps_left(preparation.phase),
        preparation.next(reply).1 is Finish <==> preparation.next(reply).0.phase
            == UpdatePhase::Finished,
        preparation.next(reply).1 == (UpdateAction::Finish { confirmed: true })
            <==> preparation.phase is Looking && reply == UpdateReply::Running(false),
{
}

/// Restarts are ruled out before the first process is ended: what ends a process
/// comes only later in the order that begins with the shutdown.
pub proof fn law_restarts_are_ruled_out_first(preparation: UpdatePreparation, reply: UpdateReply)
    requires
        preparation.wf(),
    ensures
        preparation.next(reply).1 != UpdateAction::BeginShutdown,
        preparation.next(reply).1 == UpdateAction::CleanUpWorkers ==> preparation.phase
            == UpdatePhase::BeginningShutdown,
        preparation.next(reply).1 == UpdateAction::KillSidecars ==> preparation.phase
            == UpdatePhase::CleaningUp,
{
}

/// The course of the cleanup at exit: the flag, every worker at the same time with
/// three seconds each, the flag again, the end.
pub proof fn law_course_of_an_exit(exit: ExitCleanup, next: ExitPhase, action: ExitAction)
    requires
        exit.steps_to(next, action),
    ensures
        exit.phase == ExitPhase::WritingFlag ==> {
            &&& next == ExitPhase::CleaningUp
            &&& action matches ExitAction::CleanUpTogether { jobs, timeout_secs }
            &&& timeout_secs == 3
            &&& jobs@.len() == registry().len()
            &&& forall|i: int|
                0 <= i < jobs@.len() ==> (#[trigger] jobs@[i]).path@ == index_file(
                    exit.platform,
                    exit.data_dir@,
                    registry()[i].0,
                ) && jobs@[i].name@ == registry()[i].1
        },
        exit.phase == ExitPhase::CleaningUp ==> next == ExitPhase::RemovingFlag && action
            is RemoveFlag,
        exit.phase == ExitPhase::RemovingFlag ==> next == ExitPhase::Finished && action is Finish,
        exit.phase == ExitPhase::Finished ==> action is Finish,
{
    if exit.phase == ExitPhase::WritingFlag {
        let jobs = action->jobs;
        let list = exit_job_list(exit.platform, exit.data_dir@);
        assert(job_texts(jobs@).len() == list.len());
        assert forall|i: int| 0 <= i < jobs@.len() implies (#[trigger] jobs@[i]).path@
            == index_file(exit.platform, exit.data_dir@, registry()[i].0) && jobs@[i].name@
            == registry()[i].1 by {
            assert(job_texts(jobs@)[i] == list[i]);
        }
    }
}

/// The course of an update's preparation: shutdown, workers, sidecars by name, and
/// then up to ten looks with a fifth of a second after each that found one.
pub proof fn law_course_of_an_update(preparation: UpdatePreparation, reply: UpdateReply, polls: u64)
    ensures
        preparation.phase == UpdatePhase::BeginningShutdown ==> preparation.next(reply) == (
            UpdatePreparation { phase: UpdatePhase::CleaningUp },
            UpdateAction::CleanUpWorkers,
        ),
        preparation.phase == UpdatePhase::CleaningUp ==> preparation.next(reply) == (
            UpdatePreparation { phase: UpdatePhase::Killing },
            UpdateAction::KillSidecars,
        ),
        preparation.phase == UpdatePhase::Killing ==> preparation.next(reply) == (
            UpdatePreparation { phase: UpdatePhase::Looking { polls: 10 } },
            UpdateAction::Look,
        ),
        preparation.phase == (UpdatePhase::Looking { polls }) && reply == UpdateReply::Running(
            false,
        ) ==> preparation.next(reply) == (
            UpdatePreparation { phase: UpdatePhase::Finished },
            UpdateAction::Finish { confirmed: true },
        ),
        preparation.phase == (UpdatePhase::Looking { polls }) && polls > 0 && reply
            != UpdateReply::Running(false) ==> preparation.next(reply) == (
            UpdatePreparation { phase: UpdatePhase::Sleeping { polls: (polls - 1) as u64 } },
            UpdateAction::Sleep { millis: 200 },
        ),
        preparation.phase == (UpdatePhase::Sleeping { polls }) && polls > 0 ==> preparation.next(
            reply,
        ) == (
            UpdatePreparation { phase: UpdatePhase::Looking { polls } },
            UpdateAction::Look,
        ),
        preparation.phase == (UpdatePhase::Sleeping { polls: 0 }) ==> preparation.next(reply) == (
            UpdatePreparation { phase: UpdatePhase::Finished },
            UpdateAction::Finish { confirmed: false },
        ),
{
}

/// What workers look for at exit, how long they have, and how an update waits.
pub proof fn law_shutdown_constants()
    ensures
        SHUTDOWN_FLAG_CONTENT@ == "shutdown"@,
        EXIT_TIMEOUT_SECS == 3,
        UPDATE_POLLS == 10,
        UPDATE_INTERVAL_MILLIS == 200,
{
}

} // verus!
