//! The sweep at startup: what a crash left behind is cleared away before anything
//! new is spawned.
//!
//! The order is fixed: the index directory, the shutdown flag, the workers' locks,
//! the harnesses' locks, the database. So no process that an earlier run left
//! behind is at work on the database when it is recovered. Only an index directory
//! that cannot be made ends the sweep early.

use vstd::prelude::*;

use crate::command::opt_text;
use crate::locks::{registry, workers};
use crate::paths::{get_index_file, index_file, Platform};
use crate::supervisor::{
    harness_lock_name, is_harness_lock, is_harness_lock_name, law_harness_locks_are_found,
};
use crate::text::cat;

verus! {

/// A lock to be cleaned up, and what its worker is called on the way.
#[derive(Debug)]
pub struct LockJob {
    pub path: String,
    pub name: String,
}

/// The locks to be cleaned up, each with the worker's name.
pub open spec fn job_texts(jobs: Seq<LockJob>) -> Seq<(Seq<char>, Seq<char>)> {
    Seq::new(jobs.len(), |i: int| (jobs[i].path@, jobs[i].name@))
}

/// The job for worker number `i` that was found locked at startup.
pub open spec fn stale_job(platform: Platform, data_dir: Seq<char>, i: int) -> (
    Seq<char>,
    Seq<char>,
) {
    (index_file(platform, data_dir, registry()[i].0), "Stale "@ + registry()[i].1)
}

/// The jobs for those of the first `n` workers whose locks are there.
pub open spec fn stale_jobs(
    platform: Platform,
    data_dir: Seq<char>,
    present: Seq<bool>,
    n: nat,
) -> Seq<(Seq<char>, Seq<char>)>
    decreases n,
{
    if n == 0 {
        Seq::empty()
    } else {
        let earlier = stale_jobs(platform, data_dir, present, (n - 1) as nat);
        if n <= present.len() && present[n - 1] {
            earlier.push(stale_job(platform, data_dir, n - 1))
        } else {
            earlier
        }
    }
}

/// The jobs for the workers whose locks are there: `present` says so of each
/// worker in turn.
pub fn stale_worker_jobs(platform: Platform, data_dir: &str, present: &Vec<bool>) -> (jobs: Vec<
    LockJob,
>)
    ensures
        job_texts(jobs@) == stale_jobs(platform, data_dir@, present@, registry().len()),
{
    let list = workers();
    let mut jobs: Vec<LockJob> = Vec::new();
    let mut done: usize = 0;
    assert(job_texts(jobs@) =~= stale_jobs(platform, data_dir@, present@, 0));
    while done < list.len()
        invariant
            done <= list.len(),
            list@.len() == registry().len(),
            forall|i: int|
                0 <= i < list@.len() ==> ((#[trigger] list@[i]).lock_file@, list@[i].name@)
                    == registry()[i],
            job_texts(jobs@) == stale_jobs(platform, data_dir@, present@, done as nat),
        decreases list.len() - done,
    {
        if done < present.len() && present[done] {
            let worker = list[done];
            let job = LockJob {
                path: get_index_file(platform, data_dir, worker.lock_file),
                name: cat("Stale ", worker.name),
            };
            assert((job.path@, job.name@) == stale_job(platform, data_dir@, done as int));
            let ghost before = jobs@;
            jobs.push(job);
            assert(job_texts(jobs@) =~= job_texts(before).push((job.path@, job.name@)));
        }
        done = done + 1;
    }
    jobs
}

/// A directory entry whose name is that of a harness's lock. A name that is no
/// text is none.
pub open spec fn names_harness_lock(name: Option<String>) -> bool {
    name matches Some(text) && is_harness_lock_name(text@)
}

/// The job for a harness's lock that was found at startup.
pub open spec fn harness_job(platform: Platform, data_dir: Seq<char>, name: Seq<char>) -> (
    Seq<char>,
    Seq<char>,
) {
    (index_file(platform, data_dir, name), "Stale harness"@)
}

/// The jobs for the harnesses' locks among the first `n` entries of the index
/// directory, in their order.
pub open spec fn harness_jobs(
    platform: Platform,
    data_dir: Seq<char>,
    entries: Seq<Option<String>>,
    n: nat,
) -> Seq<(Seq<char>, Seq<char>)>
    decreases n,
{
    if n == 0 {
        Seq::empty()
    } else {
        let earlier = harness_jobs(platform, data_dir, entries, (n - 1) as nat);
        if names_harness_lock(entries[n - 1]) {
            earlier.push(harness_job(platform, data_dir, entries[n - 1]->0@))
        } else {
            earlier
        }
    }
}

/// The jobs for the harnesses' locks among the entries of the index directory.
pub fn stale_harness_jobs(platform: Platform, data_dir: &str, entries: &Vec<Option<String>>) -> (
    jobs: Vec<LockJob>)
    ensures
        job_texts(jobs@) == harness_jobs(platform, data_dir@, entries@, entries@.len()),
{
    let mut jobs: Vec<LockJob> = Vec::new();
    let mut done: usize = 0;
    assert(job_texts(jobs@) =~= harness_jobs(platform, data_dir@, entries@, 0));
    while done < entries.len()
        invariant
            done <= entries.len(),
            job_texts(jobs@) == harness_jobs(platform, data_dir@, entries@, done as nat),
        decreases entries.len() - done,
    {
        if let Some(name) = &entries[done] {
            if is_harness_lock(name.as_str()) {
                let job = LockJob {
                    path: get_index_file(platform, data_dir, name.as_str()),
                    name: "Stale harness".to_owned(),
                };
                assert((job.path@, job.name@) == harness_job(platform, data_dir@, name@));
                let ghost before = jobs@;
                jobs.push(job);
                assert(job_texts(jobs@) =~= job_texts(before).push((job.path@, job.name@)));
            }
        }
        done = done + 1;
    }
    jobs
}

/// How far a sweep has come: what the next reply answers.
#[derive(Clone, Copy, PartialEq, Eq, Structural, Debug)]
pub enum SweepPhase {
    CreatingIndex,
    LookingForFlag,
    RemovingFlag,
    LookingForLocks,
    CleaningWorkers,
    Listing,
    CleaningHarnesses,
    Recovering,
    Finished,
}

/// What is to be done next.
#[derive(Debug)]
pub enum SweepAction {
    /// Make the index directory where it does not exist.
    CreateIndex,
    /// Find out whether a shutdown flag was left behind.
    LookForFlag,
    RemoveFlag,
    /// Find out which workers' locks are there.
    LookForLocks,
    /// Clean up these locks at the same time.
    CleanUpTogether(Vec<LockJob>),
    /// List the names in the index directory.
    ListIndex,
    /// Clean up these locks one after the other.
    CleanUpInTurn(Vec<LockJob>),
    /// Recover the database.
    RecoverDatabase,
    Finish(Result<(), String>),
}

/// What came of an action.
#[derive(Debug)]
pub enum SweepReply {
    Done,
    /// The action failed, for this reason.
    Failed(String),
    Found(bool),
    /// Of each worker in turn, whether its lock is there.
    Present(Vec<bool>),
    /// The names in the index directory. A name that is no text is missing.
    Listed(Vec<Option<String>>),
}

/// The sweep at startup.
#[derive(Debug)]
pub struct StartupSweep {
    pub platform: Platform,
    pub data_dir: String,
    pub phase: SweepPhase,
}

/// The action cleans these locks up at the same time.
pub open spec fn cleans_together(action: SweepAction, jobs: Seq<(Seq<char>, Seq<char>)>) -> bool {
    action matches SweepAction::CleanUpTogether(list) && job_texts(list@) == jobs
}

/// The action cleans these locks up one after the other.
pub open spec fn cleans_in_turn(action: SweepAction, jobs: Seq<(Seq<char>, Seq<char>)>) -> bool {
    action matches SweepAction::CleanUpInTurn(list) && job_texts(list@) == jobs
}

impl StartupSweep {
    /// The workers that are to be cleaned up after a reply.
    pub open spec fn stale(self, reply: SweepReply) -> Seq<(Seq<char>, Seq<char>)> {
        match reply {
            SweepReply::Present(present) => stale_jobs(
                self.platform,
                self.data_dir@,
                present@,
                registry().len(),
            ),
            _ => Seq::empty(),
        }
    }

    /// One step of a sweep: the phase after a reply, and the action that follows.
    /// A flag that cannot be removed and an index that cannot be listed are passed
    /// over.
    pub open spec fn steps_to(self, reply: SweepReply, next: SweepPhase, action: SweepAction) -> bool {
        match self.phase {
            SweepPhase::CreatingIndex => match reply {
                SweepReply::Failed(reason) => {
                    &&& next == SweepPhase::Finished
                    &&& action == SweepAction::Finish(Err(reason))
                },
                _ => next == SweepPhase::LookingForFlag && action is LookForFlag,
            },
            SweepPhase::LookingForFlag => if reply == SweepReply::Found(true) {
                next == SweepPhase::RemovingFlag && action is RemoveFlag
            } else {
                next == SweepPhase::LookingForLocks && action is LookForLocks
            },
            SweepPhase::RemovingFlag => next == SweepPhase::LookingForLocks && action
                is LookForLocks,
            SweepPhase::LookingForLocks => if self.stale(reply).len() > 0 {
                next == SweepPhase::CleaningWorkers && cleans_together(action, self.stale(reply))
            } else {
                next == SweepPhase::Listing && action is ListIndex
            },
            SweepPhase::CleaningWorkers => next == SweepPhase::Listing && action is ListIndex,
            SweepPhase::Listing => match reply {
                SweepReply::Listed(entries) => {
                    &&& next == SweepPhase::CleaningHarnesses
                    &&& cleans_in_turn(
                        action,
                        harness_jobs(self.platform, self.data_dir@, entries@, entries@.len()),
                    )
                },
                _ => next == SweepPhase::Recovering && action is RecoverDatabase,
            },
            SweepPhase::CleaningHarnesses => next == SweepPhase::Recovering && action
                is RecoverDatabase,
            SweepPhase::Recovering => next == SweepPhase::Finished && action
                == SweepAction::Finish(Ok(())),
            SweepPhase::Finished => false,
        }
    }

    fn go(&mut self, phase: SweepPhase, action: SweepAction) -> (given: SweepAction)
        ensures
            final(self).platform == old(self).platform,
            final(self).data_dir == old(self).data_dir,
            final(self).phase == phase,
            given == action,
    {
        self.phase = phase;
        action
    }

    /// Takes the reply to the last action and says what is done next.
    pub fn step(&mut self, reply: SweepReply) -> (action: SweepAction)
        requires
            old(self).phase != SweepPhase::Finished,
        ensures
            old(self).steps_to(reply, final(self).phase, action),
            final(self).platform == old(self).platform,
            final(self).data_dir == old(self).data_dir,
    {
        match self.phase {
            SweepPhase::CreatingIndex => match reply {
                SweepReply::Failed(reason) => self.go(
                    SweepPhase::Finished,
                    SweepAction::Finish(Err(reason)),
                ),
                _ => self.go(SweepPhase::LookingForFlag, SweepAction::LookForFlag),
            },
            SweepPhase::LookingForFlag => match reply {
                SweepReply::Found(true) => self.go(
                    SweepPhase::RemovingFlag,
                    SweepAction::RemoveFlag,
                ),
                _ => self.go(SweepPhase::LookingForLocks, SweepAction::LookForLocks),
            },
            SweepPhase::RemovingFlag => self.go(
                SweepPhase::LookingForLocks,
                SweepAction::LookForLocks,
            ),
            SweepPhase::LookingForLocks => {
                if let SweepReply::Present(present) = reply {
                    let jobs = stale_worker_jobs(self.platform, self.data_dir.as_str(), &present);
                    if jobs.len() > 0 {
                        return self.go(
                            SweepPhase::CleaningWorkers,
                            SweepAction::CleanUpTogether(jobs),
                        );
                    }
                }
                self.go(SweepPhase::Listing, SweepAction::ListIndex)
            },
            SweepPhase::CleaningWorkers => self.go(SweepPhase::Listing, SweepAction::ListIndex),
            SweepPhase::Listing => match reply {
                SweepReply::Listed(entries) => {
                    let jobs = stale_harness_jobs(
                        self.platform,
                        self.data_dir.as_str(),
                        &entries,
                    );
                    self.go(SweepPhase::CleaningHarnesses, SweepAction::CleanUpInTurn(jobs))
                },
                _ => self.go(SweepPhase::Recovering, SweepAction::RecoverDatabase),
            },
            SweepPhase::CleaningHarnesses => self.go(
                SweepPhase::Recovering,
                SweepAction::RecoverDatabase,
            ),
            _ => self.go(SweepPhase::Finished, SweepAction::Finish(Ok(()))),
        }
    }
}

/// Begins the sweep of a data directory.
pub fn cleanup_stale_workers(platform: Platform, data_dir: String) -> (begun: (
    StartupSweep,
    SweepAction,
))
    ensures
        begun.0 == (StartupSweep { platform, data_dir, phase: SweepPhase::CreatingIndex }),
        begun.1 is CreateIndex,
{
    (
        StartupSweep { platform, data_dir, phase: SweepPhase::CreatingIndex },
        SweepAction::CreateIndex,
    )
}

proof fn lemma_harness_jobs_keep(
    platform: Platform,
    data_dir: Seq<char>,
    entries: Seq<Option<String>>,
    n: nat,
    job: (Seq<char>, Seq<char>),
)
    requires
        n < entries.len(),
        harness_jobs(platform, data_dir, entries, n).contains(job),
    ensures
        harness_jobs(platform, data_dir, entries, (n + 1) as nat).contains(job),
{
    let earlier = harness_jobs(platform, data_dir, entries, n);
    let later = harness_jobs(platform, data_dir, entries, (n + 1) as nat);
    let at = choose|i: int| 0 <= i < earlier.len() && earlier[i] == job;
    assert(later[at] == job);
}

proof fn lemma_harness_job_stands(
    platform: Platform,
    data_dir: Seq<char>,
    entries: Seq<Option<String>>,
    at: int,
    n: nat,
)
    requires
        0 <= at < n <= entries.len(),
        names_harness_lock(entries[at]),
    ensures
        harness_jobs(platform, data_dir, entries, n).contains(
            harness_job(platform, data_dir, entries[at]->0@),
        ),
    decreases n,
{
    let job = harness_job(platform, data_dir, entries[at]->0@);
    if at == n - 1 {
        assert(harness_jobs(platform, data_dir, entries, n).last() == job);
    } else {
        lemma_harness_job_stands(platform, data_dir, entries, at, (n - 1) as nat);
        lemma_harness_jobs_keep(platform, data_dir, entries, (n - 1) as nat, job);
    }
}

/// Every lock that a harness was given and that still lies in the index directory
/// is swept, whatever the harness's id.
pub proof fn law_every_harness_lock_is_swept(
    platform: Platform,
    data_dir: Seq<char>,
    entries: Seq<Option<String>>,
    at: int,
    id: Seq<char>,
)
    requires
        0 <= at < entries.len(),
        opt_text(entries[at]) == Some(harness_lock_name(id)),
    ensures
        harness_jobs(platform, data_dir, entries, entries.len()).contains(
            harness_job(platform, data_dir, harness_lock_name(id)),
        ),
{
    law_harness_locks_are_found(id);
    lemma_harness_job_stands(platform, data_dir, entries, at, entries.len());
}

/// Nothing but the locks of harnesses is swept as such: every job is for an entry
/// whose name is that of one.
pub proof fn law_only_harness_locks_are_swept(
    platform: Platform,
    data_dir: Seq<char>,
    entries: Seq<Option<String>>,
    n: nat,
    job: (Seq<char>, Seq<char>),
)
    requires
        n <= entries.len(),
        harness_jobs(platform, data_dir, entries, n).contains(job),
    ensures
        exists|at: int|
            0 <= at < n && #[trigger] names_harness_lock(entries[at]) && job == harness_job(
                platform,
                data_dir,
                entries[at]->0@,
            ),
    decreases n,
{
    let jobs = harness_jobs(platform, data_dir, entries, n);
    let k = choose|i: int| 0 <= i < jobs.len() && jobs[i] == job;
    if n > 0 {
        let earlier = harness_jobs(platform, data_dir, entries, (n - 1) as nat);
        if k < earlier.len() {
            assert(earlier[k] == job);
            law_only_harness_locks_are_swept(platform, data_dir, entries, (n - 1) as nat, job);
        } else {
            assert(names_harness_lock(entries[n - 1]));
        }
    }
}

/// Every worker whose lock is there is swept, and no other.
pub proof fn law_locked_workers_are_swept(
    platform: Platform,
    data_dir: Seq<char>,
    present: Seq<bool>,
    n: nat,
    job: (Seq<char>, Seq<char>),
)
    ensures
        stale_jobs(platform, data_dir, present, n).contains(job) <==> exists|i: int|
            0 <= i < n && i < present.len() && present[i] && job == #[trigger] stale_job(
                platform,
                data_dir,
                i,
            ),
    decreases n,
{
    let jobs = stale_jobs(platform, data_dir, present, n);
    if n > 0 {
        let earlier = stale_jobs(platform, data_dir, present, (n - 1) as nat);
        let last = stale_job(platform, data_dir, n - 1);
        law_locked_workers_are_swept(platform, data_dir, present, (n - 1) as nat, job);
        if earlier.contains(job) {
            let k = choose|k: int| 0 <= k < earlier.len() && earlier[k] == job;
            assert(jobs[k] == job);
        }
        if n <= present.len() && present[n - 1] {
            assert(jobs.last() == last);
            if jobs.contains(job) && job != last {
                let k = choose|k: int| 0 <= k < jobs.len() && jobs[k] == job;
                assert(earlier[k] == job);
            }
        }
    }
}

/// The place of a phase in the order of a sweep.
pub open spec fn sweep_order(phase: SweepPhase) -> nat {
    match phase {
        SweepPhase::CreatingIndex => 0,
        SweepPhase::LookingForFlag => 1,
        SweepPhase::RemovingFlag => 2,
        SweepPhase::LookingForLocks => 3,
        SweepPhase::CleaningWorkers => 4,
        SweepPhase::Listing => 5,
        SweepPhase::CleaningHarnesses => 6,
        SweepPhase::Recovering => 7,
        SweepPhase::Finished => 8,
    }
}

/// A sweep goes through its phases in their order and comes to its end: all locks
/// are cleaned up before the database is recovered, which comes last. It leaves
/// out neither the database nor the locks unless the index directory could not be
/// made, and that alone makes it fail.
pub proof fn law_sweep_is_ordered(
    sweep: StartupSweep,
    reply: SweepReply,
    next: SweepPhase,
    action: SweepAction,
)
    requires
        sweep.steps_to(reply, next, action),
    ensures
        sweep_order(sweep.phase) < sweep_order(next),
        sweep_order(sweep.phase) < sweep_order(SweepPhase::Recovering) < sweep_order(next)
            ==> sweep.phase == SweepPhase::CreatingIndex && reply is Failed,
        sweep_order(sweep.phase) < sweep_order(SweepPhase::LookingForLocks) < sweep_order(next)
            ==> sweep.phase == SweepPhase::CreatingIndex && reply is Failed,
        sweep_order(sweep.phase) < sweep_order(SweepPhase::Listing) < sweep_order(next)
            ==> sweep.phase == SweepPhase::CreatingIndex && reply is Failed,
        action matches SweepAction::Finish(result) && result is Err ==> sweep.phase
            == SweepPhase::CreatingIndex && reply is Failed,
        action is Finish <==> next == SweepPhase::Finished,
        action is RecoverDatabase ==> sweep.phase == SweepPhase::CleaningHarnesses || (sweep.phase
            == SweepPhase::Listing && !(reply is Listed)),
        action is CleanUpTogether || action is CleanUpInTurn ==> sweep_order(next) < sweep_order(
            SweepPhase::Recovering,
        ),
{
}

/// What a job is for: the lock of a worker under the worker's name as stale, or the
/// lock of a harness; each below the index directory.
pub proof fn law_jobs_name_their_locks(
    platform: Platform,
    data_dir: Seq<char>,
    name: Seq<char>,
    i: int,
)
    ensures
        stale_job(platform, data_dir, i) == (
            index_file(platform, data_dir, registry()[i].0),
            "Stale "@ + registry()[i].1,
        ),
        harness_job(platform, data_dir, name) == (
            index_file(platform, data_dir, name),
            "Stale harness"@,
        ),
{
}

/// The texts of jobs are those of each job, in its place.
pub proof fn law_jobs_in_place(jobs: Seq<LockJob>, i: int)
    requires
        0 <= i < jobs.len(),
    ensures
        job_texts(jobs).len() == jobs.len(),
        job_texts(jobs)[i] == (jobs[i].path@, jobs[i].name@),
{
}

/// Locks of harnesses are swept in the order in which they are listed, and the
/// sweep of a listing is that of its parts, one after the other.
pub proof fn law_harness_locks_keep_their_order(
    platform: Platform,
    data_dir: Seq<char>,
    entries: Seq<Option<String>>,
    n: nat,
)
    requires
        n < entries.len(),
    ensures
        ({
            let earlier = harness_jobs(platform, data_dir, entries, n);
            let later = harness_jobs(platform, data_dir, entries, (n + 1) as nat);
            &&& harness_jobs(platform, data_dir, entries, 0).len() == 0
            &&& (entries[n as int] matches Some(name) && is_harness_lock_name(name@)) ==> later
                == earlier.push(harness_job(platform, data_dir, entries[n as int]->0@))
            &&& !(entries[n as int] matches Some(name) && is_harness_lock_name(name@)) ==> later
                == earlier
        }),
{
}

/// The whole course of a sweep in which nothing is missing: the index directory, the
/// flag where there is one, the workers whose locks are there at the same time, the
/// harnesses whose locks are listed one after the other, the database, the end.
pub proof fn law_course_of_a_sweep(
    sweep: StartupSweep,
    reply: SweepReply,
    next: SweepPhase,
    action: SweepAction,
)
    requires
        sweep.steps_to(reply, next, action),
    ensures
        sweep.phase == SweepPhase::CreatingIndex && !(reply is Failed) ==> next
            == SweepPhase::LookingForFlag && action is LookForFlag,
        (sweep.phase == SweepPhase::CreatingIndex && reply is Failed) ==> next
            == SweepPhase::Finished && action == SweepAction::Finish(Err(reply->Failed_0)),
        sweep.phase == SweepPhase::LookingForFlag && reply == SweepReply::Found(true) ==> next
            == SweepPhase::RemovingFlag && action is RemoveFlag,
        sweep.phase == SweepPhase::LookingForFlag && reply != SweepReply::Found(true) ==> next
            == SweepPhase::LookingForLocks && action is LookForLocks,
        sweep.phase == SweepPhase::RemovingFlag ==> next == SweepPhase::LookingForLocks && action
            is LookForLocks,
        (sweep.phase == SweepPhase::LookingForLocks && reply is Present) ==> {
            let jobs = stale_jobs(
                sweep.platform,
                sweep.data_dir@,
                reply->Present_0@,
                registry().len(),
            );
            &&& jobs.len() > 0 ==> next == SweepPhase::CleaningWorkers && (
            action matches SweepAction::CleanUpTogether(list) && job_texts(list@) == jobs)
            &&& jobs.len() == 0 ==> next == SweepPhase::Listing && action is ListIndex
        },
        sweep.phase == SweepPhase::LookingForLocks && !(reply is Present) ==> next
            == SweepPhase::Listing && action is ListIndex,
        sweep.phase == SweepPhase::CleaningWorkers ==> next == SweepPhase::Listing && action
            is ListIndex,
        (sweep.phase == SweepPhase::Listing && reply is Listed) ==> {
            &&& next == SweepPhase::CleaningHarnesses
            &&& action matches SweepAction::CleanUpInTurn(list)
            &&& job_texts(list@) == harness_jobs(
                sweep.platform,
                sweep.data_dir@,
                reply->Listed_0@,
                reply->Listed_0@.len(),
            )
        },
        sweep.phase == SweepPhase::Listing && !(reply is Listed) ==> next == SweepPhase::Recovering
            && action is RecoverDatabase,
        sweep.phase == SweepPhase::CleaningHarnesses ==> next == SweepPhase::Recovering && action
            is RecoverDatabase,
        sweep.phase == SweepPhase::Recovering ==> next == SweepPhase::Finished && action
            == SweepAction::Finish(Ok(())),
{
}

} // verus!
