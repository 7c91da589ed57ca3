//! What is supervised: the one sidecar server, and any number of harnesses by id.
//!
//! A process is known here by the number of its handle; whoever holds the handle
//! polls and kills it. The supervisors decide what is recorded, what is restarted
//! and what has to be killed.

use vstd::prelude::*;

use crate::supervisor::LaunchSpec;
use crate::text::{cat, cat3, cat4, same_text};

verus! {

/// A harness that was spawned, with what is needed to restart it.
#[derive(Debug)]
pub struct RunningHarness {
    /// The process's handle.
    pub child: u32,
    pub spec: LaunchSpec,
    pub port: u16,
}

/// What came of polling a harness.
#[derive(Debug)]
pub enum PollExit {
    Running,
    /// Nothing is supervised under the id.
    Absent,
    /// It has exited; with this it can be started again.
    Exited { spec: LaunchSpec, port: u16 },
}

/// What is known of a harness.
#[derive(Debug)]
pub struct HarnessStatus {
    pub id: String,
    pub running: bool,
    pub port: Option<u16>,
}

/// Supervises harnesses by id.
#[derive(Debug)]
pub struct HarnessSupervisor {
    children: Vec<(String, RunningHarness)>,
    stopping: Vec<String>,
    shutting_down: bool,
}

/// What a supervisor holds: the running harnesses by id, the ids that were
/// stopped on purpose, and whether all is being shut down.
#[verifier::ext_equal]
pub struct SupervisorView {
    pub children: Map<Seq<char>, RunningHarness>,
    pub stopping: Set<Seq<char>>,
    pub shutting_down: bool,
}

/// No id stands twice.
spec fn distinct_ids(entries: Seq<(String, RunningHarness)>) -> bool {
    forall|i: int, j: int|
        0 <= i < j < entries.len() ==> (#[trigger] entries[i]).0@ != (#[trigger] entries[j]).0@
}

/// The position of an id, or the length where it does not stand.
spec fn position(entries: Seq<(String, RunningHarness)>, id: Seq<char>) -> int
    decreases entries.len(),
{
    if entries.len() == 0 {
        0
    } else if entries[0].0@ == id {
        0
    } else {
        1 + position(entries.drop_first(), id)
    }
}

/// The entries by id.
spec fn by_id(entries: Seq<(String, RunningHarness)>) -> Map<Seq<char>, RunningHarness> {
    Map::new(
        |id: Seq<char>| position(entries, id) < entries.len(),
        |id: Seq<char>| entries[position(entries, id)].1,
    )
}

proof fn lemma_position(entries: Seq<(String, RunningHarness)>, id: Seq<char>)
    ensures
        0 <= position(entries, id) <= entries.len(),
        position(entries, id) < entries.len() ==> entries[position(entries, id)].0@ == id,
        forall|i: int| 0 <= i < position(entries, id) ==> (#[trigger] entries[i]).0@ != id,
    decreases entries.len(),
{
    if entries.len() > 0 && entries[0].0@ != id {
        let rest = entries.drop_first();
        lemma_position(rest, id);
        assert forall|i: int| 0 <= i < position(entries, id) implies (#[trigger] entries[i]).0@
            != id by {
            if i > 0 {
                assert(rest[i - 1] == entries[i]);
            }
        }
    }
}

/// Where ids are distinct, an id stands at its position and nowhere else.
proof fn lemma_position_unique(entries: Seq<(String, RunningHarness)>, at: int)
    requires
        distinct_ids(entries),
        0 <= at < entries.len(),
    ensures
        position(entries, entries[at].0@) == at,
{
    lemma_position(entries, entries[at].0@);
    let found = position(entries, entries[at].0@);
    if found < at {
        assert(entries[found].0@ != entries[at].0@);
    } else if found > at {
        assert(entries[at].0@ != entries[at].0@);
    }
}

proof fn lemma_push(entries: Seq<(String, RunningHarness)>, entry: (String, RunningHarness))
    requires
        distinct_ids(entries),
        !by_id(entries).dom().contains(entry.0@),
    ensures
        distinct_ids(entries.push(entry)),
        by_id(entries.push(entry)) == by_id(entries).insert(entry.0@, entry.1),
{
    let longer = entries.push(entry);
    lemma_position(entries, entry.0@);
    assert forall|i: int, j: int| 0 <= i < j < longer.len() implies (#[trigger] longer[i]).0@ != (
    #[trigger] longer[j]).0@ by {
        assert(longer[i] == entries[i]);
        if j < entries.len() {
            assert(longer[j] == entries[j]);
        }
    }
    assert forall|id: Seq<char>|
        #![trigger by_id(longer).dom().contains(id)]
        #![trigger by_id(longer)[id]]
        {
            &&& by_id(longer).dom().contains(id) <==> by_id(entries).insert(
                entry.0@,
                entry.1,
            ).dom().contains(id)
            &&& by_id(longer).dom().contains(id) ==> by_id(longer)[id] == by_id(
                entries,
            ).insert(entry.0@, entry.1)[id]
        } by {
        lemma_position(entries, id);
        lemma_position(longer, id);
        let old_at = position(entries, id);
        let new_at = position(longer, id);
        if id == entry.0@ {
            lemma_position_unique(longer, entries.len() as int);
        } else if old_at < entries.len() {
            assert(longer[old_at] == entries[old_at]);
            lemma_position_unique(longer, old_at);
        } else if new_at < longer.len() {
            assert(new_at < entries.len());
            assert(longer[new_at] == entries[new_at]);
            assert(entries[new_at].0@ == id);
        }
    }
    assert(by_id(longer) =~= by_id(entries).insert(entry.0@, entry.1));
}

proof fn lemma_remove(entries: Seq<(String, RunningHarness)>, at: int)
    requires
        distinct_ids(entries),
        0 <= at < entries.len(),
    ensures
        distinct_ids(entries.remove(at)),
        by_id(entries.remove(at)) == by_id(entries).remove(entries[at].0@),
{
    let shorter = entries.remove(at);
    let gone = entries[at].0@;
    assert forall|i: int, j: int| 0 <= i < j < shorter.len() implies (#[trigger] shorter[i]).0@ != (
    #[trigger] shorter[j]).0@ by {
        let i0 = if i < at {
            i
        } else {
            i + 1
        };
        let j0 = if j < at {
            j
        } else {
            j + 1
        };
        assert(shorter[i] == entries[i0] && shorter[j] == entries[j0]);
    }
    assert forall|id: Seq<char>|
        #![trigger by_id(shorter).dom().contains(id)]
        #![trigger by_id(shorter)[id]]
        {
            &&& by_id(shorter).dom().contains(id) <==> by_id(entries).remove(gone).dom().contains(
                id,
            )
            &&& by_id(shorter).dom().contains(id) ==> by_id(shorter)[id] == by_id(
                entries,
            ).remove(gone)[id]
        } by {
        lemma_position(entries, id);
        lemma_position(shorter, id);
        let old_at = position(entries, id);
        let new_at = position(shorter, id);
        if id == gone {
            lemma_position_unique(entries, at);
            if new_at < shorter.len() {
                let back = if new_at < at {
                    new_at
                } else {
                    new_at + 1
                };
                assert(shorter[new_at] == entries[back]);
                lemma_position_unique(entries, back);
            }
        } else if old_at < entries.len() {
            let moved = if old_at < at {
                old_at
            } else {
                old_at - 1
            };
            assert(shorter[moved] == entries[old_at]);
            lemma_position_unique(shorter, moved);
        } else if new_at < shorter.len() {
            let back = if new_at < at {
                new_at
            } else {
                new_at + 1
            };
            assert(shorter[new_at] == entries[back]);
            assert(entries[back].0@ == id);
        }
    }
    assert(by_id(shorter) =~= by_id(entries).remove(gone));
}

/// The ids in a list.
spec fn ids_in(list: Seq<String>) -> Set<Seq<char>> {
    Set::new(|id: Seq<char>| exists|i: int| 0 <= i < list.len() && (#[trigger] list[i])@ == id)
}

/// No id stands twice in a list.
spec fn no_id_twice(list: Seq<String>) -> bool {
    forall|i: int, j: int|
        0 <= i < j < list.len() ==> (#[trigger] list[i])@ != (#[trigger] list[j])@
}

/// Whether an id stands in a list.
fn is_listed(list: &Vec<String>, id: &str) -> (listed: bool)
    ensures
        listed == ids_in(list@).contains(id@),
{
    let mut at: usize = 0;
    while at < list.len()
        invariant
            at <= list.len(),
            forall|i: int| 0 <= i < at ==> (#[trigger] list@[i])@ != id@,
        decreases list.len() - at,
    {
        if same_text(list[at].as_str(), id) {
            return true;
        }
        at = at + 1;
    }
    false
}

impl SupervisorView {
    /// Nothing is supervised.
    pub open spec fn empty() -> SupervisorView {
        SupervisorView { children: Map::empty(), stopping: Set::empty(), shutting_down: false }
    }

    /// After a harness was spawned: its id no longer counts as stopped, and it is
    /// recorded unless all is being shut down.
    pub open spec fn spawned(self, id: Seq<char>, harness: RunningHarness) -> SupervisorView {
        SupervisorView {
            children: if self.shutting_down {
                self.children
            } else {
                self.children.insert(id, harness)
            },
            stopping: self.stopping.remove(id),
            shutting_down: self.shutting_down,
        }
    }

    /// After a harness was found to have exited.
    pub open spec fn exited(self, id: Seq<char>) -> SupervisorView {
        SupervisorView { children: self.children.remove(id), ..self }
    }

    /// After a harness was stopped on purpose.
    pub open spec fn stopped(self, id: Seq<char>) -> SupervisorView {
        SupervisorView {
            children: self.children.remove(id),
            stopping: self.stopping.insert(id),
            shutting_down: self.shutting_down,
        }
    }

    /// After all was shut down.
    pub open spec fn shut_down(self) -> SupervisorView {
        SupervisorView { children: Map::empty(), stopping: self.stopping, shutting_down: true }
    }

    /// Whoever monitors this id has to stop without restarting it.
    pub open spec fn halted(self, id: Seq<char>) -> bool {
        self.shutting_down || self.stopping.contains(id)
    }

    /// Nothing runs any more once all is being shut down.
    pub open spec fn nothing_outlives_shutdown(self) -> bool {
        self.shutting_down ==> self.children == Map::<Seq<char>, RunningHarness>::empty()
    }
}

impl View for HarnessSupervisor {
    type V = SupervisorView;

    closed spec fn view(&self) -> SupervisorView {
        SupervisorView {
            children: by_id(self.children@),
            stopping: ids_in(self.stopping@),
            shutting_down: self.shutting_down,
        }
    }
}

impl Default for HarnessSupervisor {
    /// Nothing is supervised.
    fn default() -> (supervisor: Self)
        ensures
            supervisor.wf(),
            supervisor@ == SupervisorView::empty(),
    {
        let supervisor = HarnessSupervisor {
            children: Vec::new(),
            stopping: Vec::new(),
            shutting_down: false,
        };
        assert(by_id(supervisor.children@) =~= Map::<Seq<char>, RunningHarness>::empty());
        assert(ids_in(supervisor.stopping@) =~= Set::<Seq<char>>::empty());
        supervisor
    }
}

impl HarnessSupervisor {
    /// Every id stands for one harness, and none is left once all is being shut
    /// down. No id is listed twice as stopped on purpose.
    pub closed spec fn wf(&self) -> bool {
        &&& distinct_ids(self.children@)
        &&& self.shutting_down ==> self.children@.len() == 0
        &&& no_id_twice(self.stopping@)
    }

    fn find(&self, id: &str) -> (at: Option<usize>)
        requires
            self.wf(),
        ensures
            at matches Some(i) ==> i < self.children@.len() && self.children@[i as int].0@ == id@
                && self@.children.dom().contains(id@) && self@.children[id@]
                == self.children@[i as int].1,
            at is None ==> !self@.children.dom().contains(id@),
    {
        let mut at: usize = 0;
        while at < self.children.len()
            invariant
                self.wf(),
                at <= self.children.len(),
                forall|i: int| 0 <= i < at ==> (#[trigger] self.children@[i]).0@ != id@,
            decreases self.children.len() - at,
        {
            if same_text(self.children[at].0.as_str(), id) {
                proof {
                    lemma_position_unique(self.children@, at as int);
                }
                return Some(at);
            }
            at = at + 1;
        }
        proof {
            lemma_position(self.children@, id@);
        }
        None
    }

    /// Takes an id off the list of those that were stopped on purpose.
    fn clear_stopping(&mut self, id: &str)
        requires
            old(self).wf(),
        ensures
            final(self).wf(),
            final(self)@ == (SupervisorView {
                stopping: old(self)@.stopping.remove(id@),
                ..old(self)@
            }),
    {
        let mut kept: Vec<String> = Vec::new();
        let mut at: usize = 0;
        while at < self.stopping.len()
            invariant
                at <= self.stopping.len(),
                *self == *old(self),
                no_id_twice(self.stopping@),
                no_id_twice(kept@),
                forall|i: int| 0 <= i < kept@.len() ==> (#[trigger] kept@[i])@ != id@,
                forall|i: int|
                    0 <= i < kept@.len() ==> exists|j: int|
                        0 <= j < at && (#[trigger] self.stopping@[j])@ == (#[trigger] kept@[i])@,
                forall|j: int|
                    0 <= j < at && (#[trigger] self.stopping@[j])@ != id@ ==> exists|i: int|
                        0 <= i < kept@.len() && (#[trigger] kept@[i])@ == self.stopping@[j]@,
            decreases self.stopping.len() - at,
        {
            let ghost before = kept@;
            if !same_text(self.stopping[at].as_str(), id) {
                kept.push(self.stopping[at].clone());
                proof {
                    assert(kept@[before.len() as int]@ == self.stopping@[at as int]@);
                    assert forall|i: int| 0 <= i < before.len() implies (#[trigger] kept@[i])@
                        != self.stopping@[at as int]@ by {
                        assert(kept@[i] == before[i]);
                        let j = choose|j: int|
                            0 <= j < at && (#[trigger] self.stopping@[j])@ == before[i]@;
                        assert(self.stopping@[j]@ != self.stopping@[at as int]@);
                    }
                    assert(no_id_twice(kept@)) by {
                        assert forall|i: int, j: int| 0 <= i < j < kept@.len() implies (
                        #[trigger] kept@[i])@ != (#[trigger] kept@[j])@ by {
                            assert(kept@[i] == before[i]);
                            if j < before.len() {
                                assert(kept@[j] == before[j]);
                            }
                        }
                    }
                    assert forall|j: int|
                        0 <= j < at && (#[trigger] self.stopping@[j])@ != id@ implies exists|i: int|
                        0 <= i < kept@.len() && (#[trigger] kept@[i])@ == self.stopping@[j]@ by {
                        let i = choose|i: int|
                            0 <= i < before.len() && (#[trigger] before[i])@
                                == self.stopping@[j]@;
                        assert(kept@[i] == before[i]);
                    }
                }
            }
            at = at + 1;
        }
        proof {
            assert forall|x: Seq<char>| #[trigger]
                ids_in(kept@).contains(x) <==> ids_in(self.stopping@).remove(id@).contains(x) by {
                if ids_in(kept@).contains(x) {
                    let i = choose|i: int| 0 <= i < kept@.len() && (#[trigger] kept@[i])@ == x;
                    assert(kept@[i]@ != id@);
                    let j = choose|j: int|
                        0 <= j < self.stopping@.len() && (#[trigger] self.stopping@[j])@
                            == kept@[i]@;
                    assert(self.stopping@[j]@ == x);
                }
                if ids_in(self.stopping@).remove(id@).contains(x) {
                    let j = choose|j: int|
                        0 <= j < self.stopping@.len() && (#[trigger] self.stopping@[j])@ == x;
                    let i = choose|i: int|
                        0 <= i < kept@.len() && (#[trigger] kept@[i])@ == self.stopping@[j]@;
                    assert(kept@[i]@ == x);
                }
            }
            assert(ids_in(kept@) =~= ids_in(self.stopping@).remove(id@));
        }
        self.stopping = kept;
    }

    /// Puts an id on the list of those that were stopped on purpose.
    fn list_stopping(&mut self, id: &str)
        requires
            old(self).wf(),
        ensures
            final(self).wf(),
            final(self).children == old(self).children,
            final(self)@ == (SupervisorView {
                stopping: old(self)@.stopping.insert(id@),
                ..old(self)@
            }),
    {
        if is_listed(&self.stopping, id) {
            assert(ids_in(self.stopping@).insert(id@) =~= ids_in(self.stopping@));
            return;
        }
        let ghost stopping = self.stopping@;
        self.stopping.push(id.to_owned());
        proof {
            assert forall|x: Seq<char>| #[trigger]
                ids_in(self.stopping@).contains(x) <==> ids_in(stopping).insert(id@).contains(
                    x,
                ) by {
                if ids_in(stopping).contains(x) {
                    let i = choose|i: int|
                        0 <= i < stopping.len() && (#[trigger] stopping[i])@ == x;
                    assert(self.stopping@[i] == stopping[i]);
                }
                if x == id@ {
                    assert(self.stopping@[stopping.len() as int]@ == x);
                }
                if ids_in(self.stopping@).contains(x) && x != id@ {
                    let i = choose|i: int|
                        0 <= i < self.stopping@.len() && (#[trigger] self.stopping@[i])@ == x;
                    assert(stopping[i] == self.stopping@[i]);
                }
            }
            assert(ids_in(self.stopping@) =~= ids_in(stopping).insert(id@));
            assert forall|i: int, j: int| 0 <= i < j < self.stopping@.len() implies (
            #[trigger] self.stopping@[i])@ != (#[trigger] self.stopping@[j])@ by {
                assert(self.stopping@[i] == stopping[i]);
                if j < stopping.len() {
                    assert(self.stopping@[j] == stopping[j]);
                }
            }
        }
    }

    /// Records a process that was spawned for a harness, and takes the harness
    /// off the list of those stopped on purpose. Once all is being shut down
    /// nothing is recorded any more: the process has to be killed, and its lock
    /// removed.
    pub fn spawn_process(&mut self, id: &str, spec: LaunchSpec, port: u16, child: u32) -> (recorded:
        Result<u32, String>)
        requires
            old(self).wf(),
        ensures
            final(self).wf(),
            final(self)@ == old(self)@.spawned(id@, (RunningHarness { child, spec, port })),
            recorded is Err <==> old(self)@.shutting_down,
            recorded matches Ok(handle) ==> handle == child,
            recorded matches Err(reason) ==> reason@ == "Harness '"@ + id@
                + "' not started: supervisor is shutting down"@,
    {
        self.clear_stopping(id);
        if self.shutting_down {
            return Err(cat3("Harness '", id, "' not started: supervisor is shutting down"));
        }
        let harness = RunningHarness { child, spec, port };
        let ghost children = self.children@;
        if let Some(at) = self.find(id) {
            let removed = self.children.remove(at);
            proof {
                lemma_remove(children, at as int);
            }
        }
        let entry = (id.to_owned(), harness);
        proof {
            assert(!by_id(self.children@).dom().contains(entry.0@));
            lemma_push(self.children@, entry);
        }
        self.children.push(entry);
        assert(self@.children =~= old(self)@.children.insert(id@, harness));
        Ok(child)
    }

    /// The handle of the process that is supervised under an id.
    pub fn child_of(&self, id: &str) -> (child: Option<u32>)
        requires
            self.wf(),
        ensures
            child == (if self@.children.dom().contains(id@) {
                Some(self@.children[id@].child)
            } else {
                None
            }),
    {
        match self.find(id) {
            Some(at) => Some(self.children[at].1.child),
            None => None,
        }
    }

    /// Takes note of what polling a process has shown. One that has exited is no
    /// longer supervised, and what is needed to start it again is handed back.
    /// One that could not be polled counts as running.
    pub fn poll_exit(&mut self, id: &str, has_exited: bool) -> (poll: PollExit)
        requires
            old(self).wf(),
        ensures
            final(self).wf(),
            if !old(self)@.children.dom().contains(id@) {
                poll is Absent && final(self)@ == old(self)@
            } else if has_exited {
                let harness = old(self)@.children[id@];
                &&& poll == (PollExit::Exited { spec: harness.spec, port: harness.port })
                &&& final(self)@ == old(self)@.exited(id@)
            } else {
                poll is Running && final(self)@ == old(self)@
            },
    {
        match self.find(id) {
            None => PollExit::Absent,
            Some(at) => {
                if !has_exited {
                    return PollExit::Running;
                }
                let ghost children = self.children@;
                let (_, harness) = self.children.remove(at);
                proof {
                    lemma_remove(children, at as int);
                }
                PollExit::Exited { spec: harness.spec, port: harness.port }
            },
        }
    }

    /// Whether the harness was stopped on purpose.
    pub fn is_stopping(&self, id: &str) -> (stopping: bool)
        ensures
            stopping == self@.stopping.contains(id@),
    {
        is_listed(&self.stopping, id)
    }

    /// Whether a live process is supervised under the id, by what polling it has
    /// shown.
    pub fn is_running(&self, id: &str, has_exited: bool) -> (running: bool)
        requires
            self.wf(),
        ensures
            running == (self@.children.dom().contains(id@) && !has_exited),
    {
        !has_exited && self.find(id).is_some()
    }

    /// The port that the harness was launched on.
    pub fn port_of(&self, id: &str) -> (port: Option<u16>)
        requires
            self.wf(),
        ensures
            port == (if self@.children.dom().contains(id@) {
                Some(self@.children[id@].port)
            } else {
                None
            }),
    {
        match self.find(id) {
            Some(at) => Some(self.children[at].1.port),
            None => None,
        }
    }

    /// What is known of the harness, by what polling its process has shown. It has
    /// a port exactly while it is supervised, be it alive or not.
    pub fn status(&self, id: &str, has_exited: bool) -> (status: HarnessStatus)
        requires
            self.wf(),
        ensures
            status.id@ == id@,
            status.running == (self@.children.dom().contains(id@) && !has_exited),
            status.port == (if self@.children.dom().contains(id@) {
                Some(self@.children[id@].port)
            } else {
                None
            }),
    {
        HarnessStatus {
            id: id.to_owned(),
            running: self.is_running(id, has_exited),
            port: self.port_of(id),
        }
    }

    /// Stops a harness on purpose, so that it is not restarted. The process to
    /// be killed is handed back, where there is one.
    pub fn stop(&mut self, id: &str) -> (harness: Option<RunningHarness>)
        requires
            old(self).wf(),
        ensures
            final(self).wf(),
            final(self)@ == old(self)@.stopped(id@),
            harness == (if old(self)@.children.dom().contains(id@) {
                Some(old(self)@.children[id@])
            } else {
                None
            }),
    {
        self.list_stopping(id);
        let ghost children = self.children@;
        match self.find(id) {
            None => {
                assert(self@.children =~= old(self)@.children.remove(id@));
                None
            },
            Some(at) => {
                let (_, harness) = self.children.remove(at);
                proof {
                    lemma_remove(children, at as int);
                }
                Some(harness)
            },
        }
    }

    /// Shuts all down. Every process that was supervised is handed back to be
    /// killed, and none is recorded any more.
    pub fn stop_all(&mut self) -> (harnesses: Vec<(String, RunningHarness)>)
        requires
            old(self).wf(),
        ensures
            final(self).wf(),
            final(self)@ == old(self)@.shut_down(),
            forall|i: int|
                0 <= i < harnesses@.len() ==> old(self)@.children.dom().contains(
                    (#[trigger] harnesses@[i]).0@,
                ) && old(self)@.children[harnesses@[i].0@] == harnesses@[i].1,
            forall|id: Seq<char>| #[trigger]
                old(self)@.children.dom().contains(id) ==> exists|i: int|
                    0 <= i < harnesses@.len() && (#[trigger] harnesses@[i]).0@ == id,
            forall|i: int, j: int|
                0 <= i < j < harnesses@.len() ==> (#[trigger] harnesses@[i]).0@ != (
                #[trigger] harnesses@[j]).0@,
    {
        let mut harnesses: Vec<(String, RunningHarness)> = Vec::new();
        self.shutting_down = true;
        std::mem::swap(&mut harnesses, &mut self.children);
        proof {
            assert(self@.children =~= Map::<Seq<char>, RunningHarness>::empty());
            let before = old(self)@.children;
            assert forall|i: int| 0 <= i < harnesses@.len() implies before.dom().contains(
                (#[trigger] harnesses@[i]).0@,
            ) && before[harnesses@[i].0@] == harnesses@[i].1 by {
                lemma_position_unique(harnesses@, i);
            }
            assert forall|id: Seq<char>| #[trigger]
                old(self)@.children.dom().contains(id) implies exists|i: int|
                0 <= i < harnesses@.len() && (#[trigger] harnesses@[i]).0@ == id by {
                lemma_position(harnesses@, id);
                assert(harnesses@[position(harnesses@, id)].0@ == id);
            }
        }
        harnesses
    }

    /// Whether all is being shut down.
    pub fn is_shutting_down(&self) -> (shutting_down: bool)
        ensures
            shutting_down == self@.shutting_down,
    {
        self.shutting_down
    }

    /// Whether whoever monitors this id has to stop without restarting it.
    pub fn is_halted(&self, id: &str) -> (halted: bool)
        ensures
            halted == self@.halted(id@),
    {
        self.shutting_down || self.is_stopping(id)
    }
}

/// What can happen to a supervisor.
pub enum Change {
    Spawned { id: Seq<char>, harness: RunningHarness },
    Exited { id: Seq<char> },
    Stopped { id: Seq<char> },
    ShutDown,
}

/// What a supervisor holds after some changes, in order.
pub open spec fn after_changes(view: SupervisorView, changes: Seq<Change>) -> SupervisorView
    decreases changes.len(),
{
    if changes.len() == 0 {
        view
    } else {
        let before = after_changes(view, changes.drop_last());
        match changes.last() {
            Change::Spawned { id, harness } => before.spawned(id, harness),
            Change::Exited { id } => before.exited(id),
            Change::Stopped { id } => before.stopped(id),
            Change::ShutDown => before.shut_down(),
        }
    }
}

/// Once all was shut down, nothing that happens later makes a process run again:
/// a spawn that races the shutdown is not recorded, and every monitor halts.
pub proof fn law_shutdown_is_final(view: SupervisorView, changes: Seq<Change>)
    ensures
        ({
            let later = after_changes(view.shut_down(), changes);
            &&& later.shutting_down
            &&& later.children == Map::<Seq<char>, RunningHarness>::empty()
            &&& forall|id: Seq<char>| #[trigger] later.halted(id)
        }),
    decreases changes.len(),
{
    if changes.len() > 0 {
        law_shutdown_is_final(view, changes.drop_last());
        let later = after_changes(view.shut_down(), changes);
        assert(later.children =~= Map::<Seq<char>, RunningHarness>::empty());
    }
}

/// A harness that was stopped on purpose does not run and is not restarted,
/// until it is spawned again; then it runs and is restarted like any other.
pub proof fn law_stop_lasts_until_spawn(
    view: SupervisorView,
    id: Seq<char>,
    harness: RunningHarness,
)
    ensures
        view.stopped(id).halted(id),
        !view.stopped(id).children.dom().contains(id),
        !view.shutting_down ==> {
            let again = view.stopped(id).spawned(id, harness);
            !again.halted(id) && again.children.dom().contains(id) && again.children[id] == harness
        },
{
}

/// A harness that has exited is no longer supervised, and spawning it again with
/// the specification and the port that it had puts it back as it was.
pub proof fn law_restart_keeps_spec_and_port(view: SupervisorView, id: Seq<char>, child: u32)
    requires
        !view.shutting_down,
        view.children.dom().contains(id),
    ensures
        ({
            let harness = view.children[id];
            let again = view.exited(id).spawned(id, RunningHarness { child, ..harness });
            &&& !view.exited(id).children.dom().contains(id)
            &&& again.children == view.children.insert(id, RunningHarness { child, ..harness })
        }),
{
    let harness = view.children[id];
    let again = view.exited(id).spawned(id, RunningHarness { child, ..harness });
    assert(again.children =~= view.children.insert(id, RunningHarness { child, ..harness }));
}

/// What happens to one harness leaves every other one alone.
pub proof fn law_harnesses_are_independent(
    view: SupervisorView,
    id: Seq<char>,
    other: Seq<char>,
    harness: RunningHarness,
)
    requires
        id != other,
    ensures
        view.spawned(id, harness).children.dom().contains(other) == view.children.dom().contains(
            other,
        ),
        view.stopped(id).children.dom().contains(other) == view.children.dom().contains(other),
        view.exited(id).children.dom().contains(other) == view.children.dom().contains(other),
        view.children.dom().contains(other) ==> {
            &&& view.spawned(id, harness).children[other] == view.children[other]
            &&& view.stopped(id).children[other] == view.children[other]
            &&& view.exited(id).children[other] == view.children[other]
        },
        view.spawned(id, harness).halted(other) == view.halted(other),
        view.stopped(id).halted(other) == view.halted(other),
        view.exited(id).halted(other) == view.halted(other),
{
}

/// What is left to do once the supervisor is through with a harness: the process
/// to be killed, and whether the harness's lock goes.
#[derive(Clone, Copy, PartialEq, Eq, Structural, Debug)]
pub struct Disposal {
    pub kill: Option<u32>,
    pub remove_lock: bool,
}

impl Disposal {
    /// Nothing is left to do.
    pub open spec fn nothing() -> Disposal {
        Disposal { kill: None, remove_lock: false }
    }

    /// The process is killed and the lock goes.
    pub open spec fn of(child: u32) -> Disposal {
        Disposal { kill: Some(child), remove_lock: true }
    }

    /// After a process was spawned: one that the supervisor has refused is killed,
    /// and its lock goes.
    pub open spec fn of_spawn(recorded: Result<u32, String>, child: u32) -> Disposal {
        if recorded is Err {
            Self::of(child)
        } else {
            Self::nothing()
        }
    }

    /// After a harness was stopped on purpose: its process is killed, where there
    /// is one, and the lock goes in any case.
    pub open spec fn of_stop(harness: Option<RunningHarness>) -> Disposal {
        match harness {
            Some(h) => Self::of(h.child),
            None => Disposal { kill: None, remove_lock: true },
        }
    }

    /// What [`HarnessSupervisor::spawn_process`] leaves to do.
    pub fn after_spawn(recorded: &Result<u32, String>, child: u32) -> (disposal: Disposal)
        ensures
            disposal == Self::of_spawn(*recorded, child),
    {
        match recorded {
            Ok(_) => Disposal { kill: None, remove_lock: false },
            Err(_) => Disposal { kill: Some(child), remove_lock: true },
        }
    }

    /// What [`HarnessSupervisor::poll_exit`] leaves to do: the lock of a harness
    /// that has exited still names the dead process, and goes.
    pub fn after_poll(poll: &PollExit) -> (disposal: Disposal)
        ensures
            disposal == (Disposal { kill: None, remove_lock: poll is Exited }),
    {
        match poll {
            PollExit::Exited { .. } => Disposal { kill: None, remove_lock: true },
            _ => Disposal { kill: None, remove_lock: false },
        }
    }

    /// What [`HarnessSupervisor::stop`] leaves to do.
    pub fn after_stop(harness: &Option<RunningHarness>) -> (disposal: Disposal)
        ensures
            disposal == Self::of_stop(*harness),
    {
        match harness {
            Some(h) => Disposal { kill: Some(h.child), remove_lock: true },
            None => Disposal { kill: None, remove_lock: true },
        }
    }

    /// What [`HarnessSupervisor::stop_all`] leaves to do for each harness that it
    /// hands back.
    pub fn after_shutdown(harness: &RunningHarness) -> (disposal: Disposal)
        ensures
            disposal == Self::of(harness.child),
    {
        Disposal { kill: Some(harness.child), remove_lock: true }
    }
}

/// No process is left to itself: one that is supervised before a stop and not
/// after it is killed, and so is one that was spawned and is not supervised then.
pub proof fn law_unsupervised_process_is_killed(
    view: SupervisorView,
    id: Seq<char>,
    harness: RunningHarness,
    stopped: Option<RunningHarness>,
    recorded: Result<u32, String>,
)
    requires
        stopped == (if view.children.dom().contains(id) {
            Some(view.children[id])
        } else {
            None
        }),
        recorded is Err <==> view.shutting_down,
        view.nothing_outlives_shutdown(),
    ensures
        !view.stopped(id).children.dom().contains(id),
        view.children.dom().contains(id) ==> Disposal::of_stop(stopped) == Disposal::of(
            view.children[id].child,
        ),
        Disposal::of_stop(stopped).remove_lock,
        Disposal::of_spawn(recorded, harness.child) == (if view.spawned(
            id,
            harness,
        ).children.dom().contains(id) {
            Disposal::nothing()
        } else {
            Disposal::of(harness.child)
        }),
{
}

/// The message for a harness whose process could not be spawned.
pub fn spawn_failure(id: &str, reason: &str) -> (message: String)
    ensures
        message@ == "Failed to spawn harness '"@ + id@ + "': "@ + reason@,
{
    cat4("Failed to spawn harness '", id, "': ", reason)
}

/// The message for a sidecar server whose process could not be started.
pub fn start_failure(reason: &str) -> (message: String)
    ensures
        message@ == "Failed to start sidecar server: "@ + reason@,
{
    cat("Failed to start sidecar server: ", reason)
}

/// What polling the sidecar server has shown.
#[derive(Clone, Copy, PartialEq, Eq, Structural, Debug)]
pub enum SidecarPoll {
    Running,
    /// There is no process to supervise.
    Absent,
    Exited,
}

/// Supervises the sidecar server.
#[derive(Debug)]
pub struct SidecarSupervisor {
    /// The handle of the server's process.
    pub child: Option<u32>,
    /// The server is being shut down on purpose and not to be restarted.
    pub shutting_down: bool,
}

impl Default for SidecarSupervisor {
    /// No server was started yet.
    fn default() -> (supervisor: Self)
        ensures
            supervisor == (SidecarSupervisor { child: None, shutting_down: false }),
    {
        SidecarSupervisor { child: None, shutting_down: false }
    }
}

impl SidecarSupervisor {
    /// Takes note of what polling the process has shown: one that has exited is
    /// no longer supervised, one that could not be polled counts as running.
    pub fn poll(&mut self, has_exited: bool) -> (poll: SidecarPoll)
        ensures
            poll == (if old(self).child is None {
                SidecarPoll::Absent
            } else if has_exited {
                SidecarPoll::Exited
            } else {
                SidecarPoll::Running
            }),
            final(self).child == (if has_exited {
                None
            } else {
                old(self).child
            }),
            final(self).shutting_down == old(self).shutting_down,
    {
        if self.child.is_none() {
            return SidecarPoll::Absent;
        }
        if has_exited {
            self.child = None;
            return SidecarPoll::Exited;
        }
        SidecarPoll::Running
    }

    /// Records the process of a server that was started.
    pub fn record(&mut self, child: u32)
        ensures
            *final(self) == (SidecarSupervisor { child: Some(child), ..*old(self) }),
    {
        self.child = Some(child);
    }

    /// Has the server not restarted any more.
    pub fn begin_shutdown(&mut self)
        ensures
            *final(self) == (SidecarSupervisor { shutting_down: true, ..*old(self) }),
    {
        self.shutting_down = true;
    }

    /// Gives up the process, which is killed by way of its lock file.
    pub fn release(&mut self) -> (child: Option<u32>)
        ensures
            child == old(self).child,
            *final(self) == (SidecarSupervisor { child: None, ..*old(self) }),
    {
        let child: Option<u32> = self.child;
        self.child = None;
        child
    }
}

/// A supervisor never holds a process once all is being shut down.
pub proof fn law_nothing_outlives_shutdown(supervisor: HarnessSupervisor)
    requires
        supervisor.wf(),
    ensures
        supervisor@.nothing_outlives_shutdown(),
{
    if supervisor@.shutting_down {
        assert(supervisor@.children =~= Map::<Seq<char>, RunningHarness>::empty());
    }
}

/// A supervisor that is new supervises nothing and keeps nobody from restarting.
pub proof fn law_fresh_supervisor_is_idle(id: Seq<char>)
    ensures
        !SupervisorView::empty().children.dom().contains(id),
        !SupervisorView::empty().stopping.contains(id),
        !SupervisorView::empty().shutting_down,
        !SupervisorView::empty().halted(id),
{
}

/// A harness is halted exactly where it was stopped on purpose or all is being
/// shut down.
pub proof fn law_halted_means_on_purpose(view: SupervisorView, id: Seq<char>)
    ensures
        view.shutting_down ==> view.halted(id),
        view.stopping.contains(id) ==> view.halted(id),
        !view.shutting_down && !view.stopping.contains(id) ==> !view.halted(id),
{
}

/// An exit does not count as a stop on purpose: it takes the process off the
/// record and leaves everything else, so that a harness which was not halted
/// before can be restarted.
pub proof fn law_exit_is_no_stop(view: SupervisorView, id: Seq<char>, other: Seq<char>)
    ensures
        !view.exited(id).children.dom().contains(id),
        view.exited(id).stopping == view.stopping,
        view.exited(id).shutting_down == view.shutting_down,
        view.exited(id).halted(other) == view.halted(other),
        other != id ==> view.exited(id).children.dom().contains(other)
            == view.children.dom().contains(other),
        other != id && view.children.dom().contains(other) ==> view.exited(id).children[other]
            == view.children[other],
{
}

/// A spawn puts the process on the record under its id and takes the id off those
/// stopped on purpose; every other harness stays as it was. In a shutdown nothing
/// is put on the record.
pub proof fn law_spawn_is_recorded(
    view: SupervisorView,
    id: Seq<char>,
    harness: RunningHarness,
    other: Seq<char>,
)
    ensures
        !view.shutting_down ==> view.spawned(id, harness).children.dom().contains(id)
            && view.spawned(id, harness).children[id] == harness,
        view.shutting_down ==> view.spawned(id, harness).children == view.children,
        view.spawned(id, harness).shutting_down == view.shutting_down,
        !view.spawned(id, harness).stopping.contains(id),
        other != id ==> view.spawned(id, harness).stopping.contains(other)
            == view.stopping.contains(other),
        other != id ==> view.spawned(id, harness).children.dom().contains(other)
            == view.children.dom().contains(other),
        other != id && view.children.dom().contains(other) ==> view.spawned(
            id,
            harness,
        ).children[other] == view.children[other],
{
}

/// A stop takes the process off the record, remembers that it was on purpose, and
/// leaves every other harness as it was.
pub proof fn law_stop_is_remembered(view: SupervisorView, id: Seq<char>, other: Seq<char>)
    ensures
        !view.stopped(id).children.dom().contains(id),
        view.stopped(id).stopping.contains(id),
        view.stopped(id).shutting_down == view.shutting_down,
        other != id ==> view.stopped(id).stopping.contains(other) == view.stopping.contains(other),
        other != id ==> view.stopped(id).children.dom().contains(other)
            == view.children.dom().contains(other),
        other != id && view.children.dom().contains(other) ==> view.stopped(id).children[other]
            == view.children[other],
{
}

/// A shutdown takes every process off the record and forgets no stop.
pub proof fn law_shutdown_takes_all(view: SupervisorView, id: Seq<char>)
    ensures
        !view.shut_down().children.dom().contains(id),
        view.shut_down().shutting_down,
        view.shut_down().stopping == view.stopping,
{
}

/// What is disposed of, by its parts: a refused spawn and a stop of a process kill
/// that very process; a recorded spawn kills nothing and keeps its lock; a stop
/// removes the lock in any case.
pub proof fn law_disposal_names_the_process(
    recorded: Result<u32, String>,
    child: u32,
    stopped: Option<RunningHarness>,
)
    ensures
        recorded is Ok ==> Disposal::of_spawn(recorded, child).kill is None && !Disposal::of_spawn(
            recorded,
            child,
        ).remove_lock,
        recorded is Err ==> Disposal::of_spawn(recorded, child).kill == Some(child)
            && Disposal::of_spawn(recorded, child).remove_lock,
        stopped matches Some(harness) ==> Disposal::of_stop(stopped).kill == Some(harness.child),
        stopped is None ==> Disposal::of_stop(stopped).kill is None,
        Disposal::of_stop(stopped).remove_lock,
        Disposal::of(child).kill == Some(child) && Disposal::of(child).remove_lock,
{
}

} // verus!
