//! Monitors: poll a process, restart it with capped backoff, and give up loudly.
//!
//! A monitor says what is done next; whoever drives it performs the action and
//! hands back the reply. A reply that does not answer the last action stops the
//! monitor, so that nothing is ever restarted by mistake.

use vstd::prelude::*;

use crate::events::{Event, HARNESS_STATUS_CHANNEL, SIDECAR_STATUS_CHANNEL};
use crate::json::{
    json_object, json_quoted, json_text, member_texts, number_value, object_of, string_value,
};
use crate::restart::{ladder, RestartWindow};
use crate::state::{PollExit, SidecarPoll, SupervisorView};
use crate::supervisor::LaunchSpec;
use crate::text::decimal;

verus! {

/// Seconds between two polls of a process that runs.
pub const POLL_INTERVAL_SECS: u64 = 1;

/// What the user interface is told of a process.
#[derive(Clone, Copy, PartialEq, Eq, Structural, Debug)]
pub enum Status {
    /// It has exited unexpectedly.
    Down,
    /// It runs again.
    Restarted,
    /// It has crashed too often and is not restarted any more.
    Failed,
}

impl Status {
    pub open spec fn name(self) -> Seq<char> {
        match self {
            Status::Down => "down"@,
            Status::Restarted => "restarted"@,
            Status::Failed => "failed"@,
        }
    }

    /// The name that the user interface knows the status by.
    pub fn text(self) -> (name: &'static str)
        ensures
            name@ == self.name(),
    {
        match self {
            Status::Down => "down",
            Status::Restarted => "restarted",
            Status::Failed => "failed",
        }
    }
}

/// The event that tells the user interface of the sidecar server.
pub fn sidecar_status_event(status: Status, attempt: usize) -> (event: Event)
    ensures
        event.channel@ == SIDECAR_STATUS_CHANNEL@,
        json_text(event.payload) == json_object(
            seq![
                ("status"@, json_quoted(status.name())),
                ("attempt"@, decimal(attempt as nat)),
            ],
        ),
{
    let members: Vec<(String, serde_json::Value)> = vec![
        ("status".to_owned(), string_value(status.text())),
        ("attempt".to_owned(), number_value(attempt as u64)),
    ];
    assert(member_texts(members@) =~= seq![
        ("status"@, json_quoted(status.name())),
        ("attempt"@, decimal(attempt as nat)),
    ]);
    Event { channel: SIDECAR_STATUS_CHANNEL, payload: object_of(members) }
}

/// The event that tells the user interface of a harness.
pub fn harness_status_event(id: &str, status: Status, attempt: usize) -> (event: Event)
    ensures
        event.channel@ == HARNESS_STATUS_CHANNEL@,
        json_text(event.payload) == json_object(
            seq![
                ("id"@, json_quoted(id@)),
                ("status"@, json_quoted(status.name())),
                ("attempt"@, decimal(attempt as nat)),
            ],
        ),
{
    let members: Vec<(String, serde_json::Value)> = vec![
        ("id".to_owned(), string_value(id)),
        ("status".to_owned(), string_value(status.text())),
        ("attempt".to_owned(), number_value(attempt as u64)),
    ];
    assert(member_texts(members@) =~= seq![
        ("id"@, json_quoted(id@)),
        ("status"@, json_quoted(status.name())),
        ("attempt"@, decimal(attempt as nat)),
    ]);
    Event { channel: HARNESS_STATUS_CHANNEL, payload: object_of(members) }
}

/// How far a monitor has come: what the next reply answers.
#[derive(Clone, Copy, PartialEq, Eq, Structural, Debug)]
pub enum MonitorPhase {
    /// Sleeping before the next poll.
    Napping,
    Polling,
    /// Telling that the process is down.
    Announcing,
    /// Sleeping before the next attempt to restart it.
    BackingOff,
    Spawning,
    /// Telling that it runs again.
    Recovered,
    /// Removing the lock of a harness that is not restarted any more.
    ClearingLock,
    /// Telling that it is not restarted any more.
    GivingUp,
    Stopped,
}

/// What is to be done next.
#[derive(Clone, Copy, PartialEq, Eq, Structural, Debug)]
pub enum MonitorAction {
    Sleep { secs: u64 },
    Poll,
    /// Pass on the event that [`sidecar_status_event`] makes of this.
    Emit { status: Status, attempt: usize },
    Spawn,
    Stop,
}

/// What came of an action.
#[derive(Clone, Copy, PartialEq, Eq, Structural, Debug)]
pub enum MonitorReply {
    /// A sleep is over. `halted` says whether the process is being shut down on
    /// purpose by now.
    Woke { halted: bool },
    /// The process was polled, at `now`; `halted` was read afterwards.
    Polled { poll: SidecarPoll, halted: bool, now: u128 },
    Emitted,
    Spawned { ok: bool },
}

/// Monitors the sidecar server.
#[derive(Clone, Copy, Debug)]
pub struct SidecarMonitor {
    pub window: RestartWindow,
    pub phase: MonitorPhase,
}

impl SidecarMonitor {
    pub open spec fn at(self, phase: MonitorPhase) -> SidecarMonitor {
        SidecarMonitor { phase, ..self }
    }

    /// The next attempt to restart the server: after the ladder's delay, or not
    /// at all once the ladder is exhausted.
    pub open spec fn try_again(self) -> (SidecarMonitor, MonitorAction) {
        match self.window.delay() {
            Some(secs) => (
                SidecarMonitor { window: self.window.advanced(), phase: MonitorPhase::BackingOff },
                MonitorAction::Sleep { secs },
            ),
            None => (
                self.at(MonitorPhase::GivingUp),
                MonitorAction::Emit { status: Status::Failed, attempt: self.window.attempts },
            ),
        }
    }

    /// The monitor stops.
    pub open spec fn stop(self) -> (SidecarMonitor, MonitorAction) {
        (self.at(MonitorPhase::Stopped), MonitorAction::Stop)
    }

    /// The monitor after a reply, and what is done next.
    pub open spec fn next(self, reply: MonitorReply) -> (SidecarMonitor, MonitorAction) {
        match (self.phase, reply) {
            (MonitorPhase::Napping, MonitorReply::Woke { halted: false }) => {
                (self.at(MonitorPhase::Polling), MonitorAction::Poll)
            },
            (
                MonitorPhase::Polling,
                MonitorReply::Polled { poll: SidecarPoll::Running, .. },
            ) => (
                self.at(MonitorPhase::Napping),
                MonitorAction::Sleep { secs: POLL_INTERVAL_SECS },
            ),
            (
                MonitorPhase::Polling,
                MonitorReply::Polled { poll: SidecarPoll::Exited, halted: false, now },
            ) => {
                let window = self.window.rolled(now);
                (
                    SidecarMonitor { window, phase: MonitorPhase::Announcing },
                    MonitorAction::Emit {
                        status: Status::Down,
                        attempt: (window.attempts + 1) as usize,
                    },
                )
            },
            (MonitorPhase::Announcing, MonitorReply::Emitted) => self.try_again(),
            (MonitorPhase::BackingOff, MonitorReply::Woke { halted: false }) => {
                (self.at(MonitorPhase::Spawning), MonitorAction::Spawn)
            },
            (MonitorPhase::Spawning, MonitorReply::Spawned { ok: true }) => (
                self.at(MonitorPhase::Recovered),
                MonitorAction::Emit { status: Status::Restarted, attempt: self.window.attempts },
            ),
            (MonitorPhase::Spawning, MonitorReply::Spawned { ok: false }) => self.try_again(),
            (MonitorPhase::Recovered, MonitorReply::Emitted) => (
                self.at(MonitorPhase::Napping),
                MonitorAction::Sleep { secs: POLL_INTERVAL_SECS },
            ),
            _ => self.stop(),
        }
    }

    /// No more attempts were made than the ladder has steps.
    pub open spec fn wf(self) -> bool {
        self.window.attempts <= ladder().len()
    }

    /// Starts to monitor, at `now`.
    pub fn new(now: u128) -> (begun: (SidecarMonitor, MonitorAction))
        ensures
            begun.0.wf(),
            begun.0 == (SidecarMonitor {
                window: RestartWindow { attempts: 0, start: now },
                phase: MonitorPhase::Napping,
            }),
            begun.1 == (MonitorAction::Sleep { secs: POLL_INTERVAL_SECS }),
    {
        let monitor = SidecarMonitor {
            window: RestartWindow::new(now),
            phase: MonitorPhase::Napping,
        };
        (monitor, MonitorAction::Sleep { secs: POLL_INTERVAL_SECS })
    }

    fn attempt(&mut self) -> (action: MonitorAction)
        requires
            old(self).wf(),
        ensures
            final(self).wf(),
            (*final(self), action) == old(self).try_again(),
    {
        match self.window.take_attempt() {
            Some(secs) => {
                self.phase = MonitorPhase::BackingOff;
                MonitorAction::Sleep { secs }
            },
            None => {
                self.phase = MonitorPhase::GivingUp;
                MonitorAction::Emit { status: Status::Failed, attempt: self.window.attempts }
            },
        }
    }

    /// Takes the reply to the last action and says what is done next.
    pub fn step(&mut self, reply: MonitorReply) -> (action: MonitorAction)
        requires
            old(self).wf(),
        ensures
            final(self).wf(),
            (*final(self), action) == old(self).next(reply),
    {
        match (self.phase, reply) {
            (MonitorPhase::Napping, MonitorReply::Woke { halted: false }) => {
                self.phase = MonitorPhase::Polling;
                MonitorAction::Poll
            },
            (
                MonitorPhase::Polling,
                MonitorReply::Polled { poll: SidecarPoll::Running, .. },
            ) => {
                self.phase = MonitorPhase::Napping;
                MonitorAction::Sleep { secs: POLL_INTERVAL_SECS }
            },
            (
                MonitorPhase::Polling,
                MonitorReply::Polled { poll: SidecarPoll::Exited, halted: false, now },
            ) => {
                self.window.roll(now);
                self.phase = MonitorPhase::Announcing;
                MonitorAction::Emit { status: Status::Down, attempt: self.window.attempts + 1 }
            },
            (MonitorPhase::Announcing, MonitorReply::Emitted) => self.attempt(),
            (MonitorPhase::BackingOff, MonitorReply::Woke { halted: false }) => {
                self.phase = MonitorPhase::Spawning;
                MonitorAction::Spawn
            },
            (MonitorPhase::Spawning, MonitorReply::Spawned { ok: true }) => {
                self.phase = MonitorPhase::Recovered;
                MonitorAction::Emit { status: Status::Restarted, attempt: self.window.attempts }
            },
            (MonitorPhase::Spawning, MonitorReply::Spawned { ok: false }) => self.attempt(),
            (MonitorPhase::Recovered, MonitorReply::Emitted) => {
                self.phase = MonitorPhase::Napping;
                MonitorAction::Sleep { secs: POLL_INTERVAL_SECS }
            },
            _ => {
                self.phase = MonitorPhase::Stopped;
                MonitorAction::Stop
            },
        }
    }
}

/// A process that is being shut down on purpose is never restarted: a reply that
/// says so stops the monitor, unless the process was seen running just then, and
/// a spawn follows only on a reply that says the contrary.
pub proof fn law_shutdown_stops_monitor(monitor: SidecarMonitor, reply: MonitorReply)
    ensures
        reply == (MonitorReply::Woke { halted: true }) ==> monitor.next(reply).1
            == MonitorAction::Stop,
        (reply matches MonitorReply::Polled { poll, halted, .. } && halted && poll
            != SidecarPoll::Running) ==> monitor.next(reply).1 == MonitorAction::Stop,
        monitor.next(reply).1 == MonitorAction::Spawn ==> reply == (MonitorReply::Woke {
            halted: false,
        }) && monitor.phase == MonitorPhase::BackingOff,
        monitor.phase == MonitorPhase::Stopped ==> monitor.next(reply) == monitor.stop(),
{
}

/// The monitor after some replies, in order.
pub open spec fn after_replies(monitor: SidecarMonitor, replies: Seq<MonitorReply>) -> SidecarMonitor
    decreases replies.len(),
{
    if replies.len() == 0 {
        monitor
    } else {
        after_replies(monitor, replies.drop_last()).next(replies.last()).0
    }
}

/// How often the server was spawned in the course of these replies.
pub open spec fn spawns(monitor: SidecarMonitor, replies: Seq<MonitorReply>) -> nat
    decreases replies.len(),
{
    if replies.len() == 0 {
        0
    } else {
        let before = after_replies(monitor, replies.drop_last());
        spawns(monitor, replies.drop_last()) + if before.next(replies.last()).1
            == MonitorAction::Spawn {
            1nat
        } else {
            0nat
        }
    }
}

/// Once a shutdown has begun, nothing is spawned any more, whatever follows.
pub proof fn law_nothing_is_spawned_in_shutdown(monitor: SidecarMonitor, replies: Seq<MonitorReply>)
    requires
        forall|i: int|
            0 <= i < replies.len() ==> ((#[trigger] replies[i]) matches MonitorReply::Woke {
                halted,
            } ==> halted),
    ensures
        spawns(monitor, replies) == 0,
    decreases replies.len(),
{
    if replies.len() > 0 {
        let earlier = replies.drop_last();
        assert forall|i: int| 0 <= i < earlier.len() implies ((
        #[trigger] earlier[i]) matches MonitorReply::Woke { halted } ==> halted) by {
            assert(earlier[i] == replies[i]);
        }
        law_nothing_is_spawned_in_shutdown(monitor, earlier);
        assert(replies.last() == replies[replies.len() - 1]);
    }
}

/// Before every attempt the monitor sleeps for the ladder's delay of that attempt.
pub proof fn law_backoff_follows_ladder(monitor: SidecarMonitor, reply: MonitorReply)
    requires
        monitor.wf(),
    ensures
        ({
            let (next, action) = monitor.next(reply);
            next.phase == MonitorPhase::BackingOff ==> {
                &&& 1 <= next.window.attempts <= ladder().len()
                &&& action == (MonitorAction::Sleep { secs: ladder()[next.window.attempts - 1] })
            }
        }),
{
}

/// None of the replies comes after the end of the window.
pub open spec fn within_window(window: RestartWindow, replies: Seq<MonitorReply>) -> bool {
    forall|i: int|
        0 <= i < replies.len() ==> ((#[trigger] replies[i]) matches MonitorReply::Polled {
            now,
            ..
        } ==> !window.expired(now))
}

proof fn lemma_spawns_within_window(monitor: SidecarMonitor, replies: Seq<MonitorReply>)
    requires
        monitor.wf(),
        monitor.phase == MonitorPhase::Napping,
        within_window(monitor.window, replies),
    ensures
        ({
            let later = after_replies(monitor, replies);
            &&& later.wf()
            &&& later.window.start == monitor.window.start
            &&& monitor.window.attempts <= later.window.attempts
            &&& spawns(monitor, replies) + (if later.phase == MonitorPhase::BackingOff {
                1nat
            } else {
                0nat
            }) <= later.window.attempts - monitor.window.attempts
        }),
    decreases replies.len(),
{
    if replies.len() > 0 {
        let earlier = replies.drop_last();
        assert forall|i: int| 0 <= i < earlier.len() implies ((
        #[trigger] earlier[i]) matches MonitorReply::Polled { now, .. } ==> !monitor.window.expired(
            now,
        )) by {
            assert(earlier[i] == replies[i]);
        }
        lemma_spawns_within_window(monitor, earlier);
        assert(replies.last() == replies[replies.len() - 1]);
    }
}

/// Within one window the server is spawned at most as often as the ladder has
/// steps, whatever happens: the monitor never retries forever.
pub proof fn law_restarts_are_capped(monitor: SidecarMonitor, replies: Seq<MonitorReply>)
    requires
        monitor.wf(),
        monitor.phase == MonitorPhase::Napping,
        within_window(monitor.window, replies),
    ensures
        spawns(monitor, replies) <= ladder().len() - monitor.window.attempts,
{
    lemma_spawns_within_window(monitor, replies);
}

/// The monitor gives up exactly where the ladder is exhausted, and then it says
/// so and stops.
pub proof fn law_gives_up_loudly(monitor: SidecarMonitor, reply: MonitorReply)
    requires
        monitor.wf(),
    ensures
        monitor.next(reply).0.phase == MonitorPhase::GivingUp <==> monitor.next(reply).1 == (
        MonitorAction::Emit { status: Status::Failed, attempt: ladder().len() as usize }),
        monitor.next(reply).0.phase == MonitorPhase::GivingUp ==> monitor.window.delay() is None,
        monitor.window.delay() is None && ((monitor.phase == MonitorPhase::Announcing && reply
            == MonitorReply::Emitted) || (monitor.phase == MonitorPhase::Spawning && reply == (
        MonitorReply::Spawned { ok: false }))) ==> monitor.next(reply).0.phase
            == MonitorPhase::GivingUp,
        monitor.phase == MonitorPhase::GivingUp ==> monitor.next(reply).1 == MonitorAction::Stop,
{
}

/// Crashes far enough apart never exhaust the ladder: where the window has
/// expired when a crash is seen, the crash counts as the first.
pub proof fn law_unrelated_crashes_do_not_add_up(monitor: SidecarMonitor, now: u128)
    requires
        monitor.phase == MonitorPhase::Polling,
        monitor.window.expired(now),
    ensures
        ({
            let reply = MonitorReply::Polled { poll: SidecarPoll::Exited, halted: false, now };
            let (down, told) = monitor.next(reply);
            let (waiting, sleep) = down.next(MonitorReply::Emitted);
            &&& told == (MonitorAction::Emit { status: Status::Down, attempt: 1 })
            &&& sleep == (MonitorAction::Sleep { secs: 1 })
            &&& waiting.window == (RestartWindow { attempts: 1, start: now })
        }),
{
}

/// What is to be done next for a harness.
#[derive(Clone, Copy, PartialEq, Eq, Structural, Debug)]
pub enum HarnessAction {
    Sleep { secs: u64 },
    Poll,
    /// Pass on the event that [`harness_status_event`] makes of this.
    Emit { status: Status, attempt: usize },
    /// Spawn the harness again, with the monitor's `restart`.
    Spawn,
    RemoveLock,
    Stop,
}

/// What came of an action for a harness.
#[derive(Debug)]
pub enum HarnessReply {
    /// A sleep is over. `halted` says whether the harness is being stopped on
    /// purpose by now.
    Woke { halted: bool },
    /// The harness was polled, at `now`; `halted` was read afterwards.
    Polled { poll: PollExit, halted: bool, now: u128 },
    Emitted { now: u128 },
    LockRemoved,
    Spawned { ok: bool, now: u128 },
}

/// Monitors one harness.
#[derive(Debug)]
pub struct HarnessMonitor {
    pub window: RestartWindow,
    pub phase: MonitorPhase,
    /// What the harness is spawned with again, once it has exited.
    pub restart: Option<(LaunchSpec, u16)>,
}

impl HarnessMonitor {
    pub open spec fn at(self, phase: MonitorPhase) -> HarnessMonitor {
        HarnessMonitor { phase, ..self }
    }

    /// The next attempt to restart the harness at `now`: after the ladder's
    /// delay, or not at all once the ladder is exhausted within the window.
    pub open spec fn try_again(self, now: u128) -> (HarnessMonitor, HarnessAction) {
        let window = self.window.rolled(now);
        match window.delay() {
            Some(secs) => (
                HarnessMonitor {
                    window: window.advanced(),
                    phase: MonitorPhase::BackingOff,
                    ..self
                },
                HarnessAction::Sleep { secs },
            ),
            None => (
                HarnessMonitor { window, phase: MonitorPhase::ClearingLock, ..self },
                HarnessAction::RemoveLock,
            ),
        }
    }

    /// The monitor stops.
    pub open spec fn stop(self) -> (HarnessMonitor, HarnessAction) {
        (self.at(MonitorPhase::Stopped), HarnessAction::Stop)
    }

    /// The monitor after a reply, and what is done next.
    pub open spec fn next(self, reply: HarnessReply) -> (HarnessMonitor, HarnessAction) {
        match (self.phase, reply) {
            (MonitorPhase::Napping, HarnessReply::Woke { halted: false }) => {
                (self.at(MonitorPhase::Polling), HarnessAction::Poll)
            },
            (MonitorPhase::Polling, HarnessReply::Polled { poll: PollExit::Running, .. }) => (
                self.at(MonitorPhase::Napping),
                HarnessAction::Sleep { secs: POLL_INTERVAL_SECS },
            ),
            (
                MonitorPhase::Polling,
                HarnessReply::Polled { poll: PollExit::Exited { spec, port }, halted: false, now },
            ) => (
                HarnessMonitor {
                    phase: MonitorPhase::Announcing,
                    restart: Some((spec, port)),
                    ..self
                },
                HarnessAction::Emit {
                    status: Status::Down,
                    attempt: (self.window.rolled(now).attempts + 1) as usize,
                },
            ),
            (MonitorPhase::Announcing, HarnessReply::Emitted { now }) => self.try_again(now),
            (MonitorPhase::BackingOff, HarnessReply::Woke { halted: false }) => {
                (self.at(MonitorPhase::Spawning), HarnessAction::Spawn)
            },
            (MonitorPhase::Spawning, HarnessReply::Spawned { ok: true, .. }) => (
                self.at(MonitorPhase::Recovered),
                HarnessAction::Emit { status: Status::Restarted, attempt: self.window.attempts },
            ),
            (MonitorPhase::Spawning, HarnessReply::Spawned { ok: false, now }) => self.try_again(
                now,
            ),
            (MonitorPhase::Recovered, HarnessReply::Emitted { .. }) => (
                self.at(MonitorPhase::Napping),
                HarnessAction::Sleep { secs: POLL_INTERVAL_SECS },
            ),
            (MonitorPhase::ClearingLock, HarnessReply::LockRemoved) => (
                self.at(MonitorPhase::GivingUp),
                HarnessAction::Emit { status: Status::Failed, attempt: self.window.attempts },
            ),
            _ => self.stop(),
        }
    }

    /// No more attempts were made than the ladder has steps, and whatever is to
    /// be spawned again is known.
    pub open spec fn wf(self) -> bool {
        &&& self.window.attempts <= ladder().len()
        &&& match self.phase {
            MonitorPhase::Announcing
            | MonitorPhase::BackingOff
            | MonitorPhase::Spawning => self.restart is Some,
            _ => true,
        }
    }

    /// Starts to monitor, at `now`.
    pub fn new(now: u128) -> (begun: (HarnessMonitor, HarnessAction))
        ensures
            begun.0.wf(),
            begun.0 == (HarnessMonitor {
                window: RestartWindow { attempts: 0, start: now },
                phase: MonitorPhase::Napping,
                restart: None,
            }),
            begun.1 == (HarnessAction::Sleep { secs: POLL_INTERVAL_SECS }),
    {
        let monitor = HarnessMonitor {
            window: RestartWindow::new(now),
            phase: MonitorPhase::Napping,
            restart: None,
        };
        (monitor, HarnessAction::Sleep { secs: POLL_INTERVAL_SECS })
    }

    fn attempt(&mut self, now: u128) -> (action: HarnessAction)
        requires
            old(self).wf(),
            old(self).restart is Some,
        ensures
            final(self).wf(),
            (*final(self), action) == old(self).try_again(now),
    {
        match self.window.next_delay_at(now) {
            Some(secs) => {
                self.phase = MonitorPhase::BackingOff;
                HarnessAction::Sleep { secs }
            },
            None => {
                self.phase = MonitorPhase::ClearingLock;
                HarnessAction::RemoveLock
            },
        }
    }

    /// Takes the reply to the last action and says what is done next.
    pub fn step(&mut self, reply: HarnessReply) -> (action: HarnessAction)
        requires
            old(self).wf(),
        ensures
            final(self).wf(),
            (*final(self), action) == old(self).next(reply),
    {
        match (self.phase, reply) {
            (MonitorPhase::Napping, HarnessReply::Woke { halted: false }) => {
                self.phase = MonitorPhase::Polling;
                HarnessAction::Poll
            },
            (MonitorPhase::Polling, HarnessReply::Polled { poll: PollExit::Running, .. }) => {
                self.phase = MonitorPhase::Napping;
                HarnessAction::Sleep { secs: POLL_INTERVAL_SECS }
            },
            (
                MonitorPhase::Polling,
                HarnessReply::Polled { poll: PollExit::Exited { spec, port }, halted: false, now },
            ) => {
                let mut window = self.window;
                window.roll(now);
                self.phase = MonitorPhase::Announcing;
                self.restart = Some((spec, port));
                HarnessAction::Emit { status: Status::Down, attempt: window.attempts + 1 }
            },
            (MonitorPhase::Announcing, HarnessReply::Emitted { now }) => self.attempt(now),
            (MonitorPhase::BackingOff, HarnessReply::Woke { halted: false }) => {
                self.phase = MonitorPhase::Spawning;
                HarnessAction::Spawn
            },
            (MonitorPhase::Spawning, HarnessReply::Spawned { ok: true, .. }) => {
                self.phase = MonitorPhase::Recovered;
                HarnessAction::Emit { status: Status::Restarted, attempt: self.window.attempts }
            },
            (MonitorPhase::Spawning, HarnessReply::Spawned { ok: false, now }) => self.attempt(now),
            (MonitorPhase::Recovered, HarnessReply::Emitted { .. }) => {
                self.phase = MonitorPhase::Napping;
                HarnessAction::Sleep { secs: POLL_INTERVAL_SECS }
            },
            (MonitorPhase::ClearingLock, HarnessReply::LockRemoved) => {
                self.phase = MonitorPhase::GivingUp;
                HarnessAction::Emit { status: Status::Failed, attempt: self.window.attempts }
            },
            _ => {
                self.phase = MonitorPhase::Stopped;
                HarnessAction::Stop
            },
        }
    }
}

/// A harness that the supervisor holds as stopped on purpose, or that is caught
/// by a shutdown, is not restarted: whatever the monitor waits for, it stops,
/// unless the harness was seen running just then. A spawn follows only on a
/// reply that says the contrary.
pub proof fn law_halted_harness_is_not_restarted(
    view: SupervisorView,
    id: Seq<char>,
    monitor: HarnessMonitor,
    reply: HarnessReply,
)
    ensures
        view.halted(id) ==> monitor.next(HarnessReply::Woke { halted: view.halted(id) }).1
            == HarnessAction::Stop,
        (reply matches HarnessReply::Polled { poll, halted, .. } && halted && !(
        poll is Running)) ==> monitor.next(reply).1 == HarnessAction::Stop,
        monitor.next(reply).1 == HarnessAction::Spawn ==> reply == (HarnessReply::Woke {
            halted: false,
        }) && monitor.phase == MonitorPhase::BackingOff,
        monitor.phase == MonitorPhase::Stopped ==> monitor.next(reply) == monitor.stop(),
{
}

/// The monitor of a harness after some replies, in order.
pub open spec fn after_harness_replies(
    monitor: HarnessMonitor,
    replies: Seq<HarnessReply>,
) -> HarnessMonitor
    decreases replies.len(),
{
    if replies.len() == 0 {
        monitor
    } else {
        after_harness_replies(monitor, replies.drop_last()).next(replies.last()).0
    }
}

/// How often the harness was spawned in the course of these replies.
pub open spec fn harness_spawns(monitor: HarnessMonitor, replies: Seq<HarnessReply>) -> nat
    decreases replies.len(),
{
    if replies.len() == 0 {
        0
    } else {
        let before = after_harness_replies(monitor, replies.drop_last());
        harness_spawns(monitor, replies.drop_last()) + if before.next(replies.last()).1
            == HarnessAction::Spawn {
            1nat
        } else {
            0nat
        }
    }
}

/// Once a harness was stopped on purpose or all is shut down, it is not spawned
/// any more, whatever follows.
pub proof fn law_halted_harness_is_never_spawned(
    monitor: HarnessMonitor,
    replies: Seq<HarnessReply>,
)
    requires
        forall|i: int|
            0 <= i < replies.len() ==> ((#[trigger] replies[i]) matches HarnessReply::Woke {
                halted,
            } ==> halted),
    ensures
        harness_spawns(monitor, replies) == 0,
    decreases replies.len(),
{
    if replies.len() > 0 {
        let earlier = replies.drop_last();
        assert forall|i: int| 0 <= i < earlier.len() implies ((
        #[trigger] earlier[i]) matches HarnessReply::Woke { halted } ==> halted) by {
            assert(earlier[i] == replies[i]);
        }
        law_halted_harness_is_never_spawned(monitor, earlier);
        assert(replies.last() == replies[replies.len() - 1]);
    }
}

/// Before every attempt the monitor of a harness sleeps for the ladder's delay of
/// that attempt.
pub proof fn law_harness_backoff_follows_ladder(monitor: HarnessMonitor, reply: HarnessReply)
    requires
        monitor.wf(),
    ensures
        ({
            let (next, action) = monitor.next(reply);
            next.phase == MonitorPhase::BackingOff ==> {
                &&& 1 <= next.window.attempts <= ladder().len()
                &&& action == (HarnessAction::Sleep { secs: ladder()[next.window.attempts - 1] })
            }
        }),
{
}

/// The moment at which a reply makes the monitor look at its window.
pub open spec fn reply_time(reply: HarnessReply) -> Option<u128> {
    match reply {
        HarnessReply::Emitted { now } => Some(now),
        HarnessReply::Spawned { now, .. } => Some(now),
        _ => None,
    }
}

/// None of the replies comes after the end of the window.
pub open spec fn harness_within_window(window: RestartWindow, replies: Seq<HarnessReply>) -> bool {
    forall|i: int|
        0 <= i < replies.len() ==> (reply_time(#[trigger] replies[i]) matches Some(now)
            ==> !window.expired(now))
}

proof fn lemma_harness_spawns_within_window(monitor: HarnessMonitor, replies: Seq<HarnessReply>)
    requires
        monitor.wf(),
        monitor.phase == MonitorPhase::Napping,
        harness_within_window(monitor.window, replies),
    ensures
        ({
            let later = after_harness_replies(monitor, replies);
            &&& later.wf()
            &&& later.window.start == monitor.window.start
            &&& monitor.window.attempts <= later.window.attempts
            &&& harness_spawns(monitor, replies) + (if later.phase == MonitorPhase::BackingOff {
                1nat
            } else {
                0nat
            }) <= later.window.attempts - monitor.window.attempts
        }),
    decreases replies.len(),
{
    if replies.len() > 0 {
        let earlier = replies.drop_last();
        assert forall|i: int| 0 <= i < earlier.len() implies (reply_time(
            #[trigger] earlier[i],
        ) matches Some(now) ==> !monitor.window.expired(now)) by {
            assert(earlier[i] == replies[i]);
        }
        lemma_harness_spawns_within_window(monitor, earlier);
        assert(replies.last() == replies[replies.len() - 1]);
    }
}

/// Within one window a harness is spawned at most as often as the ladder has
/// steps, whatever happens.
pub proof fn law_harness_restarts_are_capped(monitor: HarnessMonitor, replies: Seq<HarnessReply>)
    requires
        monitor.wf(),
        monitor.phase == MonitorPhase::Napping,
        harness_within_window(monitor.window, replies),
    ensures
        harness_spawns(monitor, replies) <= ladder().len() - monitor.window.attempts,
{
    lemma_harness_spawns_within_window(monitor, replies);
}

/// Where the ladder is exhausted within the window, be it after a crash or after
/// a spawn that failed, the harness's lock is removed, the user is told, and the
/// monitor stops.
pub proof fn law_harness_gives_up_loudly(monitor: HarnessMonitor, now: u128, last: HarnessReply)
    requires
        monitor.wf(),
        monitor.phase == MonitorPhase::Announcing || monitor.phase == MonitorPhase::Spawning,
        monitor.window.rolled(now).delay() is None,
    ensures
        ({
            let reply = if monitor.phase == MonitorPhase::Announcing {
                HarnessReply::Emitted { now }
            } else {
                HarnessReply::Spawned { ok: false, now }
            };
            let (clearing, remove) = monitor.next(reply);
            let (telling, tell) = clearing.next(HarnessReply::LockRemoved);
            &&& remove == HarnessAction::RemoveLock
            &&& tell == (HarnessAction::Emit {
                status: Status::Failed,
                attempt: ladder().len() as usize,
            })
            &&& telling.next(last).1 == HarnessAction::Stop
        }),
{
}

/// A harness is restarted with the specification and the port that it had when
/// it exited: every attempt keeps them, until the next exit.
pub proof fn law_restart_inputs_are_kept(monitor: HarnessMonitor, reply: HarnessReply)
    requires
        monitor.wf(),
    ensures
        monitor.next(reply).1 == HarnessAction::Spawn ==> monitor.next(reply).0.restart is Some,
        match reply {
            HarnessReply::Polled { poll: PollExit::Exited { spec, port }, halted, .. } => {
                monitor.phase == MonitorPhase::Polling && !halted ==> monitor.next(reply).0.restart
                    == Some((spec, port))
            },
            _ => monitor.next(reply).0.restart == monitor.restart,
        },
{
}

/// The names of the statuses.
pub proof fn law_status_names(status: Status)
    ensures
        status == Status::Down ==> status.name() == "down"@,
        status == Status::Restarted ==> status.name() == "restarted"@,
        status == Status::Failed ==> status.name() == "failed"@,
{
}

/// A server that runs is polled every second, as long as nothing is shut down.
pub proof fn law_running_server_is_polled(monitor: SidecarMonitor, halted: bool, now: u128)
    ensures
        monitor.phase == MonitorPhase::Napping ==> monitor.next(
            MonitorReply::Woke { halted: false },
        ).1 == MonitorAction::Poll,
        monitor.phase == MonitorPhase::Napping ==> monitor.next(
            MonitorReply::Woke { halted: false },
        ).0 == (SidecarMonitor { window: monitor.window, phase: MonitorPhase::Polling }),
        monitor.phase == MonitorPhase::Polling ==> monitor.next(
            MonitorReply::Polled { poll: SidecarPoll::Running, halted, now },
        ) == (
            SidecarMonitor { window: monitor.window, phase: MonitorPhase::Napping },
            MonitorAction::Sleep { secs: 1 },
        ),
        monitor.phase == MonitorPhase::Polling ==> monitor.next(
            MonitorReply::Polled { poll: SidecarPoll::Absent, halted, now },
        ).1 == MonitorAction::Stop,
{
}

/// A server that has crashed is always announced as down and, while the ladder is
/// not exhausted, spawned again after its delay; once it runs it is announced as
/// restarted and polled as before. Attempts are counted from those already made
/// within five minutes.
pub proof fn law_crashed_server_is_restarted(monitor: SidecarMonitor, now: u128)
    requires
        monitor.phase == MonitorPhase::Polling,
        monitor.window.attempts <= 5,
    ensures
        ({
            let made = if now > monitor.window.start + 300_000_000_000 {
                0int
            } else {
                monitor.window.attempts as int
            };
            let (down, told) = monitor.next(
                MonitorReply::Polled { poll: SidecarPoll::Exited, halted: false, now },
            );
            let (waiting, sleep) = down.next(MonitorReply::Emitted);
            let (spawning, spawn) = waiting.next(MonitorReply::Woke { halted: false });
            let (running, again) = spawning.next(MonitorReply::Spawned { ok: true });
            let (napping, nap) = running.next(MonitorReply::Emitted);
            &&& told == (MonitorAction::Emit { status: Status::Down, attempt: (made + 1) as usize })
            &&& made < 5 ==> {
                &&& made == 0 ==> sleep == (MonitorAction::Sleep { secs: 1 })
                &&& made == 1 ==> sleep == (MonitorAction::Sleep { secs: 2 })
                &&& made >= 2 ==> sleep == (MonitorAction::Sleep { secs: 5 })
                &&& spawn == MonitorAction::Spawn
                &&& again == (MonitorAction::Emit {
                    status: Status::Restarted,
                    attempt: (made + 1) as usize,
                })
                &&& nap == (MonitorAction::Sleep { secs: 1 })
                &&& napping.phase == MonitorPhase::Napping
                &&& napping.window.attempts == made + 1
                &&& napping.window.start == down.window.start
            }
            &&& made == 5 ==> sleep == (MonitorAction::Emit { status: Status::Failed, attempt: 5 })
        }),
{
}

/// A spawn that fails uses up its attempt: the next one follows after its delay, or
/// the server is given up after the fifth.
pub proof fn law_failed_spawn_counts(monitor: SidecarMonitor)
    requires
        monitor.phase == MonitorPhase::Spawning,
        monitor.window.attempts <= 5,
    ensures
        ({
            let made = monitor.window.attempts;
            let (later, action) = monitor.next(MonitorReply::Spawned { ok: false });
            &&& made == 1 ==> action == (MonitorAction::Sleep { secs: 2 })
            &&& 2 <= made <= 4 ==> action == (MonitorAction::Sleep { secs: 5 })
            &&& made < 5 ==> later.phase == MonitorPhase::BackingOff && later.window.attempts
                == made + 1
            &&& made == 5 ==> action == (MonitorAction::Emit { status: Status::Failed, attempt: 5 })
                && later.next(MonitorReply::Emitted).1 == MonitorAction::Stop
        }),
{
}

/// A harness that runs is polled every second, as long as it is not halted.
pub proof fn law_running_harness_is_polled(monitor: HarnessMonitor, halted: bool, now: u128)
    ensures
        monitor.phase == MonitorPhase::Napping ==> {
            let (polling, action) = monitor.next(HarnessReply::Woke { halted: false });
            &&& action == HarnessAction::Poll
            &&& polling.phase == MonitorPhase::Polling
            &&& polling.window == monitor.window
        },
        monitor.phase == MonitorPhase::Polling ==> {
            let (napping, action) = monitor.next(
                HarnessReply::Polled { poll: PollExit::Running, halted, now },
            );
            &&& action == (HarnessAction::Sleep { secs: 1 })
            &&& napping.phase == MonitorPhase::Napping
            &&& napping.window == monitor.window
        },
        monitor.phase == MonitorPhase::Polling ==> monitor.next(
            HarnessReply::Polled { poll: PollExit::Absent, halted, now },
        ).1 == HarnessAction::Stop,
{
}

/// A harness that has crashed and was not stopped on purpose is announced as down
/// and spawned again, with the specification and the port that it had: what the
/// supervisor holds after the exit does not keep the monitor from it.
pub proof fn law_crashed_harness_is_restarted(
    view: SupervisorView,
    id: Seq<char>,
    monitor: HarnessMonitor,
    now: u128,
)
    requires
        view.children.dom().contains(id),
        !view.shutting_down,
        !view.stopping.contains(id),
        monitor.phase == MonitorPhase::Polling,
        monitor.window.attempts <= 5,
    ensures
        ({
            let made = if now > monitor.window.start + 300_000_000_000 {
                0int
            } else {
                monitor.window.attempts as int
            };
            let harness = view.children[id];
            let halted = view.exited(id).halted(id);
            let poll = PollExit::Exited { spec: harness.spec, port: harness.port };
            let (down, told) = monitor.next(HarnessReply::Polled { poll, halted, now });
            let (waiting, sleep) = down.next(HarnessReply::Emitted { now });
            let (spawning, spawn) = waiting.next(HarnessReply::Woke { halted });
            let (running, again) = spawning.next(HarnessReply::Spawned { ok: true, now });
            let (napping, nap) = running.next(HarnessReply::Emitted { now });
            &&& told == (HarnessAction::Emit { status: Status::Down, attempt: (made + 1) as usize })
            &&& made < 5 ==> {
                &&& made == 0 ==> sleep == (HarnessAction::Sleep { secs: 1 })
                &&& made == 1 ==> sleep == (HarnessAction::Sleep { secs: 2 })
                &&& made >= 2 ==> sleep == (HarnessAction::Sleep { secs: 5 })
                &&& spawn == HarnessAction::Spawn
                &&& spawning.restart == Some((harness.spec, harness.port))
                &&& again == (HarnessAction::Emit {
                    status: Status::Restarted,
                    attempt: (made + 1) as usize,
                })
                &&& nap == (HarnessAction::Sleep { secs: 1 })
                &&& napping.phase == MonitorPhase::Napping
                &&& napping.window.attempts == made + 1
            }
            &&& made == 5 ==> sleep == HarnessAction::RemoveLock
        }),
{
}

/// After a crash was announced, and after a spawn of a harness that failed, the next
/// attempt follows after its delay, or the harness is given up after the fifth
/// within five minutes, by the time that it is then.
pub proof fn law_failed_harness_spawn_counts(monitor: HarnessMonitor, now: u128)
    requires
        monitor.phase == MonitorPhase::Spawning || monitor.phase == MonitorPhase::Announcing,
        monitor.window.attempts <= 5,
    ensures
        ({
            let made = if now > monitor.window.start + 300_000_000_000 {
                0int
            } else {
                monitor.window.attempts as int
            };
            let reply = if monitor.phase == MonitorPhase::Spawning {
                HarnessReply::Spawned { ok: false, now }
            } else {
                HarnessReply::Emitted { now }
            };
            let (later, action) = monitor.next(reply);
            &&& made == 0 ==> action == (HarnessAction::Sleep { secs: 1 })
            &&& made == 1 ==> action == (HarnessAction::Sleep { secs: 2 })
            &&& 2 <= made <= 4 ==> action == (HarnessAction::Sleep { secs: 5 })
            &&& made < 5 ==> later.phase == MonitorPhase::BackingOff && later.window.attempts
                == made + 1 && later.restart == monitor.restart
            &&& now > monitor.window.start + 300_000_000_000 ==> later.window.start == now
            &&& now <= monitor.window.start + 300_000_000_000 ==> later.window.start
                == monitor.window.start
            &&& made == 5 ==> action == HarnessAction::RemoveLock
        }),
{
}

/// A reply that does not answer the last action stops a monitor: no phase goes on
/// with a reply that is not meant for it.
pub proof fn law_unexpected_reply_stops(
    monitor: SidecarMonitor,
    reply: MonitorReply,
    harness: HarnessMonitor,
    other: HarnessReply,
)
    ensures
        (monitor.phase == MonitorPhase::Napping || monitor.phase == MonitorPhase::BackingOff)
            && !(reply is Woke) ==> monitor.next(reply).1 == MonitorAction::Stop,
        monitor.phase == MonitorPhase::Polling && !(reply is Polled) ==> monitor.next(reply).1
            == MonitorAction::Stop,
        monitor.phase == MonitorPhase::Spawning && !(reply is Spawned) ==> monitor.next(reply).1
            == MonitorAction::Stop,
        (monitor.phase == MonitorPhase::Announcing || monitor.phase == MonitorPhase::Recovered)
            && !(reply is Emitted) ==> monitor.next(reply).1 == MonitorAction::Stop,
        monitor.phase == MonitorPhase::GivingUp || monitor.phase == MonitorPhase::Stopped
            ==> monitor.next(reply).1 == MonitorAction::Stop,
        monitor.next(reply).1 == MonitorAction::Stop ==> monitor.next(reply).0.phase
            == MonitorPhase::Stopped,
        (harness.phase == MonitorPhase::Napping || harness.phase == MonitorPhase::BackingOff)
            && !(other is Woke) ==> harness.next(other).1 == HarnessAction::Stop,
        harness.phase == MonitorPhase::Polling && !(other is Polled) ==> harness.next(other).1
            == HarnessAction::Stop,
        harness.phase == MonitorPhase::Spawning && !(other is Spawned) ==> harness.next(other).1
            == HarnessAction::Stop,
        (harness.phase == MonitorPhase::Announcing || harness.phase == MonitorPhase::Recovered)
            && !(other is Emitted) ==> harness.next(other).1 == HarnessAction::Stop,
        harness.phase == MonitorPhase::GivingUp || harness.phase == MonitorPhase::Stopped
            ==> harness.next(other).1 == HarnessAction::Stop,
        harness.next(other).1 == HarnessAction::Stop ==> harness.next(other).0.phase
            == MonitorPhase::Stopped,
{
}

} // verus!
