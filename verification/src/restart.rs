//! The restart ladder: capped backoff, with a window after which the count of
//! attempts starts anew.
//!
//! The ladder is short and capped. A process that dies is either unlucky for a
//! moment, and then a second or two is enough, or broken in a way that waiting
//! does not mend, and then someone has to be told.

use vstd::prelude::*;

verus! {

/// Restarts within one window before giving up.
pub const RESTART_ATTEMPTS: usize = 5;

/// Length of the window, in nanoseconds: five minutes.
pub const RESTART_WINDOW_NANOS: u128 = 300_000_000_000;

/// Backoff delays, in seconds, of the attempts within one window.
pub open spec fn ladder() -> Seq<u64> {
    seq![1, 2, 5, 5, 5]
}

/// The delay before attempt number `attempt`, counted from zero.
fn ladder_delay(attempt: usize) -> (secs: u64)
    requires
        attempt < RESTART_ATTEMPTS,
    ensures
        secs == ladder()[attempt as int],
{
    match attempt {
        0 => 1,
        1 => 2,
        _ => 5,
    }
}

/// Attempts made since the window was opened. Times are nanoseconds on one
/// monotonic clock.
#[derive(Clone, Copy, Debug)]
pub struct RestartWindow {
    pub attempts: usize,
    pub start: u128,
}

impl RestartWindow {
    /// More than the length of the window has passed at `now`.
    pub open spec fn expired(self, now: u128) -> bool {
        now - self.start > RESTART_WINDOW_NANOS
    }

    /// The window at `now`: a fresh one where this one has expired.
    pub open spec fn rolled(self, now: u128) -> RestartWindow {
        if self.expired(now) {
            RestartWindow { attempts: 0, start: now }
        } else {
            self
        }
    }

    /// The delay before the next attempt, nothing where all were used.
    pub open spec fn delay(self) -> Option<u64> {
        if self.attempts < ladder().len() {
            Some(ladder()[self.attempts as int])
        } else {
            None
        }
    }

    /// The window after the next attempt was handed out.
    pub open spec fn advanced(self) -> RestartWindow {
        if self.attempts < ladder().len() {
            RestartWindow { attempts: (self.attempts + 1) as usize, start: self.start }
        } else {
            self
        }
    }

    /// Opens a window without attempts.
    pub fn new(now: u128) -> (window: RestartWindow)
        ensures
            window == (RestartWindow { attempts: 0, start: now }),
    {
        RestartWindow { attempts: 0, start: now }
    }

    /// Starts the count anew where the window has expired.
    pub fn roll(&mut self, now: u128)
        ensures
            *final(self) == old(self).rolled(now),
    {
        if now > self.start && now - self.start > RESTART_WINDOW_NANOS {
            self.attempts = 0;
            self.start = now;
        }
    }

    /// Hands out the next attempt: its delay in seconds, or nothing once the
    /// ladder is exhausted.
    pub fn take_attempt(&mut self) -> (secs: Option<u64>)
        ensures
            secs == old(self).delay(),
            *final(self) == old(self).advanced(),
    {
        if self.attempts >= RESTART_ATTEMPTS {
            return None;
        }
        let secs: u64 = ladder_delay(self.attempts);
        self.attempts = self.attempts + 1;
        Some(secs)
    }

    /// The delay before the next attempt at `now`, or nothing once the ladder is
    /// exhausted within the window. Starts the count anew where the window has
    /// expired.
    pub fn next_delay_at(&mut self, now: u128) -> (secs: Option<u64>)
        ensures
            secs == old(self).rolled(now).delay(),
            *final(self) == old(self).rolled(now).advanced(),
    {
        self.roll(now);
        self.take_attempt()
    }
}

/// The window after one delay was asked for at each of `times`, in order.
pub open spec fn after_calls(window: RestartWindow, times: Seq<u128>) -> RestartWindow
    decreases times.len(),
{
    if times.len() == 0 {
        window
    } else {
        after_calls(window, times.drop_last()).rolled(times.last()).advanced()
    }
}

/// The answer to the last of the calls made at `times`.
pub open spec fn last_delay(window: RestartWindow, times: Seq<u128>) -> Option<u64>
    recommends
        times.len() > 0,
{
    after_calls(window, times.drop_last()).rolled(times.last()).delay()
}

/// As long as no call comes after the window's end, the ladder is climbed one
/// step per call and, once it is exhausted, every further call is refused.
pub proof fn law_ladder_within_window(window: RestartWindow, times: Seq<u128>)
    requires
        forall|i: int| 0 <= i < times.len() ==> !window.expired(#[trigger] times[i]),
    ensures
        after_calls(window, times).start == window.start,
        window.attempts + times.len() <= ladder().len() ==> after_calls(window, times).attempts
            == window.attempts + times.len(),
        window.attempts <= ladder().len() <= window.attempts + times.len() ==> after_calls(
            window,
            times,
        ).attempts == ladder().len(),
        times.len() > 0 && window.attempts <= ladder().len() ==> last_delay(window, times) == (
        if window.attempts + times.len() <= ladder().len() {
            Some(ladder()[window.attempts + times.len() - 1])
        } else {
            None
        }),
    decreases times.len(),
{
    if times.len() > 0 {
        let earlier = times.drop_last();
        assert forall|i: int| 0 <= i < earlier.len() implies !window.expired(
            #[trigger] earlier[i],
        ) by {
            assert(earlier[i] == times[i]);
        }
        law_ladder_within_window(window, earlier);
        assert(!window.expired(times[times.len() - 1]));
    }
}

/// A window never opens later than the last call, on a clock that does not run
/// backwards.
pub proof fn law_window_opens_before_last_call(window: RestartWindow, times: Seq<u128>)
    requires
        times.len() > 0,
        window.start <= times[0],
        forall|i: int, j: int| 0 <= i <= j < times.len() ==> times[i] <= times[j],
    ensures
        after_calls(window, times).start <= times.last(),
    decreases times.len(),
{
    if times.len() > 1 {
        let earlier = times.drop_last();
        assert(earlier[0] == times[0]);
        law_window_opens_before_last_call(window, earlier);
        assert(earlier.last() <= times.last());
    } else {
        assert(after_calls(window, times.drop_last()) == window);
    }
}

/// After more than five minutes without a failure the ladder starts again from
/// its first step, whatever came before.
pub proof fn law_health_resets_ladder(window: RestartWindow, times: Seq<u128>, now: u128)
    requires
        times.len() > 0,
        window.start <= times[0],
        forall|i: int, j: int| 0 <= i <= j < times.len() ==> times[i] <= times[j],
        now - times.last() > RESTART_WINDOW_NANOS,
    ensures
        last_delay(window, times.push(now)) == Some(1u64),
        after_calls(window, times.push(now)) == (RestartWindow { attempts: 1, start: now }),
{
    law_window_opens_before_last_call(window, times);
    assert(times.push(now).drop_last() =~= times);
}

/// The moment at which a tracker was made.
#[verifier::external_type_specification]
#[verifier::external_body]
pub struct ExInstant(std::time::Instant);

/// Calls `std::time::Instant::now`. Nothing is claimed of the moment.
#[verifier::external_body]
fn clock_now() -> std::time::Instant {
    std::time::Instant::now()
}

/// Calls `std::time::Instant::elapsed`, in nanoseconds. Nothing is claimed of
/// how much time has passed.
#[verifier::external_body]
fn nanos_since(start: &std::time::Instant) -> u128 {
    start.elapsed().as_nanos()
}

/// Tracks restart attempts with capped backoff and a reset window, by the
/// machine's monotonic clock.
pub struct RestartTracker {
    clock: std::time::Instant,
    window: RestartWindow,
}

impl RestartTracker {
    /// The attempts counted so far, on a clock that started with the tracker.
    pub closed spec fn window(self) -> RestartWindow {
        self.window
    }

    /// The moment that the clock counts from.
    pub closed spec fn clock(self) -> std::time::Instant {
        self.clock
    }

    /// Next backoff delay in seconds, or nothing once the cap is exhausted
    /// within the window. Starts the count anew where the window has expired.
    /// What the clock reads decides whether it has; the clock runs on.
    pub fn next_delay(&mut self) -> (secs: Option<u64>)
        ensures
            final(self).clock() == old(self).clock(),
            exists|now: u128|
                {
                    &&& secs == #[trigger] old(self).window().rolled(now).delay()
                    &&& final(self).window() == old(self).window().rolled(now).advanced()
                },
            old(self).window().attempts < ladder().len() ==> secs is Some,
            old(self).window().attempts == 0 ==> secs == Some(1u64),
    {
        let now: u128 = nanos_since(&self.clock);
        let secs: Option<u64> = self.window.next_delay_at(now);
        assert(secs == old(self).window().rolled(now).delay());
        secs
    }
}

impl Default for RestartTracker {
    /// No attempts yet, in a window that opens now.
    fn default() -> (tracker: Self)
        ensures
            tracker.window() == (RestartWindow { attempts: 0, start: 0 }),
    {
        RestartTracker { clock: clock_now(), window: RestartWindow::new(0) }
    }
}

/// A window is judged by the time since it was opened: up to five minutes it stays
/// as it is, and after that a fresh one is opened, whatever the clock reads.
pub proof fn law_window_lasts_five_minutes(window: RestartWindow, now: u128)
    ensures
        now <= window.start + 300_000_000_000 ==> window.rolled(now) == window,
        now > window.start + 300_000_000_000 ==> window.rolled(now).attempts == 0 && window.rolled(
            now,
        ).start == now,
{
}

/// The time at which everything happens does not matter: moving the window and the
/// clock by the same amount moves the outcome by that amount and changes nothing
/// else.
pub proof fn law_window_moves_with_the_clock(
    window: RestartWindow,
    now: u128,
    moved: RestartWindow,
    later: u128,
)
    requires
        window.attempts == moved.attempts,
        later - now == moved.start - window.start,
    ensures
        window.rolled(now).attempts == moved.rolled(later).attempts,
        moved.rolled(later).start - window.rolled(now).start == later - now,
        window.rolled(now).delay() == moved.rolled(later).delay(),
{
}

/// The delays of one window are one second, two seconds, and then five seconds
/// three times; each attempt is counted, and after the fifth there is none.
pub proof fn law_delays_of_a_window(window: RestartWindow)
    ensures
        window.attempts == 0 ==> window.delay() == Some(1u64),
        window.attempts == 1 ==> window.delay() == Some(2u64),
        2 <= window.attempts <= 4 ==> window.delay() == Some(5u64),
        window.attempts >= 5 ==> window.delay() is None,
        window.attempts < 5 ==> window.advanced().attempts == window.attempts + 1,
        window.attempts >= 5 ==> window.advanced().attempts == window.attempts,
        window.advanced().start == window.start,
{
}

/// A process that crashes six times within five minutes is given up, at whatever
/// time the first crash comes, as long as it is the one that opens the window.
pub proof fn law_crash_loop_is_given_up(window: RestartWindow, times: Seq<u128>)
    requires
        times.len() == 6,
        forall|i: int, j: int| 0 <= i <= j < 6 ==> times[i] <= times[j],
        times[5] - times[0] <= 300_000_000_000,
        times[0] > window.start + 300_000_000_000 || (window.attempts == 0 && window.start
            == times[0]),
    ensures
        last_delay(window, times.take(1)) == Some(1u64),
        last_delay(window, times.take(2)) == Some(2u64),
        last_delay(window, times.take(3)) == Some(5u64),
        last_delay(window, times.take(4)) == Some(5u64),
        last_delay(window, times.take(5)) == Some(5u64),
        last_delay(window, times.take(6)) is None,
{
    reveal_with_fuel(after_calls, 7);
    assert(times.take(1).drop_last() =~= times.take(0));
    assert(times.take(2).drop_last() =~= times.take(1));
    assert(times.take(3).drop_last() =~= times.take(2));
    assert(times.take(4).drop_last() =~= times.take(3));
    assert(times.take(5).drop_last() =~= times.take(4));
    assert(times.take(6).drop_last() =~= times.take(5));
    assert(times[0] <= times[1] && times[1] <= times[5]);
    assert(times[0] <= times[2] && times[2] <= times[5]);
    assert(times[0] <= times[3] && times[3] <= times[5]);
    assert(times[0] <= times[4] && times[4] <= times[5]);
    assert(after_calls(window, times.take(1)) == (RestartWindow { attempts: 1, start: times[0] }));
    assert(after_calls(window, times.take(2)) == (RestartWindow { attempts: 2, start: times[0] }));
    assert(after_calls(window, times.take(3)) == (RestartWindow { attempts: 3, start: times[0] }));
    assert(after_calls(window, times.take(4)) == (RestartWindow { attempts: 4, start: times[0] }));
    assert(after_calls(window, times.take(5)) == (RestartWindow { attempts: 5, start: times[0] }));
}

} // verus!
