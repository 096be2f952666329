//! Pacing: how long to wait before the next capture so that captures are an
//! interval apart, on a clock counted in nanoseconds.
//!
//! The next capture is due one interval after the last one started. A capture
//! that comes late is not waited for, and the time it lost is not made up for:
//! the schedule starts again from it.

use vstd::prelude::*;

verus! {

/// The number of nanoseconds in a second.
pub const NANOS_PER_SECOND: u32 = 1_000_000_000;

/// The schedule of a paced loop.
#[derive(Debug, Clone, Copy, PartialEq, Eq, Structural)]
pub struct Pacing {
    /// The time between the starts of two captures, in nanoseconds.
    pub interval: u64,
    /// When the next capture is due; `None` before the first capture.
    pub next_due: Option<u64>,
}

impl Pacing {
    /// How long a loop that stands at `now` waits before it captures: the
    /// time left until the next capture is due, and nothing where none is
    /// scheduled or the due time has passed.
    pub open spec fn wait_at(self, now: u64) -> u64 {
        match self.next_due {
            Some(due) => if due > now {
                (due - now) as u64
            } else {
                0
            },
            None => 0,
        }
    }

    /// The schedule once a capture has started at `now`.
    pub open spec fn after(self, now: u64) -> Pacing {
        Pacing { interval: self.interval, next_due: Some((now + self.interval) as u64) }
    }

    /// The schedule and the clock once `n` captures in a row have started,
    /// the first no sooner than `now`, each as soon as the schedule lets it
    /// and none taking any time.
    pub open spec fn run(self, now: u64, n: nat) -> (Pacing, u64)
        decreases n,
    {
        if n == 0 {
            (self, now)
        } else {
            let (pacing, clock) = self.run(now, (n - 1) as nat);
            let wake = (clock + pacing.wait_at(clock)) as u64;
            (pacing.after(wake), wake)
        }
    }

    /// A schedule on which nothing is due yet.
    pub fn new(interval: u64) -> (pacing: Pacing)
        ensures
            pacing == (Pacing { interval, next_due: None }),
    {
        Pacing { interval, next_due: None }
    }

    /// How long to wait at `now` before the next capture.
    pub fn delay(&self, now: u64) -> (wait: u64)
        ensures
            wait == self.wait_at(now),
    {
        match self.next_due {
            Some(due) => if due > now {
                due - now
            } else {
                0
            },
            None => 0,
        }
    }

    /// Records that a capture starts at `now`: the next one is due an
    /// interval later.
    pub fn started(&mut self, now: u64)
        requires
            now + old(self).interval <= u64::MAX,
        ensures
            *final(self) == old(self).after(now),
    {
        self.next_due = Some(now + self.interval);
    }
}

impl Pacing {
    /// Paces one capture at `now`: returns the time at which the capture
    /// starts, which is `now` or the time it is due if that is later, and
    /// schedules the next capture an interval after that.
    pub fn pace(&mut self, now: u64) -> (wake: u64)
        requires
            now + old(self).wait_at(now) + old(self).interval <= u64::MAX,
        ensures
            wake == now + old(self).wait_at(now),
            (*final(self), wake) == old(self).run(now, 1),
    {
        let wake = now + self.delay(now);
        self.started(wake);
        assert(old(self).run(now, 0) == (*old(self), now));
        wake
    }
}

/// Captures in a row that take no time are an interval apart: from a schedule
/// on which nothing is due, the first starts at once and the `n`-th starts
/// `n - 1` intervals later.
pub proof fn lemma_back_to_back_captures(interval: u64, now: u64, n: nat)
    requires
        n >= 1,
        now + n * interval <= u64::MAX,
    ensures
        (Pacing { interval, next_due: None }).run(now, n) == (
            Pacing { interval, next_due: Some((now + n * interval) as u64) },
            (now + (n - 1) * interval) as u64,
        ),
    decreases n,
{
    let idle = Pacing { interval, next_due: None };
    if n == 1 {
        assert(idle.run(now, 0) == (idle, now));
        assert(n * interval == interval && (n - 1) * interval == 0) by (nonlinear_arith)
            requires
                n == 1,
        ;
    } else {
        let due = now + (n - 1) * interval;
        let clock = now + (n - 2) * interval;
        assert(0 <= (n - 2) * interval && (n - 2) * interval + interval == (n - 1) * interval
            && (n - 1) * interval + interval == n * interval) by (nonlinear_arith)
            requires
                n >= 2,
                interval >= 0,
        ;
        lemma_back_to_back_captures(interval, now, (n - 1) as nat);
        let before = idle.run(now, (n - 1) as nat);
        assert(before.0 == (Pacing { interval, next_due: Some(due as u64) }));
        assert(before.1 == clock as u64);
        assert(before.0.wait_at(before.1) == due - clock);
        assert(idle.run(now, n) == (before.0.after(due as u64), due as u64));
    }
}

/// A loop whose capture has just started and took no time waits exactly one
/// interval before the next.
pub proof fn lemma_back_to_back_wait(interval: u64, now: u64)
    requires
        now + interval <= u64::MAX,
    ensures
        (Pacing { interval, next_due: Some((now + interval) as u64) }).wait_at(now) == interval,
{
}

/// The first capture of a loop is not waited for.
pub proof fn lemma_first_capture_is_immediate(interval: u64, now: u64)
    ensures
        (Pacing { interval, next_due: None }).wait_at(now) == 0,
{
}

/// A capture that starts at or after its due time is not waited for, however
/// late it is.
pub proof fn lemma_late_capture_is_immediate(interval: u64, due: u64, now: u64)
    requires
        due <= now,
    ensures
        (Pacing { interval, next_due: Some(due) }).wait_at(now) == 0,
{
}

} // verus!
