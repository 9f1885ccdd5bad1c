//! Repeated runs: on a fixed interval, or whenever the source changes. A
//! scheduler decides what its driver does next; the driver runs the
//! backup, sleeps, or waits on the queue of change events, and reports
//! back. Neither scheduler stops because a run failed.

use crate::filter::ConfigError;
use crate::protocol::RunOutcome;
use vstd::prelude::*;

verus! {

/// What the driver of an interval schedule reports.
#[derive(Clone, Copy, Debug, PartialEq, Eq, Structural)]
pub enum IntervalSignal {
    /// The schedule starts.
    Begin,
    /// A run ended after this many whole seconds, in this way.
    RunEnded { elapsed_seconds: u64, outcome: RunOutcome },
    /// The sleep is over.
    Woke,
}

/// What the driver of an interval schedule does next.
#[derive(Clone, Copy, Debug, PartialEq, Eq, Structural)]
pub enum IntervalDirective {
    /// Run the backup once, timing it.
    Run,
    /// Sleep for this many seconds.
    Sleep(u64),
}

/// What is left of the interval after a run: nothing where the run took
/// the whole interval or longer.
pub open spec fn remaining(interval: u64, elapsed: u64) -> u64 {
    if elapsed < interval {
        (interval - elapsed) as u64
    } else {
        0
    }
}

/// What an interval schedule makes of a signal: a run at the start and
/// after each sleep; after a run, a sleep for what is left of the
/// interval, or the next run at once where nothing is left.
pub open spec fn interval_directive(interval: u64, signal: IntervalSignal) -> IntervalDirective {
    match signal {
        IntervalSignal::Begin => IntervalDirective::Run,
        IntervalSignal::Woke => IntervalDirective::Run,
        IntervalSignal::RunEnded { elapsed_seconds, outcome } => if remaining(
            interval,
            elapsed_seconds,
        ) > 0 {
            IntervalDirective::Sleep(remaining(interval, elapsed_seconds))
        } else {
            IntervalDirective::Run
        },
    }
}

/// Runs at a fixed interval, measured from the start of each run.
#[derive(Clone, Copy, Debug, PartialEq, Eq, Structural)]
pub struct IntervalScheduler {
    interval_seconds: u64,
}

impl IntervalScheduler {
    /// The interval in seconds; never zero.
    pub closed spec fn interval(self) -> u64 {
        self.interval_seconds
    }

    /// The invariant: the interval is not zero.
    pub open spec fn wf(self) -> bool {
        self.interval() > 0
    }

    /// A schedule with this interval. An interval of zero is refused, and
    /// nothing else is.
    pub fn new(interval_seconds: u64) -> (r: Result<IntervalScheduler, ConfigError>)
        ensures
            match r {
                Ok(s) => interval_seconds > 0 && s.interval() == interval_seconds && s.wf(),
                Err(e) => interval_seconds == 0 && e == ConfigError::ZeroInterval,
            },
    {
        if interval_seconds == 0 {
            Err(ConfigError::ZeroInterval)
        } else {
            Ok(IntervalScheduler { interval_seconds })
        }
    }

    /// The interval in seconds.
    pub fn interval_seconds(&self) -> (n: u64)
        ensures
            n == self.interval(),
    {
        self.interval_seconds
    }

    /// How long to sleep after a run that took `elapsed_seconds`.
    pub fn pause_after(&self, elapsed_seconds: u64) -> (n: u64)
        ensures
            n == remaining(self.interval(), elapsed_seconds),
    {
        if elapsed_seconds < self.interval_seconds {
            self.interval_seconds - elapsed_seconds
        } else {
            0
        }
    }

    /// What the driver does next.
    pub fn decide(&self, signal: IntervalSignal) -> (d: IntervalDirective)
        ensures
            d == interval_directive(self.interval(), signal),
    {
        match signal {
            IntervalSignal::Begin => IntervalDirective::Run,
            IntervalSignal::Woke => IntervalDirective::Run,
            IntervalSignal::RunEnded { elapsed_seconds, outcome } => {
                let pause = self.pause_after(elapsed_seconds);
                if pause > 0 {
                    IntervalDirective::Sleep(pause)
                } else {
                    IntervalDirective::Run
                }
            },
        }
    }
}

/// What the driver of a watch schedule reports.
#[derive(Clone, Copy, Debug, PartialEq, Eq, Structural)]
pub enum WatchSignal {
    /// The observer is installed on the source directory.
    Begin,
    /// The queue delivered a change event.
    Changed,
    /// The queue delivered an error of the observer.
    ObserverFailed,
    /// A run ended in this way.
    RunEnded(RunOutcome),
    /// The queue is closed: no event will come any more.
    QueueClosed,
}

/// What the driver of a watch schedule does next.
#[derive(Clone, Copy, Debug, PartialEq, Eq, Structural)]
pub enum WatchDirective {
    /// Block on the queue for the next event.
    Await,
    /// Run the backup once.
    Run,
    /// Leave the loop.
    Stop,
}

/// What a watch schedule makes of a signal: one run for each change
/// event, with no coalescing; an observer's error is passed over; a closed
/// queue ends the loop.
pub open spec fn watch_directive(signal: WatchSignal) -> WatchDirective {
    match signal {
        WatchSignal::Changed => WatchDirective::Run,
        WatchSignal::QueueClosed => WatchDirective::Stop,
        _ => WatchDirective::Await,
    }
}

/// Runs whenever the source directory changes.
#[derive(Clone, Copy, Debug, PartialEq, Eq, Structural)]
pub struct WatchScheduler {}

impl WatchScheduler {
    pub fn new() -> WatchScheduler {
        WatchScheduler {  }
    }

    /// What the driver does next.
    pub fn decide(&self, signal: WatchSignal) -> (d: WatchDirective)
        ensures
            d == watch_directive(signal),
    {
        match signal {
            WatchSignal::Changed => WatchDirective::Run,
            WatchSignal::QueueClosed => WatchDirective::Stop,
            _ => WatchDirective::Await,
        }
    }
}

/// However a run ended, an interval schedule goes on: what follows a run
/// depends on how long it took and not on its outcome, and a sleep is
/// never longer than the interval.
pub proof fn lemma_interval_ignores_outcome(
    interval: u64,
    elapsed_seconds: u64,
    a: RunOutcome,
    b: RunOutcome,
)
    ensures
        interval_directive(interval, IntervalSignal::RunEnded { elapsed_seconds, outcome: a })
            == interval_directive(
            interval,
            IntervalSignal::RunEnded { elapsed_seconds, outcome: b },
        ),
        remaining(interval, elapsed_seconds) <= interval,
        remaining(interval, elapsed_seconds) + elapsed_seconds == if elapsed_seconds < interval {
            interval as int
        } else {
            elapsed_seconds as int
        },
{
}

/// However a run ended, a watch schedule waits for the next event; only
/// a closed queue stops it.
pub proof fn lemma_watch_stops_only_when_closed(signal: WatchSignal)
    ensures
        watch_directive(signal) == WatchDirective::Stop <==> signal == WatchSignal::QueueClosed,
        signal is RunEnded ==> watch_directive(signal) == WatchDirective::Await,
{
}

} // verus!
