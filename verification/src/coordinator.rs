//! The timed refresh loop's decisions. The unverified shell owns the thread,
//! the sleeping and the shutdown flag; this module fixes how an interval's
//! sleep is divided into chunks and what the loop does at each juncture, so
//! that a shutdown request is honored within one chunk rather than a full
//! interval.

use vstd::prelude::*;

use crate::config::RefreshInterval;

verus! {

/// How one interval's sleep is divided: `chunks` sleeps of `chunk_secs` seconds
/// each, with the shutdown flag checked between two of them.
#[derive(Clone, Copy, Debug, PartialEq, Eq, Structural)]
pub struct SleepPlan {
    pub chunk_secs: u64,
    pub chunks: u64,
}

/// Divides an interval into five equal chunks of at least a second each, so the
/// loop observes a shutdown request after at most a fifth of the interval.
pub fn plan_sleep(interval: RefreshInterval) -> (r: SleepPlan)
    ensures
        r.chunks == 5,
        r.chunk_secs == interval.spec_secs() / 5,
        1 <= r.chunk_secs,
        r.chunk_secs * r.chunks == interval.spec_secs(),
        r.chunk_secs < interval.spec_secs(),
{
    SleepPlan { chunk_secs: interval.as_secs() / 5, chunks: 5 }
}

/// What the timer loop does next.
#[derive(Clone, Copy, Debug, PartialEq, Eq, Structural)]
pub enum TimerStep {
    /// A shutdown was requested: leave the loop at once.
    Stop,
    /// Sleep for one more chunk of this many seconds.
    Sleep(u64),
    /// The interval has elapsed: signal a refresh and plan the next sleep.
    StartCycle,
}

/// The loop's decision between two chunks. A shutdown request wins over any
/// remaining sleep, whatever the number of chunks still owed: the request is
/// honored within the chunk during which it was raised.
pub fn next_timer_step(shutdown_requested: bool, chunks_remaining: u64, chunk_secs: u64) -> (r:
    TimerStep)
    ensures
        shutdown_requested ==> r == TimerStep::Stop,
        !shutdown_requested && chunks_remaining > 0 ==> r == TimerStep::Sleep(chunk_secs),
        !shutdown_requested && chunks_remaining == 0 ==> r == TimerStep::StartCycle,
{
    if shutdown_requested {
        TimerStep::Stop
    } else if chunks_remaining > 0 {
        TimerStep::Sleep(chunk_secs)
    } else {
        TimerStep::StartCycle
    }
}

} // verus!
