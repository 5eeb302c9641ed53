//! A rolling frame-time measurement: ticks are counted, and once per update
//! interval the mean time per tick over that interval is reported.
use vstd::prelude::*;
use crate::clock::clock_now_millis;

verus! {

/// Bound on the magnitude of the instants and intervals, in milliseconds, that
/// the counter handles; it covers chrono's whole span.
pub const MILLIS_LIMIT: i64 = 9_000_000_000_000_000;

/// All times are in milliseconds.
#[derive(Clone, Copy, Debug, PartialEq, Eq, Structural)]
pub struct FrameRateCounter {
    /// The last frame time reported, none before the first report.
    pub last_report: Option<u64>,
    /// Ticks counted since the last report.
    pub frames: u64,
    /// When the last report was made (or the counter was made).
    pub last_interval: i64,
    /// How long to count before reporting.
    pub update_interval: i64,
}

pub open spec fn millis_ok(t: int) -> bool {
    -MILLIS_LIMIT <= t <= MILLIS_LIMIT
}

/// One tick at `now`: the counter after it and what it reports.
pub open spec fn tick(c: FrameRateCounter, now: int) -> (FrameRateCounter, Option<u64>) {
    let frames = if c.frames < u64::MAX {
        (c.frames + 1) as u64
    } else {
        c.frames
    };
    if now >= c.last_interval + c.update_interval {
        let ft = ((now - c.last_interval) / (frames as int)) as u64;
        (FrameRateCounter { last_report: Some(ft), frames: 0, last_interval: now as i64, ..c }, Some(ft))
    } else {
        (FrameRateCounter { frames, ..c }, None)
    }
}

/// The reports of successive ticks at `times`, and the counter after them.
pub open spec fn run(c: FrameRateCounter, times: Seq<int>) -> (FrameRateCounter, Seq<Option<u64>>)
    decreases times.len(),
{
    if times.len() == 0 {
        (c, Seq::empty())
    } else {
        let (before, out) = run(c, times.drop_last());
        let (after, r) = tick(before, times.last());
        (after, out.push(r))
    }
}

impl FrameRateCounter {
    pub open spec fn wf(&self) -> bool {
        &&& 0 <= self.update_interval <= MILLIS_LIMIT
        &&& millis_ok(self.last_interval as int)
    }

    /// A counter that starts counting at `now`.
    pub fn new_at(update_interval: i64, now: i64) -> (r: FrameRateCounter)
        requires
            0 <= update_interval <= MILLIS_LIMIT,
            millis_ok(now as int),
        ensures
            r.wf(),
            r == (FrameRateCounter { last_report: None, frames: 0, last_interval: now, update_interval }),
    {
        FrameRateCounter { last_report: None, frames: 0, last_interval: now, update_interval }
    }

    /// A counter that starts counting now, by the system clock.
    pub fn new(update_interval: i64) -> (r: FrameRateCounter)
        requires
            0 <= update_interval <= MILLIS_LIMIT,
        ensures
            r.wf(),
            r.last_report is None,
            r.frames == 0,
            r.update_interval == update_interval,
    {
        FrameRateCounter::new_at(update_interval, clock_now_millis())
    }

    /// Counts one tick at `now`; once the update interval has elapsed since the
    /// last report, returns the elapsed time divided by the ticks counted,
    /// rounded down, and starts a new interval.
    pub fn incr_at(&mut self, now: i64) -> (r: Option<u64>)
        requires
            old(self).wf(),
            millis_ok(now as int),
        ensures
            final(self).wf(),
            (*final(self), r) == tick(*old(self), now as int),
    {
        if self.frames < u64::MAX {
            self.frames = self.frames + 1;
        }
        if now >= self.last_interval + self.update_interval {
            let ft = ((now - self.last_interval) as u64) / self.frames;
            self.last_report = Some(ft);
            self.frames = 0;
            self.last_interval = now;
            Some(ft)
        } else {
            None
        }
    }

    /// Counts one tick now, by the system clock.
    pub fn incr(&mut self) -> (r: Option<u64>)
        requires
            old(self).wf(),
        ensures
            final(self).wf(),
            exists|now: int| millis_ok(now) && (*final(self), r) == #[trigger] tick(*old(self), now),
    {
        let now = clock_now_millis();
        self.incr_at(now)
    }

    /// The last frame time reported, if any.
    pub fn frame_time(&self) -> (r: Option<u64>)
        ensures
            r == self.last_report,
    {
        self.last_report
    }
}

/// From a fresh interval, ticks that come before the interval has elapsed
/// report nothing and leave the last report as it was (none on a new
/// counter), and the `n`-th tick, at exactly one interval `t` later,
/// reports `t / n` rounded down.
pub proof fn lemma_frame_time_report(c: FrameRateCounter, times: Seq<int>)
    requires
        c.wf(),
        c.frames == 0,
        0 < times.len() < u64::MAX,
        forall|i: int| 0 <= i < times.len() - 1 ==> #[trigger] times[i] < c.last_interval
            + c.update_interval,
        times.last() == c.last_interval + c.update_interval,
    ensures
        forall|i: int| 0 <= i < times.len() - 1 ==> #[trigger] run(c, times).1[i] is None,
        run(c, times).1.last() == Some(((c.update_interval as int) / (times.len() as int)) as u64),
        forall|i: int|
            0 <= i < times.len() ==> #[trigger] run(c, times.subrange(0, i)).0.last_report
                == c.last_report,
        run(c, times).0.last_report == Some(
            ((c.update_interval as int) / (times.len() as int)) as u64,
        ),
{
    assert forall|i: int| 0 <= i < times.len() implies #[trigger] run(
        c,
        times.subrange(0, i),
    ).0.last_report == c.last_report by {
        let pre = times.subrange(0, i);
        assert forall|k: int| 0 <= k < pre.len() implies #[trigger] pre[k] < c.last_interval
            + c.update_interval by {
            assert(pre[k] == times[k]);
        }
        lemma_quiet_run(c, pre);
    }
    lemma_quiet_run(c, times.drop_last());
    assert(run(c, times).1.drop_last() == run(c, times.drop_last()).1);
}

proof fn lemma_quiet_run(c: FrameRateCounter, times: Seq<int>)
    requires
        c.wf(),
        c.frames == 0,
        times.len() < u64::MAX,
        forall|i: int| 0 <= i < times.len() ==> #[trigger] times[i] < c.last_interval
            + c.update_interval,
    ensures
        run(c, times).0 == (FrameRateCounter { frames: times.len() as u64, ..c }),
        run(c, times).1.len() == times.len(),
        forall|i: int| 0 <= i < times.len() ==> #[trigger] run(c, times).1[i] is None,
    decreases times.len(),
{
    if times.len() > 0 {
        let pre = times.drop_last();
        assert forall|i: int| 0 <= i < pre.len() implies #[trigger] pre[i] < c.last_interval
            + c.update_interval by {
            assert(pre[i] == times[i]);
        }
        lemma_quiet_run(c, pre);
        assert(times.last() == times[times.len() - 1]);
    }
}

} // verus!
