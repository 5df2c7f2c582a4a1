//! Frame timing for animation uniforms.
//!
//! Times are wall-clock readings in nanoseconds. Each frame the clock is
//! ticked once with the current reading; the state keeps the elapsed time
//! since start and since the previous frame, clamped to zero whenever the
//! underlying clock reports a non-monotonic interval.

use vstd::prelude::*;

verus! {

/// Nanoseconds from `earlier` to `now`, clamped to zero if the clock ran
/// backwards.
pub open spec fn elapsed_nanos(earlier: u64, now: u64) -> u64 {
    if now >= earlier {
        (now - earlier) as u64
    } else {
        0
    }
}

/// Timing state of the viewer: when it started, when the previous frame was
/// timed, and the derived per-frame durations.
pub struct TimeState {
    /// Clock reading (nanoseconds) when the viewer started.
    pub start_time: u64,
    /// Clock reading (nanoseconds) at the most recent tick.
    pub last_frame_time: u64,
    /// Nanoseconds between the two most recent ticks, clamped to zero.
    pub delta_time: u64,
    /// Nanoseconds from start to the most recent tick, clamped to zero.
    pub total_time: u64,
}

impl TimeState {
    /// The derived totals agree with the recorded instants.
    pub open spec fn wf(self) -> bool {
        self.total_time == elapsed_nanos(self.start_time, self.last_frame_time)
    }

    /// Starts the clock at the given reading: no time has passed yet.
    pub fn new(now: u64) -> (r: TimeState)
        ensures
            r.start_time == now,
            r.last_frame_time == now,
            r.delta_time == 0,
            r.total_time == 0,
            r.wf(),
    {
        TimeState { start_time: now, last_frame_time: now, delta_time: 0, total_time: 0 }
    }

    /// Ticks the clock with a fresh reading: recomputes the elapsed times,
    /// clamping each to zero on a non-monotonic reading, and records the
    /// reading for the next frame.
    pub fn update(&mut self, now: u64)
        ensures
            *final(self) == tick_transition(*old(self), now),
            final(self).start_time == old(self).start_time,
            final(self).last_frame_time == now,
            final(self).delta_time == elapsed_nanos(old(self).last_frame_time, now),
            final(self).total_time == elapsed_nanos(old(self).start_time, now),
            final(self).wf(),
    {
        self.delta_time = if now >= self.last_frame_time {
            now - self.last_frame_time
        } else {
            0
        };
        self.total_time = if now >= self.start_time {
            now - self.start_time
        } else {
            0
        };
        self.last_frame_time = now;
    }
}

/// The clock after one tick at reading `now`; `update` performs exactly this
/// transition.
pub open spec fn tick_transition(ts: TimeState, now: u64) -> TimeState {
    TimeState {
        start_time: ts.start_time,
        last_frame_time: now,
        delta_time: elapsed_nanos(ts.last_frame_time, now),
        total_time: elapsed_nanos(ts.start_time, now),
    }
}

/// The clock after it was ticked once per reading, in order.
pub open spec fn tick_run(ts: TimeState, readings: Seq<u64>) -> TimeState
    decreases readings.len(),
{
    if readings.len() == 0 {
        ts
    } else {
        tick_run(tick_transition(ts, readings.first()), readings.drop_first())
    }
}

/// A run of ticks never moves the start instant, and its final total is the
/// elapsed time from the start to the last reading.
proof fn lemma_tick_run_final(ts: TimeState, readings: Seq<u64>)
    ensures
        tick_run(ts, readings).start_time == ts.start_time,
        readings.len() >= 1 ==> tick_run(ts, readings).total_time == elapsed_nanos(
            ts.start_time,
            readings.last(),
        ),
    decreases readings.len(),
{
    if readings.len() > 0 {
        let ticked = tick_transition(ts, readings.first());
        lemma_tick_run_final(ticked, readings.drop_first());
        if readings.len() == 1 {
            assert(readings.first() == readings.last());
        } else {
            assert(readings.drop_first().last() == readings.last());
        }
    }
}

/// Law: tick the clock once per reading, in order. If no reading precedes
/// the start instant and the readings never decrease, then after the tick at
/// `readings[k]` the total time is exactly `readings[k]` minus the start,
/// and the totals never decrease across the whole sequence.
pub proof fn lemma_tick_run_totals(ts: TimeState, readings: Seq<u64>)
    requires
        forall|i: int| 0 <= i < readings.len() ==> ts.start_time <= #[trigger] readings[i],
        forall|i: int, j: int| 0 <= i <= j < readings.len() ==> readings[i] <= readings[j],
    ensures
        forall|k: int|
            0 <= k < readings.len() ==> #[trigger] tick_run(ts, readings.take(k + 1)).total_time
                == readings[k] - ts.start_time,
        forall|i: int, j: int|
            0 <= i <= j < readings.len() ==> #[trigger] tick_run(
                ts,
                readings.take(i + 1),
            ).total_time <= #[trigger] tick_run(ts, readings.take(j + 1)).total_time,
{
    assert forall|k: int|
        0 <= k < readings.len() implies #[trigger] tick_run(
        ts,
        readings.take(k + 1),
    ).total_time == readings[k] - ts.start_time by {
        lemma_tick_run_final(ts, readings.take(k + 1));
        assert(readings.take(k + 1).last() == readings[k]);
    }
}

} // verus!
