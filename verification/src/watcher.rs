//! Debouncing of file-change notifications.
//!
//! The file watcher sees every modification under the shader directory; a
//! save from an editor often arrives as a rapid burst of events. The
//! debouncer turns each burst into one notification: an event emits only
//! when at least a full debounce window has passed since the last emission,
//! so the events of a burst after the first stay silent.

use vstd::prelude::*;

verus! {

/// Debouncing state: the length of the window and when a notification was
/// last emitted. Times are clock readings in nanoseconds.
#[derive(Clone, Copy, PartialEq, Eq, Structural, Debug)]
pub struct Debouncer {
    /// Length of the debounce window in nanoseconds.
    pub window_nanos: u64,
    /// Clock reading of the most recent emission, if any.
    pub last_emit: Option<u64>,
}

impl Debouncer {
    /// Whether an event at reading `now` emits a notification: always for
    /// the first event, afterwards only once a full window has passed since
    /// the last emission.
    pub open spec fn emits(self, now: u64) -> bool {
        match self.last_emit {
            Option::None => true,
            Option::Some(t) => now >= t && now - t >= self.window_nanos,
        }
    }

    /// A fresh debouncer with the given window; the first event will emit.
    pub fn new(window_nanos: u64) -> (r: Debouncer)
        ensures
            r.window_nanos == window_nanos,
            (r.last_emit is None),
    {
        Debouncer { window_nanos, last_emit: None }
    }

    /// Feeds one modification event at reading `now`; returns whether to
    /// push a notification. An emission starts a new window at `now`; a
    /// suppressed event changes nothing.
    pub fn on_event(&mut self, now: u64) -> (emit: bool)
        ensures
            emit == old(self).emits(now),
            *final(self) == debounce_step(*old(self), now),
            emit ==> final(self).last_emit == Some(now),
            !emit ==> *final(self) == *old(self),
    {
        let emit = match self.last_emit {
            None => true,
            Some(t) => now >= t && now - t >= self.window_nanos,
        };
        if emit {
            self.last_emit = Some(now);
        }
        emit
    }
}

/// The debouncer after it saw an event at reading `now`.
pub open spec fn debounce_step(d: Debouncer, now: u64) -> Debouncer {
    if d.emits(now) {
        Debouncer { last_emit: Some(now), ..d }
    } else {
        d
    }
}

/// How many of the events at the given readings, fed in order, emit a
/// notification.
pub open spec fn emission_count(d: Debouncer, times: Seq<u64>) -> nat
    decreases times.len(),
{
    if times.len() == 0 {
        0
    } else {
        (if d.emits(times.first()) {
            1nat
        } else {
            0nat
        }) + emission_count(debounce_step(d, times.first()), times.drop_first())
    }
}

/// Events that all fall short of a full window after the emission at `t0`
/// stay silent.
proof fn lemma_within_window_silent(d: Debouncer, t0: u64, times: Seq<u64>)
    requires
        d.last_emit == Some(t0),
        forall|i: int| 0 <= i < times.len() ==> #[trigger] times[i] - t0 < d.window_nanos,
    ensures
        emission_count(d, times) == 0,
    decreases times.len(),
{
    if times.len() > 0 {
        assert(times[0] - t0 < d.window_nanos);
        assert(!d.emits(times.first()));
        assert forall|i: int|
            0 <= i < times.drop_first().len() implies #[trigger] times.drop_first()[i] - t0
            < d.window_nanos by {
            assert(times.drop_first()[i] == times[i + 1]);
        }
        lemma_within_window_silent(d, t0, times.drop_first());
    }
}

/// Law (debounce): a burst of any number of events, all within one debounce
/// window of the first, yields exactly one notification — the first event
/// emits and every later event of the burst is suppressed.
pub proof fn lemma_burst_emits_once(d: Debouncer, times: Seq<u64>)
    requires
        times.len() >= 1,
        d.emits(times[0]),
        forall|i: int| 0 <= i < times.len() ==> #[trigger] times[i] - times[0]
            < d.window_nanos,
    ensures
        emission_count(d, times) == 1,
{
    let d1 = debounce_step(d, times[0]);
    assert(d1.last_emit == Some(times[0]));
    assert forall|i: int|
        0 <= i < times.drop_first().len() implies #[trigger] times.drop_first()[i] - times[0]
        < d.window_nanos by {
        assert(times.drop_first()[i] == times[i + 1]);
    }
    lemma_within_window_silent(d1, times[0], times.drop_first());
}

} // verus!
