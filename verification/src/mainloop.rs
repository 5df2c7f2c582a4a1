//! Decisions of the main loop.
//!
//! The loop has two states: it runs until the window asks to close or the
//! exit key is pressed, then it closes. Each running iteration polls events,
//! drains the reload-signal channel — any backlog of pending signals
//! coalesces into at most one reload — then ticks the clock and draws. The
//! polling, draining and drawing happen outside; this module decides what an
//! iteration does with their results.

use vstd::prelude::*;

verus! {

/// State of the main loop.
#[derive(Clone, Copy, PartialEq, Eq, Structural, Debug)]
pub enum LoopState {
    /// The loop keeps iterating.
    Running,
    /// The loop ends; shutdown follows.
    Closing,
}

/// How many reloads one iteration performs for a backlog of pending reload
/// signals: one if any are pending, none otherwise.
pub open spec fn reloads_for(pending_signals: u64) -> nat {
    if pending_signals >= 1 {
        1
    } else {
        0
    }
}

/// What one iteration does: the loop state it leaves behind and whether it
/// reloads the shaders.
#[derive(Clone, Copy, PartialEq, Eq, Structural, Debug)]
pub struct IterationPlan {
    /// The loop state after this iteration.
    pub next_state: LoopState,
    /// Whether this iteration calls reload exactly once.
    pub do_reload: bool,
}

/// Plans one iteration from the loop state, the event round's verdict and
/// the number of reload signals drained from the channel. The loop closes as
/// soon as the events say so and never reopens; a running iteration reloads
/// exactly once when at least one signal was pending, however many were.
pub fn plan_iteration(state: LoopState, keep_running: bool, pending_signals: u64) -> (plan:
    IterationPlan)
    ensures
        (plan.next_state is Closing) == (state is Closing || !keep_running),
        plan.do_reload == ((state is Running) && keep_running && pending_signals >= 1),
        (if plan.do_reload {
            1nat
        } else {
            0nat
        }) == (if (state is Running) && keep_running {
            reloads_for(pending_signals)
        } else {
            0nat
        }),
{
    match state {
        LoopState::Closing => IterationPlan { next_state: LoopState::Closing, do_reload: false },
        LoopState::Running => {
            if keep_running {
                IterationPlan {
                    next_state: LoopState::Running,
                    do_reload: pending_signals >= 1,
                }
            } else {
                IterationPlan { next_state: LoopState::Closing, do_reload: false }
            }
        },
    }
}

/// Law: a backlog of pending reload signals coalesces. Any nonzero backlog
/// yields exactly one reload in the iteration that drains it, however large
/// the backlog — n pending signals and m pending signals trigger the same
/// single reload.
pub proof fn lemma_backlog_coalesces(n: u64, m: u64)
    requires
        n >= 1,
        m >= 1,
    ensures
        reloads_for(n) == 1,
        reloads_for(n) == reloads_for(m),
{
}

} // verus!
