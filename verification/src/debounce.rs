//! Update scheduler: coalesces bursts of panel-move notifications into a
//! single reconciliation pass after a quiescence interval.
//!
//! The debouncer is a two-state machine over millisecond timestamps. It is
//! `Idle` when no deadline is pending; a move notification cancels any
//! pending deadline and arms a fresh one a fixed delay after the move. The
//! shell around the library owns the real timer: it invalidates the deadline
//! the debouncer tells it to cancel, schedules the new one, and reports back
//! when a timer fires. A fire runs a pass only when its deadline is the one
//! still pending, so a superseded timer can never trigger a stale pass, and
//! at most one pass is scheduled at any time.

use vstd::prelude::*;

verus! {

/// Quiescence interval: a reconciliation pass runs this many milliseconds
/// after the last move of a burst.
pub const DEBOUNCE_DELAY_MS: u64 = 300;

/// The debouncer's whole state: the deadline of the pending pass, if one is
/// scheduled.
pub struct Debouncer {
    pub pending_deadline: Option<u64>,
}

/// What the shell must do after a move notification: cancel the timer for
/// `cancel_deadline` if there is one, and schedule a fresh timer for
/// `new_deadline`.
#[derive(Clone, Copy, Debug, PartialEq, Eq, Structural)]
pub struct MoveResponse {
    pub cancel_deadline: Option<u64>,
    pub new_deadline: u64,
}

/// The state after a move at `now_ms`: exactly one pending deadline, one
/// delay past the move, whatever was pending before.
pub open spec fn spec_moved(d: Debouncer, now_ms: u64) -> Debouncer {
    Debouncer { pending_deadline: Some((now_ms + DEBOUNCE_DELAY_MS) as u64) }
}

/// A timer firing at `deadline` runs a pass exactly when that deadline is the
/// one still pending.
pub open spec fn spec_fires(d: Debouncer, deadline: u64) -> bool {
    d.pending_deadline == Some(deadline)
}

/// The state after a timer fired at `deadline`: idle when the fire ran a
/// pass, unchanged when the timer was stale.
pub open spec fn spec_fired(d: Debouncer, deadline: u64) -> Debouncer {
    if spec_fires(d, deadline) {
        Debouncer { pending_deadline: None }
    } else {
        d
    }
}

impl Debouncer {
    /// A fresh debouncer is idle: no pass is pending.
    pub fn new() -> (d: Debouncer)
        ensures
            d.pending_deadline is None,
    {
        Debouncer { pending_deadline: None }
    }

    /// Records a panel-move notification at `now_ms`: supersedes any pending
    /// deadline and arms a new one a full delay later. The response names the
    /// deadline whose timer the shell must invalidate, and the new deadline
    /// it must schedule.
    pub fn on_panel_moved(&mut self, now_ms: u64) -> (resp: MoveResponse)
        requires
            now_ms <= u64::MAX - DEBOUNCE_DELAY_MS,
        ensures
            *final(self) == spec_moved(*old(self), now_ms),
            final(self).pending_deadline == Some((now_ms + DEBOUNCE_DELAY_MS) as u64),
            resp.cancel_deadline == old(self).pending_deadline,
            resp.new_deadline == (now_ms + DEBOUNCE_DELAY_MS) as u64,
    {
        let cancel_deadline = self.pending_deadline;
        let new_deadline = now_ms + DEBOUNCE_DELAY_MS;
        self.pending_deadline = Some(new_deadline);
        MoveResponse { cancel_deadline, new_deadline }
    }

    /// Reports that the timer armed for `deadline` fired. Returns whether a
    /// reconciliation pass must run now: only when that deadline is the one
    /// still pending; a superseded timer runs nothing. After a pass the
    /// debouncer is idle again.
    pub fn on_timer_fired(&mut self, deadline: u64) -> (run_pass: bool)
        ensures
            run_pass == spec_fires(*old(self), deadline),
            *final(self) == spec_fired(*old(self), deadline),
    {
        let fires = match self.pending_deadline {
            Some(pending) => pending == deadline,
            None => false,
        };
        if fires {
            self.pending_deadline = None;
        }
        fires
    }
}

/// The state after a whole burst of moves, applied in order.
pub open spec fn spec_after_moves(d: Debouncer, move_times: Seq<u64>) -> Debouncer
    decreases move_times.len(),
{
    if move_times.len() == 0 {
        d
    } else {
        spec_moved(spec_after_moves(d, move_times.drop_last()), move_times.last())
    }
}

/// Law: a burst of moves coalesces into a single pass. After any nonempty
/// sequence of moves, exactly one deadline is pending: one delay past the
/// last move. A timer armed for any earlier move of the burst whose deadline
/// differs from the final one fires nothing; the timer for the final deadline
/// fires exactly one pass, and after it the debouncer is idle, so no further
/// timer fires anything.
pub proof fn lemma_debounce_coalesces(d0: Debouncer, move_times: Seq<u64>)
    requires
        move_times.len() > 0,
        forall|i: int| 0 <= i < move_times.len() ==> move_times[i] <= u64::MAX - DEBOUNCE_DELAY_MS,
    ensures
        spec_after_moves(d0, move_times).pending_deadline == Some(
            (move_times.last() + DEBOUNCE_DELAY_MS) as u64,
        ),
        forall|i: int|
            0 <= i < move_times.len() && move_times[i] != move_times.last() ==> !spec_fires(
                spec_after_moves(d0, move_times),
                (move_times[i] + DEBOUNCE_DELAY_MS) as u64,
            ),
        spec_fires(spec_after_moves(d0, move_times), (move_times.last() + DEBOUNCE_DELAY_MS) as u64),
        forall|later: u64|
            !(#[trigger] spec_fires(
                spec_fired(
                    spec_after_moves(d0, move_times),
                    (move_times.last() + DEBOUNCE_DELAY_MS) as u64,
                ),
                later,
            )),
{
    let last = move_times.last();
    assert(0 <= move_times.len() - 1 < move_times.len());
    assert(last <= u64::MAX - DEBOUNCE_DELAY_MS);
}

} // verus!
