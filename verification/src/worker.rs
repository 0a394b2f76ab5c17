//! Decisions of the screen-capture worker: how each command changes its
//! flags, how a finished capture is classified, and when a coalesced
//! acquire is retried. The worker thread itself, the portal and PipeWire
//! stay outside this library.

use vstd::prelude::*;
use crate::config::opt_view;
use crate::text::{contains, spec_contains};

verus! {

/// What the screen worker is doing.
#[derive(Debug, Clone, Copy, PartialEq, Eq, Structural)]
pub enum WorkerState {
    Idle,
    Acquiring,
    Running,
    Error,
}

/// The worker's shared flags: a capture is in progress, another acquire
/// arrived meanwhile, the capture is asked to stop, and the state shown to
/// clients.
#[derive(Debug)]
pub struct WorkerFlags {
    pub running: bool,
    pub pending_acquire: bool,
    pub cancel: bool,
    pub state: WorkerState,
}

impl WorkerFlags {
    /// A worker that has done nothing yet.
    pub fn new() -> (w: WorkerFlags)
        ensures
            !w.running,
            !w.pending_acquire,
            !w.cancel,
            w.state == WorkerState::Idle,
    {
        WorkerFlags { running: false, pending_acquire: false, cancel: false, state: WorkerState::Idle }
    }
}

/// Answer to an acquire command.
#[derive(Debug, Clone, Copy, PartialEq, Eq, Structural)]
pub enum AcquireStep {
    /// A capture is running: it is asked to stop and the acquire is kept
    /// for afterwards.
    Coalesced,
    /// Start capturing now.
    Start,
}

/// Marks the start of a capture: nothing pending, not cancelled, running.
pub fn begin_capture(w: &mut WorkerFlags)
    ensures
        final(w).running,
        !final(w).pending_acquire,
        !final(w).cancel,
        final(w).state == old(w).state,
{
    w.pending_acquire = false;
    w.cancel = false;
    w.running = true;
}

/// Handles an acquire command: coalesced while a capture runs, otherwise an
/// error state is cleared and a capture starts.
pub fn on_acquire(w: &mut WorkerFlags) -> (step: AcquireStep)
    ensures
        old(w).running ==> step == AcquireStep::Coalesced && final(w).pending_acquire && final(w).cancel
            && final(w).running && final(w).state == old(w).state,
        !old(w).running ==> step == AcquireStep::Start && final(w).running && !final(w).pending_acquire
            && !final(w).cancel && final(w).state == (if old(w).state == WorkerState::Error {
            WorkerState::Idle
        } else {
            old(w).state
        }),
{
    if w.running {
        w.pending_acquire = true;
        w.cancel = true;
        return AcquireStep::Coalesced;
    }
    if w.state == WorkerState::Error {
        w.state = WorkerState::Idle;
    }
    begin_capture(w);
    AcquireStep::Start
}

/// How a capture ended.
#[derive(Debug, Clone, Copy, PartialEq, Eq, Structural)]
pub enum CaptureOutcome {
    /// Returned normally.
    Finished,
    /// Failed with an error that reports a cancellation.
    Cancelled,
    /// Failed otherwise; a timed-out portal also loses its saved
    /// permission.
    Failed { clear_token: bool },
}

/// Characters of `cancelled`.
pub open spec fn cancelled_chars() -> Seq<char> {
    seq!['c', 'a', 'n', 'c', 'e', 'l', 'l', 'e', 'd']
}

/// Characters of `timed out`.
pub open spec fn timed_out_chars() -> Seq<char> {
    seq!['t', 'i', 'm', 'e', 'd', ' ', 'o', 'u', 't']
}

/// The outcome of a capture from its error message (`None` for success).
/// Messages such as `portal open cancelled` contain `cancelled` and count
/// as cancellations.
pub open spec fn spec_capture_outcome(err: Option<Seq<char>>) -> CaptureOutcome {
    match err {
        None => CaptureOutcome::Finished,
        Some(m) => if spec_contains(m, cancelled_chars()) {
            CaptureOutcome::Cancelled
        } else {
            CaptureOutcome::Failed { clear_token: spec_contains(m, timed_out_chars()) }
        },
    }
}

/// Classifies a finished capture; see [`spec_capture_outcome`].
pub fn capture_outcome(err: Option<&str>) -> (o: CaptureOutcome)
    ensures
        o == spec_capture_outcome(opt_view(err)),
{
    proof { reveal_strlit("cancelled"); reveal_strlit("timed out"); }
    match err {
        None => CaptureOutcome::Finished,
        Some(m) => {
            let c = "cancelled";
            let t = "timed out";
            assert(c@ =~= cancelled_chars());
            assert(t@ =~= timed_out_chars());
            if contains(m, c) {
                CaptureOutcome::Cancelled
            } else {
                CaptureOutcome::Failed { clear_token: contains(m, t) }
            }
        },
    }
}

/// The state a capture leaves the worker in.
pub open spec fn state_after(o: CaptureOutcome) -> WorkerState {
    match o {
        CaptureOutcome::Failed { .. } => WorkerState::Error,
        _ => WorkerState::Idle,
    }
}

/// Records the end of a capture: no longer running, and idle unless it
/// failed.
pub fn end_capture(w: &mut WorkerFlags, o: CaptureOutcome)
    ensures
        !final(w).running,
        final(w).state == state_after(o),
        final(w).pending_acquire == old(w).pending_acquire,
        final(w).cancel == old(w).cancel,
{
    w.running = false;
    w.state = match o {
        CaptureOutcome::Failed { .. } => WorkerState::Error,
        _ => WorkerState::Idle,
    };
}

/// After a capture started by an acquire: capture again when another
/// acquire arrived meanwhile and the configured mode still mirrors the
/// screen; a pending acquire for a mode that no longer does is dropped.
pub fn retry_pending_acquire(w: &mut WorkerFlags, mode_is_screen: bool) -> (again: bool)
    ensures
        again == (old(w).pending_acquire && mode_is_screen),
        final(w).pending_acquire == (old(w).pending_acquire && mode_is_screen),
        final(w).running == old(w).running,
        final(w).cancel == old(w).cancel,
        final(w).state == old(w).state,
{
    if !w.pending_acquire {
        return false;
    }
    if !mode_is_screen {
        w.pending_acquire = false;
        return false;
    }
    true
}

/// Handles a release command: any pending acquire is dropped and the
/// capture is asked to stop; with no capture running the worker goes idle
/// at once and the screen fields of the status are to be cleared (the
/// result says so).
pub fn on_release(w: &mut WorkerFlags) -> (clear_status: bool)
    ensures
        clear_status == !old(w).running,
        !final(w).pending_acquire,
        final(w).cancel,
        final(w).running == old(w).running,
        final(w).state == (if old(w).running { old(w).state } else { WorkerState::Idle }),
{
    w.pending_acquire = false;
    w.cancel = true;
    if !w.running {
        w.state = WorkerState::Idle;
        true
    } else {
        false
    }
}

/// First half of a reselect or shutdown command: drop any pending acquire
/// and ask the running capture to stop.
pub fn on_stop_request(w: &mut WorkerFlags)
    ensures
        !final(w).pending_acquire,
        final(w).cancel,
        final(w).running == old(w).running,
        final(w).state == old(w).state,
{
    w.pending_acquire = false;
    w.cancel = true;
}

/// Second half of a reselect, once no capture runs (the saved permission
/// has been dropped and the screen status cleared): idle, then capture
/// again, asking for a new permission, when the mode mirrors the screen.
pub fn reselect_after_stop(w: &mut WorkerFlags, mode_is_screen: bool) -> (capture: bool)
    requires
        !old(w).running,
    ensures
        capture == mode_is_screen,
        mode_is_screen ==> final(w).running && !final(w).cancel && !final(w).pending_acquire,
        !mode_is_screen ==> !final(w).running && final(w).cancel == old(w).cancel,
        final(w).state == WorkerState::Idle,
{
    w.state = WorkerState::Idle;
    if !mode_is_screen {
        return false;
    }
    begin_capture(w);
    true
}

/// A capture whose error reports a cancellation never leaves the worker in
/// the error state, and a successful one leaves it idle.
pub proof fn lemma_cancel_is_not_error(m: Seq<char>)
    ensures
        spec_contains(m, cancelled_chars()) ==> state_after(spec_capture_outcome(Some(m))) == WorkerState::Idle,
        state_after(spec_capture_outcome(None)) == WorkerState::Idle,
{
}

/// Every failed capture leaves the worker in the error state, whether or
/// not it also drops the saved permission; a cancelled or finished one
/// leaves it idle.
pub proof fn lemma_failure_is_error(c: bool)
    ensures
        state_after(CaptureOutcome::Failed { clear_token: c }) == WorkerState::Error,
        state_after(CaptureOutcome::Cancelled) == WorkerState::Idle,
        state_after(CaptureOutcome::Finished) == WorkerState::Idle,
{
}

/// How an error message is classified: one mentioning `cancelled` is a
/// cancellation; otherwise it is a failure, which drops the saved
/// permission exactly when the message mentions `timed out`.
pub proof fn lemma_outcome_of_message(m: Seq<char>)
    ensures
        spec_contains(m, "cancelled"@) ==> spec_capture_outcome(Some(m)) == CaptureOutcome::Cancelled,
        !spec_contains(m, "cancelled"@) && spec_contains(m, "timed out"@) ==> spec_capture_outcome(Some(m))
            == (CaptureOutcome::Failed { clear_token: true }),
        !spec_contains(m, "cancelled"@) && !spec_contains(m, "timed out"@) ==> spec_capture_outcome(Some(m))
            == (CaptureOutcome::Failed { clear_token: false }),
        spec_capture_outcome(None) == CaptureOutcome::Finished,
{
    reveal_strlit("cancelled");
    reveal_strlit("timed out");
    assert("cancelled"@ =~= cancelled_chars());
    assert("timed out"@ =~= timed_out_chars());
}

} // verus!
