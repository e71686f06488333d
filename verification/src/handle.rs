//! Cancellable handles for deferred callbacks: a flag-based handle for
//! callbacks scheduled to run as soon as possible, and a signal-based handle
//! for delayed callbacks, where a one-shot cancellation signal races the
//! timer.

use vstd::prelude::*;
use futures::channel::oneshot::{Receiver, Sender};

verus! {

#[verifier::external_type_specification]
#[verifier::external_body]
#[verifier::reject_recursive_types(T)]
pub struct ExSender<T>(Sender<T>);

#[verifier::external_type_specification]
#[verifier::external_body]
#[verifier::reject_recursive_types(T)]
pub struct ExReceiver<T>(Receiver<T>);

#[verifier::external_type_specification]
#[verifier::external_body]
pub struct ExCanceled(futures::channel::oneshot::Canceled);

/// Relies on `futures::channel::oneshot::channel`: a fresh, connected
/// sender/receiver pair for the one-shot cancellation signal.
#[verifier::external_body]
fn oneshot_pair() -> (r: (Sender<()>, Receiver<()>)) {
    futures::channel::oneshot::channel::<()>()
}

/// Relies on `futures::channel::oneshot::Sender::send`: consumes the sender
/// and delivers the signal; the value it returns only says whether the
/// receiver was still listening, and is deliberately ignored, since a
/// cancellation race must stay silent either way.
#[verifier::external_body]
fn send_signal(tx: Sender<()>) {
    let _ = tx.send(());
}

/// Handle for a callback scheduled to run at the next opportunity. Holds only
/// a cancellation flag, consulted exactly once, at the moment the reactor is
/// about to invoke the callback.
#[derive(Debug)]
pub struct TokioHandle {
    cancelled: bool,
}

/// Whether the handle still lets its callback run.
pub open spec fn spec_should_run(h: TokioHandle) -> bool {
    !h.spec_cancelled()
}

impl TokioHandle {
    /// Whether `cancel` has been called.
    pub closed spec fn spec_cancelled(self) -> bool {
        self.cancelled
    }

    /// Marks the callback as cancelled. Idempotent: calling it again, or
    /// after the callback already ran, changes nothing and raises nothing.
    pub fn cancel(&mut self)
        ensures
            final(self).spec_cancelled(),
    {
        self.cancelled = true;
    }

    /// The check the reactor makes at the execution point: the callback body
    /// runs only when this returns true.
    pub fn should_run(&self) -> (r: bool)
        ensures
            r == spec_should_run(*self),
    {
        !self.cancelled
    }
}

/// Schedules a callback to run as soon as possible: creates the handle whose
/// flag the reactor consults at the execution point. The returned handle is
/// not yet cancelled, so the callback will run unless `cancel` comes first.
pub fn call_soon() -> (h: TokioHandle)
    ensures
        !h.spec_cancelled(),
        spec_should_run(h),
{
    TokioHandle { cancelled: false }
}

/// Handle for a callback scheduled to run after a delay. Holds the sending
/// half of a one-shot cancellation signal; `cancel` consumes it, so a second
/// call finds nothing left to do.
#[derive(Debug)]
pub struct TokioTimerHandle {
    cancel_handle: Option<Sender<()>>,
}

impl TokioTimerHandle {
    /// Whether the cancellation signal is still unsent.
    pub closed spec fn spec_armed(self) -> bool {
        self.cancel_handle is Some
    }

    /// Signals cancellation, once: the first call consumes the sender and
    /// fires the signal; any later call is a silent no-op, and so is a call
    /// whose signal loses the race against the timer.
    pub fn cancel(&mut self)
        ensures
            !final(self).spec_armed(),
    {
        if let Some(tx) = self.cancel_handle.take() {
            send_signal(tx);
        }
    }
}

/// Schedules a callback to run after a delay: creates the timer handle and
/// the receiving half of its cancellation signal. The reactor races the
/// receiver against the timer; whichever resolves first decides whether the
/// callback runs.
pub fn call_later() -> (r: (TokioTimerHandle, Receiver<()>))
    ensures
        r.0.spec_armed(),
{
    let (tx, rx) = oneshot_pair();
    (TokioTimerHandle { cancel_handle: Some(tx) }, rx)
}

/// How the race between the delay and the cancellation signal resolved.
#[derive(Debug, Clone, Copy, PartialEq, Eq)]
pub enum TimerRaceOutcome {
    /// The delay elapsed before any cancellation.
    TimerElapsed,
    /// The cancellation signal arrived first.
    CancelSignalled,
    /// The sending half was dropped without firing; treated like a
    /// cancellation.
    SignalDropped,
}

/// Whether a resolved timer race runs the callback.
pub open spec fn spec_timer_fires(o: TimerRaceOutcome) -> bool {
    o is TimerElapsed
}

/// The decision the reactor takes once the race resolves: the callback runs
/// exactly when the delay elapsed first; a cancellation, however it arrived,
/// runs nothing and raises nothing.
pub fn timer_fires(outcome: &TimerRaceOutcome) -> (run: bool)
    ensures
        run == spec_timer_fires(*outcome),
{
    match outcome {
        TimerRaceOutcome::TimerElapsed => true,
        TimerRaceOutcome::CancelSignalled => false,
        TimerRaceOutcome::SignalDropped => false,
    }
}

/// A cancellation that lands before the execution point is final: the
/// callback body never runs, and cancelling again leaves the handle exactly
/// as it was.
pub proof fn lemma_cancel_prevents_run(h: TokioHandle)
    requires
        h.spec_cancelled(),
    ensures
        !spec_should_run(h),
{
}

/// The timer race has exactly one winner: the callback runs once when the
/// delay elapsed first, and never runs in every other resolution — never
/// both, never neither.
pub proof fn lemma_timer_race_exclusive(o: TimerRaceOutcome)
    ensures
        spec_timer_fires(o) <==> !(o is CancelSignalled || o is SignalDropped),
{
}

} // verus!
