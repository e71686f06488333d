use reactor_core::{call_later, call_soon, timer_fires, TimerRaceOutcome};

#[test]
fn fresh_handle_lets_callback_run() {
    let h = call_soon();
    assert!(h.should_run());
}

#[test]
fn cancel_before_execution_skips_callback() {
    let mut h = call_soon();
    h.cancel();
    assert!(!h.should_run());
}

#[test]
fn cancel_is_idempotent() {
    let mut h = call_soon();
    h.cancel();
    h.cancel();
    assert!(!h.should_run());
}

#[test]
fn timer_cancel_fires_the_signal() {
    let (mut handle, mut rx) = call_later();
    assert_eq!(rx.try_recv(), Ok(None));
    handle.cancel();
    assert_eq!(rx.try_recv(), Ok(Some(())));
}

#[test]
fn timer_cancel_twice_is_silent() {
    let (mut handle, mut rx) = call_later();
    handle.cancel();
    handle.cancel();
    assert_eq!(rx.try_recv(), Ok(Some(())));
}

#[test]
fn dropping_handle_without_cancel_closes_the_channel() {
    let (handle, mut rx) = call_later();
    assert_eq!(rx.try_recv(), Ok(None));
    drop(handle);
    assert!(rx.try_recv().is_err());
}

#[test]
fn race_outcome_decides_exactly_one_way() {
    assert!(timer_fires(&TimerRaceOutcome::TimerElapsed));
    assert!(!timer_fires(&TimerRaceOutcome::CancelSignalled));
    assert!(!timer_fires(&TimerRaceOutcome::SignalDropped));
}
