use blocking::{tokens, wait_outcome, SignalToken};
use std::time::{Duration, Instant};

#[test]
fn signal_before_wait_returns() {
    let (w, s) = tokens();
    assert!(s.signal());
    w.wait();
}

#[test]
fn signal_before_bounded_wait_reports_woken() {
    let (w, s) = tokens();
    assert!(s.signal());
    let start = Instant::now();
    assert!(w.wait_max_until(start + Duration::from_secs(5)));
    assert!(start.elapsed() < Duration::from_secs(5));
}

#[test]
fn signal_always_reports_true() {
    let (_w, s) = tokens();
    assert!(s.signal());
    assert!(s.signal());
}

#[test]
fn repeated_signals_from_clones_act_as_one() {
    let (w, s) = tokens();
    let s2 = s.clone();
    let s3 = s2.clone();
    assert!(s.signal());
    assert!(s2.signal());
    assert!(s3.signal());
    assert!(s.signal());
    assert!(w.wait_max_until(Instant::now() + Duration::from_secs(5)));
}

#[test]
fn clone_signals_the_same_waiter() {
    let (w, s) = tokens();
    let c = s.clone();
    drop(s);
    assert!(c.signal());
    w.wait();
}

#[test]
fn bounded_wait_without_signal_times_out_after_deadline() {
    let (w, _s) = tokens();
    let deadline = Instant::now() + Duration::from_millis(100);
    assert!(!w.wait_max_until(deadline));
    assert!(Instant::now() >= deadline);
}

#[test]
fn bounded_wait_with_past_deadline_still_checks_flag() {
    let (w, s) = tokens();
    let past = Instant::now();
    assert!(s.signal());
    assert!(w.wait_max_until(past));
}

#[test]
fn bounded_wait_with_past_deadline_and_no_signal_times_out() {
    let (w, _s) = tokens();
    assert!(!w.wait_max_until(Instant::now()));
}

#[test]
fn shared_round_trip_keeps_the_pairing() {
    let (w, s) = tokens();
    let inner = s.into_shared();
    let back = SignalToken::from_shared(inner);
    assert!(back.signal());
    assert!(w.wait_max_until(Instant::now() + Duration::from_secs(5)));
}

#[test]
fn outcome_of_a_wait_that_did_not_time_out() {
    assert!(wait_outcome(false, true));
}

#[test]
fn outcome_of_a_timed_out_wait_follows_the_flag() {
    assert!(wait_outcome(true, true));
    assert!(!wait_outcome(true, false));
}

#[test]
fn unsignalled_pairs_are_independent() {
    let (w1, s1) = tokens();
    let (w2, _s2) = tokens();
    assert!(s1.signal());
    assert!(w1.wait_max_until(Instant::now() + Duration::from_secs(5)));
    assert!(!w2.wait_max_until(Instant::now() + Duration::from_millis(20)));
}
