use dw_apb_i2c::error::Errno;
use dw_apb_i2c::poll::{PollAction, PollPhase, PollTimeout};

#[test]
fn poll_starts_with_or_without_a_sleep() {
    let (p, a) = PollTimeout::start(1000, 10, 100, false);
    assert_eq!(a, PollAction::Sample { sleep_us: 0 });
    assert_eq!(p.deadline, 1100);
    assert_eq!(p.phase, PollPhase::Sampling);
    let (_, a) = PollTimeout::start(1000, 10, 100, true);
    assert_eq!(a, PollAction::Sample { sleep_us: 10 });
    let (_, a) = PollTimeout::start(1000, 0, 100, true);
    assert_eq!(a, PollAction::Sample { sleep_us: 0 });
}

#[test]
fn poll_deadline_stops_at_the_largest_clock_value() {
    let (p, _) = PollTimeout::start(u64::MAX - 5, 10, 100, false);
    assert_eq!(p.deadline, u64::MAX);
}

#[test]
fn poll_succeeds_on_the_first_good_sample() {
    let (mut p, _) = PollTimeout::start(0, 10, 100, false);
    assert_eq!(p.read_poll_timeout(false, 10), PollAction::Sample { sleep_us: 10 });
    assert_eq!(p.read_poll_timeout(false, 20), PollAction::Sample { sleep_us: 10 });
    assert_eq!(p.read_poll_timeout(true, 30), PollAction::Finish { result: Ok(()) });
    assert_eq!(p.phase, PollPhase::Done);
}

#[test]
fn poll_keeps_sampling_at_the_deadline_itself() {
    let (mut p, _) = PollTimeout::start(0, 10, 100, false);
    assert_eq!(p.read_poll_timeout(false, 100), PollAction::Sample { sleep_us: 10 });
    assert_eq!(p.phase, PollPhase::Sampling);
}

#[test]
fn poll_success_on_the_last_sample_is_not_lost() {
    let (mut p, _) = PollTimeout::start(0, 10, 100, false);
    // the deadline has passed: one more sample, at once
    assert_eq!(p.read_poll_timeout(false, 101), PollAction::Sample { sleep_us: 0 });
    assert_eq!(p.phase, PollPhase::LastSample);
    assert_eq!(p.read_poll_timeout(true, 500), PollAction::Finish { result: Ok(()) });
}

#[test]
fn poll_times_out_when_the_last_sample_fails() {
    let (mut p, _) = PollTimeout::start(0, 10, 100, false);
    assert_eq!(p.read_poll_timeout(false, 101), PollAction::Sample { sleep_us: 0 });
    assert_eq!(p.read_poll_timeout(false, 102), PollAction::Finish { result: Err(Errno::TimeOut) });
    // a poll that is over stays over
    assert_eq!(p.read_poll_timeout(true, 103), PollAction::Finish { result: Err(Errno::TimeOut) });
}

#[test]
fn poll_without_timeout_never_gives_up() {
    let (mut p, _) = PollTimeout::start(0, 5, 0, false);
    assert_eq!(p.read_poll_timeout(false, u64::MAX), PollAction::Sample { sleep_us: 5 });
    assert_eq!(p.phase, PollPhase::Sampling);
}

#[test]
fn poll_good_sample_past_the_deadline_succeeds_at_once() {
    let (mut p, _) = PollTimeout::start(0, 10, 100, false);
    assert_eq!(p.read_poll_timeout(true, 1000), PollAction::Finish { result: Ok(()) });
}
