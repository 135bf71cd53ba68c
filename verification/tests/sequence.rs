use dw_apb_i2c::registers::{HwOp, Reg};
use dw_apb_i2c::sequence::{DisablePhase, DisableSeq, Next};

fn off() -> Vec<HwOp> {
    vec![HwOp::Write { reg: Reg::Enable, value: 0 }]
}

#[test]
fn disable_without_a_held_bus() {
    let (mut seq, step) = DisableSeq::begin();
    assert!(step.ops.is_empty());
    assert_eq!(step.next, Next::Sample { reg: Reg::RawIntrStat, sleep_us: 0 });

    let step = seq.disable_controler(0, 0);
    assert!(step.ops.is_empty());
    assert_eq!(step.next, Next::Sample { reg: Reg::Enable, sleep_us: 0 });

    let step = seq.disable_controler(1, 0);
    assert_eq!(step.ops, off());
    assert_eq!(step.next, Next::Sample { reg: Reg::EnableStatus, sleep_us: 100 });

    let step = seq.disable_controler(0, 100);
    assert!(step.ops.is_empty());
    assert_eq!(step.next, Next::Done { result: Ok(0) });
    assert!(seq.is_done());
    assert!(!seq.gave_up);
}

#[test]
fn disable_aborts_a_held_bus_first() {
    let (mut seq, _) = DisableSeq::begin();
    // MST_ON_HOLD
    seq.disable_controler(0x2000, 0);
    let step = seq.disable_controler(0x1, 1000);
    assert_eq!(step.ops, vec![HwOp::Write { reg: Reg::Enable, value: 0x3 }]);
    assert_eq!(step.next, Next::Sample { reg: Reg::Enable, sleep_us: 0 });
    assert_eq!(seq.phase, DisablePhase::AbortPoll);

    // the abort bit is still set
    let step = seq.disable_controler(0x3, 1010);
    assert!(step.ops.is_empty());
    assert_eq!(step.next, Next::Sample { reg: Reg::Enable, sleep_us: 10 });

    // the abort bit has cleared
    let step = seq.disable_controler(0x1, 1020);
    assert_eq!(step.ops, off());
    assert_eq!(step.next, Next::Sample { reg: Reg::EnableStatus, sleep_us: 100 });
    assert_eq!(seq.phase, DisablePhase::Shutdown);
}

#[test]
fn disable_goes_on_when_the_abort_times_out() {
    let (mut seq, _) = DisableSeq::begin();
    seq.disable_controler(0x2000, 0);
    seq.disable_controler(0x1, 1000);
    // past the deadline of 1100: one last look
    let step = seq.disable_controler(0x3, 1101);
    assert_eq!(step.next, Next::Sample { reg: Reg::Enable, sleep_us: 0 });
    let step = seq.disable_controler(0x3, 1102);
    assert_eq!(step.ops, off());
    assert_eq!(seq.phase, DisablePhase::Shutdown);
}

#[test]
fn disable_gives_up_after_a_hundred_attempts() {
    let (mut seq, _) = DisableSeq::begin();
    seq.disable_controler(0, 0);
    let mut step = seq.disable_controler(1, 0);
    let mut writes = 0;
    let mut rounds = 0;
    while step.next != (Next::Done { result: Ok(0) }) {
        writes += step.ops.len();
        rounds += 1;
        assert!(rounds <= 100);
        // the controller never reports that it is off
        step = seq.disable_controler(1, 0);
    }
    assert_eq!(writes, 100);
    assert_eq!(rounds, 100);
    assert!(seq.is_done());
    assert!(seq.gave_up);
    assert_eq!(seq.tries_left, 0);
}

#[test]
fn disable_that_is_over_stays_over() {
    let (mut seq, _) = DisableSeq::begin();
    seq.disable_controler(0, 0);
    seq.disable_controler(1, 0);
    seq.disable_controler(0, 0);
    let step = seq.disable_controler(1, 0);
    assert!(step.ops.is_empty());
    assert_eq!(step.next, Next::Done { result: Ok(0) });
}
