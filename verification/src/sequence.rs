//! Sequences that need the controller's answer between their steps:
//! waiting for an idle bus, and switching the controller off.
//!
//! A step hands back the register accesses to make and what to wait for.
//! The caller makes the accesses, waits, and hands the answer to the next step.

use crate::error::Errno;
use crate::poll::{poll_step, PollAction, PollPhase, PollTimeout};
use crate::registers::{bit, bit_is_set, field_modify, reg_modify, HwOp, Reg};
use crate::registers::{IC_ENABLE_ABORT, IC_ENABLE_STATUS_IC_EN, IC_INTR_MST_ON_HOLD};
use vstd::prelude::*;

verus! {

/// What the caller of a step is to do once the step's accesses are made.
#[derive(Clone, Copy, Debug, PartialEq, Eq)]
pub enum Next {
    /// Sleep for `sleep_us` microseconds, read `reg`, read the clock, and
    /// hand both to the next step.
    Sample { reg: Reg, sleep_us: u64 },
    /// Wait for the interrupt handler to signal the end of the transaction,
    /// and hand on whether it did so in time.
    AwaitCompletion,
    /// The sequence is over, with this result.
    Done { result: Result<i32, Errno> },
}

/// One step of a sequence.
#[derive(Debug)]
pub struct Step {
    /// The register accesses to make, in order.
    pub ops: Vec<HwOp>,
    pub next: Next,
}

/// One step of a sequence, as contracts see it.
pub struct StepView {
    pub ops: Seq<HwOp>,
    pub next: Next,
}

impl View for Step {
    type V = StepView;

    open spec fn view(&self) -> StepView {
        StepView { ops: self.ops@, next: self.next }
    }
}

/// How often the controller is switched off before the driver gives up.
pub const DISABLE_ATTEMPTS: u32 = 100;

/// The sleep after each switching off, in microseconds.
pub const DISABLE_SLEEP_US: u64 = 100;

/// The sleep between two looks at the abort bit, in microseconds.
pub const ABORT_POLL_SLEEP_US: u64 = 10;

/// The time given to an abort, in microseconds.
pub const ABORT_POLL_TIMEOUT_US: u64 = 100;

/// The sleep between two looks at the bus, in microseconds.
pub const BUS_POLL_SLEEP_US: u64 = 1100;

/// The time given to the bus to become idle, in microseconds.
pub const BUS_POLL_TIMEOUT_US: u64 = 20000;

/// Where the switching off of the controller stands.
#[derive(Clone, Copy, Debug, PartialEq, Eq, Structural)]
pub enum DisablePhase {
    /// IC_RAW_INTR_STAT has been asked for.
    ReadRawIntrStat,
    /// IC_ENABLE has been asked for.
    ReadEnable,
    /// An abort was requested; IC_ENABLE is polled until the abort bit clears.
    AbortPoll,
    /// The controller was switched off; IC_ENABLE_STATUS is looked at.
    Shutdown,
    /// The sequence is over.
    Done,
}

/// The switching off of the controller.
#[derive(Clone, Copy, Debug, PartialEq, Eq, Structural)]
pub struct DisableSeq {
    pub phase: DisablePhase,
    /// The master holds the bus: the transfer is to be aborted first.
    pub need_abort: bool,
    /// The poll of the abort bit.
    pub poll: PollTimeout,
    /// How often the controller may still be switched off.
    pub tries_left: u32,
    /// The controller was still enabled when the driver gave up.
    pub gave_up: bool,
}

/// The step that switches the controller off and asks for its enable status.
pub open spec fn shutdown_step() -> StepView {
    StepView {
        ops: seq![HwOp::Write { reg: Reg::Enable, value: 0 }],
        next: Next::Sample { reg: Reg::EnableStatus, sleep_us: DISABLE_SLEEP_US },
    }
}

/// The step that ends a sequence without a result of its own.
pub open spec fn done_step() -> StepView {
    StepView { ops: Seq::empty(), next: Next::Done { result: Ok(0) } }
}

/// The sequence as it begins to switch the controller off.
pub open spec fn shutdown_begin(s: DisableSeq) -> DisableSeq {
    DisableSeq { phase: DisablePhase::Shutdown, tries_left: DISABLE_ATTEMPTS, ..s }
}

/// The sequence before its first step.
pub open spec fn disable_begin() -> DisableSeq {
    DisableSeq {
        phase: DisablePhase::ReadRawIntrStat,
        need_abort: false,
        poll: PollTimeout { sleep_us: 0, timeout_us: 0, deadline: 0, phase: PollPhase::Done },
        tries_left: DISABLE_ATTEMPTS,
        gave_up: false,
    }
}

/// One step of switching the controller off. `value` is the register that
/// the step before asked for, `now` the clock value read with it.
///
/// Where IC_RAW_INTR_STAT shows the master holding the bus, the abort bit
/// of IC_ENABLE is set and polled until it clears or its time is up; the
/// sequence goes on either way. Then the controller is switched off and
/// IC_ENABLE_STATUS is looked at, again and again while it shows the
/// controller enabled, `DISABLE_ATTEMPTS` times at most.
pub open spec fn disable_step(s: DisableSeq, value: u32, now: u64) -> (DisableSeq, StepView) {
    match s.phase {
        DisablePhase::ReadRawIntrStat => (
            DisableSeq {
                phase: DisablePhase::ReadEnable,
                need_abort: bit(value, IC_INTR_MST_ON_HOLD),
                ..s
            },
            StepView { ops: Seq::empty(), next: Next::Sample { reg: Reg::Enable, sleep_us: 0 } },
        ),
        DisablePhase::ReadEnable => {
            if s.need_abort {
                (
                    DisableSeq {
                        phase: DisablePhase::AbortPoll,
                        poll: PollTimeout {
                            sleep_us: ABORT_POLL_SLEEP_US,
                            timeout_us: ABORT_POLL_TIMEOUT_US,
                            deadline: crate::poll::deadline_of(now, ABORT_POLL_TIMEOUT_US),
                            phase: PollPhase::Sampling,
                        },
                        ..s
                    },
                    StepView {
                        ops: seq![
                            HwOp::Write {
                                reg: Reg::Enable,
                                value: field_modify(value, 1, IC_ENABLE_ABORT, 1),
                            },
                        ],
                        next: Next::Sample { reg: Reg::Enable, sleep_us: 0 },
                    },
                )
            } else {
                (shutdown_begin(s), shutdown_step())
            }
        },
        DisablePhase::AbortPoll => {
            let polled = poll_step(s.poll, !bit(value, IC_ENABLE_ABORT), now);
            match polled.1 {
                PollAction::Sample { sleep_us } => (
                    DisableSeq { poll: polled.0, ..s },
                    StepView { ops: Seq::empty(), next: Next::Sample { reg: Reg::Enable, sleep_us } },
                ),
                PollAction::Finish { result } => (
                    shutdown_begin(DisableSeq { poll: polled.0, ..s }),
                    shutdown_step(),
                ),
            }
        },
        DisablePhase::Shutdown => {
            if !bit(value, IC_ENABLE_STATUS_IC_EN) {
                (DisableSeq { phase: DisablePhase::Done, ..s }, done_step())
            } else if s.tries_left <= 1 {
                (
                    DisableSeq { phase: DisablePhase::Done, tries_left: 0, gave_up: true, ..s },
                    done_step(),
                )
            } else {
                (DisableSeq { tries_left: (s.tries_left - 1) as u32, ..s }, shutdown_step())
            }
        },
        DisablePhase::Done => (s, done_step()),
    }
}

fn make_shutdown_step() -> (step: Step)
    ensures
        step@ == shutdown_step(),
{
    let mut ops: Vec<HwOp> = Vec::new();
    ops.push(HwOp::Write { reg: Reg::Enable, value: 0 });
    assert(ops@ =~= shutdown_step().ops);
    Step { ops, next: Next::Sample { reg: Reg::EnableStatus, sleep_us: DISABLE_SLEEP_US } }
}

fn make_done_step() -> (step: Step)
    ensures
        step@ == done_step(),
{
    Step { ops: Vec::new(), next: Next::Done { result: Ok(0) } }
}

impl DisableSeq {
    /// Begins to switch the controller off: asks for IC_RAW_INTR_STAT.
    pub fn begin() -> (r: (DisableSeq, Step))
        ensures
            r.0 == disable_begin(),
            r.1@ == (StepView {
                ops: Seq::empty(),
                next: Next::Sample { reg: Reg::RawIntrStat, sleep_us: 0 },
            }),
    {
        (
            DisableSeq {
                phase: DisablePhase::ReadRawIntrStat,
                need_abort: false,
                poll: PollTimeout {
                    sleep_us: 0,
                    timeout_us: 0,
                    deadline: 0,
                    phase: PollPhase::Done,
                },
                tries_left: DISABLE_ATTEMPTS,
                gave_up: false,
            },
            Step { ops: Vec::new(), next: Next::Sample { reg: Reg::RawIntrStat, sleep_us: 0 } },
        )
    }

    /// Whether the sequence is over.
    pub fn is_done(&self) -> (r: bool)
        ensures
            r == (self.phase == DisablePhase::Done),
    {
        self.phase == DisablePhase::Done
    }

    /// Takes the register that the step before asked for, and the clock
    /// value read with it, and decides the next step.
    pub fn disable_controler(&mut self, value: u32, now: u64) -> (step: Step)
        ensures
            *final(self) == disable_step(*old(self), value, now).0,
            step@ == disable_step(*old(self), value, now).1,
    {
        match self.phase {
            DisablePhase::ReadRawIntrStat => {
                self.need_abort = bit_is_set(value, IC_INTR_MST_ON_HOLD);
                self.phase = DisablePhase::ReadEnable;
                Step { ops: Vec::new(), next: Next::Sample { reg: Reg::Enable, sleep_us: 0 } }
            },
            DisablePhase::ReadEnable => {
                if self.need_abort {
                    let mut ops: Vec<HwOp> = Vec::new();
                    ops.push(
                        HwOp::Write {
                            reg: Reg::Enable,
                            value: reg_modify(value, 1, IC_ENABLE_ABORT, 1),
                        },
                    );
                    let started = PollTimeout::start(
                        now,
                        ABORT_POLL_SLEEP_US,
                        ABORT_POLL_TIMEOUT_US,
                        false,
                    );
                    self.poll = started.0;
                    self.phase = DisablePhase::AbortPoll;
                    assert(ops@ =~= disable_step(*old(self), value, now).1.ops);
                    Step { ops, next: Next::Sample { reg: Reg::Enable, sleep_us: 0 } }
                } else {
                    self.phase = DisablePhase::Shutdown;
                    self.tries_left = DISABLE_ATTEMPTS;
                    make_shutdown_step()
                }
            },
            DisablePhase::AbortPoll => {
                let cleared = !bit_is_set(value, IC_ENABLE_ABORT);
                match self.poll.read_poll_timeout(cleared, now) {
                    PollAction::Sample { sleep_us } => Step {
                        ops: Vec::new(),
                        next: Next::Sample { reg: Reg::Enable, sleep_us },
                    },
                    PollAction::Finish { result } => {
                        self.phase = DisablePhase::Shutdown;
                        self.tries_left = DISABLE_ATTEMPTS;
                        make_shutdown_step()
                    },
                }
            },
            DisablePhase::Shutdown => {
                if !bit_is_set(value, IC_ENABLE_STATUS_IC_EN) {
                    self.phase = DisablePhase::Done;
                    make_done_step()
                } else if self.tries_left <= 1 {
                    self.phase = DisablePhase::Done;
                    self.tries_left = 0;
                    self.gave_up = true;
                    make_done_step()
                } else {
                    self.tries_left = self.tries_left - 1;
                    make_shutdown_step()
                }
            },
            DisablePhase::Done => make_done_step(),
        }
    }
}

/// The sequence after `n` more steps, the `k`-th of which is handed
/// `values(k)` and `clock(k)`.
pub open spec fn disable_run(
    s: DisableSeq,
    values: spec_fn(nat) -> u32,
    clock: spec_fn(nat) -> u64,
    n: nat,
) -> DisableSeq
    decreases n,
{
    if n == 0 {
        s
    } else {
        disable_step(disable_run(s, values, clock, (n - 1) as nat), values((n - 1) as nat), clock((n - 1) as nat)).0
    }
}

/// Switching the controller off always comes to an end: once the
/// controller has been switched off for the first time, the sequence is
/// over after as many steps as attempts are left (and after one step where
/// none is), whatever the enable status shows, and it stays over.
pub proof fn lemma_disable_terminates(
    s: DisableSeq,
    values: spec_fn(nat) -> u32,
    clock: spec_fn(nat) -> u64,
    n: nat,
)
    requires
        s.phase == DisablePhase::Shutdown || s.phase == DisablePhase::Done,
        n >= s.tries_left,
        n >= 1,
    ensures
        disable_run(s, values, clock, n).phase == DisablePhase::Done,
{
    lemma_disable_progress(s, values, clock, n);
}

proof fn lemma_disable_progress(
    s: DisableSeq,
    values: spec_fn(nat) -> u32,
    clock: spec_fn(nat) -> u64,
    n: nat,
)
    requires
        s.phase == DisablePhase::Shutdown || s.phase == DisablePhase::Done,
    ensures
        ({
            let r = disable_run(s, values, clock, n);
            ||| n == 0 && r == s
            ||| r.phase == DisablePhase::Done
            ||| r.phase == DisablePhase::Shutdown && r.tries_left + n <= s.tries_left
                && r.tries_left >= 1
        }),
    decreases n,
{
    if n > 0 {
        lemma_disable_progress(s, values, clock, (n - 1) as nat);
    }
}

} // verus!
