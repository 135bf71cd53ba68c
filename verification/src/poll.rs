//! Polling with a deadline, as a step function: the caller samples and
//! sleeps, the steps decide.

use crate::error::Errno;
use vstd::prelude::*;

verus! {

/// Where a poll stands.
#[derive(Clone, Copy, Debug, PartialEq, Eq, Structural)]
pub enum PollPhase {
    /// Samples are taken until one meets the condition or the deadline has passed.
    Sampling,
    /// The deadline has passed; one more sample decides.
    LastSample,
    /// The poll is over.
    Done,
}

/// What the caller of a poll is to do next.
#[derive(Clone, Copy, Debug, PartialEq, Eq)]
pub enum PollAction {
    /// Sleep for `sleep_us` microseconds, take a sample, read the clock
    /// and hand both to `read_poll_timeout`.
    Sample { sleep_us: u64 },
    /// The poll is over, with this result.
    Finish { result: Result<(), Errno> },
}

/// A poll: how long to sleep between samples, and when to give up.
#[derive(Clone, Copy, Debug, PartialEq, Eq, Structural)]
pub struct PollTimeout {
    /// The sleep between two samples, in microseconds.
    pub sleep_us: u64,
    /// The time after which the poll gives up, in microseconds; 0 for never.
    pub timeout_us: u64,
    /// The clock value after which the poll gives up.
    pub deadline: u64,
    pub phase: PollPhase,
}

/// `now + timeout_us`, or the largest clock value where the sum passes it.
pub open spec fn deadline_of(now: u64, timeout_us: u64) -> u64 {
    if now + timeout_us <= u64::MAX {
        (now + timeout_us) as u64
    } else {
        u64::MAX
    }
}

/// The poll after a sample was handed in, and what to do next.
///
/// A sample that meets the condition ends the poll with success, at any
/// time. While sampling, a sample that does not meet it is followed by
/// another after a sleep, or, once the clock has passed the deadline, by a
/// last one at once. The last sample decides between success and `TimeOut`.
pub open spec fn poll_step(p: PollTimeout, cond_met: bool, now: u64) -> (PollTimeout, PollAction) {
    match p.phase {
        PollPhase::Sampling => {
            if cond_met {
                (
                    PollTimeout { phase: PollPhase::Done, ..p },
                    PollAction::Finish { result: Ok(()) },
                )
            } else if p.timeout_us != 0 && now > p.deadline {
                (
                    PollTimeout { phase: PollPhase::LastSample, ..p },
                    PollAction::Sample { sleep_us: 0 },
                )
            } else {
                (p, PollAction::Sample { sleep_us: p.sleep_us })
            }
        },
        PollPhase::LastSample => (
            PollTimeout { phase: PollPhase::Done, ..p },
            PollAction::Finish {
                result: if cond_met {
                    Ok(())
                } else {
                    Err(Errno::TimeOut)
                },
            },
        ),
        PollPhase::Done => (p, PollAction::Finish { result: Err(Errno::TimeOut) }),
    }
}

impl PollTimeout {
    /// Starts a poll at clock value `now`. Returns the poll and the sleep
    /// before the first sample: `sleep_us` where `sleep_before` asks for it.
    pub fn start(now: u64, sleep_us: u64, timeout_us: u64, sleep_before: bool) -> (r: (
        PollTimeout,
        PollAction,
    ))
        ensures
            r.0 == (PollTimeout {
                sleep_us,
                timeout_us,
                deadline: deadline_of(now, timeout_us),
                phase: PollPhase::Sampling,
            }),
            r.1 == (PollAction::Sample { sleep_us: if sleep_before { sleep_us } else { 0 } }),
    {
        let deadline = match now.checked_add(timeout_us) {
            Some(d) => d,
            None => u64::MAX,
        };
        (
            PollTimeout { sleep_us, timeout_us, deadline, phase: PollPhase::Sampling },
            PollAction::Sample {
                sleep_us: if sleep_before {
                    sleep_us
                } else {
                    0
                },
            },
        )
    }

    /// Takes one sample. `cond_met` says whether the sample meets the
    /// condition polled for, `now` is the clock value read after it.
    pub fn read_poll_timeout(&mut self, cond_met: bool, now: u64) -> (action: PollAction)
        ensures
            *final(self) == poll_step(*old(self), cond_met, now).0,
            action == poll_step(*old(self), cond_met, now).1,
    {
        match self.phase {
            PollPhase::Sampling => {
                if cond_met {
                    self.phase = PollPhase::Done;
                    PollAction::Finish { result: Ok(()) }
                } else if self.timeout_us != 0 && now > self.deadline {
                    self.phase = PollPhase::LastSample;
                    PollAction::Sample { sleep_us: 0 }
                } else {
                    PollAction::Sample { sleep_us: self.sleep_us }
                }
            },
            PollPhase::LastSample => {
                self.phase = PollPhase::Done;
                PollAction::Finish {
                    result: if cond_met {
                        Ok(())
                    } else {
                        Err(Errno::TimeOut)
                    },
                }
            },
            PollPhase::Done => PollAction::Finish { result: Err(Errno::TimeOut) },
        }
    }
}

/// A sample that meets the condition is never lost to the clock: when the
/// deadline has passed, the poll asks for one more sample, and if that one
/// meets the condition the poll succeeds, whatever the time.
pub proof fn lemma_last_sample_counts(p: PollTimeout, now: u64, later: u64)
    requires
        p.phase == PollPhase::Sampling,
        p.timeout_us != 0,
        now > p.deadline,
    ensures
        poll_step(p, false, now).1 == (PollAction::Sample { sleep_us: 0 }),
        poll_step(poll_step(p, false, now).0, true, later).1 == (PollAction::Finish {
            result: Ok(()),
        }),
        poll_step(poll_step(p, false, now).0, false, later).1 == (PollAction::Finish {
            result: Err(Errno::TimeOut),
        }),
{
}

/// A poll that is still going on succeeds on the first sample that meets
/// the condition, and never reports a timeout for it.
pub proof fn lemma_met_sample_succeeds(p: PollTimeout, now: u64)
    requires
        p.phase != PollPhase::Done,
    ensures
        poll_step(p, true, now).1 == (PollAction::Finish { result: Ok(()) }),
{
}

} // verus!
