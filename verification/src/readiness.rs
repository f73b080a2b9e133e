//! Readiness polling: which health endpoint to ask next, for how long to
//! wait, and when to give up.
//!
//! Polling goes round the candidate ports in order. A success answer from any
//! candidate ends it at once. Otherwise the deadline is looked at after every
//! answer and after every pause, so that no wait is begun once the timeout has
//! run out, and a wait for an answer never reaches past the timeout.

use vstd::prelude::*;
use crate::http::{is_success, success_status};

verus! {

/// What one health probe brought back.
#[derive(Clone, Copy, Debug, PartialEq, Eq, Structural)]
pub enum ProbeOutcome {
    /// The endpoint answered with this HTTP status.
    Answered { status: u16 },
    /// Nothing answered: the connection was refused or the wait ran out.
    NoAnswer,
}

impl ProbeOutcome {
    /// The endpoint answered with a success status (200 to 299).
    pub open spec fn ready(self) -> bool {
        self matches ProbeOutcome::Answered { status } && success_status(status)
    }

    /// Whether the endpoint answered with a success status.
    pub fn is_ready(self) -> (yes: bool)
        ensures
            yes == self.ready(),
    {
        match self {
            ProbeOutcome::Answered { status } => is_success(status),
            ProbeOutcome::NoAnswer => false,
        }
    }
}

/// How readiness polling ended.
#[derive(Clone, Copy, Debug, PartialEq, Eq, Structural)]
pub enum ReadinessResult {
    /// The candidate on this port answered with a success status.
    Ready { port: u16 },
    /// The timeout ran out before any candidate answered with success.
    TimedOut,
}

/// The next move of the polling.
#[derive(Clone, Copy, Debug, PartialEq, Eq, Structural)]
pub enum PollStep {
    /// Ask the candidate at `index`, on `port`, and wait at most `timeout_ms`.
    Probe { index: usize, port: u16, timeout_ms: u64 },
    /// Let `ms` milliseconds pass before the next round.
    Pause { ms: u64 },
    /// Polling is over.
    Done(ReadinessResult),
}

/// The mathematical content of a `ReadinessPolicy`.
pub struct PolicyView {
    /// The ports that are asked, in this order, in every round.
    pub candidates: Seq<u16>,
    /// After this many milliseconds without success, polling gives up.
    pub timeout_ms: u64,
    /// The pause between two rounds.
    pub interval_ms: u64,
    /// The longest wait for the answer of one probe.
    pub probe_timeout_ms: u64,
}

impl PolicyView {
    /// The usual policy.
    pub open spec fn standard() -> PolicyView {
        PolicyView {
            candidates: seq![8080u16, 7500u16, 5000u16, 3000u16],
            timeout_ms: 30_000,
            interval_ms: 500,
            probe_timeout_ms: 1_000,
        }
    }

    /// There is at least one candidate, and their number fits an index.
    pub open spec fn well_formed(self) -> bool {
        1 <= self.candidates.len() <= usize::MAX
    }

    /// The latest moment at which polling may still be waiting.
    pub open spec fn bound(self) -> int {
        self.timeout_ms + self.interval_ms
    }

    /// The timeout has run out at `elapsed_ms`.
    pub open spec fn expired(self, elapsed_ms: u64) -> bool {
        elapsed_ms >= self.timeout_ms
    }

    /// The wait granted to a probe that begins at `elapsed_ms`: the configured
    /// wait, cut so that it ends with the timeout at the latest.
    pub open spec fn probe_wait(self, elapsed_ms: u64) -> u64 {
        if self.probe_timeout_ms <= self.timeout_ms - elapsed_ms {
            self.probe_timeout_ms
        } else {
            (self.timeout_ms - elapsed_ms) as u64
        }
    }

    /// The probe of the candidate at `index`, begun at `elapsed_ms`.
    pub open spec fn probe(self, index: usize, elapsed_ms: u64) -> PollStep {
        PollStep::Probe {
            index,
            port: self.candidates[index as int],
            timeout_ms: self.probe_wait(elapsed_ms),
        }
    }

    /// The move at the start of a round: give up if the timeout has run out,
    /// else ask the first candidate.
    pub open spec fn round(self, elapsed_ms: u64) -> PollStep {
        if self.expired(elapsed_ms) {
            PollStep::Done(ReadinessResult::TimedOut)
        } else {
            self.probe(0, elapsed_ms)
        }
    }

    /// The move after the candidate at `index` brought back `outcome`.
    pub open spec fn after_probe(
        self,
        index: usize,
        outcome: ProbeOutcome,
        elapsed_ms: u64,
    ) -> PollStep {
        if outcome.ready() {
            PollStep::Done(ReadinessResult::Ready { port: self.candidates[index as int] })
        } else if self.expired(elapsed_ms) {
            PollStep::Done(ReadinessResult::TimedOut)
        } else if index + 1 < self.candidates.len() {
            self.probe((index + 1) as usize, elapsed_ms)
        } else {
            PollStep::Pause { ms: self.interval_ms }
        }
    }
}

/// The settings of readiness polling.
pub struct ReadinessPolicy {
    candidates: Vec<u16>,
    timeout_ms: u64,
    interval_ms: u64,
    probe_timeout_ms: u64,
}

impl View for ReadinessPolicy {
    type V = PolicyView;

    closed spec fn view(&self) -> PolicyView {
        PolicyView {
            candidates: self.candidates@,
            timeout_ms: self.timeout_ms,
            interval_ms: self.interval_ms,
            probe_timeout_ms: self.probe_timeout_ms,
        }
    }
}

impl ReadinessPolicy {
    #[verifier::type_invariant]
    pub(crate) open spec fn inv(self) -> bool {
        self@.well_formed()
    }

    /// A policy over the given candidate ports, or `None` if there are none.
    pub fn new(
        candidates: Vec<u16>,
        timeout_ms: u64,
        interval_ms: u64,
        probe_timeout_ms: u64,
    ) -> (policy: Option<ReadinessPolicy>)
        ensures
            policy is Some <==> candidates@.len() >= 1,
            policy matches Some(p) ==> p@ == (PolicyView {
                candidates: candidates@,
                timeout_ms,
                interval_ms,
                probe_timeout_ms,
            }),
    {
        if candidates.len() == 0 {
            None
        } else {
            Some(ReadinessPolicy { candidates, timeout_ms, interval_ms, probe_timeout_ms })
        }
    }

    /// The usual policy: the ports 8080, 7500, 5000 and 3000, a timeout of
    /// 30 seconds, half a second between rounds, and one second for each
    /// probe.
    pub fn standard() -> (policy: ReadinessPolicy)
        ensures
            policy@ == PolicyView::standard(),
    {
        let mut candidates: Vec<u16> = Vec::new();
        candidates.push(8080);
        candidates.push(7500);
        candidates.push(5000);
        candidates.push(3000);
        assert(candidates@ =~= PolicyView::standard().candidates);
        ReadinessPolicy {
            candidates,
            timeout_ms: 30_000,
            interval_ms: 500,
            probe_timeout_ms: 1_000,
        }
    }

    /// The candidate ports, in the order in which they are asked.
    pub fn candidates(&self) -> (candidates: &Vec<u16>)
        ensures
            candidates@ == self@.candidates,
            candidates@.len() >= 1,
    {
        proof {
            use_type_invariant(self);
        }
        &self.candidates
    }

    /// The timeout of the polling, in milliseconds.
    pub fn timeout_ms(&self) -> (ms: u64)
        ensures
            ms == self@.timeout_ms,
    {
        self.timeout_ms
    }

    /// The pause between two rounds, in milliseconds.
    pub fn interval_ms(&self) -> (ms: u64)
        ensures
            ms == self@.interval_ms,
    {
        self.interval_ms
    }

    /// The longest wait for the answer of one probe, in milliseconds.
    pub fn probe_timeout_ms(&self) -> (ms: u64)
        ensures
            ms == self@.probe_timeout_ms,
    {
        self.probe_timeout_ms
    }

    fn probe(&self, index: usize, elapsed_ms: u64) -> (step: PollStep)
        requires
            index < self@.candidates.len(),
            elapsed_ms < self@.timeout_ms,
        ensures
            step == self@.probe(index, elapsed_ms),
    {
        let left: u64 = self.timeout_ms - elapsed_ms;
        let wait: u64 = if self.probe_timeout_ms <= left {
            self.probe_timeout_ms
        } else {
            left
        };
        PollStep::Probe { index, port: self.candidates[index], timeout_ms: wait }
    }

    /// The move at the start of a round that begins at `elapsed_ms`.
    pub(crate) fn round(&self, elapsed_ms: u64) -> (step: PollStep)
        ensures
            step == self@.round(elapsed_ms),
    {
        proof {
            use_type_invariant(self);
        }
        if elapsed_ms >= self.timeout_ms {
            PollStep::Done(ReadinessResult::TimedOut)
        } else {
            self.probe(0, elapsed_ms)
        }
    }

    /// The move after the candidate at `index` brought back `outcome`, learnt
    /// at `elapsed_ms`.
    pub(crate) fn after_probe(
        &self,
        index: usize,
        outcome: ProbeOutcome,
        elapsed_ms: u64,
    ) -> (step: PollStep)
        requires
            index < self@.candidates.len(),
        ensures
            step == self@.after_probe(index, outcome, elapsed_ms),
    {
        proof {
            use_type_invariant(self);
        }
        if outcome.is_ready() {
            PollStep::Done(ReadinessResult::Ready { port: self.candidates[index] })
        } else if elapsed_ms >= self.timeout_ms {
            PollStep::Done(ReadinessResult::TimedOut)
        } else if index + 1 < self.candidates.len() {
            self.probe(index + 1, elapsed_ms)
        } else {
            PollStep::Pause { ms: self.interval_ms }
        }
    }
}

} // verus!
