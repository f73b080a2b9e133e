//! What holds of the supervisor in every state and along every sequence of
//! events. All of it is stated over the model, `Supervisor`, which
//! `ServerState::handle` follows step by step.

use vstd::prelude::*;
use crate::supervisor::{Action, Event, Phase, Reply, Stage, Supervisor};

verus! {

impl Supervisor {
    /// The state after a sequence of events.
    pub open spec fn run(self, events: Seq<Event>) -> Supervisor
        decreases events.len(),
    {
        if events.len() == 0 {
            self
        } else {
            self.step(events[0]).0.run(events.drop_first())
        }
    }

    /// How often the host is asked to create a process along a sequence of
    /// events.
    pub open spec fn spawns(self, events: Seq<Event>) -> nat
        decreases events.len(),
    {
        if events.len() == 0 {
            0
        } else {
            let asked: nat = if self.step(events[0]).1 is Spawn {
                1
            } else {
                0
            };
            asked + self.step(events[0]).0.spawns(events.drop_first())
        }
    }
}

impl Supervisor {
    /// The event reports the end of the wait that the supervisor is in: the
    /// answer to the probe it asked for, or the end of the pause.
    pub open spec fn takes_report(self, event: Event) -> bool {
        ||| event is ProbeFinished && self.phase matches Phase::Starting(Stage::Probing { .. })
        ||| event is PauseFinished && self.phase == Phase::Starting(Stage::Pausing)
    }

    /// The host is punctual along a sequence of events: every report on a
    /// wait comes no later than the wait was to end. `due` is the end of the
    /// wait that is under way at the start; each probe or pause that the
    /// supervisor asks for sets the next end, counted from the report that it
    /// answers.
    pub open spec fn punctual(self, due: int, events: Seq<Event>) -> bool
        decreases events.len(),
    {
        events.len() > 0 ==> {
            let event = events[0];
            let (next, action) = self.step(event);
            let next_due = if action is Probe || action is Pause {
                event.elapsed() + action.duration()
            } else {
                due
            };
            &&& self.takes_report(event) ==> event.elapsed() <= due
            &&& next.punctual(next_due, events.drop_first())
        }
    }

    /// Every report on a wait along the sequence of events comes at `limit`
    /// at the latest.
    pub open spec fn reports_by(self, limit: int, events: Seq<Event>) -> bool
        decreases events.len(),
    {
        events.len() > 0 ==> {
            &&& self.takes_report(events[0]) ==> events[0].elapsed() <= limit
            &&& self.step(events[0]).0.reports_by(limit, events.drop_first())
        }
    }
}

impl Supervisor {
    /// The event tells of the exit of the recorded process, at a moment at
    /// which the supervisor takes the notice.
    pub open spec fn loses_process(self, event: Event) -> bool {
        event matches Event::ProcessExited { process } && self.process == Some(process) && (
        self.phase is Running || self.phase is Failed)
    }

    /// The event tells that the operating system refused the process that
    /// the supervisor is waiting for.
    pub open spec fn is_refused(self, event: Event) -> bool {
        event == (Event::SpawnFinished { created: None }) && self.phase == Phase::Starting(
            Stage::Spawning,
        )
    }

    /// Along the sequence of events no stop is asked for, and the recorded
    /// process does not exit.
    pub open spec fn undisturbed(self, events: Seq<Event>) -> bool
        decreases events.len(),
    {
        events.len() > 0 ==> {
            &&& !(events[0] is StopRequested)
            &&& !self.loses_process(events[0])
            &&& self.step(events[0]).0.undisturbed(events.drop_first())
        }
    }

    /// Along the sequence of events the operating system refuses no process.
    pub open spec fn unrefused(self, events: Seq<Event>) -> bool
        decreases events.len(),
    {
        events.len() > 0 ==> {
            &&& !self.is_refused(events[0])
            &&& self.step(events[0]).0.unrefused(events.drop_first())
        }
    }
}

/// Every event leads from a well-formed state to a well-formed state under
/// the same policy: the record always fits the phase, and at most one process
/// is on record.
pub proof fn lemma_step_keeps_well_formed(s: Supervisor, event: Event)
    requires
        s.well_formed(),
    ensures
        s.step(event).0.well_formed(),
        s.step(event).0.policy == s.policy,
{
}

/// The same along a sequence of events.
pub proof fn lemma_run_keeps_well_formed(s: Supervisor, events: Seq<Event>)
    requires
        s.well_formed(),
    ensures
        s.run(events).well_formed(),
        s.run(events).policy == s.policy,
    decreases events.len(),
{
    if events.len() > 0 {
        lemma_step_keeps_well_formed(s, events[0]);
        lemma_run_keeps_well_formed(s.step(events[0]).0, events.drop_first());
    }
}

/// The phases follow one another in a fixed order. From idle the only way
/// leads into a start. A start goes on, or ends running or failed, or is
/// overtaken by a stop. A running backend keeps running, is stopped, or exits.
/// A stop ends idle. After a failure a new start, a stop of the process that
/// was left, or its exit lead on.
pub proof fn lemma_phase_order(s: Supervisor, event: Event)
    requires
        s.well_formed(),
    ensures
        ({
            let next = s.step(event).0.phase;
            match s.phase {
                Phase::Idle => next is Idle || next == Phase::Starting(Stage::Locating),
                Phase::Starting(_) => next is Starting || next is Running || next is Failed
                    || next is Stopping,
                Phase::Running => next is Running || next is Stopping || next is Idle,
                Phase::Stopping => next is Stopping || next is Idle,
                Phase::Failed => next is Failed || next == Phase::Starting(Stage::Locating)
                    || next is Stopping || next is Idle,
            }
        }),
{
}

/// The host is asked to create a process only while the record is empty and
/// no other creation is under way; the supervisor then waits for the outcome.
pub proof fn lemma_spawn_only_on_empty_record(s: Supervisor, event: Event)
    requires
        s.well_formed(),
        s.step(event).1 is Spawn,
    ensures
        s.process is None,
        s.phase == Phase::Starting(Stage::Locating),
        s.step(event).0.phase == Phase::Starting(Stage::Spawning),
{
}

/// Starting is idempotent. As long as no stop is asked for and the recorded
/// process does not exit, a supervisor with a process on record never asks
/// for another one, however many starts are requested and whatever else the
/// host reports. If moreover the operating system refuses no process, then
/// along the whole sequence at most one is asked for, and none if a creation
/// is already under way.
pub proof fn lemma_start_spawns_once(s: Supervisor, events: Seq<Event>)
    requires
        s.well_formed(),
        s.undisturbed(events),
    ensures
        s.process is Some ==> s.spawns(events) == 0,
        s.unrefused(events) ==> s.spawns(events) <= 1,
        s.unrefused(events) && s.phase == Phase::Starting(Stage::Spawning) ==> s.spawns(events)
            == 0,
    decreases events.len(),
{
    if events.len() > 0 {
        lemma_step_keeps_well_formed(s, events[0]);
        lemma_start_spawns_once(s.step(events[0]).0, events.drop_first());
    }
}

/// Two starts in a row, the first of which got its process: the second start
/// is answered at once with "already running", asks nothing of the host and
/// changes nothing.
pub proof fn lemma_second_start_is_no_op(s: Supervisor)
    requires
        s.well_formed(),
        s.process is Some,
    ensures
        s.step(Event::StartRequested) == (s, Action::Reply(Reply::AlreadyRunning)),
{
}

/// A stop after a stop finds nothing to do. Whatever the state, and whether
/// or not the first stop could terminate the process, the second stop is
/// answered with "not running" and changes nothing; the same holds if the
/// second stop comes before the host has reported on the termination.
pub proof fn lemma_stop_twice(s: Supervisor, killed: bool)
    requires
        s.well_formed(),
    ensures
        ({
            let (first, asked) = s.step(Event::StopRequested);
            let settled = if asked is Kill {
                first.step(Event::KillFinished { killed }).0
            } else {
                first
            };
            &&& settled.process is None
            &&& settled.step(Event::StopRequested) == (settled, Action::Reply(Reply::NotRunning))
            &&& first.step(Event::StopRequested) == (first, Action::Reply(Reply::NotRunning))
        }),
{
}

/// A complete stop of a recorded process ends idle with an empty record,
/// with "stopped" if the process could be terminated and with a termination
/// failure if not.
pub proof fn lemma_stop_ends_idle(s: Supervisor, killed: bool)
    requires
        s.well_formed(),
        s.process is Some,
    ensures
        ({
            let (first, asked) = s.step(Event::StopRequested);
            let (last, answer) = first.step(Event::KillFinished { killed });
            &&& asked == (Action::Kill { process: s.process->0 })
            &&& last == s.at(Phase::Idle, None)
            &&& answer == Action::Reply(
                if killed {
                    Reply::Stopped
                } else {
                    Reply::TerminationFailed
                },
            )
        }),
{
}

/// A start that finds no binary fails with `BinaryNotFound`, asks for no
/// process, and leaves the record empty.
pub proof fn lemma_missing_binary(s: Supervisor)
    requires
        s.well_formed(),
        s.process is None,
        s.phase is Idle || s.phase is Failed,
    ensures
        ({
            let (located, first) = s.step(Event::StartRequested);
            let (last, answer) = located.step(Event::BinaryChecked { present: false });
            &&& first == Action::Locate
            &&& answer == Action::Reply(Reply::BinaryNotFound)
            &&& last == s.at(Phase::Failed, None)
        }),
{
}

/// A failure leaves the supervisor in a well-formed state, failed or idle. A
/// start that found no binary or got no process ends failed with an empty
/// record. A start that ran out of time ends failed with its process still on
/// record. A stop that could not terminate ends idle with an empty record.
pub proof fn lemma_failure_leaves_consistent_state(s: Supervisor, event: Event, reply: Reply)
    requires
        s.well_formed(),
        s.step(event).1 == Action::Reply(reply),
        !reply.succeeded(),
    ensures
        s.step(event).0.well_formed(),
        reply is BinaryNotFound || reply is SpawnFailed ==> s.step(event).0 == s.at(
            Phase::Failed,
            None,
        ),
        reply is ReadinessTimeout ==> s.step(event).0.phase is Failed && s.step(event).0.process
            is Some,
        reply is TerminationFailed ==> s.step(event).0 == s.at(Phase::Idle, None),
{
}

/// Only a stop request makes the supervisor ask for a termination, and then
/// of the recorded process. In particular a start that runs out of time
/// leaves the process alive.
pub proof fn lemma_kill_only_on_stop(s: Supervisor, event: Event)
    requires
        s.well_formed(),
        s.step(event).1 is Kill,
    ensures
        event is StopRequested,
        s.process == Some(s.step(event).1->process),
{
}

impl Supervisor {
    /// The event is a success answer to the probe that the supervisor is
    /// waiting for.
    pub open spec fn answers_ready(self, event: Event) -> bool {
        &&& self.phase matches Phase::Starting(Stage::Probing { .. })
        &&& event matches Event::ProbeFinished { outcome, .. }
        &&& outcome.ready()
    }

    /// The port of the candidate whose answer the supervisor is waiting for.
    pub open spec fn probed_port(self) -> u16
        recommends
            self.phase matches Phase::Starting(Stage::Probing { .. }),
    {
        match self.phase {
            Phase::Starting(Stage::Probing { index }) => self.policy.candidates[index as int],
            _ => 0,
        }
    }
}

/// How a start ends. It succeeds as soon as a candidate answers with a
/// success status, whatever the clock says, and names the port of that
/// candidate. Nothing else makes the backend count as running. A start fails
/// for want of readiness only once the timeout has run out.
pub proof fn lemma_start_outcome(s: Supervisor, event: Event)
    requires
        s.well_formed(),
    ensures
        s.answers_ready(event) ==> s.step(event) == (
            s.at(Phase::Running, s.process),
            Action::Reply(Reply::Started { port: s.probed_port() }),
        ),
        !s.answers_ready(event) ==> !(s.step(event).1 matches Action::Reply(
            Reply::Started { .. },
        )),
        !s.answers_ready(event) && s.step(event).0.phase is Running ==> s.phase is Running,
        s.step(event).1 == Action::Reply(Reply::ReadinessTimeout) ==> s.policy.expired(
            event.elapsed(),
        ),
{
}

/// Readiness polling keeps to its bound. Every probe that the supervisor
/// asks for is to end with the timeout at the latest, every pause less than
/// one interval after it; and once the timeout has run out, a report from the
/// host is answered with no further wait.
pub proof fn lemma_polling_keeps_bound(s: Supervisor, event: Event)
    requires
        s.well_formed(),
    ensures
        s.step(event).1 is Probe ==> event.elapsed() + s.step(event).1.duration()
            <= s.policy.timeout_ms,
        s.step(event).1 is Pause ==> event.elapsed() + s.step(event).1.duration()
            < s.policy.bound(),
        s.policy.expired(event.elapsed()) ==> !(s.step(event).1 is Probe) && !(s.step(event).1
            is Pause),
{
}

/// With a punctual host, readiness polling is over within the timeout and
/// one interval: no report on a probe or a pause, and so no answer that ends
/// the start, comes later than that after the process was created.
pub proof fn lemma_polling_ends_within_bound(s: Supervisor, due: int, events: Seq<Event>)
    requires
        s.well_formed(),
        due <= s.policy.bound(),
        s.punctual(due, events),
    ensures
        s.reports_by(s.policy.bound(), events),
    decreases events.len(),
{
    if events.len() > 0 {
        let event = events[0];
        let (next, action) = s.step(event);
        let next_due = if action is Probe || action is Pause {
            event.elapsed() + action.duration()
        } else {
            due
        };
        lemma_step_keeps_well_formed(s, event);
        lemma_polling_keeps_bound(s, event);
        lemma_polling_ends_within_bound(next, next_due, events.drop_first());
    }
}

impl Supervisor {
    /// How often the host is asked to pause along a sequence of events.
    pub open spec fn pauses(self, events: Seq<Event>) -> nat
        decreases events.len(),
    {
        if events.len() == 0 {
            0
        } else {
            let asked: nat = if self.step(events[0]).1 is Pause {
                1
            } else {
                0
            };
            asked + self.step(events[0]).0.pauses(events.drop_first())
        }
    }

    /// How often the host is asked to probe along a sequence of events.
    pub open spec fn probes(self, events: Seq<Event>) -> nat
        decreases events.len(),
    {
        if events.len() == 0 {
            0
        } else {
            let asked: nat = if self.step(events[0]).1 is Probe {
                1
            } else {
                0
            };
            asked + self.step(events[0]).0.probes(events.drop_first())
        }
    }

    /// The clock of the host runs steadily along a sequence of events: it
    /// never runs backwards, and a pause takes at least its length. `floor`
    /// is the earliest moment at which the next report on a wait may come.
    pub open spec fn steady(self, floor: int, events: Seq<Event>) -> bool
        decreases events.len(),
    {
        events.len() > 0 ==> {
            let event = events[0];
            let (next, action) = self.step(event);
            let next_floor = if action is Pause {
                event.elapsed() + action.duration()
            } else if action is Probe {
                event.elapsed() as int
            } else {
                floor
            };
            &&& self.takes_report(event) ==> floor <= event.elapsed()
            &&& next.steady(next_floor, events.drop_first())
        }
    }

    /// How many probes of the round that is under way are still to be asked
    /// for.
    pub open spec fn probes_left(self) -> nat {
        match self.phase {
            Phase::Starting(Stage::Probing { index }) => (self.policy.candidates.len() - 1
                - index) as nat,
            Phase::Starting(Stage::Pausing) => self.policy.candidates.len(),
            _ => 0,
        }
    }
}

/// Polling does not go on for ever. While the clock runs steadily and the
/// interval is not zero, the pauses of one start fill less than the time that
/// is left until the timeout, and one interval more; once the timeout has
/// passed there is none. Outside a start there is neither pause nor probe.
pub proof fn lemma_pauses_are_bounded(s: Supervisor, floor: int, events: Seq<Event>)
    requires
        s.well_formed(),
        s.process is Some,
        s.undisturbed(events),
        s.steady(floor, events),
        s.policy.interval_ms >= 1,
    ensures
        floor >= s.policy.timeout_ms ==> s.pauses(events) == 0,
        floor < s.policy.timeout_ms ==> s.pauses(events) * s.policy.interval_ms
            < s.policy.timeout_ms - floor + s.policy.interval_ms,
        !(s.phase is Starting) ==> s.pauses(events) == 0 && s.probes(events) == 0,
    decreases events.len(),
{
    if events.len() > 0 {
        let event = events[0];
        let (next, action) = s.step(event);
        let rest = events.drop_first();
        let next_floor = if action is Pause {
            event.elapsed() + action.duration()
        } else if action is Probe {
            event.elapsed() as int
        } else {
            floor
        };
        let interval = s.policy.interval_ms as int;
        lemma_step_keeps_well_formed(s, event);
        lemma_pauses_are_bounded(next, next_floor, rest);
        if action is Pause {
            let later = next.pauses(rest) as int;
            assert((1 + later) * interval == interval + later * interval) by (nonlinear_arith);
        }
    }
}

/// Between two pauses every candidate is asked once at most: the probes of
/// one start are no more than those that are left of the round under way and
/// a full round for every pause. With the bound on the pauses this bounds the
/// number of waits of a start.
pub proof fn lemma_probes_are_bounded(s: Supervisor, events: Seq<Event>)
    requires
        s.well_formed(),
        s.process is Some,
        s.undisturbed(events),
    ensures
        s.probes(events) <= s.probes_left() + s.policy.candidates.len() * s.pauses(events),
    decreases events.len(),
{
    if events.len() > 0 {
        let event = events[0];
        let (next, action) = s.step(event);
        let rest = events.drop_first();
        let count = s.policy.candidates.len() as int;
        lemma_step_keeps_well_formed(s, event);
        lemma_probes_are_bounded(next, rest);
        if action is Pause {
            let later = next.pauses(rest) as int;
            assert(count * (1 + later) == count + count * later) by (nonlinear_arith);
        }
    }
}

} // verus!
