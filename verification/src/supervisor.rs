//! The supervisor's state machine.
//!
//! The supervisor owns the record of at most one backend process. The host
//! tells it what happened (`Event`) and is told what to do next (`Action`):
//! the supervisor itself creates no process, sends no request and reads no
//! clock. A command of the user interface is a short conversation: it begins
//! with a request event and ends when the supervisor answers with a `Reply`.
//!
//! `Supervisor` is the mathematical model and `Supervisor::step` its
//! transition function; `ServerState` is the executable state, and
//! `ServerState::handle` computes exactly `step`.

use vstd::prelude::*;
use crate::readiness::{PolicyView, PollStep, ProbeOutcome, ReadinessPolicy, ReadinessResult};

verus! {

/// The operating system's name for a backend process that the host created.
#[derive(Clone, Copy, Debug, PartialEq, Eq, Structural)]
pub struct ProcessHandle {
    pub pid: u32,
}

/// What a start in progress is waiting for.
#[derive(Clone, Copy, Debug, PartialEq, Eq, Structural)]
pub enum Stage {
    /// To learn whether the backend binary exists.
    Locating,
    /// To learn whether the operating system created the process.
    Spawning,
    /// For the answer of the candidate at `index`.
    Probing { index: usize },
    /// For the end of the pause between two rounds of probes.
    Pausing,
}

/// Where the supervisor stands in the life of the backend.
#[derive(Clone, Copy, Debug, PartialEq, Eq, Structural)]
pub enum Phase {
    /// Nothing has been started, or what was started has been stopped or has exited.
    Idle,
    /// A start is in progress.
    Starting(Stage),
    /// The backend answered a health probe with success.
    Running,
    /// The host has been asked to terminate the process.
    Stopping,
    /// The last start failed.
    Failed,
}

/// The answer that ends a conversation.
#[derive(Clone, Copy, Debug, PartialEq, Eq, Structural)]
pub enum Reply {
    /// The backend is ready; the candidate on `port` answered.
    Started { port: u16 },
    /// A process is already recorded; nothing was done.
    AlreadyRunning,
    /// The recorded process was terminated.
    Stopped,
    /// No process is recorded; nothing was done.
    NotRunning,
    /// The backend binary does not exist at the expected place.
    BinaryNotFound,
    /// The operating system refused to create the process.
    SpawnFailed,
    /// No health probe succeeded before the timeout ran out.
    ReadinessTimeout,
    /// The process could not be terminated.
    TerminationFailed,
}

impl Reply {
    /// The reply reports a success.
    pub open spec fn succeeded(self) -> bool {
        self is Started || self is AlreadyRunning || self is Stopped || self is NotRunning
    }
}

/// What the host reports to the supervisor.
#[derive(Clone, Copy, Debug, PartialEq, Eq, Structural)]
pub enum Event {
    /// The user interface asks for the backend to be started.
    StartRequested,
    /// The host looked for the backend binary.
    BinaryChecked { present: bool },
    /// The host tried to create the process: the new process, or `None` if
    /// the operating system refused. The polling clock starts here.
    SpawnFinished { created: Option<ProcessHandle> },
    /// A health probe came back, `elapsed_ms` after the process was created.
    ProbeFinished { outcome: ProbeOutcome, elapsed_ms: u64 },
    /// A pause is over, `elapsed_ms` after the process was created.
    PauseFinished { elapsed_ms: u64 },
    /// The user interface asks for the backend to be stopped.
    StopRequested,
    /// The host tried to terminate the process.
    KillFinished { killed: bool },
    /// The host saw that this process has exited by itself.
    ProcessExited { process: ProcessHandle },
}

impl Event {
    /// The time on the polling clock at which the event happened.
    pub open spec fn elapsed(self) -> u64 {
        match self {
            Event::ProbeFinished { elapsed_ms, .. } => elapsed_ms,
            Event::PauseFinished { elapsed_ms } => elapsed_ms,
            _ => 0,
        }
    }
}

/// What the supervisor asks of the host.
#[derive(Clone, Copy, Debug, PartialEq, Eq, Structural)]
pub enum Action {
    /// Find out whether the backend binary exists, and report `BinaryChecked`.
    Locate,
    /// Create the backend process, and report `SpawnFinished`.
    Spawn,
    /// Ask the health endpoint on `port`, wait at most `timeout_ms` for the
    /// answer, and report `ProbeFinished`.
    Probe { port: u16, timeout_ms: u64 },
    /// Let `ms` milliseconds pass, and report `PauseFinished`.
    Pause { ms: u64 },
    /// Terminate this process, and report `KillFinished`.
    Kill { process: ProcessHandle },
    /// The conversation is over: hand this answer to the user interface.
    Reply(Reply),
    /// The event asked for nothing: either it needs no answer, or it does not
    /// belong to the phase the supervisor is in and was passed over.
    Nothing,
}

impl Action {
    /// How long the host may take over the action, in milliseconds, where the
    /// supervisor sets a limit.
    pub open spec fn duration(self) -> int {
        match self {
            Action::Probe { timeout_ms, .. } => timeout_ms as int,
            Action::Pause { ms } => ms as int,
            _ => 0,
        }
    }
}

/// The phase that a move of the readiness polling leads to: polling goes on
/// within the start, success means running, and giving up means failed.
pub open spec fn phase_after(step: PollStep) -> Phase {
    match step {
        PollStep::Probe { index, .. } => Phase::Starting(Stage::Probing { index }),
        PollStep::Pause { .. } => Phase::Starting(Stage::Pausing),
        PollStep::Done(ReadinessResult::Ready { .. }) => Phase::Running,
        PollStep::Done(ReadinessResult::TimedOut) => Phase::Failed,
    }
}

/// What the host is asked to do for a move of the readiness polling.
pub open spec fn action_for(step: PollStep) -> Action {
    match step {
        PollStep::Probe { port, timeout_ms, .. } => Action::Probe { port, timeout_ms },
        PollStep::Pause { ms } => Action::Pause { ms },
        PollStep::Done(ReadinessResult::Ready { port }) => Action::Reply(Reply::Started { port }),
        PollStep::Done(ReadinessResult::TimedOut) => Action::Reply(Reply::ReadinessTimeout),
    }
}

/// The mathematical model of the supervisor.
pub struct Supervisor {
    pub phase: Phase,
    /// The record: the process that the supervisor owns, if any.
    pub process: Option<ProcessHandle>,
    pub policy: PolicyView,
}

impl Supervisor {
    /// The record fits the phase: while a process is being located, created or
    /// terminated, and when idle, none is recorded; while the backend is
    /// polled or running, one is. After a failed start the process that did
    /// not become ready in time stays recorded; after any other failure the
    /// record is empty.
    pub open spec fn well_formed(self) -> bool {
        &&& self.policy.well_formed()
        &&& match self.phase {
            Phase::Idle => self.process is None,
            Phase::Starting(Stage::Locating) => self.process is None,
            Phase::Starting(Stage::Spawning) => self.process is None,
            Phase::Starting(Stage::Probing { index }) => self.process is Some && index
                < self.policy.candidates.len(),
            Phase::Starting(Stage::Pausing) => self.process is Some,
            Phase::Running => self.process is Some,
            Phase::Stopping => self.process is None,
            Phase::Failed => true,
        }
    }

    /// The supervisor before anything was started.
    pub open spec fn idle(policy: PolicyView) -> Supervisor {
        Supervisor { phase: Phase::Idle, process: None, policy }
    }

    /// The same supervisor in another phase, with another record.
    pub open spec fn at(self, phase: Phase, process: Option<ProcessHandle>) -> Supervisor {
        Supervisor { phase, process, policy: self.policy }
    }

    /// Follows a move of the readiness polling; the record stays as it is.
    pub open spec fn follow(self, step: PollStep) -> (Supervisor, Action) {
        (self.at(phase_after(step), self.process), action_for(step))
    }

    /// A start is asked for. With a process on record nothing is done. With
    /// none, a start begins if none is in progress and no termination is.
    pub open spec fn start_requested(self) -> (Supervisor, Action) {
        if self.process is Some {
            (self, Action::Reply(Reply::AlreadyRunning))
        } else if self.phase is Idle || self.phase is Failed {
            (self.at(Phase::Starting(Stage::Locating), None), Action::Locate)
        } else {
            (self, Action::Nothing)
        }
    }

    /// A stop is asked for. The record is emptied before the host is asked to
    /// terminate the process; with an empty record nothing is done.
    pub open spec fn stop_requested(self) -> (Supervisor, Action) {
        match self.process {
            Some(process) => (self.at(Phase::Stopping, None), Action::Kill { process }),
            None => (self, Action::Reply(Reply::NotRunning)),
        }
    }

    /// The host looked for the binary.
    pub open spec fn binary_checked(self, present: bool) -> (Supervisor, Action) {
        if self.phase != Phase::Starting(Stage::Locating) {
            (self, Action::Nothing)
        } else if present {
            (self.at(Phase::Starting(Stage::Spawning), None), Action::Spawn)
        } else {
            (self.at(Phase::Failed, None), Action::Reply(Reply::BinaryNotFound))
        }
    }

    /// The host tried to create the process. A new process is recorded, and
    /// polling begins with the clock at zero.
    pub open spec fn spawn_finished(self, created: Option<ProcessHandle>) -> (
        Supervisor,
        Action,
    ) {
        if self.phase != Phase::Starting(Stage::Spawning) {
            (self, Action::Nothing)
        } else if created is Some {
            self.at(self.phase, created).follow(self.policy.round(0))
        } else {
            (self.at(Phase::Failed, None), Action::Reply(Reply::SpawnFailed))
        }
    }

    /// A health probe came back.
    pub open spec fn probe_finished(self, outcome: ProbeOutcome, elapsed_ms: u64) -> (
        Supervisor,
        Action,
    ) {
        match self.phase {
            Phase::Starting(Stage::Probing { index }) => self.follow(
                self.policy.after_probe(index, outcome, elapsed_ms),
            ),
            _ => (self, Action::Nothing),
        }
    }

    /// A pause is over.
    pub open spec fn pause_finished(self, elapsed_ms: u64) -> (Supervisor, Action) {
        if self.phase == Phase::Starting(Stage::Pausing) {
            self.follow(self.policy.round(elapsed_ms))
        } else {
            (self, Action::Nothing)
        }
    }

    /// The host tried to terminate the process. Whether or not it could, the
    /// supervisor is idle afterwards.
    pub open spec fn kill_finished(self, killed: bool) -> (Supervisor, Action) {
        if self.phase != Phase::Stopping {
            (self, Action::Nothing)
        } else if killed {
            (self.at(Phase::Idle, None), Action::Reply(Reply::Stopped))
        } else {
            (self.at(Phase::Idle, None), Action::Reply(Reply::TerminationFailed))
        }
    }

    /// The host saw a process exit. The notice counts if it names the recorded
    /// process and no start is in progress; the record is then emptied.
    pub open spec fn process_exited(self, process: ProcessHandle) -> (Supervisor, Action) {
        if self.process == Some(process) && (self.phase is Running || self.phase is Failed) {
            (self.at(Phase::Idle, None), Action::Nothing)
        } else {
            (self, Action::Nothing)
        }
    }

    /// The transition function: the state after `event`, and what the host is
    /// asked to do.
    pub open spec fn step(self, event: Event) -> (Supervisor, Action) {
        match event {
            Event::StartRequested => self.start_requested(),
            Event::BinaryChecked { present } => self.binary_checked(present),
            Event::SpawnFinished { created } => self.spawn_finished(created),
            Event::ProbeFinished { outcome, elapsed_ms } => self.probe_finished(
                outcome,
                elapsed_ms,
            ),
            Event::PauseFinished { elapsed_ms } => self.pause_finished(elapsed_ms),
            Event::StopRequested => self.stop_requested(),
            Event::KillFinished { killed } => self.kill_finished(killed),
            Event::ProcessExited { process } => self.process_exited(process),
        }
    }
}

/// The supervisor's state: the phase, the record of the backend process, and
/// the readiness policy it was made with.
pub struct ServerState {
    standing: Standing,
    policy: ReadinessPolicy,
}

/// The part of the state that changes: the phase and the record.
#[derive(Clone, Copy)]
struct Standing {
    phase: Phase,
    process: Option<ProcessHandle>,
}

impl View for ServerState {
    type V = Supervisor;

    closed spec fn view(&self) -> Supervisor {
        Supervisor {
            phase: self.standing.phase,
            process: self.standing.process,
            policy: self.policy@,
        }
    }
}

impl ServerState {
    #[verifier::type_invariant]
    spec fn inv(self) -> bool {
        self@.well_formed()
    }

    /// An idle supervisor with an empty record.
    pub fn new(policy: ReadinessPolicy) -> (state: ServerState)
        ensures
            state@ == Supervisor::idle(policy@),
            state@.well_formed(),
    {
        proof {
            use_type_invariant(&policy);
        }
        ServerState { standing: Standing { phase: Phase::Idle, process: None }, policy }
    }

    /// The phase the supervisor is in.
    pub fn phase(&self) -> (phase: Phase)
        ensures
            phase == self@.phase,
            self@.well_formed(),
    {
        proof {
            use_type_invariant(self);
        }
        self.standing.phase
    }

    /// The record: the process that the supervisor owns, if any.
    pub fn process(&self) -> (process: Option<ProcessHandle>)
        ensures
            process == self@.process,
            self@.well_formed(),
    {
        proof {
            use_type_invariant(self);
        }
        self.standing.process
    }

    /// Whether the backend is running: started, and found ready.
    pub fn is_running(&self) -> (yes: bool)
        ensures
            yes == (self@.phase is Running),
            yes ==> self@.process is Some,
    {
        proof {
            use_type_invariant(self);
        }
        match self.standing.phase {
            Phase::Running => true,
            _ => false,
        }
    }

    /// The readiness policy that the supervisor was made with.
    pub fn policy(&self) -> (policy: &ReadinessPolicy)
        ensures
            policy@ == self@.policy,
    {
        &self.policy
    }

    /// Takes in one event: moves to the next state and says what the host is
    /// to do.
    pub fn handle(&mut self, event: Event) -> (action: Action)
        ensures
            (final(self)@, action) == old(self)@.step(event),
            final(self)@.well_formed(),
    {
        proof {
            use_type_invariant(&*self);
        }
        let (standing, action) = match event {
            Event::StartRequested => self.start_requested(),
            Event::BinaryChecked { present } => self.binary_checked(present),
            Event::SpawnFinished { created } => self.spawn_finished(created),
            Event::ProbeFinished { outcome, elapsed_ms } => self.probe_finished(
                outcome,
                elapsed_ms,
            ),
            Event::PauseFinished { elapsed_ms } => self.pause_finished(elapsed_ms),
            Event::StopRequested => self.stop_requested(),
            Event::KillFinished { killed } => self.kill_finished(killed),
            Event::ProcessExited { process } => self.process_exited(process),
        };
        self.standing = standing;
        action
    }

    /// The state unchanged, with `action` as the answer.
    fn stay(&self, action: Action) -> (next: (Standing, Action))
        ensures
            self.moved(next.0) == self@,
            next.1 == action,
    {
        (self.standing, action)
    }

    /// The state with `standing` in place of its phase and record.
    spec fn moved(&self, standing: Standing) -> Supervisor {
        self@.at(standing.phase, standing.process)
    }

    fn start_requested(&self) -> (next: (Standing, Action))
        ensures
            (self.moved(next.0), next.1) == self@.start_requested(),
    {
        if self.standing.process.is_some() {
            self.stay(Action::Reply(Reply::AlreadyRunning))
        } else {
            match self.standing.phase {
                Phase::Idle | Phase::Failed => (
                    Standing { phase: Phase::Starting(Stage::Locating), process: None },
                    Action::Locate,
                ),
                _ => self.stay(Action::Nothing),
            }
        }
    }

    fn stop_requested(&self) -> (next: (Standing, Action))
        ensures
            (self.moved(next.0), next.1) == self@.stop_requested(),
    {
        match self.standing.process {
            Some(process) => (
                Standing { phase: Phase::Stopping, process: None },
                Action::Kill { process },
            ),
            None => self.stay(Action::Reply(Reply::NotRunning)),
        }
    }

    fn binary_checked(&self, present: bool) -> (next: (Standing, Action))
        ensures
            (self.moved(next.0), next.1) == self@.binary_checked(present),
    {
        match self.standing.phase {
            Phase::Starting(Stage::Locating) => {
                if present {
                    (
                        Standing { phase: Phase::Starting(Stage::Spawning), process: None },
                        Action::Spawn,
                    )
                } else {
                    (
                        Standing { phase: Phase::Failed, process: None },
                        Action::Reply(Reply::BinaryNotFound),
                    )
                }
            },
            _ => self.stay(Action::Nothing),
        }
    }

    fn spawn_finished(&self, created: Option<ProcessHandle>) -> (next: (Standing, Action))
        ensures
            (self.moved(next.0), next.1) == self@.spawn_finished(created),
    {
        match self.standing.phase {
            Phase::Starting(Stage::Spawning) => {
                match created {
                    Some(_) => {
                        let (phase, action) = follow(self.policy.round(0));
                        (Standing { phase, process: created }, action)
                    },
                    None => (
                        Standing { phase: Phase::Failed, process: None },
                        Action::Reply(Reply::SpawnFailed),
                    ),
                }
            },
            _ => self.stay(Action::Nothing),
        }
    }

    fn probe_finished(&self, outcome: ProbeOutcome, elapsed_ms: u64) -> (next: (Standing, Action))
        ensures
            (self.moved(next.0), next.1) == self@.probe_finished(outcome, elapsed_ms),
    {
        proof {
            use_type_invariant(self);
        }
        match self.standing.phase {
            Phase::Starting(Stage::Probing { index }) => {
                let (phase, action) = follow(self.policy.after_probe(index, outcome, elapsed_ms));
                (Standing { phase, process: self.standing.process }, action)
            },
            _ => self.stay(Action::Nothing),
        }
    }

    fn pause_finished(&self, elapsed_ms: u64) -> (next: (Standing, Action))
        ensures
            (self.moved(next.0), next.1) == self@.pause_finished(elapsed_ms),
    {
        match self.standing.phase {
            Phase::Starting(Stage::Pausing) => {
                let (phase, action) = follow(self.policy.round(elapsed_ms));
                (Standing { phase, process: self.standing.process }, action)
            },
            _ => self.stay(Action::Nothing),
        }
    }

    fn kill_finished(&self, killed: bool) -> (next: (Standing, Action))
        ensures
            (self.moved(next.0), next.1) == self@.kill_finished(killed),
    {
        match self.standing.phase {
            Phase::Stopping => {
                let reply = if killed {
                    Reply::Stopped
                } else {
                    Reply::TerminationFailed
                };
                (Standing { phase: Phase::Idle, process: None }, Action::Reply(reply))
            },
            _ => self.stay(Action::Nothing),
        }
    }

    fn process_exited(&self, process: ProcessHandle) -> (next: (Standing, Action))
        ensures
            (self.moved(next.0), next.1) == self@.process_exited(process),
    {
        let recorded = match self.standing.process {
            Some(own) => own.pid == process.pid,
            None => false,
        };
        let at_rest = match self.standing.phase {
            Phase::Running | Phase::Failed => true,
            _ => false,
        };
        if recorded && at_rest {
            (Standing { phase: Phase::Idle, process: None }, Action::Nothing)
        } else {
            self.stay(Action::Nothing)
        }
    }
}

/// The command that starts the backend. With a process on record (also one
/// that did not become ready in time) it is answered at once with
/// `AlreadyRunning` and changes nothing. With an empty record, idle or after
/// a failed start, the start begins: the host is asked to locate the binary.
/// While another start or a termination is under way nothing is done.
pub fn start_backend_server(state: &mut ServerState) -> (action: Action)
    ensures
        (final(state)@, action) == old(state)@.start_requested(),
        final(state)@.well_formed(),
{
    state.handle(Event::StartRequested)
}

/// The command that stops the backend. With a process on record the record
/// is emptied and the host is asked to terminate that process. With an empty
/// record it is answered at once with `NotRunning` and changes nothing.
pub fn stop_backend_server(state: &mut ServerState) -> (action: Action)
    ensures
        (final(state)@, action) == old(state)@.stop_requested(),
        final(state)@.well_formed(),
{
    state.handle(Event::StopRequested)
}

/// The phase and the action that follow a move of the readiness polling.
fn follow(step: PollStep) -> (next: (Phase, Action))
    ensures
        next == (phase_after(step), action_for(step)),
{
    match step {
        PollStep::Probe { index, port, timeout_ms } => (
            Phase::Starting(Stage::Probing { index }),
            Action::Probe { port, timeout_ms },
        ),
        PollStep::Pause { ms } => (Phase::Starting(Stage::Pausing), Action::Pause { ms }),
        PollStep::Done(ReadinessResult::Ready { port }) => (
            Phase::Running,
            Action::Reply(Reply::Started { port }),
        ),
        PollStep::Done(ReadinessResult::TimedOut) => (
            Phase::Failed,
            Action::Reply(Reply::ReadinessTimeout),
        ),
    }
}

} // verus!
