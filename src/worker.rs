//! The probe worker: drives one session through build, authentication,
//! activation, streaming and teardown. It does no I/O itself: each call of
//! `step` takes the result of the previous request (or the next session
//! event) and answers with the next request.

use vstd::prelude::*;
use crate::classify::{classify, class_of, DomainId, ErrorClass};

verus! {

/// What is probed: an address and optional credentials. Shared read-only
/// between all workers.
pub struct Target {
    pub uri: String,
    pub username: Option<String>,
    pub password: Option<String>,
}

impl Target {
    /// The credentials to apply: present only when both the username and
    /// the password are.
    pub open spec fn credentials_spec(&self) -> Option<(String, String)> {
        match (self.username, self.password) {
            (Some(u), Some(p)) => Some((u, p)),
            _ => None,
        }
    }

    pub fn credentials(&self) -> (r: Option<(String, String)>)
        ensures
            r == self.credentials_spec(),
    {
        match (&self.username, &self.password) {
            (Some(u), Some(p)) => Some((u.clone(), p.clone())),
            _ => None,
        }
    }
}

/// Lifecycle phase of a worker.
#[derive(PartialEq, Eq, Structural, Clone, Copy, Debug)]
pub enum Phase {
    /// No session yet; the session is being built.
    Created,
    /// The session exists; credentials and activation are being applied.
    Configuring,
    /// The session is active; the worker waits for its next event.
    Streaming,
    /// A data unit is being pulled and discarded.
    Draining,
    /// The outcome is fixed. Absorbing.
    Terminated,
}

/// How a worker ended.
#[derive(PartialEq, Eq, Debug)]
pub enum ProbeOutcome {
    /// The stream ended normally.
    Completed,
    /// The stream reported an error, with its class and message.
    Failed(ErrorClass, String),
    /// The session could not be built or activated.
    SetupFailed(String),
    /// The worker was cancelled or its deadline passed while streaming.
    TimedOut,
}

impl ProbeOutcome {
    pub fn duplicate(&self) -> (r: ProbeOutcome)
        ensures
            r == *self,
    {
        match self {
            ProbeOutcome::Completed => ProbeOutcome::Completed,
            ProbeOutcome::Failed(c, m) => ProbeOutcome::Failed(*c, m.clone()),
            ProbeOutcome::SetupFailed(m) => ProbeOutcome::SetupFailed(m.clone()),
            ProbeOutcome::TimedOut => ProbeOutcome::TimedOut,
        }
    }
}

/// What the session reports back: the result of the last request, or the
/// next event of an active session.
pub enum Input {
    /// The session was built.
    Built,
    /// The session could not be built.
    BuildFailed(String),
    /// The credentials were handed to the session.
    CredentialsApplied,
    /// The session is active.
    Activated,
    /// The session could not be activated.
    ActivationFailed(String),
    /// A data unit is ready to be pulled.
    DataReady,
    /// The data unit was pulled (and discarded), or pulling it failed.
    Pulled,
    /// The stream ended.
    EndOfStream,
    /// The stream failed.
    Error(DomainId, i32, String),
    /// Any other event; ignored.
    Other,
    /// The cancellation signal or the deadline fired.
    TimedOut,
    /// The session was stopped.
    Deactivated,
    /// Stopping the session failed.
    DeactivationFailed(String),
}

/// What the worker asks of its session next.
#[derive(PartialEq, Eq, Debug)]
pub enum Action {
    /// Build the session for the target address.
    Build,
    /// Hand these credentials (username, password) to the session.
    ApplyCredentials(String, String),
    /// Ask the session to start producing data.
    Activate,
    /// Wait for the next session event.
    AwaitEvent,
    /// Pull one data unit and discard it.
    Pull,
    /// Stop the session.
    Deactivate,
    /// Nothing more: the worker has its outcome.
    Finish,
    /// The input was not one the worker waits for and was dropped; the
    /// outstanding request still stands.
    Idle,
}

/// One probe worker. The fields may be read; `step` is the only way it
/// should change.
pub struct Worker {
    /// Sequence number among the workers of one run.
    pub seq: usize,
    pub phase: Phase,
    /// Credentials to apply once the session is built.
    pub credentials: Option<(String, String)>,
    /// A request to stop the session is outstanding.
    pub stopping: bool,
    pub outcome: Option<ProbeOutcome>,
    /// Why stopping the session failed, if it did. Never changes the outcome.
    pub teardown_error: Option<String>,
}

pub open spec fn is_live(p: Phase) -> bool {
    p == Phase::Streaming || p == Phase::Draining
}

/// A worker fresh for the given target.
pub open spec fn new_worker(t: Target, seq: usize) -> Worker {
    Worker {
        seq,
        phase: Phase::Created,
        credentials: t.credentials_spec(),
        stopping: false,
        outcome: None,
        teardown_error: None,
    }
}

/// Ends a worker whose session exists: the outcome is fixed and the session
/// is stopped.
pub open spec fn terminate(w: Worker, o: ProbeOutcome) -> (Worker, Action) {
    (Worker { phase: Phase::Terminated, stopping: true, outcome: Some(o), ..w }, Action::Deactivate)
}

/// The transition function of a worker.
pub open spec fn next(w: Worker, i: Input) -> (Worker, Action) {
    match w.phase {
        Phase::Created => match i {
            Input::Built => (
                Worker { phase: Phase::Configuring, ..w },
                match w.credentials {
                    Some((u, p)) => Action::ApplyCredentials(u, p),
                    None => Action::Activate,
                },
            ),
            Input::BuildFailed(m) => (
                Worker { phase: Phase::Terminated, outcome: Some(ProbeOutcome::SetupFailed(m)), ..w },
                Action::Finish,
            ),
            _ => (w, Action::Idle),
        },
        Phase::Configuring => match i {
            Input::CredentialsApplied => (w, Action::Activate),
            Input::Activated => (Worker { phase: Phase::Streaming, ..w }, Action::AwaitEvent),
            Input::ActivationFailed(m) => terminate(w, ProbeOutcome::SetupFailed(m)),
            _ => (w, Action::Idle),
        },
        Phase::Streaming | Phase::Draining => match i {
            Input::DataReady => (Worker { phase: Phase::Draining, ..w }, Action::Pull),
            Input::Pulled | Input::Other => (Worker { phase: Phase::Streaming, ..w }, Action::AwaitEvent),
            Input::EndOfStream => terminate(w, ProbeOutcome::Completed),
            Input::Error(d, c, m) => terminate(w, ProbeOutcome::Failed(class_of(d.domain(), c), m)),
            Input::TimedOut => terminate(w, ProbeOutcome::TimedOut),
            _ => (w, Action::Idle),
        },
        Phase::Terminated => if w.stopping {
            match i {
                Input::Deactivated => (Worker { stopping: false, ..w }, Action::Finish),
                Input::DeactivationFailed(m) => (
                    Worker { stopping: false, teardown_error: Some(m), ..w },
                    Action::Finish,
                ),
                _ => (w, Action::Idle),
            }
        } else {
            (w, Action::Finish)
        },
    }
}

impl Worker {
    /// Done: terminated, with the session (if any) stopped.
    pub open spec fn finished(&self) -> bool {
        self.phase == Phase::Terminated && !self.stopping
    }

    /// The worker's invariant: an outcome exactly once terminated, and a
    /// stop outstanding only after termination.
    pub open spec fn wf(&self) -> bool {
        &&& (self.phase == Phase::Terminated <==> self.outcome is Some)
        &&& (self.stopping ==> self.phase == Phase::Terminated)
    }

    /// A worker for `target` with sequence number `seq`. Its first request
    /// is `Action::Build`.
    pub fn new(target: &Target, seq: usize) -> (w: Worker)
        ensures
            w == new_worker(*target, seq),
            w.wf(),
    {
        Worker {
            seq,
            phase: Phase::Created,
            credentials: target.credentials(),
            stopping: false,
            outcome: None,
            teardown_error: None,
        }
    }

    fn end_with(&mut self, o: ProbeOutcome) -> (a: Action)
        ensures
            (*final(self), a) == terminate(*old(self), o),
    {
        self.phase = Phase::Terminated;
        self.stopping = true;
        self.outcome = Some(o);
        Action::Deactivate
    }

    /// Takes the session's answer to the last request, or its next event,
    /// and returns the next request.
    pub fn step(&mut self, input: Input) -> (a: Action)
        ensures
            (*final(self), a) == next(*old(self), input),
            old(self).wf() ==> final(self).wf(),
    {
        match self.phase {
            Phase::Created => match input {
                Input::Built => {
                    self.phase = Phase::Configuring;
                    match &self.credentials {
                        Some((u, p)) => Action::ApplyCredentials(u.clone(), p.clone()),
                        None => Action::Activate,
                    }
                },
                Input::BuildFailed(m) => {
                    self.phase = Phase::Terminated;
                    self.outcome = Some(ProbeOutcome::SetupFailed(m));
                    Action::Finish
                },
                _ => Action::Idle,
            },
            Phase::Configuring => match input {
                Input::CredentialsApplied => Action::Activate,
                Input::Activated => {
                    self.phase = Phase::Streaming;
                    Action::AwaitEvent
                },
                Input::ActivationFailed(m) => self.end_with(ProbeOutcome::SetupFailed(m)),
                _ => Action::Idle,
            },
            Phase::Streaming | Phase::Draining => match input {
                Input::DataReady => {
                    self.phase = Phase::Draining;
                    Action::Pull
                },
                Input::Pulled | Input::Other => {
                    self.phase = Phase::Streaming;
                    Action::AwaitEvent
                },
                Input::EndOfStream => self.end_with(ProbeOutcome::Completed),
                Input::Error(d, c, m) => {
                    let class = classify(&d, c);
                    self.end_with(ProbeOutcome::Failed(class, m))
                },
                Input::TimedOut => self.end_with(ProbeOutcome::TimedOut),
                _ => Action::Idle,
            },
            Phase::Terminated => {
                if self.stopping {
                    match input {
                        Input::Deactivated => {
                            self.stopping = false;
                            Action::Finish
                        },
                        Input::DeactivationFailed(m) => {
                            self.stopping = false;
                            self.teardown_error = Some(m);
                            Action::Finish
                        },
                        _ => Action::Idle,
                    }
                } else {
                    Action::Finish
                }
            },
        }
    }
}

} // verus!
