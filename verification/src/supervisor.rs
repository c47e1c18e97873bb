//! The supervisor of the launched application: it polls the process until it
//! has exited or was killed by a signal, and hands every interrupt that
//! arrives meanwhile on to it.
//!
//! The supervisor decides; a driver waits, sleeps and sends signals. Polling
//! that fails counts as "not yet over" and is tried again after a pause.

use vstd::prelude::*;
use crate::outside::checked_pid;

verus! {

/// What is known of the launched process.
#[derive(Clone, Copy, Debug, PartialEq, Eq, Structural)]
pub enum ProcessState {
    /// It has not been seen to end.
    Running,
    /// It has exited by itself.
    Exited,
    /// A signal has ended it.
    Signaled,
}

/// What one poll of the process gave.
#[derive(Clone, Copy, Debug, PartialEq, Eq, Structural)]
pub enum WaitReport {
    /// The poll itself failed.
    Failed,
    /// The process has not changed state.
    NoChange,
    /// The process has changed state.
    Changed { exited: bool, signaled: bool },
}

/// What happened since the supervisor's last decision.
#[derive(Clone, Copy, Debug, PartialEq, Eq, Structural)]
pub enum SupervisorEvent {
    /// A poll has returned.
    Polled(WaitReport),
    /// The pause is over.
    Slept,
    /// An interrupt has arrived: the number of the signal.
    Interrupt(i32),
    /// The signal was handed on, or could not be.
    Forwarded { delivered: bool },
}

/// What the driver does next.
#[derive(Clone, Copy, Debug, PartialEq, Eq, Structural)]
pub enum SupervisorAction {
    /// Poll the process.
    Poll { pid: i32 },
    /// Pause for a short while.
    Sleep,
    /// Send the signal to the process.
    Forward { pid: i32, signal: i32 },
    /// Stop: the process is over.
    Finish(ProcessState),
}

/// The state in which a poll shows the process to have ended, if it does.
pub open spec fn terminal_of(report: WaitReport) -> Option<ProcessState> {
    match report {
        WaitReport::Changed { exited, signaled } => if exited {
            Some(ProcessState::Exited)
        } else if signaled {
            Some(ProcessState::Signaled)
        } else {
            None
        },
        _ => None,
    }
}

/// The state after an event.
pub open spec fn state_after(state: ProcessState, event: SupervisorEvent) -> ProcessState {
    match (state, event) {
        (ProcessState::Running, SupervisorEvent::Polled(report)) => match terminal_of(report) {
            Some(t) => t,
            None => ProcessState::Running,
        },
        _ => state,
    }
}

/// The supervisor's answer to an event.
pub open spec fn action_after(state: ProcessState, pid: i32, event: SupervisorEvent)
    -> SupervisorAction {
    match state {
        ProcessState::Running => match event {
            SupervisorEvent::Polled(report) => match terminal_of(report) {
                Some(t) => SupervisorAction::Finish(t),
                None => SupervisorAction::Sleep,
            },
            SupervisorEvent::Slept => SupervisorAction::Poll { pid },
            SupervisorEvent::Interrupt(signal) => SupervisorAction::Forward { pid, signal },
            SupervisorEvent::Forwarded { .. } => SupervisorAction::Poll { pid },
        },
        _ => SupervisorAction::Finish(state),
    }
}

/// Has the poll shown the process to have ended?
pub fn classify(report: WaitReport) -> (r: Option<ProcessState>)
    ensures
        r == terminal_of(report),
        r != Some(ProcessState::Running),
{
    match report {
        WaitReport::Changed { exited, signaled } => if exited {
            Some(ProcessState::Exited)
        } else if signaled {
            Some(ProcessState::Signaled)
        } else {
            None
        },
        _ => None,
    }
}

/// The launched application: its process id, the reference it was started
/// from, and whether it still runs.
#[derive(Debug, PartialEq, Eq)]
pub struct ProcessHandle {
    pid: i32,
    reference: String,
    state: ProcessState,
}

impl ProcessHandle {
    /// The process id.
    pub closed spec fn pid(&self) -> i32 {
        self.pid
    }

    /// The reference that was launched.
    pub closed spec fn reference(&self) -> Seq<char> {
        self.reference@
    }

    /// What is known of the process.
    pub closed spec fn state(&self) -> ProcessState {
        self.state
    }

    /// A process id is a positive number.
    #[verifier::type_invariant]
    closed spec fn wf(&self) -> bool {
        self.pid > 0
    }

    /// The handle of the process that the engine has started under the id
    /// `raw_pid`. `None` where that is no process id, which is one that is
    /// not positive.
    pub fn new(raw_pid: i32, reference: String) -> (r: Option<ProcessHandle>)
        ensures
            r is Some <==> raw_pid > 0,
            r matches Some(h) ==> h.pid() == raw_pid && h.reference() == reference@ && h.state()
                == ProcessState::Running,
    {
        match checked_pid(raw_pid) {
            Some(pid) => Some(ProcessHandle { pid, reference, state: ProcessState::Running }),
            None => None,
        }
    }

    /// The process id.
    pub fn id(&self) -> (p: i32)
        ensures
            p == self.pid(),
            p > 0,
    {
        proof {
            use_type_invariant(self);
        }
        self.pid
    }

    /// What is known of the process.
    pub fn current(&self) -> (s: ProcessState)
        ensures
            s == self.state(),
    {
        self.state
    }

    /// The reference that was launched.
    pub fn launched_from(&self) -> (r: &String)
        ensures
            r@ == self.reference(),
    {
        &self.reference
    }

    /// The first thing to do: poll the process.
    pub fn supervise(&self) -> (a: SupervisorAction)
        ensures
            a == action_after(self.state(), self.pid(), SupervisorEvent::Slept),
    {
        match self.state {
            ProcessState::Running => SupervisorAction::Poll { pid: self.pid },
            _ => SupervisorAction::Finish(self.state),
        }
    }

    /// Takes in what happened and says what to do next.
    ///
    /// While the process runs: a poll that shows its end finishes the watch,
    /// any other poll is followed by a pause and the pause by the next poll;
    /// an interrupt is sent on to the process under the same number, and the
    /// watch goes on whether or not it could be delivered. Once the process
    /// is over the answer is always to finish, and the state no longer
    /// changes.
    pub fn on_event(self, event: SupervisorEvent) -> (r: (ProcessHandle, SupervisorAction))
        ensures
            r.0.pid() == self.pid(),
            r.0.reference() == self.reference(),
            r.0.state() == state_after(self.state(), event),
            r.1 == action_after(self.state(), self.pid(), event),
    {
        proof {
            use_type_invariant(&self);
        }
        let pid = self.pid;
        let state = self.state;
        let (next, action) = match state {
            ProcessState::Running => match event {
                SupervisorEvent::Polled(report) => match classify(report) {
                    Some(t) => (t, SupervisorAction::Finish(t)),
                    None => (ProcessState::Running, SupervisorAction::Sleep),
                },
                SupervisorEvent::Slept => (ProcessState::Running, SupervisorAction::Poll { pid }),
                SupervisorEvent::Interrupt(signal) => (
                    ProcessState::Running,
                    SupervisorAction::Forward { pid, signal },
                ),
                SupervisorEvent::Forwarded { .. } => (
                    ProcessState::Running,
                    SupervisorAction::Poll { pid },
                ),
            },
            _ => (state, SupervisorAction::Finish(state)),
        };
        (ProcessHandle { pid, reference: self.reference, state: next }, action)
    }
}

/// The state after a run of events.
pub open spec fn state_after_all(state: ProcessState, events: Seq<SupervisorEvent>)
    -> ProcessState
    decreases events.len(),
{
    if events.len() == 0 {
        state
    } else {
        state_after(state_after_all(state, events.drop_last()), events.last())
    }
}

/// Once the process is over, nothing that happens changes what is known of
/// it, and the supervisor asks for no more polls and sends no more signals.
pub proof fn ended_process_stays_ended(
    state: ProcessState,
    pid: i32,
    events: Seq<SupervisorEvent>,
    event: SupervisorEvent,
)
    requires
        state != ProcessState::Running,
    ensures
        state_after_all(state, events) == state,
        action_after(state_after_all(state, events), pid, event) == SupervisorAction::Finish(
            state,
        ),
    decreases events.len(),
{
    if events.len() > 0 {
        ended_process_stays_ended(state, pid, events.drop_last(), event);
    }
}

/// An interrupt that arrives while the process runs is sent to that process,
/// under the number it came with, and leaves the supervisor watching.
pub proof fn interrupt_is_forwarded_unchanged(pid: i32, signal: i32)
    ensures
        action_after(ProcessState::Running, pid, SupervisorEvent::Interrupt(signal))
            == (SupervisorAction::Forward { pid, signal }),
        state_after(ProcessState::Running, SupervisorEvent::Interrupt(signal))
            == ProcessState::Running,
{
}

} // verus!
