//! The decisions of the connection acceptor and of the task it starts for
//! each accepted connection.
use vstd::prelude::*;

verus! {

#[derive(Clone, Copy, Debug, PartialEq, Eq, Structural)]
pub enum AcceptorPhase {
    /// Accepting connections.
    Listening,
    /// Accepting failed; the process ends with that error.
    Failed,
}

/// The result of one accept.
#[derive(Clone, Copy, Debug, PartialEq, Eq, Structural)]
pub enum AcceptEvent {
    Accepted,
    AcceptFailed,
}

#[derive(Clone, Copy, Debug, PartialEq, Eq, Structural)]
pub enum AcceptorAction {
    /// Start a task for the new connection, with its own bus handle, and
    /// accept again at once.
    Spawn,
    /// Stop and report the accept error.
    Fatal,
    /// Nothing: the acceptor has already failed.
    Ignore,
}

/// What the task of an accepted connection does after the transport upgrade.
#[derive(Clone, Copy, Debug, PartialEq, Eq, Structural)]
pub enum TaskAction {
    /// Run a handler on the upgraded stream.
    RunHandler,
    /// End the task; nothing else is affected.
    End,
}

/// One step of the acceptor: an accepted connection is handed to a new task,
/// and a failed accept is fatal.
pub open spec fn acceptor_step(p: AcceptorPhase, ev: AcceptEvent) -> (AcceptorPhase, AcceptorAction) {
    if p is Failed {
        (p, AcceptorAction::Ignore)
    } else {
        match ev {
            AcceptEvent::Accepted => (AcceptorPhase::Listening, AcceptorAction::Spawn),
            AcceptEvent::AcceptFailed => (AcceptorPhase::Failed, AcceptorAction::Fatal),
        }
    }
}

/// The acceptor after a run of accepts, from phase `p`.
pub open spec fn acceptor_run(p: AcceptorPhase, evs: Seq<AcceptEvent>) -> AcceptorPhase
    decreases evs.len(),
{
    if evs.len() == 0 {
        p
    } else {
        acceptor_run(acceptor_step(p, evs[0]).0, evs.drop_first())
    }
}

pub open spec fn task_step(upgraded: bool) -> TaskAction {
    if upgraded {
        TaskAction::RunHandler
    } else {
        TaskAction::End
    }
}

/// The decisions of the acceptor loop.
pub struct Acceptor {
    phase: AcceptorPhase,
}

impl View for Acceptor {
    type V = AcceptorPhase;

    closed spec fn view(&self) -> AcceptorPhase {
        self.phase
    }
}

impl Acceptor {
    pub fn new() -> (a: Acceptor)
        ensures
            a@ is Listening,
    {
        Acceptor { phase: AcceptorPhase::Listening }
    }

    pub fn phase(&self) -> (r: AcceptorPhase)
        ensures
            r == self@,
    {
        self.phase
    }

    /// Decides what to do with the result of one accept.
    pub fn on_accept(&mut self, ev: AcceptEvent) -> (r: AcceptorAction)
        ensures
            (final(self)@, r) == acceptor_step(old(self)@, ev),
    {
        if matches!(self.phase, AcceptorPhase::Failed) {
            return AcceptorAction::Ignore;
        }
        match ev {
            AcceptEvent::Accepted => AcceptorAction::Spawn,
            AcceptEvent::AcceptFailed => {
                self.phase = AcceptorPhase::Failed;
                AcceptorAction::Fatal
            },
        }
    }
}

/// Decides what a connection's task does once the upgrade has succeeded or
/// failed.
pub fn after_upgrade(upgraded: bool) -> (r: TaskAction)
    ensures
        r == task_step(upgraded),
{
    if upgraded {
        TaskAction::RunHandler
    } else {
        TaskAction::End
    }
}

/// A failed upgrade ends only its own task: the acceptor goes on listening,
/// and the next accepted connection is handed to a task as before.
pub proof fn failed_upgrade_keeps_accepting(p: AcceptorPhase)
    requires
        p is Listening,
    ensures
        acceptor_step(p, AcceptEvent::Accepted) == (AcceptorPhase::Listening, AcceptorAction::Spawn),
        task_step(false) == TaskAction::End,
        acceptor_step(acceptor_step(p, AcceptEvent::Accepted).0, AcceptEvent::Accepted)
            == (AcceptorPhase::Listening, AcceptorAction::Spawn),
{
}

/// Only a failed accept stops the acceptor: after any run of successful
/// accepts, whatever became of the upgrades, it is still listening.
pub proof fn accepts_keep_listening(p: AcceptorPhase, evs: Seq<AcceptEvent>)
    requires
        p is Listening,
        forall|i: int| 0 <= i < evs.len() ==> evs[i] is Accepted,
    ensures
        acceptor_run(p, evs) is Listening,
    decreases evs.len(),
{
    if evs.len() > 0 {
        accepts_keep_listening(acceptor_step(p, evs[0]).0, evs.drop_first());
    }
}

} // verus!
