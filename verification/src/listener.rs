//! What the accept loop does with each outcome of an accept.
//!
//! A connection that fails on the way in is passed over. Only the failure
//! of the listening socket itself ends the loop, and it ends it for good.

use vstd::prelude::*;

verus! {

/// How one attempt to accept a connection ended.
#[derive(Debug, Clone, Copy, PartialEq, Eq, Structural)]
pub enum AcceptOutcome {
    /// A connection was accepted.
    Accepted,
    /// A connection failed before it could be accepted.
    ConnectionFailed,
    /// The listening socket can accept no more.
    ListenerFailed,
}

/// What the accept loop does next.
#[derive(Debug, Clone, Copy, PartialEq, Eq, Structural)]
pub enum ListenerStep {
    /// Start a watcher for the new connection, then accept again.
    Watch,
    /// Accept again.
    Skip,
    /// Leave the loop.
    Stop,
}

/// What follows from `outcome` while the loop is `running`.
pub open spec fn step_on(running: bool, outcome: AcceptOutcome) -> ListenerStep {
    if !running {
        ListenerStep::Stop
    } else {
        match outcome {
            AcceptOutcome::Accepted => ListenerStep::Watch,
            AcceptOutcome::ConnectionFailed => ListenerStep::Skip,
            AcceptOutcome::ListenerFailed => ListenerStep::Stop,
        }
    }
}

/// Whether the loop is still running after `outcomes`, in order.
pub open spec fn running_after(outcomes: Seq<AcceptOutcome>) -> bool {
    !outcomes.contains(AcceptOutcome::ListenerFailed)
}

/// How many watchers were started while `outcomes` arrived, in order.
pub open spec fn watchers_after(outcomes: Seq<AcceptOutcome>) -> nat
    decreases outcomes.len(),
{
    if outcomes.len() == 0 {
        0
    } else {
        let earlier = watchers_after(outcomes.drop_last());
        if step_on(running_after(outcomes.drop_last()), outcomes.last()) == ListenerStep::Watch {
            earlier + 1
        } else {
            earlier
        }
    }
}

/// The accept loop: whether it is still running.
pub struct Listener {
    running: bool,
}

impl View for Listener {
    type V = bool;

    /// Whether the loop is still running.
    closed spec fn view(&self) -> bool {
        self.running
    }
}

impl Listener {
    /// A loop that is about to accept its first connection.
    pub fn new() -> (listener: Listener)
        ensures
            listener@,
    {
        Listener { running: true }
    }

    /// Whether the loop is still running.
    pub fn running(&self) -> (r: bool)
        ensures
            r == self@,
    {
        self.running
    }

    /// Take note of how an accept ended and say what to do next. The loop
    /// stops with the failure of the listening socket and never starts
    /// again.
    pub fn accepted(&mut self, outcome: AcceptOutcome) -> (step: ListenerStep)
        ensures
            step == step_on(old(self)@, outcome),
            final(self)@ == (step != ListenerStep::Stop),
    {
        if !self.running {
            return ListenerStep::Stop;
        }
        match outcome {
            AcceptOutcome::Accepted => ListenerStep::Watch,
            AcceptOutcome::ConnectionFailed => ListenerStep::Skip,
            AcceptOutcome::ListenerFailed => {
                self.running = false;
                ListenerStep::Stop
            },
        }
    }
}

/// As long as the listening socket holds, every accepted connection gets a
/// watcher, however many connections failed on the way in between.
pub proof fn lemma_every_connection_is_watched(outcomes: Seq<AcceptOutcome>)
    requires
        running_after(outcomes),
    ensures
        watchers_after(outcomes) == outcomes.filter(
            |o: AcceptOutcome| o == AcceptOutcome::Accepted,
        ).len(),
    decreases outcomes.len(),
{
    let accepted = |o: AcceptOutcome| o == AcceptOutcome::Accepted;
    if outcomes.len() == 0 {
        assert(outcomes.filter(accepted).len() == 0) by {
            reveal(Seq::filter);
        }
    } else {
        let earlier = outcomes.drop_last();
        assert(running_after(earlier)) by {
            if earlier.contains(AcceptOutcome::ListenerFailed) {
                let i = choose|i: int|
                    0 <= i < earlier.len() && earlier[i] == AcceptOutcome::ListenerFailed;
                assert(outcomes[i] == AcceptOutcome::ListenerFailed);
            }
        }
        assert(outcomes.last() != AcceptOutcome::ListenerFailed) by {
            assert(outcomes[outcomes.len() - 1] == outcomes.last());
        }
        lemma_every_connection_is_watched(earlier);
        reveal(Seq::filter);
    }
}

} // verus!
