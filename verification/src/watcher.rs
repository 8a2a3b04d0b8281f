//! The life of one accepted connection, reduced to the two events it owes
//! the aggregator.
//!
//! A watcher never touches the socket. Whoever owns the socket tells the
//! watcher what happened and is told in return which event to report and
//! whether to read again.

use vstd::prelude::*;
use crate::aggregator::ConnectionEvent;

verus! {

/// What the owner of the socket observed.
#[derive(Debug, Clone, Copy, PartialEq, Eq, Structural)]
pub enum Observation {
    /// The connection was accepted.
    Accepted,
    /// A read returned this many bytes; none means that the peer closed.
    Read(usize),
    /// A read failed.
    ReadFailed,
}

/// Where a connection stands.
#[derive(Debug, Clone, Copy, PartialEq, Eq, Structural)]
pub enum Phase {
    /// Nothing reported yet.
    Fresh,
    /// `Connected` reported; the connection is being read.
    Open,
    /// `Disconnected` reported; nothing more will be.
    Closed,
}

/// What the owner of the socket does next.
#[derive(Debug, Clone, Copy, PartialEq, Eq, Structural)]
pub struct Step {
    /// The event to report before anything else, if any.
    pub emit: Option<ConnectionEvent>,
    /// Whether to read from the connection again.
    pub read_again: bool,
}

/// Whether `observation` ends an open connection.
pub open spec fn ends_connection(observation: Observation) -> bool {
    match observation {
        Observation::Accepted => false,
        Observation::Read(n) => n == 0,
        Observation::ReadFailed => true,
    }
}

/// The phase that follows `phase` on `observation`. An observation that does
/// not belong to the phase changes nothing.
pub open spec fn next_phase(phase: Phase, observation: Observation) -> Phase {
    match phase {
        Phase::Fresh => if observation == Observation::Accepted {
            Phase::Open
        } else {
            Phase::Fresh
        },
        Phase::Open => if ends_connection(observation) {
            Phase::Closed
        } else {
            Phase::Open
        },
        Phase::Closed => Phase::Closed,
    }
}

/// The event reported when `observation` arrives in `phase`: one exactly when
/// the phase changes.
pub open spec fn event_on(phase: Phase, observation: Observation) -> Option<ConnectionEvent> {
    match (phase, next_phase(phase, observation)) {
        (Phase::Fresh, Phase::Open) => Some(ConnectionEvent::Connected),
        (Phase::Open, Phase::Closed) => Some(ConnectionEvent::Disconnected),
        _ => None,
    }
}

/// The phase reached from `Fresh` by `observations` in order.
pub open spec fn phase_after(observations: Seq<Observation>) -> Phase
    decreases observations.len(),
{
    if observations.len() == 0 {
        Phase::Fresh
    } else {
        next_phase(phase_after(observations.drop_last()), observations.last())
    }
}

/// The events reported from `Fresh` while `observations` arrive in order.
pub open spec fn events_after(observations: Seq<Observation>) -> Seq<ConnectionEvent>
    decreases observations.len(),
{
    if observations.len() == 0 {
        Seq::empty()
    } else {
        let earlier = events_after(observations.drop_last());
        match event_on(phase_after(observations.drop_last()), observations.last()) {
            Some(event) => earlier.push(event),
            None => earlier,
        }
    }
}

/// Watcher of one connection.
pub struct Watcher {
    phase: Phase,
}

impl View for Watcher {
    type V = Phase;

    closed spec fn view(&self) -> Phase {
        self.phase
    }
}

impl Watcher {
    /// A watcher for a connection of which nothing is known yet.
    pub fn new() -> (w: Watcher)
        ensures
            w@ == Phase::Fresh,
    {
        Watcher { phase: Phase::Fresh }
    }

    /// Where the connection stands.
    pub fn phase(&self) -> (p: Phase)
        ensures
            p == self@,
    {
        self.phase
    }

    /// Take note of `observation` and say what to do next: which event to
    /// report, and whether to go on reading, which is so exactly while the
    /// connection is open.
    pub fn observe(&mut self, observation: Observation) -> (step: Step)
        ensures
            final(self)@ == next_phase(old(self)@, observation),
            step.emit == event_on(old(self)@, observation),
            step.read_again == (final(self)@ == Phase::Open),
    {
        match self.phase {
            Phase::Fresh => match observation {
                Observation::Accepted => {
                    self.phase = Phase::Open;
                    Step { emit: Some(ConnectionEvent::Connected), read_again: true }
                },
                _ => Step { emit: None, read_again: false },
            },
            Phase::Open => {
                let over = match observation {
                    Observation::Accepted => false,
                    Observation::Read(n) => n == 0,
                    Observation::ReadFailed => true,
                };
                if over {
                    self.phase = Phase::Closed;
                    Step { emit: Some(ConnectionEvent::Disconnected), read_again: false }
                } else {
                    Step { emit: None, read_again: true }
                }
            },
            Phase::Closed => Step { emit: None, read_again: false },
        }
    }
}

/// Whatever a watcher is told, and in whatever order, it reports `Connected`
/// at most once, `Disconnected` at most once and only after `Connected`, and
/// what it has reported tells its phase.
pub proof fn lemma_events_follow_phase(observations: Seq<Observation>)
    ensures
        phase_after(observations) == Phase::Fresh ==> events_after(observations) == Seq::<
            ConnectionEvent,
        >::empty(),
        phase_after(observations) == Phase::Open ==> events_after(observations) == seq![
            ConnectionEvent::Connected,
        ],
        phase_after(observations) == Phase::Closed ==> events_after(observations) == seq![
            ConnectionEvent::Connected,
            ConnectionEvent::Disconnected,
        ],
    decreases observations.len(),
{
    if observations.len() > 0 {
        lemma_events_follow_phase(observations.drop_last());
        let earlier = events_after(observations.drop_last());
        if phase_after(observations.drop_last()) == Phase::Fresh {
            assert(earlier.push(ConnectionEvent::Connected) == seq![ConnectionEvent::Connected]);
        }
        if phase_after(observations.drop_last()) == Phase::Open {
            assert(earlier.push(ConnectionEvent::Disconnected) == seq![
                ConnectionEvent::Connected,
                ConnectionEvent::Disconnected,
            ]);
        }
    }
}

/// A connection that is accepted and then read until a read returns nothing
/// or fails reports `Connected`, then `Disconnected`, and stops; the reads
/// before that one report nothing.
pub proof fn lemma_accepted_then_ended(reads: Seq<Observation>, last: Observation)
    requires
        forall|i: int| 0 <= i < reads.len() ==> reads[i] != Observation::Accepted
            && !ends_connection(#[trigger] reads[i]),
        ends_connection(last),
    ensures
        phase_after(seq![Observation::Accepted] + reads) == Phase::Open,
        phase_after((seq![Observation::Accepted] + reads).push(last)) == Phase::Closed,
        events_after((seq![Observation::Accepted] + reads).push(last)) == seq![
            ConnectionEvent::Connected,
            ConnectionEvent::Disconnected,
        ],
    decreases reads.len(),
{
    let opened = seq![Observation::Accepted] + reads;
    if reads.len() == 0 {
        assert(opened.drop_last() == Seq::<Observation>::empty());
        assert(phase_after(opened.drop_last()) == Phase::Fresh);
        assert(opened.last() == Observation::Accepted);
    } else {
        let shorter = reads.drop_last();
        lemma_accepted_then_ended(shorter, last);
        assert(opened.drop_last() == seq![Observation::Accepted] + shorter);
        assert(opened.last() == reads.last());
    }
    assert(phase_after(opened) == Phase::Open);
    assert(opened.push(last).drop_last() == opened);
    assert(opened.push(last).last() == last);
    lemma_events_follow_phase(opened.push(last));
}

} // verus!
