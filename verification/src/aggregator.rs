//! The single point at which connection lifecycle events are counted and
//! turned into television commands.
//!
//! Events from many connections arrive interleaved. The aggregator keeps the
//! number of connections that are currently open and issues a command only
//! on the two edges of that number: from zero to one, and from one to zero.

use vstd::prelude::*;
use crate::tv::{TVController, TVError};

verus! {

/// One transition in the life of a connection.
#[derive(Debug, Clone, Copy, PartialEq, Eq, Structural)]
pub enum ConnectionEvent {
    /// A peer connected.
    Connected,
    /// A peer that was connected went away.
    Disconnected,
}

/// A command for the television.
#[derive(Debug, Clone, Copy, PartialEq, Eq, Structural)]
pub enum TVCommand {
    /// Wake the television.
    PowerOn,
    /// Put the television on standby.
    PowerOff,
}

/// The number of open connections once `event` is counted.
pub open spec fn count_step(count: int, event: ConnectionEvent) -> int {
    match event {
        ConnectionEvent::Connected => count + 1,
        ConnectionEvent::Disconnected => count - 1,
    }
}

/// The command that `event` calls for when `count` connections were open
/// before it: one only when the count reaches one going up, or zero going
/// down.
pub open spec fn command_step(count: int, event: ConnectionEvent) -> Option<TVCommand> {
    match event {
        ConnectionEvent::Connected => if count == 0 {
            Some(TVCommand::PowerOn)
        } else {
            None
        },
        ConnectionEvent::Disconnected => if count == 1 {
            Some(TVCommand::PowerOff)
        } else {
            None
        },
    }
}

/// Whether carrying out `command` may take the backend `before` to `after`
/// with the outcome `r`: the effect of the one command, or none at all.
pub open spec fn carried_out<C: TVController>(
    command: Option<TVCommand>,
    before: &C,
    after: &C,
    r: Result<(), TVError>,
) -> bool {
    match command {
        Some(TVCommand::PowerOn) => before.turns_on(after, r),
        Some(TVCommand::PowerOff) => before.turns_off(after, r),
        None => r is Ok && after == before,
    }
}

/// The number of open connections after `events`, counted in order from
/// `start`.
pub open spec fn count_after(start: int, events: Seq<ConnectionEvent>) -> int
    decreases events.len(),
{
    if events.len() == 0 {
        start
    } else {
        count_step(count_after(start, events.drop_last()), events.last())
    }
}

/// The commands issued while `events` are counted in order from `start`.
pub open spec fn commands_after(start: int, events: Seq<ConnectionEvent>) -> Seq<TVCommand>
    decreases events.len(),
{
    if events.len() == 0 {
        Seq::empty()
    } else {
        let earlier = commands_after(start, events.drop_last());
        match command_step(count_after(start, events.drop_last()), events.last()) {
            Some(command) => earlier.push(command),
            None => earlier,
        }
    }
}

/// No prefix of `events` reports more disconnections than `start` and the
/// connections before them account for.
pub open spec fn admissible(start: int, events: Seq<ConnectionEvent>) -> bool {
    forall|k: int| 0 <= k <= events.len() ==> 0 <= #[trigger] count_after(start, events.take(k))
}

/// Owner of the live connection count.
pub struct Aggregator {
    connections: u64,
}

impl View for Aggregator {
    type V = int;

    /// The number of connections currently open.
    closed spec fn view(&self) -> int {
        self.connections as int
    }
}

impl Aggregator {
    /// Whether `event` can be counted: a disconnection needs an open
    /// connection to close, and a connection needs room in the counter.
    pub open spec fn admits(&self, event: ConnectionEvent) -> bool {
        match event {
            ConnectionEvent::Connected => self@ < u64::MAX,
            ConnectionEvent::Disconnected => self@ > 0,
        }
    }

    /// An aggregator with no open connection.
    pub fn new() -> (r: Aggregator)
        ensures
            r@ == 0,
    {
        Aggregator { connections: 0 }
    }

    /// The number of connections currently open.
    pub fn connections(&self) -> (n: u64)
        ensures
            n == self@,
    {
        self.connections
    }

    /// Exec form of [`Aggregator::admits`].
    pub fn can_count(&self, event: ConnectionEvent) -> (r: bool)
        ensures
            r == self.admits(event),
    {
        match event {
            ConnectionEvent::Connected => self.connections < u64::MAX,
            ConnectionEvent::Disconnected => self.connections > 0,
        }
    }

    /// Count one event and say which command, if any, it calls for.
    pub fn handle(&mut self, event: ConnectionEvent) -> (command: Option<TVCommand>)
        requires
            old(self).admits(event),
        ensures
            final(self)@ == count_step(old(self)@, event),
            command == command_step(old(self)@, event),
    {
        match event {
            ConnectionEvent::Connected => {
                self.connections = self.connections + 1;
                if self.connections == 1 {
                    Some(TVCommand::PowerOn)
                } else {
                    None
                }
            },
            ConnectionEvent::Disconnected => {
                self.connections = self.connections - 1;
                if self.connections == 0 {
                    Some(TVCommand::PowerOff)
                } else {
                    None
                }
            },
        }
    }

    /// Count a batch of events in order and collect the commands they call
    /// for.
    pub fn replay(&mut self, events: &[ConnectionEvent]) -> (commands: Vec<TVCommand>)
        requires
            admissible(old(self)@, events@),
            old(self)@ + events@.len() <= u64::MAX,
        ensures
            final(self)@ == count_after(old(self)@, events@),
            commands@ == commands_after(old(self)@, events@),
    {
        let ghost start = self@;
        let mut commands: Vec<TVCommand> = Vec::new();
        let mut i: usize = 0;
        while i < events.len()
            invariant
                0 <= i <= events@.len(),
                admissible(start, events@),
                start + events@.len() <= u64::MAX,
                start >= 0,
                self@ == count_after(start, events@.take(i as int)),
                self@ <= start + i,
                commands@ == commands_after(start, events@.take(i as int)),
            decreases events@.len() - i,
        {
            proof {
                assert(events@.take(i + 1).drop_last() == events@.take(i as int));
                assert(events@.take(i + 1).last() == events@[i as int]);
                assert(0 <= count_after(start, events@.take(i + 1)));
            }
            let command = self.handle(events[i]);
            match command {
                Some(c) => {
                    commands.push(c);
                },
                None => {},
            }
            i = i + 1;
        }
        proof {
            assert(events@.take(events@.len() as int) == events@);
        }
        commands
    }

    /// Send `command`, if there is one, to the television, and hand back
    /// what the television answered. Without a command the television is
    /// left alone.
    pub fn dispatch<C: TVController>(
        controller: &mut C,
        command: Option<TVCommand>,
    ) -> (r: Result<(), TVError>)
        ensures
            carried_out(command, old(controller), final(controller), r),
            old(controller).never_fails() ==> r is Ok && final(controller).never_fails(),
    {
        match command {
            Some(TVCommand::PowerOn) => controller.turn_on_tv(),
            Some(TVCommand::PowerOff) => controller.turn_off_tv(),
            None => Ok(()),
        }
    }

    /// Count one event and carry out the command it calls for.
    ///
    /// The count moves whether or not the television obeys; a failure of the
    /// television is handed to the caller.
    pub fn process<C: TVController>(
        &mut self,
        controller: &mut C,
        event: ConnectionEvent,
    ) -> (r: Result<(), TVError>)
        requires
            old(self).admits(event),
        ensures
            final(self)@ == count_step(old(self)@, event),
            carried_out(command_step(old(self)@, event), old(controller), final(controller), r),
            old(controller).never_fails() ==> r is Ok && final(controller).never_fails(),
    {
        let command = self.handle(event);
        Self::dispatch(controller, command)
    }
}

/// The command owed at place `i` of a run that starts with the television
/// off: commands alternate, beginning with a power-on.
pub open spec fn alternating(i: int) -> TVCommand {
    if i % 2 == 0 {
        TVCommand::PowerOn
    } else {
        TVCommand::PowerOff
    }
}

/// Every prefix of an admissible sequence is admissible.
pub proof fn lemma_prefix_admissible(start: int, events: Seq<ConnectionEvent>, n: int)
    requires
        admissible(start, events),
        0 <= n <= events.len(),
    ensures
        admissible(start, events.take(n)),
{
    assert forall|k: int| 0 <= k <= events.take(n).len() implies 0 <= #[trigger] count_after(
        start,
        events.take(n).take(k),
    ) by {
        assert(events.take(n).take(k) == events.take(k));
    }
}

/// Starting from no connection, the commands issued for an admissible
/// sequence of events alternate between power-on and power-off, beginning
/// with power-on, and the last command issued was a power-on exactly when a
/// connection is open. So each stretch of time with at least one open
/// connection sees one power-on at its start and one power-off at its end,
/// however many connections come and go within it.
pub proof fn lemma_edge_triggering(events: Seq<ConnectionEvent>)
    requires
        admissible(0, events),
    ensures
        forall|i: int|
            0 <= i < commands_after(0, events).len() ==> #[trigger] commands_after(0, events)[i]
                == alternating(i),
        commands_after(0, events).len() % 2 == 1 <==> count_after(0, events) > 0,
        count_after(0, events) >= 0,
    decreases events.len(),
{
    assert(events.take(events.len() as int) == events);
    if events.len() > 0 {
        let earlier = events.drop_last();
        assert(events.take(events.len() - 1) == earlier);
        lemma_prefix_admissible(0, events, events.len() - 1);
        lemma_edge_triggering(earlier);
    }
}

} // verus!
