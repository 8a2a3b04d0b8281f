//! Why the connection count cannot go below zero.
//!
//! The aggregator sees events without knowing which connection sent them.
//! Here each event carries its connection, and the order in which one
//! connection reports is shown to be enough for the count to stay at or
//! above zero, whatever the interleaving between connections.

use vstd::prelude::*;
use crate::aggregator::{admissible, count_after, ConnectionEvent};
use crate::watcher::{events_after, lemma_events_follow_phase, phase_after, Observation, Phase};

verus! {

/// An event together with the connection that reported it.
pub struct Tagged {
    /// The connection.
    pub connection: nat,
    /// What it reported.
    pub event: ConnectionEvent,
}

/// The report that `connection` connected.
pub open spec fn connected(connection: nat) -> Tagged {
    Tagged { connection, event: ConnectionEvent::Connected }
}

/// The report that `connection` disconnected.
pub open spec fn disconnected(connection: nat) -> Tagged {
    Tagged { connection, event: ConnectionEvent::Disconnected }
}

/// No connection reports the same event twice, and each disconnection comes
/// after the connection of the same connection.
pub open spec fn per_connection_ordered(trace: Seq<Tagged>) -> bool {
    &&& trace.no_duplicates()
    &&& forall|i: int|
        0 <= i < trace.len() && (#[trigger] trace[i]).event == ConnectionEvent::Disconnected
            ==> trace.take(i).contains(connected(trace[i].connection))
}

/// The events of `trace` as the aggregator sees them.
pub open spec fn events_of(trace: Seq<Tagged>) -> Seq<ConnectionEvent> {
    Seq::new(trace.len(), |i: int| trace[i].event)
}

/// The connections that `trace` leaves open.
pub open spec fn open_connections(trace: Seq<Tagged>) -> Set<nat>
    decreases trace.len(),
{
    if trace.len() == 0 {
        Set::empty()
    } else {
        let earlier = open_connections(trace.drop_last());
        match trace.last().event {
            ConnectionEvent::Connected => earlier.insert(trace.last().connection),
            ConnectionEvent::Disconnected => earlier.remove(trace.last().connection),
        }
    }
}

/// A prefix of an ordered trace is ordered.
pub proof fn lemma_prefix_ordered(trace: Seq<Tagged>, n: int)
    requires
        per_connection_ordered(trace),
        0 <= n <= trace.len(),
    ensures
        per_connection_ordered(trace.take(n)),
{
    let prefix = trace.take(n);
    assert forall|i: int|
        0 <= i < prefix.len() && (#[trigger] prefix[i]).event
            == ConnectionEvent::Disconnected implies prefix.take(i).contains(
        connected(prefix[i].connection),
    ) by {
        assert(prefix[i] == trace[i]);
        assert(prefix.take(i) == trace.take(i));
    }
}

/// In an ordered trace the count that the aggregator reaches is the number
/// of connections left open, and a connection is open exactly when it has
/// reported that it connected and not yet that it disconnected.
pub proof fn lemma_count_is_open_connections(trace: Seq<Tagged>)
    requires
        per_connection_ordered(trace),
    ensures
        open_connections(trace).finite(),
        count_after(0, events_of(trace)) == open_connections(trace).len(),
        forall|c: nat|
            #[trigger] open_connections(trace).contains(c) <==> trace.contains(connected(c))
                && !trace.contains(disconnected(c)),
    decreases trace.len(),
{
    if trace.len() == 0 {
        return ;
    }
    let n = trace.len() - 1;
    let earlier = trace.drop_last();
    let last = trace.last();
    let c = last.connection;
    assert(earlier == trace.take(n));
    lemma_prefix_ordered(trace, n);
    lemma_count_is_open_connections(earlier);
    assert(events_of(trace).drop_last() == events_of(earlier));
    assert(events_of(trace).last() == last.event);
    assert(forall|i: int| 0 <= i < n ==> earlier[i] == trace[i]);
    assert(trace[n] == last);

    // What the trace holds is what the earlier part holds, and the last.
    assert forall|t: Tagged| trace.contains(t) <==> earlier.contains(t) || t == last by {
        if trace.contains(t) {
            let i = choose|i: int| 0 <= i < trace.len() && trace[i] == t;
            if i < n {
                assert(earlier[i] == t);
            }
        }
        if earlier.contains(t) {
            let i = choose|i: int| 0 <= i < earlier.len() && earlier[i] == t;
            assert(trace[i] == t);
        }
    }
    // The last report was not made before.
    assert(!earlier.contains(last)) by {
        if earlier.contains(last) {
            let i = choose|i: int| 0 <= i < earlier.len() && earlier[i] == last;
            assert(trace[i] == trace[n]);
        }
    }

    match last.event {
        ConnectionEvent::Connected => {
            assert(last == connected(c));
            // Had it disconnected before, it would have connected before that.
            assert(!earlier.contains(disconnected(c))) by {
                if earlier.contains(disconnected(c)) {
                    let j = choose|j: int| 0 <= j < earlier.len() && earlier[j] == disconnected(c);
                    assert(trace[j].event == ConnectionEvent::Disconnected);
                    let before = trace.take(j);
                    assert(before.contains(connected(c)));
                    let k = choose|k: int| 0 <= k < before.len() && before[k] == connected(c);
                    assert(trace[k] == trace[n]);
                }
            }
            assert(!open_connections(earlier).contains(c));
            assert forall|d: nat|
                #[trigger] open_connections(trace).contains(d) <==> trace.contains(connected(d))
                    && !trace.contains(disconnected(d)) by {
                if d != c {
                    assert(open_connections(earlier).contains(d) <==> earlier.contains(
                        connected(d),
                    ) && !earlier.contains(disconnected(d)));
                }
            }
        },
        ConnectionEvent::Disconnected => {
            assert(last == disconnected(c));
            assert(trace[n].event == ConnectionEvent::Disconnected);
            assert(trace.take(n).contains(connected(c)));
            assert(earlier.contains(connected(c)));
            assert(open_connections(earlier).contains(c));
            assert forall|d: nat|
                #[trigger] open_connections(trace).contains(d) <==> trace.contains(connected(d))
                    && !trace.contains(disconnected(d)) by {
                if d != c {
                    assert(open_connections(earlier).contains(d) <==> earlier.contains(
                        connected(d),
                    ) && !earlier.contains(disconnected(d)));
                }
            }
        },
    }
}

/// However the events of different connections interleave, as long as each
/// connection reports its disconnection once and after its connection, the
/// count never goes below zero: the events are admissible from zero.
pub proof fn lemma_count_never_negative(trace: Seq<Tagged>)
    requires
        per_connection_ordered(trace),
    ensures
        admissible(0, events_of(trace)),
{
    assert forall|k: int| 0 <= k <= events_of(trace).len() implies 0 <= #[trigger] count_after(
        0,
        events_of(trace).take(k),
    ) by {
        lemma_prefix_ordered(trace, k);
        lemma_count_is_open_connections(trace.take(k));
        assert(events_of(trace).take(k) == events_of(trace.take(k)));
    }
}

/// What `connection` reported in `trace`, in order.
pub open spec fn reports_of(trace: Seq<Tagged>, connection: nat) -> Seq<ConnectionEvent>
    decreases trace.len(),
{
    if trace.len() == 0 {
        Seq::empty()
    } else if trace.last().connection == connection {
        reports_of(trace.drop_last(), connection).push(trace.last().event)
    } else {
        reports_of(trace.drop_last(), connection)
    }
}

/// Every connection in `trace` reported what a watcher reports for some
/// course of observations.
pub open spec fn watched(trace: Seq<Tagged>) -> bool {
    forall|c: nat|
        exists|observations: Seq<Observation>| #[trigger]
            reports_of(trace, c) == events_after(observations)
}

/// What a connection reported in the first `n` places of a trace is the
/// beginning of what it reported in all of it.
pub proof fn lemma_reports_prefix(trace: Seq<Tagged>, n: int, c: nat)
    requires
        0 <= n <= trace.len(),
    ensures
        reports_of(trace.take(n), c).len() <= reports_of(trace, c).len(),
        reports_of(trace.take(n), c) == reports_of(trace, c).take(
            reports_of(trace.take(n), c).len() as int,
        ),
    decreases trace.len(),
{
    if n == trace.len() {
        assert(trace.take(n) == trace);
    } else {
        assert(trace.take(n) == trace.drop_last().take(n));
        lemma_reports_prefix(trace.drop_last(), n, c);
    }
}

/// The report at place `i` of a trace has its place among the reports of
/// its connection: right after those that the connection made before.
pub proof fn lemma_report_position(trace: Seq<Tagged>, i: int)
    requires
        0 <= i < trace.len(),
    ensures
        reports_of(trace.take(i), trace[i].connection).len() < reports_of(
            trace,
            trace[i].connection,
        ).len(),
        reports_of(trace, trace[i].connection)[reports_of(
            trace.take(i),
            trace[i].connection,
        ).len() as int] == trace[i].event,
{
    let c = trace[i].connection;
    let upto = trace.take(i + 1);
    assert(upto.drop_last() == trace.take(i));
    assert(upto.last() == trace[i]);
    assert(reports_of(upto, c) == reports_of(trace.take(i), c).push(trace[i].event));
    lemma_reports_prefix(trace, i + 1, c);
    let k = reports_of(trace.take(i), c).len() as int;
    assert(reports_of(trace, c).take(k + 1)[k] == trace[i].event);
}

/// Each report of a connection stands somewhere in the trace.
pub proof fn lemma_report_in_trace(trace: Seq<Tagged>, c: nat, p: int)
    requires
        0 <= p < reports_of(trace, c).len(),
    ensures
        trace.contains(Tagged { connection: c, event: reports_of(trace, c)[p] }),
    decreases trace.len(),
{
    let n = trace.len() - 1;
    let earlier = trace.drop_last();
    if trace.last().connection == c && p == reports_of(earlier, c).len() {
        assert(trace[n] == Tagged { connection: c, event: reports_of(trace, c)[p] });
    } else {
        lemma_report_in_trace(earlier, c, p);
        let t = Tagged { connection: c, event: reports_of(trace, c)[p] };
        let m = choose|m: int| 0 <= m < earlier.len() && earlier[m] == t;
        assert(trace[m] == t);
    }
}

/// What a watcher reports is nothing, or `Connected`, or `Connected` and
/// then `Disconnected`.
proof fn lemma_reports_are_proper(trace: Seq<Tagged>, c: nat)
    requires
        watched(trace),
    ensures
        reports_of(trace, c).len() <= 2,
        reports_of(trace, c).len() >= 1 ==> reports_of(trace, c)[0] == ConnectionEvent::Connected,
        reports_of(trace, c).len() >= 2 ==> reports_of(trace, c)[1]
            == ConnectionEvent::Disconnected,
{
    let observations = choose|observations: Seq<Observation>| #[trigger]
        reports_of(trace, c) == events_after(observations);
    lemma_events_follow_phase(observations);
    match phase_after(observations) {
        Phase::Fresh => {},
        Phase::Open => {},
        Phase::Closed => {},
    }
}

/// However the reports of watchers interleave, each connection's
/// disconnection comes once and after its connection.
pub proof fn lemma_watched_is_ordered(trace: Seq<Tagged>)
    requires
        watched(trace),
    ensures
        per_connection_ordered(trace),
{
    assert forall|i: int, j: int| 0 <= i < j < trace.len() implies trace[i] != trace[j] by {
        if trace[i] == trace[j] {
            let c = trace[i].connection;
            lemma_reports_are_proper(trace, c);
            lemma_report_position(trace, i);
            lemma_report_position(trace, j);
            // The earlier report comes earlier among its connection's reports.
            assert(trace.take(j).take(i + 1) == trace.take(i + 1));
            lemma_reports_prefix(trace.take(j), i + 1, c);
            assert(trace.take(i + 1).drop_last() == trace.take(i));
            assert(trace.take(i + 1).last() == trace[i]);
        }
    }
    assert forall|i: int|
        0 <= i < trace.len() && (#[trigger] trace[i]).event
            == ConnectionEvent::Disconnected implies trace.take(i).contains(
        connected(trace[i].connection),
    ) by {
        let c = trace[i].connection;
        lemma_reports_are_proper(trace, c);
        lemma_report_position(trace, i);
        lemma_reports_prefix(trace, i, c);
        let before = reports_of(trace.take(i), c);
        assert(before.len() == 1);
        assert(before[0] == reports_of(trace, c).take(1)[0]);
        lemma_report_in_trace(trace.take(i), c, 0);
    }
}

/// Whatever the watchers of any number of connections are told, and however
/// their reports interleave on the way to the aggregator, the count never
/// goes below zero.
pub proof fn lemma_watched_count_never_negative(trace: Seq<Tagged>)
    requires
        watched(trace),
    ensures
        admissible(0, events_of(trace)),
{
    lemma_watched_is_ordered(trace);
    lemma_count_never_negative(trace);
}

} // verus!
