use tv_wol::aggregator::{Aggregator, ConnectionEvent};
use tv_wol::watcher::{Observation, Phase, Step, Watcher};

fn run(observations: &[Observation]) -> (Vec<ConnectionEvent>, Phase) {
    let mut w = Watcher::new();
    let mut events = Vec::new();
    for o in observations {
        if let Some(e) = w.observe(*o).emit {
            events.push(e);
        }
    }
    (events, w.phase())
}

#[test]
fn a_new_watcher_is_fresh() {
    assert_eq!(Watcher::new().phase(), Phase::Fresh);
}

#[test]
fn accepting_reports_connected_and_asks_to_read() {
    let mut w = Watcher::new();
    let step = w.observe(Observation::Accepted);
    assert_eq!(step, Step { emit: Some(ConnectionEvent::Connected), read_again: true });
    assert_eq!(w.phase(), Phase::Open);
}

#[test]
fn data_is_discarded_and_reading_goes_on() {
    let mut w = Watcher::new();
    w.observe(Observation::Accepted);
    assert_eq!(w.observe(Observation::Read(1024)), Step { emit: None, read_again: true });
    assert_eq!(w.observe(Observation::Read(1)), Step { emit: None, read_again: true });
    assert_eq!(w.phase(), Phase::Open);
}

#[test]
fn an_empty_read_reports_disconnected_and_stops() {
    let mut w = Watcher::new();
    w.observe(Observation::Accepted);
    w.observe(Observation::Read(7));
    let step = w.observe(Observation::Read(0));
    assert_eq!(step, Step { emit: Some(ConnectionEvent::Disconnected), read_again: false });
    assert_eq!(w.phase(), Phase::Closed);
}

#[test]
fn a_failed_read_reports_disconnected_and_stops() {
    let mut w = Watcher::new();
    w.observe(Observation::Accepted);
    let step = w.observe(Observation::ReadFailed);
    assert_eq!(step, Step { emit: Some(ConnectionEvent::Disconnected), read_again: false });
    assert_eq!(w.phase(), Phase::Closed);
}

#[test]
fn nothing_is_reported_after_the_end() {
    let (events, phase) = run(&[
        Observation::Accepted,
        Observation::ReadFailed,
        Observation::ReadFailed,
        Observation::Read(0),
        Observation::Read(5),
        Observation::Accepted,
    ]);
    assert_eq!(events, vec![ConnectionEvent::Connected, ConnectionEvent::Disconnected]);
    assert_eq!(phase, Phase::Closed);
}

#[test]
fn reads_before_accepting_report_nothing() {
    let mut w = Watcher::new();
    assert_eq!(w.observe(Observation::Read(0)), Step { emit: None, read_again: false });
    assert_eq!(w.observe(Observation::ReadFailed), Step { emit: None, read_again: false });
    assert_eq!(w.observe(Observation::Read(3)), Step { emit: None, read_again: false });
    assert_eq!(w.phase(), Phase::Fresh);
}

#[test]
fn accepting_twice_reports_connected_once() {
    let (events, phase) = run(&[Observation::Accepted, Observation::Accepted]);
    assert_eq!(events, vec![ConnectionEvent::Connected]);
    assert_eq!(phase, Phase::Open);
}

#[test]
fn a_connection_reset_right_after_accept_leaves_the_count_where_it_was() {
    let mut agg = Aggregator::new();
    assert!(agg.handle(ConnectionEvent::Connected).is_some());
    let before = agg.connections();

    let (events, _) = run(&[Observation::Accepted, Observation::ReadFailed]);
    assert_eq!(events, vec![ConnectionEvent::Connected, ConnectionEvent::Disconnected]);
    for e in events {
        assert!(agg.can_count(e));
        assert_eq!(agg.handle(e), None);
    }
    assert_eq!(agg.connections(), before);
}

#[test]
fn interleaved_watchers_keep_the_count_at_the_number_open() {
    let mut agg = Aggregator::new();
    let mut a = Watcher::new();
    let mut b = Watcher::new();
    let script = [
        (0, Observation::Accepted),
        (1, Observation::Accepted),
        (0, Observation::Read(10)),
        (1, Observation::Read(0)),
        (0, Observation::ReadFailed),
    ];
    let expected = [1u64, 2, 2, 1, 0];
    for (i, (who, o)) in script.iter().enumerate() {
        let w = if *who == 0 { &mut a } else { &mut b };
        if let Some(e) = w.observe(*o).emit {
            assert!(agg.can_count(e));
            agg.handle(e);
        }
        assert_eq!(agg.connections(), expected[i]);
    }
}
