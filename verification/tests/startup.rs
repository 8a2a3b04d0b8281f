use tv_wol::aggregator::{Aggregator, ConnectionEvent, TVCommand};
use tv_wol::cec::CecError;
use tv_wol::startup::{init_tv_controller, Backend};
use tv_wol::tv::{FakeTVController, TVController, TVError};

/// A backend that refuses every command and counts how often it was asked.
struct Broken {
    asked: u32,
}

impl TVController for Broken {
    fn turn_on_tv(&mut self) -> Result<(), TVError> {
        self.asked += 1;
        Err(TVError::TVControlFailed)
    }

    fn turn_off_tv(&mut self) -> Result<(), TVError> {
        self.asked += 1;
        Err(TVError::TVControlFailed)
    }
}

#[test]
fn the_real_backend_is_used_when_it_came_up() {
    let mut backend = init_tv_controller(Ok(Broken { asked: 0 }));
    assert!(matches!(backend, Backend::Real(_)));
    assert_eq!(backend.turn_on_tv(), Err(TVError::TVControlFailed));
    assert_eq!(backend.turn_off_tv(), Err(TVError::TVControlFailed));
    match backend {
        Backend::Real(b) => assert_eq!(b.asked, 2),
        Backend::Fake(_) => panic!("the real backend was dropped"),
    }
}

#[test]
fn every_bring_up_failure_falls_back_to_the_fake_backend() {
    for reason in [
        CecError::InitFailed,
        CecError::FindAdaptersFailed,
        CecError::NoAdapterFound,
        CecError::OpenFailed,
    ] {
        let mut backend = init_tv_controller::<Broken>(Err(reason));
        assert!(matches!(backend, Backend::Fake(_)));
        for _ in 0..3 {
            assert_eq!(backend.turn_on_tv(), Ok(()));
            assert_eq!(backend.turn_off_tv(), Ok(()));
        }
        assert!(matches!(backend, Backend::Fake(_)));
    }
}

#[test]
fn the_service_runs_on_the_fake_backend_after_a_failed_bring_up() {
    let mut backend = init_tv_controller::<Broken>(Err(CecError::NoAdapterFound));
    let mut agg = Aggregator::new();
    let events = [
        ConnectionEvent::Connected,
        ConnectionEvent::Connected,
        ConnectionEvent::Disconnected,
        ConnectionEvent::Disconnected,
        ConnectionEvent::Connected,
        ConnectionEvent::Disconnected,
    ];
    for e in events {
        assert!(agg.can_count(e));
        assert_eq!(agg.process(&mut backend, e), Ok(()));
    }
    assert_eq!(agg.connections(), 0);
}

#[test]
fn the_fake_backend_is_a_unit() {
    assert_eq!(FakeTVController::new(), FakeTVController);
    let mut fake = FakeTVController::new();
    assert_eq!(Aggregator::dispatch(&mut fake, Some(TVCommand::PowerOn)), Ok(()));
    assert_eq!(Aggregator::dispatch(&mut fake, Some(TVCommand::PowerOff)), Ok(()));
}
