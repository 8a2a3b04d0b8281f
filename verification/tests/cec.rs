use tv_wol::cec::{
    CecDeviceType, CecError, CecLogicalAddress, Connection, InitReply, InitRequest,
    LibcecConfiguration, Stage, ADAPTER_CAPACITY, CEC_VERSION_MAJOR, CEC_VERSION_MINOR,
    CEC_VERSION_PATCH, OPEN_TIMEOUT_MS,
};
use tv_wol::startup::init_cec_connection;
use tv_wol::tv::TVError;

#[test]
fn configuration_carries_the_client_version() {
    let config = LibcecConfiguration::new();
    assert_eq!(config.client_version, 0x0003_0001);
    assert_eq!(
        config.client_version,
        (CEC_VERSION_MAJOR << 16) | (CEC_VERSION_MINOR << 8) | CEC_VERSION_PATCH
    );
    assert!(!config.activate_source);
    assert_eq!(config.device_type, CecDeviceType::RecordingDevice);
}

#[test]
fn device_types_and_addresses_have_their_codes() {
    assert_eq!(CecDeviceType::TV.code(), 0);
    assert_eq!(CecDeviceType::RecordingDevice.code(), 1);
    assert_eq!(CecDeviceType::Reserved.code(), 2);
    assert_eq!(CecDeviceType::Tuner.code(), 3);
    assert_eq!(CecDeviceType::PlaybackDevice.code(), 4);
    assert_eq!(CecDeviceType::AudioSystem.code(), 5);
    assert_eq!(CecLogicalAddress::Unknown.code(), -1);
    assert_eq!(CecLogicalAddress::TV.code(), 0);
}

#[test]
fn a_null_handle_is_an_init_failure() {
    assert_eq!(Connection::new(0).err(), Some(CecError::InitFailed));
    assert_eq!(init_cec_connection(0).err(), Some(CecError::InitFailed));
}

#[test]
fn a_handle_makes_a_connection() {
    let conn = Connection::new(0x7f00_1000).unwrap();
    assert_eq!(conn.handle(), 0x7f00_1000);
    assert_eq!(conn.stage(), Stage::Created);
}

#[test]
fn bring_up_begins_with_an_enumeration() {
    let (conn, request) = init_cec_connection(42).unwrap();
    assert_eq!(conn.handle(), 42);
    assert_eq!(conn.stage(), Stage::Enumerating);
    assert_eq!(request, InitRequest::FindAdapters { capacity: ADAPTER_CAPACITY });
    assert_eq!(ADAPTER_CAPACITY, 10);
}

#[test]
fn a_negative_count_is_an_enumeration_failure() {
    let mut conn = Connection::new(1).unwrap();
    assert_eq!(conn.find_adapters(-1), Err(CecError::FindAdaptersFailed));
    assert_eq!(conn.find_adapters(i8::MIN), Err(CecError::FindAdaptersFailed));
    assert_eq!(conn.init(InitReply::Adapters(-1)), Err(CecError::FindAdaptersFailed));
    assert_eq!(conn.stage(), Stage::Failed);
}

#[test]
fn an_empty_enumeration_finds_no_adapter() {
    let mut conn = Connection::new(1).unwrap();
    assert_eq!(conn.find_adapters(0), Ok(0));
    assert_eq!(conn.init(InitReply::Adapters(0)), Err(CecError::NoAdapterFound));
    assert_eq!(conn.stage(), Stage::Failed);
}

#[test]
fn the_count_is_capped_by_the_room_in_the_buffer() {
    let conn = Connection::new(1).unwrap();
    assert_eq!(conn.find_adapters(1), Ok(1));
    assert_eq!(conn.find_adapters(10), Ok(10));
    assert_eq!(conn.find_adapters(11), Ok(10));
    assert_eq!(conn.find_adapters(i8::MAX), Ok(10));
}

#[test]
fn the_first_adapter_is_opened() {
    let mut conn = Connection::new(1).unwrap();
    for reported in [1i8, 2, 10, 127] {
        assert_eq!(
            conn.init(InitReply::Adapters(reported)),
            Ok(InitRequest::Open { index: 0, timeout_ms: 5000 })
        );
        assert_eq!(conn.stage(), Stage::Opening);
    }
    assert_eq!(OPEN_TIMEOUT_MS, 5000);
}

#[test]
fn a_zero_open_status_is_an_open_failure() {
    let mut conn = Connection::new(1).unwrap();
    assert_eq!(conn.init(InitReply::Opened(0)), Err(CecError::OpenFailed));
    assert_eq!(conn.stage(), Stage::Failed);
}

#[test]
fn a_nonzero_open_status_completes_bring_up() {
    let mut conn = Connection::new(9).unwrap();
    assert_eq!(conn.init(InitReply::Opened(1)), Ok(InitRequest::SetInactiveView));
    assert_eq!(conn.stage(), Stage::Ready);
    assert_eq!(conn.init(InitReply::Opened(-1)), Ok(InitRequest::SetInactiveView));
    assert_eq!(conn.handle(), 9);
}

#[test]
fn bring_up_from_start_to_ready() {
    let (mut conn, first) = init_cec_connection(5).unwrap();
    assert_eq!(first, InitRequest::FindAdapters { capacity: 10 });
    let second = conn.init(InitReply::Adapters(2)).unwrap();
    assert_eq!(second, InitRequest::Open { index: 0, timeout_ms: 5000 });
    let third = conn.init(InitReply::Opened(1)).unwrap();
    assert_eq!(third, InitRequest::SetInactiveView);
    assert_eq!(conn.stage(), Stage::Ready);
}

#[test]
fn a_zero_command_status_is_a_control_failure() {
    let conn = Connection::new(1).unwrap();
    assert_eq!(conn.command_result(0), Err(TVError::TVControlFailed));
    assert_eq!(conn.command_result(1), Ok(()));
    assert_eq!(conn.command_result(-1), Ok(()));
}
