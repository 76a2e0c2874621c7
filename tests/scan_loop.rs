use ruuvi_scan::address::{AddressError, DeviceAddress};
use ruuvi_scan::reading::DecodeError;
use ruuvi_scan::scan::{
    AdvertisementEvent, ScanAction, ScanConfig, ScanInput, ScanLoop, ScanLoopError, ScanState,
};

const SAMPLE: [u8; 26] = [
    0x99, 0x04, 0x05, 0x12, 0xFC, 0x53, 0x94, 0xC3, 0x7C, 0x00, 0x04, 0xFF, 0xfc, 0x04, 0x0c,
    0xac, 0x36, 0x42, 0x00, 0xcd, 0xcB, 0xb8, 0x33, 0x4c, 0x88, 0x4F,
];

fn target() -> DeviceAddress {
    DeviceAddress::new([0xD2, 0x4C, 0x92, 0xE8, 0xF4, 0x3F])
}

fn scanning_loop() -> ScanLoop {
    let mut l = ScanLoop::new(ScanConfig { target: target() });
    assert!(matches!(l.state, ScanState::Idle));
    assert!(matches!(l.step(ScanInput::ScanStarted), ScanAction::Receive));
    assert!(matches!(l.state, ScanState::Scanning));
    l
}

#[test]
fn parse_canonical_address() {
    let a = DeviceAddress::parse("D2:4C:92:E8:F4:3F").unwrap();
    assert_eq!(a.octets, [0xD2, 0x4C, 0x92, 0xE8, 0xF4, 0x3F]);
    assert_eq!(a.stored_octets(), [0x3F, 0xF4, 0xE8, 0x92, 0x4C, 0xD2]);
    let b = DeviceAddress::parse("d2:4c:92:e8:f4:3f").unwrap();
    assert!(a.matches(&b));
}

#[test]
fn parse_bad_addresses() {
    assert_eq!(DeviceAddress::parse("2A:00:00").unwrap_err(), AddressError::IncorrectByteCount);
    assert_eq!(DeviceAddress::parse("2A:00:AA:BB:CC:ZZ").unwrap_err(), AddressError::InvalidOctet);
}

#[test]
fn stored_octets_round_trip() {
    let a = DeviceAddress::from_stored_octets([1, 2, 3, 4, 5, 6]);
    assert_eq!(a.octets, [6, 5, 4, 3, 2, 1]);
    assert_eq!(a.stored_octets(), [1, 2, 3, 4, 5, 6]);
}

#[test]
fn filter_is_exact() {
    let t = target();
    assert!(t.matches(&target()));
    let other = DeviceAddress::new([0xD2, 0x4C, 0x92, 0xE8, 0xF4, 0x3E]);
    assert!(!other.matches(&t));
    let first = DeviceAddress::new([0xD3, 0x4C, 0x92, 0xE8, 0xF4, 0x3F]);
    assert!(!first.matches(&t));
}

#[test]
fn idle_waits_for_scan_start() {
    let mut l = ScanLoop::new(ScanConfig { target: target() });
    let a = l.step(ScanInput::Received(AdvertisementEvent::Updated(target())));
    assert!(matches!(a, ScanAction::AwaitScanStart));
    assert!(matches!(l.state, ScanState::Idle));
}

#[test]
fn matching_update_is_fetched_and_decoded() {
    let mut l = scanning_loop();
    match l.step(ScanInput::Received(AdvertisementEvent::Updated(target()))) {
        ScanAction::FetchManufacturerData(a) => assert_eq!(a.octets, target().octets),
        other => panic!("unexpected action {:?}", other),
    }
    match l.step(ScanInput::ManufacturerData(Some(SAMPLE.to_vec()))) {
        ScanAction::ForwardReading(Ok(r)) => {
            assert_eq!(r.temperature_raw, 4860);
            assert_eq!(r.mac_address, 0x0000CBB8334C884F);
        }
        other => panic!("unexpected action {:?}", other),
    }
    assert!(matches!(l.state, ScanState::Scanning));
}

#[test]
fn other_devices_and_events_are_forwarded() {
    let mut l = scanning_loop();
    let stranger = DeviceAddress::new([1, 2, 3, 4, 5, 6]);
    let a = l.step(ScanInput::Received(AdvertisementEvent::Updated(stranger)));
    assert!(matches!(a, ScanAction::ForwardEvent(AdvertisementEvent::Updated(_))));
    let a = l.step(ScanInput::Received(AdvertisementEvent::Discovered(target())));
    assert!(matches!(a, ScanAction::ForwardEvent(AdvertisementEvent::Discovered(_))));
    assert!(matches!(l.state, ScanState::Scanning));
}

#[test]
fn missing_data_is_reported() {
    let mut l = scanning_loop();
    l.step(ScanInput::Received(AdvertisementEvent::Updated(target())));
    let a = l.step(ScanInput::ManufacturerData(None));
    assert!(matches!(a, ScanAction::ForwardReading(Err(DecodeError::SourceUnavailable))));
    assert!(matches!(l.state, ScanState::Scanning));
}

#[test]
fn bad_payload_does_not_stop_the_scan() {
    let mut l = scanning_loop();
    l.step(ScanInput::Received(AdvertisementEvent::Updated(target())));
    let a = l.step(ScanInput::ManufacturerData(Some(vec![0x99, 0x04, 0x05])));
    assert!(matches!(a, ScanAction::ForwardReading(Err(DecodeError::UnexpectedLength(3)))));
    assert!(!l.is_stopped());
    let a = l.step(ScanInput::Received(AdvertisementEvent::Connected(target())));
    assert!(matches!(a, ScanAction::ForwardEvent(_)));
}

#[test]
fn cancel_while_receiving_stops() {
    let mut l = scanning_loop();
    let a = l.step(ScanInput::Cancelled);
    assert!(matches!(a, ScanAction::Finish(Ok(()))));
    assert!(l.is_stopped());
    let a = l.step(ScanInput::ManufacturerData(Some(SAMPLE.to_vec())));
    assert!(matches!(a, ScanAction::Finish(Ok(()))));
}

#[test]
fn cancel_while_fetching_decodes_nothing() {
    let mut l = scanning_loop();
    l.step(ScanInput::Received(AdvertisementEvent::Updated(target())));
    assert!(matches!(l.step(ScanInput::Cancelled), ScanAction::Finish(Ok(()))));
    assert!(matches!(l.state, ScanState::Stopped(Ok(()))));
}

#[test]
fn closed_stream_ends_the_loop() {
    let mut l = scanning_loop();
    let a = l.step(ScanInput::ReceiveFailed);
    assert!(matches!(a, ScanAction::Finish(Err(ScanLoopError::StreamClosed))));
    let a = l.step(ScanInput::ScanStarted);
    assert!(matches!(a, ScanAction::Finish(Err(ScanLoopError::StreamClosed))));
}
