use qaf::discovery::{decimal_text, resolve_event, service_type, speaker_info};
use qaf::{Advertisement, HostAddress, ScanEvent, SpeakerController};

fn ad(addresses: Vec<HostAddress>, port: u16, name: Option<&str>, model: Option<&str>) -> Advertisement {
    Advertisement {
        addresses,
        port,
        name: name.map(|s| s.to_string()),
        model: model.map(|s| s.to_string()),
    }
}

#[test]
fn decimal_formatting() {
    assert_eq!(decimal_text(0), "0");
    assert_eq!(decimal_text(7), "7");
    assert_eq!(decimal_text(10), "10");
    assert_eq!(decimal_text(80), "80");
    assert_eq!(decimal_text(65535), "65535");
    assert_eq!(decimal_text(u32::MAX), "4294967295");
}

#[test]
fn service_type_is_fixed() {
    assert_eq!(service_type(), "_kef-info._tcp.local.");
}

#[test]
fn advertisement_with_ipv4_gives_speaker() {
    let a = ad(
        vec![HostAddress::V6, HostAddress::V4(192, 168, 1, 20), HostAddress::V4(10, 0, 0, 1)],
        80,
        Some("Living Room"),
        Some("LSX II"),
    );
    let info = speaker_info(&a).unwrap();
    assert_eq!(info.address, "192.168.1.20");
    assert_eq!(info.port, 80);
    assert_eq!(info.name, "Living Room");
    assert_eq!(info.model, "LSX II");
    assert_eq!(info.base_url, "http://192.168.1.20:80");
}

#[test]
fn missing_properties_take_placeholders() {
    let a = ad(vec![HostAddress::V4(0, 0, 0, 0)], 65535, None, None);
    let info = speaker_info(&a).unwrap();
    assert_eq!(info.name, "Unknown KEF Speaker");
    assert_eq!(info.model, "Unknown Model");
    assert_eq!(info.base_url, "http://0.0.0.0:65535");
}

#[test]
fn advertisement_without_ipv4_gives_nothing() {
    assert!(speaker_info(&ad(vec![HostAddress::V6], 80, Some("x"), None)).is_none());
    assert!(speaker_info(&ad(vec![], 80, None, None)).is_none());
    assert!(resolve_event(&ScanEvent::Other).is_none());
}

#[test]
fn scan_without_match_yields_no_identity() {
    let events = vec![
        ScanEvent::Other,
        ScanEvent::Resolved(ad(vec![HostAddress::V6], 80, Some("v6 only"), None)),
        ScanEvent::Other,
    ];
    assert!(SpeakerController::discover_speaker(&events).is_none());
    assert!(SpeakerController::discover_speaker(&vec![]).is_none());
}

#[test]
fn scan_binds_to_first_match() {
    let events = vec![
        ScanEvent::Other,
        ScanEvent::Resolved(ad(vec![HostAddress::V4(10, 0, 0, 2)], 8080, Some("first"), None)),
        ScanEvent::Resolved(ad(vec![HostAddress::V4(10, 0, 0, 3)], 80, Some("second"), None)),
    ];
    let info = SpeakerController::discover_speaker(&events).unwrap();
    assert_eq!(info.name, "first");
    assert_eq!(info.base_url, "http://10.0.0.2:8080");
}
