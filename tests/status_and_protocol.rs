use qaf::protocol::{
    check_write_reply, decode_power, decode_source, input_request, power_request, read_request,
    source_request, status_request,
};
use qaf::{DeviceError, HttpRequest, InputSource, PowerState, SpeakerStatus};

fn query(r: &HttpRequest) -> Vec<(&str, &str)> {
    r.query.iter().map(|(k, v)| (k.as_str(), v.as_str())).collect()
}

#[test]
fn standby_status_drops_source() {
    let s = SpeakerStatus::new(PowerState::Standby, Some(InputSource::USB));
    assert_eq!(s, SpeakerStatus { power: PowerState::Standby, source: None });
    let s = SpeakerStatus::new(PowerState::Unknown, Some(InputSource::Tv));
    assert_eq!(s.source, None);
    let s = SpeakerStatus::new(PowerState::PoweredOn, Some(InputSource::Tv));
    assert_eq!(s.source, Some(InputSource::Tv));
    assert!(s.is_powered_on());
}

#[test]
fn unknown_status_has_no_source() {
    assert_eq!(
        SpeakerStatus::unknown(),
        SpeakerStatus { power: PowerState::Unknown, source: None }
    );
}

#[test]
fn power_status_identifiers() {
    assert_eq!(PowerState::from_kef_status("standby"), Some(PowerState::Standby));
    assert_eq!(PowerState::from_kef_status("powerOn"), Some(PowerState::PoweredOn));
    assert_eq!(PowerState::from_kef_status("unknown"), None);
    assert_eq!(PowerState::from_kef_status("poweron"), None);
}

#[test]
fn read_requests_name_the_settings_path() {
    let r = read_request("http://10.0.0.5:80", "settings:/x");
    assert_eq!(r.endpoint, "http://10.0.0.5:80/api/getData");
    assert_eq!(query(&r), vec![("path", "settings:/x"), ("roles", "value")]);
    let r = status_request("http://h:1");
    assert_eq!(r.endpoint, "http://h:1/api/getData");
    assert_eq!(
        query(&r),
        vec![("path", "settings:/kef/host/speakerStatus"), ("roles", "value")]
    );
    let r = source_request("http://h:1");
    assert_eq!(
        query(&r),
        vec![("path", "settings:/kef/play/physicalSource"), ("roles", "value")]
    );
}

#[test]
fn envelope_is_compact_json() {
    let r = input_request("http://h:80", InputSource::WiFi);
    assert_eq!(
        r.query[2].1,
        "{\"kefPhysicalSource\":\"wifi\",\"type\":\"kefPhysicalSource\"}"
    );
}

#[test]
fn write_requests_carry_the_envelope() {
    let r = input_request("http://h:80", InputSource::Bluetooth);
    assert_eq!(r.endpoint, "http://h:80/api/setData");
    assert_eq!(
        query(&r),
        vec![
            ("path", "settings:/kef/play/physicalSource"),
            ("roles", "value"),
            ("value", "{\"kefPhysicalSource\":\"bluetooth\",\"type\":\"kefPhysicalSource\"}"),
        ]
    );
    let on = power_request("http://h:80", true);
    assert_eq!(
        on.query[2].1,
        "{\"kefPhysicalSource\":\"powerOn\",\"type\":\"kefPhysicalSource\"}"
    );
    let off = power_request("http://h:80", false);
    assert_eq!(
        off.query[2].1,
        "{\"kefPhysicalSource\":\"standby\",\"type\":\"kefPhysicalSource\"}"
    );
}

#[test]
fn decode_power_replies() {
    assert_eq!(
        decode_power(br#"[{"kefSpeakerStatus":"powerOn"}]"#),
        Ok(PowerState::PoweredOn)
    );
    assert_eq!(
        decode_power(br#"[{"type":"kefSpeakerStatus","kefSpeakerStatus":"standby"}]"#),
        Ok(PowerState::Standby)
    );
    assert_eq!(decode_power(b"not json"), Err(DeviceError::Decode));
    assert_eq!(decode_power(b"[]"), Err(DeviceError::Decode));
    assert_eq!(decode_power(br#"[{"kefSpeakerStatus":"sleeping"}]"#), Err(DeviceError::Decode));
    assert_eq!(decode_power(br#"{"kefSpeakerStatus":"powerOn"}"#), Err(DeviceError::Decode));
}

#[test]
fn decode_source_replies() {
    assert_eq!(
        decode_source(br#"[{"kefPhysicalSource":"wifi"}]"#),
        Ok(Some(InputSource::WiFi))
    );
    assert_eq!(
        decode_source(br#"[{"kefPhysicalSource":"tv"}]"#),
        Ok(Some(InputSource::Tv))
    );
    assert_eq!(decode_source(br#"[{"kefPhysicalSource":"hdmi"}]"#), Ok(None));
    assert_eq!(decode_source(br#"[{}]"#), Ok(None));
    assert_eq!(decode_source(b"{"), Err(DeviceError::Decode));
}

#[test]
fn write_replies_must_be_json() {
    assert_eq!(check_write_reply(b"[{}]"), Ok(()));
    assert_eq!(check_write_reply(b"true"), Ok(()));
    assert_eq!(check_write_reply(b"<html>"), Err(DeviceError::Decode));
    assert_eq!(check_write_reply(b""), Err(DeviceError::Decode));
}
