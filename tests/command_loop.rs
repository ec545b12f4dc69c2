use qaf::controller::Write;
use qaf::{
    Action, DeviceError, Event, InputSource, PowerState, SpeakerCommand, SpeakerController,
    SpeakerInfo, SpeakerStatus,
};

const POWER_ON: &[u8] = br#"[{"kefSpeakerStatus":"powerOn"}]"#;
const STANDBY: &[u8] = br#"[{"kefSpeakerStatus":"standby"}]"#;
const WIFI: &[u8] = br#"[{"kefPhysicalSource":"wifi"}]"#;
const WRITE_OK: &[u8] = br#"[{"type":"kefPhysicalSource"}]"#;

fn controller() -> SpeakerController {
    SpeakerController::new(SpeakerInfo {
        address: "192.168.1.20".to_string(),
        port: 80,
        name: "Desk".to_string(),
        model: "LSX II".to_string(),
        base_url: "http://192.168.1.20:80".to_string(),
    })
}

fn reply(body: &[u8]) -> Event {
    Event::Response(Some(body.to_vec()))
}

/// The endpoint, path and written value (if any) of a fetch.
fn fetched(a: &Action) -> (String, String, Option<String>) {
    match a {
        Action::Fetch(r) => (
            r.endpoint.clone(),
            r.query[0].1.clone(),
            r.query.get(2).map(|(_, v)| v.clone()),
        ),
        other => panic!("expected a fetch, got {other:?}"),
    }
}

fn is_status_read(a: &Action) -> bool {
    let (e, p, v) = fetched(a);
    e == "http://192.168.1.20:80/api/getData" && p == "settings:/kef/host/speakerStatus" && v.is_none()
}

fn is_source_read(a: &Action) -> bool {
    let (e, p, v) = fetched(a);
    e == "http://192.168.1.20:80/api/getData" && p == "settings:/kef/play/physicalSource" && v.is_none()
}

fn is_write_of(a: &Action, value: &str) -> bool {
    let (e, p, v) = fetched(a);
    e == "http://192.168.1.20:80/api/setData"
        && p == "settings:/kef/play/physicalSource"
        && v == Some(format!(
            "{{\"kefPhysicalSource\":\"{value}\",\"type\":\"kefPhysicalSource\"}}"
        ))
}

fn reported(a: &Action) -> (Write, Result<(), DeviceError>) {
    match a {
        Action::Report(w, r) => (*w, *r),
        other => panic!("expected a report, got {other:?}"),
    }
}

fn delivered(a: &Action) -> (u64, SpeakerStatus) {
    match a {
        Action::Deliver(t, s) => (*t, *s),
        other => panic!("expected a delivery, got {other:?}"),
    }
}

#[test]
fn powered_on_status_reads_source() {
    let mut c = controller();
    c.submit(SpeakerCommand::GetStatus(7));
    assert!(is_status_read(&c.step(Event::Done)));
    assert!(is_source_read(&c.step(reply(POWER_ON))));
    assert_eq!(
        delivered(&c.step(reply(WIFI))),
        (7, SpeakerStatus { power: PowerState::PoweredOn, source: Some(InputSource::WiFi) })
    );
    assert!(matches!(c.step(Event::Done), Action::Wait));
}

#[test]
fn standby_status_needs_one_read() {
    let mut c = controller();
    c.submit(SpeakerCommand::GetStatus(1));
    assert!(is_status_read(&c.step(Event::Done)));
    assert_eq!(
        delivered(&c.step(reply(STANDBY))),
        (1, SpeakerStatus { power: PowerState::Standby, source: None })
    );
}

#[test]
fn transport_error_still_answers_status() {
    let mut c = controller();
    c.submit(SpeakerCommand::GetStatus(3));
    assert!(is_status_read(&c.step(Event::Done)));
    assert_eq!(
        delivered(&c.step(Event::Response(None))),
        (3, SpeakerStatus { power: PowerState::Unknown, source: None })
    );
}

#[test]
fn failures_after_power_on_still_answer_status() {
    let mut c = controller();
    c.submit(SpeakerCommand::GetStatus(4));
    c.step(Event::Done);
    c.step(reply(POWER_ON));
    assert_eq!(delivered(&c.step(Event::Response(None))), (4, SpeakerStatus::unknown()));

    c.step(Event::Done);
    c.submit(SpeakerCommand::GetStatus(5));
    c.step(Event::Done);
    assert_eq!(delivered(&c.step(reply(b"garbage"))), (5, SpeakerStatus::unknown()));
}

#[test]
fn switch_from_standby_wakes_first() {
    let mut c = controller();
    c.submit(SpeakerCommand::SetInput(InputSource::Optical));
    assert!(is_status_read(&c.step(Event::Done)));
    assert!(is_write_of(&c.step(reply(STANDBY)), "powerOn"));
    assert!(matches!(c.step(reply(WRITE_OK)), Action::Pause(500)));
    assert!(is_write_of(&c.step(Event::Done), "optical"));
    assert_eq!(reported(&c.step(reply(WRITE_OK))), (Write::Input(InputSource::Optical), Ok(())));
    assert!(matches!(c.step(Event::Done), Action::Wait));
}

#[test]
fn switch_abandoned_when_wake_fails() {
    let mut c = controller();
    c.submit(SpeakerCommand::SetInput(InputSource::USB));
    c.submit(SpeakerCommand::PowerOff);
    c.step(Event::Done);
    assert!(is_write_of(&c.step(reply(STANDBY)), "powerOn"));
    // The wake-up fails: it is reported, the switch is dropped, and the next
    // command starts.
    assert_eq!(
        reported(&c.step(Event::Response(None))),
        (Write::PowerOn, Err(DeviceError::Transport))
    );
    assert!(is_write_of(&c.step(Event::Done), "standby"));
    assert_eq!(reported(&c.step(reply(WRITE_OK))), (Write::PowerOff, Ok(())));
    assert!(matches!(c.step(Event::Done), Action::Wait));
}

#[test]
fn switch_when_on_writes_input_directly() {
    let mut c = controller();
    c.submit(SpeakerCommand::SetInput(InputSource::Tv));
    c.step(Event::Done);
    assert!(is_source_read(&c.step(reply(POWER_ON))));
    assert!(is_write_of(&c.step(reply(WIFI)), "tv"));
    assert_eq!(
        reported(&c.step(reply(b"<html>"))),
        (Write::Input(InputSource::Tv), Err(DeviceError::Decode))
    );
    assert!(matches!(c.step(Event::Done), Action::Wait));
}

#[test]
fn switch_proceeds_when_status_unreadable() {
    let mut c = controller();
    c.submit(SpeakerCommand::SetInput(InputSource::Bluetooth));
    c.step(Event::Done);
    assert!(is_write_of(&c.step(Event::Response(None)), "bluetooth"));
}

#[test]
fn power_commands_write_sentinels() {
    let mut c = controller();
    c.submit(SpeakerCommand::PowerOn);
    assert!(is_write_of(&c.step(Event::Done), "powerOn"));
    assert_eq!(
        reported(&c.step(Event::Response(None))),
        (Write::PowerOn, Err(DeviceError::Transport))
    );
    assert!(matches!(c.step(Event::Done), Action::Wait));
    c.submit(SpeakerCommand::PowerOff);
    assert!(is_write_of(&c.step(Event::Done), "standby"));
    assert_eq!(
        reported(&c.step(reply(b"not json"))),
        (Write::PowerOff, Err(DeviceError::Decode))
    );
    assert!(matches!(c.step(Event::Done), Action::Wait));
    c.submit(SpeakerCommand::PowerOn);
    c.step(Event::Done);
    assert_eq!(reported(&c.step(reply(WRITE_OK))), (Write::PowerOn, Ok(())));
}

#[test]
fn commands_serviced_in_submission_order() {
    let mut c = controller();
    c.submit(SpeakerCommand::PowerOn);
    c.submit(SpeakerCommand::GetStatus(9));
    c.submit(SpeakerCommand::PowerOff);
    assert_eq!(c.pending(), 3);
    assert!(is_write_of(&c.step(Event::Done), "powerOn"));
    assert_eq!(c.pending(), 2);
    // A command submitted mid-flight waits its turn.
    c.submit(SpeakerCommand::GetStatus(10));
    assert_eq!(reported(&c.step(reply(WRITE_OK))).0, Write::PowerOn);
    assert!(is_status_read(&c.step(Event::Done)));
    assert_eq!(delivered(&c.step(reply(STANDBY))).0, 9);
    assert!(is_write_of(&c.step(Event::Done), "standby"));
    assert_eq!(reported(&c.step(reply(WRITE_OK))).0, Write::PowerOff);
    assert!(is_status_read(&c.step(Event::Done)));
    assert_eq!(delivered(&c.step(reply(STANDBY))).0, 10);
    assert!(matches!(c.step(Event::Done), Action::Wait));
    assert_eq!(c.pending(), 0);
}

#[test]
fn closed_source_stops_when_idle() {
    let mut c = controller();
    assert!(matches!(c.step(Event::Closed), Action::Stop));
    c.submit(SpeakerCommand::GetStatus(2));
    // Work that is queued is still done.
    assert!(is_status_read(&c.step(Event::Closed)));
    delivered(&c.step(reply(STANDBY)));
    assert!(matches!(c.step(Event::Closed), Action::Stop));
}

#[test]
fn controller_keeps_its_speaker() {
    let mut c = controller();
    c.submit(SpeakerCommand::PowerOff);
    c.step(Event::Done);
    c.step(reply(WRITE_OK));
    let info = c.info();
    assert_eq!(info.address, "192.168.1.20");
    assert_eq!(info.port, 80);
    assert_eq!(info.name, "Desk");
    assert_eq!(info.model, "LSX II");
    assert_eq!(info.base_url, "http://192.168.1.20:80");
}
