use vstd::prelude::*;
use crate::input::{InputSource, from_wire, wire};
use crate::json::{
    entry_str, entry_text, json_parses, object_text, parse_check, plain_json_text,
    two_member_object,
};
use crate::status::{PowerState, power_of_wire};

verus! {

/// An HTTP GET to send to the device: an endpoint URL and the query
/// parameters to append to it, in order.
#[derive(Debug, Clone)]
pub struct HttpRequest {
    pub endpoint: String,
    pub query: Vec<(String, String)>,
}

pub struct RequestModel {
    pub endpoint: Seq<char>,
    pub query: Seq<(Seq<char>, Seq<char>)>,
}

pub open spec fn pairs_view(q: Seq<(String, String)>) -> Seq<(Seq<char>, Seq<char>)> {
    q.map_values(|p: (String, String)| (p.0@, p.1@))
}

impl View for HttpRequest {
    type V = RequestModel;

    open spec fn view(&self) -> RequestModel {
        RequestModel { endpoint: self.endpoint@, query: pairs_view(self.query@) }
    }
}

/// Why a device exchange failed.
#[derive(Debug, Clone, Copy, PartialEq, Eq, Structural)]
pub enum DeviceError {
    /// The request did not complete.
    Transport,
    /// The reply was not JSON of the expected shape.
    Decode,
}

pub open spec fn status_path() -> Seq<char> {
    "settings:/kef/host/speakerStatus"@
}

pub open spec fn source_path() -> Seq<char> {
    "settings:/kef/play/physicalSource"@
}

pub open spec fn status_key() -> Seq<char> {
    "kefSpeakerStatus"@
}

pub open spec fn source_key() -> Seq<char> {
    "kefPhysicalSource"@
}

/// The value written to the source path to wake the speaker.
pub open spec fn power_on_value() -> Seq<char> {
    "powerOn"@
}

/// The value written to the source path to put the speaker in standby.
pub open spec fn standby_value() -> Seq<char> {
    "standby"@
}

/// A read of one settings path.
pub open spec fn get_data(base_url: Seq<char>, path: Seq<char>) -> RequestModel {
    RequestModel {
        endpoint: base_url + "/api/getData"@,
        query: seq![("path"@, path), ("roles"@, "value"@)],
    }
}

/// The JSON envelope that carries a value written to the source path.
pub open spec fn envelope(value: Seq<char>) -> Seq<char> {
    two_member_object(source_key(), value, "type"@, source_key())
}

/// A write of `value` to the source path, which carries both the input and
/// the power controls.
pub open spec fn set_data(base_url: Seq<char>, value: Seq<char>) -> RequestModel {
    RequestModel {
        endpoint: base_url + "/api/setData"@,
        query: seq![("path"@, source_path()), ("roles"@, "value"@), ("value"@, envelope(value))],
    }
}

/// The outcome of decoding the reply to a power-status read: the device
/// answers with an array whose first element holds the value.
pub open spec fn power_outcome(body: Seq<u8>) -> Result<PowerState, DeviceError> {
    if !json_parses(body) {
        Err(DeviceError::Decode)
    } else {
        power_from_field(entry_str(body, 0, status_key()))
    }
}

/// The power state named by the status field of a reply; a missing or
/// unknown value is a decode failure.
pub open spec fn power_from_field(field: Option<Seq<char>>) -> Result<PowerState, DeviceError> {
    match field {
        Some(t) => match power_of_wire(t) {
            Some(p) => Ok(p),
            None => Err(DeviceError::Decode),
        },
        None => Err(DeviceError::Decode),
    }
}

/// The outcome of decoding the reply to a source read, found like the
/// power status in the first element of the array.
pub open spec fn source_outcome(body: Seq<u8>) -> Result<Option<InputSource>, DeviceError> {
    if !json_parses(body) {
        Err(DeviceError::Decode)
    } else {
        Ok(source_from_field(entry_str(body, 0, source_key())))
    }
}

/// The input named by the source field of a reply; a missing or unknown
/// value names no input.
pub open spec fn source_from_field(field: Option<Seq<char>>) -> Option<InputSource> {
    match field {
        Some(t) => from_wire(t),
        None => None,
    }
}

pub open spec fn text_view(o: Option<String>) -> Option<Seq<char>> {
    match o {
        Some(s) => Some(s@),
        None => None,
    }
}

fn text(s: &str) -> (r: String)
    ensures
        r@ == s@,
{
    s.to_string()
}

/// A read of one settings path.
pub fn read_request(base_url: &str, path: &str) -> (r: HttpRequest)
    ensures
        r@ == get_data(base_url@, path@),
{
    let mut endpoint = text(base_url);
    endpoint.append("/api/getData");
    let mut query: Vec<(String, String)> = Vec::new();
    query.push((text("path"), text(path)));
    query.push((text("roles"), text("value")));
    let r = HttpRequest { endpoint, query };
    assert(r@.query =~= get_data(base_url@, path@).query);
    r
}

/// The read of the speaker's power status.
pub fn status_request(base_url: &str) -> (r: HttpRequest)
    ensures
        r@ == get_data(base_url@, status_path()),
{
    read_request(base_url, "settings:/kef/host/speakerStatus")
}

/// The read of the speaker's active input.
pub fn source_request(base_url: &str) -> (r: HttpRequest)
    ensures
        r@ == get_data(base_url@, source_path()),
{
    read_request(base_url, "settings:/kef/play/physicalSource")
}

/// The JSON envelope that carries a value written to the source path.
pub(crate) fn envelope_text(value: &str) -> (r: String)
    requires
        plain_json_text(value@),
    ensures
        r@ == envelope(value@),
{
    proof {
        reveal_strlit("kefPhysicalSource");
        reveal_strlit("type");
    }
    object_text("kefPhysicalSource", value, "type", "kefPhysicalSource")
}

/// A write of `value` to the source path.
pub(crate) fn write_request(base_url: &str, value: &str) -> (r: HttpRequest)
    requires
        plain_json_text(value@),
    ensures
        r@ == set_data(base_url@, value@),
{
    let mut endpoint = text(base_url);
    endpoint.append("/api/setData");
    let mut query: Vec<(String, String)> = Vec::new();
    query.push((text("path"), text("settings:/kef/play/physicalSource")));
    query.push((text("roles"), text("value")));
    query.push((text("value"), envelope_text(value)));
    let r = HttpRequest { endpoint, query };
    assert(r@.query =~= set_data(base_url@, value@).query);
    r
}

/// The write that selects an input.
pub fn input_request(base_url: &str, input: InputSource) -> (r: HttpRequest)
    ensures
        r@ == set_data(base_url@, wire(input)),
{
    proof {
        reveal_strlit("usb");
        reveal_strlit("wifi");
        reveal_strlit("bluetooth");
        reveal_strlit("optical");
        reveal_strlit("tv");
    }
    write_request(base_url, input.to_kef_source())
}

/// The write that wakes the speaker (`on`) or puts it in standby.
pub fn power_request(base_url: &str, on: bool) -> (r: HttpRequest)
    ensures
        r@ == set_data(base_url@, if on { power_on_value() } else { standby_value() }),
{
    proof {
        reveal_strlit("powerOn");
        reveal_strlit("standby");
    }
    if on {
        write_request(base_url, "powerOn")
    } else {
        write_request(base_url, "standby")
    }
}

/// The power state named by the status field of a reply.
pub fn power_of_field(field: &Option<String>) -> (r: Result<PowerState, DeviceError>)
    ensures
        r == power_from_field(text_view(*field)),
{
    match field {
        Some(t) => match PowerState::from_kef_status(t.as_str()) {
            Some(p) => Ok(p),
            None => Err(DeviceError::Decode),
        },
        None => Err(DeviceError::Decode),
    }
}

/// The input named by the source field of a reply.
pub fn source_of_field(field: &Option<String>) -> (r: Option<InputSource>)
    ensures
        r == source_from_field(text_view(*field)),
{
    match field {
        Some(t) => InputSource::from_kef_source(t.as_str()),
        None => None,
    }
}

/// Decodes the reply to a power-status read.
pub fn decode_power(body: &[u8]) -> (r: Result<PowerState, DeviceError>)
    ensures
        r == power_outcome(body@),
{
    proof {
        reveal_strlit("kefSpeakerStatus");
    }
    match entry_text(body, 0, "kefSpeakerStatus") {
        Ok(field) => power_of_field(&field),
        Err(_) => Err(DeviceError::Decode),
    }
}

/// Decodes the reply to a source read.
pub fn decode_source(body: &[u8]) -> (r: Result<Option<InputSource>, DeviceError>)
    ensures
        r == source_outcome(body@),
{
    proof {
        reveal_strlit("kefPhysicalSource");
    }
    match entry_text(body, 0, "kefPhysicalSource") {
        Ok(field) => Ok(source_of_field(&field)),
        Err(_) => Err(DeviceError::Decode),
    }
}

/// Checks the reply to a write: only that it is JSON.
pub fn check_write_reply(body: &[u8]) -> (r: Result<(), DeviceError>)
    ensures
        r == (if json_parses(body@) {
            Ok::<(), DeviceError>(())
        } else {
            Err(DeviceError::Decode)
        }),
{
    match parse_check(body) {
        Ok(()) => Ok(()),
        Err(_) => Err(DeviceError::Decode),
    }
}

} // verus!
