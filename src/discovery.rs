use vstd::prelude::*;

verus! {

/// The service type that the speaker advertises on the local network.
pub open spec fn service_type_spec() -> Seq<char> {
    "_kef-info._tcp.local."@
}

/// The service type that the speaker advertises on the local network.
pub fn service_type() -> (r: &'static str)
    ensures
        r@ == service_type_spec(),
{
    "_kef-info._tcp.local."
}

/// An address at which an advertised service can be reached.
#[derive(Debug, Clone, Copy, PartialEq, Eq, Structural)]
pub enum HostAddress {
    V4(u8, u8, u8, u8),
    V6,
}

/// A resolved advertisement: addresses, port and the free-form text
/// properties `name` and `modelName`, where present.
#[derive(Debug, Clone)]
pub struct Advertisement {
    pub addresses: Vec<HostAddress>,
    pub port: u16,
    pub name: Option<String>,
    pub model: Option<String>,
}

/// What a scan of the network hands over, one event at a time.
#[derive(Debug, Clone)]
pub enum ScanEvent {
    Resolved(Advertisement),
    Other,
}

/// The speaker found by discovery.
#[derive(Debug, Clone)]
pub struct SpeakerInfo {
    pub address: String,
    pub port: u16,
    pub name: String,
    pub model: String,
    pub base_url: String,
}

pub struct SpeakerInfoModel {
    pub address: Seq<char>,
    pub port: u16,
    pub name: Seq<char>,
    pub model: Seq<char>,
    pub base_url: Seq<char>,
}

impl View for SpeakerInfo {
    type V = SpeakerInfoModel;

    open spec fn view(&self) -> SpeakerInfoModel {
        SpeakerInfoModel {
            address: self.address@,
            port: self.port,
            name: self.name@,
            model: self.model@,
            base_url: self.base_url@,
        }
    }
}

pub open spec fn digit_char(d: nat) -> char
    recommends
        d < 10,
{
    "0123456789"@[d as int]
}

/// The decimal digits of `n`, without leading zeros.
pub open spec fn decimal(n: nat) -> Seq<char>
    decreases n,
{
    if n < 10 {
        seq![digit_char(n)]
    } else {
        decimal(n / 10) + seq![digit_char(n % 10)]
    }
}

/// The dotted-quad text of an IPv4 address.
pub open spec fn dotted(a: u8, b: u8, c: u8, d: u8) -> Seq<char> {
    decimal(a as nat) + seq!['.'] + decimal(b as nat) + seq!['.'] + decimal(c as nat) + seq!['.']
        + decimal(d as nat)
}

/// The first IPv4 address in the list, as text.
pub open spec fn first_v4(addrs: Seq<HostAddress>) -> Option<Seq<char>>
    decreases addrs.len(),
{
    if addrs.len() == 0 {
        None
    } else {
        match addrs[0] {
            HostAddress::V4(a, b, c, d) => Some(dotted(a, b, c, d)),
            HostAddress::V6 => first_v4(addrs.drop_first()),
        }
    }
}

pub open spec fn text_or(o: Option<String>, fallback: Seq<char>) -> Seq<char> {
    match o {
        Some(s) => s@,
        None => fallback,
    }
}

/// The base URL of the device's HTTP API.
pub open spec fn base_url_of(address: Seq<char>, port: u16) -> Seq<char> {
    "http://"@ + address + seq![':'] + decimal(port as nat)
}

/// The speaker that an advertisement describes: it must carry an IPv4
/// address; missing text properties take placeholder values.
pub open spec fn info_of(ad: Advertisement) -> Option<SpeakerInfoModel> {
    match first_v4(ad.addresses@) {
        Some(address) => Some(
            SpeakerInfoModel {
                address,
                port: ad.port,
                name: text_or(ad.name, "Unknown KEF Speaker"@),
                model: text_or(ad.model, "Unknown Model"@),
                base_url: base_url_of(address, ad.port),
            },
        ),
        None => None,
    }
}

pub open spec fn event_match(e: ScanEvent) -> Option<SpeakerInfoModel> {
    match e {
        ScanEvent::Resolved(ad) => info_of(ad),
        ScanEvent::Other => None,
    }
}

/// The speaker that a scan binds to: the first event that describes one.
pub open spec fn first_match(events: Seq<ScanEvent>) -> Option<SpeakerInfoModel>
    decreases events.len(),
{
    if events.len() == 0 {
        None
    } else {
        match event_match(events[0]) {
            Some(m) => Some(m),
            None => first_match(events.drop_first()),
        }
    }
}

fn digit_text(d: u32) -> (r: &'static str)
    requires
        d < 10,
    ensures
        r@ == seq![digit_char(d as nat)],
{
    let digits = "0123456789";
    proof {
        reveal_strlit("0123456789");
    }
    let r = digits.substring_ascii(d as usize, d as usize + 1);
    assert(r@ =~= seq![digit_char(d as nat)]);
    r
}

/// The decimal text of `n`.
pub fn decimal_text(n: u32) -> (r: String)
    ensures
        r@ == decimal(n as nat),
    decreases n,
{
    if n < 10 {
        digit_text(n).to_string()
    } else {
        let mut s = decimal_text(n / 10);
        s.append(digit_text(n % 10));
        s
    }
}

fn first_v4_text(addrs: &Vec<HostAddress>) -> (r: Option<String>)
    ensures
        r matches Some(s) ==> first_v4(addrs@) == Some(s@),
        r is None ==> first_v4(addrs@) is None,
{
    let mut i: usize = 0;
    assert(addrs@.subrange(0, addrs@.len() as int) =~= addrs@);
    while i < addrs.len()
        invariant
            i <= addrs@.len(),
            first_v4(addrs@) == first_v4(addrs@.subrange(i as int, addrs@.len() as int)),
        decreases addrs@.len() - i,
    {
        let rest = Ghost(addrs@.subrange(i as int, addrs@.len() as int));
        assert(rest@.drop_first() =~= addrs@.subrange(i + 1, addrs@.len() as int));
        match addrs[i] {
            HostAddress::V4(a, b, c, d) => {
                let mut s = decimal_text(a as u32);
                s.append(".");
                s.append(decimal_text(b as u32).as_str());
                s.append(".");
                s.append(decimal_text(c as u32).as_str());
                s.append(".");
                s.append(decimal_text(d as u32).as_str());
                proof {
                    reveal_strlit(".");
                    assert(s@ =~= dotted(a, b, c, d));
                }
                return Some(s);
            },
            HostAddress::V6 => {},
        }
        i = i + 1;
    }
    assert(addrs@.subrange(i as int, addrs@.len() as int).len() == 0);
    None
}

fn text_or_default(o: &Option<String>, fallback: &str) -> (r: String)
    ensures
        r@ == text_or(*o, fallback@),
{
    match o {
        Some(s) => s.clone(),
        None => fallback.to_string(),
    }
}

/// The speaker that an advertisement describes, if it carries an IPv4
/// address.
pub fn speaker_info(ad: &Advertisement) -> (r: Option<SpeakerInfo>)
    ensures
        r matches Some(i) ==> info_of(*ad) == Some(i@),
        r is None ==> info_of(*ad) is None,
{
    match first_v4_text(&ad.addresses) {
        Some(address) => {
            let mut base_url = "http://".to_string();
            base_url.append(address.as_str());
            base_url.append(":");
            base_url.append(decimal_text(ad.port as u32).as_str());
            proof {
                reveal_strlit(":");
                assert(base_url@ =~= base_url_of(address@, ad.port));
            }
            let info = SpeakerInfo {
                address,
                port: ad.port,
                name: text_or_default(&ad.name, "Unknown KEF Speaker"),
                model: text_or_default(&ad.model, "Unknown Model"),
                base_url,
            };
            Some(info)
        },
        None => None,
    }
}

/// The speaker that a scan event describes, if any: a scan stops at the
/// first event for which this is `Some`.
pub fn resolve_event(event: &ScanEvent) -> (r: Option<SpeakerInfo>)
    ensures
        r matches Some(i) ==> event_match(*event) == Some(i@),
        r is None ==> event_match(*event) is None,
{
    match event {
        ScanEvent::Resolved(ad) => speaker_info(ad),
        ScanEvent::Other => None,
    }
}

} // verus!
