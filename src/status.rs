use vstd::prelude::*;
use crate::input::InputSource;

verus! {

/// The speaker's power state. `Unknown` stands for a query that failed; the
/// device itself never reports it.
#[derive(Debug, Clone, Copy, PartialEq, Eq, Structural)]
pub enum PowerState {
    Standby,
    PoweredOn,
    Unknown,
}

/// The power state that a device status identifier names, if any.
pub open spec fn power_of_wire(s: Seq<char>) -> Option<PowerState> {
    if s == "standby"@ {
        Some(PowerState::Standby)
    } else if s == "powerOn"@ {
        Some(PowerState::PoweredOn)
    } else {
        None
    }
}

impl PowerState {
    /// The power state named by the device's status identifier; `None` for any
    /// other text.
    pub fn from_kef_status(s: &str) -> (r: Option<PowerState>)
        ensures
            r == power_of_wire(s@),
    {
        if crate::input::same_text(s, "standby") {
            Some(PowerState::Standby)
        } else if crate::input::same_text(s, "powerOn") {
            Some(PowerState::PoweredOn)
        } else {
            None
        }
    }
}

/// What is known of the speaker: its power state and, only while it is
/// powered on, its active input.
#[derive(Debug, Clone, Copy, PartialEq, Eq, Structural)]
pub struct SpeakerStatus {
    pub power: PowerState,
    pub source: Option<InputSource>,
}

/// A status built from a power reading and a source reading: the source is
/// kept only while the speaker is powered on.
pub open spec fn status_of(power: PowerState, source: Option<InputSource>) -> SpeakerStatus {
    SpeakerStatus {
        power,
        source: if power == PowerState::PoweredOn { source } else { None },
    }
}

/// The status reported when the device could not be queried.
pub open spec fn unknown_status() -> SpeakerStatus {
    SpeakerStatus { power: PowerState::Unknown, source: None }
}

impl SpeakerStatus {
    /// A source is only meaningful while the speaker is powered on.
    pub open spec fn wf(&self) -> bool {
        self.power != PowerState::PoweredOn ==> self.source is None
    }

    /// The status for a power reading and a source reading; the source is
    /// dropped unless the power reading is `PoweredOn`.
    pub fn new(power: PowerState, source: Option<InputSource>) -> (r: SpeakerStatus)
        ensures
            r == status_of(power, source),
            r.wf(),
    {
        match power {
            PowerState::PoweredOn => SpeakerStatus { power, source },
            _ => SpeakerStatus { power, source: None },
        }
    }

    /// The status that stands for a failed query.
    pub fn unknown() -> (r: SpeakerStatus)
        ensures
            r == unknown_status(),
            r.wf(),
    {
        SpeakerStatus { power: PowerState::Unknown, source: None }
    }

    pub fn is_powered_on(&self) -> (r: bool)
        ensures
            r == (self.power == PowerState::PoweredOn),
    {
        match self.power {
            PowerState::PoweredOn => true,
            _ => false,
        }
    }
}

} // verus!
