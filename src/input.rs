use vstd::prelude::*;

verus! {

/// The audio inputs that the speaker can switch between.
#[derive(Debug, Clone, Copy, PartialEq, Eq, Structural)]
pub enum InputSource {
    USB,
    WiFi,
    Bluetooth,
    Optical,
    Tv,
}

/// The identifier that the device uses on the wire for each input.
pub open spec fn wire(v: InputSource) -> Seq<char> {
    match v {
        InputSource::USB => "usb"@,
        InputSource::WiFi => "wifi"@,
        InputSource::Bluetooth => "bluetooth"@,
        InputSource::Optical => "optical"@,
        InputSource::Tv => "tv"@,
    }
}

/// The input that a wire identifier names, if any.
pub open spec fn from_wire(s: Seq<char>) -> Option<InputSource> {
    if s == "usb"@ {
        Some(InputSource::USB)
    } else if s == "wifi"@ {
        Some(InputSource::WiFi)
    } else if s == "bluetooth"@ {
        Some(InputSource::Bluetooth)
    } else if s == "optical"@ {
        Some(InputSource::Optical)
    } else if s == "tv"@ {
        Some(InputSource::Tv)
    } else {
        None
    }
}

/// The title under which each input is offered to a user.
pub open spec fn label(v: InputSource) -> Seq<char> {
    match v {
        InputSource::USB => "USB"@,
        InputSource::WiFi => "WiFi"@,
        InputSource::Bluetooth => "Bluetooth"@,
        InputSource::Optical => "Optical"@,
        InputSource::Tv => "Tv"@,
    }
}

/// The input that a user-facing title names, if any.
pub open spec fn from_label_spec(s: Seq<char>) -> Option<InputSource> {
    if s == "USB"@ {
        Some(InputSource::USB)
    } else if s == "WiFi"@ {
        Some(InputSource::WiFi)
    } else if s == "Bluetooth"@ {
        Some(InputSource::Bluetooth)
    } else if s == "Optical"@ {
        Some(InputSource::Optical)
    } else if s == "Tv"@ {
        Some(InputSource::Tv)
    } else {
        None
    }
}

/// Character-wise equality of two strings.
pub fn same_text(a: &str, b: &str) -> (r: bool)
    ensures
        r == (a@ == b@),
{
    let n: usize = a.unicode_len();
    if n != b.unicode_len() {
        return false;
    }
    let mut i: usize = 0;
    while i < n
        invariant
            n == a@.len(),
            n == b@.len(),
            i <= n,
            forall|j: int| 0 <= j < i ==> a@[j] == b@[j],
        decreases n - i,
    {
        if a.get_char(i) != b.get_char(i) {
            return false;
        }
        i = i + 1;
    }
    assert(a@ =~= b@);
    true
}

impl InputSource {
    /// The device's wire identifier for this input.
    pub fn to_kef_source(&self) -> (r: &'static str)
        ensures
            r@ == wire(*self),
    {
        match self {
            InputSource::USB => "usb",
            InputSource::WiFi => "wifi",
            InputSource::Bluetooth => "bluetooth",
            InputSource::Optical => "optical",
            InputSource::Tv => "tv",
        }
    }

    /// The input named by a wire identifier; `None` for any other text.
    pub fn from_kef_source(s: &str) -> (r: Option<InputSource>)
        ensures
            r == from_wire(s@),
    {
        if same_text(s, "usb") {
            Some(InputSource::USB)
        } else if same_text(s, "wifi") {
            Some(InputSource::WiFi)
        } else if same_text(s, "bluetooth") {
            Some(InputSource::Bluetooth)
        } else if same_text(s, "optical") {
            Some(InputSource::Optical)
        } else if same_text(s, "tv") {
            Some(InputSource::Tv)
        } else {
            None
        }
    }

    /// The user-facing title of this input.
    pub fn to_label(&self) -> (r: &'static str)
        ensures
            r@ == label(*self),
    {
        match self {
            InputSource::USB => "USB",
            InputSource::WiFi => "WiFi",
            InputSource::Bluetooth => "Bluetooth",
            InputSource::Optical => "Optical",
            InputSource::Tv => "Tv",
        }
    }

    /// The input offered under a user-facing title; `None` for any other text.
    pub fn from_label(s: &str) -> (r: Option<InputSource>)
        ensures
            r == from_label_spec(s@),
    {
        if same_text(s, "USB") {
            Some(InputSource::USB)
        } else if same_text(s, "WiFi") {
            Some(InputSource::WiFi)
        } else if same_text(s, "Bluetooth") {
            Some(InputSource::Bluetooth)
        } else if same_text(s, "Optical") {
            Some(InputSource::Optical)
        } else if same_text(s, "Tv") {
            Some(InputSource::Tv)
        } else {
            None
        }
    }
}

/// Every input survives a trip through its wire identifier, and text that is
/// no input's identifier maps to no input.
pub proof fn lemma_wire_round_trip(v: InputSource, s: Seq<char>)
    ensures
        from_wire(wire(v)) == Some(v),
        (forall|w: InputSource| wire(w) != s) ==> from_wire(s) is None,
{
    reveal_strlit("usb");
    reveal_strlit("wifi");
    reveal_strlit("bluetooth");
    reveal_strlit("optical");
    reveal_strlit("tv");
    assert("usb"@ != "wifi"@ && "usb"@ != "bluetooth"@ && "usb"@ != "optical"@ && "usb"@ != "tv"@) by {
        assert("usb"@[0] != "wifi"@[0] && "usb"@[0] != "bluetooth"@[0] && "usb"@[0] != "optical"@[0]);
        assert("usb"@.len() != "tv"@.len());
    }
    assert("wifi"@ != "bluetooth"@ && "wifi"@ != "optical"@ && "wifi"@ != "tv"@) by {
        assert("wifi"@[0] != "bluetooth"@[0] && "wifi"@[0] != "optical"@[0] && "wifi"@[0] != "tv"@[0]);
    }
    assert("bluetooth"@ != "optical"@ && "bluetooth"@ != "tv"@) by {
        assert("bluetooth"@[0] != "optical"@[0] && "bluetooth"@[0] != "tv"@[0]);
    }
    assert("optical"@ != "tv"@) by {
        assert("optical"@[0] != "tv"@[0]);
    }
    if from_wire(s) is Some {
        assert(wire(from_wire(s)->0) == s);
    }
}

/// Every input survives a trip through its user-facing title.
pub proof fn lemma_label_round_trip(v: InputSource)
    ensures
        from_label_spec(label(v)) == Some(v),
{
    reveal_strlit("USB");
    reveal_strlit("WiFi");
    reveal_strlit("Bluetooth");
    reveal_strlit("Optical");
    reveal_strlit("Tv");
    assert("USB"@ != "WiFi"@ && "USB"@ != "Bluetooth"@ && "USB"@ != "Optical"@ && "USB"@ != "Tv"@) by {
        assert("USB"@[0] != "WiFi"@[0] && "USB"@[0] != "Bluetooth"@[0] && "USB"@[0] != "Optical"@[0]);
        assert("USB"@.len() != "Tv"@.len());
    }
    assert("WiFi"@ != "Bluetooth"@ && "WiFi"@ != "Optical"@ && "WiFi"@ != "Tv"@) by {
        assert("WiFi"@[0] != "Bluetooth"@[0] && "WiFi"@[0] != "Optical"@[0] && "WiFi"@[0] != "Tv"@[0]);
    }
    assert("Bluetooth"@ != "Optical"@ && "Bluetooth"@ != "Tv"@) by {
        assert("Bluetooth"@[0] != "Optical"@[0] && "Bluetooth"@[0] != "Tv"@[0]);
    }
    assert("Optical"@ != "Tv"@) by {
        assert("Optical"@[0] != "Tv"@[0]);
    }
}

} // verus!
