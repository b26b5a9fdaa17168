//! The value a device reports: its on/off state and, for dimmers and
//! blinds, a percentage; and how that value reads for the device it came
//! from.
use vstd::prelude::*;

use crate::device::DeviceKind;
use crate::text::{
    bool_string, bool_text, decimal, decimal_string, is_digit, lemma_decimal_digits,
    lemma_decimal_injective, option_string, option_text, quote, quoted,
};

verus! {

/// A percentage in `0..=100`: the brightness of a dimmer or the position of
/// blinds.
#[derive(Clone, Copy, Debug, PartialEq, Eq, Structural)]
pub struct DeviceBrightness {
    value: u8,
}

impl View for DeviceBrightness {
    type V = u8;

    closed spec fn view(&self) -> u8 {
        self.value
    }
}

impl DeviceBrightness {
    #[verifier::type_invariant]
    spec fn in_range(self) -> bool {
        self.value <= 100
    }

    /// The brightness `value`, when it is at most 100.
    pub fn new(value: u8) -> (r: Option<DeviceBrightness>)
        ensures
            value <= 100 ==> (r matches Some(b) && b@ == value),
            value > 100 ==> r is None,
    {
        if value <= 100 {
            Some(DeviceBrightness { value })
        } else {
            None
        }
    }

    /// The full brightness, 100.
    pub fn max() -> (r: DeviceBrightness)
        ensures
            r@ == 100,
    {
        DeviceBrightness { value: 100 }
    }

    /// The percentage.
    pub fn get(&self) -> (r: u8)
        ensures
            r == self@,
            r <= 100,
    {
        proof {
            use_type_invariant(self);
        }
        self.value
    }

    /// Two brightnesses with the same percentage are the same.
    pub proof fn lemma_view_injective(a: DeviceBrightness, b: DeviceBrightness)
        requires
            a@ == b@,
        ensures
            a == b,
    {
    }
}

/// The value or state of a device at a point in time, as the gateway
/// reports it. A switch that is on is reported with full brightness.
#[derive(Clone, Copy, Debug, PartialEq, Eq, Structural)]
pub enum DeviceValue {
    Undefined,
    Off,
    On(DeviceBrightness),
    AllOff,
    AllOn,
}

/// Whether a device of kind `kind` has a brightness (dimmers) or a position
/// (blinds) to report.
pub open spec fn kind_is_dimmable(kind: DeviceKind) -> bool {
    kind is Dimmer || kind is Blinds
}

/// A value reported by a device, together with the kind of that device.
#[derive(Clone, Copy, Debug, PartialEq, Eq, Structural)]
pub struct DeviceReading {
    /// The kind of the device that reported the value.
    pub kind: DeviceKind,
    /// The reported value.
    pub value: DeviceValue,
}

/// Whether the device is on.
pub open spec fn reading_is_on(r: DeviceReading) -> bool {
    r.value is On || r.value is AllOn
}

/// The brightness (or position) in percent of a dimmable device that is on,
/// 100 when all are on; `None` when the device is off, undefined, all off,
/// or not dimmable.
pub open spec fn reading_brightness(r: DeviceReading) -> Option<u8> {
    if kind_is_dimmable(r.kind) {
        match r.value {
            DeviceValue::On(b) => Some(b@),
            DeviceValue::AllOn => Some(100u8),
            _ => None,
        }
    } else {
        None
    }
}

/// The lowercase text of a reading: `undefined`, `off`, `all off`, `all on`,
/// `on` for a device that is on and not dimmable, or the brightness in
/// decimal for a dimmable device that is on.
pub open spec fn reading_state(r: DeviceReading) -> Seq<char> {
    match r.value {
        DeviceValue::Undefined => "undefined"@,
        DeviceValue::Off => "off"@,
        DeviceValue::On(b) => if kind_is_dimmable(r.kind) {
            decimal(b@ as nat)
        } else {
            "on"@
        },
        DeviceValue::AllOff => "all off"@,
        DeviceValue::AllOn => "all on"@,
    }
}

/// How a reading is shown to a developer.
pub open spec fn reading_repr(r: DeviceReading) -> Seq<char> {
    "DeviceValue(state="@ + quoted(reading_state(r)) + ", is_on="@ + bool_text(reading_is_on(r))
        + ", brightness="@ + option_text(reading_brightness(r)) + ")"@
}

/// Whether a device of kind `kind` has a brightness or position to report.
pub fn is_dimmable(kind: DeviceKind) -> (r: bool)
    ensures
        r == kind_is_dimmable(kind),
{
    match kind {
        DeviceKind::Dimmer | DeviceKind::Blinds => true,
        _ => false,
    }
}

impl DeviceReading {
    /// The value `value` reported by a device of kind `kind`.
    pub fn new(kind: DeviceKind, value: DeviceValue) -> (r: DeviceReading)
        ensures
            r.kind == kind,
            r.value == value,
    {
        DeviceReading { kind, value }
    }

    /// Whether the device is currently on.
    pub fn is_on(&self) -> (r: bool)
        ensures
            r == reading_is_on(*self),
            r == (self.value is On || self.value is AllOn),
    {
        match self.value {
            DeviceValue::On(_) | DeviceValue::AllOn => true,
            _ => false,
        }
    }

    /// The brightness in percent (`0..=100`) for a dimmer (the position for
    /// blinds), or `None` when the device is off, undefined, or not dimmable.
    pub fn brightness(&self) -> (r: Option<u8>)
        ensures
            r == reading_brightness(*self),
            r matches Some(p) ==> p <= 100,
            (self.kind is Dimmer || self.kind is Blinds) ==> match self.value {
                DeviceValue::On(b) => r == Some(b@),
                DeviceValue::AllOn => r == Some(100u8),
                _ => r is None,
            },
            !(self.kind is Dimmer || self.kind is Blinds) ==> r is None,
    {
        if !is_dimmable(self.kind) {
            return None;
        }
        match self.value {
            DeviceValue::On(b) => Some(b.get()),
            DeviceValue::AllOn => Some(100),
            _ => None,
        }
    }

    /// The lowercase text of the state: `undefined`, `off`, `all off`,
    /// `all on`, `on`, or a brightness such as `50`.
    pub fn state(&self) -> (r: String)
        ensures
            r@ == reading_state(*self),
            self.value is Undefined ==> r@ == "undefined"@,
            self.value is Off ==> r@ == "off"@,
            self.value is AllOff ==> r@ == "all off"@,
            self.value is AllOn ==> r@ == "all on"@,
            self.value matches DeviceValue::On(b) ==> if self.kind is Dimmer || self.kind is Blinds {
                r@ == decimal(b@ as nat)
            } else {
                r@ == "on"@
            },
    {
        match self.value {
            DeviceValue::Undefined => String::from_str("undefined"),
            DeviceValue::Off => String::from_str("off"),
            DeviceValue::On(b) => if is_dimmable(self.kind) {
                decimal_string(b.get() as u64)
            } else {
                String::from_str("on")
            },
            DeviceValue::AllOff => String::from_str("all off"),
            DeviceValue::AllOn => String::from_str("all on"),
        }
    }

    /// Whether the gateway has not reported the value yet.
    pub fn is_undefined(&self) -> (r: bool)
        ensures
            r == (self.value is Undefined),
    {
        match self.value {
            DeviceValue::Undefined => true,
            _ => false,
        }
    }

    /// Whether two readings carry the same reported value.
    pub fn equals(&self, other: &DeviceReading) -> (r: bool)
        ensures
            r == (self.value == other.value),
    {
        self.value == other.value
    }

    /// The developer-facing text of the reading, e.g.
    /// `DeviceValue(state="50", is_on=true, brightness=Some(50))`.
    pub fn repr(&self) -> (r: String)
        ensures
            r@ == reading_repr(*self),
            r@ == "DeviceValue(state="@ + seq!['"'] + reading_state(*self) + seq!['"'] + ", is_on="@
                + (if reading_is_on(*self) {
                "true"@
            } else {
                "false"@
            }) + ", brightness="@ + match reading_brightness(*self) {
                Some(p) => "Some("@ + decimal(p as nat) + ")"@,
                None => "None"@,
            } + ")"@,
    {
        let state = self.state();
        let mut r = String::from_str("DeviceValue(state=");
        let q = quote(state.as_str());
        r.append(q.as_str());
        r.append(", is_on=");
        let on = bool_string(self.is_on());
        r.append(on.as_str());
        r.append(", brightness=");
        let b = option_string(self.brightness());
        r.append(b.as_str());
        r.append(")");
        r
    }
}

/// The brightness of a reading is the percentage the device reported: for a
/// dimmer or blinds that is on it is that percentage itself, 100 when all are
/// on, and nothing otherwise; a device of any other kind has none.
pub proof fn lemma_brightness_is_reported_percentage(kind: DeviceKind, b: DeviceBrightness)
    ensures
        (kind is Dimmer || kind is Blinds) ==> reading_brightness(
            DeviceReading { kind, value: DeviceValue::On(b) },
        ) == Some(b@),
        (kind is Dimmer || kind is Blinds) ==> reading_brightness(
            DeviceReading { kind, value: DeviceValue::AllOn },
        ) == Some(100u8),
        !(kind is Dimmer || kind is Blinds) ==> reading_brightness(
            DeviceReading { kind, value: DeviceValue::On(b) },
        ) is None,
        reading_brightness(DeviceReading { kind, value: DeviceValue::Off }) is None,
        reading_brightness(DeviceReading { kind, value: DeviceValue::AllOff }) is None,
        reading_brightness(DeviceReading { kind, value: DeviceValue::Undefined }) is None,
{
}

/// Two dimmable devices that report the same value read the same
/// brightness, whatever their kinds.
pub proof fn lemma_brightness_same_for_dimmable_kinds(a: DeviceReading, b: DeviceReading)
    requires
        kind_is_dimmable(a.kind),
        kind_is_dimmable(b.kind),
        a.value == b.value,
    ensures
        reading_brightness(a) == reading_brightness(b),
        reading_state(a) == reading_state(b),
{
}

/// Only the text of a value that is on depends on the kind of the device:
/// for every kind, undefined reads `undefined`, off reads `off`, all off
/// reads `all off` and all on reads `all on`; a value that is on reads its
/// percentage in decimal for a dimmer or blinds, and `on` for any other
/// kind.
pub proof fn lemma_state_text_by_value(kind: DeviceKind, b: DeviceBrightness)
    ensures
        reading_state(DeviceReading { kind, value: DeviceValue::Undefined }) == "undefined"@,
        reading_state(DeviceReading { kind, value: DeviceValue::Off }) == "off"@,
        reading_state(DeviceReading { kind, value: DeviceValue::AllOff }) == "all off"@,
        reading_state(DeviceReading { kind, value: DeviceValue::AllOn }) == "all on"@,
        (kind is Dimmer || kind is Blinds) ==> reading_state(
            DeviceReading { kind, value: DeviceValue::On(b) },
        ) == decimal(b@ as nat),
        !(kind is Dimmer || kind is Blinds) ==> reading_state(
            DeviceReading { kind, value: DeviceValue::On(b) },
        ) == "on"@,
{
}

/// A reading whose value is not on reads the same for every kind of device.
pub proof fn lemma_state_text_independent_of_kind(a: DeviceReading, b: DeviceReading)
    requires
        a.value == b.value,
        !(a.value is On),
    ensures
        reading_state(a) == reading_state(b),
        reading_brightness(a) is None || (kind_is_dimmable(a.kind) && a.value is AllOn),
{
}

/// A dimmable device is on exactly when its reading carries a brightness; a
/// device that is not dimmable never carries one.
pub proof fn lemma_brightness_iff_dimmable_and_on(r: DeviceReading)
    ensures
        kind_is_dimmable(r.kind) ==> (reading_is_on(r) <==> reading_brightness(r) is Some),
        !kind_is_dimmable(r.kind) ==> reading_brightness(r) is None,
{
}

/// A device that is not dimmable and is on reads `on`, with no brightness.
pub proof fn lemma_switch_on_reads_on(r: DeviceReading)
    requires
        !kind_is_dimmable(r.kind),
        r.value is On,
    ensures
        reading_state(r) == "on"@,
        reading_brightness(r) is None,
        reading_is_on(r),
{
}

/// The state text is `undefined` exactly when the value is undefined.
pub proof fn lemma_undefined_iff_state_text(r: DeviceReading)
    ensures
        (r.value is Undefined) <==> reading_state(r) == "undefined"@,
{
    reveal_strlit("undefined");
    reveal_strlit("on");
    reveal_strlit("off");
    reveal_strlit("all off");
    reveal_strlit("all on");
    assert("undefined"@.len() == 9);
    assert("on"@.len() == 2);
    assert("off"@.len() == 3);
    assert("all off"@.len() == 7);
    assert("all on"@.len() == 6);
    if let DeviceValue::On(b) = r.value {
        if kind_is_dimmable(r.kind) {
            lemma_decimal_digits(b@ as nat);
            assert(is_digit(decimal(b@ as nat)[0]));
            assert(reading_state(r)[0] != "undefined"@[0]);
        }
    }
}

/// Two readings of devices of the same kind with the same state text have
/// the same value, except that a device that is not dimmable reads `on`
/// whatever brightness the gateway reported with it.
pub proof fn lemma_state_text_names_the_value(a: DeviceReading, b: DeviceReading)
    requires
        a.kind == b.kind,
        reading_state(a) == reading_state(b),
    ensures
        a.value == b.value || (!kind_is_dimmable(a.kind) && a.value is On && b.value is On),
{
    reveal_strlit("undefined");
    reveal_strlit("on");
    reveal_strlit("off");
    reveal_strlit("all off");
    reveal_strlit("all on");
    assert("undefined"@.len() == 9);
    assert("on"@.len() == 2);
    assert("off"@.len() == 3);
    assert("all off"@.len() == 7);
    assert("all on"@.len() == 6);
    let d = kind_is_dimmable(a.kind);
    match (a.value, b.value) {
        (DeviceValue::On(x), DeviceValue::On(y)) => {
            if d {
                lemma_decimal_injective(x@ as nat, y@ as nat);
                DeviceBrightness::lemma_view_injective(x, y);
            }
        },
        (DeviceValue::On(x), _) => {
            if d {
                lemma_decimal_digits(x@ as nat);
                assert(is_digit(decimal(x@ as nat)[0]));
                assert(reading_state(a)[0] == reading_state(b)[0]);
            } else {
                assert(reading_state(a).len() == reading_state(b).len());
            }
        },
        (_, DeviceValue::On(y)) => {
            if d {
                lemma_decimal_digits(y@ as nat);
                assert(is_digit(decimal(y@ as nat)[0]));
                assert(reading_state(a)[0] == reading_state(b)[0]);
            } else {
                assert(reading_state(a).len() == reading_state(b).len());
            }
        },
        _ => {
            assert(reading_state(a).len() == reading_state(b).len());
        },
    }
}

} // verus!
