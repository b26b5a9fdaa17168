//! A device of the gateway's project as the bindings show it: its number,
//! its name and its kind.
use vstd::prelude::*;

use crate::text::{decimal, decimal_string, quote, quoted};

verus! {

/// The kind of a device configured in the gateway's project.
#[derive(Clone, Copy, Debug, PartialEq, Eq, Structural)]
pub enum DeviceKind {
    Binary,
    Dimmer,
    Blinds,
    /// A kind that the gateway reports and the bindings do not know.
    Unknown,
}

/// The stable lowercase name of a device kind.
pub open spec fn kind_name(kind: DeviceKind) -> Seq<char> {
    match kind {
        DeviceKind::Binary => "binary"@,
        DeviceKind::Dimmer => "dimmer"@,
        DeviceKind::Blinds => "blinds"@,
        DeviceKind::Unknown => "unknown"@,
    }
}

/// The stable lowercase name of a device kind: `binary`, `dimmer`,
/// `blinds`, or `unknown` for a kind the bindings do not know.
pub fn kind_str(kind: DeviceKind) -> (s: &'static str)
    ensures
        s@ == kind_name(kind),
        kind == DeviceKind::Binary ==> s@ == "binary"@,
        kind == DeviceKind::Dimmer ==> s@ == "dimmer"@,
        kind == DeviceKind::Blinds ==> s@ == "blinds"@,
        kind == DeviceKind::Unknown ==> s@ == "unknown"@,
{
    match kind {
        DeviceKind::Binary => "binary",
        DeviceKind::Dimmer => "dimmer",
        DeviceKind::Blinds => "blinds",
        DeviceKind::Unknown => "unknown",
    }
}

/// Different kinds have different names, and the known kinds are named
/// `binary`, `dimmer` and `blinds`.
pub proof fn lemma_kind_names_distinct(a: DeviceKind, b: DeviceKind)
    ensures
        kind_name(a) == kind_name(b) <==> a == b,
        a != DeviceKind::Unknown ==> (kind_name(a) == "binary"@ || kind_name(a) == "dimmer"@
            || kind_name(a) == "blinds"@),
{
    reveal_strlit("binary");
    reveal_strlit("dimmer");
    reveal_strlit("blinds");
    reveal_strlit("unknown");
    if kind_name(a) == kind_name(b) {
        assert(kind_name(a).len() == kind_name(b).len());
        assert(kind_name(a)[0] == kind_name(b)[0]);
        assert(kind_name(a)[2] == kind_name(b)[2]);
    }
}

/// A name for how Rust's `Debug` formatting writes a string: between double
/// quotes, with quotes, backslashes and non-printable characters escaped.
pub uninterp spec fn debug_text(s: Seq<char>) -> Seq<char>;

/// Writes `s` with `format!("{:?}", ..)` (std's `Debug` for `str`).
#[verifier::external_body]
fn debug_string(s: &str) -> (r: String)
    ensures
        r@ == debug_text(s@),
{
    format!("{:?}", s)
}

/// How a device is shown to a developer, given its name as `Debug` writes it.
pub open spec fn device_repr_text(number: u32, shown_name: Seq<char>, kind: DeviceKind) -> Seq<
    char,
> {
    "Device(number="@ + decimal(number as nat) + ", name="@ + shown_name + ", kind="@ + quoted(
        kind_name(kind),
    ) + ")"@
}

/// Builds `Device(number=<number>, name=<shown_name>, kind="<kind>")`.
pub fn device_repr(number: u32, shown_name: &str, kind: DeviceKind) -> (r: String)
    ensures
        r@ == device_repr_text(number, shown_name@, kind),
        r@ == "Device(number="@ + decimal(number as nat) + ", name="@ + shown_name@ + ", kind="@
            + seq!['"'] + kind_name(kind) + seq!['"'] + ")"@,
{
    let mut r = String::from_str("Device(number=");
    let n = decimal_string(number as u64);
    r.append(n.as_str());
    r.append(", name=");
    r.append(shown_name);
    r.append(", kind=");
    let k = quote(kind_str(kind));
    r.append(k.as_str());
    r.append(")");
    r
}

/// A device of the gateway's project.
#[derive(Clone, Debug)]
pub struct DeviceInfo {
    /// The stable numeric identifier the gateway uses for the device.
    pub number: u32,
    /// The human readable name configured in the project.
    pub name: String,
    /// What sort of device it is.
    pub kind: DeviceKind,
}

impl DeviceInfo {
    /// A device with the given number, name and kind.
    pub fn new(number: u32, name: String, kind: DeviceKind) -> (d: DeviceInfo)
        ensures
            d.number == number,
            d.name@ == name@,
            d.kind == kind,
    {
        DeviceInfo { number, name, kind }
    }

    /// The stable numeric identifier the gateway uses for this device.
    pub fn number(&self) -> (r: u32)
        ensures
            r == self.number,
    {
        self.number
    }

    /// The human readable name configured in the project.
    pub fn name(&self) -> (r: String)
        ensures
            r@ == self.name@,
    {
        String::from_str(self.name.as_str())
    }

    /// The device kind: `binary`, `dimmer`, `blinds`, or `unknown` for a kind
    /// the bindings do not know.
    pub fn kind(&self) -> (r: &'static str)
        ensures
            r@ == kind_name(self.kind),
    {
        kind_str(self.kind)
    }

    /// The developer-facing text of the device, e.g.
    /// `Device(number=3, name="Kitchen", kind="dimmer")`.
    pub fn repr(&self) -> (r: String)
        ensures
            r@ == device_repr_text(self.number, debug_text(self.name@), self.kind),
    {
        let shown = debug_string(self.name.as_str());
        device_repr(self.number, shown.as_str(), self.kind)
    }

    /// A copy of the device.
    pub fn duplicate(&self) -> (r: DeviceInfo)
        ensures
            r.number == self.number,
            r.name@ == self.name@,
            r.kind == self.kind,
    {
        DeviceInfo { number: self.number, name: String::from_str(self.name.as_str()), kind: self.kind }
    }
}

} // verus!
