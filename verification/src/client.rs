//! What a connected client knows and decides without talking to the gateway:
//! its list of devices, the lookup of a device by number, the commands it
//! sends, and the messages of its failures.
use vstd::prelude::*;

use crate::command::{
    ClickDuration,
    blinds_position_command, brightness_command, brightness_request, duration_for,
    position_request, turn_off_request, turn_on_request, ItemSetValue, RangeError, SetValue,
};
use crate::device::DeviceInfo;
use crate::text::{chain_text, decimal, decimal_string, error_chain};
use crate::device::DeviceKind;
use crate::value::{DeviceReading, DeviceValue};

verus! {

/// The port a Funk Gateway IP listens on unless told otherwise.
pub const DEFAULT_PORT: u16 = 5000;

/// The number, name and kind of a device, as plain values.
pub open spec fn device_parts(d: DeviceInfo) -> (u32, Seq<char>, DeviceKind) {
    (d.number, d.name@, d.kind)
}

/// `i` is the first position in `devices` of a device numbered `number`.
pub open spec fn first_match(devices: Seq<DeviceInfo>, number: u32, i: int) -> bool {
    &&& 0 <= i < devices.len()
    &&& devices[i].number == number
    &&& forall|j: int| 0 <= j < i ==> devices[j].number != number
}

/// Some device in `devices` is numbered `number`.
pub open spec fn has_number(devices: Seq<DeviceInfo>, number: u32) -> bool {
    exists|i: int| 0 <= i < devices.len() && devices[i].number == number
}

/// How a client is shown to a developer: `EnetClient(devices=<count>)`.
pub open spec fn client_repr_text(count: nat) -> Seq<char> {
    "EnetClient(devices="@ + decimal(count) + ")"@
}

/// The client of a gateway: the devices it reported when it connected.
pub struct EnetClient {
    devices: Vec<DeviceInfo>,
}

impl View for EnetClient {
    type V = Seq<DeviceInfo>;

    closed spec fn view(&self) -> Seq<DeviceInfo> {
        self.devices@
    }
}

impl EnetClient {
    /// A client whose gateway reported `devices`, in that order.
    pub fn new(devices: Vec<DeviceInfo>) -> (c: EnetClient)
        ensures
            c@ == devices@,
    {
        EnetClient { devices }
    }

    /// The number of devices.
    pub fn device_count(&self) -> (r: usize)
        ensures
            r == self@.len(),
    {
        self.devices.len()
    }

    /// A copy of the list of controllable devices, in the gateway's order.
    pub fn devices(&self) -> (r: Vec<DeviceInfo>)
        ensures
            r@.len() == self@.len(),
            forall|i: int|
                0 <= i < r@.len() ==> device_parts(#[trigger] r@[i]) == device_parts(self@[i]),
            forall|i: int|
                0 <= i < r@.len() ==> (#[trigger] r@[i]).number == self@[i].number && r@[i].name@
                    == self@[i].name@ && r@[i].kind == self@[i].kind,
    {
        let mut r: Vec<DeviceInfo> = Vec::new();
        let n = self.devices.len();
        let mut i: usize = 0;
        while i < n
            invariant
                n == self.devices@.len(),
                i <= n,
                r@.len() == i,
                forall|k: int|
                    0 <= k < i ==> device_parts(#[trigger] r@[k]) == device_parts(
                        self.devices@[k],
                    ),
            decreases n - i,
        {
            r.push(self.devices[i].duplicate());
            i = i + 1;
        }
        r
    }

    /// The position of the first device numbered `number`, or `None` when
    /// there is none.
    pub fn position(&self, number: u32) -> (r: Option<usize>)
        ensures
            r is Some <==> has_number(self@, number),
            r matches Some(i) ==> first_match(self@, number, i as int),
            r matches Some(i) ==> i < self@.len() && self@[i as int].number == number,
            r matches Some(i) ==> forall|j: int| 0 <= j < i ==> (#[trigger] self@[j]).number != number,
            r is None ==> forall|j: int| 0 <= j < self@.len() ==> (#[trigger] self@[j]).number != number,
    {
        let n = self.devices.len();
        let mut i: usize = 0;
        while i < n
            invariant
                n == self.devices@.len(),
                i <= n,
                forall|j: int| 0 <= j < i ==> self.devices@[j].number != number,
            decreases n - i,
        {
            if self.devices[i].number == number {
                return Some(i);
            }
            i = i + 1;
        }
        None
    }

    /// The first device numbered `number`, or `None` when there is none.
    pub fn device(&self, number: u32) -> (r: Option<DeviceInfo>)
        ensures
            r is Some <==> has_number(self@, number),
            r matches Some(d) ==> exists|i: int|
                first_match(self@, number, i) && device_parts(d) == device_parts(
                    #[trigger] self@[i],
                ),
    {
        match self.position(number) {
            Some(i) => Some(self.devices[i].duplicate()),
            None => None,
        }
    }

    /// The command that switches device `number` on.
    pub fn turn_on(&self, number: u32, long: bool) -> (r: ItemSetValue)
        ensures
            r == (ItemSetValue { number, value: SetValue::On(duration_for(long)) }),
            long ==> r == (ItemSetValue { number, value: SetValue::On(ClickDuration::Long) }),
            !long ==> r == (ItemSetValue { number, value: SetValue::On(ClickDuration::Short) }),
    {
        turn_on_request(number, long)
    }

    /// The command that switches device `number` off.
    pub fn turn_off(&self, number: u32, long: bool) -> (r: ItemSetValue)
        ensures
            r == (ItemSetValue { number, value: SetValue::Off(duration_for(long)) }),
            long ==> r == (ItemSetValue { number, value: SetValue::Off(ClickDuration::Long) }),
            !long ==> r == (ItemSetValue { number, value: SetValue::Off(ClickDuration::Short) }),
    {
        turn_off_request(number, long)
    }

    /// The command that dims device `number` to `brightness` percent; refused
    /// above 100.
    pub fn set_brightness(&self, number: u32, brightness: u8) -> (r: Result<ItemSetValue, RangeError>)
        ensures
            r == brightness_request(number, brightness),
            brightness <= 100 ==> r == Ok::<ItemSetValue, RangeError>(
                ItemSetValue { number, value: SetValue::Dimm(brightness) },
            ),
            brightness > 100 ==> r == Err::<ItemSetValue, RangeError>(RangeError::Brightness),
    {
        brightness_command(number, brightness)
    }

    /// The command that moves blinds `number` to `position` percent; refused
    /// above 100.
    pub fn set_blinds_position(&self, number: u32, position: u8) -> (r: Result<
        ItemSetValue,
        RangeError,
    >)
        ensures
            r == position_request(number, position),
            position <= 100 ==> r == Ok::<ItemSetValue, RangeError>(
                ItemSetValue { number, value: SetValue::Blinds(position) },
            ),
            position > 100 ==> r == Err::<ItemSetValue, RangeError>(RangeError::Position),
    {
        blinds_position_command(number, position)
    }

    /// The developer-facing text of the client, e.g. `EnetClient(devices=3)`.
    pub fn repr(&self) -> (r: String)
        ensures
            r@ == client_repr_text(self@.len()),
            r@ == "EnetClient(devices="@ + decimal(self@.len()) + ")"@,
    {
        let mut r = String::from_str("EnetClient(devices=");
        let n = decimal_string(self.devices.len() as u64);
        r.append(n.as_str());
        r.append(")");
        r
    }
}

/// A device found by number is listed among the devices with that number,
/// and a number that no device has finds nothing.
pub proof fn lemma_lookup_agrees_with_list(devices: Seq<DeviceInfo>, number: u32, i: int)
    requires
        first_match(devices, number, i),
    ensures
        has_number(devices, number),
        forall|k: int| first_match(devices, number, k) ==> k == i,
{
    assert forall|k: int| first_match(devices, number, k) implies k == i by {
        if k < i {
            assert(devices[k].number != number);
        } else if k > i {
            assert(devices[i].number != number);
        }
    }
}

/// `prefix` followed by the `": "`-joined messages.
pub open spec fn failure_text(prefix: Seq<char>, messages: Seq<String>) -> Seq<char> {
    prefix + chain_text(messages.map_values(|m: String| m@))
}

fn failure_message(prefix: &str, messages: &Vec<String>) -> (r: String)
    ensures
        r@ == failure_text(prefix@, messages@),
{
    let mut r = String::from_str(prefix);
    let chain = error_chain(messages);
    r.append(chain.as_str());
    r
}

/// The message of a failed connection, given the messages of the error and
/// of its causes, outermost first.
pub fn connect_failure(messages: &Vec<String>) -> (r: String)
    ensures
        r@ == failure_text("failed to connect: "@, messages@),
{
    failure_message("failed to connect: ", messages)
}

/// The message of a command the gateway did not take, given the messages of
/// the error and of its causes, outermost first.
pub fn set_value_failure(messages: &Vec<String>) -> (r: String)
    ensures
        r@ == failure_text("failed to set value: "@, messages@),
{
    failure_message("failed to set value: ", messages)
}

/// The end of a device's stream of values.
#[derive(Clone, Copy, Debug, PartialEq, Eq, Structural)]
pub struct StreamClosed;

impl StreamClosed {
    /// The message that ends the iteration.
    pub fn message(&self) -> (r: &'static str)
        ensures
            r@ == "device stream closed"@,
    {
        "device stream closed"
    }
}

/// What the stream of a device of kind `kind` yields for what its reader
/// received: the value read for that device, or the end of the stream once
/// the reader was closed.
pub fn stream_item(kind: DeviceKind, received: Option<DeviceValue>) -> (r: Result<
    DeviceReading,
    StreamClosed,
>)
    ensures
        match received {
            Some(v) => r == Ok::<DeviceReading, StreamClosed>(DeviceReading { kind, value: v }),
            None => r == Err::<DeviceReading, StreamClosed>(StreamClosed),
        },
{
    match received {
        Some(v) => Ok(DeviceReading::new(kind, v)),
        None => Err(StreamClosed),
    }
}

} // verus!
