//! The commands that the client sends to the gateway, and the checks made on
//! their arguments before anything is sent.
use vstd::prelude::*;

verus! {

/// How long the virtual button is pressed: a long click starts group or
/// scene actions.
#[derive(Clone, Copy, Debug, PartialEq, Eq, Structural)]
pub enum ClickDuration {
    Short,
    Long,
}

/// The value sent to a device.
#[derive(Clone, Copy, Debug, PartialEq, Eq, Structural)]
pub enum SetValue {
    /// Switch on.
    On(ClickDuration),
    /// Switch off.
    Off(ClickDuration),
    /// Dim to a percentage.
    Dimm(u8),
    /// Move blinds to a position percentage.
    Blinds(u8),
}

/// A value addressed to the device with the given number.
#[derive(Clone, Copy, Debug, PartialEq, Eq, Structural)]
pub struct ItemSetValue {
    pub number: u32,
    pub value: SetValue,
}

/// The on/off state that a device is known to be in once a value was sent.
///
/// This models the local state update that the gateway client makes right
/// after it sends a command; the bindings do not read it back. It is here to
/// state what a command means, such as that dimming to zero switches off.
#[derive(Clone, Copy, Debug, PartialEq, Eq, Structural)]
pub enum DeviceState {
    Off,
    On,
    Unknown,
}

/// A percentage given to a command that is above 100.
#[derive(Clone, Copy, Debug, PartialEq, Eq, Structural)]
pub enum RangeError {
    /// The brightness of a dimmer.
    Brightness,
    /// The position of blinds.
    Position,
}

/// The state a device is in after it was sent `v`: a percentage of zero
/// switches it off, any other percentage switches it on. This is the state
/// the gateway client records locally after sending; nothing here reads it.
pub open spec fn state_after(v: SetValue) -> DeviceState {
    match v {
        SetValue::On(_) => DeviceState::On,
        SetValue::Off(_) => DeviceState::Off,
        SetValue::Dimm(p) => if p == 0 {
            DeviceState::Off
        } else {
            DeviceState::On
        },
        SetValue::Blinds(p) => if p == 0 {
            DeviceState::Off
        } else {
            DeviceState::On
        },
    }
}

/// A long click when `long` is set, else a short one.
pub open spec fn duration_for(long: bool) -> ClickDuration {
    if long {
        ClickDuration::Long
    } else {
        ClickDuration::Short
    }
}

/// The command that dims device `number` to `brightness` percent, or the
/// error when the percentage is above 100.
pub open spec fn brightness_request(number: u32, brightness: u8) -> Result<ItemSetValue, RangeError> {
    if brightness > 100 {
        Err(RangeError::Brightness)
    } else {
        Ok(ItemSetValue { number, value: SetValue::Dimm(brightness) })
    }
}

/// The command that moves blinds `number` to `position` percent, or the error
/// when the percentage is above 100.
pub open spec fn position_request(number: u32, position: u8) -> Result<ItemSetValue, RangeError> {
    if position > 100 {
        Err(RangeError::Position)
    } else {
        Ok(ItemSetValue { number, value: SetValue::Blinds(position) })
    }
}

impl SetValue {
    /// The state a device is in after it was sent this value, as the gateway
    /// client records it locally after sending.
    pub fn state_after(&self) -> (r: DeviceState)
        ensures
            r == state_after(*self),
    {
        match self {
            SetValue::On(_) => DeviceState::On,
            SetValue::Off(_) => DeviceState::Off,
            SetValue::Dimm(p) => if *p == 0 {
                DeviceState::Off
            } else {
                DeviceState::On
            },
            SetValue::Blinds(p) => if *p == 0 {
                DeviceState::Off
            } else {
                DeviceState::On
            },
        }
    }
}

impl RangeError {
    /// The message shown to the caller.
    pub fn message(&self) -> (r: &'static str)
        ensures
            r@ == match *self {
                RangeError::Brightness => "brightness must be in the range 0..=100"@,
                RangeError::Position => "position must be in the range 0..=100"@,
            },
    {
        match self {
            RangeError::Brightness => "brightness must be in the range 0..=100",
            RangeError::Position => "position must be in the range 0..=100",
        }
    }
}

/// A long click when `long` is set, else a short one.
pub fn click_duration(long: bool) -> (d: ClickDuration)
    ensures
        d == duration_for(long),
        long ==> d == ClickDuration::Long,
        !long ==> d == ClickDuration::Short,
{
    if long {
        ClickDuration::Long
    } else {
        ClickDuration::Short
    }
}

/// The command that switches device `number` on, with a long or short click.
pub fn turn_on_request(number: u32, long: bool) -> (r: ItemSetValue)
    ensures
        r == (ItemSetValue { number, value: SetValue::On(duration_for(long)) }),
        r.number == number,
        long ==> r.value == SetValue::On(ClickDuration::Long),
        !long ==> r.value == SetValue::On(ClickDuration::Short),
{
    ItemSetValue { number, value: SetValue::On(click_duration(long)) }
}

/// The command that switches device `number` off, with a long or short click.
pub fn turn_off_request(number: u32, long: bool) -> (r: ItemSetValue)
    ensures
        r == (ItemSetValue { number, value: SetValue::Off(duration_for(long)) }),
        r.number == number,
        long ==> r.value == SetValue::Off(ClickDuration::Long),
        !long ==> r.value == SetValue::Off(ClickDuration::Short),
{
    ItemSetValue { number, value: SetValue::Off(click_duration(long)) }
}

/// The command that dims device `number` to `brightness` percent; refused
/// when the percentage is above 100.
pub fn brightness_command(number: u32, brightness: u8) -> (r: Result<ItemSetValue, RangeError>)
    ensures
        r == brightness_request(number, brightness),
        brightness <= 100 ==> r == Ok::<ItemSetValue, RangeError>(
            ItemSetValue { number, value: SetValue::Dimm(brightness) },
        ),
        brightness > 100 ==> r == Err::<ItemSetValue, RangeError>(RangeError::Brightness),
{
    if brightness > 100 {
        return Err(RangeError::Brightness);
    }
    Ok(ItemSetValue { number, value: SetValue::Dimm(brightness) })
}

/// The command that moves blinds `number` to `position` percent; refused
/// when the percentage is above 100.
pub fn blinds_position_command(number: u32, position: u8) -> (r: Result<ItemSetValue, RangeError>)
    ensures
        r == position_request(number, position),
        position <= 100 ==> r == Ok::<ItemSetValue, RangeError>(
            ItemSetValue { number, value: SetValue::Blinds(position) },
        ),
        position > 100 ==> r == Err::<ItemSetValue, RangeError>(RangeError::Position),
{
    if position > 100 {
        return Err(RangeError::Position);
    }
    Ok(ItemSetValue { number, value: SetValue::Blinds(position) })
}

/// Dimming to zero percent switches the device off; any other accepted
/// brightness switches it on.
pub proof fn lemma_dimming_to_zero_turns_off(number: u32, brightness: u8)
    requires
        brightness <= 100,
    ensures
        brightness_request(number, brightness) matches Ok(c) && c.number == number && (
        state_after(c.value) == DeviceState::Off <==> brightness == 0),
{
}

/// A percentage is accepted exactly when it is at most 100, for dimmers and
/// blinds alike, and an accepted command addresses the device it was made for.
pub proof fn lemma_percentage_range(number: u32, p: u8)
    ensures
        brightness_request(number, p) is Ok <==> p <= 100,
        position_request(number, p) is Ok <==> p <= 100,
        brightness_request(number, p) is Ok ==> brightness_request(number, p)->Ok_0.number
            == number,
        position_request(number, p) is Ok ==> position_request(number, p)->Ok_0.number == number,
{
}

/// Switching on always leaves the device on and switching off always leaves
/// it off, whatever the click.
pub proof fn lemma_switch_states(long: bool)
    ensures
        state_after(SetValue::On(duration_for(long))) == DeviceState::On,
        state_after(SetValue::Off(duration_for(long))) == DeviceState::Off,
{
}

/// An accepted brightness is sent unchanged as a dimming command to the
/// device it was given for; a brightness above 100 is refused as a
/// brightness error.
pub proof fn lemma_brightness_command_exact(number: u32, brightness: u8)
    ensures
        brightness <= 100 ==> brightness_request(number, brightness) == Ok::<
            ItemSetValue,
            RangeError,
        >(ItemSetValue { number, value: SetValue::Dimm(brightness) }),
        brightness > 100 ==> brightness_request(number, brightness) == Err::<
            ItemSetValue,
            RangeError,
        >(RangeError::Brightness),
{
}

/// An accepted position is sent unchanged as a blinds command to the device
/// it was given for, so 0 and 100 reach the two opposite end stops; a
/// position above 100 is refused as a position error.
pub proof fn lemma_position_command_exact(number: u32, position: u8)
    ensures
        position <= 100 ==> position_request(number, position) == Ok::<ItemSetValue, RangeError>(
            ItemSetValue { number, value: SetValue::Blinds(position) },
        ),
        position > 100 ==> position_request(number, position) == Err::<ItemSetValue, RangeError>(
            RangeError::Position,
        ),
{
}

/// Two accepted positions give the same command only when they are the same
/// position for the same device.
pub proof fn lemma_position_commands_distinct(n1: u32, p1: u8, n2: u32, p2: u8)
    requires
        p1 <= 100,
        p2 <= 100,
        position_request(n1, p1) == position_request(n2, p2),
    ensures
        n1 == n2,
        p1 == p2,
{
    lemma_position_command_exact(n1, p1);
    lemma_position_command_exact(n2, p2);
}

/// Two accepted brightnesses give the same command only when they are the
/// same brightness for the same device.
pub proof fn lemma_brightness_commands_distinct(n1: u32, b1: u8, n2: u32, b2: u8)
    requires
        b1 <= 100,
        b2 <= 100,
        brightness_request(n1, b1) == brightness_request(n2, b2),
    ensures
        n1 == n2,
        b1 == b2,
{
    lemma_brightness_command_exact(n1, b1);
    lemma_brightness_command_exact(n2, b2);
}

/// A click is long exactly when a long click was asked for.
pub proof fn lemma_click_duration(long: bool)
    ensures
        (duration_for(long) == ClickDuration::Long) == long,
        (duration_for(long) == ClickDuration::Short) == !long,
{
}

} // verus!
