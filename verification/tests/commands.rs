use enet_gw_api::command::{
    blinds_position_command, brightness_command, click_duration, turn_off_request,
    turn_on_request, ClickDuration, DeviceState, ItemSetValue, RangeError, SetValue,
};

#[test]
fn click_durations() {
    assert_eq!(click_duration(true), ClickDuration::Long);
    assert_eq!(click_duration(false), ClickDuration::Short);
}

#[test]
fn switch_requests() {
    assert_eq!(
        turn_on_request(5, false),
        ItemSetValue { number: 5, value: SetValue::On(ClickDuration::Short) }
    );
    assert_eq!(
        turn_on_request(5, true),
        ItemSetValue { number: 5, value: SetValue::On(ClickDuration::Long) }
    );
    assert_eq!(
        turn_off_request(6, false),
        ItemSetValue { number: 6, value: SetValue::Off(ClickDuration::Short) }
    );
    assert_eq!(
        turn_off_request(6, true),
        ItemSetValue { number: 6, value: SetValue::Off(ClickDuration::Long) }
    );
}

#[test]
fn brightness_range() {
    assert_eq!(
        brightness_command(2, 0),
        Ok(ItemSetValue { number: 2, value: SetValue::Dimm(0) })
    );
    assert_eq!(
        brightness_command(2, 100),
        Ok(ItemSetValue { number: 2, value: SetValue::Dimm(100) })
    );
    assert_eq!(brightness_command(2, 101), Err(RangeError::Brightness));
    assert_eq!(brightness_command(2, 255), Err(RangeError::Brightness));
}

#[test]
fn position_range() {
    assert_eq!(
        blinds_position_command(8, 0),
        Ok(ItemSetValue { number: 8, value: SetValue::Blinds(0) })
    );
    assert_eq!(
        blinds_position_command(8, 55),
        Ok(ItemSetValue { number: 8, value: SetValue::Blinds(55) })
    );
    assert_eq!(blinds_position_command(8, 101), Err(RangeError::Position));
}

#[test]
fn range_error_messages() {
    assert_eq!(RangeError::Brightness.message(), "brightness must be in the range 0..=100");
    assert_eq!(RangeError::Position.message(), "position must be in the range 0..=100");
}

#[test]
fn dimming_to_zero_turns_off() {
    let c = brightness_command(1, 0).unwrap();
    assert_eq!(c.value.state_after(), DeviceState::Off);
    let c = brightness_command(1, 1).unwrap();
    assert_eq!(c.value.state_after(), DeviceState::On);
    assert_eq!(SetValue::Blinds(0).state_after(), DeviceState::Off);
    assert_eq!(SetValue::Blinds(100).state_after(), DeviceState::On);
    assert_eq!(SetValue::On(ClickDuration::Long).state_after(), DeviceState::On);
    assert_eq!(SetValue::Off(ClickDuration::Short).state_after(), DeviceState::Off);
}
