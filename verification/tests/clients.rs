use enet_gw_api::client::{
    connect_failure, set_value_failure, stream_item, EnetClient, StreamClosed, DEFAULT_PORT,
};
use enet_gw_api::command::{ClickDuration, ItemSetValue, RangeError, SetValue};
use enet_gw_api::device::{DeviceInfo, DeviceKind};
use enet_gw_api::value::{DeviceReading, DeviceValue};

fn sample() -> EnetClient {
    EnetClient::new(vec![
        DeviceInfo::new(1, "Lamp".to_string(), DeviceKind::Binary),
        DeviceInfo::new(4, "Dimmer".to_string(), DeviceKind::Dimmer),
        DeviceInfo::new(4, "Second".to_string(), DeviceKind::Blinds),
        DeviceInfo::new(9, "Blinds".to_string(), DeviceKind::Blinds),
    ])
}

#[test]
fn devices_are_listed_in_order() {
    let c = sample();
    let ds = c.devices();
    assert_eq!(c.device_count(), 4);
    assert_eq!(ds.len(), 4);
    assert_eq!(ds[0].number, 1);
    assert_eq!(ds[1].name, "Dimmer");
    assert_eq!(ds[2].kind, DeviceKind::Blinds);
    assert_eq!(ds[3].name, "Blinds");
}

#[test]
fn device_lookup_by_number() {
    let c = sample();
    let d = c.device(9).unwrap();
    assert_eq!(d.name, "Blinds");
    assert_eq!(d.kind, DeviceKind::Blinds);
    let d = c.device(4).unwrap();
    assert_eq!(d.name, "Dimmer");
    assert!(c.device(2).is_none());
    assert!(EnetClient::new(Vec::new()).device(1).is_none());
}

#[test]
fn lookup_agrees_with_list() {
    let c = sample();
    for n in 0..12u32 {
        let listed = c.devices().into_iter().find(|d| d.number == n);
        let found = c.device(n);
        assert_eq!(listed.is_some(), found.is_some());
        if let (Some(a), Some(b)) = (listed, found) {
            assert_eq!(a.name, b.name);
        }
    }
}

#[test]
fn client_commands() {
    let c = sample();
    assert_eq!(c.turn_on(1, false), ItemSetValue { number: 1, value: SetValue::On(ClickDuration::Short) });
    assert_eq!(c.turn_off(1, true), ItemSetValue { number: 1, value: SetValue::Off(ClickDuration::Long) });
    assert_eq!(c.set_brightness(4, 50), Ok(ItemSetValue { number: 4, value: SetValue::Dimm(50) }));
    assert_eq!(c.set_brightness(4, 150), Err(RangeError::Brightness));
    assert_eq!(c.set_blinds_position(9, 30), Ok(ItemSetValue { number: 9, value: SetValue::Blinds(30) }));
    assert_eq!(c.set_blinds_position(9, 200), Err(RangeError::Position));
}

#[test]
fn client_repr() {
    assert_eq!(sample().repr(), "EnetClient(devices=4)");
    assert_eq!(EnetClient::new(Vec::new()).repr(), "EnetClient(devices=0)");
}

#[test]
fn failure_messages() {
    let chain = vec![
        "Failed to connect to gateway.".to_string(),
        "connection refused".to_string(),
    ];
    assert_eq!(
        connect_failure(&chain),
        "failed to connect: Failed to connect to gateway.: connection refused"
    );
    assert_eq!(
        set_value_failure(&vec!["timeout".to_string()]),
        "failed to set value: timeout"
    );
}

#[test]
fn stream_items() {
    assert_eq!(
        stream_item(DeviceKind::Dimmer, Some(DeviceValue::Off)),
        Ok(DeviceReading { kind: DeviceKind::Dimmer, value: DeviceValue::Off })
    );
    assert_eq!(stream_item(DeviceKind::Binary, None), Err(StreamClosed));
    assert_eq!(StreamClosed.message(), "device stream closed");
}

#[test]
fn default_port() {
    assert_eq!(DEFAULT_PORT, 5000);
}
