use enet_gw_api::device::{device_repr, kind_str, DeviceInfo, DeviceKind};

#[test]
fn kind_names() {
    assert_eq!(kind_str(DeviceKind::Binary), "binary");
    assert_eq!(kind_str(DeviceKind::Dimmer), "dimmer");
    assert_eq!(kind_str(DeviceKind::Blinds), "blinds");
    assert_eq!(kind_str(DeviceKind::Unknown), "unknown");
}

#[test]
fn kind_names_are_distinct() {
    let kinds = [DeviceKind::Binary, DeviceKind::Dimmer, DeviceKind::Blinds, DeviceKind::Unknown];
    for a in kinds.iter() {
        for b in kinds.iter() {
            assert_eq!(kind_str(*a) == kind_str(*b), a == b);
        }
    }
}

#[test]
fn device_getters() {
    let d = DeviceInfo::new(17, "Kitchen".to_string(), DeviceKind::Dimmer);
    assert_eq!(d.number(), 17);
    assert_eq!(d.name(), "Kitchen");
    assert_eq!(d.kind(), "dimmer");
}

#[test]
fn device_repr_text() {
    let d = DeviceInfo::new(3, "Living room".to_string(), DeviceKind::Binary);
    assert_eq!(d.repr(), "Device(number=3, name=\"Living room\", kind=\"binary\")");
}

#[test]
fn device_repr_escapes_the_name() {
    let d = DeviceInfo::new(4000000000, "Say \"hi\"\n".to_string(), DeviceKind::Blinds);
    assert_eq!(
        d.repr(),
        "Device(number=4000000000, name=\"Say \\\"hi\\\"\\n\", kind=\"blinds\")"
    );
}

#[test]
fn device_repr_from_shown_name() {
    assert_eq!(
        device_repr(0, "'x'", DeviceKind::Dimmer),
        "Device(number=0, name='x', kind=\"dimmer\")"
    );
}

#[test]
fn duplicate_keeps_everything() {
    let d = DeviceInfo::new(9, "Hall".to_string(), DeviceKind::Blinds);
    let e = d.duplicate();
    assert_eq!(e.number, 9);
    assert_eq!(e.name, "Hall");
    assert_eq!(e.kind, DeviceKind::Blinds);
}
