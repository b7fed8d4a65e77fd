use kiosk_hub::bluetooth::{
    adapter_signal_notification, all_devices_notifications, classify_device_signal,
    device_from_properties, device_signal_notification, device_signal_step, BusObject,
    DeviceSignal, PropValue,
};
use kiosk_hub::protocol::Payload;

fn props(entries: &[(&str, PropValue)]) -> Vec<(String, PropValue)> {
    entries.iter().map(|(k, v)| (k.to_string(), v.clone())).collect()
}

#[test]
fn decode_reads_name_and_tristate_flags() {
    let d = device_from_properties(
        "/org/bluez/hci0/dev_AA",
        &props(&[
            ("Name", PropValue::Text("Headset".to_string())),
            ("Connected", PropValue::Flag(true)),
            ("Paired", PropValue::Number(0)),
            ("Trusted", PropValue::Number(2)),
        ]),
    );
    assert_eq!(d.name, "Headset");
    assert_eq!(d.address, "/org/bluez/hci0/dev_AA");
    assert_eq!(d.connected, Some(true));
    assert_eq!(d.paired, Some(false));
    assert_eq!(d.trusted, Some(true));
    // Never fetched: unknown, not false.
    assert_eq!(d.blocked, None);
    assert_eq!(d.bonded, None);
}

#[test]
fn decode_defaults_missing_name() {
    let d = device_from_properties("/dev", &props(&[("Connected", PropValue::Flag(false))]));
    assert_eq!(d.name, "Unknown");
    assert_eq!(d.connected, Some(false));
}

#[test]
fn classification_covers_the_reported_keys() {
    assert_eq!(
        classify_device_signal("Connected", true),
        Some(DeviceSignal::Connected(true))
    );
    assert_eq!(classify_device_signal("UUIDs", false), Some(DeviceSignal::NewDevice));
    assert_eq!(classify_device_signal("Trusted", false), Some(DeviceSignal::Trusted(false)));
    assert_eq!(classify_device_signal("Paired", true), Some(DeviceSignal::Paired(true)));
    assert_eq!(classify_device_signal("Bonded", true), Some(DeviceSignal::Bonded(true)));
    assert_eq!(classify_device_signal("RSSI", true), None);
}

#[test]
fn signal_tags_follow_the_changed_value() {
    let dev = device_from_properties("/d", &props(&[]));
    let m = device_signal_notification(DeviceSignal::Connected(true), dev.clone());
    assert_eq!(m.t.as_deref(), Some("DEVICE_CONNECTED"));
    assert_eq!(m.op, 2);
    let m = device_signal_notification(DeviceSignal::Connected(false), dev.clone());
    assert_eq!(m.t.as_deref(), Some("DEVICE_DISCONNECTED"));
    let m = device_signal_notification(DeviceSignal::NewDevice, dev.clone());
    assert_eq!(m.t.as_deref(), Some("DEVICE_FOUND"));
    let m = device_signal_notification(DeviceSignal::Trusted(true), dev.clone());
    assert_eq!(m.t.as_deref(), Some("DEVICE_TRUSTED"));
    let m = device_signal_notification(DeviceSignal::Paired(false), dev.clone());
    assert_eq!(m.t.as_deref(), Some("DEVICE_UNPAIRED"));
    let m = device_signal_notification(DeviceSignal::Bonded(true), dev);
    assert_eq!(m.t.as_deref(), Some("DEVICE_BONDED"));
}

#[test]
fn signal_notification_carries_the_fresh_snapshot() {
    // The device was once known as disconnected; the signal triggers a
    // re-fetch and the notification must reflect the re-fetched state,
    // not the stale knowledge.
    let fresh = props(&[
        ("Name", PropValue::Text("Speaker".to_string())),
        ("Connected", PropValue::Flag(true)),
        ("Paired", PropValue::Flag(true)),
    ]);
    let m = device_signal_step("Connected", true, "/dev_1", &fresh)
        .expect("a reported key yields a notification");
    match m.d {
        Some(Payload::Device(d)) => {
            assert_eq!(d.name, "Speaker");
            assert_eq!(d.connected, Some(true));
            assert_eq!(d.paired, Some(true));
        }
        other => panic!("unexpected payload: {:?}", other),
    }
}

#[test]
fn unreported_keys_yield_nothing() {
    assert!(device_signal_step("RSSI", true, "/dev_1", &props(&[])).is_none());
}

#[test]
fn adapter_discovery_flag_maps_directly() {
    let m = adapter_signal_notification("Discovering", true).unwrap();
    assert_eq!(m.t.as_deref(), Some("DISCOVERY_STARTED"));
    assert_eq!(m.d, Some(Payload::Flag(true)));
    let m = adapter_signal_notification("Discovering", false).unwrap();
    assert_eq!(m.t.as_deref(), Some("DISCOVERY_STOPPED"));
    assert!(adapter_signal_notification("Powered", true).is_none());
}

#[test]
fn bulk_walk_emits_one_snapshot_per_device() {
    // Two device nodes and one non-device node: exactly two DEVICE_INFO
    // notifications, each carrying that device's own property set.
    let objects = vec![
        BusObject {
            path: "/org/bluez/hci0/dev_A".to_string(),
            device: Some(props(&[
                ("Name", PropValue::Text("A".to_string())),
                ("Connected", PropValue::Flag(true)),
            ])),
        },
        BusObject { path: "/org/bluez/hci0".to_string(), device: None },
        BusObject {
            path: "/org/bluez/hci0/dev_B".to_string(),
            device: Some(props(&[
                ("Name", PropValue::Text("B".to_string())),
                ("Paired", PropValue::Flag(true)),
            ])),
        },
    ];
    let msgs = all_devices_notifications(&objects);
    assert_eq!(msgs.len(), 2);
    for m in &msgs {
        assert_eq!(m.t.as_deref(), Some("DEVICE_INFO"));
        assert_eq!(m.op, 2);
    }
    match (&msgs[0].d, &msgs[1].d) {
        (Some(Payload::Device(a)), Some(Payload::Device(b))) => {
            assert_eq!(a.name, "A");
            assert_eq!(a.address, "/org/bluez/hci0/dev_A");
            assert_eq!(a.connected, Some(true));
            assert_eq!(a.paired, None);
            assert_eq!(b.name, "B");
            assert_eq!(b.address, "/org/bluez/hci0/dev_B");
            assert_eq!(b.paired, Some(true));
            assert_eq!(b.connected, None);
        }
        other => panic!("unexpected payloads: {:?}", other),
    }
}
