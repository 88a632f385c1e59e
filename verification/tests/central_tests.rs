use std::collections::HashMap;

use ble_to_mqtt::central::{
    format_topic, get_properties, process_central_event, CentralEvent, CentralState, EventError,
    PeripheralLookup, PeripheralProperties,
};
use ble_to_mqtt::event::Event;
use ble_to_mqtt::events::{
    Event as Envelope, ManufacturerDataAdvertisementEvent, ServiceDataAdvertisementEvent,
    ServicesAdvertisementEvent,
};
use ble_to_mqtt::text::{join_path, replace_char, str_equals};

fn found(name: Option<&str>) -> PeripheralLookup {
    PeripheralLookup::Found {
        address: "11:22:33:44:55:66".to_string(),
        properties: Some(PeripheralProperties {
            local_name: name.map(|n| n.to_string()),
            address: "AA:BB:CC:DD:EE:FF".to_string(),
            rssi: Some(-60),
        }),
    }
}

fn found_without_properties() -> PeripheralLookup {
    PeripheralLookup::Found { address: "11:22:33:44:55:66".to_string(), properties: None }
}

fn failed(msg: &str) -> PeripheralLookup {
    PeripheralLookup::Failed(msg.to_string())
}

fn ok(r: Result<(Event, String), EventError>) -> (Event, String) {
    match r {
        Ok(x) => x,
        Err(EventError::Peripheral(m)) => panic!("unexpected error {}", m),
    }
}

fn err(r: Result<(Event, String), EventError>) -> String {
    match r {
        Ok(_) => panic!("expected an error"),
        Err(EventError::Peripheral(m)) => m,
    }
}

#[test]
fn text_replace_and_compare() {
    assert_eq!(replace_char("/org/bluez/hci0/dev_AA", '/', '_'), "_org_bluez_hci0_dev_AA");
    assert_eq!(replace_char("", '/', '_'), "");
    assert!(str_equals("abc", "abc"));
    assert!(!str_equals("abc", "abd"));
    assert!(!str_equals("abc", "ab"));
}

#[test]
fn join_path_matches_std_path_join() {
    let cases = [
        ("a", "b"),
        ("a/", "b"),
        ("", "b"),
        ("a", "/b"),
        ("a", ""),
        ("/", "x"),
        ("a/b", "c/d"),
        ("a//", "c"),
    ];
    for (base, comp) in cases {
        let expected = std::path::Path::new(base).join(comp).display().to_string();
        assert_eq!(join_path(base, comp), expected, "joining {:?} and {:?}", base, comp);
    }
    assert_eq!(join_path("a", "b"), "a/b");
    assert_eq!(join_path("a", "/b"), "/b");
    assert_eq!(join_path("a", ""), "a/");
}

#[test]
fn state_update_event() {
    let (e, topic) = ok(process_central_event(
        "ble-to-mqtt",
        CentralEvent::StateUpdate(CentralState::PoweredOn),
        &failed("unused"),
        &failed("unused"),
    ));
    assert_eq!(topic, "ble-to-mqtt/StateUpdate/PoweredOn");
    assert_eq!(e.id, "");
    assert_eq!(e.event, "StateUpdate");
    assert_eq!(e.mac_address, "");
    assert_eq!(e.local_name, None);
    assert_eq!(e.rssi, None);
    assert!(e.manufacturer_data.is_none() && e.service_data.is_none() && e.services.is_none());
    let (_, topic) = ok(process_central_event(
        "base/",
        CentralEvent::StateUpdate(CentralState::PoweredOff),
        &failed("unused"),
        &failed("unused"),
    ));
    assert_eq!(topic, "base/StateUpdate/PoweredOff");
    let (_, topic) = ok(process_central_event(
        "",
        CentralEvent::StateUpdate(CentralState::Unknown),
        &failed("unused"),
        &failed("unused"),
    ));
    assert_eq!(topic, "StateUpdate/Unknown");
}

#[test]
fn device_discovered_with_name() {
    let (e, topic) = ok(process_central_event(
        "ble-to-mqtt",
        CentralEvent::DeviceDiscovered("/org/bluez/hci0/dev_AA_BB".to_string()),
        &found(Some("Sensor")),
        &found(Some("Sensor")),
    ));
    assert_eq!(topic, "ble-to-mqtt/DeviceDiscovered/_org_bluez_hci0_dev_AA_BB/Sensor");
    assert_eq!(e.id, "/org/bluez/hci0/dev_AA_BB");
    assert_eq!(e.event, "DeviceDiscovered");
    assert_eq!(e.mac_address, "AA:BB:CC:DD:EE:FF");
    assert_eq!(e.local_name.as_deref(), Some("Sensor"));
    assert_eq!(e.rssi, Some(-60));
    assert!(e.manufacturer_data.is_none() && e.service_data.is_none() && e.services.is_none());
}

#[test]
fn device_kinds_name_the_event() {
    let kinds = [
        (CentralEvent::DeviceUpdated("d".to_string()), "DeviceUpdated"),
        (CentralEvent::DeviceConnected("d".to_string()), "DeviceConnected"),
        (CentralEvent::DeviceDisconnected("d".to_string()), "DeviceDisconnected"),
    ];
    for (ev, kind) in kinds {
        let (e, topic) = ok(process_central_event("t", ev, &found(None), &found(None)));
        assert_eq!(e.event, kind);
        assert_eq!(topic, format!("t/{}/d", kind));
    }
}

#[test]
fn device_without_properties_uses_peripheral_address() {
    let (e, topic) = ok(process_central_event(
        "t",
        CentralEvent::DeviceUpdated("hci0/dev_1".to_string()),
        &found_without_properties(),
        &found_without_properties(),
    ));
    assert_eq!(topic, "t/DeviceUpdated/hci0_dev_1");
    assert_eq!(e.mac_address, "11:22:33:44:55:66");
    assert_eq!(e.local_name, None);
    assert_eq!(e.rssi, None);
}

#[test]
fn topic_uses_second_lookup_for_the_name() {
    let (e, topic) = ok(process_central_event(
        "t",
        CentralEvent::DeviceConnected("x".to_string()),
        &found(Some("first")),
        &found(Some("second")),
    ));
    assert_eq!(e.local_name.as_deref(), Some("first"));
    assert_eq!(topic, "t/DeviceConnected/x/second");
}

#[test]
fn absolute_device_name_replaces_topic() {
    let (_, topic) = ok(process_central_event(
        "t",
        CentralEvent::DeviceConnected("x".to_string()),
        &found(Some("/abs")),
        &found(Some("/abs")),
    ));
    assert_eq!(topic, "/abs");
}

#[test]
fn failed_lookups_are_reported_in_order() {
    let ev = || CentralEvent::DeviceDiscovered("x".to_string());
    assert_eq!(err(process_central_event("t", ev(), &failed("first"), &failed("second"))), "first");
    assert_eq!(err(process_central_event("t", ev(), &found(None), &failed("second"))), "second");
    assert_eq!(
        err(process_central_event(
            "t",
            CentralEvent::ServicesAdvertisement { id: "x".to_string(), services: vec![1] },
            &failed("no device"),
            &found(None),
        )),
        "no device"
    );
}

#[test]
fn manufacturer_data_is_hex_encoded() {
    let mut data = HashMap::new();
    data.insert(0x004cu16, vec![0xde, 0xad, 0x01, 0xf0]);
    data.insert(7u16, vec![]);
    let (e, topic) = ok(process_central_event(
        "t",
        CentralEvent::ManufacturerDataAdvertisement { id: "dev".to_string(), manufacturer_data: data },
        &found(Some("n")),
        &found(Some("n")),
    ));
    assert_eq!(topic, "t/ManufacturerDataAdvertisement/dev/n");
    assert_eq!(e.event, "ManufacturerDataAdvertisement");
    let m = e.manufacturer_data.unwrap();
    assert_eq!(m.len(), 2);
    assert_eq!(m[&0x004c], "dead01f0");
    assert_eq!(m[&7], "");
    assert!(e.service_data.is_none() && e.services.is_none());
}

#[test]
fn service_data_is_hex_encoded() {
    let uuid: u128 = 0x0000180f_0000_1000_8000_00805f9b34fb;
    let mut data = HashMap::new();
    data.insert(uuid, vec![0x64]);
    let (e, topic) = ok(process_central_event(
        "t",
        CentralEvent::ServiceDataAdvertisement { id: "dev".to_string(), service_data: data },
        &found(None),
        &found(None),
    ));
    assert_eq!(topic, "t/ServiceDataAdvertisement/dev");
    let m = e.service_data.unwrap();
    assert_eq!(m.len(), 1);
    assert_eq!(m[&uuid], "64");
    assert!(e.manufacturer_data.is_none() && e.services.is_none());
}

#[test]
fn services_are_passed_through() {
    let (e, topic) = ok(process_central_event(
        "t",
        CentralEvent::ServicesAdvertisement { id: "dev".to_string(), services: vec![3, 1, 2] },
        &found(None),
        &found(None),
    ));
    assert_eq!(topic, "t/ServicesAdvertisement/dev");
    assert_eq!(e.services, Some(vec![3, 1, 2]));
    assert!(e.manufacturer_data.is_none() && e.service_data.is_none());
}

#[test]
fn get_properties_and_format_topic() {
    let p = get_properties(&found(Some("n"))).ok().unwrap();
    assert_eq!(p, (Some("n".to_string()), "AA:BB:CC:DD:EE:FF".to_string(), Some(-60)));
    let p = get_properties(&found_without_properties()).ok().unwrap();
    assert_eq!(p, (None, "11:22:33:44:55:66".to_string(), None));
    assert!(matches!(get_properties(&failed("e")), Err(EventError::Peripheral(m)) if m == "e"));
    assert_eq!(format_topic("K", "base", &failed("unused"), None).ok().unwrap(), "base/K");
    assert_eq!(
        format_topic("K", "base", &found(Some("n")), Some("a/b")).ok().unwrap(),
        "base/K/a_b/n"
    );
}

#[test]
fn typed_envelopes() {
    let mut md = HashMap::new();
    md.insert(1u16, "ff".to_string());
    let e = ManufacturerDataAdvertisementEvent::new(Some("n".to_string()), Some(-1), "id".to_string(), md);
    assert_eq!(e.event, "ManufacturerDataAdvertisementEvent");
    assert_eq!(e.data.manufacturer_data[&1], "ff");
    assert_eq!(e.id, "id");
    let e = ServiceDataAdvertisementEvent::new(None, None, "id".to_string(), HashMap::new());
    assert_eq!(e.event, "ServiceDataAdvertisementEvent");
    let e = ServicesAdvertisementEvent::new(None, Some(3), "id".to_string(), vec![5]);
    assert_eq!(e.event, "ServicesAdvertisement");
    assert_eq!(e.data.services, vec![5]);
    assert_eq!(e.rssi, Some(3));
    let e = Envelope::new_simple("x".to_string(), None, None, "i".to_string());
    assert_eq!(e.data, None);
    let e = Envelope::new("y".to_string(), None, None, "i".to_string(), 7u8);
    assert_eq!(e.data, 7);
    let e = Event::new("i".to_string(), "k".to_string(), "m".to_string(), None, None, None, None, None);
    assert_eq!(e.event, "k");
}
