use kiosk_hub::commands::SystemCommand;
use kiosk_hub::protocol::{Payload, WebSocketMessage};
use kiosk_hub::router::{bootstrap_commands, route, LocalAction, RouterAction};
use kiosk_hub::wifi::WifiCredentials;

fn frame(op: u8, t: &str, d: Option<Payload>) -> WebSocketMessage {
    WebSocketMessage { t: Some(t.to_string()), op, d }
}

#[test]
fn display_is_a_local_action() {
    let a = route(&frame(0, "DISPLAY", None));
    assert_eq!(a, RouterAction::Local(LocalAction::DisplayOff));
}

#[test]
fn update_commands_are_remote() {
    assert_eq!(
        route(&frame(0, "LISTING_UPDATE", None)),
        RouterAction::Remote(SystemCommand::ListingSystemUpdates)
    );
    assert_eq!(
        route(&frame(0, "UPDATE", None)),
        RouterAction::Remote(SystemCommand::UpdateSystem)
    );
}

#[test]
fn connect_wifi_decodes_credentials() {
    let d = Payload::Credentials(WifiCredentials {
        ssid: "home".to_string(),
        psk: Some("secret123".to_string()),
    });
    assert_eq!(
        route(&frame(0, "CONNECT_WIFI", Some(d))),
        RouterAction::Remote(SystemCommand::ConnectWifi(
            "home".to_string(),
            "secret123".to_string()
        ))
    );
}

#[test]
fn connect_wifi_without_psk_is_open() {
    let d = Payload::Credentials(WifiCredentials { ssid: "opennet".to_string(), psk: None });
    assert_eq!(
        route(&frame(0, "CONNECT_WIFI", Some(d))),
        RouterAction::Remote(SystemCommand::ConnectWifi("opennet".to_string(), String::new()))
    );
}

#[test]
fn connect_wifi_with_wrong_payload_is_dropped() {
    assert_eq!(route(&frame(0, "CONNECT_WIFI", None)), RouterAction::Ignore);
    assert_eq!(
        route(&frame(0, "CONNECT_WIFI", Some(Payload::Flag(true)))),
        RouterAction::Ignore
    );
}

#[test]
fn bluetooth_queries_and_discovery() {
    assert_eq!(
        route(&frame(2, "DEVICES", None)),
        RouterAction::Remote(SystemCommand::GetAllBluetoothDevices)
    );
    assert_eq!(
        route(&frame(2, "START_DISCOVERING", None)),
        RouterAction::Remote(SystemCommand::BluetoothDiscovering("StartDiscovery".to_string()))
    );
    assert_eq!(
        route(&frame(2, "STOP_DISCOVERING", None)),
        RouterAction::Remote(SystemCommand::BluetoothDiscovering("StopDiscovery".to_string()))
    );
}

#[test]
fn bluetooth_device_commands_need_an_address() {
    let addr = || Some(Payload::Address("/org/bluez/hci0/dev_AA_BB".to_string()));
    let path = "/org/bluez/hci0/dev_AA_BB".to_string();
    assert_eq!(
        route(&frame(2, "CONNECT", addr())),
        RouterAction::Remote(SystemCommand::ConnectBluetoothDevice(path.clone()))
    );
    assert_eq!(
        route(&frame(2, "DISCONNECT", addr())),
        RouterAction::Remote(SystemCommand::DisconnectBluetoothDevice(path.clone()))
    );
    assert_eq!(
        route(&frame(2, "PAIR", addr())),
        RouterAction::Remote(SystemCommand::PairBluetoothDevice(path.clone()))
    );
    assert_eq!(
        route(&frame(2, "UNPAIR", addr())),
        RouterAction::Remote(SystemCommand::UnpairBluetoothDevice(path.clone()))
    );
    assert_eq!(
        route(&frame(2, "TRUST", addr())),
        RouterAction::Remote(SystemCommand::TrustBluetoothDevice(path.clone()))
    );
    assert_eq!(
        route(&frame(2, "UNTRUST", addr())),
        RouterAction::Remote(SystemCommand::UntrustBluetoothDevice(path))
    );
    // A recognized event type with a malformed payload is dropped.
    assert_eq!(route(&frame(2, "CONNECT", None)), RouterAction::Ignore);
    assert_eq!(
        route(&frame(2, "CONNECT", Some(Payload::Flag(true)))),
        RouterAction::Ignore
    );
}

#[test]
fn unrecognized_combinations_are_noops() {
    assert_eq!(route(&frame(0, "DEVICES", None)), RouterAction::Ignore);
    assert_eq!(route(&frame(2, "DISPLAY", None)), RouterAction::Ignore);
    assert_eq!(route(&frame(3, "DISPLAY", None)), RouterAction::Ignore);
    assert_eq!(route(&frame(7, "ANYTHING", None)), RouterAction::Ignore);
    let untagged = WebSocketMessage { t: None, op: 0, d: None };
    assert_eq!(route(&untagged), RouterAction::Ignore);
}

#[test]
fn bootstrap_requests_full_device_state() {
    assert_eq!(bootstrap_commands(), vec![SystemCommand::GetAllBluetoothDevices]);
}
