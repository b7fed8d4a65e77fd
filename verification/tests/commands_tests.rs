use kiosk_hub::commands::{dispatch, drain_dispatch, BusCall, CommandQueue, SystemCommand};

#[test]
fn device_commands_are_scoped_method_calls() {
    let p = "/org/bluez/hci0/dev_11".to_string();
    assert_eq!(
        dispatch(&SystemCommand::ConnectBluetoothDevice(p.clone())),
        BusCall::DeviceMethod { path: p.clone(), method: "Connect".to_string() }
    );
    assert_eq!(
        dispatch(&SystemCommand::DisconnectBluetoothDevice(p.clone())),
        BusCall::DeviceMethod { path: p.clone(), method: "Disconnect".to_string() }
    );
    assert_eq!(
        dispatch(&SystemCommand::PairBluetoothDevice(p.clone())),
        BusCall::DeviceMethod { path: p.clone(), method: "Pair".to_string() }
    );
    assert_eq!(
        dispatch(&SystemCommand::UnpairBluetoothDevice(p.clone())),
        BusCall::DeviceMethod { path: p, method: "Unpair".to_string() }
    );
}

#[test]
fn trust_is_a_property_write_not_a_method_call() {
    let p = "/org/bluez/hci0/dev_22".to_string();
    assert_eq!(
        dispatch(&SystemCommand::TrustBluetoothDevice(p.clone())),
        BusCall::DevicePropertySet { path: p.clone(), property: "Trusted".to_string(), value: true }
    );
    assert_eq!(
        dispatch(&SystemCommand::UntrustBluetoothDevice(p.clone())),
        BusCall::DevicePropertySet { path: p, property: "Trusted".to_string(), value: false }
    );
}

#[test]
fn remaining_commands_map_one_to_one() {
    assert_eq!(
        dispatch(&SystemCommand::BluetoothDiscovering("StartDiscovery".to_string())),
        BusCall::AdapterMethod { method: "StartDiscovery".to_string() }
    );
    assert_eq!(dispatch(&SystemCommand::GetAllBluetoothDevices), BusCall::GetManagedObjects);
    assert_eq!(dispatch(&SystemCommand::GetNetworkInterfaces), BusCall::EnumerateInterfaces);
    assert_eq!(dispatch(&SystemCommand::WlanScan), BusCall::RunWlanScan);
    assert_eq!(dispatch(&SystemCommand::UpdateSystem), BusCall::RunSystemUpdate);
    assert_eq!(dispatch(&SystemCommand::ListingSystemUpdates), BusCall::ListSystemUpdates);
}

#[test]
fn connect_wifi_renders_the_profile() {
    let call = dispatch(&SystemCommand::ConnectWifi("home".to_string(), "secret123".to_string()));
    assert_eq!(
        call,
        BusCall::ApplyWifiProfile {
            content: "network={\n\tssid=\"home\"\n\tpsk=\"secret123\"\n}".to_string()
        }
    );
}

#[test]
fn queue_is_fifo() {
    let mut q = CommandQueue::new();
    assert_eq!(q.len(), 0);
    assert_eq!(q.take_next(), None);
    q.submit(SystemCommand::UpdateSystem);
    q.submit(SystemCommand::WlanScan);
    q.submit(SystemCommand::GetAllBluetoothDevices);
    assert_eq!(q.len(), 3);
    assert_eq!(q.take_next(), Some(SystemCommand::UpdateSystem));
    assert_eq!(q.take_next(), Some(SystemCommand::WlanScan));
    assert_eq!(q.take_next(), Some(SystemCommand::GetAllBluetoothDevices));
    assert_eq!(q.take_next(), None);
}

#[test]
fn submission_order_is_execution_order() {
    // Commands A, B, C submitted in order produce exactly one downstream
    // call each, in that order.
    let a = SystemCommand::ConnectBluetoothDevice("/a".to_string());
    let b = SystemCommand::WlanScan;
    let c = SystemCommand::ListingSystemUpdates;
    let mut q = CommandQueue::new();
    q.submit(a.clone());
    q.submit(b.clone());
    q.submit(c.clone());
    let calls = drain_dispatch(&mut q);
    assert_eq!(q.len(), 0);
    assert_eq!(calls, vec![dispatch(&a), dispatch(&b), dispatch(&c)]);
}
