//! The wire envelope shared by every component: an optional event tag
//! `t`, a small operation code `op`, and an optional payload `d`.
//!
//! Operation codes: 0 carries control/system traffic, 1 point
//! notifications, 2 the Bluetooth domain, 4 update progress.  The payload
//! is typed here; the session layer turns it into the JSON shapes of the
//! protocol and back, and hands unrecognized payloads in as
//! [`Payload::Unknown`] so the router can ignore them.

use vstd::prelude::*;

use crate::bluetooth::{BluetoothDevice, BluetoothDeviceModel};
use crate::netif::{NetworkInterface, NetworkInterfaceModel};
use crate::wifi::{
    NetworkStatusModel, NetworkStatusResponse, ScanResult, ScanResultModel, Wifi,
    WifiCredentials, WifiCredentialsModel, WifiModel,
};

verus! {

/// Operation code for control and system commands.
pub const OP_CONTROL: u8 = 0;

/// Operation code for point notifications (RFID reads).
pub const OP_POINT: u8 = 1;

/// Operation code for the Bluetooth domain.
pub const OP_BLUETOOTH: u8 = 2;

/// Operation code for update progress.
pub const OP_UPDATE: u8 = 4;

/// A typed message payload.
#[derive(Debug, Clone, PartialEq, Eq)]
pub enum Payload {
    /// `{"status": ...}` — display power reports.
    Status(String),
    /// `{"message": ...}` — update progress text.
    Message(String),
    /// A full Bluetooth device snapshot.
    Device(BluetoothDevice),
    /// A bare boolean — discovery started/stopped.
    Flag(bool),
    /// A raw RFID UID.
    Uid(Vec<u8>),
    /// The station tool's tabular scan rows.
    ScanResults(Vec<ScanResult>),
    /// The logical interface list.
    Interfaces(Vec<NetworkInterface>),
    /// The station status triple.
    NetworkStatus(NetworkStatusResponse),
    /// One access point found by the verbose scanner.
    WifiNetwork(Wifi),
    /// `{"address": ...}` — inbound device selection.
    Address(String),
    /// `{"ssid": ..., "psk": ...}` — inbound join request.
    Credentials(WifiCredentials),
    /// Anything the session layer did not recognize.
    Unknown,
}

/// Mathematical model of a [`Payload`].
pub enum PayloadModel {
    Status(Seq<char>),
    Message(Seq<char>),
    Device(BluetoothDeviceModel),
    Flag(bool),
    Uid(Seq<u8>),
    ScanResults(Seq<ScanResultModel>),
    Interfaces(Seq<NetworkInterfaceModel>),
    NetworkStatus(NetworkStatusModel),
    WifiNetwork(WifiModel),
    Address(Seq<char>),
    Credentials(WifiCredentialsModel),
    Unknown,
}

/// Element-wise model of a scan row list.
pub open spec fn scan_results_model(rows: Seq<ScanResult>) -> Seq<ScanResultModel> {
    rows.map(|i: int, r: ScanResult| r@)
}

/// Element-wise model of an interface list.
pub open spec fn interfaces_model(list: Seq<NetworkInterface>) -> Seq<NetworkInterfaceModel> {
    list.map(|i: int, r: NetworkInterface| r@)
}

/// Element-wise model of a message list.
pub open spec fn messages_model(s: Seq<WebSocketMessage>) -> Seq<MessageModel> {
    s.map(|i: int, m: WebSocketMessage| m@)
}

impl View for Payload {
    type V = PayloadModel;

    open spec fn view(&self) -> PayloadModel {
        match self {
            Payload::Status(s) => PayloadModel::Status(s@),
            Payload::Message(s) => PayloadModel::Message(s@),
            Payload::Device(d) => PayloadModel::Device(d@),
            Payload::Flag(b) => PayloadModel::Flag(*b),
            Payload::Uid(u) => PayloadModel::Uid(u@),
            Payload::ScanResults(v) => PayloadModel::ScanResults(scan_results_model(v@)),
            Payload::Interfaces(v) => PayloadModel::Interfaces(interfaces_model(v@)),
            Payload::NetworkStatus(s) => PayloadModel::NetworkStatus(s@),
            Payload::WifiNetwork(w) => PayloadModel::WifiNetwork(w@),
            Payload::Address(a) => PayloadModel::Address(a@),
            Payload::Credentials(c) => PayloadModel::Credentials(c@),
            Payload::Unknown => PayloadModel::Unknown,
        }
    }
}

/// The message envelope: `t` optional event tag, `op` operation code,
/// `d` optional payload.  `op` and `t` together select exactly one
/// handler; unrecognized combinations are no-ops.
#[derive(Debug, Clone, PartialEq, Eq)]
pub struct WebSocketMessage {
    pub t: Option<String>,
    pub op: u8,
    pub d: Option<Payload>,
}

/// Mathematical model of a [`WebSocketMessage`].
pub struct MessageModel {
    pub t: Option<Seq<char>>,
    pub op: u8,
    pub d: Option<PayloadModel>,
}

impl View for WebSocketMessage {
    type V = MessageModel;

    open spec fn view(&self) -> MessageModel {
        MessageModel {
            t: match self.t {
                Some(ref s) => Some(s@),
                None => None,
            },
            op: self.op,
            d: match self.d {
                Some(ref p) => Some(p@),
                None => None,
            },
        }
    }
}

impl WebSocketMessage {
    /// A tagged notification, the shape every producer uses.
    pub fn notification(tag: &str, op: u8, d: Payload) -> (m: WebSocketMessage)
        ensures
            m@ == (MessageModel { t: Some(tag@), op, d: Some(d@) }),
    {
        WebSocketMessage { t: Some(String::from_str(tag)), op, d: Some(d) }
    }
}

} // verus!
