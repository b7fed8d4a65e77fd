//! Bluetooth side of the system-bus bridge, modelled on plain values.
//!
//! The bus hands the process untyped, dynamically-keyed property
//! dictionaries; the surrounding task converts each entry to a
//! `(String, PropValue)` pair and the decode into a typed
//! [`BluetoothDevice`] snapshot happens here, in one place.  Signal
//! classification and the notification shapes are also decided here, so
//! that the listener task only fetches and forwards.

use vstd::prelude::*;

use crate::protocol::{Payload, WebSocketMessage};
use crate::protocol::{MessageModel, PayloadModel};
use crate::strutil::str_is;

verus! {

/// One value of a bus property dictionary, reduced to the shapes the
/// device decode reads: strings, integers, and booleans.  Anything else
/// is carried as `Other` and ignored.
#[derive(Debug, Clone, PartialEq, Eq)]
pub enum PropValue {
    Text(String),
    Number(u64),
    Flag(bool),
    Other,
}

/// Mathematical model of a [`PropValue`].
pub enum PropValueModel {
    Text(Seq<char>),
    Number(u64),
    Flag(bool),
    Other,
}

impl View for PropValue {
    type V = PropValueModel;

    open spec fn view(&self) -> PropValueModel {
        match self {
            PropValue::Text(s) => PropValueModel::Text(s@),
            PropValue::Number(n) => PropValueModel::Number(*n),
            PropValue::Flag(b) => PropValueModel::Flag(*b),
            PropValue::Other => PropValueModel::Other,
        }
    }
}

/// A device snapshot as clients see it.  The identity key is the bus
/// object path (`address`); the five booleans are tri-state: unknown
/// until first fetched.
#[derive(Debug, Clone, PartialEq, Eq)]
pub struct BluetoothDevice {
    pub name: String,
    pub address: String,
    pub connected: Option<bool>,
    pub paired: Option<bool>,
    pub blocked: Option<bool>,
    pub trusted: Option<bool>,
    pub bonded: Option<bool>,
}

/// Mathematical model of a [`BluetoothDevice`].
pub struct BluetoothDeviceModel {
    pub name: Seq<char>,
    pub address: Seq<char>,
    pub connected: Option<bool>,
    pub paired: Option<bool>,
    pub blocked: Option<bool>,
    pub trusted: Option<bool>,
    pub bonded: Option<bool>,
}

impl View for BluetoothDevice {
    type V = BluetoothDeviceModel;

    open spec fn view(&self) -> BluetoothDeviceModel {
        BluetoothDeviceModel {
            name: self.name@,
            address: self.address@,
            connected: self.connected,
            paired: self.paired,
            blocked: self.blocked,
            trusted: self.trusted,
            bonded: self.bonded,
        }
    }
}

/// Model of a property dictionary: key/value pairs in fetch order.
pub open spec fn props_model(props: Seq<(String, PropValue)>) -> Seq<(Seq<char>, PropValueModel)> {
    props.map(|i: int, p: (String, PropValue)| (p.0@, p.1@))
}

/// First value stored under `key`, if any.
pub open spec fn spec_lookup(props: Seq<(Seq<char>, PropValueModel)>, key: Seq<char>) -> Option<
    PropValueModel,
>
    decreases props.len(),
{
    if props.len() == 0 {
        None
    } else if props[0].0 == key {
        Some(props[0].1)
    } else {
        spec_lookup(props.drop_first(), key)
    }
}

/// A tri-state boolean property: booleans are taken as they are,
/// integers by their zero test, anything else is unknown.
pub open spec fn spec_flag(props: Seq<(Seq<char>, PropValueModel)>, key: Seq<char>) -> Option<
    bool,
> {
    match spec_lookup(props, key) {
        Some(PropValueModel::Flag(b)) => Some(b),
        Some(PropValueModel::Number(n)) => Some(n != 0),
        _ => None,
    }
}

/// The device name, defaulting to `"Unknown"` when the dictionary has no
/// string under `"Name"`.
pub open spec fn spec_name(props: Seq<(Seq<char>, PropValueModel)>) -> Seq<char> {
    match spec_lookup(props, "Name"@) {
        Some(PropValueModel::Text(s)) => s,
        _ => "Unknown"@,
    }
}

/// The snapshot decoded from one fetched dictionary.
pub open spec fn spec_device_from(path: Seq<char>, props: Seq<(Seq<char>, PropValueModel)>)
    -> BluetoothDeviceModel {
    BluetoothDeviceModel {
        name: spec_name(props),
        address: path,
        connected: spec_flag(props, "Connected"@),
        paired: spec_flag(props, "Paired"@),
        blocked: spec_flag(props, "Blocked"@),
        trusted: spec_flag(props, "Trusted"@),
        bonded: spec_flag(props, "Bonded"@),
    }
}

/// Walking past pairs whose key does not match leaves the lookup result
/// unchanged.
proof fn lemma_lookup_skip(props: Seq<(Seq<char>, PropValueModel)>, key: Seq<char>, i: int)
    requires
        0 <= i <= props.len(),
        forall|j: int| 0 <= j < i ==> props[j].0 != key,
    ensures
        spec_lookup(props, key) == spec_lookup(props.skip(i), key),
    decreases i,
{
    if i == 0 {
        assert(props.skip(0) =~= props);
    } else {
        lemma_lookup_skip(props, key, i - 1);
        let tail = props.skip(i - 1);
        assert(tail.len() > 0);
        assert(tail[0] == props[i - 1]);
        assert(tail[0].0 != key);
        assert(spec_lookup(tail, key) == spec_lookup(tail.drop_first(), key));
        assert(tail.drop_first() =~= props.skip(i));
    }
}

/// First value stored under `key` in a fetched dictionary.
fn lookup<'a>(props: &'a Vec<(String, PropValue)>, key: &str) -> (r: Option<&'a PropValue>)
    ensures
        match r {
            Some(v) => spec_lookup(props_model(props@), key@) == Some(v@),
            None => spec_lookup(props_model(props@), key@) is None,
        },
{
    let ghost m = props_model(props@);
    let n = props.len();
    let mut i: usize = 0;
    while i < n
        invariant
            n == props.len(),
            0 <= i <= n,
            m == props_model(props@),
            forall|j: int| 0 <= j < i ==> m[j].0 != key@,
        decreases n - i,
    {
        if str_is(props[i].0.as_str(), key) {
            proof {
                lemma_lookup_skip(m, key@, i as int);
            }
            return Some(&props[i].1);
        }
        i += 1;
    }
    proof {
        lemma_lookup_skip(m, key@, n as int);
    }
    None
}

/// Tri-state boolean property read, matching `spec_flag`.
fn flag_property(props: &Vec<(String, PropValue)>, key: &str) -> (r: Option<bool>)
    ensures
        r == spec_flag(props_model(props@), key@),
{
    match lookup(props, key) {
        Some(PropValue::Flag(b)) => Some(*b),
        Some(PropValue::Number(n)) => Some(*n != 0),
        _ => None,
    }
}

/// A device-interface property change worth reporting.  `UUIDs` batches
/// are treated as a newly discovered device; the other four carry the
/// changed boolean.
#[derive(Debug, Clone, Copy, PartialEq, Eq, Structural)]
pub enum DeviceSignal {
    Connected(bool),
    NewDevice,
    Trusted(bool),
    Paired(bool),
    Bonded(bool),
}

/// Which device-interface property keys are reported, and as what.
pub open spec fn spec_classify_signal(key: Seq<char>, nonzero: bool) -> Option<DeviceSignal> {
    if key == "Connected"@ {
        Some(DeviceSignal::Connected(nonzero))
    } else if key == "UUIDs"@ {
        Some(DeviceSignal::NewDevice)
    } else if key == "Trusted"@ {
        Some(DeviceSignal::Trusted(nonzero))
    } else if key == "Paired"@ {
        Some(DeviceSignal::Paired(nonzero))
    } else if key == "Bonded"@ {
        Some(DeviceSignal::Bonded(nonzero))
    } else {
        None
    }
}

/// The event tag a signal is reported under.
pub open spec fn spec_signal_tag(sig: DeviceSignal) -> Seq<char> {
    match sig {
        DeviceSignal::Connected(true) => "DEVICE_CONNECTED"@,
        DeviceSignal::Connected(false) => "DEVICE_DISCONNECTED"@,
        DeviceSignal::NewDevice => "DEVICE_FOUND"@,
        DeviceSignal::Trusted(true) => "DEVICE_TRUSTED"@,
        DeviceSignal::Trusted(false) => "DEVICE_UNTRUSTED"@,
        DeviceSignal::Paired(true) => "DEVICE_PAIRED"@,
        DeviceSignal::Paired(false) => "DEVICE_UNPAIRED"@,
        DeviceSignal::Bonded(true) => "DEVICE_BONDED"@,
        DeviceSignal::Bonded(false) => "DEVICE_UNBONDED"@,
    }
}

/// Classify one changed property of the device interface.  A `Some`
/// result is also the instruction to re-fetch the device's full property
/// set before anything is emitted.
pub fn classify_device_signal(key: &str, nonzero: bool) -> (r: Option<DeviceSignal>)
    ensures
        r == spec_classify_signal(key@, nonzero),
{
    if str_is(key, "Connected") {
        Some(DeviceSignal::Connected(nonzero))
    } else if str_is(key, "UUIDs") {
        Some(DeviceSignal::NewDevice)
    } else if str_is(key, "Trusted") {
        Some(DeviceSignal::Trusted(nonzero))
    } else if str_is(key, "Paired") {
        Some(DeviceSignal::Paired(nonzero))
    } else if str_is(key, "Bonded") {
        Some(DeviceSignal::Bonded(nonzero))
    } else {
        None
    }
}

/// The notification for one classified signal, carrying a full device
/// snapshot.
pub fn device_signal_notification(sig: DeviceSignal, device: BluetoothDevice) -> (m:
    WebSocketMessage)
    ensures
        m@ == (MessageModel {
            t: Some(spec_signal_tag(sig)),
            op: crate::protocol::OP_BLUETOOTH,
            d: Some(PayloadModel::Device(device@)),
        }),
{
    let tag: &str = match sig {
        DeviceSignal::Connected(true) => "DEVICE_CONNECTED",
        DeviceSignal::Connected(false) => "DEVICE_DISCONNECTED",
        DeviceSignal::NewDevice => "DEVICE_FOUND",
        DeviceSignal::Trusted(true) => "DEVICE_TRUSTED",
        DeviceSignal::Trusted(false) => "DEVICE_UNTRUSTED",
        DeviceSignal::Paired(true) => "DEVICE_PAIRED",
        DeviceSignal::Paired(false) => "DEVICE_UNPAIRED",
        DeviceSignal::Bonded(true) => "DEVICE_BONDED",
        DeviceSignal::Bonded(false) => "DEVICE_UNBONDED",
    };
    WebSocketMessage::notification(tag, crate::protocol::OP_BLUETOOTH, Payload::Device(device))
}

/// Handle one device-interface property change, given the property set
/// `fresh` re-fetched for this signal.
///
/// Freshness invariant: the snapshot inside the emitted notification is
/// decoded from `fresh` and from nothing else, so every notification
/// carries the state as re-fetched after the signal, never a cached
/// value.
pub fn device_signal_step(
    key: &str,
    nonzero: bool,
    path: &str,
    fresh: &Vec<(String, PropValue)>,
) -> (r: Option<WebSocketMessage>)
    ensures
        (r is Some) == (spec_classify_signal(key@, nonzero) is Some),
        r matches Some(m) ==> m@ == (MessageModel {
            t: Some(spec_signal_tag(spec_classify_signal(key@, nonzero)->0)),
            op: crate::protocol::OP_BLUETOOTH,
            d: Some(PayloadModel::Device(spec_device_from(path@, props_model(fresh@)))),
        }),
{
    match classify_device_signal(key, nonzero) {
        Some(sig) => {
            let device = device_from_properties(path, fresh);
            Some(device_signal_notification(sig, device))
        },
        None => None,
    }
}

/// The adapter interface reports only `Discovering`, as a bare boolean
/// with no re-fetch.
pub fn adapter_signal_notification(key: &str, nonzero: bool) -> (r: Option<WebSocketMessage>)
    ensures
        (r is Some) == (key@ == "Discovering"@),
        r matches Some(m) ==> m@ == (MessageModel {
            t: Some(if nonzero { "DISCOVERY_STARTED"@ } else { "DISCOVERY_STOPPED"@ }),
            op: crate::protocol::OP_BLUETOOTH,
            d: Some(PayloadModel::Flag(nonzero)),
        }),
{
    if str_is(key, "Discovering") {
        let tag: &str = if nonzero { "DISCOVERY_STARTED" } else { "DISCOVERY_STOPPED" };
        Some(WebSocketMessage::notification(tag, crate::protocol::OP_BLUETOOTH, Payload::Flag(nonzero)))
    } else {
        None
    }
}

/// One node of the managed-object tree: its path, and its device
/// interface's property dictionary where the node has that interface.
#[derive(Debug, Clone, PartialEq, Eq)]
pub struct BusObject {
    pub path: String,
    pub device: Option<Vec<(String, PropValue)>>,
}

/// Mathematical model of a [`BusObject`].
pub struct BusObjectModel {
    pub path: Seq<char>,
    pub device: Option<Seq<(Seq<char>, PropValueModel)>>,
}

impl View for BusObject {
    type V = BusObjectModel;

    open spec fn view(&self) -> BusObjectModel {
        BusObjectModel {
            path: self.path@,
            device: match self.device {
                Some(ref props) => Some(props_model(props@)),
                None => None,
            },
        }
    }
}

/// Element-wise model of a managed-object listing.
pub open spec fn objects_model(objs: Seq<BusObject>) -> Seq<BusObjectModel> {
    objs.map(|i: int, o: BusObject| o@)
}

/// The bulk-snapshot notification for one device node.
pub open spec fn spec_device_info(path: Seq<char>, props: Seq<(Seq<char>, PropValueModel)>)
    -> MessageModel {
    MessageModel {
        t: Some("DEVICE_INFO"@),
        op: crate::protocol::OP_BLUETOOTH,
        d: Some(PayloadModel::Device(spec_device_from(path, props))),
    }
}

/// The notifications a walk of the managed-object tree emits: one
/// `DEVICE_INFO` per node carrying the device interface, in walk order.
pub open spec fn spec_device_infos(objs: Seq<BusObjectModel>) -> Seq<MessageModel>
    decreases objs.len(),
{
    if objs.len() == 0 {
        Seq::empty()
    } else {
        let rest = spec_device_infos(objs.drop_first());
        match objs[0].device {
            Some(props) => seq![spec_device_info(objs[0].path, props)] + rest,
            None => rest,
        }
    }
}

proof fn lemma_device_infos_snoc(objs: Seq<BusObjectModel>, x: BusObjectModel)
    ensures
        spec_device_infos(objs.push(x)) == spec_device_infos(objs) + (match x.device {
            Some(props) => seq![spec_device_info(x.path, props)],
            None => Seq::<MessageModel>::empty(),
        }),
    decreases objs.len(),
{
    let tail = match x.device {
        Some(props) => seq![spec_device_info(x.path, props)],
        None => Seq::<MessageModel>::empty(),
    };
    if objs.len() == 0 {
        let single = objs.push(x);
        assert(single.drop_first() =~= Seq::<BusObjectModel>::empty());
        assert(spec_device_infos(Seq::<BusObjectModel>::empty()) == Seq::<MessageModel>::empty());
        assert(single[0] == x);
        assert(spec_device_infos(single) =~= tail);
        assert(objs =~= Seq::<BusObjectModel>::empty());
        assert(spec_device_infos(objs) + tail =~= tail);
    } else {
        assert(objs.push(x).drop_first() =~= objs.drop_first().push(x));
        lemma_device_infos_snoc(objs.drop_first(), x);
        assert(spec_device_infos(objs.push(x)) =~= spec_device_infos(objs) + tail);
    }
}

/// Walk a fetched managed-object listing and build the bulk snapshot:
/// exactly one `DEVICE_INFO` notification per node that has the device
/// interface, each decoded from that node's own property set.
pub fn all_devices_notifications(objects: &Vec<BusObject>) -> (msgs: Vec<WebSocketMessage>)
    ensures
        crate::protocol::messages_model(msgs@) == spec_device_infos(objects_model(objects@)),
{
    let ghost all = objects_model(objects@);
    let n = objects.len();
    let mut msgs: Vec<WebSocketMessage> = Vec::new();
    let mut i: usize = 0;
    proof {
        assert(all.take(0) =~= Seq::empty());
        assert(crate::protocol::messages_model(msgs@) =~= Seq::empty());
    }
    while i < n
        invariant
            n == objects.len(),
            0 <= i <= n,
            all == objects_model(objects@),
            crate::protocol::messages_model(msgs@) == spec_device_infos(all.take(i as int)),
        decreases n - i,
    {
        let ghost before = msgs@;
        match &objects[i].device {
            Some(props) => {
                let device = device_from_properties(objects[i].path.as_str(), props);
                let m = WebSocketMessage::notification(
                    "DEVICE_INFO",
                    crate::protocol::OP_BLUETOOTH,
                    Payload::Device(device),
                );
                msgs.push(m);
            },
            None => {},
        }
        proof {
            assert(all.take(i + 1) =~= all.take(i as int).push(all[i as int]));
            lemma_device_infos_snoc(all.take(i as int), all[i as int]);
            assert(crate::protocol::messages_model(msgs@) =~= spec_device_infos(
                all.take(i + 1),
            ));
        }
        i += 1;
    }
    proof {
        assert(all.take(n as int) =~= all);
    }
    msgs
}

/// Decode one fetched property dictionary into a device snapshot keyed by
/// its bus object path.  This is the only reader of the untyped pairs.
pub fn device_from_properties(path: &str, props: &Vec<(String, PropValue)>) -> (d: BluetoothDevice)
    ensures
        d@ == spec_device_from(path@, props_model(props@)),
{
    let name = match lookup(props, "Name") {
        Some(PropValue::Text(s)) => s.clone(),
        _ => String::from_str("Unknown"),
    };
    BluetoothDevice {
        name,
        address: String::from_str(path),
        connected: flag_property(props, "Connected"),
        paired: flag_property(props, "Paired"),
        blocked: flag_property(props, "Blocked"),
        trusted: flag_property(props, "Trusted"),
        bonded: flag_property(props, "Bonded"),
    }
}

} // verus!
