//! The remote-command vocabulary, the FIFO queue it travels through, and
//! its dispatch onto downstream calls.
//!
//! Remote commands are consumed strictly in submission order by a single
//! worker; dispatch maps each command to exactly one downstream call
//! attempt — no retries, no deduplication, no silent drops.

use vstd::prelude::*;

use crate::wifi::{spec_wpa_profile, wpa_supplicant_profile};

verus! {

/// The closed union of remote commands a client or a bootstrap step can
/// enqueue.  Device commands carry the bus object path of the device.
#[derive(Debug, Clone, PartialEq, Eq)]
pub enum SystemCommand {
    /// Start or stop adapter discovery; carries the adapter method name.
    BluetoothDiscovering(String),
    /// Walk the managed-object tree and emit one snapshot per device.
    GetAllBluetoothDevices,
    ConnectBluetoothDevice(String),
    DisconnectBluetoothDevice(String),
    PairBluetoothDevice(String),
    UnpairBluetoothDevice(String),
    TrustBluetoothDevice(String),
    UntrustBluetoothDevice(String),
    /// Enumerate the logical network interfaces.
    GetNetworkInterfaces,
    /// Trigger a wireless scan.
    WlanScan,
    /// Render and apply a connection profile; empty key means an open
    /// network.
    ConnectWifi(String, String),
    UpdateSystem,
    ListingSystemUpdates,
}

/// Mathematical model of a [`SystemCommand`].
pub enum SystemCommandModel {
    BluetoothDiscovering(Seq<char>),
    GetAllBluetoothDevices,
    ConnectBluetoothDevice(Seq<char>),
    DisconnectBluetoothDevice(Seq<char>),
    PairBluetoothDevice(Seq<char>),
    UnpairBluetoothDevice(Seq<char>),
    TrustBluetoothDevice(Seq<char>),
    UntrustBluetoothDevice(Seq<char>),
    GetNetworkInterfaces,
    WlanScan,
    ConnectWifi(Seq<char>, Seq<char>),
    UpdateSystem,
    ListingSystemUpdates,
}

impl View for SystemCommand {
    type V = SystemCommandModel;

    open spec fn view(&self) -> SystemCommandModel {
        match self {
            SystemCommand::BluetoothDiscovering(m) => SystemCommandModel::BluetoothDiscovering(m@),
            SystemCommand::GetAllBluetoothDevices => SystemCommandModel::GetAllBluetoothDevices,
            SystemCommand::ConnectBluetoothDevice(p) => SystemCommandModel::ConnectBluetoothDevice(
                p@,
            ),
            SystemCommand::DisconnectBluetoothDevice(p)
                => SystemCommandModel::DisconnectBluetoothDevice(p@),
            SystemCommand::PairBluetoothDevice(p) => SystemCommandModel::PairBluetoothDevice(p@),
            SystemCommand::UnpairBluetoothDevice(p) => SystemCommandModel::UnpairBluetoothDevice(
                p@,
            ),
            SystemCommand::TrustBluetoothDevice(p) => SystemCommandModel::TrustBluetoothDevice(p@),
            SystemCommand::UntrustBluetoothDevice(p) => SystemCommandModel::UntrustBluetoothDevice(
                p@,
            ),
            SystemCommand::GetNetworkInterfaces => SystemCommandModel::GetNetworkInterfaces,
            SystemCommand::WlanScan => SystemCommandModel::WlanScan,
            SystemCommand::ConnectWifi(ssid, psk) => SystemCommandModel::ConnectWifi(ssid@, psk@),
            SystemCommand::UpdateSystem => SystemCommandModel::UpdateSystem,
            SystemCommand::ListingSystemUpdates => SystemCommandModel::ListingSystemUpdates,
        }
    }
}

/// One downstream call attempt, described as plain data.  The worker
/// performs it against the bus, the OS tooling, or the package manager.
#[derive(Debug, Clone, PartialEq, Eq)]
pub enum BusCall {
    /// A method call on the device interface of `path`.
    DeviceMethod { path: String, method: String },
    /// A property write on the device interface of `path`.
    DevicePropertySet { path: String, property: String, value: bool },
    /// A method call on the default adapter.
    AdapterMethod { method: String },
    /// One walk of the managed-object tree.
    GetManagedObjects,
    /// One enumeration of the OS interface table.
    EnumerateInterfaces,
    /// One run of the wireless scanner.
    RunWlanScan,
    /// Write the rendered profile and restart the link-management
    /// service.
    ApplyWifiProfile { content: String },
    /// Run the system upgrade once.
    RunSystemUpdate,
    /// Refresh the index and list upgradable packages once.
    ListSystemUpdates,
}

/// Mathematical model of a [`BusCall`].
pub enum BusCallModel {
    DeviceMethod { path: Seq<char>, method: Seq<char> },
    DevicePropertySet { path: Seq<char>, property: Seq<char>, value: bool },
    AdapterMethod { method: Seq<char> },
    GetManagedObjects,
    EnumerateInterfaces,
    RunWlanScan,
    ApplyWifiProfile { content: Seq<char> },
    RunSystemUpdate,
    ListSystemUpdates,
}

impl View for BusCall {
    type V = BusCallModel;

    open spec fn view(&self) -> BusCallModel {
        match self {
            BusCall::DeviceMethod { path, method } => BusCallModel::DeviceMethod {
                path: path@,
                method: method@,
            },
            BusCall::DevicePropertySet { path, property, value } => BusCallModel::DevicePropertySet {
                path: path@,
                property: property@,
                value: *value,
            },
            BusCall::AdapterMethod { method } => BusCallModel::AdapterMethod { method: method@ },
            BusCall::GetManagedObjects => BusCallModel::GetManagedObjects,
            BusCall::EnumerateInterfaces => BusCallModel::EnumerateInterfaces,
            BusCall::RunWlanScan => BusCallModel::RunWlanScan,
            BusCall::ApplyWifiProfile { content } => BusCallModel::ApplyWifiProfile {
                content: content@,
            },
            BusCall::RunSystemUpdate => BusCallModel::RunSystemUpdate,
            BusCall::ListSystemUpdates => BusCallModel::ListSystemUpdates,
        }
    }
}

/// The one downstream call a command maps to.  Connect, disconnect,
/// pair and unpair are direct method calls scoped to the device's
/// object path; trust and untrust are property writes.
pub open spec fn spec_dispatch(c: SystemCommandModel) -> BusCallModel {
    match c {
        SystemCommandModel::BluetoothDiscovering(m) => BusCallModel::AdapterMethod { method: m },
        SystemCommandModel::GetAllBluetoothDevices => BusCallModel::GetManagedObjects,
        SystemCommandModel::ConnectBluetoothDevice(p) => BusCallModel::DeviceMethod {
            path: p,
            method: "Connect"@,
        },
        SystemCommandModel::DisconnectBluetoothDevice(p) => BusCallModel::DeviceMethod {
            path: p,
            method: "Disconnect"@,
        },
        SystemCommandModel::PairBluetoothDevice(p) => BusCallModel::DeviceMethod {
            path: p,
            method: "Pair"@,
        },
        SystemCommandModel::UnpairBluetoothDevice(p) => BusCallModel::DeviceMethod {
            path: p,
            method: "Unpair"@,
        },
        SystemCommandModel::TrustBluetoothDevice(p) => BusCallModel::DevicePropertySet {
            path: p,
            property: "Trusted"@,
            value: true,
        },
        SystemCommandModel::UntrustBluetoothDevice(p) => BusCallModel::DevicePropertySet {
            path: p,
            property: "Trusted"@,
            value: false,
        },
        SystemCommandModel::GetNetworkInterfaces => BusCallModel::EnumerateInterfaces,
        SystemCommandModel::WlanScan => BusCallModel::RunWlanScan,
        SystemCommandModel::ConnectWifi(ssid, psk) => BusCallModel::ApplyWifiProfile {
            content: spec_wpa_profile(ssid, psk),
        },
        SystemCommandModel::UpdateSystem => BusCallModel::RunSystemUpdate,
        SystemCommandModel::ListingSystemUpdates => BusCallModel::ListSystemUpdates,
    }
}

/// Map one command to its single downstream call attempt.
pub fn dispatch(c: &SystemCommand) -> (call: BusCall)
    ensures
        call@ == spec_dispatch(c@),
{
    match c {
        SystemCommand::BluetoothDiscovering(m) => BusCall::AdapterMethod { method: m.clone() },
        SystemCommand::GetAllBluetoothDevices => BusCall::GetManagedObjects,
        SystemCommand::ConnectBluetoothDevice(p) => BusCall::DeviceMethod {
            path: p.clone(),
            method: String::from_str("Connect"),
        },
        SystemCommand::DisconnectBluetoothDevice(p) => BusCall::DeviceMethod {
            path: p.clone(),
            method: String::from_str("Disconnect"),
        },
        SystemCommand::PairBluetoothDevice(p) => BusCall::DeviceMethod {
            path: p.clone(),
            method: String::from_str("Pair"),
        },
        SystemCommand::UnpairBluetoothDevice(p) => BusCall::DeviceMethod {
            path: p.clone(),
            method: String::from_str("Unpair"),
        },
        SystemCommand::TrustBluetoothDevice(p) => BusCall::DevicePropertySet {
            path: p.clone(),
            property: String::from_str("Trusted"),
            value: true,
        },
        SystemCommand::UntrustBluetoothDevice(p) => BusCall::DevicePropertySet {
            path: p.clone(),
            property: String::from_str("Trusted"),
            value: false,
        },
        SystemCommand::GetNetworkInterfaces => BusCall::EnumerateInterfaces,
        SystemCommand::WlanScan => BusCall::RunWlanScan,
        SystemCommand::ConnectWifi(ssid, psk) => BusCall::ApplyWifiProfile {
            content: wpa_supplicant_profile(ssid.as_str(), psk.as_str()),
        },
        SystemCommand::UpdateSystem => BusCall::RunSystemUpdate,
        SystemCommand::ListingSystemUpdates => BusCall::ListSystemUpdates,
    }
}

/// Element-wise model of a command list.
pub open spec fn commands_model(s: Seq<SystemCommand>) -> Seq<SystemCommandModel> {
    s.map(|i: int, c: SystemCommand| c@)
}

/// Element-wise model of a call list.
pub open spec fn calls_model(s: Seq<BusCall>) -> Seq<BusCallModel> {
    s.map(|i: int, c: BusCall| c@)
}

/// The calls a command sequence produces: one per command, in order.
pub open spec fn spec_dispatch_all(cmds: Seq<SystemCommandModel>) -> Seq<BusCallModel> {
    cmds.map(|i: int, c: SystemCommandModel| spec_dispatch(c))
}

/// Every command enqueued results in exactly one downstream call
/// attempt, and submission order is execution order: the call list is
/// exactly as long as the command list and its `i`-th element is the
/// dispatch of the `i`-th command.
pub proof fn lemma_one_call_per_command(cmds: Seq<SystemCommandModel>)
    ensures
        spec_dispatch_all(cmds).len() == cmds.len(),
        forall|i: int|
            0 <= i < cmds.len() ==> spec_dispatch_all(cmds)[i] == spec_dispatch(cmds[i]),
{
}

/// The shared remote-command queue: strictly first-in-first-out, one
/// consumer.
pub struct CommandQueue {
    pub items: Vec<SystemCommand>,
}

impl CommandQueue {
    pub fn new() -> (q: CommandQueue)
        ensures
            q.items@.len() == 0,
    {
        CommandQueue { items: Vec::new() }
    }

    pub fn len(&self) -> (n: usize)
        ensures
            n == self.items@.len(),
    {
        self.items.len()
    }

    /// Append a command at the back; nothing already queued moves.
    pub fn submit(&mut self, c: SystemCommand)
        ensures
            final(self).items@ == old(self).items@.push(c),
    {
        self.items.push(c);
    }

    /// Take the oldest queued command, if any.
    pub fn take_next(&mut self) -> (r: Option<SystemCommand>)
        ensures
            old(self).items@.len() == 0 ==> r is None && final(self).items@ == old(self).items@,
            old(self).items@.len() > 0 ==> (r matches Some(c) && c == old(self).items@[0]
                && final(self).items@ == old(self).items@.drop_first()),
    {
        if self.items.len() == 0 {
            None
        } else {
            let c = self.items.remove(0);
            proof {
                assert(self.items@ =~= old(self).items@.drop_first());
            }
            Some(c)
        }
    }
}

/// Drain the queue in order, producing the downstream call for each
/// queued command: as many calls as there were commands, in submission
/// order.
pub fn drain_dispatch(q: &mut CommandQueue) -> (calls: Vec<BusCall>)
    ensures
        final(q).items@.len() == 0,
        calls_model(calls@) == spec_dispatch_all(commands_model(old(q).items@)),
{
    let ghost all = q.items@;
    let ghost mut done: Seq<SystemCommand> = Seq::empty();
    let mut calls: Vec<BusCall> = Vec::new();
    proof {
        assert(done + q.items@ =~= all);
        assert(calls_model(calls@) =~= spec_dispatch_all(commands_model(done)));
    }
    while q.len() > 0
        invariant
            done + q.items@ =~= all,
            calls_model(calls@) == spec_dispatch_all(commands_model(done)),
        decreases q.items@.len(),
    {
        let ghost before = q.items@;
        match q.take_next() {
            Some(c) => {
                let ghost prev_done = done;
                let ghost prev_calls = calls@;
                let call = dispatch(&c);
                calls.push(call);
                proof {
                    done = prev_done.push(c);
                    assert(before =~= seq![c] + q.items@);
                    assert(done + q.items@ =~= prev_done + before);
                    assert(commands_model(done) =~= commands_model(prev_done).push(c@));
                    assert(spec_dispatch_all(commands_model(prev_done).push(c@))
                        =~= spec_dispatch_all(commands_model(prev_done)).push(spec_dispatch(c@)));
                    assert(calls_model(calls@) =~= calls_model(prev_calls).push(call@));
                    assert(calls_model(calls@) =~= spec_dispatch_all(commands_model(done)));
                }
            },
            None => {
                proof {
                    assert(false);
                }
            },
        }
    }
    proof {
        assert(done + q.items@ =~= done);
        assert(done == all);
    }
    calls
}

} // verus!
