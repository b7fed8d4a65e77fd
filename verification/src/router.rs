//! Per-connection command router: a dispatch table keyed by the envelope's
//! `(op, t)` pair.
//!
//! A frame either runs a local action on the connection's own task, or is
//! decoded into a typed remote command for the shared FIFO queue.
//! Unrecognized combinations, and recognized event types whose payload
//! has the wrong shape, are no-ops — dropped without an error frame.

use vstd::prelude::*;

use crate::commands::{SystemCommand, SystemCommandModel};
use crate::protocol::{
    MessageModel, Payload, PayloadModel, WebSocketMessage, OP_BLUETOOTH, OP_CONTROL,
};
use crate::strutil::str_is;

verus! {

/// An action executed inline on the connection's task.
#[derive(Debug, Clone, Copy, PartialEq, Eq, Structural)]
pub enum LocalAction {
    /// Write the backlight off and report the new state to this client.
    DisplayOff,
}

/// What the router decides for one inbound frame.
#[derive(Debug, Clone, PartialEq, Eq)]
pub enum RouterAction {
    Local(LocalAction),
    Remote(SystemCommand),
    /// The frame selects no handler and is dropped silently.
    Ignore,
}

/// Mathematical model of a [`RouterAction`].
pub enum RouterActionModel {
    Local(LocalAction),
    Remote(SystemCommandModel),
    Ignore,
}

impl View for RouterAction {
    type V = RouterActionModel;

    open spec fn view(&self) -> RouterActionModel {
        match self {
            RouterAction::Local(a) => RouterActionModel::Local(*a),
            RouterAction::Remote(c) => RouterActionModel::Remote(c@),
            RouterAction::Ignore => RouterActionModel::Ignore,
        }
    }
}

/// The device-address payload required by the Bluetooth device commands.
pub open spec fn spec_address_of(d: Option<PayloadModel>) -> Option<Seq<char>> {
    match d {
        Some(PayloadModel::Address(a)) => Some(a),
        _ => None,
    }
}

/// A Bluetooth device command for tag `t`, given the device address.
pub open spec fn spec_device_command(t: Seq<char>, addr: Seq<char>) -> Option<SystemCommandModel> {
    if t == "CONNECT"@ {
        Some(SystemCommandModel::ConnectBluetoothDevice(addr))
    } else if t == "DISCONNECT"@ {
        Some(SystemCommandModel::DisconnectBluetoothDevice(addr))
    } else if t == "PAIR"@ {
        Some(SystemCommandModel::PairBluetoothDevice(addr))
    } else if t == "UNPAIR"@ {
        Some(SystemCommandModel::UnpairBluetoothDevice(addr))
    } else if t == "TRUST"@ {
        Some(SystemCommandModel::TrustBluetoothDevice(addr))
    } else if t == "UNTRUST"@ {
        Some(SystemCommandModel::UntrustBluetoothDevice(addr))
    } else {
        None
    }
}

/// The full dispatch table.  `op` and `t` together select exactly one
/// entry; everything else maps to `Ignore`.
pub open spec fn spec_route(m: MessageModel) -> RouterActionModel {
    match m.t {
        None => RouterActionModel::Ignore,
        Some(t) => {
            if m.op == OP_CONTROL {
                if t == "DISPLAY"@ {
                    RouterActionModel::Local(LocalAction::DisplayOff)
                } else if t == "LISTING_UPDATE"@ {
                    RouterActionModel::Remote(SystemCommandModel::ListingSystemUpdates)
                } else if t == "UPDATE"@ {
                    RouterActionModel::Remote(SystemCommandModel::UpdateSystem)
                } else if t == "CONNECT_WIFI"@ {
                    match m.d {
                        Some(PayloadModel::Credentials(c)) => RouterActionModel::Remote(
                            SystemCommandModel::ConnectWifi(
                                c.ssid,
                                match c.psk {
                                    Some(p) => p,
                                    None => Seq::empty(),
                                },
                            ),
                        ),
                        _ => RouterActionModel::Ignore,
                    }
                } else {
                    RouterActionModel::Ignore
                }
            } else if m.op == OP_BLUETOOTH {
                if t == "DEVICES"@ {
                    RouterActionModel::Remote(SystemCommandModel::GetAllBluetoothDevices)
                } else if t == "START_DISCOVERING"@ {
                    RouterActionModel::Remote(
                        SystemCommandModel::BluetoothDiscovering("StartDiscovery"@),
                    )
                } else if t == "STOP_DISCOVERING"@ {
                    RouterActionModel::Remote(
                        SystemCommandModel::BluetoothDiscovering("StopDiscovery"@),
                    )
                } else {
                    match spec_address_of(m.d) {
                        Some(addr) => match spec_device_command(t, addr) {
                            Some(c) => RouterActionModel::Remote(c),
                            None => RouterActionModel::Ignore,
                        },
                        None => RouterActionModel::Ignore,
                    }
                }
            } else {
                RouterActionModel::Ignore
            }
        },
    }
}

/// Route one parsed inbound frame.
pub fn route(msg: &WebSocketMessage) -> (action: RouterAction)
    ensures
        action@ == spec_route(msg@),
{
    let t = match &msg.t {
        Some(t) => t,
        None => {
            return RouterAction::Ignore;
        },
    };
    if msg.op == OP_CONTROL {
        if str_is(t.as_str(), "DISPLAY") {
            RouterAction::Local(LocalAction::DisplayOff)
        } else if str_is(t.as_str(), "LISTING_UPDATE") {
            RouterAction::Remote(SystemCommand::ListingSystemUpdates)
        } else if str_is(t.as_str(), "UPDATE") {
            RouterAction::Remote(SystemCommand::UpdateSystem)
        } else if str_is(t.as_str(), "CONNECT_WIFI") {
            match &msg.d {
                Some(Payload::Credentials(c)) => {
                    let psk = match &c.psk {
                        Some(p) => p.clone(),
                        None => String::new(),
                    };
                    RouterAction::Remote(SystemCommand::ConnectWifi(c.ssid.clone(), psk))
                },
                _ => RouterAction::Ignore,
            }
        } else {
            RouterAction::Ignore
        }
    } else if msg.op == OP_BLUETOOTH {
        if str_is(t.as_str(), "DEVICES") {
            RouterAction::Remote(SystemCommand::GetAllBluetoothDevices)
        } else if str_is(t.as_str(), "START_DISCOVERING") {
            RouterAction::Remote(
                SystemCommand::BluetoothDiscovering(String::from_str("StartDiscovery")),
            )
        } else if str_is(t.as_str(), "STOP_DISCOVERING") {
            RouterAction::Remote(
                SystemCommand::BluetoothDiscovering(String::from_str("StopDiscovery")),
            )
        } else {
            let addr = match &msg.d {
                Some(Payload::Address(a)) => Some(a),
                _ => None,
            };
            match addr {
                Some(a) => {
                    if str_is(t.as_str(), "CONNECT") {
                        RouterAction::Remote(SystemCommand::ConnectBluetoothDevice(a.clone()))
                    } else if str_is(t.as_str(), "DISCONNECT") {
                        RouterAction::Remote(SystemCommand::DisconnectBluetoothDevice(a.clone()))
                    } else if str_is(t.as_str(), "PAIR") {
                        RouterAction::Remote(SystemCommand::PairBluetoothDevice(a.clone()))
                    } else if str_is(t.as_str(), "UNPAIR") {
                        RouterAction::Remote(SystemCommand::UnpairBluetoothDevice(a.clone()))
                    } else if str_is(t.as_str(), "TRUST") {
                        RouterAction::Remote(SystemCommand::TrustBluetoothDevice(a.clone()))
                    } else if str_is(t.as_str(), "UNTRUST") {
                        RouterAction::Remote(SystemCommand::UntrustBluetoothDevice(a.clone()))
                    } else {
                        RouterAction::Ignore
                    }
                },
                None => RouterAction::Ignore,
            }
        }
    } else {
        RouterAction::Ignore
    }
}

/// The remote commands a session queues right after a client connects,
/// so the new client receives full current state without waiting for a
/// signal.
pub fn bootstrap_commands() -> (cmds: Vec<SystemCommand>)
    ensures
        crate::commands::commands_model(cmds@) =~= seq![
            SystemCommandModel::GetAllBluetoothDevices,
        ],
{
    let mut cmds: Vec<SystemCommand> = Vec::new();
    cmds.push(SystemCommand::GetAllBluetoothDevices);
    cmds
}

} // verus!
