//! Control hub for an embedded kiosk/gateway device.
//!
//! The crate models the device's event-routing and command-dispatch core:
//! the wire protocol spoken over the WebSocket endpoint, the router that
//! turns inbound envelopes into local actions or queued remote commands,
//! the FIFO remote-command queue and its downstream dispatch, the lossy
//! broadcast fan-out to connected clients, the RFID debounce and display
//! power state machines, the Bluetooth device-snapshot logic, and the
//! parsers for wireless-tooling output.  Everything here is plain
//! computation on plain values; the surrounding process (sockets, the
//! system bus, hardware files, subprocesses) hands values in and carries
//! results out.

pub mod activity;
pub mod bluetooth;
pub mod commands;
pub mod config;
pub mod display;
pub mod error;
pub mod fanout;
pub mod netif;
pub mod protocol;
pub mod router;
pub mod status;
pub mod strutil;
pub mod update;
pub mod wifi;

pub use activity::DeviceActivityState;
