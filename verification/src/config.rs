//! The process configuration, as plain values.  Reading the file and
//! deserializing it happen outside; the shapes and their invariants live
//! here.

use vstd::prelude::*;

verus! {

/// Where the log file goes.
#[derive(Debug, Clone, PartialEq, Eq)]
pub struct LogConf {
    pub file: String,
}

/// Which environment the process announces at startup.
#[derive(Debug, Clone, PartialEq, Eq)]
pub struct AppConf {
    pub environment: String,
}

/// The WebSocket listener endpoint.
#[derive(Debug, Clone, PartialEq, Eq)]
pub struct WebSocketConf {
    pub address: String,
    pub port: u16,
}

/// The whole configuration file.
#[derive(Debug, Clone, PartialEq, Eq)]
pub struct Config {
    pub app: AppConf,
    pub websocket: WebSocketConf,
    pub log: LogConf,
}

/// Whether a hardware model description names the supported board.  The
/// hardware loops run only on it.
pub fn model_is_raspberry_pi_4b(model_text: &str) -> (r: bool)
    ensures
        r == crate::strutil::spec_contains(model_text@, "Raspberry Pi 4 Model B"@),
{
    crate::strutil::str_contains(model_text, "Raspberry Pi 4 Model B")
}

} // verus!
