//! Control-plane logic for a multi-channel USB-PD charging station.
//!
//! The crate models the bus-arbitrated control plane of the station: the
//! I2C multiplexer arbitration layer, the per-channel charge-controller
//! state machine, the safety protector state machine and the watchdog
//! supervisor, together with the snapshot values they publish.  Hardware
//! transactions themselves happen outside this crate; every decision made
//! on their results is implemented and verified here.

use vstd::prelude::*;

pub mod bus;
pub mod charge_channel;
pub mod config;
pub mod i2c_mux;
pub mod mqtt;
pub mod protector;
pub mod watchdog;

verus! {

/// Connectivity of the external network link, as reported by the
/// collaborator that owns the radio.
#[derive(Debug, Clone, Copy, PartialEq, Eq, Structural)]
pub enum WiFiConnectStatus {
    Connecting,
    Connected,
}

} // verus!
