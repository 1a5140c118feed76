//! Connection states reported over DBus.

pub mod modem_manager;
pub mod network_manager;
