//! The node's own radio interfaces.
pub mod ble;
