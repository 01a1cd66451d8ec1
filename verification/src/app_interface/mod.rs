//! Interfaces between an app and the node.
/// BLE host to support App
pub mod ble;
pub mod companion_protocol;

mod command_stream_handler;
pub use self::command_stream_handler::CommandStreamHandler;
