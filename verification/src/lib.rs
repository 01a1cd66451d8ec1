//! MeshCore firmware logic: packet headers, the companion command protocol,
//! the companion command stream, the BLE node name and advertising data.
// firmware roles (i.e. companion, repeater, room)
mod companion;
pub use self::companion::Companion;

pub mod app_interface;
pub mod interface;
pub mod packet;
