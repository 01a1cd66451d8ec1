//! BLE host to support App: the decisions of the companion's GATT service.
use vstd::prelude::*;

verus! {

/// 16-bit UUID of the Mesh Proxy service, little-endian, as advertised by the
/// companion's BLE host.
pub const SERVICE_UUID_MESH_PROXY_LE: [u8; 2] = [0x28, 0x18];

/// What the companion does with a GATT write.
#[derive(Debug, PartialEq, Eq, Structural, Clone, Copy)]
pub enum GattWriteAction {
    /// The write went to the RX characteristic: its data is answered on the
    /// TX characteristic.
    RespondOnTx,
    /// The write went to another attribute: it is ignored.
    Ignore,
}

/// Decides what to do with a write to the attribute `event_handle`, given the
/// handle of the RX characteristic.
pub fn gatt_write_action(event_handle: u16, rx_handle: u16) -> (r: GattWriteAction)
    ensures
        r == (if event_handle == rx_handle {
            GattWriteAction::RespondOnTx
        } else {
            GattWriteAction::Ignore
        }),
{
    if event_handle == rx_handle {
        GattWriteAction::RespondOnTx
    } else {
        GattWriteAction::Ignore
    }
}

} // verus!
