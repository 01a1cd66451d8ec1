MeshCore firmware logic, verified with Verus
================================================================================
The logic of a MeshCore node (companion, repeater) with its behaviour stated in
contracts and proved.

* `src/packet/v1.rs` - the version 1 packet header: route and payload types.
* `src/app_interface/companion_protocol.rs` - the companion protocol: command
  and response type bytes, and reading a command frame from a buffer.
* `src/app_interface/command_stream_handler.rs` - a stream buffer that turns
  bytes from an app into command frames.
* `src/app_interface/ble.rs` - what the companion's GATT service does with a write.
* `src/interface/ble.rs` - the node name derived from the MAC address and the
  BLE advertising data.
* `src/companion.rs` - the companion role.
* `app/` - the BLE hosts (trouble-host), the LoRa repeater and the endless
  role loops, which talk to hardware and are not verified.
