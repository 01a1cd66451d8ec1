use meshcore_firmware::app_interface::ble::{
    gatt_write_action, GattWriteAction, SERVICE_UUID_MESH_PROXY_LE,
};
use meshcore_firmware::interface::ble::{encode_advertising_data, name_from_mac};

#[test]
fn name_from_mac_is_prefix_and_hex() {
    let name = name_from_mac([0x01, 0x23, 0x45, 0x67, 0x89, 0xAB]);
    assert_eq!("MeshCore-0123456789AB", name.as_str());
    let name = name_from_mac([0xFF, 0xEE, 0x0C, 0x00, 0x10, 0x9D]);
    assert_eq!("MeshCore-FFEE0C00109D", name.as_str());
}

#[test]
fn advertising_data_layout() {
    let mut adv = [0u8; 31];
    let name = name_from_mac([0, 0, 0, 0, 0, 0]);
    let len = encode_advertising_data(SERVICE_UUID_MESH_PROXY_LE, name.as_str(), &mut adv)
        .expect("fits");
    assert_eq!(30, len);
    let mut expected = vec![2, 0x01, 0x06, 3, 0x02, 0x28, 0x18, 22, 0x09];
    expected.extend_from_slice(b"MeshCore-000000000000");
    assert_eq!(expected[..], adv[..len]);
    assert_eq!(0, adv[30]);
}

#[test]
fn advertising_data_too_long() {
    let mut adv = [0u8; 31];
    assert_eq!(
        None,
        encode_advertising_data([0x0f, 0x18], "a name that is far too long", &mut adv)
    );
    assert_eq!(
        Some(31),
        encode_advertising_data([0x0f, 0x18], "twenty-two characters!", &mut adv)
    );
}

#[test]
fn gatt_writes() {
    assert_eq!(GattWriteAction::RespondOnTx, gatt_write_action(12, 12));
    assert_eq!(GattWriteAction::Ignore, gatt_write_action(13, 12));
}
