use meshcore_firmware::packet::v1::{Header, PayloadType, RouteType};

#[test]
fn route_type_from_low_bits() {
    assert_eq!(RouteType::TransportFlood, Header(0b0000_0000).route_type());
    assert_eq!(RouteType::Flood, Header(0b0000_0001).route_type());
    assert_eq!(RouteType::Direct, Header(0b1111_1110).route_type());
    assert_eq!(RouteType::TransportDirect, Header(0b0100_0111).route_type());
    assert_eq!(RouteType::Direct, RouteType::from(&Header(0x06)));
}

#[test]
fn route_type_values() {
    for h in 0..=255u8 {
        assert_eq!(h & 0b11, Header(h).route_type().value());
    }
}

#[test]
fn transport_codes() {
    assert!(RouteType::TransportFlood.has_transport_codes());
    assert!(RouteType::TransportDirect.has_transport_codes());
    assert!(!RouteType::Flood.has_transport_codes());
    assert!(!RouteType::Direct.has_transport_codes());
}

#[test]
fn payload_type_from_bits_two_to_five() {
    assert_eq!(PayloadType::Request, Header(0b0000_0010).payload_type());
    assert_eq!(PayloadType::Response, Header(0b0000_0101).payload_type());
    assert_eq!(PayloadType::Response, Header(0b1100_0111).payload_type());
    assert_eq!(PayloadType::Request, PayloadType::from_header(&Header(0b1100_0011)));
}

#[test]
fn payload_type_values() {
    assert_eq!(0, PayloadType::Request.value());
    assert_eq!(0b1011, PayloadType::Control.value());
    assert_eq!(0b1100, PayloadType::Reserved.value());
    assert_eq!(0b1111, PayloadType::RawCustom.value());
}
