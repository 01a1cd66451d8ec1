use meshcore_firmware::app_interface::companion_protocol::{
    CommandPacket, CommandPacketError, CommandPacketType, ResponsePacketType,
};

#[test]
fn test_app_start_from_bytes() {
    const TEST_VECTOR: [u8; 11] = [0x01, 0x03, 0x6d, 0x63, 0x63, 0x6c, 0x69, 0, 0, 0, 0];
    match CommandPacket::from_bytes(&TEST_VECTOR) {
        Ok((packet, used)) => match packet {
            CommandPacket::AppStart { magic, label } => {
                assert_eq!(TEST_VECTOR.len(), used);
                assert_eq!(0x03, *magic);
                assert_eq!(TEST_VECTOR[2..11], *label);
            }

            _ => panic!("failed to comprehend APP_START packet"),
        },
        Err(e) => panic!("unable to parse APP_START - {:?}", e),
    }
}

#[test]
fn test_send_channel_message_from_bytes() {
    const TEST_VECTOR: [u8; 12] = [
        0x03, 0x00, 0x01, 0xD2, 0x02, 0x96, 0x49, 0x48, 0x65, 0x6C, 0x6C, 0x6F,
    ];
    match CommandPacket::from_bytes(&TEST_VECTOR) {
        Ok((packet, used)) => match packet {
            CommandPacket::SendChannelMessage {
                magic,
                channel_index,
                timestamp,
                message,
            } => {
                assert_eq!(TEST_VECTOR.len(), used);
                assert_eq!(0x00, *magic);
                assert_eq!(1, *channel_index);
                let timestamp = chrono::DateTime::from_timestamp_secs(timestamp as i64);
                assert_eq!(
                    chrono::DateTime::from_timestamp_secs(1234567890).unwrap(),
                    timestamp.expect("invalid time value")
                );
                assert_eq!(TEST_VECTOR[7..], *message);
            }

            _ => panic!("failed to comprehend APP_START packet"),
        },
        Err(e) => panic!("unable to parse APP_START - {:?}", e),
    }
}

#[test]
fn test_type_from_bytes() {
    // the wire byte of a command type decodes back to it
    let command = CommandPacketType::AppStart;
    let byte = command.to_byte();
    match CommandPacketType::from_byte(byte) {
        Some(p) => assert_eq!(p, CommandPacketType::AppStart),
        None => panic!("couldn't determine AppStart packet type from {byte}"),
    }

    let illegal_bytes: [u8; 1] = [0xFF];
    match CommandPacketType::from_byte(illegal_bytes[0]) {
        Some(p) => panic!("illegal packet type returned {:?}", p),
        None => (/* ignored */),
    }
}

#[test]
fn companion_protocol_test_type_from_bytes() {
    // the wire byte of a response type decodes back to it
    let response = ResponsePacketType::Ack;
    let byte = response.to_byte();
    match ResponsePacketType::from_byte(byte) {
        Some(p) => assert_eq!(p, ResponsePacketType::Ack),
        None => panic!("couldn't determine Ack packet type from {byte}"),
    }

    let illegal_bytes: [u8; 1] = [0xFF];
    match ResponsePacketType::from_byte(illegal_bytes[0]) {
        Some(p) => panic!("illegal packet type returned {:?}", p),
        None => (/* ignored */),
    }
}

#[test]
fn command_type_bytes_round_trip() {
    let mut known = 0;
    for b in 0..=255u8 {
        if let Some(t) = CommandPacketType::from_byte(b) {
            assert_eq!(b, t.to_byte());
            known += 1;
        }
    }
    assert_eq!(38, known);
    assert_eq!(Some(CommandPacketType::SendBinaryReq), CommandPacketType::from_byte(50));
    assert_eq!(Some(CommandPacketType::GetCustomVars), CommandPacketType::from_byte(40));
    assert_eq!(None, CommandPacketType::from_byte(0));
    assert_eq!(None, CommandPacketType::from_byte(36));
    assert_eq!(None, CommandPacketType::from_byte(42));
}

#[test]
fn response_type_bytes_round_trip() {
    let mut known = 0;
    for b in 0..=255u8 {
        if let Some(t) = ResponsePacketType::from_byte(b) {
            assert_eq!(b, t.to_byte());
            known += 1;
        }
    }
    assert_eq!(45, known);
    assert_eq!(Some(ResponsePacketType::RespOk), ResponsePacketType::from_byte(0));
    assert_eq!(Some(ResponsePacketType::AdvertResponse), ResponsePacketType::from_byte(0x8F));
    assert_eq!(0x80, ResponsePacketType::Advertisement.to_byte());
    assert_eq!(None, ResponsePacketType::from_byte(53));
    assert_eq!(None, ResponsePacketType::from_byte(0x90));
}

#[test]
fn from_bytes_empty_buffer() {
    assert_eq!(
        Err((CommandPacketError::EmptyBuffer, 0)),
        CommandPacket::from_bytes(&[])
    );
}

#[test]
fn from_bytes_invalid_first_byte() {
    assert_eq!(
        Err((CommandPacketError::InvalidFirstByte, 1)),
        CommandPacket::from_bytes(&[0xFF, 0x03])
    );
    assert_eq!(
        Err((CommandPacketError::InvalidFirstByte, 1)),
        CommandPacket::from_bytes(&[0x00])
    );
}

#[test]
fn from_bytes_incomplete_buffer() {
    // an AppStart frame needs 11 bytes
    assert_eq!(
        Err((CommandPacketError::IncompleteBuffer, 0)),
        CommandPacket::from_bytes(&[0x01, 0x03, 0x6d, 0x63, 0x63, 0x6c, 0x69, 0, 0, 0])
    );
    // a SendChannelMessage frame needs at least one message byte
    assert_eq!(
        Err((CommandPacketError::IncompleteBuffer, 0)),
        CommandPacket::from_bytes(&[0x03, 0x00, 0x01, 0xD2, 0x02, 0x96, 0x49])
    );
}

#[test]
fn from_bytes_not_implemented() {
    assert_eq!(
        Err((CommandPacketError::NotImplemented, 1)),
        CommandPacket::from_bytes(&[0x02, 0x00, 0x00])
    );
    assert_eq!(
        Err((CommandPacketError::NotImplemented, 1)),
        CommandPacket::from_bytes(&[0x04])
    );
}

#[test]
fn app_start_ignores_trailing_bytes() {
    let bytes = [0x01, 0x03, 0x6d, 0x63, 0x63, 0x6c, 0x69, 0, 0, 0, 0, 0x03, 0x00];
    match CommandPacket::from_bytes(&bytes) {
        Ok((CommandPacket::AppStart { magic, label }, used)) => {
            assert_eq!(11, used);
            assert_eq!(0x03, *magic);
            assert_eq!(b"mccli\0\0\0\0", label);
        }
        other => panic!("unexpected {:?}", other),
    }
}

#[test]
fn send_channel_message_negative_timestamp() {
    // 0xFFFFFFFE little-endian is -2
    let bytes = [0x03, 0x00, 0x07, 0xFE, 0xFF, 0xFF, 0xFF, b'h', b'i'];
    match CommandPacket::from_bytes(&bytes) {
        Ok((
            CommandPacket::SendChannelMessage {
                magic,
                channel_index,
                timestamp,
                message,
            },
            used,
        )) => {
            assert_eq!(9, used);
            assert_eq!(0, *magic);
            assert_eq!(7, *channel_index);
            assert_eq!(-2, timestamp);
            assert_eq!(b"hi", message);
        }
        other => panic!("unexpected {:?}", other),
    }
}
