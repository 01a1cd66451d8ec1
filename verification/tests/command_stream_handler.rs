use meshcore_firmware::app_interface::companion_protocol::CommandPacket;
use meshcore_firmware::app_interface::CommandStreamHandler;

#[test]
fn test_app_start() {
    // from https://github.com/meshcore-dev/MeshCore/blob/main/docs/companion_protocol.md#1-app-start
    const APP_START_DATA: [u8; 11] = [0x01, 0x03, 0x6d, 0x63, 0x63, 0x6c, 0x69, 0, 0, 0, 0];

    let mut handler = CommandStreamHandler::new();
    assert_eq!(APP_START_DATA.len(), handler.write(&APP_START_DATA));

    match handler.next_command() {
        Some(p) => match p {
            CommandPacket::AppStart { magic, label } => {
                assert_eq!(0x03, *magic);
                assert_eq!(APP_START_DATA[2..11], *label);
            }
            _ => panic!("expected an APP_START command, got {:?}", p),
        },
        None => assert!(false, "Failed to find any command"),
    }
}

#[test]
fn write_stops_at_capacity() {
    let mut handler = CommandStreamHandler::new();
    let chunk = [0u8; 1000];
    assert_eq!(1000, handler.write(&chunk));
    assert_eq!(24, handler.write(&chunk));
    assert_eq!(0, handler.write(&chunk));
}

#[test]
fn next_command_waits_for_a_complete_frame() {
    let mut handler = CommandStreamHandler::new();
    assert_eq!(5, handler.write(&[0x01, 0x03, 0x6d, 0x63, 0x63]));
    assert!(handler.next_command().is_none());
    assert_eq!(6, handler.write(&[0x6c, 0x69, 0, 0, 0, 0]));
    match handler.next_command() {
        Some(CommandPacket::AppStart { magic, .. }) => assert_eq!(0x03, *magic),
        other => panic!("unexpected {:?}", other),
    }
    assert!(handler.next_command().is_none());
}

#[test]
fn next_command_drops_bytes_that_start_no_frame() {
    let mut handler = CommandStreamHandler::new();
    // junk byte, an unimplemented command byte, then an AppStart frame and one more frame
    let data = [
        0xFF, 0x04, 0x01, 0x03, 0x6d, 0x63, 0x63, 0x6c, 0x69, 0, 0, 0, 0, 0x03, 0x00, 0x02, 0, 0, 0,
        0, b'x',
    ];
    assert_eq!(data.len(), handler.write(&data));
    match handler.next_command() {
        Some(CommandPacket::AppStart { label, .. }) => assert_eq!(b"mccli\0\0\0\0", label),
        other => panic!("unexpected {:?}", other),
    }
    match handler.next_command() {
        Some(CommandPacket::SendChannelMessage {
            channel_index,
            timestamp,
            message,
            ..
        }) => {
            assert_eq!(2, *channel_index);
            assert_eq!(0, timestamp);
            assert_eq!(b"x", message);
        }
        other => panic!("unexpected {:?}", other),
    }
    assert!(handler.next_command().is_none());
}

#[test]
fn next_command_on_empty_handler() {
    let mut handler = CommandStreamHandler::new();
    assert!(handler.next_command().is_none());
    // room is back after frames are taken
    let chunk = [0xFFu8; 1024];
    assert_eq!(1024, handler.write(&chunk));
    assert!(handler.next_command().is_none());
    assert_eq!(11, handler.write(&[0x01, 0x03, 0x6d, 0x63, 0x63, 0x6c, 0x69, 0, 0, 0, 0]));
    assert!(matches!(handler.next_command(), Some(CommandPacket::AppStart { .. })));
}
