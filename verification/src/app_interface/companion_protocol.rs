//! The companion protocol spoken between an app and a companion node.
use vstd::prelude::*;

verus! {

/// Bytes in an `AppStart` frame: type, magic and a 9-byte label.
pub const APP_START_LEN: usize = 11;
/// Bytes in the shortest `SendChannelMessage` frame: type, magic, channel
/// index, a 4-byte timestamp and at least one message byte.
pub const SEND_CHANNEL_MESSAGE_MIN_LEN: usize = 8;
/// Offset of the message text in a `SendChannelMessage` frame.
pub const SEND_CHANNEL_MESSAGE_TEXT_OFFSET: usize = 7;

/// A command frame sent by an app, borrowed from the buffer it was read from.
#[derive(Debug, PartialEq)]
pub enum CommandPacket<'buffer> {
    AppStart {
        /// 0x03 per design
        magic: &'buffer u8,
        /// b"mccli" padded with b'\0' per design
        label: &'buffer [u8; 9],
    },
    SendChannelMessage {
        /// 0x00 per design
        magic: &'buffer u8,
        channel_index: &'buffer u8,
        /// seconds since the Unix epoch, sent little-endian
        timestamp: i32,
        /// utf-8 of variable length: the rest of the frame
        message: &'buffer [u8],
    },
}

/// The contents of a command frame.
pub enum CommandPacketView {
    AppStart { magic: u8, label: Seq<u8> },
    SendChannelMessage { magic: u8, channel_index: u8, timestamp: int, message: Seq<u8> },
}

impl<'buffer> View for CommandPacket<'buffer> {
    type V = CommandPacketView;

    open spec fn view(&self) -> CommandPacketView {
        match *self {
            CommandPacket::AppStart { magic, label } => CommandPacketView::AppStart {
                magic: *magic,
                label: label@,
            },
            CommandPacket::SendChannelMessage { magic, channel_index, timestamp, message } =>
                CommandPacketView::SendChannelMessage {
                magic: *magic,
                channel_index: *channel_index,
                timestamp: timestamp as int,
                message: message@,
            },
        }
    }
}

/// Why a buffer does not start with a usable command frame.
#[derive(Debug, PartialEq, Eq, Structural, Clone, Copy)]
pub enum CommandPacketError {
    EmptyBuffer,
    /// first byte used to determine packet type, if no match, this error is returned
    InvalidFirstByte,
    /// buffer doesn't contain enough for the found packet type
    IncompleteBuffer,
    /// no implementation for the packet
    NotImplemented,
}

/// The signed 32-bit integer that four bytes hold, least significant first.
pub open spec fn spec_i32_from_le(b: Seq<u8>) -> int {
    let u = b[0] + 256 * b[1] + 65536 * b[2] + 16777216 * b[3];
    if u < 0x8000_0000 {
        u
    } else {
        u - 0x1_0000_0000
    }
}

/// What a buffer starts with: a command frame and the bytes it takes, or an
/// error and the bytes a reader should drop before trying again.
pub open spec fn spec_parse_command(bytes: Seq<u8>) -> Result<
    (CommandPacketView, int),
    (CommandPacketError, int),
> {
    if bytes.len() == 0 {
        Err((CommandPacketError::EmptyBuffer, 0))
    } else {
        match CommandPacketType::spec_from_byte(bytes[0]) {
            None => Err((CommandPacketError::InvalidFirstByte, 1)),
            Some(CommandPacketType::AppStart) => {
                if bytes.len() < APP_START_LEN {
                    Err((CommandPacketError::IncompleteBuffer, 0))
                } else {
                    Ok(
                        (
                            CommandPacketView::AppStart {
                                magic: bytes[1],
                                label: bytes.subrange(2, APP_START_LEN as int),
                            },
                            APP_START_LEN as int,
                        ),
                    )
                }
            },
            Some(CommandPacketType::SendChannelMessage) => {
                if bytes.len() < SEND_CHANNEL_MESSAGE_MIN_LEN {
                    Err((CommandPacketError::IncompleteBuffer, 0))
                } else {
                    Ok(
                        (
                            CommandPacketView::SendChannelMessage {
                                magic: bytes[1],
                                channel_index: bytes[2],
                                timestamp: spec_i32_from_le(bytes.subrange(3, 7)),
                                message: bytes.subrange(
                                    SEND_CHANNEL_MESSAGE_TEXT_OFFSET as int,
                                    bytes.len() as int,
                                ),
                            },
                            bytes.len() as int,
                        ),
                    )
                }
            },
            Some(_) => Err((CommandPacketError::NotImplemented, 1)),
        }
    }
}

/// Parsing never claims more bytes than the buffer holds: a frame takes at
/// least one byte, a `SendChannelMessage` takes all of them, and an error asks
/// to drop bytes exactly when the first byte cannot start a usable frame.
pub proof fn lemma_parse_consumption(bytes: Seq<u8>)
    ensures
        match spec_parse_command(bytes) {
            Ok((p, n)) => {
                &&& 1 <= n <= bytes.len()
                &&& p is SendChannelMessage ==> n == bytes.len()
            },
            Err((e, n)) => {
                &&& 0 <= n <= bytes.len()
                &&& (n == 0 <==> (e == CommandPacketError::EmptyBuffer || e
                    == CommandPacketError::IncompleteBuffer))
            },
        },
{
}

/// A buffer of at least 11 bytes that starts with the `AppStart` byte 1 is
/// an `AppStart` frame of 11 bytes: its magic is byte 1 and its label bytes
/// 2 to 11.
pub proof fn lemma_app_start_fields(bytes: Seq<u8>)
    requires
        bytes.len() >= 11,
        bytes[0] == 1,
    ensures
        spec_parse_command(bytes) == Ok::<(CommandPacketView, int), (CommandPacketError, int)>(
            (CommandPacketView::AppStart { magic: bytes[1], label: bytes.subrange(2, 11) }, 11),
        ),
{
    CommandPacketType::lemma_byte_roundtrip(CommandPacketType::AppStart, 1);
}

/// An `AppStart` frame is read from its first `APP_START_LEN` bytes alone:
/// whatever follows them does not change what is read.
pub proof fn lemma_app_start_prefix(bytes: Seq<u8>, rest: Seq<u8>)
    requires
        spec_parse_command(bytes) matches Ok((p, _)) && p is AppStart,
    ensures
        spec_parse_command(bytes.take(APP_START_LEN as int) + rest) == spec_parse_command(bytes),
{
    let ext = bytes.take(APP_START_LEN as int) + rest;
    assert(ext[0] == bytes[0]);
    assert(ext[1] == bytes[1]);
    assert(ext.subrange(2, APP_START_LEN as int) =~= bytes.subrange(2, APP_START_LEN as int));
}

/// The outcome of parsing, with the frame taken by its contents.
pub open spec fn parse_result_view<'buffer>(
    r: Result<(CommandPacket<'buffer>, usize), (CommandPacketError, usize)>,
) -> Result<(CommandPacketView, int), (CommandPacketError, int)> {
    match r {
        Ok((p, n)) => Ok((p@, n as int)),
        Err((e, n)) => Err((e, n as int)),
    }
}

/// `i32::from_le_bytes` on four bytes.
fn i32_from_le_bytes(b0: u8, b1: u8, b2: u8, b3: u8) -> (r: i32)
    ensures
        r as int == spec_i32_from_le(seq![b0, b1, b2, b3]),
{
    let u: u32 = b0 as u32 + (b1 as u32) * 256 + (b2 as u32) * 65536 + (b3 as u32) * 16777216;
    if u < 0x8000_0000 {
        u as i32
    } else {
        let low: i32 = (u - 0x8000_0000) as i32;
        low - 0x4000_0000 - 0x4000_0000
    }
}

/// `<[u8]>::first_chunk`: the first nine bytes of a slice as an array, when
/// the slice holds that many.
#[verifier::external_body]
fn first_label_chunk<'a>(s: &'a [u8]) -> (r: Option<&'a [u8; 9]>)
    ensures
        r is Some <==> s@.len() >= 9,
        r matches Some(a) ==> a@ == s@.take(9),
{
    s.first_chunk::<9>()
}

impl<'buffer> CommandPacket<'buffer> {
    /// Reads the command frame at the start of `bytes`. On success it returns
    /// the frame and the bytes it takes; on failure the error and the bytes a
    /// reader should drop before trying again (0 where it should wait for more).
    pub fn from_bytes(bytes: &'buffer [u8]) -> (r: Result<
        (CommandPacket<'buffer>, usize),
        (CommandPacketError, usize),
    >)
        ensures
            parse_result_view(r) == spec_parse_command(bytes@),
            bytes@.len() == 0 ==> r == Err::<(CommandPacket<'buffer>, usize), _>(
                (CommandPacketError::EmptyBuffer, 0usize),
            ),
            bytes@.len() >= 11 && bytes@[0] == 1 ==> (r matches Ok(
                (CommandPacket::AppStart { magic, label }, n),
            ) && n == 11 && *magic == bytes@[1] && label@ == bytes@.subrange(2, 11)),
            1 <= bytes@.len() < 11 && bytes@[0] == 1 ==> (r matches Err((e, n)) && e
                == CommandPacketError::IncompleteBuffer && n == 0),
            bytes@.len() >= 8 && bytes@[0] == 3 ==> (r matches Ok(
                (CommandPacket::SendChannelMessage { magic, channel_index, timestamp, message }, n),
            ) && n == bytes@.len() && *magic == bytes@[1] && *channel_index == bytes@[2]
                && timestamp as int == bytes@[3] + 256 * bytes@[4] + 65536 * bytes@[5] + 16777216
                * bytes@[6] - (if bytes@[6] >= 128 {
                0x1_0000_0000int
            } else {
                0int
            }) && message@ == bytes@.subrange(7, bytes@.len() as int)),
            1 <= bytes@.len() < 8 && bytes@[0] == 3 ==> (r matches Err((e, n)) && e
                == CommandPacketError::IncompleteBuffer && n == 0),
            bytes@.len() >= 1 && bytes@[0] == 2 ==> (r matches Err((e, n)) && e
                == CommandPacketError::NotImplemented && n == 1),
    {
        proof {
            CommandPacketType::lemma_byte_roundtrip(CommandPacketType::AppStart, 1);
            CommandPacketType::lemma_byte_roundtrip(CommandPacketType::SendChannelTxtMessage, 2);
            CommandPacketType::lemma_byte_roundtrip(CommandPacketType::SendChannelMessage, 3);
        }
        if bytes.len() < 1 {
            return Err((CommandPacketError::EmptyBuffer, 0));
        }
        match CommandPacketType::from_byte(bytes[0]) {
            None => Err((CommandPacketError::InvalidFirstByte, 1)),
            Some(packet_type) => {
                match packet_type {
                    CommandPacketType::AppStart => {
                        if bytes.len() < APP_START_LEN {
                            return Err((CommandPacketError::IncompleteBuffer, 0));
                        }
                        match first_label_chunk(&bytes[2..APP_START_LEN]) {
                            Some(label) => {
                                let packet = CommandPacket::AppStart { magic: &bytes[1], label };
                                assert(label@ =~= bytes@.subrange(2, APP_START_LEN as int));
                                Ok((packet, APP_START_LEN))
                            },
                            None => Err((CommandPacketError::IncompleteBuffer, 0)),
                        }
                    },
                    CommandPacketType::SendChannelTxtMessage => {
                        // not comprehended yet: treated like an illegal header
                        Err((CommandPacketError::NotImplemented, 1))
                    },
                    CommandPacketType::SendChannelMessage => {
                        if bytes.len() < SEND_CHANNEL_MESSAGE_MIN_LEN {
                            return Err((CommandPacketError::IncompleteBuffer, 0));
                        }
                        let timestamp = i32_from_le_bytes(bytes[3], bytes[4], bytes[5], bytes[6]);
                        assert(seq![bytes@[3], bytes@[4], bytes@[5], bytes@[6]] =~= bytes@.subrange(3, 7));
                        // there is no message size field: the message is the rest of the buffer
                        let message = &bytes[SEND_CHANNEL_MESSAGE_TEXT_OFFSET..bytes.len()];
                        let packet = CommandPacket::SendChannelMessage {
                            magic: &bytes[1],
                            channel_index: &bytes[2],
                            timestamp,
                            message,
                        };
                        Ok((packet, bytes.len()))
                    },
                    _ => Err((CommandPacketError::NotImplemented, 1)),
                }
            },
        }
    }
}


/// The command that the first byte of a command frame names.
#[derive(Debug, PartialEq, Eq, Structural, Clone, Copy)]
pub enum CommandPacketType {
    AppStart,
    SendChannelTxtMessage,
    SendChannelMessage,
    GetContacts,
    GetDeviceTime,
    SetDeviceTime,
    SendSelfAdvert,
    SetAdvertName,
    AddUpdateContact,
    SyncNextMessage,
    SetRadioParams,
    SetRadioTxPower,
    RestPath,
    SetAdvertLatLon,
    RemoveContact,
    ShareContact,
    ExportContact,
    ImportContact,
    Reboot,
    GetBattaryAndStorage,
    SetTuningParameters,
    DeviceQuery,
    ExportPrivateKey,
    ImportPrivateKey,
    SendRawData,
    SendLogin,
    SendStatusReq,
    HasConnection,
    Logout,
    GetContactByKey,
    GetChannel,
    SetChannel,
    SignStart,
    SignData,
    SignFinish,
    GetCustomVars,
    SetCustomVar,
    SendBinaryReq,
}

impl CommandPacketType {
    /// The byte that stands for this command type on the wire.
    pub open spec fn spec_value(self) -> u8 {
        match self {
            CommandPacketType::AppStart => 1,
            CommandPacketType::SendChannelTxtMessage => 2,
            CommandPacketType::SendChannelMessage => 3,
            CommandPacketType::GetContacts => 4,
            CommandPacketType::GetDeviceTime => 5,
            CommandPacketType::SetDeviceTime => 6,
            CommandPacketType::SendSelfAdvert => 7,
            CommandPacketType::SetAdvertName => 8,
            CommandPacketType::AddUpdateContact => 9,
            CommandPacketType::SyncNextMessage => 10,
            CommandPacketType::SetRadioParams => 11,
            CommandPacketType::SetRadioTxPower => 12,
            CommandPacketType::RestPath => 13,
            CommandPacketType::SetAdvertLatLon => 14,
            CommandPacketType::RemoveContact => 15,
            CommandPacketType::ShareContact => 16,
            CommandPacketType::ExportContact => 17,
            CommandPacketType::ImportContact => 18,
            CommandPacketType::Reboot => 19,
            CommandPacketType::GetBattaryAndStorage => 20,
            CommandPacketType::SetTuningParameters => 21,
            CommandPacketType::DeviceQuery => 22,
            CommandPacketType::ExportPrivateKey => 23,
            CommandPacketType::ImportPrivateKey => 24,
            CommandPacketType::SendRawData => 25,
            CommandPacketType::SendLogin => 26,
            CommandPacketType::SendStatusReq => 27,
            CommandPacketType::HasConnection => 28,
            CommandPacketType::Logout => 29,
            CommandPacketType::GetContactByKey => 30,
            CommandPacketType::GetChannel => 31,
            CommandPacketType::SetChannel => 32,
            CommandPacketType::SignStart => 33,
            CommandPacketType::SignData => 34,
            CommandPacketType::SignFinish => 35,
            CommandPacketType::GetCustomVars => 40,
            CommandPacketType::SetCustomVar => 41,
            CommandPacketType::SendBinaryReq => 50,
        }
    }

    /// The command type whose wire byte is `b`, if any.
    pub open spec fn spec_from_byte(b: u8) -> Option<CommandPacketType> {
        if exists|t: CommandPacketType| #[trigger] t.spec_value() == b {
            Some(choose|t: CommandPacketType| #[trigger] t.spec_value() == b)
        } else {
            None
        }
    }

    /// The wire byte of this command type.
    pub fn to_byte(&self) -> (r: u8)
        ensures
            r == self.spec_value(),
    {
        match self {
            CommandPacketType::AppStart => 1,
            CommandPacketType::SendChannelTxtMessage => 2,
            CommandPacketType::SendChannelMessage => 3,
            CommandPacketType::GetContacts => 4,
            CommandPacketType::GetDeviceTime => 5,
            CommandPacketType::SetDeviceTime => 6,
            CommandPacketType::SendSelfAdvert => 7,
            CommandPacketType::SetAdvertName => 8,
            CommandPacketType::AddUpdateContact => 9,
            CommandPacketType::SyncNextMessage => 10,
            CommandPacketType::SetRadioParams => 11,
            CommandPacketType::SetRadioTxPower => 12,
            CommandPacketType::RestPath => 13,
            CommandPacketType::SetAdvertLatLon => 14,
            CommandPacketType::RemoveContact => 15,
            CommandPacketType::ShareContact => 16,
            CommandPacketType::ExportContact => 17,
            CommandPacketType::ImportContact => 18,
            CommandPacketType::Reboot => 19,
            CommandPacketType::GetBattaryAndStorage => 20,
            CommandPacketType::SetTuningParameters => 21,
            CommandPacketType::DeviceQuery => 22,
            CommandPacketType::ExportPrivateKey => 23,
            CommandPacketType::ImportPrivateKey => 24,
            CommandPacketType::SendRawData => 25,
            CommandPacketType::SendLogin => 26,
            CommandPacketType::SendStatusReq => 27,
            CommandPacketType::HasConnection => 28,
            CommandPacketType::Logout => 29,
            CommandPacketType::GetContactByKey => 30,
            CommandPacketType::GetChannel => 31,
            CommandPacketType::SetChannel => 32,
            CommandPacketType::SignStart => 33,
            CommandPacketType::SignData => 34,
            CommandPacketType::SignFinish => 35,
            CommandPacketType::GetCustomVars => 40,
            CommandPacketType::SetCustomVar => 41,
            CommandPacketType::SendBinaryReq => 50,
        }
    }

    /// Decodes a wire byte; `None` when no command type has that byte.
    pub fn from_byte(b: u8) -> (r: Option<Self>)
        ensures
            r == Self::spec_from_byte(b),
    {
        let r = match b {
            1 => Some(CommandPacketType::AppStart),
            2 => Some(CommandPacketType::SendChannelTxtMessage),
            3 => Some(CommandPacketType::SendChannelMessage),
            4 => Some(CommandPacketType::GetContacts),
            5 => Some(CommandPacketType::GetDeviceTime),
            6 => Some(CommandPacketType::SetDeviceTime),
            7 => Some(CommandPacketType::SendSelfAdvert),
            8 => Some(CommandPacketType::SetAdvertName),
            9 => Some(CommandPacketType::AddUpdateContact),
            10 => Some(CommandPacketType::SyncNextMessage),
            11 => Some(CommandPacketType::SetRadioParams),
            12 => Some(CommandPacketType::SetRadioTxPower),
            13 => Some(CommandPacketType::RestPath),
            14 => Some(CommandPacketType::SetAdvertLatLon),
            15 => Some(CommandPacketType::RemoveContact),
            16 => Some(CommandPacketType::ShareContact),
            17 => Some(CommandPacketType::ExportContact),
            18 => Some(CommandPacketType::ImportContact),
            19 => Some(CommandPacketType::Reboot),
            20 => Some(CommandPacketType::GetBattaryAndStorage),
            21 => Some(CommandPacketType::SetTuningParameters),
            22 => Some(CommandPacketType::DeviceQuery),
            23 => Some(CommandPacketType::ExportPrivateKey),
            24 => Some(CommandPacketType::ImportPrivateKey),
            25 => Some(CommandPacketType::SendRawData),
            26 => Some(CommandPacketType::SendLogin),
            27 => Some(CommandPacketType::SendStatusReq),
            28 => Some(CommandPacketType::HasConnection),
            29 => Some(CommandPacketType::Logout),
            30 => Some(CommandPacketType::GetContactByKey),
            31 => Some(CommandPacketType::GetChannel),
            32 => Some(CommandPacketType::SetChannel),
            33 => Some(CommandPacketType::SignStart),
            34 => Some(CommandPacketType::SignData),
            35 => Some(CommandPacketType::SignFinish),
            40 => Some(CommandPacketType::GetCustomVars),
            41 => Some(CommandPacketType::SetCustomVar),
            50 => Some(CommandPacketType::SendBinaryReq),
            _ => None,
        };
        proof {
            match r {
                Some(t) => {
                    let c = choose|x: CommandPacketType| #[trigger] x.spec_value() == b;
                    CommandPacketType::lemma_value_injective(c, t);
                },
                None => {
                    assert forall|x: CommandPacketType| #[trigger] x.spec_value() != b by {}
                },
            }
        }
        r
    }

    /// Distinct command types have distinct wire bytes.
    pub proof fn lemma_value_injective(a: Self, b: Self)
        ensures
            a.spec_value() == b.spec_value() <==> a == b,
    {
    }

    /// Decoding the wire byte of a command type gives it back, and a byte that
    /// decodes to a command type is that command type's wire byte.
    pub proof fn lemma_byte_roundtrip(t: Self, b: u8)
        ensures
            Self::spec_from_byte(t.spec_value()) == Some(t),
            Self::spec_from_byte(b) matches Some(u) ==> u.spec_value() == b,
    {
        let c = choose|x: CommandPacketType| #[trigger] x.spec_value() == t.spec_value();
        Self::lemma_value_injective(c, t);
    }
}

/// The response or push notification that the first byte of a frame names.
#[derive(Debug, PartialEq, Eq, Structural, Clone, Copy)]
pub enum ResponsePacketType {
    RespOk,
    Error,
    ContactStart,
    Contact,
    ContactEnd,
    SelfInfo,
    MsgSent,
    ContactMsgRecv,
    ChannelMsgRecv,
    CurrentTime,
    NoMoreMsgs,
    ContactUri,
    Battery,
    DeviceInfo,
    PrivateKey,
    Disabled,
    ContactMsgRecvV3,
    ChannelMsgRecvV3,
    ChannelInfo,
    SignStart,
    Signature,
    CustomVars,
    Stats,
    AutoaddConfig,
    BinaryReq,
    FactoryReset,
    PathDiscovery,
    SetFloodScope,
    SendControlData,
    Advertisement,
    PathUpdate,
    Ack,
    MessagesWaiting,
    RawData,
    LoginSuccess,
    LoginFailed,
    StatusResponse,
    LogData,
    TraceData,
    PushCodeNewAdvert,
    TelemetryResponse,
    BinaryResponse,
    PathDiscoveryResponse,
    ControlData,
    AdvertResponse,
}

impl ResponsePacketType {
    /// The byte that stands for this response type on the wire.
    pub open spec fn spec_value(self) -> u8 {
        match self {
            ResponsePacketType::RespOk => 0,
            ResponsePacketType::Error => 1,
            ResponsePacketType::ContactStart => 2,
            ResponsePacketType::Contact => 3,
            ResponsePacketType::ContactEnd => 4,
            ResponsePacketType::SelfInfo => 5,
            ResponsePacketType::MsgSent => 6,
            ResponsePacketType::ContactMsgRecv => 7,
            ResponsePacketType::ChannelMsgRecv => 8,
            ResponsePacketType::CurrentTime => 9,
            ResponsePacketType::NoMoreMsgs => 10,
            ResponsePacketType::ContactUri => 11,
            ResponsePacketType::Battery => 12,
            ResponsePacketType::DeviceInfo => 13,
            ResponsePacketType::PrivateKey => 14,
            ResponsePacketType::Disabled => 15,
            ResponsePacketType::ContactMsgRecvV3 => 16,
            ResponsePacketType::ChannelMsgRecvV3 => 17,
            ResponsePacketType::ChannelInfo => 18,
            ResponsePacketType::SignStart => 19,
            ResponsePacketType::Signature => 20,
            ResponsePacketType::CustomVars => 21,
            ResponsePacketType::Stats => 24,
            ResponsePacketType::AutoaddConfig => 25,
            ResponsePacketType::BinaryReq => 50,
            ResponsePacketType::FactoryReset => 51,
            ResponsePacketType::PathDiscovery => 52,
            ResponsePacketType::SetFloodScope => 54,
            ResponsePacketType::SendControlData => 55,
            ResponsePacketType::Advertisement => 0x80,
            ResponsePacketType::PathUpdate => 0x81,
            ResponsePacketType::Ack => 0x82,
            ResponsePacketType::MessagesWaiting => 0x83,
            ResponsePacketType::RawData => 0x84,
            ResponsePacketType::LoginSuccess => 0x85,
            ResponsePacketType::LoginFailed => 0x86,
            ResponsePacketType::StatusResponse => 0x87,
            ResponsePacketType::LogData => 0x88,
            ResponsePacketType::TraceData => 0x89,
            ResponsePacketType::PushCodeNewAdvert => 0x8A,
            ResponsePacketType::TelemetryResponse => 0x8B,
            ResponsePacketType::BinaryResponse => 0x8C,
            ResponsePacketType::PathDiscoveryResponse => 0x8D,
            ResponsePacketType::ControlData => 0x8E,
            ResponsePacketType::AdvertResponse => 0x8F,
        }
    }

    /// The response type whose wire byte is `b`, if any.
    pub open spec fn spec_from_byte(b: u8) -> Option<ResponsePacketType> {
        if exists|t: ResponsePacketType| #[trigger] t.spec_value() == b {
            Some(choose|t: ResponsePacketType| #[trigger] t.spec_value() == b)
        } else {
            None
        }
    }

    /// The wire byte of this response type.
    pub fn to_byte(&self) -> (r: u8)
        ensures
            r == self.spec_value(),
    {
        match self {
            ResponsePacketType::RespOk => 0,
            ResponsePacketType::Error => 1,
            ResponsePacketType::ContactStart => 2,
            ResponsePacketType::Contact => 3,
            ResponsePacketType::ContactEnd => 4,
            ResponsePacketType::SelfInfo => 5,
            ResponsePacketType::MsgSent => 6,
            ResponsePacketType::ContactMsgRecv => 7,
            ResponsePacketType::ChannelMsgRecv => 8,
            ResponsePacketType::CurrentTime => 9,
            ResponsePacketType::NoMoreMsgs => 10,
            ResponsePacketType::ContactUri => 11,
            ResponsePacketType::Battery => 12,
            ResponsePacketType::DeviceInfo => 13,
            ResponsePacketType::PrivateKey => 14,
            ResponsePacketType::Disabled => 15,
            ResponsePacketType::ContactMsgRecvV3 => 16,
            ResponsePacketType::ChannelMsgRecvV3 => 17,
            ResponsePacketType::ChannelInfo => 18,
            ResponsePacketType::SignStart => 19,
            ResponsePacketType::Signature => 20,
            ResponsePacketType::CustomVars => 21,
            ResponsePacketType::Stats => 24,
            ResponsePacketType::AutoaddConfig => 25,
            ResponsePacketType::BinaryReq => 50,
            ResponsePacketType::FactoryReset => 51,
            ResponsePacketType::PathDiscovery => 52,
            ResponsePacketType::SetFloodScope => 54,
            ResponsePacketType::SendControlData => 55,
            ResponsePacketType::Advertisement => 0x80,
            ResponsePacketType::PathUpdate => 0x81,
            ResponsePacketType::Ack => 0x82,
            ResponsePacketType::MessagesWaiting => 0x83,
            ResponsePacketType::RawData => 0x84,
            ResponsePacketType::LoginSuccess => 0x85,
            ResponsePacketType::LoginFailed => 0x86,
            ResponsePacketType::StatusResponse => 0x87,
            ResponsePacketType::LogData => 0x88,
            ResponsePacketType::TraceData => 0x89,
            ResponsePacketType::PushCodeNewAdvert => 0x8A,
            ResponsePacketType::TelemetryResponse => 0x8B,
            ResponsePacketType::BinaryResponse => 0x8C,
            ResponsePacketType::PathDiscoveryResponse => 0x8D,
            ResponsePacketType::ControlData => 0x8E,
            ResponsePacketType::AdvertResponse => 0x8F,
        }
    }

    /// Decodes a wire byte; `None` when no response type has that byte.
    pub fn from_byte(b: u8) -> (r: Option<Self>)
        ensures
            r == Self::spec_from_byte(b),
    {
        let r = match b {
            0 => Some(ResponsePacketType::RespOk),
            1 => Some(ResponsePacketType::Error),
            2 => Some(ResponsePacketType::ContactStart),
            3 => Some(ResponsePacketType::Contact),
            4 => Some(ResponsePacketType::ContactEnd),
            5 => Some(ResponsePacketType::SelfInfo),
            6 => Some(ResponsePacketType::MsgSent),
            7 => Some(ResponsePacketType::ContactMsgRecv),
            8 => Some(ResponsePacketType::ChannelMsgRecv),
            9 => Some(ResponsePacketType::CurrentTime),
            10 => Some(ResponsePacketType::NoMoreMsgs),
            11 => Some(ResponsePacketType::ContactUri),
            12 => Some(ResponsePacketType::Battery),
            13 => Some(ResponsePacketType::DeviceInfo),
            14 => Some(ResponsePacketType::PrivateKey),
            15 => Some(ResponsePacketType::Disabled),
            16 => Some(ResponsePacketType::ContactMsgRecvV3),
            17 => Some(ResponsePacketType::ChannelMsgRecvV3),
            18 => Some(ResponsePacketType::ChannelInfo),
            19 => Some(ResponsePacketType::SignStart),
            20 => Some(ResponsePacketType::Signature),
            21 => Some(ResponsePacketType::CustomVars),
            24 => Some(ResponsePacketType::Stats),
            25 => Some(ResponsePacketType::AutoaddConfig),
            50 => Some(ResponsePacketType::BinaryReq),
            51 => Some(ResponsePacketType::FactoryReset),
            52 => Some(ResponsePacketType::PathDiscovery),
            54 => Some(ResponsePacketType::SetFloodScope),
            55 => Some(ResponsePacketType::SendControlData),
            0x80 => Some(ResponsePacketType::Advertisement),
            0x81 => Some(ResponsePacketType::PathUpdate),
            0x82 => Some(ResponsePacketType::Ack),
            0x83 => Some(ResponsePacketType::MessagesWaiting),
            0x84 => Some(ResponsePacketType::RawData),
            0x85 => Some(ResponsePacketType::LoginSuccess),
            0x86 => Some(ResponsePacketType::LoginFailed),
            0x87 => Some(ResponsePacketType::StatusResponse),
            0x88 => Some(ResponsePacketType::LogData),
            0x89 => Some(ResponsePacketType::TraceData),
            0x8A => Some(ResponsePacketType::PushCodeNewAdvert),
            0x8B => Some(ResponsePacketType::TelemetryResponse),
            0x8C => Some(ResponsePacketType::BinaryResponse),
            0x8D => Some(ResponsePacketType::PathDiscoveryResponse),
            0x8E => Some(ResponsePacketType::ControlData),
            0x8F => Some(ResponsePacketType::AdvertResponse),
            _ => None,
        };
        proof {
            match r {
                Some(t) => {
                    let c = choose|x: ResponsePacketType| #[trigger] x.spec_value() == b;
                    ResponsePacketType::lemma_value_injective(c, t);
                },
                None => {
                    assert forall|x: ResponsePacketType| #[trigger] x.spec_value() != b by {}
                },
            }
        }
        r
    }

    /// Distinct response types have distinct wire bytes.
    pub proof fn lemma_value_injective(a: Self, b: Self)
        ensures
            a.spec_value() == b.spec_value() <==> a == b,
    {
    }

    /// Decoding the wire byte of a response type gives it back, and a byte that
    /// decodes to a response type is that response type's wire byte.
    pub proof fn lemma_byte_roundtrip(t: Self, b: u8)
        ensures
            Self::spec_from_byte(t.spec_value()) == Some(t),
            Self::spec_from_byte(b) matches Some(u) ==> u.spec_value() == b,
    {
        let c = choose|x: ResponsePacketType| #[trigger] x.spec_value() == t.spec_value();
        Self::lemma_value_injective(c, t);
    }
}

/// The command type bytes of the companion protocol: each command type
/// is sent as the byte the protocol assigns it, and that byte decodes to it.
pub proof fn lemma_command_type_wire_bytes()
    ensures
        CommandPacketType::AppStart.spec_value() == 1u8 && CommandPacketType::spec_from_byte(1u8) == Some(CommandPacketType::AppStart),
        CommandPacketType::SendChannelTxtMessage.spec_value() == 2u8 && CommandPacketType::spec_from_byte(2u8) == Some(CommandPacketType::SendChannelTxtMessage),
        CommandPacketType::SendChannelMessage.spec_value() == 3u8 && CommandPacketType::spec_from_byte(3u8) == Some(CommandPacketType::SendChannelMessage),
        CommandPacketType::GetContacts.spec_value() == 4u8 && CommandPacketType::spec_from_byte(4u8) == Some(CommandPacketType::GetContacts),
        CommandPacketType::GetDeviceTime.spec_value() == 5u8 && CommandPacketType::spec_from_byte(5u8) == Some(CommandPacketType::GetDeviceTime),
        CommandPacketType::SetDeviceTime.spec_value() == 6u8 && CommandPacketType::spec_from_byte(6u8) == Some(CommandPacketType::SetDeviceTime),
        CommandPacketType::SendSelfAdvert.spec_value() == 7u8 && CommandPacketType::spec_from_byte(7u8) == Some(CommandPacketType::SendSelfAdvert),
        CommandPacketType::SetAdvertName.spec_value() == 8u8 && CommandPacketType::spec_from_byte(8u8) == Some(CommandPacketType::SetAdvertName),
        CommandPacketType::AddUpdateContact.spec_value() == 9u8 && CommandPacketType::spec_from_byte(9u8) == Some(CommandPacketType::AddUpdateContact),
        CommandPacketType::SyncNextMessage.spec_value() == 10u8 && CommandPacketType::spec_from_byte(10u8) == Some(CommandPacketType::SyncNextMessage),
        CommandPacketType::SetRadioParams.spec_value() == 11u8 && CommandPacketType::spec_from_byte(11u8) == Some(CommandPacketType::SetRadioParams),
        CommandPacketType::SetRadioTxPower.spec_value() == 12u8 && CommandPacketType::spec_from_byte(12u8) == Some(CommandPacketType::SetRadioTxPower),
        CommandPacketType::RestPath.spec_value() == 13u8 && CommandPacketType::spec_from_byte(13u8) == Some(CommandPacketType::RestPath),
        CommandPacketType::SetAdvertLatLon.spec_value() == 14u8 && CommandPacketType::spec_from_byte(14u8) == Some(CommandPacketType::SetAdvertLatLon),
        CommandPacketType::RemoveContact.spec_value() == 15u8 && CommandPacketType::spec_from_byte(15u8) == Some(CommandPacketType::RemoveContact),
        CommandPacketType::ShareContact.spec_value() == 16u8 && CommandPacketType::spec_from_byte(16u8) == Some(CommandPacketType::ShareContact),
        CommandPacketType::ExportContact.spec_value() == 17u8 && CommandPacketType::spec_from_byte(17u8) == Some(CommandPacketType::ExportContact),
        CommandPacketType::ImportContact.spec_value() == 18u8 && CommandPacketType::spec_from_byte(18u8) == Some(CommandPacketType::ImportContact),
        CommandPacketType::Reboot.spec_value() == 19u8 && CommandPacketType::spec_from_byte(19u8) == Some(CommandPacketType::Reboot),
        CommandPacketType::GetBattaryAndStorage.spec_value() == 20u8 && CommandPacketType::spec_from_byte(20u8) == Some(CommandPacketType::GetBattaryAndStorage),
        CommandPacketType::SetTuningParameters.spec_value() == 21u8 && CommandPacketType::spec_from_byte(21u8) == Some(CommandPacketType::SetTuningParameters),
        CommandPacketType::DeviceQuery.spec_value() == 22u8 && CommandPacketType::spec_from_byte(22u8) == Some(CommandPacketType::DeviceQuery),
        CommandPacketType::ExportPrivateKey.spec_value() == 23u8 && CommandPacketType::spec_from_byte(23u8) == Some(CommandPacketType::ExportPrivateKey),
        CommandPacketType::ImportPrivateKey.spec_value() == 24u8 && CommandPacketType::spec_from_byte(24u8) == Some(CommandPacketType::ImportPrivateKey),
        CommandPacketType::SendRawData.spec_value() == 25u8 && CommandPacketType::spec_from_byte(25u8) == Some(CommandPacketType::SendRawData),
        CommandPacketType::SendLogin.spec_value() == 26u8 && CommandPacketType::spec_from_byte(26u8) == Some(CommandPacketType::SendLogin),
        CommandPacketType::SendStatusReq.spec_value() == 27u8 && CommandPacketType::spec_from_byte(27u8) == Some(CommandPacketType::SendStatusReq),
        CommandPacketType::HasConnection.spec_value() == 28u8 && CommandPacketType::spec_from_byte(28u8) == Some(CommandPacketType::HasConnection),
        CommandPacketType::Logout.spec_value() == 29u8 && CommandPacketType::spec_from_byte(29u8) == Some(CommandPacketType::Logout),
        CommandPacketType::GetContactByKey.spec_value() == 30u8 && CommandPacketType::spec_from_byte(30u8) == Some(CommandPacketType::GetContactByKey),
        CommandPacketType::GetChannel.spec_value() == 31u8 && CommandPacketType::spec_from_byte(31u8) == Some(CommandPacketType::GetChannel),
        CommandPacketType::SetChannel.spec_value() == 32u8 && CommandPacketType::spec_from_byte(32u8) == Some(CommandPacketType::SetChannel),
        CommandPacketType::SignStart.spec_value() == 33u8 && CommandPacketType::spec_from_byte(33u8) == Some(CommandPacketType::SignStart),
        CommandPacketType::SignData.spec_value() == 34u8 && CommandPacketType::spec_from_byte(34u8) == Some(CommandPacketType::SignData),
        CommandPacketType::SignFinish.spec_value() == 35u8 && CommandPacketType::spec_from_byte(35u8) == Some(CommandPacketType::SignFinish),
        CommandPacketType::GetCustomVars.spec_value() == 40u8 && CommandPacketType::spec_from_byte(40u8) == Some(CommandPacketType::GetCustomVars),
        CommandPacketType::SetCustomVar.spec_value() == 41u8 && CommandPacketType::spec_from_byte(41u8) == Some(CommandPacketType::SetCustomVar),
        CommandPacketType::SendBinaryReq.spec_value() == 50u8 && CommandPacketType::spec_from_byte(50u8) == Some(CommandPacketType::SendBinaryReq),
{
    CommandPacketType::lemma_byte_roundtrip(CommandPacketType::AppStart, 1u8);
    CommandPacketType::lemma_byte_roundtrip(CommandPacketType::SendChannelTxtMessage, 2u8);
    CommandPacketType::lemma_byte_roundtrip(CommandPacketType::SendChannelMessage, 3u8);
    CommandPacketType::lemma_byte_roundtrip(CommandPacketType::GetContacts, 4u8);
    CommandPacketType::lemma_byte_roundtrip(CommandPacketType::GetDeviceTime, 5u8);
    CommandPacketType::lemma_byte_roundtrip(CommandPacketType::SetDeviceTime, 6u8);
    CommandPacketType::lemma_byte_roundtrip(CommandPacketType::SendSelfAdvert, 7u8);
    CommandPacketType::lemma_byte_roundtrip(CommandPacketType::SetAdvertName, 8u8);
    CommandPacketType::lemma_byte_roundtrip(CommandPacketType::AddUpdateContact, 9u8);
    CommandPacketType::lemma_byte_roundtrip(CommandPacketType::SyncNextMessage, 10u8);
    CommandPacketType::lemma_byte_roundtrip(CommandPacketType::SetRadioParams, 11u8);
    CommandPacketType::lemma_byte_roundtrip(CommandPacketType::SetRadioTxPower, 12u8);
    CommandPacketType::lemma_byte_roundtrip(CommandPacketType::RestPath, 13u8);
    CommandPacketType::lemma_byte_roundtrip(CommandPacketType::SetAdvertLatLon, 14u8);
    CommandPacketType::lemma_byte_roundtrip(CommandPacketType::RemoveContact, 15u8);
    CommandPacketType::lemma_byte_roundtrip(CommandPacketType::ShareContact, 16u8);
    CommandPacketType::lemma_byte_roundtrip(CommandPacketType::ExportContact, 17u8);
    CommandPacketType::lemma_byte_roundtrip(CommandPacketType::ImportContact, 18u8);
    CommandPacketType::lemma_byte_roundtrip(CommandPacketType::Reboot, 19u8);
    CommandPacketType::lemma_byte_roundtrip(CommandPacketType::GetBattaryAndStorage, 20u8);
    CommandPacketType::lemma_byte_roundtrip(CommandPacketType::SetTuningParameters, 21u8);
    CommandPacketType::lemma_byte_roundtrip(CommandPacketType::DeviceQuery, 22u8);
    CommandPacketType::lemma_byte_roundtrip(CommandPacketType::ExportPrivateKey, 23u8);
    CommandPacketType::lemma_byte_roundtrip(CommandPacketType::ImportPrivateKey, 24u8);
    CommandPacketType::lemma_byte_roundtrip(CommandPacketType::SendRawData, 25u8);
    CommandPacketType::lemma_byte_roundtrip(CommandPacketType::SendLogin, 26u8);
    CommandPacketType::lemma_byte_roundtrip(CommandPacketType::SendStatusReq, 27u8);
    CommandPacketType::lemma_byte_roundtrip(CommandPacketType::HasConnection, 28u8);
    CommandPacketType::lemma_byte_roundtrip(CommandPacketType::Logout, 29u8);
    CommandPacketType::lemma_byte_roundtrip(CommandPacketType::GetContactByKey, 30u8);
    CommandPacketType::lemma_byte_roundtrip(CommandPacketType::GetChannel, 31u8);
    CommandPacketType::lemma_byte_roundtrip(CommandPacketType::SetChannel, 32u8);
    CommandPacketType::lemma_byte_roundtrip(CommandPacketType::SignStart, 33u8);
    CommandPacketType::lemma_byte_roundtrip(CommandPacketType::SignData, 34u8);
    CommandPacketType::lemma_byte_roundtrip(CommandPacketType::SignFinish, 35u8);
    CommandPacketType::lemma_byte_roundtrip(CommandPacketType::GetCustomVars, 40u8);
    CommandPacketType::lemma_byte_roundtrip(CommandPacketType::SetCustomVar, 41u8);
    CommandPacketType::lemma_byte_roundtrip(CommandPacketType::SendBinaryReq, 50u8);
}

/// The response and push type bytes of the companion protocol: each type
/// is sent as the byte the protocol assigns it, and that byte decodes to it.
pub proof fn lemma_response_type_wire_bytes()
    ensures
        ResponsePacketType::RespOk.spec_value() == 0u8 && ResponsePacketType::spec_from_byte(0u8) == Some(ResponsePacketType::RespOk),
        ResponsePacketType::Error.spec_value() == 1u8 && ResponsePacketType::spec_from_byte(1u8) == Some(ResponsePacketType::Error),
        ResponsePacketType::ContactStart.spec_value() == 2u8 && ResponsePacketType::spec_from_byte(2u8) == Some(ResponsePacketType::ContactStart),
        ResponsePacketType::Contact.spec_value() == 3u8 && ResponsePacketType::spec_from_byte(3u8) == Some(ResponsePacketType::Contact),
        ResponsePacketType::ContactEnd.spec_value() == 4u8 && ResponsePacketType::spec_from_byte(4u8) == Some(ResponsePacketType::ContactEnd),
        ResponsePacketType::SelfInfo.spec_value() == 5u8 && ResponsePacketType::spec_from_byte(5u8) == Some(ResponsePacketType::SelfInfo),
        ResponsePacketType::MsgSent.spec_value() == 6u8 && ResponsePacketType::spec_from_byte(6u8) == Some(ResponsePacketType::MsgSent),
        ResponsePacketType::ContactMsgRecv.spec_value() == 7u8 && ResponsePacketType::spec_from_byte(7u8) == Some(ResponsePacketType::ContactMsgRecv),
        ResponsePacketType::ChannelMsgRecv.spec_value() == 8u8 && ResponsePacketType::spec_from_byte(8u8) == Some(ResponsePacketType::ChannelMsgRecv),
        ResponsePacketType::CurrentTime.spec_value() == 9u8 && ResponsePacketType::spec_from_byte(9u8) == Some(ResponsePacketType::CurrentTime),
        ResponsePacketType::NoMoreMsgs.spec_value() == 10u8 && ResponsePacketType::spec_from_byte(10u8) == Some(ResponsePacketType::NoMoreMsgs),
        ResponsePacketType::ContactUri.spec_value() == 11u8 && ResponsePacketType::spec_from_byte(11u8) == Some(ResponsePacketType::ContactUri),
        ResponsePacketType::Battery.spec_value() == 12u8 && ResponsePacketType::spec_from_byte(12u8) == Some(ResponsePacketType::Battery),
        ResponsePacketType::DeviceInfo.spec_value() == 13u8 && ResponsePacketType::spec_from_byte(13u8) == Some(ResponsePacketType::DeviceInfo),
        ResponsePacketType::PrivateKey.spec_value() == 14u8 && ResponsePacketType::spec_from_byte(14u8) == Some(ResponsePacketType::PrivateKey),
        ResponsePacketType::Disabled.spec_value() == 15u8 && ResponsePacketType::spec_from_byte(15u8) == Some(ResponsePacketType::Disabled),
        ResponsePacketType::ContactMsgRecvV3.spec_value() == 16u8 && ResponsePacketType::spec_from_byte(16u8) == Some(ResponsePacketType::ContactMsgRecvV3),
        ResponsePacketType::ChannelMsgRecvV3.spec_value() == 17u8 && ResponsePacketType::spec_from_byte(17u8) == Some(ResponsePacketType::ChannelMsgRecvV3),
        ResponsePacketType::ChannelInfo.spec_value() == 18u8 && ResponsePacketType::spec_from_byte(18u8) == Some(ResponsePacketType::ChannelInfo),
        ResponsePacketType::SignStart.spec_value() == 19u8 && ResponsePacketType::spec_from_byte(19u8) == Some(ResponsePacketType::SignStart),
        ResponsePacketType::Signature.spec_value() == 20u8 && ResponsePacketType::spec_from_byte(20u8) == Some(ResponsePacketType::Signature),
        ResponsePacketType::CustomVars.spec_value() == 21u8 && ResponsePacketType::spec_from_byte(21u8) == Some(ResponsePacketType::CustomVars),
        ResponsePacketType::Stats.spec_value() == 24u8 && ResponsePacketType::spec_from_byte(24u8) == Some(ResponsePacketType::Stats),
        ResponsePacketType::AutoaddConfig.spec_value() == 25u8 && ResponsePacketType::spec_from_byte(25u8) == Some(ResponsePacketType::AutoaddConfig),
        ResponsePacketType::BinaryReq.spec_value() == 50u8 && ResponsePacketType::spec_from_byte(50u8) == Some(ResponsePacketType::BinaryReq),
        ResponsePacketType::FactoryReset.spec_value() == 51u8 && ResponsePacketType::spec_from_byte(51u8) == Some(ResponsePacketType::FactoryReset),
        ResponsePacketType::PathDiscovery.spec_value() == 52u8 && ResponsePacketType::spec_from_byte(52u8) == Some(ResponsePacketType::PathDiscovery),
        ResponsePacketType::SetFloodScope.spec_value() == 54u8 && ResponsePacketType::spec_from_byte(54u8) == Some(ResponsePacketType::SetFloodScope),
        ResponsePacketType::SendControlData.spec_value() == 55u8 && ResponsePacketType::spec_from_byte(55u8) == Some(ResponsePacketType::SendControlData),
        ResponsePacketType::Advertisement.spec_value() == 0x80u8 && ResponsePacketType::spec_from_byte(0x80u8) == Some(ResponsePacketType::Advertisement),
        ResponsePacketType::PathUpdate.spec_value() == 0x81u8 && ResponsePacketType::spec_from_byte(0x81u8) == Some(ResponsePacketType::PathUpdate),
        ResponsePacketType::Ack.spec_value() == 0x82u8 && ResponsePacketType::spec_from_byte(0x82u8) == Some(ResponsePacketType::Ack),
        ResponsePacketType::MessagesWaiting.spec_value() == 0x83u8 && ResponsePacketType::spec_from_byte(0x83u8) == Some(ResponsePacketType::MessagesWaiting),
        ResponsePacketType::RawData.spec_value() == 0x84u8 && ResponsePacketType::spec_from_byte(0x84u8) == Some(ResponsePacketType::RawData),
        ResponsePacketType::LoginSuccess.spec_value() == 0x85u8 && ResponsePacketType::spec_from_byte(0x85u8) == Some(ResponsePacketType::LoginSuccess),
        ResponsePacketType::LoginFailed.spec_value() == 0x86u8 && ResponsePacketType::spec_from_byte(0x86u8) == Some(ResponsePacketType::LoginFailed),
        ResponsePacketType::StatusResponse.spec_value() == 0x87u8 && ResponsePacketType::spec_from_byte(0x87u8) == Some(ResponsePacketType::StatusResponse),
        ResponsePacketType::LogData.spec_value() == 0x88u8 && ResponsePacketType::spec_from_byte(0x88u8) == Some(ResponsePacketType::LogData),
        ResponsePacketType::TraceData.spec_value() == 0x89u8 && ResponsePacketType::spec_from_byte(0x89u8) == Some(ResponsePacketType::TraceData),
        ResponsePacketType::PushCodeNewAdvert.spec_value() == 0x8Au8 && ResponsePacketType::spec_from_byte(0x8Au8) == Some(ResponsePacketType::PushCodeNewAdvert),
        ResponsePacketType::TelemetryResponse.spec_value() == 0x8Bu8 && ResponsePacketType::spec_from_byte(0x8Bu8) == Some(ResponsePacketType::TelemetryResponse),
        ResponsePacketType::BinaryResponse.spec_value() == 0x8Cu8 && ResponsePacketType::spec_from_byte(0x8Cu8) == Some(ResponsePacketType::BinaryResponse),
        ResponsePacketType::PathDiscoveryResponse.spec_value() == 0x8Du8 && ResponsePacketType::spec_from_byte(0x8Du8) == Some(ResponsePacketType::PathDiscoveryResponse),
        ResponsePacketType::ControlData.spec_value() == 0x8Eu8 && ResponsePacketType::spec_from_byte(0x8Eu8) == Some(ResponsePacketType::ControlData),
        ResponsePacketType::AdvertResponse.spec_value() == 0x8Fu8 && ResponsePacketType::spec_from_byte(0x8Fu8) == Some(ResponsePacketType::AdvertResponse),
{
    ResponsePacketType::lemma_byte_roundtrip(ResponsePacketType::RespOk, 0u8);
    ResponsePacketType::lemma_byte_roundtrip(ResponsePacketType::Error, 1u8);
    ResponsePacketType::lemma_byte_roundtrip(ResponsePacketType::ContactStart, 2u8);
    ResponsePacketType::lemma_byte_roundtrip(ResponsePacketType::Contact, 3u8);
    ResponsePacketType::lemma_byte_roundtrip(ResponsePacketType::ContactEnd, 4u8);
    ResponsePacketType::lemma_byte_roundtrip(ResponsePacketType::SelfInfo, 5u8);
    ResponsePacketType::lemma_byte_roundtrip(ResponsePacketType::MsgSent, 6u8);
    ResponsePacketType::lemma_byte_roundtrip(ResponsePacketType::ContactMsgRecv, 7u8);
    ResponsePacketType::lemma_byte_roundtrip(ResponsePacketType::ChannelMsgRecv, 8u8);
    ResponsePacketType::lemma_byte_roundtrip(ResponsePacketType::CurrentTime, 9u8);
    ResponsePacketType::lemma_byte_roundtrip(ResponsePacketType::NoMoreMsgs, 10u8);
    ResponsePacketType::lemma_byte_roundtrip(ResponsePacketType::ContactUri, 11u8);
    ResponsePacketType::lemma_byte_roundtrip(ResponsePacketType::Battery, 12u8);
    ResponsePacketType::lemma_byte_roundtrip(ResponsePacketType::DeviceInfo, 13u8);
    ResponsePacketType::lemma_byte_roundtrip(ResponsePacketType::PrivateKey, 14u8);
    ResponsePacketType::lemma_byte_roundtrip(ResponsePacketType::Disabled, 15u8);
    ResponsePacketType::lemma_byte_roundtrip(ResponsePacketType::ContactMsgRecvV3, 16u8);
    ResponsePacketType::lemma_byte_roundtrip(ResponsePacketType::ChannelMsgRecvV3, 17u8);
    ResponsePacketType::lemma_byte_roundtrip(ResponsePacketType::ChannelInfo, 18u8);
    ResponsePacketType::lemma_byte_roundtrip(ResponsePacketType::SignStart, 19u8);
    ResponsePacketType::lemma_byte_roundtrip(ResponsePacketType::Signature, 20u8);
    ResponsePacketType::lemma_byte_roundtrip(ResponsePacketType::CustomVars, 21u8);
    ResponsePacketType::lemma_byte_roundtrip(ResponsePacketType::Stats, 24u8);
    ResponsePacketType::lemma_byte_roundtrip(ResponsePacketType::AutoaddConfig, 25u8);
    ResponsePacketType::lemma_byte_roundtrip(ResponsePacketType::BinaryReq, 50u8);
    ResponsePacketType::lemma_byte_roundtrip(ResponsePacketType::FactoryReset, 51u8);
    ResponsePacketType::lemma_byte_roundtrip(ResponsePacketType::PathDiscovery, 52u8);
    ResponsePacketType::lemma_byte_roundtrip(ResponsePacketType::SetFloodScope, 54u8);
    ResponsePacketType::lemma_byte_roundtrip(ResponsePacketType::SendControlData, 55u8);
    ResponsePacketType::lemma_byte_roundtrip(ResponsePacketType::Advertisement, 0x80u8);
    ResponsePacketType::lemma_byte_roundtrip(ResponsePacketType::PathUpdate, 0x81u8);
    ResponsePacketType::lemma_byte_roundtrip(ResponsePacketType::Ack, 0x82u8);
    ResponsePacketType::lemma_byte_roundtrip(ResponsePacketType::MessagesWaiting, 0x83u8);
    ResponsePacketType::lemma_byte_roundtrip(ResponsePacketType::RawData, 0x84u8);
    ResponsePacketType::lemma_byte_roundtrip(ResponsePacketType::LoginSuccess, 0x85u8);
    ResponsePacketType::lemma_byte_roundtrip(ResponsePacketType::LoginFailed, 0x86u8);
    ResponsePacketType::lemma_byte_roundtrip(ResponsePacketType::StatusResponse, 0x87u8);
    ResponsePacketType::lemma_byte_roundtrip(ResponsePacketType::LogData, 0x88u8);
    ResponsePacketType::lemma_byte_roundtrip(ResponsePacketType::TraceData, 0x89u8);
    ResponsePacketType::lemma_byte_roundtrip(ResponsePacketType::PushCodeNewAdvert, 0x8Au8);
    ResponsePacketType::lemma_byte_roundtrip(ResponsePacketType::TelemetryResponse, 0x8Bu8);
    ResponsePacketType::lemma_byte_roundtrip(ResponsePacketType::BinaryResponse, 0x8Cu8);
    ResponsePacketType::lemma_byte_roundtrip(ResponsePacketType::PathDiscoveryResponse, 0x8Du8);
    ResponsePacketType::lemma_byte_roundtrip(ResponsePacketType::ControlData, 0x8Eu8);
    ResponsePacketType::lemma_byte_roundtrip(ResponsePacketType::AdvertResponse, 0x8Fu8);
}

} // verus!
