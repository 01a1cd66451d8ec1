//! BLE support: the name a node advertises and its advertising data.
//! https://github.com/meshcore-dev/MeshCore/blob/main/docs/companion_protocol.md#ble-connection
use vstd::prelude::*;
use trouble_host::advertise::AdStructure;
use vstd::utf8::{encode_utf8, is_ascii_chars, is_ascii_chars_encode_utf8};

verus! {

/// Capacity of a node name, in bytes of UTF-8.
pub const NODE_NAME_CAPACITY: usize = 32;

/// A node name: a string of at most `NODE_NAME_CAPACITY` bytes.
#[verifier::external_body]
pub struct NodeName {
    s: heapless::String<NODE_NAME_CAPACITY>,
}

/// The characters of a node name.
pub uninterp spec fn node_name_chars(name: NodeName) -> Seq<char>;

impl View for NodeName {
    type V = Seq<char>;

    open spec fn view(&self) -> Seq<char> {
        node_name_chars(*self)
    }
}

impl NodeName {
    /// `heapless::String::try_from(&str)`: a copy of `s`, when its UTF-8
    /// encoding fits in the capacity.
    #[verifier::external_body]
    fn try_from_str(s: &str) -> (r: Option<NodeName>)
        ensures
            r is Some <==> encode_utf8(s@).len() <= NODE_NAME_CAPACITY,
            r matches Some(n) ==> node_name_chars(n) == s@,
    {
        match heapless::String::try_from(s) {
            Ok(s) => Some(NodeName { s }),
            Err(_) => None,
        }
    }

    /// `heapless::String::push`: appends `c` when its UTF-8 encoding fits in
    /// the room left, and leaves the name unchanged otherwise.
    #[verifier::external_body]
    fn push(&mut self, c: char) -> (ok: bool)
        ensures
            ok <==> encode_utf8(node_name_chars(*old(self))).len() + encode_utf8(seq![c]).len()
                <= NODE_NAME_CAPACITY,
            ok ==> node_name_chars(*final(self)) == node_name_chars(*old(self)).push(c),
            !ok ==> node_name_chars(*final(self)) == node_name_chars(*old(self)),
    {
        self.s.push(c).is_ok()
    }

    /// `heapless::String::as_str`: the name as a string slice.
    #[verifier::external_body]
    fn heapless_as_str(&self) -> (r: &str)
        ensures
            r@ == node_name_chars(*self),
    {
        self.s.as_str()
    }

    /// The name as a string slice.
    pub fn as_str(&self) -> (r: &str)
        ensures
            r@ == self@,
    {
        self.heapless_as_str()
    }
}

/// The hexadecimal digit, `0`-`9` then upper case `A`-`F`, for `v < 16`.
pub open spec fn spec_hex_digit(v: int) -> char {
    if v < 10 {
        ('0' as int + v) as char
    } else {
        ('A' as int + v - 10) as char
    }
}

/// Each byte as two hexadecimal digits, high nibble first.
pub open spec fn spec_hex(bytes: Seq<u8>) -> Seq<char> {
    Seq::new(
        2 * bytes.len(),
        |i: int|
            if i % 2 == 0 {
                spec_hex_digit(bytes[i / 2] as int / 16)
            } else {
                spec_hex_digit(bytes[i / 2] as int % 16)
            },
    )
}

/// The prefix of every node name.
pub open spec fn spec_name_prefix() -> Seq<char> {
    seq!['M', 'e', 's', 'h', 'C', 'o', 'r', 'e', '-']
}

/// "MeshCore-" followed by the MAC address in upper case hexadecimal.
pub open spec fn spec_name_from_mac(mac: Seq<u8>) -> Seq<char> {
    spec_name_prefix() + spec_hex(mac)
}

/// Distinct nibbles have distinct hexadecimal digits.
pub proof fn lemma_hex_digit_injective(x: int, y: int)
    requires
        0 <= x < 16,
        0 <= y < 16,
        spec_hex_digit(x) == spec_hex_digit(y),
    ensures
        x == y,
{
    assert(spec_hex_digit(x) as int == if x < 10 { 48 + x } else { 55 + x });
    assert(spec_hex_digit(y) as int == if y < 10 { 48 + y } else { 55 + y });
}

/// Distinct MAC addresses give distinct node names.
pub proof fn lemma_name_from_mac_injective(a: Seq<u8>, b: Seq<u8>)
    requires
        spec_name_from_mac(a) == spec_name_from_mac(b),
    ensures
        a == b,
{
    let na = spec_name_from_mac(a);
    let nb = spec_name_from_mac(b);
    assert(na.len() == 9 + 2 * a.len());
    assert(nb.len() == 9 + 2 * b.len());
    assert forall|i: int| 0 <= i < a.len() implies a[i] == b[i] by {
        assert(na[9 + 2 * i] == spec_hex_digit(a[i] as int / 16));
        assert(nb[9 + 2 * i] == spec_hex_digit(b[i] as int / 16));
        assert(na[9 + 2 * i + 1] == spec_hex_digit(a[i] as int % 16));
        assert(nb[9 + 2 * i + 1] == spec_hex_digit(b[i] as int % 16));
        lemma_hex_digit_injective(a[i] as int / 16, b[i] as int / 16);
        lemma_hex_digit_injective(a[i] as int % 16, b[i] as int % 16);
    }
    assert(a =~= b);
}

fn hex_char(val: u8) -> (c: char)
    requires
        val < 16,
    ensures
        c == spec_hex_digit(val as int),
        '\0' <= c <= '\u{7f}',
{
    if val < 10 {
        return (('0' as u8) + val) as char;
    }
    (('A' as u8) + val - 10) as char
}

/// convert MAC to a string "MeshCore-XXXXXXXXXXXX"
pub fn name_from_mac(mac: [u8; 6]) -> (r: NodeName)
    ensures
        r@ == spec_name_from_mac(mac@),
        r@.len() == 21,
{
    let prefix = "MeshCore-";
    proof {
        reveal_strlit("MeshCore-");
        assert(prefix@ =~= spec_name_prefix());
        assert(is_ascii_chars(prefix@));
        is_ascii_chars_encode_utf8(prefix@);
    }
    let mut ssid = NodeName::try_from_str(prefix).unwrap();
    // add the MAC address
    let mut i: usize = 0;
    while i < 6
        invariant
            0 <= i <= 6,
            ssid@ == spec_name_prefix() + spec_hex(mac@.take(i as int)),
            is_ascii_chars(ssid@),
            ssid@.len() == 9 + 2 * i,
        decreases 6 - i,
    {
        let byte = mac[i];
        let high = hex_char(byte / 16);
        let low = hex_char(byte % 16);
        proof {
            is_ascii_chars_encode_utf8(ssid@);
            assert(is_ascii_chars(seq![high]));
            is_ascii_chars_encode_utf8(seq![high]);
        }
        ssid.push(high);
        proof {
            is_ascii_chars_encode_utf8(ssid@);
            assert(is_ascii_chars(seq![low]));
            is_ascii_chars_encode_utf8(seq![low]);
        }
        ssid.push(low);
        i = i + 1;
        assert(spec_hex(mac@.take(i as int)) =~= spec_hex(mac@.take(i - 1)).push(high).push(low));
    }
    assert(mac@.take(6) =~= mac@);
    ssid
}

/// Advertising flags: LE General Discoverable Mode, BR/EDR Not Supported.
pub const ADVERTISING_FLAGS: u8 = 0b0000_0110;
/// 16-bit UUID of the Battery Service, little-endian, as advertised by
/// `CompanionBle`.
pub const SERVICE_UUID_BATTERY_LE: [u8; 2] = [0x0f, 0x18];
/// Room for legacy advertising data, in bytes.
pub const ADVERTISING_DATA_LEN: usize = 31;

/// Advertising data made of three AD structures, each a length byte, a type
/// byte and its data: the flags, an incomplete list holding one 16-bit service
/// UUID, and the complete local name.
pub open spec fn spec_advertising_data(flags: u8, service_uuid: Seq<u8>, name: Seq<u8>) -> Seq<u8> {
    seq![2u8, 0x01u8, flags] + seq![3u8, 0x02u8] + service_uuid + seq![
        ((name.len() + 1) % 256) as u8,
        0x09u8,
    ] + name
}

/// `AdStructure::encode_slice` on `[Flags(flags), IncompleteServiceUuids16(&[service_uuid]),
/// CompleteLocalName(name)]`: writes the structures at the start of `dest` and
/// returns their length, or fails when they do not fit. What a failed call has
/// written into `dest` is left unsaid.
#[verifier::external_body]
fn encode_ad_structures(flags: u8, service_uuid: [u8; 2], name: &[u8], dest: &mut [u8; 31]) -> (r:
    Option<usize>)
    ensures
        r is Some <==> spec_advertising_data(flags, service_uuid@, name@).len() <= 31,
        r matches Some(n) ==> {
            &&& n == spec_advertising_data(flags, service_uuid@, name@).len()
            &&& final(dest)@ == spec_advertising_data(flags, service_uuid@, name@) + old(dest)@.skip(
                n as int,
            )
        },
{
    let uuids = [service_uuid];
    let structures = [
        AdStructure::Flags(flags),
        AdStructure::IncompleteServiceUuids16(&uuids),
        AdStructure::CompleteLocalName(name),
    ];
    match AdStructure::encode_slice(&structures, &mut dest[..]) {
        Ok(n) => Some(n),
        Err(_) => None,
    }
}

/// Writes the advertising data of a node named `name` that offers the service
/// `service_uuid` at the start of `adv_data` and returns its length; `None`
/// when it does not fit, with what was written left unsaid.
pub fn encode_advertising_data(service_uuid: [u8; 2], name: &str, adv_data: &mut [u8; 31]) -> (r:
    Option<usize>)
    ensures
        r is Some <==> spec_advertising_data(ADVERTISING_FLAGS, service_uuid@, encode_utf8(name@)).len()
            <= ADVERTISING_DATA_LEN,
        r matches Some(n) ==> {
            &&& n == spec_advertising_data(
                ADVERTISING_FLAGS,
                service_uuid@,
                encode_utf8(name@),
            ).len()
            &&& final(adv_data)@.take(n as int) == spec_advertising_data(
                ADVERTISING_FLAGS,
                service_uuid@,
                encode_utf8(name@),
            )
        },
{
    let r = encode_ad_structures(ADVERTISING_FLAGS, service_uuid, name.as_bytes(), adv_data);
    proof {
        if let Some(n) = r {
            let d = spec_advertising_data(ADVERTISING_FLAGS, service_uuid@, encode_utf8(name@));
            assert((d + old(adv_data)@.skip(n as int)).take(n as int) =~= d);
        }
    }
    r
}

} // verus!
