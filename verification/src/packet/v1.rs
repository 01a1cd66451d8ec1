//! Version 1 packet header: the low two bits give the route type, the next
//! four bits the payload type.
use vstd::prelude::*;

verus! {

/// Route flag of a header byte: bits 0..2.
pub open spec fn route_flag(header: u8) -> u8 {
    header & 0b11
}

/// Payload flag of a header byte: bits 2..6.
pub open spec fn payload_flag(header: u8) -> u8 {
    (header >> 2u8) & 0b1111
}

/// Position of the route flag in a header byte.
pub const ROUTE_TYPE_SHIFT: u8 = 0;
/// Width mask of the route flag.
pub const ROUTE_TYPE_MASK: u8 = 0b11;
/// Position of the payload flag in a header byte.
pub const PAYLOAD_TYPE_SHIFT: u8 = 2;
/// Width mask of the payload flag.
pub const PAYLOAD_TYPE_MASK: u8 = 0b1111;

/// A packet header byte.
pub struct Header(pub u8);

impl Header {
    /// The route type that the header's route flag names.
    pub fn route_type(&self) -> (r: RouteType)
        ensures
            r == RouteType::spec_from_flag(route_flag(self.0)),
            r.spec_value() == route_flag(self.0),
    {
        let r = RouteType::from(self);
        proof {
            let h = self.0;
            assert(h & 0b11 < 4) by (bit_vector);
            lemma_route_flag_roundtrip(r, route_flag(self.0));
        }
        r
    }

    /// The payload type that the header's payload flag names; only the
    /// `Request` and `Response` flags are decoded.
    pub fn payload_type(&self) -> (r: PayloadType)
        requires
            payload_flag(self.0) <= 1,
        ensures
            r == PayloadType::spec_from_flag(payload_flag(self.0)),
            r.spec_value() == payload_flag(self.0),
    {
        PayloadType::from_header(self)
    }
}

/// How a packet travels through the mesh.
#[derive(Debug, PartialEq, Eq, Structural, Clone, Copy)]
pub enum RouteType {
    /// Flood mode + Transport codes.
    TransportFlood,
    /// Flood mode
    Flood,
    /// Direct route
    Direct,
    /// Direct route + Transport codes.
    TransportDirect,
}

impl RouteType {
    /// The route flag that stands for this route type on the wire.
    pub open spec fn spec_value(self) -> u8 {
        match self {
            RouteType::TransportFlood => 0b00,
            RouteType::Flood => 0b01,
            RouteType::Direct => 0b10,
            RouteType::TransportDirect => 0b11,
        }
    }

    /// The route type whose wire value is `flag` (`flag < 4`).
    pub open spec fn spec_from_flag(flag: u8) -> RouteType {
        if flag == 0b00 {
            RouteType::TransportFlood
        } else if flag == 0b01 {
            RouteType::Flood
        } else if flag == 0b10 {
            RouteType::Direct
        } else {
            RouteType::TransportDirect
        }
    }

    /// The wire value of this route type.
    pub fn value(&self) -> (r: u8)
        ensures
            r == self.spec_value(),
    {
        match self {
            RouteType::TransportFlood => 0b00,
            RouteType::Flood => 0b01,
            RouteType::Direct => 0b10,
            RouteType::TransportDirect => 0b11,
        }
    }

    /// Whether packets of this route type carry transport codes.
    pub fn has_transport_codes(&self) -> (r: bool)
        ensures
            r <==> (*self == RouteType::TransportFlood || *self == RouteType::TransportDirect),
    {
        match self {
            RouteType::Flood => false,
            RouteType::Direct => false,
            RouteType::TransportFlood => true,
            RouteType::TransportDirect => true,
        }
    }
}

impl From<&Header> for RouteType {
    fn from(header: &Header) -> (r: Self) {
        let route_flag = (header.0 >> ROUTE_TYPE_SHIFT) & ROUTE_TYPE_MASK;
        let h = header.0;
        assert(h >> 0u8 == h && h & 0b11 <= 3) by (bit_vector);
        if route_flag == 0b00 {
            return RouteType::TransportFlood;
        }
        if route_flag == 0b01 {
            return RouteType::Flood;
        }
        if route_flag == 0b10 {
            return RouteType::Direct;
        }
        RouteType::TransportDirect
    }
}

impl vstd::std_specs::convert::FromSpecImpl<&Header> for RouteType {
    open spec fn obeys_from_spec() -> bool {
        true
    }

    open spec fn from_spec(header: &Header) -> Self {
        RouteType::spec_from_flag(route_flag(header.0))
    }
}

/// Route flags and route types correspond one to one: decoding the wire value
/// of a route type gives it back, and every two-bit flag is the wire value of
/// the route type it decodes to.
pub proof fn lemma_route_flag_roundtrip(r: RouteType, flag: u8)
    ensures
        RouteType::spec_from_flag(r.spec_value()) == r,
        flag < 4 ==> RouteType::spec_from_flag(flag).spec_value() == flag,
{
}

/// What a packet carries.
#[derive(Debug, PartialEq, Eq, Structural, Clone, Copy)]
pub enum PayloadType {
    Request,
    Response,
    TxtMsg,
    Ack,
    Advert,
    GrpText,
    GrpData,
    AnonReq,
    Path,
    Trace,
    Multipart,
    Control,
    Reserved,
    RawCustom,
}

impl PayloadType {
    /// The payload flag that stands for this payload type on the wire.
    pub open spec fn spec_value(self) -> u8 {
        match self {
            PayloadType::Request => 0b0000,
            PayloadType::Response => 0b0001,
            PayloadType::TxtMsg => 0b0010,
            PayloadType::Ack => 0b0011,
            PayloadType::Advert => 0b0100,
            PayloadType::GrpText => 0b0101,
            PayloadType::GrpData => 0b0110,
            PayloadType::AnonReq => 0b0111,
            PayloadType::Path => 0b1000,
            PayloadType::Trace => 0b1001,
            PayloadType::Multipart => 0b1010,
            PayloadType::Control => 0b1011,
            PayloadType::Reserved => 0b1100,
            PayloadType::RawCustom => 0b1111,
        }
    }

    /// The payload type that a decodable payload flag names.
    pub open spec fn spec_from_flag(flag: u8) -> PayloadType {
        if flag == 0b0000 {
            PayloadType::Request
        } else {
            PayloadType::Response
        }
    }

    /// The wire value of this payload type.
    pub fn value(&self) -> (r: u8)
        ensures
            r == self.spec_value(),
    {
        match self {
            PayloadType::Request => 0b0000,
            PayloadType::Response => 0b0001,
            PayloadType::TxtMsg => 0b0010,
            PayloadType::Ack => 0b0011,
            PayloadType::Advert => 0b0100,
            PayloadType::GrpText => 0b0101,
            PayloadType::GrpData => 0b0110,
            PayloadType::AnonReq => 0b0111,
            PayloadType::Path => 0b1000,
            PayloadType::Trace => 0b1001,
            PayloadType::Multipart => 0b1010,
            PayloadType::Control => 0b1011,
            PayloadType::Reserved => 0b1100,
            PayloadType::RawCustom => 0b1111,
        }
    }

    /// Decodes the payload flag of a header; the `Request` and `Response`
    /// flags are the ones decoded.
    pub fn from_header(header: &Header) -> (r: Self)
        requires
            payload_flag(header.0) <= 1,
        ensures
            r == PayloadType::spec_from_flag(payload_flag(header.0)),
            r.spec_value() == payload_flag(header.0),
    {
        let payload_type_flag = (header.0 >> PAYLOAD_TYPE_SHIFT) & PAYLOAD_TYPE_MASK;
        if payload_type_flag == 0b0000 {
            return PayloadType::Request;
        }
        PayloadType::Response
    }
}

/// The payload flags of the version 1 packet format.
pub proof fn lemma_payload_type_wire_values()
    ensures
        PayloadType::Request.spec_value() == 0,
        PayloadType::Response.spec_value() == 1,
        PayloadType::TxtMsg.spec_value() == 2,
        PayloadType::Ack.spec_value() == 3,
        PayloadType::Advert.spec_value() == 4,
        PayloadType::GrpText.spec_value() == 5,
        PayloadType::GrpData.spec_value() == 6,
        PayloadType::AnonReq.spec_value() == 7,
        PayloadType::Path.spec_value() == 8,
        PayloadType::Trace.spec_value() == 9,
        PayloadType::Multipart.spec_value() == 10,
        PayloadType::Control.spec_value() == 11,
        PayloadType::Reserved.spec_value() == 12,
        PayloadType::RawCustom.spec_value() == 15,
        PayloadType::spec_from_flag(0) == PayloadType::Request,
        PayloadType::spec_from_flag(1) == PayloadType::Response,
{
}

/// The route flags of the version 1 packet format.
pub proof fn lemma_route_type_wire_values()
    ensures
        RouteType::TransportFlood.spec_value() == 0,
        RouteType::Flood.spec_value() == 1,
        RouteType::Direct.spec_value() == 2,
        RouteType::TransportDirect.spec_value() == 3,
        RouteType::spec_from_flag(0) == RouteType::TransportFlood,
        RouteType::spec_from_flag(1) == RouteType::Flood,
        RouteType::spec_from_flag(2) == RouteType::Direct,
        RouteType::spec_from_flag(3) == RouteType::TransportDirect,
{
}

/// Distinct payload types have distinct wire values.
pub proof fn lemma_payload_value_injective(a: PayloadType, b: PayloadType)
    ensures
        a.spec_value() == b.spec_value() <==> a == b,
{
}

} // verus!
