//! The frame parser: from the bytes of a link-layer frame to the header
//! fields that the feature extractor reads.
//!
//! Slicing a frame into its Ethernet, IP and transport headers is the work of
//! the `etherparse` crate. What is decided here is what a frame without an IP
//! layer or without ports becomes.

use etherparse::{InternetSlice, SlicedPacket, TransportSlice};
use vstd::prelude::*;

verus! {

/// Length of an Ethernet II header: two MAC addresses and the ether type.
pub const ETHERNET_HEADER_LEN: usize = 14;

/// An IP address, tagged by its version, as the octets read off the wire.
#[derive(Clone, Copy, Debug, PartialEq, Eq)]
pub enum IpAddress {
    V4([u8; 4]),
    V6([u8; 16]),
}

impl IpAddress {
    /// The address as one 32-bit number: the four octets of an IPv4 address,
    /// first octet most significant, and 0 for every IPv6 address.
    pub open spec fn spec_numeric(self) -> int {
        match self {
            IpAddress::V4(octets) => octets[0] * 0x100_0000 + octets[1] * 0x1_0000 + octets[2]
                * 0x100 + octets[3],
            IpAddress::V6(_) => 0,
        }
    }

    /// The numeric form of the address that the feature vector carries.
    pub fn numeric(&self) -> (value: u32)
        ensures
            value == self.spec_numeric(),
    {
        match self {
            IpAddress::V4(octets) => {
                let a: u32 = octets[0] as u32;
                let b: u32 = octets[1] as u32;
                let c: u32 = octets[2] as u32;
                let d: u32 = octets[3] as u32;
                a * 0x100_0000 + b * 0x1_0000 + c * 0x100 + d
            },
            IpAddress::V6(_) => 0,
        }
    }
}

/// What the slicer found at the IP layer of a frame.
#[derive(Clone, Copy, Debug, PartialEq, Eq)]
pub enum IpLayer {
    /// The frame carries no IP header.
    Absent,
    /// An IPv4 header: its protocol number, source and destination address.
    V4(u8, [u8; 4], [u8; 4]),
    /// An IPv6 header: its next-header number, source and destination address.
    V6(u8, [u8; 16], [u8; 16]),
}

/// What the slicer found at the transport layer of a frame.
#[derive(Clone, Copy, Debug, PartialEq, Eq)]
pub enum TransportLayer {
    /// A TCP header: its source and destination port.
    Tcp(u16, u16),
    /// A UDP header: its source and destination port.
    Udp(u16, u16),
    /// Anything else, or no transport header at all.
    Other,
}

/// The header fields of one sliced frame.
#[derive(Clone, Copy, Debug, PartialEq, Eq)]
pub struct SlicedLayers {
    pub ip: IpLayer,
    pub transport: TransportLayer,
}

/// The header fields that a successfully decoded frame yields.
#[derive(Clone, Copy, Debug, PartialEq, Eq)]
pub struct ParsedHeaders {
    pub ip_protocol_number: u8,
    pub source_address: IpAddress,
    pub destination_address: IpAddress,
    /// 0 when the transport layer is neither TCP nor UDP.
    pub source_port: u16,
    /// 0 when the transport layer is neither TCP nor UDP.
    pub destination_port: u16,
}

/// What `etherparse` makes of the given bytes read as an Ethernet II frame:
/// `None` where it reports an error, else the fields of the headers it found.
pub uninterp spec fn ethernet_layers(data: Seq<u8>) -> Option<SlicedLayers>;

/// Slices a frame with `etherparse::SlicedPacket::from_ethernet` and copies
/// the fields out of the IP and transport header slices it returns, each read
/// with the slice's own accessor.
///
/// Claimed without proof: the result is a function of the bytes alone, and
/// bytes too short for an Ethernet II header are an error.
#[verifier::external_body]
fn slice_ethernet(data: &[u8]) -> (layers: Option<SlicedLayers>)
    ensures
        layers == ethernet_layers(data@),
        data@.len() < ETHERNET_HEADER_LEN ==> layers is None,
{
    let packet = SlicedPacket::from_ethernet(data).ok()?;
    let ip = match packet.ip {
        Some(InternetSlice::Ipv4(h, _)) => IpLayer::V4(h.protocol(), h.source(), h.destination()),
        Some(InternetSlice::Ipv6(h, _)) => IpLayer::V6(h.next_header(), h.source(), h.destination()),
        None => IpLayer::Absent,
    };
    let transport = match packet.transport {
        Some(TransportSlice::Tcp(h)) => TransportLayer::Tcp(h.source_port(), h.destination_port()),
        Some(TransportSlice::Udp(h)) => TransportLayer::Udp(h.source_port(), h.destination_port()),
        _ => TransportLayer::Other,
    };
    Some(SlicedLayers { ip, transport })
}

/// The ports of a transport layer: those of a TCP or UDP header, else zeros.
pub open spec fn spec_ports(transport: TransportLayer) -> (u16, u16) {
    match transport {
        TransportLayer::Tcp(source, destination) => (source, destination),
        TransportLayer::Udp(source, destination) => (source, destination),
        TransportLayer::Other => (0u16, 0u16),
    }
}

/// The headers of a sliced frame: none without an IP layer; with one, its
/// protocol number and addresses, and the ports of the transport layer.
pub open spec fn spec_headers(layers: SlicedLayers) -> Option<ParsedHeaders> {
    match layers.ip {
        IpLayer::Absent => None,
        IpLayer::V4(protocol, source, destination) => Some(
            ParsedHeaders {
                ip_protocol_number: protocol,
                source_address: IpAddress::V4(source),
                destination_address: IpAddress::V4(destination),
                source_port: spec_ports(layers.transport).0,
                destination_port: spec_ports(layers.transport).1,
            },
        ),
        IpLayer::V6(next_header, source, destination) => Some(
            ParsedHeaders {
                ip_protocol_number: next_header,
                source_address: IpAddress::V6(source),
                destination_address: IpAddress::V6(destination),
                source_port: spec_ports(layers.transport).0,
                destination_port: spec_ports(layers.transport).1,
            },
        ),
    }
}

/// The headers of a frame given by its bytes: none where the slicer fails or
/// finds no IP layer.
pub open spec fn spec_parse_frame(data: Seq<u8>) -> Option<ParsedHeaders> {
    match ethernet_layers(data) {
        Some(layers) => spec_headers(layers),
        None => None,
    }
}

/// Whether the bytes hold a frame with an IP layer that the slicer can read.
pub open spec fn has_ip_layer(data: Seq<u8>) -> bool {
    match ethernet_layers(data) {
        Some(layers) => !(layers.ip is Absent),
        None => false,
    }
}

/// Turns the fields of a sliced frame into headers.
pub fn headers_from_layers(layers: &SlicedLayers) -> (headers: Option<ParsedHeaders>)
    ensures
        headers == spec_headers(*layers),
        headers is Some <==> !(layers.ip is Absent),
{
    let (source_port, destination_port): (u16, u16) = match layers.transport {
        TransportLayer::Tcp(source, destination) => (source, destination),
        TransportLayer::Udp(source, destination) => (source, destination),
        TransportLayer::Other => (0u16, 0u16),
    };
    match layers.ip {
        IpLayer::Absent => None,
        IpLayer::V4(protocol, source, destination) => Some(
            ParsedHeaders {
                ip_protocol_number: protocol,
                source_address: IpAddress::V4(source),
                destination_address: IpAddress::V4(destination),
                source_port,
                destination_port,
            },
        ),
        IpLayer::V6(next_header, source, destination) => Some(
            ParsedHeaders {
                ip_protocol_number: next_header,
                source_address: IpAddress::V6(source),
                destination_address: IpAddress::V6(destination),
                source_port,
                destination_port,
            },
        ),
    }
}

/// Decodes a raw link-layer frame. A frame that is truncated, of an
/// unsupported kind or without an IP layer yields `None`: the caller skips it.
pub fn parse_frame(data: &[u8]) -> (headers: Option<ParsedHeaders>)
    ensures
        headers == spec_parse_frame(data@),
        headers is Some <==> has_ip_layer(data@),
        data@.len() < ETHERNET_HEADER_LEN ==> headers is None,
{
    match slice_ethernet(data) {
        Some(layers) => headers_from_layers(&layers),
        None => None,
    }
}

} // verus!
