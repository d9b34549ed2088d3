//! The records that travel through the pipeline, and the feature extractor
//! that makes them from raw frames.

use crate::capture::parser::{
    has_ip_layer, parse_frame, spec_parse_frame, IpAddress, ParsedHeaders,
};
use crate::ml::engine::Score;
use vstd::prelude::*;

verus! {

/// Number of columns of the feature vector that the model scores.
pub const FEATURE_DIMENSION: usize = 5;

/// Number of columns of the extended feature vector, which adds the numeric
/// source and destination address.
pub const EXTENDED_FEATURE_DIMENSION: usize = 7;

/// One captured frame: the bytes that were captured, the length the frame
/// had on the wire, and when it arrived, in nanoseconds on a monotonic clock.
#[derive(Clone, Debug, PartialEq, Eq)]
pub struct RawFrame {
    pub data: Vec<u8>,
    pub wire_len: u32,
    pub arrival: u64,
}

/// The numeric features of one packet, in the order of the model's columns.
#[derive(Clone, Copy, Debug, PartialEq, Eq)]
pub struct FeatureRecord {
    pub length: u32,
    pub protocol: u8,
    /// Inter-arrival time in nanoseconds.
    pub iat: u64,
    pub src_port: u16,
    pub dst_port: u16,
    /// Numeric source address: 0 for IPv6.
    pub src_addr: u32,
    /// Numeric destination address: 0 for IPv6.
    pub dst_addr: u32,
}

impl FeatureRecord {
    /// The model's columns: length, protocol, inter-arrival time, source
    /// port, destination port.
    pub open spec fn spec_columns(self) -> Seq<u64> {
        seq![
            self.length as u64,
            self.protocol as u64,
            self.iat,
            self.src_port as u64,
            self.dst_port as u64,
        ]
    }

    /// The extended columns: the model's columns, then the numeric source
    /// and destination address.
    pub open spec fn spec_extended_columns(self) -> Seq<u64> {
        self.spec_columns() + seq![self.src_addr as u64, self.dst_addr as u64]
    }

    /// The feature vector, one number per column.
    pub fn columns(&self) -> (columns: [u64; 5])
        ensures
            columns@ == self.spec_columns(),
            columns@.len() == FEATURE_DIMENSION,
    {
        let columns: [u64; 5] = [
            self.length as u64,
            self.protocol as u64,
            self.iat,
            self.src_port as u64,
            self.dst_port as u64,
        ];
        assert(columns@ =~= self.spec_columns());
        columns
    }

    /// The extended feature vector, one number per column.
    pub fn extended_columns(&self) -> (columns: [u64; 7])
        ensures
            columns@ == self.spec_extended_columns(),
            columns@.len() == EXTENDED_FEATURE_DIMENSION,
    {
        let columns: [u64; 7] = [
            self.length as u64,
            self.protocol as u64,
            self.iat,
            self.src_port as u64,
            self.dst_port as u64,
            self.src_addr as u64,
            self.dst_addr as u64,
        ];
        assert(columns@ =~= self.spec_extended_columns());
        columns
    }
}

/// A packet record: the features of one packet, its anomaly score, and the
/// fields kept for display.
#[derive(Clone, Copy, Debug, PartialEq, Eq)]
pub struct PacketFiled {
    /// Length of the frame on the wire.
    pub len: u32,
    /// The model's score: 0 until the record has been scored.
    pub score: Score,
    pub protocol: u8,
    /// Inter-arrival time in nanoseconds.
    pub iat: u64,
    pub src_port: u16,
    pub dst_port: u16,
    pub src_ip: IpAddress,
    pub dst_ip: IpAddress,
}

impl PacketFiled {
    /// The unscored record of a frame with the given headers.
    pub open spec fn spec_from_headers(headers: ParsedHeaders, len: u32, iat: u64) -> PacketFiled {
        PacketFiled {
            len,
            score: Score { bits: 0 },
            protocol: headers.ip_protocol_number,
            iat,
            src_port: headers.source_port,
            dst_port: headers.destination_port,
            src_ip: headers.source_address,
            dst_ip: headers.destination_address,
        }
    }

    /// The unscored record of a frame, if the frame parses.
    pub open spec fn spec_from_packet(data: Seq<u8>, len: u32, iat: u64) -> Option<PacketFiled> {
        match spec_parse_frame(data) {
            Some(headers) => Some(Self::spec_from_headers(headers, len, iat)),
            None => None,
        }
    }

    /// The features of this record.
    pub open spec fn spec_features(self) -> FeatureRecord {
        FeatureRecord {
            length: self.len,
            protocol: self.protocol,
            iat: self.iat,
            src_port: self.src_port,
            dst_port: self.dst_port,
            src_addr: self.src_ip.spec_numeric() as u32,
            dst_addr: self.dst_ip.spec_numeric() as u32,
        }
    }

    /// Builds the unscored record of a frame from its decoded headers, its
    /// length on the wire and its inter-arrival time.
    pub fn from_headers(headers: &ParsedHeaders, len: u32, iat: u64) -> (record: Self)
        ensures
            record == Self::spec_from_headers(*headers, len, iat),
    {
        PacketFiled {
            len,
            score: Score::zero(),
            protocol: headers.ip_protocol_number,
            iat,
            src_port: headers.source_port,
            dst_port: headers.destination_port,
            src_ip: headers.source_address,
            dst_ip: headers.destination_address,
        }
    }

    /// Builds the unscored record of a captured frame. A frame that does not
    /// parse yields `None`.
    pub fn from_packet(packet: &RawFrame, iat: u64) -> (record: Option<Self>)
        ensures
            record == Self::spec_from_packet(packet.data@, packet.wire_len, iat),
            record is Some <==> has_ip_layer(packet.data@),
    {
        match parse_frame(packet.data.as_slice()) {
            Some(headers) => Some(Self::from_headers(&headers, packet.wire_len, iat)),
            None => None,
        }
    }

    /// The same record carrying the given score.
    pub fn with_score(self, score: Score) -> (record: Self)
        ensures
            record == (PacketFiled { score, ..self }),
    {
        PacketFiled { score, ..self }
    }

    /// The features that the model scores.
    pub fn features(&self) -> (features: FeatureRecord)
        ensures
            features == self.spec_features(),
    {
        FeatureRecord {
            length: self.len,
            protocol: self.protocol,
            iat: self.iat,
            src_port: self.src_port,
            dst_port: self.dst_port,
            src_addr: self.src_ip.numeric(),
            dst_addr: self.dst_ip.numeric(),
        }
    }
}

/// The display name of an IP protocol number.
pub open spec fn spec_protocol_name(protocol: u8) -> Seq<char> {
    if protocol == 6 {
        "TCP"@
    } else if protocol == 17 {
        "UDP"@
    } else if protocol == 1 {
        "ICMP"@
    } else if protocol == 41 {
        "IPv6"@
    } else {
        "Other"@
    }
}

/// The name under which a packet's protocol is shown: TCP, UDP, ICMP and
/// IPv6 by name, every other protocol as "Other".
pub fn protocol_name(protocol: u8) -> (name: &'static str)
    ensures
        name@ == spec_protocol_name(protocol),
{
    match protocol {
        6 => "TCP",
        17 => "UDP",
        1 => "ICMP",
        41 => "IPv6",
        _ => "Other",
    }
}

/// The features of a frame, if the frame parses.
pub open spec fn spec_extract(data: Seq<u8>, len: u32, iat: u64) -> Option<FeatureRecord> {
    match PacketFiled::spec_from_packet(data, len, iat) {
        Some(record) => Some(record.spec_features()),
        None => None,
    }
}

/// The feature extractor: the features of a captured frame with the given
/// inter-arrival time, or nothing for a frame that does not parse.
pub fn extract(frame: &RawFrame, iat: u64) -> (features: Option<FeatureRecord>)
    ensures
        features == spec_extract(frame.data@, frame.wire_len, iat),
        features is Some <==> has_ip_layer(frame.data@),
{
    match PacketFiled::from_packet(frame, iat) {
        Some(record) => Some(record.features()),
        None => None,
    }
}

} // verus!
