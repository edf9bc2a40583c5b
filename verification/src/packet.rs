//! Packet classification and decoded packet values.
//!
//! The first byte of every frame is a tag that selects how the payload is
//! interpreted; the second byte is an id that tells the consumer which data
//! series the packet belongs to.

use vstd::prelude::*;

verus! {

/// How a frame's payload is to be interpreted, derived from the tag byte.
#[derive(Debug, PartialEq, Eq, Structural, Clone, Copy)]
pub enum PacketKind {
    Text,
    PositiveInteger,
    NegativeInteger,
    Binary,
    Unknown,
}

/// The fixed mapping from a frame's tag byte to its kind.
pub open spec fn kind_of_tag(tag: u8) -> PacketKind {
    if tag == 1 {
        PacketKind::Text
    } else if tag == 2 {
        PacketKind::PositiveInteger
    } else if tag == 3 {
        PacketKind::NegativeInteger
    } else if tag == 4 {
        PacketKind::Binary
    } else {
        PacketKind::Unknown
    }
}

impl PacketKind {
    /// Classifies a tag byte; any byte outside 1..=4 is `Unknown`.
    pub fn from_byte(tag: u8) -> (kind: PacketKind)
        ensures
            kind == kind_of_tag(tag),
    {
        match tag {
            1 => PacketKind::Text,
            2 => PacketKind::PositiveInteger,
            3 => PacketKind::NegativeInteger,
            4 => PacketKind::Binary,
            _ => PacketKind::Unknown,
        }
    }
}

/// A decoded, typed record. Timestamps are monotonic-clock milliseconds
/// captured at decode time; only differences between them are meaningful.
#[derive(Debug, Clone, PartialEq)]
pub enum PacketData {
    Integer(i64, u8, u64),
    Text(String, u8, u64),
    Empty,
}

impl PacketData {
    /// A short label naming the variant, for display purposes.
    pub fn display_variant(&self) -> (label: &str)
        ensures
            self is Integer ==> label@ == "Integer"@,
            self is Text ==> label@ == "String"@,
            self is Empty ==> label@ == "None"@,
    {
        match self {
            PacketData::Integer(_, _, _) => "Integer",
            PacketData::Text(_, _, _) => "String",
            PacketData::Empty => "None",
        }
    }
}

/// One frame captured from a single serial read, before and after decoding.
#[derive(Debug)]
pub struct Packet {
    pub packet_type: PacketKind,
    pub packet_id: u8,
    pub raw_data: Vec<u8>,
    pub constructed_data: PacketData,
}

impl Packet {
    /// A freshly assembled frame whose payload has not been decoded yet.
    pub fn new(packet_type: PacketKind, packet_id: u8, raw_data: Vec<u8>) -> (p: Packet)
        ensures
            p.packet_type == packet_type,
            p.packet_id == packet_id,
            p.raw_data@ == raw_data@,
            p.constructed_data is Empty,
    {
        Packet { packet_type, packet_id, raw_data, constructed_data: PacketData::Empty }
    }
}

} // verus!
