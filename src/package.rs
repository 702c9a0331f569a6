//! The application packet that a plain datagram carries.
//!
//! ```text
//! | 0 ... 3         | 4    | 5 ... 8 | 9 ... 12      | 13 ...
//! -------------------------------------------------------------
//! | datagram header | type | time    | serial number | payload
//! ```
//!
//! Time, serial number and integer values are little-endian. Decoding never
//! fails: what cannot be read is classified as unknown.

use vstd::prelude::*;
use byteorder::{ByteOrder, LittleEndian};
use crate::datagram::{
    DatagramHeader, DatagramHeaderView, DatagramProtocol, datagram_of, blank_datagram,
    declared_payload,
};

verus! {

/// The kind of value that a packet carries.
#[derive(Clone, Copy, Debug, PartialEq, Eq, Structural)]
pub enum PackageType {
    Integer,
    IntegerValue,
    String,
    Buffer,
    Double,
    DoubleValue,
    Unknown,
}

/// The package type that a type byte names.
pub open spec fn package_type_of(value: u8) -> PackageType {
    if value == 0 {
        PackageType::Integer
    } else if value == 1 {
        PackageType::IntegerValue
    } else if value == 2 {
        PackageType::String
    } else if value == 3 {
        PackageType::Buffer
    } else if value == 4 {
        PackageType::Double
    } else if value == 5 {
        PackageType::DoubleValue
    } else {
        PackageType::Unknown
    }
}

/// The type byte of a package type; unknown is written as 0xff.
pub open spec fn package_type_code(t: PackageType) -> u8 {
    match t {
        PackageType::Integer => 0,
        PackageType::IntegerValue => 1,
        PackageType::String => 2,
        PackageType::Buffer => 3,
        PackageType::Double => 4,
        PackageType::DoubleValue => 5,
        PackageType::Unknown => 0xff,
    }
}

impl From<u8> for PackageType {
    fn from(value: u8) -> (r: PackageType)
        ensures
            r == package_type_of(value),
    {
        match value {
            0 => PackageType::Integer,
            1 => PackageType::IntegerValue,
            2 => PackageType::String,
            3 => PackageType::Buffer,
            4 => PackageType::Double,
            5 => PackageType::DoubleValue,
            _ => PackageType::Unknown,
        }
    }
}

impl vstd::std_specs::convert::FromSpecImpl<u8> for PackageType {
    open spec fn obeys_from_spec() -> bool {
        true
    }

    open spec fn from_spec(v: u8) -> PackageType {
        package_type_of(v)
    }
}

impl From<PackageType> for u8 {
    fn from(value: PackageType) -> (r: u8)
        ensures
            r == package_type_code(value),
    {
        match value {
            PackageType::Integer => 0,
            PackageType::IntegerValue => 1,
            PackageType::String => 2,
            PackageType::Buffer => 3,
            PackageType::Double => 4,
            PackageType::DoubleValue => 5,
            PackageType::Unknown => 0xff,
        }
    }
}

impl vstd::std_specs::convert::FromSpecImpl<PackageType> for u8 {
    open spec fn obeys_from_spec() -> bool {
        true
    }

    open spec fn from_spec(v: PackageType) -> u8 {
        package_type_code(v)
    }
}

/// The unsigned integer that the first four bytes of `b` hold, least
/// significant byte first.
pub open spec fn le_u32(b: Seq<u8>) -> u32
    recommends
        b.len() >= 4,
{
    (b[0] as int + b[1] as int * 0x100 + b[2] as int * 0x1_0000 + b[3] as int * 0x100_0000) as u32
}

/// Relies on byteorder's `LittleEndian::read_u32`: the first four bytes of
/// `buf`, least significant first (it panics on fewer than four).
#[verifier::external_body]
fn read_u32_le(buf: &[u8]) -> (r: u32)
    requires
        buf@.len() >= 4,
    ensures
        r == le_u32(buf@),
{
    LittleEndian::read_u32(buf)
}

/// Relies on byteorder's `LittleEndian::read_i32`: the bits of
/// `read_u32` read as a two's complement integer (it panics on fewer than
/// four bytes).
#[verifier::external_body]
fn read_i32_le(buf: &[u8]) -> (r: i32)
    requires
        buf@.len() >= 4,
    ensures
        r == le_u32(buf@) as i32,
{
    LittleEndian::read_i32(buf)
}

/// The fields of a package header, as a value.
pub struct PackageHeaderView {
    pub datagram: DatagramHeaderView,
    pub package_type: PackageType,
    pub time: u32,
    pub serial_number: u32,
}

/// The datagram header of a buffer: decoded where the buffer holds four
/// bytes, blank where it does not.
pub open spec fn outer_datagram(b: Seq<u8>) -> DatagramHeaderView {
    if b.len() >= 4 {
        datagram_of(b)
    } else {
        blank_datagram()
    }
}

/// Whether a buffer holds a whole package header: a plain datagram whose
/// declared payload has room for type, time and serial number, and whose
/// bytes are all there.
pub open spec fn carries_header(b: Seq<u8>) -> bool {
    let d = outer_datagram(b);
    &&& b.len() >= 13
    &&& d.protocol == DatagramProtocol::Datagram
    &&& declared_payload(d) > 8
}

/// The package header of a buffer. Where no header is carried, or its type
/// byte is not a known type, the type is unknown and time and serial number
/// are zero.
pub open spec fn package_header_of(b: Seq<u8>) -> PackageHeaderView {
    let t = if carries_header(b) {
        package_type_of(b[4])
    } else {
        PackageType::Unknown
    };
    if t != PackageType::Unknown {
        PackageHeaderView {
            datagram: outer_datagram(b),
            package_type: t,
            time: le_u32(b.subrange(5, 9)),
            serial_number: le_u32(b.subrange(9, 13)),
        }
    } else {
        PackageHeaderView {
            datagram: outer_datagram(b),
            package_type: PackageType::Unknown,
            time: 0,
            serial_number: 0,
        }
    }
}

/// The number of declared payload bytes after the package header.
pub open spec fn package_payload(h: PackageHeaderView) -> nat {
    let n = declared_payload(h.datagram);
    if n > 9 {
        (n - 9) as nat
    } else {
        0
    }
}

/// A decoded package header.
pub struct PackageHeader {
    pub datagram_header: DatagramHeader,
    package_type: PackageType,
    time: u32,
    serial_number: u32,
}

impl View for PackageHeader {
    type V = PackageHeaderView;

    closed spec fn view(&self) -> PackageHeaderView {
        PackageHeaderView {
            datagram: self.datagram_header@,
            package_type: self.package_type,
            time: self.time,
            serial_number: self.serial_number,
        }
    }
}

impl PackageHeader {
    /// Decodes the package header of `buffer`.
    pub fn unpack(buffer: &[u8]) -> (r: PackageHeader)
        ensures
            r@ == package_header_of(buffer@),
    {
        let datagram_header = if buffer.len() >= 4 {
            DatagramHeader::unpack(buffer)
        } else {
            DatagramHeader::blank()
        };
        let package_type = if buffer.len() < 13 || datagram_header.protocol()
            != DatagramProtocol::Datagram || datagram_header.payload_length() <= 8 {
            PackageType::Unknown
        } else {
            PackageType::from(buffer[4])
        };
        if package_type != PackageType::Unknown {
            let time = read_u32_le(&buffer[5..9]);
            let serial_number = read_u32_le(&buffer[9..13]);
            PackageHeader { datagram_header, package_type, time, serial_number }
        } else {
            PackageHeader {
                datagram_header,
                package_type: PackageType::Unknown,
                time: 0,
                serial_number: 0,
            }
        }
    }

    /// The header of the datagram that carries the package.
    pub fn datagram_header(&self) -> (r: &DatagramHeader)
        ensures
            r@ == self@.datagram,
    {
        &self.datagram_header
    }

    pub fn package_type(&self) -> (r: PackageType)
        ensures
            r == self@.package_type,
    {
        self.package_type
    }

    pub fn time(&self) -> (r: u32)
        ensures
            r == self@.time,
    {
        self.time
    }

    pub fn serial_number(&self) -> (r: u32)
        ensures
            r == self@.serial_number,
    {
        self.serial_number
    }

    /// The number of declared payload bytes after the package header.
    pub fn payload_length(&self) -> (r: usize)
        ensures
            r == package_payload(self@),
    {
        let length = self.datagram_header.payload_length();
        if length > 9 {
            length - 9
        } else {
            0
        }
    }
}

/// What a package carries: an integer, a named integer, a value of a known
/// type that is not decoded, or nothing that could be read.
#[derive(Clone, Copy, Debug, PartialEq, Eq, Structural)]
pub enum PackageData {
    Integer(i32),
    IntegerValue(i32),
    Other,
    Unknown,
}

/// The integer at bytes 13 to 16 of a buffer.
pub open spec fn value_of(b: Seq<u8>) -> i32 {
    le_u32(b.subrange(13, 17)) as i32
}

/// What the package in a buffer carries. An integer needs four declared
/// payload bytes, a named integer five, and the four value bytes must be
/// in the buffer.
pub open spec fn package_data_of(b: Seq<u8>) -> PackageData {
    let h = package_header_of(b);
    match h.package_type {
        PackageType::Integer => if package_payload(h) >= 4 && b.len() >= 17 {
            PackageData::Integer(value_of(b))
        } else {
            PackageData::Unknown
        },
        PackageType::IntegerValue => if package_payload(h) >= 5 && b.len() >= 17 {
            PackageData::IntegerValue(value_of(b))
        } else {
            PackageData::Unknown
        },
        PackageType::Unknown => PackageData::Unknown,
        _ => PackageData::Other,
    }
}

/// A decoded package: its header and what it carries.
pub struct Package {
    pub header: PackageHeader,
    pub data: PackageData,
}

impl Package {
    /// Decodes the package in `buffer`.
    pub fn unpack(buffer: &[u8]) -> (r: Package)
        ensures
            r.header@ == package_header_of(buffer@),
            r.data == package_data_of(buffer@),
    {
        let header = PackageHeader::unpack(buffer);
        let data = match header.package_type {
            PackageType::Integer => {
                if header.payload_length() >= 4 && buffer.len() >= 17 {
                    PackageData::Integer(read_i32_le(&buffer[13..17]))
                } else {
                    PackageData::Unknown
                }
            },
            PackageType::IntegerValue => {
                if header.payload_length() >= 5 && buffer.len() >= 17 {
                    PackageData::IntegerValue(read_i32_le(&buffer[13..17]))
                } else {
                    PackageData::Unknown
                }
            },
            PackageType::Unknown => PackageData::Unknown,
            _ => PackageData::Other,
        };
        Package { header, data }
    }
}

/// The four bytes of `v`, least significant first.
pub open spec fn le_bytes(v: i32) -> Seq<u8> {
    let u = v as u32;
    seq![(u & 0xff) as u8, ((u >> 8) & 0xff) as u8, ((u >> 16) & 0xff) as u8, (u >> 24) as u8]
}

proof fn lemma_le_bytes_read_back(v: i32)
    ensures
        le_u32(le_bytes(v)) as i32 == v,
{
    let u = v as u32;
    let b = le_bytes(v);
    assert(((u & 0xff) as u8) as u32 + (((u >> 8) & 0xff) as u8) as u32 * 0x100u32 + (((u >> 16)
        & 0xff) as u8) as u32 * 0x1_0000u32 + ((u >> 24) as u8) as u32 * 0x100_0000u32 == u)
        by (bit_vector);
    assert((v as u32) as i32 == v) by (bit_vector);
}

/// An integer written little-endian at byte 13 of a plain datagram that
/// declares an integer package with at least four payload bytes decodes
/// back to itself.
pub proof fn lemma_integer_round_trip(b: Seq<u8>, v: i32)
    requires
        b.len() >= 17,
        b[0] >= 16,
        b[3] == 1,
        b[4] == 0,
        b.subrange(13, 17) == le_bytes(v),
    ensures
        package_header_of(b).package_type == PackageType::Integer,
        package_data_of(b) == PackageData::Integer(v),
{
    lemma_le_bytes_read_back(v);
}

/// A buffer too short to hold a package header (under 13 bytes), or one
/// whose datagram is not a plain datagram, decodes as unknown with zero time
/// and serial number.
pub proof fn lemma_unreadable_is_unknown(b: Seq<u8>)
    requires
        b.len() < 13 || outer_datagram(b).protocol != DatagramProtocol::Datagram,
    ensures
        package_header_of(b).package_type == PackageType::Unknown,
        package_header_of(b).time == 0,
        package_header_of(b).serial_number == 0,
        package_data_of(b) == PackageData::Unknown,
{
}

} // verus!
