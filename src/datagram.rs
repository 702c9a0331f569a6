//! The outer datagram framing of the radio protocol.
//!
//! ```text
//! | 0      | 1       | 2     | 3        | 4 ...
//! ----------------------------------------------
//! | length | version | group | protocol | payload
//! ```
//!
//! The length byte counts the bytes that follow it.

use vstd::prelude::*;

verus! {

/// The protocol carried by a datagram.
#[derive(Clone, Copy, Debug, PartialEq, Eq, Structural)]
pub enum DatagramProtocol {
    Datagram,
    EventBus,
    Unknown,
}

/// The protocol that a protocol byte names: 1 is a plain datagram,
/// 2 the event bus, every other byte is unknown.
pub open spec fn protocol_of(value: u8) -> DatagramProtocol {
    if value == 1 {
        DatagramProtocol::Datagram
    } else if value == 2 {
        DatagramProtocol::EventBus
    } else {
        DatagramProtocol::Unknown
    }
}

impl From<u8> for DatagramProtocol {
    fn from(value: u8) -> (r: DatagramProtocol)
        ensures
            r == protocol_of(value),
    {
        match value {
            1 => DatagramProtocol::Datagram,
            2 => DatagramProtocol::EventBus,
            _ => DatagramProtocol::Unknown,
        }
    }
}

impl vstd::std_specs::convert::FromSpecImpl<u8> for DatagramProtocol {
    open spec fn obeys_from_spec() -> bool {
        true
    }

    open spec fn from_spec(v: u8) -> DatagramProtocol {
        protocol_of(v)
    }
}

/// The fields of a datagram header, as a value.
pub struct DatagramHeaderView {
    pub length: u8,
    pub version: u8,
    pub group: u8,
    pub protocol: DatagramProtocol,
}

/// A decoded datagram header.
pub struct DatagramHeader {
    length: u8,
    version: u8,
    group: u8,
    protocol: DatagramProtocol,
}

impl View for DatagramHeader {
    type V = DatagramHeaderView;

    closed spec fn view(&self) -> DatagramHeaderView {
        DatagramHeaderView {
            length: self.length,
            version: self.version,
            group: self.group,
            protocol: self.protocol,
        }
    }
}

/// The header that a buffer of at least four bytes starts with. A declared
/// length under 3 cannot hold version, group and protocol: those then read
/// as zero and unknown.
pub open spec fn datagram_of(b: Seq<u8>) -> DatagramHeaderView
    recommends
        b.len() >= 4,
{
    if b[0] >= 3 {
        DatagramHeaderView { length: b[0], version: b[1], group: b[2], protocol: protocol_of(b[3]) }
    } else {
        DatagramHeaderView { length: b[0], version: 0, group: 0, protocol: DatagramProtocol::Unknown }
    }
}

/// The number of payload bytes that a header declares: the length less the
/// three header bytes that it counts.
pub open spec fn declared_payload(h: DatagramHeaderView) -> nat {
    if h.length > 3 {
        (h.length - 3) as nat
    } else {
        0
    }
}

/// The header of a buffer too short to hold one: every field zero and
/// the protocol unknown.
pub open spec fn blank_datagram() -> DatagramHeaderView {
    DatagramHeaderView { length: 0, version: 0, group: 0, protocol: DatagramProtocol::Unknown }
}

impl DatagramHeader {
    pub(crate) fn blank() -> (r: DatagramHeader)
        ensures
            r@ == blank_datagram(),
    {
        DatagramHeader { length: 0, version: 0, group: 0, protocol: DatagramProtocol::Unknown }
    }

    /// Decodes the header at the start of `buffer`.
    pub fn unpack(buffer: &[u8]) -> (r: DatagramHeader)
        requires
            buffer@.len() >= 4,
        ensures
            r@ == datagram_of(buffer@),
    {
        let length = buffer[0];
        if length >= 3 {
            DatagramHeader {
                length,
                version: buffer[1],
                group: buffer[2],
                protocol: DatagramProtocol::from(buffer[3]),
            }
        } else {
            DatagramHeader { length, version: 0, group: 0, protocol: DatagramProtocol::Unknown }
        }
    }

    /// The declared length of the datagram, without the length byte.
    pub fn length(&self) -> (r: u8)
        ensures
            r == self@.length,
    {
        self.length
    }

    /// The number of payload bytes after the header.
    pub fn payload_length(&self) -> (r: usize)
        ensures
            r == declared_payload(self@),
    {
        if self.length > 3 {
            (self.length - 3) as usize
        } else {
            0
        }
    }

    pub fn version(&self) -> (r: u8)
        ensures
            r == self@.version,
    {
        self.version
    }

    pub fn group(&self) -> (r: u8)
        ensures
            r == self@.group,
    {
        self.group
    }

    pub fn protocol(&self) -> (r: DatagramProtocol)
        ensures
            r == self@.protocol,
    {
        self.protocol
    }
}

} // verus!
