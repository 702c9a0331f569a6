//! The radio: the big-endian packet format that the radio carries, and the
//! receive cycle, whose one rule is that every received frame, good or
//! corrupt, is followed by arming the receiver again.
//!
//! ```text
//! | 0           | 1 ... 4     | 5 ... 8       | 9 ...
//! --------------------------------------------------------
//! | packet type | system time | serial number | payload
//! ```

use vstd::prelude::*;

verus! {

/// Address shared by every radio of the network.
pub const BASE_ADDRESS: u32 = 0x75626974;

/// The group a radio listens to until told otherwise.
pub const DEFAULT_GROUP: u8 = 0;

/// The largest frame that the receiver accepts, and the size of a frame
/// buffer.
pub const MAX_PACKET_SIZE: usize = 32;

/// Polynomial of the 16-bit frame check sequence.
pub const CRC_POLY: u32 = 0x00011021;

/// Initial value of the frame check sequence.
pub const CRC_PRESET: u32 = 0x0000ffff;

/// Initial value of the data whitening.
pub const WHITENING_IV: u8 = 0x18;

/// A buffer that holds one frame: its length byte, then the frame.
pub type PacketBuffer = [u8; MAX_PACKET_SIZE];

/// The kind of value that a packet carries.
#[derive(Clone, Copy, Debug, PartialEq, Eq, Structural)]
pub enum PacketType {
    Integer,
    IntegerValue,
    String,
    Buffer,
    Double,
    DoubleValue,
    Unknown,
}

/// The packet type that a type byte names.
pub open spec fn packet_type_of(value: u8) -> PacketType {
    if value == 0 {
        PacketType::Integer
    } else if value == 1 {
        PacketType::IntegerValue
    } else if value == 2 {
        PacketType::String
    } else if value == 3 {
        PacketType::Buffer
    } else if value == 4 {
        PacketType::Double
    } else if value == 5 {
        PacketType::DoubleValue
    } else {
        PacketType::Unknown
    }
}

impl From<u8> for PacketType {
    fn from(value: u8) -> (r: PacketType)
        ensures
            r == packet_type_of(value),
    {
        match value {
            0 => PacketType::Integer,
            1 => PacketType::IntegerValue,
            2 => PacketType::String,
            3 => PacketType::Buffer,
            4 => PacketType::Double,
            5 => PacketType::DoubleValue,
            _ => PacketType::Unknown,
        }
    }
}

impl vstd::std_specs::convert::FromSpecImpl<u8> for PacketType {
    open spec fn obeys_from_spec() -> bool {
        true
    }

    open spec fn from_spec(v: u8) -> PacketType {
        packet_type_of(v)
    }
}

/// The unsigned integer that the first four bytes of `b` hold, most
/// significant byte first.
pub open spec fn be_u32(b: Seq<u8>) -> u32
    recommends
        b.len() >= 4,
{
    (b[0] as int * 0x100_0000 + b[1] as int * 0x1_0000 + b[2] as int * 0x100 + b[3] as int) as u32
}

/// The signed integer that bytes `at` to `at + 3` of `b` hold, most
/// significant byte first.
pub open spec fn be_i32_at(b: Seq<u8>, at: int) -> i32 {
    be_u32(b.subrange(at, at + 4)) as i32
}

fn read_be_i32(buf: &[u8], at: usize) -> (r: i32)
    requires
        at + 4 <= buf@.len(),
    ensures
        r == be_i32_at(buf@, at as int),
{
    let b0 = buf[at];
    let b1 = buf[at + 1];
    let b2 = buf[at + 2];
    let b3 = buf[at + 3];
    let x: u32 = (b0 as u32) << 24u32 | (b1 as u32) << 16u32 | (b2 as u32) << 8u32 | b3 as u32;
    assert(x == (b0 as u32) * 0x100_0000u32 + (b1 as u32) * 0x1_0000u32 + (b2 as u32) * 0x100u32
        + (b3 as u32)) by (bit_vector)
        requires
            x == (b0 as u32) << 24u32 | (b1 as u32) << 16u32 | (b2 as u32) << 8u32 | b3 as u32,
    ;
    assert(buf@.subrange(at as int, at + 4) =~= seq![b0, b1, b2, b3]);
    #[verifier::truncate]
    (x as i32)
}

/// The fields of a packet header, as a value.
pub struct PacketHeaderView {
    pub packet_type: PacketType,
    pub time: i32,
    pub serial_number: i32,
}

/// The header at the start of a buffer of at least nine bytes. Time and
/// serial number of a packet of unknown type are zero.
pub open spec fn packet_header_of(b: Seq<u8>) -> PacketHeaderView
    recommends
        b.len() > 8,
{
    let t = packet_type_of(b[0]);
    if t != PacketType::Unknown {
        PacketHeaderView { packet_type: t, time: be_i32_at(b, 1), serial_number: be_i32_at(b, 5) }
    } else {
        PacketHeaderView { packet_type: t, time: 0, serial_number: 0 }
    }
}

/// A decoded packet header.
pub struct PacketHeader {
    packet_type: PacketType,
    time: i32,
    serial_number: i32,
}

impl View for PacketHeader {
    type V = PacketHeaderView;

    closed spec fn view(&self) -> PacketHeaderView {
        PacketHeaderView {
            packet_type: self.packet_type,
            time: self.time,
            serial_number: self.serial_number,
        }
    }
}

impl PacketHeader {
    /// Decodes the header at the start of `buffer`.
    pub fn unpack(buffer: &[u8]) -> (r: PacketHeader)
        requires
            buffer@.len() > 8,
        ensures
            r@ == packet_header_of(buffer@),
    {
        let packet_type = PacketType::from(buffer[0]);
        let mut time: i32 = 0;
        let mut serial_number: i32 = 0;
        if packet_type != PacketType::Unknown {
            time = read_be_i32(buffer, 1);
            serial_number = read_be_i32(buffer, 5);
        }
        PacketHeader { packet_type, time, serial_number }
    }

    pub fn packet_type(&self) -> (r: PacketType)
        ensures
            r == self@.packet_type,
    {
        self.packet_type
    }

    pub fn time(&self) -> (r: i32)
        ensures
            r == self@.time,
    {
        self.time
    }

    pub fn serial_number(&self) -> (r: i32)
        ensures
            r == self@.serial_number,
    {
        self.serial_number
    }
}

/// A decoded packet, as a value.
pub enum PacketView {
    Integer(PacketHeaderView, i32),
    IntegerValue(PacketHeaderView, i32),
    Other(PacketHeaderView),
    Unknown,
}

/// The packet that a buffer holds. Fewer than nine bytes hold no header; an
/// integer needs the four bytes after the header.
pub open spec fn packet_of(b: Seq<u8>) -> PacketView {
    if b.len() < 9 {
        PacketView::Unknown
    } else {
        let h = packet_header_of(b);
        match h.packet_type {
            PacketType::Integer => if b.len() > 12 {
                PacketView::Integer(h, be_i32_at(b, 9))
            } else {
                PacketView::Unknown
            },
            PacketType::IntegerValue => if b.len() > 12 {
                PacketView::IntegerValue(h, be_i32_at(b, 9))
            } else {
                PacketView::Unknown
            },
            PacketType::Unknown => PacketView::Unknown,
            _ => PacketView::Other(h),
        }
    }
}

/// A buffer too short to hold a packet header decodes as unknown.
pub proof fn lemma_short_packet_is_unknown(b: Seq<u8>)
    requires
        b.len() < 9,
    ensures
        packet_of(b) is Unknown,
{
}

/// A decoded packet: an integer, a named integer, another known type that
/// is not decoded, or nothing that could be read.
pub enum Packet {
    Integer(PacketHeader, i32),
    IntegerValue(PacketHeader, i32),
    Other(PacketHeader),
    Unknown,
}

impl View for Packet {
    type V = PacketView;

    open spec fn view(&self) -> PacketView {
        match self {
            Packet::Integer(h, v) => PacketView::Integer(h@, *v),
            Packet::IntegerValue(h, v) => PacketView::IntegerValue(h@, *v),
            Packet::Other(h) => PacketView::Other(h@),
            Packet::Unknown => PacketView::Unknown,
        }
    }
}

impl Packet {
    /// Decodes the packet in `buffer`.
    pub fn unpack(buffer: &[u8]) -> (r: Packet)
        ensures
            r@ == packet_of(buffer@),
    {
        if buffer.len() < 9 {
            return Packet::Unknown;
        }
        let ph = PacketHeader::unpack(buffer);
        match ph.packet_type {
            PacketType::Integer => {
                if buffer.len() > 12 {
                    let value = read_be_i32(buffer, 9);
                    Packet::Integer(ph, value)
                } else {
                    Packet::Unknown
                }
            },
            PacketType::IntegerValue => {
                if buffer.len() > 12 {
                    let value = read_be_i32(buffer, 9);
                    Packet::IntegerValue(ph, value)
                } else {
                    Packet::Unknown
                }
            },
            PacketType::Unknown => Packet::Unknown,
            _ => Packet::Other(ph),
        }
    }
}

/// Where the receiver stands in its cycle: not yet armed, armed and
/// waiting for a frame, or holding a frame that was just taken and not yet
/// armed again.
#[derive(Clone, Copy, Debug, PartialEq, Eq, Structural)]
pub enum ReceiveState {
    Idle,
    Listening,
    Received,
}

/// What a handler does to the receiver.
pub enum RadioOp {
    StartReceive,
    Receive,
}

/// The state that an operation leaves the receiver in.
pub open spec fn radio_next(op: RadioOp) -> ReceiveState {
    match op {
        RadioOp::StartReceive => ReceiveState::Listening,
        RadioOp::Receive => ReceiveState::Received,
    }
}

/// The state after a run of operations from state `s`.
pub open spec fn radio_run(s: ReceiveState, ops: Seq<RadioOp>) -> ReceiveState
    decreases ops.len(),
{
    if ops.len() == 0 {
        s
    } else {
        radio_run(radio_next(ops[0]), ops.drop_first())
    }
}

/// `n` completed frames, each handled by taking it and arming again.
pub open spec fn handled_frames(n: nat) -> Seq<RadioOp>
    decreases n,
{
    if n == 0 {
        Seq::empty()
    } else {
        seq![RadioOp::Receive, RadioOp::StartReceive] + handled_frames((n - 1) as nat)
    }
}

/// The state after a run is the one its last operation leaves.
pub proof fn lemma_run_ends_with_last(s: ReceiveState, ops: Seq<RadioOp>)
    requires
        ops.len() > 0,
    ensures
        radio_run(s, ops) == radio_next(ops.last()),
    decreases ops.len(),
{
    if ops.len() > 1 {
        lemma_run_ends_with_last(radio_next(ops[0]), ops.drop_first());
        assert(ops.drop_first().last() == ops.last());
    } else {
        assert(ops.drop_first().len() == 0);
        assert(radio_run(radio_next(ops[0]), ops.drop_first()) == radio_next(ops[0]));
        assert(ops.last() == ops[0]);
    }
}

/// The receiver is never left unarmed: after any run of operations that
/// arms it first, it is listening, or the run ended on a receive whose
/// handler has still to arm it.
pub proof fn lemma_receiver_never_left_unarmed(ops: Seq<RadioOp>)
    requires
        ops.len() > 0,
        ops[0] is StartReceive,
    ensures
        radio_run(ReceiveState::Idle, ops) == ReceiveState::Listening
            || (radio_run(ReceiveState::Idle, ops) == ReceiveState::Received && ops.last() is Receive),
{
    lemma_run_ends_with_last(ReceiveState::Idle, ops);
}

/// Frames handled the way `on_frame_end` handles them leave the receiver
/// listening, however many come.
pub proof fn lemma_handled_frames_stay_armed(n: nat)
    ensures
        radio_run(ReceiveState::Listening, handled_frames(n)) == ReceiveState::Listening,
    decreases n,
{
    if n > 0 {
        let ops = handled_frames(n);
        lemma_run_ends_with_last(ReceiveState::Listening, ops);
        assert(ops.last() == RadioOp::StartReceive) by {
            if n > 1 {
                lemma_handled_frames_end_armed((n - 1) as nat);
            }
        }
    }
}

proof fn lemma_handled_frames_end_armed(n: nat)
    requires
        n > 0,
    ensures
        handled_frames(n).len() > 0,
        handled_frames(n).last() == RadioOp::StartReceive,
    decreases n,
{
    let head = seq![RadioOp::Receive, RadioOp::StartReceive];
    let rest = handled_frames((n - 1) as nat);
    assert(handled_frames(n) == head + rest);
    if n > 1 {
        lemma_handled_frames_end_armed((n - 1) as nat);
        assert((head + rest).last() == rest.last());
    } else {
        assert(rest.len() == 0);
        assert((head + rest).last() == head.last());
    }
}

/// The length that a receive reports for a frame buffer: the declared
/// length, at most the size of the buffer, where the check sequence held
/// and the frame is not empty; zero otherwise.
pub open spec fn received_length(crc_ok: bool, frame: Seq<u8>) -> nat {
    if crc_ok && frame[0] > 0 {
        if frame[0] as nat > MAX_PACKET_SIZE as nat {
            MAX_PACKET_SIZE as nat
        } else {
            frame[0] as nat
        }
    } else {
        0
    }
}

/// The receive cycle of the radio and the group it listens to. The
/// peripheral itself, and the frame buffer it writes into, belong to the
/// caller, which hands over each frame that the peripheral completes.
pub struct Radio {
    state: ReceiveState,
    group: u8,
}

impl Radio {
    /// A receiver listening to the default group, not armed yet.
    pub fn new() -> (r: Radio)
        ensures
            r.spec_state() == ReceiveState::Idle,
            r.spec_group() == DEFAULT_GROUP,
    {
        Radio { state: ReceiveState::Idle, group: DEFAULT_GROUP }
    }

    pub closed spec fn spec_state(&self) -> ReceiveState {
        self.state
    }

    pub closed spec fn spec_group(&self) -> u8 {
        self.group
    }

    /// Where the receiver stands in its cycle.
    pub fn state(&self) -> (r: ReceiveState)
        ensures
            r == self.spec_state(),
    {
        self.state
    }

    /// The group the radio listens to.
    pub fn group(&self) -> (r: u8)
        ensures
            r == self.spec_group(),
    {
        self.group
    }

    /// Changes the group.
    pub fn set_group(&mut self, group: u8)
        ensures
            final(self).spec_group() == group,
            final(self).spec_state() == old(self).spec_state(),
    {
        self.group = group;
    }

    /// Arms the receiver for the next frame.
    pub fn start_receive(&mut self)
        ensures
            final(self).spec_state() == radio_next(RadioOp::StartReceive),
            final(self).spec_group() == old(self).spec_group(),
    {
        self.state = ReceiveState::Listening;
    }

    /// Takes the frame that the peripheral completed. Where its check
    /// sequence held and it is not empty, `dst` receives the frame buffer and
    /// the declared length comes back; otherwise `dst` is left alone and the
    /// frame is dropped with a length of zero. Either way the receiver must
    /// be armed again.
    pub fn receive(&mut self, crc_ok: bool, frame: &PacketBuffer, dst: &mut PacketBuffer) -> (r: usize)
        requires
            old(self).spec_state() == ReceiveState::Listening,
        ensures
            final(self).spec_state() == radio_next(RadioOp::Receive),
            final(self).spec_group() == old(self).spec_group(),
            r == received_length(crc_ok, frame@),
            r > 0 ==> final(dst)@ == frame@,
            r == 0 ==> final(dst)@ == old(dst)@,
    {
        self.state = ReceiveState::Received;
        let length = frame[0];
        if crc_ok && length > 0 {
            *dst = *frame;
            if length as usize > MAX_PACKET_SIZE {
                MAX_PACKET_SIZE
            } else {
                length as usize
            }
        } else {
            0
        }
    }

    /// The whole handling of a completed frame: take it, then arm the
    /// receiver again, whatever the frame held.
    pub fn on_frame_end(&mut self, crc_ok: bool, frame: &PacketBuffer, dst: &mut PacketBuffer) -> (r: usize)
        requires
            old(self).spec_state() == ReceiveState::Listening,
        ensures
            final(self).spec_state() == ReceiveState::Listening,
            final(self).spec_group() == old(self).spec_group(),
            r == received_length(crc_ok, frame@),
            r > 0 ==> final(dst)@ == frame@,
            r == 0 ==> final(dst)@ == old(dst)@,
    {
        let length = self.receive(crc_ok, frame, dst);
        self.start_receive();
        length
    }
}

} // verus!
