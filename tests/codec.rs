use ubit::datagram::{DatagramHeader, DatagramProtocol};
use ubit::package::{Package, PackageData, PackageHeader, PackageType};
use ubit::radio::{Packet, PacketHeader, PacketType};

fn integer_datagram(length: u8, type_byte: u8, time: u32, serial: u32, value: i32) -> Vec<u8> {
    let mut b = vec![length, 1, 1, 1, type_byte];
    b.extend_from_slice(&time.to_le_bytes());
    b.extend_from_slice(&serial.to_le_bytes());
    b.extend_from_slice(&value.to_le_bytes());
    b
}

#[test]
fn datagram_header_fields() {
    let h = DatagramHeader::unpack(&[12, 3, 7, 2, 99]);
    assert_eq!(h.length(), 12);
    assert_eq!(h.version(), 3);
    assert_eq!(h.group(), 7);
    assert_eq!(h.protocol(), DatagramProtocol::EventBus);
    assert_eq!(h.payload_length(), 9);
}

#[test]
fn datagram_short_length_is_unknown() {
    let h = DatagramHeader::unpack(&[2, 3, 7, 1]);
    assert_eq!(h.length(), 2);
    assert_eq!(h.version(), 0);
    assert_eq!(h.group(), 0);
    assert_eq!(h.protocol(), DatagramProtocol::Unknown);
    assert_eq!(h.payload_length(), 0);
}

#[test]
fn datagram_length_three_has_no_payload() {
    let h = DatagramHeader::unpack(&[3, 1, 2, 1]);
    assert_eq!(h.protocol(), DatagramProtocol::Datagram);
    assert_eq!(h.payload_length(), 0);
}

#[test]
fn protocol_from_byte() {
    assert_eq!(DatagramProtocol::from(1), DatagramProtocol::Datagram);
    assert_eq!(DatagramProtocol::from(2), DatagramProtocol::EventBus);
    assert_eq!(DatagramProtocol::from(0), DatagramProtocol::Unknown);
    assert_eq!(DatagramProtocol::from(255), DatagramProtocol::Unknown);
}

#[test]
fn package_type_codes() {
    let all = [
        PackageType::Integer,
        PackageType::IntegerValue,
        PackageType::String,
        PackageType::Buffer,
        PackageType::Double,
        PackageType::DoubleValue,
    ];
    for (i, t) in all.iter().enumerate() {
        assert_eq!(PackageType::from(i as u8), *t);
        assert_eq!(u8::from(*t), i as u8);
    }
    assert_eq!(PackageType::from(6), PackageType::Unknown);
    assert_eq!(u8::from(PackageType::Unknown), 0xff);
}

#[test]
fn integer_package_decodes_fields() {
    let b = integer_datagram(16, 0, 0x0403_0201, 0x0807_0605, 0x0c0b_0a09);
    assert_eq!(b.len(), 17);
    let p = Package::unpack(&b);
    assert_eq!(p.header.package_type(), PackageType::Integer);
    assert_eq!(p.header.time(), 0x0403_0201);
    assert_eq!(p.header.serial_number(), 0x0807_0605);
    assert_eq!(p.header.payload_length(), 4);
    assert_eq!(p.header.datagram_header.length(), 16);
    assert_eq!(p.data, PackageData::Integer(0x0c0b_0a09));
}

#[test]
fn declared_length_twelve_leaves_no_room_for_a_value() {
    let b = integer_datagram(12, 0, 77, 88, 5);
    let p = Package::unpack(&b);
    assert_eq!(p.header.package_type(), PackageType::Integer);
    assert_eq!(p.header.time(), 77);
    assert_eq!(p.header.serial_number(), 88);
    assert_eq!(p.header.payload_length(), 0);
    assert_eq!(p.data, PackageData::Unknown);
}

#[test]
fn integer_round_trip() {
    for v in [0, 1, -1, 2, i32::MIN, i32::MAX, 123_456_789, -98_765] {
        let b = integer_datagram(16, 0, 1, 2, v);
        assert_eq!(Package::unpack(&b).data, PackageData::Integer(v));
        let longer = integer_datagram(40, 0, 1, 2, v);
        assert_eq!(Package::unpack(&longer).data, PackageData::Integer(v));
    }
}

#[test]
fn named_integer_needs_five_payload_bytes() {
    let mut b = integer_datagram(17, 1, 5, 6, -42);
    b.push(b'x');
    assert_eq!(Package::unpack(&b).data, PackageData::IntegerValue(-42));
    let short = integer_datagram(16, 1, 5, 6, -42);
    let p = Package::unpack(&short);
    assert_eq!(p.header.package_type(), PackageType::IntegerValue);
    assert_eq!(p.data, PackageData::Unknown);
}

#[test]
fn other_known_types_are_classified_only() {
    for t in 2u8..=5 {
        let b = integer_datagram(16, t, 9, 10, 0);
        let p = Package::unpack(&b);
        assert_eq!(p.header.package_type(), PackageType::from(t));
        assert_eq!(p.data, PackageData::Other);
    }
}

#[test]
fn unknown_type_byte_is_unknown() {
    let b = integer_datagram(16, 9, 9, 10, 3);
    let p = Package::unpack(&b);
    assert_eq!(p.header.package_type(), PackageType::Unknown);
    assert_eq!(p.header.time(), 0);
    assert_eq!(p.header.serial_number(), 0);
    assert_eq!(p.data, PackageData::Unknown);
}

#[test]
fn short_buffers_are_unknown() {
    let full = integer_datagram(16, 0, 1, 2, 3);
    for n in 0..=12 {
        let p = Package::unpack(&full[..n]);
        assert_eq!(p.header.package_type(), PackageType::Unknown);
        assert_eq!(p.header.time(), 0);
        assert_eq!(p.header.serial_number(), 0);
        assert_eq!(p.data, PackageData::Unknown);
    }
}

#[test]
fn truncated_value_is_unknown() {
    let full = integer_datagram(16, 0, 1, 2, 3);
    let p = Package::unpack(&full[..15]);
    assert_eq!(p.header.package_type(), PackageType::Integer);
    assert_eq!(p.header.time(), 1);
    assert_eq!(p.data, PackageData::Unknown);
}

#[test]
fn other_protocols_are_unknown() {
    for proto in [0u8, 2, 3, 200] {
        let mut b = integer_datagram(16, 0, 1, 2, 3);
        b[3] = proto;
        let p = Package::unpack(&b);
        assert_eq!(p.header.package_type(), PackageType::Unknown);
        assert_eq!(p.data, PackageData::Unknown);
    }
}

#[test]
fn header_alone_decodes() {
    let b = integer_datagram(16, 0, 0xdead_beef, 0x0102_0304, 0);
    let h = PackageHeader::unpack(&b);
    assert_eq!(h.time(), 0xdead_beef);
    assert_eq!(h.serial_number(), 0x0102_0304);
    assert_eq!(h.datagram_header().protocol(), DatagramProtocol::Datagram);
}

fn big_endian_packet(type_byte: u8, time: i32, serial: i32, value: i32) -> Vec<u8> {
    let mut b = vec![type_byte];
    b.extend_from_slice(&time.to_be_bytes());
    b.extend_from_slice(&serial.to_be_bytes());
    b.extend_from_slice(&value.to_be_bytes());
    b
}

#[test]
fn packet_integer_is_big_endian() {
    let b = big_endian_packet(0, 0x0102_0304, -2, -300);
    match Packet::unpack(&b) {
        Packet::Integer(h, v) => {
            assert_eq!(h.packet_type(), PacketType::Integer);
            assert_eq!(h.time(), 0x0102_0304);
            assert_eq!(h.serial_number(), -2);
            assert_eq!(v, -300);
        }
        _ => panic!("expected an integer packet"),
    }
    match Packet::unpack(&big_endian_packet(1, 5, 6, 7)) {
        Packet::IntegerValue(_, v) => assert_eq!(v, 7),
        _ => panic!("expected a named integer packet"),
    }
}

#[test]
fn packet_short_buffers_are_unknown() {
    let b = big_endian_packet(0, 1, 2, 3);
    for n in 0..9 {
        assert!(matches!(Packet::unpack(&b[..n]), Packet::Unknown));
    }
    for n in 9..13 {
        assert!(matches!(Packet::unpack(&b[..n]), Packet::Unknown));
    }
    assert!(matches!(Packet::unpack(&b[..13]), Packet::Integer(_, 3)));
}

#[test]
fn packet_other_and_unknown_types() {
    let b = big_endian_packet(3, 1, 2, 3);
    match Packet::unpack(&b[..9]) {
        Packet::Other(h) => {
            assert_eq!(h.packet_type(), PacketType::Buffer);
            assert_eq!(h.time(), 1);
        }
        _ => panic!("expected another packet type"),
    }
    assert!(matches!(Packet::unpack(&big_endian_packet(6, 1, 2, 3)), Packet::Unknown));
    let h = PacketHeader::unpack(&big_endian_packet(7, 1, 2, 3));
    assert_eq!(h.packet_type(), PacketType::Unknown);
    assert_eq!(h.time(), 0);
    assert_eq!(h.serial_number(), 0);
}
