use dns_codec::buffer::{BytePacketBuffer, PacketBuffer, PacketError};
use dns_codec::packet::DNSPacket;
use dns_codec::protocol::{
    DNSHeader, DNSQuestion, Ipv4Address, QueryType, ResultCode, TransientTTL,
};
use dns_codec::record::DNSRecord;

fn buffer_with(bytes: &[u8]) -> BytePacketBuffer {
    let mut buf = BytePacketBuffer::new();
    for (i, b) in bytes.iter().enumerate() {
        buf.set(i, *b).unwrap();
    }
    buf
}

#[test]
fn header_bit_packing_round_trip() {
    let mut header = DNSHeader::new();
    header.id = 0xABCD;
    header.response = true;
    header.opcode = 0xF;
    header.authoritative_answer = true;
    header.truncated_message = true;
    header.recursion_desired = true;
    header.recursion_available = true;
    header.z = true;
    header.checking_disabled = true;
    header.authed_data = true;
    header.rescode = ResultCode::REFUSED;
    header.questions = 3;
    header.answers = 2;
    header.authoritative_entries = 7;
    header.additional_entries = 1;

    let mut buf = BytePacketBuffer::new();
    header.write(&mut buf).unwrap();
    buf.seek(0).unwrap();

    let mut decoded = DNSHeader::new();
    decoded.read(&mut buf).unwrap();

    assert_eq!(decoded.id, 0xABCD);
    assert!(decoded.response);
    assert_eq!(decoded.opcode, 0xF);
    assert!(decoded.authoritative_answer);
    assert!(decoded.truncated_message);
    assert!(decoded.recursion_desired);
    assert!(decoded.recursion_available);
    assert!(decoded.z);
    assert!(decoded.checking_disabled);
    assert!(decoded.authed_data);
    assert_eq!(decoded.rescode, ResultCode::REFUSED);
    assert_eq!(decoded.questions, 3);
    assert_eq!(decoded.answers, 2);
    assert_eq!(decoded.authoritative_entries, 7);
    assert_eq!(decoded.additional_entries, 1);
}

#[test]
fn label_limit_sixty_four_fails() {
    let mut buf = BytePacketBuffer::new();
    let long = "a".repeat(64);
    assert_eq!(buf.write_qname(&long), Err(PacketError::InvalidInput));
}

#[test]
fn label_limit_sixty_three_succeeds() {
    let mut buf = BytePacketBuffer::new();
    let edge = "a".repeat(63);
    assert!(buf.write_qname(&edge).is_ok());
    // Length byte, 63 label bytes, terminating zero.
    assert_eq!(buf.pos(), 65);
    assert_eq!(buf.get(0).unwrap(), 63);
    assert_eq!(buf.get(64).unwrap(), 0);
}

#[test]
fn header_read_near_end_is_out_of_range() {
    // Fewer than 12 readable bytes left: the header read must fail with the
    // out-of-range condition instead of reading garbage.
    let mut buf = BytePacketBuffer::new();
    buf.seek(505).unwrap();
    let mut header = DNSHeader::new();
    let r = header.read(&mut buf);
    assert!(matches!(r, Err(PacketError::OutOfRange(_))));
}

#[test]
fn concrete_query_decodes() {
    let bytes: Vec<u8> = vec![
        0x00, 0x01, 0x01, 0x00, 0x00, 0x01, 0x00, 0x00, 0x00, 0x00, 0x00, 0x00, 0x03, b'w',
        b'w', b'w', 0x07, b'e', b'x', b'a', b'm', b'p', b'l', b'e', 0x03, b'c', b'o', b'm',
        0x00, 0x00, 0x01, 0x00, 0x01,
    ];
    let mut buf = buffer_with(&bytes);
    let packet = DNSPacket::from_buffer(&mut buf).unwrap();
    assert_eq!(packet.header.id, 1);
    assert!(packet.header.recursion_desired);
    assert_eq!(packet.header.opcode, 0);
    assert_eq!(packet.header.questions, 1);
    assert_eq!(packet.questions.len(), 1);
    assert_eq!(packet.questions[0].name, "www.example.com");
    assert_eq!(packet.questions[0].q_type, QueryType::A);
}

#[test]
fn name_compression_decodes_both_questions() {
    // Two questions; the second name is a pointer to the first.
    let mut bytes: Vec<u8> = vec![
        0x12, 0x34, 0x00, 0x00, 0x00, 0x02, 0x00, 0x00, 0x00, 0x00, 0x00, 0x00,
    ];
    bytes.extend_from_slice(&[
        0x03, b'w', b'w', b'w', 0x07, b'e', b'x', b'a', b'm', b'p', b'l', b'e', 0x03, b'c',
        b'o', b'm', 0x00, 0x00, 0x01, 0x00, 0x01,
    ]);
    bytes.extend_from_slice(&[0xC0, 0x0C, 0x00, 0x01, 0x00, 0x01]);
    let mut buf = buffer_with(&bytes);
    let packet = DNSPacket::from_buffer(&mut buf).unwrap();
    assert_eq!(packet.questions.len(), 2);
    assert_eq!(packet.questions[0].name, "www.example.com");
    assert_eq!(packet.questions[1].name, "www.example.com");
}

#[test]
fn decoded_names_are_lowercased() {
    let bytes: Vec<u8> = vec![0x03, b'W', b'W', b'W', 0x03, b'A', b'b', b'C', 0x00];
    let mut buf = buffer_with(&bytes);
    let mut name = String::new();
    buf.read_qname(&mut name).unwrap();
    assert_eq!(name, "www.abc");
    assert_eq!(buf.pos(), 9);
}

#[test]
fn pointer_cycle_is_rejected() {
    // A name that is a compression pointer to itself must fail instead of
    // looping forever.
    let mut buf = BytePacketBuffer::new();
    buf.set(12, 0xC0).unwrap();
    buf.set(13, 0x0C).unwrap();
    buf.seek(12).unwrap();
    let mut name = String::new();
    assert_eq!(buf.read_qname(&mut name), Err(PacketError::PointerLoop));
    assert_eq!(name, "");
}

#[test]
fn ns_record_length_is_patched() {
    let record = DNSRecord::NS {
        domain: "example.com".to_string(),
        host: "ns1.example.com".to_string(),
        ttl: TransientTTL(300),
    };
    let mut buf = BytePacketBuffer::new();
    let written = record.write(&mut buf).unwrap();
    // Owner name takes 13 bytes, fixed fields 8, host name 17.
    assert_eq!(written, 40);
    // The patched rdlength sits after name + type + class + ttl and must be
    // the exact byte count of the encoded host name, not zero.
    assert_eq!(buf.get(21).unwrap(), 0);
    assert_eq!(buf.get(22).unwrap(), 17);
}

#[test]
fn message_round_trip() {
    let mut packet = DNSPacket::new();
    packet.header.id = 0x4242;
    packet.header.recursion_desired = true;
    packet.questions.push(DNSQuestion::new("example.com".to_string(), QueryType::A));
    packet.answers.push(DNSRecord::A {
        domain: "example.com".to_string(),
        addr: Ipv4Address { octets: (93, 184, 216, 34) },
        ttl: TransientTTL(3600),
    });
    packet.authorities.push(DNSRecord::NS {
        domain: "example.com".to_string(),
        host: "ns1.example.com".to_string(),
        ttl: TransientTTL(86400),
    });
    packet.additional.push(DNSRecord::TXT {
        domain: "example.com".to_string(),
        data: "v=spf1 -all".to_string(),
        ttl: TransientTTL(60),
    });

    let mut buf = BytePacketBuffer::new();
    packet.write(&mut buf).unwrap();
    buf.seek(0).unwrap();
    let decoded = DNSPacket::from_buffer(&mut buf).unwrap();

    assert_eq!(decoded.header.id, 0x4242);
    assert!(decoded.header.recursion_desired);
    assert_eq!(decoded.header.questions, 1);
    assert_eq!(decoded.header.answers, 1);
    assert_eq!(decoded.header.authoritative_entries, 1);
    assert_eq!(decoded.header.additional_entries, 1);
    assert_eq!(decoded.questions, packet.questions);
    assert_eq!(decoded.answers, packet.answers);
    assert_eq!(decoded.authorities, packet.authorities);
    assert_eq!(decoded.additional, packet.additional);
}

#[test]
fn round_trip_more_record_types() {
    let mut packet = DNSPacket::new();
    packet.answers.push(DNSRecord::CNAME {
        domain: "www.example.com".to_string(),
        host: "example.com".to_string(),
        ttl: TransientTTL(5),
    });
    packet.answers.push(DNSRecord::MX {
        domain: "example.com".to_string(),
        priority: 10,
        host: "mail.example.com".to_string(),
        ttl: TransientTTL(5),
    });
    packet.answers.push(DNSRecord::SRV {
        domain: "_sip._tcp.example.com".to_string(),
        priority: 1,
        weight: 2,
        port: 5060,
        host: "sip.example.com".to_string(),
        ttl: TransientTTL(5),
    });
    packet.answers.push(DNSRecord::SOA {
        domain: "example.com".to_string(),
        m_name: "ns1.example.com".to_string(),
        r_name: "hostmaster.example.com".to_string(),
        serial: 2024,
        refresh: 7200,
        retry: 3600,
        expire: 1209600,
        minimum: 300,
        ttl: TransientTTL(5),
    });
    packet.answers.push(DNSRecord::AAAA {
        domain: "example.com".to_string(),
        addr: dns_codec::protocol::Ipv6Address {
            segments: (0x2606, 0x2800, 0x220, 0x1, 0x248, 0x1893, 0x25c8, 0x1946),
        },
        ttl: TransientTTL(5),
    });

    let mut buf = BytePacketBuffer::new();
    packet.write(&mut buf).unwrap();
    buf.seek(0).unwrap();
    let decoded = DNSPacket::from_buffer(&mut buf).unwrap();
    assert_eq!(decoded.answers, packet.answers);
}

#[test]
fn ttl_is_transient_for_equality() {
    assert_eq!(TransientTTL(1), TransientTTL(999999));
    let a = DNSRecord::A {
        domain: "example.com".to_string(),
        addr: Ipv4Address { octets: (1, 2, 3, 4) },
        ttl: TransientTTL(60),
    };
    let b = DNSRecord::A {
        domain: "example.com".to_string(),
        addr: Ipv4Address { octets: (1, 2, 3, 4) },
        ttl: TransientTTL(3600),
    };
    assert_eq!(a, b);
}

#[test]
fn unsupported_types_fail_on_write() {
    let mut buf = BytePacketBuffer::new();
    let opt = DNSRecord::OPT { packet_len: 512, flags: 0, data: String::new() };
    assert_eq!(opt.write(&mut buf), Err(PacketError::UnsupportedWrite));
    let unknown = DNSRecord::UNKNOWN {
        domain: "example.com".to_string(),
        q_type: 99,
        data_len: 4,
        ttl: TransientTTL(0),
    };
    assert_eq!(unknown.write(&mut buf), Err(PacketError::UnsupportedWrite));
}

#[test]
fn query_type_codes_round_trip() {
    let cases = [
        (QueryType::A, 1),
        (QueryType::NS, 2),
        (QueryType::CNAME, 5),
        (QueryType::SOA, 6),
        (QueryType::MX, 15),
        (QueryType::TXT, 16),
        (QueryType::AAAA, 28),
        (QueryType::SRV, 33),
        (QueryType::OPT, 44),
        (QueryType::UNKNOWN(999), 999),
    ];
    for (qt, num) in cases {
        assert_eq!(qt.to_num(), num);
        assert_eq!(QueryType::from_num(num), qt);
    }
}

#[test]
fn result_code_unassigned_values_fall_back() {
    assert_eq!(ResultCode::from_num(0), ResultCode::NOERROR);
    assert_eq!(ResultCode::from_num(5), ResultCode::REFUSED);
    assert_eq!(ResultCode::from_num(9), ResultCode::NOERROR);
    assert_eq!(ResultCode::from_num(15), ResultCode::NOERROR);
}

#[test]
fn empty_name_is_bare_terminator() {
    let mut buf = BytePacketBuffer::new();
    buf.write_qname("").unwrap();
    assert_eq!(buf.pos(), 1);
    assert_eq!(buf.get(0).unwrap(), 0);
}

#[test]
fn record_getters() {
    let rec = DNSRecord::MX {
        domain: "example.com".to_string(),
        priority: 10,
        host: "mail.example.com".to_string(),
        ttl: TransientTTL(5),
    };
    assert_eq!(rec.get_query_type(), QueryType::MX);
    assert_eq!(rec.get_domain(), Some("example.com".to_string()));
    let opt = DNSRecord::OPT { packet_len: 512, flags: 0, data: String::new() };
    assert_eq!(opt.get_query_type(), QueryType::OPT);
    assert_eq!(opt.get_domain(), None);
    let unknown = DNSRecord::UNKNOWN {
        domain: "x".to_string(),
        q_type: 77,
        data_len: 0,
        ttl: TransientTTL(0),
    };
    assert_eq!(unknown.get_query_type(), QueryType::UNKNOWN(77));
}

#[test]
fn unknown_record_payload_is_skipped() {
    // A record of an unrecognized type: its payload is skipped, and the
    // following record is still decoded correctly.
    let mut bytes: Vec<u8> = vec![
        0x00, 0x07, 0x80, 0x00, 0x00, 0x00, 0x00, 0x02, 0x00, 0x00, 0x00, 0x00,
    ];
    // Answer 1: type 99, rdlength 4, 4 payload bytes.
    bytes.extend_from_slice(&[
        0x01, b'x', 0x00, 0x00, 0x63, 0x00, 0x01, 0x00, 0x00, 0x00, 0x05, 0x00, 0x04, 0xDE,
        0xAD, 0xBE, 0xEF,
    ]);
    // Answer 2: an A record 1.2.3.4 for "x".
    bytes.extend_from_slice(&[
        0x01, b'x', 0x00, 0x00, 0x01, 0x00, 0x01, 0x00, 0x00, 0x00, 0x05, 0x00, 0x04, 1, 2, 3,
        4,
    ]);
    let mut buf = buffer_with(&bytes);
    let packet = DNSPacket::from_buffer(&mut buf).unwrap();
    assert_eq!(packet.answers.len(), 2);
    assert_eq!(
        packet.answers[0],
        DNSRecord::UNKNOWN {
            domain: "x".to_string(),
            q_type: 99,
            data_len: 4,
            ttl: TransientTTL(5),
        }
    );
    assert_eq!(
        packet.answers[1],
        DNSRecord::A {
            domain: "x".to_string(),
            addr: Ipv4Address { octets: (1, 2, 3, 4) },
            ttl: TransientTTL(5),
        }
    );
}
