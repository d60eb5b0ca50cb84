//! The resource-record codec: a tagged variant per supported record type,
//! each with its own payload layout, and an opaque fallback for unknown
//! types.
//!
//! Variable-size payloads are encoded with a two-pass strategy: a zero
//! placeholder is written where the data length belongs, the payload is
//! written, and the placeholder is patched with the actual byte count.

use vstd::prelude::*;
use crate::buffer::{BufModel, PacketBuffer, PacketError};
use crate::name::{spec_parse_name, spec_write_name, txt_chars};
use crate::protocol::{
    spec_qtype_from_num, spec_qtype_num, Ipv4Address, Ipv6Address, QueryType, TransientTTL,
};

verus! {

/// The mathematical value of a resource record: the record's fields with
/// names and text as character sequences and the time-to-live as its plain
/// wire value.
pub enum RecordV {
    UNKNOWN { domain: Seq<char>, q_type: u16, data_len: u16, ttl: u32 },
    A { domain: Seq<char>, addr: Ipv4Address, ttl: u32 },
    NS { domain: Seq<char>, host: Seq<char>, ttl: u32 },
    CNAME { domain: Seq<char>, host: Seq<char>, ttl: u32 },
    SOA {
        domain: Seq<char>,
        m_name: Seq<char>,
        r_name: Seq<char>,
        serial: u32,
        refresh: u32,
        retry: u32,
        expire: u32,
        minimum: u32,
        ttl: u32,
    },
    MX { domain: Seq<char>, priority: u16, host: Seq<char>, ttl: u32 },
    TXT { domain: Seq<char>, data: Seq<char>, ttl: u32 },
    AAAA { domain: Seq<char>, addr: Ipv6Address, ttl: u32 },
    SRV {
        domain: Seq<char>,
        priority: u16,
        weight: u16,
        port: u16,
        host: Seq<char>,
        ttl: u32,
    },
    OPT { packet_len: u16, flags: u32, data: Seq<char> },
}

/// A resource record.  The `UNKNOWN` variant captures the domain, raw type
/// code and payload length of a type without a dedicated decoder; its
/// payload bytes are skipped, not retained.  For `OPT` the wire class and
/// time-to-live fields are overloaded as `packet_len` and `flags`.
#[derive(Clone, Debug, PartialEq, Eq)]
pub enum DNSRecord {
    UNKNOWN { domain: String, q_type: u16, data_len: u16, ttl: TransientTTL },
    A { domain: String, addr: Ipv4Address, ttl: TransientTTL },
    NS { domain: String, host: String, ttl: TransientTTL },
    CNAME { domain: String, host: String, ttl: TransientTTL },
    SOA {
        domain: String,
        m_name: String,
        r_name: String,
        serial: u32,
        refresh: u32,
        retry: u32,
        expire: u32,
        minimum: u32,
        ttl: TransientTTL,
    },
    MX { domain: String, priority: u16, host: String, ttl: TransientTTL },
    TXT { domain: String, data: String, ttl: TransientTTL },
    AAAA { domain: String, addr: Ipv6Address, ttl: TransientTTL },
    SRV {
        domain: String,
        priority: u16,
        weight: u16,
        port: u16,
        host: String,
        ttl: TransientTTL,
    },
    OPT { packet_len: u16, flags: u32, data: String },
}

impl View for DNSRecord {
    type V = RecordV;

    open spec fn view(&self) -> RecordV {
        match self {
            DNSRecord::UNKNOWN { domain, q_type, data_len, ttl } => RecordV::UNKNOWN {
                domain: domain@,
                q_type: *q_type,
                data_len: *data_len,
                ttl: ttl.0,
            },
            DNSRecord::A { domain, addr, ttl } => RecordV::A {
                domain: domain@,
                addr: *addr,
                ttl: ttl.0,
            },
            DNSRecord::NS { domain, host, ttl } => RecordV::NS {
                domain: domain@,
                host: host@,
                ttl: ttl.0,
            },
            DNSRecord::CNAME { domain, host, ttl } => RecordV::CNAME {
                domain: domain@,
                host: host@,
                ttl: ttl.0,
            },
            DNSRecord::SOA {
                domain,
                m_name,
                r_name,
                serial,
                refresh,
                retry,
                expire,
                minimum,
                ttl,
            } => RecordV::SOA {
                domain: domain@,
                m_name: m_name@,
                r_name: r_name@,
                serial: *serial,
                refresh: *refresh,
                retry: *retry,
                expire: *expire,
                minimum: *minimum,
                ttl: ttl.0,
            },
            DNSRecord::MX { domain, priority, host, ttl } => RecordV::MX {
                domain: domain@,
                priority: *priority,
                host: host@,
                ttl: ttl.0,
            },
            DNSRecord::TXT { domain, data, ttl } => RecordV::TXT {
                domain: domain@,
                data: data@,
                ttl: ttl.0,
            },
            DNSRecord::AAAA { domain, addr, ttl } => RecordV::AAAA {
                domain: domain@,
                addr: *addr,
                ttl: ttl.0,
            },
            DNSRecord::SRV { domain, priority, weight, port, host, ttl } => RecordV::SRV {
                domain: domain@,
                priority: *priority,
                weight: *weight,
                port: *port,
                host: host@,
                ttl: ttl.0,
            },
            DNSRecord::OPT { packet_len, flags, data } => RecordV::OPT {
                packet_len: *packet_len,
                flags: *flags,
                data: data@,
            },
        }
    }
}

/// Reading one (possibly compressed) name at the cursor into fresh text.
pub open spec fn spec_read_name(b: BufModel) -> (Result<Seq<char>, PacketError>, BufModel) {
    let (rn, cur) = spec_parse_name(b.bytes, b.pos, Seq::<char>::empty());
    (rn, BufModel { bytes: b.bytes, pos: cur })
}

/// Reading one resource record at the cursor: the common preamble (name,
/// type, class, time-to-live, data length), then the type-specific payload.
pub open spec fn spec_read_record(b: BufModel) -> (Result<RecordV, PacketError>, BufModel) {
    let (rn, b1) = spec_read_name(b);
    match rn {
        Err(e) => (Err(e), b1),
        Ok(domain) => {
            let (r2, b2) = b1.spec_read_u16();
            match r2 {
                Err(e) => (Err(e), b2),
                Ok(qnum) => {
                    let (r3, b3) = b2.spec_read_u16();
                    match r3 {
                        Err(e) => (Err(e), b3),
                        Ok(class) => {
                            let (r4, b4) = b3.spec_read_u32();
                            match r4 {
                                Err(e) => (Err(e), b4),
                                Ok(ttl) => {
                                    let (r5, b5) = b4.spec_read_u16();
                                    match r5 {
                                        Err(e) => (Err(e), b5),
                                        Ok(data_len) => spec_read_record_payload(
                                            b5,
                                            domain,
                                            qnum,
                                            class,
                                            ttl,
                                            data_len,
                                        ),
                                    }
                                },
                            }
                        },
                    }
                },
            }
        },
    }
}

/// Reading the type-specific payload of a record whose preamble has been
/// read.
pub open spec fn spec_read_record_payload(
    b: BufModel,
    domain: Seq<char>,
    qnum: u16,
    class: u16,
    ttl: u32,
    data_len: u16,
) -> (Result<RecordV, PacketError>, BufModel) {
    let qt = spec_qtype_from_num(qnum);
    match qt {
        QueryType::A => {
            let (r, b1) = b.spec_read_u32();
            match r {
                Err(e) => (Err(e), b1),
                Ok(raw) => (
                    Ok(
                        RecordV::A {
                            domain,
                            addr: Ipv4Address {
                                octets: (
                                    ((raw >> 24) & 0xFF) as u8,
                                    ((raw >> 16) & 0xFF) as u8,
                                    ((raw >> 8) & 0xFF) as u8,
                                    (raw & 0xFF) as u8,
                                ),
                            },
                            ttl,
                        },
                    ),
                    b1,
                ),
            }
        },
        QueryType::AAAA => {
            let (r1, b1) = b.spec_read_u32();
            match r1 {
                Err(e) => (Err(e), b1),
                Ok(raw1) => {
                    let (r2, b2) = b1.spec_read_u32();
                    match r2 {
                        Err(e) => (Err(e), b2),
                        Ok(raw2) => {
                            let (r3, b3) = b2.spec_read_u32();
                            match r3 {
                                Err(e) => (Err(e), b3),
                                Ok(raw3) => {
                                    let (r4, b4) = b3.spec_read_u32();
                                    match r4 {
                                        Err(e) => (Err(e), b4),
                                        Ok(raw4) => (
                                            Ok(
                                                RecordV::AAAA {
                                                    domain,
                                                    addr: Ipv6Address {
                                                        segments: (
                                                            ((raw1 >> 16) & 0xFFFF) as u16,
                                                            (raw1 & 0xFFFF) as u16,
                                                            ((raw2 >> 16) & 0xFFFF) as u16,
                                                            (raw2 & 0xFFFF) as u16,
                                                            ((raw3 >> 16) & 0xFFFF) as u16,
                                                            (raw3 & 0xFFFF) as u16,
                                                            ((raw4 >> 16) & 0xFFFF) as u16,
                                                            (raw4 & 0xFFFF) as u16,
                                                        ),
                                                    },
                                                    ttl,
                                                },
                                            ),
                                            b4,
                                        ),
                                    }
                                },
                            }
                        },
                    }
                },
            }
        },
        QueryType::NS => {
            let (r, b1) = spec_read_name(b);
            match r {
                Err(e) => (Err(e), b1),
                Ok(host) => (Ok(RecordV::NS { domain, host, ttl }), b1),
            }
        },
        QueryType::CNAME => {
            let (r, b1) = spec_read_name(b);
            match r {
                Err(e) => (Err(e), b1),
                Ok(host) => (Ok(RecordV::CNAME { domain, host, ttl }), b1),
            }
        },
        QueryType::SRV => {
            let (r1, b1) = b.spec_read_u16();
            match r1 {
                Err(e) => (Err(e), b1),
                Ok(priority) => {
                    let (r2, b2) = b1.spec_read_u16();
                    match r2 {
                        Err(e) => (Err(e), b2),
                        Ok(weight) => {
                            let (r3, b3) = b2.spec_read_u16();
                            match r3 {
                                Err(e) => (Err(e), b3),
                                Ok(port) => {
                                    let (r4, b4) = spec_read_name(b3);
                                    match r4 {
                                        Err(e) => (Err(e), b4),
                                        Ok(host) => (
                                            Ok(
                                                RecordV::SRV {
                                                    domain,
                                                    priority,
                                                    weight,
                                                    port,
                                                    host,
                                                    ttl,
                                                },
                                            ),
                                            b4,
                                        ),
                                    }
                                },
                            }
                        },
                    }
                },
            }
        },
        QueryType::MX => {
            let (r1, b1) = b.spec_read_u16();
            match r1 {
                Err(e) => (Err(e), b1),
                Ok(priority) => {
                    let (r2, b2) = spec_read_name(b1);
                    match r2 {
                        Err(e) => (Err(e), b2),
                        Ok(host) => (Ok(RecordV::MX { domain, priority, host, ttl }), b2),
                    }
                },
            }
        },
        QueryType::SOA => {
            let (r1, b1) = spec_read_name(b);
            match r1 {
                Err(e) => (Err(e), b1),
                Ok(m_name) => {
                    let (r2, b2) = spec_read_name(b1);
                    match r2 {
                        Err(e) => (Err(e), b2),
                        Ok(r_name) => {
                            let (r3, b3) = b2.spec_read_u32();
                            match r3 {
                                Err(e) => (Err(e), b3),
                                Ok(serial) => {
                                    let (r4, b4) = b3.spec_read_u32();
                                    match r4 {
                                        Err(e) => (Err(e), b4),
                                        Ok(refresh) => {
                                            let (r5, b5) = b4.spec_read_u32();
                                            match r5 {
                                                Err(e) => (Err(e), b5),
                                                Ok(retry) => {
                                                    let (r6, b6) = b5.spec_read_u32();
                                                    match r6 {
                                                        Err(e) => (Err(e), b6),
                                                        Ok(expire) => {
                                                            let (r7, b7) = b6.spec_read_u32();
                                                            match r7 {
                                                                Err(e) => (Err(e), b7),
                                                                Ok(minimum) => (
                                                                    Ok(
                                                                        RecordV::SOA {
                                                                            domain,
                                                                            m_name,
                                                                            r_name,
                                                                            serial,
                                                                            refresh,
                                                                            retry,
                                                                            expire,
                                                                            minimum,
                                                                            ttl,
                                                                        },
                                                                    ),
                                                                    b7,
                                                                ),
                                                            }
                                                        },
                                                    }
                                                },
                                            }
                                        },
                                    }
                                },
                            }
                        },
                    }
                },
            }
        },
        QueryType::TXT => {
            match b.spec_get_range(b.pos, data_len as int) {
                Err(e) => (Err(e), b),
                Ok(raw) => (
                    Ok(RecordV::TXT { domain, data: txt_chars(raw), ttl }),
                    b.spec_step(data_len as int),
                ),
            }
        },
        QueryType::OPT => {
            match b.spec_get_range(b.pos, data_len as int) {
                Err(e) => (Err(e), b),
                Ok(raw) => (
                    Ok(RecordV::OPT { packet_len: class, flags: ttl, data: txt_chars(raw) }),
                    b.spec_step(data_len as int),
                ),
            }
        },
        QueryType::UNKNOWN(_) => (
            Ok(RecordV::UNKNOWN { domain, q_type: qnum, data_len, ttl }),
            b.spec_step(data_len as int),
        ),
    }
}

impl DNSRecord {
    /// Reads one resource record at the cursor.
    #[verifier::rlimit(100)]
    pub fn read<T: PacketBuffer>(buffer: &mut T) -> (r: Result<DNSRecord, PacketError>)
        requires
            old(buffer).inv(),
        ensures
            final(buffer).inv(),
            ({
                let (rr, m) = spec_read_record(old(buffer).model());
                &&& final(buffer).model() == m
                &&& match (r, rr) {
                    (Ok(rec), Ok(v)) => rec@ == v,
                    (Err(e1), Err(e2)) => e1 == e2,
                    _ => false,
                }
            }),
    {
        let mut domain = String::new();
        buffer.read_qname(&mut domain)?;

        let q_type_num = buffer.read_u16()?;
        let q_type = QueryType::from_num(q_type_num);
        let class = buffer.read_u16()?;
        let ttl_num = buffer.read_u32()?;
        let ttl = TransientTTL(ttl_num);
        let data_len = buffer.read_u16()?;

        match q_type {
            QueryType::A => {
                let raw_addr = buffer.read_u32()?;
                let addr = Ipv4Address {
                    octets: (
                        ((raw_addr >> 24) & 0xFF) as u8,
                        ((raw_addr >> 16) & 0xFF) as u8,
                        ((raw_addr >> 8) & 0xFF) as u8,
                        (raw_addr & 0xFF) as u8,
                    ),
                };
                Ok(DNSRecord::A { domain, addr, ttl })
            },
            QueryType::AAAA => {
                let raw_addr1 = buffer.read_u32()?;
                let raw_addr2 = buffer.read_u32()?;
                let raw_addr3 = buffer.read_u32()?;
                let raw_addr4 = buffer.read_u32()?;
                let addr = Ipv6Address {
                    segments: (
                        ((raw_addr1 >> 16) & 0xFFFF) as u16,
                        (raw_addr1 & 0xFFFF) as u16,
                        ((raw_addr2 >> 16) & 0xFFFF) as u16,
                        (raw_addr2 & 0xFFFF) as u16,
                        ((raw_addr3 >> 16) & 0xFFFF) as u16,
                        (raw_addr3 & 0xFFFF) as u16,
                        ((raw_addr4 >> 16) & 0xFFFF) as u16,
                        (raw_addr4 & 0xFFFF) as u16,
                    ),
                };
                Ok(DNSRecord::AAAA { domain, addr, ttl })
            },
            QueryType::NS => {
                let mut host = String::new();
                buffer.read_qname(&mut host)?;
                Ok(DNSRecord::NS { domain, host, ttl })
            },
            QueryType::CNAME => {
                let mut host = String::new();
                buffer.read_qname(&mut host)?;
                Ok(DNSRecord::CNAME { domain, host, ttl })
            },
            QueryType::SRV => {
                let priority = buffer.read_u16()?;
                let weight = buffer.read_u16()?;
                let port = buffer.read_u16()?;

                let mut host = String::new();
                buffer.read_qname(&mut host)?;

                Ok(DNSRecord::SRV { domain, priority, weight, port, host, ttl })
            },
            QueryType::MX => {
                let priority = buffer.read_u16()?;

                let mut host = String::new();
                buffer.read_qname(&mut host)?;

                Ok(DNSRecord::MX { domain, priority, host, ttl })
            },
            QueryType::SOA => {
                let mut m_name = String::new();
                buffer.read_qname(&mut m_name)?;

                let mut r_name = String::new();
                buffer.read_qname(&mut r_name)?;

                let serial = buffer.read_u32()?;
                let refresh = buffer.read_u32()?;
                let retry = buffer.read_u32()?;
                let expire = buffer.read_u32()?;
                let minimum = buffer.read_u32()?;

                Ok(
                    DNSRecord::SOA {
                        domain,
                        m_name,
                        r_name,
                        serial,
                        refresh,
                        retry,
                        expire,
                        minimum,
                        ttl,
                    },
                )
            },
            QueryType::TXT => {
                let pos = buffer.pos();
                let raw = buffer.get_range(pos, data_len as usize)?;
                let data = crate::name::utf8_lossy(raw);
                buffer.step(data_len as usize)?;

                Ok(DNSRecord::TXT { domain, data, ttl })
            },
            QueryType::OPT => {
                let pos = buffer.pos();
                let raw = buffer.get_range(pos, data_len as usize)?;
                let data = crate::name::utf8_lossy(raw);
                buffer.step(data_len as usize)?;

                Ok(DNSRecord::OPT { packet_len: class, flags: ttl_num, data })
            },
            QueryType::UNKNOWN(_) => {
                buffer.step(data_len as usize)?;
                Ok(DNSRecord::UNKNOWN { domain, q_type: q_type_num, data_len, ttl })
            },
        }
    }
}

// ---------------------------------------------------------------------------
// Writing
// ---------------------------------------------------------------------------

/// Writes a record's common preamble: the owning name, the type code, class
/// 1, and the time-to-live.
pub open spec fn spec_write_preamble(b: BufModel, domain: Seq<char>, qnum: u16, ttl: u32) -> (
    Result<(), PacketError>,
    BufModel,
) {
    let (r1, b1) = spec_write_name(b, vstd::utf8::encode_utf8(domain));
    match r1 {
        Err(e) => (Err(e), b1),
        Ok(_) => {
            let (r2, b2) = b1.spec_write_u16(qnum);
            match r2 {
                Err(e) => (Err(e), b2),
                Ok(_) => {
                    let (r3, b3) = b2.spec_write_u16(1);
                    match r3 {
                        Err(e) => (Err(e), b3),
                        Ok(_) => b3.spec_write_u32(ttl),
                    }
                },
            }
        },
    }
}

/// Patches the reserved length field at `pos0` with the byte count written
/// after it, and yields the record's total length from `start`.
pub open spec fn spec_patch_len(b: BufModel, pos0: int, start: int) -> (Result<
    int,
    PacketError,
>, BufModel) {
    let (r, b2) = b.spec_set_u16(pos0, ((b.pos - (pos0 + 2)) as u16));
    match r {
        Err(e) => (Err(e), b2),
        Ok(_) => (Ok(b2.pos - start), b2),
    }
}

/// The wire form of an `A` record: preamble, the constant data length 4,
/// and the four address octets.
pub open spec fn spec_write_a_record(b: BufModel, domain: Seq<char>, addr: Ipv4Address, ttl: u32) -> (
    Result<int, PacketError>,
    BufModel,
) {
    let (r1, b1) = spec_write_preamble(b, domain, spec_qtype_num(QueryType::A), ttl);
    match r1 {
        Err(e) => (Err(e), b1),
        Ok(_) => {
            let (r2, b2) = b1.spec_write_u16(4);
            match r2 {
                Err(e) => (Err(e), b2),
                Ok(_) => {
                    let (r3, b3) = b2.spec_write(addr.octets.0);
                    match r3 {
                        Err(e) => (Err(e), b3),
                        Ok(_) => {
                            let (r4, b4) = b3.spec_write(addr.octets.1);
                            match r4 {
                                Err(e) => (Err(e), b4),
                                Ok(_) => {
                                    let (r5, b5) = b4.spec_write(addr.octets.2);
                                    match r5 {
                                        Err(e) => (Err(e), b5),
                                        Ok(_) => {
                                            let (r6, b6) = b5.spec_write(addr.octets.3);
                                            match r6 {
                                                Err(e) => (Err(e), b6),
                                                Ok(_) => (Ok(b6.pos - b.pos), b6),
                                            }
                                        },
                                    }
                                },
                            }
                        },
                    }
                },
            }
        },
    }
}

/// The wire form of an `AAAA` record: preamble, the constant data length
/// 16, and the eight address segments.
pub open spec fn spec_write_aaaa_record(
    b: BufModel,
    domain: Seq<char>,
    addr: Ipv6Address,
    ttl: u32,
) -> (Result<int, PacketError>, BufModel) {
    let (r1, b1) = spec_write_preamble(b, domain, spec_qtype_num(QueryType::AAAA), ttl);
    match r1 {
        Err(e) => (Err(e), b1),
        Ok(_) => {
            let (r2, b2) = b1.spec_write_u16(16);
            match r2 {
                Err(e) => (Err(e), b2),
                Ok(_) => {
                    let (r3, b3) = b2.spec_write_u16(addr.segments.0);
                    match r3 {
                        Err(e) => (Err(e), b3),
                        Ok(_) => {
                            let (r4, b4) = b3.spec_write_u16(addr.segments.1);
                            match r4 {
                                Err(e) => (Err(e), b4),
                                Ok(_) => {
                                    let (r5, b5) = b4.spec_write_u16(addr.segments.2);
                                    match r5 {
                                        Err(e) => (Err(e), b5),
                                        Ok(_) => {
                                            let (r6, b6) = b5.spec_write_u16(addr.segments.3);
                                            match r6 {
                                                Err(e) => (Err(e), b6),
                                                Ok(_) => {
                                                    let (r7, b7) = b6.spec_write_u16(
                                                        addr.segments.4,
                                                    );
                                                    match r7 {
                                                        Err(e) => (Err(e), b7),
                                                        Ok(_) => {
                                                            let (r8, b8) = b7.spec_write_u16(
                                                                addr.segments.5,
                                                            );
                                                            match r8 {
                                                                Err(e) => (Err(e), b8),
                                                                Ok(_) => {
                                                                    let (r9, b9) =
                                                                        b8.spec_write_u16(
                                                                        addr.segments.6,
                                                                    );
                                                                    match r9 {
                                                                        Err(e) => (Err(e), b9),
                                                                        Ok(_) => {
                                                                            let (r10, b10) =
                                                                                b9.spec_write_u16(
                                                                                addr.segments.7,
                                                                            );
                                                                            match r10 {
                                                                                Err(e) => (
                                                                                    Err(e),
                                                                                    b10,
                                                                                ),
                                                                                Ok(_) => (
                                                                                    Ok(
                                                                                        b10.pos
                                                                                            - b.pos,
                                                                                    ),
                                                                                    b10,
                                                                                ),
                                                                            }
                                                                        },
                                                                    }
                                                                },
                                                            }
                                                        },
                                                    }
                                                },
                                            }
                                        },
                                    }
                                },
                            }
                        },
                    }
                },
            }
        },
    }
}

/// The wire form of a record that carries one target name (`NS`, `CNAME`):
/// preamble, a patched length, and the host's name.
pub open spec fn spec_write_host_record(
    b: BufModel,
    domain: Seq<char>,
    qnum: u16,
    ttl: u32,
    host: Seq<char>,
) -> (Result<int, PacketError>, BufModel) {
    let (r1, b1) = spec_write_preamble(b, domain, qnum, ttl);
    match r1 {
        Err(e) => (Err(e), b1),
        Ok(_) => {
            let pos0 = b1.pos;
            let (r2, b2) = b1.spec_write_u16(0);
            match r2 {
                Err(e) => (Err(e), b2),
                Ok(_) => {
                    let (r3, b3) = spec_write_name(b2, vstd::utf8::encode_utf8(host));
                    match r3 {
                        Err(e) => (Err(e), b3),
                        Ok(_) => spec_patch_len(b3, pos0, b.pos),
                    }
                },
            }
        },
    }
}

/// The wire form of an `MX` record: preamble, a patched length, the
/// priority, and the exchange host's name.
pub open spec fn spec_write_mx_record(
    b: BufModel,
    domain: Seq<char>,
    priority: u16,
    host: Seq<char>,
    ttl: u32,
) -> (Result<int, PacketError>, BufModel) {
    let (r1, b1) = spec_write_preamble(b, domain, spec_qtype_num(QueryType::MX), ttl);
    match r1 {
        Err(e) => (Err(e), b1),
        Ok(_) => {
            let pos0 = b1.pos;
            let (r2, b2) = b1.spec_write_u16(0);
            match r2 {
                Err(e) => (Err(e), b2),
                Ok(_) => {
                    let (r3, b3) = b2.spec_write_u16(priority);
                    match r3 {
                        Err(e) => (Err(e), b3),
                        Ok(_) => {
                            let (r4, b4) = spec_write_name(b3, vstd::utf8::encode_utf8(host));
                            match r4 {
                                Err(e) => (Err(e), b4),
                                Ok(_) => spec_patch_len(b4, pos0, b.pos),
                            }
                        },
                    }
                },
            }
        },
    }
}

/// The wire form of an `SRV` record: preamble, a patched length, priority,
/// weight and port, and the target host's name.
pub open spec fn spec_write_srv_record(
    b: BufModel,
    domain: Seq<char>,
    priority: u16,
    weight: u16,
    port: u16,
    host: Seq<char>,
    ttl: u32,
) -> (Result<int, PacketError>, BufModel) {
    let (r1, b1) = spec_write_preamble(b, domain, spec_qtype_num(QueryType::SRV), ttl);
    match r1 {
        Err(e) => (Err(e), b1),
        Ok(_) => {
            let pos0 = b1.pos;
            let (r2, b2) = b1.spec_write_u16(0);
            match r2 {
                Err(e) => (Err(e), b2),
                Ok(_) => {
                    let (r3, b3) = b2.spec_write_u16(priority);
                    match r3 {
                        Err(e) => (Err(e), b3),
                        Ok(_) => {
                            let (r4, b4) = b3.spec_write_u16(weight);
                            match r4 {
                                Err(e) => (Err(e), b4),
                                Ok(_) => {
                                    let (r5, b5) = b4.spec_write_u16(port);
                                    match r5 {
                                        Err(e) => (Err(e), b5),
                                        Ok(_) => {
                                            let (r6, b6) = spec_write_name(
                                                b5,
                                                vstd::utf8::encode_utf8(host),
                                            );
                                            match r6 {
                                                Err(e) => (Err(e), b6),
                                                Ok(_) => spec_patch_len(b6, pos0, b.pos),
                                            }
                                        },
                                    }
                                },
                            }
                        },
                    }
                },
            }
        },
    }
}

/// The wire form of an `SOA` record: preamble, a patched length, the two
/// names, and the five 32-bit fields.
pub open spec fn spec_write_soa_record(
    b: BufModel,
    domain: Seq<char>,
    m_name: Seq<char>,
    r_name: Seq<char>,
    serial: u32,
    refresh: u32,
    retry: u32,
    expire: u32,
    minimum: u32,
    ttl: u32,
) -> (Result<int, PacketError>, BufModel) {
    let (r1, b1) = spec_write_preamble(b, domain, spec_qtype_num(QueryType::SOA), ttl);
    match r1 {
        Err(e) => (Err(e), b1),
        Ok(_) => {
            let pos0 = b1.pos;
            let (r2, b2) = b1.spec_write_u16(0);
            match r2 {
                Err(e) => (Err(e), b2),
                Ok(_) => {
                    let (r3, b3) = spec_write_name(b2, vstd::utf8::encode_utf8(m_name));
                    match r3 {
                        Err(e) => (Err(e), b3),
                        Ok(_) => {
                            let (r4, b4) = spec_write_name(b3, vstd::utf8::encode_utf8(r_name));
                            match r4 {
                                Err(e) => (Err(e), b4),
                                Ok(_) => {
                                    let (r5, b5) = b4.spec_write_u32(serial);
                                    match r5 {
                                        Err(e) => (Err(e), b5),
                                        Ok(_) => {
                                            let (r6, b6) = b5.spec_write_u32(refresh);
                                            match r6 {
                                                Err(e) => (Err(e), b6),
                                                Ok(_) => {
                                                    let (r7, b7) = b6.spec_write_u32(retry);
                                                    match r7 {
                                                        Err(e) => (Err(e), b7),
                                                        Ok(_) => {
                                                            let (r8, b8) = b7.spec_write_u32(
                                                                expire,
                                                            );
                                                            match r8 {
                                                                Err(e) => (Err(e), b8),
                                                                Ok(_) => {
                                                                    let (r9, b9) =
                                                                        b8.spec_write_u32(minimum);
                                                                    match r9 {
                                                                        Err(e) => (Err(e), b9),
                                                                        Ok(_) => spec_patch_len(
                                                                            b9,
                                                                            pos0,
                                                                            b.pos,
                                                                        ),
                                                                    }
                                                                },
                                                            }
                                                        },
                                                    }
                                                },
                                            }
                                        },
                                    }
                                },
                            }
                        },
                    }
                },
            }
        },
    }
}

/// The wire form of a `TXT` record: preamble, the text's byte count, and
/// its raw bytes.
pub open spec fn spec_write_txt_record(b: BufModel, domain: Seq<char>, data: Seq<char>, ttl: u32) -> (
    Result<int, PacketError>,
    BufModel,
) {
    let (r1, b1) = spec_write_preamble(b, domain, spec_qtype_num(QueryType::TXT), ttl);
    match r1 {
        Err(e) => (Err(e), b1),
        Ok(_) => {
            let bytes = vstd::utf8::encode_utf8(data);
            let (r2, b2) = b1.spec_write_u16((bytes.len() as u16));
            match r2 {
                Err(e) => (Err(e), b2),
                Ok(_) => {
                    let (r3, b3) = crate::name::spec_write_bytes(b2, bytes, 0, bytes.len() as int);
                    match r3 {
                        Err(e) => (Err(e), b3),
                        Ok(_) => (Ok(b3.pos - b.pos), b3),
                    }
                },
            }
        },
    }
}

/// Writing one resource record at the cursor, yielding how many bytes the
/// record occupies.  `OPT` and unknown types have no wire serialization
/// and fail.
pub open spec fn spec_write_record(b: BufModel, v: RecordV) -> (Result<int, PacketError>, BufModel) {
    match v {
        RecordV::A { domain, addr, ttl } => spec_write_a_record(b, domain, addr, ttl),
        RecordV::AAAA { domain, addr, ttl } => spec_write_aaaa_record(b, domain, addr, ttl),
        RecordV::NS { domain, host, ttl } => spec_write_host_record(
            b,
            domain,
            spec_qtype_num(QueryType::NS),
            ttl,
            host,
        ),
        RecordV::CNAME { domain, host, ttl } => spec_write_host_record(
            b,
            domain,
            spec_qtype_num(QueryType::CNAME),
            ttl,
            host,
        ),
        RecordV::MX { domain, priority, host, ttl } => spec_write_mx_record(
            b,
            domain,
            priority,
            host,
            ttl,
        ),
        RecordV::SRV { domain, priority, weight, port, host, ttl } => spec_write_srv_record(
            b,
            domain,
            priority,
            weight,
            port,
            host,
            ttl,
        ),
        RecordV::SOA {
            domain,
            m_name,
            r_name,
            serial,
            refresh,
            retry,
            expire,
            minimum,
            ttl,
        } => spec_write_soa_record(
            b,
            domain,
            m_name,
            r_name,
            serial,
            refresh,
            retry,
            expire,
            minimum,
            ttl,
        ),
        RecordV::TXT { domain, data, ttl } => spec_write_txt_record(b, domain, data, ttl),
        RecordV::OPT { .. } => (Err(PacketError::UnsupportedWrite), b),
        RecordV::UNKNOWN { .. } => (Err(PacketError::UnsupportedWrite), b),
    }
}

/// Writes the preamble shared by every record: name, type code, class 1,
/// time-to-live.
fn write_preamble<T: PacketBuffer>(
    buffer: &mut T,
    domain: &String,
    qnum: u16,
    ttl: u32,
) -> (r: Result<(), PacketError>)
    requires
        old(buffer).inv(),
    ensures
        final(buffer).inv(),
        (r, final(buffer).model()) == spec_write_preamble(old(buffer).model(), domain@, qnum, ttl),
        final(buffer).model().pos >= old(buffer).model().pos,
{
    proof {
        buffer.inv_implies_wf();
        crate::name::lemma_write_name_frame(buffer.model(), vstd::utf8::encode_utf8(domain@));
    }
    buffer.write_qname(domain.as_str())?;
    buffer.write_u16(qnum)?;
    buffer.write_u16(1)?;
    buffer.write_u32(ttl)?;
    Ok(())
}

/// Writes a host name after a reserved length field and patches the field
/// with the name's byte count; yields the cursor distance from `start_pos`.
fn write_host_and_patch<T: PacketBuffer>(
    buffer: &mut T,
    host: &String,
    pos0: usize,
    start_pos: usize,
) -> (r: Result<usize, PacketError>)
    requires
        old(buffer).inv(),
        old(buffer).model().pos == pos0 + 2,
        start_pos <= pos0,
    ensures
        final(buffer).inv(),
        ({
            let (r1, b1) = spec_write_name(old(buffer).model(), vstd::utf8::encode_utf8(host@));
            match r1 {
                Err(e) => r == Err::<usize, PacketError>(e) && final(buffer).model() == b1,
                Ok(_) => {
                    let (rr, m) = spec_patch_len(b1, pos0 as int, start_pos as int);
                    &&& final(buffer).model() == m
                    &&& match (r, rr) {
                        (Ok(n), Ok(sn)) => n as int == sn,
                        (Err(e1), Err(e2)) => e1 == e2,
                        _ => false,
                    }
                },
            }
        }),
{
    proof {
        buffer.inv_implies_wf();
    }
    let ghost m0 = buffer.model();
    buffer.write_qname(host.as_str())?;
    proof {
        crate::name::lemma_write_name_frame(m0, vstd::utf8::encode_utf8(host@));
    }
    let data_len = buffer.pos() - (pos0 + 2);
    buffer.set_u16(pos0, #[verifier::truncate] (data_len as u16))?;
    Ok(buffer.pos() - start_pos)
}

/// Writes an `A` record: preamble, constant length 4, four octets.
fn write_a<T: PacketBuffer>(
    buffer: &mut T,
    domain: &String,
    addr: &Ipv4Address,
    ttl: u32,
) -> (r: Result<usize, PacketError>)
    requires
        old(buffer).inv(),
    ensures
        final(buffer).inv(),
        ({
            let (rr, m) = spec_write_a_record(old(buffer).model(), domain@, *addr, ttl);
            &&& final(buffer).model() == m
            &&& match (r, rr) {
                (Ok(n), Ok(sn)) => n as int == sn,
                (Err(e1), Err(e2)) => e1 == e2,
                _ => false,
            }
        }),
{
    let start_pos = buffer.pos();
    write_preamble(buffer, domain, QueryType::A.to_num(), ttl)?;
    buffer.write_u16(4)?;
    buffer.write(addr.octets.0)?;
    buffer.write(addr.octets.1)?;
    buffer.write(addr.octets.2)?;
    buffer.write(addr.octets.3)?;
    Ok(buffer.pos() - start_pos)
}

/// Writes an `AAAA` record: preamble, constant length 16, eight segments.
fn write_aaaa<T: PacketBuffer>(
    buffer: &mut T,
    domain: &String,
    addr: &Ipv6Address,
    ttl: u32,
) -> (r: Result<usize, PacketError>)
    requires
        old(buffer).inv(),
    ensures
        final(buffer).inv(),
        ({
            let (rr, m) = spec_write_aaaa_record(old(buffer).model(), domain@, *addr, ttl);
            &&& final(buffer).model() == m
            &&& match (r, rr) {
                (Ok(n), Ok(sn)) => n as int == sn,
                (Err(e1), Err(e2)) => e1 == e2,
                _ => false,
            }
        }),
{
    let start_pos = buffer.pos();
    write_preamble(buffer, domain, QueryType::AAAA.to_num(), ttl)?;
    buffer.write_u16(16)?;
    buffer.write_u16(addr.segments.0)?;
    buffer.write_u16(addr.segments.1)?;
    buffer.write_u16(addr.segments.2)?;
    buffer.write_u16(addr.segments.3)?;
    buffer.write_u16(addr.segments.4)?;
    buffer.write_u16(addr.segments.5)?;
    buffer.write_u16(addr.segments.6)?;
    buffer.write_u16(addr.segments.7)?;
    Ok(buffer.pos() - start_pos)
}

/// Writes an `NS` or `CNAME` record: preamble, a patched length, and the
/// target host's name.
fn write_host_record<T: PacketBuffer>(
    buffer: &mut T,
    domain: &String,
    qnum: u16,
    ttl: u32,
    host: &String,
) -> (r: Result<usize, PacketError>)
    requires
        old(buffer).inv(),
    ensures
        final(buffer).inv(),
        ({
            let (rr, m) = spec_write_host_record(old(buffer).model(), domain@, qnum, ttl, host@);
            &&& final(buffer).model() == m
            &&& match (r, rr) {
                (Ok(n), Ok(sn)) => n as int == sn,
                (Err(e1), Err(e2)) => e1 == e2,
                _ => false,
            }
        }),
{
    let start_pos = buffer.pos();
    write_preamble(buffer, domain, qnum, ttl)?;
    let pos = buffer.pos();
    buffer.write_u16(0)?;
    write_host_and_patch(buffer, host, pos, start_pos)
}

/// Writes an `SRV` record: preamble, a patched length, priority, weight,
/// port, and the target host's name.
fn write_srv<T: PacketBuffer>(
    buffer: &mut T,
    domain: &String,
    priority: u16,
    weight: u16,
    port: u16,
    host: &String,
    ttl: u32,
) -> (r: Result<usize, PacketError>)
    requires
        old(buffer).inv(),
    ensures
        final(buffer).inv(),
        ({
            let (rr, m) = spec_write_srv_record(
                old(buffer).model(),
                domain@,
                priority,
                weight,
                port,
                host@,
                ttl,
            );
            &&& final(buffer).model() == m
            &&& match (r, rr) {
                (Ok(n), Ok(sn)) => n as int == sn,
                (Err(e1), Err(e2)) => e1 == e2,
                _ => false,
            }
        }),
{
    let start_pos = buffer.pos();
    write_preamble(buffer, domain, QueryType::SRV.to_num(), ttl)?;
    let pos = buffer.pos();
    buffer.write_u16(0)?;
    buffer.write_u16(priority)?;
    buffer.write_u16(weight)?;
    buffer.write_u16(port)?;
    proof {
        buffer.inv_implies_wf();
        crate::name::lemma_write_name_frame(buffer.model(), vstd::utf8::encode_utf8(host@));
    }
    buffer.write_qname(host.as_str())?;
    let data_len = buffer.pos() - (pos + 2);
    buffer.set_u16(pos, #[verifier::truncate] (data_len as u16))?;
    Ok(buffer.pos() - start_pos)
}

/// Writes an `MX` record: preamble, a patched length, the priority, and
/// the exchange host's name.
fn write_mx<T: PacketBuffer>(
    buffer: &mut T,
    domain: &String,
    priority: u16,
    host: &String,
    ttl: u32,
) -> (r: Result<usize, PacketError>)
    requires
        old(buffer).inv(),
    ensures
        final(buffer).inv(),
        ({
            let (rr, m) = spec_write_mx_record(old(buffer).model(), domain@, priority, host@, ttl);
            &&& final(buffer).model() == m
            &&& match (r, rr) {
                (Ok(n), Ok(sn)) => n as int == sn,
                (Err(e1), Err(e2)) => e1 == e2,
                _ => false,
            }
        }),
{
    let start_pos = buffer.pos();
    write_preamble(buffer, domain, QueryType::MX.to_num(), ttl)?;
    let pos = buffer.pos();
    buffer.write_u16(0)?;
    buffer.write_u16(priority)?;
    proof {
        buffer.inv_implies_wf();
        crate::name::lemma_write_name_frame(buffer.model(), vstd::utf8::encode_utf8(host@));
    }
    buffer.write_qname(host.as_str())?;
    let data_len = buffer.pos() - (pos + 2);
    buffer.set_u16(pos, #[verifier::truncate] (data_len as u16))?;
    Ok(buffer.pos() - start_pos)
}

/// Writes an `SOA` record: preamble, a patched length, the two names, and
/// the five 32-bit fields.
fn write_soa<T: PacketBuffer>(
    buffer: &mut T,
    domain: &String,
    m_name: &String,
    r_name: &String,
    serial: u32,
    refresh: u32,
    retry: u32,
    expire: u32,
    minimum: u32,
    ttl: u32,
) -> (r: Result<usize, PacketError>)
    requires
        old(buffer).inv(),
    ensures
        final(buffer).inv(),
        ({
            let (rr, m) = spec_write_soa_record(
                old(buffer).model(),
                domain@,
                m_name@,
                r_name@,
                serial,
                refresh,
                retry,
                expire,
                minimum,
                ttl,
            );
            &&& final(buffer).model() == m
            &&& match (r, rr) {
                (Ok(n), Ok(sn)) => n as int == sn,
                (Err(e1), Err(e2)) => e1 == e2,
                _ => false,
            }
        }),
{
    let start_pos = buffer.pos();
    write_preamble(buffer, domain, QueryType::SOA.to_num(), ttl)?;
    let pos = buffer.pos();
    buffer.write_u16(0)?;
    proof {
        buffer.inv_implies_wf();
        crate::name::lemma_write_name_frame(buffer.model(), vstd::utf8::encode_utf8(m_name@));
    }
    buffer.write_qname(m_name.as_str())?;
    proof {
        buffer.inv_implies_wf();
        crate::name::lemma_write_name_frame(buffer.model(), vstd::utf8::encode_utf8(r_name@));
    }
    buffer.write_qname(r_name.as_str())?;
    buffer.write_u32(serial)?;
    buffer.write_u32(refresh)?;
    buffer.write_u32(retry)?;
    buffer.write_u32(expire)?;
    buffer.write_u32(minimum)?;
    let data_len = buffer.pos() - (pos + 2);
    buffer.set_u16(pos, #[verifier::truncate] (data_len as u16))?;
    Ok(buffer.pos() - start_pos)
}

/// Writes a `TXT` record: preamble, the text byte count, the raw bytes.
fn write_txt<T: PacketBuffer>(
    buffer: &mut T,
    domain: &String,
    data: &String,
    ttl: u32,
) -> (r: Result<usize, PacketError>)
    requires
        old(buffer).inv(),
    ensures
        final(buffer).inv(),
        ({
            let (rr, m) = spec_write_txt_record(old(buffer).model(), domain@, data@, ttl);
            &&& final(buffer).model() == m
            &&& match (r, rr) {
                (Ok(n), Ok(sn)) => n as int == sn,
                (Err(e1), Err(e2)) => e1 == e2,
                _ => false,
            }
        }),
{
    let start_pos = buffer.pos();
    write_preamble(buffer, domain, QueryType::TXT.to_num(), ttl)?;
    let bytes = data.as_str().as_bytes();
    buffer.write_u16(#[verifier::truncate] (bytes.len() as u16))?;
    proof {
        buffer.inv_implies_wf();
        crate::name::lemma_write_bytes_frame(buffer.model(), bytes@, 0, bytes@.len() as int);
    }
    crate::name::write_bytes_range(buffer, bytes, 0, bytes.len())?;
    Ok(buffer.pos() - start_pos)
}

impl DNSRecord {
    /// Writes this record at the cursor and returns how many bytes it
    /// occupies; `OPT` and unknown types have no wire serialization and
    /// fail with [`PacketError::UnsupportedWrite`].
    pub fn write<T: PacketBuffer>(&self, buffer: &mut T) -> (r: Result<usize, PacketError>)
        requires
            old(buffer).inv(),
        ensures
            final(buffer).inv(),
            ({
                let (rr, m) = spec_write_record(old(buffer).model(), self@);
                &&& final(buffer).model() == m
                &&& match (r, rr) {
                    (Ok(n), Ok(sn)) => n as int == sn,
                    (Err(e1), Err(e2)) => e1 == e2,
                    _ => false,
                }
            }),
    {
        match self {
            DNSRecord::A { domain, addr, ttl } => write_a(buffer, domain, addr, ttl.0),
            DNSRecord::AAAA { domain, addr, ttl } => write_aaaa(buffer, domain, addr, ttl.0),
            DNSRecord::NS { domain, host, ttl } => write_host_record(
                buffer,
                domain,
                QueryType::NS.to_num(),
                ttl.0,
                host,
            ),
            DNSRecord::CNAME { domain, host, ttl } => write_host_record(
                buffer,
                domain,
                QueryType::CNAME.to_num(),
                ttl.0,
                host,
            ),
            DNSRecord::SRV { domain, priority, weight, port, host, ttl } => write_srv(
                buffer,
                domain,
                *priority,
                *weight,
                *port,
                host,
                ttl.0,
            ),
            DNSRecord::MX { domain, priority, host, ttl } => write_mx(
                buffer,
                domain,
                *priority,
                host,
                ttl.0,
            ),
            DNSRecord::SOA {
                domain,
                m_name,
                r_name,
                serial,
                refresh,
                retry,
                expire,
                minimum,
                ttl,
            } => write_soa(
                buffer,
                domain,
                m_name,
                r_name,
                *serial,
                *refresh,
                *retry,
                *expire,
                *minimum,
                ttl.0,
            ),
            DNSRecord::TXT { domain, data, ttl } => write_txt(buffer, domain, data, ttl.0),
            DNSRecord::OPT { .. } => Err(PacketError::UnsupportedWrite),
            DNSRecord::UNKNOWN { .. } => Err(PacketError::UnsupportedWrite),
        }
    }

    /// The query type this record answers.
    pub fn get_query_type(&self) -> (r: QueryType)
        ensures
            r == spec_record_qtype(self@),
    {
        match self {
            DNSRecord::A { .. } => QueryType::A,
            DNSRecord::AAAA { .. } => QueryType::AAAA,
            DNSRecord::NS { .. } => QueryType::NS,
            DNSRecord::CNAME { .. } => QueryType::CNAME,
            DNSRecord::SRV { .. } => QueryType::SRV,
            DNSRecord::MX { .. } => QueryType::MX,
            DNSRecord::SOA { .. } => QueryType::SOA,
            DNSRecord::TXT { .. } => QueryType::TXT,
            DNSRecord::OPT { .. } => QueryType::OPT,
            DNSRecord::UNKNOWN { q_type, .. } => QueryType::UNKNOWN(*q_type),
        }
    }

    /// The domain the record belongs to; an `OPT` record owns none.
    pub fn get_domain(&self) -> (r: Option<String>)
        ensures
            match r {
                Some(s) => spec_record_domain(self@) == Some(s@),
                None => spec_record_domain(self@) is None,
            },
    {
        match self {
            DNSRecord::A { domain, .. } => Some(domain.clone()),
            DNSRecord::AAAA { domain, .. } => Some(domain.clone()),
            DNSRecord::NS { domain, .. } => Some(domain.clone()),
            DNSRecord::CNAME { domain, .. } => Some(domain.clone()),
            DNSRecord::SRV { domain, .. } => Some(domain.clone()),
            DNSRecord::MX { domain, .. } => Some(domain.clone()),
            DNSRecord::SOA { domain, .. } => Some(domain.clone()),
            DNSRecord::TXT { domain, .. } => Some(domain.clone()),
            DNSRecord::UNKNOWN { domain, .. } => Some(domain.clone()),
            DNSRecord::OPT { .. } => None,
        }
    }
}

/// The query type a record's value answers.
pub open spec fn spec_record_qtype(v: RecordV) -> QueryType {
    match v {
        RecordV::A { .. } => QueryType::A,
        RecordV::AAAA { .. } => QueryType::AAAA,
        RecordV::NS { .. } => QueryType::NS,
        RecordV::CNAME { .. } => QueryType::CNAME,
        RecordV::SRV { .. } => QueryType::SRV,
        RecordV::MX { .. } => QueryType::MX,
        RecordV::SOA { .. } => QueryType::SOA,
        RecordV::TXT { .. } => QueryType::TXT,
        RecordV::OPT { .. } => QueryType::OPT,
        RecordV::UNKNOWN { q_type, .. } => QueryType::UNKNOWN(q_type),
    }
}

/// The domain a record's value belongs to; `OPT` owns none.
pub open spec fn spec_record_domain(v: RecordV) -> Option<Seq<char>> {
    match v {
        RecordV::A { domain, .. } => Some(domain),
        RecordV::AAAA { domain, .. } => Some(domain),
        RecordV::NS { domain, .. } => Some(domain),
        RecordV::CNAME { domain, .. } => Some(domain),
        RecordV::SRV { domain, .. } => Some(domain),
        RecordV::MX { domain, .. } => Some(domain),
        RecordV::SOA { domain, .. } => Some(domain),
        RecordV::TXT { domain, .. } => Some(domain),
        RecordV::UNKNOWN { domain, .. } => Some(domain),
        RecordV::OPT { .. } => None,
    }
}

} // verus!
