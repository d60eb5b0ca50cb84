//! The protocol types: header, query type, response code, question, and the
//! transient time-to-live wrapper.
//!
//! Each codec operation has a spec-level mirror over [`BufModel`] that pins
//! its result and the buffer state exactly, error cases included.

use vstd::prelude::*;
use crate::buffer::{BufModel, PacketBuffer, PacketError};

verus! {

// ---------------------------------------------------------------------------
// Response codes
// ---------------------------------------------------------------------------

/// The response code of a DNS message, a 4-bit field of the header.
#[derive(Copy, Clone, Debug, PartialEq, Eq)]
pub enum ResultCode {
    NOERROR,
    FORMERR,
    SERVFAIL,
    NXDOMAIN,
    NOTIMP,
    REFUSED,
}

/// The code a [`ResultCode`] stands for on the wire.
pub open spec fn spec_rescode_num(rc: ResultCode) -> u8 {
    match rc {
        ResultCode::NOERROR => 0,
        ResultCode::FORMERR => 1,
        ResultCode::SERVFAIL => 2,
        ResultCode::NXDOMAIN => 3,
        ResultCode::NOTIMP => 4,
        ResultCode::REFUSED => 5,
    }
}

/// The [`ResultCode`] a 4-bit wire value decodes to; unassigned values fall
/// back to `NOERROR` rather than failing.
pub open spec fn spec_rescode_from_num(num: u8) -> ResultCode {
    if num == 1 {
        ResultCode::FORMERR
    } else if num == 2 {
        ResultCode::SERVFAIL
    } else if num == 3 {
        ResultCode::NXDOMAIN
    } else if num == 4 {
        ResultCode::NOTIMP
    } else if num == 5 {
        ResultCode::REFUSED
    } else {
        ResultCode::NOERROR
    }
}

impl ResultCode {
    /// Maps a 4-bit wire value to its response code.
    pub fn from_num(num: u8) -> (r: ResultCode)
        ensures
            r == spec_rescode_from_num(num),
    {
        match num {
            1 => ResultCode::FORMERR,
            2 => ResultCode::SERVFAIL,
            3 => ResultCode::NXDOMAIN,
            4 => ResultCode::NOTIMP,
            5 => ResultCode::REFUSED,
            _ => ResultCode::NOERROR,
        }
    }

    /// The wire value of this response code.
    pub fn to_num(&self) -> (r: u8)
        ensures
            r == spec_rescode_num(*self),
    {
        match *self {
            ResultCode::NOERROR => 0,
            ResultCode::FORMERR => 1,
            ResultCode::SERVFAIL => 2,
            ResultCode::NXDOMAIN => 3,
            ResultCode::NOTIMP => 4,
            ResultCode::REFUSED => 5,
        }
    }
}

impl Default for ResultCode {
    fn default() -> (r: Self)
        ensures
            r == ResultCode::NOERROR,
    {
        ResultCode::NOERROR
    }
}

// ---------------------------------------------------------------------------
// Query types
// ---------------------------------------------------------------------------

/// The record type a query asks for, with an open fallback that preserves an
/// unrecognized 16-bit type code across a round trip.
#[derive(Clone, PartialEq, Eq, Debug, Copy, Hash)]
pub enum QueryType {
    UNKNOWN(u16),
    A,
    NS,
    CNAME,
    SOA,
    MX,
    TXT,
    AAAA,
    SRV,
    OPT,
}

/// The 16-bit code a [`QueryType`] stands for on the wire.
pub open spec fn spec_qtype_num(t: QueryType) -> u16 {
    match t {
        QueryType::UNKNOWN(x) => x,
        QueryType::A => 1,
        QueryType::NS => 2,
        QueryType::CNAME => 5,
        QueryType::SOA => 6,
        QueryType::MX => 15,
        QueryType::TXT => 16,
        QueryType::AAAA => 28,
        QueryType::SRV => 33,
        QueryType::OPT => 44,
    }
}

/// The [`QueryType`] a 16-bit wire code decodes to.
pub open spec fn spec_qtype_from_num(num: u16) -> QueryType {
    if num == 1 {
        QueryType::A
    } else if num == 2 {
        QueryType::NS
    } else if num == 5 {
        QueryType::CNAME
    } else if num == 6 {
        QueryType::SOA
    } else if num == 15 {
        QueryType::MX
    } else if num == 16 {
        QueryType::TXT
    } else if num == 28 {
        QueryType::AAAA
    } else if num == 33 {
        QueryType::SRV
    } else if num == 44 {
        QueryType::OPT
    } else {
        QueryType::UNKNOWN(num)
    }
}

impl QueryType {
    /// The wire code of this query type.
    pub fn to_num(&self) -> (r: u16)
        ensures
            r == spec_qtype_num(*self),
    {
        match *self {
            QueryType::UNKNOWN(x) => x,
            QueryType::A => 1,
            QueryType::NS => 2,
            QueryType::CNAME => 5,
            QueryType::SOA => 6,
            QueryType::MX => 15,
            QueryType::TXT => 16,
            QueryType::AAAA => 28,
            QueryType::SRV => 33,
            QueryType::OPT => 44,
        }
    }

    /// Maps a wire code to its query type, preserving unknown codes.
    pub fn from_num(num: u16) -> (r: QueryType)
        ensures
            r == spec_qtype_from_num(num),
    {
        match num {
            1 => QueryType::A,
            2 => QueryType::NS,
            5 => QueryType::CNAME,
            6 => QueryType::SOA,
            15 => QueryType::MX,
            16 => QueryType::TXT,
            28 => QueryType::AAAA,
            33 => QueryType::SRV,
            44 => QueryType::OPT,
            _ => QueryType::UNKNOWN(num),
        }
    }
}

// ---------------------------------------------------------------------------
// Transient time-to-live
// ---------------------------------------------------------------------------

/// A time-to-live that participates in the wire bytes but not in record
/// identity: two values always compare equal, on purpose, so that records
/// differing only in their remaining lifetime deduplicate as one.
#[derive(Copy, Clone, Debug, Eq)]
pub struct TransientTTL(pub u32);

impl PartialEq for TransientTTL {
    fn eq(&self, other: &TransientTTL) -> (r: bool) {
        true
    }
}

impl vstd::std_specs::cmp::PartialEqSpecImpl for TransientTTL {
    open spec fn obeys_eq_spec() -> bool {
        true
    }

    open spec fn eq_spec(&self, other: &TransientTTL) -> bool {
        true
    }
}

// ---------------------------------------------------------------------------
// Addresses
// ---------------------------------------------------------------------------

/// An IPv4 address as its four plain octets.
#[derive(Copy, Clone, Debug, PartialEq, Eq)]
pub struct Ipv4Address {
    pub octets: (u8, u8, u8, u8),
}

/// An IPv6 address as its eight plain 16-bit segments.
#[derive(Copy, Clone, Debug, PartialEq, Eq)]
pub struct Ipv6Address {
    pub segments: (u16, u16, u16, u16, u16, u16, u16, u16),
}

// ---------------------------------------------------------------------------
// Header
// ---------------------------------------------------------------------------

/// The fixed 12-byte DNS message header: transaction id, the packed flag
/// word, and the four section counts.
#[derive(Clone, Debug)]
pub struct DNSHeader {
    pub id: u16,
    pub response: bool,
    pub opcode: u8,
    pub authoritative_answer: bool,
    pub truncated_message: bool,
    pub recursion_desired: bool,
    pub recursion_available: bool,
    pub z: bool,
    pub checking_disabled: bool,
    pub authed_data: bool,
    pub rescode: ResultCode,
    pub questions: u16,
    pub answers: u16,
    pub authoritative_entries: u16,
    pub additional_entries: u16,
}

/// The header value all fields zero and clear.
pub open spec fn spec_header_new() -> DNSHeader {
    DNSHeader {
        id: 0,
        response: false,
        opcode: 0,
        authoritative_answer: false,
        truncated_message: false,
        recursion_desired: false,
        recursion_available: false,
        z: false,
        checking_disabled: false,
        authed_data: false,
        rescode: ResultCode::NOERROR,
        questions: 0,
        answers: 0,
        authoritative_entries: 0,
        additional_entries: 0,
    }
}

/// The header described by a transaction id, a 16-bit flag word, and the
/// four counts, unpacking the flag word's bits exactly as they sit on the
/// wire.
pub open spec fn spec_header_from_parts(
    id: u16,
    flags: u16,
    questions: u16,
    answers: u16,
    authoritative_entries: u16,
    additional_entries: u16,
) -> DNSHeader {
    let a = (flags >> 8) as u8;
    let b = (flags & 0xFF) as u8;
    DNSHeader {
        id,
        recursion_desired: (a & (1u8 << 0)) > 0,
        truncated_message: (a & (1u8 << 1)) > 0,
        authoritative_answer: (a & (1u8 << 2)) > 0,
        opcode: ((a >> 3) & 0x0F) as u8,
        response: (a & (1u8 << 7)) > 0,
        rescode: spec_rescode_from_num((b & 0x0F) as u8),
        checking_disabled: (b & (1u8 << 4)) > 0,
        authed_data: (b & (1u8 << 5)) > 0,
        z: (b & (1u8 << 6)) > 0,
        recursion_available: (b & (1u8 << 7)) > 0,
        questions,
        answers,
        authoritative_entries,
        additional_entries,
    }
}

/// The low flag byte of a header as written to the wire.
pub open spec fn spec_header_flags_a(h: DNSHeader) -> u8 {
    ((if h.recursion_desired {
        1u8
    } else {
        0u8
    }) | ((if h.truncated_message {
        1u8
    } else {
        0u8
    }) << 1) | ((if h.authoritative_answer {
        1u8
    } else {
        0u8
    }) << 2) | (h.opcode << 3) | ((if h.response {
        1u8
    } else {
        0u8
    }) << 7)) as u8
}

/// The high flag byte of a header as written to the wire.
pub open spec fn spec_header_flags_b(h: DNSHeader) -> u8 {
    (spec_rescode_num(h.rescode) | ((if h.checking_disabled {
        1u8
    } else {
        0u8
    }) << 4) | ((if h.authed_data {
        1u8
    } else {
        0u8
    }) << 5) | ((if h.z {
        1u8
    } else {
        0u8
    }) << 6) | ((if h.recursion_available {
        1u8
    } else {
        0u8
    }) << 7)) as u8
}

/// Reading the 12 header bytes: id, flag word, and the four counts.
pub open spec fn spec_read_header(b: BufModel) -> (Result<DNSHeader, PacketError>, BufModel) {
    let (r1, b1) = b.spec_read_u16();
    match r1 {
        Err(e) => (Err(e), b1),
        Ok(id) => {
            let (r2, b2) = b1.spec_read_u16();
            match r2 {
                Err(e) => (Err(e), b2),
                Ok(flags) => {
                    let (r3, b3) = b2.spec_read_u16();
                    match r3 {
                        Err(e) => (Err(e), b3),
                        Ok(questions) => {
                            let (r4, b4) = b3.spec_read_u16();
                            match r4 {
                                Err(e) => (Err(e), b4),
                                Ok(answers) => {
                                    let (r5, b5) = b4.spec_read_u16();
                                    match r5 {
                                        Err(e) => (Err(e), b5),
                                        Ok(auth) => {
                                            let (r6, b6) = b5.spec_read_u16();
                                            match r6 {
                                                Err(e) => (Err(e), b6),
                                                Ok(add) => (
                                                    Ok(
                                                        spec_header_from_parts(
                                                            id,
                                                            flags,
                                                            questions,
                                                            answers,
                                                            auth,
                                                            add,
                                                        ),
                                                    ),
                                                    b6,
                                                ),
                                            }
                                        },
                                    }
                                },
                            }
                        },
                    }
                },
            }
        },
    }
}

/// Writing the 12 header bytes: id, the two flag bytes, the four counts.
pub open spec fn spec_write_header(b: BufModel, h: DNSHeader) -> (Result<(), PacketError>, BufModel) {
    let (r1, b1) = b.spec_write_u16(h.id);
    match r1 {
        Err(e) => (Err(e), b1),
        Ok(_) => {
            let (r2, b2) = b1.spec_write(spec_header_flags_a(h));
            match r2 {
                Err(e) => (Err(e), b2),
                Ok(_) => {
                    let (r3, b3) = b2.spec_write(spec_header_flags_b(h));
                    match r3 {
                        Err(e) => (Err(e), b3),
                        Ok(_) => {
                            let (r4, b4) = b3.spec_write_u16(h.questions);
                            match r4 {
                                Err(e) => (Err(e), b4),
                                Ok(_) => {
                                    let (r5, b5) = b4.spec_write_u16(h.answers);
                                    match r5 {
                                        Err(e) => (Err(e), b5),
                                        Ok(_) => {
                                            let (r6, b6) = b5.spec_write_u16(
                                                h.authoritative_entries,
                                            );
                                            match r6 {
                                                Err(e) => (Err(e), b6),
                                                Ok(_) => b6.spec_write_u16(h.additional_entries),
                                            }
                                        },
                                    }
                                },
                            }
                        },
                    }
                },
            }
        },
    }
}

impl DNSHeader {
    /// A header with all fields zero and clear.
    pub fn new() -> (r: Self)
        ensures
            r == spec_header_new(),
    {
        DNSHeader {
            id: 0,
            recursion_desired: false,
            truncated_message: false,
            authoritative_answer: false,
            opcode: 0,
            response: false,
            rescode: ResultCode::NOERROR,
            checking_disabled: false,
            authed_data: false,
            z: false,
            recursion_available: false,
            questions: 0,
            answers: 0,
            authoritative_entries: 0,
            additional_entries: 0,
        }
    }

    /// Reads the 12-byte header at the cursor into `self`.
    pub fn read<T: PacketBuffer>(&mut self, buffer: &mut T) -> (r: Result<(), PacketError>)
        requires
            old(buffer).inv(),
        ensures
            final(buffer).inv(),
            ({
                let (rr, m) = spec_read_header(old(buffer).model());
                &&& final(buffer).model() == m
                &&& match (r, rr) {
                    (Ok(()), Ok(h)) => *final(self) == h,
                    (Err(e1), Err(e2)) => e1 == e2,
                    _ => false,
                }
            }),
    {
        self.id = buffer.read_u16()?;

        let flags = buffer.read_u16()?;
        let a = (flags >> 8) as u8;
        let b = (flags & 0xFF) as u8;

        self.recursion_desired = (a & (1 << 0)) > 0;
        self.truncated_message = (a & (1 << 1)) > 0;
        self.authoritative_answer = (a & (1 << 2)) > 0;
        self.opcode = (a >> 3) & 0x0F;
        self.response = (a & (1 << 7)) > 0;

        self.rescode = ResultCode::from_num(b & 0x0F);
        self.checking_disabled = (b & (1 << 4)) > 0;
        self.authed_data = (b & (1 << 5)) > 0;
        self.z = (b & (1 << 6)) > 0;
        self.recursion_available = (b & (1 << 7)) > 0;

        self.questions = buffer.read_u16()?;
        self.answers = buffer.read_u16()?;
        self.authoritative_entries = buffer.read_u16()?;
        self.additional_entries = buffer.read_u16()?;

        Ok(())
    }

    /// Writes the 12-byte header at the cursor, packing the flag bits
    /// exactly as [`spec_header_from_parts`] unpacks them.
    pub fn write<T: PacketBuffer>(&self, buffer: &mut T) -> (r: Result<(), PacketError>)
        requires
            old(buffer).inv(),
        ensures
            final(buffer).inv(),
            (r, final(buffer).model()) == spec_write_header(old(buffer).model(), *self),
    {
        buffer.write_u16(self.id)?;

        let rd: u8 = if self.recursion_desired {
            1
        } else {
            0
        };
        let tm: u8 = if self.truncated_message {
            1
        } else {
            0
        };
        let aa: u8 = if self.authoritative_answer {
            1
        } else {
            0
        };
        let resp: u8 = if self.response {
            1
        } else {
            0
        };
        buffer.write(rd | (tm << 1) | (aa << 2) | (self.opcode << 3) | (resp << 7))?;

        let cd: u8 = if self.checking_disabled {
            1
        } else {
            0
        };
        let ad: u8 = if self.authed_data {
            1
        } else {
            0
        };
        let zz: u8 = if self.z {
            1
        } else {
            0
        };
        let ra: u8 = if self.recursion_available {
            1
        } else {
            0
        };
        buffer.write(self.rescode.to_num() | (cd << 4) | (ad << 5) | (zz << 6) | (ra << 7))?;

        buffer.write_u16(self.questions)?;
        buffer.write_u16(self.answers)?;
        buffer.write_u16(self.authoritative_entries)?;
        buffer.write_u16(self.additional_entries)?;

        Ok(())
    }
}

/// The two big-endian bytes of a 16-bit value reassemble to the value.
proof fn lemma_u16_bytes_round_trip(v: u16)
    by (bit_vector)
    ensures
        ((((v >> 8) & 0xFF) as u8 as u16) << 8) | ((v & 0xFF) as u8 as u16) == v,
{
}

/// Splitting a 16-bit word assembled from two bytes recovers both bytes.
proof fn lemma_u16_split(x: u8, y: u8)
    by (bit_vector)
    ensures
        ((((x as u16) << 8) | (y as u16)) >> 8) as u8 == x,
        ((((x as u16) << 8) | (y as u16)) & 0xFF) as u8 == y,
{
}

/// Header round trip: writing any header whose opcode fits its 4-bit field
/// into a buffer with room for its 12 bytes, then reading a header back
/// from the same position, reproduces every field exactly.
#[verifier::rlimit(100)]
pub proof fn lemma_header_round_trip(b: BufModel, h: DNSHeader)
    requires
        b.bytes.len() == crate::buffer::PACKET_SIZE,
        0 <= b.pos,
        b.pos + 12 <= crate::buffer::PACKET_SIZE,
        h.opcode < 16,
    ensures
        ({
            let (r, b2) = spec_write_header(b, h);
            &&& r is Ok
            &&& ({
                let (r2, b3) = spec_read_header(b2.spec_seek(b.pos));
                &&& r2 == Ok::<DNSHeader, PacketError>(h)
                &&& b3.pos == b.pos + 12
            })
        }),
{
    let rd: u8 = if h.recursion_desired { 1 } else { 0 };
    let tm: u8 = if h.truncated_message { 1 } else { 0 };
    let aa: u8 = if h.authoritative_answer { 1 } else { 0 };
    let resp: u8 = if h.response { 1 } else { 0 };
    let op: u8 = h.opcode;
    let fa = spec_header_flags_a(h);
    assert(fa == (rd | (tm << 1) | (aa << 2) | (op << 3) | (resp << 7)) as u8);

    let cd: u8 = if h.checking_disabled { 1 } else { 0 };
    let ad: u8 = if h.authed_data { 1 } else { 0 };
    let zz: u8 = if h.z { 1 } else { 0 };
    let ra: u8 = if h.recursion_available { 1 } else { 0 };
    let rc: u8 = spec_rescode_num(h.rescode);
    let fb = spec_header_flags_b(h);
    assert(fb == (rc | (cd << 4) | (ad << 5) | (zz << 6) | (ra << 7)) as u8);

    // Reassembling a 16-bit value from its two big-endian bytes recovers it.
    lemma_u16_bytes_round_trip(h.id);
    lemma_u16_bytes_round_trip(h.questions);
    lemma_u16_bytes_round_trip(h.answers);
    lemma_u16_bytes_round_trip(h.authoritative_entries);
    lemma_u16_bytes_round_trip(h.additional_entries);
    // Splitting the 16-bit flag word recovers the two packed bytes.
    lemma_u16_split(fa, fb);

    // Unpacking the low flag byte recovers each field.
    assert(((fa & (1u8 << 0)) > 0) == (rd == 1) && ((fa & (1u8 << 1)) > 0) == (tm == 1) && ((fa
        & (1u8 << 2)) > 0) == (aa == 1) && ((fa >> 3) & 0x0F) as u8 == op && ((fa & (1u8 << 7))
        > 0) == (resp == 1)) by (bit_vector)
        requires
            fa == (rd | (tm << 1) | (aa << 2) | (op << 3) | (resp << 7)) as u8,
            rd <= 1,
            tm <= 1,
            aa <= 1,
            resp <= 1,
            op < 16,
    ;

    // Unpacking the high flag byte recovers each field.
    assert((fb & 0x0F) as u8 == rc && ((fb & (1u8 << 4)) > 0) == (cd == 1) && ((fb & (1u8 << 5))
        > 0) == (ad == 1) && ((fb & (1u8 << 6)) > 0) == (zz == 1) && ((fb & (1u8 << 7)) > 0) == (
    ra == 1)) by (bit_vector)
        requires
            fb == (rc | (cd << 4) | (ad << 5) | (zz << 6) | (ra << 7)) as u8,
            cd <= 1,
            ad <= 1,
            zz <= 1,
            ra <= 1,
            rc < 16,
    ;

    assert(spec_rescode_from_num(rc) == h.rescode);
}

impl Default for DNSHeader {
    fn default() -> (r: Self)
        ensures
            r == spec_header_new(),
    {
        DNSHeader::new()
    }
}

// ---------------------------------------------------------------------------
// Question
// ---------------------------------------------------------------------------

/// The mathematical value of a question: its name's characters and its
/// query type.
pub struct QuestionV {
    pub name: Seq<char>,
    pub q_type: QueryType,
}

/// A query: a domain name and the record type asked for.  The class is
/// always written as 1 (Internet) and read but discarded.
#[derive(Clone, Debug, PartialEq, Eq)]
pub struct DNSQuestion {
    pub name: String,
    pub q_type: QueryType,
}

impl View for DNSQuestion {
    type V = QuestionV;

    open spec fn view(&self) -> QuestionV {
        QuestionV { name: self.name@, q_type: self.q_type }
    }
}

/// Reading one question at the cursor: a (possibly compressed) name
/// appended to `name0`, the query type, and the discarded class.
pub open spec fn spec_read_question(b: BufModel, name0: Seq<char>) -> (Result<
    QuestionV,
    PacketError,
>, BufModel) {
    let (rn, cur) = crate::name::spec_parse_name(b.bytes, b.pos, name0);
    let b1 = BufModel { bytes: b.bytes, pos: cur };
    match rn {
        Err(e) => (Err(e), b1),
        Ok(name) => {
            let (r2, b2) = b1.spec_read_u16();
            match r2 {
                Err(e) => (Err(e), b2),
                Ok(tnum) => {
                    let (r3, b3) = b2.spec_read_u16();
                    match r3 {
                        Err(e) => (Err(e), b3),
                        Ok(_class) => (
                            Ok(QuestionV { name, q_type: spec_qtype_from_num(tnum) }),
                            b3,
                        ),
                    }
                },
            }
        },
    }
}

/// Writing one question at the cursor: the name's wire form, the type code,
/// and class 1.
pub open spec fn spec_write_question(b: BufModel, q: QuestionV) -> (Result<
    (),
    PacketError,
>, BufModel) {
    let (r1, b1) = crate::name::spec_write_name(b, vstd::utf8::encode_utf8(q.name));
    match r1 {
        Err(e) => (Err(e), b1),
        Ok(_) => {
            let (r2, b2) = b1.spec_write_u16(spec_qtype_num(q.q_type));
            match r2 {
                Err(e) => (Err(e), b2),
                Ok(_) => b2.spec_write_u16(1),
            }
        },
    }
}

impl DNSQuestion {
    /// A question for `name` with the given query type.
    pub fn new(name: String, q_type: QueryType) -> (r: Self)
        ensures
            r@ == (QuestionV { name: name@, q_type }),
    {
        Self { name, q_type }
    }

    /// Reads a question at the cursor, appending the name to `self.name`
    /// and replacing the query type.
    pub fn read<T: PacketBuffer>(&mut self, buffer: &mut T) -> (r: Result<(), PacketError>)
        requires
            old(buffer).inv(),
        ensures
            final(buffer).inv(),
            ({
                let (rr, m) = spec_read_question(old(buffer).model(), old(self).name@);
                &&& final(buffer).model() == m
                &&& match (r, rr) {
                    (Ok(()), Ok(q)) => final(self)@ == q,
                    (Err(e1), Err(e2)) => e1 == e2,
                    _ => false,
                }
            }),
    {
        buffer.read_qname(&mut self.name)?;
        self.q_type = QueryType::from_num(buffer.read_u16()?);
        let _ = buffer.read_u16()?;  // Class, discarded.

        Ok(())
    }

    /// Writes this question at the cursor.
    pub fn write<T: PacketBuffer>(&self, buffer: &mut T) -> (r: Result<(), PacketError>)
        requires
            old(buffer).inv(),
        ensures
            final(buffer).inv(),
            (r, final(buffer).model()) == spec_write_question(old(buffer).model(), self@),
    {
        buffer.write_qname(self.name.as_str())?;
        buffer.write_u16(self.q_type.to_num())?;
        buffer.write_u16(1)?;
        Ok(())
    }
}

} // verus!
