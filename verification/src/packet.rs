//! The message assembler: ties the header's counts to the four record
//! sections and drives the overall decode and encode sequences.

use vstd::prelude::*;
use crate::buffer::{BufModel, PacketBuffer, PacketError};
use crate::protocol::{
    spec_read_header, spec_read_question, spec_write_header, spec_write_question, DNSHeader,
    DNSQuestion, QueryType, QuestionV,
};
use crate::record::{spec_read_record, spec_write_record, DNSRecord, RecordV};

verus! {

/// The mathematical value of a whole message.
pub struct PacketV {
    pub header: DNSHeader,
    pub questions: Seq<QuestionV>,
    pub answers: Seq<RecordV>,
    pub authorities: Seq<RecordV>,
    pub additional: Seq<RecordV>,
}

/// The values of a run of questions.
pub open spec fn qs_view(s: Seq<DNSQuestion>) -> Seq<QuestionV> {
    Seq::new(s.len(), |i: int| s[i]@)
}

/// The values of a run of records.
pub open spec fn recs_view(s: Seq<DNSRecord>) -> Seq<RecordV> {
    Seq::new(s.len(), |i: int| s[i]@)
}

/// A DNS message: header and the four record sections.
#[derive(Clone, Debug)]
pub struct DNSPacket {
    pub header: DNSHeader,
    pub questions: Vec<DNSQuestion>,
    pub answers: Vec<DNSRecord>,
    pub authorities: Vec<DNSRecord>,
    pub additional: Vec<DNSRecord>,
}

impl View for DNSPacket {
    type V = PacketV;

    open spec fn view(&self) -> PacketV {
        PacketV {
            header: self.header,
            questions: qs_view(self.questions@),
            answers: recs_view(self.answers@),
            authorities: recs_view(self.authorities@),
            additional: recs_view(self.additional@),
        }
    }
}

// ---------------------------------------------------------------------------
// Decoding
// ---------------------------------------------------------------------------

/// Prepends already-decoded questions to the outcome of decoding the rest.
pub open spec fn with_prefix_questions(
    pre: Seq<QuestionV>,
    t: (Result<Seq<QuestionV>, PacketError>, BufModel),
) -> (Result<Seq<QuestionV>, PacketError>, BufModel) {
    match t.0 {
        Ok(s) => (Ok(pre + s), t.1),
        Err(e) => (Err(e), t.1),
    }
}

/// Prepends already-decoded records to the outcome of decoding the rest.
pub open spec fn with_prefix_records(
    pre: Seq<RecordV>,
    t: (Result<Seq<RecordV>, PacketError>, BufModel),
) -> (Result<Seq<RecordV>, PacketError>, BufModel) {
    match t.0 {
        Ok(s) => (Ok(pre + s), t.1),
        Err(e) => (Err(e), t.1),
    }
}

/// Reading `n` questions in sequence.
pub open spec fn spec_read_questions(b: BufModel, n: int) -> (Result<
    Seq<QuestionV>,
    PacketError,
>, BufModel)
    decreases n,
{
    if n <= 0 {
        (Ok(Seq::<QuestionV>::empty()), b)
    } else {
        let (r1, b1) = spec_read_question(b, Seq::<char>::empty());
        match r1 {
            Err(e) => (Err(e), b1),
            Ok(q) => with_prefix_questions(seq![q], spec_read_questions(b1, n - 1)),
        }
    }
}

/// Reading `n` resource records in sequence.
pub open spec fn spec_read_records(b: BufModel, n: int) -> (Result<
    Seq<RecordV>,
    PacketError,
>, BufModel)
    decreases n,
{
    if n <= 0 {
        (Ok(Seq::<RecordV>::empty()), b)
    } else {
        let (r1, b1) = spec_read_record(b);
        match r1 {
            Err(e) => (Err(e), b1),
            Ok(rec) => with_prefix_records(seq![rec], spec_read_records(b1, n - 1)),
        }
    }
}

/// Decoding a whole message: the header, then exactly as many questions,
/// answers, authority records and additional records as the header's counts
/// claim, in that order.
pub open spec fn spec_read_packet(b: BufModel) -> (Result<PacketV, PacketError>, BufModel) {
    let (rh, bh) = spec_read_header(b);
    match rh {
        Err(e) => (Err(e), bh),
        Ok(header) => {
            let (rq, bq) = spec_read_questions(bh, header.questions as int);
            match rq {
                Err(e) => (Err(e), bq),
                Ok(questions) => {
                    let (ra, ba) = spec_read_records(bq, header.answers as int);
                    match ra {
                        Err(e) => (Err(e), ba),
                        Ok(answers) => {
                            let (ru, bu) = spec_read_records(
                                ba,
                                header.authoritative_entries as int,
                            );
                            match ru {
                                Err(e) => (Err(e), bu),
                                Ok(authorities) => {
                                    let (rd, bd) = spec_read_records(
                                        bu,
                                        header.additional_entries as int,
                                    );
                                    match rd {
                                        Err(e) => (Err(e), bd),
                                        Ok(additional) => (
                                            Ok(
                                                PacketV {
                                                    header,
                                                    questions,
                                                    answers,
                                                    authorities,
                                                    additional,
                                                },
                                            ),
                                            bd,
                                        ),
                                    }
                                },
                            }
                        },
                    }
                },
            }
        },
    }
}

// ---------------------------------------------------------------------------
// Encoding
// ---------------------------------------------------------------------------

/// The header actually serialized for a message: its stored header with the
/// four counts overwritten by the sections' real lengths.
pub open spec fn spec_counted_header(p: PacketV) -> DNSHeader {
    DNSHeader {
        questions: p.questions.len() as u16,
        answers: p.answers.len() as u16,
        authoritative_entries: p.authorities.len() as u16,
        additional_entries: p.additional.len() as u16,
        ..p.header
    }
}

/// Writing the questions of `qs` from index `i` on.
pub open spec fn spec_write_questions(b: BufModel, qs: Seq<QuestionV>, i: int) -> (Result<
    (),
    PacketError,
>, BufModel)
    decreases qs.len() - i,
{
    if i < 0 || i >= qs.len() {
        (Ok(()), b)
    } else {
        let (r1, b1) = spec_write_question(b, qs[i]);
        match r1 {
            Err(e) => (Err(e), b1),
            Ok(_) => spec_write_questions(b1, qs, i + 1),
        }
    }
}

/// Writing the records of `rs` from index `i` on.
pub open spec fn spec_write_records(b: BufModel, rs: Seq<RecordV>, i: int) -> (Result<
    (),
    PacketError,
>, BufModel)
    decreases rs.len() - i,
{
    if i < 0 || i >= rs.len() {
        (Ok(()), b)
    } else {
        let (r1, b1) = spec_write_record(b, rs[i]);
        match r1 {
            Err(e) => (Err(e), b1),
            Ok(_) => spec_write_records(b1, rs, i + 1),
        }
    }
}

/// Encoding a whole message: the counted header, then all questions,
/// answers, authorities and additional records, in that fixed order.
pub open spec fn spec_write_packet(b: BufModel, p: PacketV) -> (Result<(), PacketError>, BufModel) {
    let (rh, bh) = spec_write_header(b, spec_counted_header(p));
    match rh {
        Err(e) => (Err(e), bh),
        Ok(_) => {
            let (rq, bq) = spec_write_questions(bh, p.questions, 0);
            match rq {
                Err(e) => (Err(e), bq),
                Ok(_) => {
                    let (ra, ba) = spec_write_records(bq, p.answers, 0);
                    match ra {
                        Err(e) => (Err(e), ba),
                        Ok(_) => {
                            let (ru, bu) = spec_write_records(ba, p.authorities, 0);
                            match ru {
                                Err(e) => (Err(e), bu),
                                Ok(_) => spec_write_records(bu, p.additional, 0),
                            }
                        },
                    }
                },
            }
        },
    }
}

impl DNSPacket {
    /// An empty message with a cleared header.
    pub fn new() -> (r: DNSPacket)
        ensures
            r@ == (PacketV {
                header: crate::protocol::spec_header_new(),
                questions: Seq::<QuestionV>::empty(),
                answers: Seq::<RecordV>::empty(),
                authorities: Seq::<RecordV>::empty(),
                additional: Seq::<RecordV>::empty(),
            }),
    {
        let r = DNSPacket {
            header: DNSHeader::new(),
            questions: Vec::new(),
            answers: Vec::new(),
            authorities: Vec::new(),
            additional: Vec::new(),
        };
        proof {
            assert(r@.questions =~= Seq::<QuestionV>::empty());
            assert(r@.answers =~= Seq::<RecordV>::empty());
            assert(r@.authorities =~= Seq::<RecordV>::empty());
            assert(r@.additional =~= Seq::<RecordV>::empty());
        }
        r
    }

    /// Decodes a whole message at the buffer's cursor.
    #[verifier::rlimit(100)]
    #[verifier::loop_isolation(false)]
    pub fn from_buffer<T: PacketBuffer>(buffer: &mut T) -> (r: Result<DNSPacket, PacketError>)
        requires
            old(buffer).inv(),
        ensures
            final(buffer).inv(),
            ({
                let (rr, m) = spec_read_packet(old(buffer).model());
                &&& final(buffer).model() == m
                &&& match (r, rr) {
                    (Ok(p), Ok(v)) => p@ == v,
                    (Err(e1), Err(e2)) => e1 == e2,
                    _ => false,
                }
            }),
    {
        let ghost m0 = old(buffer).model();
        let mut dns_packet = DNSPacket::new();
        dns_packet.header.read(buffer)?;
        let ghost h = dns_packet.header;
        let ghost m_h = buffer.model();

        let mut i: u16 = 0;
        while i < dns_packet.header.questions
            invariant
                buffer.inv(),
                dns_packet.header == h,
                i <= h.questions,
                dns_packet.answers@.len() == 0,
                dns_packet.authorities@.len() == 0,
                dns_packet.additional@.len() == 0,
                spec_read_questions(m_h, h.questions as int) == with_prefix_questions(
                    qs_view(dns_packet.questions@),
                    spec_read_questions(buffer.model(), h.questions as int - i),
                ),
            decreases h.questions - i,
        {
            let ghost pre = qs_view(dns_packet.questions@);
            let mut question = DNSQuestion::new(String::new(), QueryType::UNKNOWN(0));
            question.read(buffer)?;
            dns_packet.questions.push(question);
            i = i + 1;
            proof {
                assert(qs_view(dns_packet.questions@) =~= pre + seq![question@]);
                assert forall|s: Seq<QuestionV>| true implies (pre + seq![question@]) + s =~= pre
                    + (seq![question@] + s) by {}
            }
        }

        let ghost m_q = buffer.model();
        let mut i2: u16 = 0;
        while i2 < dns_packet.header.answers
            invariant
                buffer.inv(),
                dns_packet.header == h,
                i2 <= h.answers,
                dns_packet.authorities@.len() == 0,
                dns_packet.additional@.len() == 0,
                spec_read_questions(m_h, h.questions as int) == (
                    Ok::<Seq<QuestionV>, PacketError>(qs_view(dns_packet.questions@)),
                    m_q,
                ),
                spec_read_records(m_q, h.answers as int) == with_prefix_records(
                    recs_view(dns_packet.answers@),
                    spec_read_records(buffer.model(), h.answers as int - i2),
                ),
            decreases h.answers - i2,
        {
            let ghost pre = recs_view(dns_packet.answers@);
            let rec = DNSRecord::read(buffer)?;
            dns_packet.answers.push(rec);
            i2 = i2 + 1;
            proof {
                assert(recs_view(dns_packet.answers@) =~= pre + seq![rec@]);
                assert forall|s: Seq<RecordV>| true implies (pre + seq![rec@]) + s =~= pre + (
                seq![rec@] + s) by {}
            }
        }

        let ghost m_a = buffer.model();
        let mut i3: u16 = 0;
        while i3 < dns_packet.header.authoritative_entries
            invariant
                buffer.inv(),
                dns_packet.header == h,
                i3 <= h.authoritative_entries,
                dns_packet.additional@.len() == 0,
                spec_read_questions(m_h, h.questions as int) == (
                    Ok::<Seq<QuestionV>, PacketError>(qs_view(dns_packet.questions@)),
                    m_q,
                ),
                spec_read_records(m_q, h.answers as int) == (
                    Ok::<Seq<RecordV>, PacketError>(recs_view(dns_packet.answers@)),
                    m_a,
                ),
                spec_read_records(m_a, h.authoritative_entries as int) == with_prefix_records(
                    recs_view(dns_packet.authorities@),
                    spec_read_records(buffer.model(), h.authoritative_entries as int - i3),
                ),
            decreases h.authoritative_entries - i3,
        {
            let ghost pre = recs_view(dns_packet.authorities@);
            let rec = DNSRecord::read(buffer)?;
            dns_packet.authorities.push(rec);
            i3 = i3 + 1;
            proof {
                assert(recs_view(dns_packet.authorities@) =~= pre + seq![rec@]);
                assert forall|s: Seq<RecordV>| true implies (pre + seq![rec@]) + s =~= pre + (
                seq![rec@] + s) by {}
            }
        }

        let ghost m_u = buffer.model();
        let mut i4: u16 = 0;
        while i4 < dns_packet.header.additional_entries
            invariant
                buffer.inv(),
                dns_packet.header == h,
                i4 <= h.additional_entries,
                spec_read_questions(m_h, h.questions as int) == (
                    Ok::<Seq<QuestionV>, PacketError>(qs_view(dns_packet.questions@)),
                    m_q,
                ),
                spec_read_records(m_q, h.answers as int) == (
                    Ok::<Seq<RecordV>, PacketError>(recs_view(dns_packet.answers@)),
                    m_a,
                ),
                spec_read_records(m_a, h.authoritative_entries as int) == (
                    Ok::<Seq<RecordV>, PacketError>(recs_view(dns_packet.authorities@)),
                    m_u,
                ),
                spec_read_records(m_u, h.additional_entries as int) == with_prefix_records(
                    recs_view(dns_packet.additional@),
                    spec_read_records(buffer.model(), h.additional_entries as int - i4),
                ),
            decreases h.additional_entries - i4,
        {
            let ghost pre = recs_view(dns_packet.additional@);
            let rec = DNSRecord::read(buffer)?;
            dns_packet.additional.push(rec);
            i4 = i4 + 1;
            proof {
                assert(recs_view(dns_packet.additional@) =~= pre + seq![rec@]);
                assert forall|s: Seq<RecordV>| true implies (pre + seq![rec@]) + s =~= pre + (
                seq![rec@] + s) by {}
            }
        }

        Ok(dns_packet)
    }

    /// Encodes this message at the buffer's cursor, first overwriting the
    /// header's counts with the sections' real lengths.
    #[verifier::rlimit(100)]
    #[verifier::loop_isolation(false)]
    pub fn write<T: PacketBuffer>(&mut self, buffer: &mut T) -> (r: Result<(), PacketError>)
        requires
            old(buffer).inv(),
        ensures
            final(buffer).inv(),
            final(self)@ == (PacketV { header: spec_counted_header(old(self)@), ..old(self)@ }),
            (r, final(buffer).model()) == spec_write_packet(old(buffer).model(), old(self)@),
    {
        proof {
            assert(qs_view(self.questions@).len() == self.questions@.len());
        }
        self.header.questions = #[verifier::truncate] (self.questions.len() as u16);
        self.header.answers = #[verifier::truncate] (self.answers.len() as u16);
        self.header.authoritative_entries = #[verifier::truncate] (self.authorities.len() as u16);
        self.header.additional_entries = #[verifier::truncate] (self.additional.len() as u16);

        let ghost m0w = old(buffer).model();
        self.header.write(buffer)?;

        let ghost p = old(self)@;
        let ghost m_hdr = buffer.model();

        let mut i: usize = 0;
        while i < self.questions.len()
            invariant
                buffer.inv(),
                i <= self.questions@.len(),
                self@.questions == p.questions,
                spec_write_questions(m_hdr, p.questions, 0) == spec_write_questions(
                    buffer.model(),
                    p.questions,
                    i as int,
                ),
            decreases self.questions@.len() - i,
        {
            proof {
                assert(p.questions[i as int] == self.questions@[i as int]@);
            }
            let question = &self.questions[i];
            question.write(buffer)?;
            i = i + 1;
        }

        let ghost m_q = buffer.model();
        let mut i2: usize = 0;
        while i2 < self.answers.len()
            invariant
                buffer.inv(),
                i2 <= self.answers@.len(),
                self@.answers == p.answers,
                spec_write_questions(m_hdr, p.questions, 0) == (
                    Ok::<(), PacketError>(()),
                    m_q,
                ),
                spec_write_records(m_q, p.answers, 0) == spec_write_records(
                    buffer.model(),
                    p.answers,
                    i2 as int,
                ),
            decreases self.answers@.len() - i2,
        {
            proof {
                assert(p.answers[i2 as int] == self.answers@[i2 as int]@);
            }
            let record = &self.answers[i2];
            record.write(buffer)?;
            i2 = i2 + 1;
        }

        let ghost m_a = buffer.model();
        let mut i3: usize = 0;
        while i3 < self.authorities.len()
            invariant
                buffer.inv(),
                i3 <= self.authorities@.len(),
                self@.authorities == p.authorities,
                spec_write_questions(m_hdr, p.questions, 0) == (
                    Ok::<(), PacketError>(()),
                    m_q,
                ),
                spec_write_records(m_q, p.answers, 0) == (Ok::<(), PacketError>(()), m_a),
                spec_write_records(m_a, p.authorities, 0) == spec_write_records(
                    buffer.model(),
                    p.authorities,
                    i3 as int,
                ),
            decreases self.authorities@.len() - i3,
        {
            proof {
                assert(p.authorities[i3 as int] == self.authorities@[i3 as int]@);
            }
            let record = &self.authorities[i3];
            record.write(buffer)?;
            i3 = i3 + 1;
        }

        let ghost m_u = buffer.model();
        let mut i4: usize = 0;
        while i4 < self.additional.len()
            invariant
                buffer.inv(),
                i4 <= self.additional@.len(),
                self@.additional == p.additional,
                spec_write_questions(m_hdr, p.questions, 0) == (
                    Ok::<(), PacketError>(()),
                    m_q,
                ),
                spec_write_records(m_q, p.answers, 0) == (Ok::<(), PacketError>(()), m_a),
                spec_write_records(m_a, p.authorities, 0) == (Ok::<(), PacketError>(()), m_u),
                spec_write_records(m_u, p.additional, 0) == spec_write_records(
                    buffer.model(),
                    p.additional,
                    i4 as int,
                ),
            decreases self.additional@.len() - i4,
        {
            proof {
                assert(p.additional[i4 as int] == self.additional@[i4 as int]@);
            }
            let record = &self.additional[i4];
            record.write(buffer)?;
            i4 = i4 + 1;
        }

        Ok(())
    }
}

impl Default for DNSPacket {
    fn default() -> (r: Self)
        ensures
            r@ == (PacketV {
                header: crate::protocol::spec_header_new(),
                questions: Seq::<QuestionV>::empty(),
                answers: Seq::<RecordV>::empty(),
                authorities: Seq::<RecordV>::empty(),
                additional: Seq::<RecordV>::empty(),
            }),
    {
        DNSPacket::new()
    }
}

} // verus!
