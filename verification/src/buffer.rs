//! The packet buffer: a fixed-capacity byte container with random-access and
//! cursor-based operations, the foundation of the codec.
//!
//! Every operation is specified against [`BufModel`], a ghost pair of the
//! buffer's byte contents and its cursor.  The spec-level operations
//! (`spec_get`, `spec_read`, ...) are total functions from model to
//! result-and-model; each executable operation returns exactly what its spec
//! operation says, error cases included.

use vstd::prelude::*;
use vstd::slice::slice_subrange;
use vstd::string::StringSliceAdditionalSpecFns;

verus! {

/// The fixed capacity of a packet buffer, the conventional maximum size of a
/// UDP DNS message.
pub const PACKET_SIZE: usize = 512;

/// The failure conditions of the codec.
#[derive(Clone, Copy, Debug, PartialEq, Eq)]
pub enum PacketError {
    /// A buffer access addressed the named position, which lies at or beyond
    /// the capacity.
    OutOfRange(usize),
    /// A domain-name label exceeded the 63-byte limit during encoding.
    InvalidInput,
    /// The record type has no wire serialization (OPT and unknown types).
    UnsupportedWrite,
    /// A compressed name followed more pointers than the hop limit allows.
    PointerLoop,
}

/// The mathematical model of a packet buffer: its byte contents and the
/// cursor position.  The cursor may point beyond the capacity (an explicit
/// seek is not bounds-checked); reads and writes through it then fail.
pub struct BufModel {
    pub bytes: Seq<u8>,
    pub pos: int,
}

impl BufModel {
    /// A well-formed model holds exactly the capacity in bytes, and its
    /// cursor fits in a machine word.
    pub open spec fn wf(self) -> bool {
        &&& self.bytes.len() == PACKET_SIZE
        &&& 0 <= self.pos <= usize::MAX
    }

    /// Random-access read: the byte at `pos`, or out-of-range.
    pub open spec fn spec_get(self, pos: int) -> Result<u8, PacketError> {
        if 0 <= pos < PACKET_SIZE {
            Ok(self.bytes[pos])
        } else {
            Err(PacketError::OutOfRange(pos as usize))
        }
    }

    /// Random-access read of `len` bytes starting at `start`.
    pub open spec fn spec_get_range(self, start: int, len: int) -> Result<Seq<u8>, PacketError> {
        if 0 <= start && 0 <= len && start + len <= PACKET_SIZE {
            Ok(self.bytes.subrange(start, start + len))
        } else {
            Err(PacketError::OutOfRange(
                if start + len > usize::MAX { usize::MAX } else { (start + len) as usize },
            ))
        }
    }

    /// Random-access write; the cursor does not move.
    pub open spec fn spec_set(self, pos: int, val: u8) -> (Result<(), PacketError>, BufModel) {
        if 0 <= pos < PACKET_SIZE {
            (Ok(()), BufModel { bytes: self.bytes.update(pos, val), pos: self.pos })
        } else {
            (Err(PacketError::OutOfRange(pos as usize)), self)
        }
    }

    /// Sequential read: the byte under the cursor, advancing it.
    pub open spec fn spec_read(self) -> (Result<u8, PacketError>, BufModel) {
        if 0 <= self.pos < PACKET_SIZE {
            (Ok(self.bytes[self.pos]), BufModel { bytes: self.bytes, pos: self.pos + 1 })
        } else {
            (Err(PacketError::OutOfRange(self.pos as usize)), self)
        }
    }

    /// Sequential write: stores under the cursor, advancing it.
    pub open spec fn spec_write(self, val: u8) -> (Result<(), PacketError>, BufModel) {
        if 0 <= self.pos < PACKET_SIZE {
            (Ok(()), BufModel { bytes: self.bytes.update(self.pos, val), pos: self.pos + 1 })
        } else {
            (Err(PacketError::OutOfRange(self.pos as usize)), self)
        }
    }

    /// Sequential read of a 16-bit big-endian integer.
    pub open spec fn spec_read_u16(self) -> (Result<u16, PacketError>, BufModel) {
        let (r1, b1) = self.spec_read();
        match r1 {
            Ok(hi) => {
                let (r2, b2) = b1.spec_read();
                match r2 {
                    Ok(lo) => (Ok(((hi as u16) << 8) | (lo as u16)), b2),
                    Err(e) => (Err(e), b2),
                }
            },
            Err(e) => (Err(e), b1),
        }
    }

    /// Sequential read of a 32-bit big-endian integer.
    pub open spec fn spec_read_u32(self) -> (Result<u32, PacketError>, BufModel) {
        let (r1, b1) = self.spec_read_u16();
        match r1 {
            Ok(hi) => {
                let (r2, b2) = b1.spec_read_u16();
                match r2 {
                    Ok(lo) => (Ok(((hi as u32) << 16) | (lo as u32)), b2),
                    Err(e) => (Err(e), b2),
                }
            },
            Err(e) => (Err(e), b1),
        }
    }

    /// Sequential write of a 16-bit big-endian integer.
    pub open spec fn spec_write_u16(self, val: u16) -> (Result<(), PacketError>, BufModel) {
        let (r1, b1) = self.spec_write(((val >> 8) & 0xFF) as u8);
        match r1 {
            Ok(_) => b1.spec_write((val & 0xFF) as u8),
            Err(e) => (Err(e), b1),
        }
    }

    /// Sequential write of a 32-bit big-endian integer.
    pub open spec fn spec_write_u32(self, val: u32) -> (Result<(), PacketError>, BufModel) {
        let (r1, b1) = self.spec_write_u16(((val >> 16) & 0xFFFF) as u16);
        match r1 {
            Ok(_) => b1.spec_write_u16((val & 0xFFFF) as u16),
            Err(e) => (Err(e), b1),
        }
    }

    /// Random-access write of a 16-bit big-endian integer, for length
    /// patching; the cursor does not move.
    pub open spec fn spec_set_u16(self, pos: int, val: u16) -> (Result<(), PacketError>, BufModel) {
        let (r1, b1) = self.spec_set(pos, (val >> 8) as u8);
        match r1 {
            Ok(_) => b1.spec_set(pos + 1, (val & 0xFF) as u8),
            Err(e) => (Err(e), b1),
        }
    }

    /// Absolute cursor reposition; never fails.
    pub open spec fn spec_seek(self, pos: int) -> BufModel {
        BufModel { bytes: self.bytes, pos: pos }
    }

    /// Relative cursor advance; never fails.
    pub open spec fn spec_step(self, steps: int) -> BufModel {
        BufModel { bytes: self.bytes, pos: self.pos + steps }
    }
}

/// A bounded byte container with both position-addressed and cursor-based
/// operations, as the codec layers require.
///
/// `model()` gives the buffer's mathematical content and `inv()` its
/// invariant; every operation's contract is exact, stated through the
/// spec-level operations on [`BufModel`].
pub trait PacketBuffer: Sized {
    /// The buffer's byte contents and cursor.
    spec fn model(&self) -> BufModel;

    /// The representation invariant of the implementing type.
    spec fn inv(&self) -> bool;

    /// The invariant keeps the model well formed.
    proof fn inv_implies_wf(&self)
        requires
            self.inv(),
        ensures
            self.model().wf(),
    ;

    /// The byte at `pos`, without moving the cursor.
    fn get(&mut self, pos: usize) -> (r: Result<u8, PacketError>)
        requires
            old(self).inv(),
        ensures
            final(self).inv(),
            final(self).model() == old(self).model(),
            r == old(self).model().spec_get(pos as int),
    ;

    /// The `len` bytes starting at `pos`, without moving the cursor.
    fn get_range(&mut self, start: usize, len: usize) -> (r: Result<&[u8], PacketError>)
        requires
            old(self).inv(),
        ensures
            final(self).inv(),
            final(self).model() == old(self).model(),
            (match r {
                Ok(s) => old(self).model().spec_get_range(start as int, len as int)
                    == Ok::<Seq<u8>, PacketError>(s@),
                Err(e) => old(self).model().spec_get_range(start as int, len as int)
                    == Err::<Seq<u8>, PacketError>(e),
            }),
    ;

    /// Stores `val` at `pos`, without moving the cursor.
    fn set(&mut self, pos: usize, val: u8) -> (r: Result<(), PacketError>)
        requires
            old(self).inv(),
        ensures
            final(self).inv(),
            (r, final(self).model()) == old(self).model().spec_set(pos as int, val),
    ;

    /// The current cursor.
    fn pos(&self) -> (r: usize)
        requires
            self.inv(),
        ensures
            r as int == self.model().pos,
    ;

    /// Moves the cursor to the absolute position `pos`; validity is checked
    /// only by later reads and writes.
    fn seek(&mut self, pos: usize) -> (r: Result<(), PacketError>)
        requires
            old(self).inv(),
        ensures
            final(self).inv(),
            r is Ok,
            final(self).model() == old(self).model().spec_seek(pos as int),
    ;

    /// Advances the cursor by `steps`; validity is checked only by later
    /// reads and writes.
    fn step(&mut self, steps: usize) -> (r: Result<(), PacketError>)
        requires
            old(self).inv(),
            old(self).model().pos + steps <= usize::MAX,
        ensures
            final(self).inv(),
            r is Ok,
            final(self).model() == old(self).model().spec_step(steps as int),
    ;

    /// Reads the byte under the cursor and advances it.
    fn read(&mut self) -> (r: Result<u8, PacketError>)
        requires
            old(self).inv(),
        ensures
            final(self).inv(),
            (r, final(self).model()) == old(self).model().spec_read(),
    ;

    /// Writes `val` under the cursor and advances it.
    fn write(&mut self, val: u8) -> (r: Result<(), PacketError>)
        requires
            old(self).inv(),
        ensures
            final(self).inv(),
            (r, final(self).model()) == old(self).model().spec_write(val),
    ;

    /// Reads a 16-bit big-endian integer at the cursor.
    fn read_u16(&mut self) -> (r: Result<u16, PacketError>)
        requires
            old(self).inv(),
        ensures
            final(self).inv(),
            (r, final(self).model()) == old(self).model().spec_read_u16(),
    {
        let hi = self.read()?;
        let lo = self.read()?;
        Ok(((hi as u16) << 8) | (lo as u16))
    }

    /// Reads a 32-bit big-endian integer at the cursor.
    fn read_u32(&mut self) -> (r: Result<u32, PacketError>)
        requires
            old(self).inv(),
        ensures
            final(self).inv(),
            (r, final(self).model()) == old(self).model().spec_read_u32(),
    {
        let hi = self.read_u16()?;
        let lo = self.read_u16()?;
        Ok(((hi as u32) << 16) | (lo as u32))
    }

    /// Writes a 16-bit integer at the cursor in big-endian order.
    fn write_u16(&mut self, val: u16) -> (r: Result<(), PacketError>)
        requires
            old(self).inv(),
        ensures
            final(self).inv(),
            (r, final(self).model()) == old(self).model().spec_write_u16(val),
    {
        self.write(((val >> 8) & 0xFF) as u8)?;
        self.write((val & 0xFF) as u8)?;
        Ok(())
    }

    /// Writes a 32-bit integer at the cursor in big-endian order.
    fn write_u32(&mut self, val: u32) -> (r: Result<(), PacketError>)
        requires
            old(self).inv(),
        ensures
            final(self).inv(),
            (r, final(self).model()) == old(self).model().spec_write_u32(val),
    {
        self.write_u16(((val >> 16) & 0xFFFF) as u16)?;
        self.write_u16((val & 0xFFFF) as u16)?;
        Ok(())
    }

    /// Writes a domain name as length-prefixed labels followed by the
    /// terminating zero length byte, splitting `qname` on the label
    /// separator; a label longer than 63 bytes is invalid input.
    fn write_qname(&mut self, qname: &str) -> (r: Result<(), PacketError>)
        requires
            old(self).inv(),
        ensures
            final(self).inv(),
            (r, final(self).model()) == crate::name::spec_write_name(
                old(self).model(),
                qname.spec_bytes(),
            ),
    ;

    /// Reads one (possibly compressed) domain name at the cursor, appending
    /// its dotted lowercased text to `outstr`; on failure `outstr` is
    /// unchanged.
    fn read_qname(&mut self, outstr: &mut String) -> (r: Result<(), PacketError>)
        requires
            old(self).inv(),
        ensures
            final(self).inv(),
            final(self).model().bytes == old(self).model().bytes,
            ({
                let (rr, cur) = crate::name::spec_parse_name(
                    old(self).model().bytes,
                    old(self).model().pos,
                    old(outstr)@,
                );
                &&& final(self).model().pos == cur
                &&& match (r, rr) {
                    (Ok(()), Ok(name)) => final(outstr)@ == name,
                    (Err(e1), Err(e2)) => e1 == e2 && final(outstr)@ == old(outstr)@,
                    _ => false,
                }
            }),
    ;

    /// Writes a 16-bit integer in big-endian order at the absolute position
    /// `pos`, for patching a reserved length field; the cursor does not move.
    fn set_u16(&mut self, pos: usize, val: u16) -> (r: Result<(), PacketError>)
        requires
            old(self).inv(),
            pos < usize::MAX,
        ensures
            final(self).inv(),
            (r, final(self).model()) == old(self).model().spec_set_u16(pos as int, val),
    {
        self.set(pos, (val >> 8) as u8)?;
        self.set(pos + 1, (val & 0xFF) as u8)?;
        Ok(())
    }
}

/// The packet buffer implementation: a byte array of the fixed capacity and
/// a cursor.
pub struct BytePacketBuffer {
    buf: Vec<u8>,
    pos: usize,
}

impl BytePacketBuffer {
    /// A fresh buffer: all zero, cursor at the start.
    pub fn new() -> (r: Self)
        ensures
            r.inv(),
            r.model() == (BufModel { bytes: Seq::new(PACKET_SIZE as nat, |i: int| 0u8), pos: 0int }),
    {
        let mut buf: Vec<u8> = Vec::new();
        while buf.len() < PACKET_SIZE
            invariant
                buf@ =~= Seq::new(buf@.len(), |i: int| 0u8),
                buf@.len() <= PACKET_SIZE,
            decreases PACKET_SIZE - buf.len(),
        {
            buf.push(0);
        }
        proof {
            assert(buf@ =~= Seq::new(PACKET_SIZE as nat, |i: int| 0u8));
        }
        BytePacketBuffer { buf, pos: 0 }
    }
}

impl Default for BytePacketBuffer {
    fn default() -> (r: Self)
        ensures
            r.inv(),
            r.model() == (BufModel { bytes: Seq::new(PACKET_SIZE as nat, |i: int| 0u8), pos: 0int }),
    {
        BytePacketBuffer::new()
    }
}

impl PacketBuffer for BytePacketBuffer {
    closed spec fn model(&self) -> BufModel {
        BufModel { bytes: self.buf@, pos: self.pos as int }
    }

    closed spec fn inv(&self) -> bool {
        self.buf@.len() == PACKET_SIZE
    }

    proof fn inv_implies_wf(&self) {
    }

    fn get(&mut self, pos: usize) -> (r: Result<u8, PacketError>) {
        if pos >= PACKET_SIZE {
            return Err(PacketError::OutOfRange(pos));
        }
        Ok(self.buf[pos])
    }

    fn get_range(&mut self, start: usize, len: usize) -> (r: Result<&[u8], PacketError>) {
        if start > PACKET_SIZE || len > PACKET_SIZE - start {
            return Err(PacketError::OutOfRange(start.saturating_add(len)));
        }
        Ok(slice_subrange(self.buf.as_slice(), start, start + len))
    }

    fn set(&mut self, pos: usize, val: u8) -> (r: Result<(), PacketError>) {
        if pos >= PACKET_SIZE {
            return Err(PacketError::OutOfRange(pos));
        }
        self.buf.set(pos, val);
        Ok(())
    }

    fn pos(&self) -> (r: usize) {
        self.pos
    }

    fn seek(&mut self, pos: usize) -> (r: Result<(), PacketError>) {
        self.pos = pos;
        Ok(())
    }

    fn step(&mut self, steps: usize) -> (r: Result<(), PacketError>) {
        self.pos = self.pos + steps;
        Ok(())
    }

    fn read(&mut self) -> (r: Result<u8, PacketError>) {
        if self.pos >= PACKET_SIZE {
            return Err(PacketError::OutOfRange(self.pos));
        }
        let ret = self.buf[self.pos];
        self.pos = self.pos + 1;
        Ok(ret)
    }

    fn write(&mut self, val: u8) -> (r: Result<(), PacketError>) {
        if self.pos >= PACKET_SIZE {
            return Err(PacketError::OutOfRange(self.pos));
        }
        self.buf.set(self.pos, val);
        self.pos = self.pos + 1;
        Ok(())
    }

    fn write_qname(&mut self, qname: &str) -> (r: Result<(), PacketError>) {
        let bytes = qname.as_bytes();
        if bytes.len() == 0 {
            return self.write(0);
        }
        let ghost s = bytes@;
        let mut i: usize = 0;
        loop
            invariant
                self.inv(),
                i <= bytes@.len(),
                bytes@ == s,
                s == qname.spec_bytes(),
                0 < s.len() <= usize::MAX,
                crate::name::spec_write_labels(old(self).model(), s, 0)
                    == crate::name::spec_write_labels(self.model(), s, i as int),
            decreases bytes@.len() - i,
        {
            let ghost mi = self.model();
            // Find the end of the current label.
            let mut j = i;
            while j < bytes.len() && bytes[j] != crate::name::LABEL_SEPARATOR
                invariant
                    i <= j <= bytes@.len(),
                    bytes@ == s,
                    crate::name::dot_pos_from(s, i as int) == crate::name::dot_pos_from(
                        s,
                        j as int,
                    ),
                decreases bytes@.len() - j,
            {
                j = j + 1;
            }
            proof {
                assert(crate::name::dot_pos_from(s, j as int) == j as int);
            }
            if j - i > crate::name::MAX_LABEL_LEN {
                return Err(PacketError::InvalidInput);
            }
            self.write((j - i) as u8)?;
            let ghost m1 = self.model();
            let mut k = i;
            while k < j
                invariant
                    self.inv(),
                    i <= k <= j <= bytes@.len(),
                    bytes@ == s,
                    s == qname.spec_bytes(),
                    crate::name::dot_pos_from(s, i as int) == j as int,
                    j - i <= crate::name::MAX_LABEL_LEN,
                    mi.spec_write((j - i) as u8) == (Ok::<(), PacketError>(()), m1),
                    crate::name::spec_write_labels(old(self).model(), s, 0)
                        == crate::name::spec_write_labels(mi, s, i as int),
                    crate::name::spec_write_bytes(m1, s, i as int, j as int)
                        == crate::name::spec_write_bytes(self.model(), s, k as int, j as int),
                decreases j - k,
            {
                match self.write(bytes[k]) {
                    Ok(_) => {},
                    Err(e) => {
                        proof {
                            assert(crate::name::spec_write_labels(mi, s, i as int) == (
                            Err::<(), PacketError>(e),
                            self.model(),
                            ));
                        }
                        return Err(e);
                    },
                }
                k = k + 1;
            }
            if j == bytes.len() {
                proof {
                    assert(crate::name::spec_write_labels(mi, s, i as int) == (
                    Ok::<(), PacketError>(()),
                    self.model(),
                    ));
                }
                return self.write(0);
            }
            proof {
                assert(crate::name::spec_write_labels(mi, s, i as int)
                    == crate::name::spec_write_labels(self.model(), s, j + 1));
            }
            i = j + 1;
        }
    }

    fn read_qname(&mut self, outstr: &mut String) -> (r: Result<(), PacketError>) {
        let mut pos = self.pos();
        let mut local = String::new();
        let mut first: bool = true;
        let mut jumped: bool = false;
        let mut jumps_left: usize = crate::name::MAX_POINTER_JUMPS;
        loop
            invariant
                self.inv(),
                self.model().bytes == old(self).model().bytes,
                outstr@ == old(outstr)@,
                crate::name::spec_parse_name(
                    old(self).model().bytes,
                    old(self).model().pos,
                    old(outstr)@,
                ) == crate::name::spec_parse_name_at(
                    self.model().bytes,
                    pos as int,
                    outstr@ + local@,
                    first,
                    jumped,
                    self.model().pos,
                    jumps_left as int,
                ),
            decreases jumps_left, (if pos >= PACKET_SIZE {
                0int
            } else {
                PACKET_SIZE - pos as int
            }),
        {
            let len = self.get(pos)?;
            if len & 0xC0 == 0xC0 {
                // A compression pointer: continue at the 14-bit target offset.
                let next = self.get(pos + 1)?;
                if jumps_left == 0 {
                    return Err(PacketError::PointerLoop);
                }
                if !jumped {
                    // Park the real cursor just past the pointer; sequential
                    // reading resumes there after the name.
                    self.seek(pos + 2)?;
                }
                jumped = true;
                pos = (((len as u16 ^ 0xC0) << 8) | (next as u16)) as usize;
                jumps_left = jumps_left - 1;
            } else if len == 0 {
                // The terminating zero length byte.
                if !jumped {
                    self.seek(pos + 1)?;
                }
                outstr.append(local.as_str());
                return Ok(());
            } else {
                let raw = self.get_range(pos + 1, len as usize)?;
                let ghost label = raw@;
                let ghost local0 = local@;
                let ghost first0 = first;
                let decoded = crate::name::utf8_lossy(raw);
                let lower = crate::name::lowercase(decoded.as_str());
                proof {
                    crate::name::lemma_label_chars_of_ascii(label, decoded@, lower@);
                    reveal_strlit(".");
                }
                if !first {
                    local.append(".");
                }
                local.append(lower.as_str());
                first = false;
                pos = pos + 1 + len as usize;
                proof {
                    assert("."@ =~= seq!['.']);
                    assert(outstr@ + local@ =~= (outstr@ + local0) + (if first0 {
                        Seq::<char>::empty()
                    } else {
                        seq!['.']
                    }) + crate::name::label_chars(label));
                }
            }
        }
    }
}

} // verus!
