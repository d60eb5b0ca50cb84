//! The domain-name codec: length-prefixed labels on the wire, with backward
//! compression pointers on the read side.
//!
//! A name is kept in memory as a dotted string (`www.example.com`).  On the
//! wire each label is one length byte (at most 63) followed by the label's
//! raw bytes, and the sequence ends with a zero length byte; at any point a
//! name may instead continue with a two-byte compression pointer whose low
//! 14 bits address an earlier offset of the same packet.
//!
//! `spec_write_name` and `spec_parse_name_at` are the exact mathematical
//! counterparts of the executable encoder and decoder, error cases and
//! cursor behaviour included.

use vstd::prelude::*;
use vstd::utf8::is_ascii_chars;
use crate::buffer::{BufModel, PacketError, PACKET_SIZE};

verus! {

/// The longest label the wire format can carry: its length must fit the six
/// low bits of the length byte.
pub const MAX_LABEL_LEN: usize = 63;

/// How many compression pointers a single name may follow before decoding
/// fails; a crafted packet with a pointer cycle is rejected instead of
/// looping forever.
pub const MAX_POINTER_JUMPS: usize = 64;

/// The byte that separates labels in the dotted string form (`.`).
pub const LABEL_SEPARATOR: u8 = 46;

// ---------------------------------------------------------------------------
// Lowercasing and byte-to-text decoding
// ---------------------------------------------------------------------------

/// All bytes of `s` are ASCII.
pub open spec fn ascii_bytes(s: Seq<u8>) -> bool {
    forall|i: int| 0 <= i < s.len() ==> s[i] < 0x80
}

/// ASCII lowercasing of one byte.
pub open spec fn ascii_lower_byte(b: u8) -> u8 {
    if 65 <= b <= 90 {
        (b + 32) as u8
    } else {
        b
    }
}

/// ASCII lowercasing of a character sequence: uppercase ASCII letters are
/// mapped down, everything else is unchanged.
pub open spec fn ascii_lower_chars(s: Seq<char>) -> Seq<char> {
    Seq::new(s.len(), |i: int| if 'A' <= s[i] && s[i] <= 'Z' {
        (((s[i] as u8) + 32) as u8) as char
    } else {
        s[i]
    })
}

/// The characters that `String::from_utf8_lossy` yields for a byte sequence.
pub uninterp spec fn lossy_of(bytes: Seq<u8>) -> Seq<char>;

/// The characters that `str::to_lowercase` yields for a character sequence.
pub uninterp spec fn lower_of(chars: Seq<char>) -> Seq<char>;

/// What one wire label contributes to the decoded dotted name: its bytes
/// decoded as text and lowercased.  For ASCII label bytes both steps are
/// fully determined; other bytes go through the named results of the two
/// library routines.
pub open spec fn label_chars(l: Seq<u8>) -> Seq<char> {
    if ascii_bytes(l) {
        Seq::new(l.len(), |i: int| ascii_lower_byte(l[i]) as char)
    } else {
        lower_of(lossy_of(l))
    }
}

/// What a free-text payload decodes to: its bytes as text, not lowercased.
/// For ASCII bytes the decoding is fully determined; other bytes go through
/// the named result of the lossy decoder.
pub open spec fn txt_chars(l: Seq<u8>) -> Seq<char> {
    if ascii_bytes(l) {
        Seq::new(l.len(), |i: int| l[i] as char)
    } else {
        lossy_of(l)
    }
}

/// Relies on `String::from_utf8_lossy`: the characters depend on the bytes
/// alone, and on ASCII input the decoding is the identity (ASCII is valid
/// UTF-8, which the lossy decoder passes through unchanged).
#[verifier::external_body]
pub(crate) fn utf8_lossy(bytes: &[u8]) -> (r: String)
    ensures
        r@ == lossy_of(bytes@),
        ascii_bytes(bytes@) ==> r@ == Seq::new(bytes@.len(), |i: int| bytes@[i] as char),
{
    String::from_utf8_lossy(bytes).into_owned()
}

/// Relies on `str::to_lowercase`: the result depends on the characters
/// alone, and the Unicode lowercase mapping of an ASCII character is its
/// ASCII lowercase.
#[verifier::external_body]
pub(crate) fn lowercase(s: &str) -> (r: String)
    ensures
        r@ == lower_of(s@),
        is_ascii_chars(s@) ==> r@ == ascii_lower_chars(s@),
{
    s.to_lowercase()
}

// ---------------------------------------------------------------------------
// Encoding
// ---------------------------------------------------------------------------

/// The index of the first label separator at or after `i`, or the length of
/// `s` when the rest of the name is a single label.
pub open spec fn dot_pos_from(s: Seq<u8>, i: int) -> int
    decreases s.len() - i,
{
    if 0 <= i < s.len() {
        if s[i] == LABEL_SEPARATOR {
            i
        } else {
            dot_pos_from(s, i + 1)
        }
    } else {
        s.len() as int
    }
}

/// The first separator at or after `i` lies between `i` and the end.
pub proof fn lemma_dot_pos_from_bounds(s: Seq<u8>, i: int)
    requires
        0 <= i <= s.len(),
    ensures
        i <= dot_pos_from(s, i) <= s.len(),
    decreases s.len() - i,
{
    if i < s.len() && s[i] != LABEL_SEPARATOR {
        lemma_dot_pos_from_bounds(s, i + 1);
    }
}

/// Sequential write of the bytes `s[i..j]`, stopping at the first failure.
pub open spec fn spec_write_bytes(b: BufModel, s: Seq<u8>, i: int, j: int) -> (Result<
    (),
    PacketError,
>, BufModel)
    decreases j - i,
{
    if i < j && 0 <= i < s.len() {
        let (r, b1) = b.spec_write(s[i]);
        match r {
            Ok(_) => spec_write_bytes(b1, s, i + 1, j),
            Err(e) => (Err(e), b1),
        }
    } else {
        (Ok(()), b)
    }
}

/// Writes the labels of the name bytes `s` from index `i` on: for each label
/// a length byte then the label's bytes, failing on a label longer than
/// [`MAX_LABEL_LEN`].  No terminating zero is written here.
pub open spec fn spec_write_labels(b: BufModel, s: Seq<u8>, i: int) -> (Result<
    (),
    PacketError,
>, BufModel)
    decreases s.len() - i via spec_write_labels_decreases
{
    let j = dot_pos_from(s, i);
    if j - i > MAX_LABEL_LEN {
        (Err(PacketError::InvalidInput), b)
    } else {
        let (r1, b1) = b.spec_write((j - i) as u8);
        match r1 {
            Ok(_) => {
                let (r2, b2) = spec_write_bytes(b1, s, i, j);
                match r2 {
                    Ok(_) => if j == s.len() {
                        (Ok(()), b2)
                    } else {
                        spec_write_labels(b2, s, j + 1)
                    },
                    Err(e) => (Err(e), b2),
                }
            },
            Err(e) => (Err(e), b1),
        }
    }
}

#[via_fn]
proof fn spec_write_labels_decreases(b: BufModel, s: Seq<u8>, i: int) {
    if 0 <= i <= s.len() {
        lemma_dot_pos_from_bounds(s, i);
    }
}

/// Writes the full wire form of the name bytes `s`: its labels followed by
/// the terminating zero length byte.  The empty name is the bare terminator.
pub open spec fn spec_write_name(b: BufModel, s: Seq<u8>) -> (Result<(), PacketError>, BufModel) {
    if s.len() == 0 {
        b.spec_write(0)
    } else {
        let (r1, b1) = spec_write_labels(b, s, 0);
        match r1 {
            Ok(_) => b1.spec_write(0),
            Err(e) => (Err(e), b1),
        }
    }
}

/// Writes `bytes[from..to]` to the buffer through the cursor.
pub(crate) fn write_bytes_range<T: crate::buffer::PacketBuffer>(
    buffer: &mut T,
    bytes: &[u8],
    from: usize,
    to: usize,
) -> (r: Result<(), PacketError>)
    requires
        old(buffer).inv(),
        from <= to <= bytes@.len(),
    ensures
        final(buffer).inv(),
        (r, final(buffer).model()) == spec_write_bytes(
            old(buffer).model(),
            bytes@,
            from as int,
            to as int,
        ),
{
    let mut k = from;
    while k < to
        invariant
            buffer.inv(),
            from <= k <= to <= bytes@.len(),
            spec_write_bytes(old(buffer).model(), bytes@, from as int, to as int)
                == spec_write_bytes(buffer.model(), bytes@, k as int, to as int),
        decreases to - k,
    {
        match buffer.write(bytes[k]) {
            Ok(_) => {},
            Err(e) => {
                return Err(e);
            },
        }
        k = k + 1;
    }
    Ok(())
}

/// A sequential write never moves the cursor backwards and never changes
/// how many bytes the buffer holds; the same holds for every composite
/// built from it.
pub proof fn lemma_write_bytes_frame(b: BufModel, s: Seq<u8>, i: int, j: int)
    requires
        b.bytes.len() == PACKET_SIZE,
    ensures
        spec_write_bytes(b, s, i, j).1.pos >= b.pos,
        spec_write_bytes(b, s, i, j).1.bytes.len() == b.bytes.len(),
    decreases j - i,
{
    if i < j && 0 <= i < s.len() {
        let (r, b1) = b.spec_write(s[i]);
        if r is Ok {
            lemma_write_bytes_frame(b1, s, i + 1, j);
        }
    }
}

/// As [`lemma_write_bytes_frame`], for the label writer.
pub proof fn lemma_write_labels_frame(b: BufModel, s: Seq<u8>, i: int)
    requires
        b.bytes.len() == PACKET_SIZE,
    ensures
        spec_write_labels(b, s, i).1.pos >= b.pos,
        spec_write_labels(b, s, i).1.bytes.len() == b.bytes.len(),
    decreases s.len() - i,
{
    if 0 <= i <= s.len() {
        lemma_dot_pos_from_bounds(s, i);
    }
    let j = dot_pos_from(s, i);
    if !(j - i > MAX_LABEL_LEN) {
        let (r1, b1) = b.spec_write((j - i) as u8);
        if r1 is Ok {
            lemma_write_bytes_frame(b1, s, i, j);
            let (r2, b2) = spec_write_bytes(b1, s, i, j);
            if r2 is Ok && j != s.len() {
                lemma_write_labels_frame(b2, s, j + 1);
            }
        }
    }
}

/// As [`lemma_write_bytes_frame`], for the whole name writer.
pub proof fn lemma_write_name_frame(b: BufModel, s: Seq<u8>)
    requires
        b.bytes.len() == PACKET_SIZE,
    ensures
        spec_write_name(b, s).1.pos >= b.pos,
        spec_write_name(b, s).1.bytes.len() == b.bytes.len(),
{
    if s.len() != 0 {
        lemma_write_labels_frame(b, s, 0);
    }
}

// ---------------------------------------------------------------------------
// Decoding
// ---------------------------------------------------------------------------

/// One step of name decoding from `bytes` at the local offset `pos`.
///
/// `acc` is the dotted text decoded so far and `first` whether a separator
/// is still owed before the next label.  `cursor` is the buffer cursor the
/// decoder will leave behind: it tracks the position two bytes past the
/// first compression pointer once `jumped` is set, and one past the
/// terminating zero otherwise.  `jumps_left` bounds how many further
/// pointers may be followed.
///
/// Returns the decoded name (or the failure) together with the final
/// cursor.
pub open spec fn spec_parse_name_at(
    bytes: Seq<u8>,
    pos: int,
    acc: Seq<char>,
    first: bool,
    jumped: bool,
    cursor: int,
    jumps_left: int,
) -> (Result<Seq<char>, PacketError>, int)
    decreases jumps_left, (if pos >= PACKET_SIZE { 0int } else { PACKET_SIZE - pos }),
{
    if !(0 <= pos < PACKET_SIZE) {
        (Err(PacketError::OutOfRange(pos as usize)), cursor)
    } else {
        let len = bytes[pos];
        if len & 0xC0 == 0xC0 {
            if pos + 1 >= PACKET_SIZE {
                (Err(PacketError::OutOfRange((pos + 1) as usize)), cursor)
            } else if jumps_left <= 0 {
                (Err(PacketError::PointerLoop), cursor)
            } else {
                let target = (((len as u16) ^ 0xC0) << 8) | (bytes[pos + 1] as u16);
                spec_parse_name_at(
                    bytes,
                    target as int,
                    acc,
                    first,
                    true,
                    if jumped {
                        cursor
                    } else {
                        pos + 2
                    },
                    jumps_left - 1,
                )
            }
        } else if len == 0 {
            (Ok(acc), if jumped {
                cursor
            } else {
                pos + 1
            })
        } else {
            if pos + 1 + len > PACKET_SIZE {
                (Err(PacketError::OutOfRange((pos + 1 + len) as usize)), cursor)
            } else {
                let label = bytes.subrange(pos + 1, pos + 1 + len as int);
                let acc2 = acc + (if first {
                    Seq::<char>::empty()
                } else {
                    seq!['.']
                }) + label_chars(label);
                spec_parse_name_at(bytes, pos + 1 + len, acc2, false, jumped, cursor, jumps_left)
            }
        }
    }
}

/// Decoding a whole name starting at `start`, appending to `acc`: the entry
/// point of [`spec_parse_name_at`] with a fresh hop budget and the cursor
/// still at `start`.
pub open spec fn spec_parse_name(bytes: Seq<u8>, start: int, acc: Seq<char>) -> (Result<
    Seq<char>,
    PacketError,
>, int) {
    spec_parse_name_at(bytes, start, acc, true, false, start, MAX_POINTER_JUMPS as int)
}

/// Connects the two text wrappers' ASCII clauses with [`label_chars`]: when
/// the label bytes are ASCII, lossy decoding then lowercasing yields exactly
/// the bytewise ASCII lowercase.
pub(crate) proof fn lemma_label_chars_of_ascii(l: Seq<u8>, decoded: Seq<char>, lower: Seq<char>)
    requires
        decoded == lossy_of(l),
        lower == lower_of(decoded),
        ascii_bytes(l) ==> decoded == Seq::new(l.len(), |i: int| l[i] as char),
        is_ascii_chars(decoded) ==> lower == ascii_lower_chars(decoded),
    ensures
        lower == label_chars(l),
{
    if ascii_bytes(l) {
        assert forall|i: int| 0 <= i < decoded.len() implies '\0' <= #[trigger] decoded[i]
            <= '\u{7f}' by {
            assert(decoded[i] == l[i] as char);
            assert(l[i] < 0x80);
        }
        assert(is_ascii_chars(decoded));
        assert(ascii_lower_chars(decoded) =~= label_chars(l));
    }
}

} // verus!
