use vstd::prelude::*;
use vstd::utf8::*;

use crate::error::MarshalError;

verus! {

/// The terminator byte that delimits values at the call boundary.
pub const TERMINATOR: u8 = 0;

/// True when `b` holds the terminator byte anywhere.
pub open spec fn has_terminator(b: Seq<u8>) -> bool {
    b.contains(TERMINATOR)
}

/// A host-owned buffer holding an outbound payload followed by one
/// terminator byte.
///
/// The wire descriptor built from it points at the start of the buffer and
/// carries the payload length; the buffer must be kept alive (and not moved)
/// until the foreign call that reads it has returned.
pub struct OutboundBuffer {
    bytes: Vec<u8>,
}

impl OutboundBuffer {
    #[verifier::type_invariant]
    spec fn well_formed(self) -> bool {
        &&& self.bytes@.len() >= 1
        &&& self.bytes@.last() == TERMINATOR
        &&& !has_terminator(self.bytes@.drop_last())
    }

    /// The payload: the buffer without its terminator.
    pub closed spec fn payload(self) -> Seq<u8> {
        self.bytes@.drop_last()
    }

    /// Number of payload bytes: the length that the wire descriptor carries.
    pub fn payload_len(&self) -> (n: usize)
        ensures
            n == self.payload().len(),
    {
        proof {
            use_type_invariant(self);
        }
        self.bytes.len() - 1
    }

    /// The whole buffer, payload then terminator, for building the wire
    /// descriptor.
    pub fn terminated(&self) -> (r: &[u8])
        ensures
            r@ == self.payload().push(TERMINATOR),
    {
        proof {
            use_type_invariant(self);
            assert(self.bytes@ =~= self.bytes@.drop_last().push(TERMINATOR));
        }
        self.bytes.as_slice()
    }
}

/// Copies `b` into a fresh outbound buffer, refusing it when it holds the
/// terminator byte.
pub fn encode_bytes(b: &[u8]) -> (r: Result<OutboundBuffer, MarshalError>)
    ensures
        match r {
            Ok(buf) => !has_terminator(b@) && buf.payload() == b@,
            Err(e) => has_terminator(b@) && e == MarshalError::InvalidInput,
        },
{
    let mut bytes: Vec<u8> = Vec::new();
    let mut i: usize = 0;
    while i < b.len()
        invariant
            i <= b@.len(),
            bytes@ == b@.subrange(0, i as int),
            forall|j: int| 0 <= j < i ==> b@[j] != TERMINATOR,
        decreases b@.len() - i,
    {
        if b[i] == TERMINATOR {
            assert(b@[i as int] == 0u8);
            return Err(MarshalError::InvalidInput);
        }
        bytes.push(b[i]);
        assert(bytes@ =~= b@.subrange(0, i + 1));
        i = i + 1;
    }
    assert(bytes@ =~= b@);
    assert(!has_terminator(b@));
    bytes.push(TERMINATOR);
    assert(bytes@.drop_last() =~= b@);
    Ok(OutboundBuffer { bytes })
}

/// Encodes host text: its UTF-8 bytes followed by the terminator. Text that
/// holds the NUL character is refused, since its encoding holds the
/// terminator byte.
pub fn encode_text(s: &str) -> (r: Result<OutboundBuffer, MarshalError>)
    ensures
        match r {
            Ok(buf) => !s@.contains('\0') && buf.payload() == encode_utf8(s@),
            Err(e) => s@.contains('\0') && e == MarshalError::InvalidInput,
        },
{
    proof {
        lemma_encoding_terminator(s@);
    }
    encode_bytes(s.as_bytes())
}

proof fn lemma_or_nonzero(x: u8)
    by (bit_vector)
    ensures
        0x80u8 | x != 0u8,
        0xC0u8 | x != 0u8,
        0xE0u8 | x != 0u8,
        0xF0u8 | x != 0u8,
{
}

proof fn lemma_low_bits_zero(v: u32)
    by (bit_vector)
    requires
        v <= 0x7F,
    ensures
        ((v & 0x7F) as u8 == 0u8) <==> v == 0,
{
}

/// The UTF-8 encoding of one character holds the terminator byte exactly when
/// the character is NUL.
proof fn lemma_scalar_terminator(c: char)
    ensures
        has_terminator(encode_scalar(c as u32)) <==> c == '\0',
{
    let v = c as u32;
    char_is_scalar(c);
    char_u32_cast('\0', 0u32);
    char_u32_cast(c, v);
    let e = encode_scalar(v);
    if has_width_1_encoding(v) {
        lemma_low_bits_zero(v);
        assert(e[0] == leading_byte_width_1(v));
        if v == 0 {
            assert(e[0] == 0u8);
        }
    } else {
        lemma_or_nonzero(((v >> 6) & 0x1F) as u8);
        lemma_or_nonzero(((v >> 12) & 0x0F) as u8);
        lemma_or_nonzero(((v >> 18) & 0x7) as u8);
        lemma_or_nonzero((v & 0x3F) as u8);
        lemma_or_nonzero(((v >> 6) & 0x3F) as u8);
        lemma_or_nonzero(((v >> 12) & 0x3F) as u8);
        assert(forall|i: int| 0 <= i < e.len() ==> e[i] != 0u8);
    }
}

/// The UTF-8 encoding of text holds the terminator byte exactly when the text
/// holds the NUL character.
pub proof fn lemma_encoding_terminator(s: Seq<char>)
    ensures
        has_terminator(encode_utf8(s)) <==> s.contains('\0'),
    decreases s.len(),
{
    if s.len() == 0 {
        assert(encode_utf8(s) =~= Seq::<u8>::empty());
    } else {
        let head = encode_scalar(s[0] as u32);
        let rest = s.drop_first();
        let tail = encode_utf8(rest);
        lemma_scalar_terminator(s[0]);
        lemma_encoding_terminator(rest);
        let all = encode_utf8(s);
        assert(all == head + tail);
        if has_terminator(all) {
            let i = choose|i: int| 0 <= i < all.len() && all[i] == 0u8;
            if i < head.len() {
                assert(head[i] == 0u8);
                assert(s[0] == '\0');
            } else {
                assert(tail[i - head.len()] == 0u8);
                let j = choose|j: int| 0 <= j < rest.len() && rest[j] == '\0';
                assert(s[j + 1] == '\0');
            }
        }
        if s.contains('\0') {
            let j = choose|j: int| 0 <= j < s.len() && s[j] == '\0';
            if j == 0 {
                let i = choose|i: int| 0 <= i < head.len() && head[i] == 0u8;
                assert(all[i] == 0u8);
            } else {
                assert(rest[j - 1] == '\0');
                let i = choose|i: int| 0 <= i < tail.len() && tail[i] == 0u8;
                assert(all[i + head.len()] == 0u8);
            }
        }
    }
}

} // verus!
