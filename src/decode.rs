use vstd::prelude::*;
use vstd::utf8::*;

use crate::encode::{has_terminator, lemma_encoding_terminator};
use crate::error::MarshalError;

verus! {

broadcast use encode_utf8_decode_utf8;

/// Relies on `std::str::from_utf8`: it accepts exactly the byte sequences that
/// are valid UTF-8, and the text it returns is the one those bytes encode.
#[verifier::external_body]
fn str_from_utf8(bytes: &[u8]) -> (r: Option<&str>)
    ensures
        r is Some <==> valid_utf8(bytes@),
        r matches Some(s) ==> encode_utf8(s@) == bytes@,
{
    std::str::from_utf8(bytes).ok()
}

/// What decoding a text value handed back by the foreign side yields: the
/// text that the bytes encode, or `EncodingError` when they are not UTF-8.
pub open spec fn text_of(bytes: Seq<u8>) -> Result<Seq<char>, MarshalError> {
    if valid_utf8(bytes) {
        Ok(decode_utf8(bytes))
    } else {
        Err(MarshalError::EncodingError)
    }
}

/// The view of a decoding outcome: the text on success, the error otherwise.
pub open spec fn string_result_view(r: Result<String, MarshalError>) -> Result<Seq<char>, MarshalError> {
    match r {
        Ok(s) => Ok(s@),
        Err(e) => Err(e),
    }
}

/// Copies a text value out of foreign memory into a host-owned string,
/// checking that it is UTF-8.
pub fn decode_text(bytes: &[u8]) -> (r: Result<String, MarshalError>)
    ensures
        string_result_view(r) == text_of(bytes@),
{
    match str_from_utf8(bytes) {
        Some(s) => {
            proof {
                assert(decode_utf8(encode_utf8(s@)) == s@);
            }
            Ok(s.to_owned())
        },
        None => Err(MarshalError::EncodingError),
    }
}

/// Text free of the NUL character survives the trip to the wire and back:
/// its encoding holds no terminator byte, so it is accepted, and when the
/// foreign side echoes those bytes they decode to the very same text.
pub proof fn lemma_text_round_trip(s: Seq<char>)
    requires
        !s.contains('\0'),
    ensures
        !has_terminator(encode_utf8(s)),
        text_of(encode_utf8(s)) == Ok::<Seq<char>, MarshalError>(s),
{
    lemma_encoding_terminator(s);
    encode_utf8_valid_utf8(s);
}

/// What decoding a sequence of text values yields: every element decoded in
/// order, or `EncodingError` when any of them is not UTF-8.
pub open spec fn texts_of(items: Seq<Seq<u8>>) -> Result<Seq<Seq<char>>, MarshalError> {
    if forall|i: int| 0 <= i < items.len() ==> valid_utf8(#[trigger] items[i]) {
        Ok(items.map_values(|b: Seq<u8>| decode_utf8(b)))
    } else {
        Err(MarshalError::EncodingError)
    }
}

/// The view of a sequence-decoding outcome.
pub open spec fn strings_result_view(r: Result<Vec<String>, MarshalError>) -> Result<Seq<Seq<char>>, MarshalError> {
    match r {
        Ok(v) => Ok(v@.map_values(|s: String| s@)),
        Err(e) => Err(e),
    }
}

/// Copies a sequence of text values, already read element by element out of
/// foreign memory, into host-owned strings, keeping their order.
pub fn decode_text_list(items: &[Vec<u8>]) -> (r: Result<Vec<String>, MarshalError>)
    ensures
        strings_result_view(r) == texts_of(items@.map_values(|b: Vec<u8>| b@)),
{
    let ghost views = items@.map_values(|b: Vec<u8>| b@);
    let mut out: Vec<String> = Vec::new();
    let mut i: usize = 0;
    while i < items.len()
        invariant
            i <= items@.len(),
            views == items@.map_values(|b: Vec<u8>| b@),
            out@.len() == i,
            forall|j: int| 0 <= j < i ==> valid_utf8(#[trigger] views[j]),
            forall|j: int| 0 <= j < i ==> (#[trigger] out@[j])@ == decode_utf8(views[j]),
        decreases items@.len() - i,
    {
        match decode_text(items[i].as_slice()) {
            Ok(s) => {
                out.push(s);
            },
            Err(e) => {
                assert(!valid_utf8(views[i as int]));
                return Err(e);
            },
        }
        i = i + 1;
    }
    assert(out@.map_values(|s: String| s@) =~= views.map_values(|b: Seq<u8>| decode_utf8(b)));
    Ok(out)
}

/// Reads a one-byte flag from the wire: only the zero byte is false.
pub fn decode_flag(byte: u8) -> (r: bool)
    ensures
        r == (byte != 0),
{
    byte != 0
}

/// The result of a language guess.
#[derive(Debug)]
pub struct Guess {
    /// Which language it is; empty when nothing matched.
    pub language: String,
    /// False when several languages were equally plausible; `language` is
    /// then the alphabetically first of them.
    pub safe: bool,
}

impl Guess {
    /// Copies a classification record out of foreign memory: the language
    /// text and the confidence flag, carried through unchanged.
    pub fn from_wire(language: &[u8], safe: u8) -> (r: Result<Guess, MarshalError>)
        ensures
            match r {
                Ok(g) => text_of(language@) == Ok::<Seq<char>, MarshalError>(g.language@) && g.safe
                    == (safe != 0),
                Err(e) => text_of(language@) == Err::<Seq<char>, MarshalError>(e),
            },
    {
        let language = decode_text(language)?;
        Ok(Guess { language, safe: decode_flag(safe) })
    }
}

} // verus!
