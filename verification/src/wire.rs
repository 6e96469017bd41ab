//! The encoding of text on the wire: the length in bytes as 32 bits, little-endian, then the
//! bytes of the text in UTF-8.

use vstd::prelude::*;
use vstd::bytes::{
    lemma_auto_spec_u32_to_from_le_bytes, spec_u32_from_le_bytes, spec_u32_to_le_bytes,
    u32_from_le_bytes, u32_to_le_bytes,
};
use vstd::slice::{slice_subrange, slice_to_vec};
use vstd::utf8::{
    decode_utf8, decode_utf8_encode_utf8, encode_utf8, encode_utf8_decode_utf8,
    encode_utf8_valid_utf8, valid_utf8,
};

verus! {

/// Most bytes in a text on the wire: what a 32-bit length prefix can say.
pub const MAX_TEXT_LEN: usize = 0xFFFF_FFFF;

/// A text on the wire.
pub open spec fn text_bytes(text: Seq<char>) -> Seq<u8> {
    spec_u32_to_le_bytes(encode_utf8(text).len() as u32) + encode_utf8(text)
}

/// Whether a text is short enough for its length prefix.
pub open spec fn text_fits(text: Seq<char>) -> bool {
    encode_utf8(text).len() <= MAX_TEXT_LEN
}

/// The text at the front of `bytes`, with the number of bytes it takes, or `None` where
/// `bytes` do not begin with a whole text in UTF-8.
pub open spec fn text_at_front(bytes: Seq<u8>) -> Option<(Seq<char>, int)> {
    if bytes.len() < 4 {
        None
    } else {
        let len = spec_u32_from_le_bytes(bytes.take(4)) as int;
        if bytes.len() < 4 + len || !valid_utf8(bytes.subrange(4, 4 + len)) {
            None
        } else {
            Some((decode_utf8(bytes.subrange(4, 4 + len)), 4 + len))
        }
    }
}

/// A text that was written is read back, whatever follows it.
pub proof fn lemma_text_is_read_back(text: Seq<char>, tail: Seq<u8>)
    requires
        text_fits(text),
    ensures
        text_bytes(text).len() == 4 + encode_utf8(text).len(),
        text_at_front(text_bytes(text) + tail) == Some((text, text_bytes(text).len() as int)),
{
    lemma_auto_spec_u32_to_from_le_bytes();
    encode_utf8_valid_utf8(text);
    encode_utf8_decode_utf8(text);
    let body = encode_utf8(text);
    let prefix = spec_u32_to_le_bytes(body.len() as u32);
    let bytes = text_bytes(text) + tail;
    assert(bytes.take(4) =~= prefix);
    assert(bytes.subrange(4, 4 + body.len() as int) =~= body);
}

/// A text that is read takes exactly the bytes that writing it gives.
pub proof fn lemma_text_read_was_written(bytes: Seq<u8>)
    requires
        text_at_front(bytes) is Some,
    ensures
        ({
            let (text, taken) = text_at_front(bytes)->0;
            &&& text_fits(text)
            &&& 0 <= taken <= bytes.len()
            &&& bytes.take(taken) == text_bytes(text)
        }),
{
    lemma_auto_spec_u32_to_from_le_bytes();
    let (text, taken) = text_at_front(bytes)->0;
    let len = spec_u32_from_le_bytes(bytes.take(4)) as int;
    let body = bytes.subrange(4, 4 + len);
    decode_utf8_encode_utf8(body);
    assert(encode_utf8(text) == body);
    assert(spec_u32_to_le_bytes(len as u32) == bytes.take(4));
    assert(bytes.take(taken) =~= bytes.take(4) + body);
}

/// Calls `String::from_utf8`. The contract claims what the documentation of std says: the
/// call succeeds exactly on valid UTF-8, and the text then holds the characters that the
/// bytes encode.
#[verifier::external_body]
fn string_from_utf8(bytes: Vec<u8>) -> (text: Option<String>)
    ensures
        text is Some <==> valid_utf8(bytes@),
        text matches Some(t) ==> t@ == decode_utf8(bytes@),
{
    String::from_utf8(bytes).ok()
}

/// Writes `text` at the end of `out`.
pub fn put_text(out: &mut Vec<u8>, text: &str)
    requires
        text_fits(text@),
    ensures
        final(out)@ == old(out)@ + text_bytes(text@),
{
    let body = text.as_bytes();
    let mut prefix = u32_to_le_bytes(body.len() as u32);
    let mut copy = slice_to_vec(body);
    out.append(&mut prefix);
    out.append(&mut copy);
    assert(out@ =~= old(out)@ + text_bytes(text@));
}

/// The model of a text that was read.
pub open spec fn taken_view(taken: Option<(String, usize)>) -> Option<(Seq<char>, int)> {
    match taken {
        Some((text, n)) => Some((text@, n as int)),
        None => None,
    }
}

/// Reads the text at the front of `bytes` and says how many bytes it takes.
pub fn take_text(bytes: &[u8]) -> (taken: Option<(String, usize)>)
    ensures
        taken_view(taken) == text_at_front(bytes@),
{
    if bytes.len() < 4 {
        return None;
    }
    let prefix = slice_subrange(bytes, 0, 4);
    assert(prefix@ =~= bytes@.take(4));
    let len = u32_from_le_bytes(prefix) as usize;
    if bytes.len() - 4 < len {
        return None;
    }
    let body = slice_subrange(bytes, 4, 4 + len);
    match string_from_utf8(slice_to_vec(body)) {
        Some(text) => Some((text, 4 + len)),
        None => None,
    }
}

} // verus!
