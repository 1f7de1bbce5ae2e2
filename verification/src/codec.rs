//! Base64 text for keys, payloads and envelopes.
use vstd::prelude::*;

use crate::error::CryptoError;
use crate::primitives::{
    base64_decode, base64_decode_bytes, base64_encode, base64_encode_bytes, base64_len_fits,
    is_base64_char, is_base64_text, trim_end_chars, trim_start_chars, trim_text, trimmed,
    white_space,
};

verus! {

/// What decoding `text` as standard padded Base64 gives: the bytes, or an
/// invalid-Base64 error.
pub open spec fn decoded_base64(text: Seq<char>) -> Option<Seq<u8>> {
    base64_decode(vstd::utf8::encode_utf8(text))
}

/// No character of the Base64 alphabet is white space, so trimming Base64
/// text leaves it unchanged.
pub proof fn lemma_trim_base64_text(text: Seq<char>)
    requires
        is_base64_text(text),
    ensures
        trimmed(text) == text,
{
    if text.len() > 0 {
        assert(is_base64_char(text[0]));
        assert(!white_space(text[0]));
        assert(is_base64_char(text[text.len() - 1]));
        assert(!white_space(text.last()));
    }
    assert(trim_start_chars(text) == text);
    assert(trim_end_chars(text) == text);
}

/// Standard padded Base64 text of `data`, over the Base64 alphabet only.
/// Decoding the result gives `data` back, also as the contents of a key file
/// (see [`decode_key_text`]).
pub fn encode_base64(data: &[u8]) -> (text: String)
    requires
        base64_len_fits(data@.len()),
    ensures
        text@ == base64_encode(data@),
        is_base64_text(text@),
        decoded_base64(text@) == Some(data@),
        decoded_base64(trimmed(text@)) == Some(data@),
{
    let text = base64_encode_bytes(data);
    proof {
        lemma_trim_base64_text(text@);
    }
    text
}

/// Decodes standard padded Base64 text.
pub fn decode_base64(text: &str) -> (r: Result<Vec<u8>, CryptoError>)
    ensures
        match decoded_base64(text@) {
            Some(data) => r matches Ok(v) && v@ == data,
            None => r matches Err(CryptoError::InvalidBase64(_)),
        },
{
    match base64_decode_bytes(text.as_bytes()) {
        Ok(data) => Ok(data),
        Err(detail) => Err(CryptoError::InvalidBase64(detail)),
    }
}

/// Decodes the contents of a key file: the Base64 text with its leading and
/// trailing white space removed.
pub fn decode_key_text(content: &str) -> (r: Result<Vec<u8>, CryptoError>)
    ensures
        match decoded_base64(trimmed(content@)) {
            Some(key) => r matches Ok(v) && v@ == key,
            None => r matches Err(CryptoError::InvalidBase64(_)),
        },
{
    decode_base64(trim_text(content))
}

/// Whether the Base64 text of `len` bytes has a length that fits in `usize`.
pub fn base64_len_ok(len: usize) -> (b: bool)
    ensures
        b == base64_len_fits(len as nat),
{
    let chunks = len / 3;
    if chunks > usize::MAX / 4 {
        return false;
    }
    let full = chunks * 4;
    if len % 3 == 0 {
        true
    } else {
        full <= usize::MAX - 4
    }
}

} // verus!
