//! The cryptographic and encoding primitives that this library takes from
//! outside crates (`sha2`, `hex`, `aes-gcm`, `rand`, `base64`) and from std.
//!
//! `x25519-dalek` supplies the Diffie-Hellman key agreement behind key
//! encapsulation.
//!
//! Every item here is trusted: its contract is believed, not proved.  What a
//! primitive computes deterministically is named by an uninterpreted spec
//! function; what it draws at random is only bounded in length.
use vstd::prelude::*;

use aes_gcm::aead::{Aead, AeadCore, KeyInit, OsRng};
use aes_gcm::{Aes256Gcm, Nonce};
use base64::engine::general_purpose::STANDARD as BASE64_STANDARD;
use base64::Engine;
use rand::RngCore;
use sha2::{Digest, Sha256};
use x25519_dalek::{PublicKey, StaticSecret};

verus! {

/// Byte length of a SHA-256 digest.
pub const DIGEST_LEN: usize = 32;

/// Byte length of an AES-256 key.
pub const AES_KEY_LEN: usize = 32;

/// Byte length of an AES-GCM nonce as used by `Aes256Gcm`.
pub const NONCE_LEN: usize = 12;

/// Byte length of the AES-GCM authentication tag appended to a ciphertext.
pub const TAG_LEN: usize = 16;

/// Largest plaintext (in bytes) that `aes-gcm` agrees to encrypt (`P_MAX`).
pub const AES_GCM_MAX_PLAINTEXT: u64 = 68719476736u64;

/// The SHA-256 digest of `data` (as computed by `sha2::Sha256`).
pub uninterp spec fn sha256_digest(data: Seq<u8>) -> Seq<u8>;

/// The ciphertext-with-tag that AES-256-GCM produces for `plaintext`
/// under `key` and `nonce`, with empty associated data.
pub uninterp spec fn aes_gcm_seal(key: Seq<u8>, nonce: Seq<u8>, plaintext: Seq<u8>) -> Seq<u8>;

/// What AES-256-GCM decryption of `ciphertext` under `key` and `nonce`
/// yields: the plaintext when the tag verifies, `None` otherwise.
pub uninterp spec fn aes_gcm_open(key: Seq<u8>, nonce: Seq<u8>, ciphertext: Seq<u8>) -> Option<
    Seq<u8>,
>;

/// The X25519 public key of the 32-byte secret key `secret`.
pub uninterp spec fn x25519_public(secret: Seq<u8>) -> Seq<u8>;

/// The X25519 shared secret of the 32-byte secret key `secret` with the
/// 32-byte public key `their_public`.
pub uninterp spec fn x25519_shared(secret: Seq<u8>, their_public: Seq<u8>) -> Seq<u8>;

/// Whether `c` has the Unicode `White_Space` property (as `char::is_whitespace`):
/// the 25 code points that the Unicode Character Database (`PropList.txt`)
/// lists for it.
pub open spec fn white_space(c: char) -> bool {
    let u = c as u32;
    ||| 0x9 <= u <= 0xd
    ||| u == 0x20
    ||| u == 0x85
    ||| u == 0xa0
    ||| u == 0x1680
    ||| 0x2000 <= u <= 0x200a
    ||| u == 0x2028
    ||| u == 0x2029
    ||| u == 0x202f
    ||| u == 0x205f
    ||| u == 0x3000
}

/// A character of the standard Base64 alphabet, or the padding `=`.
pub open spec fn is_base64_char(c: char) -> bool {
    ||| 'A' <= c <= 'Z'
    ||| 'a' <= c <= 'z'
    ||| '0' <= c <= '9'
    ||| c == '+'
    ||| c == '/'
    ||| c == '='
}

/// Every character of `text` belongs to the standard Base64 alphabet (with
/// padding).
pub open spec fn is_base64_text(text: Seq<char>) -> bool {
    forall|i: int| 0 <= i < text.len() ==> is_base64_char(#[trigger] text[i])
}

/// `text` without its leading white space.
pub open spec fn trim_start_chars(text: Seq<char>) -> Seq<char>
    decreases text.len(),
{
    if text.len() > 0 && white_space(text[0]) {
        trim_start_chars(text.drop_first())
    } else {
        text
    }
}

/// `text` without its trailing white space.
pub open spec fn trim_end_chars(text: Seq<char>) -> Seq<char>
    decreases text.len(),
{
    if text.len() > 0 && white_space(text.last()) {
        trim_end_chars(text.drop_last())
    } else {
        text
    }
}

/// `text` without its leading and trailing white space.
pub open spec fn trimmed(text: Seq<char>) -> Seq<char> {
    trim_end_chars(trim_start_chars(text))
}

/// The padded standard-alphabet Base64 text of `data`.
pub uninterp spec fn base64_encode(data: Seq<u8>) -> Seq<char>;

/// What decoding the bytes `text` as padded standard-alphabet Base64 gives:
/// the decoded bytes, or `None` when the text is not valid Base64.
pub uninterp spec fn base64_decode(text: Seq<u8>) -> Option<Seq<u8>>;

/// The lower-case hexadecimal digit for a nibble `n < 16`.
pub open spec fn hex_digit(n: u8) -> char {
    if n < 10 {
        (48 + n) as char
    } else {
        (87 + n) as char
    }
}

/// Lower-case hexadecimal text of `data`: two digits per byte, high nibble first.
pub open spec fn hex_lower(data: Seq<u8>) -> Seq<char>
    decreases data.len(),
{
    if data.len() == 0 {
        Seq::empty()
    } else {
        seq![hex_digit(data[0] / 16), hex_digit(data[0] % 16)] + hex_lower(data.drop_first())
    }
}

/// Whether the Base64 text of `len` bytes has a length that fits in `usize`
/// (the `base64` crate panics on overflow of this length).
pub open spec fn base64_len_fits(len: nat) -> bool {
    (len / 3) * 4 + (if len % 3 == 0 {
        0int
    } else {
        4int
    }) <= usize::MAX
}

/// How the AES-GCM wrappers below can fail.
pub enum AeadFailure {
    /// The key was not 32 bytes long (`crypto_common::InvalidLength`).
    KeyLength,
    /// The cipher refused the input (`aead::Error`): the plaintext was too
    /// long, or the ciphertext did not authenticate.
    Rejected,
}

/// Calls `Sha256::new`, `update` and `finalize` of `sha2` on `data`.
/// Claims: the result is the SHA-256 digest of `data`, 32 bytes long.
#[verifier::external_body]
pub(crate) fn sha256(data: &[u8]) -> (digest: Vec<u8>)
    ensures
        digest@ == sha256_digest(data@),
        digest@.len() == DIGEST_LEN,
{
    let mut hasher = Sha256::new();
    hasher.update(data);
    hasher.finalize().to_vec()
}

/// Calls `hex::encode` on `data`.
/// Claims: the result is the lower-case hexadecimal text of `data`.
#[verifier::external_body]
pub(crate) fn hex_encode(data: &[u8]) -> (text: String)
    ensures
        text@ == hex_lower(data@),
{
    hex::encode(data)
}

/// Calls `rand::thread_rng().fill_bytes` on `buf`.
/// Claims only that the length of `buf` is unchanged; its contents are random.
#[verifier::external_body]
pub(crate) fn fill_random(buf: &mut Vec<u8>)
    ensures
        final(buf)@.len() == old(buf)@.len(),
{
    rand::thread_rng().fill_bytes(buf.as_mut_slice());
}

/// Calls `Aes256Gcm::generate_nonce(&mut OsRng)` of `aes-gcm`.
/// Claims only that the nonce is 12 bytes long (the nonce size of `Aes256Gcm`);
/// its contents are random.
#[verifier::external_body]
pub(crate) fn random_nonce() -> (nonce: Vec<u8>)
    ensures
        nonce@.len() == NONCE_LEN,
{
    Aes256Gcm::generate_nonce(&mut OsRng).to_vec()
}

/// Calls `Aes256Gcm::new_from_slice(key)` and then `Aead::encrypt` with the
/// nonce and `plaintext` (no associated data).
/// Claims: creating the cipher fails exactly when the key is not 32 bytes;
/// with a 32-byte key, encryption fails exactly when the plaintext is longer
/// than `P_MAX`; otherwise the result is the named ciphertext, which is the
/// plaintext's length plus the 16-byte tag, and which decrypts under the same
/// key and nonce to the plaintext.
#[verifier::external_body]
pub(crate) fn aes_gcm_encrypt(key: &[u8], nonce: &[u8], plaintext: &[u8]) -> (r: Result<
    Vec<u8>,
    AeadFailure,
>)
    requires
        nonce@.len() == NONCE_LEN,
    ensures
        r matches Err(AeadFailure::KeyLength) <==> key@.len() != AES_KEY_LEN,
        r matches Err(AeadFailure::Rejected) <==> (key@.len() == AES_KEY_LEN && plaintext@.len()
            > AES_GCM_MAX_PLAINTEXT),
        r matches Ok(c) ==> {
            &&& c@ == aes_gcm_seal(key@, nonce@, plaintext@)
            &&& c@.len() == plaintext@.len() + TAG_LEN
            &&& aes_gcm_open(key@, nonce@, c@) == Some(plaintext@)
        },
{
    match Aes256Gcm::new_from_slice(key) {
        Err(_) => Err(AeadFailure::KeyLength),
        Ok(cipher) => match cipher.encrypt(Nonce::from_slice(nonce), plaintext) {
            Ok(c) => Ok(c),
            Err(_) => Err(AeadFailure::Rejected),
        },
    }
}

/// Calls `PublicKey::from(&StaticSecret::from(secret))` of `x25519-dalek`.
/// Claims: the result is the named X25519 public key of `secret`, 32 bytes
/// long, and, as the crate documents for Diffie-Hellman, any 32-byte secret
/// agrees with `secret` on their shared secret: the other secret combined
/// with this public key gives what `secret` combined with the other's
/// public key gives.
#[verifier::external_body]
pub(crate) fn x25519_public_key(secret: &[u8]) -> (public: Vec<u8>)
    requires
        secret@.len() == 32,
    ensures
        public@ == x25519_public(secret@),
        public@.len() == 32,
        forall|other: Seq<u8>|
            other.len() == 32 ==> #[trigger] x25519_shared(other, public@) == x25519_shared(
                secret@,
                x25519_public(other),
            ),
{
    let mut bytes = [0u8; 32];
    bytes.copy_from_slice(secret);
    PublicKey::from(&StaticSecret::from(bytes)).as_bytes().to_vec()
}

/// Calls `StaticSecret::from(secret).diffie_hellman(&PublicKey::from(their_public))`
/// of `x25519-dalek`.
/// Claims: the result is the named shared secret, 32 bytes long.
#[verifier::external_body]
pub(crate) fn x25519_diffie_hellman(secret: &[u8], their_public: &[u8]) -> (shared: Vec<u8>)
    requires
        secret@.len() == 32,
        their_public@.len() == 32,
    ensures
        shared@ == x25519_shared(secret@, their_public@),
        shared@.len() == 32,
{
    let mut secret_bytes = [0u8; 32];
    secret_bytes.copy_from_slice(secret);
    let mut public_bytes = [0u8; 32];
    public_bytes.copy_from_slice(their_public);
    StaticSecret::from(secret_bytes).diffie_hellman(&PublicKey::from(public_bytes)).as_bytes().to_vec()
}

/// Calls `Aes256Gcm::new_from_slice(key)` and then `Aead::decrypt` with the
/// nonce and `ciphertext` (no associated data).
/// Claims: creating the cipher fails exactly when the key is not 32 bytes;
/// the nonce is only read (and must then be 12 bytes) once the cipher exists;
/// with a 32-byte key, a ciphertext shorter than the 16-byte tag is refused,
/// decryption succeeds exactly when the named result is a plaintext, and then
/// returns that plaintext, 16 bytes shorter than the ciphertext.
#[verifier::external_body]
pub(crate) fn aes_gcm_decrypt(key: &[u8], nonce: &[u8], ciphertext: &[u8]) -> (r: Result<
    Vec<u8>,
    AeadFailure,
>)
    requires
        key@.len() == AES_KEY_LEN ==> nonce@.len() == NONCE_LEN,
    ensures
        r matches Err(AeadFailure::KeyLength) <==> key@.len() != AES_KEY_LEN,
        key@.len() == AES_KEY_LEN ==> match r {
            Ok(p) => aes_gcm_open(key@, nonce@, ciphertext@) == Some(p@),
            Err(_) => aes_gcm_open(key@, nonce@, ciphertext@) is None,
        },
        key@.len() == AES_KEY_LEN && ciphertext@.len() < TAG_LEN ==> r matches Err(
            AeadFailure::Rejected,
        ),
        r matches Ok(p) ==> p@.len() + TAG_LEN == ciphertext@.len(),
{
    match Aes256Gcm::new_from_slice(key) {
        Err(_) => Err(AeadFailure::KeyLength),
        Ok(cipher) => match cipher.decrypt(Nonce::from_slice(nonce), ciphertext) {
            Ok(p) => Ok(p),
            Err(_) => Err(AeadFailure::Rejected),
        },
    }
}

/// Calls `base64::engine::general_purpose::STANDARD.encode(data)`.
/// Claims: the result is the named Base64 text of `data`, written with the
/// standard alphabet (`A`-`Z`, `a`-`z`, `0`-`9`, `+`, `/`) and `=` padding
/// only, and decoding that text with the same engine gives `data` back.
#[verifier::external_body]
pub(crate) fn base64_encode_bytes(data: &[u8]) -> (text: String)
    requires
        base64_len_fits(data@.len()),
    ensures
        text@ == base64_encode(data@),
        is_base64_text(text@),
        base64_decode(vstd::utf8::encode_utf8(text@)) == Some(data@),
{
    BASE64_STANDARD.encode(data)
}

/// Calls `base64::engine::general_purpose::STANDARD.decode(text)`.
/// Claims: the result is the named decoding of `text`; on failure the
/// `DecodeError` is handed back as its display text.
#[verifier::external_body]
pub(crate) fn base64_decode_bytes(text: &[u8]) -> (r: Result<Vec<u8>, String>)
    ensures
        match r {
            Ok(data) => base64_decode(text@) == Some(data@),
            Err(_) => base64_decode(text@) is None,
        },
{
    match BASE64_STANDARD.decode(text) {
        Ok(data) => Ok(data),
        Err(e) => Err(e.to_string()),
    }
}

/// Calls `String::from_utf8(bytes)` of std.
/// Claims, as std documents: it succeeds exactly when `bytes` is valid UTF-8,
/// and then the string holds the decoded characters; on failure the
/// `FromUtf8Error` is handed back as its display text.
#[verifier::external_body]
pub(crate) fn string_from_utf8(bytes: Vec<u8>) -> (r: Result<String, String>)
    ensures
        r is Ok <==> vstd::utf8::valid_utf8(bytes@),
        r matches Ok(s) ==> s@ == vstd::utf8::decode_utf8(bytes@),
{
    match String::from_utf8(bytes) {
        Ok(s) => Ok(s),
        Err(e) => Err(e.to_string()),
    }
}

/// Calls `char::is_whitespace` of std.
/// Claims, as std documents: the result is whether `c` has the Unicode
/// `White_Space` property.
#[verifier::external_body]
pub(crate) fn is_whitespace(c: char) -> (b: bool)
    ensures
        b == white_space(c),
{
    c.is_whitespace()
}

/// Calls `str::trim` of std.
/// Claims, as std documents: the result is `text` with leading and trailing
/// `White_Space` characters removed.
#[verifier::external_body]
pub(crate) fn trim_text(text: &str) -> (t: &str)
    ensures
        t@ == trimmed(text@),
{
    text.trim()
}

} // verus!
