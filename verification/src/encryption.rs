//! Hybrid encryption.  The data is sealed with AES-256-GCM under a fresh
//! random AES key; that key is encapsulated for the recipient: a fresh
//! ephemeral X25519 key agrees on a shared secret with the recipient's public
//! key, and the AES key is sealed under the hash of that secret, so that only
//! the holder of the matching secret key can unwrap it.  The SHA-256 digest of
//! the data is recorded so that decryption can check it.
use vstd::prelude::*;

use crate::bytes::concat_bytes;
use crate::error::CryptoError;
use crate::keys::{derive_public_key, key_id, lemma_hex_lower_shape, KeyManager, KEY_LEN, KEY_ID_LEN};
use crate::primitives::{
    aes_gcm_decrypt, aes_gcm_encrypt, aes_gcm_open, aes_gcm_seal, fill_random, hex_encode,
    hex_lower, random_nonce, sha256, sha256_digest, x25519_diffie_hellman, x25519_public,
    x25519_public_key, x25519_shared, AeadFailure, AES_GCM_MAX_PLAINTEXT, AES_KEY_LEN,
    NONCE_LEN, TAG_LEN,
};
use crate::types::EncryptedData;

verus! {

/// Byte length of the ephemeral public key at the start of a wrapped AES key.
pub const EPHEMERAL_KEY_LEN: usize = 32;

/// Byte length of the part of a wrapped AES key before the sealed key:
/// ephemeral public key and nonce.
pub const WRAPPED_HEADER_LEN: usize = 44;

/// Byte length of a wrapped AES key: ephemeral public key, nonce, sealed key
/// and tag.
pub const WRAPPED_KEY_LEN: usize = 92;

/// Number of characters in a data hash (hexadecimal SHA-256).
pub const HASH_TEXT_LEN: usize = 64;

/// The bytes appended to a shared secret before hashing it into the key that
/// wraps AES keys.
pub open spec fn key_encapsulation_label() -> Seq<u8> {
    vstd::utf8::encode_utf8("BLS_KEY_ENCAPSULATION"@)
}

/// The key under which an AES key is sealed, given the X25519 shared secret
/// of the encapsulation.
pub open spec fn key_encryption_key(shared_secret: Seq<u8>) -> Seq<u8> {
    sha256_digest(shared_secret + key_encapsulation_label())
}

/// The integrity hash recorded for `data`: lower-case hexadecimal SHA-256.
pub open spec fn content_hash(data: Seq<u8>) -> Seq<char> {
    hex_lower(sha256_digest(data))
}

/// The ephemeral public key of a wrapped AES key.
pub open spec fn wrapped_ephemeral_key(wrapped: Seq<u8>) -> Seq<u8> {
    wrapped.subrange(0, EPHEMERAL_KEY_LEN as int)
}

/// The nonce of a wrapped AES key.
pub open spec fn wrapped_nonce(wrapped: Seq<u8>) -> Seq<u8> {
    wrapped.subrange(EPHEMERAL_KEY_LEN as int, WRAPPED_HEADER_LEN as int)
}

/// The sealed key (with its tag) of a wrapped AES key.
pub open spec fn wrapped_sealed_key(wrapped: Seq<u8>) -> Seq<u8> {
    wrapped.subrange(WRAPPED_HEADER_LEN as int, wrapped.len() as int)
}

/// `wrapped` encapsulates `aes_key` for `public_key`, with
/// `ephemeral_secret` as the ephemeral X25519 secret: it holds the ephemeral
/// public key, a nonce, and the AES key sealed under the hash of the shared
/// secret of the ephemeral secret and `public_key`.  The ephemeral public key
/// agrees with every 32-byte secret key on their shared secret.
pub open spec fn wrapped_with(
    wrapped: Seq<u8>,
    public_key: Seq<u8>,
    aes_key: Seq<u8>,
    ephemeral_secret: Seq<u8>,
) -> bool {
    let ephemeral_public = wrapped_ephemeral_key(wrapped);
    let kek = key_encryption_key(x25519_shared(ephemeral_secret, public_key));
    &&& ephemeral_secret.len() == KEY_LEN
    &&& wrapped.len() == WRAPPED_KEY_LEN
    &&& ephemeral_public == x25519_public(ephemeral_secret)
    &&& forall|other: Seq<u8>|
        other.len() == KEY_LEN ==> #[trigger] x25519_shared(other, ephemeral_public)
            == x25519_shared(ephemeral_secret, x25519_public(other))
    &&& wrapped_sealed_key(wrapped) == aes_gcm_seal(kek, wrapped_nonce(wrapped), aes_key)
    &&& aes_gcm_open(kek, wrapped_nonce(wrapped), wrapped_sealed_key(wrapped)) == Some(aes_key)
}

/// `wrapped` encapsulates `aes_key` for `public_key`, for some ephemeral
/// secret (drawn at random).
pub open spec fn wraps_key(wrapped: Seq<u8>, public_key: Seq<u8>, aes_key: Seq<u8>) -> bool {
    exists|ephemeral_secret: Seq<u8>| #[trigger]
        wrapped_with(wrapped, public_key, aes_key, ephemeral_secret)
}

/// `ed` encrypts `data` for `public_key`, with `aes_key` as the AES key.
pub open spec fn envelope_with_key(
    ed: EncryptedData,
    data: Seq<u8>,
    public_key: Seq<u8>,
    aes_key: Seq<u8>,
) -> bool {
    &&& aes_key.len() == AES_KEY_LEN
    &&& ed.nonce@.len() == NONCE_LEN
    &&& ed.encrypted_content@ == aes_gcm_seal(aes_key, ed.nonce@, data)
    &&& ed.encrypted_content@.len() == data.len() + TAG_LEN
    &&& aes_gcm_open(aes_key, ed.nonce@, ed.encrypted_content@) == Some(data)
    &&& wraps_key(ed.encrypted_aes_key@, public_key, aes_key)
    &&& ed.data_hash@ == content_hash(data)
    &&& ed.data_hash@.len() == HASH_TEXT_LEN
    &&& ed.public_key_id@ == key_id(public_key)
    &&& ed.public_key_id@.len() == KEY_ID_LEN
}

/// `ed` is what encrypting `data` for `public_key` can produce: for some
/// AES key (the one drawn at random), `ed` is the envelope with that key.
pub open spec fn is_envelope_of(ed: EncryptedData, data: Seq<u8>, public_key: Seq<u8>) -> bool {
    exists|aes_key: Seq<u8>| #[trigger] envelope_with_key(ed, data, public_key, aes_key)
}

/// The contents of a byte-vector result.
pub open spec fn bytes_result(r: Result<Vec<u8>, CryptoError>) -> Result<Seq<u8>, CryptoError> {
    match r {
        Ok(v) => Ok(v@),
        Err(e) => Err(e),
    }
}

/// What unwrapping the AES key `wrapped` with `secret_key` gives: the secret
/// key agrees with the ephemeral public key on a shared secret, whose hash
/// opens the sealed key.  A sealed key shorter than the tag never opens.
pub open spec fn unwrapped_key(wrapped: Seq<u8>, secret_key: Seq<u8>) -> Result<
    Seq<u8>,
    CryptoError,
> {
    if wrapped.len() < WRAPPED_HEADER_LEN {
        Err(CryptoError::EncryptedKeyTooShort)
    } else if secret_key.len() != KEY_LEN {
        Err(CryptoError::InvalidSecretKeyLength)
    } else if wrapped_sealed_key(wrapped).len() < TAG_LEN {
        Err(CryptoError::KeyDecryptionFailed)
    } else {
        match aes_gcm_open(
            key_encryption_key(x25519_shared(secret_key, wrapped_ephemeral_key(wrapped))),
            wrapped_nonce(wrapped),
            wrapped_sealed_key(wrapped),
        ) {
            Some(aes_key) => Ok(aes_key),
            None => Err(CryptoError::KeyDecryptionFailed),
        }
    }
}

/// An AES key encapsulated for the public key of a secret key is unwrapped,
/// with that secret key, to the same AES key.
pub proof fn lemma_unwrap_inverts_wrap(wrapped: Seq<u8>, secret_key: Seq<u8>, aes_key: Seq<u8>)
    requires
        secret_key.len() == KEY_LEN,
        wraps_key(wrapped, derive_public_key(secret_key), aes_key),
    ensures
        unwrapped_key(wrapped, secret_key) == Ok::<Seq<u8>, CryptoError>(aes_key),
{
    let ephemeral_secret = choose|e: Seq<u8>|
        wrapped_with(wrapped, derive_public_key(secret_key), aes_key, e);
    assert(x25519_shared(secret_key, wrapped_ephemeral_key(wrapped)) == x25519_shared(
        ephemeral_secret,
        x25519_public(secret_key),
    ));
}

/// Decryption of `ed` with `secret_key` is defined: it does not reach the
/// content with a nonce of the wrong length.
pub open spec fn decryption_defined(ed: EncryptedData, secret_key: Seq<u8>) -> bool {
    match unwrapped_key(ed.encrypted_aes_key@, secret_key) {
        Ok(aes_key) => aes_key.len() == AES_KEY_LEN ==> ed.nonce@.len() == NONCE_LEN,
        Err(_) => true,
    }
}

/// What decrypting `ed` with `secret_key` gives.
pub open spec fn decrypt_outcome(ed: EncryptedData, secret_key: Seq<u8>) -> Result<
    Seq<u8>,
    CryptoError,
> {
    match unwrapped_key(ed.encrypted_aes_key@, secret_key) {
        Err(e) => Err(e),
        Ok(aes_key) => if aes_key.len() != AES_KEY_LEN {
            Err(CryptoError::CipherInit)
        } else if ed.encrypted_content@.len() < TAG_LEN {
            Err(CryptoError::DecryptionFailed)
        } else {
            match aes_gcm_open(aes_key, ed.nonce@, ed.encrypted_content@) {
                None => Err(CryptoError::DecryptionFailed),
                Some(data) => if content_hash(data) == ed.data_hash@ {
                    Ok(data)
                } else {
                    Err(CryptoError::IntegrityCheckFailed)
                },
            }
        },
    }
}

/// What decrypting `ed` with `secret_key` and reading the result as UTF-8
/// text gives.
pub open spec fn decrypt_text_outcome(ed: EncryptedData, secret_key: Seq<u8>, r: Result<
    String,
    CryptoError,
>) -> bool {
    match decrypt_outcome(ed, secret_key) {
        Err(e) => r == Err::<String, CryptoError>(e),
        Ok(data) => if vstd::utf8::valid_utf8(data) {
            r matches Ok(text) && text@ == vstd::utf8::decode_utf8(data)
        } else {
            r matches Err(CryptoError::InvalidUtf8(_))
        },
    }
}

/// Encryption under the public key derived from a secret key is undone by
/// decryption with that secret key: the data comes back unchanged.
pub proof fn lemma_decrypt_inverts_encrypt(ed: EncryptedData, data: Seq<u8>, secret_key: Seq<u8>)
    requires
        secret_key.len() == KEY_LEN,
        is_envelope_of(ed, data, derive_public_key(secret_key)),
    ensures
        decryption_defined(ed, secret_key),
        decrypt_outcome(ed, secret_key) == Ok::<Seq<u8>, CryptoError>(data),
{
    let aes_key = choose|k: Seq<u8>| envelope_with_key(ed, data, derive_public_key(secret_key), k);
    lemma_unwrap_inverts_wrap(ed.encrypted_aes_key@, secret_key, aes_key);
}

/// Text encrypted for the public key of a secret key decrypts, with that
/// secret key, to the same text.
pub proof fn lemma_text_round_trip(ed: EncryptedData, text: Seq<char>, secret_key: Seq<u8>)
    requires
        secret_key.len() == KEY_LEN,
        is_envelope_of(ed, vstd::utf8::encode_utf8(text), derive_public_key(secret_key)),
    ensures
        decryption_defined(ed, secret_key),
        forall|r: Result<String, CryptoError>|
            #[trigger] decrypt_text_outcome(ed, secret_key, r) ==> (r matches Ok(t) && t@ == text),
{
    broadcast use vstd::utf8::encode_utf8_valid_utf8, vstd::utf8::encode_utf8_decode_utf8;

    lemma_decrypt_inverts_encrypt(ed, vstd::utf8::encode_utf8(text), secret_key);
}

/// Data hashes are the hexadecimal SHA-256 of the whole data: equal data
/// hashes mean equal SHA-256 digests of the two inputs, whatever their length.
pub proof fn lemma_equal_hashes_mean_equal_digests(a: Seq<u8>, b: Seq<u8>)
    requires
        content_hash(a) == content_hash(b),
    ensures
        sha256_digest(a) == sha256_digest(b),
{
    crate::keys::lemma_hex_lower_injective(sha256_digest(a), sha256_digest(b));
}

/// The identifier of a public key is the first 16 characters of the data hash
/// of the key's bytes.
pub proof fn lemma_key_id_is_hash_prefix(public_key: Seq<u8>)
    ensures
        key_id(public_key) == content_hash(public_key).subrange(0, KEY_ID_LEN as int),
{
}

/// A successful decryption returns data whose hash is the recorded one.
pub proof fn lemma_decrypted_data_matches_hash(ed: EncryptedData, secret_key: Seq<u8>)
    requires
        decrypt_outcome(ed, secret_key) is Ok,
    ensures
        decrypt_outcome(ed, secret_key) matches Ok(data) && content_hash(data) == ed.data_hash@,
{
}

/// Envelopes for the same public key carry the same key identifier.
pub proof fn lemma_same_key_same_id(
    ed1: EncryptedData,
    data1: Seq<u8>,
    ed2: EncryptedData,
    data2: Seq<u8>,
    public_key: Seq<u8>,
)
    requires
        is_envelope_of(ed1, data1, public_key),
        is_envelope_of(ed2, data2, public_key),
    ensures
        ed1.public_key_id@ == ed2.public_key_id@,
{
    let k1 = choose|k: Seq<u8>| envelope_with_key(ed1, data1, public_key, k);
    let k2 = choose|k: Seq<u8>| envelope_with_key(ed2, data2, public_key, k);
}

/// Envelopes of the same data carry the same data hash, whatever the key,
/// and it is the hash that `compute_hash` gives.
pub proof fn lemma_same_data_same_hash(
    ed1: EncryptedData,
    public_key1: Seq<u8>,
    ed2: EncryptedData,
    public_key2: Seq<u8>,
    data: Seq<u8>,
)
    requires
        is_envelope_of(ed1, data, public_key1),
        is_envelope_of(ed2, data, public_key2),
    ensures
        ed1.data_hash@ == ed2.data_hash@,
        ed1.data_hash@ == content_hash(data),
{
    let k1 = choose|k: Seq<u8>| envelope_with_key(ed1, data, public_key1, k);
    let k2 = choose|k: Seq<u8>| envelope_with_key(ed2, data, public_key2, k);
}

/// The hybrid encryption engine.
#[derive(Clone)]
pub struct BLSEncryption {
    key_manager: Option<KeyManager>,
}

impl View for BLSEncryption {
    /// The key material of the attached key manager, if any.
    type V = Option<(Option<Seq<u8>>, Option<Seq<u8>>)>;

    closed spec fn view(&self) -> Option<(Option<Seq<u8>>, Option<Seq<u8>>)> {
        match self.key_manager {
            Some(m) => Some(m@),
            None => None,
        }
    }
}

impl BLSEncryption {
    /// An engine without a key manager.
    pub fn new() -> (engine: Self)
        ensures
            engine@ == None::<(Option<Seq<u8>>, Option<Seq<u8>>)>,
    {
        BLSEncryption { key_manager: None }
    }

    /// An engine that keeps `key_manager`.
    pub fn with_key_manager(key_manager: KeyManager) -> (engine: Self)
        ensures
            engine@ == Some(key_manager@),
    {
        BLSEncryption { key_manager: Some(key_manager) }
    }

    /// Encrypts `data` for the holder of the secret key of
    /// `public_key_bytes`.  The data is sealed first, so data too long for
    /// AES-GCM fails before the public key is checked.
    pub fn encrypt(&self, data: &[u8], public_key_bytes: &[u8]) -> (r: Result<
        EncryptedData,
        CryptoError,
    >)
        ensures
            data@.len() > AES_GCM_MAX_PLAINTEXT ==> r matches Err(CryptoError::EncryptionFailed),
            data@.len() <= AES_GCM_MAX_PLAINTEXT && public_key_bytes@.len() != KEY_LEN ==> r matches Err(
                CryptoError::InvalidPublicKeyLength,
            ),
            data@.len() <= AES_GCM_MAX_PLAINTEXT && public_key_bytes@.len() == KEY_LEN ==> (r matches Ok(
                ed,
            ) && is_envelope_of(ed, data@, public_key_bytes@)),
    {
        let mut aes_key: Vec<u8> = vec![0u8; AES_KEY_LEN];
        fill_random(&mut aes_key);
        let nonce = random_nonce();
        let encrypted_content = match aes_gcm_encrypt(aes_key.as_slice(), nonce.as_slice(), data) {
            Ok(c) => c,
            Err(_) => return Err(CryptoError::EncryptionFailed),
        };
        let encrypted_aes_key = match self.encrypt_aes_key(aes_key.as_slice(), public_key_bytes) {
            Ok(w) => w,
            Err(e) => return Err(e),
        };
        let data_hash = Self::compute_hash(data);
        let public_key_id = KeyManager::generate_key_id(public_key_bytes);
        let ed = EncryptedData {
            encrypted_aes_key,
            encrypted_content,
            nonce,
            data_hash,
            public_key_id,
        };
        assert(envelope_with_key(ed, data@, public_key_bytes@, aes_key@));
        Ok(ed)
    }

    /// Decrypts `encrypted_data` with `secret_key_bytes`: unwraps the AES
    /// key, opens the content, and checks it against the recorded hash.
    pub fn decrypt(&self, encrypted_data: &EncryptedData, secret_key_bytes: &[u8]) -> (r: Result<
        Vec<u8>,
        CryptoError,
    >)
        requires
            decryption_defined(*encrypted_data, secret_key_bytes@),
        ensures
            bytes_result(r) == decrypt_outcome(*encrypted_data, secret_key_bytes@),
    {
        let aes_key = match self.decrypt_aes_key(
            encrypted_data.encrypted_aes_key.as_slice(),
            secret_key_bytes,
        ) {
            Ok(k) => k,
            Err(e) => return Err(e),
        };
        let data = match aes_gcm_decrypt(
            aes_key.as_slice(),
            encrypted_data.nonce.as_slice(),
            encrypted_data.encrypted_content.as_slice(),
        ) {
            Ok(p) => p,
            Err(AeadFailure::KeyLength) => return Err(CryptoError::CipherInit),
            Err(AeadFailure::Rejected) => return Err(CryptoError::DecryptionFailed),
        };
        let computed_hash = Self::compute_hash(data.as_slice());
        if computed_hash == encrypted_data.data_hash {
            Ok(data)
        } else {
            Err(CryptoError::IntegrityCheckFailed)
        }
    }

    /// Whether decrypting `encrypted_data` with `secret_key_bytes` is defined
    /// (see [`decryption_defined`]); it is not when the AES key unwraps but
    /// the content nonce is not 12 bytes long.
    pub fn decryption_is_defined(&self, encrypted_data: &EncryptedData, secret_key_bytes: &[u8]) -> (b:
        bool)
        ensures
            b == decryption_defined(*encrypted_data, secret_key_bytes@),
    {
        if encrypted_data.nonce.len() == NONCE_LEN {
            return true;
        }
        match self.decrypt_aes_key(encrypted_data.encrypted_aes_key.as_slice(), secret_key_bytes) {
            Ok(aes_key) => aes_key.len() != AES_KEY_LEN,
            Err(_) => true,
        }
    }

    /// Decrypts when decryption is defined, and returns `None` otherwise.
    pub fn decrypt_checked(&self, encrypted_data: &EncryptedData, secret_key_bytes: &[u8]) -> (r:
        Option<Result<Vec<u8>, CryptoError>>)
        ensures
            r is None <==> !decryption_defined(*encrypted_data, secret_key_bytes@),
            r matches Some(d) ==> bytes_result(d) == decrypt_outcome(
                *encrypted_data,
                secret_key_bytes@,
            ),
    {
        if self.decryption_is_defined(encrypted_data, secret_key_bytes) {
            Some(self.decrypt(encrypted_data, secret_key_bytes))
        } else {
            None
        }
    }

    /// Encapsulates the AES key for the holder of the secret key of
    /// `public_key_bytes`: draws an ephemeral X25519 secret, agrees with the
    /// public key on a shared secret, and seals the AES key under its hash.
    /// The result is the ephemeral public key, the nonce, and the sealed key.
    fn encrypt_aes_key(&self, aes_key: &[u8], public_key_bytes: &[u8]) -> (r: Result<
        Vec<u8>,
        CryptoError,
    >)
        requires
            aes_key@.len() == AES_KEY_LEN,
        ensures
            public_key_bytes@.len() != KEY_LEN <==> r matches Err(
                CryptoError::InvalidPublicKeyLength,
            ),
            public_key_bytes@.len() == KEY_LEN ==> (r matches Ok(wrapped) && wraps_key(
                wrapped@,
                public_key_bytes@,
                aes_key@,
            )),
    {
        let public_key = match KeyManager::from_public_key(public_key_bytes) {
            Ok(k) => k,
            Err(e) => return Err(e),
        };
        let mut ephemeral_secret: Vec<u8> = vec![0u8; KEY_LEN];
        fill_random(&mut ephemeral_secret);
        let ephemeral_public = x25519_public_key(ephemeral_secret.as_slice());
        let shared = x25519_diffie_hellman(ephemeral_secret.as_slice(), public_key.as_slice());
        let kek_input = concat_bytes(shared.as_slice(), "BLS_KEY_ENCAPSULATION".as_bytes());
        let kek = sha256(kek_input.as_slice());
        let wrap_nonce = random_nonce();
        let sealed_key = match aes_gcm_encrypt(kek.as_slice(), wrap_nonce.as_slice(), aes_key) {
            Ok(c) => c,
            Err(_) => return Err(CryptoError::KeyEncryptionFailed),
        };
        let header = concat_bytes(ephemeral_public.as_slice(), wrap_nonce.as_slice());
        let wrapped = concat_bytes(header.as_slice(), sealed_key.as_slice());
        assert(wrapped_ephemeral_key(wrapped@) == ephemeral_public@);
        assert(wrapped_nonce(wrapped@) == wrap_nonce@);
        assert(wrapped_sealed_key(wrapped@) == sealed_key@);
        assert(wrapped_with(wrapped@, public_key_bytes@, aes_key@, ephemeral_secret@));
        Ok(wrapped)
    }

    /// Unwraps an AES key with `secret_key_bytes`: agrees with the ephemeral
    /// public key on the shared secret and opens the sealed key under its
    /// hash.
    fn decrypt_aes_key(&self, encrypted_aes_key: &[u8], secret_key_bytes: &[u8]) -> (r: Result<
        Vec<u8>,
        CryptoError,
    >)
        ensures
            bytes_result(r) == unwrapped_key(encrypted_aes_key@, secret_key_bytes@),
    {
        if encrypted_aes_key.len() < WRAPPED_HEADER_LEN {
            return Err(CryptoError::EncryptedKeyTooShort);
        }
        let (ephemeral_public, rest) = encrypted_aes_key.split_at(EPHEMERAL_KEY_LEN);
        let (wrap_nonce, sealed_key) = rest.split_at(NONCE_LEN);
        assert(ephemeral_public@ == wrapped_ephemeral_key(encrypted_aes_key@));
        assert(wrap_nonce@ == wrapped_nonce(encrypted_aes_key@));
        assert(sealed_key@ == wrapped_sealed_key(encrypted_aes_key@));
        let key_manager = match KeyManager::from_secret_key(secret_key_bytes) {
            Ok(m) => m,
            Err(e) => return Err(e),
        };
        let secret_key = match key_manager.get_secret_key_bytes() {
            Ok(k) => k,
            Err(e) => return Err(e),
        };
        let shared = x25519_diffie_hellman(secret_key.as_slice(), ephemeral_public);
        let kek_input = concat_bytes(shared.as_slice(), "BLS_KEY_ENCAPSULATION".as_bytes());
        let kek = sha256(kek_input.as_slice());
        match aes_gcm_decrypt(kek.as_slice(), wrap_nonce, sealed_key) {
            Ok(aes_key) => Ok(aes_key),
            Err(_) => Err(CryptoError::KeyDecryptionFailed),
        }
    }

    /// Lower-case hexadecimal SHA-256 digest of `data`: 64 characters.
    pub fn compute_hash(data: &[u8]) -> (hash: String)
        ensures
            hash@ == content_hash(data@),
            hash@ == hex_lower(sha256_digest(data@)),
            hash@.len() == HASH_TEXT_LEN,
    {
        let digest = sha256(data);
        proof {
            lemma_hex_lower_shape(digest@);
        }
        hex_encode(digest.as_slice())
    }

    /// Encrypts the UTF-8 bytes of `text` (see [`BLSEncryption::encrypt`]).
    pub fn encrypt_text(&self, text: &str, public_key_bytes: &[u8]) -> (r: Result<
        EncryptedData,
        CryptoError,
    >)
        ensures
            vstd::utf8::encode_utf8(text@).len() > AES_GCM_MAX_PLAINTEXT ==> r matches Err(
                CryptoError::EncryptionFailed,
            ),
            vstd::utf8::encode_utf8(text@).len() <= AES_GCM_MAX_PLAINTEXT
                && public_key_bytes@.len() != KEY_LEN ==> r matches Err(
                CryptoError::InvalidPublicKeyLength,
            ),
            vstd::utf8::encode_utf8(text@).len() <= AES_GCM_MAX_PLAINTEXT
                && public_key_bytes@.len() == KEY_LEN ==> (r matches Ok(ed) && is_envelope_of(
                ed,
                vstd::utf8::encode_utf8(text@),
                public_key_bytes@,
            )),
    {
        self.encrypt(text.as_bytes(), public_key_bytes)
    }

    /// Decrypts `encrypted_data` and reads the result as UTF-8 text.
    pub fn decrypt_text(&self, encrypted_data: &EncryptedData, secret_key_bytes: &[u8]) -> (r:
        Result<String, CryptoError>)
        requires
            decryption_defined(*encrypted_data, secret_key_bytes@),
        ensures
            decrypt_text_outcome(*encrypted_data, secret_key_bytes@, r),
    {
        match self.decrypt(encrypted_data, secret_key_bytes) {
            Err(e) => Err(e),
            Ok(data) => match crate::primitives::string_from_utf8(data) {
                Ok(text) => Ok(text),
                Err(detail) => Err(CryptoError::InvalidUtf8(detail)),
            },
        }
    }

    /// Decrypts text when decryption is defined, and returns `None` otherwise.
    pub fn decrypt_text_checked(&self, encrypted_data: &EncryptedData, secret_key_bytes: &[u8]) -> (r:
        Option<Result<String, CryptoError>>)
        ensures
            r is None <==> !decryption_defined(*encrypted_data, secret_key_bytes@),
            r matches Some(t) ==> decrypt_text_outcome(*encrypted_data, secret_key_bytes@, t),
    {
        if self.decryption_is_defined(encrypted_data, secret_key_bytes) {
            Some(self.decrypt_text(encrypted_data, secret_key_bytes))
        } else {
            None
        }
    }
}

impl Default for BLSEncryption {
    fn default() -> (engine: Self)
        ensures
            engine@ == None::<(Option<Seq<u8>>, Option<Seq<u8>>)>,
    {
        Self::new()
    }
}

} // verus!
