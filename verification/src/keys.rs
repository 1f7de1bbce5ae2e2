//! Key pairs: a random 32-byte secret key and its X25519 public key, key
//! identifiers, and a simple shared-secret derivation.
use vstd::prelude::*;
use vstd::string::StrSliceExecFns;

use crate::bytes::{concat_bytes, copy_bytes};
use crate::error::CryptoError;
use crate::primitives::{
    fill_random, hex_digit, hex_encode, hex_lower, sha256, sha256_digest, x25519_public,
    x25519_public_key, DIGEST_LEN,
};
use crate::types::KeyPair;

verus! {

/// Byte length of secret and public keys.
pub const KEY_LEN: usize = 32;

/// Number of hexadecimal characters in a key identifier.
pub const KEY_ID_LEN: usize = 16;

/// The bytes appended to the key material of a shared secret before hashing.
pub open spec fn shared_secret_label() -> Seq<u8> {
    vstd::utf8::encode_utf8("SHARED_SECRET_DERIVATION"@)
}

/// The public key that belongs to `secret`: its X25519 public key.
pub open spec fn derive_public_key(secret: Seq<u8>) -> Seq<u8> {
    x25519_public(secret)
}

/// The identifier of a public key: the first 16 hexadecimal characters of its
/// SHA-256 digest.
pub open spec fn key_id(public_key: Seq<u8>) -> Seq<char> {
    hex_lower(sha256_digest(public_key)).subrange(0, KEY_ID_LEN as int)
}

/// The shared secret of `secret` with another party's public key.
pub open spec fn shared_secret(secret: Seq<u8>, other_public: Seq<u8>) -> Seq<u8> {
    sha256_digest(secret + other_public + shared_secret_label())
}

/// The shared secret is the SHA-256 digest of the secret key, followed by the
/// other party's public key, followed by the label, whatever the bytes of the
/// two keys.
pub proof fn lemma_shared_secret_hashes_secret_then_other(secret: Seq<u8>, other_public: Seq<u8>)
    ensures
        shared_secret(secret, other_public) == sha256_digest(
            secret + other_public + vstd::utf8::encode_utf8("SHARED_SECRET_DERIVATION"@),
        ),
{
}

/// Whether `pair` is a key pair as the library makes them: a 32-byte secret
/// key and the public key derived from it.
pub open spec fn is_key_pair(pair: KeyPair) -> bool {
    &&& pair.secret_key@.len() == KEY_LEN
    &&& pair.public_key@ == derive_public_key(pair.secret_key@)
}

/// The contents of an optional byte vector.
pub open spec fn opt_bytes(v: Option<Vec<u8>>) -> Option<Seq<u8>> {
    match v {
        Some(b) => Some(b@),
        None => None,
    }
}

/// Hexadecimal text has two characters per byte, all of them ASCII.
pub proof fn lemma_hex_lower_shape(data: Seq<u8>)
    ensures
        hex_lower(data).len() == 2 * data.len(),
        vstd::utf8::is_ascii_chars(hex_lower(data)),
    decreases data.len(),
{
    if data.len() > 0 {
        lemma_hex_lower_shape(data.drop_first());
        let head = seq![hex_digit(data[0] / 16), hex_digit(data[0] % 16)];
        let tail = hex_lower(data.drop_first());
        assert(hex_lower(data) == head + tail);
        assert forall|i| 0 <= i < hex_lower(data).len() implies '\0' <= #[trigger] hex_lower(
            data,
        )[i] <= '\u{7f}' by {
            if i >= 2 {
                assert(hex_lower(data)[i] == tail[i - 2]);
            }
        }
    }
}

/// Distinct nibbles have distinct hexadecimal digits.
pub proof fn lemma_hex_digit_injective(n: u8, m: u8)
    requires
        n < 16,
        m < 16,
        hex_digit(n) == hex_digit(m),
    ensures
        n == m,
{
    assert((hex_digit(n) as u32) == (if n < 10 { 48 + n } else { 87 + n }));
    assert((hex_digit(m) as u32) == (if m < 10 { 48 + m } else { 87 + m }));
}

/// Hexadecimal text determines the bytes it was made from.
pub proof fn lemma_hex_lower_injective(a: Seq<u8>, b: Seq<u8>)
    requires
        hex_lower(a) == hex_lower(b),
    ensures
        a == b,
    decreases a.len(),
{
    lemma_hex_lower_shape(a);
    lemma_hex_lower_shape(b);
    if a.len() > 0 {
        let ta = hex_lower(a.drop_first());
        let tb = hex_lower(b.drop_first());
        assert(hex_lower(a) == seq![hex_digit(a[0] / 16), hex_digit(a[0] % 16)] + ta);
        assert(hex_lower(b) == seq![hex_digit(b[0] / 16), hex_digit(b[0] % 16)] + tb);
        assert(hex_lower(a)[0] == hex_digit(a[0] / 16));
        assert(hex_lower(b)[0] == hex_digit(b[0] / 16));
        assert(hex_lower(a)[1] == hex_digit(a[0] % 16));
        assert(hex_lower(b)[1] == hex_digit(b[0] % 16));
        lemma_hex_digit_injective(a[0] / 16, b[0] / 16);
        lemma_hex_digit_injective(a[0] % 16, b[0] % 16);
        assert(a[0] == b[0]);
        assert(ta == hex_lower(a).subrange(2, hex_lower(a).len() as int));
        assert(tb == hex_lower(b).subrange(2, hex_lower(b).len() as int));
        lemma_hex_lower_injective(a.drop_first(), b.drop_first());
        assert(a == seq![a[0]] + a.drop_first());
        assert(b == seq![b[0]] + b.drop_first());
    } else {
        assert(b.len() == 0);
        assert(a == b);
    }
}

/// Holds an optional secret key and an optional public key.
#[derive(Clone)]
pub struct KeyManager {
    secret_key: Option<Vec<u8>>,
    public_key: Option<Vec<u8>>,
}

impl View for KeyManager {
    /// The secret key and the public key, each when present.
    type V = (Option<Seq<u8>>, Option<Seq<u8>>);

    closed spec fn view(&self) -> (Option<Seq<u8>>, Option<Seq<u8>>) {
        (opt_bytes(self.secret_key), opt_bytes(self.public_key))
    }
}

impl KeyManager {
    /// A key manager holding no keys.
    pub fn new() -> (manager: Self)
        ensures
            manager@ == (None::<Seq<u8>>, None::<Seq<u8>>),
    {
        KeyManager { secret_key: None, public_key: None }
    }

    /// Computes the public key of a secret key.
    fn public_key_of(secret_key: &[u8]) -> (public_key: Vec<u8>)
        requires
            secret_key@.len() == KEY_LEN,
        ensures
            public_key@ == derive_public_key(secret_key@),
            public_key@.len() == KEY_LEN,
    {
        x25519_public_key(secret_key)
    }

    /// Generates a fresh key pair: 32 random secret bytes and the public key
    /// derived from them.  Never fails.
    pub fn generate_keypair() -> (r: Result<KeyPair, CryptoError>)
        ensures
            r matches Ok(pair) && is_key_pair(pair) && pair.public_key@.len() == KEY_LEN,
    {
        let mut secret_key: Vec<u8> = vec![0u8; KEY_LEN];
        fill_random(&mut secret_key);
        let public_key = Self::public_key_of(secret_key.as_slice());
        Ok(KeyPair { secret_key, public_key })
    }

    /// A key manager holding `secret_key_bytes` and its public key; fails
    /// when the secret key is not 32 bytes long.
    pub fn from_secret_key(secret_key_bytes: &[u8]) -> (r: Result<Self, CryptoError>)
        ensures
            secret_key_bytes@.len() != KEY_LEN <==> r matches Err(
                CryptoError::InvalidSecretKeyLength,
            ),
            secret_key_bytes@.len() == KEY_LEN ==> (r matches Ok(manager) && manager@ == (
                Some(secret_key_bytes@),
                Some(derive_public_key(secret_key_bytes@)),
            ) && derive_public_key(secret_key_bytes@).len() == KEY_LEN),
    {
        if secret_key_bytes.len() != KEY_LEN {
            return Err(CryptoError::InvalidSecretKeyLength);
        }
        let public_key = Self::public_key_of(secret_key_bytes);
        Ok(KeyManager { secret_key: Some(copy_bytes(secret_key_bytes)), public_key: Some(public_key) })
    }

    /// Checks that `public_key_bytes` has the length of a public key and
    /// returns a copy of it.
    pub fn from_public_key(public_key_bytes: &[u8]) -> (r: Result<Vec<u8>, CryptoError>)
        ensures
            public_key_bytes@.len() != KEY_LEN <==> r matches Err(
                CryptoError::InvalidPublicKeyLength,
            ),
            public_key_bytes@.len() == KEY_LEN ==> (r matches Ok(key) && key@ == public_key_bytes@),
    {
        if public_key_bytes.len() != KEY_LEN {
            return Err(CryptoError::InvalidPublicKeyLength);
        }
        Ok(copy_bytes(public_key_bytes))
    }

    /// The public key held, if any.
    pub fn get_public_key_bytes(&self) -> (r: Result<Vec<u8>, CryptoError>)
        ensures
            match self@.1 {
                Some(key) => r matches Ok(v) && v@ == key,
                None => r matches Err(CryptoError::NoPublicKey),
            },
    {
        match &self.public_key {
            Some(key) => Ok(copy_bytes(key.as_slice())),
            None => Err(CryptoError::NoPublicKey),
        }
    }

    /// The secret key held, if any.
    pub fn get_secret_key_bytes(&self) -> (r: Result<Vec<u8>, CryptoError>)
        ensures
            match self@.0 {
                Some(key) => r matches Ok(v) && v@ == key,
                None => r matches Err(CryptoError::NoSecretKey),
            },
    {
        match &self.secret_key {
            Some(key) => Ok(copy_bytes(key.as_slice())),
            None => Err(CryptoError::NoSecretKey),
        }
    }

    /// The identifier of a public key: the first 16 characters of the
    /// lower-case hexadecimal SHA-256 digest of the key.
    pub fn generate_key_id(public_key: &[u8]) -> (id: String)
        ensures
            id@ == key_id(public_key@),
            id@ == hex_lower(sha256_digest(public_key@)).subrange(0, KEY_ID_LEN as int),
            id@.len() == KEY_ID_LEN,
    {
        let digest = sha256(public_key);
        let text = hex_encode(digest.as_slice());
        proof {
            lemma_hex_lower_shape(digest@);
        }
        let prefix = text.as_str().substring_ascii(0, KEY_ID_LEN);
        prefix.to_owned()
    }

    /// The shared secret of the secret key held with another party's public
    /// key; fails when no secret key is held.
    pub fn derive_shared_secret(&self, other_public_key_bytes: &[u8]) -> (r: Result<
        Vec<u8>,
        CryptoError,
    >)
        ensures
            match self@.0 {
                Some(secret) => r matches Ok(v) && v@ == shared_secret(
                    secret,
                    other_public_key_bytes@,
                ) && v@ == sha256_digest(
                    secret + other_public_key_bytes@ + vstd::utf8::encode_utf8(
                        "SHARED_SECRET_DERIVATION"@,
                    ),
                ) && v@.len() == DIGEST_LEN,
                None => r matches Err(CryptoError::NoSecretKey),
            },
    {
        match &self.secret_key {
            None => Err(CryptoError::NoSecretKey),
            Some(secret) => {
                let keyed = concat_bytes(secret.as_slice(), other_public_key_bytes);
                let input = concat_bytes(keyed.as_slice(), "SHARED_SECRET_DERIVATION".as_bytes());
                Ok(sha256(input.as_slice()))
            },
        }
    }
}

impl Default for KeyManager {
    fn default() -> (manager: Self)
        ensures
            manager@ == (None::<Seq<u8>>, None::<Seq<u8>>),
    {
        Self::new()
    }
}

} // verus!
