//! The browser-facing operations: key pairs and results in Base64 text, and
//! error messages as text.  The JavaScript binding and the JSON encoding of
//! these records live outside the library.
use vstd::prelude::*;
use vstd::string::StringExecFns;

use crate::codec::{base64_len_ok, decode_base64, decoded_base64, encode_base64};
use crate::encryption::{
    content_hash, decrypt_outcome, decryption_defined, is_envelope_of, BLSEncryption,
};
use crate::error::CryptoError;
use crate::keys::{derive_public_key, key_id, KeyManager, KEY_LEN};
use crate::primitives::{base64_encode, base64_len_fits, AES_GCM_MAX_PLAINTEXT};
use crate::types::{EncryptedData, WasmDecryptResult, WasmEncryptedData, WasmKeyPair};

verus! {

/// `pair` holds, in Base64, the 32-byte secret key `secret` and the 32-byte
/// public key derived from it (each text decodes back to its key), and that
/// public key's identifier.
pub open spec fn wasm_key_pair_of(pair: WasmKeyPair, secret: Seq<u8>) -> bool {
    &&& secret.len() == KEY_LEN
    &&& pair.secret_key@ == base64_encode(secret)
    &&& decoded_base64(pair.secret_key@) == Some(secret)
    &&& pair.public_key@ == base64_encode(derive_public_key(secret))
    &&& decoded_base64(pair.public_key@) == Some(derive_public_key(secret))
    &&& derive_public_key(secret).len() == KEY_LEN
    &&& pair.key_id@ == key_id(derive_public_key(secret))
}

/// `pair` holds a key pair as the library makes them (see [`wasm_key_pair_of`]).
pub open spec fn is_wasm_key_pair(pair: WasmKeyPair) -> bool {
    exists|secret: Seq<u8>| #[trigger] wasm_key_pair_of(pair, secret)
}

/// `text` is `prefix` followed by some explanation.
pub open spec fn starts_with(text: Seq<char>, prefix: Seq<char>) -> bool {
    text.len() >= prefix.len() && text.subrange(0, prefix.len() as int) == prefix
}

/// `result` is the browser-facing outcome of decrypting `encrypted` with
/// `secret_key`; `None` stands for a decryption that is not defined or whose
/// plaintext is too long for Base64.
pub open spec fn wasm_decrypt_result_for(
    encrypted: EncryptedData,
    secret_key: Seq<u8>,
    result: Option<WasmDecryptResult>,
) -> bool {
    if !decryption_defined(encrypted, secret_key) {
        result is None
    } else {
        match decrypt_outcome(encrypted, secret_key) {
            Ok(data) => if base64_len_fits(data.len()) {
                result matches Some(r) && r.success && r.data is Some && r.data->0@ == base64_encode(
                    data,
                ) && r.error is None && r.hash_matches == Some(true)
            } else {
                result is None
            },
            Err(e) => result matches Some(r) && !r.success && r.data is None && r.error is Some
                && r.error->0@ == e.describe() && r.hash_matches == Some(false),
        }
    }
}

/// Data encrypted in the browser for the public key of a generated key pair
/// decrypts, with that pair's secret key, to a successful result carrying the
/// data in Base64 and a matching hash.
pub proof fn lemma_wasm_round_trip(
    pair: WasmKeyPair,
    secret: Seq<u8>,
    data: Seq<u8>,
    encrypted: EncryptedData,
    result: Option<WasmDecryptResult>,
)
    requires
        wasm_key_pair_of(pair, secret),
        is_envelope_of(encrypted, data, decoded_base64(pair.public_key@)->0),
        wasm_decrypt_result_for(encrypted, decoded_base64(pair.secret_key@)->0, result),
        base64_len_fits(data.len()),
    ensures
        result is Some,
        result->0.success,
        result->0.data is Some,
        result->0.data->0@ == base64_encode(data),
        result->0.error is None,
        result->0.hash_matches == Some(true),
{
    crate::encryption::lemma_decrypt_inverts_encrypt(encrypted, data, secret);
}

/// The encryption engine as offered to a browser.
pub struct BLSWasm {
    encryption: BLSEncryption,
}

impl View for BLSWasm {
    /// The key material of the engine's key manager, if it has one.
    type V = Option<(Option<Seq<u8>>, Option<Seq<u8>>)>;

    closed spec fn view(&self) -> Option<(Option<Seq<u8>>, Option<Seq<u8>>)> {
        self.encryption@
    }
}

impl BLSWasm {
    /// A fresh engine, without a key manager.
    pub fn new() -> (wasm: Self)
        ensures
            wasm@ == None::<(Option<Seq<u8>>, Option<Seq<u8>>)>,
    {
        BLSWasm { encryption: BLSEncryption::new() }
    }

    /// A fresh key pair in Base64, with the public key's identifier.
    pub fn generate_keypair(&self) -> (r: Result<WasmKeyPair, CryptoError>)
        ensures
            r matches Ok(pair) && is_wasm_key_pair(pair),
    {
        let pair = match KeyManager::generate_keypair() {
            Ok(p) => p,
            Err(e) => return Err(e),
        };
        let key_id = KeyManager::generate_key_id(pair.public_key.as_slice());
        let result = WasmKeyPair {
            secret_key: encode_base64(pair.secret_key.as_slice()),
            public_key: encode_base64(pair.public_key.as_slice()),
            key_id,
        };
        assert(wasm_key_pair_of(result, pair.secret_key@));
        Ok(result)
    }

    /// Encrypts `data` for the Base64 public key; failures are reported as
    /// text.
    pub fn encrypt(&self, data: &[u8], public_key_b64: &str) -> (r: Result<EncryptedData, String>)
        ensures
            match decoded_base64(public_key_b64@) {
                None => r matches Err(m) && starts_with(m@, "Invalid public key: "@),
                Some(public_key) => if data@.len() > AES_GCM_MAX_PLAINTEXT {
                    r matches Err(m) && m@ == "Encryption failed: "@
                        + CryptoError::EncryptionFailed.describe()
                } else if public_key.len() != KEY_LEN {
                    r matches Err(m) && m@ == "Encryption failed: "@
                        + CryptoError::InvalidPublicKeyLength.describe()
                } else {
                    r matches Ok(ed) && is_envelope_of(ed, data@, public_key)
                },
            },
    {
        let public_key = match decode_base64(public_key_b64) {
            Ok(k) => k,
            Err(e) => {
                let mut message = String::from_str("Invalid public key: ");
                message.append(e.message().as_str());
                assert(message@.subrange(0, "Invalid public key: "@.len() as int)
                    =~= "Invalid public key: "@);
                return Err(message);
            },
        };
        match self.encryption.encrypt(data, public_key.as_slice()) {
            Ok(ed) => Ok(ed),
            Err(e) => {
                let mut message = String::from_str("Encryption failed: ");
                message.append(e.message().as_str());
                Err(message)
            },
        }
    }

    /// The browser-facing record of an envelope, given the envelope's
    /// serialized bytes: those bytes in Base64, with the data hash and key
    /// identifier alongside.
    pub fn encrypted_result(&self, encrypted: &EncryptedData, serialized: &[u8]) -> (result:
        WasmEncryptedData)
        requires
            base64_len_fits(serialized@.len()),
        ensures
            result.encrypted_data@ == base64_encode(serialized@),
            result.data_hash@ == encrypted.data_hash@,
            result.public_key_id@ == encrypted.public_key_id@,
    {
        WasmEncryptedData {
            encrypted_data: encode_base64(serialized),
            data_hash: encrypted.data_hash.clone(),
            public_key_id: encrypted.public_key_id.clone(),
        }
    }

    /// Decrypts `encrypted` with `secret_key`, reporting the outcome as a
    /// record; `None` when the decryption cannot be reported (see
    /// [`wasm_decrypt_result_for`]).
    pub fn decrypt_parsed(&self, encrypted: &EncryptedData, secret_key: &[u8]) -> (result: Option<
        WasmDecryptResult,
    >)
        ensures
            wasm_decrypt_result_for(*encrypted, secret_key@, result),
    {
        let outcome = match self.encryption.decrypt_checked(encrypted, secret_key) {
            Some(o) => o,
            None => return None,
        };
        match outcome {
            Ok(data) => {
                if !base64_len_ok(data.len()) {
                    return None;
                }
                Some(
                    WasmDecryptResult {
                        success: true,
                        data: Some(encode_base64(data.as_slice())),
                        error: None,
                        hash_matches: Some(true),
                    },
                )
            },
            Err(e) => Some(
                WasmDecryptResult {
                    success: false,
                    data: None,
                    error: Some(e.message()),
                    hash_matches: Some(false),
                },
            ),
        }
    }

    /// Whether `data` hashes to `expected_hash`.
    pub fn validate_hash(&self, data: &[u8], expected_hash: &str) -> (matches: bool)
        ensures
            matches == (content_hash(data@) == expected_hash@),
    {
        let computed_hash = BLSEncryption::compute_hash(data);
        computed_hash == String::from_str(expected_hash)
    }

    /// Lower-case hexadecimal SHA-256 digest of `data`.
    pub fn compute_hash(&self, data: &[u8]) -> (hash: String)
        ensures
            hash@ == content_hash(data@),
    {
        BLSEncryption::compute_hash(data)
    }
}

} // verus!
