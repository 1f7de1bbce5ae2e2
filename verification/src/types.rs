//! The records that the library exchanges with its callers.
use vstd::prelude::*;

verus! {

/// The result of hybrid encryption: everything a holder of the matching
/// secret key needs to recover and check the data.
#[derive(Debug, Clone)]
pub struct EncryptedData {
    /// The AES key encapsulated for the recipient: a 32-byte ephemeral
    /// X25519 public key, a 12-byte nonce, and the AES key sealed under the
    /// hash of the ephemeral key's shared secret with the recipient's key.
    pub encrypted_aes_key: Vec<u8>,
    /// The data sealed with AES-256-GCM under the AES key (tag appended).
    pub encrypted_content: Vec<u8>,
    /// The 12-byte nonce used for the content.
    pub nonce: Vec<u8>,
    /// Lower-case hexadecimal SHA-256 digest of the original data.
    pub data_hash: String,
    /// The identifier of the public key the data was encrypted for.
    pub public_key_id: String,
}

/// A secret key and the public key derived from it.
#[derive(Debug, Clone)]
pub struct KeyPair {
    pub secret_key: Vec<u8>,
    pub public_key: Vec<u8>,
}

/// A request to encrypt: Base64 data and a Base64 public key.
#[derive(Debug, Clone)]
pub struct EncryptRequest {
    pub data: String,
    pub public_key: String,
}

/// A request to decrypt an envelope with a Base64 secret key.
#[derive(Debug, Clone)]
pub struct DecryptRequest {
    pub encrypted_data: EncryptedData,
    pub secret_key: String,
}

/// The answer to an [`EncryptRequest`].
#[derive(Debug, Clone)]
pub struct EncryptResponse {
    pub encrypted_data: EncryptedData,
    pub success: bool,
    pub message: String,
}

/// The answer to a [`DecryptRequest`]; `data` is Base64.
#[derive(Debug, Clone)]
pub struct DecryptResponse {
    pub data: String,
    pub success: bool,
    pub message: String,
}

/// A Base64 public key and its identifier.
#[derive(Debug, Clone)]
pub struct PublicKeyResponse {
    pub public_key: String,
    pub key_id: String,
}

/// A key pair as handed to a browser: both keys in Base64, and the key's id.
#[derive(Debug, Clone)]
pub struct WasmKeyPair {
    pub secret_key: String,
    pub public_key: String,
    pub key_id: String,
}

/// An envelope as handed to a browser: the serialized envelope in Base64,
/// with its data hash and key id alongside.
#[derive(Debug, Clone)]
pub struct WasmEncryptedData {
    pub encrypted_data: String,
    pub data_hash: String,
    pub public_key_id: String,
}

/// The outcome of a decryption as handed to a browser.
#[derive(Debug, Clone)]
pub struct WasmDecryptResult {
    pub success: bool,
    pub data: Option<String>,
    pub error: Option<String>,
    pub hash_matches: Option<bool>,
}

} // verus!
