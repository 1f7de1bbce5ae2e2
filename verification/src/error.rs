//! The errors of the library and the messages they are reported with.
use vstd::prelude::*;
use vstd::string::StringExecFns;

verus! {

/// Why an operation of the library failed.
#[derive(Debug, Clone)]
pub enum CryptoError {
    /// A public key was not 32 bytes long.
    InvalidPublicKeyLength,
    /// A secret key was not 32 bytes long.
    InvalidSecretKeyLength,
    /// A key manager holds no public key.
    NoPublicKey,
    /// A key manager holds no secret key.
    NoSecretKey,
    /// The unwrapped AES key was not 32 bytes long.
    CipherInit,
    /// AES-GCM refused to encrypt the data.
    EncryptionFailed,
    /// AES-GCM refused to wrap the AES key.
    KeyEncryptionFailed,
    /// The wrapped AES key is shorter than its 44-byte header (ephemeral
    /// public key and nonce).
    EncryptedKeyTooShort,
    /// The wrapped AES key did not authenticate under the recipient's key.
    KeyDecryptionFailed,
    /// The encrypted content did not authenticate under the AES key.
    DecryptionFailed,
    /// The decrypted data does not hash to the recorded SHA-256 digest.
    IntegrityCheckFailed,
    /// Text was not valid Base64; the decoder's explanation is attached.
    InvalidBase64(String),
    /// Decrypted bytes were not valid UTF-8; the decoder's explanation is attached.
    InvalidUtf8(String),
}

impl CryptoError {
    /// The text with which the error is reported.
    pub open spec fn describe(self) -> Seq<char> {
        match self {
            CryptoError::InvalidPublicKeyLength => "Public key must be 32 bytes"@,
            CryptoError::InvalidSecretKeyLength => "Secret key must be 32 bytes"@,
            CryptoError::NoPublicKey => "No public key loaded"@,
            CryptoError::NoSecretKey => "No secret key loaded"@,
            CryptoError::CipherInit => "Failed to create AES cipher: Invalid Length"@,
            CryptoError::EncryptionFailed => "AES encryption failed: aead::Error"@,
            CryptoError::KeyEncryptionFailed => "Key encryption failed: aead::Error"@,
            CryptoError::EncryptedKeyTooShort => "Encrypted AES key too short"@,
            CryptoError::KeyDecryptionFailed => "Key decryption failed: aead::Error"@,
            CryptoError::DecryptionFailed => "AES decryption failed: aead::Error"@,
            CryptoError::IntegrityCheckFailed => "Data integrity check failed"@,
            CryptoError::InvalidBase64(detail) => detail@,
            CryptoError::InvalidUtf8(detail) => "Decrypted data is not valid UTF-8: "@ + detail@,
        }
    }

    /// The text with which the error is reported.
    pub fn message(&self) -> (text: String)
        ensures
            text@ == self.describe(),
    {
        match self {
            CryptoError::InvalidPublicKeyLength => String::from_str("Public key must be 32 bytes"),
            CryptoError::InvalidSecretKeyLength => String::from_str("Secret key must be 32 bytes"),
            CryptoError::NoPublicKey => String::from_str("No public key loaded"),
            CryptoError::NoSecretKey => String::from_str("No secret key loaded"),
            CryptoError::CipherInit => String::from_str(
                "Failed to create AES cipher: Invalid Length",
            ),
            CryptoError::EncryptionFailed => String::from_str("AES encryption failed: aead::Error"),
            CryptoError::KeyEncryptionFailed => String::from_str(
                "Key encryption failed: aead::Error",
            ),
            CryptoError::EncryptedKeyTooShort => String::from_str("Encrypted AES key too short"),
            CryptoError::KeyDecryptionFailed => String::from_str(
                "Key decryption failed: aead::Error",
            ),
            CryptoError::DecryptionFailed => String::from_str("AES decryption failed: aead::Error"),
            CryptoError::IntegrityCheckFailed => String::from_str("Data integrity check failed"),
            CryptoError::InvalidBase64(detail) => detail.clone(),
            CryptoError::InvalidUtf8(detail) => {
                let mut text = String::from_str("Decrypted data is not valid UTF-8: ");
                text.append(detail.as_str());
                text
            },
        }
    }
}

} // verus!
