//! What the HTTP service answers: the state it runs with and, for each
//! request, the response it sends.  Listening and routing live outside the
//! library.
use vstd::prelude::*;
use vstd::string::StringExecFns;

use crate::bytes::copy_bytes;
use crate::codec::{base64_len_ok, decode_base64, decoded_base64, encode_base64};
use crate::encryption::{
    decrypt_outcome, decryption_defined, is_envelope_of, lemma_decrypt_inverts_encrypt, BLSEncryption,
};
use crate::error::CryptoError;
use crate::keys::{derive_public_key, key_id, KeyManager, KEY_LEN};
use crate::primitives::{base64_encode, AES_GCM_MAX_PLAINTEXT};
use crate::types::{
    DecryptRequest, DecryptResponse, EncryptRequest, EncryptResponse, EncryptedData,
    PublicKeyResponse,
};

verus! {

/// `ed` is the empty envelope sent with a failed encryption.
pub open spec fn is_empty_envelope(ed: EncryptedData) -> bool {
    &&& ed.encrypted_aes_key@.len() == 0
    &&& ed.encrypted_content@.len() == 0
    &&& ed.nonce@.len() == 0
    &&& ed.data_hash@.len() == 0
    &&& ed.public_key_id@.len() == 0
}

/// `response` reports a failed encryption with `message`.
pub open spec fn is_encrypt_failure(response: EncryptResponse, message: Seq<char>) -> bool {
    &&& !response.success
    &&& response.message@ == message
    &&& is_empty_envelope(response.encrypted_data)
}

/// `response` is what the service answers to an encryption request.
pub open spec fn encrypt_response_for(request: EncryptRequest, response: EncryptResponse) -> bool {
    match decoded_base64(request.data@) {
        None => is_encrypt_failure(response, "Invalid base64 data"@),
        Some(data) => match decoded_base64(request.public_key@) {
            None => is_encrypt_failure(response, "Invalid base64 public key"@),
            Some(public_key) => if data.len() > AES_GCM_MAX_PLAINTEXT {
                is_encrypt_failure(
                    response,
                    "Encryption failed: "@ + CryptoError::EncryptionFailed.describe(),
                )
            } else if public_key.len() != KEY_LEN {
                is_encrypt_failure(
                    response,
                    "Encryption failed: "@ + CryptoError::InvalidPublicKeyLength.describe(),
                )
            } else {
                &&& response.success
                &&& response.message@ == "Data encrypted successfully"@
                &&& is_envelope_of(response.encrypted_data, data, public_key)
            },
        },
    }
}

/// `response` is what the service answers to a decryption request; `None`
/// stands for a request that the service cannot answer (decryption is not
/// defined, or the plaintext is too long for Base64).
pub open spec fn decrypt_response_for(request: DecryptRequest, response: Option<DecryptResponse>) -> bool {
    match decoded_base64(request.secret_key@) {
        None => response matches Some(r) && !r.success && r.data@.len() == 0 && r.message@
            == "Invalid base64 secret key"@,
        Some(secret_key) => if !decryption_defined(request.encrypted_data, secret_key) {
            response is None
        } else {
            match decrypt_outcome(request.encrypted_data, secret_key) {
                Ok(data) => if crate::primitives::base64_len_fits(data.len()) {
                    response matches Some(r) && r.success && r.data@ == base64_encode(data)
                        && r.message@ == "Data decrypted successfully"@
                } else {
                    response is None
                },
                Err(e) => response matches Some(r) && !r.success && r.data@.len() == 0
                    && r.message@ == "Decryption failed: "@ + e.describe(),
            }
        },
    }
}

/// Data encrypted by the service for the public key of a secret key comes
/// back, Base64-encoded, when the service decrypts the envelope with that
/// secret key.
pub proof fn lemma_service_round_trip(
    encrypt_request: EncryptRequest,
    encrypt_response: EncryptResponse,
    decrypt_request: DecryptRequest,
    decrypt_response: Option<DecryptResponse>,
    secret_key: Seq<u8>,
)
    requires
        encrypt_response_for(encrypt_request, encrypt_response),
        encrypt_response.success,
        secret_key.len() == KEY_LEN,
        decoded_base64(encrypt_request.public_key@) == Some(derive_public_key(secret_key)),
        decoded_base64(decrypt_request.secret_key@) == Some(secret_key),
        decrypt_request.encrypted_data == encrypt_response.encrypted_data,
        decrypt_response_for(decrypt_request, decrypt_response),
        decoded_base64(encrypt_request.data@) is Some,
        crate::primitives::base64_len_fits(decoded_base64(encrypt_request.data@)->0.len()),
    ensures
        decrypt_response is Some,
        decrypt_response->0.success,
        decrypt_response->0.data@ == base64_encode(decoded_base64(encrypt_request.data@)->0),
        decrypt_response->0.message@ == "Data decrypted successfully"@,
{
    let data = decoded_base64(encrypt_request.data@)->0;
    lemma_decrypt_inverts_encrypt(decrypt_request.encrypted_data, data, secret_key);
}

/// A successful encryption answer carries a real envelope: both Base64
/// fields of the request decode, and the envelope encrypts the decoded data
/// for the decoded public key.
pub open spec fn encrypt_success_is_real(request: EncryptRequest, response: EncryptResponse) -> bool {
    &&& decoded_base64(request.data@) is Some
    &&& decoded_base64(request.public_key@) is Some
    &&& is_envelope_of(
        response.encrypted_data,
        decoded_base64(request.data@)->0,
        decoded_base64(request.public_key@)->0,
    )
}

/// A successful decryption answer carries the decrypted data: the secret key
/// decodes, the envelope decrypts with it, and the answer holds the data in
/// Base64.
pub open spec fn decrypt_success_is_real(request: DecryptRequest, response: DecryptResponse) -> bool {
    &&& decoded_base64(request.secret_key@) is Some
    &&& decrypt_outcome(request.encrypted_data, decoded_base64(request.secret_key@)->0) is Ok
    &&& response.data@ == base64_encode(
        decrypt_outcome(request.encrypted_data, decoded_base64(request.secret_key@)->0)->Ok_0,
    )
}

/// The service reports success for an encryption request only with a real
/// envelope, and otherwise sends the empty envelope.
pub proof fn lemma_encrypt_success_is_real(request: EncryptRequest, response: EncryptResponse)
    requires
        encrypt_response_for(request, response),
    ensures
        response.success ==> encrypt_success_is_real(request, response),
        !response.success ==> is_empty_envelope(response.encrypted_data),
{
}

/// The service reports success for a decryption request only when the
/// envelope really decrypts, and then sends the decrypted data.
pub proof fn lemma_decrypt_success_is_real(request: DecryptRequest, response: Option<DecryptResponse>)
    requires
        decrypt_response_for(request, response),
    ensures
        response is Some && response->0.success ==> decrypt_success_is_real(request, response->0),
{
}

/// The state the service runs with: an encryption engine and, when started
/// with a secret key, the key manager for it and its public key.
pub struct AppState {
    encryption: BLSEncryption,
    key_manager: Option<KeyManager>,
    public_key_bytes: Option<Vec<u8>>,
}

impl View for AppState {
    /// The view of the encryption engine, the key material of the key
    /// manager, and the public key, each when present.
    type V = (
        Option<(Option<Seq<u8>>, Option<Seq<u8>>)>,
        Option<(Option<Seq<u8>>, Option<Seq<u8>>)>,
        Option<Seq<u8>>,
    );

    closed spec fn view(&self) -> (
        Option<(Option<Seq<u8>>, Option<Seq<u8>>)>,
        Option<(Option<Seq<u8>>, Option<Seq<u8>>)>,
        Option<Seq<u8>>,
    ) {
        (
            self.encryption@,
            match self.key_manager {
                Some(m) => Some(m@),
                None => None,
            },
            crate::keys::opt_bytes(self.public_key_bytes),
        )
    }
}

impl Clone for AppState {
    fn clone(&self) -> (copy: Self)
        ensures
            copy@.2 == self@.2,
    {
        proof {
            use_type_invariant(self);
        }
        AppState {
            encryption: self.encryption.clone(),
            key_manager: self.key_manager.clone(),
            public_key_bytes: match &self.public_key_bytes {
                Some(key) => Some(copy_bytes(key.as_slice())),
                None => None,
            },
        }
    }
}

impl AppState {
    /// A public key held by the state is always a full-length key.
    #[verifier::type_invariant]
    spec fn public_key_has_key_length(self) -> bool {
        self.public_key_bytes matches Some(k) ==> k@.len() == KEY_LEN
    }

    /// The state for a service started with `secret_key_bytes` (the decoded
    /// contents of its key file), or with no key.
    pub fn new(secret_key_bytes: Option<Vec<u8>>) -> (r: Result<Self, CryptoError>)
        ensures
            match secret_key_bytes {
                None => r matches Ok(state) && state@ == (
                    None::<(Option<Seq<u8>>, Option<Seq<u8>>)>,
                    None::<(Option<Seq<u8>>, Option<Seq<u8>>)>,
                    None::<Seq<u8>>,
                ),
                Some(secret) => if secret@.len() != KEY_LEN {
                    r matches Err(CryptoError::InvalidSecretKeyLength)
                } else {
                    r matches Ok(state) && state@ == (
                        None::<(Option<Seq<u8>>, Option<Seq<u8>>)>,
                        Some((Some(secret@), Some(derive_public_key(secret@)))),
                        Some(derive_public_key(secret@)),
                    )
                },
            },
    {
        match secret_key_bytes {
            None => Ok(AppState { encryption: BLSEncryption::new(), key_manager: None, public_key_bytes: None }),
            Some(secret) => {
                let key_manager = match KeyManager::from_secret_key(secret.as_slice()) {
                    Ok(m) => m,
                    Err(e) => return Err(e),
                };
                let public_key = match key_manager.get_public_key_bytes() {
                    Ok(k) => k,
                    Err(e) => return Err(e),
                };
                Ok(
                    AppState {
                        encryption: BLSEncryption::new(),
                        key_manager: Some(key_manager),
                        public_key_bytes: Some(public_key),
                    },
                )
            },
        }
    }

    /// The answer to an encryption request.
    pub fn handle_encrypt(&self, request: &EncryptRequest) -> (response: EncryptResponse)
        ensures
            encrypt_response_for(*request, response),
            response.success ==> encrypt_success_is_real(*request, response),
            !response.success ==> is_empty_envelope(response.encrypted_data),
    {
        let data = match decode_base64(request.data.as_str()) {
            Ok(d) => d,
            Err(_) => return Self::encrypt_failure(String::from_str("Invalid base64 data")),
        };
        let public_key = match decode_base64(request.public_key.as_str()) {
            Ok(k) => k,
            Err(_) => return Self::encrypt_failure(String::from_str("Invalid base64 public key")),
        };
        match self.encryption.encrypt(data.as_slice(), public_key.as_slice()) {
            Ok(encrypted_data) => EncryptResponse {
                encrypted_data,
                success: true,
                message: String::from_str("Data encrypted successfully"),
            },
            Err(e) => {
                let mut message = String::from_str("Encryption failed: ");
                message.append(e.message().as_str());
                Self::encrypt_failure(message)
            },
        }
    }

    /// A failed encryption response with an empty envelope.
    fn encrypt_failure(message: String) -> (response: EncryptResponse)
        ensures
            is_encrypt_failure(response, message@),
    {
        EncryptResponse {
            encrypted_data: EncryptedData {
                encrypted_aes_key: Vec::new(),
                encrypted_content: Vec::new(),
                nonce: Vec::new(),
                data_hash: String::new(),
                public_key_id: String::new(),
            },
            success: false,
            message,
        }
    }

    /// The answer to a decryption request, or `None` when it cannot be
    /// answered (see [`decrypt_response_for`]).
    pub fn handle_decrypt(&self, request: &DecryptRequest) -> (response: Option<DecryptResponse>)
        ensures
            decrypt_response_for(*request, response),
            response is Some && response->0.success ==> decrypt_success_is_real(*request, response->0),
    {
        let secret_key = match decode_base64(request.secret_key.as_str()) {
            Ok(k) => k,
            Err(_) => return Some(
                DecryptResponse {
                    data: String::new(),
                    success: false,
                    message: String::from_str("Invalid base64 secret key"),
                },
            ),
        };
        let outcome = match self.encryption.decrypt_checked(
            &request.encrypted_data,
            secret_key.as_slice(),
        ) {
            Some(o) => o,
            None => return None,
        };
        match outcome {
            Ok(data) => {
                if !base64_len_ok(data.len()) {
                    return None;
                }
                Some(
                    DecryptResponse {
                        data: encode_base64(data.as_slice()),
                        success: true,
                        message: String::from_str("Data decrypted successfully"),
                    },
                )
            },
            Err(e) => {
                let mut message = String::from_str("Decryption failed: ");
                message.append(e.message().as_str());
                Some(DecryptResponse { data: String::new(), success: false, message })
            },
        }
    }

    /// The service's public key in Base64 with its identifier, when the
    /// service holds one.
    pub fn public_key_response(&self) -> (response: Option<PublicKeyResponse>)
        ensures
            match self@.2 {
                None => response is None,
                Some(key) => response matches Some(r) && r.public_key@ == base64_encode(key)
                    && r.key_id@ == key_id(key),
            },
    {
        proof {
            use_type_invariant(self);
        }
        match &self.public_key_bytes {
            None => None,
            Some(key) => Some(
                PublicKeyResponse {
                    public_key: encode_base64(key.as_slice()),
                    key_id: KeyManager::generate_key_id(key.as_slice()),
                },
            ),
        }
    }
}

} // verus!
