use aes_gcm::aead::{Aead, KeyInit};
use aes_gcm::{Aes256Gcm, Nonce};
use sha2::{Digest, Sha256};
use x25519_dalek::{PublicKey, StaticSecret};

use bls_encryption_service::codec::{base64_len_ok, decode_base64, decode_key_text, encode_base64};
use bls_encryption_service::encryption::BLSEncryption;
use bls_encryption_service::error::CryptoError;
use bls_encryption_service::file_format::{detect_input_format, InputFormat};
use bls_encryption_service::keys::KeyManager;
use bls_encryption_service::service::AppState;
use bls_encryption_service::types::{DecryptRequest, EncryptRequest, EncryptedData};
use bls_encryption_service::wasm::BLSWasm;

/// The test secret key: 9 followed by zeros.
fn test_secret() -> [u8; 32] {
    let mut secret = [0u8; 32];
    secret[0] = 9;
    secret
}

/// Its X25519 public key (RFC 7748, one ladder iteration from the base point).
fn test_public() -> Vec<u8> {
    hex::decode("422c8e7a6227d7bca1350b3e2bb7279f7897b87bb6854b783c60e80311ae3079").unwrap()
}

/// An envelope whose wrapped key is `aes_key` (of any length), encapsulated
/// for the public key of `secret`.
fn envelope_with_raw_key(secret: &[u8], aes_key: &[u8], nonce: Vec<u8>) -> EncryptedData {
    let public = KeyManager::from_secret_key(secret).unwrap().get_public_key_bytes().unwrap();
    let mut public_bytes = [0u8; 32];
    public_bytes.copy_from_slice(&public);
    let ephemeral = StaticSecret::from([5u8; 32]);
    let ephemeral_public = PublicKey::from(&ephemeral);
    let shared = ephemeral.diffie_hellman(&PublicKey::from(public_bytes));
    let mut h = Sha256::new();
    h.update(shared.as_bytes());
    h.update(b"BLS_KEY_ENCAPSULATION");
    let kek = h.finalize();
    let cipher = Aes256Gcm::new_from_slice(&kek).unwrap();
    let wrap_nonce = [7u8; 12];
    let mut wrapped = ephemeral_public.as_bytes().to_vec();
    wrapped.extend_from_slice(&wrap_nonce);
    wrapped.extend(cipher.encrypt(Nonce::from_slice(&wrap_nonce), aes_key).unwrap());
    EncryptedData {
        encrypted_aes_key: wrapped,
        encrypted_content: vec![1, 2, 3],
        nonce,
        data_hash: String::new(),
        public_key_id: String::new(),
    }
}

#[test]
fn compute_hash_is_hex_sha256() {
    assert_eq!(
        BLSEncryption::compute_hash(b"abc"),
        "ba7816bf8f01cfea414140de5dae2223b00361a396177a9cb410ff61f20015ad"
    );
    assert_eq!(
        BLSEncryption::compute_hash(b""),
        "e3b0c44298fc1c149afbf4c8996fb92427ae41e4649b934ca495991b7852b855"
    );
}

#[test]
fn public_key_is_derived_from_secret() {
    let manager = KeyManager::from_secret_key(&test_secret()).unwrap();
    assert_eq!(manager.get_public_key_bytes().unwrap(), test_public());
    assert_eq!(manager.get_secret_key_bytes().unwrap(), test_secret().to_vec());
}

#[test]
fn key_id_is_digest_prefix() {
    assert_eq!(KeyManager::generate_key_id(&[0u8; 32]), "66687aadf862bd77");
    assert_eq!(KeyManager::generate_key_id(&test_public()), "108e9f81fa7997a5");
}

#[test]
fn shared_secret_exact_value() {
    let manager = KeyManager::from_secret_key(&test_secret()).unwrap();
    let secret = manager.derive_shared_secret(&test_public()).unwrap();
    assert_eq!(
        hex::encode(secret),
        "b178961559c4eb481349d577c9c5af2dc8c236630398b61cf4cc1cce3f260025"
    );
}

#[test]
fn key_length_errors() {
    assert!(matches!(KeyManager::from_secret_key(&[1u8; 31]), Err(CryptoError::InvalidSecretKeyLength)));
    assert!(matches!(KeyManager::from_public_key(&[1u8; 33]), Err(CryptoError::InvalidPublicKeyLength)));
    assert_eq!(KeyManager::from_public_key(&[5u8; 32]).unwrap(), vec![5u8; 32]);
    let engine = BLSEncryption::new();
    assert!(matches!(engine.encrypt(b"x", &[1u8; 16]), Err(CryptoError::InvalidPublicKeyLength)));
}

#[test]
fn envelope_shape_and_round_trip() {
    let engine = BLSEncryption::new();
    let public = test_public();
    let ed = engine.encrypt(b"payload", &public).unwrap();
    assert_eq!(ed.nonce.len(), 12);
    assert_eq!(ed.encrypted_aes_key.len(), 92);
    assert_eq!(ed.data_hash.len(), 64);
    assert_eq!(ed.public_key_id.len(), 16);
    assert_eq!(ed.encrypted_content.len(), b"payload".len() + 16);
    assert_eq!(ed.data_hash, BLSEncryption::compute_hash(b"payload"));
    assert_eq!(ed.public_key_id, "108e9f81fa7997a5");
    assert_eq!(engine.decrypt(&ed, &test_secret()).unwrap(), b"payload".to_vec());
    assert_eq!(engine.decrypt_checked(&ed, &test_secret()).unwrap().unwrap(), b"payload".to_vec());
}

#[test]
fn decrypt_error_variants() {
    let engine = BLSEncryption::new();
    let ed = engine.encrypt(b"payload", &test_public()).unwrap();

    let mut short = ed.clone();
    short.encrypted_aes_key.truncate(11);
    assert!(matches!(engine.decrypt(&short, &test_secret()), Err(CryptoError::EncryptedKeyTooShort)));
    let mut header_only = ed.clone();
    header_only.encrypted_aes_key.truncate(43);
    assert!(matches!(engine.decrypt(&header_only, &test_secret()), Err(CryptoError::EncryptedKeyTooShort)));
    header_only = ed.clone();
    header_only.encrypted_aes_key.truncate(44);
    assert!(matches!(engine.decrypt(&header_only, &test_secret()), Err(CryptoError::KeyDecryptionFailed)));

    assert!(matches!(engine.decrypt(&ed, &[0u8; 31]), Err(CryptoError::InvalidSecretKeyLength)));
    assert!(matches!(engine.decrypt(&ed, &[9u8; 32]), Err(CryptoError::KeyDecryptionFailed)));

    let mut content = ed.clone();
    content.encrypted_content[0] ^= 1;
    assert!(matches!(engine.decrypt(&content, &test_secret()), Err(CryptoError::DecryptionFailed)));

    let mut hash = ed.clone();
    hash.data_hash = BLSEncryption::compute_hash(b"other");
    assert!(matches!(engine.decrypt(&hash, &test_secret()), Err(CryptoError::IntegrityCheckFailed)));

    let odd_key = envelope_with_raw_key(&test_secret(), &[3u8; 16], vec![0u8; 12]);
    assert!(matches!(engine.decrypt(&odd_key, &test_secret()), Err(CryptoError::CipherInit)));
}

#[test]
fn decryption_with_bad_nonce_is_not_defined() {
    let engine = BLSEncryption::new();
    // The AES key unwraps but the content nonce is too short: not defined.
    let bad_nonce = envelope_with_raw_key(&test_secret(), &[3u8; 32], vec![0u8; 5]);
    assert!(!engine.decryption_is_defined(&bad_nonce, &test_secret()));
    assert!(engine.decrypt_checked(&bad_nonce, &test_secret()).is_none());
    assert!(engine.decrypt_text_checked(&bad_nonce, &test_secret()).is_none());
    // With the wrong secret key the key does not unwrap: an ordinary error.
    assert!(engine.decryption_is_defined(&bad_nonce, &[1u8; 32]));
    assert!(matches!(
        engine.decrypt_checked(&bad_nonce, &[1u8; 32]),
        Some(Err(CryptoError::KeyDecryptionFailed))
    ));
    // An unwrapped key of the wrong length fails before the nonce is read.
    let odd_key = envelope_with_raw_key(&test_secret(), &[3u8; 16], vec![0u8; 5]);
    assert!(matches!(
        engine.decrypt_checked(&odd_key, &test_secret()),
        Some(Err(CryptoError::CipherInit))
    ));
}

#[test]
fn text_round_trip_and_invalid_utf8() {
    let engine = BLSEncryption::new();
    let ed = engine.encrypt_text("héllo wörld", &test_public()).unwrap();
    assert_eq!(engine.decrypt_text(&ed, &test_secret()).unwrap(), "héllo wörld");
    let bytes = engine.encrypt(&[0xff, 0xfe], &test_public()).unwrap();
    let err = engine.decrypt_text(&bytes, &test_secret()).unwrap_err();
    assert!(matches!(err, CryptoError::InvalidUtf8(_)));
    assert!(err.message().starts_with("Decrypted data is not valid UTF-8: "));
    assert_eq!(
        engine.decrypt_text_checked(&ed, &test_secret()).unwrap().unwrap(),
        "héllo wörld"
    );
}

#[test]
fn base64_codec() {
    assert_eq!(encode_base64(b"hello"), "aGVsbG8=");
    assert_eq!(encode_base64(b""), "");
    assert_eq!(decode_base64("aGVsbG8=").unwrap(), b"hello".to_vec());
    assert!(matches!(decode_base64("not base64!"), Err(CryptoError::InvalidBase64(_))));
    let key = [42u8; 32];
    assert_eq!(decode_base64(&encode_base64(&key)).unwrap(), key.to_vec());
    let text = encode_base64(&[0xfb, 0xff, 0x00, 0x10, 0x7f]);
    assert!(text.chars().all(|c| c.is_ascii_alphanumeric() || c == '+' || c == '/' || c == '='));
    assert_eq!(decode_key_text(&text).unwrap(), vec![0xfb, 0xff, 0x00, 0x10, 0x7f]);
    assert!(base64_len_ok(0));
    assert!(base64_len_ok(1000));
    assert!(!base64_len_ok(usize::MAX));
}

#[test]
fn error_messages() {
    assert_eq!(CryptoError::InvalidPublicKeyLength.message(), "Public key must be 32 bytes");
    assert_eq!(CryptoError::InvalidSecretKeyLength.message(), "Secret key must be 32 bytes");
    assert_eq!(CryptoError::NoPublicKey.message(), "No public key loaded");
    assert_eq!(CryptoError::NoSecretKey.message(), "No secret key loaded");
    assert_eq!(CryptoError::CipherInit.message(), "Failed to create AES cipher: Invalid Length");
    assert_eq!(CryptoError::EncryptionFailed.message(), "AES encryption failed: aead::Error");
    assert_eq!(CryptoError::KeyEncryptionFailed.message(), "Key encryption failed: aead::Error");
    assert_eq!(CryptoError::EncryptedKeyTooShort.message(), "Encrypted AES key too short");
    assert_eq!(CryptoError::KeyDecryptionFailed.message(), "Key decryption failed: aead::Error");
    assert_eq!(CryptoError::DecryptionFailed.message(), "AES decryption failed: aead::Error");
    assert_eq!(CryptoError::IntegrityCheckFailed.message(), "Data integrity check failed");
    assert_eq!(CryptoError::InvalidBase64("bad".to_string()).message(), "bad");
}

#[test]
fn service_responses() {
    let state = AppState::new(None).unwrap();
    assert!(state.public_key_response().is_none());

    let bad_data = state.handle_encrypt(&EncryptRequest {
        data: "***".to_string(),
        public_key: encode_base64(&[0u8; 32]),
    });
    assert!(!bad_data.success);
    assert_eq!(bad_data.message, "Invalid base64 data");
    assert!(bad_data.encrypted_data.encrypted_aes_key.is_empty());

    let bad_key = state.handle_encrypt(&EncryptRequest {
        data: encode_base64(b"x"),
        public_key: "***".to_string(),
    });
    assert_eq!(bad_key.message, "Invalid base64 public key");

    let short_key = state.handle_encrypt(&EncryptRequest {
        data: encode_base64(b"x"),
        public_key: encode_base64(&[0u8; 8]),
    });
    assert!(!short_key.success);
    assert_eq!(short_key.message, "Encryption failed: Public key must be 32 bytes");

    let ok = state.handle_encrypt(&EncryptRequest {
        data: encode_base64(b"x"),
        public_key: encode_base64(&test_public()),
    });
    assert!(ok.success);
    assert_eq!(ok.message, "Data encrypted successfully");

    let bad_secret = state
        .handle_decrypt(&DecryptRequest {
            encrypted_data: ok.encrypted_data.clone(),
            secret_key: "***".to_string(),
        })
        .unwrap();
    assert!(!bad_secret.success);
    assert_eq!(bad_secret.message, "Invalid base64 secret key");

    let wrong = state
        .handle_decrypt(&DecryptRequest {
            encrypted_data: ok.encrypted_data.clone(),
            secret_key: encode_base64(&[1u8; 32]),
        })
        .unwrap();
    assert!(!wrong.success);
    assert_eq!(wrong.message, "Decryption failed: Key decryption failed: aead::Error");
    assert_eq!(wrong.data, "");

    let right = state
        .handle_decrypt(&DecryptRequest {
            encrypted_data: ok.encrypted_data,
            secret_key: encode_base64(&test_secret()),
        })
        .unwrap();
    assert!(right.success);
    assert_eq!(right.message, "Data decrypted successfully");
    assert_eq!(right.data, "eA==");
}

#[test]
fn service_state_with_key() {
    assert!(matches!(AppState::new(Some(vec![0u8; 5])), Err(CryptoError::InvalidSecretKeyLength)));
    let state = AppState::new(Some(test_secret().to_vec())).unwrap();
    let response = state.public_key_response().unwrap();
    assert_eq!(response.public_key, encode_base64(&test_public()));
    assert_eq!(response.key_id, "108e9f81fa7997a5");
    let copy = state.clone();
    assert_eq!(copy.public_key_response().unwrap().key_id, "108e9f81fa7997a5");
}

#[test]
fn wasm_operations() {
    let wasm = BLSWasm::new();
    let pair = wasm.generate_keypair().unwrap();
    let secret = decode_base64(&pair.secret_key).unwrap();
    let public = decode_base64(&pair.public_key).unwrap();
    assert_eq!(secret.len(), 32);
    assert_eq!(
        KeyManager::from_secret_key(&secret).unwrap().get_public_key_bytes().unwrap(),
        public
    );
    assert_eq!(pair.key_id, KeyManager::generate_key_id(&public));

    let ed = wasm.encrypt(b"wasm data", &pair.public_key).unwrap();
    let record = wasm.encrypted_result(&ed, b"{}");
    assert_eq!(record.encrypted_data, "e30=");
    assert_eq!(record.data_hash, ed.data_hash);

    let result = wasm.decrypt_parsed(&ed, &secret).unwrap();
    assert!(result.success);
    assert_eq!(decode_base64(&result.data.unwrap()).unwrap(), b"wasm data".to_vec());
    assert_eq!(result.hash_matches, Some(true));

    let failed = wasm.decrypt_parsed(&ed, &test_secret()).unwrap();
    assert!(!failed.success);
    assert_eq!(failed.error.unwrap(), "Key decryption failed: aead::Error");
    assert_eq!(failed.hash_matches, Some(false));

    let bad = wasm.encrypt(b"x", "***").unwrap_err();
    assert!(bad.starts_with("Invalid public key: "));
    let short = wasm.encrypt(b"x", &encode_base64(&[0u8; 4])).unwrap_err();
    assert_eq!(short, "Encryption failed: Public key must be 32 bytes");

    assert!(wasm.validate_hash(b"abc", "ba7816bf8f01cfea414140de5dae2223b00361a396177a9cb410ff61f20015ad"));
    assert!(!wasm.validate_hash(b"abd", "ba7816bf8f01cfea414140de5dae2223b00361a396177a9cb410ff61f20015ad"));
    assert_eq!(wasm.compute_hash(b"abc"), BLSEncryption::compute_hash(b"abc"));
}

#[test]
fn key_text_is_trimmed_before_decoding() {
    let key = test_secret();
    let text = format!("  {}\n", encode_base64(&key));
    assert_eq!(decode_key_text(&text).unwrap(), key.to_vec());
    assert!(matches!(decode_key_text("  %%%  "), Err(CryptoError::InvalidBase64(_))));
}

#[test]
fn envelope_for_another_key_does_not_open_with_the_public_key() {
    // The wrapped key is bound to the recipient's secret key: its
    // public key, used as if it were a secret key, does not unwrap it.
    let engine = BLSEncryption::new();
    let ed = engine.encrypt(b"confidential", &test_public()).unwrap();
    assert!(matches!(engine.decrypt(&ed, &test_public()), Err(CryptoError::KeyDecryptionFailed)));
    assert_eq!(engine.decrypt(&ed, &test_secret()).unwrap(), b"confidential".to_vec());
}

#[test]
fn text_form_of_envelope_round_trips() {
    // The text form written by the command line: the envelope as JSON, in Base64.
    let engine = BLSEncryption::new();
    let ed = engine.encrypt_text("This is a secret message!", &test_public()).unwrap();
    let mut object = serde_json::Map::new();
    object.insert("encrypted_aes_key".to_string(), serde_json::Value::from(ed.encrypted_aes_key.clone()));
    object.insert("encrypted_content".to_string(), serde_json::Value::from(ed.encrypted_content.clone()));
    object.insert("nonce".to_string(), serde_json::Value::from(ed.nonce.clone()));
    object.insert("data_hash".to_string(), serde_json::Value::from(ed.data_hash.clone()));
    object.insert("public_key_id".to_string(), serde_json::Value::from(ed.public_key_id.clone()));
    let text = encode_base64(&serde_json::to_vec(&serde_json::Value::Object(object)).unwrap());

    let parsed: serde_json::Value = serde_json::from_slice(&decode_base64(&text).unwrap()).unwrap();
    let bytes = |name: &str| -> Vec<u8> {
        parsed[name].as_array().unwrap().iter().map(|v| v.as_u64().unwrap() as u8).collect()
    };
    let restored = EncryptedData {
        encrypted_aes_key: bytes("encrypted_aes_key"),
        encrypted_content: bytes("encrypted_content"),
        nonce: bytes("nonce"),
        data_hash: parsed["data_hash"].as_str().unwrap().to_string(),
        public_key_id: parsed["public_key_id"].as_str().unwrap().to_string(),
    };
    assert_eq!(engine.decrypt_text(&restored, &test_secret()).unwrap(), "This is a secret message!");
}

#[test]
fn input_format_detection() {
    let chars = |s: &str| s.chars().collect::<Vec<char>>();
    assert_eq!(detect_input_format(&chars("  {\"nonce\":[]}")), InputFormat::Envelope);
    assert_eq!(detect_input_format(&chars("\u{a0}\n{")), InputFormat::Envelope);
    assert_eq!(detect_input_format(&chars("aGVsbG8=\n")), InputFormat::Base64Text);
    assert_eq!(detect_input_format(&chars("\u{2003}ab+/c")), InputFormat::Base64Text);
    assert_eq!(detect_input_format(&chars("")), InputFormat::Base64Text);
    assert_eq!(detect_input_format(&chars("hello!")), InputFormat::Unsupported);
    assert_eq!(detect_input_format(&chars("x{")), InputFormat::Unsupported);
}
