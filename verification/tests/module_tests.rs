use bls_encryption_service::codec::{decode_base64, encode_base64};
use bls_encryption_service::encryption::BLSEncryption;
use bls_encryption_service::error::CryptoError;
use bls_encryption_service::keys::KeyManager;
use bls_encryption_service::service::AppState;
use bls_encryption_service::types::{DecryptRequest, EncryptRequest};

#[test]
fn test_encrypt_decrypt_small_data() {
    let keypair = KeyManager::generate_keypair().unwrap();
    let encryption = BLSEncryption::new();

    let data = b"Hello, BLS encryption!";
    let encrypted = encryption.encrypt(data, &keypair.public_key).unwrap();
    let decrypted = encryption.decrypt(&encrypted, &keypair.secret_key).unwrap();

    assert_eq!(data, decrypted.as_slice());
}

#[test]
fn test_encrypt_decrypt_large_data() {
    let keypair = KeyManager::generate_keypair().unwrap();
    let encryption = BLSEncryption::new();

    // Create 1MB of test data
    let data = vec![0x42u8; 1024 * 1024];
    let encrypted = encryption.encrypt(&data, &keypair.public_key).unwrap();
    let decrypted = encryption.decrypt(&encrypted, &keypair.secret_key).unwrap();

    assert_eq!(data, decrypted);
}

#[test]
fn test_encrypt_decrypt_text() {
    let keypair = KeyManager::generate_keypair().unwrap();
    let encryption = BLSEncryption::new();

    let text = "This is a secret message!";
    let encrypted_text = encryption.encrypt_text(text, &keypair.public_key).unwrap();
    let decrypted_text = encryption.decrypt_text(&encrypted_text, &keypair.secret_key).unwrap();

    assert_eq!(text, decrypted_text);
}

#[test]
fn encryption_test_data_integrity() {
    let keypair = KeyManager::generate_keypair().unwrap();
    let encryption = BLSEncryption::new();

    let data = b"Integrity test data";
    let mut encrypted = encryption.encrypt(data, &keypair.public_key).unwrap();

    // Tamper with encrypted content
    encrypted.encrypted_content[0] ^= 1;

    // Decryption should fail due to integrity check
    let result = encryption.decrypt(&encrypted, &keypair.secret_key);
    assert!(result.is_err());
}

#[test]
fn test_wrong_key() {
    let keypair1 = KeyManager::generate_keypair().unwrap();
    let keypair2 = KeyManager::generate_keypair().unwrap();
    let encryption = BLSEncryption::new();

    let data = b"Secret data";
    let encrypted = encryption.encrypt(data, &keypair1.public_key).unwrap();

    // Try to decrypt with wrong key
    let result = encryption.decrypt(&encrypted, &keypair2.secret_key);
    assert!(result.is_err());
}

#[test]
fn test_generate_keypair() {
    let keypair = KeyManager::generate_keypair().unwrap();
    assert_eq!(keypair.secret_key.len(), 32);
    assert_eq!(keypair.public_key.len(), 32);
}

#[test]
fn test_key_manager_from_secret_key() {
    let keypair = KeyManager::generate_keypair().unwrap();
    let key_manager = KeyManager::from_secret_key(&keypair.secret_key).unwrap();

    let public_key_bytes = key_manager.get_public_key_bytes().unwrap();
    assert_eq!(keypair.public_key, public_key_bytes);
}

#[test]
fn test_key_id_generation() {
    let keypair = KeyManager::generate_keypair().unwrap();
    let key_id = KeyManager::generate_key_id(&keypair.public_key);
    assert_eq!(key_id.len(), 16);

    // Same key should generate same ID
    let key_id2 = KeyManager::generate_key_id(&keypair.public_key);
    assert_eq!(key_id, key_id2);
}

#[test]
fn test_shared_secret() {
    let keypair1 = KeyManager::generate_keypair().unwrap();
    let keypair2 = KeyManager::generate_keypair().unwrap();

    let km1 = KeyManager::from_secret_key(&keypair1.secret_key).unwrap();
    let km2 = KeyManager::from_secret_key(&keypair2.secret_key).unwrap();

    let secret1 = km1.derive_shared_secret(&keypair2.public_key).unwrap();
    let secret2 = km2.derive_shared_secret(&keypair1.public_key).unwrap();

    // Note: This simple implementation doesn't guarantee symmetric secrets
    // but it's deterministic for the same inputs
    assert_eq!(secret1.len(), 32);
    assert_eq!(secret2.len(), 32);
}

#[test]
fn test_encrypt_decrypt_flow() {
    // Generate test keypair
    let keypair = KeyManager::generate_keypair().unwrap();

    let state = AppState::new(None).unwrap();

    // Test data
    let test_data = "Hello, BLS service!";
    let encoded_data = encode_base64(test_data.as_bytes());
    let encoded_public_key = encode_base64(&keypair.public_key);
    let encoded_secret_key = encode_base64(&keypair.secret_key);

    // Encrypt request
    let encrypt_request = EncryptRequest { data: encoded_data, public_key: encoded_public_key };
    let encrypt_result = state.handle_encrypt(&encrypt_request);
    assert!(encrypt_result.success);

    // Decrypt request
    let decrypt_request = DecryptRequest {
        encrypted_data: encrypt_result.encrypted_data,
        secret_key: encoded_secret_key,
    };
    let decrypt_result = state.handle_decrypt(&decrypt_request).unwrap();
    assert!(decrypt_result.success);

    // Verify decrypted data
    let decrypted_bytes = decode_base64(&decrypt_result.data).unwrap();
    let decrypted_text = String::from_utf8(decrypted_bytes).unwrap();
    assert_eq!(decrypted_text, test_data);
}

#[test]
fn default_engines_hold_no_keys() {
    let manager = KeyManager::default();
    assert!(matches!(manager.get_public_key_bytes(), Err(CryptoError::NoPublicKey)));
    assert!(matches!(manager.get_secret_key_bytes(), Err(CryptoError::NoSecretKey)));
    assert!(matches!(manager.derive_shared_secret(&[1u8; 32]), Err(CryptoError::NoSecretKey)));
    let _engine = BLSEncryption::default();
    let _with = BLSEncryption::with_key_manager(KeyManager::new());
}
