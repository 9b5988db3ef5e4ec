//! Round-trip and format-detection tests for the crypto service, running
//! against the real key-derivation and AEAD implementations.

use ops_console::crypto::{CryptoError, CryptoService};

#[test]
fn test_encrypt_decrypt() {
    let service = CryptoService::new();
    let plaintext = "{\"version\":\"1.0\",\"data\":\"test\"}";
    let password = "test_password_123";

    let encrypted = service.encrypt(plaintext, password).unwrap();
    let decrypted = service.decrypt(&encrypted, password).unwrap();

    assert_eq!(plaintext, decrypted);
}

#[test]
fn test_wrong_password() {
    let service = CryptoService::new();
    let plaintext = "secret data";
    let password = "correct_password";

    let encrypted = service.encrypt(plaintext, password).unwrap();
    let result = service.decrypt(&encrypted, "wrong_password");

    assert!(matches!(result, Err(CryptoError::InvalidPassword)));
}

#[test]
fn test_is_encrypted() {
    let service = CryptoService::new();
    let plaintext = "test";
    let password = "pass";

    let encrypted = service.encrypt(plaintext, password).unwrap();

    assert!(service.is_encrypted(&encrypted));
    assert!(!service.is_encrypted(plaintext));
    assert!(!service.is_encrypted("not base64!!!"));
}

#[test]
fn storage_round_trip() {
    let service = CryptoService::new();
    let plaintext = "device local settings";

    let encrypted = service.encrypt_storage(plaintext).unwrap();
    assert!(service.is_storage_encrypted(&encrypted));
    assert!(!service.is_storage_encrypted(plaintext));
    assert!(!service.is_encrypted(&encrypted));

    let decrypted = service.decrypt_storage(&encrypted).unwrap();
    assert_eq!(plaintext, decrypted);
}

#[test]
fn storage_rejects_config_frame() {
    let service = CryptoService::new();
    let encrypted = service.encrypt("x", "pw").unwrap();
    let result = service.decrypt_storage(&encrypted);
    assert!(matches!(result, Err(CryptoError::InvalidFormat)));
}

#[test]
fn decrypt_rejects_garbage() {
    let service = CryptoService::new();
    assert!(matches!(
        service.decrypt("@@@not base64@@@", "pw"),
        Err(CryptoError::Base64Error(_))
    ));
    // Valid base64, but far too short to be a frame.
    assert!(matches!(service.decrypt("aGVsbG8=", "pw"), Err(CryptoError::InvalidFormat)));
}

#[test]
fn two_encryptions_differ_but_both_decrypt() {
    let service = CryptoService::new();
    let a = service.encrypt("same text", "pw").unwrap();
    let b = service.encrypt("same text", "pw").unwrap();
    // Fresh random salt and nonce make the frames differ.
    assert_ne!(a, b);
    assert_eq!(service.decrypt(&a, "pw").unwrap(), "same text");
    assert_eq!(service.decrypt(&b, "pw").unwrap(), "same text");
}
