use proxy_vm_core::auth::{AuthState, EncryptionManager};
use proxy_vm_core::error::Error;

#[test]
fn test_auth_state_create_verify() {
    let password = "test_password_123";
    let auth = AuthState::create(password).unwrap();

    assert!(auth.verify_password(password).unwrap());
    assert!(!auth.verify_password("wrong_password").unwrap());
}

#[test]
fn test_encryption_roundtrip() {
    let password = "test_password_123";
    let auth = AuthState::create(password).unwrap();
    let manager = EncryptionManager::from_password(password, &auth).unwrap();

    let original = b"Hello, World! This is secret data.".to_vec();
    let encrypted = manager.encrypt(&original).unwrap();
    let decrypted = manager.decrypt(&encrypted).unwrap();

    assert_eq!(original, decrypted);
}

#[test]
fn test_encryption_string_roundtrip() {
    let password = "test_password_123";
    let auth = AuthState::create(password).unwrap();
    let manager = EncryptionManager::from_password(password, &auth).unwrap();

    let original = "Secret configuration data with special chars: é€🔐";
    let encrypted = manager.encrypt_string(original).unwrap();
    let decrypted = manager.decrypt_string(&encrypted).unwrap();

    assert_eq!(original, decrypted);
}

#[test]
fn test_is_encrypted_check() {
    let password = "test_password_123";
    let auth = AuthState::create(password).unwrap();
    let manager = EncryptionManager::from_password(password, &auth).unwrap();

    let original = b"test data".to_vec();
    let encrypted = manager.encrypt(&original).unwrap();

    assert!(EncryptionManager::is_encrypted(&encrypted));
    assert!(!EncryptionManager::is_encrypted(&original));
}

#[test]
fn test_wrong_password_fails() {
    let password = "correct_password";
    let wrong_password = "wrong_password";
    let auth = AuthState::create(password).unwrap();

    let manager1 = EncryptionManager::from_password(password, &auth).unwrap();
    let manager2 = EncryptionManager::from_password(wrong_password, &auth).unwrap();

    let encrypted = manager1.encrypt(&b"secret".to_vec()).unwrap();

    // Decryption with wrong key should fail
    assert!(manager2.decrypt(&encrypted).is_err());
}

#[test]
fn decrypt_names_each_framing_failure() {
    let auth = AuthState::create("a_long_password").unwrap();
    let manager = EncryptionManager::from_password("a_long_password", &auth).unwrap();

    match manager.decrypt(&b"short".to_vec()).unwrap_err() {
        Error::Auth(m) => assert_eq!(m, "Invalid encrypted data: too short"),
        other => panic!("unexpected error {:?}", other),
    }
    let bogus = vec![0u8; 64];
    match manager.decrypt(&bogus).unwrap_err() {
        Error::Auth(m) => assert_eq!(m, "Invalid encrypted data: wrong header"),
        other => panic!("unexpected error {:?}", other),
    }
    let mut tampered = manager.encrypt(&b"payload".to_vec()).unwrap();
    let last = tampered.len() - 1;
    tampered[last] ^= 0xff;
    match manager.decrypt(&tampered).unwrap_err() {
        Error::Auth(m) => assert_eq!(m, "Decryption failed: wrong password or corrupted data"),
        other => panic!("unexpected error {:?}", other),
    }
}
