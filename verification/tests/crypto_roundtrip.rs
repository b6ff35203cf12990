//! The crypto provider against the real primitive: round trips, wrong keys,
//! and the error taxonomy.

use qr_encrypt::crypto::{
    decrypt, encrypt, generate_keypair, generate_public_key_from_private, validate_private_key,
    validate_public_key, CryptoError,
};

#[test]
fn generated_keys_validate() {
    let kp = generate_keypair();
    assert!(validate_public_key(&kp.public_key));
    assert!(validate_private_key(&kp.private_key));
    assert!(!validate_public_key(&kp.private_key));
    assert!(!validate_private_key(&kp.public_key));
}

#[test]
fn derived_public_key_matches_generated() {
    let kp = generate_keypair();
    let derived = generate_public_key_from_private(&kp.private_key).unwrap();
    assert_eq!(derived, kp.public_key);
}

#[test]
fn derive_from_garbage_is_invalid_key() {
    let r = generate_public_key_from_private("not-a-key");
    assert_eq!(r, Err(CryptoError::InvalidKey));
}

#[test]
fn encrypt_decrypt_round_trip() {
    let kp = generate_keypair();
    let ct = encrypt(&kp.public_key, "hello").unwrap();
    assert_ne!(ct, "hello");
    let pt = decrypt(&kp.private_key, &ct).unwrap();
    assert_eq!(pt, Some("hello".to_string()));
}

#[test]
fn round_trip_keeps_unicode_plaintext() {
    let kp = generate_keypair();
    let message = "grüße 🔑 改行\nあり";
    let ct = encrypt(&kp.public_key, message).unwrap();
    let pt = decrypt(&kp.private_key, &ct).unwrap();
    assert_eq!(pt, Some(message.to_string()));
}

#[test]
fn wrong_key_decrypts_to_none() {
    let a = generate_keypair();
    let b = generate_keypair();
    assert_ne!(a.public_key, b.public_key);
    let ct = encrypt(&a.public_key, "secret").unwrap();
    let pt = decrypt(&b.private_key, &ct).unwrap();
    assert_eq!(pt, None);
}

#[test]
fn corrupt_ciphertext_decrypts_to_none() {
    let kp = generate_keypair();
    let ct = encrypt(&kp.public_key, "secret").unwrap();
    // Valid base64 of the wrong bytes: well-formed text, unopenable payload.
    let mut bytes = ct.into_bytes();
    let i = bytes.len() / 2;
    bytes[i] = if bytes[i] == b'A' { b'B' } else { b'A' };
    let corrupted = String::from_utf8(bytes).unwrap();
    match decrypt(&kp.private_key, &corrupted) {
        Ok(None) | Err(CryptoError::MalformedCiphertext) => {},
        other => panic!("corrupt ciphertext gave {:?}", other),
    }
}

#[test]
fn encrypt_with_invalid_key_is_invalid_key() {
    let r = encrypt("definitely not a key", "hello");
    assert_eq!(r, Err(CryptoError::InvalidKey));
}

#[test]
fn non_base64_blob_is_a_distinct_error() {
    let kp = generate_keypair();
    let r = decrypt(&kp.private_key, "not-valid-base64-blob");
    // Parse failure is distinguishable from the ambiguous wrong-key `None`.
    assert_eq!(r, Err(CryptoError::MalformedCiphertext));
    assert_ne!(r, Ok(None));
}

#[test]
fn decrypt_with_invalid_private_key_is_invalid_key() {
    let r = decrypt("not-a-key", "AAAA");
    assert_eq!(r, Err(CryptoError::InvalidKey));
}

#[test]
fn export_private_key_round_trips_through_recipient() {
    let owner = generate_keypair();
    let recipient = generate_keypair();
    let exported = encrypt(&recipient.public_key, &owner.private_key).unwrap();
    let recovered = decrypt(&recipient.private_key, &exported).unwrap();
    assert_eq!(recovered, Some(owner.private_key.clone()));
    assert!(validate_private_key(recovered.as_deref().unwrap()));
}
