//! The worker boundary: one response shape per request, every failure a
//! value.

use qr_encrypt::crypto::{decrypt, validate_private_key, validate_public_key};
use qr_encrypt::worker_api::{handle_request, MainMessage, WorkerMessage};

fn generated() -> (String, String) {
    match handle_request(&MainMessage::GenerateKeyPair) {
        WorkerMessage::Generated { public_key, private_key } => (public_key, private_key),
        _ => panic!("key generation did not answer Generated"),
    }
}

#[test]
fn generate_answers_a_valid_pair() {
    let (public_key, private_key) = generated();
    assert!(validate_public_key(&public_key));
    assert!(validate_private_key(&private_key));
}

#[test]
fn encrypt_and_decrypt_through_the_worker() {
    let (public_key, private_key) = generated();
    let encrypted = match handle_request(&MainMessage::Encrypt {
        public_key,
        data: "hello".to_string(),
    }) {
        WorkerMessage::Encrypted { encrypted_data } => encrypted_data,
        _ => panic!("encrypt did not answer Encrypted"),
    };
    match handle_request(&MainMessage::Decrypt { private_key, data: encrypted }) {
        WorkerMessage::Decrypted { decrypted_data } => assert_eq!(decrypted_data, "hello"),
        _ => panic!("decrypt did not answer Decrypted"),
    }
}

#[test]
fn encrypt_with_bad_key_answers_an_error() {
    match handle_request(&MainMessage::Encrypt {
        public_key: "nope".to_string(),
        data: "hello".to_string(),
    }) {
        WorkerMessage::Error { message } => assert_eq!(message, "invalid recipient public key"),
        _ => panic!("bad recipient did not answer Error"),
    }
}

#[test]
fn decrypt_failures_name_their_cause() {
    let (_, private_key) = generated();
    let (other_public, _) = generated();
    match handle_request(&MainMessage::Decrypt {
        private_key: "nope".to_string(),
        data: "AAAA".to_string(),
    }) {
        WorkerMessage::Error { message } => assert_eq!(message, "invalid private key"),
        _ => panic!("bad key did not answer Error"),
    }
    match handle_request(&MainMessage::Decrypt {
        private_key: private_key.clone(),
        data: "not-valid-base64-blob".to_string(),
    }) {
        WorkerMessage::Error { message } => assert_eq!(message, "ciphertext is not valid base64"),
        _ => panic!("malformed ciphertext did not answer Error"),
    }
    let for_someone_else = match handle_request(&MainMessage::Encrypt {
        public_key: other_public,
        data: "hello".to_string(),
    }) {
        WorkerMessage::Encrypted { encrypted_data } => encrypted_data,
        _ => panic!("encrypt did not answer Encrypted"),
    };
    match handle_request(&MainMessage::Decrypt { private_key, data: for_someone_else }) {
        WorkerMessage::Error { message } => assert_eq!(message, "could not decrypt message"),
        _ => panic!("wrong-key decrypt did not answer Error"),
    }
}

#[test]
fn export_private_key_seals_it_for_the_recipient() {
    let owner = generated();
    let recipient = generated();
    let sealed = match handle_request(&MainMessage::ExportPrivateKey {
        recipient_public_key: recipient.0.clone(),
        private_key: owner.1.clone(),
    }) {
        WorkerMessage::PrivateKeyExported { encrypted_private_key } => encrypted_private_key,
        _ => panic!("export did not answer PrivateKeyExported"),
    };
    assert_eq!(decrypt(&recipient.1, &sealed).unwrap(), Some(owner.1));
}

#[test]
fn public_key_regeneration_matches() {
    let (public_key, private_key) = generated();
    match handle_request(&MainMessage::GeneratePublicKeyFromPrivate { private_key }) {
        WorkerMessage::PublicKeyGenerated { public_key: derived } => {
            assert_eq!(derived, public_key)
        },
        _ => panic!("regeneration did not answer PublicKeyGenerated"),
    }
}

#[test]
fn qr_processing_answers_the_event() {
    match handle_request(&MainMessage::ProcessQrData { data: "just text".to_string() }) {
        WorkerMessage::QrDataProcessed { event_type, event_data } => {
            assert_eq!(event_type, "show_dialog");
            assert_eq!(event_data, "Read data: just text");
        },
        _ => panic!("qr data did not answer QrDataProcessed"),
    }
}
