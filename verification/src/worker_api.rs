//! The worker boundary: the request/response protocol of the isolated
//! context that performs all cryptographic work off the interactive thread.
//!
//! One request shape and one response shape per operation.  A request carries
//! no correlation identifier, so the runtime must keep at most one request of
//! each kind outstanding; the handler itself is a pure function from request
//! to response.

use vstd::prelude::*;

verus! {

use crate::classify::qr_event_of;
use crate::crypto::CryptoError;
use crate::crypto::canonical_recipient;
use crate::crypto::ciphertext_for;
use crate::crypto::decryption_of;
use crate::crypto::public_of;
use crate::crypto::valid_private_key;
use crate::crypto::valid_public_key;

/// A request from the interactive thread to the worker.
pub enum MainMessage {
    GenerateKeyPair,
    Encrypt { public_key: String, data: String },
    Decrypt { private_key: String, data: String },
    ExportPrivateKey { recipient_public_key: String, private_key: String },
    GeneratePublicKeyFromPrivate { private_key: String },
    ProcessQrData { data: String },
}

/// The mathematical value of a request.
pub enum MainMessageView {
    GenerateKeyPair,
    Encrypt { public_key: Seq<char>, data: Seq<char> },
    Decrypt { private_key: Seq<char>, data: Seq<char> },
    ExportPrivateKey { recipient_public_key: Seq<char>, private_key: Seq<char> },
    GeneratePublicKeyFromPrivate { private_key: Seq<char> },
    ProcessQrData { data: Seq<char> },
}

impl View for MainMessage {
    type V = MainMessageView;

    open spec fn view(&self) -> MainMessageView {
        match self {
            MainMessage::GenerateKeyPair => MainMessageView::GenerateKeyPair,
            MainMessage::Encrypt { public_key, data } => MainMessageView::Encrypt {
                public_key: public_key@,
                data: data@,
            },
            MainMessage::Decrypt { private_key, data } => MainMessageView::Decrypt {
                private_key: private_key@,
                data: data@,
            },
            MainMessage::ExportPrivateKey { recipient_public_key, private_key } => {
                MainMessageView::ExportPrivateKey {
                    recipient_public_key: recipient_public_key@,
                    private_key: private_key@,
                }
            },
            MainMessage::GeneratePublicKeyFromPrivate { private_key } => {
                MainMessageView::GeneratePublicKeyFromPrivate { private_key: private_key@ }
            },
            MainMessage::ProcessQrData { data } => MainMessageView::ProcessQrData { data: data@ },
        }
    }
}

/// A response from the worker to the interactive thread.
pub enum WorkerMessage {
    Ready,
    Generated { public_key: String, private_key: String },
    Encrypted { encrypted_data: String },
    Decrypted { decrypted_data: String },
    PrivateKeyExported { encrypted_private_key: String },
    PublicKeyGenerated { public_key: String },
    QrDataProcessed { event_type: String, event_data: String },
    Error { message: String },
}

/// The mathematical value of a response.
pub enum WorkerMessageView {
    Ready,
    Generated { public_key: Seq<char>, private_key: Seq<char> },
    Encrypted { encrypted_data: Seq<char> },
    Decrypted { decrypted_data: Seq<char> },
    PrivateKeyExported { encrypted_private_key: Seq<char> },
    PublicKeyGenerated { public_key: Seq<char> },
    QrDataProcessed { event_type: Seq<char>, event_data: Seq<char> },
    Error { message: Seq<char> },
}

impl View for WorkerMessage {
    type V = WorkerMessageView;

    open spec fn view(&self) -> WorkerMessageView {
        match self {
            WorkerMessage::Ready => WorkerMessageView::Ready,
            WorkerMessage::Generated { public_key, private_key } => WorkerMessageView::Generated {
                public_key: public_key@,
                private_key: private_key@,
            },
            WorkerMessage::Encrypted { encrypted_data } => WorkerMessageView::Encrypted {
                encrypted_data: encrypted_data@,
            },
            WorkerMessage::Decrypted { decrypted_data } => WorkerMessageView::Decrypted {
                decrypted_data: decrypted_data@,
            },
            WorkerMessage::PrivateKeyExported { encrypted_private_key } => {
                WorkerMessageView::PrivateKeyExported {
                    encrypted_private_key: encrypted_private_key@,
                }
            },
            WorkerMessage::PublicKeyGenerated { public_key } => {
                WorkerMessageView::PublicKeyGenerated { public_key: public_key@ }
            },
            WorkerMessage::QrDataProcessed { event_type, event_data } => {
                WorkerMessageView::QrDataProcessed {
                    event_type: event_type@,
                    event_data: event_data@,
                }
            },
            WorkerMessage::Error { message } => WorkerMessageView::Error { message: message@ },
        }
    }
}

/// Handles one worker request.  Every failure is a value — an `Error`
/// response naming the cause — never a crash; a failure is fatal to that one
/// request only.
pub fn handle_request(req: &MainMessage) -> (r: WorkerMessage)
    ensures
        match req@ {
            MainMessageView::GenerateKeyPair => r@ matches WorkerMessageView::Generated {
                public_key,
                private_key,
            } && valid_private_key(private_key) && valid_public_key(public_key) && public_key
                == public_of(private_key) && canonical_recipient(public_key) == public_key,
            MainMessageView::Encrypt { public_key, data } => {
                if valid_public_key(public_key) {
                    r@ matches WorkerMessageView::Encrypted { encrypted_data } && ciphertext_for(
                        encrypted_data,
                        canonical_recipient(public_key),
                        data,
                    )
                } else {
                    r@ == (WorkerMessageView::Error {
                        message: "invalid recipient public key"@,
                    })
                }
            },
            MainMessageView::Decrypt { private_key, data } => {
                match decryption_of(private_key, data) {
                    Ok(p) => {
                        match p {
                            Option::Some(m) => r@ == (WorkerMessageView::Decrypted {
                                decrypted_data: m,
                            }),
                            Option::None => r@ == (WorkerMessageView::Error {
                                message: "could not decrypt message"@,
                            }),
                        }
                    },
                    Err(e) => {
                        match e {
                            CryptoError::InvalidKey => r@ == (WorkerMessageView::Error {
                                message: "invalid private key"@,
                            }),
                            CryptoError::MalformedCiphertext => r@ == (WorkerMessageView::Error {
                                message: "ciphertext is not valid base64"@,
                            }),
                        }
                    },
                }
            },
            MainMessageView::ExportPrivateKey { recipient_public_key, private_key } => {
                if valid_public_key(recipient_public_key) {
                    r@ matches WorkerMessageView::PrivateKeyExported { encrypted_private_key }
                        && ciphertext_for(
                        encrypted_private_key,
                        canonical_recipient(recipient_public_key),
                        private_key,
                    )
                } else {
                    r@ == (WorkerMessageView::Error {
                        message: "invalid recipient public key"@,
                    })
                }
            },
            MainMessageView::GeneratePublicKeyFromPrivate { private_key } => {
                if valid_private_key(private_key) {
                    r@ == (WorkerMessageView::PublicKeyGenerated {
                        public_key: public_of(private_key),
                    })
                } else {
                    r@ == (WorkerMessageView::Error { message: "invalid private key"@ })
                }
            },
            MainMessageView::ProcessQrData { data } => {
                r@ matches WorkerMessageView::QrDataProcessed { event_type, event_data } && (
                event_type,
                event_data,
                ) == qr_event_of(data)
            },
        },
{
    match req {
        MainMessage::GenerateKeyPair => {
            let kp = crate::crypto::generate_keypair();
            WorkerMessage::Generated { public_key: kp.public_key, private_key: kp.private_key }
        },
        MainMessage::Encrypt { public_key, data } => {
            match crate::crypto::encrypt(public_key.as_str(), data.as_str()) {
                Ok(encrypted_data) => WorkerMessage::Encrypted { encrypted_data },
                Err(_) => WorkerMessage::Error {
                    message: String::from_str("invalid recipient public key"),
                },
            }
        },
        MainMessage::Decrypt { private_key, data } => {
            match crate::crypto::decrypt(private_key.as_str(), data.as_str()) {
                Ok(Some(decrypted_data)) => WorkerMessage::Decrypted { decrypted_data },
                Ok(None) => WorkerMessage::Error {
                    message: String::from_str("could not decrypt message"),
                },
                Err(CryptoError::InvalidKey) => WorkerMessage::Error {
                    message: String::from_str("invalid private key"),
                },
                Err(CryptoError::MalformedCiphertext) => WorkerMessage::Error {
                    message: String::from_str("ciphertext is not valid base64"),
                },
            }
        },
        MainMessage::ExportPrivateKey { recipient_public_key, private_key } => {
            match crate::crypto::encrypt(recipient_public_key.as_str(), private_key.as_str()) {
                Ok(encrypted_private_key) => WorkerMessage::PrivateKeyExported {
                    encrypted_private_key,
                },
                Err(_) => WorkerMessage::Error {
                    message: String::from_str("invalid recipient public key"),
                },
            }
        },
        MainMessage::GeneratePublicKeyFromPrivate { private_key } => {
            match crate::crypto::generate_public_key_from_private(private_key.as_str()) {
                Ok(public_key) => WorkerMessage::PublicKeyGenerated { public_key },
                Err(_) => WorkerMessage::Error {
                    message: String::from_str("invalid private key"),
                },
            }
        },
        MainMessage::ProcessQrData { data } => {
            let (event_type, event_data) = crate::classify::process_qr_data(data.as_str());
            WorkerMessage::QrDataProcessed { event_type, event_data }
        },
    }
}

} // verus!
