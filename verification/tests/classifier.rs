//! The input classifier: priority order, the base64 heuristic with its
//! exclusive length bounds, and the event mapping.

use qr_encrypt::classify::{classify, is_base64_text, process_qr_data, Route};
use qr_encrypt::crypto::generate_keypair;

fn b64ish(len: usize) -> String {
    "A".repeat(len)
}

#[test]
fn offer_json_is_routed_as_signal() {
    match classify(r#"{"signal_type":"offer","sdp_data":"x"}"#) {
        Route::Signal { .. } => {},
        _ => panic!("offer was not routed as a signal"),
    }
}

#[test]
fn signal_wins_over_the_base64_heuristic() {
    // 38 characters of skeleton plus padding puts this squarely inside the
    // heuristic's length window; it must still be routed as a signal.
    let sdp = "x".repeat(60);
    let wire = format!(r#"{{"signal_type":"offer","sdp_data":"{sdp}"}}"#);
    assert!(50 < wire.len() && wire.len() < 2000);
    match classify(&wire) {
        Route::Signal { .. } => {},
        _ => panic!("signal lost to another route"),
    }
}

#[test]
fn public_key_is_routed_before_base64() {
    let kp = generate_keypair();
    match classify(&kp.public_key) {
        Route::PublicKey { public_key } => assert_eq!(public_key, kp.public_key),
        _ => panic!("public key was not routed to add-contact"),
    }
}

#[test]
fn private_key_gets_its_own_route() {
    let kp = generate_keypair();
    match classify(&kp.private_key) {
        Route::PrivateKey { private_key } => assert_eq!(private_key, kp.private_key),
        _ => panic!("private key was not routed distinctly"),
    }
}

#[test]
fn real_ciphertext_is_routed_to_decrypt() {
    let kp = generate_keypair();
    let ct = qr_encrypt::crypto::encrypt(&kp.public_key, "hello").unwrap();
    assert!(50 < ct.len() && ct.len() < 2000);
    match classify(&ct) {
        Route::Ciphertext { ciphertext } => assert_eq!(ciphertext, ct),
        _ => panic!("ciphertext was not routed to decrypt"),
    }
}

#[test]
fn boundary_lengths_are_exclusive() {
    for (len, expect_decrypt) in [(50, false), (51, true), (1999, true), (2000, false)] {
        let s = b64ish(len);
        assert!(is_base64_text(&s));
        let routed = matches!(classify(&s), Route::Ciphertext { .. });
        assert_eq!(routed, expect_decrypt, "length {len}");
    }
}

#[test]
fn base64_shape_accepts_padding_and_rejects_junk() {
    assert!(is_base64_text("QUJDRA=="));
    assert!(is_base64_text("QUJDQQ="));
    assert!(is_base64_text(""));
    assert!(!is_base64_text("QUJD==="));
    assert!(!is_base64_text("QU=JD"));
    assert!(!is_base64_text("has space"));
    assert!(!is_base64_text("dash-dash"));
}

#[test]
fn other_text_is_routed_to_display() {
    match classify("hello, this is just a note") {
        Route::Text { text } => assert_eq!(text, "hello, this is just a note"),
        _ => panic!("plain text was not routed to display"),
    }
}

#[test]
fn qr_events_follow_the_routes() {
    let kp = generate_keypair();
    let (ev, data) = process_qr_data(r#"{"signal_type":"answer","sdp_data":"x"}"#);
    assert_eq!(ev, "process_rtc_signal");
    assert_eq!(data, r#"{"signal_type":"answer","sdp_data":"x"}"#);

    let (ev, data) = process_qr_data(&kp.public_key);
    assert_eq!((ev.as_str(), data), ("add_contact", kp.public_key.clone()));

    let (ev, _) = process_qr_data(&kp.private_key);
    assert_eq!(ev, "add_contact");

    let (ev, data) = process_qr_data(&b64ish(100));
    assert_eq!((ev.as_str(), data), ("decrypt_message", b64ish(100)));

    let (ev, data) = process_qr_data("shopping list");
    assert_eq!((ev.as_str(), data.as_str()), ("show_dialog", "Read data: shopping list"));
}
