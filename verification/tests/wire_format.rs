//! The wire codec: exact serialized forms, tolerance on the parsing side,
//! rejection of malformed texts, and agreement with a general JSON reader.

use qr_encrypt::codec::{RtcMessage, RtcSignalData};

fn offer(sdp: &str) -> RtcSignalData {
    RtcSignalData::Offer { sdp_data: sdp.to_string() }
}

fn answer(sdp: &str) -> RtcSignalData {
    RtcSignalData::Answer { sdp_data: sdp.to_string() }
}

#[test]
fn offer_serializes_exactly() {
    assert_eq!(offer("x").to_wire(), r#"{"signal_type":"offer","sdp_data":"x"}"#);
}

#[test]
fn answer_serializes_exactly() {
    assert_eq!(answer("v=0").to_wire(), r#"{"signal_type":"answer","sdp_data":"v=0"}"#);
}

#[test]
fn serializer_escapes_like_json() {
    let wire = offer("a\r\nb\"c\\d\te").to_wire();
    assert_eq!(wire, "{\"signal_type\":\"offer\",\"sdp_data\":\"a\\r\\nb\\\"c\\\\d\\te\"}");
}

#[test]
fn serializer_escapes_control_characters() {
    let wire = offer("\u{1}\u{1f}").to_wire();
    assert_eq!(wire, r#"{"signal_type":"offer","sdp_data":"\u0001\u001f"}"#);
}

#[test]
fn signal_round_trips_through_wire() {
    let sdp = "v=0\r\no=- 4611731400430051336 2 IN IP4 127.0.0.1\r\ns=-\r\nt=0 0\r\n";
    let wire = offer(sdp).to_wire();
    match RtcSignalData::from_wire(&wire) {
        Some(RtcSignalData::Offer { sdp_data }) => assert_eq!(sdp_data, sdp),
        other => panic!("round trip lost the offer: {:?}", other.is_some()),
    }
}

#[test]
fn parser_accepts_whitespace_and_any_member_order() {
    let wire = " { \"sdp_data\" : \"x\" ,\n\t\"signal_type\": \"answer\" } ";
    match RtcSignalData::from_wire(wire) {
        Some(RtcSignalData::Answer { sdp_data }) => assert_eq!(sdp_data, "x"),
        _ => panic!("reordered members were not accepted"),
    }
}

#[test]
fn parser_decodes_ascii_unicode_escapes() {
    let wire = r#"{"signal_type":"offer","sdp_data":"A/\/"}"#;
    match RtcSignalData::from_wire(wire) {
        Some(RtcSignalData::Offer { sdp_data }) => assert_eq!(sdp_data, "A//"),
        _ => panic!("unicode escapes were not accepted"),
    }
}

#[test]
fn parser_rejects_malformed_texts() {
    for bad in [
        "",
        "not json",
        r#"{"signal_type":"offer"}"#,
        r#"{"signal_type":"offer","sdp_data":"x""#,
        r#"{"signal_type":"teapot","sdp_data":"x"}"#,
        r#"{"signal_type":"offer","sdp_data":3}"#,
        r#"{"signal_type":"offer","sdp_data":"x","extra":"y"}"#,
        r#"{"signal_type":"offer","sdp_data":"x"} trailing"#,
        "{\"signal_type\":\"offer\",\"sdp_data\":\"raw\ncontrol\"}",
    ] {
        assert!(RtcSignalData::from_wire(bad).is_none(), "accepted: {bad}");
    }
}

#[test]
fn envelope_serializes_exactly() {
    let pk = RtcMessage::PublicKey { public_key: "age1abc".to_string() };
    assert_eq!(pk.to_wire(), r#"{"type":"publicKey","publicKey":"age1abc"}"#);
    let data = RtcMessage::EncryptedData { encrypted_data: "QUJD".to_string() };
    assert_eq!(data.to_wire(), r#"{"type":"encryptedData","encryptedData":"QUJD"}"#);
}

#[test]
fn envelope_round_trips_through_wire() {
    let wire = RtcMessage::PublicKey { public_key: "age1xyz".to_string() }.to_wire();
    match RtcMessage::from_wire(&wire) {
        Some(RtcMessage::PublicKey { public_key }) => assert_eq!(public_key, "age1xyz"),
        _ => panic!("public key envelope lost"),
    }
    let wire = RtcMessage::EncryptedData { encrypted_data: "Zm9v".to_string() }.to_wire();
    match RtcMessage::from_wire(&wire) {
        Some(RtcMessage::EncryptedData { encrypted_data }) => assert_eq!(encrypted_data, "Zm9v"),
        _ => panic!("encrypted data envelope lost"),
    }
}

#[test]
fn envelope_rejects_mismatched_tag_and_payload_key() {
    assert!(RtcMessage::from_wire(r#"{"type":"publicKey","encryptedData":"x"}"#).is_none());
    assert!(RtcMessage::from_wire(r#"{"type":"encryptedData","publicKey":"x"}"#).is_none());
}

#[test]
fn serialized_signal_agrees_with_a_general_json_reader() {
    let sdp = "line1\r\nline2 \"quoted\" back\\slash \u{3}";
    let wire = offer(sdp).to_wire();
    let value: serde_json::Value = serde_json::from_str(&wire).unwrap();
    assert_eq!(value.get("signal_type").and_then(|v| v.as_str()), Some("offer"));
    assert_eq!(value.get("sdp_data").and_then(|v| v.as_str()), Some(sdp));
}

#[test]
fn parser_agrees_with_a_general_json_writer() {
    let mut map = serde_json::Map::new();
    map.insert(
        "signal_type".to_string(),
        serde_json::Value::String("answer".to_string()),
    );
    map.insert(
        "sdp_data".to_string(),
        serde_json::Value::String("a=candidate \"x\"\r\n".to_string()),
    );
    let text = serde_json::to_string(&serde_json::Value::Object(map)).unwrap();
    match RtcSignalData::from_wire(&text) {
        Some(RtcSignalData::Answer { sdp_data }) => {
            assert_eq!(sdp_data, "a=candidate \"x\"\r\n");
        },
        _ => panic!("general JSON writer output was not accepted"),
    }
}

#[test]
fn parser_refuses_non_ascii_unicode_escapes() {
    // The grammar carries non-ASCII characters raw; escapes above ASCII are
    // outside it.
    assert!(RtcSignalData::from_wire(r#"{"signal_type":"offer","sdp_data":"\u0100"}"#).is_none());
    let raw = "{\"signal_type\":\"offer\",\"sdp_data\":\"\u{0100}\"}";
    assert!(matches!(
        RtcSignalData::from_wire(raw),
        Some(RtcSignalData::Offer { .. })
    ));
}
