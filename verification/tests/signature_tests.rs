use autodeploy::hexcode::hex_decode;
use autodeploy::signature::verify_signature;

fn signature_header(secret: &[u8], body: &[u8]) -> String {
    let key = ring::hmac::Key::new(ring::hmac::HMAC_SHA256, secret);
    let tag = ring::hmac::sign(&key, body);
    format!("sha256={}", hex::encode(tag.as_ref()))
}

#[test]
fn correct_signature_is_accepted() {
    let secret = b"it's a secret to everybody";
    let body = br#"{"zen":"Design for failure.","hook_id":42}"#;
    let header = signature_header(secret, body);
    assert!(verify_signature(body, &header, secret).is_ok());
}

#[test]
fn one_changed_body_byte_is_refused() {
    let secret = b"it's a secret to everybody";
    let body = b"payload-bytes";
    let header = signature_header(secret, body);
    let mut altered = body.to_vec();
    altered[0] ^= 1;
    assert!(verify_signature(&altered, &header, secret).is_err());
}

#[test]
fn one_changed_secret_byte_is_refused() {
    let secret = b"it's a secret to everybody";
    let body = b"payload-bytes";
    let header = signature_header(secret, body);
    let mut wrong = secret.to_vec();
    wrong[3] ^= 1;
    assert!(verify_signature(body, &header, &wrong).is_err());
}

#[test]
fn missing_prefix_is_refused() {
    let secret = b"k";
    let body = b"b";
    let header = signature_header(secret, body);
    let bare = header.strip_prefix("sha256=").unwrap().to_string();
    assert!(verify_signature(body, &bare, secret).is_err());
}

#[test]
fn undecodable_digest_is_refused() {
    let secret = b"k";
    let body = b"b";
    assert!(verify_signature(body, "sha256=zz", secret).is_err());
    assert!(verify_signature(body, "sha256=abc", secret).is_err());
    assert!(verify_signature(body, "sha256=", secret).is_err());
}

#[test]
fn truncated_digest_is_refused() {
    let secret = b"k";
    let body = b"b";
    let header = signature_header(secret, body);
    let shorter = header[..header.len() - 2].to_string();
    assert!(verify_signature(body, &shorter, secret).is_err());
}

#[test]
fn upper_case_digest_is_accepted() {
    let secret = b"k";
    let body = b"b";
    let header = signature_header(secret, body);
    let upper = format!("sha256={}", header.strip_prefix("sha256=").unwrap().to_uppercase());
    assert!(verify_signature(body, &upper, secret).is_ok());
}

#[test]
fn hex_decode_exact_values() {
    assert_eq!(hex_decode("00ff10"), Some(vec![0x00, 0xff, 0x10]));
    assert_eq!(hex_decode("DEADbeef"), Some(vec![0xde, 0xad, 0xbe, 0xef]));
    assert_eq!(hex_decode(""), Some(Vec::new()));
    assert_eq!(hex_decode("abc"), None);
    assert_eq!(hex_decode("0g"), None);
}

#[test]
fn hex_round_trip_through_the_crate() {
    let bytes: Vec<u8> = (0u16..=255).map(|b| b as u8).collect();
    let text = hex::encode(&bytes);
    assert_eq!(hex_decode(&text), Some(bytes));
}
