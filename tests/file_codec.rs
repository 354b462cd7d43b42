use saltybox::error::ErrorKind;
use saltybox::file_codec::{decrypt_string, encrypt_bytes, update};
use saltybox::varmor::{unwrap, wrap};

// Each test derives at most two keys: a derivation takes seconds unoptimised.

/// The armor of the reference envelope: "test payload" under passphrase "test".
fn reference_text() -> String {
    let mut v = vec![0x42u8; 8];
    v.extend_from_slice(&[0x24u8; 24]);
    v.extend_from_slice(&[0, 0, 0, 0, 0, 0, 0, 0x1c]);
    v.extend_from_slice(&[
        0x44, 0x87, 0xfe, 0xcd, 0x6f, 0xcf, 0x10, 0x75, 0x7b, 0x4c, 0xb9, 0xc6, 0x59, 0xda, 0x83,
        0x61, 0x28, 0xfc, 0xf4, 0x30, 0x39, 0x85, 0x4a, 0x66, 0xcf, 0xb5, 0xcf, 0xd4,
    ]);
    wrap(&v)
}

#[test]
fn encrypt_bytes_then_decrypt_string_round_trips() {
    let armored = encrypt_bytes(b"test password", b"Hello, saltybox!").unwrap();
    assert!(armored.starts_with("saltybox1:"));
    let plaintext = decrypt_string(b"test password", &armored).unwrap();
    assert_eq!(plaintext, b"Hello, saltybox!");
}

#[test]
fn empty_plaintext_round_trips() {
    let armored = encrypt_bytes(b"test", b"").unwrap();
    assert_eq!(decrypt_string(b"test", &armored).unwrap(), b"");
}

#[test]
fn decrypt_string_wrong_passphrase_is_authentication_failure() {
    let armored = encrypt_bytes(b"correct", b"secret").unwrap();
    let err = decrypt_string(b"wrong", &armored).unwrap_err();
    assert_eq!(err.kind, Some(ErrorKind::AuthenticationFailed));
    assert_eq!(err.message(), "failed to decrypt");
}

#[test]
fn decrypt_string_names_unarmor_stage() {
    let err = decrypt_string(b"test", "not armored at all").unwrap_err();
    assert_eq!(err.kind, Some(ErrorKind::ArmoringInvalid));
    assert_eq!(err.message(), "failed to unarmor");
    assert_eq!(
        err.source_error().unwrap().message(),
        "input unrecognized as saltybox data"
    );
}

#[test]
fn decrypt_string_reports_envelope_faults() {
    let err = decrypt_string(b"test", "saltybox1:AAAA").unwrap_err();
    assert_eq!(err.kind, Some(ErrorKind::TruncatedInput));
    assert_eq!(err.message(), "failed to decrypt");
}

#[test]
fn decrypt_string_opens_reference_text() {
    assert_eq!(decrypt_string(b"test", &reference_text()).unwrap(), b"test payload");
}

#[test]
fn update_replaces_content_under_same_passphrase() {
    let original = reference_text();
    let updated = update(b"test", &original, b"Updated content").unwrap();
    assert_ne!(updated, original);
    let envelope = unwrap(&updated).unwrap();
    assert_eq!(envelope.len(), 40 + b"Updated content".len() + 16);
}

#[test]
fn update_with_wrong_passphrase_fails_and_produces_nothing() {
    let original = reference_text();
    let err = update(b"wrong password", &original, b"Updated").unwrap_err();
    assert_eq!(err.kind, Some(ErrorKind::AuthenticationFailed));
    assert_eq!(err.message(), "failed to decrypt");
}

#[test]
fn update_of_invalid_existing_text_fails_with_its_kind() {
    let err = update(b"pw", "saltybox7:whatever", b"new").unwrap_err();
    assert_eq!(err.kind, Some(ErrorKind::ArmoringFromFuture));
}

#[test]
fn encrypt_bytes_envelope_has_plaintext_size_plus_56() {
    let plaintext = b"sized plaintext";
    let armored = encrypt_bytes(b"pw", plaintext).unwrap();
    let envelope = unwrap(&armored).unwrap();
    assert_eq!(envelope.len(), plaintext.len() + 56);
    assert_eq!(&envelope[32..40], &((plaintext.len() + 16) as i64).to_be_bytes());
}

#[test]
fn encrypt_bytes_text_of_empty_plaintext_has_armor_length() {
    let armored = encrypt_bytes(b"pw", b"").unwrap();
    assert!(armored.starts_with("saltybox1:"));
    assert_eq!(armored.len(), 10 + (4 * 56 + 2) / 3);
}
