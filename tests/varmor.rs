use saltybox::error::ErrorKind;
use saltybox::varmor::{unwrap, wrap};

#[test]
fn varmor_test_empty_bytes() {
    let bytes = b"";
    let armored = wrap(bytes);
    let unwrapped = unwrap(&armored).unwrap();
    assert_eq!(bytes, &unwrapped[..]);
}

#[test]
fn varmor_test_simple_string() {
    let bytes = b"test";
    let armored = wrap(bytes);
    let unwrapped = unwrap(&armored).unwrap();
    assert_eq!(bytes, &unwrapped[..]);
}

#[test]
fn varmor_test_large_random_data() {
    let bytes = vec![0x42u8; 100_000];
    let armored = wrap(&bytes);
    let unwrapped = unwrap(&armored).unwrap();
    assert_eq!(bytes, unwrapped);
}

#[test]
fn varmor_test_all_byte_values() {
    let bytes: Vec<u8> = (0..=255).collect();
    let armored = wrap(&bytes);

    assert_eq!(
        armored,
        "saltybox1:AAECAwQFBgcICQoLDA0ODxAREhMUFRYXGBkaGxwdHh8gISIjJCUmJygpKissLS4vMDEyMzQ1Njc4OTo7PD0-P0BBQkNERUZHSElKS0xNTk9QUVJTVFVWV1hZWltcXV5fYGFiY2RlZmdoaWprbG1ub3BxcnN0dXZ3eHl6e3x9fn-AgYKDhIWGh4iJiouMjY6PkJGSk5SVlpeYmZqbnJ2en6ChoqOkpaanqKmqq6ytrq-wsbKztLW2t7i5uru8vb6_wMHCw8TFxsfIycrLzM3Oz9DR0tPU1dbX2Nna29zd3t_g4eLj5OXm5-jp6uvs7e7v8PHy8_T19vf4-fr7_P3-_w"
    );

    let unwrapped = unwrap(&armored).unwrap();
    assert_eq!(bytes, unwrapped);
}

#[test]
fn varmor_test_truncated_input() {
    let result = unwrap("");
    let err = result.expect_err("expected truncated input error");
    assert_eq!(err.kind, Some(ErrorKind::ArmoringInvalid));
    assert!(err
        .message()
        .contains("input size smaller than magic marker; likely truncated"));
}

#[test]
fn varmor_test_wrong_version() {
    let result = unwrap("saltybox999999:...");
    let err = result.expect_err("expected unsupported version error");
    assert_eq!(err.kind, Some(ErrorKind::ArmoringFromFuture));
    assert!(err
        .message()
        .contains("input claims to be saltybox, but not a version we support"));
}

#[test]
fn varmor_test_not_saltybox() {
    let result = unwrap("something not looking like saltybox data");
    let err = result.expect_err("expected non-saltybox error");
    assert_eq!(err.kind, Some(ErrorKind::ArmoringInvalid));
    assert!(err.message().contains("input unrecognized as saltybox data"));
}

#[test]
fn varmor_test_bad_base64() {
    let result = unwrap("saltybox1:bad$$");
    let err = result.expect_err("expected base64 decode error");
    assert_eq!(err.kind, Some(ErrorKind::ArmoringDecode));
    assert!(err.message().contains("base64 decoding failed"));
}

#[test]
fn varmor_test_no_whitespace() {
    let bytes = b"test data with spaces";
    let armored = wrap(bytes);

    assert!(!armored.contains(' '));
    assert!(!armored.contains('\n'));
    assert!(!armored.contains('\t'));
}

#[test]
fn varmor_test_url_safe() {
    let bytes = vec![0xFFu8; 100];
    let armored = wrap(&bytes);

    assert!(!armored.contains('+'));
    assert!(!armored.contains('/'));
    assert!(!armored.contains('='));
}

#[test]
fn wrap_encodes_known_text() {
    assert_eq!(wrap(b"test"), "saltybox1:dGVzdA");
    assert_eq!(wrap(b""), "saltybox1:");
    assert_eq!(wrap(&[0xfb, 0xff]), "saltybox1:-_8");
}

#[test]
fn unwrap_decodes_known_text() {
    assert_eq!(unwrap("saltybox1:dGVzdA").unwrap(), b"test".to_vec());
    assert_eq!(unwrap("saltybox1:").unwrap(), Vec::<u8>::new());
}

#[test]
fn unwrap_rejects_padding_and_standard_alphabet() {
    let err = unwrap("saltybox1:dGVzdA==").unwrap_err();
    assert_eq!(err.kind, Some(ErrorKind::ArmoringDecode));
    let err = unwrap("saltybox1:+/8").unwrap_err();
    assert_eq!(err.kind, Some(ErrorKind::ArmoringDecode));
}

#[test]
fn unwrap_short_future_looking_input_is_invalid() {
    // Nine bytes: the magic prefix and a version digit, but shorter than the marker.
    let err = unwrap("saltybox2").unwrap_err();
    assert_eq!(err.kind, Some(ErrorKind::ArmoringInvalid));
    let err = unwrap("saltybox2:AAAA").unwrap_err();
    assert_eq!(err.kind, Some(ErrorKind::ArmoringFromFuture));
}

#[test]
fn unwrap_decode_error_keeps_cause() {
    let err = unwrap("saltybox1:bad$$").unwrap_err();
    assert!(err.source_error().is_some());
}

#[test]
fn armor_round_trip_various_lengths() {
    for n in 0..40usize {
        let bytes: Vec<u8> = (0..n).map(|i| (i * 37 + 11) as u8).collect();
        let armored = wrap(&bytes);
        assert!(armored.starts_with("saltybox1:"));
        assert!(armored
            .chars()
            .all(|c| c.is_ascii_alphanumeric() || c == '-' || c == '_' || c == ':'));
        assert_eq!(unwrap(&armored).unwrap(), bytes);
    }
}

#[test]
fn wrap_length_is_marker_plus_unpadded_base64() {
    for n in 0..10usize {
        let armored = wrap(&vec![0xa5u8; n]);
        assert_eq!(armored.len(), 10 + (4 * n + 2) / 3);
    }
}

#[test]
fn unwrap_decode_error_message_carries_cause() {
    let err = unwrap("saltybox1:bad$$").unwrap_err();
    let cause = err.source_error().unwrap().message().to_string();
    assert_eq!(err.message(), format!("base64 decoding failed: {}", cause));
    assert!(err.source_error().unwrap().kind.is_none());
}
