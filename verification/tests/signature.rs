use hmac::Mac;
use slack_rs::signature::{
    compute_signature, is_fresh, parse_timestamp, verify, AuthError, REPLAY_WINDOW_SECONDS,
};
use slack_rs::text::{bytes_equal, str_equal};
use slack_rs::SigningSecret;

/// The signature header of a request, computed directly with the HMAC crates.
fn reference_signature(secret: &str, timestamp: &str, body: &[u8]) -> String {
    let mut mac = hmac::Hmac::<sha2::Sha256>::new_from_slice(secret.as_bytes())
        .expect("HMAC can take key of any size");
    mac.update(b"v0:");
    mac.update(timestamp.as_bytes());
    mac.update(b":");
    mac.update(body);
    format!("v0={}", hex::encode(mac.finalize().into_bytes()))
}

const SECRET: &str = "8f742231b10e8888abcd99yyyzzz85a5";
const BODY: &[u8] = b"{\"type\":\"url_verification\",\"challenge\":\"abc123\"}";

#[test]
fn compute_signature_matches_known_value() {
    let secret = SigningSecret::new("fa2c05deeef5a4077494e89f54394de0");
    let signature = compute_signature(&secret, b"1531420618", b"test-body");
    assert_eq!(
        String::from_utf8(signature).unwrap(),
        "v0=baa91ef62d346e56607bbdd278a8acd570b91226854f15a382f43d33be42f666"
    );
}

#[test]
fn compute_signature_with_empty_secret_and_body() {
    let secret = SigningSecret::new("");
    let signature = compute_signature(&secret, b"1", b"");
    assert_eq!(
        String::from_utf8(signature).unwrap(),
        "v0=b7920c764ff683fc9b6a237b193b04990d447a505490bc258949e1ee16128be3"
    );
}

#[test]
fn compute_signature_agrees_with_the_hmac_crates() {
    let secret = SigningSecret::new(SECRET);
    let body: Vec<u8> = (0u8..=255).collect();
    let signature = compute_signature(&secret, b"1700000000", &body);
    assert_eq!(
        String::from_utf8(signature).unwrap(),
        reference_signature(SECRET, "1700000000", &body)
    );
}

#[test]
fn signature_is_lower_case_hex_of_fixed_length() {
    let secret = SigningSecret::new(SECRET);
    let signature = compute_signature(&secret, b"1700000000", BODY);
    assert_eq!(signature.len(), 3 + 64);
    assert_eq!(&signature[..3], b"v0=");
    assert!(signature[3..]
        .iter()
        .all(|b| b.is_ascii_digit() || (b'a'..=b'f').contains(b)));
}

#[test]
fn verify_accepts_the_known_request() {
    let secret = SigningSecret::new("fa2c05deeef5a4077494e89f54394de0");
    let outcome = verify(
        &secret,
        Some("v0=baa91ef62d346e56607bbdd278a8acd570b91226854f15a382f43d33be42f666"),
        Some("1531420618"),
        b"test-body",
        1531420620,
    );
    assert_eq!(outcome, Ok(()));
}

#[test]
fn verify_accepts_its_own_signature() {
    let secret = SigningSecret::new(SECRET);
    let signature = reference_signature(SECRET, "1700000000", BODY);
    for now in [1700000000u64, 1699999700, 1700000300] {
        assert_eq!(
            verify(&secret, Some(&signature), Some("1700000000"), BODY, now),
            Ok(())
        );
    }
}

#[test]
fn verify_rejects_any_flipped_byte_of_the_signature() {
    let secret = SigningSecret::new(SECRET);
    let signature = reference_signature(SECRET, "1700000000", BODY);
    for i in 0..signature.len() {
        let mut altered = signature.clone().into_bytes();
        altered[i] ^= 0x01;
        let altered = String::from_utf8(altered).unwrap();
        assert_eq!(
            verify(&secret, Some(&altered), Some("1700000000"), BODY, 1700000000),
            Err(AuthError::BadSignature)
        );
    }
}

#[test]
fn verify_rejects_any_flipped_byte_of_the_body() {
    let secret = SigningSecret::new(SECRET);
    let signature = reference_signature(SECRET, "1700000000", BODY);
    for i in 0..BODY.len() {
        let mut altered = BODY.to_vec();
        altered[i] ^= 0x01;
        assert_eq!(
            verify(&secret, Some(&signature), Some("1700000000"), &altered, 1700000000),
            Err(AuthError::BadSignature)
        );
    }
}

#[test]
fn verify_rejects_any_flipped_byte_of_the_timestamp() {
    let secret = SigningSecret::new(SECRET);
    let timestamp = "1700000000";
    let signature = reference_signature(SECRET, timestamp, BODY);
    for i in 0..timestamp.len() {
        let mut altered = timestamp.as_bytes().to_vec();
        altered[i] ^= 0x01;
        let altered = String::from_utf8(altered).unwrap();
        assert!(verify(&secret, Some(&signature), Some(&altered), BODY, 1700000000).is_err());
    }
}

#[test]
fn verify_rejects_another_secret() {
    let secret = SigningSecret::new(SECRET);
    let signature = reference_signature("another secret", "1700000000", BODY);
    assert_eq!(
        verify(&secret, Some(&signature), Some("1700000000"), BODY, 1700000000),
        Err(AuthError::BadSignature)
    );
}

#[test]
fn verify_rejects_a_truncated_or_extended_signature() {
    let secret = SigningSecret::new(SECRET);
    let signature = reference_signature(SECRET, "1700000000", BODY);
    let shorter = &signature[..signature.len() - 1];
    let longer = format!("{}0", signature);
    let upper = signature.to_uppercase();
    for altered in [shorter, longer.as_str(), upper.as_str(), ""] {
        assert_eq!(
            verify(&secret, Some(altered), Some("1700000000"), BODY, 1700000000),
            Err(AuthError::BadSignature)
        );
    }
}

#[test]
fn verify_rejects_stale_timestamps_whatever_the_signature() {
    let secret = SigningSecret::new(SECRET);
    let signature = reference_signature(SECRET, "1700000000", BODY);
    for now in [1700000301u64, 1699999699, 1700000400, 0, u64::MAX] {
        assert_eq!(
            verify(&secret, Some(&signature), Some("1700000000"), BODY, now),
            Err(AuthError::StaleTimestamp)
        );
        assert_eq!(
            verify(&secret, Some("v0=invalid"), Some("1700000000"), BODY, now),
            Err(AuthError::StaleTimestamp)
        );
    }
}

#[test]
fn verify_rejects_missing_headers() {
    let secret = SigningSecret::new(SECRET);
    let signature = reference_signature(SECRET, "1700000000", BODY);
    assert_eq!(
        verify(&secret, None, Some("1700000000"), BODY, 1700000000),
        Err(AuthError::MalformedHeaders)
    );
    assert_eq!(
        verify(&secret, Some(&signature), None, BODY, 1700000000),
        Err(AuthError::MalformedHeaders)
    );
    assert_eq!(verify(&secret, None, None, BODY, 1700000000), Err(AuthError::MalformedHeaders));
}

#[test]
fn verify_rejects_timestamps_that_are_no_numbers() {
    let secret = SigningSecret::new(SECRET);
    for timestamp in ["", "abc", "17000x0000", " 1700000000", "1700000000 ", "-5", "1.5", "+"] {
        let signature = reference_signature(SECRET, timestamp, BODY);
        assert_eq!(
            verify(&secret, Some(&signature), Some(timestamp), BODY, 1700000000),
            Err(AuthError::MalformedHeaders)
        );
    }
}

#[test]
fn verify_signs_the_timestamp_header_as_written() {
    let secret = SigningSecret::new(SECRET);
    let signature = reference_signature(SECRET, "+01700000000", BODY);
    assert_eq!(
        verify(&secret, Some(&signature), Some("+01700000000"), BODY, 1700000000),
        Ok(())
    );
    let plain = reference_signature(SECRET, "1700000000", BODY);
    assert_eq!(
        verify(&secret, Some(&plain), Some("+01700000000"), BODY, 1700000000),
        Err(AuthError::BadSignature)
    );
}

#[test]
fn parse_timestamp_reads_decimal_numbers() {
    assert_eq!(parse_timestamp(b"0"), Some(0));
    assert_eq!(parse_timestamp(b"12345"), Some(12345));
    assert_eq!(parse_timestamp(b"+12345"), Some(12345));
    assert_eq!(parse_timestamp(b"0007"), Some(7));
    assert_eq!(parse_timestamp(b"18446744073709551615"), Some(u64::MAX));
    assert_eq!(parse_timestamp(b"00018446744073709551615"), Some(u64::MAX));
}

#[test]
fn parse_timestamp_refuses_everything_else() {
    assert_eq!(parse_timestamp(b""), None);
    assert_eq!(parse_timestamp(b"+"), None);
    assert_eq!(parse_timestamp(b"++1"), None);
    assert_eq!(parse_timestamp(b"-1"), None);
    assert_eq!(parse_timestamp(b"12a"), None);
    assert_eq!(parse_timestamp(b"1 2"), None);
    assert_eq!(parse_timestamp(b"18446744073709551616"), None);
    assert_eq!(parse_timestamp(b"99999999999999999999999"), None);
    assert_eq!(parse_timestamp(b"184467440737095516150"), None);
    assert_eq!(parse_timestamp(&[0x31, 0xff]), None);
}

#[test]
fn parse_timestamp_agrees_with_std() {
    for text in ["0", "1", "+1", "300", "1700000000", "x", "", "+", "0x10", "18446744073709551616"]
    {
        assert_eq!(parse_timestamp(text.as_bytes()), text.parse::<u64>().ok());
    }
}

#[test]
fn replay_window_is_five_minutes_in_both_directions() {
    assert_eq!(REPLAY_WINDOW_SECONDS, 300);
    assert!(is_fresh(1000, 1000));
    assert!(is_fresh(1300, 1000));
    assert!(!is_fresh(1301, 1000));
    assert!(is_fresh(1000, 1300));
    assert!(!is_fresh(1000, 1301));
    assert!(is_fresh(0, 300));
    assert!(!is_fresh(0, u64::MAX));
    assert!(!is_fresh(u64::MAX, 0));
    assert!(is_fresh(u64::MAX, u64::MAX - 300));
}

#[test]
fn bytes_equal_compares_whole_strings() {
    assert!(bytes_equal(b"", b""));
    assert!(bytes_equal(b"abc", b"abc"));
    assert!(!bytes_equal(b"abc", b"abd"));
    assert!(!bytes_equal(b"abc", b"bbc"));
    assert!(!bytes_equal(b"abc", b"ab"));
    assert!(!bytes_equal(b"", b"a"));
    assert!(!bytes_equal(&[0x00, 0x80], &[0x80, 0x00]));
}

#[test]
fn str_equal_compares_text() {
    assert!(str_equal("", ""));
    assert!(str_equal("message", "message"));
    assert!(!str_equal("message", "messages"));
    assert!(!str_equal("Message", "message"));
    assert!(str_equal("テスト", "テスト"));
    assert!(!str_equal("テスト1", "テスト2"));
}
