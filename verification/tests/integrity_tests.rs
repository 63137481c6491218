use package_fast::integrity::{calculate_package_hash, verify_package_integrity, IntegrityError};

const HELLO_SHA512: &str = "9b71d224bd62f3785d96d46ad3ea3d73319bfbc2890caadae2dff72519673ca72323c3d99ba5c11d7c7acc6e14b8c5da0c4663475c2e5c3adef46f73bcdec043";

#[test]
fn test_calculate_package_hash() {
    let content: Vec<u8> = b"test content\n".to_vec();
    let hash = calculate_package_hash(&content);
    assert_eq!(hash.len(), 128); // SHA-512 produces 128 hex characters
}

#[test]
fn test_verify_package_integrity_success() {
    let content: Vec<u8> = b"test content\n".to_vec();
    let hash = calculate_package_hash(&content);
    assert!(verify_package_integrity(&content, &hash).is_ok());
}

#[test]
fn test_verify_package_integrity_failure() {
    let content: Vec<u8> = b"test content\n".to_vec();
    let result = verify_package_integrity(&content, "invalid_hash");
    assert!(result.is_err());

    match result {
        Err(IntegrityError::HashMismatch { .. }) => {},
        _ => panic!("Expected HashMismatch error"),
    }
}

#[test]
fn digest_example_scenario() {
    // The artifact bytes `hello` have a known SHA-512 digest.
    let content: Vec<u8> = b"hello".to_vec();
    assert_eq!(calculate_package_hash(&content), HELLO_SHA512);
    assert!(verify_package_integrity(&content, HELLO_SHA512).is_ok());

    match verify_package_integrity(&content, "deadbeef") {
        Err(IntegrityError::HashMismatch { expected, actual }) => {
            assert_eq!(expected, "deadbeef");
            assert_eq!(actual, HELLO_SHA512);
        },
        _ => panic!("Expected HashMismatch error"),
    }
}

#[test]
fn digest_comparison_is_case_insensitive() {
    let content: Vec<u8> = b"hello".to_vec();
    let upper = HELLO_SHA512.to_uppercase();
    assert_ne!(upper, HELLO_SHA512);
    assert!(verify_package_integrity(&content, &upper).is_ok());
}

#[test]
fn digest_round_trip_for_other_bytes() {
    for content in [Vec::new(), b"a".to_vec(), vec![0u8, 255u8, 10u8, 34u8]] {
        let hash = calculate_package_hash(&content);
        assert_eq!(hash.len(), 128);
        assert!(verify_package_integrity(&content, &hash).is_ok());
        assert!(verify_package_integrity(&content, HELLO_SHA512).is_err());
    }
}

#[test]
fn integrity_error_messages_are_not_empty() {
    let e = IntegrityError::HashMismatch { expected: "a".to_string(), actual: "b".to_string() };
    assert!(e.message().starts_with("Hash mismatch: expected "));
    assert!(!IntegrityError::IoError("gone".to_string()).message().is_empty());
    assert!(!IntegrityError::InvalidHashFormat.message().is_empty());
}
