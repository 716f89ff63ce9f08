use md5::Digest;
use parallel_fetch::{check_etag, FetchError};

#[test]
fn etag_matches_content() {
    // The hex-encoded MD5 of the content, computed with the real hasher,
    // must be accepted.
    let content = b"HelloWorld".to_vec();
    let etag = hex::encode(md5::Md5::digest(&content));
    assert!(check_etag(&etag, &content).is_ok());
}

#[test]
fn etag_uppercase_matches_content() {
    let content = b"HelloWorld".to_vec();
    let etag = hex::encode_upper(md5::Md5::digest(&content));
    assert!(check_etag(&etag, &content).is_ok());
}

#[test]
fn etag_mismatch_is_a_validation_failure() {
    // A well-formed digest of different content is rejected only after the
    // comparison, with a validation error.
    let content = b"HelloWorld".to_vec();
    let other = hex::encode(md5::Md5::digest(b"HelloWorlc"));
    let error = check_etag(&other, &content).expect_err("testing");
    assert_eq!(error.description(), "ETag does not match".to_owned());
    assert!(matches!(error, FetchError::ValidationError(_)));
}

#[test]
fn etag_not_hex_is_rejected() {
    let content = b"HelloWorld".to_vec();
    let error = check_etag("zz", &content).expect_err("testing");
    assert_eq!(
        error.description(),
        "ETag is not a valid hex digest".to_owned()
    );
}

#[test]
fn etag_odd_length_is_rejected() {
    let content = b"HelloWorld".to_vec();
    let error = check_etag("abc", &content).expect_err("testing");
    assert!(matches!(error, FetchError::ValidationError(_)));
}

#[test]
fn known_digest_of_hello_world() {
    // MD5("HelloWorld") = 68e109f0f40ca72a15e05cc22786f8e6.
    let content = b"HelloWorld".to_vec();
    assert!(check_etag("68e109f0f40ca72a15e05cc22786f8e6", &content).is_ok());
    let error = check_etag("00000000000000000000000000000000", &content).expect_err("testing");
    assert_eq!(error.description(), "ETag does not match".to_owned());
}
