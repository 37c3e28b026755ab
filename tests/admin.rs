use tysiac::admin::bytes_match;
use tysiac::{check_admin_password, check_password_digests, password_digest, ApiError};

#[test]
fn digest_is_sha256() {
    let digest = password_digest("abc");
    let expected: [u8; 32] = [
        0xba, 0x78, 0x16, 0xbf, 0x8f, 0x01, 0xcf, 0xea, 0x41, 0x41, 0x40, 0xde, 0x5d, 0xae, 0x22, 0x23,
        0xb0, 0x03, 0x61, 0xa3, 0x96, 0x17, 0x7a, 0x9c, 0xb4, 0x10, 0xff, 0x61, 0xf2, 0x00, 0x15, 0xad,
    ];
    assert_eq!(digest, expected.to_vec());
}

#[test]
fn password_must_be_configured() {
    assert!(matches!(check_admin_password(None, "anything"), Err(ApiError::NoConfiguredPassword)));
    assert!(matches!(check_admin_password(None, ""), Err(ApiError::NoConfiguredPassword)));
}

#[test]
fn password_must_match() {
    assert!(check_admin_password(Some("s3cret"), "s3cret").is_ok());
    assert!(matches!(check_admin_password(Some("s3cret"), "s3cret "), Err(ApiError::InvalidPassword)));
    assert!(matches!(check_admin_password(Some("s3cret"), ""), Err(ApiError::InvalidPassword)));
}

#[test]
fn digests_compare_bytewise() {
    assert!(check_password_digests(&[1, 2, 3], &[1, 2, 3]).is_ok());
    assert!(matches!(check_password_digests(&[1, 2, 3], &[1, 2, 4]), Err(ApiError::InvalidPassword)));
    assert!(bytes_match(&[], &[]));
    assert!(!bytes_match(&[1], &[1, 0]));
    assert!(!bytes_match(&[0, 9], &[1, 9]));
}
