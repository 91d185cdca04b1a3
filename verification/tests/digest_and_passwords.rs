use connected::clock::{now_unix, now_unix_from};
use connected::digest::{hex_encode, sha256_hex};
use connected::error::AppError;
use connected::password::{hash_password, verify_password};

#[test]
fn hex_encode_is_lowercase_two_digits_per_byte() {
    assert_eq!(hex_encode(&[]), "");
    assert_eq!(hex_encode(&[0x00, 0x0f, 0xa5, 0xff]), "000fa5ff");
    assert_eq!(hex_encode(&[0xbe, 0xef]), "beef");
}

#[test]
fn sha256_hex_of_abc() {
    assert_eq!(
        sha256_hex("abc"),
        "ba7816bf8f01cfea414140de5dae2223b00361a396177a9cb410ff61f20015ad"
    );
}

#[test]
fn sha256_hex_of_empty_string() {
    assert_eq!(
        sha256_hex(""),
        "e3b0c44298fc1c149afbf4c8996fb92427ae41e4649b934ca495991b7852b855"
    );
}

#[test]
fn sha256_hex_is_64_lowercase_hex_digits() {
    let h = sha256_hex("eyJhbGciOiJIUzI1NiJ9.eyJzdWIiOiIxIn0.c2ln");
    assert_eq!(h.len(), 64);
    assert!(h.chars().all(|c| c.is_ascii_digit() || ('a'..='f').contains(&c)));
    assert_eq!(h, sha256_hex("eyJhbGciOiJIUzI1NiJ9.eyJzdWIiOiIxIn0.c2ln"));
    assert_ne!(h, sha256_hex("eyJhbGciOiJIUzI1NiJ9.eyJzdWIiOiIxIn0.c2lo"));
}

#[test]
fn known_bcrypt_hash_verifies() {
    let hash = "$2a$04$UuTkLRZZ6QofpDOlMz32MuuxEHA43WOemOYHPz6.SjsVsyO1tDU96";
    assert_eq!(verify_password("password", hash), Ok(true));
    assert_eq!(verify_password("Password", hash), Ok(false));
}

#[test]
fn malformed_bcrypt_hash_is_internal_error() {
    let r = verify_password("password", "not-a-bcrypt-hash");
    assert!(matches!(r, Err(AppError::Internal(_))));
}

#[test]
fn hashed_password_verifies_and_differs_from_password() {
    let hash = hash_password("correct horse battery").unwrap();
    assert_ne!(hash, "correct horse battery");
    assert!(hash.starts_with("$2b$12$"));
    assert_eq!(hash.len(), 60);
    assert_eq!(verify_password("correct horse battery", &hash), Ok(true));
    assert_eq!(verify_password("correct horse batterY", &hash), Ok(false));
}

#[test]
fn now_unix_reads_a_time_after_2024() {
    let now = now_unix().unwrap();
    assert!(now > 1_700_000_000);
}

#[test]
fn clock_reading_converts_to_seconds_or_fails() {
    assert_eq!(now_unix_from(Some(1_700_000_123)), Ok(1_700_000_123));
    assert_eq!(now_unix_from(Some(0)), Ok(0));
    assert_eq!(
        now_unix_from(None),
        Err(AppError::Internal("system clock before unix epoch".to_string()))
    );
}
