use omnia_plugin::digest::{canonicalize, sha256_digest, to_hex_lower};

const EMPTY_DIGEST: &str = "sha256:e3b0c44298fc1c149afbf4c8996fb92427ae41e4649b934ca495991b7852b855";

#[test]
fn digest_of_bytes() {
    assert_eq!(sha256_digest(b""), EMPTY_DIGEST);
    assert_eq!(
        sha256_digest(b"hello"),
        "sha256:2cf24dba5fb0a30e26e83b2ac5b9e29e1b161e5c1fa7425e73043362938b9824"
    );
}

#[test]
fn hex_is_lowercase_two_digits_per_byte() {
    assert_eq!(to_hex_lower(&[0x00, 0x0f, 0xa0, 0xff]), "000fa0ff");
}

#[test]
fn canonical_pin_lowercases_hex() {
    let upper = EMPTY_DIGEST.replace("e3b0c44298fc", "E3B0C44298FC");
    assert_eq!(canonicalize(&upper).unwrap(), EMPTY_DIGEST);
    assert_eq!(canonicalize(EMPTY_DIGEST).unwrap(), EMPTY_DIGEST);
}

#[test]
fn canonicalize_is_idempotent() {
    let upper = EMPTY_DIGEST.to_uppercase().replace("SHA256:", "sha256:");
    let once = canonicalize(&upper).unwrap();
    assert_eq!(canonicalize(&once).unwrap(), once);
}

#[test]
fn pin_without_scheme_refused() {
    assert_eq!(
        canonicalize("md5:abc").unwrap_err(),
        "digest `md5:abc` is not `sha256:<hex>`"
    );
    assert!(canonicalize("SHA256:e3b0").is_err());
}

#[test]
fn pin_with_bad_hex_refused() {
    assert_eq!(
        canonicalize("sha256:abc").unwrap_err(),
        "digest `sha256:abc` is not 64 hex characters"
    );
    let bad = format!("sha256:{}", "g".repeat(64));
    assert_eq!(canonicalize(&bad).unwrap_err(), format!("digest `{bad}` is not 64 hex characters"));
    let long = format!("{EMPTY_DIGEST}0");
    assert!(canonicalize(&long).is_err());
}
