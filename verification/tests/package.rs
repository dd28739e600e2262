use omnia_plugin::digest::sha256_digest;
use omnia_plugin::loader::LoadError;
use omnia_plugin::package::{
    fetch_target, parse_package, release_error, stored_content_matches, stored_release, verify_content,
};

#[test]
fn exact_reference_parses() {
    let (package, version) = parse_package("wasi:http@1.2.3").unwrap();
    assert_eq!(package.to_string(), "wasi:http");
    assert_eq!(version.to_string(), "1.2.3");
    assert!(parse_package("my-ns:pkg-v2@0.1.0-rc.1").is_ok());
}

#[test]
fn reference_without_version_refused() {
    assert_eq!(
        parse_package("wasi:http").unwrap_err(),
        "registry package `wasi:http` must pin an exact version (`namespace:name@version`)"
    );
}

#[test]
fn malformed_name_refused() {
    for bad in ["Wasi:http@1.0.0", "wasi@1.0.0", "wasi:@1.0.0", "wasi:a:b@1.0.0", "wasi:-x@1.0.0", "1a:b@1.0.0", "a:pkg-2@1.0.0"] {
        let e = parse_package(bad).unwrap_err();
        assert!(
            e.starts_with(&format!("package `{bad}` is not a `namespace:name@version` reference: ")),
            "{e}"
        );
    }
}

#[test]
fn inexact_version_refused() {
    for bad in ["wasi:http@latest", "wasi:http@1", "wasi:http@", "wasi:http@1.0.0@2"] {
        let e = parse_package(bad).unwrap_err();
        assert!(e.starts_with(&format!("package `{bad}` does not pin an exact semver version: ")), "{e}");
    }
}

#[test]
fn fetch_target_uses_named_or_default_registry() {
    let t = fetch_target("wasi:http@1.0.0", None, "registry.example.com").unwrap();
    assert_eq!(t.registry_name, "registry.example.com");
    let t = fetch_target("wasi:http@1.0.0", Some("other.example:8080"), "registry.example.com").unwrap();
    assert_eq!(t.registry_name, "other.example:8080");
    assert_eq!(t.registry.to_string(), "other.example:8080");
}

#[test]
fn fetch_target_refusals() {
    match fetch_target("wasi:http", None, "registry.example.com") {
        Err(LoadError::Refused(m)) => assert!(m.contains("must pin an exact version")),
        other => panic!("{:?}", other.err()),
    }
    match fetch_target("wasi:http@1.0.0", Some("bad name"), "registry.example.com") {
        Err(LoadError::Refused(m)) => assert!(m.starts_with("registry `bad name` is not a valid name: "), "{m}"),
        other => panic!("{:?}", other.err()),
    }
}

#[test]
fn content_checked_against_registry_digest() {
    let digest = sha256_digest(b"bytes");
    assert!(verify_content("wasi:http@1.0.0", b"bytes", &digest).is_ok());
    match verify_content("wasi:http@1.0.0", b"other", &digest) {
        Err(LoadError::Unavailable(m)) => assert_eq!(
            m,
            format!(
                "package `wasi:http@1.0.0` content hashes to {}, not the registry digest {digest}",
                sha256_digest(b"other")
            )
        ),
        other => panic!("{:?}", other.err()),
    }
}

#[test]
fn poisoned_store_entry_rejected() {
    let digest = sha256_digest(b"bytes");
    assert!(stored_content_matches(b"bytes", &digest));
    assert!(!stored_content_matches(b"poison", &digest));
}

#[test]
fn release_errors_split_by_remedy() {
    assert!(release_error("wasi:http@1.0.0", "timed out", true).is_ok());
    match release_error("wasi:http@1.0.0", "Package not found", false) {
        Err(LoadError::Refused(m)) => assert_eq!(m, "resolving `wasi:http@1.0.0`: Package not found"),
        other => panic!("{other:?}"),
    }
}

#[test]
fn stored_release_record_fallback() {
    match stored_release("wasi:http@1.0.0", "unreachable", None) {
        Err(LoadError::Unavailable(m)) => assert_eq!(m, "resolving `wasi:http@1.0.0`: unreachable"),
        other => panic!("{:?}", other.err()),
    }
    let digest = sha256_digest(b"x");
    let (parsed, text) = stored_release("wasi:http@1.0.0", "unreachable", Some(digest.to_uppercase().replace("SHA256:", "sha256:"))).unwrap();
    assert_eq!(parsed.to_string(), digest);
    assert_eq!(text, digest);
    match stored_release("wasi:http@1.0.0", "unreachable", Some("sha256:zz".to_string())) {
        Err(LoadError::Unavailable(m)) => assert!(
            m.starts_with("stored release record for `wasi:http@1.0.0` carries a malformed digest: "),
            "{m}"
        ),
        other => panic!("{:?}", other.err()),
    }
}

#[test]
fn malformed_label_message_carries_its_cause() {
    let word = "dash-separated words must begin with an ASCII lowercase letter";
    assert_eq!(
        parse_package("Wasi:http@1.0.0").unwrap_err(),
        format!("package `Wasi:http@1.0.0` is not a `namespace:name@version` reference: invalid label: {word}: {word}")
    );
    assert_eq!(
        parse_package("wasi@1.0.0").unwrap_err(),
        "package `wasi@1.0.0` is not a `namespace:name@version` reference: invalid package ref: missing expected ':'"
    );
}

#[test]
fn fetch_target_parses_the_named_parts() {
    let t = fetch_target("my-ns:pkg@0.2.0+build.1", Some("r.example"), "d.example").unwrap();
    assert_eq!(t.package.to_string(), "my-ns:pkg");
    assert_eq!(t.version.to_string(), "0.2.0+build.1");
    assert_eq!(t.registry.to_string(), "r.example");
}
