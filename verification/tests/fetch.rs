use omnia_plugin::digest::sha256_digest;
use omnia_plugin::fetch::{
    is_network_failure, DownloadFailure, FetchAction, FetchEvent, RegistryFetch, ResolveFailure,
};
use omnia_plugin::loader::LoadError;

const PKG: &str = "wasi:http@1.0.0";

fn resolved(digest: &str) -> RegistryFetch {
    let (fetch, action) = RegistryFetch::start(PKG);
    assert!(matches!(action, FetchAction::ResolveRelease));
    let (fetch, action) = fetch.step(FetchEvent::Resolved(Ok(digest.to_string())));
    match action {
        FetchAction::WriteRecord(d) => assert_eq!(d, digest),
        other => panic!("{other:?}"),
    }
    fetch
}

fn finished(action: FetchAction) -> Result<Vec<u8>, LoadError> {
    match action {
        FetchAction::Finish(r) => r,
        other => panic!("expected Finish, got {other:?}"),
    }
}

#[test]
fn download_verified_and_cached_despite_store_failures() {
    let digest = sha256_digest(b"wasm");
    let fetch = resolved(&digest);
    let (fetch, action) = fetch.step(FetchEvent::RecordWritten(Err("disk full".into())));
    assert!(matches!(action, FetchAction::ReadContent(ref d) if *d == digest));
    let (fetch, action) = fetch.step(FetchEvent::ContentRead(Err("unreadable".into())));
    assert!(matches!(action, FetchAction::Download));
    let (fetch, action) = fetch.step(FetchEvent::Downloaded(Ok(b"wasm".to_vec())));
    match &action {
        FetchAction::WriteContent(d, b) => {
            assert_eq!(d, &digest);
            assert_eq!(b, b"wasm");
        }
        other => panic!("{other:?}"),
    }
    let (fetch, action) = fetch.step(FetchEvent::ContentWritten(Err("disk full".into())));
    assert!(fetch.is_finished());
    assert_eq!(finished(action).unwrap(), b"wasm".to_vec());
}

#[test]
fn stored_bytes_served_when_they_verify() {
    let digest = sha256_digest(b"wasm");
    let (fetch, _) = resolved(&digest).step(FetchEvent::RecordWritten(Ok(())));
    let (_, action) = fetch.step(FetchEvent::ContentRead(Ok(Some(b"wasm".to_vec()))));
    assert_eq!(finished(action).unwrap(), b"wasm".to_vec());
}

#[test]
fn poisoned_store_entry_downloaded_afresh() {
    let digest = sha256_digest(b"wasm");
    let (fetch, _) = resolved(&digest).step(FetchEvent::RecordWritten(Ok(())));
    let (_, action) = fetch.step(FetchEvent::ContentRead(Ok(Some(b"poison".to_vec()))));
    assert!(matches!(action, FetchAction::Download));
}

#[test]
fn misdelivered_content_unavailable() {
    let digest = sha256_digest(b"wasm");
    let (fetch, _) = resolved(&digest).step(FetchEvent::RecordWritten(Ok(())));
    let (fetch, _) = fetch.step(FetchEvent::ContentRead(Ok(None)));
    let (_, action) = fetch.step(FetchEvent::Downloaded(Ok(b"other".to_vec())));
    match finished(action) {
        Err(LoadError::Unavailable(m)) => assert_eq!(
            m,
            format!(
                "package `{PKG}` content hashes to {}, not the registry digest {digest}",
                sha256_digest(b"other")
            )
        ),
        other => panic!("{other:?}"),
    }
}

#[test]
fn download_failures_unavailable() {
    let digest = sha256_digest(b"wasm");
    for (failure, text) in [
        (DownloadFailure::Fetching("refused".into()), format!("fetching `{PKG}`: refused")),
        (DownloadFailure::Reading("reset".into()), format!("reading `{PKG}`: reset")),
    ] {
        let (fetch, _) = resolved(&digest).step(FetchEvent::RecordWritten(Ok(())));
        let (fetch, _) = fetch.step(FetchEvent::ContentRead(Ok(None)));
        let (_, action) = fetch.step(FetchEvent::Downloaded(Err(failure)));
        assert!(matches!(finished(action), Err(LoadError::Unavailable(m)) if m == text));
    }
}

#[test]
fn authoritative_answer_refuses_without_reading_the_store() {
    let (fetch, _) = RegistryFetch::start(PKG);
    let failure = ResolveFailure { text: "Package not found".into(), transport: false };
    let (_, action) = fetch.step(FetchEvent::Resolved(Err(failure)));
    assert!(
        matches!(finished(action), Err(LoadError::Refused(m)) if m == format!("resolving `{PKG}`: Package not found"))
    );
}

fn fallen_back() -> RegistryFetch {
    let (fetch, _) = RegistryFetch::start(PKG);
    let failure = ResolveFailure { text: "unreachable".into(), transport: true };
    let (fetch, action) = fetch.step(FetchEvent::Resolved(Err(failure)));
    assert!(matches!(action, FetchAction::ReadRecord));
    fetch
}

#[test]
fn transport_failure_adopts_the_stored_record() {
    let digest = sha256_digest(b"wasm");
    let upper = digest.to_uppercase().replace("SHA256:", "sha256:");
    let (fetch, action) = fallen_back().step(FetchEvent::RecordRead(Ok(Some(upper))));
    let adopted = match action {
        FetchAction::Adopt(c) => c.to_string(),
        other => panic!("{other:?}"),
    };
    assert_eq!(adopted, digest);
    let (_, action) = fetch.step(FetchEvent::Adopted);
    assert!(matches!(action, FetchAction::ReadContent(d) if d == digest));
}

#[test]
fn transport_failure_without_record_unavailable() {
    let (_, action) = fallen_back().step(FetchEvent::RecordRead(Ok(None)));
    assert!(matches!(finished(action), Err(LoadError::Unavailable(m)) if m == format!("resolving `{PKG}`: unreachable")));
    let (_, action) = fallen_back().step(FetchEvent::RecordRead(Err("store down".into())));
    assert!(matches!(finished(action), Err(LoadError::Unavailable(m)) if m == "store down"));
    let (_, action) = fallen_back().step(FetchEvent::RecordRead(Ok(Some("sha256:zz".into()))));
    assert!(matches!(finished(action), Err(LoadError::Unavailable(m))
        if m == format!("stored release record for `{PKG}` carries a malformed digest: invalid content digest: must be 64 hex digits; got 2 chars")));
}

#[test]
fn network_failures_classified() {
    assert!(is_network_failure(&wasm_pkg_client::Error::IoError(std::io::Error::other("x"))));
    assert!(is_network_failure(&wasm_pkg_client::Error::RegistryError(anyhow::Error::msg("x"))));
    assert!(is_network_failure(&wasm_pkg_client::Error::RegistryMetadataError(anyhow::Error::msg("x"))));
    assert!(!is_network_failure(&wasm_pkg_client::Error::PackageNotFound));
    assert!(!is_network_failure(&wasm_pkg_client::Error::InvalidPackageRef("x".into())));
}
