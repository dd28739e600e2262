use omnia_plugin::digest::sha256_digest;
use omnia_plugin::loader::{
    AdmitError, LoadAction, LoadError, LoadEvent, Origin, PluginLoad, Registration, Slots,
};

const BOTH: Slots = Slots { registry: true, path: true };

fn finished(action: LoadAction) -> Result<(String, String), LoadError> {
    match action {
        LoadAction::Finish(r) => r.map(|p| (p.id().to_string(), p.digest().to_string())),
        other => panic!("expected Finish, got {other:?}"),
    }
}

#[test]
fn fresh_load_acquires_admits_and_reports_digest() {
    let bytes = b"component".to_vec();
    let digest = sha256_digest(&bytes);
    let (load, action) = PluginLoad::start("ns:pkg@1.0.0", Origin::Path("plugins/p.wasm".into()), None, BOTH);
    assert!(matches!(action, LoadAction::CheckRegistration));
    let (load, action) = load.step(LoadEvent::Registration(Ok(Registration::Absent)));
    match &action {
        LoadAction::AcquireFromPath(p) => assert_eq!(p, "plugins/p.wasm"),
        other => panic!("{other:?}"),
    }
    let (load, action) = load.step(LoadEvent::Acquired(Ok(bytes.clone())));
    match &action {
        LoadAction::Admit(b) => assert_eq!(b, &bytes),
        other => panic!("{other:?}"),
    }
    let (load, action) = load.step(LoadEvent::Admission(Ok(())));
    assert!(load.is_finished());
    assert_eq!(finished(action).unwrap(), ("ns:pkg@1.0.0".to_string(), digest));
}

#[test]
fn registry_origin_uses_registry_slot() {
    let (load, _) = PluginLoad::start("ns:pkg@1.0.0", Origin::Registry(Some("r.example".into())), None, BOTH);
    let (_, action) = load.step(LoadEvent::Registration(Ok(Registration::Absent)));
    match action {
        LoadAction::AcquireFromRegistry(e) => assert_eq!(e.as_deref(), Some("r.example")),
        other => panic!("{other:?}"),
    }
}

#[test]
fn pin_mismatch_refused_before_admission() {
    let pin = format!("sha256:{}", "A".repeat(64));
    let (load, _) = PluginLoad::start("ns:pkg@1.0.0", Origin::Path("p.wasm".into()), Some(&pin), BOTH);
    let (load, _) = load.step(LoadEvent::Registration(Ok(Registration::Absent)));
    let (_, action) = load.step(LoadEvent::Acquired(Ok(b"x".to_vec())));
    let digest = sha256_digest(b"x");
    match finished(action) {
        Err(LoadError::Refused(m)) => assert_eq!(
            m,
            format!("resolved package `ns:pkg@1.0.0` digest {digest} does not match the pinned digest")
        ),
        other => panic!("{other:?}"),
    }
}

#[test]
fn matching_pin_in_upper_case_admits() {
    let digest = sha256_digest(b"x");
    let pin = digest.to_uppercase().replace("SHA256:", "sha256:");
    let (load, _) = PluginLoad::start("ns:pkg@1.0.0", Origin::Path("p.wasm".into()), Some(&pin), BOTH);
    let (load, _) = load.step(LoadEvent::Registration(Ok(Registration::Absent)));
    let (load, action) = load.step(LoadEvent::Acquired(Ok(b"x".to_vec())));
    assert!(matches!(action, LoadAction::Admit(_)));
    let (_, action) = load.step(LoadEvent::Admission(Ok(())));
    assert_eq!(finished(action).unwrap().1, digest);
}

#[test]
fn bad_pin_refused_at_start() {
    let (load, action) = PluginLoad::start("ns:pkg@1.0.0", Origin::Path("p.wasm".into()), Some("sha1:abc"), BOTH);
    assert!(load.is_finished());
    match finished(action) {
        Err(LoadError::Refused(m)) => assert_eq!(m, "digest `sha1:abc` is not `sha256:<hex>`"),
        other => panic!("{other:?}"),
    }
}

#[test]
fn reload_with_recorded_digest_is_idempotent() {
    let digest = sha256_digest(b"x");
    let (load, _) = PluginLoad::start("ns:pkg@1.0.0", Origin::Path("p.wasm".into()), Some(&digest), BOTH);
    let (_, action) = load.step(LoadEvent::Registration(Ok(Registration::Active(Some(digest.clone())))));
    assert_eq!(finished(action).unwrap(), ("ns:pkg@1.0.0".to_string(), digest));
}

#[test]
fn active_identity_never_rebinds() {
    let digest = sha256_digest(b"x");
    for (recorded, pin) in [
        (Some(digest.clone()), None),
        (None, Some(digest.clone())),
        (Some(sha256_digest(b"y")), Some(digest.clone())),
    ] {
        let (load, _) = PluginLoad::start("ns:pkg@1.0.0", Origin::Path("p.wasm".into()), pin.as_deref(), BOTH);
        let (_, action) = load.step(LoadEvent::Registration(Ok(Registration::Active(recorded))));
        match finished(action) {
            Err(LoadError::AlreadyActive(m)) => assert_eq!(m, "`ns:pkg@1.0.0` is already active"),
            other => panic!("{other:?}"),
        }
    }
}

#[test]
fn lost_admission_race_attests_the_winner() {
    let digest = sha256_digest(b"x");
    let (load, _) = PluginLoad::start("ns:pkg@1.0.0", Origin::Path("p.wasm".into()), None, BOTH);
    let (load, _) = load.step(LoadEvent::Registration(Ok(Registration::Absent)));
    let (load, _) = load.step(LoadEvent::Acquired(Ok(b"x".to_vec())));
    let (load, action) = load.step(LoadEvent::Admission(Err(AdmitError::AlreadyRegistered("ns:pkg".into()))));
    assert!(matches!(action, LoadAction::CheckRegistration));
    let (_, action) = load.step(LoadEvent::Registration(Ok(Registration::Active(Some(digest.clone())))));
    assert_eq!(finished(action).unwrap().1, digest);
}

#[test]
fn lost_race_to_other_content_is_already_active() {
    let (load, _) = PluginLoad::start("ns:pkg@1.0.0", Origin::Path("p.wasm".into()), None, BOTH);
    let (load, _) = load.step(LoadEvent::Registration(Ok(Registration::Absent)));
    let (load, _) = load.step(LoadEvent::Acquired(Ok(b"x".to_vec())));
    let (load, _) = load.step(LoadEvent::Admission(Err(AdmitError::AlreadyRegistered("ns:pkg".into()))));
    let (_, action) = load.step(LoadEvent::Registration(Ok(Registration::Active(Some(sha256_digest(b"y"))))));
    assert!(matches!(finished(action), Err(LoadError::AlreadyActive(_))));
}

#[test]
fn admission_failure_is_internal() {
    let (load, _) = PluginLoad::start("ns:pkg@1.0.0", Origin::Path("p.wasm".into()), None, BOTH);
    let (load, _) = load.step(LoadEvent::Registration(Ok(Registration::Absent)));
    let (load, _) = load.step(LoadEvent::Acquired(Ok(b"x".to_vec())));
    let (_, action) = load.step(LoadEvent::Admission(Err(AdmitError::Internal("down".into()))));
    assert!(matches!(finished(action), Err(LoadError::Internal(m)) if m == "down"));
}

#[test]
fn empty_slot_refuses_its_origin() {
    let none = Slots { registry: false, path: false };
    let (load, _) = PluginLoad::start("ns:pkg@1.0.0", Origin::Registry(None), None, none);
    let (_, action) = load.step(LoadEvent::Registration(Ok(Registration::Absent)));
    match finished(action) {
        Err(LoadError::Refused(m)) => assert_eq!(
            m,
            "this deployment's locations serve no registry; loading `ns:pkg@1.0.0` needs a `{ registry: ... }` entry"
        ),
        other => panic!("{other:?}"),
    }
    let (load, _) = PluginLoad::start("ns:pkg@1.0.0", Origin::Path("p.wasm".into()), None, none);
    let (_, action) = load.step(LoadEvent::Registration(Ok(Registration::Absent)));
    match finished(action) {
        Err(LoadError::Refused(m)) => assert_eq!(
            m,
            "this deployment's locations serve no paths; loading `ns:pkg@1.0.0` from `p.wasm` needs a `{ name: ..., path: ... }` entry"
        ),
        other => panic!("{other:?}"),
    }
}

#[test]
fn acquisition_and_registry_failures_pass_through() {
    let (load, _) = PluginLoad::start("ns:pkg@1.0.0", Origin::Path("p.wasm".into()), None, BOTH);
    let (_, action) = load.step(LoadEvent::Registration(Err(LoadError::Internal("gone".into()))));
    assert!(matches!(finished(action), Err(LoadError::Internal(m)) if m == "gone"));
    let (load, _) = PluginLoad::start("ns:pkg@1.0.0", Origin::Path("p.wasm".into()), None, BOTH);
    let (load, _) = load.step(LoadEvent::Registration(Ok(Registration::Absent)));
    let (_, action) = load.step(LoadEvent::Acquired(Err(LoadError::Unavailable("io".into()))));
    assert!(matches!(finished(action), Err(LoadError::Unavailable(m)) if m == "io"));
}

#[test]
fn registration_digest() {
    assert_eq!(Registration::Active(Some("d".into())).digest(), Some("d".to_string()));
    assert_eq!(Registration::Active(None).digest(), None);
    assert_eq!(Registration::Absent.digest(), None);
}

#[test]
fn no_plugins_is_refused() {
    assert!(matches!(LoadError::no_plugins("ns:pkg"), LoadError::Refused(m) if m.contains("`ns:pkg`")));
}

#[test]
fn admit_error_conversion() {
    assert!(matches!(AdmitError::AlreadyRegistered("x".into()).into_load_error(), LoadError::AlreadyActive(m) if m == "x"));
    assert!(matches!(AdmitError::Internal("y".into()).into_load_error(), LoadError::Internal(m) if m == "y"));
}
