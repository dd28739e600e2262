use omnia_plugin::loader::LoadError;
use omnia_plugin::subpath::{check_subpath, is_plain, locate, resolve};

const NOT_PLAIN: &str = "` is not a plain relative path within a location";

#[test]
fn plain_subpaths() {
    assert!(is_plain("a"));
    assert!(is_plain("a/b.wasm"));
    assert!(is_plain("..a/b."));
    assert!(check_subpath("p", "x/y").is_ok());
}

#[test]
fn subpaths_that_escape_or_are_empty() {
    for bad in ["", "/a", "a/", "a//b", "./a", "a/../b", "..", ".", "a\\b"] {
        assert!(!is_plain(bad), "{bad:?} should not be plain");
    }
    assert_eq!(
        check_subpath("loc/../x", "../x").unwrap_err(),
        format!("component path `loc/../x{NOT_PLAIN}")
    );
}

fn names(v: &[&str]) -> Vec<String> {
    v.iter().map(|s| s.to_string()).collect()
}

#[test]
fn longest_location_wins() {
    let locs = names(&["plugins", "plugins/extra", "."]);
    assert_eq!(resolve("plugins/extra/x.wasm", &locs).unwrap(), (1, "x.wasm".to_string()));
    assert_eq!(resolve("plugins/y.wasm", &locs).unwrap(), (0, "y.wasm".to_string()));
    // The location itself is the longest match: its empty subpath is refused.
    assert!(resolve("plugins/extra", &locs).is_err());
}

#[test]
fn last_of_equal_names_wins() {
    let locs = names(&["a", "a"]);
    assert_eq!(resolve("a/b", &locs).unwrap(), (1, "b".to_string()));
}

#[test]
fn bare_relative_path_falls_back_to_dot() {
    let locs = names(&["plugins", ".", "."]);
    assert_eq!(resolve("other/x.wasm", &locs).unwrap(), (1, "other/x.wasm".to_string()));
    assert_eq!(resolve("./x.wasm", &locs).unwrap(), (2, "x.wasm".to_string()));
}

#[test]
fn naming_a_location_is_refused() {
    let locs = names(&["plugins", "."]);
    assert_eq!(
        resolve("plugins", &locs).unwrap_err(),
        format!("component path `plugins{NOT_PLAIN}")
    );
    assert!(resolve("plugins/../etc", &locs).is_err());
}

#[test]
fn path_under_no_location() {
    let locs = names(&["plugins"]);
    assert_eq!(
        resolve("other/x.wasm", &locs).unwrap_err(),
        "path `other/x.wasm` is not under any location of this deployment"
    );
    assert!(resolve("pluginsx/y", &locs).is_err());
}

#[test]
fn locate_refuses_instead_of_unavailable() {
    let locs = names(&["plugins"]);
    assert_eq!(locate("plugins/x.wasm", &locs).unwrap(), (0, "x.wasm".to_string()));
    match locate("elsewhere/x.wasm", &locs) {
        Err(LoadError::Refused(m)) => {
            assert_eq!(m, "path `elsewhere/x.wasm` is not under any location of this deployment")
        }
        other => panic!("{other:?}"),
    }
    assert!(matches!(locate("plugins//x", &locs), Err(LoadError::Refused(_))));
}
