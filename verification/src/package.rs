//! Registry package references: `namespace:name@version`, pinned to an exact
//! version, and the checks on what a registry or a store hands back.

use vstd::prelude::*;
use crate::digest::{canonical, digest_text, is_digest, sha256_digest, sha256_of};
use crate::loader::{LoadError, LoadFault};
use crate::subpath::split_on;

verus! {

#[verifier::external_type_specification]
#[verifier::external_body]
pub struct ExPackageRef(wasm_pkg_client::PackageRef);

#[verifier::external_type_specification]
#[verifier::external_body]
pub struct ExVersion(semver::Version);

#[verifier::external_type_specification]
#[verifier::external_body]
pub struct ExSemverError(semver::Error);

#[verifier::external_type_specification]
#[verifier::external_body]
pub struct ExRegistry(wasm_pkg_client::Registry);

#[verifier::external_type_specification]
#[verifier::external_body]
pub struct ExPkgError(wasm_pkg_client::Error);

#[verifier::external_type_specification]
#[verifier::external_body]
pub struct ExContentDigest(wasm_pkg_client::ContentDigest);

pub open spec fn is_ascii_lower(c: char) -> bool {
    'a' <= c && c <= 'z'
}

pub open spec fn is_ascii_digit(c: char) -> bool {
    '0' <= c && c <= '9'
}

/// A word of a kebab-case label: a lowercase letter, then lowercase letters
/// and digits.
pub open spec fn is_label_word(w: Seq<char>) -> bool {
    &&& w.len() > 0
    &&& is_ascii_lower(w[0])
    &&& forall|i: int| 1 <= i < w.len() ==> is_ascii_lower(#[trigger] w[i]) || is_ascii_digit(w[i])
}

/// A kebab-case label: not empty, and every `-`-separated word is a word.
pub open spec fn is_label(s: Seq<char>) -> bool {
    &&& s.len() > 0
    &&& forall|k: int|
        0 <= k < split_on(s, '-').len() ==> is_label_word(#[trigger] split_on(s, '-')[k])
}

/// `c` is the first position of `sep` in `s`.
pub open spec fn is_first(s: Seq<char>, sep: char, c: int) -> bool {
    &&& 0 <= c < s.len()
    &&& s[c] == sep
    &&& forall|j: int| 0 <= j < c ==> #[trigger] s[j] != sep
}

/// A package reference `namespace:name`: split at the first `:`, both sides
/// are labels.
pub open spec fn is_package_ref(s: Seq<char>) -> bool {
    exists|c: int|
        is_first(s, ':', c) && is_label(s.subrange(0, c)) && is_label(
            s.subrange(c + 1, s.len() as int),
        )
}

/// Whether `semver` parses `text` as a version. The grammar (SemVer 2.0 with
/// `semver`'s limits) is left to that crate.
pub uninterp spec fn parses_as_version(text: Seq<char>) -> bool;

/// Whether `text` is a registry name: a valid HTTP authority, as the `http`
/// crate parses one.
pub uninterp spec fn parses_as_registry(text: Seq<char>) -> bool;

/// The package reference that `wasm_pkg_client` parses from `text`.
pub uninterp spec fn package_ref_of(text: Seq<char>) -> wasm_pkg_client::PackageRef;

/// The version that `semver` parses from `text`.
pub uninterp spec fn version_of(text: Seq<char>) -> semver::Version;

/// The registry that `wasm_pkg_client` parses from `text`.
pub uninterp spec fn registry_of(text: Seq<char>) -> wasm_pkg_client::Registry;

/// The content digest that `wasm_pkg_client` parses from `text`.
pub uninterp spec fn content_digest_of(text: Seq<char>) -> wasm_pkg_client::ContentDigest;

/// The error that `wasm_pkg_client` reports for `text` as a package reference.
pub uninterp spec fn package_ref_error_of(text: Seq<char>) -> wasm_pkg_client::Error;

/// The error that `semver` reports for `text` as a version.
pub uninterp spec fn version_error_of(text: Seq<char>) -> semver::Error;

/// The error that `wasm_pkg_client` reports for `text` as a registry name.
pub uninterp spec fn registry_error_of(text: Seq<char>) -> wasm_pkg_client::Error;

/// The error that `wasm_pkg_client` reports for `text` as a content digest.
pub uninterp spec fn content_digest_error_of(text: Seq<char>) -> wasm_pkg_client::Error;

/// The display text of a `wasm_pkg_client` error.
pub uninterp spec fn pkg_error_text(e: wasm_pkg_client::Error) -> Seq<char>;

/// The display text of the error that caused a `wasm_pkg_client` error, if
/// any.
pub uninterp spec fn pkg_error_cause(e: wasm_pkg_client::Error) -> Option<Seq<char>>;

/// The display text of a `semver` error.
pub uninterp spec fn semver_error_text(e: semver::Error) -> Seq<char>;

/// The display text of a content digest.
pub uninterp spec fn content_digest_display(d: wasm_pkg_client::ContentDigest) -> Seq<char>;

/// Parses a package reference with `<wasm_pkg_client::PackageRef as
/// FromStr>::from_str`, which splits the text at its first `:` and accepts it
/// exactly when both sides are kebab-case labels. The parsed reference is a
/// function of the text (`package_ref_of`).
#[verifier::external_body]
fn parse_package_ref(text: &str) -> (res: Result<wasm_pkg_client::PackageRef, wasm_pkg_client::Error>)
    ensures
        res is Ok <==> is_package_ref(text@),
        res matches Ok(r) ==> r == package_ref_of(text@),
        res matches Err(e) ==> e == package_ref_error_of(text@),
{
    text.parse()
}

/// Parses a version with `<semver::Version as FromStr>::from_str`, which
/// accepts exactly what `semver` calls a version (`parses_as_version`) and
/// never empty text. The parsed version is a function of the text
/// (`version_of`).
#[verifier::external_body]
fn parse_version(text: &str) -> (res: Result<semver::Version, semver::Error>)
    ensures
        res is Ok <==> parses_as_version(text@),
        text@.len() == 0 ==> res is Err,
        res matches Ok(v) ==> v == version_of(text@),
        res matches Err(e) ==> e == version_error_of(text@),
{
    text.parse()
}

/// Parses a registry name with `<wasm_pkg_client::Registry as
/// FromStr>::from_str`, which accepts exactly an HTTP authority
/// (`parses_as_registry`). The parsed registry is a function of the text
/// (`registry_of`).
#[verifier::external_body]
fn parse_registry(text: &str) -> (res: Result<wasm_pkg_client::Registry, wasm_pkg_client::Error>)
    ensures
        res is Ok <==> parses_as_registry(text@),
        res matches Ok(r) ==> r == registry_of(text@),
        res matches Err(e) ==> e == registry_error_of(text@),
{
    text.parse()
}

pub open spec fn opt_text(o: Option<String>) -> Option<Seq<char>> {
    match o {
        Some(s) => Some(s@),
        None => None,
    }
}

/// The text of the error that caused `error`, by `std::error::Error::source`
/// and `ToString` (`pkg_error_cause`). The parse errors of package
/// references carry at most one cause, which has none of its own.
#[verifier::external_body]
fn error_cause_text(error: &wasm_pkg_client::Error) -> (cause: Option<String>)
    ensures
        opt_text(cause) == pkg_error_cause(*error),
{
    std::error::Error::source(error).map(|cause| cause.to_string())
}

/// The display text of a `wasm_pkg_client` error, by `ToString`
/// (`pkg_error_text`).
#[verifier::external_body]
fn pkg_error_string(error: &wasm_pkg_client::Error) -> (text: String)
    ensures
        text@ == pkg_error_text(*error),
{
    error.to_string()
}

/// The display text of a `semver` error, by `ToString` (`semver_error_text`).
#[verifier::external_body]
fn semver_error_string(error: &semver::Error) -> (text: String)
    ensures
        text@ == semver_error_text(*error),
{
    error.to_string()
}

/// The display text of a content digest, by `ToString`
/// (`content_digest_display`).
#[verifier::external_body]
pub(crate) fn content_digest_string(digest: &wasm_pkg_client::ContentDigest) -> (text: String)
    ensures
        text@ == content_digest_display(*digest),
{
    digest.to_string()
}

/// `": "` and the cause's text, when there is a cause.
pub open spec fn cause_suffix(cause: Option<Seq<char>>) -> Seq<char> {
    match cause {
        Some(c) => ": "@ + c,
        None => Seq::<char>::empty(),
    }
}

pub open spec fn no_pin_message(package: Seq<char>) -> Seq<char> {
    "registry package `"@ + package + "` must pin an exact version (`namespace:name@version`)"@
}

pub open spec fn bad_ref_prefix(package: Seq<char>) -> Seq<char> {
    "package `"@ + package + "` is not a `namespace:name@version` reference: "@
}

pub open spec fn bad_version_prefix(package: Seq<char>) -> Seq<char> {
    "package `"@ + package + "` does not pin an exact semver version: "@
}

/// The refusal of a malformed package reference: the prefix, the parse
/// error, and its cause.
pub open spec fn bad_ref_message(package: Seq<char>, e: wasm_pkg_client::Error) -> Seq<char> {
    bad_ref_prefix(package) + pkg_error_text(e) + cause_suffix(pkg_error_cause(e))
}

/// The refusal of an inexact version: the prefix and the parse error.
pub open spec fn bad_version_message(package: Seq<char>, e: semver::Error) -> Seq<char> {
    bad_version_prefix(package) + semver_error_text(e)
}

/// The parts of `package` around its first `@`: name, then version.
pub open spec fn name_part(package: Seq<char>, at: int) -> Seq<char> {
    package.subrange(0, at)
}

pub open spec fn version_part(package: Seq<char>, at: int) -> Seq<char> {
    package.subrange(at + 1, package.len() as int)
}

fn first_index_of(s: &str, sep: char) -> (res: Option<usize>)
    ensures
        match res {
            Some(c) => is_first(s@, sep, c as int),
            None => forall|j: int| 0 <= j < s@.len() ==> s@[j] != sep,
        },
{
    let n = s.unicode_len();
    let mut i: usize = 0;
    while i < n
        invariant
            n == s@.len(),
            i <= n,
            forall|j: int| 0 <= j < i ==> s@[j] != sep,
        decreases n - i,
    {
        if s.get_char(i) == sep {
            return Some(i);
        }
        i += 1;
    }
    None
}

/// Splits an exact `namespace:name@version` reference; remote lookup never
/// resolves "latest". The name is what precedes the first `@`, the version
/// what follows it.
pub fn parse_package(package: &str) -> (res: Result<(wasm_pkg_client::PackageRef, semver::Version), String>)
    ensures
        res is Ok <==> exists|at: int|
            is_first(package@, '@', at) && is_package_ref(name_part(package@, at))
                && parses_as_version(version_part(package@, at)),
        (forall|j: int| 0 <= j < package@.len() ==> package@[j] != '@') ==> (res matches Err(e)
            && e@ == no_pin_message(package@)),
        forall|at: int|
            is_first(package@, '@', at) && !is_package_ref(name_part(package@, at)) ==> (
            res matches Err(e) && e@ == bad_ref_message(
                package@,
                package_ref_error_of(name_part(package@, at)),
            )),
        forall|at: int|
            is_first(package@, '@', at) && is_package_ref(name_part(package@, at))
                && !parses_as_version(version_part(package@, at)) ==> (res matches Err(e)
                && e@ == bad_version_message(package@, version_error_of(version_part(package@, at)))),
        forall|at: int|
            is_first(package@, '@', at) ==> (res matches Ok((r, v)) ==> r == package_ref_of(
                name_part(package@, at),
            ) && v == version_of(version_part(package@, at))),
{
    let at = match first_index_of(package, '@') {
        Some(at) => at,
        None => {
            return Err(
                String::from_str("registry package `").concat(package).concat(
                    "` must pin an exact version (`namespace:name@version`)",
                ),
            );
        },
    };
    let n = package.unicode_len();
    proof {
        assert forall|a: int| is_first(package@, '@', a) implies a == at as int by {
            if a < at {
                assert(package@[a] != '@');
            } else if a > at {
                assert(package@[at as int] != '@');
            }
        }
    }
    let name = package.substring_char(0, at);
    let version = package.substring_char(at + 1, n);
    let package_ref = match parse_package_ref(name) {
        Ok(r) => r,
        Err(error) => {
            let prefix = String::from_str("package `").concat(package).concat(
                "` is not a `namespace:name@version` reference: ",
            );
            let mut e = prefix.concat(pkg_error_string(&error).as_str());
            match error_cause_text(&error) {
                Some(cause) => {
                    e = e.concat(": ").concat(cause.as_str());
                },
                None => {
                    assert(e@ =~= e@ + Seq::<char>::empty());
                },
            }
            return Err(e);
        },
    };
    let version = match parse_version(version) {
        Ok(v) => v,
        Err(error) => {
            let prefix = String::from_str("package `").concat(package).concat(
                "` does not pin an exact semver version: ",
            );
            return Err(prefix.concat(semver_error_string(&error).as_str()));
        },
    };
    Ok((package_ref, version))
}


/// `package` pins an exact version of a well-formed reference.
pub open spec fn pins_exact_version(package: Seq<char>) -> bool {
    exists|at: int|
        is_first(package, '@', at) && is_package_ref(name_part(package, at)) && parses_as_version(
            version_part(package, at),
        )
}

pub open spec fn bad_registry_prefix(registry: Seq<char>) -> Seq<char> {
    "registry `"@ + registry + "` is not a valid name: "@
}

/// The refusal of a malformed registry name: the prefix and the parse error.
pub open spec fn bad_registry_message(registry: Seq<char>, e: wasm_pkg_client::Error) -> Seq<char> {
    bad_registry_prefix(registry) + pkg_error_text(e)
}

/// What one registry fetch is about: the exact package and version, and the
/// registry to ask, with its name.
pub struct FetchTarget {
    pub package: wasm_pkg_client::PackageRef,
    pub version: semver::Version,
    pub registry: wasm_pkg_client::Registry,
    pub registry_name: String,
}

/// Resolves what a fetch of `package` asks for: the exact reference, and the
/// registry `registry` names, or `default_registry` when none is named. A
/// malformed package or registry name refuses the fetch.
pub fn fetch_target(package: &str, registry: Option<&str>, default_registry: &str) -> (res: Result<FetchTarget, LoadError>)
    ensures
        ({
            let chosen = match registry {
                Some(r) => r@,
                None => default_registry@,
            };
            &&& res is Ok <==> pins_exact_version(package@) && parses_as_registry(chosen)
            &&& res matches Ok(t) ==> t.registry_name@ == chosen && t.registry == registry_of(chosen)
            &&& forall|at: int|
                is_first(package@, '@', at) ==> (res matches Ok(t) ==> t.package == package_ref_of(
                    name_part(package@, at),
                ) && t.version == version_of(version_part(package@, at)))
            &&& res matches Err(e) ==> e@ is Refused
            &&& (forall|j: int| 0 <= j < package@.len() ==> package@[j] != '@') ==> (res matches Err(
                e,
            ) && e@ == LoadFault::Refused(no_pin_message(package@)))
            &&& forall|at: int|
                is_first(package@, '@', at) && !is_package_ref(name_part(package@, at)) ==> (
                res matches Err(e) && e@ == LoadFault::Refused(
                    bad_ref_message(package@, package_ref_error_of(name_part(package@, at))),
                ))
            &&& forall|at: int|
                is_first(package@, '@', at) && is_package_ref(name_part(package@, at))
                    && !parses_as_version(version_part(package@, at)) ==> (res matches Err(e)
                    && e@ == LoadFault::Refused(
                    bad_version_message(package@, version_error_of(version_part(package@, at))),
                ))
            &&& pins_exact_version(package@) && !parses_as_registry(chosen) ==> (res matches Err(e)
                && e@ == LoadFault::Refused(bad_registry_message(chosen, registry_error_of(chosen))))
        }),
{
    let (package_ref, version) = match parse_package(package) {
        Ok(parts) => parts,
        Err(e) => {
            return Err(LoadError::Refused(e));
        },
    };
    let name = match registry {
        Some(r) => r,
        None => default_registry,
    };
    match parse_registry(name) {
        Ok(parsed) => Ok(
            FetchTarget {
                package: package_ref,
                version,
                registry: parsed,
                registry_name: String::from_str(name),
            },
        ),
        Err(error) => {
            let prefix = String::from_str("registry `").concat(name).concat("` is not a valid name: ");
            let e = prefix.concat(pkg_error_string(&error).as_str());
            Err(LoadError::Refused(e))
        },
    }
}

pub open spec fn content_mismatch_message(package: Seq<char>, resolved: Seq<char>, digest: Seq<char>) -> Seq<char> {
    "package `"@ + package + "` content hashes to "@ + resolved + ", not the registry digest "@
        + digest
}

/// Checks fetched bytes against the registry's content digest: the registry
/// misdelivered when they differ, and a retry may serve honest bytes.
pub fn verify_content(package: &str, bytes: &[u8], digest: &str) -> (res: Result<(), LoadError>)
    ensures
        res is Ok <==> digest@ == digest_text(sha256_of(bytes@)),
        res matches Err(e) ==> e@ == LoadFault::Unavailable(
            content_mismatch_message(package@, digest_text(sha256_of(bytes@)), digest@),
        ),
{
    let resolved = sha256_digest(bytes);
    let expected = String::from_str(digest);
    if resolved == expected {
        Ok(())
    } else {
        Err(
            LoadError::Unavailable(
                String::from_str("package `").concat(package).concat("` content hashes to ").concat(
                    resolved.as_str(),
                ).concat(", not the registry digest ").concat(digest),
            ),
        )
    }
}

/// Whether stored bytes may be served for `digest`: only when they hash to
/// it; a poisoned entry must never become code.
pub fn stored_content_matches(bytes: &[u8], digest: &str) -> (ok: bool)
    ensures
        ok == (digest@ == digest_text(sha256_of(bytes@))),
{
    let resolved = sha256_digest(bytes);
    let expected = String::from_str(digest);
    resolved == expected
}


pub open spec fn resolving_message(package: Seq<char>, error: Seq<char>) -> Seq<char> {
    "resolving `"@ + package + "`: "@ + error
}

/// After the registry failed to resolve a release (`error` is its text): a
/// transport failure (endpoint unreachable, registry misbehaving) falls back
/// to the stored release record (`Ok`); an authoritative answer (not found,
/// yanked, malformed input) refuses, since retrying cannot succeed.
pub fn release_error(package: &str, error: &str, transport_failure: bool) -> (res: Result<(), LoadError>)
    ensures
        res is Ok <==> transport_failure,
        res matches Err(e) ==> e@ == LoadFault::Refused(resolving_message(package@, error@)),
{
    if transport_failure {
        Ok(())
    } else {
        Err(LoadError::Refused(String::from_str("resolving `").concat(package).concat("`: ").concat(error)))
    }
}

/// Parses a content digest with `<wasm_pkg_client::ContentDigest as
/// FromStr>::from_str`, which accepts exactly the `sha256:` scheme followed
/// by 64 ASCII hex characters of either case (Unicode lowercasing turns no
/// other character into an ASCII hex digit). The parsed digest is a function
/// of the text (`content_digest_of`); it displays as the scheme and the hex
/// in lowercase.
#[verifier::external_body]
fn parse_content_digest(text: &str) -> (res: Result<wasm_pkg_client::ContentDigest, wasm_pkg_client::Error>)
    ensures
        res is Ok <==> is_digest(text@),
        res matches Ok(d) ==> d == content_digest_of(text@) && content_digest_display(d) == canonical(
            text@,
        ),
        res matches Err(e) ==> e == content_digest_error_of(text@),
{
    text.parse()
}

pub open spec fn malformed_record_prefix(package: Seq<char>) -> Seq<char> {
    "stored release record for `"@ + package + "` carries a malformed digest: "@
}

/// The unavailability of a malformed stored record: the prefix and the parse
/// error.
pub open spec fn malformed_record_message(package: Seq<char>, e: wasm_pkg_client::Error) -> Seq<char> {
    malformed_record_prefix(package) + pkg_error_text(e)
}

/// The fallback when the registry is unreachable: the stored release record's
/// digest, and its text. No record leaves the package unavailable (`error`
/// is the registry's failure); a record must carry a well-formed digest.
pub fn stored_release(package: &str, error: &str, record: Option<String>) -> (res: Result<(wasm_pkg_client::ContentDigest, String), LoadError>)
    ensures
        record is None ==> (res matches Err(e) && e@ == LoadFault::Unavailable(
            resolving_message(package@, error@),
        )),
        record matches Some(d) ==> (res is Ok <==> is_digest(d@)) && (res matches Ok((c, text))
            ==> c == content_digest_of(d@) && text@ == content_digest_display(c) && text@
            == canonical(d@)) && (res matches Err(e) ==> e@ == LoadFault::Unavailable(
            malformed_record_message(package@, content_digest_error_of(d@)),
        )),
{
    match record {
        None => Err(
            LoadError::Unavailable(String::from_str("resolving `").concat(package).concat("`: ").concat(error)),
        ),
        Some(digest) => match parse_content_digest(digest.as_str()) {
            Ok(parsed) => {
                let text = content_digest_string(&parsed);
                Ok((parsed, text))
            },
            Err(e) => {
                let prefix = String::from_str("stored release record for `").concat(package).concat(
                    "` carries a malformed digest: ",
                );
                Err(LoadError::Unavailable(prefix.concat(pkg_error_string(&e).as_str())))
            },
        },
    }
}

} // verus!
