//! One registry fetch, step by step: resolve the release (falling back to the
//! stored release record on a transport failure), serve verified bytes from
//! the store, or download, verify and cache them. The store is a byte cache
//! and offline fallback, never the authority: its failures degrade a fetch,
//! never refuse it. The caller performs each action and hands back its
//! outcome.

use vstd::prelude::*;
use crate::digest::{canonical, digest_text, is_digest, sha256_digest, sha256_of};
use crate::loader::{LoadError, LoadFault};
use crate::package::{
    content_digest_error_of, content_digest_of, content_mismatch_message, malformed_record_message,
    resolving_message, stored_release,
};

verus! {

/// The kind of a `wasm_pkg_client` error, as far as a fetch needs it.
#[derive(Clone, Copy, Debug, PartialEq, Eq, Structural)]
pub enum PkgErrorClass {
    Registry,
    RegistryMetadata,
    Io,
    Other,
}

/// The kind of error `e` is: which variant of `wasm_pkg_client::Error`.
pub uninterp spec fn error_class_of(e: wasm_pkg_client::Error) -> PkgErrorClass;

/// Tells the variants of `wasm_pkg_client::Error` apart: `RegistryError`,
/// `RegistryMetadataError`, `IoError`, and every other one.
#[verifier::external_body]
fn classify(error: &wasm_pkg_client::Error) -> (c: PkgErrorClass)
    ensures
        c == error_class_of(*error),
{
    match error {
        wasm_pkg_client::Error::RegistryError(_) => PkgErrorClass::Registry,
        wasm_pkg_client::Error::RegistryMetadataError(_) => PkgErrorClass::RegistryMetadata,
        wasm_pkg_client::Error::IoError(_) => PkgErrorClass::Io,
        _ => PkgErrorClass::Other,
    }
}

/// Whether a resolution error is a transport failure (endpoint unreachable,
/// registry misbehaving) rather than an authoritative registry answer (not
/// found, yanked, malformed input), which a stored record must never paper
/// over.
pub fn is_network_failure(error: &wasm_pkg_client::Error) -> (b: bool)
    ensures
        b == !(error_class_of(*error) is Other),
{
    match classify(error) {
        PkgErrorClass::Other => false,
        _ => true,
    }
}

/// Why the registry did not resolve a release: the error's text, and whether
/// it was a transport failure.
#[derive(Debug)]
pub struct ResolveFailure {
    pub text: String,
    pub transport: bool,
}

/// Why downloading the content failed: opening the stream, or reading it.
#[derive(Debug)]
pub enum DownloadFailure {
    Fetching(String),
    Reading(String),
}

/// What a fetch is waiting for.
#[derive(Debug)]
pub enum FetchPhase {
    /// The registry's release for the package version.
    AwaitRelease,
    /// The store's recording of the resolved release `digest`.
    AwaitRecordWrite { digest: String },
    /// The stored release record, after the registry failed with `error`.
    AwaitRecordRead { error: String },
    /// The release built from the stored record, whose digest text is
    /// `digest`.
    AwaitAdoption { digest: String },
    /// The store's bytes for `digest`.
    AwaitStoredContent { digest: String },
    /// The registry's content, to be checked against `digest`.
    AwaitDownload { digest: String },
    /// The store's caching of the verified `bytes`.
    AwaitCacheWrite { bytes: Vec<u8> },
    /// Nothing: the fetch has finished.
    Finished,
}

/// A `FetchPhase` as values.
pub enum FetchPhaseView {
    AwaitRelease,
    AwaitRecordWrite { digest: Seq<char> },
    AwaitRecordRead { error: Seq<char> },
    AwaitAdoption { digest: Seq<char> },
    AwaitStoredContent { digest: Seq<char> },
    AwaitDownload { digest: Seq<char> },
    AwaitCacheWrite { bytes: Seq<u8> },
    Finished,
}

impl View for FetchPhase {
    type V = FetchPhaseView;

    open spec fn view(&self) -> FetchPhaseView {
        match self {
            FetchPhase::AwaitRelease => FetchPhaseView::AwaitRelease,
            FetchPhase::AwaitRecordWrite { digest } => FetchPhaseView::AwaitRecordWrite { digest: digest@ },
            FetchPhase::AwaitRecordRead { error } => FetchPhaseView::AwaitRecordRead { error: error@ },
            FetchPhase::AwaitAdoption { digest } => FetchPhaseView::AwaitAdoption { digest: digest@ },
            FetchPhase::AwaitStoredContent { digest } => FetchPhaseView::AwaitStoredContent { digest: digest@ },
            FetchPhase::AwaitDownload { digest } => FetchPhaseView::AwaitDownload { digest: digest@ },
            FetchPhase::AwaitCacheWrite { bytes } => FetchPhaseView::AwaitCacheWrite { bytes: bytes@ },
            FetchPhase::Finished => FetchPhaseView::Finished,
        }
    }
}

/// One fetch of `package` from a registry.
#[derive(Debug)]
pub struct RegistryFetch {
    pub package: String,
    pub phase: FetchPhase,
}

/// A `RegistryFetch` as values.
pub struct FetchView {
    pub package: Seq<char>,
    pub phase: FetchPhaseView,
}

impl View for RegistryFetch {
    type V = FetchView;

    open spec fn view(&self) -> FetchView {
        FetchView { package: self.package@, phase: self.phase@ }
    }
}

/// The outcome of a fetch action.
#[derive(Debug)]
pub enum FetchEvent {
    /// The resolved release's digest text, or why resolution failed.
    Resolved(Result<String, ResolveFailure>),
    /// Whether the store recorded the release (the text of its failure).
    RecordWritten(Result<(), String>),
    /// The stored release record's digest, if any, or the store's failure.
    RecordRead(Result<Option<String>, String>),
    /// The release was built from the stored record.
    Adopted,
    /// The store's bytes, if any, or the store's failure.
    ContentRead(Result<Option<Vec<u8>>, String>),
    /// The downloaded bytes, or why the download failed.
    Downloaded(Result<Vec<u8>, DownloadFailure>),
    /// Whether the store cached the bytes (the text of its failure).
    ContentWritten(Result<(), String>),
}

/// A `FetchEvent` as values.
pub enum FetchEventView {
    Resolved(Result<Seq<char>, (Seq<char>, bool)>),
    RecordWritten(Result<(), Seq<char>>),
    RecordRead(Result<Option<Seq<char>>, Seq<char>>),
    Adopted,
    ContentRead(Result<Option<Seq<u8>>, Seq<char>>),
    Downloaded(Result<Seq<u8>, DownloadFailureView>),
    ContentWritten(Result<(), Seq<char>>),
}

/// A `DownloadFailure` as text.
pub enum DownloadFailureView {
    Fetching(Seq<char>),
    Reading(Seq<char>),
}

pub open spec fn unit_result_view(r: Result<(), String>) -> Result<(), Seq<char>> {
    match r {
        Ok(()) => Ok(()),
        Err(e) => Err(e@),
    }
}

impl View for FetchEvent {
    type V = FetchEventView;

    open spec fn view(&self) -> FetchEventView {
        match self {
            FetchEvent::Resolved(r) => FetchEventView::Resolved(
                match r {
                    Ok(d) => Ok(d@),
                    Err(f) => Err((f.text@, f.transport)),
                },
            ),
            FetchEvent::RecordWritten(r) => FetchEventView::RecordWritten(unit_result_view(*r)),
            FetchEvent::RecordRead(r) => FetchEventView::RecordRead(
                match r {
                    Ok(Some(d)) => Ok(Some(d@)),
                    Ok(None) => Ok(None),
                    Err(e) => Err(e@),
                },
            ),
            FetchEvent::Adopted => FetchEventView::Adopted,
            FetchEvent::ContentRead(r) => FetchEventView::ContentRead(
                match r {
                    Ok(Some(b)) => Ok(Some(b@)),
                    Ok(None) => Ok(None),
                    Err(e) => Err(e@),
                },
            ),
            FetchEvent::Downloaded(r) => FetchEventView::Downloaded(
                match r {
                    Ok(b) => Ok(b@),
                    Err(DownloadFailure::Fetching(t)) => Err(DownloadFailureView::Fetching(t@)),
                    Err(DownloadFailure::Reading(t)) => Err(DownloadFailureView::Reading(t@)),
                },
            ),
            FetchEvent::ContentWritten(r) => FetchEventView::ContentWritten(unit_result_view(*r)),
        }
    }
}

/// What the fetch asks for next.
#[derive(Debug)]
pub enum FetchAction {
    /// Ask the registry for the release.
    ResolveRelease,
    /// Record the resolved release's digest in the store.
    WriteRecord(String),
    /// Read the stored release record.
    ReadRecord,
    /// Build the release from the stored record's digest.
    Adopt(wasm_pkg_client::ContentDigest),
    /// Read the store's bytes for this digest.
    ReadContent(String),
    /// Download the release's content from the registry.
    Download,
    /// Cache these verified bytes in the store under this digest.
    WriteContent(String, Vec<u8>),
    /// The fetch is over, with these bytes or this error.
    Finish(Result<Vec<u8>, LoadError>),
}

/// A `FetchAction` as values.
pub enum FetchActionView {
    ResolveRelease,
    WriteRecord(Seq<char>),
    ReadRecord,
    Adopt(wasm_pkg_client::ContentDigest),
    ReadContent(Seq<char>),
    Download,
    WriteContent(Seq<char>, Seq<u8>),
    Finish(Result<Seq<u8>, LoadFault>),
}

impl View for FetchAction {
    type V = FetchActionView;

    open spec fn view(&self) -> FetchActionView {
        match self {
            FetchAction::ResolveRelease => FetchActionView::ResolveRelease,
            FetchAction::WriteRecord(d) => FetchActionView::WriteRecord(d@),
            FetchAction::ReadRecord => FetchActionView::ReadRecord,
            FetchAction::Adopt(c) => FetchActionView::Adopt(*c),
            FetchAction::ReadContent(d) => FetchActionView::ReadContent(d@),
            FetchAction::Download => FetchActionView::Download,
            FetchAction::WriteContent(d, b) => FetchActionView::WriteContent(d@, b@),
            FetchAction::Finish(r) => FetchActionView::Finish(
                match r {
                    Ok(b) => Ok(b@),
                    Err(e) => Err(e@),
                },
            ),
        }
    }
}

pub open spec fn fetching_message(package: Seq<char>, error: Seq<char>) -> Seq<char> {
    "fetching `"@ + package + "`: "@ + error
}

pub open spec fn reading_message(package: Seq<char>, error: Seq<char>) -> Seq<char> {
    "reading `"@ + package + "`: "@ + error
}

/// A fetch that has finished with `r`.
pub open spec fn fetch_finish(f: FetchView, r: Result<Seq<u8>, LoadFault>) -> (FetchView, FetchActionView) {
    (FetchView { phase: FetchPhaseView::Finished, ..f }, FetchActionView::Finish(r))
}

/// A fetch that waits for `phase` after asking for `a`.
pub open spec fn fetch_ask(f: FetchView, phase: FetchPhaseView, a: FetchActionView) -> (FetchView, FetchActionView) {
    (FetchView { phase, ..f }, a)
}

/// The bytes `b` hash to `digest`.
pub open spec fn hashes_to(b: Seq<u8>, digest: Seq<char>) -> bool {
    digest_text(sha256_of(b)) == digest
}

impl FetchView {
    /// The event answers the action that the fetch asked for.
    pub open spec fn accepts(self, e: FetchEventView) -> bool {
        match self.phase {
            FetchPhaseView::AwaitRelease => e is Resolved,
            FetchPhaseView::AwaitRecordWrite { .. } => e is RecordWritten,
            FetchPhaseView::AwaitRecordRead { .. } => e is RecordRead,
            FetchPhaseView::AwaitAdoption { .. } => e is Adopted,
            FetchPhaseView::AwaitStoredContent { .. } => e is ContentRead,
            FetchPhaseView::AwaitDownload { .. } => e is Downloaded,
            FetchPhaseView::AwaitCacheWrite { .. } => e is ContentWritten,
            FetchPhaseView::Finished => false,
        }
    }

    /// One step of the fetch: the answer to `e`.
    pub open spec fn step(self, e: FetchEventView) -> (FetchView, FetchActionView) {
        match self.phase {
            FetchPhaseView::AwaitRelease => match e {
                FetchEventView::Resolved(Ok(digest)) => fetch_ask(
                    self,
                    FetchPhaseView::AwaitRecordWrite { digest },
                    FetchActionView::WriteRecord(digest),
                ),
                FetchEventView::Resolved(Err((text, transport))) => if transport {
                    fetch_ask(self, FetchPhaseView::AwaitRecordRead { error: text }, FetchActionView::ReadRecord)
                } else {
                    fetch_finish(self, Err(LoadFault::Refused(resolving_message(self.package, text))))
                },
                _ => (self, FetchActionView::ResolveRelease),
            },
            FetchPhaseView::AwaitRecordWrite { digest } => fetch_ask(
                self,
                FetchPhaseView::AwaitStoredContent { digest },
                FetchActionView::ReadContent(digest),
            ),
            FetchPhaseView::AwaitRecordRead { error } => match e {
                FetchEventView::RecordRead(Err(t)) => fetch_finish(self, Err(LoadFault::Unavailable(t))),
                FetchEventView::RecordRead(Ok(None)) => fetch_finish(
                    self,
                    Err(LoadFault::Unavailable(resolving_message(self.package, error))),
                ),
                FetchEventView::RecordRead(Ok(Some(d))) => if is_digest(d) {
                    fetch_ask(
                        self,
                        FetchPhaseView::AwaitAdoption { digest: canonical(d) },
                        FetchActionView::Adopt(content_digest_of(d)),
                    )
                } else {
                    fetch_finish(
                        self,
                        Err(LoadFault::Unavailable(malformed_record_message(self.package, content_digest_error_of(d)))),
                    )
                },
                _ => (self, FetchActionView::ResolveRelease),
            },
            FetchPhaseView::AwaitAdoption { digest } => fetch_ask(
                self,
                FetchPhaseView::AwaitStoredContent { digest },
                FetchActionView::ReadContent(digest),
            ),
            FetchPhaseView::AwaitStoredContent { digest } => match e {
                FetchEventView::ContentRead(Ok(Some(b))) => if hashes_to(b, digest) {
                    fetch_finish(self, Ok(b))
                } else {
                    fetch_ask(self, FetchPhaseView::AwaitDownload { digest }, FetchActionView::Download)
                },
                _ => fetch_ask(self, FetchPhaseView::AwaitDownload { digest }, FetchActionView::Download),
            },
            FetchPhaseView::AwaitDownload { digest } => match e {
                FetchEventView::Downloaded(Ok(b)) => if hashes_to(b, digest) {
                    fetch_ask(self, FetchPhaseView::AwaitCacheWrite { bytes: b }, FetchActionView::WriteContent(digest, b))
                } else {
                    fetch_finish(
                        self,
                        Err(LoadFault::Unavailable(content_mismatch_message(self.package, digest_text(sha256_of(b)), digest))),
                    )
                },
                FetchEventView::Downloaded(Err(DownloadFailureView::Fetching(t))) => fetch_finish(
                    self,
                    Err(LoadFault::Unavailable(fetching_message(self.package, t))),
                ),
                FetchEventView::Downloaded(Err(DownloadFailureView::Reading(t))) => fetch_finish(
                    self,
                    Err(LoadFault::Unavailable(reading_message(self.package, t))),
                ),
                _ => (self, FetchActionView::ResolveRelease),
            },
            FetchPhaseView::AwaitCacheWrite { bytes } => fetch_finish(self, Ok(bytes)),
            FetchPhaseView::Finished => (self, FetchActionView::ResolveRelease),
        }
    }
}

pub open spec fn fetch_views(r: (RegistryFetch, FetchAction)) -> (FetchView, FetchActionView) {
    (r.0@, r.1@)
}

impl RegistryFetch {
    /// Starts a fetch of `package`: the release is resolved first.
    pub fn start(package: &str) -> (res: (RegistryFetch, FetchAction))
        ensures
            res.0@ == (FetchView { package: package@, phase: FetchPhaseView::AwaitRelease }),
            res.1@ == FetchActionView::ResolveRelease,
    {
        (RegistryFetch { package: String::from_str(package), phase: FetchPhase::AwaitRelease }, FetchAction::ResolveRelease)
    }

    /// Whether the fetch has finished.
    pub fn is_finished(&self) -> (b: bool)
        ensures
            b == (self@.phase is Finished),
    {
        match self.phase {
            FetchPhase::Finished => true,
            _ => false,
        }
    }

    fn finish_with(self, r: Result<Vec<u8>, LoadError>) -> (res: (RegistryFetch, FetchAction))
        ensures
            res.0@ == (FetchView { phase: FetchPhaseView::Finished, ..self@ }),
            res.1@ == FetchActionView::Finish(
                match r {
                    Ok(b) => Ok(b@),
                    Err(e) => Err(e@),
                },
            ),
    {
        (RegistryFetch { phase: FetchPhase::Finished, ..self }, FetchAction::Finish(r))
    }

    /// Takes the outcome of the action the fetch last asked for, and answers
    /// with the next action.
    pub fn step(self, event: FetchEvent) -> (res: (RegistryFetch, FetchAction))
        requires
            self@.accepts(event@),
        ensures
            fetch_views(res) == self@.step(event@),
    {
        match self.phase {
            FetchPhase::AwaitRelease => match event {
                FetchEvent::Resolved(Ok(digest)) => {
                    let recorded = digest.clone();
                    (RegistryFetch { phase: FetchPhase::AwaitRecordWrite { digest }, ..self }, FetchAction::WriteRecord(recorded))
                },
                FetchEvent::Resolved(Err(failure)) => {
                    if failure.transport {
                        (RegistryFetch { phase: FetchPhase::AwaitRecordRead { error: failure.text }, ..self }, FetchAction::ReadRecord)
                    } else {
                        let m = String::from_str("resolving `").concat(self.package.as_str()).concat("`: ").concat(
                            failure.text.as_str(),
                        );
                        self.finish_with(Err(LoadError::Refused(m)))
                    }
                },
                _ => {
                    proof { assert(false); }
                    (RegistryFetch { phase: FetchPhase::AwaitRelease, ..self }, FetchAction::ResolveRelease)
                },
            },
            FetchPhase::AwaitRecordWrite { digest } => {
                // The store only caches: whether it recorded the release changes nothing.
                let read = digest.clone();
                (RegistryFetch { phase: FetchPhase::AwaitStoredContent { digest }, ..self }, FetchAction::ReadContent(read))
            },
            FetchPhase::AwaitRecordRead { error } => match event {
                FetchEvent::RecordRead(Err(t)) => {
                    (RegistryFetch { phase: FetchPhase::Finished, ..self }, FetchAction::Finish(Err(LoadError::Unavailable(t))))
                },
                FetchEvent::RecordRead(Ok(record)) => {
                    match stored_release(self.package.as_str(), error.as_str(), record) {
                        Ok((parsed, digest)) => (RegistryFetch { phase: FetchPhase::AwaitAdoption { digest }, ..self }, FetchAction::Adopt(parsed)),
                        Err(e) => (RegistryFetch { phase: FetchPhase::Finished, ..self }, FetchAction::Finish(Err(e))),
                    }
                },
                _ => {
                    proof { assert(false); }
                    (RegistryFetch { phase: FetchPhase::AwaitRecordRead { error }, ..self }, FetchAction::ResolveRelease)
                },
            },
            FetchPhase::AwaitAdoption { digest } => {
                let read = digest.clone();
                (RegistryFetch { phase: FetchPhase::AwaitStoredContent { digest }, ..self }, FetchAction::ReadContent(read))
            },
            FetchPhase::AwaitStoredContent { digest } => {
                let stored = match event {
                    FetchEvent::ContentRead(Ok(Some(bytes))) => Some(bytes),
                    _ => None,
                };
                match stored {
                    Some(bytes) => {
                        let resolved = sha256_digest(bytes.as_slice());
                        if resolved == digest {
                            (RegistryFetch { phase: FetchPhase::Finished, ..self }, FetchAction::Finish(Ok(bytes)))
                        } else {
                            // A poisoned entry must never become code; download afresh.
                            (RegistryFetch { phase: FetchPhase::AwaitDownload { digest }, ..self }, FetchAction::Download)
                        }
                    },
                    // A miss or an unreadable store: download afresh.
                    None => (RegistryFetch { phase: FetchPhase::AwaitDownload { digest }, ..self }, FetchAction::Download),
                }
            },
            FetchPhase::AwaitDownload { digest } => match event {
                FetchEvent::Downloaded(Ok(bytes)) => {
                    let resolved = sha256_digest(bytes.as_slice());
                    if resolved == digest {
                        let cached = vstd::slice::slice_to_vec(bytes.as_slice());
                        (RegistryFetch { phase: FetchPhase::AwaitCacheWrite { bytes }, ..self }, FetchAction::WriteContent(digest, cached))
                    } else {
                        let m = String::from_str("package `").concat(self.package.as_str()).concat("` content hashes to ").concat(
                            resolved.as_str(),
                        ).concat(", not the registry digest ").concat(digest.as_str());
                        (RegistryFetch { phase: FetchPhase::Finished, ..self }, FetchAction::Finish(Err(LoadError::Unavailable(m))))
                    }
                },
                FetchEvent::Downloaded(Err(DownloadFailure::Fetching(t))) => {
                    let m = String::from_str("fetching `").concat(self.package.as_str()).concat("`: ").concat(t.as_str());
                    (RegistryFetch { phase: FetchPhase::Finished, ..self }, FetchAction::Finish(Err(LoadError::Unavailable(m))))
                },
                FetchEvent::Downloaded(Err(DownloadFailure::Reading(t))) => {
                    let m = String::from_str("reading `").concat(self.package.as_str()).concat("`: ").concat(t.as_str());
                    (RegistryFetch { phase: FetchPhase::Finished, ..self }, FetchAction::Finish(Err(LoadError::Unavailable(m))))
                },
                _ => {
                    proof { assert(false); }
                    (RegistryFetch { phase: FetchPhase::AwaitDownload { digest }, ..self }, FetchAction::ResolveRelease)
                },
            },
            FetchPhase::AwaitCacheWrite { bytes } => {
                // Failing to fill the cache degrades nothing.
                (RegistryFetch { phase: FetchPhase::Finished, ..self }, FetchAction::Finish(Ok(bytes)))
            },
            FetchPhase::Finished => {
                proof { assert(false); }
                (RegistryFetch { phase: FetchPhase::Finished, ..self }, FetchAction::ResolveRelease)
            },
        }
    }
}


/// The store's failures degrade a fetch and never decide it: a failed record
/// or cache write goes on as a successful one, an unreadable store is a miss,
/// and an unreadable release record leaves the package unavailable, never
/// refused.
pub proof fn store_failures_degrade(f: FetchView, t: Seq<char>)
    ensures
        f.phase is AwaitRecordWrite ==> f.step(FetchEventView::RecordWritten(Err(t))) == f.step(
            FetchEventView::RecordWritten(Ok(())),
        ),
        f.phase is AwaitStoredContent ==> f.step(FetchEventView::ContentRead(Err(t))) == f.step(
            FetchEventView::ContentRead(Ok(None)),
        ),
        f.phase is AwaitCacheWrite ==> f.step(FetchEventView::ContentWritten(Err(t))) == f.step(
            FetchEventView::ContentWritten(Ok(())),
        ),
        f.phase is AwaitRecordRead ==> f.step(FetchEventView::RecordRead(Err(t))).1
            == FetchActionView::Finish(Err(LoadFault::Unavailable(t))),
{
}

/// Only an authoritative registry answer refuses a fetch, and a stored
/// record never papers over it: every refusal comes from a resolution
/// failure that was not a transport failure, which is answered without
/// reading the store.
pub proof fn only_authoritative_answers_refuse(f: FetchView, e: FetchEventView, next: FetchView, a: FetchActionView)
    requires
        f.accepts(e),
        (next, a) == f.step(e),
    ensures
        a matches FetchActionView::Finish(Err(LoadFault::Refused(_))) ==> (f.phase is AwaitRelease
            && (e matches FetchEventView::Resolved(Err((_, transport))) && !transport)),
        f.phase is AwaitRelease ==> (e matches FetchEventView::Resolved(Err((text, transport)))
            ==> (transport <==> a == FetchActionView::ReadRecord)),
{
}

/// Served bytes always hash to the release digest: stored bytes are served
/// exactly when they do, and downloaded bytes are cached and served only
/// when they do.
pub proof fn served_bytes_match_digest(f: FetchView, b: Seq<u8>)
    ensures
        f.phase matches FetchPhaseView::AwaitStoredContent { digest } ==> (f.step(
            FetchEventView::ContentRead(Ok(Some(b))),
        ).1 == FetchActionView::Finish(Ok(b)) <==> hashes_to(b, digest)),
        f.phase matches FetchPhaseView::AwaitDownload { digest } ==> ((f.step(
            FetchEventView::Downloaded(Ok(b)),
        ).1 is WriteContent) <==> hashes_to(b, digest)),
        f.phase matches FetchPhaseView::AwaitDownload { digest } ==> (hashes_to(b, digest) ==> ({
            let cached = f.step(FetchEventView::Downloaded(Ok(b))).0;
            cached.step(FetchEventView::ContentWritten(Ok(()))).1 == FetchActionView::Finish(Ok(b))
        })),
{
}

/// The offline fallback adopts exactly the stored record's digest, when it
/// is well formed, and looks its content up under the canonical spelling.
pub proof fn fallback_adopts_recorded_digest(f: FetchView, d: Seq<char>)
    requires
        f.phase is AwaitRecordRead,
        is_digest(d),
    ensures
        f.step(FetchEventView::RecordRead(Ok(Some(d)))).1 == FetchActionView::Adopt(content_digest_of(d)),
        f.step(FetchEventView::RecordRead(Ok(Some(d)))).0.step(FetchEventView::Adopted).1
            == FetchActionView::ReadContent(canonical(d)),
{
}

} // verus!
