//! The load path: what the loader answers and asks for, step by step, as a
//! function of what the runtime's registry, the acquirers and the admission
//! seam reported. The caller performs each action and hands back its outcome.

use vstd::prelude::*;
use crate::digest::{
    canonicalize, canonicalize_spec, computed_digest_is_canonical, digest_text, sha256_digest,
    sha256_of,
};

verus! {

/// Why a load failed, split by remedy.
#[derive(Debug)]
pub enum LoadError {
    /// A bad request or pin, or an authoritative "no": retrying cannot help.
    Refused(String),
    /// An acquisition failure that a retry might clear.
    Unavailable(String),
    /// The identity is already active with other (or unknown) content.
    AlreadyActive(String),
    /// A failure of the runtime itself.
    Internal(String),
}

/// A `LoadError` as text.
pub enum LoadFault {
    Refused(Seq<char>),
    Unavailable(Seq<char>),
    AlreadyActive(Seq<char>),
    Internal(Seq<char>),
}

impl View for LoadError {
    type V = LoadFault;

    open spec fn view(&self) -> LoadFault {
        match self {
            LoadError::Refused(d) => LoadFault::Refused(d@),
            LoadError::Unavailable(d) => LoadFault::Unavailable(d@),
            LoadError::AlreadyActive(d) => LoadFault::AlreadyActive(d@),
            LoadError::Internal(d) => LoadFault::Internal(d@),
        }
    }
}

pub open spec fn no_plugins_message(package: Seq<char>) -> Seq<char> {
    "loading `"@ + package + "` needs the plugins capability, which this runtime does not have"@
}

impl LoadError {
    /// The refusal of a load on a runtime that installed no loader.
    pub fn no_plugins(package: &str) -> (e: LoadError)
        ensures
            e@ == LoadFault::Refused(no_plugins_message(package@)),
    {
        LoadError::Refused(
            String::from_str("loading `").concat(package).concat(
                "` needs the plugins capability, which this runtime does not have",
            ),
        )
    }
}

/// Why the runtime did not admit a component.
#[derive(Debug)]
pub enum AdmitError {
    /// Another component already holds the identity.
    AlreadyRegistered(String),
    /// A failure of the runtime itself.
    Internal(String),
}

/// An `AdmitError` as text.
pub enum AdmitFault {
    AlreadyRegistered(Seq<char>),
    Internal(Seq<char>),
}

impl View for AdmitError {
    type V = AdmitFault;

    open spec fn view(&self) -> AdmitFault {
        match self {
            AdmitError::AlreadyRegistered(d) => AdmitFault::AlreadyRegistered(d@),
            AdmitError::Internal(d) => AdmitFault::Internal(d@),
        }
    }
}

/// The load error that an admission failure becomes.
pub open spec fn admit_fault_to_load(f: AdmitFault) -> LoadFault {
    match f {
        AdmitFault::AlreadyRegistered(d) => LoadFault::AlreadyActive(d),
        AdmitFault::Internal(d) => LoadFault::Internal(d),
    }
}

impl AdmitError {
    /// The load error that an admission failure becomes.
    pub fn into_load_error(self) -> (e: LoadError)
        ensures
            e@ == admit_fault_to_load(self@),
    {
        match self {
            AdmitError::AlreadyRegistered(d) => LoadError::AlreadyActive(d),
            AdmitError::Internal(d) => LoadError::Internal(d),
        }
    }
}

pub open spec fn opt_view(o: Option<String>) -> Option<Seq<char>> {
    match o {
        Some(s) => Some(s@),
        None => None,
    }
}

/// The registration state of an identity, with any recorded digest.
#[derive(Debug)]
pub enum Registration {
    Absent,
    Active(Option<String>),
}

/// A `Registration` as text.
pub enum RegistrationView {
    Absent,
    Active(Option<Seq<char>>),
}

impl View for Registration {
    type V = RegistrationView;

    open spec fn view(&self) -> RegistrationView {
        match self {
            Registration::Absent => RegistrationView::Absent,
            Registration::Active(d) => RegistrationView::Active(opt_view(*d)),
        }
    }
}

/// The recorded digest of a registration: only an active one has any.
pub open spec fn recorded_digest(r: RegistrationView) -> Option<Seq<char>> {
    match r {
        RegistrationView::Active(d) => d,
        RegistrationView::Absent => None,
    }
}

impl Registration {
    /// The recorded digest, when active with one.
    pub fn digest(self) -> (d: Option<String>)
        ensures
            opt_view(d) == recorded_digest(self@),
    {
        match self {
            Registration::Active(digest) => digest,
            Registration::Absent => None,
        }
    }
}

/// Where one load's component bytes come from.
#[derive(Clone, Debug)]
pub enum Origin {
    /// A package registry; `None` selects the acquirer's default.
    Registry(Option<String>),
    /// A location-relative component path.
    Path(String),
}

/// An `Origin` as text.
pub enum OriginView {
    Registry(Option<Seq<char>>),
    Path(Seq<char>),
}

impl View for Origin {
    type V = OriginView;

    open spec fn view(&self) -> OriginView {
        match self {
            Origin::Registry(r) => OriginView::Registry(opt_view(*r)),
            Origin::Path(p) => OriginView::Path(p@),
        }
    }
}

/// A loaded plugin: its routed identity and the digest of its content.
#[derive(Clone, Debug)]
pub struct Plugin {
    id: String,
    digest: String,
}

/// A `Plugin` as text.
pub struct PluginView {
    pub id: Seq<char>,
    pub digest: Seq<char>,
}

impl View for Plugin {
    type V = PluginView;

    closed spec fn view(&self) -> PluginView {
        PluginView { id: self.id@, digest: self.digest@ }
    }
}

impl Plugin {
    /// Routed identity for host-mediated dispatch.
    pub fn id(&self) -> (id: &str)
        ensures
            id@ == self@.id,
    {
        self.id.as_str()
    }

    /// Resolved `sha256:<hex>` of the loaded bytes.
    pub fn digest(&self) -> (digest: &str)
        ensures
            digest@ == self@.digest,
    {
        self.digest.as_str()
    }
}

pub open spec fn already_active_message(package: Seq<char>) -> Seq<char> {
    "`"@ + package + "` is already active"@
}

/// Attesting an active registration: it stands as the requested digest, or
/// the load is refused, since an active identity never re-binds.
pub open spec fn attest_spec(
    package: Seq<char>,
    id: Seq<char>,
    recorded: Option<Seq<char>>,
    wanted: Option<Seq<char>>,
) -> Result<PluginView, LoadFault> {
    if recorded is Some && wanted == recorded {
        Ok(PluginView { id, digest: recorded->0 })
    } else {
        Err(LoadFault::AlreadyActive(already_active_message(package)))
    }
}

pub open spec fn result_view<T: View, E: View>(r: Result<T, E>) -> Result<T::V, E::V> {
    match r {
        Ok(t) => Ok(t@),
        Err(e) => Err(e@),
    }
}

/// Attest an active registration as the requested (package, digest), or
/// refuse: an active identity never re-binds.
pub fn attest_active(package: &str, id: String, recorded: Option<String>, wanted: Option<String>) -> (res: Result<Plugin, LoadError>)
    ensures
        result_view(res) == attest_spec(package@, id@, opt_view(recorded), opt_view(wanted)),
{
    match recorded {
        Some(digest) => {
            let same = match &wanted {
                Some(w) => *w == digest,
                None => false,
            };
            if same {
                Ok(Plugin { id, digest })
            } else {
                Err(LoadError::AlreadyActive(String::from_str("`").concat(package).concat("` is already active")))
            }
        },
        None => Err(LoadError::AlreadyActive(String::from_str("`").concat(package).concat("` is already active"))),
    }
}


/// Which acquirers the deployment installed, one slot per origin kind.
#[derive(Clone, Copy, Debug)]
pub struct Slots {
    pub registry: bool,
    pub path: bool,
}

/// What a load in progress is waiting for.
#[derive(Debug)]
pub enum LoadPhase {
    /// The registration state of the identity.
    AwaitRegistration,
    /// The component bytes from the acquirer.
    AwaitBytes,
    /// The admission of bytes whose digest is `digest`.
    AwaitAdmission { digest: String },
    /// The registration state after admission found the identity taken.
    AwaitRecheck { digest: String },
    /// Nothing: the load has finished.
    Finished,
}

/// A `LoadPhase` as text.
pub enum PhaseView {
    AwaitRegistration,
    AwaitBytes,
    AwaitAdmission { digest: Seq<char> },
    AwaitRecheck { digest: Seq<char> },
    Finished,
}

impl View for LoadPhase {
    type V = PhaseView;

    open spec fn view(&self) -> PhaseView {
        match self {
            LoadPhase::AwaitRegistration => PhaseView::AwaitRegistration,
            LoadPhase::AwaitBytes => PhaseView::AwaitBytes,
            LoadPhase::AwaitAdmission { digest } => PhaseView::AwaitAdmission { digest: digest@ },
            LoadPhase::AwaitRecheck { digest } => PhaseView::AwaitRecheck { digest: digest@ },
            LoadPhase::Finished => PhaseView::Finished,
        }
    }
}

/// One load of `package`: the request and what it waits for. The pin, when
/// given, is held canonical.
#[derive(Debug)]
pub struct PluginLoad {
    pub package: String,
    pub origin: Origin,
    pub pin: Option<String>,
    pub slots: Slots,
    pub phase: LoadPhase,
}

/// A `PluginLoad` as text.
pub struct LoadView {
    pub package: Seq<char>,
    pub origin: OriginView,
    pub pin: Option<Seq<char>>,
    pub slots: Slots,
    pub phase: PhaseView,
}

impl View for PluginLoad {
    type V = LoadView;

    open spec fn view(&self) -> LoadView {
        LoadView {
            package: self.package@,
            origin: self.origin@,
            pin: opt_view(self.pin),
            slots: self.slots,
            phase: self.phase@,
        }
    }
}

/// The outcome of an action, handed back to the load.
#[derive(Debug)]
pub enum LoadEvent {
    /// The registration state of the identity, or why it could not be read.
    Registration(Result<Registration, LoadError>),
    /// The component bytes, or why they could not be acquired.
    Acquired(Result<Vec<u8>, LoadError>),
    /// The admission of the bytes, or why it failed.
    Admission(Result<(), AdmitError>),
}

/// A `LoadEvent` as values.
pub enum EventView {
    Registration(Result<RegistrationView, LoadFault>),
    Acquired(Result<Seq<u8>, LoadFault>),
    Admission(Result<(), AdmitFault>),
}

impl View for LoadEvent {
    type V = EventView;

    open spec fn view(&self) -> EventView {
        match self {
            LoadEvent::Registration(r) => EventView::Registration(result_view(*r)),
            LoadEvent::Acquired(r) => EventView::Acquired(
                match r {
                    Ok(b) => Ok(b@),
                    Err(e) => Err(e@),
                },
            ),
            LoadEvent::Admission(r) => EventView::Admission(
                match r {
                    Ok(()) => Ok(()),
                    Err(e) => Err(e@),
                },
            ),
        }
    }
}

/// What the load asks for next.
#[derive(Debug)]
pub enum LoadAction {
    /// Read the registration state of the identity.
    CheckRegistration,
    /// Acquire the bytes from the registry slot, at this endpoint (`None`: the
    /// acquirer's default).
    AcquireFromRegistry(Option<String>),
    /// Acquire the bytes from the path slot, at this location-relative path.
    AcquireFromPath(String),
    /// Admit these bytes as the identity.
    Admit(Vec<u8>),
    /// The load is over, with this answer.
    Finish(Result<Plugin, LoadError>),
}

/// A `LoadAction` as values.
pub enum ActionView {
    CheckRegistration,
    AcquireFromRegistry(Option<Seq<char>>),
    AcquireFromPath(Seq<char>),
    Admit(Seq<u8>),
    Finish(Result<PluginView, LoadFault>),
}

impl View for LoadAction {
    type V = ActionView;

    open spec fn view(&self) -> ActionView {
        match self {
            LoadAction::CheckRegistration => ActionView::CheckRegistration,
            LoadAction::AcquireFromRegistry(r) => ActionView::AcquireFromRegistry(opt_view(*r)),
            LoadAction::AcquireFromPath(p) => ActionView::AcquireFromPath(p@),
            LoadAction::Admit(b) => ActionView::Admit(b@),
            LoadAction::Finish(r) => ActionView::Finish(result_view(*r)),
        }
    }
}

pub open spec fn no_registry_message(package: Seq<char>) -> Seq<char> {
    "this deployment's locations serve no registry; loading `"@ + package
        + "` needs a `{ registry: ... }` entry"@
}

pub open spec fn no_paths_message(package: Seq<char>, path: Seq<char>) -> Seq<char> {
    "this deployment's locations serve no paths; loading `"@ + package + "` from `"@ + path
        + "` needs a `{ name: ..., path: ... }` entry"@
}

pub open spec fn pin_mismatch_message(package: Seq<char>, digest: Seq<char>) -> Seq<char> {
    "resolved package `"@ + package + "` digest "@ + digest + " does not match the pinned digest"@
}

/// A load that has finished, with its answer.
pub open spec fn finish(l: LoadView, r: Result<PluginView, LoadFault>) -> (LoadView, ActionView) {
    (LoadView { phase: PhaseView::Finished, ..l }, ActionView::Finish(r))
}

/// A load that waits for `phase` after asking for `a`.
pub open spec fn ask(l: LoadView, phase: PhaseView, a: ActionView) -> (LoadView, ActionView) {
    (LoadView { phase, ..l }, a)
}

/// The start of a load: the pin is canonicalised (a bad pin refuses the
/// load), then the registration state is read.
pub open spec fn start_spec(
    package: Seq<char>,
    origin: OriginView,
    pin: Option<Seq<char>>,
    slots: Slots,
) -> (LoadView, ActionView) {
    let l = LoadView { package, origin, pin: None, slots, phase: PhaseView::AwaitRegistration };
    match pin {
        None => (l, ActionView::CheckRegistration),
        Some(p) => match canonicalize_spec(p) {
            Err(e) => finish(l, Err(LoadFault::Refused(e))),
            Ok(c) => (LoadView { pin: Some(c), ..l }, ActionView::CheckRegistration),
        },
    }
}

/// Acquisition from the origin's slot; an empty slot refuses that kind.
pub open spec fn acquire_spec(l: LoadView) -> (LoadView, ActionView) {
    match l.origin {
        OriginView::Registry(endpoint) => if l.slots.registry {
            ask(l, PhaseView::AwaitBytes, ActionView::AcquireFromRegistry(endpoint))
        } else {
            finish(l, Err(LoadFault::Refused(no_registry_message(l.package))))
        },
        OriginView::Path(path) => if l.slots.path {
            ask(l, PhaseView::AwaitBytes, ActionView::AcquireFromPath(path))
        } else {
            finish(l, Err(LoadFault::Refused(no_paths_message(l.package, path))))
        },
    }
}

impl LoadView {
    /// The event answers the action that the load asked for.
    pub open spec fn accepts(self, e: EventView) -> bool {
        ||| (self.phase is AwaitRegistration || self.phase is AwaitRecheck) && e is Registration
        ||| self.phase is AwaitBytes && e is Acquired
        ||| self.phase is AwaitAdmission && e is Admission
    }

    /// One step of the load: the answer to `e`.
    pub open spec fn step(self, e: EventView) -> (LoadView, ActionView) {
        match self.phase {
            PhaseView::AwaitRegistration => match e {
                EventView::Registration(Err(f)) => finish(self, Err(f)),
                EventView::Registration(Ok(RegistrationView::Active(recorded))) => finish(
                    self,
                    attest_spec(self.package, self.package, recorded, self.pin),
                ),
                _ => acquire_spec(self),
            },
            PhaseView::AwaitBytes => match e {
                EventView::Acquired(Ok(bytes)) => {
                    let digest = digest_text(sha256_of(bytes));
                    if self.pin is Some && self.pin != Some(digest) {
                        finish(self, Err(LoadFault::Refused(pin_mismatch_message(self.package, digest))))
                    } else {
                        ask(self, PhaseView::AwaitAdmission { digest }, ActionView::Admit(bytes))
                    }
                },
                EventView::Acquired(Err(f)) => finish(self, Err(f)),
                _ => (self, ActionView::CheckRegistration),
            },
            PhaseView::AwaitAdmission { digest } => match e {
                EventView::Admission(Ok(())) => finish(
                    self,
                    Ok(PluginView { id: self.package, digest }),
                ),
                EventView::Admission(Err(AdmitFault::AlreadyRegistered(_))) => ask(
                    self,
                    PhaseView::AwaitRecheck { digest },
                    ActionView::CheckRegistration,
                ),
                EventView::Admission(Err(f)) => finish(self, Err(admit_fault_to_load(f))),
                _ => (self, ActionView::CheckRegistration),
            },
            PhaseView::AwaitRecheck { digest } => match e {
                EventView::Registration(Err(f)) => finish(self, Err(f)),
                EventView::Registration(Ok(r)) => finish(
                    self,
                    attest_spec(self.package, self.package, recorded_digest(r), Some(digest)),
                ),
                _ => (self, ActionView::CheckRegistration),
            },
            PhaseView::Finished => (self, ActionView::CheckRegistration),
        }
    }
}

pub open spec fn both_views(r: (PluginLoad, LoadAction)) -> (LoadView, ActionView) {
    (r.0@, r.1@)
}

impl PluginLoad {
    /// Starts a load of `package` from `origin`, pinned to `pin` when given,
    /// with the acquirer slots `slots`.
    pub fn start(package: &str, origin: Origin, pin: Option<&str>, slots: Slots) -> (res: (PluginLoad, LoadAction))
        ensures
            both_views(res) == start_spec(
                package@,
                origin@,
                match pin {
                    Some(p) => Some(p@),
                    None => None,
                },
                slots,
            ),
    {
        let canonical_pin = match pin {
            None => None,
            Some(p) => match canonicalize(p) {
                Ok(c) => Some(c),
                Err(e) => {
                    let load = PluginLoad {
                        package: String::from_str(package),
                        origin,
                        pin: None,
                        slots,
                        phase: LoadPhase::Finished,
                    };
                    return (load, LoadAction::Finish(Err(LoadError::Refused(e))));
                },
            },
        };
        let load = PluginLoad {
            package: String::from_str(package),
            origin,
            pin: canonical_pin,
            slots,
            phase: LoadPhase::AwaitRegistration,
        };
        (load, LoadAction::CheckRegistration)
    }

    /// Whether the load has finished.
    pub fn is_finished(&self) -> (b: bool)
        ensures
            b == (self@.phase is Finished),
    {
        match self.phase {
            LoadPhase::Finished => true,
            _ => false,
        }
    }

    fn finish_with(self, r: Result<Plugin, LoadError>) -> (res: (PluginLoad, LoadAction))
        ensures
            both_views(res) == finish(self@, result_view(r)),
    {
        (PluginLoad { phase: LoadPhase::Finished, ..self }, LoadAction::Finish(r))
    }

    fn acquire(self) -> (res: (PluginLoad, LoadAction))
        ensures
            both_views(res) == acquire_spec(self@),
    {
        match &self.origin {
            Origin::Registry(endpoint) => {
                if self.slots.registry {
                    let endpoint = endpoint.clone();
                    (PluginLoad { phase: LoadPhase::AwaitBytes, ..self }, LoadAction::AcquireFromRegistry(endpoint))
                } else {
                    let msg = String::from_str("this deployment's locations serve no registry; loading `")
                        .concat(self.package.as_str()).concat("` needs a `{ registry: ... }` entry");
                    self.finish_with(Err(LoadError::Refused(msg)))
                }
            },
            Origin::Path(path) => {
                if self.slots.path {
                    let path = path.clone();
                    (PluginLoad { phase: LoadPhase::AwaitBytes, ..self }, LoadAction::AcquireFromPath(path))
                } else {
                    let msg = String::from_str("this deployment's locations serve no paths; loading `")
                        .concat(self.package.as_str()).concat("` from `").concat(path.as_str())
                        .concat("` needs a `{ name: ..., path: ... }` entry");
                    self.finish_with(Err(LoadError::Refused(msg)))
                }
            },
        }
    }

    /// Takes the outcome of the action the load last asked for, and answers
    /// with the next action.
    pub fn step(self, event: LoadEvent) -> (res: (PluginLoad, LoadAction))
        requires
            self@.accepts(event@),
        ensures
            both_views(res) == self@.step(event@),
    {
        match self.phase {
            LoadPhase::AwaitRegistration => match event {
                LoadEvent::Registration(Err(f)) => self.finish_with(Err(f)),
                LoadEvent::Registration(Ok(Registration::Active(recorded))) => {
                    let id = self.package.clone();
                    let pin = self.pin.clone();
                    let r = attest_active(self.package.as_str(), id, recorded, pin);
                    self.finish_with(r)
                },
                LoadEvent::Registration(Ok(Registration::Absent)) => self.acquire(),
                _ => {
                    proof { assert(false); }
                    (self, LoadAction::CheckRegistration)
                },
            },
            LoadPhase::AwaitBytes => match event {
                LoadEvent::Acquired(Ok(bytes)) => {
                    let digest = sha256_digest(bytes.as_slice());
                    let mismatch = match &self.pin {
                        Some(p) => !(*p == digest),
                        None => false,
                    };
                    if mismatch {
                        let msg = String::from_str("resolved package `").concat(self.package.as_str())
                            .concat("` digest ").concat(digest.as_str())
                            .concat(" does not match the pinned digest");
                        self.finish_with(Err(LoadError::Refused(msg)))
                    } else {
                        (PluginLoad { phase: LoadPhase::AwaitAdmission { digest }, ..self }, LoadAction::Admit(bytes))
                    }
                },
                LoadEvent::Acquired(Err(f)) => self.finish_with(Err(f)),
                _ => {
                    proof { assert(false); }
                    (self, LoadAction::CheckRegistration)
                },
            },
            LoadPhase::AwaitAdmission { digest } => match event {
                LoadEvent::Admission(Ok(())) => {
                    let id = self.package.clone();
                    (
                        PluginLoad { phase: LoadPhase::Finished, ..self },
                        LoadAction::Finish(Ok(Plugin { id, digest })),
                    )
                },
                LoadEvent::Admission(Err(AdmitError::AlreadyRegistered(_))) => {
                    (PluginLoad { phase: LoadPhase::AwaitRecheck { digest }, ..self }, LoadAction::CheckRegistration)
                },
                LoadEvent::Admission(Err(f)) => {
                    let e = f.into_load_error();
                    (PluginLoad { phase: LoadPhase::Finished, ..self }, LoadAction::Finish(Err(e)))
                },
                _ => {
                    proof { assert(false); }
                    (PluginLoad { phase: LoadPhase::AwaitAdmission { digest }, ..self }, LoadAction::CheckRegistration)
                },
            },
            LoadPhase::AwaitRecheck { digest } => match event {
                LoadEvent::Registration(Err(f)) => {
                    (PluginLoad { phase: LoadPhase::Finished, ..self }, LoadAction::Finish(Err(f)))
                },
                LoadEvent::Registration(Ok(r)) => {
                    let id = self.package.clone();
                    let recorded = r.digest();
                    let res = attest_active(self.package.as_str(), id, recorded, Some(digest));
                    (PluginLoad { phase: LoadPhase::Finished, ..self }, LoadAction::Finish(res))
                },
                _ => {
                    proof { assert(false); }
                    (PluginLoad { phase: LoadPhase::AwaitRecheck { digest }, ..self }, LoadAction::CheckRegistration)
                },
            },
            LoadPhase::Finished => {
                proof { assert(false); }
                (self, LoadAction::CheckRegistration)
            },
        }
    }
}


/// The operator's pin binds the name to the bytes before any admission: bytes
/// whose digest differs from the pin are refused and never admitted, and
/// bytes are admitted only when their digest is the pin.
pub proof fn pin_binds_before_admission(l: LoadView, bytes: Seq<u8>)
    requires
        l.phase is AwaitBytes,
    ensures
        ({
            let digest = digest_text(sha256_of(bytes));
            let (next, action) = l.step(EventView::Acquired(Ok(bytes)));
            &&& l.pin is Some && l.pin != Some(digest) ==> action == ActionView::Finish(
                Err(LoadFault::Refused(pin_mismatch_message(l.package, digest))),
            )
            &&& action is Admit ==> action == ActionView::Admit(bytes) && (l.pin is Some ==> l.pin
                == Some(digest)) && next.phase == (PhaseView::AwaitAdmission { digest })
        }),
{
}

/// An active identity never re-binds: when the identity is already active,
/// the load acquires and admits nothing, and it succeeds only as the recorded
/// digest, when the pin names exactly that digest.
pub proof fn active_identity_never_rebinds(l: LoadView, recorded: Option<Seq<char>>)
    requires
        l.phase is AwaitRegistration,
    ensures
        ({
            let (next, action) = l.step(EventView::Registration(Ok(RegistrationView::Active(recorded))));
            &&& next.phase is Finished
            &&& action == ActionView::Finish(attest_spec(l.package, l.package, recorded, l.pin))
            &&& (action == ActionView::Finish(Ok(PluginView { id: l.package, digest: recorded->0 })))
                <==> (recorded is Some && l.pin == recorded)
            &&& !(recorded is Some && l.pin == recorded) ==> action == ActionView::Finish(
                Err(LoadFault::AlreadyActive(already_active_message(l.package))),
            )
        }),
{
}

/// Loading is idempotent on (package, digest): a load pinned to the digest
/// that the active identity records succeeds with that identity and digest,
/// whatever the case of the pin's hex, without acquiring anything.
pub proof fn load_idempotent(
    package: Seq<char>,
    origin: OriginView,
    pin: Seq<char>,
    slots: Slots,
    recorded: Seq<char>,
)
    requires
        canonicalize_spec(pin) == Ok::<Seq<char>, Seq<char>>(recorded),
    ensures
        ({
            let (l, action) = start_spec(package, origin, Some(pin), slots);
            &&& action == ActionView::CheckRegistration
            &&& l.step(EventView::Registration(Ok(RegistrationView::Active(Some(recorded))))).1
                == ActionView::Finish(Ok(PluginView { id: package, digest: recorded }))
        }),
{
}

/// A successful admission answers with the digest of the admitted bytes, and
/// reloading that plugin by its digest succeeds with the same answer.
pub proof fn loaded_digest_is_content_digest(l: LoadView, bytes: Seq<u8>, origin: OriginView, slots: Slots)
    requires
        l.phase is AwaitBytes,
        sha256_of(bytes).len() == 32,
        l.step(EventView::Acquired(Ok(bytes))).1 is Admit,
    ensures
        ({
            let digest = digest_text(sha256_of(bytes));
            let admitted = l.step(EventView::Acquired(Ok(bytes))).0;
            let answer = admitted.step(EventView::Admission(Ok(()))).1;
            let (reload, first) = start_spec(l.package, origin, Some(digest), slots);
            &&& answer == ActionView::Finish(Ok(PluginView { id: l.package, digest }))
            &&& first == ActionView::CheckRegistration
            &&& reload.step(EventView::Registration(Ok(RegistrationView::Active(Some(digest))))).1
                == answer
        }),
{
    computed_digest_is_canonical(sha256_of(bytes));
}

/// A load asks for `Finish` exactly when it has finished, at the start and at
/// every step.
pub proof fn finishes_exactly_when_finished(
    l: LoadView,
    e: EventView,
    package: Seq<char>,
    origin: OriginView,
    pin: Option<Seq<char>>,
    slots: Slots,
)
    requires
        l.accepts(e),
    ensures
        (l.step(e).1 is Finish) <==> (l.step(e).0.phase is Finished),
        (start_spec(package, origin, pin, slots).1 is Finish) <==> (start_spec(
            package,
            origin,
            pin,
            slots,
        ).0.phase is Finished),
{
}

/// Each origin is served by its own slot: once the identity is found absent,
/// a registry origin is acquired from the registry slot exactly when that
/// slot is installed (and refused otherwise), whatever the path slot holds;
/// a path origin is acquired from the path slot exactly when that slot is
/// installed, whatever the registry slot holds.
pub proof fn origin_served_by_its_own_slot(l: LoadView)
    requires
        l.phase is AwaitRegistration,
    ensures
        ({
            let (next, action) = l.step(EventView::Registration(Ok(RegistrationView::Absent)));
            &&& l.origin matches OriginView::Registry(endpoint) ==> {
                &&& (action == ActionView::AcquireFromRegistry(endpoint)) <==> l.slots.registry
                &&& l.slots.registry ==> next.phase is AwaitBytes
                &&& !l.slots.registry ==> action == ActionView::Finish(
                    Err(LoadFault::Refused(no_registry_message(l.package))),
                )
            }
            &&& l.origin matches OriginView::Path(path) ==> {
                &&& (action == ActionView::AcquireFromPath(path)) <==> l.slots.path
                &&& l.slots.path ==> next.phase is AwaitBytes
                &&& !l.slots.path ==> action == ActionView::Finish(
                    Err(LoadFault::Refused(no_paths_message(l.package, path))),
                )
            }
        }),
{
}

/// A pin is checked before anything else: a pin that does not canonicalise
/// finishes the load at once, refused with the canonicaliser's text; a load
/// that goes on holds the canonical form of the pin it was given, and no pin
/// when none was given.
pub proof fn bad_pin_refused_at_start(package: Seq<char>, origin: OriginView, pin: Option<Seq<char>>, slots: Slots)
    ensures
        ({
            let (l, action) = start_spec(package, origin, pin, slots);
            &&& pin matches Some(p) ==> (canonicalize_spec(p) is Err ==> action
                == ActionView::Finish(Err(LoadFault::Refused(canonicalize_spec(p)->Err_0)))
                && l.phase is Finished)
            &&& pin matches Some(p) ==> (canonicalize_spec(p) is Ok ==> action
                == ActionView::CheckRegistration && l.pin == Some(canonicalize_spec(p)->Ok_0))
            &&& pin is None ==> action == ActionView::CheckRegistration && l.pin is None
            &&& l.package == package && l.origin == origin && l.slots == slots
        }),
{
}

/// The acquirer's and the registry's own errors pass through a load
/// unchanged: a refusal stays a refusal, an unavailability stays one.
pub proof fn reported_errors_pass_through(l: LoadView, f: LoadFault)
    ensures
        l.phase is AwaitBytes ==> l.step(EventView::Acquired(Err(f))).1 == ActionView::Finish(
            Err(f),
        ) && l.step(EventView::Acquired(Err(f))).0.phase is Finished,
        l.phase is AwaitRegistration || l.phase is AwaitRecheck ==> l.step(
            EventView::Registration(Err(f)),
        ).1 == ActionView::Finish(Err(f)),
{
}

} // verus!
