//! The errors that the orchestrator reports, and those that the systems around
//! it report to it.

use vstd::prelude::*;
use vstd::string::*;

use crate::ids::id_text;
#[allow(unused_imports)]
use crate::ids::hyphenated;
use crate::text::decimal_string;
#[allow(unused_imports)]
use crate::text::{decimal, has_suffix, occurs, occurs_at, stands_at_the_end, stands_between};

verus! {

/// What went wrong in a VMM backend.
#[derive(Clone, Copy, PartialEq, Eq, Debug, Structural)]
pub enum VmmErrorKind {
    /// The backend does not track the VM.
    VmNotFound,
    /// The backend cannot do what was asked of it.
    Unsupported,
    /// No backend has the requested name.
    UnknownBackend,
    /// Anything else.
    Other,
}

/// What went wrong while talking to the guest agent.
#[derive(Clone, Copy, PartialEq, Eq, Debug, Structural)]
pub enum AgentErrorKind {
    /// The agent answered something that is no answer to the request.
    UnexpectedResponse,
    /// The agent did not come up in time.
    NotReady,
    /// Anything else.
    Other,
}

/// What went wrong while building a cloud-init seed.
#[derive(Clone, Copy, PartialEq, Eq, Debug, Structural)]
pub enum CloudInitErrorKind {
    /// The caller's SSH key cannot be used.
    InvalidSshKey,
    /// There is no agent to put into the seed.
    EmptyAgent,
    /// Anything else.
    Other,
}

/// The kinds of named resource that the state store keeps.
#[derive(Clone, Copy, PartialEq, Eq, Debug, Structural)]
pub enum Resource {
    Vm,
    HostGroup,
    Service,
    Pool,
    Snapshot,
    Image,
    Volume,
    Secret,
}

/// What the state store reports.
#[derive(Debug)]
pub enum StateError {
    /// No record of this kind has the id.
    NotFound(Resource),
    /// No record of this kind has the name.
    NotFoundByName(Resource),
    /// A record of this kind already has the name.
    AlreadyExists(Resource, String),
    /// The host port is forwarded already.
    PortAlreadyForwarded(u16),
    /// The VM is the template of the named pool.
    PoolTemplateOwned(String),
    /// The template VM with this id is gone.
    PoolTemplateUnavailable(u128),
    /// A stored value cannot be read.
    CorruptData { column: String, message: String },
    /// Anything else.
    Other(String),
}

/// What the orchestrator reports to its callers.
#[derive(Debug)]
pub enum CoreError {
    VmNotFound(String),
    InvalidState { name: String, actual: String, expected: String },
    VmAlreadyExists(String),
    HostGroupNotFound(String),
    HostGroupAlreadyExists(String),
    ServiceNotFound(String),
    ServiceAlreadyExists(String),
    PoolNotFound(String),
    PoolAlreadyExists(String),
    PoolTemplateOwned { vm: String, pool: String },
    PoolTemplateUnavailable { pool: String, template: u128 },
    SnapshotNotFound(String),
    SnapshotAlreadyExists(String),
    ImageNotFound(String),
    ImageAlreadyExists(String),
    VolumeNotFound(String),
    VolumeAlreadyExists(String),
    VolumeAttached { volume: String, vm: String },
    SecretNotFound(String),
    SecretAlreadyExists(String),
    SecretCrypto(String),
    InvalidArgument(String),
    PortForwardConflict(u16),
    PortForwardDenied(u16),
    Io(String),
    ServiceOperationFailed(String),
    UserdataCancelled(String),
    Vmm(VmmErrorKind, String),
    Network(String),
    CloudInit(CloudInitErrorKind, String),
    Storage(String),
    State(StateError),
    Agent(AgentErrorKind, String),
}

/// A [`CoreError`] with its texts as sequences of characters.
pub ghost enum ErrorView {
    VmNotFound(Seq<char>),
    InvalidState { name: Seq<char>, actual: Seq<char>, expected: Seq<char> },
    VmAlreadyExists(Seq<char>),
    HostGroupNotFound(Seq<char>),
    HostGroupAlreadyExists(Seq<char>),
    ServiceNotFound(Seq<char>),
    ServiceAlreadyExists(Seq<char>),
    PoolNotFound(Seq<char>),
    PoolAlreadyExists(Seq<char>),
    PoolTemplateOwned { vm: Seq<char>, pool: Seq<char> },
    PoolTemplateUnavailable { pool: Seq<char>, template: u128 },
    SnapshotNotFound(Seq<char>),
    SnapshotAlreadyExists(Seq<char>),
    ImageNotFound(Seq<char>),
    ImageAlreadyExists(Seq<char>),
    VolumeNotFound(Seq<char>),
    VolumeAlreadyExists(Seq<char>),
    VolumeAttached { volume: Seq<char>, vm: Seq<char> },
    SecretNotFound(Seq<char>),
    SecretAlreadyExists(Seq<char>),
    SecretCrypto(Seq<char>),
    InvalidArgument(Seq<char>),
    PortForwardConflict(u16),
    PortForwardDenied(u16),
    Io(Seq<char>),
    ServiceOperationFailed(Seq<char>),
    UserdataCancelled(Seq<char>),
    Vmm(VmmErrorKind, Seq<char>),
    Network(Seq<char>),
    CloudInit(CloudInitErrorKind, Seq<char>),
    Storage(Seq<char>),
    State(StateErrorView),
    Agent(AgentErrorKind, Seq<char>),
}

/// A [`StateError`] with its texts as sequences of characters.
pub ghost enum StateErrorView {
    NotFound(Resource),
    NotFoundByName(Resource),
    AlreadyExists(Resource, Seq<char>),
    PortAlreadyForwarded(u16),
    PoolTemplateOwned(Seq<char>),
    PoolTemplateUnavailable(u128),
    CorruptData { column: Seq<char>, message: Seq<char> },
    Other(Seq<char>),
}

impl View for StateError {
    type V = StateErrorView;

    open spec fn view(&self) -> StateErrorView {
        match *self {
            StateError::NotFound(r) => StateErrorView::NotFound(r),
            StateError::NotFoundByName(r) => StateErrorView::NotFoundByName(r),
            StateError::AlreadyExists(r, n) => StateErrorView::AlreadyExists(r, n@),
            StateError::PortAlreadyForwarded(p) => StateErrorView::PortAlreadyForwarded(p),
            StateError::PoolTemplateOwned(p) => StateErrorView::PoolTemplateOwned(p@),
            StateError::PoolTemplateUnavailable(t) => StateErrorView::PoolTemplateUnavailable(t),
            StateError::CorruptData { column, message } => StateErrorView::CorruptData {
                column: column@,
                message: message@,
            },
            StateError::Other(t) => StateErrorView::Other(t@),
        }
    }
}

impl View for CoreError {
    type V = ErrorView;

    open spec fn view(&self) -> ErrorView {
        match *self {
            CoreError::VmNotFound(a) => ErrorView::VmNotFound(a@),
            CoreError::InvalidState { name, actual, expected } => ErrorView::InvalidState {
                name: name@,
                actual: actual@,
                expected: expected@,
            },
            CoreError::VmAlreadyExists(a) => ErrorView::VmAlreadyExists(a@),
            CoreError::HostGroupNotFound(a) => ErrorView::HostGroupNotFound(a@),
            CoreError::HostGroupAlreadyExists(a) => ErrorView::HostGroupAlreadyExists(a@),
            CoreError::ServiceNotFound(a) => ErrorView::ServiceNotFound(a@),
            CoreError::ServiceAlreadyExists(a) => ErrorView::ServiceAlreadyExists(a@),
            CoreError::PoolNotFound(a) => ErrorView::PoolNotFound(a@),
            CoreError::PoolAlreadyExists(a) => ErrorView::PoolAlreadyExists(a@),
            CoreError::PoolTemplateOwned { vm, pool } => ErrorView::PoolTemplateOwned {
                vm: vm@,
                pool: pool@,
            },
            CoreError::PoolTemplateUnavailable { pool, template } => {
                ErrorView::PoolTemplateUnavailable { pool: pool@, template }
            },
            CoreError::SnapshotNotFound(a) => ErrorView::SnapshotNotFound(a@),
            CoreError::SnapshotAlreadyExists(a) => ErrorView::SnapshotAlreadyExists(a@),
            CoreError::ImageNotFound(a) => ErrorView::ImageNotFound(a@),
            CoreError::ImageAlreadyExists(a) => ErrorView::ImageAlreadyExists(a@),
            CoreError::VolumeNotFound(a) => ErrorView::VolumeNotFound(a@),
            CoreError::VolumeAlreadyExists(a) => ErrorView::VolumeAlreadyExists(a@),
            CoreError::VolumeAttached { volume, vm } => ErrorView::VolumeAttached {
                volume: volume@,
                vm: vm@,
            },
            CoreError::SecretNotFound(a) => ErrorView::SecretNotFound(a@),
            CoreError::SecretAlreadyExists(a) => ErrorView::SecretAlreadyExists(a@),
            CoreError::SecretCrypto(a) => ErrorView::SecretCrypto(a@),
            CoreError::InvalidArgument(a) => ErrorView::InvalidArgument(a@),
            CoreError::PortForwardConflict(p) => ErrorView::PortForwardConflict(p),
            CoreError::PortForwardDenied(p) => ErrorView::PortForwardDenied(p),
            CoreError::Io(a) => ErrorView::Io(a@),
            CoreError::ServiceOperationFailed(a) => ErrorView::ServiceOperationFailed(a@),
            CoreError::UserdataCancelled(a) => ErrorView::UserdataCancelled(a@),
            CoreError::Vmm(k, a) => ErrorView::Vmm(k, a@),
            CoreError::Network(a) => ErrorView::Network(a@),
            CoreError::CloudInit(k, a) => ErrorView::CloudInit(k, a@),
            CoreError::Storage(a) => ErrorView::Storage(a@),
            CoreError::State(e) => ErrorView::State(e@),
            CoreError::Agent(k, a) => ErrorView::Agent(k, a@),
        }
    }
}

/// What a call owes its caller: nothing but success, or the error.
pub open spec fn unit_view(r: Result<(), CoreError>) -> Result<(), ErrorView> {
    match r {
        Ok(_) => Ok(()),
        Err(e) => Err(e@),
    }
}

/// A result over a string, with the texts as sequences of characters.
pub open spec fn string_view(r: Result<String, CoreError>) -> Result<Seq<char>, ErrorView> {
    match r {
        Ok(s) => Ok(s@),
        Err(e) => Err(e@),
    }
}

/// The error for a resource that does not exist under `name`.
pub open spec fn not_found(kind: Resource, name: Seq<char>) -> ErrorView {
    match kind {
        Resource::Vm => ErrorView::VmNotFound(name),
        Resource::HostGroup => ErrorView::HostGroupNotFound(name),
        Resource::Service => ErrorView::ServiceNotFound(name),
        Resource::Pool => ErrorView::PoolNotFound(name),
        Resource::Snapshot => ErrorView::SnapshotNotFound(name),
        Resource::Image => ErrorView::ImageNotFound(name),
        Resource::Volume => ErrorView::VolumeNotFound(name),
        Resource::Secret => ErrorView::SecretNotFound(name),
    }
}

/// The error for a resource whose `name` is taken.
pub open spec fn already_exists(kind: Resource, name: Seq<char>) -> ErrorView {
    match kind {
        Resource::Vm => ErrorView::VmAlreadyExists(name),
        Resource::HostGroup => ErrorView::HostGroupAlreadyExists(name),
        Resource::Service => ErrorView::ServiceAlreadyExists(name),
        Resource::Pool => ErrorView::PoolAlreadyExists(name),
        Resource::Snapshot => ErrorView::SnapshotAlreadyExists(name),
        Resource::Image => ErrorView::ImageAlreadyExists(name),
        Resource::Volume => ErrorView::VolumeAlreadyExists(name),
        Resource::Secret => ErrorView::SecretAlreadyExists(name),
    }
}

fn not_found_error(kind: Resource, name: &str) -> (e: CoreError)
    ensures
        e@ == not_found(kind, name@),
{
    let n = name.to_owned();
    match kind {
        Resource::Vm => CoreError::VmNotFound(n),
        Resource::HostGroup => CoreError::HostGroupNotFound(n),
        Resource::Service => CoreError::ServiceNotFound(n),
        Resource::Pool => CoreError::PoolNotFound(n),
        Resource::Snapshot => CoreError::SnapshotNotFound(n),
        Resource::Image => CoreError::ImageNotFound(n),
        Resource::Volume => CoreError::VolumeNotFound(n),
        Resource::Secret => CoreError::SecretNotFound(n),
    }
}

/// The error for a resource of `kind` whose name is taken.
pub fn already_exists_error(kind: Resource, name: String) -> (e: CoreError)
    ensures
        e@ == already_exists(kind, name@),
{
    match kind {
        Resource::Vm => CoreError::VmAlreadyExists(name),
        Resource::HostGroup => CoreError::HostGroupAlreadyExists(name),
        Resource::Service => CoreError::ServiceAlreadyExists(name),
        Resource::Pool => CoreError::PoolAlreadyExists(name),
        Resource::Snapshot => CoreError::SnapshotAlreadyExists(name),
        Resource::Image => CoreError::ImageAlreadyExists(name),
        Resource::Volume => CoreError::VolumeAlreadyExists(name),
        Resource::Secret => CoreError::SecretAlreadyExists(name),
    }
}

/// What a failed lookup by name is reported as.
pub open spec fn lookup_verdict(kind: Resource, name: Seq<char>, e: StateErrorView) -> ErrorView {
    if e == StateErrorView::NotFoundByName(kind) {
        not_found(kind, name)
    } else {
        ErrorView::State(e)
    }
}

/// What a failed update or deletion by id is reported as.
pub open spec fn by_id_verdict(kind: Resource, name: Seq<char>, e: StateErrorView) -> ErrorView {
    if e == StateErrorView::NotFound(kind) {
        not_found(kind, name)
    } else {
        ErrorView::State(e)
    }
}

/// Whether a name is still free, from what a lookup by that name gave.
pub open spec fn free_verdict(
    kind: Resource,
    name: Seq<char>,
    found: Result<(), StateError>,
) -> Result<(), ErrorView> {
    match found {
        Ok(_) => Err(already_exists(kind, name)),
        Err(e) => if e@ == StateErrorView::NotFoundByName(kind) {
            Ok(())
        } else {
            Err(ErrorView::State(e@))
        },
    }
}

/// What a failed seed build is reported as.
pub open spec fn seed_failure(kind: CloudInitErrorKind, text: Seq<char>) -> ErrorView {
    if kind == CloudInitErrorKind::InvalidSshKey {
        ErrorView::InvalidArgument(text)
    } else {
        ErrorView::CloudInit(kind, text)
    }
}

/// What is missing, and what is taken, is told by its kind and its name: two kinds are never
/// mixed up, nor is missing with taken.
pub proof fn resources_are_told_by_kind_and_name(kind: Resource, name: Seq<char>)
    ensures
        error_message(not_found(kind, name)) == resource_name(kind) + " not found: "@ + name,
        error_message(already_exists(kind, name)) == resource_name(kind) + " already exists: "@
            + name,
        not_found(kind, name) is VmNotFound <==> kind == Resource::Vm,
        not_found(kind, name) is HostGroupNotFound <==> kind == Resource::HostGroup,
        not_found(kind, name) is ServiceNotFound <==> kind == Resource::Service,
        not_found(kind, name) is PoolNotFound <==> kind == Resource::Pool,
        not_found(kind, name) is SnapshotNotFound <==> kind == Resource::Snapshot,
        not_found(kind, name) is ImageNotFound <==> kind == Resource::Image,
        not_found(kind, name) is VolumeNotFound <==> kind == Resource::Volume,
        not_found(kind, name) is SecretNotFound <==> kind == Resource::Secret,
        already_exists(kind, name) is VmAlreadyExists <==> kind == Resource::Vm,
        already_exists(kind, name) is HostGroupAlreadyExists <==> kind == Resource::HostGroup,
        already_exists(kind, name) is ServiceAlreadyExists <==> kind == Resource::Service,
        already_exists(kind, name) is PoolAlreadyExists <==> kind == Resource::Pool,
        already_exists(kind, name) is SnapshotAlreadyExists <==> kind == Resource::Snapshot,
        already_exists(kind, name) is ImageAlreadyExists <==> kind == Resource::Image,
        already_exists(kind, name) is VolumeAlreadyExists <==> kind == Resource::Volume,
        already_exists(kind, name) is SecretAlreadyExists <==> kind == Resource::Secret,
{
    reveal_strlit("VM not found: ");
    reveal_strlit("host group not found: ");
    reveal_strlit("service not found: ");
    reveal_strlit("pool not found: ");
    reveal_strlit("snapshot not found: ");
    reveal_strlit("image not found: ");
    reveal_strlit("volume not found: ");
    reveal_strlit("secret not found: ");
    reveal_strlit(" not found: ");
    reveal_strlit("VM already exists: ");
    reveal_strlit("host group already exists: ");
    reveal_strlit("service already exists: ");
    reveal_strlit("pool already exists: ");
    reveal_strlit("snapshot already exists: ");
    reveal_strlit("image already exists: ");
    reveal_strlit("volume already exists: ");
    reveal_strlit("secret already exists: ");
    reveal_strlit(" already exists: ");
    reveal_strlit("VM");
    reveal_strlit("host group");
    reveal_strlit("service");
    reveal_strlit("pool");
    reveal_strlit("snapshot");
    reveal_strlit("image");
    reveal_strlit("volume");
    reveal_strlit("secret");
    assert(error_message(not_found(kind, name)) =~= resource_name(kind) + " not found: "@ + name);
    assert(error_message(already_exists(kind, name)) =~= resource_name(kind)
        + " already exists: "@ + name);
}

/// Only that the very record is missing is told as that; whatever else the store reports
/// stays the store's own error. A missing record is told the same way whether it was looked
/// up by its name or by its id.
pub proof fn only_missing_records_are_not_found(kind: Resource, name: Seq<char>, e: StateErrorView)
    ensures
        lookup_verdict(kind, name, StateErrorView::NotFoundByName(kind)) == not_found(kind, name),
        by_id_verdict(kind, name, StateErrorView::NotFound(kind)) == not_found(kind, name),
        e != StateErrorView::NotFoundByName(kind) ==> lookup_verdict(kind, name, e)
            == ErrorView::State(e),
        e != StateErrorView::NotFound(kind) ==> by_id_verdict(kind, name, e) == ErrorView::State(e),
        insert_verdict(kind, StateErrorView::AlreadyExists(kind, name)) == already_exists(
            kind,
            name,
        ),
        e !is AlreadyExists ==> insert_verdict(kind, e) == ErrorView::State(e),
        e matches StateErrorView::AlreadyExists(k, n) ==> (k != kind ==> insert_verdict(kind, e)
            == ErrorView::State(e)),
{
}

/// A name is free exactly where a lookup says that nothing of the kind has it. A name that
/// was found is taken; a lookup that failed otherwise leaves it open, and is told as it is.
pub proof fn names_are_free_when_nothing_has_them(
    kind: Resource,
    name: Seq<char>,
    found: Result<(), StateError>,
)
    ensures
        free_verdict(kind, name, found) is Ok <==> found is Err && found->Err_0@
            == StateErrorView::NotFoundByName(kind),
        found is Ok ==> free_verdict(kind, name, found) == Err::<(), ErrorView>(
            already_exists(kind, name),
        ),
        found matches Err(e) ==> (e@ != StateErrorView::NotFoundByName(kind) ==> free_verdict(
            kind,
            name,
            found,
        ) == Err::<(), ErrorView>(ErrorView::State(e@))),
{
}

/// Of a seed's failures only the SSH key is the caller's to mend. All are told in their own
/// words.
pub proof fn only_keys_are_the_callers_to_mend(kind: CloudInitErrorKind, text: Seq<char>)
    ensures
        seed_failure(kind, text) is InvalidArgument <==> kind == CloudInitErrorKind::InvalidSshKey,
        seed_failure(kind, text) is CloudInit <==> kind != CloudInitErrorKind::InvalidSshKey,
        has_suffix(error_message(seed_failure(kind, text)), text),
{
    stands_at_the_end("invalid argument: "@, text);
    stands_at_the_end("cloud-init seed error: "@, text);
}

/// What a failed lookup by name is reported as: a missing record names what the
/// caller asked for, anything else is the store's own error.
pub fn lookup_error(kind: Resource, name: &str, e: StateError) -> (r: CoreError)
    ensures
        r@ == lookup_verdict(kind, name@, e@),
{
    match e {
        StateError::NotFoundByName(k) => {
            if k == kind {
                not_found_error(kind, name)
            } else {
                CoreError::State(StateError::NotFoundByName(k))
            }
        },
        other => CoreError::State(other),
    }
}

/// What a failed update or deletion by id is reported as, for a record that the
/// caller knows as `name`.
pub fn by_id_error(kind: Resource, name: &str, e: StateError) -> (r: CoreError)
    ensures
        r@ == by_id_verdict(kind, name@, e@),
{
    match e {
        StateError::NotFound(k) => {
            if k == kind {
                not_found_error(kind, name)
            } else {
                CoreError::State(StateError::NotFound(k))
            }
        },
        other => CoreError::State(other),
    }
}

/// What a failed insertion is reported as.
pub open spec fn insert_verdict(kind: Resource, e: StateErrorView) -> ErrorView {
    match e {
        StateErrorView::AlreadyExists(k, name) => if k == kind {
            already_exists(kind, name)
        } else {
            ErrorView::State(e)
        },
        _ => ErrorView::State(e),
    }
}

/// What a failed insertion is reported as.
pub fn insert_error(kind: Resource, e: StateError) -> (r: CoreError)
    ensures
        r@ == insert_verdict(kind, e@),
{
    match e {
        StateError::AlreadyExists(k, name) => {
            if k == kind {
                already_exists_error(kind, name)
            } else {
                CoreError::State(StateError::AlreadyExists(k, name))
            }
        },
        other => CoreError::State(other),
    }
}

/// Whether a name is still free, from what a lookup by that name gave.
pub fn require_free(kind: Resource, name: &str, found: Result<(), StateError>) -> (r: Result<
    (),
    CoreError,
>)
    ensures
        unit_view(r) == free_verdict(kind, name@, found),
{
    match found {
        Ok(_) => Err(already_exists_error(kind, name.to_owned())),
        Err(StateError::NotFoundByName(k)) => {
            if k == kind {
                Ok(())
            } else {
                Err(CoreError::State(StateError::NotFoundByName(k)))
            }
        },
        Err(other) => Err(CoreError::State(other)),
    }
}

/// What a failed seed build is reported as: an unusable SSH key is the caller's
/// input, everything else is an internal fault.
pub fn seed_error_to_core(kind: CloudInitErrorKind, text: String) -> (r: CoreError)
    ensures
        r@ == seed_failure(kind, text@),
{
    if kind == CloudInitErrorKind::InvalidSshKey {
        CoreError::InvalidArgument(text)
    } else {
        CoreError::CloudInit(kind, text)
    }
}

/// The VM `name` is in state `actual`, but has to be in `expected`.
pub fn invalid_state(name: &str, actual: &str, expected: &str) -> (e: CoreError)
    ensures
        e@ == (ErrorView::InvalidState { name: name@, actual: actual@, expected: expected@ }),
{
    CoreError::InvalidState {
        name: name.to_owned(),
        actual: actual.to_owned(),
        expected: expected.to_owned(),
    }
}

/// The caller's input cannot be used; `message` says why.
pub fn invalid_argument(message: &str) -> (e: CoreError)
    ensures
        e@ == ErrorView::InvalidArgument(message@),
{
    CoreError::InvalidArgument(message.to_owned())
}

/// What a kind of record is called.
pub open spec fn resource_name(kind: Resource) -> Seq<char> {
    match kind {
        Resource::Vm => "VM"@,
        Resource::HostGroup => "host group"@,
        Resource::Service => "service"@,
        Resource::Pool => "pool"@,
        Resource::Snapshot => "snapshot"@,
        Resource::Image => "image"@,
        Resource::Volume => "volume"@,
        Resource::Secret => "secret"@,
    }
}

impl Resource {
    /// What the kind of record is called.
    pub fn as_str(self) -> (r: &'static str)
        ensures
            r@ == resource_name(self),
    {
        match self {
            Resource::Vm => "VM",
            Resource::HostGroup => "host group",
            Resource::Service => "service",
            Resource::Pool => "pool",
            Resource::Snapshot => "snapshot",
            Resource::Image => "image",
            Resource::Volume => "volume",
            Resource::Secret => "secret",
        }
    }
}

/// What an error of the state store says.
pub open spec fn state_message(e: StateErrorView) -> Seq<char> {
    match e {
        StateErrorView::NotFound(kind) => resource_name(kind) + " not found"@,
        StateErrorView::NotFoundByName(kind) => resource_name(kind) + " not found by name"@,
        StateErrorView::AlreadyExists(kind, name) => resource_name(kind) + " already exists: "@
            + name,
        StateErrorView::PortAlreadyForwarded(port) => "host port "@ + decimal(port as nat)
            + " is already forwarded"@,
        StateErrorView::PoolTemplateOwned(pool) => "VM is the template of pool "@ + pool,
        StateErrorView::PoolTemplateUnavailable(id) => "pool template is unavailable: "@
            + hyphenated(id),
        StateErrorView::CorruptData { column, message } => "corrupt data in "@ + column + ": "@
            + message,
        StateErrorView::Other(text) => text,
    }
}

impl StateError {
    /// What the error says.
    pub fn message(&self) -> (r: String)
        ensures
            r@ == state_message(self@),
    {
        match self {
            StateError::NotFound(kind) => kind.as_str().to_owned().concat(" not found"),
            StateError::NotFoundByName(kind) => {
                kind.as_str().to_owned().concat(" not found by name")
            },
            StateError::AlreadyExists(kind, name) => {
                kind.as_str().to_owned().concat(" already exists: ").concat(name.as_str())
            },
            StateError::PortAlreadyForwarded(port) => {
                "host port ".to_owned().concat(decimal_string(*port as u64).as_str()).concat(
                    " is already forwarded",
                )
            },
            StateError::PoolTemplateOwned(pool) => {
                "VM is the template of pool ".to_owned().concat(pool.as_str())
            },
            StateError::PoolTemplateUnavailable(id) => {
                "pool template is unavailable: ".to_owned().concat(id_text(*id).as_str())
            },
            StateError::CorruptData { column, message } => {
                "corrupt data in ".to_owned().concat(column.as_str()).concat(": ").concat(
                    message.as_str(),
                )
            },
            StateError::Other(text) => text.clone(),
        }
    }
}

/// What an error says to the caller.
pub open spec fn error_message(e: ErrorView) -> Seq<char> {
    match e {
        ErrorView::VmNotFound(a) => "VM not found: "@ + a,
        ErrorView::VmAlreadyExists(a) => "VM already exists: "@ + a,
        ErrorView::HostGroupNotFound(a) => "host group not found: "@ + a,
        ErrorView::HostGroupAlreadyExists(a) => "host group already exists: "@ + a,
        ErrorView::ServiceNotFound(a) => "service not found: "@ + a,
        ErrorView::ServiceAlreadyExists(a) => "service already exists: "@ + a,
        ErrorView::PoolNotFound(a) => "pool not found: "@ + a,
        ErrorView::PoolAlreadyExists(a) => "pool already exists: "@ + a,
        ErrorView::SnapshotNotFound(a) => "snapshot not found: "@ + a,
        ErrorView::SnapshotAlreadyExists(a) => "snapshot already exists: "@ + a,
        ErrorView::ImageNotFound(a) => "image not found: "@ + a,
        ErrorView::ImageAlreadyExists(a) => "image already exists: "@ + a,
        ErrorView::VolumeNotFound(a) => "volume not found: "@ + a,
        ErrorView::VolumeAlreadyExists(a) => "volume already exists: "@ + a,
        ErrorView::SecretNotFound(a) => "secret not found: "@ + a,
        ErrorView::SecretAlreadyExists(a) => "secret already exists: "@ + a,
        ErrorView::SecretCrypto(a) => "secret crypto error: "@ + a,
        ErrorView::InvalidArgument(a) => "invalid argument: "@ + a,
        ErrorView::Io(a) => "I/O error: "@ + a,
        ErrorView::ServiceOperationFailed(a) => "service operation failed: "@ + a,
        ErrorView::UserdataCancelled(a) => "userdata execution was cancelled for VM: "@ + a,
        ErrorView::Network(a) => "network error: "@ + a,
        ErrorView::Storage(a) => "storage error: "@ + a,
        ErrorView::Vmm(_, a) => "VMM error: "@ + a,
        ErrorView::CloudInit(_, a) => "cloud-init seed error: "@ + a,
        ErrorView::Agent(_, a) => "agent error: "@ + a,
        ErrorView::InvalidState { name, actual, expected } => "VM '"@ + name + "' is "@ + actual
            + ", expected "@ + expected,
        ErrorView::PoolTemplateOwned { vm, pool } => "VM '"@ + vm + "' is the template of pool '"@
            + pool + "'"@,
        ErrorView::PoolTemplateUnavailable { pool, template } => "template VM "@ + hyphenated(
            template,
        ) + " of pool '"@ + pool + "' is unavailable"@,
        ErrorView::VolumeAttached { volume, vm } => "volume '"@ + volume + "' is attached to VM '"@
            + vm + "'"@,
        ErrorView::PortForwardConflict(port) => "host port "@ + decimal(port as nat)
            + " is already in use"@,
        ErrorView::PortForwardDenied(port) => "permission denied binding host port "@ + decimal(
            port as nat,
        ) + "; privileged ports (<1024) require elevated permissions"@,
        ErrorView::State(e) => "state error: "@ + state_message(e),
    }
}

impl CoreError {
    /// What the error says.
    pub fn message(&self) -> (r: String)
        ensures
            r@ == error_message(self@),
    {
        match self {
            CoreError::VmNotFound(a) => "VM not found: ".to_owned().concat(a.as_str()),
            CoreError::VmAlreadyExists(a) => "VM already exists: ".to_owned().concat(a.as_str()),
            CoreError::HostGroupNotFound(a) => "host group not found: ".to_owned().concat(a.as_str()),
            CoreError::HostGroupAlreadyExists(a) => "host group already exists: ".to_owned().concat(a.as_str()),
            CoreError::ServiceNotFound(a) => "service not found: ".to_owned().concat(a.as_str()),
            CoreError::ServiceAlreadyExists(a) => "service already exists: ".to_owned().concat(a.as_str()),
            CoreError::PoolNotFound(a) => "pool not found: ".to_owned().concat(a.as_str()),
            CoreError::PoolAlreadyExists(a) => "pool already exists: ".to_owned().concat(a.as_str()),
            CoreError::SnapshotNotFound(a) => "snapshot not found: ".to_owned().concat(a.as_str()),
            CoreError::SnapshotAlreadyExists(a) => "snapshot already exists: ".to_owned().concat(a.as_str()),
            CoreError::ImageNotFound(a) => "image not found: ".to_owned().concat(a.as_str()),
            CoreError::ImageAlreadyExists(a) => "image already exists: ".to_owned().concat(a.as_str()),
            CoreError::VolumeNotFound(a) => "volume not found: ".to_owned().concat(a.as_str()),
            CoreError::VolumeAlreadyExists(a) => "volume already exists: ".to_owned().concat(a.as_str()),
            CoreError::SecretNotFound(a) => "secret not found: ".to_owned().concat(a.as_str()),
            CoreError::SecretAlreadyExists(a) => "secret already exists: ".to_owned().concat(a.as_str()),
            CoreError::SecretCrypto(a) => "secret crypto error: ".to_owned().concat(a.as_str()),
            CoreError::InvalidArgument(a) => "invalid argument: ".to_owned().concat(a.as_str()),
            CoreError::Io(a) => "I/O error: ".to_owned().concat(a.as_str()),
            CoreError::ServiceOperationFailed(a) => "service operation failed: ".to_owned().concat(a.as_str()),
            CoreError::UserdataCancelled(a) => "userdata execution was cancelled for VM: ".to_owned().concat(a.as_str()),
            CoreError::Network(a) => "network error: ".to_owned().concat(a.as_str()),
            CoreError::Storage(a) => "storage error: ".to_owned().concat(a.as_str()),
            CoreError::Vmm(_, a) => "VMM error: ".to_owned().concat(a.as_str()),
            CoreError::CloudInit(_, a) => "cloud-init seed error: ".to_owned().concat(a.as_str()),
            CoreError::Agent(_, a) => "agent error: ".to_owned().concat(a.as_str()),
            CoreError::InvalidState { name, actual, expected } => {
                "VM '".to_owned().concat(name.as_str()).concat("' is ").concat(
                    actual.as_str(),
                ).concat(", expected ").concat(expected.as_str())
            },
            CoreError::PoolTemplateOwned { vm, pool } => {
                "VM '".to_owned().concat(vm.as_str()).concat("' is the template of pool '").concat(
                    pool.as_str(),
                ).concat("'")
            },
            CoreError::PoolTemplateUnavailable { pool, template } => {
                "template VM ".to_owned().concat(id_text(*template).as_str()).concat(
                    " of pool '",
                ).concat(pool.as_str()).concat("' is unavailable")
            },
            CoreError::VolumeAttached { volume, vm } => {
                "volume '".to_owned().concat(volume.as_str()).concat("' is attached to VM '").concat(
                    vm.as_str(),
                ).concat("'")
            },
            CoreError::PortForwardConflict(port) => {
                "host port ".to_owned().concat(decimal_string(*port as u64).as_str()).concat(
                    " is already in use",
                )
            },
            CoreError::PortForwardDenied(port) => {
                "permission denied binding host port ".to_owned().concat(
                    decimal_string(*port as u64).as_str(),
                ).concat("; privileged ports (<1024) require elevated permissions")
            },
            CoreError::State(e) => {
                "state error: ".to_owned().concat(e.message().as_str())
            },
        }
    }
}

/// An error tells its caller what it is about. One with a text ends with that text; one in
/// the wrong state tells the VM, the state it is in and the one it ought to be in, in this
/// order; one about a port tells the port; and one of the store says what the store says.
pub proof fn messages_tell_what_the_error_is_about(
    text: Seq<char>,
    name: Seq<char>,
    actual: Seq<char>,
    expected: Seq<char>,
    port: u16,
    e: StateErrorView,
)
    ensures
        has_suffix(error_message(ErrorView::SecretCrypto(text)), text),
        has_suffix(error_message(ErrorView::InvalidArgument(text)), text),
        has_suffix(error_message(ErrorView::Io(text)), text),
        has_suffix(error_message(ErrorView::ServiceOperationFailed(text)), text),
        has_suffix(error_message(ErrorView::UserdataCancelled(text)), text),
        has_suffix(error_message(ErrorView::Network(text)), text),
        has_suffix(error_message(ErrorView::Storage(text)), text),
        has_suffix(error_message(ErrorView::State(e)), state_message(e)),
        occurs_at(
            error_message(ErrorView::InvalidState { name, actual, expected }),
            name,
            "VM '"@.len() as int,
        ),
        occurs_at(
            error_message(ErrorView::InvalidState { name, actual, expected }),
            actual,
            ("VM '"@ + name + "' is "@).len() as int,
        ),
        has_suffix(
            error_message(ErrorView::InvalidState { name, actual, expected }),
            ", expected "@ + expected,
        ),
        occurs(error_message(ErrorView::PortForwardConflict(port)), decimal(port as nat)),
        occurs(error_message(ErrorView::PortForwardDenied(port)), decimal(port as nat)),
        occurs(
            state_message(StateErrorView::PortAlreadyForwarded(port)),
            decimal(port as nat),
        ),
{
    stands_at_the_end("secret crypto error: "@, text);
    stands_at_the_end("invalid argument: "@, text);
    stands_at_the_end("I/O error: "@, text);
    stands_at_the_end("service operation failed: "@, text);
    stands_at_the_end("userdata execution was cancelled for VM: "@, text);
    stands_at_the_end("network error: "@, text);
    stands_at_the_end("storage error: "@, text);
    stands_at_the_end("state error: "@, state_message(e));
    let wrong = error_message(ErrorView::InvalidState { name, actual, expected });
    stands_between("VM '"@, name, "' is "@ + actual + ", expected "@ + expected);
    assert(wrong =~= "VM '"@ + name + ("' is "@ + actual + ", expected "@ + expected));
    stands_between("VM '"@ + name + "' is "@, actual, ", expected "@ + expected);
    assert(wrong =~= "VM '"@ + name + "' is "@ + actual + (", expected "@ + expected));
    stands_at_the_end("VM '"@ + name + "' is "@ + actual, ", expected "@ + expected);
    let d = decimal(port as nat);
    stands_between("host port "@, d, " is already in use"@);
    stands_between(
        "permission denied binding host port "@,
        d,
        "; privileged ports (<1024) require elevated permissions"@,
    );
    stands_between("host port "@, d, " is already forwarded"@);
}

/// An error between a VM and what holds on to it names both, each in its place.
pub proof fn messages_name_both_sides(vm: Seq<char>, other: Seq<char>, id: u128)
    ensures
        occurs_at(
            error_message(ErrorView::PoolTemplateOwned { vm, pool: other }),
            vm,
            "VM '"@.len() as int,
        ),
        has_suffix(error_message(ErrorView::PoolTemplateOwned { vm, pool: other }), other + "'"@),
        occurs_at(
            error_message(ErrorView::VolumeAttached { volume: other, vm }),
            other,
            "volume '"@.len() as int,
        ),
        has_suffix(error_message(ErrorView::VolumeAttached { volume: other, vm }), vm + "'"@),
        occurs_at(
            error_message(ErrorView::PoolTemplateUnavailable { pool: other, template: id }),
            hyphenated(id),
            "template VM "@.len() as int,
        ),
        occurs(
            error_message(ErrorView::PoolTemplateUnavailable { pool: other, template: id }),
            other,
        ),
{
    let a = error_message(ErrorView::PoolTemplateOwned { vm, pool: other });
    let m = "' is the template of pool '"@;
    stands_between("VM '"@, vm, m + other + "'"@);
    assert(a =~= "VM '"@ + vm + (m + other + "'"@));
    stands_at_the_end("VM '"@ + vm + m, other + "'"@);
    assert(a =~= "VM '"@ + vm + m + (other + "'"@));
    let b = error_message(ErrorView::VolumeAttached { volume: other, vm });
    let n = "' is attached to VM '"@;
    stands_between("volume '"@, other, n + vm + "'"@);
    assert(b =~= "volume '"@ + other + (n + vm + "'"@));
    stands_at_the_end("volume '"@ + other + n, vm + "'"@);
    assert(b =~= "volume '"@ + other + n + (vm + "'"@));
    let c = error_message(ErrorView::PoolTemplateUnavailable { pool: other, template: id });
    stands_between("template VM "@, hyphenated(id), " of pool '"@ + other + "' is unavailable"@);
    assert(c =~= "template VM "@ + hyphenated(id) + (" of pool '"@ + other
        + "' is unavailable"@));
    stands_between(
        "template VM "@ + hyphenated(id) + " of pool '"@,
        other,
        "' is unavailable"@,
    );
}

/// The store tells of a record by what its kind is called, and of whatever else by the name,
/// the pool, the template or the column that it is about.
pub proof fn store_messages_tell_the_record(
    kind: Resource,
    name: Seq<char>,
    id: u128,
    message: Seq<char>,
)
    ensures
        occurs_at(state_message(StateErrorView::NotFound(kind)), resource_name(kind), 0),
        occurs_at(state_message(StateErrorView::NotFoundByName(kind)), resource_name(kind), 0),
        occurs_at(state_message(StateErrorView::AlreadyExists(kind, name)), resource_name(kind), 0),
        has_suffix(state_message(StateErrorView::AlreadyExists(kind, name)), name),
        has_suffix(state_message(StateErrorView::PoolTemplateOwned(name)), name),
        has_suffix(state_message(StateErrorView::PoolTemplateUnavailable(id)), hyphenated(id)),
        has_suffix(
            state_message(StateErrorView::CorruptData { column: name, message }),
            ": "@ + message,
        ),
        occurs(state_message(StateErrorView::CorruptData { column: name, message }), name),
        state_message(StateErrorView::Other(message)) == message,
{
    let k = resource_name(kind);
    assert((k + " not found"@).subrange(0, k.len() as int) =~= k);
    assert((k + " not found by name"@).subrange(0, k.len() as int) =~= k);
    assert((k + " already exists: "@ + name).subrange(0, k.len() as int) =~= k);
    stands_at_the_end(k + " already exists: "@, name);
    stands_at_the_end("VM is the template of pool "@, name);
    stands_at_the_end("pool template is unavailable: "@, hyphenated(id));
    let c = "corrupt data in "@ + name + ": "@ + message;
    stands_between("corrupt data in "@, name, ": "@ + message);
    assert(c =~= "corrupt data in "@ + name + (": "@ + message));
    stands_at_the_end("corrupt data in "@ + name, ": "@ + message);
}

} // verus!
