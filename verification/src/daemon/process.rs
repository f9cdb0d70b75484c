//! The daemon process: where it runs, whom it talks to, and how it answers each operation.

use crate::contract::common::{
    optional_id, same_optional_id, CapabilityState, ErrorCode, RuntimeHost, UuidV4,
};
use crate::contract::internal::{HostActivate, HostPrepareTransition};
use crate::daemon::capability::{
    availability, state_of, CompanionCapabilityRegistration, CompanionLink,
};
use crate::daemon::host::{canonical_directory_matches, CanonicalDirectoryIdentity};
use crate::daemon::magisk::MODULE_VERSION_CODE;
use crate::daemon::maintenance::{error_json, error_model, InstallKind};
use crate::daemon::protocol::{
    DaemonRole, EndpointRole, Handshake, ModuleIdentity, Operation, WireEnvelope, PROTOCOL_VERSION,
};
use crate::error::DomainError;
use crate::json::{
    array, entry, item_models, lemma_member_at, member, member_models, object, optional_text_model,
    text_value, Json, JsonModel,
};
use crate::text::{joined, same, texts};
use vstd::prelude::*;

verus! {

// ---------------------------------------------------------------------------------------
// Where the daemon runs.
// ---------------------------------------------------------------------------------------

/// The module that the daemon was built for.
pub fn build_identity(debug_module: bool) -> (identity: ModuleIdentity)
    ensures
        identity == (if debug_module {
            ModuleIdentity::spec_debug()
        } else {
            ModuleIdentity::spec_stable()
        }),
{
    if debug_module {
        ModuleIdentity::debug()
    } else {
        ModuleIdentity::stable()
    }
}

/// What speaks against an executable at a path of these components: it must be `bin/droidbridged`
/// of a directory with the name of the module.
pub open spec fn executable_fault(components: Seq<Seq<char>>, module_id: Seq<char>) -> Option<
    DomainError,
> {
    let n = components.len() as int;
    if n < 2 {
        Some(DomainError { code: ErrorCode::IoError, reason: "daemon is outside a module root" })
    } else if n < 3 || components[n - 1] != "droidbridged"@ || components[n - 2] != "bin"@
        || components[n - 3] != module_id {
        Some(
            DomainError {
                code: ErrorCode::PermissionDenied,
                reason: "daemon executable is outside its fixed module identity",
            },
        )
    } else {
        None
    }
}

/// Checks where the executable is. `components` are those of its absolute path, without the root.
pub fn check_executable(components: &[String], identity: &ModuleIdentity) -> (checked: Result<
    (),
    DomainError,
>)
    ensures
        match executable_fault(texts(components@), identity.module_id@) {
            Some(error) => checked == Err::<(), _>(error),
            None => checked == Ok::<(), DomainError>(()),
        },
{
    let n: usize = components.len();
    if n < 2 {
        return Err(DomainError::new(ErrorCode::IoError, "daemon is outside a module root"));
    }
    proof {
        assert(texts(components@).len() == n);
        assert(texts(components@)[n - 1] == components@[n - 1]@);
        assert(texts(components@)[n - 2] == components@[n - 2]@);
        if n >= 3 {
            assert(texts(components@)[n - 3] == components@[n - 3]@);
        }
    }
    if n < 3 || !same(components[n - 1].as_str(), "droidbridged") || !same(
        components[n - 2].as_str(),
        "bin",
    ) || !same(components[n - 3].as_str(), identity.module_id) {
        return Err(
            DomainError::new(
                ErrorCode::PermissionDenied,
                "daemon executable is outside its fixed module identity",
            ),
        );
    }
    Ok(())
}

/// The directory that the system made for the application.
pub fn package_directory(identity: &ModuleIdentity) -> (path: String)
    ensures
        path@ == "/data/user_de/0/"@ + identity.package@,
{
    joined("/data/user_de/0/", identity.package)
}

/// The directory that holds the daemon's state.
pub fn canonical_base(identity: &ModuleIdentity) -> (path: String)
    ensures
        path@ == "/data/user_de/0/"@ + identity.package@ + "/files/droidbridge"@,
{
    let front = package_directory(identity);
    joined(front.as_str(), "/files/droidbridge")
}

/// Checks that the application has made the directory.
pub fn check_canonical_base(is_directory: bool) -> (checked: Result<(), DomainError>)
    ensures
        checked == (if is_directory {
            Ok(())
        } else {
            Err(
                DomainError {
                    code: ErrorCode::NotFound,
                    reason: "App canonical store is not initialized",
                },
            )
        }),
{
    if is_directory {
        Ok(())
    } else {
        Err(DomainError::new(ErrorCode::NotFound, "App canonical store is not initialized"))
    }
}

/// The identity of the directory, from what the system tells of it.
pub fn canonical_directory_identity(
    metadata: Option<(bool, CanonicalDirectoryIdentity)>,
) -> (identity: Result<CanonicalDirectoryIdentity, DomainError>)
    ensures
        identity == (match metadata {
            None => Err(
                DomainError {
                    code: ErrorCode::IoError,
                    reason: "cannot inspect App canonical directory",
                },
            ),
            Some((is_directory, identity)) => if is_directory {
                Ok(identity)
            } else {
                Err(
                    DomainError {
                        code: ErrorCode::IoError,
                        reason: "App canonical directory is not a directory",
                    },
                )
            },
        }),
{
    match metadata {
        None => Err(
            DomainError::new(ErrorCode::IoError, "cannot inspect App canonical directory"),
        ),
        Some((is_directory, identity)) => {
            if !is_directory {
                return Err(
                    DomainError::new(
                        ErrorCode::IoError,
                        "App canonical directory is not a directory",
                    ),
                );
            }
            Ok(identity)
        },
    }
}

/// Refuses to go on in another directory than the one that was found first.
pub fn require_canonical_directory(
    expected: CanonicalDirectoryIdentity,
    observed: Option<CanonicalDirectoryIdentity>,
) -> (checked: Result<(), DomainError>)
    ensures
        checked == (if observed == Some(expected) {
            Ok(())
        } else {
            Err(
                DomainError {
                    code: ErrorCode::StaleAuthority,
                    reason: "App canonical directory identity changed",
                },
            )
        }),
{
    if canonical_directory_matches(expected, observed) {
        Ok(())
    } else {
        Err(
            DomainError::new(
                ErrorCode::StaleAuthority,
                "App canonical directory identity changed",
            ),
        )
    }
}

// ---------------------------------------------------------------------------------------
// Connecting to the application.
// ---------------------------------------------------------------------------------------

/// The pauses between connections, which grow and then stay.
pub open spec fn connect_delays() -> Seq<u64> {
    seq![1, 2, 4, 8, 16, 30]
}

/// A connection that lasted so long ends the growth of the pauses.
pub const STABLE_CONNECTION_S: u64 = 300;

/// How long to wait before the next connection.
#[derive(Clone, Copy, Debug, PartialEq, Eq, Structural)]
pub struct ConnectBackoff {
    failure_index: usize,
}

impl ConnectBackoff {
    /// How many pauses there were since the growth began, up to the last kind of pause.
    pub closed spec fn index(self) -> int {
        self.failure_index as int
    }

    pub open spec fn wf(self) -> bool {
        0 <= self.index() < connect_delays().len()
    }

    pub fn new() -> (backoff: Self)
        ensures
            backoff.wf(),
            backoff.index() == 0,
    {
        ConnectBackoff { failure_index: 0 }
    }

    /// A connection ended that lasted `elapsed_s`.
    pub fn observe_connection(&mut self, elapsed_s: u64)
        requires
            old(self).wf(),
        ensures
            final(self).wf(),
            final(self).index() == (if elapsed_s >= STABLE_CONNECTION_S {
                0
            } else {
                old(self).index()
            }),
    {
        if elapsed_s >= STABLE_CONNECTION_S {
            self.failure_index = 0;
        }
    }

    /// The next pause, in seconds.
    pub fn next_delay_s(&mut self) -> (delay: u64)
        requires
            old(self).wf(),
        ensures
            final(self).wf(),
            delay == connect_delays()[old(self).index()],
            final(self).index() == (if old(self).index() + 1 < connect_delays().len() {
                old(self).index() + 1
            } else {
                old(self).index()
            }),
    {
        let delays: [u64; 6] = [1, 2, 4, 8, 16, 30];
        assert(delays@ =~= connect_delays());
        let delay: u64 = delays[self.failure_index];
        if self.failure_index + 1 < 6 {
            self.failure_index = self.failure_index + 1;
        }
        delay
    }
}

/// The pauses never shrink while connections do not last.
pub proof fn pauses_only_grow(earlier: int, later: int)
    requires
        0 <= earlier <= later < connect_delays().len(),
    ensures
        connect_delays()[earlier] <= connect_delays()[later],
{
}

/// Who owns the runtime.
#[derive(Debug, PartialEq)]
pub struct RuntimeOwner {
    pub runtime_epoch: UuidV4,
    pub host: RuntimeHost,
    pub host_generation: u64,
}

/// What the daemon says of itself when it connects.
pub fn daemon_handshake(
    identity: &ModuleIdentity,
    owner: &RuntimeOwner,
    instance: Option<UuidV4>,
) -> (handshake: Handshake)
    ensures
        handshake.protocol_version == PROTOCOL_VERSION,
        handshake.role == EndpointRole::Droidbridged,
        handshake.package@ == identity.package@,
        handshake.user_id == 0,
        handshake.runtime_epoch@ == owner.runtime_epoch@,
        handshake.host == owner.host,
        handshake.host_generation == owner.host_generation,
        handshake.runtime_instance_id == instance,
{
    Handshake {
        protocol_version: PROTOCOL_VERSION,
        role: EndpointRole::Droidbridged,
        package: identity.package.to_owned(),
        user_id: 0,
        runtime_epoch: owner.runtime_epoch.clone(),
        host: owner.host,
        host_generation: owner.host_generation,
        runtime_instance_id: instance,
    }
}

/// Whether the application knows the current owner.
pub open spec fn knows_owner(handshake: Handshake, owner: RuntimeOwner) -> bool {
    handshake.runtime_epoch@ == owner.runtime_epoch@ && handshake.host == owner.host
        && handshake.host_generation == owner.host_generation
}

/// Refuses an application that does not know the current owner.
pub fn check_app_owner(handshake: &Handshake, owner: &RuntimeOwner) -> (checked: Result<
    (),
    DomainError,
>)
    ensures
        checked == (if knows_owner(*handshake, *owner) {
            Ok(())
        } else {
            Err(
                DomainError {
                    code: ErrorCode::StaleAuthority,
                    reason: "App handshake owner fence is stale",
                },
            )
        }),
{
    if !handshake.runtime_epoch.same_as(&owner.runtime_epoch) || handshake.host != owner.host
        || handshake.host_generation != owner.host_generation {
        return Err(
            DomainError::new(ErrorCode::StaleAuthority, "App handshake owner fence is stale"),
        );
    }
    Ok(())
}

// ---------------------------------------------------------------------------------------
// Requests.
// ---------------------------------------------------------------------------------------

/// Only an installation comes with descriptors.
pub fn check_request_descriptors(operation: Operation, descriptors: usize) -> (checked: Result<
    (),
    DomainError,
>)
    ensures
        checked == (if descriptors == 0 || operation is MaintenanceInstallApk || operation is
            MaintenanceInstallModule {
            Ok(())
        } else {
            Err(
                DomainError {
                    code: ErrorCode::ProtocolIncompatible,
                    reason: "operation does not accept descriptors",
                },
            )
        }),
{
    let installs = match operation {
        Operation::MaintenanceInstallApk => true,
        Operation::MaintenanceInstallModule => true,
        _ => false,
    };
    if descriptors != 0 && !installs {
        return Err(
            DomainError::new(
                ErrorCode::ProtocolIncompatible,
                "operation does not accept descriptors",
            ),
        );
    }
    Ok(())
}

/// What speaks against a request, in the order in which it is looked for: another owner or a
/// request that only the daemon may make, another instance of the runtime, or an operation that
/// the daemon does not serve in its role.
pub open spec fn request_fault(
    request: WireEnvelope,
    owner: RuntimeOwner,
    instance: Option<UuidV4>,
) -> Option<DomainError> {
    let operation = request.operation;
    let role = match owner.host {
        RuntimeHost::ApkRuntime => DaemonRole::BackendOnly,
        RuntimeHost::MagiskBackend => DaemonRole::RuntimeHost,
    };
    if request.runtime_epoch@ != owner.runtime_epoch@ || request.host_generation
        != owner.host_generation || operation is CompanionExecute || operation is CompanionCancel {
        Some(
            DomainError {
                code: ErrorCode::StaleAuthority,
                reason: "daemon request fence is stale or has invalid direction",
            },
        )
    } else if (operation is RuntimeForward || operation is RuntimeCancel || operation is
        NetworkDefaultChanged || operation is NetworkAttachment) && optional_id(
        request.runtime_instance_id,
    ) != optional_id(instance) {
        Some(
            DomainError {
                code: ErrorCode::StaleAuthority,
                reason: "daemon Runtime instance fence is stale",
            },
        )
    } else if !role.serves(operation) {
        Some(
            DomainError {
                code: ErrorCode::ProtocolIncompatible,
                reason: "operation is illegal for the daemon role",
            },
        )
    } else {
        None
    }
}

/// Refuses a request that the daemon must not answer.
pub fn validate_request_fence(
    request: &WireEnvelope,
    owner: &RuntimeOwner,
    instance: &Option<UuidV4>,
) -> (validated: Result<(), DomainError>)
    ensures
        match request_fault(*request, *owner, *instance) {
            Some(error) => validated == Err::<(), _>(error),
            None => validated == Ok::<(), DomainError>(()),
        },
{
    let outbound = match request.operation {
        Operation::CompanionExecute => true,
        Operation::CompanionCancel => true,
        _ => false,
    };
    if !request.runtime_epoch.same_as(&owner.runtime_epoch) || request.host_generation
        != owner.host_generation || outbound {
        return Err(
            DomainError::new(
                ErrorCode::StaleAuthority,
                "daemon request fence is stale or has invalid direction",
            ),
        );
    }
    let instanced = match request.operation {
        Operation::RuntimeForward => true,
        Operation::RuntimeCancel => true,
        Operation::NetworkDefaultChanged => true,
        Operation::NetworkAttachment => true,
        _ => false,
    };
    if instanced && !same_optional_id(&request.runtime_instance_id, instance) {
        return Err(
            DomainError::new(ErrorCode::StaleAuthority, "daemon Runtime instance fence is stale"),
        );
    }
    if !DaemonRole::from_owner(owner.host).permits(request.operation) {
        return Err(
            DomainError::new(
                ErrorCode::ProtocolIncompatible,
                "operation is illegal for the daemon role",
            ),
        );
    }
    Ok(())
}

/// Whether the application is asked for its capabilities when it asks for the status.
pub fn asks_capabilities(operation: Operation, host_present: bool) -> (asks: bool)
    ensures
        asks == (operation is HostStatus && host_present),
{
    match operation {
        Operation::HostStatus => host_present,
        _ => false,
    }
}

/// Who answers a request.
#[derive(Debug)]
pub enum Handling {
    Install(InstallKind),
    ArtifactQuery,
    Status,
    PrepareTransition,
    AbortTransition,
    ReleaseTransition,
    ActivateTransition,
    ForwardRuntime,
    Capabilities,
    NetworkDefaultChanged,
    NetworkAttachment,
    MaintenanceStatus,
    Reply(Json),
    Refuse(DomainError),
}

pub open spec fn not_cancelled_model() -> JsonModel {
    JsonModel::Object(seq![("cancelled"@, JsonModel::Boolean(false))])
}

pub open spec fn no_faults_model() -> JsonModel {
    JsonModel::Object(seq![("faults"@, JsonModel::Array(Seq::empty()))])
}

/// Whether `handling` tells who answers an operation. `artifact_query` tells whether what is
/// forwarded is a query for an artifact.
pub open spec fn is_handling(
    handling: Handling,
    operation: Operation,
    artifact_query: bool,
) -> bool {
    match operation {
        Operation::MaintenanceInstallApk => handling == Handling::Install(InstallKind::Apk),
        Operation::MaintenanceInstallModule => handling == Handling::Install(InstallKind::Module),
        Operation::RuntimeForward => if artifact_query {
            handling is ArtifactQuery
        } else {
            handling is ForwardRuntime
        },
        Operation::HostStatus => handling is Status,
        Operation::HostPrepareTransition => handling is PrepareTransition,
        Operation::HostAbortTransition => handling is AbortTransition,
        Operation::HostRelease => handling is ReleaseTransition,
        Operation::HostActivate => handling is ActivateTransition,
        Operation::RuntimeCancel => handling matches Handling::Reply(reply) && reply@
            == not_cancelled_model(),
        Operation::CapabilitySnapshot => handling is Capabilities,
        Operation::NetworkDefaultChanged => handling is NetworkDefaultChanged,
        Operation::NetworkAttachment => handling is NetworkAttachment,
        Operation::DiagnosticsSnapshot => handling matches Handling::Reply(reply) && reply@
            == no_faults_model(),
        Operation::MaintenanceStatus => handling is MaintenanceStatus,
        Operation::CompanionExecute | Operation::CompanionCancel => handling == Handling::Refuse(
            DomainError {
                code: ErrorCode::ProtocolIncompatible,
                reason: "companion operation has invalid direction",
            },
        ),
    }
}

/// Who answers a request.
pub fn handling_of(operation: Operation, artifact_query: bool) -> (handling: Handling)
    ensures
        is_handling(handling, operation, artifact_query),
{
    match operation {
        Operation::MaintenanceInstallApk => Handling::Install(InstallKind::Apk),
        Operation::MaintenanceInstallModule => Handling::Install(InstallKind::Module),
        Operation::RuntimeForward => {
            if artifact_query {
                Handling::ArtifactQuery
            } else {
                Handling::ForwardRuntime
            }
        },
        Operation::HostStatus => Handling::Status,
        Operation::HostPrepareTransition => Handling::PrepareTransition,
        Operation::HostAbortTransition => Handling::AbortTransition,
        Operation::HostRelease => Handling::ReleaseTransition,
        Operation::HostActivate => Handling::ActivateTransition,
        Operation::RuntimeCancel => {
            let members = vec![entry("cancelled", Json::Boolean(false))];
            assert(member_models(members@) =~= not_cancelled_model()->Object_0);
            Handling::Reply(object(members))
        },
        Operation::CapabilitySnapshot => Handling::Capabilities,
        Operation::NetworkDefaultChanged => Handling::NetworkDefaultChanged,
        Operation::NetworkAttachment => Handling::NetworkAttachment,
        Operation::DiagnosticsSnapshot => {
            let items: Vec<Json> = Vec::new();
            assert(item_models(items@) =~= Seq::empty());
            let members = vec![entry("faults", array(items))];
            assert(member_models(members@) =~= no_faults_model()->Object_0);
            Handling::Reply(object(members))
        },
        Operation::MaintenanceStatus => Handling::MaintenanceStatus,
        Operation::CompanionExecute | Operation::CompanionCancel => Handling::Refuse(
            DomainError::new(
                ErrorCode::ProtocolIncompatible,
                "companion operation has invalid direction",
            ),
        ),
    }
}

pub open spec fn unavailable_runtime() -> DomainError {
    DomainError { code: ErrorCode::CapabilityUnavailable, reason: "Magisk Runtime is unavailable" }
}

/// Checks that the daemon hosts the runtime.
pub fn require_runtime(host_present: bool) -> (checked: Result<(), DomainError>)
    ensures
        checked == (if host_present {
            Ok(())
        } else {
            Err(unavailable_runtime())
        }),
{
    if host_present {
        Ok(())
    } else {
        Err(DomainError::new(ErrorCode::CapabilityUnavailable, "Magisk Runtime is unavailable"))
    }
}

/// The reply to a query for an artifact. A failure is told in the reply, and never ends the
/// connection.
pub fn artifact_reply(answer: Result<Json, DomainError>) -> (reply: Json)
    ensures
        reply@ == (match answer {
            Ok(reply) => reply@,
            Err(error) => error_model(error.code),
        }),
{
    match answer {
        Ok(reply) => reply,
        Err(error) => error_json(error.code),
    }
}

/// Checks what a change of the default network is told for: the instance of the runtime it names,
/// and a runtime that is hosted here.
pub fn check_network_event(instance: &Option<UuidV4>, host_present: bool) -> (checked: Result<
    (),
    DomainError,
>)
    ensures
        checked == (if instance is None {
            Err(
                DomainError {
                    code: ErrorCode::ProtocolIncompatible,
                    reason: "network event instance fence is absent",
                },
            )
        } else if !host_present {
            Err(unavailable_runtime())
        } else {
            Ok(())
        }),
{
    if instance.is_none() {
        return Err(
            DomainError::new(
                ErrorCode::ProtocolIncompatible,
                "network event instance fence is absent",
            ),
        );
    }
    require_runtime(host_present)
}

pub open spec fn flag_model(key: Seq<char>) -> JsonModel {
    JsonModel::Object(seq![(key, JsonModel::Boolean(true))])
}

fn flag_reply(key: &str) -> (reply: Json)
    ensures
        reply@ == flag_model(key@),
{
    let members = vec![entry(key, Json::Boolean(true))];
    assert(member_models(members@) =~= flag_model(key@)->Object_0);
    object(members)
}

/// The reply to a change of the network. A change of a source that is not current is refused.
pub fn network_reply(stale: bool) -> (reply: Json)
    ensures
        reply@ == (if stale {
            error_model(ErrorCode::StaleAuthority)
        } else {
            flag_model("accepted"@)
        }),
{
    if stale {
        error_json(ErrorCode::StaleAuthority)
    } else {
        flag_reply("accepted")
    }
}

// ---------------------------------------------------------------------------------------
// Transitions between hosts.
// ---------------------------------------------------------------------------------------

/// The host that the daemon is, as far as a transition asks.
#[derive(Debug)]
pub struct LiveHost {
    pub guard_ready: bool,
    pub instance_id: UuidV4,
}

/// What is done to prepare a transition.
#[derive(Clone, Copy, Debug, PartialEq, Eq)]
pub enum PrepareStep {
    /// The daemon will be the host.
    Target,
    /// The daemon is the host, and hands over.
    Source,
    Refuse(ErrorCode),
}

/// Whether a request to prepare a transition is about the current owner and another host.
pub open spec fn prepares_current(request: HostPrepareTransition, owner: RuntimeOwner) -> bool {
    request.runtime_epoch@ == owner.runtime_epoch@ && request.from_host == owner.host
        && request.from_generation == owner.host_generation && request.target_host != owner.host
}

/// What is done to prepare a transition. `ready` tells whether the module could serve.
pub open spec fn prepare_of(
    request: HostPrepareTransition,
    owner: RuntimeOwner,
    ready: bool,
    host: Option<LiveHost>,
) -> Result<PrepareStep, DomainError> {
    if !prepares_current(request, owner) {
        Ok(PrepareStep::Refuse(ErrorCode::StaleAuthority))
    } else if owner.host is ApkRuntime {
        if ready {
            Ok(PrepareStep::Target)
        } else {
            Ok(PrepareStep::Refuse(ErrorCode::CapabilityUnavailable))
        }
    } else {
        match host {
            None => Err(unavailable_runtime()),
            Some(host) => if !host.guard_ready {
                Ok(PrepareStep::Refuse(ErrorCode::IoError))
            } else if request.from_instance_id@ != host.instance_id@ {
                Ok(PrepareStep::Refuse(ErrorCode::StaleAuthority))
            } else {
                Ok(PrepareStep::Source)
            },
        }
    }
}

/// What is done to prepare a transition.
pub fn prepare_step(
    request: &HostPrepareTransition,
    owner: &RuntimeOwner,
    ready: bool,
    host: &Option<LiveHost>,
) -> (step: Result<PrepareStep, DomainError>)
    ensures
        step == prepare_of(*request, *owner, ready, *host),
{
    if !request.runtime_epoch.same_as(&owner.runtime_epoch) || request.from_host != owner.host
        || request.from_generation != owner.host_generation || request.target_host == owner.host {
        return Ok(PrepareStep::Refuse(ErrorCode::StaleAuthority));
    }
    match owner.host {
        RuntimeHost::ApkRuntime => {
            if !ready {
                return Ok(PrepareStep::Refuse(ErrorCode::CapabilityUnavailable));
            }
            Ok(PrepareStep::Target)
        },
        RuntimeHost::MagiskBackend => match host {
            None => Err(
                DomainError::new(
                    ErrorCode::CapabilityUnavailable,
                    "Magisk Runtime is unavailable",
                ),
            ),
            Some(host) => {
                if !host.guard_ready {
                    return Ok(PrepareStep::Refuse(ErrorCode::IoError));
                }
                if !request.from_instance_id.same_as(&host.instance_id) {
                    return Ok(PrepareStep::Refuse(ErrorCode::StaleAuthority));
                }
                Ok(PrepareStep::Source)
            },
        },
    }
}

pub open spec fn prepared_model(store_revision: u64) -> JsonModel {
    JsonModel::Object(
        seq![
            ("prepared"@, JsonModel::Boolean(true)),
            ("store_revision"@, JsonModel::Unsigned(store_revision)),
        ],
    )
}

/// The reply to a preparation: the revision of the store that is handed over, or the failure.
pub fn prepared_reply(prepared: Result<u64, ErrorCode>) -> (reply: Json)
    ensures
        reply@ == (match prepared {
            Ok(store_revision) => prepared_model(store_revision),
            Err(code) => error_model(code),
        }),
{
    match prepared {
        Ok(store_revision) => {
            let members = vec![
                entry("prepared", Json::Boolean(true)),
                entry("store_revision", Json::Unsigned(store_revision)),
            ];
            assert(member_models(members@) =~= prepared_model(store_revision)->Object_0);
            object(members)
        },
        Err(code) => error_json(code),
    }
}

/// The transition for which the daemon has prepared to be the host.
#[derive(Debug)]
pub struct TargetPreparation {
    pub transition_id: Option<UuidV4>,
}

/// Who gives up a transition.
#[derive(Clone, Copy, Debug, PartialEq, Eq, Structural)]
pub enum AbortStep {
    /// The daemon has given up to be the host.
    Aborted,
    /// The daemon is the host, and stays it.
    Source,
}

/// A transition as it is recorded in the store.
#[derive(Debug)]
pub struct TransitionIntent {
    /// The target is committed and has to be activated.
    pub committed: bool,
    pub transition_id: UuidV4,
    pub runtime_epoch: UuidV4,
    pub target_host: RuntimeHost,
    pub target_generation: u64,
}

/// Whether a request to activate the daemon's host is about the current owner, the committed
/// transition in the store and, where there was a preparation, the transition that it was for.
pub open spec fn activates_current(
    request: HostActivate,
    owner: RuntimeOwner,
    transition: Option<TransitionIntent>,
    prepared: Option<Seq<char>>,
) -> bool {
    &&& request.runtime_epoch@ == owner.runtime_epoch@
    &&& request.host_generation == owner.host_generation
    &&& request.target_host == owner.host
    &&& owner.host is MagiskBackend
    &&& match transition {
        Some(intent) => {
            &&& intent.committed
            &&& intent.transition_id@ == request.transition_id@
            &&& intent.runtime_epoch@ == request.runtime_epoch@
            &&& intent.target_host == request.target_host
            &&& intent.target_generation == request.host_generation
        },
        None => false,
    }
    &&& prepared matches Some(id) ==> id == request.transition_id@
}

impl TargetPreparation {
    pub fn new() -> (preparation: Self)
        ensures
            preparation.transition_id is None,
    {
        TargetPreparation { transition_id: None }
    }

    /// The daemon prepares to be the host.
    pub fn prepare(&mut self, transition_id: &UuidV4)
        ensures
            optional_id(final(self).transition_id) == Some(transition_id@),
    {
        self.transition_id = Some(transition_id.clone());
    }

    /// Gives up a transition: the daemon's own preparation for it, or else that of its host.
    pub fn abort(&mut self, transition_id: &UuidV4, host_present: bool) -> (step: Result<
        AbortStep,
        DomainError,
    >)
        ensures
            if optional_id(old(self).transition_id) == Some(transition_id@) {
                step == Ok::<_, DomainError>(AbortStep::Aborted) && final(self).transition_id is None
            } else {
                &&& *final(self) == *old(self)
                &&& step == (if host_present {
                    Ok(AbortStep::Source)
                } else {
                    Err(
                        DomainError {
                            code: ErrorCode::StaleAuthority,
                            reason: "no source Runtime is prepared",
                        },
                    )
                })
            },
    {
        let own = match &self.transition_id {
            Some(prepared) => prepared.same_as(transition_id),
            None => false,
        };
        if own {
            self.transition_id = None;
            return Ok(AbortStep::Aborted);
        }
        if !host_present {
            return Err(
                DomainError::new(ErrorCode::StaleAuthority, "no source Runtime is prepared"),
            );
        }
        Ok(AbortStep::Source)
    }

    /// Whether the daemon's host is to be activated now.
    pub fn activates(
        &self,
        request: &HostActivate,
        owner: &RuntimeOwner,
        transition: &Option<TransitionIntent>,
    ) -> (activates: bool)
        ensures
            activates == activates_current(
                *request,
                *owner,
                *transition,
                optional_id(self.transition_id),
            ),
    {
        let committed = match transition {
            Some(intent) => intent.committed && intent.transition_id.same_as(
                &request.transition_id,
            ) && intent.runtime_epoch.same_as(&request.runtime_epoch) && intent.target_host
                == request.target_host && intent.target_generation == request.host_generation,
            None => false,
        };
        let other = match &self.transition_id {
            Some(prepared) => !prepared.same_as(&request.transition_id),
            None => false,
        };
        let hosts = match owner.host {
            RuntimeHost::MagiskBackend => true,
            RuntimeHost::ApkRuntime => false,
        };
        request.runtime_epoch.same_as(&owner.runtime_epoch) && request.host_generation
            == owner.host_generation && request.target_host == owner.host && hosts && committed
            && !other
    }

    /// The daemon's host was activated.
    pub fn activated(&mut self)
        ensures
            final(self).transition_id is None,
    {
        self.transition_id = None;
    }
}

/// A preparation that is given up by its own transition can be made again, for that transition or
/// any other; nothing of it stays in the way of an activation.
pub proof fn an_aborted_preparation_leaves_no_trace(
    request: HostActivate,
    owner: RuntimeOwner,
    transition: Option<TransitionIntent>,
    prepared: Seq<char>,
)
    ensures
        activates_current(request, owner, transition, Some(prepared)) ==> activates_current(
            request,
            owner,
            transition,
            None,
        ),
        activates_current(request, owner, transition, None) ==> (activates_current(
            request,
            owner,
            transition,
            Some(prepared),
        ) <==> prepared == request.transition_id@),
{
}

/// The reply to an aborted transition, or why the host did not give it up.
pub fn aborted_reply(aborted: Result<(), DomainError>) -> (reply: Json)
    ensures
        reply@ == (match aborted {
            Ok(()) => flag_model("aborted"@),
            Err(error) => error_model(error.code),
        }),
{
    match aborted {
        Ok(()) => flag_reply("aborted"),
        Err(error) => error_json(error.code),
    }
}

/// Checks that there is a host to release.
pub fn check_release(host_present: bool) -> (checked: Result<(), DomainError>)
    ensures
        checked == (if host_present {
            Ok(())
        } else {
            Err(
                DomainError {
                    code: ErrorCode::StaleAuthority,
                    reason: "Magisk Runtime is not active",
                },
            )
        }),
{
    if host_present {
        Ok(())
    } else {
        Err(DomainError::new(ErrorCode::StaleAuthority, "Magisk Runtime is not active"))
    }
}

/// What came of a release. The process is unbound from its network first, since a release cannot
/// be taken back: the host ends, which the second part tells, only after both have worked.
pub fn release_outcome(
    unbound: Result<(), DomainError>,
    released: Result<(), DomainError>,
) -> (outcome: (Json, bool))
    ensures
        outcome.1 == (unbound is Ok && released is Ok),
        outcome.0@ == (match (unbound, released) {
            (Err(error), _) => error_model(error.code),
            (Ok(()), Err(error)) => error_model(error.code),
            (Ok(()), Ok(())) => flag_model("released"@),
        }),
{
    match unbound {
        Err(error) => {
            return (error_json(error.code), false);
        },
        Ok(()) => {},
    }
    match released {
        Err(error) => (error_json(error.code), false),
        Ok(()) => (flag_reply("released"), true),
    }
}

/// Checks that the owner has chosen the daemon as its host.
pub fn check_selected(owner: &RuntimeOwner) -> (checked: Result<(), DomainError>)
    ensures
        checked == (if owner.host is MagiskBackend {
            Ok(())
        } else {
            Err(
                DomainError {
                    code: ErrorCode::StaleAuthority,
                    reason: "Magisk Runtime is not the selected owner",
                },
            )
        }),
{
    match owner.host {
        RuntimeHost::MagiskBackend => Ok(()),
        RuntimeHost::ApkRuntime => Err(
            DomainError::new(
                ErrorCode::StaleAuthority,
                "Magisk Runtime is not the selected owner",
            ),
        ),
    }
}

pub open spec fn activated_model(instance: Option<Seq<char>>) -> JsonModel {
    JsonModel::Object(
        seq![
            ("ready"@, JsonModel::Boolean(true)),
            ("runtime_instance_id"@, optional_text_model(instance)),
        ],
    )
}

fn id_value(id: &Option<UuidV4>) -> (value: Json)
    ensures
        value@ == optional_text_model(optional_id(*id)),
{
    match id {
        Some(id) => text_value(id.as_str()),
        None => Json::Null,
    }
}

/// The reply to an activation. One that is not current is refused.
pub fn activated_reply(current: bool, instance: &Option<UuidV4>) -> (reply: Json)
    ensures
        reply@ == (if current {
            activated_model(optional_id(*instance))
        } else {
            error_model(ErrorCode::StaleAuthority)
        }),
{
    if !current {
        return error_json(ErrorCode::StaleAuthority);
    }
    let members = vec![
        entry("ready", Json::Boolean(true)),
        entry("runtime_instance_id", id_value(instance)),
    ];
    assert(member_models(members@) =~= activated_model(optional_id(*instance))->Object_0);
    object(members)
}

// ---------------------------------------------------------------------------------------
// The application's capabilities.
// ---------------------------------------------------------------------------------------

/// One thing done to the host when the application comes or goes.
#[derive(Clone, Copy, Debug, PartialEq, Eq, Structural)]
pub enum CompanionStep {
    /// Every capability that the application told is registered.
    RegisterCapabilities,
    SetSurface(CapabilityState),
    UseCompanionEvents,
    /// Every capability that an application can have is withdrawn.
    WithdrawCapabilities,
    UseNativeEvents,
}

/// Why the capabilities of the application are withdrawn.
pub fn companion_withdrawal() -> (reason: &'static str)
    ensures
        reason@ == "COMPANION_UNAVAILABLE"@,
{
    "COMPANION_UNAVAILABLE"
}

/// What is done to a host when the application comes or goes.
pub open spec fn companion_steps(connected: bool, host_present: bool) -> Seq<CompanionStep> {
    if !host_present {
        Seq::empty()
    } else if connected {
        seq![
            CompanionStep::RegisterCapabilities,
            CompanionStep::SetSurface(CapabilityState::Available),
            CompanionStep::UseCompanionEvents,
        ]
    } else {
        seq![
            CompanionStep::WithdrawCapabilities,
            CompanionStep::SetSurface(CapabilityState::Unavailable),
            CompanionStep::UseNativeEvents,
        ]
    }
}

/// The application as the daemon knows it.
#[derive(Debug)]
pub struct Companion {
    pub link: CompanionLink,
    pub capabilities: Vec<CompanionCapabilityRegistration>,
}

impl Companion {
    pub fn new() -> (companion: Self)
        ensures
            !companion.link.spec_connected(),
            companion.capabilities@.len() == 0,
    {
        Companion { link: CompanionLink::default(), capabilities: Vec::new() }
    }

    /// The application comes or goes. What it told is forgotten when it goes.
    pub fn set_connected(&mut self, connected: bool, host_present: bool) -> (steps: Vec<
        CompanionStep,
    >)
        ensures
            final(self).link.spec_connected() == connected,
            final(self).capabilities@ == (if connected {
                old(self).capabilities@
            } else {
                Seq::empty()
            }),
            steps@ == companion_steps(connected, host_present),
    {
        if connected {
            self.link.observe_connected();
        } else {
            self.link.observe_disconnected();
            self.capabilities = Vec::new();
        }
        let mut steps: Vec<CompanionStep> = Vec::new();
        if host_present {
            if connected {
                steps.push(CompanionStep::RegisterCapabilities);
                steps.push(CompanionStep::SetSurface(CapabilityState::Available));
                steps.push(CompanionStep::UseCompanionEvents);
            } else {
                steps.push(CompanionStep::WithdrawCapabilities);
                steps.push(CompanionStep::SetSurface(CapabilityState::Unavailable));
                steps.push(CompanionStep::UseNativeEvents);
            }
        }
        assert(steps@ =~= companion_steps(connected, host_present));
        assert(self.capabilities@ =~= if connected {
            old(self).capabilities@
        } else {
            Seq::empty()
        });
        steps
    }

    /// What is done to a host that was just activated.
    pub fn host_activated(&self) -> (steps: Vec<CompanionStep>)
        ensures
            steps@ == (if self.link.spec_connected() {
                seq![
                    CompanionStep::SetSurface(CapabilityState::Available),
                    CompanionStep::RegisterCapabilities,
                    CompanionStep::SetSurface(CapabilityState::Available),
                    CompanionStep::UseCompanionEvents,
                ]
            } else {
                seq![CompanionStep::SetSurface(CapabilityState::Unavailable)]
            }),
    {
        let mut steps: Vec<CompanionStep> = Vec::new();
        let state = self.link.capability_state();
        steps.push(CompanionStep::SetSurface(state));
        match state {
            CapabilityState::Available => {
                steps.push(CompanionStep::RegisterCapabilities);
                steps.push(CompanionStep::SetSurface(CapabilityState::Available));
                steps.push(CompanionStep::UseCompanionEvents);
            },
            _ => {},
        }
        assert(steps@ =~= if self.link.spec_connected() {
            seq![
                CompanionStep::SetSurface(CapabilityState::Available),
                CompanionStep::RegisterCapabilities,
                CompanionStep::SetSurface(CapabilityState::Available),
                CompanionStep::UseCompanionEvents,
            ]
        } else {
            seq![CompanionStep::SetSurface(CapabilityState::Unavailable)]
        });
        steps
    }
}

// ---------------------------------------------------------------------------------------
// Status.
// ---------------------------------------------------------------------------------------

/// What the status is told of.
#[derive(Debug)]
pub struct StatusFacts {
    /// The module could serve.
    pub module_ready: bool,
    /// The owner of the runtime, where it could be read.
    pub owner: Option<RuntimeHost>,
    pub host: Option<LiveHost>,
    pub helper_ready: bool,
}

impl StatusFacts {
    pub open spec fn guard_ready(self) -> bool {
        self.host matches Some(host) && host.guard_ready
    }

    /// Whether the daemon serves in its role.
    pub open spec fn ready(self) -> bool {
        match self.owner {
            Some(RuntimeHost::ApkRuntime) => self.module_ready,
            Some(RuntimeHost::MagiskBackend) => self.module_ready && self.guard_ready(),
            None => false,
        }
    }
}

pub open spec fn status_model(
    facts: StatusFacts,
    identity: ModuleIdentity,
    module_version: Seq<char>,
) -> JsonModel {
    let instance = match facts.host {
        Some(host) => Some(host.instance_id@),
        None => None,
    };
    JsonModel::Object(
        seq![
            (
                "helper_ready"@,
                JsonModel::Boolean(facts.host is Some && facts.helper_ready),
            ),
            ("module_id"@, JsonModel::Text(identity.module_id@)),
            ("module_version"@, JsonModel::Text(module_version)),
            ("protocol_version"@, JsonModel::Unsigned(PROTOCOL_VERSION as u64)),
            ("ready"@, JsonModel::Boolean(facts.ready())),
            (
                "role"@,
                JsonModel::Text(
                    if facts.owner == Some(RuntimeHost::MagiskBackend) {
                        "runtime_host"@
                    } else {
                        "backend_only"@
                    },
                ),
            ),
            ("runtime_instance_id"@, optional_text_model(instance)),
            (
                "transition_cleanup_ready"@,
                JsonModel::Boolean(facts.host is None || facts.guard_ready()),
            ),
            ("version_code"@, JsonModel::Unsigned(MODULE_VERSION_CODE)),
        ],
    )
}

/// The status of the daemon.
pub fn status_payload(facts: &StatusFacts, identity: &ModuleIdentity, module_version: &str) -> (
    payload: Json)
    ensures
        payload@ == status_model(*facts, *identity, module_version@),
{
    let (guard_ready, instance) = match &facts.host {
        Some(host) => (host.guard_ready, text_value(host.instance_id.as_str())),
        None => (false, Json::Null),
    };
    let host_present = facts.host.is_some();
    let (role, ready) = match facts.owner {
        Some(owner) => {
            let role = DaemonRole::from_owner(owner);
            let name = match role {
                DaemonRole::RuntimeHost => "runtime_host",
                DaemonRole::BackendOnly => "backend_only",
            };
            (name, role.ready(facts.module_ready, guard_ready))
        },
        None => ("backend_only", false),
    };
    let members = vec![
        entry("helper_ready", Json::Boolean(host_present && facts.helper_ready)),
        entry("module_id", text_value(identity.module_id)),
        entry("module_version", text_value(module_version)),
        entry("protocol_version", Json::Unsigned(PROTOCOL_VERSION as u64)),
        entry("ready", Json::Boolean(ready)),
        entry("role", text_value(role)),
        entry("runtime_instance_id", instance),
        entry("transition_cleanup_ready", Json::Boolean(!host_present || guard_ready)),
        entry("version_code", Json::Unsigned(MODULE_VERSION_CODE)),
    ];
    assert(member_models(members@) =~= status_model(*facts, *identity, module_version@)->Object_0);
    object(members)
}

/// What the capabilities are told of. `guard_ready`, `helper_ready`, `wake_alarm_ready` and
/// `companion_ready` are those of the host, and false without one.
#[derive(Clone, Copy, Debug)]
pub struct CapabilityFacts {
    pub module_ready: bool,
    pub guard_ready: bool,
    pub helper_ready: bool,
    pub wake_alarm_ready: bool,
    pub companion_ready: bool,
}

pub open spec fn state_model(ready: bool) -> JsonModel {
    JsonModel::Text(availability(ready).spec_token()@)
}

pub open spec fn capability_model(facts: CapabilityFacts) -> JsonModel {
    let module = facts.module_ready;
    JsonModel::Object(
        seq![
            ("app_execution_surface"@, state_model(facts.companion_ready)),
            ("execution.root_guard"@, state_model(module && facts.guard_ready)),
            ("magisk.framework"@, state_model(module && facts.helper_ready)),
            ("magisk.module"@, state_model(module)),
            ("magisk.root"@, state_model(module && facts.guard_ready)),
            ("magisk.wake_alarm"@, state_model(module && facts.wake_alarm_ready)),
            ("shizuku.shell"@, state_model(false)),
        ],
    )
}

fn state_value(ready: bool) -> (value: Json)
    ensures
        value@ == state_model(ready),
{
    text_value(state_of(ready).token())
}

/// The capabilities of the daemon. Without its module the daemon has none of its own.
pub fn capability_payload(facts: &CapabilityFacts) -> (payload: Json)
    ensures
        payload@ == capability_model(*facts),
{
    let module = facts.module_ready;
    let members = vec![
        entry("app_execution_surface", state_value(facts.companion_ready)),
        entry("execution.root_guard", state_value(module && facts.guard_ready)),
        entry("magisk.framework", state_value(module && facts.helper_ready)),
        entry("magisk.module", state_value(module)),
        entry("magisk.root", state_value(module && facts.guard_ready)),
        entry("magisk.wake_alarm", state_value(module && facts.wake_alarm_ready)),
        entry("shizuku.shell", state_value(false)),
    ];
    assert(member_models(members@) =~= capability_model(*facts)->Object_0);
    object(members)
}

// ---------------------------------------------------------------------------------------
// Laws.
// ---------------------------------------------------------------------------------------

/// The daemon runs only as `bin/droidbridged` of a directory with the name of its module. A path
/// too short to have a module is a fault of its own.
pub proof fn the_daemon_runs_only_from_its_module(
    components: &[String],
    identity: ModuleIdentity,
    checked: Result<(), DomainError>,
)
    requires
        call_ensures(check_executable, (components, &identity), checked),
    ensures
        ({
            let n = components@.len() as int;
            &&& checked is Ok <==> n >= 3 && components@[n - 1]@ == "droidbridged"@ && components@[n
                - 2]@ == "bin"@ && components@[n - 3]@ == identity.module_id@
            &&& checked matches Err(error) ==> error.code == (if n < 2 {
                ErrorCode::IoError
            } else {
                ErrorCode::PermissionDenied
            })
        }),
{
    let models = texts(components@);
    let n = components@.len() as int;
    assert(models.len() == n);
    if n >= 3 {
        assert(models[n - 1] == components@[n - 1]@ && models[n - 2] == components@[n - 2]@
            && models[n - 3] == components@[n - 3]@);
    }
}

/// The pauses begin with one second and double, up to thirty seconds, as long as no connection
/// lasts; one that lasted five minutes lets them begin again, and a shorter one changes nothing.
pub proof fn pauses_double_until_a_connection_lasts(fresh: ConnectBackoff)
    requires
        call_ensures(ConnectBackoff::new, (), fresh),
    ensures
        forall|first: &mut ConnectBackoff, pause: u64|
            *first == fresh && #[trigger] call_ensures(
                ConnectBackoff::next_delay_s,
                (first,),
                pause,
            ) ==> pause == 1,
        forall|
            first: &mut ConnectBackoff,
            second: &mut ConnectBackoff,
            pause: u64,
            next: u64,
        |
            first.wf() && *second == *final(first) && #[trigger] call_ensures(
                ConnectBackoff::next_delay_s,
                (first,),
                pause,
            ) && #[trigger] call_ensures(ConnectBackoff::next_delay_s, (second,), next) ==> next
                == (if 2 * pause < 30 {
                2 * pause
            } else {
                30
            }),
        forall|seen: &mut ConnectBackoff, elapsed_s: u64, told: ()|
            seen.wf() && #[trigger] call_ensures(
                ConnectBackoff::observe_connection,
                (seen, elapsed_s),
                told,
            ) ==> {
                &&& elapsed_s >= 300 ==> final(seen).index() == fresh.index()
                &&& elapsed_s < 300 ==> final(seen).index() == seen.index()
            },
{
    let delays = connect_delays();
    assert(delays.len() == 6);
    assert(delays[0] == 1 && delays[1] == 2 && delays[2] == 4 && delays[3] == 8 && delays[4] == 16
        && delays[5] == 30);
}

/// A request for another epoch or another generation is refused, and so is one for another
/// instance where the operation is bound to one. What the daemon alone may ask is refused from
/// anybody else.
pub proof fn a_request_stays_within_its_fence(
    request: WireEnvelope,
    owner: RuntimeOwner,
    instance: Option<UuidV4>,
    validated: Result<(), DomainError>,
)
    requires
        call_ensures(validate_request_fence, (&request, &owner, &instance), validated),
    ensures
        request.runtime_epoch@ != owner.runtime_epoch@ ==> validated is Err
            && validated->Err_0.code is StaleAuthority,
        request.host_generation != owner.host_generation ==> validated is Err
            && validated->Err_0.code is StaleAuthority,
        request.operation is CompanionExecute || request.operation is CompanionCancel
            ==> validated is Err && validated->Err_0.code is StaleAuthority,
        (request.operation is RuntimeForward || request.operation is RuntimeCancel
            || request.operation is NetworkDefaultChanged || request.operation is
            NetworkAttachment) && (instance is Some != request.runtime_instance_id is Some || (
        instance is Some && instance->0@ != request.runtime_instance_id->0@)) ==> validated is Err
            && validated->Err_0.code is StaleAuthority,
        owner.host is ApkRuntime && (request.operation is RuntimeForward || request.operation is
            RuntimeCancel || request.operation is HostRelease || request.operation is
            NetworkDefaultChanged || request.operation is NetworkAttachment) ==> validated is Err,
        owner.host is MagiskBackend && (request.operation is MaintenanceInstallApk
            || request.operation is MaintenanceInstallModule) ==> validated is Err,
        request.runtime_epoch@ == owner.runtime_epoch@ && request.host_generation
            == owner.host_generation && (request.operation is HostStatus || request.operation is
            HostPrepareTransition || request.operation is HostAbortTransition
            || request.operation is HostActivate || request.operation is CapabilitySnapshot
            || request.operation is DiagnosticsSnapshot || request.operation is
            MaintenanceStatus) ==> validated is Ok,
        request.runtime_epoch@ == owner.runtime_epoch@ && request.host_generation
            == owner.host_generation && owner.host is MagiskBackend && (request.operation is
            HostRelease || (instance is Some && request.runtime_instance_id is Some && instance->0@
            == request.runtime_instance_id->0@ && (request.operation is RuntimeForward
            || request.operation is RuntimeCancel || request.operation is NetworkDefaultChanged
            || request.operation is NetworkAttachment))) ==> validated is Ok,
        request.runtime_epoch@ == owner.runtime_epoch@ && request.host_generation
            == owner.host_generation && owner.host is ApkRuntime && (request.operation is
            MaintenanceInstallApk || request.operation is MaintenanceInstallModule)
            ==> validated is Ok,
{
}

/// Each operation has an answer of its own: no two operations of the application are answered in
/// the same way, but for what is forwarded, which is a query for an artifact or is not.
pub proof fn each_operation_is_answered_in_its_own_way(
    operation: Operation,
    artifact_query: bool,
    handling: Handling,
)
    requires
        call_ensures(handling_of, (operation, artifact_query), handling),
    ensures
        handling is ArtifactQuery <==> operation is RuntimeForward && artifact_query,
        handling is ForwardRuntime <==> operation is RuntimeForward && !artifact_query,
        handling == Handling::Install(InstallKind::Apk) <==> operation is MaintenanceInstallApk,
        handling == Handling::Install(InstallKind::Module) <==> operation is
            MaintenanceInstallModule,
        handling is Status <==> operation is HostStatus,
        handling is PrepareTransition <==> operation is HostPrepareTransition,
        handling is AbortTransition <==> operation is HostAbortTransition,
        handling is ReleaseTransition <==> operation is HostRelease,
        handling is ActivateTransition <==> operation is HostActivate,
        handling is Capabilities <==> operation is CapabilitySnapshot,
        handling is NetworkDefaultChanged <==> operation is NetworkDefaultChanged,
        handling is NetworkAttachment <==> operation is NetworkAttachment,
        handling is MaintenanceStatus <==> operation is MaintenanceStatus,
        handling is Reply <==> operation is RuntimeCancel || operation is DiagnosticsSnapshot,
        handling is Refuse <==> operation is CompanionExecute || operation is CompanionCancel,
        operation is RuntimeCancel ==> handling->Reply_0@.get("cancelled"@) == Some(
            JsonModel::Boolean(false),
        ),
        operation is DiagnosticsSnapshot ==> handling->Reply_0@.get("faults"@) == Some(
            JsonModel::Array(Seq::empty()),
        ),
        handling matches Handling::Refuse(error) ==> error.code is ProtocolIncompatible,
{
}

/// A transition is prepared only for the current owner, its generation and another host than it;
/// the daemon prepares to be the host where the application is, and to hand over where it is the
/// host itself, with its guard ready and under its own instance.
pub proof fn a_transition_is_prepared_for_its_owner(
    request: HostPrepareTransition,
    owner: RuntimeOwner,
    ready: bool,
    host: Option<LiveHost>,
    step: Result<PrepareStep, DomainError>,
)
    requires
        call_ensures(prepare_step, (&request, &owner, ready, &host), step),
    ensures
        request.runtime_epoch@ != owner.runtime_epoch@ || request.from_host != owner.host
            || request.from_generation != owner.host_generation || request.target_host
            == owner.host ==> step == Ok::<_, DomainError>(
            PrepareStep::Refuse(ErrorCode::StaleAuthority),
        ),
        step == Ok::<_, DomainError>(PrepareStep::Target) ==> owner.host is ApkRuntime && ready
            && request.runtime_epoch@ == owner.runtime_epoch@ && request.from_generation
            == owner.host_generation && request.target_host is MagiskBackend,
        step == Ok::<_, DomainError>(PrepareStep::Source) ==> {
            &&& owner.host is MagiskBackend
            &&& request.target_host is ApkRuntime
            &&& request.runtime_epoch@ == owner.runtime_epoch@
            &&& request.from_generation == owner.host_generation
            &&& host is Some && host->0.guard_ready
            &&& host->0.instance_id@ == request.from_instance_id@
        },
        request.runtime_epoch@ == owner.runtime_epoch@ && request.from_host == owner.host
            && request.from_generation == owner.host_generation && request.target_host
            != owner.host ==> {
            &&& owner.host is ApkRuntime && ready ==> step == Ok::<_, DomainError>(
                PrepareStep::Target,
            )
            &&& owner.host is ApkRuntime && !ready ==> step == Ok::<_, DomainError>(
                PrepareStep::Refuse(ErrorCode::CapabilityUnavailable),
            )
            &&& owner.host is MagiskBackend && host is None ==> step is Err
            &&& owner.host is MagiskBackend && host is Some && !host->0.guard_ready ==> step
                == Ok::<_, DomainError>(PrepareStep::Refuse(ErrorCode::IoError))
            &&& owner.host is MagiskBackend && host is Some && host->0.guard_ready
                && host->0.instance_id@ == request.from_instance_id@ ==> step == Ok::<
                _,
                DomainError,
            >(PrepareStep::Source)
        },
{
}

/// The daemon's host is activated only for the committed transition that the store records, for
/// the current owner, and for the transition that was prepared if one was.
pub proof fn only_a_committed_transition_activates(
    preparation: TargetPreparation,
    request: HostActivate,
    owner: RuntimeOwner,
    transition: Option<TransitionIntent>,
    activates: bool,
)
    requires
        call_ensures(
            TargetPreparation::activates,
            (&preparation, &request, &owner, &transition),
            activates,
        ),
    ensures
        transition is None ==> !activates,
        transition matches Some(intent) ==> {
            &&& !intent.committed ==> !activates
            &&& intent.transition_id@ != request.transition_id@ ==> !activates
            &&& intent.runtime_epoch@ != request.runtime_epoch@ ==> !activates
            &&& intent.target_host != request.target_host ==> !activates
            &&& intent.target_generation != request.host_generation ==> !activates
        },
        request.runtime_epoch@ != owner.runtime_epoch@ ==> !activates,
        request.host_generation != owner.host_generation ==> !activates,
        request.target_host != owner.host || owner.host !is MagiskBackend ==> !activates,
        preparation.transition_id matches Some(id) ==> id@ != request.transition_id@ ==> !activates,
        !activates && preparation.transition_id is None && transition is Some
            && transition->0.committed && transition->0.transition_id@ == request.transition_id@
            && transition->0.runtime_epoch@ == request.runtime_epoch@ && transition->0.target_host
            is MagiskBackend && transition->0.target_generation == request.host_generation
            && request.runtime_epoch@ == owner.runtime_epoch@ && request.host_generation
            == owner.host_generation && request.target_host is MagiskBackend ==> owner.host !is
            MagiskBackend,
{
}

/// What the application hears of a transition: each outcome under a key of its own, and a failure
/// by its code, never as a success.
pub proof fn a_reply_tells_what_came_of_it(
    stale: bool,
    network: Json,
    prepared: Result<u64, ErrorCode>,
    preparation: Json,
    aborted: Result<(), DomainError>,
    abortion: Json,
)
    requires
        call_ensures(network_reply, (stale,), network),
        call_ensures(prepared_reply, (prepared,), preparation),
        call_ensures(aborted_reply, (aborted,), abortion),
    ensures
        network@.get("accepted"@) == (if stale {
            None
        } else {
            Some(JsonModel::Boolean(true))
        }),
        network@.get("error"@) is Some <==> stale,
        prepared matches Ok(revision) ==> preparation@.get("prepared"@) == Some(
            JsonModel::Boolean(true),
        ) && preparation@.get("store_revision"@) == Some(JsonModel::Unsigned(revision)),
        prepared is Err <==> preparation@.get("error"@) is Some,
        aborted is Ok ==> abortion@.get("aborted"@) == Some(JsonModel::Boolean(true)),
        aborted is Err <==> abortion@.get("error"@) is Some,
{
    assert("error"@ != "accepted"@) by {
        reveal_strlit("error");
        reveal_strlit("accepted");
        assert("error"@.len() != "accepted"@.len());
    }
    assert("error"@ != "prepared"@) by {
        reveal_strlit("error");
        reveal_strlit("prepared");
        assert("error"@.len() != "prepared"@.len());
    }
    assert("error"@ != "aborted"@) by {
        reveal_strlit("error");
        reveal_strlit("aborted");
        assert("error"@.len() != "aborted"@.len());
    }
    assert("error"@ != "released"@) by {
        reveal_strlit("error");
        reveal_strlit("released");
        assert("error"@.len() != "released"@.len());
    }
    assert("error"@ != "ready"@) by {
        reveal_strlit("error");
        reveal_strlit("ready");
        assert("error"@[0] != "ready"@[0]);
    }
    reveal_with_fuel(member, 3);
    if prepared is Ok {
        let members = prepared_model(prepared->Ok_0)->Object_0;
        assert("prepared"@ != "store_revision"@) by {
            reveal_strlit("prepared");
            reveal_strlit("store_revision");
            assert("prepared"@.len() != "store_revision"@.len());
        }
        lemma_member_at(members, 0);
        lemma_member_at(members, 1);
        assert("error"@ != "store_revision"@) by {
            reveal_strlit("error");
            reveal_strlit("store_revision");
            assert("error"@.len() != "store_revision"@.len());
        }
    }
}

/// A release is told as one, and ends the host, only if the network was let go and the runtime was
/// released; the failure of the first comes before that of the second.
pub proof fn a_release_is_told_only_if_it_was_one(
    unbound: Result<(), DomainError>,
    released: Result<(), DomainError>,
    outcome: (Json, bool),
)
    requires
        call_ensures(release_outcome, (unbound, released), outcome),
    ensures
        outcome.1 <==> unbound is Ok && released is Ok,
        outcome.0@.get("released"@) == (if outcome.1 {
            Some(JsonModel::Boolean(true))
        } else {
            None
        }),
        outcome.0@.get("error"@) is Some <==> !outcome.1,
{
    assert("error"@ != "accepted"@) by {
        reveal_strlit("error");
        reveal_strlit("accepted");
        assert("error"@.len() != "accepted"@.len());
    }
    assert("error"@ != "prepared"@) by {
        reveal_strlit("error");
        reveal_strlit("prepared");
        assert("error"@.len() != "prepared"@.len());
    }
    assert("error"@ != "aborted"@) by {
        reveal_strlit("error");
        reveal_strlit("aborted");
        assert("error"@.len() != "aborted"@.len());
    }
    assert("error"@ != "released"@) by {
        reveal_strlit("error");
        reveal_strlit("released");
        assert("error"@.len() != "released"@.len());
    }
    assert("error"@ != "ready"@) by {
        reveal_strlit("error");
        reveal_strlit("ready");
        assert("error"@[0] != "ready"@[0]);
    }
    reveal_with_fuel(member, 3);
}

/// An activation is told as ready, with the instance that is live now, exactly if it was current.
pub proof fn an_activation_tells_its_instance(
    current: bool,
    instance: Option<UuidV4>,
    reply: Json,
)
    requires
        call_ensures(activated_reply, (current, &instance), reply),
    ensures
        current ==> {
            &&& reply@.get("ready"@) == Some(JsonModel::Boolean(true))
            &&& reply@.get("runtime_instance_id"@) == Some(
                match instance {
                    Some(id) => JsonModel::Text(id@),
                    None => JsonModel::Null,
                },
            )
        },
        !current ==> reply@.get("ready"@) is None && reply@.get("error"@) is Some,
{
    assert("error"@ != "accepted"@) by {
        reveal_strlit("error");
        reveal_strlit("accepted");
        assert("error"@.len() != "accepted"@.len());
    }
    assert("error"@ != "prepared"@) by {
        reveal_strlit("error");
        reveal_strlit("prepared");
        assert("error"@.len() != "prepared"@.len());
    }
    assert("error"@ != "aborted"@) by {
        reveal_strlit("error");
        reveal_strlit("aborted");
        assert("error"@.len() != "aborted"@.len());
    }
    assert("error"@ != "released"@) by {
        reveal_strlit("error");
        reveal_strlit("released");
        assert("error"@.len() != "released"@.len());
    }
    assert("error"@ != "ready"@) by {
        reveal_strlit("error");
        reveal_strlit("ready");
        assert("error"@[0] != "ready"@[0]);
    }
    reveal_with_fuel(member, 3);
    if current {
        let members = activated_model(optional_id(instance))->Object_0;
        assert("ready"@ != "runtime_instance_id"@) by {
            reveal_strlit("ready");
            reveal_strlit("runtime_instance_id");
            assert("ready"@.len() != "runtime_instance_id"@.len());
        }
        lemma_member_at(members, 0);
        lemma_member_at(members, 1);
    }
}

/// With the application comes what it can do and its own news of the network; without it, all of
/// that goes, and what it had told is forgotten. Nothing is done where there is no host.
pub proof fn the_application_comes_and_goes(connected: bool, host_present: bool)
    ensures
        forall|companion: &mut Companion, steps: Vec<CompanionStep>| #[trigger]
            call_ensures(Companion::set_connected, (companion, connected, host_present), steps)
                ==> {
                &&& final(companion).link.spec_connected() == connected
                &&& !connected ==> final(companion).capabilities@.len() == 0
                &&& connected ==> final(companion).capabilities@ == companion.capabilities@
                &&& !host_present ==> steps@.len() == 0
                &&& host_present ==> steps@.len() == 3
                &&& host_present && connected ==> steps@[0] is RegisterCapabilities && steps@[1]
                    == CompanionStep::SetSurface(CapabilityState::Available) && steps@[2] is
                    UseCompanionEvents
                &&& host_present && !connected ==> steps@[0] is WithdrawCapabilities && steps@[1]
                    == CompanionStep::SetSurface(CapabilityState::Unavailable) && steps@[2] is
                    UseNativeEvents
            },
{
}

/// The status says of the daemon what is so: it is ready only with its module, and as the host only
/// with its guard as well; nothing of a host is claimed where there is none.
pub proof fn the_status_is_what_was_observed(
    facts: StatusFacts,
    identity: ModuleIdentity,
    module_version: &str,
    payload: Json,
)
    requires
        call_ensures(status_payload, (&facts, &identity, module_version), payload),
    ensures
        payload@.get("module_id"@) == Some(JsonModel::Text(identity.module_id@)),
        payload@.get("module_version"@) == Some(JsonModel::Text(module_version@)),
        payload@.get("protocol_version"@) == Some(JsonModel::Unsigned(1)),
        payload@.get("version_code"@) == Some(JsonModel::Unsigned(3_000)),
        payload@.get("role"@) == Some(
            JsonModel::Text(
                if facts.owner == Some(RuntimeHost::MagiskBackend) {
                    "runtime_host"@
                } else {
                    "backend_only"@
                },
            ),
        ),
        payload@.get("ready"@) is Some && payload@.get("ready"@)->0 is Boolean,
        ({
            let ready = payload@.get("ready"@)->0->Boolean_0;
            let guarded = facts.host is Some && facts.host->0.guard_ready;
            &&& ready ==> facts.module_ready && facts.owner is Some
            &&& ready && facts.owner == Some(RuntimeHost::MagiskBackend) ==> guarded
            &&& !ready && facts.module_ready && guarded ==> facts.owner is None
            &&& !ready && facts.module_ready ==> facts.owner != Some(RuntimeHost::ApkRuntime)
            &&& payload@.get("transition_cleanup_ready"@) == Some(
                JsonModel::Boolean(facts.host is None || guarded),
            )
        }),
        payload@.get("helper_ready"@) == Some(
            JsonModel::Boolean(facts.host is Some && facts.helper_ready),
        ),
        payload@.get("runtime_instance_id"@) == Some(
            match facts.host {
                Some(host) => JsonModel::Text(host.instance_id@),
                None => JsonModel::Null,
            },
        ),
{
    let members = status_model(facts, identity, module_version@)->Object_0;
    assert("helper_ready"@ != "module_id"@) by {
        reveal_strlit("helper_ready");
        reveal_strlit("module_id");
        assert("helper_ready"@.len() != "module_id"@.len());
    }
    assert("helper_ready"@ != "module_version"@) by {
        reveal_strlit("helper_ready");
        reveal_strlit("module_version");
        assert("helper_ready"@.len() != "module_version"@.len());
    }
    assert("helper_ready"@ != "protocol_version"@) by {
        reveal_strlit("helper_ready");
        reveal_strlit("protocol_version");
        assert("helper_ready"@.len() != "protocol_version"@.len());
    }
    assert("helper_ready"@ != "ready"@) by {
        reveal_strlit("helper_ready");
        reveal_strlit("ready");
        assert("helper_ready"@.len() != "ready"@.len());
    }
    assert("helper_ready"@ != "role"@) by {
        reveal_strlit("helper_ready");
        reveal_strlit("role");
        assert("helper_ready"@.len() != "role"@.len());
    }
    assert("helper_ready"@ != "runtime_instance_id"@) by {
        reveal_strlit("helper_ready");
        reveal_strlit("runtime_instance_id");
        assert("helper_ready"@.len() != "runtime_instance_id"@.len());
    }
    assert("helper_ready"@ != "transition_cleanup_ready"@) by {
        reveal_strlit("helper_ready");
        reveal_strlit("transition_cleanup_ready");
        assert("helper_ready"@.len() != "transition_cleanup_ready"@.len());
    }
    assert("helper_ready"@ != "version_code"@) by {
        reveal_strlit("helper_ready");
        reveal_strlit("version_code");
        assert("helper_ready"@[0] != "version_code"@[0]);
    }
    assert("module_id"@ != "module_version"@) by {
        reveal_strlit("module_id");
        reveal_strlit("module_version");
        assert("module_id"@.len() != "module_version"@.len());
    }
    assert("module_id"@ != "protocol_version"@) by {
        reveal_strlit("module_id");
        reveal_strlit("protocol_version");
        assert("module_id"@.len() != "protocol_version"@.len());
    }
    assert("module_id"@ != "ready"@) by {
        reveal_strlit("module_id");
        reveal_strlit("ready");
        assert("module_id"@.len() != "ready"@.len());
    }
    assert("module_id"@ != "role"@) by {
        reveal_strlit("module_id");
        reveal_strlit("role");
        assert("module_id"@.len() != "role"@.len());
    }
    assert("module_id"@ != "runtime_instance_id"@) by {
        reveal_strlit("module_id");
        reveal_strlit("runtime_instance_id");
        assert("module_id"@.len() != "runtime_instance_id"@.len());
    }
    assert("module_id"@ != "transition_cleanup_ready"@) by {
        reveal_strlit("module_id");
        reveal_strlit("transition_cleanup_ready");
        assert("module_id"@.len() != "transition_cleanup_ready"@.len());
    }
    assert("module_id"@ != "version_code"@) by {
        reveal_strlit("module_id");
        reveal_strlit("version_code");
        assert("module_id"@.len() != "version_code"@.len());
    }
    assert("module_version"@ != "protocol_version"@) by {
        reveal_strlit("module_version");
        reveal_strlit("protocol_version");
        assert("module_version"@.len() != "protocol_version"@.len());
    }
    assert("module_version"@ != "ready"@) by {
        reveal_strlit("module_version");
        reveal_strlit("ready");
        assert("module_version"@.len() != "ready"@.len());
    }
    assert("module_version"@ != "role"@) by {
        reveal_strlit("module_version");
        reveal_strlit("role");
        assert("module_version"@.len() != "role"@.len());
    }
    assert("module_version"@ != "runtime_instance_id"@) by {
        reveal_strlit("module_version");
        reveal_strlit("runtime_instance_id");
        assert("module_version"@.len() != "runtime_instance_id"@.len());
    }
    assert("module_version"@ != "transition_cleanup_ready"@) by {
        reveal_strlit("module_version");
        reveal_strlit("transition_cleanup_ready");
        assert("module_version"@.len() != "transition_cleanup_ready"@.len());
    }
    assert("module_version"@ != "version_code"@) by {
        reveal_strlit("module_version");
        reveal_strlit("version_code");
        assert("module_version"@.len() != "version_code"@.len());
    }
    assert("protocol_version"@ != "ready"@) by {
        reveal_strlit("protocol_version");
        reveal_strlit("ready");
        assert("protocol_version"@.len() != "ready"@.len());
    }
    assert("protocol_version"@ != "role"@) by {
        reveal_strlit("protocol_version");
        reveal_strlit("role");
        assert("protocol_version"@.len() != "role"@.len());
    }
    assert("protocol_version"@ != "runtime_instance_id"@) by {
        reveal_strlit("protocol_version");
        reveal_strlit("runtime_instance_id");
        assert("protocol_version"@.len() != "runtime_instance_id"@.len());
    }
    assert("protocol_version"@ != "transition_cleanup_ready"@) by {
        reveal_strlit("protocol_version");
        reveal_strlit("transition_cleanup_ready");
        assert("protocol_version"@.len() != "transition_cleanup_ready"@.len());
    }
    assert("protocol_version"@ != "version_code"@) by {
        reveal_strlit("protocol_version");
        reveal_strlit("version_code");
        assert("protocol_version"@.len() != "version_code"@.len());
    }
    assert("ready"@ != "role"@) by {
        reveal_strlit("ready");
        reveal_strlit("role");
        assert("ready"@.len() != "role"@.len());
    }
    assert("ready"@ != "runtime_instance_id"@) by {
        reveal_strlit("ready");
        reveal_strlit("runtime_instance_id");
        assert("ready"@.len() != "runtime_instance_id"@.len());
    }
    assert("ready"@ != "transition_cleanup_ready"@) by {
        reveal_strlit("ready");
        reveal_strlit("transition_cleanup_ready");
        assert("ready"@.len() != "transition_cleanup_ready"@.len());
    }
    assert("ready"@ != "version_code"@) by {
        reveal_strlit("ready");
        reveal_strlit("version_code");
        assert("ready"@.len() != "version_code"@.len());
    }
    assert("role"@ != "runtime_instance_id"@) by {
        reveal_strlit("role");
        reveal_strlit("runtime_instance_id");
        assert("role"@.len() != "runtime_instance_id"@.len());
    }
    assert("role"@ != "transition_cleanup_ready"@) by {
        reveal_strlit("role");
        reveal_strlit("transition_cleanup_ready");
        assert("role"@.len() != "transition_cleanup_ready"@.len());
    }
    assert("role"@ != "version_code"@) by {
        reveal_strlit("role");
        reveal_strlit("version_code");
        assert("role"@.len() != "version_code"@.len());
    }
    assert("runtime_instance_id"@ != "transition_cleanup_ready"@) by {
        reveal_strlit("runtime_instance_id");
        reveal_strlit("transition_cleanup_ready");
        assert("runtime_instance_id"@.len() != "transition_cleanup_ready"@.len());
    }
    assert("runtime_instance_id"@ != "version_code"@) by {
        reveal_strlit("runtime_instance_id");
        reveal_strlit("version_code");
        assert("runtime_instance_id"@.len() != "version_code"@.len());
    }
    assert("transition_cleanup_ready"@ != "version_code"@) by {
        reveal_strlit("transition_cleanup_ready");
        reveal_strlit("version_code");
        assert("transition_cleanup_ready"@.len() != "version_code"@.len());
    }
    lemma_member_at(members, 0);
    lemma_member_at(members, 1);
    lemma_member_at(members, 2);
    lemma_member_at(members, 3);
    lemma_member_at(members, 4);
    lemma_member_at(members, 5);
    lemma_member_at(members, 6);
    lemma_member_at(members, 7);
    lemma_member_at(members, 8);
}

/// Each capability is available exactly if what it needs is there: all of the daemon's own need its
/// module, and the application's surface needs only the application.
pub proof fn a_capability_needs_what_it_rests_on(facts: CapabilityFacts, payload: Json)
    requires
        call_ensures(capability_payload, (&facts,), payload),
    ensures
        ({
            let told = |ready: bool|
                Some(
                    JsonModel::Text(
                        if ready {
                            "available"@
                        } else {
                            "unavailable"@
                        },
                    ),
                );
            &&& payload@.get("magisk.module"@) == told(facts.module_ready)
            &&& payload@.get("magisk.root"@) == told(facts.module_ready && facts.guard_ready)
            &&& payload@.get("execution.root_guard"@) == told(
                facts.module_ready && facts.guard_ready,
            )
            &&& payload@.get("magisk.framework"@) == told(
                facts.module_ready && facts.helper_ready,
            )
            &&& payload@.get("magisk.wake_alarm"@) == told(
                facts.module_ready && facts.wake_alarm_ready,
            )
            &&& payload@.get("app_execution_surface"@) == told(facts.companion_ready)
            &&& payload@.get("shizuku.shell"@) == told(false)
        }),
{
    let members = capability_model(facts)->Object_0;
    assert("app_execution_surface"@ != "execution.root_guard"@) by {
        reveal_strlit("app_execution_surface");
        reveal_strlit("execution.root_guard");
        assert("app_execution_surface"@.len() != "execution.root_guard"@.len());
    }
    assert("app_execution_surface"@ != "magisk.framework"@) by {
        reveal_strlit("app_execution_surface");
        reveal_strlit("magisk.framework");
        assert("app_execution_surface"@.len() != "magisk.framework"@.len());
    }
    assert("app_execution_surface"@ != "magisk.module"@) by {
        reveal_strlit("app_execution_surface");
        reveal_strlit("magisk.module");
        assert("app_execution_surface"@.len() != "magisk.module"@.len());
    }
    assert("app_execution_surface"@ != "magisk.root"@) by {
        reveal_strlit("app_execution_surface");
        reveal_strlit("magisk.root");
        assert("app_execution_surface"@.len() != "magisk.root"@.len());
    }
    assert("app_execution_surface"@ != "magisk.wake_alarm"@) by {
        reveal_strlit("app_execution_surface");
        reveal_strlit("magisk.wake_alarm");
        assert("app_execution_surface"@.len() != "magisk.wake_alarm"@.len());
    }
    assert("app_execution_surface"@ != "shizuku.shell"@) by {
        reveal_strlit("app_execution_surface");
        reveal_strlit("shizuku.shell");
        assert("app_execution_surface"@.len() != "shizuku.shell"@.len());
    }
    assert("execution.root_guard"@ != "magisk.framework"@) by {
        reveal_strlit("execution.root_guard");
        reveal_strlit("magisk.framework");
        assert("execution.root_guard"@.len() != "magisk.framework"@.len());
    }
    assert("execution.root_guard"@ != "magisk.module"@) by {
        reveal_strlit("execution.root_guard");
        reveal_strlit("magisk.module");
        assert("execution.root_guard"@.len() != "magisk.module"@.len());
    }
    assert("execution.root_guard"@ != "magisk.root"@) by {
        reveal_strlit("execution.root_guard");
        reveal_strlit("magisk.root");
        assert("execution.root_guard"@.len() != "magisk.root"@.len());
    }
    assert("execution.root_guard"@ != "magisk.wake_alarm"@) by {
        reveal_strlit("execution.root_guard");
        reveal_strlit("magisk.wake_alarm");
        assert("execution.root_guard"@.len() != "magisk.wake_alarm"@.len());
    }
    assert("execution.root_guard"@ != "shizuku.shell"@) by {
        reveal_strlit("execution.root_guard");
        reveal_strlit("shizuku.shell");
        assert("execution.root_guard"@.len() != "shizuku.shell"@.len());
    }
    assert("magisk.framework"@ != "magisk.module"@) by {
        reveal_strlit("magisk.framework");
        reveal_strlit("magisk.module");
        assert("magisk.framework"@.len() != "magisk.module"@.len());
    }
    assert("magisk.framework"@ != "magisk.root"@) by {
        reveal_strlit("magisk.framework");
        reveal_strlit("magisk.root");
        assert("magisk.framework"@.len() != "magisk.root"@.len());
    }
    assert("magisk.framework"@ != "magisk.wake_alarm"@) by {
        reveal_strlit("magisk.framework");
        reveal_strlit("magisk.wake_alarm");
        assert("magisk.framework"@.len() != "magisk.wake_alarm"@.len());
    }
    assert("magisk.framework"@ != "shizuku.shell"@) by {
        reveal_strlit("magisk.framework");
        reveal_strlit("shizuku.shell");
        assert("magisk.framework"@.len() != "shizuku.shell"@.len());
    }
    assert("magisk.module"@ != "magisk.root"@) by {
        reveal_strlit("magisk.module");
        reveal_strlit("magisk.root");
        assert("magisk.module"@.len() != "magisk.root"@.len());
    }
    assert("magisk.module"@ != "magisk.wake_alarm"@) by {
        reveal_strlit("magisk.module");
        reveal_strlit("magisk.wake_alarm");
        assert("magisk.module"@.len() != "magisk.wake_alarm"@.len());
    }
    assert("magisk.module"@ != "shizuku.shell"@) by {
        reveal_strlit("magisk.module");
        reveal_strlit("shizuku.shell");
        assert("magisk.module"@[0] != "shizuku.shell"@[0]);
    }
    assert("magisk.root"@ != "magisk.wake_alarm"@) by {
        reveal_strlit("magisk.root");
        reveal_strlit("magisk.wake_alarm");
        assert("magisk.root"@.len() != "magisk.wake_alarm"@.len());
    }
    assert("magisk.root"@ != "shizuku.shell"@) by {
        reveal_strlit("magisk.root");
        reveal_strlit("shizuku.shell");
        assert("magisk.root"@.len() != "shizuku.shell"@.len());
    }
    assert("magisk.wake_alarm"@ != "shizuku.shell"@) by {
        reveal_strlit("magisk.wake_alarm");
        reveal_strlit("shizuku.shell");
        assert("magisk.wake_alarm"@.len() != "shizuku.shell"@.len());
    }
    lemma_member_at(members, 0);
    lemma_member_at(members, 1);
    lemma_member_at(members, 2);
    lemma_member_at(members, 3);
    lemma_member_at(members, 4);
    lemma_member_at(members, 5);
    lemma_member_at(members, 6);
}

/// An application is let in only if it knows the current owner in every part: the epoch, the host
/// and the generation.
pub proof fn an_application_knows_its_owner(
    handshake: Handshake,
    owner: RuntimeOwner,
    checked: Result<(), DomainError>,
)
    requires
        call_ensures(check_app_owner, (&handshake, &owner), checked),
    ensures
        handshake.runtime_epoch@ != owner.runtime_epoch@ ==> checked is Err,
        handshake.host != owner.host ==> checked is Err,
        handshake.host_generation != owner.host_generation ==> checked is Err,
        handshake.runtime_epoch@ == owner.runtime_epoch@ && handshake.host == owner.host
            && handshake.host_generation == owner.host_generation ==> checked is Ok,
        checked matches Err(error) ==> error.code is StaleAuthority,
{
}

/// The daemon says of itself what it is: its version, its role, its package, the first user, and the
/// owner and the instance that it serves.
pub proof fn the_daemon_says_whom_it_serves(
    identity: ModuleIdentity,
    owner: RuntimeOwner,
    instance: Option<UuidV4>,
    handshake: Handshake,
    checked: Result<(), DomainError>,
)
    requires
        call_ensures(daemon_handshake, (&identity, &owner, instance), handshake),
        call_ensures(check_app_owner, (&handshake, &owner), checked),
    ensures
        handshake.protocol_version == 1,
        handshake.role is Droidbridged,
        handshake.package@ == identity.package@,
        handshake.user_id == 0,
        handshake.runtime_instance_id == instance,
        checked is Ok,
{
}

} // verus!
