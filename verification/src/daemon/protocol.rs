//! The protocol between the application and the daemon: who the peers are, which messages they
//! exchange and how a message is framed.

use crate::contract::common::{ErrorCode, RuntimeHost, UuidV4};
use crate::error::DomainError;
use crate::json::Json;
use crate::text::{one_of, same, slices};
use vstd::prelude::*;

verus! {

pub const PROTOCOL_VERSION: u32 = 1;

pub const MAX_FRAME_BYTES: usize = 262_144;

pub const MAX_FILE_DESCRIPTORS: usize = 4;

#[derive(Clone, Copy, Debug, PartialEq, Eq, Structural)]
pub enum EndpointRole {
    ApkRuntime,
    Droidbridged,
}

/// The installed module, in its stable or its debug form.
#[derive(Clone, Copy, Debug, PartialEq, Eq)]
pub struct ModuleIdentity {
    pub module_id: &'static str,
    pub package: &'static str,
    pub socket_name: &'static str,
}

impl ModuleIdentity {
    pub open spec fn spec_stable() -> ModuleIdentity {
        ModuleIdentity {
            module_id: "droidbridge",
            package: "com.droidbridge.android",
            socket_name: "droidbridge.com.droidbridge.android.u0.v1",
        }
    }

    pub open spec fn spec_debug() -> ModuleIdentity {
        ModuleIdentity {
            module_id: "droidbridge_debug",
            package: "com.droidbridge.android.debug",
            socket_name: "droidbridge.com.droidbridge.android.debug.u0.v1",
        }
    }

    pub fn stable() -> (identity: Self)
        ensures
            identity == Self::spec_stable(),
    {
        ModuleIdentity {
            module_id: "droidbridge",
            package: "com.droidbridge.android",
            socket_name: "droidbridge.com.droidbridge.android.u0.v1",
        }
    }

    pub fn debug() -> (identity: Self)
        ensures
            identity == Self::spec_debug(),
    {
        ModuleIdentity {
            module_id: "droidbridge_debug",
            package: "com.droidbridge.android.debug",
            socket_name: "droidbridge.com.droidbridge.android.debug.u0.v1",
        }
    }
}

/// What a peer says of itself when it connects.
#[derive(Debug, PartialEq, Eq)]
pub struct Handshake {
    pub protocol_version: u32,
    pub role: EndpointRole,
    pub package: String,
    pub user_id: u32,
    pub runtime_epoch: UuidV4,
    pub host: RuntimeHost,
    pub host_generation: u64,
    pub runtime_instance_id: Option<UuidV4>,
}

impl Handshake {
    /// Whether a peer is the expected one.
    pub open spec fn authentic(
        self,
        peer_uid: u32,
        expected_uid: u32,
        expected_role: EndpointRole,
        identity: ModuleIdentity,
    ) -> bool {
        &&& peer_uid == expected_uid
        &&& self.protocol_version == PROTOCOL_VERSION
        &&& self.role == expected_role
        &&& self.package@ == identity.package@
        &&& self.user_id == 0
        &&& self.host_generation != 0
    }

    /// Refuses any peer but the expected one.
    pub fn validate_peer(
        &self,
        peer_uid: u32,
        expected_uid: u32,
        expected_role: EndpointRole,
        identity: &ModuleIdentity,
    ) -> (validated: Result<(), DomainError>)
        ensures
            validated == (if self.authentic(peer_uid, expected_uid, expected_role, *identity) {
                Ok(())
            } else {
                Err(
                    DomainError {
                        code: ErrorCode::PermissionDenied,
                        reason: "daemon handshake authentication failed",
                    },
                )
            }),
    {
        if peer_uid != expected_uid || self.protocol_version != PROTOCOL_VERSION || self.role
            != expected_role || !same(self.package.as_str(), identity.package) || self.user_id != 0
            || self.host_generation == 0 {
            return Err(
                DomainError::new(
                    ErrorCode::PermissionDenied,
                    "daemon handshake authentication failed",
                ),
            );
        }
        Ok(())
    }
}

/// What is seen of the installed modules.
#[derive(Clone, Copy, Debug, PartialEq, Eq, Structural)]
pub struct ModuleObservation {
    pub stable_present: bool,
    pub debug_present: bool,
    pub enabled: bool,
    pub module_version_code: u64,
    pub daemon_version_code: u64,
    pub protocol_version: u32,
    pub metadata_self_test: bool,
    pub excluded: bool,
}

impl ModuleObservation {
    /// Whether the module of `identity` is present.
    pub open spec fn present(self, identity: ModuleIdentity) -> bool {
        if identity.module_id@ == "droidbridge"@ {
            self.stable_present
        } else {
            self.debug_present
        }
    }

    /// Whether the module can serve: it alone is present, enabled and sound, and its version is
    /// the expected one.
    pub fn readiness(&self, identity: &ModuleIdentity, expected_version_code: u64) -> (ready: Result<
        (),
        DomainError,
    >)
        ensures
            ready == (if self.stable_present && self.debug_present {
                Err(
                    DomainError {
                        code: ErrorCode::CapabilityUnavailable,
                        reason: "stable and debug modules conflict",
                    },
                )
            } else if !self.present(*identity) || !self.enabled || self.excluded
                || !self.metadata_self_test {
                Err(
                    DomainError {
                        code: ErrorCode::CapabilityUnavailable,
                        reason: "Magisk backend is not ready",
                    },
                )
            } else if self.protocol_version != PROTOCOL_VERSION || self.module_version_code
                != expected_version_code || self.daemon_version_code != expected_version_code {
                Err(
                    DomainError {
                        code: ErrorCode::ProtocolIncompatible,
                        reason: "Magisk backend version is incompatible",
                    },
                )
            } else {
                Ok(())
            }),
    {
        if self.stable_present && self.debug_present {
            return Err(
                DomainError::new(
                    ErrorCode::CapabilityUnavailable,
                    "stable and debug modules conflict",
                ),
            );
        }
        let present = if same(identity.module_id, "droidbridge") {
            self.stable_present
        } else {
            self.debug_present
        };
        if !present || !self.enabled || self.excluded || !self.metadata_self_test {
            return Err(
                DomainError::new(ErrorCode::CapabilityUnavailable, "Magisk backend is not ready"),
            );
        }
        if self.protocol_version != PROTOCOL_VERSION || self.module_version_code
            != expected_version_code || self.daemon_version_code != expected_version_code {
            return Err(
                DomainError::new(
                    ErrorCode::ProtocolIncompatible,
                    "Magisk backend version is incompatible",
                ),
            );
        }
        Ok(())
    }
}

/// What the daemon is: only a backend, or the host of the runtime as well.
#[derive(Clone, Copy, Debug, PartialEq, Eq, Structural)]
pub enum DaemonRole {
    BackendOnly,
    RuntimeHost,
}

impl DaemonRole {
    pub fn from_owner(host: RuntimeHost) -> (role: Self)
        ensures
            role == (match host {
                RuntimeHost::ApkRuntime => DaemonRole::BackendOnly,
                RuntimeHost::MagiskBackend => DaemonRole::RuntimeHost,
            }),
    {
        match host {
            RuntimeHost::ApkRuntime => DaemonRole::BackendOnly,
            RuntimeHost::MagiskBackend => DaemonRole::RuntimeHost,
        }
    }

    pub fn may_create_core(self) -> (may: bool)
        ensures
            may == (self is RuntimeHost),
    {
        match self {
            DaemonRole::RuntimeHost => true,
            DaemonRole::BackendOnly => false,
        }
    }

    pub fn ready(self, module_ready: bool, runtime_host_ready: bool) -> (ready: bool)
        ensures
            ready == (module_ready && (self is BackendOnly || runtime_host_ready)),
    {
        module_ready && match self {
            DaemonRole::BackendOnly => true,
            DaemonRole::RuntimeHost => runtime_host_ready,
        }
    }

    /// Whether a daemon in this role serves an operation.
    pub open spec fn serves(self, operation: Operation) -> bool {
        match self {
            DaemonRole::BackendOnly => {
                ||| operation is HostStatus
                ||| operation is HostPrepareTransition
                ||| operation is HostAbortTransition
                ||| operation is HostActivate
                ||| operation is CapabilitySnapshot
                ||| operation is DiagnosticsSnapshot
                ||| operation is MaintenanceStatus
                ||| operation is MaintenanceInstallApk
                ||| operation is MaintenanceInstallModule
            },
            DaemonRole::RuntimeHost => !(operation is MaintenanceInstallApk || operation is
                MaintenanceInstallModule),
        }
    }

    pub fn permits(self, operation: Operation) -> (permitted: bool)
        ensures
            permitted == self.serves(operation),
    {
        match self {
            DaemonRole::BackendOnly => match operation {
                Operation::HostStatus => true,
                Operation::HostPrepareTransition => true,
                Operation::HostAbortTransition => true,
                Operation::HostActivate => true,
                Operation::CapabilitySnapshot => true,
                Operation::DiagnosticsSnapshot => true,
                Operation::MaintenanceStatus => true,
                Operation::MaintenanceInstallApk => true,
                Operation::MaintenanceInstallModule => true,
                _ => false,
            },
            DaemonRole::RuntimeHost => match operation {
                Operation::MaintenanceInstallApk => false,
                Operation::MaintenanceInstallModule => false,
                _ => true,
            },
        }
    }
}

#[derive(Clone, Copy, Debug, PartialEq, Eq, Structural)]
pub enum Operation {
    HostStatus,
    HostPrepareTransition,
    HostAbortTransition,
    HostRelease,
    HostActivate,
    RuntimeForward,
    RuntimeCancel,
    CompanionExecute,
    CompanionCancel,
    CapabilitySnapshot,
    NetworkDefaultChanged,
    NetworkAttachment,
    DiagnosticsSnapshot,
    MaintenanceStatus,
    MaintenanceInstallApk,
    MaintenanceInstallModule,
}

impl Operation {
    /// Whether an operation takes a control slot.
    pub open spec fn controls(self) -> bool {
        ||| self is HostStatus
        ||| self is HostPrepareTransition
        ||| self is HostAbortTransition
        ||| self is HostRelease
        ||| self is HostActivate
        ||| self is RuntimeCancel
        ||| self is CompanionCancel
        ||| self is MaintenanceStatus
    }

    pub fn is_control(self) -> (control: bool)
        ensures
            control == self.controls(),
    {
        match self {
            Operation::HostStatus => true,
            Operation::HostPrepareTransition => true,
            Operation::HostAbortTransition => true,
            Operation::HostRelease => true,
            Operation::HostActivate => true,
            Operation::RuntimeCancel => true,
            Operation::CompanionCancel => true,
            Operation::MaintenanceStatus => true,
            _ => false,
        }
    }

    /// Whether an operation is carried between two runtimes, so that it names the instance it is
    /// for and its reply names the same one.
    pub open spec fn forwards(self) -> bool {
        ||| self is RuntimeForward
        ||| self is RuntimeCancel
        ||| self is CompanionExecute
        ||| self is CompanionCancel
    }

    pub fn is_forwarded(self) -> (forwarded: bool)
        ensures
            forwarded == self.forwards(),
    {
        match self {
            Operation::RuntimeForward => true,
            Operation::RuntimeCancel => true,
            Operation::CompanionExecute => true,
            Operation::CompanionCancel => true,
            _ => false,
        }
    }
}

#[derive(Clone, Copy, Debug, PartialEq, Eq, Structural)]
pub enum MessageKind {
    Request,
    Response,
    Cancel,
}

/// One message.
#[derive(Debug, PartialEq)]
pub struct WireEnvelope {
    pub protocol_version: u32,
    pub kind: MessageKind,
    pub message_id: UuidV4,
    pub reply_to: Option<UuidV4>,
    pub runtime_epoch: UuidV4,
    pub host_generation: u64,
    pub runtime_instance_id: Option<UuidV4>,
    pub operation: Operation,
    pub payload: Json,
    pub fd_roles: Vec<String>,
}

/// The roles a descriptor can have.
pub open spec fn fd_role_names() -> Seq<Seq<char>> {
    seq![
        "execution_guard_proof"@,
        "verified_apk"@,
        "verified_module_zip"@,
        "visual_raw_frame"@,
        "visual_source_image"@,
        "visual_encoded_image"@,
        "stdin"@,
        "stdout"@,
        "stderr"@,
        "content"@,
        "mcp_artifact"@,
    ]
}

/// Whether a descriptor can have this role.
pub fn valid_fd_role(role: &str) -> (valid: bool)
    ensures
        valid == fd_role_names().contains(role@),
{
    let names = [
        "execution_guard_proof",
        "verified_apk",
        "verified_module_zip",
        "visual_raw_frame",
        "visual_source_image",
        "visual_encoded_image",
        "stdin",
        "stdout",
        "stderr",
        "content",
        "mcp_artifact",
    ];
    assert(slices(names@) =~= fd_role_names());
    assert forall|i: int| 0 <= i < names@.len() implies (#[trigger] names@[i])@
        == fd_role_names()[i] by {
        assert(slices(names@)[i] == fd_role_names()[i]);
    }
    let found = one_of(role, &names);
    proof {
        if found {
            let i = choose|i: int| 0 <= i < names@.len() && #[trigger] names@[i]@ == role@;
            assert(fd_role_names()[i] == role@);
        } else if fd_role_names().contains(role@) {
            let i = choose|i: int| 0 <= i < fd_role_names().len() && fd_role_names()[i] == role@;
            assert(names@[i]@ == role@);
        }
    }
    found
}

impl WireEnvelope {
    /// A request, which replies to nothing.
    pub fn request(
        message_id: UuidV4,
        runtime_epoch: UuidV4,
        host_generation: u64,
        runtime_instance_id: Option<UuidV4>,
        operation: Operation,
        payload: Json,
        fd_roles: Vec<String>,
    ) -> (envelope: Self)
        ensures
            envelope == (WireEnvelope {
                protocol_version: PROTOCOL_VERSION,
                kind: MessageKind::Request,
                message_id,
                reply_to: None,
                runtime_epoch,
                host_generation,
                runtime_instance_id,
                operation,
                payload,
                fd_roles,
            }),
    {
        WireEnvelope {
            protocol_version: PROTOCOL_VERSION,
            kind: MessageKind::Request,
            message_id,
            reply_to: None,
            runtime_epoch,
            host_generation,
            runtime_instance_id,
            operation,
            payload,
            fd_roles,
        }
    }

    /// The response to a request: it carries the request's own operation, epoch and generation.
    pub fn response(
        message_id: UuidV4,
        request: &Self,
        runtime_instance_id: Option<UuidV4>,
        payload: Json,
        fd_roles: Vec<String>,
    ) -> (envelope: Self)
        ensures
            envelope == (WireEnvelope {
                protocol_version: PROTOCOL_VERSION,
                kind: MessageKind::Response,
                message_id,
                reply_to: Some(request.message_id),
                runtime_epoch: request.runtime_epoch,
                host_generation: request.host_generation,
                runtime_instance_id,
                operation: request.operation,
                payload,
                fd_roles,
            }),
    {
        WireEnvelope {
            protocol_version: PROTOCOL_VERSION,
            kind: MessageKind::Response,
            message_id,
            reply_to: Some(request.message_id.clone()),
            runtime_epoch: request.runtime_epoch.clone(),
            host_generation: request.host_generation,
            runtime_instance_id,
            operation: request.operation,
            payload,
            fd_roles,
        }
    }

    /// Whether a message that comes with `descriptor_count` descriptors is well formed.
    pub open spec fn well_formed(self, descriptor_count: int) -> bool {
        &&& self.protocol_version == PROTOCOL_VERSION
        &&& self.host_generation != 0
        &&& self.fd_roles@.len() <= MAX_FILE_DESCRIPTORS
        &&& self.fd_roles@.len() == descriptor_count
        &&& forall|i: int|
            0 <= i < self.fd_roles@.len() ==> fd_role_names().contains(
                (#[trigger] self.fd_roles@[i])@,
            )
        &&& (self.kind is Request <==> self.reply_to is None)
        &&& (self.operation.forwards() || self.operation is NetworkDefaultChanged)
            ==> self.runtime_instance_id is Some
    }

    /// Refuses a message that is not well formed.
    pub fn validate(&self, descriptor_count: usize) -> (validated: Result<(), DomainError>)
        ensures
            validated == (if self.well_formed(descriptor_count as int) {
                Ok(())
            } else {
                Err(
                    DomainError {
                        code: ErrorCode::ProtocolIncompatible,
                        reason: "invalid daemon protocol envelope",
                    },
                )
            }),
    {
        let mut roles_valid = true;
        for i in 0..self.fd_roles.len()
            invariant
                roles_valid == forall|k: int|
                    0 <= k < i ==> fd_role_names().contains((#[trigger] self.fd_roles@[k])@),
        {
            if !valid_fd_role(self.fd_roles[i].as_str()) {
                assert(!fd_role_names().contains(self.fd_roles@[i as int]@));
                roles_valid = false;
            }
        }
        let names_instance = match self.operation {
            Operation::NetworkDefaultChanged => true,
            _ => self.operation.is_forwarded(),
        };
        if self.protocol_version != PROTOCOL_VERSION || self.host_generation == 0
            || self.fd_roles.len() > MAX_FILE_DESCRIPTORS || self.fd_roles.len() != descriptor_count
            || !roles_valid || (self.kind == MessageKind::Request && self.reply_to.is_some()) || (
        self.kind != MessageKind::Request && self.reply_to.is_none()) || (names_instance
            && self.runtime_instance_id.is_none()) {
            return Err(
                DomainError::new(
                    ErrorCode::ProtocolIncompatible,
                    "invalid daemon protocol envelope",
                ),
            );
        }
        Ok(())
    }
}

/// Any response is well formed that answers a well-formed request and names the request's own
/// instance, whatever it carries, as long as its descriptors are in order.
pub proof fn a_response_to_a_request_is_well_formed(
    request: WireEnvelope,
    response: WireEnvelope,
    request_descriptors: int,
)
    requires
        request.well_formed(request_descriptors),
        response.protocol_version == PROTOCOL_VERSION,
        response.kind is Response,
        response.reply_to == Some(request.message_id),
        response.host_generation == request.host_generation,
        response.runtime_instance_id == request.runtime_instance_id,
        response.operation == request.operation,
        response.fd_roles@.len() == 0,
    ensures
        response.well_formed(0),
{
}

// ---------------------------------------------------------------------------------------
// Frames.
// ---------------------------------------------------------------------------------------

/// The four bytes of a length, the most significant one first.
pub open spec fn length_header(length: nat) -> Seq<u8> {
    seq![
        (length / 16_777_216 % 256) as u8,
        (length / 65_536 % 256) as u8,
        (length / 256 % 256) as u8,
        (length % 256) as u8,
    ]
}

/// The length that four bytes stand for.
pub open spec fn header_length(header: Seq<u8>) -> nat {
    (header[0] as nat) * 16_777_216 + (header[1] as nat) * 65_536 + (header[2] as nat) * 256 + (
    header[3] as nat)
}

/// A body with its length before it.
pub open spec fn framed(body: Seq<u8>) -> Seq<u8> {
    length_header(body.len()) + body
}

/// Whether a body fits in a frame.
pub open spec fn frameable(body: Seq<u8>) -> bool {
    0 < body.len() <= MAX_FRAME_BYTES
}

/// Reading a frame gives back the body that was framed.
pub proof fn a_frame_gives_back_its_body(body: Seq<u8>)
    requires
        frameable(body),
    ensures
        framed(body).len() == body.len() + 4,
        header_length(framed(body).take(4)) == body.len(),
        framed(body).skip(4) == body,
{
    assert(framed(body).skip(4) =~= body);
    assert(framed(body).take(4) =~= length_header(body.len()));
}

/// The frame of a message. `body` is the message in its wire form, or nothing if it has none.
pub fn encode_frame(envelope: &WireEnvelope, body: Option<Vec<u8>>) -> (frame: Result<
    Vec<u8>,
    DomainError,
>)
    ensures
        match frame {
            Ok(frame) => {
                &&& envelope.well_formed(envelope.fd_roles@.len() as int)
                &&& body is Some
                &&& frameable(body->0@)
                &&& frame@ == framed(body->0@)
            },
            Err(error) => error == (if !envelope.well_formed(envelope.fd_roles@.len() as int) {
                DomainError {
                    code: ErrorCode::ProtocolIncompatible,
                    reason: "invalid daemon protocol envelope",
                }
            } else if body is None {
                DomainError {
                    code: ErrorCode::InternalError,
                    reason: "daemon envelope encoding failed",
                }
            } else {
                DomainError {
                    code: ErrorCode::ResourceLimit,
                    reason: "daemon envelope exceeds the frame bound",
                }
            }),
        },
        frame is Ok <==> envelope.well_formed(envelope.fd_roles@.len() as int) && body is Some
            && frameable(body->0@),
{
    match envelope.validate(envelope.fd_roles.len()) {
        Ok(()) => {},
        Err(error) => {
            return Err(error);
        },
    }
    let body = match body {
        Some(body) => body,
        None => {
            return Err(
                DomainError::new(ErrorCode::InternalError, "daemon envelope encoding failed"),
            );
        },
    };
    if body.len() == 0 || body.len() > MAX_FRAME_BYTES {
        return Err(
            DomainError::new(ErrorCode::ResourceLimit, "daemon envelope exceeds the frame bound"),
        );
    }
    let length: usize = body.len();
    let mut frame: Vec<u8> = Vec::new();
    frame.push((length / 16_777_216 % 256) as u8);
    frame.push((length / 65_536 % 256) as u8);
    frame.push((length / 256 % 256) as u8);
    frame.push((length % 256) as u8);
    assert(frame@ =~= length_header(body@.len()));
    let mut body = body;
    frame.append(&mut body);
    Ok(frame)
}

/// Whether bytes are one whole frame.
pub open spec fn is_frame(frame: Seq<u8>) -> bool {
    &&& frame.len() >= 4
    &&& 0 < header_length(frame.take(4)) <= MAX_FRAME_BYTES
    &&& frame.len() == header_length(frame.take(4)) + 4
}

/// The body of a frame, in its wire form.
pub fn decode_frame(frame: &[u8]) -> (body: Result<Vec<u8>, DomainError>)
    ensures
        match body {
            Ok(body) => is_frame(frame@) && body@ == frame@.skip(4),
            Err(error) => error == (if frame@.len() < 4 {
                DomainError {
                    code: ErrorCode::ProtocolIncompatible,
                    reason: "missing frame header",
                }
            } else {
                DomainError {
                    code: ErrorCode::ProtocolIncompatible,
                    reason: "invalid daemon frame length",
                }
            }),
        },
        body is Ok <==> is_frame(frame@),
{
    if frame.len() < 4 {
        return Err(DomainError::new(ErrorCode::ProtocolIncompatible, "missing frame header"));
    }
    let length: u64 = (frame[0] as u64) * 16_777_216 + (frame[1] as u64) * 65_536 + (frame[2] as u64)
        * 256 + (frame[3] as u64);
    assert(length == header_length(frame@.take(4)));
    if length == 0 || length > MAX_FRAME_BYTES as u64 || frame.len() as u64 != length + 4 {
        return Err(
            DomainError::new(ErrorCode::ProtocolIncompatible, "invalid daemon frame length"),
        );
    }
    let mut body: Vec<u8> = Vec::new();
    for i in 4..frame.len()
        invariant
            body@ == frame@.subrange(4, i as int),
    {
        body.push(frame[i]);
        assert(body@ =~= frame@.subrange(4, i + 1));
    }
    assert(body@ =~= frame@.skip(4));
    Ok(body)
}

/// Takes in the message that a frame's body holds; `None` stands for a body that is no message.
pub fn accept_envelope(decoded: Option<WireEnvelope>) -> (envelope: Result<
    WireEnvelope,
    DomainError,
>)
    ensures
        envelope == (match decoded {
            None => Err(
                DomainError {
                    code: ErrorCode::ProtocolIncompatible,
                    reason: "invalid daemon frame JSON",
                },
            ),
            Some(envelope) => if envelope.well_formed(envelope.fd_roles@.len() as int) {
                Ok(envelope)
            } else {
                Err(
                    DomainError {
                        code: ErrorCode::ProtocolIncompatible,
                        reason: "invalid daemon protocol envelope",
                    },
                )
            },
        }),
{
    match decoded {
        None => Err(
            DomainError::new(ErrorCode::ProtocolIncompatible, "invalid daemon frame JSON"),
        ),
        Some(envelope) => match envelope.validate(envelope.fd_roles.len()) {
            Ok(()) => Ok(envelope),
            Err(error) => Err(error),
        },
    }
}

// ---------------------------------------------------------------------------------------
// Laws.
// ---------------------------------------------------------------------------------------

/// A peer is let in exactly if the system tells the expected user of it, and it says the version,
/// the role and the package that are expected, the first user, and a generation. Another user or
/// another role is never let in.
pub proof fn only_the_expected_peer_is_let_in(
    handshake: Handshake,
    peer_uid: u32,
    expected_uid: u32,
    expected_role: EndpointRole,
    identity: ModuleIdentity,
    validated: Result<(), DomainError>,
)
    requires
        call_ensures(
            Handshake::validate_peer,
            (&handshake, peer_uid, expected_uid, expected_role, &identity),
            validated,
        ),
    ensures
        peer_uid != expected_uid ==> validated is Err,
        handshake.protocol_version != 1 ==> validated is Err,
        handshake.role != expected_role ==> validated is Err,
        handshake.package@ != identity.package@ ==> validated is Err,
        handshake.user_id != 0 ==> validated is Err,
        handshake.host_generation == 0 ==> validated is Err,
        validated is Err ==> {
            ||| peer_uid != expected_uid
            ||| handshake.protocol_version != 1
            ||| handshake.role != expected_role
            ||| handshake.package@ != identity.package@
            ||| handshake.user_id != 0
            ||| handshake.host_generation == 0
        },
        validated matches Err(error) ==> error.code is PermissionDenied,
{
}

/// The two modules differ in everything that tells them apart, and each is told by its own name.
pub proof fn the_two_modules_are_told_apart(stable: ModuleIdentity, debug: ModuleIdentity)
    requires
        call_ensures(ModuleIdentity::stable, (), stable),
        call_ensures(ModuleIdentity::debug, (), debug),
    ensures
        stable.module_id@ == "droidbridge"@,
        debug.module_id@ == "droidbridge_debug"@,
        stable.package@ == "com.droidbridge.android"@,
        debug.package@ == "com.droidbridge.android.debug"@,
        stable.socket_name@ == "droidbridge."@ + stable.package@ + ".u0.v1"@,
        debug.socket_name@ == "droidbridge."@ + debug.package@ + ".u0.v1"@,
        stable.module_id@ != debug.module_id@,
{
    reveal_strlit("droidbridge");
    reveal_strlit("droidbridge_debug");
    reveal_strlit("com.droidbridge.android");
    reveal_strlit("com.droidbridge.android.debug");
    reveal_strlit("droidbridge.com.droidbridge.android.u0.v1");
    reveal_strlit("droidbridge.com.droidbridge.android.debug.u0.v1");
    reveal_strlit("droidbridge.");
    reveal_strlit(".u0.v1");
    assert("droidbridge"@.len() != "droidbridge_debug"@.len());
    assert("droidbridge.com.droidbridge.android.u0.v1"@ =~= "droidbridge."@
        + "com.droidbridge.android"@ + ".u0.v1"@);
    assert("droidbridge.com.droidbridge.android.debug.u0.v1"@ =~= "droidbridge."@
        + "com.droidbridge.android.debug"@ + ".u0.v1"@);
}

/// A module serves only alone: present, enabled, not excluded, sound, and of the expected version
/// in each of the three places where a version is told.
pub proof fn a_module_serves_only_alone(
    seen: ModuleObservation,
    identity: ModuleIdentity,
    expected_version_code: u64,
    ready: Result<(), DomainError>,
)
    requires
        call_ensures(
            ModuleObservation::readiness,
            (&seen, &identity, expected_version_code),
            ready,
        ),
    ensures
        ready is Ok <==> {
            &&& seen.enabled && !seen.excluded && seen.metadata_self_test
            &&& seen.protocol_version == 1
            &&& seen.module_version_code == expected_version_code
            &&& seen.daemon_version_code == expected_version_code
            &&& identity.module_id@ == "droidbridge"@ ==> seen.stable_present
                && !seen.debug_present
            &&& identity.module_id@ != "droidbridge"@ ==> seen.debug_present
                && !seen.stable_present
        },
{
}

/// A daemon that only is a backend does nothing for a runtime: it neither runs, cancels nor
/// releases one, and hears of no network. A daemon that hosts the runtime does everything but
/// install.
pub proof fn a_role_bounds_what_is_served(
    role: DaemonRole,
    operation: Operation,
    permitted: bool,
)
    requires
        call_ensures(DaemonRole::permits, (role, operation), permitted),
    ensures
        role is BackendOnly && (operation is RuntimeForward || operation is RuntimeCancel
            || operation is HostRelease || operation is NetworkDefaultChanged || operation
            is NetworkAttachment || operation is CompanionExecute || operation is CompanionCancel)
            ==> !permitted,
        role is RuntimeHost && (operation is MaintenanceInstallApk || operation is
            MaintenanceInstallModule) ==> !permitted,
        !permitted && role is BackendOnly ==> operation is RuntimeForward || operation is
            RuntimeCancel || operation is HostRelease || operation is NetworkDefaultChanged
            || operation is NetworkAttachment || operation is CompanionExecute || operation is
            CompanionCancel,
        !permitted && role is RuntimeHost ==> operation is MaintenanceInstallApk || operation is
            MaintenanceInstallModule,
{
}

/// What carries work never takes a control slot, and every other operation of a host, a
/// cancellation or a question for the status does. The operations that are carried between
/// runtimes are the two of the runtime and the two of the companion.
pub proof fn control_is_apart_from_work(operation: Operation, control: bool, forwarded: bool)
    requires
        call_ensures(Operation::is_control, (operation,), control),
        call_ensures(Operation::is_forwarded, (operation,), forwarded),
    ensures
        !control <==> operation is RuntimeForward || operation is CompanionExecute || operation is
            CapabilitySnapshot || operation is NetworkDefaultChanged || operation is
            NetworkAttachment || operation is DiagnosticsSnapshot || operation is
            MaintenanceInstallApk || operation is MaintenanceInstallModule,
        forwarded && control <==> operation is RuntimeCancel || operation is CompanionCancel,
        forwarded && !control <==> operation is RuntimeForward || operation is CompanionExecute,
{
}

/// A request replies to nothing, and a response to its request alone: each other part of the two
/// that has to agree does.
pub proof fn a_response_answers_its_request(
    message_id: UuidV4,
    request: WireEnvelope,
    instance: Option<UuidV4>,
    payload: Json,
    fd_roles: Vec<String>,
    response: WireEnvelope,
)
    requires
        call_ensures(
            WireEnvelope::response,
            (message_id, &request, instance, payload, fd_roles),
            response,
        ),
    ensures
        response.kind is Response,
        response.protocol_version == 1,
        response.message_id == message_id,
        response.reply_to == Some(request.message_id),
        response.runtime_epoch == request.runtime_epoch,
        response.host_generation == request.host_generation,
        response.operation == request.operation,
        response.runtime_instance_id == instance,
        response.payload == payload,
        response.fd_roles == fd_roles,
{
}

/// What a message must be to be taken in: each fault alone has it refused.
pub proof fn a_message_is_refused_for_each_fault(
    envelope: WireEnvelope,
    descriptor_count: usize,
    validated: Result<(), DomainError>,
)
    requires
        call_ensures(WireEnvelope::validate, (&envelope, descriptor_count), validated),
    ensures
        envelope.protocol_version != 1 ==> validated is Err,
        envelope.host_generation == 0 ==> validated is Err,
        envelope.fd_roles@.len() > 4 ==> validated is Err,
        envelope.fd_roles@.len() != descriptor_count ==> validated is Err,
        envelope.kind is Request && envelope.reply_to is Some ==> validated is Err,
        envelope.kind !is Request && envelope.reply_to is None ==> validated is Err,
        envelope.runtime_instance_id is None && (envelope.operation is RuntimeForward
            || envelope.operation is RuntimeCancel || envelope.operation is CompanionExecute
            || envelope.operation is CompanionCancel || envelope.operation is
            NetworkDefaultChanged) ==> validated is Err,
        validated is Err && envelope.protocol_version == 1 && envelope.host_generation != 0
            && envelope.fd_roles@.len() == 0 && descriptor_count == 0 && (envelope.kind is Request
            <==> envelope.reply_to is None) ==> envelope.runtime_instance_id is None,
{
}

/// Each of the roles that descriptors have is known, and only those.
pub proof fn each_descriptor_role_is_known(role: &str, valid: bool)
    requires
        call_ensures(valid_fd_role, (role,), valid),
    ensures
        valid <==> {
            ||| role@ == "execution_guard_proof"@
            ||| role@ == "verified_apk"@
            ||| role@ == "verified_module_zip"@
            ||| role@ == "visual_raw_frame"@
            ||| role@ == "visual_source_image"@
            ||| role@ == "visual_encoded_image"@
            ||| role@ == "stdin"@
            ||| role@ == "stdout"@
            ||| role@ == "stderr"@
            ||| role@ == "content"@
            ||| role@ == "mcp_artifact"@
        },
{
    let names = fd_role_names();
    assert(names.len() == 11);
    assert(names[0] == "execution_guard_proof"@ && names[1] == "verified_apk"@ && names[2]
        == "verified_module_zip"@ && names[3] == "visual_raw_frame"@ && names[4]
        == "visual_source_image"@ && names[5] == "visual_encoded_image"@ && names[6] == "stdin"@
        && names[7] == "stdout"@ && names[8] == "stderr"@ && names[9] == "content"@ && names[10]
        == "mcp_artifact"@);
}

/// A frame is four bytes of length, the most significant first, and the body; decoding gives the
/// body back, and whatever is shorter or longer than its length says is refused.
pub proof fn a_frame_is_read_as_it_was_written(
    envelope: WireEnvelope,
    body: Vec<u8>,
    frame: Vec<u8>,
    read: &[u8],
    decoded: Result<Vec<u8>, DomainError>,
)
    requires
        call_ensures(encode_frame, (&envelope, Some(body)), Ok(frame)),
        call_ensures(decode_frame, (read,), decoded),
    ensures
        frame@.len() == 4 + body@.len(),
        frame@[0] * 16_777_216 + frame@[1] * 65_536 + frame@[2] * 256 + frame@[3] == body@.len(),
        0 < body@.len() <= 262_144,
        read@ == frame@ ==> decoded is Ok && decoded->Ok_0@ == body@,
        frame@.is_prefix_of(read@) && read@.len() > frame@.len() ==> decoded is Err,
        read@.is_prefix_of(frame@) && read@.len() < frame@.len() ==> decoded is Err,
{
    a_frame_gives_back_its_body(body@);
    assert(frame@.take(4) =~= length_header(body@.len()));
    let n = body@.len();
    assert(frame@[0] == frame@.take(4)[0] && frame@[1] == frame@.take(4)[1] && frame@[2]
        == frame@.take(4)[2] && frame@[3] == frame@.take(4)[3]);
    if frame@.is_prefix_of(read@) {
        assert(read@.take(4) =~= frame@.take(4));
    }
    if read@.is_prefix_of(frame@) && read@.len() >= 4 {
        assert(read@.take(4) =~= frame@.take(4));
    }
}

} // verus!
