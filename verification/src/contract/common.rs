//! The shared vocabulary: identifiers, closed enumerations, scalar values and public errors.

use crate::text::{hex_text, same};
use std::collections::BTreeMap;
use vstd::prelude::*;

verus! {

#[derive(Clone, Copy, Debug, PartialEq, Eq, Hash, Structural)]
pub enum MotherTool {
    Context,
    Filesystem,
    Command,
    Network,
    Visual,
    Android,
    Automation,
    TaskControl,
}

#[derive(Clone, Copy, Debug, PartialEq, Eq, Hash, Structural)]
pub enum CapabilityState {
    Available,
    Unavailable,
    Unknown,
}

impl CapabilityState {
    /// The public token of this value.
    pub open spec fn spec_token(self) -> &'static str {
        match self {
            CapabilityState::Available => "available",
            CapabilityState::Unavailable => "unavailable",
            CapabilityState::Unknown => "unknown",
        }
    }

    /// The public token of this value.
    pub fn token(self) -> (token: &'static str)
        ensures
            token == self.spec_token(),
    {
        match self {
            CapabilityState::Available => "available",
            CapabilityState::Unavailable => "unavailable",
            CapabilityState::Unknown => "unknown",
        }
    }
}

#[derive(Clone, Copy, Debug, PartialEq, Eq, Hash, Structural)]
pub enum RuntimeReadiness {
    Initializing,
    Ready,
    Unavailable,
}

#[derive(Clone, Copy, Debug, PartialEq, Eq, Hash, Structural)]
pub enum RuntimeHost {
    ApkRuntime,
    MagiskBackend,
}

impl RuntimeHost {
    /// The public token of this value.
    pub open spec fn spec_token(self) -> &'static str {
        match self {
            RuntimeHost::ApkRuntime => "apk_runtime",
            RuntimeHost::MagiskBackend => "magisk_backend",
        }
    }

    /// The public token of this value.
    pub fn token(self) -> (token: &'static str)
        ensures
            token == self.spec_token(),
    {
        match self {
            RuntimeHost::ApkRuntime => "apk_runtime",
            RuntimeHost::MagiskBackend => "magisk_backend",
        }
    }
}

#[derive(Clone, Copy, Debug, PartialEq, Eq, Hash, Structural)]
pub enum ExecutionClass {
    App,
    AndroidFramework,
    Shizuku,
    Magisk,
}

#[derive(Clone, Copy, Debug, PartialEq, Eq, Hash, Structural)]
pub enum TaskState {
    Created,
    Queued,
    Running,
    Completed,
    Failed,
    Cancelled,
    Interrupted,
}

#[derive(Clone, Copy, Debug, PartialEq, Eq, Hash, Structural)]
pub enum AutomationExecutionState {
    Queued,
    Running,
    Completed,
    Failed,
    Cancelled,
    Interrupted,
}

#[derive(Clone, Copy, Debug, PartialEq, Eq, Hash, Structural)]
pub enum CompatibilityState {
    Compatible,
    Incompatible,
    Unknown,
}

#[derive(Clone, Copy, Debug, PartialEq, Eq, Hash, Structural)]
pub enum ErrorCode {
    InvalidArgument,
    NotFound,
    AlreadyExists,
    PermissionDenied,
    CapabilityUnavailable,
    Unsupported,
    StaleAuthority,
    StaleReference,
    RevisionConflict,
    Timeout,
    Cancelled,
    IoError,
    ProtocolIncompatible,
    ResourceLimit,
    InternalError,
    NotEmpty,
    ArchiveCorrupt,
    ArchiveEncrypted,
    RunAsUnavailable,
    ExecutionFailed,
    CancelFailed,
    CaptureFailed,
    HostTransitionPending,
}

impl ErrorCode {
    /// The public token of this code.
    pub open spec fn spec_token(self) -> &'static str {
        match self {
            ErrorCode::InvalidArgument => "INVALID_ARGUMENT",
            ErrorCode::NotFound => "NOT_FOUND",
            ErrorCode::AlreadyExists => "ALREADY_EXISTS",
            ErrorCode::PermissionDenied => "PERMISSION_DENIED",
            ErrorCode::CapabilityUnavailable => "CAPABILITY_UNAVAILABLE",
            ErrorCode::Unsupported => "UNSUPPORTED",
            ErrorCode::StaleAuthority => "STALE_AUTHORITY",
            ErrorCode::StaleReference => "STALE_REFERENCE",
            ErrorCode::RevisionConflict => "REVISION_CONFLICT",
            ErrorCode::Timeout => "TIMEOUT",
            ErrorCode::Cancelled => "CANCELLED",
            ErrorCode::IoError => "IO_ERROR",
            ErrorCode::ProtocolIncompatible => "PROTOCOL_INCOMPATIBLE",
            ErrorCode::ResourceLimit => "RESOURCE_LIMIT",
            ErrorCode::InternalError => "INTERNAL_ERROR",
            ErrorCode::NotEmpty => "NOT_EMPTY",
            ErrorCode::ArchiveCorrupt => "ARCHIVE_CORRUPT",
            ErrorCode::ArchiveEncrypted => "ARCHIVE_ENCRYPTED",
            ErrorCode::RunAsUnavailable => "RUN_AS_UNAVAILABLE",
            ErrorCode::ExecutionFailed => "EXECUTION_FAILED",
            ErrorCode::CancelFailed => "CANCEL_FAILED",
            ErrorCode::CaptureFailed => "CAPTURE_FAILED",
            ErrorCode::HostTransitionPending => "HOST_TRANSITION_PENDING",
        }
    }

    /// The public token of this code.
    pub fn token(self) -> (token: &'static str)
        ensures
            token == self.spec_token(),
    {
        match self {
            ErrorCode::InvalidArgument => "INVALID_ARGUMENT",
            ErrorCode::NotFound => "NOT_FOUND",
            ErrorCode::AlreadyExists => "ALREADY_EXISTS",
            ErrorCode::PermissionDenied => "PERMISSION_DENIED",
            ErrorCode::CapabilityUnavailable => "CAPABILITY_UNAVAILABLE",
            ErrorCode::Unsupported => "UNSUPPORTED",
            ErrorCode::StaleAuthority => "STALE_AUTHORITY",
            ErrorCode::StaleReference => "STALE_REFERENCE",
            ErrorCode::RevisionConflict => "REVISION_CONFLICT",
            ErrorCode::Timeout => "TIMEOUT",
            ErrorCode::Cancelled => "CANCELLED",
            ErrorCode::IoError => "IO_ERROR",
            ErrorCode::ProtocolIncompatible => "PROTOCOL_INCOMPATIBLE",
            ErrorCode::ResourceLimit => "RESOURCE_LIMIT",
            ErrorCode::InternalError => "INTERNAL_ERROR",
            ErrorCode::NotEmpty => "NOT_EMPTY",
            ErrorCode::ArchiveCorrupt => "ARCHIVE_CORRUPT",
            ErrorCode::ArchiveEncrypted => "ARCHIVE_ENCRYPTED",
            ErrorCode::RunAsUnavailable => "RUN_AS_UNAVAILABLE",
            ErrorCode::ExecutionFailed => "EXECUTION_FAILED",
            ErrorCode::CancelFailed => "CANCEL_FAILED",
            ErrorCode::CaptureFailed => "CAPTURE_FAILED",
            ErrorCode::HostTransitionPending => "HOST_TRANSITION_PENDING",
        }
    }
}

/// The code that a token stands for.
pub open spec fn code_of_token(token: Seq<char>) -> Option<ErrorCode> {
    if token == "INVALID_ARGUMENT"@ {
        Some(ErrorCode::InvalidArgument)
    } else if token == "NOT_FOUND"@ {
        Some(ErrorCode::NotFound)
    } else if token == "ALREADY_EXISTS"@ {
        Some(ErrorCode::AlreadyExists)
    } else if token == "PERMISSION_DENIED"@ {
        Some(ErrorCode::PermissionDenied)
    } else if token == "CAPABILITY_UNAVAILABLE"@ {
        Some(ErrorCode::CapabilityUnavailable)
    } else if token == "UNSUPPORTED"@ {
        Some(ErrorCode::Unsupported)
    } else if token == "STALE_AUTHORITY"@ {
        Some(ErrorCode::StaleAuthority)
    } else if token == "STALE_REFERENCE"@ {
        Some(ErrorCode::StaleReference)
    } else if token == "REVISION_CONFLICT"@ {
        Some(ErrorCode::RevisionConflict)
    } else if token == "TIMEOUT"@ {
        Some(ErrorCode::Timeout)
    } else if token == "CANCELLED"@ {
        Some(ErrorCode::Cancelled)
    } else if token == "IO_ERROR"@ {
        Some(ErrorCode::IoError)
    } else if token == "PROTOCOL_INCOMPATIBLE"@ {
        Some(ErrorCode::ProtocolIncompatible)
    } else if token == "RESOURCE_LIMIT"@ {
        Some(ErrorCode::ResourceLimit)
    } else if token == "INTERNAL_ERROR"@ {
        Some(ErrorCode::InternalError)
    } else if token == "NOT_EMPTY"@ {
        Some(ErrorCode::NotEmpty)
    } else if token == "ARCHIVE_CORRUPT"@ {
        Some(ErrorCode::ArchiveCorrupt)
    } else if token == "ARCHIVE_ENCRYPTED"@ {
        Some(ErrorCode::ArchiveEncrypted)
    } else if token == "RUN_AS_UNAVAILABLE"@ {
        Some(ErrorCode::RunAsUnavailable)
    } else if token == "EXECUTION_FAILED"@ {
        Some(ErrorCode::ExecutionFailed)
    } else if token == "CANCEL_FAILED"@ {
        Some(ErrorCode::CancelFailed)
    } else if token == "CAPTURE_FAILED"@ {
        Some(ErrorCode::CaptureFailed)
    } else if token == "HOST_TRANSITION_PENDING"@ {
        Some(ErrorCode::HostTransitionPending)
    } else {
        None
    }
}

/// The code that a token stands for.
pub fn error_code(token: &str) -> (code: Option<ErrorCode>)
    ensures
        code == code_of_token(token@),
{
    if same(token, "INVALID_ARGUMENT") {
        Some(ErrorCode::InvalidArgument)
    } else if same(token, "NOT_FOUND") {
        Some(ErrorCode::NotFound)
    } else if same(token, "ALREADY_EXISTS") {
        Some(ErrorCode::AlreadyExists)
    } else if same(token, "PERMISSION_DENIED") {
        Some(ErrorCode::PermissionDenied)
    } else if same(token, "CAPABILITY_UNAVAILABLE") {
        Some(ErrorCode::CapabilityUnavailable)
    } else if same(token, "UNSUPPORTED") {
        Some(ErrorCode::Unsupported)
    } else if same(token, "STALE_AUTHORITY") {
        Some(ErrorCode::StaleAuthority)
    } else if same(token, "STALE_REFERENCE") {
        Some(ErrorCode::StaleReference)
    } else if same(token, "REVISION_CONFLICT") {
        Some(ErrorCode::RevisionConflict)
    } else if same(token, "TIMEOUT") {
        Some(ErrorCode::Timeout)
    } else if same(token, "CANCELLED") {
        Some(ErrorCode::Cancelled)
    } else if same(token, "IO_ERROR") {
        Some(ErrorCode::IoError)
    } else if same(token, "PROTOCOL_INCOMPATIBLE") {
        Some(ErrorCode::ProtocolIncompatible)
    } else if same(token, "RESOURCE_LIMIT") {
        Some(ErrorCode::ResourceLimit)
    } else if same(token, "INTERNAL_ERROR") {
        Some(ErrorCode::InternalError)
    } else if same(token, "NOT_EMPTY") {
        Some(ErrorCode::NotEmpty)
    } else if same(token, "ARCHIVE_CORRUPT") {
        Some(ErrorCode::ArchiveCorrupt)
    } else if same(token, "ARCHIVE_ENCRYPTED") {
        Some(ErrorCode::ArchiveEncrypted)
    } else if same(token, "RUN_AS_UNAVAILABLE") {
        Some(ErrorCode::RunAsUnavailable)
    } else if same(token, "EXECUTION_FAILED") {
        Some(ErrorCode::ExecutionFailed)
    } else if same(token, "CANCEL_FAILED") {
        Some(ErrorCode::CancelFailed)
    } else if same(token, "CAPTURE_FAILED") {
        Some(ErrorCode::CaptureFailed)
    } else if same(token, "HOST_TRANSITION_PENDING") {
        Some(ErrorCode::HostTransitionPending)
    } else {
        None
    }
}

/// A code's token stands for that code.
pub proof fn a_token_reads_back(code: ErrorCode)
    ensures
        code_of_token(code.spec_token()@) == Some(code),
{
    reveal_strlit("INVALID_ARGUMENT");
    reveal_strlit("NOT_FOUND");
    reveal_strlit("ALREADY_EXISTS");
    reveal_strlit("PERMISSION_DENIED");
    reveal_strlit("CAPABILITY_UNAVAILABLE");
    reveal_strlit("UNSUPPORTED");
    reveal_strlit("STALE_AUTHORITY");
    reveal_strlit("STALE_REFERENCE");
    reveal_strlit("REVISION_CONFLICT");
    reveal_strlit("TIMEOUT");
    reveal_strlit("CANCELLED");
    reveal_strlit("IO_ERROR");
    reveal_strlit("PROTOCOL_INCOMPATIBLE");
    reveal_strlit("RESOURCE_LIMIT");
    reveal_strlit("INTERNAL_ERROR");
    reveal_strlit("NOT_EMPTY");
    reveal_strlit("ARCHIVE_CORRUPT");
    reveal_strlit("ARCHIVE_ENCRYPTED");
    reveal_strlit("RUN_AS_UNAVAILABLE");
    reveal_strlit("EXECUTION_FAILED");
    reveal_strlit("CANCEL_FAILED");
    reveal_strlit("CAPTURE_FAILED");
    reveal_strlit("HOST_TRANSITION_PENDING");
    assert("INVALID_ARGUMENT"@.len() == 16);
    assert("NOT_FOUND"@.len() == 9);
    assert("ALREADY_EXISTS"@.len() == 14);
    assert("PERMISSION_DENIED"@.len() == 17);
    assert("CAPABILITY_UNAVAILABLE"@.len() == 22);
    assert("UNSUPPORTED"@.len() == 11);
    assert("STALE_AUTHORITY"@.len() == 15);
    assert("STALE_REFERENCE"@.len() == 15);
    assert("REVISION_CONFLICT"@.len() == 17);
    assert("TIMEOUT"@.len() == 7);
    assert("CANCELLED"@.len() == 9);
    assert("IO_ERROR"@.len() == 8);
    assert("PROTOCOL_INCOMPATIBLE"@.len() == 21);
    assert("RESOURCE_LIMIT"@.len() == 14);
    assert("INTERNAL_ERROR"@.len() == 14);
    assert("NOT_EMPTY"@.len() == 9);
    assert("ARCHIVE_CORRUPT"@.len() == 15);
    assert("ARCHIVE_ENCRYPTED"@.len() == 17);
    assert("RUN_AS_UNAVAILABLE"@.len() == 18);
    assert("EXECUTION_FAILED"@.len() == 16);
    assert("CANCEL_FAILED"@.len() == 13);
    assert("CAPTURE_FAILED"@.len() == 14);
    assert("HOST_TRANSITION_PENDING"@.len() == 23);
    let token = code.spec_token()@;
    match code {
        ErrorCode::StaleReference => {
            assert(token[6] != "STALE_AUTHORITY"@[6]);
        },
        ErrorCode::RevisionConflict => {
            assert(token[0] != "PERMISSION_DENIED"@[0]);
        },
        ErrorCode::Cancelled => {
            assert(token[0] != "NOT_FOUND"@[0]);
        },
        ErrorCode::ResourceLimit => {
            assert(token[0] != "ALREADY_EXISTS"@[0]);
        },
        ErrorCode::InternalError => {
            assert(token[0] != "ALREADY_EXISTS"@[0]);
            assert(token[0] != "RESOURCE_LIMIT"@[0]);
        },
        ErrorCode::NotEmpty => {
            assert(token[4] != "NOT_FOUND"@[4]);
            assert(token[0] != "CANCELLED"@[0]);
        },
        ErrorCode::ArchiveCorrupt => {
            assert(token[0] != "STALE_AUTHORITY"@[0]);
            assert(token[0] != "STALE_REFERENCE"@[0]);
        },
        ErrorCode::ArchiveEncrypted => {
            assert(token[0] != "PERMISSION_DENIED"@[0]);
            assert(token[0] != "REVISION_CONFLICT"@[0]);
        },
        ErrorCode::ExecutionFailed => {
            assert(token[0] != "INVALID_ARGUMENT"@[0]);
        },
        ErrorCode::CaptureFailed => {
            assert(token[0] != "ALREADY_EXISTS"@[0]);
            assert(token[0] != "RESOURCE_LIMIT"@[0]);
            assert(token[0] != "INTERNAL_ERROR"@[0]);
        },
        _ => {},
    }
}

#[derive(Clone, Debug, PartialEq)]
pub struct GrantFacts {
    pub android_local_network: Availability,
    pub android_notifications: Availability,
    pub android_notification_listener: Availability,
    pub automation_exact_alarm: Availability,
    pub visual_accessibility: Availability,
    pub visual_media_projection_session: Availability,
    pub shizuku_shell: Availability,
    pub magisk_module: Availability,
    pub magisk_root: Availability,
    pub magisk_framework: Availability,
    pub magisk_launch: Availability,
    pub magisk_clipboard: Availability,
    pub magisk_notifications: Availability,
    pub magisk_wake_alarm: Availability,
    pub execution_app_guard: Availability,
    pub execution_shell_guard: Availability,
    pub execution_root_guard: Availability,
}

#[derive(Clone, Debug, PartialEq)]
pub struct EffectiveCapabilities {
    pub filesystem_privileged_path: Availability,
    pub command_app: Availability,
    pub command_shell: Availability,
    pub command_root: Availability,
    pub network_inspect: Availability,
    pub network_internet: Availability,
    pub network_local: Availability,
    pub network_capture: Availability,
    pub network_inject: Availability,
    pub visual_image: Availability,
    pub visual_hierarchy: Availability,
    pub visual_coordinate_input: Availability,
    pub visual_key_input: Availability,
    pub visual_text_input: Availability,
    pub automation_persistent_time: Availability,
    pub android_notification_access: Availability,
}

/// The one protocol version this library speaks; on the wire it is the integer 1.
#[derive(Clone, Copy, Debug, PartialEq, Eq, Hash, Structural)]
pub struct ProtocolVersion;

impl Default for ProtocolVersion {
    fn default() -> (version: Self)
        ensures
            version == ProtocolVersion,
    {
        ProtocolVersion
    }
}

impl ProtocolVersion {
    /// The version a wire integer names: only 1 names one.
    pub fn from_wire(value: u32) -> (version: Result<Self, &'static str>)
        ensures
            version == (if value == 1 {
                Ok::<Self, &'static str>(ProtocolVersion)
            } else {
                Err::<Self, &'static str>("protocol_version must be 1")
            }),
    {
        if value == 1 {
            Ok(ProtocolVersion)
        } else {
            Err("protocol_version must be 1")
        }
    }
}

/// The boolean that is always true; on the wire `false` is refused.
#[derive(Clone, Copy, Debug, PartialEq, Eq, Hash, Structural)]
pub struct True;

impl Default for True {
    fn default() -> (value: Self)
        ensures
            value == True,
    {
        True
    }
}

impl True {
    /// The value a wire boolean names: only `true` names one.
    pub fn from_wire(value: bool) -> (truth: Result<Self, &'static str>)
        ensures
            truth == (if value {
                Ok::<Self, &'static str>(True)
            } else {
                Err::<Self, &'static str>("value must be true")
            }),
    {
        if value {
            Ok(True)
        } else {
            Err("value must be true")
        }
    }
}

// ---------------------------------------------------------------------------------------
// Identifiers.
// ---------------------------------------------------------------------------------------

/// The hyphenated text of sixteen octets: lower-case hexadecimal digits in groups of eight, four,
/// four, four and twelve.
pub open spec fn hyphenated(octets: Seq<u8>) -> Seq<char> {
    let digits = hex_text(octets);
    digits.subrange(0, 8) + seq!['-'] + digits.subrange(8, 12) + seq!['-'] + digits.subrange(12, 16)
        + seq!['-'] + digits.subrange(16, 20) + seq!['-'] + digits.subrange(20, 32)
}

/// The version number of sixteen octets: the high half of the seventh.
pub open spec fn octet_version(octets: Seq<u8>) -> nat {
    (octets[6] / 16) as nat
}

/// Whether `octets` are what the canonical text `text` spells, as a version-4 identifier.
pub open spec fn spells(text: Seq<char>, octets: Seq<u8>) -> bool {
    octets.len() == 16 && octet_version(octets) == 4 && text == hyphenated(octets)
}

/// Whether `text` is the canonical spelling of a version-4 identifier.
pub open spec fn is_uuid_v4(text: Seq<char>) -> bool {
    exists|octets: Seq<u8>| #[trigger] spells(text, octets)
}

/// What `uuid::Uuid::parse_str` makes of a text: the octets of the identifier it spells in any of
/// the formats that function accepts, or nothing.
pub uninterp spec fn uuid_octets(text: Seq<char>) -> Option<Seq<u8>>;

/// `uuid::Uuid::parse_str`, as the sixteen octets of the identifier. The hyphenated lower-case
/// text of sixteen octets is one of the formats it reads back.
#[verifier::external_body]
fn parse_uuid(text: &str) -> (octets: Option<[u8; 16]>)
    ensures
        octets matches Some(octets) ==> uuid_octets(text@) == Some(octets@),
        octets is None ==> uuid_octets(text@) is None,
        forall|expected: Seq<u8>|
            expected.len() == 16 && text@ == #[trigger] hyphenated(expected) ==> octets is Some
                && octets->0@ == expected,
{
    uuid::Uuid::parse_str(text).ok().map(|value| value.into_bytes())
}

/// `uuid::Uuid::get_version_num`: the high half of the seventh octet.
#[verifier::external_body]
fn uuid_version(octets: [u8; 16]) -> (version: usize)
    ensures
        version == octet_version(octets@),
{
    uuid::Uuid::from_bytes(octets).get_version_num()
}

/// `uuid::Uuid::new_v4`: sixteen random octets, of which the version and the variant are fixed.
#[verifier::external_body]
pub(crate) fn random_octets() -> (octets: [u8; 16])
    ensures
        octet_version(octets@) == 4,
{
    uuid::Uuid::new_v4().into_bytes()
}

/// `uuid::Uuid::hyphenated`, rendered: the lower-case hyphenated text of the octets.
#[verifier::external_body]
pub(crate) fn uuid_hyphenated(octets: [u8; 16]) -> (text: String)
    ensures
        text@ == hyphenated(octets@),
{
    uuid::Uuid::from_bytes(octets).hyphenated().to_string()
}

/// One version-4 identifier in its canonical spelling.
#[derive(Debug, PartialEq, Eq, Hash)]
pub struct UuidV4(String);

impl View for UuidV4 {
    type V = Seq<char>;

    closed spec fn view(&self) -> Seq<char> {
        self.0@
    }
}

impl UuidV4 {
    #[verifier::type_invariant]
    spec fn canonical(self) -> bool {
        is_uuid_v4(self.0@)
    }

    /// Reads one identifier. Exactly the lower-case hyphenated spelling of a version-4 identifier
    /// is accepted, and it is kept as it was written.
    pub fn parse(value: String) -> (id: Result<Self, &'static str>)
        ensures
            id is Ok <==> is_uuid_v4(value@),
            id matches Ok(id) ==> id@ == value@,
            id matches Err(reason) ==> reason == (if uuid_octets(value@) is None {
                "invalid UUID"
            } else {
                "UUID must be lowercase hyphenated RFC-4122 UUIDv4"
            }),
    {
        match parse_uuid(value.as_str()) {
            None => {
                assert forall|octets: Seq<u8>| #[trigger] spells(value@, octets) implies false by {
                    assert(value@ == hyphenated(octets));
                }
                Err("invalid UUID")
            },
            Some(octets) => {
                let version: usize = uuid_version(octets);
                let text = uuid_hyphenated(octets);
                if version != 4 || !same(text.as_str(), value.as_str()) {
                    assert forall|other: Seq<u8>| #[trigger] spells(value@, other) implies false by {
                        assert(value@ == hyphenated(other));
                    }
                    return Err("UUID must be lowercase hyphenated RFC-4122 UUIDv4");
                }
                assert(spells(value@, octets@));
                Ok(UuidV4(value))
            },
        }
    }

    /// The canonical spelling.
    pub fn as_str(&self) -> (text: &str)
        ensures
            text@ == self@,
            is_uuid_v4(text@),
    {
        proof {
            use_type_invariant(self);
        }
        self.0.as_str()
    }

    /// Whether two identifiers are the same.
    pub fn same_as(&self, other: &UuidV4) -> (equal: bool)
        ensures
            equal == (self@ == other@),
    {
        same(self.0.as_str(), other.0.as_str())
    }
}

impl Clone for UuidV4 {
    fn clone(&self) -> (id: Self)
        ensures
            id == *self,
    {
        proof {
            use_type_invariant(self);
        }
        UuidV4(self.0.clone())
    }
}

/// The spelling of an identifier that may be absent.
pub open spec fn optional_id(id: Option<UuidV4>) -> Option<Seq<char>> {
    match id {
        Some(id) => Some(id@),
        None => None,
    }
}

/// Whether two identifiers that may be absent are the same.
pub fn same_optional_id(left: &Option<UuidV4>, right: &Option<UuidV4>) -> (equal: bool)
    ensures
        equal == (optional_id(*left) == optional_id(*right)),
{
    match (left, right) {
        (None, None) => true,
        (Some(left), Some(right)) => left.same_as(right),
        _ => false,
    }
}

/// A copy of an identifier that may be absent.
pub fn clone_optional_id(id: &Option<UuidV4>) -> (copy: Option<UuidV4>)
    ensures
        copy == *id,
{
    match id {
        Some(id) => Some(id.clone()),
        None => None,
    }
}

proof fn lemma_hex_text_is_injective(left: Seq<u8>, right: Seq<u8>)
    requires
        left.len() == 16,
        right.len() == 16,
        hyphenated(left) == hyphenated(right),
    ensures
        left == right,
{
    let l = hex_text(left);
    let r = hex_text(right);
    let text = hyphenated(left);
    assert(l.subrange(0, 8) == text.subrange(0, 8));
    assert(l.subrange(8, 12) == text.subrange(9, 13));
    assert(l.subrange(12, 16) == text.subrange(14, 18));
    assert(l.subrange(16, 20) == text.subrange(19, 23));
    assert(l.subrange(20, 32) == text.subrange(24, 36));
    assert(r.subrange(0, 8) == text.subrange(0, 8));
    assert(r.subrange(8, 12) == text.subrange(9, 13));
    assert(r.subrange(12, 16) == text.subrange(14, 18));
    assert(r.subrange(16, 20) == text.subrange(19, 23));
    assert(r.subrange(20, 32) == text.subrange(24, 36));
    assert(l == l.subrange(0, 8) + l.subrange(8, 12) + l.subrange(12, 16) + l.subrange(16, 20)
        + l.subrange(20, 32));
    assert(r == l);
    assert forall|i: int| 0 <= i < 16 implies left[i] == right[i] by {
        assert(l[2 * i] == r[2 * i]);
        assert(l[2 * i + 1] == r[2 * i + 1]);
    }
    assert(left =~= right);
}

/// A canonical spelling names one identifier only: two sets of octets it spells are equal.
pub proof fn canonical_spelling_is_unambiguous(text: Seq<char>, left: Seq<u8>, right: Seq<u8>)
    requires
        spells(text, left),
        spells(text, right),
    ensures
        left == right,
{
    lemma_hex_text_is_injective(left, right);
}


pub type RequestId = UuidV4;
pub type TaskId = UuidV4;
pub type AutomationId = UuidV4;
pub type ExecutionId = UuidV4;
pub type CaptureId = UuidV4;

#[derive(Clone, Debug, PartialEq)]
pub enum ScalarValue {
    Null,
    Boolean(bool),
    Integer(i64),
    String(String),
}

/// What a scalar value is, over sequences.
pub enum ScalarModel {
    Null,
    Boolean(bool),
    Integer(i64),
    Text(Seq<char>),
}

impl View for ScalarValue {
    type V = ScalarModel;

    open spec fn view(&self) -> ScalarModel {
        match *self {
            ScalarValue::Null => ScalarModel::Null,
            ScalarValue::Boolean(value) => ScalarModel::Boolean(value),
            ScalarValue::Integer(value) => ScalarModel::Integer(value),
            ScalarValue::String(text) => ScalarModel::Text(text@),
        }
    }
}

impl ScalarValue {
    /// Whether two scalar values are the same.
    pub fn same_as(&self, other: &ScalarValue) -> (equal: bool)
        ensures
            equal == (self@ == other@),
    {
        match (self, other) {
            (ScalarValue::Null, ScalarValue::Null) => true,
            (ScalarValue::Boolean(left), ScalarValue::Boolean(right)) => *left == *right,
            (ScalarValue::Integer(left), ScalarValue::Integer(right)) => *left == *right,
            (ScalarValue::String(left), ScalarValue::String(right)) => same(
                left.as_str(),
                right.as_str(),
            ),
            _ => false,
        }
    }
}

#[derive(Clone, Debug, PartialEq)]
pub enum ErrorDetailScalar {
    Null,
    Boolean(bool),
    Signed(i64),
    Unsigned(u64),
    String(String),
}

#[derive(Clone, Debug, PartialEq)]
pub enum ErrorDetailValue {
    Null,
    Boolean(bool),
    Signed(i64),
    Unsigned(u64),
    String(String),
    Array(Vec<ErrorDetailScalar>),
}

#[derive(Clone, Debug, PartialEq)]
pub struct PublicError {
    pub code: ErrorCode,
    pub operation: String,
    pub retryable: bool,
    pub message: Option<String>,
    pub capability: Option<String>,
    pub details: Option<BTreeMap<String, ErrorDetailValue>>,
}

#[derive(Clone, Debug, PartialEq)]
pub struct Availability {
    pub state: CapabilityState,
    pub reason: Option<String>,
}

#[derive(Clone, Copy, Debug, PartialEq, Eq, Hash, Structural)]
pub enum FileTargetType {
    Path,
    ContentUri,
}

#[derive(Clone, Debug, PartialEq)]
pub struct FileTarget {
    pub target_type: FileTargetType,
    pub value: String,
}

#[derive(Clone, Debug, PartialEq)]
pub struct Region {
    pub x: u32,
    pub y: u32,
    pub width: u32,
    pub height: u32,
}

#[derive(Clone, Debug, PartialEq)]
pub struct ComponentName {
    pub package_name: String,
    pub class_name: String,
}

// ---------------------------------------------------------------------------------------
// Laws.
// ---------------------------------------------------------------------------------------

/// Each code is told by its own token, and by no other.
pub proof fn each_code_has_its_own_token(code: ErrorCode, token: &'static str)
    requires
        call_ensures(ErrorCode::token, (code,), token),
    ensures
        code is InvalidArgument <==> token@ == "INVALID_ARGUMENT"@,
        code is NotFound <==> token@ == "NOT_FOUND"@,
        code is AlreadyExists <==> token@ == "ALREADY_EXISTS"@,
        code is PermissionDenied <==> token@ == "PERMISSION_DENIED"@,
        code is CapabilityUnavailable <==> token@ == "CAPABILITY_UNAVAILABLE"@,
        code is Unsupported <==> token@ == "UNSUPPORTED"@,
        code is StaleAuthority <==> token@ == "STALE_AUTHORITY"@,
        code is StaleReference <==> token@ == "STALE_REFERENCE"@,
        code is RevisionConflict <==> token@ == "REVISION_CONFLICT"@,
        code is Timeout <==> token@ == "TIMEOUT"@,
        code is Cancelled <==> token@ == "CANCELLED"@,
        code is IoError <==> token@ == "IO_ERROR"@,
        code is ProtocolIncompatible <==> token@ == "PROTOCOL_INCOMPATIBLE"@,
        code is ResourceLimit <==> token@ == "RESOURCE_LIMIT"@,
        code is InternalError <==> token@ == "INTERNAL_ERROR"@,
        code is NotEmpty <==> token@ == "NOT_EMPTY"@,
        code is ArchiveCorrupt <==> token@ == "ARCHIVE_CORRUPT"@,
        code is ArchiveEncrypted <==> token@ == "ARCHIVE_ENCRYPTED"@,
        code is RunAsUnavailable <==> token@ == "RUN_AS_UNAVAILABLE"@,
        code is ExecutionFailed <==> token@ == "EXECUTION_FAILED"@,
        code is CancelFailed <==> token@ == "CANCEL_FAILED"@,
        code is CaptureFailed <==> token@ == "CAPTURE_FAILED"@,
        code is HostTransitionPending <==> token@ == "HOST_TRANSITION_PENDING"@,
{
    a_token_reads_back(code);
    a_token_reads_back(ErrorCode::InvalidArgument);
    a_token_reads_back(ErrorCode::NotFound);
    a_token_reads_back(ErrorCode::AlreadyExists);
    a_token_reads_back(ErrorCode::PermissionDenied);
    a_token_reads_back(ErrorCode::CapabilityUnavailable);
    a_token_reads_back(ErrorCode::Unsupported);
    a_token_reads_back(ErrorCode::StaleAuthority);
    a_token_reads_back(ErrorCode::StaleReference);
    a_token_reads_back(ErrorCode::RevisionConflict);
    a_token_reads_back(ErrorCode::Timeout);
    a_token_reads_back(ErrorCode::Cancelled);
    a_token_reads_back(ErrorCode::IoError);
    a_token_reads_back(ErrorCode::ProtocolIncompatible);
    a_token_reads_back(ErrorCode::ResourceLimit);
    a_token_reads_back(ErrorCode::InternalError);
    a_token_reads_back(ErrorCode::NotEmpty);
    a_token_reads_back(ErrorCode::ArchiveCorrupt);
    a_token_reads_back(ErrorCode::ArchiveEncrypted);
    a_token_reads_back(ErrorCode::RunAsUnavailable);
    a_token_reads_back(ErrorCode::ExecutionFailed);
    a_token_reads_back(ErrorCode::CancelFailed);
    a_token_reads_back(ErrorCode::CaptureFailed);
    a_token_reads_back(ErrorCode::HostTransitionPending);
}

/// A text is read as a code exactly if it is the token of one, and as that one.
pub proof fn only_a_token_is_read_as_a_code(
    text: &str,
    code: Option<ErrorCode>,
    other: ErrorCode,
    token: &'static str,
)
    requires
        call_ensures(error_code, (text,), code),
        call_ensures(ErrorCode::token, (other,), token),
    ensures
        text@ == token@ <==> code == Some(other),
{
    a_token_reads_back(other);
    each_code_has_its_own_token(other, token);
}

/// The tokens of the hosts and of the states of a capability.
pub proof fn hosts_and_states_have_their_tokens(
    host: RuntimeHost,
    host_token: &'static str,
    state: CapabilityState,
    state_token: &'static str,
)
    requires
        call_ensures(RuntimeHost::token, (host,), host_token),
        call_ensures(CapabilityState::token, (state,), state_token),
    ensures
        host is ApkRuntime ==> host_token@ == "apk_runtime"@,
        host is MagiskBackend ==> host_token@ == "magisk_backend"@,
        state is Available ==> state_token@ == "available"@,
        state is Unavailable ==> state_token@ == "unavailable"@,
        state is Unknown ==> state_token@ == "unknown"@,
{
}

/// An identifier is 36 characters long, with hyphens in the ninth, fourteenth, nineteenth and
/// twenty-fourth place, lower-case hexadecimal digits elsewhere, and a 4 in the fifteenth.
pub proof fn an_identifier_has_its_form(value: String, id: Result<UuidV4, &'static str>)
    requires
        call_ensures(UuidV4::parse, (value,), id),
    ensures
        id is Ok ==> {
            &&& value@.len() == 36
            &&& value@[8] == '-' && value@[13] == '-' && value@[18] == '-' && value@[23] == '-'
            &&& value@[14] == '4'
            &&& forall|i: int|
                0 <= i < 36 && i != 8 && i != 13 && i != 18 && i != 23 ==> '0' <= (
                #[trigger] value@[i]) <= '9' || 'a' <= value@[i] <= 'f'
        },
        id matches Ok(id) ==> id@ == value@,
{
    if id is Ok {
        let octets = choose|octets: Seq<u8>| #[trigger] spells(value@, octets);
        let digits = hex_text(octets);
        an_identifier_is_spelled_by_its_octets(octets);
        assert(digits[12] == '4') by {
            assert(octets[6] / 16 == 4);
        }
        assert(value@[14] == digits[12]) by {
            assert(digits.subrange(12, 16)[0] == digits[12]);
        }
        assert forall|i: int|
            0 <= i < 36 && i != 8 && i != 13 && i != 18 && i != 23 implies '0' <= (
        #[trigger] value@[i]) <= '9' || 'a' <= value@[i] <= 'f' by {
            let at = if i < 8 {
                i
            } else if i < 13 {
                i - 1
            } else if i < 18 {
                i - 2
            } else if i < 23 {
                i - 3
            } else {
                i - 4
            };
            assert(value@[i] == digits[at]);
            assert(octets[at / 2] / 16 < 16);
        }
    }
}

/// Without its hyphens an identifier is its sixteen octets in order, two digits each.
pub proof fn an_identifier_is_spelled_by_its_octets(octets: Seq<u8>)
    requires
        octets.len() == 16,
    ensures
        ({
            let text = hyphenated(octets);
            &&& text.len() == 36
            &&& text.subrange(0, 8) + text.subrange(9, 13) + text.subrange(14, 18)
                + text.subrange(19, 23) + text.subrange(24, 36) == hex_text(octets)
        }),
{
    let text = hyphenated(octets);
    let digits = hex_text(octets);
    assert(text.subrange(0, 8) =~= digits.subrange(0, 8));
    assert(text.subrange(9, 13) =~= digits.subrange(8, 12));
    assert(text.subrange(14, 18) =~= digits.subrange(12, 16));
    assert(text.subrange(19, 23) =~= digits.subrange(16, 20));
    assert(text.subrange(24, 36) =~= digits.subrange(20, 32));
    assert(digits.subrange(0, 8) + digits.subrange(8, 12) + digits.subrange(12, 16)
        + digits.subrange(16, 20) + digits.subrange(20, 32) =~= digits);
}

} // verus!
