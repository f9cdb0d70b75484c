//! The daemon's own updates: one signed record names the artifact, and each attempt to install it
//! is made once.

use crate::bytes::same_bytes;
use crate::contract::common::{ErrorCode, ExecutionId, UuidV4};
use crate::contract::internal::{MaintenanceInstallApk, MaintenanceInstallModule};
use crate::daemon::command::CommandProcessSettlement;
use crate::daemon::protocol::ModuleIdentity;
use crate::digest::{digest_text, sha256_text};
use crate::error::{DomainError, ExecutionFailure};
use crate::json::{
    canonical, canonicalize, entry, integer_model, integer_value, lemma_member_at, member,
    member_models, object, text_value, Json, JsonModel, Member,
};
use crate::text::{optional_text, owned_texts, same, slices, texts};
use vstd::hash_map::StringHashMap;
use vstd::prelude::*;
use vstd::utf8::encode_utf8;

verus! {

pub const RECORD: &'static str = "update-maintenance.json";

pub const STAGING_DIRECTORY: &'static str = "/data/local/tmp";

pub const PM: &'static str = "/system/bin/pm";

pub const MAGISK: &'static str = "/system/bin/magisk";

pub const KERNELSU: &'static str = "/data/adb/ksud";

pub const APATCH: &'static str = "/data/adb/ap/bin/apd";

pub const ROOT_PROVIDER_RECORD: &'static str = "root-provider";

pub const MAX_ARTIFACT_BYTES: u64 = 536_870_912;

/// The manager that installs modules.
#[derive(Clone, Copy, Debug, PartialEq, Eq, Structural)]
pub enum RootProvider {
    Magisk,
    KernelSu,
    APatch,
}

/// The record of an update, which the controller of the hosts writes.
#[derive(Debug)]
pub struct MaintenanceRecord {
    pub schema_version: u32,
    pub update_id: String,
    pub kind: String,
    pub target_version: String,
    pub target_version_code: u64,
    pub target_apk_sha256: Option<String>,
    pub target_apk_size: Option<u64>,
    pub target_apk_signer_sha256: String,
    pub target_module_sha256: Option<String>,
    pub target_module_size: Option<u64>,
    pub maintenance_execution_id: Option<String>,
    pub requires_module: bool,
    pub apk_install_provider: Option<String>,
    pub phase: String,
    pub apk_session_id: Option<i64>,
}

/// What came of reading the record's file.
#[derive(Debug)]
pub enum RecordFile {
    Missing,
    Unreadable,
    Malformed,
    Read(MaintenanceRecord),
}

fn stale(reason: &'static str) -> (error: DomainError)
    ensures
        error == (DomainError { code: ErrorCode::StaleAuthority, reason }),
{
    DomainError::new(ErrorCode::StaleAuthority, reason)
}

/// The record, if there is one that can be read and whose schema is known.
pub fn read_record(file: RecordFile) -> (record: Result<MaintenanceRecord, DomainError>)
    ensures
        record == (match file {
            RecordFile::Missing => Err(
                DomainError {
                    code: ErrorCode::StaleAuthority,
                    reason: "no update maintenance is recorded",
                },
            ),
            RecordFile::Unreadable => Err(
                DomainError {
                    code: ErrorCode::IoError,
                    reason: "cannot read update maintenance record",
                },
            ),
            RecordFile::Malformed => Err(
                DomainError {
                    code: ErrorCode::IoError,
                    reason: "update maintenance record is malformed",
                },
            ),
            RecordFile::Read(record) => if record.schema_version == 1 {
                Ok(record)
            } else {
                Err(
                    DomainError {
                        code: ErrorCode::IoError,
                        reason: "update maintenance record schema is unsupported",
                    },
                )
            },
        }),
{
    match file {
        RecordFile::Missing => Err(stale("no update maintenance is recorded")),
        RecordFile::Unreadable => Err(
            DomainError::new(ErrorCode::IoError, "cannot read update maintenance record"),
        ),
        RecordFile::Malformed => Err(
            DomainError::new(ErrorCode::IoError, "update maintenance record is malformed"),
        ),
        RecordFile::Read(record) => {
            if record.schema_version != 1 {
                return Err(
                    DomainError::new(
                        ErrorCode::IoError,
                        "update maintenance record schema is unsupported",
                    ),
                );
            }
            Ok(record)
        },
    }
}

/// The reply that reports a failure.
pub open spec fn error_model(code: ErrorCode) -> JsonModel {
    JsonModel::Object(
        seq![
            (
                "error"@,
                JsonModel::Object(
                    seq![
                        ("code"@, JsonModel::Text(code.spec_token()@)),
                        ("retryable"@, JsonModel::Boolean(false)),
                    ],
                ),
            ),
        ],
    )
}

/// The reply that reports a failure.
pub fn error_json(code: ErrorCode) -> (reply: Json)
    ensures
        reply@ == error_model(code),
{
    let mut inner: Vec<Member> = Vec::new();
    inner.push(entry("code", text_value(code.token())));
    inner.push(entry("retryable", Json::Boolean(false)));
    assert(member_models(inner@) =~= seq![
        ("code"@, JsonModel::Text(code.spec_token()@)),
        ("retryable"@, JsonModel::Boolean(false)),
    ]);
    let mut outer: Vec<Member> = Vec::new();
    outer.push(entry("error", object(inner)));
    assert(member_models(outer@) =~= error_model(code)->Object_0);
    object(outer)
}

// ---------------------------------------------------------------------------------------
// Attempts.
// ---------------------------------------------------------------------------------------

/// One attempt to install an update.
pub struct Attempt {
    pub execution_id: String,
    pub payload: Json,
    pub reply: Json,
    pub cleanup_verified: bool,
}

/// What an attempt is.
pub struct AttemptModel {
    pub execution_id: Seq<char>,
    pub payload: JsonModel,
    pub reply: JsonModel,
    pub cleanup_verified: bool,
}

impl View for Attempt {
    type V = AttemptModel;

    open spec fn view(&self) -> AttemptModel {
        AttemptModel {
            execution_id: self.execution_id@,
            payload: self.payload@,
            reply: self.reply@,
            cleanup_verified: self.cleanup_verified,
        }
    }
}

/// The last attempt of each update that this process made.
pub struct MaintenanceAttempts {
    attempts: StringHashMap<Attempt>,
}

/// What installs an artifact.
#[derive(Clone, Copy, Debug, PartialEq, Eq, Structural)]
pub enum InstallKind {
    Apk,
    Module,
}

/// A request to install an artifact.
#[derive(Debug)]
pub enum InstallPayload {
    Apk(MaintenanceInstallApk),
    Module(MaintenanceInstallModule),
}

/// What is to be installed.
#[derive(Debug)]
pub struct Target {
    pub update_id: UuidV4,
    pub execution_id: ExecutionId,
    pub sha256: String,
    pub size: u64,
    pub matches: bool,
    pub role: &'static str,
    pub suffix: &'static str,
}

/// Whether a request for the application is the one that the record allows.
pub open spec fn apk_matches(
    record: MaintenanceRecord,
    identity: ModuleIdentity,
    payload: MaintenanceInstallApk,
) -> bool {
    &&& record.kind@ == "product_update"@
    &&& record.phase@ == "apk_installing"@
    &&& optional_text(record.apk_install_provider) == Some("magisk_privileged"@)
    &&& record.apk_session_id is None
    &&& payload.package@ == identity.package@
    &&& payload.version_code == record.target_version_code
    &&& optional_text(record.target_apk_sha256) == Some(payload.sha256@)
    &&& record.target_apk_size == Some(payload.size)
    &&& payload.signer_sha256@ == record.target_apk_signer_sha256@
}

/// Whether a request for the module is the one that the record allows.
pub open spec fn module_matches(
    record: MaintenanceRecord,
    identity: ModuleIdentity,
    payload: MaintenanceInstallModule,
) -> bool {
    &&& record.phase@ == "module_installing"@
    &&& record.requires_module
    &&& payload.module_id@ == identity.module_id@
    &&& payload.version_code == record.target_version_code
    &&& optional_text(record.target_module_sha256) == Some(payload.sha256@)
    &&& record.target_module_size == Some(payload.size)
}

/// The target of a request.
pub open spec fn target_of(
    record: MaintenanceRecord,
    identity: ModuleIdentity,
    payload: InstallPayload,
) -> Target {
    match payload {
        InstallPayload::Apk(payload) => Target {
            update_id: payload.update_id,
            execution_id: payload.execution_id,
            sha256: payload.sha256,
            size: payload.size,
            matches: apk_matches(record, identity, payload),
            role: "verified_apk",
            suffix: "apk",
        },
        InstallPayload::Module(payload) => Target {
            update_id: payload.update_id,
            execution_id: payload.execution_id,
            sha256: payload.sha256,
            size: payload.size,
            matches: module_matches(record, identity, payload),
            role: "verified_module_zip",
            suffix: "zip",
        },
    }
}

fn is_text(value: &Option<String>, text: &str) -> (yes: bool)
    ensures
        yes == (optional_text(*value) == Some(text@)),
{
    match value {
        Some(value) => same(value.as_str(), text),
        None => false,
    }
}

fn is_size(value: Option<u64>, size: u64) -> (yes: bool)
    ensures
        yes == (value == Some(size)),
{
    match value {
        Some(value) => value == size,
        None => false,
    }
}

fn target(record: &MaintenanceRecord, identity: &ModuleIdentity, payload: InstallPayload) -> (made:
    Target)
    ensures
        made == target_of(*record, *identity, payload),
{
    match payload {
        InstallPayload::Apk(payload) => {
            let matches = same(record.kind.as_str(), "product_update") && same(
                record.phase.as_str(),
                "apk_installing",
            ) && is_text(&record.apk_install_provider, "magisk_privileged")
                && record.apk_session_id.is_none() && same(
                payload.package.as_str(),
                identity.package,
            ) && payload.version_code == record.target_version_code && is_text(
                &record.target_apk_sha256,
                payload.sha256.as_str(),
            ) && is_size(record.target_apk_size, payload.size) && same(
                payload.signer_sha256.as_str(),
                record.target_apk_signer_sha256.as_str(),
            );
            Target {
                update_id: payload.update_id,
                execution_id: payload.execution_id,
                sha256: payload.sha256,
                size: payload.size,
                matches,
                role: "verified_apk",
                suffix: "apk",
            }
        },
        InstallPayload::Module(payload) => {
            let matches = same(record.phase.as_str(), "module_installing") && record.requires_module
                && same(payload.module_id.as_str(), identity.module_id) && payload.version_code
                == record.target_version_code && is_text(
                &record.target_module_sha256,
                payload.sha256.as_str(),
            ) && is_size(record.target_module_size, payload.size);
            Target {
                update_id: payload.update_id,
                execution_id: payload.execution_id,
                sha256: payload.sha256,
                size: payload.size,
                matches,
                role: "verified_module_zip",
                suffix: "zip",
            }
        },
    }
}

/// What is to be done for a request.
#[derive(Debug)]
pub enum InstallStep {
    /// The same request was answered before; this is that answer.
    Replay(Json),
    /// Stage the artifact and run the installer.
    Launch(Target),
}

/// What came of looking at a request, over the attempts made so far.
pub enum InstallVerdict {
    Refuse(DomainError),
    Replay(JsonModel),
    Launch(Target),
}

/// What is to be done for a request that names the target, over the attempts made so far.
pub open spec fn attempt_verdict(
    attempts: Map<Seq<char>, Attempt>,
    target: Target,
    payload: JsonModel,
    descriptors: int,
    roles: Seq<Seq<char>>,
    has_instance: bool,
) -> InstallVerdict {
    let update_id = target.update_id@;
    if attempts.contains_key(update_id) && attempts[update_id]@.execution_id
        == target.execution_id@ {
        if canonical(attempts[update_id]@.payload) == canonical(payload) {
            InstallVerdict::Replay(attempts[update_id]@.reply)
        } else {
            InstallVerdict::Refuse(
                DomainError {
                    code: ErrorCode::InvalidArgument,
                    reason: "maintenance attempt payload changed",
                },
            )
        }
    } else if attempts.contains_key(update_id) && !attempts[update_id]@.cleanup_verified {
        InstallVerdict::Refuse(
            DomainError {
                code: ErrorCode::IoError,
                reason: "prior maintenance attempt cleanup is unverified",
            },
        )
    } else if descriptors != 1 || roles != seq![target.role@] {
        InstallVerdict::Refuse(
            DomainError {
                code: ErrorCode::InvalidArgument,
                reason: "maintenance artifact descriptor role is invalid",
            },
        )
    } else if !has_instance {
        InstallVerdict::Refuse(
            DomainError {
                code: ErrorCode::StaleAuthority,
                reason: "maintenance request carries no APK Runtime instance",
            },
        )
    } else {
        InstallVerdict::Launch(target)
    }
}

/// What is to be done for a request: the record has to name this attempt and to match it, and the
/// attempts made so far have to allow it.
pub open spec fn install_verdict(
    attempts: Map<Seq<char>, Attempt>,
    record: Result<MaintenanceRecord, DomainError>,
    identity: ModuleIdentity,
    decoded: Option<InstallPayload>,
    payload: JsonModel,
    descriptors: int,
    roles: Seq<Seq<char>>,
    has_instance: bool,
) -> InstallVerdict {
    match (record, decoded) {
        (Err(error), _) => InstallVerdict::Refuse(error),
        (Ok(_), None) => InstallVerdict::Refuse(
            DomainError { code: ErrorCode::InvalidArgument, reason: "invalid maintenance payload" },
        ),
        (Ok(record), Some(decoded)) => {
            let target = target_of(record, identity, decoded);
            if record.update_id@ != target.update_id@ || optional_text(
                record.maintenance_execution_id,
            ) != Some(target.execution_id@) {
                InstallVerdict::Refuse(
                    DomainError {
                        code: ErrorCode::StaleAuthority,
                        reason: "maintenance record does not name this attempt",
                    },
                )
            } else if !target.matches || !(0 < target.size <= MAX_ARTIFACT_BYTES) {
                InstallVerdict::Refuse(
                    DomainError {
                        code: ErrorCode::InvalidArgument,
                        reason: "maintenance request does not match the signed record",
                    },
                )
            } else {
                attempt_verdict(attempts, target, payload, descriptors, roles, has_instance)
            }
        },
    }
}

/// Whether a step is what a verdict asks for.
pub open spec fn follows(step: Result<InstallStep, DomainError>, verdict: InstallVerdict) -> bool {
    match (step, verdict) {
        (Err(error), InstallVerdict::Refuse(expected)) => error == expected,
        (Ok(InstallStep::Replay(reply)), InstallVerdict::Replay(expected)) => reply@ == expected,
        (Ok(InstallStep::Launch(target)), InstallVerdict::Launch(expected)) => target == expected,
        _ => false,
    }
}

/// The reply to a status request that was answered.
pub open spec fn status_model(update_id: Seq<char>, attempt: Option<AttemptModel>) -> JsonModel {
    match attempt {
        Some(attempt) => JsonModel::Object(
            seq![
                (
                    "cleanup"@,
                    JsonModel::Text(
                        if attempt.cleanup_verified {
                            "clean"@
                        } else {
                            "unverified"@
                        },
                    ),
                ),
                ("execution_id"@, JsonModel::Text(attempt.execution_id)),
                ("install_active"@, JsonModel::Boolean(false)),
                ("update_id"@, JsonModel::Text(update_id)),
            ],
        ),
        None => JsonModel::Object(
            seq![
                ("cleanup"@, JsonModel::Text("none"@)),
                ("install_active"@, JsonModel::Boolean(false)),
                ("update_id"@, JsonModel::Text(update_id)),
            ],
        ),
    }
}

/// The reply to an install that ran: its exit code, if its cleanup and that of the staged artifact
/// are both certain.
pub open spec fn install_reply(
    target: Target,
    settled: Result<CommandProcessSettlement, ExecutionFailure>,
    removed: bool,
) -> JsonModel {
    match settled {
        Ok(settlement) => if settlement.cleanup_verified && removed {
            JsonModel::Object(
                seq![
                    ("cleanup"@, JsonModel::Text("clean"@)),
                    ("execution_id"@, JsonModel::Text(target.execution_id@)),
                    (
                        "process_exit_code"@,
                        integer_model(
                            match settlement.outcome.exit_code {
                                Some(code) => code as int,
                                None => -1,
                            },
                        ),
                    ),
                    ("update_id"@, JsonModel::Text(target.update_id@)),
                ],
            )
        } else {
            error_model(ErrorCode::IoError)
        },
        Err(failure) => error_model(failure.error.code),
    }
}

/// Whether the cleanup of an install is certain.
pub open spec fn install_cleanup(settled: Result<CommandProcessSettlement, ExecutionFailure>) -> bool {
    match settled {
        Ok(settlement) => settlement.cleanup_verified,
        Err(failure) => failure.cleanup_verified,
    }
}

impl Default for MaintenanceAttempts {
    fn default() -> (attempts: Self)
        ensures
            attempts.made() == Map::<Seq<char>, Attempt>::empty(),
    {
        MaintenanceAttempts { attempts: StringHashMap::new() }
    }
}

impl MaintenanceAttempts {
    /// The last attempt of each update.
    pub closed spec fn made(self) -> Map<Seq<char>, Attempt> {
        self.attempts@
    }

    /// The last attempt of one update.
    pub open spec fn last(self, update_id: Seq<char>) -> Option<AttemptModel> {
        if self.made().contains_key(update_id) {
            Some(self.made()[update_id]@)
        } else {
            None
        }
    }

    /// Describes the last attempt of the update that the record names. `None` stands for a payload
    /// that is no status request.
    pub fn status(
        &self,
        update_id: Option<&UuidV4>,
        record: &Result<MaintenanceRecord, DomainError>,
    ) -> (reply: Json)
        ensures
            reply@ == (match (update_id, *record) {
                (None, _) => error_model(ErrorCode::InvalidArgument),
                (Some(_), Err(error)) => error_model(error.code),
                (Some(update_id), Ok(record)) => if record.update_id@ != update_id@ {
                    error_model(ErrorCode::StaleAuthority)
                } else {
                    status_model(update_id@, self.last(update_id@))
                },
            }),
    {
        let update_id = match update_id {
            Some(update_id) => update_id,
            None => {
                return error_json(ErrorCode::InvalidArgument);
            },
        };
        let record = match record {
            Ok(record) => record,
            Err(error) => {
                return error_json(error.code);
            },
        };
        if !same(record.update_id.as_str(), update_id.as_str()) {
            return error_json(ErrorCode::StaleAuthority);
        }
        let mut members: Vec<Member> = Vec::new();
        match self.attempts.get(update_id.as_str()) {
            Some(attempt) => {
                members.push(
                    entry(
                        "cleanup",
                        text_value(
                            if attempt.cleanup_verified {
                                "clean"
                            } else {
                                "unverified"
                            },
                        ),
                    ),
                );
                members.push(entry("execution_id", text_value(attempt.execution_id.as_str())));
            },
            None => {
                members.push(entry("cleanup", text_value("none")));
            },
        }
        members.push(entry("install_active", Json::Boolean(false)));
        members.push(entry("update_id", text_value(update_id.as_str())));
        assert(member_models(members@) =~= status_model(
            update_id@,
            self.last(update_id@),
        )->Object_0);
        object(members)
    }

    /// Decides what is to be done for a request to install. `decoded` is the request as it reads,
    /// or nothing if it reads as none; `payload` is the request as it came.
    pub fn prepare_install(
        &self,
        record: &Result<MaintenanceRecord, DomainError>,
        identity: &ModuleIdentity,
        decoded: Option<InstallPayload>,
        payload: &Json,
        descriptors: usize,
        roles: &[String],
        has_instance: bool,
    ) -> (step: Result<InstallStep, DomainError>)
        ensures
            follows(
                step,
                install_verdict(
                    self.made(),
                    *record,
                    *identity,
                    decoded,
                    payload@,
                    descriptors as int,
                    texts(roles@),
                    has_instance,
                ),
            ),
    {
        let record = match record {
            Ok(record) => record,
            Err(error) => {
                return Err(*error);
            },
        };
        let decoded = match decoded {
            Some(decoded) => decoded,
            None => {
                return Err(DomainError::invalid("invalid maintenance payload"));
            },
        };
        let target = target(record, identity, decoded);
        if !same(record.update_id.as_str(), target.update_id.as_str()) || !is_text(
            &record.maintenance_execution_id,
            target.execution_id.as_str(),
        ) {
            return Err(stale("maintenance record does not name this attempt"));
        }
        if !target.matches || target.size == 0 || target.size > MAX_ARTIFACT_BYTES {
            return Err(
                DomainError::invalid("maintenance request does not match the signed record"),
            );
        }
        if let Some(prior) = self.attempts.get(target.update_id.as_str()) {
            if same(prior.execution_id.as_str(), target.execution_id.as_str()) {
                if canonicalize(&prior.payload).same_as(&canonicalize(payload)) {
                    return Ok(InstallStep::Replay(prior.reply.clone()));
                }
                return Err(DomainError::invalid("maintenance attempt payload changed"));
            }
            if !prior.cleanup_verified {
                return Err(
                    DomainError::new(
                        ErrorCode::IoError,
                        "prior maintenance attempt cleanup is unverified",
                    ),
                );
            }
        }
        let role_fits = roles.len() == 1 && same(roles[0].as_str(), target.role);
        proof {
            if role_fits {
                assert(texts(roles@) =~= seq![target.role@]);
            } else if texts(roles@) == seq![target.role@] {
                assert(texts(roles@).len() == roles@.len());
                assert(seq![target.role@].len() == 1);
                assert(texts(roles@)[0] == target.role@);
            }
        }
        if descriptors != 1 || !role_fits {
            return Err(DomainError::invalid("maintenance artifact descriptor role is invalid"));
        }
        if !has_instance {
            return Err(stale("maintenance request carries no APK Runtime instance"));
        }
        Ok(InstallStep::Launch(target))
    }

    /// Records the attempt that was made for a target, and replies to it.
    pub fn settle_install(
        &mut self,
        target: &Target,
        payload: &Json,
        settled: Result<CommandProcessSettlement, ExecutionFailure>,
        removed: bool,
    ) -> (reply: Json)
        ensures
            reply@ == install_reply(*target, settled, removed),
            final(self).made().dom() == old(self).made().dom().insert(target.update_id@),
            final(self).last(target.update_id@) == Some(
                AttemptModel {
                    execution_id: target.execution_id@,
                    payload: payload@,
                    reply: install_reply(*target, settled, removed),
                    cleanup_verified: install_cleanup(settled),
                },
            ),
            forall|other: Seq<char>|
                other != target.update_id@ ==> #[trigger] final(self).last(other) == old(self).last(
                    other,
                ),
    {
        let (reply, cleanup_verified) = match settled {
            Ok(settlement) => {
                if settlement.cleanup_verified && removed {
                    let exit_code: i32 = match settlement.outcome.exit_code {
                        Some(code) => code,
                        None => -1,
                    };
                    let mut members: Vec<Member> = Vec::new();
                    members.push(entry("cleanup", text_value("clean")));
                    members.push(entry("execution_id", text_value(target.execution_id.as_str())));
                    members.push(entry("process_exit_code", integer_value(exit_code)));
                    members.push(entry("update_id", text_value(target.update_id.as_str())));
                    assert(member_models(members@) =~= install_reply(
                        *target,
                        Ok(settlement),
                        removed,
                    )->Object_0);
                    (object(members), true)
                } else {
                    (error_json(ErrorCode::IoError), settlement.cleanup_verified)
                }
            },
            Err(failure) => (error_json(failure.error.code), failure.cleanup_verified),
        };
        self.attempts.insert(
            target.update_id.as_str().to_owned(),
            Attempt {
                execution_id: target.execution_id.as_str().to_owned(),
                payload: payload.clone(),
                reply: reply.clone(),
                cleanup_verified,
            },
        );
        assert(self.made().dom() =~= old(self).made().dom().insert(target.update_id@));
        reply
    }
}

/// An attempt is never launched again: once it was made, the same request, in whatever order
/// its members stand, only gets the same answer, any other request for that attempt is refused, and no further attempt is launched for
/// an update while the cleanup of its last one is in doubt.
pub proof fn an_attempt_is_launched_once(
    attempts: Map<Seq<char>, Attempt>,
    target: Target,
    payload: JsonModel,
    descriptors: int,
    roles: Seq<Seq<char>>,
    has_instance: bool,
)
    requires
        attempts.contains_key(target.update_id@),
        attempts[target.update_id@]@.execution_id == target.execution_id@ ||
            !attempts[target.update_id@]@.cleanup_verified,
    ensures
        ({
            let last = attempts[target.update_id@]@;
            let verdict = attempt_verdict(
                attempts,
                target,
                payload,
                descriptors,
                roles,
                has_instance,
            );
            &&& !(verdict is Launch)
            &&& (last.execution_id == target.execution_id@ && canonical(last.payload)
                == canonical(payload)) ==> verdict == InstallVerdict::Replay(last.reply)
        }),
{
}

// ---------------------------------------------------------------------------------------
// Installers.
// ---------------------------------------------------------------------------------------

/// The command that installs a module with a provider.
pub open spec fn module_installer(provider: RootProvider, staged_path: Seq<char>) -> (
    Seq<char>,
    Seq<Seq<char>>,
) {
    match provider {
        RootProvider::Magisk => (MAGISK@, seq!["--install-module"@, staged_path]),
        RootProvider::KernelSu => (KERNELSU@, seq!["module"@, "install"@, staged_path]),
        RootProvider::APatch => (APATCH@, seq!["module"@, "install"@, staged_path]),
    }
}

/// The command that installs a module with a provider.
pub fn module_install_command_for(provider: RootProvider, staged_path: String) -> (command: (
    &'static str,
    Vec<String>,
))
    ensures
        command.0@ == module_installer(provider, staged_path@).0,
        texts(command.1@) == module_installer(provider, staged_path@).1,
{
    match provider {
        RootProvider::Magisk => {
            let parts = ["--install-module", staged_path.as_str()];
            assert(slices(parts@) =~= seq!["--install-module"@, staged_path@]);
            (MAGISK, owned_texts(&parts))
        },
        RootProvider::KernelSu => {
            let parts = ["module", "install", staged_path.as_str()];
            assert(slices(parts@) =~= seq!["module"@, "install"@, staged_path@]);
            (KERNELSU, owned_texts(&parts))
        },
        RootProvider::APatch => {
            let parts = ["module", "install", staged_path.as_str()];
            assert(slices(parts@) =~= seq!["module"@, "install"@, staged_path@]);
            (APATCH, owned_texts(&parts))
        },
    }
}

/// The command that installs an artifact. A module is installed by the device's own manager.
pub fn install_command(
    kind: InstallKind,
    staged_path: String,
    provider: Result<RootProvider, DomainError>,
) -> (command: Result<(&'static str, Vec<String>), DomainError>)
    ensures
        match (kind, provider) {
            (InstallKind::Apk, _) => {
                &&& command is Ok
                &&& command->Ok_0.0@ == PM@
                &&& texts(command->Ok_0.1@) == seq![
                    "install"@,
                    "-r"@,
                    "--user"@,
                    "0"@,
                    staged_path@,
                ]
            },
            (InstallKind::Module, Ok(provider)) => {
                &&& command is Ok
                &&& command->Ok_0.0@ == module_installer(provider, staged_path@).0
                &&& texts(command->Ok_0.1@) == module_installer(provider, staged_path@).1
            },
            (InstallKind::Module, Err(error)) => command == Err::<(&'static str, Vec<String>), _>(
                error,
            ),
        },
{
    match kind {
        InstallKind::Apk => {
            let parts = ["install", "-r", "--user", "0", staged_path.as_str()];
            assert(slices(parts@) =~= seq!["install"@, "-r"@, "--user"@, "0"@, staged_path@]);
            Ok((PM, owned_texts(&parts)))
        },
        InstallKind::Module => match provider {
            Ok(provider) => Ok(module_install_command_for(provider, staged_path)),
            Err(error) => Err(error),
        },
    }
}

pub open spec fn is_ascii_space(byte: u8) -> bool {
    byte == 9 || byte == 10 || byte == 12 || byte == 13 || byte == 32
}

/// Bytes without the white space before them.
pub open spec fn without_leading_space(bytes: Seq<u8>) -> Seq<u8>
    decreases bytes.len(),
{
    if bytes.len() > 0 && is_ascii_space(bytes[0]) {
        without_leading_space(bytes.skip(1))
    } else {
        bytes
    }
}

/// Bytes without the white space after them.
pub open spec fn without_trailing_space(bytes: Seq<u8>) -> Seq<u8>
    decreases bytes.len(),
{
    if bytes.len() > 0 && is_ascii_space(bytes.last()) {
        without_trailing_space(bytes.drop_last())
    } else {
        bytes
    }
}

/// Bytes without the white space around them.
pub open spec fn without_space(bytes: Seq<u8>) -> Seq<u8> {
    without_trailing_space(without_leading_space(bytes))
}

fn space(byte: u8) -> (yes: bool)
    ensures
        yes == is_ascii_space(byte),
{
    byte == 9 || byte == 10 || byte == 12 || byte == 13 || byte == 32
}

/// Bytes without the white space around them.
pub fn trimmed(value: &[u8]) -> (bytes: Vec<u8>)
    ensures
        bytes@ == without_space(value@),
{
    let mut start: usize = 0;
    assert(value@.subrange(0, value@.len() as int) =~= value@);
    while start < value.len() && space(value[start])
        invariant
            start <= value@.len(),
            without_leading_space(value@) == without_leading_space(
                value@.subrange(start as int, value@.len() as int),
            ),
        decreases value@.len() - start,
    {
        assert(value@.subrange(start as int, value@.len() as int).skip(1) =~= value@.subrange(
            start + 1,
            value@.len() as int,
        ));
        start += 1;
    }
    let ghost rest = value@.subrange(start as int, value@.len() as int);
    assert(without_leading_space(value@) == rest);
    let mut end: usize = value.len();
    while end > start && space(value[end - 1])
        invariant
            start <= end <= value@.len(),
            rest == value@.subrange(start as int, value@.len() as int),
            without_trailing_space(rest) == without_trailing_space(
                value@.subrange(start as int, end as int),
            ),
        decreases end,
    {
        assert(value@.subrange(start as int, end as int).drop_last() =~= value@.subrange(
            start as int,
            end - 1,
        ));
        end -= 1;
    }
    let mut bytes: Vec<u8> = Vec::new();
    for i in start..end
        invariant
            start <= end <= value@.len(),
            bytes@ == value@.subrange(start as int, i as int),
    {
        bytes.push(value[i]);
        assert(bytes@ =~= value@.subrange(start as int, i + 1));
    }
    bytes
}

/// Why a device whose manager is not known cannot be updated.
pub open spec fn unsupported() -> DomainError {
    DomainError {
        code: ErrorCode::CapabilityUnavailable,
        reason: "root module provider is unsupported",
    }
}

/// The manager that a device shows. More than one, or none, would have to be guessed at.
pub fn installed_provider(apatch: bool, kernelsu: bool, magisk: bool) -> (provider: Result<
    RootProvider,
    DomainError,
>)
    ensures
        provider == (if apatch && !kernelsu && !magisk {
            Ok(RootProvider::APatch)
        } else if !apatch && kernelsu && !magisk {
            Ok(RootProvider::KernelSu)
        } else if !apatch && !kernelsu && magisk {
            Ok(RootProvider::Magisk)
        } else {
            Err(unsupported())
        }),
{
    if apatch && !kernelsu && !magisk {
        Ok(RootProvider::APatch)
    } else if !apatch && kernelsu && !magisk {
        Ok(RootProvider::KernelSu)
    } else if !apatch && !kernelsu && magisk {
        Ok(RootProvider::Magisk)
    } else {
        Err(DomainError::new(ErrorCode::CapabilityUnavailable, "root module provider is unsupported"))
    }
}

/// The manager that the module recorded, with or without white space around its name. A module
/// without a record follows the manager that the device shows.
pub fn read_root_provider(record: Option<&[u8]>, apatch: bool, kernelsu: bool, magisk: bool) -> (
    provider: Result<RootProvider, DomainError>)
    ensures
        provider == (match record {
            Some(record) => if without_space(record@) == encode_utf8("magisk"@) {
                Ok(RootProvider::Magisk)
            } else if without_space(record@) == encode_utf8("kernelsu"@) {
                Ok(RootProvider::KernelSu)
            } else if without_space(record@) == encode_utf8("apatch"@) {
                Ok(RootProvider::APatch)
            } else {
                Err(unsupported())
            },
            None => if apatch && !kernelsu && !magisk {
                Ok(RootProvider::APatch)
            } else if !apatch && kernelsu && !magisk {
                Ok(RootProvider::KernelSu)
            } else if !apatch && !kernelsu && magisk {
                Ok(RootProvider::Magisk)
            } else {
                Err(unsupported())
            },
        }),
{
    let name = match record {
        Some(record) => trimmed(record),
        None => {
            return installed_provider(apatch, kernelsu, magisk);
        },
    };
    if same_bytes(name.as_slice(), "magisk".as_bytes()) {
        Ok(RootProvider::Magisk)
    } else if same_bytes(name.as_slice(), "kernelsu".as_bytes()) {
        Ok(RootProvider::KernelSu)
    } else if same_bytes(name.as_slice(), "apatch".as_bytes()) {
        Ok(RootProvider::APatch)
    } else {
        Err(DomainError::new(ErrorCode::CapabilityUnavailable, "root module provider is unsupported"))
    }
}

// ---------------------------------------------------------------------------------------
// Staging.
// ---------------------------------------------------------------------------------------

/// The path a target is staged at.
pub fn staging_path(target: &Target) -> (path: String)
    ensures
        path@ == STAGING_DIRECTORY@ + "/droidbridge-maintenance-"@ + target.execution_id@ + "."@
            + target.suffix@,
{
    let mut path = STAGING_DIRECTORY.to_owned();
    path.append("/droidbridge-maintenance-");
    path.append(target.execution_id.as_str());
    path.append(".");
    path.append(target.suffix);
    path
}

/// Refuses an artifact that is no regular file of the signed size.
pub fn check_artifact_file(is_file: bool, length: u64, size: u64) -> (checked: Result<
    (),
    DomainError,
>)
    ensures
        checked == (if is_file && length == size {
            Ok(())
        } else {
            Err(
                DomainError {
                    code: ErrorCode::InvalidArgument,
                    reason: "maintenance artifact is not the signed regular file",
                },
            )
        }),
{
    if !is_file || length != size {
        return Err(DomainError::invalid("maintenance artifact is not the signed regular file"));
    }
    Ok(())
}

/// Refuses an artifact whose content is not the signed one: neither longer nor shorter, and with
/// the signed digest.
pub fn check_artifact(content: &[u8], size: u64, sha256: &str) -> (checked: Result<(), DomainError>)
    ensures
        checked == (if content@.len() > size {
            Err(
                DomainError {
                    code: ErrorCode::InvalidArgument,
                    reason: "maintenance artifact exceeds its signed size",
                },
            )
        } else if content@.len() != size || digest_text(content@) != sha256@ {
            Err(
                DomainError {
                    code: ErrorCode::InvalidArgument,
                    reason: "maintenance artifact does not match its signed digest",
                },
            )
        } else {
            Ok(())
        }),
{
    let length: u64 = content.len() as u64;
    if length > size {
        return Err(DomainError::invalid("maintenance artifact exceeds its signed size"));
    }
    let actual = sha256_text(content);
    if length != size || !same(actual.as_str(), sha256) {
        return Err(DomainError::invalid("maintenance artifact does not match its signed digest"));
    }
    Ok(())
}

// ---------------------------------------------------------------------------------------
// Laws.
// ---------------------------------------------------------------------------------------

/// A failure is reported by the token of its code and as one that is not to be retried.
pub proof fn a_failure_is_reported_by_its_code(code: ErrorCode, reply: Json)
    requires
        call_ensures(error_json, (code,), reply),
    ensures
        reply@.get("error"@) is Some,
        reply@.get("error"@)->0.get("code"@) == Some(JsonModel::Text(code.spec_token()@)),
        reply@.get("error"@)->0.get("retryable"@) == Some(JsonModel::Boolean(false)),
{
    assert("code"@ != "retryable"@) by {
        reveal_strlit("code");
        reveal_strlit("retryable");
        assert("code"@.len() != "retryable"@.len());
    }
    let inner = error_model(code)->Object_0[0].1->Object_0;
    lemma_member_at(error_model(code)->Object_0, 0);
    lemma_member_at(inner, 0);
    lemma_member_at(inner, 1);
}

/// The application is installed only as the record has it: for a product update whose application
/// is being installed by the module, without a session of its own, with the recorded version,
/// digest, size and signer, and only the application of this module.
pub proof fn an_application_is_installed_as_recorded(
    attempts: MaintenanceAttempts,
    record: MaintenanceRecord,
    identity: ModuleIdentity,
    request: MaintenanceInstallApk,
    payload: Json,
    descriptors: usize,
    roles: &[String],
    has_instance: bool,
    step: Result<InstallStep, DomainError>,
)
    requires
        call_ensures(
            MaintenanceAttempts::prepare_install,
            (
                &attempts,
                &Ok(record),
                &identity,
                Some(InstallPayload::Apk(request)),
                &payload,
                descriptors,
                roles,
                has_instance,
            ),
            step,
        ),
    ensures
        step is Ok && step->Ok_0 is Launch ==> {
            let target = step->Ok_0->Launch_0;
            &&& record.update_id@ == request.update_id@
            &&& optional_text(record.maintenance_execution_id) == Some(request.execution_id@)
            &&& record.kind@ == "product_update"@
            &&& record.phase@ == "apk_installing"@
            &&& optional_text(record.apk_install_provider) == Some("magisk_privileged"@)
            &&& record.apk_session_id is None
            &&& request.package@ == identity.package@
            &&& request.version_code == record.target_version_code
            &&& optional_text(record.target_apk_sha256) == Some(request.sha256@)
            &&& record.target_apk_size == Some(request.size)
            &&& request.signer_sha256@ == record.target_apk_signer_sha256@
            &&& 0 < request.size <= 536_870_912
            &&& descriptors == 1 && roles@.len() == 1 && roles@[0]@ == "verified_apk"@
            &&& has_instance
            &&& target.update_id == request.update_id
            &&& target.execution_id == request.execution_id
            &&& target.sha256 == request.sha256
            &&& target.size == request.size
            &&& target.role@ == "verified_apk"@ && target.suffix@ == "apk"@
        },
        !attempts.made().contains_key(request.update_id@) && record.update_id@
            == request.update_id@ && optional_text(record.maintenance_execution_id) == Some(
            request.execution_id@,
        ) && record.kind@ == "product_update"@ && record.phase@ == "apk_installing"@
            && optional_text(record.apk_install_provider) == Some("magisk_privileged"@)
            && record.apk_session_id is None && request.package@ == identity.package@
            && request.version_code == record.target_version_code && optional_text(
            record.target_apk_sha256,
        ) == Some(request.sha256@) && record.target_apk_size == Some(request.size)
            && request.signer_sha256@ == record.target_apk_signer_sha256@ && 0 < request.size
            <= 536_870_912 && descriptors == 1 && roles@.len() == 1 && roles@[0]@
            == "verified_apk"@ && has_instance ==> step is Ok && step->Ok_0 is Launch,
{
    assert(texts(roles@).len() == roles@.len());
    if roles@.len() == 1 {
        assert(texts(roles@)[0] == roles@[0]@);
        if roles@[0]@ == "verified_apk"@ {
            assert(texts(roles@) =~= seq!["verified_apk"@]);
        }
    }
}

/// A module is installed only as the record has it: while the module is being installed and one is
/// required, with the recorded version, digest and size, and only this module.
pub proof fn a_module_is_installed_as_recorded(
    attempts: MaintenanceAttempts,
    record: MaintenanceRecord,
    identity: ModuleIdentity,
    request: MaintenanceInstallModule,
    payload: Json,
    descriptors: usize,
    roles: &[String],
    has_instance: bool,
    step: Result<InstallStep, DomainError>,
)
    requires
        call_ensures(
            MaintenanceAttempts::prepare_install,
            (
                &attempts,
                &Ok(record),
                &identity,
                Some(InstallPayload::Module(request)),
                &payload,
                descriptors,
                roles,
                has_instance,
            ),
            step,
        ),
    ensures
        step is Ok && step->Ok_0 is Launch ==> {
            let target = step->Ok_0->Launch_0;
            &&& record.update_id@ == request.update_id@
            &&& optional_text(record.maintenance_execution_id) == Some(request.execution_id@)
            &&& record.phase@ == "module_installing"@
            &&& record.requires_module
            &&& request.module_id@ == identity.module_id@
            &&& request.version_code == record.target_version_code
            &&& optional_text(record.target_module_sha256) == Some(request.sha256@)
            &&& record.target_module_size == Some(request.size)
            &&& 0 < request.size <= 536_870_912
            &&& descriptors == 1 && roles@.len() == 1 && roles@[0]@ == "verified_module_zip"@
            &&& has_instance
            &&& target.update_id == request.update_id
            &&& target.execution_id == request.execution_id
            &&& target.sha256 == request.sha256
            &&& target.size == request.size
            &&& target.role@ == "verified_module_zip"@ && target.suffix@ == "zip"@
        },
        !attempts.made().contains_key(request.update_id@) && record.update_id@
            == request.update_id@ && optional_text(record.maintenance_execution_id) == Some(
            request.execution_id@,
        ) && record.phase@ == "module_installing"@ && record.requires_module
            && request.module_id@ == identity.module_id@ && request.version_code
            == record.target_version_code && optional_text(record.target_module_sha256) == Some(
            request.sha256@,
        ) && record.target_module_size == Some(request.size) && 0 < request.size <= 536_870_912
            && descriptors == 1 && roles@.len() == 1 && roles@[0]@ == "verified_module_zip"@
            && has_instance ==> step is Ok && step->Ok_0 is Launch,
{
    assert(texts(roles@).len() == roles@.len());
    if roles@.len() == 1 {
        assert(texts(roles@)[0] == roles@[0]@);
        if roles@[0]@ == "verified_module_zip"@ {
            assert(texts(roles@) =~= seq!["verified_module_zip"@]);
        }
    }
}

/// What was answered once is answered so again, and only to the same request of the same attempt.
pub proof fn only_the_same_request_is_answered_again(
    attempts: MaintenanceAttempts,
    record: Result<MaintenanceRecord, DomainError>,
    identity: ModuleIdentity,
    decoded: Option<InstallPayload>,
    payload: Json,
    descriptors: usize,
    roles: &[String],
    has_instance: bool,
    step: Result<InstallStep, DomainError>,
)
    requires
        call_ensures(
            MaintenanceAttempts::prepare_install,
            (
                &attempts,
                &record,
                &identity,
                decoded,
                &payload,
                descriptors,
                roles,
                has_instance,
            ),
            step,
        ),
    ensures
        record matches Err(error) ==> step == Err::<InstallStep, _>(error),
        record is Ok && decoded is None ==> step is Err,
        step is Ok && step->Ok_0 is Replay ==> {
            let update_id = match decoded->0 {
                InstallPayload::Apk(request) => request.update_id@,
                InstallPayload::Module(request) => request.update_id@,
            };
            let execution_id = match decoded->0 {
                InstallPayload::Apk(request) => request.execution_id@,
                InstallPayload::Module(request) => request.execution_id@,
            };
            &&& attempts.made().contains_key(update_id)
            &&& attempts.made()[update_id].execution_id@ == execution_id
            &&& canonical(attempts.made()[update_id].payload@) == canonical(payload@)
            &&& step->Ok_0->Replay_0@ == attempts.made()[update_id].reply@
        },
{
}

/// An installation is told with its exit code, or -1 where it has none, only if both its own cleanup
/// and that of the staged artifact are certain; otherwise as a failure.
pub proof fn an_installation_is_told_as_it_ended(
    target: Target,
    payload: Json,
    settled: Result<CommandProcessSettlement, ExecutionFailure>,
    removed: bool,
)
    ensures
        forall|attempts: &mut MaintenanceAttempts, reply: Json| #[trigger]
            call_ensures(
                MaintenanceAttempts::settle_install,
                (attempts, &target, &payload, settled, removed),
                reply,
            ) ==> {
                let certain = settled is Ok && settled->Ok_0.cleanup_verified && removed;
                &&& certain ==> {
                    &&& reply@.get("cleanup"@) == Some(JsonModel::Text("clean"@))
                    &&& reply@.get("execution_id"@) == Some(JsonModel::Text(target.execution_id@))
                    &&& reply@.get("update_id"@) == Some(JsonModel::Text(target.update_id@))
                    &&& reply@.get("process_exit_code"@) == Some(
                        match settled->Ok_0.outcome.exit_code {
                            Some(code) => integer_model(code as int),
                            None => integer_model(-1),
                        },
                    )
                }
                &&& !certain ==> reply@.get("error"@) is Some
                &&& certain ==> reply@.get("error"@) is None
                &&& final(attempts).last(target.update_id@) is Some
                &&& final(attempts).last(target.update_id@)->0.execution_id == target.execution_id@
                &&& final(attempts).last(target.update_id@)->0.payload == payload@
                &&& final(attempts).last(target.update_id@)->0.reply == reply@
                &&& final(attempts).last(target.update_id@)->0.cleanup_verified == (match settled {
                    Ok(settlement) => settlement.cleanup_verified,
                    Err(failure) => failure.cleanup_verified,
                })
            },
{
    let model = install_reply(target, settled, removed);
    let members = model->Object_0;
    if settled is Ok && settled->Ok_0.cleanup_verified && removed {
        assert("cleanup"@ != "execution_id"@) by {
            reveal_strlit("cleanup");
            reveal_strlit("execution_id");
            assert("cleanup"@.len() != "execution_id"@.len());
        }
        assert("cleanup"@ != "process_exit_code"@) by {
            reveal_strlit("cleanup");
            reveal_strlit("process_exit_code");
            assert("cleanup"@.len() != "process_exit_code"@.len());
        }
        assert("cleanup"@ != "update_id"@) by {
            reveal_strlit("cleanup");
            reveal_strlit("update_id");
            assert("cleanup"@.len() != "update_id"@.len());
        }
        assert("execution_id"@ != "process_exit_code"@) by {
            reveal_strlit("execution_id");
            reveal_strlit("process_exit_code");
            assert("execution_id"@.len() != "process_exit_code"@.len());
        }
        assert("execution_id"@ != "update_id"@) by {
            reveal_strlit("execution_id");
            reveal_strlit("update_id");
            assert("execution_id"@.len() != "update_id"@.len());
        }
        assert("process_exit_code"@ != "update_id"@) by {
            reveal_strlit("process_exit_code");
            reveal_strlit("update_id");
            assert("process_exit_code"@.len() != "update_id"@.len());
        }
        lemma_member_at(members, 0);
        lemma_member_at(members, 1);
        lemma_member_at(members, 2);
        lemma_member_at(members, 3);
    assert("error"@ != "cleanup"@) by {
        reveal_strlit("error");
        reveal_strlit("cleanup");
        assert("error"@.len() != "cleanup"@.len());
    }
    assert("error"@ != "update_id"@) by {
        reveal_strlit("error");
        reveal_strlit("update_id");
        assert("error"@.len() != "update_id"@.len());
    }
    assert("error"@ != "execution_id"@) by {
        reveal_strlit("error");
        reveal_strlit("execution_id");
        assert("error"@.len() != "execution_id"@.len());
    }
    assert("error"@ != "process_exit_code"@) by {
        reveal_strlit("error");
        reveal_strlit("process_exit_code");
        assert("error"@.len() != "process_exit_code"@.len());
    }
        reveal_with_fuel(member, 5);
        assert(model.get("error"@) is None);
    } else {
        lemma_member_at(members, 0);
        assert(model.get("error"@) is Some);
    }
}

/// The status tells of the last attempt of an update whether its cleanup is certain, and of an
/// update without one that there was none. Another update than the recorded one is refused.
pub proof fn the_status_tells_the_last_attempt(
    attempts: MaintenanceAttempts,
    update_id: UuidV4,
    record: MaintenanceRecord,
    reply: Json,
)
    requires
        call_ensures(MaintenanceAttempts::status, (&attempts, Some(&update_id), &Ok(record)), reply),
    ensures
        record.update_id@ != update_id@ ==> reply@.get("error"@) is Some,
        record.update_id@ == update_id@ ==> {
            &&& reply@.get("update_id"@) == Some(JsonModel::Text(update_id@))
            &&& reply@.get("install_active"@) == Some(JsonModel::Boolean(false))
            &&& reply@.get("cleanup"@) == Some(
                JsonModel::Text(
                    if !attempts.made().contains_key(update_id@) {
                        "none"@
                    } else if attempts.made()[update_id@].cleanup_verified {
                        "clean"@
                    } else {
                        "unverified"@
                    },
                ),
            )
            &&& attempts.made().contains_key(update_id@) ==> reply@.get("execution_id"@) == Some(
                JsonModel::Text(attempts.made()[update_id@].execution_id@),
            )
        },
{
    if record.update_id@ == update_id@ {
        let members = status_model(update_id@, attempts.last(update_id@))->Object_0;
        if attempts.made().contains_key(update_id@) {
            assert("cleanup"@ != "execution_id"@) by {
                reveal_strlit("cleanup");
                reveal_strlit("execution_id");
                assert("cleanup"@.len() != "execution_id"@.len());
            }
            assert("cleanup"@ != "install_active"@) by {
                reveal_strlit("cleanup");
                reveal_strlit("install_active");
                assert("cleanup"@.len() != "install_active"@.len());
            }
            assert("cleanup"@ != "update_id"@) by {
                reveal_strlit("cleanup");
                reveal_strlit("update_id");
                assert("cleanup"@.len() != "update_id"@.len());
            }
            assert("execution_id"@ != "install_active"@) by {
                reveal_strlit("execution_id");
                reveal_strlit("install_active");
                assert("execution_id"@.len() != "install_active"@.len());
            }
            assert("execution_id"@ != "update_id"@) by {
                reveal_strlit("execution_id");
                reveal_strlit("update_id");
                assert("execution_id"@.len() != "update_id"@.len());
            }
            assert("install_active"@ != "update_id"@) by {
                reveal_strlit("install_active");
                reveal_strlit("update_id");
                assert("install_active"@.len() != "update_id"@.len());
            }
            lemma_member_at(members, 0);
            lemma_member_at(members, 1);
            lemma_member_at(members, 2);
            lemma_member_at(members, 3);
        } else {
            assert("cleanup"@ != "install_active"@) by {
                reveal_strlit("cleanup");
                reveal_strlit("install_active");
                assert("cleanup"@.len() != "install_active"@.len());
            }
            assert("cleanup"@ != "update_id"@) by {
                reveal_strlit("cleanup");
                reveal_strlit("update_id");
                assert("cleanup"@.len() != "update_id"@.len());
            }
            assert("install_active"@ != "update_id"@) by {
                reveal_strlit("install_active");
                reveal_strlit("update_id");
                assert("install_active"@.len() != "update_id"@.len());
            }
            lemma_member_at(members, 0);
            lemma_member_at(members, 1);
            lemma_member_at(members, 2);
        }
    } else {
        lemma_member_at(reply@->Object_0, 0);
    }
}

/// The application is installed by the package manager, in place of the old one and for the first
/// user; a module by the device's own manager, each with its own command.
pub proof fn each_manager_has_its_command(
    kind: InstallKind,
    staged_path: String,
    provider: RootProvider,
    command: Result<(&'static str, Vec<String>), DomainError>,
)
    requires
        call_ensures(install_command, (kind, staged_path, Ok(provider)), command),
    ensures
        command is Ok,
        ({
            let program = (command->Ok_0).0@;
            let arguments = (command->Ok_0).1@;
            &&& arguments.len() > 0
            &&& arguments.last()@ == staged_path@
            &&& kind is Apk ==> program == "/system/bin/pm"@ && arguments.len() == 5
                && arguments[0]@ == "install"@ && arguments[1]@ == "-r"@ && arguments[2]@
                == "--user"@ && arguments[3]@ == "0"@
            &&& kind is Module && provider is Magisk ==> program == "/system/bin/magisk"@
                && arguments.len() == 2 && arguments[0]@ == "--install-module"@
            &&& kind is Module && provider is KernelSu ==> program == "/data/adb/ksud"@
                && arguments.len() == 3 && arguments[0]@ == "module"@ && arguments[1]@
                == "install"@
            &&& kind is Module && provider is APatch ==> program == "/data/adb/ap/bin/apd"@
                && arguments.len() == 3 && arguments[0]@ == "module"@ && arguments[1]@
                == "install"@
        }),
{
    let arguments = (command->Ok_0).1@;
    let models = texts(arguments);
    assert(models.len() == arguments.len());
    assert forall|i: int| 0 <= i < arguments.len() implies models[i]
        == #[trigger] arguments[i]@ by {}
    assert(models[0] == arguments[0]@ && models.last() == arguments.last()@);
    if arguments.len() > 2 {
        assert(models[1] == arguments[1]@ && models[2] == arguments[2]@);
    }
    if arguments.len() > 4 {
        assert(models[3] == arguments[3]@ && models[4] == arguments[4]@);
    }
}

proof fn lemma_leading_space(bytes: Seq<u8>)
    ensures
        exists|before: Seq<u8>|
            bytes == #[trigger] (before + without_leading_space(bytes)) && forall|i: int|
                0 <= i < before.len() ==> is_ascii_space(#[trigger] before[i]),
        without_leading_space(bytes).len() > 0 ==> !is_ascii_space(
            without_leading_space(bytes)[0],
        ),
    decreases bytes.len(),
{
    if bytes.len() > 0 && is_ascii_space(bytes[0]) {
        lemma_leading_space(bytes.skip(1));
        let rest = choose|before: Seq<u8>|
            bytes.skip(1) == #[trigger] (before + without_leading_space(bytes.skip(1)))
                && forall|i: int|
                0 <= i < before.len() ==> is_ascii_space(#[trigger] before[i]);
        let before = seq![bytes[0]] + rest;
        assert(bytes =~= before + without_leading_space(bytes)) by {
            assert(bytes =~= seq![bytes[0]] + bytes.skip(1));
        }
    } else {
        assert(bytes =~= Seq::<u8>::empty() + without_leading_space(bytes));
    }
}

proof fn lemma_trailing_space(bytes: Seq<u8>)
    ensures
        exists|after: Seq<u8>|
            bytes == #[trigger] (without_trailing_space(bytes) + after) && forall|i: int|
                0 <= i < after.len() ==> is_ascii_space(#[trigger] after[i]),
        without_trailing_space(bytes).len() > 0 ==> !is_ascii_space(
            without_trailing_space(bytes).last(),
        ) && without_trailing_space(bytes)[0] == bytes[0],
    decreases bytes.len(),
{
    if bytes.len() > 0 && is_ascii_space(bytes.last()) {
        lemma_trailing_space(bytes.drop_last());
        let rest = choose|after: Seq<u8>|
            bytes.drop_last() == #[trigger] (without_trailing_space(bytes.drop_last()) + after)
                && forall|i: int|
                0 <= i < after.len() ==> is_ascii_space(#[trigger] after[i]);
        let after = rest.push(bytes.last());
        assert(bytes =~= without_trailing_space(bytes) + after) by {
            assert(bytes =~= bytes.drop_last().push(bytes.last()));
        }
    } else {
        assert(bytes =~= without_trailing_space(bytes) + Seq::<u8>::empty());
    }
}

/// Trimming takes away the white space around bytes and nothing else: spaces, tabs, line feeds, form
/// feeds and carriage returns.
pub proof fn trimming_keeps_everything_else(value: &[u8], bytes: Vec<u8>)
    requires
        call_ensures(trimmed, (value,), bytes),
    ensures
        exists|before: Seq<u8>, after: Seq<u8>|
            {
                &&& value@ == #[trigger] (before + bytes@ + after)
                &&& forall|i: int|
                    0 <= i < before.len() ==> #[trigger] before[i] == 32 || before[i] == 9
                        || before[i] == 10 || before[i] == 12 || before[i] == 13
                &&& forall|i: int|
                    0 <= i < after.len() ==> #[trigger] after[i] == 32 || after[i] == 9
                        || after[i] == 10 || after[i] == 12 || after[i] == 13
            },
        bytes@.len() > 0 ==> bytes@[0] != 32 && bytes@[0] != 9 && bytes@[0] != 10 && bytes@[0]
            != 12 && bytes@[0] != 13,
        bytes@.len() > 0 ==> bytes@.last() != 32 && bytes@.last() != 9 && bytes@.last() != 10
            && bytes@.last() != 12 && bytes@.last() != 13,
{
    let front = without_leading_space(value@);
    lemma_leading_space(value@);
    lemma_trailing_space(front);
    let before = choose|before: Seq<u8>|
        value@ == #[trigger] (before + front) && forall|i: int|
            0 <= i < before.len() ==> is_ascii_space(#[trigger] before[i]);
    let after = choose|after: Seq<u8>|
        front == #[trigger] (without_trailing_space(front) + after) && forall|i: int|
            0 <= i < after.len() ==> is_ascii_space(#[trigger] after[i]);
    assert(value@ =~= before + bytes@ + after);
    assert forall|i: int| 0 <= i < before.len() implies #[trigger] before[i] == 32 || before[i] == 9
        || before[i] == 10 || before[i] == 12 || before[i] == 13 by {
        assert(is_ascii_space(before[i]));
    }
    assert forall|i: int| 0 <= i < after.len() implies #[trigger] after[i] == 32 || after[i] == 9
        || after[i] == 10 || after[i] == 12 || after[i] == 13 by {
        assert(is_ascii_space(after[i]));
    }
}

/// An artifact is staged under the name of its attempt, apart from any other.
pub proof fn an_artifact_is_staged_by_its_attempt(target: Target, path: String)
    requires
        call_ensures(staging_path, (&target,), path),
    ensures
        path@ == "/data/local/tmp"@ + "/droidbridge-maintenance-"@ + target.execution_id@ + "."@
            + target.suffix@,
{
}

} // verus!
