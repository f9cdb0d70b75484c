//! The private daemon operations and the envelope of one internal execution.

use crate::contract::common::{ExecutionClass, ExecutionId, ProtocolVersion, RuntimeHost, UuidV4};
use crate::json::Json;
use vstd::prelude::*;

verus! {

#[derive(Clone, Debug, PartialEq)]
pub struct Fence {
    pub runtime_epoch: UuidV4,
    pub host_generation: u64,
    pub runtime_instance_id: UuidV4,
}

#[derive(Clone, Debug, PartialEq)]
pub struct InternalExecutionEnvelope<T> {
    pub protocol_version: ProtocolVersion,
    pub execution_id: ExecutionId,
    pub execution_class: ExecutionClass,
    pub fence: Fence,
    pub payload: T,
}

#[derive(Clone, Debug, PartialEq)]
pub enum DaemonOperation {
    HostStatus(Empty),
    HostPrepareTransition(HostPrepareTransition),
    HostAbortTransition(TransitionId),
    HostRelease(TransitionId),
    HostActivate(HostActivate),
    RuntimeForward(Json),
    RuntimeCancel(CancelExecution),
    CompanionExecute(Json),
    CompanionCancel(CancelExecution),
    CapabilitySnapshot(Empty),
    DiagnosticsSnapshot(Empty),
    MaintenanceStatus(MaintenanceStatus),
    MaintenanceInstallApk(MaintenanceInstallApk),
    MaintenanceInstallModule(MaintenanceInstallModule),
}

#[derive(Clone, Debug, PartialEq)]
pub struct Empty {}

impl Default for Empty {
    fn default() -> (value: Self)
        ensures
            value == (Empty {  }),
    {
        Empty {  }
    }
}

#[derive(Clone, Debug, PartialEq)]
pub struct TransitionId {
    pub transition_id: UuidV4,
}

#[derive(Clone, Debug, PartialEq)]
pub struct CancelExecution {
    pub execution_id: ExecutionId,
}

#[derive(Clone, Debug, PartialEq)]
pub struct HostPrepareTransition {
    pub transition_id: UuidV4,
    pub runtime_epoch: UuidV4,
    pub from_host: RuntimeHost,
    pub from_generation: u64,
    pub from_instance_id: UuidV4,
    pub target_host: RuntimeHost,
}

#[derive(Clone, Debug, PartialEq)]
pub struct HostActivate {
    pub transition_id: UuidV4,
    pub runtime_epoch: UuidV4,
    pub host_generation: u64,
    pub target_host: RuntimeHost,
}

#[derive(Clone, Debug, PartialEq)]
pub struct MaintenanceStatus {
    pub update_id: UuidV4,
}

#[derive(Clone, Copy, Debug, PartialEq, Eq)]
pub enum CleanupState {
    Unstarted,
    Running,
    Clean,
    Unverified,
}

#[derive(Clone, Copy, Debug, PartialEq, Eq)]
pub enum MaintenanceClean {
    Clean,
}

#[derive(Clone, Debug, PartialEq)]
pub struct MaintenanceStatusResult {
    pub update_id: UuidV4,
    pub install_active: bool,
    pub execution_id: Option<ExecutionId>,
    pub cleanup: CleanupState,
}

#[derive(Clone, Debug, PartialEq)]
pub struct MaintenanceInstallApk {
    pub update_id: UuidV4,
    pub execution_id: ExecutionId,
    pub package: String,
    pub version_code: u64,
    pub sha256: String,
    pub signer_sha256: String,
    pub size: u64,
}

#[derive(Clone, Debug, PartialEq)]
pub struct MaintenanceInstallModule {
    pub update_id: UuidV4,
    pub execution_id: ExecutionId,
    pub module_id: String,
    pub version_code: u64,
    pub sha256: String,
    pub size: u64,
}

#[derive(Clone, Debug, PartialEq)]
pub struct MaintenanceInstallResult {
    pub update_id: UuidV4,
    pub execution_id: ExecutionId,
    pub process_exit_code: i32,
    pub cleanup: MaintenanceClean,
}

} // verus!
