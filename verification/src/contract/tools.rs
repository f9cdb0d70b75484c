//! The public tool calls: one input and one result shape per action.

use crate::contract::automation::{
    Automation, AutomationDeleteInput, AutomationGetInput, AutomationListInput, AutomationRunInput,
    AutomationSaveInput, AutomationSetEnabledInput,
};
use crate::contract::common::{
    CapabilityState, CaptureId, CompatibilityState, ComponentName, EffectiveCapabilities,
    ExecutionClass, FileTarget, GrantFacts, MotherTool, PublicError, Region, RuntimeHost,
    RuntimeReadiness, TaskId, TaskState, True, UuidV4,
};
use crate::contract::results::{TaskTerminalResult};
use std::collections::BTreeMap;
use vstd::prelude::*;

verus! {

#[allow(inconsistent_fields)]
#[derive(Clone, Debug, PartialEq)]
pub enum PublicPayload {
    Context {
        call: ContextCall,
    },
    Filesystem {
        call: FilesystemCall,
    },
    Command {
        call: CommandCall,
    },
    Network {
        call: NetworkCall,
    },
    Visual {
        call: VisualCall,
    },
    Android {
        call: AndroidCall,
    },
    Automation {
        call: AutomationCall,
    },
    TaskControl {
        call: TaskControlCall,
    },
}

#[derive(Clone, Copy, Debug, PartialEq, Eq, Hash, Structural)]
pub enum ContextDetail {
    Compact,
    Full,
}

impl Default for ContextDetail {
    fn default() -> (value: Self)
        ensures
            value == ContextDetail::Compact,
    {
        ContextDetail::Compact
    }
}

#[derive(Clone, Debug, PartialEq)]
pub enum ContextCall {
    Status(ContextStatusInput),
    Catalog(ContextCatalogInput),
}

#[derive(Clone, Debug, PartialEq)]
pub struct ContextStatusInput {
    pub detail: ContextDetail,
}

impl Default for ContextStatusInput {
    fn default() -> (input: Self)
        ensures
            input.detail == ContextDetail::Compact,
    {
        ContextStatusInput { detail: ContextDetail::default() }
    }
}

#[derive(Clone, Debug, PartialEq)]
pub struct ContextCatalogInput {
    pub namespace: String,
    pub detail: ContextDetail,
}

impl Default for ContextCatalogInput {
    fn default() -> (input: Self)
        ensures
            input.namespace@.len() == 0,
            input.detail == ContextDetail::Compact,
    {
        ContextCatalogInput { namespace: String::new(), detail: ContextDetail::default() }
    }
}

#[derive(Clone, Debug, PartialEq)]
pub struct DeviceCompact {
    pub sdk_int: u32,
    pub abi: String,
    pub timezone: String,
}

#[derive(Clone, Debug, PartialEq)]
pub struct DeviceFull {
    pub sdk_int: u32,
    pub abi: String,
    pub timezone: String,
    pub manufacturer: String,
    pub model: String,
    pub device: String,
    pub build_fingerprint: String,
}

#[derive(Clone, Debug, PartialEq)]
pub struct RuntimeStatus {
    pub host: RuntimeHost,
    pub host_generation: u64,
    pub readiness: RuntimeReadiness,
    pub reason: Option<String>,
}

#[derive(Clone, Debug, PartialEq)]
pub struct ContextStatusCompact {
    pub device: DeviceCompact,
    pub runtime: RuntimeStatus,
    pub capabilities: EffectiveCapabilities,
}

#[derive(Clone, Debug, PartialEq)]
pub struct ContextStatusFull {
    pub device: DeviceFull,
    pub runtime: RuntimeStatus,
    pub capabilities: EffectiveCapabilities,
    pub grants: GrantFacts,
    pub components: ComponentStatus,
    pub compatibility: Compatibility,
}

#[derive(Clone, Debug, PartialEq)]
pub struct VersionFact {
    pub version_name: String,
    pub version_code: u64,
}

#[derive(Clone, Debug, PartialEq)]
pub struct RuntimeComponent {
    pub host: RuntimeHost,
    pub component_version: String,
    pub protocol_version: u32,
    pub store_schema_version: u32,
}

#[derive(Clone, Debug, PartialEq)]
pub struct IntegrationFact {
    pub integration_version: String,
    pub manager_version: Option<String>,
    pub state: CapabilityState,
    pub reason: Option<String>,
}

#[derive(Clone, Debug, PartialEq)]
pub struct MagiskComponent {
    pub module_version: Option<String>,
    pub daemon_version: Option<String>,
    pub state: CapabilityState,
    pub reason: Option<String>,
}

#[derive(Clone, Debug, PartialEq)]
pub struct ComponentStatus {
    pub apk: VersionFact,
    pub runtime_host: RuntimeComponent,
    pub shizuku: IntegrationFact,
    pub magisk: MagiskComponent,
}

#[derive(Clone, Debug, PartialEq)]
pub struct Compatibility {
    pub protocol: CompatibilityState,
    pub store_schema: CompatibilityState,
}

#[derive(Clone, Debug, PartialEq)]
pub struct CatalogAction {
    pub name: String,
    pub automation_compatible: bool,
    pub capability_requirement: Option<String>,
}

#[derive(Clone, Debug, PartialEq)]
pub struct ContextCatalogResult {
    pub current_namespace: String,
    pub root_tools: Vec<MotherTool>,
    pub parent: Option<String>,
    pub siblings: Vec<MotherTool>,
    pub actions: Vec<CatalogAction>,
}

#[derive(Clone, Copy, Debug, PartialEq, Eq, Hash, Structural)]
pub enum FileType {
    File,
    Directory,
    Symlink,
    Other,
}

#[derive(Clone, Copy, Debug, PartialEq, Eq, Hash, Structural)]
pub enum DataEncoding {
    Utf8,
    Base64,
}

impl Default for DataEncoding {
    fn default() -> (value: Self)
        ensures
            value == DataEncoding::Utf8,
    {
        DataEncoding::Utf8
    }
}

#[derive(Clone, Debug, PartialEq)]
pub enum FilesystemCall {
    Inspect(FilesystemInspectInput),
    Read(FilesystemReadInput),
    Write(FilesystemWriteInput),
    Manage(FilesystemManageInput),
    Download(FilesystemDownloadInput),
    Archive(FilesystemArchiveInput),
}

#[derive(Clone, Debug, PartialEq)]
pub struct FilesystemInspectInput {
    pub target: FileTarget,
    pub recursive: bool,
    pub max_depth: u32,
    pub max_entries: u32,
}

#[derive(Clone, Debug, PartialEq)]
pub struct FileEntry {
    pub name: String,
    pub entry_type: FileType,
    pub size: Option<u64>,
    pub modified_at: Option<String>,
}

#[derive(Clone, Debug, PartialEq)]
pub struct FilesystemInspectResult {
    pub target: FileTarget,
    pub target_type: FileType,
    pub size: Option<u64>,
    pub modified_at: Option<String>,
    pub entries: Option<Vec<FileEntry>>,
    pub truncated: Option<bool>,
}

#[derive(Clone, Debug, PartialEq)]
pub enum ReadSource {
    Target { target: FileTarget },
    DataRef { data_ref: String },
}

#[derive(Clone, Debug, PartialEq)]
pub struct FilesystemReadInput {
    pub source: ReadSource,
    pub offset: u64,
    pub max_bytes: u64,
    pub encoding: DataEncoding,
}

#[derive(Clone, Debug, PartialEq)]
pub struct FilesystemReadResult {
    pub data: Option<String>,
    pub data_ref: Option<String>,
    pub returned_bytes: u64,
    pub total_size: Option<u64>,
    pub truncated: bool,
    pub sha256: Option<String>,
}

#[derive(Clone, Debug, PartialEq)]
pub enum FilesystemWriteInput {
    Create {
        target: FileTarget,
        content: String,
        encoding: DataEncoding,
    },
    Replace {
        target: FileTarget,
        content: String,
        encoding: DataEncoding,
    },
    Edit {
        target: FileTarget,
        replacements: Vec<Replacement>,
    },
}

#[derive(Clone, Debug, PartialEq)]
pub struct Replacement {
    pub old: String,
    pub new: String,
}

#[derive(Clone, Debug, PartialEq)]
pub struct FilesystemWriteResult {
    pub bytes_written: u64,
    pub sha256: Option<String>,
}

#[derive(Clone, Debug, PartialEq)]
pub enum FilesystemManageInput {
    Mkdir {
        target: FileTarget,
        parents: bool,
    },
    Copy {
        source: FileTarget,
        destination: FileTarget,
        recursive: bool,
        overwrite: bool,
    },
    Move {
        source: FileTarget,
        destination: FileTarget,
        recursive: bool,
        overwrite: bool,
    },
    Delete {
        target: FileTarget,
        recursive: bool,
    },
}

#[derive(Clone, Copy, Debug, PartialEq, Eq, Hash, Structural)]
pub enum ManageOperation {
    Mkdir,
    Copy,
    Move,
    Delete,
}

#[derive(Clone, Debug, PartialEq)]
pub struct FilesystemManageResult {
    pub operation: ManageOperation,
    pub completed: True,
    pub target: Option<FileTarget>,
    pub source: Option<FileTarget>,
    pub destination: Option<FileTarget>,
}

#[derive(Clone, Debug, PartialEq)]
pub struct FilesystemDownloadInput {
    pub url: String,
    pub destination: FileTarget,
    pub overwrite: bool,
    pub timeout_ms: u64,
}

#[derive(Clone, Debug, PartialEq)]
pub struct TaskAccepted {
    pub task_id: TaskId,
}

#[derive(Clone, Copy, Debug, PartialEq, Eq, Hash, Structural)]
pub enum ArchiveFormat {
    Zip,
    Tar,
    TarGz,
}

#[derive(Clone, Copy, Debug, PartialEq, Eq, Hash, Structural)]
pub enum ArchiveEntryType {
    File,
    Directory,
    Symlink,
    Other,
}

#[derive(Clone, Debug, PartialEq)]
pub enum FilesystemArchiveInput {
    List {
        target: FileTarget,
        max_entries: u32,
    },
    Extract {
        target: FileTarget,
        destination: FileTarget,
        overwrite: bool,
    },
    Create {
        sources: Vec<FileTarget>,
        destination: FileTarget,
        format: ArchiveFormat,
        overwrite: bool,
    },
}

#[derive(Clone, Debug, PartialEq)]
pub struct ArchiveEntry {
    pub path: String,
    pub entry_type: ArchiveEntryType,
    pub size: Option<u64>,
}

#[derive(Clone, Copy, Debug, PartialEq, Eq, Hash, Structural)]
pub enum RunAs {
    App,
    Shell,
    Root,
}

#[derive(Clone, Copy, Debug, PartialEq, Eq, Hash, Structural)]
pub enum CommandTerminalState {
    Completed,
    Failed,
}

#[derive(Clone, Copy, Debug, PartialEq, Eq, Hash, Structural)]
pub enum CommandFailureCode {
    ExecutionFailed,
    Timeout,
}

#[derive(Clone, Debug, PartialEq)]
pub enum CommandCall {
    Run(CommandRunInput),
}

#[derive(Clone, Debug, PartialEq)]
pub struct CommandRunInput {
    pub command: String,
    pub run_as: RunAs,
    pub cwd: Option<String>,
    pub stdin: Option<String>,
    pub timeout_ms: u64,
    pub max_output_bytes: u64,
    pub as_task: bool,
}

#[derive(Clone, Debug, PartialEq)]
pub struct CommandResult {
    pub state: CommandTerminalState,
    pub failure_code: Option<CommandFailureCode>,
    pub exit_code: Option<i32>,
    pub requested_run_as: RunAs,
    pub actual_run_as: RunAs,
    pub execution_class: ExecutionClass,
    pub duration_ms: u64,
    pub stdout: Option<String>,
    pub stdout_ref: Option<String>,
    pub stdout_truncated: bool,
    pub stderr: Option<String>,
    pub stderr_ref: Option<String>,
    pub stderr_truncated: bool,
}

#[derive(Clone, Debug, PartialEq)]
pub enum TaskControlCall {
    List(TaskListInput),
    Get(TaskGetInput),
    Cancel(TaskGetInput),
}

#[derive(Clone, Debug, PartialEq)]
pub struct TaskListInput {
    pub states: Option<Vec<TaskState>>,
    pub limit: u32,
}

#[derive(Clone, Debug, PartialEq)]
pub struct TaskGetInput {
    pub task_id: TaskId,
}

#[derive(Clone, Debug, PartialEq)]
pub struct TaskSummary {
    pub task_id: TaskId,
    pub state: TaskState,
    pub tool: MotherTool,
    pub action: String,
    pub created_at: String,
    pub started_at: Option<String>,
    pub ended_at: Option<String>,
    pub waiting_reason: Option<String>,
}

#[derive(Clone, Debug, PartialEq)]
pub struct TaskListResult {
    pub tasks: Vec<TaskSummary>,
}

#[derive(Clone, Debug, PartialEq)]
pub struct TaskSnapshot {
    pub task_id: TaskId,
    pub state: TaskState,
    pub tool: MotherTool,
    pub action: String,
    pub created_at: String,
    pub started_at: Option<String>,
    pub ended_at: Option<String>,
    pub cancel_requested: bool,
    pub waiting_reason: Option<String>,
    pub execution_class: Option<ExecutionClass>,
    pub result: Option<TaskTerminalResult>,
    pub error: Option<PublicError>,
}

#[derive(Clone, Copy, Debug, PartialEq, Eq, Hash, Structural)]
pub enum NetworkScope {
    Interfaces,
    Routes,
    Dns,
    Sockets,
    All,
}

#[derive(Clone, Copy, Debug, PartialEq, Eq, Hash, Structural)]
pub enum DnsRecordType {
    A,
    Aaaa,
}

impl Default for DnsRecordType {
    fn default() -> (value: Self)
        ensures
            value == DnsRecordType::A,
    {
        DnsRecordType::A
    }
}

#[derive(Clone, Debug, PartialEq)]
pub enum NetworkCall {
    Inspect(NetworkInspectInput),
    Capture(NetworkCaptureInput),
    Packet(NetworkPacketInput),
    Diagnose(NetworkDiagnoseInput),
}

#[derive(Clone, Debug, PartialEq)]
pub struct NetworkInspectInput {
    pub scope: NetworkScope,
    pub max_entries: u32,
}

#[derive(Clone, Debug, PartialEq)]
pub enum CaptureReadSource {
    CaptureRef { capture_ref: String },
    File { file: FileTarget },
}

#[allow(inconsistent_fields)]
#[derive(Clone, Debug, PartialEq)]
pub enum NetworkCaptureInput {
    Start {
        interface: String,
        filter: Option<String>,
        max_packets: u64,
        max_bytes: u64,
        max_duration_ms: u64,
        persist_to: Option<FileTarget>,
    },
    Stop { capture_id: CaptureId },
    Read {
        source: CaptureReadSource,
        offset_packet: u64,
        max_packets: u32,
        include_payload: bool,
    },
}

#[derive(Clone, Debug, PartialEq)]
pub enum PacketDecodeSource {
    Raw { raw_base64: String },
    PacketRef { packet_ref: String },
    Capture { capture_ref: String, index: u64 },
}

#[derive(Clone, Debug, PartialEq)]
pub enum PacketSource {
    Raw { raw_base64: String },
    Ref { packet_ref: String },
}

#[derive(Clone, Debug, PartialEq)]
pub struct EthernetBuild {
    pub src_mac: String,
    pub dst_mac: String,
}

#[derive(Clone, Debug, PartialEq)]
pub enum NetworkBuild {
    Ipv4 {
        src: String,
        dst: String,
        ttl: u8,
        identification: u16,
        dont_fragment: bool,
    },
    Ipv6 {
        src: String,
        dst: String,
        hop_limit: u8,
    },
}

#[derive(Clone, Debug, PartialEq)]
pub enum TransportBuild {
    Tcp {
        src_port: u16,
        dst_port: u16,
        sequence: u32,
        acknowledgement: u32,
        flags: Vec<String>,
        window: u16,
    },
    Udp { src_port: u16, dst_port: u16 },
    Icmp { icmp_type: u8, code: u8 },
}

#[derive(Clone, Debug, PartialEq)]
pub enum NetworkPacketInput {
    Decode {
        source: PacketDecodeSource,
    },
    Build {
        ethernet: Option<EthernetBuild>,
        network: NetworkBuild,
        transport: TransportBuild,
        payload_base64: Option<String>,
    },
    Inject {
        interface: String,
        packet: PacketSource,
        count: u32,
        interval_ms: u64,
    },
}

#[derive(Clone, Debug, PartialEq)]
pub enum NetworkDiagnoseInput {
    Connectivity {},
    Dns {
        name: String,
        record_type: DnsRecordType,
    },
    Tcp {
        host: String,
        port: u16,
        timeout_ms: u64,
    },
    Tls {
        host: String,
        port: u16,
        server_name: Option<String>,
        timeout_ms: u64,
    },
    Route { destination_ip: String },
}

#[derive(Clone, Copy, Debug, PartialEq, Eq, Hash, Structural)]
pub enum ImageFormat {
    Heic,
    Jpeg,
    Png,
}

#[derive(Clone, Copy, Debug, PartialEq, Eq, Hash, Structural)]
pub enum InteractionTarget {
    Node,
    Coordinate,
    Focused,
}

#[derive(Clone, Debug, PartialEq)]
pub enum VisualCall {
    Observe(VisualObserveInput),
    View(VisualViewInput),
    Interact(VisualInteractInput),
}

#[derive(Clone, Debug, PartialEq)]
pub struct VisualObserveInput {
    pub include_image: bool,
    pub include_nodes: bool,
    pub max_nodes: u32,
}

#[derive(Clone, Debug, PartialEq)]
pub enum VisualSource {
    Path { path: String },
    ContentUri { content_uri: String },
    ImageRef { image_ref: String },
}

#[derive(Clone, Debug, PartialEq)]
pub struct VisualViewInput {
    pub source: VisualSource,
    pub region: Option<Region>,
}

#[derive(Clone, Debug, PartialEq)]
pub enum PointTarget {
    Node { node_ref: String },
    Coordinate {
        observation_id: UuidV4,
        x: u32,
        y: u32,
    },
}

#[derive(Clone, Debug, PartialEq)]
pub enum VisualInteractInput {
    Tap {
        target: PointTarget,
    },
    LongPress {
        target: PointTarget,
    },
    Swipe {
        observation_id: UuidV4,
        from_x: u32,
        from_y: u32,
        to_x: u32,
        to_y: u32,
        duration_ms: u64,
    },
    Text {
        text: String,
        node_ref: Option<String>,
    },
    Key {
        key_code: i32,
        meta_state: i32,
    },
}

#[derive()]
pub enum VisualInteractWire {
    Tap {
        target: PointTarget,
    },
    LongPress {
        target: PointTarget,
    },
    Swipe {
        observation_id: UuidV4,
        from_x: u32,
        from_y: u32,
        to_x: u32,
        to_y: u32,
        duration_ms: u64,
    },
    Text {
        text: String,
        node_ref: Option<String>,
    },
    Key {
        key_code: i32,
        meta_state: i32,
    },
}

#[derive(Clone, Debug, PartialEq)]
pub struct VisualViewResult {
    pub image_ref: String,
    pub width: u32,
    pub height: u32,
    pub format: ImageFormat,
}

#[derive(Clone, Debug, PartialEq)]
pub struct VisualInteractResult {
    pub delivered: True,
    pub operation: String,
    pub target: InteractionTarget,
    pub execution_class: Option<ExecutionClass>,
}

#[derive(Clone, Debug, PartialEq)]
pub enum AndroidCall {
    Package(AndroidPackageInput),
    Launch(AndroidLaunchInput),
    Intent(AndroidIntentInput),
    Clipboard(AndroidClipboardInput),
    Notification(AndroidNotificationInput),
}

#[derive(Clone, Debug, PartialEq)]
pub enum AndroidPackageInput {
    Inspect { package_name: String },
    List {
        include_system: bool,
        after_package: Option<String>,
        limit: u32,
    },
    ForceStop { package_name: String },
}

#[derive(Clone, Debug, PartialEq)]
pub enum AndroidLaunchInput {
    Package { package_name: String },
    Component {
        package_name: String,
        class_name: String,
    },
}

#[derive(Clone, Debug, PartialEq)]
pub enum IntentExtraValue {
    Boolean(bool),
    Integer(i64),
    String(String),
}

#[allow(inconsistent_fields)]
#[derive(Clone, Debug, PartialEq)]
pub enum AndroidIntentInput {
    View {
        data_uri: String,
        package_name: Option<String>,
    },
    ExplicitActivity {
        package_name: String,
        class_name: String,
        action: Option<String>,
        data_uri: Option<String>,
        extras: Option<BTreeMap<String, IntentExtraValue>>,
    },
}

#[derive(Clone, Debug, PartialEq)]
pub enum AndroidClipboardInput {
    Read {},
    Write { text: String },
    Clear {},
}

#[derive(Clone, Debug, PartialEq)]
pub enum AndroidNotificationInput {
    List {
        limit: u32,
    },
    Get { notification_ref: String },
    Dismiss { notification_ref: String },
    InvokeAction {
        notification_ref: String,
        action_index: u8,
    },
}

#[derive(Clone, Debug, PartialEq)]
pub struct PackageFact {
    pub package_name: String,
    pub version_name: Option<String>,
    pub version_code: Option<u64>,
    pub enabled: Option<bool>,
    pub system: Option<bool>,
    pub launchable: Option<bool>,
}

#[derive(Clone, Debug, PartialEq)]
pub struct LaunchResult {
    pub launched: True,
    pub package_name: String,
    pub component: Option<ComponentName>,
}

#[derive(Clone, Debug, PartialEq)]
pub enum AutomationCall {
    List(AutomationListInput),
    Get(AutomationGetInput),
    Save(AutomationSaveInput),
    SetEnabled(AutomationSetEnabledInput),
    Delete(AutomationDeleteInput),
    Run(AutomationRunInput),
}

#[derive(Clone, Copy, Debug, PartialEq, Eq)]
pub struct ActionSpec {
    pub tool: &'static str,
    pub action: &'static str,
    pub automation_compatible: bool,
    pub capability_requirement: &'static str,
}

/// The tools in the order they are listed to a caller.
pub open spec fn root_tools() -> Seq<MotherTool> {
    seq![
        MotherTool::Context,
        MotherTool::Filesystem,
        MotherTool::Command,
        MotherTool::Network,
        MotherTool::Visual,
        MotherTool::Android,
        MotherTool::Automation,
        MotherTool::TaskControl,
    ]
}

/// The tools in the order they are listed to a caller.
pub fn root_tool_order() -> (tools: Vec<MotherTool>)
    ensures
        tools@ == root_tools(),
{
    let tools = vec![
        MotherTool::Context,
        MotherTool::Filesystem,
        MotherTool::Command,
        MotherTool::Network,
        MotherTool::Visual,
        MotherTool::Android,
        MotherTool::Automation,
        MotherTool::TaskControl,
    ];
    assert(tools@ =~= root_tools());
    tools
}

/// One row of the action table.
pub open spec fn action_row(
    tool: &'static str,
    action: &'static str,
    automation_compatible: bool,
    capability_requirement: &'static str,
) -> ActionSpec {
    ActionSpec { tool, action, automation_compatible, capability_requirement }
}

/// Every public action, in catalogue order.
pub open spec fn action_table() -> Seq<ActionSpec> {
    seq![
        action_row("context", "status", false, "none"),
        action_row("context", "catalog", false, "none"),
        action_row("filesystem", "inspect", false, "dynamic"),
        action_row("filesystem", "read", false, "dynamic"),
        action_row("filesystem", "write", false, "dynamic"),
        action_row("filesystem", "manage", true, "dynamic"),
        action_row("filesystem", "download", true, "dynamic"),
        action_row("filesystem", "archive", false, "dynamic"),
        action_row("command", "run", true, "dynamic"),
        action_row("network", "inspect", false, "network.inspect"),
        action_row("network", "capture", false, "network.capture"),
        action_row("network", "packet", false, "dynamic"),
        action_row("network", "diagnose", true, "dynamic"),
        action_row("visual", "observe", false, "dynamic"),
        action_row("visual", "view", false, "visual.image"),
        action_row("visual", "interact", true, "dynamic"),
        action_row("android", "package", false, "dynamic"),
        action_row("android", "launch", true, "dynamic"),
        action_row("android", "intent", false, "dynamic"),
        action_row("android", "clipboard", true, "dynamic"),
        action_row("android", "notification", false, "android.notification_access"),
        action_row("automation", "list", false, "none"),
        action_row("automation", "get", false, "none"),
        action_row("automation", "save", false, "none"),
        action_row("automation", "set_enabled", false, "none"),
        action_row("automation", "delete", false, "none"),
        action_row("automation", "run", false, "none"),
        action_row("task_control", "list", false, "none"),
        action_row("task_control", "get", false, "none"),
        action_row("task_control", "cancel", false, "none"),
    ]
}

fn row_of(
    tool: &'static str,
    action: &'static str,
    automation_compatible: bool,
    capability_requirement: &'static str,
) -> (row: ActionSpec)
    ensures
        row == action_row(tool, action, automation_compatible, capability_requirement),
{
    ActionSpec { tool, action, automation_compatible, capability_requirement }
}

/// Every public action, in catalogue order.
pub fn action_specs() -> (rows: Vec<ActionSpec>)
    ensures
        rows@ == action_table(),
{
    let rows = vec![
        row_of("context", "status", false, "none"),
        row_of("context", "catalog", false, "none"),
        row_of("filesystem", "inspect", false, "dynamic"),
        row_of("filesystem", "read", false, "dynamic"),
        row_of("filesystem", "write", false, "dynamic"),
        row_of("filesystem", "manage", true, "dynamic"),
        row_of("filesystem", "download", true, "dynamic"),
        row_of("filesystem", "archive", false, "dynamic"),
        row_of("command", "run", true, "dynamic"),
        row_of("network", "inspect", false, "network.inspect"),
        row_of("network", "capture", false, "network.capture"),
        row_of("network", "packet", false, "dynamic"),
        row_of("network", "diagnose", true, "dynamic"),
        row_of("visual", "observe", false, "dynamic"),
        row_of("visual", "view", false, "visual.image"),
        row_of("visual", "interact", true, "dynamic"),
        row_of("android", "package", false, "dynamic"),
        row_of("android", "launch", true, "dynamic"),
        row_of("android", "intent", false, "dynamic"),
        row_of("android", "clipboard", true, "dynamic"),
        row_of("android", "notification", false, "android.notification_access"),
        row_of("automation", "list", false, "none"),
        row_of("automation", "get", false, "none"),
        row_of("automation", "save", false, "none"),
        row_of("automation", "set_enabled", false, "none"),
        row_of("automation", "delete", false, "none"),
        row_of("automation", "run", false, "none"),
        row_of("task_control", "list", false, "none"),
        row_of("task_control", "get", false, "none"),
        row_of("task_control", "cancel", false, "none"),
    ];
    assert(rows@ =~= action_table());
    rows
}

/// The actions stand in the order of their tools, and an automation may call seven of them. What
/// concerns the runtime itself needs no capability, four actions need one that is fixed, and what
/// any other needs depends on its input.
pub proof fn actions_stand_by_their_tools(rows: Vec<ActionSpec>, tools: Vec<MotherTool>)
    requires
        call_ensures(action_specs, (), rows),
        call_ensures(root_tool_order, (), tools),
    ensures
        rows@.len() == 30,
        tools@.len() == 8,
        tools@[0] is Context && tools@[1] is Filesystem && tools@[2] is Command && tools@[3] is
            Network && tools@[4] is Visual && tools@[5] is Android && tools@[6] is Automation
            && tools@[7] is TaskControl,
        forall|i: int|
            0 <= i < 30 ==> (#[trigger] rows@[i]).tool == (if i < 2 {
                "context"
            } else if i < 8 {
                "filesystem"
            } else if i < 9 {
                "command"
            } else if i < 13 {
                "network"
            } else if i < 16 {
                "visual"
            } else if i < 21 {
                "android"
            } else if i < 27 {
                "automation"
            } else {
                "task_control"
            }),
        forall|i: int|
            0 <= i < 30 ==> (#[trigger] rows@[i]).capability_requirement == (if i < 2 || i >= 21 {
                "none"
            } else if i == 9 {
                "network.inspect"
            } else if i == 10 {
                "network.capture"
            } else if i == 14 {
                "visual.image"
            } else if i == 20 {
                "android.notification_access"
            } else {
                "dynamic"
            }),
        forall|i: int|
            0 <= i < 30 ==> ((#[trigger] rows@[i]).automation_compatible <==> i == 5 || i == 6 || i
                == 8 || i == 12 || i == 15 || i == 17 || i == 19),
        rows@[5].action == "manage" && rows@[6].action == "download" && rows@[8].action == "run"
            && rows@[12].action == "diagnose" && rows@[15].action == "interact" && rows@[17].action
            == "launch" && rows@[19].action == "clipboard",
        rows@[9].action == "inspect" && rows@[10].action == "capture" && rows@[14].action == "view"
            && rows@[20].action == "notification",
{
}

} // verus!
