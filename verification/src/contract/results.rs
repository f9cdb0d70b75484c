//! The terminal and synchronous result shapes of the public actions.

use crate::contract::automation::{Automation, AutomationTaskResult};
use crate::contract::common::{
    Availability, CaptureId, ComponentName, FileTarget, TaskId, True, UuidV4,
};
use crate::contract::tools::{ArchiveEntry, CommandResult, DnsRecordType, ImageFormat, PackageFact};
use vstd::prelude::*;

verus! {

#[derive(Clone, Debug, PartialEq)]
pub struct FilesystemDownloadResult {
    pub destination: FileTarget,
    pub size: u64,
    pub sha256: String,
}

#[derive(Clone, Copy, Debug, PartialEq, Eq, Hash, Structural)]
pub enum ArchiveListOperation {
    List,
}

#[derive(Clone, Debug, PartialEq)]
pub struct FilesystemArchiveListResult {
    pub operation: ArchiveListOperation,
    pub entries: Vec<ArchiveEntry>,
    pub truncated: bool,
}

#[derive(Clone, Debug, PartialEq)]
pub enum FilesystemArchiveTaskResult {
    Extract {
        destination: FileTarget,
        entries_extracted: u64,
    },
    Create {
        destination: FileTarget,
        entries_archived: u64,
        bytes_written: u64,
        sha256: String,
    },
}

#[derive(Clone, Debug, PartialEq)]
pub enum TaskTerminalResult {
    FilesystemDownload(FilesystemDownloadResult),
    FilesystemArchive(FilesystemArchiveTaskResult),
    Command(CommandResult),
    NetworkCapture(CaptureResult),
    Automation(AutomationTaskResult),
}

#[derive(Clone, Debug, PartialEq)]
pub struct InterfaceAddress {
    pub address: String,
    pub prefix_length: Option<u8>,
}

#[derive(Clone, Debug, PartialEq)]
pub struct InterfaceEntry {
    pub name: String,
    pub index: Option<u32>,
    pub up: Option<bool>,
    pub mtu: Option<u32>,
    pub addresses: Vec<InterfaceAddress>,
}

#[derive(Clone, Debug, PartialEq)]
pub struct RouteEntry {
    pub destination: String,
    pub gateway: Option<String>,
    pub interface: Option<String>,
    pub metric: Option<u64>,
}

#[derive(Clone, Debug, PartialEq)]
pub struct DnsEntry {
    pub server: String,
}

#[derive(Clone, Copy, Debug, PartialEq, Eq, Hash, Structural)]
pub enum SocketProtocol {
    Tcp,
    Udp,
    Other,
}

#[derive(Clone, Debug, PartialEq)]
pub struct SocketEntry {
    pub protocol: SocketProtocol,
    pub local_address: String,
    pub local_port: Option<u16>,
    pub remote_address: Option<String>,
    pub remote_port: Option<u16>,
    pub state: Option<String>,
    pub uid: Option<u32>,
}

#[derive(Clone, Debug, PartialEq)]
pub struct NetworkFamilyAvailability {
    pub interfaces: Option<Availability>,
    pub routes: Option<Availability>,
    pub dns: Option<Availability>,
    pub sockets: Option<Availability>,
}

#[derive(Clone, Debug, PartialEq)]
pub struct NetworkFamilyTruncated {
    pub interfaces: Option<bool>,
    pub routes: Option<bool>,
    pub dns: Option<bool>,
    pub sockets: Option<bool>,
}

#[derive(Clone, Debug, PartialEq)]
pub struct NetworkInspectResult {
    pub interfaces: Option<Vec<InterfaceEntry>>,
    pub routes: Option<Vec<RouteEntry>>,
    pub dns: Option<Vec<DnsEntry>>,
    pub sockets: Option<Vec<SocketEntry>>,
    pub availability: NetworkFamilyAvailability,
    pub truncated: NetworkFamilyTruncated,
}

#[derive(Clone, Debug, PartialEq)]
pub struct CaptureStartResult {
    pub operation: CaptureStartOperation,
    pub capture_id: CaptureId,
    pub task_id: TaskId,
}

#[derive(Clone, Copy, Debug, PartialEq, Eq, Hash, Structural)]
pub enum CaptureStartOperation {
    Start,
}

#[derive(Clone, Debug, PartialEq)]
pub struct CaptureResult {
    pub operation: CaptureResultOperation,
    pub capture_id: CaptureId,
    pub packets_captured: u64,
    pub bytes_captured: u64,
    pub capture_ref: Option<String>,
    pub destination: Option<FileTarget>,
}

#[derive(Clone, Copy, Debug, PartialEq, Eq, Hash, Structural)]
pub enum CaptureResultOperation {
    CaptureResult,
}

#[derive(Clone, Copy, Debug, PartialEq, Eq, Hash, Structural)]
pub enum PacketProtocol {
    Ethernet,
    Ipv4,
    Ipv6,
    Tcp,
    Udp,
    Icmp,
    Other,
}

#[derive(Clone, Debug, PartialEq)]
pub struct PacketSummary {
    pub index: u64,
    pub timestamp: Option<String>,
    pub length: u64,
    pub protocol: PacketProtocol,
    pub src_mac: Option<String>,
    pub dst_mac: Option<String>,
    pub src_ip: Option<String>,
    pub dst_ip: Option<String>,
    pub src_port: Option<u16>,
    pub dst_port: Option<u16>,
    pub payload_preview_base64: Option<String>,
    pub payload_total_bytes: Option<u64>,
    pub payload_truncated: Option<bool>,
}

#[derive(Clone, Debug, PartialEq)]
pub struct CaptureReadResult {
    pub packets: Vec<PacketSummary>,
    pub next_offset_packet: Option<u64>,
    pub truncated: bool,
}

#[derive(Clone, Debug, PartialEq)]
pub struct EthernetHeader {
    pub src_mac: String,
    pub dst_mac: String,
    pub ether_type: u16,
}

#[derive(Clone, Debug, PartialEq)]
pub struct Ipv4Header {
    pub src: String,
    pub dst: String,
    pub ttl: u8,
    pub protocol: u8,
    pub identification: u16,
    pub dont_fragment: bool,
}

#[derive(Clone, Debug, PartialEq)]
pub struct Ipv6Header {
    pub src: String,
    pub dst: String,
    pub hop_limit: u8,
    pub next_header: u8,
}

#[derive(Clone, Debug, PartialEq)]
pub struct TcpHeader {
    pub src_port: u16,
    pub dst_port: u16,
    pub sequence: u32,
    pub acknowledgement: u32,
    pub flags: Vec<String>,
    pub window: u16,
}

#[derive(Clone, Debug, PartialEq)]
pub struct UdpHeader {
    pub src_port: u16,
    pub dst_port: u16,
}

#[derive(Clone, Debug, PartialEq)]
pub struct IcmpHeader {
    pub icmp_type: u8,
    pub code: u8,
}

#[derive(Clone, Debug, PartialEq)]
pub struct PacketDecodeResult {
    pub length: u64,
    pub ethernet: Option<EthernetHeader>,
    pub ipv4: Option<Ipv4Header>,
    pub ipv6: Option<Ipv6Header>,
    pub tcp: Option<TcpHeader>,
    pub udp: Option<UdpHeader>,
    pub icmp: Option<IcmpHeader>,
    pub payload_preview_base64: String,
    pub payload_total_bytes: u64,
    pub payload_truncated: bool,
}

#[derive(Clone, Debug, PartialEq)]
pub struct PacketBuildResult {
    pub packet_ref: String,
    pub length: u64,
    pub sha256: String,
}

#[derive(Clone, Debug, PartialEq)]
pub struct PacketInjectResult {
    pub requested_packets: u64,
    pub accepted_packets: u64,
    pub bytes_accepted: u64,
}

#[derive(Clone, Copy, Debug, PartialEq, Eq, Hash, Structural)]
pub enum DiagnosticOutcome {
    Success,
    NotFound,
    Refused,
    Timeout,
    Unreachable,
    DnsError,
    TlsError,
    NoRoute,
}

#[derive(Clone, Debug, PartialEq)]
pub enum NetworkDiagnoseResult {
    Connectivity {
        outcome: DiagnosticOutcome,
        duration_ms: u64,
        active_network_present: Option<bool>,
        default_route_present: Option<bool>,
        dns_configured: Option<bool>,
    },
    Dns {
        outcome: DiagnosticOutcome,
        duration_ms: u64,
        name: String,
        record_type: DnsRecordType,
        addresses: Vec<String>,
    },
    Tcp {
        outcome: DiagnosticOutcome,
        duration_ms: u64,
        host: String,
        port: u16,
        remote_ip: Option<String>,
    },
    Tls {
        outcome: DiagnosticOutcome,
        duration_ms: u64,
        host: String,
        port: u16,
        server_name: String,
        remote_ip: Option<String>,
        certificate_verified: bool,
    },
    Route {
        outcome: DiagnosticOutcome,
        duration_ms: u64,
        destination_ip: String,
        interface: Option<String>,
        gateway: Option<String>,
    },
}

#[derive(Clone, Debug, PartialEq)]
pub struct DisplayGeometry {
    pub width: u32,
    pub height: u32,
    pub rotation: u16,
    pub density_dpi: Option<u32>,
}

#[derive(Clone, Debug, PartialEq)]
pub struct ForegroundFact {
    pub package: Option<String>,
    pub activity: Option<String>,
}

#[derive(Clone, Debug, PartialEq)]
pub struct NodeBounds {
    pub left: i32,
    pub top: i32,
    pub right: i32,
    pub bottom: i32,
}

#[derive(Clone, Debug, PartialEq)]
pub struct VisualNode {
    pub node_ref: Option<String>,
    pub text: Option<String>,
    pub content_description: Option<String>,
    pub resource_id: Option<String>,
    pub class_name: Option<String>,
    pub package_name: Option<String>,
    pub bounds: NodeBounds,
    pub checkable: Option<bool>,
    pub checked: Option<bool>,
    pub clickable: Option<bool>,
    pub enabled: Option<bool>,
    pub focusable: Option<bool>,
    pub focused: Option<bool>,
    pub scrollable: Option<bool>,
    pub long_clickable: Option<bool>,
    pub password: Option<bool>,
    pub selected: Option<bool>,
    pub editable: Option<bool>,
}

/// What the caller may address in this observation before it expires. Coordinate and node targets are
/// both bound to the observed scene. As everywhere else in this result, an absent reason means the
/// capability is available.
#[derive(Clone, Debug, PartialEq)]
pub struct VisualInteractFact {
    pub coordinate: bool,
    pub node_unavailable_reason: Option<String>,
    pub ttl_ms: u64,
}

#[derive(Clone, Debug, PartialEq)]
pub struct VisualObserveResult {
    pub observation_id: UuidV4,
    pub observed_at: String,
    pub display: DisplayGeometry,
    pub interact: VisualInteractFact,
    pub foreground: Option<ForegroundFact>,
    pub image_ref: Option<String>,
    pub image_format: Option<ImageFormat>,
    pub image_unavailable_reason: Option<String>,
    pub nodes: Option<Vec<VisualNode>>,
    pub nodes_unavailable_reason: Option<String>,
    pub nodes_truncated: Option<bool>,
}

#[derive(Clone, Debug, PartialEq)]
pub enum AndroidPackageResult {
    Inspect { package: PackageFact },
    List {
        packages: Vec<PackageFact>,
        truncated: bool,
        next_after_package: Option<String>,
    },
    ForceStop {
        package_name: String,
        completed: True,
    },
}

#[derive(Clone, Copy, Debug, PartialEq, Eq, Hash, Structural)]
pub enum IntentOperation {
    View,
    ExplicitActivity,
}

#[derive(Clone, Debug, PartialEq)]
pub struct AndroidIntentResult {
    pub started: True,
    pub operation: IntentOperation,
    pub package_name: Option<String>,
    pub component: Option<ComponentName>,
}

#[derive(Clone, Debug, PartialEq)]
pub enum AndroidClipboardResult {
    Read {
        has_text: bool,
        text: Option<String>,
    },
    Write { written: True },
    Clear { cleared: True },
}

#[derive(Clone, Debug, PartialEq)]
pub struct NotificationSummary {
    pub notification_ref: String,
    pub expires_at: String,
    pub package_name: String,
    pub posted_at: Option<String>,
    pub title: Option<String>,
    pub text: Option<String>,
    pub action_count: u32,
}

#[derive(Clone, Debug, PartialEq)]
pub struct NotificationAction {
    pub index: u8,
    pub title: Option<String>,
    pub requires_remote_input: bool,
}

#[derive(Clone, Debug, PartialEq)]
pub enum AndroidNotificationResult {
    List {
        notifications: Vec<NotificationSummary>,
    },
    Get {
        notification: NotificationSummary,
        actions: Vec<NotificationAction>,
        actions_truncated: bool,
    },
    Dismiss {
        notification_ref: String,
        dismissed: True,
    },
    InvokeAction {
        notification_ref: String,
        action_index: u8,
        invoked: True,
    },
}

} // verus!
