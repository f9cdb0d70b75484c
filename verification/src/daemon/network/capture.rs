//! Captures: their bounds, the stream that they write, and packets that are sent.

use crate::bytes::{
    le16_bytes, le32_bytes, push_bytes, push_le16, push_le32, the_bytes_of_an_integer_add_up,
};
use crate::contract::common::{CaptureId, ErrorCode, FileTarget, FileTargetType};
use crate::contract::results::PacketInjectResult;
use crate::error::{pre_start, DomainError, ExecutionFailure};
use vstd::hash_map::StringHashMap;
use vstd::prelude::*;

verus! {

pub const PCAP_FILE_HEADER_BYTES: usize = 24;

pub const PCAP_RECORD_HEADER_BYTES: usize = 16;

pub const PCAP_LINKTYPE_ETHERNET: u32 = 1;

pub const PCAP_LINKTYPE_RAW: u32 = 101;

/// The longest part of a packet that is kept.
pub const PCAP_SNAPLEN: u32 = 65_535;

pub const CAPTURE_READ_SLICE_MS: i32 = 200;

/// The bounds of one capture. The bytes are those of the whole file.
#[derive(Clone, Copy, Debug, PartialEq, Eq, Structural)]
pub struct CaptureLimits {
    pub max_packets: u64,
    pub max_bytes: u64,
    pub max_duration_ms: u64,
}

/// How far a capture came: the packets, their bytes, and the bytes of the records that hold them.
#[derive(Clone, Copy, Debug, PartialEq, Eq, Structural)]
pub struct CaptureProgress {
    pub packets: u64,
    pub bytes: u64,
    pub stream_bytes: u64,
}

impl Default for CaptureProgress {
    fn default() -> (progress: Self)
        ensures
            progress == (CaptureProgress { packets: 0, bytes: 0, stream_bytes: 0 }),
    {
        CaptureProgress { packets: 0, bytes: 0, stream_bytes: 0 }
    }
}

/// A sum that stops at the largest number.
pub open spec fn saturated(sum: int) -> u64 {
    if sum <= u64::MAX {
        sum as u64
    } else {
        u64::MAX
    }
}

impl CaptureProgress {
    /// Whether one more packet of so many bytes fits: the file would hold its header, the records
    /// so far and the new one.
    pub open spec fn fits(self, limits: CaptureLimits, packet_bytes: int) -> bool {
        self.packets < limits.max_packets && saturated(
            self.stream_bytes + PCAP_FILE_HEADER_BYTES + PCAP_RECORD_HEADER_BYTES + packet_bytes,
        ) <= limits.max_bytes
    }

    pub fn admits(&self, limits: CaptureLimits, packet_bytes: usize) -> (fits: bool)
        ensures
            fits == self.fits(limits, packet_bytes as int),
    {
        self.packets < limits.max_packets && self.stream_bytes.saturating_add(
            PCAP_FILE_HEADER_BYTES as u64,
        ).saturating_add(PCAP_RECORD_HEADER_BYTES as u64).saturating_add(packet_bytes as u64)
            <= limits.max_bytes
    }

    /// The progress once a packet was written.
    pub open spec fn recorded(self, packet_bytes: int) -> CaptureProgress {
        CaptureProgress {
            packets: saturated(self.packets + 1),
            bytes: saturated(self.bytes + packet_bytes),
            stream_bytes: saturated(self.stream_bytes + PCAP_RECORD_HEADER_BYTES + packet_bytes),
        }
    }
}

/// A capture that keeps to its bounds stays within them: each packet that fits leaves the file no
/// longer, and the packets no more, than allowed.
pub proof fn a_capture_keeps_its_bounds(
    progress: CaptureProgress,
    limits: CaptureLimits,
    packet_bytes: int,
)
    requires
        0 <= packet_bytes,
        limits.max_bytes < u64::MAX,
        progress.fits(limits, packet_bytes),
    ensures
        progress.recorded(packet_bytes).packets <= limits.max_packets,
        progress.recorded(packet_bytes).packets == progress.packets + 1,
        PCAP_FILE_HEADER_BYTES + progress.recorded(packet_bytes).stream_bytes <= limits.max_bytes,
{
}

/// One running capture.
#[derive(Clone, Copy, Debug, PartialEq, Eq, Structural)]
pub struct CaptureSlot {
    pub limits: CaptureLimits,
    pub started_ms: u64,
    pub stop_requested: bool,
    pub progress: CaptureProgress,
}

impl CaptureSlot {
    pub fn new(limits: CaptureLimits, now_ms: u64) -> (slot: Self)
        ensures
            slot == (CaptureSlot {
                limits,
                started_ms: now_ms,
                stop_requested: false,
                progress: CaptureProgress { packets: 0, bytes: 0, stream_bytes: 0 },
            }),
    {
        CaptureSlot {
            limits,
            started_ms: now_ms,
            stop_requested: false,
            progress: CaptureProgress::default(),
        }
    }

    pub fn limits(&self) -> (limits: CaptureLimits)
        ensures
            limits == self.limits,
    {
        self.limits
    }

    /// How long a capture has been running.
    pub open spec fn elapsed(self, now_ms: u64) -> u64 {
        if now_ms > self.started_ms {
            (now_ms - self.started_ms) as u64
        } else {
            0
        }
    }

    pub fn elapsed_ms(&self, now_ms: u64) -> (elapsed: u64)
        ensures
            elapsed == self.elapsed(now_ms),
    {
        now_ms.saturating_sub(self.started_ms)
    }

    pub fn progress(&self) -> (progress: CaptureProgress)
        ensures
            progress == self.progress,
    {
        self.progress
    }

    pub fn stop_requested(&self) -> (requested: bool)
        ensures
            requested == self.stop_requested,
    {
        self.stop_requested
    }

    /// Asks the capture to settle with what it has.
    pub fn request_stop(&mut self)
        ensures
            *final(self) == (CaptureSlot { stop_requested: true, ..*old(self) }),
    {
        self.stop_requested = true;
    }

    /// Notes a packet that was written.
    pub fn record(&mut self, packet_bytes: usize)
        ensures
            *final(self) == (CaptureSlot {
                progress: old(self).progress.recorded(packet_bytes as int),
                ..*old(self)
            }),
    {
        self.progress = CaptureProgress {
            packets: self.progress.packets.saturating_add(1),
            bytes: self.progress.bytes.saturating_add(packet_bytes as u64),
            stream_bytes: self.progress.stream_bytes.saturating_add(
                PCAP_RECORD_HEADER_BYTES as u64,
            ).saturating_add(packet_bytes as u64),
        };
    }

    /// Whether a capture settles before it reads on: it was asked to, its time is over, or not even
    /// an empty packet fits.
    pub open spec fn settles(self, now_ms: u64) -> bool {
        self.stop_requested || self.elapsed(now_ms) >= self.limits.max_duration_ms
            || !self.progress.fits(self.limits, 0)
    }
}

/// The running captures, each under its own identity.
pub struct CaptureRegistry {
    running: StringHashMap<CaptureSlot>,
}

impl Default for CaptureRegistry {
    fn default() -> (registry: Self)
        ensures
            registry@ == Map::<Seq<char>, CaptureSlot>::empty(),
    {
        CaptureRegistry { running: StringHashMap::new() }
    }
}

impl View for CaptureRegistry {
    type V = Map<Seq<char>, CaptureSlot>;

    closed spec fn view(&self) -> Map<Seq<char>, CaptureSlot> {
        self.running@
    }
}

impl CaptureRegistry {
    /// Starts a capture. One identity never names two of them.
    pub fn register(&mut self, capture_id: &CaptureId, limits: CaptureLimits, now_ms: u64) -> (slot:
        Result<CaptureSlot, DomainError>)
        ensures
            if old(self)@.contains_key(capture_id@) {
                &&& slot == Err::<CaptureSlot, _>(
                    DomainError {
                        code: ErrorCode::CaptureFailed,
                        reason: "capture identity already owns a running capture",
                    },
                )
                &&& final(self)@ == old(self)@
            } else {
                &&& slot == Ok::<_, DomainError>(
                    CaptureSlot {
                        limits,
                        started_ms: now_ms,
                        stop_requested: false,
                        progress: CaptureProgress { packets: 0, bytes: 0, stream_bytes: 0 },
                    },
                )
                &&& final(self)@ == old(self)@.insert(capture_id@, slot->Ok_0)
            },
    {
        if self.running.contains_key(capture_id.as_str()) {
            return Err(
                DomainError::new(
                    ErrorCode::CaptureFailed,
                    "capture identity already owns a running capture",
                ),
            );
        }
        let slot = CaptureSlot::new(limits, now_ms);
        self.running.insert(capture_id.as_str().to_owned(), slot);
        Ok(slot)
    }

    /// The capture that an identity names.
    pub fn running(&self, capture_id: &CaptureId) -> (slot: Result<CaptureSlot, DomainError>)
        ensures
            slot == (if self@.contains_key(capture_id@) {
                Ok(self@[capture_id@])
            } else {
                Err(
                    DomainError {
                        code: ErrorCode::NotFound,
                        reason: "capture identity does not name a running capture",
                    },
                )
            }),
    {
        match self.running.get(capture_id.as_str()) {
            Some(slot) => Ok(*slot),
            None => Err(
                DomainError::new(
                    ErrorCode::NotFound,
                    "capture identity does not name a running capture",
                ),
            ),
        }
    }

    /// Asks the capture that an identity names to settle.
    pub fn request_stop(&mut self, capture_id: &CaptureId) -> (requested: Result<
        (),
        ExecutionFailure,
    >)
        ensures
            if old(self)@.contains_key(capture_id@) {
                requested is Ok && final(self)@ == old(self)@.insert(
                    capture_id@,
                    CaptureSlot { stop_requested: true, ..old(self)@[capture_id@] },
                )
            } else {
                requested == Err::<(), _>(
                    ExecutionFailure {
                        error: DomainError {
                            code: ErrorCode::NotFound,
                            reason: "capture identity does not name a running capture",
                        },
                        cleanup_verified: true,
                    },
                ) && final(self)@ == old(self)@
            },
    {
        match self.running(capture_id) {
            Ok(slot) => {
                let mut slot = slot;
                slot.request_stop();
                self.running.insert(capture_id.as_str().to_owned(), slot);
                Ok(())
            },
            Err(error) => Err(pre_start(error)),
        }
    }

    /// Notes a packet that the capture of an identity wrote.
    pub fn record(&mut self, capture_id: &CaptureId, packet_bytes: usize)
        ensures
            final(self)@ == (if old(self)@.contains_key(capture_id@) {
                old(self)@.insert(
                    capture_id@,
                    CaptureSlot {
                        progress: old(self)@[capture_id@].progress.recorded(packet_bytes as int),
                        ..old(self)@[capture_id@]
                    },
                )
            } else {
                old(self)@
            }),
    {
        match self.running(capture_id) {
            Ok(slot) => {
                let mut slot = slot;
                slot.record(packet_bytes);
                self.running.insert(capture_id.as_str().to_owned(), slot);
            },
            Err(_) => {},
        }
    }

    /// Forgets the capture of an identity.
    pub fn retire(&mut self, capture_id: &CaptureId)
        ensures
            final(self)@ == old(self)@.remove(capture_id@),
    {
        self.running.remove(capture_id.as_str());
    }
}

/// A capture that was started and retired leaves the others as they were.
pub proof fn a_retired_capture_leaves_no_trace(
    running: Map<Seq<char>, CaptureSlot>,
    id: Seq<char>,
    slot: CaptureSlot,
)
    requires
        !running.contains_key(id),
    ensures
        running.insert(id, slot).remove(id) == running,
{
    assert(running.insert(id, slot).remove(id) =~= running);
}

// ---------------------------------------------------------------------------------------
// The stream.
// ---------------------------------------------------------------------------------------

/// The header of a capture file: the mark of the format with microseconds, its version, no time
/// zone, the longest packet that is kept, and the link type.
pub open spec fn file_header(snaplen: u32, link_type: u32) -> Seq<u8> {
    le32_bytes(0xa1b2_c3d4) + le16_bytes(2) + le16_bytes(4) + le32_bytes(0) + le32_bytes(0)
        + le32_bytes(snaplen) + le32_bytes(link_type)
}

/// The header of a record: when the packet came, how much of it is kept and how long it was.
pub open spec fn record_header(
    seconds: u32,
    microseconds: u32,
    captured: u32,
    original: u32,
) -> Seq<u8> {
    le32_bytes(seconds) + le32_bytes(microseconds) + le32_bytes(captured) + le32_bytes(original)
}

/// One classic capture file, in little-endian order and with microseconds.
#[derive(Debug)]
pub struct PcapStream {
    pub bytes: Vec<u8>,
    pub records: u64,
    pub snaplen: u32,
}

/// As much of a packet as is kept.
pub open spec fn kept(packet: Seq<u8>, snaplen: u32) -> Seq<u8> {
    if packet.len() <= snaplen {
        packet
    } else {
        packet.take(snaplen as int)
    }
}

impl PcapStream {
    pub fn new(snaplen: u32, link_type: u32) -> (stream: Self)
        ensures
            stream.bytes@ == file_header(snaplen, link_type),
            stream.bytes@.len() == PCAP_FILE_HEADER_BYTES,
            stream.records == 0,
            stream.snaplen == snaplen,
    {
        let mut bytes: Vec<u8> = Vec::new();
        push_le32(&mut bytes, 0xa1b2_c3d4);
        push_le16(&mut bytes, 2);
        push_le16(&mut bytes, 4);
        push_le32(&mut bytes, 0);
        push_le32(&mut bytes, 0);
        push_le32(&mut bytes, snaplen);
        push_le32(&mut bytes, link_type);
        assert(bytes@ =~= file_header(snaplen, link_type));
        PcapStream { bytes, records: 0, snaplen }
    }

    /// Writes one packet.
    pub fn push(&mut self, seconds: u32, microseconds: u32, original_len: u32, packet: &[u8])
        requires
            old(self).records < u64::MAX,
        ensures
            final(self).bytes@ == old(self).bytes@ + record_header(
                seconds,
                microseconds,
                kept(packet@, old(self).snaplen).len() as u32,
                original_len,
            ) + kept(packet@, old(self).snaplen),
            final(self).bytes@.len() == old(self).bytes@.len() + PCAP_RECORD_HEADER_BYTES + kept(
                packet@,
                old(self).snaplen,
            ).len(),
            final(self).records == old(self).records + 1,
            final(self).snaplen == old(self).snaplen,
    {
        let ghost before = self.bytes@;
        let length: usize = if packet.len() as u64 <= self.snaplen as u64 {
            packet.len()
        } else {
            self.snaplen as usize
        };
        let captured = vstd::slice::slice_subrange(packet, 0, length);
        assert(captured@ =~= kept(packet@, self.snaplen));
        push_le32(&mut self.bytes, seconds);
        push_le32(&mut self.bytes, microseconds);
        push_le32(&mut self.bytes, length as u32);
        push_le32(&mut self.bytes, original_len);
        push_bytes(&mut self.bytes, captured);
        assert(self.bytes@ =~= before + record_header(
            seconds,
            microseconds,
            length as u32,
            original_len,
        ) + captured@);
        self.records = self.records + 1;
    }
}

// ---------------------------------------------------------------------------------------
// Reading a device.
// ---------------------------------------------------------------------------------------

/// What a device gave.
#[derive(Debug)]
pub enum CaptureStep {
    Packet { seconds: u32, microseconds: u32, original_len: u32, bytes: Vec<u8> },
    Timeout,
    End,
    Failed,
}

/// What came of making a device ready: its link type, or that no capture file can name it.
#[derive(Clone, Copy, Debug, PartialEq, Eq, Structural)]
pub enum CaptureActivation {
    Active(u32),
    NoPcapLinkType,
}

/// What a capture does next.
#[derive(Clone, Copy, Debug, PartialEq, Eq)]
pub enum CaptureNext {
    /// Read the device.
    Read,
    /// The capture is over; what it has is published.
    Settle,
    /// The capture was cancelled; nothing is published.
    Cancelled,
    Failed(ExecutionFailure),
}

pub open spec fn device_error(reason: &'static str) -> ExecutionFailure {
    ExecutionFailure {
        error: DomainError { code: ErrorCode::CaptureFailed, reason },
        cleanup_verified: true,
    }
}

/// The failure of a device.
pub fn device_failure(reason: &'static str) -> (failure: ExecutionFailure)
    ensures
        failure == device_error(reason),
{
    ExecutionFailure {
        error: DomainError::new(ErrorCode::CaptureFailed, reason),
        cleanup_verified: true,
    }
}

/// One capture that reads a device.
#[derive(Debug)]
pub struct CaptureRun {
    pub slot: CaptureSlot,
    pub stream: PcapStream,
}

impl CaptureRun {
    /// Whether the records that were written are those that were noted.
    pub open spec fn wf(self) -> bool {
        self.stream.records == self.slot.progress.packets && self.slot.progress.packets
            <= self.slot.limits.max_packets
    }

    pub fn new(slot: CaptureSlot, snaplen: u32, link_type: u32) -> (run: Self)
        requires
            slot.progress.packets == 0,
        ensures
            run.wf(),
            run.slot == slot,
            run.stream.bytes@ == file_header(snaplen, link_type),
            run.stream.snaplen == snaplen,
    {
        CaptureRun { slot, stream: PcapStream::new(snaplen, link_type) }
    }

    /// What to do before the device is read. A cancellation comes before anything else.
    pub fn before_read(&self, cancelled: bool, now_ms: u64) -> (next: CaptureNext)
        ensures
            next == (if cancelled {
                CaptureNext::Cancelled
            } else if self.slot.settles(now_ms) {
                CaptureNext::Settle
            } else {
                CaptureNext::Read
            }),
    {
        if cancelled {
            return CaptureNext::Cancelled;
        }
        if self.slot.stop_requested() || self.slot.elapsed_ms(now_ms)
            >= self.slot.limits.max_duration_ms || !self.slot.progress.admits(self.slot.limits, 0) {
            return CaptureNext::Settle;
        }
        CaptureNext::Read
    }

    /// Takes in what the device gave. A packet that does not fit ends the capture and is not
    /// written.
    pub fn take_step(&mut self, step: CaptureStep) -> (next: CaptureNext)
        requires
            old(self).wf(),
        ensures
            final(self).wf(),
            match step {
                CaptureStep::Packet { seconds, microseconds, original_len, bytes } => if old(self).slot.progress.fits(old(self).slot.limits, bytes@.len() as int) {
                    &&& next is Read
                    &&& final(self).slot == CaptureSlot {
                        progress: old(self).slot.progress.recorded(bytes@.len() as int),
                        ..old(self).slot
                    }
                    &&& final(self).stream.bytes@ == old(self).stream.bytes@ + record_header(
                        seconds,
                        microseconds,
                        kept(bytes@, old(self).stream.snaplen).len() as u32,
                        original_len,
                    ) + kept(bytes@, old(self).stream.snaplen)
                    &&& final(self).stream.snaplen == old(self).stream.snaplen
                } else {
                    next is Settle && *final(self) == *old(self)
                },
                CaptureStep::Timeout => next is Read && *final(self) == *old(self),
                CaptureStep::End => next is Settle && *final(self) == *old(self),
                CaptureStep::Failed => next == CaptureNext::Failed(
                    device_error("capture device failed to read a packet"),
                ) && *final(self) == *old(self),
            },
    {
        match step {
            CaptureStep::Packet { seconds, microseconds, original_len, bytes } => {
                if !self.slot.progress.admits(self.slot.limits, bytes.len()) {
                    return CaptureNext::Settle;
                }
                self.stream.push(seconds, microseconds, original_len, bytes.as_slice());
                self.slot.record(bytes.len());
                CaptureNext::Read
            },
            CaptureStep::Timeout => CaptureNext::Read,
            CaptureStep::End => CaptureNext::Settle,
            CaptureStep::Failed => CaptureNext::Failed(
                device_failure("capture device failed to read a packet"),
            ),
        }
    }
}

/// What making a device ready leads to: its link type, or why it cannot be used. The cleanup that
/// is known of the execution goes with a device that was made ready.
pub fn capture_activation(
    activation: Option<CaptureActivation>,
    cleanup_verified: bool,
) -> (link_type: Result<u32, ExecutionFailure>)
    ensures
        link_type == (match activation {
            Some(CaptureActivation::Active(link_type)) => Ok(link_type),
            Some(CaptureActivation::NoPcapLinkType) => Err(
                ExecutionFailure {
                    error: DomainError {
                        code: ErrorCode::Unsupported,
                        reason: "capture interface link type has no classic-PCAP representation",
                    },
                    cleanup_verified,
                },
            ),
            None => Err(device_error("capture device cannot be activated")),
        }),
{
    match activation {
        Some(CaptureActivation::Active(link_type)) => Ok(link_type),
        Some(CaptureActivation::NoPcapLinkType) => Err(
            ExecutionFailure {
                error: DomainError::new(
                    ErrorCode::Unsupported,
                    "capture interface link type has no classic-PCAP representation",
                ),
                cleanup_verified,
            },
        ),
        None => Err(device_failure("capture device cannot be activated")),
    }
}

/// What making a device ready leads to when packets are to be sent: only on Ethernet do they fit.
pub fn inject_activation(activation: Option<CaptureActivation>, cleanup_verified: bool) -> (ready:
    Result<(), ExecutionFailure>)
    ensures
        ready == (match activation {
            None => Err(device_error("capture device cannot be activated")),
            Some(activation) => if activation == CaptureActivation::Active(PCAP_LINKTYPE_ETHERNET) {
                Ok(())
            } else {
                Err(
                    ExecutionFailure {
                        error: DomainError {
                            code: ErrorCode::Unsupported,
                            reason: "packet injection requires an Ethernet interface",
                        },
                        cleanup_verified,
                    },
                )
            },
        }),
{
    match activation {
        None => Err(device_failure("capture device cannot be activated")),
        Some(activation) => {
            if activation == CaptureActivation::Active(PCAP_LINKTYPE_ETHERNET) {
                return Ok(());
            }
            Err(
                ExecutionFailure {
                    error: DomainError::new(
                        ErrorCode::Unsupported,
                        "packet injection requires an Ethernet interface",
                    ),
                    cleanup_verified,
                },
            )
        },
    }
}

/// The outcome of using a device, once it was closed: a failure tells the cleanup as it then is.
pub fn after_close<T>(outcome: Result<T, ExecutionFailure>, cleanup_verified: bool) -> (settled:
    Result<T, ExecutionFailure>)
    ensures
        settled == (match outcome {
            Ok(value) => Ok(value),
            Err(failure) => Err(ExecutionFailure { error: failure.error, cleanup_verified }),
        }),
{
    match outcome {
        Ok(value) => Ok(value),
        Err(failure) => Err(ExecutionFailure { error: failure.error, cleanup_verified }),
    }
}

/// What a capture settles with.
#[derive(Clone, Copy, Debug, PartialEq, Eq, Structural)]
pub struct CaptureSummary {
    pub cancelled: bool,
    pub packets_captured: u64,
    pub bytes_captured: u64,
    pub publishes: bool,
}

/// What a capture settles with. One that was cancelled publishes nothing; any other publishes its
/// stream, with or without packets.
pub fn capture_summary(cancelled: bool, progress: CaptureProgress) -> (summary: CaptureSummary)
    ensures
        summary == (CaptureSummary {
            cancelled,
            packets_captured: progress.packets,
            bytes_captured: progress.bytes,
            publishes: !cancelled,
        }),
{
    CaptureSummary {
        cancelled,
        packets_captured: progress.packets,
        bytes_captured: progress.bytes,
        publishes: !cancelled,
    }
}

/// The link types that a device reports and a capture file can name.
pub const DLT_EN10MB: i32 = 1;

pub const DLT_RAW: i32 = 12;

/// What making a device ready comes to, by the link type that it reports. One that a capture file
/// cannot name is an outcome of its own and no fault of the device.
pub fn activated(datalink: i32) -> (activation: CaptureActivation)
    ensures
        activation == (if datalink == DLT_EN10MB {
            CaptureActivation::Active(PCAP_LINKTYPE_ETHERNET)
        } else if datalink == DLT_RAW {
            CaptureActivation::Active(PCAP_LINKTYPE_RAW)
        } else {
            CaptureActivation::NoPcapLinkType
        }),
{
    if datalink == DLT_EN10MB {
        CaptureActivation::Active(PCAP_LINKTYPE_ETHERNET)
    } else if datalink == DLT_RAW {
        CaptureActivation::Active(PCAP_LINKTYPE_RAW)
    } else {
        CaptureActivation::NoPcapLinkType
    }
}

/// The time of a packet as a record can hold it: seconds that do not fit are the most that do, and
/// microseconds that do not fit are none.
pub fn record_time(seconds: i64, microseconds: i64) -> (time: (u32, u32))
    ensures
        time.0 == (if 0 <= seconds <= u32::MAX {
            seconds as u32
        } else {
            u32::MAX
        }),
        time.1 == (if 0 <= microseconds <= u32::MAX {
            microseconds as u32
        } else {
            0
        }),
{
    let whole: u32 = if 0 <= seconds && seconds <= u32::MAX as i64 {
        seconds as u32
    } else {
        u32::MAX
    };
    let rest: u32 = if 0 <= microseconds && microseconds <= u32::MAX as i64 {
        microseconds as u32
    } else {
        0
    };
    (whole, rest)
}

// ---------------------------------------------------------------------------------------
// Sending packets.
// ---------------------------------------------------------------------------------------

/// Packets that are being sent, one repetition after the other.
#[derive(Clone, Copy, Debug, PartialEq, Eq, Structural)]
pub struct Injection {
    pub count: u32,
    pub interval_ms: u64,
    pub accepted: u64,
    pub bytes_accepted: u64,
}

/// What an injection does next.
#[derive(Debug, PartialEq)]
pub enum InjectNext {
    /// Wait so long, then send once.
    Send(u64),
    Done(PacketInjectResult),
    Failed(ExecutionFailure),
}

impl Injection {
    pub open spec fn wf(self) -> bool {
        self.accepted <= self.count
    }

    pub fn new(count: u32, interval_ms: u64) -> (injection: Self)
        ensures
            injection.wf(),
            injection == (Injection { count, interval_ms, accepted: 0, bytes_accepted: 0 }),
    {
        Injection { count, interval_ms, accepted: 0, bytes_accepted: 0 }
    }

    /// What to do next. Nothing is waited for before the first packet.
    pub fn proceed(&self, cancelled: bool, cleanup_verified: bool) -> (next: InjectNext)
        requires
            self.wf(),
        ensures
            next == (if self.accepted == self.count {
                InjectNext::Done(
                    PacketInjectResult {
                        requested_packets: self.count as u64,
                        accepted_packets: self.accepted,
                        bytes_accepted: self.bytes_accepted,
                    },
                )
            } else if cancelled {
                InjectNext::Failed(
                    ExecutionFailure {
                        error: DomainError {
                            code: ErrorCode::Cancelled,
                            reason: "execution was cancelled",
                        },
                        cleanup_verified,
                    },
                )
            } else if self.accepted > 0 {
                InjectNext::Send(self.interval_ms)
            } else {
                InjectNext::Send(0)
            }),
    {
        if self.accepted == self.count as u64 {
            return InjectNext::Done(
                PacketInjectResult {
                    requested_packets: self.count as u64,
                    accepted_packets: self.accepted,
                    bytes_accepted: self.bytes_accepted,
                },
            );
        }
        if cancelled {
            return InjectNext::Failed(
                ExecutionFailure {
                    error: DomainError::new(ErrorCode::Cancelled, "execution was cancelled"),
                    cleanup_verified,
                },
            );
        }
        if self.accepted > 0 {
            InjectNext::Send(self.interval_ms)
        } else {
            InjectNext::Send(0)
        }
    }

    /// Takes in that a packet was sent, or was not.
    pub fn sent(&mut self, written: Option<usize>) -> (taken: Result<(), ExecutionFailure>)
        requires
            old(self).wf(),
            old(self).accepted < old(self).count,
        ensures
            final(self).wf(),
            match written {
                Some(written) => {
                    &&& taken is Ok
                    &&& *final(self) == Injection {
                        accepted: (old(self).accepted + 1) as u64,
                        bytes_accepted: saturated(old(self).bytes_accepted + written),
                        ..*old(self)
                    }
                },
                None => taken == Err::<(), _>(device_error("capture device cannot send a packet"))
                    && *final(self) == *old(self),
            },
    {
        match written {
            Some(written) => {
                self.accepted = self.accepted + 1;
                self.bytes_accepted = self.bytes_accepted.saturating_add(written as u64);
                Ok(())
            },
            None => Err(device_failure("capture device cannot send a packet")),
        }
    }
}

// ---------------------------------------------------------------------------------------
// Files.
// ---------------------------------------------------------------------------------------

/// Refuses a capture file that is not named by a path.
pub fn check_capture_file(target: &FileTarget) -> (checked: Result<(), ExecutionFailure>)
    ensures
        checked == (if target.target_type is Path {
            Ok(())
        } else {
            Err(
                ExecutionFailure {
                    error: DomainError {
                        code: ErrorCode::CapabilityUnavailable,
                        reason: "the daemon has no content-resolver capability for a capture file",
                    },
                    cleanup_verified: true,
                },
            )
        }),
{
    if target.target_type != FileTargetType::Path {
        return Err(
            pre_start(
                DomainError::new(
                    ErrorCode::CapabilityUnavailable,
                    "the daemon has no content-resolver capability for a capture file",
                ),
            ),
        );
    }
    Ok(())
}

/// Refuses a capture file that is longer than a capture can be.
pub fn check_capture_length(length: u64, max_bytes: u64) -> (checked: Result<(), ExecutionFailure>)
    ensures
        checked == (if length <= max_bytes {
            Ok(())
        } else {
            Err(
                ExecutionFailure {
                    error: DomainError {
                        code: ErrorCode::ResourceLimit,
                        reason: "capture file exceeds the capture-artifact bound",
                    },
                    cleanup_verified: true,
                },
            )
        }),
{
    if length > max_bytes {
        return Err(
            pre_start(
                DomainError::new(
                    ErrorCode::ResourceLimit,
                    "capture file exceeds the capture-artifact bound",
                ),
            ),
        );
    }
    Ok(())
}

/// Refuses a destination that is not named by a path, has no directory, or whose directory is not
/// there.
pub fn check_capture_destination(target: &FileTarget, has_directory: bool, is_directory: bool) -> (
    checked: Result<(), DomainError>)
    ensures
        checked == (if !(target.target_type is Path) {
            Err(
                DomainError {
                    code: ErrorCode::InvalidArgument,
                    reason: "network.capture persist_to requires a path target",
                },
            )
        } else if !has_directory {
            Err(
                DomainError {
                    code: ErrorCode::InvalidArgument,
                    reason: "network.capture persist_to has no directory",
                },
            )
        } else if !is_directory {
            Err(
                DomainError {
                    code: ErrorCode::IoError,
                    reason: "capture destination directory does not exist",
                },
            )
        } else {
            Ok(())
        }),
{
    if target.target_type != FileTargetType::Path {
        return Err(DomainError::invalid("network.capture persist_to requires a path target"));
    }
    if !has_directory {
        return Err(DomainError::invalid("network.capture persist_to has no directory"));
    }
    if !is_directory {
        return Err(
            DomainError::new(ErrorCode::IoError, "capture destination directory does not exist"),
        );
    }
    Ok(())
}

/// The name a capture is written under before it is moved to its place.
pub fn temporary_capture_name(capture_id: &CaptureId) -> (name: String)
    ensures
        name@ == "."@ + capture_id@ + ".pcap.tmp"@,
{
    let mut name = ".".to_owned();
    name.append(capture_id.as_str());
    name.append(".pcap.tmp");
    name
}

// ---------------------------------------------------------------------------------------
// Laws.
// ---------------------------------------------------------------------------------------

/// The integer of four bytes, the least significant one first.
pub open spec fn four_bytes(bytes: Seq<u8>, at: int) -> int {
    bytes[at] + 256 * (bytes[at + 1] + 256 * (bytes[at + 2] + 256 * bytes[at + 3]))
}

/// A capture file begins with the mark of the format, least significant byte first, its version
/// 2.4, eight zero bytes, the longest packet that is kept, and the link type.
pub proof fn a_capture_file_begins_as_one(snaplen: u32, link_type: u32, stream: PcapStream)
    requires
        call_ensures(PcapStream::new, (snaplen, link_type), stream),
    ensures
        stream.bytes@.len() == 24,
        stream.bytes@[0] == 0xd4 && stream.bytes@[1] == 0xc3 && stream.bytes@[2] == 0xb2
            && stream.bytes@[3] == 0xa1,
        stream.bytes@[4] == 2 && stream.bytes@[5] == 0,
        stream.bytes@[6] == 4 && stream.bytes@[7] == 0,
        four_bytes(stream.bytes@, 8) == 0 && four_bytes(stream.bytes@, 12) == 0,
        four_bytes(stream.bytes@, 16) == snaplen,
        four_bytes(stream.bytes@, 20) == link_type,
        stream.records == 0,
        stream.snaplen == snaplen,
{
}

/// A packet is written behind what is there already: its time, how much of it is kept, how long it
/// was, and its bytes from the first on, no more of them than are kept.
pub proof fn a_packet_is_written_as_it_came(
    seconds: u32,
    microseconds: u32,
    original_len: u32,
    packet: &[u8],
)
    ensures
        forall|stream: &mut PcapStream, done: ()| #[trigger]
            call_ensures(
                PcapStream::push,
                (stream, seconds, microseconds, original_len, packet),
                done,
            ) ==> {
                let n = stream.bytes@.len() as int;
                let written = final(stream).bytes@;
                let captured = if packet@.len() <= stream.snaplen {
                    packet@.len() as int
                } else {
                    stream.snaplen as int
                };
                &&& written.len() == n + 16 + captured
                &&& written.take(n) == stream.bytes@
                &&& four_bytes(written, n) == seconds
                &&& four_bytes(written, n + 4) == microseconds
                &&& four_bytes(written, n + 8) == captured
                &&& four_bytes(written, n + 12) == original_len
                &&& written.skip(n + 16) == packet@.take(captured)
                &&& final(stream).records == stream.records + 1
                &&& final(stream).snaplen == stream.snaplen
            },
{
    assert forall|stream: &mut PcapStream, done: ()| #[trigger]
        call_ensures(
            PcapStream::push,
            (stream, seconds, microseconds, original_len, packet),
            done,
        ) implies {
        let n = stream.bytes@.len() as int;
        let written = final(stream).bytes@;
        let captured = if packet@.len() <= stream.snaplen {
            packet@.len() as int
        } else {
            stream.snaplen as int
        };
        &&& written.len() == n + 16 + captured
        &&& written.take(n) == stream.bytes@
        &&& four_bytes(written, n) == seconds
        &&& four_bytes(written, n + 4) == microseconds
        &&& four_bytes(written, n + 8) == captured
        &&& four_bytes(written, n + 12) == original_len
        &&& written.skip(n + 16) == packet@.take(captured)
        &&& final(stream).records == stream.records + 1
        &&& final(stream).snaplen == stream.snaplen
    } by {
        let n = stream.bytes@.len() as int;
        let written = final(stream).bytes@;
        let kept_bytes = kept(packet@, stream.snaplen);
        let header = record_header(
            seconds,
            microseconds,
            kept_bytes.len() as u32,
            original_len,
        );
        the_bytes_of_an_integer_add_up(0, seconds);
        the_bytes_of_an_integer_add_up(0, microseconds);
        the_bytes_of_an_integer_add_up(0, kept_bytes.len() as u32);
        the_bytes_of_an_integer_add_up(0, original_len);
        assert(written.subrange(n, n + 16) =~= header);
        assert forall|i: int| 0 <= i < 16 implies written[n + i] == #[trigger] header[i] by {
            assert(written.subrange(n, n + 16)[i] == written[n + i]);
        }
        lemma_four_bytes(written, n, header);
        assert(written.take(n) =~= stream.bytes@);
        assert(written.skip(n + 16) =~= packet@.take(kept_bytes.len() as int));
    }
}

proof fn lemma_four_bytes(written: Seq<u8>, n: int, header: Seq<u8>)
    requires
        forall|i: int| 0 <= i < 16 ==> written[n + i] == #[trigger] header[i],
    ensures
        four_bytes(written, n) == four_bytes(header, 0),
        four_bytes(written, n + 4) == four_bytes(header, 4),
        four_bytes(written, n + 8) == four_bytes(header, 8),
        four_bytes(written, n + 12) == four_bytes(header, 12),
{
    assert(written[n + 0] == header[0] && written[n + 1] == header[1] && written[n + 2] == header[2]
        && written[n + 3] == header[3]);
    assert(written[n + 4] == header[4] && written[n + 5] == header[5] && written[n + 6] == header[6]
        && written[n + 7] == header[7]);
    assert(written[n + 8] == header[8] && written[n + 9] == header[9] && written[n + 10]
        == header[10] && written[n + 11] == header[11]);
    assert(written[n + 12] == header[12] && written[n + 13] == header[13] && written[n + 14]
        == header[14] && written[n + 15] == header[15]);
}

/// One more packet fits exactly if fewer packets than allowed were taken, and the file, with the 24
/// bytes of its header and 16 of each record, stays within its bound.
pub proof fn a_packet_fits_if_the_file_stays_short(
    progress: CaptureProgress,
    limits: CaptureLimits,
    packet_bytes: usize,
    fits: bool,
)
    requires
        call_ensures(CaptureProgress::admits, (&progress, limits, packet_bytes), fits),
        limits.max_bytes < u64::MAX,
    ensures
        fits <==> progress.packets < limits.max_packets && progress.stream_bytes + 40
            + packet_bytes <= limits.max_bytes,
{
}

/// Each packet that was written counts once, its bytes count as they are, and its record takes 16
/// bytes more. The limits, the start and a request to stop stay as they were.
pub proof fn a_packet_counts_once(packet_bytes: usize)
    ensures
        forall|slot: &mut CaptureSlot, done: ()| #[trigger]
            call_ensures(CaptureSlot::record, (slot, packet_bytes), done)
                && slot.progress.packets < u64::MAX && slot.progress.bytes + packet_bytes
                <= u64::MAX && slot.progress.stream_bytes + 16 + packet_bytes <= u64::MAX ==> {
                &&& final(slot).progress.packets == slot.progress.packets + 1
                &&& final(slot).progress.bytes == slot.progress.bytes + packet_bytes
                &&& final(slot).progress.stream_bytes == slot.progress.stream_bytes + 16
                    + packet_bytes
                &&& final(slot).limits == slot.limits
                &&& final(slot).started_ms == slot.started_ms
                &&& final(slot).stop_requested == slot.stop_requested
            },
{
}

/// A capture reads on exactly as long as nobody cancels or stops it, its time is not over, and a
/// packet could still fit; a cancellation publishes nothing, whatever else holds.
pub proof fn a_capture_reads_until_it_has_to_end(
    run: CaptureRun,
    cancelled: bool,
    now_ms: u64,
    next: CaptureNext,
)
    requires
        call_ensures(CaptureRun::before_read, (&run, cancelled, now_ms), next),
        run.slot.limits.max_bytes < u64::MAX,
    ensures
        cancelled <==> next is Cancelled,
        next !is Failed,
        !cancelled ==> (next is Read <==> {
            &&& !run.slot.stop_requested
            &&& run.slot.limits.max_duration_ms > 0
            &&& now_ms < run.slot.started_ms + run.slot.limits.max_duration_ms
            &&& run.slot.progress.packets < run.slot.limits.max_packets
            &&& run.slot.progress.stream_bytes + 40 <= run.slot.limits.max_bytes
        }),
{
}

/// A packet is written and counted if it fits, and otherwise ends the capture without a trace; the
/// end of the device ends the capture with what it has, and a failure fails it.
pub proof fn a_step_is_taken_for_what_it_is(step: CaptureStep)
    ensures
        forall|run: &mut CaptureRun, next: CaptureNext| #[trigger]
            call_ensures(CaptureRun::take_step, (run, step), next) && run.wf()
                && run.slot.limits.max_bytes < u64::MAX ==> {
                &&& step is Timeout ==> next is Read && *final(run) == *run
                &&& step is End ==> next is Settle && *final(run) == *run
                &&& step is Failed ==> next is Failed && *final(run) == *run
                &&& step is Packet ==> {
                    let bytes = step->bytes@;
                    let fits = run.slot.progress.packets < run.slot.limits.max_packets
                        && run.slot.progress.stream_bytes + 40 + bytes.len()
                        <= run.slot.limits.max_bytes;
                    &&& !fits ==> next is Settle && *final(run) == *run
                    &&& fits ==> next is Read && final(run).slot.progress.packets
                        == run.slot.progress.packets + 1 && final(run).slot.progress.stream_bytes
                        == run.slot.progress.stream_bytes + 16 + bytes.len() && run.stream.bytes@
                        == final(run).stream.bytes@.take(run.stream.bytes@.len() as int)
                }
            },
{
    assert forall|run: &mut CaptureRun, next: CaptureNext| #[trigger]
        call_ensures(CaptureRun::take_step, (run, step), next) && run.wf()
            && run.slot.limits.max_bytes < u64::MAX && step is Packet implies {
        let bytes = step->bytes@;
        let fits = run.slot.progress.packets < run.slot.limits.max_packets
            && run.slot.progress.stream_bytes + 40 + bytes.len() <= run.slot.limits.max_bytes;
        fits ==> run.stream.bytes@ == final(run).stream.bytes@.take(
            run.stream.bytes@.len() as int,
        )
    } by {
        let bytes = step->bytes@;
        let fits = run.slot.progress.packets < run.slot.limits.max_packets
            && run.slot.progress.stream_bytes + 40 + bytes.len() <= run.slot.limits.max_bytes;
        if fits {
            assert(run.slot.progress.fits(run.slot.limits, bytes.len() as int));
            assert(run.stream.bytes@ =~= final(run).stream.bytes@.take(
                run.stream.bytes@.len() as int,
            ));
        }
    }
}

/// Of the link types that devices report, Ethernet is 1 in a capture file too, raw packets are 12
/// there and 101 here, and nothing else can be named. Packets are sent on Ethernet alone.
pub proof fn a_link_type_has_its_number(
    datalink: i32,
    activation: CaptureActivation,
    cleanup_verified: bool,
    ready: Result<(), ExecutionFailure>,
)
    requires
        call_ensures(activated, (datalink,), activation),
        call_ensures(inject_activation, (Some(activation), cleanup_verified), ready),
    ensures
        datalink == 1 <==> activation == CaptureActivation::Active(1),
        datalink == 12 <==> activation == CaptureActivation::Active(101),
        datalink != 1 && datalink != 12 <==> activation is NoPcapLinkType,
        ready is Ok <==> datalink == 1,
{
}

/// An injection sends exactly as often as it was asked to, waits before every packet but the first,
/// and tells what was accepted.
pub proof fn an_injection_sends_as_often_as_asked(
    injection: Injection,
    cancelled: bool,
    cleanup_verified: bool,
    next: InjectNext,
)
    requires
        injection.wf(),
        call_ensures(Injection::proceed, (&injection, cancelled, cleanup_verified), next),
    ensures
        next is Done <==> injection.accepted == injection.count,
        next matches InjectNext::Done(result) ==> result.requested_packets == injection.count
            && result.accepted_packets == injection.count && result.bytes_accepted
            == injection.bytes_accepted,
        next is Failed <==> cancelled && injection.accepted < injection.count,
        next matches InjectNext::Send(wait) ==> wait == (if injection.accepted == 0 {
            0
        } else {
            injection.interval_ms
        }),
        forall|sending: &mut Injection, written: usize, taken: Result<(), ExecutionFailure>|
            #[trigger]
            call_ensures(Injection::sent, (sending, Some(written)), taken)
                && sending.bytes_accepted + written <= u64::MAX && sending.accepted
                < sending.count ==> taken is Ok && final(sending).accepted == sending.accepted + 1
                && final(sending).bytes_accepted == sending.bytes_accepted + written
                && final(sending).count == sending.count && final(sending).interval_ms
                == sending.interval_ms,
{
}

} // verus!
