use droidbridge::contract::common::{ErrorCode, FileTarget, FileTargetType, UuidV4};
use droidbridge::daemon::network::capture::{
    activated, after_close, capture_activation, capture_summary, check_capture_destination,
    check_capture_file,
    check_capture_length, inject_activation, record_time, temporary_capture_name,
    CaptureActivation, CaptureLimits, CaptureNext, CaptureRegistry, CaptureRun, CaptureSlot,
    CaptureStep, InjectNext, Injection, PCAP_LINKTYPE_ETHERNET,
};

fn id(value: u8) -> UuidV4 {
    UuidV4::parse(format!("00000000-0000-4000-8000-{value:012x}")).unwrap()
}

fn limits(max_packets: u64, max_bytes: u64) -> CaptureLimits {
    CaptureLimits {
        max_packets,
        max_bytes,
        max_duration_ms: 1_000,
    }
}

fn packet(bytes: &[u8]) -> CaptureStep {
    CaptureStep::Packet {
        seconds: 1,
        microseconds: 2,
        original_len: 9,
        bytes: bytes.to_vec(),
    }
}

#[test]
fn a_capture_stops_before_it_exceeds_its_bounds() {
    let mut run = CaptureRun::new(CaptureSlot::new(limits(9, 61), 0), 65_535, 1);
    assert_eq!(run.before_read(false, 0), CaptureNext::Read);
    assert_eq!(run.take_step(packet(&[1, 2, 3])), CaptureNext::Read);
    assert_eq!(run.take_step(CaptureStep::Timeout), CaptureNext::Read);
    assert_eq!(run.take_step(packet(&[1, 2, 3])), CaptureNext::Settle);
    assert_eq!(run.take_step(packet(&[1, 2])), CaptureNext::Read);
    assert_eq!(run.stream.bytes.len(), 61);
    assert_eq!(run.before_read(false, 0), CaptureNext::Settle);
    assert_eq!(run.before_read(true, 0), CaptureNext::Cancelled);
    assert_eq!(run.slot.progress().packets, 2);
    assert_eq!(run.slot.progress().bytes, 5);
    let mut counted = CaptureRun::new(CaptureSlot::new(limits(1, 1_000), 0), 2, 1);
    assert_eq!(counted.take_step(packet(&[1, 2, 3])), CaptureNext::Read);
    assert_eq!(counted.stream.bytes.len(), 42);
    assert_eq!(counted.take_step(packet(&[1])), CaptureNext::Settle);
    assert_eq!(counted.before_read(false, 1_000), CaptureNext::Settle);
    assert!(matches!(
        counted.take_step(CaptureStep::Failed),
        CaptureNext::Failed(_)
    ));
    assert_eq!(counted.take_step(CaptureStep::End), CaptureNext::Settle);
}

#[test]
fn a_capture_file_is_written_in_order() {
    let mut run = CaptureRun::new(CaptureSlot::new(limits(9, 1_000), 0), 65_535, 101);
    run.take_step(packet(&[7, 8]));
    assert_eq!(
        run.stream.bytes,
        vec![
            0xd4, 0xc3, 0xb2, 0xa1, 2, 0, 4, 0, 0, 0, 0, 0, 0, 0, 0, 0, 0xff, 0xff, 0, 0, 101, 0,
            0, 0, 1, 0, 0, 0, 2, 0, 0, 0, 2, 0, 0, 0, 9, 0, 0, 0, 7, 8,
        ]
    );
    assert_eq!(record_time(-1, -1), (u32::MAX, 0));
    assert_eq!(record_time(5, 6), (5, 6));
    assert_eq!(activated(1), CaptureActivation::Active(1));
    assert_eq!(activated(12), CaptureActivation::Active(101));
    assert_eq!(activated(113), CaptureActivation::NoPcapLinkType);
    assert_eq!(
        capture_activation(Some(activated(113)), true).unwrap_err().error.code,
        ErrorCode::Unsupported
    );
}

#[test]
fn an_identity_names_one_capture() {
    let mut registry = CaptureRegistry::default();
    registry.register(&id(1), limits(1, 100), 5).unwrap();
    assert_eq!(
        registry.register(&id(1), limits(1, 100), 6).unwrap_err().code,
        ErrorCode::CaptureFailed
    );
    registry.record(&id(1), 10);
    assert_eq!(registry.running(&id(1)).unwrap().progress().stream_bytes, 26);
    assert_eq!(registry.running(&id(1)).unwrap().elapsed_ms(8), 3);
    registry.request_stop(&id(1)).unwrap();
    assert!(registry.running(&id(1)).unwrap().stop_requested());
    registry.retire(&id(1));
    assert_eq!(registry.running(&id(1)).unwrap_err().code, ErrorCode::NotFound);
    assert!(registry.request_stop(&id(1)).unwrap_err().cleanup_verified);
}

#[test]
fn a_device_is_used_as_it_can_be() {
    let ethernet = Some(CaptureActivation::Active(PCAP_LINKTYPE_ETHERNET));
    assert_eq!(capture_activation(ethernet, true).unwrap(), 1);
    assert_eq!(
        capture_activation(Some(CaptureActivation::NoPcapLinkType), false)
            .unwrap_err()
            .error
            .code,
        ErrorCode::Unsupported
    );
    assert!(capture_activation(None, false).unwrap_err().cleanup_verified);
    assert_eq!(after_close(capture_activation(ethernet, true), false).unwrap(), 1);
    let closed = after_close(capture_activation(None, true), false).unwrap_err();
    assert!(!closed.cleanup_verified && closed.error.code == ErrorCode::CaptureFailed);
    assert!(inject_activation(ethernet, true).is_ok());
    assert!(inject_activation(Some(CaptureActivation::Active(101)), true).is_err());
    let summary = capture_summary(true, CaptureSlot::new(limits(1, 1), 0).progress());
    assert!(summary.cancelled && !summary.publishes);
}

#[test]
fn packets_are_sent_one_after_the_other() {
    let mut injection = Injection::new(2, 50);
    assert_eq!(injection.proceed(false, true), InjectNext::Send(0));
    injection.sent(Some(60)).unwrap();
    assert_eq!(injection.proceed(false, true), InjectNext::Send(50));
    assert!(matches!(injection.proceed(true, false), InjectNext::Failed(_)));
    assert!(injection.sent(None).is_err());
    injection.sent(Some(60)).unwrap();
    match injection.proceed(true, true) {
        InjectNext::Done(result) => {
            assert_eq!(result.accepted_packets, 2);
            assert_eq!(result.bytes_accepted, 120);
        }
        _ => panic!("all packets were sent"),
    }
}

#[test]
fn a_capture_is_kept_at_a_path() {
    let target = |target_type| FileTarget {
        target_type,
        value: "/sdcard/a.pcap".to_owned(),
    };
    let path = target(FileTargetType::Path);
    let uri = target(FileTargetType::ContentUri);
    assert!(check_capture_file(&path).is_ok());
    assert!(check_capture_file(&uri).is_err());
    assert!(check_capture_length(10, 10).is_ok());
    assert_eq!(
        check_capture_length(11, 10).unwrap_err().error.code,
        ErrorCode::ResourceLimit
    );
    assert!(check_capture_destination(&path, true, true).is_ok());
    assert!(check_capture_destination(&path, true, false).is_err());
    assert!(check_capture_destination(&path, false, false).is_err());
    assert!(check_capture_destination(&uri, true, true).is_err());
    assert_eq!(
        temporary_capture_name(&id(1)),
        ".00000000-0000-4000-8000-000000000001.pcap.tmp"
    );
}
