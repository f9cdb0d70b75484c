use droidbridge::contract::common::{CapabilityState, ErrorCode, RuntimeHost, UuidV4};
use droidbridge::daemon::capability::{
    companion_capability_keys, decode_companion_capability_snapshot, state_of,
    CompanionCapabilityRegistration, CompanionLink, MagiskFacts,
};
use droidbridge::daemon::companion::{
    execution_outcome, primitive_payload, require_channel, result_bytes, result_for, CompanionChannel,
    CompanionEvent, CompanionPrimitiveResult, Dispatched,
};
use droidbridge::daemon::helper::{
    helper_family_facts, FamilyFlags, HelperFamily, HelperHello, HelperRegistry,
};
use droidbridge::daemon::ledger::ConnectionLedger;
use droidbridge::daemon::protocol::{
    accept_envelope, decode_frame, encode_frame, valid_fd_role, DaemonRole, EndpointRole,
    Handshake, ModuleIdentity, ModuleObservation, Operation, WireEnvelope, MAX_FRAME_BYTES,
    PROTOCOL_VERSION,
};
use droidbridge::daemon::transport::{
    body_length, check_body, check_handshake_descriptors, check_received_header,
    descriptor_count, helper_response, receive_envelope, send_header, socket_name_fits,
};
use droidbridge::daemon::wake::{alarm_outcome, alarm_value, AlarmRead, AlarmValue};
use droidbridge::error::DomainError;
use droidbridge::json::{entry, json_text, object, text_value, Json};

fn id(value: u8) -> UuidV4 {
    UuidV4::parse(format!("00000000-0000-4000-8000-{value:012x}")).unwrap()
}

fn request(message: u8, operation: Operation) -> WireEnvelope {
    let instance = match operation {
        Operation::HostStatus | Operation::CapabilitySnapshot => None,
        _ => Some(id(200)),
    };
    WireEnvelope::request(
        id(message),
        id(1),
        3,
        instance,
        operation,
        object(Vec::new()),
        Vec::new(),
    )
}

fn code<T>(result: Result<T, DomainError>) -> Option<ErrorCode> {
    result.err().map(|error| error.code)
}

#[test]
fn a_peer_is_the_expected_one() {
    let handshake = || Handshake {
        protocol_version: PROTOCOL_VERSION,
        role: EndpointRole::ApkRuntime,
        package: "com.droidbridge.android".to_owned(),
        user_id: 0,
        runtime_epoch: id(1),
        host: RuntimeHost::ApkRuntime,
        host_generation: 1,
        runtime_instance_id: None,
    };
    let identity = ModuleIdentity::stable();
    assert!(handshake()
        .validate_peer(10_001, 10_001, EndpointRole::ApkRuntime, &identity)
        .is_ok());
    assert_eq!(
        code(handshake().validate_peer(10_002, 10_001, EndpointRole::ApkRuntime, &identity)),
        Some(ErrorCode::PermissionDenied)
    );
    let mut other = handshake();
    other.host_generation = 0;
    assert!(other
        .validate_peer(10_001, 10_001, EndpointRole::ApkRuntime, &identity)
        .is_err());
    assert!(handshake()
        .validate_peer(10_001, 10_001, EndpointRole::Droidbridged, &identity)
        .is_err());
}

#[test]
fn a_module_is_ready_alone_enabled_and_current() {
    let ready = ModuleObservation {
        stable_present: true,
        debug_present: false,
        enabled: true,
        module_version_code: 3_000,
        daemon_version_code: 3_000,
        protocol_version: PROTOCOL_VERSION,
        metadata_self_test: true,
        excluded: false,
    };
    let identity = ModuleIdentity::stable();
    assert!(ready.readiness(&identity, 3_000).is_ok());
    assert_eq!(
        code(ModuleObservation { debug_present: true, ..ready }.readiness(&identity, 3_000)),
        Some(ErrorCode::CapabilityUnavailable)
    );
    assert_eq!(
        code(ready.readiness(&ModuleIdentity::debug(), 3_000)),
        Some(ErrorCode::CapabilityUnavailable)
    );
    assert_eq!(
        code(ready.readiness(&identity, 3_001)),
        Some(ErrorCode::ProtocolIncompatible)
    );
}

#[test]
fn a_role_permits_its_operations() {
    let backend = DaemonRole::from_owner(RuntimeHost::ApkRuntime);
    let host = DaemonRole::from_owner(RuntimeHost::MagiskBackend);
    assert!(!backend.may_create_core() && host.may_create_core());
    assert!(backend.permits(Operation::MaintenanceInstallApk));
    assert!(!host.permits(Operation::MaintenanceInstallApk));
    assert!(!backend.permits(Operation::RuntimeForward));
    assert!(backend.ready(true, false) && !host.ready(true, false));
    assert!(Operation::HostStatus.is_control() && !Operation::RuntimeForward.is_control());
}

#[test]
fn a_frame_gives_its_body_back() {
    let envelope = request(2, Operation::HostStatus);
    let frame = encode_frame(&envelope, Some(b"{}".to_vec())).unwrap();
    assert_eq!(frame, vec![0, 0, 0, 2, b'{', b'}']);
    assert_eq!(decode_frame(&frame).unwrap(), b"{}".to_vec());
    assert_eq!(code(decode_frame(&[0, 0])), Some(ErrorCode::ProtocolIncompatible));
    assert!(decode_frame(&[0, 0, 0, 3, 1]).is_err());
    assert!(decode_frame(&[0, 0, 0, 0]).is_err());
    assert_eq!(code(encode_frame(&envelope, None)), Some(ErrorCode::InternalError));
    assert_eq!(
        code(encode_frame(&envelope, Some(vec![0; MAX_FRAME_BYTES + 1]))),
        Some(ErrorCode::ResourceLimit)
    );
    let mut wrong = request(2, Operation::HostStatus);
    wrong.protocol_version = 2;
    assert_eq!(
        code(encode_frame(&wrong, Some(b"{}".to_vec()))),
        Some(ErrorCode::ProtocolIncompatible)
    );
    assert!(accept_envelope(Some(request(2, Operation::HostStatus))).is_ok());
    assert!(accept_envelope(None).is_err());
    assert!(valid_fd_role("stdin") && !valid_fd_role("other"));
}

#[test]
fn a_message_is_bounded_on_the_way() {
    assert_eq!(send_header(258, 0).unwrap(), [0, 0, 1, 2]);
    assert_eq!(body_length([0, 0, 1, 2]).unwrap(), 258);
    assert!(send_header(0, 0).is_err());
    assert!(send_header(1, 5).is_err());
    assert!(body_length([255, 0, 0, 0]).is_err());
    assert!(check_body("\u{e9}".as_bytes()).is_ok());
    assert_eq!(code(check_body(&[0xff])), Some(ErrorCode::ProtocolIncompatible));
    assert!(check_handshake_descriptors(1).is_err());
    assert_eq!(code(check_received_header(0, false)), Some(ErrorCode::IoError));
    assert_eq!(
        code(check_received_header(3, false)),
        Some(ErrorCode::ProtocolIncompatible)
    );
    assert!(check_received_header(4, false).is_ok());
    assert_eq!(descriptor_count(true, 24, 16, 4, 0).unwrap(), 2);
    assert!(descriptor_count(true, 24, 16, 4, 3).is_err());
    assert!(descriptor_count(false, 24, 16, 4, 0).is_err());
    assert!(receive_envelope(Some(request(2, Operation::HostStatus)), 0).is_ok());
    assert!(receive_envelope(Some(request(2, Operation::HostStatus)), 1).is_err());
    assert!(socket_name_fits("abc", 4) && !socket_name_fits("abcd", 4));
}

#[test]
fn control_messages_always_find_room() {
    let mut ledger = ConnectionLedger::new();
    for message in 1..=60u8 {
        ledger
            .reserve_business_envelope(&request(message, Operation::RuntimeForward))
            .unwrap();
    }
    assert!(ledger
        .reserve_business_envelope(&request(61, Operation::RuntimeForward))
        .is_err());
    for message in 62..=65u8 {
        ledger
            .reserve_control_envelope(&request(message, Operation::HostStatus))
            .unwrap();
    }
    assert!(ledger
        .reserve_control_envelope(&request(66, Operation::HostStatus))
        .is_err());
    let answered = request(1, Operation::RuntimeForward);
    let response = WireEnvelope::response(
        id(100),
        &answered,
        Some(id(200)),
        object(Vec::new()),
        Vec::new(),
    );
    ledger.complete_envelope(&response).unwrap();
    assert!(ledger.complete_envelope(&response).is_err());
    ledger
        .reserve_business_envelope(&request(67, Operation::RuntimeForward))
        .unwrap();
    assert!(ledger.observe_incoming(id(120)).is_ok());
    assert!(ledger.observe_incoming(id(120)).is_err());
}

#[test]
fn a_family_stands_for_itself() {
    let facts = helper_family_facts(
        true,
        |family: HelperFamily| family != HelperFamily::Clipboard,
        |family: HelperFamily| family == HelperFamily::Notifications,
    );
    assert_eq!(facts[0].state, CapabilityState::Available);
    assert_eq!(facts[1].reason, Some("CLIPBOARD_PROBE_FAILED"));
    assert_eq!(facts[2].reason, Some("OPERATION_DENIED"));
    let gone = helper_family_facts(false, |_| true, |_| false);
    assert!(gone.iter().all(|fact| fact.reason == Some("HELPER_UNAVAILABLE")));
    let mut flags = FamilyFlags::none();
    flags.set(HelperFamily::Clipboard);
    for family in HelperFamily::all() {
        assert_eq!(flags.get(family), family == HelperFamily::Clipboard);
    }
    assert_eq!(HelperFamily::Notifications.index(), 2);
}

#[test]
fn a_helper_is_the_expected_one() {
    let mut registry = HelperRegistry::new(35, 2).unwrap();
    assert_eq!(registry.jar_name(), "droidbridge-framework-api35.jar");
    assert_eq!(code(HelperRegistry::new(32, 2)), Some(ErrorCode::CapabilityUnavailable));
    assert_eq!(code(HelperRegistry::new(35, 0)), Some(ErrorCode::InvalidArgument));
    let hello = HelperHello {
        protocol_version: PROTOCOL_VERSION,
        sdk_int: 35,
        helper_generation: 2,
    };
    assert!(registry.accept_hello(2_000, hello).is_err());
    assert!(registry.accept_hello(0, hello).is_ok());
    assert_eq!(registry.framework_state(), CapabilityState::Available);
    registry.disconnected();
    assert_eq!(registry.framework_state(), CapabilityState::Unavailable);
}

#[test]
fn an_app_registers_only_what_it_can_have() {
    let key = companion_capability_keys()[0].to_owned();
    let registration = |reason: Option<&str>, state: CapabilityState| {
        CompanionCapabilityRegistration {
            key: key.clone(),
            state,
            reason: reason.map(str::to_owned),
            source_generation: 1,
            has_executor: false,
        }
    };
    let good = registration(None, CapabilityState::Available);
    assert_eq!(
        decode_companion_capability_snapshot(Some(vec![good.clone()])).unwrap(),
        vec![good.clone()]
    );
    assert!(decode_companion_capability_snapshot(Some(vec![good.clone(), good])).is_err());
    assert!(decode_companion_capability_snapshot(Some(vec![registration(
        None,
        CapabilityState::Unavailable
    )]))
    .is_err());
    assert!(decode_companion_capability_snapshot(None).is_err());
    let mut link = CompanionLink::default();
    assert_eq!(link.capability_state(), CapabilityState::Unavailable);
    link.observe_connected();
    assert_eq!(link.capability_state(), CapabilityState::Available);
    assert_eq!(state_of(false), CapabilityState::Unavailable);
    let facts = MagiskFacts::ready(true, true).with_companion(false);
    assert_eq!(facts.app_execution_surface, CapabilityState::Unavailable);
    assert_eq!(facts.magisk_root, CapabilityState::Available);
}

#[test]
fn an_execution_is_delegated_and_answered() {
    let mut channel: CompanionChannel<u32> = CompanionChannel::new();
    let payload = || object(vec![entry("operation", text_value("display"))]);
    assert!(channel
        .submit("VisualDisplaySnapshot", payload(), &id(20), Vec::new())
        .is_err());
    channel.set_fence(id(1), 3, Some(id(200)));
    let sent = channel
        .submit_as(id(30), "VisualDisplaySnapshot", payload(), &id(20), Vec::new())
        .unwrap();
    assert_eq!(sent.operation, Operation::CompanionExecute);
    assert_eq!(sent.runtime_instance_id, Some(id(200)));
    let answer = WireEnvelope::response(
        id(31),
        &sent,
        Some(id(200)),
        Json::parse(br#"{"payload":{"width":1}}"#).unwrap(),
        Vec::new(),
    );
    match channel.dispatch(answer, Vec::new()).unwrap() {
        Dispatched::Settled { message_id, result } => {
            assert_eq!(message_id, id(30));
            assert_eq!(
                json_text(&result.unwrap().payload),
                r#"{"width":1}"#
            );
        }
        _ => panic!("an execution settles"),
    }
    for (text, code) in [
        (r#"{"error":{"code":"NOT_FOUND"}}"#, ErrorCode::NotFound),
        (r#"{"error":{"code":{"TIMEOUT":null}}}"#, ErrorCode::Timeout),
        (r#"{"error":{"code":"NO_CODE"}}"#, ErrorCode::ProtocolIncompatible),
        (r#"{"error":1}"#, ErrorCode::ProtocolIncompatible),
        ("{}", ErrorCode::ProtocolIncompatible),
    ] {
        let payload = Json::parse(text.as_bytes()).unwrap();
        let result = result_for::<u32>(&payload, &[], Vec::new());
        assert_eq!(result.unwrap_err().code, code, "{text}");
    }
    let open = channel
        .submit_as(id(32), "VisualDisplaySnapshot", payload(), &id(21), Vec::new())
        .unwrap();
    assert_eq!(channel.lose(ErrorCode::IoError), vec![open.message_id]);
    assert!(channel
        .submit("VisualDisplaySnapshot", payload(), &id(22), Vec::new())
        .is_err());
}

#[test]
fn a_request_of_the_app_is_handed_to_the_owner() {
    let mut channel: CompanionChannel<u32> = CompanionChannel::new();
    channel.set_fence(id(1), 3, Some(id(200)));
    channel
        .dispatch(request(40, Operation::HostStatus), Vec::new())
        .unwrap();
    match channel.next_event().unwrap() {
        Some(CompanionEvent::Request { envelope, .. }) => {
            assert_eq!(envelope.message_id, id(40));
        }
        _ => panic!("a request"),
    }
    assert!(channel.next_event().unwrap().is_none());
}

#[test]
fn a_primitive_carries_its_payload() {
    assert_eq!(
        json_text(&primitive_payload(br#"{"a": 1}"#).unwrap()),
        r#"{"a":1}"#
    );
    assert_eq!(code(primitive_payload(b"{")), Some(ErrorCode::InvalidArgument));
    assert_eq!(result_bytes(&object(Vec::new())), b"{}".to_vec());
    assert!(require_channel(true).is_ok());
    assert!(require_channel(false).is_err());
    let nothing: Option<Result<CompanionPrimitiveResult<u32>, DomainError>> = None;
    assert_eq!(code(execution_outcome(nothing)), Some(ErrorCode::Timeout));
}

#[test]
fn an_alarm_never_disarms_by_its_time() {
    assert_eq!(
        alarm_value(Some(1_500)),
        AlarmValue {
            seconds: 1,
            nanoseconds: 500_000_000
        }
    );
    assert_eq!(
        alarm_value(Some(-5)),
        AlarmValue {
            seconds: 0,
            nanoseconds: 1_000_000
        }
    );
    assert_eq!(
        alarm_value(None),
        AlarmValue {
            seconds: 0,
            nanoseconds: 0
        }
    );
    assert!(alarm_outcome(AlarmRead::WouldBlock).is_none());
    assert_eq!(alarm_outcome(AlarmRead::ClockSet), Some(Ok(())));
    assert!(matches!(alarm_outcome(AlarmRead::Bytes(4)), Some(Err(_))));
}

#[test]
fn a_refused_response_still_closes_its_request() {
    let mut channel: CompanionChannel<u32> = CompanionChannel::new();
    channel.set_fence(id(1), 3, Some(id(200)));
    let cancel = channel
        .cancel_as(id(50), "VisualDisplaySnapshot", &id(20))
        .unwrap();
    let answer = |message: u8| {
        WireEnvelope::response(id(message), &cancel, Some(id(200)), object(Vec::new()), Vec::new())
    };
    assert_eq!(
        channel.dispatch(answer(51), vec![7]).unwrap_err().reason,
        "daemon control response contains descriptors"
    );
    assert!(channel.next_event().unwrap().is_none());
    assert_eq!(
        channel.dispatch(answer(51), Vec::new()).unwrap_err().reason,
        "duplicate daemon message id"
    );
    assert!(channel.dispatch(answer(52), Vec::new()).is_err());
    assert!(channel.lose(ErrorCode::IoError).is_empty());
}

#[test]
fn a_full_queue_refuses_a_request_that_counts_as_received() {
    let mut channel: CompanionChannel<u32> = CompanionChannel::new();
    channel.set_fence(id(1), 3, Some(id(200)));
    let mut refused = 0;
    for message in 1..=200 {
        if let Err(error) = channel.dispatch(request(message, Operation::HostStatus), Vec::new()) {
            assert_eq!(error.reason, "inbound companion requests exceed the outstanding bound");
            refused = message;
            break;
        }
    }
    assert!(refused > 1);
    assert_eq!(
        channel
            .dispatch(request(refused, Operation::HostStatus), Vec::new())
            .unwrap_err()
            .reason,
        "duplicate daemon message id"
    );
}

#[test]
fn a_helper_answers_with_a_value_alone() {
    assert_eq!(
        json_text(&helper_response(br#"{"b": 1, "a": [true]}"#, 0).unwrap()),
        r#"{"a":[true],"b":1}"#
    );
    let told = |body: &[u8], descriptors: usize| {
        let error = helper_response(body, descriptors).unwrap_err();
        (error.code, error.reason)
    };
    assert_eq!(told(b"{", 0), (ErrorCode::ProtocolIncompatible, "invalid IPC JSON"));
    assert_eq!(
        told(b"{}", 1),
        (ErrorCode::ProtocolIncompatible, "handshake cannot carry descriptors")
    );
}
