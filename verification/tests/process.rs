use droidbridge::contract::common::{CapabilityState, ErrorCode, RuntimeHost, UuidV4};
use droidbridge::contract::internal::{HostActivate, HostPrepareTransition};
use droidbridge::daemon::host::CanonicalDirectoryIdentity;
use droidbridge::daemon::process::{
    aborted_reply, activated_reply, artifact_reply, asks_capabilities, build_identity,
    canonical_base, canonical_directory_identity, capability_payload, check_app_owner,
    check_canonical_base, check_executable, check_network_event, check_release,
    check_request_descriptors, check_selected, daemon_handshake, handling_of, network_reply,
    package_directory, prepare_step, prepared_reply, release_outcome,
    require_canonical_directory, require_runtime, status_payload, validate_request_fence,
    AbortStep, CapabilityFacts, Companion, CompanionStep, ConnectBackoff, Handling, LiveHost,
    PrepareStep, RuntimeOwner, StatusFacts, TargetPreparation, TransitionIntent,
};
use droidbridge::daemon::protocol::{ModuleIdentity, Operation, WireEnvelope};
use droidbridge::error::DomainError;
use droidbridge::json::{json_text, object, Json};

fn id(value: u8) -> UuidV4 {
    UuidV4::parse(format!("00000000-0000-4000-8000-{value:012x}")).unwrap()
}

fn owner(host: RuntimeHost) -> RuntimeOwner {
    RuntimeOwner {
        runtime_epoch: id(1),
        host,
        host_generation: 3,
    }
}

fn request(operation: Operation, instance: Option<UuidV4>) -> WireEnvelope {
    WireEnvelope::request(
        id(9),
        id(1),
        3,
        instance,
        operation,
        object(Vec::new()),
        Vec::new(),
    )
}

fn code<T>(result: Result<T, DomainError>) -> Option<ErrorCode> {
    result.err().map(|error| error.code)
}

#[test]
fn a_daemon_runs_where_its_module_is() {
    let identity = ModuleIdentity::stable();
    let path = |parts: &[&str]| -> Vec<String> {
        parts.iter().map(|part| part.to_string()).collect()
    };
    let good = path(&["data", "adb", "modules", "droidbridge", "bin", "droidbridged"]);
    assert!(check_executable(&good, &identity).is_ok());
    assert_eq!(
        code(check_executable(&good, &ModuleIdentity::debug())),
        Some(ErrorCode::PermissionDenied)
    );
    assert_eq!(
        code(check_executable(&path(&["droidbridged"]), &identity)),
        Some(ErrorCode::IoError)
    );
    assert_eq!(
        code(check_executable(&path(&["bin", "droidbridged"]), &identity)),
        Some(ErrorCode::PermissionDenied)
    );
    assert_eq!(build_identity(false).module_id, "droidbridge");
    assert_eq!(build_identity(true).module_id, "droidbridge_debug");
    assert_eq!(
        canonical_base(&identity),
        "/data/user_de/0/com.droidbridge.android/files/droidbridge"
    );
    assert_eq!(
        package_directory(&identity),
        "/data/user_de/0/com.droidbridge.android"
    );
    assert_eq!(code(check_canonical_base(false)), Some(ErrorCode::NotFound));
}

#[test]
fn a_daemon_stays_in_its_directory() {
    let identity = CanonicalDirectoryIdentity {
        device: 1,
        inode: 2,
        uid: 3,
    };
    assert_eq!(
        canonical_directory_identity(Some((true, identity))).unwrap(),
        identity
    );
    assert_eq!(
        code(canonical_directory_identity(Some((false, identity)))),
        Some(ErrorCode::IoError)
    );
    assert_eq!(code(canonical_directory_identity(None)), Some(ErrorCode::IoError));
    assert!(require_canonical_directory(identity, Some(identity)).is_ok());
    assert_eq!(
        code(require_canonical_directory(identity, None)),
        Some(ErrorCode::StaleAuthority)
    );
}

#[test]
fn pauses_grow_until_a_connection_lasts() {
    let mut backoff = ConnectBackoff::new();
    let mut pauses: Vec<u64> = Vec::new();
    for _ in 0..8 {
        backoff.observe_connection(299);
        pauses.push(backoff.next_delay_s());
    }
    assert_eq!(pauses, vec![1, 2, 4, 8, 16, 30, 30, 30]);
    backoff.observe_connection(300);
    assert_eq!(backoff.next_delay_s(), 1);
}

#[test]
fn an_app_must_know_the_owner() {
    let handshake = daemon_handshake(
        &ModuleIdentity::stable(),
        &owner(RuntimeHost::MagiskBackend),
        Some(id(7)),
    );
    assert_eq!(handshake.package, "com.droidbridge.android");
    assert_eq!(handshake.user_id, 0);
    assert!(check_app_owner(&handshake, &owner(RuntimeHost::MagiskBackend)).is_ok());
    assert_eq!(
        code(check_app_owner(&handshake, &owner(RuntimeHost::ApkRuntime))),
        Some(ErrorCode::StaleAuthority)
    );
}

#[test]
fn a_request_is_answered_only_within_its_fence() {
    let hosting = owner(RuntimeHost::MagiskBackend);
    let instance = Some(id(7));
    assert!(
        validate_request_fence(&request(Operation::HostStatus, None), &hosting, &instance).is_ok()
    );
    assert_eq!(
        code(validate_request_fence(
            &request(Operation::CompanionExecute, None),
            &hosting,
            &instance
        )),
        Some(ErrorCode::StaleAuthority)
    );
    assert_eq!(
        code(validate_request_fence(
            &request(Operation::RuntimeForward, Some(id(8))),
            &hosting,
            &instance
        )),
        Some(ErrorCode::StaleAuthority)
    );
    assert!(validate_request_fence(
        &request(Operation::RuntimeForward, Some(id(7))),
        &hosting,
        &instance
    )
    .is_ok());
    assert_eq!(
        code(validate_request_fence(
            &request(Operation::MaintenanceInstallApk, None),
            &hosting,
            &instance
        )),
        Some(ErrorCode::ProtocolIncompatible)
    );
    assert!(validate_request_fence(
        &request(Operation::MaintenanceInstallApk, None),
        &owner(RuntimeHost::ApkRuntime),
        &None
    )
    .is_ok());
    assert!(check_request_descriptors(Operation::MaintenanceInstallApk, 1).is_ok());
    assert_eq!(
        code(check_request_descriptors(Operation::HostStatus, 1)),
        Some(ErrorCode::ProtocolIncompatible)
    );
    assert!(asks_capabilities(Operation::HostStatus, true));
    assert!(!asks_capabilities(Operation::HostStatus, false));
    assert!(!asks_capabilities(Operation::RuntimeForward, true));
}

#[test]
fn every_operation_has_its_answer() {
    assert!(matches!(
        handling_of(Operation::RuntimeForward, true),
        Handling::ArtifactQuery
    ));
    assert!(matches!(
        handling_of(Operation::RuntimeForward, false),
        Handling::ForwardRuntime
    ));
    match handling_of(Operation::RuntimeCancel, false) {
        Handling::Reply(reply) => assert_eq!(json_text(&reply), r#"{"cancelled":false}"#),
        _ => panic!("a reply"),
    }
    match handling_of(Operation::DiagnosticsSnapshot, false) {
        Handling::Reply(reply) => assert_eq!(json_text(&reply), r#"{"faults":[]}"#),
        _ => panic!("a reply"),
    }
    match handling_of(Operation::CompanionCancel, false) {
        Handling::Refuse(error) => assert_eq!(error.code, ErrorCode::ProtocolIncompatible),
        _ => panic!("a refusal"),
    }
}

#[test]
fn network_changes_need_an_instance_and_a_runtime() {
    assert!(check_network_event(&Some(id(7)), true).is_ok());
    assert_eq!(
        code(check_network_event(&None, true)),
        Some(ErrorCode::ProtocolIncompatible)
    );
    assert_eq!(
        code(check_network_event(&Some(id(7)), false)),
        Some(ErrorCode::CapabilityUnavailable)
    );
    assert!(require_runtime(true).is_ok());
    assert_eq!(json_text(&network_reply(false)), r#"{"accepted":true}"#);
    assert_eq!(
        json_text(&network_reply(true)),
        r#"{"error":{"code":"STALE_AUTHORITY","retryable":false}}"#
    );
    assert_eq!(
        json_text(&artifact_reply(Err(DomainError::new(
            ErrorCode::NotFound,
            "no artifact"
        )))),
        r#"{"error":{"code":"NOT_FOUND","retryable":false}}"#
    );
}

fn preparation(host: RuntimeHost) -> HostPrepareTransition {
    let target_host = match host {
        RuntimeHost::ApkRuntime => RuntimeHost::MagiskBackend,
        RuntimeHost::MagiskBackend => RuntimeHost::ApkRuntime,
    };
    HostPrepareTransition {
        transition_id: id(5),
        runtime_epoch: id(1),
        from_host: host,
        from_generation: 3,
        from_instance_id: id(7),
        target_host,
    }
}

#[test]
fn a_transition_is_prepared_on_the_side_that_the_daemon_is_on() {
    let apk = RuntimeHost::ApkRuntime;
    let magisk = RuntimeHost::MagiskBackend;
    assert_eq!(
        prepare_step(&preparation(apk), &owner(apk), true, &None).unwrap(),
        PrepareStep::Target
    );
    assert_eq!(
        prepare_step(&preparation(apk), &owner(apk), false, &None).unwrap(),
        PrepareStep::Refuse(ErrorCode::CapabilityUnavailable)
    );
    assert_eq!(
        prepare_step(&preparation(apk), &owner(magisk), true, &None).unwrap(),
        PrepareStep::Refuse(ErrorCode::StaleAuthority)
    );
    assert_eq!(
        code(prepare_step(&preparation(magisk), &owner(magisk), true, &None)),
        Some(ErrorCode::CapabilityUnavailable)
    );
    let host = |guard_ready: bool, instance: u8| {
        Some(LiveHost {
            guard_ready,
            instance_id: id(instance),
        })
    };
    assert_eq!(
        prepare_step(&preparation(magisk), &owner(magisk), true, &host(true, 7)).unwrap(),
        PrepareStep::Source
    );
    assert_eq!(
        prepare_step(&preparation(magisk), &owner(magisk), true, &host(false, 7)).unwrap(),
        PrepareStep::Refuse(ErrorCode::IoError)
    );
    assert_eq!(
        prepare_step(&preparation(magisk), &owner(magisk), true, &host(true, 8)).unwrap(),
        PrepareStep::Refuse(ErrorCode::StaleAuthority)
    );
    assert_eq!(
        json_text(&prepared_reply(Ok(12))),
        r#"{"prepared":true,"store_revision":12}"#
    );
    assert_eq!(
        json_text(&prepared_reply(Err(ErrorCode::IoError))),
        r#"{"error":{"code":"IO_ERROR","retryable":false}}"#
    );
}

#[test]
fn a_preparation_is_given_up_by_its_own_transition() {
    let mut preparation = TargetPreparation::new();
    assert_eq!(
        code(preparation.abort(&id(5), false)),
        Some(ErrorCode::StaleAuthority)
    );
    assert_eq!(preparation.abort(&id(5), true).unwrap(), AbortStep::Source);
    preparation.prepare(&id(5));
    assert_eq!(preparation.abort(&id(6), true).unwrap(), AbortStep::Source);
    assert_eq!(preparation.abort(&id(5), false).unwrap(), AbortStep::Aborted);
    assert!(preparation.transition_id.is_none());
    assert_eq!(json_text(&aborted_reply(Ok(()))), r#"{"aborted":true}"#);
}

#[test]
fn only_the_committed_transition_activates() {
    let activate = HostActivate {
        transition_id: id(5),
        runtime_epoch: id(1),
        host_generation: 3,
        target_host: RuntimeHost::MagiskBackend,
    };
    let intent = |committed: bool, transition: u8| {
        Some(TransitionIntent {
            committed,
            transition_id: id(transition),
            runtime_epoch: id(1),
            target_host: RuntimeHost::MagiskBackend,
            target_generation: 3,
        })
    };
    let current = owner(RuntimeHost::MagiskBackend);
    let mut preparation = TargetPreparation::new();
    assert!(preparation.activates(&activate, &current, &intent(true, 5)));
    assert!(!preparation.activates(&activate, &current, &intent(false, 5)));
    assert!(!preparation.activates(&activate, &current, &intent(true, 6)));
    assert!(!preparation.activates(&activate, &current, &None));
    preparation.prepare(&id(6));
    assert!(!preparation.activates(&activate, &current, &intent(true, 5)));
    preparation.activated();
    assert!(preparation.activates(&activate, &current, &intent(true, 5)));
    assert_eq!(
        json_text(&activated_reply(true, &Some(id(7)))),
        r#"{"ready":true,"runtime_instance_id":"00000000-0000-4000-8000-000000000007"}"#
    );
    assert!(check_selected(&current).is_ok());
    assert_eq!(
        code(check_selected(&owner(RuntimeHost::ApkRuntime))),
        Some(ErrorCode::StaleAuthority)
    );
}

#[test]
fn a_release_ends_the_host_only_after_the_process_is_unbound() {
    let failure = || Err(DomainError::new(ErrorCode::IoError, "clear failed"));
    let (reply, ended) = release_outcome(failure(), Ok(()));
    assert_eq!(
        json_text(&reply),
        r#"{"error":{"code":"IO_ERROR","retryable":false}}"#
    );
    assert!(!ended);
    assert!(!release_outcome(Ok(()), failure()).1);
    let (reply, ended) = release_outcome(Ok(()), Ok(()));
    assert_eq!(json_text(&reply), r#"{"released":true}"#);
    assert!(ended);
    assert_eq!(code(check_release(false)), Some(ErrorCode::StaleAuthority));
}

#[test]
fn the_app_brings_and_takes_its_capabilities() {
    let mut companion = Companion::new();
    assert_eq!(
        companion.host_activated(),
        vec![CompanionStep::SetSurface(CapabilityState::Unavailable)]
    );
    assert_eq!(
        companion.set_connected(true, true),
        vec![
            CompanionStep::RegisterCapabilities,
            CompanionStep::SetSurface(CapabilityState::Available),
            CompanionStep::UseCompanionEvents,
        ]
    );
    assert_eq!(companion.host_activated().len(), 4);
    assert_eq!(
        companion.set_connected(false, true),
        vec![
            CompanionStep::WithdrawCapabilities,
            CompanionStep::SetSurface(CapabilityState::Unavailable),
            CompanionStep::UseNativeEvents,
        ]
    );
    assert!(companion.set_connected(true, false).is_empty());
}

#[test]
fn the_status_tells_the_role_and_what_is_ready() {
    let facts = StatusFacts {
        module_ready: true,
        owner: Some(RuntimeHost::MagiskBackend),
        host: Some(LiveHost {
            guard_ready: true,
            instance_id: id(7),
        }),
        helper_ready: true,
    };
    assert_eq!(
        json_text(&status_payload(&facts, &ModuleIdentity::stable(), "3.0.0")),
        [
            r#"{"helper_ready":true,"module_id":"droidbridge","module_version":"3.0.0","#,
            r#""protocol_version":1,"ready":true,"role":"runtime_host","#,
            r#""runtime_instance_id":"00000000-0000-4000-8000-000000000007","#,
            r#""transition_cleanup_ready":true,"version_code":3000}"#,
        ]
        .concat()
    );
    let alone = StatusFacts {
        module_ready: true,
        owner: None,
        host: None,
        helper_ready: true,
    };
    let payload = status_payload(&alone, &ModuleIdentity::stable(), "3.0.0");
    assert_eq!(payload.get("ready"), Some(&Json::Boolean(false)));
    assert_eq!(payload.get("helper_ready"), Some(&Json::Boolean(false)));
    assert_eq!(payload.get("runtime_instance_id"), Some(&Json::Null));
    assert_eq!(payload.get("role").and_then(Json::as_text), Some("backend_only"));
}

#[test]
fn without_its_module_the_daemon_has_no_capability() {
    let facts = CapabilityFacts {
        module_ready: false,
        guard_ready: true,
        helper_ready: true,
        wake_alarm_ready: true,
        companion_ready: true,
    };
    let payload = capability_payload(&facts);
    for key in [
        "magisk.module",
        "magisk.root",
        "magisk.framework",
        "magisk.wake_alarm",
        "execution.root_guard",
        "shizuku.shell",
    ] {
        assert_eq!(payload.get(key).and_then(Json::as_text), Some("unavailable"));
    }
    assert_eq!(
        payload.get("app_execution_surface").and_then(Json::as_text),
        Some("available")
    );
    let ready = capability_payload(&CapabilityFacts {
        module_ready: true,
        ..facts
    });
    assert_eq!(
        ready.get("execution.root_guard").and_then(Json::as_text),
        Some("available")
    );
}
