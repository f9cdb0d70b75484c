use droidbridge::contract::common::{
    AutomationExecutionState, CapabilityState, ErrorCode, TaskState, UuidV4,
};
use droidbridge::contract::internal::Fence;
use droidbridge::daemon::helper::{FamilyFlags, HelperFamily};
use droidbridge::daemon::host::WakeAlarmProbe;
use droidbridge::daemon::magisk::{
    check_activation, check_admission, check_stale_socket, connect_step, helper_arguments,
    helper_socket_name, outstanding_work, probe_deadline, probe_operation, recovery_proof,
    system_time_ms, ActivationFacts, ConnectAttempt, HelperStep, HostAction, HostFacts,
    NetworkEventSelection, RecoveryProof, Registration,
};
use droidbridge::daemon::property::{
    boot_completed, fixed_property, observe_module, parse_module_property, property_line,
    sdk_level, ModuleFacts,
};
use droidbridge::daemon::protocol::ModuleIdentity;
use droidbridge::error::DomainError;

fn id(value: u8) -> UuidV4 {
    UuidV4::parse(format!("00000000-0000-4000-8000-{value:012x}")).unwrap()
}

fn code<T>(result: Result<T, DomainError>) -> Option<ErrorCode> {
    result.err().map(|error| error.code)
}

const ALL: FamilyFlags = FamilyFlags {
    launch: true,
    clipboard: true,
    notifications: true,
};

fn facts(guard_works: bool, helper: bool) -> ActivationFacts {
    ActivationFacts {
        guards_are_clean: true,
        guard_works,
        wake_alarm: WakeAlarmProbe {
            created: true,
            clock_read: true,
            armed: true,
            disarmed: true,
        },
        helper,
        probes: ALL,
    }
}

fn registrations(actions: &[HostAction]) -> Vec<Registration> {
    actions
        .iter()
        .filter_map(|action| match action {
            HostAction::Register(registration) => Some(*registration),
            _ => None,
        })
        .collect()
}

#[test]
fn an_activated_host_registers_everything_at_the_first_generation() {
    let (host, actions) = HostFacts::activate(facts(true, true));
    assert!(host.guard_ready && host.module_ready && host.wake_alarm_ready && host.helper);
    let made = registrations(&actions);
    let keys: Vec<&str> = made.iter().map(|registration| registration.key).collect();
    assert_eq!(
        keys,
        vec![
            "magisk.module",
            "magisk.root",
            "execution.root_guard",
            "magisk.wake_alarm",
            "magisk.framework",
            "magisk.launch",
            "magisk.clipboard",
            "magisk.notifications",
        ]
    );
    assert!(made
        .iter()
        .all(|registration| registration.source_generation == 1
            && registration.state == CapabilityState::Available
            && registration.reason.is_none()));
    assert!(!made[0].has_executor && made[1].has_executor);
    assert_eq!(actions.len(), 8);
}

#[test]
fn a_host_without_a_guard_is_unavailable() {
    let (host, actions) = HostFacts::activate(facts(false, false));
    assert!(!host.guard_ready);
    assert_eq!(
        actions.last(),
        Some(&HostAction::SetUnavailable("CLEANUP_UNVERIFIED"))
    );
    let made = registrations(&actions);
    assert_eq!(made[1].reason, Some("CLEANUP_UNVERIFIED"));
    assert_eq!(made[4].reason, Some("HELPER_UNAVAILABLE"));
    assert_eq!(made[5].reason, Some("HELPER_UNAVAILABLE"));
    assert!(!made[1].has_executor);
}

#[test]
fn what_is_lost_is_registered_anew() {
    let (mut host, _) = HostFacts::activate(facts(true, true));
    assert!(host.refresh_scheduler(false).unwrap().is_empty());
    let lost = registrations(&host.refresh_scheduler(true).unwrap());
    assert_eq!(lost.len(), 1);
    assert_eq!(lost[0].key, "magisk.wake_alarm");
    assert_eq!(lost[0].source_generation, 2);
    assert!(host.refresh_scheduler(true).unwrap().is_empty());
    let quarantined = host.refresh_quarantine(true).unwrap();
    assert_eq!(
        quarantined[0],
        HostAction::SetUnavailable("CLEANUP_UNVERIFIED")
    );
    assert_eq!(registrations(&quarantined)[1].source_generation, 3);
    assert!(!host.guard_ready);
    assert!(host.refresh_quarantine(true).unwrap().is_empty());
    let gone = host.refresh_module(false).unwrap();
    assert_eq!(gone[0], HostAction::SetUnavailable("MODULE_UNAVAILABLE"));
    let back = host.refresh_module(true).unwrap();
    let made = registrations(&back);
    assert_eq!(made[0].state, CapabilityState::Available);
    assert_eq!(made[1].reason, Some("MODULE_OR_GUARD_UNAVAILABLE"));
    assert!(!host.guard_ready);
}

#[test]
fn a_helper_comes_and_goes_by_generation() {
    let (mut host, _) = HostFacts::activate(facts(true, false));
    match host.refresh_helper(false, FamilyFlags::none(), false).unwrap() {
        HelperStep::Publish(actions) => assert!(actions.is_empty()),
        HelperStep::Start(_) => panic!("the framework has not booted"),
    }
    match host.refresh_helper(false, FamilyFlags::none(), true).unwrap() {
        HelperStep::Start(generation) => assert_eq!(generation, 2),
        HelperStep::Publish(_) => panic!("a helper is started"),
    }
    let started = registrations(&host.helper_started(ALL).unwrap());
    assert_eq!(started.len(), 4);
    assert!(started.iter().all(|made| made.state == CapabilityState::Available));
    let denied = FamilyFlags {
        clipboard: true,
        ..FamilyFlags::none()
    };
    match host.refresh_helper(true, denied, true).unwrap() {
        HelperStep::Publish(actions) => {
            let made = registrations(&actions);
            assert_eq!(made[2].reason, Some("OPERATION_DENIED"));
            assert_eq!(made[1].reason, None);
        }
        HelperStep::Start(_) => panic!("the helper lives"),
    }
    let handle = host.executor(id(1), 3, id(7)).unwrap();
    assert_eq!(handle.fence().source_generation, 3);
    match host.refresh_helper(false, denied, true).unwrap() {
        HelperStep::Publish(actions) => assert_eq!(actions[0], HostAction::WithdrawHelper),
        HelperStep::Start(_) => panic!("the helper is given up first"),
    }
    assert!(!host.helper);
    assert_eq!(code(host.executor(id(1), 0, id(7))), Some(ErrorCode::InvalidArgument));
}

#[test]
fn a_failed_recovery_takes_the_guard_away() {
    let (mut host, _) = HostFacts::activate(facts(true, true));
    let actions = host.recovery_failed().unwrap();
    assert!(!host.guard_ready);
    assert_eq!(registrations(&actions).len(), 2);
    assert_eq!(
        actions.last(),
        Some(&HostAction::SetUnavailable("CLEANUP_UNVERIFIED"))
    );
    assert_eq!(recovery_proof(true), RecoveryProof::Clean);
    assert!(recovery_proof(false).withdraws_readiness());
}

#[test]
fn work_that_has_not_ended_is_counted() {
    let work = outstanding_work(
        &[
            TaskState::Created,
            TaskState::Queued,
            TaskState::Running,
            TaskState::Completed,
            TaskState::Interrupted,
        ],
        &[
            AutomationExecutionState::Queued,
            AutomationExecutionState::Failed,
        ],
        2,
    );
    assert_eq!(work.tasks, 3);
    assert_eq!(work.automation_executions, 1);
    assert_eq!(work.synchronous_executions, 1);
    assert!(outstanding_work(&[], &[], 0).is_idle());
}

#[test]
fn only_the_status_is_told_during_a_transition() {
    assert!(check_admission(true, false).is_ok());
    assert!(check_admission(false, true).is_ok());
    assert_eq!(
        code(check_admission(false, false)),
        Some(ErrorCode::HostTransitionPending)
    );
    assert_eq!(system_time_ms(5).unwrap(), 5);
    assert_eq!(code(system_time_ms(-1)), Some(ErrorCode::InternalError));
    let fence = |instance: u8| Fence {
        runtime_epoch: id(1),
        host_generation: 3,
        runtime_instance_id: id(instance),
    };
    assert!(check_activation(&fence(7), &fence(7)).is_ok());
    assert_eq!(
        code(check_activation(&fence(7), &fence(8))),
        Some(ErrorCode::StaleAuthority)
    );
}

#[test]
fn the_source_of_network_events_follows_the_app() {
    let mut selection = NetworkEventSelection::new();
    assert_eq!(
        code(selection.check_start()),
        Some(ErrorCode::CapabilityUnavailable)
    );
    assert!(selection.use_companion());
    assert!(!selection.use_companion());
    assert!(selection.check_start().is_ok() && selection.tells_stop());
    selection.disconnect();
    assert!(!selection.tells_stop());
    assert!(selection.use_native());
    assert!(!selection.use_native());
}

#[test]
fn a_helper_is_started_within_its_time() {
    assert_eq!(helper_socket_name(35), "framework-api35.sock");
    assert_eq!(
        helper_arguments(35, 2),
        vec![
            "/system/bin".to_owned(),
            "com.droidbridge.helper.DroidBridgeFrameworkHelper".to_owned(),
            "3".to_owned(),
            "35".to_owned(),
            "2".to_owned(),
        ]
    );
    assert_eq!(connect_step(ConnectAttempt::Connected, true, 9_999).unwrap(), true);
    assert_eq!(connect_step(ConnectAttempt::NotListening, false, 4_999).unwrap(), false);
    assert!(connect_step(ConnectAttempt::NotListening, false, 5_000).is_err());
    assert!(connect_step(ConnectAttempt::NotListening, true, 0).is_err());
    assert!(connect_step(ConnectAttempt::Failed, false, 0).is_err());
    assert!(check_stale_socket(false).is_err());
    assert_eq!(probe_operation(HelperFamily::Clipboard), "probe");
    assert_eq!(probe_deadline(40), Some(100));
    assert_eq!(probe_deadline(i64::MAX), None);
}

#[test]
fn the_last_line_of_a_kind_counts() {
    assert_eq!(
        property_line("id=a\r\nid=b\nversionCode=1", "id="),
        Some("b".to_owned())
    );
    assert_eq!(property_line("x\n", "id="), None);
    assert_eq!(property_line("id=a\r", "id="), Some("a\r".to_owned()));
    let stable = ModuleIdentity::stable();
    assert_eq!(
        parse_module_property("id=droidbridge\nversion=3.0.0\nversionCode=3000\n", &stable)
            .unwrap(),
        3_000
    );
    let missing = parse_module_property("id=droidbridge\nversionCode=1\nversionCode=x\n", &stable);
    assert_eq!(missing.unwrap_err().reason, "module version is missing");
    let other = parse_module_property("id=other\nversionCode=1\n", &stable);
    assert_eq!(other.unwrap_err().reason, "module id does not match daemon build");
}

#[test]
fn a_module_is_observed_in_its_directories() {
    let facts = ModuleFacts {
        stable_directory: true,
        stable_removed: false,
        debug_directory: true,
        debug_removed: true,
        disabled: false,
        removed: false,
        metadata_self_test: true,
        excluded: false,
    };
    let stable = ModuleIdentity::stable();
    let observed =
        observe_module(Some("id=droidbridge\nversionCode=3000\n"), &stable, &facts).unwrap();
    assert!(observed.stable_present && !observed.debug_present && observed.enabled);
    assert!(observed.readiness(&stable, 3_000).is_ok());
    assert_eq!(code(observe_module(None, &stable, &facts)), Some(ErrorCode::IoError));
}

#[test]
fn a_property_is_what_the_query_prints() {
    assert_eq!(fixed_property(b" 35\n", true).unwrap(), "35");
    assert_eq!(
        fixed_property(b"35\n", false).unwrap_err().reason,
        "Android property query failed"
    );
    assert_eq!(
        fixed_property(b" \n", true).unwrap_err().reason,
        "Android property is empty"
    );
    assert!(fixed_property(&[0xff], true).is_err());
    assert!(boot_completed(&Ok("1".to_owned())));
    assert!(!boot_completed(&Ok("0".to_owned())));
    assert!(!boot_completed(&fixed_property(b"", true)));
    assert_eq!(sdk_level("33").unwrap(), 33);
    assert_eq!(sdk_level("37").unwrap(), 37);
    assert!(sdk_level("32").is_err() && sdk_level("38").is_err() && sdk_level("x").is_err());
}

#[test]
fn what_was_lost_does_not_come_back() {
    let (mut host, _) = HostFacts::activate(facts(true, true));
    host.refresh_scheduler(true).unwrap();
    assert!(!host.wake_alarm_ready);
    host.refresh_scheduler(false).unwrap();
    host.refresh_module(false).unwrap();
    assert!(!host.guard_ready);
    assert!(!host.module_ready);
    host.refresh_module(true).unwrap();
    host.refresh_quarantine(false).unwrap();
    assert!(host.module_ready);
    assert!(!host.guard_ready);
    assert!(!host.wake_alarm_ready);
}
