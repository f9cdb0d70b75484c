use droidbridge::contract::common::{ErrorCode, RuntimeHost, UuidV4};
use droidbridge::daemon::host::{
    canonical_directory_matches, parse_version_part, version_code, CanonicalDirectoryIdentity,
    ExecutionGuardState, HostCoordinator, OutstandingWork, PromotionOutcome, SourceGeneration,
    WakeAlarmProbe, VERSION_CODE,
};

const IDLE: OutstandingWork = OutstandingWork {
    tasks: 0,
    automation_executions: 0,
    synchronous_executions: 0,
};

fn id(value: u8) -> UuidV4 {
    UuidV4::parse(format!("00000000-0000-4000-8000-{value:012x}")).unwrap()
}

#[test]
fn i7_g01_replaced_or_missing_canonical_directory_deactivates_daemon() {
    let expected = CanonicalDirectoryIdentity {
        device: 11,
        inode: 22,
        uid: 33,
    };

    assert!(canonical_directory_matches(expected, Some(expected)));
    assert!(!canonical_directory_matches(expected, None));
    assert!(!canonical_directory_matches(
        expected,
        Some(CanonicalDirectoryIdentity {
            device: 12,
            ..expected
        }),
    ));
    assert!(!canonical_directory_matches(
        expected,
        Some(CanonicalDirectoryIdentity {
            inode: 23,
            ..expected
        }),
    ));
    assert!(!canonical_directory_matches(
        expected,
        Some(CanonicalDirectoryIdentity {
            uid: 34,
            ..expected
        }),
    ));
}

#[test]
fn a_version_is_one_number() {
    assert_eq!(parse_version_part("3"), 3);
    assert_eq!(parse_version_part("120"), 120);
    assert_eq!(version_code(3, 0, 0), VERSION_CODE);
    assert_eq!(version_code(1, 2, 3), 1_002_003);
}

#[test]
fn a_generation_only_grows() {
    let mut generation = SourceGeneration::initial();
    assert_eq!(generation.current(), 1);
    assert_eq!(generation.advance().unwrap(), 2);
    assert_eq!(generation.current(), 2);
}

#[test]
fn a_wake_alarm_needs_every_step() {
    let mut probe = WakeAlarmProbe::default();
    assert!(!probe.available());
    probe.created = true;
    probe.clock_read = true;
    probe.armed = true;
    assert!(!probe.available());
    probe.disarmed = true;
    assert!(probe.available());
}

#[test]
fn a_host_is_handed_over_once() {
    let mut coordinator = HostCoordinator::new(RuntimeHost::MagiskBackend, 4, id(1));
    assert!(coordinator.admission_open());
    let busy = OutstandingWork { tasks: 1, ..IDLE };
    let refused = coordinator
        .prepare(id(2), RuntimeHost::ApkRuntime, busy, 9)
        .unwrap_err();
    assert_eq!(refused.code, ErrorCode::HostTransitionPending);
    assert!(coordinator
        .prepare(id(2), RuntimeHost::MagiskBackend, IDLE, 9)
        .is_err());
    let prepared = coordinator
        .prepare(id(2), RuntimeHost::ApkRuntime, IDLE, 9)
        .unwrap();
    assert_eq!(prepared.store_revision, 9);
    assert!(!coordinator.admission_open());
    assert!(coordinator.abort(&id(3)).is_err());
    coordinator.abort(&id(2)).unwrap();
    assert!(coordinator.admission_open());
    coordinator
        .prepare(id(5), RuntimeHost::ApkRuntime, IDLE, 10)
        .unwrap();
    assert!(coordinator.release(&id(2)).is_err());
    coordinator.release(&id(5)).unwrap();
    assert!(!coordinator.admission_open());
    assert!(coordinator
        .prepare(id(6), RuntimeHost::ApkRuntime, IDLE, 11)
        .is_err());
}

#[test]
fn an_optional_promotion_waits_for_an_idle_host() {
    let mut coordinator = HostCoordinator::new(RuntimeHost::ApkRuntime, 1, id(1));
    let busy = OutstandingWork {
        synchronous_executions: 1,
        ..IDLE
    };
    let outcome = coordinator.optional_promotion(id(2), busy, 1);
    assert!(outcome.is_deferred());
    assert!(coordinator.admission_open());
    let outcome = coordinator.optional_promotion(id(2), IDLE, 1);
    assert!(matches!(outcome, PromotionOutcome::Prepared(_)));
}

#[test]
fn a_dead_guard_blocks_until_the_device_restarts() {
    let mut state = ExecutionGuardState::Running;
    assert!(!state.blocks_admission());
    state.observe_guard_death();
    assert!(state.blocks_admission());
    state.observe_reboot();
    assert!(!state.blocks_admission());
}
