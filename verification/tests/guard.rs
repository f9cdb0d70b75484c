use droidbridge::contract::common::UuidV4;
use droidbridge::daemon::command::{GuardClean, GuardCleanCause, GuardRecovery};
use droidbridge::daemon::guard::{
    cleanup_task, execute_guard_recovery, finish_verdict, guard_proof_capacity_available,
    guard_works, is_same_process, marker_name, metadata_applied, new_uuid, parse_boot_id,
    parse_start_ticks, probe_arguments, probe_is_clean, record_boot, touch_directory, BootListing,
    CleanGuardRecord, GuardFinalizationDisposition, GuardProbe, GuardRecoveryPlan,
    MagiskGuardRecoveryMechanics, ProbeChild, ProbeStep, ProbeWait, ProofEntry, ProofListing,
};
use droidbridge::error::DomainError;

struct FailingMechanics;

impl MagiskGuardRecoveryMechanics for FailingMechanics {
    fn finalize(&mut self, _record: &CleanGuardRecord) -> Result<(), DomainError> {
        Err(DomainError::invalid("metadata failure"))
    }

    fn finish(&mut self, _had_records: bool) -> Result<(), DomainError> {
        Err(DomainError::invalid("metadata failure"))
    }
}

struct WorkingMechanics {
    finished: Option<bool>,
}

impl MagiskGuardRecoveryMechanics for WorkingMechanics {
    fn finalize(&mut self, _record: &CleanGuardRecord) -> Result<(), DomainError> {
        Ok(())
    }

    fn finish(&mut self, had_records: bool) -> Result<(), DomainError> {
        self.finished = Some(had_records);
        Ok(())
    }
}

#[test]
fn i7_g11_mechanics_failure_cannot_construct_cleanup_verification() {
    let plan = GuardRecoveryPlan {
        guards_are_clean: true,
        records: Vec::new(),
    };
    assert!(execute_guard_recovery(&plan, &mut FailingMechanics).is_err());
}

#[test]
fn a_clean_recovery_is_verified() {
    let plan = GuardRecoveryPlan {
        guards_are_clean: true,
        records: Vec::new(),
    };
    let mut mechanics = WorkingMechanics { finished: None };
    assert!(execute_guard_recovery(&plan, &mut mechanics).is_ok());
    assert_eq!(mechanics.finished, Some(false));
    let unclean = GuardRecoveryPlan {
        guards_are_clean: false,
        records: Vec::new(),
    };
    assert!(execute_guard_recovery(&unclean, &mut WorkingMechanics { finished: None }).is_err());
}

#[test]
fn the_start_of_a_process_follows_its_name() {
    let mut fields = vec!["123 (a b) c)".to_owned(), "S".to_owned()];
    for number in 4..=22 {
        fields.push(number.to_string());
    }
    let stat = fields.join(" ");
    assert_eq!(parse_start_ticks(&stat).unwrap(), 22);
    assert!(parse_start_ticks("123 (name").is_err());
    assert!(parse_start_ticks("123 (name) S 1 2").is_err());
}

#[test]
fn a_boot_is_named_by_an_identifier() {
    let text = "0b3a3f5e-7a66-4c57-9d19-0e6f2d7a1b10";
    let boot = parse_boot_id("0b3a3f5e-7a66-4c57-9d19-0e6f2d7a1b10\n").unwrap();
    assert_eq!(boot.as_str(), text);
    assert!(parse_boot_id("not a boot").is_err());
}

#[test]
fn new_identifiers_differ_and_read_back() {
    let first = new_uuid().unwrap();
    let second = new_uuid().unwrap();
    assert_ne!(first.as_str(), second.as_str());
    assert!(UuidV4::parse(first.as_str().to_owned()).is_ok());
}

#[test]
fn a_guard_works_only_if_every_probe_does() {
    assert!(guard_works(true, true, true, true));
    assert!(!guard_works(true, true, true, false));
    assert!(!guard_works(true, true, false, true));
    assert!(!guard_works(true, false, true, true));
    assert!(!guard_works(false, true, true, true));
    assert!(finish_verdict(true, false, true).is_ok());
    assert!(finish_verdict(false, true, true).is_err());
}

fn record(finalization: GuardFinalizationDisposition) -> CleanGuardRecord {
    CleanGuardRecord {
        execution_id: new_uuid().unwrap(),
        task_id: None,
        containing_boot_id: None,
        recovery: GuardRecovery::Unverified,
        finalization,
    }
}

#[test]
fn a_blocked_record_keeps_a_recovery_unverified() {
    let plan = GuardRecoveryPlan {
        guards_are_clean: true,
        records: vec![
            record(GuardFinalizationDisposition::RemoveProof),
            record(GuardFinalizationDisposition::Blocked),
        ],
    };
    let mut mechanics = WorkingMechanics { finished: None };
    assert_eq!(
        execute_guard_recovery(&plan, &mut mechanics).unwrap_err().reason,
        "root guard finalization is unverified"
    );
    assert!(cleanup_task(&plan.records[1]).is_err());
    assert_eq!(cleanup_task(&plan.records[0]).unwrap(), None);
    let task = record(GuardFinalizationDisposition::CleanupTaskTemporaryAndRemoveProof);
    assert!(cleanup_task(&task).is_err());
    assert!(record_boot(&task).is_err());
    let mut directories = Vec::new();
    touch_directory(&mut directories, "/a");
    touch_directory(&mut directories, "/b");
    touch_directory(&mut directories, "/a");
    assert_eq!(directories, vec!["/a".to_owned(), "/b".to_owned()]);
}

#[test]
fn proofs_are_kept_within_bounds() {
    let entry = |name: Option<&str>, length: Option<u64>| ProofEntry {
        name: name.map(str::to_owned),
        length,
    };
    let listing = |entries: Vec<ProofEntry>| {
        ProofListing::Boots(vec![BootListing {
            is_directory: true,
            entries: Some(entries),
        }])
    };
    assert!(guard_proof_capacity_available(&ProofListing::Missing, 1));
    assert!(!guard_proof_capacity_available(&ProofListing::Unreadable, 1));
    let full = listing(vec![entry(Some("a.proof"), Some(1_572_800))]);
    assert!(guard_proof_capacity_available(&full, 64));
    assert!(!guard_proof_capacity_available(&full, 65));
    let other = listing(vec![entry(Some("a.ready"), None)]);
    assert!(guard_proof_capacity_available(&other, 64));
    assert!(!guard_proof_capacity_available(&listing(vec![entry(None, Some(1))]), 64));
    assert!(!guard_proof_capacity_available(
        &listing(vec![entry(Some("a.proof"), None)]),
        64
    ));
    let many = |count: usize| {
        listing((0..count).map(|_| entry(Some("a.proof"), Some(0))).collect())
    };
    assert!(guard_proof_capacity_available(&many(383), 64));
    assert!(!guard_proof_capacity_available(&many(384), 64));
}

#[test]
fn a_probe_plays_both_ends() {
    let mut wait = ProbeWait::new(GuardProbe::OwnerLost, 0);
    assert_eq!(wait.step(1_999, false, ProbeChild::Ended(true)), ProbeStep::Sleep(10));
    assert_eq!(wait.step(1_999, true, ProbeChild::Running), ProbeStep::ReleaseOwner);
    assert_eq!(wait.step(2_000, true, ProbeChild::Running), ProbeStep::Sleep(20));
    assert_eq!(wait.step(9_999, true, ProbeChild::Running), ProbeStep::GiveUp);
    assert_eq!(wait.step(9_999, true, ProbeChild::Ended(true)), ProbeStep::Settle(true));
    assert!(matches!(
        wait.step(9_999, true, ProbeChild::Unobservable),
        ProbeStep::Failed(_)
    ));
    let mut late = ProbeWait::new(GuardProbe::OwnerLost, 0);
    assert_eq!(late.step(2_000, false, ProbeChild::Running), ProbeStep::GiveUp);
    let clean = |cause| GuardRecovery::Clean {
        clean: Some(GuardClean {
            cause,
            shell_exit_code: None,
        }),
    };
    assert!(probe_is_clean(
        GuardProbe::OwnerLost,
        &clean(GuardCleanCause::OwnerLost),
        true
    ));
    assert!(!probe_is_clean(
        GuardProbe::ChildExit,
        &clean(GuardCleanCause::OwnerLost),
        true
    ));
    assert!(!probe_is_clean(GuardProbe::ChildExit, &GuardRecovery::Live, true));
    assert_eq!(marker_name("x"), "x.ready");
    assert_eq!(
        probe_arguments(GuardProbe::OwnerLost, 3, 4, "/g", "/m").join(" "),
        "--proof-fd 3 --lifetime-fd 4 -- /g --probe-owner-death-child /m"
    );
    assert_eq!(
        probe_arguments(GuardProbe::ChildExit, 3, 4, "/g", "/m").join(" "),
        "--proof-fd 3 --lifetime-fd 4 -- /g --probe-child"
    );
}

#[test]
fn a_process_is_the_recorded_one_by_its_start() {
    let error = DomainError::invalid("unreadable");
    assert_eq!(is_same_process(Ok(5), true, 5), Ok(true));
    assert_eq!(is_same_process(Ok(6), true, 5), Ok(false));
    assert_eq!(is_same_process(Err(error), false, 5), Ok(false));
    assert_eq!(is_same_process(Err(error), true, 5), Err(error));
    assert!(metadata_applied((0, 1), (0, 1), 0o600, 0o100_600).is_ok());
    assert!(metadata_applied((0, 1), (0, 2), 0o600, 0o600).is_err());
    assert!(metadata_applied((0, 1), (0, 1), 0o600, 0o640).is_err());
}

#[derive(Debug, PartialEq)]
enum Call {
    Finalize(UuidV4),
    Finish(bool),
}

struct LoggingMechanics {
    calls: Vec<Call>,
    refused: Option<UuidV4>,
}

impl MagiskGuardRecoveryMechanics for LoggingMechanics {
    fn finalize(&mut self, record: &CleanGuardRecord) -> Result<(), DomainError> {
        self.calls.push(Call::Finalize(record.execution_id.clone()));
        if self.refused == Some(record.execution_id.clone()) {
            return Err(DomainError::invalid("metadata failure"));
        }
        Ok(())
    }

    fn finish(&mut self, had_records: bool) -> Result<(), DomainError> {
        self.calls.push(Call::Finish(had_records));
        Ok(())
    }
}

#[test]
fn a_recovery_hands_over_what_is_due_and_ends_once() {
    let plan = GuardRecoveryPlan {
        guards_are_clean: true,
        records: vec![
            record(GuardFinalizationDisposition::RemoveProof),
            record(GuardFinalizationDisposition::RemoveProof),
        ],
    };
    let ids: Vec<UuidV4> = plan.records.iter().map(|it| it.execution_id.clone()).collect();
    let expected = || {
        vec![
            Call::Finalize(ids[0].clone()),
            Call::Finalize(ids[1].clone()),
            Call::Finish(true),
        ]
    };
    let mut mechanics = LoggingMechanics { calls: Vec::new(), refused: None };
    assert!(execute_guard_recovery(&plan, &mut mechanics).is_ok());
    assert_eq!(mechanics.calls, expected());
    let mut refusing = LoggingMechanics { calls: Vec::new(), refused: Some(ids[0].clone()) };
    assert!(execute_guard_recovery(&plan, &mut refusing).is_err());
    assert_eq!(refusing.calls, expected());
    let mixed = GuardRecoveryPlan {
        guards_are_clean: true,
        records: vec![
            record(GuardFinalizationDisposition::Blocked),
            record(GuardFinalizationDisposition::RemoveProof),
        ],
    };
    let mut mechanics = LoggingMechanics { calls: Vec::new(), refused: None };
    assert!(execute_guard_recovery(&mixed, &mut mechanics).is_err());
    assert_eq!(
        mechanics.calls,
        vec![Call::Finalize(mixed.records[1].execution_id.clone()), Call::Finish(true)]
    );
    let unclean = GuardRecoveryPlan { guards_are_clean: false, records: plan.records };
    let mut untouched = LoggingMechanics { calls: Vec::new(), refused: None };
    assert!(execute_guard_recovery(&unclean, &mut untouched).is_err());
    assert!(untouched.calls.is_empty());
}
