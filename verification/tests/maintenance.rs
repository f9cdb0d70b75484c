use droidbridge::contract::common::{ErrorCode, UuidV4};
use droidbridge::contract::internal::MaintenanceInstallModule;
use droidbridge::daemon::command::{
    CommandProcessCause, CommandProcessOutcome, CommandProcessSettlement,
};
use droidbridge::daemon::maintenance::{
    check_artifact, check_artifact_file, error_json, install_command, installed_provider,
    module_install_command_for, read_record, read_root_provider, staging_path, InstallKind,
    InstallPayload, InstallStep, MaintenanceAttempts, MaintenanceRecord, RecordFile, RootProvider,
};
use droidbridge::daemon::protocol::ModuleIdentity;
use droidbridge::error::DomainError;
use droidbridge::json::{json_text, Json, Member};

#[test]
fn a_module_without_a_provider_record_follows_the_installed_manager() {
    assert!(matches!(
        installed_provider(true, false, false),
        Ok(RootProvider::APatch)
    ));
    assert!(matches!(
        installed_provider(false, true, false),
        Ok(RootProvider::KernelSu)
    ));
    assert!(matches!(
        installed_provider(false, false, true),
        Ok(RootProvider::Magisk)
    ));
    for ambiguous in [
        (true, true, true),
        (false, true, true),
        (false, false, false),
    ] {
        assert_eq!(
            installed_provider(ambiguous.0, ambiguous.1, ambiguous.2)
                .err()
                .map(|error| error.code),
            Some(ErrorCode::CapabilityUnavailable),
        );
    }
}

#[test]
fn a_recorded_provider_is_read_with_or_without_its_newline() {
    for (contents, expected) in [
        ("kernelsu\n", RootProvider::KernelSu),
        ("kernelsu", RootProvider::KernelSu),
        ("magisk\n", RootProvider::Magisk),
        ("apatch\n", RootProvider::APatch),
    ] {
        assert_eq!(
            read_root_provider(Some(contents.as_bytes()), false, false, false).unwrap(),
            expected
        );
    }
    assert_eq!(
        read_root_provider(Some("supersu\n".as_bytes()), false, false, false)
            .err()
            .map(|error| error.code),
        Some(ErrorCode::CapabilityUnavailable),
    );
}

#[test]
fn root_providers_use_their_native_module_installers() {
    assert_eq!(
        module_install_command_for(
            RootProvider::Magisk,
            "/data/local/tmp/update.zip".to_owned(),
        ),
        (
            "/system/bin/magisk",
            vec![
                "--install-module".to_owned(),
                "/data/local/tmp/update.zip".to_owned(),
            ],
        ),
    );
    assert_eq!(
        module_install_command_for(
            RootProvider::KernelSu,
            "/data/local/tmp/update.zip".to_owned(),
        ),
        (
            "/data/adb/ksud",
            vec![
                "module".to_owned(),
                "install".to_owned(),
                "/data/local/tmp/update.zip".to_owned(),
            ],
        ),
    );
    assert_eq!(
        module_install_command_for(
            RootProvider::APatch,
            "/data/local/tmp/update.zip".to_owned(),
        ),
        (
            "/data/adb/ap/bin/apd",
            vec![
                "module".to_owned(),
                "install".to_owned(),
                "/data/local/tmp/update.zip".to_owned(),
            ],
        ),
    );
}

#[test]
fn a_missing_record_falls_back_to_the_manager() {
    assert_eq!(
        read_root_provider(None, false, true, false).unwrap(),
        RootProvider::KernelSu
    );
    assert!(read_root_provider(None, false, false, false).is_err());
}

#[test]
fn an_artifact_is_what_its_digest_names() {
    let digest = "ba7816bf8f01cfea414140de5dae2223b00361a396177a9cb410ff61f20015ad";
    assert!(check_artifact(b"abc", 3, digest).is_ok());
    assert!(check_artifact(b"abd", 3, digest).is_err());
    assert!(check_artifact(b"abc", 4, digest).is_err());
    assert!(check_artifact(b"abc", 3, &digest.to_uppercase()).is_err());
    assert!(check_artifact_file(true, 3, 3).is_ok());
    assert!(check_artifact_file(true, 2, 3).is_err());
    assert!(check_artifact_file(false, 3, 3).is_err());
}

#[test]
fn a_failure_is_a_reply() {
    assert_eq!(
        json_text(&error_json(ErrorCode::StaleAuthority)),
        r#"{"error":{"code":"STALE_AUTHORITY","retryable":false}}"#
    );
}

fn id(value: u8) -> UuidV4 {
    UuidV4::parse(format!("00000000-0000-4000-8000-{value:012x}")).unwrap()
}

fn record(execution: u8) -> MaintenanceRecord {
    MaintenanceRecord {
        schema_version: 1,
        update_id: id(1).as_str().to_owned(),
        kind: "product_update".to_owned(),
        target_version: "3.0.1".to_owned(),
        target_version_code: 3_001,
        target_apk_sha256: None,
        target_apk_size: None,
        target_apk_signer_sha256: "s".to_owned(),
        target_module_sha256: Some("d".to_owned()),
        target_module_size: Some(10),
        maintenance_execution_id: Some(id(execution).as_str().to_owned()),
        requires_module: true,
        apk_install_provider: None,
        phase: "module_installing".to_owned(),
        apk_session_id: None,
    }
}

fn request(execution: u8) -> InstallPayload {
    InstallPayload::Module(MaintenanceInstallModule {
        update_id: id(1),
        execution_id: id(execution),
        module_id: "droidbridge".to_owned(),
        version_code: 3_001,
        sha256: "d".to_owned(),
        size: 10,
    })
}

fn settlement(cleanup_verified: bool) -> CommandProcessSettlement {
    CommandProcessSettlement {
        outcome: CommandProcessOutcome {
            cause: CommandProcessCause::Exited,
            exit_code: Some(0),
            stdout: Vec::new(),
            stdout_truncated: false,
            stderr: Vec::new(),
            stderr_truncated: false,
        },
        cleanup_verified,
    }
}

#[test]
fn an_attempt_is_answered_again_and_not_made_again() {
    let mut attempts = MaintenanceAttempts::default();
    let identity = ModuleIdentity::stable();
    let roles = vec!["verified_module_zip".to_owned()];
    let payload = Json::Unsigned(1);
    let prepare = |attempts: &MaintenanceAttempts, execution: u8, payload: &Json| {
        attempts.prepare_install(
            &Ok(record(execution)),
            &identity,
            Some(request(execution)),
            payload,
            1,
            &roles,
            true,
        )
    };
    assert_eq!(
        json_text(&attempts.status(Some(&id(1)), &Ok(record(2)))),
        [
            r#"{"cleanup":"none","install_active":false,"#,
            r#""update_id":"00000000-0000-4000-8000-000000000001"}"#,
        ]
        .concat()
    );
    let target = match prepare(&attempts, 2, &payload).unwrap() {
        InstallStep::Launch(target) => target,
        InstallStep::Replay(_) => panic!("the first attempt is made"),
    };
    assert_eq!(
        staging_path(&target),
        "/data/local/tmp/droidbridge-maintenance-00000000-0000-4000-8000-000000000002.zip"
    );
    let reply = attempts.settle_install(&target, &payload, Ok(settlement(true)), true);
    assert_eq!(
        json_text(&reply),
        [
            r#"{"cleanup":"clean","execution_id":"00000000-0000-4000-8000-000000000002","#,
            r#""process_exit_code":0,"update_id":"00000000-0000-4000-8000-000000000001"}"#,
        ]
        .concat()
    );
    match prepare(&attempts, 2, &payload).unwrap() {
        InstallStep::Replay(again) => assert_eq!(again, reply),
        InstallStep::Launch(_) => panic!("an attempt is made once"),
    }
    assert_eq!(
        prepare(&attempts, 2, &Json::Unsigned(2)).unwrap_err().reason,
        "maintenance attempt payload changed"
    );
    let next = match prepare(&attempts, 3, &payload).unwrap() {
        InstallStep::Launch(target) => target,
        InstallStep::Replay(_) => panic!("another attempt is made"),
    };
    let reply = attempts.settle_install(&next, &payload, Ok(settlement(false)), true);
    assert_eq!(reply, error_json(ErrorCode::IoError));
    assert_eq!(
        prepare(&attempts, 4, &payload).unwrap_err().reason,
        "prior maintenance attempt cleanup is unverified"
    );
    assert_eq!(
        attempts
            .status(Some(&id(1)), &Ok(record(3)))
            .get("cleanup"),
        Some(&Json::Text("unverified".to_owned()))
    );
    assert_eq!(
        attempts.status(Some(&id(9)), &Ok(record(3))),
        error_json(ErrorCode::StaleAuthority)
    );
    assert_eq!(
        attempts.status(None, &Ok(record(3))),
        error_json(ErrorCode::InvalidArgument)
    );
}

#[test]
fn a_request_has_to_match_its_record() {
    let attempts = MaintenanceAttempts::default();
    let identity = ModuleIdentity::stable();
    let role = vec!["verified_module_zip".to_owned()];
    let refused = |record: Result<MaintenanceRecord, DomainError>,
                   decoded: Option<InstallPayload>,
                   roles: &[String],
                   has_instance: bool| {
        attempts
            .prepare_install(
                &record,
                &identity,
                decoded,
                &Json::Null,
                1,
                roles,
                has_instance,
            )
            .unwrap_err()
            .reason
    };
    assert_eq!(
        refused(Ok(record(2)), None, &role, true),
        "invalid maintenance payload"
    );
    assert_eq!(
        refused(Ok(record(2)), Some(request(3)), &role, true),
        "maintenance record does not name this attempt"
    );
    let mut other = record(2);
    other.target_module_size = Some(11);
    assert_eq!(
        refused(Ok(other), Some(request(2)), &role, true),
        "maintenance request does not match the signed record"
    );
    assert_eq!(
        refused(Ok(record(2)), Some(request(2)), &[], true),
        "maintenance artifact descriptor role is invalid"
    );
    assert_eq!(
        refused(Ok(record(2)), Some(request(2)), &role, false),
        "maintenance request carries no APK Runtime instance"
    );
    assert_eq!(
        refused(read_record(RecordFile::Missing), Some(request(2)), &role, true),
        "no update maintenance is recorded"
    );
    let mut unknown = record(2);
    unknown.schema_version = 2;
    for file in [RecordFile::Unreadable, RecordFile::Malformed, RecordFile::Read(unknown)] {
        assert_eq!(read_record(file).unwrap_err().code, ErrorCode::IoError);
    }
    let (program, arguments) = install_command(
        InstallKind::Apk,
        "/x.apk".to_owned(),
        Err(DomainError::invalid("none")),
    )
    .unwrap();
    assert_eq!(program, "/system/bin/pm");
    assert_eq!(arguments.join(" "), "install -r --user 0 /x.apk");
    assert!(install_command(
        InstallKind::Module,
        "/x.zip".to_owned(),
        Err(DomainError::invalid("none"))
    )
    .is_err());
}

#[test]
fn the_order_of_the_members_does_not_change_an_attempt() {
    let mut attempts = MaintenanceAttempts::default();
    let identity = ModuleIdentity::stable();
    let roles = vec!["verified_module_zip".to_owned()];
    let read = |text: &str| Json::parse(text.as_bytes()).unwrap();
    let member = |key: &str, value: Json| Member { key: key.to_owned(), value };
    let prepare = |attempts: &MaintenanceAttempts, payload: &Json| {
        attempts.prepare_install(
            &Ok(record(2)),
            &identity,
            Some(request(2)),
            payload,
            1,
            &roles,
            true,
        )
    };
    let payload = read(r#"{"a":1,"b":{"c":2,"d":[3]}}"#);
    let target = match prepare(&attempts, &payload).unwrap() {
        InstallStep::Launch(target) => target,
        InstallStep::Replay(_) => panic!("the first attempt is made"),
    };
    let reply = attempts.settle_install(&target, &payload, Ok(settlement(true)), true);
    let inner = vec![
        member("d", Json::Array(vec![Json::Unsigned(3)])),
        member("c", Json::Unsigned(2)),
    ];
    let turned = Json::Object(vec![
        member("b", Json::Object(inner)),
        member("a", Json::Unsigned(1)),
    ]);
    match prepare(&attempts, &turned).unwrap() {
        InstallStep::Replay(again) => assert_eq!(again, reply),
        InstallStep::Launch(_) => panic!("an attempt is made once"),
    }
    assert_eq!(
        prepare(&attempts, &read(r#"{"a":1,"b":{"c":2,"d":[4]}}"#)).unwrap_err().reason,
        "maintenance attempt payload changed"
    );
}
