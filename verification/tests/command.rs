use droidbridge::contract::common::{ErrorCode, UuidV4};
use droidbridge::contract::tools::RunAs;
use droidbridge::daemon::command::{
    check_guard, check_proof_admission, check_visual_output, command_route, command_settlement,
    drain_poll_ms, drain_step, file_drain_step, forward_payload, forward_reply, guard_arguments,
    guard_path, maintenance_request, package_request, package_result, proof_directory,
    proof_is_final, proof_is_unstarted, proof_name, settle, stream_limit, unstarted,
    visual_command, visual_result, working_directory, BoundedStream, ChildState, CollectAction,
    CommandProcessCause, CommandProcessOutcome, CommandProcessRequest, CommandProcessSettlement,
    CommandQuarantine, CommandRoute, FileDrain, Forward, GuardClean, GuardCleanCause,
    GuardRecovery, GuardSettlement, PackageBounds, PackageRootPrimitive, Reap, ReapAction, Reaped,
    StreamArrival, StreamCollection, StreamEvent, StreamStep, VisualRootPrimitive,
};
use droidbridge::daemon::executor::{
    valid_package_name, MagiskExecutorFence, MagiskExecutorHandle, MagiskPrimitiveFamily,
    PackageListKind, PrimitiveProcessPlan,
};
use droidbridge::error::{DomainError, ExecutionFailure};
use droidbridge::json::{json_text, object, Json};

fn id(value: u8) -> UuidV4 {
    UuidV4::parse(format!("00000000-0000-4000-8000-{value:012x}")).unwrap()
}

fn texts(parts: &[&str]) -> Vec<String> {
    parts.iter().map(|part| (*part).to_owned()).collect()
}

fn outcome(cause: CommandProcessCause, exit_code: Option<i32>) -> CommandProcessSettlement {
    CommandProcessSettlement {
        outcome: CommandProcessOutcome {
            cause,
            exit_code,
            stdout: vec![1],
            stdout_truncated: false,
            stderr: Vec::new(),
            stderr_truncated: false,
        },
        cleanup_verified: false,
    }
}

fn stream(bytes: &[u8]) -> BoundedStream {
    BoundedStream {
        bytes: bytes.to_vec(),
        truncated: false,
    }
}

#[test]
fn package_commands_are_fixed() {
    let bounds = PackageBounds {
        list_timeout_ms: 1,
        list_max_stdout_bytes: 2,
        force_stop_timeout_ms: 3,
    };
    let list = package_request(PackageRootPrimitive::ListSystem, bounds);
    assert_eq!(list.program, "/system/bin/cmd");
    assert_eq!(
        list.arguments,
        texts(&["package", "list", "packages", "-s", "--show-versioncode", "--user", "0"])
    );
    assert_eq!((list.timeout_ms, list.max_output_bytes), (1, 2));
    let stop = package_request(PackageRootPrimitive::ForceStop("a.b".to_owned()), bounds);
    assert_eq!(stop.program, "/system/bin/am");
    assert_eq!(stop.arguments, texts(&["force-stop", "--user", "0", "a.b"]));
    assert_eq!((stop.timeout_ms, stop.max_output_bytes), (3, 1_048_576));
    let install = maintenance_request("/system/bin/pm", texts(&["install"]));
    assert_eq!(install.timeout_ms, 300_000);
    assert_eq!(install.run_as, RunAs::Root);
}

#[test]
fn visual_commands_are_fixed() {
    let tap = visual_command(VisualRootPrimitive::Tap { x: 1, y: 20 });
    assert_eq!(tap.request.arguments, texts(&["tap", "1", "20"]));
    assert!(!tap.requires_output);
    let press = visual_command(VisualRootPrimitive::LongPress { x: 1, y: 2 });
    assert_eq!(press.request.arguments[..5], texts(&["swipe", "1", "2", "1", "2"])[..]);
    let swipe = visual_command(VisualRootPrimitive::Swipe {
        from_x: 1,
        from_y: 2,
        to_x: 3,
        to_y: 4,
        duration_ms: 300,
    });
    assert_eq!(
        swipe.request.arguments,
        texts(&["swipe", "1", "2", "3", "4", "300"])
    );
    assert_eq!(swipe.request.timeout_ms, 5_300);
    let screen = visual_command(VisualRootPrimitive::ScreenshotPng);
    assert_eq!(screen.request.program, "/system/bin/screencap");
    assert!(screen.requires_output);
    let keys = visual_command(VisualRootPrimitive::KeyCombination(vec![113, 29]));
    assert_eq!(
        keys.request.arguments,
        texts(&["keycombination", "113", "29"])
    );
    assert!(check_visual_output(true, true).is_ok());
    assert!(check_visual_output(true, false).is_err());
}

#[test]
fn an_outcome_is_a_result_or_a_failure() {
    let exited = CommandProcessCause::Exited;
    assert_eq!(package_result(outcome(exited, Some(0))).unwrap(), vec![1]);
    let code = |settlement| package_result(settlement).unwrap_err().error.code;
    assert_eq!(code(outcome(exited, Some(1))), ErrorCode::IoError);
    assert_eq!(
        code(outcome(CommandProcessCause::Timeout, None)),
        ErrorCode::Timeout
    );
    assert_eq!(
        code(outcome(CommandProcessCause::OwnerLost, None)),
        ErrorCode::Cancelled
    );
    assert!(visual_result("/system/bin/input", &outcome(exited, Some(0))).is_ok());
    let refused = visual_result("/system/bin/input", &outcome(exited, Some(1)));
    assert_eq!(refused.unwrap_err().error.code, ErrorCode::ExecutionFailed);
    let failed = visual_result("/system/bin/screencap", &outcome(exited, Some(1)));
    assert_eq!(failed.unwrap_err().error.code, ErrorCode::IoError);
}

#[test]
fn a_guard_is_given_its_command() {
    let request = maintenance_request("/system/bin/pm", texts(&["install", "x"]));
    assert_eq!(
        guard_arguments(3, -1, &request),
        texts(&["--proof-fd", "3", "--lifetime-fd", "-1", "--", "/system/bin/pm", "install", "x"])
    );
    assert_eq!(working_directory(&request), "/");
    assert_eq!(guard_path("/m"), "/m/bin/droidbridge-exec-guard");
    assert_eq!(proof_directory("/b", "boot"), "/b/execution-guards/boot");
    assert_eq!(proof_name("x"), "x.proof");
    assert_eq!(stream_limit(7), 7);
    assert!(check_guard(true, true).is_ok() && check_guard(true, false).is_err());
    assert!(check_proof_admission(false, true).is_ok());
    assert!(check_proof_admission(true, true).is_err());
    assert!(check_proof_admission(false, false).is_err());
}

#[test]
fn an_unverified_cleanup_is_quarantined_for_good() {
    let mut quarantine = CommandQuarantine::default();
    let clean = GuardRecovery::Clean {
        clean: Some(GuardClean {
            cause: GuardCleanCause::Exited,
            shell_exit_code: Some(3),
        }),
    };
    assert!(settle(clean, &mut quarantine).cleanup_verified);
    assert!(!quarantine.is_flagged());
    assert!(!settle(GuardRecovery::Clean { clean: None }, &mut quarantine).cleanup_verified);
    assert!(quarantine.is_flagged());
    settle(clean, &mut quarantine);
    assert!(quarantine.is_flagged());
    assert!(proof_is_final(&clean, 0, 9));
    assert!(!proof_is_final(&GuardRecovery::Live, 8, 9));
    assert!(proof_is_final(&GuardRecovery::Live, 9, 9));
    assert!(proof_is_unstarted(&Some(b"head".to_vec()), b"head"));
    assert!(!proof_is_unstarted(&Some(b"head+".to_vec()), b"head"));
    assert!(!proof_is_unstarted(&None, b"head"));
    let error = DomainError::new(ErrorCode::IoError, "not started");
    assert!(unstarted(error, true, None).cleanup_verified);
    assert!(!unstarted(error, false, None).cleanup_verified);
}

#[test]
fn a_late_guard_is_signalled_once_and_killed() {
    let mut reap = Reap::new(100, 1_000);
    assert_eq!(reap.step(200, ChildState::Running, false), ReapAction::Wait);
    assert_eq!(reap.step(1_100, ChildState::Running, false), ReapAction::Signal(14));
    assert_eq!(reap.step(1_200, ChildState::Running, true), ReapAction::Wait);
    assert_eq!(
        reap.step(7_100, ChildState::Running, false),
        ReapAction::Kill(Reaped {
            exit_code: None,
            timed_out: true
        })
    );
    let mut cancelled = Reap::new(0, 1_000);
    assert_eq!(cancelled.step(5, ChildState::Running, true), ReapAction::Signal(15));
    assert_eq!(
        cancelled.step(
            6,
            ChildState::Ended {
                code: None,
                signal: Some(9)
            },
            true
        ),
        ReapAction::Finished(Reaped {
            exit_code: Some(137),
            timed_out: false
        })
    );
    assert!(matches!(
        cancelled.step(7, ChildState::Unobservable, true),
        ReapAction::Failed(_)
    ));
}

#[test]
fn a_settlement_follows_the_record_of_the_guard() {
    let guard = |cause, code| GuardSettlement {
        cleanup_verified: true,
        shell_exit_code: code,
        cause,
    };
    let reaped = Reaped {
        exit_code: Some(1),
        timed_out: true,
    };
    let streams = || Ok((stream(b"out"), stream(b"err")));
    let settled = command_settlement(
        Ok(guard(Some(GuardCleanCause::Cancelled), Some(0))),
        Ok(reaped),
        streams(),
    )
    .unwrap();
    assert_eq!(settled.outcome.cause, CommandProcessCause::Cancelled);
    assert_eq!(settled.outcome.exit_code, None);
    let exited = command_settlement(
        Ok(guard(Some(GuardCleanCause::Exited), Some(4))),
        Ok(Reaped {
            exit_code: Some(1),
            timed_out: false,
        }),
        streams(),
    )
    .unwrap();
    assert_eq!(exited.outcome.exit_code, Some(4));
    assert_eq!(exited.outcome.stdout, b"out".to_vec());
    let error = DomainError::new(ErrorCode::IoError, "failed");
    let unread = command_settlement(Err(error), Ok(reaped), streams()).unwrap_err();
    assert!(!unread.cleanup_verified);
    let unseen = command_settlement(
        Ok(guard(None, None)),
        Err(ExecutionFailure {
            error,
            cleanup_verified: false,
        }),
        streams(),
    );
    assert!(unseen.unwrap_err().cleanup_verified);
    assert!(command_settlement(Ok(guard(None, None)), Ok(reaped), Err(error)).is_err());
}

#[test]
fn only_the_first_bytes_of_a_stream_are_kept() {
    let mut kept = BoundedStream::new();
    kept.retain(&[1, 2], 3);
    kept.retain(&[], 3);
    assert!(!kept.truncated);
    kept.retain(&[3, 4], 3);
    assert_eq!(kept.bytes, vec![1, 2, 3]);
    assert!(kept.truncated);
    let mut drain = FileDrain::new();
    assert_eq!(drain.accept(2, 3), 2);
    assert_eq!(drain.accept(2, 3), 1);
    assert!(drain.truncated);
    assert_eq!(drain_step(StreamEvent::Interrupted), StreamStep::Again);
    assert_eq!(drain_step(StreamEvent::Quiet { stopped: true }), StreamStep::Done);
    assert_eq!(drain_step(StreamEvent::Data), StreamStep::Retain);
    assert!(matches!(drain_step(StreamEvent::PollFailed), StreamStep::Failed(_)));
    assert_ne!(
        drain_step(StreamEvent::ReadFailed),
        file_drain_step(StreamEvent::ReadFailed)
    );
    assert_eq!((drain_poll_ms(true), drain_poll_ms(false)), (0, 25));
}

#[test]
fn readers_are_told_to_stop_once() {
    let mut collection = StreamCollection::new(0);
    assert_eq!(collection.proceed(500), CollectAction::Wait(1_500));
    collection.accept(StreamArrival::Stdout(stream(b"a"))).unwrap();
    collection.accept(StreamArrival::Nothing).unwrap();
    assert_eq!(collection.proceed(2_000), CollectAction::Stop(500));
    assert!(matches!(collection.proceed(2_500), CollectAction::Failed(_)));
    collection.accept(StreamArrival::Stderr(stream(b"b"))).unwrap();
    assert_eq!(collection.proceed(9_000), CollectAction::Complete);
    assert_eq!(collection.finish().unwrap(), (stream(b"a"), stream(b"b")));
    let mut failed = StreamCollection::new(0);
    assert!(failed.accept(StreamArrival::Disconnected).is_err());
    let error = DomainError::new(ErrorCode::IoError, "failed");
    assert_eq!(failed.accept(StreamArrival::Failed(error)), Err(error));
    assert!(failed.finish().is_err());
}

#[test]
fn other_identities_are_forwarded() {
    assert_eq!(command_route(RunAs::Root), CommandRoute::Root);
    assert_eq!(
        command_route(RunAs::Shell),
        CommandRoute::Forward {
            start: "ShizukuProcessStart",
            cancel: "ShizukuProcessCancel"
        }
    );
    let request = |stdin: Option<&[u8]>| CommandProcessRequest {
        run_as: RunAs::App,
        program: "/system/bin/sh".to_owned(),
        arguments: texts(&["-c", "id"]),
        cwd: None,
        stdin: stdin.map(<[u8]>::to_vec),
        timeout_ms: 10,
        max_output_bytes: 20,
    };
    assert_eq!(
        json_text(&forward_payload(&request(Some(b"in")), "AppProcessStart").unwrap()),
        [
            r#"{"arguments":["-c","id"],"cwd":"/","max_output_bytes":20,"#,
            r#""operation":"process_start","program":"/system/bin/sh","stdin":"in","timeout_ms":10}"#,
        ]
        .concat()
    );
    assert!(forward_payload(&request(Some(&[0xff])), "AppProcessStart").is_err());
    assert!(forward_payload(&request(Some(&[0xff])), "ShizukuProcessStart").is_ok());
    let mut forward = Forward::new(0, 5);
    assert!(forward.goes_on(10_004) && !forward.goes_on(10_005));
    assert!(!forward.cancels(false) && forward.cancels(true) && !forward.cancels(true));
    assert_eq!(forward_reply(None, 0).unwrap_err().error.code, ErrorCode::Timeout);
    assert!(forward_reply(Some(Json::Null), 1).is_err());
    assert_eq!(forward_reply(Some(object(Vec::new())), 0).unwrap(), object(Vec::new()));
}

#[test]
fn a_primitive_is_run_only_for_its_owner() {
    let fence = |source_generation| MagiskExecutorFence {
        runtime_epoch: id(1),
        host_generation: 2,
        runtime_instance_id: id(3),
        source_generation,
    };
    let handle = MagiskExecutorHandle::new(fence(4), Some(5)).unwrap();
    let android = MagiskPrimitiveFamily::PrivilegedAndroid;
    assert!(handle.authorize(&fence(4), android).is_ok());
    assert_eq!(
        handle.authorize(&fence(5), android).unwrap_err().code,
        ErrorCode::StaleAuthority
    );
    let without = handle.without_helper();
    assert_eq!(
        without.authorize(&fence(4), android).unwrap_err().code,
        ErrorCode::CapabilityUnavailable
    );
    assert!(without.authorize(&fence(4), MagiskPrimitiveFamily::Process).is_ok());
    assert!(MagiskExecutorHandle::new(fence(0), None).is_err());
    assert!(MagiskExecutorHandle::new(fence(1), Some(0)).is_err());
}

#[test]
fn plans_name_fixed_programs() {
    let shell = PrimitiveProcessPlan::root_shell("id".to_owned()).unwrap();
    assert_eq!(shell.program(), "/system/bin/sh");
    assert_eq!(shell.arguments(), &texts(&["-c", "id"])[..]);
    assert_eq!(shell.fixed_timeout_ms(), None);
    assert!(PrimitiveProcessPlan::root_shell(String::new()).is_err());
    assert!(PrimitiveProcessPlan::root_shell("a\0".to_owned()).is_err());
    assert!(PrimitiveProcessPlan::input(texts(&["tap", "1", "2"])).is_ok());
    assert!(PrimitiveProcessPlan::input(Vec::new()).is_err());
    assert!(PrimitiveProcessPlan::input(vec!["x".to_owned(); 17]).is_err());
    assert!(PrimitiveProcessPlan::input(vec!["x".repeat(4_097)]).is_err());
    let list = PrimitiveProcessPlan::package_list(PackageListKind::ThirdParty);
    assert_eq!(list.arguments()[3], "-3");
    assert_eq!(list.fixed_timeout_ms(), Some(15_000));
    assert_eq!(list.fixed_output_bytes(), Some(8_388_608));
    assert_eq!(
        PrimitiveProcessPlan::screen_capture().family(),
        MagiskPrimitiveFamily::VisualCapture
    );
    assert!(PrimitiveProcessPlan::package_force_stop("a".to_owned()).is_err());
    for name in ["a.b", "_a.b_1", "com.droidbridge.android"] {
        assert!(valid_package_name(name), "{name}");
    }
    for name in ["", "a", "a.", ".a", "a..b", "1a.b", "a.1b", "a-b.c", "\u{e9}.b"] {
        assert!(!valid_package_name(name), "{name}");
    }
}
