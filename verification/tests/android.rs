use droidbridge::contract::common::ErrorCode;
use droidbridge::contract::tools::{AndroidIntentInput, AndroidLaunchInput};
use droidbridge::daemon::android::{
    child_step, clipboard_arguments, clipboard_class_path, clipboard_result, clipboard_text,
    decode_operation_response, dismiss_request, framework_route, intent_request, invoke_request,
    launch_request, notification_route, operation_request, require_completed, require_native,
    AndroidNotificationIdentity, AndroidRoute, ChildPoll, ChildStep, HelperConnection, HelperPort,
    ProviderToken,
};
use droidbridge::daemon::helper::HelperFamily;
use droidbridge::error::DomainError;
use droidbridge::json::{entry, json_text, text_value, Json};

fn read(text: &str) -> Json {
    Json::parse(text.as_bytes()).expect("a value")
}

#[test]
fn a_response_is_a_result_or_a_failure() {
    assert_eq!(
        decode_operation_response(&read(r#"{"ok":true,"result":[1]}"#)).unwrap(),
        read("[1]")
    );
    assert_eq!(
        decode_operation_response(&read(r#"{"ok":false,"code":"NOT_FOUND"}"#)),
        Err(DomainError::new(
            ErrorCode::NotFound,
            "framework helper operation failed"
        ))
    );
    for text in [
        r#"{"ok":true}"#,
        r#"{"ok":true,"result":1,"more":2}"#,
        r#"{"ok":false,"code":"NO_SUCH_CODE"}"#,
        r#"{"ok":false,"result":1}"#,
        r#"{"ok":1,"result":1}"#,
        "[]",
    ] {
        assert_eq!(
            decode_operation_response(&read(text)).unwrap_err().reason,
            "framework helper response is invalid",
            "{text}"
        );
    }
}

#[test]
fn a_failed_connection_is_not_used_again() {
    let mut connection = HelperConnection::new();
    assert!(connection.check().is_ok());
    let denied = connection.settle(Ok(read(r#"{"ok":false,"code":"PERMISSION_DENIED"}"#)));
    assert_eq!(denied.unwrap_err().code, ErrorCode::PermissionDenied);
    assert!(!connection.is_broken());
    let failed = connection.settle(Err(DomainError::new(ErrorCode::IoError, "read failed")));
    assert_eq!(failed.unwrap_err().reason, "framework helper transport failed");
    assert!(connection.is_broken());
    assert_eq!(
        connection.check().unwrap_err().reason,
        "framework helper is unavailable"
    );
    let mut other = HelperConnection::new();
    assert!(other.settle(Ok(read("1"))).is_err());
    assert!(other.is_broken());
}

#[test]
fn a_denial_is_that_of_its_family() {
    let mut port: HelperPort<u32> = HelperPort::new();
    assert!(port.published().is_err());
    port.publish(7);
    assert_eq!(port.published().unwrap(), &7);
    let denied = Err(DomainError::new(ErrorCode::PermissionDenied, "denied"));
    port.observe_denial(HelperFamily::Clipboard, &denied);
    port.observe_denial(
        HelperFamily::Launch,
        &Err(DomainError::new(ErrorCode::IoError, "failed")),
    );
    assert!(port.operation_denied(HelperFamily::Clipboard));
    assert!(!port.operation_denied(HelperFamily::Launch));
    port.withdraw();
    assert!(port.operation_denied(HelperFamily::Clipboard));
    port.publish(8);
    assert!(!port.operation_denied(HelperFamily::Clipboard));
}

#[test]
fn a_clipboard_child_is_waited_for_and_read() {
    assert_eq!(child_step(ChildPoll::Ended, true, 99_999), ChildStep::Ended);
    assert_eq!(child_step(ChildPoll::Running, false, 9_999), ChildStep::Sleep);
    match child_step(ChildPoll::Running, true, 99_999) {
        ChildStep::Kill(error) => assert_eq!(error.code, ErrorCode::Cancelled),
        _ => panic!("the child is killed"),
    }
    match child_step(ChildPoll::Running, false, 10_000) {
        ChildStep::Kill(error) => assert_eq!(error.code, ErrorCode::Timeout),
        _ => panic!("the child is killed"),
    }
    assert!(matches!(
        child_step(ChildPoll::Unobservable, false, 0),
        ChildStep::Failed(_)
    ));
    let output = br#"{"ok":true,"result":{"completed":true}}"#.to_vec();
    let result = clipboard_result(Some(output.clone()), Ok(true)).unwrap();
    assert!(require_completed(&result).is_ok());
    assert_eq!(
        clipboard_result(Some(output.clone()), Ok(false)).unwrap_err().reason,
        "clipboard child failed"
    );
    let timeout = Err(DomainError::new(ErrorCode::Timeout, "late"));
    assert_eq!(
        clipboard_result(Some(output), timeout.clone()).unwrap_err().code,
        ErrorCode::Timeout
    );
    assert_eq!(
        clipboard_result(None, timeout).unwrap_err().code,
        ErrorCode::IoError
    );
    assert!(clipboard_result(Some(b"x".to_vec()), Ok(true)).is_err());
    assert!(clipboard_result(Some(vec![b' '; 1_048_577]), Ok(true)).is_err());
    assert!(require_completed(&read(r#"{"completed":false}"#)).is_err());
    assert_eq!(clipboard_class_path(), "/proc/self/fd/3");
    assert_eq!(
        clipboard_arguments("read"),
        vec![
            "/system/bin".to_owned(),
            "com.droidbridge.helper.DroidBridgeClipboardChild".to_owned(),
            "read".to_owned(),
        ]
    );
}

#[test]
fn requests_are_spelled_for_the_helper() {
    assert_eq!(
        json_text(&operation_request("notification_snapshot")),
        r#"{"operation":"notification_snapshot"}"#
    );
    assert_eq!(
        json_text(&launch_request(&AndroidLaunchInput::Package {
            package_name: "a.b".to_owned()
        })),
        r#"{"operation":"launch_package","package_name":"a.b"}"#
    );
    assert_eq!(
        json_text(&launch_request(&AndroidLaunchInput::Component {
            package_name: "a.b".to_owned(),
            class_name: "a.b.C".to_owned()
        })),
        r#"{"class_name":"a.b.C","operation":"launch_component","package_name":"a.b"}"#
    );
    let view = AndroidIntentInput::View {
        data_uri: "https://example.org".to_owned(),
        package_name: None,
    };
    assert_eq!(
        json_text(&intent_request(
            &view,
            vec![
                entry("data_uri", text_value("https://example.org")),
                entry("operation", text_value("view")),
            ]
        )),
        r#"{"data_uri":"https://example.org","operation":"start_view_intent"}"#
    );
    let identity = AndroidNotificationIdentity {
        key: "k".to_owned(),
        generation: 4,
    };
    assert_eq!(
        json_text(&dismiss_request(&identity)),
        r#"{"generation":4,"key":"k","operation":"notification_dismiss"}"#
    );
    assert_eq!(
        json_text(&invoke_request(&identity, 1)),
        r#"{"action_index":1,"generation":4,"key":"k","operation":"notification_invoke"}"#
    );
    assert_eq!(json_text(&clipboard_text("x")), r#"{"text":"x"}"#);
}

#[test]
fn an_operation_goes_to_its_provider() {
    assert_eq!(
        framework_route(Ok(()), ProviderToken::MagiskFramework).unwrap(),
        AndroidRoute::Helper
    );
    assert_eq!(
        framework_route(Ok(()), ProviderToken::AppFramework).unwrap(),
        AndroidRoute::Companion
    );
    let stale = framework_route(Ok(()), ProviderToken::NotificationListener).unwrap_err();
    assert_eq!(stale.error.code, ErrorCode::StaleAuthority);
    assert!(stale.cleanup_verified);
    assert_eq!(
        notification_route(Ok(()), ProviderToken::NotificationListener).unwrap(),
        AndroidRoute::Companion
    );
    let cancelled = Err(DomainError::new(ErrorCode::Cancelled, "cancelled"));
    assert_eq!(
        notification_route(cancelled, ProviderToken::Other)
            .unwrap_err()
            .error
            .code,
        ErrorCode::Cancelled
    );
    assert!(require_native(ProviderToken::MagiskNative).is_ok());
    assert!(require_native(ProviderToken::Accessibility).is_err());
}
