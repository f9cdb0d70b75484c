use droidbridge::contract::common::{ErrorCode, Region, UuidV4};
use droidbridge::contract::results::DisplayGeometry;
use droidbridge::contract::tools::ImageFormat;
use droidbridge::daemon::android::ProviderToken;
use droidbridge::daemon::command::VisualRootPrimitive;
use droidbridge::daemon::visual::{
    capture_result, check_capture, check_delivered, check_display, check_image_descriptors,
    check_path_executor, check_scene, check_source, check_stream, display_request, finish_temp,
    hierarchy_path, hierarchy_request, hierarchy_result, hierarchy_route, image_result,
    interaction, paste_result, pasted_clip, require_capture, require_display,
    require_no_descriptors, require_transform, restore_clip, root_action, temporary_names,
    transform_request, CompanionCall, EncodedImage, HierarchyRoute, Interaction, RootAction,
    VisualDisplaySnapshot, VisualEncodedImage, VisualInteractionRequest,
};
use droidbridge::error::{DomainError, ExecutionFailure};
use droidbridge::json::{json_text, object, Json};

fn id(value: u8) -> UuidV4 {
    UuidV4::parse(format!("00000000-0000-4000-8000-{value:012x}")).unwrap()
}

fn display(width: u32) -> VisualDisplaySnapshot {
    VisualDisplaySnapshot {
        display: DisplayGeometry {
            width,
            height: 2_400,
            rotation: 0,
            density_dpi: None,
        },
        display_generation: 5,
    }
}

fn coordinate(operation: &str, to_x: Option<u32>) -> VisualInteractionRequest {
    VisualInteractionRequest::Coordinate {
        observation_id: id(1),
        operation: operation.to_owned(),
        from_x: 1,
        from_y: 2,
        to_x,
        to_y: Some(4),
        duration_ms: Some(300),
        display: display(1_080),
        evidence: Some(object(Vec::new())),
    }
}

fn reason<T>(result: Result<T, ExecutionFailure>) -> &'static str {
    match result {
        Ok(_) => "",
        Err(failure) => failure.error.reason,
    }
}

#[test]
fn each_visual_work_has_its_provider() {
    assert!(require_display(ProviderToken::MagiskNative).is_ok());
    assert_eq!(
        reason(require_display(ProviderToken::Accessibility)),
        "Magisk display admission has a different provider"
    );
    assert_eq!(
        reason(require_capture(ProviderToken::AppFramework)),
        "Magisk image admission has a different provider"
    );
    assert!(require_transform(ProviderToken::AppFramework).is_ok());
    assert_eq!(
        hierarchy_route(ProviderToken::Accessibility).unwrap(),
        HierarchyRoute::Accessibility
    );
    assert_eq!(
        hierarchy_route(ProviderToken::MagiskNative).unwrap(),
        HierarchyRoute::Root
    );
    assert!(hierarchy_route(ProviderToken::Other).is_err());
}

#[test]
fn requests_name_the_display_they_are_for() {
    assert_eq!(json_text(&display_request()), r#"{"operation":"display"}"#);
    assert_eq!(
        json_text(&hierarchy_request(&id(1), 50, &display(1_080))),
        [
            r#"{"display":{"height":2400,"rotation":0,"width":1080},"display_generation":5,"#,
            r#""max_nodes":50,"observation_id":"00000000-0000-4000-8000-000000000001","#,
            r#""operation":"hierarchy"}"#,
        ]
        .concat()
    );
    assert_eq!(json_text(&transform_request(&None)), r#"{"region":null}"#);
    assert_eq!(
        json_text(&transform_request(&Some(Region {
            x: 1,
            y: 2,
            width: 3,
            height: 4
        }))),
        r#"{"region":{"height":4,"width":3,"x":1,"y":2}}"#
    );
}

#[test]
fn an_action_goes_to_the_service_that_saw_the_scene() {
    match interaction(ProviderToken::Accessibility, &coordinate("tap", None)).unwrap() {
        Interaction::Companion { primitive, payload } => {
            assert_eq!(primitive, "AccessibilityGesture");
            assert_eq!(payload.get("to_x"), Some(&Json::Null));
            assert_eq!(payload.get("duration_ms"), Some(&Json::Unsigned(300)));
        }
        Interaction::Root => panic!("the service acts"),
    }
    let node = |operation: &str, evidence: Option<Json>| VisualInteractionRequest::Node {
        observation_id: id(1),
        node_ref: "node-1".to_owned(),
        operation: operation.to_owned(),
        text: Some("x".to_owned()),
        display: display(1_080),
        evidence,
    };
    for (operation, expected) in [
        ("text", "AccessibilityText"),
        ("tap", "AccessibilityNodeAction"),
    ] {
        match interaction(
            ProviderToken::Accessibility,
            &node(operation, Some(object(Vec::new()))),
        )
        .unwrap()
        {
            Interaction::Companion { primitive, payload } => {
                assert_eq!(primitive, expected);
                assert_eq!(payload.member_count(), Some(7));
            }
            Interaction::Root => panic!("the service acts"),
        }
    }
    assert_eq!(
        reason(interaction(ProviderToken::Accessibility, &node("tap", None))),
        "Accessibility interaction proof is invalid"
    );
    let key = VisualInteractionRequest::Key {
        key_code: 4,
        meta_state: 0,
    };
    assert_eq!(
        reason(interaction(ProviderToken::Accessibility, &key)),
        "Magisk visual interaction provider is invalid"
    );
    assert!(matches!(
        interaction(ProviderToken::MagiskNative, &key),
        Ok(Interaction::Root)
    ));
    let text = VisualInteractionRequest::FocusedText {
        text: "x".to_owned(),
    };
    match interaction(ProviderToken::Accessibility, &text).unwrap() {
        Interaction::Companion { payload, .. } => {
            assert_eq!(json_text(&payload), r#"{"operation":"focused","text":"x"}"#);
        }
        Interaction::Root => panic!("the service acts"),
    }
}

#[test]
fn the_daemon_acts_only_as_it_can() {
    assert!(matches!(
        root_action(coordinate("tap", None), true, None),
        Ok(RootAction::Deliver(VisualRootPrimitive::Tap { x: 1, y: 2 }))
    ));
    assert!(matches!(
        root_action(coordinate("swipe", Some(3)), true, None),
        Ok(RootAction::Deliver(VisualRootPrimitive::Swipe {
            from_x: 1,
            from_y: 2,
            to_x: 3,
            to_y: 4,
            duration_ms: 300
        }))
    ));
    assert_eq!(
        reason(root_action(coordinate("swipe", None), true, None)),
        "swipe x is missing"
    );
    assert_eq!(
        reason(root_action(coordinate("pinch", None), true, None)),
        "visual coordinate operation is unsupported"
    );
    let text = |text: &str| VisualInteractionRequest::FocusedText {
        text: text.to_owned(),
    };
    assert!(matches!(
        root_action(text("abc"), true, None),
        Ok(RootAction::Deliver(VisualRootPrimitive::Text(_)))
    ));
    assert!(matches!(
        root_action(text("\u{e9}"), false, None),
        Ok(RootAction::Paste(_))
    ));
    assert!(root_action(text("a\0b"), true, None).is_err());
    assert!(root_action(text(&"\u{e9}".repeat(4_096)), false, None).is_ok());
    assert!(root_action(text(&"\u{e9}".repeat(4_097)), false, None).is_err());
    let key = |key_code: i32| VisualInteractionRequest::Key {
        key_code,
        meta_state: 1,
    };
    assert!(matches!(
        root_action(key(29), true, Some(Vec::new())),
        Ok(RootAction::Deliver(VisualRootPrimitive::Key(29)))
    ));
    match root_action(key(29), true, Some(vec![113])).unwrap() {
        RootAction::Deliver(VisualRootPrimitive::KeyCombination(keys)) => {
            assert_eq!(keys, vec![113, 29]);
        }
        _ => panic!("a combination"),
    }
    assert!(root_action(key(-1), true, Some(Vec::new())).is_err());
    assert!(root_action(key(29), true, None).is_err());
    assert!(check_display(&display(1_080), &display(1_080)).is_ok());
    assert_eq!(
        reason(check_display(&display(1_081), &display(1_080))),
        "privileged visual display changed"
    );
    assert!(check_scene(false).is_err());
}

#[test]
fn a_paste_puts_the_clipboard_back() {
    assert_eq!(
        json_text(&pasted_clip("x")),
        r#"{"sensitive":true,"text":"x"}"#
    );
    let (operation, input) = restore_clip(&Some("old".to_owned()));
    assert_eq!(operation, "write");
    assert_eq!(json_text(&input), r#"{"text":"old"}"#);
    assert_eq!(restore_clip(&None).0, "clear");
    assert!(paste_result(Ok(()), true).is_ok());
    assert_eq!(
        reason(paste_result(Ok(()), false)),
        "text was pasted but the previous clipboard could not be restored"
    );
}

#[test]
fn what_stays_behind_is_told_first() {
    assert_eq!(
        hierarchy_path(&id(9)),
        "/data/local/tmp/droidbridge-ui-00000000-0000-4000-8000-000000000009.xml"
    );
    assert_eq!(hierarchy_result(Ok(vec![1]), true).unwrap(), vec![1]);
    let failure = hierarchy_result(Ok(vec![1]), false).unwrap_err();
    assert!(!failure.cleanup_verified);
    let error = DomainError::new(ErrorCode::IoError, "remove failed");
    let kept: Result<u32, ExecutionFailure> = finish_temp(Ok(1), Err(error));
    assert!(!kept.unwrap_err().cleanup_verified);
    assert_eq!(finish_temp(Ok(1), Ok(())).unwrap(), 1);
    assert_eq!(temporary_names().len(), 3);
    assert_eq!(check_stream(vec![1, 2], 2).unwrap(), vec![1, 2]);
    assert_eq!(
        check_stream(vec![1, 2, 3], 2).unwrap_err().code,
        ErrorCode::ResourceLimit
    );
    assert!(check_source(false).is_err());
    assert_eq!(
        reason(check_path_executor(false, true)),
        "visual path source has no filesystem executor"
    );
    assert!(check_path_executor(true, false).is_err());
    assert!(check_path_executor(true, true).is_ok());
}

#[test]
fn an_image_is_what_its_metadata_says() {
    let wire = |display: Option<DisplayGeometry>| EncodedImage {
        size: 3,
        format: ImageFormat::Png,
        width: 10,
        height: 20,
        display,
        display_generation: None,
    };
    let good = image_result(wire(None), vec![1, 2, 3], Ok(()), Ok((10, 20)), false).unwrap();
    assert_eq!(good.bytes, vec![1, 2, 3]);
    assert!(good.captured_display.is_none());
    assert_eq!(
        reason(image_result(wire(None), vec![1, 2], Ok(()), Ok((10, 20)), false)),
        "visual image size is invalid"
    );
    assert_eq!(
        reason(image_result(wire(None), vec![1, 2, 3], Ok(()), Ok((11, 20)), false)),
        "visual PNG dimensions do not match metadata"
    );
    assert_eq!(
        reason(image_result(wire(None), vec![1, 2, 3], Ok(()), Ok((10, 20)), true)),
        "captured display is missing"
    );
    let shown = wire(Some(display(10).display));
    assert_eq!(
        reason(image_result(shown, vec![1, 2, 3], Ok(()), Ok((10, 20)), false)),
        "transform returned a captured display"
    );
    let shown = wire(Some(display(10).display));
    assert_eq!(
        reason(image_result(shown, vec![1, 2, 3], Ok(()), Ok((10, 20)), true)),
        "captured display generation is missing"
    );
    assert!(check_image_descriptors(&["visual_encoded_image".to_owned()]).is_ok());
    assert!(check_image_descriptors(&["stdin".to_owned()]).is_err());
    assert!(check_image_descriptors(&[]).is_err());
    assert!(check_capture(1_080, 2_400, &display(1_080)).is_ok());
    assert_eq!(
        reason(check_capture(1_080, 2_401, &display(1_080))),
        "PNG screen capture display changed"
    );
    let encoded = || VisualEncodedImage {
        bytes: vec![1],
        format: ImageFormat::Jpeg,
        width: 1_080,
        height: 2_400,
        captured_display: None,
    };
    let captured = capture_result(encoded(), 1_080, 2_400, display(1_080)).unwrap();
    assert_eq!(captured.captured_display, Some(display(1_080)));
    assert!(capture_result(encoded(), 1_079, 2_400, display(1_080)).is_err());
}

#[test]
fn a_call_ends_with_its_result_or_its_deadline() {
    let mut call = CompanionCall::new();
    assert!(call.waits_on(14_999) && !call.waits_on(15_000));
    assert_eq!(call.finish(Some(Ok(1))).unwrap(), 1);
    let late: Result<u32, ExecutionFailure> = call.finish(None);
    assert!(!late.unwrap_err().cleanup_verified);
    let typed = DomainError::new(
        ErrorCode::NotFound,
        "companion execution reported a typed failure",
    );
    let failed: Result<u32, ExecutionFailure> = call.finish(Some(Err(typed)));
    assert!(failed.unwrap_err().cleanup_verified);
    let lost = DomainError::new(ErrorCode::IoError, "companion connection lost");
    let failed: Result<u32, ExecutionFailure> = call.finish(Some(Err(lost)));
    assert!(!failed.unwrap_err().cleanup_verified);
    call.observe(true);
    call.observe(false);
    assert_eq!(
        call.finish(Some(Ok(1))).unwrap_err().error.code,
        ErrorCode::Cancelled
    );
    assert!(require_no_descriptors(0).is_ok());
    assert!(require_no_descriptors(1).is_err());
    let delivered = Json::parse(br#"{"delivered":true}"#).unwrap();
    assert!(check_delivered(&delivered).is_ok());
    assert!(check_delivered(&object(Vec::new())).is_err());
}
