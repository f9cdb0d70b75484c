use std::collections::BTreeSet;

use droidbridge::contract::artifacts::{
    action_registry, byte_bounds, capability_keys, contract_metadata, error_code_tokens,
    generated_artifact_hashes, generated_artifacts, grant_keys, kotlin_envelope_fixtures,
    result_schema_bindings, settlement_bounds, MAX_FRAME_BYTES, SETTLEMENT_RESERVE_FLOOR,
};
use droidbridge::contract::automation::AutomationAction;
use droidbridge::contract::common::{
    error_code, ErrorCode, FileTarget, FileTargetType, MotherTool, ProtocolVersion, PublicError,
    ScalarValue, True, UuidV4,
};
use droidbridge::contract::decode::{
    capture_read_source, check_action_fields, check_interaction_fields, packet_decode_source,
    read_source, split_payload, visual_source,
};
use droidbridge::contract::descriptor::{
    automation_descriptors, validate_automation_descriptors,
};
use droidbridge::contract::envelope::{
    canonical_payload_bytes, canonical_payload_sha256, PublicResponse,
};
use droidbridge::contract::schemas::schema_names;
use droidbridge::contract::tools::{
    action_specs, root_tool_order, CaptureReadSource, ContextCatalogInput, ContextDetail,
    ContextStatusInput, PacketDecodeSource, ReadSource, VisualSource,
};
use droidbridge::digest::sha256_text;
use droidbridge::json::{json_text, Json};

fn read(text: &str) -> Json {
    Json::parse(text.as_bytes()).expect("a value")
}

fn items<'a>(value: &'a Json, key: &str) -> &'a [Json] {
    match value.get(key) {
        Some(Json::Array(items)) => items,
        _ => panic!("an array"),
    }
}

#[test]
fn the_metadata_counts_what_the_contract_has() {
    let metadata = contract_metadata();
    assert_eq!(metadata.get("schema_version"), Some(&Json::Unsigned(1)));
    assert_eq!(items(&metadata, "error_codes").len(), 23);
    assert_eq!(items(&metadata, "grants").len(), 17);
    assert_eq!(items(&metadata, "effective_capabilities").len(), 16);
    assert_eq!(items(&metadata, "actions").len(), 30);
    assert_eq!(items(&metadata, "utf8_byte_bounds").len(), 29);
    assert_eq!(
        metadata
            .get("result_schema_bindings")
            .and_then(Json::member_count),
        Some(action_specs().len())
    );
    assert_eq!(
        metadata
            .get("semantic_bounds")
            .and_then(|bounds| bounds.get("automation.tree_depth")),
        Some(&Json::Unsigned(16))
    );
    let known = capability_keys();
    for action in items(&metadata, "actions") {
        let requirement = action
            .get("capability_requirement")
            .and_then(Json::as_text)
            .unwrap();
        assert!(matches!(requirement, "none" | "dynamic") || known.contains(&requirement));
    }
    assert_eq!(byte_bounds()[0].charset, Some("[a-z0-9_.-]"));
    assert_eq!(grant_keys().len(), 17);
}

#[test]
fn actions_and_their_results_are_listed_once() {
    let specs = action_specs();
    let pairs: BTreeSet<(&str, &str)> = specs.iter().map(|spec| (spec.tool, spec.action)).collect();
    assert_eq!(pairs.len(), specs.len());
    assert_eq!(
        specs.iter().filter(|spec| spec.automation_compatible).count(),
        7
    );
    assert_eq!(root_tool_order().len(), 8);
    let bindings = result_schema_bindings();
    for spec in &specs {
        let name = format!("{}.{}", spec.tool, spec.action);
        assert!(bindings.get(&name).is_some(), "{name}");
    }
    match action_registry() {
        Json::Array(rows) => assert_eq!(rows.len(), specs.len()),
        _ => panic!("an array"),
    }
}

#[test]
fn settlements_fit_between_the_reserve_and_the_store() {
    let bounds = settlement_bounds();
    let entries = items(&bounds, "entries");
    assert_eq!(entries.len(), action_specs().len());
    let cap = match bounds.get("store_hard_cap_bytes") {
        Some(Json::Unsigned(cap)) => *cap,
        _ => panic!("a number"),
    };
    let mut operations: BTreeSet<&str> = BTreeSet::new();
    for entry in entries {
        operations.insert(entry.get("operation").and_then(Json::as_text).unwrap());
        match entry.get("maximum_escaped_terminal_bytes") {
            Some(Json::Unsigned(bound)) => {
                assert!(*bound >= SETTLEMENT_RESERVE_FLOOR);
                assert!(*bound < cap);
                assert_eq!(*bound, MAX_FRAME_BYTES);
            }
            _ => panic!("a number"),
        }
    }
    assert_eq!(operations.len(), entries.len());
    assert!(operations.contains("context.status"));
}

#[test]
fn artifacts_are_the_same_every_time_and_laid_out_for_readers() {
    let first = generated_artifacts(b"{}\n".to_vec());
    assert_eq!(first, generated_artifacts(b"{}\n".to_vec()));
    assert_eq!(first.len(), 4);
    let metadata = &first[1];
    assert_eq!(metadata.relative_path, "contract-metadata.v1.json");
    let value: serde_json::Value = serde_json::from_slice(&metadata.bytes).unwrap();
    let mut expected = serde_json::to_vec_pretty(&value).unwrap();
    expected.push(b'\n');
    assert_eq!(metadata.bytes, expected);
    let hashes = generated_artifact_hashes(b"{}\n".to_vec());
    let paths: Vec<&str> = hashes.iter().map(|hash| hash.0).collect();
    assert_eq!(
        paths,
        vec![
            "contract-metadata.v1.json",
            "contract-schema.v1.json",
            "kotlin-envelope-fixtures.v1.json",
            "settlement-bounds.v1.json",
        ]
    );
    assert_eq!(hashes[1].1, sha256_text(b"{}\n"));
    assert_eq!(hashes[0].1, sha256_text(&metadata.bytes));
}

#[test]
fn the_fixtures_are_one_request_and_two_responses() {
    let fixtures = kotlin_envelope_fixtures();
    let rows = items(&fixtures, "fixtures");
    assert_eq!(rows.len(), 3);
    assert_eq!(
        json_text(rows[0].get("json").unwrap()),
        r#"{"payload":{"action":"status","input":{"detail":"compact"},"tool":"context"},"protocol_version":1,"request_id":"018f47f2-26a8-4f26-8a65-728feb0e8461"}"#
    );
    assert_eq!(rows[2].get("name").and_then(Json::as_text), Some("error_response"));
}

#[test]
fn every_token_names_its_code() {
    for token in error_code_tokens() {
        assert_eq!(error_code(token).map(ErrorCode::token), Some(token));
    }
    assert_eq!(error_code("io_error"), None);
}

#[test]
fn the_generated_descriptors_are_valid() {
    let mut descriptors = automation_descriptors();
    assert_eq!(validate_automation_descriptors(&descriptors), Ok(()));
    descriptors.schema_version = 2;
    assert!(validate_automation_descriptors(&descriptors).is_err());
    let mut descriptors = automation_descriptors();
    let first = descriptors.fields[0].clone();
    descriptors.fields.push(first);
    assert!(validate_automation_descriptors(&descriptors).is_err());
}

#[test]
fn a_version_and_a_truth_have_one_spelling() {
    assert_eq!(ProtocolVersion::from_wire(1), Ok(ProtocolVersion));
    assert_eq!(ProtocolVersion::from_wire(2), Err("protocol_version must be 1"));
    assert!(True::from_wire(true).is_ok());
    assert!(True::from_wire(false).is_err());
}

#[test]
fn an_identifier_has_one_spelling() {
    let text = "018f47f2-26a8-4f26-8a65-728feb0e8461";
    assert_eq!(UuidV4::parse(text.to_owned()).unwrap().as_str(), text);
    assert!(UuidV4::parse(text.to_uppercase()).is_err());
    assert!(UuidV4::parse(text.replace('-', "")).is_err());
    assert!(UuidV4::parse("018f47f2-26a8-1f26-8a65-728feb0e8461".to_owned()).is_err());
    assert!(UuidV4::parse("nothing".to_owned()).is_err());
}

#[test]
fn a_payload_is_compared_by_its_canonical_bytes() {
    let left = read(r#"{"tool":"context","action":"status","input":{"b":1,"a":[{"d":1,"c":2}]}}"#);
    let right = read(r#"{"input":{"a":[{"c":2,"d":1}],"b":1},"action":"status","tool":"context"}"#);
    assert_eq!(
        canonical_payload_bytes(&left),
        br#"{"action":"status","input":{"a":[{"c":2,"d":1}],"b":1},"tool":"context"}"#.to_vec()
    );
    assert_eq!(canonical_payload_bytes(&left), canonical_payload_bytes(&right));
    let digest = canonical_payload_sha256(&left);
    assert_eq!(digest.len(), 64);
    assert_eq!(digest, sha256_text(&canonical_payload_bytes(&right)));
}

#[test]
fn a_payload_has_a_tool_an_action_and_an_input() {
    let (tool, call) =
        split_payload(&read(r#"{"tool":"visual","action":"view","input":{}}"#)).unwrap();
    assert_eq!(tool, MotherTool::Visual);
    assert_eq!(json_text(&call), r#"{"action":"view","input":{}}"#);
    assert_eq!(split_payload(&read("[]")), Err("payload must be an object"));
    assert_eq!(
        split_payload(&read(
            r#"{"tool":"context","action":"status","input":{},"extra":true}"#
        )),
        Err("payload must contain exactly tool, action, and input")
    );
    assert_eq!(
        split_payload(&read(r#"{"tool":"context","action":"status","in":{}}"#)),
        Err("payload must contain exactly tool, action, and input")
    );
    assert_eq!(
        split_payload(&read(r#"{"tool":1,"action":"status","input":{}}"#)),
        Err("tool must be a string")
    );
    assert_eq!(
        split_payload(&read(r#"{"tool":"other","action":"status","input":{}}"#)),
        Err("unknown mother tool")
    );
}

#[test]
fn a_source_is_named_exactly_once() {
    let file = || FileTarget {
        target_type: FileTargetType::Path,
        value: "/tmp/a".to_owned(),
    };
    assert_eq!(
        read_source(Some(file()), None),
        Ok(ReadSource::Target { target: file() })
    );
    assert!(read_source(Some(file()), Some("data-1".to_owned())).is_err());
    assert!(read_source(None, None).is_err());
    assert_eq!(
        visual_source(Some("/tmp/image.png".to_owned()), None, None),
        Ok(VisualSource::Path {
            path: "/tmp/image.png".to_owned()
        })
    );
    assert!(visual_source(Some("/tmp/image.png".to_owned()), None, Some("x".to_owned())).is_err());
    assert_eq!(
        capture_read_source(Some("capture-1".to_owned()), None),
        Ok(CaptureReadSource::CaptureRef {
            capture_ref: "capture-1".to_owned()
        })
    );
    assert!(capture_read_source(Some("capture-1".to_owned()), Some(file())).is_err());
    assert_eq!(
        packet_decode_source(None, None, Some("c".to_owned()), Some(0)),
        Ok(PacketDecodeSource::Capture {
            capture_ref: "c".to_owned(),
            index: 0
        })
    );
    assert!(packet_decode_source(None, None, Some("c".to_owned()), None).is_err());
}

#[test]
fn an_interaction_has_only_the_fields_of_its_operation() {
    let id = "018f47f2-26a8-4f26-8a65-728feb0e8461";
    let coordinate = format!(
        r#"{{"operation":"tap","target":"coordinate","observation_id":"{id}","x":10,"y":20}}"#
    );
    assert_eq!(check_interaction_fields(&read(&coordinate)), Ok(()));
    let mixed = format!(
        r#"{{"operation":"tap","target":"node","node_ref":"node-1","observation_id":"{id}","x":10,"y":20}}"#
    );
    assert_eq!(
        check_interaction_fields(&read(&mixed)),
        Err("unknown visual interaction field")
    );
    assert_eq!(
        check_interaction_fields(&read(r#"{"operation":"tap"}"#)),
        Err("unknown visual interaction target")
    );
    assert_eq!(
        check_interaction_fields(&read(r#"{"operation":"pinch"}"#)),
        Err("unknown visual interaction operation")
    );
    assert_eq!(
        check_interaction_fields(&read("{}")),
        Err("visual interaction operation must be a string")
    );
    assert_eq!(
        check_interaction_fields(&read("[]")),
        Err("visual interaction input must be an object")
    );
    assert_eq!(
        check_interaction_fields(&read(r#"{"operation":"key","key_code":4}"#)),
        Ok(())
    );
}

#[test]
fn an_action_has_only_the_fields_of_its_type() {
    let call = r#"{"type":"call","tool":"visual","action":"interact","args":{}}"#;
    assert_eq!(check_action_fields(&read(call)), Ok(()));
    assert_eq!(
        check_action_fields(&read(
            r#"{"type":"call","tool":"visual","action":"interact","args":{},"extra":true}"#
        )),
        Err("unknown Automation action field")
    );
    assert_eq!(
        check_action_fields(&read(r#"{"type":"conditional","condition":{},"then":{},"else":{}}"#)),
        Ok(())
    );
    assert_eq!(
        check_action_fields(&read(r#"{"type":"wait"}"#)),
        Err("unknown Automation action type")
    );
    assert_eq!(
        check_action_fields(&read(r#"{"type":1}"#)),
        Err("Automation action type must be a string")
    );
    assert_eq!(
        check_action_fields(&read("1")),
        Err("Automation action must be an object")
    );
}

#[test]
fn a_response_names_its_request() {
    let id = UuidV4::parse("018f47f2-26a8-4f26-8a65-728feb0e8461".to_owned()).unwrap();
    match PublicResponse::success(id.clone(), 7u32) {
        PublicResponse::Success {
            request_id, result, ..
        } => {
            assert_eq!(request_id, id);
            assert_eq!(result, 7);
        }
        PublicResponse::Error { .. } => panic!("a success"),
    }
    let error = PublicError {
        code: ErrorCode::InternalError,
        operation: "contract.request".to_owned(),
        retryable: false,
        message: None,
        capability: None,
        details: None,
    };
    match PublicResponse::<u32>::error(None, error.clone()) {
        PublicResponse::Error {
            request_id,
            error: told,
            ..
        } => {
            assert_eq!(request_id, None);
            assert_eq!(told, error);
        }
        PublicResponse::Success { .. } => panic!("an error"),
    }
}

#[test]
fn what_is_left_out_has_its_default() {
    assert_eq!(ContextStatusInput::default().detail, ContextDetail::Compact);
    assert_eq!(ContextCatalogInput::default().namespace, "");
}

#[test]
fn the_bound_schemas_are_the_schemas_of_results() {
    let names = schema_names();
    assert_eq!(names.len(), 46);
    assert_eq!(names[0], "automation");
    assert_eq!(names[45], "result.visual.view");
    let mut listed: Vec<&str> =
        names.into_iter().filter(|name| name.starts_with("result.")).collect();
    let mut bound: Vec<String> = Vec::new();
    match result_schema_bindings() {
        Json::Object(members) => {
            for member in &members {
                match &member.value {
                    Json::Array(schemas) => {
                        bound.extend(schemas.iter().map(|it| it.as_text().unwrap().to_owned()));
                    }
                    _ => panic!("an array"),
                }
            }
        }
        _ => panic!("an object"),
    }
    listed.sort();
    bound.sort();
    bound.dedup();
    assert_eq!(bound, listed);
}

#[test]
fn a_copy_of_an_action_is_the_same_tree() {
    let wait = || AutomationAction::Delay { duration_ms: 250 };
    let action = AutomationAction::Sequence {
        children: vec![
            wait(),
            AutomationAction::Repeat { count: 3, action: Box::new(wait()), delay_ms: 10 },
            AutomationAction::SetState {
                key: "seen".to_owned(),
                value: ScalarValue::Integer(7),
            },
        ],
    };
    assert_eq!(action.clone(), action);
    assert_ne!(action.clone(), wait());
}
