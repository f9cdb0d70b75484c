use std::collections::BTreeSet;

use droidbridge::contract::artifacts::{
    capability_keys, contract_metadata, generated_artifact_hashes, generated_artifacts,
    settlement_bounds, MAX_FRAME_BYTES, SETTLEMENT_RESERVE_FLOOR,
};
use droidbridge::contract::common::{
    ErrorCode, FileTarget, FileTargetType, MotherTool, ProtocolVersion, PublicError, True, UuidV4,
};
use droidbridge::contract::decode::{
    capture_read_source, check_action_fields, check_interaction_fields, read_source, split_payload,
    visual_source,
};
use droidbridge::contract::envelope::{
    canonical_payload_bytes, canonical_payload_sha256, PublicResponse,
};
use droidbridge::contract::internal::{DaemonOperation, MaintenanceStatus};
use droidbridge::contract::schemas::schema_names;
use droidbridge::contract::tools::{action_specs, CaptureReadSource, ReadSource, VisualSource};
use droidbridge::json::{json_text, Json};

const REQUEST_ID: &str = "018f47f2-26a8-4f26-8a65-728feb0e8461";

fn read(text: &str) -> Json {
    Json::parse(text.as_bytes()).expect("a value")
}

fn items<'a>(value: &'a Json, key: &str) -> &'a [Json] {
    match value.get(key) {
        Some(Json::Array(items)) => items,
        _ => panic!("an array"),
    }
}

fn number(value: &Json, key: &str) -> u64 {
    match value.get(key) {
        Some(Json::Unsigned(number)) => *number,
        _ => panic!("a number"),
    }
}

#[test]
fn i1_g01_request_and_response_envelopes_are_exclusive_and_versioned() {
    let payload = read(r#"{"tool":"context","action":"status","input":{"detail":"compact"}}"#);
    let (tool, call) = split_payload(&payload).expect("valid request");
    assert_eq!(tool, MotherTool::Context);
    assert_eq!(json_text(&call), r#"{"action":"status","input":{"detail":"compact"}}"#);
    assert_eq!(ProtocolVersion::from_wire(1), Ok(ProtocolVersion));
    let digest = canonical_payload_sha256(&payload);
    assert_eq!(digest.len(), 64);
    assert!(digest.chars().all(|c| matches!(c, '0'..='9' | 'a'..='f')));
    let turned = read(r#"{"input":{"detail":"compact"},"action":"status","tool":"context"}"#);
    assert_eq!(canonical_payload_bytes(&turned), canonical_payload_bytes(&payload));
    assert_eq!(canonical_payload_sha256(&turned), digest);

    assert!(split_payload(&read(
        r#"{"tool":"context","action":"status","input":{},"extra":true}"#
    ))
    .is_err());
    assert!(ProtocolVersion::from_wire(2).is_err());
    assert!(UuidV4::parse(REQUEST_ID.to_owned()).is_ok());
    assert!(UuidV4::parse(REQUEST_ID.to_uppercase()).is_err());

    let id = UuidV4::parse(REQUEST_ID.to_owned()).unwrap();
    let success = PublicResponse::success(id.clone(), read("{}"));
    assert!(matches!(
        success,
        PublicResponse::Success { protocol_version: ProtocolVersion, .. }
    ));
    let told = PublicError {
        code: ErrorCode::InvalidArgument,
        operation: "context.status".to_owned(),
        retryable: false,
        message: None,
        capability: None,
        details: None,
    };
    assert_eq!(told.code.token(), "INVALID_ARGUMENT");
    match PublicResponse::<Json>::error(Some(id.clone()), told.clone()) {
        PublicResponse::Error { request_id, error, .. } => {
            assert_eq!(request_id, Some(id));
            assert_eq!(error, told);
        }
        PublicResponse::Success { .. } => panic!("an error"),
    }
}

#[test]
fn i1_g02_catalog_fields_defaults_bounds_and_internal_schemas_are_serializable() {
    let metadata = contract_metadata();
    assert_eq!(number(&metadata, "schema_version"), 1);
    assert_eq!(items(&metadata, "error_codes").len(), 23);
    assert_eq!(items(&metadata, "grants").len(), 17);
    assert_eq!(items(&metadata, "effective_capabilities").len(), 16);
    assert_eq!(items(&metadata, "actions").len(), 30);
    assert_eq!(
        metadata.get("result_schema_bindings").and_then(Json::member_count),
        Some(action_specs().len())
    );
    for action in items(&metadata, "actions") {
        let requirement = action.get("capability_requirement").and_then(Json::as_text).unwrap();
        assert!(
            matches!(requirement, "none" | "dynamic") || capability_keys().contains(&requirement)
        );
    }
    assert!(items(&metadata, "utf8_byte_bounds").len() >= 25);
    let semantic = metadata.get("semantic_bounds").unwrap();
    assert_eq!(number(semantic, "automation.tree_depth"), 16);

    let schema_artifact = generated_artifacts(b"{\"schemas\":{}}\n".to_vec())
        .into_iter()
        .find(|artifact| artifact.relative_path == "contract-schema.v1.json")
        .unwrap();
    assert_eq!(schema_artifact.bytes, b"{\"schemas\":{}}\n".to_vec());
    let names = schema_names();
    assert!(names.contains(&"result.network.packet.decode"));
    assert!(names.contains(&"result.visual.observe"));
    match metadata.get("result_schema_bindings") {
        Some(Json::Object(members)) => {
            for member in members {
                match &member.value {
                    Json::Array(bound) => {
                        for name in bound {
                            let name = name.as_text().unwrap();
                            assert!(names.contains(&name), "missing bound result schema {name}");
                        }
                    }
                    _ => panic!("an array"),
                }
            }
        }
        _ => panic!("an object"),
    }

    let update_id = UuidV4::parse(REQUEST_ID.to_owned()).unwrap();
    match DaemonOperation::MaintenanceStatus(MaintenanceStatus { update_id }) {
        DaemonOperation::MaintenanceStatus(status) => {
            assert_eq!(status.update_id.as_str(), REQUEST_ID);
        }
        _ => panic!("a maintenance status"),
    }
    assert!(True::from_wire(false).is_err());
    assert!(True::from_wire(true).is_ok());
}

#[test]
fn i1_g03_generated_schemas_are_byte_deterministic() {
    let schemas = || b"{\"schemas\":{}}\n".to_vec();
    let first = generated_artifacts(schemas());
    let second = generated_artifacts(schemas());
    assert_eq!(first, second);
    assert_eq!(generated_artifact_hashes(schemas()), generated_artifact_hashes(schemas()));
    assert_eq!(first.len(), 4);
}

#[test]
fn i1_g04_dispatch_and_nested_domain_unions_are_unambiguous() {
    let specs = action_specs();
    let pairs: BTreeSet<_> = specs.iter().map(|spec| (spec.tool, spec.action)).collect();
    assert_eq!(pairs.len(), specs.len());
    assert_eq!(specs.iter().filter(|spec| spec.automation_compatible).count(), 7);

    let interaction = |text: &str| check_interaction_fields(&read(text));
    assert!(interaction(&format!(
        r#"{{"operation":"tap","target":"coordinate","observation_id":"{REQUEST_ID}","x":10,"y":20}}"#
    ))
    .is_ok());
    assert!(interaction(&format!(
        r#"{{"operation":"tap","target":"node","node_ref":"node-1","observation_id":"{REQUEST_ID}","x":10,"y":20}}"#
    ))
    .is_err());

    let path = || FileTarget {
        target_type: FileTargetType::Path,
        value: "/tmp/a".to_owned(),
    };
    assert!(read_source(Some(path()), Some("data-1".to_owned())).is_err());
    let content = || FileTarget {
        target_type: FileTargetType::ContentUri,
        value: "content://media/external/downloads/1".to_owned(),
    };
    assert_eq!(read_source(Some(content()), None), Ok(ReadSource::Target { target: content() }));
    let image = || Some("/tmp/image.png".to_owned());
    assert_eq!(
        visual_source(image(), None, None),
        Ok(VisualSource::Path { path: "/tmp/image.png".to_owned() })
    );
    let capture = || Some("capture-1".to_owned());
    assert_eq!(
        capture_read_source(capture(), None),
        Ok(CaptureReadSource::CaptureRef { capture_ref: "capture-1".to_owned() })
    );
    assert!(visual_source(image(), None, Some("dbref:image:1".to_owned())).is_err());
    let file = FileTarget {
        target_type: FileTargetType::Path,
        value: "/tmp/capture.pcap".to_owned(),
    };
    assert!(capture_read_source(capture(), Some(file)).is_err());

    let action = |text: &str| check_action_fields(&read(text));
    assert!(action(
        r#"{"type":"call","tool":"visual","action":"interact","args":{"operation":"tap","target":"node","node_ref":"node-1"}}"#
    )
    .is_ok());
    assert!(interaction(r#"{"operation":"tap","target":"node","node_ref":"node-1"}"#).is_ok());
    assert!(action(
        r#"{"type":"call","tool":"visual","action":"interact","args":{"operation":"tap","target":"node","node_ref":"node-1"},"extra":true}"#
    )
    .is_err());
    assert!(specs
        .iter()
        .any(|spec| spec.tool == "context" && spec.action == "status" && !spec.automation_compatible));
}

#[test]
fn i1_g05_settlement_bounds_cover_escaped_terminal_shapes() {
    let bounds = settlement_bounds();
    let entries = items(&bounds, "entries");
    assert_eq!(entries.len(), action_specs().len());
    let operations: BTreeSet<_> = entries
        .iter()
        .map(|entry| entry.get("operation").and_then(Json::as_text).unwrap())
        .collect();
    assert_eq!(operations.len(), entries.len());
    for entry in entries {
        let bound = number(entry, "maximum_escaped_terminal_bytes");
        assert!(bound >= SETTLEMENT_RESERVE_FLOOR);
        assert!(bound < number(&bounds, "store_hard_cap_bytes"));
        assert_eq!(bound, MAX_FRAME_BYTES);
    }

    let error = PublicResponse::<Json>::error(
        None,
        PublicError {
            code: ErrorCode::InternalError,
            operation: "contract.request".to_owned(),
            retryable: false,
            message: Some("\0".repeat(4096)),
            capability: None,
            details: None,
        },
    );
    match error {
        PublicResponse::Error { error, .. } => {
            let message = json_text(&Json::Text(error.message.unwrap()));
            assert_eq!(message.len(), 6 * 4096 + 2);
            assert!((message.len() as u64) < MAX_FRAME_BYTES);
        }
        PublicResponse::Success { .. } => panic!("an error"),
    }
}
