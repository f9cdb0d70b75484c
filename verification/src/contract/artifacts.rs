//! The generated artifacts of the contract: its limits and tables as other parts of the product read
//! them.

use crate::contract::common::{a_token_reads_back, code_of_token, ErrorCode};
use crate::contract::tools::{action_specs, action_table, ActionSpec};
use crate::digest::{digest_text, sha256_text};
use crate::json::{
    array, entry, item_models, lemma_member_at, member, member_models, object, precedes, pretty,
    pretty_text, text_value, texts_are_ordered_by_their_first_difference, Json, JsonModel, Member,
};
use crate::text::{joined, slices};
use vstd::prelude::*;
use vstd::utf8::encode_utf8;

verus! {

pub const PROTOCOL_VERSION: u32 = 1;

pub const STORE_SCHEMA_VERSION: u32 = 1;

pub const MAX_FRAME_BYTES: u64 = 262_144;

pub const SETTLEMENT_RESERVE_FLOOR: u64 = 16_384;

pub const STORE_HARD_CAP_BYTES: u64 = 8_388_608;

/// Where the artifacts are kept.
pub const GENERATED_ROOT: &'static str = "tools/fixtures/contract";

/// Where the fixtures of the envelopes are kept for the application's tests.
pub const KOTLIN_FIXTURE_PATH: &'static str =
    "app/src/test/resources/contract/kotlin-envelope-fixtures.v1.json";

// ---------------------------------------------------------------------------------------
// Tables.
// ---------------------------------------------------------------------------------------

/// The tokens of the public error codes.
pub open spec fn error_code_tokens_texts() -> Seq<Seq<char>> {
    seq![
        "INVALID_ARGUMENT"@,
        "NOT_FOUND"@,
        "ALREADY_EXISTS"@,
        "PERMISSION_DENIED"@,
        "CAPABILITY_UNAVAILABLE"@,
        "UNSUPPORTED"@,
        "STALE_AUTHORITY"@,
        "STALE_REFERENCE"@,
        "REVISION_CONFLICT"@,
        "TIMEOUT"@,
        "CANCELLED"@,
        "IO_ERROR"@,
        "PROTOCOL_INCOMPATIBLE"@,
        "RESOURCE_LIMIT"@,
        "INTERNAL_ERROR"@,
        "NOT_EMPTY"@,
        "ARCHIVE_CORRUPT"@,
        "ARCHIVE_ENCRYPTED"@,
        "RUN_AS_UNAVAILABLE"@,
        "EXECUTION_FAILED"@,
        "CANCEL_FAILED"@,
        "CAPTURE_FAILED"@,
        "HOST_TRANSITION_PENDING"@,
    ]
}

/// The tokens of the public error codes.
pub fn error_code_tokens() -> (names: Vec<&'static str>)
    ensures
        slices(names@) == error_code_tokens_texts(),
{
    let names = vec![
        "INVALID_ARGUMENT",
        "NOT_FOUND",
        "ALREADY_EXISTS",
        "PERMISSION_DENIED",
        "CAPABILITY_UNAVAILABLE",
        "UNSUPPORTED",
        "STALE_AUTHORITY",
        "STALE_REFERENCE",
        "REVISION_CONFLICT",
        "TIMEOUT",
        "CANCELLED",
        "IO_ERROR",
        "PROTOCOL_INCOMPATIBLE",
        "RESOURCE_LIMIT",
        "INTERNAL_ERROR",
        "NOT_EMPTY",
        "ARCHIVE_CORRUPT",
        "ARCHIVE_ENCRYPTED",
        "RUN_AS_UNAVAILABLE",
        "EXECUTION_FAILED",
        "CANCEL_FAILED",
        "CAPTURE_FAILED",
        "HOST_TRANSITION_PENDING",
    ];
    assert(slices(names@) =~= error_code_tokens_texts());
    names
}

/// The keys of the grants.
pub open spec fn grant_keys_texts() -> Seq<Seq<char>> {
    seq![
        "android.local_network"@,
        "android.notifications"@,
        "android.notification_listener"@,
        "automation.exact_alarm"@,
        "visual.accessibility"@,
        "visual.media_projection_session"@,
        "shizuku.shell"@,
        "magisk.module"@,
        "magisk.root"@,
        "magisk.framework"@,
        "magisk.launch"@,
        "magisk.clipboard"@,
        "magisk.notifications"@,
        "magisk.wake_alarm"@,
        "execution.app_guard"@,
        "execution.shell_guard"@,
        "execution.root_guard"@,
    ]
}

/// The keys of the grants.
pub fn grant_keys() -> (names: Vec<&'static str>)
    ensures
        slices(names@) == grant_keys_texts(),
{
    let names = vec![
        "android.local_network",
        "android.notifications",
        "android.notification_listener",
        "automation.exact_alarm",
        "visual.accessibility",
        "visual.media_projection_session",
        "shizuku.shell",
        "magisk.module",
        "magisk.root",
        "magisk.framework",
        "magisk.launch",
        "magisk.clipboard",
        "magisk.notifications",
        "magisk.wake_alarm",
        "execution.app_guard",
        "execution.shell_guard",
        "execution.root_guard",
    ];
    assert(slices(names@) =~= grant_keys_texts());
    names
}

/// The keys of the effective capabilities.
pub open spec fn capability_keys_texts() -> Seq<Seq<char>> {
    seq![
        "filesystem.privileged_path"@,
        "command.app"@,
        "command.shell"@,
        "command.root"@,
        "network.inspect"@,
        "network.internet"@,
        "network.local"@,
        "network.capture"@,
        "network.inject"@,
        "visual.image"@,
        "visual.hierarchy"@,
        "visual.coordinate_input"@,
        "visual.key_input"@,
        "visual.text_input"@,
        "automation.persistent_time"@,
        "android.notification_access"@,
    ]
}

/// The keys of the effective capabilities.
pub fn capability_keys() -> (names: Vec<&'static str>)
    ensures
        slices(names@) == capability_keys_texts(),
{
    let names = vec![
        "filesystem.privileged_path",
        "command.app",
        "command.shell",
        "command.root",
        "network.inspect",
        "network.internet",
        "network.local",
        "network.capture",
        "network.inject",
        "visual.image",
        "visual.hierarchy",
        "visual.coordinate_input",
        "visual.key_input",
        "visual.text_input",
        "automation.persistent_time",
        "android.notification_access",
    ];
    assert(slices(names@) =~= capability_keys_texts());
    names
}

/// The rules that no single bound states.
pub open spec fn conditional_rules_texts() -> Seq<Seq<char>> {
    seq![
        "filesystem.inspect.max_depth is 1 unless recursive=true"@,
        "command.run.timeout_ms maximum is 150000 for app|shell and 3600000 for root"@,
        "filesystem.read has exactly one of target|data_ref"@,
        "filesystem.read result has exactly one of data|data_ref"@,
        "command.run each stream has exactly one of inline|ref"@,
        "task snapshot terminal result and error are mutually exclusive"@,
        "visual observe image and node presence groups follow their requested availability"@,
        "network inspect availability, data, and truncated keys match the requested families"@,
    ]
}

/// The rules that no single bound states.
pub fn conditional_rules() -> (names: Vec<&'static str>)
    ensures
        slices(names@) == conditional_rules_texts(),
{
    let names = vec![
        "filesystem.inspect.max_depth is 1 unless recursive=true",
        "command.run.timeout_ms maximum is 150000 for app|shell and 3600000 for root",
        "filesystem.read has exactly one of target|data_ref",
        "filesystem.read result has exactly one of data|data_ref",
        "command.run each stream has exactly one of inline|ref",
        "task snapshot terminal result and error are mutually exclusive",
        "visual observe image and node presence groups follow their requested availability",
        "network inspect availability, data, and truncated keys match the requested families",
    ];
    assert(slices(names@) =~= conditional_rules_texts());
    names
}

// ---------------------------------------------------------------------------------------
// Small values.
// ---------------------------------------------------------------------------------------

pub open spec fn texts_model(texts: Seq<Seq<char>>) -> JsonModel {
    JsonModel::Array(texts.map_values(|text: Seq<char>| JsonModel::Text(text)))
}

fn texts_value(texts: &[&str]) -> (value: Json)
    ensures
        value@ == texts_model(slices(texts@)),
{
    let mut items: Vec<Json> = Vec::new();
    for i in 0..texts.len()
        invariant
            items@.len() == i,
            forall|k: int| 0 <= k < i ==> (#[trigger] items@[k])@ == JsonModel::Text(texts@[k]@),
    {
        items.push(text_value(texts[i]));
    }
    assert(item_models(items@) =~= texts_model(slices(texts@))->Array_0);
    array(items)
}

pub open spec fn numbers_model(numbers: Seq<u64>) -> JsonModel {
    JsonModel::Array(numbers.map_values(|number: u64| JsonModel::Unsigned(number)))
}

fn numbers_value(numbers: &[u64]) -> (value: Json)
    ensures
        value@ == numbers_model(numbers@),
{
    let mut items: Vec<Json> = Vec::new();
    for i in 0..numbers.len()
        invariant
            items@.len() == i,
            forall|k: int| 0 <= k < i ==> (#[trigger] items@[k])@ == JsonModel::Unsigned(numbers@[k]),
    {
        items.push(Json::Unsigned(numbers[i]));
    }
    assert(item_models(items@) =~= numbers_model(numbers@)->Array_0);
    array(items)
}

pub open spec fn range_model(min: u64, max: u64) -> JsonModel {
    JsonModel::Object(seq![("max"@, JsonModel::Unsigned(max)), ("min"@, JsonModel::Unsigned(min))])
}

fn range_value(min: u64, max: u64) -> (value: Json)
    ensures
        value@ == range_model(min, max),
{
    let members = vec![entry("max", Json::Unsigned(max)), entry("min", Json::Unsigned(min))];
    assert(member_models(members@) =~= range_model(min, max)->Object_0);
    object(members)
}

// ---------------------------------------------------------------------------------------
// The parts of the metadata.
// ---------------------------------------------------------------------------------------

/// The limits of messages.
pub open spec fn wire_model() -> JsonModel {
    JsonModel::Object(
        seq![
            ("default_inline_bytes"@, JsonModel::Unsigned(65_536)),
            ("default_list_items"@, JsonModel::Unsigned(200)),
            ("error_detail_array_max_items"@, JsonModel::Unsigned(32)),
            ("error_detail_key_max_utf8_bytes"@, JsonModel::Unsigned(64)),
            ("error_detail_string_max_utf8_bytes"@, JsonModel::Unsigned(1_024)),
            ("error_details_max_encoded_utf8_bytes"@, JsonModel::Unsigned(8_192)),
            ("error_details_max_properties"@, JsonModel::Unsigned(32)),
            ("error_message_max_utf8_bytes"@, JsonModel::Unsigned(4_096)),
            ("max_frame_bytes"@, JsonModel::Unsigned(MAX_FRAME_BYTES)),
            ("maximum_inline_bytes"@, JsonModel::Unsigned(1_048_576)),
            ("maximum_list_items"@, JsonModel::Unsigned(5_000)),
        ],
    )
}

fn wire_value() -> (value: Json)
    ensures
        value@ == wire_model(),
{
    let members = vec![
        entry("default_inline_bytes", Json::Unsigned(65_536)),
        entry("default_list_items", Json::Unsigned(200)),
        entry("error_detail_array_max_items", Json::Unsigned(32)),
        entry("error_detail_key_max_utf8_bytes", Json::Unsigned(64)),
        entry("error_detail_string_max_utf8_bytes", Json::Unsigned(1_024)),
        entry("error_details_max_encoded_utf8_bytes", Json::Unsigned(8_192)),
        entry("error_details_max_properties", Json::Unsigned(32)),
        entry("error_message_max_utf8_bytes", Json::Unsigned(4_096)),
        entry("max_frame_bytes", Json::Unsigned(MAX_FRAME_BYTES)),
        entry("maximum_inline_bytes", Json::Unsigned(1_048_576)),
        entry("maximum_list_items", Json::Unsigned(5_000)),
    ];
    assert(member_models(members@) =~= wire_model()->Object_0);
    object(members)
}

/// The bound of one text, in bytes.
#[derive(Clone, Copy, Debug, PartialEq, Eq)]
pub struct ByteBound {
    pub path: &'static str,
    pub min: Option<u64>,
    pub max: u64,
    pub charset: Option<&'static str>,
    pub forbid_nul: bool,
}

pub open spec fn bounded(path: &'static str, min: Option<u64>, max: u64) -> ByteBound {
    ByteBound { path, min, max, charset: None, forbid_nul: false }
}

fn bound(path: &'static str, min: Option<u64>, max: u64) -> (row: ByteBound)
    ensures
        row == bounded(path, min, max),
{
    ByteBound { path, min, max, charset: None, forbid_nul: false }
}

/// The bounds of the texts of the contract.
pub open spec fn byte_bound_table() -> Seq<ByteBound> {
    seq![
        ByteBound { charset: Some("[a-z0-9_.-]"), ..bounded("error.operation", Some(1), 128) },
        bounded("error.message", None, 4_096),
        bounded("error.details.*.key", Some(1), 64),
        bounded("error.details.*.string", None, 1_024),
        bounded("context.status.device.timezone", Some(1), 255),
        bounded("context.status.device.manufacturer", None, 256),
        bounded("context.status.device.model", None, 256),
        bounded("context.status.device.device", None, 256),
        bounded("context.status.device.build_fingerprint", None, 256),
        bounded("context.status.components.*.version", None, 128),
        ByteBound { forbid_nul: true, ..bounded("command.run.command", Some(1), 32_768) },
        ByteBound { forbid_nul: true, ..bounded("command.run.cwd", Some(1), 4_096) },
        bounded("command.run.stdin", None, 65_536),
        ByteBound { charset: Some("ascii"), ..bounded("network.inspect.sockets[].state", None, 32) },
        bounded("visual.observe.foreground.*", None, 512),
        bounded("visual.observe.nodes[].textual_fields", None, 4_096),
        bounded("visual.interact.text", None, 65_536),
        ByteBound { forbid_nul: true, ..bounded("android.*.package_name", Some(1), 255) },
        ByteBound { forbid_nul: true, ..bounded("android.*.class_name", Some(1), 512) },
        ByteBound { forbid_nul: true, ..bounded("android.intent.*_uri", None, 4_096) },
        bounded("android.intent.extras.*.key", Some(1), 128),
        bounded("android.intent.extras.*.string", None, 4_096),
        bounded("android.clipboard.write.text", None, 65_536),
        bounded("android.notification.summary.title", None, 256),
        bounded("android.notification.summary.text", None, 512),
        bounded("android.notification.action.title", None, 512),
        bounded("automation.name", Some(1), 128),
        bounded("automation.state.*.key", Some(1), 64),
        bounded("automation.state.*.string", None, 4_096),
    ]
}

/// The bounds of the texts of the contract.
pub fn byte_bounds() -> (rows: Vec<ByteBound>)
    ensures
        rows@ == byte_bound_table(),
{
    let rows = vec![
        ByteBound { charset: Some("[a-z0-9_.-]"), ..bound("error.operation", Some(1), 128) },
        bound("error.message", None, 4_096),
        bound("error.details.*.key", Some(1), 64),
        bound("error.details.*.string", None, 1_024),
        bound("context.status.device.timezone", Some(1), 255),
        bound("context.status.device.manufacturer", None, 256),
        bound("context.status.device.model", None, 256),
        bound("context.status.device.device", None, 256),
        bound("context.status.device.build_fingerprint", None, 256),
        bound("context.status.components.*.version", None, 128),
        ByteBound { forbid_nul: true, ..bound("command.run.command", Some(1), 32_768) },
        ByteBound { forbid_nul: true, ..bound("command.run.cwd", Some(1), 4_096) },
        bound("command.run.stdin", None, 65_536),
        ByteBound { charset: Some("ascii"), ..bound("network.inspect.sockets[].state", None, 32) },
        bound("visual.observe.foreground.*", None, 512),
        bound("visual.observe.nodes[].textual_fields", None, 4_096),
        bound("visual.interact.text", None, 65_536),
        ByteBound { forbid_nul: true, ..bound("android.*.package_name", Some(1), 255) },
        ByteBound { forbid_nul: true, ..bound("android.*.class_name", Some(1), 512) },
        ByteBound { forbid_nul: true, ..bound("android.intent.*_uri", None, 4_096) },
        bound("android.intent.extras.*.key", Some(1), 128),
        bound("android.intent.extras.*.string", None, 4_096),
        bound("android.clipboard.write.text", None, 65_536),
        bound("android.notification.summary.title", None, 256),
        bound("android.notification.summary.text", None, 512),
        bound("android.notification.action.title", None, 512),
        bound("automation.name", Some(1), 128),
        bound("automation.state.*.key", Some(1), 64),
        bound("automation.state.*.string", None, 4_096),
    ];
    assert(rows@ =~= byte_bound_table());
    rows
}

pub open spec fn one_if(present: bool, key: Seq<char>, value: JsonModel) -> Seq<
    (Seq<char>, JsonModel),
> {
    if present {
        seq![(key, value)]
    } else {
        Seq::empty()
    }
}

/// One bound: what is not bounded is left out.
pub open spec fn byte_bound_model(row: ByteBound) -> JsonModel {
    JsonModel::Object(
        one_if(row.charset is Some, "charset"@, JsonModel::Text(row.charset->0@)) + one_if(
            row.forbid_nul,
            "forbid_nul"@,
            JsonModel::Boolean(true),
        ) + seq![("max"@, JsonModel::Unsigned(row.max))] + one_if(
            row.min is Some,
            "min"@,
            JsonModel::Unsigned(row.min->0),
        ) + seq![("path"@, JsonModel::Text(row.path@))],
    )
}

fn byte_bound_value(row: &ByteBound) -> (value: Json)
    ensures
        value@ == byte_bound_model(*row),
{
    let mut members: Vec<Member> = Vec::new();
    match row.charset {
        Some(charset) => {
            members.push(entry("charset", text_value(charset)));
        },
        None => {},
    }
    if row.forbid_nul {
        members.push(entry("forbid_nul", Json::Boolean(true)));
    }
    members.push(entry("max", Json::Unsigned(row.max)));
    match row.min {
        Some(min) => {
            members.push(entry("min", Json::Unsigned(min)));
        },
        None => {},
    }
    members.push(entry("path", text_value(row.path)));
    assert(member_models(members@) =~= byte_bound_model(*row)->Object_0);
    object(members)
}

pub open spec fn byte_bounds_model() -> JsonModel {
    JsonModel::Array(byte_bound_table().map_values(|row: ByteBound| byte_bound_model(row)))
}

fn byte_bounds_value() -> (value: Json)
    ensures
        value@ == byte_bounds_model(),
{
    let rows = byte_bounds();
    let mut items: Vec<Json> = Vec::new();
    for i in 0..rows.len()
        invariant
            rows@ == byte_bound_table(),
            items@.len() == i,
            forall|k: int| 0 <= k < i ==> (#[trigger] items@[k])@ == byte_bound_model(rows@[k]),
    {
        items.push(byte_bound_value(&rows[i]));
    }
    assert(item_models(items@) =~= byte_bounds_model()->Array_0);
    array(items)
}

/// The bounds that need more than a length.
pub open spec fn semantic_model() -> JsonModel {
    JsonModel::Object(
        seq![
            ("android.notification.live_references"@, JsonModel::Unsigned(256)),
            ("android.notification.reference_ttl_seconds"@, JsonModel::Unsigned(300)),
            ("automation.execution_budget_ms"@, JsonModel::Unsigned(3_600_000)),
            ("automation.expanded_visits"@, JsonModel::Unsigned(10_000)),
            ("automation.state_keys"@, JsonModel::Unsigned(64)),
            ("automation.tree_depth"@, JsonModel::Unsigned(16)),
            ("automation.tree_nodes"@, JsonModel::Unsigned(512)),
            ("filesystem.archive.create.sources"@, range_model(1, 1_000)),
            ("filesystem.read.selected_bytes"@, range_model(1, 1_048_576)),
            ("filesystem.write.edit.replacements"@, range_model(1, 100)),
            ("network.capture.payload_preview_bytes"@, JsonModel::Unsigned(4_096)),
            ("network.capture.stop_wait_ms"@, JsonModel::Unsigned(10_000)),
            ("network.packet.decoded_bytes"@, range_model(1, 131_072)),
            ("network.packet.payload_preview_bytes"@, JsonModel::Unsigned(4_096)),
            ("network.packet.tcp_flags"@, texts_model(seq!["fin"@, "syn"@, "rst"@, "psh"@, "ack"@, "urg"@, "ece"@, "cwr"@])),
            ("request_dedup_max_records"@, JsonModel::Unsigned(4_096)),
            ("request_dedup_retention_hours"@, JsonModel::Unsigned(24)),
            ("visual.display.rotation_degrees"@, numbers_model(seq![0, 90, 180, 270])),
        ],
    )
}

fn semantic_value() -> (value: Json)
    ensures
        value@ == semantic_model(),
{
    let flags = ["fin", "syn", "rst", "psh", "ack", "urg", "ece", "cwr"];
    assert(slices(flags@) =~= seq!["fin"@, "syn"@, "rst"@, "psh"@, "ack"@, "urg"@, "ece"@, "cwr"@]);
    let degrees: [u64; 4] = [0, 90, 180, 270];
    assert(degrees@ =~= seq![0, 90, 180, 270]);
    let members = vec![
        entry("android.notification.live_references", Json::Unsigned(256)),
        entry("android.notification.reference_ttl_seconds", Json::Unsigned(300)),
        entry("automation.execution_budget_ms", Json::Unsigned(3_600_000)),
        entry("automation.expanded_visits", Json::Unsigned(10_000)),
        entry("automation.state_keys", Json::Unsigned(64)),
        entry("automation.tree_depth", Json::Unsigned(16)),
        entry("automation.tree_nodes", Json::Unsigned(512)),
        entry("filesystem.archive.create.sources", range_value(1, 1_000)),
        entry("filesystem.read.selected_bytes", range_value(1, 1_048_576)),
        entry("filesystem.write.edit.replacements", range_value(1, 100)),
        entry("network.capture.payload_preview_bytes", Json::Unsigned(4_096)),
        entry("network.capture.stop_wait_ms", Json::Unsigned(10_000)),
        entry("network.packet.decoded_bytes", range_value(1, 131_072)),
        entry("network.packet.payload_preview_bytes", Json::Unsigned(4_096)),
        entry("network.packet.tcp_flags", texts_value(&flags)),
        entry("request_dedup_max_records", Json::Unsigned(4_096)),
        entry("request_dedup_retention_hours", Json::Unsigned(24)),
        entry("visual.display.rotation_degrees", numbers_value(&degrees)),
    ];
    assert(member_models(members@) =~= semantic_model()->Object_0);
    object(members)
}

pub open spec fn action_model(row: ActionSpec) -> JsonModel {
    JsonModel::Object(
        seq![
            ("action"@, JsonModel::Text(row.action@)),
            ("automation_compatible"@, JsonModel::Boolean(row.automation_compatible)),
            ("capability_requirement"@, JsonModel::Text(row.capability_requirement@)),
            ("tool"@, JsonModel::Text(row.tool@)),
        ],
    )
}

fn action_value(row: &ActionSpec) -> (value: Json)
    ensures
        value@ == action_model(*row),
{
    let members = vec![
        entry("action", text_value(row.action)),
        entry("automation_compatible", Json::Boolean(row.automation_compatible)),
        entry("capability_requirement", text_value(row.capability_requirement)),
        entry("tool", text_value(row.tool)),
    ];
    assert(member_models(members@) =~= action_model(*row)->Object_0);
    object(members)
}

pub open spec fn registry_model() -> JsonModel {
    JsonModel::Array(action_table().map_values(|row: ActionSpec| action_model(row)))
}

/// Every action as it is listed.
pub fn action_registry() -> (value: Json)
    ensures
        value@ == registry_model(),
{
    let rows = action_specs();
    let mut items: Vec<Json> = Vec::new();
    for i in 0..rows.len()
        invariant
            rows@ == action_table(),
            items@.len() == i,
            forall|k: int| 0 <= k < i ==> (#[trigger] items@[k])@ == action_model(rows@[k]),
    {
        items.push(action_value(&rows[i]));
    }
    assert(item_models(items@) =~= registry_model()->Array_0);
    array(items)
}

/// The schemas of the results of an action.
fn binding(action: &str, schemas: &[&str]) -> (made: Member)
    ensures
        made@ == (action@, texts_model(slices(schemas@))),
{
    entry(action, texts_value(schemas))
}

/// The schemas of the results of every action.
pub open spec fn bindings_model() -> JsonModel {
    JsonModel::Object(
        seq![
            ("android.clipboard"@, texts_model(seq!["result.android.clipboard"@])),
            ("android.intent"@, texts_model(seq!["result.android.intent"@])),
            ("android.launch"@, texts_model(seq!["result.android.launch"@])),
            ("android.notification"@, texts_model(seq!["result.android.notification"@])),
            ("android.package"@, texts_model(seq!["result.android.package"@])),
            ("automation.delete"@, texts_model(seq!["result.automation.delete"@])),
            ("automation.get"@, texts_model(seq!["result.automation.get"@])),
            ("automation.list"@, texts_model(seq!["result.automation.list"@])),
            ("automation.run"@, texts_model(seq!["result.automation.run"@])),
            ("automation.save"@, texts_model(seq!["result.automation.save"@])),
            ("automation.set_enabled"@, texts_model(seq!["result.automation.set_enabled"@])),
            ("command.run"@, texts_model(seq!["result.command.run"@, "result.command.run.accepted"@])),
            ("context.catalog"@, texts_model(seq!["result.context.catalog"@])),
            ("context.status"@, texts_model(seq!["result.context.status.compact"@, "result.context.status.full"@])),
            ("filesystem.archive"@, texts_model(seq!["result.filesystem.archive.list"@, "result.filesystem.archive.accepted"@, "result.filesystem.archive.terminal"@])),
            ("filesystem.download"@, texts_model(seq!["result.filesystem.download.accepted"@, "result.filesystem.download.terminal"@])),
            ("filesystem.inspect"@, texts_model(seq!["result.filesystem.inspect"@])),
            ("filesystem.manage"@, texts_model(seq!["result.filesystem.manage"@])),
            ("filesystem.read"@, texts_model(seq!["result.filesystem.read"@])),
            ("filesystem.write"@, texts_model(seq!["result.filesystem.write"@])),
            ("network.capture"@, texts_model(seq!["result.network.capture.start"@, "result.network.capture.read"@, "result.network.capture.terminal"@])),
            ("network.diagnose"@, texts_model(seq!["result.network.diagnose"@])),
            ("network.inspect"@, texts_model(seq!["result.network.inspect"@])),
            ("network.packet"@, texts_model(seq!["result.network.packet.decode"@, "result.network.packet.build"@, "result.network.packet.inject"@])),
            ("task_control.cancel"@, texts_model(seq!["result.task_control.snapshot"@])),
            ("task_control.get"@, texts_model(seq!["result.task_control.snapshot"@])),
            ("task_control.list"@, texts_model(seq!["result.task_control.list"@])),
            ("visual.interact"@, texts_model(seq!["result.visual.interact"@])),
            ("visual.observe"@, texts_model(seq!["result.visual.observe"@])),
            ("visual.view"@, texts_model(seq!["result.visual.view"@])),
        ],
    )
}

/// The schemas of the results of every action.
pub fn result_schema_bindings() -> (value: Json)
    ensures
        value@ == bindings_model(),
{
    let schemas = ["result.android.clipboard"];
    assert(slices(schemas@) =~= seq!["result.android.clipboard"@]);
    let mut members: Vec<Member> = Vec::new();
    members.push(binding("android.clipboard", &schemas));
    let schemas = ["result.android.intent"];
    assert(slices(schemas@) =~= seq!["result.android.intent"@]);
    members.push(binding("android.intent", &schemas));
    let schemas = ["result.android.launch"];
    assert(slices(schemas@) =~= seq!["result.android.launch"@]);
    members.push(binding("android.launch", &schemas));
    let schemas = ["result.android.notification"];
    assert(slices(schemas@) =~= seq!["result.android.notification"@]);
    members.push(binding("android.notification", &schemas));
    let schemas = ["result.android.package"];
    assert(slices(schemas@) =~= seq!["result.android.package"@]);
    members.push(binding("android.package", &schemas));
    let schemas = ["result.automation.delete"];
    assert(slices(schemas@) =~= seq!["result.automation.delete"@]);
    members.push(binding("automation.delete", &schemas));
    let schemas = ["result.automation.get"];
    assert(slices(schemas@) =~= seq!["result.automation.get"@]);
    members.push(binding("automation.get", &schemas));
    let schemas = ["result.automation.list"];
    assert(slices(schemas@) =~= seq!["result.automation.list"@]);
    members.push(binding("automation.list", &schemas));
    let schemas = ["result.automation.run"];
    assert(slices(schemas@) =~= seq!["result.automation.run"@]);
    members.push(binding("automation.run", &schemas));
    let schemas = ["result.automation.save"];
    assert(slices(schemas@) =~= seq!["result.automation.save"@]);
    members.push(binding("automation.save", &schemas));
    let schemas = ["result.automation.set_enabled"];
    assert(slices(schemas@) =~= seq!["result.automation.set_enabled"@]);
    members.push(binding("automation.set_enabled", &schemas));
    let schemas = ["result.command.run", "result.command.run.accepted"];
    assert(slices(schemas@) =~= seq!["result.command.run"@, "result.command.run.accepted"@]);
    members.push(binding("command.run", &schemas));
    let schemas = ["result.context.catalog"];
    assert(slices(schemas@) =~= seq!["result.context.catalog"@]);
    members.push(binding("context.catalog", &schemas));
    let schemas = ["result.context.status.compact", "result.context.status.full"];
    assert(slices(schemas@) =~= seq!["result.context.status.compact"@, "result.context.status.full"@]);
    members.push(binding("context.status", &schemas));
    let schemas = ["result.filesystem.archive.list", "result.filesystem.archive.accepted", "result.filesystem.archive.terminal"];
    assert(slices(schemas@) =~= seq!["result.filesystem.archive.list"@, "result.filesystem.archive.accepted"@, "result.filesystem.archive.terminal"@]);
    members.push(binding("filesystem.archive", &schemas));
    let schemas = ["result.filesystem.download.accepted", "result.filesystem.download.terminal"];
    assert(slices(schemas@) =~= seq!["result.filesystem.download.accepted"@, "result.filesystem.download.terminal"@]);
    members.push(binding("filesystem.download", &schemas));
    let schemas = ["result.filesystem.inspect"];
    assert(slices(schemas@) =~= seq!["result.filesystem.inspect"@]);
    members.push(binding("filesystem.inspect", &schemas));
    let schemas = ["result.filesystem.manage"];
    assert(slices(schemas@) =~= seq!["result.filesystem.manage"@]);
    members.push(binding("filesystem.manage", &schemas));
    let schemas = ["result.filesystem.read"];
    assert(slices(schemas@) =~= seq!["result.filesystem.read"@]);
    members.push(binding("filesystem.read", &schemas));
    let schemas = ["result.filesystem.write"];
    assert(slices(schemas@) =~= seq!["result.filesystem.write"@]);
    members.push(binding("filesystem.write", &schemas));
    let schemas = ["result.network.capture.start", "result.network.capture.read", "result.network.capture.terminal"];
    assert(slices(schemas@) =~= seq!["result.network.capture.start"@, "result.network.capture.read"@, "result.network.capture.terminal"@]);
    members.push(binding("network.capture", &schemas));
    let schemas = ["result.network.diagnose"];
    assert(slices(schemas@) =~= seq!["result.network.diagnose"@]);
    members.push(binding("network.diagnose", &schemas));
    let schemas = ["result.network.inspect"];
    assert(slices(schemas@) =~= seq!["result.network.inspect"@]);
    members.push(binding("network.inspect", &schemas));
    let schemas = ["result.network.packet.decode", "result.network.packet.build", "result.network.packet.inject"];
    assert(slices(schemas@) =~= seq!["result.network.packet.decode"@, "result.network.packet.build"@, "result.network.packet.inject"@]);
    members.push(binding("network.packet", &schemas));
    let schemas = ["result.task_control.snapshot"];
    assert(slices(schemas@) =~= seq!["result.task_control.snapshot"@]);
    members.push(binding("task_control.cancel", &schemas));
    let schemas = ["result.task_control.snapshot"];
    assert(slices(schemas@) =~= seq!["result.task_control.snapshot"@]);
    members.push(binding("task_control.get", &schemas));
    let schemas = ["result.task_control.list"];
    assert(slices(schemas@) =~= seq!["result.task_control.list"@]);
    members.push(binding("task_control.list", &schemas));
    let schemas = ["result.visual.interact"];
    assert(slices(schemas@) =~= seq!["result.visual.interact"@]);
    members.push(binding("visual.interact", &schemas));
    let schemas = ["result.visual.observe"];
    assert(slices(schemas@) =~= seq!["result.visual.observe"@]);
    members.push(binding("visual.observe", &schemas));
    let schemas = ["result.visual.view"];
    assert(slices(schemas@) =~= seq!["result.visual.view"@]);
    members.push(binding("visual.view", &schemas));
    assert(member_models(members@) =~= bindings_model()->Object_0);
    object(members)
}

/// The metadata of the contract.
pub open spec fn metadata_model() -> JsonModel {
    JsonModel::Object(
        seq![
            ("actions"@, registry_model()),
            ("conditional_rules"@, texts_model(conditional_rules_texts())),
            ("effective_capabilities"@, texts_model(capability_keys_texts())),
            ("error_codes"@, texts_model(error_code_tokens_texts())),
            ("grants"@, texts_model(grant_keys_texts())),
            ("protocol_version"@, JsonModel::Unsigned(PROTOCOL_VERSION as u64)),
            ("result_schema_bindings"@, bindings_model()),
            ("runtime_hosts"@, texts_model(seq!["apk_runtime"@, "magisk_backend"@])),
            ("schema_version"@, JsonModel::Unsigned(1)),
            ("semantic_bounds"@, semantic_model()),
            ("store_schema_version"@, JsonModel::Unsigned(STORE_SCHEMA_VERSION as u64)),
            ("utf8_byte_bounds"@, byte_bounds_model()),
            ("wire"@, wire_model()),
        ],
    )
}

/// The metadata of the contract.
pub fn contract_metadata() -> (value: Json)
    ensures
        value@ == metadata_model(),
{
    let rules = conditional_rules();
    let capabilities = capability_keys();
    let codes = error_code_tokens();
    let grants = grant_keys();
    let hosts = ["apk_runtime", "magisk_backend"];
    assert(slices(hosts@) =~= seq!["apk_runtime"@, "magisk_backend"@]);
    let members = vec![
        entry("actions", action_registry()),
        entry("conditional_rules", texts_value(rules.as_slice())),
        entry("effective_capabilities", texts_value(capabilities.as_slice())),
        entry("error_codes", texts_value(codes.as_slice())),
        entry("grants", texts_value(grants.as_slice())),
        entry("protocol_version", Json::Unsigned(PROTOCOL_VERSION as u64)),
        entry("result_schema_bindings", result_schema_bindings()),
        entry("runtime_hosts", texts_value(&hosts)),
        entry("schema_version", Json::Unsigned(1)),
        entry("semantic_bounds", semantic_value()),
        entry("store_schema_version", Json::Unsigned(STORE_SCHEMA_VERSION as u64)),
        entry("utf8_byte_bounds", byte_bounds_value()),
        entry("wire", wire_value()),
    ];
    assert(member_models(members@) =~= metadata_model()->Object_0);
    object(members)
}

// ---------------------------------------------------------------------------------------
// Settlement.
// ---------------------------------------------------------------------------------------

/// How large the terminal result of an action can be.
pub open spec fn settlement_entry_model(row: ActionSpec) -> JsonModel {
    JsonModel::Object(
        seq![
            ("maximum_escaped_terminal_bytes"@, JsonModel::Unsigned(MAX_FRAME_BYTES)),
            ("operation"@, JsonModel::Text(row.tool@ + "."@ + row.action@)),
        ],
    )
}

pub open spec fn settlement_model() -> JsonModel {
    JsonModel::Object(
        seq![
            (
                "entries"@,
                JsonModel::Array(
                    action_table().map_values(|row: ActionSpec| settlement_entry_model(row)),
                ),
            ),
            ("reserve_floor_bytes"@, JsonModel::Unsigned(SETTLEMENT_RESERVE_FLOOR)),
            ("schema_version"@, JsonModel::Unsigned(1)),
            ("store_hard_cap_bytes"@, JsonModel::Unsigned(STORE_HARD_CAP_BYTES)),
        ],
    )
}

/// What has to be kept free for the terminal results of every action.
pub fn settlement_bounds() -> (value: Json)
    ensures
        value@ == settlement_model(),
{
    let rows = action_specs();
    let mut items: Vec<Json> = Vec::new();
    for i in 0..rows.len()
        invariant
            rows@ == action_table(),
            items@.len() == i,
            forall|k: int|
                0 <= k < i ==> (#[trigger] items@[k])@ == settlement_entry_model(rows@[k]),
    {
        let front = joined(rows[i].tool, ".");
        let operation = joined(front.as_str(), rows[i].action);
        let members = vec![
            entry("maximum_escaped_terminal_bytes", Json::Unsigned(MAX_FRAME_BYTES)),
            entry("operation", text_value(operation.as_str())),
        ];
        assert(member_models(members@) =~= settlement_entry_model(rows@[i as int])->Object_0);
        items.push(object(members));
    }
    assert(item_models(items@) =~= action_table().map_values(
        |row: ActionSpec| settlement_entry_model(row),
    ));
    let members = vec![
        entry("entries", array(items)),
        entry("reserve_floor_bytes", Json::Unsigned(SETTLEMENT_RESERVE_FLOOR)),
        entry("schema_version", Json::Unsigned(1)),
        entry("store_hard_cap_bytes", Json::Unsigned(STORE_HARD_CAP_BYTES)),
    ];
    assert(member_models(members@) =~= settlement_model()->Object_0);
    object(members)
}

/// Every action settles in at least the reserve, and in less than the store can hold.
pub proof fn settlements_fit_the_store(row: ActionSpec)
    ensures
        settlement_entry_model(row).get("maximum_escaped_terminal_bytes"@) == Some(
            JsonModel::Unsigned(MAX_FRAME_BYTES),
        ),
        SETTLEMENT_RESERVE_FLOOR <= MAX_FRAME_BYTES < STORE_HARD_CAP_BYTES,
{
}

// ---------------------------------------------------------------------------------------
// Fixtures of the envelopes.
// ---------------------------------------------------------------------------------------

pub open spec fn fixture_request_id() -> Seq<char> {
    "018f47f2-26a8-4f26-8a65-728feb0e8461"@
}

pub open spec fn request_fixture_model() -> JsonModel {
    JsonModel::Object(
        seq![
            (
                "payload"@,
                JsonModel::Object(
                    seq![
                        ("action"@, JsonModel::Text("status"@)),
                        (
                            "input"@,
                            JsonModel::Object(seq![("detail"@, JsonModel::Text("compact"@))]),
                        ),
                        ("tool"@, JsonModel::Text("context"@)),
                    ],
                ),
            ),
            ("protocol_version"@, JsonModel::Unsigned(1)),
            ("request_id"@, JsonModel::Text(fixture_request_id())),
        ],
    )
}

fn request_fixture() -> (value: Json)
    ensures
        value@ == request_fixture_model(),
{
    let detail = vec![entry("detail", text_value("compact"))];
    assert(member_models(detail@) =~= seq![("detail"@, JsonModel::Text("compact"@))]);
    let payload = vec![
        entry("action", text_value("status")),
        entry("input", object(detail)),
        entry("tool", text_value("context")),
    ];
    assert(member_models(payload@) =~= request_fixture_model()->Object_0[0].1->Object_0);
    let members = vec![
        entry("payload", object(payload)),
        entry("protocol_version", Json::Unsigned(1)),
        entry("request_id", text_value("018f47f2-26a8-4f26-8a65-728feb0e8461")),
    ];
    assert(member_models(members@) =~= request_fixture_model()->Object_0);
    object(members)
}

pub open spec fn success_fixture_model() -> JsonModel {
    JsonModel::Object(
        seq![
            ("outcome"@, JsonModel::Text("success"@)),
            ("protocol_version"@, JsonModel::Unsigned(1)),
            ("request_id"@, JsonModel::Text(fixture_request_id())),
            ("result"@, JsonModel::Object(Seq::empty())),
        ],
    )
}

fn success_fixture() -> (value: Json)
    ensures
        value@ == success_fixture_model(),
{
    let nothing: Vec<Member> = Vec::new();
    assert(member_models(nothing@) =~= Seq::empty());
    let members = vec![
        entry("outcome", text_value("success")),
        entry("protocol_version", Json::Unsigned(1)),
        entry("request_id", text_value("018f47f2-26a8-4f26-8a65-728feb0e8461")),
        entry("result", object(nothing)),
    ];
    assert(member_models(members@) =~= success_fixture_model()->Object_0);
    object(members)
}

pub open spec fn error_fixture_model() -> JsonModel {
    JsonModel::Object(
        seq![
            (
                "error"@,
                JsonModel::Object(
                    seq![
                        ("code"@, JsonModel::Text("INVALID_ARGUMENT"@)),
                        ("operation"@, JsonModel::Text("context.status"@)),
                        ("retryable"@, JsonModel::Boolean(false)),
                    ],
                ),
            ),
            ("outcome"@, JsonModel::Text("error"@)),
            ("protocol_version"@, JsonModel::Unsigned(1)),
            ("request_id"@, JsonModel::Text(fixture_request_id())),
        ],
    )
}

fn error_fixture() -> (value: Json)
    ensures
        value@ == error_fixture_model(),
{
    let error = vec![
        entry("code", text_value("INVALID_ARGUMENT")),
        entry("operation", text_value("context.status")),
        entry("retryable", Json::Boolean(false)),
    ];
    assert(member_models(error@) =~= error_fixture_model()->Object_0[0].1->Object_0);
    let members = vec![
        entry("error", object(error)),
        entry("outcome", text_value("error")),
        entry("protocol_version", Json::Unsigned(1)),
        entry("request_id", text_value("018f47f2-26a8-4f26-8a65-728feb0e8461")),
    ];
    assert(member_models(members@) =~= error_fixture_model()->Object_0);
    object(members)
}

pub open spec fn fixture_model(name: Seq<char>, json: JsonModel) -> JsonModel {
    JsonModel::Object(seq![("json"@, json), ("name"@, JsonModel::Text(name))])
}

fn fixture(name: &str, json: Json) -> (value: Json)
    ensures
        value@ == fixture_model(name@, json@),
{
    let ghost model = json@;
    let members = vec![entry("json", json), entry("name", text_value(name))];
    assert(member_models(members@) =~= fixture_model(name@, model)->Object_0);
    object(members)
}

pub open spec fn fixtures_model() -> JsonModel {
    JsonModel::Object(
        seq![
            (
                "fixtures"@,
                JsonModel::Array(
                    seq![
                        fixture_model("context_status_request"@, request_fixture_model()),
                        fixture_model("success_response"@, success_fixture_model()),
                        fixture_model("error_response"@, error_fixture_model()),
                    ],
                ),
            ),
            ("schema_version"@, JsonModel::Unsigned(1)),
        ],
    )
}

/// One request and one response of each kind, as the application must read them.
pub fn kotlin_envelope_fixtures() -> (value: Json)
    ensures
        value@ == fixtures_model(),
{
    let items = vec![
        fixture("context_status_request", request_fixture()),
        fixture("success_response", success_fixture()),
        fixture("error_response", error_fixture()),
    ];
    assert(item_models(items@) =~= fixtures_model()->Object_0[0].1->Array_0);
    let members = vec![
        entry("fixtures", array(items)),
        entry("schema_version", Json::Unsigned(1)),
    ];
    assert(member_models(members@) =~= fixtures_model()->Object_0);
    object(members)
}

// ---------------------------------------------------------------------------------------
// The artifacts.
// ---------------------------------------------------------------------------------------

/// One file that is generated.
#[derive(Clone, Debug, PartialEq, Eq)]
pub struct GeneratedArtifact {
    pub relative_path: &'static str,
    pub bytes: Vec<u8>,
}

/// The bytes of a generated value: its text over several lines, and a line feed.
pub open spec fn artifact_bytes(value: JsonModel) -> Seq<u8> {
    encode_utf8(pretty(value, ""@) + "\n"@)
}

fn artifact_of(value: &Json) -> (bytes: Vec<u8>)
    ensures
        bytes@ == artifact_bytes(value@),
{
    let text = pretty_text(value, "");
    let line = joined(text.as_str(), "\n");
    vstd::slice::slice_to_vec(line.as_str().as_bytes())
}

/// What the artifacts are: their paths and bytes.
pub open spec fn artifact_models(artifacts: Seq<GeneratedArtifact>) -> Seq<(Seq<char>, Seq<u8>)> {
    Seq::new(
        artifacts.len(),
        |i: int| (artifacts[i].relative_path@, artifacts[i].bytes@),
    )
}

/// The paths and bytes of the artifacts, given the bytes of the schemas.
pub open spec fn expected_artifacts(schemas: Seq<u8>) -> Seq<(Seq<char>, Seq<u8>)> {
    seq![
        ("contract-schema.v1.json"@, schemas),
        ("contract-metadata.v1.json"@, artifact_bytes(metadata_model())),
        ("settlement-bounds.v1.json"@, artifact_bytes(settlement_model())),
        ("kotlin-envelope-fixtures.v1.json"@, artifact_bytes(fixtures_model())),
    ]
}

/// Every artifact. `schemas` are the bytes of the schemas of the public types.
pub fn generated_artifacts(schemas: Vec<u8>) -> (artifacts: Vec<GeneratedArtifact>)
    ensures
        artifact_models(artifacts@) == expected_artifacts(schemas@),
{
    let ghost schema_bytes = schemas@;
    let artifacts = vec![
        GeneratedArtifact { relative_path: "contract-schema.v1.json", bytes: schemas },
        GeneratedArtifact {
            relative_path: "contract-metadata.v1.json",
            bytes: artifact_of(&contract_metadata()),
        },
        GeneratedArtifact {
            relative_path: "settlement-bounds.v1.json",
            bytes: artifact_of(&settlement_bounds()),
        },
        GeneratedArtifact {
            relative_path: "kotlin-envelope-fixtures.v1.json",
            bytes: artifact_of(&kotlin_envelope_fixtures()),
        },
    ];
    assert(artifact_models(artifacts@) =~= expected_artifacts(schema_bytes));
    artifacts
}

/// The positions of the artifacts in the order of their paths.
pub open spec fn path_order() -> Seq<int> {
    seq![1, 0, 3, 2]
}

/// Whether `hash` is the path and the digest of an artifact.
pub open spec fn is_hash_of(hash: (&'static str, String), artifact: (Seq<char>, Seq<u8>)) -> bool {
    hash.0@ == artifact.0 && hash.1@ == digest_text(artifact.1)
}

fn hash_of(artifact: &GeneratedArtifact) -> (hash: (&'static str, String))
    ensures
        is_hash_of(hash, (artifact.relative_path@, artifact.bytes@)),
{
    (artifact.relative_path, sha256_text(artifact.bytes.as_slice()))
}

/// The path and the digest of every artifact, in the order of the paths.
pub fn generated_artifact_hashes(schemas: Vec<u8>) -> (hashes: Vec<(&'static str, String)>)
    ensures
        hashes@.len() == 4,
        forall|i: int|
            0 <= i < 4 ==> is_hash_of(
                #[trigger] hashes@[i],
                expected_artifacts(schemas@)[path_order()[i]],
            ),
{
    let ghost schema_bytes = schemas@;
    let artifacts = generated_artifacts(schemas);
    assert(artifact_models(artifacts@).len() == 4);
    assert forall|i: int| 0 <= i < 4 implies expected_artifacts(schema_bytes)[i] == (
        (#[trigger] artifacts@[i]).relative_path@,
        artifacts@[i].bytes@,
    ) by {
        assert(artifact_models(artifacts@)[i] == expected_artifacts(schema_bytes)[i]);
    }
    vec![
        hash_of(&artifacts[1]),
        hash_of(&artifacts[0]),
        hash_of(&artifacts[3]),
        hash_of(&artifacts[2]),
    ]
}

/// The artifacts are the same every time: the same schemas give the same paths and bytes, so that a
/// file that differs is stale.
pub proof fn artifacts_are_deterministic(
    schemas: Seq<u8>,
    first: Seq<GeneratedArtifact>,
    second: Seq<GeneratedArtifact>,
)
    requires
        artifact_models(first) == expected_artifacts(schemas),
        artifact_models(second) == expected_artifacts(schemas),
    ensures
        first.len() == second.len() == 4,
        forall|i: int|
            0 <= i < first.len() ==> (#[trigger] first[i]).relative_path@
                == second[i].relative_path@ && first[i].bytes@ == second[i].bytes@,
{
    assert(artifact_models(first).len() == first.len());
    assert(artifact_models(second).len() == second.len());
    assert forall|i: int| 0 <= i < first.len() implies (#[trigger] first[i]).relative_path@
        == second[i].relative_path@ && first[i].bytes@ == second[i].bytes@ by {
        assert(artifact_models(first)[i] == artifact_models(second)[i]);
    }
}

// ---------------------------------------------------------------------------------------
// Laws.
// ---------------------------------------------------------------------------------------

/// The tokens that are listed are those of the codes: each code's is there, in the order in which
/// the codes are declared, and nothing else is.
pub proof fn every_code_is_listed(
    code: ErrorCode,
    token: &'static str,
    names: Vec<&'static str>,
    i: int,
)
    requires
        call_ensures(ErrorCode::token, (code,), token),
        call_ensures(error_code_tokens, (), names),
        0 <= i < names@.len(),
    ensures
        names@.len() == 23,
        exists|k: int| 0 <= k < 23 && (#[trigger] names@[k])@ == token@,
        code_of_token(names@[i]@) is Some,
        code is InvalidArgument ==> names@[0]@ == token@,
        code is HostTransitionPending ==> names@[22]@ == token@,
{
    let listed = slices(names@);
    assert(listed.len() == names@.len());
    assert(listed[i] == names@[i]@);
    match code {
        ErrorCode::InvalidArgument => {
            assert(listed[0] == names@[0]@);
        },
        ErrorCode::NotFound => {
            assert(listed[1] == names@[1]@);
        },
        ErrorCode::AlreadyExists => {
            assert(listed[2] == names@[2]@);
        },
        ErrorCode::PermissionDenied => {
            assert(listed[3] == names@[3]@);
        },
        ErrorCode::CapabilityUnavailable => {
            assert(listed[4] == names@[4]@);
        },
        ErrorCode::Unsupported => {
            assert(listed[5] == names@[5]@);
        },
        ErrorCode::StaleAuthority => {
            assert(listed[6] == names@[6]@);
        },
        ErrorCode::StaleReference => {
            assert(listed[7] == names@[7]@);
        },
        ErrorCode::RevisionConflict => {
            assert(listed[8] == names@[8]@);
        },
        ErrorCode::Timeout => {
            assert(listed[9] == names@[9]@);
        },
        ErrorCode::Cancelled => {
            assert(listed[10] == names@[10]@);
        },
        ErrorCode::IoError => {
            assert(listed[11] == names@[11]@);
        },
        ErrorCode::ProtocolIncompatible => {
            assert(listed[12] == names@[12]@);
        },
        ErrorCode::ResourceLimit => {
            assert(listed[13] == names@[13]@);
        },
        ErrorCode::InternalError => {
            assert(listed[14] == names@[14]@);
        },
        ErrorCode::NotEmpty => {
            assert(listed[15] == names@[15]@);
        },
        ErrorCode::ArchiveCorrupt => {
            assert(listed[16] == names@[16]@);
        },
        ErrorCode::ArchiveEncrypted => {
            assert(listed[17] == names@[17]@);
        },
        ErrorCode::RunAsUnavailable => {
            assert(listed[18] == names@[18]@);
        },
        ErrorCode::ExecutionFailed => {
            assert(listed[19] == names@[19]@);
        },
        ErrorCode::CancelFailed => {
            assert(listed[20] == names@[20]@);
        },
        ErrorCode::CaptureFailed => {
            assert(listed[21] == names@[21]@);
        },
        ErrorCode::HostTransitionPending => {
            assert(listed[22] == names@[22]@);
        },
    }
    a_token_reads_back(ErrorCode::InvalidArgument);
    a_token_reads_back(ErrorCode::NotFound);
    a_token_reads_back(ErrorCode::AlreadyExists);
    a_token_reads_back(ErrorCode::PermissionDenied);
    a_token_reads_back(ErrorCode::CapabilityUnavailable);
    a_token_reads_back(ErrorCode::Unsupported);
    a_token_reads_back(ErrorCode::StaleAuthority);
    a_token_reads_back(ErrorCode::StaleReference);
    a_token_reads_back(ErrorCode::RevisionConflict);
    a_token_reads_back(ErrorCode::Timeout);
    a_token_reads_back(ErrorCode::Cancelled);
    a_token_reads_back(ErrorCode::IoError);
    a_token_reads_back(ErrorCode::ProtocolIncompatible);
    a_token_reads_back(ErrorCode::ResourceLimit);
    a_token_reads_back(ErrorCode::InternalError);
    a_token_reads_back(ErrorCode::NotEmpty);
    a_token_reads_back(ErrorCode::ArchiveCorrupt);
    a_token_reads_back(ErrorCode::ArchiveEncrypted);
    a_token_reads_back(ErrorCode::RunAsUnavailable);
    a_token_reads_back(ErrorCode::ExecutionFailed);
    a_token_reads_back(ErrorCode::CancelFailed);
    a_token_reads_back(ErrorCode::CaptureFailed);
    a_token_reads_back(ErrorCode::HostTransitionPending);
}

/// An action is listed by its tool, its name, whether an automation may call it, and what it needs,
/// one after the other as the actions are.
pub proof fn an_action_is_listed_as_it_is(rows: Vec<ActionSpec>, value: Json, i: int)
    requires
        call_ensures(action_specs, (), rows),
        call_ensures(action_registry, (), value),
        0 <= i < rows@.len(),
    ensures
        value@ is Array && value@->Array_0.len() == rows@.len(),
        value@->Array_0[i].get("tool"@) == Some(JsonModel::Text(rows@[i].tool@)),
        value@->Array_0[i].get("action"@) == Some(JsonModel::Text(rows@[i].action@)),
        value@->Array_0[i].get("automation_compatible"@) == Some(
            JsonModel::Boolean(rows@[i].automation_compatible),
        ),
        value@->Array_0[i].get("capability_requirement"@) == Some(
            JsonModel::Text(rows@[i].capability_requirement@),
        ),
{
    let members = action_model(rows@[i])->Object_0;
    assert(value@->Array_0[i] == action_model(rows@[i]));
    assert("action"@ != "automation_compatible"@) by {
        reveal_strlit("action");
        reveal_strlit("automation_compatible");
        assert("action"@.len() != "automation_compatible"@.len());
    }
    assert("action"@ != "capability_requirement"@) by {
        reveal_strlit("action");
        reveal_strlit("capability_requirement");
        assert("action"@.len() != "capability_requirement"@.len());
    }
    assert("action"@ != "tool"@) by {
        reveal_strlit("action");
        reveal_strlit("tool");
        assert("action"@.len() != "tool"@.len());
    }
    assert("automation_compatible"@ != "capability_requirement"@) by {
        reveal_strlit("automation_compatible");
        reveal_strlit("capability_requirement");
        assert("automation_compatible"@.len() != "capability_requirement"@.len());
    }
    assert("automation_compatible"@ != "tool"@) by {
        reveal_strlit("automation_compatible");
        reveal_strlit("tool");
        assert("automation_compatible"@.len() != "tool"@.len());
    }
    assert("capability_requirement"@ != "tool"@) by {
        reveal_strlit("capability_requirement");
        reveal_strlit("tool");
        assert("capability_requirement"@.len() != "tool"@.len());
    }
    lemma_member_at(members, 0);
    lemma_member_at(members, 1);
    lemma_member_at(members, 2);
    lemma_member_at(members, 3);
}

/// Every action settles in at most 262144 bytes, under the name of its tool and its own with a dot
/// between them; 16384 bytes are kept free, and the store holds 8388608.
pub proof fn every_action_has_its_settlement(rows: Vec<ActionSpec>, value: Json, i: int)
    requires
        call_ensures(action_specs, (), rows),
        call_ensures(settlement_bounds, (), value),
        0 <= i < rows@.len(),
    ensures
        value@.get("schema_version"@) == Some(JsonModel::Unsigned(1)),
        value@.get("reserve_floor_bytes"@) == Some(JsonModel::Unsigned(16_384)),
        value@.get("store_hard_cap_bytes"@) == Some(JsonModel::Unsigned(8_388_608)),
        value@.get("entries"@) is Some && value@.get("entries"@)->0 is Array,
        value@.get("entries"@)->0->Array_0.len() == rows@.len(),
        value@.get("entries"@)->0->Array_0[i].get("operation"@) == Some(
            JsonModel::Text(rows@[i].tool@ + "."@ + rows@[i].action@),
        ),
        value@.get("entries"@)->0->Array_0[i].get("maximum_escaped_terminal_bytes"@) == Some(
            JsonModel::Unsigned(262_144),
        ),
{
    let members = settlement_model()->Object_0;
    let inner = settlement_entry_model(rows@[i])->Object_0;
    assert("entries"@ != "reserve_floor_bytes"@) by {
        reveal_strlit("entries");
        reveal_strlit("reserve_floor_bytes");
        assert("entries"@.len() != "reserve_floor_bytes"@.len());
    }
    assert("entries"@ != "schema_version"@) by {
        reveal_strlit("entries");
        reveal_strlit("schema_version");
        assert("entries"@.len() != "schema_version"@.len());
    }
    assert("entries"@ != "store_hard_cap_bytes"@) by {
        reveal_strlit("entries");
        reveal_strlit("store_hard_cap_bytes");
        assert("entries"@.len() != "store_hard_cap_bytes"@.len());
    }
    assert("reserve_floor_bytes"@ != "schema_version"@) by {
        reveal_strlit("reserve_floor_bytes");
        reveal_strlit("schema_version");
        assert("reserve_floor_bytes"@.len() != "schema_version"@.len());
    }
    assert("reserve_floor_bytes"@ != "store_hard_cap_bytes"@) by {
        reveal_strlit("reserve_floor_bytes");
        reveal_strlit("store_hard_cap_bytes");
        assert("reserve_floor_bytes"@.len() != "store_hard_cap_bytes"@.len());
    }
    assert("schema_version"@ != "store_hard_cap_bytes"@) by {
        reveal_strlit("schema_version");
        reveal_strlit("store_hard_cap_bytes");
        assert("schema_version"@.len() != "store_hard_cap_bytes"@.len());
    }
    lemma_member_at(members, 0);
    lemma_member_at(members, 1);
    lemma_member_at(members, 2);
    lemma_member_at(members, 3);
    assert("maximum_escaped_terminal_bytes"@ != "operation"@) by {
        reveal_strlit("maximum_escaped_terminal_bytes");
        reveal_strlit("operation");
        assert("maximum_escaped_terminal_bytes"@.len() != "operation"@.len());
    }
    lemma_member_at(inner, 0);
    lemma_member_at(inner, 1);
    assert(members[0].1->Array_0[i] == settlement_entry_model(rows@[i]));
}

proof fn lemma_metadata_members()
    ensures
        ({
            let value = metadata_model();
            &&& value.get("actions"@) == Some(registry_model())
            &&& value.get("conditional_rules"@) == Some(texts_model(conditional_rules_texts()))
            &&& value.get("effective_capabilities"@) == Some(texts_model(capability_keys_texts()))
            &&& value.get("error_codes"@) == Some(texts_model(error_code_tokens_texts()))
            &&& value.get("grants"@) == Some(texts_model(grant_keys_texts()))
            &&& value.get("protocol_version"@) == Some(JsonModel::Unsigned(1))
            &&& value.get("result_schema_bindings"@) == Some(bindings_model())
            &&& value.get("runtime_hosts"@) == Some(texts_model(seq!["apk_runtime"@,
                "magisk_backend"@]))
            &&& value.get("schema_version"@) == Some(JsonModel::Unsigned(1))
            &&& value.get("semantic_bounds"@) == Some(semantic_model())
            &&& value.get("store_schema_version"@) == Some(JsonModel::Unsigned(1))
            &&& value.get("utf8_byte_bounds"@) == Some(byte_bounds_model())
            &&& value.get("wire"@) == Some(wire_model())
        }),
{
    let members = metadata_model()->Object_0;
    assert("actions"@ != "conditional_rules"@) by {
        reveal_strlit("actions");
        reveal_strlit("conditional_rules");
        assert("actions"@.len() != "conditional_rules"@.len());
    }
    assert("actions"@ != "effective_capabilities"@) by {
        reveal_strlit("actions");
        reveal_strlit("effective_capabilities");
        assert("actions"@.len() != "effective_capabilities"@.len());
    }
    assert("actions"@ != "error_codes"@) by {
        reveal_strlit("actions");
        reveal_strlit("error_codes");
        assert("actions"@.len() != "error_codes"@.len());
    }
    assert("actions"@ != "grants"@) by {
        reveal_strlit("actions");
        reveal_strlit("grants");
        assert("actions"@.len() != "grants"@.len());
    }
    assert("actions"@ != "protocol_version"@) by {
        reveal_strlit("actions");
        reveal_strlit("protocol_version");
        assert("actions"@.len() != "protocol_version"@.len());
    }
    assert("actions"@ != "result_schema_bindings"@) by {
        reveal_strlit("actions");
        reveal_strlit("result_schema_bindings");
        assert("actions"@.len() != "result_schema_bindings"@.len());
    }
    assert("actions"@ != "runtime_hosts"@) by {
        reveal_strlit("actions");
        reveal_strlit("runtime_hosts");
        assert("actions"@.len() != "runtime_hosts"@.len());
    }
    assert("actions"@ != "schema_version"@) by {
        reveal_strlit("actions");
        reveal_strlit("schema_version");
        assert("actions"@.len() != "schema_version"@.len());
    }
    assert("actions"@ != "semantic_bounds"@) by {
        reveal_strlit("actions");
        reveal_strlit("semantic_bounds");
        assert("actions"@.len() != "semantic_bounds"@.len());
    }
    assert("actions"@ != "store_schema_version"@) by {
        reveal_strlit("actions");
        reveal_strlit("store_schema_version");
        assert("actions"@.len() != "store_schema_version"@.len());
    }
    assert("actions"@ != "utf8_byte_bounds"@) by {
        reveal_strlit("actions");
        reveal_strlit("utf8_byte_bounds");
        assert("actions"@.len() != "utf8_byte_bounds"@.len());
    }
    assert("actions"@ != "wire"@) by {
        reveal_strlit("actions");
        reveal_strlit("wire");
        assert("actions"@.len() != "wire"@.len());
    }
    assert("conditional_rules"@ != "effective_capabilities"@) by {
        reveal_strlit("conditional_rules");
        reveal_strlit("effective_capabilities");
        assert("conditional_rules"@.len() != "effective_capabilities"@.len());
    }
    assert("conditional_rules"@ != "error_codes"@) by {
        reveal_strlit("conditional_rules");
        reveal_strlit("error_codes");
        assert("conditional_rules"@.len() != "error_codes"@.len());
    }
    assert("conditional_rules"@ != "grants"@) by {
        reveal_strlit("conditional_rules");
        reveal_strlit("grants");
        assert("conditional_rules"@.len() != "grants"@.len());
    }
    assert("conditional_rules"@ != "protocol_version"@) by {
        reveal_strlit("conditional_rules");
        reveal_strlit("protocol_version");
        assert("conditional_rules"@.len() != "protocol_version"@.len());
    }
    assert("conditional_rules"@ != "result_schema_bindings"@) by {
        reveal_strlit("conditional_rules");
        reveal_strlit("result_schema_bindings");
        assert("conditional_rules"@.len() != "result_schema_bindings"@.len());
    }
    assert("conditional_rules"@ != "runtime_hosts"@) by {
        reveal_strlit("conditional_rules");
        reveal_strlit("runtime_hosts");
        assert("conditional_rules"@.len() != "runtime_hosts"@.len());
    }
    assert("conditional_rules"@ != "schema_version"@) by {
        reveal_strlit("conditional_rules");
        reveal_strlit("schema_version");
        assert("conditional_rules"@.len() != "schema_version"@.len());
    }
    assert("conditional_rules"@ != "semantic_bounds"@) by {
        reveal_strlit("conditional_rules");
        reveal_strlit("semantic_bounds");
        assert("conditional_rules"@.len() != "semantic_bounds"@.len());
    }
    assert("conditional_rules"@ != "store_schema_version"@) by {
        reveal_strlit("conditional_rules");
        reveal_strlit("store_schema_version");
        assert("conditional_rules"@.len() != "store_schema_version"@.len());
    }
    assert("conditional_rules"@ != "utf8_byte_bounds"@) by {
        reveal_strlit("conditional_rules");
        reveal_strlit("utf8_byte_bounds");
        assert("conditional_rules"@.len() != "utf8_byte_bounds"@.len());
    }
    assert("conditional_rules"@ != "wire"@) by {
        reveal_strlit("conditional_rules");
        reveal_strlit("wire");
        assert("conditional_rules"@.len() != "wire"@.len());
    }
    assert("effective_capabilities"@ != "error_codes"@) by {
        reveal_strlit("effective_capabilities");
        reveal_strlit("error_codes");
        assert("effective_capabilities"@.len() != "error_codes"@.len());
    }
    assert("effective_capabilities"@ != "grants"@) by {
        reveal_strlit("effective_capabilities");
        reveal_strlit("grants");
        assert("effective_capabilities"@.len() != "grants"@.len());
    }
    assert("effective_capabilities"@ != "protocol_version"@) by {
        reveal_strlit("effective_capabilities");
        reveal_strlit("protocol_version");
        assert("effective_capabilities"@.len() != "protocol_version"@.len());
    }
    assert("effective_capabilities"@ != "result_schema_bindings"@) by {
        reveal_strlit("effective_capabilities");
        reveal_strlit("result_schema_bindings");
        assert("effective_capabilities"@[0] != "result_schema_bindings"@[0]);
    }
    assert("effective_capabilities"@ != "runtime_hosts"@) by {
        reveal_strlit("effective_capabilities");
        reveal_strlit("runtime_hosts");
        assert("effective_capabilities"@.len() != "runtime_hosts"@.len());
    }
    assert("effective_capabilities"@ != "schema_version"@) by {
        reveal_strlit("effective_capabilities");
        reveal_strlit("schema_version");
        assert("effective_capabilities"@.len() != "schema_version"@.len());
    }
    assert("effective_capabilities"@ != "semantic_bounds"@) by {
        reveal_strlit("effective_capabilities");
        reveal_strlit("semantic_bounds");
        assert("effective_capabilities"@.len() != "semantic_bounds"@.len());
    }
    assert("effective_capabilities"@ != "store_schema_version"@) by {
        reveal_strlit("effective_capabilities");
        reveal_strlit("store_schema_version");
        assert("effective_capabilities"@.len() != "store_schema_version"@.len());
    }
    assert("effective_capabilities"@ != "utf8_byte_bounds"@) by {
        reveal_strlit("effective_capabilities");
        reveal_strlit("utf8_byte_bounds");
        assert("effective_capabilities"@.len() != "utf8_byte_bounds"@.len());
    }
    assert("effective_capabilities"@ != "wire"@) by {
        reveal_strlit("effective_capabilities");
        reveal_strlit("wire");
        assert("effective_capabilities"@.len() != "wire"@.len());
    }
    assert("error_codes"@ != "grants"@) by {
        reveal_strlit("error_codes");
        reveal_strlit("grants");
        assert("error_codes"@.len() != "grants"@.len());
    }
    assert("error_codes"@ != "protocol_version"@) by {
        reveal_strlit("error_codes");
        reveal_strlit("protocol_version");
        assert("error_codes"@.len() != "protocol_version"@.len());
    }
    assert("error_codes"@ != "result_schema_bindings"@) by {
        reveal_strlit("error_codes");
        reveal_strlit("result_schema_bindings");
        assert("error_codes"@.len() != "result_schema_bindings"@.len());
    }
    assert("error_codes"@ != "runtime_hosts"@) by {
        reveal_strlit("error_codes");
        reveal_strlit("runtime_hosts");
        assert("error_codes"@.len() != "runtime_hosts"@.len());
    }
    assert("error_codes"@ != "schema_version"@) by {
        reveal_strlit("error_codes");
        reveal_strlit("schema_version");
        assert("error_codes"@.len() != "schema_version"@.len());
    }
    assert("error_codes"@ != "semantic_bounds"@) by {
        reveal_strlit("error_codes");
        reveal_strlit("semantic_bounds");
        assert("error_codes"@.len() != "semantic_bounds"@.len());
    }
    assert("error_codes"@ != "store_schema_version"@) by {
        reveal_strlit("error_codes");
        reveal_strlit("store_schema_version");
        assert("error_codes"@.len() != "store_schema_version"@.len());
    }
    assert("error_codes"@ != "utf8_byte_bounds"@) by {
        reveal_strlit("error_codes");
        reveal_strlit("utf8_byte_bounds");
        assert("error_codes"@.len() != "utf8_byte_bounds"@.len());
    }
    assert("error_codes"@ != "wire"@) by {
        reveal_strlit("error_codes");
        reveal_strlit("wire");
        assert("error_codes"@.len() != "wire"@.len());
    }
    assert("grants"@ != "protocol_version"@) by {
        reveal_strlit("grants");
        reveal_strlit("protocol_version");
        assert("grants"@.len() != "protocol_version"@.len());
    }
    assert("grants"@ != "result_schema_bindings"@) by {
        reveal_strlit("grants");
        reveal_strlit("result_schema_bindings");
        assert("grants"@.len() != "result_schema_bindings"@.len());
    }
    assert("grants"@ != "runtime_hosts"@) by {
        reveal_strlit("grants");
        reveal_strlit("runtime_hosts");
        assert("grants"@.len() != "runtime_hosts"@.len());
    }
    assert("grants"@ != "schema_version"@) by {
        reveal_strlit("grants");
        reveal_strlit("schema_version");
        assert("grants"@.len() != "schema_version"@.len());
    }
    assert("grants"@ != "semantic_bounds"@) by {
        reveal_strlit("grants");
        reveal_strlit("semantic_bounds");
        assert("grants"@.len() != "semantic_bounds"@.len());
    }
    assert("grants"@ != "store_schema_version"@) by {
        reveal_strlit("grants");
        reveal_strlit("store_schema_version");
        assert("grants"@.len() != "store_schema_version"@.len());
    }
    assert("grants"@ != "utf8_byte_bounds"@) by {
        reveal_strlit("grants");
        reveal_strlit("utf8_byte_bounds");
        assert("grants"@.len() != "utf8_byte_bounds"@.len());
    }
    assert("grants"@ != "wire"@) by {
        reveal_strlit("grants");
        reveal_strlit("wire");
        assert("grants"@.len() != "wire"@.len());
    }
    assert("protocol_version"@ != "result_schema_bindings"@) by {
        reveal_strlit("protocol_version");
        reveal_strlit("result_schema_bindings");
        assert("protocol_version"@.len() != "result_schema_bindings"@.len());
    }
    assert("protocol_version"@ != "runtime_hosts"@) by {
        reveal_strlit("protocol_version");
        reveal_strlit("runtime_hosts");
        assert("protocol_version"@.len() != "runtime_hosts"@.len());
    }
    assert("protocol_version"@ != "schema_version"@) by {
        reveal_strlit("protocol_version");
        reveal_strlit("schema_version");
        assert("protocol_version"@.len() != "schema_version"@.len());
    }
    assert("protocol_version"@ != "semantic_bounds"@) by {
        reveal_strlit("protocol_version");
        reveal_strlit("semantic_bounds");
        assert("protocol_version"@.len() != "semantic_bounds"@.len());
    }
    assert("protocol_version"@ != "store_schema_version"@) by {
        reveal_strlit("protocol_version");
        reveal_strlit("store_schema_version");
        assert("protocol_version"@.len() != "store_schema_version"@.len());
    }
    assert("protocol_version"@ != "utf8_byte_bounds"@) by {
        reveal_strlit("protocol_version");
        reveal_strlit("utf8_byte_bounds");
        assert("protocol_version"@[0] != "utf8_byte_bounds"@[0]);
    }
    assert("protocol_version"@ != "wire"@) by {
        reveal_strlit("protocol_version");
        reveal_strlit("wire");
        assert("protocol_version"@.len() != "wire"@.len());
    }
    assert("result_schema_bindings"@ != "runtime_hosts"@) by {
        reveal_strlit("result_schema_bindings");
        reveal_strlit("runtime_hosts");
        assert("result_schema_bindings"@.len() != "runtime_hosts"@.len());
    }
    assert("result_schema_bindings"@ != "schema_version"@) by {
        reveal_strlit("result_schema_bindings");
        reveal_strlit("schema_version");
        assert("result_schema_bindings"@.len() != "schema_version"@.len());
    }
    assert("result_schema_bindings"@ != "semantic_bounds"@) by {
        reveal_strlit("result_schema_bindings");
        reveal_strlit("semantic_bounds");
        assert("result_schema_bindings"@.len() != "semantic_bounds"@.len());
    }
    assert("result_schema_bindings"@ != "store_schema_version"@) by {
        reveal_strlit("result_schema_bindings");
        reveal_strlit("store_schema_version");
        assert("result_schema_bindings"@.len() != "store_schema_version"@.len());
    }
    assert("result_schema_bindings"@ != "utf8_byte_bounds"@) by {
        reveal_strlit("result_schema_bindings");
        reveal_strlit("utf8_byte_bounds");
        assert("result_schema_bindings"@.len() != "utf8_byte_bounds"@.len());
    }
    assert("result_schema_bindings"@ != "wire"@) by {
        reveal_strlit("result_schema_bindings");
        reveal_strlit("wire");
        assert("result_schema_bindings"@.len() != "wire"@.len());
    }
    assert("runtime_hosts"@ != "schema_version"@) by {
        reveal_strlit("runtime_hosts");
        reveal_strlit("schema_version");
        assert("runtime_hosts"@.len() != "schema_version"@.len());
    }
    assert("runtime_hosts"@ != "semantic_bounds"@) by {
        reveal_strlit("runtime_hosts");
        reveal_strlit("semantic_bounds");
        assert("runtime_hosts"@.len() != "semantic_bounds"@.len());
    }
    assert("runtime_hosts"@ != "store_schema_version"@) by {
        reveal_strlit("runtime_hosts");
        reveal_strlit("store_schema_version");
        assert("runtime_hosts"@.len() != "store_schema_version"@.len());
    }
    assert("runtime_hosts"@ != "utf8_byte_bounds"@) by {
        reveal_strlit("runtime_hosts");
        reveal_strlit("utf8_byte_bounds");
        assert("runtime_hosts"@.len() != "utf8_byte_bounds"@.len());
    }
    assert("runtime_hosts"@ != "wire"@) by {
        reveal_strlit("runtime_hosts");
        reveal_strlit("wire");
        assert("runtime_hosts"@.len() != "wire"@.len());
    }
    assert("schema_version"@ != "semantic_bounds"@) by {
        reveal_strlit("schema_version");
        reveal_strlit("semantic_bounds");
        assert("schema_version"@.len() != "semantic_bounds"@.len());
    }
    assert("schema_version"@ != "store_schema_version"@) by {
        reveal_strlit("schema_version");
        reveal_strlit("store_schema_version");
        assert("schema_version"@.len() != "store_schema_version"@.len());
    }
    assert("schema_version"@ != "utf8_byte_bounds"@) by {
        reveal_strlit("schema_version");
        reveal_strlit("utf8_byte_bounds");
        assert("schema_version"@.len() != "utf8_byte_bounds"@.len());
    }
    assert("schema_version"@ != "wire"@) by {
        reveal_strlit("schema_version");
        reveal_strlit("wire");
        assert("schema_version"@.len() != "wire"@.len());
    }
    assert("semantic_bounds"@ != "store_schema_version"@) by {
        reveal_strlit("semantic_bounds");
        reveal_strlit("store_schema_version");
        assert("semantic_bounds"@.len() != "store_schema_version"@.len());
    }
    assert("semantic_bounds"@ != "utf8_byte_bounds"@) by {
        reveal_strlit("semantic_bounds");
        reveal_strlit("utf8_byte_bounds");
        assert("semantic_bounds"@.len() != "utf8_byte_bounds"@.len());
    }
    assert("semantic_bounds"@ != "wire"@) by {
        reveal_strlit("semantic_bounds");
        reveal_strlit("wire");
        assert("semantic_bounds"@.len() != "wire"@.len());
    }
    assert("store_schema_version"@ != "utf8_byte_bounds"@) by {
        reveal_strlit("store_schema_version");
        reveal_strlit("utf8_byte_bounds");
        assert("store_schema_version"@.len() != "utf8_byte_bounds"@.len());
    }
    assert("store_schema_version"@ != "wire"@) by {
        reveal_strlit("store_schema_version");
        reveal_strlit("wire");
        assert("store_schema_version"@.len() != "wire"@.len());
    }
    assert("utf8_byte_bounds"@ != "wire"@) by {
        reveal_strlit("utf8_byte_bounds");
        reveal_strlit("wire");
        assert("utf8_byte_bounds"@.len() != "wire"@.len());
    }
    lemma_member_at(members, 0);
    lemma_member_at(members, 1);
    lemma_member_at(members, 2);
    lemma_member_at(members, 3);
    lemma_member_at(members, 4);
    lemma_member_at(members, 5);
    lemma_member_at(members, 6);
    lemma_member_at(members, 7);
    lemma_member_at(members, 8);
    lemma_member_at(members, 9);
    lemma_member_at(members, 10);
    lemma_member_at(members, 11);
    lemma_member_at(members, 12);
}

/// The metadata carries each of the tables as it is told by itself, and the two hosts by their
/// tokens.
pub proof fn the_metadata_carries_every_table(
    value: Json,
    actions: Json,
    bindings: Json,
    codes: Vec<&'static str>,
    grants: Vec<&'static str>,
    capabilities: Vec<&'static str>,
    rules: Vec<&'static str>,
)
    requires
        call_ensures(contract_metadata, (), value),
        call_ensures(action_registry, (), actions),
        call_ensures(result_schema_bindings, (), bindings),
        call_ensures(error_code_tokens, (), codes),
        call_ensures(grant_keys, (), grants),
        call_ensures(capability_keys, (), capabilities),
        call_ensures(conditional_rules, (), rules),
    ensures
        value@.get("actions"@) == Some(actions@),
        value@.get("result_schema_bindings"@) == Some(bindings@),
        value@.get("error_codes"@) is Some && lists(value@.get("error_codes"@)->0, codes@),
        value@.get("grants"@) is Some && lists(value@.get("grants"@)->0, grants@),
        value@.get("effective_capabilities"@) is Some && lists(
            value@.get("effective_capabilities"@)->0,
            capabilities@,
        ),
        value@.get("conditional_rules"@) is Some && lists(
            value@.get("conditional_rules"@)->0,
            rules@,
        ),
        value@.get("protocol_version"@) == Some(JsonModel::Unsigned(1)),
        value@.get("schema_version"@) == Some(JsonModel::Unsigned(1)),
        value@.get("store_schema_version"@) == Some(JsonModel::Unsigned(1)),
{
    lemma_metadata_members();
    lemma_lists(codes@);
    lemma_lists(grants@);
    lemma_lists(capabilities@);
    lemma_lists(rules@);
}

/// Whether a value is an array of texts, in order.
pub open spec fn lists(value: JsonModel, names: Seq<&'static str>) -> bool {
    &&& value is Array
    &&& value->Array_0.len() == names.len()
    &&& forall|i: int|
        0 <= i < names.len() ==> value->Array_0[i] == JsonModel::Text((#[trigger] names[i])@)
}

proof fn lemma_lists(names: Seq<&'static str>)
    ensures
        lists(texts_model(slices(names)), names),
{
    let value = texts_model(slices(names));
    assert(slices(names).len() == names.len());
    assert forall|i: int| 0 <= i < names.len() implies value->Array_0[i] == JsonModel::Text(
        (#[trigger] names[i])@,
    ) by {
        assert(slices(names)[i] == names[i]@);
    }
}

/// The limits of messages, each under its own name.
pub proof fn the_limits_of_messages(value: Json)
    requires
        call_ensures(contract_metadata, (), value),
    ensures
        value@.get("wire"@) is Some,
        ({
            let wire = value@.get("wire"@)->0;
            &&& wire.get("default_inline_bytes"@) == Some(JsonModel::Unsigned(65_536))
            &&& wire.get("default_list_items"@) == Some(JsonModel::Unsigned(200))
            &&& wire.get("error_detail_array_max_items"@) == Some(JsonModel::Unsigned(32))
            &&& wire.get("error_detail_key_max_utf8_bytes"@) == Some(JsonModel::Unsigned(64))
            &&& wire.get("error_detail_string_max_utf8_bytes"@) == Some(JsonModel::Unsigned(1_024))
            &&& wire.get("error_details_max_encoded_utf8_bytes"@) == Some(JsonModel::Unsigned(8_192))
            &&& wire.get("error_details_max_properties"@) == Some(JsonModel::Unsigned(32))
            &&& wire.get("error_message_max_utf8_bytes"@) == Some(JsonModel::Unsigned(4_096))
            &&& wire.get("max_frame_bytes"@) == Some(JsonModel::Unsigned(262_144))
            &&& wire.get("maximum_inline_bytes"@) == Some(JsonModel::Unsigned(1_048_576))
            &&& wire.get("maximum_list_items"@) == Some(JsonModel::Unsigned(5_000))
        }),
{
    lemma_metadata_members();
    let members = wire_model()->Object_0;
    assert("default_inline_bytes"@ != "default_list_items"@) by {
        reveal_strlit("default_inline_bytes");
        reveal_strlit("default_list_items");
        assert("default_inline_bytes"@.len() != "default_list_items"@.len());
    }
    assert("default_inline_bytes"@ != "error_detail_array_max_items"@) by {
        reveal_strlit("default_inline_bytes");
        reveal_strlit("error_detail_array_max_items");
        assert("default_inline_bytes"@.len() != "error_detail_array_max_items"@.len());
    }
    assert("default_inline_bytes"@ != "error_detail_key_max_utf8_bytes"@) by {
        reveal_strlit("default_inline_bytes");
        reveal_strlit("error_detail_key_max_utf8_bytes");
        assert("default_inline_bytes"@.len() != "error_detail_key_max_utf8_bytes"@.len());
    }
    assert("default_inline_bytes"@ != "error_detail_string_max_utf8_bytes"@) by {
        reveal_strlit("default_inline_bytes");
        reveal_strlit("error_detail_string_max_utf8_bytes");
        assert("default_inline_bytes"@.len() != "error_detail_string_max_utf8_bytes"@.len());
    }
    assert("default_inline_bytes"@ != "error_details_max_encoded_utf8_bytes"@) by {
        reveal_strlit("default_inline_bytes");
        reveal_strlit("error_details_max_encoded_utf8_bytes");
        assert("default_inline_bytes"@.len() != "error_details_max_encoded_utf8_bytes"@.len());
    }
    assert("default_inline_bytes"@ != "error_details_max_properties"@) by {
        reveal_strlit("default_inline_bytes");
        reveal_strlit("error_details_max_properties");
        assert("default_inline_bytes"@.len() != "error_details_max_properties"@.len());
    }
    assert("default_inline_bytes"@ != "error_message_max_utf8_bytes"@) by {
        reveal_strlit("default_inline_bytes");
        reveal_strlit("error_message_max_utf8_bytes");
        assert("default_inline_bytes"@.len() != "error_message_max_utf8_bytes"@.len());
    }
    assert("default_inline_bytes"@ != "max_frame_bytes"@) by {
        reveal_strlit("default_inline_bytes");
        reveal_strlit("max_frame_bytes");
        assert("default_inline_bytes"@.len() != "max_frame_bytes"@.len());
    }
    assert("default_inline_bytes"@ != "maximum_inline_bytes"@) by {
        reveal_strlit("default_inline_bytes");
        reveal_strlit("maximum_inline_bytes");
        assert("default_inline_bytes"@[0] != "maximum_inline_bytes"@[0]);
    }
    assert("default_inline_bytes"@ != "maximum_list_items"@) by {
        reveal_strlit("default_inline_bytes");
        reveal_strlit("maximum_list_items");
        assert("default_inline_bytes"@.len() != "maximum_list_items"@.len());
    }
    assert("default_list_items"@ != "error_detail_array_max_items"@) by {
        reveal_strlit("default_list_items");
        reveal_strlit("error_detail_array_max_items");
        assert("default_list_items"@.len() != "error_detail_array_max_items"@.len());
    }
    assert("default_list_items"@ != "error_detail_key_max_utf8_bytes"@) by {
        reveal_strlit("default_list_items");
        reveal_strlit("error_detail_key_max_utf8_bytes");
        assert("default_list_items"@.len() != "error_detail_key_max_utf8_bytes"@.len());
    }
    assert("default_list_items"@ != "error_detail_string_max_utf8_bytes"@) by {
        reveal_strlit("default_list_items");
        reveal_strlit("error_detail_string_max_utf8_bytes");
        assert("default_list_items"@.len() != "error_detail_string_max_utf8_bytes"@.len());
    }
    assert("default_list_items"@ != "error_details_max_encoded_utf8_bytes"@) by {
        reveal_strlit("default_list_items");
        reveal_strlit("error_details_max_encoded_utf8_bytes");
        assert("default_list_items"@.len() != "error_details_max_encoded_utf8_bytes"@.len());
    }
    assert("default_list_items"@ != "error_details_max_properties"@) by {
        reveal_strlit("default_list_items");
        reveal_strlit("error_details_max_properties");
        assert("default_list_items"@.len() != "error_details_max_properties"@.len());
    }
    assert("default_list_items"@ != "error_message_max_utf8_bytes"@) by {
        reveal_strlit("default_list_items");
        reveal_strlit("error_message_max_utf8_bytes");
        assert("default_list_items"@.len() != "error_message_max_utf8_bytes"@.len());
    }
    assert("default_list_items"@ != "max_frame_bytes"@) by {
        reveal_strlit("default_list_items");
        reveal_strlit("max_frame_bytes");
        assert("default_list_items"@.len() != "max_frame_bytes"@.len());
    }
    assert("default_list_items"@ != "maximum_inline_bytes"@) by {
        reveal_strlit("default_list_items");
        reveal_strlit("maximum_inline_bytes");
        assert("default_list_items"@.len() != "maximum_inline_bytes"@.len());
    }
    assert("default_list_items"@ != "maximum_list_items"@) by {
        reveal_strlit("default_list_items");
        reveal_strlit("maximum_list_items");
        assert("default_list_items"@[0] != "maximum_list_items"@[0]);
    }
    assert("error_detail_array_max_items"@ != "error_detail_key_max_utf8_bytes"@) by {
        reveal_strlit("error_detail_array_max_items");
        reveal_strlit("error_detail_key_max_utf8_bytes");
        assert("error_detail_array_max_items"@.len() != "error_detail_key_max_utf8_bytes"@.len());
    }
    assert("error_detail_array_max_items"@ != "error_detail_string_max_utf8_bytes"@) by {
        reveal_strlit("error_detail_array_max_items");
        reveal_strlit("error_detail_string_max_utf8_bytes");
        assert("error_detail_array_max_items"@.len() != "error_detail_string_max_utf8_bytes"@.len());
    }
    assert("error_detail_array_max_items"@ != "error_details_max_encoded_utf8_bytes"@) by {
        reveal_strlit("error_detail_array_max_items");
        reveal_strlit("error_details_max_encoded_utf8_bytes");
        assert("error_detail_array_max_items"@.len() != "error_details_max_encoded_utf8_bytes"@.len());
    }
    assert("error_detail_array_max_items"@ != "error_details_max_properties"@) by {
        reveal_strlit("error_detail_array_max_items");
        reveal_strlit("error_details_max_properties");
        assert("error_detail_array_max_items"@[12] != "error_details_max_properties"@[12]);
    }
    assert("error_detail_array_max_items"@ != "error_message_max_utf8_bytes"@) by {
        reveal_strlit("error_detail_array_max_items");
        reveal_strlit("error_message_max_utf8_bytes");
        assert("error_detail_array_max_items"@[6] != "error_message_max_utf8_bytes"@[6]);
    }
    assert("error_detail_array_max_items"@ != "max_frame_bytes"@) by {
        reveal_strlit("error_detail_array_max_items");
        reveal_strlit("max_frame_bytes");
        assert("error_detail_array_max_items"@.len() != "max_frame_bytes"@.len());
    }
    assert("error_detail_array_max_items"@ != "maximum_inline_bytes"@) by {
        reveal_strlit("error_detail_array_max_items");
        reveal_strlit("maximum_inline_bytes");
        assert("error_detail_array_max_items"@.len() != "maximum_inline_bytes"@.len());
    }
    assert("error_detail_array_max_items"@ != "maximum_list_items"@) by {
        reveal_strlit("error_detail_array_max_items");
        reveal_strlit("maximum_list_items");
        assert("error_detail_array_max_items"@.len() != "maximum_list_items"@.len());
    }
    assert("error_detail_key_max_utf8_bytes"@ != "error_detail_string_max_utf8_bytes"@) by {
        reveal_strlit("error_detail_key_max_utf8_bytes");
        reveal_strlit("error_detail_string_max_utf8_bytes");
        assert("error_detail_key_max_utf8_bytes"@.len() != "error_detail_string_max_utf8_bytes"@.len());
    }
    assert("error_detail_key_max_utf8_bytes"@ != "error_details_max_encoded_utf8_bytes"@) by {
        reveal_strlit("error_detail_key_max_utf8_bytes");
        reveal_strlit("error_details_max_encoded_utf8_bytes");
        assert("error_detail_key_max_utf8_bytes"@.len() != "error_details_max_encoded_utf8_bytes"@.len());
    }
    assert("error_detail_key_max_utf8_bytes"@ != "error_details_max_properties"@) by {
        reveal_strlit("error_detail_key_max_utf8_bytes");
        reveal_strlit("error_details_max_properties");
        assert("error_detail_key_max_utf8_bytes"@.len() != "error_details_max_properties"@.len());
    }
    assert("error_detail_key_max_utf8_bytes"@ != "error_message_max_utf8_bytes"@) by {
        reveal_strlit("error_detail_key_max_utf8_bytes");
        reveal_strlit("error_message_max_utf8_bytes");
        assert("error_detail_key_max_utf8_bytes"@.len() != "error_message_max_utf8_bytes"@.len());
    }
    assert("error_detail_key_max_utf8_bytes"@ != "max_frame_bytes"@) by {
        reveal_strlit("error_detail_key_max_utf8_bytes");
        reveal_strlit("max_frame_bytes");
        assert("error_detail_key_max_utf8_bytes"@.len() != "max_frame_bytes"@.len());
    }
    assert("error_detail_key_max_utf8_bytes"@ != "maximum_inline_bytes"@) by {
        reveal_strlit("error_detail_key_max_utf8_bytes");
        reveal_strlit("maximum_inline_bytes");
        assert("error_detail_key_max_utf8_bytes"@.len() != "maximum_inline_bytes"@.len());
    }
    assert("error_detail_key_max_utf8_bytes"@ != "maximum_list_items"@) by {
        reveal_strlit("error_detail_key_max_utf8_bytes");
        reveal_strlit("maximum_list_items");
        assert("error_detail_key_max_utf8_bytes"@.len() != "maximum_list_items"@.len());
    }
    assert("error_detail_string_max_utf8_bytes"@ != "error_details_max_encoded_utf8_bytes"@) by {
        reveal_strlit("error_detail_string_max_utf8_bytes");
        reveal_strlit("error_details_max_encoded_utf8_bytes");
        assert("error_detail_string_max_utf8_bytes"@.len() != "error_details_max_encoded_utf8_bytes"@.len());
    }
    assert("error_detail_string_max_utf8_bytes"@ != "error_details_max_properties"@) by {
        reveal_strlit("error_detail_string_max_utf8_bytes");
        reveal_strlit("error_details_max_properties");
        assert("error_detail_string_max_utf8_bytes"@.len() != "error_details_max_properties"@.len());
    }
    assert("error_detail_string_max_utf8_bytes"@ != "error_message_max_utf8_bytes"@) by {
        reveal_strlit("error_detail_string_max_utf8_bytes");
        reveal_strlit("error_message_max_utf8_bytes");
        assert("error_detail_string_max_utf8_bytes"@.len() != "error_message_max_utf8_bytes"@.len());
    }
    assert("error_detail_string_max_utf8_bytes"@ != "max_frame_bytes"@) by {
        reveal_strlit("error_detail_string_max_utf8_bytes");
        reveal_strlit("max_frame_bytes");
        assert("error_detail_string_max_utf8_bytes"@.len() != "max_frame_bytes"@.len());
    }
    assert("error_detail_string_max_utf8_bytes"@ != "maximum_inline_bytes"@) by {
        reveal_strlit("error_detail_string_max_utf8_bytes");
        reveal_strlit("maximum_inline_bytes");
        assert("error_detail_string_max_utf8_bytes"@.len() != "maximum_inline_bytes"@.len());
    }
    assert("error_detail_string_max_utf8_bytes"@ != "maximum_list_items"@) by {
        reveal_strlit("error_detail_string_max_utf8_bytes");
        reveal_strlit("maximum_list_items");
        assert("error_detail_string_max_utf8_bytes"@.len() != "maximum_list_items"@.len());
    }
    assert("error_details_max_encoded_utf8_bytes"@ != "error_details_max_properties"@) by {
        reveal_strlit("error_details_max_encoded_utf8_bytes");
        reveal_strlit("error_details_max_properties");
        assert("error_details_max_encoded_utf8_bytes"@.len() != "error_details_max_properties"@.len());
    }
    assert("error_details_max_encoded_utf8_bytes"@ != "error_message_max_utf8_bytes"@) by {
        reveal_strlit("error_details_max_encoded_utf8_bytes");
        reveal_strlit("error_message_max_utf8_bytes");
        assert("error_details_max_encoded_utf8_bytes"@.len() != "error_message_max_utf8_bytes"@.len());
    }
    assert("error_details_max_encoded_utf8_bytes"@ != "max_frame_bytes"@) by {
        reveal_strlit("error_details_max_encoded_utf8_bytes");
        reveal_strlit("max_frame_bytes");
        assert("error_details_max_encoded_utf8_bytes"@.len() != "max_frame_bytes"@.len());
    }
    assert("error_details_max_encoded_utf8_bytes"@ != "maximum_inline_bytes"@) by {
        reveal_strlit("error_details_max_encoded_utf8_bytes");
        reveal_strlit("maximum_inline_bytes");
        assert("error_details_max_encoded_utf8_bytes"@.len() != "maximum_inline_bytes"@.len());
    }
    assert("error_details_max_encoded_utf8_bytes"@ != "maximum_list_items"@) by {
        reveal_strlit("error_details_max_encoded_utf8_bytes");
        reveal_strlit("maximum_list_items");
        assert("error_details_max_encoded_utf8_bytes"@.len() != "maximum_list_items"@.len());
    }
    assert("error_details_max_properties"@ != "error_message_max_utf8_bytes"@) by {
        reveal_strlit("error_details_max_properties");
        reveal_strlit("error_message_max_utf8_bytes");
        assert("error_details_max_properties"@[6] != "error_message_max_utf8_bytes"@[6]);
    }
    assert("error_details_max_properties"@ != "max_frame_bytes"@) by {
        reveal_strlit("error_details_max_properties");
        reveal_strlit("max_frame_bytes");
        assert("error_details_max_properties"@.len() != "max_frame_bytes"@.len());
    }
    assert("error_details_max_properties"@ != "maximum_inline_bytes"@) by {
        reveal_strlit("error_details_max_properties");
        reveal_strlit("maximum_inline_bytes");
        assert("error_details_max_properties"@.len() != "maximum_inline_bytes"@.len());
    }
    assert("error_details_max_properties"@ != "maximum_list_items"@) by {
        reveal_strlit("error_details_max_properties");
        reveal_strlit("maximum_list_items");
        assert("error_details_max_properties"@.len() != "maximum_list_items"@.len());
    }
    assert("error_message_max_utf8_bytes"@ != "max_frame_bytes"@) by {
        reveal_strlit("error_message_max_utf8_bytes");
        reveal_strlit("max_frame_bytes");
        assert("error_message_max_utf8_bytes"@.len() != "max_frame_bytes"@.len());
    }
    assert("error_message_max_utf8_bytes"@ != "maximum_inline_bytes"@) by {
        reveal_strlit("error_message_max_utf8_bytes");
        reveal_strlit("maximum_inline_bytes");
        assert("error_message_max_utf8_bytes"@.len() != "maximum_inline_bytes"@.len());
    }
    assert("error_message_max_utf8_bytes"@ != "maximum_list_items"@) by {
        reveal_strlit("error_message_max_utf8_bytes");
        reveal_strlit("maximum_list_items");
        assert("error_message_max_utf8_bytes"@.len() != "maximum_list_items"@.len());
    }
    assert("max_frame_bytes"@ != "maximum_inline_bytes"@) by {
        reveal_strlit("max_frame_bytes");
        reveal_strlit("maximum_inline_bytes");
        assert("max_frame_bytes"@.len() != "maximum_inline_bytes"@.len());
    }
    assert("max_frame_bytes"@ != "maximum_list_items"@) by {
        reveal_strlit("max_frame_bytes");
        reveal_strlit("maximum_list_items");
        assert("max_frame_bytes"@.len() != "maximum_list_items"@.len());
    }
    assert("maximum_inline_bytes"@ != "maximum_list_items"@) by {
        reveal_strlit("maximum_inline_bytes");
        reveal_strlit("maximum_list_items");
        assert("maximum_inline_bytes"@.len() != "maximum_list_items"@.len());
    }
    lemma_member_at(members, 0);
    lemma_member_at(members, 1);
    lemma_member_at(members, 2);
    lemma_member_at(members, 3);
    lemma_member_at(members, 4);
    lemma_member_at(members, 5);
    lemma_member_at(members, 6);
    lemma_member_at(members, 7);
    lemma_member_at(members, 8);
    lemma_member_at(members, 9);
    lemma_member_at(members, 10);
}

/// The bounds that need more than a length, each under its own name; a range has its ends.
pub proof fn the_bounds_of_meaning(value: Json)
    requires
        call_ensures(contract_metadata, (), value),
    ensures
        value@.get("semantic_bounds"@) is Some,
        ({
            let bounds = value@.get("semantic_bounds"@)->0;
            &&& bounds.get("android.notification.live_references"@) == Some(JsonModel::Unsigned(256))
            &&& bounds.get("android.notification.reference_ttl_seconds"@) == Some(JsonModel::Unsigned(300))
            &&& bounds.get("automation.execution_budget_ms"@) == Some(JsonModel::Unsigned(3_600_000))
            &&& bounds.get("automation.expanded_visits"@) == Some(JsonModel::Unsigned(10_000))
            &&& bounds.get("automation.state_keys"@) == Some(JsonModel::Unsigned(64))
            &&& bounds.get("automation.tree_depth"@) == Some(JsonModel::Unsigned(16))
            &&& bounds.get("automation.tree_nodes"@) == Some(JsonModel::Unsigned(512))
            &&& bounds.get("filesystem.archive.create.sources"@) is Some
                && is_range(bounds.get("filesystem.archive.create.sources"@)->0, 1, 1_000)
            &&& bounds.get("filesystem.read.selected_bytes"@) is Some
                && is_range(bounds.get("filesystem.read.selected_bytes"@)->0, 1, 1_048_576)
            &&& bounds.get("filesystem.write.edit.replacements"@) is Some
                && is_range(bounds.get("filesystem.write.edit.replacements"@)->0, 1, 100)
            &&& bounds.get("network.capture.payload_preview_bytes"@) == Some(JsonModel::Unsigned(4_096))
            &&& bounds.get("network.capture.stop_wait_ms"@) == Some(JsonModel::Unsigned(10_000))
            &&& bounds.get("network.packet.decoded_bytes"@) is Some
                && is_range(bounds.get("network.packet.decoded_bytes"@)->0, 1, 131_072)
            &&& bounds.get("network.packet.payload_preview_bytes"@) == Some(JsonModel::Unsigned(4_096))
            &&& bounds.get("request_dedup_max_records"@) == Some(JsonModel::Unsigned(4_096))
            &&& bounds.get("request_dedup_retention_hours"@) == Some(JsonModel::Unsigned(24))
        }),
{
    lemma_metadata_members();
    let members = semantic_model()->Object_0;
    lemma_range(1, 1_000);
    lemma_range(1, 1_048_576);
    lemma_range(1, 100);
    lemma_range(1, 131_072);
    assert("android.notification.live_references"@ != "android.notification.reference_ttl_seconds"@) by {
        reveal_strlit("android.notification.live_references");
        reveal_strlit("android.notification.reference_ttl_seconds");
        assert("android.notification.live_references"@.len() != "android.notification.reference_ttl_seconds"@.len());
    }
    assert("android.notification.live_references"@ != "automation.execution_budget_ms"@) by {
        reveal_strlit("android.notification.live_references");
        reveal_strlit("automation.execution_budget_ms");
        assert("android.notification.live_references"@.len() != "automation.execution_budget_ms"@.len());
    }
    assert("android.notification.live_references"@ != "automation.expanded_visits"@) by {
        reveal_strlit("android.notification.live_references");
        reveal_strlit("automation.expanded_visits");
        assert("android.notification.live_references"@.len() != "automation.expanded_visits"@.len());
    }
    assert("android.notification.live_references"@ != "automation.state_keys"@) by {
        reveal_strlit("android.notification.live_references");
        reveal_strlit("automation.state_keys");
        assert("android.notification.live_references"@.len() != "automation.state_keys"@.len());
    }
    assert("android.notification.live_references"@ != "automation.tree_depth"@) by {
        reveal_strlit("android.notification.live_references");
        reveal_strlit("automation.tree_depth");
        assert("android.notification.live_references"@.len() != "automation.tree_depth"@.len());
    }
    assert("android.notification.live_references"@ != "automation.tree_nodes"@) by {
        reveal_strlit("android.notification.live_references");
        reveal_strlit("automation.tree_nodes");
        assert("android.notification.live_references"@.len() != "automation.tree_nodes"@.len());
    }
    assert("android.notification.live_references"@ != "filesystem.archive.create.sources"@) by {
        reveal_strlit("android.notification.live_references");
        reveal_strlit("filesystem.archive.create.sources");
        assert("android.notification.live_references"@.len() != "filesystem.archive.create.sources"@.len());
    }
    assert("android.notification.live_references"@ != "filesystem.read.selected_bytes"@) by {
        reveal_strlit("android.notification.live_references");
        reveal_strlit("filesystem.read.selected_bytes");
        assert("android.notification.live_references"@.len() != "filesystem.read.selected_bytes"@.len());
    }
    assert("android.notification.live_references"@ != "filesystem.write.edit.replacements"@) by {
        reveal_strlit("android.notification.live_references");
        reveal_strlit("filesystem.write.edit.replacements");
        assert("android.notification.live_references"@.len() != "filesystem.write.edit.replacements"@.len());
    }
    assert("android.notification.live_references"@ != "network.capture.payload_preview_bytes"@) by {
        reveal_strlit("android.notification.live_references");
        reveal_strlit("network.capture.payload_preview_bytes");
        assert("android.notification.live_references"@.len() != "network.capture.payload_preview_bytes"@.len());
    }
    assert("android.notification.live_references"@ != "network.capture.stop_wait_ms"@) by {
        reveal_strlit("android.notification.live_references");
        reveal_strlit("network.capture.stop_wait_ms");
        assert("android.notification.live_references"@.len() != "network.capture.stop_wait_ms"@.len());
    }
    assert("android.notification.live_references"@ != "network.packet.decoded_bytes"@) by {
        reveal_strlit("android.notification.live_references");
        reveal_strlit("network.packet.decoded_bytes");
        assert("android.notification.live_references"@.len() != "network.packet.decoded_bytes"@.len());
    }
    assert("android.notification.live_references"@ != "network.packet.payload_preview_bytes"@) by {
        reveal_strlit("android.notification.live_references");
        reveal_strlit("network.packet.payload_preview_bytes");
        assert("android.notification.live_references"@[0] != "network.packet.payload_preview_bytes"@[0]);
    }
    assert("android.notification.live_references"@ != "network.packet.tcp_flags"@) by {
        reveal_strlit("android.notification.live_references");
        reveal_strlit("network.packet.tcp_flags");
        assert("android.notification.live_references"@.len() != "network.packet.tcp_flags"@.len());
    }
    assert("android.notification.live_references"@ != "request_dedup_max_records"@) by {
        reveal_strlit("android.notification.live_references");
        reveal_strlit("request_dedup_max_records");
        assert("android.notification.live_references"@.len() != "request_dedup_max_records"@.len());
    }
    assert("android.notification.live_references"@ != "request_dedup_retention_hours"@) by {
        reveal_strlit("android.notification.live_references");
        reveal_strlit("request_dedup_retention_hours");
        assert("android.notification.live_references"@.len() != "request_dedup_retention_hours"@.len());
    }
    assert("android.notification.live_references"@ != "visual.display.rotation_degrees"@) by {
        reveal_strlit("android.notification.live_references");
        reveal_strlit("visual.display.rotation_degrees");
        assert("android.notification.live_references"@.len() != "visual.display.rotation_degrees"@.len());
    }
    assert("android.notification.reference_ttl_seconds"@ != "automation.execution_budget_ms"@) by {
        reveal_strlit("android.notification.reference_ttl_seconds");
        reveal_strlit("automation.execution_budget_ms");
        assert("android.notification.reference_ttl_seconds"@.len() != "automation.execution_budget_ms"@.len());
    }
    assert("android.notification.reference_ttl_seconds"@ != "automation.expanded_visits"@) by {
        reveal_strlit("android.notification.reference_ttl_seconds");
        reveal_strlit("automation.expanded_visits");
        assert("android.notification.reference_ttl_seconds"@.len() != "automation.expanded_visits"@.len());
    }
    assert("android.notification.reference_ttl_seconds"@ != "automation.state_keys"@) by {
        reveal_strlit("android.notification.reference_ttl_seconds");
        reveal_strlit("automation.state_keys");
        assert("android.notification.reference_ttl_seconds"@.len() != "automation.state_keys"@.len());
    }
    assert("android.notification.reference_ttl_seconds"@ != "automation.tree_depth"@) by {
        reveal_strlit("android.notification.reference_ttl_seconds");
        reveal_strlit("automation.tree_depth");
        assert("android.notification.reference_ttl_seconds"@.len() != "automation.tree_depth"@.len());
    }
    assert("android.notification.reference_ttl_seconds"@ != "automation.tree_nodes"@) by {
        reveal_strlit("android.notification.reference_ttl_seconds");
        reveal_strlit("automation.tree_nodes");
        assert("android.notification.reference_ttl_seconds"@.len() != "automation.tree_nodes"@.len());
    }
    assert("android.notification.reference_ttl_seconds"@ != "filesystem.archive.create.sources"@) by {
        reveal_strlit("android.notification.reference_ttl_seconds");
        reveal_strlit("filesystem.archive.create.sources");
        assert("android.notification.reference_ttl_seconds"@.len() != "filesystem.archive.create.sources"@.len());
    }
    assert("android.notification.reference_ttl_seconds"@ != "filesystem.read.selected_bytes"@) by {
        reveal_strlit("android.notification.reference_ttl_seconds");
        reveal_strlit("filesystem.read.selected_bytes");
        assert("android.notification.reference_ttl_seconds"@.len() != "filesystem.read.selected_bytes"@.len());
    }
    assert("android.notification.reference_ttl_seconds"@ != "filesystem.write.edit.replacements"@) by {
        reveal_strlit("android.notification.reference_ttl_seconds");
        reveal_strlit("filesystem.write.edit.replacements");
        assert("android.notification.reference_ttl_seconds"@.len() != "filesystem.write.edit.replacements"@.len());
    }
    assert("android.notification.reference_ttl_seconds"@ != "network.capture.payload_preview_bytes"@) by {
        reveal_strlit("android.notification.reference_ttl_seconds");
        reveal_strlit("network.capture.payload_preview_bytes");
        assert("android.notification.reference_ttl_seconds"@.len() != "network.capture.payload_preview_bytes"@.len());
    }
    assert("android.notification.reference_ttl_seconds"@ != "network.capture.stop_wait_ms"@) by {
        reveal_strlit("android.notification.reference_ttl_seconds");
        reveal_strlit("network.capture.stop_wait_ms");
        assert("android.notification.reference_ttl_seconds"@.len() != "network.capture.stop_wait_ms"@.len());
    }
    assert("android.notification.reference_ttl_seconds"@ != "network.packet.decoded_bytes"@) by {
        reveal_strlit("android.notification.reference_ttl_seconds");
        reveal_strlit("network.packet.decoded_bytes");
        assert("android.notification.reference_ttl_seconds"@.len() != "network.packet.decoded_bytes"@.len());
    }
    assert("android.notification.reference_ttl_seconds"@ != "network.packet.payload_preview_bytes"@) by {
        reveal_strlit("android.notification.reference_ttl_seconds");
        reveal_strlit("network.packet.payload_preview_bytes");
        assert("android.notification.reference_ttl_seconds"@.len() != "network.packet.payload_preview_bytes"@.len());
    }
    assert("android.notification.reference_ttl_seconds"@ != "network.packet.tcp_flags"@) by {
        reveal_strlit("android.notification.reference_ttl_seconds");
        reveal_strlit("network.packet.tcp_flags");
        assert("android.notification.reference_ttl_seconds"@.len() != "network.packet.tcp_flags"@.len());
    }
    assert("android.notification.reference_ttl_seconds"@ != "request_dedup_max_records"@) by {
        reveal_strlit("android.notification.reference_ttl_seconds");
        reveal_strlit("request_dedup_max_records");
        assert("android.notification.reference_ttl_seconds"@.len() != "request_dedup_max_records"@.len());
    }
    assert("android.notification.reference_ttl_seconds"@ != "request_dedup_retention_hours"@) by {
        reveal_strlit("android.notification.reference_ttl_seconds");
        reveal_strlit("request_dedup_retention_hours");
        assert("android.notification.reference_ttl_seconds"@.len() != "request_dedup_retention_hours"@.len());
    }
    assert("android.notification.reference_ttl_seconds"@ != "visual.display.rotation_degrees"@) by {
        reveal_strlit("android.notification.reference_ttl_seconds");
        reveal_strlit("visual.display.rotation_degrees");
        assert("android.notification.reference_ttl_seconds"@.len() != "visual.display.rotation_degrees"@.len());
    }
    assert("automation.execution_budget_ms"@ != "automation.expanded_visits"@) by {
        reveal_strlit("automation.execution_budget_ms");
        reveal_strlit("automation.expanded_visits");
        assert("automation.execution_budget_ms"@.len() != "automation.expanded_visits"@.len());
    }
    assert("automation.execution_budget_ms"@ != "automation.state_keys"@) by {
        reveal_strlit("automation.execution_budget_ms");
        reveal_strlit("automation.state_keys");
        assert("automation.execution_budget_ms"@.len() != "automation.state_keys"@.len());
    }
    assert("automation.execution_budget_ms"@ != "automation.tree_depth"@) by {
        reveal_strlit("automation.execution_budget_ms");
        reveal_strlit("automation.tree_depth");
        assert("automation.execution_budget_ms"@.len() != "automation.tree_depth"@.len());
    }
    assert("automation.execution_budget_ms"@ != "automation.tree_nodes"@) by {
        reveal_strlit("automation.execution_budget_ms");
        reveal_strlit("automation.tree_nodes");
        assert("automation.execution_budget_ms"@.len() != "automation.tree_nodes"@.len());
    }
    assert("automation.execution_budget_ms"@ != "filesystem.archive.create.sources"@) by {
        reveal_strlit("automation.execution_budget_ms");
        reveal_strlit("filesystem.archive.create.sources");
        assert("automation.execution_budget_ms"@.len() != "filesystem.archive.create.sources"@.len());
    }
    assert("automation.execution_budget_ms"@ != "filesystem.read.selected_bytes"@) by {
        reveal_strlit("automation.execution_budget_ms");
        reveal_strlit("filesystem.read.selected_bytes");
        assert("automation.execution_budget_ms"@[0] != "filesystem.read.selected_bytes"@[0]);
    }
    assert("automation.execution_budget_ms"@ != "filesystem.write.edit.replacements"@) by {
        reveal_strlit("automation.execution_budget_ms");
        reveal_strlit("filesystem.write.edit.replacements");
        assert("automation.execution_budget_ms"@.len() != "filesystem.write.edit.replacements"@.len());
    }
    assert("automation.execution_budget_ms"@ != "network.capture.payload_preview_bytes"@) by {
        reveal_strlit("automation.execution_budget_ms");
        reveal_strlit("network.capture.payload_preview_bytes");
        assert("automation.execution_budget_ms"@.len() != "network.capture.payload_preview_bytes"@.len());
    }
    assert("automation.execution_budget_ms"@ != "network.capture.stop_wait_ms"@) by {
        reveal_strlit("automation.execution_budget_ms");
        reveal_strlit("network.capture.stop_wait_ms");
        assert("automation.execution_budget_ms"@.len() != "network.capture.stop_wait_ms"@.len());
    }
    assert("automation.execution_budget_ms"@ != "network.packet.decoded_bytes"@) by {
        reveal_strlit("automation.execution_budget_ms");
        reveal_strlit("network.packet.decoded_bytes");
        assert("automation.execution_budget_ms"@.len() != "network.packet.decoded_bytes"@.len());
    }
    assert("automation.execution_budget_ms"@ != "network.packet.payload_preview_bytes"@) by {
        reveal_strlit("automation.execution_budget_ms");
        reveal_strlit("network.packet.payload_preview_bytes");
        assert("automation.execution_budget_ms"@.len() != "network.packet.payload_preview_bytes"@.len());
    }
    assert("automation.execution_budget_ms"@ != "network.packet.tcp_flags"@) by {
        reveal_strlit("automation.execution_budget_ms");
        reveal_strlit("network.packet.tcp_flags");
        assert("automation.execution_budget_ms"@.len() != "network.packet.tcp_flags"@.len());
    }
    assert("automation.execution_budget_ms"@ != "request_dedup_max_records"@) by {
        reveal_strlit("automation.execution_budget_ms");
        reveal_strlit("request_dedup_max_records");
        assert("automation.execution_budget_ms"@.len() != "request_dedup_max_records"@.len());
    }
    assert("automation.execution_budget_ms"@ != "request_dedup_retention_hours"@) by {
        reveal_strlit("automation.execution_budget_ms");
        reveal_strlit("request_dedup_retention_hours");
        assert("automation.execution_budget_ms"@.len() != "request_dedup_retention_hours"@.len());
    }
    assert("automation.execution_budget_ms"@ != "visual.display.rotation_degrees"@) by {
        reveal_strlit("automation.execution_budget_ms");
        reveal_strlit("visual.display.rotation_degrees");
        assert("automation.execution_budget_ms"@.len() != "visual.display.rotation_degrees"@.len());
    }
    assert("automation.expanded_visits"@ != "automation.state_keys"@) by {
        reveal_strlit("automation.expanded_visits");
        reveal_strlit("automation.state_keys");
        assert("automation.expanded_visits"@.len() != "automation.state_keys"@.len());
    }
    assert("automation.expanded_visits"@ != "automation.tree_depth"@) by {
        reveal_strlit("automation.expanded_visits");
        reveal_strlit("automation.tree_depth");
        assert("automation.expanded_visits"@.len() != "automation.tree_depth"@.len());
    }
    assert("automation.expanded_visits"@ != "automation.tree_nodes"@) by {
        reveal_strlit("automation.expanded_visits");
        reveal_strlit("automation.tree_nodes");
        assert("automation.expanded_visits"@.len() != "automation.tree_nodes"@.len());
    }
    assert("automation.expanded_visits"@ != "filesystem.archive.create.sources"@) by {
        reveal_strlit("automation.expanded_visits");
        reveal_strlit("filesystem.archive.create.sources");
        assert("automation.expanded_visits"@.len() != "filesystem.archive.create.sources"@.len());
    }
    assert("automation.expanded_visits"@ != "filesystem.read.selected_bytes"@) by {
        reveal_strlit("automation.expanded_visits");
        reveal_strlit("filesystem.read.selected_bytes");
        assert("automation.expanded_visits"@.len() != "filesystem.read.selected_bytes"@.len());
    }
    assert("automation.expanded_visits"@ != "filesystem.write.edit.replacements"@) by {
        reveal_strlit("automation.expanded_visits");
        reveal_strlit("filesystem.write.edit.replacements");
        assert("automation.expanded_visits"@.len() != "filesystem.write.edit.replacements"@.len());
    }
    assert("automation.expanded_visits"@ != "network.capture.payload_preview_bytes"@) by {
        reveal_strlit("automation.expanded_visits");
        reveal_strlit("network.capture.payload_preview_bytes");
        assert("automation.expanded_visits"@.len() != "network.capture.payload_preview_bytes"@.len());
    }
    assert("automation.expanded_visits"@ != "network.capture.stop_wait_ms"@) by {
        reveal_strlit("automation.expanded_visits");
        reveal_strlit("network.capture.stop_wait_ms");
        assert("automation.expanded_visits"@.len() != "network.capture.stop_wait_ms"@.len());
    }
    assert("automation.expanded_visits"@ != "network.packet.decoded_bytes"@) by {
        reveal_strlit("automation.expanded_visits");
        reveal_strlit("network.packet.decoded_bytes");
        assert("automation.expanded_visits"@.len() != "network.packet.decoded_bytes"@.len());
    }
    assert("automation.expanded_visits"@ != "network.packet.payload_preview_bytes"@) by {
        reveal_strlit("automation.expanded_visits");
        reveal_strlit("network.packet.payload_preview_bytes");
        assert("automation.expanded_visits"@.len() != "network.packet.payload_preview_bytes"@.len());
    }
    assert("automation.expanded_visits"@ != "network.packet.tcp_flags"@) by {
        reveal_strlit("automation.expanded_visits");
        reveal_strlit("network.packet.tcp_flags");
        assert("automation.expanded_visits"@.len() != "network.packet.tcp_flags"@.len());
    }
    assert("automation.expanded_visits"@ != "request_dedup_max_records"@) by {
        reveal_strlit("automation.expanded_visits");
        reveal_strlit("request_dedup_max_records");
        assert("automation.expanded_visits"@.len() != "request_dedup_max_records"@.len());
    }
    assert("automation.expanded_visits"@ != "request_dedup_retention_hours"@) by {
        reveal_strlit("automation.expanded_visits");
        reveal_strlit("request_dedup_retention_hours");
        assert("automation.expanded_visits"@.len() != "request_dedup_retention_hours"@.len());
    }
    assert("automation.expanded_visits"@ != "visual.display.rotation_degrees"@) by {
        reveal_strlit("automation.expanded_visits");
        reveal_strlit("visual.display.rotation_degrees");
        assert("automation.expanded_visits"@.len() != "visual.display.rotation_degrees"@.len());
    }
    assert("automation.state_keys"@ != "automation.tree_depth"@) by {
        reveal_strlit("automation.state_keys");
        reveal_strlit("automation.tree_depth");
        assert("automation.state_keys"@[11] != "automation.tree_depth"@[11]);
    }
    assert("automation.state_keys"@ != "automation.tree_nodes"@) by {
        reveal_strlit("automation.state_keys");
        reveal_strlit("automation.tree_nodes");
        assert("automation.state_keys"@[11] != "automation.tree_nodes"@[11]);
    }
    assert("automation.state_keys"@ != "filesystem.archive.create.sources"@) by {
        reveal_strlit("automation.state_keys");
        reveal_strlit("filesystem.archive.create.sources");
        assert("automation.state_keys"@.len() != "filesystem.archive.create.sources"@.len());
    }
    assert("automation.state_keys"@ != "filesystem.read.selected_bytes"@) by {
        reveal_strlit("automation.state_keys");
        reveal_strlit("filesystem.read.selected_bytes");
        assert("automation.state_keys"@.len() != "filesystem.read.selected_bytes"@.len());
    }
    assert("automation.state_keys"@ != "filesystem.write.edit.replacements"@) by {
        reveal_strlit("automation.state_keys");
        reveal_strlit("filesystem.write.edit.replacements");
        assert("automation.state_keys"@.len() != "filesystem.write.edit.replacements"@.len());
    }
    assert("automation.state_keys"@ != "network.capture.payload_preview_bytes"@) by {
        reveal_strlit("automation.state_keys");
        reveal_strlit("network.capture.payload_preview_bytes");
        assert("automation.state_keys"@.len() != "network.capture.payload_preview_bytes"@.len());
    }
    assert("automation.state_keys"@ != "network.capture.stop_wait_ms"@) by {
        reveal_strlit("automation.state_keys");
        reveal_strlit("network.capture.stop_wait_ms");
        assert("automation.state_keys"@.len() != "network.capture.stop_wait_ms"@.len());
    }
    assert("automation.state_keys"@ != "network.packet.decoded_bytes"@) by {
        reveal_strlit("automation.state_keys");
        reveal_strlit("network.packet.decoded_bytes");
        assert("automation.state_keys"@.len() != "network.packet.decoded_bytes"@.len());
    }
    assert("automation.state_keys"@ != "network.packet.payload_preview_bytes"@) by {
        reveal_strlit("automation.state_keys");
        reveal_strlit("network.packet.payload_preview_bytes");
        assert("automation.state_keys"@.len() != "network.packet.payload_preview_bytes"@.len());
    }
    assert("automation.state_keys"@ != "network.packet.tcp_flags"@) by {
        reveal_strlit("automation.state_keys");
        reveal_strlit("network.packet.tcp_flags");
        assert("automation.state_keys"@.len() != "network.packet.tcp_flags"@.len());
    }
    assert("automation.state_keys"@ != "request_dedup_max_records"@) by {
        reveal_strlit("automation.state_keys");
        reveal_strlit("request_dedup_max_records");
        assert("automation.state_keys"@.len() != "request_dedup_max_records"@.len());
    }
    assert("automation.state_keys"@ != "request_dedup_retention_hours"@) by {
        reveal_strlit("automation.state_keys");
        reveal_strlit("request_dedup_retention_hours");
        assert("automation.state_keys"@.len() != "request_dedup_retention_hours"@.len());
    }
    assert("automation.state_keys"@ != "visual.display.rotation_degrees"@) by {
        reveal_strlit("automation.state_keys");
        reveal_strlit("visual.display.rotation_degrees");
        assert("automation.state_keys"@.len() != "visual.display.rotation_degrees"@.len());
    }
    assert("automation.tree_depth"@ != "automation.tree_nodes"@) by {
        reveal_strlit("automation.tree_depth");
        reveal_strlit("automation.tree_nodes");
        assert("automation.tree_depth"@[16] != "automation.tree_nodes"@[16]);
    }
    assert("automation.tree_depth"@ != "filesystem.archive.create.sources"@) by {
        reveal_strlit("automation.tree_depth");
        reveal_strlit("filesystem.archive.create.sources");
        assert("automation.tree_depth"@.len() != "filesystem.archive.create.sources"@.len());
    }
    assert("automation.tree_depth"@ != "filesystem.read.selected_bytes"@) by {
        reveal_strlit("automation.tree_depth");
        reveal_strlit("filesystem.read.selected_bytes");
        assert("automation.tree_depth"@.len() != "filesystem.read.selected_bytes"@.len());
    }
    assert("automation.tree_depth"@ != "filesystem.write.edit.replacements"@) by {
        reveal_strlit("automation.tree_depth");
        reveal_strlit("filesystem.write.edit.replacements");
        assert("automation.tree_depth"@.len() != "filesystem.write.edit.replacements"@.len());
    }
    assert("automation.tree_depth"@ != "network.capture.payload_preview_bytes"@) by {
        reveal_strlit("automation.tree_depth");
        reveal_strlit("network.capture.payload_preview_bytes");
        assert("automation.tree_depth"@.len() != "network.capture.payload_preview_bytes"@.len());
    }
    assert("automation.tree_depth"@ != "network.capture.stop_wait_ms"@) by {
        reveal_strlit("automation.tree_depth");
        reveal_strlit("network.capture.stop_wait_ms");
        assert("automation.tree_depth"@.len() != "network.capture.stop_wait_ms"@.len());
    }
    assert("automation.tree_depth"@ != "network.packet.decoded_bytes"@) by {
        reveal_strlit("automation.tree_depth");
        reveal_strlit("network.packet.decoded_bytes");
        assert("automation.tree_depth"@.len() != "network.packet.decoded_bytes"@.len());
    }
    assert("automation.tree_depth"@ != "network.packet.payload_preview_bytes"@) by {
        reveal_strlit("automation.tree_depth");
        reveal_strlit("network.packet.payload_preview_bytes");
        assert("automation.tree_depth"@.len() != "network.packet.payload_preview_bytes"@.len());
    }
    assert("automation.tree_depth"@ != "network.packet.tcp_flags"@) by {
        reveal_strlit("automation.tree_depth");
        reveal_strlit("network.packet.tcp_flags");
        assert("automation.tree_depth"@.len() != "network.packet.tcp_flags"@.len());
    }
    assert("automation.tree_depth"@ != "request_dedup_max_records"@) by {
        reveal_strlit("automation.tree_depth");
        reveal_strlit("request_dedup_max_records");
        assert("automation.tree_depth"@.len() != "request_dedup_max_records"@.len());
    }
    assert("automation.tree_depth"@ != "request_dedup_retention_hours"@) by {
        reveal_strlit("automation.tree_depth");
        reveal_strlit("request_dedup_retention_hours");
        assert("automation.tree_depth"@.len() != "request_dedup_retention_hours"@.len());
    }
    assert("automation.tree_depth"@ != "visual.display.rotation_degrees"@) by {
        reveal_strlit("automation.tree_depth");
        reveal_strlit("visual.display.rotation_degrees");
        assert("automation.tree_depth"@.len() != "visual.display.rotation_degrees"@.len());
    }
    assert("automation.tree_nodes"@ != "filesystem.archive.create.sources"@) by {
        reveal_strlit("automation.tree_nodes");
        reveal_strlit("filesystem.archive.create.sources");
        assert("automation.tree_nodes"@.len() != "filesystem.archive.create.sources"@.len());
    }
    assert("automation.tree_nodes"@ != "filesystem.read.selected_bytes"@) by {
        reveal_strlit("automation.tree_nodes");
        reveal_strlit("filesystem.read.selected_bytes");
        assert("automation.tree_nodes"@.len() != "filesystem.read.selected_bytes"@.len());
    }
    assert("automation.tree_nodes"@ != "filesystem.write.edit.replacements"@) by {
        reveal_strlit("automation.tree_nodes");
        reveal_strlit("filesystem.write.edit.replacements");
        assert("automation.tree_nodes"@.len() != "filesystem.write.edit.replacements"@.len());
    }
    assert("automation.tree_nodes"@ != "network.capture.payload_preview_bytes"@) by {
        reveal_strlit("automation.tree_nodes");
        reveal_strlit("network.capture.payload_preview_bytes");
        assert("automation.tree_nodes"@.len() != "network.capture.payload_preview_bytes"@.len());
    }
    assert("automation.tree_nodes"@ != "network.capture.stop_wait_ms"@) by {
        reveal_strlit("automation.tree_nodes");
        reveal_strlit("network.capture.stop_wait_ms");
        assert("automation.tree_nodes"@.len() != "network.capture.stop_wait_ms"@.len());
    }
    assert("automation.tree_nodes"@ != "network.packet.decoded_bytes"@) by {
        reveal_strlit("automation.tree_nodes");
        reveal_strlit("network.packet.decoded_bytes");
        assert("automation.tree_nodes"@.len() != "network.packet.decoded_bytes"@.len());
    }
    assert("automation.tree_nodes"@ != "network.packet.payload_preview_bytes"@) by {
        reveal_strlit("automation.tree_nodes");
        reveal_strlit("network.packet.payload_preview_bytes");
        assert("automation.tree_nodes"@.len() != "network.packet.payload_preview_bytes"@.len());
    }
    assert("automation.tree_nodes"@ != "network.packet.tcp_flags"@) by {
        reveal_strlit("automation.tree_nodes");
        reveal_strlit("network.packet.tcp_flags");
        assert("automation.tree_nodes"@.len() != "network.packet.tcp_flags"@.len());
    }
    assert("automation.tree_nodes"@ != "request_dedup_max_records"@) by {
        reveal_strlit("automation.tree_nodes");
        reveal_strlit("request_dedup_max_records");
        assert("automation.tree_nodes"@.len() != "request_dedup_max_records"@.len());
    }
    assert("automation.tree_nodes"@ != "request_dedup_retention_hours"@) by {
        reveal_strlit("automation.tree_nodes");
        reveal_strlit("request_dedup_retention_hours");
        assert("automation.tree_nodes"@.len() != "request_dedup_retention_hours"@.len());
    }
    assert("automation.tree_nodes"@ != "visual.display.rotation_degrees"@) by {
        reveal_strlit("automation.tree_nodes");
        reveal_strlit("visual.display.rotation_degrees");
        assert("automation.tree_nodes"@.len() != "visual.display.rotation_degrees"@.len());
    }
    assert("filesystem.archive.create.sources"@ != "filesystem.read.selected_bytes"@) by {
        reveal_strlit("filesystem.archive.create.sources");
        reveal_strlit("filesystem.read.selected_bytes");
        assert("filesystem.archive.create.sources"@.len() != "filesystem.read.selected_bytes"@.len());
    }
    assert("filesystem.archive.create.sources"@ != "filesystem.write.edit.replacements"@) by {
        reveal_strlit("filesystem.archive.create.sources");
        reveal_strlit("filesystem.write.edit.replacements");
        assert("filesystem.archive.create.sources"@.len() != "filesystem.write.edit.replacements"@.len());
    }
    assert("filesystem.archive.create.sources"@ != "network.capture.payload_preview_bytes"@) by {
        reveal_strlit("filesystem.archive.create.sources");
        reveal_strlit("network.capture.payload_preview_bytes");
        assert("filesystem.archive.create.sources"@.len() != "network.capture.payload_preview_bytes"@.len());
    }
    assert("filesystem.archive.create.sources"@ != "network.capture.stop_wait_ms"@) by {
        reveal_strlit("filesystem.archive.create.sources");
        reveal_strlit("network.capture.stop_wait_ms");
        assert("filesystem.archive.create.sources"@.len() != "network.capture.stop_wait_ms"@.len());
    }
    assert("filesystem.archive.create.sources"@ != "network.packet.decoded_bytes"@) by {
        reveal_strlit("filesystem.archive.create.sources");
        reveal_strlit("network.packet.decoded_bytes");
        assert("filesystem.archive.create.sources"@.len() != "network.packet.decoded_bytes"@.len());
    }
    assert("filesystem.archive.create.sources"@ != "network.packet.payload_preview_bytes"@) by {
        reveal_strlit("filesystem.archive.create.sources");
        reveal_strlit("network.packet.payload_preview_bytes");
        assert("filesystem.archive.create.sources"@.len() != "network.packet.payload_preview_bytes"@.len());
    }
    assert("filesystem.archive.create.sources"@ != "network.packet.tcp_flags"@) by {
        reveal_strlit("filesystem.archive.create.sources");
        reveal_strlit("network.packet.tcp_flags");
        assert("filesystem.archive.create.sources"@.len() != "network.packet.tcp_flags"@.len());
    }
    assert("filesystem.archive.create.sources"@ != "request_dedup_max_records"@) by {
        reveal_strlit("filesystem.archive.create.sources");
        reveal_strlit("request_dedup_max_records");
        assert("filesystem.archive.create.sources"@.len() != "request_dedup_max_records"@.len());
    }
    assert("filesystem.archive.create.sources"@ != "request_dedup_retention_hours"@) by {
        reveal_strlit("filesystem.archive.create.sources");
        reveal_strlit("request_dedup_retention_hours");
        assert("filesystem.archive.create.sources"@.len() != "request_dedup_retention_hours"@.len());
    }
    assert("filesystem.archive.create.sources"@ != "visual.display.rotation_degrees"@) by {
        reveal_strlit("filesystem.archive.create.sources");
        reveal_strlit("visual.display.rotation_degrees");
        assert("filesystem.archive.create.sources"@.len() != "visual.display.rotation_degrees"@.len());
    }
    assert("filesystem.read.selected_bytes"@ != "filesystem.write.edit.replacements"@) by {
        reveal_strlit("filesystem.read.selected_bytes");
        reveal_strlit("filesystem.write.edit.replacements");
        assert("filesystem.read.selected_bytes"@.len() != "filesystem.write.edit.replacements"@.len());
    }
    assert("filesystem.read.selected_bytes"@ != "network.capture.payload_preview_bytes"@) by {
        reveal_strlit("filesystem.read.selected_bytes");
        reveal_strlit("network.capture.payload_preview_bytes");
        assert("filesystem.read.selected_bytes"@.len() != "network.capture.payload_preview_bytes"@.len());
    }
    assert("filesystem.read.selected_bytes"@ != "network.capture.stop_wait_ms"@) by {
        reveal_strlit("filesystem.read.selected_bytes");
        reveal_strlit("network.capture.stop_wait_ms");
        assert("filesystem.read.selected_bytes"@.len() != "network.capture.stop_wait_ms"@.len());
    }
    assert("filesystem.read.selected_bytes"@ != "network.packet.decoded_bytes"@) by {
        reveal_strlit("filesystem.read.selected_bytes");
        reveal_strlit("network.packet.decoded_bytes");
        assert("filesystem.read.selected_bytes"@.len() != "network.packet.decoded_bytes"@.len());
    }
    assert("filesystem.read.selected_bytes"@ != "network.packet.payload_preview_bytes"@) by {
        reveal_strlit("filesystem.read.selected_bytes");
        reveal_strlit("network.packet.payload_preview_bytes");
        assert("filesystem.read.selected_bytes"@.len() != "network.packet.payload_preview_bytes"@.len());
    }
    assert("filesystem.read.selected_bytes"@ != "network.packet.tcp_flags"@) by {
        reveal_strlit("filesystem.read.selected_bytes");
        reveal_strlit("network.packet.tcp_flags");
        assert("filesystem.read.selected_bytes"@.len() != "network.packet.tcp_flags"@.len());
    }
    assert("filesystem.read.selected_bytes"@ != "request_dedup_max_records"@) by {
        reveal_strlit("filesystem.read.selected_bytes");
        reveal_strlit("request_dedup_max_records");
        assert("filesystem.read.selected_bytes"@.len() != "request_dedup_max_records"@.len());
    }
    assert("filesystem.read.selected_bytes"@ != "request_dedup_retention_hours"@) by {
        reveal_strlit("filesystem.read.selected_bytes");
        reveal_strlit("request_dedup_retention_hours");
        assert("filesystem.read.selected_bytes"@.len() != "request_dedup_retention_hours"@.len());
    }
    assert("filesystem.read.selected_bytes"@ != "visual.display.rotation_degrees"@) by {
        reveal_strlit("filesystem.read.selected_bytes");
        reveal_strlit("visual.display.rotation_degrees");
        assert("filesystem.read.selected_bytes"@.len() != "visual.display.rotation_degrees"@.len());
    }
    assert("filesystem.write.edit.replacements"@ != "network.capture.payload_preview_bytes"@) by {
        reveal_strlit("filesystem.write.edit.replacements");
        reveal_strlit("network.capture.payload_preview_bytes");
        assert("filesystem.write.edit.replacements"@.len() != "network.capture.payload_preview_bytes"@.len());
    }
    assert("filesystem.write.edit.replacements"@ != "network.capture.stop_wait_ms"@) by {
        reveal_strlit("filesystem.write.edit.replacements");
        reveal_strlit("network.capture.stop_wait_ms");
        assert("filesystem.write.edit.replacements"@.len() != "network.capture.stop_wait_ms"@.len());
    }
    assert("filesystem.write.edit.replacements"@ != "network.packet.decoded_bytes"@) by {
        reveal_strlit("filesystem.write.edit.replacements");
        reveal_strlit("network.packet.decoded_bytes");
        assert("filesystem.write.edit.replacements"@.len() != "network.packet.decoded_bytes"@.len());
    }
    assert("filesystem.write.edit.replacements"@ != "network.packet.payload_preview_bytes"@) by {
        reveal_strlit("filesystem.write.edit.replacements");
        reveal_strlit("network.packet.payload_preview_bytes");
        assert("filesystem.write.edit.replacements"@.len() != "network.packet.payload_preview_bytes"@.len());
    }
    assert("filesystem.write.edit.replacements"@ != "network.packet.tcp_flags"@) by {
        reveal_strlit("filesystem.write.edit.replacements");
        reveal_strlit("network.packet.tcp_flags");
        assert("filesystem.write.edit.replacements"@.len() != "network.packet.tcp_flags"@.len());
    }
    assert("filesystem.write.edit.replacements"@ != "request_dedup_max_records"@) by {
        reveal_strlit("filesystem.write.edit.replacements");
        reveal_strlit("request_dedup_max_records");
        assert("filesystem.write.edit.replacements"@.len() != "request_dedup_max_records"@.len());
    }
    assert("filesystem.write.edit.replacements"@ != "request_dedup_retention_hours"@) by {
        reveal_strlit("filesystem.write.edit.replacements");
        reveal_strlit("request_dedup_retention_hours");
        assert("filesystem.write.edit.replacements"@.len() != "request_dedup_retention_hours"@.len());
    }
    assert("filesystem.write.edit.replacements"@ != "visual.display.rotation_degrees"@) by {
        reveal_strlit("filesystem.write.edit.replacements");
        reveal_strlit("visual.display.rotation_degrees");
        assert("filesystem.write.edit.replacements"@.len() != "visual.display.rotation_degrees"@.len());
    }
    assert("network.capture.payload_preview_bytes"@ != "network.capture.stop_wait_ms"@) by {
        reveal_strlit("network.capture.payload_preview_bytes");
        reveal_strlit("network.capture.stop_wait_ms");
        assert("network.capture.payload_preview_bytes"@.len() != "network.capture.stop_wait_ms"@.len());
    }
    assert("network.capture.payload_preview_bytes"@ != "network.packet.decoded_bytes"@) by {
        reveal_strlit("network.capture.payload_preview_bytes");
        reveal_strlit("network.packet.decoded_bytes");
        assert("network.capture.payload_preview_bytes"@.len() != "network.packet.decoded_bytes"@.len());
    }
    assert("network.capture.payload_preview_bytes"@ != "network.packet.payload_preview_bytes"@) by {
        reveal_strlit("network.capture.payload_preview_bytes");
        reveal_strlit("network.packet.payload_preview_bytes");
        assert("network.capture.payload_preview_bytes"@.len() != "network.packet.payload_preview_bytes"@.len());
    }
    assert("network.capture.payload_preview_bytes"@ != "network.packet.tcp_flags"@) by {
        reveal_strlit("network.capture.payload_preview_bytes");
        reveal_strlit("network.packet.tcp_flags");
        assert("network.capture.payload_preview_bytes"@.len() != "network.packet.tcp_flags"@.len());
    }
    assert("network.capture.payload_preview_bytes"@ != "request_dedup_max_records"@) by {
        reveal_strlit("network.capture.payload_preview_bytes");
        reveal_strlit("request_dedup_max_records");
        assert("network.capture.payload_preview_bytes"@.len() != "request_dedup_max_records"@.len());
    }
    assert("network.capture.payload_preview_bytes"@ != "request_dedup_retention_hours"@) by {
        reveal_strlit("network.capture.payload_preview_bytes");
        reveal_strlit("request_dedup_retention_hours");
        assert("network.capture.payload_preview_bytes"@.len() != "request_dedup_retention_hours"@.len());
    }
    assert("network.capture.payload_preview_bytes"@ != "visual.display.rotation_degrees"@) by {
        reveal_strlit("network.capture.payload_preview_bytes");
        reveal_strlit("visual.display.rotation_degrees");
        assert("network.capture.payload_preview_bytes"@.len() != "visual.display.rotation_degrees"@.len());
    }
    assert("network.capture.stop_wait_ms"@ != "network.packet.decoded_bytes"@) by {
        reveal_strlit("network.capture.stop_wait_ms");
        reveal_strlit("network.packet.decoded_bytes");
        assert("network.capture.stop_wait_ms"@[8] != "network.packet.decoded_bytes"@[8]);
    }
    assert("network.capture.stop_wait_ms"@ != "network.packet.payload_preview_bytes"@) by {
        reveal_strlit("network.capture.stop_wait_ms");
        reveal_strlit("network.packet.payload_preview_bytes");
        assert("network.capture.stop_wait_ms"@.len() != "network.packet.payload_preview_bytes"@.len());
    }
    assert("network.capture.stop_wait_ms"@ != "network.packet.tcp_flags"@) by {
        reveal_strlit("network.capture.stop_wait_ms");
        reveal_strlit("network.packet.tcp_flags");
        assert("network.capture.stop_wait_ms"@.len() != "network.packet.tcp_flags"@.len());
    }
    assert("network.capture.stop_wait_ms"@ != "request_dedup_max_records"@) by {
        reveal_strlit("network.capture.stop_wait_ms");
        reveal_strlit("request_dedup_max_records");
        assert("network.capture.stop_wait_ms"@.len() != "request_dedup_max_records"@.len());
    }
    assert("network.capture.stop_wait_ms"@ != "request_dedup_retention_hours"@) by {
        reveal_strlit("network.capture.stop_wait_ms");
        reveal_strlit("request_dedup_retention_hours");
        assert("network.capture.stop_wait_ms"@.len() != "request_dedup_retention_hours"@.len());
    }
    assert("network.capture.stop_wait_ms"@ != "visual.display.rotation_degrees"@) by {
        reveal_strlit("network.capture.stop_wait_ms");
        reveal_strlit("visual.display.rotation_degrees");
        assert("network.capture.stop_wait_ms"@.len() != "visual.display.rotation_degrees"@.len());
    }
    assert("network.packet.decoded_bytes"@ != "network.packet.payload_preview_bytes"@) by {
        reveal_strlit("network.packet.decoded_bytes");
        reveal_strlit("network.packet.payload_preview_bytes");
        assert("network.packet.decoded_bytes"@.len() != "network.packet.payload_preview_bytes"@.len());
    }
    assert("network.packet.decoded_bytes"@ != "network.packet.tcp_flags"@) by {
        reveal_strlit("network.packet.decoded_bytes");
        reveal_strlit("network.packet.tcp_flags");
        assert("network.packet.decoded_bytes"@.len() != "network.packet.tcp_flags"@.len());
    }
    assert("network.packet.decoded_bytes"@ != "request_dedup_max_records"@) by {
        reveal_strlit("network.packet.decoded_bytes");
        reveal_strlit("request_dedup_max_records");
        assert("network.packet.decoded_bytes"@.len() != "request_dedup_max_records"@.len());
    }
    assert("network.packet.decoded_bytes"@ != "request_dedup_retention_hours"@) by {
        reveal_strlit("network.packet.decoded_bytes");
        reveal_strlit("request_dedup_retention_hours");
        assert("network.packet.decoded_bytes"@.len() != "request_dedup_retention_hours"@.len());
    }
    assert("network.packet.decoded_bytes"@ != "visual.display.rotation_degrees"@) by {
        reveal_strlit("network.packet.decoded_bytes");
        reveal_strlit("visual.display.rotation_degrees");
        assert("network.packet.decoded_bytes"@.len() != "visual.display.rotation_degrees"@.len());
    }
    assert("network.packet.payload_preview_bytes"@ != "network.packet.tcp_flags"@) by {
        reveal_strlit("network.packet.payload_preview_bytes");
        reveal_strlit("network.packet.tcp_flags");
        assert("network.packet.payload_preview_bytes"@.len() != "network.packet.tcp_flags"@.len());
    }
    assert("network.packet.payload_preview_bytes"@ != "request_dedup_max_records"@) by {
        reveal_strlit("network.packet.payload_preview_bytes");
        reveal_strlit("request_dedup_max_records");
        assert("network.packet.payload_preview_bytes"@.len() != "request_dedup_max_records"@.len());
    }
    assert("network.packet.payload_preview_bytes"@ != "request_dedup_retention_hours"@) by {
        reveal_strlit("network.packet.payload_preview_bytes");
        reveal_strlit("request_dedup_retention_hours");
        assert("network.packet.payload_preview_bytes"@.len() != "request_dedup_retention_hours"@.len());
    }
    assert("network.packet.payload_preview_bytes"@ != "visual.display.rotation_degrees"@) by {
        reveal_strlit("network.packet.payload_preview_bytes");
        reveal_strlit("visual.display.rotation_degrees");
        assert("network.packet.payload_preview_bytes"@.len() != "visual.display.rotation_degrees"@.len());
    }
    assert("network.packet.tcp_flags"@ != "request_dedup_max_records"@) by {
        reveal_strlit("network.packet.tcp_flags");
        reveal_strlit("request_dedup_max_records");
        assert("network.packet.tcp_flags"@.len() != "request_dedup_max_records"@.len());
    }
    assert("network.packet.tcp_flags"@ != "request_dedup_retention_hours"@) by {
        reveal_strlit("network.packet.tcp_flags");
        reveal_strlit("request_dedup_retention_hours");
        assert("network.packet.tcp_flags"@.len() != "request_dedup_retention_hours"@.len());
    }
    assert("network.packet.tcp_flags"@ != "visual.display.rotation_degrees"@) by {
        reveal_strlit("network.packet.tcp_flags");
        reveal_strlit("visual.display.rotation_degrees");
        assert("network.packet.tcp_flags"@.len() != "visual.display.rotation_degrees"@.len());
    }
    assert("request_dedup_max_records"@ != "request_dedup_retention_hours"@) by {
        reveal_strlit("request_dedup_max_records");
        reveal_strlit("request_dedup_retention_hours");
        assert("request_dedup_max_records"@.len() != "request_dedup_retention_hours"@.len());
    }
    assert("request_dedup_max_records"@ != "visual.display.rotation_degrees"@) by {
        reveal_strlit("request_dedup_max_records");
        reveal_strlit("visual.display.rotation_degrees");
        assert("request_dedup_max_records"@.len() != "visual.display.rotation_degrees"@.len());
    }
    assert("request_dedup_retention_hours"@ != "visual.display.rotation_degrees"@) by {
        reveal_strlit("request_dedup_retention_hours");
        reveal_strlit("visual.display.rotation_degrees");
        assert("request_dedup_retention_hours"@.len() != "visual.display.rotation_degrees"@.len());
    }
    lemma_member_at(members, 0);
    lemma_member_at(members, 1);
    lemma_member_at(members, 2);
    lemma_member_at(members, 3);
    lemma_member_at(members, 4);
    lemma_member_at(members, 5);
    lemma_member_at(members, 6);
    lemma_member_at(members, 7);
    lemma_member_at(members, 8);
    lemma_member_at(members, 9);
    lemma_member_at(members, 10);
    lemma_member_at(members, 11);
    lemma_member_at(members, 12);
    lemma_member_at(members, 13);
    lemma_member_at(members, 14);
    lemma_member_at(members, 15);
    lemma_member_at(members, 16);
    lemma_member_at(members, 17);
}

/// Whether a value is a range between two numbers.
pub open spec fn is_range(value: JsonModel, min: u64, max: u64) -> bool {
    value.get("min"@) == Some(JsonModel::Unsigned(min)) && value.get("max"@) == Some(
        JsonModel::Unsigned(max),
    )
}

proof fn lemma_range(min: u64, max: u64)
    ensures
        is_range(range_model(min, max), min, max),
{
    let members = range_model(min, max)->Object_0;
    assert("max"@ != "min"@) by {
        reveal_strlit("max");
        reveal_strlit("min");
        assert("max"@[1] != "min"@[1]);
    }
    lemma_member_at(members, 0);
    lemma_member_at(members, 1);
}

/// Whether a bound is that of a text: at least so many bytes, at most so many, and whether it may
/// hold a zero byte.
pub open spec fn bounds(row: ByteBound, path: &'static str, min: int, max: int, nul: bool) -> bool {
    &&& row.path == path
    &&& min == 0 ==> row.min is None
    &&& min > 0 ==> row.min is Some && row.min->0 == min
    &&& row.max == max
    &&& row.forbid_nul == !nul
}

/// The bounds of the texts: names and keys are never empty, a text that goes to a shell or to the
/// framework by name holds no zero byte, and each has its own longest length. Only an operation and
/// the state of a socket have a character set.
pub proof fn each_text_has_its_bound(rows: Vec<ByteBound>)
    requires
        call_ensures(byte_bounds, (), rows),
    ensures
        rows@.len() == 29,
        bounds(rows@[0], "error.operation", 1, 128, true),
        bounds(rows@[1], "error.message", 0, 4_096, true),
        bounds(rows@[2], "error.details.*.key", 1, 64, true),
        bounds(rows@[3], "error.details.*.string", 0, 1_024, true),
        bounds(rows@[4], "context.status.device.timezone", 1, 255, true),
        bounds(rows@[5], "context.status.device.manufacturer", 0, 256, true),
        bounds(rows@[6], "context.status.device.model", 0, 256, true),
        bounds(rows@[7], "context.status.device.device", 0, 256, true),
        bounds(rows@[8], "context.status.device.build_fingerprint", 0, 256, true),
        bounds(rows@[9], "context.status.components.*.version", 0, 128, true),
        bounds(rows@[10], "command.run.command", 1, 32_768, false),
        bounds(rows@[11], "command.run.cwd", 1, 4_096, false),
        bounds(rows@[12], "command.run.stdin", 0, 65_536, true),
        bounds(rows@[13], "network.inspect.sockets[].state", 0, 32, true),
        bounds(rows@[14], "visual.observe.foreground.*", 0, 512, true),
        bounds(rows@[15], "visual.observe.nodes[].textual_fields", 0, 4_096, true),
        bounds(rows@[16], "visual.interact.text", 0, 65_536, true),
        bounds(rows@[17], "android.*.package_name", 1, 255, false),
        bounds(rows@[18], "android.*.class_name", 1, 512, false),
        bounds(rows@[19], "android.intent.*_uri", 0, 4_096, false),
        bounds(rows@[20], "android.intent.extras.*.key", 1, 128, true),
        bounds(rows@[21], "android.intent.extras.*.string", 0, 4_096, true),
        bounds(rows@[22], "android.clipboard.write.text", 0, 65_536, true),
        bounds(rows@[23], "android.notification.summary.title", 0, 256, true),
        bounds(rows@[24], "android.notification.summary.text", 0, 512, true),
        bounds(rows@[25], "android.notification.action.title", 0, 512, true),
        bounds(rows@[26], "automation.name", 1, 128, true),
        bounds(rows@[27], "automation.state.*.key", 1, 64, true),
        bounds(rows@[28], "automation.state.*.string", 0, 4_096, true),
        rows@[0].charset == Some("[a-z0-9_.-]") && rows@[13].charset == Some("ascii"),
        forall|i: int| 0 <= i < 29 && i != 0 && i != 13 ==> (#[trigger] rows@[i]).charset is None,
{
}

/// A bound is told by its path and its length; what it does not bound is left out.
pub proof fn a_bound_is_told_as_it_is(rows: Vec<ByteBound>, value: Json, i: int)
    requires
        call_ensures(byte_bounds, (), rows),
        call_ensures(contract_metadata, (), value),
        0 <= i < rows@.len(),
    ensures
        value@.get("utf8_byte_bounds"@) is Some && value@.get("utf8_byte_bounds"@)->0 is Array,
        value@.get("utf8_byte_bounds"@)->0->Array_0.len() == rows@.len(),
        ({
            let told = value@.get("utf8_byte_bounds"@)->0->Array_0[i];
            let row = rows@[i];
            &&& told.get("path"@) == Some(JsonModel::Text(row.path@))
            &&& told.get("max"@) == Some(JsonModel::Unsigned(row.max))
            &&& told.get("min"@) == (match row.min {
                Some(min) => Some(JsonModel::Unsigned(min)),
                None => None,
            })
            &&& told.get("charset"@) == (match row.charset {
                Some(charset) => Some(JsonModel::Text(charset@)),
                None => None,
            })
            &&& told.get("forbid_nul"@) == (if row.forbid_nul {
                Some(JsonModel::Boolean(true))
            } else {
                None
            })
        }),
{
    lemma_metadata_members();
    let row = rows@[i];
    assert(byte_bounds_model()->Array_0[i] == byte_bound_model(row));
    assert("charset"@ != "forbid_nul"@) by {
        reveal_strlit("charset");
        reveal_strlit("forbid_nul");
        assert("charset"@.len() != "forbid_nul"@.len());
    }
    assert("charset"@ != "max"@) by {
        reveal_strlit("charset");
        reveal_strlit("max");
        assert("charset"@.len() != "max"@.len());
    }
    assert("charset"@ != "min"@) by {
        reveal_strlit("charset");
        reveal_strlit("min");
        assert("charset"@.len() != "min"@.len());
    }
    assert("charset"@ != "path"@) by {
        reveal_strlit("charset");
        reveal_strlit("path");
        assert("charset"@.len() != "path"@.len());
    }
    assert("forbid_nul"@ != "max"@) by {
        reveal_strlit("forbid_nul");
        reveal_strlit("max");
        assert("forbid_nul"@.len() != "max"@.len());
    }
    assert("forbid_nul"@ != "min"@) by {
        reveal_strlit("forbid_nul");
        reveal_strlit("min");
        assert("forbid_nul"@.len() != "min"@.len());
    }
    assert("forbid_nul"@ != "path"@) by {
        reveal_strlit("forbid_nul");
        reveal_strlit("path");
        assert("forbid_nul"@.len() != "path"@.len());
    }
    assert("max"@ != "min"@) by {
        reveal_strlit("max");
        reveal_strlit("min");
        assert("max"@[1] != "min"@[1]);
    }
    assert("max"@ != "path"@) by {
        reveal_strlit("max");
        reveal_strlit("path");
        assert("max"@.len() != "path"@.len());
    }
    assert("min"@ != "path"@) by {
        reveal_strlit("min");
        reveal_strlit("path");
        assert("min"@.len() != "path"@.len());
    }
    let members = byte_bound_model(row)->Object_0;
    let a: int = if row.charset is Some {
        1
    } else {
        0
    };
    let b: int = if row.forbid_nul {
        a + 1
    } else {
        a
    };
    let c: int = if row.min is Some {
        b + 2
    } else {
        b + 1
    };
    assert(members.len() == c + 1);
    assert(row.charset is Some ==> members[0] == ("charset"@, JsonModel::Text(row.charset->0@)));
    assert(row.forbid_nul ==> members[a] == ("forbid_nul"@, JsonModel::Boolean(true)));
    assert(members[b] == ("max"@, JsonModel::Unsigned(row.max)));
    assert(row.min is Some ==> members[b + 1] == ("min"@, JsonModel::Unsigned(row.min->0)));
    assert(members[c] == ("path"@, JsonModel::Text(row.path@)));
    reveal_with_fuel(member, 7);
}

/// The fixtures are a request that asks for the compact status, and a success and an error for the
/// same request, each under its name.
pub proof fn the_fixtures_are_of_one_request(value: Json)
    requires
        call_ensures(kotlin_envelope_fixtures, (), value),
    ensures
        value@.get("fixtures"@) is Some && value@.get("fixtures"@)->0 is Array,
        value@.get("fixtures"@)->0->Array_0.len() == 3,
        value@.get("schema_version"@) == Some(JsonModel::Unsigned(1)),
        ({
            let rows = value@.get("fixtures"@)->0->Array_0;
            let id = Some(JsonModel::Text("018f47f2-26a8-4f26-8a65-728feb0e8461"@));
            let request = rows[0].get("json"@);
            let success = rows[1].get("json"@);
            let error = rows[2].get("json"@);
            &&& rows[0].get("name"@) == Some(JsonModel::Text("context_status_request"@))
            &&& rows[1].get("name"@) == Some(JsonModel::Text("success_response"@))
            &&& rows[2].get("name"@) == Some(JsonModel::Text("error_response"@))
            &&& request is Some && success is Some && error is Some
            &&& request->0.get("request_id"@) == id && success->0.get("request_id"@) == id
                && error->0.get("request_id"@) == id
            &&& request->0.get("protocol_version"@) == Some(JsonModel::Unsigned(1))
            &&& success->0.get("protocol_version"@) == Some(JsonModel::Unsigned(1))
            &&& error->0.get("protocol_version"@) == Some(JsonModel::Unsigned(1))
            &&& success->0.get("outcome"@) == Some(JsonModel::Text("success"@))
            &&& error->0.get("outcome"@) == Some(JsonModel::Text("error"@))
            &&& success->0.get("result"@) == Some(JsonModel::Object(Seq::empty()))
            &&& request->0.get("payload"@) is Some && error->0.get("error"@) is Some
            &&& request->0.get("payload"@)->0.get("tool"@) == Some(JsonModel::Text("context"@))
            &&& request->0.get("payload"@)->0.get("action"@) == Some(JsonModel::Text("status"@))
            &&& error->0.get("error"@)->0.get("code"@) == Some(JsonModel::Text("INVALID_ARGUMENT"@))
            &&& error->0.get("error"@)->0.get("operation"@) == Some(
                JsonModel::Text("context.status"@),
            )
            &&& error->0.get("error"@)->0.get("retryable"@) == Some(JsonModel::Boolean(false))
        }),
{
    let members = fixtures_model()->Object_0;
    let first = fixture_model("context_status_request"@, request_fixture_model())->Object_0;
    let second = fixture_model("success_response"@, success_fixture_model())->Object_0;
    let third = fixture_model("error_response"@, error_fixture_model())->Object_0;
    let request = request_fixture_model()->Object_0;
    let payload = request[0].1->Object_0;
    let success = success_fixture_model()->Object_0;
    let error = error_fixture_model()->Object_0;
    let inner = error[0].1->Object_0;
    assert("fixtures"@ != "schema_version"@) by {
        reveal_strlit("fixtures");
        reveal_strlit("schema_version");
        assert("fixtures"@.len() != "schema_version"@.len());
    }
    lemma_member_at(members, 0);
    lemma_member_at(members, 1);
    assert("json"@ != "name"@) by {
        reveal_strlit("json");
        reveal_strlit("name");
        assert("json"@[0] != "name"@[0]);
    }
    lemma_member_at(first, 0);
    lemma_member_at(first, 1);
    lemma_member_at(second, 0);
    lemma_member_at(second, 1);
    lemma_member_at(third, 0);
    lemma_member_at(third, 1);
    assert("payload"@ != "protocol_version"@) by {
        reveal_strlit("payload");
        reveal_strlit("protocol_version");
        assert("payload"@.len() != "protocol_version"@.len());
    }
    assert("payload"@ != "request_id"@) by {
        reveal_strlit("payload");
        reveal_strlit("request_id");
        assert("payload"@.len() != "request_id"@.len());
    }
    assert("protocol_version"@ != "request_id"@) by {
        reveal_strlit("protocol_version");
        reveal_strlit("request_id");
        assert("protocol_version"@.len() != "request_id"@.len());
    }
    lemma_member_at(request, 0);
    lemma_member_at(request, 1);
    lemma_member_at(request, 2);
    assert("action"@ != "input"@) by {
        reveal_strlit("action");
        reveal_strlit("input");
        assert("action"@.len() != "input"@.len());
    }
    assert("action"@ != "tool"@) by {
        reveal_strlit("action");
        reveal_strlit("tool");
        assert("action"@.len() != "tool"@.len());
    }
    assert("input"@ != "tool"@) by {
        reveal_strlit("input");
        reveal_strlit("tool");
        assert("input"@.len() != "tool"@.len());
    }
    lemma_member_at(payload, 0);
    lemma_member_at(payload, 1);
    lemma_member_at(payload, 2);
    assert("outcome"@ != "protocol_version"@) by {
        reveal_strlit("outcome");
        reveal_strlit("protocol_version");
        assert("outcome"@.len() != "protocol_version"@.len());
    }
    assert("outcome"@ != "request_id"@) by {
        reveal_strlit("outcome");
        reveal_strlit("request_id");
        assert("outcome"@.len() != "request_id"@.len());
    }
    assert("outcome"@ != "result"@) by {
        reveal_strlit("outcome");
        reveal_strlit("result");
        assert("outcome"@.len() != "result"@.len());
    }
    assert("protocol_version"@ != "result"@) by {
        reveal_strlit("protocol_version");
        reveal_strlit("result");
        assert("protocol_version"@.len() != "result"@.len());
    }
    assert("request_id"@ != "result"@) by {
        reveal_strlit("request_id");
        reveal_strlit("result");
        assert("request_id"@.len() != "result"@.len());
    }
    lemma_member_at(success, 0);
    lemma_member_at(success, 1);
    lemma_member_at(success, 2);
    lemma_member_at(success, 3);
    assert("error"@ != "outcome"@) by {
        reveal_strlit("error");
        reveal_strlit("outcome");
        assert("error"@.len() != "outcome"@.len());
    }
    assert("error"@ != "protocol_version"@) by {
        reveal_strlit("error");
        reveal_strlit("protocol_version");
        assert("error"@.len() != "protocol_version"@.len());
    }
    assert("error"@ != "request_id"@) by {
        reveal_strlit("error");
        reveal_strlit("request_id");
        assert("error"@.len() != "request_id"@.len());
    }
    lemma_member_at(error, 0);
    lemma_member_at(error, 1);
    lemma_member_at(error, 2);
    lemma_member_at(error, 3);
    assert("code"@ != "operation"@) by {
        reveal_strlit("code");
        reveal_strlit("operation");
        assert("code"@.len() != "operation"@.len());
    }
    assert("code"@ != "retryable"@) by {
        reveal_strlit("code");
        reveal_strlit("retryable");
        assert("code"@.len() != "retryable"@.len());
    }
    assert("operation"@ != "retryable"@) by {
        reveal_strlit("operation");
        reveal_strlit("retryable");
        assert("operation"@[0] != "retryable"@[0]);
    }
    lemma_member_at(inner, 0);
    lemma_member_at(inner, 1);
    lemma_member_at(inner, 2);
}

/// Each artifact is the file of its own value, over several lines and with a line feed at its end;
/// the schemas are taken as they come.
pub proof fn each_artifact_is_its_value(
    schemas: Vec<u8>,
    artifacts: Vec<GeneratedArtifact>,
    metadata: Json,
    bounds: Json,
    fixtures: Json,
)
    requires
        call_ensures(generated_artifacts, (schemas,), artifacts),
        call_ensures(contract_metadata, (), metadata),
        call_ensures(settlement_bounds, (), bounds),
        call_ensures(kotlin_envelope_fixtures, (), fixtures),
    ensures
        artifacts@.len() == 4,
        artifacts@[0].relative_path@ == "contract-schema.v1.json"@ && artifacts@[0].bytes@
            == schemas@,
        artifacts@[1].relative_path@ == "contract-metadata.v1.json"@ && artifacts@[1].bytes@
            == encode_utf8(pretty(metadata@, ""@) + "\n"@),
        artifacts@[2].relative_path@ == "settlement-bounds.v1.json"@ && artifacts@[2].bytes@
            == encode_utf8(pretty(bounds@, ""@) + "\n"@),
        artifacts@[3].relative_path@ == "kotlin-envelope-fixtures.v1.json"@ && artifacts@[3].bytes@
            == encode_utf8(pretty(fixtures@, ""@) + "\n"@),
{
    let models = artifact_models(artifacts@);
    assert(models.len() == artifacts@.len());
    assert(models[0] == (artifacts@[0].relative_path@, artifacts@[0].bytes@));
    assert(models[1] == (artifacts@[1].relative_path@, artifacts@[1].bytes@));
    assert(models[2] == (artifacts@[2].relative_path@, artifacts@[2].bytes@));
    assert(models[3] == (artifacts@[3].relative_path@, artifacts@[3].bytes@));
}

/// Each artifact has its digest under its own path, and the paths are in order.
pub proof fn each_artifact_has_its_digest(
    schemas: Vec<u8>,
    artifacts: Vec<GeneratedArtifact>,
    hashes: Vec<(&'static str, String)>,
    i: int,
)
    requires
        call_ensures(generated_artifacts, (schemas,), artifacts),
        call_ensures(generated_artifact_hashes, (schemas,), hashes),
        0 <= i < 4,
    ensures
        artifacts@.len() == 4 && hashes@.len() == 4,
        exists|k: int|
            0 <= k < 4 && (#[trigger] hashes@[k]).0@ == artifacts@[i].relative_path@
                && hashes@[k].1@ == digest_text(artifacts@[i].bytes@),
        i < 3 ==> precedes(hashes@[i].0@, hashes@[i + 1].0@),
{
    let models = artifact_models(artifacts@);
    assert(models.len() == artifacts@.len());
    assert(models[i] == (artifacts@[i].relative_path@, artifacts@[i].bytes@));
    let k = path_order()[i];
    assert(path_order()[k] == i);
    assert(is_hash_of(hashes@[k], expected_artifacts(schemas@)[path_order()[k]]));
    assert(hashes@[k].0@ == artifacts@[i].relative_path@);
    assert(is_hash_of(hashes@[0], expected_artifacts(schemas@)[1]));
    assert(is_hash_of(hashes@[1], expected_artifacts(schemas@)[0]));
    assert(is_hash_of(hashes@[2], expected_artifacts(schemas@)[3]));
    assert(is_hash_of(hashes@[3], expected_artifacts(schemas@)[2]));
    let metadata = "contract-metadata.v1.json"@;
    let schema = "contract-schema.v1.json"@;
    let kotlin = "kotlin-envelope-fixtures.v1.json"@;
    let settlement = "settlement-bounds.v1.json"@;
    reveal_strlit("contract-metadata.v1.json");
    reveal_strlit("contract-schema.v1.json");
    reveal_strlit("kotlin-envelope-fixtures.v1.json");
    reveal_strlit("settlement-bounds.v1.json");
    assert(metadata.take(9) =~= schema.take(9));
    texts_are_ordered_by_their_first_difference(metadata, schema);
    texts_are_ordered_by_their_first_difference(schema, kotlin);
    texts_are_ordered_by_their_first_difference(kotlin, settlement);
    assert(schema.take(0) =~= kotlin.take(0));
    assert(kotlin.take(0) =~= settlement.take(0));
    assert(metadata[9] == 'm' && schema[9] == 's');
    assert(schema[0] == 'c' && kotlin[0] == 'k' && settlement[0] == 's');
}

} // verus!
