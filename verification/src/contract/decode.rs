//! How the inputs of a request are told apart where a field alone does not: which tool a payload is
//! for, which fields an action may have, and which of several sources is named.

use crate::contract::common::{FileTarget, MotherTool};
use crate::contract::tools::{CaptureReadSource, PacketDecodeSource, ReadSource, VisualSource};
use crate::json::{
    entry, lemma_member_at, member, member_models, object, optional_model, text_value, Json,
    JsonModel, Member,
};
use crate::text::{one_of, same, slices};
use vstd::prelude::*;

verus! {

// ---------------------------------------------------------------------------------------
// Exactly one source.
// ---------------------------------------------------------------------------------------

/// What `filesystem.read` reads: exactly one of the two is named.
pub fn read_source(target: Option<FileTarget>, data_ref: Option<String>) -> (source: Result<
    ReadSource,
    &'static str,
>)
    ensures
        source == (match (target, data_ref) {
            (Some(target), None) => Ok(ReadSource::Target { target }),
            (None, Some(data_ref)) => Ok(ReadSource::DataRef { data_ref }),
            _ => Err("filesystem.read requires exactly one of target or data_ref"),
        }),
{
    match (target, data_ref) {
        (Some(target), None) => Ok(ReadSource::Target { target }),
        (None, Some(data_ref)) => Ok(ReadSource::DataRef { data_ref }),
        _ => Err("filesystem.read requires exactly one of target or data_ref"),
    }
}

/// What `network.capture` reads: exactly one of the two is named.
pub fn capture_read_source(capture_ref: Option<String>, file: Option<FileTarget>) -> (source: Result<
    CaptureReadSource,
    &'static str,
>)
    ensures
        source == (match (capture_ref, file) {
            (Some(capture_ref), None) => Ok(CaptureReadSource::CaptureRef { capture_ref }),
            (None, Some(file)) => Ok(CaptureReadSource::File { file }),
            _ => Err("network.capture read requires exactly one of capture_ref or file"),
        }),
{
    match (capture_ref, file) {
        (Some(capture_ref), None) => Ok(CaptureReadSource::CaptureRef { capture_ref }),
        (None, Some(file)) => Ok(CaptureReadSource::File { file }),
        _ => Err("network.capture read requires exactly one of capture_ref or file"),
    }
}

/// What `visual.view` shows: exactly one of the three is named.
pub fn visual_source(
    path: Option<String>,
    content_uri: Option<String>,
    image_ref: Option<String>,
) -> (source: Result<VisualSource, &'static str>)
    ensures
        source == (match (path, content_uri, image_ref) {
            (Some(path), None, None) => Ok(VisualSource::Path { path }),
            (None, Some(content_uri), None) => Ok(VisualSource::ContentUri { content_uri }),
            (None, None, Some(image_ref)) => Ok(VisualSource::ImageRef { image_ref }),
            _ => Err("visual.view requires exactly one of path, content_uri, or image_ref"),
        }),
{
    match (path, content_uri, image_ref) {
        (Some(path), None, None) => Ok(VisualSource::Path { path }),
        (None, Some(content_uri), None) => Ok(VisualSource::ContentUri { content_uri }),
        (None, None, Some(image_ref)) => Ok(VisualSource::ImageRef { image_ref }),
        _ => Err("visual.view requires exactly one of path, content_uri, or image_ref"),
    }
}

/// What `network.packet` decodes: exactly one source is named, and an index only with a capture.
pub fn packet_decode_source(
    raw_base64: Option<String>,
    packet_ref: Option<String>,
    capture_ref: Option<String>,
    index: Option<u64>,
) -> (source: Result<PacketDecodeSource, &'static str>)
    ensures
        source == (match (raw_base64, packet_ref, capture_ref, index) {
            (Some(raw_base64), None, None, None) => Ok(PacketDecodeSource::Raw { raw_base64 }),
            (None, Some(packet_ref), None, None) => Ok(
                PacketDecodeSource::PacketRef { packet_ref },
            ),
            (None, None, Some(capture_ref), Some(index)) => Ok(
                PacketDecodeSource::Capture { capture_ref, index },
            ),
            _ => Err(
                "network.packet decode requires exactly one of raw_base64, packet_ref or capture_ref with index",
            ),
        }),
{
    match (raw_base64, packet_ref, capture_ref, index) {
        (Some(raw_base64), None, None, None) => Ok(PacketDecodeSource::Raw { raw_base64 }),
        (None, Some(packet_ref), None, None) => Ok(PacketDecodeSource::PacketRef { packet_ref }),
        (None, None, Some(capture_ref), Some(index)) => Ok(
            PacketDecodeSource::Capture { capture_ref, index },
        ),
        _ => Err(
            "network.packet decode requires exactly one of raw_base64, packet_ref or capture_ref with index",
        ),
    }
}

// ---------------------------------------------------------------------------------------
// Fields.
// ---------------------------------------------------------------------------------------

/// Whether every key of an object is one of `allowed`.
pub open spec fn only_keys(members: Seq<(Seq<char>, JsonModel)>, allowed: Seq<Seq<char>>) -> bool {
    forall|i: int| 0 <= i < members.len() ==> allowed.contains((#[trigger] members[i]).0)
}

fn has_only_keys(members: &[Member], allowed: &[&str]) -> (only: bool)
    ensures
        only == only_keys(member_models(members@), slices(allowed@)),
{
    let ghost models = member_models(members@);
    for i in 0..members.len()
        invariant
            models == member_models(members@),
            forall|k: int| 0 <= k < i ==> slices(allowed@).contains((#[trigger] models[k]).0),
    {
        let known = one_of(members[i].key.as_str(), allowed);
        assert(models[i as int].0 == members@[i as int].key@);
        if !known {
            proof {
                if slices(allowed@).contains(models[i as int].0) {
                    let j = choose|j: int|
                        0 <= j < slices(allowed@).len() && slices(allowed@)[j]
                            == models[i as int].0;
                    assert(allowed@[j]@ == members@[i as int].key@);
                }
            }
            return false;
        }
        proof {
            let j = choose|j: int|
                0 <= j < allowed@.len() && #[trigger] allowed@[j]@ == members@[i as int].key@;
            assert(slices(allowed@)[j] == models[i as int].0);
        }
    }
    true
}

/// The fields that an interaction may have, or why there is no such interaction.
pub open spec fn interaction_fields(operation: Seq<char>, target: Option<JsonModel>) -> Result<
    Seq<Seq<char>>,
    &'static str,
> {
    if operation == "tap"@ || operation == "long_press"@ {
        match target {
            Some(JsonModel::Text(target)) if target == "node"@ => Ok(
                seq!["operation"@, "target"@, "node_ref"@],
            ),
            Some(JsonModel::Text(target)) if target == "coordinate"@ => Ok(
                seq!["operation"@, "target"@, "observation_id"@, "x"@, "y"@],
            ),
            _ => Err("unknown visual interaction target"),
        }
    } else if operation == "swipe"@ {
        Ok(
            seq![
                "operation"@,
                "observation_id"@,
                "from_x"@,
                "from_y"@,
                "to_x"@,
                "to_y"@,
                "duration_ms"@,
            ],
        )
    } else if operation == "text"@ {
        Ok(seq!["operation"@, "text"@, "node_ref"@])
    } else if operation == "key"@ {
        Ok(seq!["operation"@, "key_code"@, "meta_state"@])
    } else {
        Err("unknown visual interaction operation")
    }
}

/// What is wrong with the fields of a value, which names its kind in the field `kind`: it is no
/// object, it names no kind, it names one that is not known, or it has a field that its kind does
/// not have.
pub open spec fn fields_fault(
    value: JsonModel,
    kind: Option<JsonModel>,
    fields: Result<Seq<Seq<char>>, &'static str>,
    no_object: &'static str,
    no_kind: &'static str,
    unknown_field: &'static str,
) -> Option<&'static str> {
    match value {
        JsonModel::Object(members) => match kind {
            Some(JsonModel::Text(_)) => match fields {
                Err(reason) => Some(reason),
                Ok(allowed) => if only_keys(members, allowed) {
                    None
                } else {
                    Some(unknown_field)
                },
            },
            _ => Some(no_kind),
        },
        _ => Some(no_object),
    }
}

/// The characters of a text, if the value is one.
pub open spec fn text_or_empty(value: Option<JsonModel>) -> Seq<char> {
    match value {
        Some(JsonModel::Text(text)) => text,
        _ => Seq::empty(),
    }
}

/// What is wrong with the fields of an interaction.
pub open spec fn interaction_fault(value: JsonModel) -> Option<&'static str> {
    let operation = value.get("operation"@);
    fields_fault(
        value,
        operation,
        interaction_fields(text_or_empty(operation), value.get("target"@)),
        "visual interaction input must be an object",
        "visual interaction operation must be a string",
        "unknown visual interaction field",
    )
}

fn allowed_interaction(operation: &str, target: Option<&Json>) -> (fields: Result<
    Vec<&'static str>,
    &'static str,
>)
    ensures
        match (fields, interaction_fields(operation@, optional_model(target))) {
            (Ok(fields), Ok(expected)) => slices(fields@) == expected,
            (Err(reason), Err(expected)) => reason == expected,
            _ => false,
        },
{
    let fields = if same(operation, "tap") || same(operation, "long_press") {
        match target {
            Some(Json::Text(target)) => {
                if same(target.as_str(), "node") {
                    vec!["operation", "target", "node_ref"]
                } else if same(target.as_str(), "coordinate") {
                    vec!["operation", "target", "observation_id", "x", "y"]
                } else {
                    return Err("unknown visual interaction target");
                }
            },
            _ => {
                return Err("unknown visual interaction target");
            },
        }
    } else if same(operation, "swipe") {
        vec![
            "operation",
            "observation_id",
            "from_x",
            "from_y",
            "to_x",
            "to_y",
            "duration_ms",
        ]
    } else if same(operation, "text") {
        vec!["operation", "text", "node_ref"]
    } else if same(operation, "key") {
        vec!["operation", "key_code", "meta_state"]
    } else {
        return Err("unknown visual interaction operation");
    };
    assert(slices(fields@) =~= interaction_fields(operation@, optional_model(target))->Ok_0);
    Ok(fields)
}

/// Checks the fields of an interaction.
pub fn check_interaction_fields(value: &Json) -> (checked: Result<(), &'static str>)
    ensures
        match interaction_fault(value@) {
            Some(reason) => checked == Err::<(), _>(reason),
            None => checked == Ok::<(), &'static str>(()),
        },
{
    let members = match value {
        Json::Object(members) => members,
        _ => {
            return Err("visual interaction input must be an object");
        },
    };
    proof {
        crate::json::an_object_holds_its_members(*members);
    }
    let operation = match value.get("operation") {
        Some(Json::Text(operation)) => operation,
        _ => {
            return Err("visual interaction operation must be a string");
        },
    };
    match allowed_interaction(operation.as_str(), value.get("target")) {
        Err(reason) => Err(reason),
        Ok(allowed) => {
            if has_only_keys(members.as_slice(), allowed.as_slice()) {
                Ok(())
            } else {
                Err("unknown visual interaction field")
            }
        },
    }
}

/// The fields that an action of an automation may have, or why there is no such action.
pub open spec fn action_fields(kind: Seq<char>) -> Result<Seq<Seq<char>>, &'static str> {
    if kind == "call"@ {
        Ok(seq!["type"@, "tool"@, "action"@, "args"@])
    } else if kind == "sequence"@ {
        Ok(seq!["type"@, "children"@])
    } else if kind == "conditional"@ {
        Ok(seq!["type"@, "condition"@, "then"@, "else"@])
    } else if kind == "repeat"@ {
        Ok(seq!["type"@, "count"@, "action"@, "delay_ms"@])
    } else if kind == "delay"@ {
        Ok(seq!["type"@, "duration_ms"@])
    } else if kind == "set_state"@ {
        Ok(seq!["type"@, "key"@, "value"@])
    } else {
        Err("unknown Automation action type")
    }
}

/// What is wrong with the fields of an action of an automation.
pub open spec fn action_fault(value: JsonModel) -> Option<&'static str> {
    let kind = value.get("type"@);
    fields_fault(
        value,
        kind,
        action_fields(text_or_empty(kind)),
        "Automation action must be an object",
        "Automation action type must be a string",
        "unknown Automation action field",
    )
}

fn allowed_action(kind: &str) -> (fields: Result<Vec<&'static str>, &'static str>)
    ensures
        match (fields, action_fields(kind@)) {
            (Ok(fields), Ok(expected)) => slices(fields@) == expected,
            (Err(reason), Err(expected)) => reason == expected,
            _ => false,
        },
{
    let fields = if same(kind, "call") {
        vec!["type", "tool", "action", "args"]
    } else if same(kind, "sequence") {
        vec!["type", "children"]
    } else if same(kind, "conditional") {
        vec!["type", "condition", "then", "else"]
    } else if same(kind, "repeat") {
        vec!["type", "count", "action", "delay_ms"]
    } else if same(kind, "delay") {
        vec!["type", "duration_ms"]
    } else if same(kind, "set_state") {
        vec!["type", "key", "value"]
    } else {
        return Err("unknown Automation action type");
    };
    assert(slices(fields@) =~= action_fields(kind@)->Ok_0);
    Ok(fields)
}

/// Checks the fields of an action of an automation.
pub fn check_action_fields(value: &Json) -> (checked: Result<(), &'static str>)
    ensures
        match action_fault(value@) {
            Some(reason) => checked == Err::<(), _>(reason),
            None => checked == Ok::<(), &'static str>(()),
        },
{
    let members = match value {
        Json::Object(members) => members,
        _ => {
            return Err("Automation action must be an object");
        },
    };
    proof {
        crate::json::an_object_holds_its_members(*members);
    }
    let kind = match value.get("type") {
        Some(Json::Text(kind)) => kind,
        _ => {
            return Err("Automation action type must be a string");
        },
    };
    match allowed_action(kind.as_str()) {
        Err(reason) => Err(reason),
        Ok(allowed) => {
            if has_only_keys(members.as_slice(), allowed.as_slice()) {
                Ok(())
            } else {
                Err("unknown Automation action field")
            }
        },
    }
}

// ---------------------------------------------------------------------------------------
// The payload of a request.
// ---------------------------------------------------------------------------------------

/// The tool of a name.
pub open spec fn tool_of(name: Seq<char>) -> Option<MotherTool> {
    if name == "context"@ {
        Some(MotherTool::Context)
    } else if name == "filesystem"@ {
        Some(MotherTool::Filesystem)
    } else if name == "command"@ {
        Some(MotherTool::Command)
    } else if name == "network"@ {
        Some(MotherTool::Network)
    } else if name == "visual"@ {
        Some(MotherTool::Visual)
    } else if name == "android"@ {
        Some(MotherTool::Android)
    } else if name == "automation"@ {
        Some(MotherTool::Automation)
    } else if name == "task_control"@ {
        Some(MotherTool::TaskControl)
    } else {
        None
    }
}

fn tool_named(name: &str) -> (tool: Option<MotherTool>)
    ensures
        tool == tool_of(name@),
{
    if same(name, "context") {
        Some(MotherTool::Context)
    } else if same(name, "filesystem") {
        Some(MotherTool::Filesystem)
    } else if same(name, "command") {
        Some(MotherTool::Command)
    } else if same(name, "network") {
        Some(MotherTool::Network)
    } else if same(name, "visual") {
        Some(MotherTool::Visual)
    } else if same(name, "android") {
        Some(MotherTool::Android)
    } else if same(name, "automation") {
        Some(MotherTool::Automation)
    } else if same(name, "task_control") {
        Some(MotherTool::TaskControl)
    } else {
        None
    }
}

/// The members of an object but for those of one key.
pub open spec fn without(members: Seq<(Seq<char>, JsonModel)>, key: Seq<char>) -> Seq<
    (Seq<char>, JsonModel),
>
    decreases members.len(),
{
    if members.len() == 0 {
        Seq::empty()
    } else if members.last().0 == key {
        without(members.drop_last(), key)
    } else {
        without(members.drop_last(), key).push(members.last())
    }
}

/// The tool that a payload is for and the call that is left without it, or why it is no payload.
pub open spec fn payload_parts(value: JsonModel) -> Result<(MotherTool, JsonModel), &'static str> {
    match value {
        JsonModel::Object(members) => if members.len() != 3 || member(members, "tool"@) is None
            || member(members, "action"@) is None || member(members, "input"@) is None {
            Err("payload must contain exactly tool, action, and input")
        } else {
            match member(members, "tool"@) {
                Some(JsonModel::Text(name)) => match tool_of(name) {
                    Some(tool) => Ok((tool, JsonModel::Object(without(members, "tool"@)))),
                    None => Err("unknown mother tool"),
                },
                _ => Err("tool must be a string"),
            }
        },
        _ => Err("payload must be an object"),
    }
}

fn members_without(members: &[Member], key: &str) -> (rest: Vec<Member>)
    ensures
        member_models(rest@) == without(member_models(members@), key@),
{
    let ghost models = member_models(members@);
    let mut rest: Vec<Member> = Vec::new();
    assert(models.take(0) =~= Seq::empty());
    assert(member_models(rest@) =~= Seq::empty());
    for i in 0..members.len()
        invariant
            models == member_models(members@),
            member_models(rest@) == without(models.take(i as int), key@),
    {
        assert(models.take(i + 1).drop_last() =~= models.take(i as int));
        assert(models.take(i + 1).last() == members@[i as int]@);
        if !same(members[i].key.as_str(), key) {
            let ghost before = member_models(rest@);
            rest.push(members[i].clone());
            assert(member_models(rest@) =~= before.push(members@[i as int]@));
        }
    }
    assert(models.take(models.len() as int) =~= models);
    rest
}

/// Splits a payload into the tool that it is for and the call.
pub fn split_payload(value: &Json) -> (parts: Result<(MotherTool, Json), &'static str>)
    ensures
        match (parts, payload_parts(value@)) {
            (Ok((tool, call)), Ok((expected, model))) => tool == expected && call@ == model,
            (Err(reason), Err(expected)) => reason == expected,
            _ => false,
        },
{
    let members = match value {
        Json::Object(members) => members,
        _ => {
            return Err("payload must be an object");
        },
    };
    proof {
        crate::json::an_object_holds_its_members(*members);
    }
    let tool = value.get("tool");
    let action = value.get("action");
    let input = value.get("input");
    if members.len() != 3 || tool.is_none() || action.is_none() || input.is_none() {
        return Err("payload must contain exactly tool, action, and input");
    }
    match tool {
        Some(Json::Text(name)) => match tool_named(name.as_str()) {
            Some(tool) => Ok((tool, object(members_without(members.as_slice(), "tool")))),
            None => Err("unknown mother tool"),
        },
        _ => Err("tool must be a string"),
    }
}

// ---------------------------------------------------------------------------------------
// Decoding a packet.
// ---------------------------------------------------------------------------------------

/// What a packet is decoded from.
pub enum SourceModel {
    Raw(Seq<char>),
    PacketRef(Seq<char>),
    Capture(Seq<char>, u64),
}

impl View for PacketDecodeSource {
    type V = SourceModel;

    open spec fn view(&self) -> SourceModel {
        match *self {
            PacketDecodeSource::Raw { raw_base64 } => SourceModel::Raw(raw_base64@),
            PacketDecodeSource::PacketRef { packet_ref } => SourceModel::PacketRef(packet_ref@),
            PacketDecodeSource::Capture { capture_ref, index } => SourceModel::Capture(
                capture_ref@,
                index,
            ),
        }
    }
}

/// An optional text field: absent or null, or a text. Anything else is refused.
pub open spec fn text_field(value: JsonModel, key: Seq<char>) -> Result<Option<Seq<char>>, ()> {
    match value.get(key) {
        None => Ok(None),
        Some(JsonModel::Null) => Ok(None),
        Some(JsonModel::Text(text)) => Ok(Some(text)),
        _ => Err(()),
    }
}

/// An optional number field: absent or null, or a number. Anything else is refused.
pub open spec fn number_field(value: JsonModel, key: Seq<char>) -> Result<Option<u64>, ()> {
    match value.get(key) {
        None => Ok(None),
        Some(JsonModel::Null) => Ok(None),
        Some(JsonModel::Unsigned(number)) => Ok(Some(number)),
        _ => Err(()),
    }
}

pub open spec fn packet_fields() -> Seq<Seq<char>> {
    seq!["operation"@, "raw_base64"@, "packet_ref"@, "capture_ref"@, "index"@]
}

/// What the object of a decode request names as the source of the packet.
pub open spec fn decode_request(value: JsonModel) -> Option<SourceModel> {
    match value {
        JsonModel::Object(members) => if !only_keys(members, packet_fields()) || value.get(
            "operation"@,
        ) != Some(JsonModel::Text("decode"@)) {
            None
        } else {
            match (
                text_field(value, "raw_base64"@),
                text_field(value, "packet_ref"@),
                text_field(value, "capture_ref"@),
                number_field(value, "index"@),
            ) {
                (Ok(Some(raw)), Ok(None), Ok(None), Ok(None)) => Some(SourceModel::Raw(raw)),
                (Ok(None), Ok(Some(packet)), Ok(None), Ok(None)) => Some(
                    SourceModel::PacketRef(packet),
                ),
                (Ok(None), Ok(None), Ok(Some(capture)), Ok(Some(index))) => Some(
                    SourceModel::Capture(capture, index),
                ),
                _ => None,
            }
        },
        _ => None,
    }
}

fn read_text_field(value: &Json, key: &str) -> (field: Result<Option<String>, ()>)
    ensures
        match (field, text_field(value@, key@)) {
            (Ok(Some(text)), Ok(Some(expected))) => text@ == expected,
            (Ok(None), Ok(None)) => true,
            (Err(_), Err(_)) => true,
            _ => false,
        },
{
    match value.get(key) {
        None => Ok(None),
        Some(Json::Null) => Ok(None),
        Some(Json::Text(text)) => Ok(Some(text.clone())),
        _ => Err(()),
    }
}

fn read_number_field(value: &Json, key: &str) -> (field: Result<Option<u64>, ()>)
    ensures
        field == number_field(value@, key@),
{
    match value.get(key) {
        None => Ok(None),
        Some(Json::Null) => Ok(None),
        Some(Json::Unsigned(number)) => Ok(Some(*number)),
        _ => Err(()),
    }
}

/// Reads the object of a decode request.
pub fn read_decode_request(value: &Json) -> (source: Option<PacketDecodeSource>)
    ensures
        match (source, decode_request(value@)) {
            (Some(source), Some(expected)) => source@ == expected,
            (None, None) => true,
            _ => false,
        },
{
    let members = match value {
        Json::Object(members) => members,
        _ => {
            return None;
        },
    };
    proof {
        crate::json::an_object_holds_its_members(*members);
    }
    let fields = ["operation", "raw_base64", "packet_ref", "capture_ref", "index"];
    assert(slices(fields@) =~= packet_fields());
    if !has_only_keys(members.as_slice(), &fields) {
        return None;
    }
    let decodes = match value.get("operation") {
        Some(Json::Text(operation)) => same(operation.as_str(), "decode"),
        _ => false,
    };
    if !decodes {
        return None;
    }
    match (
        read_text_field(value, "raw_base64"),
        read_text_field(value, "packet_ref"),
        read_text_field(value, "capture_ref"),
        read_number_field(value, "index"),
    ) {
        (Ok(raw), Ok(packet), Ok(capture), Ok(index)) => {
            match packet_decode_source(raw, packet, capture, index) {
                Ok(source) => Some(source),
                Err(_) => None,
            }
        },
        _ => None,
    }
}

pub open spec fn decode_model(source: SourceModel) -> JsonModel {
    let operation = ("operation"@, JsonModel::Text("decode"@));
    match source {
        SourceModel::Raw(raw) => JsonModel::Object(
            seq![operation, ("raw_base64"@, JsonModel::Text(raw))],
        ),
        SourceModel::PacketRef(packet) => JsonModel::Object(
            seq![operation, ("packet_ref"@, JsonModel::Text(packet))],
        ),
        SourceModel::Capture(capture, index) => JsonModel::Object(
            seq![
                ("capture_ref"@, JsonModel::Text(capture)),
                ("index"@, JsonModel::Unsigned(index)),
                operation,
            ],
        ),
    }
}

/// The object of a decode request.
pub fn decode_value(source: &PacketDecodeSource) -> (value: Json)
    ensures
        value@ == decode_model(source@),
{
    let members = match source {
        PacketDecodeSource::Raw { raw_base64 } => vec![
            entry("operation", text_value("decode")),
            entry("raw_base64", text_value(raw_base64.as_str())),
        ],
        PacketDecodeSource::PacketRef { packet_ref } => vec![
            entry("operation", text_value("decode")),
            entry("packet_ref", text_value(packet_ref.as_str())),
        ],
        PacketDecodeSource::Capture { capture_ref, index } => vec![
            entry("capture_ref", text_value(capture_ref.as_str())),
            entry("index", Json::Unsigned(*index)),
            entry("operation", text_value("decode")),
        ],
    };
    assert(member_models(members@) =~= decode_model(source@)->Object_0);
    object(members)
}

/// What is written of a source is read as that source.
pub proof fn a_decode_request_reads_back(source: SourceModel)
    ensures
        decode_request(decode_model(source)) == Some(source),
{
    reveal_strlit("operation");
    reveal_strlit("raw_base64");
    reveal_strlit("packet_ref");
    reveal_strlit("capture_ref");
    reveal_strlit("index");
    assert("operation"@.len() == 9);
    assert("raw_base64"@.len() == 10);
    assert("packet_ref"@.len() == 10);
    assert("capture_ref"@.len() == 11);
    assert("index"@.len() == 5);
    assert("raw_base64"@[0] != "packet_ref"@[0]);
    let value = decode_model(source);
    let members = value->Object_0;
    let fields = packet_fields();
    assert(fields[0] == "operation"@ && fields[1] == "raw_base64"@ && fields[2] == "packet_ref"@
        && fields[3] == "capture_ref"@ && fields[4] == "index"@);
    reveal_with_fuel(member, 4);
}

// ---------------------------------------------------------------------------------------
// Laws.
// ---------------------------------------------------------------------------------------

/// Whether no member has another key than those that `allowed` holds for.
pub open spec fn every_key(members: Seq<(Seq<char>, JsonModel)>,
    allowed: spec_fn(Seq<char>) -> bool) -> bool {
    forall|i: int| 0 <= i < members.len() ==> allowed((#[trigger] members[i]).0)
}

proof fn lemma_every_key(
    members: Seq<(Seq<char>, JsonModel)>,
    keys: Seq<Seq<char>>,
    allowed: spec_fn(Seq<char>) -> bool,
)
    requires
        forall|key: Seq<char>| #[trigger] keys.contains(key) <==> allowed(key),
    ensures
        only_keys(members, keys) <==> every_key(members, allowed),
{
    if only_keys(members, keys) {
        assert forall|i: int| 0 <= i < members.len() implies allowed(
            (#[trigger] members[i]).0,
        ) by {
            assert(keys.contains(members[i].0));
        }
    }
    if every_key(members, allowed) {
        assert forall|i: int| 0 <= i < members.len() implies keys.contains(
            (#[trigger] members[i]).0,
        ) by {
            assert(allowed(members[i].0));
        }
    }
}

/// An interaction is known by its operation, a tap or a long press by its target as well, and has the
/// fields of its kind and no other.
pub proof fn an_interaction_has_its_own_fields(value: Json, checked: Result<(), &'static str>)
    requires
        call_ensures(check_interaction_fields, (&value,), checked),
    ensures
        value@ !is Object ==> checked is Err,
        value@.get("operation"@) is None || value@.get("operation"@)->0 !is Text ==> checked is Err,
        value@ is Object && value@.get("operation"@) is Some && value@.get("operation"@)->0 is Text
            ==> {
            let members = value@->Object_0;
            let operation = value@.get("operation"@)->0->Text_0;
            let target = value@.get("target"@);
            let press = operation == "tap"@ || operation == "long_press"@;
            let node = target == Some(JsonModel::Text("node"@));
            let coordinate = target == Some(JsonModel::Text("coordinate"@));
            &&& press && node ==> (checked is Ok <==> every_key(
                members,
                |key: Seq<char>| key == "operation"@ || key == "target"@ || key == "node_ref"@,
            ))
            &&& press && coordinate ==> (checked is Ok <==> every_key(
                members,
                |key: Seq<char>| key == "operation"@ || key == "target"@ || key == "observation_id"@
                    || key == "x"@ || key == "y"@,
            ))
            &&& press && !node && !coordinate ==> checked is Err
            &&& operation == "swipe"@ ==> (checked is Ok <==> every_key(
                members,
                |key: Seq<char>| key == "operation"@ || key == "observation_id"@ || key == "from_x"@
                    || key == "from_y"@ || key == "to_x"@ || key == "to_y"@
                    || key == "duration_ms"@,
            ))
            &&& operation == "text"@ ==> (checked is Ok <==> every_key(
                members,
                |key: Seq<char>| key == "operation"@ || key == "text"@ || key == "node_ref"@,
            ))
            &&& operation == "key"@ ==> (checked is Ok <==> every_key(
                members,
                |key: Seq<char>| key == "operation"@ || key == "key_code"@ || key == "meta_state"@,
            ))
            &&& !press && operation != "swipe"@ && operation != "text"@ && operation != "key"@
                ==> checked is Err
        },
{
    assert("tap"@ != "long_press"@) by {
        reveal_strlit("tap");
        reveal_strlit("long_press");
        assert("tap"@.len() != "long_press"@.len());
    }
    assert("tap"@ != "swipe"@) by {
        reveal_strlit("tap");
        reveal_strlit("swipe");
        assert("tap"@.len() != "swipe"@.len());
    }
    assert("tap"@ != "text"@) by {
        reveal_strlit("tap");
        reveal_strlit("text");
        assert("tap"@.len() != "text"@.len());
    }
    assert("tap"@ != "key"@) by {
        reveal_strlit("tap");
        reveal_strlit("key");
        assert("tap"@[0] != "key"@[0]);
    }
    assert("long_press"@ != "swipe"@) by {
        reveal_strlit("long_press");
        reveal_strlit("swipe");
        assert("long_press"@.len() != "swipe"@.len());
    }
    assert("long_press"@ != "text"@) by {
        reveal_strlit("long_press");
        reveal_strlit("text");
        assert("long_press"@.len() != "text"@.len());
    }
    assert("long_press"@ != "key"@) by {
        reveal_strlit("long_press");
        reveal_strlit("key");
        assert("long_press"@.len() != "key"@.len());
    }
    assert("swipe"@ != "text"@) by {
        reveal_strlit("swipe");
        reveal_strlit("text");
        assert("swipe"@.len() != "text"@.len());
    }
    assert("swipe"@ != "key"@) by {
        reveal_strlit("swipe");
        reveal_strlit("key");
        assert("swipe"@.len() != "key"@.len());
    }
    assert("text"@ != "key"@) by {
        reveal_strlit("text");
        reveal_strlit("key");
        assert("text"@.len() != "key"@.len());
    }
    assert("node"@ != "coordinate"@) by {
        reveal_strlit("node");
        reveal_strlit("coordinate");
        assert("node"@.len() != "coordinate"@.len());
    }
    if value@ is Object {
        let members = value@->Object_0;
        lemma_interaction_keys(members);
    }
}

proof fn lemma_interaction_keys(members: Seq<(Seq<char>, JsonModel)>)
    ensures
        only_keys(members, seq!["operation"@, "target"@, "node_ref"@]) <==> every_key(members,
            |key: Seq<char>| key == "operation"@ || key == "target"@ || key == "node_ref"@),
        only_keys(members, seq!["operation"@, "target"@, "observation_id"@, "x"@, "y"@])
            <==> every_key(members, |key: Seq<char>| key == "operation"@ || key == "target"@
            || key == "observation_id"@ || key == "x"@ || key == "y"@),
        only_keys(members, seq!["operation"@, "observation_id"@, "from_x"@, "from_y"@, "to_x"@,
            "to_y"@, "duration_ms"@]) <==> every_key(members, |key: Seq<char>| key == "operation"@
            || key == "observation_id"@ || key == "from_x"@ || key == "from_y"@ || key == "to_x"@
            || key == "to_y"@ || key == "duration_ms"@),
        only_keys(members, seq!["operation"@, "text"@, "node_ref"@]) <==> every_key(members,
            |key: Seq<char>| key == "operation"@ || key == "text"@ || key == "node_ref"@),
        only_keys(members, seq!["operation"@, "key_code"@, "meta_state"@]) <==> every_key(members,
            |key: Seq<char>| key == "operation"@ || key == "key_code"@ || key == "meta_state"@),
{
    {
        let keys = seq!["operation"@, "target"@, "node_ref"@];
        let allowed = |key: Seq<char>| key == "operation"@ || key == "target"@
            || key == "node_ref"@;
        assert forall|key: Seq<char>| #[trigger] keys.contains(key) <==> allowed(key) by {
            assert(keys[0] == "operation"@);
            assert(keys[1] == "target"@);
            assert(keys[2] == "node_ref"@);
        }
        lemma_every_key(members, keys, allowed);
    }
    {
        let keys = seq!["operation"@, "target"@, "observation_id"@, "x"@, "y"@];
        let allowed = |key: Seq<char>| key == "operation"@ || key == "target"@
            || key == "observation_id"@ || key == "x"@ || key == "y"@;
        assert forall|key: Seq<char>| #[trigger] keys.contains(key) <==> allowed(key) by {
            assert(keys[0] == "operation"@);
            assert(keys[1] == "target"@);
            assert(keys[2] == "observation_id"@);
            assert(keys[3] == "x"@);
            assert(keys[4] == "y"@);
        }
        lemma_every_key(members, keys, allowed);
    }
    {
        let keys = seq!["operation"@, "observation_id"@, "from_x"@, "from_y"@, "to_x"@, "to_y"@,
            "duration_ms"@];
        let allowed = |key: Seq<char>| key == "operation"@ || key == "observation_id"@
            || key == "from_x"@ || key == "from_y"@ || key == "to_x"@ || key == "to_y"@
            || key == "duration_ms"@;
        assert forall|key: Seq<char>| #[trigger] keys.contains(key) <==> allowed(key) by {
            assert(keys[0] == "operation"@);
            assert(keys[1] == "observation_id"@);
            assert(keys[2] == "from_x"@);
            assert(keys[3] == "from_y"@);
            assert(keys[4] == "to_x"@);
            assert(keys[5] == "to_y"@);
            assert(keys[6] == "duration_ms"@);
        }
        lemma_every_key(members, keys, allowed);
    }
    {
        let keys = seq!["operation"@, "text"@, "node_ref"@];
        let allowed = |key: Seq<char>| key == "operation"@ || key == "text"@ || key == "node_ref"@;
        assert forall|key: Seq<char>| #[trigger] keys.contains(key) <==> allowed(key) by {
            assert(keys[0] == "operation"@);
            assert(keys[1] == "text"@);
            assert(keys[2] == "node_ref"@);
        }
        lemma_every_key(members, keys, allowed);
    }
    {
        let keys = seq!["operation"@, "key_code"@, "meta_state"@];
        let allowed = |key: Seq<char>| key == "operation"@ || key == "key_code"@
            || key == "meta_state"@;
        assert forall|key: Seq<char>| #[trigger] keys.contains(key) <==> allowed(key) by {
            assert(keys[0] == "operation"@);
            assert(keys[1] == "key_code"@);
            assert(keys[2] == "meta_state"@);
        }
        lemma_every_key(members, keys, allowed);
    }
}

/// An action of an automation is known by its type and has the fields of its type and no other.
pub proof fn an_action_has_its_own_fields(value: Json, checked: Result<(), &'static str>)
    requires
        call_ensures(check_action_fields, (&value,), checked),
    ensures
        value@ !is Object ==> checked is Err,
        value@.get("type"@) is None || value@.get("type"@)->0 !is Text ==> checked is Err,
        value@ is Object && value@.get("type"@) is Some && value@.get("type"@)->0 is Text ==> {
            let members = value@->Object_0;
            let kind = value@.get("type"@)->0->Text_0;
            &&& kind == "call"@ ==> (checked is Ok <==> every_key(
                members,
                |key: Seq<char>| key == "type"@ || key == "tool"@ || key == "action"@
                    || key == "args"@,
            ))
            &&& kind == "sequence"@ ==> (checked is Ok <==> every_key(
                members,
                |key: Seq<char>| key == "type"@ || key == "children"@,
            ))
            &&& kind == "conditional"@ ==> (checked is Ok <==> every_key(
                members,
                |key: Seq<char>| key == "type"@ || key == "condition"@ || key == "then"@
                    || key == "else"@,
            ))
            &&& kind == "repeat"@ ==> (checked is Ok <==> every_key(
                members,
                |key: Seq<char>| key == "type"@ || key == "count"@ || key == "action"@
                    || key == "delay_ms"@,
            ))
            &&& kind == "delay"@ ==> (checked is Ok <==> every_key(
                members,
                |key: Seq<char>| key == "type"@ || key == "duration_ms"@,
            ))
            &&& kind == "set_state"@ ==> (checked is Ok <==> every_key(
                members,
                |key: Seq<char>| key == "type"@ || key == "key"@ || key == "value"@,
            ))
            &&& kind != "call"@ && kind != "sequence"@ && kind != "conditional"@
                && kind != "repeat"@ && kind != "delay"@ && kind != "set_state"@
                ==> checked is Err
        },
{
    assert("call"@ != "sequence"@) by {
        reveal_strlit("call");
        reveal_strlit("sequence");
        assert("call"@.len() != "sequence"@.len());
    }
    assert("call"@ != "conditional"@) by {
        reveal_strlit("call");
        reveal_strlit("conditional");
        assert("call"@.len() != "conditional"@.len());
    }
    assert("call"@ != "repeat"@) by {
        reveal_strlit("call");
        reveal_strlit("repeat");
        assert("call"@.len() != "repeat"@.len());
    }
    assert("call"@ != "delay"@) by {
        reveal_strlit("call");
        reveal_strlit("delay");
        assert("call"@.len() != "delay"@.len());
    }
    assert("call"@ != "set_state"@) by {
        reveal_strlit("call");
        reveal_strlit("set_state");
        assert("call"@.len() != "set_state"@.len());
    }
    assert("sequence"@ != "conditional"@) by {
        reveal_strlit("sequence");
        reveal_strlit("conditional");
        assert("sequence"@.len() != "conditional"@.len());
    }
    assert("sequence"@ != "repeat"@) by {
        reveal_strlit("sequence");
        reveal_strlit("repeat");
        assert("sequence"@.len() != "repeat"@.len());
    }
    assert("sequence"@ != "delay"@) by {
        reveal_strlit("sequence");
        reveal_strlit("delay");
        assert("sequence"@.len() != "delay"@.len());
    }
    assert("sequence"@ != "set_state"@) by {
        reveal_strlit("sequence");
        reveal_strlit("set_state");
        assert("sequence"@.len() != "set_state"@.len());
    }
    assert("conditional"@ != "repeat"@) by {
        reveal_strlit("conditional");
        reveal_strlit("repeat");
        assert("conditional"@.len() != "repeat"@.len());
    }
    assert("conditional"@ != "delay"@) by {
        reveal_strlit("conditional");
        reveal_strlit("delay");
        assert("conditional"@.len() != "delay"@.len());
    }
    assert("conditional"@ != "set_state"@) by {
        reveal_strlit("conditional");
        reveal_strlit("set_state");
        assert("conditional"@.len() != "set_state"@.len());
    }
    assert("repeat"@ != "delay"@) by {
        reveal_strlit("repeat");
        reveal_strlit("delay");
        assert("repeat"@.len() != "delay"@.len());
    }
    assert("repeat"@ != "set_state"@) by {
        reveal_strlit("repeat");
        reveal_strlit("set_state");
        assert("repeat"@.len() != "set_state"@.len());
    }
    assert("delay"@ != "set_state"@) by {
        reveal_strlit("delay");
        reveal_strlit("set_state");
        assert("delay"@.len() != "set_state"@.len());
    }
    if value@ is Object {
        let members = value@->Object_0;
        lemma_action_keys(members);
    }
}

proof fn lemma_action_keys(members: Seq<(Seq<char>, JsonModel)>)
    ensures
        only_keys(members, seq!["type"@, "tool"@, "action"@, "args"@]) <==> every_key(members,
            |key: Seq<char>| key == "type"@ || key == "tool"@ || key == "action"@
            || key == "args"@),
        only_keys(members, seq!["type"@, "children"@]) <==> every_key(members,
            |key: Seq<char>| key == "type"@ || key == "children"@),
        only_keys(members, seq!["type"@, "condition"@, "then"@, "else"@]) <==> every_key(members,
            |key: Seq<char>| key == "type"@ || key == "condition"@ || key == "then"@
            || key == "else"@),
        only_keys(members, seq!["type"@, "count"@, "action"@, "delay_ms"@]) <==> every_key(members,
            |key: Seq<char>| key == "type"@ || key == "count"@ || key == "action"@
            || key == "delay_ms"@),
        only_keys(members, seq!["type"@, "duration_ms"@]) <==> every_key(members,
            |key: Seq<char>| key == "type"@ || key == "duration_ms"@),
        only_keys(members, seq!["type"@, "key"@, "value"@]) <==> every_key(members,
            |key: Seq<char>| key == "type"@ || key == "key"@ || key == "value"@),
{
    {
        let keys = seq!["type"@, "tool"@, "action"@, "args"@];
        let allowed = |key: Seq<char>| key == "type"@ || key == "tool"@ || key == "action"@
            || key == "args"@;
        assert forall|key: Seq<char>| #[trigger] keys.contains(key) <==> allowed(key) by {
            assert(keys[0] == "type"@);
            assert(keys[1] == "tool"@);
            assert(keys[2] == "action"@);
            assert(keys[3] == "args"@);
        }
        lemma_every_key(members, keys, allowed);
    }
    {
        let keys = seq!["type"@, "children"@];
        let allowed = |key: Seq<char>| key == "type"@ || key == "children"@;
        assert forall|key: Seq<char>| #[trigger] keys.contains(key) <==> allowed(key) by {
            assert(keys[0] == "type"@);
            assert(keys[1] == "children"@);
        }
        lemma_every_key(members, keys, allowed);
    }
    {
        let keys = seq!["type"@, "condition"@, "then"@, "else"@];
        let allowed = |key: Seq<char>| key == "type"@ || key == "condition"@ || key == "then"@
            || key == "else"@;
        assert forall|key: Seq<char>| #[trigger] keys.contains(key) <==> allowed(key) by {
            assert(keys[0] == "type"@);
            assert(keys[1] == "condition"@);
            assert(keys[2] == "then"@);
            assert(keys[3] == "else"@);
        }
        lemma_every_key(members, keys, allowed);
    }
    {
        let keys = seq!["type"@, "count"@, "action"@, "delay_ms"@];
        let allowed = |key: Seq<char>| key == "type"@ || key == "count"@ || key == "action"@
            || key == "delay_ms"@;
        assert forall|key: Seq<char>| #[trigger] keys.contains(key) <==> allowed(key) by {
            assert(keys[0] == "type"@);
            assert(keys[1] == "count"@);
            assert(keys[2] == "action"@);
            assert(keys[3] == "delay_ms"@);
        }
        lemma_every_key(members, keys, allowed);
    }
    {
        let keys = seq!["type"@, "duration_ms"@];
        let allowed = |key: Seq<char>| key == "type"@ || key == "duration_ms"@;
        assert forall|key: Seq<char>| #[trigger] keys.contains(key) <==> allowed(key) by {
            assert(keys[0] == "type"@);
            assert(keys[1] == "duration_ms"@);
        }
        lemma_every_key(members, keys, allowed);
    }
    {
        let keys = seq!["type"@, "key"@, "value"@];
        let allowed = |key: Seq<char>| key == "type"@ || key == "key"@ || key == "value"@;
        assert forall|key: Seq<char>| #[trigger] keys.contains(key) <==> allowed(key) by {
            assert(keys[0] == "type"@);
            assert(keys[1] == "key"@);
            assert(keys[2] == "value"@);
        }
        lemma_every_key(members, keys, allowed);
    }
}

proof fn lemma_without(members: Seq<(Seq<char>, JsonModel)>, key: Seq<char>, other: Seq<char>)
    ensures
        member(without(members, key), key) is None,
        other != key ==> member(without(members, key), other) == member(members, other),
    decreases members.len(),
{
    if members.len() > 0 {
        let earlier = members.drop_last();
        lemma_without(earlier, key, other);
        lemma_member_of_push(earlier, members.last(), other);
        assert(earlier.push(members.last()) =~= members);
        lemma_member_of_push(without(earlier, key), members.last(), key);
        lemma_member_of_push(without(earlier, key), members.last(), other);
    }
}

proof fn lemma_member_of_push(
    members: Seq<(Seq<char>, JsonModel)>,
    last: (Seq<char>, JsonModel),
    key: Seq<char>,
)
    ensures
        member(members.push(last), key) == (if member(members, key) is Some {
            member(members, key)
        } else if last.0 == key {
            Some(last.1)
        } else {
            None
        }),
    decreases members.len(),
{
    let all = members.push(last);
    if members.len() == 0 {
        assert(all.skip(1) =~= Seq::<(Seq<char>, JsonModel)>::empty());
        reveal_with_fuel(member, 2);
    } else {
        assert(all.skip(1) =~= members.skip(1).push(last));
        lemma_member_of_push(members.skip(1), last, key);
    }
}

/// A payload is an object of a tool, an action and an input and nothing else; its tool is told by its
/// name, and the call that is left has the action and the input as they were.
pub proof fn a_payload_is_split_at_its_tool(
    value: Json,
    parts: Result<(MotherTool, Json), &'static str>,
)
    requires
        call_ensures(split_payload, (&value,), parts),
    ensures
        parts is Ok ==> {
            let tool = (parts->Ok_0).0;
            let call = (parts->Ok_0).1@;
            &&& value@ is Object && value@->Object_0.len() == 3
            &&& call is Object
            &&& call.get("tool"@) is None
            &&& value@.get("action"@) is Some && call.get("action"@) == value@.get("action"@)
            &&& value@.get("input"@) is Some && call.get("input"@) == value@.get("input"@)
            &&& value@.get("tool"@) is Some && value@.get("tool"@)->0 is Text
            &&& tool is Context <==> value@.get("tool"@)->0->Text_0 == "context"@
            &&& tool is Filesystem <==> value@.get("tool"@)->0->Text_0 == "filesystem"@
            &&& tool is Command <==> value@.get("tool"@)->0->Text_0 == "command"@
            &&& tool is Network <==> value@.get("tool"@)->0->Text_0 == "network"@
            &&& tool is Visual <==> value@.get("tool"@)->0->Text_0 == "visual"@
            &&& tool is Android <==> value@.get("tool"@)->0->Text_0 == "android"@
            &&& tool is Automation <==> value@.get("tool"@)->0->Text_0 == "automation"@
            &&& tool is TaskControl <==> value@.get("tool"@)->0->Text_0 == "task_control"@
        },
        parts is Err && value@ is Object && value@->Object_0.len() == 3 && value@.get(
            "action"@,
        ) is Some && value@.get("input"@) is Some && value@.get("tool"@) is Some && value@.get(
            "tool"@,
        )->0 is Text ==> {
            let name = value@.get("tool"@)->0->Text_0;
            &&& name != "context"@
            &&& name != "filesystem"@
            &&& name != "command"@
            &&& name != "network"@
            &&& name != "visual"@
            &&& name != "android"@
            &&& name != "automation"@
            &&& name != "task_control"@
        },
{
    assert("context"@ != "filesystem"@) by {
        reveal_strlit("context");
        reveal_strlit("filesystem");
        assert("context"@.len() != "filesystem"@.len());
    }
    assert("context"@ != "command"@) by {
        reveal_strlit("context");
        reveal_strlit("command");
        assert("context"@[2] != "command"@[2]);
    }
    assert("context"@ != "network"@) by {
        reveal_strlit("context");
        reveal_strlit("network");
        assert("context"@[0] != "network"@[0]);
    }
    assert("context"@ != "visual"@) by {
        reveal_strlit("context");
        reveal_strlit("visual");
        assert("context"@.len() != "visual"@.len());
    }
    assert("context"@ != "android"@) by {
        reveal_strlit("context");
        reveal_strlit("android");
        assert("context"@[0] != "android"@[0]);
    }
    assert("context"@ != "automation"@) by {
        reveal_strlit("context");
        reveal_strlit("automation");
        assert("context"@.len() != "automation"@.len());
    }
    assert("context"@ != "task_control"@) by {
        reveal_strlit("context");
        reveal_strlit("task_control");
        assert("context"@.len() != "task_control"@.len());
    }
    assert("filesystem"@ != "command"@) by {
        reveal_strlit("filesystem");
        reveal_strlit("command");
        assert("filesystem"@.len() != "command"@.len());
    }
    assert("filesystem"@ != "network"@) by {
        reveal_strlit("filesystem");
        reveal_strlit("network");
        assert("filesystem"@.len() != "network"@.len());
    }
    assert("filesystem"@ != "visual"@) by {
        reveal_strlit("filesystem");
        reveal_strlit("visual");
        assert("filesystem"@.len() != "visual"@.len());
    }
    assert("filesystem"@ != "android"@) by {
        reveal_strlit("filesystem");
        reveal_strlit("android");
        assert("filesystem"@.len() != "android"@.len());
    }
    assert("filesystem"@ != "automation"@) by {
        reveal_strlit("filesystem");
        reveal_strlit("automation");
        assert("filesystem"@[0] != "automation"@[0]);
    }
    assert("filesystem"@ != "task_control"@) by {
        reveal_strlit("filesystem");
        reveal_strlit("task_control");
        assert("filesystem"@.len() != "task_control"@.len());
    }
    assert("command"@ != "network"@) by {
        reveal_strlit("command");
        reveal_strlit("network");
        assert("command"@[0] != "network"@[0]);
    }
    assert("command"@ != "visual"@) by {
        reveal_strlit("command");
        reveal_strlit("visual");
        assert("command"@.len() != "visual"@.len());
    }
    assert("command"@ != "android"@) by {
        reveal_strlit("command");
        reveal_strlit("android");
        assert("command"@[0] != "android"@[0]);
    }
    assert("command"@ != "automation"@) by {
        reveal_strlit("command");
        reveal_strlit("automation");
        assert("command"@.len() != "automation"@.len());
    }
    assert("command"@ != "task_control"@) by {
        reveal_strlit("command");
        reveal_strlit("task_control");
        assert("command"@.len() != "task_control"@.len());
    }
    assert("network"@ != "visual"@) by {
        reveal_strlit("network");
        reveal_strlit("visual");
        assert("network"@.len() != "visual"@.len());
    }
    assert("network"@ != "android"@) by {
        reveal_strlit("network");
        reveal_strlit("android");
        assert("network"@[0] != "android"@[0]);
    }
    assert("network"@ != "automation"@) by {
        reveal_strlit("network");
        reveal_strlit("automation");
        assert("network"@.len() != "automation"@.len());
    }
    assert("network"@ != "task_control"@) by {
        reveal_strlit("network");
        reveal_strlit("task_control");
        assert("network"@.len() != "task_control"@.len());
    }
    assert("visual"@ != "android"@) by {
        reveal_strlit("visual");
        reveal_strlit("android");
        assert("visual"@.len() != "android"@.len());
    }
    assert("visual"@ != "automation"@) by {
        reveal_strlit("visual");
        reveal_strlit("automation");
        assert("visual"@.len() != "automation"@.len());
    }
    assert("visual"@ != "task_control"@) by {
        reveal_strlit("visual");
        reveal_strlit("task_control");
        assert("visual"@.len() != "task_control"@.len());
    }
    assert("android"@ != "automation"@) by {
        reveal_strlit("android");
        reveal_strlit("automation");
        assert("android"@.len() != "automation"@.len());
    }
    assert("android"@ != "task_control"@) by {
        reveal_strlit("android");
        reveal_strlit("task_control");
        assert("android"@.len() != "task_control"@.len());
    }
    assert("automation"@ != "task_control"@) by {
        reveal_strlit("automation");
        reveal_strlit("task_control");
        assert("automation"@.len() != "task_control"@.len());
    }
    assert("action"@ != "tool"@) by {
        reveal_strlit("action");
        reveal_strlit("tool");
        assert("action"@.len() != "tool"@.len());
    }
    assert("input"@ != "tool"@) by {
        reveal_strlit("input");
        reveal_strlit("tool");
        assert("input"@.len() != "tool"@.len());
    }
    if value@ is Object {
        lemma_without(value@->Object_0, "tool"@, "action"@);
        lemma_without(value@->Object_0, "tool"@, "input"@);
    }
}

/// A decode request names its source under the source's own key, and a packet of a capture by its
/// index.
pub proof fn a_decode_request_names_its_source(source: PacketDecodeSource, value: Json)
    requires
        call_ensures(decode_value, (&source,), value),
    ensures
        value@.get("operation"@) == Some(JsonModel::Text("decode"@)),
        source matches PacketDecodeSource::Raw { raw_base64 } ==> value@.get("raw_base64"@) == Some(
            JsonModel::Text(raw_base64@),
        ),
        source matches PacketDecodeSource::PacketRef { packet_ref } ==> value@.get("packet_ref"@)
            == Some(JsonModel::Text(packet_ref@)),
        source matches PacketDecodeSource::Capture { capture_ref, index } ==> value@.get(
            "capture_ref"@,
        ) == Some(JsonModel::Text(capture_ref@)) && value@.get("index"@) == Some(
            JsonModel::Unsigned(index),
        ),
{
    assert("operation"@ != "raw_base64"@) by {
        reveal_strlit("operation");
        reveal_strlit("raw_base64");
        assert("operation"@.len() != "raw_base64"@.len());
    }
    assert("operation"@ != "packet_ref"@) by {
        reveal_strlit("operation");
        reveal_strlit("packet_ref");
        assert("operation"@.len() != "packet_ref"@.len());
    }
    assert("operation"@ != "capture_ref"@) by {
        reveal_strlit("operation");
        reveal_strlit("capture_ref");
        assert("operation"@.len() != "capture_ref"@.len());
    }
    assert("operation"@ != "index"@) by {
        reveal_strlit("operation");
        reveal_strlit("index");
        assert("operation"@.len() != "index"@.len());
    }
    assert("raw_base64"@ != "packet_ref"@) by {
        reveal_strlit("raw_base64");
        reveal_strlit("packet_ref");
        assert("raw_base64"@[0] != "packet_ref"@[0]);
    }
    assert("raw_base64"@ != "capture_ref"@) by {
        reveal_strlit("raw_base64");
        reveal_strlit("capture_ref");
        assert("raw_base64"@.len() != "capture_ref"@.len());
    }
    assert("raw_base64"@ != "index"@) by {
        reveal_strlit("raw_base64");
        reveal_strlit("index");
        assert("raw_base64"@.len() != "index"@.len());
    }
    assert("packet_ref"@ != "capture_ref"@) by {
        reveal_strlit("packet_ref");
        reveal_strlit("capture_ref");
        assert("packet_ref"@.len() != "capture_ref"@.len());
    }
    assert("packet_ref"@ != "index"@) by {
        reveal_strlit("packet_ref");
        reveal_strlit("index");
        assert("packet_ref"@.len() != "index"@.len());
    }
    assert("capture_ref"@ != "index"@) by {
        reveal_strlit("capture_ref");
        reveal_strlit("index");
        assert("capture_ref"@.len() != "index"@.len());
    }
    let members = decode_model(source@)->Object_0;
    lemma_member_at(members, 0);
    lemma_member_at(members, 1);
    if source is Capture {
        lemma_member_at(members, 2);
    }
}

} // verus!
