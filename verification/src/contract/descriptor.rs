//! The editor descriptors of an Automation: one entry per editable field, what control edits it
//! and when it is shown.

use crate::contract::common::{ScalarModel, ScalarValue};
use crate::contract::tools::{action_specs, action_table, ActionSpec};
use crate::text::{contains_double, has_double, joined, optional_text, same, starts_with, texts};
use vstd::prelude::*;

verus! {

#[derive(Clone, Debug, PartialEq)]
pub struct AutomationDescriptors {
    pub schema_version: u32,
    pub fields: Vec<FieldDescriptor>,
}

#[derive(Clone, Copy, Debug, PartialEq, Eq, Structural)]
pub enum LabelSource {
    Resource,
    WireName,
}

#[derive(Clone, Copy, Debug, PartialEq, Eq, Structural)]
pub enum Control {
    Switch,
    OutlinedText,
    SingleChoice,
    Optional,
    ScalarEditor,
    KeyScalarTable,
}

#[derive(Clone, Copy, Debug, PartialEq, Eq, Structural)]
pub enum ValueKind {
    Boolean,
    String,
    Integer,
    Scalar,
}

#[derive(Clone, Copy, Debug, PartialEq, Eq, Structural)]
pub enum WrappedControl {
    OutlinedText,
    SingleChoice,
}

#[derive(Clone, Debug, PartialEq)]
pub struct DescriptorOption {
    pub value: String,
    pub label_source: LabelSource,
    pub label_resource: Option<String>,
}

#[derive(Clone, Debug, PartialEq)]
pub struct VisibilityCondition {
    pub canonical_path: String,
    pub values: Vec<ScalarValue>,
}

#[derive(Clone, Debug, PartialEq)]
pub struct FieldDescriptor {
    pub canonical_path: String,
    pub order: u32,
    pub label_source: LabelSource,
    pub label_resource: Option<String>,
    pub control: Control,
    pub sensitive: bool,
    pub validation: String,
    pub value_kind: ValueKind,
    pub required: bool,
    pub default: Option<ScalarValue>,
    pub options: Option<Vec<DescriptorOption>>,
    pub wrapped_control: Option<WrappedControl>,
    pub visible_when: Option<Vec<VisibilityCondition>>,
    pub max_rows: Option<u32>,
    pub key_max_utf8_bytes: Option<u32>,
    pub scalar_kinds: Option<Vec<String>>,
    pub string_max_utf8_bytes: Option<u32>,
}

// ---------------------------------------------------------------------------------------
// Models.
// ---------------------------------------------------------------------------------------

/// What an option is, over sequences.
pub struct OptionModel {
    pub value: Seq<char>,
    pub label_source: LabelSource,
    pub label_resource: Option<Seq<char>>,
}

/// What a visibility condition is, over sequences.
pub struct ConditionModel {
    pub canonical_path: Seq<char>,
    pub values: Seq<ScalarModel>,
}

/// What a field descriptor is, over sequences.
pub struct FieldModel {
    pub canonical_path: Seq<char>,
    pub order: u32,
    pub label_source: LabelSource,
    pub label_resource: Option<Seq<char>>,
    pub control: Control,
    pub sensitive: bool,
    pub validation: Seq<char>,
    pub value_kind: ValueKind,
    pub required: bool,
    pub default: Option<ScalarModel>,
    pub options: Option<Seq<OptionModel>>,
    pub wrapped_control: Option<WrappedControl>,
    pub visible_when: Option<Seq<ConditionModel>>,
    pub max_rows: Option<u32>,
    pub key_max_utf8_bytes: Option<u32>,
    pub scalar_kinds: Option<Seq<Seq<char>>>,
    pub string_max_utf8_bytes: Option<u32>,
}

pub open spec fn scalar_models(values: Seq<ScalarValue>) -> Seq<ScalarModel> {
    Seq::new(values.len(), |i: int| values[i]@)
}

pub open spec fn option_models(options: Seq<DescriptorOption>) -> Seq<OptionModel> {
    Seq::new(options.len(), |i: int| options[i]@)
}

pub open spec fn condition_models(conditions: Seq<VisibilityCondition>) -> Seq<ConditionModel> {
    Seq::new(conditions.len(), |i: int| conditions[i]@)
}

pub open spec fn field_models(fields: Seq<FieldDescriptor>) -> Seq<FieldModel> {
    Seq::new(fields.len(), |i: int| fields[i]@)
}

impl View for DescriptorOption {
    type V = OptionModel;

    open spec fn view(&self) -> OptionModel {
        OptionModel {
            value: self.value@,
            label_source: self.label_source,
            label_resource: optional_text(self.label_resource),
        }
    }
}

impl View for VisibilityCondition {
    type V = ConditionModel;

    open spec fn view(&self) -> ConditionModel {
        ConditionModel {
            canonical_path: self.canonical_path@,
            values: scalar_models(self.values@),
        }
    }
}

impl View for FieldDescriptor {
    type V = FieldModel;

    open spec fn view(&self) -> FieldModel {
        FieldModel {
            canonical_path: self.canonical_path@,
            order: self.order,
            label_source: self.label_source,
            label_resource: optional_text(self.label_resource),
            control: self.control,
            sensitive: self.sensitive,
            validation: self.validation@,
            value_kind: self.value_kind,
            required: self.required,
            default: match self.default {
                Some(value) => Some(value@),
                None => None,
            },
            options: match self.options {
                Some(options) => Some(option_models(options@)),
                None => None,
            },
            wrapped_control: self.wrapped_control,
            visible_when: match self.visible_when {
                Some(conditions) => Some(condition_models(conditions@)),
                None => None,
            },
            max_rows: self.max_rows,
            key_max_utf8_bytes: self.key_max_utf8_bytes,
            scalar_kinds: match self.scalar_kinds {
                Some(kinds) => Some(texts(kinds@)),
                None => None,
            },
            string_max_utf8_bytes: self.string_max_utf8_bytes,
        }
    }
}

// ---------------------------------------------------------------------------------------
// The vocabulary the table below is written in.
// ---------------------------------------------------------------------------------------

/// An option labelled by a string resource.
pub open spec fn resource_option(value: Seq<char>, label: Seq<char>) -> OptionModel {
    OptionModel { value, label_source: LabelSource::Resource, label_resource: Some(label) }
}

/// An option labelled by its own wire value.
pub open spec fn wire_option(value: Seq<char>) -> OptionModel {
    OptionModel { value, label_source: LabelSource::WireName, label_resource: None }
}

/// The condition that the field at `path` holds one of `values`.
pub open spec fn one_of_values(path: Seq<char>, values: Seq<Seq<char>>) -> ConditionModel {
    ConditionModel {
        canonical_path: path,
        values: Seq::new(values.len(), |i: int| ScalarModel::Text(values[i])),
    }
}

/// A field without choices, default or condition.
pub open spec fn plain_field(
    path: Seq<char>,
    order: u32,
    label: Option<Seq<char>>,
    control: Control,
    kind: ValueKind,
    required: bool,
) -> FieldModel {
    FieldModel {
        canonical_path: path,
        order,
        label_source: if label is Some {
            LabelSource::Resource
        } else {
            LabelSource::WireName
        },
        label_resource: label,
        control,
        sensitive: false,
        validation: "contract"@,
        value_kind: kind,
        required,
        default: None,
        options: None,
        wrapped_control: None,
        visible_when: None,
        max_rows: None,
        key_max_utf8_bytes: None,
        scalar_kinds: None,
        string_max_utf8_bytes: None,
    }
}

/// A field labelled by a string resource.
pub open spec fn resource_field(
    path: Seq<char>,
    order: u32,
    label: Seq<char>,
    control: Control,
    kind: ValueKind,
    required: bool,
) -> FieldModel {
    plain_field(path, order, Some(label), control, kind, required)
}

/// A field labelled by its own wire name.
pub open spec fn wire_field(
    path: Seq<char>,
    order: u32,
    control: Control,
    kind: ValueKind,
    required: bool,
) -> FieldModel {
    plain_field(path, order, None, control, kind, required)
}

impl FieldModel {
    pub open spec fn choosing(self, options: Seq<OptionModel>) -> FieldModel {
        FieldModel { options: Some(options), ..self }
    }

    pub open spec fn defaulting(self, value: ScalarModel) -> FieldModel {
        FieldModel { default: Some(value), ..self }
    }

    pub open spec fn shown_when(self, conditions: Seq<ConditionModel>) -> FieldModel {
        FieldModel { visible_when: Some(conditions), ..self }
    }

    pub open spec fn optionally(self, wrapped: WrappedControl) -> FieldModel {
        FieldModel {
            control: Control::Optional,
            required: false,
            wrapped_control: Some(wrapped),
            ..self
        }
    }

    pub open spec fn editing_scalars(self) -> FieldModel {
        FieldModel {
            scalar_kinds: Some(all_scalar_kinds()),
            string_max_utf8_bytes: Some(4096),
            ..self
        }
    }

    pub open spec fn with_rows(self) -> FieldModel {
        FieldModel { max_rows: Some(32), key_max_utf8_bytes: Some(64), ..self }
    }

    /// The field shown for one call, and under `extra` conditions only.
    pub open spec fn of_call(
        self,
        tool: Seq<char>,
        action: Seq<char>,
        extra: Seq<ConditionModel>,
    ) -> FieldModel {
        self.shown_when(
            seq![
                one_of_values("/action/call/tool"@, seq![tool]),
                one_of_values("/action/call/action"@, seq![action]),
            ] + extra,
        )
    }
}

/// The kinds a scalar editor offers.
pub open spec fn all_scalar_kinds() -> Seq<Seq<char>> {
    seq!["null"@, "boolean"@, "integer"@, "string"@]
}

fn ro(value: &str, label: &str) -> (option: DescriptorOption)
    ensures
        option@ == resource_option(value@, label@),
{
    DescriptorOption {
        value: value.to_owned(),
        label_source: LabelSource::Resource,
        label_resource: Some(label.to_owned()),
    }
}

fn wo(value: &str) -> (option: DescriptorOption)
    ensures
        option@ == wire_option(value@),
{
    DescriptorOption {
        value: value.to_owned(),
        label_source: LabelSource::WireName,
        label_resource: None,
    }
}

fn cv1(path: &str, a: &str) -> (condition: VisibilityCondition)
    ensures
        condition@ == one_of_values(path@, seq![a@]),
{
    let condition = VisibilityCondition {
        canonical_path: path.to_owned(),
        values: vec![ScalarValue::String(a.to_owned())],
    };
    assert(condition@.values =~= one_of_values(path@, seq![a@]).values);
    condition
}

fn cv2(path: &str, a: &str, b: &str) -> (condition: VisibilityCondition)
    ensures
        condition@ == one_of_values(path@, seq![a@, b@]),
{
    let condition = VisibilityCondition {
        canonical_path: path.to_owned(),
        values: vec![ScalarValue::String(a.to_owned()), ScalarValue::String(b.to_owned())],
    };
    assert(condition@.values =~= one_of_values(path@, seq![a@, b@]).values);
    condition
}

fn cv3(path: &str, a: &str, b: &str, c: &str) -> (condition: VisibilityCondition)
    ensures
        condition@ == one_of_values(path@, seq![a@, b@, c@]),
{
    let condition = VisibilityCondition {
        canonical_path: path.to_owned(),
        values: vec![
            ScalarValue::String(a.to_owned()),
            ScalarValue::String(b.to_owned()),
            ScalarValue::String(c.to_owned()),
        ],
    };
    assert(condition@.values =~= one_of_values(path@, seq![a@, b@, c@]).values);
    condition
}

fn cv4(path: &str, a: &str, b: &str, c: &str, d: &str) -> (condition: VisibilityCondition)
    ensures
        condition@ == one_of_values(path@, seq![a@, b@, c@, d@]),
{
    let condition = VisibilityCondition {
        canonical_path: path.to_owned(),
        values: vec![
            ScalarValue::String(a.to_owned()),
            ScalarValue::String(b.to_owned()),
            ScalarValue::String(c.to_owned()),
            ScalarValue::String(d.to_owned()),
        ],
    };
    assert(condition@.values =~= one_of_values(path@, seq![a@, b@, c@, d@]).values);
    condition
}

/// A vector of options that grows one option at a time.
fn with_option(options: Vec<DescriptorOption>, option: DescriptorOption) -> (grown: Vec<
    DescriptorOption,
>)
    ensures
        option_models(grown@) == option_models(options@).push(option@),
{
    let mut grown = options;
    let ghost before = option_models(grown@);
    let ghost added = option@;
    grown.push(option);
    assert(option_models(grown@) =~= before.push(added));
    grown
}

fn two_options(a: DescriptorOption, b: DescriptorOption) -> (options: Vec<DescriptorOption>)
    ensures
        option_models(options@) == seq![a@, b@],
{
    let options = vec![a, b];
    assert(option_models(options@) =~= seq![a@, b@]);
    options
}

fn three_options(a: DescriptorOption, b: DescriptorOption, c: DescriptorOption) -> (options: Vec<DescriptorOption>)
    ensures
        option_models(options@) == seq![a@, b@, c@],
{
    let options = vec![a, b, c];
    assert(option_models(options@) =~= seq![a@, b@, c@]);
    options
}

fn four_options(a: DescriptorOption, b: DescriptorOption, c: DescriptorOption, d: DescriptorOption) -> (options: Vec<DescriptorOption>)
    ensures
        option_models(options@) == seq![a@, b@, c@, d@],
{
    let options = vec![a, b, c, d];
    assert(option_models(options@) =~= seq![a@, b@, c@, d@]);
    options
}

fn five_options(a: DescriptorOption, b: DescriptorOption, c: DescriptorOption, d: DescriptorOption, e: DescriptorOption) -> (options: Vec<DescriptorOption>)
    ensures
        option_models(options@) == seq![a@, b@, c@, d@, e@],
{
    let options = vec![a, b, c, d, e];
    assert(option_models(options@) =~= seq![a@, b@, c@, d@, e@]);
    options
}

fn six_options(a: DescriptorOption, b: DescriptorOption, c: DescriptorOption, d: DescriptorOption, e: DescriptorOption, f: DescriptorOption) -> (options: Vec<DescriptorOption>)
    ensures
        option_models(options@) == seq![a@, b@, c@, d@, e@, f@],
{
    let options = vec![a, b, c, d, e, f];
    assert(option_models(options@) =~= seq![a@, b@, c@, d@, e@, f@]);
    options
}

fn no_conditions() -> (conditions: Vec<VisibilityCondition>)
    ensures
        condition_models(conditions@) == Seq::<ConditionModel>::empty(),
{
    let conditions: Vec<VisibilityCondition> = Vec::new();
    assert(condition_models(conditions@) =~= Seq::empty());
    conditions
}

fn one_condition(a: VisibilityCondition) -> (conditions: Vec<VisibilityCondition>)
    ensures
        condition_models(conditions@) == seq![a@],
{
    let conditions = vec![a];
    assert(condition_models(conditions@) =~= seq![a@]);
    conditions
}

fn two_conditions(a: VisibilityCondition, b: VisibilityCondition) -> (conditions: Vec<
    VisibilityCondition,
>)
    ensures
        condition_models(conditions@) == seq![a@, b@],
{
    let conditions = vec![a, b];
    assert(condition_models(conditions@) =~= seq![a@, b@]);
    conditions
}

fn base(
    path: &str,
    order: u32,
    label: Option<&str>,
    control: Control,
    kind: ValueKind,
    required: bool,
) -> (field: FieldDescriptor)
    ensures
        field@ == plain_field(
            path@,
            order,
            match label {
                Some(label) => Some(label@),
                None => None,
            },
            control,
            kind,
            required,
        ),
{
    let (label_source, label_resource) = match label {
        Some(label) => (LabelSource::Resource, Some(label.to_owned())),
        None => (LabelSource::WireName, None),
    };
    FieldDescriptor {
        canonical_path: path.to_owned(),
        order,
        label_source,
        label_resource,
        control,
        sensitive: false,
        validation: "contract".to_owned(),
        value_kind: kind,
        required,
        default: None,
        options: None,
        wrapped_control: None,
        visible_when: None,
        max_rows: None,
        key_max_utf8_bytes: None,
        scalar_kinds: None,
        string_max_utf8_bytes: None,
    }
}

fn resource(
    path: &str,
    order: u32,
    label: &str,
    control: Control,
    kind: ValueKind,
    required: bool,
) -> (field: FieldDescriptor)
    ensures
        field@ == resource_field(path@, order, label@, control, kind, required),
{
    base(path, order, Some(label), control, kind, required)
}

fn wire(path: &str, order: u32, control: Control, kind: ValueKind, required: bool) -> (field:
    FieldDescriptor)
    ensures
        field@ == wire_field(path@, order, control, kind, required),
{
    base(path, order, None, control, kind, required)
}

fn choice(field: FieldDescriptor, options: Vec<DescriptorOption>) -> (changed: FieldDescriptor)
    ensures
        changed@ == field@.choosing(option_models(options@)),
{
    let mut changed = field;
    changed.options = Some(options);
    changed
}

fn default(field: FieldDescriptor, value: ScalarValue) -> (changed: FieldDescriptor)
    ensures
        changed@ == field@.defaulting(value@),
{
    let mut changed = field;
    changed.default = Some(value);
    changed
}

fn visible(field: FieldDescriptor, conditions: Vec<VisibilityCondition>) -> (changed:
    FieldDescriptor)
    ensures
        changed@ == field@.shown_when(condition_models(conditions@)),
{
    let mut changed = field;
    changed.visible_when = Some(conditions);
    changed
}

fn optional(field: FieldDescriptor, wrapped: WrappedControl) -> (changed: FieldDescriptor)
    ensures
        changed@ == field@.optionally(wrapped),
{
    let mut changed = field;
    changed.control = Control::Optional;
    changed.required = false;
    changed.wrapped_control = Some(wrapped);
    changed
}

fn scalar_editor(field: FieldDescriptor) -> (changed: FieldDescriptor)
    ensures
        changed@ == field@.editing_scalars(),
{
    let mut changed = field;
    let kinds = vec![
        "null".to_owned(),
        "boolean".to_owned(),
        "integer".to_owned(),
        "string".to_owned(),
    ];
    assert(texts(kinds@) =~= all_scalar_kinds());
    changed.scalar_kinds = Some(kinds);
    changed.string_max_utf8_bytes = Some(4096);
    changed
}

fn call_conditions(tool: &str, action: &str) -> (conditions: Vec<VisibilityCondition>)
    ensures
        condition_models(conditions@) == seq![
            one_of_values("/action/call/tool"@, seq![tool@]),
            one_of_values("/action/call/action"@, seq![action@]),
        ],
{
    two_conditions(cv1("/action/call/tool", tool), cv1("/action/call/action", action))
}

fn call_visible(
    field: FieldDescriptor,
    tool: &str,
    action: &str,
    extra: Vec<VisibilityCondition>,
) -> (changed: FieldDescriptor)
    ensures
        changed@ == field@.of_call(tool@, action@, condition_models(extra@)),
{
    let mut conditions = call_conditions(tool, action);
    let ghost first = condition_models(conditions@);
    let ghost second = condition_models(extra@);
    let mut rest = extra;
    conditions.append(&mut rest);
    assert(condition_models(conditions@) =~= first + second);
    visible(field, conditions)
}

/// Adds one field to the table.
fn add_field(fields: &mut Vec<FieldDescriptor>, field: FieldDescriptor)
    ensures
        field_models(final(fields)@) == field_models(old(fields)@).push(field@),
{
    let ghost before = field_models(fields@);
    let ghost added = field@;
    fields.push(field);
    assert(field_models(fields@) =~= before.push(added));
}

// ---------------------------------------------------------------------------------------
// The table.
// ---------------------------------------------------------------------------------------

/// The actions of `tool` that an Automation may call, in table order.
pub open spec fn compatible_actions(rows: Seq<ActionSpec>, tool: Seq<char>) -> Seq<Seq<char>>
    decreases rows.len(),
{
    if rows.len() == 0 {
        Seq::empty()
    } else {
        let front = compatible_actions(rows.drop_last(), tool);
        if rows.last().tool@ == tool && rows.last().automation_compatible {
            front.push(rows.last().action@)
        } else {
            front
        }
    }
}

/// One option per value, each labelled by the value itself.
pub open spec fn wire_options(values: Seq<Seq<char>>) -> Seq<OptionModel> {
    Seq::new(values.len(), |i: int| wire_option(values[i]))
}

fn action_options(tool: &str) -> (options: Vec<DescriptorOption>)
    ensures
        option_models(options@) == wire_options(compatible_actions(action_table(), tool@)),
{
    let rows = action_specs();
    let mut options: Vec<DescriptorOption> = Vec::new();
    assert(option_models(options@) =~= wire_options(compatible_actions(rows@.take(0), tool@)));
    for i in 0..rows.len()
        invariant
            rows@ == action_table(),
            option_models(options@) == wire_options(
                compatible_actions(rows@.take(i as int), tool@),
            ),
    {
        assert(rows@.take(i + 1).drop_last() =~= rows@.take(i as int));
        assert(rows@.take(i + 1).last() == rows@[i as int]);
        if same(rows[i].tool, tool) && rows[i].automation_compatible {
            let ghost before = compatible_actions(rows@.take(i as int), tool@);
            options = with_option(options, wo(rows[i].action));
            assert(wire_options(before.push(rows@[i as int].action@)) =~= wire_options(before).push(
                wire_option(rows@[i as int].action@),
            ));
        }
    }
    assert(rows@.take(rows@.len() as int) =~= rows@);
    options
}

fn key_rows(field: FieldDescriptor) -> (changed: FieldDescriptor)
    ensures
        changed@ == field@.with_rows(),
{
    let mut changed = field;
    changed.max_rows = Some(32);
    changed.key_max_utf8_bytes = Some(64);
    changed
}

/// The fields of the name, the switch and the trigger.
pub open spec fn general_fields() -> Seq<FieldModel> {
    seq![
        resource_field("/name"@, 0, "automation_name"@, Control::OutlinedText, ValueKind::String, true),
        resource_field("/enabled"@, 1, "automation_enabled"@, Control::Switch, ValueKind::Boolean, true),
        resource_field("/trigger/type"@, 0, "field_trigger_type"@, Control::SingleChoice, ValueKind::String, true).choosing(seq![resource_option("at"@, "trigger_at"@), resource_option("interval"@, "trigger_interval"@), resource_option("rrule"@, "trigger_rrule"@), resource_option("event"@, "trigger_event"@)]),
        resource_field("/trigger/at"@, 1, "field_trigger_at"@, Control::OutlinedText, ValueKind::String, true).shown_when(seq![one_of_values("/trigger/type"@, seq!["at"@])]),
        resource_field("/trigger/every_ms"@, 1, "field_trigger_every_ms"@, Control::OutlinedText, ValueKind::Integer, true).shown_when(seq![one_of_values("/trigger/type"@, seq!["interval"@])]),
        resource_field("/trigger/rrule"@, 1, "field_trigger_rrule"@, Control::OutlinedText, ValueKind::String, true).shown_when(seq![one_of_values("/trigger/type"@, seq!["rrule"@])]),
        resource_field("/trigger/timezone"@, 2, "field_trigger_timezone"@, Control::OutlinedText, ValueKind::String, true).shown_when(seq![one_of_values("/trigger/type"@, seq!["rrule"@])]),
        resource_field("/trigger/name"@, 1, "field_trigger_event_name"@, Control::OutlinedText, ValueKind::String, true).shown_when(seq![one_of_values("/trigger/type"@, seq!["event"@])]),
        resource_field("/trigger/match"@, 2, "field_trigger_event_match"@, Control::KeyScalarTable, ValueKind::Scalar, false).editing_scalars().with_rows().shown_when(seq![one_of_values("/trigger/type"@, seq!["event"@])]),
    ]
}

fn add_general(fields: &mut Vec<FieldDescriptor>)
    ensures
        field_models(final(fields)@) == field_models(old(fields)@) + general_fields(),
{
    let ghost before = field_models(fields@);
    add_field(fields, resource("/name", 0, "automation_name", Control::OutlinedText, ValueKind::String, true));
    add_field(fields, resource("/enabled", 1, "automation_enabled", Control::Switch, ValueKind::Boolean, true));
    add_field(fields, choice(resource("/trigger/type", 0, "field_trigger_type", Control::SingleChoice, ValueKind::String, true), four_options(ro("at", "trigger_at"), ro("interval", "trigger_interval"), ro("rrule", "trigger_rrule"), ro("event", "trigger_event"))));
    add_field(fields, visible(resource("/trigger/at", 1, "field_trigger_at", Control::OutlinedText, ValueKind::String, true), one_condition(cv1("/trigger/type", "at"))));
    add_field(fields, visible(resource("/trigger/every_ms", 1, "field_trigger_every_ms", Control::OutlinedText, ValueKind::Integer, true), one_condition(cv1("/trigger/type", "interval"))));
    add_field(fields, visible(resource("/trigger/rrule", 1, "field_trigger_rrule", Control::OutlinedText, ValueKind::String, true), one_condition(cv1("/trigger/type", "rrule"))));
    add_field(fields, visible(resource("/trigger/timezone", 2, "field_trigger_timezone", Control::OutlinedText, ValueKind::String, true), one_condition(cv1("/trigger/type", "rrule"))));
    add_field(fields, visible(resource("/trigger/name", 1, "field_trigger_event_name", Control::OutlinedText, ValueKind::String, true), one_condition(cv1("/trigger/type", "event"))));
    add_field(fields, visible(key_rows(scalar_editor(resource("/trigger/match", 2, "field_trigger_event_match", Control::KeyScalarTable, ValueKind::Scalar, false))), one_condition(cv1("/trigger/type", "event"))));
    assert(field_models(fields@) =~= before + general_fields());
}

/// The fields of the kind of an action and the call it makes.
pub open spec fn action_choice_fields() -> Seq<FieldModel> {
    seq![
        resource_field("/action/type"@, 0, "field_action_type"@, Control::SingleChoice, ValueKind::String, true).choosing(seq![resource_option("call"@, "action_node_call"@), resource_option("sequence"@, "action_node_sequence"@), resource_option("conditional"@, "action_node_conditional"@), resource_option("repeat"@, "action_node_repeat"@), resource_option("delay"@, "action_node_delay"@), resource_option("set_state"@, "action_node_set_state"@)]),
        resource_field("/action/call/tool"@, 1, "task_detail_tool"@, Control::SingleChoice, ValueKind::String, true).choosing(seq![wire_option("filesystem"@), wire_option("command"@), wire_option("network"@), wire_option("visual"@), wire_option("android"@)]).shown_when(seq![one_of_values("/action/type"@, seq!["call"@])]),
        resource_field("/action/call/action"@, 2, "task_detail_action"@, Control::SingleChoice, ValueKind::String, true).choosing(wire_options(compatible_actions(action_table(), "filesystem"@))).shown_when(seq![one_of_values("/action/type"@, seq!["call"@]), one_of_values("/action/call/tool"@, seq!["filesystem"@])]),
        resource_field("/action/call/action"@, 2, "task_detail_action"@, Control::SingleChoice, ValueKind::String, true).choosing(wire_options(compatible_actions(action_table(), "command"@))).shown_when(seq![one_of_values("/action/type"@, seq!["call"@]), one_of_values("/action/call/tool"@, seq!["command"@])]),
        resource_field("/action/call/action"@, 2, "task_detail_action"@, Control::SingleChoice, ValueKind::String, true).choosing(wire_options(compatible_actions(action_table(), "network"@))).shown_when(seq![one_of_values("/action/type"@, seq!["call"@]), one_of_values("/action/call/tool"@, seq!["network"@])]),
        resource_field("/action/call/action"@, 2, "task_detail_action"@, Control::SingleChoice, ValueKind::String, true).choosing(wire_options(compatible_actions(action_table(), "visual"@))).shown_when(seq![one_of_values("/action/type"@, seq!["call"@]), one_of_values("/action/call/tool"@, seq!["visual"@])]),
        resource_field("/action/call/action"@, 2, "task_detail_action"@, Control::SingleChoice, ValueKind::String, true).choosing(wire_options(compatible_actions(action_table(), "android"@))).shown_when(seq![one_of_values("/action/type"@, seq!["call"@]), one_of_values("/action/call/tool"@, seq!["android"@])]),
    ]
}

fn add_action_choice(fields: &mut Vec<FieldDescriptor>)
    ensures
        field_models(final(fields)@) == field_models(old(fields)@) + action_choice_fields(),
{
    let ghost before = field_models(fields@);
    add_field(fields, choice(resource("/action/type", 0, "field_action_type", Control::SingleChoice, ValueKind::String, true), six_options(ro("call", "action_node_call"), ro("sequence", "action_node_sequence"), ro("conditional", "action_node_conditional"), ro("repeat", "action_node_repeat"), ro("delay", "action_node_delay"), ro("set_state", "action_node_set_state"))));
    add_field(fields, visible(choice(resource("/action/call/tool", 1, "task_detail_tool", Control::SingleChoice, ValueKind::String, true), five_options(wo("filesystem"), wo("command"), wo("network"), wo("visual"), wo("android"))), one_condition(cv1("/action/type", "call"))));
    add_field(fields, visible(choice(resource("/action/call/action", 2, "task_detail_action", Control::SingleChoice, ValueKind::String, true), action_options("filesystem")), two_conditions(cv1("/action/type", "call"), cv1("/action/call/tool", "filesystem"))));
    add_field(fields, visible(choice(resource("/action/call/action", 2, "task_detail_action", Control::SingleChoice, ValueKind::String, true), action_options("command")), two_conditions(cv1("/action/type", "call"), cv1("/action/call/tool", "command"))));
    add_field(fields, visible(choice(resource("/action/call/action", 2, "task_detail_action", Control::SingleChoice, ValueKind::String, true), action_options("network")), two_conditions(cv1("/action/type", "call"), cv1("/action/call/tool", "network"))));
    add_field(fields, visible(choice(resource("/action/call/action", 2, "task_detail_action", Control::SingleChoice, ValueKind::String, true), action_options("visual")), two_conditions(cv1("/action/type", "call"), cv1("/action/call/tool", "visual"))));
    add_field(fields, visible(choice(resource("/action/call/action", 2, "task_detail_action", Control::SingleChoice, ValueKind::String, true), action_options("android")), two_conditions(cv1("/action/type", "call"), cv1("/action/call/tool", "android"))));
    assert(field_models(fields@) =~= before + action_choice_fields());
}

/// The fields of the conditional, repeat, delay and state nodes.
pub open spec fn action_node_fields() -> Seq<FieldModel> {
    seq![
        resource_field("/action/conditional/condition/source"@, 1, "field_condition_source"@, Control::SingleChoice, ValueKind::String, true).choosing(seq![wire_option("state"@), wire_option("trigger"@)]).shown_when(seq![one_of_values("/action/type"@, seq!["conditional"@])]),
        resource_field("/action/conditional/condition/key"@, 2, "field_condition_key"@, Control::OutlinedText, ValueKind::String, true).shown_when(seq![one_of_values("/action/type"@, seq!["conditional"@])]),
        resource_field("/action/conditional/condition/operator"@, 3, "field_condition_operator"@, Control::SingleChoice, ValueKind::String, true).choosing(seq![wire_option("equals"@), wire_option("not_equals"@), wire_option("greater_than"@), wire_option("less_than"@), wire_option("exists"@)]).shown_when(seq![one_of_values("/action/type"@, seq!["conditional"@])]),
        resource_field("/action/conditional/condition/value"@, 4, "field_condition_value"@, Control::ScalarEditor, ValueKind::Scalar, true).editing_scalars().shown_when(seq![one_of_values("/action/type"@, seq!["conditional"@]), one_of_values("/action/conditional/condition/operator"@, seq!["equals"@, "not_equals"@, "greater_than"@, "less_than"@])]),
        resource_field("/action/repeat/count"@, 1, "field_repeat_count"@, Control::OutlinedText, ValueKind::Integer, true).shown_when(seq![one_of_values("/action/type"@, seq!["repeat"@])]),
        resource_field("/action/repeat/delay_ms"@, 2, "field_repeat_delay_ms"@, Control::OutlinedText, ValueKind::Integer, false).defaulting(ScalarModel::Integer(0)).shown_when(seq![one_of_values("/action/type"@, seq!["repeat"@])]),
        resource_field("/action/delay/duration_ms"@, 1, "field_delay_duration_ms"@, Control::OutlinedText, ValueKind::Integer, true).shown_when(seq![one_of_values("/action/type"@, seq!["delay"@])]),
        resource_field("/action/set_state/key"@, 1, "field_state_key"@, Control::OutlinedText, ValueKind::String, true).shown_when(seq![one_of_values("/action/type"@, seq!["set_state"@])]),
        resource_field("/action/set_state/value"@, 2, "field_state_value"@, Control::ScalarEditor, ValueKind::Scalar, true).editing_scalars().shown_when(seq![one_of_values("/action/type"@, seq!["set_state"@])]),
    ]
}

fn add_action_node(fields: &mut Vec<FieldDescriptor>)
    ensures
        field_models(final(fields)@) == field_models(old(fields)@) + action_node_fields(),
{
    let ghost before = field_models(fields@);
    add_field(fields, visible(choice(resource("/action/conditional/condition/source", 1, "field_condition_source", Control::SingleChoice, ValueKind::String, true), two_options(wo("state"), wo("trigger"))), one_condition(cv1("/action/type", "conditional"))));
    add_field(fields, visible(resource("/action/conditional/condition/key", 2, "field_condition_key", Control::OutlinedText, ValueKind::String, true), one_condition(cv1("/action/type", "conditional"))));
    add_field(fields, visible(choice(resource("/action/conditional/condition/operator", 3, "field_condition_operator", Control::SingleChoice, ValueKind::String, true), five_options(wo("equals"), wo("not_equals"), wo("greater_than"), wo("less_than"), wo("exists"))), one_condition(cv1("/action/type", "conditional"))));
    add_field(fields, visible(scalar_editor(resource("/action/conditional/condition/value", 4, "field_condition_value", Control::ScalarEditor, ValueKind::Scalar, true)), two_conditions(cv1("/action/type", "conditional"), cv4("/action/conditional/condition/operator", "equals", "not_equals", "greater_than", "less_than"))));
    add_field(fields, visible(resource("/action/repeat/count", 1, "field_repeat_count", Control::OutlinedText, ValueKind::Integer, true), one_condition(cv1("/action/type", "repeat"))));
    add_field(fields, visible(default(resource("/action/repeat/delay_ms", 2, "field_repeat_delay_ms", Control::OutlinedText, ValueKind::Integer, false), ScalarValue::Integer(0)), one_condition(cv1("/action/type", "repeat"))));
    add_field(fields, visible(resource("/action/delay/duration_ms", 1, "field_delay_duration_ms", Control::OutlinedText, ValueKind::Integer, true), one_condition(cv1("/action/type", "delay"))));
    add_field(fields, visible(resource("/action/set_state/key", 1, "field_state_key", Control::OutlinedText, ValueKind::String, true), one_condition(cv1("/action/type", "set_state"))));
    add_field(fields, visible(scalar_editor(resource("/action/set_state/value", 2, "field_state_value", Control::ScalarEditor, ValueKind::Scalar, true)), one_condition(cv1("/action/type", "set_state"))));
    assert(field_models(fields@) =~= before + action_node_fields());
}

/// The fields of the filesystem calls.
pub open spec fn filesystem_fields() -> Seq<FieldModel> {
    seq![
        wire_field("/action/call/args/filesystem/manage/"@ + "operation"@, 0, Control::SingleChoice, ValueKind::String, true).choosing(seq![wire_option("mkdir"@), wire_option("copy"@), wire_option("move"@), wire_option("delete"@)]).of_call("filesystem"@, "manage"@, Seq::<ConditionModel>::empty()),
        wire_field("/action/call/args/filesystem/manage/"@ + "target/type"@, 0, Control::SingleChoice, ValueKind::String, true).choosing(seq![wire_option("path"@), wire_option("content_uri"@)]).of_call("filesystem"@, "manage"@, seq![one_of_values("/action/call/args/filesystem/manage/"@ + "operation"@, seq!["mkdir"@, "delete"@])]),
        wire_field("/action/call/args/filesystem/manage/"@ + "target/value"@, 1, Control::OutlinedText, ValueKind::String, true).of_call("filesystem"@, "manage"@, seq![one_of_values("/action/call/args/filesystem/manage/"@ + "operation"@, seq!["mkdir"@, "delete"@])]),
        wire_field("/action/call/args/filesystem/manage/"@ + "source/type"@, 0, Control::SingleChoice, ValueKind::String, true).choosing(seq![wire_option("path"@), wire_option("content_uri"@)]).of_call("filesystem"@, "manage"@, seq![one_of_values("/action/call/args/filesystem/manage/"@ + "operation"@, seq!["copy"@, "move"@])]),
        wire_field("/action/call/args/filesystem/manage/"@ + "source/value"@, 1, Control::OutlinedText, ValueKind::String, true).of_call("filesystem"@, "manage"@, seq![one_of_values("/action/call/args/filesystem/manage/"@ + "operation"@, seq!["copy"@, "move"@])]),
        wire_field("/action/call/args/filesystem/manage/"@ + "destination/type"@, 0, Control::SingleChoice, ValueKind::String, true).choosing(seq![wire_option("path"@), wire_option("content_uri"@)]).of_call("filesystem"@, "manage"@, seq![one_of_values("/action/call/args/filesystem/manage/"@ + "operation"@, seq!["copy"@, "move"@])]),
        wire_field("/action/call/args/filesystem/manage/"@ + "destination/value"@, 1, Control::OutlinedText, ValueKind::String, true).of_call("filesystem"@, "manage"@, seq![one_of_values("/action/call/args/filesystem/manage/"@ + "operation"@, seq!["copy"@, "move"@])]),
        wire_field("/action/call/args/filesystem/manage/"@ + "parents"@, 2, Control::Switch, ValueKind::Boolean, false).defaulting(ScalarModel::Boolean(false)).of_call("filesystem"@, "manage"@, seq![one_of_values("/action/call/args/filesystem/manage/"@ + "operation"@, seq!["mkdir"@])]),
        wire_field("/action/call/args/filesystem/manage/"@ + "recursive"@, 2, Control::Switch, ValueKind::Boolean, false).defaulting(ScalarModel::Boolean(false)).of_call("filesystem"@, "manage"@, seq![one_of_values("/action/call/args/filesystem/manage/"@ + "operation"@, seq!["copy"@, "move"@, "delete"@])]),
        wire_field("/action/call/args/filesystem/manage/"@ + "overwrite"@, 3, Control::Switch, ValueKind::Boolean, false).defaulting(ScalarModel::Boolean(false)).of_call("filesystem"@, "manage"@, seq![one_of_values("/action/call/args/filesystem/manage/"@ + "operation"@, seq!["copy"@, "move"@])]),
        wire_field("/action/call/args/filesystem/download/"@ + "url"@, 0, Control::OutlinedText, ValueKind::String, true).of_call("filesystem"@, "download"@, Seq::<ConditionModel>::empty()),
        wire_field("/action/call/args/filesystem/download/"@ + "destination/type"@, 1, Control::SingleChoice, ValueKind::String, true).choosing(seq![wire_option("path"@), wire_option("content_uri"@)]).of_call("filesystem"@, "download"@, Seq::<ConditionModel>::empty()),
        wire_field("/action/call/args/filesystem/download/"@ + "destination/value"@, 2, Control::OutlinedText, ValueKind::String, true).of_call("filesystem"@, "download"@, Seq::<ConditionModel>::empty()),
        wire_field("/action/call/args/filesystem/download/"@ + "overwrite"@, 3, Control::Switch, ValueKind::Boolean, false).defaulting(ScalarModel::Boolean(false)).of_call("filesystem"@, "download"@, Seq::<ConditionModel>::empty()),
        wire_field("/action/call/args/filesystem/download/"@ + "timeout_ms"@, 4, Control::OutlinedText, ValueKind::Integer, false).defaulting(ScalarModel::Integer(120000)).of_call("filesystem"@, "download"@, Seq::<ConditionModel>::empty()),
    ]
}

fn add_filesystem(fields: &mut Vec<FieldDescriptor>)
    ensures
        field_models(final(fields)@) == field_models(old(fields)@) + filesystem_fields(),
{
    let ghost before = field_models(fields@);
    add_field(fields, call_visible(choice(wire(joined("/action/call/args/filesystem/manage/", "operation").as_str(), 0, Control::SingleChoice, ValueKind::String, true), four_options(wo("mkdir"), wo("copy"), wo("move"), wo("delete"))), "filesystem", "manage", no_conditions()));
    add_field(fields, call_visible(choice(wire(joined("/action/call/args/filesystem/manage/", "target/type").as_str(), 0, Control::SingleChoice, ValueKind::String, true), two_options(wo("path"), wo("content_uri"))), "filesystem", "manage", one_condition(cv2(joined("/action/call/args/filesystem/manage/", "operation").as_str(), "mkdir", "delete"))));
    add_field(fields, call_visible(wire(joined("/action/call/args/filesystem/manage/", "target/value").as_str(), 1, Control::OutlinedText, ValueKind::String, true), "filesystem", "manage", one_condition(cv2(joined("/action/call/args/filesystem/manage/", "operation").as_str(), "mkdir", "delete"))));
    add_field(fields, call_visible(choice(wire(joined("/action/call/args/filesystem/manage/", "source/type").as_str(), 0, Control::SingleChoice, ValueKind::String, true), two_options(wo("path"), wo("content_uri"))), "filesystem", "manage", one_condition(cv2(joined("/action/call/args/filesystem/manage/", "operation").as_str(), "copy", "move"))));
    add_field(fields, call_visible(wire(joined("/action/call/args/filesystem/manage/", "source/value").as_str(), 1, Control::OutlinedText, ValueKind::String, true), "filesystem", "manage", one_condition(cv2(joined("/action/call/args/filesystem/manage/", "operation").as_str(), "copy", "move"))));
    add_field(fields, call_visible(choice(wire(joined("/action/call/args/filesystem/manage/", "destination/type").as_str(), 0, Control::SingleChoice, ValueKind::String, true), two_options(wo("path"), wo("content_uri"))), "filesystem", "manage", one_condition(cv2(joined("/action/call/args/filesystem/manage/", "operation").as_str(), "copy", "move"))));
    add_field(fields, call_visible(wire(joined("/action/call/args/filesystem/manage/", "destination/value").as_str(), 1, Control::OutlinedText, ValueKind::String, true), "filesystem", "manage", one_condition(cv2(joined("/action/call/args/filesystem/manage/", "operation").as_str(), "copy", "move"))));
    add_field(fields, call_visible(default(wire(joined("/action/call/args/filesystem/manage/", "parents").as_str(), 2, Control::Switch, ValueKind::Boolean, false), ScalarValue::Boolean(false)), "filesystem", "manage", one_condition(cv1(joined("/action/call/args/filesystem/manage/", "operation").as_str(), "mkdir"))));
    add_field(fields, call_visible(default(wire(joined("/action/call/args/filesystem/manage/", "recursive").as_str(), 2, Control::Switch, ValueKind::Boolean, false), ScalarValue::Boolean(false)), "filesystem", "manage", one_condition(cv3(joined("/action/call/args/filesystem/manage/", "operation").as_str(), "copy", "move", "delete"))));
    add_field(fields, call_visible(default(wire(joined("/action/call/args/filesystem/manage/", "overwrite").as_str(), 3, Control::Switch, ValueKind::Boolean, false), ScalarValue::Boolean(false)), "filesystem", "manage", one_condition(cv2(joined("/action/call/args/filesystem/manage/", "operation").as_str(), "copy", "move"))));
    add_field(fields, call_visible(wire(joined("/action/call/args/filesystem/download/", "url").as_str(), 0, Control::OutlinedText, ValueKind::String, true), "filesystem", "download", no_conditions()));
    add_field(fields, call_visible(choice(wire(joined("/action/call/args/filesystem/download/", "destination/type").as_str(), 1, Control::SingleChoice, ValueKind::String, true), two_options(wo("path"), wo("content_uri"))), "filesystem", "download", no_conditions()));
    add_field(fields, call_visible(wire(joined("/action/call/args/filesystem/download/", "destination/value").as_str(), 2, Control::OutlinedText, ValueKind::String, true), "filesystem", "download", no_conditions()));
    add_field(fields, call_visible(default(wire(joined("/action/call/args/filesystem/download/", "overwrite").as_str(), 3, Control::Switch, ValueKind::Boolean, false), ScalarValue::Boolean(false)), "filesystem", "download", no_conditions()));
    add_field(fields, call_visible(default(wire(joined("/action/call/args/filesystem/download/", "timeout_ms").as_str(), 4, Control::OutlinedText, ValueKind::Integer, false), ScalarValue::Integer(120000)), "filesystem", "download", no_conditions()));
    assert(field_models(fields@) =~= before + filesystem_fields());
}

/// The fields of the command call.
pub open spec fn command_fields() -> Seq<FieldModel> {
    seq![
        wire_field("/action/call/args/command/run/"@ + "command"@, 0, Control::OutlinedText, ValueKind::String, true).of_call("command"@, "run"@, Seq::<ConditionModel>::empty()),
        wire_field("/action/call/args/command/run/"@ + "run_as"@, 1, Control::SingleChoice, ValueKind::String, true).choosing(seq![wire_option("app"@), wire_option("shell"@), wire_option("root"@)]).of_call("command"@, "run"@, Seq::<ConditionModel>::empty()),
        wire_field("/action/call/args/command/run/"@ + "cwd"@, 2, Control::OutlinedText, ValueKind::String, false).optionally(WrappedControl::OutlinedText).of_call("command"@, "run"@, Seq::<ConditionModel>::empty()),
        wire_field("/action/call/args/command/run/"@ + "stdin"@, 3, Control::OutlinedText, ValueKind::String, false).optionally(WrappedControl::OutlinedText).of_call("command"@, "run"@, Seq::<ConditionModel>::empty()),
        wire_field("/action/call/args/command/run/"@ + "timeout_ms"@, 4, Control::OutlinedText, ValueKind::Integer, false).defaulting(ScalarModel::Integer(30000)).of_call("command"@, "run"@, Seq::<ConditionModel>::empty()),
        wire_field("/action/call/args/command/run/"@ + "max_output_bytes"@, 5, Control::OutlinedText, ValueKind::Integer, false).defaulting(ScalarModel::Integer(65536)).of_call("command"@, "run"@, Seq::<ConditionModel>::empty()),
        wire_field("/action/call/args/command/run/"@ + "as_task"@, 6, Control::Switch, ValueKind::Boolean, false).defaulting(ScalarModel::Boolean(false)).of_call("command"@, "run"@, Seq::<ConditionModel>::empty()),
    ]
}

fn add_command(fields: &mut Vec<FieldDescriptor>)
    ensures
        field_models(final(fields)@) == field_models(old(fields)@) + command_fields(),
{
    let ghost before = field_models(fields@);
    add_field(fields, call_visible(wire(joined("/action/call/args/command/run/", "command").as_str(), 0, Control::OutlinedText, ValueKind::String, true), "command", "run", no_conditions()));
    add_field(fields, call_visible(choice(wire(joined("/action/call/args/command/run/", "run_as").as_str(), 1, Control::SingleChoice, ValueKind::String, true), three_options(wo("app"), wo("shell"), wo("root"))), "command", "run", no_conditions()));
    add_field(fields, call_visible(optional(wire(joined("/action/call/args/command/run/", "cwd").as_str(), 2, Control::OutlinedText, ValueKind::String, false), WrappedControl::OutlinedText), "command", "run", no_conditions()));
    add_field(fields, call_visible(optional(wire(joined("/action/call/args/command/run/", "stdin").as_str(), 3, Control::OutlinedText, ValueKind::String, false), WrappedControl::OutlinedText), "command", "run", no_conditions()));
    add_field(fields, call_visible(default(wire(joined("/action/call/args/command/run/", "timeout_ms").as_str(), 4, Control::OutlinedText, ValueKind::Integer, false), ScalarValue::Integer(30000)), "command", "run", no_conditions()));
    add_field(fields, call_visible(default(wire(joined("/action/call/args/command/run/", "max_output_bytes").as_str(), 5, Control::OutlinedText, ValueKind::Integer, false), ScalarValue::Integer(65536)), "command", "run", no_conditions()));
    add_field(fields, call_visible(default(wire(joined("/action/call/args/command/run/", "as_task").as_str(), 6, Control::Switch, ValueKind::Boolean, false), ScalarValue::Boolean(false)), "command", "run", no_conditions()));
    assert(field_models(fields@) =~= before + command_fields());
}

/// The fields of the network call.
pub open spec fn network_fields() -> Seq<FieldModel> {
    seq![
        wire_field("/action/call/args/network/diagnose/"@ + "test"@, 0, Control::SingleChoice, ValueKind::String, true).choosing(seq![wire_option("connectivity"@), wire_option("dns"@), wire_option("tcp"@), wire_option("tls"@), wire_option("route"@)]).of_call("network"@, "diagnose"@, Seq::<ConditionModel>::empty()),
        wire_field("/action/call/args/network/diagnose/"@ + "name"@, 1, Control::OutlinedText, ValueKind::String, true).of_call("network"@, "diagnose"@, seq![one_of_values("/action/call/args/network/diagnose/"@ + "test"@, seq!["dns"@])]),
        wire_field("/action/call/args/network/diagnose/"@ + "record_type"@, 2, Control::SingleChoice, ValueKind::String, false).choosing(seq![wire_option("A"@), wire_option("AAAA"@)]).defaulting(ScalarModel::Text("A"@)).of_call("network"@, "diagnose"@, seq![one_of_values("/action/call/args/network/diagnose/"@ + "test"@, seq!["dns"@])]),
        wire_field("/action/call/args/network/diagnose/"@ + "host"@, 1, Control::OutlinedText, ValueKind::String, true).of_call("network"@, "diagnose"@, seq![one_of_values("/action/call/args/network/diagnose/"@ + "test"@, seq!["tcp"@, "tls"@])]),
        wire_field("/action/call/args/network/diagnose/"@ + "port"@, 2, Control::OutlinedText, ValueKind::Integer, true).of_call("network"@, "diagnose"@, seq![one_of_values("/action/call/args/network/diagnose/"@ + "test"@, seq!["tcp"@])]),
        wire_field("/action/call/args/network/diagnose/"@ + "port"@, 2, Control::OutlinedText, ValueKind::Integer, false).defaulting(ScalarModel::Integer(443)).of_call("network"@, "diagnose"@, seq![one_of_values("/action/call/args/network/diagnose/"@ + "test"@, seq!["tls"@])]),
        wire_field("/action/call/args/network/diagnose/"@ + "server_name"@, 3, Control::OutlinedText, ValueKind::String, false).optionally(WrappedControl::OutlinedText).of_call("network"@, "diagnose"@, seq![one_of_values("/action/call/args/network/diagnose/"@ + "test"@, seq!["tls"@])]),
        wire_field("/action/call/args/network/diagnose/"@ + "timeout_ms"@, 3, Control::OutlinedText, ValueKind::Integer, false).defaulting(ScalarModel::Integer(5000)).of_call("network"@, "diagnose"@, seq![one_of_values("/action/call/args/network/diagnose/"@ + "test"@, seq!["tcp"@])]),
        wire_field("/action/call/args/network/diagnose/"@ + "timeout_ms"@, 4, Control::OutlinedText, ValueKind::Integer, false).defaulting(ScalarModel::Integer(5000)).of_call("network"@, "diagnose"@, seq![one_of_values("/action/call/args/network/diagnose/"@ + "test"@, seq!["tls"@])]),
        wire_field("/action/call/args/network/diagnose/"@ + "destination_ip"@, 1, Control::OutlinedText, ValueKind::String, true).of_call("network"@, "diagnose"@, seq![one_of_values("/action/call/args/network/diagnose/"@ + "test"@, seq!["route"@])]),
    ]
}

fn add_network(fields: &mut Vec<FieldDescriptor>)
    ensures
        field_models(final(fields)@) == field_models(old(fields)@) + network_fields(),
{
    let ghost before = field_models(fields@);
    add_field(fields, call_visible(choice(wire(joined("/action/call/args/network/diagnose/", "test").as_str(), 0, Control::SingleChoice, ValueKind::String, true), five_options(wo("connectivity"), wo("dns"), wo("tcp"), wo("tls"), wo("route"))), "network", "diagnose", no_conditions()));
    add_field(fields, call_visible(wire(joined("/action/call/args/network/diagnose/", "name").as_str(), 1, Control::OutlinedText, ValueKind::String, true), "network", "diagnose", one_condition(cv1(joined("/action/call/args/network/diagnose/", "test").as_str(), "dns"))));
    add_field(fields, call_visible(default(choice(wire(joined("/action/call/args/network/diagnose/", "record_type").as_str(), 2, Control::SingleChoice, ValueKind::String, false), two_options(wo("A"), wo("AAAA"))), ScalarValue::String("A".to_owned())), "network", "diagnose", one_condition(cv1(joined("/action/call/args/network/diagnose/", "test").as_str(), "dns"))));
    add_field(fields, call_visible(wire(joined("/action/call/args/network/diagnose/", "host").as_str(), 1, Control::OutlinedText, ValueKind::String, true), "network", "diagnose", one_condition(cv2(joined("/action/call/args/network/diagnose/", "test").as_str(), "tcp", "tls"))));
    add_field(fields, call_visible(wire(joined("/action/call/args/network/diagnose/", "port").as_str(), 2, Control::OutlinedText, ValueKind::Integer, true), "network", "diagnose", one_condition(cv1(joined("/action/call/args/network/diagnose/", "test").as_str(), "tcp"))));
    add_field(fields, call_visible(default(wire(joined("/action/call/args/network/diagnose/", "port").as_str(), 2, Control::OutlinedText, ValueKind::Integer, false), ScalarValue::Integer(443)), "network", "diagnose", one_condition(cv1(joined("/action/call/args/network/diagnose/", "test").as_str(), "tls"))));
    add_field(fields, call_visible(optional(wire(joined("/action/call/args/network/diagnose/", "server_name").as_str(), 3, Control::OutlinedText, ValueKind::String, false), WrappedControl::OutlinedText), "network", "diagnose", one_condition(cv1(joined("/action/call/args/network/diagnose/", "test").as_str(), "tls"))));
    add_field(fields, call_visible(default(wire(joined("/action/call/args/network/diagnose/", "timeout_ms").as_str(), 3, Control::OutlinedText, ValueKind::Integer, false), ScalarValue::Integer(5000)), "network", "diagnose", one_condition(cv1(joined("/action/call/args/network/diagnose/", "test").as_str(), "tcp"))));
    add_field(fields, call_visible(default(wire(joined("/action/call/args/network/diagnose/", "timeout_ms").as_str(), 4, Control::OutlinedText, ValueKind::Integer, false), ScalarValue::Integer(5000)), "network", "diagnose", one_condition(cv1(joined("/action/call/args/network/diagnose/", "test").as_str(), "tls"))));
    add_field(fields, call_visible(wire(joined("/action/call/args/network/diagnose/", "destination_ip").as_str(), 1, Control::OutlinedText, ValueKind::String, true), "network", "diagnose", one_condition(cv1(joined("/action/call/args/network/diagnose/", "test").as_str(), "route"))));
    assert(field_models(fields@) =~= before + network_fields());
}

/// The fields of the visual call.
pub open spec fn visual_fields() -> Seq<FieldModel> {
    seq![
        wire_field("/action/call/args/visual/interact/"@ + "operation"@, 0, Control::SingleChoice, ValueKind::String, true).choosing(seq![wire_option("tap"@), wire_option("long_press"@), wire_option("swipe"@), wire_option("text"@), wire_option("key"@)]).of_call("visual"@, "interact"@, Seq::<ConditionModel>::empty()),
        wire_field("/action/call/args/visual/interact/"@ + "target"@, 1, Control::SingleChoice, ValueKind::String, true).choosing(seq![wire_option("node"@), wire_option("coordinate"@)]).of_call("visual"@, "interact"@, seq![one_of_values("/action/call/args/visual/interact/"@ + "operation"@, seq!["tap"@, "long_press"@])]),
        wire_field("/action/call/args/visual/interact/"@ + "node_ref"@, 2, Control::OutlinedText, ValueKind::String, true).of_call("visual"@, "interact"@, seq![one_of_values("/action/call/args/visual/interact/"@ + "operation"@, seq!["tap"@, "long_press"@]), one_of_values("/action/call/args/visual/interact/"@ + "target"@, seq!["node"@])]),
        wire_field("/action/call/args/visual/interact/"@ + "observation_id"@, 2, Control::OutlinedText, ValueKind::String, true).of_call("visual"@, "interact"@, seq![one_of_values("/action/call/args/visual/interact/"@ + "operation"@, seq!["tap"@, "long_press"@]), one_of_values("/action/call/args/visual/interact/"@ + "target"@, seq!["coordinate"@])]),
        wire_field("/action/call/args/visual/interact/"@ + "x"@, 3, Control::OutlinedText, ValueKind::Integer, true).of_call("visual"@, "interact"@, seq![one_of_values("/action/call/args/visual/interact/"@ + "operation"@, seq!["tap"@, "long_press"@]), one_of_values("/action/call/args/visual/interact/"@ + "target"@, seq!["coordinate"@])]),
        wire_field("/action/call/args/visual/interact/"@ + "y"@, 4, Control::OutlinedText, ValueKind::Integer, true).of_call("visual"@, "interact"@, seq![one_of_values("/action/call/args/visual/interact/"@ + "operation"@, seq!["tap"@, "long_press"@]), one_of_values("/action/call/args/visual/interact/"@ + "target"@, seq!["coordinate"@])]),
        wire_field("/action/call/args/visual/interact/"@ + "observation_id"@, 1, Control::OutlinedText, ValueKind::String, true).of_call("visual"@, "interact"@, seq![one_of_values("/action/call/args/visual/interact/"@ + "operation"@, seq!["swipe"@])]),
        wire_field("/action/call/args/visual/interact/"@ + "from_x"@, 2, Control::OutlinedText, ValueKind::Integer, true).of_call("visual"@, "interact"@, seq![one_of_values("/action/call/args/visual/interact/"@ + "operation"@, seq!["swipe"@])]),
        wire_field("/action/call/args/visual/interact/"@ + "from_y"@, 3, Control::OutlinedText, ValueKind::Integer, true).of_call("visual"@, "interact"@, seq![one_of_values("/action/call/args/visual/interact/"@ + "operation"@, seq!["swipe"@])]),
        wire_field("/action/call/args/visual/interact/"@ + "to_x"@, 4, Control::OutlinedText, ValueKind::Integer, true).of_call("visual"@, "interact"@, seq![one_of_values("/action/call/args/visual/interact/"@ + "operation"@, seq!["swipe"@])]),
        wire_field("/action/call/args/visual/interact/"@ + "to_y"@, 5, Control::OutlinedText, ValueKind::Integer, true).of_call("visual"@, "interact"@, seq![one_of_values("/action/call/args/visual/interact/"@ + "operation"@, seq!["swipe"@])]),
        wire_field("/action/call/args/visual/interact/"@ + "duration_ms"@, 6, Control::OutlinedText, ValueKind::Integer, false).defaulting(ScalarModel::Integer(300)).of_call("visual"@, "interact"@, seq![one_of_values("/action/call/args/visual/interact/"@ + "operation"@, seq!["swipe"@])]),
        wire_field("/action/call/args/visual/interact/"@ + "text"@, 1, Control::OutlinedText, ValueKind::String, true).of_call("visual"@, "interact"@, seq![one_of_values("/action/call/args/visual/interact/"@ + "operation"@, seq!["text"@])]),
        wire_field("/action/call/args/visual/interact/"@ + "node_ref"@, 2, Control::OutlinedText, ValueKind::String, false).optionally(WrappedControl::OutlinedText).of_call("visual"@, "interact"@, seq![one_of_values("/action/call/args/visual/interact/"@ + "operation"@, seq!["text"@])]),
        wire_field("/action/call/args/visual/interact/"@ + "key_code"@, 1, Control::OutlinedText, ValueKind::Integer, true).of_call("visual"@, "interact"@, seq![one_of_values("/action/call/args/visual/interact/"@ + "operation"@, seq!["key"@])]),
        wire_field("/action/call/args/visual/interact/"@ + "meta_state"@, 2, Control::OutlinedText, ValueKind::Integer, false).defaulting(ScalarModel::Integer(0)).of_call("visual"@, "interact"@, seq![one_of_values("/action/call/args/visual/interact/"@ + "operation"@, seq!["key"@])]),
    ]
}

fn add_visual(fields: &mut Vec<FieldDescriptor>)
    ensures
        field_models(final(fields)@) == field_models(old(fields)@) + visual_fields(),
{
    let ghost before = field_models(fields@);
    add_field(fields, call_visible(choice(wire(joined("/action/call/args/visual/interact/", "operation").as_str(), 0, Control::SingleChoice, ValueKind::String, true), five_options(wo("tap"), wo("long_press"), wo("swipe"), wo("text"), wo("key"))), "visual", "interact", no_conditions()));
    add_field(fields, call_visible(choice(wire(joined("/action/call/args/visual/interact/", "target").as_str(), 1, Control::SingleChoice, ValueKind::String, true), two_options(wo("node"), wo("coordinate"))), "visual", "interact", one_condition(cv2(joined("/action/call/args/visual/interact/", "operation").as_str(), "tap", "long_press"))));
    add_field(fields, call_visible(wire(joined("/action/call/args/visual/interact/", "node_ref").as_str(), 2, Control::OutlinedText, ValueKind::String, true), "visual", "interact", two_conditions(cv2(joined("/action/call/args/visual/interact/", "operation").as_str(), "tap", "long_press"), cv1(joined("/action/call/args/visual/interact/", "target").as_str(), "node"))));
    add_field(fields, call_visible(wire(joined("/action/call/args/visual/interact/", "observation_id").as_str(), 2, Control::OutlinedText, ValueKind::String, true), "visual", "interact", two_conditions(cv2(joined("/action/call/args/visual/interact/", "operation").as_str(), "tap", "long_press"), cv1(joined("/action/call/args/visual/interact/", "target").as_str(), "coordinate"))));
    add_field(fields, call_visible(wire(joined("/action/call/args/visual/interact/", "x").as_str(), 3, Control::OutlinedText, ValueKind::Integer, true), "visual", "interact", two_conditions(cv2(joined("/action/call/args/visual/interact/", "operation").as_str(), "tap", "long_press"), cv1(joined("/action/call/args/visual/interact/", "target").as_str(), "coordinate"))));
    add_field(fields, call_visible(wire(joined("/action/call/args/visual/interact/", "y").as_str(), 4, Control::OutlinedText, ValueKind::Integer, true), "visual", "interact", two_conditions(cv2(joined("/action/call/args/visual/interact/", "operation").as_str(), "tap", "long_press"), cv1(joined("/action/call/args/visual/interact/", "target").as_str(), "coordinate"))));
    add_field(fields, call_visible(wire(joined("/action/call/args/visual/interact/", "observation_id").as_str(), 1, Control::OutlinedText, ValueKind::String, true), "visual", "interact", one_condition(cv1(joined("/action/call/args/visual/interact/", "operation").as_str(), "swipe"))));
    add_field(fields, call_visible(wire(joined("/action/call/args/visual/interact/", "from_x").as_str(), 2, Control::OutlinedText, ValueKind::Integer, true), "visual", "interact", one_condition(cv1(joined("/action/call/args/visual/interact/", "operation").as_str(), "swipe"))));
    add_field(fields, call_visible(wire(joined("/action/call/args/visual/interact/", "from_y").as_str(), 3, Control::OutlinedText, ValueKind::Integer, true), "visual", "interact", one_condition(cv1(joined("/action/call/args/visual/interact/", "operation").as_str(), "swipe"))));
    add_field(fields, call_visible(wire(joined("/action/call/args/visual/interact/", "to_x").as_str(), 4, Control::OutlinedText, ValueKind::Integer, true), "visual", "interact", one_condition(cv1(joined("/action/call/args/visual/interact/", "operation").as_str(), "swipe"))));
    add_field(fields, call_visible(wire(joined("/action/call/args/visual/interact/", "to_y").as_str(), 5, Control::OutlinedText, ValueKind::Integer, true), "visual", "interact", one_condition(cv1(joined("/action/call/args/visual/interact/", "operation").as_str(), "swipe"))));
    add_field(fields, call_visible(default(wire(joined("/action/call/args/visual/interact/", "duration_ms").as_str(), 6, Control::OutlinedText, ValueKind::Integer, false), ScalarValue::Integer(300)), "visual", "interact", one_condition(cv1(joined("/action/call/args/visual/interact/", "operation").as_str(), "swipe"))));
    add_field(fields, call_visible(wire(joined("/action/call/args/visual/interact/", "text").as_str(), 1, Control::OutlinedText, ValueKind::String, true), "visual", "interact", one_condition(cv1(joined("/action/call/args/visual/interact/", "operation").as_str(), "text"))));
    add_field(fields, call_visible(optional(wire(joined("/action/call/args/visual/interact/", "node_ref").as_str(), 2, Control::OutlinedText, ValueKind::String, false), WrappedControl::OutlinedText), "visual", "interact", one_condition(cv1(joined("/action/call/args/visual/interact/", "operation").as_str(), "text"))));
    add_field(fields, call_visible(wire(joined("/action/call/args/visual/interact/", "key_code").as_str(), 1, Control::OutlinedText, ValueKind::Integer, true), "visual", "interact", one_condition(cv1(joined("/action/call/args/visual/interact/", "operation").as_str(), "key"))));
    add_field(fields, call_visible(default(wire(joined("/action/call/args/visual/interact/", "meta_state").as_str(), 2, Control::OutlinedText, ValueKind::Integer, false), ScalarValue::Integer(0)), "visual", "interact", one_condition(cv1(joined("/action/call/args/visual/interact/", "operation").as_str(), "key"))));
    assert(field_models(fields@) =~= before + visual_fields());
}

/// The fields of the android calls.
pub open spec fn android_fields() -> Seq<FieldModel> {
    seq![
        wire_field("/action/call/args/android/launch/"@ + "operation"@, 0, Control::SingleChoice, ValueKind::String, true).choosing(seq![wire_option("package"@), wire_option("component"@)]).of_call("android"@, "launch"@, Seq::<ConditionModel>::empty()),
        wire_field("/action/call/args/android/launch/"@ + "package_name"@, 1, Control::OutlinedText, ValueKind::String, true).of_call("android"@, "launch"@, Seq::<ConditionModel>::empty()),
        wire_field("/action/call/args/android/launch/"@ + "class_name"@, 2, Control::OutlinedText, ValueKind::String, true).of_call("android"@, "launch"@, seq![one_of_values("/action/call/args/android/launch/"@ + "operation"@, seq!["component"@])]),
        wire_field("/action/call/args/android/clipboard/"@ + "operation"@, 0, Control::SingleChoice, ValueKind::String, true).choosing(seq![wire_option("read"@), wire_option("write"@), wire_option("clear"@)]).of_call("android"@, "clipboard"@, Seq::<ConditionModel>::empty()),
        wire_field("/action/call/args/android/clipboard/"@ + "text"@, 1, Control::OutlinedText, ValueKind::String, true).of_call("android"@, "clipboard"@, seq![one_of_values("/action/call/args/android/clipboard/"@ + "operation"@, seq!["write"@])]),
    ]
}

fn add_android(fields: &mut Vec<FieldDescriptor>)
    ensures
        field_models(final(fields)@) == field_models(old(fields)@) + android_fields(),
{
    let ghost before = field_models(fields@);
    add_field(fields, call_visible(choice(wire(joined("/action/call/args/android/launch/", "operation").as_str(), 0, Control::SingleChoice, ValueKind::String, true), two_options(wo("package"), wo("component"))), "android", "launch", no_conditions()));
    add_field(fields, call_visible(wire(joined("/action/call/args/android/launch/", "package_name").as_str(), 1, Control::OutlinedText, ValueKind::String, true), "android", "launch", no_conditions()));
    add_field(fields, call_visible(wire(joined("/action/call/args/android/launch/", "class_name").as_str(), 2, Control::OutlinedText, ValueKind::String, true), "android", "launch", one_condition(cv1(joined("/action/call/args/android/launch/", "operation").as_str(), "component"))));
    add_field(fields, call_visible(choice(wire(joined("/action/call/args/android/clipboard/", "operation").as_str(), 0, Control::SingleChoice, ValueKind::String, true), three_options(wo("read"), wo("write"), wo("clear"))), "android", "clipboard", no_conditions()));
    add_field(fields, call_visible(wire(joined("/action/call/args/android/clipboard/", "text").as_str(), 1, Control::OutlinedText, ValueKind::String, true), "android", "clipboard", one_condition(cv1(joined("/action/call/args/android/clipboard/", "operation").as_str(), "write"))));
    assert(field_models(fields@) =~= before + android_fields());
}

/// Every editable field of an Automation, in editor order.
pub open spec fn automation_fields() -> Seq<FieldModel> {
    general_fields() + action_choice_fields() + action_node_fields() + filesystem_fields()
        + command_fields() + network_fields() + visual_fields() + android_fields()
}

/// The descriptors of every editable field of an Automation.
pub fn automation_descriptors() -> (descriptors: AutomationDescriptors)
    ensures
        descriptors.schema_version == 1,
        field_models(descriptors.fields@) == automation_fields(),
{
    let mut fields: Vec<FieldDescriptor> = Vec::new();
    assert(field_models(fields@) =~= Seq::empty());
    add_general(&mut fields);
    add_action_choice(&mut fields);
    add_action_node(&mut fields);
    add_filesystem(&mut fields);
    add_command(&mut fields);
    add_network(&mut fields);
    add_visual(&mut fields);
    add_android(&mut fields);
    assert(field_models(fields@) =~= automation_fields());
    AutomationDescriptors { schema_version: 1, fields }
}

// ---------------------------------------------------------------------------------------
// Validation.
// ---------------------------------------------------------------------------------------

/// Whether a canonical path is well formed: it begins with a slash and has no empty segment.
pub open spec fn well_formed_path(path: Seq<char>) -> bool {
    path.len() > 0 && path[0] == '/' && !has_double(path, '/')
}

/// Whether a label is present and not empty.
pub open spec fn has_label(label: Option<Seq<char>>) -> bool {
    label matches Some(label) && label.len() > 0
}

/// Whether a condition names at least one value and none twice.
pub open spec fn well_formed_condition(condition: ConditionModel) -> bool {
    condition.values.len() > 0 && condition.values.no_duplicates()
}

/// What is wrong with the option at `i`, given the options before it.
pub open spec fn option_fault(options: Seq<OptionModel>, i: int) -> Option<Seq<char>> {
    if exists|j: int| 0 <= j < i && (#[trigger] options[j]).value == options[i].value {
        Some("duplicate option for "@)
    } else if options[i].label_source is Resource && !has_label(options[i].label_resource) {
        Some("option resource missing for "@)
    } else if options[i].label_source is WireName && options[i].label_resource is Some {
        Some("wire option has resource for "@)
    } else {
        None
    }
}

/// The first thing that is wrong with the options from position `from` on.
pub open spec fn options_fault(options: Seq<OptionModel>, from: int) -> Option<Seq<char>>
    decreases options.len() - from,
{
    if from < 0 || from >= options.len() {
        None
    } else if option_fault(options, from) is Some {
        option_fault(options, from)
    } else {
        options_fault(options, from + 1)
    }
}

impl FieldModel {
    /// Whether none of the table and scalar limits is set.
    pub open spec fn has_no_limits(self) -> bool {
        self.max_rows is None && self.key_max_utf8_bytes is None && self.scalar_kinds is None
            && self.string_max_utf8_bytes is None
    }

    /// Whether the choices and the wrapped control are absent.
    pub open spec fn has_no_choices(self) -> bool {
        self.options is None && self.wrapped_control is None
    }

    /// Whether the scalar kinds and the string limit are those of a scalar editor.
    pub open spec fn edits_every_scalar(self) -> bool {
        self.scalar_kinds == Some(all_scalar_kinds()) && self.string_max_utf8_bytes == Some(4096u32)
    }

    pub open spec fn is_valid_switch(self) -> bool {
        self.value_kind is Boolean && self.has_no_choices() && self.has_no_limits() && (self.default
            is None || self.default->0 is Boolean)
    }

    pub open spec fn is_valid_text(self) -> bool {
        self.has_no_choices() && self.has_no_limits() && match self.value_kind {
            ValueKind::String => self.default is None || self.default->0 is Text,
            ValueKind::Integer => self.default is None || self.default->0 is Integer,
            _ => false,
        }
    }

    pub open spec fn is_valid_choice(self) -> bool {
        self.value_kind is String && self.wrapped_control is None && self.has_no_limits() && match (
            self.default,
            self.options,
        ) {
            (None, _) => true,
            (Some(ScalarModel::Text(value)), Some(options)) => exists|i: int|
                0 <= i < options.len() && (#[trigger] options[i]).value == value,
            _ => false,
        }
    }

    pub open spec fn is_valid_optional(self) -> bool {
        !self.required && self.default is None && self.has_no_limits() && match self.wrapped_control {
            Some(WrappedControl::OutlinedText) => true,
            Some(WrappedControl::SingleChoice) => self.options matches Some(options) && options.len()
                > 0,
            None => false,
        }
    }

    pub open spec fn is_valid_scalar_editor(self) -> bool {
        self.value_kind is Scalar && self.required && self.default is None && self.has_no_choices()
            && self.edits_every_scalar() && self.max_rows is None && self.key_max_utf8_bytes is None
    }

    pub open spec fn is_valid_table(self) -> bool {
        self.value_kind is Scalar && !self.required && self.default is None && self.has_no_choices()
            && self.max_rows == Some(32u32) && self.key_max_utf8_bytes == Some(64u32)
            && self.edits_every_scalar()
    }
}

/// What is wrong with how the control of a field is configured.
pub open spec fn control_fault(field: FieldModel) -> Option<Seq<char>> {
    match field.control {
        Control::Switch => if field.is_valid_switch() {
            None
        } else {
            Some("invalid switch "@)
        },
        Control::OutlinedText => if field.is_valid_text() {
            None
        } else {
            Some("invalid outlined text "@)
        },
        Control::SingleChoice => if field.options is None {
            Some("single choice options missing for "@)
        } else if field.is_valid_choice() {
            None
        } else {
            Some("invalid single choice "@)
        },
        Control::Optional => if field.is_valid_optional() {
            None
        } else {
            Some("invalid optional "@)
        },
        Control::ScalarEditor => if field.is_valid_scalar_editor() {
            None
        } else {
            Some("invalid scalar editor "@)
        },
        Control::KeyScalarTable => if field.is_valid_table() {
            None
        } else {
            Some("invalid key-scalar table "@)
        },
    }
}

/// The first thing that is wrong with one field by itself; the field's path completes the text.
pub open spec fn field_fault(field: FieldModel) -> Option<Seq<char>> {
    if !well_formed_path(field.canonical_path) {
        Some("invalid canonical path "@)
    } else if field.validation != "contract"@ || field.sensitive {
        Some("invalid base metadata for "@)
    } else if field.label_source is Resource && !has_label(field.label_resource) {
        Some("resource label missing for "@)
    } else if field.label_source is WireName && field.label_resource is Some {
        Some("wire label has resource for "@)
    } else if field.visible_when matches Some(conditions) && !(1 <= conditions.len() <= 4) {
        Some("invalid visibility count for "@)
    } else if field.visible_when matches Some(conditions) && exists|i: int|
        0 <= i < conditions.len() && !well_formed_condition(#[trigger] conditions[i]) {
        Some("invalid visibility values for "@)
    } else if field.options matches Some(options) && options.len() == 0 {
        Some("empty options for "@)
    } else if field.options matches Some(options) && options_fault(options, 0) is Some {
        options_fault(field.options->0, 0)
    } else {
        control_fault(field)
    }
}

/// Whether no value is in both sequences.
pub open spec fn disjoint(left: Seq<ScalarModel>, right: Seq<ScalarModel>) -> bool {
    forall|i: int, j: int|
        0 <= i < left.len() && 0 <= j < right.len() ==> (#[trigger] left[i]) != (#[trigger] right[j])
}

/// Whether two conditions can never hold together.
pub open spec fn excludes(left: ConditionModel, right: ConditionModel) -> bool {
    left.canonical_path == right.canonical_path && disjoint(left.values, right.values)
}

/// Whether two conjunctions of conditions can never hold together.
pub open spec fn mutually_exclusive(left: Seq<ConditionModel>, right: Seq<ConditionModel>) -> bool {
    exists|i: int, j: int|
        0 <= i < left.len() && 0 <= j < right.len() && excludes(#[trigger] left[i], #[trigger] right[j])
}

/// The conditions of a field; a field without any is always shown.
pub open spec fn conditions_of(field: FieldModel) -> Seq<ConditionModel> {
    match field.visible_when {
        Some(conditions) => conditions,
        None => Seq::empty(),
    }
}

/// Whether two fields edit one path and could be shown together.
pub open spec fn ambiguous(left: FieldModel, right: FieldModel) -> bool {
    left.canonical_path == right.canonical_path && !mutually_exclusive(
        conditions_of(left),
        conditions_of(right),
    )
}

/// Whether some field after `i` is ambiguous with the field at `i`.
pub open spec fn is_ambiguous(fields: Seq<FieldModel>, i: int) -> bool {
    exists|j: int| i < j < fields.len() && ambiguous(fields[i], #[trigger] fields[j])
}

/// The prefix of every path that edits the arguments of one call.
pub open spec fn call_prefix(row: ActionSpec) -> Seq<char> {
    "/action/call/args/"@ + row.tool@ + "/"@ + row.action@ + "/"@
}

/// Whether some field edits the arguments of a call.
pub open spec fn describes_call(fields: Seq<FieldModel>, row: ActionSpec) -> bool {
    exists|i: int|
        0 <= i < fields.len() && call_prefix(row).is_prefix_of((#[trigger] fields[i]).canonical_path)
}

/// The path of the target of a visual interaction.
pub open spec fn target_path() -> Seq<char> {
    "/action/call/args/visual/interact/target"@
}

/// The first position at or after `from` at which `wanted` holds, or the length.
pub open spec fn first_position(count: int, from: int, wanted: spec_fn(int) -> bool) -> int
    decreases count - from,
{
    if from >= count {
        count
    } else if wanted(from) {
        from
    } else {
        first_position(count, from + 1, wanted)
    }
}

/// Whether a field offers exactly the node and the coordinate target.
pub open spec fn offers_both_targets(field: FieldModel) -> bool {
    &&& field.control is SingleChoice
    &&& field.options matches Some(options)
    &&& options.len() == 2
    &&& options[0].value == "node"@
    &&& options[1].value == "coordinate"@
}

/// The first thing that is wrong with a table of descriptors, as the text that reports it: first
/// the schema version, then every field by itself, then ambiguous paths, then calls that no field
/// describes, and last the target of a visual interaction.
pub open spec fn descriptors_fault(schema_version: u32, fields: Seq<FieldModel>) -> Option<
    Seq<char>,
> {
    let invalid = first_position(fields.len() as int, 0, |i: int| field_fault(fields[i]) is Some);
    let twofold = first_position(fields.len() as int, 0, |i: int| is_ambiguous(fields, i));
    let rows = action_table();
    let missing = first_position(
        rows.len() as int,
        0,
        |i: int| rows[i].automation_compatible && !describes_call(fields, rows[i]),
    );
    let target = first_position(
        fields.len() as int,
        0,
        |i: int| fields[i].canonical_path == target_path(),
    );
    if schema_version != 1 {
        Some("descriptor schema_version must be 1"@)
    } else if invalid < fields.len() {
        Some(field_fault(fields[invalid])->0 + fields[invalid].canonical_path)
    } else if twofold < fields.len() {
        Some("ambiguous descriptor path "@ + fields[twofold].canonical_path)
    } else if missing < rows.len() {
        Some("missing call descriptors for "@ + rows[missing].tool@ + "."@ + rows[missing].action@)
    } else if target >= fields.len() {
        Some("visual interaction target descriptor missing"@)
    } else if !offers_both_targets(fields[target]) {
        Some("visual interaction target descriptor is not the public tagged union"@)
    } else {
        None
    }
}

fn label_present(label: &Option<String>) -> (yes: bool)
    ensures
        yes == has_label(optional_text(*label)),
{
    match label {
        Some(label) => !label.as_str().is_empty(),
        None => false,
    }
}

fn holds_scalar(values: &[ScalarValue], value: &ScalarValue, until: usize) -> (yes: bool)
    requires
        until <= values@.len(),
    ensures
        yes == exists|j: int| 0 <= j < until && #[trigger] scalar_models(values@)[j] == value@,
{
    for j in 0..until
        invariant
            until <= values@.len(),
            forall|k: int| 0 <= k < j ==> #[trigger] scalar_models(values@)[k] != value@,
    {
        assert(scalar_models(values@)[j as int] == values@[j as int]@);
        if values[j].same_as(value) {
            return true;
        }
    }
    false
}

fn condition_is_well_formed(condition: &VisibilityCondition) -> (yes: bool)
    ensures
        yes == well_formed_condition(condition@),
{
    let ghost models = condition@.values;
    if condition.values.len() == 0 {
        return false;
    }
    for i in 0..condition.values.len()
        invariant
            models == scalar_models(condition.values@),
            condition@.values == models,
            forall|a: int, b: int| 0 <= a < b < i ==> models[a] != models[b],
    {
        if holds_scalar(condition.values.as_slice(), &condition.values[i], i) {
            let ghost j = choose|j: int| 0 <= j < i && #[trigger] models[j] == condition.values@[i as int]@;
            assert(models[j] == models[i as int]);
            return false;
        }
        assert(models[i as int] == condition.values@[i as int]@);
    }
    true
}

fn find_option_fault(options: &[DescriptorOption]) -> (fault: Option<&'static str>)
    ensures
        match fault {
            Some(fault) => options_fault(option_models(options@), 0) == Some(fault@),
            None => options_fault(option_models(options@), 0) is None,
        },
{
    let ghost models = option_models(options@);
    let mut i: usize = 0;
    while i < options.len()
        invariant
            i <= options@.len(),
            models == option_models(options@),
            options_fault(models, 0) == options_fault(models, i as int),
        decreases options@.len() - i,
    {
        assert(models[i as int] == options@[i as int]@);
        let mut repeated = false;
        for j in 0..i
            invariant
                i < options@.len(),
                models == option_models(options@),
                repeated == exists|k: int|
                    0 <= k < j && (#[trigger] models[k]).value == models[i as int].value,
        {
            assert(models[j as int] == options@[j as int]@);
            assert(models[i as int] == options@[i as int]@);
            if same(options[j].value.as_str(), options[i].value.as_str()) {
                repeated = true;
            }
        }
        if repeated {
            return Some("duplicate option for ");
        }
        match options[i].label_source {
            LabelSource::Resource => {
                if !label_present(&options[i].label_resource) {
                    return Some("option resource missing for ");
                }
            },
            LabelSource::WireName => {
                if options[i].label_resource.is_some() {
                    return Some("wire option has resource for ");
                }
            },
        }
        i += 1;
    }
    None
}

fn has_option(options: &[DescriptorOption], value: &str) -> (yes: bool)
    ensures
        yes == exists|i: int|
            0 <= i < options@.len() && (#[trigger] option_models(options@)[i]).value == value@,
{
    let ghost models = option_models(options@);
    for i in 0..options.len()
        invariant
            models == option_models(options@),
            forall|k: int| 0 <= k < i ==> (#[trigger] models[k]).value != value@,
    {
        assert(models[i as int] == options@[i as int]@);
        if same(options[i].value.as_str(), value) {
            return true;
        }
    }
    false
}

fn kinds_are_complete(kinds: &Option<Vec<String>>) -> (yes: bool)
    ensures
        yes == ((match *kinds {
            Some(kinds) => Some(texts(kinds@)),
            None => None,
        }) == Some(all_scalar_kinds())),
{
    match kinds {
        Some(kinds) => {
            let ghost models = texts(kinds@);
            let ghost all = all_scalar_kinds();
            if kinds.len() != 4 {
                assert(models.len() != all.len());
                return false;
            }
            assert(models[0] == kinds@[0]@ && models[1] == kinds@[1]@ && models[2] == kinds@[2]@
                && models[3] == kinds@[3]@);
            let yes = same(kinds[0].as_str(), "null") && same(kinds[1].as_str(), "boolean") && same(
                kinds[2].as_str(),
                "integer",
            ) && same(kinds[3].as_str(), "string");
            if yes {
                assert(models =~= all);
            } else {
                assert(models[0] != all[0] || models[1] != all[1] || models[2] != all[2] || models[3]
                    != all[3]);
            }
            yes
        },
        None => false,
    }
}

fn is_limit(limit: Option<u32>, value: u32) -> (yes: bool)
    ensures
        yes == (limit == Some(value)),
{
    match limit {
        Some(limit) => limit == value,
        None => false,
    }
}

fn find_control_fault(field: &FieldDescriptor) -> (fault: Option<&'static str>)
    ensures
        match fault {
            Some(fault) => control_fault(field@) == Some(fault@),
            None => control_fault(field@) is None,
        },
{
    let no_limits = field.max_rows.is_none() && field.key_max_utf8_bytes.is_none()
        && field.scalar_kinds.is_none() && field.string_max_utf8_bytes.is_none();
    let no_choices = field.options.is_none() && field.wrapped_control.is_none();
    let every_scalar = kinds_are_complete(&field.scalar_kinds) && is_limit(
        field.string_max_utf8_bytes,
        4096,
    );
    assert(no_limits == field@.has_no_limits());
    assert(no_choices == field@.has_no_choices());
    assert(every_scalar == field@.edits_every_scalar());
    match field.control {
        Control::Switch => {
            let default_ok = match &field.default {
                None => true,
                Some(ScalarValue::Boolean(_)) => true,
                _ => false,
            };
            if field.value_kind != ValueKind::Boolean || !no_choices || !no_limits || !default_ok {
                return Some("invalid switch ");
            }
            None
        },
        Control::OutlinedText => {
            let default_ok = match (field.value_kind, &field.default) {
                (ValueKind::String, None) => true,
                (ValueKind::String, Some(ScalarValue::String(_))) => true,
                (ValueKind::Integer, None) => true,
                (ValueKind::Integer, Some(ScalarValue::Integer(_))) => true,
                _ => false,
            };
            if !default_ok || !no_choices || !no_limits {
                return Some("invalid outlined text ");
            }
            None
        },
        Control::SingleChoice => match &field.options {
            None => Some("single choice options missing for "),
            Some(options) => {
                let default_ok = match &field.default {
                    None => true,
                    Some(ScalarValue::String(value)) => has_option(
                        options.as_slice(),
                        value.as_str(),
                    ),
                    _ => false,
                };
                if field.value_kind != ValueKind::String || !default_ok
                    || field.wrapped_control.is_some() || !no_limits {
                    return Some("invalid single choice ");
                }
                None
            },
        },
        Control::Optional => {
            let wrapped_ok = match field.wrapped_control {
                None => false,
                Some(WrappedControl::OutlinedText) => true,
                Some(WrappedControl::SingleChoice) => match &field.options {
                    Some(options) => options.len() > 0,
                    None => false,
                },
            };
            if field.required || field.default.is_some() || !wrapped_ok || !no_limits {
                return Some("invalid optional ");
            }
            None
        },
        Control::ScalarEditor => {
            if field.value_kind != ValueKind::Scalar || !field.required || field.default.is_some()
                || !no_choices || !every_scalar || field.max_rows.is_some()
                || field.key_max_utf8_bytes.is_some() {
                return Some("invalid scalar editor ");
            }
            None
        },
        Control::KeyScalarTable => {
            if field.value_kind != ValueKind::Scalar || field.required || field.default.is_some()
                || !no_choices || !is_limit(field.max_rows, 32) || !is_limit(
                field.key_max_utf8_bytes,
                64,
            ) || !every_scalar {
                return Some("invalid key-scalar table ");
            }
            None
        },
    }
}

fn find_field_fault(field: &FieldDescriptor) -> (fault: Option<&'static str>)
    ensures
        match fault {
            Some(fault) => field_fault(field@) == Some(fault@),
            None => field_fault(field@) is None,
        },
{
    let path = field.canonical_path.as_str();
    if path.is_empty() || path.get_char(0) != '/' || contains_double(path, '/') {
        return Some("invalid canonical path ");
    }
    if !same(field.validation.as_str(), "contract") || field.sensitive {
        return Some("invalid base metadata for ");
    }
    match field.label_source {
        LabelSource::Resource => {
            if !label_present(&field.label_resource) {
                return Some("resource label missing for ");
            }
        },
        LabelSource::WireName => {
            if field.label_resource.is_some() {
                return Some("wire label has resource for ");
            }
        },
    }
    if let Some(conditions) = &field.visible_when {
        if conditions.len() == 0 || conditions.len() > 4 {
            return Some("invalid visibility count for ");
        }
        let ghost models = condition_models(conditions@);
        for i in 0..conditions.len()
            invariant
                models == condition_models(conditions@),
                field@.visible_when == Some(models),
                1 <= models.len() <= 4,
                field_fault(field@) == (if exists|k: int|
                    0 <= k < models.len() && !well_formed_condition(#[trigger] models[k]) {
                    Some("invalid visibility values for "@)
                } else if field@.options matches Some(options) && options.len() == 0 {
                    Some("empty options for "@)
                } else if field@.options matches Some(options) && options_fault(options, 0) is Some {
                    options_fault(field@.options->0, 0)
                } else {
                    control_fault(field@)
                }),
                forall|k: int| 0 <= k < i ==> well_formed_condition(#[trigger] models[k]),
        {
            assert(models[i as int] == conditions@[i as int]@);
            if !condition_is_well_formed(&conditions[i]) {
                assert(!well_formed_condition(models[i as int]));
                return Some("invalid visibility values for ");
            }
        }
    }
    if let Some(options) = &field.options {
        if options.len() == 0 {
            return Some("empty options for ");
        }
        if let Some(fault) = find_option_fault(options.as_slice()) {
            return Some(fault);
        }
    }
    find_control_fault(field)
}

fn values_are_disjoint(left: &[ScalarValue], right: &[ScalarValue]) -> (yes: bool)
    ensures
        yes == disjoint(scalar_models(left@), scalar_models(right@)),
{
    let ghost l = scalar_models(left@);
    let ghost r = scalar_models(right@);
    for i in 0..left.len()
        invariant
            l == scalar_models(left@),
            r == scalar_models(right@),
            forall|a: int, b: int|
                0 <= a < i && 0 <= b < r.len() ==> (#[trigger] l[a]) != (#[trigger] r[b]),
    {
        assert(l[i as int] == left@[i as int]@);
        if holds_scalar(right, &left[i], right.len()) {
            let ghost j = choose|j: int| 0 <= j < right@.len() && #[trigger] r[j] == left@[i as int]@;
            assert(l[i as int] == r[j]);
            return false;
        }
    }
    true
}

fn conditions_are_mutually_exclusive(
    left: &[VisibilityCondition],
    right: &[VisibilityCondition],
) -> (yes: bool)
    ensures
        yes == mutually_exclusive(condition_models(left@), condition_models(right@)),
{
    let ghost l = condition_models(left@);
    let ghost r = condition_models(right@);
    for i in 0..left.len()
        invariant
            l == condition_models(left@),
            r == condition_models(right@),
            forall|a: int, b: int|
                0 <= a < i && 0 <= b < r.len() ==> !excludes(#[trigger] l[a], #[trigger] r[b]),
    {
        for j in 0..right.len()
            invariant
                i < left@.len(),
                l == condition_models(left@),
                r == condition_models(right@),
                forall|b: int| 0 <= b < j ==> !excludes(l[i as int], #[trigger] r[b]),
        {
            assert(l[i as int] == left@[i as int]@);
            assert(r[j as int] == right@[j as int]@);
            if same(left[i].canonical_path.as_str(), right[j].canonical_path.as_str())
                && values_are_disjoint(left[i].values.as_slice(), right[j].values.as_slice()) {
                assert(excludes(l[i as int], r[j as int]));
                return true;
            }
        }
    }
    false
}

fn field_is_ambiguous(fields: &[FieldDescriptor], i: usize) -> (yes: bool)
    requires
        i < fields@.len(),
    ensures
        yes == is_ambiguous(field_models(fields@), i as int),
{
    let ghost models = field_models(fields@);
    let none: Vec<VisibilityCondition> = Vec::new();
    assert(condition_models(none@) =~= Seq::empty());
    assert(models[i as int] == fields@[i as int]@);
    let left = match &fields[i].visible_when {
        Some(conditions) => conditions.as_slice(),
        None => none.as_slice(),
    };
    assert(condition_models(left@) == conditions_of(models[i as int]));
    let mut j: usize = i + 1;
    while j < fields.len()
        invariant
            i < j <= fields@.len(),
            models == field_models(fields@),
            models[i as int] == fields@[i as int]@,
            condition_models(left@) == conditions_of(models[i as int]),
            condition_models(none@) == Seq::<ConditionModel>::empty(),
            forall|k: int| i < k < j ==> !ambiguous(models[i as int], #[trigger] models[k]),
        decreases fields@.len() - j,
    {
        assert(models[j as int] == fields@[j as int]@);
        if same(fields[i].canonical_path.as_str(), fields[j].canonical_path.as_str()) {
            let right = match &fields[j].visible_when {
                Some(conditions) => conditions.as_slice(),
                None => none.as_slice(),
            };
            assert(condition_models(right@) == conditions_of(models[j as int]));
            if !conditions_are_mutually_exclusive(left, right) {
                assert(ambiguous(models[i as int], models[j as int]));
                return true;
            }
        }
        j += 1;
    }
    false
}

fn call_is_described(fields: &[FieldDescriptor], row: &ActionSpec) -> (yes: bool)
    ensures
        yes == describes_call(field_models(fields@), *row),
{
    let ghost models = field_models(fields@);
    let mut prefix = "/action/call/args/".to_owned();
    prefix.append(row.tool);
    prefix.append("/");
    prefix.append(row.action);
    prefix.append("/");
    for i in 0..fields.len()
        invariant
            models == field_models(fields@),
            prefix@ == call_prefix(*row),
            forall|k: int|
                0 <= k < i ==> !call_prefix(*row).is_prefix_of((#[trigger] models[k]).canonical_path),
    {
        assert(models[i as int] == fields@[i as int]@);
        if starts_with(fields[i].canonical_path.as_str(), prefix.as_str()) {
            return true;
        }
    }
    false
}

pub(crate) proof fn lemma_first_position(count: int, from: int, wanted: spec_fn(int) -> bool, at: int)
    requires
        0 <= from <= at <= count,
        forall|i: int| from <= i < at ==> !(#[trigger] wanted(i)),
        at < count ==> wanted(at),
    ensures
        first_position(count, from, wanted) == at,
    decreases at - from,
{
    if from < at {
        lemma_first_position(count, from + 1, wanted, at);
    }
}

fn options_offer_both_targets(field: &FieldDescriptor) -> (yes: bool)
    ensures
        yes == offers_both_targets(field@),
{
    if field.control != Control::SingleChoice {
        return false;
    }
    match &field.options {
        Some(options) => {
            let ghost models = option_models(options@);
            if options.len() != 2 {
                assert(models.len() != 2);
                return false;
            }
            assert(models[0] == options@[0]@ && models[1] == options@[1]@);
            same(options[0].value.as_str(), "node") && same(options[1].value.as_str(), "coordinate")
        },
        None => false,
    }
}

/// Checks a table of descriptors and reports the first thing that is wrong with it.
pub fn validate_automation_descriptors(value: &AutomationDescriptors) -> (checked: Result<
    (),
    String,
>)
    ensures
        match checked {
            Ok(()) => descriptors_fault(value.schema_version, field_models(value.fields@)) is None,
            Err(fault) => descriptors_fault(value.schema_version, field_models(value.fields@))
                == Some(fault@),
        },
{
    let ghost models = field_models(value.fields@);
    let ghost count = models.len() as int;
    if value.schema_version != 1 {
        return Err("descriptor schema_version must be 1".to_owned());
    }
    let ghost invalid = |i: int| field_fault(models[i]) is Some;
    for i in 0..value.fields.len()
        invariant
            models == field_models(value.fields@),
            count == models.len(),
            value.schema_version == 1,
            invalid == (|i: int| field_fault(models[i]) is Some),
            forall|k: int| 0 <= k < i ==> !(#[trigger] invalid(k)),
    {
        assert(models[i as int] == value.fields@[i as int]@);
        if let Some(fault) = find_field_fault(&value.fields[i]) {
            proof {
                lemma_first_position(count, 0, invalid, i as int);
            }
            return Err(joined(fault, value.fields[i].canonical_path.as_str()));
        }
        assert(!invalid(i as int));
    }
    proof {
        lemma_first_position(count, 0, invalid, count);
    }
    let ghost twofold = |i: int| is_ambiguous(models, i);
    for i in 0..value.fields.len()
        invariant
            models == field_models(value.fields@),
            count == models.len(),
            value.schema_version == 1,
            first_position(count, 0, |i: int| field_fault(models[i]) is Some) == count,
            twofold == (|i: int| is_ambiguous(models, i)),
            forall|k: int| 0 <= k < i ==> !(#[trigger] twofold(k)),
    {
        if field_is_ambiguous(value.fields.as_slice(), i) {
            proof {
                lemma_first_position(count, 0, twofold, i as int);
            }
            assert(models[i as int] == value.fields@[i as int]@);
            return Err(
                joined("ambiguous descriptor path ", value.fields[i].canonical_path.as_str()),
            );
        }
        assert(!twofold(i as int));
    }
    proof {
        lemma_first_position(count, 0, twofold, count);
    }
    let rows = action_specs();
    let ghost missing = |i: int|
        rows@[i].automation_compatible && !describes_call(models, rows@[i]);
    for i in 0..rows.len()
        invariant
            models == field_models(value.fields@),
            count == models.len(),
            value.schema_version == 1,
            rows@ == action_table(),
            first_position(count, 0, |i: int| field_fault(models[i]) is Some) == count,
            first_position(count, 0, |i: int| is_ambiguous(models, i)) == count,
            missing == (|i: int|
                rows@[i].automation_compatible && !describes_call(models, rows@[i])),
            forall|k: int| 0 <= k < i ==> !(#[trigger] missing(k)),
    {
        if rows[i].automation_compatible && !call_is_described(
            value.fields.as_slice(),
            &rows[i],
        ) {
            proof {
                lemma_first_position(rows@.len() as int, 0, missing, i as int);
            }
            let mut fault = "missing call descriptors for ".to_owned();
            fault.append(rows[i].tool);
            fault.append(".");
            fault.append(rows[i].action);
            return Err(fault);
        }
        assert(!missing(i as int));
    }
    proof {
        lemma_first_position(rows@.len() as int, 0, missing, rows@.len() as int);
    }
    let ghost target = |i: int| models[i].canonical_path == target_path();
    for i in 0..value.fields.len()
        invariant
            models == field_models(value.fields@),
            count == models.len(),
            value.schema_version == 1,
            rows@ == action_table(),
            first_position(count, 0, |i: int| field_fault(models[i]) is Some) == count,
            first_position(count, 0, |i: int| is_ambiguous(models, i)) == count,
            first_position(
                rows@.len() as int,
                0,
                |i: int| rows@[i].automation_compatible && !describes_call(models, rows@[i]),
            ) == rows@.len(),
            target == (|i: int| models[i].canonical_path == target_path()),
            forall|k: int| 0 <= k < i ==> !(#[trigger] target(k)),
    {
        assert(models[i as int] == value.fields@[i as int]@);
        if same(
            value.fields[i].canonical_path.as_str(),
            "/action/call/args/visual/interact/target",
        ) {
            proof {
                lemma_first_position(count, 0, target, i as int);
            }
            if !options_offer_both_targets(&value.fields[i]) {
                return Err(
                    "visual interaction target descriptor is not the public tagged union".to_owned(),
                );
            }
            return Ok(());
        }
        assert(!target(i as int));
    }
    proof {
        lemma_first_position(count, 0, target, count);
    }
    Err("visual interaction target descriptor missing".to_owned())
}

// ---------------------------------------------------------------------------------------
// Laws.
// ---------------------------------------------------------------------------------------

proof fn lemma_no_wanted_before(count: int, from: int, wanted: spec_fn(int) -> bool, i: int)
    requires
        from <= i < count,
        wanted(i),
    ensures
        first_position(count, from, wanted) < count,
    decreases count - from,
{
    if !wanted(from) {
        lemma_no_wanted_before(count, from + 1, wanted, i);
    }
}

/// A table with any fault in any of its fields is refused: a path that does not begin with a slash
/// or has an empty segment, another validation than that of the contract, a field that is
/// sensitive, a label that is missing or stands beside a wire name, or conditions that are none or
/// more than four. Only tables of schema 1 are accepted.
pub proof fn a_faulty_field_is_refused(
    table: AutomationDescriptors,
    checked: Result<(), String>,
    i: int,
)
    requires
        call_ensures(validate_automation_descriptors, (&table,), checked),
        0 <= i < table.fields@.len(),
    ensures
        table.schema_version != 1 ==> checked is Err,
        ({
            let field = table.fields@[i];
            let path = field.canonical_path@;
            &&& path.len() == 0 || path[0] != '/' ==> checked is Err
            &&& has_double(path, '/') ==> checked is Err
            &&& field.validation@ != "contract"@ ==> checked is Err
            &&& field.sensitive ==> checked is Err
            &&& field.label_source is Resource && (field.label_resource is None
                || field.label_resource->0@.len() == 0) ==> checked is Err
            &&& field.label_source is WireName && field.label_resource is Some ==> checked is Err
            &&& field.visible_when is Some && (field.visible_when->0@.len() == 0
                || field.visible_when->0@.len() > 4) ==> checked is Err
            &&& field.options is Some && field.options->0@.len() == 0 ==> checked is Err
            &&& field.control is Switch && (field.value_kind !is Boolean || field.options is Some
                || field.wrapped_control is Some || field.max_rows is Some) ==> checked is Err
            &&& field.control is OutlinedText && (field.options is Some || field.wrapped_control is
                Some || field.max_rows is Some || field.value_kind is Boolean || field.value_kind is
                Scalar) ==> checked is Err
            &&& field.control is SingleChoice && (field.options is None || field.value_kind !is
                String) ==> checked is Err
            &&& field.control is Optional && (field.required || field.default is Some
                || field.wrapped_control is None) ==> checked is Err
        }),
{
    let fields = field_models(table.fields@);
    let field = table.fields@[i];
    assert(fields[i] == field@);
    if field_fault(field@) is Some {
        let wanted = |k: int| field_fault(fields[k]) is Some;
        assert(wanted(i));
        lemma_no_wanted_before(fields.len() as int, 0, wanted, i);
    }
}

/// Two fields for one path are refused unless they can never be shown together: two that are always
/// shown are refused.
pub proof fn two_fields_of_one_path_are_told_apart(
    table: AutomationDescriptors,
    checked: Result<(), String>,
    i: int,
    j: int,
)
    requires
        call_ensures(validate_automation_descriptors, (&table,), checked),
        0 <= i < j < table.fields@.len(),
        table.fields@[i].canonical_path@ == table.fields@[j].canonical_path@,
    ensures
        checked is Ok ==> table.fields@[i].visible_when is Some && table.fields@[j].visible_when
            is Some,
        checked is Ok ==> exists|a: int, b: int|
            {
                let left = #[trigger] table.fields@[i].visible_when->0@[a];
                let right = #[trigger] table.fields@[j].visible_when->0@[b];
                &&& 0 <= a < table.fields@[i].visible_when->0@.len()
                &&& 0 <= b < table.fields@[j].visible_when->0@.len()
                &&& left.canonical_path@ == right.canonical_path@
                &&& forall|x: int, y: int|
                    0 <= x < left.values@.len() && 0 <= y < right.values@.len() ==> (
                    #[trigger] left.values@[x])@ != (#[trigger] right.values@[y])@
            },
{
    let fields = field_models(table.fields@);
    assert(fields[i] == table.fields@[i]@ && fields[j] == table.fields@[j]@);
    if ambiguous(fields[i], fields[j]) {
        let wanted = |k: int| is_ambiguous(fields, k);
        assert(is_ambiguous(fields, i));
        assert(wanted(i));
        lemma_no_wanted_before(fields.len() as int, 0, wanted, i);
    }
    if checked is Ok {
        let left = conditions_of(fields[i]);
        let right = conditions_of(fields[j]);
        let (a, b) = choose|a: int, b: int|
            0 <= a < left.len() && 0 <= b < right.len() && excludes(
                #[trigger] left[a],
                #[trigger] right[b],
            );
        let one = table.fields@[i].visible_when->0@[a];
        let other = table.fields@[j].visible_when->0@[b];
        assert(left[a] == one@ && right[b] == other@);
        assert forall|x: int, y: int|
            0 <= x < one.values@.len() && 0 <= y < other.values@.len() implies (
        #[trigger] one.values@[x])@ != (#[trigger] other.values@[y])@ by {
            assert(left[a].values[x] == one.values@[x]@);
            assert(right[b].values[y] == other.values@[y]@);
        }
    }
}

/// The actions of a tool that are offered are exactly those that an automation may call, in order.
pub proof fn only_compatible_actions_are_offered(rows: Seq<ActionSpec>, tool: Seq<char>)
    ensures
        compatible_actions(rows, tool) == rows.filter(
            |row: ActionSpec| row.tool@ == tool && row.automation_compatible,
        ).map_values(|row: ActionSpec| row.action@),
    decreases rows.len(),
{
    reveal(Seq::filter);
    let wanted = |row: ActionSpec| row.tool@ == tool && row.automation_compatible;
    let name = |row: ActionSpec| row.action@;
    if rows.len() == 0 {
        assert(rows.filter(wanted).map_values(name) =~= Seq::empty());
    } else {
        let earlier = rows.drop_last();
        only_compatible_actions_are_offered(earlier, tool);
        if wanted(rows.last()) {
            assert(rows.filter(wanted) =~= earlier.filter(wanted).push(rows.last()));
            assert(rows.filter(wanted).map_values(name) =~= earlier.filter(wanted).map_values(
                name,
            ).push(rows.last().action@));
        } else {
            assert(rows.filter(wanted) =~= earlier.filter(wanted));
        }
    }
}

} // verus!
