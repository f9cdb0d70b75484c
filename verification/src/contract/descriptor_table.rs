//! The table of descriptors of an Automation is valid: every field by itself, and all of them
//! together.
//!
//! Two paths of the table are told apart by a number, the sum of the characters with the last one
//! counted four times: equal paths have equal numbers, and in the table only equal paths do.

use crate::contract::common::ScalarModel;
use crate::contract::descriptor::{
    action_choice_fields, action_node_fields, ambiguous, android_fields, automation_fields,
    call_prefix, command_fields, compatible_actions, conditions_of, control_fault, describes_call,
    descriptors_fault, excludes, field_fault, filesystem_fields, general_fields, has_label,
    is_ambiguous, lemma_first_position, network_fields, offers_both_targets, one_of_values,
    option_fault, options_fault, target_path, visual_fields, well_formed_condition,
    well_formed_path, wire_options, ConditionModel, FieldModel, OptionModel,
};
use crate::contract::tools::{action_table, ActionSpec};
use crate::text::has_double;
use vstd::prelude::*;

verus! {

// ---------------------------------------------------------------------------------------
// Texts.
// ---------------------------------------------------------------------------------------

/// The sum of the first characters of a text.
spec fn weight_to(text: Seq<char>, count: int) -> int
    decreases count,
{
    if count <= 0 {
        0
    } else {
        weight_to(text, count - 1) + text[count - 1] as int
    }
}

/// The sum of the characters of a text.
spec fn weight(text: Seq<char>) -> int {
    weight_to(text, text.len() as int)
}

/// The number of a path.
spec fn path_number(path: Seq<char>) -> int {
    weight(path) + 3 * (path.last() as int)
}

/// Whether no two of the first characters of a text are neighbouring slashes.
spec fn separate_to(text: Seq<char>, count: int) -> bool
    decreases count,
{
    count <= 1 || (separate_to(text, count - 1) && !(text[count - 1] == '/' && text[count - 2]
        == '/'))
}

/// Whether the first characters of two texts are the same.
spec fn alike_to(left: Seq<char>, right: Seq<char>, count: int) -> bool
    decreases count,
{
    count <= 0 || (alike_to(left, right, count - 1) && left[count - 1] == right[count - 1])
}

proof fn lemma_separate(text: Seq<char>, count: int, i: int)
    requires
        separate_to(text, count),
        0 <= i,
        i + 1 < count,
    ensures
        !(text[i] == '/' && text[i + 1] == '/'),
    decreases count,
{
    if i + 2 < count {
        lemma_separate(text, count - 1, i);
    }
}

proof fn lemma_no_double(text: Seq<char>)
    requires
        separate_to(text, text.len() as int),
    ensures
        !has_double(text, '/'),
{
    if has_double(text, '/') {
        let i = choose|i: int|
            0 <= i && i + 1 < text.len() && #[trigger] text[i] == '/' && text[i + 1] == '/';
        lemma_separate(text, text.len() as int, i);
    }
}

proof fn lemma_alike(left: Seq<char>, right: Seq<char>, count: int, i: int)
    requires
        alike_to(left, right, count),
        0 <= i < count,
    ensures
        left[i] == right[i],
    decreases count,
{
    if i + 1 < count {
        lemma_alike(left, right, count - 1, i);
    }
}

proof fn lemma_same(left: Seq<char>, right: Seq<char>)
    requires
        left.len() == right.len(),
        alike_to(left, right, left.len() as int),
    ensures
        left == right,
{
    assert forall|i: int| 0 <= i < left.len() implies left[i] == right[i] by {
        lemma_alike(left, right, left.len() as int, i);
    }
    assert(left =~= right);
}

proof fn lemma_weight_of_part(left: Seq<char>, right: Seq<char>, count: int)
    requires
        0 <= count <= right.len(),
    ensures
        weight_to(left + right, left.len() + count) == weight(left) + weight_to(right, count),
    decreases count,
{
    if count == 0 {
        lemma_weight_of_front(left, right, left.len() as int);
    } else {
        lemma_weight_of_part(left, right, count - 1);
        assert((left + right)[left.len() + count - 1] == right[count - 1]);
    }
}

proof fn lemma_weight_of_front(left: Seq<char>, right: Seq<char>, count: int)
    requires
        0 <= count <= left.len(),
    ensures
        weight_to(left + right, count) == weight_to(left, count),
    decreases count,
{
    if count > 0 {
        lemma_weight_of_front(left, right, count - 1);
        assert((left + right)[count - 1] == left[count - 1]);
    }
}

/// Whether a path is well formed and has that number.
#[verifier::opaque]
spec fn is_path(path: Seq<char>, number: int) -> bool {
    well_formed_path(path) && path_number(path) == number
}

/// Whether a text can begin a path, and what its characters sum up to.
#[verifier::opaque]
spec fn is_front(text: Seq<char>, sum: int) -> bool {
    well_formed_path(text) && text.last() == '/' && weight(text) == sum
}

/// Whether a text can end a path, and which number it has.
#[verifier::opaque]
spec fn is_back(text: Seq<char>, number: int) -> bool {
    text.len() > 0 && text[0] != '/' && !has_double(text, '/') && path_number(text) == number
}

proof fn lemma_path(path: Seq<char>, number: int)
    requires
        path.len() > 0,
        path[0] == '/',
        separate_to(path, path.len() as int),
        path_number(path) == number,
    ensures
        is_path(path, number),
{
    reveal(is_path);
    lemma_no_double(path);
}

proof fn lemma_front(text: Seq<char>, sum: int)
    requires
        text.len() > 0,
        text[0] == '/',
        text.last() == '/',
        separate_to(text, text.len() as int),
        weight(text) == sum,
    ensures
        is_front(text, sum),
{
    reveal(is_front);
    lemma_no_double(text);
}

proof fn lemma_back(text: Seq<char>, number: int)
    requires
        text.len() > 0,
        text[0] != '/',
        separate_to(text, text.len() as int),
        path_number(text) == number,
    ensures
        is_back(text, number),
{
    reveal(is_back);
    lemma_no_double(text);
}

proof fn lemma_joined(front: Seq<char>, back: Seq<char>, sum: int, number: int)
    requires
        is_front(front, sum),
        is_back(back, number),
    ensures
        is_path(front + back, sum + number),
{
    reveal(is_path);
    reveal(is_front);
    reveal(is_back);
    let path = front + back;
    lemma_weight_of_part(front, back, back.len() as int);
    assert(path.last() == back.last());
    if has_double(path, '/') {
        let i = choose|i: int|
            0 <= i && i + 1 < path.len() && #[trigger] path[i] == '/' && path[i + 1] == '/';
        if i + 1 < front.len() {
            assert(front[i] == '/' && front[i + 1] == '/');
        } else if i + 1 == front.len() {
            assert(path[i + 1] == back[0]);
        } else {
            assert(back[i - front.len()] == '/' && back[i - front.len() + 1] == '/');
        }
    }
    assert(path[0] == front[0]);
}

// ---------------------------------------------------------------------------------------
// Fields.
// ---------------------------------------------------------------------------------------

/// Values whose sums differ are distinct.
proof fn lemma_distinct(values: Seq<Seq<char>>, sums: Seq<int>)
    requires
        values.len() == sums.len(),
        forall|i: int| 0 <= i < values.len() ==> weight(#[trigger] values[i]) == sums[i],
        sums.no_duplicates(),
    ensures
        values.no_duplicates(),
{
    assert forall|i: int, j: int|
        0 <= i < values.len() && 0 <= j < values.len() && i != j implies values[i] != values[j] by {
        assert(sums[i] != sums[j]);
    }
}

proof fn lemma_condition(path: Seq<char>, values: Seq<Seq<char>>)
    requires
        values.len() > 0,
        values.no_duplicates(),
    ensures
        well_formed_condition(one_of_values(path, values)),
{
    let made = one_of_values(path, values).values;
    assert forall|i: int, j: int|
        0 <= i < made.len() && 0 <= j < made.len() && i != j implies made[i] != made[j] by {
        assert(made[i] == ScalarModel::Text(values[i]) && made[j] == ScalarModel::Text(values[j]));
    }
}

/// Whether an option is labelled as its source says.
spec fn is_labelled(option: OptionModel) -> bool {
    if option.label_source is Resource {
        has_label(option.label_resource)
    } else {
        option.label_resource is None
    }
}

proof fn lemma_options_from(options: Seq<OptionModel>, values: Seq<Seq<char>>, from: int)
    requires
        0 <= from <= options.len(),
        options.len() == values.len(),
        values.no_duplicates(),
        forall|i: int|
            0 <= i < options.len() ==> (#[trigger] options[i]).value == values[i] && is_labelled(
                options[i],
            ),
    ensures
        options_fault(options, from) is None,
    decreases options.len() - from,
{
    if from < options.len() {
        lemma_options_from(options, values, from + 1);
        assert(option_fault(options, from) is None);
    }
}

/// Whether there are options and nothing is wrong with them.
spec fn offers(options: Seq<OptionModel>) -> bool {
    options.len() > 0 && options_fault(options, 0) is None
}

/// Whether there are conditions, not too many, and each is well formed.
spec fn conditions_hold(conditions: Seq<ConditionModel>) -> bool {
    1 <= conditions.len() <= 4 && forall|i: int|
        0 <= i < conditions.len() ==> well_formed_condition(#[trigger] conditions[i])
}

/// Whether nothing is wrong with a field by itself, and its path has that number.
#[verifier::opaque]
spec fn is_sound(field: FieldModel, number: int) -> bool {
    field_fault(field) is None && path_number(field.canonical_path) == number
}

proof fn lemma_sound(field: FieldModel, number: int)
    requires
        is_path(field.canonical_path, number),
        field.validation == "contract"@,
        !field.sensitive,
        field.label_source is Resource ==> has_label(field.label_resource),
        field.label_source is WireName ==> field.label_resource is None,
        field.visible_when matches Some(conditions) ==> conditions_hold(conditions),
        field.options matches Some(options) ==> offers(options),
        control_fault(field) is None,
    ensures
        is_sound(field, number),
{
    reveal(is_path);
    reveal(is_sound);
}

proof fn lemma_paths()
    ensures
        is_path("/name"@, 767),
        is_path("/enabled"@, 1062),
        is_path("/trigger/type"@, 1603),
        is_path("/trigger/at"@, 1411),
        is_path("/trigger/every_ms"@, 2069),
        is_path("/trigger/rrule"@, 1707),
        is_path("/trigger/timezone"@, 2028),
        is_path("/trigger/name"@, 1570),
        is_path("/trigger/match"@, 1687),
        is_path("/action/type"@, 1485),
        is_path("/action/call/tool"@, 1961),
        is_path("/action/call/action"@, 2159),
        is_path("/action/conditional/condition/source"@, 3925),
        is_path("/action/conditional/condition/key"@, 3657),
        is_path("/action/conditional/condition/operator"@, 4183),
        is_path("/action/conditional/condition/value"@, 3809),
        is_path("/action/repeat/count"@, 2321),
        is_path("/action/repeat/delay_ms"@, 2611),
        is_path("/action/delay/duration_ms"@, 2840),
        is_path("/action/set_state/key"@, 2443),
        is_path("/action/set_state/value"@, 2595),
{
    reveal_with_fuel(weight_to, 39);
    reveal_with_fuel(separate_to, 39);
    assert(is_path("/name"@, 767)) by {
        reveal_strlit("/name");
        lemma_path("/name"@, 767);
    }
    assert(is_path("/enabled"@, 1062)) by {
        reveal_strlit("/enabled");
        lemma_path("/enabled"@, 1062);
    }
    assert(is_path("/trigger/type"@, 1603)) by {
        reveal_strlit("/trigger/type");
        lemma_path("/trigger/type"@, 1603);
    }
    assert(is_path("/trigger/at"@, 1411)) by {
        reveal_strlit("/trigger/at");
        lemma_path("/trigger/at"@, 1411);
    }
    assert(is_path("/trigger/every_ms"@, 2069)) by {
        reveal_strlit("/trigger/every_ms");
        lemma_path("/trigger/every_ms"@, 2069);
    }
    assert(is_path("/trigger/rrule"@, 1707)) by {
        reveal_strlit("/trigger/rrule");
        lemma_path("/trigger/rrule"@, 1707);
    }
    assert(is_path("/trigger/timezone"@, 2028)) by {
        reveal_strlit("/trigger/timezone");
        lemma_path("/trigger/timezone"@, 2028);
    }
    assert(is_path("/trigger/name"@, 1570)) by {
        reveal_strlit("/trigger/name");
        lemma_path("/trigger/name"@, 1570);
    }
    assert(is_path("/trigger/match"@, 1687)) by {
        reveal_strlit("/trigger/match");
        lemma_path("/trigger/match"@, 1687);
    }
    assert(is_path("/action/type"@, 1485)) by {
        reveal_strlit("/action/type");
        lemma_path("/action/type"@, 1485);
    }
    assert(is_path("/action/call/tool"@, 1961)) by {
        reveal_strlit("/action/call/tool");
        lemma_path("/action/call/tool"@, 1961);
    }
    assert(is_path("/action/call/action"@, 2159)) by {
        reveal_strlit("/action/call/action");
        lemma_path("/action/call/action"@, 2159);
    }
    assert(is_path("/action/conditional/condition/source"@, 3925)) by {
        reveal_strlit("/action/conditional/condition/source");
        lemma_path("/action/conditional/condition/source"@, 3925);
    }
    assert(is_path("/action/conditional/condition/key"@, 3657)) by {
        reveal_strlit("/action/conditional/condition/key");
        lemma_path("/action/conditional/condition/key"@, 3657);
    }
    assert(is_path("/action/conditional/condition/operator"@, 4183)) by {
        reveal_strlit("/action/conditional/condition/operator");
        lemma_path("/action/conditional/condition/operator"@, 4183);
    }
    assert(is_path("/action/conditional/condition/value"@, 3809)) by {
        reveal_strlit("/action/conditional/condition/value");
        lemma_path("/action/conditional/condition/value"@, 3809);
    }
    assert(is_path("/action/repeat/count"@, 2321)) by {
        reveal_strlit("/action/repeat/count");
        lemma_path("/action/repeat/count"@, 2321);
    }
    assert(is_path("/action/repeat/delay_ms"@, 2611)) by {
        reveal_strlit("/action/repeat/delay_ms");
        lemma_path("/action/repeat/delay_ms"@, 2611);
    }
    assert(is_path("/action/delay/duration_ms"@, 2840)) by {
        reveal_strlit("/action/delay/duration_ms");
        lemma_path("/action/delay/duration_ms"@, 2840);
    }
    assert(is_path("/action/set_state/key"@, 2443)) by {
        reveal_strlit("/action/set_state/key");
        lemma_path("/action/set_state/key"@, 2443);
    }
    assert(is_path("/action/set_state/value"@, 2595)) by {
        reveal_strlit("/action/set_state/value");
        lemma_path("/action/set_state/value"@, 2595);
    }
}

proof fn lemma_fronts()
    ensures
        is_front("/action/call/args/filesystem/manage/"@, 3471),
        is_front("/action/call/args/filesystem/download/"@, 3710),
        is_front("/action/call/args/command/run/"@, 2837),
        is_front("/action/call/args/network/diagnose/"@, 3381),
        is_front("/action/call/args/visual/interact/"@, 3279),
        is_front("/action/call/args/android/launch/"@, 3133),
        is_front("/action/call/args/android/clipboard/"@, 3442),
{
    reveal_with_fuel(weight_to, 39);
    reveal_with_fuel(separate_to, 39);
    assert(is_front("/action/call/args/filesystem/manage/"@, 3471)) by {
        reveal_strlit("/action/call/args/filesystem/manage/");
        lemma_front("/action/call/args/filesystem/manage/"@, 3471);
    }
    assert(is_front("/action/call/args/filesystem/download/"@, 3710)) by {
        reveal_strlit("/action/call/args/filesystem/download/");
        lemma_front("/action/call/args/filesystem/download/"@, 3710);
    }
    assert(is_front("/action/call/args/command/run/"@, 2837)) by {
        reveal_strlit("/action/call/args/command/run/");
        lemma_front("/action/call/args/command/run/"@, 2837);
    }
    assert(is_front("/action/call/args/network/diagnose/"@, 3381)) by {
        reveal_strlit("/action/call/args/network/diagnose/");
        lemma_front("/action/call/args/network/diagnose/"@, 3381);
    }
    assert(is_front("/action/call/args/visual/interact/"@, 3279)) by {
        reveal_strlit("/action/call/args/visual/interact/");
        lemma_front("/action/call/args/visual/interact/"@, 3279);
    }
    assert(is_front("/action/call/args/android/launch/"@, 3133)) by {
        reveal_strlit("/action/call/args/android/launch/");
        lemma_front("/action/call/args/android/launch/"@, 3133);
    }
    assert(is_front("/action/call/args/android/clipboard/"@, 3442)) by {
        reveal_strlit("/action/call/args/android/clipboard/");
        lemma_front("/action/call/args/android/clipboard/"@, 3442);
    }
}

proof fn lemma_backs()
    ensures
        is_back("operation"@, 1307),
        is_back("target/type"@, 1447),
        is_back("target/value"@, 1538),
        is_back("source/type"@, 1457),
        is_back("source/value"@, 1548),
        is_back("destination/type"@, 1986),
        is_back("destination/value"@, 2077),
        is_back("parents"@, 1110),
        is_back("recursive"@, 1287),
        is_back("overwrite"@, 1302),
        is_back("url"@, 663),
        is_back("timeout_ms"@, 1439),
        is_back("command"@, 1035),
        is_back("run_as"@, 993),
        is_back("cwd"@, 618),
        is_back("stdin"@, 876),
        is_back("max_output_bytes"@, 2101),
        is_back("as_task"@, 1063),
        is_back("test"@, 796),
        is_back("name"@, 720),
        is_back("record_type"@, 1487),
        is_back("host"@, 794),
        is_back("port"@, 801),
        is_back("server_name"@, 1478),
        is_back("destination_ip"@, 1834),
        is_back("target"@, 995),
        is_back("node_ref"@, 1140),
        is_back("observation_id"@, 1796),
        is_back("x"@, 480),
        is_back("y"@, 484),
        is_back("from_x"@, 1011),
        is_back("from_y"@, 1015),
        is_back("to_x"@, 802),
        is_back("to_y"@, 806),
        is_back("duration_ms"@, 1534),
        is_back("text"@, 801),
        is_back("key_code"@, 1138),
        is_back("meta_state"@, 1366),
        is_back("package_name"@, 1531),
        is_back("class_name"@, 1349),
{
    reveal_with_fuel(weight_to, 18);
    reveal_with_fuel(separate_to, 18);
    assert(is_back("operation"@, 1307)) by {
        reveal_strlit("operation");
        lemma_back("operation"@, 1307);
    }
    assert(is_back("target/type"@, 1447)) by {
        reveal_strlit("target/type");
        lemma_back("target/type"@, 1447);
    }
    assert(is_back("target/value"@, 1538)) by {
        reveal_strlit("target/value");
        lemma_back("target/value"@, 1538);
    }
    assert(is_back("source/type"@, 1457)) by {
        reveal_strlit("source/type");
        lemma_back("source/type"@, 1457);
    }
    assert(is_back("source/value"@, 1548)) by {
        reveal_strlit("source/value");
        lemma_back("source/value"@, 1548);
    }
    assert(is_back("destination/type"@, 1986)) by {
        reveal_strlit("destination/type");
        lemma_back("destination/type"@, 1986);
    }
    assert(is_back("destination/value"@, 2077)) by {
        reveal_strlit("destination/value");
        lemma_back("destination/value"@, 2077);
    }
    assert(is_back("parents"@, 1110)) by {
        reveal_strlit("parents");
        lemma_back("parents"@, 1110);
    }
    assert(is_back("recursive"@, 1287)) by {
        reveal_strlit("recursive");
        lemma_back("recursive"@, 1287);
    }
    assert(is_back("overwrite"@, 1302)) by {
        reveal_strlit("overwrite");
        lemma_back("overwrite"@, 1302);
    }
    assert(is_back("url"@, 663)) by {
        reveal_strlit("url");
        lemma_back("url"@, 663);
    }
    assert(is_back("timeout_ms"@, 1439)) by {
        reveal_strlit("timeout_ms");
        lemma_back("timeout_ms"@, 1439);
    }
    assert(is_back("command"@, 1035)) by {
        reveal_strlit("command");
        lemma_back("command"@, 1035);
    }
    assert(is_back("run_as"@, 993)) by {
        reveal_strlit("run_as");
        lemma_back("run_as"@, 993);
    }
    assert(is_back("cwd"@, 618)) by {
        reveal_strlit("cwd");
        lemma_back("cwd"@, 618);
    }
    assert(is_back("stdin"@, 876)) by {
        reveal_strlit("stdin");
        lemma_back("stdin"@, 876);
    }
    assert(is_back("max_output_bytes"@, 2101)) by {
        reveal_strlit("max_output_bytes");
        lemma_back("max_output_bytes"@, 2101);
    }
    assert(is_back("as_task"@, 1063)) by {
        reveal_strlit("as_task");
        lemma_back("as_task"@, 1063);
    }
    assert(is_back("test"@, 796)) by {
        reveal_strlit("test");
        lemma_back("test"@, 796);
    }
    assert(is_back("name"@, 720)) by {
        reveal_strlit("name");
        lemma_back("name"@, 720);
    }
    assert(is_back("record_type"@, 1487)) by {
        reveal_strlit("record_type");
        lemma_back("record_type"@, 1487);
    }
    assert(is_back("host"@, 794)) by {
        reveal_strlit("host");
        lemma_back("host"@, 794);
    }
    assert(is_back("port"@, 801)) by {
        reveal_strlit("port");
        lemma_back("port"@, 801);
    }
    assert(is_back("server_name"@, 1478)) by {
        reveal_strlit("server_name");
        lemma_back("server_name"@, 1478);
    }
    assert(is_back("destination_ip"@, 1834)) by {
        reveal_strlit("destination_ip");
        lemma_back("destination_ip"@, 1834);
    }
    assert(is_back("target"@, 995)) by {
        reveal_strlit("target");
        lemma_back("target"@, 995);
    }
    assert(is_back("node_ref"@, 1140)) by {
        reveal_strlit("node_ref");
        lemma_back("node_ref"@, 1140);
    }
    assert(is_back("observation_id"@, 1796)) by {
        reveal_strlit("observation_id");
        lemma_back("observation_id"@, 1796);
    }
    assert(is_back("x"@, 480)) by {
        reveal_strlit("x");
        lemma_back("x"@, 480);
    }
    assert(is_back("y"@, 484)) by {
        reveal_strlit("y");
        lemma_back("y"@, 484);
    }
    assert(is_back("from_x"@, 1011)) by {
        reveal_strlit("from_x");
        lemma_back("from_x"@, 1011);
    }
    assert(is_back("from_y"@, 1015)) by {
        reveal_strlit("from_y");
        lemma_back("from_y"@, 1015);
    }
    assert(is_back("to_x"@, 802)) by {
        reveal_strlit("to_x");
        lemma_back("to_x"@, 802);
    }
    assert(is_back("to_y"@, 806)) by {
        reveal_strlit("to_y");
        lemma_back("to_y"@, 806);
    }
    assert(is_back("duration_ms"@, 1534)) by {
        reveal_strlit("duration_ms");
        lemma_back("duration_ms"@, 1534);
    }
    assert(is_back("text"@, 801)) by {
        reveal_strlit("text");
        lemma_back("text"@, 801);
    }
    assert(is_back("key_code"@, 1138)) by {
        reveal_strlit("key_code");
        lemma_back("key_code"@, 1138);
    }
    assert(is_back("meta_state"@, 1366)) by {
        reveal_strlit("meta_state");
        lemma_back("meta_state"@, 1366);
    }
    assert(is_back("package_name"@, 1531)) by {
        reveal_strlit("package_name");
        lemma_back("package_name"@, 1531);
    }
    assert(is_back("class_name"@, 1349)) by {
        reveal_strlit("class_name");
        lemma_back("class_name"@, 1349);
    }
}

proof fn lemma_value_lists()
    ensures
        seq!["at"@, "interval"@, "rrule"@, "event"@].no_duplicates(),
        seq!["call"@, "sequence"@, "conditional"@, "repeat"@, "delay"@, "set_state"@].no_duplicates(),
        seq!["filesystem"@, "command"@, "network"@, "visual"@, "android"@].no_duplicates(),
        seq!["state"@, "trigger"@].no_duplicates(),
        seq!["equals"@, "not_equals"@, "greater_than"@, "less_than"@, "exists"@].no_duplicates(),
        seq!["equals"@, "not_equals"@, "greater_than"@, "less_than"@].no_duplicates(),
        seq!["mkdir"@, "copy"@, "move"@, "delete"@].no_duplicates(),
        seq!["path"@, "content_uri"@].no_duplicates(),
        seq!["mkdir"@, "delete"@].no_duplicates(),
        seq!["copy"@, "move"@].no_duplicates(),
        seq!["copy"@, "move"@, "delete"@].no_duplicates(),
        seq!["app"@, "shell"@, "root"@].no_duplicates(),
        seq!["connectivity"@, "dns"@, "tcp"@, "tls"@, "route"@].no_duplicates(),
        seq!["A"@, "AAAA"@].no_duplicates(),
        seq!["tcp"@, "tls"@].no_duplicates(),
        seq!["tap"@, "long_press"@, "swipe"@, "text"@, "key"@].no_duplicates(),
        seq!["node"@, "coordinate"@].no_duplicates(),
        seq!["tap"@, "long_press"@].no_duplicates(),
        seq!["package"@, "component"@].no_duplicates(),
        seq!["read"@, "write"@, "clear"@].no_duplicates(),
{
    assert(seq!["at"@, "interval"@, "rrule"@, "event"@].no_duplicates()) by {
        reveal_strlit("at");
        reveal_strlit("interval");
        reveal_strlit("rrule");
        reveal_strlit("event");
        reveal_with_fuel(weight_to, 9);
        lemma_distinct(seq!["at"@, "interval"@, "rrule"@, "event"@], seq![213int, 869int, 554int, 546int]);
    }
    assert(seq!["call"@, "sequence"@, "conditional"@, "repeat"@, "delay"@, "set_state"@].no_duplicates()) by {
        reveal_strlit("call");
        reveal_strlit("sequence");
        reveal_strlit("conditional");
        reveal_strlit("repeat");
        reveal_strlit("delay");
        reveal_strlit("set_state");
        reveal_with_fuel(weight_to, 12);
        lemma_distinct(seq!["call"@, "sequence"@, "conditional"@, "repeat"@, "delay"@, "set_state"@], seq![412int, 857int, 1172int, 641int, 527int, 972int]);
    }
    assert(seq!["filesystem"@, "command"@, "network"@, "visual"@, "android"@].no_duplicates()) by {
        reveal_strlit("filesystem");
        reveal_strlit("command");
        reveal_strlit("network");
        reveal_strlit("visual");
        reveal_strlit("android");
        reveal_with_fuel(weight_to, 11);
        lemma_distinct(seq!["filesystem"@, "command"@, "network"@, "visual"@, "android"@], seq![1093int, 735int, 778int, 660int, 737int]);
    }
    assert(seq!["state"@, "trigger"@].no_duplicates()) by {
        reveal_strlit("state");
        reveal_strlit("trigger");
        reveal_with_fuel(weight_to, 8);
        lemma_distinct(seq!["state"@, "trigger"@], seq![545int, 756int]);
    }
    assert(seq!["equals"@, "not_equals"@, "greater_than"@, "less_than"@, "exists"@].no_duplicates()) by {
        reveal_strlit("equals");
        reveal_strlit("not_equals");
        reveal_strlit("greater_than");
        reveal_strlit("less_than");
        reveal_strlit("exists");
        reveal_with_fuel(weight_to, 13);
        lemma_distinct(seq!["equals"@, "not_equals"@, "greater_than"@, "less_than"@, "exists"@], seq![651int, 1083int, 1268int, 961int, 672int]);
    }
    assert(seq!["equals"@, "not_equals"@, "greater_than"@, "less_than"@].no_duplicates()) by {
        reveal_strlit("equals");
        reveal_strlit("not_equals");
        reveal_strlit("greater_than");
        reveal_strlit("less_than");
        reveal_with_fuel(weight_to, 13);
        lemma_distinct(seq!["equals"@, "not_equals"@, "greater_than"@, "less_than"@], seq![651int, 1083int, 1268int, 961int]);
    }
    assert(seq!["mkdir"@, "copy"@, "move"@, "delete"@].no_duplicates()) by {
        reveal_strlit("mkdir");
        reveal_strlit("copy");
        reveal_strlit("move");
        reveal_strlit("delete");
        reveal_with_fuel(weight_to, 7);
        lemma_distinct(seq!["mkdir"@, "copy"@, "move"@, "delete"@], seq![535int, 443int, 439int, 627int]);
    }
    assert(seq!["path"@, "content_uri"@].no_duplicates()) by {
        reveal_strlit("path");
        reveal_strlit("content_uri");
        reveal_with_fuel(weight_to, 12);
        lemma_distinct(seq!["path"@, "content_uri"@], seq![429int, 1194int]);
    }
    assert(seq!["mkdir"@, "delete"@].no_duplicates()) by {
        reveal_strlit("mkdir");
        reveal_strlit("delete");
        reveal_with_fuel(weight_to, 7);
        lemma_distinct(seq!["mkdir"@, "delete"@], seq![535int, 627int]);
    }
    assert(seq!["copy"@, "move"@].no_duplicates()) by {
        reveal_strlit("copy");
        reveal_strlit("move");
        reveal_with_fuel(weight_to, 5);
        lemma_distinct(seq!["copy"@, "move"@], seq![443int, 439int]);
    }
    assert(seq!["copy"@, "move"@, "delete"@].no_duplicates()) by {
        reveal_strlit("copy");
        reveal_strlit("move");
        reveal_strlit("delete");
        reveal_with_fuel(weight_to, 7);
        lemma_distinct(seq!["copy"@, "move"@, "delete"@], seq![443int, 439int, 627int]);
    }
    assert(seq!["app"@, "shell"@, "root"@].no_duplicates()) by {
        reveal_strlit("app");
        reveal_strlit("shell");
        reveal_strlit("root");
        reveal_with_fuel(weight_to, 6);
        lemma_distinct(seq!["app"@, "shell"@, "root"@], seq![321int, 536int, 452int]);
    }
    assert(seq!["connectivity"@, "dns"@, "tcp"@, "tls"@, "route"@].no_duplicates()) by {
        reveal_strlit("connectivity");
        reveal_strlit("dns");
        reveal_strlit("tcp");
        reveal_strlit("tls");
        reveal_strlit("route");
        reveal_with_fuel(weight_to, 13);
        lemma_distinct(seq!["connectivity"@, "dns"@, "tcp"@, "tls"@, "route"@], seq![1311int, 325int, 327int, 339int, 559int]);
    }
    assert(seq!["A"@, "AAAA"@].no_duplicates()) by {
        reveal_strlit("A");
        reveal_strlit("AAAA");
        reveal_with_fuel(weight_to, 5);
        lemma_distinct(seq!["A"@, "AAAA"@], seq![65int, 260int]);
    }
    assert(seq!["tcp"@, "tls"@].no_duplicates()) by {
        reveal_strlit("tcp");
        reveal_strlit("tls");
        reveal_with_fuel(weight_to, 4);
        lemma_distinct(seq!["tcp"@, "tls"@], seq![327int, 339int]);
    }
    assert(seq!["tap"@, "long_press"@, "swipe"@, "text"@, "key"@].no_duplicates()) by {
        reveal_strlit("tap");
        reveal_strlit("long_press");
        reveal_strlit("swipe");
        reveal_strlit("text");
        reveal_strlit("key");
        reveal_with_fuel(weight_to, 11);
        lemma_distinct(seq!["tap"@, "long_press"@, "swipe"@, "text"@, "key"@], seq![325int, 1084int, 552int, 453int, 329int]);
    }
    assert(seq!["node"@, "coordinate"@].no_duplicates()) by {
        reveal_strlit("node");
        reveal_strlit("coordinate");
        reveal_with_fuel(weight_to, 11);
        lemma_distinct(seq!["node"@, "coordinate"@], seq![422int, 1064int]);
    }
    assert(seq!["tap"@, "long_press"@].no_duplicates()) by {
        reveal_strlit("tap");
        reveal_strlit("long_press");
        reveal_with_fuel(weight_to, 11);
        lemma_distinct(seq!["tap"@, "long_press"@], seq![325int, 1084int]);
    }
    assert(seq!["package"@, "component"@].no_duplicates()) by {
        reveal_strlit("package");
        reveal_strlit("component");
        reveal_with_fuel(weight_to, 10);
        lemma_distinct(seq!["package"@, "component"@], seq![716int, 979int]);
    }
    assert(seq!["read"@, "write"@, "clear"@].no_duplicates()) by {
        reveal_strlit("read");
        reveal_strlit("write");
        reveal_strlit("clear");
        reveal_with_fuel(weight_to, 6);
        lemma_distinct(seq!["read"@, "write"@, "clear"@], seq![412int, 555int, 519int]);
    }
}

/// The number of the path of every field.
spec fn numbers() -> Seq<int> {
    seq![
        767int, 1062int, 1603int, 1411int, 2069int, 1707int, 2028int, 1570int,
        1687int, 1485int, 1961int, 2159int, 2159int, 2159int, 2159int, 2159int,
        3925int, 3657int, 4183int, 3809int, 2321int, 2611int, 2840int, 2443int,
        2595int, 4778int, 4918int, 5009int, 4928int, 5019int, 5457int, 5548int,
        4581int, 4758int, 4773int, 4373int, 5696int, 5787int, 5012int, 5149int,
        3872int, 3830int, 3455int, 3713int, 4276int, 4938int, 3900int, 4177int,
        4101int, 4868int, 4175int, 4182int, 4182int, 4859int, 4820int, 4820int,
        5215int, 4586int, 4274int, 4419int, 5075int, 3759int, 3763int, 5075int,
        4290int, 4294int, 4081int, 4085int, 4813int, 4080int, 4419int, 4417int,
        4645int, 4440int, 4664int, 4482int, 4749int, 4243int,
    ]
}

proof fn lemma_one(path: Seq<char>, value: Seq<char>)
    ensures
        well_formed_condition(one_of_values(path, seq![value])),
{
    lemma_condition(path, seq![value]);
}

proof fn lemma_call(tool: Seq<char>, action: Seq<char>)
    ensures
        well_formed_condition(one_of_values("/action/call/tool"@, seq![tool])),
        well_formed_condition(one_of_values("/action/call/action"@, seq![action])),
{
    lemma_one("/action/call/tool"@, tool);
    lemma_one("/action/call/action"@, action);
}

proof fn lemma_compatible(rows: Seq<ActionSpec>, tool: Seq<char>)
    requires
        forall|i: int, j: int|
            0 <= i < j < rows.len() && (#[trigger] rows[i]).automation_compatible && (
            #[trigger] rows[j]).automation_compatible && rows[i].tool@ == rows[j].tool@
                ==> rows[i].action@ != rows[j].action@,
    ensures
        compatible_actions(rows, tool).no_duplicates(),
        forall|action: Seq<char>| #[trigger]
            compatible_actions(rows, tool).contains(action) <==> exists|i: int|
                0 <= i < rows.len() && (#[trigger] rows[i]).automation_compatible && rows[i].tool@
                    == tool && rows[i].action@ == action,
    decreases rows.len(),
{
    if rows.len() > 0 {
        let front = rows.drop_last();
        lemma_compatible(front, tool);
        let earlier = compatible_actions(front, tool);
        let all = compatible_actions(rows, tool);
        let last = rows.last();
        assert(rows[rows.len() - 1] == last);
        if last.tool@ == tool && last.automation_compatible {
            if earlier.contains(last.action@) {
                let i = choose|i: int|
                    0 <= i < front.len() && (#[trigger] front[i]).automation_compatible
                        && front[i].tool@ == tool && front[i].action@ == last.action@;
                assert(rows[i] == front[i]);
            }
            assert(all[earlier.len() as int] == last.action@);
        }
        assert forall|action: Seq<char>| #[trigger] all.contains(action) <==> exists|i: int|
            0 <= i < rows.len() && (#[trigger] rows[i]).automation_compatible && rows[i].tool@
                == tool && rows[i].action@ == action by {
            if all.contains(action) {
                let at = choose|at: int| 0 <= at < all.len() && all[at] == action;
                if at < earlier.len() {
                    assert(earlier[at] == action);
                    assert(earlier.contains(action));
                    let i = choose|i: int|
                        0 <= i < front.len() && (#[trigger] front[i]).automation_compatible
                            && front[i].tool@ == tool && front[i].action@ == action;
                    assert(rows[i] == front[i]);
                }
            }
            if exists|i: int|
                0 <= i < rows.len() && (#[trigger] rows[i]).automation_compatible && rows[i].tool@
                    == tool && rows[i].action@ == action {
                let i = choose|i: int|
                    0 <= i < rows.len() && (#[trigger] rows[i]).automation_compatible
                        && rows[i].tool@ == tool && rows[i].action@ == action;
                if i < front.len() {
                    assert(front[i] == rows[i]);
                    assert(earlier.contains(action));
                    let at = choose|at: int| 0 <= at < earlier.len() && earlier[at] == action;
                    assert(all[at] == action);
                }
            }
        }
    }
}

proof fn lemma_offers_actions(tool: Seq<char>, row: int)
    requires
        0 <= row < action_table().len(),
        action_table()[row].automation_compatible,
        action_table()[row].tool@ == tool,
    ensures
        offers(wire_options(compatible_actions(action_table(), tool))),
{
    let rows = action_table();
    assert forall|i: int, j: int|
        0 <= i < j < rows.len() && (#[trigger] rows[i]).automation_compatible && (
        #[trigger] rows[j]).automation_compatible && rows[i].tool@ == rows[j].tool@ implies
        rows[i].action@ != rows[j].action@ by {
        reveal_strlit("filesystem");
        reveal_strlit("command");
        reveal_strlit("network");
        reveal_strlit("visual");
        reveal_strlit("android");
        reveal_strlit("manage");
        reveal_strlit("download");
        reveal_strlit("launch");
        reveal_strlit("clipboard");
        assert(rows[i].tool@[0] == rows[j].tool@[0]);
        assert(rows[i].action@.len() > 0 ==> rows[i].action@[0] != rows[j].action@[0]);
    }
    lemma_compatible(rows, tool);
    let actions = compatible_actions(rows, tool);
    assert(actions.contains(rows[row].action@));
    lemma_options_from(wire_options(actions), actions, 0);
}

proof fn lemma_call_choices()
    ensures
        offers(wire_options(compatible_actions(action_table(), "filesystem"@))),
        offers(wire_options(compatible_actions(action_table(), "command"@))),
        offers(wire_options(compatible_actions(action_table(), "network"@))),
        offers(wire_options(compatible_actions(action_table(), "visual"@))),
        offers(wire_options(compatible_actions(action_table(), "android"@))),
{
    lemma_offers_actions("filesystem"@, 5);
    lemma_offers_actions("command"@, 8);
    lemma_offers_actions("network"@, 12);
    lemma_offers_actions("visual"@, 15);
    lemma_offers_actions("android"@, 17);
}

proof fn lemma_general()
    ensures
        general_fields().len() == 9,
        forall|i: int|
            0 <= i < 9 ==> is_sound(#[trigger] general_fields()[i], numbers()[i]),
{
    let fields = general_fields();
    lemma_paths();
    lemma_fronts();
    lemma_backs();
    lemma_value_lists();
    assert(is_sound(fields[0], 767)) by {
        reveal_strlit("automation_name");
        lemma_sound(fields[0], 767);
    }
    assert(is_sound(fields[1], 1062)) by {
        reveal_strlit("automation_enabled");
        lemma_sound(fields[1], 1062);
    }
    assert(is_sound(fields[2], 1603)) by {
        reveal_strlit("field_trigger_type");
        reveal_strlit("trigger_at");
        reveal_strlit("trigger_interval");
        reveal_strlit("trigger_rrule");
        reveal_strlit("trigger_event");
        lemma_options_from(fields[2].options->0, seq!["at"@, "interval"@, "rrule"@, "event"@], 0);
        lemma_sound(fields[2], 1603);
    }
    assert(is_sound(fields[3], 1411)) by {
        reveal_strlit("field_trigger_at");
        lemma_one("/trigger/type"@, "at"@);
        lemma_sound(fields[3], 1411);
    }
    assert(is_sound(fields[4], 2069)) by {
        reveal_strlit("field_trigger_every_ms");
        lemma_one("/trigger/type"@, "interval"@);
        lemma_sound(fields[4], 2069);
    }
    assert(is_sound(fields[5], 1707)) by {
        reveal_strlit("field_trigger_rrule");
        lemma_one("/trigger/type"@, "rrule"@);
        lemma_sound(fields[5], 1707);
    }
    assert(is_sound(fields[6], 2028)) by {
        reveal_strlit("field_trigger_timezone");
        lemma_one("/trigger/type"@, "rrule"@);
        lemma_sound(fields[6], 2028);
    }
    assert(is_sound(fields[7], 1570)) by {
        reveal_strlit("field_trigger_event_name");
        lemma_one("/trigger/type"@, "event"@);
        lemma_sound(fields[7], 1570);
    }
    assert(is_sound(fields[8], 1687)) by {
        reveal_strlit("field_trigger_event_match");
        lemma_one("/trigger/type"@, "event"@);
        lemma_sound(fields[8], 1687);
    }
}

proof fn lemma_action_choice()
    ensures
        action_choice_fields().len() == 7,
        forall|i: int|
            0 <= i < 7 ==> is_sound(#[trigger] action_choice_fields()[i], numbers()[9 + i]),
{
    let fields = action_choice_fields();
    lemma_paths();
    lemma_fronts();
    lemma_backs();
    lemma_value_lists();
    lemma_call_choices();
    assert(is_sound(fields[0], 1485)) by {
        reveal_strlit("field_action_type");
        reveal_strlit("action_node_call");
        reveal_strlit("action_node_sequence");
        reveal_strlit("action_node_conditional");
        reveal_strlit("action_node_repeat");
        reveal_strlit("action_node_delay");
        reveal_strlit("action_node_set_state");
        lemma_options_from(fields[0].options->0, seq!["call"@, "sequence"@, "conditional"@, "repeat"@, "delay"@, "set_state"@], 0);
        lemma_sound(fields[0], 1485);
    }
    assert(is_sound(fields[1], 1961)) by {
        reveal_strlit("task_detail_tool");
        lemma_one("/action/type"@, "call"@);
        lemma_options_from(fields[1].options->0, seq!["filesystem"@, "command"@, "network"@, "visual"@, "android"@], 0);
        lemma_sound(fields[1], 1961);
    }
    assert(is_sound(fields[2], 2159)) by {
        reveal_strlit("task_detail_action");
        lemma_one("/action/type"@, "call"@);
        lemma_one("/action/call/tool"@, "filesystem"@);
        lemma_sound(fields[2], 2159);
    }
    assert(is_sound(fields[3], 2159)) by {
        reveal_strlit("task_detail_action");
        lemma_one("/action/type"@, "call"@);
        lemma_one("/action/call/tool"@, "command"@);
        lemma_sound(fields[3], 2159);
    }
    assert(is_sound(fields[4], 2159)) by {
        reveal_strlit("task_detail_action");
        lemma_one("/action/type"@, "call"@);
        lemma_one("/action/call/tool"@, "network"@);
        lemma_sound(fields[4], 2159);
    }
    assert(is_sound(fields[5], 2159)) by {
        reveal_strlit("task_detail_action");
        lemma_one("/action/type"@, "call"@);
        lemma_one("/action/call/tool"@, "visual"@);
        lemma_sound(fields[5], 2159);
    }
    assert(is_sound(fields[6], 2159)) by {
        reveal_strlit("task_detail_action");
        lemma_one("/action/type"@, "call"@);
        lemma_one("/action/call/tool"@, "android"@);
        lemma_sound(fields[6], 2159);
    }
}

proof fn lemma_action_node()
    ensures
        action_node_fields().len() == 9,
        forall|i: int|
            0 <= i < 9 ==> is_sound(#[trigger] action_node_fields()[i], numbers()[16 + i]),
{
    let fields = action_node_fields();
    lemma_paths();
    lemma_fronts();
    lemma_backs();
    lemma_value_lists();
    assert(is_sound(fields[0], 3925)) by {
        reveal_strlit("field_condition_source");
        lemma_one("/action/type"@, "conditional"@);
        lemma_options_from(fields[0].options->0, seq!["state"@, "trigger"@], 0);
        lemma_sound(fields[0], 3925);
    }
    assert(is_sound(fields[1], 3657)) by {
        reveal_strlit("field_condition_key");
        lemma_one("/action/type"@, "conditional"@);
        lemma_sound(fields[1], 3657);
    }
    assert(is_sound(fields[2], 4183)) by {
        reveal_strlit("field_condition_operator");
        lemma_one("/action/type"@, "conditional"@);
        lemma_options_from(fields[2].options->0, seq!["equals"@, "not_equals"@, "greater_than"@, "less_than"@, "exists"@], 0);
        lemma_sound(fields[2], 4183);
    }
    assert(is_sound(fields[3], 3809)) by {
        reveal_strlit("field_condition_value");
        lemma_one("/action/type"@, "conditional"@);
        lemma_condition("/action/conditional/condition/operator"@, seq!["equals"@, "not_equals"@, "greater_than"@, "less_than"@]);
        lemma_sound(fields[3], 3809);
    }
    assert(is_sound(fields[4], 2321)) by {
        reveal_strlit("field_repeat_count");
        lemma_one("/action/type"@, "repeat"@);
        lemma_sound(fields[4], 2321);
    }
    assert(is_sound(fields[5], 2611)) by {
        reveal_strlit("field_repeat_delay_ms");
        lemma_one("/action/type"@, "repeat"@);
        lemma_sound(fields[5], 2611);
    }
    assert(is_sound(fields[6], 2840)) by {
        reveal_strlit("field_delay_duration_ms");
        lemma_one("/action/type"@, "delay"@);
        lemma_sound(fields[6], 2840);
    }
    assert(is_sound(fields[7], 2443)) by {
        reveal_strlit("field_state_key");
        lemma_one("/action/type"@, "set_state"@);
        lemma_sound(fields[7], 2443);
    }
    assert(is_sound(fields[8], 2595)) by {
        reveal_strlit("field_state_value");
        lemma_one("/action/type"@, "set_state"@);
        lemma_sound(fields[8], 2595);
    }
}

proof fn lemma_filesystem()
    ensures
        filesystem_fields().len() == 15,
        forall|i: int|
            0 <= i < 15 ==> is_sound(#[trigger] filesystem_fields()[i], numbers()[25 + i]),
{
    let fields = filesystem_fields();
    lemma_paths();
    lemma_fronts();
    lemma_backs();
    lemma_value_lists();
    assert(is_sound(fields[0], 4778)) by {
        lemma_joined("/action/call/args/filesystem/manage/"@, "operation"@, 3471, 1307);
        lemma_call("filesystem"@, "manage"@);
        lemma_options_from(fields[0].options->0, seq!["mkdir"@, "copy"@, "move"@, "delete"@], 0);
        lemma_sound(fields[0], 4778);
    }
    assert(is_sound(fields[1], 4918)) by {
        lemma_joined("/action/call/args/filesystem/manage/"@, "target/type"@, 3471, 1447);
        lemma_call("filesystem"@, "manage"@);
        lemma_condition("/action/call/args/filesystem/manage/"@ + "operation"@, seq!["mkdir"@, "delete"@]);
        lemma_options_from(fields[1].options->0, seq!["path"@, "content_uri"@], 0);
        lemma_sound(fields[1], 4918);
    }
    assert(is_sound(fields[2], 5009)) by {
        lemma_joined("/action/call/args/filesystem/manage/"@, "target/value"@, 3471, 1538);
        lemma_call("filesystem"@, "manage"@);
        lemma_condition("/action/call/args/filesystem/manage/"@ + "operation"@, seq!["mkdir"@, "delete"@]);
        lemma_sound(fields[2], 5009);
    }
    assert(is_sound(fields[3], 4928)) by {
        lemma_joined("/action/call/args/filesystem/manage/"@, "source/type"@, 3471, 1457);
        lemma_call("filesystem"@, "manage"@);
        lemma_condition("/action/call/args/filesystem/manage/"@ + "operation"@, seq!["copy"@, "move"@]);
        lemma_options_from(fields[3].options->0, seq!["path"@, "content_uri"@], 0);
        lemma_sound(fields[3], 4928);
    }
    assert(is_sound(fields[4], 5019)) by {
        lemma_joined("/action/call/args/filesystem/manage/"@, "source/value"@, 3471, 1548);
        lemma_call("filesystem"@, "manage"@);
        lemma_condition("/action/call/args/filesystem/manage/"@ + "operation"@, seq!["copy"@, "move"@]);
        lemma_sound(fields[4], 5019);
    }
    assert(is_sound(fields[5], 5457)) by {
        lemma_joined("/action/call/args/filesystem/manage/"@, "destination/type"@, 3471, 1986);
        lemma_call("filesystem"@, "manage"@);
        lemma_condition("/action/call/args/filesystem/manage/"@ + "operation"@, seq!["copy"@, "move"@]);
        lemma_options_from(fields[5].options->0, seq!["path"@, "content_uri"@], 0);
        lemma_sound(fields[5], 5457);
    }
    assert(is_sound(fields[6], 5548)) by {
        lemma_joined("/action/call/args/filesystem/manage/"@, "destination/value"@, 3471, 2077);
        lemma_call("filesystem"@, "manage"@);
        lemma_condition("/action/call/args/filesystem/manage/"@ + "operation"@, seq!["copy"@, "move"@]);
        lemma_sound(fields[6], 5548);
    }
    assert(is_sound(fields[7], 4581)) by {
        lemma_joined("/action/call/args/filesystem/manage/"@, "parents"@, 3471, 1110);
        lemma_call("filesystem"@, "manage"@);
        lemma_one("/action/call/args/filesystem/manage/"@ + "operation"@, "mkdir"@);
        lemma_sound(fields[7], 4581);
    }
    assert(is_sound(fields[8], 4758)) by {
        lemma_joined("/action/call/args/filesystem/manage/"@, "recursive"@, 3471, 1287);
        lemma_call("filesystem"@, "manage"@);
        lemma_condition("/action/call/args/filesystem/manage/"@ + "operation"@, seq!["copy"@, "move"@, "delete"@]);
        lemma_sound(fields[8], 4758);
    }
    assert(is_sound(fields[9], 4773)) by {
        lemma_joined("/action/call/args/filesystem/manage/"@, "overwrite"@, 3471, 1302);
        lemma_call("filesystem"@, "manage"@);
        lemma_condition("/action/call/args/filesystem/manage/"@ + "operation"@, seq!["copy"@, "move"@]);
        lemma_sound(fields[9], 4773);
    }
    assert(is_sound(fields[10], 4373)) by {
        lemma_joined("/action/call/args/filesystem/download/"@, "url"@, 3710, 663);
        lemma_call("filesystem"@, "download"@);
        lemma_sound(fields[10], 4373);
    }
    assert(is_sound(fields[11], 5696)) by {
        lemma_joined("/action/call/args/filesystem/download/"@, "destination/type"@, 3710, 1986);
        lemma_call("filesystem"@, "download"@);
        lemma_options_from(fields[11].options->0, seq!["path"@, "content_uri"@], 0);
        lemma_sound(fields[11], 5696);
    }
    assert(is_sound(fields[12], 5787)) by {
        lemma_joined("/action/call/args/filesystem/download/"@, "destination/value"@, 3710, 2077);
        lemma_call("filesystem"@, "download"@);
        lemma_sound(fields[12], 5787);
    }
    assert(is_sound(fields[13], 5012)) by {
        lemma_joined("/action/call/args/filesystem/download/"@, "overwrite"@, 3710, 1302);
        lemma_call("filesystem"@, "download"@);
        lemma_sound(fields[13], 5012);
    }
    assert(is_sound(fields[14], 5149)) by {
        lemma_joined("/action/call/args/filesystem/download/"@, "timeout_ms"@, 3710, 1439);
        lemma_call("filesystem"@, "download"@);
        lemma_sound(fields[14], 5149);
    }
}

proof fn lemma_command()
    ensures
        command_fields().len() == 7,
        forall|i: int|
            0 <= i < 7 ==> is_sound(#[trigger] command_fields()[i], numbers()[40 + i]),
{
    let fields = command_fields();
    lemma_paths();
    lemma_fronts();
    lemma_backs();
    lemma_value_lists();
    assert(is_sound(fields[0], 3872)) by {
        lemma_joined("/action/call/args/command/run/"@, "command"@, 2837, 1035);
        lemma_call("command"@, "run"@);
        lemma_sound(fields[0], 3872);
    }
    assert(is_sound(fields[1], 3830)) by {
        lemma_joined("/action/call/args/command/run/"@, "run_as"@, 2837, 993);
        lemma_call("command"@, "run"@);
        lemma_options_from(fields[1].options->0, seq!["app"@, "shell"@, "root"@], 0);
        lemma_sound(fields[1], 3830);
    }
    assert(is_sound(fields[2], 3455)) by {
        lemma_joined("/action/call/args/command/run/"@, "cwd"@, 2837, 618);
        lemma_call("command"@, "run"@);
        lemma_sound(fields[2], 3455);
    }
    assert(is_sound(fields[3], 3713)) by {
        lemma_joined("/action/call/args/command/run/"@, "stdin"@, 2837, 876);
        lemma_call("command"@, "run"@);
        lemma_sound(fields[3], 3713);
    }
    assert(is_sound(fields[4], 4276)) by {
        lemma_joined("/action/call/args/command/run/"@, "timeout_ms"@, 2837, 1439);
        lemma_call("command"@, "run"@);
        lemma_sound(fields[4], 4276);
    }
    assert(is_sound(fields[5], 4938)) by {
        lemma_joined("/action/call/args/command/run/"@, "max_output_bytes"@, 2837, 2101);
        lemma_call("command"@, "run"@);
        lemma_sound(fields[5], 4938);
    }
    assert(is_sound(fields[6], 3900)) by {
        lemma_joined("/action/call/args/command/run/"@, "as_task"@, 2837, 1063);
        lemma_call("command"@, "run"@);
        lemma_sound(fields[6], 3900);
    }
}

proof fn lemma_network()
    ensures
        network_fields().len() == 10,
        forall|i: int|
            0 <= i < 10 ==> is_sound(#[trigger] network_fields()[i], numbers()[47 + i]),
{
    let fields = network_fields();
    lemma_paths();
    lemma_fronts();
    lemma_backs();
    lemma_value_lists();
    assert(is_sound(fields[0], 4177)) by {
        lemma_joined("/action/call/args/network/diagnose/"@, "test"@, 3381, 796);
        lemma_call("network"@, "diagnose"@);
        lemma_options_from(fields[0].options->0, seq!["connectivity"@, "dns"@, "tcp"@, "tls"@, "route"@], 0);
        lemma_sound(fields[0], 4177);
    }
    assert(is_sound(fields[1], 4101)) by {
        lemma_joined("/action/call/args/network/diagnose/"@, "name"@, 3381, 720);
        lemma_call("network"@, "diagnose"@);
        lemma_one("/action/call/args/network/diagnose/"@ + "test"@, "dns"@);
        lemma_sound(fields[1], 4101);
    }
    assert(is_sound(fields[2], 4868)) by {
        lemma_joined("/action/call/args/network/diagnose/"@, "record_type"@, 3381, 1487);
        lemma_call("network"@, "diagnose"@);
        lemma_one("/action/call/args/network/diagnose/"@ + "test"@, "dns"@);
        lemma_options_from(fields[2].options->0, seq!["A"@, "AAAA"@], 0);
        assert(fields[2].options->0[0].value == "A"@);
        lemma_sound(fields[2], 4868);
    }
    assert(is_sound(fields[3], 4175)) by {
        lemma_joined("/action/call/args/network/diagnose/"@, "host"@, 3381, 794);
        lemma_call("network"@, "diagnose"@);
        lemma_condition("/action/call/args/network/diagnose/"@ + "test"@, seq!["tcp"@, "tls"@]);
        lemma_sound(fields[3], 4175);
    }
    assert(is_sound(fields[4], 4182)) by {
        lemma_joined("/action/call/args/network/diagnose/"@, "port"@, 3381, 801);
        lemma_call("network"@, "diagnose"@);
        lemma_one("/action/call/args/network/diagnose/"@ + "test"@, "tcp"@);
        lemma_sound(fields[4], 4182);
    }
    assert(is_sound(fields[5], 4182)) by {
        lemma_joined("/action/call/args/network/diagnose/"@, "port"@, 3381, 801);
        lemma_call("network"@, "diagnose"@);
        lemma_one("/action/call/args/network/diagnose/"@ + "test"@, "tls"@);
        lemma_sound(fields[5], 4182);
    }
    assert(is_sound(fields[6], 4859)) by {
        lemma_joined("/action/call/args/network/diagnose/"@, "server_name"@, 3381, 1478);
        lemma_call("network"@, "diagnose"@);
        lemma_one("/action/call/args/network/diagnose/"@ + "test"@, "tls"@);
        lemma_sound(fields[6], 4859);
    }
    assert(is_sound(fields[7], 4820)) by {
        lemma_joined("/action/call/args/network/diagnose/"@, "timeout_ms"@, 3381, 1439);
        lemma_call("network"@, "diagnose"@);
        lemma_one("/action/call/args/network/diagnose/"@ + "test"@, "tcp"@);
        lemma_sound(fields[7], 4820);
    }
    assert(is_sound(fields[8], 4820)) by {
        lemma_joined("/action/call/args/network/diagnose/"@, "timeout_ms"@, 3381, 1439);
        lemma_call("network"@, "diagnose"@);
        lemma_one("/action/call/args/network/diagnose/"@ + "test"@, "tls"@);
        lemma_sound(fields[8], 4820);
    }
    assert(is_sound(fields[9], 5215)) by {
        lemma_joined("/action/call/args/network/diagnose/"@, "destination_ip"@, 3381, 1834);
        lemma_call("network"@, "diagnose"@);
        lemma_one("/action/call/args/network/diagnose/"@ + "test"@, "route"@);
        lemma_sound(fields[9], 5215);
    }
}

proof fn lemma_visual()
    ensures
        visual_fields().len() == 16,
        forall|i: int|
            0 <= i < 16 ==> is_sound(#[trigger] visual_fields()[i], numbers()[57 + i]),
{
    let fields = visual_fields();
    lemma_paths();
    lemma_fronts();
    lemma_backs();
    lemma_value_lists();
    assert(is_sound(fields[0], 4586)) by {
        lemma_joined("/action/call/args/visual/interact/"@, "operation"@, 3279, 1307);
        lemma_call("visual"@, "interact"@);
        lemma_options_from(fields[0].options->0, seq!["tap"@, "long_press"@, "swipe"@, "text"@, "key"@], 0);
        lemma_sound(fields[0], 4586);
    }
    assert(is_sound(fields[1], 4274)) by {
        lemma_joined("/action/call/args/visual/interact/"@, "target"@, 3279, 995);
        lemma_call("visual"@, "interact"@);
        lemma_condition("/action/call/args/visual/interact/"@ + "operation"@, seq!["tap"@, "long_press"@]);
        lemma_options_from(fields[1].options->0, seq!["node"@, "coordinate"@], 0);
        lemma_sound(fields[1], 4274);
    }
    assert(is_sound(fields[2], 4419)) by {
        lemma_joined("/action/call/args/visual/interact/"@, "node_ref"@, 3279, 1140);
        lemma_call("visual"@, "interact"@);
        lemma_condition("/action/call/args/visual/interact/"@ + "operation"@, seq!["tap"@, "long_press"@]);
        lemma_one("/action/call/args/visual/interact/"@ + "target"@, "node"@);
        lemma_sound(fields[2], 4419);
    }
    assert(is_sound(fields[3], 5075)) by {
        lemma_joined("/action/call/args/visual/interact/"@, "observation_id"@, 3279, 1796);
        lemma_call("visual"@, "interact"@);
        lemma_condition("/action/call/args/visual/interact/"@ + "operation"@, seq!["tap"@, "long_press"@]);
        lemma_one("/action/call/args/visual/interact/"@ + "target"@, "coordinate"@);
        lemma_sound(fields[3], 5075);
    }
    assert(is_sound(fields[4], 3759)) by {
        lemma_joined("/action/call/args/visual/interact/"@, "x"@, 3279, 480);
        lemma_call("visual"@, "interact"@);
        lemma_condition("/action/call/args/visual/interact/"@ + "operation"@, seq!["tap"@, "long_press"@]);
        lemma_one("/action/call/args/visual/interact/"@ + "target"@, "coordinate"@);
        lemma_sound(fields[4], 3759);
    }
    assert(is_sound(fields[5], 3763)) by {
        lemma_joined("/action/call/args/visual/interact/"@, "y"@, 3279, 484);
        lemma_call("visual"@, "interact"@);
        lemma_condition("/action/call/args/visual/interact/"@ + "operation"@, seq!["tap"@, "long_press"@]);
        lemma_one("/action/call/args/visual/interact/"@ + "target"@, "coordinate"@);
        lemma_sound(fields[5], 3763);
    }
    assert(is_sound(fields[6], 5075)) by {
        lemma_joined("/action/call/args/visual/interact/"@, "observation_id"@, 3279, 1796);
        lemma_call("visual"@, "interact"@);
        lemma_one("/action/call/args/visual/interact/"@ + "operation"@, "swipe"@);
        lemma_sound(fields[6], 5075);
    }
    assert(is_sound(fields[7], 4290)) by {
        lemma_joined("/action/call/args/visual/interact/"@, "from_x"@, 3279, 1011);
        lemma_call("visual"@, "interact"@);
        lemma_one("/action/call/args/visual/interact/"@ + "operation"@, "swipe"@);
        lemma_sound(fields[7], 4290);
    }
    assert(is_sound(fields[8], 4294)) by {
        lemma_joined("/action/call/args/visual/interact/"@, "from_y"@, 3279, 1015);
        lemma_call("visual"@, "interact"@);
        lemma_one("/action/call/args/visual/interact/"@ + "operation"@, "swipe"@);
        lemma_sound(fields[8], 4294);
    }
    assert(is_sound(fields[9], 4081)) by {
        lemma_joined("/action/call/args/visual/interact/"@, "to_x"@, 3279, 802);
        lemma_call("visual"@, "interact"@);
        lemma_one("/action/call/args/visual/interact/"@ + "operation"@, "swipe"@);
        lemma_sound(fields[9], 4081);
    }
    assert(is_sound(fields[10], 4085)) by {
        lemma_joined("/action/call/args/visual/interact/"@, "to_y"@, 3279, 806);
        lemma_call("visual"@, "interact"@);
        lemma_one("/action/call/args/visual/interact/"@ + "operation"@, "swipe"@);
        lemma_sound(fields[10], 4085);
    }
    assert(is_sound(fields[11], 4813)) by {
        lemma_joined("/action/call/args/visual/interact/"@, "duration_ms"@, 3279, 1534);
        lemma_call("visual"@, "interact"@);
        lemma_one("/action/call/args/visual/interact/"@ + "operation"@, "swipe"@);
        lemma_sound(fields[11], 4813);
    }
    assert(is_sound(fields[12], 4080)) by {
        lemma_joined("/action/call/args/visual/interact/"@, "text"@, 3279, 801);
        lemma_call("visual"@, "interact"@);
        lemma_one("/action/call/args/visual/interact/"@ + "operation"@, "text"@);
        lemma_sound(fields[12], 4080);
    }
    assert(is_sound(fields[13], 4419)) by {
        lemma_joined("/action/call/args/visual/interact/"@, "node_ref"@, 3279, 1140);
        lemma_call("visual"@, "interact"@);
        lemma_one("/action/call/args/visual/interact/"@ + "operation"@, "text"@);
        lemma_sound(fields[13], 4419);
    }
    assert(is_sound(fields[14], 4417)) by {
        lemma_joined("/action/call/args/visual/interact/"@, "key_code"@, 3279, 1138);
        lemma_call("visual"@, "interact"@);
        lemma_one("/action/call/args/visual/interact/"@ + "operation"@, "key"@);
        lemma_sound(fields[14], 4417);
    }
    assert(is_sound(fields[15], 4645)) by {
        lemma_joined("/action/call/args/visual/interact/"@, "meta_state"@, 3279, 1366);
        lemma_call("visual"@, "interact"@);
        lemma_one("/action/call/args/visual/interact/"@ + "operation"@, "key"@);
        lemma_sound(fields[15], 4645);
    }
}

proof fn lemma_android()
    ensures
        android_fields().len() == 5,
        forall|i: int|
            0 <= i < 5 ==> is_sound(#[trigger] android_fields()[i], numbers()[73 + i]),
{
    let fields = android_fields();
    lemma_paths();
    lemma_fronts();
    lemma_backs();
    lemma_value_lists();
    assert(is_sound(fields[0], 4440)) by {
        lemma_joined("/action/call/args/android/launch/"@, "operation"@, 3133, 1307);
        lemma_call("android"@, "launch"@);
        lemma_options_from(fields[0].options->0, seq!["package"@, "component"@], 0);
        lemma_sound(fields[0], 4440);
    }
    assert(is_sound(fields[1], 4664)) by {
        lemma_joined("/action/call/args/android/launch/"@, "package_name"@, 3133, 1531);
        lemma_call("android"@, "launch"@);
        lemma_sound(fields[1], 4664);
    }
    assert(is_sound(fields[2], 4482)) by {
        lemma_joined("/action/call/args/android/launch/"@, "class_name"@, 3133, 1349);
        lemma_call("android"@, "launch"@);
        lemma_one("/action/call/args/android/launch/"@ + "operation"@, "component"@);
        lemma_sound(fields[2], 4482);
    }
    assert(is_sound(fields[3], 4749)) by {
        lemma_joined("/action/call/args/android/clipboard/"@, "operation"@, 3442, 1307);
        lemma_call("android"@, "clipboard"@);
        lemma_options_from(fields[3].options->0, seq!["read"@, "write"@, "clear"@], 0);
        lemma_sound(fields[3], 4749);
    }
    assert(is_sound(fields[4], 4243)) by {
        lemma_joined("/action/call/args/android/clipboard/"@, "text"@, 3442, 801);
        lemma_call("android"@, "clipboard"@);
        lemma_one("/action/call/args/android/clipboard/"@ + "operation"@, "write"@);
        lemma_sound(fields[4], 4243);
    }
}

// ---------------------------------------------------------------------------------------
// The table.
// ---------------------------------------------------------------------------------------

/// Whether two fields of the table edit the same path.
spec fn are_twins(i: int, j: int) -> bool {
    ||| 11 <= i < j <= 15
    ||| i == 51 && j == 52
    ||| i == 54 && j == 55
    ||| i == 59 && j == 70
    ||| i == 60 && j == 63
}

#[verifier::spinoff_prover]
proof fn lemma_numbers(i: int, j: int)
    requires
        0 <= i < j < numbers().len(),
        numbers()[i] == numbers()[j],
    ensures
        are_twins(i, j),
{
}

/// Two fields are not ambiguous if a condition of the one excludes one of the other.
proof fn lemma_apart(left: FieldModel, right: FieldModel, i: int, j: int)
    requires
        0 <= i < conditions_of(left).len(),
        0 <= j < conditions_of(right).len(),
        excludes(conditions_of(left)[i], conditions_of(right)[j]),
    ensures
        !ambiguous(left, right),
{
}

proof fn lemma_fields()
    ensures
        automation_fields().len() == 78,
        forall|i: int|
            0 <= i < 78 ==> is_sound(#[trigger] automation_fields()[i], numbers()[i]),
{
    lemma_general();
    lemma_action_choice();
    lemma_action_node();
    lemma_filesystem();
    lemma_command();
    lemma_network();
    lemma_visual();
    lemma_android();
    assert forall|i: int| 0 <= i < 78 implies is_sound(
        #[trigger] automation_fields()[i],
        numbers()[i],
    ) by {
        if i < 9 {
            assert(automation_fields()[i] == general_fields()[i - 0]);
        } else if i < 16 {
            assert(automation_fields()[i] == action_choice_fields()[i - 9]);
        } else if i < 25 {
            assert(automation_fields()[i] == action_node_fields()[i - 16]);
        } else if i < 40 {
            assert(automation_fields()[i] == filesystem_fields()[i - 25]);
        } else if i < 47 {
            assert(automation_fields()[i] == command_fields()[i - 40]);
        } else if i < 57 {
            assert(automation_fields()[i] == network_fields()[i - 47]);
        } else if i < 73 {
            assert(automation_fields()[i] == visual_fields()[i - 57]);
        } else {
            assert(automation_fields()[i] == android_fields()[i - 73]);
        }
    }
}

proof fn lemma_lengths()
    ensures
        general_fields().len() == 9,
        action_choice_fields().len() == 7,
        action_node_fields().len() == 9,
        filesystem_fields().len() == 15,
        command_fields().len() == 7,
        network_fields().len() == 10,
        visual_fields().len() == 16,
        android_fields().len() == 5,
{
}

/// No two fields that edit the same path are ever shown together.
proof fn lemma_twins(i: int, j: int)
    requires
        are_twins(i, j),
    ensures
        !ambiguous(automation_fields()[i], automation_fields()[j]),
{
    lemma_lengths();
    let left = automation_fields()[i];
    let right = automation_fields()[j];
    if 11 <= i && j <= 15 {
        assert(left == action_choice_fields()[i - 9]);
        assert(right == action_choice_fields()[j - 9]);
        reveal_strlit("filesystem");
        reveal_strlit("command");
        reveal_strlit("network");
        reveal_strlit("visual");
        reveal_strlit("android");
        let one = conditions_of(left)[1];
        let other = conditions_of(right)[1];
        assert(one.values[0]->Text_0[0] != other.values[0]->Text_0[0]);
        lemma_apart(left, right, 1, 1);
    } else if i == 51 {
        assert(left == network_fields()[4]);
        assert(right == network_fields()[5]);
        reveal_strlit("tcp");
        reveal_strlit("tls");
        assert("tcp"@[1] != "tls"@[1]);
        lemma_apart(left, right, 2, 2);
    } else if i == 54 {
        assert(left == network_fields()[7]);
        assert(right == network_fields()[8]);
        reveal_strlit("tcp");
        reveal_strlit("tls");
        assert("tcp"@[1] != "tls"@[1]);
        lemma_apart(left, right, 2, 2);
    } else if i == 59 {
        assert(left == visual_fields()[2]);
        assert(right == visual_fields()[13]);
        reveal_strlit("tap");
        reveal_strlit("long_press");
        reveal_strlit("text");
        assert("tap"@[1] != "text"@[1]);
        assert("long_press"@[0] != "text"@[0]);
        lemma_apart(left, right, 2, 2);
    } else if i == 60 {
        assert(left == visual_fields()[3]);
        assert(right == visual_fields()[6]);
        reveal_strlit("tap");
        reveal_strlit("long_press");
        reveal_strlit("swipe");
        assert("tap"@[0] != "swipe"@[0]);
        assert("long_press"@[0] != "swipe"@[0]);
        lemma_apart(left, right, 2, 2);
    }
}

proof fn lemma_described(row: int, at: int, front: Seq<char>, back: Seq<char>)
    requires
        0 <= row < action_table().len(),
        0 <= at < automation_fields().len(),
        automation_fields()[at].canonical_path == front + back,
        front.len() == call_prefix(action_table()[row]).len(),
        alike_to(front, call_prefix(action_table()[row]), front.len() as int),
    ensures
        describes_call(automation_fields(), action_table()[row]),
{
    lemma_same(front, call_prefix(action_table()[row]));
    assert(front.is_prefix_of(front + back)) by {
        assert((front + back).take(front.len() as int) =~= front);
    }
}

/// Every call that an Automation may make has fields of its own.
proof fn lemma_calls(row: int)
    requires
        0 <= row < action_table().len(),
        action_table()[row].automation_compatible,
    ensures
        describes_call(automation_fields(), action_table()[row]),
{
    lemma_lengths();
    reveal_strlit("/action/call/args/");
    reveal_strlit("/");
    if row == 5 {
        reveal_strlit("filesystem");
        reveal_strlit("manage");
        reveal_strlit("/action/call/args/filesystem/manage/");
        reveal_with_fuel(alike_to, 37);
        assert(automation_fields()[25] == filesystem_fields()[0]);
        lemma_described(5, 25, "/action/call/args/filesystem/manage/"@, "operation"@);
    } else if row == 6 {
        reveal_strlit("filesystem");
        reveal_strlit("download");
        reveal_strlit("/action/call/args/filesystem/download/");
        reveal_with_fuel(alike_to, 39);
        assert(automation_fields()[35] == filesystem_fields()[10]);
        lemma_described(6, 35, "/action/call/args/filesystem/download/"@, "url"@);
    } else if row == 8 {
        reveal_strlit("command");
        reveal_strlit("run");
        reveal_strlit("/action/call/args/command/run/");
        reveal_with_fuel(alike_to, 31);
        assert(automation_fields()[40] == command_fields()[0]);
        lemma_described(8, 40, "/action/call/args/command/run/"@, "command"@);
    } else if row == 12 {
        reveal_strlit("network");
        reveal_strlit("diagnose");
        reveal_strlit("/action/call/args/network/diagnose/");
        reveal_with_fuel(alike_to, 36);
        assert(automation_fields()[47] == network_fields()[0]);
        lemma_described(12, 47, "/action/call/args/network/diagnose/"@, "test"@);
    } else if row == 15 {
        reveal_strlit("visual");
        reveal_strlit("interact");
        reveal_strlit("/action/call/args/visual/interact/");
        reveal_with_fuel(alike_to, 35);
        assert(automation_fields()[57] == visual_fields()[0]);
        lemma_described(15, 57, "/action/call/args/visual/interact/"@, "operation"@);
    } else if row == 17 {
        reveal_strlit("android");
        reveal_strlit("launch");
        reveal_strlit("/action/call/args/android/launch/");
        reveal_with_fuel(alike_to, 34);
        assert(automation_fields()[73] == android_fields()[0]);
        lemma_described(17, 73, "/action/call/args/android/launch/"@, "operation"@);
    } else if row == 19 {
        reveal_strlit("android");
        reveal_strlit("clipboard");
        reveal_strlit("/action/call/args/android/clipboard/");
        reveal_with_fuel(alike_to, 37);
        assert(automation_fields()[76] == android_fields()[3]);
        lemma_described(19, 76, "/action/call/args/android/clipboard/"@, "operation"@);
    }
}

proof fn lemma_target()
    ensures
        automation_fields()[58].canonical_path == target_path(),
        offers_both_targets(automation_fields()[58]),
{
    lemma_lengths();
    reveal_strlit("/action/call/args/visual/interact/");
    reveal_strlit("target");
    reveal_strlit("/action/call/args/visual/interact/target");
    reveal_with_fuel(alike_to, 41);
    assert(automation_fields()[58] == visual_fields()[1]);
    lemma_same("/action/call/args/visual/interact/"@ + "target"@, target_path());
}

/// The table of descriptors is valid: nothing is wrong with any of its fields, no two of them are
/// ambiguous, every call that an Automation may make is described, and the target of a visual
/// interaction is a node or a coordinate.
pub proof fn the_descriptor_table_is_valid()
    ensures
        descriptors_fault(1, automation_fields()) is None,
{
    let fields = automation_fields();
    let rows = action_table();
    let count = fields.len() as int;
    lemma_fields();
    let invalid = |i: int| field_fault(fields[i]) is Some;
    assert forall|i: int| 0 <= i < count implies !(#[trigger] invalid(i)) by {
        reveal(is_sound);
        assert(is_sound(fields[i], numbers()[i]));
    }
    lemma_first_position(count, 0, invalid, count);
    let twofold = |i: int| is_ambiguous(fields, i);
    assert forall|i: int| 0 <= i < count implies !(#[trigger] twofold(i)) by {
        assert forall|j: int| i < j < count implies !ambiguous(fields[i], #[trigger] fields[j]) by {
            reveal(is_sound);
            assert(is_sound(fields[i], numbers()[i]));
            if fields[i].canonical_path == fields[j].canonical_path {
                lemma_numbers(i, j);
                lemma_twins(i, j);
            }
        }
    }
    lemma_first_position(count, 0, twofold, count);
    let missing = |i: int| rows[i].automation_compatible && !describes_call(fields, rows[i]);
    assert forall|i: int| 0 <= i < rows.len() implies !(#[trigger] missing(i)) by {
        if rows[i].automation_compatible {
            lemma_calls(i);
        }
    }
    lemma_first_position(rows.len() as int, 0, missing, rows.len() as int);
    let target = |i: int| fields[i].canonical_path == target_path();
    lemma_target();
    assert forall|i: int| 0 <= i < 58 implies !(#[trigger] target(i)) by {
        reveal(is_sound);
        assert(is_sound(fields[i], numbers()[i]));
        assert(is_sound(fields[58], numbers()[58]));
        if target(i) {
            lemma_numbers(i, 58);
        }
    }
    assert(target(58));
    lemma_first_position(count, 0, target, 58);
}

} // verus!
