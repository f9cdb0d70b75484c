//! JSON values as the library reads and writes them.
//!
//! Reading and quoting belong to `serde_json`; what a value means to the library, how its members
//! are ordered and how it is laid out as text are stated here over `JsonModel`.

use crate::text::{
    chars_of, decimal, decimal_text, digit_value, hex_char, joined, parse_unsigned, same,
    signed_decimal, signed_text, texts, unsigned_number,
};
use vstd::prelude::*;

verus! {

/// One JSON value. A number that fits in 64 unsigned bits is kept as one; any other number keeps
/// its text.
#[derive(Debug, PartialEq)]
pub enum Json {
    Null,
    Boolean(bool),
    Unsigned(u64),
    Number(String),
    Text(String),
    Array(Vec<Json>),
    Object(Vec<Member>),
}

/// One member of a JSON object.
#[derive(Debug, PartialEq)]
pub struct Member {
    pub key: String,
    pub value: Json,
}

/// What a JSON value is: the same tree over sequences.
pub enum JsonModel {
    Null,
    Boolean(bool),
    Unsigned(u64),
    Number(Seq<char>),
    Text(Seq<char>),
    Array(Seq<JsonModel>),
    Object(Seq<(Seq<char>, JsonModel)>),
}

/// The model of `json`.
pub open spec fn model_of(json: Json) -> JsonModel
    decreases json,
{
    match json {
        Json::Null => JsonModel::Null,
        Json::Boolean(value) => JsonModel::Boolean(value),
        Json::Unsigned(value) => JsonModel::Unsigned(value),
        Json::Number(text) => JsonModel::Number(text@),
        Json::Text(text) => JsonModel::Text(text@),
        Json::Array(items) => JsonModel::Array(
            Seq::new(
                items@.len(),
                |i: int|
                    if 0 <= i < items@.len() {
                        model_of(items@[i])
                    } else {
                        JsonModel::Null
                    },
            ),
        ),
        Json::Object(members) => JsonModel::Object(
            Seq::new(
                members@.len(),
                |i: int|
                    if 0 <= i < members@.len() {
                        (members@[i].key@, model_of(members@[i].value))
                    } else {
                        (Seq::empty(), JsonModel::Null)
                    },
            ),
        ),
    }
}

impl View for Json {
    type V = JsonModel;

    open spec fn view(&self) -> JsonModel {
        model_of(*self)
    }
}

impl View for Member {
    type V = (Seq<char>, JsonModel);

    open spec fn view(&self) -> (Seq<char>, JsonModel) {
        (self.key@, self.value@)
    }
}

/// The members a vector of members stands for.
pub open spec fn member_models(members: Seq<Member>) -> Seq<(Seq<char>, JsonModel)> {
    Seq::new(members.len(), |i: int| members[i]@)
}

/// The values a vector of values stands for.
pub open spec fn item_models(items: Seq<Json>) -> Seq<JsonModel> {
    Seq::new(items.len(), |i: int| items[i]@)
}

proof fn lemma_array_model(items: Vec<Json>)
    ensures
        Json::Array(items)@ == JsonModel::Array(item_models(items@)),
{
    assert(model_of(Json::Array(items))->Array_0 == item_models(items@));
}

/// An object is its members.
pub proof fn an_object_holds_its_members(members: Vec<Member>)
    ensures
        Json::Object(members)@ == JsonModel::Object(member_models(members@)),
{
    assert(model_of(Json::Object(members))->Object_0 == member_models(members@));
}

// ---------------------------------------------------------------------------------------
// Building a value.
// ---------------------------------------------------------------------------------------

/// An object with the given members.
pub fn object(members: Vec<Member>) -> (value: Json)
    ensures
        value@ == JsonModel::Object(member_models(members@)),
{
    proof {
        an_object_holds_its_members(members);
    }
    Json::Object(members)
}

/// An array of the given values.
pub fn array(items: Vec<Json>) -> (value: Json)
    ensures
        value@ == JsonModel::Array(item_models(items@)),
{
    proof {
        lemma_array_model(items);
    }
    Json::Array(items)
}

/// One member of an object.
pub fn entry(key: &str, value: Json) -> (made: Member)
    ensures
        made@ == (key@, value@),
{
    Member { key: key.to_owned(), value }
}

/// A text value.
pub fn text_value(text: &str) -> (value: Json)
    ensures
        value@ == JsonModel::Text(text@),
{
    Json::Text(text.to_owned())
}

/// The number value of an integer that fits in 64 bits.
pub open spec fn integer_model(n: int) -> JsonModel {
    if n >= 0 {
        JsonModel::Unsigned(n as u64)
    } else {
        JsonModel::Number(signed_decimal(n))
    }
}

/// The number value of an integer.
pub fn integer_value(n: i32) -> (value: Json)
    ensures
        value@ == integer_model(n as int),
{
    if n >= 0 {
        Json::Unsigned(n as u64)
    } else {
        Json::Number(signed_text(n))
    }
}

/// The text value, or null.
pub open spec fn optional_text_model(text: Option<Seq<char>>) -> JsonModel {
    match text {
        Some(text) => JsonModel::Text(text),
        None => JsonModel::Null,
    }
}

/// The array of texts.
pub open spec fn text_array_model(items: Seq<Seq<char>>) -> JsonModel {
    JsonModel::Array(Seq::new(items.len(), |i: int| JsonModel::Text(items[i])))
}

/// An array of texts.
pub fn text_array(items: &[String]) -> (value: Json)
    ensures
        value@ == text_array_model(texts(items@)),
{
    let mut values: Vec<Json> = Vec::new();
    for i in 0..items.len()
        invariant
            values@.len() == i,
            forall|k: int| 0 <= k < i ==> (#[trigger] values@[k])@ == JsonModel::Text(items@[k]@),
    {
        values.push(text_value(items[i].as_str()));
    }
    assert(item_models(values@) =~= text_array_model(texts(items@))->Array_0);
    array(values)
}

// ---------------------------------------------------------------------------------------
// Reading a value.
// ---------------------------------------------------------------------------------------

/// The value of the first member named `key`.
pub open spec fn member(members: Seq<(Seq<char>, JsonModel)>, key: Seq<char>) -> Option<JsonModel>
    decreases members.len(),
{
    if members.len() == 0 {
        None
    } else if members[0].0 == key {
        Some(members[0].1)
    } else {
        member(members.skip(1), key)
    }
}

/// A member is found by its key if no member before it has that key.
pub proof fn lemma_member_at(members: Seq<(Seq<char>, JsonModel)>, at: int)
    requires
        0 <= at < members.len(),
        forall|j: int| 0 <= j < at ==> (#[trigger] members[j]).0 != members[at].0,
    ensures
        member(members, members[at].0) == Some(members[at].1),
    decreases at,
{
    if at > 0 {
        let rest = members.skip(1);
        assert(members[0].0 != members[at].0);
        assert forall|j: int| 0 <= j < at - 1 implies (#[trigger] rest[j]).0 != rest[at - 1].0 by {
            assert(rest[j] == members[j + 1]);
        }
        lemma_member_at(rest, at - 1);
    }
}

impl JsonModel {
    /// The member named `key` of an object; no other value has members.
    pub open spec fn get(self, key: Seq<char>) -> Option<JsonModel> {
        match self {
            JsonModel::Object(members) => member(members, key),
            _ => None,
        }
    }

    /// The characters of a text value.
    pub open spec fn text(self) -> Option<Seq<char>> {
        match self {
            JsonModel::Text(text) => Some(text),
            _ => None,
        }
    }
}

/// The value a reference that may be absent stands for.
pub open spec fn optional_model(json: Option<&Json>) -> Option<JsonModel> {
    match json {
        Some(json) => Some(json@),
        None => None,
    }
}

/// The characters a string reference that may be absent stands for.
pub open spec fn optional_chars(text: Option<&str>) -> Option<Seq<char>> {
    match text {
        Some(text) => Some(text@),
        None => None,
    }
}

impl Json {
    /// The member named `key`, when this is an object that has one.
    pub fn get(&self, key: &str) -> (found: Option<&Json>)
        ensures
            optional_model(found) == self@.get(key@),
    {
        match self {
            Json::Object(members) => {
                let ghost models = member_models(members@);
                proof {
                    an_object_holds_its_members(*members);
                    assert(models.skip(0) == models);
                }
                let mut i: usize = 0;
                while i < members.len()
                    invariant
                        i <= members@.len(),
                        self@ == JsonModel::Object(models),
                        models == member_models(members@),
                        member(models, key@) == member(models.skip(i as int), key@),
                    decreases members@.len() - i,
                {
                    assert(models.skip(i as int)[0] == members@[i as int]@);
                    assert(models.skip(i as int).skip(1) == models.skip(i + 1));
                    if same(members[i].key.as_str(), key) {
                        return Some(&members[i].value);
                    }
                    i += 1;
                }
                None
            },
            _ => None,
        }
    }

    /// The text of a text value.
    pub fn as_text(&self) -> (text: Option<&str>)
        ensures
            optional_chars(text) == self@.text(),
    {
        match self {
            Json::Text(text) => Some(text.as_str()),
            _ => None,
        }
    }

    /// The number of members, when this is an object.
    pub fn member_count(&self) -> (count: Option<usize>)
        ensures
            match self@ {
                JsonModel::Object(members) => count == Some(members.len() as usize)
                    && members.len() <= usize::MAX,
                _ => count is None,
            },
    {
        match self {
            Json::Object(members) => {
                proof {
                    an_object_holds_its_members(*members);
                }
                Some(members.len())
            },
            _ => None,
        }
    }

    /// Whether two values are the same.
    pub fn same_as(&self, other: &Json) -> (equal: bool)
        ensures
            equal == (self@ == other@),
        decreases self,
    {
        match (self, other) {
            (Json::Null, Json::Null) => true,
            (Json::Boolean(left), Json::Boolean(right)) => *left == *right,
            (Json::Unsigned(left), Json::Unsigned(right)) => *left == *right,
            (Json::Number(left), Json::Number(right)) => same(left.as_str(), right.as_str()),
            (Json::Text(left), Json::Text(right)) => same(left.as_str(), right.as_str()),
            (Json::Array(left), Json::Array(right)) => {
                proof {
                    lemma_array_model(*left);
                    lemma_array_model(*right);
                }
                if left.len() != right.len() {
                    assert(item_models(left@).len() != item_models(right@).len());
                    return false;
                }
                for i in 0..left.len()
                    invariant
                        *self == Json::Array(*left),
                        left@.len() == right@.len(),
                        self@ == JsonModel::Array(item_models(left@)),
                        other@ == JsonModel::Array(item_models(right@)),
                        forall|j: int| 0 <= j < i ==> item_models(left@)[j] == item_models(right@)[j],
                {
                    assert(decreases_to!(*self => self->Array_0));
                    assert(decreases_to!(self->Array_0 => self->Array_0@));
                    assert(decreases_to!(self->Array_0@ => self->Array_0@[i as int]));
                    if !left[i].same_as(&right[i]) {
                        assert(item_models(left@)[i as int] != item_models(right@)[i as int]);
                        return false;
                    }
                }
                assert(item_models(left@) == item_models(right@));
                true
            },
            (Json::Object(left), Json::Object(right)) => {
                proof {
                    an_object_holds_its_members(*left);
                    an_object_holds_its_members(*right);
                }
                if left.len() != right.len() {
                    assert(member_models(left@).len() != member_models(right@).len());
                    return false;
                }
                for i in 0..left.len()
                    invariant
                        *self == Json::Object(*left),
                        left@.len() == right@.len(),
                        self@ == JsonModel::Object(member_models(left@)),
                        other@ == JsonModel::Object(member_models(right@)),
                        forall|j: int|
                            0 <= j < i ==> member_models(left@)[j] == member_models(right@)[j],
                {
                    assert(decreases_to!(*self => self->Object_0));
                    assert(decreases_to!(self->Object_0 => self->Object_0@));
                    assert(decreases_to!(self->Object_0@ => self->Object_0@[i as int]));
                    assert(decreases_to!(self->Object_0@[i as int] => self->Object_0@[i as int].value));
                    if !same(left[i].key.as_str(), right[i].key.as_str()) || !left[i].value.same_as(
                        &right[i].value,
                    ) {
                        assert(member_models(left@)[i as int] != member_models(right@)[i as int]);
                        return false;
                    }
                }
                assert(member_models(left@) == member_models(right@));
                true
            },
            _ => false,
        }
    }
}

impl Clone for Member {
    fn clone(&self) -> (copy: Self)
        ensures
            copy@ == self@,
        decreases self, 0nat,
    {
        Member { key: self.key.clone(), value: self.value.clone() }
    }
}

impl Clone for Json {
    fn clone(&self) -> (copy: Self)
        ensures
            copy@ == self@,
        decreases self, 1nat,
    {
        match self {
            Json::Null => Json::Null,
            Json::Boolean(value) => Json::Boolean(*value),
            Json::Unsigned(value) => Json::Unsigned(*value),
            Json::Number(text) => Json::Number(text.clone()),
            Json::Text(text) => Json::Text(text.clone()),
            Json::Array(items) => {
                let mut copies: Vec<Json> = Vec::new();
                for i in 0..items.len()
                    invariant
                        *self == Json::Array(*items),
                        copies@.len() == i,
                        forall|j: int| 0 <= j < i ==> (#[trigger] copies@[j])@ == items@[j]@,
                {
                    assert(decreases_to!(*self => self->Array_0));
                    assert(decreases_to!(self->Array_0 => self->Array_0@));
                    assert(decreases_to!(self->Array_0@ => self->Array_0@[i as int]));
                    copies.push((&items[i]).clone());
                }
                proof {
                    lemma_array_model(copies);
                    lemma_array_model(*items);
                    assert(item_models(copies@) == item_models(items@));
                }
                Json::Array(copies)
            },
            Json::Object(members) => {
                let mut copies: Vec<Member> = Vec::new();
                for i in 0..members.len()
                    invariant
                        *self == Json::Object(*members),
                        copies@.len() == i,
                        forall|j: int| 0 <= j < i ==> (#[trigger] copies@[j])@ == members@[j]@,
                {
                    assert(decreases_to!(*self => self->Object_0));
                    assert(decreases_to!(self->Object_0 => self->Object_0@));
                    assert(decreases_to!(self->Object_0@ => self->Object_0@[i as int]));
                    copies.push((&members[i]).clone());
                }
                proof {
                    an_object_holds_its_members(copies);
                    an_object_holds_its_members(*members);
                    assert(member_models(copies@) == member_models(members@));
                }
                Json::Object(copies)
            },
        }
    }
}

// ---------------------------------------------------------------------------------------
// The canonical member order.
// ---------------------------------------------------------------------------------------

/// Whether `left` comes before `right` in character order.
pub open spec fn precedes(left: Seq<char>, right: Seq<char>) -> bool
    decreases left.len(),
{
    if right.len() == 0 {
        false
    } else if left.len() == 0 {
        true
    } else if left[0] == right[0] {
        precedes(left.skip(1), right.skip(1))
    } else {
        left[0] < right[0]
    }
}

/// Whether every member's key comes before the keys of the members after it.
pub open spec fn strictly_sorted(members: Seq<(Seq<char>, JsonModel)>) -> bool {
    forall|i: int, j: int|
        0 <= i < j < members.len() ==> precedes((#[trigger] members[i]).0, (#[trigger] members[j]).0)
}

/// The position of the first member at or after `from` whose key does not come before `key`.
pub open spec fn slot(members: Seq<(Seq<char>, JsonModel)>, key: Seq<char>, from: int) -> int
    decreases members.len() - from,
{
    if from < 0 || from >= members.len() {
        members.len() as int
    } else if precedes(members[from].0, key) {
        slot(members, key, from + 1)
    } else {
        from
    }
}

/// `members` with `value` under `key`: in place of the member of that name, or put where the
/// order wants it.
pub open spec fn placed(
    members: Seq<(Seq<char>, JsonModel)>,
    key: Seq<char>,
    value: JsonModel,
) -> Seq<(Seq<char>, JsonModel)> {
    let at = slot(members, key, 0);
    if at < members.len() && members[at].0 == key {
        members.update(at, (key, value))
    } else {
        members.insert(at, (key, value))
    }
}

/// The members in canonical order. Of several members of one name the last one counts.
pub open spec fn ordered(members: Seq<(Seq<char>, JsonModel)>) -> Seq<(Seq<char>, JsonModel)>
    decreases members.len(),
{
    if members.len() == 0 {
        Seq::empty()
    } else {
        placed(ordered(members.drop_last()), members.last().0, members.last().1)
    }
}

/// `value` with the members of every object in it in canonical order.
pub open spec fn canonical(value: JsonModel) -> JsonModel
    decreases value,
{
    match value {
        JsonModel::Array(items) => JsonModel::Array(
            Seq::new(
                items.len(),
                |i: int|
                    if 0 <= i < items.len() {
                        canonical(items[i])
                    } else {
                        JsonModel::Null
                    },
            ),
        ),
        JsonModel::Object(members) => JsonModel::Object(ordered(canonical_members(members))),
        _ => value,
    }
}

/// The members with their values in canonical form, in the order they were given.
pub open spec fn canonical_members(members: Seq<(Seq<char>, JsonModel)>) -> Seq<
    (Seq<char>, JsonModel),
>
    decreases members,
{
    Seq::new(
        members.len(),
        |i: int|
            if 0 <= i < members.len() {
                (members[i].0, canonical(members[i].1))
            } else {
                (Seq::empty(), JsonModel::Null)
            },
    )
}

/// How two texts compare in character order.
#[derive(Clone, Copy, Debug, PartialEq, Eq, Structural)]
pub(crate) enum Order {
    Before,
    Same,
    After,
}

pub(crate) fn order_of(left: &str, right: &str) -> (order: Order)
    ensures
        order is Before <==> precedes(left@, right@),
        order is Same <==> left@ == right@,
{
    let l = chars_of(left);
    let r = chars_of(right);
    let mut i: usize = 0;
    assert(left@.skip(0) == left@ && right@.skip(0) == right@);
    while i < l.len() && i < r.len() && l[i] == r[i]
        invariant
            l@ == left@,
            r@ == right@,
            i <= l@.len(),
            i <= r@.len(),
            forall|j: int| 0 <= j < i ==> left@[j] == right@[j],
            precedes(left@, right@) == precedes(left@.skip(i as int), right@.skip(i as int)),
        decreases l@.len() - i,
    {
        assert(left@.skip(i as int).skip(1) == left@.skip(i + 1));
        assert(right@.skip(i as int).skip(1) == right@.skip(i + 1));
        i += 1;
    }
    if i == l.len() && i == r.len() {
        assert(left@ =~= right@);
        Order::Same
    } else if i == r.len() {
        assert(left@.len() != right@.len());
        Order::After
    } else if i == l.len() {
        assert(left@.len() != right@.len());
        Order::Before
    } else if l[i] < r[i] {
        assert(left@[i as int] != right@[i as int]);
        Order::Before
    } else {
        assert(left@[i as int] != right@[i as int]);
        Order::After
    }
}

pub(crate) proof fn lemma_precedes_irreflexive(text: Seq<char>)
    ensures
        !precedes(text, text),
    decreases text.len(),
{
    if text.len() > 0 {
        lemma_precedes_irreflexive(text.skip(1));
    }
}

pub(crate) proof fn lemma_precedes_transitive(a: Seq<char>, b: Seq<char>, c: Seq<char>)
    requires
        precedes(a, b),
        precedes(b, c),
    ensures
        precedes(a, c),
    decreases a.len(),
{
    if a.len() > 0 && b.len() > 0 && c.len() > 0 && a[0] == b[0] && b[0] == c[0] {
        lemma_precedes_transitive(a.skip(1), b.skip(1), c.skip(1));
    }
}

pub(crate) proof fn lemma_precedes_total(a: Seq<char>, b: Seq<char>)
    ensures
        precedes(a, b) || precedes(b, a) || a == b,
    decreases a.len(),
{
    if a.len() == 0 || b.len() == 0 {
        assert(a.len() == 0 && b.len() == 0 ==> a =~= b);
    } else if a[0] == b[0] {
        lemma_precedes_total(a.skip(1), b.skip(1));
        if a.skip(1) == b.skip(1) {
            assert(a =~= seq![a[0]] + a.skip(1));
            assert(b =~= seq![b[0]] + b.skip(1));
        }
    }
}

proof fn lemma_slot(members: Seq<(Seq<char>, JsonModel)>, key: Seq<char>, from: int)
    requires
        0 <= from <= members.len(),
    ensures
        from <= slot(members, key, from) <= members.len(),
        forall|i: int| from <= i < slot(members, key, from) ==> precedes((#[trigger] members[i]).0, key),
        slot(members, key, from) < members.len() ==> !precedes(
            members[slot(members, key, from)].0,
            key,
        ),
    decreases members.len() - from,
{
    if from < members.len() && precedes(members[from].0, key) {
        lemma_slot(members, key, from + 1);
    }
}

proof fn lemma_placed_sorted(
    members: Seq<(Seq<char>, JsonModel)>,
    key: Seq<char>,
    value: JsonModel,
)
    requires
        strictly_sorted(members),
    ensures
        strictly_sorted(placed(members, key, value)),
{
    lemma_slot(members, key, 0);
    let at = slot(members, key, 0);
    let after = placed(members, key, value);
    if at < members.len() && members[at].0 == key {
        assert forall|i: int, j: int| 0 <= i < j < after.len() implies precedes(
            (#[trigger] after[i]).0,
            (#[trigger] after[j]).0,
        ) by {
            assert(after[i].0 == members[i].0);
            assert(after[j].0 == members[j].0);
        }
    } else {
        assert forall|i: int, j: int| 0 <= i < j < after.len() implies precedes(
            (#[trigger] after[i]).0,
            (#[trigger] after[j]).0,
        ) by {
            if i < at && j < at {
                assert(after[i] == members[i] && after[j] == members[j]);
            } else if i < at && j == at {
                assert(after[i] == members[i]);
            } else if i < at {
                assert(after[i] == members[i] && after[j] == members[j - 1]);
            } else if i == at {
                lemma_precedes_total(members[at].0, key);
                assert(precedes(key, members[at].0));
                assert(after[j] == members[j - 1]);
                if at < j - 1 {
                    lemma_precedes_transitive(key, members[at].0, members[j - 1].0);
                }
            } else {
                assert(after[i] == members[i - 1] && after[j] == members[j - 1]);
            }
        }
    }
}

proof fn lemma_inserted_member(
    members: Seq<(Seq<char>, JsonModel)>,
    at: int,
    key: Seq<char>,
    value: JsonModel,
    other: Seq<char>,
)
    requires
        0 <= at <= members.len(),
        other != key,
    ensures
        member(members.insert(at, (key, value)), other) == member(members, other),
    decreases at,
{
    let after = members.insert(at, (key, value));
    if at == 0 {
        assert(after.skip(1) =~= members);
    } else {
        assert(after.skip(1) =~= members.skip(1).insert(at - 1, (key, value)));
        lemma_inserted_member(members.skip(1), at - 1, key, value, other);
    }
}

proof fn lemma_updated_member(
    members: Seq<(Seq<char>, JsonModel)>,
    at: int,
    value: JsonModel,
    other: Seq<char>,
)
    requires
        0 <= at < members.len(),
        other != members[at].0,
    ensures
        member(members.update(at, (members[at].0, value)), other) == member(members, other),
    decreases at,
{
    let after = members.update(at, (members[at].0, value));
    if at == 0 {
        assert(after.skip(1) =~= members.skip(1));
    } else {
        assert(members.skip(1)[at - 1] == members[at]);
        assert(after.skip(1) =~= members.skip(1).update(at - 1, (members[at].0, value)));
        lemma_updated_member(members.skip(1), at - 1, value, other);
    }
}

/// What is placed under a key is found there, and every other key finds what it found before.
pub proof fn a_placed_member_is_found(
    members: Seq<(Seq<char>, JsonModel)>,
    key: Seq<char>,
    value: JsonModel,
    other: Seq<char>,
)
    ensures
        member(placed(members, key, value), key) == Some(value),
        other != key ==> member(placed(members, key, value), other) == member(members, other),
{
    lemma_slot(members, key, 0);
    let at = slot(members, key, 0);
    let after = placed(members, key, value);
    assert forall|j: int| 0 <= j < at implies (#[trigger] after[j]).0 != after[at].0 by {
        assert(after[j] == members[j]);
        lemma_precedes_irreflexive(key);
    }
    lemma_member_at(after, at);
    if other != key {
        if at < members.len() && members[at].0 == key {
            lemma_updated_member(members, at, value, other);
        } else {
            lemma_inserted_member(members, at, key, value, other);
        }
    }
}

/// A text comes before another exactly if, after as many equal characters as there are from the
/// start, it ends first or its next character is the smaller one.
pub proof fn texts_are_ordered_by_their_first_difference(left: Seq<char>, right: Seq<char>)
    ensures
        precedes(left, right) <==> exists|k: int|
            0 <= k <= left.len() && k < right.len() && #[trigger] left.take(k) == right.take(k) && (
            k == left.len() || left[k] < right[k]),
    decreases left.len(),
{
    if left.len() > 0 && right.len() > 0 && left[0] == right[0] {
        let l = left.skip(1);
        let r = right.skip(1);
        texts_are_ordered_by_their_first_difference(l, r);
        if precedes(left, right) {
            let k = choose|k: int|
                0 <= k <= l.len() && k < r.len() && #[trigger] l.take(k) == r.take(k) && (k
                    == l.len() || l[k] < r[k]);
            let longer = left.take(k + 1);
            let other = right.take(k + 1);
            assert forall|i: int| 0 <= i < k + 1 implies longer[i] == other[i] by {
                if i > 0 {
                    assert(l.take(k)[i - 1] == r.take(k)[i - 1]);
                }
            }
            assert(longer =~= other);
        }
        if exists|k: int|
            0 <= k <= left.len() && k < right.len() && #[trigger] left.take(k) == right.take(k) && (k
                == left.len() || left[k] < right[k]) {
            let k = choose|k: int|
                0 <= k <= left.len() && k < right.len() && #[trigger] left.take(k) == right.take(k)
                    && (k == left.len() || left[k] < right[k]);
            let shorter = l.take(k - 1);
            let other = r.take(k - 1);
            assert forall|i: int| 0 <= i < k - 1 implies shorter[i] == other[i] by {
                assert(left.take(k)[i + 1] == right.take(k)[i + 1]);
            }
            assert(shorter =~= other);
        }
    } else if right.len() > 0 {
        if precedes(left, right) {
            assert(left.take(0) =~= right.take(0));
        }
        if exists|k: int|
            0 <= k <= left.len() && k < right.len() && #[trigger] left.take(k) == right.take(k) && (k
                == left.len() || left[k] < right[k]) {
            let k = choose|k: int|
                0 <= k <= left.len() && k < right.len() && #[trigger] left.take(k) == right.take(k)
                    && (k == left.len() || left[k] < right[k]);
            if k > 0 {
                assert(left.take(k)[0] == right.take(k)[0]);
            }
        }
    }
}

/// Members in canonical order have strictly growing keys, so no key occurs twice.
pub proof fn canonical_order_is_strict(members: Seq<(Seq<char>, JsonModel)>)
    ensures
        strictly_sorted(ordered(members)),
    decreases members.len(),
{
    if members.len() > 0 {
        canonical_order_is_strict(members.drop_last());
        lemma_placed_sorted(ordered(members.drop_last()), members.last().0, members.last().1);
    }
}

/// Members that are already in canonical order stay as they are.
pub proof fn sorted_members_are_canonical(members: Seq<(Seq<char>, JsonModel)>)
    requires
        strictly_sorted(members),
    ensures
        ordered(members) == members,
    decreases members.len(),
{
    if members.len() > 0 {
        let front = members.drop_last();
        assert(strictly_sorted(front)) by {
            assert forall|i: int, j: int| 0 <= i < j < front.len() implies precedes(
                (#[trigger] front[i]).0,
                (#[trigger] front[j]).0,
            ) by {
                assert(front[i] == members[i] && front[j] == members[j]);
            }
        }
        sorted_members_are_canonical(front);
        let key = members.last().0;
        lemma_slot(front, key, 0);
        let at = slot(front, key, 0);
        if at < front.len() {
            assert(front[at] == members[at]);
            assert(members[members.len() - 1] == members.last());
            assert(precedes(members[at].0, key));
        }
        assert(placed(front, key, members.last().1) =~= front.push(members.last()));
        assert(members =~= front.push(members.last()));
    }
}

/// Whether no two members have one name.
pub open spec fn distinct_keys(members: Seq<(Seq<char>, JsonModel)>) -> bool {
    forall|i: int, j: int|
        0 <= i < j < members.len() ==> (#[trigger] members[i]).0 != (#[trigger] members[j]).0
}

proof fn lemma_ordered_holds(members: Seq<(Seq<char>, JsonModel)>, entry: (Seq<char>, JsonModel))
    requires
        distinct_keys(members),
    ensures
        ordered(members).contains(entry) <==> members.contains(entry),
        ordered(members).len() == members.len(),
    decreases members.len(),
{
    if members.len() > 0 {
        let front = members.drop_last();
        let last = members.last();
        assert(distinct_keys(front)) by {
            assert forall|i: int, j: int| 0 <= i < j < front.len() implies (#[trigger] front[i]).0 != (
            #[trigger] front[j]).0 by {
                assert(front[i] == members[i] && front[j] == members[j]);
            }
        }
        lemma_ordered_holds(front, entry);
        let base = ordered(front);
        lemma_slot(base, last.0, 0);
        let at = slot(base, last.0, 0);
        if at < base.len() && base[at].0 == last.0 {
            let twin = base[at];
            lemma_ordered_holds(front, twin);
            assert(base.contains(twin));
            let k = front.index_of(twin);
            assert(front[k] == twin);
            assert(members[k] == twin && members[members.len() - 1] == last);
            assert(false);
        }
        let after = base.insert(at, last);
        assert(ordered(members) == after);
        assert forall|e: (Seq<char>, JsonModel)| #[trigger] after.contains(e) <==> (base.contains(e)
            || e == last) by {
            if after.contains(e) {
                let i = after.index_of(e);
                assert(after[i] == e);
                if i < at {
                    assert(base[i] == e);
                } else if i > at {
                    assert(base[i - 1] == e);
                }
            }
            if base.contains(e) {
                let i = base.index_of(e);
                assert(base[i] == e);
                if i < at {
                    assert(after[i] == e);
                } else {
                    assert(after[i + 1] == e);
                }
            }
            assert(after[at] == last);
        }
        assert(members =~= front.push(last));
        assert(members.contains(entry) <==> (front.contains(entry) || entry == last)) by {
            if front.contains(entry) {
                let i = front.index_of(entry);
                assert(members[i] == entry);
            }
            assert(members[members.len() - 1] == last);
            if members.contains(entry) {
                let i = members.index_of(entry);
                assert(members[i] == entry);
                if i < front.len() {
                    assert(front[i] == entry);
                }
            }
        }
    }
}

proof fn lemma_sorted_sequences_agree(
    left: Seq<(Seq<char>, JsonModel)>,
    right: Seq<(Seq<char>, JsonModel)>,
)
    requires
        strictly_sorted(left),
        strictly_sorted(right),
        left.len() == right.len(),
        forall|e: (Seq<char>, JsonModel)| #[trigger] left.contains(e) <==> right.contains(e),
    ensures
        left == right,
    decreases left.len(),
{
    if left.len() > 0 {
        let n = left.len() - 1;
        let l = left[n];
        let r = right[n];
        assert(left.contains(l) && right.contains(r));
        assert(right.contains(l) && left.contains(r));
        let i = right.index_of(l);
        let j = left.index_of(r);
        assert(right[i] == l && left[j] == r);
        if i < n && j < n {
            assert(precedes(right[i].0, right[n].0));
            assert(precedes(left[j].0, left[n].0));
            lemma_precedes_transitive(l.0, r.0, l.0);
            lemma_precedes_irreflexive(l.0);
        }
        assert(l == r);
        let lf = left.drop_last();
        let rf = right.drop_last();
        assert(strictly_sorted(lf)) by {
            assert forall|a: int, b: int| 0 <= a < b < lf.len() implies precedes(
                (#[trigger] lf[a]).0,
                (#[trigger] lf[b]).0,
            ) by {
                assert(lf[a] == left[a] && lf[b] == left[b]);
            }
        }
        assert(strictly_sorted(rf)) by {
            assert forall|a: int, b: int| 0 <= a < b < rf.len() implies precedes(
                (#[trigger] rf[a]).0,
                (#[trigger] rf[b]).0,
            ) by {
                assert(rf[a] == right[a] && rf[b] == right[b]);
            }
        }
        assert forall|e: (Seq<char>, JsonModel)| #[trigger] lf.contains(e) <==> rf.contains(e) by {
            lemma_precedes_irreflexive(l.0);
            if lf.contains(e) {
                let k = lf.index_of(e);
                assert(left[k] == e);
                assert(left.contains(e));
                assert(precedes(left[k].0, left[n].0));
                let m = right.index_of(e);
                assert(right[m] == e);
                assert(m < n);
                assert(rf[m] == e);
            }
            if rf.contains(e) {
                let k = rf.index_of(e);
                assert(right[k] == e);
                assert(right.contains(e));
                assert(precedes(right[k].0, right[n].0));
                assert(left.contains(e));
                let m = left.index_of(e);
                assert(left[m] == e);
                assert(m < n);
                assert(lf[m] == e);
            }
        }
        lemma_sorted_sequences_agree(lf, rf);
        assert(left =~= lf.push(l));
        assert(right =~= rf.push(r));
    }
}

/// The order in which an object lists its members does not matter: two objects with the same
/// members, no name twice, have the same canonical form.
pub proof fn member_order_does_not_matter(
    left: Seq<(Seq<char>, JsonModel)>,
    right: Seq<(Seq<char>, JsonModel)>,
)
    requires
        distinct_keys(left),
        distinct_keys(right),
        left.len() == right.len(),
        forall|e: (Seq<char>, JsonModel)| #[trigger] left.contains(e) <==> right.contains(e),
    ensures
        canonical(JsonModel::Object(left)) == canonical(JsonModel::Object(right)),
{
    let l = canonical_members(left);
    let r = canonical_members(right);
    lemma_canonical_keys(left);
    lemma_canonical_keys(right);
    assert forall|e: (Seq<char>, JsonModel)| #[trigger] l.contains(e) <==> r.contains(e) by {
        if l.contains(e) {
            let i = l.index_of(e);
            assert(l[i] == e);
            assert(left.contains(left[i]));
            let j = right.index_of(left[i]);
            assert(right[j] == left[i]);
            assert(r[j] == e);
        }
        if r.contains(e) {
            let i = r.index_of(e);
            assert(r[i] == e);
            assert(right.contains(right[i]));
            assert(left.contains(right[i]));
            let j = left.index_of(right[i]);
            assert(left[j] == right[i]);
            assert(l[j] == e);
        }
    }
    canonical_order_is_strict(l);
    canonical_order_is_strict(r);
    assert forall|e: (Seq<char>, JsonModel)| #[trigger] ordered(l).contains(e) <==> ordered(
        r,
    ).contains(e) by {
        lemma_ordered_holds(l, e);
        lemma_ordered_holds(r, e);
    }
    lemma_ordered_holds(l, (Seq::empty(), JsonModel::Null));
    lemma_ordered_holds(r, (Seq::empty(), JsonModel::Null));
    lemma_sorted_sequences_agree(ordered(l), ordered(r));
}

proof fn lemma_canonical_keys(members: Seq<(Seq<char>, JsonModel)>)
    requires
        distinct_keys(members),
    ensures
        distinct_keys(canonical_members(members)),
{
    let after = canonical_members(members);
    assert forall|i: int, j: int| 0 <= i < j < after.len() implies (#[trigger] after[i]).0 != (
    #[trigger] after[j]).0 by {
        assert(members[i].0 != members[j].0);
    }
}

/// Canonical form is final: taking it again changes nothing.
pub proof fn canonical_form_is_final(value: JsonModel)
    ensures
        canonical(canonical(value)) == canonical(value),
    decreases value,
{
    match value {
        JsonModel::Array(items) => {
            let once = canonical(value);
            assert forall|i: int| 0 <= i < items.len() implies canonical(
                #[trigger] once->Array_0[i],
            ) == once->Array_0[i] by {
                canonical_form_is_final(items[i]);
            }
            assert(canonical(once)->Array_0 =~= once->Array_0);
        },
        JsonModel::Object(members) => {
            let inner = canonical_members(members);
            let once = ordered(inner);
            canonical_order_is_strict(inner);
            assert forall|i: int| 0 <= i < once.len() implies canonical((#[trigger] once[i]).1)
                == once[i].1 by {
                lemma_ordered_comes_from(inner, i);
                let k = choose|k: int| 0 <= k < inner.len() && inner[k] == once[i];
                canonical_form_is_final(members[k].1);
            }
            assert(canonical_members(once) =~= once);
            sorted_members_are_canonical(once);
        },
        _ => {},
    }
}

proof fn lemma_ordered_comes_from(members: Seq<(Seq<char>, JsonModel)>, i: int)
    requires
        0 <= i < ordered(members).len(),
    ensures
        exists|k: int| 0 <= k < members.len() && members[k] == ordered(members)[i],
    decreases members.len(),
{
    if members.len() > 0 {
        let front = members.drop_last();
        let base = ordered(front);
        let last = members.last();
        lemma_slot(base, last.0, 0);
        let at = slot(base, last.0, 0);
        let entry = ordered(members)[i];
        if i == at {
            assert(members[members.len() - 1] == entry);
        } else {
            let source = if at < base.len() && base[at].0 == last.0 {
                i
            } else if i < at {
                i
            } else {
                i - 1
            };
            assert(base[source] == entry);
            lemma_ordered_comes_from(front, source);
            let k = choose|k: int| 0 <= k < front.len() && front[k] == base[source];
            assert(members[k] == entry);
        }
    }
}

/// Puts a member where canonical order wants it, in place of one with the same key.
pub(crate) fn place(members: &mut Vec<Member>, added: Member)
    ensures
        member_models(final(members)@) == placed(
            member_models(old(members)@),
            added.key@,
            added.value@,
        ),
{
    let ghost models = member_models(members@);
    let mut i: usize = 0;
    while i < members.len()
        invariant
            i <= members@.len(),
            models == member_models(members@),
            members@ == old(members)@,
            slot(models, added.key@, 0) == slot(models, added.key@, i as int),
        decreases members@.len() - i,
    {
        assert(models[i as int] == members@[i as int]@);
        let order = order_of(members[i].key.as_str(), added.key.as_str());
        if let Order::Before = order {
            i += 1;
        } else {
            assert(slot(models, added.key@, 0) == i);
            let ghost entry = added@;
            if let Order::Same = order {
                members.set(i, added);
                assert(member_models(members@) =~= models.update(i as int, entry));
            } else {
                members.insert(i, added);
                assert(member_models(members@) =~= models.insert(i as int, entry));
            }
            return;
        }
    }
    let ghost entry = added@;
    members.push(added);
    assert(member_models(members@) =~= models.insert(i as int, entry));
}

/// `value` with the members of every object in it in canonical order.
pub fn canonicalize(value: &Json) -> (canonical_value: Json)
    ensures
        canonical_value@ == canonical(value@),
    decreases value,
{
    match value {
        Json::Array(items) => {
            let mut copies: Vec<Json> = Vec::new();
            for i in 0..items.len()
                invariant
                    *value == Json::Array(*items),
                    copies@.len() == i,
                    forall|j: int| 0 <= j < i ==> (#[trigger] copies@[j])@ == canonical(items@[j]@),
            {
                assert(decreases_to!(*value => value->Array_0));
                assert(decreases_to!(value->Array_0 => value->Array_0@));
                assert(decreases_to!(value->Array_0@ => value->Array_0@[i as int]));
                copies.push(canonicalize(&items[i]));
            }
            proof {
                lemma_array_model(copies);
                lemma_array_model(*items);
                assert(item_models(copies@) =~= canonical(value@)->Array_0);
            }
            Json::Array(copies)
        },
        Json::Object(members) => {
            let ghost models = member_models(members@);
            let ghost inner = canonical_members(models);
            proof {
                an_object_holds_its_members(*members);
            }
            let mut sorted: Vec<Member> = Vec::new();
            assert(member_models(sorted@) =~= ordered(inner.take(0)));
            for i in 0..members.len()
                invariant
                    *value == Json::Object(*members),
                    models == member_models(members@),
                    inner == canonical_members(models),
                    member_models(sorted@) == ordered(inner.take(i as int)),
            {
                assert(decreases_to!(*value => value->Object_0));
                assert(decreases_to!(value->Object_0 => value->Object_0@));
                assert(decreases_to!(value->Object_0@ => value->Object_0@[i as int]));
                assert(decreases_to!(value->Object_0@[i as int] => value->Object_0@[i as int].value));
                assert(models[i as int] == members@[i as int]@);
                assert(inner.take(i + 1).drop_last() =~= inner.take(i as int));
                assert(inner.take(i + 1).last() == inner[i as int]);
                let member = Member {
                    key: members[i].key.clone(),
                    value: canonicalize(&members[i].value),
                };
                place(&mut sorted, member);
            }
            proof {
                assert(inner.take(inner.len() as int) =~= inner);
                an_object_holds_its_members(sorted);
            }
            Json::Object(sorted)
        },
        _ => value.clone(),
    }
}

// ---------------------------------------------------------------------------------------
// The text of a value.
// ---------------------------------------------------------------------------------------

/// How a character is written inside a string: the quote, the backslash and the control characters
/// are escaped, any other stands for itself.
pub open spec fn escaped(c: char) -> Seq<char> {
    let code = c as nat;
    if c == '"' || c == '\\' {
        seq!['\\', c]
    } else if code == 8 {
        seq!['\\', 'b']
    } else if code == 9 {
        seq!['\\', 't']
    } else if code == 10 {
        seq!['\\', 'n']
    } else if code == 12 {
        seq!['\\', 'f']
    } else if code == 13 {
        seq!['\\', 'r']
    } else if code < 32 {
        seq!['\\', 'u', '0', '0', hex_char(code / 16), hex_char(code % 16)]
    } else {
        seq![c]
    }
}

/// The characters of a text as they are written inside a string.
pub open spec fn escaped_text(text: Seq<char>) -> Seq<char>
    decreases text.len(),
{
    if text.len() == 0 {
        Seq::empty()
    } else {
        escaped_text(text.drop_last()) + escaped(text.last())
    }
}

/// A text as a string value: its characters escaped, between quotes.
pub open spec fn json_quoted(text: Seq<char>) -> Seq<char> {
    seq!['"'] + escaped_text(text) + seq!['"']
}

/// `<serde_json::Value as Display>::fmt` on a string value: the text between quotes, its quotes,
/// backslashes and control characters escaped, everything else verbatim.
#[verifier::external_body]
fn quoted(text: &str) -> (quoted: String)
    ensures
        quoted@ == json_quoted(text@),
{
    serde_json::Value::String(text.to_owned()).to_string()
}

/// The compact text of a value: no white space, members and items separated by commas.
pub open spec fn render(value: JsonModel) -> Seq<char>
    decreases value,
{
    match value {
        JsonModel::Null => "null"@,
        JsonModel::Boolean(value) => if value {
            "true"@
        } else {
            "false"@
        },
        JsonModel::Unsigned(value) => decimal(value as nat),
        JsonModel::Number(text) => text,
        JsonModel::Text(text) => json_quoted(text),
        JsonModel::Array(items) => "["@ + render_items(items) + "]"@,
        JsonModel::Object(members) => "{"@ + render_members(members) + "}"@,
    }
}

/// The texts of the items of an array, separated by commas.
pub open spec fn render_items(items: Seq<JsonModel>) -> Seq<char>
    decreases items,
{
    if items.len() == 0 {
        Seq::empty()
    } else if items.len() == 1 {
        render(items[0])
    } else {
        render_items(items.drop_last()) + ","@ + render(items.last())
    }
}

/// The texts of the members of an object, separated by commas.
pub open spec fn render_members(members: Seq<(Seq<char>, JsonModel)>) -> Seq<char>
    decreases members,
{
    if members.len() == 0 {
        Seq::empty()
    } else if members.len() == 1 {
        json_quoted(members[0].0) + ":"@ + render(members[0].1)
    } else {
        render_members(members.drop_last()) + ","@ + json_quoted(members.last().0) + ":"@ + render(
            members.last().1,
        )
    }
}

/// The compact text of `value`.
pub fn json_text(value: &Json) -> (text: String)
    ensures
        text@ == render(value@),
    decreases value,
{
    match value {
        Json::Null => "null".to_owned(),
        Json::Boolean(flag) => if *flag {
            "true".to_owned()
        } else {
            "false".to_owned()
        },
        Json::Unsigned(number) => decimal_text(*number),
        Json::Number(text) => text.clone(),
        Json::Text(text) => quoted(text.as_str()),
        Json::Array(items) => {
            let ghost models = item_models(items@);
            proof {
                lemma_array_model(*items);
            }
            let mut inner = String::new();
            assert(models.take(0) =~= Seq::empty());
            for i in 0..items.len()
                invariant
                    *value == Json::Array(*items),
                    models == item_models(items@),
                    inner@ == render_items(models.take(i as int)),
            {
                assert(decreases_to!(*value => value->Array_0));
                assert(decreases_to!(value->Array_0 => value->Array_0@));
                assert(decreases_to!(value->Array_0@ => value->Array_0@[i as int]));
                assert(models.take(i + 1).drop_last() =~= models.take(i as int));
                assert(models.take(i + 1).last() == items@[i as int]@);
                if i > 0 {
                    inner.append(",");
                }
                let item = json_text(&items[i]);
                let ghost before = inner@;
                inner.append(item.as_str());
                assert(inner@ =~= render_items(models.take(i + 1)));
            }
            assert(models.take(models.len() as int) =~= models);
            let mut text = "[".to_owned();
            text.append(inner.as_str());
            text.append("]");
            text
        },
        Json::Object(members) => {
            let ghost models = member_models(members@);
            proof {
                an_object_holds_its_members(*members);
            }
            let mut inner = String::new();
            assert(models.take(0) =~= Seq::empty());
            for i in 0..members.len()
                invariant
                    *value == Json::Object(*members),
                    models == member_models(members@),
                    inner@ == render_members(models.take(i as int)),
            {
                assert(decreases_to!(*value => value->Object_0));
                assert(decreases_to!(value->Object_0 => value->Object_0@));
                assert(decreases_to!(value->Object_0@ => value->Object_0@[i as int]));
                assert(decreases_to!(value->Object_0@[i as int] => value->Object_0@[i as int].value));
                assert(models.take(i + 1).drop_last() =~= models.take(i as int));
                assert(models.take(i + 1).last() == members@[i as int]@);
                if i > 0 {
                    inner.append(",");
                }
                let key = quoted(members[i].key.as_str());
                let item = json_text(&members[i].value);
                inner.append(key.as_str());
                inner.append(":");
                inner.append(item.as_str());
                assert(inner@ =~= render_members(models.take(i + 1)));
            }
            assert(models.take(models.len() as int) =~= models);
            let mut text = "{".to_owned();
            text.append(inner.as_str());
            text.append("}");
            text
        },
    }
}

/// The text of a value over several lines: every item and member on a line of its own, two spaces
/// further in than what holds it. `indent` is what the lines of the value start with.
pub open spec fn pretty(value: JsonModel, indent: Seq<char>) -> Seq<char>
    decreases value,
{
    match value {
        JsonModel::Array(items) => if items.len() == 0 {
            "[]"@
        } else {
            "["@ + pretty_items(items, indent + "  "@) + "\n"@ + indent + "]"@
        },
        JsonModel::Object(members) => if members.len() == 0 {
            "{}"@
        } else {
            "{"@ + pretty_members(members, indent + "  "@) + "\n"@ + indent + "}"@
        },
        _ => render(value),
    }
}

/// The lines of the items of an array.
pub open spec fn pretty_items(items: Seq<JsonModel>, indent: Seq<char>) -> Seq<char>
    decreases items,
{
    if items.len() == 0 {
        Seq::empty()
    } else {
        let before = if items.len() == 1 {
            Seq::empty()
        } else {
            pretty_items(items.drop_last(), indent) + ","@
        };
        before + "\n"@ + indent + pretty(items.last(), indent)
    }
}

/// The lines of the members of an object.
pub open spec fn pretty_members(members: Seq<(Seq<char>, JsonModel)>, indent: Seq<char>) -> Seq<char>
    decreases members,
{
    if members.len() == 0 {
        Seq::empty()
    } else {
        let before = if members.len() == 1 {
            Seq::empty()
        } else {
            pretty_members(members.drop_last(), indent) + ","@
        };
        before + "\n"@ + indent + json_quoted(members.last().0) + ": "@ + pretty(
            members.last().1,
            indent,
        )
    }
}

/// The text of `value` over several lines.
pub fn pretty_text(value: &Json, indent: &str) -> (text: String)
    ensures
        text@ == pretty(value@, indent@),
    decreases value,
{
    match value {
        Json::Array(items) => {
            let ghost models = item_models(items@);
            proof {
                lemma_array_model(*items);
            }
            if items.len() == 0 {
                return "[]".to_owned();
            }
            let deeper = joined(indent, "  ");
            let mut inner = String::new();
            assert(models.take(0) =~= Seq::empty());
            for i in 0..items.len()
                invariant
                    *value == Json::Array(*items),
                    models == item_models(items@),
                    inner@ == pretty_items(models.take(i as int), deeper@),
            {
                assert(decreases_to!(*value => value->Array_0));
                assert(decreases_to!(value->Array_0 => value->Array_0@));
                assert(decreases_to!(value->Array_0@ => value->Array_0@[i as int]));
                assert(models.take(i + 1).drop_last() =~= models.take(i as int));
                assert(models.take(i + 1).last() == items@[i as int]@);
                if i > 0 {
                    inner.append(",");
                }
                let item = pretty_text(&items[i], deeper.as_str());
                inner.append("\n");
                inner.append(deeper.as_str());
                inner.append(item.as_str());
                assert(inner@ =~= pretty_items(models.take(i + 1), deeper@));
            }
            assert(models.take(models.len() as int) =~= models);
            let mut text = "[".to_owned();
            text.append(inner.as_str());
            text.append("\n");
            text.append(indent);
            text.append("]");
            text
        },
        Json::Object(members) => {
            let ghost models = member_models(members@);
            proof {
                an_object_holds_its_members(*members);
            }
            if members.len() == 0 {
                return "{}".to_owned();
            }
            let deeper = joined(indent, "  ");
            let mut inner = String::new();
            assert(models.take(0) =~= Seq::empty());
            for i in 0..members.len()
                invariant
                    *value == Json::Object(*members),
                    models == member_models(members@),
                    inner@ == pretty_members(models.take(i as int), deeper@),
            {
                assert(decreases_to!(*value => value->Object_0));
                assert(decreases_to!(value->Object_0 => value->Object_0@));
                assert(decreases_to!(value->Object_0@ => value->Object_0@[i as int]));
                assert(decreases_to!(value->Object_0@[i as int] => value->Object_0@[i as int].value));
                assert(models.take(i + 1).drop_last() =~= models.take(i as int));
                assert(models.take(i + 1).last() == members@[i as int]@);
                if i > 0 {
                    inner.append(",");
                }
                let key = quoted(members[i].key.as_str());
                let item = pretty_text(&members[i].value, deeper.as_str());
                inner.append("\n");
                inner.append(deeper.as_str());
                inner.append(key.as_str());
                inner.append(": ");
                inner.append(item.as_str());
                assert(inner@ =~= pretty_members(models.take(i + 1), deeper@));
            }
            assert(models.take(models.len() as int) =~= models);
            let mut text = "{".to_owned();
            text.append(inner.as_str());
            text.append("\n");
            text.append(indent);
            text.append("}");
            text
        },
        _ => json_text(value),
    }
}

// ---------------------------------------------------------------------------------------
// Reading a text.
// ---------------------------------------------------------------------------------------

/// The compact text of the value that `serde_json::from_slice` reads from `bytes`, when they hold
/// one.
pub uninterp spec fn json_compact(bytes: Seq<u8>) -> Option<Seq<char>>;

/// What `serde_json::from_str` reads from `text` as a string.
pub uninterp spec fn json_string(text: Seq<char>) -> Option<Seq<char>>;

/// What `serde_json::from_str` reads from `text` as an array: the compact texts of its items.
pub uninterp spec fn json_items(text: Seq<char>) -> Option<Seq<Seq<char>>>;

/// What `serde_json::from_str` reads from `text` as an object: its keys, each with the compact
/// text of its value.
pub uninterp spec fn json_entries(text: Seq<char>) -> Option<Seq<(Seq<char>, Seq<char>)>>;

/// `serde_json::from_slice` into a value, rendered compactly.
#[verifier::external_body]
fn compact_text(bytes: &[u8]) -> (text: Option<String>)
    ensures
        match text {
            Some(text) => json_compact(bytes@) == Some(text@),
            None => json_compact(bytes@) is None,
        },
{
    serde_json::from_slice::<serde_json::Value>(bytes).ok().map(|value| value.to_string())
}

/// `serde_json::from_str` into a string.
#[verifier::external_body]
fn string_of(text: &str) -> (string: Option<String>)
    ensures
        match string {
            Some(string) => json_string(text@) == Some(string@),
            None => json_string(text@) is None,
        },
{
    serde_json::from_str::<String>(text).ok()
}

/// The characters of each of several pairs of strings.
pub open spec fn text_pairs(pairs: Seq<(String, String)>) -> Seq<(Seq<char>, Seq<char>)> {
    Seq::new(pairs.len(), |i: int| (pairs[i].0@, pairs[i].1@))
}

/// `serde_json::from_str` into a vector of values, each rendered compactly.
#[verifier::external_body]
fn items_of(text: &str) -> (items: Option<Vec<String>>)
    ensures
        match items {
            Some(items) => json_items(text@) == Some(texts(items@)),
            None => json_items(text@) is None,
        },
{
    let items = serde_json::from_str::<Vec<serde_json::Value>>(text).ok()?;
    Some(items.into_iter().map(|item| item.to_string()).collect())
}

/// `serde_json::from_str` into an object map, each value rendered compactly.
#[verifier::external_body]
fn entries_of(text: &str) -> (entries: Option<Vec<(String, String)>>)
    ensures
        match entries {
            Some(entries) => json_entries(text@) == Some(text_pairs(entries@)),
            None => json_entries(text@) is None,
        },
{
    let entries = serde_json::from_str::<serde_json::Map<String, serde_json::Value>>(text).ok()?;
    Some(entries.into_iter().map(|(key, value)| (key, value.to_string())).collect())
}

/// How deep arrays and objects may nest; the reader itself refuses anything deeper.
pub const NESTING_LIMIT: u8 = 128;

/// The value a compact text spells, when its arrays and objects nest no deeper than `depth`.
pub open spec fn value_of_text(text: Seq<char>, depth: nat) -> Option<JsonModel>
    decreases depth, 0nat,
{
    if text == "null"@ {
        Some(JsonModel::Null)
    } else if text == "true"@ {
        Some(JsonModel::Boolean(true))
    } else if text == "false"@ {
        Some(JsonModel::Boolean(false))
    } else if let Some(string) = json_string(text) {
        Some(JsonModel::Text(string))
    } else if let Some(items) = json_items(text) {
        if depth == 0 {
            None
        } else {
            match values_of_texts(items, (depth - 1) as nat) {
                Some(items) => Some(JsonModel::Array(items)),
                None => None,
            }
        }
    } else if let Some(entries) = json_entries(text) {
        if depth == 0 {
            None
        } else {
            match members_of_texts(entries, (depth - 1) as nat) {
                Some(members) => Some(JsonModel::Object(members)),
                None => None,
            }
        }
    } else if let Some(number) = unsigned_number(text, 10, u64::MAX as nat) {
        Some(JsonModel::Unsigned(number as u64))
    } else {
        Some(JsonModel::Number(text))
    }
}

/// The values several compact texts spell, when each of them spells one.
pub open spec fn values_of_texts(items: Seq<Seq<char>>, depth: nat) -> Option<Seq<JsonModel>>
    decreases depth, 1 + items.len(),
{
    if items.len() == 0 {
        Some(Seq::empty())
    } else {
        match (values_of_texts(items.drop_last(), depth), value_of_text(items.last(), depth)) {
            (Some(front), Some(last)) => Some(front.push(last)),
            _ => None,
        }
    }
}

/// The members several keys with compact texts spell, when each text spells a value.
pub open spec fn members_of_texts(entries: Seq<(Seq<char>, Seq<char>)>, depth: nat) -> Option<
    Seq<(Seq<char>, JsonModel)>,
>
    decreases depth, 1 + entries.len(),
{
    if entries.len() == 0 {
        Some(Seq::empty())
    } else {
        match (members_of_texts(entries.drop_last(), depth), value_of_text(entries.last().1, depth)) {
            (Some(front), Some(last)) => Some(front.push((entries.last().0, last))),
            _ => None,
        }
    }
}

/// The value `bytes` hold as JSON, when they hold one.
pub open spec fn value_of_bytes(bytes: Seq<u8>) -> Option<JsonModel> {
    match json_compact(bytes) {
        Some(text) => value_of_text(text, NESTING_LIMIT as nat),
        None => None,
    }
}

/// The value an owned value that may be absent stands for.
pub open spec fn owned_model(json: Option<Json>) -> Option<JsonModel> {
    match json {
        Some(json) => Some(json@),
        None => None,
    }
}

proof fn lemma_values_need_each(items: Seq<Seq<char>>, depth: nat, n: int)
    requires
        0 <= n <= items.len(),
        values_of_texts(items.take(n), depth) is None,
    ensures
        values_of_texts(items, depth) is None,
    decreases items.len(),
{
    if n < items.len() {
        assert(items.drop_last().take(n) =~= items.take(n));
        lemma_values_need_each(items.drop_last(), depth, n);
    } else {
        assert(items.take(n) =~= items);
    }
}

proof fn lemma_members_need_each(entries: Seq<(Seq<char>, Seq<char>)>, depth: nat, n: int)
    requires
        0 <= n <= entries.len(),
        members_of_texts(entries.take(n), depth) is None,
    ensures
        members_of_texts(entries, depth) is None,
    decreases entries.len(),
{
    if n < entries.len() {
        assert(entries.drop_last().take(n) =~= entries.take(n));
        lemma_members_need_each(entries.drop_last(), depth, n);
    } else {
        assert(entries.take(n) =~= entries);
    }
}

fn read_text(text: &str, depth: u8) -> (value: Option<Json>)
    ensures
        owned_model(value) == value_of_text(text@, depth as nat),
    decreases depth,
{
    if same(text, "null") {
        return Some(Json::Null);
    }
    if same(text, "true") {
        return Some(Json::Boolean(true));
    }
    if same(text, "false") {
        return Some(Json::Boolean(false));
    }
    if let Some(string) = string_of(text) {
        return Some(Json::Text(string));
    }
    if let Some(items) = items_of(text) {
        if depth == 0 {
            return None;
        }
        let ghost all = texts(items@);
        let ghost below = (depth - 1) as nat;
        let mut values: Vec<Json> = Vec::new();
        assert(item_models(values@) =~= Seq::empty());
        assert(all.take(0) =~= Seq::empty());
        for i in 0..items.len()
            invariant
                depth > 0,
                below == depth - 1,
                all == texts(items@),
                values_of_texts(all.take(i as int), below) == Some(item_models(values@)),
                value_of_text(text@, depth as nat) == (match values_of_texts(all, below) {
                    Some(items) => Some(JsonModel::Array(items)),
                    None => None,
                }),
        {
            assert(all.take(i + 1).drop_last() =~= all.take(i as int));
            assert(all.take(i + 1).last() == items@[i as int]@);
            match read_text(items[i].as_str(), depth - 1) {
                Some(value) => {
                    let ghost before = item_models(values@);
                    let ghost added = value@;
                    values.push(value);
                    assert(item_models(values@) =~= before.push(added));
                },
                None => {
                    proof {
                        lemma_values_need_each(all, below, i + 1);
                    }
                    return None;
                },
            }
        }
        proof {
            assert(all.take(all.len() as int) =~= all);
            lemma_array_model(values);
        }
        return Some(Json::Array(values));
    }
    if let Some(entries) = entries_of(text) {
        if depth == 0 {
            return None;
        }
        let ghost all = text_pairs(entries@);
        let ghost below = (depth - 1) as nat;
        let mut members: Vec<Member> = Vec::new();
        assert(member_models(members@) =~= Seq::empty());
        assert(all.take(0) =~= Seq::empty());
        for i in 0..entries.len()
            invariant
                depth > 0,
                below == depth - 1,
                all == text_pairs(entries@),
                members_of_texts(all.take(i as int), below) == Some(member_models(members@)),
                value_of_text(text@, depth as nat) == (match members_of_texts(all, below) {
                    Some(members) => Some(JsonModel::Object(members)),
                    None => None,
                }),
        {
            assert(all.take(i + 1).drop_last() =~= all.take(i as int));
            assert(all.take(i + 1).last() == (entries@[i as int].0@, entries@[i as int].1@));
            match read_text(entries[i].1.as_str(), depth - 1) {
                Some(value) => {
                    let ghost before = member_models(members@);
                    let member = Member { key: entries[i].0.clone(), value };
                    let ghost added = member@;
                    members.push(member);
                    assert(member_models(members@) =~= before.push(added));
                },
                None => {
                    proof {
                        lemma_members_need_each(all, below, i + 1);
                    }
                    return None;
                },
            }
        }
        proof {
            assert(all.take(all.len() as int) =~= all);
            an_object_holds_its_members(members);
        }
        return Some(Json::Object(members));
    }
    let chars = chars_of(text);
    match parse_unsigned(chars.as_slice(), 10, u64::MAX) {
        Some(number) => Some(Json::Unsigned(number)),
        None => Some(Json::Number(text.to_owned())),
    }
}

impl Json {
    /// The value `bytes` hold as JSON, when they hold one.
    pub fn parse(bytes: &[u8]) -> (value: Option<Json>)
        ensures
            owned_model(value) == value_of_bytes(bytes@),
    {
        match compact_text(bytes) {
            Some(text) => read_text(text.as_str(), NESTING_LIMIT),
            None => None,
        }
    }
}

// ---------------------------------------------------------------------------------------
// Laws of the text of a value.
// ---------------------------------------------------------------------------------------

/// What has no parts is written as JSON has it: by its word, by its decimal number, or as a text
/// between quotes.
pub proof fn a_simple_value_is_written_by_its_word(value: Json, text: String)
    requires
        call_ensures(json_text, (&value,), text),
    ensures
        value@ is Null ==> text@ == "null"@,
        value@ == JsonModel::Boolean(true) ==> text@ == "true"@,
        value@ == JsonModel::Boolean(false) ==> text@ == "false"@,
        value@ matches JsonModel::Unsigned(n) ==> text@ == decimal(n as nat),
        value@ matches JsonModel::Number(number) ==> text@ == number,
        value@ is Text ==> text@.len() >= 2 && text@[0] == '"' && text@.last() == '"',
        value@ matches JsonModel::Text(plain) ==> (forall|i: int|
            0 <= i < plain.len() ==> #[trigger] plain[i] != '"' && plain[i] != '\\' && plain[i]
                as nat >= 32) ==> text@ == seq!['"'] + plain + seq!['"'],
{
    if let JsonModel::Text(plain) = value@ {
        if forall|i: int|
            0 <= i < plain.len() ==> #[trigger] plain[i] != '"' && plain[i] != '\\' && plain[i]
                as nat >= 32 {
            lemma_plain_text(plain);
        }
    }
}

proof fn lemma_plain_text(plain: Seq<char>)
    requires
        forall|i: int|
            0 <= i < plain.len() ==> #[trigger] plain[i] != '"' && plain[i] != '\\' && plain[i]
                as nat >= 32,
    ensures
        escaped_text(plain) == plain,
    decreases plain.len(),
{
    if plain.len() > 0 {
        let front = plain.drop_last();
        assert forall|i: int| 0 <= i < front.len() implies #[trigger] front[i] != '"' && front[i]
            != '\\' && front[i] as nat >= 32 by {
            assert(front[i] == plain[i]);
        }
        lemma_plain_text(front);
        assert(plain[plain.len() - 1] != '"');
        assert(front + seq![plain.last()] =~= plain);
    } else {
        assert(escaped_text(plain) =~= plain);
    }
}

/// A quote, a backslash or a control character is never written as it is: a backslash stands before
/// it or before what stands for it.
pub proof fn an_escape_begins_with_a_backslash(c: char)
    ensures
        c == '"' || c == '\\' || (c as nat) < 32 <==> escaped(c).len() > 1,
        escaped(c).len() > 1 ==> escaped(c)[0] == '\\',
        escaped(c).len() == 1 ==> escaped(c)[0] == c,
        escaped('"') == seq!['\\', '"'] && escaped('\\') == seq!['\\', '\\'],
        escaped('\n') == seq!['\\', 'n'] && escaped('\r') == seq!['\\', 'r'] && escaped('\t')
            == seq!['\\', 't'],
        escaped(c).len() > 2 ==> escaped(c).len() == 6 && escaped(c)[1] == 'u' && escaped(c)[2]
            == '0' && escaped(c)[3] == '0' && 16 * digit_value(escaped(c)[4]) + digit_value(
            escaped(c)[5],
        ) == c as nat,
{
}

/// One more item is written behind those before it, with a comma between them, and one more member
/// likewise, by its key and a colon.
pub proof fn one_more_part_is_written_behind_the_others(
    items: Seq<JsonModel>,
    item: JsonModel,
    members: Seq<(Seq<char>, JsonModel)>,
    key: Seq<char>,
)
    ensures
        render(JsonModel::Array(Seq::empty())) == "[]"@,
        render(JsonModel::Object(Seq::empty())) == "{}"@,
        ({
            let shorter = render(JsonModel::Array(items));
            let longer = render(JsonModel::Array(items.push(item)));
            &&& items.len() == 0 ==> longer == "["@ + render(item) + "]"@
            &&& items.len() > 0 ==> longer == shorter.drop_last() + ","@ + render(item) + "]"@
        }),
        ({
            let shorter = render(JsonModel::Object(members));
            let longer = render(JsonModel::Object(members.push((key, item))));
            let part = render(JsonModel::Text(key)) + ":"@ + render(item);
            &&& members.len() == 0 ==> longer == "{"@ + part + "}"@
            &&& members.len() > 0 ==> longer == shorter.drop_last() + ","@ + part + "}"@
        }),
{
    reveal_strlit("[");
    reveal_strlit("]");
    reveal_strlit("{");
    reveal_strlit("}");
    reveal_strlit("[]");
    reveal_strlit("{}");
    assert("["@ + Seq::<char>::empty() + "]"@ =~= "[]"@);
    assert("{"@ + Seq::<char>::empty() + "}"@ =~= "{}"@);
    let more = items.push(item);
    assert(more.drop_last() =~= items);
    assert(more.last() == item);
    let shorter = render(JsonModel::Array(items));
    assert(shorter.drop_last() =~= "["@ + render_items(items));
    let all = members.push((key, item));
    assert(all.drop_last() =~= members);
    assert(all.last() == (key, item));
    let narrower = render(JsonModel::Object(members));
    assert(narrower.drop_last() =~= "{"@ + render_members(members));
    if items.len() > 0 {
        assert(render(JsonModel::Array(more)) =~= shorter.drop_last() + ","@ + render(item) + "]"@);
    }
    let part = render(JsonModel::Text(key)) + ":"@ + render(item);
    if members.len() > 0 {
        assert(render(JsonModel::Object(all)) =~= narrower.drop_last() + ","@ + part + "}"@);
    } else {
        assert(render(JsonModel::Object(all)) =~= "{"@ + part + "}"@);
    }
}

proof fn lemma_lines_joined(
    open: Seq<char>,
    before: Seq<char>,
    feed: Seq<char>,
    indent: Seq<char>,
    step: Seq<char>,
    part: Seq<char>,
    close: Seq<char>,
)
    ensures
        open + (before + feed + (indent + step) + part) + feed + indent + close == (open + before)
            + (feed + indent + step + part) + (feed + indent + close),
{
    assert(open + (before + feed + (indent + step) + part) + feed + indent + close =~= (open
        + before) + (feed + indent + step + part) + (feed + indent + close));
}

proof fn lemma_front_of(open: Seq<char>, inner: Seq<char>, feed: Seq<char>, indent: Seq<char>,
    close: Seq<char>)
    ensures
        ({
            let whole = open + inner + feed + indent + close;
            let end = feed + indent + close;
            whole.take(whole.len() - end.len()) == open + inner
        }),
{
    let whole = open + inner + feed + indent + close;
    let end = feed + indent + close;
    assert(whole.take(whole.len() - end.len()) =~= open + inner);
}

/// Over several lines the items of an array stand in the same order, each on a line of its own that
/// begins two spaces further in, and the bracket that closes them on a line that begins as the value
/// does.
pub proof fn one_more_item_has_its_own_line(
    items: Seq<JsonModel>,
    item: JsonModel,
    indent: Seq<char>,
)
    ensures
        pretty(JsonModel::Array(Seq::empty()), indent) == "[]"@,
        ({
            let line = "\n"@ + indent + "  "@ + pretty(item, indent + "  "@);
            let end = "\n"@ + indent + "]"@;
            let shorter = pretty(JsonModel::Array(items), indent);
            let longer = pretty(JsonModel::Array(items.push(item)), indent);
            &&& items.len() == 0 ==> longer == "["@ + line + end
            &&& items.len() > 0 ==> longer == shorter.take(shorter.len() - end.len()) + ","@ + line
                + end
        }),
{
    let deeper = indent + "  "@;
    let more = items.push(item);
    assert(more.drop_last() =~= items);
    assert(more.last() == item);
    let inner = pretty_items(items, deeper);
    let before = if items.len() == 0 {
        Seq::empty()
    } else {
        inner + ","@
    };
    let part = pretty(item, deeper);
    lemma_lines_joined("["@, before, "\n"@, indent, "  "@, part, "]"@);
    if items.len() == 0 {
        assert("["@ + Seq::<char>::empty() =~= "["@);
    } else {
        lemma_front_of("["@, inner, "\n"@, indent, "]"@);
        assert("["@ + (inner + ","@) =~= "["@ + inner + ","@);
    }
}

/// The members of an object likewise, each by its key, a colon and a space.
pub proof fn one_more_member_has_its_own_line(
    members: Seq<(Seq<char>, JsonModel)>,
    key: Seq<char>,
    value: JsonModel,
    indent: Seq<char>,
)
    ensures
        pretty(JsonModel::Object(Seq::empty()), indent) == "{}"@,
        ({
            let row = render(JsonModel::Text(key)) + ": "@ + pretty(value, indent + "  "@);
            let line = "\n"@ + indent + "  "@ + row;
            let end = "\n"@ + indent + "}"@;
            let shorter = pretty(JsonModel::Object(members), indent);
            let longer = pretty(JsonModel::Object(members.push((key, value))), indent);
            &&& members.len() == 0 ==> longer == "{"@ + line + end
            &&& members.len() > 0 ==> longer == shorter.take(shorter.len() - end.len()) + ","@
                + line + end
        }),
{
    let deeper = indent + "  "@;
    let all = members.push((key, value));
    assert(all.drop_last() =~= members);
    assert(all.last() == (key, value));
    let inner = pretty_members(members, deeper);
    let before = if members.len() == 0 {
        Seq::empty()
    } else {
        inner + ","@
    };
    let name = json_quoted(key);
    let told = pretty(value, deeper);
    let row = name + ": "@ + told;
    assert(before + "\n"@ + deeper + name + ": "@ + told =~= before + "\n"@ + deeper + row);
    lemma_lines_joined("{"@, before, "\n"@, indent, "  "@, row, "}"@);
    if members.len() == 0 {
        assert("{"@ + Seq::<char>::empty() =~= "{"@);
    } else {
        lemma_front_of("{"@, inner, "\n"@, indent, "}"@);
        assert("{"@ + (inner + ","@) =~= "{"@ + inner + ","@);
    }
}

// ---------------------------------------------------------------------------------------
// Laws of reading a text.
// ---------------------------------------------------------------------------------------

proof fn lemma_values_read(items: Seq<Seq<char>>, depth: nat, i: int)
    requires
        values_of_texts(items, depth) is Some,
    ensures
        values_of_texts(items, depth)->0.len() == items.len(),
        0 <= i < items.len() ==> value_of_text(items[i], depth) == Some(
            values_of_texts(items, depth)->0[i],
        ),
    decreases items.len(),
{
    if items.len() > 0 {
        lemma_values_read(items.drop_last(), depth, i);
    }
}

proof fn lemma_members_read(entries: Seq<(Seq<char>, Seq<char>)>, depth: nat, i: int)
    requires
        members_of_texts(entries, depth) is Some,
    ensures
        members_of_texts(entries, depth)->0.len() == entries.len(),
        0 <= i < entries.len() ==> members_of_texts(entries, depth)->0[i].0 == entries[i].0
            && value_of_text(entries[i].1, depth) == Some(
            members_of_texts(entries, depth)->0[i].1,
        ),
    decreases entries.len(),
{
    if entries.len() > 0 {
        lemma_members_read(entries.drop_last(), depth, i);
    }
}

/// A value is read part by part: each item of an array and each member of an object is the value of
/// its own text, in order, and a member keeps its key. The words stand for what they say.
pub proof fn a_value_is_read_part_by_part(text: Seq<char>, depth: nat, i: int)
    ensures
        value_of_text("null"@, depth) == Some(JsonModel::Null),
        value_of_text("true"@, depth) == Some(JsonModel::Boolean(true)),
        value_of_text("false"@, depth) == Some(JsonModel::Boolean(false)),
        value_of_text(text, depth) matches Some(JsonModel::Array(items)) ==> {
            &&& depth > 0 && json_items(text) is Some
            &&& items.len() == json_items(text)->0.len()
            &&& 0 <= i < items.len() ==> value_of_text(json_items(text)->0[i], (depth - 1) as nat)
                == Some(items[i])
        },
        value_of_text(text, depth) matches Some(JsonModel::Object(members)) ==> {
            &&& depth > 0 && json_entries(text) is Some
            &&& members.len() == json_entries(text)->0.len()
            &&& 0 <= i < members.len() ==> members[i].0 == json_entries(text)->0[i].0
                && value_of_text(json_entries(text)->0[i].1, (depth - 1) as nat) == Some(
                members[i].1,
            )
        },
        value_of_text(text, depth) matches Some(JsonModel::Text(string)) ==> json_string(text)
            == Some(string),
        value_of_text(text, depth) matches Some(JsonModel::Unsigned(n)) ==> unsigned_number(
            text,
            10,
            u64::MAX as nat,
        ) == Some(n as nat),
        value_of_text(text, depth) matches Some(JsonModel::Number(number)) ==> number == text,
{
    reveal_strlit("null");
    reveal_strlit("true");
    reveal_strlit("false");
    assert("null"@[0] != "true"@[0]);
    assert("null"@.len() != "false"@.len());
    assert("true"@.len() != "false"@.len());
    if depth > 0 {
        if let Some(items) = json_items(text) {
            if values_of_texts(items, (depth - 1) as nat) is Some {
                lemma_values_read(items, (depth - 1) as nat, i);
            }
        }
        if let Some(entries) = json_entries(text) {
            if members_of_texts(entries, (depth - 1) as nat) is Some {
                lemma_members_read(entries, (depth - 1) as nat, i);
            }
        }
    }
}

} // verus!
