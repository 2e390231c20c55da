//! A station document as a tree of JSON values, for those who would rather
//! have all of it than the readings alone.

use crate::error::{Field, MappingError, QueryError};
use crate::json::text_view;
use crate::number::{is_json_number, reads_as_json_number};
use vstd::prelude::*;

verus! {

/// A JSON value. An object holds its members as a list, in the order in
/// which they were met. A text says whether it reads as a number, as the
/// value of a reading does.
#[derive(Debug, PartialEq, Eq)]
pub enum JsonValue {
    Null,
    Bool(bool),
    /// A number as JSON spells it.
    Number { json: String },
    /// A text and, if it reads as a number, that number as JSON spells it.
    Text { text: String, number: Option<String> },
    Array(Vec<JsonValue>),
    Object(Vec<(String, JsonValue)>),
}

/// A [`JsonValue`] as mathematics sees it.
pub enum JsonView {
    Null,
    Bool(bool),
    Number { json: Seq<char> },
    Text { text: Seq<char>, number: Option<Seq<char>> },
    Array(Seq<JsonView>),
    Object(Seq<(Seq<char>, JsonView)>),
}

/// A [`JsonValue`] as mathematics sees it.
pub open spec fn json_view(value: JsonValue) -> JsonView
    decreases value,
{
    match value {
        JsonValue::Null => JsonView::Null,
        JsonValue::Bool(b) => JsonView::Bool(b),
        JsonValue::Number { json } => JsonView::Number { json: json@ },
        JsonValue::Text { text, number } => JsonView::Text {
            text: text@,
            number: text_view(number),
        },
        JsonValue::Array(items) => JsonView::Array(
            Seq::new(
                items.len() as nat,
                |i: int|
                    if 0 <= i < items.len() {
                        json_view(items[i])
                    } else {
                        JsonView::Null
                    },
            ),
        ),
        JsonValue::Object(members) => JsonView::Object(
            Seq::new(
                members.len() as nat,
                |i: int|
                    if 0 <= i < members.len() {
                        (members[i].0@, json_view(members[i].1))
                    } else {
                        (Seq::empty(), JsonView::Null)
                    },
            ),
        ),
    }
}

impl View for JsonValue {
    type V = JsonView;

    open spec fn view(&self) -> JsonView {
        json_view(*self)
    }
}

/// Whether one of the members has the key `$value`, under which the text
/// of an element stands.
pub open spec fn has_text_member(members: Seq<(Seq<char>, JsonView)>) -> bool {
    exists|i: int| 0 <= i < members.len() && (#[trigger] members[i]).0 == "$value"@
}

/// A value made ready to be shown. A text that reads as a number for which
/// JSON has a number becomes that number. In an object the member `$value`
/// gets the key `value`, and a member that had that key gives way to it.
/// This goes for the values within a value too.
pub open spec fn converted(value: JsonView) -> JsonView
    decreases value, 0nat,
{
    match value {
        JsonView::Text { text, number: Some(number) } => if is_json_number(number) {
            JsonView::Number { json: number }
        } else {
            value
        },
        JsonView::Array(items) => JsonView::Array(converted_items(items, items.len())),
        JsonView::Object(members) => JsonView::Object(
            converted_members(members, members.len(), has_text_member(members)),
        ),
        _ => value,
    }
}

/// The first `count` of `items`, each made ready.
pub open spec fn converted_items(items: Seq<JsonView>, count: nat) -> Seq<JsonView>
    decreases items, count,
{
    if count == 0 || count > items.len() {
        Seq::empty()
    } else {
        converted_items(items, (count - 1) as nat).push(converted(items[count - 1]))
    }
}

/// The first `count` of `members`, each made ready, with the key `value`
/// for `$value`; where `renaming` holds, without those that had the key
/// `value` before.
pub open spec fn converted_members(
    members: Seq<(Seq<char>, JsonView)>,
    count: nat,
    renaming: bool,
) -> Seq<(Seq<char>, JsonView)>
    decreases members, count,
{
    if count == 0 || count > members.len() {
        Seq::empty()
    } else {
        let before = converted_members(members, (count - 1) as nat, renaming);
        let member = members[count - 1];
        if member.0 == "$value"@ {
            before.push(("value"@, converted(member.1)))
        } else if renaming && member.0 == "value"@ {
            before
        } else {
            before.push((member.0, converted(member.1)))
        }
    }
}

/// The first `count` of `items` made ready are `count` values, each the one
/// in its place made ready.
proof fn converted_items_in_place(items: Seq<JsonView>, count: nat)
    requires
        count <= items.len(),
    ensures
        converted_items(items, count).len() == count,
        forall|i: int|
            0 <= i < count ==> #[trigger] converted_items(items, count)[i] == converted(items[i]),
    decreases count,
{
    if count > 0 {
        converted_items_in_place(items, (count - 1) as nat);
    }
}

/// Whether one of the members has the key `$value`.
fn holds_text_member(members: &Vec<(String, JsonValue)>) -> (r: bool)
    ensures
        r == has_text_member(JsonValue::Object(*members)@->Object_0),
{
    let slot = String::from_str("$value");
    let ghost viewed = JsonValue::Object(*members)@->Object_0;
    let mut i: usize = 0;
    while i < members.len()
        invariant
            i <= members.len(),
            slot@ == "$value"@,
            viewed == JsonValue::Object(*members)@->Object_0,
            forall|j: int| 0 <= j < i ==> (#[trigger] viewed[j]).0 != "$value"@,
        decreases members.len() - i,
    {
        if members[i].0 == slot {
            assert(viewed[i as int].0 == "$value"@);
            return true;
        }
        i += 1;
    }
    false
}

/// Makes a value ready to be shown: a text that reads as a number for which
/// JSON has a number becomes that number, and in an object the member
/// `$value` gets the key `value`, throughout the value.
#[verifier::loop_isolation(false)]
pub fn convert_json_value(value: &JsonValue) -> (r: JsonValue)
    ensures
        r@ == converted(value@),
    decreases value,
{
    match value {
        JsonValue::Null => JsonValue::Null,
        JsonValue::Bool(b) => JsonValue::Bool(*b),
        JsonValue::Number { json } => JsonValue::Number { json: json.clone() },
        JsonValue::Text { text, number } => match number {
            Some(spelling) => {
                if reads_as_json_number(spelling.as_str()) {
                    JsonValue::Number { json: spelling.clone() }
                } else {
                    JsonValue::Text { text: text.clone(), number: Some(spelling.clone()) }
                }
            },
            None => JsonValue::Text { text: text.clone(), number: None },
        },
        JsonValue::Array(items) => {
            let ghost viewed = value@->Array_0;
            let mut ready: Vec<JsonValue> = Vec::new();
            let mut i: usize = 0;
            while i < items.len()
                invariant
                    i <= items.len(),
                    ready.len() == i,
                    forall|j: int| 0 <= j < i ==> (#[trigger] ready[j])@ == converted(viewed[j]),
                decreases items.len() - i,
            {
                let item = convert_json_value(&items[i]);
                assert(viewed[i as int] == items[i as int]@);
                ready.push(item);
                i += 1;
            }
            proof {
                converted_items_in_place(viewed, viewed.len());
                assert(JsonValue::Array(ready)@->Array_0 =~= converted_items(viewed, viewed.len()));
            }
            JsonValue::Array(ready)
        },
        JsonValue::Object(members) => {
            let ghost viewed = value@->Object_0;
            let renaming = holds_text_member(members);
            let slot = String::from_str("$value");
            let plain = String::from_str("value");
            let mut ready: Vec<(String, JsonValue)> = Vec::new();
            let mut i: usize = 0;
            while i < members.len()
                invariant
                    i <= members.len(),
                    slot@ == "$value"@,
                    plain@ == "value"@,
                    JsonValue::Object(ready)@->Object_0 == converted_members(
                        viewed,
                        i as nat,
                        renaming,
                    ),
                decreases members.len() - i,
            {
                let ghost before = JsonValue::Object(ready)@->Object_0;
                assert(viewed[i as int] == (members[i as int].0@, members[i as int].1@));
                if members[i].0 == slot {
                    let member = convert_json_value(&members[i].1);
                    ready.push((plain.clone(), member));
                    assert(JsonValue::Object(ready)@->Object_0 =~= before.push(
                        ("value"@, converted(viewed[i as int].1)),
                    ));
                } else if renaming && members[i].0 == plain {
                } else {
                    let member = convert_json_value(&members[i].1);
                    ready.push((members[i].0.clone(), member));
                    assert(JsonValue::Object(ready)@->Object_0 =~= before.push(
                        (viewed[i as int].0, converted(viewed[i as int].1)),
                    ));
                }
                i += 1;
            }
            JsonValue::Object(ready)
        },
    }
}

/// The value of the first of the members from `from` on that has the key
/// `key`.
pub open spec fn first_with_key(
    members: Seq<(Seq<char>, JsonView)>,
    key: Seq<char>,
    from: int,
) -> Option<JsonView>
    decreases members.len() - from,
{
    if from < 0 || from >= members.len() {
        None
    } else if members[from].0 == key {
        Some(members[from].1)
    } else {
        first_with_key(members, key, from + 1)
    }
}

/// What stands under `key` in `value`: the value of the first member of
/// that key, if `value` is an object and has one.
pub open spec fn member_of(value: JsonView, key: Seq<char>) -> Option<JsonView> {
    match value {
        JsonView::Object(members) => first_with_key(members, key, 0),
        _ => None,
    }
}

/// The value of the reading `field` in the current conditions `conditions`:
/// what stands under `value` in what stands under the reading's name.
pub open spec fn reading_of(conditions: JsonView, field: Field) -> Option<JsonView> {
    match member_of(conditions, field.name_text()) {
        Some(reading) => member_of(reading, "value"@),
        None => None,
    }
}

impl JsonValue {
    /// What stands under `key`, if this is an object that has such a member.
    pub fn get(&self, key: &str) -> (r: Option<&JsonValue>)
        ensures
            match r {
                Some(found) => member_of(self@, key@) == Some(found@),
                None => member_of(self@, key@) is None,
            },
    {
        match self {
            JsonValue::Object(members) => {
                let wanted = String::from_str(key);
                let ghost viewed = self@->Object_0;
                let mut i: usize = 0;
                while i < members.len()
                    invariant
                        i <= members.len(),
                        wanted@ == key@,
                        viewed == self@->Object_0,
                        *self == JsonValue::Object(*members),
                        first_with_key(viewed, key@, 0) == first_with_key(viewed, key@, i as int),
                    decreases members.len() - i,
                {
                    assert(viewed[i as int] == (members[i as int].0@, members[i as int].1@));
                    if members[i].0 == wanted {
                        return Some(&members[i].1);
                    }
                    i += 1;
                }
                None
            },
            _ => None,
        }
    }

    /// The value of the reading `field`, where this is the current
    /// conditions of a document.
    pub fn reading(&self, field: Field) -> (r: Result<&JsonValue, QueryError>)
        ensures
            match r {
                Ok(value) => reading_of(self@, field) == Some(value@),
                Err(e) => reading_of(self@, field) is None && e == QueryError::FieldUnavailable(
                    field,
                ),
            },
    {
        if let Some(reading) = self.get(field.name()) {
            if let Some(value) = reading.get("value") {
                return Ok(value);
            }
        }
        Err(QueryError::FieldUnavailable(field))
    }
}

/// The current conditions of the document `document`: what stands under
/// `currentConditions`. A document without them is malformed.
pub fn get_current_conditions(document: &JsonValue) -> (r: Result<&JsonValue, MappingError>)
    ensures
        match r {
            Ok(conditions) => member_of(document@, "currentConditions"@) == Some(conditions@),
            Err(e) => member_of(document@, "currentConditions"@) is None && e.message_text()
                == "no field named currentConditions"@ && e is Malformed,
        },
{
    match document.get("currentConditions") {
        Some(conditions) => Ok(conditions),
        None => Err(MappingError::Malformed(String::from_str("no field named currentConditions"))),
    }
}

} // verus!
