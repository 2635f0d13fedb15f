//! JSON documents as plain values. The parsing is serde_json's; this module
//! holds what it found in a form that the rest of the library can read.

use vstd::prelude::*;

verus! {

/// A JSON value.
#[derive(Debug)]
pub enum JsonValue {
    Null,
    Bool(bool),
    /// A number. Its value is not kept.
    Number,
    Text(String),
    Array(Vec<JsonValue>),
    /// An object: its members, each name once.
    Object(Vec<(String, JsonValue)>),
}

/// serde_json's error; carried through, never looked into.
#[verifier::external_type_specification]
#[verifier::external_body]
pub struct ExJsonError(serde_json::Error);

/// serde_json's value; carried through, never looked into.
#[verifier::external_type_specification]
#[verifier::external_body]
pub struct ExOutsideValue(serde_json::Value);

/// What a value of serde_json holds.
pub uninterp spec fn json_content(value: serde_json::Value) -> JsonValue;

/// The value that a text stands for as JSON, if it is valid JSON.
pub uninterp spec fn parsed_json(text: Seq<char>) -> Option<JsonValue>;

/// `serde_json::from_str` into a `serde_json::Value`. What the value holds is
/// a function of the text alone: what the text stands for as JSON; an error
/// comes where it stands for nothing. Nothing else is claimed of the result.
#[verifier::external_body]
pub(crate) fn parse(text: &str) -> (parsed: Result<serde_json::Value, serde_json::Error>)
    ensures
        parsed matches Ok(value) ==> parsed_json(text@) == Some(json_content(value)),
        parsed is Err ==> parsed_json(text@) is None,
{
    serde_json::from_str::<serde_json::Value>(text)
}

/// Takes a value of serde_json apart, variant by variant, and the values
/// inside an array or an object in the same way. The result is what the value
/// holds; a number's value is left behind.
#[verifier::external_body]
pub(crate) fn content(value: serde_json::Value) -> (held: JsonValue)
    ensures
        held == json_content(value),
{
    match value {
        serde_json::Value::Null => JsonValue::Null,
        serde_json::Value::Bool(flag) => JsonValue::Bool(flag),
        serde_json::Value::Number(_) => JsonValue::Number,
        serde_json::Value::String(text) => JsonValue::Text(text),
        serde_json::Value::Array(items) => JsonValue::Array(
            items.into_iter().map(content).collect(),
        ),
        serde_json::Value::Object(members) => JsonValue::Object(
            members.into_iter().map(|(name, value)| (name, content(value))).collect(),
        ),
    }
}

/// Whether `position` is that of the first member of the list with the name.
pub open spec fn is_first_member(
    members: Seq<(String, JsonValue)>,
    name: Seq<char>,
    position: int,
) -> bool {
    &&& 0 <= position < members.len()
    &&& members[position].0@ == name
    &&& forall|j: int| 0 <= j < position ==> (#[trigger] members[j]).0@ != name
}

/// Whether some member of the list has the name.
pub open spec fn has_member(members: Seq<(String, JsonValue)>, name: Seq<char>) -> bool {
    exists|i: int| 0 <= i < members.len() && (#[trigger] members[i]).0@ == name
}

/// The position of the first member with the name, in a list that has one.
pub open spec fn first_member(members: Seq<(String, JsonValue)>, name: Seq<char>) -> int {
    choose|position: int| is_first_member(members, name, position)
}

/// The text of the member with the name: nothing if there is no such member,
/// or if its value is not a text.
pub open spec fn member_text(members: Seq<(String, JsonValue)>, name: Seq<char>) -> Option<
    Seq<char>,
> {
    if has_member(members, name) {
        match members[first_member(members, name)].1 {
            JsonValue::Text(text) => Some(text@),
            _ => None,
        }
    } else {
        None
    }
}

/// Computes [`member_text`].
pub fn text_of_member<'a>(members: &'a Vec<(String, JsonValue)>, name: &str) -> (text: Option<
    &'a String,
>)
    ensures
        text.deep_view() == member_text(members@, name@),
{
    let mut i: usize = 0;
    while i < members.len()
        invariant
            i <= members.len(),
            forall|j: int| 0 <= j < i ==> (#[trigger] members@[j]).0@ != name@,
        decreases members.len() - i,
    {
        if crate::text::same_text(members[i].0.as_str(), name) {
            proof {
                assert(is_first_member(members@, name@, i as int));
                let chosen = first_member(members@, name@);
                if chosen < i {
                    assert(members@[chosen].0@ != name@);
                } else if i < chosen {
                    assert(members@[i as int].0@ != name@);
                }
            }
            return match &members[i].1 {
                JsonValue::Text(text) => Some(text),
                _ => None,
            };
        }
        i += 1;
    }
    None
}

} // verus!
