//! JSON documents as values of the library. Parsing is left to `serde_json`;
//! what a document holds is read here.

use vstd::prelude::*;
use crate::order::{compare_keys, KeyOrder};

verus! {

/// A member of a JSON object.
#[derive(Debug, PartialEq, Eq)]
pub struct JsonMember {
    pub name: String,
    pub value: JsonValue,
}

/// A JSON document. Of a number only its value as a 64-bit integer is kept,
/// where it has one.
#[derive(Debug, PartialEq, Eq)]
pub enum JsonValue {
    Null,
    Bool(bool),
    Number(Option<i64>),
    Text(String),
    List(Vec<JsonValue>),
    Object(Vec<JsonMember>),
}

#[verifier::external_type_specification]
#[verifier::external_body]
pub struct ExValue(serde_json::Value);

/// The document that a text is parsed to, if it is JSON.
pub uninterp spec fn parsed_json(text: Seq<char>) -> Option<JsonValue>;

/// Turns a `serde_json::Value` into a document, variant by variant; a number
/// goes through `serde_json::Number::as_i64`. Nothing is claimed of the
/// result.
#[verifier::external_body]
fn json_from_value(value: serde_json::Value) -> JsonValue {
    match value {
        serde_json::Value::Null => JsonValue::Null,
        serde_json::Value::Bool(flag) => JsonValue::Bool(flag),
        serde_json::Value::Number(number) => JsonValue::Number(number.as_i64()),
        serde_json::Value::String(text) => JsonValue::Text(text),
        serde_json::Value::Array(items) => {
            JsonValue::List(items.into_iter().map(json_from_value).collect())
        },
        serde_json::Value::Object(members) => JsonValue::Object(
            members.into_iter().map(|(name, value)| JsonMember { name, value: json_from_value(value) })
                .collect(),
        ),
    }
}

/// Calls `serde_json::from_str` for a `serde_json::Value`. Trusted: whether
/// the text parses, and to which document, depends on the text alone;
/// `parsed_json` names that outcome.
#[verifier::external_body]
pub(crate) fn parse_text(text: &str) -> (doc: Option<JsonValue>)
    ensures
        doc == parsed_json(text@),
{
    serde_json::from_str::<serde_json::Value>(text).ok().map(json_from_value)
}

/// The value of the first member called `name`.
pub open spec fn first_named(members: Seq<JsonMember>, name: Seq<char>) -> Option<JsonValue>
    decreases members.len(),
{
    if members.len() == 0 {
        None
    } else if members[0].name@ == name {
        Some(members[0].value)
    } else {
        first_named(members.drop_first(), name)
    }
}

/// The text of a member that may be missing: empty where it is missing,
/// nothing where it is there and is no text.
pub open spec fn text_or_default(field: Option<JsonValue>) -> Option<Seq<char>> {
    match field {
        None => Some(Seq::empty()),
        Some(JsonValue::Text(text)) => Some(text@),
        Some(_) => None,
    }
}

impl JsonValue {
    /// The member `name` of an object; nothing for any other document.
    pub open spec fn member(self, name: Seq<char>) -> Option<JsonValue> {
        match self {
            JsonValue::Object(members) => first_named(members@, name),
            _ => None,
        }
    }

    /// The text of a text document.
    pub open spec fn text(self) -> Option<Seq<char>> {
        match self {
            JsonValue::Text(text) => Some(text@),
            _ => None,
        }
    }

    /// The value of an integer document.
    pub open spec fn integer(self) -> Option<int> {
        match self {
            JsonValue::Number(Some(number)) => Some(number as int),
            _ => None,
        }
    }

    /// The member `name` of an object: the first one, should several be
    /// called so.
    pub fn get(&self, name: &str) -> (found: Option<&JsonValue>)
        ensures
            match found {
                Some(value) => self.member(name@) == Some(*value),
                None => self.member(name@) is None,
            },
    {
        match self {
            JsonValue::Object(members) => {
                let mut i: usize = 0;
                assert(members@.skip(0) =~= members@);
                while i < members.len()
                    invariant
                        i <= members@.len(),
                        self.member(name@) == first_named(members@.skip(i as int), name@),
                    decreases members@.len() - i,
                {
                    let ghost rest = members@.skip(i as int);
                    assert(rest[0] == members@[i as int]);
                    assert(rest.drop_first() =~= members@.skip(i + 1));
                    match compare_keys(members[i].name.as_str(), name) {
                        KeyOrder::Same => {
                            return Some(&members[i].value);
                        },
                        _ => {},
                    }
                    i += 1;
                }
                None
            },
            _ => None,
        }
    }

    /// The text of a text document.
    pub fn as_text(&self) -> (text: Option<&String>)
        ensures
            match text {
                Some(text) => self.text() == Some(text@),
                None => self.text() is None,
            },
    {
        match self {
            JsonValue::Text(text) => Some(text),
            _ => None,
        }
    }

    /// The value of an integer document.
    pub fn as_integer(&self) -> (number: Option<i64>)
        ensures
            match number {
                Some(number) => self.integer() == Some(number as int),
                None => self.integer() is None,
            },
    {
        match self {
            JsonValue::Number(Some(number)) => Some(*number),
            _ => None,
        }
    }
}

/// The text of a member that may be missing.
pub fn optional_text(field: Option<&JsonValue>) -> (text: Option<String>)
    ensures
        match text {
            Some(text) => text_or_default(deref_field(field)) == Some(text@),
            None => text_or_default(deref_field(field)) is None,
        },
{
    match field {
        None => Some(String::new()),
        Some(JsonValue::Text(text)) => Some(text.clone()),
        Some(_) => None,
    }
}

/// The document behind an optional reference.
pub open spec fn deref_field(field: Option<&JsonValue>) -> Option<JsonValue> {
    match field {
        Some(value) => Some(*value),
        None => None,
    }
}

} // verus!
