//! Values that the responses are made of.

use vstd::prelude::*;
use crate::json::{first_named, optional_text, text_or_default, JsonValue};
use crate::order::{compare_keys, KeyOrder};
use crate::responses::{ScrobbleModel, ScrobbleResponse};

verus! {

/// A text that the service may have corrected.
#[derive(Clone, Debug, PartialEq, Eq)]
pub struct CorrectableString {
    pub text: String,
    pub changed: bool,
}

/// A correctable text as the contracts see it.
pub struct CorrectableModel {
    pub text: Seq<char>,
    pub changed: bool,
}

impl View for CorrectableString {
    type V = CorrectableModel;

    open spec fn view(&self) -> CorrectableModel {
        CorrectableModel { text: self.text@, changed: self.changed }
    }
}

/// The flag of a member that may be missing: set where the member is the
/// text `1`, not set where it is another text or missing, nothing where it
/// is there and is no text.
pub open spec fn flag_or_default(field: Option<JsonValue>) -> Option<bool> {
    match field {
        None => Some(false),
        Some(JsonValue::Text(text)) => Some(text@ == "1"@),
        Some(_) => None,
    }
}

/// What a field of a response says of a text. A missing field stands for
/// the empty text, uncorrected. A field that is there is an object: its
/// `#text` is the text and its `corrected` the flag, each with its default
/// where it is missing. Anything else is no correctable text.
pub open spec fn correctable_of(field: Option<JsonValue>) -> Option<CorrectableModel> {
    match field {
        None => Some(CorrectableModel { text: Seq::empty(), changed: false }),
        Some(JsonValue::Object(members)) => {
            let text = text_or_default(first_named(members@, "#text"@));
            let changed = flag_or_default(first_named(members@, "corrected"@));
            if text is Some && changed is Some {
                Some(CorrectableModel { text: text->0, changed: changed->0 })
            } else {
                None
            }
        },
        Some(_) => None,
    }
}

/// A field that has to be there, and be a correctable text.
pub open spec fn required_correctable(object: JsonValue, name: Seq<char>) -> Option<
    CorrectableModel,
> {
    match object.member(name) {
        None => None,
        Some(field) => correctable_of(Some(field)),
    }
}

/// The flag of a member that may be missing.
fn optional_flag(field: Option<&JsonValue>) -> (flag: Option<bool>)
    ensures
        flag == flag_or_default(crate::json::deref_field(field)),
{
    match field {
        None => Some(false),
        Some(JsonValue::Text(text)) => Some(
            match compare_keys(text.as_str(), "1") {
                KeyOrder::Same => true,
                _ => false,
            },
        ),
        Some(_) => None,
    }
}

impl CorrectableString {
    /// Reads a field of a response that may be missing.
    pub fn decode(field: Option<&JsonValue>) -> (decoded: Option<CorrectableString>)
        ensures
            match decoded {
                Some(value) => correctable_of(crate::json::deref_field(field)) == Some(value@),
                None => correctable_of(crate::json::deref_field(field)) is None,
            },
    {
        match field {
            None => Some(CorrectableString { text: String::new(), changed: false }),
            Some(object) => match object {
                JsonValue::Object(_) => {
                    let text = optional_text(object.get("#text"));
                    let changed = optional_flag(object.get("corrected"));
                    match (text, changed) {
                        (Some(text), Some(changed)) => Some(CorrectableString { text, changed }),
                        _ => None,
                    }
                },
                _ => None,
            },
        }
    }

    /// Reads a field of a response that has to be there.
    pub fn decode_required(object: &JsonValue, name: &str) -> (decoded: Option<CorrectableString>)
        ensures
            match decoded {
                Some(value) => required_correctable(*object, name@) == Some(value@),
                None => required_correctable(*object, name@) is None,
            },
    {
        match object.get(name) {
            None => None,
            Some(field) => CorrectableString::decode(Some(field)),
        }
    }
}

/// The results of the scrobbles of one request, in the order in which the
/// service gave them.
#[derive(Debug, PartialEq, Eq)]
pub struct ScrobbleList {
    items: Vec<ScrobbleResponse>,
}

/// The results as the contracts see them.
pub open spec fn models_of(items: Seq<ScrobbleResponse>) -> Seq<ScrobbleModel> {
    Seq::new(items.len(), |i: int| items[i]@)
}

impl View for ScrobbleList {
    type V = Seq<ScrobbleModel>;

    closed spec fn view(&self) -> Seq<ScrobbleModel> {
        models_of(self.items@)
    }
}

impl ScrobbleList {
    /// The empty list.
    pub fn new() -> (list: ScrobbleList)
        ensures
            list@ == Seq::<ScrobbleModel>::empty(),
    {
        let list = ScrobbleList { items: Vec::new() };
        assert(list@ =~= Seq::<ScrobbleModel>::empty());
        list
    }

    /// The list of the given results, in their order.
    pub fn from_vec(items: Vec<ScrobbleResponse>) -> (list: ScrobbleList)
        ensures
            list@ == models_of(items@),
    {
        ScrobbleList { items }
    }

    /// The number of results.
    pub fn len(&self) -> (n: usize)
        ensures
            n == self@.len(),
    {
        self.items.len()
    }

    /// Whether there is no result.
    pub fn is_empty(&self) -> (empty: bool)
        ensures
            empty == (self@.len() == 0),
    {
        self.items.len() == 0
    }

    /// The result at `index`, if there are that many.
    pub fn get(&self, index: usize) -> (item: Option<&ScrobbleResponse>)
        ensures
            match item {
                Some(item) => index < self@.len() && item@ == self@[index as int],
                None => index >= self@.len(),
            },
    {
        if index < self.items.len() {
            Some(&self.items[index])
        } else {
            None
        }
    }

    /// The results themselves.
    pub fn into_vec(self) -> (items: Vec<ScrobbleResponse>)
        ensures
            models_of(items@) == self@,
    {
        self.items
    }
}

} // verus!
