//! JSON documents as a tree of plain values.
//!
//! Parsing is done by `serde_json`; the parsed document is copied into a
//! tree of the library's own, so that everything that reads a document is
//! ordinary verified code.

use crate::text::same_text;
use vstd::prelude::*;

verus! {

/// A JSON value.
#[derive(Debug, PartialEq, Eq)]
pub enum Json {
    Null,
    Bool(bool),
    /// A number. Its value is not kept: nothing here reads numbers.
    Number,
    Text(String),
    List(Vec<Json>),
    /// The members of an object, in the order `serde_json` keeps them.
    Object(Vec<(String, Json)>),
}

/// A JSON value as plain values.
pub enum JsonView {
    Null,
    Bool(bool),
    Number,
    Text(Seq<char>),
    List(Seq<JsonView>),
    Object(Seq<(Seq<char>, JsonView)>),
}

/// The plain-value form of a JSON value.
pub open spec fn json_view(tree: Json) -> JsonView
    decreases tree,
{
    match tree {
        Json::Null => JsonView::Null,
        Json::Bool(value) => JsonView::Bool(value),
        Json::Number => JsonView::Number,
        Json::Text(text) => JsonView::Text(text@),
        Json::List(items) => JsonView::List(
            Seq::new(
                items@.len(),
                |i: int|
                    if 0 <= i < items@.len() {
                        json_view(items@[i])
                    } else {
                        JsonView::Null
                    },
            ),
        ),
        Json::Object(members) => JsonView::Object(
            Seq::new(
                members@.len(),
                |i: int|
                    if 0 <= i < members@.len() {
                        (members@[i].0@, json_view(members@[i].1))
                    } else {
                        (Seq::empty(), JsonView::Null)
                    },
            ),
        ),
    }
}

impl View for Json {
    type V = JsonView;

    open spec fn view(&self) -> JsonView {
        json_view(*self)
    }
}

/// `serde_json::Value`, the document as `serde_json` holds it. Nothing is
/// known of a value of this type; it is only handed on to be copied.
#[verifier::external_type_specification]
#[verifier::external_body]
pub struct ExJsonValue(serde_json::Value);

/// The document that `serde_json::from_str` reads from `text`, copied
/// variant by variant into a tree without the values of its numbers; `None`
/// where `from_str` reports an error.
pub uninterp spec fn json_document(text: Seq<char>) -> Option<JsonView>;

/// Copies a `serde_json::Value` into a tree of the library's own: one arm
/// per variant of `serde_json::Value`, each moving the variant's fields, and
/// dropping the value of a number. Nothing is claimed of the copy here;
/// `json_document` names what parsing and copying give together.
#[verifier::external_body]
fn from_value(value: serde_json::Value) -> Json {
    match value {
        serde_json::Value::Null => Json::Null,
        serde_json::Value::Bool(value) => Json::Bool(value),
        serde_json::Value::Number(_) => Json::Number,
        serde_json::Value::String(text) => Json::Text(text),
        serde_json::Value::Array(items) => Json::List(items.into_iter().map(from_value).collect()),
        serde_json::Value::Object(members) => Json::Object(
            members.into_iter().map(|(name, value)| (name, from_value(value))).collect(),
        ),
    }
}

/// Calls `serde_json::from_str` for a `serde_json::Value` and copies what
/// it returns. The contract claims only that the outcome is a function of
/// the text: the same text gives the same tree, or fails, every time.
#[verifier::external_body]
fn read_document(text: &str) -> (tree: Option<Json>)
    ensures
        match tree {
            Some(tree) => json_document(text@) == Some(tree@),
            None => json_document(text@).is_none(),
        },
{
    serde_json::from_str::<serde_json::Value>(text).ok().map(from_value)
}

/// The value of the member called `name`, looking from position `from` on.
pub open spec fn member_from(members: Seq<(Seq<char>, JsonView)>, name: Seq<char>, from: int)
    -> Option<JsonView>
    decreases members.len() - from,
{
    if from < 0 || from >= members.len() {
        None
    } else if members[from].0 == name {
        Some(members[from].1)
    } else {
        member_from(members, name, from + 1)
    }
}

/// The value of the member called `name`, if `tree` is an object that has
/// one.
pub open spec fn member_spec(tree: JsonView, name: Seq<char>) -> Option<JsonView> {
    match tree {
        JsonView::Object(members) => member_from(members, name, 0),
        _ => None,
    }
}

impl Json {
    /// Reads a JSON document; `None` if `text` is not one.
    pub fn parse(text: &str) -> (tree: Option<Json>)
        ensures
            match tree {
                Some(tree) => json_document(text@) == Some(tree@),
                None => json_document(text@).is_none(),
            },
    {
        read_document(text)
    }

    /// The value of the member called `name`, if this is an object that
    /// has one.
    pub fn get(&self, name: &str) -> (found: Option<&Json>)
        ensures
            match found {
                Some(value) => member_spec(self@, name@) == Some(value@),
                None => member_spec(self@, name@).is_none(),
            },
    {
        match self {
            Json::Object(members) => {
                let ghost all = self@->Object_0;
                proof {
                    reveal_with_fuel(json_view, 2);
                }
                let mut index: usize = 0;
                while index < members.len()
                    invariant
                        index <= members.len(),
                        self@ == JsonView::Object(all),
                        all.len() == members@.len(),
                        forall|i: int|
                            0 <= i < members@.len() ==> #[trigger] all[i] == (
                                members@[i].0@,
                                members@[i].1@,
                            ),
                        member_from(all, name@, 0) == member_from(all, name@, index as int),
                    decreases members.len() - index,
                {
                    if same_text(members[index].0.as_str(), name) {
                        return Some(&members[index].1);
                    }
                    index += 1;
                }
                None
            },
            _ => None,
        }
    }

    /// The members of an object, in order.
    pub fn as_object(&self) -> (members: Option<&Vec<(String, Json)>>)
        ensures
            match members {
                Some(members) => *self == Json::Object(*members),
                None => !(self is Object),
            },
    {
        match self {
            Json::Object(members) => Some(members),
            _ => None,
        }
    }

    /// The text of a string value.
    pub fn as_str(&self) -> (text: Option<&str>)
        ensures
            match text {
                Some(text) => self@ == JsonView::Text(text@),
                None => !(self is Text),
            },
    {
        match self {
            Json::Text(text) => Some(text.as_str()),
            _ => None,
        }
    }
}

} // verus!
