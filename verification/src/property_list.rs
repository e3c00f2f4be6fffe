//! Property lists as plain values, and their XML form.
//!
//! A property list here is a dictionary: a sequence of named values, each a
//! string, a boolean, or a list of strings. Writing it out as XML is done by
//! the `plist` crate.

use vstd::prelude::*;

verus! {

/// A value of a property list.
#[derive(Debug, PartialEq, Eq)]
pub enum PlistValue {
    Text(String),
    Flag(bool),
    List(Vec<String>),
}

/// A property-list value as plain values.
pub enum PlistValueView {
    Text(Seq<char>),
    Flag(bool),
    List(Seq<Seq<char>>),
}

impl View for PlistValue {
    type V = PlistValueView;

    open spec fn view(&self) -> PlistValueView {
        match self {
            PlistValue::Text(text) => PlistValueView::Text(text@),
            PlistValue::Flag(flag) => PlistValueView::Flag(*flag),
            PlistValue::List(items) => PlistValueView::List(items.deep_view()),
        }
    }
}

/// The entries of a dictionary as plain values.
pub open spec fn plist_view(entries: Seq<(String, PlistValue)>) -> Seq<(Seq<char>, PlistValueView)> {
    Seq::new(entries.len(), |i: int| (entries[i].0@, entries[i].1@))
}

/// The bytes that `plist` writes for a dictionary with these entries, given
/// in this order, as an XML property list; `None` where it reports an error.
pub uninterp spec fn plist_xml(entries: Seq<(Seq<char>, PlistValueView)>) -> Option<Seq<u8>>;

/// Builds a `plist::Value::Dictionary` from the entries, one `plist::Value`
/// per entry, and calls `plist::Value::to_writer_xml` on it with a vector as
/// the writer. The contract claims only that the outcome is a function of
/// the entries.
#[verifier::external_body]
fn write_xml(entries: &Vec<(String, PlistValue)>) -> (bytes: Option<Vec<u8>>)
    ensures
        match bytes {
            Some(bytes) => plist_xml(plist_view(entries@)) == Some(bytes@),
            None => plist_xml(plist_view(entries@)).is_none(),
        },
{
    let dictionary: plist::Dictionary = entries.iter().map(|(name, value)| (name.clone(), match value {
        PlistValue::Text(text) => plist::Value::String(text.clone()),
        PlistValue::Flag(flag) => plist::Value::Boolean(*flag),
        PlistValue::List(items) => plist::Value::Array(
            items.iter().cloned().map(plist::Value::String).collect(),
        ),
    })).collect();
    let mut bytes: Vec<u8> = Vec::new();
    plist::Value::Dictionary(dictionary).to_writer_xml(&mut bytes).ok().map(|_| bytes)
}

/// Writes a dictionary out as an XML property list.
pub fn to_xml(entries: &Vec<(String, PlistValue)>) -> (bytes: Option<Vec<u8>>)
    ensures
        match bytes {
            Some(bytes) => plist_xml(plist_view(entries@)) == Some(bytes@),
            None => plist_xml(plist_view(entries@)).is_none(),
        },
{
    write_xml(entries)
}

} // verus!
