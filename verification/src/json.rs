//! JSON documents as plain values. Text is turned into documents, and
//! documents into text, by `serde_json`.

use vstd::prelude::*;

verus! {

/// `serde_json::Value`, a document as `serde_json` holds it.
#[verifier::external_type_specification]
#[verifier::external_body]
pub struct ExJsonValue(serde_json::Value);

/// `serde_json::Number`, a number of a document; it is carried, never read.
#[verifier::external_type_specification]
#[verifier::external_body]
pub struct ExJsonNumber(serde_json::Number);

/// `serde_json::Error`, why a text was not read or a value not written.
#[verifier::external_type_specification]
#[verifier::external_body]
pub struct ExJsonError(serde_json::Error);

/// A JSON document. An object holds its members as a list of keys and values;
/// a number is kept as `serde_json` holds it.
#[derive(Debug, PartialEq)]
pub enum Json {
    Null,
    Bool(bool),
    Number(serde_json::Number),
    Text(String),
    List(Vec<Json>),
    Object(Vec<(String, Json)>),
}

/// The mathematical value of a [`Json`] document.
pub ghost enum JsonView {
    Null,
    Bool(bool),
    Number(serde_json::Number),
    Text(Seq<char>),
    List(Seq<JsonView>),
    Object(Seq<(Seq<char>, JsonView)>),
}

impl View for Json {
    type V = JsonView;

    open spec fn view(&self) -> JsonView
        decreases self,
    {
        match self {
            Json::Null => JsonView::Null,
            Json::Bool(b) => JsonView::Bool(*b),
            Json::Number(n) => JsonView::Number(*n),
            Json::Text(s) => JsonView::Text(s@),
            Json::List(items) => JsonView::List(
                Seq::new(
                    items@.len(),
                    |i: int|
                        if 0 <= i < items@.len() {
                            items@[i]@
                        } else {
                            JsonView::Null
                        },
                ),
            ),
            Json::Object(members) => JsonView::Object(
                Seq::new(
                    members@.len(),
                    |i: int|
                        if 0 <= i < members@.len() {
                            (members@[i].0@, members@[i].1@)
                        } else {
                            (Seq::empty(), JsonView::Null)
                        },
                ),
            ),
        }
    }
}

/// The values of the items of a list.
pub open spec fn items_view(items: Vec<Json>) -> Seq<JsonView> {
    Json::List(items)@->List_0
}

/// The members of an object, each with the value of its key and of its value.
pub open spec fn members_view(members: Vec<(String, Json)>) -> Seq<(Seq<char>, JsonView)> {
    Json::Object(members)@->Object_0
}

/// The value of a list is the list of the values of its items.
pub proof fn lemma_list_view(items: Vec<Json>)
    ensures
        Json::List(items)@ == JsonView::List(items_view(items)),
        items_view(items).len() == items@.len(),
        forall|i: int| 0 <= i < items@.len() ==> (#[trigger] items_view(items)[i]) == items@[i]@,
{
    reveal_with_fuel(<Json as View>::view, 2);
}

/// The value of an object is the list of its members, each with the value of
/// its key and of its value.
pub proof fn lemma_object_view(members: Vec<(String, Json)>)
    ensures
        Json::Object(members)@ == JsonView::Object(members_view(members)),
        members_view(members).len() == members@.len(),
        forall|i: int|
            0 <= i < members@.len() ==> (#[trigger] members_view(members)[i]) == (
                members@[i].0@,
                members@[i].1@,
            ),
{
    reveal_with_fuel(<Json as View>::view, 2);
}

/// The value that `serde_json::from_str` reads from `text`, or nothing where it
/// rejects the text.
pub uninterp spec fn value_parsed(text: Seq<char>) -> Option<serde_json::Value>;

/// The document that a `serde_json::Value` holds, variant for variant; the
/// members of an object in the order in which its map hands them out.
pub uninterp spec fn value_doc(value: serde_json::Value) -> JsonView;

/// The `serde_json::Value` built from a document, variant for variant; the
/// members of an object collected into its map in their order.
pub uninterp spec fn value_built(doc: JsonView) -> serde_json::Value;

/// The text that `serde_json::to_string_pretty` writes for `value`, or nothing
/// where it fails.
pub uninterp spec fn value_printed(value: serde_json::Value) -> Option<Seq<char>>;

/// The document that `text` is read as, if it is JSON.
pub open spec fn json_read(text: Seq<char>) -> Option<JsonView> {
    match value_parsed(text) {
        Some(value) => Some(value_doc(value)),
        None => None,
    }
}

/// The indented text that `doc` is written as, if it can be written.
pub open spec fn json_printed(doc: JsonView) -> Option<Seq<char>> {
    value_printed(value_built(doc))
}

/// Calls `serde_json::from_str` for a `Value`. Trusted: whether the text is
/// accepted, and as which value, depends on the text alone.
#[verifier::external_body]
fn parse_value(text: &str) -> (r: Result<serde_json::Value, serde_json::Error>)
    ensures
        match r {
            Ok(value) => value_parsed(text@) == Some(value),
            Err(_) => value_parsed(text@) is None,
        },
{
    serde_json::from_str::<serde_json::Value>(text)
}

/// Takes a `serde_json::Value` apart, one variant of [`Json`] for each of its
/// variants, and so on through lists and objects. Trusted: the result depends
/// on the value alone.
#[verifier::external_body]
fn json_from_value(value: serde_json::Value) -> (doc: Json)
    ensures
        doc@ == value_doc(value),
{
    match value {
        serde_json::Value::Null => Json::Null,
        serde_json::Value::Bool(b) => Json::Bool(b),
        serde_json::Value::Number(n) => Json::Number(n),
        serde_json::Value::String(s) => Json::Text(s),
        serde_json::Value::Array(items) => Json::List(
            items.into_iter().map(json_from_value).collect(),
        ),
        serde_json::Value::Object(members) => Json::Object(
            members.into_iter().map(|(k, v)| (k, json_from_value(v))).collect(),
        ),
    }
}

/// Builds a `serde_json::Value` from a document, one variant for each variant
/// of [`Json`], and so on through lists and objects. Trusted: the result
/// depends on the document's value alone.
#[verifier::external_body]
fn json_to_value(doc: &Json) -> (value: serde_json::Value)
    ensures
        value == value_built(doc@),
{
    match doc {
        Json::Null => serde_json::Value::Null,
        Json::Bool(b) => serde_json::Value::Bool(*b),
        Json::Number(n) => serde_json::Value::Number(n.clone()),
        Json::Text(s) => serde_json::Value::String(s.clone()),
        Json::List(items) => serde_json::Value::Array(items.iter().map(json_to_value).collect()),
        Json::Object(members) => serde_json::Value::Object(
            members.iter().map(|(k, v)| (k.clone(), json_to_value(v))).collect(),
        ),
    }
}

/// Calls `serde_json::to_string_pretty`. Trusted: whether it succeeds, and with
/// which text, depends on the value alone.
#[verifier::external_body]
fn print_value(value: &serde_json::Value) -> (r: Result<String, serde_json::Error>)
    ensures
        match r {
            Ok(text) => value_printed(*value) == Some(text@),
            Err(_) => value_printed(*value) is None,
        },
{
    serde_json::to_string_pretty(value)
}

/// Reads `text` as a JSON document; `None` where it is not JSON.
pub fn parse_json(text: &str) -> (r: Option<Json>)
    ensures
        match r {
            Some(doc) => json_read(text@) == Some(doc@),
            None => json_read(text@) is None,
        },
{
    match parse_value(text) {
        Ok(value) => Some(json_from_value(value)),
        Err(_) => None,
    }
}

/// Writes `doc` as indented JSON text; `None` where it cannot be written.
pub fn print_json(doc: &Json) -> (r: Option<String>)
    ensures
        match r {
            Some(text) => json_printed(doc@) == Some(text@),
            None => json_printed(doc@) is None,
        },
{
    let value = json_to_value(doc);
    match print_value(&value) {
        Ok(text) => Some(text),
        Err(_) => None,
    }
}

} // verus!
