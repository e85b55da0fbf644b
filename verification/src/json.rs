//! JSON documents, and the boundary to `serde_json`, which reads and prints
//! them.

use vstd::prelude::*;

verus! {

/// A JSON document.
#[derive(Debug, PartialEq, Eq)]
pub enum Json {
    Null,
    Bool(bool),
    /// A number, held as the text that it is displayed as: no message holds
    /// one, so nothing here computes with it.
    Number(String),
    Text(String),
    List(Vec<Json>),
    /// An object: its members in order, each a key and a document.
    Object(Vec<(String, Json)>),
}

/// The mathematical value of a [`Json`] document.
pub enum JsonView {
    Null,
    Bool(bool),
    Number(Seq<char>),
    Text(Seq<char>),
    List(Seq<JsonView>),
    Object(Seq<(Seq<char>, JsonView)>),
}

impl View for Json {
    type V = JsonView;

    open spec fn view(&self) -> JsonView
        decreases self,
    {
        match self {
            Json::Null => JsonView::Null,
            Json::Bool(b) => JsonView::Bool(*b),
            Json::Number(text) => JsonView::Number(text@),
            Json::Text(text) => JsonView::Text(text@),
            Json::List(items) => JsonView::List(
                Seq::new(
                    items@.len(),
                    |i: int|
                        if 0 <= i < items@.len() {
                            items@[i]@
                        } else {
                            JsonView::Null
                        },
                ),
            ),
            Json::Object(members) => JsonView::Object(
                Seq::new(
                    members@.len(),
                    |i: int|
                        (
                            members@[i].0@,
                            if 0 <= i < members@.len() {
                                members@[i].1@
                            } else {
                                JsonView::Null
                            },
                        ),
                ),
            ),
        }
    }
}

/// The values of a list's items, in order.
pub open spec fn items_view(items: Seq<Json>) -> Seq<JsonView> {
    Seq::new(items.len(), |i: int| items[i]@)
}

/// The values of an object's members, in order.
pub open spec fn members_view(members: Seq<(String, Json)>) -> Seq<(Seq<char>, JsonView)> {
    Seq::new(members.len(), |i: int| (members[i].0@, members[i].1@))
}

/// A list's value is the list of its items' values.
pub proof fn lemma_list_view(items: Vec<Json>)
    ensures
        Json::List(items)@ == JsonView::List(items_view(items@)),
{
    assert(Json::List(items)@->List_0 =~= items_view(items@));
}

/// An object's value is the object of its members' values.
pub proof fn lemma_object_view(members: Vec<(String, Json)>)
    ensures
        Json::Object(members)@ == JsonView::Object(members_view(members@)),
{
    assert(Json::Object(members)@->Object_0 =~= members_view(members@));
}

impl JsonView {
    /// No object in the document holds a key twice, and no number occurs in
    /// it.
    pub open spec fn printable(self) -> bool
        decreases self,
    {
        match self {
            JsonView::Null => true,
            JsonView::Bool(_) => true,
            JsonView::Number(_) => false,
            JsonView::Text(_) => true,
            JsonView::List(items) => forall|i: int|
                0 <= i < items.len() ==> (#[trigger] items[i]).printable(),
            JsonView::Object(members) => {
                &&& forall|i: int|
                    0 <= i < members.len() ==> (#[trigger] members[i]).1.printable()
                &&& forall|i: int, j: int|
                    0 <= i < j < members.len() ==> (#[trigger] members[i]).0 != (
                    #[trigger] members[j]).0
            },
        }
    }
}

/// `serde_json::Value`, the document type of `serde_json`. Nothing is known
/// of a value but the document that [`value_document`] names.
#[verifier::external_type_specification]
#[verifier::external_body]
pub struct ExValue(serde_json::Value);

/// `serde_json::Error`, what `serde_json` fails with. Nothing is known of it.
#[verifier::external_type_specification]
#[verifier::external_body]
pub struct ExJsonError(serde_json::Error);

/// The document that a `serde_json::Value` holds: null, a boolean, a string,
/// an array and an object as themselves, an object's members in the order in
/// which the value keeps them, and a number as the text that it displays as.
pub uninterp spec fn value_document(value: serde_json::Value) -> JsonView;

/// What `serde_json::from_str` reads from a text: the document, or `None`
/// where it refuses the text.
pub uninterp spec fn parsed_text(text: Seq<char>) -> Option<JsonView>;

/// What `serde_json::to_string` gives for a value that holds the document:
/// the text, or `None` where it gives none.
pub uninterp spec fn printed_document(document: JsonView) -> Option<Seq<char>>;

/// Whether the printer gives a text for the document and the reader gives the
/// document back when it is handed that text. `serde_json` is written to do
/// so; nothing here proves it, and what rests on it says so.
pub open spec fn reads_back(document: JsonView) -> bool {
    printed_document(document) matches Some(text) && parsed_text(text) == Some(document)
}

/// Whether a text is the printer's own: the one that the printer gives for
/// the document that the reader finds in it. A text with blanks between its
/// parts, with an escape where a plain character would do, or with a key
/// twice in an object is not.
pub open spec fn prints_back(text: Seq<char>) -> bool {
    parsed_text(text) matches Some(document) && printed_document(document) == Some(text)
}

/// A text, if there is one, by its characters.
pub open spec fn text_view(text: Option<String>) -> Option<Seq<char>> {
    match text {
        Some(text) => Some(text@),
        None => None,
    }
}

/// `serde_json::from_str`, asked for a `serde_json::Value`. The contract
/// claims that what it does depends on the text alone: it gives a value
/// exactly where [`parsed_text`] names a document, and the value holds that
/// document.
#[verifier::external_body]
fn parse_value(text: &str) -> (parsed: Result<serde_json::Value, serde_json::Error>)
    ensures
        parsed is Ok <==> parsed_text(text@) is Some,
        parsed matches Ok(value) ==> parsed_text(text@) == Some(value_document(value)),
{
    serde_json::from_str::<serde_json::Value>(text)
}

/// Copies a `serde_json::Value` into a [`Json`], variant by variant: a number
/// through `Number::to_string`, an array item by item, an object member by
/// member in the order of `Map::iter`. The contract claims that the copy has
/// the value's document.
#[verifier::external_body]
fn document_of_value(value: &serde_json::Value) -> (document: Json)
    ensures
        document@ == value_document(*value),
{
    match value {
        serde_json::Value::Null => Json::Null,
        serde_json::Value::Bool(b) => Json::Bool(*b),
        serde_json::Value::Number(n) => Json::Number(n.to_string()),
        serde_json::Value::String(s) => Json::Text(s.clone()),
        serde_json::Value::Array(a) => Json::List(a.iter().map(document_of_value).collect()),
        serde_json::Value::Object(o) => Json::Object(
            o.iter().map(|(k, v)| (k.clone(), document_of_value(v))).collect(),
        ),
    }
}

/// Copies a [`Json`] into a `serde_json::Value`, variant by variant; an
/// object's members are collected into a `serde_json::Map` in their order.
/// The contract claims that the value holds the document it was copied from.
/// That is so where no object holds a key twice, since the map keeps one
/// member for a key, and the order in which the others were put in
/// (`serde_json` is built with `preserve_order`). A number cannot be made
/// from its text here, so the document has to hold none: `requires` rules out
/// the arm that stands for it.
#[verifier::external_body]
fn value_of_document(document: &Json) -> (value: serde_json::Value)
    requires
        document@.printable(),
    ensures
        value_document(value) == document@,
{
    match document {
        Json::Null => serde_json::Value::Null,
        Json::Number(_) => serde_json::Value::Null,
        Json::Bool(b) => serde_json::Value::Bool(*b),
        Json::Text(s) => serde_json::Value::String(s.clone()),
        Json::List(a) => serde_json::Value::Array(a.iter().map(value_of_document).collect()),
        Json::Object(o) => serde_json::Value::Object(
            o.iter().map(|(k, v)| (k.clone(), value_of_document(v))).collect(),
        ),
    }
}

/// `serde_json::to_string` on a `serde_json::Value`. The contract claims that
/// what it does depends on the document alone: it gives a text exactly where
/// [`printed_document`] names one, and the text is that one. It does not
/// claim that a text is given.
#[verifier::external_body]
fn print_value(value: &serde_json::Value) -> (printed: Result<String, serde_json::Error>)
    ensures
        printed is Ok <==> printed_document(value_document(*value)) is Some,
        printed matches Ok(text) ==> printed_document(value_document(*value)) == Some(text@),
{
    serde_json::to_string(value)
}

/// Reads a JSON text: the document that it holds, or `None` where the reader
/// refuses it.
pub fn read_json(text: &str) -> (document: Option<Json>)
    ensures
        document is Some <==> parsed_text(text@) is Some,
        document matches Some(d) ==> parsed_text(text@) == Some(d@),
{
    match parse_value(text) {
        Ok(value) => Some(document_of_value(&value)),
        Err(_) => None,
    }
}

/// Prints a printable document as JSON text: the text that the printer gives
/// for it, or `None` where the printer gives none.
pub(crate) fn write_json(document: &Json) -> (text: Option<String>)
    requires
        document@.printable(),
    ensures
        text_view(text) == printed_document(document@),
{
    let value = value_of_document(document);
    match print_value(&value) {
        Ok(text) => Some(text),
        Err(_) => None,
    }
}

} // verus!
