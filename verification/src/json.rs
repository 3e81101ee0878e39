//! JSON documents as plain values.

use crate::text::{same_text, text_of};
use vstd::prelude::*;

verus! {

/// A JSON document, as specifications speak of it.
pub ghost enum JsonView {
    Null,
    Bool(bool),
    /// A number, with its value where it is an integer of 64 signed bits.
    Number(Option<i64>),
    Text(Seq<char>),
    Array(Seq<JsonView>),
    /// The members of an object, by name.
    Object(Seq<(Seq<char>, JsonView)>),
}

impl JsonView {
    /// The member called `name`: there is none unless this is an object that has one.
    pub open spec fn get(self, name: Seq<char>) -> Option<JsonView> {
        match self {
            JsonView::Object(members) => member(members, name),
            _ => None,
        }
    }
}

/// The first of `members` that is called `name`.
pub open spec fn member(members: Seq<(Seq<char>, JsonView)>, name: Seq<char>) -> Option<JsonView>
    decreases members.len(),
{
    if members.len() == 0 {
        None
    } else if members[0].0 == name {
        Some(members[0].1)
    } else {
        member(members.drop_first(), name)
    }
}

/// A JSON document. An object holds its members as pairs of a name and a value.
#[derive(Debug)]
pub enum JsonValue {
    Null,
    Bool(bool),
    Number(Option<i64>),
    Text(String),
    Array(Vec<JsonValue>),
    Object(Vec<(String, JsonValue)>),
}

/// The document that `value` holds.
pub open spec fn json_view(value: JsonValue) -> JsonView
    decreases value,
{
    match value {
        JsonValue::Null => JsonView::Null,
        JsonValue::Bool(b) => JsonView::Bool(b),
        JsonValue::Number(n) => JsonView::Number(n),
        JsonValue::Text(s) => JsonView::Text(s@),
        JsonValue::Array(items) => JsonView::Array(
            Seq::new(
                items@.len(),
                |i: int|
                    if 0 <= i < items@.len() {
                        json_view(items@[i])
                    } else {
                        JsonView::Null
                    },
            ),
        ),
        JsonValue::Object(members) => JsonView::Object(
            Seq::new(
                members@.len(),
                |i: int|
                    if 0 <= i < members@.len() {
                        (members@[i].0@, json_view(members@[i].1))
                    } else {
                        (Seq::empty(), JsonView::Null)
                    },
            ),
        ),
    }
}

impl View for JsonValue {
    type V = JsonView;

    open spec fn view(&self) -> JsonView {
        json_view(*self)
    }
}

impl JsonValue {
    /// The member called `name`, where this is an object that has one.
    pub fn get(&self, name: &str) -> (found: Option<&JsonValue>)
        ensures
            view_of(found) == self@.get(name@),
    {
        match self {
            JsonValue::Object(members) => {
                let ghost all = self@->Object_0;
                let mut i: usize = 0;
                assert(all.skip(0) =~= all);
                while i < members.len()
                    invariant
                        i <= members@.len(),
                        self@ == JsonView::Object(all),
                        *self == JsonValue::Object(*members),
                        all.len() == members@.len(),
                        forall|j: int| 0 <= j < members@.len() ==> all[j] == (#[trigger] members@[j].0@, members@[j].1@),
                        member(all, name@) == member(all.skip(i as int), name@),
                    decreases members@.len() - i,
                {
                    if same_text(members[i].0.as_str(), name) {
                        assert(all.skip(i as int)[0] == all[i as int]);
                        return Some(&members[i].1);
                    }
                    assert(all.skip(i as int).drop_first() =~= all.skip(i + 1));
                    i = i + 1;
                }
                None
            },
            _ => None,
        }
    }
}

/// The type of JSON documents of `serde_json`.
#[verifier::external_type_specification]
#[verifier::external_body]
pub struct ExSerdeValue(serde_json::Value);

/// What a `serde_json` document holds.
pub uninterp spec fn document_contents(document: serde_json::Value) -> JsonView;

/// What `simd_json::from_slice` reads in the bytes of a text as a `serde_json` document; `None`
/// where it reports an error.
pub uninterp spec fn document_in(text: Seq<char>) -> Option<JsonView>;

/// One level of a `serde_json` document.
pub enum JsonNode {
    Null,
    Bool(bool),
    Number(Option<i64>),
    Text(String),
    Array(Vec<serde_json::Value>),
    Object(Vec<(String, serde_json::Value)>),
}

/// The document whose top level is `node`.
pub open spec fn node_contents(node: JsonNode) -> JsonView {
    match node {
        JsonNode::Null => JsonView::Null,
        JsonNode::Bool(b) => JsonView::Bool(b),
        JsonNode::Number(n) => JsonView::Number(n),
        JsonNode::Text(s) => JsonView::Text(s@),
        JsonNode::Array(items) => JsonView::Array(
            items@.map_values(|item: serde_json::Value| document_contents(item)),
        ),
        JsonNode::Object(members) => JsonView::Object(
            members@.map_values(
                |member: (String, serde_json::Value)| (member.0@, document_contents(member.1)),
            ),
        ),
    }
}

/// Calls `simd_json::from_slice` on the bytes of `text`. Claims that the outcome depends on the
/// text alone: either an error, or the document that the text is the JSON of.
#[verifier::external_body]
fn read_document(text: &str) -> (document: Option<serde_json::Value>)
    ensures
        (match document {
            Some(d) => document_in(text@) == Some(document_contents(d)),
            None => document_in(text@) is None,
        }),
{
    let mut bytes = text.as_bytes().to_vec();
    simd_json::from_slice(&mut bytes).ok()
}

/// Takes a `serde_json::Value` apart by its variants. A number keeps what
/// `serde_json::Number::as_i64` gives of it, and the members of a `serde_json::Map` come in the
/// order in which the map hands them out. Claims that the level and its parts are the document.
#[verifier::external_body]
fn open_document(document: serde_json::Value) -> (node: JsonNode)
    ensures
        node_contents(node) == document_contents(document),
{
    match document {
        serde_json::Value::Null => JsonNode::Null,
        serde_json::Value::Bool(b) => JsonNode::Bool(b),
        serde_json::Value::Number(n) => JsonNode::Number(n.as_i64()),
        serde_json::Value::String(s) => JsonNode::Text(s),
        serde_json::Value::Array(items) => JsonNode::Array(items),
        serde_json::Value::Object(members) => JsonNode::Object(members.into_iter().collect()),
    }
}

/// The document that `document` holds, as plain values.
fn plain_document(document: serde_json::Value) -> (value: JsonValue)
    ensures
        value@ == document_contents(document),
    decreases document_contents(document),
{
    let ghost contents = document_contents(document);
    match open_document(document) {
        JsonNode::Null => JsonValue::Null,
        JsonNode::Bool(b) => JsonValue::Bool(b),
        JsonNode::Number(n) => JsonValue::Number(n),
        JsonNode::Text(s) => JsonValue::Text(s),
        JsonNode::Array(items) => {
            let ghost all = items@;
            let mut values: Vec<JsonValue> = Vec::new();
            for item in iter: items
                invariant
                    iter.seq() == all,
                    contents == JsonView::Array(
                        all.map_values(|item: serde_json::Value| document_contents(item)),
                    ),
                    contents == document_contents(document),
                    values@.len() == iter.index(),
                    forall|j: int|
                        0 <= j < values@.len() ==> json_view(#[trigger] values@[j])
                            == contents->Array_0[j],
            {
                assert(document_contents(item) == contents->Array_0[iter.index()]);
                values.push(plain_document(item));
            }
            assert(json_view(JsonValue::Array(values))->Array_0 =~= contents->Array_0);
            JsonValue::Array(values)
        },
        JsonNode::Object(members) => {
            let ghost all = members@;
            let mut values: Vec<(String, JsonValue)> = Vec::new();
            for member in iter: members
                invariant
                    iter.seq() == all,
                    contents == JsonView::Object(
                        all.map_values(
                            |member: (String, serde_json::Value)|
                                (member.0@, document_contents(member.1)),
                        ),
                    ),
                    contents == document_contents(document),
                    values@.len() == iter.index(),
                    forall|j: int|
                        0 <= j < values@.len() ==> (#[trigger] values@[j].0@, values@[j].1@)
                            == contents->Object_0[j],
            {
                assert(contents->Object_0[iter.index()] == (
                    member.0@,
                    document_contents(member.1),
                ));
                assert(decreases_to!(contents => contents->Object_0[iter.index()].1));
                values.push((member.0, plain_document(member.1)));
            }
            assert(json_view(JsonValue::Object(values))->Object_0 =~= contents->Object_0);
            JsonValue::Object(values)
        },
    }
}

/// Reads `text` as a JSON document.
pub fn parse_document(text: &str) -> (value: Option<JsonValue>)
    ensures
        (match value {
            Some(value) => document_in(text@) == Some(value@),
            None => document_in(text@) is None,
        }),
{
    match read_document(text) {
        Some(document) => Some(plain_document(document)),
        None => None,
    }
}

/// The integer that `value` is, if it is one of 64 signed bits.
pub open spec fn integer_in(value: Option<JsonView>) -> Option<i64> {
    match value {
        Some(JsonView::Number(n)) => n,
        _ => None,
    }
}

/// The text that `value` is, if it is one.
pub open spec fn text_in(value: Option<JsonView>) -> Option<Seq<char>> {
    match value {
        Some(JsonView::Text(s)) => Some(s),
        _ => None,
    }
}

/// What an optional value holds.
pub open spec fn view_of(value: Option<&JsonValue>) -> Option<JsonView> {
    match value {
        Some(value) => Some(value@),
        None => None,
    }
}

/// The integer that `value` is, if it is one of 64 signed bits.
pub fn extract_i64(value: Option<&JsonValue>) -> (n: Option<i64>)
    ensures
        n == integer_in(view_of(value)),
{
    match value {
        Some(JsonValue::Number(n)) => *n,
        _ => None,
    }
}

/// The text that `value` is, if it is one.
pub fn extract_string(value: Option<&JsonValue>) -> (s: Option<String>)
    ensures
        text_of(s) == text_in(view_of(value)),
{
    match value {
        Some(JsonValue::Text(s)) => Some(s.clone()),
        _ => None,
    }
}

} // verus!
