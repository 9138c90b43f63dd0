//! JSON values that the tools put together or read, as plain data. Turning
//! them into text, and text into them, is left to the surrounding program.

use vstd::prelude::*;
use crate::text::optional_view;

verus! {

/// A JSON value that a tool puts together.
#[derive(Debug, PartialEq)]
pub enum Json {
    Null,
    /// A string.
    Text(String),
    /// A whole number.
    Unsigned(u64),
    /// An array.
    List(Vec<Json>),
    /// An object: its members, in order.
    Object(Vec<Member>),
    /// A value that is JSON text already.
    Raw(String),
}

/// A member of a JSON object.
#[derive(Debug, PartialEq)]
pub struct Member {
    pub key: String,
    pub value: Json,
}

/// The mathematical value of a JSON value.
pub enum JsonView {
    Null,
    Text(Seq<char>),
    Unsigned(nat),
    List(Seq<JsonView>),
    Object(Seq<(Seq<char>, JsonView)>),
    Raw(Seq<char>),
}

/// The mathematical value of `json`.
pub open spec fn json_value(json: Json) -> JsonView
    decreases json,
{
    match json {
        Json::Null => JsonView::Null,
        Json::Text(s) => JsonView::Text(s@),
        Json::Unsigned(n) => JsonView::Unsigned(n as nat),
        Json::List(items) => JsonView::List(
            Seq::new(
                items@.len(),
                |i: int|
                    if 0 <= i < items@.len() {
                        json_value(items@[i])
                    } else {
                        JsonView::Null
                    },
            ),
        ),
        Json::Object(members) => JsonView::Object(
            Seq::new(
                members@.len(),
                |i: int|
                    if 0 <= i < members@.len() {
                        (members@[i].key@, json_value(members@[i].value))
                    } else {
                        (Seq::empty(), JsonView::Null)
                    },
            ),
        ),
        Json::Raw(s) => JsonView::Raw(s@),
    }
}

impl View for Json {
    type V = JsonView;

    open spec fn view(&self) -> JsonView {
        json_value(*self)
    }
}

/// The value of an optional string: the string, or `null`.
pub open spec fn text_or_null(text: Option<Seq<char>>) -> JsonView {
    match text {
        Some(s) => JsonView::Text(s),
        None => JsonView::Null,
    }
}

impl Json {
    /// The JSON string `text`.
    pub fn text(text: &str) -> (json: Json)
        ensures
            json@ == JsonView::Text(text@),
    {
        Json::Text(String::from_str(text))
    }

    /// The JSON string `text`, or `null` where there is none.
    pub fn optional_text(text: Option<&str>) -> (json: Json)
        ensures
            json@ == text_or_null(optional_view(text)),
    {
        match text {
            Some(s) => Json::Text(String::from_str(s)),
            None => Json::Null,
        }
    }

    /// The array that holds `item` alone.
    pub fn list_of(item: Json) -> (json: Json)
        ensures
            json@ == JsonView::List(seq![item@]),
    {
        let mut items: Vec<Json> = Vec::new();
        items.push(item);
        let json = Json::List(items);
        proof {
            assert(json@->List_0 =~= seq![item@]);
        }
        json
    }

    /// The object with no members.
    pub fn object() -> (json: Json)
        ensures
            json@ == JsonView::Object(Seq::empty()),
    {
        let json = Json::Object(Vec::new());
        proof {
            assert(json@->Object_0 =~= Seq::empty());
        }
        json
    }

    /// This object with one more member, `key` with `value`, in last place.
    /// A value that is no object is given back as it is.
    pub fn with(self, key: &str, value: Json) -> (json: Json)
        ensures
            self@ matches JsonView::Object(members) ==> json@ == JsonView::Object(
                members.push((key@, value@)),
            ),
            !(self@ is Object) ==> json@ == self@,
    {
        match self {
            Json::Object(members) => {
                let ghost before = Json::Object(members)@->Object_0;
                let mut members = members;
                members.push(Member { key: String::from_str(key), value });
                let json = Json::Object(members);
                proof {
                    assert(json@->Object_0 =~= before.push((key@, value@)));
                }
                json
            },
            other => other,
        }
    }
}

/// One item of an array that was read.
#[derive(Debug, PartialEq)]
pub enum JsonItem {
    /// A string.
    Text(String),
    /// Anything else.
    Other,
}

/// What was read under one key of a JSON object.
#[derive(Debug, PartialEq)]
pub enum JsonField {
    /// The object has no such key, or what was read is no object.
    Missing,
    /// A string.
    Text { text: String },
    /// An array: its items, and the array as JSON text.
    List { items: Vec<JsonItem>, rendered: String },
    /// Anything else, as JSON text.
    Other { rendered: String },
}

/// A JSON document that was read: the whole of it as JSON text, and what
/// stands under the keys that were asked for, in the order of the asking.
#[derive(Debug, PartialEq)]
pub struct JsonDoc {
    pub rendered: String,
    pub fields: Vec<JsonField>,
}

/// The string under a field, where the field is a string.
pub open spec fn field_text(field: JsonField) -> Option<Seq<char>> {
    match field {
        JsonField::Text { text } => Some(text@),
        _ => None,
    }
}

/// The value that stands for a field in an object that is put together:
/// `null` for a missing field, the string for a string, and the field's own
/// JSON text for anything else.
pub open spec fn field_value(field: JsonField) -> JsonView {
    match field {
        JsonField::Missing => JsonView::Null,
        JsonField::Text { text } => JsonView::Text(text@),
        JsonField::List { items, rendered } => JsonView::Raw(rendered@),
        JsonField::Other { rendered } => JsonView::Raw(rendered@),
    }
}

impl JsonField {
    /// The string under this field, or the empty string where the field is
    /// no string.
    pub fn text_or_empty(&self) -> (text: String)
        ensures
            text@ == match field_text(*self) {
                Some(s) => s,
                None => Seq::<char>::empty(),
            },
    {
        match self {
            JsonField::Text { text } => text.clone(),
            _ => String::new(),
        }
    }

    /// The value that stands for this field in an object that is put
    /// together.
    pub fn to_json(&self) -> (json: Json)
        ensures
            json@ == field_value(*self),
    {
        match self {
            JsonField::Missing => Json::Null,
            JsonField::Text { text } => Json::Text(text.clone()),
            JsonField::List { items, rendered } => Json::Raw(rendered.clone()),
            JsonField::Other { rendered } => Json::Raw(rendered.clone()),
        }
    }
}

} // verus!
