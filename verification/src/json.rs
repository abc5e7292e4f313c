//! The changed fields of an edited object, as the JSON object that is sent
//! to the server.

use vstd::prelude::*;
use vstd::string::StringExecFns;
use crate::text::str_eq;

verus! {

/// A value of a field.
#[derive(Clone, Debug, PartialEq, Eq)]
pub enum JsonValue {
    /// No value
    Null,
    /// A number
    Number(u32),
    /// A text
    Text(String),
}

/// A field of an object: its key and its value.
#[derive(Clone, Debug, PartialEq, Eq)]
pub struct Field {
    pub key: String,
    pub value: JsonValue,
}

/// What a value holds.
pub enum JsonView {
    Null,
    Number(u32),
    Text(Seq<char>),
}

/// Why no object can be made.
#[derive(Clone, Copy, Debug, PartialEq, Eq, Structural)]
pub enum CardError {
    /// No name was entered.
    NameMissing,
}

impl View for JsonValue {
    type V = JsonView;

    open spec fn view(&self) -> JsonView {
        match *self {
            JsonValue::Null => JsonView::Null,
            JsonValue::Number(n) => JsonView::Number(n),
            JsonValue::Text(s) => JsonView::Text(s@),
        }
    }
}

impl View for Field {
    type V = (Seq<char>, JsonView);

    open spec fn view(&self) -> (Seq<char>, JsonView) {
        (self.key@, self.value@)
    }
}

/// What a sequence of fields holds.
pub open spec fn field_views(fields: Seq<Field>) -> Seq<(Seq<char>, JsonView)> {
    Seq::new(fields.len(), |i: int| fields[i]@)
}

/// The text of a text that may be missing, as a value.
pub open spec fn opt_text_value(v: Option<String>) -> JsonView {
    match v {
        Some(s) => JsonView::Text(s@),
        None => JsonView::Null,
    }
}

/// The number that may be missing, as a value.
pub open spec fn opt_number_value(v: Option<u32>) -> JsonView {
    match v {
        Some(n) => JsonView::Number(n),
        None => JsonView::Null,
    }
}

/// Two texts that may be missing are the same.
pub open spec fn same_text(a: Option<String>, b: Option<String>) -> bool {
    match (a, b) {
        (Some(x), Some(y)) => x@ == y@,
        (None, None) => true,
        _ => false,
    }
}

/// `fields` with the field `key` added, where the text that was entered
/// differs from the current one.
pub open spec fn with_changed_text(
    fields: Seq<(Seq<char>, JsonView)>,
    key: Seq<char>,
    input: Option<String>,
    current: Option<String>,
) -> Seq<(Seq<char>, JsonView)> {
    if same_text(input, current) {
        fields
    } else {
        fields.push((key, opt_text_value(input)))
    }
}

/// `fields` with the field `key` added, where the number that was entered
/// differs from the current one.
pub open spec fn with_changed_number(
    fields: Seq<(Seq<char>, JsonView)>,
    key: Seq<char>,
    input: Option<u32>,
    current: Option<u32>,
) -> Seq<(Seq<char>, JsonView)> {
    if input == current {
        fields
    } else {
        fields.push((key, opt_number_value(input)))
    }
}

/// The text that `serde_json` writes for the object that is made by
/// inserting the fields, one after the other, into an empty map.
pub uninterp spec fn json_object_text(fields: Seq<(Seq<char>, JsonView)>) -> Seq<char>;

/// Makes a `serde_json::Map`, inserts each field with `Map::insert`, and
/// writes the object with `Value::to_string`.
#[verifier::external_body]
pub(crate) fn json_object(fields: &Vec<Field>) -> (r: String)
    ensures
        r@ == json_object_text(field_views(fields@)),
{
    let mut obj = serde_json::Map::new();
    for field in fields.iter() {
        let value = match &field.value {
            JsonValue::Null => serde_json::Value::Null,
            JsonValue::Number(n) => serde_json::Value::from(*n),
            JsonValue::Text(s) => serde_json::Value::String(s.clone()),
        };
        obj.insert(field.key.clone(), value);
    }
    serde_json::Value::Object(obj).to_string()
}

/// Whether two texts that may be missing are the same.
pub fn opt_text_eq(a: &Option<String>, b: &Option<String>) -> (r: bool)
    ensures
        r == same_text(*a, *b),
{
    match (a, b) {
        (Some(x), Some(y)) => str_eq(x.as_str(), y.as_str()),
        (None, None) => true,
        _ => false,
    }
}

/// Whether two numbers that may be missing are the same.
pub fn opt_number_eq(a: Option<u32>, b: Option<u32>) -> (r: bool)
    ensures
        r == (a == b),
{
    match (a, b) {
        (Some(x), Some(y)) => x == y,
        (None, None) => true,
        _ => false,
    }
}

/// Add the field `key` where the text that was entered differs from the
/// current one: with the text, or with no value where none was entered.
pub fn changed_text(
    fields: &mut Vec<Field>,
    key: &str,
    input: &Option<String>,
    current: &Option<String>,
)
    ensures
        field_views(final(fields)@) == with_changed_text(
            field_views(old(fields)@),
            key@,
            *input,
            *current,
        ),
{
    if !opt_text_eq(input, current) {
        let value = match input {
            Some(s) => JsonValue::Text(s.clone()),
            None => JsonValue::Null,
        };
        fields.push(Field { key: String::from_str(key), value });
        assert(field_views(fields@) =~= field_views(old(fields)@).push(
            (key@, opt_text_value(*input)),
        ));
    }
}

/// Add the field `key` where the number that was entered differs from the
/// current one: with the number, or with no value where none was entered.
pub fn changed_number(fields: &mut Vec<Field>, key: &str, input: Option<u32>, current: Option<u32>)
    ensures
        field_views(final(fields)@) == with_changed_number(
            field_views(old(fields)@),
            key@,
            input,
            current,
        ),
{
    if !opt_number_eq(input, current) {
        let value = match input {
            Some(n) => JsonValue::Number(n),
            None => JsonValue::Null,
        };
        fields.push(Field { key: String::from_str(key), value });
        assert(field_views(fields@) =~= field_views(old(fields)@).push(
            (key@, opt_number_value(input)),
        ));
    }
}

/// Create a name value: the object that holds nothing but the name of a
/// new object. A name must have been entered, and must not be empty.
pub fn create_value(name: Option<String>) -> (r: Result<String, CardError>)
    ensures
        match name {
            Some(n) if n@.len() > 0 => r matches Ok(text) && text@ == json_object_text(
                seq![("name"@, JsonView::Text(n@))],
            ),
            _ => r == Err::<String, CardError>(CardError::NameMissing),
        },
{
    if let Some(name) = name {
        if !name.as_str().is_empty() {
            let mut fields: Vec<Field> = Vec::new();
            fields.push(Field { key: String::from_str("name"), value: JsonValue::Text(name) });
            assert(field_views(fields@) =~= seq![("name"@, JsonView::Text(name@))]);
            return Ok(json_object(&fields));
        }
    }
    Err(CardError::NameMissing)
}

} // verus!
