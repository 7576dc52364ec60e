//! JSON documents as the provider sends them, read through `serde_json`.
//!
//! A parsed document stays a `serde_json::Value`. Contracts speak of its
//! content, a [`JsonView`]. The functions of `serde_json` that the crate calls
//! get their contracts here, over that content; nothing in them is proved, and
//! everything else in the crate is proved from them.

use vstd::prelude::*;

verus! {

/// What a JSON number holds.
pub enum NumberView {
    /// An integer from zero up to `u64::MAX`.
    Unsigned(u64),
    /// An integer below zero.
    Negative(i64),
    /// Any other number, given by the bits of its double.
    Fraction(u64),
}

/// What a JSON value holds.
pub enum JsonView {
    Null,
    Flag(bool),
    Number(NumberView),
    Text(Seq<char>),
    List(Seq<JsonView>),
    Object(Map<Seq<char>, JsonView>),
}

/// `serde_json::Value`, a parsed document. Nothing of its inside is known
/// here but what the contracts below say of it.
#[verifier::external_type_specification]
#[verifier::external_body]
pub struct ExValue(serde_json::Value);

/// `serde_json::Error`, the error of a parse that failed.
#[verifier::external_type_specification]
#[verifier::external_body]
pub struct ExError(serde_json::Error);

/// The content of a document: all that a `serde_json::Value` holds.
pub uninterp spec fn json_view(value: serde_json::Value) -> JsonView;

/// The text that a `serde_json::Error` displays.
pub uninterp spec fn error_view(error: serde_json::Error) -> Seq<char>;

/// What `serde_json::from_slice` makes of a body: the content of the document
/// it reads, or the text of the error it reports.
pub uninterp spec fn parsed(body: Seq<u8>) -> Result<JsonView, Seq<char>>;

/// The compact JSON text that `serde_json` writes for a document with this
/// content.
pub uninterp spec fn rendered(json: JsonView) -> Seq<char>;

/// The member of an object under `key`: nothing for a key that the object
/// lacks, and nothing for a value that is not an object.
pub open spec fn member(json: JsonView, key: Seq<char>) -> Option<JsonView> {
    match json {
        JsonView::Object(members) => if members.contains_key(key) {
            Some(members[key])
        } else {
            None
        },
        _ => None,
    }
}

/// The text of a string value.
pub open spec fn text_of(json: JsonView) -> Option<Seq<char>> {
    match json {
        JsonView::Text(text) => Some(text),
        _ => None,
    }
}

/// The value of a number that is an integer from zero up to `u64::MAX`.
pub open spec fn unsigned_of(json: JsonView) -> Option<u64> {
    match json {
        JsonView::Number(NumberView::Unsigned(n)) => Some(n),
        _ => None,
    }
}

/// The value of a number that is an integer from `i64::MIN` up to `i64::MAX`.
pub open spec fn signed_of(json: JsonView) -> Option<i64> {
    match json {
        JsonView::Number(NumberView::Unsigned(n)) => if n <= i64::MAX {
            Some(n as i64)
        } else {
            None
        },
        JsonView::Number(NumberView::Negative(n)) => Some(n),
        _ => None,
    }
}

/// The value of a number that is an integer, of either sign. A number that
/// is written with a fraction or an exponent, or that 64 bits cannot hold, is
/// kept as a double by `serde_json` and is no integer here.
pub open spec fn integer_of(json: JsonView) -> Option<int> {
    match json {
        JsonView::Number(NumberView::Unsigned(n)) => Some(n as int),
        JsonView::Number(NumberView::Negative(n)) => Some(n as int),
        _ => None,
    }
}

/// The value of a boolean.
pub open spec fn flag_of(json: JsonView) -> Option<bool> {
    match json {
        JsonView::Flag(flag) => Some(flag),
        _ => None,
    }
}

/// The text of the member under `key`, where there is such a member and it is
/// a string.
pub open spec fn text_at(json: JsonView, key: Seq<char>) -> Option<Seq<char>> {
    match member(json, key) {
        Some(inner) => text_of(inner),
        None => None,
    }
}

/// The value of the member under `key`, where there is such a member and it is
/// an integer.
pub open spec fn integer_at(json: JsonView, key: Seq<char>) -> Option<int> {
    match member(json, key) {
        Some(inner) => integer_of(inner),
        None => None,
    }
}

/// The value of the member under `key`, where there is such a member and it is
/// a boolean.
pub open spec fn flag_at(json: JsonView, key: Seq<char>) -> Option<bool> {
    match member(json, key) {
        Some(inner) => flag_of(inner),
        None => None,
    }
}

/// The contents of a vector of documents, in order.
pub open spec fn list_view(items: Seq<serde_json::Value>) -> Seq<JsonView> {
    items.map_values(|item: serde_json::Value| json_view(item))
}

/// `serde_json::from_slice` at `Value`. The result is the one that `parsed`
/// names for these bytes: a document with that content, or an error with that
/// text.
#[verifier::external_body]
pub(crate) fn parse(body: &[u8]) -> (r: Result<serde_json::Value, serde_json::Error>)
    ensures
        match r {
            Ok(value) => parsed(body@) == Ok::<JsonView, Seq<char>>(json_view(value)),
            Err(error) => parsed(body@) == Err::<JsonView, Seq<char>>(error_view(error)),
        },
{
    serde_json::from_slice(body)
}

/// `Value::get` with a string index. It finds something exactly when the value
/// is an object that has the key, and what it finds is the member under it.
#[verifier::external_body]
pub(crate) fn get<'a>(value: &'a serde_json::Value, key: &str) -> (found: Option<
    &'a serde_json::Value,
>)
    ensures
        match found {
            Some(inner) => member(json_view(*value), key@) == Some(json_view(*inner)),
            None => member(json_view(*value), key@) is None,
        },
{
    value.get(key)
}

/// `Value`'s `to_string`, which writes the document as compact JSON.
#[verifier::external_body]
pub(crate) fn render(value: &serde_json::Value) -> (text: String)
    ensures
        text@ == rendered(json_view(*value)),
{
    value.to_string()
}

/// `Error`'s `to_string`: the text that the error displays.
#[verifier::external_body]
pub(crate) fn describe(error: &serde_json::Error) -> (text: String)
    ensures
        text@ == error_view(*error),
{
    error.to_string()
}

/// `Value::as_str` gives the text of a string value and nothing for any other
/// value.
pub assume_specification<'a>[ serde_json::Value::as_str ](value: &'a serde_json::Value) -> (text:
    Option<&'a str>)
    ensures
        match text {
            Some(s) => text_of(json_view(*value)) == Some(s@),
            None => text_of(json_view(*value)) is None,
        },
;

/// `Value::as_u64` gives the value of a number that is an integer from zero up
/// to `u64::MAX`, and nothing for a negative or fractional number or for a
/// value that is no number.
pub assume_specification[ serde_json::Value::as_u64 ](value: &serde_json::Value) -> (number: Option<
    u64,
>)
    ensures
        number == unsigned_of(json_view(*value)),
;

/// `Value::as_i64` gives the value of a number that is an integer from
/// `i64::MIN` up to `i64::MAX`, and nothing for a greater or fractional number
/// or for a value that is no number.
pub assume_specification[ serde_json::Value::as_i64 ](value: &serde_json::Value) -> (number: Option<
    i64,
>)
    ensures
        number == signed_of(json_view(*value)),
;

/// `Value::as_bool` gives the value of a boolean and nothing for any other
/// value.
pub assume_specification[ serde_json::Value::as_bool ](value: &serde_json::Value) -> (flag: Option<
    bool,
>)
    ensures
        flag == flag_of(json_view(*value)),
;

/// `Value::as_array` gives the elements of an array, in order, and nothing for
/// any other value.
pub assume_specification<'a>[ serde_json::Value::as_array ](value: &'a serde_json::Value) -> (items:
    Option<&'a Vec<serde_json::Value>>)
    ensures
        match items {
            Some(list) => json_view(*value) == JsonView::List(list_view(list@)),
            None => !(json_view(*value) is List),
        },
;

/// Reads the member under `key` as text.
pub fn text_member<'a>(value: &'a serde_json::Value, key: &str) -> (text: Option<&'a str>)
    ensures
        match text {
            Some(s) => text_at(json_view(*value), key@) == Some(s@),
            None => text_at(json_view(*value), key@) is None,
        },
{
    match get(value, key) {
        Some(inner) => inner.as_str(),
        None => None,
    }
}

/// Reads the member under `key` as an integer, of either sign.
pub fn integer_member(value: &serde_json::Value, key: &str) -> (number: Option<i128>)
    ensures
        match number {
            Some(n) => integer_at(json_view(*value), key@) == Some(n as int),
            None => integer_at(json_view(*value), key@) is None,
        },
{
    match get(value, key) {
        Some(inner) => match inner.as_u64() {
            Some(n) => Some(n as i128),
            None => match inner.as_i64() {
                Some(n) => Some(n as i128),
                None => None,
            },
        },
        None => None,
    }
}

/// Reads the member under `key` as a boolean.
pub fn flag_member(value: &serde_json::Value, key: &str) -> (flag: Option<bool>)
    ensures
        flag == flag_at(json_view(*value), key@),
{
    match get(value, key) {
        Some(inner) => inner.as_bool(),
        None => None,
    }
}

} // verus!
