//! JSON documents, read through `serde_json`.
//!
//! A parsed document is an opaque value of `serde_json`; what it holds is described
//! by [`JsonModel`], and the functions that look into it say what they return in
//! terms of that description.

use vstd::prelude::*;

verus! {

/// `serde_json::Value`, carried as an opaque value.
#[verifier::external_type_specification]
#[verifier::external_body]
pub struct ExJsonValue(serde_json::Value);

/// A JSON number, as far as whole numbers go.
pub enum JsonNumber {
    /// A whole number that is not negative.
    Unsigned(u64),
    /// A negative whole number.
    Negative(i64),
    /// A number with a fraction or an exponent.
    Fraction,
}

/// What a JSON document holds.
pub enum JsonModel {
    /// `null`.
    Null,
    /// `true` or `false`.
    Bool(bool),
    /// A number.
    Number(JsonNumber),
    /// A string.
    Text(Seq<char>),
    /// An array.
    Array(Seq<JsonModel>),
    /// An object: its members by name.
    Object(Map<Seq<char>, JsonModel>),
}

/// What a text holds as a JSON document, as `serde_json::from_str` reads it;
/// nothing where the text is no JSON document.
pub uninterp spec fn json_document(text: Seq<char>) -> Option<JsonModel>;

/// What a parsed document holds.
pub uninterp spec fn json_model(value: serde_json::Value) -> JsonModel;

impl JsonModel {
    /// The member of an object with the given name; nothing where there is none or
    /// the document is no object.
    pub open spec fn member(self, name: Seq<char>) -> Option<JsonModel> {
        match self {
            JsonModel::Object(members) => if members.contains_key(name) {
                Some(members[name])
            } else {
                None
            },
            _ => None,
        }
    }

    /// The text of a string; nothing where the document is no string.
    pub open spec fn text(self) -> Option<Seq<char>> {
        match self {
            JsonModel::Text(text) => Some(text),
            _ => None,
        }
    }

    /// The value of a whole number that is not negative; nothing for anything else.
    pub open spec fn unsigned(self) -> Option<u64> {
        match self {
            JsonModel::Number(JsonNumber::Unsigned(n)) => Some(n),
            _ => None,
        }
    }

    /// The text of the member with the given name, where it is a string.
    pub open spec fn member_text(self, name: Seq<char>) -> Option<Seq<char>> {
        match self.member(name) {
            Some(inner) => inner.text(),
            None => None,
        }
    }
}

/// Calls `serde_json::from_str` for a `Value`, which reads the whole text as one
/// JSON document and fails where it is none. What the value holds is what the name
/// `json_document` gives for the text.
#[verifier::external_body]
pub(crate) fn parse(text: &str) -> (r: Result<serde_json::Value, serde_json::Error>)
    ensures
        r is Ok <==> json_document(text@) is Some,
        r matches Ok(value) ==> json_document(text@) == Some(json_model(value)),
{
    serde_json::from_str::<serde_json::Value>(text)
}

/// Calls `Value::get` with a name, which gives the member of that name where the
/// value is an object that has one, and nothing otherwise.
#[verifier::external_body]
pub(crate) fn get<'a>(value: &'a serde_json::Value, name: &str) -> (r: Option<
    &'a serde_json::Value,
>)
    ensures
        r is Some <==> json_model(*value).member(name@) is Some,
        r matches Some(inner) ==> json_model(*value).member(name@) == Some(json_model(*inner)),
{
    value.get(name)
}

/// Calls `Value::as_str`, which gives the text where the value is a string, and
/// nothing otherwise.
#[verifier::external_body]
pub(crate) fn as_str(value: &serde_json::Value) -> (r: Option<String>)
    ensures
        r is Some <==> json_model(*value).text() is Some,
        r matches Some(text) ==> json_model(*value).text() == Some(text@),
{
    value.as_str().map(|text| text.to_string())
}

/// Calls `Value::as_u64`, which gives the number where the value is a whole number
/// that is not negative and fits 64 bits, and nothing otherwise.
#[verifier::external_body]
pub(crate) fn as_u64(value: &serde_json::Value) -> (r: Option<u64>)
    ensures
        r == json_model(*value).unsigned(),
{
    value.as_u64()
}

} // verus!
