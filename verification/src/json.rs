//! JSON documents, as `serde_json` parses and holds them.
//!
//! A `serde_json::Value` is opaque to the verifier. Its content is described
//! by [`json_view`], a mathematical value of type [`JsonModel`]; the functions
//! at the end of this file are the only ones that touch a `Value`, and each is
//! stated over that view.

use vstd::prelude::*;

verus! {

/// `serde_json::Value`, taken as it is: what it holds is told by
/// [`json_view`].
#[verifier::external_type_specification]
#[verifier::external_body]
pub struct ExValue(serde_json::Value);

/// `serde_json::Error`, the error of `serde_json::from_str`.
#[verifier::external_type_specification]
#[verifier::external_body]
pub struct ExJsonError(serde_json::Error);

/// A JSON number, in the three forms `serde_json` distinguishes.
pub enum JsonNumber {
    /// An integer from zero to `u64::MAX`.
    Unsigned(u64),
    /// An integer below zero, down to `i64::MIN`.
    Negative(i64),
    /// Any other number: one written with a fraction or an exponent, or an
    /// integer outside the two ranges above. Its value is not modelled.
    Float,
}

/// The content of a JSON value.
pub enum JsonModel {
    Null,
    Bool(bool),
    Number(JsonNumber),
    Text(Seq<char>),
    Array(Seq<JsonModel>),
    Object(Map<Seq<char>, JsonModel>),
}

impl JsonModel {
    /// The member stored under `key`, if this is an object that has one.
    pub open spec fn member(self, key: Seq<char>) -> Option<JsonModel> {
        match self {
            JsonModel::Object(members) => if members.contains_key(key) {
                Some(members[key])
            } else {
                None
            },
            _ => None,
        }
    }

    /// The number, if this is an integer from zero to `u64::MAX`.
    pub open spec fn unsigned(self) -> Option<u64> {
        match self {
            JsonModel::Number(JsonNumber::Unsigned(n)) => Some(n),
            _ => None,
        }
    }

    /// The number, if this is an integer from `i64::MIN` to `i64::MAX`.
    pub open spec fn signed(self) -> Option<i64> {
        match self {
            JsonModel::Number(JsonNumber::Unsigned(n)) => if n <= i64::MAX {
                Some(n as i64)
            } else {
                None
            },
            JsonModel::Number(JsonNumber::Negative(i)) => Some(i),
            _ => None,
        }
    }

    /// The characters, if this is a string.
    pub open spec fn text(self) -> Option<Seq<char>> {
        match self {
            JsonModel::Text(s) => Some(s),
            _ => None,
        }
    }
}

/// The content of a `serde_json::Value`.
pub uninterp spec fn json_view(value: serde_json::Value) -> JsonModel;

/// What `serde_json::from_str` makes of a text when asked for a `Value`: the
/// content of the document, or `None` where it reports an error.
pub uninterp spec fn parsed(text: Seq<char>) -> Option<JsonModel>;

/// `serde_json::from_str::<Value>`. The outcome depends on the text alone;
/// nothing is claimed about which texts are accepted.
#[verifier::external_body]
pub(crate) fn parse(text: &str) -> (r: Result<serde_json::Value, serde_json::Error>)
    ensures
        match r {
            Ok(value) => parsed(text@) == Some(json_view(value)),
            Err(_) => parsed(text@) is None,
        },
{
    serde_json::from_str::<serde_json::Value>(text)
}

/// `Value::get` with a string index: the entry of an object's map under that
/// key, and `None` for a missing key or a value that is not an object.
#[verifier::external_body]
pub(crate) fn member<'a>(value: &'a serde_json::Value, key: &str) -> (r: Option<
    &'a serde_json::Value,
>)
    ensures
        match r {
            Some(found) => json_view(*value).member(key@) == Some(json_view(*found)),
            None => json_view(*value).member(key@) is None,
        },
{
    value.get(key)
}

/// `Value::as_u64`: the integer of a number held as a non-negative integer,
/// and `None` for every other value.
#[verifier::external_body]
pub(crate) fn unsigned(value: &serde_json::Value) -> (r: Option<u64>)
    ensures
        r == json_view(*value).unsigned(),
{
    value.as_u64()
}

/// `Value::as_i64`: the integer of a number held as an integer, where it is
/// at most `i64::MAX`, and `None` for every other value.
#[verifier::external_body]
pub(crate) fn signed(value: &serde_json::Value) -> (r: Option<i64>)
    ensures
        r == json_view(*value).signed(),
{
    value.as_i64()
}

/// `Value::as_str`: the characters of a string, and `None` for every other
/// value.
#[verifier::external_body]
pub(crate) fn text<'a>(value: &'a serde_json::Value) -> (r: Option<&'a str>)
    ensures
        match r {
            Some(s) => json_view(*value).text() == Some(s@),
            None => json_view(*value).text() is None,
        },
{
    value.as_str()
}

} // verus!
