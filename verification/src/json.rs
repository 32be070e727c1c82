//! JSON values as `serde_json` holds them, and the mathematical model that
//! the contracts of this crate use to speak about them.

use vstd::prelude::*;

verus! {

/// What a JSON number is: an integer from zero up, an integer below zero, or
/// a number with a fraction or an exponent, which is identified by its
/// canonical text.
pub enum NumberModel {
    PosInt(u64),
    NegInt(i64),
    Float(Seq<char>),
}

/// What a JSON value is, independent of how it is stored.
pub enum JsonModel {
    Null,
    Bool(bool),
    Number(NumberModel),
    Str(Seq<char>),
    Array(Seq<JsonModel>),
    Object(Map<Seq<char>, JsonModel>),
}

/// `serde_json::Value`, a JSON value in memory. Nothing of its inside is
/// known here; the functions below say what it holds.
#[verifier::external_type_specification]
#[verifier::external_body]
pub struct ExJsonValue(serde_json::Value);

/// The JSON value that a `serde_json::Value` holds.
pub uninterp spec fn json_model(value: serde_json::Value) -> JsonModel;

/// The value that `serde_json` reads from a text, or `None` where it rejects
/// the text.
pub uninterp spec fn json_parse(text: Seq<char>) -> Option<JsonModel>;

/// The diagnostic with which `serde_json` rejects a text: what is wrong, and
/// at which line and column.
pub uninterp spec fn json_error_text(text: Seq<char>) -> Seq<char>;

/// The compact text that `serde_json` writes for a value: no spaces, the
/// members of an object in the order of their names.
pub uninterp spec fn json_text(model: JsonModel) -> Seq<char>;

/// `serde_json::from_str` at type `Value`, its error written out with
/// `serde_json::Error::to_string`: the outcome depends on the text alone, a
/// value that comes back is the one the text denotes, and a rejection comes
/// with the parser's diagnostic for the text.
#[verifier::external_body]
pub(crate) fn parse_value(text: &str) -> (r: Result<serde_json::Value, String>)
    ensures
        match r {
            Ok(value) => json_parse(text@) == Some(json_model(value)),
            Err(diagnostic) => json_parse(text@) is None && diagnostic@ == json_error_text(text@),
        },
{
    match serde_json::from_str::<serde_json::Value>(text) {
        Ok(value) => Ok(value),
        Err(error) => Err(error.to_string()),
    }
}

/// What reading a text as JSON yields: the value, or the parser's diagnostic.
pub open spec fn json_read(text: Seq<char>) -> Result<JsonModel, Seq<char>> {
    match json_parse(text) {
        Some(j) => Ok(j),
        None => Err(json_error_text(text)),
    }
}

/// `Value::to_string`: the compact serialization of the value.
#[verifier::external_body]
pub(crate) fn value_text(value: &serde_json::Value) -> (r: String)
    ensures
        r@ == json_text(json_model(*value)),
{
    value.to_string()
}

/// `Value::is_null`: true for the null value and for no other.
#[verifier::external_body]
pub(crate) fn value_is_null(value: &serde_json::Value) -> (r: bool)
    ensures
        r == (json_model(*value) is Null),
{
    value.is_null()
}

/// `Value::as_str`: the text of a string value, nothing for any other value.
#[verifier::external_body]
pub(crate) fn value_as_str(value: &serde_json::Value) -> (r: Option<&str>)
    ensures
        match r {
            Some(s) => json_model(*value) == JsonModel::Str(s@),
            None => !(json_model(*value) is Str),
        },
{
    value.as_str()
}

/// `Value::as_bool`: the truth value of a boolean, nothing for any other value.
#[verifier::external_body]
pub(crate) fn value_as_bool(value: &serde_json::Value) -> (r: Option<bool>)
    ensures
        match r {
            Some(b) => json_model(*value) == JsonModel::Bool(b),
            None => !(json_model(*value) is Bool),
        },
{
    value.as_bool()
}

/// `Value::as_u64`: the number where the value is an integer from zero up,
/// nothing for any other value.
#[verifier::external_body]
pub(crate) fn value_as_u64(value: &serde_json::Value) -> (r: Option<u64>)
    ensures
        r == (match json_model(*value) {
            JsonModel::Number(NumberModel::PosInt(n)) => Some(n),
            _ => None,
        }),
{
    value.as_u64()
}

/// `Value::is_number`: true for a number of any kind and for nothing else.
#[verifier::external_body]
pub(crate) fn value_is_number(value: &serde_json::Value) -> (r: bool)
    ensures
        r == (json_model(*value) is Number),
{
    value.is_number()
}

/// `Value::get` with a string key: the member of an object under that key,
/// nothing where the value is no object or has no such member.
#[verifier::external_body]
pub(crate) fn value_member<'a>(value: &'a serde_json::Value, key: &str) -> (r: Option<&'a serde_json::Value>)
    ensures
        match r {
            Some(member) => json_model(*value) is Object
                && json_model(*value)->Object_0.contains_key(key@)
                && json_model(*value)->Object_0[key@] == json_model(*member),
            None => !(json_model(*value) is Object
                && json_model(*value)->Object_0.contains_key(key@)),
        },
{
    value.get(key)
}

/// `Value::as_array`: the elements of an array in order, nothing for any
/// other value.
#[verifier::external_body]
pub(crate) fn value_as_array(value: &serde_json::Value) -> (r: Option<&Vec<serde_json::Value>>)
    ensures
        match r {
            Some(items) => json_model(*value) == JsonModel::Array(json_models(items@)),
            None => !(json_model(*value) is Array),
        },
{
    value.as_array()
}

/// `Value::clone`: a copy that holds the same JSON value.
#[verifier::external_body]
pub(crate) fn value_clone(value: &serde_json::Value) -> (r: serde_json::Value)
    ensures
        json_model(r) == json_model(*value),
{
    value.clone()
}

/// `Value::default`: the null value.
#[verifier::external_body]
pub(crate) fn value_null() -> (r: serde_json::Value)
    ensures
        json_model(r) is Null,
{
    serde_json::Value::default()
}

/// The models of a list of values, in order.
pub open spec fn json_models(values: Seq<serde_json::Value>) -> Seq<JsonModel> {
    Seq::new(values.len(), |i: int| json_model(values[i]))
}

/// The member of an object under a key, where the value is an object and has
/// one.
pub open spec fn member(j: JsonModel, key: Seq<char>) -> Option<JsonModel> {
    if j is Object && j->Object_0.contains_key(key) {
        Some(j->Object_0[key])
    } else {
        None
    }
}

/// The member under a key where it is there and not null.
pub open spec fn present_member(j: JsonModel, key: Seq<char>) -> Option<JsonModel> {
    match member(j, key) {
        Some(m) => if m is Null { None } else { Some(m) },
        None => None,
    }
}

/// The member under a key where it is a string.
pub open spec fn string_member(j: JsonModel, key: Seq<char>) -> Option<Seq<char>> {
    match member(j, key) {
        Some(JsonModel::Str(s)) => Some(s),
        _ => None,
    }
}

/// The member under a key where it is a boolean.
pub open spec fn bool_member(j: JsonModel, key: Seq<char>) -> Option<bool> {
    match member(j, key) {
        Some(JsonModel::Bool(b)) => Some(b),
        _ => None,
    }
}

/// The member under a key where it is an array.
pub open spec fn array_member(j: JsonModel, key: Seq<char>) -> Option<Seq<JsonModel>> {
    match member(j, key) {
        Some(JsonModel::Array(items)) => Some(items),
        _ => None,
    }
}

/// Reads an array member of an object.
pub fn get_array<'a>(value: &'a serde_json::Value, key: &str) -> (r: Option<&'a Vec<serde_json::Value>>)
    ensures
        match r {
            Some(items) => array_member(json_model(*value), key@) == Some(json_models(items@)),
            None => array_member(json_model(*value), key@) is None,
        },
{
    match value_member(value, key) {
        Some(m) => value_as_array(m),
        None => None,
    }
}

/// The member under a key where it is an integer from zero up.
pub open spec fn u64_member(j: JsonModel, key: Seq<char>) -> Option<u64> {
    match member(j, key) {
        Some(JsonModel::Number(NumberModel::PosInt(n))) => Some(n),
        _ => None,
    }
}

/// The member under a key where it is an integer from zero up that fits
/// 32 bits.
pub open spec fn u32_member(j: JsonModel, key: Seq<char>) -> Option<u32> {
    match u64_member(j, key) {
        Some(n) => if n <= u32::MAX { Some(n as u32) } else { None },
        None => None,
    }
}

/// The member under a key where it is a number of any kind.
pub open spec fn number_member(j: JsonModel, key: Seq<char>) -> Option<JsonModel> {
    match member(j, key) {
        Some(m) => if m is Number { Some(m) } else { None },
        None => None,
    }
}

/// Reads a member of an object that is an integer from zero up.
pub fn get_u64(value: &serde_json::Value, key: &str) -> (r: Option<u64>)
    ensures
        r == u64_member(json_model(*value), key@),
{
    match value_member(value, key) {
        Some(m) => value_as_u64(m),
        None => None,
    }
}

/// Reads a member of an object that is an integer from zero up and fits
/// 32 bits.
pub fn get_u32(value: &serde_json::Value, key: &str) -> (r: Option<u32>)
    ensures
        r == u32_member(json_model(*value), key@),
{
    match get_u64(value, key) {
        Some(n) => if n <= 0xFFFF_FFFFu64 { Some(n as u32) } else { None },
        None => None,
    }
}

/// Reads a member of an object that is a number of any kind.
pub fn get_number(value: &serde_json::Value, key: &str) -> (r: Option<serde_json::Value>)
    ensures
        match r {
            Some(m) => number_member(json_model(*value), key@) == Some(json_model(m)),
            None => number_member(json_model(*value), key@) is None,
        },
{
    match value_member(value, key) {
        Some(m) => if value_is_number(m) { Some(value_clone(m)) } else { None },
        None => None,
    }
}

/// Reads a member of an object, whatever it is.
pub fn get_any(value: &serde_json::Value, key: &str) -> (r: Option<serde_json::Value>)
    ensures
        match r {
            Some(m) => member(json_model(*value), key@) == Some(json_model(m)),
            None => member(json_model(*value), key@) is None,
        },
{
    match value_member(value, key) {
        Some(m) => Some(value_clone(m)),
        None => None,
    }
}

/// Reads a string member of an object.
pub fn get_string(value: &serde_json::Value, key: &str) -> (r: Option<String>)
    ensures
        match r {
            Some(s) => string_member(json_model(*value), key@) == Some(s@),
            None => string_member(json_model(*value), key@) is None,
        },
{
    match value_member(value, key) {
        Some(m) => match value_as_str(m) {
            Some(s) => Some(s.to_owned()),
            None => None,
        },
        None => None,
    }
}

/// Reads a boolean member of an object.
pub fn get_bool(value: &serde_json::Value, key: &str) -> (r: Option<bool>)
    ensures
        r == bool_member(json_model(*value), key@),
{
    match value_member(value, key) {
        Some(m) => value_as_bool(m),
        None => None,
    }
}

/// Reads a member of an object that is there and not null.
pub fn get_present<'a>(value: &'a serde_json::Value, key: &str) -> (r: Option<&'a serde_json::Value>)
    ensures
        match r {
            Some(m) => present_member(json_model(*value), key@) == Some(json_model(*m)),
            None => present_member(json_model(*value), key@) is None,
        },
{
    match value_member(value, key) {
        Some(m) => if value_is_null(m) { None } else { Some(m) },
        None => None,
    }
}

} // verus!
