//! JSON values and their encoding.
use crate::bindings::skill_handler::{Error, ErrorView};
use serde_json::Value;
use vstd::prelude::*;

verus! {

/// `serde_json::Value`: any JSON value. Opaque here: the crate hands such
/// values on and has `serde_json` read and write them.
#[verifier::external_type_specification]
#[verifier::external_body]
pub struct ExValue(serde_json::Value);

/// What `serde_json` reads from `input` as one JSON value: the value, or the
/// text of its error.
pub uninterp spec fn json_parsed(input: Seq<u8>) -> Result<serde_json::Value, Seq<char>>;

/// What `serde_json` writes for `value`: the bytes of its compact JSON text,
/// or the text of its error.
pub uninterp spec fn json_written(value: serde_json::Value) -> Result<Seq<u8>, Seq<char>>;

/// Calls `serde_json::from_slice` for a `serde_json::Value`, and `to_string`
/// on the error it may give.
///
/// The contract claims that the outcome depends on the bytes alone and gives
/// it the name [`json_parsed`].
#[verifier::external_body]
pub(crate) fn parse_value(input: &[u8]) -> (parsed: Result<serde_json::Value, String>)
    ensures
        match parsed {
            Ok(value) => json_parsed(input@) == Ok::<serde_json::Value, Seq<char>>(value),
            Err(reason) => json_parsed(input@) == Err::<serde_json::Value, Seq<char>>(reason@),
        },
{
    serde_json::from_slice::<serde_json::Value>(input).map_err(|error| error.to_string())
}

/// Calls `serde_json::to_vec` on a `serde_json::Value`, and `to_string` on
/// the error it may give.
///
/// The contract claims that the outcome depends on the value alone and gives
/// it the name [`json_written`].
#[verifier::external_body]
pub(crate) fn write_value(value: &serde_json::Value) -> (written: Result<Vec<u8>, String>)
    ensures
        match written {
            Ok(bytes) => json_written(*value) == Ok::<Seq<u8>, Seq<char>>(bytes@),
            Err(reason) => json_written(*value) == Err::<Seq<u8>, Seq<char>>(reason@),
        },
{
    serde_json::to_vec(value).map_err(|error| error.to_string())
}

/// `serde_json::Map`: the members of a JSON object, each a value under a
/// key. A key occurs once.
#[verifier::external_type_specification]
#[verifier::external_body]
#[verifier::reject_recursive_types(K)]
#[verifier::reject_recursive_types(V)]
pub struct ExMap<K, V>(serde_json::Map<K, V>);

/// The members that `members` holds: the value under each key.
pub uninterp spec fn object_entries(members: serde_json::Map<String, Value>) -> Map<
    Seq<char>,
    Value,
>;

/// The JSON object with the members `entries`, as a value.
pub uninterp spec fn object_value(entries: Map<Seq<char>, Value>) -> Value;

/// The JSON string `text`, as a value.
pub uninterp spec fn string_value(text: Seq<char>) -> Value;

/// Calls `serde_json::Map::new`: a map without members.
#[verifier::external_body]
pub(crate) fn new_object() -> (members: serde_json::Map<String, Value>)
    ensures
        object_entries(members) == (Map::<Seq<char>, Value>::empty()),
{
    serde_json::Map::new()
}

/// Calls `serde_json::Map::insert`: afterwards `value` stands under `key`,
/// in place of what stood there before if anything did, and the other
/// members are as they were.
#[verifier::external_body]
pub(crate) fn insert_member(members: &mut serde_json::Map<String, Value>, key: &str, value: Value)
    ensures
        object_entries(*final(members)) == object_entries(*old(members)).insert(key@, value),
{
    members.insert(key.to_owned(), value);
}

/// Makes the value `serde_json::Value::Object` of a map.
///
/// The contract claims that the value depends on the members alone and gives
/// it the name [`object_value`].
#[verifier::external_body]
pub(crate) fn object(members: serde_json::Map<String, Value>) -> (value: Value)
    ensures
        value == object_value(object_entries(members)),
{
    Value::Object(members)
}

/// Makes the value `serde_json::Value::String` of a text.
///
/// The contract claims that the value depends on the characters alone and
/// gives it the name [`string_value`].
#[verifier::external_body]
pub(crate) fn string(text: &str) -> (value: Value)
    ensures
        value == string_value(text@),
{
    Value::String(text.to_owned())
}

/// What [`from_slice`] gives for what `serde_json` read: the value, or the
/// error that says why the input is not one.
pub open spec fn decoded(parsed: Result<Value, Seq<char>>) -> Result<Value, ErrorView> {
    match parsed {
        Ok(value) => Ok(value),
        Err(reason) => Err(ErrorView::InvalidInput(reason)),
    }
}

/// What [`to_vec`] gives for what `serde_json` wrote: the bytes, or the
/// error that says why the output has none.
pub open spec fn encoded(written: Result<Seq<u8>, Seq<char>>) -> Result<Seq<u8>, ErrorView> {
    match written {
        Ok(bytes) => Ok(bytes),
        Err(reason) => Err(ErrorView::Internal(reason)),
    }
}

/// Turns the input of a run into the JSON value that the skill takes.
///
/// Fails exactly when the bytes are not one JSON value, and then the error
/// is [`Error::InvalidInput`] with the reason.
pub fn from_slice(input: &[u8]) -> (value: Result<Value, Error>)
    ensures
        match value {
            Ok(read) => decoded(json_parsed(input@)) == Ok::<Value, ErrorView>(read),
            Err(error) => decoded(json_parsed(input@)) == Err::<Value, ErrorView>(error@),
        },
{
    match parse_value(input) {
        Ok(value) => Ok(value),
        Err(reason) => Err(Error::InvalidInput(reason)),
    }
}

/// Turns the JSON value that a skill gave into the output of the run.
///
/// Fails exactly when `serde_json` cannot write the value, and then the
/// error is [`Error::Internal`] with the reason.
pub fn to_vec(output: &Value) -> (bytes: Result<Vec<u8>, Error>)
    ensures
        match bytes {
            Ok(written) => encoded(json_written(*output)) == Ok::<Seq<u8>, ErrorView>(written@),
            Err(error) => encoded(json_written(*output)) == Err::<Seq<u8>, ErrorView>(error@),
        },
{
    match write_value(output) {
        Ok(bytes) => Ok(bytes),
        Err(reason) => Err(Error::Internal(reason)),
    }
}

} // verus!
