//! The host boundary: the shapes that cross it, the conversions to and from
//! the values of the service interface, and the entry point of a skill.
pub mod batch;
pub mod chunking;
pub mod document_index;
pub mod inference;
pub mod json;
pub mod language;
pub mod skill_handler;

use crate::bindings::json::{decoded, encoded, json_parsed, json_written};
use crate::bindings::skill_handler::{Error, ErrorView};
use serde_json::Value;
use vstd::prelude::*;
use vstd::std_specs::convert::{FromSpec, FromSpecImpl};

verus! {

/// What a skill hands back to its entry point: its output, or the error to
/// report in its place.
pub struct HandlerResult<T>(pub Result<T, Error>);

impl<T> FromSpecImpl<T> for HandlerResult<T> {
    open spec fn obeys_from_spec() -> bool {
        true
    }

    open spec fn from_spec(value: T) -> HandlerResult<T> {
        HandlerResult(Ok(value))
    }
}

impl<T> From<T> for HandlerResult<T> {
    /// The result of a skill that cannot fail: its output.
    fn from(value: T) -> (result: HandlerResult<T>)
        ensures
            result == HandlerResult(Ok::<T, Error>(value)),
    {
        HandlerResult(Ok(value))
    }
}

impl<T> FromSpecImpl<Result<T, String>> for HandlerResult<T> {
    open spec fn obeys_from_spec() -> bool {
        true
    }

    open spec fn from_spec(result: Result<T, String>) -> HandlerResult<T> {
        match result {
            Ok(value) => HandlerResult(Ok(value)),
            Err(error) => HandlerResult(Err(Error::Internal(error))),
        }
    }
}

impl<T> From<Result<T, String>> for HandlerResult<T> {
    /// The result of a skill that can fail: its output, or an
    /// [`Error::Internal`] with the description of its failure.
    fn from(result: Result<T, String>) -> (handled: HandlerResult<T>)
        ensures
            match result {
                Ok(value) => handled == HandlerResult(Ok::<T, Error>(value)),
                Err(error) => handled == HandlerResult(Err::<T, Error>(Error::Internal(error))),
            },
    {
        match result {
            Ok(value) => HandlerResult(Ok(value)),
            Err(error) => HandlerResult(Err(Error::Internal(error))),
        }
    }
}

/// What the host gets for what a skill handed back: the error where there
/// is one, else the bytes that `serde_json` writes for the output, or an
/// [`Error::Internal`] where it cannot write them.
pub open spec fn reported(result: HandlerResult<Value>) -> Result<Seq<u8>, ErrorView> {
    match result.0 {
        Ok(value) => encoded(json_written(value)),
        Err(error) => Err(error@),
    }
}

/// Whether `output` is `expected`, bytes and error taken by their views.
pub open spec fn is_output(output: Result<Vec<u8>, Error>, expected: Result<Seq<u8>, ErrorView>) -> bool {
    match output {
        Ok(bytes) => expected == Ok::<Seq<u8>, ErrorView>(bytes@),
        Err(error) => expected == Err::<Seq<u8>, ErrorView>(error@),
    }
}

impl FromSpecImpl<HandlerResult<Value>> for Result<Vec<u8>, Error> {
    open spec fn obeys_from_spec() -> bool {
        false
    }

    open spec fn from_spec(value: HandlerResult<Value>) -> Result<Vec<u8>, Error> {
        arbitrary()
    }
}

impl From<HandlerResult<Value>> for Result<Vec<u8>, Error> {
    /// What the host gets for what a skill handed back.
    fn from(value: HandlerResult<Value>) -> (output: Result<Vec<u8>, Error>)
        ensures
            is_output(output, reported(value)),
    {
        match value.0 {
            Ok(output) => json::to_vec(&output),
            Err(error) => Err(error),
        }
    }
}

/// How a run ends, by what happened in it.
///
/// Input that is no JSON value is decoded as [`Error::InvalidInput`] with
/// the reason. A skill that fails with a description has
/// [`Error::Internal`] with that description reported. A skill that gives a
/// value has the bytes of the value reported, without an error, or
/// [`Error::Internal`] with the reason if the value cannot be written.
pub proof fn lemma_error_mapping(input: Seq<u8>, handed: Result<Value, String>)
    ensures
        json_parsed(input) matches Err(reason) ==> decoded(json_parsed(input)) == Err::<
            Value,
            ErrorView,
        >(ErrorView::InvalidInput(reason)),
        handed matches Err(description) ==> reported(
            <HandlerResult<Value> as FromSpec<Result<Value, String>>>::from_spec(handed),
        ) == Err::<Seq<u8>, ErrorView>(ErrorView::Internal(description@)),
        handed matches Ok(value) ==> reported(
            <HandlerResult<Value> as FromSpec<Result<Value, String>>>::from_spec(handed),
        ) == match json_written(value) {
            Ok(bytes) => Ok::<Seq<u8>, ErrorView>(bytes),
            Err(reason) => Err::<Seq<u8>, ErrorView>(ErrorView::Internal(reason)),
        },
{
}

/// Runs a skill on the input of its host.
///
/// The input is read as one JSON value; `skill` is called on it; what it
/// hands back is written as JSON. So:
/// - input that is no JSON value gives [`Error::InvalidInput`] with the
///   reason, and `skill` is not called;
/// - an error that `skill` hands back is given as it is;
/// - an output that cannot be written gives [`Error::Internal`] with the
///   reason;
/// - otherwise the bytes of the output are given.
pub fn run<F: FnOnce(Value) -> HandlerResult<Value>>(input: &[u8], skill: F) -> (output: Result<
    Vec<u8>,
    Error,
>)
    requires
        forall|value: Value| call_requires(skill, (value,)),
    ensures
        match decoded(json_parsed(input@)) {
            Ok(value) => exists|result: HandlerResult<Value>|
                call_ensures(skill, (value,), result) && is_output(output, #[trigger] reported(result)),
            Err(error) => output matches Err(given) && given@ == error,
        },
{
    let value = match json::from_slice(input) {
        Ok(value) => value,
        Err(error) => {
            return Err(error);
        },
    };
    let result = skill(value);
    let output = Result::<Vec<u8>, Error>::from(result);
    assert(is_output(output, reported(result)));
    output
}

} // verus!
