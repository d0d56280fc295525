use pharia_skill::bindings::json;
use pharia_skill::bindings::skill_handler::{Error, SkillMetadata};
use pharia_skill::bindings::{run, HandlerResult};
use serde_json::Value;

#[test]
fn serialize_result() {
    let result = HandlerResult::from(Value::from("Hello, world!"));
    let output = Result::<Vec<u8>, Error>::from(result).unwrap();
    assert_eq!(output, b"\"Hello, world!\"".to_vec());
}

#[test]
fn dont_serialize_error() {
    let result = HandlerResult::<Value>(Err(Error::Internal("Hello, world!".to_owned())));
    let error = Result::<Vec<u8>, Error>::from(result).unwrap_err();
    assert_eq!(
        error.to_string(),
        "Error::Internal(\"Hello, world!\")".to_owned()
    );
}

#[test]
fn errors_are_shown_with_their_kind() {
    assert_eq!(
        Error::InvalidInput("expected value at line 1 column 1".to_owned()).to_string(),
        "Error::InvalidInput(\"expected value at line 1 column 1\")"
    );
    assert_eq!(
        Error::Internal("a \"quoted\" word\nand a line".to_owned()).to_string(),
        "Error::Internal(\"a \\\"quoted\\\" word\\nand a line\")"
    );
    assert_eq!(Error::Internal(String::new()).to_string(), "Error::Internal(\"\")");
}

#[test]
fn a_failure_of_the_skill_is_internal() {
    let failed: Result<Value, String> = Err("Hello, world!".to_owned());
    let HandlerResult(result) = HandlerResult::<Value>::from(failed);
    assert_eq!(result, Err(Error::Internal("Hello, world!".to_owned())));

    let done: Result<Value, String> = Ok(Value::from(3));
    let HandlerResult(result) = HandlerResult::<Value>::from(done);
    assert_eq!(result, Ok(Value::from(3)));

    let HandlerResult(result) = HandlerResult::<Vec<u8>>::from(vec![1u8, 2]);
    assert_eq!(result, Ok(vec![1u8, 2]));
}

#[test]
fn json_is_read_and_written() {
    assert_eq!(json::from_slice(b"\"Homer\""), Ok(Value::from("Homer")));
    assert_eq!(
        json::from_slice(b" [1, 2.5, null, true] "),
        Ok(Value::from(vec![
            Value::from(1),
            Value::from(2.5),
            Value::Null,
            Value::from(true)
        ]))
    );
    assert_eq!(
        json::from_slice(b"Homer"),
        Err(Error::InvalidInput(
            "expected value at line 1 column 1".to_owned()
        ))
    );
    assert_eq!(
        json::from_slice(b""),
        Err(Error::InvalidInput(
            "EOF while parsing a value at line 1 column 0".to_owned()
        ))
    );
    assert_eq!(
        json::from_slice(b"1 2"),
        Err(Error::InvalidInput(
            "trailing characters at line 1 column 3".to_owned()
        ))
    );
    assert_eq!(json::to_vec(&Value::Null), Ok(b"null".to_vec()));
    let mut object = serde_json::Map::new();
    object.insert("message".to_owned(), Value::from("Hello, Homer"));
    assert_eq!(
        json::to_vec(&Value::Object(object)),
        Ok(b"{\"message\":\"Hello, Homer\"}".to_vec())
    );
}

#[test]
fn what_is_written_reads_back() {
    let mut object = serde_json::Map::new();
    object.insert("text".to_owned(), Value::from("a \"b\" \u{e9}\n"));
    object.insert(
        "list".to_owned(),
        Value::from(vec![Value::from(-1), Value::from(0.25), Value::Null]),
    );
    let value = Value::Object(object);
    let written = json::to_vec(&value).unwrap();
    assert_eq!(json::from_slice(&written), Ok(value));
}

#[test]
fn run_gives_the_encoded_output() {
    let output = run(b"\"Homer\"", |input: Value| {
        let name = input.as_str().unwrap().to_owned();
        HandlerResult::from(Value::from(format!("Hello, {name}")))
    });
    assert_eq!(output, Ok(b"\"Hello, Homer\"".to_vec()));
}

#[test]
fn run_reports_a_failure_of_the_skill_as_internal() {
    let output = run(b"\"Hello, world!\"", |_input: Value| {
        let failed: Result<Value, String> = Err("Hello, world!".to_owned());
        HandlerResult::from(failed)
    });
    assert_eq!(output, Err(Error::Internal("Hello, world!".to_owned())));
}

#[test]
fn run_reports_malformed_input_as_invalid() {
    let mut called = false;
    let output = run(b"{\"name\": ", |input: Value| {
        called = true;
        HandlerResult::from(input)
    });
    assert_eq!(
        output,
        Err(Error::InvalidInput(
            "EOF while parsing a value at line 1 column 9".to_owned()
        ))
    );
    assert!(!called);
}

#[test]
fn run_hands_on_the_error_of_the_skill() {
    let output = run(b"1", |_input: Value| {
        HandlerResult(Err(Error::InvalidInput("not a name".to_owned())))
    });
    assert_eq!(output, Err(Error::InvalidInput("not a name".to_owned())));
}

#[test]
fn metadata_has_a_description_only_if_documented() {
    let metadata = SkillMetadata::new("", b"{}".to_vec(), b"true".to_vec());
    assert_eq!(metadata.description, None);
    assert_eq!(metadata.input_schema, b"{}".to_vec());
    assert_eq!(metadata.output_schema, b"true".to_vec());

    let again = SkillMetadata::new("", b"{}".to_vec(), b"true".to_vec());
    assert_eq!(metadata, again);

    let metadata = SkillMetadata::new("Says hello.", Vec::new(), Vec::new());
    assert_eq!(metadata.description, Some("Says hello.".to_owned()));
    let metadata = SkillMetadata::new(" ", Vec::new(), Vec::new());
    assert_eq!(metadata.description, Some(" ".to_owned()));
}
