use pharia_skill::testing::{DevCsi, Function, MockCsi, Reply, StubCsi};
use pharia_skill::{
    ChatRequest, ChunkParams, ChunkRequest, CompletionRequest, Csi, DocumentPath, FinishReason,
    IndexPath, LanguageCode, Message, SearchRequest, SelectLanguageRequest, TokenUsage,
};
use serde_json::Value;

fn can_compile(csi: &impl Csi, input: Vec<&str>) -> Vec<String> {
    csi.complete_concurrently(
        input
            .into_iter()
            .map(|i| CompletionRequest::new("hello", i))
            .collect::<Vec<_>>(),
    )
    .into_iter()
    .map(|c| c.text)
    .collect()
}

fn can_compile_with_result(_csi: &impl Csi, _input: &str) -> anyhow::Result<String> {
    Err(anyhow::Error::msg("Hello, world!"))
}

fn can_compile_with_list(_csi: &impl Csi, _input: &str) -> anyhow::Result<Vec<String>> {
    Err(anyhow::Error::msg("Hello, world!"))
}

#[test]
fn default_output_mock_csi() {
    let output = can_compile(&StubCsi, vec!["Hello,", " world!"]);
    assert_eq!(output.join(""), "Hello, world!");
}

#[test]
fn results_mock_csi() {
    let output = can_compile_with_result(&StubCsi, "Hello, world!");
    assert!(output.is_err());
}

#[test]
fn serializable_io_mock_csi() {
    let output = can_compile_with_list(&StubCsi, "Hello, world!");
    assert!(output.is_err());
}

#[test]
fn stub_answers_each_request_at_its_place() {
    let prompts = ["c", "a", "d", "b", "a"];
    let completions = StubCsi.complete_concurrently(
        prompts
            .iter()
            .map(|prompt| CompletionRequest::new("model", prompt))
            .collect(),
    );
    assert_eq!(completions.len(), prompts.len());
    for (completion, prompt) in completions.iter().zip(prompts) {
        assert_eq!(completion.text, prompt);
        assert_eq!(completion.finish_reason, FinishReason::Stop);
        assert!(completion.logprobs.is_empty());
        assert_eq!(
            completion.usage,
            TokenUsage {
                prompt: 0,
                completion: 0
            }
        );
    }

    let texts = ["3", "1", "2"];
    let chunks = StubCsi.chunk_concurrently(
        texts
            .iter()
            .map(|text| ChunkRequest::new(text, ChunkParams::new("model", 1)))
            .collect(),
    );
    assert_eq!(chunks, vec![vec!["3"], vec!["1"], vec!["2"]]);

    let paths = vec![
        DocumentPath::new("n", "c", "z"),
        DocumentPath::new("n", "c", "y"),
    ];
    let documents = StubCsi.documents(paths.clone()).unwrap();
    assert_eq!(documents.len(), 2);
    assert_eq!(documents[0].path, paths[0]);
    assert_eq!(documents[1].path, paths[1]);
    assert!(documents[0].contents.is_empty());
    assert_eq!(documents[0].metadata, None);
    assert_eq!(StubCsi.documents_metadata(paths).unwrap(), vec![None, None]);
}

#[test]
fn stub_answers_an_empty_batch_with_an_empty_batch() {
    assert!(StubCsi.complete_concurrently(Vec::new()).is_empty());
    assert!(StubCsi.chat_concurrently(Vec::new()).is_empty());
    assert!(StubCsi.chunk_concurrently(Vec::new()).is_empty());
    assert!(StubCsi.search_concurrently(Vec::new()).is_empty());
    assert!(StubCsi.select_language_concurrently(Vec::new()).is_empty());
    assert!(StubCsi.documents(Vec::new()).unwrap().is_empty());
    assert!(StubCsi.documents_metadata(Vec::new()).unwrap().is_empty());
}

#[test]
fn a_single_request_is_a_batch_of_one() {
    let request = || CompletionRequest::new("model", "prompt");
    assert_eq!(
        StubCsi.complete_concurrently(vec![request()])[0],
        StubCsi.complete(request())
    );

    let request = || ChunkRequest::new("123456", ChunkParams::new("model", 1));
    assert_eq!(
        StubCsi.chunk_concurrently(vec![request()])[0],
        StubCsi.chunk(request())
    );
    assert_eq!(StubCsi.chunk(request()), vec!["123456"]);

    let request = || SearchRequest::new("decoder", IndexPath::new("Kernel", "test", "asym-64"));
    assert_eq!(
        StubCsi.search_concurrently(vec![request()])[0],
        StubCsi.search(request())
    );
    assert!(StubCsi.search(request()).is_empty());
    assert_eq!(
        StubCsi.search_concurrently(vec![request(), request()]).len(),
        2
    );

    let request = || SelectLanguageRequest::new("text", vec![LanguageCode::Eng]);
    assert_eq!(
        StubCsi.select_language_concurrently(vec![request()])[0],
        StubCsi.select_language(request())
    );
    assert_eq!(StubCsi.select_language(request()), None);

    let request = || ChatRequest::new("model", Message::user("Hello"));
    let batch = StubCsi.chat_concurrently(vec![request()]).remove(0);
    let single = StubCsi.chat(request());
    assert_eq!(batch.message.role, single.message.role);
    assert_eq!(batch.message.content, single.message.content);
    assert_eq!(batch.finish_reason, single.finish_reason);
    assert_eq!(batch.logprobs, single.logprobs);
    assert_eq!(batch.usage, single.usage);
    assert_eq!(single.message.role, "user");
    assert_eq!(single.message.content, "");

    let path = || DocumentPath::new("Kernel", "test", "kernel-docs");
    let batch = StubCsi.documents(vec![path()]).unwrap().remove(0);
    let single = StubCsi.document(path()).unwrap();
    assert_eq!(batch.path, single.path);
    assert_eq!(batch.contents.len(), single.contents.len());
    assert_eq!(batch.metadata, single.metadata);
    assert_eq!(single.path, path());
    assert_eq!(
        StubCsi.documents_metadata(vec![path()]).unwrap()[0],
        StubCsi.document_metadata(path()).unwrap()
    );
    assert_eq!(StubCsi.document_metadata(path()), Ok(None));
}

#[test]
fn mock_answers_with_its_response() {
    let name = "Homer";
    let expected = format!("Hello, {name}");
    let csi = MockCsi::new(&expected);

    let system = Message::system("You are a helpful assistant.");
    let user = Message::user(&format!("Say hello to {name}"));
    let request = ChatRequest::new("llama-3.1-8b-instruct", system).and_message(user);
    let result = csi.chat(request);
    assert_eq!(result.message.content, expected);
    assert_eq!(result.message.role, "user");
    assert_eq!(result.finish_reason, FinishReason::Stop);

    let completions = csi.complete_concurrently(vec![
        CompletionRequest::new("m", "one"),
        CompletionRequest::new("m", "two"),
    ]);
    assert_eq!(completions.len(), 2);
    assert_eq!(completions[0].text, expected);
    assert_eq!(completions[1].text, expected);
    assert_eq!(csi.complete(CompletionRequest::new("m", "x")).text, expected);

    assert_eq!(
        csi.chunk(ChunkRequest::new("text", ChunkParams::new("m", 1))),
        vec!["text"]
    );
    assert_eq!(
        csi.select_language(SelectLanguageRequest::new("text", vec![LanguageCode::Deu])),
        None
    );
    assert!(csi
        .search(SearchRequest::new("q", IndexPath::new("a", "b", "c")))
        .is_empty());
    let path = DocumentPath::new("a", "b", "c");
    assert_eq!(csi.document(path.clone()).unwrap().path, path);
    assert_eq!(csi.document_metadata(path), Ok(None));
}

#[test]
fn dev_csi_says_what_to_send() {
    let csi = DevCsi::new("http://127.0.0.1:8081", "SECRET-REDACTED");
    let requests = Value::from(vec![Value::from("first"), Value::from("second")]);
    let request = csi.csi_request(Function::Complete, requests.clone());
    assert_eq!(request.url, "http://127.0.0.1:8081/csi");
    assert_eq!(request.authorization, "Bearer SECRET-REDACTED");
    let mut expected = serde_json::Map::new();
    expected.insert("version".to_owned(), Value::from("0.3"));
    expected.insert("function".to_owned(), Value::from("complete"));
    expected.insert("requests".to_owned(), requests);
    assert_eq!(request.body, Value::Object(expected));
    assert_eq!(
        serde_json::to_string(&request.body).unwrap(),
        "{\"function\":\"complete\",\"requests\":[\"first\",\"second\"],\"version\":\"0.3\"}"
    );

    let hosted = DevCsi::aleph_alpha("SECRET-REDACTED");
    let request = hosted.csi_request(Function::DocumentMetadata, Value::Null);
    assert_eq!(request.url, "https://pharia-kernel.product.pharia.com/csi");
    assert_eq!(
        request.body.get("function"),
        Some(&Value::from("document_metadata"))
    );
    assert_eq!(request.body.get("requests"), Some(&Value::Null));
    assert_eq!(DevCsi::version(), "0.3");
    assert_eq!(DevCsi::timeout_seconds(), 300);
}

#[test]
fn dev_csi_names_every_function() {
    let names = [
        (Function::Complete, "complete"),
        (Function::Chunk, "chunk"),
        (Function::SelectLanguage, "select_language"),
        (Function::Search, "search"),
        (Function::Chat, "chat"),
        (Function::Documents, "documents"),
        (Function::DocumentMetadata, "document_metadata"),
    ];
    for (function, name) in names {
        assert_eq!(function.as_str(), name);
    }
}

#[test]
fn dev_csi_says_what_a_response_means() {
    let answer = DevCsi::csi_response(200, b"[[\"123\",\"456\"]]").unwrap();
    assert!(matches!(
        answer,
        Reply::Answer(value) if value == Value::from(vec![Value::from(vec!["123", "456"])])
    ));
    assert!(matches!(
        DevCsi::csi_response(299, b"null").unwrap(),
        Reply::Answer(Value::Null)
    ));
    assert_eq!(
        DevCsi::csi_response(200, b"[").unwrap_err(),
        "EOF while parsing a list at line 1 column 1"
    );
    assert!(matches!(
        DevCsi::csi_response(401, b"\"no token\"").unwrap(),
        Reply::Failure { status: 401, body: Some(body) } if body == Value::from("no token")
    ));
    assert!(matches!(
        DevCsi::csi_response(500, b"<html>").unwrap(),
        Reply::Failure {
            status: 500,
            body: None
        }
    ));
    assert!(matches!(
        DevCsi::csi_response(199, b"1").unwrap(),
        Reply::Failure { status: 199, .. }
    ));
    assert!(matches!(
        DevCsi::csi_response(300, b"1").unwrap(),
        Reply::Failure { status: 300, .. }
    ));
}
