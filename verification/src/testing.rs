//! Stand-ins for the host, to try a skill without one.
use crate::bindings::json::{
    insert_member, json_parsed, new_object, object, object_value, parse_value, string, string_value,
};
use crate::csi::chunking::ChunkRequest;
use crate::csi::document_index::{
    Document, DocumentPath, DocumentPathView, DocumentView, SearchRequest, SearchResult,
};
use crate::csi::inference::{
    ChatRequest, ChatResponse, ChatResponseView, Completion, CompletionRequest, CompletionView,
    FinishReason, Message, MessageView, TokenUsage,
};
use crate::csi::language::{LanguageCode, SelectLanguageRequest};
use crate::csi::Csi;
use crate::text::texts;
use serde_json::Value;
use vstd::prelude::*;

verus! {

/// The completion that a stand-in gives: `text`, stopped of its own accord,
/// with no log-probabilities and no tokens counted.
pub open spec fn plain_completion(text: Seq<char>) -> CompletionView {
    CompletionView {
        text,
        finish_reason: FinishReason::Stop,
        logprobs: Seq::empty(),
        usage: TokenUsage { prompt: 0, completion: 0 },
    }
}

/// The chat response that a stand-in gives: `content` said by the role
/// "user", stopped of its own accord, with no log-probabilities and no tokens
/// counted.
pub open spec fn plain_chat_response(content: Seq<char>) -> ChatResponseView {
    ChatResponseView {
        message: MessageView { role: "user"@, content },
        finish_reason: FinishReason::Stop,
        logprobs: Seq::empty(),
        usage: TokenUsage { prompt: 0, completion: 0 },
    }
}

/// The document that a stand-in finds at `path`: nothing in it, nothing
/// stored with it.
pub open spec fn blank_document<Metadata>(path: DocumentPathView) -> DocumentView<Metadata> {
    DocumentView { path, contents: Seq::empty(), metadata: None }
}

fn completion_of(text: String) -> (completion: Completion)
    ensures
        completion@ == plain_completion(text@),
{
    let completion = Completion {
        text,
        finish_reason: FinishReason::Stop,
        logprobs: Vec::new(),
        usage: TokenUsage { prompt: 0, completion: 0 },
    };
    assert(completion@.logprobs =~= Seq::empty());
    completion
}

fn chat_response_of(content: &str) -> (response: ChatResponse)
    ensures
        response@ == plain_chat_response(content@),
{
    let response = ChatResponse {
        message: Message::new("user", content),
        finish_reason: FinishReason::Stop,
        logprobs: Vec::new(),
        usage: TokenUsage { prompt: 0, completion: 0 },
    };
    assert(response@.logprobs =~= Seq::empty());
    response
}

fn whole_text_chunks(requests: Vec<ChunkRequest>) -> (all: Vec<Vec<String>>)
    ensures
        all.len() == requests.len(),
        forall|i: int| 0 <= i < all.len() ==> texts(#[trigger] all[i]@) == seq![requests[i]@.text],
{
    let mut all: Vec<Vec<String>> = Vec::new();
    for request in it: requests
        invariant
            it.seq() == requests@,
            all.len() == it.index(),
            forall|i: int|
                0 <= i < all.len() ==> texts(#[trigger] all[i]@) == seq![requests[i]@.text],
    {
        let chunks: Vec<String> = vec![request.text];
        assert(texts(chunks@) =~= seq![request@.text]);
        all.push(chunks);
    }
    all
}

fn no_results(requests: Vec<SearchRequest>) -> (all: Vec<Vec<SearchResult>>)
    ensures
        all.len() == requests.len(),
        forall|i: int| 0 <= i < all.len() ==> (#[trigger] all[i]).len() == 0,
{
    let mut all: Vec<Vec<SearchResult>> = Vec::new();
    for request in it: requests
        invariant
            all.len() == it.index(),
            forall|i: int| 0 <= i < all.len() ==> (#[trigger] all[i]).len() == 0,
    {
        all.push(Vec::new());
    }
    all
}

fn blank_documents<Metadata>(paths: Vec<DocumentPath>) -> (all: Vec<Document<Metadata>>)
    ensures
        all.len() == paths.len(),
        forall|i: int| 0 <= i < all.len() ==> (#[trigger] all[i])@ == blank_document::<Metadata>(paths[i]@),
{
    let mut all: Vec<Document<Metadata>> = Vec::new();
    for path in it: paths
        invariant
            it.seq() == paths@,
            all.len() == it.index(),
            forall|i: int|
                0 <= i < all.len() ==> (#[trigger] all[i])@ == blank_document::<Metadata>(
                    paths[i]@,
                ),
    {
        let document = Document { path, contents: Vec::new(), metadata: None };
        assert(document@.contents =~= Seq::empty());
        all.push(document);
    }
    all
}

fn no_metadata<Metadata>(paths: Vec<DocumentPath>) -> (all: Vec<Option<Metadata>>)
    ensures
        all.len() == paths.len(),
        forall|i: int| 0 <= i < all.len() ==> (#[trigger] all[i]) is None,
{
    let mut all: Vec<Option<Metadata>> = Vec::new();
    for path in it: paths
        invariant
            all.len() == it.index(),
            forall|i: int| 0 <= i < all.len() ==> (#[trigger] all[i]) is None,
    {
        all.push(None);
    }
    all
}

fn no_languages(requests: Vec<SelectLanguageRequest>) -> (all: Vec<Option<LanguageCode>>)
    ensures
        all.len() == requests.len(),
        forall|i: int| 0 <= i < all.len() ==> (#[trigger] all[i]) is None,
{
    let mut all: Vec<Option<LanguageCode>> = Vec::new();
    for request in it: requests
        invariant
            all.len() == it.index(),
            forall|i: int| 0 <= i < all.len() ==> (#[trigger] all[i]) is None,
    {
        all.push(None);
    }
    all
}

/// A stand-in that answers from the request alone: a completion is the
/// prompt, the only chunk of a text is the text, a chat is answered with an
/// empty message, no language is detected, nothing is found by a search, and a
/// document is blank.
pub struct StubCsi;

impl Csi for StubCsi {
    fn chat_concurrently(&self, requests: Vec<ChatRequest>) -> (all: Vec<ChatResponse>)
        ensures
            forall|i: int|
                0 <= i < all.len() ==> (#[trigger] all[i])@ == plain_chat_response(Seq::empty()),
    {
        let mut all: Vec<ChatResponse> = Vec::new();
        for request in it: requests
            invariant
                all.len() == it.index(),
                forall|i: int|
                    0 <= i < all.len() ==> (#[trigger] all[i])@ == plain_chat_response(
                        Seq::empty(),
                    ),
        {
            proof {
                reveal_strlit("");
            }
            assert(""@ =~= Seq::empty());
            all.push(chat_response_of(""));
        }
        all
    }

    fn complete_concurrently(&self, requests: Vec<CompletionRequest>) -> (all: Vec<Completion>)
        ensures
            forall|i: int|
                0 <= i < all.len() ==> (#[trigger] all[i])@ == plain_completion(
                    requests[i]@.prompt,
                ),
    {
        let mut all: Vec<Completion> = Vec::new();
        for request in it: requests
            invariant
                it.seq() == requests@,
                all.len() == it.index(),
                forall|i: int|
                    0 <= i < all.len() ==> (#[trigger] all[i])@ == plain_completion(
                        requests[i]@.prompt,
                    ),
        {
            all.push(completion_of(request.prompt));
        }
        all
    }

    fn chunk_concurrently(&self, requests: Vec<ChunkRequest>) -> (all: Vec<Vec<String>>)
        ensures
            forall|i: int|
                0 <= i < all.len() ==> texts(#[trigger] all[i]@) == seq![requests[i]@.text],
    {
        whole_text_chunks(requests)
    }

    fn select_language_concurrently(&self, requests: Vec<SelectLanguageRequest>) -> (all: Vec<
        Option<LanguageCode>,
    >)
        ensures
            forall|i: int| 0 <= i < all.len() ==> (#[trigger] all[i]) is None,
    {
        no_languages(requests)
    }

    fn search_concurrently(&self, requests: Vec<SearchRequest>) -> (all: Vec<Vec<SearchResult>>)
        ensures
            forall|i: int| 0 <= i < all.len() ==> (#[trigger] all[i]).len() == 0,
    {
        no_results(requests)
    }

    fn documents(&self, paths: Vec<DocumentPath>) -> (all: Result<Vec<Document<Value>>, String>)
        ensures
            all matches Ok(found) && forall|i: int|
                0 <= i < found.len() ==> (#[trigger] found[i])@ == blank_document::<Value>(
                    paths[i]@,
                ),
    {
        Ok(blank_documents(paths))
    }

    fn documents_metadata(&self, paths: Vec<DocumentPath>) -> (all: Result<
        Vec<Option<Value>>,
        String,
    >)
        ensures
            all matches Ok(found) && forall|i: int|
                0 <= i < found.len() ==> (#[trigger] found[i]) is None,
    {
        Ok(no_metadata(paths))
    }
}

/// What [`StubCsi`] gives for a single completion request is what it gives
/// for the batch of that request alone: the prompt, as a plain completion.
pub proof fn lemma_stub_completes_with_the_prompt(
    csi: &StubCsi,
    request: CompletionRequest,
    completion: Completion,
)
    requires
        exists|batch: Vec<CompletionRequest>, all: Vec<Completion>|
            {
                &&& batch@ == seq![request]
                &&& #[trigger] call_ensures(
                    <StubCsi as Csi>::complete_concurrently,
                    (csi, batch),
                    all,
                )
                &&& all@ == seq![completion]
            },
    ensures
        completion@ == plain_completion(request@.prompt),
{
    let (batch, all) = choose|batch: Vec<CompletionRequest>, all: Vec<Completion>|
        {
            &&& batch@ == seq![request]
            &&& #[trigger] call_ensures(<StubCsi as Csi>::complete_concurrently, (csi, batch), all)
            &&& all@ == seq![completion]
        };
    assert(all[0]@ == plain_completion(batch[0]@.prompt));
}

/// What [`StubCsi`] gives for a single chunk request is what it gives for
/// the batch of that request alone: the whole text as the only chunk.
pub proof fn lemma_stub_chunks_into_the_text(
    csi: &StubCsi,
    request: ChunkRequest,
    chunks: Vec<String>,
)
    requires
        exists|batch: Vec<ChunkRequest>, all: Vec<Vec<String>>|
            {
                &&& batch@ == seq![request]
                &&& #[trigger] call_ensures(
                    <StubCsi as Csi>::chunk_concurrently,
                    (csi, batch),
                    all,
                )
                &&& all@ == seq![chunks]
            },
    ensures
        texts(chunks@) == seq![request@.text],
{
    let (batch, all) = choose|batch: Vec<ChunkRequest>, all: Vec<Vec<String>>|
        {
            &&& batch@ == seq![request]
            &&& #[trigger] call_ensures(<StubCsi as Csi>::chunk_concurrently, (csi, batch), all)
            &&& all@ == seq![chunks]
        };
    assert(texts(all[0]@) == seq![batch[0]@.text]);
}

/// A stand-in that answers every completion and every chat with one text,
/// fixed when it is made. The other services answer as those of [`StubCsi`].
pub struct MockCsi {
    response: String,
}

impl MockCsi {
    /// The text that this stand-in answers with.
    pub closed spec fn response(&self) -> Seq<char> {
        self.response@
    }

    /// The stand-in that answers with `response`.
    #[must_use]
    pub fn new(response: &str) -> (csi: MockCsi)
        ensures
            csi.response() == response@,
    {
        MockCsi { response: response.to_owned() }
    }
}

impl Csi for MockCsi {
    fn chat_concurrently(&self, requests: Vec<ChatRequest>) -> (all: Vec<ChatResponse>)
        ensures
            forall|i: int|
                0 <= i < all.len() ==> (#[trigger] all[i])@ == plain_chat_response(
                    self.response(),
                ),
    {
        let mut all: Vec<ChatResponse> = Vec::new();
        for request in it: requests
            invariant
                all.len() == it.index(),
                forall|i: int|
                    0 <= i < all.len() ==> (#[trigger] all[i])@ == plain_chat_response(
                        self.response(),
                    ),
        {
            all.push(chat_response_of(self.response.as_str()));
        }
        all
    }

    fn complete_concurrently(&self, requests: Vec<CompletionRequest>) -> (all: Vec<Completion>)
        ensures
            forall|i: int|
                0 <= i < all.len() ==> (#[trigger] all[i])@ == plain_completion(self.response()),
    {
        let mut all: Vec<Completion> = Vec::new();
        for request in it: requests
            invariant
                all.len() == it.index(),
                forall|i: int|
                    0 <= i < all.len() ==> (#[trigger] all[i])@ == plain_completion(
                        self.response(),
                    ),
        {
            all.push(completion_of(self.response.clone()));
        }
        all
    }

    fn chunk_concurrently(&self, requests: Vec<ChunkRequest>) -> (all: Vec<Vec<String>>)
        ensures
            forall|i: int|
                0 <= i < all.len() ==> texts(#[trigger] all[i]@) == seq![requests[i]@.text],
    {
        whole_text_chunks(requests)
    }

    fn select_language_concurrently(&self, requests: Vec<SelectLanguageRequest>) -> (all: Vec<
        Option<LanguageCode>,
    >)
        ensures
            forall|i: int| 0 <= i < all.len() ==> (#[trigger] all[i]) is None,
    {
        no_languages(requests)
    }

    fn search_concurrently(&self, requests: Vec<SearchRequest>) -> (all: Vec<Vec<SearchResult>>)
        ensures
            forall|i: int| 0 <= i < all.len() ==> (#[trigger] all[i]).len() == 0,
    {
        no_results(requests)
    }

    fn documents(&self, paths: Vec<DocumentPath>) -> (all: Result<Vec<Document<Value>>, String>)
        ensures
            all matches Ok(found) && forall|i: int|
                0 <= i < found.len() ==> (#[trigger] found[i])@ == blank_document::<Value>(
                    paths[i]@,
                ),
    {
        Ok(blank_documents(paths))
    }

    fn documents_metadata(&self, paths: Vec<DocumentPath>) -> (all: Result<
        Vec<Option<Value>>,
        String,
    >)
        ensures
            all matches Ok(found) && forall|i: int|
                0 <= i < found.len() ==> (#[trigger] found[i]) is None,
    {
        Ok(no_metadata(paths))
    }
}

/// What [`MockCsi`] gives for a single completion request is what it gives
/// for the batch of that request alone: its response, as a plain completion.
pub proof fn lemma_mock_completes_with_its_response(
    csi: &MockCsi,
    request: CompletionRequest,
    completion: Completion,
)
    requires
        exists|batch: Vec<CompletionRequest>, all: Vec<Completion>|
            {
                &&& batch@ == seq![request]
                &&& #[trigger] call_ensures(
                    <MockCsi as Csi>::complete_concurrently,
                    (csi, batch),
                    all,
                )
                &&& all@ == seq![completion]
            },
    ensures
        completion@ == plain_completion(csi.response()),
{
    let (batch, all) = choose|batch: Vec<CompletionRequest>, all: Vec<Completion>|
        {
            &&& batch@ == seq![request]
            &&& #[trigger] call_ensures(<MockCsi as Csi>::complete_concurrently, (csi, batch), all)
            &&& all@ == seq![completion]
        };
    assert(all[0]@ == plain_completion(csi.response()));
}

/// What [`MockCsi`] gives for a single chat request is what it gives for the
/// batch of that request alone: its response, as a plain chat response.
pub proof fn lemma_mock_chats_with_its_response(
    csi: &MockCsi,
    request: ChatRequest,
    response: ChatResponse,
)
    requires
        exists|batch: Vec<ChatRequest>, all: Vec<ChatResponse>|
            {
                &&& batch@ == seq![request]
                &&& #[trigger] call_ensures(
                    <MockCsi as Csi>::chat_concurrently,
                    (csi, batch),
                    all,
                )
                &&& all@ == seq![response]
            },
    ensures
        response@ == plain_chat_response(csi.response()),
{
    let (batch, all) = choose|batch: Vec<ChatRequest>, all: Vec<ChatResponse>|
        {
            &&& batch@ == seq![request]
            &&& #[trigger] call_ensures(<MockCsi as Csi>::chat_concurrently, (csi, batch), all)
            &&& all@ == seq![response]
        };
    assert(all[0]@ == plain_chat_response(csi.response()));
}

/// The services of the host, by the names under which a development host
/// offers them.
#[derive(Clone, Copy, Debug, PartialEq, Eq)]
pub enum Function {
    Complete,
    Chunk,
    SelectLanguage,
    Search,
    Chat,
    Documents,
    DocumentMetadata,
}

impl Function {
    /// The name of the service in a request.
    pub open spec fn name(self) -> Seq<char> {
        match self {
            Function::Complete => "complete"@,
            Function::Chunk => "chunk"@,
            Function::SelectLanguage => "select_language"@,
            Function::Search => "search"@,
            Function::Chat => "chat"@,
            Function::Documents => "documents"@,
            Function::DocumentMetadata => "document_metadata"@,
        }
    }

    /// The name of the service in a request.
    pub fn as_str(&self) -> (name: &'static str)
        ensures
            name@ == self.name(),
    {
        match self {
            Function::Complete => "complete",
            Function::Chunk => "chunk",
            Function::SelectLanguage => "select_language",
            Function::Search => "search",
            Function::Chat => "chat",
            Function::Documents => "documents",
            Function::DocumentMetadata => "document_metadata",
        }
    }
}

/// The body of the request for `function` on the batch `requests`: a JSON
/// object with the version of the protocol, the name of the service, and the
/// batch.
pub open spec fn envelope(function: Function, requests: Value) -> Value {
    object_value(
        Map::<Seq<char>, Value>::empty().insert("version"@, string_value("0.3"@)).insert(
            "function"@,
            string_value(function.name()),
        ).insert("requests"@, requests),
    )
}

/// What a [`Request`] holds.
pub struct RequestView {
    pub url: Seq<char>,
    pub authorization: Seq<char>,
    pub body: Value,
}

/// A request to a development host: where to post it, what to put in the
/// header `Authorization`, and the JSON body.
#[derive(Debug)]
pub struct Request {
    pub url: String,
    pub authorization: String,
    pub body: Value,
}

impl View for Request {
    type V = RequestView;

    open spec fn view(&self) -> RequestView {
        RequestView { url: self.url@, authorization: self.authorization@, body: self.body }
    }
}

/// What a development host said to a request.
#[derive(Debug)]
pub enum Reply {
    /// The batch of answers.
    Answer(Value),
    /// The host refused. Holds the status and the body of its response, if
    /// that is JSON.
    Failure { status: u16, body: Option<Value> },
}

/// What a response with the given status and body means.
///
/// A status from 200 to 299 brings the answers: the body has to be JSON, and
/// the reason is given if it is not. Any other status is a refusal, whatever
/// the body holds.
pub open spec fn reply_of(status: u16, body: Seq<u8>) -> Result<Reply, Seq<char>> {
    if 200 <= status < 300 {
        match json_parsed(body) {
            Ok(answers) => Ok(Reply::Answer(answers)),
            Err(reason) => Err(reason),
        }
    } else {
        Ok(
            Reply::Failure {
                status,
                body: match json_parsed(body) {
                    Ok(value) => Some(value),
                    Err(_) => None,
                },
            },
        )
    }
}

/// A client of a development host, to try a skill against real services.
///
/// It holds where the host is and the token to show. It says what to send
/// and what a response means; sending is left to its user.
pub struct DevCsi {
    address: String,
    token: String,
}

impl DevCsi {
    /// The address of the host.
    pub closed spec fn address(&self) -> Seq<char> {
        self.address@
    }

    /// The token that is shown to the host.
    pub closed spec fn token(&self) -> Seq<char> {
        self.token@
    }

    /// The version of the protocol that the client speaks.
    pub fn version() -> (version: &'static str)
        ensures
            version@ == "0.3"@,
    {
        "0.3"
    }

    /// How long to wait for the host, in seconds: five minutes, as the
    /// services can be slow.
    pub fn timeout_seconds() -> (seconds: u64)
        ensures
            seconds == 300,
    {
        60 * 5
    }

    /// The client of the host at `address`, with `token` to show.
    #[must_use]
    pub fn new(address: &str, token: &str) -> (csi: DevCsi)
        ensures
            csi.address() == address@,
            csi.token() == token@,
    {
        DevCsi { address: address.to_owned(), token: token.to_owned() }
    }

    /// Construct a new [`DevCsi`] that points to the Aleph Alpha hosted Kernel
    pub fn aleph_alpha(token: &str) -> (csi: DevCsi)
        ensures
            csi.address() == "https://pharia-kernel.product.pharia.com"@,
            csi.token() == token@,
    {
        DevCsi::new("https://pharia-kernel.product.pharia.com", token)
    }

    /// The request that asks the host for `function` on the batch
    /// `requests`: posted to the path `/csi` of the host, with the token as a
    /// bearer token.
    pub fn csi_request(&self, function: Function, requests: Value) -> (request: Request)
        ensures
            request@ == (RequestView {
                url: self.address() + "/csi"@,
                authorization: "Bearer "@ + self.token(),
                body: envelope(function, requests),
            }),
    {
        let mut url = self.address.clone();
        url.append("/csi");
        let mut authorization = "Bearer ".to_owned();
        authorization.append(self.token.as_str());
        let mut members = new_object();
        insert_member(&mut members, "version", string(DevCsi::version()));
        insert_member(&mut members, "function", string(function.as_str()));
        insert_member(&mut members, "requests", requests);
        Request { url, authorization, body: object(members) }
    }

    /// What the response of the host means.
    pub fn csi_response(status: u16, body: &[u8]) -> (reply: Result<Reply, String>)
        ensures
            match reply {
                Ok(read) => reply_of(status, body@) == Ok::<Reply, Seq<char>>(read),
                Err(reason) => reply_of(status, body@) == Err::<Reply, Seq<char>>(reason@),
            },
    {
        let parsed = parse_value(body);
        if 200 <= status && status < 300 {
            match parsed {
                Ok(answers) => Ok(Reply::Answer(answers)),
                Err(reason) => Err(reason),
            }
        } else {
            let body = match parsed {
                Ok(value) => Some(value),
                Err(_) => None,
            };
            Ok(Reply::Failure { status, body })
        }
    }
}

} // verus!
