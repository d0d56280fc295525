//! Completion and chat as the host takes and gives them.
use crate::bindings::batch::map_each;
use crate::csi::inference;
use crate::csi::inference::{
    conversation, ChatRequestView, ChatResponseView, CompletionParamsView, CompletionRequestView,
    CompletionView, DistributionView, LogprobView, MessageView,
};
use crate::csi::number::Number;
use crate::text::texts;
use vstd::prelude::*;
use vstd::std_specs::convert::{FromSpec, FromSpecImpl};

verus! {

/// A token and the logarithm of its probability, at the host boundary.
#[derive(Clone, Debug, PartialEq)]
pub struct Logprob {
    pub token: Vec<u8>,
    pub logprob: Number,
}

impl View for Logprob {
    type V = LogprobView;

    open spec fn view(&self) -> LogprobView {
        LogprobView { token: self.token@, logprob: self.logprob }
    }
}

impl FromSpecImpl<Logprob> for inference::Logprob {
    open spec fn obeys_from_spec() -> bool {
        true
    }

    open spec fn from_spec(value: Logprob) -> inference::Logprob {
        inference::Logprob { token: value.token, logprob: value.logprob }
    }
}

impl From<Logprob> for inference::Logprob {
    /// The same token and log-probability.
    fn from(value: Logprob) -> (logprob: inference::Logprob)
        ensures
            logprob@ == value@,
    {
        let Logprob { token, logprob } = value;
        inference::Logprob { token, logprob }
    }
}

/// The log-probabilities of `logprobs`, in order.
pub open spec fn logprobs_view(logprobs: Seq<Logprob>) -> Seq<LogprobView> {
    logprobs.map_values(|logprob: Logprob| logprob@)
}

/// The sampled token of one position and the most likely ones there, at the
/// host boundary.
#[derive(Clone, Debug, PartialEq)]
pub struct Distribution {
    pub sampled: Logprob,
    pub top: Vec<Logprob>,
}

impl View for Distribution {
    type V = DistributionView;

    open spec fn view(&self) -> DistributionView {
        DistributionView { sampled: self.sampled@, top: logprobs_view(self.top@) }
    }
}

impl FromSpecImpl<Distribution> for inference::Distribution {
    open spec fn obeys_from_spec() -> bool {
        false
    }

    open spec fn from_spec(value: Distribution) -> inference::Distribution {
        arbitrary()
    }
}

impl From<Distribution> for inference::Distribution {
    /// The same tokens and log-probabilities, in the same order.
    fn from(value: Distribution) -> (distribution: inference::Distribution)
        ensures
            distribution@ == value@,
    {
        let Distribution { sampled, top } = value;
        let convert = |logprob: Logprob| -> (converted: inference::Logprob)
            ensures
                converted@ == logprob@,
            {
                inference::Logprob::from(logprob)
            };
        let converted = map_each(top, convert);
        let distribution = inference::Distribution {
            sampled: inference::Logprob::from(sampled),
            top: converted,
        };
        assert(distribution@.top =~= value@.top);
        distribution
    }
}

/// The distributions of `distributions`, in order.
pub open spec fn distributions_view(distributions: Seq<Distribution>) -> Seq<DistributionView> {
    distributions.map_values(|distribution: Distribution| distribution@)
}

/// The distributions of a response.
fn distributions(wire: Vec<Distribution>) -> (converted: Vec<inference::Distribution>)
    ensures
        converted@.map_values(|distribution: inference::Distribution| distribution@)
            == distributions_view(wire@),
{
    let convert = |distribution: Distribution| -> (converted: inference::Distribution)
        ensures
            converted@ == distribution@,
        {
            inference::Distribution::from(distribution)
        };
    let converted = map_each(wire, convert);
    assert(converted@.map_values(|distribution: inference::Distribution| distribution@)
        =~= distributions_view(wire@));
    converted
}

/// How many tokens a request took, at the host boundary.
#[derive(Clone, Copy, Debug, PartialEq)]
pub struct TokenUsage {
    pub prompt: u32,
    pub completion: u32,
}

impl TokenUsage {
    /// The same counts, in the service interface.
    pub open spec fn usage(self) -> inference::TokenUsage {
        inference::TokenUsage { prompt: self.prompt, completion: self.completion }
    }
}

impl FromSpecImpl<TokenUsage> for inference::TokenUsage {
    open spec fn obeys_from_spec() -> bool {
        true
    }

    open spec fn from_spec(value: TokenUsage) -> inference::TokenUsage {
        value.usage()
    }
}

impl From<TokenUsage> for inference::TokenUsage {
    /// The same counts.
    fn from(value: TokenUsage) -> (usage: inference::TokenUsage)
        ensures
            usage == value.usage(),
    {
        let TokenUsage { prompt, completion } = value;
        inference::TokenUsage { prompt, completion }
    }
}

/// Why the model stopped, at the host boundary.
#[derive(Clone, Copy, Debug, PartialEq)]
pub enum FinishReason {
    Stop,
    Length,
    ContentFilter,
}

impl FinishReason {
    /// The same reason, in the service interface.
    pub open spec fn reason(self) -> inference::FinishReason {
        match self {
            FinishReason::Stop => inference::FinishReason::Stop,
            FinishReason::Length => inference::FinishReason::Length,
            FinishReason::ContentFilter => inference::FinishReason::ContentFilter,
        }
    }
}

impl FromSpecImpl<FinishReason> for inference::FinishReason {
    open spec fn obeys_from_spec() -> bool {
        true
    }

    open spec fn from_spec(value: FinishReason) -> inference::FinishReason {
        value.reason()
    }
}

impl From<FinishReason> for inference::FinishReason {
    /// The same reason.
    fn from(value: FinishReason) -> (reason: inference::FinishReason)
        ensures
            reason == value.reason(),
    {
        match value {
            FinishReason::Stop => inference::FinishReason::Stop,
            FinishReason::Length => inference::FinishReason::Length,
            FinishReason::ContentFilter => inference::FinishReason::ContentFilter,
        }
    }
}

/// Which log-probabilities a request asks for, at the host boundary.
#[derive(Clone, Copy, Debug, PartialEq)]
pub enum Logprobs {
    No,
    Sampled,
    Top(u8),
}

impl Logprobs {
    /// The same choice, in the service interface.
    pub open spec fn choice(self) -> inference::Logprobs {
        match self {
            Logprobs::No => inference::Logprobs::No,
            Logprobs::Sampled => inference::Logprobs::Sampled,
            Logprobs::Top(n) => inference::Logprobs::Top(n),
        }
    }
}

impl FromSpecImpl<inference::Logprobs> for Logprobs {
    open spec fn obeys_from_spec() -> bool {
        true
    }

    open spec fn from_spec(value: inference::Logprobs) -> Logprobs {
        match value {
            inference::Logprobs::No => Logprobs::No,
            inference::Logprobs::Sampled => Logprobs::Sampled,
            inference::Logprobs::Top(n) => Logprobs::Top(n),
        }
    }
}

impl From<inference::Logprobs> for Logprobs {
    /// The same choice.
    fn from(value: inference::Logprobs) -> (wire: Logprobs)
        ensures
            wire.choice() == value,
    {
        match value {
            inference::Logprobs::No => Logprobs::No,
            inference::Logprobs::Sampled => Logprobs::Sampled,
            inference::Logprobs::Top(n) => Logprobs::Top(n),
        }
    }
}

/// Completion parameters at the host boundary.
#[derive(Clone, Debug, PartialEq)]
pub struct CompletionParams {
    pub max_tokens: Option<u32>,
    pub temperature: Option<Number>,
    pub top_k: Option<u32>,
    pub top_p: Option<Number>,
    pub stop: Vec<String>,
    pub return_special_tokens: bool,
    pub frequency_penalty: Option<Number>,
    pub presence_penalty: Option<Number>,
    pub logprobs: Logprobs,
}

impl View for CompletionParams {
    type V = CompletionParamsView;

    open spec fn view(&self) -> CompletionParamsView {
        CompletionParamsView {
            max_tokens: self.max_tokens,
            temperature: self.temperature,
            top_k: self.top_k,
            top_p: self.top_p,
            stop: texts(self.stop@),
            return_special_tokens: self.return_special_tokens,
            frequency_penalty: self.frequency_penalty,
            presence_penalty: self.presence_penalty,
            logprobs: self.logprobs.choice(),
        }
    }
}

impl FromSpecImpl<inference::CompletionParams> for CompletionParams {
    open spec fn obeys_from_spec() -> bool {
        true
    }

    open spec fn from_spec(value: inference::CompletionParams) -> CompletionParams {
        CompletionParams {
            max_tokens: value.max_tokens,
            temperature: value.temperature,
            top_k: value.top_k,
            top_p: value.top_p,
            stop: value.stop,
            return_special_tokens: value.return_special_tokens,
            frequency_penalty: value.frequency_penalty,
            presence_penalty: value.presence_penalty,
            logprobs: <Logprobs as FromSpec<inference::Logprobs>>::from_spec(value.logprobs),
        }
    }
}

impl From<inference::CompletionParams> for CompletionParams {
    /// The same parameters, as the host takes them.
    fn from(value: inference::CompletionParams) -> (wire: CompletionParams)
        ensures
            wire@ == value@,
    {
        let inference::CompletionParams {
            max_tokens,
            temperature,
            top_k,
            top_p,
            stop,
            return_special_tokens,
            frequency_penalty,
            presence_penalty,
            logprobs,
        } = value;
        CompletionParams {
            max_tokens,
            temperature,
            top_k,
            top_p,
            stop,
            return_special_tokens,
            frequency_penalty,
            presence_penalty,
            logprobs: Logprobs::from(logprobs),
        }
    }
}

/// A completion request at the host boundary.
#[derive(Clone, Debug, PartialEq)]
pub struct CompletionRequest {
    pub model: String,
    pub prompt: String,
    pub params: CompletionParams,
}

impl View for CompletionRequest {
    type V = CompletionRequestView;

    open spec fn view(&self) -> CompletionRequestView {
        CompletionRequestView { model: self.model@, prompt: self.prompt@, params: self.params@ }
    }
}

impl FromSpecImpl<inference::CompletionRequest> for CompletionRequest {
    open spec fn obeys_from_spec() -> bool {
        true
    }

    open spec fn from_spec(value: inference::CompletionRequest) -> CompletionRequest {
        CompletionRequest {
            model: value.model,
            prompt: value.prompt,
            params: <CompletionParams as FromSpec<inference::CompletionParams>>::from_spec(
                value.params,
            ),
        }
    }
}

impl From<inference::CompletionRequest> for CompletionRequest {
    /// The same request, as the host takes it.
    fn from(value: inference::CompletionRequest) -> (wire: CompletionRequest)
        ensures
            wire@ == value@,
    {
        let inference::CompletionRequest { model, prompt, params } = value;
        CompletionRequest { model, prompt, params: CompletionParams::from(params) }
    }
}

/// A completion at the host boundary.
#[derive(Clone, Debug, PartialEq)]
pub struct Completion {
    pub text: String,
    pub finish_reason: FinishReason,
    pub logprobs: Vec<Distribution>,
    pub usage: TokenUsage,
}

impl View for Completion {
    type V = CompletionView;

    open spec fn view(&self) -> CompletionView {
        CompletionView {
            text: self.text@,
            finish_reason: self.finish_reason.reason(),
            logprobs: distributions_view(self.logprobs@),
            usage: self.usage.usage(),
        }
    }
}

impl FromSpecImpl<Completion> for inference::Completion {
    open spec fn obeys_from_spec() -> bool {
        false
    }

    open spec fn from_spec(value: Completion) -> inference::Completion {
        arbitrary()
    }
}

impl From<Completion> for inference::Completion {
    /// The same completion, as the skill takes it.
    fn from(value: Completion) -> (completion: inference::Completion)
        ensures
            completion@ == value@,
    {
        let Completion { text, finish_reason, logprobs, usage } = value;
        inference::Completion {
            text,
            finish_reason: inference::FinishReason::from(finish_reason),
            logprobs: distributions(logprobs),
            usage: inference::TokenUsage::from(usage),
        }
    }
}

/// One turn of a conversation, at the host boundary.
#[derive(Clone, Debug, PartialEq)]
pub struct Message {
    pub role: String,
    pub content: String,
}

impl View for Message {
    type V = MessageView;

    open spec fn view(&self) -> MessageView {
        MessageView { role: self.role@, content: self.content@ }
    }
}

impl FromSpecImpl<inference::Message> for Message {
    open spec fn obeys_from_spec() -> bool {
        true
    }

    open spec fn from_spec(value: inference::Message) -> Message {
        Message { role: value.role, content: value.content }
    }
}

impl From<inference::Message> for Message {
    /// The same message, as the host takes it.
    fn from(value: inference::Message) -> (wire: Message)
        ensures
            wire@ == value@,
    {
        let inference::Message { role, content } = value;
        Message { role, content }
    }
}

impl FromSpecImpl<Message> for inference::Message {
    open spec fn obeys_from_spec() -> bool {
        true
    }

    open spec fn from_spec(value: Message) -> inference::Message {
        inference::Message { role: value.role, content: value.content }
    }
}

impl From<Message> for inference::Message {
    /// The same message, as the skill takes it.
    fn from(value: Message) -> (message: inference::Message)
        ensures
            message@ == value@,
    {
        let Message { role, content } = value;
        inference::Message { role, content }
    }
}

/// Chat parameters at the host boundary.
#[derive(Clone, Copy, Debug, PartialEq)]
pub struct ChatParams {
    pub max_tokens: Option<u32>,
    pub temperature: Option<Number>,
    pub top_p: Option<Number>,
    pub frequency_penalty: Option<Number>,
    pub presence_penalty: Option<Number>,
    pub logprobs: Logprobs,
}

impl ChatParams {
    /// The same parameters, in the service interface.
    pub open spec fn params(self) -> inference::ChatParams {
        inference::ChatParams {
            max_tokens: self.max_tokens,
            temperature: self.temperature,
            top_p: self.top_p,
            frequency_penalty: self.frequency_penalty,
            presence_penalty: self.presence_penalty,
            logprobs: self.logprobs.choice(),
        }
    }
}

impl FromSpecImpl<inference::ChatParams> for ChatParams {
    open spec fn obeys_from_spec() -> bool {
        true
    }

    open spec fn from_spec(value: inference::ChatParams) -> ChatParams {
        ChatParams {
            max_tokens: value.max_tokens,
            temperature: value.temperature,
            top_p: value.top_p,
            frequency_penalty: value.frequency_penalty,
            presence_penalty: value.presence_penalty,
            logprobs: <Logprobs as FromSpec<inference::Logprobs>>::from_spec(value.logprobs),
        }
    }
}

impl From<inference::ChatParams> for ChatParams {
    /// The same parameters, as the host takes them.
    fn from(value: inference::ChatParams) -> (wire: ChatParams)
        ensures
            wire.params() == value,
    {
        let inference::ChatParams {
            max_tokens,
            temperature,
            top_p,
            frequency_penalty,
            presence_penalty,
            logprobs,
        } = value;
        ChatParams {
            max_tokens,
            temperature,
            top_p,
            frequency_penalty,
            presence_penalty,
            logprobs: Logprobs::from(logprobs),
        }
    }
}

/// The messages of `messages`, in order.
pub open spec fn messages_view(messages: Seq<Message>) -> Seq<MessageView> {
    messages.map_values(|message: Message| message@)
}

/// A chat request at the host boundary.
#[derive(Clone, Debug, PartialEq)]
pub struct ChatRequest {
    pub model: String,
    pub messages: Vec<Message>,
    pub params: ChatParams,
}

impl View for ChatRequest {
    type V = ChatRequestView;

    open spec fn view(&self) -> ChatRequestView {
        ChatRequestView {
            model: self.model@,
            messages: messages_view(self.messages@),
            params: self.params.params(),
        }
    }
}

impl FromSpecImpl<inference::ChatRequest> for ChatRequest {
    open spec fn obeys_from_spec() -> bool {
        false
    }

    open spec fn from_spec(value: inference::ChatRequest) -> ChatRequest {
        arbitrary()
    }
}

impl From<inference::ChatRequest> for ChatRequest {
    /// The same request, as the host takes it.
    fn from(value: inference::ChatRequest) -> (wire: ChatRequest)
        ensures
            wire@ == value@,
    {
        let inference::ChatRequest { model, messages, params } = value;
        let convert = |message: inference::Message| -> (wire: Message)
            ensures
                wire@ == message@,
            {
                Message::from(message)
            };
        let converted = map_each(messages, convert);
        assert(messages_view(converted@) =~= conversation(messages@));
        ChatRequest { model, messages: converted, params: ChatParams::from(params) }
    }
}

/// A chat response at the host boundary.
#[derive(Clone, Debug, PartialEq)]
pub struct ChatResponse {
    pub message: Message,
    pub finish_reason: FinishReason,
    pub logprobs: Vec<Distribution>,
    pub usage: TokenUsage,
}

impl View for ChatResponse {
    type V = ChatResponseView;

    open spec fn view(&self) -> ChatResponseView {
        ChatResponseView {
            message: self.message@,
            finish_reason: self.finish_reason.reason(),
            logprobs: distributions_view(self.logprobs@),
            usage: self.usage.usage(),
        }
    }
}

impl FromSpecImpl<ChatResponse> for inference::ChatResponse {
    open spec fn obeys_from_spec() -> bool {
        false
    }

    open spec fn from_spec(value: ChatResponse) -> inference::ChatResponse {
        arbitrary()
    }
}

impl From<ChatResponse> for inference::ChatResponse {
    /// The same response, as the skill takes it.
    fn from(value: ChatResponse) -> (response: inference::ChatResponse)
        ensures
            response@ == value@,
    {
        let ChatResponse { message, finish_reason, logprobs, usage } = value;
        inference::ChatResponse {
            message: inference::Message::from(message),
            finish_reason: inference::FinishReason::from(finish_reason),
            logprobs: distributions(logprobs),
            usage: inference::TokenUsage::from(usage),
        }
    }
}

/// The requests of a batch, as the host takes them.
pub fn chat_requests(requests: Vec<inference::ChatRequest>) -> (wire: Vec<ChatRequest>)
    ensures
        wire.len() == requests.len(),
        forall|i: int| 0 <= i < wire.len() ==> (#[trigger] wire[i])@ == requests[i]@,
{
    let convert = |request: inference::ChatRequest| -> (wire: ChatRequest)
        ensures
            wire@ == request@,
        {
            ChatRequest::from(request)
        };
    map_each(requests, convert)
}

/// The responses of a batch, as the skill takes them.
pub fn chat_responses(wire: Vec<ChatResponse>) -> (responses: Vec<inference::ChatResponse>)
    ensures
        responses.len() == wire.len(),
        forall|i: int| 0 <= i < responses.len() ==> (#[trigger] responses[i])@ == wire[i]@,
{
    let convert = |response: ChatResponse| -> (converted: inference::ChatResponse)
        ensures
            converted@ == response@,
        {
            inference::ChatResponse::from(response)
        };
    map_each(wire, convert)
}

/// The requests of a batch, as the host takes them.
pub fn completion_requests(requests: Vec<inference::CompletionRequest>) -> (wire: Vec<
    CompletionRequest,
>)
    ensures
        wire.len() == requests.len(),
        forall|i: int| 0 <= i < wire.len() ==> (#[trigger] wire[i])@ == requests[i]@,
{
    let convert = |request: inference::CompletionRequest| -> (wire: CompletionRequest)
        ensures
            wire@ == request@,
        {
            CompletionRequest::from(request)
        };
    map_each(requests, convert)
}

/// The completions of a batch, as the skill takes them.
pub fn completions(wire: Vec<Completion>) -> (completions: Vec<inference::Completion>)
    ensures
        completions.len() == wire.len(),
        forall|i: int| 0 <= i < completions.len() ==> (#[trigger] completions[i])@ == wire[i]@,
{
    let convert = |completion: Completion| -> (converted: inference::Completion)
        ensures
            converted@ == completion@,
        {
            inference::Completion::from(completion)
        };
    map_each(wire, convert)
}

} // verus!
