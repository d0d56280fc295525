//! Text completion and chat.
use crate::csi::number::Number;
use crate::text::texts;
use vstd::prelude::*;

verus! {

/// The reason that the model stopped completing text
#[derive(Clone, Copy, Debug, PartialEq, Eq)]
pub enum FinishReason {
    /// The model hit a natural stopping point or a provided stop sequence
    Stop,
    /// The maximum number of tokens specified in the request was reached
    Length,
    /// Content was omitted due to a flag from content filters
    ContentFilter,
}

/// Which log-probabilities a request asks for.
#[derive(Clone, Copy, Debug, PartialEq, Eq)]
pub enum Logprobs {
    /// None.
    No,
    /// That of each sampled token.
    Sampled,
    /// Those of the sampled token and of the given number of most likely
    /// tokens.
    Top(u8),
}

impl Default for Logprobs {
    fn default() -> (logprobs: Logprobs)
        ensures
            logprobs == Logprobs::No,
    {
        Logprobs::No
    }
}

/// What a [`Logprob`] holds.
pub struct LogprobView {
    pub token: Seq<u8>,
    pub logprob: Number,
}

/// A token and the logarithm of its probability.
#[derive(Clone, Debug, PartialEq)]
pub struct Logprob {
    pub token: Vec<u8>,
    pub logprob: Number,
}

impl View for Logprob {
    type V = LogprobView;

    open spec fn view(&self) -> LogprobView {
        LogprobView { token: self.token@, logprob: self.logprob }
    }
}

/// What a [`Distribution`] holds.
pub struct DistributionView {
    pub sampled: LogprobView,
    pub top: Seq<LogprobView>,
}

/// The token that was sampled at one position, and the most likely ones there.
#[derive(Clone, Debug, PartialEq)]
pub struct Distribution {
    pub sampled: Logprob,
    pub top: Vec<Logprob>,
}

impl View for Distribution {
    type V = DistributionView;

    open spec fn view(&self) -> DistributionView {
        DistributionView {
            sampled: self.sampled@,
            top: self.top@.map_values(|logprob: Logprob| logprob@),
        }
    }
}

/// How many tokens a request took.
#[derive(Clone, Copy, Debug, PartialEq, Eq)]
pub struct TokenUsage {
    /// Tokens in the prompt.
    pub prompt: u32,
    /// Tokens in the completion.
    pub completion: u32,
}

/// What a [`CompletionParams`] holds.
pub struct CompletionParamsView {
    pub max_tokens: Option<u32>,
    pub temperature: Option<Number>,
    pub top_k: Option<u32>,
    pub top_p: Option<Number>,
    pub stop: Seq<Seq<char>>,
    pub return_special_tokens: bool,
    pub frequency_penalty: Option<Number>,
    pub presence_penalty: Option<Number>,
    pub logprobs: Logprobs,
}

/// Completion request parameters
#[derive(Clone, Debug)]
pub struct CompletionParams {
    /// The maximum tokens that should be inferred.
    ///
    /// Note: the backing implementation may return less tokens due to
    /// other stop reasons.
    pub max_tokens: Option<u32>,
    /// The randomness with which the next token is selected.
    pub temperature: Option<Number>,
    /// The number of possible next tokens the model will choose from.
    pub top_k: Option<u32>,
    /// The probability total of next tokens the model will choose from.
    pub top_p: Option<Number>,
    /// A list of sequences that, if encountered, the API will stop generating further tokens.
    pub stop: Vec<String>,
    /// Whether to include special tokens like `<|eot_id|>` in the completion
    pub return_special_tokens: bool,
    /// When specified, this number will decrease (or increase) the probability of repeating
    /// tokens that were mentioned prior in the completion. The penalty is cumulative. The more
    /// a token is mentioned in the completion, the more its probability will decrease.
    /// A negative value will increase the likelihood of repeating tokens.
    pub frequency_penalty: Option<Number>,
    /// The presence penalty reduces the probability of generating tokens that are already
    /// present in the generated text respectively prompt. Presence penalty is independent of the
    /// number of occurrences. Increase the value to reduce the probability of repeating text.
    pub presence_penalty: Option<Number>,
    /// Use this to control the logarithmic probabilities you want to have returned. This is useful
    /// to figure out how likely it had been that this specific token had been sampled.
    pub logprobs: Logprobs,
}

impl View for CompletionParams {
    type V = CompletionParamsView;

    open spec fn view(&self) -> CompletionParamsView {
        CompletionParamsView {
            max_tokens: self.max_tokens,
            temperature: self.temperature,
            top_k: self.top_k,
            top_p: self.top_p,
            stop: texts(self.stop@),
            return_special_tokens: self.return_special_tokens,
            frequency_penalty: self.frequency_penalty,
            presence_penalty: self.presence_penalty,
            logprobs: self.logprobs,
        }
    }
}

impl CompletionParamsView {
    /// The parameters of a request that sets none: special tokens are
    /// returned, nothing else is asked for.
    pub open spec fn default() -> CompletionParamsView {
        CompletionParamsView {
            max_tokens: None,
            temperature: None,
            top_k: None,
            top_p: None,
            stop: Seq::empty(),
            return_special_tokens: true,
            frequency_penalty: None,
            presence_penalty: None,
            logprobs: Logprobs::No,
        }
    }
}

impl Default for CompletionParams {
    fn default() -> (params: CompletionParams)
        ensures
            params@ == CompletionParamsView::default(),
    {
        let params = CompletionParams {
            return_special_tokens: true,
            max_tokens: None,
            temperature: None,
            top_k: None,
            top_p: None,
            stop: Vec::new(),
            frequency_penalty: None,
            presence_penalty: None,
            logprobs: Logprobs::default(),
        };
        assert(texts(params.stop@) =~= Seq::empty());
        params
    }
}

/// What a [`CompletionRequest`] holds.
pub struct CompletionRequestView {
    pub model: Seq<char>,
    pub prompt: Seq<char>,
    pub params: CompletionParamsView,
}

/// Parameters required to make a completion request.
#[derive(Clone, Debug)]
pub struct CompletionRequest {
    /// The model to generate a completion from.
    pub model: String,
    /// The text to prompt the model with.
    pub prompt: String,
    /// Parameters to adjust the sampling behavior of the model.
    pub params: CompletionParams,
}

impl View for CompletionRequest {
    type V = CompletionRequestView;

    open spec fn view(&self) -> CompletionRequestView {
        CompletionRequestView { model: self.model@, prompt: self.prompt@, params: self.params@ }
    }
}

impl CompletionRequest {
    /// The request to complete `prompt` with `model`, with default
    /// parameters.
    pub fn new(model: &str, prompt: &str) -> (request: CompletionRequest)
        ensures
            request@ == (CompletionRequestView {
                model: model@,
                prompt: prompt@,
                params: CompletionParamsView::default(),
            }),
    {
        CompletionRequest {
            model: model.to_owned(),
            prompt: prompt.to_owned(),
            params: CompletionParams::default(),
        }
    }

    /// The same request with the parameters replaced.
    #[must_use]
    pub fn with_params(self, params: CompletionParams) -> (request: CompletionRequest)
        ensures
            request@ == (CompletionRequestView { params: params@, ..self@ }),
    {
        let mut request = self;
        request.params = params;
        request
    }
}

/// What a [`Completion`] holds.
pub struct CompletionView {
    pub text: Seq<char>,
    pub finish_reason: FinishReason,
    pub logprobs: Seq<DistributionView>,
    pub usage: TokenUsage,
}

/// The result of a completion, including the text generated as well as
/// why the model finished completing.
#[derive(Clone, Debug, PartialEq)]
pub struct Completion {
    /// The text generated by the model
    pub text: String,
    /// The reason the model finished generating
    pub finish_reason: FinishReason,
    /// Contains the logprobs for the sampled and top n tokens, given that
    /// `completion-request.params.logprobs` has been set to `sampled` or `top`.
    pub logprobs: Vec<Distribution>,
    /// Usage statistics for the completion request.
    pub usage: TokenUsage,
}

impl View for Completion {
    type V = CompletionView;

    open spec fn view(&self) -> CompletionView {
        CompletionView {
            text: self.text@,
            finish_reason: self.finish_reason,
            logprobs: self.logprobs@.map_values(|distribution: Distribution| distribution@),
            usage: self.usage,
        }
    }
}

/// What a [`Message`] holds.
pub struct MessageView {
    pub role: Seq<char>,
    pub content: Seq<char>,
}

/// One turn of a conversation. The role is free text: "system", "user" and
/// "assistant" are the usual ones.
#[derive(Clone, Debug)]
pub struct Message {
    pub role: String,
    pub content: String,
}

impl View for Message {
    type V = MessageView;

    open spec fn view(&self) -> MessageView {
        MessageView { role: self.role@, content: self.content@ }
    }
}

impl Message {
    /// The message that `role` says `content`.
    pub fn new(role: &str, content: &str) -> (message: Message)
        ensures
            message@ == (MessageView { role: role@, content: content@ }),
    {
        Message { role: role.to_owned(), content: content.to_owned() }
    }

    /// A message of the role "user".
    pub fn user(content: &str) -> (message: Message)
        ensures
            message@ == (MessageView { role: "user"@, content: content@ }),
    {
        Message::new("user", content)
    }

    /// A message of the role "assistant".
    pub fn assistant(content: &str) -> (message: Message)
        ensures
            message@ == (MessageView { role: "assistant"@, content: content@ }),
    {
        Message::new("assistant", content)
    }

    /// A message of the role "system".
    pub fn system(content: &str) -> (message: Message)
        ensures
            message@ == (MessageView { role: "system"@, content: content@ }),
    {
        Message::new("system", content)
    }
}

/// Chat request parameters
#[derive(Clone, Copy, Debug)]
pub struct ChatParams {
    /// The maximum tokens that should be inferred.
    ///
    /// Note: the backing implementation may return less tokens due to
    /// other stop reasons.
    pub max_tokens: Option<u32>,
    /// The randomness with which the next token is selected.
    pub temperature: Option<Number>,
    /// The probability total of next tokens the model will choose from.
    pub top_p: Option<Number>,
    /// When specified, this number will decrease (or increase) the probability of repeating
    /// tokens that were mentioned prior in the completion. The penalty is cumulative. The more
    /// a token is mentioned in the completion, the more its probability will decrease.
    /// A negative value will increase the likelihood of repeating tokens.
    pub frequency_penalty: Option<Number>,
    /// The presence penalty reduces the probability of generating tokens that are already
    /// present in the generated text respectively prompt. Presence penalty is independent of the
    /// number of occurrences. Increase the value to reduce the probability of repeating text.
    pub presence_penalty: Option<Number>,
    /// Use this to control the logarithmic probabilities you want to have returned. This is useful
    /// to figure out how likely it had been that this specific token had been sampled.
    pub logprobs: Logprobs,
}

impl ChatParams {
    /// The parameters of a request that sets none.
    pub open spec fn unset() -> ChatParams {
        ChatParams {
            max_tokens: None,
            temperature: None,
            top_p: None,
            frequency_penalty: None,
            presence_penalty: None,
            logprobs: Logprobs::No,
        }
    }
}

impl Default for ChatParams {
    fn default() -> (params: ChatParams)
        ensures
            params == ChatParams::unset(),
    {
        ChatParams {
            max_tokens: None,
            temperature: None,
            top_p: None,
            frequency_penalty: None,
            presence_penalty: None,
            logprobs: Logprobs::default(),
        }
    }
}

/// The messages of `messages`, in order.
pub open spec fn conversation(messages: Seq<Message>) -> Seq<MessageView> {
    messages.map_values(|message: Message| message@)
}

/// What a [`ChatRequest`] holds.
pub struct ChatRequestView {
    pub model: Seq<char>,
    pub messages: Seq<MessageView>,
    pub params: ChatParams,
}

/// A conversation for a model to continue.
#[derive(Clone, Debug)]
pub struct ChatRequest {
    pub model: String,
    pub messages: Vec<Message>,
    pub params: ChatParams,
}

impl View for ChatRequest {
    type V = ChatRequestView;

    open spec fn view(&self) -> ChatRequestView {
        ChatRequestView {
            model: self.model@,
            messages: conversation(self.messages@),
            params: self.params,
        }
    }
}

impl ChatRequest {
    /// The request to answer `message` with `model`, with default parameters.
    pub fn new(model: &str, message: Message) -> (request: ChatRequest)
        ensures
            request@ == (ChatRequestView {
                model: model@,
                messages: seq![message@],
                params: ChatParams::unset(),
            }),
    {
        let request = ChatRequest {
            model: model.to_owned(),
            messages: vec![message],
            params: ChatParams::default(),
        };
        assert(conversation(request.messages@) =~= seq![message@]);
        request
    }

    /// The same request with `message` added at the end of the conversation.
    #[must_use]
    pub fn and_message(self, message: Message) -> (request: ChatRequest)
        ensures
            request@ == (ChatRequestView { messages: self@.messages.push(message@), ..self@ }),
    {
        let mut request = self;
        request.messages.push(message);
        assert(conversation(request.messages@) =~= self@.messages.push(message@));
        request
    }

    /// The same request with the parameters replaced.
    #[must_use]
    pub fn with_params(self, params: ChatParams) -> (request: ChatRequest)
        ensures
            request@ == (ChatRequestView { params, ..self@ }),
    {
        let mut request = self;
        request.params = params;
        request
    }
}

/// What a [`ChatResponse`] holds.
pub struct ChatResponseView {
    pub message: MessageView,
    pub finish_reason: FinishReason,
    pub logprobs: Seq<DistributionView>,
    pub usage: TokenUsage,
}

/// The answer of a model to a conversation.
#[derive(Clone, Debug)]
pub struct ChatResponse {
    /// The message generated by the model
    pub message: Message,
    /// The reason the model finished generating
    pub finish_reason: FinishReason,
    /// Contains the logprobs for the sampled and top n tokens, given that
    /// `completion-request.params.logprobs` has been set to `sampled` or `top`.
    pub logprobs: Vec<Distribution>,
    /// Usage statistics for the completion request.
    pub usage: TokenUsage,
}

impl View for ChatResponse {
    type V = ChatResponseView;

    open spec fn view(&self) -> ChatResponseView {
        ChatResponseView {
            message: self.message@,
            finish_reason: self.finish_reason,
            logprobs: self.logprobs@.map_values(|distribution: Distribution| distribution@),
            usage: self.usage,
        }
    }
}

} // verus!
