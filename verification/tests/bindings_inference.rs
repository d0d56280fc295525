use pharia_skill::bindings::inference;
use pharia_skill::{
    ChatParams, ChatRequest, ChatResponse, Completion, CompletionParams, CompletionRequest,
    Distribution, FinishReason, Logprob, Logprobs, Message, Number, TokenUsage,
};

fn number(value: f64) -> Number {
    Number::from_bits(value.to_bits())
}

#[test]
fn test_completion_request_conversion() {
    let model = "llama-2-7b-chat";
    let prompt = "Hello, world!";
    let max_tokens = Some(10);
    let temperature = Some(number(0.5));
    let top_p = Some(number(0.9));
    let frequency_penalty = Some(number(0.2));
    let presence_penalty = Some(number(0.1));
    let top_k = Some(5);
    let stop = vec![".".to_owned()];
    let return_special_tokens = true;
    let request = CompletionRequest {
        model: model.into(),
        prompt: prompt.into(),
        params: CompletionParams {
            max_tokens,
            temperature,
            top_p,
            frequency_penalty,
            presence_penalty,
            logprobs: Logprobs::No,
            top_k,
            stop: stop.clone(),
            return_special_tokens,
        },
    };

    let converted = inference::CompletionRequest::from(request);

    assert_eq!(
        converted,
        inference::CompletionRequest {
            model: model.into(),
            prompt: prompt.into(),
            params: inference::CompletionParams {
                max_tokens,
                temperature,
                top_p,
                frequency_penalty,
                presence_penalty,
                logprobs: inference::Logprobs::No,
                top_k,
                stop,
                return_special_tokens,
            },
        }
    );
}

#[test]
fn test_completion_response_conversion() {
    let text = "Hello, world!";
    let token = vec![1, 2, 3];
    let logprob = number(-0.3);
    let prompt = 10;
    let completion = 5;
    let response = inference::Completion {
        text: text.into(),
        finish_reason: inference::FinishReason::Stop,
        logprobs: vec![inference::Distribution {
            sampled: inference::Logprob {
                token: token.clone(),
                logprob,
            },
            top: vec![],
        }],
        usage: inference::TokenUsage { prompt, completion },
    };

    let converted = Completion::from(response);

    assert_eq!(
        converted,
        Completion {
            text: text.into(),
            finish_reason: FinishReason::Stop,
            logprobs: vec![Distribution {
                sampled: Logprob { token, logprob },
                top: vec![]
            }],
            usage: TokenUsage { prompt, completion },
        }
    );
}

#[test]
fn numbers_are_held_by_their_bits() {
    assert_eq!(number(0.5).to_bits(), 0x3fe0_0000_0000_0000);
    assert_eq!(f64::from_bits(number(-0.3).to_bits()), -0.3);
    assert_eq!(Number::from_bits(0).bits, 0);
    assert_ne!(number(0.0), number(-0.0));
}

#[test]
fn completion_params_default_to_returning_special_tokens() {
    let params = CompletionParams::default();
    assert!(params.return_special_tokens);
    assert_eq!(params.max_tokens, None);
    assert_eq!(params.temperature, None);
    assert_eq!(params.top_k, None);
    assert_eq!(params.top_p, None);
    assert!(params.stop.is_empty());
    assert_eq!(params.frequency_penalty, None);
    assert_eq!(params.presence_penalty, None);
    assert_eq!(params.logprobs, Logprobs::No);
    assert_eq!(Logprobs::default(), Logprobs::No);

    let request = CompletionRequest::new("llama-3.1-8b-instruct", "Say hello");
    assert_eq!(request.model, "llama-3.1-8b-instruct");
    assert_eq!(request.prompt, "Say hello");
    assert!(request.params.return_special_tokens);
    assert_eq!(request.params.max_tokens, None);

    let request = request.with_params(CompletionParams {
        stop: vec!["<|start_header_id|>".into()],
        max_tokens: Some(10),
        ..Default::default()
    });
    assert_eq!(request.prompt, "Say hello");
    assert_eq!(request.params.max_tokens, Some(10));
    assert_eq!(request.params.stop, vec!["<|start_header_id|>"]);
}

#[test]
fn every_finish_reason_and_logprobs_choice_goes_to_its_counterpart() {
    assert_eq!(
        FinishReason::from(inference::FinishReason::Stop),
        FinishReason::Stop
    );
    assert_eq!(
        FinishReason::from(inference::FinishReason::Length),
        FinishReason::Length
    );
    assert_eq!(
        FinishReason::from(inference::FinishReason::ContentFilter),
        FinishReason::ContentFilter
    );
    assert_eq!(inference::Logprobs::from(Logprobs::No), inference::Logprobs::No);
    assert_eq!(
        inference::Logprobs::from(Logprobs::Sampled),
        inference::Logprobs::Sampled
    );
    assert_eq!(
        inference::Logprobs::from(Logprobs::Top(3)),
        inference::Logprobs::Top(3)
    );
}

#[test]
fn chat_request_goes_to_the_host_with_its_messages_in_order() {
    let request = ChatRequest::new("llama-3.1-8b-instruct", Message::system("Be brief."))
        .and_message(Message::user("Hello, how are you?"))
        .and_message(Message::assistant("Fine."))
        .with_params(ChatParams {
            max_tokens: Some(1),
            logprobs: Logprobs::Top(2),
            ..Default::default()
        });
    assert_eq!(request.messages.len(), 3);
    let converted = inference::ChatRequest::from(request);
    assert_eq!(
        converted,
        inference::ChatRequest {
            model: "llama-3.1-8b-instruct".into(),
            messages: vec![
                inference::Message {
                    role: "system".into(),
                    content: "Be brief.".into()
                },
                inference::Message {
                    role: "user".into(),
                    content: "Hello, how are you?".into()
                },
                inference::Message {
                    role: "assistant".into(),
                    content: "Fine.".into()
                },
            ],
            params: inference::ChatParams {
                max_tokens: Some(1),
                temperature: None,
                top_p: None,
                frequency_penalty: None,
                presence_penalty: None,
                logprobs: inference::Logprobs::Top(2),
            },
        }
    );
}

#[test]
fn chat_response_comes_from_the_host_as_it_is() {
    let response = inference::ChatResponse {
        message: inference::Message {
            role: "assistant".into(),
            content: "Hello".into(),
        },
        finish_reason: inference::FinishReason::Length,
        logprobs: vec![inference::Distribution {
            sampled: inference::Logprob {
                token: vec![72],
                logprob: number(-0.5),
            },
            top: vec![
                inference::Logprob {
                    token: vec![72],
                    logprob: number(-0.5),
                },
                inference::Logprob {
                    token: vec![74],
                    logprob: number(-1.5),
                },
            ],
        }],
        usage: inference::TokenUsage {
            prompt: 4,
            completion: 1,
        },
    };
    let converted = ChatResponse::from(response);
    assert_eq!(converted.message.role, "assistant");
    assert_eq!(converted.message.content, "Hello");
    assert_eq!(converted.finish_reason, FinishReason::Length);
    assert_eq!(
        converted.logprobs,
        vec![Distribution {
            sampled: Logprob {
                token: vec![72],
                logprob: number(-0.5)
            },
            top: vec![
                Logprob {
                    token: vec![72],
                    logprob: number(-0.5)
                },
                Logprob {
                    token: vec![74],
                    logprob: number(-1.5)
                }
            ],
        }]
    );
    assert_eq!(
        converted.usage,
        TokenUsage {
            prompt: 4,
            completion: 1
        }
    );
}

#[test]
fn batches_of_inference_keep_their_order() {
    let requests = inference::completion_requests(vec![
        CompletionRequest::new("m", "one"),
        CompletionRequest::new("m", "two"),
        CompletionRequest::new("m", "three"),
    ]);
    let prompts: Vec<&str> = requests.iter().map(|r| r.prompt.as_str()).collect();
    assert_eq!(prompts, vec!["one", "two", "three"]);

    let completion = |text: &str| inference::Completion {
        text: text.into(),
        finish_reason: inference::FinishReason::Stop,
        logprobs: vec![],
        usage: inference::TokenUsage {
            prompt: 0,
            completion: 0,
        },
    };
    let completions = inference::completions(vec![completion("a"), completion("b")]);
    let texts: Vec<&str> = completions.iter().map(|c| c.text.as_str()).collect();
    assert_eq!(texts, vec!["a", "b"]);

    let chats = inference::chat_requests(vec![
        ChatRequest::new("m", Message::user("x")),
        ChatRequest::new("n", Message::user("y")),
    ]);
    assert_eq!(chats[0].model, "m");
    assert_eq!(chats[1].model, "n");
    assert_eq!(chats[1].messages[0].content, "y");
    assert!(inference::chat_responses(Vec::new()).is_empty());
}
