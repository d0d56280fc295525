use pharia_skill::{ChatParams, ChatRequest, Message};
use std::marker::PhantomData;

/// Marker for system message
struct System;
/// Marker for user message
struct User;
/// Marker for assistant message
struct Assistant;

/// Generate a new chat for use with a Llama 3 based model.
#[derive(Debug)]
struct Llama3Chat<LastMessage> {
    messages: Vec<Message>,
    last_message: PhantomData<LastMessage>,
}

impl Llama3Chat<()> {
    fn from_system(content: &str) -> Llama3Chat<System> {
        Llama3Chat {
            messages: vec![Message::system(content)],
            last_message: PhantomData,
        }
    }

    fn from_user(content: &str) -> Llama3Chat<User> {
        Llama3Chat {
            messages: vec![Message::user(content)],
            last_message: PhantomData,
        }
    }
}

impl Llama3Chat<System> {
    fn with_user(mut self, content: &str) -> Llama3Chat<User> {
        self.messages.push(Message::user(content));

        Llama3Chat {
            messages: self.messages,
            last_message: PhantomData,
        }
    }
}

impl Llama3Chat<User> {
    fn with_assistant(mut self, content: &str) -> Llama3Chat<Assistant> {
        self.messages.push(Message::assistant(content));

        Llama3Chat {
            messages: self.messages,
            last_message: PhantomData,
        }
    }
}

impl Llama3Chat<Assistant> {
    fn with_user(mut self, content: &str) -> Llama3Chat<User> {
        self.messages.push(Message::user(content));

        Llama3Chat {
            messages: self.messages,
            last_message: PhantomData,
        }
    }
}

impl From<Llama3Chat<User>> for Vec<Message> {
    fn from(value: Llama3Chat<User>) -> Self {
        value.messages
    }
}

impl From<Llama3Chat<System>> for Vec<Message> {
    fn from(value: Llama3Chat<System>) -> Self {
        value.messages
    }
}

fn new_messages(model: &str, messages: impl Into<Vec<Message>>) -> ChatRequest {
    ChatRequest {
        model: model.into(),
        messages: messages.into(),
        params: ChatParams::default(),
    }
}

#[test]
fn build_up_llama_request_with_system() {
    let chat = Llama3Chat::from_system("You are a helpful assistant")
        .with_user("Who are you?")
        .with_assistant("I'm an AI assistant.")
        .with_user("Nice to meet you");

    let request = new_messages("llama-3.1-8b-instruct", chat);
    assert_eq!(request.messages.len(), 4);
    assert_eq!(request.messages[3].role, "user");
    assert_eq!(request.messages[3].content, "Nice to meet you");
}

#[test]
fn build_up_zeroshot_llama_request() {
    let chat = Llama3Chat::from_user("What is the color of the sky?");

    let request = new_messages("llama-3.1-8b-instruct", chat);
    assert_eq!(request.model, "llama-3.1-8b-instruct");
    assert_eq!(request.messages[0].content, "What is the color of the sky?");
}

#[test]
fn build_up_zeroshot_system_llama_request() {
    let chat = Llama3Chat::from_system(
        "Environment: ipython

Cutting Knowledge Date: December 2023
Today Date: 24 September 2024
<|eot_id|><|start_header_id|>user<|end_header_id|>

Write code to check if number is prime. Use it to verify if number 7 is prime",
    );

    let request = new_messages("llama-3.1-8b-instruct", chat);
    assert_eq!(request.messages.len(), 1);
    assert_eq!(request.messages[0].role, "system");
}

#[test]
fn messages_carry_their_roles() {
    let message = Message::new("tool", "42");
    assert_eq!(message.role, "tool");
    assert_eq!(message.content, "42");
    assert_eq!(Message::user("a").role, "user");
    assert_eq!(Message::assistant("b").role, "assistant");
    assert_eq!(Message::system("c").role, "system");
    assert_eq!(Message::system("c").content, "c");
}
