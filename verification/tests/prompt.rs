use pharia_skill::prompt::llama3_instruct::{Message, Prompt, Role};

#[test]
fn llama3_message() {
    let message = Message::system(
        "Cutting Knowledge Date: December 2023
Today Date: 23 Jul 2024

You are a helpful assistant",
    );
    let expected = "<|start_header_id|>system<|end_header_id|>

Cutting Knowledge Date: December 2023
Today Date: 23 Jul 2024

You are a helpful assistant<|eot_id|>";
    assert_eq!(message.to_string(), expected);
}

#[test]
fn llama3_instruct_prompt() {
    let llama3prompt = Prompt::new(
        "Cutting Knowledge Date: December 2023
Today Date: 23 Jul 2024

You are a helpful assistant",
    )
    .with_message(Message::user("What is the capital for France?"));
    let expected = "<|begin_of_text|><|start_header_id|>system<|end_header_id|>

Cutting Knowledge Date: December 2023
Today Date: 23 Jul 2024

You are a helpful assistant<|eot_id|><|start_header_id|>user<|end_header_id|>

What is the capital for France?<|eot_id|><|start_header_id|>assistant<|end_header_id|>";
    assert_eq!(llama3prompt.to_string(), expected);
}

#[test]
fn roles_have_their_names() {
    assert_eq!(Role::System.to_string(), "system");
    assert_eq!(Role::User.to_string(), "user");
    assert_eq!(Role::IPython.to_string(), "ipython");
    assert_eq!(Role::Assistant.as_str(), "assistant");
}

#[test]
fn prompt_messages_know_their_role_and_text() {
    let message = Message::new(Role::IPython, "4");
    assert_eq!(message.role(), Role::IPython);
    assert_eq!(message.message(), "4");
    assert_eq!(message, Message::ipython("4"));
    assert_eq!(Message::user("hi").role(), Role::User);
    assert_eq!(Message::assistant("hi").role(), Role::Assistant);
    assert_eq!(Message::system("hi").role(), Role::System);
    assert_eq!(
        Message::ipython("4").to_string(),
        "<|start_header_id|>ipython<|end_header_id|>\n\n4<|eot_id|>"
    );
    assert_eq!(
        Message::assistant("").to_string(),
        "<|start_header_id|>assistant<|end_header_id|>\n\n<|eot_id|>"
    );
}

#[test]
fn prompt_grows_at_its_end() {
    let built = Prompt::new("s")
        .with_user_message("u")
        .with_assistant_message("a")
        .with_ipython_message("i");
    let expected = "<|begin_of_text|>\
<|start_header_id|>system<|end_header_id|>\n\ns<|eot_id|>\
<|start_header_id|>user<|end_header_id|>\n\nu<|eot_id|>\
<|start_header_id|>assistant<|end_header_id|>\n\na<|eot_id|>\
<|start_header_id|>ipython<|end_header_id|>\n\ni<|eot_id|>\
<|start_header_id|>assistant<|end_header_id|>";
    assert_eq!(built.to_string(), expected);

    let extended = Prompt::new("s").with_messages(vec![
        Message::user("u"),
        Message::assistant("a"),
        Message::ipython("i"),
    ]);
    assert_eq!(extended.to_string(), expected);

    let mut pushed = Prompt::new("s");
    pushed.push(Message::user("u"));
    pushed.extend(vec![Message::assistant("a")]);
    pushed.extend(Vec::new());
    pushed.push(Message::ipython("i"));
    assert_eq!(pushed.to_string(), expected);

    assert_eq!(
        Prompt::new("").to_string(),
        "<|begin_of_text|><|start_header_id|>system<|end_header_id|>\n\n<|eot_id|>\
<|start_header_id|>assistant<|end_header_id|>"
    );
}
