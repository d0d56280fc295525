//! The prompt format of the Llama 3 instruct models.
use vstd::prelude::*;

verus! {

/// Who speaks in a message.
#[derive(Debug, Clone, Copy, PartialEq, Eq)]
pub enum Role {
    System,
    User,
    IPython,
    Assistant,
}

impl Role {
    /// The name of the role as it stands in a prompt.
    pub open spec fn name(self) -> Seq<char> {
        match self {
            Role::System => "system"@,
            Role::User => "user"@,
            Role::IPython => "ipython"@,
            Role::Assistant => "assistant"@,
        }
    }

    /// The name of the role as it stands in a prompt.
    pub fn as_str(&self) -> (name: &'static str)
        ensures
            name@ == self.name(),
    {
        match self {
            Role::System => "system",
            Role::User => "user",
            Role::IPython => "ipython",
            Role::Assistant => "assistant",
        }
    }

    /// The name of the role, as an owned string.
    pub fn to_string(&self) -> (name: String)
        ensures
            name@ == self.name(),
    {
        self.as_str().to_owned()
    }
}

/// What a [`Message`] holds.
pub struct MessageView {
    pub role: Role,
    pub message: Seq<char>,
}

impl MessageView {
    /// The message as it stands in a prompt: a header with the role, an
    /// empty line, the text, and the mark that ends a turn.
    pub open spec fn rendered(self) -> Seq<char> {
        "<|start_header_id|>"@ + self.role.name() + "<|end_header_id|>"@ + "\n\n"@ + self.message
            + "<|eot_id|>"@
    }
}

/// What a role says.
#[derive(Debug, Clone, PartialEq, Eq)]
pub struct Message {
    role: Role,
    message: String,
}

impl View for Message {
    type V = MessageView;

    closed spec fn view(&self) -> MessageView {
        MessageView { role: self.role, message: self.message@ }
    }
}

impl Message {
    /// The message that `role` says `message`.
    #[must_use]
    pub fn new(role: Role, message: &str) -> (said: Message)
        ensures
            said@ == (MessageView { role, message: message@ }),
    {
        Message { role, message: message.to_owned() }
    }

    /// A message of the system.
    #[must_use]
    pub fn system(message: &str) -> (said: Message)
        ensures
            said@ == (MessageView { role: Role::System, message: message@ }),
    {
        Message::new(Role::System, message)
    }

    /// A message of the user.
    #[must_use]
    pub fn user(message: &str) -> (said: Message)
        ensures
            said@ == (MessageView { role: Role::User, message: message@ }),
    {
        Message::new(Role::User, message)
    }

    /// A message of the code interpreter.
    #[must_use]
    pub fn ipython(message: &str) -> (said: Message)
        ensures
            said@ == (MessageView { role: Role::IPython, message: message@ }),
    {
        Message::new(Role::IPython, message)
    }

    /// A message of the assistant.
    #[must_use]
    pub fn assistant(message: &str) -> (said: Message)
        ensures
            said@ == (MessageView { role: Role::Assistant, message: message@ }),
    {
        Message::new(Role::Assistant, message)
    }

    /// Who speaks.
    #[must_use]
    pub fn role(&self) -> (role: Role)
        ensures
            role == self@.role,
    {
        self.role
    }

    /// What is said.
    #[must_use]
    pub fn message(&self) -> (message: &str)
        ensures
            message@ == self@.message,
    {
        self.message.as_str()
    }

    /// The message as it stands in a prompt.
    pub fn to_string(&self) -> (text: String)
        ensures
            text@ == self@.rendered(),
    {
        let mut text = "<|start_header_id|>".to_owned();
        text.append(self.role.as_str());
        text.append("<|end_header_id|>");
        text.append("\n\n");
        text.append(self.message.as_str());
        text.append("<|eot_id|>");
        text
    }
}

/// The messages of `messages`, in order.
pub open spec fn messages_view(messages: Seq<Message>) -> Seq<MessageView> {
    messages.map_values(|message: Message| message@)
}

/// The messages as they stand in a prompt, one after the other.
pub open spec fn rendered_messages(messages: Seq<MessageView>) -> Seq<char>
    decreases messages.len(),
{
    if messages.len() == 0 {
        Seq::empty()
    } else {
        rendered_messages(messages.drop_last()) + messages.last().rendered()
    }
}

/// The prompt that holds `messages`: the mark that begins a text, the
/// messages, and the header of the assistant's answer, which the model is to
/// write.
pub open spec fn rendered_prompt(messages: Seq<MessageView>) -> Seq<char> {
    "<|begin_of_text|>"@ + rendered_messages(messages)
        + "<|start_header_id|>assistant<|end_header_id|>"@
}

/// A conversation to hand to the model. It starts with a message of the
/// system.
pub struct Prompt {
    messages: Vec<Message>,
}

impl View for Prompt {
    type V = Seq<MessageView>;

    closed spec fn view(&self) -> Seq<MessageView> {
        messages_view(self.messages@)
    }
}

impl Prompt {
    /// The prompt that holds the message `system` of the system and nothing
    /// else.
    #[must_use]
    pub fn new(system: &str) -> (prompt: Prompt)
        ensures
            prompt@ == seq![MessageView { role: Role::System, message: system@ }],
    {
        let system = Message::system(system);
        let messages = vec![system];
        assert(messages_view(messages@) =~= seq![system@]);
        Prompt { messages }
    }

    /// The same prompt with `message` at its end.
    #[must_use]
    pub fn with_message(self, message: Message) -> (prompt: Prompt)
        ensures
            prompt@ == self@.push(message@),
    {
        let mut prompt = self;
        prompt.push(message);
        prompt
    }

    /// The same prompt with a message of the user at its end.
    #[must_use]
    pub fn with_user_message(self, message: &str) -> (prompt: Prompt)
        ensures
            prompt@ == self@.push(MessageView { role: Role::User, message: message@ }),
    {
        let message = Message::user(message);
        self.with_message(message)
    }

    /// The same prompt with a message of the code interpreter at its end.
    #[must_use]
    pub fn with_ipython_message(self, message: &str) -> (prompt: Prompt)
        ensures
            prompt@ == self@.push(MessageView { role: Role::IPython, message: message@ }),
    {
        let message = Message::ipython(message);
        self.with_message(message)
    }

    /// The same prompt with a message of the assistant at its end.
    #[must_use]
    pub fn with_assistant_message(self, message: &str) -> (prompt: Prompt)
        ensures
            prompt@ == self@.push(MessageView { role: Role::Assistant, message: message@ }),
    {
        let message = Message::assistant(message);
        self.with_message(message)
    }

    /// The same prompt with `messages` at its end, in their order.
    #[must_use]
    pub fn with_messages(self, messages: Vec<Message>) -> (prompt: Prompt)
        ensures
            prompt@ == self@ + messages_view(messages@),
    {
        let mut prompt = self;
        prompt.extend(messages);
        prompt
    }

    /// Puts `message` at the end of the prompt.
    pub fn push(&mut self, message: Message)
        ensures
            final(self)@ == old(self)@.push(message@),
    {
        self.messages.push(message);
        assert(messages_view(self.messages@) =~= messages_view(old(self).messages@).push(
            message@,
        ));
    }

    /// Puts `messages` at the end of the prompt, in their order.
    pub fn extend(&mut self, messages: Vec<Message>)
        ensures
            final(self)@ == old(self)@ + messages_view(messages@),
    {
        let mut messages = messages;
        let ghost added = messages@;
        self.messages.append(&mut messages);
        assert(messages_view(self.messages@) =~= messages_view(old(self).messages@)
            + messages_view(added));
    }

    /// The prompt as the model takes it.
    pub fn to_string(&self) -> (text: String)
        ensures
            text@ == rendered_prompt(self@),
    {
        let mut text = "<|begin_of_text|>".to_owned();
        let mut i: usize = 0;
        while i < self.messages.len()
            invariant
                i <= self.messages.len(),
                text@ == "<|begin_of_text|>"@ + rendered_messages(self@.take(i as int)),
            decreases self.messages.len() - i,
        {
            let message = self.messages[i].to_string();
            proof {
                let before = self@.take(i as int);
                let after = self@.take(i + 1);
                assert(after.drop_last() =~= before);
                assert(after.last() == self.messages[i as int]@);
                assert(("<|begin_of_text|>"@ + rendered_messages(before)) + message@
                    =~= "<|begin_of_text|>"@ + rendered_messages(after));
            }
            text.append(message.as_str());
            i += 1;
        }
        assert(self@.take(i as int) =~= self@);
        text.append("<|start_header_id|>assistant<|end_header_id|>");
        text
    }
}

} // verus!
