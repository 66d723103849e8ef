//! The provider-agnostic conversation model.

use vstd::prelude::*;

verus! {

/// Who speaks in a turn of the conversation.
#[derive(Clone, Copy, Debug, PartialEq, Eq, Structural)]
pub enum Role {
    System,
    User,
    Assistant,
}

/// The backend a prompt is meant for.
#[derive(Clone, Copy, Debug, PartialEq, Eq, Structural)]
pub enum ProviderTag {
    OpenAI,
    Mistral,
    Groq,
    Ollama,
    Anthropic,
    /// Exists for tests of the surrounding program; never dispatched.
    TestOnly,
}

/// One turn of a conversation.
#[derive(Debug, PartialEq, Eq)]
pub struct Message {
    pub role: Role,
    pub content: String,
}

/// The mathematical value of a [`Message`].
pub struct MessageView {
    pub role: Role,
    pub content: Seq<char>,
}

impl View for Message {
    type V = MessageView;

    open spec fn view(&self) -> MessageView {
        MessageView { role: self.role, content: self.content@ }
    }
}

impl Clone for Message {
    fn clone(&self) -> (copy: Message)
        ensures
            copy@ == self@,
    {
        Message { role: self.role, content: self.content.clone() }
    }
}

impl Message {
    /// A message with the given role and content.
    pub fn new(role: Role, content: &str) -> (message: Message)
        ensures
            message@ == (MessageView { role, content: content@ }),
    {
        Message { role, content: content.to_owned() }
    }

    /// A system instruction.
    pub fn system(content: &str) -> (message: Message)
        ensures
            message@ == (MessageView { role: Role::System, content: content@ }),
    {
        Message::new(Role::System, content)
    }

    /// A turn of the user.
    pub fn user(content: &str) -> (message: Message)
        ensures
            message@ == (MessageView { role: Role::User, content: content@ }),
    {
        Message::new(Role::User, content)
    }

    /// A turn of the model.
    pub fn assistant(content: &str) -> (message: Message)
        ensures
            message@ == (MessageView { role: Role::Assistant, content: content@ }),
    {
        Message::new(Role::Assistant, content)
    }
}

/// The values of a sequence of messages, in the same order.
pub open spec fn message_views(messages: Seq<Message>) -> Seq<MessageView> {
    messages.map_values(|m: Message| m@)
}

/// The value of an optional text.
pub open spec fn optional_text(text: Option<String>) -> Option<Seq<char>> {
    match text {
        Some(t) => Some(t@),
        None => None,
    }
}

/// A copy of an optional text.
pub fn clone_optional_text(text: &Option<String>) -> (copy: Option<String>)
    ensures
        optional_text(copy) == optional_text(*text),
{
    match text {
        Some(t) => Some(t.clone()),
        None => None,
    }
}

/// A copy of a conversation, turn by turn.
pub fn clone_messages(messages: &Vec<Message>) -> (copy: Vec<Message>)
    ensures
        message_views(copy@) == message_views(messages@),
{
    let mut copy: Vec<Message> = Vec::new();
    let mut i: usize = 0;
    while i < messages.len()
        invariant
            i <= messages.len(),
            copy.len() == i,
            forall|k: int| 0 <= k < i ==> copy[k]@ == messages[k]@,
        decreases messages.len() - i,
    {
        copy.push(messages[i].clone());
        i += 1;
    }
    assert(message_views(copy@) =~= message_views(messages@));
    copy
}

/// A conversation to complete, with the settings of the request.
#[derive(Debug, PartialEq, Eq)]
pub struct Prompt {
    pub provider: ProviderTag,
    pub model: Option<String>,
    pub messages: Vec<Message>,
    pub stream: Option<bool>,
    /// Largest total content length accepted without asking; zero or absent
    /// switches the limit off.
    pub char_limit: Option<u32>,
}

/// The mathematical value of a [`Prompt`].
pub struct PromptView {
    pub provider: ProviderTag,
    pub model: Option<Seq<char>>,
    pub messages: Seq<MessageView>,
    pub stream: Option<bool>,
    pub char_limit: Option<u32>,
}

impl View for Prompt {
    type V = PromptView;

    open spec fn view(&self) -> PromptView {
        PromptView {
            provider: self.provider,
            model: optional_text(self.model),
            messages: message_views(self.messages@),
            stream: self.stream,
            char_limit: self.char_limit,
        }
    }
}

impl Clone for Prompt {
    fn clone(&self) -> (copy: Prompt)
        ensures
            copy@ == self@,
    {
        Prompt {
            provider: self.provider,
            model: clone_optional_text(&self.model),
            messages: clone_messages(&self.messages),
            stream: self.stream,
            char_limit: self.char_limit,
        }
    }
}

/// Where a provider is reached and with which credentials.
#[derive(Debug, PartialEq, Eq)]
pub struct ApiConfig {
    pub url: String,
    pub api_key: Option<String>,
    pub default_model: Option<String>,
    /// Protocol version; only Anthropic requires it.
    pub version: Option<String>,
}

/// The mathematical value of an [`ApiConfig`].
pub struct ApiConfigView {
    pub url: Seq<char>,
    pub api_key: Option<Seq<char>>,
    pub default_model: Option<Seq<char>>,
    pub version: Option<Seq<char>>,
}

impl View for ApiConfig {
    type V = ApiConfigView;

    open spec fn view(&self) -> ApiConfigView {
        ApiConfigView {
            url: self.url@,
            api_key: optional_text(self.api_key),
            default_model: optional_text(self.default_model),
            version: optional_text(self.version),
        }
    }
}

impl Clone for ApiConfig {
    fn clone(&self) -> (copy: ApiConfig)
        ensures
            copy@ == self@,
    {
        ApiConfig {
            url: self.url.clone(),
            api_key: clone_optional_text(&self.api_key),
            default_model: clone_optional_text(&self.default_model),
            version: clone_optional_text(&self.version),
        }
    }
}

} // verus!
