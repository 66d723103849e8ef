//! Request adapters: from a prompt to the headers and the payload that a
//! provider expects.

use crate::adapter::Adapter;
use crate::error::ConfigField;
use crate::json::{json_quoted, quote};
use crate::model::{
    clone_messages, message_views, ApiConfig, ApiConfigView, Message, MessageView, Prompt,
    PromptView, Role,
};
use vstd::prelude::*;
use vstd::string::StringExecFns;

verus! {

/// One HTTP header.
#[derive(Debug, PartialEq, Eq)]
pub struct Header {
    pub name: String,
    pub value: String,
}

/// The mathematical value of a [`Header`].
pub struct HeaderView {
    pub name: Seq<char>,
    pub value: Seq<char>,
}

impl View for Header {
    type V = HeaderView;

    open spec fn view(&self) -> HeaderView {
        HeaderView { name: self.name@, value: self.value@ }
    }
}

impl Header {
    /// A header with the given name and value.
    pub fn new(name: &str, value: &str) -> (header: Header)
        ensures
            header@ == (HeaderView { name: name@, value: value@ }),
    {
        Header { name: name.to_owned(), value: value.to_owned() }
    }
}

/// The body of a chat request, before it is written as JSON.
#[derive(Debug, PartialEq, Eq)]
pub struct Payload {
    pub model: String,
    pub messages: Vec<Message>,
    pub stream: bool,
}

/// The mathematical value of a [`Payload`].
pub struct PayloadView {
    pub model: Seq<char>,
    pub messages: Seq<MessageView>,
    pub stream: bool,
}

impl View for Payload {
    type V = PayloadView;

    open spec fn view(&self) -> PayloadView {
        PayloadView {
            model: self.model@,
            messages: message_views(self.messages@),
            stream: self.stream,
        }
    }
}

/// The name of a role on the wire.
pub open spec fn role_name(role: Role) -> Seq<char> {
    match role {
        Role::System => "system"@,
        Role::User => "user"@,
        Role::Assistant => "assistant"@,
    }
}

/// One message as a JSON object: `{"role":"..","content":".."}`.
pub open spec fn message_json(message: MessageView) -> Option<Seq<char>> {
    match json_quoted(message.content) {
        Some(content) => Some(
            "{\"role\":\""@ + role_name(message.role) + "\",\"content\":"@ + content + "}"@,
        ),
        None => None,
    }
}

/// The messages as JSON objects, in their order, with a comma between two.
pub open spec fn messages_json(messages: Seq<MessageView>) -> Option<Seq<char>>
    decreases messages.len(),
{
    if messages.len() == 0 {
        Some(Seq::empty())
    } else {
        match (messages_json(messages.drop_last()), message_json(messages.last())) {
            (Some(before), Some(last)) => Some(
                if messages.len() == 1 {
                    last
                } else {
                    before + ","@ + last
                },
            ),
            _ => None,
        }
    }
}

/// The text of a streaming flag.
pub open spec fn flag_json(flag: bool) -> Seq<char> {
    if flag {
        "true"@
    } else {
        "false"@
    }
}

/// A payload as a JSON object: `{"model":"..","messages":[..],"stream":..}`.
pub open spec fn payload_json(payload: PayloadView) -> Option<Seq<char>> {
    match (json_quoted(payload.model), messages_json(payload.messages)) {
        (Some(model), Some(messages)) => Some(
            "{\"model\":"@ + model + ",\"messages\":["@ + messages + "],\"stream\":"@ + flag_json(
                payload.stream,
            ) + "}"@,
        ),
        _ => None,
    }
}

impl Role {
    /// The name of the role on the wire.
    pub fn name(&self) -> (name: &'static str)
        ensures
            name@ == role_name(*self),
    {
        match self {
            Role::System => "system",
            Role::User => "user",
            Role::Assistant => "assistant",
        }
    }
}

impl Message {
    /// Writes the message as a JSON object.
    pub fn to_json(&self) -> (text: Option<String>)
        ensures
            match text {
                Some(t) => message_json(self@) == Some(t@),
                None => message_json(self@) is None,
            },
    {
        let content = match quote(self.content.as_str()) {
            Some(content) => content,
            None => return None,
        };
        let mut text = "{\"role\":\"".to_owned();
        text.append(self.role.name());
        text.append("\",\"content\":");
        text.append(content.as_str());
        text.append("}");
        Some(text)
    }
}

impl Payload {
    /// Writes the payload as the JSON text that is sent as the request's body.
    pub fn to_json(&self) -> (text: Option<String>)
        ensures
            match text {
                Some(t) => payload_json(self@) == Some(t@),
                None => payload_json(self@) is None,
            },
    {
        let model = match quote(self.model.as_str()) {
            Some(model) => model,
            None => return None,
        };
        let ghost views = message_views(self.messages@);
        let mut list = String::new();
        let mut i: usize = 0;
        while i < self.messages.len()
            invariant
                i <= self.messages.len(),
                views == message_views(self.messages@),
                messages_json(views.take(i as int)) == Some(list@),
            decreases self.messages.len() - i,
        {
            proof {
                let next = views.take(i + 1);
                assert(next.drop_last() =~= views.take(i as int));
                assert(next.last() == self.messages[i as int]@);
            }
            let item = match self.messages[i].to_json() {
                Some(item) => item,
                None => {
                    proof {
                        lemma_messages_json_none(views, i + 1);
                    }
                    return None;
                },
            };
            if i > 0 {
                list.append(",");
            }
            list.append(item.as_str());
            i += 1;
        }
        assert(views.take(self.messages.len() as int) =~= views);
        let mut text = "{\"model\":".to_owned();
        text.append(model.as_str());
        text.append(",\"messages\":[");
        text.append(list.as_str());
        text.append("],\"stream\":");
        text.append(if self.stream { "true" } else { "false" });
        text.append("}");
        Some(text)
    }
}

/// Messages that cannot be written up to some point cannot be written as a
/// whole either.
proof fn lemma_messages_json_none(messages: Seq<MessageView>, upto: int)
    requires
        0 <= upto <= messages.len(),
        messages_json(messages.take(upto)) is None,
    ensures
        messages_json(messages) is None,
    decreases messages.len() - upto,
{
    if upto < messages.len() {
        let next = messages.take(upto + 1);
        assert(next.drop_last() =~= messages.take(upto));
        lemma_messages_json_none(messages, upto + 1);
    } else {
        assert(messages.take(upto) =~= messages);
    }
}

/// All that is needed to send one request: where to, under which headers,
/// with which payload.
#[derive(Debug, PartialEq, Eq)]
pub struct ProviderRequest {
    pub url: String,
    pub headers: Vec<Header>,
    pub payload: Payload,
}

/// The mathematical value of a [`ProviderRequest`].
pub struct RequestView {
    pub url: Seq<char>,
    pub headers: Seq<HeaderView>,
    pub payload: PayloadView,
}

/// The values of a sequence of headers, in the same order.
pub open spec fn header_views(headers: Seq<Header>) -> Seq<HeaderView> {
    headers.map_values(|h: Header| h@)
}

impl View for ProviderRequest {
    type V = RequestView;

    open spec fn view(&self) -> RequestView {
        RequestView {
            url: self.url@,
            headers: header_views(self.headers@),
            payload: self.payload@,
        }
    }
}

/// The header that every request carries.
pub open spec fn content_type_header() -> HeaderView {
    HeaderView { name: "Content-Type"@, value: "application/json"@ }
}

/// The header that carries a bearer token.
pub open spec fn bearer_header(key: Seq<char>) -> HeaderView {
    HeaderView { name: "Authorization"@, value: "Bearer "@ + key }
}

/// The header that carries a key by itself.
pub open spec fn key_header(key: Seq<char>) -> HeaderView {
    HeaderView { name: "x-api-key"@, value: key }
}

/// The header that names the protocol version.
pub open spec fn version_header(version: Seq<char>) -> HeaderView {
    HeaderView { name: "anthropic-version"@, value: version }
}

/// The headers of a request, or the setting whose absence forbids it. The key
/// is looked for before the version.
pub open spec fn headers_of(adapter: Adapter, config: ApiConfigView) -> Result<
    Seq<HeaderView>,
    ConfigField,
> {
    match adapter {
        Adapter::OpenAiCompatible => match config.api_key {
            None => Err(ConfigField::ApiKey),
            Some(key) => Ok(seq![content_type_header(), bearer_header(key)]),
        },
        Adapter::Ollama => Ok(seq![content_type_header()]),
        Adapter::Anthropic => match config.api_key {
            None => Err(ConfigField::ApiKey),
            Some(key) => match config.version {
                None => Err(ConfigField::Version),
                Some(version) => Ok(
                    seq![content_type_header(), key_header(key), version_header(version)],
                ),
            },
        },
    }
}

/// The payload of a prompt: its model, its messages as they stand, and the
/// streaming flag, off where the prompt leaves it open.
pub open spec fn payload_of(prompt: PromptView) -> Result<PayloadView, ConfigField> {
    match prompt.model {
        None => Err(ConfigField::Model),
        Some(model) => Ok(
            PayloadView {
                model,
                messages: prompt.messages,
                stream: prompt.stream == Some(true),
            },
        ),
    }
}

/// The request of a prompt, or the first setting found missing: the key, then
/// the version, then the model.
pub open spec fn request_of(adapter: Adapter, config: ApiConfigView, prompt: PromptView) -> Result<
    RequestView,
    ConfigField,
> {
    match headers_of(adapter, config) {
        Err(field) => Err(field),
        Ok(headers) => match payload_of(prompt) {
            Err(field) => Err(field),
            Ok(payload) => Ok(RequestView { url: config.url, headers, payload }),
        },
    }
}

/// The value of a header set or of the setting that it lacks.
pub open spec fn headers_outcome(outcome: Result<Vec<Header>, ConfigField>) -> Result<
    Seq<HeaderView>,
    ConfigField,
> {
    match outcome {
        Ok(headers) => Ok(header_views(headers@)),
        Err(field) => Err(field),
    }
}

/// The value of a payload or of the setting that it lacks.
pub open spec fn payload_outcome(outcome: Result<Payload, ConfigField>) -> Result<
    PayloadView,
    ConfigField,
> {
    match outcome {
        Ok(payload) => Ok(payload@),
        Err(field) => Err(field),
    }
}

/// The value of a request or of the setting that it lacks.
pub open spec fn request_outcome(outcome: Result<ProviderRequest, ConfigField>) -> Result<
    RequestView,
    ConfigField,
> {
    match outcome {
        Ok(request) => Ok(request@),
        Err(field) => Err(field),
    }
}

impl Adapter {
    /// Builds the headers of a request to this family of providers.
    pub fn headers(&self, config: &ApiConfig) -> (outcome: Result<Vec<Header>, ConfigField>)
        ensures
            headers_outcome(outcome) == headers_of(*self, config@),
    {
        let mut headers: Vec<Header> = Vec::new();
        headers.push(Header::new("Content-Type", "application/json"));
        match self {
            Adapter::OpenAiCompatible => {
                let key = match &config.api_key {
                    Some(key) => key,
                    None => return Err(ConfigField::ApiKey),
                };
                let token = "Bearer ".to_owned().concat(key.as_str());
                headers.push(Header { name: "Authorization".to_owned(), value: token });
            },
            Adapter::Ollama => {},
            Adapter::Anthropic => {
                let key = match &config.api_key {
                    Some(key) => key,
                    None => return Err(ConfigField::ApiKey),
                };
                let version = match &config.version {
                    Some(version) => version,
                    None => return Err(ConfigField::Version),
                };
                headers.push(Header::new("x-api-key", key.as_str()));
                headers.push(Header::new("anthropic-version", version.as_str()));
            },
        }
        assert(header_views(headers@) =~= headers_of(*self, config@)->Ok_0);
        Ok(headers)
    }
}

/// Builds the payload of a prompt.
pub fn payload(prompt: &Prompt) -> (outcome: Result<Payload, ConfigField>)
    ensures
        payload_outcome(outcome) == payload_of(prompt@),
{
    let model = match &prompt.model {
        Some(model) => model.clone(),
        None => return Err(ConfigField::Model),
    };
    let stream = match prompt.stream {
        Some(stream) => stream,
        None => false,
    };
    Ok(Payload { model, messages: clone_messages(&prompt.messages), stream })
}

impl Adapter {
    /// Builds the request that carries a prompt to this family of providers.
    pub fn build_request(&self, config: &ApiConfig, prompt: &Prompt) -> (outcome: Result<
        ProviderRequest,
        ConfigField,
    >)
        ensures
            request_outcome(outcome) == request_of(*self, config@, prompt@),
    {
        let headers = match self.headers(config) {
            Ok(headers) => headers,
            Err(field) => return Err(field),
        };
        let payload = match payload(prompt) {
            Ok(payload) => payload,
            Err(field) => return Err(field),
        };
        Ok(ProviderRequest { url: config.url.clone(), headers, payload })
    }
}

} // verus!
