use smartcat::adapter::{Adapter, AuthScheme};
use smartcat::dispatch::{begin, Step};
use smartcat::error::{ConfigField, DispatchError};
use smartcat::guard::ExecutionMode;
use smartcat::model::{ApiConfig, Message, Prompt, ProviderTag, Role};
use smartcat::request::{payload, Header, Payload, ProviderRequest};

fn config() -> ApiConfig {
    ApiConfig {
        url: "https://api.example.test/v1/chat".to_string(),
        api_key: Some("sk-test".to_string()),
        default_model: Some("default-model".to_string()),
        version: Some("2023-06-01".to_string()),
    }
}

fn conversation() -> Vec<Message> {
    vec![Message::system("be brief"), Message::user("2+2?"), Message::assistant("4"), Message::user("sure?")]
}

fn prompt(provider: ProviderTag) -> Prompt {
    Prompt {
        provider,
        model: Some("gpt-4".to_string()),
        messages: conversation(),
        stream: Some(true),
        char_limit: None,
    }
}

fn sent(provider: ProviderTag) -> ProviderRequest {
    match begin(&config(), &prompt(provider), ExecutionMode::NonInteractive) {
        Step::Send(request) => request,
        other => panic!("expected a request, got {:?}", other),
    }
}

fn header(name: &str, value: &str) -> Header {
    Header { name: name.to_string(), value: value.to_string() }
}

#[test]
fn select_maps_each_provider_to_its_family() {
    assert_eq!(Adapter::select(ProviderTag::OpenAI), Ok(Adapter::OpenAiCompatible));
    assert_eq!(Adapter::select(ProviderTag::Mistral), Ok(Adapter::OpenAiCompatible));
    assert_eq!(Adapter::select(ProviderTag::Groq), Ok(Adapter::OpenAiCompatible));
    assert_eq!(Adapter::select(ProviderTag::Ollama), Ok(Adapter::Ollama));
    assert_eq!(Adapter::select(ProviderTag::Anthropic), Ok(Adapter::Anthropic));
    assert_eq!(Adapter::select(ProviderTag::TestOnly), Err(DispatchError::UnsupportedProvider));
}

#[test]
fn each_family_has_one_auth_scheme() {
    assert_eq!(Adapter::OpenAiCompatible.scheme(), AuthScheme::Bearer);
    assert_eq!(Adapter::Ollama.scheme(), AuthScheme::Anonymous);
    assert_eq!(Adapter::Anthropic.scheme(), AuthScheme::KeyHeader);
}

#[test]
fn openai_family_sends_bearer_token() {
    for provider in [ProviderTag::OpenAI, ProviderTag::Mistral, ProviderTag::Groq] {
        let request = sent(provider);
        assert_eq!(request.url, "https://api.example.test/v1/chat");
        assert_eq!(
            request.headers,
            vec![
                header("Content-Type", "application/json"),
                header("Authorization", "Bearer sk-test"),
            ]
        );
    }
}

#[test]
fn ollama_sends_no_credential() {
    let request = sent(ProviderTag::Ollama);
    assert_eq!(request.headers, vec![header("Content-Type", "application/json")]);
}

#[test]
fn anthropic_sends_key_and_version() {
    let request = sent(ProviderTag::Anthropic);
    assert_eq!(
        request.headers,
        vec![
            header("Content-Type", "application/json"),
            header("x-api-key", "sk-test"),
            header("anthropic-version", "2023-06-01"),
        ]
    );
}

#[test]
fn payload_keeps_messages_in_order_and_never_streams() {
    for provider in [
        ProviderTag::OpenAI,
        ProviderTag::Mistral,
        ProviderTag::Groq,
        ProviderTag::Ollama,
        ProviderTag::Anthropic,
    ] {
        let request = sent(provider);
        assert_eq!(
            request.payload,
            Payload { model: "gpt-4".to_string(), messages: conversation(), stream: false }
        );
    }
}

#[test]
fn payload_of_a_prompt_passes_the_stream_flag_through() {
    let mut p = prompt(ProviderTag::OpenAI);
    assert_eq!(payload(&p).map(|x| x.stream), Ok(true));
    p.stream = Some(false);
    assert_eq!(payload(&p).map(|x| x.stream), Ok(false));
    p.stream = None;
    assert_eq!(payload(&p).map(|x| x.stream), Ok(false));
    p.model = None;
    assert_eq!(payload(&p), Err(ConfigField::Model));
}

#[test]
fn headers_report_the_first_missing_setting() {
    let mut c = config();
    c.version = None;
    assert_eq!(Adapter::Anthropic.headers(&c), Err(ConfigField::Version));
    assert!(Adapter::OpenAiCompatible.headers(&c).is_ok());
    c.api_key = None;
    assert_eq!(Adapter::Anthropic.headers(&c), Err(ConfigField::ApiKey));
    assert_eq!(Adapter::OpenAiCompatible.headers(&c), Err(ConfigField::ApiKey));
    assert!(Adapter::Ollama.headers(&c).is_ok());
}

#[test]
fn build_request_reports_key_before_model() {
    let mut c = config();
    c.api_key = None;
    let mut p = prompt(ProviderTag::OpenAI);
    p.model = None;
    assert_eq!(Adapter::OpenAiCompatible.build_request(&c, &p), Err(ConfigField::ApiKey));
    assert_eq!(Adapter::Ollama.build_request(&c, &p), Err(ConfigField::Model));
}

#[test]
fn role_names_on_the_wire() {
    assert_eq!(Role::System.name(), "system");
    assert_eq!(Role::User.name(), "user");
    assert_eq!(Role::Assistant.name(), "assistant");
}

#[test]
fn payload_is_written_as_json() {
    let p = Payload {
        model: "gpt-4".to_string(),
        messages: vec![Message::user("2+2?")],
        stream: false,
    };
    assert_eq!(
        p.to_json(),
        Some(r#"{"model":"gpt-4","messages":[{"role":"user","content":"2+2?"}],"stream":false}"#.to_string())
    );
    let p = Payload { model: "m".to_string(), messages: vec![], stream: true };
    assert_eq!(p.to_json(), Some(r#"{"model":"m","messages":[],"stream":true}"#.to_string()));
    let p = Payload { model: "m".to_string(), messages: conversation(), stream: false };
    assert_eq!(
        p.to_json(),
        Some(
            r#"{"model":"m","messages":[{"role":"system","content":"be brief"},{"role":"user","content":"2+2?"},{"role":"assistant","content":"4"},{"role":"user","content":"sure?"}],"stream":false}"#
                .to_string()
        )
    );
}

#[test]
fn message_json_escapes_its_content() {
    let m = Message::user("say \"hi\"\n\\ tab\there \u{1} é");
    assert_eq!(
        m.to_json(),
        Some(r#"{"role":"user","content":"say \"hi\"\n\\ tab\there \u0001 é"}"#.to_string())
    );
}

#[test]
fn written_payload_reads_back_with_serde_json() {
    let p = Payload {
        model: "a \"model\"".to_string(),
        messages: vec![Message::system("line\nbreak"), Message::user("back\\slash")],
        stream: false,
    };
    let text = p.to_json().unwrap();
    let value: serde_json::Value = serde_json::from_str(&text).unwrap();
    assert_eq!(value["model"].as_str(), Some("a \"model\""));
    assert_eq!(value["stream"].as_bool(), Some(false));
    assert_eq!(value["messages"].as_array().map(|a| a.len()), Some(2));
    assert_eq!(value["messages"][0]["role"].as_str(), Some("system"));
    assert_eq!(value["messages"][0]["content"].as_str(), Some("line\nbreak"));
    assert_eq!(value["messages"][1]["role"].as_str(), Some("user"));
    assert_eq!(value["messages"][1]["content"].as_str(), Some("back\\slash"));
}
