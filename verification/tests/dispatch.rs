use smartcat::dispatch::{begin, complete, prepare, replay, request, resume, Step, Trace};
use smartcat::error::{ConfigField, DispatchError, ResponseField, TransportError};
use smartcat::guard::ExecutionMode;
use smartcat::model::{ApiConfig, Message, Prompt, ProviderTag, Role};
use smartcat::transport::HttpReply;

fn config() -> ApiConfig {
    ApiConfig {
        url: "https://api.example.test/v1/chat".to_string(),
        api_key: Some("sk-test".to_string()),
        default_model: Some("default-model".to_string()),
        version: Some("2023-06-01".to_string()),
    }
}

fn prompt(provider: ProviderTag, content: &str, char_limit: Option<u32>) -> Prompt {
    Prompt {
        provider,
        model: None,
        messages: vec![Message::user(content)],
        stream: None,
        char_limit,
    }
}

fn ok_reply(body: &str) -> HttpReply {
    HttpReply::Response { status: 200, body: Some(body.to_string()) }
}

fn run(
    config: &ApiConfig,
    prompt: &Prompt,
    mode: ExecutionMode,
    answer: &str,
    reply: HttpReply,
) -> (Result<Message, DispatchError>, usize) {
    let Trace { outcome, requests } = replay(config, prompt, mode, answer, reply);
    (outcome, requests)
}

#[test]
fn openai_round_trip() {
    let p = prompt(ProviderTag::OpenAI, "2+2?", None);
    let (outcome, calls) = run(
        &config(),
        &p,
        ExecutionMode::NonInteractive,
        "",
        ok_reply(r#"{"choices":[{"message":{"content":"4"}}]}"#),
    );
    assert_eq!(outcome, Ok(Message { role: Role::Assistant, content: "4".to_string() }));
    assert_eq!(calls, 1);
}

#[test]
fn mistral_and_groq_read_first_choice() {
    for provider in [ProviderTag::Mistral, ProviderTag::Groq] {
        let p = prompt(provider, "hello", None);
        let body = r#"{"id":"x","choices":[{"index":0,"message":{"role":"assistant","content":"first"}},{"index":1,"message":{"role":"assistant","content":"second"}}]}"#;
        let (outcome, calls) =
            run(&config(), &p, ExecutionMode::NonInteractive, "", ok_reply(body));
        assert_eq!(outcome, Ok(Message::assistant("first")));
        assert_eq!(calls, 1);
    }
}

#[test]
fn ollama_reads_top_level_message() {
    let p = prompt(ProviderTag::Ollama, "hello", None);
    let body = r#"{"model":"phi3","message":{"role":"assistant","content":"hi there"},"done":true}"#;
    let (outcome, calls) = run(&config(), &p, ExecutionMode::NonInteractive, "", ok_reply(body));
    assert_eq!(outcome, Ok(Message::assistant("hi there")));
    assert_eq!(calls, 1);
}

#[test]
fn ollama_shape_is_not_the_openai_shape() {
    let p = prompt(ProviderTag::Ollama, "hello", None);
    let body = r#"{"choices":[{"message":{"content":"4"}}]}"#;
    let (outcome, _) = run(&config(), &p, ExecutionMode::NonInteractive, "", ok_reply(body));
    assert_eq!(
        outcome,
        Err(DispatchError::Deserialization {
            provider: ProviderTag::Ollama,
            field: ResponseField::Message,
        })
    );
}

#[test]
fn anthropic_joins_content_blocks() {
    let p = prompt(ProviderTag::Anthropic, "hello", None);
    let body = r#"{"content":[{"type":"text","text":"Hello, "},{"type":"text","text":"world"},{"type":"text","text":"!"}],"role":"assistant"}"#;
    let (outcome, calls) = run(&config(), &p, ExecutionMode::NonInteractive, "", ok_reply(body));
    assert_eq!(outcome, Ok(Message::assistant("Hello, world!")));
    assert_eq!(calls, 1);
}

#[test]
fn anthropic_empty_content_is_empty_text() {
    let p = prompt(ProviderTag::Anthropic, "hello", None);
    let (outcome, _) =
        run(&config(), &p, ExecutionMode::NonInteractive, "", ok_reply(r#"{"content":[]}"#));
    assert_eq!(outcome, Ok(Message::assistant("")));
}

#[test]
fn oversize_prompt_fails_unattended_without_request() {
    let p = prompt(ProviderTag::OpenAI, "12345678901", Some(10));
    let (outcome, calls) = run(
        &config(),
        &p,
        ExecutionMode::NonInteractive,
        "Y",
        ok_reply(r#"{"choices":[{"message":{"content":"4"}}]}"#),
    );
    assert_eq!(outcome, Err(DispatchError::SizeLimitExceeded { total: 11, limit: 10 }));
    assert_eq!(calls, 0);
}

#[test]
fn oversize_prompt_declined_aborts_without_request() {
    let p = prompt(ProviderTag::OpenAI, "12345678901", Some(10));
    assert_eq!(
        begin(&config(), &p, ExecutionMode::Interactive),
        Step::Confirm { total: 11, limit: 10 }
    );
    for answer in ["n", "", "y", "yes", "Y Y", "YY", "no\n"] {
        let (outcome, calls) = run(
            &config(),
            &p,
            ExecutionMode::Interactive,
            answer,
            ok_reply(r#"{"choices":[{"message":{"content":"4"}}]}"#),
        );
        assert_eq!(outcome, Err(DispatchError::UserAborted));
        assert_eq!(calls, 0);
    }
}

#[test]
fn oversize_prompt_confirmed_is_sent() {
    let p = prompt(ProviderTag::OpenAI, "12345678901", Some(10));
    for answer in ["Y", "Y\n", "  Y  \r\n", "\tY"] {
        let (outcome, calls) = run(
            &config(),
            &p,
            ExecutionMode::Interactive,
            answer,
            ok_reply(r#"{"choices":[{"message":{"content":"4"}}]}"#),
        );
        assert_eq!(outcome, Ok(Message::assistant("4")));
        assert_eq!(calls, 1);
    }
}

#[test]
fn prompt_at_the_limit_is_sent_unasked() {
    let p = prompt(ProviderTag::OpenAI, "1234567890", Some(10));
    assert!(matches!(begin(&config(), &p, ExecutionMode::Interactive), Step::Send(_)));
    assert!(matches!(begin(&config(), &p, ExecutionMode::NonInteractive), Step::Send(_)));
}

#[test]
fn disabled_limit_never_triggers() {
    let long = "x".repeat(100_000);
    for limit in [None, Some(0)] {
        for mode in [ExecutionMode::Interactive, ExecutionMode::NonInteractive] {
            let p = prompt(ProviderTag::OpenAI, &long, limit);
            assert!(matches!(begin(&config(), &p, mode), Step::Send(_)));
        }
    }
}

#[test]
fn test_only_provider_is_unsupported() {
    let p = prompt(ProviderTag::TestOnly, "hello", None);
    let (outcome, calls) = run(
        &config(),
        &p,
        ExecutionMode::NonInteractive,
        "",
        ok_reply(r#"{"choices":[{"message":{"content":"4"}}]}"#),
    );
    assert_eq!(outcome, Err(DispatchError::UnsupportedProvider));
    assert_eq!(calls, 0);
    assert_eq!(request(&config(), &p), Step::Stop(DispatchError::UnsupportedProvider));
    assert_eq!(
        complete(ProviderTag::TestOnly, ok_reply(r#"{"choices":[{"message":{"content":"4"}}]}"#)),
        Err(DispatchError::UnsupportedProvider)
    );
}

#[test]
fn size_guard_comes_before_provider_selection() {
    let p = prompt(ProviderTag::TestOnly, "12345678901", Some(10));
    assert_eq!(
        begin(&config(), &p, ExecutionMode::NonInteractive),
        Step::Stop(DispatchError::SizeLimitExceeded { total: 11, limit: 10 })
    );
    assert_eq!(resume(&config(), &p, "Y"), Step::Stop(DispatchError::UnsupportedProvider));
}

#[test]
fn anthropic_without_version_is_missing_config() {
    let mut c = config();
    c.version = None;
    let p = prompt(ProviderTag::Anthropic, "hello", None);
    let (outcome, calls) = run(
        &c,
        &p,
        ExecutionMode::NonInteractive,
        "",
        ok_reply(r#"{"content":[{"text":"hi"}]}"#),
    );
    assert_eq!(outcome, Err(DispatchError::MissingRequiredConfig(ConfigField::Version)));
    assert_eq!(calls, 0);
}

#[test]
fn missing_key_and_model_are_missing_config() {
    let p = prompt(ProviderTag::OpenAI, "hello", None);
    let mut c = config();
    c.api_key = None;
    assert_eq!(
        begin(&c, &p, ExecutionMode::NonInteractive),
        Step::Stop(DispatchError::MissingRequiredConfig(ConfigField::ApiKey))
    );
    let mut c = config();
    c.default_model = None;
    assert_eq!(
        begin(&c, &p, ExecutionMode::NonInteractive),
        Step::Stop(DispatchError::MissingRequiredConfig(ConfigField::Model))
    );
    let mut c = config();
    c.api_key = None;
    c.version = None;
    let a = prompt(ProviderTag::Anthropic, "hello", None);
    assert_eq!(
        begin(&c, &a, ExecutionMode::NonInteractive),
        Step::Stop(DispatchError::MissingRequiredConfig(ConfigField::ApiKey))
    );
}

#[test]
fn ollama_needs_no_key_and_no_version() {
    let mut c = config();
    c.api_key = None;
    c.version = None;
    let p = prompt(ProviderTag::Ollama, "hello", None);
    assert!(matches!(begin(&c, &p, ExecutionMode::NonInteractive), Step::Send(_)));
}

#[test]
fn prepare_fills_model_and_forces_no_stream() {
    let mut p = prompt(ProviderTag::OpenAI, "hello", Some(7));
    p.stream = Some(true);
    let ready = prepare(&config(), &p);
    assert_eq!(ready.model, Some("default-model".to_string()));
    assert_eq!(ready.stream, Some(false));
    assert_eq!(ready.messages, p.messages);
    assert_eq!(ready.provider, ProviderTag::OpenAI);
    assert_eq!(ready.char_limit, Some(7));
    assert_eq!(p.model, None);
    assert_eq!(p.stream, Some(true));

    p.model = Some("chosen".to_string());
    let ready = prepare(&config(), &p);
    assert_eq!(ready.model, Some("chosen".to_string()));
}

#[test]
fn status_error_carries_code_and_body() {
    let reply = HttpReply::Response { status: 401, body: Some("denied".to_string()) };
    assert_eq!(
        complete(ProviderTag::OpenAI, reply),
        Err(DispatchError::Transport(TransportError::Status {
            code: 401,
            body: "denied".to_string(),
        }))
    );
}

#[test]
fn connection_error_is_surfaced() {
    let reply = HttpReply::Failure { cause: "dns failure".to_string() };
    assert_eq!(
        complete(ProviderTag::Anthropic, reply),
        Err(DispatchError::Transport(TransportError::Connection {
            cause: "dns failure".to_string(),
        }))
    );
}

#[test]
fn body_that_is_not_json_is_a_deserialization_error() {
    for body in ["", "not json", "{\"choices\":", "{} trailing"] {
        assert_eq!(
            complete(ProviderTag::Groq, ok_reply(body)),
            Err(DispatchError::Deserialization {
                provider: ProviderTag::Groq,
                field: ResponseField::Document,
            })
        );
    }
    let undecodable = HttpReply::Response { status: 200, body: None };
    assert_eq!(
        complete(ProviderTag::Groq, undecodable),
        Err(DispatchError::Deserialization {
            provider: ProviderTag::Groq,
            field: ResponseField::Document,
        })
    );
}

#[test]
fn only_user_abort_is_no_failure() {
    assert!(!DispatchError::UserAborted.is_failure());
    assert!(DispatchError::UnsupportedProvider.is_failure());
    assert!(DispatchError::SizeLimitExceeded { total: 11, limit: 10 }.is_failure());
    assert!(DispatchError::MissingRequiredConfig(ConfigField::Version).is_failure());
    assert!(DispatchError::Transport(TransportError::Connection { cause: String::new() })
        .is_failure());
    assert!(DispatchError::Deserialization {
        provider: ProviderTag::OpenAI,
        field: ResponseField::Choices
    }
    .is_failure());
}

#[test]
fn replay_follows_the_steps() {
    let c = config();
    let body = r#"{"choices":[{"message":{"content":"4"}}]}"#;
    let p = prompt(ProviderTag::OpenAI, "12345678901", Some(10));
    for (mode, answer) in [
        (ExecutionMode::Interactive, "Y"),
        (ExecutionMode::Interactive, "n"),
        (ExecutionMode::NonInteractive, "Y"),
    ] {
        let mut step = begin(&c, &p, mode);
        if let Step::Confirm { .. } = step {
            step = resume(&c, &p, answer);
        }
        let expected = match step {
            Step::Send(_) => Trace { outcome: complete(p.provider, ok_reply(body)), requests: 1 },
            Step::Stop(error) => Trace { outcome: Err(error), requests: 0 },
            Step::Confirm { .. } => unreachable!(),
        };
        assert_eq!(replay(&c, &p, mode, answer, ok_reply(body)), expected);
    }
}

#[test]
fn failed_request_still_counts_as_sent() {
    let p = prompt(ProviderTag::OpenAI, "hello", None);
    let reply = HttpReply::Response { status: 500, body: Some("oops".to_string()) };
    assert_eq!(
        replay(&config(), &p, ExecutionMode::NonInteractive, "", reply),
        Trace {
            outcome: Err(DispatchError::Transport(TransportError::Status {
                code: 500,
                body: "oops".to_string(),
            })),
            requests: 1,
        }
    );
}
