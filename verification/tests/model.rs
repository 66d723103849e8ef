use smartcat::model::{clone_messages, clone_optional_text, ApiConfig, Message, Prompt, ProviderTag, Role};

#[test]
fn message_builders_set_the_role() {
    assert_eq!(Message::system("s"), Message { role: Role::System, content: "s".to_string() });
    assert_eq!(Message::user("u"), Message { role: Role::User, content: "u".to_string() });
    assert_eq!(Message::assistant("a"), Message { role: Role::Assistant, content: "a".to_string() });
    assert_eq!(Message::new(Role::User, ""), Message { role: Role::User, content: String::new() });
}

#[test]
fn clones_are_equal_and_independent() {
    let m = Message::user("hello");
    let mut copy = m.clone();
    assert_eq!(copy, m);
    copy.content.push('!');
    assert_eq!(m.content, "hello");

    let p = Prompt {
        provider: ProviderTag::Groq,
        model: Some("m".to_string()),
        messages: vec![Message::system("a"), Message::user("b")],
        stream: Some(true),
        char_limit: Some(3),
    };
    assert_eq!(p.clone(), p);

    let c = ApiConfig {
        url: "u".to_string(),
        api_key: None,
        default_model: Some("d".to_string()),
        version: None,
    };
    assert_eq!(c.clone(), c);
    assert_eq!(clone_messages(&p.messages), p.messages);
    assert_eq!(clone_optional_text(&p.model), p.model);
    assert_eq!(clone_optional_text(&None), None);
}
