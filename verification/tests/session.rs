use glossa::config::{Protocol, Provider, RoleBinding, Settings};
use glossa::llm::{ChatMessage, Delta};
use glossa::session::{
    collect_delta, connection_test_outcome, evaluate_probe, forward_delta, plan_chat,
    plan_connection_test, plan_explain, plan_probe, should_store, stream_end, StreamEvent,
    EMPTY_STREAM_MESSAGE,
};
use glossa::templates::{PromptTemplate, TemplateKind};

#[test]
fn probe_reports_missing_fields() {
    let probe = evaluate_probe(
        TemplateKind::Sentence,
        r#"{"translation":"译文"}"#.to_string(),
    );
    assert!(probe.parsed);
    assert_eq!(probe.missing_fields, vec!["structure", "keyPoints"]);
}

#[test]
fn probe_accepts_a_complete_response() {
    let probe = evaluate_probe(
        TemplateKind::Sentence,
        r#"{"translation":"a","structure":"b","keyPoints":[]}"#.to_string(),
    );
    assert!(probe.parsed);
    assert!(probe.missing_fields.is_empty());
}

#[test]
fn probe_strips_code_fences_like_the_real_path_does() {
    let probe = evaluate_probe(
        TemplateKind::Sentence,
        "```json\n{\"translation\":\"a\",\"structure\":\"b\",\"keyPoints\":[]}\n```"
            .to_string(),
    );
    assert!(probe.parsed, "裹了代码块也该判成功: {:?}", probe.raw);
}

#[test]
fn probe_flags_output_that_is_not_json_at_all() {
    let probe = evaluate_probe(TemplateKind::Word, "take on 的意思是承担。".to_string());
    assert!(!probe.parsed);
    assert_eq!(probe.missing_fields.len(), 7);
}

#[test]
fn chat_probe_has_no_contract() {
    let probe = evaluate_probe(TemplateKind::Chat, "随便一段回答".to_string());
    assert!(probe.parsed);
    assert!(probe.missing_fields.is_empty());
}

#[test]
fn chat_probe_fails_on_empty_output() {
    assert!(!evaluate_probe(TemplateKind::Chat, "   ".to_string()).parsed);
}

// ---------------------------------------------------------------- further cases

fn configured() -> Settings {
    Settings {
        providers: vec![Provider {
            id: "p".into(),
            name: "n".into(),
            protocol: Protocol::Anthropic,
            base_url: "https://api.anthropic.com".into(),
            api_key: "k".into(),
            max_tokens: Some(8000),
        }],
        fast: Some(RoleBinding { provider_id: "p".into(), model: "small".into() }),
        chat: Some(RoleBinding { provider_id: "p".into(), model: "big".into() }),
        native_language: "日本語".into(),
        ..Settings::default()
    }
}

#[test]
fn explain_requests_use_the_fast_role_and_the_rendered_template() {
    let mut settings = configured();
    settings.templates.push(PromptTemplate {
        id: "t".into(),
        name: "t".into(),
        kind: TemplateKind::Explain,
        body: "用{{nativeLanguage}}，原句：{{context}}".into(),
        builtin: false,
    });
    settings.active_explain = Some("t".into());
    let (provider, req) = plan_explain(&settings, "take on", Some("I take on it.")).unwrap();
    assert_eq!(provider.id, "p");
    assert_eq!(req.model, "small");
    assert_eq!(req.system.as_deref(), Some("用日本語，原句：I take on it."));
    assert_eq!(req.messages.len(), 1);
    assert_eq!(req.messages[0].role, "user");
    assert_eq!(req.messages[0].content, "选中的内容：take on\n\n所在原句：I take on it.");
    assert_eq!(req.max_tokens, 8000);
    assert_eq!(req.temperature_tenths, 2);
}

#[test]
fn unconfigured_roles_are_reported() {
    let settings = Settings::default();
    assert_eq!(
        plan_explain(&settings, "x", None).err().unwrap(),
        "尚未配置「释义」模型，请先到设置里配置"
    );
    assert_eq!(plan_chat(&settings, vec![]).err().unwrap(), "尚未配置「对话」模型，请先到设置里配置");
    assert_eq!(
        plan_probe(&settings, TemplateKind::Chat, "b").err().unwrap(),
        "尚未配置模型，请先在上方配置并绑定角色"
    );
}

#[test]
fn chat_and_probe_requests() {
    let settings = configured();
    let history = vec![ChatMessage { role: "user".into(), content: "还有呢".into() }];
    let (_, req) = plan_chat(&settings, history).unwrap();
    assert_eq!(req.model, "big");
    assert_eq!(req.temperature_tenths, 6);
    assert_eq!(req.messages[0].content, "还有呢");
    assert!(req.system.unwrap().contains("日本語"));

    let (_, req) = plan_probe(&settings, TemplateKind::Explain, "{{context}}!").unwrap();
    assert_eq!(req.model, "small");
    assert_eq!(req.system.as_deref(), Some("!"));
    assert_eq!(req.messages[0].content, "选中的内容：take on");
    let (_, req) = plan_probe(&settings, TemplateKind::Chat, "x").unwrap();
    assert_eq!(req.model, "big");
    assert_eq!(req.messages[0].content, "这个表达还有更口语的说法吗？");
}

#[test]
fn connection_tests() {
    let settings = configured();
    let req = plan_connection_test(&settings.providers[0], "m".into());
    assert_eq!(req.messages[0].content, "Reply with the single word: OK");
    assert_eq!(req.max_tokens, 8000);
    assert_eq!(req.temperature_tenths, 0);
    assert_eq!(connection_test_outcome("  OK \n").unwrap(), "OK");
    assert_eq!(
        connection_test_outcome(" ").err().unwrap(),
        "连接成功但模型没有返回内容，检查模型名是否正确"
    );
}

#[test]
fn only_answer_text_is_accumulated() {
    let mut full = String::new();
    match forward_delta(&mut full, "s", Delta::Reasoning("想".into())) {
        StreamEvent::Reasoning { stream_id, text } => assert_eq!((stream_id.as_str(), text.as_str()), ("s", "想")),
        other => panic!("{other:?}"),
    }
    match forward_delta(&mut full, "s", Delta::Text("{\"a\"".into())) {
        StreamEvent::Delta { text, .. } => assert_eq!(text, "{\"a\""),
        other => panic!("{other:?}"),
    }
    assert_eq!(full, "{\"a\"");
    let mut out = String::from("x");
    collect_delta(&mut out, &Delta::Reasoning("r".into()));
    collect_delta(&mut out, &Delta::Text("y".into()));
    assert_eq!(out, "xy");
}

#[test]
fn stream_endings() {
    match stream_end("s", "  ", Ok(())) {
        StreamEvent::Error { message, .. } => assert_eq!(message, EMPTY_STREAM_MESSAGE),
        other => panic!("{other:?}"),
    }
    assert!(matches!(stream_end("s", "{}", Ok(())), StreamEvent::Done { .. }));
    match stream_end("s", "{}", Err("HTTP 500".into())) {
        StreamEvent::Error { message, stream_id } => {
            assert_eq!(message, "HTTP 500");
            assert_eq!(stream_id, "s");
        }
        other => panic!("{other:?}"),
    }
}

#[test]
fn explanation_probes_list_missing_members_in_contract_order() {
    let probe = evaluate_probe(TemplateKind::Explain, "{\"word\":1}".into());
    assert!(probe.parsed);
    assert_eq!(probe.missing_fields, vec!["mode"]);
    let probe = evaluate_probe(TemplateKind::Translate, "[1,2]".into());
    assert!(probe.parsed);
    assert_eq!(probe.missing_fields, vec!["english", "wordChoice", "alternatives"]);
    assert_eq!(probe.raw, "[1,2]");
}

#[test]
fn only_a_finished_answer_is_stored() {
    let done = stream_end("s", "{\"a\":1}", Ok(()));
    assert!(should_store(&done));
    assert!(!should_store(&stream_end("s", "  ", Ok(()))));
    assert!(!should_store(&stream_end("s", "{}", Err("HTTP 500".into()))));
    assert!(!should_store(&StreamEvent::Delta { stream_id: "s".into(), text: "x".into() }));
}
