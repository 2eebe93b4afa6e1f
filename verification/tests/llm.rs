use glossa::history::extract_sense;
use glossa::llm::{
    endpoint, http_error_message, model_ids, sort_names, Anthropic, ChatMessage, ChatRequest,
    Delta, Openai, OpenaiStream, StreamStep,
};

#[test]
fn endpoints_accept_base_urls_with_or_without_v1() {
    assert_eq!(
        endpoint("https://api.openai.com/v1", "chat/completions"),
        "https://api.openai.com/v1/chat/completions"
    );
    assert_eq!(
        endpoint("https://api.openai.com", "chat/completions"),
        "https://api.openai.com/v1/chat/completions"
    );
    assert_eq!(
        endpoint("  http://127.0.0.1:11434/v1// ", "models"),
        "http://127.0.0.1:11434/v1/models"
    );
    assert_eq!(endpoint("https://api.anthropic.com/", "messages"), "https://api.anthropic.com/v1/messages");
    assert_eq!(endpoint("", "models"), "/v1/models");
}

fn texts(step: StreamStep) -> Vec<String> {
    match step {
        StreamStep::Emit(deltas) => deltas
            .into_iter()
            .map(|d| match d {
                Delta::Text(t) => format!("T:{t}"),
                Delta::Reasoning(t) => format!("R:{t}"),
            })
            .collect(),
        other => panic!("{other:?}"),
    }
}

#[test]
fn openai_events() {
    let mut s = OpenaiStream::new();
    assert!(matches!(s.on_event(" [DONE] "), StreamStep::Stop));
    assert!(matches!(s.on_event("not json"), StreamStep::Skip));
    match s.on_event(r#"{"error":{"message":"bad key"}}"#) {
        StreamStep::Fail(m) => assert_eq!(m, r#"{"message":"bad key"}"#),
        other => panic!("{other:?}"),
    }
    let step = s.on_event(r#"{"choices":[{"delta":{"reasoning_content":"想","content":null}}]}"#);
    assert_eq!(texts(step), vec!["R:想"]);
    assert!(!s.got_text);
    let step = s.on_event(r#"{"choices":[{"delta":{"content":"{\"a\""},"finish_reason":null}]}"#);
    // Text counts as seen only as it is handed on.
    assert!(!s.got_text);
    match step {
        StreamStep::Emit(deltas) => {
            assert_eq!(deltas.len(), 1);
            s.hand_on(&deltas[0]);
            assert!(matches!(&deltas[0], Delta::Text(t) if t == "{\"a\""));
        }
        other => panic!("{other:?}"),
    }
    assert!(s.got_text);
    assert!(s.finish(4000).is_ok());
}

#[test]
fn a_budget_spent_on_thinking_is_an_error() {
    let mut s = OpenaiStream::new();
    let step = s.on_event(r#"{"choices":[{"delta":{"reasoning_content":"…"},"finish_reason":"length"}]}"#);
    assert_eq!(texts(step), vec!["R:…"]);
    assert_eq!(s.finish_reason.as_deref(), Some("length"));
    assert_eq!(
        s.finish(800).unwrap_err(),
        "模型把 800 token 的额度全用在思考上，没输出正文。换个非推理模型，或调高上限"
    );
    let mut done = OpenaiStream::new();
    done.on_event(r#"{"choices":[{"delta":{},"finish_reason":"stop"}]}"#);
    assert!(done.finish(800).is_ok());
}

#[test]
fn anthropic_events() {
    let step = Anthropic::on_event("content_block_delta", r#"{"delta":{"type":"text_delta","text":"hi"}}"#);
    assert_eq!(texts(step), vec!["T:hi"]);
    let step = Anthropic::on_event("content_block_delta", r#"{"delta":{"thinking":"hm"}}"#);
    assert_eq!(texts(step), vec!["R:hm"]);
    assert!(matches!(Anthropic::on_event("content_block_delta", "{"), StreamStep::Skip));
    assert!(matches!(Anthropic::on_event("message_stop", ""), StreamStep::Stop));
    assert!(matches!(Anthropic::on_event("ping", "{}"), StreamStep::Skip));
    match Anthropic::on_event("error", "overloaded") {
        StreamStep::Fail(m) => assert_eq!(m, "overloaded"),
        other => panic!("{other:?}"),
    }
}

#[test]
fn openai_sends_the_system_prompt_as_the_first_message() {
    let req = ChatRequest {
        model: "m".into(),
        system: Some("sys".into()),
        messages: vec![ChatMessage { role: "user".into(), content: "hi".into() }],
        max_tokens: 1,
        temperature_tenths: 0,
    };
    let wire = Openai::wire_messages(&req);
    assert_eq!(wire.len(), 2);
    assert_eq!((wire[0].role.as_str(), wire[0].content.as_str()), ("system", "sys"));
    assert_eq!(wire[1].content, "hi");
    let bare = ChatRequest { system: None, ..req };
    assert_eq!(Openai::wire_messages(&bare).len(), 1);
}

#[test]
fn model_lists_are_sorted() {
    let ids = model_ids(r#"{"data":[{"id":"omega-4"},{"id":"delta"},{"name":"x"},{"id":"alpha"}]}"#)
        .unwrap();
    assert_eq!(ids, vec!["alpha", "delta", "omega-4"]);
    assert_eq!(model_ids(r#"{"object":"list"}"#).unwrap(), Vec::<String>::new());
    assert!(model_ids("<html>").is_none());
    let sorted = sort_names(vec!["b".into(), "a".into(), "ab".into(), "B".into(), "a".into()]);
    assert_eq!(sorted, vec!["B", "a", "a", "ab", "b"]);
}

#[test]
fn http_errors_carry_the_start_of_the_body() {
    assert_eq!(http_error_message("404 Not Found", "nope"), "HTTP 404 Not Found: nope");
    let long = "字".repeat(600);
    let msg = http_error_message("500", &long);
    assert_eq!(msg, format!("HTTP 500: {}", "字".repeat(500)));
}

#[test]
fn json_documents_are_read_faithfully() {
    // Only string ids of objects count; numbers, nulls and nested arrays are
    // read past.
    let ids = model_ids(r#"{"data":[{"id":"x","n":1.5},{"id":null},{"id":true},"s",[{"id":"y"}],{"id":"w"}]}"#)
        .unwrap();
    assert_eq!(ids, vec!["w", "x"]);
    assert_eq!(extract_sense(r#"{"n":[1,2.5,{"k":null}],"senseHere":"s"}"#), "s");
    assert_eq!(extract_sense(r#"{"senseHere":{"a":"b"}}"#), "");
    assert_eq!(extract_sense("{"), "");
}

#[test]
fn anthropic_lifts_the_system_prompt_out_of_the_messages() {
    let req = ChatRequest {
        model: "m".into(),
        system: Some("sys".into()),
        messages: vec![
            ChatMessage { role: "user".into(), content: "hi".into() },
            ChatMessage { role: "assistant".into(), content: "yo".into() },
        ],
        max_tokens: 1,
        temperature_tenths: 0,
    };
    let (system, messages) = Anthropic::wire_request(&req);
    assert_eq!(system.as_deref(), Some("sys"));
    assert_eq!(messages.len(), 2);
    assert_eq!((messages[0].role.as_str(), messages[1].content.as_str()), ("user", "yo"));
    let (system, _) = Anthropic::wire_request(&ChatRequest { system: None, ..req });
    assert!(system.is_none());
}

#[test]
fn endpoints_agree_for_bases_with_leading_space() {
    assert_eq!(endpoint(" https://api.x.com/", "models"), endpoint(" https://api.x.com", "models"));
    assert_eq!(endpoint(" https://api.x.com/v1", "models"), endpoint(" https://api.x.com//", "models"));
    assert_eq!(endpoint(" https://api.x.com", "models"), "https://api.x.com/v1/models");
}

#[test]
fn a_blank_base_url_gives_the_same_endpoint_with_a_slash() {
    assert_eq!(endpoint("  ", "models"), "/v1/models");
    assert_eq!(endpoint("  /", "models"), endpoint("  ", "models"));
}

#[test]
fn text_that_never_went_out_does_not_count() {
    // Reasoning, text and a length stop in one chunk; the receiver is gone
    // before the reasoning is delivered, so the text is never handed on.
    let mut s = OpenaiStream::new();
    let step = s.on_event(
        r#"{"choices":[{"delta":{"reasoning_content":"想","content":"答"},"finish_reason":"length"}]}"#,
    );
    match step {
        StreamStep::Emit(deltas) => {
            assert!(matches!(&deltas[0], Delta::Reasoning(_)));
            s.hand_on(&deltas[0]);
        }
        other => panic!("{other:?}"),
    }
    assert_eq!(
        s.finish(4000).unwrap_err(),
        "模型把 4000 token 的额度全用在思考上，没输出正文。换个非推理模型，或调高上限"
    );
    s.hand_on(&Delta::Text("答".into()));
    assert!(s.finish(4000).is_ok());
    s.hand_on(&Delta::Reasoning("x".into()));
    assert!(s.got_text);
}
