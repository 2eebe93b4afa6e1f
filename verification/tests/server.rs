use glossa::server::{lookup_payload, LookupParams};

#[test]
fn blank_selections_are_rejected_and_context_is_kept_only_when_present() {
    assert!(lookup_payload(LookupParams { q: "  \n".into(), context: None }).is_none());
    let p = lookup_payload(LookupParams { q: " take on ".into(), context: Some(" ".into()) }).unwrap();
    assert_eq!(p.text, "take on");
    assert_eq!(p.context, None);
    let p = lookup_payload(LookupParams { q: "x".into(), context: Some(" ctx ".into()) }).unwrap();
    assert_eq!(p.context.as_deref(), Some(" ctx "));
}
