use glossa::prompts::{explain_user, probe_cases, probe_input};
use glossa::templates::TemplateKind;

#[test]
fn explain_user_never_preclassifies_the_selection() {
    for text in ["resilient", "What's your name", "这事儿我来扛。"] {
        assert_eq!(explain_user(text, None), format!("选中的内容：{text}"));
    }
}

#[test]
fn explain_user_includes_context_when_available() {
    assert_eq!(
        explain_user("take on", Some("She had to take on more responsibility.")),
        "选中的内容：take on\n\n所在原句：She had to take on more responsibility."
    );
}

#[test]
fn empty_context_is_ignored() {
    assert_eq!(explain_user("take on", Some("  ")), "选中的内容：take on");
}

#[test]
fn unified_probe_covers_all_modes() {
    let cases = probe_cases(TemplateKind::Explain);
    assert_eq!(cases.len(), 3);
    assert_eq!(
        cases
            .iter()
            .filter_map(|case| case.expected_mode)
            .collect::<Vec<_>>(),
        vec!["word", "sentence", "translate"]
    );
}

#[test]
fn every_kind_has_a_probe_input() {
    assert_eq!(probe_input(TemplateKind::Chat), "这个表达还有更口语的说法吗？");
    assert_eq!(probe_input(TemplateKind::Explain), "take on");
    assert_eq!(
        probe_input(TemplateKind::Sentence),
        "She agreed to take on the project despite the tight deadline."
    );
    for kind in TemplateKind::ALL {
        assert!(!probe_cases(kind).is_empty());
    }
    assert!(probe_cases(TemplateKind::Word)[0].expected_mode.is_none());
}
