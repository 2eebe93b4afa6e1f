use glossa::templates::{
    builtin, builtin_id, builtins, check, fields_for_mode, mentions_field, render,
    required_fields, variables_used, PromptTemplate, TemplateKind, BUILTIN_EXPLAIN_ID,
    LONG_BODY_CHARS, VARIABLES,
};

#[test]
fn builtins_pass_their_own_checks() {
    for kind in TemplateKind::ALL {
        let issues = check(kind, &builtin(kind).body);
        assert!(issues.is_empty(), "{kind:?} 内置模板有问题: {issues:?}");
    }
}

#[test]
fn builtins_only_use_known_variables() {
    for kind in TemplateKind::ALL {
        for name in variables_used(&builtin(kind).body) {
            assert!(VARIABLES.contains(&name.as_str()), "未知变量 {name}");
        }
    }
}

#[test]
fn settings_only_exposes_unified_explain_and_chat_builtins() {
    let kinds: Vec<TemplateKind> = builtins().into_iter().map(|t| t.kind).collect();
    assert_eq!(kinds, vec![TemplateKind::Explain, TemplateKind::Chat]);
}

#[test]
fn unified_template_delegates_classification_without_hardcoded_length_rules() {
    let body = builtin(TemplateKind::Explain).body;
    assert!(body.contains("不要按词数、字符数或是否有句末标点硬判"));
    assert!(body.contains("\"mode\": \"word\""));
    assert!(body.contains("\"mode\": \"sentence\""));
    assert!(body.contains("\"mode\": \"translate\""));
    assert!(body.contains("不要补另外两个分支的键"));
}

#[test]
fn legacy_word_and_sentence_schemas_stay_separate() {
    let sentence = builtin(TemplateKind::Sentence).body;
    assert!(!sentence.contains("\"word\""));
    assert!(!sentence.contains("\"phonetic\""));

    let word = builtin(TemplateKind::Word).body;
    assert!(!word.contains("\"translation\""));
}

#[test]
fn legacy_translate_schema_stays_separate_too() {
    let translate = builtin(TemplateKind::Translate).body;
    assert!(!translate.contains("\"phonetic\""));
    assert!(!translate.contains("\"pos\""));
    assert!(!translate.contains("\"grammar\""));
}

#[test]
fn both_legacy_english_branches_check_grammar() {
    for kind in [TemplateKind::Word, TemplateKind::Sentence] {
        assert!(
            builtin(kind).body.contains("\"grammar\""),
            "{kind:?} 模板没有 grammar 字段"
        );
    }
}

#[test]
fn render_substitutes_known_variables() {
    let out = render(
        "用{{nativeLanguage}}解释。原句：{{context}}",
        "中文",
        Some("Hi."),
    );
    assert_eq!(out, "用中文解释。原句：Hi.");
}

#[test]
fn missing_context_renders_empty_not_literal() {
    assert_eq!(render("原句：{{context}}", "中文", None), "原句：");
}

#[test]
fn unknown_variables_survive_rendering_so_they_stay_visible() {
    assert_eq!(render("{{languague}}", "中文", None), "{{languague}}");
}

#[test]
fn finds_variables_without_duplicates() {
    assert_eq!(
        variables_used("{{a}} {{b}} {{a}}"),
        vec!["a".to_string(), "b".to_string()]
    );
    assert!(variables_used("没有变量").is_empty());
    assert!(variables_used("{{unterminated").is_empty());
}

#[test]
fn flags_unknown_variables() {
    let issues = check(TemplateKind::Chat, "用{{languague}}讲解");
    assert!(issues.iter().any(|i| i.message.contains("languague")));
}

#[test]
fn flags_missing_required_fields() {
    let issues = check(TemplateKind::Sentence, "翻译一下，输出 `translation` 就行");
    let message = &issues[0].message;
    assert!(message.contains("structure"));
    assert!(message.contains("keyPoints"));
    assert!(!message.contains("translation"));
}

#[test]
fn field_matching_requires_a_json_key_or_backticked_field_name() {
    assert!(!mentions_field("model decides", "mode"));
    assert!(!mentions_field("输出 mode 字段", "mode"));
    assert!(mentions_field("输出 `mode` 字段", "mode"));
    assert!(mentions_field(r#"{"mode":"word"}"#, "mode"));
    assert!(!mentions_field(r#"{"kind":"mode"}"#, "mode"));
    assert!(!mentions_field(r#"{"mode":"word"}"#, "word"));
}

#[test]
fn unified_check_requires_both_grammar_subfields() {
    let body = builtin(TemplateKind::Explain)
        .body
        .replace("issue", "problem")
        .replace("corrected", "fixed");
    let issues = check(TemplateKind::Explain, &body);
    let message = issues
        .iter()
        .find(|issue| issue.level == "error")
        .map(|issue| issue.message.as_str())
        .unwrap_or_default();
    assert!(message.contains("issue"));
    assert!(message.contains("corrected"));
}

#[test]
fn chat_has_no_field_contract() {
    assert!(check(TemplateKind::Chat, "随便讲讲").is_empty());
}

#[test]
fn flags_empty_body() {
    assert_eq!(check(TemplateKind::Chat, "   ").len(), 1);
}

#[test]
fn long_bodies_warn_but_do_not_error() {
    let body = format!("随便讲讲{}", "啊".repeat(LONG_BODY_CHARS));
    let issues = check(TemplateKind::Chat, &body);
    assert_eq!(issues.len(), 1);
    assert_eq!(issues[0].level, "warn");
}

// ---------------------------------------------------------------- further cases

#[test]
fn issue_messages_read_exactly() {
    let issues = check(TemplateKind::Chat, "用{{languague}}和{{x}}讲解");
    assert_eq!(issues.len(), 1);
    assert_eq!(issues[0].level, "error");
    assert_eq!(
        issues[0].message,
        "未知变量：languague、x。可用的只有 {{nativeLanguage}}、{{context}}"
    );

    let issues = check(TemplateKind::Translate, "只要 `english`");
    assert_eq!(
        issues[0].message,
        "正文里没有提到这些必需字段：wordChoice、alternatives。缺了它们，释义卡片会渲染不出对应部分"
    );

    let long = "啊".repeat(LONG_BODY_CHARS + 1);
    let issues = check(TemplateKind::Chat, &long);
    assert_eq!(
        issues[0].message,
        "正文超过 2000 字。约束越多，模型越容易忽略 JSON 格式要求，建议精简"
    );

    assert_eq!(check(TemplateKind::Word, "\n\t ")[0].message, "模板正文为空");
}

#[test]
fn issues_come_in_a_fixed_order() {
    let body = format!("{{{{oops}}}}{}", "啊".repeat(LONG_BODY_CHARS));
    let issues = check(TemplateKind::Sentence, &body);
    let levels: Vec<&str> = issues.iter().map(|i| i.level.as_str()).collect();
    assert_eq!(levels, vec!["error", "error", "warn"]);
    assert!(issues[0].message.starts_with("未知变量"));
    assert!(issues[1].message.starts_with("正文里没有提到"));
}

#[test]
fn exactly_the_length_limit_is_not_long() {
    let body = "啊".repeat(LONG_BODY_CHARS);
    assert!(check(TemplateKind::Chat, &body).is_empty());
}

#[test]
fn variable_names_are_trimmed_and_blank_ones_skipped() {
    assert_eq!(
        variables_used("{{ context }} {{}} {{   }} {{context}}"),
        vec!["context".to_string()]
    );
    assert_eq!(variables_used("{{a}}}} {{b"), vec!["a".to_string()]);
}

#[test]
fn a_key_counts_once_matches_do_not_overlap() {
    // `"mode"mode"` holds `"mode"` at 0 and, overlapping, at 5; scanning
    // resumes after the first match, so the second one is not seen.
    assert!(!mentions_field("\"mode\"mode\":", "mode"));
    assert!(mentions_field("\"mode\"  \n :", "mode"));
    assert!(mentions_field("\"x\" \"mode\":", "mode"));
}

#[test]
fn render_replaces_every_occurrence() {
    assert_eq!(
        render("{{nativeLanguage}}/{{nativeLanguage}}", "中文", None),
        "中文/中文"
    );
    assert_eq!(render("{{context}}", "中文", Some("")), "");
}

#[test]
fn builtin_ids_and_fields() {
    assert_eq!(builtin_id(TemplateKind::Explain), BUILTIN_EXPLAIN_ID);
    assert_eq!(builtin_id(TemplateKind::Translate), "builtin-translate");
    let t: PromptTemplate = builtin(TemplateKind::Chat);
    assert!(t.builtin);
    assert_eq!(t.name, "内置 · 追问对话");
    assert_eq!(required_fields(TemplateKind::Explain), &["mode"]);
    assert!(required_fields(TemplateKind::Chat).is_empty());
    assert_eq!(required_fields(TemplateKind::Word).len(), 7);
    assert_eq!(fields_for_mode("sentence"), &["translation", "structure", "keyPoints"]);
    assert_eq!(fields_for_mode("translate"), &["english", "wordChoice", "alternatives"]);
    assert!(fields_for_mode("other").is_empty());
    assert_eq!(fields_for_mode("word")[3], "senseHere");
}

#[test]
fn duplicate_copies_every_field() {
    let t = builtin(TemplateKind::Word);
    let d = t.duplicate();
    assert_eq!((d.id, d.name, d.kind, d.body, d.builtin), (t.id, t.name, t.kind, t.body, t.builtin));
}
