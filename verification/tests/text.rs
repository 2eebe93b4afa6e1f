use glossa::config::{default_native_language, default_port};
use glossa::json::unfence;
use glossa::templates::{
    is_builtin_id_exec, push_joined, sentence_fields, translate_fields, word_fields,
    BUILTIN_EXPLAIN_ID,
};
use glossa::text::{
    chars_of, contains_exec, find_from_exec, is_blank_exec, is_whitespace, lex_le_exec,
    push_decimal, replace_exec, seq_eq, str_eq, string_of, trim_bounds, trimmed,
};

fn chars(s: &str) -> Vec<char> {
    s.chars().collect()
}

#[test]
fn whitespace_follows_the_unicode_property() {
    for c in [' ', '\t', '\n', '\r', '\u{0B}', '\u{0C}', '\u{85}', '\u{A0}', '\u{3000}', '\u{2028}'] {
        assert!(is_whitespace(c), "{c:?}");
    }
    for c in ['a', '_', '\u{200B}', '中'] {
        assert!(!is_whitespace(c), "{c:?}");
    }
    assert_eq!(trimmed("\u{3000} take on \n"), "take on");
    assert!(is_blank_exec(" \t\u{A0}"));
    assert!(!is_blank_exec(" x "));
    let v = chars("  ab ");
    assert_eq!(trim_bounds(&v, 0, v.len()), (2, 4));
}

#[test]
fn search_and_replace_work_on_characters() {
    let s = chars("a{{x}}b{{x}}");
    assert_eq!(find_from_exec(&s, &chars("{{x}}"), 0), Some(1));
    assert_eq!(find_from_exec(&s, &chars("{{x}}"), 2), Some(7));
    assert_eq!(find_from_exec(&s, &chars("{{y}}"), 0), None);
    assert!(contains_exec(&s, &chars("b{{")));
    let out = replace_exec(&s, &chars("{{x}}"), &chars("中文"));
    assert_eq!(string_of(&out), "a中文b中文");
    // Replacements are not scanned again.
    let out = replace_exec(&chars("aaa"), &chars("aa"), &chars("a"));
    assert_eq!(string_of(&out), "aa");
    assert!(seq_eq(&chars("同"), &chars("同")));
    assert!(str_eq("ok", "ok") && !str_eq("ok", "OK"));
    assert_eq!(chars_of("ab"), vec!['a', 'b']);
}

#[test]
fn numbers_and_order() {
    let mut out = Vec::new();
    push_decimal(&mut out, 0);
    assert_eq!(out, vec!['0']);
    let mut out = vec!['#'];
    push_decimal(&mut out, 18446744073709551615);
    assert_eq!(string_of(&out), "#18446744073709551615");
    assert!(lex_le_exec(&chars("B"), &chars("a")));
    assert!(lex_le_exec(&chars("a"), &chars("ab")));
    assert!(!lex_le_exec(&chars("b"), &chars("ab")));
    assert!(lex_le_exec(&chars(""), &chars("")));
}

#[test]
fn code_fences_are_removed_around_model_output() {
    assert_eq!(unfence("```json\n{\"a\":1}\n```"), "{\"a\":1}");
    assert_eq!(unfence("  ```\n[]```  "), "[]");
    assert_eq!(unfence("plain"), "plain");
}

#[test]
fn lists_and_defaults() {
    let mut s = String::from("未知变量：");
    push_joined(&mut s, &vec!["a".to_string(), "b".to_string()], "、");
    assert_eq!(s, "未知变量：a、b");
    assert_eq!(word_fields().len(), 7);
    assert_eq!(sentence_fields(), &["translation", "structure", "keyPoints"]);
    assert_eq!(translate_fields(), &["english", "wordChoice", "alternatives"]);
    assert!(is_builtin_id_exec(BUILTIN_EXPLAIN_ID));
    assert!(!is_builtin_id_exec("mine"));
    assert_eq!(default_port(), 8765);
    assert_eq!(default_native_language(), "中文");
}
