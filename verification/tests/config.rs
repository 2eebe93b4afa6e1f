use glossa::config::{
    sanitize, should_migrate_legacy_dir, Protocol, Provider, Role, RoleBinding, Settings,
    LEGACY_APP_DIR_NAME,
};
use glossa::templates::{self, PromptTemplate, TemplateKind};

fn user_template(id: &str, kind: TemplateKind) -> PromptTemplate {
    PromptTemplate {
        id: id.into(),
        name: "我的".into(),
        kind,
        body: "自定义正文".into(),
        builtin: false,
    }
}

#[test]
fn falls_back_to_builtin_when_nothing_is_selected() {
    let settings = Settings::default();
    for kind in TemplateKind::ALL {
        assert_eq!(settings.template(kind).id, templates::builtin_id(kind));
    }
}

#[test]
fn uses_the_selected_user_template() {
    let settings = Settings {
        templates: vec![user_template("mine", TemplateKind::Explain)],
        active_explain: Some("mine".into()),
        ..Settings::default()
    };
    assert_eq!(settings.template(TemplateKind::Explain).body, "自定义正文");
}

#[test]
fn falls_back_when_the_selected_template_was_deleted() {
    let settings = Settings {
        active_explain: Some("已删除".into()),
        ..Settings::default()
    };
    assert_eq!(
        settings.template(TemplateKind::Explain).id,
        templates::builtin_id(TemplateKind::Explain)
    );
}

#[test]
fn ignores_a_template_selected_for_the_wrong_kind() {
    let settings = Settings {
        templates: vec![user_template("mine", TemplateKind::Chat)],
        active_explain: Some("mine".into()),
        ..Settings::default()
    };
    assert_eq!(
        settings.template(TemplateKind::Explain).id,
        templates::builtin_id(TemplateKind::Explain)
    );
}

fn provider(max_tokens: Option<u32>) -> Provider {
    Provider {
        id: "p".into(),
        name: "测试".into(),
        protocol: Protocol::Openai,
        base_url: "https://example.com".into(),
        api_key: "k".into(),
        max_tokens,
    }
}

#[test]
fn max_tokens_falls_back_to_the_default_when_unset() {
    assert_eq!(provider(None).max_tokens_or(4000), 4000);
    assert_eq!(provider(Some(16000)).max_tokens_or(4000), 16000);
}

#[test]
fn absurdly_small_limits_fall_back_instead_of_starving_the_stream() {
    assert_eq!(provider(Some(0)).max_tokens_or(4000), 4000);
    assert_eq!(provider(Some(64)).max_tokens_or(4000), 4000);
}

#[test]
fn sanitize_normalizes_small_limits_to_unset() {
    let cleaned = sanitize(Settings {
        providers: vec![provider(Some(0)), provider(Some(8000))],
        ..Settings::default()
    });
    assert_eq!(cleaned.providers[0].max_tokens, None);
    assert_eq!(cleaned.providers[1].max_tokens, Some(8000));
}

#[test]
fn sanitize_treats_blank_voice_as_unset() {
    let cleaned = sanitize(Settings {
        voice: Some("  ".to_string()),
        ..Settings::default()
    });
    assert_eq!(cleaned.voice, None);
}

#[test]
fn sanitize_drops_builtin_copies_and_forged_flags() {
    let settings = Settings {
        templates: vec![
            templates::builtin(TemplateKind::Word),
            PromptTemplate {
                builtin: true,
                ..user_template("mine", TemplateKind::Word)
            },
        ],
        ..Settings::default()
    };

    let cleaned = sanitize(settings);
    assert_eq!(cleaned.templates.len(), 1);
    assert_eq!(cleaned.templates[0].id, "mine");
    assert!(!cleaned.templates[0].builtin);
}

// ---------------------------------------------------------------- further cases

#[test]
fn the_limit_threshold_is_inclusive() {
    assert_eq!(provider(Some(255)).max_tokens_or(4000), 4000);
    assert_eq!(provider(Some(256)).max_tokens_or(4000), 256);
}

#[test]
fn defaults_of_a_first_start() {
    let s = Settings::default();
    assert_eq!(s.port, 8765);
    assert_eq!(s.native_language, "中文");
    assert!(s.providers.is_empty() && s.templates.is_empty());
    assert!(s.fast.is_none() && s.chat.is_none() && s.voice.is_none());
}

#[test]
fn roles_resolve_to_existing_providers_only() {
    let mut s = Settings {
        providers: vec![provider(None)],
        fast: Some(RoleBinding { provider_id: "p".into(), model: "m".into() }),
        chat: Some(RoleBinding { provider_id: "gone".into(), model: "x".into() }),
        ..Settings::default()
    };
    let (p, model) = s.resolve(Role::Fast).unwrap();
    assert_eq!((p.id.as_str(), model), ("p", "m"));
    assert!(s.resolve(Role::Chat).is_none());
    s.fast = None;
    assert!(s.resolve(Role::Fast).is_none());
    assert!(s.provider("p").is_some());
    assert!(s.provider("q").is_none());
}

#[test]
fn first_matching_template_wins() {
    let mut second = user_template("mine", TemplateKind::Explain);
    second.body = "第二份".into();
    let settings = Settings {
        templates: vec![user_template("mine", TemplateKind::Explain), second],
        active_explain: Some("mine".into()),
        ..Settings::default()
    };
    assert_eq!(settings.template(TemplateKind::Explain).body, "自定义正文");
}

#[test]
fn sanitizing_twice_changes_nothing_more() {
    let settings = Settings {
        providers: vec![provider(Some(10)), provider(Some(300))],
        templates: vec![
            templates::builtin(TemplateKind::Explain),
            PromptTemplate { builtin: true, ..user_template("a", TemplateKind::Chat) },
        ],
        voice: Some("Ava".into()),
        ..Settings::default()
    };
    let once = sanitize(settings);
    let twice = sanitize(once.clone());
    assert_eq!(twice.templates.len(), once.templates.len());
    assert_eq!(twice.templates[0].id, "a");
    assert!(!twice.templates[0].builtin);
    assert_eq!(twice.providers[0].max_tokens, once.providers[0].max_tokens);
    assert_eq!(twice.providers[1].max_tokens, Some(300));
    assert_eq!(twice.voice.as_deref(), Some("Ava"));
    for (a, b) in once.providers.iter().zip(twice.providers.iter()) {
        assert_eq!(a.max_tokens_or(4000), b.max_tokens_or(4000));
    }
}

#[test]
fn the_former_data_directory_moves_only_when_the_new_one_is_absent() {
    assert_eq!(LEGACY_APP_DIR_NAME, "EnAssistant");
    assert!(should_migrate_legacy_dir(true, false));
    assert!(!should_migrate_legacy_dir(true, true));
    assert!(!should_migrate_legacy_dir(false, false));
    assert!(!should_migrate_legacy_dir(false, true));
}
