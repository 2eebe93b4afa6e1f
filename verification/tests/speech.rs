use glossa::speech::{
    after_check, parse_voice_line, parse_voice_list, poll, voice_arg, ExitCheck, Poll, Speaking,
    Voice,
};

#[test]
fn parses_names_that_contain_spaces_and_parens() {
    assert_eq!(
        parse_voice_line("Ava (Premium)       en_US    # Hello! My name is Ava."),
        Some(Voice {
            name: "Ava (Premium)".into(),
            lang: "en-US".into(),
        })
    );
    assert_eq!(
        parse_voice_line("Eddy (English (US)) en_US    # Hello! My name is Eddy."),
        Some(Voice {
            name: "Eddy (English (US))".into(),
            lang: "en-US".into(),
        })
    );
    assert_eq!(
        parse_voice_line("Bad News            en_US    # Hello! My name is Bad News."),
        Some(Voice {
            name: "Bad News".into(),
            lang: "en-US".into(),
        })
    );
}

#[test]
fn skips_lines_that_are_not_voices() {
    assert_eq!(parse_voice_line(""), None);
    assert_eq!(parse_voice_line("# just a comment"), None);
    assert_eq!(parse_voice_line("Samantha"), None);
}

#[test]
fn voice_lines_without_a_sample_or_with_odd_spacing() {
    assert_eq!(
        parse_voice_line("Tingting zh_CN"),
        Some(Voice { name: "Tingting".into(), lang: "zh-CN".into() })
    );
    assert_eq!(parse_voice_line("   en_US  # no name"), None);
    assert_eq!(parse_voice_line("Name en_US_x # x"), Some(Voice { name: "Name".into(), lang: "en-US-x".into() }));
}

#[test]
fn voice_listing_keeps_only_voice_lines() {
    let output = "Ava (Premium)       en_US    # Hello!\r\nnot a voice\n\nTingting            zh_CN    # 你好\n";
    let voices = parse_voice_list(output);
    assert_eq!(
        voices,
        vec![
            Voice { name: "Ava (Premium)".into(), lang: "en-US".into() },
            Voice { name: "Tingting".into(), lang: "zh-CN".into() },
        ]
    );
    assert!(parse_voice_list("").is_empty());
    assert_eq!(parse_voice_list("Kyoko ja_JP").len(), 1);
}

#[test]
fn an_exit_check_decides_progress() {
    assert_eq!(after_check(ExitCheck::Running), (Poll::Running, false));
    assert_eq!(after_check(ExitCheck::Exited(true)), (Poll::Done, true));
    assert_eq!(after_check(ExitCheck::Exited(false)), (Poll::Failed, true));
    assert_eq!(after_check(ExitCheck::Unknown), (Poll::Done, true));
}

#[test]
fn a_stopped_utterance_is_done() {
    let mut slot: Option<Speaking> = None;
    assert_eq!(poll(&mut slot, 3), Poll::Done);
    assert!(slot.is_none());
}

/// Polls until the utterance is no longer running.
fn poll_to_end(rt: &tokio::runtime::Runtime, slot: &mut Option<Speaking>, generation: u64) -> Poll {
    for _ in 0..500 {
        match poll(slot, generation) {
            Poll::Running => rt.block_on(tokio::time::sleep(std::time::Duration::from_millis(10))),
            other => return other,
        }
    }
    Poll::Running
}

#[test]
fn a_process_is_followed_to_its_exit() {
    let rt = tokio::runtime::Runtime::new().unwrap();
    let _guard = rt.enter();

    let child = tokio::process::Command::new("sh").arg("-c").arg("exit 0").spawn().unwrap();
    let mut slot = Some(Speaking { generation: 1, child });
    // A later utterance's poll leaves this one alone.
    assert_eq!(poll(&mut slot, 2), Poll::Done);
    assert!(slot.is_some());
    assert_eq!(poll_to_end(&rt, &mut slot, 1), Poll::Done);
    assert!(slot.is_none());

    let child = tokio::process::Command::new("sh").arg("-c").arg("exit 3").spawn().unwrap();
    let mut slot = Some(Speaking { generation: 4, child });
    assert_eq!(poll_to_end(&rt, &mut slot, 4), Poll::Failed);
    assert!(slot.is_none());
}

#[test]
fn a_blank_voice_leaves_the_choice_to_the_system() {
    assert_eq!(voice_arg(Some("  Ava (Premium) ")).as_deref(), Some("Ava (Premium)"));
    assert_eq!(voice_arg(Some("   ")), None);
    assert_eq!(voice_arg(None), None);
}
