use glossa::history::{
    delete_statement, get_lookup_statement, get_turns_statement, insert_lookup_statement,
    insert_turn_statement, list_statement, migration_statement, next_seq_statement, DELETE_LOOKUP,
    GET_LOOKUP, GET_TURNS, INSERT_LOOKUP, INSERT_TURN, LIST_LOOKUPS, MIGRATION, NEXT_SEQ,
    append_turn, clear, clear_statement, delete, detail_from_rows, extract_sense, get, id_params,
    like_pattern, list, list_params, lookup_of_rows, lookup_params, next_seq, now_ms, save_lookup,
    summaries_from_rows, timestamp, turn_params, turns_from_rows, History, HistoryError, SqlValue,
    CLEAR_LOOKUPS,
};

fn memory_history() -> History {
    History::open_in_memory().unwrap()
}

fn seed(history: &History, id: &str, text: &str, sense: &str) {
    let explanation = format!(r#"{{"word":"{text}","senseHere":"{sense}"}}"#);
    save_lookup(history, id, text, None, &explanation, "main").unwrap();
}

#[test]
fn lists_newest_first() {
    let h = memory_history();
    seed(&h, "a", "take on", "承担");
    seed(&h, "b", "resilient", "有韧性的");

    let items = list(&h, 10, 0, None).unwrap();
    assert_eq!(items.len(), 2);
    assert!(items.iter().any(|i| i.text == "take on"));
    assert!(items.iter().any(|i| i.text == "resilient"));
}

#[test]
fn pulls_sense_out_of_the_explanation_json() {
    let h = memory_history();
    seed(&h, "a", "take on", "承担、接下");
    assert_eq!(list(&h, 10, 0, None).unwrap()[0].sense, "承担、接下");
}

#[test]
fn survives_an_unparsable_explanation() {
    let h = memory_history();
    save_lookup(&h, "a", "take on", None, "{\"word\":\"take", "popup").unwrap();
    let items = list(&h, 10, 0, None).unwrap();
    assert_eq!(items.len(), 1);
    assert_eq!(items[0].sense, "");
}

#[test]
fn strips_code_fence_before_reading_sense() {
    let h = memory_history();
    save_lookup(
        &h,
        "a",
        "take on",
        None,
        "```json\n{\"senseHere\":\"承担\"}\n```",
        "main",
    )
    .unwrap();
    assert_eq!(list(&h, 10, 0, None).unwrap()[0].sense, "承担");
}

#[test]
fn filters_by_substring() {
    let h = memory_history();
    seed(&h, "a", "take on", "承担");
    seed(&h, "b", "resilient", "有韧性的");

    assert_eq!(list(&h, 10, 0, Some("resil")).unwrap().len(), 1);
    assert_eq!(list(&h, 10, 0, Some("r")).unwrap().len(), 1);
    assert_eq!(list(&h, 10, 0, Some("ke o")).unwrap().len(), 1);
}

#[test]
fn blank_query_does_not_filter() {
    let h = memory_history();
    seed(&h, "a", "take on", "承担");
    seed(&h, "b", "resilient", "有韧性的");

    assert_eq!(list(&h, 10, 0, Some("  ")).unwrap().len(), 2);
    assert_eq!(list(&h, 10, 0, Some("")).unwrap().len(), 2);
    assert_eq!(list(&h, 10, 0, None).unwrap().len(), 2);
}

#[test]
fn appends_turns_in_order() {
    let h = memory_history();
    seed(&h, "a", "take on", "承担");
    append_turn(&h, "a", "user", "还有别的用法吗").unwrap();
    append_turn(&h, "a", "assistant", "有的").unwrap();

    let turns = get(&h, "a").unwrap().unwrap().turns;
    assert_eq!(turns.len(), 2);
    assert_eq!(turns[0].role, "user");
    assert_eq!(turns[1].content, "有的");
}

#[test]
fn deleting_a_lookup_takes_its_turns_with_it() {
    let h = memory_history();
    seed(&h, "a", "take on", "承担");
    append_turn(&h, "a", "user", "问题").unwrap();

    delete(&h, "a").unwrap();
    assert!(get(&h, "a").unwrap().is_none());

    // Orphaned turns would reappear under a lookup stored again with the id.
    seed(&h, "a", "take on", "承担");
    assert!(get(&h, "a").unwrap().unwrap().turns.is_empty(), "turns 应随 lookup 级联删除");
}

#[test]
fn get_returns_none_for_unknown_id() {
    assert!(get(&memory_history(), "nope").unwrap().is_none());
}

#[test]
fn clear_empties_everything() {
    let h = memory_history();
    seed(&h, "a", "take on", "承担");
    append_turn(&h, "a", "user", "问题").unwrap();

    clear(&h).unwrap();
    assert!(list(&h, 10, 0, None).unwrap().is_empty());
}

// ---------------------------------------------------------------- further cases

#[test]
fn a_session_round_trips() {
    let h = memory_history();
    save_lookup(&h, "a", "take on", Some("I take on it."), "{}", "main").unwrap();
    let d = get(&h, "a").unwrap().unwrap();
    assert_eq!(d.id, "a");
    assert_eq!(d.context.as_deref(), Some("I take on it."));
    assert_eq!(d.explanation, "{}");
    assert_eq!(d.source, "main");
    assert!(d.created_at > 0);
    // Saving under the same id replaces the record.
    save_lookup(&h, "a", "take", None, "{}", "popup").unwrap();
    let d = get(&h, "a").unwrap().unwrap();
    assert_eq!((d.text.as_str(), d.context), ("take", None));
    assert_eq!(list(&h, 10, 0, None).unwrap().len(), 1);
}

#[test]
fn limit_and_offset_page_the_list() {
    let h = memory_history();
    seed(&h, "a", "one", "");
    seed(&h, "b", "two", "");
    seed(&h, "c", "three", "");
    assert_eq!(list(&h, 2, 0, None).unwrap().len(), 2);
    assert_eq!(list(&h, 2, 2, None).unwrap().len(), 1);
    assert!(list(&h, 0, 0, None).unwrap().is_empty());
}

#[test]
fn senses_and_patterns() {
    assert_eq!(extract_sense("{\"senseHere\":\"承担\"}"), "承担");
    assert_eq!(extract_sense("```{\"senseHere\":\"x\"}```"), "x");
    assert_eq!(extract_sense("{\"senseHere\":3}"), "");
    assert_eq!(extract_sense("not json"), "");
    assert_eq!(like_pattern(Some("  ke o ")).as_deref(), Some("%ke o%"));
    assert_eq!(like_pattern(Some(" ")), None);
    assert_eq!(like_pattern(None), None);
}

#[test]
fn clock_readings() {
    assert!(now_ms() > 1_600_000_000_000);
    assert_eq!(timestamp(None), 0);
    assert_eq!(timestamp(Some(42)), 42);
}

#[test]
fn opening_an_unreachable_path_fails() {
    assert!(matches!(
        History::open_at("/nonexistent-dir-for-glossa/x/history.db"),
        Err(HistoryError::Database(_))
    ));
}

fn text(s: &str) -> SqlValue {
    SqlValue::Text(s.into())
}

#[test]
fn rows_become_summaries_or_an_unexpected_row() {
    let rows = vec![
        vec![text("a"), text("take on"), text(r#"{"senseHere":"承担"}"#), text("main"), SqlValue::Integer(7)],
        vec![text("b"), text("x"), text("oops"), text("popup"), SqlValue::Integer(3)],
    ];
    let items = summaries_from_rows(&rows).unwrap();
    assert_eq!(items.len(), 2);
    assert_eq!((items[0].id.as_str(), items[0].sense.as_str(), items[0].created_at), ("a", "承担", 7));
    assert_eq!((items[1].source.as_str(), items[1].sense.as_str()), ("popup", ""));

    let short = vec![vec![text("a"), text("b")]];
    assert!(matches!(summaries_from_rows(&short), Err(HistoryError::UnexpectedRow)));
    let untyped = vec![vec![text("a"), text("b"), text("c"), text("d"), text("e")]];
    assert!(matches!(summaries_from_rows(&untyped), Err(HistoryError::UnexpectedRow)));
}

#[test]
fn rows_become_a_session() {
    let row = vec![text("a"), text("take on"), SqlValue::Null, text("{}"), text("main"), SqlValue::Integer(9)];
    let turns = vec![vec![text("user"), text("q")], vec![text("assistant"), text("r")]];
    let d = detail_from_rows(&row, &turns).unwrap();
    assert_eq!(d.context, None);
    assert_eq!(d.created_at, 9);
    assert_eq!(d.turns.len(), 2);
    assert_eq!((d.turns[1].role.as_str(), d.turns[1].content.as_str()), ("assistant", "r"));

    let with_context = vec![text("a"), text("t"), text("ctx"), text("{}"), text("main"), SqlValue::Integer(1)];
    assert_eq!(detail_from_rows(&with_context, &vec![]).unwrap().context.as_deref(), Some("ctx"));
    let bad_context = vec![text("a"), text("t"), SqlValue::Integer(1), text("{}"), text("main"), SqlValue::Integer(1)];
    assert!(matches!(detail_from_rows(&bad_context, &vec![]), Err(HistoryError::UnexpectedRow)));
    assert!(matches!(
        turns_from_rows(&vec![vec![text("user")]]),
        Err(HistoryError::UnexpectedRow)
    ));
    assert!(matches!(
        detail_from_rows(&row, &vec![vec![SqlValue::Null, text("r")]]),
        Err(HistoryError::UnexpectedRow)
    ));
}

#[test]
fn statement_parameters() {
    let p = lookup_params("a", "t", None, "{}", "main", 5);
    assert_eq!(p.len(), 6);
    assert!(matches!(&p[2], SqlValue::Null));
    assert!(matches!(&p[5], SqlValue::Integer(5)));
    let p = lookup_params("a", "t", Some("c"), "{}", "main", 5);
    assert!(matches!(&p[2], SqlValue::Text(c) if c == "c"));

    let p = turn_params("a", 2, "user", "q");
    assert!(matches!(&p[1], SqlValue::Integer(2)));
    assert!(matches!(&p[3], SqlValue::Text(c) if c == "q"));

    let p = list_params(10, 20, Some(" ke o "));
    assert!(matches!(&p[0], SqlValue::Text(q) if q == "%ke o%"));
    assert!(matches!(&p[1], SqlValue::Integer(10)));
    assert!(matches!(&p[2], SqlValue::Integer(20)));
    assert!(matches!(&list_params(1, 0, Some("  "))[0], SqlValue::Null));

    assert_eq!(next_seq(&vec![vec![SqlValue::Integer(3)]]).unwrap(), 3);
    assert!(matches!(next_seq(&vec![]), Err(HistoryError::UnexpectedRow)));
    assert!(matches!(next_seq(&vec![vec![SqlValue::Null]]), Err(HistoryError::UnexpectedRow)));
}

#[test]
fn the_same_word_looked_up_twice_is_recorded_twice() {
    let h = memory_history();
    seed(&h, "a", "take on", "承担");
    seed(&h, "b", "take on", "承担");
    let items = list(&h, 10, 0, None).unwrap();
    assert_eq!(items.len(), 2);
    assert!(items.iter().all(|i| i.text == "take on"));
}

#[test]
fn the_subtitle_falls_back_through_the_three_modes() {
    assert_eq!(extract_sense(r#"{"translation":"译文"}"#), "译文");
    assert_eq!(extract_sense(r#"{"english":"I've got this."}"#), "I've got this.");
    assert_eq!(extract_sense(r#"{"senseHere":"承担","translation":"译文"}"#), "承担");
    assert_eq!(extract_sense(r#"{"senseHere":1,"translation":"译文","english":"x"}"#), "译文");
    assert_eq!(extract_sense(r#"{"translation":null,"english":"x"}"#), "x");
    assert_eq!(extract_sense(r#"{"mode":"word"}"#), "");
}

#[test]
fn the_rows_read_for_an_id_decide_the_lookup() {
    let row = vec![text("a"), text("take on"), SqlValue::Null, text("{}"), text("main"), SqlValue::Integer(9)];
    assert!(lookup_of_rows("a", &vec![], &vec![]).unwrap().is_none());
    let d = lookup_of_rows("a", &vec![row.clone()], &vec![vec![text("user"), text("q")]]).unwrap().unwrap();
    assert_eq!((d.id.as_str(), d.turns.len()), ("a", 1));
    assert!(matches!(lookup_of_rows("b", &vec![row.clone()], &vec![]), Err(HistoryError::UnexpectedRow)));
    assert!(matches!(lookup_of_rows("a", &vec![vec![text("a")]], &vec![]), Err(HistoryError::UnexpectedRow)));
}

#[test]
fn statements_keyed_by_an_id() {
    let p = id_params("take");
    assert_eq!(p.len(), 1);
    assert!(matches!(&p[0], SqlValue::Text(t) if t == "take"));
    assert_eq!(clear_statement(), CLEAR_LOOKUPS);
    assert_eq!(clear_statement(), "DELETE FROM lookups;");
}

#[test]
fn every_statement_comes_from_its_builder() {
    assert_eq!(migration_statement(), MIGRATION);
    assert_eq!(insert_lookup_statement(), INSERT_LOOKUP);
    assert_eq!(next_seq_statement(), NEXT_SEQ);
    assert_eq!(insert_turn_statement(), INSERT_TURN);
    assert_eq!(list_statement(), LIST_LOOKUPS);
    assert!(list_statement().contains("ORDER BY created_at DESC"));
    assert_eq!(get_lookup_statement(), GET_LOOKUP);
    assert_eq!(get_turns_statement(), GET_TURNS);
    assert!(get_turns_statement().ends_with("ORDER BY seq"));
    assert_eq!(delete_statement(), DELETE_LOOKUP);
}
