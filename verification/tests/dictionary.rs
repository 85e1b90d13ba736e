use hover_dict::dictionary::{entry, DictAction, DictEvent, DictRow, LocalSqliteDict};
use hover_dict::translator::TranslateResult;

fn query(table: &str) -> String {
    format!("SELECT {} FROM {} WHERE word = ? LIMIT 1", "phonetic, translation", table)
}

fn row(phonetic: &str, translation: &str) -> DictRow {
    DictRow {
        phonetic: Some(Some(phonetic.to_string())),
        translation: Some(translation.to_string()),
    }
}

fn finished(action: DictAction) -> Result<Option<TranslateResult>, String> {
    match action {
        DictAction::Finish(r) => r,
        _ => panic!("not finished"),
    }
}

#[test]
fn lookup_finds_an_entry() {
    let (mut lookup, first) = LocalSqliteDict::new("dict.db").translate("  Hello\n");
    assert!(matches!(first, DictAction::Open { path } if path == "dict.db"));
    let action = lookup.step(DictEvent::Opened(Ok(())));
    assert!(matches!(action, DictAction::Prepare { sql } if sql == query("dictionary")));
    let action = lookup.step(DictEvent::Prepared(Ok(())));
    assert!(matches!(action, DictAction::Query { word } if word == "hello"));
    let action = lookup.step(DictEvent::Answered(Ok(Some(row("həˈləʊ", "int. 喂\\nn. 招呼\\r")))));
    let result = finished(action).unwrap().unwrap();
    assert_eq!(result.source_text, "  Hello\n");
    assert_eq!(result.phonetic, Some("həˈləʊ".to_string()));
    assert_eq!(result.translation, "int. 喂\nn. 招呼");
    assert!(!result.is_llm);
    assert!(!result.is_error);
}

#[test]
fn lookup_falls_back_to_the_other_table() {
    let (mut lookup, _) = LocalSqliteDict::new("d").translate("ÄPFEL");
    lookup.step(DictEvent::Opened(Ok(())));
    let action = lookup.step(DictEvent::Prepared(Err("no such table".to_string())));
    assert!(matches!(action, DictAction::Prepare { sql } if sql == query("stardict")));
    let action = lookup.step(DictEvent::Prepared(Ok(())));
    assert!(matches!(action, DictAction::Query { word } if word == "äpfel"));
    assert!(finished(lookup.step(DictEvent::Answered(Ok(None)))).unwrap().is_none());
}

#[test]
fn lookup_reports_each_error() {
    let (mut lookup, _) = LocalSqliteDict::new("d").translate("x");
    let action = lookup.step(DictEvent::Opened(Err("cannot open".to_string())));
    assert_eq!(finished(action).unwrap_err(), "cannot open");

    let (mut lookup, _) = LocalSqliteDict::new("d").translate("x");
    lookup.step(DictEvent::Opened(Ok(())));
    lookup.step(DictEvent::Prepared(Err("first".to_string())));
    let action = lookup.step(DictEvent::Prepared(Err("second".to_string())));
    assert_eq!(finished(action).unwrap_err(), "second");

    let (mut lookup, _) = LocalSqliteDict::new("d").translate("x");
    lookup.step(DictEvent::Opened(Ok(())));
    lookup.step(DictEvent::Prepared(Ok(())));
    let action = lookup.step(DictEvent::Answered(Err("busy".to_string())));
    assert_eq!(finished(action).unwrap_err(), "busy");
}

#[test]
fn unreadable_and_empty_columns() {
    let r = entry("w", DictRow { phonetic: None, translation: None });
    assert_eq!(r.phonetic, None);
    assert_eq!(r.translation, "");
    let r = entry("w", DictRow { phonetic: Some(None), translation: Some("t".to_string()) });
    assert_eq!(r.phonetic, None);
    assert_eq!(r.translation, "t");
    assert_eq!(entry("w", row("", "t")).phonetic, None);
}

#[test]
fn headword_ignores_surrounding_space() {
    let dict = LocalSqliteDict::new("d");
    for text in ["Word", " Word ", "\u{3000}WORD\t"] {
        let (mut lookup, _) = dict.translate(text);
        lookup.step(DictEvent::Opened(Ok(())));
        let action = lookup.step(DictEvent::Prepared(Ok(())));
        assert!(matches!(action, DictAction::Query { word } if word == "word"));
    }
}

#[test]
fn plain_translation_is_kept() {
    assert_eq!(entry("w", row("p", "n. 词, 单词")).translation, "n. 词, 单词");
}
