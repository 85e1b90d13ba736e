use hover_dict::llm::LlmError;
use hover_dict::route::{announce, Route, RouteAction, RouteEvent};
use hover_dict::translator::TranslateResult;

fn found(source: &str, translation: &str, is_llm: bool) -> TranslateResult {
    TranslateResult {
        source_text: source.to_string(),
        phonetic: None,
        translation: translation.to_string(),
        is_llm,
        is_error: false,
    }
}

fn hit() -> RouteEvent {
    RouteEvent::LookedUp(Ok(Some(found("s", "entry", false))))
}

fn miss() -> RouteEvent {
    RouteEvent::LookedUp(Ok(None))
}

fn answer() -> RouteEvent {
    RouteEvent::Asked(Ok(Some(found("s", "answer", true))))
}

/// Runs a translation to its end; the letters say who was asked in what order.
fn run(text: &str, llm: bool, dict: fn() -> RouteEvent, model: fn() -> RouteEvent) -> (String, Option<TranslateResult>) {
    let mut asked = String::new();
    let (mut route, mut action) = Route::new(text, llm);
    loop {
        action = match action {
            RouteAction::LookUp => {
                asked.push('d');
                route.step(dict())
            }
            RouteAction::Ask => {
                asked.push('m');
                route.step(model())
            }
            RouteAction::Finish(r) => return (asked, r),
        };
    }
}

fn empty_answer() -> RouteEvent {
    RouteEvent::Asked(Ok(None))
}

fn no_content() -> RouteEvent {
    RouteEvent::Asked(Err(LlmError::NoContent))
}

fn dict_error() -> RouteEvent {
    RouteEvent::LookedUp(Err("locked".to_string()))
}

#[test]
fn word_goes_to_the_dictionary_first() {
    let (asked, r) = run("word", true, hit, answer);
    assert_eq!(asked, "d");
    assert_eq!(r.unwrap().translation, "entry");
}

#[test]
fn unknown_word_goes_to_the_model() {
    let (asked, r) = run("word", true, miss, answer);
    assert_eq!(asked, "dm");
    assert_eq!(r.unwrap().translation, "answer");
    let (asked, r) = run("word", true, dict_error, answer);
    assert_eq!(asked, "dm");
    assert_eq!(r.unwrap().translation, "answer");
}

#[test]
fn unknown_word_and_failing_model_show_the_failure() {
    let (asked, r) = run("word", true, miss, no_content);
    assert_eq!(asked, "dm");
    let r = r.unwrap();
    assert!(r.is_error);
    assert_eq!(r.source_text, "word");
    assert_eq!(r.translation, "Failed to parse LLM response.");
    let (_, r) = run("word", true, miss, empty_answer);
    assert_eq!(r.unwrap().translation, "大模型没有返回翻译结果");
}

#[test]
fn sentence_goes_to_the_model_first() {
    let (asked, r) = run("one two three", true, hit, answer);
    assert_eq!(asked, "m");
    assert_eq!(r.unwrap().translation, "answer");
}

#[test]
fn sentence_falls_back_to_the_dictionary() {
    for model in [no_content as fn() -> RouteEvent, empty_answer] {
        let (asked, r) = run("one two three", true, hit, model);
        assert_eq!(asked, "md");
        assert_eq!(r.unwrap().translation, "entry");
    }
}

#[test]
fn sentence_without_any_translation_shows_the_failure() {
    let (asked, r) = run("one, two", true, miss, no_content);
    assert_eq!(asked, "md");
    let r = r.unwrap();
    assert!(r.is_error);
    assert_eq!(r.source_text, "one, two");
    assert_eq!(r.translation, "Failed to parse LLM response.");
    let (_, r) = run("one, two", true, dict_error, empty_answer);
    assert_eq!(r.unwrap().translation, "大模型没有返回翻译结果");
}

#[test]
fn model_switched_off_is_never_asked() {
    for text in ["word", "one two three", "stop."] {
        let (asked, r) = run(text, false, miss, answer);
        assert_eq!(asked, "d");
        assert!(r.is_none());
        let (asked, r) = run(text, false, hit, answer);
        assert_eq!(asked, "d");
        assert_eq!(r.unwrap().translation, "entry");
    }
}

#[test]
fn announcements() {
    let a = announce(None);
    assert!(a.shown.is_none());
    let n = a.notice.unwrap();
    assert_eq!(n.title, "查询结果");
    assert_eq!(n.body, "翻译失败或词库中没有这个词");

    let a = announce(Some(TranslateResult::error("s", "why".to_string())));
    assert!(a.shown.unwrap().is_error);
    let n = a.notice.unwrap();
    assert_eq!(n.title, "大模型翻译失败");
    assert_eq!(n.body, "why");

    let a = announce(Some(found("s", "t", false)));
    assert!(a.notice.is_none());
    assert_eq!(a.shown.unwrap().translation, "t");
}
