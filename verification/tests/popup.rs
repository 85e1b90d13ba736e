use hover_dict::popup::{popup_content, result_theme, Rgb, Source};
use hover_dict::translator::TranslateResult;

fn result(source: &str, phonetic: Option<&str>, is_llm: bool, is_error: bool) -> TranslateResult {
    TranslateResult {
        source_text: source.to_string(),
        phonetic: phonetic.map(|p| p.to_string()),
        translation: "body".to_string(),
        is_llm,
        is_error,
    }
}

#[test]
fn themes() {
    let t = result_theme(&result("", None, false, true));
    assert_eq!((t.title, t.subtitle), ("大模型翻译失败", "请求未完成"));
    assert_eq!(t.accent, Rgb { r: 196, g: 61, b: 58 });
    let t = result_theme(&result("", None, true, true));
    assert_eq!(t.title, "大模型翻译失败");
    let t = result_theme(&result("", None, true, false));
    assert_eq!((t.title, t.subtitle), ("大模型翻译", "智能翻译"));
    assert_eq!(t.accent, Rgb { r: 40, g: 112, b: 198 });
    let t = result_theme(&result("", None, false, false));
    assert_eq!((t.title, t.subtitle), ("本地词典", "离线词库"));
    assert_eq!(t.accent, Rgb { r: 43, g: 132, b: 101 });
}

#[test]
fn dictionary_entry_shows_the_word() {
    let c = popup_content(&result(" word ", Some("wɜːd"), false, false));
    match c.source {
        Source::Word { word, phonetic } => {
            assert_eq!(word, " word ");
            assert_eq!(phonetic, Some("[wɜːd]".to_string()));
        }
        _ => panic!("preview"),
    }
    assert_eq!(c.body, "body");
    assert_eq!(c.body_color, Rgb { r: 30, g: 34, b: 40 });
    assert_eq!(c.body_size, 140);
    match popup_content(&result("word", None, false, false)).source {
        Source::Word { phonetic, .. } => assert_eq!(phonetic, None),
        _ => panic!("preview"),
    }
}

#[test]
fn model_answer_shows_a_preview() {
    let long = "x".repeat(121);
    let c = popup_content(&result(&long, None, true, false));
    match c.source {
        Source::Preview(t) => assert_eq!(t, format!("{}...", "x".repeat(120))),
        _ => panic!("word"),
    }
    assert_eq!(c.body_color, Rgb { r: 30, g: 34, b: 40 });
    assert_eq!(c.body_size, 150);
}

#[test]
fn failure_is_red_and_shows_a_preview() {
    let c = popup_content(&result(" short ", None, false, true));
    assert!(matches!(c.source, Source::Preview(t) if t == "short"));
    assert_eq!(c.body_color, Rgb { r: 112, g: 38, b: 38 });
    assert_eq!(c.body_size, 140);
    assert_eq!(popup_content(&result("", None, true, true)).body_size, 150);
}
