use hover_dict::capture::{
    capture_selected_text, copy_keys, sentinel, usable_selection, Capture, CaptureAction,
    CaptureEvent, KeyStep, Retry,
};

const SENTINEL: &str = "__HOVER_DICT_CLIPBOARD_SENTINEL_42_1234567890123456789__";

/// Takes a capture up to the point where it waits for the copied text.
fn copied(backup: Option<&str>, image: bool, written: bool) -> Capture {
    let (mut c, first) = capture_selected_text();
    assert!(matches!(first, CaptureAction::Open));
    assert!(matches!(c.step(CaptureEvent::Opened(true)), CaptureAction::ReadText));
    let event = CaptureEvent::TextRead(backup.map(|s| s.to_string()));
    assert!(matches!(c.step(event), CaptureAction::ReadImage));
    assert!(matches!(c.step(CaptureEvent::ImageRead(image)), CaptureAction::StartKeyboard));
    assert!(matches!(c.step(CaptureEvent::KeyboardStarted(true)), CaptureAction::ReadClock));
    let event = CaptureEvent::ClockRead { process_id: 42, nanos: Some(1234567890123456789) };
    assert!(matches!(c.step(event), CaptureAction::WriteSentinel(s) if s == SENTINEL));
    assert!(matches!(c.step(CaptureEvent::SentinelWritten(written)), CaptureAction::Copy));
    assert!(matches!(c.step(CaptureEvent::Copied), CaptureAction::Poll));
    c
}

fn polled(c: &mut Capture, text: &str) -> CaptureAction {
    c.step(CaptureEvent::Polled(Some(text.to_string())))
}

fn outcome(c: &mut Capture) -> Option<String> {
    match c.step(CaptureEvent::Restored) {
        CaptureAction::Finish(t) => t,
        _ => panic!("not finished"),
    }
}

#[test]
fn new_text_is_captured_and_former_text_restored() {
    let mut c = copied(Some("before"), false, true);
    assert!(matches!(polled(&mut c, SENTINEL), CaptureAction::Poll));
    assert!(matches!(c.step(CaptureEvent::Polled(None)), CaptureAction::Poll));
    assert!(matches!(polled(&mut c, " \n"), CaptureAction::Poll));
    let action = polled(&mut c, "  chosen words ");
    assert!(matches!(action, CaptureAction::RestoreText(s) if s == "before"));
    assert_eq!(outcome(&mut c), Some("chosen words".to_string()));
}

#[test]
fn image_goes_before_text_when_restoring() {
    let mut c = copied(Some("before"), true, true);
    assert!(matches!(polled(&mut c, "x"), CaptureAction::RestoreImage));
    assert_eq!(outcome(&mut c), Some("x".to_string()));
}

#[test]
fn empty_clipboard_is_cleared() {
    for backup in [None, Some("")] {
        let mut c = copied(backup, false, true);
        assert!(matches!(polled(&mut c, "x"), CaptureAction::ClearClipboard));
    }
}

#[test]
fn former_text_does_not_count_without_the_sentinel() {
    let mut c = copied(Some("before"), false, false);
    assert!(matches!(polled(&mut c, "before"), CaptureAction::Poll));
    assert!(matches!(polled(&mut c, "after"), CaptureAction::RestoreText(_)));
    assert_eq!(outcome(&mut c), Some("after".to_string()));
}

#[test]
fn same_text_counts_with_the_sentinel() {
    let mut c = copied(Some("before"), false, true);
    assert!(matches!(polled(&mut c, "before"), CaptureAction::RestoreText(_)));
    assert_eq!(outcome(&mut c), Some("before".to_string()));
}

#[test]
fn gives_up_after_ten_readings() {
    let mut c = copied(Some("before"), false, true);
    for _ in 0..9 {
        assert!(matches!(polled(&mut c, SENTINEL), CaptureAction::Poll));
    }
    let action = polled(&mut c, SENTINEL);
    assert!(matches!(action, CaptureAction::RestoreText(s) if s == "before"));
    assert_eq!(outcome(&mut c), None);
}

#[test]
fn tenth_reading_still_counts() {
    let mut c = copied(None, false, true);
    for _ in 0..9 {
        c.step(CaptureEvent::Polled(None));
    }
    assert!(matches!(polled(&mut c, "late"), CaptureAction::ClearClipboard));
    assert_eq!(outcome(&mut c), Some("late".to_string()));
}

#[test]
fn nothing_without_clipboard_or_keyboard() {
    let (mut c, _) = capture_selected_text();
    assert!(matches!(c.step(CaptureEvent::Opened(false)), CaptureAction::Finish(None)));

    let (mut c, _) = capture_selected_text();
    c.step(CaptureEvent::Opened(true));
    c.step(CaptureEvent::TextRead(Some("before".to_string())));
    c.step(CaptureEvent::ImageRead(false));
    assert!(matches!(c.step(CaptureEvent::KeyboardStarted(false)), CaptureAction::Finish(None)));
}

#[test]
fn clock_before_the_epoch_counts_as_zero() {
    let (mut c, _) = capture_selected_text();
    c.step(CaptureEvent::Opened(true));
    c.step(CaptureEvent::TextRead(None));
    c.step(CaptureEvent::ImageRead(false));
    c.step(CaptureEvent::KeyboardStarted(true));
    let action = c.step(CaptureEvent::ClockRead { process_id: 7, nanos: None });
    assert!(matches!(action, CaptureAction::WriteSentinel(s)
        if s == "__HOVER_DICT_CLIPBOARD_SENTINEL_7_0__"));
}

#[test]
fn selection_is_limited_in_bytes() {
    assert_eq!(usable_selection(""), None);
    assert_eq!(usable_selection(" \u{3000}"), None);
    let limit = "a".repeat(2000);
    assert_eq!(usable_selection(&format!("  {}  ", limit)), Some(limit.clone()));
    assert_eq!(usable_selection(&format!("{}a", limit)), None);
    let wide = "中".repeat(666);
    assert_eq!(usable_selection(&wide), Some(wide.clone()));
    assert_eq!(usable_selection(&"中".repeat(667)), None);
}

#[test]
fn sentinels() {
    assert_eq!(sentinel(1, 23), "__HOVER_DICT_CLIPBOARD_SENTINEL_1_23__");
    assert!(sentinel(1, 23) != sentinel(12, 3));
    assert_eq!(
        sentinel(u32::MAX, u128::MAX),
        format!("__HOVER_DICT_CLIPBOARD_SENTINEL_{}_{}__", u32::MAX, u128::MAX)
    );
}

#[test]
fn three_attempts() {
    let mut retry = Retry::new();
    assert!(retry.again());
    assert!(retry.again());
    assert!(!retry.again());
}

#[test]
fn key_strokes() {
    assert_eq!(
        copy_keys(),
        vec![
            KeyStep::PauseMs(50),
            KeyStep::PressModifier,
            KeyStep::PauseMs(20),
            KeyStep::ClickCopy,
            KeyStep::PauseMs(20),
            KeyStep::ReleaseModifier,
        ]
    );
}

#[test]
fn usable_selection_stays_usable() {
    for text in [" a b ", "\u{2028}中文\u{a0}", "x"] {
        let once = usable_selection(text).unwrap();
        assert_eq!(once, text.trim());
        assert_eq!(usable_selection(&once), Some(once.clone()));
    }
}

#[test]
fn pauses_before_readings_and_after_failures() {
    let mut c = copied(Some("before"), false, true);
    let poll = c.step(CaptureEvent::Polled(None));
    assert_eq!(poll.pause_ms(), 80);
    assert_eq!(polled(&mut c, "word").pause_ms(), 0);
    assert_eq!(CaptureAction::Copy.pause_ms(), 0);
    let mut retry = Retry::new();
    assert_eq!(retry.pause_ms(), 50);
    assert!(retry.again());
    assert_eq!(retry.pause_ms(), 50);
}
