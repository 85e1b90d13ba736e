use hover_dict::layout::PopupSize;
use hover_dict::menu::Switches;
use hover_dict::translator::TranslateResult;
use hover_dict::window::{Effect, HoverDictApp, SharedState};
use std::time::Instant;

fn entry() -> TranslateResult {
    TranslateResult {
        source_text: "word".to_string(),
        phonetic: None,
        translation: "词".to_string(),
        is_llm: false,
        is_error: false,
    }
}

/// A short name for each effect.
fn names(effects: &[Effect]) -> Vec<String> {
    effects
        .iter()
        .map(|e| match e {
            Effect::Quit => "quit".to_string(),
            Effect::Notify { title, body } => format!("notify {} {}", title, body),
            Effect::RebuildMenu => "menu".to_string(),
            Effect::SelectModel(id) => format!("select {}", id),
            Effect::SetLevel { on_top } => format!("level {}", on_top),
            Effect::HideFromTaskbar => "taskbar".to_string(),
            Effect::Park => "park".to_string(),
            Effect::Focus => "focus".to_string(),
            Effect::Place { x, y, size } => {
                format!("place {} {} {}x{}", x, y, size.width, size.height)
            }
            Effect::Draw(r) => match r {
                Some(r) => format!("draw {}", r.translation),
                None => "draw".to_string(),
            },
            Effect::RefreshAfterMs(ms) => format!("refresh {}", ms),
        })
        .collect()
}

fn running() -> (HoverDictApp, SharedState) {
    let mut app = HoverDictApp::new();
    let mut shared = SharedState::new();
    app.update(&mut shared, None, false);
    (app, shared)
}

#[test]
fn first_frame_parks_the_window() {
    let mut app = HoverDictApp::new();
    let mut shared = SharedState::new();
    let done = app.update(&mut shared, None, false);
    assert_eq!(names(&done), ["taskbar", "park", "taskbar", "refresh 100"]);
    let done = app.update(&mut shared, None, false);
    assert_eq!(names(&done), ["taskbar", "refresh 100"]);
}

#[test]
fn result_is_shown_once_and_then_redrawn() {
    let (mut app, mut shared) = running();
    shared.show_result_window(entry(), 30, 40, Instant::now());
    assert!(shared.shown_at.is_some());
    let done = app.update(&mut shared, None, false);
    assert_eq!(
        names(&done),
        ["taskbar", "level false", "focus", "place 30 40 360x240", "draw 词", "refresh 100"]
    );
    assert!(app.last_visible);
    assert!(shared.pending_pos.is_none());
    let done = app.update(&mut shared, None, false);
    assert_eq!(names(&done), ["taskbar", "draw 词", "refresh 100"]);
}

#[test]
fn second_result_moves_the_window_without_raising_it() {
    let (mut app, mut shared) = running();
    shared.show_result_window(entry(), 1, 2, Instant::now());
    app.update(&mut shared, None, false);
    shared.show_result_window(TranslateResult::error("s", "no".to_string()), 3, 4, Instant::now());
    let done = app.update(&mut shared, None, false);
    assert_eq!(names(&done), ["taskbar", "place 3 4 460x300", "draw no", "refresh 100"]);
}

#[test]
fn escape_puts_the_window_away() {
    let (mut app, mut shared) = running();
    shared.show_result_window(entry(), 1, 2, Instant::now());
    app.update(&mut shared, None, false);
    let done = app.update(&mut shared, None, true);
    assert_eq!(names(&done), ["taskbar", "park", "refresh 100"]);
    assert!(!shared.is_window_visible);
    assert!(shared.current_result.is_some());
    let done = app.update(&mut shared, None, true);
    assert_eq!(names(&done), ["taskbar", "refresh 100"]);
}

#[test]
fn escape_before_the_first_drawing_uses_up_the_place() {
    let (mut app, mut shared) = running();
    shared.show_result_window(entry(), 1, 2, Instant::now());
    let done = app.update(&mut shared, None, true);
    assert_eq!(names(&done), ["taskbar", "refresh 100"]);
    assert!(shared.pending_pos.is_none());
}

#[test]
fn putting_away_keeps_the_result() {
    let (mut app, mut shared) = running();
    shared.show_result_window(entry(), 1, 2, Instant::now());
    app.update(&mut shared, None, false);
    shared.put_away();
    assert!(shared.current_result.is_some());
    let done = app.update(&mut shared, None, false);
    assert_eq!(names(&done), ["taskbar", "park", "refresh 100"]);
}

#[test]
fn switches_are_announced_and_the_menu_rebuilt() {
    let (mut app, mut shared) = running();
    let done = app.update(&mut shared, Some("toggle_capture"), false);
    assert_eq!(names(&done), ["notify 划词翻译 已关闭", "menu", "taskbar", "refresh 100"]);
    assert_eq!(app.switches, Switches { capture: false, llm: true, pinned: false });
    let done = app.update(&mut shared, Some("toggle_capture"), false);
    assert_eq!(names(&done)[0], "notify 划词翻译 已开启");
    assert_eq!(app.switches, Switches::initial());
    let done = app.update(&mut shared, Some("toggle_llm"), false);
    assert_eq!(names(&done)[0], "notify 大模型翻译 已关闭");
    assert!(!app.switches.llm);
    let done = app.update(&mut shared, Some("toggle_pin"), false);
    assert_eq!(names(&done), ["notify 翻译窗口置顶 已开启", "menu", "taskbar", "refresh 100"]);
    assert!(app.switches.pinned);
}

#[test]
fn pinning_a_visible_window_changes_its_level_at_once() {
    let (mut app, mut shared) = running();
    shared.show_result_window(entry(), 1, 2, Instant::now());
    app.update(&mut shared, None, false);
    let done = app.update(&mut shared, Some("toggle_pin"), false);
    assert_eq!(
        names(&done),
        ["notify 翻译窗口置顶 已开启", "menu", "level true", "taskbar", "draw 词", "refresh 100"]
    );
    app.update(&mut shared, None, true);
    shared.show_result_window(entry(), 1, 2, Instant::now());
    let done = app.update(&mut shared, None, false);
    assert_eq!(names(&done)[1], "level true");
}

#[test]
fn selecting_a_model_and_other_lines() {
    let (mut app, mut shared) = running();
    let done = app.update(&mut shared, Some("model_m"), false);
    assert_eq!(names(&done), ["select m", "taskbar", "refresh 100"]);
    let done = app.update(&mut shared, Some("other"), false);
    assert_eq!(names(&done), ["taskbar", "refresh 100"]);
}

#[test]
fn quitting_does_nothing_else() {
    let (mut app, mut shared) = running();
    shared.show_result_window(entry(), 1, 2, Instant::now());
    let done = app.update(&mut shared, Some("quit"), true);
    assert_eq!(names(&done), ["quit"]);
    assert!(shared.is_window_visible);
}

#[test]
fn window_without_a_result_is_small() {
    let (mut app, mut shared) = running();
    shared.is_window_visible = true;
    shared.pending_pos = Some((5, 6));
    let done = app.update(&mut shared, None, false);
    assert!(matches!(&done[3], Effect::Place { x: 5, y: 6, size }
        if *size == PopupSize { width: 320, height: 220 }));
    assert!(matches!(&done[4], Effect::Draw(None)));
}

/// Where the window is and whether it is above others, after some effects.
fn follow(effects: &[Effect], on_screen: &mut bool, on_top: &mut bool) {
    for effect in effects {
        match effect {
            Effect::Park => *on_screen = false,
            Effect::Place { .. } => *on_screen = true,
            Effect::SetLevel { on_top: level } => *on_top = *level,
            _ => {}
        }
    }
}

#[test]
fn window_follows_the_state_through_many_events() {
    let mut app = HoverDictApp::new();
    let mut shared = SharedState::new();
    let (mut on_screen, mut on_top) = (true, true);
    let mut seed: u32 = 12345;
    for _ in 0..5000 {
        seed = seed.wrapping_mul(1664525).wrapping_add(1013904223);
        let roll = seed >> 16;
        match roll % 7 {
            0 => shared.show_result_window(entry(), 1, 2, Instant::now()),
            1 => shared.put_away(),
            2 => {
                shared.put_away();
                on_screen = false;
            }
            _ => {
                let command = match (roll >> 4) % 6 {
                    0 => Some("toggle_pin"),
                    1 => Some("toggle_llm"),
                    2 => Some("model_m"),
                    _ => None,
                };
                let done = app.update(&mut shared, command, (roll >> 8) % 5 == 0);
                follow(&done, &mut on_screen, &mut on_top);
                assert_eq!(on_screen, shared.is_window_visible);
                assert_eq!(app.last_visible, shared.is_window_visible);
                assert!(shared.pending_pos.is_none());
                if shared.is_window_visible {
                    assert_eq!(on_top, app.switches.pinned);
                }
            }
        }
    }
}
