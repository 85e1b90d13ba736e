use hover_dict::menu::{build_tray_menu, menu_command, MenuCommand, MenuEntry, Switches};
use hover_dict::translator::{ModelItem, ModelsConfig};

fn config(active: &str, ids: &[&str]) -> ModelsConfig {
    ModelsConfig {
        active_model: active.to_string(),
        api_endpoint: String::new(),
        api_key_env_var: String::new(),
        models: ids
            .iter()
            .map(|id| ModelItem { id: id.to_string(), name: format!("name of {}", id) })
            .collect(),
    }
}

#[test]
fn menu_has_six_lines() {
    let menu = build_tray_menu(true, false, true, &config("b", &["a", "b"]));
    assert_eq!(menu.len(), 6);
    assert!(matches!(&menu[0], MenuEntry::Check { id, label, checked }
        if *id == "toggle_capture" && *label == "开启划词翻译" && *checked));
    assert!(matches!(&menu[1], MenuEntry::Check { id, label, checked }
        if *id == "toggle_llm" && *label == "开启大模型翻译" && !*checked));
    assert!(matches!(&menu[2], MenuEntry::Check { id, label, checked }
        if *id == "toggle_pin" && *label == "翻译窗口置顶" && *checked));
    match &menu[3] {
        MenuEntry::Models { label, entries } => {
            assert_eq!(*label, "选择模型");
            assert_eq!(entries.len(), 2);
            assert_eq!(entries[0].id, "model_a");
            assert_eq!(entries[0].label, "  name of a");
            assert_eq!(entries[1].id, "model_b");
            assert_eq!(entries[1].label, "√ name of b");
        }
        _ => panic!("no models"),
    }
    assert!(matches!(menu[4], MenuEntry::Separator));
    assert!(matches!(&menu[5], MenuEntry::Item { id, label }
        if *id == "quit" && *label == "彻底退出"));
}

#[test]
fn menu_without_models() {
    let menu = build_tray_menu(false, false, false, &config("x", &[]));
    assert!(matches!(&menu[3], MenuEntry::Models { entries, .. } if entries.is_empty()));
}

#[test]
fn commands() {
    assert!(matches!(menu_command("quit"), MenuCommand::Quit));
    assert!(matches!(menu_command("toggle_capture"), MenuCommand::ToggleCapture));
    assert!(matches!(menu_command("toggle_llm"), MenuCommand::ToggleLlm));
    assert!(matches!(menu_command("toggle_pin"), MenuCommand::TogglePin));
    assert!(matches!(menu_command("model_x/y"), MenuCommand::SelectModel(id) if id == "x/y"));
    assert!(matches!(menu_command("model_"), MenuCommand::SelectModel(id) if id.is_empty()));
    assert!(matches!(menu_command(""), MenuCommand::Ignore));
    assert!(matches!(menu_command("quit "), MenuCommand::Ignore));
    assert!(matches!(menu_command("Model_x"), MenuCommand::Ignore));
}

#[test]
fn line_of_a_model_selects_it() {
    let mut config = config("a", &["a", "b/c-1"]);
    let menu = build_tray_menu(true, true, false, &config);
    let id = match &menu[3] {
        MenuEntry::Models { entries, .. } => entries[1].id.clone(),
        _ => panic!("no models"),
    };
    match menu_command(&id) {
        MenuCommand::SelectModel(id) => config.select(id),
        _ => panic!("no selection"),
    }
    assert_eq!(config.active_model, "b/c-1");
    match &build_tray_menu(true, true, false, &config)[3] {
        MenuEntry::Models { entries, .. } => {
            assert_eq!(entries[0].label, "  name of a");
            assert_eq!(entries[1].label, "√ name of b/c-1");
        }
        _ => panic!("no models"),
    }
}

#[test]
fn prefix_within_an_id_is_lost() {
    assert!(matches!(menu_command("model_model_a"), MenuCommand::SelectModel(id) if id == "a"));
}

#[test]
fn initial_switches() {
    assert_eq!(Switches::initial(), Switches { capture: true, llm: true, pinned: false });
}
