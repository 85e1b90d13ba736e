use hover_dict::translator::{ModelItem, ModelsConfig, TranslateResult};

fn stored() -> ModelsConfig {
    ModelsConfig {
        active_model: "a".to_string(),
        api_endpoint: "https://example.org".to_string(),
        api_key_env_var: "KEY".to_string(),
        models: vec![ModelItem { id: "a".to_string(), name: "Alpha".to_string() }],
    }
}

#[test]
fn default_configuration_without_a_stored_one() {
    let config = ModelsConfig::load(None);
    assert_eq!(config.active_model, "tencent/Hunyuan-MT-7B");
    assert_eq!(config.api_endpoint, "https://api.siliconflow.cn/v1/chat/completions");
    assert_eq!(config.api_key_env_var, "SILICONFLOW_API_KEY");
    assert!(config.models.is_empty());
}

#[test]
fn stored_configuration_is_taken() {
    let config = ModelsConfig::load(Some(stored()));
    assert_eq!(config.active_model, "a");
    assert_eq!(config.models.len(), 1);
    assert_eq!(config.models[0].name, "Alpha");
}

#[test]
fn selecting_changes_the_model_alone() {
    let mut config = stored();
    config.select("b".to_string());
    assert_eq!(config.active_model, "b");
    assert_eq!(config.api_endpoint, "https://example.org");
    assert_eq!(config.api_key_env_var, "KEY");
    assert_eq!(config.models[0].id, "a");
}

#[test]
fn clones_hold_the_same() {
    let config = stored().clone();
    assert_eq!(config.api_key_env_var, "KEY");
    assert_eq!(config.models[0].id, "a");
    assert_eq!(config.models[0].name, "Alpha");
    let result = TranslateResult {
        source_text: "s".to_string(),
        phonetic: Some("p".to_string()),
        translation: "t".to_string(),
        is_llm: false,
        is_error: false,
    }
    .clone();
    assert_eq!(result.source_text, "s");
    assert_eq!(result.phonetic, Some("p".to_string()));
    assert_eq!(result.translation, "t");
}

#[test]
fn failure_carries_its_message() {
    let e = TranslateResult::error("source", "message".to_string());
    assert_eq!(e.source_text, "source");
    assert_eq!(e.translation, "message");
    assert_eq!(e.phonetic, None);
    assert!(e.is_error);
    assert!(e.is_llm);
}
