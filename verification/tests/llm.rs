use hover_dict::llm::{
    answer_content, answer_result, payload, read_answer, LlmAction, LlmError, LlmEvent,
    LlmTranslator,
};
use hover_dict::translator::{ModelsConfig, TranslateResult};

fn config() -> ModelsConfig {
    ModelsConfig {
        active_model: "some/model".to_string(),
        api_endpoint: "https://example.org/v1".to_string(),
        api_key_env_var: "KEY".to_string(),
        models: Vec::new(),
    }
}

fn key() -> Option<String> {
    Some("k-1".to_string())
}

fn finished(action: LlmAction) -> Result<Option<TranslateResult>, LlmError> {
    match action {
        LlmAction::Finish(r) => r,
        _ => panic!("not finished"),
    }
}

fn message_of(action: LlmAction) -> String {
    match finished(action) {
        Err(e) => e.message(),
        Ok(_) => panic!("no error"),
    }
}

fn ok_status() -> LlmEvent {
    LlmEvent::Status { code: 200, line: "200 OK".to_string() }
}

#[test]
fn missing_key_sends_nothing() {
    for key in [None, Some(String::new())] {
        let (_, action) = LlmTranslator::translate("text", &config(), key);
        assert_eq!(
            message_of(action),
            "API key is missing. Please set environment variable."
        );
    }
}

#[test]
fn request_is_built_from_the_configuration() {
    let (_, action) = LlmTranslator::translate("你好 \"world\"", &config(), key());
    match action {
        LlmAction::Send(request) => {
            assert_eq!(request.endpoint, "https://example.org/v1");
            assert_eq!(request.authorization, "Bearer k-1");
            assert_eq!(request.payload["model"].as_str(), Some("some/model"));
            let messages = request.payload["messages"].as_array().unwrap();
            assert_eq!(messages.len(), 2);
            assert_eq!(messages[0]["role"].as_str(), Some("system"));
            assert!(messages[0]["content"].as_str().unwrap().starts_with("你是一个专业的翻译助手。"));
            assert_eq!(messages[1]["role"].as_str(), Some("user"));
            assert_eq!(messages[1]["content"].as_str(), Some("你好 \"world\""));
            assert_eq!(request.payload.as_object().unwrap().len(), 2);
            assert_eq!(messages[1].as_object().unwrap().len(), 2);
        }
        _ => panic!("no request"),
    }
}

#[test]
fn payload_text() {
    let text = payload("m", "t").to_string();
    assert_eq!(
        text,
        "{\"messages\":[{\"content\":\"你是一个专业的翻译助手。请将用户输入的文本翻译成中文。如果是中文，则翻译成英文。请只输出翻译结果，不要输出任何额外的解释或语气词。\",\"role\":\"system\"},{\"content\":\"t\",\"role\":\"user\"}],\"model\":\"m\"}"
    );
}

#[test]
fn success_gives_the_trimmed_content() {
    let (mut exchange, _) = LlmTranslator::translate("hello there", &config(), key());
    assert!(matches!(exchange.step(ok_status()), LlmAction::ReadAnswer));
    let body = "{\"choices\":[{\"message\":{\"content\":\" 你好 \\n\"}},{}]}";
    let action = exchange.step(LlmEvent::Answer(Ok(body.as_bytes().to_vec())));
    let result = match finished(action) {
        Ok(Some(r)) => r,
        _ => panic!("no result"),
    };
    assert_eq!(result.source_text, "hello there");
    assert_eq!(result.translation, "你好");
    assert_eq!(result.phonetic, None);
    assert!(result.is_llm);
    assert!(!result.is_error);
}

#[test]
fn refusal_quotes_status_and_body() {
    let (mut exchange, _) = LlmTranslator::translate("x", &config(), key());
    let status = LlmEvent::Status { code: 401, line: "401 Unauthorized".to_string() };
    assert!(matches!(exchange.step(status), LlmAction::ReadRefusal));
    let action = exchange.step(LlmEvent::Refusal(Some("bad key".to_string())));
    assert_eq!(message_of(action), "API Request failed: 401 Unauthorized - bad key");

    let (mut exchange, _) = LlmTranslator::translate("x", &config(), key());
    let status = LlmEvent::Status { code: 300, line: "300 Multiple Choices".to_string() };
    assert!(matches!(exchange.step(status), LlmAction::ReadRefusal));
    let action = exchange.step(LlmEvent::Refusal(None));
    assert_eq!(message_of(action), "API Request failed: 300 Multiple Choices - ");
}

#[test]
fn status_codes_of_success() {
    for (code, success) in [(199, false), (200, true), (299, true), (300, false), (500, false)] {
        let (mut exchange, _) = LlmTranslator::translate("x", &config(), key());
        let action = exchange.step(LlmEvent::Status { code, line: String::new() });
        assert_eq!(matches!(action, LlmAction::ReadAnswer), success);
    }
}

#[test]
fn transport_errors_are_passed_on() {
    let (mut exchange, _) = LlmTranslator::translate("x", &config(), key());
    let action = exchange.step(LlmEvent::Unsent("no route".to_string()));
    assert_eq!(message_of(action), "no route");

    let (mut exchange, _) = LlmTranslator::translate("x", &config(), key());
    exchange.step(ok_status());
    let action = exchange.step(LlmEvent::Answer(Err("cut off".to_string())));
    assert_eq!(message_of(action), "cut off");
}

#[test]
fn answers_that_are_not_json() {
    for body in ["", "{", "[1,]", "nothing"] {
        match read_answer("x", body.as_bytes()) {
            Err(LlmError::Undecodable) => {}
            _ => panic!("decoded"),
        }
    }
    match read_answer("x", &[0xff, 0xfe]) {
        Err(e) => assert_eq!(e.message(), "error decoding response body"),
        Ok(_) => panic!("decoded"),
    }
}

#[test]
fn answers_without_content() {
    for body in [
        "null",
        "{}",
        "{\"choices\":[]}",
        "{\"choices\":{\"0\":{\"message\":{\"content\":\"x\"}}}}",
        "{\"choices\":[{\"message\":{\"content\":null}}]}",
        "{\"choices\":[{\"message\":{\"content\":7}}]}",
        "{\"choices\":[{\"message\":[\"content\"]}]}",
        "[{\"choices\":1}]",
    ] {
        match read_answer("x", body.as_bytes()) {
            Err(e) => assert_eq!(e.message(), "Failed to parse LLM response."),
            Ok(_) => panic!("content in {}", body),
        }
    }
}

#[test]
fn content_of_the_first_choice() {
    let mut message = serde_json::Map::new();
    message.insert("content".to_string(), serde_json::Value::String(" hi ".to_string()));
    let mut choice = serde_json::Map::new();
    choice.insert("message".to_string(), serde_json::Value::Object(message));
    let mut answer = serde_json::Map::new();
    answer.insert(
        "choices".to_string(),
        serde_json::Value::Array(vec![serde_json::Value::Object(choice)]),
    );
    let answer = serde_json::Value::Object(answer);
    assert_eq!(answer_content(&answer), Some(" hi ".to_string()));
    match answer_result("src", &answer) {
        Ok(Some(r)) => assert_eq!(r.translation, "hi"),
        _ => panic!("no result"),
    }
    assert_eq!(answer_content(&serde_json::Value::Null), None);
}

#[test]
fn empty_content_is_a_translation() {
    match read_answer("x", b"{\"choices\":[{\"message\":{\"content\":\"  \"}}]}") {
        Ok(Some(r)) => assert_eq!(r.translation, ""),
        _ => panic!("no result"),
    }
}
