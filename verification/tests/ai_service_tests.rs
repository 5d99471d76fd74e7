use cdrive_cleaner::error::AppError;
use cdrive_cleaner::models::config::{AIProvider, CloudModelProvider};
use cdrive_cleaner::models::scan::{RiskLevel, ScanCategory};
use cdrive_cleaner::services::ai_service::{
    analysis_prompt, anthropic_text, auth_headers, build_api_url, build_models_url, choice_text,
    connection_check, extract_json_payload, parse_category, parse_risk_level, probe_verdict,
    smart_switch, truncate_for_error, uses_system_prompt, ContentBlock, ANALYSIS_PROMPT_HEAD,
};

#[test]
fn api_urls_default_and_configured() {
    assert_eq!(build_api_url(CloudModelProvider::OpenAI, ""), "https://api.openai.com/v1/chat/completions");
    assert_eq!(build_api_url(CloudModelProvider::OpenAI, "https://x.io/v1//"), "https://x.io/v1/chat/completions");
    assert_eq!(build_api_url(CloudModelProvider::Anthropic, ""), "https://api.anthropic.com/v1/messages");
    assert_eq!(build_api_url(CloudModelProvider::Anthropic, "https://p.io/v1/"), "https://p.io/v1/messages");
    assert_eq!(build_api_url(CloudModelProvider::Anthropic, "https://p.io"), "https://p.io/v1/messages");
    assert_eq!(build_api_url(CloudModelProvider::DeepSeek, ""), "https://api.deepseek.com/v1/chat/completions");
    assert_eq!(
        build_api_url(CloudModelProvider::Qwen, ""),
        "https://dashscope.aliyuncs.com/compatible-mode/v1/chat/completions"
    );
    assert_eq!(build_api_url(CloudModelProvider::Custom, "http://h:1/"), "http://h:1/chat/completions");
}

#[test]
fn model_urls() {
    assert_eq!(build_models_url(CloudModelProvider::OpenAI, ""), "https://api.openai.com/v1/models");
    assert_eq!(build_models_url(CloudModelProvider::Anthropic, "https://p.io/v1"), "https://p.io/v1/models");
    assert_eq!(build_models_url(CloudModelProvider::Anthropic, "https://p.io"), "https://p.io/v1/models");
    assert_eq!(build_models_url(CloudModelProvider::Qwen, "https://q/"), "https://q/models");
    assert_eq!(build_models_url(CloudModelProvider::Custom, ""), "/models");
}

#[test]
fn headers_per_service() {
    let a = auth_headers(CloudModelProvider::Anthropic, "k1");
    assert_eq!(a, vec![("x-api-key".to_string(), "k1".to_string()), ("anthropic-version".to_string(), "2023-06-01".to_string())]);
    let o = auth_headers(CloudModelProvider::DeepSeek, "k2");
    assert_eq!(o, vec![("Authorization".to_string(), "Bearer k2".to_string())]);
    assert!(!uses_system_prompt(CloudModelProvider::Anthropic));
    assert!(uses_system_prompt(CloudModelProvider::OpenAI));
}

fn ai_message(r: Result<Option<CloudModelProvider>, AppError>) -> String {
    match r {
        Err(AppError::AIError(m)) => m,
        other => panic!("unexpected {:?}", other),
    }
}

#[test]
fn connection_checks() {
    assert_eq!(connection_check(AIProvider::Local, "", "", "").unwrap(), None);
    assert_eq!(ai_message(connection_check(AIProvider::Cloud(CloudModelProvider::OpenAI), "", "m", "")), "API密钥不能为空");
    assert_eq!(ai_message(connection_check(AIProvider::Cloud(CloudModelProvider::OpenAI), "k", "", "")), "请配置模型名称");
    assert_eq!(ai_message(connection_check(AIProvider::Cloud(CloudModelProvider::Custom), "k", "m", "")), "请配置自定义API地址");
    assert_eq!(
        connection_check(AIProvider::Cloud(CloudModelProvider::Qwen), "k", "m", "").unwrap(),
        Some(CloudModelProvider::Qwen)
    );
}

#[test]
fn probe_verdicts() {
    assert!(probe_verdict(Ok((true, "200 OK".to_string()))).unwrap());
    match probe_verdict(Ok((false, "401 Unauthorized".to_string()))) {
        Err(AppError::AIError(m)) => assert_eq!(m, "连接测试失败: HTTP 401 Unauthorized"),
        other => panic!("unexpected {:?}", other),
    }
    match probe_verdict(Err("timeout".to_string())) {
        Err(AppError::AIError(m)) => assert_eq!(m, "连接测试失败: timeout"),
        other => panic!("unexpected {:?}", other),
    }
}

#[test]
fn reply_texts() {
    let blocks = vec![
        ContentBlock { kind: Some("text".to_string()), text: Some("[1".to_string()) },
        ContentBlock { kind: Some("tool_use".to_string()), text: Some("x".to_string()) },
        ContentBlock { kind: Some("text".to_string()), text: None },
        ContentBlock { kind: Some("text".to_string()), text: Some("]".to_string()) },
    ];
    assert_eq!(anthropic_text(Some(blocks)).unwrap(), "[1\n]");
    let blank = vec![ContentBlock { kind: Some("text".to_string()), text: Some("  ".to_string()) }];
    match anthropic_text(Some(blank)) {
        Err(AppError::AIError(m)) => assert_eq!(m, "AI响应中没有文本内容"),
        other => panic!("unexpected {:?}", other),
    }
    assert!(anthropic_text(None).is_err());
    assert_eq!(choice_text(Some("ok".to_string())).unwrap(), "ok");
    match choice_text(None) {
        Err(AppError::AIError(m)) => assert_eq!(m, "AI响应中没有choices[0].message.content"),
        other => panic!("unexpected {:?}", other),
    }
}

#[test]
fn labels_are_read() {
    assert_eq!(parse_category(" Temporary-Files "), ScanCategory::Temp);
    assert_eq!(parse_category("browser cache"), ScanCategory::Browser);
    assert_eq!(parse_category("回收站"), ScanCategory::Recycle);
    assert_eq!(parse_category("APP_DATA"), ScanCategory::App);
    assert_eq!(parse_category("whatever"), ScanCategory::Other);
    assert_eq!(parse_risk_level(" SAFE"), RiskLevel::Safe);
    assert_eq!(parse_risk_level("极高风险"), RiskLevel::Critical);
    assert_eq!(parse_risk_level("低"), RiskLevel::Low);
    assert_eq!(parse_risk_level("unknown"), RiskLevel::Medium);
}

#[test]
fn error_excerpt_is_cut() {
    assert_eq!(truncate_for_error("  short  "), "short");
    let long: String = std::iter::repeat('错').take(600).collect();
    let cut = truncate_for_error(&long);
    assert_eq!(cut.chars().count(), 503);
    assert!(cut.ends_with("..."));
}

#[test]
fn smart_switch_prefers_local_for_small_batches() {
    let p = AIProvider::Cloud(CloudModelProvider::OpenAI);
    assert_eq!(smart_switch(p, 99, 49), AIProvider::Local);
    assert_eq!(smart_switch(p, 100, 10), p);
    assert_eq!(smart_switch(p, 10, 50), p);
}

#[test]
fn json_payload_extraction() {
    assert_eq!(extract_json_payload("  [1, 2] ").unwrap(), "[1, 2]");
    assert_eq!(extract_json_payload("```json\n[{\"a\":1}]\n```").unwrap(), "[{\"a\":1}]");
    assert_eq!(extract_json_payload("```\r\n{\"a\":1}\r\n```\r\n").unwrap(), "{\"a\":1}");
    assert_eq!(extract_json_payload("Here: [1, x] done").unwrap(), "[1, x]");
    assert_eq!(extract_json_payload("note {\"k\": 2} end").unwrap(), "{\"k\": 2}");
    match extract_json_payload("no json here") {
        Err(AppError::AIError(m)) => assert_eq!(m, "AI响应中没有可解析的JSON"),
        other => panic!("unexpected {:?}", other),
    }
    match extract_json_payload("] before [") {
        Err(AppError::AIError(m)) => assert_eq!(m, "AI响应中没有可解析的JSON"),
        other => panic!("unexpected {:?}", other),
    }
}

#[test]
fn prompt_wraps_files() {
    let p = analysis_prompt("[]");
    assert!(p.starts_with("你正在为 Windows C 盘清理工具做文件识别。"));
    assert!(p.contains("{\"path\":\"原路径\""));
    assert!(p.ends_with("待识别文件 JSON：\n[]"));
    assert_eq!(p, format!("{}[]", ANALYSIS_PROMPT_HEAD));
}
