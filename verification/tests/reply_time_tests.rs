use cdrive_cleaner::error::AppError;
use cdrive_cleaner::models::config::{AIProvider, CloudModelProvider};
use cdrive_cleaner::models::scan::{FileMetadata, ScanCategory};
use cdrive_cleaner::services::ai_service::{ai_review_wanted, message_content};
use cdrive_cleaner::services::clean_engine::backup_expired;
use cdrive_cleaner::services::scan_engine::ScanEngine;
use cdrive_cleaner::utils::file_utils::cutoff_text;

fn big_file(path: &str, size: u64, category: ScanCategory) -> FileMetadata {
    FileMetadata {
        path: path.to_string(),
        name: String::new(),
        size,
        modified_at: String::new(),
        created_at: String::new(),
        is_directory: false,
        extension: String::new(),
        category,
        hash: String::new(),
    }
}

#[test]
fn anthropic_reply_text_blocks_joined() {
    let reply = r#"{"content":[{"type":"text","text":"a"},{"type":"image"},{"type":"text","text":"b"}]}"#;
    assert_eq!(message_content(CloudModelProvider::Anthropic, reply).unwrap(), "a\nb");
    match message_content(CloudModelProvider::Anthropic, r#"{"content":[{"type":"text","text":"  "}]}"#) {
        Err(AppError::AIError(m)) => assert_eq!(m, "AI响应中没有文本内容"),
        other => panic!("unexpected {:?}", other),
    }
    match message_content(CloudModelProvider::Anthropic, r#"{"content":"x"}"#) {
        Err(AppError::AIError(m)) => assert_eq!(m, "AI响应中没有文本内容"),
        other => panic!("unexpected {:?}", other),
    }
}

#[test]
fn chat_reply_first_choice() {
    let reply = r#"{"choices":[{"message":{"content":"[1]"}},{"message":{"content":"no"}}]}"#;
    assert_eq!(message_content(CloudModelProvider::DeepSeek, reply).unwrap(), "[1]");
    match message_content(CloudModelProvider::OpenAI, r#"{"choices":[]}"#) {
        Err(AppError::AIError(m)) => assert_eq!(m, "AI响应中没有choices[0].message.content"),
        other => panic!("unexpected {:?}", other),
    }
}

#[test]
fn reply_that_is_not_json() {
    match message_content(CloudModelProvider::Qwen, "not json") {
        Err(AppError::AIError(m)) => assert!(m.starts_with("AI响应不是有效JSON: ") && m.len() > "AI响应不是有效JSON: ".len()),
        other => panic!("unexpected {:?}", other),
    }
}

#[test]
fn ai_review_needs_cloud_key_and_model() {
    let cloud = AIProvider::Cloud(CloudModelProvider::OpenAI);
    assert!(ai_review_wanted(cloud, "k", "m"));
    assert!(!ai_review_wanted(cloud, "  ", "m"));
    assert!(!ai_review_wanted(cloud, "k", ""));
    assert!(!ai_review_wanted(AIProvider::Local, "k", "m"));
}

#[test]
fn backups_expire_before_the_cutoff() {
    let now = 1_700_000_000i64;
    assert!(backup_expired((now - 8 * 86400) as u64, now, 7));
    assert!(!backup_expired((now - 6 * 86400) as u64, now, 7));
    assert!(!backup_expired((now - 7 * 86400) as u64, now, 7));
    assert!(backup_expired(u64::MAX, now, 7));
}

#[test]
fn cutoff_text_is_days_before_now() {
    assert_eq!(cutoff_text(86400 * 10, 3).as_deref(), Some("1970-01-08 00:00:00"));
    assert_eq!(cutoff_text(0, 0).as_deref(), Some("1970-01-01 00:00:00"));
}

#[test]
fn categories_whose_sizes_fit_even_if_all_do_not() {
    let half = u64::MAX / 2 + 10;
    let files = vec![
        big_file("C:\\a.tmp", half, ScanCategory::Temp),
        big_file("C:\\b.log", half, ScanCategory::Log),
    ];
    let groups = ScanEngine::categorize_results(files, "t");
    assert_eq!(groups.len(), 2);
    assert!(groups.iter().all(|g| g.total_size == half && g.file_count == 1));
}
