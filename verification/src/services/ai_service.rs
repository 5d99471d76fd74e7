//! The rules of the AI file review that need no network: where requests go
//! and with which headers, when a connection test is owed, how a reply's
//! text is found and its JSON cut out, and how labels in a reply are read.
use vstd::prelude::*;

use crate::error::AppError;
use crate::models::config::{AIProvider, CloudModelProvider};
use crate::models::scan::{RiskLevel, ScanCategory};
use crate::services::clean_engine::joined;
use crate::text::{
    chars_of, chars_starts_with, concat, ends_with, is_prefix, is_suffix, lowercase, occurs_at,
    occurs_at_exec, owned, replace_char, replace_char_exec, str_eq, string_of, to_lowercase,
    trim_end_char, trim_end_char_exec, trim_exec, trim_str, trim_ws,
};

verus! {

/// How many characters of a failed reply an error message quotes.
pub const ERROR_TEXT_LIMIT: usize = 500;

/// The request text that comes before the files' JSON.
pub const ANALYSIS_PROMPT_HEAD: &'static str = "你正在为 Windows C 盘清理工具做文件识别。请根据路径、文件名、扩展名、大小、修改时间和当前规则分类，判断这些文件更像哪一类，清理是否安全。\n\n只返回 JSON，不要 Markdown，不要解释性文本。返回值必须是数组，每个元素格式为：{\"path\":\"原路径\",\"category\":\"temp|cache|log|download|recycle|browser|system|app|other\",\"safetyScore\":0到100的数字,\"riskLevel\":\"safe|low|medium|high|critical\",\"safeToClean\":true或false,\"reason\":\"简短原因\",\"recommendation\":\"给用户的简短建议\"}。\n\n安全原则：系统目录、程序安装目录、用户文档、数据库、配置、证书、可执行文件、卸载器、驱动、服务文件默认不要标为安全清理；临时文件、浏览器缓存、更新下载缓存、日志、回收站内容在证据充分时可以标为更安全。\n\n待识别文件 JSON：\n";

/// The system message sent to every service but Anthropic's.
pub const SYSTEM_PROMPT: &'static str = "你是一个Windows系统文件安全分析专家，负责判断文件是否可以安全清理。";

/// One block of an Anthropic reply's content: its type and its text, each
/// when present as a string.
#[derive(Debug, Clone)]
pub struct ContentBlock {
    pub kind: Option<String>,
    pub text: Option<String>,
}

/// A base address without its trailing slashes.
pub open spec fn base_of(base_url: Seq<char>) -> Seq<char> {
    trim_end_char(base_url, '/')
}

/// Where analysis requests go for each service; a configured base address
/// replaces the service's own, and Anthropic's gets `/v1` unless it ends so.
pub open spec fn api_url(provider: CloudModelProvider, base_url: Seq<char>) -> Seq<char> {
    match provider {
        CloudModelProvider::OpenAI => if base_url.len() == 0 {
            "https://api.openai.com/v1/chat/completions"@
        } else {
            base_of(base_url) + "/chat/completions"@
        },
        CloudModelProvider::Anthropic => if base_url.len() == 0 {
            "https://api.anthropic.com/v1/messages"@
        } else if is_suffix("/v1"@, base_of(base_url)) {
            base_of(base_url) + "/messages"@
        } else {
            base_of(base_url) + "/v1/messages"@
        },
        CloudModelProvider::DeepSeek => if base_url.len() == 0 {
            "https://api.deepseek.com/v1/chat/completions"@
        } else {
            base_of(base_url) + "/chat/completions"@
        },
        CloudModelProvider::Qwen => if base_url.len() == 0 {
            "https://dashscope.aliyuncs.com/compatible-mode/v1/chat/completions"@
        } else {
            base_of(base_url) + "/chat/completions"@
        },
        CloudModelProvider::Custom => base_of(base_url) + "/chat/completions"@,
    }
}

/// Where the model list of each service is asked for, on the same rules.
pub open spec fn models_url(provider: CloudModelProvider, base_url: Seq<char>) -> Seq<char> {
    match provider {
        CloudModelProvider::OpenAI => if base_url.len() == 0 {
            "https://api.openai.com/v1/models"@
        } else {
            base_of(base_url) + "/models"@
        },
        CloudModelProvider::Anthropic => if base_url.len() == 0 {
            "https://api.anthropic.com/v1/models"@
        } else if is_suffix("/v1"@, base_of(base_url)) {
            base_of(base_url) + "/models"@
        } else {
            base_of(base_url) + "/v1/models"@
        },
        CloudModelProvider::DeepSeek => if base_url.len() == 0 {
            "https://api.deepseek.com/v1/models"@
        } else {
            base_of(base_url) + "/models"@
        },
        CloudModelProvider::Qwen => if base_url.len() == 0 {
            "https://dashscope.aliyuncs.com/compatible-mode/v1/models"@
        } else {
            base_of(base_url) + "/models"@
        },
        CloudModelProvider::Custom => base_of(base_url) + "/models"@,
    }
}

/// The authentication headers of a request, as name and value.
pub open spec fn auth_header_list(provider: CloudModelProvider, api_key: Seq<char>) -> Seq<
    (Seq<char>, Seq<char>),
> {
    match provider {
        CloudModelProvider::Anthropic => seq![
            ("x-api-key"@, api_key),
            ("anthropic-version"@, "2023-06-01"@),
        ],
        _ => seq![("Authorization"@, "Bearer "@ + api_key)],
    }
}

/// A label from a reply made comparable: trimmed, lower-cased, with dashes
/// and spaces made underscores.
pub open spec fn normalized_label(v: Seq<char>) -> Seq<char> {
    replace_char(replace_char(lowercase(trim_ws(v)), '-', "_"@), ' ', "_"@)
}

/// The category a normalized label names; anything unknown is `Other`.
pub open spec fn label_category(n: Seq<char>) -> ScanCategory {
    if n == "temp"@ || n == "temporary"@ || n == "temporary_file"@ || n == "temporary_files"@
        || n == "临时文件"@ {
        ScanCategory::Temp
    } else if n == "cache"@ || n == "cache_file"@ || n == "cache_files"@ || n == "缓存"@ || n
        == "缓存文件"@ {
        ScanCategory::Cache
    } else if n == "log"@ || n == "logs"@ || n == "log_file"@ || n == "log_files"@ || n
        == "日志"@ || n == "日志文件"@ {
        ScanCategory::Log
    } else if n == "download"@ || n == "downloads"@ || n == "下载"@ || n == "下载文件"@ {
        ScanCategory::Download
    } else if n == "recycle"@ || n == "recycle_bin"@ || n == "trash"@ || n == "回收站"@ {
        ScanCategory::Recycle
    } else if n == "browser"@ || n == "browser_cache"@ || n == "浏览器"@ || n == "浏览器缓存"@ {
        ScanCategory::Browser
    } else if n == "system"@ || n == "system_file"@ || n == "system_files"@ || n == "系统"@ || n
        == "系统文件"@ {
        ScanCategory::System
    } else if n == "app"@ || n == "application"@ || n == "app_data"@ || n == "应用"@ || n
        == "应用数据"@ {
        ScanCategory::App
    } else {
        ScanCategory::Other
    }
}

/// A risk label from a reply made comparable: trimmed, lower-cased, dashes
/// made underscores.
pub open spec fn normalized_risk(v: Seq<char>) -> Seq<char> {
    replace_char(lowercase(trim_ws(v)), '-', "_"@)
}

/// The risk a normalized label names; anything unknown is `Medium`.
pub open spec fn label_risk(n: Seq<char>) -> RiskLevel {
    if n == "safe"@ || n == "安全"@ {
        RiskLevel::Safe
    } else if n == "low"@ || n == "低"@ || n == "低风险"@ {
        RiskLevel::Low
    } else if n == "medium"@ || n == "中"@ || n == "中等"@ || n == "中等风险"@ {
        RiskLevel::Medium
    } else if n == "high"@ || n == "高"@ || n == "高风险"@ {
        RiskLevel::High
    } else if n == "critical"@ || n == "极高"@ || n == "严重"@ || n == "极高风险"@ {
        RiskLevel::Critical
    } else {
        RiskLevel::Medium
    }
}

/// A reply quoted in an error: trimmed, and cut to its first 500
/// characters followed by `"..."` when longer.
pub open spec fn error_excerpt(text: Seq<char>) -> Seq<char> {
    let t = trim_ws(text);
    if t.len() <= ERROR_TEXT_LIMIT {
        t
    } else {
        t.take(ERROR_TEXT_LIMIT as int) + "..."@
    }
}

/// The texts of the blocks whose type is `"text"`, in order.
pub open spec fn text_blocks(blocks: Seq<ContentBlock>) -> Seq<Seq<char>>
    decreases blocks.len(),
{
    if blocks.len() == 0 {
        Seq::empty()
    } else {
        let b = blocks.last();
        if b.kind matches Some(k) && k@ == "text"@ && b.text is Some {
            text_blocks(blocks.drop_last()).push(b.text->0@)
        } else {
            text_blocks(blocks.drop_last())
        }
    }
}

/// A base address without its trailing slashes.
fn trimmed_base(base_url: &str) -> (r: String)
    ensures
        r@ == base_of(base_url@),
{
    let v = chars_of(base_url);
    let t = trim_end_char_exec(v.as_slice(), '/');
    string_of(t.as_slice())
}

/// Where analysis requests go for this service.
pub fn build_api_url(provider: CloudModelProvider, base_url: &str) -> (r: String)
    ensures
        r@ == api_url(provider, base_url@),
{
    let empty = base_url.is_empty();
    match provider {
        CloudModelProvider::OpenAI => if empty {
            owned("https://api.openai.com/v1/chat/completions")
        } else {
            concat(trimmed_base(base_url).as_str(), "/chat/completions")
        },
        CloudModelProvider::Anthropic => if empty {
            owned("https://api.anthropic.com/v1/messages")
        } else {
            let b = trimmed_base(base_url);
            if ends_with(b.as_str(), "/v1") {
                concat(b.as_str(), "/messages")
            } else {
                concat(b.as_str(), "/v1/messages")
            }
        },
        CloudModelProvider::DeepSeek => if empty {
            owned("https://api.deepseek.com/v1/chat/completions")
        } else {
            concat(trimmed_base(base_url).as_str(), "/chat/completions")
        },
        CloudModelProvider::Qwen => if empty {
            owned("https://dashscope.aliyuncs.com/compatible-mode/v1/chat/completions")
        } else {
            concat(trimmed_base(base_url).as_str(), "/chat/completions")
        },
        CloudModelProvider::Custom => concat(trimmed_base(base_url).as_str(), "/chat/completions"),
    }
}

/// Where the model list of this service is asked for.
pub fn build_models_url(provider: CloudModelProvider, base_url: &str) -> (r: String)
    ensures
        r@ == models_url(provider, base_url@),
{
    let empty = base_url.is_empty();
    match provider {
        CloudModelProvider::OpenAI => if empty {
            owned("https://api.openai.com/v1/models")
        } else {
            concat(trimmed_base(base_url).as_str(), "/models")
        },
        CloudModelProvider::Anthropic => if empty {
            owned("https://api.anthropic.com/v1/models")
        } else {
            let b = trimmed_base(base_url);
            if ends_with(b.as_str(), "/v1") {
                concat(b.as_str(), "/models")
            } else {
                concat(b.as_str(), "/v1/models")
            }
        },
        CloudModelProvider::DeepSeek => if empty {
            owned("https://api.deepseek.com/v1/models")
        } else {
            concat(trimmed_base(base_url).as_str(), "/models")
        },
        CloudModelProvider::Qwen => if empty {
            owned("https://dashscope.aliyuncs.com/compatible-mode/v1/models")
        } else {
            concat(trimmed_base(base_url).as_str(), "/models")
        },
        CloudModelProvider::Custom => concat(trimmed_base(base_url).as_str(), "/models"),
    }
}

/// The authentication headers of a request to this service: Anthropic's key
/// and API version, or a bearer token for the others.
pub fn auth_headers(provider: CloudModelProvider, api_key: &str) -> (r: Vec<(String, String)>)
    ensures
        r@.map_values(|h: (String, String)| (h.0@, h.1@)) == auth_header_list(provider, api_key@),
{
    let mut r: Vec<(String, String)> = Vec::new();
    match provider {
        CloudModelProvider::Anthropic => {
            r.push((owned("x-api-key"), owned(api_key)));
            r.push((owned("anthropic-version"), owned("2023-06-01")));
        },
        _ => {
            r.push((owned("Authorization"), concat("Bearer ", api_key)));
        },
    }
    assert(r@.map_values(|h: (String, String)| (h.0@, h.1@)) =~= auth_header_list(
        provider,
        api_key@,
    ));
    r
}

/// Whether the request carries the system message and a temperature: every
/// service but Anthropic's.
pub fn uses_system_prompt(provider: CloudModelProvider) -> (r: bool)
    ensures
        r == (provider != CloudModelProvider::Anthropic),
{
    match provider {
        CloudModelProvider::Anthropic => false,
        _ => true,
    }
}

/// The request text for a batch of files given as JSON.
pub fn analysis_prompt(file_json: &str) -> (r: String)
    ensures
        r@ == ANALYSIS_PROMPT_HEAD@ + file_json@,
{
    concat(ANALYSIS_PROMPT_HEAD, file_json)
}

/// What a connection test needs before any request: local analysis needs
/// none (`Ok(None)`); a hosted service needs a key, a model name and, for a
/// custom service, a base address, and is then probed (`Ok(Some(..))`).
pub fn connection_check(provider: AIProvider, api_key: &str, model: &str, base_url: &str) -> (r:
    Result<Option<CloudModelProvider>, AppError>)
    ensures
        provider is Local ==> r == Ok::<Option<CloudModelProvider>, AppError>(None),
        provider matches AIProvider::Cloud(p) ==> {
            if api_key@.len() == 0 {
                r matches Err(AppError::AIError(m)) && m@ == "API密钥不能为空"@
            } else if model@.len() == 0 {
                r matches Err(AppError::AIError(m)) && m@ == "请配置模型名称"@
            } else if p == CloudModelProvider::Custom && base_url@.len() == 0 {
                r matches Err(AppError::AIError(m)) && m@ == "请配置自定义API地址"@
            } else {
                r == Ok::<Option<CloudModelProvider>, AppError>(Some(p))
            }
        },
{
    match provider {
        AIProvider::Local => Ok(None),
        AIProvider::Cloud(p) => {
            if api_key.is_empty() {
                return Err(AppError::AIError(owned("API密钥不能为空")));
            }
            if model.is_empty() {
                return Err(AppError::AIError(owned("请配置模型名称")));
            }
            if p == CloudModelProvider::Custom && base_url.is_empty() {
                return Err(AppError::AIError(owned("请配置自定义API地址")));
            }
            Ok(Some(p))
        },
    }
}

/// The verdict of a connection probe: a reply with a success status passes;
/// another status, or no reply, fails with its text.
pub fn probe_verdict(reply: Result<(bool, String), String>) -> (r: Result<bool, AppError>)
    ensures
        match reply {
            Ok((true, _)) => r == Ok::<bool, AppError>(true),
            Ok((false, status)) => r matches Err(AppError::AIError(m)) && m@ == "连接测试失败: HTTP "@
                + status@,
            Err(e) => r matches Err(AppError::AIError(m)) && m@ == "连接测试失败: "@ + e@,
        },
{
    match reply {
        Ok((true, _)) => Ok(true),
        Ok((false, status)) => Err(AppError::AIError(concat("连接测试失败: HTTP ", status.as_str()))),
        Err(e) => Err(AppError::AIError(concat("连接测试失败: ", e.as_str()))),
    }
}

/// The text of an Anthropic reply: the texts of its text blocks joined by
/// newlines; an error when there is no content list or the text is blank.
pub fn anthropic_text(blocks: Option<Vec<ContentBlock>>) -> (r: Result<String, AppError>)
    ensures
        match blocks {
            None => r matches Err(AppError::AIError(m)) && m@ == "AI响应中没有文本内容"@,
            Some(bs) => {
                let t = crate::services::clean_engine::joined(text_blocks(bs@), "\n"@);
                if trim_ws(t).len() == 0 {
                    r matches Err(AppError::AIError(m)) && m@ == "AI响应中没有文本内容"@
                } else {
                    r matches Ok(s) && s@ == t
                }
            },
        },
{
    match blocks {
        None => Err(AppError::AIError(owned("AI响应中没有文本内容"))),
        Some(bs) => {
            let mut out = String::new();
            let mut count: usize = 0;
            let mut i: usize = 0;
            while i < bs.len()
                invariant
                    i <= bs@.len(),
                    count == text_blocks(bs@.take(i as int)).len(),
                    count <= i,
                    out@ == crate::services::clean_engine::joined(
                        text_blocks(bs@.take(i as int)),
                        "\n"@,
                    ),
                decreases bs@.len() - i,
            {
                let ghost prev = text_blocks(bs@.take(i as int));
                proof {
                    assert(bs@.take(i + 1).drop_last() == bs@.take(i as int));
                    assert(bs@.take(i + 1).last() == bs@[i as int]);
                }
                let is_text = match &bs[i].kind {
                    Some(k) => str_eq(k.as_str(), "text"),
                    None => false,
                };
                if is_text {
                    match &bs[i].text {
                        Some(t) => {
                            if count > 0 {
                                out.append("\n");
                            }
                            out.append(t.as_str());
                            proof {
                                let next = prev.push(t@);
                                assert(next.drop_last() == prev);
                                if prev.len() == 0 {
                                    assert(crate::services::clean_engine::joined(next, "\n"@)
                                        == next[0]);
                                }
                            }
                            count = count + 1;
                        },
                        None => {},
                    }
                }
                i = i + 1;
            }
            assert(bs@.take(bs@.len() as int) == bs@);
            let trimmed = trim_str(out.as_str());
            if trimmed.as_str().is_empty() {
                Err(AppError::AIError(owned("AI响应中没有文本内容")))
            } else {
                Ok(out)
            }
        },
    }
}

/// The text of another service's reply: the first choice's message
/// content, or an error naming what is missing.
pub fn choice_text(content: Option<String>) -> (r: Result<String, AppError>)
    ensures
        match content {
            Some(c) => r == Ok::<String, AppError>(c),
            None => r matches Err(AppError::AIError(m)) && m@
                == "AI响应中没有choices[0].message.content"@,
        },
{
    match content {
        Some(c) => Ok(c),
        None => Err(AppError::AIError(owned("AI响应中没有choices[0].message.content"))),
    }
}

/// A content block as plain values: its type and its text.
pub open spec fn block_view(b: ContentBlock) -> (Option<Seq<char>>, Option<Seq<char>>) {
    (opt_text(b.kind), opt_text(b.text))
}

/// An optional text as plain values.
pub open spec fn opt_text(o: Option<String>) -> Option<Seq<char>> {
    match o {
        Some(s) => Some(s@),
        None => None,
    }
}

/// The texts of the text blocks, in order, from blocks given as plain
/// values.
pub open spec fn view_text_blocks(bv: Seq<(Option<Seq<char>>, Option<Seq<char>>)>) -> Seq<
    Seq<char>,
>
    decreases bv.len(),
{
    if bv.len() == 0 {
        Seq::empty()
    } else {
        let rest = view_text_blocks(bv.drop_last());
        match bv.last() {
            (Some(k), Some(t)) => if k == "text"@ {
                rest.push(t)
            } else {
                rest
            },
            _ => rest,
        }
    }
}

proof fn lemma_text_blocks_view(bs: Seq<ContentBlock>)
    ensures
        text_blocks(bs) == view_text_blocks(bs.map_values(|b: ContentBlock| block_view(b))),
    decreases bs.len(),
{
    if bs.len() > 0 {
        lemma_text_blocks_view(bs.drop_last());
        assert(bs.drop_last().map_values(|b: ContentBlock| block_view(b)) =~= bs.map_values(
            |b: ContentBlock| block_view(b),
        ).drop_last());
    }
}

/// The blocks of a reply's `content` list (the `type` and `text` of each,
/// when strings), `None` when there is no such list, or the parser's
/// message when `serde_json` does not read the text as a JSON value.
pub uninterp spec fn reply_blocks(text: Seq<char>) -> Result<
    Option<Seq<(Option<Seq<char>>, Option<Seq<char>>)>>,
    Seq<char>,
>;

/// The first choice's `message.content` of a reply, when a string, or the
/// parser's message when `serde_json` does not read the text as a JSON
/// value.
pub uninterp spec fn reply_choice(text: Seq<char>) -> Result<Option<Seq<char>>, Seq<char>>;

/// The blocks read, as plain values.
pub open spec fn blocks_read(r: Result<Option<Vec<ContentBlock>>, String>) -> Result<
    Option<Seq<(Option<Seq<char>>, Option<Seq<char>>)>>,
    Seq<char>,
> {
    match r {
        Ok(Some(bs)) => Ok(Some(bs@.map_values(|b: ContentBlock| block_view(b)))),
        Ok(None) => Ok(None),
        Err(e) => Err(e@),
    }
}

/// The choice read, as plain values.
pub open spec fn choice_read(r: Result<Option<String>, String>) -> Result<Option<Seq<char>>, Seq<char>> {
    match r {
        Ok(c) => Ok(opt_text(c)),
        Err(e) => Err(e@),
    }
}

/// Reads a reply with `serde_json::from_str::<serde_json::Value>` and takes
/// its `content` list apart; the outcome is named `reply_blocks` of the
/// text.
#[verifier::external_body]
fn read_reply_blocks(text: &str) -> (r: Result<Option<Vec<ContentBlock>>, String>)
    ensures
        blocks_read(r) == reply_blocks(text@),
{
    let v: serde_json::Value = serde_json::from_str(text).map_err(|e| e.to_string())?;
    let field = |b: &serde_json::Value, k: &str| b.get(k).and_then(|x| x.as_str()).map(str::to_string);
    Ok(v.get("content").and_then(|c| c.as_array()).map(|bs| {
        bs.iter().map(|b| ContentBlock { kind: field(b, "type"), text: field(b, "text") }).collect()
    }))
}

/// Reads a reply with `serde_json::from_str::<serde_json::Value>` and takes
/// the first choice's message content; the outcome is named `reply_choice`
/// of the text.
#[verifier::external_body]
fn read_reply_choice(text: &str) -> (r: Result<Option<String>, String>)
    ensures
        choice_read(r) == reply_choice(text@),
{
    let v: serde_json::Value = serde_json::from_str(text).map_err(|e| e.to_string())?;
    let first = v.get("choices").and_then(|c| c.as_array()).and_then(|c| c.first());
    let content = first.and_then(|c| c.get("message")).and_then(|m| m.get("content"));
    Ok(content.and_then(|c| c.as_str()).map(str::to_string))
}

/// The text of a service's reply: for Anthropic the texts of its text
/// blocks joined by newlines, for the others the first choice's message
/// content; an error when the reply is not JSON or holds no such text.
pub fn message_content(provider: CloudModelProvider, response_text: &str) -> (r: Result<
    String,
    AppError,
>)
    ensures
        provider == CloudModelProvider::Anthropic ==> match reply_blocks(response_text@) {
            Err(e) => r matches Err(AppError::AIError(m)) && m@ == "AI响应不是有效JSON: "@ + e,
            Ok(None) => r matches Err(AppError::AIError(m)) && m@ == "AI响应中没有文本内容"@,
            Ok(Some(bv)) => {
                let t = crate::services::clean_engine::joined(view_text_blocks(bv), "\n"@);
                if trim_ws(t).len() == 0 {
                    r matches Err(AppError::AIError(m)) && m@ == "AI响应中没有文本内容"@
                } else {
                    r matches Ok(s) && s@ == t
                }
            },
        },
        provider != CloudModelProvider::Anthropic ==> match reply_choice(response_text@) {
            Err(e) => r matches Err(AppError::AIError(m)) && m@ == "AI响应不是有效JSON: "@ + e,
            Ok(Some(c)) => r matches Ok(s) && s@ == c,
            Ok(None) => r matches Err(AppError::AIError(m)) && m@
                == "AI响应中没有choices[0].message.content"@,
        },
{
    match provider {
        CloudModelProvider::Anthropic => match read_reply_blocks(response_text) {
            Err(e) => Err(AppError::AIError(concat("AI响应不是有效JSON: ", e.as_str()))),
            Ok(bs) => {
                proof {
                    if bs is Some {
                        lemma_text_blocks_view(bs->0@);
                    }
                }
                anthropic_text(bs)
            },
        },
        _ => match read_reply_choice(response_text) {
            Err(e) => Err(AppError::AIError(concat("AI响应不是有效JSON: ", e.as_str()))),
            Ok(c) => choice_text(c),
        },
    }
}

/// The category a label in a reply names.
pub fn parse_category(value: &str) -> (r: ScanCategory)
    ensures
        r == label_category(normalized_label(value@)),
{
    let t = trim_str(value);
    let l = to_lowercase(t.as_str());
    let d = replace_char_exec(l.as_str(), '-', "_");
    let n = replace_char_exec(d.as_str(), ' ', "_");
    let s = n.as_str();
    if str_eq(s, "temp") || str_eq(s, "temporary") || str_eq(s, "temporary_file") || str_eq(
        s,
        "temporary_files",
    ) || str_eq(s, "临时文件") {
        ScanCategory::Temp
    } else if str_eq(s, "cache") || str_eq(s, "cache_file") || str_eq(s, "cache_files") || str_eq(
        s,
        "缓存",
    ) || str_eq(s, "缓存文件") {
        ScanCategory::Cache
    } else if str_eq(s, "log") || str_eq(s, "logs") || str_eq(s, "log_file") || str_eq(
        s,
        "log_files",
    ) || str_eq(s, "日志") || str_eq(s, "日志文件") {
        ScanCategory::Log
    } else if str_eq(s, "download") || str_eq(s, "downloads") || str_eq(s, "下载") || str_eq(
        s,
        "下载文件",
    ) {
        ScanCategory::Download
    } else if str_eq(s, "recycle") || str_eq(s, "recycle_bin") || str_eq(s, "trash") || str_eq(
        s,
        "回收站",
    ) {
        ScanCategory::Recycle
    } else if str_eq(s, "browser") || str_eq(s, "browser_cache") || str_eq(s, "浏览器") || str_eq(
        s,
        "浏览器缓存",
    ) {
        ScanCategory::Browser
    } else if str_eq(s, "system") || str_eq(s, "system_file") || str_eq(s, "system_files")
        || str_eq(s, "系统") || str_eq(s, "系统文件") {
        ScanCategory::System
    } else if str_eq(s, "app") || str_eq(s, "application") || str_eq(s, "app_data") || str_eq(
        s,
        "应用",
    ) || str_eq(s, "应用数据") {
        ScanCategory::App
    } else {
        ScanCategory::Other
    }
}

/// The risk words the analysis prompt asks for name the five levels one to
/// one: every reply label that normalizes to `safe`, `low`, `medium`, `high`
/// or `critical` is read as safe, low, medium, high or critical risk, so no
/// two of these words are read as the same level.
pub proof fn lemma_risk_words()
    ensures
        forall|v: Seq<char>| normalized_risk(v) == "safe"@ ==> label_risk(normalized_risk(v)) == RiskLevel::Safe,
        forall|v: Seq<char>| normalized_risk(v) == "low"@ ==> label_risk(normalized_risk(v)) == RiskLevel::Low,
        forall|v: Seq<char>| normalized_risk(v) == "medium"@ ==> label_risk(normalized_risk(v)) == RiskLevel::Medium,
        forall|v: Seq<char>| normalized_risk(v) == "high"@ ==> label_risk(normalized_risk(v)) == RiskLevel::High,
        forall|v: Seq<char>| normalized_risk(v) == "critical"@ ==> label_risk(normalized_risk(v)) == RiskLevel::Critical,
{
    reveal_strlit("safe");
    reveal_strlit("安全");
    reveal_strlit("low");
    reveal_strlit("低");
    reveal_strlit("低风险");
    reveal_strlit("medium");
    reveal_strlit("中");
    reveal_strlit("中等");
    reveal_strlit("中等风险");
    reveal_strlit("high");
    reveal_strlit("高");
    reveal_strlit("高风险");
    reveal_strlit("critical");
    reveal_strlit("极高");
    reveal_strlit("严重");
    reveal_strlit("极高风险");
    assert("safe"@.len() == 4 && "安全"@.len() == 2);
    assert("low"@.len() == 3 && "低"@.len() == 1 && "低风险"@.len() == 3);
    assert("medium"@.len() == 6 && "中"@.len() == 1 && "中等"@.len() == 2 && "中等风险"@.len() == 4);
    assert("high"@.len() == 4 && "critical"@.len() == 8);
    assert("high"@[0] == 'h' && "safe"@[0] == 's' && "中等风险"@[0] == '中');
}

/// The category words the analysis prompt asks for name their categories:
/// `temp`, `cache`, `log`, `download`, `recycle`, `browser`, `system`, `app`
/// and `other` give the categories of those names.
pub proof fn lemma_category_words()
    ensures
        label_category("temp"@) == ScanCategory::Temp,
        label_category("cache"@) == ScanCategory::Cache,
        label_category("log"@) == ScanCategory::Log,
        label_category("download"@) == ScanCategory::Download,
        label_category("recycle"@) == ScanCategory::Recycle,
        label_category("browser"@) == ScanCategory::Browser,
        label_category("system"@) == ScanCategory::System,
        label_category("app"@) == ScanCategory::App,
        label_category("other"@) == ScanCategory::Other,
{
    reveal_strlit("temp");
    reveal_strlit("temporary");
    reveal_strlit("temporary_file");
    reveal_strlit("temporary_files");
    reveal_strlit("临时文件");
    reveal_strlit("cache");
    reveal_strlit("cache_file");
    reveal_strlit("cache_files");
    reveal_strlit("缓存");
    reveal_strlit("缓存文件");
    reveal_strlit("log");
    reveal_strlit("logs");
    reveal_strlit("log_file");
    reveal_strlit("log_files");
    reveal_strlit("日志");
    reveal_strlit("日志文件");
    reveal_strlit("download");
    reveal_strlit("downloads");
    reveal_strlit("下载");
    reveal_strlit("下载文件");
    reveal_strlit("recycle");
    reveal_strlit("recycle_bin");
    reveal_strlit("trash");
    reveal_strlit("回收站");
    reveal_strlit("browser");
    reveal_strlit("browser_cache");
    reveal_strlit("浏览器");
    reveal_strlit("浏览器缓存");
    reveal_strlit("system");
    reveal_strlit("system_file");
    reveal_strlit("system_files");
    reveal_strlit("系统");
    reveal_strlit("系统文件");
    reveal_strlit("app");
    reveal_strlit("application");
    reveal_strlit("app_data");
    reveal_strlit("应用");
    reveal_strlit("应用数据");
    reveal_strlit("other");
    assert("temp"@.len() == 4);
    assert("temporary"@.len() == 9);
    assert("temporary_file"@.len() == 14);
    assert("temporary_files"@.len() == 15);
    assert("临时文件"@.len() == 4);
    assert("cache"@.len() == 5);
    assert("cache_file"@.len() == 10);
    assert("cache_files"@.len() == 11);
    assert("缓存"@.len() == 2);
    assert("缓存文件"@.len() == 4);
    assert("log"@.len() == 3);
    assert("logs"@.len() == 4);
    assert("log_file"@.len() == 8);
    assert("log_files"@.len() == 9);
    assert("日志"@.len() == 2);
    assert("日志文件"@.len() == 4);
    assert("download"@.len() == 8);
    assert("downloads"@.len() == 9);
    assert("下载"@.len() == 2);
    assert("下载文件"@.len() == 4);
    assert("recycle"@.len() == 7);
    assert("recycle_bin"@.len() == 11);
    assert("trash"@.len() == 5);
    assert("回收站"@.len() == 3);
    assert("browser"@.len() == 7);
    assert("browser_cache"@.len() == 13);
    assert("浏览器"@.len() == 3);
    assert("浏览器缓存"@.len() == 5);
    assert("system"@.len() == 6);
    assert("system_file"@.len() == 11);
    assert("system_files"@.len() == 12);
    assert("系统"@.len() == 2);
    assert("系统文件"@.len() == 4);
    assert("app"@.len() == 3);
    assert("application"@.len() == 11);
    assert("app_data"@.len() == 8);
    assert("应用"@.len() == 2);
    assert("应用数据"@.len() == 4);
    assert("other"@.len() == 5);
    assert("download"@[0] != "log_file"@[0]);
    assert("browser"@[0] != "recycle"@[0]);
    assert("app"@[0] != "log"@[0]);
    assert("app"@[0] != "回收站"@[0]);
    assert("app"@[0] != "浏览器"@[0]);
    assert("other"@[0] != "cache"@[0]);
    assert("other"@[0] != "trash"@[0]);
    assert("other"@[0] != "浏览器缓存"@[0]);
}

/// The risk a label in a reply names.
pub fn parse_risk_level(value: &str) -> (r: RiskLevel)
    ensures
        r == label_risk(normalized_risk(value@)),
{
    let t = trim_str(value);
    let l = to_lowercase(t.as_str());
    let n = replace_char_exec(l.as_str(), '-', "_");
    let s = n.as_str();
    if str_eq(s, "safe") || str_eq(s, "安全") {
        RiskLevel::Safe
    } else if str_eq(s, "low") || str_eq(s, "低") || str_eq(s, "低风险") {
        RiskLevel::Low
    } else if str_eq(s, "medium") || str_eq(s, "中") || str_eq(s, "中等") || str_eq(s, "中等风险") {
        RiskLevel::Medium
    } else if str_eq(s, "high") || str_eq(s, "高") || str_eq(s, "高风险") {
        RiskLevel::High
    } else if str_eq(s, "critical") || str_eq(s, "极高") || str_eq(s, "严重") || str_eq(
        s,
        "极高风险",
    ) {
        RiskLevel::Critical
    } else {
        RiskLevel::Medium
    }
}

/// A reply as an error message quotes it: trimmed, and cut to 500
/// characters followed by `"..."` when longer.
pub fn truncate_for_error(text: &str) -> (r: String)
    ensures
        r@ == error_excerpt(text@),
{
    let t = trim_str(text);
    let v = chars_of(t.as_str());
    if v.len() <= ERROR_TEXT_LIMIT {
        return t;
    }
    let mut out: Vec<char> = Vec::new();
    let mut i: usize = 0;
    while i < ERROR_TEXT_LIMIT
        invariant
            i <= ERROR_TEXT_LIMIT,
            ERROR_TEXT_LIMIT < v@.len(),
            out@ == v@.take(i as int),
        decreases ERROR_TEXT_LIMIT - i,
    {
        out.push(v[i]);
        i = i + 1;
        assert(out@ =~= v@.take(i as int));
    }
    let mut s = string_of(out.as_slice());
    s.append("...");
    s
}

/// Which analysis to use for a batch: local for fewer than 100 files whose
/// paths average under 50 characters, the configured provider otherwise.
pub fn smart_switch(provider: AIProvider, file_count: usize, avg_path_length: usize) -> (r:
    AIProvider)
    ensures
        r == (if file_count < 100 && avg_path_length < 50 {
            AIProvider::Local
        } else {
            provider
        }),
{
    if file_count < 100 && avg_path_length < 50 {
        return AIProvider::Local;
    }
    provider
}

/// Whether a scan's results go to AI review: only with a hosted service, an
/// API key and a model name that are not blank.
pub fn ai_review_wanted(provider: AIProvider, api_key: &str, model: &str) -> (r: bool)
    ensures
        r == (provider is Cloud && trim_ws(api_key@).len() > 0 && trim_ws(model@).len() > 0),
{
    if !provider.is_cloud() {
        return false;
    }
    let k = trim_str(api_key);
    let m = trim_str(model);
    !k.as_str().is_empty() && !m.as_str().is_empty()
}

/// Whether `serde_json` reads the text as a JSON value.
pub uninterp spec fn json_parses(s: Seq<char>) -> bool;

/// Asks `serde_json::from_str::<serde_json::Value>` whether the text is
/// JSON; the answer is named `json_parses` of the text.
#[verifier::external_body]
fn parses_as_json(text: &str) -> (r: bool)
    ensures
        r == json_parses(text@),
{
    serde_json::from_str::<serde_json::Value>(text).is_ok()
}

/// The index of the first newline in `s`, or its length when there is none.
pub open spec fn first_newline(s: Seq<char>) -> nat
    decreases s.len(),
{
    if s.len() == 0 {
        0
    } else if s[0] == '\n' {
        0
    } else {
        1 + first_newline(s.drop_first())
    }
}

/// The first newline of a text: none before it, and it is one when it is
/// inside the text.
pub proof fn lemma_first_newline(s: Seq<char>)
    ensures
        first_newline(s) <= s.len(),
        forall|i: int| 0 <= i < first_newline(s) ==> s[i] != '\n',
        first_newline(s) < s.len() ==> s[first_newline(s) as int] == '\n',
    decreases s.len(),
{
    if s.len() > 0 && s[0] != '\n' {
        lemma_first_newline(s.drop_first());
        assert forall|i: int| 0 <= i < first_newline(s) implies s[i] != '\n' by {
            if i > 0 {
                assert(s[i] == s.drop_first()[i - 1]);
            }
        }
        if first_newline(s) < s.len() {
            assert(s[first_newline(s) as int] == s.drop_first()[first_newline(s.drop_first())
                as int]);
        }
    }
}

/// A line without the carriage return that ended it.
pub open spec fn strip_cr(l: Seq<char>) -> Seq<char> {
    if l.len() > 0 && l.last() == '\r' {
        l.drop_last()
    } else {
        l
    }
}

/// The lines of a text as `str::lines` gives them: split at each newline,
/// a carriage return before the newline dropped, no empty last line for a
/// text that ends in a newline.
pub open spec fn lines_of(s: Seq<char>) -> Seq<Seq<char>>
    decreases s.len(),
{
    if s.len() == 0 {
        Seq::empty()
    } else {
        let i = first_newline(s);
        proof {
            lemma_first_newline(s);
        }
        if i >= s.len() {
            seq![s]
        } else {
            seq![strip_cr(s.take(i as int))] + lines_of(s.skip(i + 1 as int))
        }
    }
}

/// The index of the first occurrence of `p` in `s` at or after `i`, or -1.
pub open spec fn first_index_from(s: Seq<char>, p: Seq<char>, i: int) -> int
    decreases s.len() - i,
{
    if i < 0 || i >= s.len() {
        -1
    } else if occurs_at(s, p, i) {
        i
    } else {
        first_index_from(s, p, i + 1)
    }
}

/// The index of the last occurrence of `p` in `s` at or before `i`, or -1.
pub open spec fn last_index_from(s: Seq<char>, p: Seq<char>, i: int) -> int
    decreases i + 1,
{
    if i < 0 {
        -1
    } else if occurs_at(s, p, i) {
        i
    } else {
        last_index_from(s, p, i - 1)
    }
}

/// A reply without its Markdown fence: when it opens with three backticks,
/// its first line is dropped and the text is cut at the last closing fence,
/// then trimmed.
pub open spec fn unfenced(t: Seq<char>) -> Seq<char> {
    if is_prefix("```"@, t) {
        let w = joined(lines_of(t).drop_first(), "\n"@);
        let e = last_index_from(w, "```"@, w.len() as int);
        if e >= 0 {
            trim_ws(w.take(e))
        } else {
            trim_ws(w)
        }
    } else {
        t
    }
}

/// The text from the first `open` to the last `close`, both kept, when both
/// occur in that order.
pub open spec fn bracketed(t: Seq<char>, open: char, close: char) -> Option<Seq<char>> {
    let a = first_index_from(t, seq![open], 0);
    let b = last_index_from(t, seq![close], t.len() as int);
    if a >= 0 && b >= 0 && a <= b {
        Some(t.subrange(a, b + 1))
    } else {
        None
    }
}

/// The JSON in a reply: the trimmed, unfenced text when it parses, else the
/// span of the outermost brackets, else that of the outermost braces.
pub open spec fn json_payload(content: Seq<char>) -> Option<Seq<char>> {
    let t = unfenced(trim_ws(content));
    if json_parses(t) {
        Some(t)
    } else if bracketed(t, '[', ']') is Some {
        bracketed(t, '[', ']')
    } else {
        bracketed(t, '{', '}')
    }
}

/// The lines of a text, as `str::lines` gives them.
fn split_lines(s: &Vec<char>) -> (r: Vec<Vec<char>>)
    ensures
        r@.map_values(|l: Vec<char>| l@) == lines_of(s@),
{
    let mut out: Vec<Vec<char>> = Vec::new();
    let mut pos: usize = 0;
    assert(s@.skip(0) =~= s@);
    assert(out@.map_values(|l: Vec<char>| l@) + lines_of(s@) =~= lines_of(s@));
    while pos < s.len()
        invariant
            pos <= s@.len(),
            lines_of(s@) == out@.map_values(|l: Vec<char>| l@) + lines_of(s@.skip(pos as int)),
        decreases s@.len() - pos,
    {
        let ghost rest = s@.skip(pos as int);
        let mut nl: usize = pos;
        while nl < s.len() && s[nl] != '\n'
            invariant
                pos <= nl <= s@.len(),
                forall|k: int| pos <= k < nl ==> s@[k] != '\n',
            decreases s@.len() - nl,
        {
            nl = nl + 1;
        }
        proof {
            lemma_first_newline(rest);
            let f = first_newline(rest);
            assert forall|k: int| 0 <= k < nl - pos implies rest[k] != '\n' by {
                assert(rest[k] == s@[pos + k]);
            }
            if f < nl - pos {
                assert(rest[f as int] == s@[pos + f]);
            }
            if nl < s.len() {
                assert(rest[nl - pos] == s@[nl as int]);
            }
            assert(f == nl - pos);
        }
        let mut line: Vec<char> = Vec::new();
        let mut k: usize = pos;
        while k < nl
            invariant
                pos <= k <= nl <= s@.len(),
                line@ == s@.subrange(pos as int, k as int),
            decreases nl - k,
        {
            line.push(s[k]);
            k = k + 1;
            assert(line@ =~= s@.subrange(pos as int, k as int));
        }
        let ghost prev = out@.map_values(|l: Vec<char>| l@);
        if nl == s.len() {
            out.push(line);
            proof {
                assert(rest =~= s@.subrange(pos as int, nl as int));
                assert(s@.skip(nl as int) =~= Seq::<char>::empty());
                assert(out@.map_values(|l: Vec<char>| l@) =~= prev.push(rest));
                assert(lines_of(rest) == seq![rest]);
            }
            pos = nl;
        } else {
            if line.len() > 0 && line[line.len() - 1] == '\r' {
                line.pop();
            }
            out.push(line);
            proof {
                assert(rest.take(nl - pos) =~= s@.subrange(pos as int, nl as int));
                assert(rest.skip(nl - pos + 1) =~= s@.skip(nl + 1));
                assert(out@.map_values(|l: Vec<char>| l@) =~= prev.push(
                    strip_cr(rest.take(nl - pos)),
                ));
                assert(prev.push(strip_cr(rest.take(nl - pos))) + lines_of(s@.skip(nl + 1)) =~= prev
                    + (seq![strip_cr(rest.take(nl - pos))] + lines_of(s@.skip(nl + 1))));
            }
            pos = nl + 1;
        }
    }
    assert(s@.skip(pos as int) =~= Seq::<char>::empty());
    assert(out@.map_values(|l: Vec<char>| l@) + Seq::<Seq<char>>::empty() =~= out@.map_values(
        |l: Vec<char>| l@,
    ));
    out
}

/// The lines after the first, joined by newlines.
fn join_after_first(lines: &Vec<Vec<char>>) -> (r: Vec<char>)
    requires
        lines@.len() > 0,
    ensures
        r@ == joined(lines@.map_values(|l: Vec<char>| l@).drop_first(), "\n"@),
{
    let ghost lv = lines@.map_values(|l: Vec<char>| l@);
    let ghost parts = lv.drop_first();
    proof {
        reveal_strlit("\n");
    }
    let mut out: Vec<char> = Vec::new();
    let mut i: usize = 1;
    while i < lines.len()
        invariant
            1 <= i <= lines@.len(),
            lv == lines@.map_values(|l: Vec<char>| l@),
            parts == lv.drop_first(),
            out@ == joined(parts.take(i - 1), "\n"@),
        decreases lines@.len() - i,
    {
        let ghost prev = out@;
        proof {
            assert(parts.take(i as int).drop_last() == parts.take(i - 1));
            assert(parts.take(i as int).last() == lines@[i as int]@);
        }
        if i > 1 {
            out.push('\n');
            proof {
                reveal_strlit("\n");
            }
            assert(out@ =~= prev + "\n"@);
        }
        let mut k: usize = 0;
        while k < lines[i].len()
            invariant
                1 <= i < lines@.len(),
                k <= lines@[i as int]@.len(),
                out@ == (if i > 1 {
                    prev + "\n"@
                } else {
                    prev
                }) + lines@[i as int]@.take(k as int),
            decreases lines@[i as int]@.len() - k,
        {
            out.push(lines[i][k]);
            k = k + 1;
            assert(out@ =~= (if i > 1 {
                prev + "\n"@
            } else {
                prev
            }) + lines@[i as int]@.take(k as int));
        }
        proof {
            assert(lines@[i as int]@.take(k as int) == lines@[i as int]@);
            if i == 1 {
                assert(parts.take(1).len() == 1);
                assert(joined(parts.take(1), "\n"@) == parts.take(1)[0]);
                assert(prev =~= Seq::<char>::empty());
                assert(out@ =~= lines@[1]@);
            } else {
                assert(out@ =~= prev + "\n"@ + lines@[i as int]@);
            }
        }
        i = i + 1;
    }
    assert(parts.take(lines@.len() - 1) == parts);
    out
}

/// The index of the last occurrence of `p` in `s`, if any.
fn last_index_of(s: &Vec<char>, p: &Vec<char>) -> (r: Option<usize>)
    ensures
        match r {
            Some(i) => last_index_from(s@, p@, s@.len() as int) == i,
            None => last_index_from(s@, p@, s@.len() as int) == -1,
        },
{
    let mut i: usize = s.len();
    loop
        invariant
            i <= s@.len(),
            last_index_from(s@, p@, s@.len() as int) == last_index_from(s@, p@, i as int),
        decreases i,
    {
        if occurs_at_exec(s.as_slice(), p.as_slice(), i) {
            return Some(i);
        }
        if i == 0 {
            assert(last_index_from(s@, p@, -1) == -1);
            return None;
        }
        i = i - 1;
    }
}

/// The index of the first occurrence of `p` in `s`, if any.
fn first_index_of(s: &Vec<char>, p: &Vec<char>) -> (r: Option<usize>)
    ensures
        match r {
            Some(i) => first_index_from(s@, p@, 0) == i,
            None => first_index_from(s@, p@, 0) == -1,
        },
{
    let mut i: usize = 0;
    while i < s.len()
        invariant
            i <= s@.len(),
            first_index_from(s@, p@, 0) == first_index_from(s@, p@, i as int),
        decreases s@.len() - i,
    {
        if occurs_at_exec(s.as_slice(), p.as_slice(), i) {
            return Some(i);
        }
        i = i + 1;
    }
    None
}

/// The span from the first `open` to the last `close`, when both occur in
/// that order.
fn bracketed_span(t: &Vec<char>, open: char, close: char) -> (r: Option<String>)
    ensures
        match bracketed(t@, open, close) {
            Some(b) => r matches Some(x) && x@ == b,
            None => r is None,
        },
{
    let o = vec![open];
    let c = vec![close];
    assert(o@ =~= seq![open]);
    assert(c@ =~= seq![close]);
    match (first_index_of(t, &o), last_index_of(t, &c)) {
        (Some(a), Some(b)) => {
            if a <= b {
                proof {
                    lemma_last_index_found(t@, seq![close], t@.len() as int);
                }
                let mut out: Vec<char> = Vec::new();
                let mut k: usize = a;
                while k <= b
                    invariant
                        a <= k <= b + 1,
                        b < t@.len(),
                        b < t.len(),
                        out@ == t@.subrange(a as int, k as int),
                    decreases b + 1 - k,
                {
                    out.push(t[k]);
                    k = k + 1;
                    assert(out@ =~= t@.subrange(a as int, k as int));
                }
                Some(string_of(out.as_slice()))
            } else {
                None
            }
        },
        _ => None,
    }
}

proof fn lemma_last_index_found(s: Seq<char>, p: Seq<char>, i: int)
    ensures
        last_index_from(s, p, i) >= 0 ==> occurs_at(s, p, last_index_from(s, p, i)),
    decreases i + 1,
{
    if i >= 0 && !occurs_at(s, p, i) {
        lemma_last_index_found(s, p, i - 1);
    }
}

/// The JSON in a reply: the reply trimmed and, when it opens with a
/// Markdown fence, unfenced; that text when it parses as JSON, else the span
/// from its first `[` to its last `]`, else from its first `{` to its last
/// `}`; an error when none of these is there.
pub fn extract_json_payload(content: &str) -> (r: Result<String, AppError>)
    ensures
        match json_payload(content@) {
            Some(p) => r matches Ok(s) && s@ == p,
            None => r matches Err(AppError::AIError(m)) && m@ == "AI响应中没有可解析的JSON"@,
        },
{
    let cv = chars_of(content);
    let mut text = trim_exec(cv.as_slice());
    let fence = vec!['`', '`', '`'];
    proof {
        reveal_strlit("```");
    }
    assert(fence@ =~= "```"@);
    if chars_starts_with(text.as_slice(), fence.as_slice()) {
        let lines = split_lines(&text);
        let w = join_after_first(&lines);
        match last_index_of(&w, &fence) {
            Some(e) => {
                proof {
                    lemma_last_index_found(w@, fence@, w@.len() as int);
                }
                let mut head: Vec<char> = Vec::new();
                let mut k: usize = 0;
                while k < e
                    invariant
                        e <= w@.len(),
                        k <= e,
                        head@ == w@.take(k as int),
                    decreases e - k,
                {
                    head.push(w[k]);
                    k = k + 1;
                    assert(head@ =~= w@.take(k as int));
                }
                text = trim_exec(head.as_slice());
            },
            None => {
                text = trim_exec(w.as_slice());
            },
        }
    }
    let t = string_of(text.as_slice());
    if parses_as_json(t.as_str()) {
        return Ok(t);
    }
    match bracketed_span(&text, '[', ']') {
        Some(b) => {
            return Ok(b);
        },
        None => {},
    }
    match bracketed_span(&text, '{', '}') {
        Some(b) => Ok(b),
        None => Err(AppError::AIError(owned("AI响应中没有可解析的JSON"))),
    }
}

} // verus!
