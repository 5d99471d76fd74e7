//! The whole-number parts of safety evaluation: what a location, a
//! category, an age and a signature each score, what a clean task's risk
//! is worth, and the texts that go with a risk.
use vstd::prelude::*;

use crate::models::clean::CleanTask;
use crate::models::scan::{RiskLevel, ScanCategory};
use crate::services::clean_engine::joined;
use crate::services::file_walker::TIME_FORMAT;
use crate::services::safety_guard::{extension_of, path_extension};
use crate::services::scan_engine::{category_score, ScanEngine};
use crate::services::signature_verifier::{system_dir_prefixes, system_extensions, SignatureVerifier};
use crate::text::{concat3, contains, contains_seq, is_prefix, lowercase, owned, starts_with};

verus! {

/// The seconds since 1970 that a time written in the chrono format `fmt`
/// stands for, read as UTC; `None` when the text is not such a time.
pub uninterp spec fn naive_timestamp(s: Seq<char>, fmt: Seq<char>) -> Option<int>;

/// Calls `chrono::NaiveDateTime::parse_from_str(s, fmt)` and, on success,
/// `and_utc().timestamp()`; the result is named `naive_timestamp` of the
/// text and the format.
#[verifier::external_body]
fn parse_scan_time(s: &str, fmt: &str) -> (r: Option<i64>)
    ensures
        match r {
            Some(t) => naive_timestamp(s@, fmt@) == Some(t as int),
            None => naive_timestamp(s@, fmt@) is None,
        },
{
    chrono::NaiveDateTime::parse_from_str(s, fmt).ok().map(|d| d.and_utc().timestamp())
}

/// The five scores a group's safety is weighed from.
#[derive(Debug, Clone, Copy, PartialEq, Eq, Structural)]
pub struct ScoreFactors {
    pub path: u32,
    pub category: u32,
    pub time: u32,
    pub frequency: u32,
    pub signature: u32,
}

/// The safety of one clean task: the score its risk is worth, the risk, the
/// task's name, and the warnings it raises.
#[derive(Debug, Clone)]
pub struct TaskSafety {
    pub name: String,
    pub score: u32,
    pub level: RiskLevel,
    pub warnings: Vec<String>,
}

/// The score a location earns: 10 under the system, program and program
/// data folders, 95 in temporary, cache and recycle folders, 60 elsewhere.
pub open spec fn location_score(path: Seq<char>) -> nat {
    if is_prefix("C:\\Windows"@, path) || is_prefix("C:\\Program Files"@, path) || is_prefix(
        "C:\\Program Files (x86)"@,
        path,
    ) || is_prefix("C:\\ProgramData"@, path) {
        10
    } else if contains_seq(path, "\\Temp"@) || contains_seq(path, "\\Cache"@) || contains_seq(
        path,
        "\\tmp"@,
    ) || contains_seq(path, "\\Recycle"@) || contains_seq(path, "INetCache"@) || contains_seq(
        path,
        "SoftwareDistribution\\Download"@,
    ) {
        95
    } else {
        60
    }
}

/// Whole days from `then` to `now` (in seconds), rounded toward zero.
pub open spec fn whole_days(now: int, then: int) -> int {
    let d = now - then;
    if d >= 0 {
        d / 86400
    } else {
        -((-d) / 86400)
    }
}

/// The score an age earns: 90 past 90 days, 75 past 30, 60 past 7, and 50
/// otherwise or when the time cannot be read.
pub open spec fn age_score(scanned_at: Seq<char>, now: int) -> nat {
    match naive_timestamp(scanned_at, TIME_FORMAT@) {
        Some(t) => {
            let days = whole_days(now, t);
            if days > 90 {
                90
            } else if days > 30 {
                75
            } else if days > 7 {
                60
            } else {
                50
            }
        },
        None => 50,
    }
}

/// The score a signature check earns: 10 for a system file or a system
/// file type, 80 otherwise.
pub open spec fn signature_score(path: Seq<char>) -> nat {
    let ext = match path_extension(path) {
        Some(e) => e,
        None => Seq::empty(),
    };
    if (exists|i: int|
        0 <= i < system_dir_prefixes().len() && is_prefix(
            #[trigger] system_dir_prefixes()[i],
            path,
        )) || system_extensions().contains(lowercase(ext)) {
        10
    } else {
        80
    }
}

/// The score a clean task's risk is worth.
pub open spec fn risk_worth(level: RiskLevel) -> nat {
    match level {
        RiskLevel::Safe => 90,
        RiskLevel::Low => 70,
        RiskLevel::Medium => 50,
        RiskLevel::High => 30,
        RiskLevel::Critical => 10,
    }
}

/// What each level of risk means for the user.
pub open spec fn risk_meaning(level: RiskLevel) -> Seq<char> {
    match level {
        RiskLevel::Safe => "安全，可以放心清理"@,
        RiskLevel::Low => "低风险，建议清理"@,
        RiskLevel::Medium => "中等风险，建议谨慎操作"@,
        RiskLevel::High => "高风险，不建议清理"@,
        RiskLevel::Critical => "极高风险，请勿清理"@,
    }
}

/// The score a location earns.
pub fn score_by_path(path: &str) -> (r: u32)
    ensures
        r == location_score(path@),
{
    if starts_with(path, "C:\\Windows") || starts_with(path, "C:\\Program Files") || starts_with(
        path,
        "C:\\Program Files (x86)",
    ) || starts_with(path, "C:\\ProgramData") {
        return 10;
    }
    if contains(path, "\\Temp") || contains(path, "\\Cache") || contains(path, "\\tmp") || contains(
        path,
        "\\Recycle",
    ) || contains(path, "INetCache") || contains(path, "SoftwareDistribution\\Download") {
        return 95;
    }
    60
}

/// The score a category earns.
pub fn score_by_category(category: ScanCategory) -> (r: u32)
    ensures
        r == category_score(category),
{
    ScanEngine::score_by_category(category)
}

/// The score the age of a scan earns, given the time now in seconds since
/// 1970 on the local clock read as UTC.
pub fn score_by_time(scanned_at: &str, now: i64) -> (r: u32)
    ensures
        r == age_score(scanned_at@, now as int),
{
    match parse_scan_time(scanned_at, TIME_FORMAT) {
        Some(t) => {
            let d: i128 = now as i128 - t as i128;
            let days: i128 = if d >= 0 {
                d / 86400
            } else {
                -((-d) / 86400)
            };
            if days > 90 {
                90
            } else if days > 30 {
                75
            } else if days > 7 {
                60
            } else {
                50
            }
        },
        None => 50,
    }
}

/// The score use frequency earns: always 70.
pub fn score_by_frequency(path: &str) -> (r: u32)
    ensures
        r == 70,
{
    70
}

/// The score a signature check earns.
pub fn score_by_signature(path: &str) -> (r: u32)
    ensures
        r == signature_score(path@),
{
    let verifier = SignatureVerifier::new();
    if verifier.is_system_file(path) {
        return 10;
    }
    let ext = match extension_of(path) {
        Some(e) => e,
        None => String::new(),
    };
    if verifier.is_system_extension(ext.as_str()) {
        10
    } else {
        80
    }
}

/// The five scores for a group at this location, of this category,
/// scanned at this time, given the time now.
pub fn score_factors(path: &str, category: ScanCategory, scanned_at: &str, now: i64) -> (r:
    ScoreFactors)
    ensures
        r.path == location_score(path@),
        r.category == category_score(category),
        r.time == age_score(scanned_at@, now as int),
        r.frequency == 70,
        r.signature == signature_score(path@),
{
    ScoreFactors {
        path: score_by_path(path),
        category: score_by_category(category),
        time: score_by_time(scanned_at, now),
        frequency: score_by_frequency(path),
        signature: score_by_signature(path),
    }
}

/// The score a clean task's risk is worth.
pub fn risk_level_to_score(level: RiskLevel) -> (r: u32)
    ensures
        r == risk_worth(level),
{
    match level {
        RiskLevel::Safe => 90,
        RiskLevel::Low => 70,
        RiskLevel::Medium => 50,
        RiskLevel::High => 30,
        RiskLevel::Critical => 10,
    }
}

/// What a level of risk means for the user.
pub fn risk_description(level: RiskLevel) -> (r: &'static str)
    ensures
        r@ == risk_meaning(level),
{
    match level {
        RiskLevel::Safe => "安全，可以放心清理",
        RiskLevel::Low => "低风险，建议清理",
        RiskLevel::Medium => "中等风险，建议谨慎操作",
        RiskLevel::High => "高风险，不建议清理",
        RiskLevel::Critical => "极高风险，请勿清理",
    }
}

/// The warning for a group that scores below 50.
pub fn high_risk_warning(name: &str) -> (r: String)
    ensures
        r@ == "「"@ + name@ + "」存在较高风险，建议谨慎操作"@,
{
    concat3("「", name, "」存在较高风险，建议谨慎操作")
}

/// The safety of a clean task: the score its risk is worth, and a warning
/// naming the task when that score is below 50.
pub fn evaluate_task(task: &CleanTask) -> (r: TaskSafety)
    ensures
        r.name@ == task.target_name@,
        r.score == risk_worth(task.risk_level),
        r.level == task.risk_level,
        risk_worth(task.risk_level) < 50 ==> r.warnings@.len() == 1 && r.warnings@[0]@ == "「"@
            + task.target_name@ + "」风险较高"@,
        risk_worth(task.risk_level) >= 50 ==> r.warnings@.len() == 0,
{
    let score = risk_level_to_score(task.risk_level);
    let mut warnings: Vec<String> = Vec::new();
    if score < 50 {
        warnings.push(concat3("「", task.target_name.as_str(), "」风险较高"));
    }
    TaskSafety { name: task.target_name.clone(), score, level: task.risk_level, warnings }
}

/// The key a set of results is remembered by: their ids joined by `"|"`.
pub fn cache_key(ids: &[String]) -> (r: String)
    ensures
        r@ == joined(ids@.map_values(|s: String| s@), "|"@),
{
    let ghost v = ids@.map_values(|s: String| s@);
    let mut out = String::new();
    let mut i: usize = 0;
    while i < ids.len()
        invariant
            i <= ids@.len(),
            v == ids@.map_values(|s: String| s@),
            out@ == joined(v.take(i as int), "|"@),
        decreases ids@.len() - i,
    {
        let ghost prev = out@;
        proof {
            assert(v.take(i + 1).drop_last() == v.take(i as int));
            assert(v.take(i + 1).last() == ids@[i as int]@);
        }
        if i > 0 {
            out.append("|");
        }
        out.append(ids[i].as_str());
        proof {
            if i == 0 {
                assert(v.take(1).len() == 1);
                assert(joined(v.take(1), "|"@) == v.take(1)[0]);
                assert(prev == joined(Seq::<Seq<char>>::empty(), "|"@));
            }
        }
        i = i + 1;
    }
    assert(v.take(ids@.len() as int) == v);
    out
}

/// Where a location scores: 10 under the system, program and program data
/// folders; elsewhere 95 in any path naming a temporary, cache, recycle,
/// browser-cache or update-download folder (each marker on its own), and 60
/// in any other path.
pub proof fn lemma_location_scores(path: Seq<char>)
    ensures
        is_prefix("C:\\Windows"@, path) ==> location_score(path) == 10,
        is_prefix("C:\\Program Files"@, path) ==> location_score(path) == 10,
        is_prefix("C:\\Program Files (x86)"@, path) ==> location_score(path) == 10,
        is_prefix("C:\\ProgramData"@, path) ==> location_score(path) == 10,
        ({
            let outside = !is_prefix("C:\\Windows"@, path) && !is_prefix(
                "C:\\Program Files"@,
                path,
            ) && !is_prefix("C:\\Program Files (x86)"@, path) && !is_prefix(
                "C:\\ProgramData"@,
                path,
            );
            &&& outside && contains_seq(path, "\\Temp"@) ==> location_score(path) == 95
            &&& outside && contains_seq(path, "\\Cache"@) ==> location_score(path) == 95
            &&& outside && contains_seq(path, "\\tmp"@) ==> location_score(path) == 95
            &&& outside && contains_seq(path, "\\Recycle"@) ==> location_score(path) == 95
            &&& outside && contains_seq(path, "INetCache"@) ==> location_score(path) == 95
            &&& outside && contains_seq(path, "SoftwareDistribution\\Download"@)
                ==> location_score(path) == 95
            &&& outside && !contains_seq(path, "\\Temp"@) && !contains_seq(path, "\\Cache"@)
                && !contains_seq(path, "\\tmp"@) && !contains_seq(path, "\\Recycle"@)
                && !contains_seq(path, "INetCache"@) && !contains_seq(
                path,
                "SoftwareDistribution\\Download"@,
            ) ==> location_score(path) == 60
        }),
{
}

/// What a clean task's risk is worth: 90 for safe, 70 low, 50 medium, 30
/// high, 10 critical, so a graver risk is always worth less.
pub proof fn lemma_risk_worth(a: RiskLevel, b: RiskLevel)
    ensures
        risk_worth(RiskLevel::Safe) == 90,
        risk_worth(RiskLevel::Low) == 70,
        risk_worth(RiskLevel::Medium) == 50,
        risk_worth(RiskLevel::High) == 30,
        risk_worth(RiskLevel::Critical) == 10,
        crate::services::scan_engine::risk_rank(a) < crate::services::scan_engine::risk_rank(b)
            ==> risk_worth(b) < risk_worth(a),
{
}

/// How the age of a scan scores: a readable time more than 90 whole days
/// old scores 90, more than 30 scores 75, more than 7 scores 60; a newer or
/// unreadable one scores 50. An older scan never scores less.
pub proof fn lemma_age_scores(scanned_at: Seq<char>, now: int, later: int)
    requires
        now <= later,
    ensures
        naive_timestamp(scanned_at, TIME_FORMAT@) is None ==> age_score(scanned_at, now) == 50,
        naive_timestamp(scanned_at, TIME_FORMAT@) matches Some(t) ==> {
            &&& now - t >= 91 * 86400 ==> age_score(scanned_at, now) == 90
            &&& 31 * 86400 <= now - t < 91 * 86400 ==> age_score(scanned_at, now) == 75
            &&& 8 * 86400 <= now - t < 31 * 86400 ==> age_score(scanned_at, now) == 60
            &&& now - t < 8 * 86400 ==> age_score(scanned_at, now) == 50
        },
        age_score(scanned_at, now) <= age_score(scanned_at, later),
{
    match naive_timestamp(scanned_at, TIME_FORMAT@) {
        Some(t) => {
            let d = now - t;
            let e = later - t;
            if d >= 0 {
                assert(d / 86400 <= e / 86400) by (nonlinear_arith)
                    requires
                        0 <= d <= e,
                ;
                assert(d >= 91 * 86400 ==> d / 86400 > 90) by (nonlinear_arith);
                assert(d >= 31 * 86400 ==> d / 86400 > 30) by (nonlinear_arith);
                assert(d >= 8 * 86400 ==> d / 86400 > 7) by (nonlinear_arith);
                assert(d < 91 * 86400 ==> d / 86400 <= 90) by (nonlinear_arith);
                assert(d < 31 * 86400 ==> d / 86400 <= 30) by (nonlinear_arith);
                assert(d < 8 * 86400 ==> d / 86400 <= 7) by (nonlinear_arith);
            } else {
                assert((-d) / 86400 >= 0) by (nonlinear_arith)
                    requires
                        -d > 0,
                ;
                if e >= 0 {
                    assert(e / 86400 >= 0) by (nonlinear_arith)
                        requires
                            e >= 0,
                    ;
                } else {
                    assert((-e) / 86400 <= (-d) / 86400) by (nonlinear_arith)
                        requires
                            0 < -e <= -d,
                    ;
                }
            }
        },
        None => {},
    }
}

/// A signature check scores 10 for a path under a system folder or with a
/// system extension in any case, and 80 for any other path.
pub proof fn lemma_signature_scores(path: Seq<char>, e: Seq<char>)
    ensures
        is_prefix("C:\\Windows"@, path) ==> signature_score(path) == 10,
        is_prefix("C:\\Program Files"@, path) ==> signature_score(path) == 10,
        path_extension(path) == Some(e) && system_extensions().contains(lowercase(e))
            ==> signature_score(path) == 10,
        signature_score(path) == 10 || signature_score(path) == 80,
{
    if is_prefix("C:\\Windows"@, path) {
        assert(is_prefix(system_dir_prefixes()[0], path));
    }
    if is_prefix("C:\\Program Files"@, path) {
        assert(is_prefix(system_dir_prefixes()[1], path));
    }
}

} // verus!
