//! The decisions of a scan: when a scan may start or stop, how the files it
//! found are grouped by category and scored, which files are sent for AI
//! review, and how the review's findings are folded back into a group.
use vstd::prelude::*;

use crate::error::AppError;
use crate::models::scan::{FileMetadata, RiskLevel, ScanCategory, ScanPhase};
use crate::text::{
    concat, decimal, decimal_string, is_prefix, lowercase, owned, replace_char, replace_char_exec,
    str_eq, to_lowercase, trim_str, trim_ws,
};
use crate::services::clean_engine::joined;
use crate::utils::file_utils::{as_float, fixed2, fixed2_of, hundredths, nearest_float};

verus! {

/// How many of a group's largest files are offered for AI review.
pub const AI_SAMPLE_PER_RESULT: usize = 25;

/// How many files at most are offered for AI review in one scan.
pub const AI_MAX_SAMPLE_FILES: usize = 160;

/// The run state of the scanner: whether a scan is under way, whether it
/// was asked to stop, and the groups the last scan produced.
#[derive(Debug, Clone)]
pub struct ScanEngine {
    is_scanning: bool,
    cancel_requested: bool,
    results: Vec<CategoryGroup>,
}

/// The files of one category that a scan found, with what the scanner
/// concluded about them. Scores are kept in tenths of a point.
#[derive(Debug)]
pub struct CategoryGroup {
    pub path: String,
    pub name: String,
    pub category: ScanCategory,
    pub description: String,
    pub files: Vec<FileMetadata>,
    pub total_size: u64,
    pub file_count: u64,
    pub safety_tenths: u32,
    pub risk_level: RiskLevel,
    pub recommendation: String,
    pub scanned_at: String,
}

/// What an AI review said of one file, without its score.
#[derive(Debug)]
pub struct AiFinding {
    pub path: String,
    pub category: ScanCategory,
    pub risk_level: RiskLevel,
    pub safe_to_clean: bool,
    pub reason: String,
    pub recommendation: String,
}

impl Clone for AiFinding {
    fn clone(&self) -> (r: Self)
        ensures
            r == *self,
    {
        AiFinding {
            path: self.path.clone(),
            category: self.category,
            risk_level: self.risk_level,
            safe_to_clean: self.safe_to_clean,
            reason: self.reason.clone(),
            recommendation: self.recommendation.clone(),
        }
    }
}

/// How an AI review changes a group: the files with the categories the
/// review gave them, which findings matched (by index, one per matched file,
/// in file order), and the group's new category, name, risk, advice,
/// description and the highest score it may keep.
#[derive(Debug)]
pub struct GroupReview {
    pub files: Vec<FileMetadata>,
    pub matched: Vec<usize>,
    pub category: ScanCategory,
    pub name: String,
    pub risk_level: RiskLevel,
    pub recommendation: String,
    pub description: String,
    pub score_cap: u32,
}

/// A group as plain values.
pub struct GroupView {
    pub path: Seq<char>,
    pub name: Seq<char>,
    pub category: ScanCategory,
    pub description: Seq<char>,
    pub files: Seq<FileMetadata>,
    pub total_size: u64,
    pub file_count: u64,
    pub safety_tenths: u32,
    pub risk_level: RiskLevel,
    pub recommendation: Seq<char>,
    pub scanned_at: Seq<char>,
}

impl View for CategoryGroup {
    type V = GroupView;

    open spec fn view(&self) -> GroupView {
        GroupView {
            path: self.path@,
            name: self.name@,
            category: self.category,
            description: self.description@,
            files: self.files@,
            total_size: self.total_size,
            file_count: self.file_count,
            safety_tenths: self.safety_tenths,
            risk_level: self.risk_level,
            recommendation: self.recommendation@,
            scanned_at: self.scanned_at@,
        }
    }
}

impl Clone for CategoryGroup {
    fn clone(&self) -> (r: Self)
        ensures
            r@ == self@,
    {
        let files = self.files.clone();
        assert(files@ =~= self.files@);
        CategoryGroup {
            path: self.path.clone(),
            name: self.name.clone(),
            category: self.category,
            description: self.description.clone(),
            files,
            total_size: self.total_size,
            file_count: self.file_count,
            safety_tenths: self.safety_tenths,
            risk_level: self.risk_level,
            recommendation: self.recommendation.clone(),
            scanned_at: self.scanned_at.clone(),
        }
    }
}

/// The safety score (out of 100) that a category gets when a scan groups it.
pub open spec fn category_safety(c: ScanCategory) -> nat {
    match c {
        ScanCategory::Temp => 95,
        ScanCategory::Cache => 90,
        ScanCategory::Log => 85,
        ScanCategory::Download => 60,
        ScanCategory::Recycle => 95,
        ScanCategory::Browser => 88,
        ScanCategory::System => 20,
        ScanCategory::App => 50,
        ScanCategory::Other => 40,
    }
}

/// The risk that a score in tenths of a point stands for: 80 and up is
/// safe, then low from 60, medium from 40, high from 20, critical below.
pub open spec fn risk_for_tenths(t: nat) -> RiskLevel {
    if t >= 800 {
        RiskLevel::Safe
    } else if t >= 600 {
        RiskLevel::Low
    } else if t >= 400 {
        RiskLevel::Medium
    } else if t >= 200 {
        RiskLevel::High
    } else {
        RiskLevel::Critical
    }
}

/// The advice given for a group at each level of risk.
pub open spec fn recommendation_text(r: RiskLevel) -> Seq<char> {
    match r {
        RiskLevel::Safe => "安全，建议清理"@,
        RiskLevel::Low => "低风险，可以清理"@,
        RiskLevel::Medium => "中等风险，建议谨慎操作"@,
        RiskLevel::High => "高风险，不建议清理"@,
        RiskLevel::Critical => "极高风险，请勿清理"@,
    }
}

/// The display name of a category.
pub open spec fn category_label(c: ScanCategory) -> Seq<char> {
    match c {
        ScanCategory::Temp => "临时文件"@,
        ScanCategory::Cache => "缓存文件"@,
        ScanCategory::Log => "日志文件"@,
        ScanCategory::Download => "下载文件"@,
        ScanCategory::Recycle => "回收站"@,
        ScanCategory::Browser => "浏览器缓存"@,
        ScanCategory::System => "系统文件"@,
        ScanCategory::App => "应用数据"@,
        ScanCategory::Other => "其他文件"@,
    }
}

/// The display name of a level of risk.
pub open spec fn risk_label_text(r: RiskLevel) -> Seq<char> {
    match r {
        RiskLevel::Safe => "安全"@,
        RiskLevel::Low => "低风险"@,
        RiskLevel::Medium => "中等风险"@,
        RiskLevel::High => "高风险"@,
        RiskLevel::Critical => "极高风险"@,
    }
}

/// The rank of a level of risk, from 0 (safe) to 4 (critical).
pub open spec fn risk_rank(r: RiskLevel) -> nat {
    match r {
        RiskLevel::Safe => 0,
        RiskLevel::Low => 1,
        RiskLevel::Medium => 2,
        RiskLevel::High => 3,
        RiskLevel::Critical => 4,
    }
}

/// The highest score a group may keep once an AI review found this risk.
pub open spec fn risk_cap(r: RiskLevel) -> nat {
    match r {
        RiskLevel::Safe => 100,
        RiskLevel::Low => 79,
        RiskLevel::Medium => 59,
        RiskLevel::High => 39,
        RiskLevel::Critical => 19,
    }
}

/// The score a location earns: 10 under the system and program folders,
/// 80 elsewhere.
pub open spec fn path_score(path: Seq<char>) -> nat {
    if is_prefix("C:\\Windows"@, path) || is_prefix("C:\\Program Files"@, path) || is_prefix(
        "C:\\Program Files (x86)"@,
        path,
    ) {
        10
    } else {
        80
    }
}

/// The score a category earns when a deep scan re-evaluates a group.
pub open spec fn category_score(c: ScanCategory) -> nat {
    match c {
        ScanCategory::Temp => 95,
        ScanCategory::Cache => 90,
        ScanCategory::Log => 85,
        ScanCategory::Recycle => 95,
        ScanCategory::Browser => 88,
        ScanCategory::Download => 60,
        ScanCategory::System => 15,
        ScanCategory::App => 50,
        ScanCategory::Other => 40,
    }
}

/// The score a total size earns: 70 above 1 GiB, 80 above 100 MiB, else 90.
pub open spec fn size_score(size: nat) -> nat {
    if size > 0x4000_0000 {
        70
    } else if size > 0x640_0000 {
        80
    } else {
        90
    }
}

/// The re-evaluated score in tenths: three tenths of the location's score,
/// four tenths of the category's and three tenths of the size's.
pub open spec fn evaluated_tenths(path: Seq<char>, c: ScanCategory, size: nat) -> nat {
    3 * path_score(path) + 4 * category_score(c) + 3 * size_score(size)
}

/// The parent of a path as `std::path::Path::parent` finds it, as text;
/// `None` for a root or an empty path.
pub uninterp spec fn path_parent(p: Seq<char>) -> Option<Seq<char>>;

/// Calls `std::path::Path::parent` and reads it as text; the result is named
/// `path_parent` of the argument.
#[verifier::external_body]
pub(crate) fn parent_of(p: &str) -> (r: Option<String>)
    ensures
        match r {
            Some(q) => path_parent(p@) == Some(q@),
            None => path_parent(p@) is None,
        },
{
    std::path::Path::new(p).parent().map(|q| q.to_str().unwrap_or("").to_string())
}

/// The files of one category, in the order they were found.
pub open spec fn of_category(files: Seq<FileMetadata>, c: ScanCategory) -> Seq<FileMetadata>
    decreases files.len(),
{
    if files.len() == 0 {
        Seq::empty()
    } else if files.last().category == c {
        of_category(files.drop_last(), c).push(files.last())
    } else {
        of_category(files.drop_last(), c)
    }
}

/// The sum of the files' sizes.
pub open spec fn total_bytes(files: Seq<FileMetadata>) -> nat
    decreases files.len(),
{
    if files.len() == 0 {
        0
    } else {
        total_bytes(files.drop_last()) + files.last().size as nat
    }
}

/// The categories that occur among the files, in order of first occurrence.
pub open spec fn categories_of(files: Seq<FileMetadata>) -> Seq<ScanCategory>
    decreases files.len(),
{
    if files.len() == 0 {
        Seq::empty()
    } else if categories_of(files.drop_last()).contains(files.last().category) {
        categories_of(files.drop_last())
    } else {
        categories_of(files.drop_last()).push(files.last().category)
    }
}

/// The index of the first element whose key is below `k`, or the length
/// when there is none.
pub open spec fn first_below<T>(s: Seq<T>, k: nat, key: spec_fn(T) -> nat) -> nat
    decreases s.len(),
{
    if s.len() == 0 {
        0
    } else if key(s[0]) < k {
        0
    } else {
        1 + first_below(s.drop_first(), k, key)
    }
}

/// `s`, ordered by descending key, with equal keys kept in their order: each
/// element goes after every earlier one whose key is at least its own.
pub open spec fn sort_desc<T>(s: Seq<T>, key: spec_fn(T) -> nat) -> Seq<T>
    decreases s.len(),
{
    if s.len() == 0 {
        Seq::empty()
    } else {
        let sorted = sort_desc(s.drop_last(), key);
        sorted.insert(first_below(sorted, key(s.last()), key) as int, s.last())
    }
}

/// A size in mebibytes with two decimals, as `{:.2}` writes
/// `size as f64 / (1024.0 * 1024.0)`.
pub open spec fn megabytes_text(size: nat) -> Seq<char> {
    fixed2(hundredths(nearest_float(size), 0x10_0000))
}

/// The description of a group: its name, file count and size in MB.
pub open spec fn group_description(name: Seq<char>, count: nat, size: nat) -> Seq<char> {
    name + ": "@ + decimal(count) + " 个文件, "@ + megabytes_text(size) + " MB"@
}

/// The group a scan makes of the files of category `c`.
pub open spec fn group_for(files: Seq<FileMetadata>, c: ScanCategory, scanned_at: Seq<char>)
    -> GroupView
{
    let fs = of_category(files, c);
    let total = total_bytes(fs);
    let tenths = category_safety(c) * 10;
    GroupView {
        path: if fs.len() > 0 {
            match path_parent(fs[0].path@) {
                Some(q) => q,
                None => Seq::empty(),
            }
        } else {
            Seq::empty()
        },
        name: category_label(c),
        category: c,
        description: group_description(category_label(c), fs.len(), total),
        files: fs,
        total_size: total as u64,
        file_count: fs.len() as u64,
        safety_tenths: tenths as u32,
        risk_level: risk_for_tenths(tenths),
        recommendation: recommendation_text(risk_for_tenths(tenths)),
        scanned_at,
    }
}

/// The key groups are ordered by: their total size.
pub open spec fn group_size(g: GroupView) -> nat {
    g.total_size as nat
}

/// The groups a scan makes of the files: one per category that occurs,
/// largest total first, equal totals in order of first occurrence.
pub open spec fn categorized(files: Seq<FileMetadata>, scanned_at: Seq<char>) -> Seq<GroupView> {
    sort_desc(
        categories_of(files).map_values(|c: ScanCategory| group_for(files, c, scanned_at)),
        |g: GroupView| group_size(g),
    )
}

/// Whether the keys never increase along `s`.
pub open spec fn sorted_desc<T>(s: Seq<T>, key: spec_fn(T) -> nat) -> bool {
    forall|i: int, j: int| 0 <= i < j < s.len() ==> key(#[trigger] s[i]) >= key(#[trigger] s[j])
}

proof fn lemma_first_below_bounds<T>(s: Seq<T>, k: nat, key: spec_fn(T) -> nat)
    ensures
        first_below(s, k, key) <= s.len(),
        forall|i: int| 0 <= i < first_below(s, k, key) ==> key(#[trigger] s[i]) >= k,
        first_below(s, k, key) < s.len() ==> key(s[first_below(s, k, key) as int]) < k,
    decreases s.len(),
{
    if s.len() > 0 && key(s[0]) >= k {
        lemma_first_below_bounds(s.drop_first(), k, key);
        assert forall|i: int| 0 <= i < first_below(s, k, key) implies key(#[trigger] s[i]) >= k by {
            if i > 0 {
                assert(s[i] == s.drop_first()[i - 1]);
            }
        }
        if first_below(s, k, key) < s.len() {
            assert(s[first_below(s, k, key) as int] == s.drop_first()[first_below(
                s.drop_first(),
                k,
                key,
            ) as int]);
        }
    }
}

/// Sorting by descending key gives a list whose keys never increase and
/// that holds the same elements as often as the input does.
pub proof fn lemma_sort_desc<T>(s: Seq<T>, key: spec_fn(T) -> nat)
    ensures
        sorted_desc(sort_desc(s, key), key),
        sort_desc(s, key).to_multiset() == s.to_multiset(),
        sort_desc(s, key).len() == s.len(),
    decreases s.len(),
{
    broadcast use vstd::seq_lib::group_to_multiset_ensures;

    if s.len() > 0 {
        let sorted = sort_desc(s.drop_last(), key);
        let x = s.last();
        let p = first_below(sorted, key(x), key);
        lemma_sort_desc(s.drop_last(), key);
        lemma_first_below_bounds(sorted, key(x), key);
        let r = sorted.insert(p as int, x);
        assert forall|i: int, j: int| 0 <= i < j < r.len() implies key(#[trigger] r[i]) >= key(
            #[trigger] r[j],
        ) by {
            if j < p {
            } else if j == p {
            } else if i < p {
                assert(r[j] == sorted[j - 1]);
                if p < sorted.len() {
                    assert(key(sorted[p as int]) >= key(sorted[j - 1]) || p as int == j - 1);
                }
            } else if i == p {
                assert(r[j] == sorted[j - 1]);
                assert(key(sorted[p as int]) >= key(sorted[j - 1]) || p as int == j - 1);
            } else {
                assert(r[i] == sorted[i - 1]);
                assert(r[j] == sorted[j - 1]);
            }
        }
        assert(s.drop_last().push(x) == s);
    }
}

/// The groups of a scan come largest first, and each category that occurs
/// among the files has exactly one group, which holds exactly the files of
/// that category.
pub proof fn lemma_categorized_groups(files: Seq<FileMetadata>, scanned_at: Seq<char>)
    ensures
        sorted_desc(categorized(files, scanned_at), |g: GroupView| group_size(g)),
        categorized(files, scanned_at).to_multiset() == categories_of(files).map_values(
            |c: ScanCategory| group_for(files, c, scanned_at),
        ).to_multiset(),
        forall|i: int|
            0 <= i < categorized(files, scanned_at).len() ==> (#[trigger] categorized(
                files,
                scanned_at,
            )[i]).files == of_category(files, categorized(files, scanned_at)[i].category),
{
    broadcast use vstd::seq_lib::group_to_multiset_ensures;

    let unsorted = categories_of(files).map_values(
        |c: ScanCategory| group_for(files, c, scanned_at),
    );
    lemma_sort_desc(unsorted, |g: GroupView| group_size(g));
    let r = categorized(files, scanned_at);
    assert forall|i: int| 0 <= i < r.len() implies (#[trigger] r[i]).files == of_category(
        files,
        r[i].category,
    ) by {
        assert(r.to_multiset().count(r[i]) > 0);
        assert(unsorted.to_multiset().count(r[i]) > 0);
        assert(unsorted.contains(r[i]));
    }
}

/// The key a path is matched by: forward slashes made backslashes, then
/// lower-cased.
pub open spec fn path_key_of(path: Seq<char>) -> Seq<char> {
    lowercase(replace_char(path, '/', "\\"@))
}

/// The key files are ordered by when samples are chosen: their size.
pub open spec fn file_size(f: FileMetadata) -> nat {
    f.size as nat
}

/// The first `n` elements of `s`, or all of them when there are fewer.
pub open spec fn first_n<T>(s: Seq<T>, n: nat) -> Seq<T> {
    if s.len() <= n {
        s
    } else {
        s.take(n as int)
    }
}

/// The files offered for AI review, before duplicates and the overall cap:
/// each group's largest files, group by group.
pub open spec fn sample_candidates(groups: Seq<GroupView>) -> Seq<FileMetadata>
    decreases groups.len(),
{
    if groups.len() == 0 {
        Seq::empty()
    } else {
        sample_candidates(groups.drop_last()) + first_n(
            sort_desc(groups.last().files, |f: FileMetadata| file_size(f)),
            AI_SAMPLE_PER_RESULT as nat,
        )
    }
}

/// The keys of the files' paths.
pub open spec fn keys_of(files: Seq<FileMetadata>) -> Seq<Seq<char>> {
    files.map_values(|f: FileMetadata| path_key_of(f.path@))
}

/// The candidates in order, each kept when fewer than the cap are kept so
/// far and no kept file has the same path key.
pub open spec fn pick_samples(cands: Seq<FileMetadata>) -> Seq<FileMetadata>
    decreases cands.len(),
{
    if cands.len() == 0 {
        Seq::empty()
    } else {
        let kept = pick_samples(cands.drop_last());
        if kept.len() < AI_MAX_SAMPLE_FILES && !keys_of(kept).contains(
            path_key_of(cands.last().path@),
        ) {
            kept.push(cands.last())
        } else {
            kept
        }
    }
}

/// Where a file of this size goes in a list sorted by descending size.
fn file_slot(sorted: &Vec<FileMetadata>, size: u64) -> (r: usize)
    ensures
        r == first_below(sorted@, size as nat, |f: FileMetadata| file_size(f)),
        r <= sorted@.len(),
{
    let mut j: usize = 0;
    while j < sorted.len() && sorted[j].size >= size
        invariant
            j <= sorted@.len(),
            forall|i: int| 0 <= i < j ==> file_size(#[trigger] sorted@[i]) >= size,
        decreases sorted@.len() - j,
    {
        j = j + 1;
    }
    proof {
        lemma_first_below(sorted@, size as nat, |f: FileMetadata| file_size(f), j as int);
    }
    j
}

/// The files, largest first, equal sizes in their order.
fn sort_files_desc(files: &Vec<FileMetadata>) -> (r: Vec<FileMetadata>)
    ensures
        r@ == sort_desc(files@, |f: FileMetadata| file_size(f)),
{
    let mut sorted: Vec<FileMetadata> = Vec::new();
    let mut i: usize = 0;
    while i < files.len()
        invariant
            i <= files@.len(),
            sorted@ == sort_desc(files@.take(i as int), |f: FileMetadata| file_size(f)),
        decreases files@.len() - i,
    {
        let f = files[i].clone();
        let slot = file_slot(&sorted, f.size);
        proof {
            assert(files@.take(i + 1).drop_last() == files@.take(i as int));
            assert(files@.take(i + 1).last() == f);
        }
        sorted.insert(slot, f);
        i = i + 1;
    }
    assert(files@.take(files@.len() as int) == files@);
    sorted
}

/// Whether `key` is among the keys.
fn has_key(keys: &Vec<String>, key: &String) -> (r: bool)
    ensures
        r == keys@.map_values(|k: String| k@).contains(key@),
{
    let ghost kv = keys@.map_values(|k: String| k@);
    let mut i: usize = 0;
    while i < keys.len()
        invariant
            i <= keys@.len(),
            kv == keys@.map_values(|k: String| k@),
            forall|m: int| 0 <= m < i ==> kv[m] != key@,
        decreases keys@.len() - i,
    {
        if str_eq(keys[i].as_str(), key.as_str()) {
            assert(kv[i as int] == key@);
            return true;
        }
        i = i + 1;
    }
    false
}

/// How many findings put a file in category `c`.
pub open spec fn count_category(fs: Seq<AiFinding>, c: ScanCategory) -> nat
    decreases fs.len(),
{
    if fs.len() == 0 {
        0
    } else {
        count_category(fs.drop_last(), c) + if fs.last().category == c {
            1nat
        } else {
            0nat
        }
    }
}

/// How many findings say a file should not be cleaned.
pub open spec fn count_unsafe(fs: Seq<AiFinding>) -> nat
    decreases fs.len(),
{
    if fs.len() == 0 {
        0
    } else {
        count_unsafe(fs.drop_last()) + if fs.last().safe_to_clean {
            0nat
        } else {
            1nat
        }
    }
}

/// The distinct non-empty reasons, in order, at most two.
pub open spec fn pick_reasons(rs: Seq<Seq<char>>) -> Seq<Seq<char>>
    decreases rs.len(),
{
    if rs.len() == 0 {
        Seq::empty()
    } else {
        let kept = pick_reasons(rs.drop_last());
        if kept.len() < 2 && rs.last().len() > 0 && !kept.contains(rs.last()) {
            kept.push(rs.last())
        } else {
            kept
        }
    }
}

/// The findings' reasons, trimmed.
pub open spec fn reasons_of(fs: Seq<AiFinding>) -> Seq<Seq<char>> {
    fs.map_values(|a: AiFinding| trim_ws(a.reason@))
}

/// The reasons quoted in advice: the picked ones joined by `"；"`, or a
/// note that none was given.
pub open spec fn reason_text(fs: Seq<AiFinding>) -> Seq<char> {
    let picked = pick_reasons(reasons_of(fs));
    if picked.len() == 0 {
        "未提供详细原因"@
    } else {
        joined(picked, "；"@)
    }
}

/// The advice an AI review gives a group.
pub open spec fn ai_advice(fs: Seq<AiFinding>, unsafe_count: nat, worst: RiskLevel) -> Seq<
    char,
> {
    if unsafe_count == 0 {
        "AI识别："@ + risk_label_text(worst) + "，抽样 "@ + decimal(fs.len()) + " 个文件均可清理。"@
            + reason_text(fs)
    } else {
        "AI识别："@ + risk_label_text(worst) + "，抽样 "@ + decimal(fs.len()) + " 个文件中 "@
            + decimal(unsafe_count) + " 个不建议清理。"@ + reason_text(fs)
    }
}

/// The index of the last finding whose path has this key.
pub open spec fn finding_for(fs: Seq<AiFinding>, key: Seq<char>) -> Option<int>
    decreases fs.len(),
{
    if fs.len() == 0 {
        None
    } else if path_key_of(fs.last().path@) == key {
        Some(fs.len() - 1)
    } else {
        finding_for(fs.drop_last(), key)
    }
}

/// For each file that a finding matches, in file order, that finding's index.
pub open spec fn matches_of(files: Seq<FileMetadata>, fs: Seq<AiFinding>) -> Seq<int>
    decreases files.len(),
{
    if files.len() == 0 {
        Seq::empty()
    } else {
        match finding_for(fs, path_key_of(files.last().path@)) {
            Some(i) => matches_of(files.drop_last(), fs).push(i),
            None => matches_of(files.drop_last(), fs),
        }
    }
}

/// A file with the category its matching finding gives it, if any.
pub open spec fn recategorized(f: FileMetadata, fs: Seq<AiFinding>) -> FileMetadata {
    match finding_for(fs, path_key_of(f.path@)) {
        Some(i) => FileMetadata { category: fs[i].category, ..f },
        None => f,
    }
}

/// The description of a group after an AI review that matched `m` files.
pub open spec fn reviewed_description(name: Seq<char>, count: nat, size: nat, m: nat) -> Seq<
    char,
> {
    name + ": "@ + decimal(count) + " 个文件, "@ + megabytes_text(size) + " MB，AI抽样识别 "@
        + decimal(m) + " 个"@
}

proof fn lemma_finding_for_bounds(fs: Seq<AiFinding>, key: Seq<char>)
    ensures
        finding_for(fs, key) matches Some(i) ==> 0 <= i < fs.len() && path_key_of(fs[i].path@)
            == key,
        finding_for(fs, key) is None ==> forall|i: int|
            0 <= i < fs.len() ==> path_key_of(#[trigger] fs[i].path@) != key,
    decreases fs.len(),
{
    if fs.len() > 0 {
        lemma_finding_for_bounds(fs.drop_last(), key);
        if path_key_of(fs.last().path@) != key {
            assert forall|i: int| 0 <= i < fs.len() - 1 implies #[trigger] fs[i] == fs.drop_last()[i] by {}
        }
    }
}

proof fn lemma_pick_reasons_len(rs: Seq<Seq<char>>)
    ensures
        pick_reasons(rs).len() <= 2,
    decreases rs.len(),
{
    if rs.len() > 0 {
        lemma_pick_reasons_len(rs.drop_last());
    }
}

proof fn lemma_count_category_bound(fs: Seq<AiFinding>, c: ScanCategory)
    ensures
        count_category(fs, c) <= fs.len(),
        count_category(fs, c) > 0 <==> exists|i: int| 0 <= i < fs.len() && fs[i].category == c,
    decreases fs.len(),
{
    if fs.len() > 0 {
        lemma_count_category_bound(fs.drop_last(), c);
        if exists|i: int| 0 <= i < fs.len() - 1 && fs.drop_last()[i].category == c {
            let i = choose|i: int| 0 <= i < fs.len() - 1 && fs.drop_last()[i].category == c;
            assert(fs[i].category == c);
        }
        if exists|i: int| 0 <= i < fs.len() && fs[i].category == c {
            let i = choose|i: int| 0 <= i < fs.len() && fs[i].category == c;
            if i < fs.len() - 1 {
                assert(fs.drop_last()[i].category == c);
            }
        }
    }
}

/// How many findings put a file in category `c`.
fn count_in_category(fs: &[AiFinding], c: ScanCategory) -> (r: usize)
    ensures
        r == count_category(fs@, c),
{
    let mut n: usize = 0;
    let mut i: usize = 0;
    while i < fs.len()
        invariant
            i <= fs@.len(),
            n == count_category(fs@.take(i as int), c),
        decreases fs@.len() - i,
    {
        assert(fs@.take(i + 1).drop_last() == fs@.take(i as int));
        proof {
            lemma_count_category_bound(fs@.take(i as int), c);
        }
        if fs[i].category == c {
            n = n + 1;
        }
        i = i + 1;
    }
    assert(fs@.take(fs@.len() as int) == fs@);
    n
}

/// The index of the last finding whose key equals `key`.
fn last_finding(keys: &Vec<String>, key: &String) -> (r: Option<usize>)
    ensures
        match r {
            Some(i) => i < keys@.len() && keys@[i as int]@ == key@ && forall|j: int|
                i < j < keys@.len() ==> (#[trigger] keys@[j])@ != key@,
            None => forall|j: int| 0 <= j < keys@.len() ==> (#[trigger] keys@[j])@ != key@,
        },
{
    let mut i: usize = keys.len();
    while i > 0
        invariant
            i <= keys@.len(),
            forall|j: int| i <= j < keys@.len() ==> (#[trigger] keys@[j])@ != key@,
        decreases i,
    {
        i = i - 1;
        if str_eq(keys[i].as_str(), key.as_str()) {
            return Some(i);
        }
    }
    None
}

proof fn lemma_finding_for_last(fs: Seq<AiFinding>, key: Seq<char>, i: int)
    requires
        0 <= i < fs.len(),
        path_key_of(fs[i].path@) == key,
        forall|j: int| i < j < fs.len() ==> path_key_of(#[trigger] fs[j].path@) != key,
    ensures
        finding_for(fs, key) == Some(i),
    decreases fs.len(),
{
    if i < fs.len() - 1 {
        assert forall|j: int| i < j < fs.len() - 1 implies path_key_of(
            #[trigger] fs.drop_last()[j].path@,
        ) != key by {
            assert(fs.drop_last()[j] == fs[j]);
        }
        assert(fs.drop_last()[i] == fs[i]);
        lemma_finding_for_last(fs.drop_last(), key, i);
    }
}

proof fn lemma_finding_for_none(fs: Seq<AiFinding>, key: Seq<char>)
    requires
        forall|j: int| 0 <= j < fs.len() ==> path_key_of(#[trigger] fs[j].path@) != key,
    ensures
        finding_for(fs, key) is None,
    decreases fs.len(),
{
    if fs.len() > 0 {
        assert forall|j: int| 0 <= j < fs.len() - 1 implies path_key_of(
            #[trigger] fs.drop_last()[j].path@,
        ) != key by {
            assert(fs.drop_last()[j] == fs[j]);
        }
        lemma_finding_for_none(fs.drop_last(), key);
    }
}

/// The folders a quick scan walks, given the user's profile folder and the
/// Windows folder.
pub open spec fn quick_scan_paths(user_profile: Seq<char>, windows_dir: Seq<char>) -> Seq<
    Seq<char>,
> {
    seq![
        user_profile + "\\AppData\\Local\\Temp"@,
        windows_dir + "\\Temp"@,
        windows_dir + "\\SoftwareDistribution\\Download"@,
        windows_dir + "\\Prefetch"@,
        "C:\\$Recycle.Bin"@,
        user_profile + "\\AppData\\Local\\Microsoft\\Windows\\INetCache"@,
        user_profile + "\\AppData\\Local\\Microsoft\\Windows\\Explorer"@,
        user_profile + "\\AppData\\Local\\Google\\Chrome\\User Data\\Default\\Cache"@,
        user_profile + "\\AppData\\Local\\Microsoft\\Edge\\User Data\\Default\\Cache"@,
        user_profile + "\\AppData\\Local\\Mozilla\\Firefox\\Profiles"@,
    ]
}

/// Whether no two files of `s` share a path key.
pub open spec fn distinct_keys(s: Seq<FileMetadata>) -> bool {
    forall|i: int, j: int|
        0 <= i < j < s.len() ==> path_key_of((#[trigger] s[i]).path@) != path_key_of(
            (#[trigger] s[j]).path@,
        )
}

/// The files offered for AI review never exceed the cap, never repeat a
/// path key, and each of them is one of the candidates.
pub proof fn lemma_samples_bounded(cands: Seq<FileMetadata>)
    ensures
        pick_samples(cands).len() <= AI_MAX_SAMPLE_FILES,
        distinct_keys(pick_samples(cands)),
        forall|i: int|
            0 <= i < pick_samples(cands).len() ==> cands.contains(#[trigger] pick_samples(cands)[i]),
    decreases cands.len(),
{
    if cands.len() > 0 {
        let kept = pick_samples(cands.drop_last());
        lemma_samples_bounded(cands.drop_last());
        let f = cands.last();
        if kept.len() < AI_MAX_SAMPLE_FILES && !keys_of(kept).contains(path_key_of(f.path@)) {
            let r = kept.push(f);
            assert forall|i: int, j: int| 0 <= i < j < r.len() implies path_key_of(
                (#[trigger] r[i]).path@,
            ) != path_key_of((#[trigger] r[j]).path@) by {
                if j == r.len() - 1 {
                    assert(keys_of(kept)[i] == path_key_of(kept[i].path@));
                }
            }
            assert forall|i: int| 0 <= i < r.len() implies cands.contains(#[trigger] r[i]) by {
                if i < kept.len() {
                    let k = choose|k: int| 0 <= k < cands.drop_last().len() && cands.drop_last()[k] == kept[i];
                    assert(cands[k] == kept[i]);
                } else {
                    assert(cands[cands.len() - 1] == f);
                }
            }
        } else {
            assert forall|i: int| 0 <= i < kept.len() implies cands.contains(#[trigger] kept[i]) by {
                let k = choose|k: int| 0 <= k < cands.drop_last().len() && cands.drop_last()[k] == kept[i];
                assert(cands[k] == kept[i]);
            }
        }
    }
}

/// The reasons quoted in AI advice are at most two, none empty, none
/// repeated.
pub proof fn lemma_reasons_distinct(rs: Seq<Seq<char>>)
    ensures
        pick_reasons(rs).len() <= 2,
        forall|i: int| 0 <= i < pick_reasons(rs).len() ==> (#[trigger] pick_reasons(rs)[i]).len() > 0,
        forall|i: int, j: int|
            0 <= i < j < pick_reasons(rs).len() ==> #[trigger] pick_reasons(rs)[i] != #[trigger] pick_reasons(
                rs,
            )[j],
    decreases rs.len(),
{
    if rs.len() > 0 {
        lemma_reasons_distinct(rs.drop_last());
    }
}

/// Every group a scan forms carries the fixed safety of its category, the
/// risk that safety stands for and the matching advice: temporary files 95
/// and recycle-bin contents 95, caches 90, browser caches 88 and logs 85
/// (all safe to clean), downloads 60 (low risk), applications 50 and other
/// files 40 (medium risk), system files 20 (high risk).
pub proof fn lemma_group_safety_by_category(files: Seq<FileMetadata>, scanned_at: Seq<char>, i: int)
    requires
        0 <= i < categorized(files, scanned_at).len(),
    ensures
        ({
            let g = categorized(files, scanned_at)[i];
            &&& g.category == ScanCategory::Temp ==> g.safety_tenths == 950 && g.risk_level
                == RiskLevel::Safe && g.recommendation == "安全，建议清理"@
            &&& g.category == ScanCategory::Cache ==> g.safety_tenths == 900 && g.risk_level
                == RiskLevel::Safe && g.recommendation == "安全，建议清理"@
            &&& g.category == ScanCategory::Log ==> g.safety_tenths == 850 && g.risk_level
                == RiskLevel::Safe && g.recommendation == "安全，建议清理"@
            &&& g.category == ScanCategory::Download ==> g.safety_tenths == 600 && g.risk_level
                == RiskLevel::Low && g.recommendation == "低风险，可以清理"@
            &&& g.category == ScanCategory::Recycle ==> g.safety_tenths == 950 && g.risk_level
                == RiskLevel::Safe && g.recommendation == "安全，建议清理"@
            &&& g.category == ScanCategory::Browser ==> g.safety_tenths == 880 && g.risk_level
                == RiskLevel::Safe && g.recommendation == "安全，建议清理"@
            &&& g.category == ScanCategory::System ==> g.safety_tenths == 200 && g.risk_level
                == RiskLevel::High && g.recommendation == "高风险，不建议清理"@
            &&& g.category == ScanCategory::App ==> g.safety_tenths == 500 && g.risk_level
                == RiskLevel::Medium && g.recommendation == "中等风险，建议谨慎操作"@
            &&& g.category == ScanCategory::Other ==> g.safety_tenths == 400 && g.risk_level
                == RiskLevel::Medium && g.recommendation == "中等风险，建议谨慎操作"@
            &&& g.name == category_label(g.category)
            &&& g.files == of_category(files, g.category)
        }),
{
    broadcast use vstd::seq_lib::group_to_multiset_ensures;

    lemma_categorized_groups(files, scanned_at);
    let unsorted = categories_of(files).map_values(
        |c: ScanCategory| group_for(files, c, scanned_at),
    );
    let r = categorized(files, scanned_at);
    assert(r.to_multiset().count(r[i]) > 0);
    assert(unsorted.to_multiset().count(r[i]) > 0);
    assert(unsorted.contains(r[i]));
    let k = choose|k: int| 0 <= k < unsorted.len() && unsorted[k] == r[i];
    assert(r[i] == group_for(files, categories_of(files)[k], scanned_at));
}

/// Whether a path lies under one of the folders that a deep scan scores
/// low: `C:\Windows`, `C:\Program Files` or `C:\Program Files (x86)`.
pub open spec fn under_program_folders(path: Seq<char>) -> bool {
    is_prefix("C:\\Windows"@, path) || is_prefix("C:\\Program Files"@, path) || is_prefix(
        "C:\\Program Files (x86)"@,
        path,
    )
}

/// How a deep scan scores a group, in tenths of a point. A group of at most
/// 100 MiB outside the system and program folders gets 890 for temporary
/// files and recycle-bin contents, 870 for caches, 862 for browser caches,
/// 850 for logs, 750 for downloads, 710 for applications, 670 for other
/// files and 570 for system files. Lying under one of those folders costs
/// 210; a size above 100 MiB costs 30 and one above 1 GiB costs 60, so a
/// larger group never scores higher. No group scores above 890, and a group
/// of system files is never rated better than medium risk.
pub proof fn lemma_deep_scan_scores(
    path: Seq<char>,
    elsewhere: Seq<char>,
    c: ScanCategory,
    size: nat,
    bigger: nat,
)
    ensures
        !under_program_folders(path) && size <= 0x640_0000 ==> {
            let t = evaluated_tenths(path, c, size);
            &&& c == ScanCategory::Temp ==> t == 890
            &&& c == ScanCategory::Recycle ==> t == 890
            &&& c == ScanCategory::Cache ==> t == 870
            &&& c == ScanCategory::Browser ==> t == 862
            &&& c == ScanCategory::Log ==> t == 850
            &&& c == ScanCategory::Download ==> t == 750
            &&& c == ScanCategory::App ==> t == 710
            &&& c == ScanCategory::Other ==> t == 670
            &&& c == ScanCategory::System ==> t == 570
        },
        under_program_folders(path) && !under_program_folders(elsewhere) ==> evaluated_tenths(
            path,
            c,
            size,
        ) + 210 == evaluated_tenths(elsewhere, c, size),
        0x640_0000 < size <= 0x4000_0000 ==> evaluated_tenths(path, c, size) + 30
            == evaluated_tenths(path, c, 0),
        0x4000_0000 < size ==> evaluated_tenths(path, c, size) + 60 == evaluated_tenths(path, c, 0),
        size <= bigger ==> evaluated_tenths(path, c, bigger) <= evaluated_tenths(path, c, size),
        evaluated_tenths(path, c, size) <= 890,
        risk_rank(risk_for_tenths(evaluated_tenths(path, ScanCategory::System, size))) >= 2,
{
}

/// The bands of risk, in tenths of a point: 80 points and up is safe, 60 up
/// to 80 low, 40 up to 60 medium, 20 up to 40 high and below 20 critical.
pub proof fn lemma_risk_bands(t: nat)
    ensures
        t >= 800 ==> risk_for_tenths(t) == RiskLevel::Safe,
        600 <= t < 800 ==> risk_for_tenths(t) == RiskLevel::Low,
        400 <= t < 600 ==> risk_for_tenths(t) == RiskLevel::Medium,
        200 <= t < 400 ==> risk_for_tenths(t) == RiskLevel::High,
        t < 200 ==> risk_for_tenths(t) == RiskLevel::Critical,
{
}

/// A higher score never stands for a graver risk.
pub proof fn lemma_risk_monotone(a: nat, b: nat)
    requires
        a <= b,
    ensures
        risk_rank(risk_for_tenths(b)) <= risk_rank(risk_for_tenths(a)),
{
}

proof fn lemma_category_listed(files: Seq<FileMetadata>, i: int)
    requires
        0 <= i < files.len(),
    ensures
        categories_of(files).contains(files[i].category),
        of_category(files, files[i].category).contains(files[i]),
    decreases files.len(),
{
    let c = files[i].category;
    if i < files.len() - 1 {
        lemma_category_listed(files.drop_last(), i);
        assert(files.drop_last()[i] == files[i]);
        let prev = categories_of(files.drop_last());
        if !prev.contains(files.last().category) {
            let k = choose|k: int| 0 <= k < prev.len() && prev[k] == c;
            assert(prev.push(files.last().category)[k] == c);
        }
        let fs = of_category(files.drop_last(), c);
        if files.last().category == c {
            let k = choose|k: int| 0 <= k < fs.len() && fs[k] == files[i];
            assert(fs.push(files.last())[k] == files[i]);
        }
    } else {
        let prev = categories_of(files.drop_last());
        if prev.contains(c) {
        } else {
            assert(prev.push(c)[prev.len() as int] == c);
        }
        let fs = of_category(files.drop_last(), c);
        assert(fs.push(files.last())[fs.len() as int] == files[i]);
    }
}

/// No file is lost by grouping: every file found sits in the group of its
/// category.
pub proof fn lemma_every_file_grouped(files: Seq<FileMetadata>, scanned_at: Seq<char>, i: int)
    requires
        0 <= i < files.len(),
    ensures
        exists|g: int|
            0 <= g < categorized(files, scanned_at).len() && (#[trigger] categorized(
                files,
                scanned_at,
            )[g]).category == files[i].category && categorized(files, scanned_at)[g].files.contains(
                files[i],
            ),
{
    broadcast use vstd::seq_lib::group_to_multiset_ensures;

    let c = files[i].category;
    lemma_category_listed(files, i);
    let cats = categories_of(files);
    let k = choose|k: int| 0 <= k < cats.len() && cats[k] == c;
    let unsorted = cats.map_values(|c: ScanCategory| group_for(files, c, scanned_at));
    let grp = unsorted[k];
    assert(grp == group_for(files, c, scanned_at));
    assert(unsorted.contains(grp));
    lemma_sort_desc(unsorted, |g: GroupView| group_size(g));
    let r = categorized(files, scanned_at);
    assert(unsorted.to_multiset().count(grp) > 0);
    assert(r.to_multiset().count(grp) > 0);
    assert(r.contains(grp));
    let g = choose|g: int| 0 <= g < r.len() && r[g] == grp;
    assert(r[g].category == c);
}

proof fn lemma_first_below<T>(s: Seq<T>, k: nat, key: spec_fn(T) -> nat, j: int)
    requires
        0 <= j <= s.len(),
        forall|i: int| 0 <= i < j ==> key(#[trigger] s[i]) >= k,
        j == s.len() || key(s[j]) < k,
    ensures
        first_below(s, k, key) == j,
    decreases s.len(),
{
    if s.len() > 0 && j > 0 {
        assert forall|i: int| 0 <= i < j - 1 implies key(#[trigger] s.drop_first()[i]) >= k by {
            assert(s.drop_first()[i] == s[i + 1]);
        }
        if j < s.len() {
            assert(s.drop_first()[j - 1] == s[j]);
        }
        lemma_first_below(s.drop_first(), k, key, j - 1);
    }
}

/// Where a group of this size goes in a list sorted by descending size:
/// after every group at least as large.
fn group_slot(sorted: &Vec<CategoryGroup>, size: u64) -> (r: usize)
    ensures
        r == first_below(
            sorted@.map_values(|g: CategoryGroup| g@),
            size as nat,
            |g: GroupView| group_size(g),
        ),
        r <= sorted@.len(),
{
    let ghost v = sorted@.map_values(|g: CategoryGroup| g@);
    let mut j: usize = 0;
    while j < sorted.len() && sorted[j].total_size >= size
        invariant
            j <= sorted@.len(),
            v == sorted@.map_values(|g: CategoryGroup| g@),
            forall|i: int| 0 <= i < j ==> group_size(#[trigger] v[i]) >= size,
        decreases sorted@.len() - j,
    {
        j = j + 1;
    }
    proof {
        lemma_first_below(v, size as nat, |g: GroupView| group_size(g), j as int);
    }
    j
}

/// The files of one category, copied in the order they were found.
fn files_of_category(files: &Vec<FileMetadata>, c: ScanCategory) -> (r: Vec<FileMetadata>)
    ensures
        r@ == of_category(files@, c),
{
    let mut r: Vec<FileMetadata> = Vec::new();
    let mut i: usize = 0;
    while i < files.len()
        invariant
            i <= files@.len(),
            r@ == of_category(files@.take(i as int), c),
        decreases files@.len() - i,
    {
        assert(files@.take(i + 1).drop_last() == files@.take(i as int));
        if files[i].category == c {
            r.push(files[i].clone());
        }
        i = i + 1;
    }
    assert(files@.take(files@.len() as int) == files@);
    r
}

/// The sum of the sizes of files whose total is known to fit.
fn sum_sizes(files: &Vec<FileMetadata>) -> (r: u64)
    requires
        total_bytes(files@) <= u64::MAX,
    ensures
        r == total_bytes(files@),
{
    let mut total: u64 = 0;
    let mut i: usize = 0;
    while i < files.len()
        invariant
            i <= files@.len(),
            total == total_bytes(files@.take(i as int)),
            total_bytes(files@) <= u64::MAX,
        decreases files@.len() - i,
    {
        assert(files@.take(i + 1).drop_last() == files@.take(i as int));
        proof {
            lemma_total_prefix(files@, i + 1);
        }
        total = total + files[i].size;
        i = i + 1;
    }
    assert(files@.take(files@.len() as int) == files@);
    total
}

proof fn lemma_total_prefix(files: Seq<FileMetadata>, i: int)
    requires
        0 <= i <= files.len(),
    ensures
        total_bytes(files.take(i)) <= total_bytes(files),
    decreases files.len(),
{
    if i < files.len() {
        assert(files.drop_last().take(i) == files.take(i));
        lemma_total_prefix(files.drop_last(), i);
    } else {
        assert(files.take(i) == files);
    }
}

/// The categories that occur among the files, in order of first occurrence.
fn categories_in(files: &Vec<FileMetadata>) -> (r: Vec<ScanCategory>)
    ensures
        r@ == categories_of(files@),
{
    let mut r: Vec<ScanCategory> = Vec::new();
    let mut i: usize = 0;
    while i < files.len()
        invariant
            i <= files@.len(),
            r@ == categories_of(files@.take(i as int)),
        decreases files@.len() - i,
    {
        assert(files@.take(i + 1).drop_last() == files@.take(i as int));
        let c = files[i].category;
        let mut seen = false;
        let mut k: usize = 0;
        while k < r.len()
            invariant
                k <= r@.len(),
                seen == (exists|m: int| 0 <= m < k && r@[m] == c),
            decreases r@.len() - k,
        {
            if r[k] == c {
                seen = true;
            }
            k = k + 1;
        }
        proof {
            if seen {
                let m = choose|m: int| 0 <= m < k && r@[m] == c;
                assert(r@.contains(c));
            } else {
                assert(!r@.contains(c));
            }
        }
        if !seen {
            r.push(c);
        }
        i = i + 1;
    }
    assert(files@.take(files@.len() as int) == files@);
    r
}

impl ScanEngine {
    /// The key a path is matched by: forward slashes made backslashes, then
    /// lower-cased.
    pub fn path_key(path: &str) -> (r: String)
        ensures
            r@ == path_key_of(path@),
    {
        let unified = replace_char_exec(path, '/', "\\");
        to_lowercase(unified.as_str())
    }

    /// The files offered for AI review: from each group in turn its
    /// largest files (at most `AI_SAMPLE_PER_RESULT`, equal sizes in their
    /// order), skipping any whose path key was already taken, up to
    /// `AI_MAX_SAMPLE_FILES` files.
    pub fn select_ai_samples(groups: &[CategoryGroup]) -> (r: Vec<FileMetadata>)
        ensures
            r@ == pick_samples(sample_candidates(groups@.map_values(|g: CategoryGroup| g@))),
    {
        let ghost gv = groups@.map_values(|g: CategoryGroup| g@);
        let mut samples: Vec<FileMetadata> = Vec::new();
        let mut keys: Vec<String> = Vec::new();
        let mut gi: usize = 0;
        while gi < groups.len()
            invariant
                gi <= groups@.len(),
                gv == groups@.map_values(|g: CategoryGroup| g@),
                samples@ == pick_samples(sample_candidates(gv.take(gi as int))),
                keys@.map_values(|k: String| k@) == keys_of(samples@),
            decreases groups@.len() - gi,
        {
            let sorted = sort_files_desc(&groups[gi].files);
            let n = if sorted.len() < AI_SAMPLE_PER_RESULT {
                sorted.len()
            } else {
                AI_SAMPLE_PER_RESULT
            };
            let ghost before = sample_candidates(gv.take(gi as int));
            let ghost top = first_n(sorted@, AI_SAMPLE_PER_RESULT as nat);
            proof {
                assert(gv.take(gi + 1).drop_last() == gv.take(gi as int));
                assert(gv.take(gi + 1).last() == groups@[gi as int]@);
                assert(top.len() == n);
            }
            let mut j: usize = 0;
            while j < n
                invariant
                    j <= n,
                    n == top.len(),
                    n <= sorted@.len(),
                    top == first_n(sorted@, AI_SAMPLE_PER_RESULT as nat),
                    samples@ == pick_samples(before + top.take(j as int)),
                    keys@.map_values(|k: String| k@) == keys_of(samples@),
                decreases n - j,
            {
                let key = Self::path_key(sorted[j].path.as_str());
                let ghost prev = samples@;
                proof {
                    assert(top[j as int] == sorted@[j as int]);
                    assert((before + top.take(j + 1)).drop_last() == before + top.take(j as int));
                    assert((before + top.take(j + 1)).last() == sorted@[j as int]);
                }
                if samples.len() < AI_MAX_SAMPLE_FILES && !has_key(&keys, &key) {
                    samples.push(sorted[j].clone());
                    keys.push(key);
                    proof {
                        assert(keys_of(samples@) =~= keys_of(prev).push(key@));
                        assert(keys@.map_values(|k: String| k@) =~= keys_of(samples@));
                    }
                }
                j = j + 1;
            }
            assert(top.take(n as int) == top);
            gi = gi + 1;
        }
        assert(gv.take(groups@.len() as int) == gv);
        samples
    }


    /// A category that the most findings share; `None` when there are no
    /// findings.
    pub fn majority_category(findings: &[AiFinding]) -> (r: Option<ScanCategory>)
        ensures
            findings@.len() == 0 <==> r is None,
            r matches Some(c) ==> count_category(findings@, c) > 0 && forall|d: ScanCategory|
                #[trigger] count_category(findings@, d) <= count_category(findings@, c),
    {
        let mut best: Option<ScanCategory> = None;
        let mut best_count: usize = 0;
        let mut i: usize = 0;
        while i < findings.len()
            invariant
                i <= findings@.len(),
                i == 0 <==> best is None,
                best matches Some(c) ==> best_count == count_category(findings@, c)
                    && best_count > 0,
                forall|k: int|
                    0 <= k < i ==> count_category(findings@, (#[trigger] findings@[k]).category)
                        <= best_count,
            decreases findings@.len() - i,
        {
            let c = findings[i].category;
            let n = count_in_category(findings, c);
            proof {
                lemma_count_category_bound(findings@, c);
                assert(findings@[i as int].category == c);
            }
            if best.is_none() || n > best_count {
                best = Some(c);
                best_count = n;
            }
            i = i + 1;
        }
        proof {
            assert forall|d: ScanCategory| #[trigger] count_category(findings@, d) <= best_count by {
                lemma_count_category_bound(findings@, d);
                if count_category(findings@, d) > 0 {
                    let k = choose|k: int| 0 <= k < findings@.len() && findings@[k].category == d;
                    assert(count_category(findings@, findings@[k].category) <= best_count);
                }
            }
        }
        best
    }

    /// The gravest risk among the findings; `None` when there are none.
    pub fn worst_risk(findings: &[AiFinding]) -> (r: Option<RiskLevel>)
        ensures
            findings@.len() == 0 <==> r is None,
            r matches Some(w) ==> (exists|i: int|
                0 <= i < findings@.len() && (#[trigger] findings@[i]).risk_level == w) && forall|
                i: int,
            |
                0 <= i < findings@.len() ==> risk_rank((#[trigger] findings@[i]).risk_level)
                    <= risk_rank(w),
    {
        let mut worst: Option<RiskLevel> = None;
        let mut i: usize = 0;
        while i < findings.len()
            invariant
                i <= findings@.len(),
                i == 0 <==> worst is None,
                worst matches Some(w) ==> (exists|k: int|
                    0 <= k < i && (#[trigger] findings@[k]).risk_level == w) && forall|k: int|
                    0 <= k < i ==> risk_rank((#[trigger] findings@[k]).risk_level) <= risk_rank(
                        w,
                    ),
            decreases findings@.len() - i,
        {
            let r = findings[i].risk_level;
            match worst {
                None => {
                    worst = Some(r);
                },
                Some(w) => {
                    if Self::risk_weight(r) >= Self::risk_weight(w) {
                        worst = Some(r);
                    }
                },
            }
            i = i + 1;
        }
        worst
    }

    /// How many findings say a file should not be cleaned.
    pub fn unsafe_count(findings: &[AiFinding]) -> (r: usize)
        ensures
            r == count_unsafe(findings@),
    {
        let mut n: usize = 0;
        let mut i: usize = 0;
        while i < findings.len()
            invariant
                i <= findings@.len(),
                n == count_unsafe(findings@.take(i as int)),
                n <= i,
            decreases findings@.len() - i,
        {
            assert(findings@.take(i + 1).drop_last() == findings@.take(i as int));
            if !findings[i].safe_to_clean {
                n = n + 1;
            }
            i = i + 1;
        }
        assert(findings@.take(findings@.len() as int) == findings@);
        n
    }

    /// The reasons quoted in advice: the first two distinct non-empty
    /// trimmed reasons joined by `"；"`, or a note that none was given.
    pub fn ai_reason_text(findings: &[AiFinding]) -> (r: String)
        ensures
            r@ == reason_text(findings@),
    {
        let ghost rs = reasons_of(findings@);
        let mut picked: Vec<String> = Vec::new();
        let mut i: usize = 0;
        while i < findings.len()
            invariant
                i <= findings@.len(),
                rs == reasons_of(findings@),
                picked@.map_values(|t: String| t@) == pick_reasons(rs.take(i as int)),
            decreases findings@.len() - i,
        {
            let t = trim_str(findings[i].reason.as_str());
            let ghost before = picked@.map_values(|t: String| t@);
            proof {
                assert(rs.take(i + 1).drop_last() == rs.take(i as int));
                assert(rs.take(i + 1).last() == t@);
            }
            if picked.len() < 2 && !t.as_str().is_empty() && !has_key(&picked, &t) {
                picked.push(t);
                assert(picked@.map_values(|t: String| t@) =~= before.push(t@));
            }
            i = i + 1;
        }
        assert(rs.take(findings@.len() as int) == rs);
        proof {
            lemma_pick_reasons_len(rs);
        }
        let ghost pv = picked@.map_values(|t: String| t@);
        if picked.len() == 0 {
            owned("未提供详细原因")
        } else if picked.len() == 1 {
            assert(joined(pv, "；"@) == pv[0]);
            picked[0].clone()
        } else {
            proof {
                assert(pv.len() == 2);
                assert(pv.drop_last().len() == 1);
                assert(joined(pv.drop_last(), "；"@) == pv[0]);
            }
            let mut out = picked[0].clone();
            out.append("；");
            out.append(picked[1].as_str());
            out
        }
    }

    /// The advice an AI review gives a group: the gravest risk, how many
    /// files were sampled and how many of them should not be cleaned, and
    /// the reasons given.
    pub fn build_ai_recommendation(
        findings: &[AiFinding],
        unsafe_count: usize,
        worst_risk: RiskLevel,
    ) -> (r: String)
        ensures
            r@ == ai_advice(findings@, unsafe_count as nat, worst_risk),
    {
        let reasons = Self::ai_reason_text(findings);
        let mut out = concat("AI识别：", Self::risk_label(worst_risk));
        out.append("，抽样 ");
        let n = decimal_string(findings.len() as u64);
        out.append(n.as_str());
        if unsafe_count == 0 {
            out.append(" 个文件均可清理。");
        } else {
            out.append(" 个文件中 ");
            let u = decimal_string(unsafe_count as u64);
            out.append(u.as_str());
            out.append(" 个不建议清理。");
        }
        out.append(reasons.as_str());
        out
    }


    /// How an AI review's findings change a group. Each file whose path key
    /// a finding has takes the category of the last such finding; `None`
    /// when no file matched. Otherwise the group takes a category that most
    /// matched findings share, its name, the gravest matched risk, the
    /// advice for the matched findings, a description that counts them, and
    /// the score cap of that risk.
    pub fn review_group(group: &CategoryGroup, findings: &[AiFinding]) -> (r: Option<GroupReview>)
        ensures
            ({
                let ms = matches_of(group.files@, findings@);
                let matched = ms.map_values(|i: int| findings@[i]);
                &&& (ms.len() == 0 <==> r is None)
                &&& (r matches Some(v) ==> {
                    &&& v.files@ == group.files@.map_values(
                        |f: FileMetadata| recategorized(f, findings@),
                    )
                    &&& v.matched@.map_values(|i: usize| i as int) == ms
                    &&& count_category(matched, v.category) > 0
                    &&& forall|d: ScanCategory| #[trigger]
                        count_category(matched, d) <= count_category(matched, v.category)
                    &&& v.name@ == category_label(v.category)
                    &&& (exists|i: int|
                        0 <= i < matched.len() && (#[trigger] matched[i]).risk_level
                            == v.risk_level)
                    &&& forall|i: int|
                        0 <= i < matched.len() ==> risk_rank((#[trigger] matched[i]).risk_level)
                            <= risk_rank(v.risk_level)
                    &&& v.recommendation@ == ai_advice(
                        matched,
                        count_unsafe(matched),
                        v.risk_level,
                    )
                    &&& v.description@ == reviewed_description(
                        category_label(v.category),
                        group.file_count as nat,
                        group.total_size as nat,
                        ms.len(),
                    )
                    &&& v.score_cap == risk_cap(v.risk_level)
                })
            }),
    {
        let mut keys: Vec<String> = Vec::new();
        let mut i: usize = 0;
        while i < findings.len()
            invariant
                i <= findings@.len(),
                keys@.len() == i,
                forall|k: int|
                    0 <= k < i ==> (#[trigger] keys@[k])@ == path_key_of(findings@[k].path@),
            decreases findings@.len() - i,
        {
            keys.push(Self::path_key(findings[i].path.as_str()));
            i = i + 1;
        }
        let ghost fv = findings@;
        let ghost gf = group.files@;
        let mut files: Vec<FileMetadata> = Vec::new();
        let mut idx: Vec<usize> = Vec::new();
        let mut matched: Vec<AiFinding> = Vec::new();
        let mut j: usize = 0;
        while j < group.files.len()
            invariant
                j <= gf.len(),
                gf == group.files@,
                fv == findings@,
                keys@.len() == fv.len(),
                forall|k: int|
                    0 <= k < fv.len() ==> (#[trigger] keys@[k])@ == path_key_of(fv[k].path@),
                files@ == gf.take(j as int).map_values(|f: FileMetadata| recategorized(f, fv)),
                idx@.map_values(|i: usize| i as int) == matches_of(gf.take(j as int), fv),
                matched@ == matches_of(gf.take(j as int), fv).map_values(|i: int| fv[i]),
            decreases gf.len() - j,
        {
            let k = Self::path_key(group.files[j].path.as_str());
            let ghost ms0 = matches_of(gf.take(j as int), fv);
            let ghost iv0 = idx@;
            let ghost mv0 = matched@;
            let ghost fl0 = files@;
            proof {
                assert(gf.take(j + 1).drop_last() == gf.take(j as int));
                assert(gf.take(j + 1).last() == gf[j as int]);
            }
            match last_finding(&keys, &k) {
                Some(fi) => {
                    proof {
                        assert(keys@[fi as int]@ == path_key_of(fv[fi as int].path@));
                        assert forall|q: int| fi < q < fv.len() implies path_key_of(
                            #[trigger] fv[q].path@,
                        ) != k@ by {
                            assert(keys@[q]@ == path_key_of(fv[q].path@));
                        }
                        lemma_finding_for_last(fv, k@, fi as int);
                    }
                    let mut f = group.files[j].clone();
                    f.category = findings[fi].category;
                    files.push(f);
                    idx.push(fi);
                    matched.push(findings[fi].clone());
                    proof {
                        assert(idx@.map_values(|i: usize| i as int) =~= iv0.map_values(
                            |i: usize| i as int,
                        ).push(fi as int));
                        assert(ms0.push(fi as int).map_values(|i: int| fv[i]) =~= ms0.map_values(
                            |i: int| fv[i],
                        ).push(fv[fi as int]));
                    }
                },
                None => {
                    proof {
                        assert forall|q: int| 0 <= q < fv.len() implies path_key_of(
                            #[trigger] fv[q].path@,
                        ) != k@ by {
                            assert(keys@[q]@ == path_key_of(fv[q].path@));
                        }
                        lemma_finding_for_none(fv, k@);
                    }
                    files.push(group.files[j].clone());
                },
            }
            proof {
                assert(files@ =~= gf.take(j + 1).map_values(
                    |f: FileMetadata| recategorized(f, fv),
                ));
            }
            j = j + 1;
        }
        assert(gf.take(gf.len() as int) == gf);
        if idx.len() == 0 {
            return None;
        }
        let category = match Self::majority_category(matched.as_slice()) {
            Some(c) => c,
            None => group.category,
        };
        let worst = match Self::worst_risk(matched.as_slice()) {
            Some(w) => w,
            None => RiskLevel::Medium,
        };
        let unsafe_n = Self::unsafe_count(matched.as_slice());
        let name = Self::category_name(category);
        let mut description = concat(name, ": ");
        let n = decimal_string(group.file_count);
        description.append(n.as_str());
        description.append(" 个文件, ");
        let mb = fixed2_of(as_float(group.total_size), 0x10_0000, " MB，AI抽样识别 ");
        description.append(mb.as_str());
        let m = decimal_string(idx.len() as u64);
        description.append(m.as_str());
        description.append(" 个");
        Some(
            GroupReview {
                files,
                matched: idx,
                category,
                name: owned(name),
                risk_level: worst,
                recommendation: Self::build_ai_recommendation(matched.as_slice(), unsafe_n, worst),
                description,
                score_cap: Self::score_cap_for_risk(worst),
            },
        )
    }


    /// The folders a quick scan walks, under the user's profile and the
    /// Windows folder, in the order they are walked.
    pub fn get_quick_scan_paths(user_profile: &str, windows_dir: &str) -> (r: Vec<String>)
        ensures
            r@.map_values(|p: String| p@) == quick_scan_paths(user_profile@, windows_dir@),
    {
        let mut r: Vec<String> = Vec::new();
        r.push(concat(user_profile, "\\AppData\\Local\\Temp"));
        r.push(concat(windows_dir, "\\Temp"));
        r.push(concat(windows_dir, "\\SoftwareDistribution\\Download"));
        r.push(concat(windows_dir, "\\Prefetch"));
        r.push(owned("C:\\$Recycle.Bin"));
        r.push(concat(user_profile, "\\AppData\\Local\\Microsoft\\Windows\\INetCache"));
        r.push(concat(user_profile, "\\AppData\\Local\\Microsoft\\Windows\\Explorer"));
        r.push(
            concat(user_profile, "\\AppData\\Local\\Google\\Chrome\\User Data\\Default\\Cache"),
        );
        r.push(
            concat(user_profile, "\\AppData\\Local\\Microsoft\\Edge\\User Data\\Default\\Cache"),
        );
        r.push(concat(user_profile, "\\AppData\\Local\\Mozilla\\Firefox\\Profiles"));
        assert(r@.map_values(|p: String| p@) =~= quick_scan_paths(user_profile@, windows_dir@));
        r
    }

    /// The description of a group: `"<name>: <n> 个文件, <size> MB"`.
    pub fn describe_group(name: &str, count: u64, size: u64) -> (r: String)
        ensures
            r@ == group_description(name@, count as nat, size as nat),
    {
        let mut d = concat(name, ": ");
        let n = decimal_string(count);
        d.append(n.as_str());
        d.append(" 个文件, ");
        let mb = fixed2_of(as_float(size), 0x10_0000, " MB");
        d.append(mb.as_str());
        d
    }

    /// Groups the files a scan found by category. Each group holds its
    /// category's files in the order found, their total size and count, the
    /// category's safety score and the risk and advice that go with it, the
    /// parent folder of its first file, and the scan's time; the groups come
    /// largest first.
    pub fn categorize_results(files: Vec<FileMetadata>, scanned_at: &str) -> (r: Vec<CategoryGroup>)
        requires
            forall|c: ScanCategory| #[trigger] total_bytes(of_category(files@, c)) <= u64::MAX,
        ensures
            r@.map_values(|g: CategoryGroup| g@) == categorized(files@, scanned_at@),
    {
        let cats = categories_in(&files);
        let ghost unsorted = cats@.map_values(
            |c: ScanCategory| group_for(files@, c, scanned_at@),
        );
        let mut sorted: Vec<CategoryGroup> = Vec::new();
        let mut i: usize = 0;
        while i < cats.len()
            invariant
                i <= cats@.len(),
                cats@ == categories_of(files@),
                unsorted == cats@.map_values(|c: ScanCategory| group_for(files@, c, scanned_at@)),
                forall|c: ScanCategory| #[trigger] total_bytes(of_category(files@, c)) <= u64::MAX,
                sorted@.map_values(|g: CategoryGroup| g@) == sort_desc(
                    unsorted.take(i as int),
                    |g: GroupView| group_size(g),
                ),
            decreases cats@.len() - i,
        {
            let c = cats[i];
            let fs = files_of_category(&files, c);
            assert(total_bytes(of_category(files@, c)) <= u64::MAX);
            let total = sum_sizes(&fs);
            let path = if fs.len() > 0 {
                match parent_of(fs[0].path.as_str()) {
                    Some(q) => q,
                    None => String::new(),
                }
            } else {
                String::new()
            };
            let name = Self::category_name(c);
            let tenths = Self::calculate_category_safety(c) * 10;
            let risk = Self::risk_from_tenths(tenths);
            let count = fs.len() as u64;
            let g = CategoryGroup {
                path,
                name: owned(name),
                category: c,
                description: Self::describe_group(name, count, total),
                files: fs,
                total_size: total,
                file_count: count,
                safety_tenths: tenths,
                risk_level: risk,
                recommendation: owned(Self::recommendation_for(risk)),
                scanned_at: owned(scanned_at),
            };
            assert(g@ == unsorted[i as int]);
            let slot = group_slot(&sorted, total);
            proof {
                let key = |g: GroupView| group_size(g);
                assert(unsorted.take(i + 1).drop_last() == unsorted.take(i as int));
                assert(unsorted.take(i + 1).last() == g@);
            }
            sorted.insert(slot, g);
            proof {
                let key = |g: GroupView| group_size(g);
                let before = sort_desc(unsorted.take(i as int), key);
                assert(sorted@.map_values(|g: CategoryGroup| g@) =~= before.insert(
                    slot as int,
                    unsorted[i as int],
                ));
            }
            i = i + 1;
        }
        assert(unsorted.take(cats@.len() as int) == unsorted);
        sorted
    }
}

impl ScanEngine {
    /// Whether a scan is under way.
    pub closed spec fn scanning(&self) -> bool {
        self.is_scanning
    }

    /// Whether the current scan was asked to stop.
    pub closed spec fn cancelled(&self) -> bool {
        self.cancel_requested
    }

    /// The groups the last scan produced.
    pub closed spec fn stored(&self) -> Seq<GroupView> {
        self.results@.map_values(|g: CategoryGroup| g@)
    }

    /// An idle scanner with no results.
    pub fn new() -> (r: Self)
        ensures
            !r.scanning(),
            !r.cancelled(),
            r.stored().len() == 0,
    {
        ScanEngine { is_scanning: false, cancel_requested: false, results: Vec::new() }
    }

    /// Starts a scan: refused while one is under way; otherwise the scanner
    /// is marked busy and any earlier stop request is cleared.
    pub fn begin_scan(&mut self) -> (r: Result<(), AppError>)
        ensures
            old(self).scanning() ==> (r matches Err(AppError::ScanError(m)) && m@
                == "扫描正在进行中"@),
            old(self).scanning() ==> *final(self) == *old(self),
            !old(self).scanning() ==> r is Ok && final(self).scanning()
                && !final(self).cancelled() && final(self).stored() == old(self).stored(),
    {
        if self.is_scanning {
            return Err(AppError::ScanError(owned("扫描正在进行中")));
        }
        self.is_scanning = true;
        self.cancel_requested = false;
        Ok(())
    }

    /// Ends a scan that failed: the scanner is idle again.
    pub fn fail_scan(&mut self)
        ensures
            !final(self).scanning(),
            final(self).cancelled() == old(self).cancelled(),
            final(self).stored() == old(self).stored(),
    {
        self.is_scanning = false;
    }

    /// Ends a scan that ran to its end and gives the phase it ends in:
    /// cancelled if a stop was asked for, else completed. The scanner is idle
    /// again.
    pub fn finish_scan(&mut self) -> (r: ScanPhase)
        ensures
            r == (if old(self).cancelled() {
                ScanPhase::Cancelled
            } else {
                ScanPhase::Completed
            }),
            !final(self).scanning(),
            final(self).cancelled() == old(self).cancelled(),
            final(self).stored() == old(self).stored(),
    {
        self.is_scanning = false;
        if self.cancel_requested {
            ScanPhase::Cancelled
        } else {
            ScanPhase::Completed
        }
    }

    /// Asks the running scan to stop: refused when no scan is under way;
    /// otherwise the stop is recorded and the scanner is idle.
    pub fn stop_scan(&mut self) -> (r: Result<(), AppError>)
        ensures
            !old(self).scanning() ==> (r matches Err(AppError::ScanError(m)) && m@
                == "没有正在进行的扫描"@),
            !old(self).scanning() ==> *final(self) == *old(self),
            old(self).scanning() ==> r is Ok && !final(self).scanning() && final(self).cancelled()
                && final(self).stored() == old(self).stored(),
    {
        if !self.is_scanning {
            return Err(AppError::ScanError(owned("没有正在进行的扫描")));
        }
        self.cancel_requested = true;
        self.is_scanning = false;
        Ok(())
    }

    /// Whether a scan is under way.
    pub fn is_scanning(&self) -> (r: bool)
        ensures
            r == self.scanning(),
    {
        self.is_scanning
    }

    /// Whether the current scan was asked to stop.
    pub fn is_cancelled(&self) -> (r: bool)
        ensures
            r == self.cancelled(),
    {
        self.cancel_requested
    }

    /// Marks the scanner busy or idle.
    pub fn set_scanning(&mut self, v: bool)
        ensures
            final(self).scanning() == v,
            final(self).cancelled() == old(self).cancelled(),
            final(self).stored() == old(self).stored(),
    {
        self.is_scanning = v;
    }

    /// The groups the last scan produced.
    pub fn get_results(&self) -> (r: &[CategoryGroup])
        ensures
            r@.map_values(|g: CategoryGroup| g@) == self.stored(),
    {
        self.results.as_slice()
    }

    /// Replaces the stored groups.
    pub fn set_results(&mut self, results: Vec<CategoryGroup>)
        ensures
            final(self).stored() == results@.map_values(|g: CategoryGroup| g@),
            final(self).scanning() == old(self).scanning(),
            final(self).cancelled() == old(self).cancelled(),
    {
        self.results = results;
    }

    /// The safety score (out of 100) a category gets when a scan groups it.
    pub fn calculate_category_safety(category: ScanCategory) -> (r: u32)
        ensures
            r == category_safety(category),
    {
        match category {
            ScanCategory::Temp => 95,
            ScanCategory::Cache => 90,
            ScanCategory::Log => 85,
            ScanCategory::Download => 60,
            ScanCategory::Recycle => 95,
            ScanCategory::Browser => 88,
            ScanCategory::System => 20,
            ScanCategory::App => 50,
            ScanCategory::Other => 40,
        }
    }

    /// The risk that a score in tenths of a point stands for.
    pub fn risk_from_tenths(t: u32) -> (r: RiskLevel)
        ensures
            r == risk_for_tenths(t as nat),
    {
        if t >= 800 {
            RiskLevel::Safe
        } else if t >= 600 {
            RiskLevel::Low
        } else if t >= 400 {
            RiskLevel::Medium
        } else if t >= 200 {
            RiskLevel::High
        } else {
            RiskLevel::Critical
        }
    }

    /// The advice given for a group at this level of risk.
    pub fn recommendation_for(risk: RiskLevel) -> (r: &'static str)
        ensures
            r@ == recommendation_text(risk),
    {
        match risk {
            RiskLevel::Safe => "安全，建议清理",
            RiskLevel::Low => "低风险，可以清理",
            RiskLevel::Medium => "中等风险，建议谨慎操作",
            RiskLevel::High => "高风险，不建议清理",
            RiskLevel::Critical => "极高风险，请勿清理",
        }
    }

    /// The display name of a category.
    pub fn category_name(category: ScanCategory) -> (r: &'static str)
        ensures
            r@ == category_label(category),
    {
        match category {
            ScanCategory::Temp => "临时文件",
            ScanCategory::Cache => "缓存文件",
            ScanCategory::Log => "日志文件",
            ScanCategory::Download => "下载文件",
            ScanCategory::Recycle => "回收站",
            ScanCategory::Browser => "浏览器缓存",
            ScanCategory::System => "系统文件",
            ScanCategory::App => "应用数据",
            ScanCategory::Other => "其他文件",
        }
    }

    /// The display name of a level of risk.
    pub fn risk_label(risk: RiskLevel) -> (r: &'static str)
        ensures
            r@ == risk_label_text(risk),
    {
        match risk {
            RiskLevel::Safe => "安全",
            RiskLevel::Low => "低风险",
            RiskLevel::Medium => "中等风险",
            RiskLevel::High => "高风险",
            RiskLevel::Critical => "极高风险",
        }
    }

    /// The rank of a level of risk, from 0 (safe) to 4 (critical).
    pub fn risk_weight(risk: RiskLevel) -> (r: u8)
        ensures
            r == risk_rank(risk),
    {
        match risk {
            RiskLevel::Safe => 0,
            RiskLevel::Low => 1,
            RiskLevel::Medium => 2,
            RiskLevel::High => 3,
            RiskLevel::Critical => 4,
        }
    }

    /// The highest score a group may keep once an AI review found this risk.
    pub fn score_cap_for_risk(risk: RiskLevel) -> (r: u32)
        ensures
            r == risk_cap(risk),
    {
        match risk {
            RiskLevel::Safe => 100,
            RiskLevel::Low => 79,
            RiskLevel::Medium => 59,
            RiskLevel::High => 39,
            RiskLevel::Critical => 19,
        }
    }

    /// The score a location earns: 10 under the system and program folders,
    /// 80 elsewhere.
    pub fn score_by_path(path: &str) -> (r: u32)
        ensures
            r == path_score(path@),
    {
        if crate::text::starts_with(path, "C:\\Windows") || crate::text::starts_with(
            path,
            "C:\\Program Files",
        ) || crate::text::starts_with(path, "C:\\Program Files (x86)") {
            10
        } else {
            80
        }
    }

    /// The score a category earns when a deep scan re-evaluates a group.
    pub fn score_by_category(category: ScanCategory) -> (r: u32)
        ensures
            r == category_score(category),
    {
        match category {
            ScanCategory::Temp => 95,
            ScanCategory::Cache => 90,
            ScanCategory::Log => 85,
            ScanCategory::Recycle => 95,
            ScanCategory::Browser => 88,
            ScanCategory::Download => 60,
            ScanCategory::System => 15,
            ScanCategory::App => 50,
            ScanCategory::Other => 40,
        }
    }

    /// The score a total size earns.
    pub fn score_by_size(size: u64) -> (r: u32)
        ensures
            r == size_score(size as nat),
    {
        if size > 1024 * 1024 * 1024 {
            70
        } else if size > 1024 * 1024 * 100 {
            80
        } else {
            90
        }
    }

    /// Re-scores the stored groups as a deep scan does: each group gets the
    /// weighted score of its location, category and size, and the risk that
    /// score stands for; nothing else changes.
    pub fn evaluate_safety_scores(&mut self)
        ensures
            final(self).scanning() == old(self).scanning(),
            final(self).cancelled() == old(self).cancelled(),
            final(self).stored().len() == old(self).stored().len(),
            forall|i: int|
                0 <= i < old(self).stored().len() ==> {
                    let g = #[trigger] final(self).stored()[i];
                    let o = old(self).stored()[i];
                    &&& g.safety_tenths == evaluated_tenths(o.path, o.category, o.total_size as nat)
                    &&& g.risk_level == risk_for_tenths(g.safety_tenths as nat)
                    &&& g == (GroupView {
                        safety_tenths: g.safety_tenths,
                        risk_level: g.risk_level,
                        ..o
                    })
                },
    {
        let mut out: Vec<CategoryGroup> = Vec::new();
        let n = self.results.len();
        let mut i: usize = 0;
        while i < n
            invariant
                n == self.results@.len(),
                i <= n,
                out@.len() == i,
                forall|k: int|
                    0 <= k < i ==> {
                        let g = #[trigger] out@[k]@;
                        let o = self.results@[k]@;
                        &&& g.safety_tenths == evaluated_tenths(
                            o.path,
                            o.category,
                            o.total_size as nat,
                        )
                        &&& g.risk_level == risk_for_tenths(g.safety_tenths as nat)
                        &&& g == (GroupView {
                            safety_tenths: g.safety_tenths,
                            risk_level: g.risk_level,
                            ..o
                        })
                    },
            decreases n - i,
        {
            let mut g = self.results[i].clone();
            let p = Self::score_by_path(&g.path);
            let t = Self::score_by_category(g.category);
            let s = Self::score_by_size(g.total_size);
            g.safety_tenths = 3 * p + 4 * t + 3 * s;
            g.risk_level = Self::risk_from_tenths(g.safety_tenths);
            out.push(g);
            i = i + 1;
        }
        proof {
            assert(out@.map_values(|g: CategoryGroup| g@).len() == n);
        }
        self.results = out;
    }
}

} // verus!
