//! The layered protection that decides whether a path may be cleaned:
//! system directories first, then system file types, then the user's
//! private folders.
use vstd::prelude::*;

use crate::models::scan::{FileMetadata, RiskLevel};
use crate::services::signature_verifier::{SignatureInfo, SignatureVerifier};
use crate::text::{
    chars_eq, chars_of, chars_starts_with, concat, debug_quote, debug_quoted, is_prefix,
    lowercase, push_char, replace_char, replace_char_exec, str_eq, string_of, to_lowercase,
    trim_end_char, trim_end_char_exec,
};

verus! {

/// What `Path::extension` gives for a path (then read as text): the part of
/// the last file name after its last dot, as the platform's path rules say.
pub uninterp spec fn path_extension(p: Seq<char>) -> Option<Seq<char>>;

/// Calls `std::path::Path::extension` and reads the extension as text; the
/// result is named `path_extension` of the argument.
#[verifier::external_body]
pub(crate) fn extension_of(p: &str) -> (r: Option<String>)
    ensures
        match r {
            Some(e) => path_extension(p@) == Some(e@),
            None => path_extension(p@) is None,
        },
{
    std::path::Path::new(p).extension().and_then(|e| e.to_str()).map(|e| e.to_string())
}

/// Which layer of protection stopped a path.
#[derive(Debug, Clone, Copy, PartialEq, Eq, Structural)]
pub enum ProtectionLevel {
    NoProtection,
    Level1DirectoryWhitelist,
    Level2ExtensionWhitelist,
    Level3SignatureVerification,
    PrivacyProtection,
}

/// The verdict on one path.
#[derive(Debug)]
pub struct PathSafetyResult {
    pub is_safe: bool,
    pub risk_level: RiskLevel,
    pub reason: String,
    pub protection_level: ProtectionLevel,
}

impl Clone for PathSafetyResult {
    fn clone(&self) -> (r: Self)
        ensures
            r == *self,
    {
        PathSafetyResult {
            is_safe: self.is_safe,
            risk_level: self.risk_level,
            reason: self.reason.clone(),
            protection_level: self.protection_level,
        }
    }
}

/// The guard with its protected directories, protected extensions, the
/// user's private directories and the directories known to be safe to clean.
#[derive(Debug, Clone)]
pub struct SafetyGuard {
    protected_dirs: Vec<String>,
    protected_extensions: Vec<String>,
    privacy_dirs: Vec<String>,
    safe_cleanup_dirs: Vec<String>,
    signature_verifier: SignatureVerifier,
}

/// The texts of a list of strings.
pub open spec fn texts(v: Seq<String>) -> Seq<Seq<char>> {
    v.map_values(|s: String| s@)
}

/// A path as the guard compares it: forward slashes turned into
/// backslashes, trailing backslashes dropped, then lowercased.
pub open spec fn normalized(p: Seq<char>) -> Seq<char> {
    lowercase(trim_end_char(replace_char(p, '/', seq!['\\']), '\\'))
}

/// `path` is `base` itself or lies below it, compared in normalized form.
pub open spec fn same_or_child(path: Seq<char>, base: Seq<char>) -> bool {
    normalized(path) == normalized(base) || is_prefix(normalized(base).push('\\'), normalized(path))
}

/// The index of the first directory in `dirs` that is `path` or contains it.
pub open spec fn first_containing(dirs: Seq<Seq<char>>, path: Seq<char>) -> Option<int>
    decreases dirs.len(),
{
    if dirs.len() == 0 {
        None
    } else if same_or_child(path, dirs[0]) {
        Some(0)
    } else {
        match first_containing(dirs.drop_first(), path) {
            Some(i) => Some(i + 1),
            None => None,
        }
    }
}

/// The path's extension, when its lowercase form is a protected extension.
pub open spec fn protected_extension_of(exts: Seq<Seq<char>>, path: Seq<char>) -> Option<
    Seq<char>,
> {
    match path_extension(path) {
        Some(e) => if exts.contains(lowercase(e)) {
            Some(e)
        } else {
            None
        },
        None => None,
    }
}

/// The verdict on `path` as (is safe, risk, reason, layer), from the
/// protected directories, protected extensions, private directories and
/// known clean-up directories, checked in that order; a path in a known
/// clean-up directory passes the first layer.
pub open spec fn path_verdict(
    protected: Seq<Seq<char>>,
    exts: Seq<Seq<char>>,
    privacy: Seq<Seq<char>>,
    cleanup: Seq<Seq<char>>,
    path: Seq<char>,
) -> (bool, RiskLevel, Seq<char>, ProtectionLevel) {
    let level1 = if first_containing(cleanup, path) is Some {
        None
    } else {
        first_containing(protected, path)
    };
    match level1 {
        Some(i) => (
            false,
            RiskLevel::Critical,
            "一级防护：系统核心目录白名单 - "@ + debug_quoted(protected[i]),
            ProtectionLevel::Level1DirectoryWhitelist,
        ),
        None => match protected_extension_of(exts, path) {
            Some(e) => (
                false,
                RiskLevel::High,
                "二级防护：系统文件类型白名单 - ."@ + e,
                ProtectionLevel::Level2ExtensionWhitelist,
            ),
            None => match first_containing(privacy, path) {
                Some(j) => (
                    false,
                    RiskLevel::Medium,
                    "隐私保护：用户隐私目录 - "@ + debug_quoted(privacy[j]),
                    ProtectionLevel::PrivacyProtection,
                ),
                None => (true, RiskLevel::Safe, Seq::empty(), ProtectionLevel::NoProtection),
            },
        },
    }
}

/// The view of a verdict.
pub open spec fn result_view(r: PathSafetyResult) -> (bool, RiskLevel, Seq<char>, ProtectionLevel) {
    (r.is_safe, r.risk_level, r.reason@, r.protection_level)
}

/// Whether a risk level asks for the user's confirmation.
pub open spec fn needs_confirmation(risk: RiskLevel, beginner: bool) -> bool {
    match risk {
        RiskLevel::Safe => false,
        RiskLevel::Low => beginner,
        _ => true,
    }
}

/// Whether a risk level is hidden from beginners.
pub open spec fn hidden_for_beginner(risk: RiskLevel) -> bool {
    risk == RiskLevel::High || risk == RiskLevel::Critical
}

/// The verdict on a signature check: Microsoft-signed files are critical,
/// other trusted signed files high risk, an unverifiable signature low risk.
pub open spec fn signature_verdict(check: Result<SignatureInfo, crate::error::AppError>) -> (
    bool,
    RiskLevel,
    Seq<char>,
    ProtectionLevel,
) {
    match check {
        Ok(info) => if info.is_microsoft {
            (
                false,
                RiskLevel::Critical,
                "三级防护：微软数字签名文件 - "@ + info.signer_name@,
                ProtectionLevel::Level3SignatureVerification,
            )
        } else if info.is_signed && info.is_trusted {
            (
                false,
                RiskLevel::High,
                "可信签名文件 - "@ + info.signer_name@,
                ProtectionLevel::Level3SignatureVerification,
            )
        } else {
            (true, RiskLevel::Safe, Seq::empty(), ProtectionLevel::NoProtection)
        },
        Err(_) => (true, RiskLevel::Low, "无法验证签名"@, ProtectionLevel::NoProtection),
    }
}

/// The protected system directories.
pub open spec fn default_protected_dirs() -> Seq<Seq<char>> {
    seq![
        "C:\\Windows"@,
        "C:\\Windows\\System32"@,
        "C:\\Windows\\SysWOW64"@,
        "C:\\Program Files"@,
        "C:\\Program Files (x86)"@,
        "C:\\ProgramData"@,
        "C:\\Boot"@,
        "C:\\Recovery"@,
        "C:\\System Volume Information"@,
        "C:\\$Recycle.Bin"@,
    ]
}

/// The protected file extensions.
pub open spec fn default_protected_extensions() -> Seq<Seq<char>> {
    seq![
        "dll"@, "sys"@, "exe"@, "ocx"@, "drv"@, "inf"@, "cat"@, "msi"@, "mui"@, "efi"@,
        "iso"@, "vhd"@, "vhdx"@,
    ]
}

/// The user's private directories below the profile directory.
pub open spec fn default_privacy_dirs(user_profile: Seq<char>) -> Seq<Seq<char>> {
    seq![
        user_profile + "\\Documents"@,
        user_profile + "\\Pictures"@,
        user_profile + "\\Videos"@,
        user_profile + "\\Music"@,
        user_profile + "\\Desktop"@,
        user_profile + "\\Downloads"@,
        user_profile + "\\OneDrive"@,
    ]
}

/// The directories known to be safe to clean.
pub open spec fn default_safe_cleanup_dirs() -> Seq<Seq<char>> {
    seq![
        "C:\\Windows\\Temp"@,
        "C:\\Windows\\Prefetch"@,
        "C:\\Windows\\SoftwareDistribution\\Download"@,
        "C:\\$Recycle.Bin"@,
    ]
}

/// Builds a list of strings from literals.
fn strings_of(items: &[&str]) -> (r: Vec<String>)
    ensures
        r@.len() == items@.len(),
        forall|k: int| 0 <= k < items@.len() ==> (#[trigger] r@[k])@ == items@[k]@,
{
    let mut r: Vec<String> = Vec::new();
    let mut i: usize = 0;
    while i < items.len()
        invariant
            i <= items@.len(),
            r@.len() == i,
            forall|k: int| 0 <= k < i ==> (#[trigger] r@[k])@ == items@[k]@,
        decreases items@.len() - i,
    {
        r.push(items[i].to_owned());
        i = i + 1;
    }
    r
}

/// Whether `needle` is one of `list`.
fn list_contains(list: &Vec<String>, needle: &str) -> (r: bool)
    ensures
        r == texts(list@).contains(needle@),
{
    let mut i: usize = 0;
    while i < list.len()
        invariant
            i <= list@.len(),
            forall|k: int| 0 <= k < i ==> list@[k]@ != needle@,
        decreases list@.len() - i,
    {
        if str_eq(list[i].as_str(), needle) {
            assert(texts(list@)[i as int] == needle@);
            return true;
        }
        i = i + 1;
    }
    assert forall|x: Seq<char>| texts(list@).contains(x) implies x != needle@ by {
        let k = choose|k: int| 0 <= k < texts(list@).len() && texts(list@)[k] == x;
        assert(list@[k]@ == x);
    }
    false
}

impl SafetyGuard {
    /// The texts of the protected directories.
    pub closed spec fn protected_dirs_view(&self) -> Seq<Seq<char>> {
        texts(self.protected_dirs@)
    }

    /// The texts of the protected extensions.
    pub closed spec fn protected_extensions_view(&self) -> Seq<Seq<char>> {
        texts(self.protected_extensions@)
    }

    /// The texts of the private directories.
    pub closed spec fn privacy_dirs_view(&self) -> Seq<Seq<char>> {
        texts(self.privacy_dirs@)
    }

    /// The texts of the known clean-up directories.
    pub closed spec fn safe_cleanup_dirs_view(&self) -> Seq<Seq<char>> {
        texts(self.safe_cleanup_dirs@)
    }

    /// The verdict the guard gives `path`.
    pub open spec fn verdict(&self, path: Seq<char>) -> (bool, RiskLevel, Seq<char>, ProtectionLevel) {
        path_verdict(
            self.protected_dirs_view(),
            self.protected_extensions_view(),
            self.privacy_dirs_view(),
            self.safe_cleanup_dirs_view(),
            path,
        )
    }

    /// The guard for the user whose profile directory is `user_profile`.
    pub fn new(user_profile: &str) -> (r: Self)
        ensures
            r.protected_dirs_view() == default_protected_dirs(),
            r.protected_extensions_view() == default_protected_extensions(),
            r.privacy_dirs_view() == default_privacy_dirs(user_profile@),
            r.safe_cleanup_dirs_view() == default_safe_cleanup_dirs(),
    {
        let protected = [
            "C:\\Windows",
            "C:\\Windows\\System32",
            "C:\\Windows\\SysWOW64",
            "C:\\Program Files",
            "C:\\Program Files (x86)",
            "C:\\ProgramData",
            "C:\\Boot",
            "C:\\Recovery",
            "C:\\System Volume Information",
            "C:\\$Recycle.Bin",
        ];
        let exts = [
            "dll", "sys", "exe", "ocx", "drv", "inf", "cat", "msi", "mui", "efi", "iso", "vhd",
            "vhdx",
        ];
        let cleanup = [
            "C:\\Windows\\Temp",
            "C:\\Windows\\Prefetch",
            "C:\\Windows\\SoftwareDistribution\\Download",
            "C:\\$Recycle.Bin",
        ];
        let privacy = vec![
            concat(user_profile, "\\Documents"),
            concat(user_profile, "\\Pictures"),
            concat(user_profile, "\\Videos"),
            concat(user_profile, "\\Music"),
            concat(user_profile, "\\Desktop"),
            concat(user_profile, "\\Downloads"),
            concat(user_profile, "\\OneDrive"),
        ];
        let r = SafetyGuard {
            protected_dirs: strings_of(&protected),
            protected_extensions: strings_of(&exts),
            privacy_dirs: privacy,
            safe_cleanup_dirs: strings_of(&cleanup),
            signature_verifier: SignatureVerifier::new(),
        };
        assert(r.protected_dirs_view() =~= default_protected_dirs());
        assert(r.protected_extensions_view() =~= default_protected_extensions());
        assert(r.privacy_dirs_view() =~= default_privacy_dirs(user_profile@));
        assert(r.safe_cleanup_dirs_view() =~= default_safe_cleanup_dirs());
        r
    }

    /// The normalized form of a path: slashes turned into backslashes,
    /// trailing backslashes dropped, lowercased.
    pub fn normalize_path(path: &str) -> (r: String)
        ensures
            r@ == normalized(path@),
    {
        let replaced = replace_char_exec(path, '/', "\\");
        proof {
            reveal_strlit("\\");
            assert("\\"@ == seq!['\\']);
        }
        let rv = chars_of(replaced.as_str());
        let trimmed = trim_end_char_exec(rv.as_slice(), '\\');
        let t = string_of(trimmed.as_slice());
        to_lowercase(t.as_str())
    }

    /// Whether `path` is `base` or lies below it, compared in normalized form.
    pub fn path_is_same_or_child(path: &str, base: &str) -> (r: bool)
        ensures
            r == same_or_child(path@, base@),
    {
        let p = Self::normalize_path(path);
        let b = Self::normalize_path(base);
        let pv = chars_of(p.as_str());
        let mut bv = chars_of(b.as_str());
        if chars_eq(pv.as_slice(), bv.as_slice()) {
            return true;
        }
        bv.push('\\');
        chars_starts_with(pv.as_slice(), bv.as_slice())
    }

    /// The index of the first directory of `dirs` that is `path` or contains it.
    fn first_containing_dir(dirs: &Vec<String>, path: &str) -> (r: Option<usize>)
        ensures
            match r {
                Some(k) => first_containing(texts(dirs@), path@) == Some(k as int) && k < dirs@.len(),
                None => first_containing(texts(dirs@), path@) is None,
            },
    {
        let mut i: usize = 0;
        assert(texts(dirs@).skip(0) == texts(dirs@));
        while i < dirs.len()
            invariant
                i <= dirs@.len(),
                first_containing(texts(dirs@), path@) == (match first_containing(
                    texts(dirs@).skip(i as int),
                    path@,
                ) {
                    Some(k) => Some(k + i),
                    None => None,
                }),
            decreases dirs@.len() - i,
        {
            assert(texts(dirs@).skip(i as int)[0] == dirs@[i as int]@);
            if Self::path_is_same_or_child(path, dirs[i].as_str()) {
                return Some(i);
            }
            assert(texts(dirs@).skip(i as int).drop_first() == texts(dirs@).skip(i + 1));
            i = i + 1;
        }
        None
    }

    /// The guard's verdict on a path: inside a protected system directory
    /// (unless inside a known clean-up directory) it is critical, with a
    /// protected extension it is high risk, inside a private directory it is
    /// medium risk, and otherwise it is safe.
    pub fn check_path_safety(&self, file_path: &str) -> (r: PathSafetyResult)
        ensures
            result_view(r) == self.verdict(file_path@),
    {
        let known = Self::first_containing_dir(&self.safe_cleanup_dirs, file_path);
        if known.is_none() {
            if let Some(i) = Self::first_containing_dir(&self.protected_dirs, file_path) {
                let q = debug_quote(self.protected_dirs[i].as_str());
                assert(self.protected_dirs_view()[i as int] == self.protected_dirs@[i as int]@);
                let r = PathSafetyResult {
                    is_safe: false,
                    risk_level: RiskLevel::Critical,
                    reason: concat("一级防护：系统核心目录白名单 - ", q.as_str()),
                    protection_level: ProtectionLevel::Level1DirectoryWhitelist,
                };
                return r;
            }
        }
        if let Some(ext) = extension_of(file_path) {
            let lower = to_lowercase(ext.as_str());
            if list_contains(&self.protected_extensions, lower.as_str()) {
                return PathSafetyResult {
                    is_safe: false,
                    risk_level: RiskLevel::High,
                    reason: concat("二级防护：系统文件类型白名单 - .", ext.as_str()),
                    protection_level: ProtectionLevel::Level2ExtensionWhitelist,
                };
            }
        }
        if let Some(j) = Self::first_containing_dir(&self.privacy_dirs, file_path) {
            let q = debug_quote(self.privacy_dirs[j].as_str());
            assert(self.privacy_dirs_view()[j as int] == self.privacy_dirs@[j as int]@);
            return PathSafetyResult {
                is_safe: false,
                risk_level: RiskLevel::Medium,
                reason: concat("隐私保护：用户隐私目录 - ", q.as_str()),
                protection_level: ProtectionLevel::PrivacyProtection,
            };
        }
        PathSafetyResult {
            is_safe: true,
            risk_level: RiskLevel::Safe,
            reason: String::new(),
            protection_level: ProtectionLevel::NoProtection,
        }
    }

    /// The verdict on a file from the outcome of its signature check
    /// (`SignatureVerifier::verify_signature`).
    pub fn check_signature_safety(&self, check: Result<SignatureInfo, crate::error::AppError>) -> (r:
        PathSafetyResult)
        ensures
            result_view(r) == signature_verdict(check),
    {
        match check {
            Ok(info) => {
                if info.is_microsoft {
                    PathSafetyResult {
                        is_safe: false,
                        risk_level: RiskLevel::Critical,
                        reason: concat("三级防护：微软数字签名文件 - ", info.signer_name.as_str()),
                        protection_level: ProtectionLevel::Level3SignatureVerification,
                    }
                } else if info.is_signed && info.is_trusted {
                    PathSafetyResult {
                        is_safe: false,
                        risk_level: RiskLevel::High,
                        reason: concat("可信签名文件 - ", info.signer_name.as_str()),
                        protection_level: ProtectionLevel::Level3SignatureVerification,
                    }
                } else {
                    PathSafetyResult {
                        is_safe: true,
                        risk_level: RiskLevel::Safe,
                        reason: String::new(),
                        protection_level: ProtectionLevel::NoProtection,
                    }
                }
            },
            Err(_) => PathSafetyResult {
                is_safe: true,
                risk_level: RiskLevel::Low,
                reason: crate::text::owned("无法验证签名"),
                protection_level: ProtectionLevel::NoProtection,
            },
        }
    }

    /// The files whose path the guard judges safe, in the order given.
    pub fn filter_safe_files(&self, files: &[FileMetadata]) -> (r: Vec<FileMetadata>)
        ensures
            r@ == files@.filter(|f: FileMetadata| self.verdict(f.path@).0),
    {
        let mut r: Vec<FileMetadata> = Vec::new();
        let mut i: usize = 0;
        while i < files.len()
            invariant
                i <= files@.len(),
                r@ == files@.take(i as int).filter(|f: FileMetadata| self.verdict(f.path@).0),
            decreases files@.len() - i,
        {
            reveal_with_fuel(Seq::<_>::filter, 1);
            let v = self.check_path_safety(files[i].path.as_str());
            if v.is_safe {
                r.push(files[i].clone());
            }
            assert(files@.take(i + 1).drop_last() =~= files@.take(i as int));
            i = i + 1;
        }
        assert(files@.take(files@.len() as int) =~= files@);
        r
    }

    /// Whether acting on something of this risk asks the user first: never
    /// for safe items, for low-risk items only in beginner mode, always
    /// otherwise.
    pub fn requires_confirmation(&self, risk_level: &RiskLevel, is_beginner_mode: bool) -> (r: bool)
        ensures
            r == needs_confirmation(*risk_level, is_beginner_mode),
    {
        match risk_level {
            RiskLevel::Safe => false,
            RiskLevel::Low => is_beginner_mode,
            RiskLevel::Medium => true,
            RiskLevel::High => true,
            RiskLevel::Critical => true,
        }
    }

    /// Whether items of this risk are hidden in beginner mode: high and
    /// critical ones.
    pub fn is_hidden_for_beginner(&self, risk_level: &RiskLevel) -> (r: bool)
        ensures
            r == hidden_for_beginner(*risk_level),
    {
        match risk_level {
            RiskLevel::High => true,
            RiskLevel::Critical => true,
            _ => false,
        }
    }

    /// The user's private directories.
    pub fn get_privacy_dirs(&self) -> (r: &[String])
        ensures
            texts(r@) == self.privacy_dirs_view(),
    {
        self.privacy_dirs.as_slice()
    }

    /// The protected system directories.
    pub fn get_protected_dirs(&self) -> (r: &[String])
        ensures
            texts(r@) == self.protected_dirs_view(),
    {
        self.protected_dirs.as_slice()
    }

    /// The protected file extensions.
    pub fn get_protected_extensions(&self) -> (r: &[String])
        ensures
            texts(r@) == self.protected_extensions_view(),
    {
        self.protected_extensions.as_slice()
    }
}

/// A verdict passes a path exactly when it sees no risk, and then no layer
/// of protection stopped it.
pub proof fn lemma_verdict_safe_iff_no_risk(
    protected: Seq<Seq<char>>,
    exts: Seq<Seq<char>>,
    privacy: Seq<Seq<char>>,
    cleanup: Seq<Seq<char>>,
    path: Seq<char>,
)
    ensures
        path_verdict(protected, exts, privacy, cleanup, path).0 <==> path_verdict(
            protected,
            exts,
            privacy,
            cleanup,
            path,
        ).1 == RiskLevel::Safe,
        path_verdict(protected, exts, privacy, cleanup, path).0 <==> path_verdict(
            protected,
            exts,
            privacy,
            cleanup,
            path,
        ).3 == ProtectionLevel::NoProtection,
{
}

/// A path inside a protected system directory, and in no known clean-up
/// directory, is never passed, and is judged critical.
pub proof fn lemma_protected_dir_blocked(
    protected: Seq<Seq<char>>,
    exts: Seq<Seq<char>>,
    privacy: Seq<Seq<char>>,
    cleanup: Seq<Seq<char>>,
    path: Seq<char>,
)
    requires
        first_containing(protected, path) is Some,
        first_containing(cleanup, path) is None,
    ensures
        !path_verdict(protected, exts, privacy, cleanup, path).0,
        path_verdict(protected, exts, privacy, cleanup, path).1 == RiskLevel::Critical,
        path_verdict(protected, exts, privacy, cleanup, path).3
            == ProtectionLevel::Level1DirectoryWhitelist,
{
}

/// The file-type layer ignores case: a path that the system-directory layer
/// lets through and whose extension, in lowercase, is a protected one is
/// refused as a high risk at the second layer, its reason quoting the
/// extension as written.
pub proof fn lemma_protected_extension_any_case(
    protected: Seq<Seq<char>>,
    exts: Seq<Seq<char>>,
    privacy: Seq<Seq<char>>,
    cleanup: Seq<Seq<char>>,
    path: Seq<char>,
    e: Seq<char>,
)
    requires
        first_containing(cleanup, path) is Some || first_containing(protected, path) is None,
        path_extension(path) == Some(e),
        exts.contains(lowercase(e)),
    ensures
        path_verdict(protected, exts, privacy, cleanup, path) == (
            false,
            RiskLevel::High,
            "二级防护：系统文件类型白名单 - ."@ + e,
            ProtectionLevel::Level2ExtensionWhitelist,
        ),
{
}

/// Only the lowercase form of an extension matters: two paths that the
/// directory layers treat alike, whose extensions agree once lowercased,
/// get the same decision, risk and layer.
pub proof fn lemma_extension_case_irrelevant(
    protected: Seq<Seq<char>>,
    exts: Seq<Seq<char>>,
    privacy: Seq<Seq<char>>,
    cleanup: Seq<Seq<char>>,
    p: Seq<char>,
    q: Seq<char>,
    e: Seq<char>,
    f: Seq<char>,
)
    requires
        path_extension(p) == Some(e),
        path_extension(q) == Some(f),
        lowercase(e) == lowercase(f),
        first_containing(cleanup, p) == first_containing(cleanup, q),
        first_containing(protected, p) == first_containing(protected, q),
        first_containing(privacy, p) == first_containing(privacy, q),
    ensures
        path_verdict(protected, exts, privacy, cleanup, p).0 == path_verdict(
            protected,
            exts,
            privacy,
            cleanup,
            q,
        ).0,
        path_verdict(protected, exts, privacy, cleanup, p).1 == path_verdict(
            protected,
            exts,
            privacy,
            cleanup,
            q,
        ).1,
        path_verdict(protected, exts, privacy, cleanup, p).3 == path_verdict(
            protected,
            exts,
            privacy,
            cleanup,
            q,
        ).3,
{
}

/// The directory search finds the first directory of the list that is the
/// path or holds it, and finds none exactly when no directory of the list
/// does.
pub proof fn lemma_first_containing(dirs: Seq<Seq<char>>, path: Seq<char>)
    ensures
        match first_containing(dirs, path) {
            Some(i) => 0 <= i < dirs.len() && same_or_child(path, dirs[i]) && forall|j: int|
                0 <= j < i ==> !same_or_child(path, #[trigger] dirs[j]),
            None => forall|j: int| 0 <= j < dirs.len() ==> !same_or_child(path, #[trigger] dirs[j]),
        },
    decreases dirs.len(),
{
    if dirs.len() > 0 && !same_or_child(path, dirs[0]) {
        let rest = dirs.drop_first();
        lemma_first_containing(rest, path);
        assert forall|j: int| 1 <= j < dirs.len() implies dirs[j] == rest[j - 1] by {}
    }
}

/// A path that the first two layers let through but that lies in one of
/// the user's private folders is refused as a medium risk at the privacy
/// layer, its reason naming the first such folder.
pub proof fn lemma_private_path_refused(
    protected: Seq<Seq<char>>,
    exts: Seq<Seq<char>>,
    privacy: Seq<Seq<char>>,
    cleanup: Seq<Seq<char>>,
    path: Seq<char>,
    j: int,
)
    requires
        first_containing(cleanup, path) is Some || first_containing(protected, path) is None,
        forall|e: Seq<char>| path_extension(path) == Some(e) ==> !exts.contains(lowercase(e)),
        0 <= j < privacy.len(),
        same_or_child(path, privacy[j]),
    ensures
        ({
            let v = path_verdict(protected, exts, privacy, cleanup, path);
            exists|k: int|
                0 <= k <= j && same_or_child(path, privacy[k]) && v == (
                    false,
                    RiskLevel::Medium,
                    "隐私保护：用户隐私目录 - "@ + debug_quoted(#[trigger] privacy[k]),
                    ProtectionLevel::PrivacyProtection,
                )
        }),
{
    lemma_first_containing(privacy, path);
    let k = first_containing(privacy, path)->0;
    assert(0 <= k <= j && same_or_child(path, privacy[k]));
}

/// A path that no layer stops is passed as safe, with no reason given.
pub proof fn lemma_unprotected_path_passes(
    protected: Seq<Seq<char>>,
    exts: Seq<Seq<char>>,
    privacy: Seq<Seq<char>>,
    cleanup: Seq<Seq<char>>,
    path: Seq<char>,
)
    requires
        first_containing(cleanup, path) is Some || first_containing(protected, path) is None,
        forall|e: Seq<char>| path_extension(path) == Some(e) ==> !exts.contains(lowercase(e)),
        first_containing(privacy, path) is None,
    ensures
        path_verdict(protected, exts, privacy, cleanup, path) == (
            true,
            RiskLevel::Safe,
            Seq::<char>::empty(),
            ProtectionLevel::NoProtection,
        ),
{
}

/// Whatever is hidden from beginners always asks for confirmation, and
/// whatever asks an expert for confirmation asks a beginner too.
pub proof fn lemma_confirmation_order(risk: RiskLevel)
    ensures
        hidden_for_beginner(risk) ==> needs_confirmation(risk, false),
        needs_confirmation(risk, false) ==> needs_confirmation(risk, true),
        !needs_confirmation(RiskLevel::Safe, true),
{
}

} // verus!
