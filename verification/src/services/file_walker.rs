//! How the walker describes the files it meets: name, extension and the
//! category read off the path.
use std::fmt::Write;
use vstd::prelude::*;

use crate::models::scan::{FileMetadata, ScanCategory};
use crate::services::safety_guard::{extension_of, path_extension};
use crate::text::{
    chars_contains, chars_ends_with, chars_of, contains_seq, is_suffix, lowercase, owned,
    replace_char, replace_char_exec, str_eq, to_lowercase,
};

verus! {

/// What `Path::file_name` gives for a path (read as text): its last
/// component, if that is a name.
pub uninterp spec fn path_file_name(p: Seq<char>) -> Option<Seq<char>>;

/// Calls `std::path::Path::file_name` and reads it as text; the result is
/// named `path_file_name` of the argument.
#[verifier::external_body]
pub(crate) fn file_name_of(p: &str) -> (r: Option<String>)
    ensures
        match r {
            Some(n) => path_file_name(p@) == Some(n@),
            None => path_file_name(p@) is None,
        },
{
    std::path::Path::new(p).file_name().and_then(|n| n.to_str()).map(|n| n.to_string())
}

/// The text, in the chrono format `fmt`, of a time given as seconds since
/// 1970 (UTC); `None` when chrono has no such time or cannot write it in
/// that format.
pub uninterp spec fn utc_timestamp_text(secs: int, fmt: Seq<char>) -> Option<Seq<char>>;

/// Whether chrono has a time at these seconds since 1970 (UTC).
pub uninterp spec fn utc_in_range(secs: int) -> bool;

/// The format in which times are written and read: `"2024-05-01 10:00:00"`.
pub const TIME_FORMAT: &'static str = "%Y-%m-%d %H:%M:%S";

/// Calls `chrono::DateTime::from_timestamp(secs, 0)` and writes the time
/// with `format(fmt)`; the result is named `utc_timestamp_text` of the
/// seconds and the format.
#[verifier::external_body]
pub(crate) fn utc_text(secs: i64, fmt: &str) -> (r: Option<String>)
    ensures
        match r {
            Some(t) => utc_timestamp_text(secs as int, fmt@) == Some(t@),
            None => utc_timestamp_text(secs as int, fmt@) is None,
        },
{
    let dt = chrono::DateTime::from_timestamp(secs, 0)?;
    let mut text = String::new();
    write!(text, "{}", dt.format(fmt)).ok()?;
    Some(text)
}

/// Asks `chrono::DateTime::from_timestamp(secs, 0)` whether there is such a
/// time; the answer is named `utc_in_range` of the seconds.
#[verifier::external_body]
pub(crate) fn utc_time_exists(secs: i64) -> (r: bool)
    ensures
        r == utc_in_range(secs as int),
{
    chrono::DateTime::from_timestamp(secs, 0).is_some()
}

/// How many directories are read at once and how many files go out per batch.
#[derive(Debug, Clone, Copy)]
pub struct FileWalker {
    pub max_concurrent: usize,
    pub batch_size: usize,
}

/// The walker's settings: concurrency, batch size and the directories it
/// does not enter.
#[derive(Debug, Clone)]
pub struct WalkConfig {
    pub max_concurrent: usize,
    pub batch_size: usize,
    pub excluded_dirs: Vec<String>,
}

impl Default for WalkConfig {
    fn default() -> (r: Self)
        ensures
            r.max_concurrent == 64,
            r.batch_size == 100,
            r.excluded_dirs@.len() == 3,
            r.excluded_dirs@[0]@ == "C:\\Windows"@,
            r.excluded_dirs@[1]@ == "C:\\Program Files"@,
            r.excluded_dirs@[2]@ == "C:\\Program Files (x86)"@,
    {
        WalkConfig {
            max_concurrent: 64,
            batch_size: 100,
            excluded_dirs: vec![
                owned("C:\\Windows"),
                owned("C:\\Program Files"),
                owned("C:\\Program Files (x86)"),
            ],
        }
    }
}

/// The category an extension (already lowercased) stands for.
pub open spec fn extension_category(ext: Seq<char>) -> ScanCategory {
    if ext == "tmp"@ || ext == "temp"@ || ext == "bak"@ {
        ScanCategory::Temp
    } else if ext == "log"@ || ext == "old"@ {
        ScanCategory::Log
    } else if ext == "cache"@ || ext == "dat"@ {
        ScanCategory::Cache
    } else if ext == "exe"@ || ext == "msi"@ || ext == "dll"@ || ext == "sys"@ || ext == "com"@
        || ext == "scr"@ {
        ScanCategory::App
    } else if ext == "zip"@ || ext == "rar"@ || ext == "7z"@ || ext == "tar"@ || ext == "gz"@
        || ext == "bz2"@ || ext == "xz"@ {
        ScanCategory::Download
    } else if ext == "db"@ || ext == "sqlite"@ || ext == "json"@ || ext == "xml"@ || ext
        == "ini"@ || ext == "cfg"@ || ext == "conf"@ {
        ScanCategory::App
    } else {
        ScanCategory::Other
    }
}

/// The category of a file from its path (lowercased, with backslashes) and
/// its extension: recycle bin, browser caches, update and prefetch caches and
/// temporary directories are recognised by path; everything else by
/// extension.
pub open spec fn path_category(path: Seq<char>, ext: Seq<char>) -> ScanCategory {
    let t = lowercase(replace_char(path, '/', seq!['\\']));
    if contains_seq(t, "\\$recycle.bin\\"@) || is_suffix("\\$recycle.bin"@, t) {
        ScanCategory::Recycle
    } else if contains_seq(t, "\\inetcache\\"@) || contains_seq(t, "\\google\\chrome\\"@)
        || contains_seq(t, "\\microsoft\\edge\\"@) || contains_seq(t, "\\mozilla\\firefox\\"@) {
        ScanCategory::Browser
    } else if contains_seq(t, "\\softwaredistribution\\download\\"@) || contains_seq(
        t,
        "\\prefetch\\"@,
    ) {
        ScanCategory::Cache
    } else if contains_seq(t, "\\temp\\"@) || is_suffix("\\temp"@, t) {
        ScanCategory::Temp
    } else {
        extension_category(ext)
    }
}

/// Whether `ext` is one of the words in `words`.
fn is_one_of(ext: &str, words: &[&str]) -> (r: bool)
    ensures
        r == exists|k: int| 0 <= k < words@.len() && (#[trigger] words@[k])@ == ext@,
{
    let mut i: usize = 0;
    while i < words.len()
        invariant
            i <= words@.len(),
            forall|k: int| 0 <= k < i ==> (#[trigger] words@[k])@ != ext@,
        decreases words@.len() - i,
    {
        if str_eq(words[i], ext) {
            return true;
        }
        i = i + 1;
    }
    false
}

impl FileWalker {
    /// A walker reading `max_concurrent` directories at once and sending
    /// files in batches of `batch_size`.
    pub fn new(max_concurrent: usize, batch_size: usize) -> (r: Self)
        ensures
            r.max_concurrent == max_concurrent,
            r.batch_size == batch_size,
    {
        FileWalker { max_concurrent, batch_size }
    }

    /// The category of a file from its path and its lowercased extension.
    pub fn categorize_path(path: &str, ext: &str) -> (r: ScanCategory)
        ensures
            r == path_category(path@, ext@),
    {
        let replaced = replace_char_exec(path, '/', "\\");
        proof {
            reveal_strlit("\\");
            assert("\\"@ == seq!['\\']);
        }
        let lowered = to_lowercase(replaced.as_str());
        let t = chars_of(lowered.as_str());
        let ts = t.as_slice();
        if chars_contains(ts, chars_of("\\$recycle.bin\\").as_slice()) || chars_ends_with(
            ts,
            chars_of("\\$recycle.bin").as_slice(),
        ) {
            return ScanCategory::Recycle;
        }
        if chars_contains(ts, chars_of("\\inetcache\\").as_slice()) || chars_contains(
            ts,
            chars_of("\\google\\chrome\\").as_slice(),
        ) || chars_contains(ts, chars_of("\\microsoft\\edge\\").as_slice()) || chars_contains(
            ts,
            chars_of("\\mozilla\\firefox\\").as_slice(),
        ) {
            return ScanCategory::Browser;
        }
        if chars_contains(ts, chars_of("\\softwaredistribution\\download\\").as_slice())
            || chars_contains(ts, chars_of("\\prefetch\\").as_slice()) {
            return ScanCategory::Cache;
        }
        if chars_contains(ts, chars_of("\\temp\\").as_slice()) || chars_ends_with(
            ts,
            chars_of("\\temp").as_slice(),
        ) {
            return ScanCategory::Temp;
        }
        Self::extension_category_exec(ext)
    }

    /// The category an extension (already lowercased) stands for.
    fn extension_category_exec(ext: &str) -> (r: ScanCategory)
        ensures
            r == extension_category(ext@),
    {
        proof {
            reveal_strlit("tmp");
            reveal_strlit("temp");
            reveal_strlit("bak");
            reveal_strlit("log");
            reveal_strlit("old");
            reveal_strlit("cache");
            reveal_strlit("dat");
        }
        let temp = ["tmp", "temp", "bak"];
        let log = ["log", "old"];
        let cache = ["cache", "dat"];
        let app = ["exe", "msi", "dll", "sys", "com", "scr"];
        let archive = ["zip", "rar", "7z", "tar", "gz", "bz2", "xz"];
        let data = ["db", "sqlite", "json", "xml", "ini", "cfg", "conf"];
        if is_one_of(ext, &temp) {
            assert(temp@[0]@ == "tmp"@ && temp@[1]@ == "temp"@ && temp@[2]@ == "bak"@);
            return ScanCategory::Temp;
        }
        assert(temp@[0]@ == "tmp"@ && temp@[1]@ == "temp"@ && temp@[2]@ == "bak"@);
        if is_one_of(ext, &log) {
            assert(log@[0]@ == "log"@ && log@[1]@ == "old"@);
            return ScanCategory::Log;
        }
        assert(log@[0]@ == "log"@ && log@[1]@ == "old"@);
        if is_one_of(ext, &cache) {
            assert(cache@[0]@ == "cache"@ && cache@[1]@ == "dat"@);
            return ScanCategory::Cache;
        }
        assert(cache@[0]@ == "cache"@ && cache@[1]@ == "dat"@);
        assert(app@[0]@ == "exe"@ && app@[1]@ == "msi"@ && app@[2]@ == "dll"@ && app@[3]@
            == "sys"@ && app@[4]@ == "com"@ && app@[5]@ == "scr"@);
        if is_one_of(ext, &app) {
            return ScanCategory::App;
        }
        assert(archive@[0]@ == "zip"@ && archive@[1]@ == "rar"@ && archive@[2]@ == "7z"@
            && archive@[3]@ == "tar"@ && archive@[4]@ == "gz"@ && archive@[5]@ == "bz2"@
            && archive@[6]@ == "xz"@);
        if is_one_of(ext, &archive) {
            return ScanCategory::Download;
        }
        assert(data@[0]@ == "db"@ && data@[1]@ == "sqlite"@ && data@[2]@ == "json"@ && data@[3]@
            == "xml"@ && data@[4]@ == "ini"@ && data@[5]@ == "cfg"@ && data@[6]@ == "conf"@);
        if is_one_of(ext, &data) {
            return ScanCategory::App;
        }
        ScanCategory::Other
    }

    /// A file time as text: its seconds since 1970 (read as a signed
    /// number) formatted, or empty when the time is unknown or out of range.
    pub fn time_text(secs: Option<u64>) -> (r: String)
        ensures
            r@ == (match secs {
                Some(s) => match utc_timestamp_text((s as i64) as int, TIME_FORMAT@) {
                    Some(t) => t,
                    None => Seq::empty(),
                },
                None => Seq::empty(),
            }),
    {
        match secs {
            Some(s) => match utc_text(s as i64, TIME_FORMAT) {
                Some(t) => t,
                None => String::new(),
            },
            None => String::new(),
        }
    }

    /// Whether a directory is not entered: it lies under one of the
    /// excluded directories.
    pub fn is_excluded(dir: &str, excluded: &[String]) -> (r: bool)
        ensures
            r == exists|i: int|
                0 <= i < excluded@.len() && crate::plugins::common::path_starts_with(
                    dir@,
                    (#[trigger] excluded@[i])@,
                ),
    {
        let mut i: usize = 0;
        while i < excluded.len()
            invariant
                i <= excluded@.len(),
                forall|k: int|
                    0 <= k < i ==> !crate::plugins::common::path_starts_with(
                        dir@,
                        (#[trigger] excluded@[k])@,
                    ),
            decreases excluded@.len() - i,
        {
            if crate::plugins::common::starts_with_path(dir, excluded[i].as_str()) {
                return true;
            }
            i = i + 1;
        }
        false
    }

    /// Adds a file to the batch being filled; once the batch holds
    /// `batch_size` files it is handed back to be sent and a new one starts.
    pub fn push_to_batch(&self, batch: &mut Vec<FileMetadata>, file: FileMetadata) -> (r: Option<
        Vec<FileMetadata>,
    >)
        ensures
            old(batch)@.len() + 1 >= self.batch_size ==> (r matches Some(full) && full@ == old(
                batch,
            )@.push(file)) && final(batch)@.len() == 0,
            old(batch)@.len() + 1 < self.batch_size ==> r is None && final(batch)@ == old(
                batch,
            )@.push(file),
    {
        batch.push(file);
        if batch.len() >= self.batch_size {
            let mut full: Vec<FileMetadata> = Vec::new();
            std::mem::swap(&mut full, batch);
            Some(full)
        } else {
            None
        }
    }

    /// The description of a file the walker met: its name, its extension in
    /// lowercase, and the category from its path and extension; the
    /// timestamps are given already formatted.
    pub fn describe_file(
        path: &str,
        size: u64,
        is_directory: bool,
        modified_at: String,
        created_at: String,
    ) -> (r: FileMetadata)
        ensures
            r.path@ == path@,
            r.name@ == (match path_file_name(path@) {
                Some(n) => n,
                None => Seq::empty(),
            }),
            r.extension@ == lowercase(
                match path_extension(path@) {
                    Some(e) => e,
                    None => Seq::empty(),
                },
            ),
            r.category == path_category(path@, r.extension@),
            r.size == size,
            r.is_directory == is_directory,
            r.modified_at == modified_at,
            r.created_at == created_at,
            r.hash@.len() == 0,
    {
        let name = match file_name_of(path) {
            Some(n) => n,
            None => String::new(),
        };
        let ext_raw = match extension_of(path) {
            Some(e) => e,
            None => String::new(),
        };
        let extension = to_lowercase(ext_raw.as_str());
        let category = Self::categorize_path(path, extension.as_str());
        FileMetadata {
            path: owned(path),
            name,
            size,
            modified_at,
            created_at,
            is_directory,
            extension,
            category,
            hash: String::new(),
        }
    }
}

/// A path as the walker matches it: forward slashes made backslashes, then
/// lowercased.
pub open spec fn walker_text(path: Seq<char>) -> Seq<char> {
    lowercase(replace_char(path, '/', seq!['\\']))
}

/// Whether the walker's text of a path lies in a recycle bin.
pub open spec fn in_recycle_bin(t: Seq<char>) -> bool {
    contains_seq(t, "\\$recycle.bin\\"@) || is_suffix("\\$recycle.bin"@, t)
}

/// Whether the walker's text of a path lies in a browser's cache or profile.
pub open spec fn in_browser_data(t: Seq<char>) -> bool {
    ||| contains_seq(t, "\\inetcache\\"@)
    ||| contains_seq(t, "\\google\\chrome\\"@)
    ||| contains_seq(t, "\\microsoft\\edge\\"@)
    ||| contains_seq(t, "\\mozilla\\firefox\\"@)
}

/// Path markers, looked for in the walker's text of the path, win over the
/// extension: a file in a recycle bin is recycled content; a
/// file under any one of the browser directories, outside a recycle bin, is
/// browser data; a file under `\prefetch\` or under
/// `\softwaredistribution\download\`, outside both, is cache; a file under
/// a `\temp` directory, outside all of these, is temporary. In each of these
/// cases the extension plays no part; only a path with none of the markers
/// is categorized by its extension.
pub proof fn lemma_path_markers(path: Seq<char>, ext: Seq<char>, other_ext: Seq<char>)
    ensures
        contains_seq(walker_text(path), "\\$recycle.bin\\"@) ==> path_category(path, ext)
            == ScanCategory::Recycle,
        is_suffix("\\$recycle.bin"@, walker_text(path)) ==> path_category(path, ext)
            == ScanCategory::Recycle,
        !in_recycle_bin(walker_text(path)) && contains_seq(walker_text(path), "\\inetcache\\"@)
            ==> path_category(path, ext) == ScanCategory::Browser,
        !in_recycle_bin(walker_text(path)) && contains_seq(
            walker_text(path),
            "\\google\\chrome\\"@,
        ) ==> path_category(path, ext) == ScanCategory::Browser,
        !in_recycle_bin(walker_text(path)) && contains_seq(
            walker_text(path),
            "\\microsoft\\edge\\"@,
        ) ==> path_category(path, ext) == ScanCategory::Browser,
        !in_recycle_bin(walker_text(path)) && contains_seq(
            walker_text(path),
            "\\mozilla\\firefox\\"@,
        ) ==> path_category(path, ext) == ScanCategory::Browser,
        !in_recycle_bin(walker_text(path)) && !in_browser_data(walker_text(path)) && contains_seq(
            walker_text(path),
            "\\prefetch\\"@,
        ) ==> path_category(path, ext) == ScanCategory::Cache,
        !in_recycle_bin(walker_text(path)) && !in_browser_data(walker_text(path)) && contains_seq(
            walker_text(path),
            "\\softwaredistribution\\download\\"@,
        ) ==> path_category(path, ext) == ScanCategory::Cache,
        !in_recycle_bin(walker_text(path)) && !in_browser_data(walker_text(path)) && !contains_seq(
            walker_text(path),
            "\\prefetch\\"@,
        ) && !contains_seq(walker_text(path), "\\softwaredistribution\\download\\"@)
            && contains_seq(walker_text(path), "\\temp\\"@) ==> path_category(path, ext)
            == ScanCategory::Temp,
        !in_recycle_bin(walker_text(path)) && !in_browser_data(walker_text(path)) && !contains_seq(
            walker_text(path),
            "\\prefetch\\"@,
        ) && !contains_seq(walker_text(path), "\\softwaredistribution\\download\\"@)
            && is_suffix("\\temp"@, walker_text(path)) ==> path_category(path, ext)
            == ScanCategory::Temp,
        (in_recycle_bin(walker_text(path)) || in_browser_data(walker_text(path)) || contains_seq(
            walker_text(path),
            "\\prefetch\\"@,
        ) || contains_seq(walker_text(path), "\\softwaredistribution\\download\\"@)
            || contains_seq(walker_text(path), "\\temp\\"@) || is_suffix(
            "\\temp"@,
            walker_text(path),
        )) ==> path_category(path, ext) == path_category(path, other_ext),
        !(in_recycle_bin(walker_text(path)) || in_browser_data(walker_text(path)) || contains_seq(
            walker_text(path),
            "\\prefetch\\"@,
        ) || contains_seq(walker_text(path), "\\softwaredistribution\\download\\"@)
            || contains_seq(walker_text(path), "\\temp\\"@) || is_suffix(
            "\\temp"@,
            walker_text(path),
        )) ==> path_category(path, ext) == extension_category(ext),
{
}

/// Each extension in the walker's table names its category: `tmp`, `temp`
/// and `bak` temporary files; `log` and `old` logs; `cache` and `dat` caches;
/// executables and libraries (`exe`, `msi`, `dll`, `sys`, `com`, `scr`)
/// applications; archives (`zip`, `rar`, `7z`, `tar`, `gz`, `bz2`, `xz`)
/// downloads; databases and settings (`db`, `sqlite`, `json`, `xml`, `ini`,
/// `cfg`, `conf`) application data.
pub proof fn lemma_extension_words()
    ensures
        extension_category("tmp"@) == ScanCategory::Temp,
        extension_category("temp"@) == ScanCategory::Temp,
        extension_category("bak"@) == ScanCategory::Temp,
        extension_category("log"@) == ScanCategory::Log,
        extension_category("old"@) == ScanCategory::Log,
        extension_category("cache"@) == ScanCategory::Cache,
        extension_category("dat"@) == ScanCategory::Cache,
        extension_category("exe"@) == ScanCategory::App,
        extension_category("msi"@) == ScanCategory::App,
        extension_category("dll"@) == ScanCategory::App,
        extension_category("sys"@) == ScanCategory::App,
        extension_category("com"@) == ScanCategory::App,
        extension_category("scr"@) == ScanCategory::App,
        extension_category("zip"@) == ScanCategory::Download,
        extension_category("rar"@) == ScanCategory::Download,
        extension_category("7z"@) == ScanCategory::Download,
        extension_category("tar"@) == ScanCategory::Download,
        extension_category("gz"@) == ScanCategory::Download,
        extension_category("bz2"@) == ScanCategory::Download,
        extension_category("xz"@) == ScanCategory::Download,
        extension_category("db"@) == ScanCategory::App,
        extension_category("sqlite"@) == ScanCategory::App,
        extension_category("json"@) == ScanCategory::App,
        extension_category("xml"@) == ScanCategory::App,
        extension_category("ini"@) == ScanCategory::App,
        extension_category("cfg"@) == ScanCategory::App,
        extension_category("conf"@) == ScanCategory::App,
{
    reveal_strlit("tmp");
    reveal_strlit("temp");
    reveal_strlit("bak");
    reveal_strlit("log");
    reveal_strlit("old");
    reveal_strlit("cache");
    reveal_strlit("dat");
    reveal_strlit("exe");
    reveal_strlit("msi");
    reveal_strlit("dll");
    reveal_strlit("sys");
    reveal_strlit("com");
    reveal_strlit("scr");
    reveal_strlit("zip");
    reveal_strlit("rar");
    reveal_strlit("7z");
    reveal_strlit("tar");
    reveal_strlit("gz");
    reveal_strlit("bz2");
    reveal_strlit("xz");
    reveal_strlit("db");
    reveal_strlit("sqlite");
    reveal_strlit("json");
    reveal_strlit("xml");
    reveal_strlit("ini");
    reveal_strlit("cfg");
    reveal_strlit("conf");
    assert("tmp"@ =~= seq!['t', 'm', 'p']);
    assert("temp"@ =~= seq!['t', 'e', 'm', 'p']);
    assert("bak"@ =~= seq!['b', 'a', 'k']);
    assert("log"@ =~= seq!['l', 'o', 'g']);
    assert("old"@ =~= seq!['o', 'l', 'd']);
    assert("cache"@ =~= seq!['c', 'a', 'c', 'h', 'e']);
    assert("dat"@ =~= seq!['d', 'a', 't']);
    assert("exe"@ =~= seq!['e', 'x', 'e']);
    assert("msi"@ =~= seq!['m', 's', 'i']);
    assert("dll"@ =~= seq!['d', 'l', 'l']);
    assert("sys"@ =~= seq!['s', 'y', 's']);
    assert("com"@ =~= seq!['c', 'o', 'm']);
    assert("scr"@ =~= seq!['s', 'c', 'r']);
    assert("zip"@ =~= seq!['z', 'i', 'p']);
    assert("rar"@ =~= seq!['r', 'a', 'r']);
    assert("7z"@ =~= seq!['7', 'z']);
    assert("tar"@ =~= seq!['t', 'a', 'r']);
    assert("gz"@ =~= seq!['g', 'z']);
    assert("bz2"@ =~= seq!['b', 'z', '2']);
    assert("xz"@ =~= seq!['x', 'z']);
    assert("db"@ =~= seq!['d', 'b']);
    assert("sqlite"@ =~= seq!['s', 'q', 'l', 'i', 't', 'e']);
    assert("json"@ =~= seq!['j', 's', 'o', 'n']);
    assert("xml"@ =~= seq!['x', 'm', 'l']);
    assert("ini"@ =~= seq!['i', 'n', 'i']);
    assert("cfg"@ =~= seq!['c', 'f', 'g']);
    assert("conf"@ =~= seq!['c', 'o', 'n', 'f']);
}

} // verus!
