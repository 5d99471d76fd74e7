//! Where chat and browser caches are looked for, which of them are
//! reported, and how an installed program's registry values become an entry.
use vstd::prelude::*;

use crate::text::{concat, concat3, decode_utf16, owned, utf16_text};

verus! {

/// Finds the caches of known chat programs and browsers.
#[derive(Debug, Clone, Copy)]
pub struct SoftwareDetector;

/// A cache folder of a known program.
#[derive(Debug)]
pub struct SoftwareCacheInfo {
    pub software_name: String,
    pub cache_path: String,
    pub category: String,
    pub description: String,
}

impl Clone for SoftwareCacheInfo {
    fn clone(&self) -> (r: Self)
        ensures
            r == *self,
    {
        SoftwareCacheInfo {
            software_name: self.software_name.clone(),
            cache_path: self.cache_path.clone(),
            category: self.category.clone(),
            description: self.description.clone(),
        }
    }
}

/// An installed program as the uninstall registry lists it.
#[derive(Debug)]
pub struct InstalledSoftware {
    pub name: String,
    pub install_path: String,
    pub estimated_size: u64,
    pub publisher: String,
    pub version: String,
}

impl Clone for InstalledSoftware {
    fn clone(&self) -> (r: Self)
        ensures
            r == *self,
    {
        InstalledSoftware {
            name: self.name.clone(),
            install_path: self.install_path.clone(),
            estimated_size: self.estimated_size,
            publisher: self.publisher.clone(),
            version: self.version.clone(),
        }
    }
}

/// A cache entry as plain values: program, folder, kind, description.
pub open spec fn cache_view(c: SoftwareCacheInfo) -> (Seq<char>, Seq<char>, Seq<char>, Seq<char>) {
    (c.software_name@, c.cache_path@, c.category@, c.description@)
}

/// The fixed cache folders looked for under a user's profile, in the order
/// they are reported: WeChat's two, QQ's two, WeCom's, Chrome's two and
/// Edge's.
pub open spec fn cache_candidates_spec(user_profile: Seq<char>) -> Seq<
    (Seq<char>, Seq<char>, Seq<char>, Seq<char>),
> {
    seq![
        ("微信"@, user_profile + "\\Documents\\WeChat Files"@, "社交软件"@, "微信聊天记录和缓存文件"@),
        ("微信"@, user_profile + "\\AppData\\Roaming\\Tencent\\WeChat"@, "社交软件"@, "微信应用数据"@),
        ("QQ"@, user_profile + "\\Documents\\Tencent Files"@, "社交软件"@, "QQ聊天记录和缓存文件"@),
        ("QQ"@, user_profile + "\\AppData\\Roaming\\Tencent\\QQ"@, "社交软件"@, "QQ应用数据"@),
        ("企业微信"@, user_profile + "\\Documents\\WXWork"@, "社交软件"@, "企业微信聊天记录和缓存"@),
        ("Chrome"@, user_profile + "\\AppData\\Local\\Google\\Chrome\\User Data\\Default\\Cache"@, "浏览器"@, "Chrome浏览器缓存"@),
        ("Chrome"@, user_profile + "\\AppData\\Local\\Google\\Chrome\\User Data\\Default\\Code Cache"@, "浏览器"@, "Chrome代码缓存"@),
        ("Edge"@, user_profile + "\\AppData\\Local\\Microsoft\\Edge\\User Data\\Default\\Cache"@, "浏览器"@, "Edge浏览器缓存"@),
    ]
}

/// The Firefox entry for a profile's cache folder.
pub open spec fn firefox_view(dir: Seq<char>) -> (Seq<char>, Seq<char>, Seq<char>, Seq<char>) {
    ("Firefox"@, dir, "浏览器"@, "Firefox浏览器缓存"@)
}

/// The candidates whose folder exists, in order.
pub open spec fn present_candidates(
    cands: Seq<(Seq<char>, Seq<char>, Seq<char>, Seq<char>)>,
    present: Seq<bool>,
) -> Seq<(Seq<char>, Seq<char>, Seq<char>, Seq<char>)>
    decreases cands.len(),
{
    if cands.len() == 0 {
        Seq::empty()
    } else {
        let rest = present_candidates(cands.drop_last(), present);
        let i = cands.len() - 1;
        if i < present.len() && present[i] {
            rest.push(cands.last())
        } else {
            rest
        }
    }
}

/// The presence flags of the `n` candidates from `a` on, out of the flags
/// of all of them (absent flags meaning no).
pub open spec fn segment_flags(p: Seq<bool>, a: int, n: nat) -> Seq<bool> {
    Seq::new(n, |k: int| a + k < p.len() && p[a + k])
}

/// The candidates `a` to `b` (exclusive) whose folder exists, judged by
/// their own flags out of the flags of all candidates.
pub open spec fn found_between(
    c: Seq<(Seq<char>, Seq<char>, Seq<char>, Seq<char>)>,
    p: Seq<bool>,
    a: int,
    b: int,
) -> Seq<(Seq<char>, Seq<char>, Seq<char>, Seq<char>)> {
    present_candidates(c.subrange(a, b), segment_flags(p, a, (b - a) as nat))
}

/// Which candidates are kept depends only on the flags of the candidates
/// there are.
proof fn lemma_present_same_flags(
    c: Seq<(Seq<char>, Seq<char>, Seq<char>, Seq<char>)>,
    p: Seq<bool>,
    q: Seq<bool>,
)
    requires
        forall|i: int| 0 <= i < c.len() ==> ((i < p.len() && p[i]) == (i < q.len() && q[i])),
    ensures
        present_candidates(c, p) == present_candidates(c, q),
    decreases c.len(),
{
    if c.len() > 0 {
        lemma_present_same_flags(c.drop_last(), p, q);
    }
}

/// Keeping the present candidates of a list is keeping those of a prefix,
/// then those of the rest with the rest's flags.
proof fn lemma_present_split(
    c: Seq<(Seq<char>, Seq<char>, Seq<char>, Seq<char>)>,
    p: Seq<bool>,
    n: int,
)
    requires
        0 <= n <= c.len(),
    ensures
        present_candidates(c, p) == present_candidates(c.take(n), p) + present_candidates(
            c.skip(n),
            segment_flags(p, n, (c.len() - n) as nat),
        ),
    decreases c.len(),
{
    if c.len() == n {
        assert(c.take(n) =~= c);
        assert(c.skip(n).len() == 0);
        assert(present_candidates(c.skip(n), segment_flags(p, n, 0)) =~= Seq::empty());
    } else {
        let d = c.drop_last();
        lemma_present_split(d, p, n);
        assert(d.take(n) =~= c.take(n));
        let s = c.skip(n);
        let f = segment_flags(p, n, (c.len() - n) as nat);
        let g = segment_flags(p, n, (d.len() - n) as nat);
        assert(s.drop_last() =~= d.skip(n));
        lemma_present_same_flags(d.skip(n), f, g);
        assert(s.last() == c.last());
    }
}

/// The found candidates of a range are those of its two halves, in order.
proof fn lemma_found_split(
    c: Seq<(Seq<char>, Seq<char>, Seq<char>, Seq<char>)>,
    p: Seq<bool>,
    a: int,
    m: int,
    b: int,
)
    requires
        0 <= a <= m <= b <= c.len(),
    ensures
        found_between(c, p, a, b) == found_between(c, p, a, m) + found_between(c, p, m, b),
{
    let s = c.subrange(a, b);
    let f = segment_flags(p, a, (b - a) as nat);
    lemma_present_split(s, f, m - a);
    assert(s.take(m - a) =~= c.subrange(a, m));
    lemma_present_same_flags(c.subrange(a, m), f, segment_flags(p, a, (m - a) as nat));
    assert(s.skip(m - a) =~= c.subrange(m, b));
    assert(segment_flags(f, m - a, (s.len() - (m - a)) as nat) =~= segment_flags(
        p,
        m,
        (b - m) as nat,
    ));
}

/// Every cache found is what the single detectors find, in their order:
/// WeChat's, QQ's, WeCom's, Chrome's, then Edge's folders, each detector
/// judging its own folders by their own presence flags (the Firefox
/// entries follow in both).
pub proof fn lemma_detect_all_in_detector_order(user_profile: Seq<char>, present: Seq<bool>)
    ensures
        ({
            let c = cache_candidates_spec(user_profile);
            present_candidates(c, present) == present_candidates(
                c.subrange(0, 2),
                segment_flags(present, 0, 2),
            ) + present_candidates(c.subrange(2, 4), segment_flags(present, 2, 2))
                + present_candidates(c.subrange(4, 5), segment_flags(present, 4, 1))
                + present_candidates(c.subrange(5, 7), segment_flags(present, 5, 2))
                + present_candidates(c.subrange(7, 8), segment_flags(present, 7, 1))
        }),
{
    let c = cache_candidates_spec(user_profile);
    assert(c.len() == 8);
    lemma_found_split(c, present, 0, 2, 8);
    lemma_found_split(c, present, 2, 4, 8);
    lemma_found_split(c, present, 4, 5, 8);
    lemma_found_split(c, present, 5, 7, 8);
    assert(c.subrange(0, 8) =~= c);
    lemma_present_same_flags(c, present, segment_flags(present, 0, 8));
}

/// The two registry keys under which installed programs are listed.
pub open spec fn uninstall_keys_spec() -> Seq<Seq<char>> {
    seq![
        "SOFTWARE\\Microsoft\\Windows\\CurrentVersion\\Uninstall"@,
        "SOFTWARE\\WOW6432Node\\Microsoft\\Windows\\CurrentVersion\\Uninstall"@,
    ]
}

/// The text of a string value read into UTF-16 units, `byte_len` bytes
/// long: one trailing NUL dropped.
pub open spec fn registry_text(buf: Seq<u16>, byte_len: nat) -> Seq<char> {
    let len = byte_len / 2;
    if len > 0 && buf[len - 1] == 0 {
        utf16_text(buf.take(len - 1))
    } else {
        utf16_text(buf.take(len as int))
    }
}

/// A cache entry.
fn cache_entry(name: &str, path: String, category: &str, description: &str) -> (r:
    SoftwareCacheInfo)
    ensures
        cache_view(r) == (name@, path@, category@, description@),
{
    SoftwareCacheInfo {
        software_name: owned(name),
        cache_path: path,
        category: owned(category),
        description: owned(description),
    }
}

impl SoftwareDetector {
    /// A detector.
    pub fn new() -> (r: Self) {
        SoftwareDetector
    }

    /// The fixed cache folders looked for under the user's profile, in the
    /// order they are reported.
    pub fn cache_candidates(&self, user_profile: &str) -> (r: Vec<SoftwareCacheInfo>)
        ensures
            r@.map_values(|c: SoftwareCacheInfo| cache_view(c)) == cache_candidates_spec(
                user_profile@,
            ),
    {
        let mut r: Vec<SoftwareCacheInfo> = Vec::new();
        r.push(cache_entry("微信", concat(user_profile, "\\Documents\\WeChat Files"), "社交软件", "微信聊天记录和缓存文件"));
        r.push(cache_entry("微信", concat(user_profile, "\\AppData\\Roaming\\Tencent\\WeChat"), "社交软件", "微信应用数据"));
        r.push(cache_entry("QQ", concat(user_profile, "\\Documents\\Tencent Files"), "社交软件", "QQ聊天记录和缓存文件"));
        r.push(cache_entry("QQ", concat(user_profile, "\\AppData\\Roaming\\Tencent\\QQ"), "社交软件", "QQ应用数据"));
        r.push(cache_entry("企业微信", concat(user_profile, "\\Documents\\WXWork"), "社交软件", "企业微信聊天记录和缓存"));
        r.push(cache_entry("Chrome", concat(user_profile, "\\AppData\\Local\\Google\\Chrome\\User Data\\Default\\Cache"), "浏览器", "Chrome浏览器缓存"));
        r.push(cache_entry("Chrome", concat(user_profile, "\\AppData\\Local\\Google\\Chrome\\User Data\\Default\\Code Cache"), "浏览器", "Chrome代码缓存"));
        r.push(cache_entry("Edge", concat(user_profile, "\\AppData\\Local\\Microsoft\\Edge\\User Data\\Default\\Cache"), "浏览器", "Edge浏览器缓存"));
        assert(r@.map_values(|c: SoftwareCacheInfo| cache_view(c)) =~= cache_candidates_spec(
            user_profile@,
        ));
        r
    }

    /// The fixed candidates `a` to `b` (exclusive), in order.
    fn candidates_between(&self, user_profile: &str, a: usize, b: usize) -> (r: Vec<
        SoftwareCacheInfo,
    >)
        requires
            a <= b <= 8,
        ensures
            r@.map_values(|c: SoftwareCacheInfo| cache_view(c)) == cache_candidates_spec(
                user_profile@,
            ).subrange(a as int, b as int),
    {
        let all = self.cache_candidates(user_profile);
        let ghost cv = all@.map_values(|c: SoftwareCacheInfo| cache_view(c));
        assert(cv.len() == 8);
        assert(all@.len() == cv.len());
        let mut r: Vec<SoftwareCacheInfo> = Vec::new();
        assert(cv.subrange(a as int, a as int) =~= Seq::empty());
        let mut i: usize = a;
        while i < b
            invariant
                a <= i <= b <= 8,
                all@.len() == 8,
                cv == all@.map_values(|c: SoftwareCacheInfo| cache_view(c)),
                cv == cache_candidates_spec(user_profile@),
                r@.map_values(|c: SoftwareCacheInfo| cache_view(c)) == cv.subrange(a as int, i as int),
            decreases b - i,
        {
            let ghost prev = r@.map_values(|c: SoftwareCacheInfo| cache_view(c));
            r.push(all[i].clone());
            assert(r@.map_values(|c: SoftwareCacheInfo| cache_view(c)) =~= prev.push(cv[i as int]));
            assert(cv.subrange(a as int, i + 1) =~= cv.subrange(a as int, i as int).push(cv[i as int]));
            i = i + 1;
        }
        r
    }

    /// The candidates whose folder exists (`present[i]` for candidate `i`,
    /// absent flags meaning no), in order.
    fn keep_present(cands: Vec<SoftwareCacheInfo>, present: &[bool]) -> (r: Vec<SoftwareCacheInfo>)
        ensures
            r@.map_values(|c: SoftwareCacheInfo| cache_view(c)) == present_candidates(
                cands@.map_values(|c: SoftwareCacheInfo| cache_view(c)),
                present@,
            ),
    {
        let ghost cv = cands@.map_values(|c: SoftwareCacheInfo| cache_view(c));
        let mut r: Vec<SoftwareCacheInfo> = Vec::new();
        let mut i: usize = 0;
        while i < cands.len()
            invariant
                i <= cands@.len(),
                cv == cands@.map_values(|c: SoftwareCacheInfo| cache_view(c)),
                r@.map_values(|c: SoftwareCacheInfo| cache_view(c)) == present_candidates(
                    cv.take(i as int),
                    present@,
                ),
            decreases cands@.len() - i,
        {
            let ghost prev = r@.map_values(|c: SoftwareCacheInfo| cache_view(c));
            proof {
                assert(cv.take(i + 1).drop_last() == cv.take(i as int));
                assert(cv.take(i + 1).last() == cache_view(cands@[i as int]));
            }
            if i < present.len() && present[i] {
                r.push(cands[i].clone());
                assert(r@.map_values(|c: SoftwareCacheInfo| cache_view(c)) =~= prev.push(
                    cache_view(cands@[i as int]),
                ));
            }
            i = i + 1;
        }
        assert(cv.take(cands@.len() as int) == cv);
        r
    }

    /// WeChat's cache folders that exist (`present` for its two folders).
    pub fn detect_wechat_paths(&self, user_profile: &str, present: &[bool]) -> (r: Vec<
        SoftwareCacheInfo,
    >)
        ensures
            r@.map_values(|c: SoftwareCacheInfo| cache_view(c)) == present_candidates(
                cache_candidates_spec(user_profile@).subrange(0, 2),
                present@,
            ),
    {
        Self::keep_present(self.candidates_between(user_profile, 0, 2), present)
    }

    /// QQ's cache folders that exist (`present` for its two folders).
    pub fn detect_qq_paths(&self, user_profile: &str, present: &[bool]) -> (r: Vec<SoftwareCacheInfo>)
        ensures
            r@.map_values(|c: SoftwareCacheInfo| cache_view(c)) == present_candidates(
                cache_candidates_spec(user_profile@).subrange(2, 4),
                present@,
            ),
    {
        Self::keep_present(self.candidates_between(user_profile, 2, 4), present)
    }

    /// WeCom's cache folder, when it exists (`present` for its folder).
    pub fn detect_wechat_work_paths(&self, user_profile: &str, present: &[bool]) -> (r: Vec<
        SoftwareCacheInfo,
    >)
        ensures
            r@.map_values(|c: SoftwareCacheInfo| cache_view(c)) == present_candidates(
                cache_candidates_spec(user_profile@).subrange(4, 5),
                present@,
            ),
    {
        Self::keep_present(self.candidates_between(user_profile, 4, 5), present)
    }

    /// Chrome's cache folders that exist (`present` for its two folders).
    pub fn detect_chrome_cache(&self, user_profile: &str, present: &[bool]) -> (r: Vec<
        SoftwareCacheInfo,
    >)
        ensures
            r@.map_values(|c: SoftwareCacheInfo| cache_view(c)) == present_candidates(
                cache_candidates_spec(user_profile@).subrange(5, 7),
                present@,
            ),
    {
        Self::keep_present(self.candidates_between(user_profile, 5, 7), present)
    }

    /// Edge's cache folder, when it exists (`present` for its folder).
    pub fn detect_edge_cache(&self, user_profile: &str, present: &[bool]) -> (r: Vec<
        SoftwareCacheInfo,
    >)
        ensures
            r@.map_values(|c: SoftwareCacheInfo| cache_view(c)) == present_candidates(
                cache_candidates_spec(user_profile@).subrange(7, 8),
                present@,
            ),
    {
        Self::keep_present(self.candidates_between(user_profile, 7, 8), present)
    }

    /// One Firefox entry per profile cache folder found, in order.
    pub fn detect_firefox_cache(&self, firefox_caches: &[String]) -> (r: Vec<SoftwareCacheInfo>)
        ensures
            r@.map_values(|c: SoftwareCacheInfo| cache_view(c)) == firefox_caches@.map_values(
                |d: String| firefox_view(d@),
            ),
    {
        let ghost fv = firefox_caches@.map_values(|d: String| firefox_view(d@));
        let mut r: Vec<SoftwareCacheInfo> = Vec::new();
        let mut k: usize = 0;
        while k < firefox_caches.len()
            invariant
                k <= firefox_caches@.len(),
                fv == firefox_caches@.map_values(|d: String| firefox_view(d@)),
                r@.map_values(|c: SoftwareCacheInfo| cache_view(c)) == fv.take(k as int),
            decreases firefox_caches@.len() - k,
        {
            let ghost prev = r@.map_values(|c: SoftwareCacheInfo| cache_view(c));
            let e = cache_entry("Firefox", firefox_caches[k].clone(), "浏览器", "Firefox浏览器缓存");
            assert(cache_view(e) == fv[k as int]);
            r.push(e);
            assert(r@.map_values(|c: SoftwareCacheInfo| cache_view(c)) =~= prev.push(cache_view(e)));
            assert(fv.take(k + 1) =~= fv.take(k as int).push(fv[k as int]));
            k = k + 1;
        }
        assert(fv.take(firefox_caches@.len() as int) == fv);
        r
    }

    /// The folder that holds the Firefox profiles.
    pub fn firefox_profiles_dir(&self, user_profile: &str) -> (r: String)
        ensures
            r@ == user_profile@ + "\\AppData\\Local\\Mozilla\\Firefox\\Profiles"@,
    {
        concat(user_profile, "\\AppData\\Local\\Mozilla\\Firefox\\Profiles")
    }

    /// Every cache found: the fixed candidates whose folder exists
    /// (`present[i]` for candidate `i`, absent flags meaning no), in order,
    /// then one Firefox entry per profile cache folder found, in order.
    pub fn detect_all(&self, user_profile: &str, present: &[bool], firefox_caches: &[String]) -> (r:
        Vec<SoftwareCacheInfo>)
        ensures
            r@.map_values(|c: SoftwareCacheInfo| cache_view(c)) == present_candidates(
                cache_candidates_spec(user_profile@),
                present@,
            ) + firefox_caches@.map_values(|d: String| firefox_view(d@)),
    {
        let cands = self.cache_candidates(user_profile);
        let ghost cv = cands@.map_values(|c: SoftwareCacheInfo| cache_view(c));
        let mut all: Vec<SoftwareCacheInfo> = Vec::new();
        let mut i: usize = 0;
        while i < cands.len()
            invariant
                i <= cands@.len(),
                cv == cands@.map_values(|c: SoftwareCacheInfo| cache_view(c)),
                all@.map_values(|c: SoftwareCacheInfo| cache_view(c)) == present_candidates(
                    cv.take(i as int),
                    present@,
                ),
            decreases cands@.len() - i,
        {
            let ghost prev = all@.map_values(|c: SoftwareCacheInfo| cache_view(c));
            proof {
                assert(cv.take(i + 1).drop_last() == cv.take(i as int));
                assert(cv.take(i + 1).last() == cache_view(cands@[i as int]));
            }
            if i < present.len() && present[i] {
                all.push(cands[i].clone());
                assert(all@.map_values(|c: SoftwareCacheInfo| cache_view(c)) =~= prev.push(
                    cache_view(cands@[i as int]),
                ));
            }
            i = i + 1;
        }
        assert(cv.take(cands@.len() as int) == cv);
        let ghost base = all@.map_values(|c: SoftwareCacheInfo| cache_view(c));
        let ghost fv = firefox_caches@.map_values(|d: String| firefox_view(d@));
        let mut k: usize = 0;
        while k < firefox_caches.len()
            invariant
                k <= firefox_caches@.len(),
                fv == firefox_caches@.map_values(|d: String| firefox_view(d@)),
                all@.map_values(|c: SoftwareCacheInfo| cache_view(c)) == base + fv.take(k as int),
            decreases firefox_caches@.len() - k,
        {
            let ghost prev = all@.map_values(|c: SoftwareCacheInfo| cache_view(c));
            let e = cache_entry("Firefox", firefox_caches[k].clone(), "浏览器", "Firefox浏览器缓存");
            assert(cache_view(e) == fv[k as int]);
            all.push(e);
            assert(all@.map_values(|c: SoftwareCacheInfo| cache_view(c)) =~= prev.push(
                cache_view(e),
            ));
            assert(fv.take(k + 1) =~= fv.take(k as int).push(fv[k as int]));
            k = k + 1;
        }
        assert(fv.take(firefox_caches@.len() as int) == fv);
        all
    }

    /// The registry keys under which installed programs are listed.
    pub fn uninstall_keys(&self) -> (r: Vec<&'static str>)
        ensures
            r@.map_values(|k: &str| k@) == uninstall_keys_spec(),
    {
        let r = vec![
            "SOFTWARE\\Microsoft\\Windows\\CurrentVersion\\Uninstall",
            "SOFTWARE\\WOW6432Node\\Microsoft\\Windows\\CurrentVersion\\Uninstall",
        ];
        assert(r@.map_values(|k: &str| k@) =~= uninstall_keys_spec());
        r
    }

    /// The registry path of a program's own key under an uninstall key.
    pub fn subkey_path(&self, key: &str, subkey: &str) -> (r: String)
        ensures
            r@ == key@ + "\\"@ + subkey@,
    {
        concat3(key, "\\", subkey)
    }

    /// The text of a string value: the `byte_len` bytes read, as UTF-16,
    /// without a trailing NUL.
    pub fn registry_string(&self, buf: &[u16], byte_len: u32) -> (r: String)
        requires
            byte_len / 2 <= buf@.len(),
        ensures
            r@ == registry_text(buf@, byte_len as nat),
    {
        let len = (byte_len / 2) as usize;
        let n = if len > 0 && buf[len - 1] == 0 {
            len - 1
        } else {
            len
        };
        let mut units: Vec<u16> = Vec::new();
        let mut i: usize = 0;
        while i < n
            invariant
                n <= buf@.len(),
                i <= n,
                units@ == buf@.take(i as int),
            decreases n - i,
        {
            units.push(buf[i]);
            i = i + 1;
            assert(units@ =~= buf@.take(i as int));
        }
        decode_utf16(units.as_slice())
    }

    /// The entry for an installed program: none without a display name;
    /// missing values empty, the size (given in KiB) in bytes.
    pub fn installed_entry(
        &self,
        display_name: Option<String>,
        install_location: Option<String>,
        estimated_size_kb: Option<u32>,
        publisher: Option<String>,
        version: Option<String>,
    ) -> (r: Option<InstalledSoftware>)
        ensures
            display_name is None <==> r is None,
            r matches Some(s) ==> {
                &&& display_name == Some(s.name)
                &&& s.install_path@ == (match install_location {
                    Some(l) => l@,
                    None => Seq::<char>::empty(),
                })
                &&& s.estimated_size == (match estimated_size_kb {
                    Some(k) => k as nat,
                    None => 0nat,
                }) * 1024
                &&& s.publisher@ == (match publisher {
                    Some(p) => p@,
                    None => Seq::<char>::empty(),
                })
                &&& s.version@ == (match version {
                    Some(v) => v@,
                    None => Seq::<char>::empty(),
                })
            },
    {
        match display_name {
            None => None,
            Some(name) => {
                let kb: u64 = match estimated_size_kb {
                    Some(k) => k as u64,
                    None => 0,
                };
                Some(
                    InstalledSoftware {
                        name,
                        install_path: match install_location {
                            Some(l) => l,
                            None => String::new(),
                        },
                        estimated_size: kb * 1024,
                        publisher: match publisher {
                            Some(p) => p,
                            None => String::new(),
                        },
                        version: match version {
                            Some(v) => v,
                            None => String::new(),
                        },
                    },
                )
            },
        }
    }
}

} // verus!
