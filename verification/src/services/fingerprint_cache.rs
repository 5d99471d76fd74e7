//! File fingerprints: the two digests of a file's bytes in hex, when a
//! stored fingerprint is still good, and which files share a digest.
use vstd::prelude::*;

use crate::text::{owned, push_char, str_eq};

verus! {

/// What is known of a file's content at a size and modification time.
#[derive(Debug)]
pub struct FileFingerprint {
    pub file_path: String,
    pub md5_hash: String,
    pub xxhash: String,
    pub file_size: u64,
    pub modified_at: String,
    pub computed_at: String,
}

impl Clone for FileFingerprint {
    fn clone(&self) -> (r: Self)
        ensures
            r == *self,
    {
        FileFingerprint {
            file_path: self.file_path.clone(),
            md5_hash: self.md5_hash.clone(),
            xxhash: self.xxhash.clone(),
            file_size: self.file_size,
            modified_at: self.modified_at.clone(),
            computed_at: self.computed_at.clone(),
        }
    }
}

/// The MD5 digest of the bytes (16 bytes).
pub uninterp spec fn md5_digest(data: Seq<u8>) -> Seq<u8>;

/// The XXH3 64-bit hash of the bytes.
pub uninterp spec fn xxh3_hash(data: Seq<u8>) -> u64;

/// Computes `<md5::Md5 as md5::Digest>::digest`; the result is named
/// `md5_digest` of the bytes and, being MD5, has 16 bytes.
#[verifier::external_body]
fn md5_bytes(data: &[u8]) -> (r: Vec<u8>)
    ensures
        r@ == md5_digest(data@),
        r@.len() == 16,
{
    <md5::Md5 as md5::Digest>::digest(data).to_vec()
}

/// Computes `xxhash_rust::xxh3::xxh3_64`; the result is named `xxh3_hash`
/// of the bytes.
#[verifier::external_body]
fn xxh3_value(data: &[u8]) -> (r: u64)
    ensures
        r == xxh3_hash(data@),
{
    xxhash_rust::xxh3::xxh3_64(data)
}

/// The lowercase hex digit of a value below 16.
pub open spec fn hex_digit(v: nat) -> char {
    if v < 10 {
        (('0' as nat) + v) as char
    } else {
        (('a' as nat) + (v - 10)) as char
    }
}

/// Each byte as two lowercase hex digits, high half first.
pub open spec fn hex_of(b: Seq<u8>) -> Seq<char>
    decreases b.len(),
{
    if b.len() == 0 {
        Seq::empty()
    } else {
        hex_of(b.drop_last()) + seq![
            hex_digit(b.last() as nat / 16),
            hex_digit(b.last() as nat % 16),
        ]
    }
}

/// The last `n` hex digits of `v`, most significant first, zero-padded.
pub open spec fn hex_padded(v: nat, n: nat) -> Seq<char>
    decreases n,
{
    if n == 0 {
        Seq::empty()
    } else {
        hex_padded(v / 16, (n - 1) as nat).push(hex_digit(v % 16))
    }
}

/// The paths' digests as given, in order: the digest of each path.
pub open spec fn digests_of(entries: Seq<(String, String)>) -> Seq<Seq<char>> {
    entries.map_values(|e: (String, String)| e.1@)
}

/// The distinct digests, in order of first occurrence.
pub open spec fn distinct_digests(ds: Seq<Seq<char>>) -> Seq<Seq<char>>
    decreases ds.len(),
{
    if ds.len() == 0 {
        Seq::empty()
    } else if distinct_digests(ds.drop_last()).contains(ds.last()) {
        distinct_digests(ds.drop_last())
    } else {
        distinct_digests(ds.drop_last()).push(ds.last())
    }
}

/// The paths whose digest is `d`, in order.
pub open spec fn paths_with(entries: Seq<(String, String)>, d: Seq<char>) -> Seq<Seq<char>>
    decreases entries.len(),
{
    if entries.len() == 0 {
        Seq::empty()
    } else if entries.last().1@ == d {
        paths_with(entries.drop_last(), d).push(entries.last().0@)
    } else {
        paths_with(entries.drop_last(), d)
    }
}

/// Whether a group holds more than one path.
pub open spec fn shared() -> spec_fn(Seq<Seq<char>>) -> bool {
    |g: Seq<Seq<char>>| g.len() > 1
}

/// The groups of paths that share a digest, for each digest shared by
/// more than one path, digests in order of first occurrence.
pub open spec fn duplicate_groups(entries: Seq<(String, String)>) -> Seq<Seq<Seq<char>>> {
    distinct_digests(digests_of(entries)).map_values(|d: Seq<char>| paths_with(entries, d)).filter(
        shared(),
    )
}

/// The lowercase hex digit of a value below 16.
fn hex_char(v: u8) -> (c: char)
    requires
        v < 16,
    ensures
        c == hex_digit(v as nat),
{
    if v < 10 {
        ((48 + v) as char)
    } else {
        ((87 + v) as char)
    }
}

/// The bytes in lowercase hex, two digits each.
pub fn hex_string(b: &[u8]) -> (r: String)
    ensures
        r@ == hex_of(b@),
{
    let mut out = String::new();
    let mut i: usize = 0;
    while i < b.len()
        invariant
            i <= b@.len(),
            out@ == hex_of(b@.take(i as int)),
        decreases b@.len() - i,
    {
        assert(b@.take(i + 1).drop_last() == b@.take(i as int));
        push_char(&mut out, hex_char(b[i] / 16));
        push_char(&mut out, hex_char(b[i] % 16));
        i = i + 1;
    }
    assert(b@.take(b@.len() as int) == b@);
    out
}

/// A 64-bit value as 16 lowercase hex digits, zero-padded (`{:016x}`).
pub fn hex_u64(v: u64) -> (r: String)
    ensures
        r@ == hex_padded(v as nat, 16),
{
    let mut digits: Vec<char> = Vec::new();
    let mut x: u64 = v;
    let mut k: usize = 0;
    while k < 16
        invariant
            k <= 16,
            digits@.len() == k,
            hex_padded(v as nat, 16) == hex_padded(x as nat, (16 - k) as nat) + digits@.reverse(),
        decreases 16 - k,
    {
        let ghost prev = digits@;
        proof {
            assert(hex_padded(x as nat, (16 - k) as nat) == hex_padded(
                (x / 16) as nat,
                (16 - k - 1) as nat,
            ).push(hex_digit((x % 16) as nat)));
        }
        digits.push(hex_char((x % 16) as u8));
        proof {
            assert(digits@.reverse() =~= seq![hex_digit((x % 16) as nat)] + prev.reverse());
            assert(hex_padded((x / 16) as nat, (16 - k - 1) as nat).push(hex_digit((x % 16) as nat))
                + prev.reverse() =~= hex_padded((x / 16) as nat, (16 - k - 1) as nat)
                + digits@.reverse());
        }
        x = x / 16;
        k = k + 1;
    }
    let mut out = String::new();
    let mut j: usize = 16;
    while j > 0
        invariant
            j <= 16,
            digits@.len() == 16,
            out@ == digits@.subrange(j as int, 16).reverse(),
        decreases j,
    {
        j = j - 1;
        push_char(&mut out, digits[j]);
        assert(out@ =~= digits@.subrange(j as int, 16).reverse());
    }
    assert(hex_padded(x as nat, 0) =~= Seq::<char>::empty());
    assert(digits@.subrange(0, 16) == digits@);
    out
}

/// The MD5 digest of the bytes in lowercase hex.
pub fn compute_md5(data: &[u8]) -> (r: String)
    ensures
        r@ == hex_of(md5_digest(data@)),
{
    let d = md5_bytes(data);
    hex_string(d.as_slice())
}

/// The XXH3 hash of the bytes as 16 lowercase hex digits.
pub fn compute_xxhash(data: &[u8]) -> (r: String)
    ensures
        r@ == hex_padded(xxh3_hash(data@) as nat, 16),
{
    hex_u64(xxh3_value(data))
}

/// Whether a stored fingerprint still describes the file: same size and
/// same modification time.
pub fn still_valid(fp: &FileFingerprint, file_size: u64, modified_at: &str) -> (r: bool)
    ensures
        r == (fp.file_size == file_size && fp.modified_at@ == modified_at@),
{
    fp.file_size == file_size && str_eq(fp.modified_at.as_str(), modified_at)
}

/// The stored fingerprint to use instead of reading the file again: the one
/// stored, unchanged, when it was taken at this size and modification time;
/// none otherwise, and then the file is read and fingerprinted anew.
pub fn reuse_stored(stored: Option<FileFingerprint>, file_size: u64, modified_at: &str) -> (r:
    Option<FileFingerprint>)
    ensures
        match stored {
            Some(fp) => if fp.file_size == file_size && fp.modified_at@ == modified_at@ {
                r == Some(fp)
            } else {
                r is None
            },
            None => r is None,
        },
{
    match stored {
        Some(fp) => if still_valid(&fp, file_size, modified_at) {
            Some(fp)
        } else {
            None
        },
        None => None,
    }
}

/// The fingerprint of a file's bytes, computed at `now`.
pub fn fingerprint_of(file_path: &str, data: &[u8], file_size: u64, modified_at: &str, now: &str) -> (r:
    FileFingerprint)
    ensures
        r.file_path@ == file_path@,
        r.md5_hash@ == hex_of(md5_digest(data@)),
        r.xxhash@ == hex_padded(xxh3_hash(data@) as nat, 16),
        r.file_size == file_size,
        r.modified_at@ == modified_at@,
        r.computed_at@ == now@,
{
    FileFingerprint {
        file_path: owned(file_path),
        md5_hash: compute_md5(data),
        xxhash: compute_xxhash(data),
        file_size,
        modified_at: owned(modified_at),
        computed_at: owned(now),
    }
}

/// The paths whose digest is `d`, in order.
fn paths_with_digest(entries: &[(String, String)], d: &String) -> (r: Vec<String>)
    ensures
        r@.map_values(|p: String| p@) == paths_with(entries@, d@),
{
    let mut out: Vec<String> = Vec::new();
    let mut i: usize = 0;
    while i < entries.len()
        invariant
            i <= entries@.len(),
            out@.map_values(|p: String| p@) == paths_with(entries@.take(i as int), d@),
        decreases entries@.len() - i,
    {
        assert(entries@.take(i + 1).drop_last() == entries@.take(i as int));
        let ghost prev = out@.map_values(|p: String| p@);
        if str_eq(entries[i].1.as_str(), d.as_str()) {
            out.push(entries[i].0.clone());
            assert(out@.map_values(|p: String| p@) =~= prev.push(entries@[i as int].0@));
        }
        i = i + 1;
    }
    assert(entries@.take(entries@.len() as int) == entries@);
    out
}

/// The groups of paths (given with their digests) that share a digest,
/// for each digest more than one path has, digests in order of first
/// occurrence, paths in their order.
pub fn find_duplicates(entries: &[(String, String)]) -> (r: Vec<Vec<String>>)
    ensures
        r@.map_values(|g: Vec<String>| g@.map_values(|p: String| p@)) == duplicate_groups(entries@),
{
    let ghost ds = digests_of(entries@);
    let mut seen: Vec<String> = Vec::new();
    let mut i: usize = 0;
    while i < entries.len()
        invariant
            i <= entries@.len(),
            ds == digests_of(entries@),
            seen@.map_values(|d: String| d@) == distinct_digests(ds.take(i as int)),
        decreases entries@.len() - i,
    {
        let ghost prev = seen@.map_values(|d: String| d@);
        proof {
            assert(ds.take(i + 1).drop_last() == ds.take(i as int));
            assert(ds.take(i + 1).last() == entries@[i as int].1@);
        }
        let d = &entries[i].1;
        let mut found = false;
        let mut k: usize = 0;
        while k < seen.len()
            invariant
                k <= seen@.len(),
                prev == seen@.map_values(|d: String| d@),
                found == (exists|m: int| 0 <= m < k && prev[m] == d@),
            decreases seen@.len() - k,
        {
            assert(prev[k as int] == seen@[k as int]@);
            if str_eq(seen[k].as_str(), d.as_str()) {
                found = true;
            }
            k = k + 1;
        }
        proof {
            if found {
                let m = choose|m: int| 0 <= m < k && prev[m] == d@;
                assert(prev.contains(d@));
            } else {
                assert(!prev.contains(d@));
            }
        }
        if !found {
            seen.push(d.clone());
            assert(seen@.map_values(|d: String| d@) =~= prev.push(d@));
        }
        i = i + 1;
    }
    assert(ds.take(entries@.len() as int) == ds);
    let ghost sv = seen@.map_values(|d: String| d@);
    let ghost all = sv.map_values(|d: Seq<char>| paths_with(entries@, d));
    let mut out: Vec<Vec<String>> = Vec::new();
    let mut j: usize = 0;
    while j < seen.len()
        invariant
            j <= seen@.len(),
            sv == seen@.map_values(|d: String| d@),
            all == sv.map_values(|d: Seq<char>| paths_with(entries@, d)),
            out@.map_values(|g: Vec<String>| g@.map_values(|p: String| p@)) == all.take(
                j as int,
            ).filter(shared()),
        decreases seen@.len() - j,
    {
        let ghost prev = out@.map_values(|g: Vec<String>| g@.map_values(|p: String| p@));
        let group = paths_with_digest(entries, &seen[j]);
        proof {
            assert(all.take(j + 1).drop_last() == all.take(j as int));
            assert(all.take(j + 1).last() == group@.map_values(|p: String| p@));
            reveal_with_fuel(Seq::filter, 1);
        }
        if group.len() > 1 {
            out.push(group);
            assert(out@.map_values(|g: Vec<String>| g@.map_values(|p: String| p@)) =~= prev.push(
                all[j as int],
            ));
        }
        j = j + 1;
    }
    assert(all.take(seen@.len() as int) == all);
    out
}

/// Every group of duplicates holds at least two paths, and they are the
/// paths of one digest.
pub proof fn lemma_duplicate_group(entries: Seq<(String, String)>, k: int)
    requires
        0 <= k < duplicate_groups(entries).len(),
    ensures
        duplicate_groups(entries)[k].len() > 1,
        exists|d: Seq<char>| duplicate_groups(entries)[k] =~= #[trigger] paths_with(entries, d),
{
    broadcast use vstd::seq_lib::group_filter_ensures;

    let all = distinct_digests(digests_of(entries)).map_values(
        |d: Seq<char>| paths_with(entries, d),
    );
    assert(duplicate_groups(entries) == all.filter(shared()));
    all.lemma_filter_pred(shared(), k);
    let g = duplicate_groups(entries)[k];
    assert(all.filter(shared())[k] == g);
    assert(all.filter(shared()).contains(g));
    all.lemma_filter_contains_rev(shared(), g);
    let j = choose|j: int| 0 <= j < all.len() && all[j] == g;
    let d = distinct_digests(digests_of(entries))[j];
    assert(g =~= paths_with(entries, d));
}

} // verus!
