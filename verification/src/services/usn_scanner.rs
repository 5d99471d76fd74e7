//! Reading the NTFS change journal: the volume to open, where to resume,
//! how the records of one enumeration buffer are decoded, and which changed
//! files they report.
use vstd::prelude::*;

use crate::models::scan::{FileMetadata, ScanCategory};
use crate::text::{
    chars_of, concat3, decode_utf16, string_of, to_uppercase, trim_end_char, trim_end_char_exec,
    uppercase, utf16_text,
};

verus! {

/// What happened to a file, as a journal record's reason says.
#[derive(Debug, Clone, Copy, PartialEq, Eq, Structural)]
pub enum UsnChangeType {
    Created,
    Deleted,
    Modified,
    Renamed,
}

/// One decoded journal record.
#[derive(Debug)]
pub struct UsnEntry {
    pub usn: u64,
    pub file_name: String,
    pub change_type: UsnChangeType,
}

impl Clone for UsnEntry {
    fn clone(&self) -> (r: Self)
        ensures
            r == *self,
    {
        UsnEntry { usn: self.usn, file_name: self.file_name.clone(), change_type: self.change_type }
    }
}

/// The journal reader of one drive: the drive letter and the journal
/// position to resume from.
#[derive(Debug, Clone)]
pub struct UsnScanner {
    last_usn: u64,
    drive_letter: String,
}

/// The little-endian 16-bit number at `i`.
pub open spec fn le16(b: Seq<u8>, i: int) -> nat {
    b[i] as nat + 0x100 * (b[i + 1] as nat)
}

/// The little-endian 32-bit number at `i`.
pub open spec fn le32(b: Seq<u8>, i: int) -> nat {
    le16(b, i) + 0x1_0000 * le16(b, i + 2)
}

/// The little-endian 64-bit number at `i`.
pub open spec fn le64(b: Seq<u8>, i: int) -> nat {
    le32(b, i) + 0x1_0000_0000 * le32(b, i + 4)
}

/// What a record's reason flags say, as this reader reads them: flag 0x1 or
/// 0x8000 means created, else flag 0x2 deleted, else flag 0x10000 renamed,
/// else modified.
pub open spec fn change_of(reason: u32) -> UsnChangeType {
    if reason & 0x1 != 0 || reason & 0x8000 != 0 {
        UsnChangeType::Created
    } else if reason & 0x2 != 0 {
        UsnChangeType::Deleted
    } else if reason & 0x1_0000 != 0 {
        UsnChangeType::Renamed
    } else {
        UsnChangeType::Modified
    }
}

/// The UTF-16 units of `len` bytes at `start`, an odd last byte ignored.
pub open spec fn utf16_units(b: Seq<u8>, start: int, len: nat) -> Seq<u16> {
    Seq::new(len / 2, |k: int| le16(b, start + 2 * k) as u16)
}

/// A decoded record as plain values.
pub open spec fn entry_view(e: UsnEntry) -> (u64, Seq<char>, UsnChangeType) {
    (e.usn, e.file_name@, e.change_type)
}

/// The records of an enumeration buffer from `offset` on, of which the
/// first `n` bytes were filled: each record gives its number, its name
/// (when the name fits in the buffer) and its kind of change; decoding
/// stops at a record of length 0 or one that runs past the filled bytes
/// or the buffer.
pub open spec fn records_from(b: Seq<u8>, n: nat, offset: nat) -> Seq<(u64, Seq<char>, UsnChangeType)>
    decreases n - offset,
{
    if offset + 8 < n && offset + 4 <= b.len() {
        let len = le32(b, offset as int);
        if len == 0 || offset + len > n || offset + len > b.len() || offset + 60 > b.len() {
            Seq::empty()
        } else {
            let name_len = le32(b, offset + 56int);
            let name = if offset + 60 + name_len <= b.len() && name_len > 0 {
                utf16_text(utf16_units(b, offset + 60int, name_len))
            } else {
                Seq::empty()
            };
            seq![(le64(b, offset + 8int) as u64, name, change_of(le32(b, offset + 16int) as u32))]
                + records_from(b, n, offset + len)
        }
    } else {
        Seq::empty()
    }
}

/// The records of an enumeration buffer of which the first `n` bytes were
/// filled; none when fewer than 8 were.
pub open spec fn records_of(b: Seq<u8>, n: nat) -> Seq<(u64, Seq<char>, UsnChangeType)> {
    if n < 8 {
        Seq::empty()
    } else {
        records_from(b, n, 8)
    }
}

/// The file a record that is not a deletion reports: its name as path and
/// name, everything else empty or zero, category `Other`.
pub open spec fn changed_file(e: UsnEntry, f: FileMetadata) -> bool {
    &&& f.path@ == e.file_name@
    &&& f.name@ == e.file_name@
    &&& f.size == 0
    &&& f.modified_at@.len() == 0
    &&& f.created_at@.len() == 0
    &&& !f.is_directory
    &&& f.extension@.len() == 0
    &&& f.category == ScanCategory::Other
    &&& f.hash@.len() == 0
}

/// The entries that are not deletions, in order.
pub open spec fn not_deleted(es: Seq<UsnEntry>) -> Seq<UsnEntry>
    decreases es.len(),
{
    if es.len() == 0 {
        Seq::empty()
    } else if es.last().change_type == UsnChangeType::Deleted {
        not_deleted(es.drop_last())
    } else {
        not_deleted(es.drop_last()).push(es.last())
    }
}

/// The little-endian 16-bit number at `i`.
fn read_le16(b: &[u8], i: usize) -> (r: u16)
    requires
        i + 2 <= b.len(),
    ensures
        r as nat == le16(b@, i as int),
{
    b[i] as u16 + 0x100 * (b[i + 1] as u16)
}

/// The little-endian 32-bit number at `i`.
fn read_le32(b: &[u8], i: usize) -> (r: u32)
    requires
        i + 4 <= b.len(),
    ensures
        r as nat == le32(b@, i as int),
{
    let lo = read_le16(b, i) as u32;
    let hi = read_le16(b, i + 2) as u32;
    assert(lo + 0x1_0000 * hi <= 0xFFFF_FFFF) by (nonlinear_arith)
        requires
            lo <= 0xFFFF,
            hi <= 0xFFFF,
    ;
    lo + 0x1_0000 * hi
}

/// The little-endian 64-bit number at `i`.
fn read_le64(b: &[u8], i: usize) -> (r: u64)
    requires
        i + 8 <= b.len(),
    ensures
        r as nat == le64(b@, i as int),
{
    let lo = read_le32(b, i) as u64;
    let hi = read_le32(b, i + 4) as u64;
    assert(lo + 0x1_0000_0000 * hi <= 0xFFFF_FFFF_FFFF_FFFF) by (nonlinear_arith)
        requires
            lo <= 0xFFFF_FFFF,
            hi <= 0xFFFF_FFFF,
    ;
    lo + 0x1_0000_0000 * hi
}

/// What a record's reason flags say.
pub fn reason_to_change_type(reason: u32) -> (r: UsnChangeType)
    ensures
        r == change_of(reason),
{
    if reason & 0x1 != 0 || reason & 0x8000 != 0 {
        UsnChangeType::Created
    } else if reason & 0x2 != 0 {
        UsnChangeType::Deleted
    } else if reason & 0x1_0000 != 0 {
        UsnChangeType::Renamed
    } else {
        UsnChangeType::Modified
    }
}

/// The name a record holds: `len` bytes of UTF-16 at `start`.
fn record_name(b: &[u8], start: usize, len: usize) -> (r: String)
    requires
        start + len <= b.len(),
    ensures
        r@ == utf16_text(utf16_units(b@, start as int, len as nat)),
{
    let mut units: Vec<u16> = Vec::new();
    let half = len / 2;
    let mut k: usize = 0;
    while k < half
        invariant
            half == len / 2,
            start + len <= b.len(),
            k <= half,
            units@ == utf16_units(b@, start as int, len as nat).take(k as int),
        decreases half - k,
    {
        assert(2 * k + 2 <= len) by (nonlinear_arith)
            requires
                k < half,
                half == len / 2,
        ;
        let u = read_le16(b, start + 2 * k);
        units.push(u);
        k = k + 1;
        assert(units@ =~= utf16_units(b@, start as int, len as nat).take(k as int));
    }
    assert(units@ =~= utf16_units(b@, start as int, len as nat));
    decode_utf16(units.as_slice())
}

/// Decodes the records of an enumeration buffer whose first
/// `bytes_returned` bytes were filled.
pub fn parse_usn_records(buffer: &[u8], bytes_returned: u32) -> (r: Vec<UsnEntry>)
    ensures
        r@.map_values(|e: UsnEntry| entry_view(e)) == records_of(buffer@, bytes_returned as nat),
{
    let mut entries: Vec<UsnEntry> = Vec::new();
    if bytes_returned < 8 {
        return entries;
    }
    let n: u64 = bytes_returned as u64;
    let blen: u64 = buffer.len() as u64;
    let mut offset: usize = 8;
    while (offset as u64) + 8 < n
        invariant
            n == bytes_returned as nat,
            blen == buffer.len(),
            8 <= offset <= n,
            records_of(buffer@, n as nat) == entries@.map_values(|e: UsnEntry| entry_view(e))
                + records_from(buffer@, n as nat, offset as nat),
        ensures
            records_from(buffer@, n as nat, offset as nat) == Seq::<
                (u64, Seq<char>, UsnChangeType),
            >::empty(),
            records_of(buffer@, n as nat) == entries@.map_values(|e: UsnEntry| entry_view(e))
                + records_from(buffer@, n as nat, offset as nat),
        decreases n - offset,
    {
        let ghost prev = entries@.map_values(|e: UsnEntry| entry_view(e));
        if (offset as u64) + 4 > blen {
            break;
        }
        let record_len = read_le32(buffer, offset) as u64;
        if record_len == 0 || (offset as u64) + record_len > n || (offset as u64) + record_len
            > blen || (offset as u64) + 60 > blen {
            break;
        }
        let usn = read_le64(buffer, offset + 8);
        let reason = read_le32(buffer, offset + 16);
        let name_len = read_le32(buffer, offset + 56) as u64;
        let file_name = if (offset as u64) + 60 + name_len <= blen && name_len > 0 {
            record_name(buffer, offset + 60, name_len as usize)
        } else {
            String::new()
        };
        let change_type = reason_to_change_type(reason);
        let e = UsnEntry { usn, file_name, change_type };
        entries.push(e);
        proof {
            assert(entries@.map_values(|e: UsnEntry| entry_view(e)) =~= prev.push(entry_view(e)));
            let rest = records_from(buffer@, n as nat, (offset + record_len) as nat);
            assert(prev + records_from(buffer@, n as nat, offset as nat) =~= prev.push(
                entry_view(e),
            ) + rest);
        }
        offset = offset + record_len as usize;
    }
    assert(entries@.map_values(|e: UsnEntry| entry_view(e)) + Seq::<
        (u64, Seq<char>, UsnChangeType),
    >::empty() =~= entries@.map_values(|e: UsnEntry| entry_view(e)));
    entries
}

/// The files that the records report as created, modified or renamed, in
/// order; a deleted file is left out.
pub fn changed_files(entries: &[UsnEntry]) -> (r: Vec<FileMetadata>)
    ensures
        r@.len() == not_deleted(entries@).len(),
        forall|i: int|
            0 <= i < r@.len() ==> changed_file(not_deleted(entries@)[i], #[trigger] r@[i]),
{
    let mut out: Vec<FileMetadata> = Vec::new();
    let mut i: usize = 0;
    while i < entries.len()
        invariant
            i <= entries@.len(),
            out@.len() == not_deleted(entries@.take(i as int)).len(),
            forall|k: int|
                0 <= k < out@.len() ==> changed_file(
                    not_deleted(entries@.take(i as int))[k],
                    #[trigger] out@[k],
                ),
        decreases entries@.len() - i,
    {
        assert(entries@.take(i + 1).drop_last() == entries@.take(i as int));
        let e = &entries[i];
        if e.change_type != UsnChangeType::Deleted {
            out.push(
                FileMetadata {
                    path: e.file_name.clone(),
                    name: e.file_name.clone(),
                    size: 0,
                    modified_at: String::new(),
                    created_at: String::new(),
                    is_directory: false,
                    extension: String::new(),
                    category: ScanCategory::Other,
                    hash: String::new(),
                },
            );
        }
        i = i + 1;
    }
    assert(entries@.take(entries@.len() as int) == entries@);
    out
}

impl UsnScanner {
    /// The drive letter, in capitals.
    pub closed spec fn drive(&self) -> Seq<char> {
        self.drive_letter@
    }

    /// The journal position to resume from.
    pub closed spec fn last(&self) -> u64 {
        self.last_usn
    }

    /// A reader of this drive's journal, starting from the beginning.
    pub fn new(drive_letter: &str) -> (r: Self)
        ensures
            r.drive() == uppercase(drive_letter@),
            r.last() == 0,
    {
        UsnScanner { last_usn: 0, drive_letter: to_uppercase(drive_letter) }
    }

    /// The device path of the drive's volume: `\\.\` and the letter, one
    /// colon after it.
    pub fn volume_path(&self) -> (r: String)
        ensures
            r@ == "\\\\.\\"@ + trim_end_char(self.drive(), ':') + ":"@,
    {
        let v = chars_of(self.drive_letter.as_str());
        let t = trim_end_char_exec(v.as_slice(), ':');
        let letter = string_of(t.as_slice());
        concat3("\\\\.\\", letter.as_str(), ":")
    }

    /// The journal position the next enumeration starts from, as the
    /// signed number the request carries.
    pub fn start_usn(&self) -> (r: i64)
        ensures
            r == self.last() as i64,
    {
        self.last_usn as i64
    }

    /// Records the journal position to resume from.
    pub fn update_last_usn(&mut self, usn: u64)
        ensures
            final(self).last() == usn,
            final(self).drive() == old(self).drive(),
    {
        self.last_usn = usn;
    }

    /// The journal position to resume from.
    pub fn get_last_usn(&self) -> (r: u64)
        ensures
            r == self.last(),
    {
        self.last_usn
    }
}

} // verus!
