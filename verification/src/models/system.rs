//! The machine and its drives.
use vstd::prelude::*;

verus! {

/// The operating system, processor, memory and drives.
#[derive(Debug, Clone)]
pub struct SystemInfo {
    pub os_name: String,
    pub os_version: String,
    pub os_build: String,
    pub hostname: String,
    pub cpu_name: String,
    pub cpu_cores: u32,
    pub total_memory: u64,
    pub available_memory: u64,
    pub drives: Vec<DriveInfo>,
}

/// One mounted drive.
#[derive(Debug, Clone)]
pub struct DriveInfo {
    pub letter: String,
    pub label: String,
    pub file_system: String,
    pub drive_type: String,
    pub total_size: u64,
    pub available_space: u64,
    pub used_space: u64,
}

/// The index of the first drive whose letter is `C:`, if any.
pub open spec fn first_c_drive(drives: Seq<DriveInfo>) -> Option<int>
    decreases drives.len(),
{
    if drives.len() == 0 {
        None
    } else if drives[0].letter@ == "C:"@ {
        Some(0)
    } else {
        match first_c_drive(drives.drop_first()) {
            Some(i) => Some(i + 1),
            None => None,
        }
    }
}

impl SystemInfo {
    /// The system drive: the first drive whose letter is `C:`.
    pub fn c_drive(&self) -> (r: Option<&DriveInfo>)
        ensures
            match first_c_drive(self.drives@) {
                Some(i) => r == Some(&self.drives@[i]),
                None => r is None,
            },
    {
        let c = crate::text::chars_of("C:");
        let mut i: usize = 0;
        assert(self.drives@.skip(0) == self.drives@);
        while i < self.drives.len()
            invariant
                i <= self.drives@.len(),
                c@ == "C:"@,
                first_c_drive(self.drives@) == (match first_c_drive(self.drives@.skip(i as int)) {
                    Some(k) => Some(k + i),
                    None => None,
                }),
            decreases self.drives@.len() - i,
        {
            let l = crate::text::chars_of(self.drives[i].letter.as_str());
            assert(self.drives@.skip(i as int)[0] == self.drives@[i as int]);
            if crate::text::chars_eq(l.as_slice(), c.as_slice()) {
                return Some(&self.drives[i]);
            }
            assert(self.drives@.skip(i as int).drop_first() == self.drives@.skip(i + 1));
            i = i + 1;
        }
        None
    }
}

} // verus!
