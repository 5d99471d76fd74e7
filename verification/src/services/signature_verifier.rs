//! Authenticode signature decisions and the system-file rules.
use vstd::prelude::*;

use crate::error::AppError;
use crate::text::{concat, contains, contains_seq, is_prefix, lowercase, starts_with, str_eq, to_lowercase};

verus! {

/// What is known of a file's digital signature.
#[derive(Debug)]
pub struct SignatureInfo {
    pub is_signed: bool,
    pub is_microsoft: bool,
    pub is_trusted: bool,
    pub signer_name: String,
    pub issuer: String,
}

impl Clone for SignatureInfo {
    fn clone(&self) -> (r: Self)
        ensures
            r == *self,
    {
        SignatureInfo {
            is_signed: self.is_signed,
            is_microsoft: self.is_microsoft,
            is_trusted: self.is_trusted,
            signer_name: self.signer_name.clone(),
            issuer: self.issuer.clone(),
        }
    }
}

/// Checks signatures and recognises system files.
#[derive(Debug, Clone, Copy)]
pub struct SignatureVerifier;

/// The directories under which a file counts as a system file.
pub open spec fn system_dir_prefixes() -> Seq<Seq<char>> {
    seq!["C:\\Windows"@, "C:\\Program Files"@, "C:\\Program Files (x86)"@]
}

/// The extensions that mark a system file.
pub open spec fn system_extensions() -> Seq<Seq<char>> {
    seq![
        "dll"@, "sys"@, "exe"@, "ocx"@, "drv"@, "inf"@, "cat"@, "msi"@, "mui"@,
    ]
}

/// A signer name that names Microsoft, in English or in Chinese.
pub open spec fn names_microsoft(signer: Seq<char>) -> bool {
    contains_seq(signer, "Microsoft"@) || contains_seq(signer, "微软"@)
}

/// The signature facts derived from a trust check and the signer's name.
pub open spec fn authenticode_facts(
    is_trusted: bool,
    signer: Option<Seq<char>>,
) -> (bool, bool, bool, Seq<char>) {
    let name = match signer {
        Some(s) => s,
        None => Seq::empty(),
    };
    let is_signed = is_trusted || (signer is Some && name.len() > 0);
    let is_microsoft = signer is Some && names_microsoft(name);
    (is_signed, is_microsoft, is_trusted, name)
}

impl SignatureVerifier {
    /// A verifier.
    pub fn new() -> (r: Self) {
        SignatureVerifier
    }

    /// The signature of `file_path`. A file that does not exist is a
    /// file-system error. `trust` is the platform's Authenticode check,
    /// whether the file is trusted and the signer found in it, or `None`
    /// where the platform has no such check: then the file counts as
    /// unsigned.
    pub fn verify_signature(
        &self,
        file_path: &str,
        file_exists: bool,
        trust: Option<(bool, Option<String>)>,
    ) -> (r: Result<SignatureInfo, AppError>)
        ensures
            !file_exists ==> (r matches Err(AppError::FileSystemError(m)) && m@ == "文件不存在: "@
                + file_path@),
            file_exists ==> r is Ok,
            file_exists ==> match trust {
                None => (r matches Ok(info) && !info.is_signed && !info.is_microsoft
                    && !info.is_trusted && info.signer_name@.len() == 0 && info.issuer@.len()
                    == 0),
                Some((t, s)) => (r matches Ok(info) && (
                info.is_signed,
                info.is_microsoft,
                info.is_trusted,
                info.signer_name@,
            ) == authenticode_facts(
                    t,
                    match s {
                        Some(n) => Some(n@),
                        None => None,
                    },
                ) && info.issuer@.len() == 0),
            },
    {
        if !file_exists {
            return Err(AppError::FileSystemError(concat("文件不存在: ", file_path)));
        }
        match trust {
            None => Ok(
                SignatureInfo {
                    is_signed: false,
                    is_microsoft: false,
                    is_trusted: false,
                    signer_name: String::new(),
                    issuer: String::new(),
                },
            ),
            Some((t, s)) => Ok(Self::authenticode_info(t, s)),
        }
    }

    /// The signature facts from an Authenticode trust check: the file is
    /// signed when it is trusted or a non-empty signer was found, and it is a
    /// Microsoft file when the signer names Microsoft.
    pub fn authenticode_info(is_trusted: bool, signer_name: Option<String>) -> (r: SignatureInfo)
        ensures
            (r.is_signed, r.is_microsoft, r.is_trusted, r.signer_name@) == authenticode_facts(
                is_trusted,
                match signer_name {
                    Some(n) => Some(n@),
                    None => None,
                },
            ),
            r.issuer@.len() == 0,
    {
        let is_microsoft = match &signer_name {
            Some(n) => contains(n.as_str(), "Microsoft") || contains(n.as_str(), "微软"),
            None => false,
        };
        let has_name = match &signer_name {
            Some(n) => !n.as_str().is_empty(),
            None => false,
        };
        SignatureInfo {
            is_signed: is_trusted || has_name,
            is_microsoft,
            is_trusted,
            signer_name: match signer_name {
                Some(n) => n,
                None => String::new(),
            },
            issuer: String::new(),
        }
    }

    /// Whether the path lies under one of the system directories (a plain
    /// text prefix test, as written).
    pub fn is_system_file(&self, file_path: &str) -> (r: bool)
        ensures
            r == exists|i: int|
                0 <= i < system_dir_prefixes().len() && is_prefix(
                    #[trigger] system_dir_prefixes()[i],
                    file_path@,
                ),
    {
        proof {
            reveal_strlit("C:\\Windows");
            reveal_strlit("C:\\Program Files");
            reveal_strlit("C:\\Program Files (x86)");
        }
        let a = starts_with(file_path, "C:\\Windows");
        let b = starts_with(file_path, "C:\\Program Files");
        let c = starts_with(file_path, "C:\\Program Files (x86)");
        proof {
            let d = system_dir_prefixes();
            assert(d[0] == "C:\\Windows"@);
            assert(d[1] == "C:\\Program Files"@);
            assert(d[2] == "C:\\Program Files (x86)"@);
        }
        a || b || c
    }

    /// Whether the extension, lowercased, is one of the system extensions.
    pub fn is_system_extension(&self, extension: &str) -> (r: bool)
        ensures
            r == system_extensions().contains(lowercase(extension@)),
    {
        let lower = to_lowercase(extension);
        let l = lower.as_str();
        let list: [&str; 9] = ["dll", "sys", "exe", "ocx", "drv", "inf", "cat", "msi", "mui"];
        let mut i: usize = 0;
        while i < 9
            invariant
                i <= 9,
                l@ == lowercase(extension@),
                forall|k: int| 0 <= k < 9 ==> (#[trigger] list@[k])@ == system_extensions()[k],
                forall|k: int| 0 <= k < i ==> system_extensions()[k] != l@,
            decreases 9 - i,
        {
            if str_eq(list[i], l) {
                assert(system_extensions()[i as int] == l@);
                return true;
            }
            i = i + 1;
        }
        assert forall|x: Seq<char>| system_extensions().contains(x) implies x != l@ by {
            let k = choose|k: int| 0 <= k < 9 && system_extensions()[k] == x;
        }
        false
    }
}

} // verus!
