//! Filesystem names: the aliases a user may type and the label the format
//! tool expects for each.
use vstd::prelude::*;
use vstd::string::*;
use crate::text::{lower_of, same_text, to_lower};

verus! {

/// The filesystems a volume can be formatted with.
#[derive(Clone, Copy, Debug, PartialEq, Eq, Structural)]
pub enum FsKind {
    Apfs,
    Hfs,
    Fat32,
    ExFat,
}

/// A filesystem token that names none of the supported filesystems.
#[derive(Clone, Debug)]
pub struct FsError {
    /// The token as the user gave it.
    pub token: String,
    /// The supported aliases, for display.
    pub supported: String,
}

/// The filesystem that a lower-case alias names.
pub open spec fn fs_kind_of(t: Seq<char>) -> Option<FsKind> {
    if t == "apfs"@ {
        Some(FsKind::Apfs)
    } else if t == "hfs+"@ || t == "hfs"@ {
        Some(FsKind::Hfs)
    } else if t == "fat32"@ || t == "msdos"@ {
        Some(FsKind::Fat32)
    } else if t == "exfat"@ {
        Some(FsKind::ExFat)
    } else {
        None
    }
}

/// The label that the format tool expects for a filesystem.
pub open spec fn label_of(k: FsKind) -> Seq<char> {
    match k {
        FsKind::Apfs => "APFS"@,
        FsKind::Hfs => "HFS+"@,
        FsKind::Fat32 => "MS-DOS FAT32"@,
        FsKind::ExFat => "ExFAT"@,
    }
}

/// The first-listed alias of a filesystem.
pub open spec fn primary_alias_of(k: FsKind) -> Seq<char> {
    match k {
        FsKind::Apfs => "apfs"@,
        FsKind::Hfs => "hfs+"@,
        FsKind::Fat32 => "fat32"@,
        FsKind::ExFat => "exfat"@,
    }
}

/// Every accepted alias, in lower case.
pub open spec fn aliases() -> Seq<Seq<char>> {
    seq!["apfs"@, "hfs+"@, "hfs"@, "fat32"@, "msdos"@, "exfat"@]
}

/// What resolving a token gives, the token read without regard to case.
pub open spec fn resolution_of(token: Seq<char>) -> Result<FsKind, ()> {
    match fs_kind_of(lower_of(token)) {
        Some(k) => Ok(k),
        None => Err(()),
    }
}

impl FsKind {
    /// The label that the format tool expects.
    pub fn label(&self) -> (r: String)
        ensures
            r@ == label_of(*self),
    {
        match self {
            FsKind::Apfs => String::from_str("APFS"),
            FsKind::Hfs => String::from_str("HFS+"),
            FsKind::Fat32 => String::from_str("MS-DOS FAT32"),
            FsKind::ExFat => String::from_str("ExFAT"),
        }
    }
}

/// The aliases listed to a user whose token was refused.
pub fn supported_filesystems() -> (r: String)
    ensures
        r@ == "apfs, hfs+, fat32, exfat"@,
{
    String::from_str("apfs, hfs+, fat32, exfat")
}

/// The filesystem that a lower-case alias names, if any.
pub fn fs_kind_lowered(t: &str) -> (r: Option<FsKind>)
    ensures
        r == fs_kind_of(t@),
{
    if same_text(t, "apfs") {
        Some(FsKind::Apfs)
    } else if same_text(t, "hfs+") || same_text(t, "hfs") {
        Some(FsKind::Hfs)
    } else if same_text(t, "fat32") || same_text(t, "msdos") {
        Some(FsKind::Fat32)
    } else if same_text(t, "exfat") {
        Some(FsKind::ExFat)
    } else {
        None
    }
}

/// The filesystem a token names, read without regard to case.
pub fn resolve_filesystem(filesystem: &str) -> (r: Result<FsKind, FsError>)
    ensures
        match r {
            Ok(k) => resolution_of(filesystem@) == Ok::<FsKind, ()>(k),
            Err(e) => resolution_of(filesystem@) is Err && e.token@ == filesystem@ && e.supported@
                == "apfs, hfs+, fat32, exfat"@,
        },
{
    let lowered = to_lower(filesystem);
    match fs_kind_lowered(lowered.as_str()) {
        Some(k) => Ok(k),
        None => Err(FsError { token: String::from_str(filesystem), supported: supported_filesystems() }),
    }
}

/// Accepts a token that names a supported filesystem.
pub fn validate_filesystem(filesystem: &str) -> (r: Result<(), FsError>)
    ensures
        r is Ok <==> resolution_of(filesystem@) is Ok,
        r matches Err(e) ==> e.token@ == filesystem@,
{
    match resolve_filesystem(filesystem) {
        Ok(_) => Ok(()),
        Err(e) => Err(e),
    }
}

/// The label that the format tool expects for a filesystem token.
pub fn get_diskutil_format(filesystem: &str) -> (r: Result<String, FsError>)
    ensures
        match r {
            Ok(l) => resolution_of(filesystem@) matches Ok(k) && l@ == label_of(k),
            Err(e) => resolution_of(filesystem@) is Err && e.token@ == filesystem@,
        },
{
    match resolve_filesystem(filesystem) {
        Ok(k) => Ok(k.label()),
        Err(e) => Err(e),
    }
}

/// Resolution is total over the alias table and nothing else: a lower-case
/// token names a filesystem exactly when it is one of the aliases, and an
/// alias names the same filesystem as the first-listed alias of what it names.
pub proof fn lemma_resolution_over_aliases(t: Seq<char>)
    ensures
        fs_kind_of(t) is Some <==> aliases().contains(t),
        fs_kind_of(t) matches Some(k) ==> fs_kind_of(primary_alias_of(k)) == Some(k),
{
    reveal_strlit("apfs");
    reveal_strlit("hfs+");
    reveal_strlit("hfs");
    reveal_strlit("fat32");
    reveal_strlit("msdos");
    reveal_strlit("exfat");
    if aliases().contains(t) {
        let i = choose|i: int| 0 <= i < aliases().len() && aliases()[i] == t;
        assert(i == 0 || i == 1 || i == 2 || i == 3 || i == 4 || i == 5);
    }
    assert("hfs+"@[0] != "apfs"@[0]);
    assert("exfat"@[0] != "fat32"@[0]);
    assert("exfat"@[0] != "msdos"@[0]);
    if fs_kind_of(t) is Some {
        if t == "apfs"@ {
            assert(aliases()[0] == t);
        } else if t == "hfs+"@ {
            assert(aliases()[1] == t);
        } else if t == "hfs"@ {
            assert(aliases()[2] == t);
        } else if t == "fat32"@ {
            assert(aliases()[3] == t);
        } else if t == "msdos"@ {
            assert(aliases()[4] == t);
        } else {
            assert(aliases()[5] == t);
        }
    }
}

/// Resolving a token and then the first-listed alias of what it named gives
/// the same filesystem again.
pub proof fn lemma_resolve_primary_alias(token: Seq<char>, k: FsKind)
    requires
        resolution_of(token) == Ok::<FsKind, ()>(k),
    ensures
        fs_kind_of(primary_alias_of(k)) == Some(k),
{
    lemma_resolution_over_aliases(lower_of(token));
}

} // verus!
