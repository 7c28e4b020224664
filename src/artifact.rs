//! The three kinds of stored artifact and their catalog records.
use vstd::prelude::*;

use crate::text::str_eq;

verus! {

/// What an uploaded artifact is.
#[derive(Clone, Copy, Debug, PartialEq, Eq, Structural)]
pub enum ArtifactKind {
    /// A crash dump (`MDMP` file).
    Report,
    /// A debug-symbol file.
    Symbol,
    /// An executable image (`MZ` file).
    Image,
}

/// The kind that a download path names: `report`, `symbol` and `image`, or
/// their alternative names `minidump`, `pdb` and `exe`.
pub open spec fn kind_named(name: Seq<char>) -> Option<ArtifactKind> {
    if name == "report"@ || name == "minidump"@ {
        Some(ArtifactKind::Report)
    } else if name == "symbol"@ || name == "pdb"@ {
        Some(ArtifactKind::Symbol)
    } else if name == "image"@ || name == "exe"@ {
        Some(ArtifactKind::Image)
    } else {
        None
    }
}

impl ArtifactKind {
    /// The kind that a download path names, if any.
    pub fn from_route_name(name: &str) -> (r: Option<ArtifactKind>)
        ensures
            r == kind_named(name@),
    {
        if str_eq(name, "report") || str_eq(name, "minidump") {
            Some(ArtifactKind::Report)
        } else if str_eq(name, "symbol") || str_eq(name, "pdb") {
            Some(ArtifactKind::Symbol)
        } else if str_eq(name, "image") || str_eq(name, "exe") {
            Some(ArtifactKind::Image)
        } else {
            None
        }
    }
}

/// A stored crash report.
#[derive(Clone, Debug, PartialEq, Eq)]
pub struct Minidump {
    pub id: String,
    /// Crash time as the client sent it.
    pub timestamp: String,
    pub exe_version: String,
    pub exe_guid: String,
    /// Symbol-matching age counter.
    pub exe_age: i32,
    pub pid: i32,
    pub tid: i32,
    pub exception_code: String,
    pub exception_address: Option<String>,
    /// Where the dump is stored.
    pub file_path: String,
    /// Server receipt time.
    pub created_at: String,
    /// PE header timestamp.
    pub exe_time_date_stamp: Option<u32>,
    /// PE header image size.
    pub exe_size_of_image: Option<u32>,
}

/// A stored debug-symbol file.
#[derive(Clone, Debug, PartialEq, Eq)]
pub struct Pdb {
    pub id: String,
    pub exe_version: String,
    pub exe_guid: String,
    pub exe_age: i32,
    pub pdb_filename: String,
    pub file_path: String,
    pub uploaded_at: String,
    pub exe_time_date_stamp: Option<u32>,
    pub exe_size_of_image: Option<u32>,
}

/// A stored executable image.
#[derive(Clone, Debug, PartialEq, Eq)]
pub struct Exe {
    pub id: String,
    pub exe_version: String,
    pub exe_guid: String,
    pub exe_filename: String,
    pub file_path: String,
    pub uploaded_at: String,
}

/// A catalog record of any kind.
#[derive(Clone, Debug, PartialEq, Eq)]
pub enum ArtifactRecord {
    Report(Minidump),
    Symbol(Pdb),
    Image(Exe),
}

impl ArtifactRecord {
    pub open spec fn spec_kind(&self) -> ArtifactKind {
        match self {
            ArtifactRecord::Report(_) => ArtifactKind::Report,
            ArtifactRecord::Symbol(_) => ArtifactKind::Symbol,
            ArtifactRecord::Image(_) => ArtifactKind::Image,
        }
    }

    pub open spec fn spec_file_path(&self) -> Seq<char> {
        match self {
            ArtifactRecord::Report(m) => m.file_path@,
            ArtifactRecord::Symbol(p) => p.file_path@,
            ArtifactRecord::Image(e) => e.file_path@,
        }
    }

    pub fn kind(&self) -> (r: ArtifactKind)
        ensures
            r == self.spec_kind(),
    {
        match self {
            ArtifactRecord::Report(_) => ArtifactKind::Report,
            ArtifactRecord::Symbol(_) => ArtifactKind::Symbol,
            ArtifactRecord::Image(_) => ArtifactKind::Image,
        }
    }

    /// Where the artifact's bytes are stored.
    pub fn file_path(&self) -> (r: &String)
        ensures
            r@ == self.spec_file_path(),
    {
        match self {
            ArtifactRecord::Report(m) => &m.file_path,
            ArtifactRecord::Symbol(p) => &p.file_path,
            ArtifactRecord::Image(e) => &e.file_path,
        }
    }
}

} // verus!
