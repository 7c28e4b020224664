//! Serving a stored artifact by its identifier.
use vstd::prelude::*;

use crate::api::ServiceError;
use crate::artifact::{ArtifactKind, ArtifactRecord};

verus! {

/// How a kind is named at the start of a message.
pub open spec fn kind_title(kind: ArtifactKind) -> Seq<char> {
    match kind {
        ArtifactKind::Report => "Minidump"@,
        ArtifactKind::Symbol => "PDB"@,
        ArtifactKind::Image => "EXE"@,
    }
}

/// The file name offered to the client: the identifier with `.dmp` for a
/// crash dump, the uploaded file name otherwise.
pub open spec fn attachment_name(rec: ArtifactRecord) -> Seq<char> {
    match rec {
        ArtifactRecord::Report(m) => m.id@ + ".dmp"@,
        ArtifactRecord::Symbol(p) => p.pdb_filename@,
        ArtifactRecord::Image(e) => e.exe_filename@,
    }
}

pub open spec fn content_disposition(rec: ArtifactRecord) -> Seq<char> {
    "attachment; filename=\""@ + attachment_name(rec) + "\""@
}

/// What to stream, and the header that names it.
#[derive(Debug)]
pub struct DownloadPlan {
    pub path: String,
    pub content_disposition: String,
}

fn kind_title_str(kind: ArtifactKind) -> (r: &'static str)
    ensures
        r@ == kind_title(kind),
{
    match kind {
        ArtifactKind::Report => "Minidump",
        ArtifactKind::Symbol => "PDB",
        ArtifactKind::Image => "EXE",
    }
}

/// What to serve for a download of `kind` by `id`, given the record that the
/// catalog found under that identifier. No record, or one of another kind,
/// is reported as not found.
pub fn plan_download(kind: ArtifactKind, id: &str, found: Option<ArtifactRecord>) -> (r: Result<
    DownloadPlan,
    ServiceError,
>)
    ensures
        match found {
            Some(rec) if rec.spec_kind() == kind => r matches Ok(plan) && plan.path@
                == rec.spec_file_path() && plan.content_disposition@ == content_disposition(rec),
            _ => r matches Err(ServiceError::NotFound { detail }) && detail@ == kind_title(kind)
                + " not found with ID: "@ + id@,
        },
{
    let rec = match found {
        Some(rec) if rec.kind() == kind => rec,
        _ => {
            let mut detail = String::from_str(kind_title_str(kind));
            detail.append(" not found with ID: ");
            detail.append(id);
            return Err(ServiceError::NotFound { detail });
        },
    };
    let mut disposition = String::from_str("attachment; filename=\"");
    match &rec {
        ArtifactRecord::Report(m) => {
            disposition.append(m.id.as_str());
            disposition.append(".dmp");
        },
        ArtifactRecord::Symbol(p) => disposition.append(p.pdb_filename.as_str()),
        ArtifactRecord::Image(e) => disposition.append(e.exe_filename.as_str()),
    }
    disposition.append("\"");
    let path = rec.file_path().clone();
    Ok(DownloadPlan { path, content_disposition: disposition })
}

/// The error that reports a record whose file is gone from disk.
pub fn missing_file(kind: ArtifactKind) -> (r: ServiceError)
    ensures
        r matches ServiceError::NotFound { detail } && detail@ == kind_title(kind)
            + " file not found on disk"@,
{
    let mut detail = String::from_str(kind_title_str(kind));
    detail.append(" file not found on disk");
    ServiceError::NotFound { detail }
}

} // verus!
