//! Upload sessions: a multipart body with one metadata part followed by one
//! payload part, turned into a stored file and a catalog record.
//!
//! The caller walks the body's parts. For the metadata part it parses the
//! JSON and hands the result to [`UploadSession::accept_metadata`]. For the
//! payload part it calls [`UploadSession::begin_payload`], which names the
//! destination and returns the [`Ingest`] that judges each chunk; when the
//! part ends it calls [`UploadSession::complete_payload`]. Once the body has
//! ended, [`UploadSession::finish`] builds the record to insert.
use vstd::prelude::*;

use crate::api::{reports_ingest_error, ServiceError};
use crate::artifact::{ArtifactKind, ArtifactRecord, Exe, Minidump, Pdb};
use crate::ingest::{finish_state, initial_state, Ingest};
use crate::layout::{
    identity_dir, image_path, is_safe_segment, is_safe_segment_str, kind_dir,
    lemma_identity_dir_is_safe, lemma_layout_path_is_sanitized, report_path, sanitized_path,
    size_limit_of, symbol_path, FileStorage, StorageView,
};
use crate::text::{int_decimal, push_char, push_signed_decimal, str_eq};

verus! {

/// Metadata of an uploaded crash report.
#[derive(Clone, Debug, PartialEq, Eq)]
pub struct MinidumpUploadMetadata {
    pub timestamp: String,
    pub exe_version: String,
    pub exe_guid: String,
    pub exe_age: i32,
    pub pid: i32,
    pub tid: i32,
    pub exception_code: String,
    pub exception_address: Option<String>,
    pub exe_time_date_stamp: Option<u32>,
    pub exe_size_of_image: Option<u32>,
}

/// Metadata of an uploaded symbol file.
#[derive(Clone, Debug, PartialEq, Eq)]
pub struct PdbUploadMetadata {
    pub exe_version: String,
    pub exe_guid: String,
    pub exe_age: i32,
    pub pdb_filename: String,
    pub exe_time_date_stamp: Option<u32>,
    pub exe_size_of_image: Option<u32>,
}

/// Metadata of an uploaded executable image.
#[derive(Clone, Debug, PartialEq, Eq)]
pub struct ExeUploadMetadata {
    pub exe_version: String,
    pub exe_guid: String,
    pub exe_filename: String,
}

/// The metadata part of an upload, by kind.
#[derive(Clone, Debug, PartialEq, Eq)]
pub enum UploadMetadata {
    Report(MinidumpUploadMetadata),
    Symbol(PdbUploadMetadata),
    Image(ExeUploadMetadata),
}

impl UploadMetadata {
    pub open spec fn spec_kind(&self) -> ArtifactKind {
        match self {
            UploadMetadata::Report(_) => ArtifactKind::Report,
            UploadMetadata::Symbol(_) => ArtifactKind::Symbol,
            UploadMetadata::Image(_) => ArtifactKind::Image,
        }
    }

    pub open spec fn spec_version(&self) -> Seq<char> {
        match self {
            UploadMetadata::Report(m) => m.exe_version@,
            UploadMetadata::Symbol(m) => m.exe_version@,
            UploadMetadata::Image(m) => m.exe_version@,
        }
    }

    pub open spec fn spec_guid(&self) -> Seq<char> {
        match self {
            UploadMetadata::Report(m) => m.exe_guid@,
            UploadMetadata::Symbol(m) => m.exe_guid@,
            UploadMetadata::Image(m) => m.exe_guid@,
        }
    }

    pub fn kind(&self) -> (r: ArtifactKind)
        ensures
            r == self.spec_kind(),
    {
        match self {
            UploadMetadata::Report(_) => ArtifactKind::Report,
            UploadMetadata::Symbol(_) => ArtifactKind::Symbol,
            UploadMetadata::Image(_) => ArtifactKind::Image,
        }
    }
}

/// The separators that a crash time loses in a dump's file name.
pub open spec fn is_time_separator(c: char) -> bool {
    c == '-' || c == ':' || c == 'T' || c == 'Z'
}

/// The crash time without its separators (`2024-01-02T03:04:05Z` becomes
/// `20240102030405`).
pub open spec fn compact_time(s: Seq<char>) -> Seq<char>
    decreases s.len(),
{
    if s.len() == 0 {
        s
    } else if is_time_separator(s.last()) {
        compact_time(s.drop_last())
    } else {
        compact_time(s.drop_last()).push(s.last())
    }
}

/// `crash_<time>_<pid>_<tid>.dmp`.
pub open spec fn dump_filename(m: MinidumpUploadMetadata) -> Seq<char> {
    "crash_"@ + compact_time(m.timestamp@) + seq!['_'] + int_decimal(m.pid as int) + seq!['_']
        + int_decimal(m.tid as int) + ".dmp"@
}

/// The name under which the payload is stored.
pub open spec fn target_filename(m: UploadMetadata) -> Seq<char> {
    match m {
        UploadMetadata::Report(d) => dump_filename(d),
        UploadMetadata::Symbol(p) => p.pdb_filename@,
        UploadMetadata::Image(e) => e.exe_filename@,
    }
}

/// Every part of the destination that comes from the request is a safe
/// single path component.
pub open spec fn is_safe_upload(m: UploadMetadata) -> bool {
    &&& is_safe_segment(m.spec_version())
    &&& is_safe_segment(m.spec_guid())
    &&& is_safe_segment(target_filename(m))
}

/// The directory below the version directory: `<guid>_<age>`, or the bare
/// guid for images.
pub open spec fn identity_part(m: UploadMetadata) -> Seq<char> {
    match m {
        UploadMetadata::Report(d) => identity_dir(d.exe_guid@, d.exe_age as int),
        UploadMetadata::Symbol(p) => identity_dir(p.exe_guid@, p.exe_age as int),
        UploadMetadata::Image(e) => e.exe_guid@,
    }
}

/// Where the payload is stored, under the storage root `root`.
pub open spec fn target_path(root: Seq<char>, m: UploadMetadata) -> Seq<char> {
    match m {
        UploadMetadata::Report(d) => report_path(
            root,
            d.exe_version@,
            d.exe_guid@,
            d.exe_age as int,
            dump_filename(d),
        ),
        UploadMetadata::Symbol(p) => symbol_path(
            root,
            p.exe_version@,
            p.exe_guid@,
            p.exe_age as int,
            p.pdb_filename@,
        ),
        UploadMetadata::Image(e) => image_path(root, e.exe_version@, e.exe_guid@, e.exe_filename@),
    }
}

/// The destination relative to the kind's directory.
pub open spec fn relative_target(m: UploadMetadata) -> Seq<char> {
    m.spec_version() + seq!['/'] + identity_part(m) + seq!['/'] + target_filename(m)
}

/// The identifier and destination of an upload's payload.
#[derive(Debug)]
pub struct UploadTarget {
    pub id: String,
    pub path: String,
}

/// What a part of the multipart body is, by its name.
#[derive(Clone, Copy, Debug, PartialEq, Eq, Structural)]
pub enum FieldRole {
    Metadata,
    Payload,
    Ignored,
}

/// The kind-specific name that a payload part may carry besides `binary`.
pub open spec fn payload_field_name(kind: ArtifactKind) -> Seq<char> {
    match kind {
        ArtifactKind::Report => "minidump"@,
        ArtifactKind::Symbol => "pdb"@,
        ArtifactKind::Image => "exe"@,
    }
}

pub open spec fn role_of(kind: ArtifactKind, name: Seq<char>) -> FieldRole {
    if name == "metadata"@ {
        FieldRole::Metadata
    } else if name == "binary"@ || name == payload_field_name(kind) {
        FieldRole::Payload
    } else {
        FieldRole::Ignored
    }
}

/// What an upload session has gathered.
pub struct SessionView {
    pub kind: ArtifactKind,
    pub metadata: Option<UploadMetadata>,
    pub target: Option<UploadTarget>,
    /// The size of the payload, once it has been accepted.
    pub stored: Option<u64>,
}

impl SessionView {
    /// The metadata describes the session's kind, and a payload comes only
    /// after metadata, and is stored only once it has a destination.
    pub open spec fn wf(self) -> bool {
        &&& (self.metadata matches Some(m) ==> m.spec_kind() == self.kind)
        &&& (self.target is Some ==> self.metadata is Some)
        &&& (self.stored is Some ==> self.target is Some)
    }
}

/// `rec` is the record of an upload with metadata `m` stored at `t`,
/// received at `time`.
pub open spec fn is_record_for(
    rec: ArtifactRecord,
    m: UploadMetadata,
    t: UploadTarget,
    time: Seq<char>,
) -> bool {
    match (rec, m) {
        (ArtifactRecord::Report(r), UploadMetadata::Report(d)) => {
            &&& r.id == t.id
            &&& r.timestamp == d.timestamp
            &&& r.exe_version == d.exe_version
            &&& r.exe_guid == d.exe_guid
            &&& r.exe_age == d.exe_age
            &&& r.pid == d.pid
            &&& r.tid == d.tid
            &&& r.exception_code == d.exception_code
            &&& r.exception_address == d.exception_address
            &&& r.file_path@ == t.path@
            &&& r.created_at@ == time
            &&& r.exe_time_date_stamp == d.exe_time_date_stamp
            &&& r.exe_size_of_image == d.exe_size_of_image
        },
        (ArtifactRecord::Symbol(r), UploadMetadata::Symbol(p)) => {
            &&& r.id == t.id
            &&& r.exe_version == p.exe_version
            &&& r.exe_guid == p.exe_guid
            &&& r.exe_age == p.exe_age
            &&& r.pdb_filename == p.pdb_filename
            &&& r.file_path@ == t.path@
            &&& r.uploaded_at@ == time
            &&& r.exe_time_date_stamp == p.exe_time_date_stamp
            &&& r.exe_size_of_image == p.exe_size_of_image
        },
        (ArtifactRecord::Image(r), UploadMetadata::Image(e)) => {
            &&& r.id == t.id
            &&& r.exe_version == e.exe_version
            &&& r.exe_guid == e.exe_guid
            &&& r.exe_filename == e.exe_filename
            &&& r.file_path@ == t.path@
            &&& r.uploaded_at@ == time
        },
        _ => false,
    }
}

/// How `begin_payload` moves a session from `s` to `s2`, returning `r`,
/// whatever the identifier.
pub open spec fn begins(
    s: SessionView,
    storage: StorageView,
    r: Result<(UploadTarget, Ingest), ServiceError>,
    s2: SessionView,
) -> bool {
    match s.metadata {
        None => r matches Err(ServiceError::InvalidMetadata { .. }) && s2 == s,
        Some(m) => if s.target is Some {
            r matches Err(ServiceError::InvalidFormat { .. }) && s2 == s
        } else if !is_safe_upload(m) {
            r matches Err(ServiceError::InvalidMetadata { .. }) && s2 == s
        } else {
            r matches Ok((t, ing)) && t.path@ == target_path(storage.root, m) && ing@
                == initial_state(s.kind, size_limit_of(storage, s.kind)) && s2 == SessionView {
                target: Some(t),
                ..s
            }
        },
    }
}

/// How `finish` ends a session `s`, returning `r`, with the receipt time
/// `time`.
pub open spec fn finishes(s: SessionView, r: Result<ArtifactRecord, ServiceError>, time: Seq<char>) -> bool {
    match s.metadata {
        None => r matches Err(ServiceError::InvalidMetadata { .. }),
        Some(m) => match (s.target, s.stored) {
            (Some(t), Some(_)) => r matches Ok(rec) && is_record_for(rec, m, t, time),
            _ => r matches Err(ServiceError::InvalidFormat { .. }),
        },
    }
}

/// The destination of an upload whose metadata is accepted is the sanitized
/// path of its relative part under the kind's directory: it never leaves that
/// directory, whatever the metadata holds.
pub proof fn lemma_upload_target_is_sanitized(root: Seq<char>, m: UploadMetadata)
    requires
        is_safe_upload(m),
    ensures
        sanitized_path(root, kind_dir(m.spec_kind()), relative_target(m)) == Some(
            target_path(root, m),
        ),
{
    match m {
        UploadMetadata::Image(_) => {},
        UploadMetadata::Report(r) => lemma_identity_dir_is_safe(r.exe_guid@, r.exe_age as int),
        UploadMetadata::Symbol(p) => lemma_identity_dir_is_safe(p.exe_guid@, p.exe_age as int),
    }
    lemma_layout_path_is_sanitized(
        root,
        m.spec_kind(),
        m.spec_version(),
        identity_part(m),
        target_filename(m),
    );
}

/// Relies on `getrandom::fill`: sixteen bytes from the operating system's
/// random source, or `None` where that source fails.
#[verifier::external_body]
fn random_bytes() -> (r: Option<[u8; 16]>) {
    let mut bytes = [0u8; 16];
    getrandom::fill(&mut bytes).ok().map(|()| bytes)
}

/// Relies on `uuid::Builder::from_random_bytes`, rendered by the UUID's
/// `Display`: a version-4 UUID in the hyphenated form, 36 characters with
/// `-` at 8, 13, 18 and 23.
#[verifier::external_body]
fn uuid_text(bytes: [u8; 16]) -> (r: String)
    ensures
        r@.len() == 36,
        r@[8] == '-' && r@[13] == '-' && r@[18] == '-' && r@[23] == '-',
{
    uuid::Builder::from_random_bytes(bytes).into_uuid().to_string()
}

/// Relies on `std::time::SystemTime::now` and `duration_since(UNIX_EPOCH)`:
/// the whole seconds and the nanoseconds (always under one billion) since
/// 1970, or `None` where the clock reads earlier.
#[verifier::external_body]
fn time_since_epoch() -> (r: Option<(u64, u32)>)
    ensures
        r matches Some((_, nanos)) ==> nanos < 1_000_000_000,
{
    std::time::SystemTime::now()
        .duration_since(std::time::UNIX_EPOCH)
        .ok()
        .map(|d| (d.as_secs(), d.subsec_nanos()))
}

/// The first second of the year 10000, since 1970.
pub const YEAR_10000: i64 = 253402300800;

/// The RFC 3339 shape of a UTC time of the years 0 to 9999 as chrono writes
/// it: `YYYY-MM-DDTHH:MM:SS`, then no fraction or 3, 6 or 9 digits of one,
/// then `+00:00`.
pub open spec fn is_rfc3339_utc(t: Seq<char>) -> bool {
    &&& (t.len() == 25 || t.len() == 29 || t.len() == 32 || t.len() == 35)
    &&& t[4] == '-' && t[7] == '-' && t[10] == 'T' && t[13] == ':' && t[16] == ':'
    &&& t.subrange(t.len() - 6, t.len() as int) == "+00:00"@
}

/// Relies on `chrono::DateTime::from_timestamp`, rendered by
/// `DateTime::to_rfc3339`: the UTC time `secs` seconds and `nanos`
/// nanoseconds after 1970. It exists for every such time before the year
/// 10000, and is then written in the RFC 3339 shape above.
#[verifier::external_body]
fn rfc3339_of(secs: i64, nanos: u32) -> (r: Option<String>)
    ensures
        r is Some || !(0 <= secs < YEAR_10000 && nanos < 1_000_000_000),
        r matches Some(t) ==> (0 <= secs < YEAR_10000 && nanos < 1_000_000_000 ==> is_rfc3339_utc(
            t@,
        )),
{
    chrono::DateTime::from_timestamp(secs, nanos).map(|t| t.to_rfc3339())
}

/// The crash time without its separators.
pub fn compact_time_str(s: &str) -> (r: String)
    ensures
        r@ == compact_time(s@),
{
    let n = s.unicode_len();
    let mut r = String::new();
    let mut i: usize = 0;
    while i < n
        invariant
            n == s@.len(),
            i <= n,
            r@ == compact_time(s@.take(i as int)),
        decreases n - i,
    {
        let c = s.get_char(i);
        assert(s@.take(i + 1).drop_last() =~= s@.take(i as int));
        if !(c == '-' || c == ':' || c == 'T' || c == 'Z') {
            push_char(&mut r, c);
        }
        i = i + 1;
    }
    assert(s@.take(n as int) =~= s@);
    r
}

/// The file name of a crash dump.
pub fn dump_filename_of(m: &MinidumpUploadMetadata) -> (r: String)
    ensures
        r@ == dump_filename(*m),
{
    let mut r = String::from_str("crash_");
    let t = compact_time_str(m.timestamp.as_str());
    r.append(t.as_str());
    push_char(&mut r, '_');
    push_signed_decimal(&mut r, m.pid as i64);
    push_char(&mut r, '_');
    push_signed_decimal(&mut r, m.tid as i64);
    r.append(".dmp");
    assert(r@ =~= dump_filename(*m));
    r
}

/// The name under which the payload is stored.
pub fn target_filename_of(m: &UploadMetadata) -> (r: String)
    ensures
        r@ == target_filename(*m),
{
    match m {
        UploadMetadata::Report(d) => dump_filename_of(d),
        UploadMetadata::Symbol(p) => p.pdb_filename.clone(),
        UploadMetadata::Image(e) => e.exe_filename.clone(),
    }
}

/// Where the payload of an upload with metadata `m` is stored, or `None`
/// where a part of that path taken from the request is not a safe single
/// component.
pub fn target_path_of(storage: &FileStorage, m: &UploadMetadata) -> (r: Option<String>)
    ensures
        r matches Some(p) ==> is_safe_upload(*m) && p@ == target_path(storage@.root, *m),
        r is None ==> !is_safe_upload(*m),
{
    let filename = target_filename_of(m);
    let (version, guid) = match m {
        UploadMetadata::Report(d) => (d.exe_version.as_str(), d.exe_guid.as_str()),
        UploadMetadata::Symbol(p) => (p.exe_version.as_str(), p.exe_guid.as_str()),
        UploadMetadata::Image(e) => (e.exe_version.as_str(), e.exe_guid.as_str()),
    };
    if !(is_safe_segment_str(version) && is_safe_segment_str(guid) && is_safe_segment_str(
        filename.as_str(),
    )) {
        return None;
    }
    match m {
        UploadMetadata::Report(d) => Some(
            storage.get_minidump_path(version, guid, d.exe_age, filename.as_str()),
        ),
        UploadMetadata::Symbol(p) => Some(
            storage.get_pdb_path(version, guid, p.exe_age, filename.as_str()),
        ),
        UploadMetadata::Image(_) => Some(storage.get_exe_path(version, guid, filename.as_str())),
    }
}

/// What a part of the multipart body named `name` is, in an upload of `kind`.
pub fn field_role(kind: ArtifactKind, name: &str) -> (r: FieldRole)
    ensures
        r == role_of(kind, name@),
{
    if str_eq(name, "metadata") {
        FieldRole::Metadata
    } else if str_eq(name, "binary") || str_eq(
        name,
        match kind {
            ArtifactKind::Report => "minidump",
            ArtifactKind::Symbol => "pdb",
            ArtifactKind::Image => "exe",
        },
    ) {
        FieldRole::Payload
    } else {
        FieldRole::Ignored
    }
}

/// One upload in progress.
pub struct UploadSession {
    kind: ArtifactKind,
    metadata: Option<UploadMetadata>,
    target: Option<UploadTarget>,
    stored: Option<u64>,
}

impl View for UploadSession {
    type V = SessionView;

    closed spec fn view(&self) -> SessionView {
        SessionView {
            kind: self.kind,
            metadata: self.metadata,
            target: self.target,
            stored: self.stored,
        }
    }
}

impl UploadSession {
    /// A session for an upload of `kind`.
    pub fn new(kind: ArtifactKind) -> (r: UploadSession)
        ensures
            r@ == (SessionView { kind, metadata: None, target: None, stored: None }),
            r@.wf(),
    {
        UploadSession { kind, metadata: None, target: None, stored: None }
    }

    pub fn kind(&self) -> (r: ArtifactKind)
        ensures
            r == self@.kind,
    {
        self.kind
    }

    /// Takes the parsed metadata part, or the parser's complaint. Refused
    /// where it could not be parsed, describes another kind, or is not the
    /// first metadata part.
    pub fn accept_metadata(&mut self, parsed: Result<UploadMetadata, String>) -> (r: Result<
        (),
        ServiceError,
    >)
        ensures
            old(self)@.wf() ==> final(self)@.wf(),
            match parsed {
                Err(msg) => (r matches Err(ServiceError::InvalidMetadata { detail }) && detail@
                    == "Invalid metadata: "@ + msg@) && final(self)@ == old(self)@,
                Ok(m) => if m.spec_kind() != old(self)@.kind || old(self)@.metadata is Some {
                    r matches Err(ServiceError::InvalidMetadata { .. }) && final(self)@ == old(
                        self,
                    )@
                } else {
                    r is Ok && final(self)@ == SessionView { metadata: Some(m), ..old(self)@ }
                },
            },
    {
        match parsed {
            Err(msg) => {
                let mut detail = String::from_str("Invalid metadata: ");
                detail.append(msg.as_str());
                Err(ServiceError::InvalidMetadata { detail })
            },
            Ok(m) => {
                if m.kind() != self.kind {
                    return Err(
                        ServiceError::InvalidMetadata {
                            detail: String::from_str("Metadata describes another kind of artifact"),
                        },
                    );
                }
                if self.metadata.is_some() {
                    return Err(
                        ServiceError::InvalidMetadata {
                            detail: String::from_str("More than one metadata part"),
                        },
                    );
                }
                self.metadata = Some(m);
                Ok(())
            },
        }
    }

    /// Starts the payload part under the identifier `id`: names its
    /// destination and returns the validator of its chunks, bound by the
    /// kind's ceiling. Refused before any metadata, for a second payload
    /// part, or where the destination would take an unsafe component from
    /// the metadata.
    pub fn begin_payload_with_id(&mut self, storage: &FileStorage, id: String) -> (r: Result<
        (UploadTarget, Ingest),
        ServiceError,
    >)
        ensures
            old(self)@.wf() ==> final(self)@.wf(),
            begins(old(self)@, storage@, r, final(self)@),
            r matches Ok((t, _)) ==> t.id == id,
    {
        let m = match &self.metadata {
            None => {
                return Err(
                    ServiceError::InvalidMetadata {
                        detail: String::from_str(
                            "Metadata must be provided before the file",
                        ),
                    },
                );
            },
            Some(m) => m,
        };
        if self.target.is_some() {
            return Err(
                ServiceError::InvalidFormat {
                    detail: String::from_str("More than one file part"),
                },
            );
        }
        let path = match target_path_of(storage, m) {
            None => {
                return Err(
                    ServiceError::InvalidMetadata {
                        detail: String::from_str(
                            "Metadata names an unsafe path component",
                        ),
                    },
                );
            },
            Some(p) => p,
        };
        let ingest = Ingest::new(self.kind, storage.size_limit(self.kind));
        let t = UploadTarget { id: id.clone(), path: path.clone() };
        self.target = Some(UploadTarget { id, path });
        Ok((t, ingest))
    }

    /// Starts the payload part under a freshly generated identifier, as
    /// `begin_payload_with_id` does; refused as a storage failure, with the
    /// session unchanged, where the random source fails.
    pub fn begin_payload(&mut self, storage: &FileStorage) -> (r: Result<
        (UploadTarget, Ingest),
        ServiceError,
    >)
        ensures
            old(self)@.wf() ==> final(self)@.wf(),
            r matches Err(ServiceError::StorageIo { .. }) ==> final(self)@ == old(self)@,
            !(r matches Err(ServiceError::StorageIo { .. })) ==> begins(
                old(self)@,
                storage@,
                r,
                final(self)@,
            ),
            r matches Ok((t, _)) ==> t.id@.len() == 36,
    {
        match random_bytes() {
            None => Err(
                ServiceError::StorageIo {
                    detail: String::from_str("The random source failed"),
                },
            ),
            Some(bytes) => self.begin_payload_with_id(storage, uuid_text(bytes)),
        }
    }

    /// Ends the payload part with the verdict of its validator. The size is
    /// recorded when the payload is accepted; otherwise the refusal is
    /// reported and the partial file must be deleted.
    pub fn complete_payload(&mut self, ingest: &Ingest) -> (r: Result<u64, ServiceError>)
        ensures
            old(self)@.wf() ==> final(self)@.wf(),
            old(self)@.target is None ==> (r matches Err(ServiceError::InvalidFormat { .. })
                && final(self)@ == old(self)@),
            old(self)@.target is Some ==> match finish_state(ingest@) {
                Err(e) => (r matches Err(se) && reports_ingest_error(se, e, old(self)@.kind))
                    && final(self)@ == old(self)@,
                Ok(n) => r == Ok::<u64, ServiceError>(n) && final(self)@ == SessionView {
                    stored: Some(n),
                    ..old(self)@
                },
            },
    {
        if self.target.is_none() {
            return Err(
                ServiceError::InvalidFormat {
                    detail: String::from_str("No file part was started"),
                },
            );
        }
        match ingest.finish() {
            Err(e) => Err(ServiceError::from_ingest(e, self.kind)),
            Ok(n) => {
                self.stored = Some(n);
                Ok(n)
            },
        }
    }

    /// The catalog record of the finished upload, received at `created_at`.
    /// Refused where the metadata, or an accepted payload, is missing.
    pub fn finish_at(&self, created_at: String) -> (r: Result<ArtifactRecord, ServiceError>)
        ensures
            finishes(self@, r, created_at@),
    {
        let m = match &self.metadata {
            None => {
                return Err(
                    ServiceError::InvalidMetadata { detail: String::from_str("Missing metadata") },
                );
            },
            Some(m) => m,
        };
        let t = match (&self.target, &self.stored) {
            (Some(t), Some(_)) => t,
            _ => {
                return Err(
                    ServiceError::InvalidFormat { detail: String::from_str("Missing file part") },
                );
            },
        };
        let rec = match m {
            UploadMetadata::Report(d) => ArtifactRecord::Report(
                Minidump {
                    id: t.id.clone(),
                    timestamp: d.timestamp.clone(),
                    exe_version: d.exe_version.clone(),
                    exe_guid: d.exe_guid.clone(),
                    exe_age: d.exe_age,
                    pid: d.pid,
                    tid: d.tid,
                    exception_code: d.exception_code.clone(),
                    exception_address: clone_opt(&d.exception_address),
                    file_path: t.path.clone(),
                    created_at,
                    exe_time_date_stamp: d.exe_time_date_stamp,
                    exe_size_of_image: d.exe_size_of_image,
                },
            ),
            UploadMetadata::Symbol(p) => ArtifactRecord::Symbol(
                Pdb {
                    id: t.id.clone(),
                    exe_version: p.exe_version.clone(),
                    exe_guid: p.exe_guid.clone(),
                    exe_age: p.exe_age,
                    pdb_filename: p.pdb_filename.clone(),
                    file_path: t.path.clone(),
                    uploaded_at: created_at,
                    exe_time_date_stamp: p.exe_time_date_stamp,
                    exe_size_of_image: p.exe_size_of_image,
                },
            ),
            UploadMetadata::Image(e) => ArtifactRecord::Image(
                Exe {
                    id: t.id.clone(),
                    exe_version: e.exe_version.clone(),
                    exe_guid: e.exe_guid.clone(),
                    exe_filename: e.exe_filename.clone(),
                    file_path: t.path.clone(),
                    uploaded_at: created_at,
                },
            ),
        };
        Ok(rec)
    }

    /// The catalog record of the finished upload, received now and written in
    /// RFC 3339; refused as a storage failure where the clock does not read a
    /// time between 1970 and the year 10000.
    pub fn finish(&self) -> (r: Result<ArtifactRecord, ServiceError>)
        ensures
            !(r matches Err(ServiceError::StorageIo { .. })) ==> exists|time: Seq<char>|
                finishes(self@, r, time) && is_rfc3339_utc(time),
    {
        let now = match time_since_epoch() {
            Some((secs, nanos)) if secs < YEAR_10000 as u64 => rfc3339_of(secs as i64, nanos),
            _ => None,
        };
        match now {
            None => Err(
                ServiceError::StorageIo {
                    detail: String::from_str("The system clock is out of range"),
                },
            ),
            Some(now) => {
                let r = self.finish_at(now);
                assert(finishes(self@, r, now@));
                r
            },
        }
    }
}

fn clone_opt(s: &Option<String>) -> (r: Option<String>)
    ensures
        r == *s,
{
    match s {
        Some(v) => Some(v.clone()),
        None => None,
    }
}

} // verus!
