//! Errors and the response envelope that every reply carries.
use vstd::prelude::*;

use crate::artifact::ArtifactKind;
use crate::ingest::IngestError;
use crate::text::{nat_digits, push_decimal};

verus! {

/// The envelope `{success, data, error}` of every response body.
#[derive(Clone, Debug)]
pub struct ApiResponse<T> {
    pub success: bool,
    pub data: Option<T>,
    pub error: Option<String>,
}

impl<T> ApiResponse<T> {
    pub fn success(data: T) -> (r: Self)
        ensures
            r.success,
            r.data == Some(data),
            r.error is None,
    {
        ApiResponse { success: true, data: Some(data), error: None }
    }

    pub fn error(error: String) -> (r: Self)
        ensures
            !r.success,
            r.data is None,
            r.error == Some(error),
    {
        ApiResponse { success: false, data: None, error: Some(error) }
    }
}

/// Why a request failed.
#[derive(Clone, Debug, PartialEq, Eq)]
pub enum ServiceError {
    /// The metadata part is missing, malformed, or unusable.
    InvalidMetadata { detail: String },
    /// The payload has the wrong magic number, is empty, or is missing.
    InvalidFormat { detail: String },
    /// The payload is larger than the ceiling allows.
    PayloadTooLarge { limit: u64, received: u64 },
    /// No such record, no match, or no file behind a record.
    NotFound { detail: String },
    /// The disk or the catalog failed.
    StorageIo { detail: String },
    /// The shared secret is missing or wrong.
    Unauthorized,
}

pub open spec fn status_of(e: ServiceError) -> u16 {
    match e {
        ServiceError::InvalidMetadata { .. } => 400,
        ServiceError::InvalidFormat { .. } => 400,
        ServiceError::PayloadTooLarge { .. } => 413,
        ServiceError::NotFound { .. } => 404,
        ServiceError::StorageIo { .. } => 500,
        ServiceError::Unauthorized => 401,
    }
}

pub open spec fn too_large_message(limit: u64, received: u64) -> Seq<char> {
    "Payload exceeds maximum size of "@ + nat_digits(limit as nat) + " bytes (received: "@
        + nat_digits(received as nat) + " bytes)"@
}

pub open spec fn message_of(e: ServiceError) -> Seq<char> {
    match e {
        ServiceError::InvalidMetadata { detail } => detail@,
        ServiceError::InvalidFormat { detail } => detail@,
        ServiceError::PayloadTooLarge { limit, received } => too_large_message(limit, received),
        ServiceError::NotFound { detail } => detail@,
        ServiceError::StorageIo { detail } => detail@,
        ServiceError::Unauthorized => "Unauthorized: Invalid or missing API key"@,
    }
}

/// How the kind is named in messages.
pub open spec fn kind_noun(kind: ArtifactKind) -> Seq<char> {
    match kind {
        ArtifactKind::Report => "minidump"@,
        ArtifactKind::Symbol => "PDB"@,
        ArtifactKind::Image => "EXE"@,
    }
}

pub open spec fn ingest_detail(e: IngestError, kind: ArtifactKind) -> Seq<char> {
    match e {
        IngestError::BadHeader => "File is not a valid "@ + kind_noun(kind) + " (invalid header)"@,
        _ => "Invalid or empty "@ + kind_noun(kind) + " file"@,
    }
}

/// `se` is how a refused payload of `kind`, refused for `e`, is reported.
pub open spec fn reports_ingest_error(se: ServiceError, e: IngestError, kind: ArtifactKind) -> bool {
    match e {
        IngestError::PayloadTooLarge { limit, received } => se == ServiceError::PayloadTooLarge {
            limit,
            received,
        },
        _ => se matches ServiceError::InvalidFormat { detail } && detail@ == ingest_detail(e, kind),
    }
}

pub fn kind_noun_str(kind: ArtifactKind) -> (r: &'static str)
    ensures
        r@ == kind_noun(kind),
{
    match kind {
        ArtifactKind::Report => "minidump",
        ArtifactKind::Symbol => "PDB",
        ArtifactKind::Image => "EXE",
    }
}

impl ServiceError {
    /// The HTTP status that reports this error.
    pub fn status_code(&self) -> (r: u16)
        ensures
            r == status_of(*self),
    {
        match self {
            ServiceError::InvalidMetadata { .. } => 400,
            ServiceError::InvalidFormat { .. } => 400,
            ServiceError::PayloadTooLarge { .. } => 413,
            ServiceError::NotFound { .. } => 404,
            ServiceError::StorageIo { .. } => 500,
            ServiceError::Unauthorized => 401,
        }
    }

    /// The text that reports this error.
    pub fn message(&self) -> (r: String)
        ensures
            r@ == message_of(*self),
    {
        match self {
            ServiceError::InvalidMetadata { detail } => detail.clone(),
            ServiceError::InvalidFormat { detail } => detail.clone(),
            ServiceError::PayloadTooLarge { limit, received } => {
                let mut s = String::from_str("Payload exceeds maximum size of ");
                push_decimal(&mut s, *limit);
                s.append(" bytes (received: ");
                push_decimal(&mut s, *received);
                s.append(" bytes)");
                s
            },
            ServiceError::NotFound { detail } => detail.clone(),
            ServiceError::StorageIo { detail } => detail.clone(),
            ServiceError::Unauthorized => String::from_str("Unauthorized: Invalid or missing API key"),
        }
    }

    /// The error that reports a refused payload of `kind`.
    pub fn from_ingest(e: IngestError, kind: ArtifactKind) -> (r: ServiceError)
        ensures
            reports_ingest_error(r, e, kind),
    {
        match e {
            IngestError::PayloadTooLarge { limit, received } => ServiceError::PayloadTooLarge {
                limit,
                received,
            },
            IngestError::BadHeader => {
                let mut s = String::from_str("File is not a valid ");
                s.append(kind_noun_str(kind));
                s.append(" (invalid header)");
                ServiceError::InvalidFormat { detail: s }
            },
            IngestError::MissingHeader => {
                let mut s = String::from_str("Invalid or empty ");
                s.append(kind_noun_str(kind));
                s.append(" file");
                ServiceError::InvalidFormat { detail: s }
            },
        }
    }
}

} // verus!
