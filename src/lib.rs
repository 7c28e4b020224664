//! Ingestion and identity matching for crash artifacts: crash dumps,
//! debug-symbol files and executable images.
//!
//! - [`layout`]: where each artifact is stored, and path sanitization.
//! - [`ingest`]: streaming validation of a payload under a byte ceiling.
//! - [`upload`]: an upload session, from multipart parts to a catalog record.
//! - [`catalog`]: filtered, paginated listing queries over crash reports.
//! - [`resolver`]: finding the symbol file of a crash, PE identity first.
//! - [`download`]: serving a stored artifact by identifier.
//! - [`api`]: errors, their statuses, and the response envelope.
//! - [`config`]: settings and the shared-secret rule.
pub mod api;
pub mod artifact;
pub mod catalog;
pub mod config;
pub mod download;
pub mod ingest;
pub mod layout;
pub mod resolver;
pub mod text;
pub mod upload;
