use crash_server::api::{ApiResponse, ServiceError};
use crash_server::artifact::{ArtifactKind, ArtifactRecord, Exe, Minidump};
use crash_server::config::ServerConfig;
use crash_server::download::{missing_file, plan_download};
use crash_server::ingest::IngestError;
use crash_server::resolver::{no_symbol_match, resolve_image};

#[test]
fn envelope_success_and_error() {
    let ok = ApiResponse::success(5u32);
    assert!(ok.success);
    assert_eq!(ok.data, Some(5));
    assert_eq!(ok.error, None);
    let err: ApiResponse<u32> = ApiResponse::error("boom".to_string());
    assert!(!err.success);
    assert_eq!(err.data, None);
    assert_eq!(err.error, Some("boom".to_string()));
}

#[test]
fn status_codes() {
    let d = || "x".to_string();
    assert_eq!(ServiceError::InvalidMetadata { detail: d() }.status_code(), 400);
    assert_eq!(ServiceError::InvalidFormat { detail: d() }.status_code(), 400);
    assert_eq!(ServiceError::PayloadTooLarge { limit: 1, received: 2 }.status_code(), 413);
    assert_eq!(ServiceError::NotFound { detail: d() }.status_code(), 404);
    assert_eq!(ServiceError::StorageIo { detail: d() }.status_code(), 500);
    assert_eq!(ServiceError::Unauthorized.status_code(), 401);
}

#[test]
fn messages() {
    assert_eq!(
        ServiceError::PayloadTooLarge { limit: 10485760, received: 10485761 }.message(),
        "Payload exceeds maximum size of 10485760 bytes (received: 10485761 bytes)"
    );
    assert_eq!(
        ServiceError::Unauthorized.message(),
        "Unauthorized: Invalid or missing API key"
    );
    assert_eq!(ServiceError::StorageIo { detail: "disk".to_string() }.message(), "disk");
}

#[test]
fn ingest_errors_map_to_service_errors() {
    assert_eq!(
        ServiceError::from_ingest(IngestError::BadHeader, ArtifactKind::Image),
        ServiceError::InvalidFormat { detail: "File is not a valid EXE (invalid header)".to_string() }
    );
    assert_eq!(
        ServiceError::from_ingest(IngestError::MissingHeader, ArtifactKind::Symbol),
        ServiceError::InvalidFormat { detail: "Invalid or empty PDB file".to_string() }
    );
    assert_eq!(
        ServiceError::from_ingest(
            IngestError::PayloadTooLarge { limit: 3, received: 9 },
            ArtifactKind::Report
        ),
        ServiceError::PayloadTooLarge { limit: 3, received: 9 }
    );
}

#[test]
fn api_key_rules() {
    let open = ServerConfig { port: 1, host: "h".to_string(), api_key: None };
    assert!(open.authorizes("/upload/report", None));
    let guarded = ServerConfig { port: 1, host: "h".to_string(), api_key: Some("s3cret".to_string()) };
    assert!(guarded.authorizes("/health", None));
    assert!(guarded.authorizes("/list/reports", Some("s3cret")));
    assert!(!guarded.authorizes("/list/reports", Some("s3cre")));
    assert!(!guarded.authorizes("/list/reports", None));
}

fn exe() -> Exe {
    Exe {
        id: "e1".to_string(),
        exe_version: "1.0".to_string(),
        exe_guid: "abc123".to_string(),
        exe_filename: "app.exe".to_string(),
        file_path: "/data/images/1.0/abc123/app.exe".to_string(),
        uploaded_at: "t".to_string(),
    }
}

#[test]
fn download_plans() {
    let plan = plan_download(ArtifactKind::Image, "e1", Some(ArtifactRecord::Image(exe()))).unwrap();
    assert_eq!(plan.path, "/data/images/1.0/abc123/app.exe");
    assert_eq!(plan.content_disposition, "attachment; filename=\"app.exe\"");
    let dump = Minidump {
        id: "d1".to_string(),
        timestamp: "t".to_string(),
        exe_version: "1".to_string(),
        exe_guid: "g".to_string(),
        exe_age: 1,
        pid: 1,
        tid: 2,
        exception_code: "c".to_string(),
        exception_address: None,
        file_path: "/p".to_string(),
        created_at: "t".to_string(),
        exe_time_date_stamp: None,
        exe_size_of_image: None,
    };
    let plan = plan_download(ArtifactKind::Report, "d1", Some(ArtifactRecord::Report(dump))).unwrap();
    assert_eq!(plan.content_disposition, "attachment; filename=\"d1.dmp\"");
}

#[test]
fn download_not_found() {
    assert_eq!(
        plan_download(ArtifactKind::Symbol, "nope", None).unwrap_err(),
        ServiceError::NotFound { detail: "PDB not found with ID: nope".to_string() }
    );
    assert!(matches!(
        plan_download(ArtifactKind::Symbol, "e1", Some(ArtifactRecord::Image(exe()))),
        Err(ServiceError::NotFound { .. })
    ));
    assert_eq!(
        missing_file(ArtifactKind::Report),
        ServiceError::NotFound { detail: "Minidump file not found on disk".to_string() }
    );
}

#[test]
fn lookups_without_match() {
    assert_eq!(
        no_symbol_match(),
        ServiceError::NotFound { detail: "No matching PDB found".to_string() }
    );
    assert_eq!(
        resolve_image(None),
        Err(ServiceError::NotFound {
            detail: "No matching EXE found for the given GUID".to_string()
        })
    );
}

#[test]
fn kinds_by_route_name() {
    assert_eq!(ArtifactKind::from_route_name("report"), Some(ArtifactKind::Report));
    assert_eq!(ArtifactKind::from_route_name("minidump"), Some(ArtifactKind::Report));
    assert_eq!(ArtifactKind::from_route_name("symbol"), Some(ArtifactKind::Symbol));
    assert_eq!(ArtifactKind::from_route_name("pdb"), Some(ArtifactKind::Symbol));
    assert_eq!(ArtifactKind::from_route_name("image"), Some(ArtifactKind::Image));
    assert_eq!(ArtifactKind::from_route_name("exe"), Some(ArtifactKind::Image));
    assert_eq!(ArtifactKind::from_route_name("dump"), None);
}
