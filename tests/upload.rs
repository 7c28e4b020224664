use crash_server::api::ServiceError;
use crash_server::artifact::{ArtifactKind, ArtifactRecord};
use crash_server::ingest::{ChunkVerdict, IngestError};
use crash_server::layout::FileStorage;
use crash_server::resolver::resolve_image;
use crash_server::upload::{
    compact_time_str, dump_filename_of, field_role, target_path_of, ExeUploadMetadata, FieldRole,
    MinidumpUploadMetadata, PdbUploadMetadata, UploadMetadata, UploadSession,
};

fn storage() -> FileStorage {
    FileStorage::new("/data", 64, 64)
}

fn report_meta() -> MinidumpUploadMetadata {
    MinidumpUploadMetadata {
        timestamp: "2024-01-02T03:04:05Z".to_string(),
        exe_version: "1.0".to_string(),
        exe_guid: "abc".to_string(),
        exe_age: 1,
        pid: 12,
        tid: 34,
        exception_code: "0xC0000005".to_string(),
        exception_address: Some("0x1000".to_string()),
        exe_time_date_stamp: Some(1000),
        exe_size_of_image: Some(2000),
    }
}

fn image_meta() -> ExeUploadMetadata {
    ExeUploadMetadata {
        exe_version: "1.0".to_string(),
        exe_guid: "abc123".to_string(),
        exe_filename: "app.exe".to_string(),
    }
}

#[test]
fn crash_time_loses_separators() {
    assert_eq!(compact_time_str("2024-01-02T03:04:05Z"), "20240102030405");
    assert_eq!(compact_time_str(""), "");
}

#[test]
fn dump_file_name() {
    assert_eq!(dump_filename_of(&report_meta()), "crash_20240102030405_12_34.dmp");
    let mut m = report_meta();
    m.pid = -5;
    assert_eq!(dump_filename_of(&m), "crash_20240102030405_-5_34.dmp");
}

#[test]
fn field_roles() {
    assert_eq!(field_role(ArtifactKind::Report, "metadata"), FieldRole::Metadata);
    assert_eq!(field_role(ArtifactKind::Report, "binary"), FieldRole::Payload);
    assert_eq!(field_role(ArtifactKind::Report, "minidump"), FieldRole::Payload);
    assert_eq!(field_role(ArtifactKind::Symbol, "pdb"), FieldRole::Payload);
    assert_eq!(field_role(ArtifactKind::Image, "exe"), FieldRole::Payload);
    assert_eq!(field_role(ArtifactKind::Image, "pdb"), FieldRole::Ignored);
    assert_eq!(field_role(ArtifactKind::Report, "comment"), FieldRole::Ignored);
}

#[test]
fn image_upload_then_lookup_by_guid() {
    let s = storage();
    let mut session = UploadSession::new(ArtifactKind::Image);
    assert_eq!(session.accept_metadata(Ok(UploadMetadata::Image(image_meta()))), Ok(()));
    let (target, mut ingest) = session.begin_payload(&s).unwrap();
    assert_eq!(target.id.len(), 36);
    assert_eq!(target.path, "/data/images/1.0/abc123/app.exe");
    assert_eq!(ingest.push(&[0x4D, 0x5A, 0x90, 0x00]), ChunkVerdict::Write);
    assert_eq!(session.complete_payload(&ingest), Ok(4));
    let rec = session.finish().unwrap();
    let exe = match rec {
        ArtifactRecord::Image(e) => e,
        other => panic!("unexpected record {:?}", other),
    };
    assert_eq!(exe.id, target.id);
    assert_eq!(exe.exe_guid, "abc123");
    assert_eq!(exe.exe_filename, "app.exe");
    assert!(exe.uploaded_at.ends_with("+00:00"));
    assert_eq!(&exe.uploaded_at[10..11], "T");
    assert!([25, 29, 32, 35].contains(&exe.uploaded_at.len()));
    let found = resolve_image(Some(exe.clone())).unwrap();
    assert_eq!(found, exe);
}

#[test]
fn generated_ids_differ() {
    let s = storage();
    let mut a = UploadSession::new(ArtifactKind::Image);
    a.accept_metadata(Ok(UploadMetadata::Image(image_meta()))).unwrap();
    let mut b = UploadSession::new(ArtifactKind::Image);
    b.accept_metadata(Ok(UploadMetadata::Image(image_meta()))).unwrap();
    let (ta, _) = a.begin_payload(&s).unwrap();
    let (tb, _) = b.begin_payload(&s).unwrap();
    assert_ne!(ta.id, tb.id);
    assert_eq!(&ta.id[8..9], "-");
}

#[test]
fn report_upload_builds_record() {
    let s = storage();
    let mut session = UploadSession::new(ArtifactKind::Report);
    session.accept_metadata(Ok(UploadMetadata::Report(report_meta()))).unwrap();
    let (target, mut ingest) = session.begin_payload_with_id(&s, "id-1".to_string()).unwrap();
    assert_eq!(target.path, "/data/dumps/1.0/abc_1/crash_20240102030405_12_34.dmp");
    assert_eq!(ingest.push(b"MDMP...."), ChunkVerdict::Write);
    assert_eq!(session.complete_payload(&ingest), Ok(8));
    let rec = session.finish_at("2024-01-02T03:05:00+00:00".to_string()).unwrap();
    match rec {
        ArtifactRecord::Report(m) => {
            assert_eq!(m.id, "id-1");
            assert_eq!(m.timestamp, "2024-01-02T03:04:05Z");
            assert_eq!(m.pid, 12);
            assert_eq!(m.tid, 34);
            assert_eq!(m.exception_address, Some("0x1000".to_string()));
            assert_eq!(m.file_path, target.path);
            assert_eq!(m.created_at, "2024-01-02T03:05:00+00:00");
            assert_eq!(m.exe_time_date_stamp, Some(1000));
            assert_eq!(m.exe_size_of_image, Some(2000));
        }
        other => panic!("unexpected record {:?}", other),
    }
}

#[test]
fn symbol_upload_path_and_record() {
    let s = storage();
    let meta = PdbUploadMetadata {
        exe_version: "3.2".to_string(),
        exe_guid: "G".to_string(),
        exe_age: 2,
        pdb_filename: "app.pdb".to_string(),
        exe_time_date_stamp: None,
        exe_size_of_image: None,
    };
    let mut session = UploadSession::new(ArtifactKind::Symbol);
    session.accept_metadata(Ok(UploadMetadata::Symbol(meta))).unwrap();
    let (target, mut ingest) = session.begin_payload_with_id(&s, "p".to_string()).unwrap();
    assert_eq!(target.path, "/data/symbols/3.2/G_2/app.pdb");
    ingest.push(b"anything");
    session.complete_payload(&ingest).unwrap();
    match session.finish_at("now".to_string()).unwrap() {
        ArtifactRecord::Symbol(p) => {
            assert_eq!(p.pdb_filename, "app.pdb");
            assert_eq!(p.uploaded_at, "now");
            assert_eq!(p.file_path, "/data/symbols/3.2/G_2/app.pdb");
        }
        other => panic!("unexpected record {:?}", other),
    }
}

#[test]
fn payload_before_metadata_is_refused() {
    let s = storage();
    let mut session = UploadSession::new(ArtifactKind::Report);
    assert!(matches!(
        session.begin_payload(&s),
        Err(ServiceError::InvalidMetadata { .. })
    ));
    assert!(matches!(
        session.finish_at("t".to_string()),
        Err(ServiceError::InvalidMetadata { .. })
    ));
}

#[test]
fn unparsable_metadata_is_refused() {
    let mut session = UploadSession::new(ArtifactKind::Report);
    let r = session.accept_metadata(Err("expected value at line 1".to_string()));
    assert_eq!(
        r,
        Err(ServiceError::InvalidMetadata {
            detail: "Invalid metadata: expected value at line 1".to_string()
        })
    );
}

#[test]
fn second_metadata_and_other_kind_are_refused() {
    let mut session = UploadSession::new(ArtifactKind::Image);
    assert!(matches!(
        session.accept_metadata(Ok(UploadMetadata::Report(report_meta()))),
        Err(ServiceError::InvalidMetadata { .. })
    ));
    session.accept_metadata(Ok(UploadMetadata::Image(image_meta()))).unwrap();
    assert!(matches!(
        session.accept_metadata(Ok(UploadMetadata::Image(image_meta()))),
        Err(ServiceError::InvalidMetadata { .. })
    ));
}

#[test]
fn unsafe_file_name_is_refused() {
    let s = storage();
    let mut meta = image_meta();
    meta.exe_filename = "../../etc/cron.d/x".to_string();
    assert_eq!(target_path_of(&s, &UploadMetadata::Image(meta.clone())), None);
    let mut session = UploadSession::new(ArtifactKind::Image);
    session.accept_metadata(Ok(UploadMetadata::Image(meta))).unwrap();
    assert!(matches!(
        session.begin_payload(&s),
        Err(ServiceError::InvalidMetadata { .. })
    ));
    let mut meta = image_meta();
    meta.exe_version = "..".to_string();
    assert_eq!(target_path_of(&s, &UploadMetadata::Image(meta)), None);
    let mut m = report_meta();
    m.timestamp = "../x".to_string();
    assert_eq!(target_path_of(&s, &UploadMetadata::Report(m)), None);
}

#[test]
fn second_payload_is_refused() {
    let s = storage();
    let mut session = UploadSession::new(ArtifactKind::Image);
    session.accept_metadata(Ok(UploadMetadata::Image(image_meta()))).unwrap();
    session.begin_payload(&s).unwrap();
    assert!(matches!(
        session.begin_payload(&s),
        Err(ServiceError::InvalidFormat { .. })
    ));
}

#[test]
fn rejected_payload_is_reported_and_not_recorded() {
    let s = storage();
    let mut session = UploadSession::new(ArtifactKind::Report);
    session.accept_metadata(Ok(UploadMetadata::Report(report_meta()))).unwrap();
    let (_, mut ingest) = session.begin_payload(&s).unwrap();
    assert_eq!(
        ingest.push(b"NOTADUMP"),
        ChunkVerdict::Reject(IngestError::BadHeader)
    );
    assert_eq!(
        session.complete_payload(&ingest),
        Err(ServiceError::InvalidFormat {
            detail: "File is not a valid minidump (invalid header)".to_string()
        })
    );
    assert!(matches!(
        session.finish_at("t".to_string()),
        Err(ServiceError::InvalidFormat { .. })
    ));
}

#[test]
fn oversized_payload_uses_kind_ceiling() {
    let s = FileStorage::new("/data", 8, 4);
    let mut session = UploadSession::new(ArtifactKind::Image);
    session.accept_metadata(Ok(UploadMetadata::Image(image_meta()))).unwrap();
    let (_, mut ingest) = session.begin_payload(&s).unwrap();
    ingest.push(b"MZ");
    ingest.push(b"123");
    assert_eq!(
        session.complete_payload(&ingest),
        Err(ServiceError::PayloadTooLarge { limit: 4, received: 5 })
    );
}
