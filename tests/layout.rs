use crash_server::artifact::ArtifactKind;
use crash_server::layout::{join, FileStorage};

fn storage() -> FileStorage {
    FileStorage::new("/data", 10 * 1024 * 1024, 100 * 1024 * 1024)
}

#[test]
fn minidump_path_follows_build_identity() {
    let s = storage();
    assert_eq!(
        s.get_minidump_path("1.0", "abc", 3, "crash.dmp"),
        "/data/dumps/1.0/abc_3/crash.dmp"
    );
}

#[test]
fn pdb_path_follows_build_identity() {
    let s = storage();
    assert_eq!(
        s.get_pdb_path("2.1.0", "F00D", 12, "app.pdb"),
        "/data/symbols/2.1.0/F00D_12/app.pdb"
    );
}

#[test]
fn exe_path_has_no_age() {
    let s = storage();
    assert_eq!(
        s.get_exe_path("1.0", "abc123", "app.exe"),
        "/data/images/1.0/abc123/app.exe"
    );
}

#[test]
fn negative_age_keeps_its_sign() {
    let s = storage();
    assert_eq!(
        s.get_minidump_path("1.0", "g", -7, "f"),
        "/data/dumps/1.0/g_-7/f"
    );
    assert_eq!(
        s.get_pdb_path("1.0", "g", i32::MIN, "f"),
        "/data/symbols/1.0/g_-2147483648/f"
    );
}

#[test]
fn root_with_trailing_slash_gets_no_second_one() {
    let s = FileStorage::new("data/", 1, 1);
    assert_eq!(s.get_exe_path("v", "g", "f"), "data/images/v/g/f");
    assert_eq!(join("", "x"), "x");
    assert_eq!(join("a", "b"), "a/b");
}

#[test]
fn kind_directories() {
    let s = storage();
    assert_eq!(s.kind_directory(ArtifactKind::Report), "/data/dumps");
    assert_eq!(s.kind_directory(ArtifactKind::Symbol), "/data/symbols");
    assert_eq!(s.kind_directory(ArtifactKind::Image), "/data/images");
}

#[test]
fn sanitized_path_accepts_nested_relative_paths() {
    let s = storage();
    assert_eq!(
        s.get_sanitized_path("dumps", "1.0/abc_1/x.dmp"),
        Some("/data/dumps/1.0/abc_1/x.dmp".to_string())
    );
    assert_eq!(
        s.get_sanitized_path("symbols", "..a/b..c"),
        Some("/data/symbols/..a/b..c".to_string())
    );
    assert_eq!(
        s.get_sanitized_path("dumps", "./x"),
        Some("/data/dumps/./x".to_string())
    );
}

#[test]
fn sanitized_path_rejects_parent_components() {
    let s = storage();
    assert_eq!(s.get_sanitized_path("dumps", "../etc/passwd"), None);
    assert_eq!(s.get_sanitized_path("dumps", "a/../../b"), None);
    assert_eq!(s.get_sanitized_path("dumps", "a/.."), None);
    assert_eq!(s.get_sanitized_path("dumps", ".."), None);
}

#[test]
fn sanitized_path_rejects_absolute_and_empty_paths() {
    let s = storage();
    assert_eq!(s.get_sanitized_path("dumps", "/etc/passwd"), None);
    assert_eq!(s.get_sanitized_path("dumps", ""), None);
    assert_eq!(s.get_sanitized_path("dumps", "."), None);
    assert_eq!(s.get_sanitized_path("dumps", "./"), None);
    assert_eq!(s.get_sanitized_path("dumps", "a//"), Some("/data/dumps/a//".to_string()));
}

#[test]
fn size_ceilings() {
    let s = FileStorage::new("/data", 10, 20);
    assert_eq!(s.get_max_minidump_size(), 10);
    assert_eq!(s.get_max_pdb_size(), 20);
    assert_eq!(s.size_limit(ArtifactKind::Report), 10);
    assert_eq!(s.size_limit(ArtifactKind::Symbol), 20);
    assert_eq!(s.size_limit(ArtifactKind::Image), 20);
}
