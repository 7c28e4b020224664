use crash_server::catalog::{page_count, MinidumpListing, MinidumpQueryParams, PageRequest};

fn params() -> MinidumpQueryParams {
    MinidumpQueryParams {
        version: None,
        guid: None,
        start_time: None,
        end_time: None,
        page: None,
        page_size: None,
    }
}

#[test]
fn count_without_filter() {
    let q = params().count_query();
    assert_eq!(q.sql, "SELECT COUNT(*) FROM minidumps");
    assert!(q.params.is_empty());
}

#[test]
fn count_with_every_condition() {
    let mut p = params();
    p.version = Some("1.0".to_string());
    p.guid = Some("abc".to_string());
    p.start_time = Some("2024-01-01T00:00:00+00:00".to_string());
    p.end_time = Some("2024-02-01T00:00:00+00:00".to_string());
    let q = p.count_query();
    assert_eq!(
        q.sql,
        "SELECT COUNT(*) FROM minidumps WHERE exe_version = ? AND exe_guid = ? AND timestamp >= ? AND timestamp <= ?"
    );
    assert_eq!(
        q.params,
        vec![
            "1.0".to_string(),
            "abc".to_string(),
            "2024-01-01T00:00:00+00:00".to_string(),
            "2024-02-01T00:00:00+00:00".to_string()
        ]
    );
}

#[test]
fn list_shares_the_count_filter() {
    let mut p = params();
    p.guid = Some("abc".to_string());
    p.end_time = Some("2024-02-01".to_string());
    let req = PageRequest { page: 3, page_size: 20 };
    let list = p.list_query(req);
    let count = p.count_query();
    assert_eq!(
        list.sql,
        "SELECT id, timestamp, exe_version, exe_guid, exe_age, pid, tid, exception_code, exception_address, file_path, created_at, exe_time_date_stamp, exe_size_of_image FROM minidumps WHERE exe_guid = ? AND timestamp <= ? ORDER BY timestamp DESC LIMIT 20 OFFSET 40"
    );
    assert_eq!(list.params, count.params);
    assert_eq!(list.params, vec!["abc".to_string(), "2024-02-01".to_string()]);
}

#[test]
fn page_request_defaults_and_clamps() {
    let r = params().page_request();
    assert_eq!(r, PageRequest { page: 1, page_size: 20 });
    let mut p = params();
    p.page = Some(0);
    p.page_size = Some(500);
    assert_eq!(p.page_request(), PageRequest { page: 1, page_size: 100 });
    p.page = Some(7);
    p.page_size = Some(5);
    assert_eq!(p.page_request(), PageRequest { page: 7, page_size: 5 });
}

#[test]
fn large_page_offset_does_not_overflow() {
    let req = PageRequest { page: u32::MAX, page_size: 100 };
    let q = params().list_query(req);
    assert!(q.sql.ends_with("LIMIT 100 OFFSET 429496729400"));
}

#[test]
fn page_counts() {
    assert_eq!(page_count(0, 20), 0);
    assert_eq!(page_count(1, 20), 1);
    assert_eq!(page_count(40, 20), 2);
    assert_eq!(page_count(45, 20), 3);
    assert_eq!(page_count(u32::MAX, 1), u32::MAX);
    assert_eq!(page_count(u32::MAX, 100), 42949673);
    assert_eq!(page_count(0, 0), 0);
    assert_eq!(page_count(5, 0), 0);
}

#[test]
fn listing_keeps_at_most_a_page() {
    let req = PageRequest { page: 2, page_size: 0 };
    let l = MinidumpListing::new(Vec::new(), req, 45);
    assert_eq!(l.minidumps.len(), 0);
    assert_eq!(l.pages, 0);
    let req = PageRequest { page: 2, page_size: 20 };
    let l = MinidumpListing::new(Vec::new(), req, 45);
    assert_eq!((l.page, l.page_size, l.total, l.pages), (2, 20, 45, 3));
}

fn dump(id: &str) -> crash_server::artifact::Minidump {
    crash_server::artifact::Minidump {
        id: id.to_string(),
        timestamp: "2024-01-01T00:00:00Z".to_string(),
        exe_version: "1.0".to_string(),
        exe_guid: "g".to_string(),
        exe_age: 1,
        pid: 1,
        tid: 1,
        exception_code: "c".to_string(),
        exception_address: None,
        file_path: "/p".to_string(),
        created_at: "t".to_string(),
        exe_time_date_stamp: None,
        exe_size_of_image: None,
    }
}

#[test]
fn listing_drops_rows_beyond_the_page() {
    let req = PageRequest { page: 1, page_size: 2 };
    let l = MinidumpListing::new(vec![dump("a"), dump("b"), dump("c")], req, 3);
    let ids: Vec<&str> = l.minidumps.iter().map(|m| m.id.as_str()).collect();
    assert_eq!(ids, vec!["a", "b"]);
    assert_eq!(l.pages, 2);
    let l = MinidumpListing::new(vec![dump("c")], PageRequest { page: 2, page_size: 2 }, 3);
    assert_eq!(l.minidumps.len(), 1);
}
