use crash_server::artifact::Pdb;
use crash_server::resolver::{FindPdbParams, MatchTier, ResolveStep, SymbolLookup};

fn pdb(id: &str, version: &str, guid: &str, age: i32, ts: Option<u32>, size: Option<u32>) -> Pdb {
    Pdb {
        id: id.to_string(),
        exe_version: version.to_string(),
        exe_guid: guid.to_string(),
        exe_age: age,
        pdb_filename: "app.pdb".to_string(),
        file_path: format!("/data/symbols/{}/{}_{}/app.pdb", version, guid, age),
        uploaded_at: "2024-01-01T00:00:00+00:00".to_string(),
        exe_time_date_stamp: ts,
        exe_size_of_image: size,
    }
}

/// Answers a lookup from rows the way the catalog does: the first row that
/// satisfies it.
fn lookup(rows: &[Pdb], l: &SymbolLookup) -> Option<Pdb> {
    rows.iter()
        .find(|p| match l {
            SymbolLookup::ByPeIdentity { time_date_stamp, size_of_image } => {
                p.exe_time_date_stamp == Some(*time_date_stamp)
                    && p.exe_size_of_image == Some(*size_of_image)
            }
            SymbolLookup::ByComposite { exe_version, exe_guid, exe_age } => {
                &p.exe_version == exe_version && &p.exe_guid == exe_guid && p.exe_age == *exe_age
            }
        })
        .cloned()
}

fn resolve(q: &FindPdbParams, rows: &[Pdb]) -> ResolveStep {
    let mut step = q.first_step();
    loop {
        match step {
            ResolveStep::Lookup(l) => {
                let found = lookup(rows, &l);
                step = q.next_step(&l, found);
            }
            done => return done,
        }
    }
}

fn query(
    version: Option<&str>,
    guid: Option<&str>,
    age: Option<i32>,
    ts: Option<u32>,
    size: Option<u32>,
) -> FindPdbParams {
    FindPdbParams {
        exe_version: version.map(|s| s.to_string()),
        exe_guid: guid.map(|s| s.to_string()),
        exe_age: age,
        exe_time_date_stamp: ts,
        exe_size_of_image: size,
    }
}

#[test]
fn pe_identity_outranks_composite_identity() {
    let rows = vec![
        pdb("composite", "1.0", "abc", 1, None, None),
        pdb("pe", "0.9", "zzz", 7, Some(1000), Some(2000)),
    ];
    let q = query(Some("1.0"), Some("abc"), Some(1), Some(1000), Some(2000));
    match q.first_step() {
        ResolveStep::Lookup(SymbolLookup::ByPeIdentity { time_date_stamp, size_of_image }) => {
            assert_eq!((time_date_stamp, size_of_image), (1000, 2000));
        }
        other => panic!("unexpected first step {:?}", other),
    }
    match resolve(&q, &rows) {
        ResolveStep::Matched(p, tier) => {
            assert_eq!(p.id, "pe");
            assert_eq!(tier, MatchTier::PeIdentity);
        }
        other => panic!("unexpected outcome {:?}", other),
    }
}

#[test]
fn composite_fallback_without_pe_fields() {
    let rows = vec![
        pdb("other", "1.0", "abc", 2, Some(1000), Some(2000)),
        pdb("match", "1.0", "abc", 1, None, None),
    ];
    let q = query(Some("1.0"), Some("abc"), Some(1), None, None);
    match q.first_step() {
        ResolveStep::Lookup(SymbolLookup::ByComposite { exe_version, exe_guid, exe_age }) => {
            assert_eq!((exe_version.as_str(), exe_guid.as_str(), exe_age), ("1.0", "abc", 1));
        }
        other => panic!("unexpected first step {:?}", other),
    }
    match resolve(&q, &rows) {
        ResolveStep::Matched(p, tier) => {
            assert_eq!(p.id, "match");
            assert_eq!(tier, MatchTier::Composite);
        }
        other => panic!("unexpected outcome {:?}", other),
    }
    let q = query(Some("1.0"), Some("abc"), Some(9), None, None);
    assert!(matches!(resolve(&q, &rows), ResolveStep::NoMatch));
}

#[test]
fn pe_miss_falls_back_to_composite() {
    let rows = vec![pdb("match", "1.0", "abc", 1, None, None)];
    let q = query(Some("1.0"), Some("abc"), Some(1), Some(5), Some(6));
    match resolve(&q, &rows) {
        ResolveStep::Matched(p, tier) => {
            assert_eq!(p.id, "match");
            assert_eq!(tier, MatchTier::Composite);
        }
        other => panic!("unexpected outcome {:?}", other),
    }
}

#[test]
fn missing_version_is_looked_up_as_empty() {
    let q = query(None, Some("abc"), Some(1), None, None);
    match q.first_step() {
        ResolveStep::Lookup(SymbolLookup::ByComposite { exe_version, .. }) => {
            assert_eq!(exe_version, "");
        }
        other => panic!("unexpected first step {:?}", other),
    }
}

#[test]
fn half_a_pe_identity_is_not_used() {
    let q = query(None, None, None, Some(1000), None);
    assert!(matches!(q.first_step(), ResolveStep::NoMatch));
    let q = query(None, Some("abc"), None, None, Some(2000));
    assert!(matches!(q.first_step(), ResolveStep::NoMatch));
}

#[test]
fn crash_pe_identity_finds_symbol_of_other_build_identity() {
    let rows = vec![pdb("sym", "2.0", "other-guid", 5, Some(1000), Some(2000))];
    let q = query(None, None, None, Some(1000), Some(2000));
    match resolve(&q, &rows) {
        ResolveStep::Matched(p, tier) => {
            assert_eq!(p.id, "sym");
            assert_eq!(tier, MatchTier::PeIdentity);
            assert_eq!(tier.message(), "Matching PDB found (by PE info)");
        }
        other => panic!("unexpected outcome {:?}", other),
    }
    assert_eq!(MatchTier::Composite.message(), "Matching PDB found (by GUID+Age)");
}
