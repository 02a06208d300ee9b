use backup_tar::scan::{
    build_exclude_patterns, classify_path, is_path_excluded, starts_with_separator,
    strip_separator_suffix, EntryKind, ScanAction, ScanError,
};

fn strings(v: &[&str]) -> Vec<String> {
    v.iter().map(|s| s.to_string()).collect()
}

#[test]
fn relative_exclude_is_invalid_input() {
    let r = build_exclude_patterns(strings(&["/ok", "data/tmp"]));
    assert_eq!(r.err(), Some(ScanError::InvalidInput));
}

#[test]
fn empty_exclude_is_invalid_input() {
    let r = build_exclude_patterns(strings(&[""]));
    assert_eq!(r.err(), Some(ScanError::InvalidInput));
}

#[test]
fn relative_exclude_wins_over_malformed_one() {
    let r = build_exclude_patterns(strings(&["/a/***", "rel"]));
    assert_eq!(r.err(), Some(ScanError::InvalidInput));
}

#[test]
fn malformed_exclude_is_bad_pattern() {
    let r = build_exclude_patterns(strings(&["/a/***"]));
    assert_eq!(r.err(), Some(ScanError::BadPattern));
}

#[test]
fn trailing_separator_is_stripped() {
    let p = build_exclude_patterns(strings(&["/data/tmp/", "/x"])).unwrap();
    assert_eq!(p.len(), 2);
    assert_eq!(p[0].as_str(), "/data/tmp");
    assert_eq!(p[1].as_str(), "/x");
    assert!(is_path_excluded(&p, "/data/tmp"));
}

#[test]
fn excluded_directory_is_pruned() {
    let p = build_exclude_patterns(strings(&["/data/tmp"])).unwrap();
    assert_eq!(classify_path(&p, "/data/tmp", EntryKind::Directory), ScanAction::Skip);
    assert_eq!(classify_path(&p, "/data/tmp", EntryKind::File), ScanAction::Skip);
    assert_eq!(classify_path(&p, "/data", EntryKind::Directory), ScanAction::Walk);
    assert_eq!(classify_path(&p, "/data/a", EntryKind::File), ScanAction::Emit);
    assert_eq!(classify_path(&p, "/data/tmp2", EntryKind::File), ScanAction::Emit);
    assert_eq!(classify_path(&p, "/data/link", EntryKind::Other), ScanAction::Skip);
}

#[test]
fn wildcard_exclude_matches() {
    let p = build_exclude_patterns(strings(&["/data/*.log"])).unwrap();
    assert!(is_path_excluded(&p, "/data/x.log"));
    assert!(!is_path_excluded(&p, "/data/x.txt"));
}

#[test]
fn no_excludes_exclude_nothing() {
    let p = build_exclude_patterns(Vec::new()).unwrap();
    assert!(p.is_empty());
    assert!(!is_path_excluded(&p, "/anything"));
    assert_eq!(classify_path(&p, "/f", EntryKind::File), ScanAction::Emit);
}

#[test]
fn separator_helpers() {
    assert!(starts_with_separator("/a"));
    assert!(!starts_with_separator("a/"));
    assert!(!starts_with_separator(""));
    assert_eq!(strip_separator_suffix("/a/"), "/a");
    assert_eq!(strip_separator_suffix("/a//"), "/a/");
    assert_eq!(strip_separator_suffix("/a"), "/a");
    assert_eq!(strip_separator_suffix(""), "");
}
