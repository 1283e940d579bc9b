use loadtest_core::utils::{DisplayVec, GooseUserData, truncate_middle, urn_uuid};

#[test]
fn empty_fits_any_width() {
    assert_eq!("", truncate_middle("", 0));
    assert_eq!("", truncate_middle("", 1));
}

#[test]
fn simple() {
    assert_eq!("", truncate_middle("", 8));
    assert_eq!("0123456", truncate_middle("0123456", 8));
    assert_eq!("01234567", truncate_middle("01234567", 8));
    assert_eq!("012…5678", truncate_middle("012345678", 8),);
    assert_eq!("012…5678", truncate_middle("012345678012345678", 8));
}

#[test]
fn display_vec_joins_with_commas() {
    let v = DisplayVec(vec!["pkg:a".to_string(), "pkg:b".to_string()]);
    assert_eq!(v.to_display_string(), "pkg:a,pkg:b");
    let empty: DisplayVec<String> = DisplayVec(vec![]);
    assert_eq!(empty.to_display_string(), "");
}

#[test]
fn urn_prefix() {
    assert_eq!(urn_uuid("1234"), "urn:uuid:1234");
}

#[test]
fn session_data_advisory_id() {
    let with = GooseUserData { advisory_id: Some("a1".to_string()), total_advisories: Some(5) };
    assert_eq!(with.stored_advisory_id(), Some("a1".to_string()));
    let without = GooseUserData { advisory_id: None, total_advisories: None };
    assert_eq!(without.stored_advisory_id(), None);
}
