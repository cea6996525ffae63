use kehrkraft::db::queries::{contact_given, gen_token, reorder_acceptable};

#[test]
fn tokens_are_url_safe_and_fresh() {
    let a = gen_token();
    let b = gen_token();
    assert_eq!(a.len(), 22);
    assert!(a
        .chars()
        .all(|c| c.is_ascii_alphanumeric() || c == '-' || c == '_'));
    assert_ne!(a, b);
}

#[test]
fn contact_is_given_by_name_or_email() {
    assert!(!contact_given("", "  "));
    assert!(contact_given("Anna", ""));
    assert!(contact_given(" ", "a@b.c"));
}

#[test]
fn reorder_rejects_wrong_sets() {
    let ids = |v: &[&str]| v.iter().map(|s| s.to_string()).collect::<Vec<String>>();
    assert!(reorder_acceptable(3, &ids(&["a", "b", "c"])));
    assert!(!reorder_acceptable(2, &ids(&["a", "b", "c"])));
    assert!(!reorder_acceptable(3, &ids(&["a", "b", "a"])));
    assert!(!reorder_acceptable(-1, &ids(&[])));
    assert!(reorder_acceptable(0, &ids(&[])));
}
