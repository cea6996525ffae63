use kehrkraft::db::models::{join_names, person_effective_name, Ownership, Person, PersonRef};

fn person_ref(name: &str, display: Option<&str>) -> PersonRef {
    PersonRef {
        person_id: name.to_lowercase(),
        name: name.to_string(),
        display_name: display.map(str::to_string),
        email: format!("{}@example.com", name.to_lowercase()),
        position: 0,
    }
}

#[test]
fn display_name_wins_when_not_blank() {
    assert_eq!(person_effective_name("Anna Maier", Some(" Anni ")), "Anni");
    assert_eq!(person_effective_name("Anna Maier", Some("   ")), "Anna Maier");
    assert_eq!(person_effective_name("Anna Maier", None), "Anna Maier");
    let p = Person {
        id: "p".to_string(),
        name: "Ben".to_string(),
        display_name: Some("Benni".to_string()),
        email: "ben@example.com".to_string(),
        created_at: String::new(),
    };
    assert_eq!(p.effective_name(), "Benni");
}

#[test]
fn names_join_with_commas_and_ampersand() {
    let v = |s: &[&str]| s.iter().map(|x| x.to_string()).collect::<Vec<String>>();
    assert_eq!(join_names(&v(&[])), "");
    assert_eq!(join_names(&v(&["A"])), "A");
    assert_eq!(join_names(&v(&["A", "B"])), "A & B");
    assert_eq!(join_names(&v(&["A", "B", "C"])), "A, B & C");
}

#[test]
fn ownership_label_lists_its_owners() {
    let o = Ownership {
        id: "o".to_string(),
        apartment_id: "a".to_string(),
        start_date: "2024-01-01".to_string(),
        end_date: None,
        created_at: String::new(),
        people: vec![person_ref("Anna", None), person_ref("Ben", Some("Benni"))],
    };
    assert_eq!(o.label(), "Anna & Benni");
    assert_eq!(o.people_names(), vec!["Anna".to_string(), "Benni".to_string()]);
}
