use chrono::{Datelike, NaiveDate, Weekday};
use kehrkraft::dates::Date;
use kehrkraft::db::models::{Apartment, Building, Person, PersonRoleRow};
use kehrkraft::scheduler::WeekAssignment;
use kehrkraft::web::admin::{
    administrator_input, apartment_owner_input, apartment_rows, building_owner_form_template,
    building_owner_input, creation_step, normalize_end_date, person_index_entries, person_role,
    role_label, roles_summary, rotation_seed_options, schedule_rows, upcoming_weeks,
    BuildingOwnerConfirmation, BuildingOwnerForm, BuildingOwnerFormNotice, CreateApartmentForm,
    CreateBuildingForm, CreationStep, PeriodKind, PersonRole, UpdateBuildingForm,
};

/// The Monday of an ISO week, as chrono computes it.
fn iso_monday(year: i32, iso_week: u32) -> Option<Date> {
    NaiveDate::from_isoywd_opt(year, iso_week, Weekday::Mon).map(|d| Date {
        days: d.num_days_from_ce(),
    })
}

#[test]
fn options_cover_exactly_zero_to_n_minus_one() {
    assert_eq!(
        rotation_seed_options(0, 3),
        vec![(0, true), (1, false), (2, false)]
    );
}

#[test]
fn options_include_out_of_range_current() {
    assert_eq!(
        rotation_seed_options(12, 3),
        vec![(0, false), (1, false), (2, false), (12, true)]
    );
}

#[test]
fn apartmentless_building_offers_only_zero() {
    assert_eq!(rotation_seed_options(0, 0), vec![(0, true)]);
    assert_eq!(rotation_seed_options(5, 0), vec![(5, true)]);
}

#[test]
fn negative_current_is_appended() {
    assert_eq!(rotation_seed_options(-1, 2), vec![(0, false), (1, false), (-1, true)]);
}

fn week(year: i32, iso_week: u32, name: Option<&str>) -> WeekAssignment {
    let start = iso_monday(year, iso_week).unwrap();
    WeekAssignment {
        year,
        iso_week,
        start,
        end: Date { days: start.days + 6 },
        assignee_id: None,
        assignee_name: name.map(str::to_string),
        assignee_email: None,
        delegated: name.is_some(),
    }
}

#[test]
fn schedule_rows_mark_the_running_week() {
    let weeks = vec![week(2026, 11, Some("Anna")), week(2026, 12, None)];
    let today = Date { days: weeks[1].start.days + 3 };
    let rows = schedule_rows(weeks, today);
    assert_eq!(rows.len(), 2);
    assert_eq!(rows[0].start, "09.03.2026");
    assert_eq!(rows[0].end, "15.03.2026");
    assert_eq!(rows[0].assignee_name.as_deref(), Some("Anna"));
    assert!(rows[0].delegated);
    assert!(!rows[0].is_current);
    assert!(rows[1].is_current);
    assert_eq!(rows[1].iso_week, 12);
}

#[test]
fn upcoming_weeks_skip_ended_ones_and_stop_at_twelve() {
    let weeks: Vec<WeekAssignment> = (1..=53).map(|w| week(2026, w, None)).collect();
    let today = Date { days: weeks[10].end.days };
    let up = upcoming_weeks(weeks, today);
    assert_eq!(up.len(), 12);
    assert_eq!(up[0].iso_week, 11);
    assert_eq!(up[11].iso_week, 22);
    let weeks: Vec<WeekAssignment> = (50..=53).map(|w| week(2026, w, None)).collect();
    let today = Date { days: weeks[0].start.days };
    assert_eq!(upcoming_weeks(weeks, today).len(), 4);
}

fn apartment(id: &str, name: &str, created_at: &str) -> Apartment {
    Apartment {
        id: id.to_string(),
        building_id: "b".to_string(),
        name: name.to_string(),
        description: String::new(),
        position: 0,
        created_at: created_at.to_string(),
    }
}

#[test]
fn apartment_rows_rank_by_creation_and_plate_the_initial() {
    let apts = vec![
        apartment("z", "ölberg", "2024-01-03"),
        apartment("a", "erdgeschoss", "2024-01-01"),
        apartment("m", "", "2024-01-01"),
    ];
    let rows = apartment_rows(apts);
    assert_eq!(rows[0].rotation, 3);
    assert_eq!(rows[1].rotation, 1);
    assert_eq!(rows[2].rotation, 2);
    assert_eq!(rows[0].plate, "Ö");
    assert_eq!(rows[1].plate, "E");
    assert_eq!(rows[2].plate, "");
    assert_eq!(rows[0].apartment.id, "z");
}

fn role_row(kind: &str) -> PersonRoleRow {
    PersonRoleRow {
        person_id: "p1".to_string(),
        person_name: "Anna".to_string(),
        person_email: "anna@example.com".to_string(),
        kind: kind.to_string(),
        building_id: Some("b1".to_string()),
        building_name: Some("Baumhaus".to_string()),
        apartment_id: Some("a1".to_string()),
        apartment_name: Some("EG links".to_string()),
        start_date: Some("2024-01-01".to_string()),
        end_date: None,
    }
}

#[test]
fn role_rows_become_labelled_roles() {
    let admin = person_role(role_row("admin"));
    assert!(matches!(admin, PersonRole::Admin { .. }));
    assert_eq!(role_label(&admin), "Ansprechpartner von Baumhaus");
    let owner = person_role(role_row("building_owner"));
    assert_eq!(role_label(&owner), "Gebäudeeigentümer von Baumhaus");
    let apt = person_role(role_row("apartment_owner"));
    assert_eq!(role_label(&apt), "Eigentümer von EG links (Baumhaus)");
    let tenant = person_role(role_row("tenant"));
    assert_eq!(role_label(&tenant), "Mieter von EG links (Baumhaus)");
    match tenant {
        PersonRole::Tenant { start_date, end_date, apartment } => {
            assert_eq!(start_date, "2024-01-01");
            assert!(end_date.is_none());
            assert_eq!(apartment.building_id, "b1");
        }
        _ => panic!("tenant row must give a tenant role"),
    }
}

#[test]
fn role_summary_abbreviates_beyond_two() {
    assert_eq!(roles_summary(&[]), "");
    let one = vec![person_role(role_row("admin"))];
    assert_eq!(roles_summary(&one), "Ansprechpartner von Baumhaus");
    let four = vec![
        person_role(role_row("admin")),
        person_role(role_row("tenant")),
        person_role(role_row("building_owner")),
        person_role(role_row("apartment_owner")),
    ];
    assert_eq!(
        roles_summary(&four[..2]),
        "Ansprechpartner von Baumhaus · Mieter von EG links (Baumhaus)"
    );
    assert_eq!(
        roles_summary(&four),
        "Ansprechpartner von Baumhaus · Mieter von EG links (Baumhaus) · +2 weitere"
    );
}

#[test]
fn index_entries_group_roles_per_person() {
    let people = vec![
        Person {
            id: "p1".to_string(),
            name: "Anna".to_string(),
            display_name: None,
            email: "anna@example.com".to_string(),
            created_at: String::new(),
        },
        Person {
            id: "p2".to_string(),
            name: "Ben".to_string(),
            display_name: None,
            email: "ben@example.com".to_string(),
            created_at: String::new(),
        },
    ];
    let rows = vec![role_row("admin"), role_row("tenant")];
    let entries = person_index_entries(&people, &rows);
    assert_eq!(entries.len(), 2);
    assert_eq!(
        entries[0].roles_summary,
        "Ansprechpartner von Baumhaus · Mieter von EG links (Baumhaus)"
    );
    assert_eq!(entries[1].roles_summary, "");
    assert_eq!(entries[1].person.id, "p2");
}

#[test]
fn creation_asks_before_closing_the_previous_period() {
    match creation_step(PeriodKind::Ownership, Some(("o1", "Otto")), "2024-03-01", None) {
        CreationStep::AskToClose { previous_name, previous_end, new_start } => {
            assert_eq!(previous_name, "Otto");
            assert_eq!(previous_end, "2024-02-29");
            assert_eq!(new_start, "2024-03-01");
        }
        other => panic!("unexpected {other:?}"),
    }
    match creation_step(PeriodKind::Tenancy, Some(("t1", "Tina")), "2024-03-01", Some("yes")) {
        CreationStep::CreateClosingPrevious { previous_id, previous_end } => {
            assert_eq!(previous_id, "t1");
            assert_eq!(previous_end, "2024-02-29");
        }
        other => panic!("unexpected {other:?}"),
    }
    match creation_step(PeriodKind::BuildingOwner, Some(("g1", "Gerd")), "2024-01-01", Some("no")) {
        CreationStep::Declined { message } => assert_eq!(
            message,
            "Ohne das bisherige Gebäudeeigentum von Gerd am 2023-12-31 zu beenden, kann der neue Gebäudeeigentümer nicht angelegt werden."
        ),
        other => panic!("unexpected {other:?}"),
    }
    match creation_step(PeriodKind::Ownership, Some(("o1", "Otto")), "2024-01-01", Some("nein")) {
        CreationStep::Declined { message } => assert_eq!(
            message,
            "Ohne das bisherige Eigentum von Otto am 2023-12-31 zu beenden, kann das neue Eigentum nicht angelegt werden."
        ),
        other => panic!("unexpected {other:?}"),
    }
    assert!(matches!(
        creation_step(PeriodKind::Ownership, None, "2024-03-01", None),
        CreationStep::Create
    ));
    assert!(matches!(
        creation_step(PeriodKind::Ownership, Some(("o1", "Otto")), "März", None),
        CreationStep::Create
    ));
}

#[test]
fn owner_inputs_follow_the_form() {
    let mut form = CreateBuildingForm {
        name: "Haus".to_string(),
        description: String::new(),
        admin_name: String::new(),
        admin_email: String::new(),
        ownership_style: "apartments".to_string(),
        owner_name: "Olga".to_string(),
        owner_email: String::new(),
        owner_start_date: String::new(),
    };
    assert!(matches!(building_owner_input(&form), Ok(None)));
    form.ownership_style = "building".to_string();
    let owner = building_owner_input(&form).unwrap().unwrap();
    assert_eq!(owner.name, "Olga");
    assert!(owner.end_date.is_none());
    form.owner_name = "  ".to_string();
    assert_eq!(
        building_owner_input(&form).err().map(|e| e),
        Some("Für ein Gebäude mit einem einzigen Eigentümer müssen Name, E-Mail-Adresse und Beginn („Eigentum ab“) angegeben werden.".to_string())
    );

    let apt = CreateApartmentForm {
        name: "EG".to_string(),
        description: String::new(),
        owner_name: String::new(),
        owner_email: String::new(),
        owner_start_date: " ".to_string(),
        owner_end_date: Some(" 2030-01-01 ".to_string()),
    };
    assert!(apartment_owner_input(&apt, true).is_none());
    let owner = apartment_owner_input(&apt, false).unwrap();
    assert_eq!(owner.end_date, Some("2030-01-01"));
    assert_eq!(normalize_end_date(Some("   ")), None);
    assert_eq!(normalize_end_date(None), None);

    let upd = UpdateBuildingForm {
        name: "Haus".to_string(),
        description: String::new(),
        admin_name: " ".to_string(),
        admin_email: String::new(),
    };
    assert!(administrator_input(&upd).is_none());
}

#[test]
fn building_owner_form_targets_create_or_update() {
    let building = Building {
        id: "b1".to_string(),
        name: "Haus".to_string(),
        description: String::new(),
        secret_slug: "s".to_string(),
        rotation_seed: 0,
        created_at: String::new(),
        updated_at: String::new(),
    };
    let form = || BuildingOwnerForm {
        name: String::new(),
        email: String::new(),
        start_date: String::new(),
        end_date: None,
        close_previous: None,
    };
    let t = building_owner_form_template(
        "Neu".to_string(),
        building.clone(),
        Some(BuildingOwnerFormNotice::Confirmation(BuildingOwnerConfirmation {
            previous_name: "Gerd".to_string(),
            previous_end: "2023-12-31".to_string(),
            new_start: "2024-01-01".to_string(),
        })),
        form(),
        "b1",
        None,
        vec![],
    );
    assert_eq!(t.action, "/admin/buildings/b1/building_owners");
    assert_eq!(t.submit_label, "Eigentümer hinzufügen");
    assert_eq!(t.cancel_url, "/admin/buildings/b1");
    assert!(t.error.is_none());
    assert_eq!(t.confirmation.unwrap().previous_name, "Gerd");
    let t = building_owner_form_template(
        "Bearbeiten".to_string(),
        building,
        Some(BuildingOwnerFormNotice::Error("kaputt".to_string())),
        form(),
        "b1",
        Some("o9"),
        vec![],
    );
    assert_eq!(t.action, "/admin/buildings/b1/building_owners/o9");
    assert_eq!(t.submit_label, "Änderungen speichern");
    assert_eq!(t.error.as_deref(), Some("kaputt"));
}

#[test]
fn the_earliest_date_has_no_day_before() {
    assert!(matches!(
        creation_step(PeriodKind::Ownership, Some(("o1", "Otto")), "-262143-01-01", None),
        CreationStep::NoDayBefore
    ));
    match creation_step(PeriodKind::Tenancy, Some(("t1", "Tina")), "-262143-01-02", None) {
        CreationStep::AskToClose { previous_end, .. } => assert_eq!(previous_end, "-262143-01-01"),
        other => panic!("unexpected {other:?}"),
    }
}
