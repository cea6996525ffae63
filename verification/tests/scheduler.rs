use chrono::{Datelike, NaiveDate};
use kehrkraft::dates::Date;
use kehrkraft::db::models::Apartment;
use kehrkraft::scheduler::{
    global_week_index, parse_people, rotation_order, schedule_for_year, DatedPerson,
    PeriodRecord, ScheduleError, WeekAssignment,
};

fn d(s: &str) -> Date {
    Date {
        days: NaiveDate::parse_from_str(s, "%Y-%m-%d")
            .expect("date")
            .num_days_from_ce(),
    }
}

fn apartment(id: &str, created_at: &str) -> Apartment {
    Apartment {
        id: id.to_string(),
        building_id: "b".to_string(),
        name: id.to_string(),
        description: String::new(),
        position: 0,
        created_at: created_at.to_string(),
    }
}

fn period(apartment_id: &str, name: &str, start: &str, end: Option<&str>) -> DatedPerson {
    DatedPerson {
        id: format!("{name}-{start}"),
        apartment_id: apartment_id.to_string(),
        name: name.to_string(),
        email: format!("{name}@example.com"),
        start: d(start),
        end: end.map(d),
    }
}

fn names(s: &[WeekAssignment]) -> Vec<Option<&str>> {
    s.iter().map(|w| w.assignee_name.as_deref()).collect()
}

fn week_starting<'a>(s: &'a [WeekAssignment], date: &str) -> &'a WeekAssignment {
    let start = d(date);
    s.iter().find(|w| w.start == start).expect("week")
}

#[test]
fn single_owner_entire_year() {
    let apts = vec![apartment("A", "2024-01-01 00:00:00")];
    let owners = vec![period("A", "Alice", "2024-01-01", None)];
    let schedule = schedule_for_year(0, 2024, &apts, &owners, &vec![]);
    assert!(schedule.len() >= 52 && schedule.len() <= 53);
    assert!(schedule
        .iter()
        .all(|w| w.assignee_name.as_deref() == Some("Alice") && !w.delegated));
}

#[test]
fn no_apartments_means_unassigned() {
    let schedule = schedule_for_year(0, 2024, &vec![], &vec![], &vec![]);
    assert!(schedule.len() >= 52);
    assert!(schedule.iter().all(|w| w.assignee_name.is_none()));
}

#[test]
fn round_robin_rotates_between_apartments() {
    let apts = vec![
        apartment("A", "2024-01-01 00:00:00"),
        apartment("B", "2024-01-02 00:00:00"),
    ];
    let owners = vec![
        period("A", "Otto", "2024-01-01", None),
        period("B", "Petra", "2024-01-01", None),
    ];
    let schedule = schedule_for_year(0, 2024, &apts, &owners, &vec![]);
    assert!(schedule
        .iter()
        .enumerate()
        .all(|(i, w)| (i % 2 == 0) == (w.assignee_name.as_deref() == Some("Otto"))));
    assert!(schedule.iter().all(|w| !w.delegated));
}

#[test]
fn rotation_seed_shifts_the_rotation() {
    let apts = vec![
        apartment("A", "2024-01-01 00:00:00"),
        apartment("B", "2024-01-02 00:00:00"),
    ];
    let owners = vec![
        period("A", "Otto", "2024-01-01", None),
        period("B", "Petra", "2024-01-01", None),
    ];
    let schedule = schedule_for_year(1, 2024, &apts, &owners, &vec![]);
    assert!(schedule
        .iter()
        .enumerate()
        .all(|(i, w)| (i % 2 == 0) == (w.assignee_name.as_deref() == Some("Petra"))));
    // Shifting by the apartment count is no shift at all.
    let same = schedule_for_year(2, 2024, &apts, &owners, &vec![]);
    let base = schedule_for_year(0, 2024, &apts, &owners, &vec![]);
    assert_eq!(names(&same), names(&base));
}

#[test]
fn rotation_continues_across_years() {
    let apts = vec![
        apartment("A", "2024-01-01 00:00:00"),
        apartment("B", "2024-01-02 00:00:00"),
        apartment("C", "2024-01-03 00:00:00"),
    ];
    let owners = vec![
        period("A", "Alice", "2024-01-01", None),
        period("B", "Bob", "2024-01-01", None),
        period("C", "Carol", "2024-01-01", None),
    ];
    let s2024 = schedule_for_year(0, 2024, &apts, &owners, &vec![]);
    let s2025 = schedule_for_year(0, 2025, &apts, &owners, &vec![]);
    let count = |s: &[WeekAssignment], name: &str| {
        s.iter()
            .filter(|w| w.assignee_name.as_deref() == Some(name))
            .count()
    };
    assert_eq!(s2024[0].assignee_name.as_deref(), Some("Bob"));
    assert_eq!(count(&s2024, "Bob"), 18);
    assert_eq!(count(&s2024, "Carol"), 17);
    assert_eq!(s2025[0].assignee_name.as_deref(), Some("Carol"));
    assert_eq!(count(&s2025, "Bob"), 17);
    assert_eq!(count(&s2025, "Carol"), 18);
}

#[test]
fn owner_handover_mid_year_keeps_apartment_weeks() {
    let apts = vec![
        apartment("A", "2024-01-01 00:00:00"),
        apartment("B", "2024-01-02 00:00:00"),
    ];
    let before_owners = vec![
        period("A", "Alice", "2024-01-01", None),
        period("B", "Bob", "2024-01-01", None),
    ];
    let after_owners = vec![
        period("A", "Alice", "2024-01-01", None),
        period("B", "Bob", "2024-01-01", Some("2024-06-30")),
        period("B", "Bernice", "2024-07-01", None),
    ];
    let before = schedule_for_year(0, 2024, &apts, &before_owners, &vec![]);
    let after = schedule_for_year(0, 2024, &apts, &after_owners, &vec![]);
    for (wb, wa) in before.iter().zip(after.iter()) {
        let apt_of = |name: Option<&str>| match name {
            Some("Alice") => Some("A"),
            Some("Bob") | Some("Bernice") => Some("B"),
            _ => None,
        };
        assert_eq!(
            apt_of(wb.assignee_name.as_deref()),
            apt_of(wa.assignee_name.as_deref()),
            "week {} must keep its apartment",
            wb.iso_week
        );
    }
    assert_eq!(
        week_starting(&before, "2024-07-08").assignee_name.as_deref(),
        Some("Bob")
    );
    assert_eq!(
        week_starting(&after, "2024-07-08").assignee_name.as_deref(),
        Some("Bernice")
    );
}

#[test]
fn transition_week_goes_to_majority_owner() {
    let apts = vec![apartment("A", "2024-01-01 00:00:00")];
    let owners = vec![
        period("A", "Alice", "2024-01-01", Some("2024-03-28")),
        period("A", "Bernice", "2024-03-29", None),
    ];
    let schedule = schedule_for_year(0, 2024, &apts, &owners, &vec![]);
    assert_eq!(
        week_starting(&schedule, "2024-03-25").assignee_name.as_deref(),
        Some("Alice")
    );
    assert_eq!(
        week_starting(&schedule, "2024-04-01").assignee_name.as_deref(),
        Some("Bernice")
    );
    assert!(schedule.iter().all(|w| w.assignee_name.is_some()));
}

#[test]
fn first_partially_covered_week_joins_later() {
    let apts = vec![apartment("A", "2024-01-01 00:00:00")];
    let owners = vec![period("A", "Alice", "2024-01-05", None)];
    let schedule = schedule_for_year(0, 2024, &apts, &owners, &vec![]);
    assert_eq!(schedule[0].start, d("2024-01-01"));
    assert!(schedule[0].assignee_name.is_none());
    assert_eq!(schedule[1].assignee_name.as_deref(), Some("Alice"));
}

#[test]
fn new_years_week_is_covered() {
    let apts = vec![apartment("A", "2026-01-01 00:00:00")];
    let owners = vec![period("A", "Alice", "2026-01-01", None)];
    let schedule = schedule_for_year(0, 2026, &apts, &owners, &vec![]);
    assert_eq!(schedule[0].start, d("2025-12-29"));
    assert_eq!(schedule[0].assignee_name.as_deref(), Some("Alice"));
    assert!(schedule.iter().all(|w| w.assignee_name.is_some()));
    assert_eq!(schedule.len(), 53);
}

#[test]
fn tiled_handover_leaves_no_gap() {
    let apts = vec![apartment("A", "2024-01-01 00:00:00")];
    let owners = vec![
        period("A", "A", "2024-01-01", Some("2024-01-15")),
        period("A", "B", "2024-01-16", None),
    ];
    let schedule = schedule_for_year(0, 2024, &apts, &owners, &vec![]);
    assert!(schedule.iter().all(|w| w.assignee_name.is_some()));
    assert_eq!(
        week_starting(&schedule, "2024-01-08").assignee_name.as_deref(),
        Some("A")
    );
    assert_eq!(
        week_starting(&schedule, "2024-01-15").assignee_name.as_deref(),
        Some("B")
    );
    assert_eq!(
        week_starting(&schedule, "2024-01-22").assignee_name.as_deref(),
        Some("B")
    );
}

#[test]
fn active_tenancy_delegates_owner_duty() {
    let apts = vec![apartment("A", "2024-01-01 00:00:00")];
    let owners = vec![period("A", "Otto", "2024-01-01", None)];
    let tenants = vec![period("A", "Melanie", "2024-02-15", Some("2024-03-31"))];
    let schedule = schedule_for_year(0, 2024, &apts, &owners, &tenants);
    let (ts, te) = (d("2024-02-15"), d("2024-03-31"));
    for w in schedule.iter().filter(|w| w.start.days >= ts.days && w.end.days <= te.days) {
        assert_eq!(w.assignee_name.as_deref(), Some("Melanie"));
        assert!(w.delegated, "week {} should be delegated", w.iso_week);
    }
    for w in schedule
        .iter()
        .filter(|w| w.end.days < ts.days || w.start.days > te.days)
    {
        assert_eq!(w.assignee_name.as_deref(), Some("Otto"));
        assert!(!w.delegated);
    }
}

#[test]
fn tenancy_without_end_delegates_until_year_end() {
    let apts = vec![apartment("A", "2024-01-01 00:00:00")];
    let owners = vec![period("A", "Otto", "2024-01-01", None)];
    let tenants = vec![period("A", "Nina", "2024-06-01", None)];
    let schedule = schedule_for_year(0, 2024, &apts, &owners, &tenants);
    let ts = d("2024-06-01");
    for w in schedule.iter().filter(|w| w.start.days >= ts.days) {
        assert_eq!(w.assignee_name.as_deref(), Some("Nina"));
        assert!(w.delegated);
    }
}

#[test]
fn tenancy_does_not_start_before_its_begin() {
    let apts = vec![apartment("A", "2026-01-01 00:00:00")];
    let owners = vec![period("A", "Otto", "2026-01-01", None)];
    let tenants = vec![period("A", "Nora", "2026-02-01", None)];
    let schedule = schedule_for_year(0, 2026, &apts, &owners, &tenants);
    let before = week_starting(&schedule, "2026-01-26");
    assert_eq!(before.assignee_name.as_deref(), Some("Otto"));
    assert!(!before.delegated);
    let after = week_starting(&schedule, "2026-02-02");
    assert_eq!(after.assignee_name.as_deref(), Some("Nora"));
    assert!(after.delegated);
}

#[test]
fn global_week_index_counts_from_the_epoch() {
    assert_eq!(global_week_index(d("2020-01-06")), 0);
    assert_eq!(global_week_index(d("2020-01-13")), 1);
    assert_eq!(global_week_index(d("2024-01-01")), 208);
    assert_eq!(global_week_index(d("2019-12-30")), -1);
}

#[test]
fn rotation_order_sorts_by_creation_then_id() {
    let apts = vec![
        apartment("c", "2024-01-02"),
        apartment("b", "2024-01-01"),
        apartment("a", "2024-01-01"),
    ];
    assert_eq!(rotation_order(&apts), vec![2, 1, 0]);
}

#[test]
fn period_records_parse_or_report() {
    let ok = vec![PeriodRecord {
        id: "o1".to_string(),
        apartment_id: "A".to_string(),
        name: "Otto".to_string(),
        email: "otto@example.com".to_string(),
        start_date: "2024-01-01".to_string(),
        end_date: Some("2024-06-30".to_string()),
    }];
    let parsed = parse_people(&ok).unwrap();
    assert_eq!(parsed[0].start, d("2024-01-01"));
    assert_eq!(parsed[0].end, Some(d("2024-06-30")));
    let bad = vec![PeriodRecord {
        start_date: "01.01.2024".to_string(),
        ..ok[0].clone()
    }];
    assert!(matches!(parse_people(&bad), Err(ScheduleError::DateParse(_))));
}
