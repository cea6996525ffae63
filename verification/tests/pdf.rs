use chrono::{Datelike, NaiveDate, Weekday};
use kehrkraft::dates::Date;
use kehrkraft::scheduler::WeekAssignment;
use kehrkraft::web::pdf::{
    balanced_columns, content_disposition, escape_typst_str, link_with_qr, pdf_filename,
    pdf_link_and_qr, pdf_url_for, rows_source, sanitize_filename, typst_source,
};

/// The Monday of an ISO week, as chrono computes it.
fn iso_monday(year: i32, iso_week: u32) -> Option<Date> {
    NaiveDate::from_isoywd_opt(year, iso_week, Weekday::Mon).map(|d| Date {
        days: d.num_days_from_ce(),
    })
}

fn week(year: i32, iso_week: u32) -> WeekAssignment {
    let start = iso_monday(year, iso_week).expect("valid ISO date");
    WeekAssignment {
        year,
        iso_week,
        start,
        end: Date { days: start.days + 6 },
        assignee_id: None,
        assignee_name: None,
        assignee_email: None,
        delegated: false,
    }
}

fn y2025() -> Vec<WeekAssignment> {
    (1..=52).map(|w| week(2025, w)).collect()
}

fn y2026() -> Vec<WeekAssignment> {
    (1..=53).map(|w| week(2026, w)).collect()
}

fn y2027() -> Vec<WeekAssignment> {
    (1..=52).map(|w| week(2027, w)).collect()
}

#[test]
fn even_year_splits_exactly_in_half() {
    let current: Vec<WeekAssignment> = (1..=52).map(|w| week(2026, w)).collect();
    let prev = y2025();
    let next = y2027();
    let (left, right) = balanced_columns(&prev, &current, &next);

    assert_eq!(left.len(), 26);
    assert_eq!(right.len(), 26);
    assert_eq!(left[0].iso_week, 1);
    assert_eq!(left[25].iso_week, 26);
    assert_eq!(right[0].iso_week, 27);
    assert_eq!(right[25].iso_week, 52);
    // No cross-year padding rows.
    assert!(left.iter().chain(&right).all(|w| w.year == 2026));
}

#[test]
fn odd_year_balances_with_grey_rows() {
    let prev = y2025();
    let current = y2026(); // 53 weeks
    let next = y2027();
    let (left, right) = balanced_columns(&prev, &current, &next);

    // Both columns have the same number of rows.
    assert_eq!(left.len(), 28);
    assert_eq!(right.len(), 28);

    // Left column: last week of the previous year, then weeks 1..=27.
    assert_eq!(left[0].iso_week, 52);
    assert_eq!(left[0].year, 2025);
    assert_eq!(left[1].iso_week, 1);
    assert_eq!(left[1].year, 2026);
    assert_eq!(left[27].iso_week, 27);

    // Right column: weeks 28..=53, then the first two weeks of next year.
    assert_eq!(right[0].iso_week, 28);
    assert_eq!(right.len(), 28);
    assert_eq!(right[25].iso_week, 53);
    assert_eq!(right[26].iso_week, 1);
    assert_eq!(right[26].year, 2027);
    assert_eq!(right[27].iso_week, 2);
    assert_eq!(right[27].year, 2027);
}

#[test]
fn every_current_year_week_appears_exactly_once() {
    let prev = y2025();
    let current = y2026();
    let next = y2027();
    let (left, right) = balanced_columns(&prev, &current, &next);
    let all: Vec<&WeekAssignment> = left.into_iter().chain(right).collect();
    let current_rows: Vec<u32> = all
        .iter()
        .filter(|w| w.year == 2026)
        .map(|w| w.iso_week)
        .collect();
    assert_eq!(current_rows, (1..=53).collect::<Vec<u32>>());
}

#[test]
fn rows_source_marks_cross_year_rows_as_informational() {
    let normal = week(2026, 5);
    let grey = week(2027, 1);
    let src = rows_source(2026, &[&normal, &grey]);
    assert!(src.contains("week: 5") && src.contains("info: false"));
    assert!(src.contains("week: 1") && src.contains("info: true"));
}

#[test]
fn pdf_url_is_built_from_public_url_and_slug() {
    assert_eq!(
        pdf_url_for(Some("https://kehrkraft.uhlig.it"), "abc_123"),
        "https://kehrkraft.uhlig.it/p/abc_123/kehrwoche.pdf"
    );
    assert_eq!(pdf_url_for(None, "abc_123"), "");
}

#[test]
fn rows_source_is_a_typst_array() {
    let mut w = week(2026, 5);
    w.assignee_name = Some("Anna \"A\" \\B".to_string());
    assert_eq!(
        rows_source(2026, &[&w]),
        "(\n(week: 5, start: \"26.01.26\", end: \"01.02.26\", name: \"Anna \\\"A\\\" \\\\B\", info: false)\n)"
    );
    assert_eq!(rows_source(2026, &[]), "(\n\n)");
}

#[test]
fn names_and_files() {
    assert_eq!(escape_typst_str("a\\b\"c"), "a\\\\b\\\"c");
    assert_eq!(sanitize_filename("Haus Nr. 7/ä"), "Haus-Nr--7--");
    assert_eq!(pdf_filename("Haus A", 2026), "Kehrwoche-Haus-A-2026.pdf");
    assert_eq!(
        content_disposition("Kehrwoche-Haus-A-2026.pdf"),
        "inline; filename=\"Kehrwoche-Haus-A-2026.pdf\""
    );
}

#[test]
fn qr_code_goes_with_its_link() {
    let (url, svg) = pdf_link_and_qr(Some("https://example.org"), "s");
    assert_eq!(url, "https://example.org/p/s/kehrwoche.pdf");
    assert!(svg.unwrap().starts_with("<svg"));
    let (url, svg) = pdf_link_and_qr(None, "s");
    assert_eq!(url, "");
    assert!(svg.is_none());
    let (url, svg) = link_with_qr("x".to_string(), None);
    assert_eq!(url, "");
    assert!(svg.is_none());
}

#[test]
fn typst_source_binds_the_schedule() {
    let src = typst_source("Haus \"B\"", 2026, "(L)", "(R)", "https://x/p/s/kehrwoche.pdf", "0.6.0");
    assert!(src.starts_with("#import \"kehrwoche.typ\": kehrwoche\n"));
    assert!(src.contains("Erstellt mit Kehrkraft v0.6.0\n"));
    assert!(src.contains("#let building_name = \"Haus \\\"B\\\"\"\n"));
    assert!(src.contains("#let year = 2026\n#let left_rows = (L)\n#let right_rows = (R)\n"));
    assert!(src.contains("#let pdf_url = \"https://x/p/s/kehrwoche.pdf\"\n"));
    assert!(src.ends_with("  pdf_url: pdf_url,\n)\n"));
}
