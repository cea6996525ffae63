use chrono::{DateTime, Datelike, NaiveDate, Weekday};
use kehrkraft::dates::{Date, UtcTime};
use kehrkraft::scheduler::WeekAssignment;
use kehrkraft::web::ical::{
    escape_ical, event_block_at, fold_line, ical_document, ical_filename, uid_for,
};

/// The Monday of an ISO week, as chrono computes it.
fn iso_monday(year: i32, iso_week: u32) -> Option<Date> {
    NaiveDate::from_isoywd_opt(year, iso_week, Weekday::Mon).map(|d| Date {
        days: d.num_days_from_ce(),
    })
}

/// An RFC 3339 instant, as chrono parses it.
fn utc(s: &str) -> UtcTime {
    let t = DateTime::parse_from_rfc3339(s).expect("RFC 3339 instant");
    UtcTime {
        secs: t.timestamp(),
        nanos: t.timestamp_subsec_nanos(),
    }
}

fn week(year: i32, iso_week: u32, name: Option<&str>) -> WeekAssignment {
    let start = iso_monday(year, iso_week).expect("valid ISO date");
    WeekAssignment {
        year,
        iso_week,
        start,
        end: Date { days: start.days + 6 },
        assignee_id: name.map(|_| format!("id-{year}-{iso_week}")),
        assignee_name: name.map(str::to_string),
        assignee_email: None,
        delegated: false,
    }
}

#[test]
fn event_covers_monday_to_sunday_with_exclusive_end() {
    let doc = ical_document("Baumhaus", "slug", &[vec![week(2026, 12, Some("Anna"))]]);
    assert!(doc.contains("DTSTART;VALUE=DATE:20260316"), "{doc}");
    // The week ends Sunday 2026-03-22; DTEND is exclusive, so the next day.
    assert!(doc.contains("DTEND;VALUE=DATE:20260323"), "{doc}");
}

#[test]
fn summary_contains_iso_week_and_assignee() {
    let doc = ical_document("Baumhaus", "slug", &[vec![week(2026, 12, Some("Anna"))]]);
    assert!(doc.contains("SUMMARY:Kehrwoche KW 12: Anna"), "{doc}");
}

#[test]
fn unassigned_weeks_get_a_fallback_summary() {
    let doc = ical_document("Baumhaus", "slug", &[vec![week(2026, 12, None)]]);
    assert!(
        doc.contains("SUMMARY:Kehrwoche KW 12: Nicht zugewiesen"),
        "{doc}"
    );
}

#[test]
fn uid_is_stable_and_identifies_week_and_building() {
    let a = uid_for("slug", 2026, 12);
    let b = uid_for("slug", 2026, 12);
    let c = uid_for("slug", 2026, 13);
    let d = uid_for("other-slug", 2026, 12);
    assert_eq!(a, b, "uid must be stable across regenerations");
    assert_ne!(a, c, "different weeks must have different uids");
    assert_ne!(a, d, "different buildings must have different uids");
    assert_eq!(a, "kehrwoche-2026-12-slug@kehrkraft");
}

#[test]
fn special_characters_are_escaped() {
    let escaped = escape_ical("Anna, die \\ \"Chefin\"; Müller\n");
    assert_eq!(escaped, "Anna\\, die \\\\ \"Chefin\"\\; Müller\\n");
}

#[test]
fn short_lines_are_left_untouched_and_long_ones_unfold() {
    let short = "SUMMARY:Kehrwoche KW 12: Anna";
    assert_eq!(fold_line(short), short);

    let long = "Sehr langes Gebäude mit einem wirklich ausführlichen Namen, der die Zeilenlänge überschreitet";
    let folded = fold_line(long);
    assert_ne!(folded, long);
    // Unfold by stripping the CRLF+space continuations.
    let unfolded = folded.replace("\r\n ", "");
    assert_eq!(unfolded, long);
    for physical in folded.split("\r\n") {
        assert!(physical.len() <= 75, "physical line too long: {physical:?}");
    }
}

#[test]
fn every_physical_line_of_the_document_is_at_most_75_octets() {
    let long_name = "Sehr langes Gebäude mit einem wirklich ausführlichen Namen";
    let mut schedules = Vec::new();
    for y in 2026..2028 {
        let weeks = if y == 2026 { 53 } else { 52 };
        schedules.push(
            (1..=weeks)
                .map(|w| week(y, w, Some("Anna, die Chefin")))
                .collect(),
        );
    }
    let doc = ical_document(long_name, "slug", &schedules);
    for line in doc.split("\r\n") {
        assert!(line.len() <= 75, "physical line too long: {line:?}");
    }
}

#[test]
fn document_is_a_complete_vcalendar() {
    let doc = ical_document("Baumhaus", "slug", &[vec![week(2026, 12, Some("Anna"))]]);
    assert!(doc.starts_with("BEGIN:VCALENDAR\r\n"), "{doc}");
    assert!(doc.ends_with("END:VCALENDAR\r\n"), "{doc}");
    assert!(doc.contains("X-WR-CALNAME:Kehrwoche Baumhaus"), "{doc}");
    assert_eq!(doc.matches("BEGIN:VEVENT").count(), 1);
    assert_eq!(doc.matches("END:VEVENT").count(), 1);
}

#[test]
fn event_at_a_fixed_instant_is_exact() {
    let now = utc("2026-03-10T08:09:10Z");
    let ev = event_block_at("Haus; A", "s1", &week(2026, 12, Some("Bea")), now);
    let expected = "BEGIN:VEVENT\r\n\
UID:kehrwoche-2026-12-s1@kehrkraft\r\n\
DTSTAMP:20260310T080910Z\r\n\
DTSTART;VALUE=DATE:20260316\r\n\
DTEND;VALUE=DATE:20260323\r\n\
SUMMARY:Kehrwoche KW 12: Bea\r\n\
DESCRIPTION:Gebäude: Haus\\; A\\n16.03.2026 – 22.03.2026\r\n\
END:VEVENT\r\n";
    assert_eq!(ev, expected);
}

#[test]
fn folding_respects_character_boundaries_and_limits() {
    // 80 two-byte characters: 160 octets.
    let line: String = std::iter::repeat('ä').take(80).collect();
    let folded = fold_line(&line);
    let parts: Vec<&str> = folded.split("\r\n").collect();
    assert_eq!(parts[0].len(), 74); // 37 characters; the 38th would make 76
    for p in &parts[1..] {
        assert!(p.starts_with(' '));
        assert!(p.len() <= 75);
    }
    assert_eq!(folded.replace("\r\n ", ""), line);
    // Exactly 75 octets stay on one line.
    let exact: String = std::iter::repeat('x').take(75).collect();
    assert_eq!(fold_line(&exact), exact);
    let over: String = std::iter::repeat('x').take(76).collect();
    assert_eq!(fold_line(&over), format!("{}\r\n x", &over[..75]));
}

#[test]
fn uids_of_negative_years_and_wide_weeks() {
    assert_eq!(uid_for("s", -5, 3), "kehrwoche--5-03-s@kehrkraft");
    assert_eq!(uid_for("s", 2026, 123), "kehrwoche-2026-123-s@kehrkraft");
    assert_eq!(ical_filename("Haus 7/b"), "Kehrwoche-Haus-7-b.ics");
}
