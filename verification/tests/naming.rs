use kehrkraft::backup::naming::{latest_alias_name, object_name, slot_of, Slot};
use chrono::DateTime;
use kehrkraft::dates::UtcTime;

/// An RFC 3339 instant, as chrono parses it.
fn utc(s: &str) -> UtcTime {
    let t = DateTime::parse_from_rfc3339(s).expect("RFC 3339 instant");
    UtcTime {
        secs: t.timestamp(),
        nanos: t.timestamp_subsec_nanos(),
    }
}

#[test]
fn hourly_slot_outside_four_am() {
    for hour in [0u32, 3, 5, 10, 23] {
        let t = utc(&format!("2026-09-07T{hour:02}:00:00Z"));
        assert_eq!(slot_of(t), Slot::Hourly);
        assert_eq!(
            object_name("kehrkraft", t),
            format!("kehrkraft.hourly-{hour:02}.db.age")
        );
    }
}

#[test]
fn four_am_on_a_weekday_is_daily() {
    // 2026-09-07 is a Monday.
    let t = utc("2026-09-07T04:00:00Z");
    assert_eq!(slot_of(t), Slot::Daily);
    assert_eq!(object_name("kehrkraft", t), "kehrkraft.daily-Monday.db.age");

    // 2026-09-08 is a Tuesday.
    let t = utc("2026-09-08T04:00:00Z");
    assert_eq!(slot_of(t), Slot::Daily);
    assert_eq!(
        object_name("kehrkraft", t),
        "kehrkraft.daily-Tuesday.db.age"
    );
}

#[test]
fn four_am_on_a_sunday_is_weekly() {
    // 2026-09-06 is a Sunday, ISO week 36 of 2026.
    let t = utc("2026-09-06T04:00:00Z");
    assert_eq!(slot_of(t), Slot::Weekly);
    assert_eq!(object_name("kehrkraft", t), "kehrkraft.weekly-36.db.age");
}

#[test]
fn sunday_of_iso_week_53_is_still_weekly() {
    // 2027-01-03 (Sunday) belongs to ISO week 53 of 2026.
    let t = utc("2027-01-03T04:00:00Z");
    assert_eq!(slot_of(t), Slot::Weekly);
    assert_eq!(object_name("kehrkraft", t), "kehrkraft.weekly-53.db.age");
}

#[test]
fn last_sunday_of_year_is_yearly() {
    // 2026-12-27 is the last Sunday of 2026 (Dec 31 is a Thursday).
    let t = utc("2026-12-27T04:00:00Z");
    assert_eq!(slot_of(t), Slot::Yearly);
    assert_eq!(object_name("kehrkraft", t), "kehrkraft.yearly-2026.db.age");

    // Only the 04:00 hour of that day is "yearly"; the rest is hourly.
    let t = utc("2026-12-27T23:00:00Z");
    assert_eq!(slot_of(t), Slot::Hourly);
    assert_eq!(object_name("kehrkraft", t), "kehrkraft.hourly-23.db.age");
}

#[test]
fn alias_names_per_slot() {
    assert_eq!(
        latest_alias_name("kehrkraft", Slot::Hourly),
        "kehrkraft.hourly-latest.alias"
    );
    assert_eq!(
        latest_alias_name("kehrkraft", Slot::Daily),
        "kehrkraft.daily-latest.alias"
    );
    assert_eq!(
        latest_alias_name("kehrkraft", Slot::Weekly),
        "kehrkraft.weekly-latest.alias"
    );
    assert_eq!(
        latest_alias_name("kehrkraft", Slot::Yearly),
        "kehrkraft.yearly-latest.alias"
    );
}

#[test]
fn every_weekday_at_four_names_its_day() {
    // 2026-09-07 (Monday) .. 2026-09-12 (Saturday)
    let names = ["Monday", "Tuesday", "Wednesday", "Thursday", "Friday", "Saturday"];
    for (i, name) in names.iter().enumerate() {
        let t = utc(&format!("2026-09-{:02}T04:30:00Z", 7 + i));
        assert_eq!(slot_of(t), Slot::Daily);
        assert_eq!(object_name("p", t), format!("p.daily-{name}.db.age"));
    }
}

#[test]
fn last_sunday_when_december_31_is_a_sunday() {
    // 2023-12-31 is a Sunday, so it is the last Sunday itself.
    let t = utc("2023-12-31T04:00:00Z");
    assert_eq!(slot_of(t), Slot::Yearly);
    assert_eq!(object_name("k", t), "k.yearly-2023.db.age");
    // One week earlier is an ordinary weekly backup.
    let t = utc("2023-12-24T04:00:00Z");
    assert_eq!(slot_of(t), Slot::Weekly);
}

#[test]
fn instants_of_one_hour_share_the_object_name() {
    let a = utc("2026-09-07T09:00:00Z");
    let b = utc("2026-09-07T09:59:59.999Z");
    assert_eq!(object_name("k", a), object_name("k", b));
    assert_eq!(Slot::Hourly.label(), "hourly");
    assert_eq!(Slot::Yearly.label(), "yearly");
}
