//! Backup slot and object naming, interchangeable with the `sqlite-vault`
//! tooling.
//!
//! Retention works by overwriting: each slot has a deterministic name, so a
//! new backup for a slot replaces the previous one (bucket versioning must
//! be disabled). This keeps at most 24 hourly + 7 daily + 53 weekly +
//! yearly objects in the bucket, with no deletion step.

use crate::dates::{
    chrono_format_date, chrono_iso_week, chrono_year, chrono_ymd, date_from_ymd, format_date,
    iso_week_of, weekday_name, weekday_of, year_of, Date, UtcTime,
};
use crate::text::{decimal, digits_value, int_padded, lemma_padded_digits, push_char, push_int_padded, zero_pad};
use vstd::prelude::*;

verus! {

/// The retention slot a backup belongs to.
#[derive(Debug, Clone, Copy, PartialEq, Eq, Structural)]
pub enum Slot {
    Hourly,
    Daily,
    Weekly,
    Yearly,
}

/// The label of a slot, as used in object names.
pub open spec fn slot_label(slot: Slot) -> Seq<char> {
    match slot {
        Slot::Hourly => "hourly"@,
        Slot::Daily => "daily"@,
        Slot::Weekly => "weekly"@,
        Slot::Yearly => "yearly"@,
    }
}

impl Slot {
    pub fn label(self) -> (res: &'static str)
        ensures
            res@ == slot_label(self),
    {
        match self {
            Slot::Hourly => "hourly",
            Slot::Daily => "daily",
            Slot::Weekly => "weekly",
            Slot::Yearly => "yearly",
        }
    }
}

/// The day number of the last Sunday on or before December 31 of the year
/// of day `days`.
pub open spec fn last_sunday_of(days: int) -> int {
    let dec31 = chrono_ymd(chrono_year(days), 12, 31)->0;
    dec31 - (weekday_of(dec31) + 1) % 7
}

/// Whether the day is the last Sunday on or before December 31 of its year.
pub open spec fn is_last_sunday_of_year(days: int) -> bool {
    days == last_sunday_of(days)
}

/// The backup slot of an instant: at 04:00 on days other than Sunday a
/// daily backup replaces the hourly one; at 04:00 on Sundays a weekly
/// backup replaces the daily; at 04:00 on the last Sunday of the year a
/// yearly backup replaces the weekly.
pub open spec fn slot_spec(t: UtcTime) -> Slot {
    if t.hour_spec() == 4 {
        if weekday_of(t.date_days()) == 6 {
            if is_last_sunday_of_year(t.date_days()) {
                Slot::Yearly
            } else {
                Slot::Weekly
            }
        } else {
            Slot::Daily
        }
    } else {
        Slot::Hourly
    }
}

/// Whether `now` falls on the last Sunday on or before December 31 of its
/// year.
fn last_sunday_of_year(now: UtcTime) -> (res: bool)
    requires
        now.valid(),
    ensures
        res == is_last_sunday_of_year(now.date_days()),
{
    let today = now.date();
    let year = year_of(today);
    let dec31 = match date_from_ymd(year, 12, 31) {
        Some(d) => d,
        None => {
            return false;
        },
    };
    // num_days_from_sunday: 0 for Sunday .. 6 for Saturday.
    let offset = (dec31.weekday_from_monday() + 1) % 7;
    let last_sunday = dec31.days as i64 - offset as i64;
    today.days as i64 == last_sunday
}

/// The backup slot for the given time.
pub fn slot_of(now: UtcTime) -> (res: Slot)
    requires
        now.valid(),
    ensures
        res == slot_spec(now),
{
    if now.hour() == 4 {
        if now.date().weekday_from_monday() == 6 {
            if last_sunday_of_year(now) {
                Slot::Yearly
            } else {
                Slot::Weekly
            }
        } else {
            Slot::Daily
        }
    } else {
        Slot::Hourly
    }
}

/// The slot-specific middle part of an object name: the year, the ISO week,
/// the weekday or the hour, with the slot's label.
pub open spec fn slot_object_part_spec(t: UtcTime) -> Seq<char> {
    match slot_spec(t) {
        Slot::Yearly => "yearly-"@ + int_padded(chrono_year(t.date_days()), 4),
        Slot::Weekly => "weekly-"@ + int_padded(chrono_iso_week(t.date_days()).1, 2),
        Slot::Daily => "daily-"@ + chrono_format_date(t.date_days(), "%A"@),
        Slot::Hourly => "hourly-"@ + int_padded(t.hour_spec(), 2),
    }
}

/// `{prefix}.{slot part}.db.age`.
pub open spec fn object_name_spec(prefix: Seq<char>, t: UtcTime) -> Seq<char> {
    prefix + seq!['.'] + slot_object_part_spec(t) + ".db.age"@
}

/// Whether `part` is one of the names retention keeps for `slot`: one of
/// 24 hourly names (hours `00`–`23`), 7 daily names (the weekdays), 53
/// weekly names (ISO weeks), or the one yearly name of `year`.
pub open spec fn retention_part(slot: Slot, part: Seq<char>, year: int) -> bool {
    match slot {
        Slot::Hourly => exists|h: int| 0 <= h < 24 && part == "hourly-"@ + #[trigger] int_padded(h, 2),
        Slot::Daily => exists|w: int| 0 <= w < 7 && part == "daily-"@ + #[trigger] weekday_name(w),
        Slot::Weekly => exists|k: int|
            1 <= k <= 53 && part == "weekly-"@ + #[trigger] int_padded(k, 2),
        Slot::Yearly => part == "yearly-"@ + int_padded(year, 4),
    }
}

fn slot_object_part(now: UtcTime) -> (res: String)
    requires
        now.valid(),
    ensures
        res@ == slot_object_part_spec(now),
        retention_part(slot_spec(now), res@, chrono_year(now.date_days())),
{
    let today = now.date();
    match slot_of(now) {
        Slot::Yearly => {
            let mut out = String::from_str("yearly-");
            push_int_padded(&mut out, year_of(today) as i64, 4);
            out
        },
        Slot::Weekly => {
            let mut out = String::from_str("weekly-");
            let (_, week) = iso_week_of(today);
            push_int_padded(&mut out, week as i64, 2);
            assert(out@ == "weekly-"@ + int_padded(week as int, 2));
            out
        },
        Slot::Daily => {
            let mut out = String::from_str("daily-");
            let name = format_date(today, "%A");
            out.append(name.as_str());
            assert(out@ == "daily-"@ + weekday_name(today.weekday_spec()));
            out
        },
        Slot::Hourly => {
            let mut out = String::from_str("hourly-");
            let h = now.hour();
            push_int_padded(&mut out, h as i64, 2);
            assert(out@ == "hourly-"@ + int_padded(h as int, 2));
            out
        },
    }
}

/// Object name for a backup taken at `now`, e.g.
/// `kehrkraft.hourly-09.db.age`. Retention is bounded: the slot part is
/// one of the names [`retention_part`] allows.
pub fn object_name(prefix: &str, now: UtcTime) -> (res: String)
    requires
        now.valid(),
    ensures
        res@ == object_name_spec(prefix@, now),
        retention_part(slot_spec(now), slot_object_part_spec(now), chrono_year(now.date_days())),
{
    let mut out = String::from_str(prefix);
    push_char(&mut out, '.');
    let part = slot_object_part(now);
    out.append(part.as_str());
    out.append(".db.age");
    out
}

/// `{prefix}.{label}-latest.alias`.
pub open spec fn latest_alias_name_spec(prefix: Seq<char>, slot: Slot) -> Seq<char> {
    prefix + seq!['.'] + slot_label(slot) + "-latest.alias"@
}

/// Alias object name for the most recent backup of the given slot, e.g.
/// `kehrkraft.hourly-latest.alias`. Its content is the object name of the
/// last successful backup for that slot.
pub fn latest_alias_name(prefix: &str, slot: Slot) -> (res: String)
    ensures
        res@ == latest_alias_name_spec(prefix@, slot),
{
    let mut out = String::from_str(prefix);
    push_char(&mut out, '.');
    out.append(slot.label());
    out.append("-latest.alias");
    out
}

/// Two instants of the same UTC hour of the same day get the same object
/// name, so a second backup in that hour would overwrite the first.
pub proof fn law_same_hour_same_object(prefix: Seq<char>, a: UtcTime, b: UtcTime)
    requires
        a.date_days() == b.date_days(),
        a.hour_spec() == b.hour_spec(),
    ensures
        object_name_spec(prefix, a) == object_name_spec(prefix, b),
{
}

/// Instants in different hours of the day get different object names: a
/// backup never overwrites the one of another hour.
pub proof fn law_different_hours_different_objects(prefix: Seq<char>, a: UtcTime, b: UtcTime)
    requires
        a.hour_spec() != b.hour_spec(),
    ensures
        object_name_spec(prefix, a) != object_name_spec(prefix, b),
{
    reveal_strlit("yearly-");
    reveal_strlit("weekly-");
    reveal_strlit("daily-");
    reveal_strlit("hourly-");
    reveal_strlit(".db.age");
    let pa = slot_object_part_spec(a);
    let pb = slot_object_part_spec(b);
    let na = object_name_spec(prefix, a);
    let nb = object_name_spec(prefix, b);
    let i: int = prefix.len() as int + 1;
    assert(na[i] == pa[0]);
    assert(nb[i] == pb[0]);
    if slot_spec(a) != slot_spec(b) {
        assert(pa[0] != pb[0]);
    } else {
        assert(slot_spec(a) == Slot::Hourly);
        let ha = a.hour_spec();
        let hb = b.hour_spec();
        assert(0 <= ha < 24 && 0 <= hb < 24);
        lemma_padded_digits(ha as nat, 2);
        lemma_padded_digits(hb as nat, 2);
        let da = zero_pad(decimal(ha as nat), 2);
        let db = zero_pad(decimal(hb as nat), 2);
        assert(pa == "hourly-"@ + da);
        assert(pb == "hourly-"@ + db);
        assert(na.len() == prefix.len() + 15 + da.len());
        assert(nb.len() == prefix.len() + 15 + db.len());
        if na == nb {
            assert(da.len() == db.len());
            assert(na.subrange(i + 7, i + 7 + da.len() as int) =~= da);
            assert(nb.subrange(i + 7, i + 7 + db.len() as int) =~= db);
            assert(digits_value(da) == digits_value(db));
        }
    }
}

} // verus!
