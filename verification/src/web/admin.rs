//! The view logic of the admin pages: the rows the templates render, the
//! options they offer, the values their forms carry, and the decisions the
//! form handlers take between reading the database and answering.

use crate::dates::{
    chrono_format_date, chrono_parse_date, date_valid, format_date, min_date_days, parse_date, Date,
};
use crate::db::models::{
    opt_view, Apartment, Building, BuildingAdministrator, BuildingOwner, Ownership, Person,
    PersonRoleRow, Tenancy,
};
use crate::db::queries::NewOwner;
use crate::scheduler::{
    is_rotation_order, opt_str_view, rotation_order, week_views, WeekAssignment, WeekView,
};
use crate::text::{
    char_to_uppercase, decimal, is_blank, is_blank_str, push_char, push_decimal, str_eq, to_owned,
    trim, trim_spec, unicode_uppercase,
};
use vstd::prelude::*;

verus! {

// ---------------------------------------------------------------------------
// The schedule on the building pages

/// One row of the Kehrwoche roster as the templates render it: dates in
/// German display format, plus a flag for the week that is currently running.
pub struct ScheduleRow {
    pub iso_week: u32,
    pub start: String,
    pub end: String,
    pub assignee_name: Option<String>,
    pub delegated: bool,
    pub is_current: bool,
}

/// Whether a week's dates can be shown: they lie in chrono's range.
pub open spec fn week_displayable(w: WeekView) -> bool {
    date_valid(w.start) && date_valid(w.end)
}

/// `r` is the display row of week `w` on the day `today`.
pub open spec fn is_schedule_row(r: ScheduleRow, w: WeekView, today: int) -> bool {
    &&& r.iso_week == w.iso_week
    &&& r.start@ == chrono_format_date(w.start, "%d.%m.%Y"@)
    &&& r.end@ == chrono_format_date(w.end, "%d.%m.%Y"@)
    &&& opt_view(r.assignee_name) == w.assignee_name
    &&& r.delegated == w.delegated
    &&& r.is_current == (w.start <= today && today <= w.end)
}

fn copy_opt_string(s: &Option<String>) -> (res: Option<String>)
    ensures
        res == *s,
{
    match s {
        Some(x) => Some(x.clone()),
        None => None,
    }
}

/// Map scheduler weeks to display rows, marking the week containing `today`.
pub fn schedule_rows(schedule: Vec<WeekAssignment>, today: Date) -> (res: Vec<ScheduleRow>)
    requires
        forall|i: int| 0 <= i < schedule@.len() ==> week_displayable(#[trigger] schedule@[i]@),
    ensures
        res@.len() == schedule@.len(),
        forall|i: int|
            0 <= i < schedule@.len() ==> is_schedule_row(
                #[trigger] res@[i],
                schedule@[i]@,
                today.days as int,
            ),
{
    let mut out: Vec<ScheduleRow> = Vec::new();
    let mut i: usize = 0;
    while i < schedule.len()
        invariant
            i <= schedule@.len(),
            out@.len() == i,
            forall|k: int| 0 <= k < schedule@.len() ==> week_displayable(#[trigger] schedule@[k]@),
            forall|k: int|
                0 <= k < i ==> is_schedule_row(#[trigger] out@[k], schedule@[k]@, today.days as int),
        decreases schedule@.len() - i,
    {
        let w = &schedule[i];
        assert(week_displayable(schedule@[i as int]@));
        let row = ScheduleRow {
            iso_week: w.iso_week,
            start: format_date(w.start, "%d.%m.%Y"),
            end: format_date(w.end, "%d.%m.%Y"),
            assignee_name: copy_opt_string(&w.assignee_name),
            delegated: w.delegated,
            is_current: w.start.days <= today.days && today.days <= w.end.days,
        };
        out.push(row);
        i = i + 1;
    }
    out
}

fn copy_week(w: &WeekAssignment) -> (res: WeekAssignment)
    ensures
        res@ == w@,
{
    WeekAssignment {
        year: w.year,
        iso_week: w.iso_week,
        start: w.start,
        end: w.end,
        assignee_id: copy_opt_string(&w.assignee_id),
        assignee_name: copy_opt_string(&w.assignee_name),
        assignee_email: copy_opt_string(&w.assignee_email),
        delegated: w.delegated,
    }
}

/// How many upcoming weeks the building page shows.
pub const UPCOMING_WEEKS: usize = 12;

/// The weeks that have not ended before `today`, in order, at most
/// [`UPCOMING_WEEKS`] of them.
pub open spec fn upcoming_spec(weeks: Seq<WeekView>, today: int) -> Seq<WeekView> {
    let open = weeks.filter(|w: WeekView| w.end >= today);
    if open.len() > UPCOMING_WEEKS {
        open.take(UPCOMING_WEEKS as int)
    } else {
        open
    }
}

/// The compact schedule of the building page: only the remaining weeks,
/// the first twelve of them.
pub fn upcoming_weeks(schedule: Vec<WeekAssignment>, today: Date) -> (res: Vec<WeekAssignment>)
    ensures
        week_views(res@) == upcoming_spec(week_views(schedule@), today.days as int),
{
    let ghost ws = week_views(schedule@);
    let mut out: Vec<WeekAssignment> = Vec::new();
    let mut i: usize = 0;
    while i < schedule.len() && out.len() < UPCOMING_WEEKS
        invariant
            i <= schedule@.len(),
            ws == week_views(schedule@),
            out@.len() <= UPCOMING_WEEKS,
            week_views(out@) == ws.subrange(0, i as int).filter(
                |w: WeekView| w.end >= today.days,
            ),
        decreases schedule@.len() - i,
    {
        let w = &schedule[i];
        let ghost before = week_views(out@);
        proof {
            let s = ws.subrange(0, i + 1);
            assert(s.drop_last() =~= ws.subrange(0, i as int));
            assert(s.last() == w@);
            reveal(Seq::filter);
        }
        if w.end.days >= today.days {
            out.push(copy_week(w));
            assert(week_views(out@) =~= before.push(w@));
        } else {
            assert(week_views(out@) =~= before);
        }
        i = i + 1;
    }
    proof {
        let f = |w: WeekView| w.end >= today.days;
        let all = ws.filter(f);
        let pre = ws.subrange(0, i as int).filter(f);
        lemma_filter_prefix(ws, i as int, f);
        if i == schedule@.len() {
            assert(ws.subrange(0, i as int) =~= ws);
        } else {
            assert(pre.len() == UPCOMING_WEEKS);
            assert(all.take(UPCOMING_WEEKS as int) =~= pre);
        }
    }
    out
}

/// The weeks of `weeks` before position `j` that have not ended before
/// `today`.
pub open spec fn open_weeks_before(weeks: Seq<WeekView>, today: int, j: int) -> nat {
    weeks.subrange(0, j).filter(|w: WeekView| w.end >= today).len()
}

/// The upcoming list never shows a week that ended before `today`, shows
/// at most twelve weeks, and shows the weeks that have not ended in their
/// order: such a week `j` stands at the position given by the number of
/// such weeks before it, as long as fewer than twelve come before it.
pub proof fn law_upcoming_weeks_are_the_next_open_ones(weeks: Seq<WeekView>, today: int, j: int)
    ensures
        forall|k: int|
            0 <= k < upcoming_spec(weeks, today).len() ==> (#[trigger] upcoming_spec(
                weeks,
                today,
            )[k]).end >= today,
        upcoming_spec(weeks, today).len() <= UPCOMING_WEEKS,
        0 <= j < weeks.len() && weeks[j].end >= today && open_weeks_before(weeks, today, j)
            < UPCOMING_WEEKS ==> open_weeks_before(weeks, today, j) < upcoming_spec(
            weeks,
            today,
        ).len() && upcoming_spec(weeks, today)[open_weeks_before(weeks, today, j) as int]
            == weeks[j],
{
    let f = |w: WeekView| w.end >= today;
    let open = weeks.filter(f);
    let res = upcoming_spec(weeks, today);
    broadcast use vstd::seq_lib::group_filter_ensures;

    assert forall|k: int| 0 <= k < res.len() implies (#[trigger] res[k]).end >= today by {
        assert(res[k] == open[k]);
        assert(f(open[k]));
    }
    if 0 <= j < weeks.len() && weeks[j].end >= today && open_weeks_before(weeks, today, j)
        < UPCOMING_WEEKS {
        let c = open_weeks_before(weeks, today, j) as int;
        let pre = weeks.subrange(0, j + 1);
        assert(pre.drop_last() =~= weeks.subrange(0, j));
        assert(pre.last() == weeks[j]);
        reveal(Seq::filter);
        assert(pre.filter(f) == weeks.subrange(0, j).filter(f).push(weeks[j]));
        lemma_filter_prefix(weeks, j + 1, f);
        assert(pre.filter(f)[c] == weeks[j]);
        assert(open[c] == weeks[j]);
    }
}

/// Filtering a prefix gives a prefix of the filtered sequence.
proof fn lemma_filter_prefix(s: Seq<WeekView>, k: int, f: spec_fn(WeekView) -> bool)
    requires
        0 <= k <= s.len(),
    ensures
        s.subrange(0, k).filter(f).len() <= s.filter(f).len(),
        forall|i: int|
            0 <= i < s.subrange(0, k).filter(f).len() ==> #[trigger] s.subrange(0, k).filter(f)[i]
                == s.filter(f)[i],
    decreases s.len() - k,
{
    if k < s.len() {
        lemma_filter_prefix(s, k + 1, f);
        let a = s.subrange(0, k + 1);
        assert(a.drop_last() =~= s.subrange(0, k));
        reveal(Seq::filter);
        assert(a.filter(f) == if f(a.last()) {
            s.subrange(0, k).filter(f).push(a.last())
        } else {
            s.subrange(0, k).filter(f)
        });
        assert forall|i: int| 0 <= i < s.subrange(0, k).filter(f).len() implies #[trigger] s.subrange(
            0,
            k,
        ).filter(f)[i] == s.filter(f)[i] by {
            assert(a.filter(f)[i] == s.subrange(0, k).filter(f)[i]);
        }
    } else {
        assert(s.subrange(0, k) =~= s);
    }
}

// ---------------------------------------------------------------------------
// The rotation offset dropdown

/// The dropdown's options: every phase `0..apartment_count` (shifting by the
/// count equals shifting by 0, so these are all distinct phases), each
/// marked when it is the current one, and the current value appended when
/// it lies outside that range, so the dropdown always shows it.
pub open spec fn rotation_seed_options_spec(current: int, apartment_count: int) -> Seq<(i64, bool)> {
    let base = Seq::new(apartment_count as nat, |v: int| (v as i64, v == current));
    if 0 <= current < apartment_count {
        base
    } else {
        base.push((current as i64, true))
    }
}

pub fn rotation_seed_options(current: i64, apartment_count: usize) -> (res: Vec<(i64, bool)>)
    requires
        apartment_count <= i64::MAX,
    ensures
        res@ == rotation_seed_options_spec(current as int, apartment_count as int),
{
    let n = apartment_count as i64;
    let mut options: Vec<(i64, bool)> = Vec::new();
    let mut v: i64 = 0;
    while v < n
        invariant
            n == apartment_count,
            0 <= v <= n,
            options@ == Seq::new(v as nat, |x: int| (x as i64, x == current)),
        decreases n - v,
    {
        options.push((v, v == current));
        assert(options@ =~= Seq::new((v + 1) as nat, |x: int| (x as i64, x == current)));
        v = v + 1;
    }
    let mut found = false;
    let mut k: usize = 0;
    while k < options.len()
        invariant
            k <= options@.len(),
            options@.len() == n,
            n == apartment_count,
            options@ == Seq::new(n as nat, |x: int| (x as i64, x == current)),
            found == (0 <= current < k),
        decreases options@.len() - k,
    {
        if options[k].0 == current {
            found = true;
        }
        k = k + 1;
    }
    if !found {
        options.push((current, true));
    }
    options
}

/// The dropdown offers every value once and marks exactly one of them,
/// the current value.
pub proof fn law_rotation_options_mark_current_once(current: i64, apartment_count: int)
    requires
        0 <= apartment_count <= i64::MAX,
    ensures
        ({
            let opts = rotation_seed_options_spec(current as int, apartment_count);
            &&& exists|i: int| 0 <= i < opts.len() && opts[i] == (current, true)
            &&& forall|i: int| 0 <= i < opts.len() && (#[trigger] opts[i]).1 ==> opts[i].0 == current
            &&& forall|i: int, j: int|
                0 <= i < j < opts.len() ==> (#[trigger] opts[i]).0 != (#[trigger] opts[j]).0
            &&& forall|v: int| 0 <= v < apartment_count ==> (#[trigger] opts[v]).0 == v
        }),
{
    let opts = rotation_seed_options_spec(current as int, apartment_count);
    if 0 <= current < apartment_count {
        assert(opts[current as int] == (current, true));
    } else {
        assert(opts[apartment_count] == (current, true));
    }
}

// ---------------------------------------------------------------------------
// The apartments of the building page

/// One row of the floor stack on the building page: the apartment itself,
/// the plate letter shown next to its name, and its position in the
/// cleaning rotation (creation order, with the scheduler's tie-breaks).
pub struct ApartmentRow {
    pub apartment: Apartment,
    pub plate: String,
    pub rotation: u32,
}

/// The plate letter: the uppercase form of the name's first character,
/// nothing for an empty name.
pub open spec fn plate_spec(name: Seq<char>) -> Seq<char> {
    if name.len() == 0 {
        seq![]
    } else {
        unicode_uppercase(name[0])
    }
}

/// The last position at or before `k` in `order` whose apartment has the id
/// `id`; -1 when there is none.
pub open spec fn last_pos_with_id(apts: Seq<Apartment>, order: Seq<usize>, id: Seq<char>, k: int) -> int
    decreases k + 1,
{
    if k < 0 {
        -1
    } else if apts[order[k] as int].id@ == id {
        k
    } else {
        last_pos_with_id(apts, order, id, k - 1)
    }
}

/// The rotation rank shown for apartment `i`: one more than the position of
/// its id in the rotation order (the ranks are looked up by id, so of
/// several apartments sharing an id the last one's position counts).
pub open spec fn rotation_rank(apts: Seq<Apartment>, i: int) -> int {
    let order = crate::scheduler::rotation_order_spec(apts);
    last_pos_with_id(apts, order, apts[i].id@, order.len() - 1) + 1
}

/// Map the building's apartments (display order) to rows with a rotation
/// rank.
pub fn apartment_rows(apartments: Vec<Apartment>) -> (res: Vec<ApartmentRow>)
    requires
        apartments@.len() < u32::MAX,
    ensures
        res@.len() == apartments@.len(),
        forall|i: int|
            0 <= i < apartments@.len() ==> {
                &&& (#[trigger] res@[i]).apartment == apartments@[i]
                &&& res@[i].plate@ == plate_spec(apartments@[i].name@)
                &&& res@[i].rotation == rotation_rank(apartments@, i)
            },
{
    let n = apartments.len();
    let order = rotation_order(&apartments);
    let mut rows: Vec<ApartmentRow> = Vec::new();
    let mut i: usize = 0;
    while i < n
        invariant
            n == apartments@.len(),
            n < u32::MAX,
            i <= n,
            is_rotation_order(apartments@, order@),
            order@ == crate::scheduler::rotation_order_spec(apartments@),
            rows@.len() == i,
            forall|j: int|
                0 <= j < i ==> {
                    &&& (#[trigger] rows@[j]).apartment == apartments@[j]
                    &&& rows@[j].plate@ == plate_spec(apartments@[j].name@)
                    &&& rows@[j].rotation == rotation_rank(apartments@, j)
                },
        decreases n - i,
    {
        let a = &apartments[i];
        let ghost id = a.id@;
        let mut k: usize = n;
        let mut rank: u32 = 0;
        while k > 0 && rank == 0
            invariant
                n == apartments@.len(),
                n < u32::MAX,
                k <= n,
                id == apartments@[i as int].id@,
                *a == apartments@[i as int],
                i < n,
                order@.len() == n,
                forall|p: int| 0 <= p < order@.len() ==> (#[trigger] order@[p]) < n,
                rank == 0 ==> last_pos_with_id(apartments@, order@, id, n - 1) == last_pos_with_id(
                    apartments@,
                    order@,
                    id,
                    k - 1,
                ),
                rank != 0 ==> rank == last_pos_with_id(apartments@, order@, id, n - 1) + 1,
            decreases k + (if rank == 0 { 1int } else { 0int }),
        {
            let b = &apartments[order[k - 1]];
            let ghost pos = order@[k - 1] as int;
            assert(*b == apartments@[pos]);
            if str_eq(b.id.as_str(), a.id.as_str()) {
                assert(last_pos_with_id(apartments@, order@, id, k - 1) == k - 1);
                rank = k as u32;
            } else {
                assert(last_pos_with_id(apartments@, order@, id, k - 1) == last_pos_with_id(
                    apartments@,
                    order@,
                    id,
                    k - 2,
                ));
                k = k - 1;
            }
        }
        let name = a.name.as_str();
        let plate = if name.unicode_len() > 0 {
            char_to_uppercase(name.get_char(0))
        } else {
            String::new()
        };
        rows.push(ApartmentRow { apartment: a.duplicate(), plate, rotation: rank });
        i = i + 1;
    }
    rows
}

// ---------------------------------------------------------------------------
// The people pages

/// A link target used by the role entries of the person page.
pub struct BuildingLink {
    pub id: String,
    pub name: String,
}

/// A link target used by the apartment role entries of the person page.
pub struct ApartmentLink {
    pub id: String,
    pub name: String,
    pub building_id: String,
    pub building_name: String,
}

/// One role of a person on the person page.
pub enum PersonRole {
    Admin { building: BuildingLink },
    BuildingOwner { building: BuildingLink, start_date: String, end_date: Option<String> },
    ApartmentOwner { apartment: ApartmentLink, start_date: String, end_date: Option<String> },
    Tenant { apartment: ApartmentLink, start_date: String, end_date: Option<String> },
}

/// One row of the people index.
pub struct PersonIndexEntry {
    pub person: Person,
    pub roles_summary: String,
}

/// Form data of the person page's contact form.
pub struct PersonForm {
    pub name: String,
    pub email: String,
}

/// The role kinds a role row can have.
pub open spec fn is_role_kind(kind: Seq<char>) -> bool {
    ||| kind == "admin"@
    ||| kind == "building_owner"@
    ||| kind == "apartment_owner"@
    ||| kind == "tenant"@
}

/// A role row as the role query returns it: a known kind, the building of
/// the role, the apartment of an apartment role, and the start of a period
/// role.
pub open spec fn role_row_complete(row: PersonRoleRow) -> bool {
    &&& is_role_kind(row.kind@)
    &&& row.building_id is Some
    &&& row.building_name is Some
    &&& (row.kind@ == "apartment_owner"@ || row.kind@ == "tenant"@) ==> row.apartment_id is Some
        && row.apartment_name is Some
    &&& row.kind@ != "admin"@ ==> row.start_date is Some
}

/// The building link of a role row.
pub open spec fn row_building(row: PersonRoleRow) -> BuildingLink {
    BuildingLink { id: row.building_id->0, name: row.building_name->0 }
}

/// The apartment link of a role row.
pub open spec fn row_apartment(row: PersonRoleRow) -> ApartmentLink {
    ApartmentLink {
        id: row.apartment_id->0,
        name: row.apartment_name->0,
        building_id: row.building_id->0,
        building_name: row.building_name->0,
    }
}

/// The display entry of a role row: its `kind` column picks the variant.
pub open spec fn person_role_spec(row: PersonRoleRow) -> PersonRole {
    if row.kind@ == "admin"@ {
        PersonRole::Admin { building: row_building(row) }
    } else if row.kind@ == "building_owner"@ {
        PersonRole::BuildingOwner {
            building: row_building(row),
            start_date: row.start_date->0,
            end_date: row.end_date,
        }
    } else if row.kind@ == "apartment_owner"@ {
        PersonRole::ApartmentOwner {
            apartment: row_apartment(row),
            start_date: row.start_date->0,
            end_date: row.end_date,
        }
    } else {
        PersonRole::Tenant {
            apartment: row_apartment(row),
            start_date: row.start_date->0,
            end_date: row.end_date,
        }
    }
}

fn take_string(s: Option<String>) -> (res: String)
    requires
        s is Some,
    ensures
        res == s->0,
{
    match s {
        Some(x) => x,
        None => String::new(),
    }
}

/// Map one role row of the role query to its display entry; the `kind`
/// column hands the row to its variant.
pub fn person_role(row: PersonRoleRow) -> (res: PersonRole)
    requires
        role_row_complete(row),
    ensures
        res == person_role_spec(row),
{
    let is_admin = str_eq(row.kind.as_str(), "admin");
    let is_building_owner = str_eq(row.kind.as_str(), "building_owner");
    let is_apartment_owner = str_eq(row.kind.as_str(), "apartment_owner");
    let PersonRoleRow {
        person_id,
        person_name,
        person_email,
        kind,
        building_id,
        building_name,
        apartment_id,
        apartment_name,
        start_date,
        end_date,
    } = row;
    let bid = take_string(building_id);
    let bname = take_string(building_name);
    if is_admin {
        PersonRole::Admin { building: BuildingLink { id: bid, name: bname } }
    } else if is_building_owner {
        PersonRole::BuildingOwner {
            building: BuildingLink { id: bid, name: bname },
            start_date: take_string(start_date),
            end_date,
        }
    } else {
        let apartment = ApartmentLink {
            id: take_string(apartment_id),
            name: take_string(apartment_name),
            building_id: bid,
            building_name: bname,
        };
        if is_apartment_owner {
            PersonRole::ApartmentOwner { apartment, start_date: take_string(start_date), end_date }
        } else {
            PersonRole::Tenant { apartment, start_date: take_string(start_date), end_date }
        }
    }
}

/// The display entries of role rows, in order.
pub fn person_roles(rows: Vec<PersonRoleRow>) -> (res: Vec<PersonRole>)
    requires
        forall|i: int| 0 <= i < rows@.len() ==> role_row_complete(#[trigger] rows@[i]),
    ensures
        res@.len() == rows@.len(),
        forall|i: int| 0 <= i < rows@.len() ==> #[trigger] res@[i] == person_role_spec(rows@[i]),
{
    let ghost original = rows@;
    let mut rows = rows;
    let mut out: Vec<PersonRole> = Vec::new();
    let n = rows.len();
    let mut taken: Vec<PersonRole> = Vec::new();
    while rows.len() > 0
        invariant
            rows@ == original.subrange(0, rows@.len() as int),
            rows@.len() <= n,
            n == original.len(),
            taken@.len() == n - rows@.len(),
            forall|i: int| 0 <= i < original.len() ==> role_row_complete(#[trigger] original[i]),
            forall|k: int|
                0 <= k < taken@.len() ==> #[trigger] taken@[k] == person_role_spec(
                    original[n - 1 - k],
                ),
        decreases rows@.len(),
    {
        let row = rows.pop().unwrap();
        let ghost at = rows@.len() as int;
        assert(row == original[at]);
        taken.push(person_role(row));
    }
    while taken.len() > 0
        invariant
            taken@.len() + out@.len() == n,
            n == original.len(),
            forall|k: int|
                0 <= k < taken@.len() ==> #[trigger] taken@[k] == person_role_spec(
                    original[n - 1 - k],
                ),
            forall|k: int| 0 <= k < out@.len() ==> #[trigger] out@[k] == person_role_spec(original[k]),
        decreases taken@.len(),
    {
        let ghost k = taken@.len() - 1;
        let r = taken.pop().unwrap();
        assert(r == person_role_spec(original[n - 1 - k]));
        out.push(r);
    }
    out
}

/// The short role label shown in the people index listing.
pub open spec fn role_label_spec(role: PersonRole) -> Seq<char> {
    match role {
        PersonRole::Admin { building } => "Ansprechpartner von "@ + building.name@,
        PersonRole::BuildingOwner { building, .. } => "Gebäudeeigentümer von "@ + building.name@,
        PersonRole::ApartmentOwner { apartment, .. } => "Eigentümer von "@ + apartment.name@ + " ("@
            + apartment.building_name@ + seq![')'],
        PersonRole::Tenant { apartment, .. } => "Mieter von "@ + apartment.name@ + " ("@
            + apartment.building_name@ + seq![')'],
    }
}

/// The short role label shown in the people index listing.
pub fn role_label(role: &PersonRole) -> (res: String)
    ensures
        res@ == role_label_spec(*role),
{
    match role {
        PersonRole::Admin { building } => {
            let mut out = String::from_str("Ansprechpartner von ");
            out.append(building.name.as_str());
            out
        },
        PersonRole::BuildingOwner { building, .. } => {
            let mut out = String::from_str("Gebäudeeigentümer von ");
            out.append(building.name.as_str());
            out
        },
        PersonRole::ApartmentOwner { apartment, .. } => {
            let mut out = String::from_str("Eigentümer von ");
            out.append(apartment.name.as_str());
            out.append(" (");
            out.append(apartment.building_name.as_str());
            push_char(&mut out, ')');
            out
        },
        PersonRole::Tenant { apartment, .. } => {
            let mut out = String::from_str("Mieter von ");
            out.append(apartment.name.as_str());
            out.append(" (");
            out.append(apartment.building_name.as_str());
            push_char(&mut out, ')');
            out
        },
    }
}

/// How many role labels the people index shows before it abbreviates.
pub const MAX_SUMMARIZED: usize = 2;

/// A compact role summary for the people index: the labels joined by
/// ` · `; beyond two roles, the first two and then `+N weitere`.
pub open spec fn roles_summary_spec(roles: Seq<PersonRole>) -> Seq<char> {
    if roles.len() == 0 {
        seq![]
    } else if roles.len() == 1 {
        role_label_spec(roles[0])
    } else if roles.len() == 2 {
        role_label_spec(roles[0]) + " · "@ + role_label_spec(roles[1])
    } else {
        role_label_spec(roles[0]) + " · "@ + role_label_spec(roles[1]) + " · +"@ + decimal(
            (roles.len() - 2) as nat,
        ) + " weitere"@
    }
}

/// A compact, truncated role summary for the people index: the first two
/// roles, then "+N weitere". The person page lists the roles in full.
pub fn roles_summary(roles: &[PersonRole]) -> (res: String)
    ensures
        res@ == roles_summary_spec(roles@),
{
    let n = roles.len();
    if n == 0 {
        return String::new();
    }
    let mut out = role_label(&roles[0]);
    if n >= 2 {
        out.append(" · ");
        let second = role_label(&roles[1]);
        out.append(second.as_str());
    }
    if n > MAX_SUMMARIZED {
        out.append(" · +");
        push_decimal(&mut out, (n - MAX_SUMMARIZED) as u64);
        out.append(" weitere");
    }
    out
}

/// The roles of person `id` among the role rows, in row order.
pub open spec fn roles_of(id: Seq<char>, rows: Seq<PersonRoleRow>) -> Seq<PersonRole>
    decreases rows.len(),
{
    if rows.len() == 0 {
        seq![]
    } else {
        let rest = roles_of(id, rows.drop_last());
        if rows.last().person_id@ == id {
            rest.push(person_role_spec(rows.last()))
        } else {
            rest
        }
    }
}

fn copy_person(p: &Person) -> (res: Person)
    ensures
        res == *p,
{
    Person {
        id: p.id.clone(),
        name: p.name.clone(),
        display_name: copy_opt_string(&p.display_name),
        email: p.email.clone(),
        created_at: p.created_at.clone(),
    }
}

fn copy_role_row(r: &PersonRoleRow) -> (res: PersonRoleRow)
    ensures
        res == *r,
{
    PersonRoleRow {
        person_id: r.person_id.clone(),
        person_name: r.person_name.clone(),
        person_email: r.person_email.clone(),
        kind: r.kind.clone(),
        building_id: copy_opt_string(&r.building_id),
        building_name: copy_opt_string(&r.building_name),
        apartment_id: copy_opt_string(&r.apartment_id),
        apartment_name: copy_opt_string(&r.apartment_name),
        start_date: copy_opt_string(&r.start_date),
        end_date: copy_opt_string(&r.end_date),
    }
}

/// The rows of the people index: each person with the summary of the roles
/// that the role rows give that person.
pub fn person_index_entries(people: &Vec<Person>, rows: &Vec<PersonRoleRow>) -> (res: Vec<
    PersonIndexEntry,
>)
    requires
        forall|i: int| 0 <= i < rows@.len() ==> role_row_complete(#[trigger] rows@[i]),
    ensures
        res@.len() == people@.len(),
        forall|i: int|
            0 <= i < people@.len() ==> {
                &&& (#[trigger] res@[i]).person == people@[i]
                &&& res@[i].roles_summary@ == roles_summary_spec(
                    roles_of(people@[i].id@, rows@),
                )
            },
{
    let mut out: Vec<PersonIndexEntry> = Vec::new();
    let mut i: usize = 0;
    while i < people.len()
        invariant
            i <= people@.len(),
            out@.len() == i,
            forall|k: int| 0 <= k < rows@.len() ==> role_row_complete(#[trigger] rows@[k]),
            forall|k: int|
                0 <= k < i ==> {
                    &&& (#[trigger] out@[k]).person == people@[k]
                    &&& out@[k].roles_summary@ == roles_summary_spec(
                        roles_of(people@[k].id@, rows@),
                    )
                },
        decreases people@.len() - i,
    {
        let person = &people[i];
        let mut roles: Vec<PersonRole> = Vec::new();
        let mut j: usize = 0;
        while j < rows.len()
            invariant
                j <= rows@.len(),
                *person == people@[i as int],
                forall|k: int| 0 <= k < rows@.len() ==> role_row_complete(#[trigger] rows@[k]),
                roles@ == roles_of(person.id@, rows@.subrange(0, j as int)),
            decreases rows@.len() - j,
        {
            let row = &rows[j];
            proof {
                assert(rows@.subrange(0, j + 1).drop_last() =~= rows@.subrange(0, j as int));
                assert(rows@.subrange(0, j + 1).last() == *row);
            }
            if str_eq(row.person_id.as_str(), person.id.as_str()) {
                roles.push(person_role(copy_role_row(row)));
            }
            j = j + 1;
        }
        assert(rows@.subrange(0, rows@.len() as int) =~= rows@);
        let summary = roles_summary(roles.as_slice());
        out.push(PersonIndexEntry { person: copy_person(person), roles_summary: summary });
        i = i + 1;
    }
    out
}

// ---------------------------------------------------------------------------
// The forms

/// Form data of the "new building" page. The owner fields belong to the
/// "building" ownership style (one person or company owns the whole
/// building); with the "apartments" style (each flat has its own owner, the
/// default) they are ignored.
pub struct CreateBuildingForm {
    pub name: String,
    pub description: String,
    pub admin_name: String,
    pub admin_email: String,
    pub ownership_style: String,
    pub owner_name: String,
    pub owner_email: String,
    pub owner_start_date: String,
}

/// Form data of the "edit building" page. The Ansprechpartner fields are
/// optional: when both are left blank, the existing administrator record is
/// kept unchanged.
pub struct UpdateBuildingForm {
    pub name: String,
    pub description: String,
    pub admin_name: String,
    pub admin_email: String,
}

/// Form data of the rotation-offset dropdown.
pub struct RotationSeedForm {
    pub rotation_seed: i64,
}

/// Form data of the "new apartment" page: besides name and description it
/// collects the initial owner, because an apartment needs an ownership from
/// the moment it exists (unless a building owner covers it).
pub struct CreateApartmentForm {
    pub name: String,
    pub description: String,
    pub owner_name: String,
    pub owner_email: String,
    pub owner_start_date: String,
    pub owner_end_date: Option<String>,
}

/// Form data of the "edit apartment" page: name and description only.
pub struct UpdateApartmentForm {
    pub name: String,
    pub description: String,
}

/// Form data of the "add owner" form of an apartment. `close_previous` is
/// the "yes"/"no" answer to whether the previous ownership shall end on the
/// day before the new one begins; it is absent on the first submission.
pub struct OwnershipForm {
    pub name: String,
    pub email: String,
    pub start_date: String,
    pub end_date: Option<String>,
    pub close_previous: Option<String>,
}

/// The tenant analogue of [`OwnershipForm`].
pub struct TenancyForm {
    pub name: String,
    pub email: String,
    pub start_date: String,
    pub end_date: Option<String>,
    pub close_previous: Option<String>,
}

/// Form data of the building-owner add/edit forms.
pub struct BuildingOwnerForm {
    pub name: String,
    pub email: String,
    pub start_date: String,
    pub end_date: Option<String>,
    pub close_previous: Option<String>,
}

/// The question asked when adding an owner would start before the previous
/// ownership ends: whether the previous ownership shall end on the day
/// before the new one begins.
pub struct OwnershipConfirmation {
    pub previous_name: String,
    /// The day before the new ownership's start date.
    pub previous_end: String,
    /// The new ownership's start date.
    pub new_start: String,
}

/// The tenant analogue of [`OwnershipConfirmation`].
pub struct TenancyConfirmation {
    pub previous_name: String,
    pub previous_end: String,
    pub new_start: String,
}

/// The building-owner analogue of [`OwnershipConfirmation`].
pub struct BuildingOwnerConfirmation {
    pub previous_name: String,
    pub previous_end: String,
    pub new_start: String,
}

/// An end date as the forms submit it: trimmed, and absent when blank.
pub open spec fn normalize_end_date_spec(end_date: Option<Seq<char>>) -> Option<Seq<char>> {
    match end_date {
        Some(e) => if trim_spec(e).len() == 0 {
            None
        } else {
            Some(trim_spec(e))
        },
        None => None,
    }
}

pub open spec fn opt_str(s: Option<&str>) -> Option<Seq<char>> {
    match s {
        Some(x) => Some(x@),
        None => None,
    }
}

/// Trim a submitted end date; a blank one means "open-ended".
pub fn normalize_end_date(end_date: Option<&str>) -> (res: Option<&str>)
    ensures
        opt_str(res) == normalize_end_date_spec(opt_str(end_date)),
{
    match end_date {
        Some(e) => {
            let t = trim(e);
            if t.unicode_len() == 0 {
                None
            } else {
                Some(t)
            }
        },
        None => None,
    }
}

/// The message shown when a wholly owned building is submitted without its
/// owner.
pub open spec fn missing_owner_message() -> Seq<char> {
    "Für ein Gebäude mit einem einzigen Eigentümer müssen Name, E-Mail-Adresse und Beginn („Eigentum ab“) angegeben werden."@
}

/// The owner a new building is created with: none for the "apartments"
/// style; for the "building" style the submitted owner, unless name, e-mail
/// and start are all blank, which is refused with
/// [`missing_owner_message`] (a partly filled owner goes to the database,
/// which reports what is missing).
pub fn building_owner_input<'a>(form: &'a CreateBuildingForm) -> (res: Result<
    Option<NewOwner<'a>>,
    String,
>)
    ensures
        form.ownership_style@ != "building"@ ==> res == Ok::<Option<NewOwner<'a>>, String>(None),
        form.ownership_style@ == "building"@ ==> {
            if is_blank(form.owner_name@) && is_blank(form.owner_email@) && is_blank(
                form.owner_start_date@,
            ) {
                res matches Err(m) && m@ == missing_owner_message()
            } else {
                res matches Ok(Some(o)) && o.name@ == form.owner_name@ && o.email@
                    == form.owner_email@ && o.start_date@ == form.owner_start_date@
                    && o.end_date is None
            }
        },
{
    if !str_eq(form.ownership_style.as_str(), "building") {
        return Ok(None);
    }
    if is_blank_str(form.owner_name.as_str()) && is_blank_str(form.owner_email.as_str())
        && is_blank_str(form.owner_start_date.as_str()) {
        return Err(to_owned("Für ein Gebäude mit einem einzigen Eigentümer müssen Name, E-Mail-Adresse und Beginn („Eigentum ab“) angegeben werden."));
    }
    Ok(
        Some(
            NewOwner {
                name: form.owner_name.as_str(),
                email: form.owner_email.as_str(),
                start_date: form.owner_start_date.as_str(),
                end_date: None,
            },
        ),
    )
}

/// The first owner a new apartment is created with: none when the building
/// has a building owner and the owner fields are all blank (the apartment
/// then belongs to the building owner); otherwise the submitted owner with
/// its end date normalized.
pub fn apartment_owner_input<'a>(form: &'a CreateApartmentForm, has_building_owner: bool) -> (res:
    Option<NewOwner<'a>>)
    ensures
        (has_building_owner && is_blank(form.owner_name@) && is_blank(form.owner_email@) && is_blank(
            form.owner_start_date@,
        )) ==> res is None,
        !(has_building_owner && is_blank(form.owner_name@) && is_blank(form.owner_email@)
            && is_blank(form.owner_start_date@)) ==> (res matches Some(o) && o.name@
            == form.owner_name@ && o.email@ == form.owner_email@ && o.start_date@
            == form.owner_start_date@ && opt_str(o.end_date) == normalize_end_date_spec(
            opt_view(form.owner_end_date),
        )),
{
    let end_date: Option<&str> = match &form.owner_end_date {
        Some(e) => Some(e.as_str()),
        None => None,
    };
    let end_opt = normalize_end_date(end_date);
    if has_building_owner && is_blank_str(form.owner_name.as_str()) && is_blank_str(
        form.owner_email.as_str(),
    ) && is_blank_str(form.owner_start_date.as_str()) {
        None
    } else {
        Some(
            NewOwner {
                name: form.owner_name.as_str(),
                email: form.owner_email.as_str(),
                start_date: form.owner_start_date.as_str(),
                end_date: end_opt,
            },
        )
    }
}

/// The Ansprechpartner an edited building is stored with: none (the current
/// one stays) when both fields are blank.
pub fn administrator_input<'a>(form: &'a UpdateBuildingForm) -> (res: Option<(&'a str, &'a str)>)
    ensures
        (is_blank(form.admin_name@) && is_blank(form.admin_email@)) ==> res is None,
        !(is_blank(form.admin_name@) && is_blank(form.admin_email@)) ==> (res matches Some(p)
            && p.0@ == form.admin_name@ && p.1@ == form.admin_email@),
{
    if is_blank_str(form.admin_name.as_str()) && is_blank_str(form.admin_email.as_str()) {
        None
    } else {
        Some((form.admin_name.as_str(), form.admin_email.as_str()))
    }
}

// ---------------------------------------------------------------------------
// Adding an owner, a tenant or a building owner

/// What a new period is: an apartment's ownership, a tenancy, or a
/// building ownership.
#[derive(Debug, Clone, Copy, PartialEq, Eq, Structural)]
pub enum PeriodKind {
    Ownership,
    Tenancy,
    BuildingOwner,
}

/// The calendar format of stored dates.
pub open spec fn iso_date_format() -> Seq<char> {
    "%Y-%m-%d"@
}

/// The day before a `YYYY-MM-DD` date, in that format, if the date parses.
pub open spec fn previous_day_spec(date: Seq<char>) -> Option<Seq<char>> {
    match chrono_parse_date(date, iso_date_format()) {
        Some(d) => Some(chrono_format_date(d - 1, iso_date_format())),
        None => None,
    }
}

/// The day before the given canonical YYYY-MM-DD date, if it parses. The
/// first day chrono can represent has no day before it.
fn previous_day(date: &str) -> (res: Option<String>)
    requires
        chrono_parse_date(date@, iso_date_format()) != Some(min_date_days()),
    ensures
        opt_view(res) == previous_day_spec(date@),
{
    match parse_date(date, "%Y-%m-%d") {
        Some(d) => {
            let before = Date { days: d.days - 1 };
            Some(format_date(before, "%Y-%m-%d"))
        },
        None => None,
    }
}

/// What a create form does next, once the database has said whether a
/// period of the same kind covers the new start date.
#[derive(Debug)]
pub enum CreationStep {
    /// Create the period as submitted; the database enforces the rules.
    Create,
    /// Ask whether the previous period shall end on `previous_end`, the day
    /// before `new_start`.
    AskToClose { previous_name: String, previous_end: String, new_start: String },
    /// Create the period and end the previous one on `previous_end`.
    CreateClosingPrevious { previous_id: String, previous_end: String },
    /// The user declined to end the previous period; the message says why
    /// nothing can be created.
    Declined { message: String },
    /// The start date is the first day chrono represents, so there is no day
    /// before it to end the previous period on.
    NoDayBefore,
}

/// The message shown when the user declines to end the previous period.
pub open spec fn declined_message(kind: PeriodKind, previous_name: Seq<char>, previous_end: Seq<char>) -> Seq<char> {
    match kind {
        PeriodKind::Ownership => "Ohne das bisherige Eigentum von "@ + previous_name + " am "@
            + previous_end + " zu beenden, kann das neue Eigentum nicht angelegt werden."@,
        PeriodKind::Tenancy => "Ohne das bisherige Mietverhältnis von "@ + previous_name + " am "@
            + previous_end + " zu beenden, kann das neue Mietverhältnis nicht angelegt werden."@,
        PeriodKind::BuildingOwner => "Ohne das bisherige Gebäudeeigentum von "@ + previous_name
            + " am "@ + previous_end
            + " zu beenden, kann der neue Gebäudeeigentümer nicht angelegt werden."@,
    }
}

fn declined_text(kind: PeriodKind, previous_name: &str, previous_end: &str) -> (res: String)
    ensures
        res@ == declined_message(kind, previous_name@, previous_end@),
{
    let (head, tail) = match kind {
        PeriodKind::Ownership => (
            "Ohne das bisherige Eigentum von ",
            " zu beenden, kann das neue Eigentum nicht angelegt werden.",
        ),
        PeriodKind::Tenancy => (
            "Ohne das bisherige Mietverhältnis von ",
            " zu beenden, kann das neue Mietverhältnis nicht angelegt werden.",
        ),
        PeriodKind::BuildingOwner => (
            "Ohne das bisherige Gebäudeeigentum von ",
            " zu beenden, kann der neue Gebäudeeigentümer nicht angelegt werden.",
        ),
    };
    let mut out = String::from_str(head);
    out.append(previous_name);
    out.append(" am ");
    out.append(previous_end);
    out.append(tail);
    out
}

/// The next step of adding a period. `previous` is the id and name of the
/// period of the same kind that covers the new start date, if the database
/// found one. Without one, or when the start date does not parse (the
/// database then reports it), the period is created as submitted.
/// Otherwise the answer to the question decides: none yet asks it, "yes"
/// creates the period and closes the previous one on the day before the
/// new start, any other answer declines.
pub open spec fn creation_step_matches(
    res: CreationStep,
    kind: PeriodKind,
    previous: Option<(Seq<char>, Seq<char>)>,
    start_date: Seq<char>,
    close_previous: Option<Seq<char>>,
) -> bool {
    match previous {
        None => res is Create,
        Some(prev) => match chrono_parse_date(start_date, iso_date_format()) {
            None => res is Create,
            Some(d) => if d == min_date_days() {
                res is NoDayBefore
            } else {
                let prev_end = chrono_format_date(d - 1, iso_date_format());
                match close_previous {
                    None => res matches CreationStep::AskToClose {
                        previous_name,
                        previous_end,
                        new_start,
                    } && previous_name@ == prev.1 && previous_end@ == prev_end && new_start@
                        == start_date,
                    Some(answer) => if answer == "yes"@ {
                        res matches CreationStep::CreateClosingPrevious {
                            previous_id,
                            previous_end,
                        } && previous_id@ == prev.0 && previous_end@ == prev_end
                    } else {
                        res matches CreationStep::Declined { message } && message@
                            == declined_message(kind, prev.1, prev_end)
                    },
                }
            },
        },
    }
}

/// Decide the next step of adding an ownership, a tenancy or a building
/// owner (see [`creation_step_matches`]).
pub fn creation_step(
    kind: PeriodKind,
    previous: Option<(&str, &str)>,
    start_date: &str,
    close_previous: Option<&str>,
) -> (res: CreationStep)
    ensures
        creation_step_matches(
            res,
            kind,
            match previous {
                Some(p) => Some((p.0@, p.1@)),
                None => None,
            },
            start_date@,
            opt_str(close_previous),
        ),
{
    let (prev_id, prev_name) = match previous {
        Some(p) => p,
        None => {
            return CreationStep::Create;
        },
    };
    let parsed = parse_date(start_date, "%Y-%m-%d");
    match parsed {
        None => {
            return CreationStep::Create;
        },
        Some(d) => {
            if d.days == -95746129 {
                return CreationStep::NoDayBefore;
            }
        },
    }
    let prev_end = match previous_day(start_date) {
        Some(e) => e,
        None => {
            return CreationStep::Create;
        },
    };
    match close_previous {
        None => CreationStep::AskToClose {
            previous_name: to_owned(prev_name),
            previous_end: prev_end,
            new_start: to_owned(start_date),
        },
        Some(answer) => {
            if str_eq(answer, "yes") {
                CreationStep::CreateClosingPrevious {
                    previous_id: to_owned(prev_id),
                    previous_end: prev_end,
                }
            } else {
                let message = declined_text(kind, prev_name, prev_end.as_str());
                CreationStep::Declined { message }
            }
        },
    }
}

// ---------------------------------------------------------------------------
// The pages
//
// What each admin page shows; the application renders them.

/// The list of all buildings.
pub struct BuildingsIndexTemplate {
    pub title: &'static str,
    pub buildings: Vec<Building>,
}

/// The "new building" form.
pub struct BuildingsNewTemplate {
    pub title: &'static str,
    pub error: Option<String>,
    /// Submitted values, preserved when validation fails.
    pub name: String,
    pub description: String,
    pub admin_name: String,
    pub admin_email: String,
    /// The building's ownership structure, chosen visually on the form:
    /// "apartments" (each flat gets its own owner, WEG) or "building" (one
    /// person/company owns the whole building).
    pub ownership_style: String,
    /// Optional initial building owner, collected in the same form so a
    /// wholly-owned building needs no separate owner-creation step.
    pub owner_name: String,
    pub owner_email: String,
    pub owner_start_date: String,
    /// Known owners, offered as suggestions on the name/e-mail fields.
    pub people: Vec<Person>,
}

/// The "edit building" form.
pub struct BuildingsEditTemplate {
    pub title: &'static str,
    pub building: Building,
    pub error: Option<String>,
    /// Submitted values, preserved when validation fails.
    pub name: String,
    pub description: String,
    pub admin_name: String,
    pub admin_email: String,
    /// Known people, offered as suggestions on the Ansprechpartner fields.
    pub people: Vec<Person>,
}

/// The building page: header, upcoming schedule, apartments and building
/// owners.
pub struct BuildingsShowTemplate {
    pub title: String,
    pub building: Building,
    pub admins: Vec<BuildingAdministrator>,
    pub building_owners: Vec<BuildingOwner>,
    pub apartments: Vec<ApartmentRow>,
    pub year: i32,
    pub schedule: Vec<ScheduleRow>,
    pub rotation_options: Vec<(i64, bool)>,
    /// Whether any apartment has its own ownership record. Then the building
    /// is a WEG, and adding a building owner is not offered.
    pub has_apartment_owners: bool,
    pub error: Option<String>,
}

/// A building's schedule for the whole year.
pub struct BuildingsScheduleTemplate {
    pub title: String,
    pub building: Building,
    pub year: i32,
    pub schedule: Vec<ScheduleRow>,
}

/// The "new apartment" form.
pub struct ApartmentsNewTemplate {
    pub title: &'static str,
    pub building: Building,
    pub error: Option<String>,
    pub name: String,
    pub description: String,
    /// Whether the building has a building owner; then the first-owner fields
    /// are optional and the apartment may instead rely on the building owner.
    pub has_building_owner: bool,
    /// Initial owner of the apartment, collected in the same form because an
    /// apartment must always have at least one ownership record (unless a
    /// building owner covers it).
    pub owner_name: String,
    pub owner_email: String,
    pub owner_start_date: String,
    pub owner_end_date: Option<String>,
    /// Known owners, offered as suggestions on the name/e-mail fields.
    pub people: Vec<Person>,
}

/// The "edit apartment" form.
pub struct ApartmentsEditTemplate {
    pub title: String,
    pub building: Building,
    pub apartment: Apartment,
    pub error: Option<String>,
    pub name: String,
    pub description: String,
}

/// The apartment page with its owners and tenants.
pub struct ApartmentsShowTemplate {
    pub title: String,
    pub building: Building,
    pub apartment: Apartment,
    pub ownerships: Vec<Ownership>,
    pub tenancies: Vec<Tenancy>,
    pub error: Option<String>,
    /// Submitted values, preserved when an "Add Owner" submission fails.
    pub owner_form: Option<OwnershipForm>,
    /// Submitted values, preserved when an "Add Tenant" submission fails.
    pub tenant_form: Option<TenancyForm>,
    /// Shown above the owner form when the new ownership would start before
    /// the previous one ends: we ask whether the previous ownership shall end
    /// the day before the new one begins.
    pub owner_confirmation: Option<OwnershipConfirmation>,
    /// Shown above the tenant form when the new tenancy would start before
    /// the previous one ends: we ask whether the previous tenancy shall end
    /// the day before the new one begins.
    pub tenant_confirmation: Option<TenancyConfirmation>,
    /// Known owners, offered as suggestions on the owner name/e-mail fields.
    pub people: Vec<Person>,
    /// Whether the building as a whole currently has a building owner. Then
    /// the apartment cannot legally have its own owners (no WEG split), and
    /// the "Eigentümer hinzufügen" form is not offered.
    pub has_building_owner: bool,
}

/// The body of the apartments table, re-rendered after a reorder.
pub struct ApartmentsTableBodyTemplate {
    pub building: Building,
    pub apartments: Vec<ApartmentRow>,
}

/// The "edit ownership" form.
pub struct OwnershipsEditTemplate {
    pub title: String,
    pub building: Building,
    pub apartment: Apartment,
    pub ownership: Ownership,
    pub error: Option<String>,
    /// Input values: the record's values, or the submitted ones after a failed update.
    pub form: OwnershipForm,
    /// Known owners, offered as suggestions on the name/e-mail fields.
    pub people: Vec<Person>,
}

/// The "edit tenancy" form.
pub struct TenanciesEditTemplate {
    pub title: String,
    pub building: Building,
    pub apartment: Apartment,
    pub tenancy: Tenancy,
    pub error: Option<String>,
    /// Input values: the record's values, or the submitted ones after a failed update.
    pub form: TenancyForm,
    /// Known people, offered as suggestions on the name/e-mail fields.
    pub people: Vec<Person>,
}

/// The people index.
pub struct PeopleIndexTemplate {
    pub title: &'static str,
    /// One row per person: the person, plus a compact summary of their
    /// roles.
    pub entries: Vec<PersonIndexEntry>,
}

/// A person's page.
pub struct PeopleShowTemplate {
    pub title: String,
    pub person: Person,
    /// The person's roles, each with a link to the object it refers to.
    pub roles: Vec<PersonRole>,
    pub error: Option<String>,
    /// Contact form values: the person's current ones, or the submitted ones
    /// after a failed update.
    pub form: PersonForm,
}

// ---------------------------------------------------------------------------
// The building-owner form page

/// One of the notices shown above the building-owner form: a rejection
/// message from a failed submission, or the question whether the previous
/// building owner shall end on the day before the new one begins.
pub enum BuildingOwnerFormNotice {
    Error(String),
    Confirmation(BuildingOwnerConfirmation),
}

/// The values of the building-owner form page.
pub struct BuildingOwnerFormTemplate {
    pub title: String,
    pub building: Building,
    pub error: Option<String>,
    pub form: BuildingOwnerForm,
    /// Shown above the form when the new building owner would start before
    /// the previous one ends.
    pub confirmation: Option<BuildingOwnerConfirmation>,
    /// Form action URL (create or update endpoint).
    pub action: String,
    pub submit_label: String,
    pub cancel_url: String,
    /// Known owners, offered as suggestions on the name/e-mail fields.
    pub people: Vec<Person>,
}

/// The form's action: the update endpoint of an existing owner, else the
/// create endpoint of the building.
pub open spec fn owner_form_action(building_id: Seq<char>, owner_id: Option<Seq<char>>) -> Seq<char> {
    match owner_id {
        Some(o) => "/admin/buildings/"@ + building_id + "/building_owners/"@ + o,
        None => "/admin/buildings/"@ + building_id + "/building_owners"@,
    }
}

/// Assemble the building-owner form page: the notice goes to the error or
/// the confirmation slot, editing an existing owner posts to its update
/// endpoint with "Änderungen speichern", adding one posts to the create
/// endpoint with "Eigentümer hinzufügen", and cancel returns to the
/// building.
pub fn building_owner_form_template(
    title: String,
    building: Building,
    notice: Option<BuildingOwnerFormNotice>,
    form: BuildingOwnerForm,
    building_id: &str,
    owner_id: Option<&str>,
    people: Vec<Person>,
) -> (res: BuildingOwnerFormTemplate)
    ensures
        res.title == title,
        res.building == building,
        res.form == form,
        res.people == people,
        match notice {
            None => res.error is None && res.confirmation is None,
            Some(BuildingOwnerFormNotice::Error(m)) => res.error == Some(m) && res.confirmation is None,
            Some(BuildingOwnerFormNotice::Confirmation(c)) => res.error is None && res.confirmation
                == Some(c),
        },
        res.action@ == owner_form_action(building_id@, opt_str(owner_id)),
        res.submit_label@ == if owner_id is Some {
            "Änderungen speichern"@
        } else {
            "Eigentümer hinzufügen"@
        },
        res.cancel_url@ == "/admin/buildings/"@ + building_id@,
{
    let (error, confirmation) = match notice {
        None => (None, None),
        Some(BuildingOwnerFormNotice::Error(msg)) => (Some(msg), None),
        Some(BuildingOwnerFormNotice::Confirmation(c)) => (None, Some(c)),
    };
    let mut action = String::from_str("/admin/buildings/");
    action.append(building_id);
    match owner_id {
        Some(o) => {
            action.append("/building_owners/");
            action.append(o);
        },
        None => {
            action.append("/building_owners");
        },
    }
    let submit_label = if owner_id.is_some() {
        to_owned("Änderungen speichern")
    } else {
        to_owned("Eigentümer hinzufügen")
    };
    let mut cancel_url = String::from_str("/admin/buildings/");
    cancel_url.append(building_id);
    BuildingOwnerFormTemplate {
        title,
        cancel_url,
        building,
        error,
        form,
        confirmation,
        action,
        submit_label,
        people,
    }
}

} // verus!
