//! The Kehrwoche rotation: which person sweeps in which ISO week.
//!
//! Rules (domain model):
//! - ISO weeks (Mon–Sun).
//! - Responsibility goes round-robin over the *apartments* of the building,
//!   in the order the apartments were created (immutable, so owner and
//!   tenant changes never shift the duty weeks of other apartments). The
//!   rotation counter is global and continuous across years (see
//!   [`global_week_index`]); the building's rotation seed is the offset.
//! - A week belongs to the owner covering most of it (at least four of its
//!   seven days); apartments without such an owner are skipped that week.
//! - If the chosen apartment has a tenancy covering the whole week, the
//!   responsibility is delegated to the tenant.

use crate::dates::{
    chrono_iso_monday, chrono_iso_week, chrono_parse_date, chrono_ymd, date_from_ymd, date_valid,
    chrono_year, days_before_month, lemma_week1_monday_is_monday, days_before_year, iso_week1_monday, iso_weeks_in_year, law_iso_years_are_consecutive,
    law_year_length, lemma_chrono_year, lemma_days_before_year_monotone, max_date_days, min_date_days,
    weekday_of,
    iso_week_monday, iso_week_of, opt_days, parse_date, Date,
};
use crate::db::models::Apartment;
use crate::text::{
    concat2, lemma_seq_lt_asymmetric, lemma_seq_lt_irreflexive, lemma_seq_lt_total,
    lemma_seq_lt_transitive, seq_lt, str_eq, str_lt, to_owned,
};
use vstd::prelude::*;

verus! {

#[verifier::external_type_specification]
#[verifier::external_body]
pub struct ExSqlxError(sqlx::Error);

/// An ownership or tenancy row as the scheduler reads it: who, for which
/// apartment, and the period as `YYYY-MM-DD` text.
#[derive(Debug, Clone)]
pub struct PeriodRecord {
    pub id: String,
    pub apartment_id: String,
    pub name: String,
    pub email: String,
    pub start_date: String,
    pub end_date: Option<String>,
}

/// An ownership or tenancy with its period parsed into dates.
#[derive(Debug, Clone)]
pub struct DatedPerson {
    pub id: String,
    pub apartment_id: String,
    pub name: String,
    pub email: String,
    pub start: Date,
    pub end: Option<Date>,
}

/// The mathematical value of a [`DatedPerson`].
pub ghost struct PersonView {
    pub id: Seq<char>,
    pub apartment_id: Seq<char>,
    pub name: Seq<char>,
    pub email: Seq<char>,
    pub start: int,
    pub end: Option<int>,
}

impl View for DatedPerson {
    type V = PersonView;

    open spec fn view(&self) -> PersonView {
        PersonView {
            id: self.id@,
            apartment_id: self.apartment_id@,
            name: self.name@,
            email: self.email@,
            start: self.start.days as int,
            end: opt_days(self.end),
        }
    }
}

/// The responsible person of one ISO week.
#[derive(Clone, Debug, PartialEq, Eq)]
pub struct WeekAssignment {
    pub year: i32,
    pub iso_week: u32,
    pub start: Date,
    pub end: Date,
    /// id of the assigned owner or (when delegated) tenant
    pub assignee_id: Option<String>,
    pub assignee_name: Option<String>,
    pub assignee_email: Option<String>,
    /// true when the week's responsibility was delegated from owner to tenant
    pub delegated: bool,
}

/// The mathematical value of a [`WeekAssignment`].
pub ghost struct WeekView {
    pub year: int,
    pub iso_week: int,
    pub start: int,
    pub end: int,
    pub assignee_id: Option<Seq<char>>,
    pub assignee_name: Option<Seq<char>>,
    pub assignee_email: Option<Seq<char>>,
    pub delegated: bool,
}

pub open spec fn opt_str_view(s: Option<String>) -> Option<Seq<char>> {
    match s {
        Some(x) => Some(x@),
        None => None,
    }
}

impl View for WeekAssignment {
    type V = WeekView;

    open spec fn view(&self) -> WeekView {
        WeekView {
            year: self.year as int,
            iso_week: self.iso_week as int,
            start: self.start.days as int,
            end: self.end.days as int,
            assignee_id: opt_str_view(self.assignee_id),
            assignee_name: opt_str_view(self.assignee_name),
            assignee_email: opt_str_view(self.assignee_email),
            delegated: self.delegated,
        }
    }
}

#[derive(Debug)]
pub enum ScheduleError {
    Db(sqlx::Error),
    BuildingNotFound,
    DateParse(String),
}

/// The views of a list of people.
pub open spec fn people_views(s: Seq<DatedPerson>) -> Seq<PersonView> {
    s.map_values(|p: DatedPerson| p@)
}

/// The views of a list of weeks.
pub open spec fn week_views(s: Seq<WeekAssignment>) -> Seq<WeekView> {
    s.map_values(|w: WeekAssignment| w@)
}

// ---------------------------------------------------------------------------
// Parsing the periods

/// The date format of the stored periods.
pub open spec fn ymd_format() -> Seq<char> {
    "%Y-%m-%d"@
}

/// One record parsed, or the message of the first date that does not parse.
pub open spec fn parse_record_spec(r: PeriodRecord) -> Result<PersonView, Seq<char>> {
    match chrono_parse_date(r.start_date@, ymd_format()) {
        None => Err("invalid start_date "@ + r.start_date@),
        Some(s) => match r.end_date {
            None => Ok(
                PersonView {
                    id: r.id@,
                    apartment_id: r.apartment_id@,
                    name: r.name@,
                    email: r.email@,
                    start: s,
                    end: None,
                },
            ),
            Some(e) => match chrono_parse_date(e@, ymd_format()) {
                None => Err("invalid end_date "@ + e@),
                Some(ed) => Ok(
                    PersonView {
                        id: r.id@,
                        apartment_id: r.apartment_id@,
                        name: r.name@,
                        email: r.email@,
                        start: s,
                        end: Some(ed),
                    },
                ),
            },
        },
    }
}

/// All records parsed in order, or the message of the first failure.
pub open spec fn parse_people_spec(raw: Seq<PeriodRecord>) -> Result<Seq<PersonView>, Seq<char>>
    decreases raw.len(),
{
    if raw.len() == 0 {
        Ok(Seq::empty())
    } else {
        match parse_people_spec(raw.drop_last()) {
            Err(e) => Err(e),
            Ok(v) => match parse_record_spec(raw.last()) {
                Err(e) => Err(e),
                Ok(p) => Ok(v.push(p)),
            },
        }
    }
}

fn parse_record(r: &PeriodRecord) -> (res: Result<DatedPerson, String>)
    ensures
        match (res, parse_record_spec(*r)) {
            (Ok(p), Ok(v)) => p@ == v && p.start.valid() && (p.end matches Some(e) ==> e.valid()),
            (Err(m), Err(e)) => m@ == e,
            _ => false,
        },
{
    let start = match parse_date(r.start_date.as_str(), "%Y-%m-%d") {
        Some(d) => d,
        None => {
            return Err(concat2("invalid start_date ", r.start_date.as_str()));
        },
    };
    let end = match &r.end_date {
        None => None,
        Some(e) => match parse_date(e.as_str(), "%Y-%m-%d") {
            Some(d) => Some(d),
            None => {
                return Err(concat2("invalid end_date ", e.as_str()));
            },
        },
    };
    Ok(
        DatedPerson {
            id: r.id.clone(),
            apartment_id: r.apartment_id.clone(),
            name: r.name.clone(),
            email: r.email.clone(),
            start,
            end,
        },
    )
}

/// Whether every date of the people is one chrono can represent.
pub open spec fn people_valid(s: Seq<DatedPerson>) -> bool {
    forall|i: int|
        0 <= i < s.len() ==> (#[trigger] s[i]).start.valid() && (s[i].end matches Some(e)
            ==> e.valid())
}

/// Parse the periods of ownership or tenancy rows into dates.
pub fn parse_people(raw: &Vec<PeriodRecord>) -> (res: Result<Vec<DatedPerson>, ScheduleError>)
    ensures
        match (res, parse_people_spec(raw@)) {
            (Ok(v), Ok(sv)) => people_views(v@) == sv && people_valid(v@),
            (Err(ScheduleError::DateParse(m)), Err(e)) => m@ == e,
            _ => false,
        },
{
    let mut out: Vec<DatedPerson> = Vec::new();
    let n = raw.len();
    let mut i: usize = 0;
    assert(raw@.subrange(0, 0) =~= Seq::<PeriodRecord>::empty());
    assert(people_views(out@) =~= Seq::<PersonView>::empty());
    while i < n
        invariant
            n == raw@.len(),
            i <= n,
            parse_people_spec(raw@.subrange(0, i as int)) == Ok::<Seq<PersonView>, Seq<char>>(
                people_views(out@),
            ),
            people_valid(out@),
        decreases n - i,
    {
        let r = &raw[i];
        let ghost pre = raw@.subrange(0, i as int + 1);
        proof {
            assert(pre.drop_last() =~= raw@.subrange(0, i as int));
            assert(pre.last() == raw@[i as int]);
        }
        match parse_record(r) {
            Ok(p) => {
                let ghost before = out@;
                out.push(p);
                proof {
                    assert(people_views(out@) =~= people_views(before).push(p@));
                }
            },
            Err(m) => {
                proof {
                    assert(raw@.subrange(0, n as int) =~= raw@);
                    lemma_parse_error_propagates(raw@, i as int + 1);
                }
                return Err(ScheduleError::DateParse(m));
            },
        }
        i = i + 1;
    }
    assert(raw@.subrange(0, n as int) =~= raw@);
    Ok(out)
}

/// A failure while parsing a prefix is the failure of the whole list.
proof fn lemma_parse_error_propagates(raw: Seq<PeriodRecord>, k: int)
    requires
        0 <= k <= raw.len(),
        parse_people_spec(raw.subrange(0, k)) is Err,
    ensures
        parse_people_spec(raw) == parse_people_spec(raw.subrange(0, k)),
    decreases raw.len() - k,
{
    if k < raw.len() {
        let next = raw.subrange(0, k + 1);
        assert(next.drop_last() =~= raw.subrange(0, k));
        lemma_parse_error_propagates(raw, k + 1);
    } else {
        assert(raw.subrange(0, k) =~= raw);
    }
}

// ---------------------------------------------------------------------------
// Rotation order of the apartments

/// Apartment `i` comes before apartment `j` in the rotation: earlier
/// creation time first, then the smaller id, then the earlier position in
/// the list (a stable sort by creation time and id).
pub open spec fn apt_before(apts: Seq<Apartment>, i: int, j: int) -> bool {
    let a = apts[i];
    let b = apts[j];
    ||| seq_lt(a.created_at@, b.created_at@)
    ||| (a.created_at@ == b.created_at@ && seq_lt(a.id@, b.id@))
    ||| (a.created_at@ == b.created_at@ && a.id@ == b.id@ && i < j)
}

/// `order` lists every apartment index exactly once, in rotation order.
pub open spec fn is_rotation_order(apts: Seq<Apartment>, order: Seq<usize>) -> bool {
    &&& order.len() == apts.len()
    &&& forall|i: int| 0 <= i < order.len() ==> (#[trigger] order[i]) < apts.len()
    &&& forall|k: usize| k < apts.len() ==> #[trigger] order.contains(k)
    &&& order.no_duplicates()
    &&& forall|i: int, j: int|
        0 <= i < j < order.len() ==> apt_before(apts, #[trigger] order[i] as int, #[trigger] order[j] as int)
}

/// The rotation order of a list of apartments (unique, see
/// [`lemma_rotation_order_unique`]).
pub open spec fn rotation_order_spec(apts: Seq<Apartment>) -> Seq<usize> {
    choose|o: Seq<usize>| is_rotation_order(apts, o)
}

proof fn lemma_apt_before_asymmetric(apts: Seq<Apartment>, i: int, j: int)
    requires
        apt_before(apts, i, j),
    ensures
        !apt_before(apts, j, i),
{
    let a = apts[i];
    let b = apts[j];
    if seq_lt(a.created_at@, b.created_at@) {
        lemma_seq_lt_asymmetric(a.created_at@, b.created_at@);
        lemma_seq_lt_irreflexive(a.created_at@);
    } else if seq_lt(a.id@, b.id@) {
        lemma_seq_lt_asymmetric(a.id@, b.id@);
        lemma_seq_lt_irreflexive(a.id@);
        lemma_seq_lt_irreflexive(a.created_at@);
    } else {
        lemma_seq_lt_irreflexive(a.id@);
        lemma_seq_lt_irreflexive(a.created_at@);
    }
}

proof fn lemma_apt_before_total(apts: Seq<Apartment>, i: int, j: int)
    requires
        i != j,
    ensures
        apt_before(apts, i, j) || apt_before(apts, j, i),
{
    let a = apts[i];
    let b = apts[j];
    lemma_seq_lt_total(a.created_at@, b.created_at@);
    lemma_seq_lt_total(a.id@, b.id@);
}

proof fn lemma_apt_before_transitive(apts: Seq<Apartment>, i: int, j: int, k: int)
    requires
        apt_before(apts, i, j),
        apt_before(apts, j, k),
    ensures
        apt_before(apts, i, k),
{
    let a = apts[i];
    let b = apts[j];
    let c = apts[k];
    if seq_lt(a.created_at@, b.created_at@) && seq_lt(b.created_at@, c.created_at@) {
        lemma_seq_lt_transitive(a.created_at@, b.created_at@, c.created_at@);
    }
    if a.created_at@ == b.created_at@ && b.created_at@ == c.created_at@ && seq_lt(a.id@, b.id@)
        && seq_lt(b.id@, c.id@) {
        lemma_seq_lt_transitive(a.id@, b.id@, c.id@);
    }
}

/// Two sorted lists without duplicates over the same set of apartments are
/// the same list.
proof fn lemma_sorted_lists_equal(apts: Seq<Apartment>, o1: Seq<usize>, o2: Seq<usize>)
    requires
        o1.no_duplicates(),
        o2.no_duplicates(),
        o1.to_set() == o2.to_set(),
        forall|i: int| 0 <= i < o1.len() ==> (#[trigger] o1[i]) < apts.len(),
        forall|i: int| 0 <= i < o2.len() ==> (#[trigger] o2[i]) < apts.len(),
        forall|i: int, j: int|
            0 <= i < j < o1.len() ==> apt_before(apts, #[trigger] o1[i] as int, #[trigger] o1[j] as int),
        forall|i: int, j: int|
            0 <= i < j < o2.len() ==> apt_before(apts, #[trigger] o2[i] as int, #[trigger] o2[j] as int),
    ensures
        o1 == o2,
    decreases o1.len(),
{
    if o1.len() == 0 {
        if o2.len() > 0 {
            assert(o2.to_set().contains(o2[0]));
            assert(false);
        }
        assert(o1 =~= o2);
    } else {
        assert(o1.to_set().contains(o1[0]));
        assert(o2.contains(o1[0]));
        assert(o2.len() > 0);
        let x = o1[0];
        let y = o2[0];
        if x != y {
            assert(o2.to_set().contains(y));
            assert(o1.contains(y));
            let p = choose|p: int| 0 <= p < o1.len() && o1[p] == y;
            assert(p > 0);
            assert(apt_before(apts, o1[0] as int, o1[p] as int));
            let q = choose|q: int| 0 <= q < o2.len() && o2[q] == x;
            assert(q > 0);
            assert(apt_before(apts, o2[0] as int, o2[q] as int));
            lemma_apt_before_asymmetric(apts, x as int, y as int);
            assert(false);
        }
        let t1 = o1.drop_first();
        let t2 = o2.drop_first();
        assert forall|v: usize| t1.to_set().contains(v) == t2.to_set().contains(v) by {
            if t1.to_set().contains(v) {
                let p = choose|p: int| 0 <= p < t1.len() && t1[p] == v;
                assert(o1[p + 1] == v);
                assert(v != x);
                assert(o1.to_set().contains(v));
                assert(o2.contains(v));
                let q = choose|q: int| 0 <= q < o2.len() && o2[q] == v;
                assert(q != 0);
                assert(t2[q - 1] == v);
                assert(t2.contains(v));
            }
            if t2.to_set().contains(v) {
                let q = choose|q: int| 0 <= q < t2.len() && t2[q] == v;
                assert(o2[q + 1] == v);
                assert(v != x);
                assert(o2.to_set().contains(v));
                assert(o1.contains(v));
                let p = choose|p: int| 0 <= p < o1.len() && o1[p] == v;
                assert(p != 0);
                assert(t1[p - 1] == v);
                assert(t1.contains(v));
            }
        }
        assert(t1.to_set() =~= t2.to_set());
        assert forall|i: int, j: int| 0 <= i < j < t1.len() implies apt_before(
            apts,
            #[trigger] t1[i] as int,
            #[trigger] t1[j] as int,
        ) by {
            assert(t1[i] == o1[i + 1] && t1[j] == o1[j + 1]);
        }
        assert forall|i: int, j: int| 0 <= i < j < t2.len() implies apt_before(
            apts,
            #[trigger] t2[i] as int,
            #[trigger] t2[j] as int,
        ) by {
            assert(t2[i] == o2[i + 1] && t2[j] == o2[j + 1]);
        }
        assert forall|i: int| 0 <= i < t1.len() implies (#[trigger] t1[i]) < apts.len() by {
            assert(t1[i] == o1[i + 1]);
        }
        assert forall|i: int| 0 <= i < t2.len() implies (#[trigger] t2[i]) < apts.len() by {
            assert(t2[i] == o2[i + 1]);
        }
        lemma_sorted_lists_equal(apts, t1, t2);
        assert(o1 =~= seq![x] + t1);
        assert(o2 =~= seq![y] + t2);
    }
}

/// There is exactly one rotation order of a list of apartments.
pub proof fn lemma_rotation_order_unique(apts: Seq<Apartment>, o1: Seq<usize>, o2: Seq<usize>)
    requires
        is_rotation_order(apts, o1),
        is_rotation_order(apts, o2),
    ensures
        o1 == o2,
{
    assert forall|v: usize| o1.to_set().contains(v) == o2.to_set().contains(v) by {
        if o1.to_set().contains(v) {
            let p = choose|p: int| 0 <= p < o1.len() && o1[p] == v;
            assert(o2.contains(v));
        }
        if o2.to_set().contains(v) {
            let p = choose|p: int| 0 <= p < o2.len() && o2[p] == v;
            assert(o1.contains(v));
        }
    }
    assert(o1.to_set() =~= o2.to_set());
    lemma_sorted_lists_equal(apts, o1, o2);
}

/// Whether apartment `i` comes before apartment `j` in the rotation.
fn apt_before_exec(apts: &Vec<Apartment>, i: usize, j: usize) -> (res: bool)
    requires
        i < apts@.len(),
        j < apts@.len(),
    ensures
        res == apt_before(apts@, i as int, j as int),
{
    let a = &apts[i];
    let b = &apts[j];
    if str_lt(a.created_at.as_str(), b.created_at.as_str()) {
        return true;
    }
    if !str_eq(a.created_at.as_str(), b.created_at.as_str()) {
        return false;
    }
    if str_lt(a.id.as_str(), b.id.as_str()) {
        return true;
    }
    str_eq(a.id.as_str(), b.id.as_str()) && i < j
}

/// The apartments' indices in rotation order: by creation time, then id
/// (a stable sort, so the list position breaks remaining ties).
pub fn rotation_order(apts: &Vec<Apartment>) -> (res: Vec<usize>)
    ensures
        is_rotation_order(apts@, res@),
        res@ == rotation_order_spec(apts@),
{
    let n = apts.len();
    let mut order: Vec<usize> = Vec::new();
    let mut j: usize = 0;
    while j < n
        invariant
            n == apts@.len(),
            j <= n,
            order@.len() == j,
            forall|i: int| 0 <= i < order@.len() ==> (#[trigger] order@[i]) < j,
            forall|k: usize| k < j ==> #[trigger] order@.contains(k),
            order@.no_duplicates(),
            forall|a: int, b: int|
                0 <= a < b < order@.len() ==> apt_before(apts@, #[trigger] order@[a] as int, #[trigger] order@[b] as int),
        decreases n - j,
    {
        let mut p: usize = 0;
        while p < order.len() && apt_before_exec(apts, order[p], j)
            invariant
                n == apts@.len(),
                j < n,
                order@.len() == j,
                forall|i: int| 0 <= i < order@.len() ==> (#[trigger] order@[i]) < j,
                p <= order@.len(),
                forall|q: int| 0 <= q < p ==> apt_before(apts@, #[trigger] order@[q] as int, j as int),
            decreases order@.len() - p,
        {
            p = p + 1;
        }
        let ghost old_order = order@;
        proof {
            if p < old_order.len() {
                lemma_apt_before_total(apts@, old_order[p as int] as int, j as int);
                assert(apt_before(apts@, j as int, old_order[p as int] as int));
                assert forall|q: int| p <= q < old_order.len() implies apt_before(
                    apts@,
                    j as int,
                    #[trigger] old_order[q] as int,
                ) by {
                    if q > p {
                        lemma_apt_before_transitive(
                            apts@,
                            j as int,
                            old_order[p as int] as int,
                            old_order[q] as int,
                        );
                    }
                }
            }
        }
        order.insert(p, j);
        proof {
            let s = order@;
            assert(s == old_order.insert(p as int, j));
            assert forall|i: int| 0 <= i < s.len() implies (#[trigger] s[i]) < j + 1 by {
                if i < p {
                    assert(s[i] == old_order[i]);
                } else if i > p {
                    assert(s[i] == old_order[i - 1]);
                }
            }
            assert forall|k: usize| k < j + 1 implies #[trigger] s.contains(k) by {
                if k < j {
                    assert(old_order.contains(k));
                    let q = choose|q: int| 0 <= q < old_order.len() && old_order[q] == k;
                    if q < p {
                        assert(s[q] == k);
                    } else {
                        assert(s[q + 1] == k);
                    }
                } else {
                    assert(s[p as int] == j);
                }
            }
            assert forall|a: int, b: int| 0 <= a < s.len() && 0 <= b < s.len() && a != b implies s[a]
                != s[b] by {
                if a != p && b != p {
                    let a0 = if a < p {
                        a
                    } else {
                        a - 1
                    };
                    let b0 = if b < p {
                        b
                    } else {
                        b - 1
                    };
                    assert(s[a] == old_order[a0]);
                    assert(s[b] == old_order[b0]);
                } else if a == p {
                    let b0 = if b < p {
                        b
                    } else {
                        b - 1
                    };
                    assert(s[b] == old_order[b0]);
                } else {
                    let a0 = if a < p {
                        a
                    } else {
                        a - 1
                    };
                    assert(s[a] == old_order[a0]);
                }
            }
            assert forall|a: int, b: int| 0 <= a < b < s.len() implies apt_before(
                apts@,
                #[trigger] s[a] as int,
                #[trigger] s[b] as int,
            ) by {
                if b < p {
                    assert(s[a] == old_order[a] && s[b] == old_order[b]);
                } else if b == p {
                    assert(s[a] == old_order[a]);
                } else if a < p {
                    assert(s[a] == old_order[a] && s[b] == old_order[b - 1]);
                    lemma_apt_before_transitive(
                        apts@,
                        old_order[a] as int,
                        j as int,
                        old_order[b - 1] as int,
                    );
                } else if a == p {
                    assert(s[b] == old_order[b - 1]);
                } else {
                    assert(s[a] == old_order[a - 1] && s[b] == old_order[b - 1]);
                }
            }
        }
        j = j + 1;
    }
    proof {
        assert(is_rotation_order(apts@, order@));
        let o = rotation_order_spec(apts@);
        assert(is_rotation_order(apts@, o));
        lemma_rotation_order_unique(apts@, order@, o);
    }
    order
}

/// The rotation goes by creation time: an apartment created earlier comes
/// before one created later, whatever their ids; the id only orders
/// apartments created at the same time.
pub proof fn law_rotation_follows_creation(apts: Seq<Apartment>, order: Seq<usize>, p: int, q: int)
    requires
        is_rotation_order(apts, order),
        0 <= p < order.len(),
        0 <= q < order.len(),
        ({
            let a = apts[order[p] as int];
            let b = apts[order[q] as int];
            ||| seq_lt(a.created_at@, b.created_at@)
            ||| (a.created_at@ == b.created_at@ && seq_lt(a.id@, b.id@))
        }),
    ensures
        p < q,
{
    let a = apts[order[p] as int];
    let b = apts[order[q] as int];
    lemma_seq_lt_irreflexive(a.created_at@);
    lemma_seq_lt_irreflexive(a.id@);
    if q < p {
        assert(apt_before(apts, order[q] as int, order[p] as int));
        if seq_lt(a.created_at@, b.created_at@) {
            lemma_seq_lt_asymmetric(a.created_at@, b.created_at@);
        } else {
            lemma_seq_lt_asymmetric(a.id@, b.id@);
        }
    }
}

// ---------------------------------------------------------------------------
// One week

/// Days of the week `[ws, we]` inside the person's period.
pub open spec fn overlap_days(p: PersonView, ws: int, we: int) -> int {
    let s = if p.start > ws {
        p.start
    } else {
        ws
    };
    let e0 = match p.end {
        Some(e) => e,
        None => we,
    };
    let e = if e0 < we {
        e0
    } else {
        we
    };
    if s > e {
        0
    } else {
        e - s + 1
    }
}

/// The period contains the whole week, so nobody is responsible before
/// their period begins or after it ended.
pub open spec fn covers_week(p: PersonView, ws: int, we: int) -> bool {
    p.start <= ws && (p.end matches Some(e) ==> e >= we)
}

/// Among the owners of apartment `apt`, the one covering most of the week
/// (at least 4 of its 7 days), with the days it covers; on a tie the
/// earliest listed wins.
pub open spec fn majority_owner(owners: Seq<PersonView>, apt: Seq<char>, ws: int, we: int) -> Option<
    (int, int),
>
    decreases owners.len(),
{
    if owners.len() == 0 {
        None
    } else {
        let best = majority_owner(owners.drop_last(), apt, ws, we);
        let o = owners.last();
        let d = overlap_days(o, ws, we);
        let better = match best {
            Some(b) => d > b.1,
            None => true,
        };
        if o.apartment_id == apt && d >= 4 && better {
            Some(((owners.len() - 1) as int, d))
        } else {
            best
        }
    }
}

/// The apartments (index in `apts`) with a majority owner in the week
/// (index in `owners`), in rotation order.
pub open spec fn covered_apartments(
    apts: Seq<Apartment>,
    order: Seq<usize>,
    owners: Seq<PersonView>,
    ws: int,
    we: int,
) -> Seq<(int, int)>
    decreases order.len(),
{
    if order.len() == 0 {
        Seq::empty()
    } else {
        let rest = covered_apartments(apts, order.drop_last(), owners, ws, we);
        let a = order.last() as int;
        match majority_owner(owners, apts[a].id@, ws, we) {
            Some(m) => rest.push((a, m.0)),
            None => rest,
        }
    }
}

/// The first tenancy of apartment `apt` covering the whole week.
pub open spec fn first_tenancy(tenancies: Seq<PersonView>, apt: Seq<char>, ws: int, we: int) -> Option<
    int,
>
    decreases tenancies.len(),
{
    if tenancies.len() == 0 {
        None
    } else {
        match first_tenancy(tenancies.drop_last(), apt, ws, we) {
            Some(t) => Some(t),
            None => {
                let t = tenancies.last();
                if t.apartment_id == apt && covers_week(t, ws, we) {
                    Some((tenancies.len() - 1) as int)
                } else {
                    None
                }
            },
        }
    }
}

/// Day number of the rotation epoch, Monday 2020-01-06.
pub open spec fn rotation_epoch() -> int {
    match chrono_ymd(2020, 1, 6) {
        Some(d) => d,
        None => 0,
    }
}

/// The rotation epoch is day 737430, a Monday.
pub proof fn law_rotation_epoch_is_a_monday()
    ensures
        rotation_epoch() == 737430,
        weekday_of(rotation_epoch()) == 0,
{
    reveal_with_fuel(days_before_month, 2);
    assert(days_before_year(2020) == 737424);
    assert(chrono_ymd(2020, 1, 6) == Some(737430int));
}

/// Integer division by 7 rounding towards zero, as `i64` division does.
pub open spec fn div7_toward_zero(n: int) -> int {
    if n >= 0 {
        n / 7
    } else {
        -((-n) / 7)
    }
}

/// Global rotation index of the week starting on `ws`: weeks since the
/// fixed Monday epoch 2020-01-06. The epoch never changes, so the rotation
/// continues seamlessly across years.
pub open spec fn global_week_index_spec(ws: int) -> int {
    div7_toward_zero(ws - rotation_epoch())
}

/// The assignment of the week starting on `ws`.
pub open spec fn week_spec(
    seed: int,
    year: int,
    ws: int,
    apts: Seq<Apartment>,
    order: Seq<usize>,
    owners: Seq<PersonView>,
    tenancies: Seq<PersonView>,
) -> WeekView {
    let we = ws + 6;
    let iso = chrono_iso_week(ws).1;
    let cov = covered_apartments(apts, order, owners, ws, we);
    if cov.len() == 0 {
        WeekView {
            year,
            iso_week: iso,
            start: ws,
            end: we,
            assignee_id: None,
            assignee_name: None,
            assignee_email: None,
            delegated: false,
        }
    } else {
        let idx = (seed + global_week_index_spec(ws)) % (cov.len() as int);
        let chosen = cov[idx];
        match first_tenancy(tenancies, apts[chosen.0].id@, ws, we) {
            Some(t) => WeekView {
                year,
                iso_week: iso,
                start: ws,
                end: we,
                assignee_id: Some(tenancies[t].id),
                assignee_name: Some(tenancies[t].name),
                assignee_email: Some(tenancies[t].email),
                delegated: true,
            },
            None => WeekView {
                year,
                iso_week: iso,
                start: ws,
                end: we,
                assignee_id: Some(owners[chosen.1].id),
                assignee_name: Some(owners[chosen.1].name),
                assignee_email: Some(owners[chosen.1].email),
                delegated: false,
            },
        }
    }
}

// ---------------------------------------------------------------------------
// The weeks of a year

/// How many Mondays the walk through an ISO year looks at; an ISO year has
/// 52 or 53 weeks, so the walk always ends on the year boundary first.
pub open spec fn week_scan_limit() -> nat {
    60
}

/// The Mondays from `start` on, week by week, while they belong to ISO year
/// `year` (and the dates stay in chrono's range).
pub open spec fn mondays_from(year: int, start: int, fuel: nat) -> Seq<int>
    decreases fuel,
{
    if fuel == 0 || chrono_iso_week(start).0 != year || !date_valid(start + 6) {
        Seq::empty()
    } else if !date_valid(start + 7) {
        seq![start]
    } else {
        seq![start] + mondays_from(year, start + 7, (fuel - 1) as nat)
    }
}

/// The Monday of ISO week 1 of `year`.
pub open spec fn first_monday(year: int) -> int {
    match chrono_iso_monday(year, 1) {
        Some(d) => d,
        None => 0,
    }
}

/// The Mondays of the ISO weeks of `year`.
pub open spec fn year_mondays(year: int) -> Seq<int> {
    mondays_from(year, first_monday(year), week_scan_limit())
}

/// The days that the Mondays of a year well inside chrono's range reach.
proof fn lemma_year_in_range(y: int)
    requires
        -262141 <= y <= 262140,
    ensures
        min_date_days() + 10 < days_before_year(y),
        days_before_year(y + 2) + 20 < max_date_days(),
{
    assert(days_before_year(-262141) == -95745400);
    assert(days_before_year(262142) == 95745034);
    lemma_days_before_year_monotone(-262141, y);
    lemma_days_before_year_monotone(y + 2, 262142);
}

proof fn lemma_mondays_from(y: int, k: int, fuel: nat)
    requires
        -262141 <= y <= 262140,
        0 <= k <= iso_weeks_in_year(y),
        fuel >= iso_weeks_in_year(y) - k + 1,
    ensures
        mondays_from(y, iso_week1_monday(y) + 7 * k, fuel) =~= Seq::new(
            (iso_weeks_in_year(y) - k) as nat,
            |i: int| iso_week1_monday(y) + 7 * (k + i),
        ),
    decreases iso_weeks_in_year(y) - k,
{
    let m1 = iso_week1_monday(y);
    let m = m1 + 7 * k;
    let w = iso_weeks_in_year(y);
    let d0 = days_before_year(y);
    let d1 = days_before_year(y + 1);
    law_year_length(y);
    law_year_length(y + 1);
    law_iso_years_are_consecutive(y);
    lemma_year_in_range(y);
    let jan4 = d0 + 4;
    let t = (jan4 + 6) / 7;
    let r = (jan4 + 6) % 7;
    assert(jan4 + 6 == 7 * t + r);
    assert(m1 == jan4 - r);
    assert(weekday_of(m) == 0) by {
        assert(m + 6 == 7 * (t + k));
    }
    assert(chrono_iso_week(m).0 == chrono_year(m + 3));
    assert(m1 + 3 > d0);
    assert(iso_week1_monday(y + 1) + 3 > d1);
    assert(iso_week1_monday(y + 1) + 3 <= days_before_year(y + 2));
    if k < w {
        assert(m + 3 <= iso_week1_monday(y + 1) - 4);
        assert(iso_week1_monday(y + 1) <= d1 + 4);
        lemma_chrono_year(m + 3, y);
        assert(date_valid(m + 6) && date_valid(m + 7));
        lemma_mondays_from(y, k + 1, (fuel - 1) as nat);
        assert(m + 7 == m1 + 7 * (k + 1));
    } else {
        assert(m == iso_week1_monday(y + 1));
        lemma_chrono_year(m + 3, y + 1);
    }
}

/// An ISO year's Mondays, well inside chrono's range: 52 or 53 of them,
/// each one week after the one before, from the Monday of week 1 on.
pub proof fn law_year_weeks_are_consecutive(year: int)
    requires
        -262141 <= year <= 262140,
    ensures
        year_mondays(year).len() == iso_weeks_in_year(year),
        52 <= iso_weeks_in_year(year) <= 53,
        forall|i: int|
            0 <= i < year_mondays(year).len() ==> #[trigger] year_mondays(year)[i]
                == iso_week1_monday(year) + 7 * i,
{
    lemma_year_in_range(year);
    assert(first_monday(year) == iso_week1_monday(year));
    lemma_mondays_from(year, 0, week_scan_limit());
    assert(iso_week1_monday(year) + 7 * 0 == iso_week1_monday(year));
}

/// Within an ISO year the weeks follow one another and the duty moves on by
/// one: week `i + 1` starts seven days after week `i`, and the rotation
/// position among `n` covered apartments advances by one (cyclically).
pub proof fn law_schedule_weeks_advance(seed: int, year: int, i: int, n: int)
    requires
        -262141 <= year <= 262140,
        0 <= i,
        i + 1 < year_mondays(year).len(),
        n > 0,
    ensures
        year_mondays(year)[i + 1] == year_mondays(year)[i] + 7,
        chosen_position(seed, year_mondays(year)[i + 1], n) == (chosen_position(
            seed,
            year_mondays(year)[i],
            n,
        ) + 1) % n,
{
    law_year_weeks_are_consecutive(year);
    let ws = year_mondays(year)[i];
    assert(year_mondays(year)[i + 1] == iso_week1_monday(year) + 7 * (i + 1));
    lemma_week1_monday_is_monday(year);
    law_rotation_epoch_is_a_monday();
    let m1 = iso_week1_monday(year);
    let a = (m1 + 6) / 7;
    let b = (737430int + 6) / 7;
    assert(m1 + 6 == 7 * a);
    assert(737430int + 6 == 7 * b);
    assert(ws - rotation_epoch() == 7 * (a - b + i));
    assert((ws - rotation_epoch()) % 7 == 0) by (nonlinear_arith)
        requires
            ws - rotation_epoch() == 7 * (a - b + i),
    ;
    law_next_week_moves_to_next(seed, ws, n);
}

/// The schedule of ISO year `year`: one assignment per ISO week.
pub open spec fn schedule_spec(
    seed: int,
    year: int,
    apts: Seq<Apartment>,
    owners: Seq<PersonView>,
    tenancies: Seq<PersonView>,
) -> Seq<WeekView> {
    let order = rotation_order_spec(apts);
    year_mondays(year).map_values(
        |ws: int| week_spec(seed, year, ws, apts, order, owners, tenancies),
    )
}

/// The years whose weeks chrono can represent.
pub open spec fn schedulable_year(year: int) -> bool {
    -262142 <= year <= 262142
}

// ---------------------------------------------------------------------------
// Executable parts

fn overlap_days_exec(p: &DatedPerson, ws: Date, we: Date) -> (res: i64)
    ensures
        res == overlap_days(p@, ws.days as int, we.days as int),
{
    let s = if p.start.days > ws.days {
        p.start
    } else {
        ws
    };
    let e0 = match p.end {
        Some(e) => e,
        None => we,
    };
    let e = if e0.days < we.days {
        e0
    } else {
        we
    };
    if s.days > e.days {
        0
    } else {
        e.days_since(s) + 1
    }
}

fn covers_week_exec(p: &DatedPerson, ws: Date, we: Date) -> (res: bool)
    ensures
        res == covers_week(p@, ws.days as int, we.days as int),
{
    p.start.days <= ws.days && match p.end {
        Some(e) => e.days >= we.days,
        None => true,
    }
}

fn majority_owner_exec(owners: &Vec<DatedPerson>, apt: &str, ws: Date, we: Date) -> (res: Option<
    (usize, i64),
>)
    ensures
        match (res, majority_owner(people_views(owners@), apt@, ws.days as int, we.days as int)) {
            (Some(r), Some(m)) => r.0 == m.0 && r.1 == m.1 && r.0 < owners@.len(),
            (None, None) => true,
            _ => false,
        },
{
    let n = owners.len();
    let mut best: Option<(usize, i64)> = None;
    let mut i: usize = 0;
    while i < n
        invariant
            n == owners@.len(),
            i <= n,
            match (
                best,
                majority_owner(
                    people_views(owners@.subrange(0, i as int)),
                    apt@,
                    ws.days as int,
                    we.days as int,
                ),
            ) {
                (Some(r), Some(m)) => r.0 == m.0 && r.1 == m.1 && r.0 < i,
                (None, None) => true,
                _ => false,
            },
        decreases n - i,
    {
        let o = &owners[i];
        let d = overlap_days_exec(o, ws, we);
        let better = match best {
            None => true,
            Some(b) => d > b.1,
        };
        if str_eq(o.apartment_id.as_str(), apt) && d >= 4 && better {
            best = Some((i, d));
        }
        proof {
            let pre = owners@.subrange(0, i as int + 1);
            assert(people_views(pre).drop_last() =~= people_views(owners@.subrange(0, i as int)));
            assert(people_views(pre).last() == owners@[i as int]@);
        }
        i = i + 1;
    }
    assert(owners@.subrange(0, n as int) =~= owners@);
    best
}

fn first_tenancy_exec(tenancies: &Vec<DatedPerson>, apt: &str, ws: Date, we: Date) -> (res: Option<
    usize,
>)
    ensures
        match (res, first_tenancy(people_views(tenancies@), apt@, ws.days as int, we.days as int)) {
            (Some(r), Some(t)) => r == t && r < tenancies@.len(),
            (None, None) => true,
            _ => false,
        },
{
    let n = tenancies.len();
    let mut i: usize = 0;
    while i < n
        invariant
            n == tenancies@.len(),
            i <= n,
            first_tenancy(
                people_views(tenancies@.subrange(0, i as int)),
                apt@,
                ws.days as int,
                we.days as int,
            ) is None,
        decreases n - i,
    {
        let t = &tenancies[i];
        proof {
            let pre = tenancies@.subrange(0, i as int + 1);
            assert(people_views(pre).drop_last() =~= people_views(
                tenancies@.subrange(0, i as int),
            ));
            assert(people_views(pre).last() == tenancies@[i as int]@);
        }
        if str_eq(t.apartment_id.as_str(), apt) && covers_week_exec(t, ws, we) {
            proof {
                lemma_first_tenancy_prefix(
                    people_views(tenancies@),
                    apt@,
                    ws.days as int,
                    we.days as int,
                    i as int + 1,
                );
                assert(people_views(tenancies@.subrange(0, i as int + 1)) =~= people_views(
                    tenancies@,
                ).subrange(0, i as int + 1));
            }
            return Some(i);
        }
        i = i + 1;
    }
    assert(tenancies@.subrange(0, n as int) =~= tenancies@);
    None
}

/// Once a prefix names a tenancy, the whole list names the same one.
proof fn lemma_first_tenancy_prefix(s: Seq<PersonView>, apt: Seq<char>, ws: int, we: int, k: int)
    requires
        0 <= k <= s.len(),
        first_tenancy(s.subrange(0, k), apt, ws, we) is Some,
    ensures
        first_tenancy(s, apt, ws, we) == first_tenancy(s.subrange(0, k), apt, ws, we),
    decreases s.len() - k,
{
    if k < s.len() {
        assert(s.subrange(0, k + 1).drop_last() =~= s.subrange(0, k));
        lemma_first_tenancy_prefix(s, apt, ws, we, k + 1);
    } else {
        assert(s.subrange(0, k) =~= s);
    }
}

/// Global rotation index of the week starting on `week_start`: weeks since
/// the Monday epoch 2020-01-06 (ISO week 2 of 2020).
pub fn global_week_index(week_start: Date) -> (res: i64)
    ensures
        res == global_week_index_spec(week_start.days as int),
{
    let epoch = match date_from_ymd(2020, 1, 6) {
        Some(d) => d,
        None => {
            proof {
                assert(false);
            }
            Date { days: 0 }
        },
    };
    let diff = week_start.days_since(epoch);
    if diff >= 0 {
        diff / 7
    } else {
        -((-diff) / 7)
    }
}

fn assignee_of(p: &DatedPerson) -> (res: (Option<String>, Option<String>, Option<String>))
    ensures
        opt_str_view(res.0) == Some(p@.id),
        opt_str_view(res.1) == Some(p@.name),
        opt_str_view(res.2) == Some(p@.email),
{
    (Some(p.id.clone()), Some(p.name.clone()), Some(p.email.clone()))
}

fn assign_week(
    seed: i64,
    year: i32,
    ws: Date,
    apts: &Vec<Apartment>,
    order: &Vec<usize>,
    owners: &Vec<DatedPerson>,
    tenancies: &Vec<DatedPerson>,
) -> (res: WeekAssignment)
    requires
        ws.valid(),
        date_valid(ws.days + 6),
        is_rotation_order(apts@, order@),
    ensures
        res@ == week_spec(
            seed as int,
            year as int,
            ws.days as int,
            apts@,
            order@,
            people_views(owners@),
            people_views(tenancies@),
        ),
{
    let we = Date { days: ws.days + 6 };
    let (_, iso_week) = iso_week_of(ws);
    let ghost ov = people_views(owners@);
    let ghost tv = people_views(tenancies@);
    // Apartments with an owner for this week, in rotation order.
    let mut covered: Vec<(usize, usize)> = Vec::new();
    let n = order.len();
    let mut k: usize = 0;
    while k < n
        invariant
            n == order@.len(),
            k <= n,
            is_rotation_order(apts@, order@),
            ov == people_views(owners@),
            covered@.len() == covered_apartments(
                apts@,
                order@.subrange(0, k as int),
                ov,
                ws.days as int,
                we.days as int,
            ).len(),
            forall|c: int|
                0 <= c < covered@.len() ==> (#[trigger] covered@[c]).0 as int == covered_apartments(
                    apts@,
                    order@.subrange(0, k as int),
                    ov,
                    ws.days as int,
                    we.days as int,
                )[c].0 && covered@[c].1 as int == covered_apartments(
                    apts@,
                    order@.subrange(0, k as int),
                    ov,
                    ws.days as int,
                    we.days as int,
                )[c].1 && covered@[c].0 < apts@.len() && covered@[c].1 < owners@.len(),
        decreases n - k,
    {
        let a = order[k];
        let ghost pre = order@.subrange(0, k as int + 1);
        proof {
            assert(pre.drop_last() =~= order@.subrange(0, k as int));
            assert(pre.last() == a);
        }
        match majority_owner_exec(owners, apts[a].id.as_str(), ws, we) {
            Some((oi, _)) => {
                covered.push((a, oi));
            },
            None => {},
        }
        k = k + 1;
    }
    assert(order@.subrange(0, n as int) =~= order@);
    let ghost cov = covered_apartments(apts@, order@, ov, ws.days as int, we.days as int);
    if covered.len() == 0 {
        return WeekAssignment {
            year,
            iso_week,
            start: ws,
            end: we,
            assignee_id: None,
            assignee_name: None,
            assignee_email: None,
            delegated: false,
        };
    }
    let len = covered.len();
    let g = global_week_index(ws);
    let sum: i128 = seed as i128 + g as i128;
    let idx: usize = match sum.checked_rem_euclid(len as i128) {
        Some(v) => v as usize,
        None => 0,
    };
    assert(idx == (seed + global_week_index_spec(ws.days as int)) % (cov.len() as int));
    let (chosen_apartment, chosen_owner) = covered[idx];
    // Delegate to the tenant when a tenancy covers the whole week.
    match first_tenancy_exec(tenancies, apts[chosen_apartment].id.as_str(), ws, we) {
        Some(t) => {
            let (id, name, email) = assignee_of(&tenancies[t]);
            WeekAssignment {
                year,
                iso_week,
                start: ws,
                end: we,
                assignee_id: id,
                assignee_name: name,
                assignee_email: email,
                delegated: true,
            }
        },
        None => {
            let (id, name, email) = assignee_of(&owners[chosen_owner]);
            WeekAssignment {
                year,
                iso_week,
                start: ws,
                end: we,
                assignee_id: id,
                assignee_name: name,
                assignee_email: email,
                delegated: false,
            }
        },
    }
}

/// Compute the weekly Kehrwoche assignments for ISO year `year` of a
/// building with rotation seed `seed`, its apartments, and the parsed
/// ownership and tenancy periods of those apartments.
pub fn schedule_for_year(
    seed: i64,
    year: i32,
    apartments: &Vec<Apartment>,
    owners: &Vec<DatedPerson>,
    tenancies: &Vec<DatedPerson>,
) -> (res: Vec<WeekAssignment>)
    requires
        schedulable_year(year as int),
    ensures
        week_views(res@) == schedule_spec(
            seed as int,
            year as int,
            apartments@,
            people_views(owners@),
            people_views(tenancies@),
        ),
{
    let order = rotation_order(apartments);
    let ghost ov = people_views(owners@);
    let ghost tv = people_views(tenancies@);
    let ghost ord = order@;
    let mut weeks: Vec<WeekAssignment> = Vec::new();
    // ISO week 1 Monday always exists
    let mut week_start = match iso_week_monday(year, 1) {
        Some(d) => d,
        None => {
            proof {
                assert(false);
            }
            return weeks;
        },
    };
    let ghost all = year_mondays(year as int);
    let mut fuel: usize = 60;
    let ghost mut done: Seq<int> = Seq::empty();
    assert(mondays_from(year as int, week_start.days as int, fuel as nat) == all);
    loop
        invariant_except_break
            all == done + mondays_from(year as int, week_start.days as int, fuel as nat),
        invariant
            week_start.valid(),
            fuel <= 60,
            ord == order@,
            ord == rotation_order_spec(apartments@),
            is_rotation_order(apartments@, ord),
            ov == people_views(owners@),
            tv == people_views(tenancies@),
            week_views(weeks@) == done.map_values(
                |ws: int| week_spec(seed as int, year as int, ws, apartments@, ord, ov, tv),
            ),
        ensures
            week_views(weeks@) == all.map_values(
                |ws: int| week_spec(seed as int, year as int, ws, apartments@, ord, ov, tv),
            ),
        decreases fuel,
    {
        let ghost rest = mondays_from(year as int, week_start.days as int, fuel as nat);
        if fuel == 0 {
            assert(all =~= done);
            break;
        }
        let (iso_year, _) = iso_week_of(week_start);
        if iso_year != year {
            assert(all =~= done);
            break;
        }
        let week_end = match week_start.checked_add_days(6) {
            Some(d) => d,
            None => {
                assert(all =~= done);
                break;
            },
        };
        let assignment = assign_week(
            seed,
            year,
            week_start,
            apartments,
            &order,
            owners,
            tenancies,
        );
        let ghost before = weeks@;
        weeks.push(assignment);
        proof {
            let f = |ws: int| week_spec(seed as int, year as int, ws, apartments@, ord, ov, tv);
            let nd = done.push(week_start.days as int);
            assert(week_views(weeks@) =~= nd.map_values(f)) by {
                assert(week_views(weeks@) =~= week_views(before).push(assignment@));
            }
            done = nd;
        }
        match week_start.checked_add_days(7) {
            Some(d) => {
                proof {
                    assert(all =~= done + mondays_from(year as int, d.days as int, (fuel - 1) as nat));
                }
                week_start = d;
                fuel = fuel - 1;
            },
            None => {
                assert(all =~= done);
                break;
            },
        }
    }
    weeks
}

// ---------------------------------------------------------------------------
// Laws of the rotation

/// The position in the week's covered apartments that the rotation picks.
pub open spec fn chosen_position(seed: int, ws: int, covered_len: int) -> int {
    (seed + global_week_index_spec(ws)) % covered_len
}

/// A week is assigned exactly when at least one apartment has an owner
/// covering most of it.
pub proof fn law_week_assigned_iff_covered(
    seed: int,
    year: int,
    ws: int,
    apts: Seq<Apartment>,
    order: Seq<usize>,
    owners: Seq<PersonView>,
    tenancies: Seq<PersonView>,
)
    ensures
        week_spec(seed, year, ws, apts, order, owners, tenancies).assignee_id is Some
            <==> covered_apartments(apts, order, owners, ws, ws + 6).len() > 0,
        week_spec(seed, year, ws, apts, order, owners, tenancies).assignee_name is Some
            <==> covered_apartments(apts, order, owners, ws, ws + 6).len() > 0,
{
}

/// The rotation phase repeats with the number of covered apartments:
/// shifting the seed by that number changes no assignment.
pub proof fn law_seed_shift_by_count_is_identity(
    seed: int,
    year: int,
    ws: int,
    apts: Seq<Apartment>,
    order: Seq<usize>,
    owners: Seq<PersonView>,
    tenancies: Seq<PersonView>,
)
    ensures
        ({
            let n = covered_apartments(apts, order, owners, ws, ws + 6).len() as int;
            week_spec(seed + n, year, ws, apts, order, owners, tenancies) == week_spec(
                seed,
                year,
                ws,
                apts,
                order,
                owners,
                tenancies,
            )
        }),
{
    let n = covered_apartments(apts, order, owners, ws, ws + 6).len() as int;
    if n > 0 {
        let g = global_week_index_spec(ws);
        assert(seed + n + g == n + (seed + g));
        vstd::arithmetic::div_mod::lemma_mod_add_multiples_vanish(seed + g, n);
    }
}

/// Raising the seed by one moves the week's duty to the next covered
/// apartment in rotation order (cyclically).
pub proof fn law_seed_shift_moves_to_next(seed: int, ws: int, n: int)
    requires
        n > 0,
    ensures
        chosen_position(seed + 1, ws, n) == (chosen_position(seed, ws, n) + 1) % n,
{
    let g = global_week_index_spec(ws);
    vstd::arithmetic::div_mod::lemma_add_mod_noop(seed + g, 1, n);
    if n == 1 {
        vstd::arithmetic::div_mod::lemma_mod_self_0(1);
        assert(chosen_position(seed + 1, ws, n) == 0);
        assert((chosen_position(seed, ws, n) + 1) % n == 0);
    } else {
        vstd::arithmetic::div_mod::lemma_small_mod(1, n as nat);
        assert(seed + 1 + g == (seed + g) + 1);
    }
}

/// From one Monday to the next, the duty moves to the next covered
/// apartment: the rotation counter advances by exactly one per week, across
/// year boundaries too.
pub proof fn law_next_week_moves_to_next(seed: int, ws: int, n: int)
    requires
        n > 0,
        (ws - rotation_epoch()) % 7 == 0,
    ensures
        global_week_index_spec(ws + 7) == global_week_index_spec(ws) + 1,
        chosen_position(seed, ws + 7, n) == (chosen_position(seed, ws, n) + 1) % n,
{
    let d = ws - rotation_epoch();
    assert(ws + 7 - rotation_epoch() == d + 7);
    if d >= 0 {
        assert((d + 7) / 7 == d / 7 + 1);
    } else if d == -7 {
        assert(div7_toward_zero(d) == -1);
        assert(div7_toward_zero(d + 7) == 0);
    } else {
        assert(d <= -14) by {
            assert(d % 7 == 0);
            assert(d != -7);
        }
        assert((-d) % 7 == 0) by (nonlinear_arith)
            requires
                d % 7 == 0,
        ;
        assert((-(d + 7)) / 7 == (-d) / 7 - 1) by (nonlinear_arith)
            requires
                (-d) % 7 == 0,
                d <= -14,
        ;
    }
    law_seed_shift_moves_to_next_via_index(seed, ws, n);
}

proof fn law_seed_shift_moves_to_next_via_index(seed: int, ws: int, n: int)
    requires
        n > 0,
        global_week_index_spec(ws + 7) == global_week_index_spec(ws) + 1,
    ensures
        chosen_position(seed, ws + 7, n) == (chosen_position(seed, ws, n) + 1) % n,
{
    law_seed_shift_moves_to_next(seed, ws, n);
    assert(seed + global_week_index_spec(ws + 7) == (seed + 1) + global_week_index_spec(ws));
}

/// Owner and tenant changes never shift duty weeks between apartments: the
/// apartment on duty depends only on which apartments are covered that
/// week, not on who owns or rents them.
pub proof fn law_duty_apartment_independent_of_people(
    seed: int,
    ws: int,
    c1: Seq<(int, int)>,
    c2: Seq<(int, int)>,
)
    requires
        c1.len() == c2.len(),
        c1.len() > 0,
        forall|i: int| 0 <= i < c1.len() ==> (#[trigger] c1[i]).0 == c2[i].0,
    ensures
        c1[chosen_position(seed, ws, c1.len() as int)].0 == c2[chosen_position(
            seed,
            ws,
            c2.len() as int,
        )].0,
{
}

/// Nobody is on duty outside their period: a delegated week lies wholly
/// inside a tenancy of the chosen apartment (the tenancy starts on or
/// before the week's Monday and, if it ends, ends on or after its Sunday),
/// a tenancy of the chosen apartment that spans the whole week takes the
/// week over, and an owner's week is one of which that owner of the
/// apartment covers at least four days.
pub proof fn law_assignee_is_responsible(
    seed: int,
    year: int,
    ws: int,
    apts: Seq<Apartment>,
    order: Seq<usize>,
    owners: Seq<PersonView>,
    tenancies: Seq<PersonView>,
)
    ensures
        ({
            let we = ws + 6;
            let cov = covered_apartments(apts, order, owners, ws, we);
            let w = week_spec(seed, year, ws, apts, order, owners, tenancies);
            cov.len() > 0 ==> {
                let chosen = cov[chosen_position(seed, ws, cov.len() as int)];
                &&& w.delegated ==> exists|t: int|
                    0 <= t < tenancies.len() && (#[trigger] tenancies[t]).apartment_id
                        == apts[chosen.0].id@ && tenancies[t].start <= w.start && (
                    tenancies[t].end matches Some(e) ==> e >= w.end) && w.assignee_id == Some(
                        tenancies[t].id,
                    )
                &&& (exists|t: int|
                    0 <= t < tenancies.len() && (#[trigger] tenancies[t]).apartment_id
                        == apts[chosen.0].id@ && tenancies[t].start <= ws && (
                    tenancies[t].end matches Some(e) ==> e >= ws + 6)) ==> w.delegated
                &&& !w.delegated ==> owners[chosen.1].apartment_id == apts[chosen.0].id@
                    && overlap_days(owners[chosen.1], ws, we) >= 4 && w.assignee_id == Some(
                    owners[chosen.1].id,
                )
            }
        }),
{
    let we = ws + 6;
    let cov = covered_apartments(apts, order, owners, ws, we);
    if cov.len() > 0 {
        let pos = chosen_position(seed, ws, cov.len() as int);
        lemma_covered_entries(apts, order, owners, ws, we, pos);
        let chosen = cov[pos];
        match first_tenancy(tenancies, apts[chosen.0].id@, ws, we) {
            Some(t) => {
                lemma_first_tenancy_matches(tenancies, apts[chosen.0].id@, ws, we);
            },
            None => {
                if exists|t: int|
                    0 <= t < tenancies.len() && (#[trigger] tenancies[t]).apartment_id
                        == apts[chosen.0].id@ && tenancies[t].start <= ws && (
                    tenancies[t].end matches Some(e) ==> e >= ws + 6) {
                    let t = choose|t: int|
                        0 <= t < tenancies.len() && (#[trigger] tenancies[t]).apartment_id
                            == apts[chosen.0].id@ && tenancies[t].start <= ws && (
                        tenancies[t].end matches Some(e) ==> e >= ws + 6);
                    lemma_first_tenancy_found(tenancies, apts[chosen.0].id@, ws, we, t);
                }
            },
        }
    }
}

/// A tenancy of the apartment that covers the whole week makes the search
/// for one succeed.
proof fn lemma_first_tenancy_found(
    tenancies: Seq<PersonView>,
    apt: Seq<char>,
    ws: int,
    we: int,
    k: int,
)
    requires
        0 <= k < tenancies.len(),
        tenancies[k].apartment_id == apt,
        covers_week(tenancies[k], ws, we),
    ensures
        first_tenancy(tenancies, apt, ws, we) is Some,
    decreases tenancies.len(),
{
    if k < tenancies.len() - 1 {
        assert(tenancies.drop_last()[k] == tenancies[k]);
        lemma_first_tenancy_found(tenancies.drop_last(), apt, ws, we, k);
    }
}

proof fn lemma_majority_owner_matches(owners: Seq<PersonView>, apt: Seq<char>, ws: int, we: int)
    ensures
        majority_owner(owners, apt, ws, we) matches Some(m) ==> 0 <= m.0 < owners.len()
            && owners[m.0].apartment_id == apt && overlap_days(owners[m.0], ws, we) == m.1 && m.1
            >= 4,
    decreases owners.len(),
{
    if owners.len() > 0 {
        lemma_majority_owner_matches(owners.drop_last(), apt, ws, we);
    }
}

proof fn lemma_covered_entries(
    apts: Seq<Apartment>,
    order: Seq<usize>,
    owners: Seq<PersonView>,
    ws: int,
    we: int,
    i: int,
)
    requires
        0 <= i < covered_apartments(apts, order, owners, ws, we).len(),
    ensures
        ({
            let c = covered_apartments(apts, order, owners, ws, we)[i];
            majority_owner(owners, apts[c.0].id@, ws, we) matches Some(m) && m.0 == c.1
                && owners[c.1].apartment_id == apts[c.0].id@ && overlap_days(owners[c.1], ws, we)
                >= 4
        }),
    decreases order.len(),
{
    let rest = covered_apartments(apts, order.drop_last(), owners, ws, we);
    if i < rest.len() {
        lemma_covered_entries(apts, order.drop_last(), owners, ws, we, i);
    } else {
        let a = order.last() as int;
        lemma_majority_owner_matches(owners, apts[a].id@, ws, we);
    }
}

proof fn lemma_first_tenancy_matches(tenancies: Seq<PersonView>, apt: Seq<char>, ws: int, we: int)
    ensures
        first_tenancy(tenancies, apt, ws, we) matches Some(t) ==> 0 <= t < tenancies.len()
            && tenancies[t].apartment_id == apt && covers_week(tenancies[t], ws, we),
    decreases tenancies.len(),
{
    if tenancies.len() > 0 {
        lemma_first_tenancy_matches(tenancies.drop_last(), apt, ws, we);
    }
}

} // verus!
