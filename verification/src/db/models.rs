//! Rows of the database and how their people are displayed.

use crate::text::{is_blank, trim, trim_spec, to_owned, is_blank_str};
use vstd::prelude::*;

verus! {

#[derive(Debug, Clone)]
pub struct Building {
    pub id: String,
    pub name: String,
    pub description: String,
    pub secret_slug: String,
    pub rotation_seed: i64,
    pub created_at: String,
    pub updated_at: String,
}

#[derive(Debug, Clone)]
pub struct BuildingAdministrator {
    pub id: String,
    pub building_id: String,
    /// The person behind the Ansprechpartner (joined `people` row).
    pub person_id: String,
    pub name: String,
    /// Optional display name of the person (joined `people` row).
    pub display_name: Option<String>,
    pub email: String,
    pub created_at: String,
}

#[derive(Debug, Clone)]
pub struct Apartment {
    pub id: String,
    pub building_id: String,
    pub name: String,
    pub description: String,
    /// Manual display order within the building; 0-based, gaps allowed.
    pub position: i64,
    pub created_at: String,
}

impl Apartment {
    /// A copy of the row.
    pub fn duplicate(&self) -> (res: Apartment)
        ensures
            res == *self,
    {
        Apartment {
            id: self.id.clone(),
            building_id: self.building_id.clone(),
            name: self.name.clone(),
            description: self.description.clone(),
            position: self.position,
            created_at: self.created_at.clone(),
        }
    }
}

/// Master data of a person: contact data shared by all of the person's
/// periods and roles, identified by the e-mail address.
#[derive(Debug, Clone)]
pub struct Person {
    pub id: String,
    pub name: String,
    /// Optional display name: shown instead of `name` when set.
    pub display_name: Option<String>,
    pub email: String,
    pub created_at: String,
}

/// The view of an optional string.
pub open spec fn opt_view(s: Option<String>) -> Option<Seq<char>> {
    match s {
        Some(x) => Some(x@),
        None => None,
    }
}

/// The name shown for a person: the display name when it is set and not
/// blank (trimmed), the person's name otherwise.
pub open spec fn effective_name_spec(name: Seq<char>, display_name: Option<Seq<char>>) -> Seq<
    char,
> {
    match display_name {
        Some(d) => if is_blank(d) {
            name
        } else {
            trim_spec(d)
        },
        None => name,
    }
}

/// The name shown for a person: the display name when set (non-empty after
/// trimming), falling back to the person's name.
pub fn person_effective_name(name: &str, display_name: Option<&str>) -> (res: String)
    ensures
        res@ == effective_name_spec(
            name@,
            match display_name {
                Some(d) => Some(d@),
                None => None,
            },
        ),
{
    match display_name {
        Some(d) => {
            let t = trim(d);
            if t.unicode_len() == 0 {
                to_owned(name)
            } else {
                to_owned(t)
            }
        },
        None => to_owned(name),
    }
}

fn opt_as_str(s: &Option<String>) -> (res: Option<&str>)
    ensures
        match res {
            Some(r) => s.is_some() && r@ == s.unwrap()@,
            None => s.is_none(),
        },
{
    match s {
        Some(x) => Some(x.as_str()),
        None => None,
    }
}

impl BuildingAdministrator {
    /// The name shown in contact displays.
    pub fn effective_name(&self) -> (res: String)
        ensures
            res@ == effective_name_spec(self.name@, opt_view(self.display_name)),
    {
        person_effective_name(self.name.as_str(), opt_as_str(&self.display_name))
    }
}

impl Person {
    /// The name shown in displays.
    pub fn effective_name(&self) -> (res: String)
        ensures
            res@ == effective_name_spec(self.name@, opt_view(self.display_name)),
    {
        person_effective_name(self.name.as_str(), opt_as_str(&self.display_name))
    }
}

/// Names joined by ", " (used for all but the last of several names).
pub open spec fn comma_joined(names: Seq<Seq<char>>) -> Seq<char>
    decreases names.len(),
{
    if names.len() == 0 {
        Seq::empty()
    } else if names.len() == 1 {
        names[0]
    } else {
        comma_joined(names.drop_last()) + ", "@ + names.last()
    }
}

/// Names joined the way owners and contacts are printed: "A", "A & B",
/// "A, B & C".
pub open spec fn joined_names(names: Seq<Seq<char>>) -> Seq<char> {
    if names.len() == 0 {
        Seq::empty()
    } else if names.len() == 1 {
        names[0]
    } else {
        comma_joined(names.drop_last()) + " & "@ + names.last()
    }
}

/// The views of a list of strings.
pub open spec fn views(s: Seq<String>) -> Seq<Seq<char>> {
    s.map_values(|x: String| x@)
}

/// Join names for display: "A", "A & B", "A, B & C".
pub fn join_names(names: &[String]) -> (res: String)
    ensures
        res@ == joined_names(views(names@)),
{
    let n = names.len();
    if n == 0 {
        return String::new();
    }
    if n == 1 {
        return to_owned(names[0].as_str());
    }
    let ghost vs = views(names@);
    let mut out = to_owned(names[0].as_str());
    let mut i: usize = 1;
    while i < n - 1
        invariant
            n == names@.len(),
            n >= 2,
            1 <= i <= n - 1,
            vs == views(names@),
            out@ == comma_joined(vs.subrange(0, i as int)),
        decreases n - i,
    {
        out.append(", ");
        out.append(names[i].as_str());
        proof {
            let pre = vs.subrange(0, i as int + 1);
            assert(pre.drop_last() =~= vs.subrange(0, i as int));
        }
        i = i + 1;
    }
    out.append(" & ");
    out.append(names[n - 1].as_str());
    proof {
        assert(vs.drop_last() =~= vs.subrange(0, (n - 1) as int));
    }
    out
}

/// One person of a (possibly multi-person) ownership period. `position` is
/// the display order within the period.
#[derive(Debug, Clone)]
pub struct PersonRef {
    pub person_id: String,
    pub name: String,
    /// Optional display name of the person.
    pub display_name: Option<String>,
    pub email: String,
    pub position: i64,
}

impl PersonRef {
    /// The name shown in owner displays.
    pub fn effective_name(&self) -> (res: String)
        ensures
            res@ == effective_name_spec(self.name@, opt_view(self.display_name)),
    {
        person_effective_name(self.name.as_str(), opt_as_str(&self.display_name))
    }
}

/// The effective names of a group of people, in display order.
pub open spec fn effective_names(people: Seq<PersonRef>) -> Seq<Seq<char>> {
    people.map_values(|p: PersonRef| effective_name_spec(p.name@, opt_view(p.display_name)))
}

fn effective_names_of(people: &Vec<PersonRef>) -> (res: Vec<String>)
    ensures
        views(res@) == effective_names(people@),
{
    let mut out: Vec<String> = Vec::new();
    let n = people.len();
    let mut i: usize = 0;
    while i < n
        invariant
            n == people@.len(),
            i <= n,
            out@.len() == i,
            views(out@) == effective_names(people@.subrange(0, i as int)),
        decreases n - i,
    {
        let name = people[i].effective_name();
        let ghost before = out@;
        out.push(name);
        proof {
            let pre = people@.subrange(0, i as int + 1);
            let eo = effective_names(pre);
            assert(eo.len() == i + 1);
            assert(out@.len() == i + 1);
            assert(before.len() == i);
            assert forall|k: int| 0 <= k < i + 1 implies #[trigger] views(out@)[k] == eo[k] by {
                assert(pre[k] == people@[k]);
                if k < i {
                    assert(out@[k] == before[k]);
                    assert(views(before)[k] == effective_names(people@.subrange(0, i as int))[k]);
                } else {
                    assert(out@[k] == name);
                }
            }
            assert(views(out@) =~= eo);
        }
        i = i + 1;
    }
    assert(people@.subrange(0, n as int) =~= people@);
    out
}

/// A building-owner period; `people` is the group of owners of the period.
#[derive(Debug, Clone)]
pub struct BuildingOwner {
    pub id: String,
    pub building_id: String,
    pub start_date: String,
    pub end_date: Option<String>,
    pub created_at: String,
    pub people: Vec<PersonRef>,
}

impl BuildingOwner {
    /// The owners' effective names joined for display.
    pub fn label(&self) -> (res: String)
        ensures
            res@ == joined_names(effective_names(self.people@)),
    {
        let names = self.people_names();
        join_names(names.as_slice())
    }

    /// The effective names of the period's owners, in display order.
    pub fn people_names(&self) -> (res: Vec<String>)
        ensures
            views(res@) == effective_names(self.people@),
    {
        effective_names_of(&self.people)
    }
}

/// An apartment ownership period; `people` is the group of owners.
#[derive(Debug, Clone)]
pub struct Ownership {
    pub id: String,
    pub apartment_id: String,
    pub start_date: String,
    pub end_date: Option<String>,
    pub created_at: String,
    pub people: Vec<PersonRef>,
}

impl Ownership {
    /// The owners' effective names joined for display.
    pub fn label(&self) -> (res: String)
        ensures
            res@ == joined_names(effective_names(self.people@)),
    {
        let names = self.people_names();
        join_names(names.as_slice())
    }

    /// The effective names of the period's owners, in display order.
    pub fn people_names(&self) -> (res: Vec<String>)
        ensures
            views(res@) == effective_names(self.people@),
    {
        effective_names_of(&self.people)
    }
}

/// A tenancy; `name`/`email`/`display_name` come from the joined person.
#[derive(Debug, Clone)]
pub struct Tenancy {
    pub id: String,
    pub apartment_id: String,
    pub person_id: String,
    pub name: String,
    /// Optional display name of the person.
    pub display_name: Option<String>,
    pub email: String,
    pub start_date: String,
    pub end_date: Option<String>,
    pub created_at: String,
}

impl Tenancy {
    /// The name shown in tenant displays.
    pub fn effective_name(&self) -> (res: String)
        ensures
            res@ == effective_name_spec(self.name@, opt_view(self.display_name)),
    {
        person_effective_name(self.name.as_str(), opt_as_str(&self.display_name))
    }
}

/// One row of the "person roles" listing: a person in one role (`kind` is
/// `admin`, `building_owner`, `apartment_owner` or `tenant`) with the object
/// it refers to.
#[derive(Debug, Clone)]
pub struct PersonRoleRow {
    pub person_id: String,
    pub person_name: String,
    pub person_email: String,
    pub kind: String,
    pub building_id: Option<String>,
    pub building_name: Option<String>,
    pub apartment_id: Option<String>,
    pub apartment_name: Option<String>,
    pub start_date: Option<String>,
    pub end_date: Option<String>,
}

} // verus!
