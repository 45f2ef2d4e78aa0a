//! The catalog of known lints, as delivered by its source and as the
//! classifier reads it.

use vstd::prelude::*;
use vstd::std_specs::convert::FromSpecImpl;

use crate::lint::{LintGroup, LintId, LintLevel};
use crate::subsequence::lemma_filter_take_step;

verus! {

/// What the classifier reads of a catalog entry: the lint's name and group.
pub struct LintView {
    pub id: Seq<char>,
    pub group: LintGroup,
}

/// A catalog entry as its source delivers it.  Only `id` and `group` are read;
/// the other fields are carried to tolerate the source's schema.
#[derive(Debug)]
pub struct LintResponse {
    pub id: String,
    pub group: LintGroup,
    pub default_level: LintLevel,
    pub version: String,
}

impl View for LintResponse {
    type V = LintView;

    open spec fn view(&self) -> LintView {
        LintView { id: self.id@, group: self.group }
    }
}

/// The decoded catalog, in the order of its source.
#[derive(Debug)]
pub struct Response(pub Vec<LintResponse>);

impl View for Response {
    type V = Seq<LintView>;

    open spec fn view(&self) -> Seq<LintView> {
        self.0@.map_values(|entry: LintResponse| entry@)
    }
}

/// A lint of the catalog; its name borrows from the decoded response.
#[derive(Debug)]
pub struct Lint<'a> {
    pub id: LintId<'a>,
    pub group: LintGroup,
}

impl<'a> View for Lint<'a> {
    type V = LintView;

    open spec fn view(&self) -> LintView {
        LintView { id: self.id@, group: self.group }
    }
}

/// The test for membership in `group`.
pub open spec fn in_group(group: LintGroup) -> spec_fn(LintView) -> bool {
    |lint: LintView| lint.group == group
}

/// The projection of a lint to its name.
pub open spec fn name_of() -> spec_fn(LintView) -> Seq<char> {
    |lint: LintView| lint.id
}

/// The names of all lints, in catalog order.
pub open spec fn names(catalog: Seq<LintView>) -> Seq<Seq<char>> {
    catalog.map_values(name_of())
}

/// The names of the lints of `group`, in catalog order.  A lint that the
/// catalog lists twice is named twice.
pub open spec fn members(catalog: Seq<LintView>, group: LintGroup) -> Seq<Seq<char>> {
    catalog.filter(in_group(group)).map_values(name_of())
}

/// Whether the catalog lists a lint named `id` under `group`.
pub open spec fn has_lint(catalog: Seq<LintView>, id: Seq<char>, group: LintGroup) -> bool {
    catalog.contains(LintView { id, group })
}

/// The set of names that the catalog lists under `group`.
pub open spec fn group_ids(catalog: Seq<LintView>, group: LintGroup) -> Set<Seq<char>> {
    Set::new(|id: Seq<char>| has_lint(catalog, id, group))
}

/// The members of a group are the names that the catalog lists under it.
pub proof fn lemma_members_are_group_ids(catalog: Seq<LintView>, group: LintGroup, id: Seq<char>)
    ensures
        members(catalog, group).contains(id) <==> has_lint(catalog, id, group),
{
    let kept = catalog.filter(in_group(group));
    if has_lint(catalog, id, group) {
        let i = choose|i: int| 0 <= i < catalog.len() && catalog[i] == (LintView { id, group });
        catalog.lemma_filter_contains(in_group(group), i);
        let j = choose|j: int| 0 <= j < kept.len() && kept[j] == catalog[i];
        assert(members(catalog, group)[j] == id);
    }
    if members(catalog, group).contains(id) {
        let j = choose|j: int| 0 <= j < kept.len() && members(catalog, group)[j] == id;
        catalog.lemma_filter_pred(in_group(group), j);
        assert(kept.contains(kept[j]));
        catalog.lemma_filter_contains_rev(in_group(group), kept[j]);
        assert(kept[j] == (LintView { id, group }));
    }
}

/// How the members of a group grow with the catalog.
pub proof fn lemma_members_step(catalog: Seq<LintView>, group: LintGroup, i: int)
    requires
        0 <= i < catalog.len(),
    ensures
        members(catalog.take(i + 1), group) == if catalog[i].group == group {
            members(catalog.take(i), group).push(catalog[i].id)
        } else {
            members(catalog.take(i), group)
        },
{
    lemma_filter_take_step(catalog, in_group(group), i);
    if catalog[i].group == group {
        assert(members(catalog.take(i + 1), group) =~= members(catalog.take(i), group).push(
            catalog[i].id,
        ));
    }
}

/// The names that a run of identifiers holds.
pub open spec fn id_names<'a>(ids: Seq<LintId<'a>>) -> Seq<Seq<char>> {
    ids.map_values(|id: LintId<'a>| id@)
}

/// The names that a vector of borrowed identifiers holds.
pub open spec fn borrowed_names<'a>(ids: Seq<&'a LintId<'a>>) -> Seq<Seq<char>> {
    ids.map_values(|id: &'a LintId<'a>| id@)
}

/// The catalog as the classifier consumes it.
#[derive(Debug)]
pub struct AllLints<'a>(pub Vec<Lint<'a>>);

impl<'a> View for AllLints<'a> {
    type V = Seq<LintView>;

    open spec fn view(&self) -> Seq<LintView> {
        self.0@.map_values(|lint: Lint<'a>| lint@)
    }
}

impl<'a> AllLints<'a> {
    /// Borrows the name and group of every entry, keeping the order.
    pub fn from_response(response: &'a Response) -> (catalog: Self)
        ensures
            catalog@ == response@,
    {
        let mut lints: Vec<Lint<'a>> = Vec::new();
        let mut i: usize = 0;
        while i < response.0.len()
            invariant
                i <= response.0@.len(),
                lints@.len() == i,
                forall|j: int| 0 <= j < i ==> (#[trigger] lints@[j])@ == response.0@[j]@,
            decreases response.0@.len() - i,
        {
            let entry = &response.0[i];
            lints.push(Lint { id: LintId(entry.id.as_str()), group: entry.group });
            i += 1;
        }
        AllLints(lints)
    }

    /// The first lint of the catalog that is named like `id` and belongs to
    /// `group`, if there is one.
    pub fn find(&'a self, id: &LintId, group: LintGroup) -> (found: Option<&'a LintId<'a>>)
        ensures
            found is Some <==> has_lint(self@, id@, group),
            found matches Some(lint) ==> lint@ == id@,
    {
        let mut i: usize = 0;
        while i < self.0.len()
            invariant
                i <= self.0@.len(),
                forall|j: int| 0 <= j < i ==> self@[j] != (LintView { id: id@, group }),
            decreases self.0@.len() - i,
        {
            let lint = &self.0[i];
            if lint.id == *id && lint.group == group {
                assert(self@[i as int] == (LintView { id: id@, group }));
                return Some(&lint.id);
            }
            i += 1;
        }
        None
    }

    /// The names of the lints of `group`, in catalog order.
    pub fn ids_in_group(&'a self, group: LintGroup) -> (ids: Vec<&'a LintId<'a>>)
        ensures
            borrowed_names(ids@) == members(self@, group),
    {
        let mut ids: Vec<&'a LintId<'a>> = Vec::new();
        let mut i: usize = 0;
        assert(self@.take(0).filter(in_group(group)) =~= Seq::empty()) by {
            reveal(Seq::filter);
        }
        while i < self.0.len()
            invariant
                i <= self.0@.len(),
                borrowed_names(ids@) =~= members(self@.take(i as int), group),
            decreases self.0@.len() - i,
        {
            let lint = &self.0[i];
            proof {
                lemma_members_step(self@, group, i as int);
            }
            if lint.group == group {
                ids.push(&lint.id);
            }
            i += 1;
        }
        assert(self@.take(i as int) =~= self@);
        ids
    }
}

/// An ordered list of lint names.
#[derive(Debug)]
pub struct LintList<'a>(pub Vec<LintId<'a>>);

impl<'a> View for LintList<'a> {
    type V = Seq<Seq<char>>;

    open spec fn view(&self) -> Seq<Seq<char>> {
        id_names(self.0@)
    }
}

impl<'a> LintList<'a> {
    /// Whether the list names `id`.
    pub fn contains(&self, id: &LintId) -> (found: bool)
        ensures
            found == self@.contains(id@),
    {
        let mut i: usize = 0;
        while i < self.0.len()
            invariant
                i <= self.0@.len(),
                forall|j: int| 0 <= j < i ==> self@[j] != id@,
            decreases self.0@.len() - i,
        {
            if self.0[i] == *id {
                assert(self@[i as int] == id@);
                return true;
            }
            i += 1;
        }
        false
    }
}

impl<'a> From<Vec<&'a str>> for LintList<'a> {
    /// Wraps every name, keeping the order.
    fn from(value: Vec<&'a str>) -> (list: Self)
        ensures
            list@ == value@.map_values(|name: &'a str| name@),
    {
        let mut ids: Vec<LintId<'a>> = Vec::new();
        let mut i: usize = 0;
        while i < value.len()
            invariant
                i <= value@.len(),
                ids@.len() == i,
                forall|j: int| 0 <= j < i ==> (#[trigger] ids@[j])@ == value@[j]@,
            decreases value@.len() - i,
        {
            ids.push(LintId(value[i]));
            i += 1;
        }
        LintList(ids)
    }
}

impl<'a> FromSpecImpl<Vec<&'a str>> for LintList<'a> {
    /// A list is known by its names only, so the conversion is specified by
    /// the `ensures` of `from` and not by equality with `from_spec`.
    open spec fn obeys_from_spec() -> bool {
        false
    }

    open spec fn from_spec(value: Vec<&'a str>) -> Self {
        choose|list: Self| list@ == value@.map_values(|name: &'a str| name@)
    }
}

} // verus!
