//! A catalog: templates in the order of their names, no name twice, with
//! search by a term and lookup by name.

use vstd::prelude::*;
use crate::error::CheckTemplateNameError;
use crate::find_result::hits_view;
use crate::find_result::FindResult;
use crate::find_result::FindResultView;
use crate::template::check_template_name;
use crate::template::reports_first_invalid;
use crate::template::valid_name;
use crate::template::valid_name_char;
use crate::template::Template;
use crate::template::TemplateView;
use crate::text::chars_of;
use crate::text::contains_chars;
use crate::text::is_substring;
use crate::text::lemma_precedes_irreflexive;
use crate::text::lemma_precedes_total;
use crate::text::lemma_precedes_transitive;
use crate::text::precedes;
use crate::text::str_eq;
use crate::text::str_precedes;

verus! {

/// How a template stands to a search term.
#[derive(Debug, Clone, Copy, PartialEq, Eq, Structural)]
pub enum MatchKind {
    /// The term is part of the name and of the description.
    NameAndDescription,
    /// The term is part of the name, and not of a description.
    NameOnly,
    /// The term is part of the description, and not of the name.
    DescriptionOnly,
    /// The term is part of neither.
    Neither,
}

impl TemplateView {
    /// The term is part of the name.
    pub open spec fn name_has(self, term: Seq<char>) -> bool {
        is_substring(term, self.name())
    }

    /// There is a description and the term is part of it.
    pub open spec fn description_has(self, term: Seq<char>) -> bool {
        match self.description() {
            Some(d) => is_substring(term, d),
            None => false,
        }
    }

    /// The one bucket that a search for `term` puts this template in.
    pub open spec fn match_kind(self, term: Seq<char>) -> MatchKind {
        if self.name_has(term) && self.description_has(term) {
            MatchKind::NameAndDescription
        } else if self.name_has(term) {
            MatchKind::NameOnly
        } else if self.description_has(term) {
            MatchKind::DescriptionOnly
        } else {
            MatchKind::Neither
        }
    }
}

/// The templates of `s` that a search for `term` puts in bucket `kind`,
/// in the order they have in `s`.
pub open spec fn bucket(s: Seq<TemplateView>, term: Seq<char>, kind: MatchKind) -> Seq<
    TemplateView,
> {
    s.filter(|t: TemplateView| t.match_kind(term) == kind)
}

/// What a search for `term` in `s` gives.
pub open spec fn find_in(s: Seq<TemplateView>, term: Seq<char>) -> FindResultView {
    FindResultView {
        name_and_description: bucket(s, term, MatchKind::NameAndDescription),
        name_only: bucket(s, term, MatchKind::NameOnly),
        description_only: bucket(s, term, MatchKind::DescriptionOnly),
    }
}

/// The names rise strictly along `s`; so no name occurs twice.
pub open spec fn sorted_by_name(s: Seq<TemplateView>) -> bool {
    forall|i: int, j: int|
        #![trigger s[i], s[j]]
        0 <= i < j < s.len() ==> precedes(s[i].name(), s[j].name())
}

/// Some template of `s` has the name `name`.
pub open spec fn has_name(s: Seq<TemplateView>, name: Seq<char>) -> bool {
    exists|i: int| 0 <= i < s.len() && #[trigger] s[i].name() == name
}

/// `i` is the first position of `s` whose template has the name `name`.
pub open spec fn first_named(s: Seq<TemplateView>, name: Seq<char>, i: int) -> bool {
    &&& 0 <= i < s.len()
    &&& s[i].name() == name
    &&& forall|j: int| 0 <= j < i ==> #[trigger] s[j].name() != name
}

/// The first template of `s` that has exactly the name `name`.
pub open spec fn find_exact_in(s: Seq<TemplateView>, name: Seq<char>) -> Option<TemplateView> {
    if has_name(s, name) {
        Some(s[choose|i: int| first_named(s, name, i)])
    } else {
        None
    }
}

/// Only one position can be the first with a name.
pub proof fn lemma_first_named_unique(s: Seq<TemplateView>, name: Seq<char>, i: int, j: int)
    requires
        first_named(s, name, i),
        first_named(s, name, j),
    ensures
        i == j,
{
    if i < j {
        assert(s[i].name() != name);
    } else if j < i {
        assert(s[j].name() != name);
    }
}

/// What can be added to a catalog, and why not.
#[derive(Debug, Clone, Copy, PartialEq, Eq, Structural)]
pub enum AddError {
    /// The catalog has a template of that name.
    AlreadyExists,
    /// The name holds a character that is not allowed.
    InvalidName(CheckTemplateNameError),
    /// The catalog is meant to be used from a repository, and the
    /// template is a directory on this machine.
    LocalInRemote,
}

/// Why nothing was removed from a catalog.
#[derive(Debug, Clone, Copy, PartialEq, Eq, Structural)]
pub enum RemoveError {
    /// The name holds a character that is not allowed.
    InvalidName(CheckTemplateNameError),
    /// The catalog has no template of that name.
    NotFound,
}

/// The rule that keeps `t` out of the catalog `s`, if one does. A
/// snapshot of a repository is held against the names that are there
/// before its own name is checked; a local directory is held against the
/// catalog's purpose first, then has its name checked, then is held
/// against the names that are there.
pub open spec fn add_refusal(s: Seq<TemplateView>, for_remote: bool, t: TemplateView) -> Option<
    AddRefusal,
> {
    match t {
        TemplateView::Repo { .. } => {
            if has_name(s, t.name()) {
                Some(AddRefusal::AlreadyExists)
            } else if !valid_name(t.name()) {
                Some(AddRefusal::InvalidName)
            } else {
                None
            }
        },
        TemplateView::Local { .. } => {
            if for_remote {
                Some(AddRefusal::LocalInRemote)
            } else if !valid_name(t.name()) {
                Some(AddRefusal::InvalidName)
            } else if has_name(s, t.name()) {
                Some(AddRefusal::AlreadyExists)
            } else {
                None
            }
        },
    }
}

/// The rules that can keep a template out of a catalog.
pub enum AddRefusal {
    AlreadyExists,
    InvalidName,
    LocalInRemote,
}

impl AddError {
    /// The rule that the error stands for.
    pub open spec fn refusal(self) -> AddRefusal {
        match self {
            AddError::AlreadyExists => AddRefusal::AlreadyExists,
            AddError::InvalidName(_) => AddRefusal::InvalidName,
            AddError::LocalInRemote => AddRefusal::LocalInRemote,
        }
    }
}

/// `t` is the first template of `ts` that has its name.
pub open spec fn first_of_its_name(ts: Seq<TemplateView>, t: TemplateView) -> bool {
    exists|i: int| first_named(ts, t.name(), i) && ts[i] == t
}

/// `s` is the catalog made of the templates `ts`: it is in the order of
/// names, every name of `ts` is in it, and under each name it holds the
/// first template of `ts` that has the name.
pub open spec fn collects(ts: Seq<TemplateView>, s: Seq<TemplateView>) -> bool {
    &&& sorted_by_name(s)
    &&& forall|i: int| 0 <= i < ts.len() ==> has_name(s, #[trigger] ts[i].name())
    &&& forall|k: int| 0 <= k < s.len() ==> first_of_its_name(ts, #[trigger] s[k])
}

/// A catalog that is made of some templates stays one when a further
/// template goes through `insert`.
proof fn lemma_collects_step(
    ts: Seq<TemplateView>,
    t: TemplateView,
    old_s: Seq<TemplateView>,
    new_s: Seq<TemplateView>,
)
    requires
        collects(ts, old_s),
        sorted_by_name(new_s),
        has_name(old_s, t.name()) ==> new_s == old_s,
        !has_name(old_s, t.name()) ==> exists|p: int|
            0 <= p <= old_s.len() && new_s == old_s.insert(p, t),
    ensures
        collects(ts.push(t), new_s),
{
    let all = ts.push(t);
    if has_name(old_s, t.name()) {
        assert forall|i: int| 0 <= i < all.len() implies has_name(
            new_s,
            #[trigger] all[i].name(),
        ) by {
            if i < ts.len() {
                assert(all[i] == ts[i]);
            }
        }
        assert forall|k: int| 0 <= k < new_s.len() implies first_of_its_name(
            all,
            #[trigger] new_s[k],
        ) by {
            let i = choose|i: int| first_named(ts, old_s[k].name(), i) && ts[i] == old_s[k];
            assert(all[i] == ts[i]);
            assert forall|j: int| 0 <= j < i implies #[trigger] all[j].name()
                != old_s[k].name() by {
                assert(all[j] == ts[j]);
            }
            assert(first_named(all, new_s[k].name(), i) && all[i] == new_s[k]);
        }
    } else {
        let p = choose|p: int| 0 <= p <= old_s.len() && new_s == old_s.insert(p, t);
        assert forall|i: int| 0 <= i < all.len() implies has_name(
            new_s,
            #[trigger] all[i].name(),
        ) by {
            if i < ts.len() {
                assert(all[i] == ts[i]);
                assert(has_name(old_s, ts[i].name()));
                let k = choose|k: int| 0 <= k < old_s.len() && old_s[k].name() == ts[i].name();
                let k2 = if k < p { k } else { k + 1 };
                assert(new_s[k2] == old_s[k]);
                assert(new_s[k2].name() == all[i].name());
            } else {
                assert(new_s[p] == t);
                assert(new_s[p].name() == all[i].name());
            }
        }
        assert forall|k: int| 0 <= k < new_s.len() implies first_of_its_name(
            all,
            #[trigger] new_s[k],
        ) by {
            if k == p {
                assert(new_s[k] == t);
                let i = ts.len() as int;
                assert forall|j: int| 0 <= j < i implies #[trigger] all[j].name()
                    != t.name() by {
                    assert(all[j] == ts[j]);
                    assert(has_name(old_s, ts[j].name()));
                }
                assert(first_named(all, t.name(), i) && all[i] == t);
            } else {
                let k0 = if k < p { k } else { k - 1 };
                assert(new_s[k] == old_s[k0]);
                let i = choose|i: int| first_named(ts, old_s[k0].name(), i) && ts[i] == old_s[k0];
                assert(all[i] == ts[i]);
                assert forall|j: int| 0 <= j < i implies #[trigger] all[j].name()
                    != old_s[k0].name() by {
                    assert(all[j] == ts[j]);
                }
                assert(first_named(all, new_s[k].name(), i) && all[i] == new_s[k]);
            }
        }
    }
}

/// A catalog of templates.
#[derive(Debug)]
pub struct TemplateIndex {
    for_remote: bool,
    templates: Vec<Template>,
}

/// The views of a run of templates.
pub open spec fn templates_view(s: Seq<Template>) -> Seq<TemplateView> {
    s.map_values(|t: Template| t@)
}

/// A bucket grows by the last template exactly when that template is of
/// the bucket's kind.
proof fn lemma_bucket_push(s: Seq<TemplateView>, t: TemplateView, term: Seq<char>, kind: MatchKind)
    ensures
        bucket(s.push(t), term, kind) == if t.match_kind(term) == kind {
            bucket(s, term, kind).push(t)
        } else {
            bucket(s, term, kind)
        },
{
    reveal(Seq::filter);
    assert(s.push(t).drop_last() =~= s);
}

/// In a catalog in the order of its names, a name belongs to one
/// template at most: two positions with the same name are one position.
pub proof fn lemma_name_unique(s: Seq<TemplateView>, i: int, j: int)
    requires
        sorted_by_name(s),
        0 <= i < s.len(),
        0 <= j < s.len(),
        s[i].name() == s[j].name(),
    ensures
        i == j,
{
    lemma_precedes_irreflexive(s[i].name());
    if i < j {
        assert(precedes(s[i].name(), s[j].name()));
    } else if j < i {
        assert(precedes(s[j].name(), s[i].name()));
    }
}

/// A search puts every template of the catalog in exactly one place: the
/// bucket of its kind, or none where the term is part of neither its name
/// nor its description. It is in the first bucket exactly when the term is
/// part of its name and it has a description that the term is part of.
pub proof fn lemma_find_partition(s: Seq<TemplateView>, term: Seq<char>, i: int)
    requires
        0 <= i < s.len(),
    ensures
        find_in(s, term).name_and_description.contains(s[i]) <==> s[i].match_kind(term)
            == MatchKind::NameAndDescription,
        find_in(s, term).name_only.contains(s[i]) <==> s[i].match_kind(term)
            == MatchKind::NameOnly,
        find_in(s, term).description_only.contains(s[i]) <==> s[i].match_kind(term)
            == MatchKind::DescriptionOnly,
        s[i].match_kind(term) == MatchKind::NameAndDescription <==> is_substring(
            term,
            s[i].name(),
        ) && match s[i].description() {
            Some(d) => is_substring(term, d),
            None => false,
        },
{
    lemma_bucket_contains(s, term, MatchKind::NameAndDescription, s[i]);
    lemma_bucket_contains(s, term, MatchKind::NameOnly, s[i]);
    lemma_bucket_contains(s, term, MatchKind::DescriptionOnly, s[i]);
}

/// A bucket holds the templates of the catalog that are of its kind, and
/// no others.
pub proof fn lemma_bucket_contains(
    s: Seq<TemplateView>,
    term: Seq<char>,
    kind: MatchKind,
    t: TemplateView,
)
    ensures
        bucket(s, term, kind).contains(t) <==> s.contains(t) && t.match_kind(term) == kind,
{
    let pred = |x: TemplateView| x.match_kind(term) == kind;
    if bucket(s, term, kind).contains(t) {
        let k = choose|k: int| 0 <= k < s.filter(pred).len() && s.filter(pred)[k] == t;
        s.lemma_filter_pred(pred, k);
        s.lemma_filter_contains_rev(pred, t);
    }
    if s.contains(t) && t.match_kind(term) == kind {
        let k = choose|k: int| 0 <= k < s.len() && s[k] == t;
        s.lemma_filter_contains(pred, k);
    }
}

/// Within a bucket the templates are in the order of their names, as
/// they are in the catalog.
pub proof fn lemma_bucket_sorted(s: Seq<TemplateView>, term: Seq<char>, kind: MatchKind)
    requires
        sorted_by_name(s),
    ensures
        sorted_by_name(bucket(s, term, kind)),
    decreases s.len(),
{
    if s.len() == 0 {
        reveal(Seq::filter);
    } else {
        let init = s.drop_last();
        let last = s.last();
        assert forall|i: int, j: int| 0 <= i < j < init.len() implies precedes(
            init[i].name(),
            init[j].name(),
        ) by {
            assert(precedes(s[i].name(), s[j].name()));
        }
        lemma_bucket_sorted(init, term, kind);
        assert(s =~= init.push(last));
        lemma_bucket_push(init, last, term, kind);
        let b = bucket(init, term, kind);
        if last.match_kind(term) == kind {
            let all = bucket(s, term, kind);
            assert forall|i: int, j: int| 0 <= i < j < all.len() implies precedes(
                all[i].name(),
                all[j].name(),
            ) by {
                if j < b.len() {
                    assert(precedes(b[i].name(), b[j].name()));
                } else {
                    assert(b.contains(b[i]));
                    lemma_bucket_contains(init, term, kind, b[i]);
                    let k = choose|k: int| 0 <= k < init.len() && init[k] == b[i];
                    assert(precedes(s[k].name(), s[s.len() - 1].name()));
                }
            }
        }
    }
}

impl View for TemplateIndex {
    type V = Seq<TemplateView>;

    closed spec fn view(&self) -> Seq<TemplateView> {
        templates_view(self.templates@)
    }
}

impl Clone for TemplateIndex {
    fn clone(&self) -> (r: Self)
        ensures
            r@ == self@,
            r.is_for_remote() == self.is_for_remote(),
    {
        let mut templates: Vec<Template> = Vec::new();
        let mut i: usize = 0;
        while i < self.templates.len()
            invariant
                i <= self.templates.len(),
                templates_view(templates@) == templates_view(self.templates@).take(i as int),
            decreases self.templates.len() - i,
        {
            let ghost before = templates@;
            let t = self.templates[i].clone();
            templates.push(t);
            proof {
                assert(templates_view(templates@) =~= templates_view(before).push(t@));
                assert(templates_view(self.templates@).take(i + 1) =~= templates_view(
                    self.templates@,
                ).take(i as int).push(self.templates@[i as int]@));
            }
            i += 1;
        }
        proof {
            assert(templates_view(self.templates@).take(i as int) =~= templates_view(
                self.templates@,
            ));
        }
        TemplateIndex { for_remote: self.for_remote, templates }
    }
}

impl TemplateIndex {
    /// What every catalog keeps: its templates are in the order of
    /// their names.
    pub open spec fn wf(&self) -> bool {
        sorted_by_name(self@)
    }

    /// Whether the catalog is meant to be used from a repository; such a
    /// catalog takes no local templates.
    pub closed spec fn is_for_remote(&self) -> bool {
        self.for_remote
    }

    /// An empty catalog.
    pub fn new(for_remote: bool) -> (r: Self)
        ensures
            r.wf(),
            r@ == Seq::<TemplateView>::empty(),
            r.is_for_remote() == for_remote,
    {
        let r = TemplateIndex { for_remote, templates: Vec::new() };
        assert(r@ =~= Seq::<TemplateView>::empty());
        r
    }

    /// The catalog of the templates given: they are put in the order of
    /// their names, and of several with one name the first is kept.
    pub fn from_templates(for_remote: bool, templates: Vec<Template>) -> (r: Self)
        ensures
            r.wf(),
            r.is_for_remote() == for_remote,
            collects(templates_view(templates@), r@),
    {
        let mut index = TemplateIndex::new(for_remote);
        let ghost all = templates_view(templates@);
        for t in it: templates.into_iter()
            invariant
                it.seq() == templates@,
                all == templates_view(templates@),
                index.wf(),
                index.is_for_remote() == for_remote,
                collects(all.take(it.index() as int), index@),
        {
            let ghost before = index@;
            let ghost done = all.take(it.index() as int);
            let ghost added = t@;
            let _ = index.insert(t);
            proof {
                lemma_collects_step(done, added, before, index@);
                assert(all.take(it.index() + 1) =~= done.push(added));
            }
        }
        proof {
            assert(all.take(all.len() as int) =~= all);
        }
        index
    }

    /// Whether the catalog is meant to be used from a repository.
    pub fn for_remote(&self) -> (r: bool)
        ensures
            r == self.is_for_remote(),
    {
        self.for_remote
    }

    /// Marks the catalog as meant, or not meant, to be used from a repository.
    pub fn set_for_remote(&mut self, for_remote: bool)
        ensures
            final(self)@ == old(self)@,
            final(self).is_for_remote() == for_remote,
    {
        self.for_remote = for_remote;
    }

    /// The templates, in the order of their names.
    pub fn templates(&self) -> (r: &Vec<Template>)
        ensures
            templates_view(r@) == self@,
    {
        &self.templates
    }

    /// The number of templates.
    pub fn len(&self) -> (r: usize)
        ensures
            r == self@.len(),
    {
        self.templates.len()
    }

    /// Sorts the templates into three buckets by where `term` occurs:
    /// in name and description, in the name only, in the description only.
    /// A template in which it occurs nowhere is left out. Within a bucket
    /// the templates keep the order of the catalog.
    pub fn find<'a>(&'a self, term: &str) -> (r: FindResult<'a>)
        ensures
            r@ == find_in(self@, term@),
    {
        let needle = chars_of(term);
        let mut both: Vec<&'a Template> = Vec::new();
        let mut name_only: Vec<&'a Template> = Vec::new();
        let mut description_only: Vec<&'a Template> = Vec::new();
        let mut i: usize = 0;
        proof {
            reveal(Seq::filter);
            assert(self@.take(0) =~= Seq::<TemplateView>::empty());
        }
        while i < self.templates.len()
            invariant
                i <= self.templates.len(),
                needle@ == term@,
                self@ == templates_view(self.templates@),
                hits_view(both@) == bucket(
                    self@.take(i as int),
                    term@,
                    MatchKind::NameAndDescription,
                ),
                hits_view(name_only@) == bucket(self@.take(i as int), term@, MatchKind::NameOnly),
                hits_view(description_only@) == bucket(
                    self@.take(i as int),
                    term@,
                    MatchKind::DescriptionOnly,
                ),
            decreases self.templates.len() - i,
        {
            let t = &self.templates[i];
            let name = chars_of(t.name());
            let in_name = contains_chars(&name, &needle);
            let in_description = match t.description() {
                Some(d) => {
                    let text = chars_of(d.as_str());
                    contains_chars(&text, &needle)
                },
                None => false,
            };
            proof {
                let s = self@.take(i as int);
                assert(self@.take(i + 1) =~= s.push(t@));
                lemma_bucket_push(s, t@, term@, MatchKind::NameAndDescription);
                lemma_bucket_push(s, t@, term@, MatchKind::NameOnly);
                lemma_bucket_push(s, t@, term@, MatchKind::DescriptionOnly);
                assert(in_name == t@.name_has(term@));
                assert(in_description == t@.description_has(term@));
            }
            if in_name && in_description {
                both.push(t);
                assert(hits_view(both@) =~= hits_view(both@.drop_last()).push(t@));
            } else if in_name {
                name_only.push(t);
                assert(hits_view(name_only@) =~= hits_view(name_only@.drop_last()).push(t@));
            } else if in_description {
                description_only.push(t);
                assert(hits_view(description_only@) =~= hits_view(
                    description_only@.drop_last(),
                ).push(t@));
            }
            i += 1;
        }
        proof {
            assert(self@.take(i as int) =~= self@);
        }
        FindResult { name_and_description: both, name_only, description_only }
    }

    /// The template whose name is exactly `name`, if there is one. A name
    /// of which `name` is only a part does not count.
    pub fn find_exact<'a>(&'a self, name: &str) -> (r: Option<&'a Template>)
        ensures
            match r {
                Some(t) => exists|i: int| first_named(self@, name@, i) && self@[i] == t@,
                None => !has_name(self@, name@),
            },
            match r {
                Some(t) => find_exact_in(self@, name@) == Some(t@),
                None => find_exact_in(self@, name@) is None,
            },
    {
        let mut i: usize = 0;
        while i < self.templates.len()
            invariant
                i <= self.templates.len(),
                self@ == templates_view(self.templates@),
                forall|j: int| 0 <= j < i ==> #[trigger] self@[j].name() != name@,
            decreases self.templates.len() - i,
        {
            let t = &self.templates[i];
            if str_eq(t.name(), name) {
                proof {
                    assert(first_named(self@, name@, i as int) && self@[i as int] == t@);
                    let k = choose|k: int| first_named(self@, name@, k);
                    lemma_first_named_unique(self@, name@, i as int, k);
                }
                return Some(t);
            }
            i += 1;
        }
        None
    }

    /// Puts `t` into the catalog at the place that its name gives it. Where
    /// a template of that name is there already, that one stays as it is,
    /// `t` is dropped, and the result is `false`.
    pub fn insert(&mut self, t: Template) -> (r: bool)
        requires
            old(self).wf(),
        ensures
            r == !has_name(old(self)@, t@.name()),
            r ==> exists|p: int| 0 <= p <= old(self)@.len() && final(self)@ == old(self)@.insert(p, t@),
            !r ==> final(self)@ == old(self)@,
            final(self).wf(),
            final(self).is_for_remote() == old(self).is_for_remote(),
    {
        let mut p: usize = 0;
        while p < self.templates.len() && str_precedes(self.templates[p].name(), t.name())
            invariant
                p <= self.templates.len(),
                *self == *old(self),
                forall|j: int| 0 <= j < p ==> precedes(#[trigger] self@[j].name(), t@.name()),
            decreases self.templates.len() - p,
        {
            p += 1;
        }
        let ghost before = self@;
        if p < self.templates.len() && str_eq(self.templates[p].name(), t.name()) {
            assert(before[p as int].name() == t@.name());
            return false;
        }
        proof {
            assert forall|j: int| p <= j < before.len() implies precedes(
                t@.name(),
                #[trigger] before[j].name(),
            ) by {
                lemma_precedes_total(t@.name(), before[p as int].name());
                if j > p {
                    assert(precedes(before[p as int].name(), before[j].name()));
                    lemma_precedes_transitive(t@.name(), before[p as int].name(), before[j].name());
                }
            }
            assert forall|j: int| 0 <= j < before.len() implies #[trigger] before[j].name()
                != t@.name() by {
                lemma_precedes_irreflexive(t@.name());
            }
        }
        let ghost added = t@;
        self.templates.insert(p, t);
        proof {
            assert(self@ =~= before.insert(p as int, added));
            assert forall|i: int, j: int| 0 <= i < j < self@.len() implies precedes(
                self@[i].name(),
                self@[j].name(),
            ) by {
                let a = if i < p { i } else { i - 1 };
                let b = if j < p { j } else { j - 1 };
                if i != p && j != p {
                    assert(precedes(before[a].name(), before[b].name()));
                } else if i == p {
                    assert(precedes(added.name(), before[b].name()));
                } else {
                    assert(precedes(before[a].name(), added.name()));
                }
            }
        }
        true
    }

    /// Takes the template named `name` out of the catalog. The result says
    /// whether there was one.
    pub fn remove(&mut self, name: &str) -> (r: bool)
        requires
            old(self).wf(),
        ensures
            r == has_name(old(self)@, name@),
            r ==> exists|p: int|
                first_named(old(self)@, name@, p) && final(self)@ == old(self)@.remove(p),
            !r ==> final(self)@ == old(self)@,
            final(self).wf(),
            final(self).is_for_remote() == old(self).is_for_remote(),
    {
        let mut p: usize = 0;
        while p < self.templates.len() && !str_eq(self.templates[p].name(), name)
            invariant
                p <= self.templates.len(),
                *self == *old(self),
                forall|j: int| 0 <= j < p ==> #[trigger] self@[j].name() != name@,
            decreases self.templates.len() - p,
        {
            p += 1;
        }
        if p == self.templates.len() {
            return false;
        }
        let ghost before = self@;
        assert(first_named(before, name@, p as int));
        let _ = self.templates.remove(p);
        proof {
            assert(self@ =~= before.remove(p as int));
            assert forall|i: int, j: int| 0 <= i < j < self@.len() implies precedes(
                self@[i].name(),
                self@[j].name(),
            ) by {
                let a = if i < p { i } else { i + 1 };
                let b = if j < p { j } else { j + 1 };
                assert(precedes(before[a].name(), before[b].name()));
            }
        }
        true
    }

    /// Adds a template under the rules for writing a catalog: its name is
    /// made of allowed characters and is not in use, and a catalog that is
    /// meant for a repository takes no local directory. Where a rule
    /// refuses it, the catalog stays as it is.
    pub fn add(&mut self, t: Template) -> (r: Result<(), AddError>)
        requires
            old(self).wf(),
        ensures
            final(self).wf(),
            final(self).is_for_remote() == old(self).is_for_remote(),
            match r {
                Ok(_) => add_refusal(old(self)@, old(self).is_for_remote(), t@) is None
                    && exists|p: int|
                    0 <= p <= old(self)@.len() && final(self)@ == old(self)@.insert(p, t@),
                Err(e) => add_refusal(old(self)@, old(self).is_for_remote(), t@) == Some(
                    e.refusal(),
                ) && final(self)@ == old(self)@,
            },
            r matches Err(AddError::InvalidName(e)) ==> reports_first_invalid(e, t@.name()),
    {
        let is_local = match &t {
            Template::Local { .. } => true,
            Template::Repo { .. } => false,
        };
        if is_local {
            if self.for_remote {
                return Err(AddError::LocalInRemote);
            }
            if let Err(e) = check_template_name(t.name()) {
                assert(!valid_name(t@.name())) by {
                    lemma_invalid_at(e, t@.name());
                }
                return Err(AddError::InvalidName(e));
            }
            if self.find_exact(t.name()).is_some() {
                return Err(AddError::AlreadyExists);
            }
        } else {
            if self.find_exact(t.name()).is_some() {
                return Err(AddError::AlreadyExists);
            }
            if let Err(e) = check_template_name(t.name()) {
                assert(!valid_name(t@.name())) by {
                    lemma_invalid_at(e, t@.name());
                }
                return Err(AddError::InvalidName(e));
            }
        }
        let added = self.insert(t);
        assert(added);
        Ok(())
    }

    /// Removes the template named `name` under the rules for writing a
    /// catalog: the name is checked first, and a name that no template
    /// has is an error.
    pub fn remove_named(&mut self, name: &str) -> (r: Result<(), RemoveError>)
        requires
            old(self).wf(),
        ensures
            final(self).wf(),
            final(self).is_for_remote() == old(self).is_for_remote(),
            match r {
                Ok(_) => valid_name(name@) && exists|p: int|
                    first_named(old(self)@, name@, p) && final(self)@ == old(self)@.remove(p),
                Err(RemoveError::InvalidName(e)) => !valid_name(name@) && reports_first_invalid(
                    e,
                    name@,
                ) && final(self)@ == old(self)@,
                Err(RemoveError::NotFound) => valid_name(name@) && !has_name(old(self)@, name@)
                    && final(self)@ == old(self)@,
            },
    {
        if let Err(e) = check_template_name(name) {
            assert(!valid_name(name@)) by {
                lemma_invalid_at(e, name@);
            }
            return Err(RemoveError::InvalidName(e));
        }
        if self.remove(name) {
            Ok(())
        } else {
            Err(RemoveError::NotFound)
        }
    }
}

/// A name of which some character is reported as not allowed is not valid.
proof fn lemma_invalid_at(e: CheckTemplateNameError, name: Seq<char>)
    requires
        reports_first_invalid(e, name),
    ensures
        !valid_name(name),
{
    match e {
        CheckTemplateNameError::InvalidCharacter { c, index } => {
            assert(!valid_name_char(name[index as int]));
        },
    }
}

} // verus!
