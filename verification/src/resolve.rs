//! From a name to a template, over the catalog on this machine and the
//! remote catalogs: which catalog a scope names, the search over all of
//! them, and the lookup of one template.

use vstd::prelude::*;
use vstd::string::StringExecFns;
use crate::find_result::FindResultComposite;
use crate::find_result::FindResultCompositeView;
use crate::index::find_exact_in;
use crate::index::find_in;
use crate::index::TemplateIndex;
use crate::template::Template;
use crate::template::TemplateView;
use crate::text::str_eq;

verus! {

/// The catalog that a scope names.
#[derive(Debug, PartialEq, Eq)]
pub enum IndexName {
    /// The catalog on this machine.
    Local,
    /// The remote catalog of this name.
    Remote(String),
}

/// A scope as plain values.
pub enum IndexNameView {
    Local,
    Remote(Seq<char>),
}

impl View for IndexName {
    type V = IndexNameView;

    open spec fn view(&self) -> IndexNameView {
        match *self {
            IndexName::Local => IndexNameView::Local,
            IndexName::Remote(name) => IndexNameView::Remote(name@),
        }
    }
}

/// What a scope written as `s` names: the word `local` names the catalog
/// on this machine, anything else a remote catalog.
pub open spec fn index_name_of(s: Seq<char>) -> IndexNameView {
    if s == "local"@ {
        IndexNameView::Local
    } else {
        IndexNameView::Remote(s)
    }
}

impl IndexName {
    /// Reads a scope.
    pub fn from(s: &str) -> (r: IndexName)
        ensures
            r@ == index_name_of(s@),
    {
        if str_eq(s, "local") {
            IndexName::Local
        } else {
            IndexName::Remote(String::from_str(s))
        }
    }
}

/// The label of the catalog on this machine in the results of a search.
pub open spec fn local_label() -> Seq<char> {
    "<local>"@
}

/// The view of an optional reference to a template.
pub open spec fn found_view(t: Option<&Template>) -> Option<TemplateView> {
    match t {
        Some(t) => Some(t@),
        None => None,
    }
}

/// The views of a run of catalogs.
pub open spec fn catalogs_view(s: Seq<TemplateIndex>) -> Seq<Seq<TemplateView>> {
    s.map_values(|c: TemplateIndex| c@)
}

/// The views of a run of catalogs with their labels.
pub open spec fn labelled_catalogs_view(s: Seq<(&str, TemplateIndex)>) -> Seq<
    (Seq<char>, Seq<TemplateView>),
> {
    s.map_values(|c: (&str, TemplateIndex)| (c.0@, c.1@))
}

/// The template named `name` in the first of `catalogs` that has one.
pub open spec fn find_template_in(catalogs: Seq<Seq<TemplateView>>, name: Seq<char>) -> Option<
    TemplateView,
>
    decreases catalogs.len(),
{
    if catalogs.len() == 0 {
        None
    } else {
        match find_exact_in(catalogs[0], name) {
            Some(t) => Some(t),
            None => find_template_in(catalogs.drop_first(), name),
        }
    }
}

/// The template that `name` resolves to. With a scope, only the catalog
/// of the scope is asked. Without one, the catalog on this machine is
/// asked first and then the remote catalogs in their order.
pub open spec fn resolve_in(
    scope: Option<Seq<TemplateView>>,
    local: Seq<TemplateView>,
    remotes: Seq<Seq<TemplateView>>,
    name: Seq<char>,
) -> Option<TemplateView> {
    match scope {
        Some(catalog) => find_exact_in(catalog, name),
        None => match find_exact_in(local, name) {
            Some(t) => Some(t),
            None => find_template_in(remotes, name),
        },
    }
}

/// What a search for `term` over all catalogs gives: the hits of the
/// catalog on this machine under its label, and behind them, bucket by
/// bucket, the hits of each remote catalog under its name, in the order
/// of `remotes`.
pub open spec fn search_in(
    local: Seq<TemplateView>,
    remotes: Seq<(Seq<char>, Seq<TemplateView>)>,
    term: Seq<char>,
) -> FindResultCompositeView
    decreases remotes.len(),
{
    if remotes.len() == 0 {
        find_in(local, term).compose(local_label())
    } else {
        search_in(local, remotes.drop_last(), term).merge(
            find_in(remotes.last().1, term).compose(remotes.last().0),
        )
    }
}

/// Looks `name` up in each catalog in turn and gives the first template found.
pub fn find_template<'a>(indexes: &'a [TemplateIndex], name: &str) -> (r: Option<&'a Template>)
    ensures
        found_view(r) == find_template_in(catalogs_view(indexes@), name@),
{
    let mut i: usize = 0;
    proof {
        assert(catalogs_view(indexes@).skip(0) =~= catalogs_view(indexes@));
    }
    while i < indexes.len()
        invariant
            i <= indexes.len(),
            find_template_in(catalogs_view(indexes@), name@) == find_template_in(
                catalogs_view(indexes@).skip(i as int),
                name@,
            ),
        decreases indexes.len() - i,
    {
        let found = indexes[i].find_exact(name);
        proof {
            let rest = catalogs_view(indexes@).skip(i as int);
            assert(rest[0] == indexes@[i as int]@);
            assert(rest.drop_first() =~= catalogs_view(indexes@).skip(i + 1));
        }
        if found.is_some() {
            return found;
        }
        i += 1;
    }
    None
}

/// Resolves `name` to a template: in the catalog of `scope` alone where
/// there is one, else in `local` and then in `remotes`.
pub fn resolve<'a>(
    scope: Option<&'a TemplateIndex>,
    local: &'a TemplateIndex,
    remotes: &'a [TemplateIndex],
    name: &str,
) -> (r: Option<&'a Template>)
    ensures
        found_view(r) == resolve_in(
            match scope {
                Some(c) => Some(c@),
                None => None,
            },
            local@,
            catalogs_view(remotes@),
            name@,
        ),
{
    match scope {
        Some(catalog) => catalog.find_exact(name),
        None => {
            let found = local.find_exact(name);
            if found.is_some() {
                found
            } else {
                find_template(remotes, name)
            }
        },
    }
}

/// Searches all catalogs for `term`: first the one on this machine, then
/// the remote ones in their order, each hit labelled with its catalog.
pub fn search_all<'a>(
    local: &'a TemplateIndex,
    remotes: &'a Vec<(&'a str, TemplateIndex)>,
    term: &str,
) -> (r: FindResultComposite<'a>)
    ensures
        r@ == search_in(local@, labelled_catalogs_view(remotes@), term@),
{
    let first = local.find(term);
    let mut result = first.compose("<local>");
    let mut i: usize = 0;
    proof {
        assert(labelled_catalogs_view(remotes@).take(0) =~= Seq::empty());
    }
    while i < remotes.len()
        invariant
            i <= remotes.len(),
            result@ == search_in(local@, labelled_catalogs_view(remotes@).take(i as int), term@),
        decreases remotes.len() - i,
    {
        let found = remotes[i].1.find(term);
        let composed = found.compose(remotes[i].0);
        result.merge_ref(composed);
        proof {
            let all = labelled_catalogs_view(remotes@);
            assert(all.take(i + 1).drop_last() =~= all.take(i as int));
            assert(all.take(i + 1).last() == (remotes@[i as int].0@, remotes@[i as int].1@));
        }
        i += 1;
    }
    proof {
        assert(labelled_catalogs_view(remotes@).take(i as int) =~= labelled_catalogs_view(
            remotes@,
        ));
    }
    result
}

} // verus!
