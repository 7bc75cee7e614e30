//! What a search gives: three buckets of hits, for one catalog or, with
//! each hit labelled by its catalog, for several.

use vstd::prelude::*;
use crate::template::Template;
use crate::template::TemplateView;

verus! {

/// The hits of a search in one catalog. No template is in two buckets.
#[derive(Debug)]
pub struct FindResult<'a> {
    /// The term is part of the name and of the description.
    pub name_and_description: Vec<&'a Template>,
    /// The term is part of the name only.
    pub name_only: Vec<&'a Template>,
    /// The term is part of the description only.
    pub description_only: Vec<&'a Template>,
}

/// The hits of a search as plain values.
pub struct FindResultView {
    pub name_and_description: Seq<TemplateView>,
    pub name_only: Seq<TemplateView>,
    pub description_only: Seq<TemplateView>,
}

/// The hits of a search over several catalogs, each with the label of the
/// catalog it is from.
#[derive(Debug)]
pub struct FindResultComposite<'a> {
    pub name_and_description: Vec<(&'a str, &'a Template)>,
    pub name_only: Vec<(&'a str, &'a Template)>,
    pub description_only: Vec<(&'a str, &'a Template)>,
}

/// Labelled hits as plain values.
pub struct FindResultCompositeView {
    pub name_and_description: Seq<(Seq<char>, TemplateView)>,
    pub name_only: Seq<(Seq<char>, TemplateView)>,
    pub description_only: Seq<(Seq<char>, TemplateView)>,
}

/// The templates that a bucket refers to.
pub open spec fn hits_view(hits: Seq<&Template>) -> Seq<TemplateView> {
    hits.map_values(|t: &Template| t@)
}

/// The labels and templates that a labelled bucket refers to.
pub open spec fn labelled_view(hits: Seq<(&str, &Template)>) -> Seq<(Seq<char>, TemplateView)> {
    hits.map_values(|h: (&str, &Template)| (h.0@, h.1@))
}

/// A bucket with `label` put to each hit.
pub open spec fn with_label(hits: Seq<TemplateView>, label: Seq<char>) -> Seq<
    (Seq<char>, TemplateView),
> {
    hits.map_values(|t: TemplateView| (label, t))
}

impl<'a> View for FindResult<'a> {
    type V = FindResultView;

    open spec fn view(&self) -> FindResultView {
        FindResultView {
            name_and_description: hits_view(self.name_and_description@),
            name_only: hits_view(self.name_only@),
            description_only: hits_view(self.description_only@),
        }
    }
}

impl<'a> View for FindResultComposite<'a> {
    type V = FindResultCompositeView;

    open spec fn view(&self) -> FindResultCompositeView {
        FindResultCompositeView {
            name_and_description: labelled_view(self.name_and_description@),
            name_only: labelled_view(self.name_only@),
            description_only: labelled_view(self.description_only@),
        }
    }
}

/// A bucket with the same hits.
fn copy_hits<'a>(hits: &Vec<&'a Template>) -> (r: Vec<&'a Template>)
    ensures
        r@ == hits@,
{
    let mut r: Vec<&'a Template> = Vec::new();
    let mut i: usize = 0;
    while i < hits.len()
        invariant
            i <= hits.len(),
            r@ == hits@.take(i as int),
        decreases hits.len() - i,
    {
        r.push(hits[i]);
        assert(hits@.take(i + 1) =~= hits@.take(i as int).push(hits@[i as int]));
        i += 1;
    }
    assert(hits@.take(i as int) =~= hits@);
    r
}

/// A labelled bucket with the same hits.
fn copy_labelled<'a>(hits: &Vec<(&'a str, &'a Template)>) -> (r: Vec<(&'a str, &'a Template)>)
    ensures
        r@ == hits@,
{
    let mut r: Vec<(&'a str, &'a Template)> = Vec::new();
    let mut i: usize = 0;
    while i < hits.len()
        invariant
            i <= hits.len(),
            r@ == hits@.take(i as int),
        decreases hits.len() - i,
    {
        r.push(hits[i]);
        assert(hits@.take(i + 1) =~= hits@.take(i as int).push(hits@[i as int]));
        i += 1;
    }
    assert(hits@.take(i as int) =~= hits@);
    r
}

impl<'a> Clone for FindResult<'a> {
    fn clone(&self) -> (r: Self)
        ensures
            r@ == self@,
    {
        FindResult {
            name_and_description: copy_hits(&self.name_and_description),
            name_only: copy_hits(&self.name_only),
            description_only: copy_hits(&self.description_only),
        }
    }
}

impl<'a> Clone for FindResultComposite<'a> {
    fn clone(&self) -> (r: Self)
        ensures
            r@ == self@,
    {
        FindResultComposite {
            name_and_description: copy_labelled(&self.name_and_description),
            name_only: copy_labelled(&self.name_only),
            description_only: copy_labelled(&self.description_only),
        }
    }
}

impl FindResultView {
    /// The same hits, bucket by bucket and in the same order, each
    /// labelled `label`.
    pub open spec fn compose(self, label: Seq<char>) -> FindResultCompositeView {
        FindResultCompositeView {
            name_and_description: with_label(self.name_and_description, label),
            name_only: with_label(self.name_only, label),
            description_only: with_label(self.description_only, label),
        }
    }
}

impl FindResultCompositeView {
    /// Bucket by bucket, the hits of `self` followed by those of `other`.
    pub open spec fn merge(self, other: FindResultCompositeView) -> FindResultCompositeView {
        FindResultCompositeView {
            name_and_description: self.name_and_description + other.name_and_description,
            name_only: self.name_only + other.name_only,
            description_only: self.description_only + other.description_only,
        }
    }
}

/// After a merge each bucket holds the hits of the first result, as they
/// were, and behind them those of the second, as they were.
pub proof fn lemma_merge_order(a: FindResultCompositeView, b: FindResultCompositeView)
    ensures
        a.merge(b).name_and_description.take(a.name_and_description.len() as int)
            == a.name_and_description,
        a.merge(b).name_and_description.skip(a.name_and_description.len() as int)
            == b.name_and_description,
        a.merge(b).name_only.take(a.name_only.len() as int) == a.name_only,
        a.merge(b).name_only.skip(a.name_only.len() as int) == b.name_only,
        a.merge(b).description_only.take(a.description_only.len() as int) == a.description_only,
        a.merge(b).description_only.skip(a.description_only.len() as int) == b.description_only,
{
    let m = a.merge(b);
    assert(m.name_and_description.take(a.name_and_description.len() as int)
        =~= a.name_and_description);
    assert(m.name_and_description.skip(a.name_and_description.len() as int)
        =~= b.name_and_description);
    assert(m.name_only.take(a.name_only.len() as int) =~= a.name_only);
    assert(m.name_only.skip(a.name_only.len() as int) =~= b.name_only);
    assert(m.description_only.take(a.description_only.len() as int) =~= a.description_only);
    assert(m.description_only.skip(a.description_only.len() as int) =~= b.description_only);
}

/// Labelling keeps every bucket as long as it was and its hits in their
/// places, and puts the one label to each.
pub proof fn lemma_compose_labels(r: FindResultView, label: Seq<char>)
    ensures
        r.compose(label).name_and_description.len() == r.name_and_description.len(),
        r.compose(label).name_only.len() == r.name_only.len(),
        r.compose(label).description_only.len() == r.description_only.len(),
        forall|i: int|
            0 <= i < r.name_and_description.len() ==> #[trigger] r.compose(
                label,
            ).name_and_description[i] == (label, r.name_and_description[i]),
        forall|i: int|
            0 <= i < r.name_only.len() ==> #[trigger] r.compose(label).name_only[i] == (
                label,
                r.name_only[i],
            ),
        forall|i: int|
            0 <= i < r.description_only.len() ==> #[trigger] r.compose(label).description_only[i]
                == (label, r.description_only[i]),
{
}

/// Labels every hit of one bucket.
fn label_hits<'a>(hits: &Vec<&'a Template>, name: &'a str) -> (r: Vec<(&'a str, &'a Template)>)
    ensures
        labelled_view(r@) == with_label(hits_view(hits@), name@),
{
    let mut r: Vec<(&'a str, &'a Template)> = Vec::new();
    let mut i: usize = 0;
    while i < hits.len()
        invariant
            i <= hits.len(),
            labelled_view(r@) == with_label(hits_view(hits@.take(i as int)), name@),
        decreases hits.len() - i,
    {
        let ghost before = r@;
        r.push((name, hits[i]));
        proof {
            let hit = hits@[i as int];
            assert(hits@.take(i + 1) =~= hits@.take(i as int).push(hit));
            assert(labelled_view(r@) =~= labelled_view(before).push((name@, hit@)));
            assert(hits_view(hits@.take(i + 1)) =~= hits_view(hits@.take(i as int)).push(hit@));
            assert(with_label(hits_view(hits@.take(i + 1)), name@) =~= with_label(
                hits_view(hits@.take(i as int)),
                name@,
            ).push((name@, hit@)));
        }
        i += 1;
    }
    proof {
        assert(hits@.take(i as int) =~= hits@);
    }
    r
}

/// Moves the hits of `src` behind those of `dst`.
fn append_hits<'a>(dst: &mut Vec<(&'a str, &'a Template)>, src: Vec<(&'a str, &'a Template)>)
    ensures
        labelled_view(final(dst)@) == labelled_view(old(dst)@) + labelled_view(src@),
{
    let mut src = src;
    let ghost moved = src@;
    dst.append(&mut src);
    proof {
        assert(labelled_view(dst@) =~= labelled_view(old(dst)@) + labelled_view(moved));
    }
}

impl<'a> FindResult<'a> {
    /// Labels every hit with the name of the catalog that it is from.
    pub fn compose(&self, name: &'a str) -> (r: FindResultComposite<'a>)
        ensures
            r@ == self@.compose(name@),
    {
        FindResultComposite {
            name_and_description: label_hits(&self.name_and_description, name),
            name_only: label_hits(&self.name_only, name),
            description_only: label_hits(&self.description_only, name),
        }
    }
}

impl<'a> FindResultComposite<'a> {
    /// Adds the hits of `other` behind those that are there, bucket by bucket.
    pub fn merge_ref(&mut self, other: FindResultComposite<'a>)
        ensures
            final(self)@ == old(self)@.merge(other@),
    {
        append_hits(&mut self.name_and_description, other.name_and_description);
        append_hits(&mut self.name_only, other.name_only);
        append_hits(&mut self.description_only, other.description_only);
    }

    /// The hits of `self` followed by those of `other`, bucket by bucket.
    pub fn merge(self, other: Self) -> (r: Self)
        ensures
            r@ == self@.merge(other@),
    {
        let mut r = self;
        r.merge_ref(other);
        r
    }
}

} // verus!
