//! A plain model of markup: a tree of elements, text nodes and empty
//! fragments, together with deep equality and deep cloning, both verified
//! against the mathematical view of the tree.

use vstd::prelude::*;

verus! {

/// Mathematical model of a markup fragment: nothing at all, a text node, or
/// an element with a tag, an id, a class list and child fragments.
#[verifier::ext_equal]
pub enum MarkupView {
    Empty,
    Text(Seq<char>),
    Element { tag: Seq<char>, id: Seq<char>, classes: Seq<Seq<char>>, children: Seq<MarkupView> },
}

/// A markup fragment: nothing at all, a text node, or an element node.
pub enum Markup {
    Empty,
    Text(String),
    Element(Element),
}

/// An element node: a tag such as `div` or `ul`, an id, a class list, and
/// the child fragments in document order.
pub struct Element {
    pub tag: String,
    pub id: String,
    pub classes: Vec<String>,
    pub children: Vec<Markup>,
}

/// The views of a class list, element by element.
pub open spec fn class_views(cs: Seq<String>) -> Seq<Seq<char>> {
    cs.map_values(|c: String| c@)
}

/// The view of a markup fragment.
pub open spec fn markup_view(m: Markup) -> MarkupView
    decreases m,
{
    match m {
        Markup::Empty => MarkupView::Empty,
        Markup::Text(s) => MarkupView::Text(s@),
        Markup::Element(e) => MarkupView::Element {
            tag: e.tag@,
            id: e.id@,
            classes: class_views(e.classes@),
            children: markup_views(e.children@),
        },
    }
}

/// The views of a sequence of markup fragments, element by element.
pub open spec fn markup_views(ms: Seq<Markup>) -> Seq<MarkupView>
    decreases ms,
{
    if ms.len() == 0 {
        Seq::empty()
    } else {
        seq![markup_view(ms[0])] + markup_views(ms.subrange(1, ms.len() as int))
    }
}

impl View for Markup {
    type V = MarkupView;

    open spec fn view(&self) -> MarkupView {
        markup_view(*self)
    }
}

/// `markup_views` maps `markup_view` over the sequence: the lengths agree and
/// so does every element.
pub proof fn lemma_markup_views_index(ms: Seq<Markup>)
    ensures
        markup_views(ms).len() == ms.len(),
        forall|i: int| 0 <= i < ms.len() ==> markup_views(ms)[i] == markup_view(ms[i]),
    decreases ms,
{
    if ms.len() != 0 {
        let rest = ms.subrange(1, ms.len() as int);
        lemma_markup_views_index(rest);
        assert forall|i: int| 0 <= i < ms.len() implies markup_views(ms)[i] == markup_view(ms[i]) by {
            if i > 0 {
                assert(rest[i - 1] == ms[i]);
            }
        }
    }
}

/// Decides whether two class lists read the same.
fn classes_eq(xs: &Vec<String>, ys: &Vec<String>) -> (r: bool)
    ensures
        r == (class_views(xs@) == class_views(ys@)),
{
    if xs.len() != ys.len() {
        proof {
            assert(class_views(xs@).len() == xs@.len());
            assert(class_views(ys@).len() == ys@.len());
        }
        return false;
    }
    let mut i: usize = 0;
    while i < xs.len()
        invariant
            0 <= i <= xs.len(),
            xs.len() == ys.len(),
            forall|j: int| 0 <= j < i ==> xs@[j]@ == ys@[j]@,
        decreases xs.len() - i,
    {
        if !(xs[i] == ys[i]) {
            proof {
                assert(class_views(xs@)[i as int] == xs@[i as int]@);
                assert(class_views(ys@)[i as int] == ys@[i as int]@);
            }
            return false;
        }
        i += 1;
    }
    proof {
        assert(class_views(xs@) =~= class_views(ys@));
    }
    true
}

/// Decides whether two markup fragments are the same tree, model for model.
pub fn markup_eq(a: &Markup, b: &Markup) -> (r: bool)
    ensures
        r == (a@ == b@),
    decreases *a,
{
    match (a, b) {
        (Markup::Empty, Markup::Empty) => true,
        (Markup::Text(s), Markup::Text(t)) => {
            let r = *s == *t;
            proof {
                assert(a@ == MarkupView::Text(s@));
                assert(b@ == MarkupView::Text(t@));
            }
            r
        },
        (Markup::Element(x), Markup::Element(y)) => {
            if !(x.tag == y.tag) {
                return false;
            }
            if !(x.id == y.id) {
                return false;
            }
            if !classes_eq(&x.classes, &y.classes) {
                return false;
            }
            markups_eq(&x.children, &y.children)
        },
        _ => false,
    }
}

/// Decides whether two sequences of markup fragments agree element by
/// element, model for model.
pub fn markups_eq(xs: &Vec<Markup>, ys: &Vec<Markup>) -> (r: bool)
    ensures
        r == (markup_views(xs@) == markup_views(ys@)),
    decreases *xs,
{
    proof {
        lemma_markup_views_index(xs@);
        lemma_markup_views_index(ys@);
    }
    if xs.len() != ys.len() {
        return false;
    }
    let mut i: usize = 0;
    while i < xs.len()
        invariant
            0 <= i <= xs.len(),
            xs.len() == ys.len(),
            forall|j: int| 0 <= j < i ==> markup_view(xs@[j]) == markup_view(ys@[j]),
        decreases xs.len() - i,
    {
        proof {
            assert(decreases_to!(*xs => xs@[i as int]));
        }
        if !markup_eq(&xs[i], &ys[i]) {
            proof {
                lemma_markup_views_index(xs@);
                lemma_markup_views_index(ys@);
                assert(markup_views(xs@)[i as int] != markup_views(ys@)[i as int]);
            }
            return false;
        }
        i += 1;
    }
    proof {
        lemma_markup_views_index(xs@);
        lemma_markup_views_index(ys@);
        assert(markup_views(xs@) =~= markup_views(ys@));
    }
    true
}

/// Deep copy of a class list.
fn classes_clone(xs: &Vec<String>) -> (r: Vec<String>)
    ensures
        r@ == xs@,
{
    let mut out: Vec<String> = Vec::new();
    let mut i: usize = 0;
    while i < xs.len()
        invariant
            0 <= i <= xs.len(),
            out@.len() == i,
            forall|j: int| 0 <= j < i ==> out@[j] == xs@[j],
        decreases xs.len() - i,
    {
        out.push(xs[i].clone());
        i += 1;
    }
    proof {
        assert(out@ =~= xs@);
    }
    out
}

/// Deep copy of a markup fragment: the copy has the same view.
pub fn markup_clone(m: &Markup) -> (r: Markup)
    ensures
        r@ == m@,
    decreases *m,
{
    match m {
        Markup::Empty => Markup::Empty,
        Markup::Text(s) => Markup::Text(s.clone()),
        Markup::Element(e) => Markup::Element(Element {
            tag: e.tag.clone(),
            id: e.id.clone(),
            classes: classes_clone(&e.classes),
            children: markups_clone(&e.children),
        }),
    }
}

/// Deep copy of a sequence of markup fragments: the views agree element by
/// element.
pub fn markups_clone(xs: &Vec<Markup>) -> (r: Vec<Markup>)
    ensures
        r@.len() == xs@.len(),
        markup_views(r@) == markup_views(xs@),
    decreases *xs,
{
    let mut out: Vec<Markup> = Vec::new();
    let mut i: usize = 0;
    while i < xs.len()
        invariant
            0 <= i <= xs.len(),
            out@.len() == i,
            forall|j: int| 0 <= j < i ==> markup_view(out@[j]) == markup_view(xs@[j]),
        decreases xs.len() - i,
    {
        proof {
            assert(decreases_to!(*xs => xs@[i as int]));
        }
        let c = markup_clone(&xs[i]);
        out.push(c);
        i += 1;
    }
    proof {
        lemma_markup_views_index(out@);
        lemma_markup_views_index(xs@);
        assert(markup_views(out@) =~= markup_views(xs@));
    }
    out
}

impl Clone for Markup {
    /// The clone reads the same, model for model.
    fn clone(&self) -> (r: Markup)
        ensures
            r@ == self@,
    {
        markup_clone(self)
    }
}

} // verus!
