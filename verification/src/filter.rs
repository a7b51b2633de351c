//! Structural match criteria over a page.

use crate::page::{chars_of, Page, PageView};
use vstd::prelude::*;

verus! {

/// Optional equality constraints on a page. A field that is `None` asks for
/// nothing.
pub struct BasicFilter {
    pub namespace: Option<String>,
    pub title: Option<String>,
    pub has_redirect: Option<bool>,
}

/// Model of a [`BasicFilter`].
pub ghost struct FilterView {
    pub namespace: Option<Seq<char>>,
    pub title: Option<Seq<char>>,
    pub has_redirect: Option<bool>,
}

impl View for BasicFilter {
    type V = FilterView;

    open spec fn view(&self) -> FilterView {
        FilterView {
            namespace: chars_of(self.namespace),
            title: chars_of(self.title),
            has_redirect: self.has_redirect,
        }
    }
}

impl FilterView {
    /// No field asks for anything.
    pub open spec fn is_unset(self) -> bool {
        self.namespace is None && self.title is None && self.has_redirect is None
    }

    /// The namespace check: an unset namespace passes every page; a set one
    /// passes the pages that have that very namespace. A page without a
    /// namespace does not pass a set one.
    pub open spec fn namespace_ok(self, p: PageView) -> bool {
        self.namespace is Some ==> p.namespace == self.namespace
    }

    /// The title check: as the namespace check, over the title.
    pub open spec fn title_ok(self, p: PageView) -> bool {
        self.title is Some ==> p.title == self.title
    }

    /// The redirect check: an unset flag passes every page; a set flag passes
    /// the pages whose redirect is present exactly when the flag says so.
    pub open spec fn redirect_ok(self, p: PageView) -> bool {
        self.has_redirect matches Some(flag) ==> p.has_redirect() == flag
    }

    /// The page passes all three checks.
    pub open spec fn matches(self, p: PageView) -> bool {
        self.namespace_ok(p) && self.title_ok(p) && self.redirect_ok(p)
    }
}

/// The pages of `all` that pass the filter, in the order they have in `all`.
pub open spec fn retained(all: Seq<Page>, f: FilterView) -> Seq<Page> {
    all.filter(|p: Page| f.matches(p@))
}

impl BasicFilter {
    /// Whether the page passes the namespace check.
    pub fn filter_ex_namespace(&self, p: &Page) -> (b: bool)
        ensures
            b == self@.namespace_ok(p@),
    {
        match (&self.namespace, &p.namespace) {
            (None, _) => true,
            (Some(_), None) => false,
            (Some(f), Some(v)) => *f == *v,
        }
    }

    /// Whether the page passes the title check.
    pub fn filter_ex_title(&self, p: &Page) -> (b: bool)
        ensures
            b == self@.title_ok(p@),
    {
        match (&self.title, &p.title) {
            (None, _) => true,
            (Some(_), None) => false,
            (Some(f), Some(v)) => *f == *v,
        }
    }

    /// Whether the page passes the redirect check.
    pub fn filter_redirect(&self, p: &Page) -> (b: bool)
        ensures
            b == self@.redirect_ok(p@),
    {
        match self.has_redirect {
            None => true,
            Some(expected) => p.redirect.is_some() == expected,
        }
    }

    /// Whether the page passes the filter: all three checks together.
    pub fn filter_ex(&self, p: &Page) -> (b: bool)
        ensures
            b == self@.matches(p@),
            b == (self@.namespace_ok(p@) && self@.title_ok(p@) && self@.redirect_ok(p@)),
    {
        self.filter_ex_namespace(p) && self.filter_ex_title(p) && self.filter_redirect(p)
    }

    /// Keeps the pages that pass the filter and drops the others. The pages
    /// kept are the very pages given, in the order given.
    pub fn filter_pages(&self, all: Vec<Page>) -> (kept: Vec<Page>)
        ensures
            kept@ == retained(all@, self@),
    {
        let mut kept: Vec<Page> = Vec::new();
        for p in it: all.into_iter()
            invariant
                it.seq() == all@,
                kept@ == retained(all@.take(it.index()), self@),
        {
            proof {
                let i = it.index();
                assert(all@.take(i + 1) == all@.take(i).push(all@[i]));
                lemma_retained_by_page(all@.take(i), all@[i], self@);
            }
            if self.filter_ex(&p) {
                kept.push(p);
            }
        }
        assert(all@.take(all@.len() as int) == all@);
        kept
    }
}

/// A filter that asks for nothing passes every page.
pub proof fn lemma_unset_matches_all(f: FilterView, p: PageView)
    requires
        f.is_unset(),
    ensures
        f.matches(p),
{
}

/// A page passes a filter exactly when it passes each of the three checks:
/// failing any one of them fails the whole.
pub proof fn lemma_matches_is_conjunction(f: FilterView, p: PageView)
    ensures
        f.matches(p) <==> f.namespace_ok(p) && f.title_ok(p) && f.redirect_ok(p),
        !f.namespace_ok(p) ==> !f.matches(p),
        !f.title_ok(p) ==> !f.matches(p),
        !f.redirect_ok(p) ==> !f.matches(p),
{
}

/// A page without a namespace passes no filter that names one, whatever the
/// name; likewise for the title.
pub proof fn lemma_missing_field_never_matches(f: FilterView, p: PageView)
    ensures
        f.namespace is Some && p.namespace is None ==> !f.namespace_ok(p) && !f.matches(p),
        f.title is Some && p.title is None ==> !f.title_ok(p) && !f.matches(p),
{
}

/// Under a filter that asks for a redirect, the redirect check passes
/// exactly the pages that have one; and so does the whole filter, among the
/// pages that pass its namespace and title checks.
pub proof fn lemma_redirect_wanted(f: FilterView, p: PageView)
    requires
        f.has_redirect == Some(true),
    ensures
        f.redirect_ok(p) <==> p.has_redirect(),
        f.namespace_ok(p) && f.title_ok(p) ==> (f.matches(p) <==> p.has_redirect()),
{
}

/// A filter that asks for nothing retains every page, in the given order.
pub proof fn lemma_unset_retains_all(all: Seq<Page>, f: FilterView)
    requires
        f.is_unset(),
    ensures
        retained(all, f) == all,
    decreases all.len(),
{
    reveal(Seq::filter);
    if all.len() > 0 {
        lemma_unset_retains_all(all.drop_last(), f);
        assert(all.drop_last().push(all.last()) == all);
    }
}

/// Retention tests each page by itself and keeps the order: of no pages
/// nothing is retained, and a page added at the end is added at the end of
/// what is retained if it passes the filter, and is left out if it does not.
pub proof fn lemma_retained_by_page(all: Seq<Page>, p: Page, f: FilterView)
    ensures
        retained(Seq::<Page>::empty(), f) == Seq::<Page>::empty(),
        retained(all.push(p), f) == if f.matches(p@) {
            retained(all, f).push(p)
        } else {
            retained(all, f)
        },
{
    reveal(Seq::filter);
    assert(all.push(p).drop_last() == all);
}

} // verus!
