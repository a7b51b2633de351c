//! The coordinator: one source and one parser, put together into window
//! queries.

use crate::filter::{lemma_unset_retains_all, BasicFilter, FilterView};
use crate::page::Page;
use crate::source::{
    fetch_is_determined, fetched_text, filtered, lemma_filtered_parse_is_parse_then_filter,
    may_fetch, may_parse, may_parse_filtered, outcome, parse_is_determined, Outcome,
    PagesStringSource, PagesStringToPages,
};
use std::io;
use std::sync::Arc;
use vstd::prelude::*;

verus! {

/// Answers window queries, plain or filtered.
pub trait PagesExSource: Sync + Send + 'static {
    /// The pages of the window.
    fn offset2pages(&self, offset: u64, size: u64) -> Result<Vec<Page>, io::Error>;

    /// The pages of the window that pass the filter.
    fn offset2pages_filtered(&self, offset: u64, size: u64, f: &BasicFilter) -> Result<
        Vec<Page>,
        io::Error,
    >;
}

/// `out` is what parsing makes of a fetch: a fetch failure as it is, and for
/// a text an outcome that `parser` may have for it.
pub open spec fn may_parse_fetched<P: PagesStringToPages + ?Sized>(
    parser: &P,
    fetched: Result<String, io::Error>,
    out: Outcome,
) -> bool {
    match fetched {
        Ok(text) => may_parse(parser, text@, out),
        Err(e) => out == Err::<Seq<Page>, io::Error>(e),
    }
}

/// `out` is what parsing and then filtering makes of a fetch: a fetch
/// failure as it is, and for a text what the filter makes of an outcome that
/// `parser` may have for it.
pub open spec fn may_parse_fetched_filtered<P: PagesStringToPages + ?Sized>(
    parser: &P,
    fetched: Result<String, io::Error>,
    f: FilterView,
    out: Outcome,
) -> bool {
    match fetched {
        Ok(text) => may_parse_filtered(parser, text@, f, out),
        Err(e) => out == Err::<Seq<Page>, io::Error>(e),
    }
}

/// The second stage of a window query: parses what the fetch gave. A fetch
/// failure is handed on unchanged and nothing is parsed.
pub fn parse_fetched<P: PagesStringToPages + ?Sized>(
    parser: &P,
    fetched: Result<String, io::Error>,
) -> (r: Result<Vec<Page>, io::Error>)
    ensures
        may_parse_fetched(parser, fetched, outcome(r)),
{
    match fetched {
        Ok(text) => parser.pages_string2pages(text.as_str()),
        Err(e) => Err(e),
    }
}

/// The second stage of a filtered window query: parses what the fetch gave
/// and keeps the pages that pass the filter. A fetch failure is handed on
/// unchanged and nothing is parsed.
pub fn parse_fetched_filtered<P: PagesStringToPages + ?Sized>(
    parser: &P,
    fetched: Result<String, io::Error>,
    f: &BasicFilter,
) -> (r: Result<Vec<Page>, io::Error>)
    ensures
        may_parse_fetched_filtered(parser, fetched, f@, outcome(r)),
{
    match fetched {
        Ok(text) => {
            let t = text.as_str();
            let r = parser.pages_string2pages_filtered(t, f);
            proof {
                lemma_filtered_parse_is_parse_then_filter(parser, t, f, r);
            }
            r
        },
        Err(e) => Err(e),
    }
}

/// A source and a parser, bound together once and shared by every query.
pub struct PagesExSrc<
    S: PagesStringSource + ?Sized = dyn PagesStringSource,
    P: PagesStringToPages + ?Sized = dyn PagesStringToPages,
> {
    pub source: Arc<Box<S>>,
    pub s2page: Arc<Box<P>>,
}

impl<S: PagesStringSource + ?Sized, P: PagesStringToPages + ?Sized> PagesExSrc<S, P> {
    /// `out` is an outcome that the plain query of the window may have.
    pub open spec fn may_yield(&self, offset: u64, size: u64, out: Outcome) -> bool {
        exists|fetched: Result<String, io::Error>| #[trigger]
            may_fetch(&**self.source, offset, size, fetched) && may_parse_fetched(
                &**self.s2page,
                fetched,
                out,
            )
    }

    /// `out` is an outcome that the filtered query of the window may have.
    pub open spec fn may_yield_filtered(
        &self,
        offset: u64,
        size: u64,
        f: FilterView,
        out: Outcome,
    ) -> bool {
        exists|fetched: Result<String, io::Error>| #[trigger]
            may_fetch(&**self.source, offset, size, fetched) && may_parse_fetched_filtered(
                &**self.s2page,
                fetched,
                f,
                out,
            )
    }
}

impl<S: PagesStringSource + ?Sized, P: PagesStringToPages + ?Sized> PagesExSource for PagesExSrc<
    S,
    P,
> {
    /// Fetches the window, then parses the text. A failure of either stage
    /// is the result, unchanged.
    fn offset2pages(&self, offset: u64, size: u64) -> (r: Result<Vec<Page>, io::Error>)
        ensures
            self.may_yield(offset, size, outcome(r)),
    {
        let fetched = self.source.offset2pages_string(offset, size);
        assert(may_fetch(&**self.source, offset, size, fetched));
        parse_fetched(&**self.s2page, fetched)
    }

    /// Fetches the window, then parses the text and keeps the pages that
    /// pass the filter. A failure of either stage is the result, unchanged.
    fn offset2pages_filtered(&self, offset: u64, size: u64, f: &BasicFilter) -> (r: Result<
        Vec<Page>,
        io::Error,
    >)
        ensures
            self.may_yield_filtered(offset, size, f@, outcome(r)),
    {
        let fetched = self.source.offset2pages_string(offset, size);
        assert(may_fetch(&**self.source, offset, size, fetched));
        parse_fetched_filtered(&**self.s2page, fetched, f)
    }
}

/// With a filter that asks for nothing, the filtered query of a window has
/// exactly the outcomes of the plain query of that window: the same pages in
/// the same order, or the same failure.
pub proof fn lemma_unset_filter_same_window<
    S: PagesStringSource + ?Sized,
    P: PagesStringToPages + ?Sized,
>(src: PagesExSrc<S, P>, offset: u64, size: u64, f: FilterView, out: Outcome)
    requires
        f.is_unset(),
    ensures
        src.may_yield_filtered(offset, size, f, out) <==> src.may_yield(offset, size, out),
{
    if src.may_yield_filtered(offset, size, f, out) {
        let fetched = choose|fetched: Result<String, io::Error>| #[trigger]
            may_fetch(&**src.source, offset, size, fetched) && may_parse_fetched_filtered(
                &**src.s2page,
                fetched,
                f,
                out,
            );
        if let Ok(text) = fetched {
            let parsed = choose|parsed: Outcome| #[trigger]
                may_parse(&**src.s2page, text@, parsed) && out == filtered(parsed, f);
            lemma_unset_filtered_is_same(parsed, f);
        }
        assert(may_parse_fetched(&**src.s2page, fetched, out));
    }
    if src.may_yield(offset, size, out) {
        let fetched = choose|fetched: Result<String, io::Error>| #[trigger]
            may_fetch(&**src.source, offset, size, fetched) && may_parse_fetched(
                &**src.s2page,
                fetched,
                out,
            );
        if let Ok(text) = fetched {
            lemma_unset_filtered_is_same(out, f);
            assert(may_parse(&**src.s2page, text@, out) && out == filtered(out, f));
        }
        assert(may_parse_fetched_filtered(&**src.s2page, fetched, f, out));
    }
}

/// Where the source has one outcome for the window and the parser one for
/// each text, the plain query of the window and its filtered query under a
/// filter that asks for nothing give the same: identical pages in identical
/// order, or the same failure.
pub proof fn lemma_unset_filter_same_pages<
    S: PagesStringSource + ?Sized,
    P: PagesStringToPages + ?Sized,
>(src: PagesExSrc<S, P>, offset: u64, size: u64, f: FilterView, plain: Outcome, narrowed: Outcome)
    requires
        f.is_unset(),
        fetch_is_determined(&**src.source, offset, size),
        parse_is_determined(&**src.s2page),
        src.may_yield(offset, size, plain),
        src.may_yield_filtered(offset, size, f, narrowed),
    ensures
        narrowed == plain,
{
    lemma_unset_filter_same_window(src, offset, size, f, narrowed);
    let a = choose|fetched: Result<String, io::Error>| #[trigger]
        may_fetch(&**src.source, offset, size, fetched) && may_parse_fetched(
            &**src.s2page,
            fetched,
            plain,
        );
    let b = choose|fetched: Result<String, io::Error>| #[trigger]
        may_fetch(&**src.source, offset, size, fetched) && may_parse_fetched(
            &**src.s2page,
            fetched,
            narrowed,
        );
    assert(fetched_text(a) == fetched_text(b));
}

/// Filtering with a filter that asks for nothing changes no outcome.
proof fn lemma_unset_filtered_is_same(parsed: Outcome, f: FilterView)
    requires
        f.is_unset(),
    ensures
        filtered(parsed, f) == parsed,
{
    if let Ok(all) = parsed {
        lemma_unset_retains_all(all, f);
    }
}

} // verus!
