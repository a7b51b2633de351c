//! The two capabilities a window query rests on: one that fetches the text of
//! a window, and one that parses text into pages.
//!
//! Both are supplied by the caller. Nothing is assumed of what they give
//! back: the contracts here speak of the outcomes that a capability may have,
//! and say how those outcomes are passed on.

use crate::filter::{retained, BasicFilter, FilterView};
use crate::page::Page;
use std::io;
use vstd::prelude::*;

verus! {

/// `std::io::Error`, carried through as it is and never looked into.
#[verifier::external_type_specification]
#[verifier::external_body]
pub struct ExIoError(io::Error);

/// Model of what a parse or a query gives back: the pages in order, or the
/// failure.
pub type Outcome = Result<Seq<Page>, io::Error>;

/// The model of a result.
pub open spec fn outcome(r: Result<Vec<Page>, io::Error>) -> Outcome {
    match r {
        Ok(pages) => Ok(pages@),
        Err(e) => Err(e),
    }
}

/// What filtering makes of a parse: the retained pages of a success, and a
/// failure as it is.
pub open spec fn filtered(parsed: Outcome, f: FilterView) -> Outcome {
    match parsed {
        Ok(all) => Ok(retained(all, f)),
        Err(e) => Err(e),
    }
}

/// Filters what a parse gave: a failure is handed on unchanged, with no page;
/// of a success the pages that pass the filter are kept, in their order.
pub fn filter_parsed(parsed: Result<Vec<Page>, io::Error>, f: &BasicFilter) -> (r: Result<
    Vec<Page>,
    io::Error,
>)
    ensures
        outcome(r) == filtered(outcome(parsed), f@),
{
    match parsed {
        Ok(all) => Ok(f.filter_pages(all)),
        Err(e) => Err(e),
    }
}

/// Turns a window of the archive into text.
pub trait PagesStringSource: Sync + Send + 'static {
    /// The text of the window, or the failure to read or decode it.
    fn offset2pages_string(&self, offset: u64, size: u64) -> Result<String, io::Error>;
}

/// `fetched` is an outcome that `source` may have for the window.
pub open spec fn may_fetch<S: PagesStringSource + ?Sized>(
    source: &S,
    offset: u64,
    size: u64,
    fetched: Result<String, io::Error>,
) -> bool {
    call_ensures(S::offset2pages_string, (source, offset, size), fetched)
}

/// The text that a fetch gave, or its failure.
pub open spec fn fetched_text(fetched: Result<String, io::Error>) -> Result<Seq<char>, io::Error> {
    match fetched {
        Ok(text) => Ok(text@),
        Err(e) => Err(e),
    }
}

/// The source has one outcome for the window: whatever it may give for it
/// is the same text, or the same failure.
pub open spec fn fetch_is_determined<S: PagesStringSource + ?Sized>(
    source: &S,
    offset: u64,
    size: u64,
) -> bool {
    forall|a: Result<String, io::Error>, b: Result<String, io::Error>|
        #![trigger may_fetch(source, offset, size, a), may_fetch(source, offset, size, b)]
        may_fetch(source, offset, size, a) && may_fetch(source, offset, size, b) ==> fetched_text(a)
            == fetched_text(b)
}

/// Turns text into pages.
pub trait PagesStringToPages: Sync + Send + 'static {
    /// The pages of the text in their order, or the failure to parse it.
    fn pages_string2pages(&self, pages: &str) -> Result<Vec<Page>, io::Error>;

    /// Parses the whole text, then keeps the pages that pass the filter, in
    /// their order. A parse failure is the result, with no page.
    fn pages_string2pages_filtered(&self, pages: &str, f: &BasicFilter) -> (r: Result<
        Vec<Page>,
        io::Error,
    >)
        ensures
            exists|parsed: Result<Vec<Page>, io::Error>|
                #[trigger] call_ensures(Self::pages_string2pages, (self, pages), parsed)
                    && outcome(r) == filtered(outcome(parsed), f@),
    {
        let parsed = self.pages_string2pages(pages);
        filter_parsed(parsed, f)
    }
}

/// `parsed` is an outcome that `parser` may have for the text.
pub open spec fn may_parse<P: PagesStringToPages + ?Sized>(
    parser: &P,
    text: Seq<char>,
    parsed: Outcome,
) -> bool {
    exists|t: &str, r: Result<Vec<Page>, io::Error>|
        t@ == text && outcome(r) == parsed && #[trigger] call_ensures(
            P::pages_string2pages,
            (parser, t),
            r,
        )
}

/// The parser has one outcome for each text: whatever it may give for a text
/// is the same pages, or the same failure.
pub open spec fn parse_is_determined<P: PagesStringToPages + ?Sized>(parser: &P) -> bool {
    forall|text: Seq<char>, a: Outcome, b: Outcome|
        #![trigger may_parse(parser, text, a), may_parse(parser, text, b)]
        may_parse(parser, text, a) && may_parse(parser, text, b) ==> a == b
}

/// `out` is what filtering makes of an outcome that `parser` may have for the
/// text.
pub open spec fn may_parse_filtered<P: PagesStringToPages + ?Sized>(
    parser: &P,
    text: Seq<char>,
    f: FilterView,
    out: Outcome,
) -> bool {
    exists|parsed: Outcome| #[trigger] may_parse(parser, text, parsed) && out == filtered(parsed, f)
}

/// A filtered parse is a parse of the whole text with each page tested by
/// the filter: whatever [`PagesStringToPages::pages_string2pages_filtered`]
/// returns is what filtering makes of an outcome that the plain parse may
/// have for the same text. A failed parse stays that failure; of a parse that
/// succeeded the pages that pass are kept, in their order.
pub proof fn lemma_filtered_parse_is_parse_then_filter<P: PagesStringToPages + ?Sized>(
    parser: &P,
    pages: &str,
    f: &BasicFilter,
    r: Result<Vec<Page>, io::Error>,
)
    requires
        call_ensures(P::pages_string2pages_filtered, (parser, pages, f), r),
    ensures
        may_parse_filtered(parser, pages@, f@, outcome(r)),
{
    let parsed = choose|parsed: Result<Vec<Page>, io::Error>|
        #[trigger] call_ensures(P::pages_string2pages, (parser, pages), parsed) && outcome(r)
            == filtered(outcome(parsed), f@);
    assert(may_parse(parser, pages@, outcome(parsed)));
}

} // verus!
