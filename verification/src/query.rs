//! The query surface: one operation, which hands a window query to the
//! coordinator it holds.

use crate::filter::BasicFilter;
use crate::page::Page;
use crate::pipeline::{PagesExSource, PagesExSrc};
use crate::source::{outcome, PagesStringSource, PagesStringToPages};
use std::io;
use std::sync::Arc;
use vstd::prelude::*;

verus! {

/// `r` is a result that the plain query of `source` may have for the window.
pub open spec fn may_answer<E: PagesExSource + ?Sized>(
    source: &E,
    offset: u64,
    size: u64,
    r: Result<Vec<Page>, io::Error>,
) -> bool {
    call_ensures(E::offset2pages, (source, offset, size), r)
}

/// `r` is a result that the filtered query of `source` may have for the
/// window and the filter.
pub open spec fn may_answer_filtered<E: PagesExSource + ?Sized>(
    source: &E,
    offset: u64,
    size: u64,
    f: &BasicFilter,
    r: Result<Vec<Page>, io::Error>,
) -> bool {
    call_ensures(E::offset2pages_filtered, (source, offset, size, f), r)
}

/// The root of the query surface.
pub struct QueryEx<E: PagesExSource + ?Sized = dyn PagesExSource> {
    pub source: Arc<Box<E>>,
}

impl<E: PagesExSource + ?Sized> QueryEx<E> {
    /// `r` is a result that the coordinator may have for the query: for its
    /// plain query of the window where there is no filter, for its filtered
    /// query where there is one.
    pub open spec fn may_return(
        &self,
        offset: u64,
        size: u64,
        filter: Option<BasicFilter>,
        r: Result<Vec<Page>, io::Error>,
    ) -> bool {
        match filter {
            None => may_answer(&**self.source, offset, size, r),
            Some(f) => may_answer_filtered(&**self.source, offset, size, &f, r),
        }
    }

    /// The pages of a window of the archive. Without a filter this is the
    /// plain query of the window; with one it is the filtered query. What
    /// the coordinator returns is returned as it is, a failure too.
    pub fn pages(&self, offset: u64, size: u64, filter: Option<BasicFilter>) -> (r: Result<
        Vec<Page>,
        io::Error,
    >)
        ensures
            self.may_return(offset, size, filter, r),
    {
        match filter {
            None => self.source.offset2pages(offset, size),
            Some(f) => self.source.offset2pages_filtered(offset, size, &f),
        }
    }
}

/// Over a coordinator of a source and a parser, a query has the outcomes of
/// the pipeline: without a filter those of fetching the window and parsing
/// it, with a filter those of fetching, parsing and filtering.
pub proof fn lemma_query_runs_the_pipeline<
    S: PagesStringSource + ?Sized,
    P: PagesStringToPages + ?Sized,
>(
    q: QueryEx<PagesExSrc<S, P>>,
    offset: u64,
    size: u64,
    filter: Option<BasicFilter>,
    r: Result<Vec<Page>, io::Error>,
)
    requires
        q.may_return(offset, size, filter, r),
    ensures
        match filter {
            None => (**q.source).may_yield(offset, size, outcome(r)),
            Some(f) => (**q.source).may_yield_filtered(offset, size, f@, outcome(r)),
        },
{
}

} // verus!
