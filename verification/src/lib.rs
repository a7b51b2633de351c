//! A windowed query surface over an archive of wiki pages.
//!
//! A query names a byte window of the archive. The window is fetched as text,
//! the text is parsed into pages, and the pages may be narrowed by a
//! [`BasicFilter`]. Fetching and parsing are capabilities that the caller
//! supplies; what this crate owns is the filter and the way the stages are
//! put together.

pub mod filter;
pub mod page;
pub mod pipeline;
pub mod query;
pub mod source;

pub use filter::{BasicFilter, FilterView};
pub use page::{Page, PageView, Redirect, RedirectView, Revision, RevisionView};
pub use pipeline::{PagesExSource, PagesExSrc};
pub use query::QueryEx;
pub use source::{PagesStringSource, PagesStringToPages};
