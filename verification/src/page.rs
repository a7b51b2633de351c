//! The pages of the archive, and their mathematical model.

use vstd::prelude::*;

verus! {

/// The characters of an optional string.
pub open spec fn chars_of(s: Option<String>) -> Option<Seq<char>> {
    match s {
        Some(t) => Some(t@),
        None => None,
    }
}

/// The target of a redirecting page.
#[derive(Debug, Clone, PartialEq)]
pub struct Redirect {
    pub title: Option<String>,
}

/// Model of a [`Redirect`].
pub ghost struct RedirectView {
    pub title: Option<Seq<char>>,
}

impl View for Redirect {
    type V = RedirectView;

    open spec fn view(&self) -> RedirectView {
        RedirectView { title: chars_of(self.title) }
    }
}

/// One revision of a page.
#[derive(Debug, Clone, PartialEq)]
pub struct Revision {
    pub id: Option<String>,
    pub parent_id: Option<String>,
    pub timestamp: Option<String>,
    pub comment: Option<String>,
    pub origin: Option<String>,
    pub model: Option<String>,
    pub format: Option<String>,
    pub text: Option<String>,
    pub sha1: Option<String>,
}

/// Model of a [`Revision`].
pub ghost struct RevisionView {
    pub id: Option<Seq<char>>,
    pub parent_id: Option<Seq<char>>,
    pub timestamp: Option<Seq<char>>,
    pub comment: Option<Seq<char>>,
    pub origin: Option<Seq<char>>,
    pub model: Option<Seq<char>>,
    pub format: Option<Seq<char>>,
    pub text: Option<Seq<char>>,
    pub sha1: Option<Seq<char>>,
}

impl View for Revision {
    type V = RevisionView;

    open spec fn view(&self) -> RevisionView {
        RevisionView {
            id: chars_of(self.id),
            parent_id: chars_of(self.parent_id),
            timestamp: chars_of(self.timestamp),
            comment: chars_of(self.comment),
            origin: chars_of(self.origin),
            model: chars_of(self.model),
            format: chars_of(self.format),
            text: chars_of(self.text),
            sha1: chars_of(self.sha1),
        }
    }
}

/// One entry of the archive.
///
/// A filter reads the namespace, the title and whether a redirect is present.
/// Everything else is carried along untouched.
#[derive(Debug, Clone, PartialEq)]
pub struct Page {
    pub title: Option<String>,
    pub namespace: Option<String>,
    pub id: Option<String>,
    pub redirect: Option<Redirect>,
    pub restrictions: Option<String>,
    pub revision: Option<Revision>,
}

/// Model of a [`Page`].
pub ghost struct PageView {
    pub title: Option<Seq<char>>,
    pub namespace: Option<Seq<char>>,
    pub id: Option<Seq<char>>,
    pub redirect: Option<RedirectView>,
    pub restrictions: Option<Seq<char>>,
    pub revision: Option<RevisionView>,
}

impl PageView {
    /// The page redirects elsewhere. The presence of a redirect counts, not
    /// what it names.
    pub open spec fn has_redirect(self) -> bool {
        self.redirect is Some
    }
}

impl View for Page {
    type V = PageView;

    open spec fn view(&self) -> PageView {
        PageView {
            title: chars_of(self.title),
            namespace: chars_of(self.namespace),
            id: chars_of(self.id),
            redirect: match self.redirect {
                Some(r) => Some(r@),
                None => None,
            },
            restrictions: chars_of(self.restrictions),
            revision: match self.revision {
                Some(r) => Some(r@),
                None => None,
            },
        }
    }
}

} // verus!
