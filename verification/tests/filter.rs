use rs_wikipage2ql::source::filter_parsed;
use rs_wikipage2ql::{BasicFilter, Page, Redirect, Revision};
use std::io;

fn some(s: &str) -> Option<String> {
    Some(s.to_string())
}

fn page(namespace: Option<&str>, title: Option<&str>, redirect: Option<&str>) -> Page {
    Page {
        title: title.map(|s| s.to_string()),
        namespace: namespace.map(|s| s.to_string()),
        id: None,
        redirect: redirect.map(|s| Redirect { title: some(s) }),
        restrictions: None,
        revision: None,
    }
}

fn unset() -> BasicFilter {
    BasicFilter { namespace: None, title: None, has_redirect: None }
}

fn samples() -> Vec<Page> {
    vec![
        page(Some("Main"), Some("A"), None),
        page(Some("Talk"), Some("B"), Some("A")),
        page(None, Some("C"), None),
        page(Some("Main"), None, Some("A")),
        page(None, None, None),
        page(Some(""), Some(""), Some("")),
    ]
}

#[test]
fn unset_filter_matches_every_page() {
    let f = unset();
    for p in samples() {
        assert!(f.filter_ex_namespace(&p));
        assert!(f.filter_ex_title(&p));
        assert!(f.filter_redirect(&p));
        assert!(f.filter_ex(&p));
    }
}

#[test]
fn match_is_the_conjunction_of_the_three_checks() {
    let filters = vec![
        unset(),
        BasicFilter { namespace: some("Main"), title: None, has_redirect: None },
        BasicFilter { namespace: None, title: some("A"), has_redirect: None },
        BasicFilter { namespace: None, title: None, has_redirect: Some(true) },
        BasicFilter { namespace: None, title: None, has_redirect: Some(false) },
        BasicFilter { namespace: some("Main"), title: some("A"), has_redirect: Some(false) },
        BasicFilter { namespace: some("Talk"), title: some("B"), has_redirect: Some(true) },
        BasicFilter { namespace: some(""), title: some(""), has_redirect: Some(true) },
    ];
    for f in &filters {
        for p in samples() {
            let each = f.filter_ex_namespace(&p) && f.filter_ex_title(&p) && f.filter_redirect(&p);
            assert_eq!(f.filter_ex(&p), each);
        }
    }
}

#[test]
fn one_failing_check_fails_the_whole() {
    let p = page(Some("Main"), Some("A"), None);
    let all_pass = BasicFilter { namespace: some("Main"), title: some("A"), has_redirect: Some(false) };
    assert!(all_pass.filter_ex(&p));

    let namespace_fails = BasicFilter { namespace: some("Talk"), title: some("A"), has_redirect: Some(false) };
    assert!(!namespace_fails.filter_ex_namespace(&p));
    assert!(namespace_fails.filter_ex_title(&p));
    assert!(namespace_fails.filter_redirect(&p));
    assert!(!namespace_fails.filter_ex(&p));

    let title_fails = BasicFilter { namespace: some("Main"), title: some("B"), has_redirect: Some(false) };
    assert!(title_fails.filter_ex_namespace(&p));
    assert!(!title_fails.filter_ex_title(&p));
    assert!(title_fails.filter_redirect(&p));
    assert!(!title_fails.filter_ex(&p));

    let redirect_fails = BasicFilter { namespace: some("Main"), title: some("A"), has_redirect: Some(true) };
    assert!(redirect_fails.filter_ex_namespace(&p));
    assert!(redirect_fails.filter_ex_title(&p));
    assert!(!redirect_fails.filter_redirect(&p));
    assert!(!redirect_fails.filter_ex(&p));
}

#[test]
fn page_without_namespace_fails_a_set_namespace() {
    let f = BasicFilter { namespace: some("X"), title: None, has_redirect: None };
    let p = page(None, Some("A"), None);
    assert!(!f.filter_ex_namespace(&p));
    assert!(!f.filter_ex(&p));
    let empty = BasicFilter { namespace: some(""), title: None, has_redirect: None };
    assert!(!empty.filter_ex(&p));
}

#[test]
fn page_without_title_fails_a_set_title() {
    let f = BasicFilter { namespace: None, title: some("X"), has_redirect: None };
    let p = page(Some("Main"), None, None);
    assert!(!f.filter_ex_title(&p));
    assert!(!f.filter_ex(&p));
}

#[test]
fn redirect_wanted_matches_exactly_the_redirecting_pages() {
    let f = BasicFilter { namespace: None, title: None, has_redirect: Some(true) };
    for p in samples() {
        assert_eq!(f.filter_redirect(&p), p.redirect.is_some());
        assert_eq!(f.filter_ex(&p), p.redirect.is_some());
    }
}

#[test]
fn redirect_unwanted_matches_exactly_the_other_pages() {
    let f = BasicFilter { namespace: None, title: None, has_redirect: Some(false) };
    for p in samples() {
        assert_eq!(f.filter_redirect(&p), p.redirect.is_none());
        assert_eq!(f.filter_ex(&p), p.redirect.is_none());
    }
}

#[test]
fn redirect_wanted_does_not_override_the_namespace() {
    let f = BasicFilter { namespace: some("Main"), title: None, has_redirect: Some(true) };
    let p = page(Some("Talk"), Some("B"), Some("A"));
    assert!(f.filter_redirect(&p));
    assert!(!f.filter_ex(&p));
}

#[test]
fn redirect_without_a_target_still_counts() {
    let mut p = page(Some("Main"), Some("A"), None);
    p.redirect = Some(Redirect { title: None });
    let wanted = BasicFilter { namespace: None, title: None, has_redirect: Some(true) };
    let unwanted = BasicFilter { namespace: None, title: None, has_redirect: Some(false) };
    assert!(wanted.filter_ex(&p));
    assert!(!unwanted.filter_ex(&p));
}

#[test]
fn comparison_is_exact_and_case_sensitive() {
    let p = page(Some("Main"), Some("Rust"), None);
    for ns in ["main", "MAIN", "Mai", "Main ", " Main", "Mainn", ""] {
        let f = BasicFilter { namespace: some(ns), title: None, has_redirect: None };
        assert!(!f.filter_ex_namespace(&p), "namespace {ns:?}");
        assert!(!f.filter_ex(&p));
    }
    for t in ["rust", "RUST", "Rus", "Rust ", "Rustt", ""] {
        let f = BasicFilter { namespace: None, title: some(t), has_redirect: None };
        assert!(!f.filter_ex_title(&p), "title {t:?}");
        assert!(!f.filter_ex(&p));
    }
    let exact = BasicFilter { namespace: some("Main"), title: some("Rust"), has_redirect: None };
    assert!(exact.filter_ex(&p));
}

#[test]
fn namespace_and_title_are_not_confused() {
    let p = page(Some("Main"), Some("Talk"), None);
    let f = BasicFilter { namespace: some("Talk"), title: some("Main"), has_redirect: None };
    assert!(!f.filter_ex_namespace(&p));
    assert!(!f.filter_ex_title(&p));
    let g = BasicFilter { namespace: some("Main"), title: some("Talk"), has_redirect: None };
    assert!(g.filter_ex(&p));
}

#[test]
fn non_ascii_text_compares_by_its_characters() {
    let p = page(Some("Diskussion"), Some("Z\u{fc}rich"), None);
    let same = BasicFilter { namespace: None, title: some("Z\u{fc}rich"), has_redirect: None };
    let other = BasicFilter { namespace: None, title: some("Zu\u{308}rich"), has_redirect: None };
    assert!(same.filter_ex(&p));
    assert!(!other.filter_ex(&p));
}

#[test]
fn filter_pages_keeps_the_matching_pages_in_order() {
    let f = BasicFilter { namespace: some("Main"), title: None, has_redirect: Some(false) };
    let all = vec![
        page(Some("Main"), Some("A"), None),
        page(Some("Talk"), Some("B"), Some("A")),
        page(Some("Main"), Some("C"), None),
    ];
    let kept = f.filter_pages(all.clone());
    assert_eq!(kept, vec![all[0].clone(), all[2].clone()]);
}

#[test]
fn filter_pages_is_each_page_tested_by_the_filter() {
    let f = BasicFilter { namespace: None, title: None, has_redirect: Some(true) };
    let all = samples();
    let expected: Vec<Page> = all.iter().filter(|p| f.filter_ex(p)).cloned().collect();
    assert_eq!(expected.len(), 3);
    assert_eq!(f.filter_pages(all), expected);
}

#[test]
fn filter_pages_with_an_unset_filter_keeps_everything() {
    let all = samples();
    assert_eq!(unset().filter_pages(all.clone()), all);
}

#[test]
fn filter_pages_of_nothing_is_nothing() {
    let f = BasicFilter { namespace: some("Main"), title: None, has_redirect: None };
    assert_eq!(f.filter_pages(Vec::new()), Vec::<Page>::new());
    assert_eq!(unset().filter_pages(Vec::new()), Vec::<Page>::new());
}

#[test]
fn filter_pages_may_keep_nothing() {
    let f = BasicFilter { namespace: some("Nowhere"), title: None, has_redirect: None };
    assert_eq!(f.filter_pages(samples()), Vec::<Page>::new());
}

#[test]
fn filter_pages_keeps_duplicates() {
    let f = BasicFilter { namespace: some("Main"), title: None, has_redirect: None };
    let a = page(Some("Main"), Some("A"), None);
    let b = page(Some("Talk"), Some("B"), None);
    let all = vec![a.clone(), a.clone(), b, a.clone()];
    assert_eq!(f.filter_pages(all), vec![a.clone(), a.clone(), a]);
}

#[test]
fn filter_pages_leaves_the_rest_of_a_page_untouched() {
    let mut p = page(Some("Main"), Some("A"), None);
    p.id = some("42");
    p.restrictions = some("none");
    p.revision = Some(Revision {
        id: some("1000"),
        parent_id: some("999"),
        timestamp: some("2025-08-10T12:34:56Z"),
        comment: some("first"),
        origin: some("1000"),
        model: some("wikitext"),
        format: some("text/x-wiki"),
        text: some("Page content goes here."),
        sha1: some("abc"),
    });
    let f = BasicFilter { namespace: some("Main"), title: some("A"), has_redirect: Some(false) };
    let kept = f.filter_pages(vec![p.clone()]);
    assert_eq!(kept, vec![p]);
}

#[test]
fn filter_parsed_filters_a_successful_parse() {
    let f = BasicFilter { namespace: None, title: some("B"), has_redirect: None };
    let all = samples();
    let kept = filter_parsed(Ok(all.clone()), &f).unwrap();
    assert_eq!(kept, vec![all[1].clone()]);
}

#[test]
fn filter_parsed_hands_a_failure_on_unchanged() {
    let f = unset();
    let failure = io::Error::new(io::ErrorKind::InvalidData, "unclosed element");
    let e = filter_parsed(Err(failure), &f).unwrap_err();
    assert_eq!(e.kind(), io::ErrorKind::InvalidData);
    assert_eq!(e.to_string(), "unclosed element");

    let g = BasicFilter { namespace: some("Main"), title: None, has_redirect: Some(true) };
    let failure = io::Error::new(io::ErrorKind::UnexpectedEof, "cut short");
    let e = filter_parsed(Err(failure), &g).unwrap_err();
    assert_eq!(e.kind(), io::ErrorKind::UnexpectedEof);
    assert_eq!(e.to_string(), "cut short");
}
