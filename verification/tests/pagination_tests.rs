//! Pagination: the next-page decision and the crawl over a modelled
//! collection.

use canvas_sync::pagination::{
    fetch_pages, next_page_link, LinkRels, PageEntry, PageStore,
};

fn rels(current: Option<&str>, next: Option<&str>, last: Option<&str>) -> LinkRels {
    LinkRels {
        current: current.map(|s| s.to_string()),
        next: next.map(|s| s.to_string()),
        last: last.map(|s| s.to_string()),
    }
}

fn page(url: &str, body: &str, r: Option<LinkRels>) -> PageEntry {
    PageEntry { url: url.to_string(), body: body.to_string(), rels: r }
}

/// A synthetic three-page sequence yields exactly three pages in order.
#[test]
fn three_page_chain_in_order() {
    let store = PageStore {
        pages: vec![
            page("p1", "one", Some(rels(Some("p1"), Some("p2"), Some("p3")))),
            page("p2", "two", Some(rels(Some("p2"), Some("p3"), Some("p3")))),
            page("p3", "three", Some(rels(Some("p3"), None, Some("p3")))),
        ],
    };
    let got = fetch_pages(&store, &"p1".to_string());
    assert_eq!(got, vec!["one".to_string(), "two".to_string(), "three".to_string()]);
}

/// No `next` relation: exactly one page, not an error.
#[test]
fn no_next_is_single_page() {
    let store = PageStore {
        pages: vec![page("p1", "only", Some(rels(Some("p1"), None, None)))],
    };
    let got = fetch_pages(&store, &"p1".to_string());
    assert_eq!(got, vec!["only".to_string()]);
}

/// No pagination metadata at all: one page, and the crawl halts.
#[test]
fn absent_rels_is_terminal() {
    let store = PageStore { pages: vec![page("p1", "bare", None)] };
    let got = fetch_pages(&store, &"p1".to_string());
    assert_eq!(got, vec!["bare".to_string()]);
}

/// A two-page collection where page 1 names `next` and `last` and page 2
/// is its own last page: exactly two fetches, then the crawl halts.
#[test]
fn two_page_collection_halts() {
    let store = PageStore {
        pages: vec![
            page("page1", "first", Some(rels(Some("page1"), Some("page2"), Some("page2")))),
            page("page2", "second", Some(rels(Some("page2"), None, Some("page2")))),
        ],
    };
    let got = fetch_pages(&store, &"page1".to_string());
    assert_eq!(got.len(), 2);
    assert_eq!(got, vec!["first".to_string(), "second".to_string()]);
}

/// `current == last` halts even when a `next` relation is present.
#[test]
fn current_equals_last_halts() {
    let r = Some(rels(Some("p2"), Some("p3"), Some("p2")));
    assert_eq!(next_page_link(&r), None);
}

/// `next` present with a different `last` continues to `next`.
#[test]
fn next_followed_when_not_last() {
    let r = Some(rels(Some("p1"), Some("p2"), Some("p9")));
    assert_eq!(next_page_link(&r), Some("p2".to_string()));
}

/// A `next` without any `last` relation is terminal.
#[test]
fn next_without_last_is_terminal() {
    let r = Some(rels(Some("p1"), Some("p2"), None));
    assert_eq!(next_page_link(&r), None);
}

/// A start URL the store does not know yields no pages.
#[test]
fn unknown_start_url_is_empty() {
    let store = PageStore { pages: vec![page("p1", "x", None)] };
    let got = fetch_pages(&store, &"zzz".to_string());
    assert!(got.is_empty());
}
