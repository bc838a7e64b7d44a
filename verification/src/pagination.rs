//! Link-relation pagination.
//!
//! A response carries a `rel`-keyed set of link relations; the keys the
//! client consumes are `current`, `next` and `last`. A collection is
//! crawled by following `next` until it is absent or the current page
//! equals the last page. [`PageStore`] models a finite remote collection
//! as plain data, and [`fetch_pages`] is the crawl over that model,
//! proved to return exactly the reachable pages in order.

use vstd::prelude::*;

verus! {

/// The three link relations the client reads from one response.
#[derive(Clone, Debug, PartialEq)]
pub struct LinkRels {
    pub current: Option<String>,
    pub next: Option<String>,
    pub last: Option<String>,
}

/// Mathematical image of [`LinkRels`].
pub struct LinkRelsModel {
    pub current: Option<Seq<char>>,
    pub next: Option<Seq<char>>,
    pub last: Option<Seq<char>>,
}

/// The view of one optional URI.
pub open spec fn opt_text_view(o: Option<String>) -> Option<Seq<char>> {
    match o {
        Some(s) => Some(s@),
        None => None,
    }
}

impl View for LinkRels {
    type V = LinkRelsModel;

    open spec fn view(&self) -> LinkRelsModel {
        LinkRelsModel {
            current: opt_text_view(self.current),
            next: opt_text_view(self.next),
            last: opt_text_view(self.last),
        }
    }
}

/// What parsing a `Link` header yields: `None` for a malformed header,
/// otherwise the `current`, `next` and `last` relations it names. The
/// result depends on the header text alone.
pub uninterp spec fn link_rels_of(header: Seq<char>) -> Option<LinkRelsModel>;

/// Relies on `parse_link_header::parse_with_rel`: parses the header into
/// a map keyed by relation name; this wrapper keeps the `current`, `next`
/// and `last` entries' raw URIs and nothing else.
#[verifier::external_body]
fn parse_rels(header: &str) -> (r: Option<LinkRels>)
    ensures
        match r {
            Some(l) => link_rels_of(header@) == Some(l@),
            None => link_rels_of(header@) is None,
        },
{
    let m = match parse_link_header::parse_with_rel(header) {
        Ok(m) => m,
        Err(_) => return None,
    };
    Some(LinkRels {
        current: m.get("current").map(|l| l.raw_uri.clone()),
        next: m.get("next").map(|l| l.raw_uri.clone()),
        last: m.get("last").map(|l| l.raw_uri.clone()),
    })
}

/// Where the crawl goes after a response with relations `rels`: the
/// `next` URI, unless `next` or `last` is absent or the current page is
/// the last page.
pub open spec fn next_link_spec(rels: Option<LinkRelsModel>) -> Option<Seq<char>> {
    match rels {
        None => None,
        Some(r) => match r.next {
            None => None,
            Some(n) => match r.last {
                None => None,
                Some(l) => if r.current == Some(l) {
                    None
                } else {
                    Some(n)
                },
            },
        },
    }
}

/// The view of optional relations.
pub open spec fn opt_rels_view(o: Option<LinkRels>) -> Option<LinkRelsModel> {
    match o {
        Some(r) => Some(r@),
        None => None,
    }
}

/// Decide where the crawl goes after a response with relations `rels`.
/// Absent pagination metadata is terminal, never an error.
pub fn next_page_link(rels: &Option<LinkRels>) -> (r: Option<String>)
    ensures
        match r {
            Some(s) => next_link_spec(opt_rels_view(*rels)) == Some(s@),
            None => next_link_spec(opt_rels_view(*rels)) is None,
        },
{
    match rels {
        None => None,
        Some(lr) => match &lr.next {
            None => None,
            Some(n) => match &lr.last {
                None => None,
                Some(l) => {
                    let at_last = match &lr.current {
                        Some(c) => c.eq(l),
                        None => false,
                    };
                    if at_last {
                        None
                    } else {
                        Some(n.clone())
                    }
                },
            },
        },
    }
}

/// Decide where the crawl goes after a response whose `Link` header is
/// `header` (`None` when the response carries none).
pub fn next_from_header(header: Option<&str>) -> (r: Option<String>)
    ensures
        match header {
            None => r is None,
            Some(h) => match r {
                Some(s) => next_link_spec(link_rels_of(h@)) == Some(s@),
                None => next_link_spec(link_rels_of(h@)) is None,
            },
        },
{
    match header {
        None => None,
        Some(h) => {
            let rels = parse_rels(h);
            next_page_link(&rels)
        },
    }
}

/// One page of a modelled remote collection.
#[derive(Clone, Debug, PartialEq)]
pub struct PageEntry {
    pub url: String,
    pub body: String,
    pub rels: Option<LinkRels>,
}

/// Mathematical image of [`PageEntry`].
pub struct PageEntryModel {
    pub url: Seq<char>,
    pub body: Seq<char>,
    pub rels: Option<LinkRelsModel>,
}

impl View for PageEntry {
    type V = PageEntryModel;

    open spec fn view(&self) -> PageEntryModel {
        PageEntryModel { url: self.url@, body: self.body@, rels: opt_rels_view(self.rels) }
    }
}

/// A finite remote collection, modelled as plain data: each page knows
/// its URL, its body, and the link relations its response would carry.
#[derive(Clone, Debug, PartialEq)]
pub struct PageStore {
    pub pages: Vec<PageEntry>,
}

impl View for PageStore {
    type V = Seq<PageEntryModel>;

    open spec fn view(&self) -> Seq<PageEntryModel> {
        self.pages@.map_values(|e: PageEntry| e@)
    }
}

/// The first index at or after `from` whose page has URL `url`.
pub open spec fn find_url_spec(ps: Seq<PageEntryModel>, url: Seq<char>, from: int) -> Option<int>
    decreases ps.len() - from,
    when 0 <= from <= ps.len()
{
    if from >= ps.len() {
        None
    } else if ps[from].url == url {
        Some(from)
    } else {
        find_url_spec(ps, url, from + 1)
    }
}

/// The index the crawl visits after page `i`: the store position of the
/// `next` URI, if the relations name one and it resolves.
pub open spec fn next_index_of(ps: Seq<PageEntryModel>, i: int) -> Option<int> {
    match next_link_spec(ps[i].rels) {
        None => None,
        Some(u) => find_url_spec(ps, u, 0),
    }
}

/// A store is well formed when following `next` always moves forward, so
/// every crawl terminates.
pub open spec fn store_wf(ps: Seq<PageEntryModel>) -> bool {
    forall|i: int|
        0 <= i < ps.len() ==> match #[trigger] next_index_of(ps, i) {
            Some(j) => i < j < ps.len(),
            None => true,
        }
}

/// The pages reachable from page `i` by following `next` until it is
/// absent or the current page equals the last page, in crawl order.
pub open spec fn crawl_from(ps: Seq<PageEntryModel>, i: int) -> Seq<int>
    decreases ps.len() - i,
    when store_wf(ps) && 0 <= i < ps.len()
{
    seq![i] + match next_index_of(ps, i) {
        None => Seq::<int>::empty(),
        Some(j) => crawl_from(ps, j),
    }
}

/// The bodies of the pages at positions `path`.
pub open spec fn bodies_at(ps: Seq<PageEntryModel>, path: Seq<int>) -> Seq<Seq<char>> {
    path.map_values(|j: int| ps[j].body)
}

/// Find the page with URL `url`, searching from the front.
fn find_url(store: &PageStore, url: &String) -> (r: Option<usize>)
    ensures
        match r {
            Some(i) => find_url_spec(store@, url@, 0) == Some(i as int) && i < store.pages.len(),
            None => find_url_spec(store@, url@, 0) is None,
        },
{
    let n = store.pages.len();
    let mut j: usize = 0;
    while j < n
        invariant
            0 <= j <= n,
            n == store.pages.len(),
            store@.len() == n,
            find_url_spec(store@, url@, 0) == find_url_spec(store@, url@, j as int),
        decreases n - j,
    {
        if store.pages[j].url == *url {
            return Some(j);
        }
        j = j + 1;
    }
    None
}

/// Fetch every page of the collection whose first page has URL
/// `start_url`: exactly the pages reachable by following `next` until it
/// is absent or the current page equals the last page, in order. A start
/// URL not present in the store yields no pages.
pub fn fetch_pages(store: &PageStore, start_url: &String) -> (r: Vec<String>)
    requires
        store_wf(store@),
    ensures
        match find_url_spec(store@, start_url@, 0) {
            None => r@.len() == 0,
            Some(i0) => r@.map_values(|s: String| s@) == bodies_at(store@, crawl_from(store@, i0)),
        },
{
    let ghost ps = store@;
    let mut out: Vec<String> = Vec::new();
    let mut cur: Option<usize> = find_url(store, start_url);
    let ghost target: Seq<Seq<char>> = match cur {
        Some(i) => bodies_at(ps, crawl_from(ps, i as int)),
        None => Seq::empty(),
    };
    while cur.is_some()
        invariant
            store_wf(ps),
            ps == store@,
            ps.len() == store.pages.len(),
            cur matches Some(i) ==> i < store.pages.len(),
            target == match cur {
                Some(i) => out@.map_values(|s: String| s@) + bodies_at(ps, crawl_from(ps, i as int)),
                None => out@.map_values(|s: String| s@),
            },
        decreases (match cur {
            Some(i) => store.pages@.len() - i,
            None => 0,
        }),
    {
        let i = cur.unwrap();
        out.push(store.pages[i].body.clone());
        let nxt = match next_page_link(&store.pages[i].rels) {
            Some(u) => find_url(store, &u),
            None => None,
        };
        proof {
            let path = crawl_from(ps, i as int);
            match next_index_of(ps, i as int) {
                None => {
                    assert(path =~= seq![i as int]);
                    assert(bodies_at(ps, path) =~= seq![ps[i as int].body]);
                    assert(out@.map_values(|s: String| s@) =~= out@.map_values(
                        |s: String| s@,
                    ).drop_last() + seq![ps[i as int].body]);
                },
                Some(j) => {
                    assert(path =~= seq![i as int] + crawl_from(ps, j));
                    assert(bodies_at(ps, path) =~= seq![ps[i as int].body] + bodies_at(
                        ps,
                        crawl_from(ps, j),
                    ));
                    assert(out@.map_values(|s: String| s@) =~= out@.map_values(
                        |s: String| s@,
                    ).drop_last() + seq![ps[i as int].body]);
                },
            }
        }
        cur = nxt;
    }
    out
}

} // verus!
