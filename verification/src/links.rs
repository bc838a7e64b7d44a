//! Link handling: naming a bare download link, and mining rendered
//! HTML for file links and images worth queueing.
//!
//! A bare link (an image, a handed-out URL) has no file record behind
//! it; its display name is taken from the `Content-Disposition` header
//! when one names a file, else from the last segment of the URL path,
//! else a fixed placeholder. Rendered HTML is mined for anchors that
//! point into the course's own files and for images served by the
//! course host.

use vstd::prelude::*;

use crate::canvas::{File, FileModel};
use crate::text::{
    digits_end, first_match_from, joined, last_index_of, lemma_no_match_between,
    lemma_none_no_match, matches_at, sanitize_name, sanitized_of,
};

verus! {

/// The path prefix of a course-file link.
pub open spec fn courses_key() -> Seq<char> {
    seq!['/', 'c', 'o', 'u', 'r', 's', 'e', 's', '/']
}

/// The path segment that precedes a file id.
pub open spec fn files_key() -> Seq<char> {
    seq!['/', 'f', 'i', 'l', 'e', 's', '/']
}

/// Whether a course-file reference starts at position `i`: the course
/// prefix, a course id, the file segment, a file id.
pub open spec fn course_file_at(s: Seq<char>, i: int) -> bool {
    let d1 = digits_end(s, i + 9);
    let c0 = d1 + 7;
    &&& matches_at(s, courses_key(), i)
    &&& d1 > i + 9
    &&& matches_at(s, files_key(), d1)
    &&& digits_end(s, c0) > c0
}

/// The first position at or after `from` where a course-file reference
/// starts.
pub open spec fn first_course_file_from(s: Seq<char>, from: int) -> Option<int>
    decreases s.len() - from,
    when 0 <= from <= s.len()
{
    if from >= s.len() {
        None
    } else if course_file_at(s, from) {
        Some(from)
    } else {
        first_course_file_from(s, from + 1)
    }
}

/// The file id digits of the first course-file reference in `s`.
pub open spec fn course_file_digits_spec(s: Seq<char>) -> Option<Seq<char>> {
    match first_course_file_from(s, 0) {
        None => None,
        Some(i) => {
            let c0 = digits_end(s, i + 9) + 7;
            Some(s.subrange(c0, digits_end(s, c0)))
        },
    }
}

proof fn lemma_skip_course(s: Seq<char>, from: int, to: int)
    requires
        0 <= from <= to <= s.len(),
        forall|j: int| from <= j < to ==> !matches_at(s, courses_key(), j),
    ensures
        first_course_file_from(s, from) == first_course_file_from(s, to),
    decreases to - from,
{
    if from < to {
        assert(!course_file_at(s, from));
        lemma_skip_course(s, from + 1, to);
    }
}

proof fn lemma_no_course_tail(s: Seq<char>, from: int)
    requires
        0 <= from <= s.len(),
        forall|j: int| from <= j ==> !matches_at(s, courses_key(), j),
    ensures
        first_course_file_from(s, from) is None,
    decreases s.len() - from,
{
    if from < s.len() {
        assert(!course_file_at(s, from));
        lemma_no_course_tail(s, from + 1);
    }
}

/// Extract the file id digits of the first course-file reference in a
/// link, as the remote API expects them.
pub fn course_file_digits(s: &str) -> (r: Option<String>)
    ensures
        match r {
            Some(d) => course_file_digits_spec(s@) == Some(d@),
            None => course_file_digits_spec(s@) is None,
        },
{
    let n = s.unicode_len();
    let mut from: usize = 0;
    loop
        invariant
            0 <= from <= n,
            n == s@.len(),
            first_course_file_from(s@, 0) == first_course_file_from(s@, from as int),
        decreases n - from,
    {
        proof {
            reveal_strlit("/courses/");
            assert("/courses/"@ =~= courses_key());
            reveal_strlit("/files/");
            assert("/files/"@ =~= files_key());
        }
        let i = match crate::text::find_sub_from(s, "/courses/", from) {
            None => {
                proof {
                    lemma_none_no_match(s@, courses_key(), from as int);
                    lemma_no_course_tail(s@, from as int);
                }
                return None;
            },
            Some(i) => i,
        };
        proof {
            lemma_no_match_between(s@, courses_key(), from as int, i as int);
            lemma_skip_course(s@, from as int, i as int);
        }
        let d1 = crate::text::scan_digits(s, i + 9);
        let mut ok = d1 > i + 9;
        if ok {
            if n >= 7 && d1 <= n - 7 {
                ok = crate::text::match_at(s, "/files/", d1);
            } else {
                ok = false;
            }
        }
        if ok {
            let c0 = d1 + 7;
            let c1 = crate::text::scan_digits(s, c0);
            if c1 > c0 {
                proof {
                    assert(course_file_at(s@, i as int));
                }
                return Some(s.substring_char(c0, c1).to_owned());
            }
        }
        proof {
            assert(!course_file_at(s@, i as int));
        }
        from = i + 1;
    }
}

/// The segment between a host and a file id in the API.
pub open spec fn api_files_key() -> Seq<char> {
    seq!['/', 'a', 'p', 'i', '/', 'v', '1', '/', 'f', 'i', 'l', 'e', 's', '/']
}

/// The marker of an equation image, which is rendered, not downloaded.
pub open spec fn equation_key() -> Seq<char> {
    seq!['e', 'q', 'u', 'a', 't', 'i', 'o', 'n', '_', 'i', 'm', 'a', 'g', 'e', 's']
}

/// The link up to its query or fragment.
pub open spec fn path_part(h: Seq<char>) -> Seq<char> {
    let q = match first_match_from(h, seq!['?'], 0) {
        None => h.len() as int,
        Some(i) => i,
    };
    let f = match first_match_from(h, seq!['#'], 0) {
        None => h.len() as int,
        Some(i) => i,
    };
    h.subrange(0, if q <= f { q } else { f })
}

/// Cut a link at its query or fragment.
pub fn cut_at_query(h: &str) -> (r: String)
    ensures
        r@ == path_part(h@),
{
    proof {
        reveal_strlit("?");
        assert("?"@ =~= seq!['?']);
        reveal_strlit("#");
        assert("#"@ =~= seq!['#']);
    }
    let n = h.unicode_len();
    let q = match crate::text::find_sub(h, "?") {
        None => n,
        Some(i) => i,
    };
    let f = match crate::text::find_sub(h, "#") {
        None => n,
        Some(i) => i,
    };
    let end = if q <= f {
        q
    } else {
        f
    };
    h.substring_char(0, end).to_owned()
}

/// Whether a link points at the course host.
pub open spec fn on_host(h: Seq<char>, canvas: Seq<char>) -> bool {
    canvas.len() <= h.len() && h.subrange(0, canvas.len() as int) == canvas
}

/// The API endpoint to fetch for an anchor: present exactly when the
/// anchor points at the course host and its path carries a course-file
/// reference.
pub open spec fn anchor_file_url(h: Seq<char>, canvas: Seq<char>) -> Option<Seq<char>> {
    if on_host(h, canvas) {
        match course_file_digits_spec(path_part(h)) {
            Some(d) => Some(canvas + api_files_key() + d),
            None => None,
        }
    } else {
        None
    }
}

/// The endpoints to fetch for a list of anchors, in order.
pub open spec fn file_urls_from(hs: Seq<Seq<char>>, canvas: Seq<char>) -> Seq<Seq<char>>
    decreases hs.len(),
{
    if hs.len() == 0 {
        Seq::empty()
    } else {
        let rest = file_urls_from(hs.drop_first(), canvas);
        match anchor_file_url(hs[0], canvas) {
            Some(u) => seq![u] + rest,
            None => rest,
        }
    }
}

/// Whether an image is downloaded: served by the course host, and not
/// a rendered equation.
pub open spec fn keep_image(src: Seq<char>, canvas: Seq<char>) -> bool {
    on_host(src, canvas) && first_match_from(src, equation_key(), 0) is None
}

/// The image links kept, in order.
pub open spec fn images_from(ss: Seq<Seq<char>>, canvas: Seq<char>) -> Seq<Seq<char>>
    decreases ss.len(),
{
    if ss.len() == 0 {
        Seq::empty()
    } else {
        let rest = images_from(ss.drop_first(), canvas);
        if keep_image(ss[0], canvas) {
            seq![ss[0]] + rest
        } else {
            rest
        }
    }
}

/// What the anchors of a rendered document link to: the `href` of each
/// `a` element that carries one, in document order. A function of the
/// text alone.
pub uninterp spec fn anchor_hrefs_of(html: Seq<char>) -> Seq<Seq<char>>;

/// Relies on select's `Document`: parses the HTML and hands out each
/// anchor's `href` attribute, in document order.
#[verifier::external_body]
fn extract_anchor_hrefs(html: &str) -> (r: Vec<String>)
    ensures
        r@.map_values(|s: String| s@) == anchor_hrefs_of(html@),
{
    let mut out = Vec::new();
    for node in select::document::Document::from(html).find(select::predicate::Name("a")) {
        if let Some(href) = node.attr("href") {
            out.push(href.to_string());
        }
    }
    out
}

/// What the images of a rendered document point at: the `src` of each
/// `img` element that carries one, in document order. A function of
/// the text alone.
pub uninterp spec fn image_srcs_of(html: Seq<char>) -> Seq<Seq<char>>;

/// Relies on select's `Document`: parses the HTML and hands out each
/// image's `src` attribute, in document order.
#[verifier::external_body]
fn extract_image_srcs(html: &str) -> (r: Vec<String>)
    ensures
        r@.map_values(|s: String| s@) == image_srcs_of(html@),
{
    let mut out = Vec::new();
    for node in select::document::Document::from(html).find(select::predicate::Name("img")) {
        if let Some(src) = node.attr("src") {
            out.push(src.to_string());
        }
    }
    out
}

/// What mining one rendered document yields.
pub struct HtmlPlan {
    /// The file records to fetch and queue, by their API endpoints.
    pub file_api_urls: Vec<String>,
    /// The images to download as bare links.
    pub image_links: Vec<String>,
}

/// Mine a rendered document: keep every anchor that points at a course
/// file, as its API endpoint, and every image the course host serves,
/// except rendered equations.
pub fn plan_html_links(html: &str, canvas_url: &str) -> (r: HtmlPlan)
    ensures
        r.file_api_urls@.map_values(|s: String| s@) == file_urls_from(
            anchor_hrefs_of(html@),
            canvas_url@,
        ),
        r.image_links@.map_values(|s: String| s@) == images_from(
            image_srcs_of(html@),
            canvas_url@,
        ),
{
    let hrefs = extract_anchor_hrefs(html);
    let srcs = extract_image_srcs(html);
    let ghost hs = hrefs@.map_values(|s: String| s@);
    let ghost ss = srcs@.map_values(|s: String| s@);

    let mut file_api_urls: Vec<String> = Vec::new();
    let n = hrefs.len();
    let mut i: usize = 0;
    proof {
        assert(hs.subrange(0, n as int) =~= hs);
    }
    while i < n
        invariant
            0 <= i <= n,
            n == hrefs.len(),
            hs == hrefs@.map_values(|s: String| s@),
            hs.len() == n,
            file_urls_from(hs, canvas_url@) == file_api_urls@.map_values(|s: String| s@)
                + file_urls_from(hs.subrange(i as int, n as int), canvas_url@),
        decreases n - i,
    {
        proof {
            let rest = hs.subrange(i as int, n as int);
            assert(rest[0] == hs[i as int]);
            assert(rest.drop_first() =~= hs.subrange(i as int + 1, n as int));
        }
        let h = &hrefs[i];
        if crate::text::str_starts_with(h.as_str(), canvas_url) {
            let path = cut_at_query(h.as_str());
            match course_file_digits(path.as_str()) {
                Some(d) => {
                    let mut u = canvas_url.to_owned();
                    proof {
                        reveal_strlit("/api/v1/files/");
                        assert("/api/v1/files/"@ =~= api_files_key());
                    }
                    u.append("/api/v1/files/");
                    u.append(d.as_str());
                    file_api_urls.push(u);
                    proof {
                        let urls = file_api_urls@.map_values(|s: String| s@);
                        assert(urls =~= urls.drop_last() + seq![
                            anchor_file_url(hs[i as int], canvas_url@)->Some_0,
                        ]);
                        assert(urls.drop_last() + seq![
                            anchor_file_url(hs[i as int], canvas_url@)->Some_0,
                        ] + file_urls_from(hs.subrange(i as int + 1, n as int), canvas_url@)
                            =~= urls.drop_last() + (seq![
                            anchor_file_url(hs[i as int], canvas_url@)->Some_0,
                        ] + file_urls_from(hs.subrange(i as int + 1, n as int), canvas_url@)));
                    }
                },
                None => {},
            }
        }
        i = i + 1;
    }
    proof {
        assert(hs.subrange(n as int, n as int) =~= Seq::<Seq<char>>::empty());
    }

    let mut image_links: Vec<String> = Vec::new();
    let m = srcs.len();
    let mut j: usize = 0;
    proof {
        assert(ss.subrange(0, m as int) =~= ss);
    }
    while j < m
        invariant
            0 <= j <= m,
            m == srcs.len(),
            ss == srcs@.map_values(|s: String| s@),
            ss.len() == m,
            images_from(ss, canvas_url@) == image_links@.map_values(|s: String| s@) + images_from(
                ss.subrange(j as int, m as int),
                canvas_url@,
            ),
        decreases m - j,
    {
        proof {
            let rest = ss.subrange(j as int, m as int);
            assert(rest[0] == ss[j as int]);
            assert(rest.drop_first() =~= ss.subrange(j as int + 1, m as int));
            reveal_strlit("equation_images");
            assert("equation_images"@ =~= equation_key());
        }
        let src = &srcs[j];
        if crate::text::str_starts_with(src.as_str(), canvas_url) && !crate::text::contains_sub(
            src.as_str(),
            "equation_images",
        ) {
            image_links.push(src.clone());
            proof {
                let kept = image_links@.map_values(|s: String| s@);
                assert(kept =~= kept.drop_last() + seq![ss[j as int]]);
                assert(kept.drop_last() + seq![ss[j as int]] + images_from(
                    ss.subrange(j as int + 1, m as int),
                    canvas_url@,
                ) =~= kept.drop_last() + (seq![ss[j as int]] + images_from(
                    ss.subrange(j as int + 1, m as int),
                    canvas_url@,
                )));
            }
        }
        j = j + 1;
    }
    proof {
        assert(ss.subrange(m as int, m as int) =~= Seq::<Seq<char>>::empty());
    }
    HtmlPlan { file_api_urls, image_links }
}

/// The attribute text that introduces a file name in a
/// `Content-Disposition` header.
pub open spec fn filename_key() -> Seq<char> {
    seq!['f', 'i', 'l', 'e', 'n', 'a', 'm', 'e', '=', '"']
}

/// The file name a `Content-Disposition` header carries: the text
/// between the first `filename="` and the last `"`, if any follows.
pub open spec fn disposition_filename_spec(h: Seq<char>) -> Option<Seq<char>> {
    match first_match_from(h, filename_key(), 0) {
        None => None,
        Some(i) => match last_index_of(h, '"') {
            None => None,
            Some(q) => if q >= i + 10 {
                Some(h.subrange(i + 10, q))
            } else {
                None
            },
        },
    }
}

/// Extract the file name of a `Content-Disposition` header.
pub fn disposition_filename(h: &str) -> (r: Option<String>)
    ensures
        match r {
            Some(name) => disposition_filename_spec(h@) == Some(name@),
            None => disposition_filename_spec(h@) is None,
        },
{
    proof {
        reveal_strlit("filename=\"");
        assert("filename=\""@ =~= filename_key());
    }
    let n = h.unicode_len();
    let i = match crate::text::find_sub(h, "filename=\"") {
        Some(i) => i,
        None => return None,
    };
    let q = match crate::text::rfind_char(h, '"') {
        Some(q) => q,
        None => return None,
    };
    if q >= i + 10 {
        Some(h.substring_char(i + 10, q).to_owned())
    } else {
        None
    }
}

/// The last segment of a URL path: the non-empty text after the last
/// separator, if the link ends in one such.
pub open spec fn last_segment_spec(s: Seq<char>) -> Option<Seq<char>> {
    match last_index_of(s, '/') {
        None => None,
        Some(i) => if i + 1 < s.len() {
            Some(s.subrange(i + 1, s.len() as int))
        } else {
            None
        },
    }
}

/// Extract the last path segment of a link.
pub fn last_path_segment(s: &str) -> (r: Option<String>)
    ensures
        match r {
            Some(seg) => last_segment_spec(s@) == Some(seg@),
            None => last_segment_spec(s@) is None,
        },
{
    let n = s.unicode_len();
    match crate::text::rfind_char(s, '/') {
        None => None,
        Some(i) => {
            if i + 1 < n {
                Some(s.substring_char(i + 1, n).to_owned())
            } else {
                None
            }
        },
    }
}

/// The display name for a bare link: the `Content-Disposition` file
/// name when present, else the last URL path segment, else "unknown".
pub fn link_display_name(disposition: Option<&str>, link: &str) -> (r: String)
    ensures
        match disposition {
            Some(h) => match disposition_filename_spec(h@) {
                Some(name) => r@ == name,
                None => match last_segment_spec(link@) {
                    Some(seg) => r@ == seg,
                    None => r@ == "unknown"@,
                },
            },
            None => match last_segment_spec(link@) {
                Some(seg) => r@ == seg,
                None => r@ == "unknown"@,
            },
        },
{
    if let Some(h) = disposition {
        if let Some(name) = disposition_filename(h) {
            return name;
        }
    }
    match last_path_segment(link) {
        Some(seg) => seg,
        None => "unknown".to_owned(),
    }
}

/// The record for a bare link: no remote identity, not locked, named
/// `name`, destined for `path` under its sanitized name. `updated_at`
/// is whatever timestamp the probing shell derived for the link.
pub fn link_file(name: &str, link: &str, updated_at: &str, path: &str) -> (r: File)
    ensures
        r@ == (FileModel {
            id: 0,
            folder_id: 0,
            display_name: name@,
            size: 0,
            url: link@,
            updated_at: updated_at@,
            locked_for_user: false,
            filepath: joined(path@, sanitized_of(name@)),
        }),
{
    let san = sanitize_name(name);
    File {
        id: 0,
        folder_id: 0,
        display_name: name.to_owned(),
        size: 0,
        url: link.to_owned(),
        updated_at: updated_at.to_owned(),
        locked_for_user: false,
        filepath: crate::text::join_path(path, san.as_str()),
    }
}

} // verus!
