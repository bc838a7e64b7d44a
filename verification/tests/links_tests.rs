//! Link naming and HTML mining.

use canvas_sync::links::{
    course_file_digits, cut_at_query, disposition_filename, last_path_segment,
    link_display_name, link_file, plan_html_links,
};

#[test]
fn disposition_name_extraction() {
    assert_eq!(
        disposition_filename(r#"attachment; filename="report.pdf""#),
        Some("report.pdf".to_string())
    );
    // The capture is greedy: up to the last quote.
    assert_eq!(
        disposition_filename(r#"attachment; filename="a "quoted" name.txt""#),
        Some(r#"a "quoted" name.txt"#.to_string())
    );
    assert_eq!(disposition_filename("attachment"), None);
    assert_eq!(disposition_filename(r#"filename=""#), None);
}

#[test]
fn last_segment_extraction() {
    assert_eq!(
        last_path_segment("https://c.test/files/slide.pdf"),
        Some("slide.pdf".to_string())
    );
    assert_eq!(last_path_segment("https://c.test/files/"), None);
    assert_eq!(last_path_segment("no-separator"), None);
}

#[test]
fn display_name_fallback_chain() {
    assert_eq!(
        link_display_name(Some(r#"attachment; filename="a.txt""#), "https://c.test/b.txt"),
        "a.txt"
    );
    assert_eq!(
        link_display_name(Some("attachment"), "https://c.test/b.txt"),
        "b.txt"
    );
    assert_eq!(link_display_name(None, "https://c.test/b.txt"), "b.txt");
    assert_eq!(link_display_name(None, "opaque"), "unknown");
}

#[test]
fn bare_link_record() {
    let f = link_file("img.png", "https://c.test/img.png", "2024-05-01T12:00:00+00:00", "dest");
    assert_eq!(f.id, 0);
    assert_eq!(f.size, 0);
    assert!(!f.locked_for_user);
    assert_eq!(f.display_name, "img.png");
    assert_eq!(f.filepath, "dest/img.png");
}

#[test]
fn course_file_reference_digits() {
    assert_eq!(
        course_file_digits("/courses/123/files/4567"),
        Some("4567".to_string())
    );
    assert_eq!(
        course_file_digits("https://c.test/courses/1/files/2/download"),
        Some("2".to_string())
    );
    assert_eq!(course_file_digits("/courses//files/2"), None);
    assert_eq!(course_file_digits("/courses/1/files/"), None);
    assert_eq!(course_file_digits("/course/1/files/2"), None);
    // The first full reference wins, not the first course prefix.
    assert_eq!(
        course_file_digits("/courses/x/courses/9/files/8"),
        Some("8".to_string())
    );
}

#[test]
fn query_cut() {
    assert_eq!(cut_at_query("https://a/b?x=1"), "https://a/b");
    assert_eq!(cut_at_query("https://a/b#frag"), "https://a/b");
    assert_eq!(cut_at_query("https://a/b"), "https://a/b");
}

#[test]
fn html_mining() {
    let html = r#"
        <html><body>
        <a href="https://c.test/courses/10/files/77?wrap=1">handout</a>
        <a href="https://elsewhere.test/courses/10/files/78">foreign</a>
        <a href="https://c.test/about">plain</a>
        <img src="https://c.test/images/logo.png">
        <img src="https://c.test/equation_images/x%5E2">
        <img src="https://cdn.other/pic.png">
        </body></html>
    "#;
    let plan = plan_html_links(html, "https://c.test");
    assert_eq!(plan.file_api_urls, vec!["https://c.test/api/v1/files/77".to_string()]);
    assert_eq!(plan.image_links, vec!["https://c.test/images/logo.png".to_string()]);
}
