//! Text helpers: decimal rendering, joining, trimming, hashing.

use canvas_sync::text::{join_path, name_hash, str_eq, trim_trailing_slashes, u64_to_dec};

#[test]
fn decimal_rendering() {
    assert_eq!(u64_to_dec(0), "0");
    assert_eq!(u64_to_dec(7), "7");
    assert_eq!(u64_to_dec(10), "10");
    assert_eq!(u64_to_dec(409), "409");
    assert_eq!(u64_to_dec(18_446_744_073_709_551_615), "18446744073709551615");
}

#[test]
fn path_joining() {
    assert_eq!(join_path("a", "b"), "a/b");
    assert_eq!(join_path("", "b"), "/b");
    assert_eq!(join_path("course/files", "notes.pdf"), "course/files/notes.pdf");
}

#[test]
fn trailing_slash_trimming() {
    assert_eq!(trim_trailing_slashes("https://c.test/"), "https://c.test");
    assert_eq!(trim_trailing_slashes("https://c.test///"), "https://c.test");
    assert_eq!(trim_trailing_slashes("https://c.test"), "https://c.test");
    assert_eq!(trim_trailing_slashes(""), "");
    assert_eq!(trim_trailing_slashes("///"), "");
}

#[test]
fn string_equality() {
    assert!(str_eq("", ""));
    assert!(str_eq("abc", "abc"));
    assert!(!str_eq("abc", "abd"));
    assert!(!str_eq("abc", "ab"));
    assert!(str_eq("naïve", "naïve"));
    assert!(!str_eq("naïve", "naive"));
}

#[test]
fn name_hash_deterministic_and_spread() {
    assert_eq!(name_hash("report.pdf"), name_hash("report.pdf"));
    assert_ne!(name_hash("report.pdf"), name_hash("report.pdg"));
    assert_ne!(name_hash("a"), name_hash("b"));
    // 64-bit FNV-1a of the empty input is the offset basis.
    assert_eq!(name_hash(""), 0xcbf29ce484222325);
}
