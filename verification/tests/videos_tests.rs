//! Video pass decisions.

use canvas_sync::videos::{
    date_digits, extension_of, master_playlist_url, max_bandwidth_index, parse_i64_digits,
    session_base_url, start_time_millis, stream_file_url, uri_first_segment, video_file_name,
    video_timestamp,
};

#[test]
fn highest_bandwidth_picked_last_on_tie() {
    assert_eq!(max_bandwidth_index(&vec![]), None);
    assert_eq!(max_bandwidth_index(&vec![500]), Some(0));
    assert_eq!(max_bandwidth_index(&vec![100, 900, 300]), Some(1));
    // Ties resolve to the last maximal variant.
    assert_eq!(max_bandwidth_index(&vec![900, 100, 900]), Some(2));
}

#[test]
fn stream_urls() {
    let base = session_base_url("media.test", "S1", "D1", "V1");
    assert_eq!(base, "https://media.test/sessions/S1/D1-V1.hls");
    assert_eq!(
        master_playlist_url(base.as_str()),
        "https://media.test/sessions/S1/D1-V1.hls/master.m3u8"
    );
    assert_eq!(
        stream_file_url(base.as_str(), "720p/index.m3u8"),
        "https://media.test/sessions/S1/D1-V1.hls/720p/index.m3u8"
    );
}

#[test]
fn uri_segments_and_extensions() {
    assert_eq!(uri_first_segment("720p/index.m3u8"), "720p");
    assert_eq!(uri_first_segment("plain"), "plain");
    assert_eq!(extension_of("segment0001.ts"), "ts");
    assert_eq!(extension_of("dir/part.mp4"), "mp4");
    assert_eq!(extension_of("noext"), "");
    assert_eq!(extension_of(".hidden"), "");
}

#[test]
fn video_names() {
    assert_eq!(video_file_name("Lecture 1", "mp4"), "Lecture 1.mp4");
    assert_eq!(video_file_name("Lecture 1", ""), "Lecture 1");
}

#[test]
fn date_envelope() {
    assert_eq!(date_digits("/Date(1714564800000)/"), Some("1714564800000".to_string()));
    assert_eq!(date_digits("noise /Date(5)/ tail"), Some("5".to_string()));
    assert_eq!(date_digits("/Date()/"), None);
    assert_eq!(date_digits("/Date(12"), None);
    assert_eq!(date_digits("2024-05-01"), None);
}

#[test]
fn digit_parsing() {
    assert_eq!(parse_i64_digits("0"), Some(0));
    assert_eq!(parse_i64_digits("1714564800000"), Some(1_714_564_800_000));
    assert_eq!(parse_i64_digits("9223372036854775807"), Some(i64::MAX));
    assert_eq!(parse_i64_digits("9223372036854775808"), None);
    assert_eq!(parse_i64_digits(""), None);
    assert_eq!(parse_i64_digits("12a"), None);
}

#[test]
fn start_time_and_rendering() {
    let ms = start_time_millis("/Date(1714564800000)/").unwrap();
    assert_eq!(ms, 1_714_564_800_000);
    let text = video_timestamp("/Date(1714564800000)/").unwrap();
    assert_eq!(text, "2024-05-01T12:00:00+00:00");
    assert_eq!(start_time_millis("/Date(x)/"), None);
    assert_eq!(video_timestamp("no envelope"), None);
}
