//! The crash-safe download protocol on the filesystem model.

use canvas_sync::download::{
    download_atomic, download_checked, temp_name, temp_path_in, DownloadOutcome, FsModel,
};

const TS: &str = "2024-05-01T12:00:00+00:00";
const TS_EPOCH: i64 = 1_714_564_800;

fn existing_dest() -> FsModel {
    FsModel {
        dest_exists: true,
        dest_bytes: vec![1, 2, 3],
        dest_mtime_secs: 1_000,
        dest_mtime_nanos: 42,
        temp_exists: false,
        temp_bytes: Vec::new(),
    }
}

fn empty_dest() -> FsModel {
    FsModel {
        dest_exists: false,
        dest_bytes: Vec::new(),
        dest_mtime_secs: 0,
        dest_mtime_nanos: 0,
        temp_exists: false,
        temp_bytes: Vec::new(),
    }
}

/// A successful download leaves the destination fully written with the
/// body's bytes and the remote-derived mtime, and no temporary file.
#[test]
fn success_writes_all_bytes_and_mtime() {
    let mut fs = empty_dest();
    let body = vec![10u8, 20, 30, 40, 50];
    let ok = download_atomic(&mut fs, &body, false, true, TS);
    assert!(ok);
    assert!(fs.dest_exists);
    assert_eq!(fs.dest_bytes, body);
    assert_eq!(fs.dest_mtime_secs, TS_EPOCH);
    assert_eq!(fs.dest_mtime_nanos, 0);
    assert!(!fs.temp_exists);
}

/// A mid-stream failure leaves a pre-existing destination untouched and
/// no leftover temporary file.
#[test]
fn interrupted_leaves_destination_untouched() {
    let mut fs = existing_dest();
    let body = vec![9u8; 100];
    let ok = download_atomic(&mut fs, &body, true, true, TS);
    assert!(!ok);
    assert!(fs.dest_exists);
    assert_eq!(fs.dest_bytes, vec![1, 2, 3]);
    assert_eq!(fs.dest_mtime_secs, 1_000);
    assert_eq!(fs.dest_mtime_nanos, 42);
    assert!(!fs.temp_exists);
}

/// A mid-stream failure with no pre-existing destination leaves none.
#[test]
fn interrupted_creates_nothing() {
    let mut fs = empty_dest();
    let ok = download_atomic(&mut fs, &vec![1u8, 2], true, true, TS);
    assert!(!ok);
    assert!(!fs.dest_exists);
    assert!(!fs.temp_exists);
}

/// A failure to set the modification time is non-fatal: the bytes still
/// arrive in full.
#[test]
fn mtime_failure_is_non_fatal() {
    let mut fs = existing_dest();
    let body = vec![7u8, 8];
    let ok = download_atomic(&mut fs, &body, false, false, TS);
    assert!(ok);
    assert!(fs.dest_exists);
    assert_eq!(fs.dest_bytes, body);
    assert!(!fs.temp_exists);
}

/// An overwrite replaces the previous content entirely.
#[test]
fn success_overwrites_previous_content() {
    let mut fs = existing_dest();
    let body = vec![99u8];
    let ok = download_atomic(&mut fs, &body, false, true, TS);
    assert!(ok);
    assert_eq!(fs.dest_bytes, vec![99u8]);
    assert_eq!(fs.dest_mtime_secs, TS_EPOCH);
}

/// A record with an unparsable timestamp is refused before any write.
#[test]
fn checked_download_refuses_bad_timestamp() {
    let mut fs = existing_dest();
    let before = fs.clone();
    let r = download_checked(&mut fs, &vec![1u8], false, true, "not-a-date");
    assert_eq!(r, DownloadOutcome::BadTimestamp);
    assert_eq!(fs, before);
}

/// The checked entry reports the stream failure and completion.
#[test]
fn checked_download_outcomes() {
    let mut fs = existing_dest();
    let r = download_checked(&mut fs, &vec![5u8, 6], true, true, TS);
    assert_eq!(r, DownloadOutcome::Failed);
    assert_eq!(fs.dest_bytes, vec![1, 2, 3]);
    assert!(!fs.temp_exists);

    let r = download_checked(&mut fs, &vec![5u8, 6], false, true, TS);
    assert_eq!(r, DownloadOutcome::Completed);
    assert_eq!(fs.dest_bytes, vec![5, 6]);
    assert_eq!(fs.dest_mtime_secs, TS_EPOCH);
}

/// The temporary name is deterministic per display name, carries the
/// fixed suffix, and differs between names.
#[test]
fn temp_name_deterministic_and_suffixed() {
    let a1 = temp_name("report.pdf");
    let a2 = temp_name("report.pdf");
    let b = temp_name("slides.pdf");
    assert_eq!(a1, a2);
    assert_ne!(a1, b);
    assert!(a1.ends_with(".tmp"));
    assert!(b.ends_with(".tmp"));
}

/// The temporary file lives in the destination's own directory.
#[test]
fn temp_path_beside_destination() {
    let p = temp_path_in("course/files", "report.pdf");
    assert!(p.starts_with("course/files/"));
    assert!(p.ends_with(".tmp"));
    assert_eq!(p, format!("course/files/{}", temp_name("report.pdf")));
}
