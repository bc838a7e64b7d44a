//! The staleness filter: selection, warnings, idempotence.

use canvas_sync::canvas::File;
use canvas_sync::selection::{select_for_download, Candidate, LocalProbe};

fn remote_file(name: &str, updated_at: &str, locked: bool) -> File {
    File {
        id: 7,
        folder_id: 3,
        display_name: name.to_string(),
        size: 1024,
        url: format!("https://example.test/files/{name}"),
        updated_at: updated_at.to_string(),
        locked_for_user: locked,
        filepath: String::new(),
    }
}

fn absent() -> LocalProbe {
    LocalProbe { exists: false, mtime_secs: 0, mtime_nanos: 0 }
}

fn present(mtime_secs: i64) -> LocalProbe {
    LocalProbe { exists: true, mtime_secs, mtime_nanos: 0 }
}

const TS_NEW: &str = "2024-05-01T12:00:00+00:00";

/// A missing local file is selected, and its path is resolved under the
/// base directory from the sanitized display name.
#[test]
fn missing_file_selected_with_resolved_path() {
    let cands = vec![Candidate { file: remote_file("notes.pdf", TS_NEW, false), probe: absent() }];
    let sel = select_for_download(&cands, "course/files", false);
    assert_eq!(sel.files.len(), 1);
    assert_eq!(sel.files[0].filepath, "course/files/notes.pdf");
    assert_eq!(sel.files[0].display_name, "notes.pdf");
    assert!(sel.warned.is_empty());
}

/// The sanitized name defuses path traversal in a display name.
#[test]
fn traversal_name_sanitized() {
    let cands =
        vec![Candidate { file: remote_file("../../evil.sh", TS_NEW, false), probe: absent() }];
    let sel = select_for_download(&cands, "base", false);
    assert_eq!(sel.files.len(), 1);
    let sanitized = sanitize_filename::sanitize("../../evil.sh");
    assert_eq!(sel.files[0].filepath, format!("base/{sanitized}"));
    // The sanitized component holds no separator: the file cannot
    // escape the base directory.
    assert!(!sanitized.contains('/'));
}

/// A file with `locked` set is never selected, whatever the timestamps,
/// and draws no warning.
#[test]
fn locked_file_never_selected() {
    let cands = vec![
        Candidate { file: remote_file("a.txt", TS_NEW, true), probe: absent() },
        Candidate { file: remote_file("b.txt", TS_NEW, true), probe: present(0) },
        Candidate { file: remote_file("c.txt", "not-a-timestamp", true), probe: absent() },
    ];
    let sel = select_for_download(&cands, "base", true);
    assert!(sel.files.is_empty());
    assert!(sel.warned.is_empty());
}

/// A file whose remote timestamp does not parse is excluded and draws
/// exactly one warning naming it.
#[test]
fn unparsable_timestamp_excluded_with_one_warning() {
    let cands = vec![
        Candidate { file: remote_file("bad.txt", "yesterday-ish", false), probe: absent() },
        Candidate { file: remote_file("good.txt", TS_NEW, false), probe: absent() },
    ];
    let sel = select_for_download(&cands, "base", false);
    assert_eq!(sel.files.len(), 1);
    assert_eq!(sel.files[0].display_name, "good.txt");
    assert_eq!(sel.warned, vec!["bad.txt".to_string()]);
}

/// An existing local copy with a strictly newer remote is selected only
/// under the overwrite-newer mode.
#[test]
fn newer_remote_needs_mode_flag() {
    // Local mtime 2024-04-30T00:00:00Z = 1714435200; remote is newer.
    let local = present(1_714_435_200);
    let with_mode = select_for_download(
        &vec![Candidate { file: remote_file("f.txt", TS_NEW, false), probe: local }],
        "base",
        true,
    );
    assert_eq!(with_mode.files.len(), 1);

    let without_mode = select_for_download(
        &vec![Candidate { file: remote_file("f.txt", TS_NEW, false), probe: local }],
        "base",
        false,
    );
    assert!(without_mode.files.is_empty());
}

/// An existing local copy at least as new as the remote is kept as-is.
#[test]
fn fresh_local_copy_not_selected() {
    // TS_NEW is 2024-05-01T12:00:00Z = 1714564800; local equal and newer.
    for secs in [1_714_564_800, 1_800_000_000] {
        let sel = select_for_download(
            &vec![Candidate { file: remote_file("f.txt", TS_NEW, false), probe: present(secs) }],
            "base",
            true,
        );
        assert!(sel.files.is_empty(), "local mtime {secs} should not be overwritten");
    }
}

/// Selection is idempotent: filtering the selected files again, with the
/// probes unchanged, returns them unchanged.
#[test]
fn selection_idempotent() {
    let probes = [absent(), present(0), absent(), present(1_800_000_000)];
    let cands = vec![
        Candidate { file: remote_file("one.txt", TS_NEW, false), probe: probes[0] },
        Candidate { file: remote_file("two.txt", TS_NEW, false), probe: probes[1] },
        Candidate { file: remote_file("three.txt", "garbage", false), probe: probes[2] },
        Candidate { file: remote_file("four.txt", TS_NEW, false), probe: probes[3] },
    ];
    let first = select_for_download(&cands, "base", true);

    // Pair each selected file with the probe of the candidate it came
    // from; no filesystem change happened in between.
    let kept_probes = [probes[0], probes[1]];
    let again: Vec<Candidate> = first
        .files
        .iter()
        .zip(kept_probes.iter())
        .map(|(f, p)| Candidate { file: f.clone(), probe: *p })
        .collect();
    let second = select_for_download(&again, "base", true);
    assert_eq!(second.files, first.files);
    assert!(second.warned.is_empty());
}
