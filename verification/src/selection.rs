//! The staleness filter of the sync engine.
//!
//! For each candidate remote file the filter resolves a sanitized local
//! path, drops locked files, drops (with one warning each) files whose
//! remote timestamp does not parse, and keeps the rest when the local
//! path does not exist or the remote copy is strictly newer and the
//! overwrite-newer mode is on. The filesystem is consulted only through
//! a [`LocalProbe`] taken beforehand, so the filter itself is pure.

use vstd::prelude::*;

use crate::canvas::{File, FileModel};
use crate::text::{join_path, joined, sanitize_name, sanitized_of};

verus! {

/// What probing the local destination of one candidate found.
#[derive(Clone, Copy, Debug, PartialEq, Eq, Structural)]
pub struct LocalProbe {
    /// Whether the resolved local path exists.
    pub exists: bool,
    /// Modification time of the local file, seconds part; meaningful
    /// only when `exists` holds.
    pub mtime_secs: i64,
    /// Modification time of the local file, nanoseconds part.
    pub mtime_nanos: u32,
}

/// One remote file together with the probe of its local destination.
#[derive(Clone, Debug, PartialEq)]
pub struct Candidate {
    pub file: File,
    pub probe: LocalProbe,
}

/// Mathematical image of a [`Candidate`].
pub struct CandidateModel {
    pub file: FileModel,
    pub probe: LocalProbe,
}

impl View for Candidate {
    type V = CandidateModel;

    open spec fn view(&self) -> CandidateModel {
        CandidateModel { file: self.file@, probe: self.probe }
    }
}

/// What parsing an ISO-8601 timestamp yields: `None` when the text does
/// not parse, otherwise the instant as seconds and nanoseconds since the
/// epoch. The result depends on the text alone.
pub uninterp spec fn rfc3339_instant_of(s: Seq<char>) -> Option<(i64, u32)>;

/// Relies on chrono's `DateTime::parse_from_rfc3339`: success and the
/// decoded instant depend on the timestamp text alone.
#[verifier::external_body]
pub(crate) fn parse_rfc3339(s: &str) -> (r: Option<(i64, u32)>)
    ensures
        r == rfc3339_instant_of(s@),
{
    match chrono::DateTime::parse_from_rfc3339(s) {
        Ok(dt) => Some((dt.timestamp(), dt.timestamp_subsec_nanos())),
        Err(_) => None,
    }
}

/// Whether the remote instant is strictly newer than the probed local
/// modification time.
pub open spec fn remote_newer(remote: (i64, u32), probe: LocalProbe) -> bool {
    probe.mtime_secs < remote.0 || (probe.mtime_secs == remote.0 && probe.mtime_nanos < remote.1)
}

/// Whether a candidate's remote timestamp parses.
pub open spec fn timestamp_ok(f: FileModel) -> bool {
    rfc3339_instant_of(f.updated_at) is Some
}

/// The candidate's file with its local path resolved: the base directory
/// joined with the sanitized display name.
pub open spec fn resolved_model(f: FileModel, base: Seq<char>) -> FileModel {
    FileModel { filepath: joined(base, sanitized_of(f.display_name)), ..f }
}

/// Whether a candidate is kept: not locked, timestamp parses, and the
/// local copy is missing, or stale while overwrite-newer mode is on.
pub open spec fn keep_spec(c: CandidateModel, download_newer: bool) -> bool {
    &&& !c.file.locked_for_user
    &&& timestamp_ok(c.file)
    &&& (!c.probe.exists || (remote_newer(rfc3339_instant_of(c.file.updated_at)->Some_0, c.probe)
        && download_newer))
}

/// Whether a candidate draws a warning: not locked, but its remote
/// timestamp does not parse.
pub open spec fn warns_spec(c: CandidateModel) -> bool {
    !c.file.locked_for_user && !timestamp_ok(c.file)
}

/// The kept candidates, in order, each with its file's path resolved.
pub open spec fn select_cands(cs: Seq<CandidateModel>, base: Seq<char>, newer: bool) -> Seq<
    CandidateModel,
>
    decreases cs.len(),
{
    if cs.len() == 0 {
        Seq::empty()
    } else {
        let rest = select_cands(cs.drop_first(), base, newer);
        if keep_spec(cs[0], newer) {
            seq![
                CandidateModel { file: resolved_model(cs[0].file, base), probe: cs[0].probe },
            ] + rest
        } else {
            rest
        }
    }
}

/// The display names warned about, one per warning candidate, in order.
pub open spec fn warned_names(cs: Seq<CandidateModel>) -> Seq<Seq<char>>
    decreases cs.len(),
{
    if cs.len() == 0 {
        Seq::empty()
    } else {
        let rest = warned_names(cs.drop_first());
        if warns_spec(cs[0]) {
            seq![cs[0].file.display_name] + rest
        } else {
            rest
        }
    }
}

/// The selected files themselves.
pub open spec fn selected_files(cs: Seq<CandidateModel>, base: Seq<char>, newer: bool) -> Seq<
    FileModel,
> {
    select_cands(cs, base, newer).map_values(|c: CandidateModel| c.file)
}

/// A locked file is never selected, whatever the timestamps; no
/// selected file has an unparsable remote timestamp; and every
/// selected file leaves with a non-empty resolved local path, the
/// invariant the download queue relies on.
pub proof fn lemma_selected_are_sound(cs: Seq<CandidateModel>, base: Seq<char>, newer: bool)
    ensures
        forall|k: int|
            0 <= k < select_cands(cs, base, newer).len() ==> {
                let c = #[trigger] select_cands(cs, base, newer)[k];
                &&& !c.file.locked_for_user
                &&& timestamp_ok(c.file)
                &&& c.file.filepath.len() >= 1
            },
    decreases cs.len(),
{
    if cs.len() > 0 {
        lemma_selected_are_sound(cs.drop_first(), base, newer);
        let rest = select_cands(cs.drop_first(), base, newer);
        if keep_spec(cs[0], newer) {
            let rc = CandidateModel {
                file: resolved_model(cs[0].file, base),
                probe: cs[0].probe,
            };
            assert forall|k: int|
                0 <= k < select_cands(cs, base, newer).len() implies {
                let c = #[trigger] select_cands(cs, base, newer)[k];
                &&& !c.file.locked_for_user
                &&& timestamp_ok(c.file)
                &&& c.file.filepath.len() >= 1
            } by {
                if k == 0 {
                    assert(select_cands(cs, base, newer)[0] == rc);
                    assert(rc.file.filepath.len() >= 1);
                } else {
                    assert(select_cands(cs, base, newer)[k] == rest[k - 1]);
                }
            }
        }
    }
}

/// A candidate whose remote timestamp does not parse draws exactly one
/// warning: the warnings for the whole list are the warnings for the
/// list without it, plus one.
pub proof fn lemma_unparsable_warned_once(cs: Seq<CandidateModel>, i: int)
    requires
        0 <= i < cs.len(),
        warns_spec(cs[i]),
    ensures
        warned_names(cs).len() == warned_names(cs.remove(i)).len() + 1,
    decreases cs.len(),
{
    if i == 0 {
        assert(cs.remove(0) =~= cs.drop_first());
    } else {
        lemma_unparsable_warned_once(cs.drop_first(), i - 1);
        assert(cs.remove(i).drop_first() =~= cs.drop_first().remove(i - 1));
        assert(cs.remove(i)[0] == cs[0]);
    }
}

/// The filter is idempotent: with no filesystem change between the runs
/// (the probes unchanged), filtering the filtered candidates again keeps
/// them all, with the same resolved paths.
pub proof fn lemma_select_idempotent(cs: Seq<CandidateModel>, base: Seq<char>, newer: bool)
    ensures
        select_cands(select_cands(cs, base, newer), base, newer) == select_cands(cs, base, newer),
    decreases cs.len(),
{
    if cs.len() > 0 {
        lemma_select_idempotent(cs.drop_first(), base, newer);
        let rest = select_cands(cs.drop_first(), base, newer);
        if keep_spec(cs[0], newer) {
            let rc = CandidateModel {
                file: resolved_model(cs[0].file, base),
                probe: cs[0].probe,
            };
            let s = seq![rc] + rest;
            assert(s[0] == rc);
            assert(s.drop_first() =~= rest);
            assert(keep_spec(rc, newer));
            assert(resolved_model(rc.file, base) == rc.file);
            assert(select_cands(s, base, newer) =~= seq![rc] + select_cands(rest, base, newer));
        }
    }
}

/// Copy a file record with its local path resolved under `base`.
pub fn resolve_file(f: &File, base: &str) -> (r: File)
    ensures
        r@ == resolved_model(f@, base@),
{
    let san = sanitize_name(f.display_name.as_str());
    File {
        id: f.id,
        folder_id: f.folder_id,
        display_name: f.display_name.clone(),
        size: f.size,
        url: f.url.clone(),
        updated_at: f.updated_at.clone(),
        locked_for_user: f.locked_for_user,
        filepath: join_path(base, san.as_str()),
    }
}

/// What the filter produced: the files to download, paths resolved, and
/// the display names of the candidates whose timestamps did not parse.
pub struct Selection {
    pub files: Vec<File>,
    pub warned: Vec<String>,
}

/// Filter the candidates: resolve each local path, drop locked files,
/// drop (warning once each) files with unparsable remote timestamps,
/// keep what is missing locally or newer remotely under the
/// overwrite-newer mode.
pub fn select_for_download(cands: &Vec<Candidate>, base: &str, download_newer: bool) -> (r:
    Selection)
    ensures
        r.files@.map_values(|f: File| f@) == selected_files(
            cands@.map_values(|c: Candidate| c@),
            base@,
            download_newer,
        ),
        r.warned@.map_values(|s: String| s@) == warned_names(cands@.map_values(|c: Candidate| c@)),
{
    let ghost cs = cands@.map_values(|c: Candidate| c@);
    let mut files: Vec<File> = Vec::new();
    let mut warned: Vec<String> = Vec::new();
    let n = cands.len();
    let mut i: usize = 0;
    proof {
        assert(cs.subrange(0, n as int) =~= cs);
    }
    while i < n
        invariant
            0 <= i <= n,
            n == cands.len(),
            cs == cands@.map_values(|c: Candidate| c@),
            cs.len() == n,
            selected_files(cs, base@, download_newer) == files@.map_values(|f: File| f@)
                + selected_files(cs.subrange(i as int, n as int), base@, download_newer),
            warned_names(cs) == warned@.map_values(|s: String| s@) + warned_names(
                cs.subrange(i as int, n as int),
            ),
        decreases n - i,
    {
        proof {
            let rest = cs.subrange(i as int, n as int);
            assert(rest[0] == cs[i as int]);
            assert(rest.drop_first() =~= cs.subrange(i as int + 1, n as int));
        }
        let f = &cands[i].file;
        if !f.locked_for_user {
            match parse_rfc3339(f.updated_at.as_str()) {
                None => {
                    warned.push(f.display_name.clone());
                    proof {
                        assert(warned@.map_values(|s: String| s@) =~= warned@.map_values(
                            |s: String| s@,
                        ).drop_last() + seq![cs[i as int].file.display_name]);
                        assert(warned@.map_values(|s: String| s@).drop_last() + seq![
                            cs[i as int].file.display_name,
                        ] + warned_names(cs.subrange(i as int + 1, n as int)) =~= warned@.map_values(
                            |s: String| s@,
                        ).drop_last() + (seq![cs[i as int].file.display_name] + warned_names(
                            cs.subrange(i as int + 1, n as int),
                        )));
                    }
                },
                Some((secs, nanos)) => {
                    let probe = cands[i].probe;
                    let stale = probe.mtime_secs < secs || (probe.mtime_secs == secs
                        && probe.mtime_nanos < nanos);
                    if !probe.exists || (stale && download_newer) {
                        files.push(resolve_file(f, base));
                        proof {
                            assert(files@.map_values(|g: File| g@) =~= files@.map_values(
                                |g: File| g@,
                            ).drop_last() + seq![resolved_model(cs[i as int].file, base@)]);
                            assert(files@.map_values(|g: File| g@).drop_last() + seq![
                                resolved_model(cs[i as int].file, base@),
                            ] + selected_files(
                                cs.subrange(i as int + 1, n as int),
                                base@,
                                download_newer,
                            ) =~= files@.map_values(|g: File| g@).drop_last() + (seq![
                                resolved_model(cs[i as int].file, base@),
                            ] + selected_files(
                                cs.subrange(i as int + 1, n as int),
                                base@,
                                download_newer,
                            )));
                            assert(seq![
                                CandidateModel {
                                    file: resolved_model(cs[i as int].file, base@),
                                    probe: cs[i as int].probe,
                                },
                            ].map_values(|c: CandidateModel| c.file) =~= seq![
                                resolved_model(cs[i as int].file, base@),
                            ]);
                        }
                    }
                },
            }
        }
        proof {
            let rest = cs.subrange(i as int, n as int);
            let tail = cs.subrange(i as int + 1, n as int);
            if keep_spec(cs[i as int], download_newer) {
                assert(select_cands(rest, base@, download_newer) =~= seq![
                    CandidateModel {
                        file: resolved_model(cs[i as int].file, base@),
                        probe: cs[i as int].probe,
                    },
                ] + select_cands(tail, base@, download_newer));
                assert(selected_files(rest, base@, download_newer) =~= seq![
                    resolved_model(cs[i as int].file, base@),
                ] + selected_files(tail, base@, download_newer));
            } else {
                assert(selected_files(rest, base@, download_newer) =~= selected_files(
                    tail,
                    base@,
                    download_newer,
                ));
            }
            if !warns_spec(cs[i as int]) {
                assert(warned_names(rest) =~= warned_names(tail));
            }
        }
        i = i + 1;
    }
    proof {
        assert(cs.subrange(n as int, n as int) =~= Seq::<CandidateModel>::empty());
    }
    Selection { files, warned }
}

} // verus!
