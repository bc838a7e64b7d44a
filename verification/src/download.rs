//! The crash-safe download protocol.
//!
//! A download streams into a temporary file beside the destination,
//! named from a deterministic hash of the display name with a fixed
//! suffix. On any failure the temporary file is removed and the
//! destination is left exactly as it was; on success the temporary
//! file's modification time is set to the remote timestamp and the file
//! is renamed onto the destination in one atomic step, which does not
//! change the time just set. No reader ever observes a partially
//! written destination.
//!
//! [`FsModel`] is the one-destination filesystem as plain data;
//! [`download_atomic`] runs the protocol on it and carries the
//! crash-safety guarantee as its contract. The I/O shell performs the
//! same steps on the real filesystem with the paths derived here.

use vstd::prelude::*;

use crate::selection::rfc3339_instant_of;
use crate::text::{dec_digits, join_path, joined, name_hash, name_hash_spec, u64_to_dec};

verus! {

/// The name of the temporary file for a download with this display
/// name: the decimal hash of the name with the fixed temp suffix.
pub open spec fn temp_name_spec(name: Seq<char>) -> Seq<char> {
    dec_digits(name_hash_spec(name) as int) + seq!['.', 't', 'm', 'p']
}

/// The temporary file name for one display name.
pub fn temp_name(name: &str) -> (r: String)
    ensures
        r@ == temp_name_spec(name@),
{
    let mut s = u64_to_dec(name_hash(name));
    proof {
        reveal_strlit(".tmp");
        assert(".tmp"@ =~= seq!['.', 't', 'm', 'p']);
    }
    s.append(".tmp");
    s
}

/// The full temporary path: in the same directory as the destination.
pub fn temp_path_in(dir: &str, name: &str) -> (r: String)
    ensures
        r@ == joined(dir@, temp_name_spec(name@)),
{
    let t = temp_name(name);
    join_path(dir, t.as_str())
}

/// The state of one download destination: the final path and the
/// temporary path beside it, as plain data.
#[derive(Clone, Debug, PartialEq)]
pub struct FsModel {
    /// Whether the destination path exists.
    pub dest_exists: bool,
    /// Content of the destination, when it exists.
    pub dest_bytes: Vec<u8>,
    /// Modification time of the destination, seconds part.
    pub dest_mtime_secs: i64,
    /// Modification time of the destination, nanoseconds part.
    pub dest_mtime_nanos: u32,
    /// Whether the temporary path exists.
    pub temp_exists: bool,
    /// Content of the temporary file, when it exists.
    pub temp_bytes: Vec<u8>,
}

fn copy_bytes(src: &Vec<u8>, upto: usize) -> (r: Vec<u8>)
    requires
        upto <= src.len(),
    ensures
        r@ == src@.take(upto as int),
{
    let mut out: Vec<u8> = Vec::new();
    let mut i: usize = 0;
    while i < upto
        invariant
            0 <= i <= upto <= src.len(),
            out@ == src@.take(i as int),
        decreases upto - i,
    {
        out.push(src[i]);
        proof {
            assert(src@.take(i as int + 1) =~= src@.take(i as int).push(src@[i as int]));
        }
        i = i + 1;
    }
    out
}

/// Run the download protocol against a destination in state `fs`.
/// `body` is what the remote stream would deliver; `interrupted` says
/// whether the stream fails mid-way; `mtime_set_ok` whether setting the
/// modification time succeeds (its failure is logged and non-fatal).
///
/// Either the destination ends fully written with the body's bytes and,
/// when the time was set, the remote-derived modification time — or the
/// destination is untouched; in both cases no temporary file is left.
pub fn download_atomic(
    fs: &mut FsModel,
    body: &Vec<u8>,
    interrupted: bool,
    mtime_set_ok: bool,
    updated_at: &str,
) -> (ok: bool)
    requires
        rfc3339_instant_of(updated_at@) is Some,
    ensures
        ok == !interrupted,
        !ok ==> {
            &&& final(fs).dest_exists == old(fs).dest_exists
            &&& final(fs).dest_bytes@ == old(fs).dest_bytes@
            &&& final(fs).dest_mtime_secs == old(fs).dest_mtime_secs
            &&& final(fs).dest_mtime_nanos == old(fs).dest_mtime_nanos
            &&& !final(fs).temp_exists
        },
        ok ==> {
            &&& final(fs).dest_exists
            &&& final(fs).dest_bytes@ == body@
            &&& !final(fs).temp_exists
            &&& mtime_set_ok ==> (
            final(fs).dest_mtime_secs,
            final(fs).dest_mtime_nanos,
            ) == rfc3339_instant_of(updated_at@)->Some_0
        },
{
    // Stream into the temporary file; an interruption leaves a partial
    // temporary file behind, which is removed before reporting failure.
    if interrupted {
        let half = body.len() / 2;
        fs.temp_bytes = copy_bytes(body, half);
        fs.temp_exists = true;
        fs.temp_bytes = Vec::new();
        fs.temp_exists = false;
        return false;
    }
    fs.temp_bytes = copy_bytes(body, body.len());
    fs.temp_exists = true;
    proof {
        assert(body@.take(body@.len() as int) =~= body@);
    }
    // Set the temporary file's modification time to the remote
    // timestamp; a failure here is logged by the shell and non-fatal.
    let stamp = parse_updated(updated_at);
    // Atomic rename onto the destination: content and time move as one.
    fs.dest_bytes = Vec::new();
    core::mem::swap(&mut fs.dest_bytes, &mut fs.temp_bytes);
    fs.dest_exists = true;
    fs.temp_exists = false;
    if mtime_set_ok {
        fs.dest_mtime_secs = stamp.0;
        fs.dest_mtime_nanos = stamp.1;
    }
    true
}

/// How a checked download ended.
#[derive(Clone, Copy, Debug, PartialEq, Eq, Structural)]
pub enum DownloadOutcome {
    /// The destination is fully written.
    Completed,
    /// The stream failed; the destination is untouched.
    Failed,
    /// The record's timestamp does not parse; nothing was touched.
    BadTimestamp,
}

/// Run the download protocol after first checking that the record's
/// remote timestamp parses; a record with an unparsable timestamp is
/// refused with the filesystem untouched.
pub fn download_checked(
    fs: &mut FsModel,
    body: &Vec<u8>,
    interrupted: bool,
    mtime_set_ok: bool,
    updated_at: &str,
) -> (r: DownloadOutcome)
    ensures
        r is BadTimestamp <==> rfc3339_instant_of(updated_at@) is None,
        r is Completed <==> (rfc3339_instant_of(updated_at@) is Some && !interrupted),
        r is Completed ==> {
            &&& final(fs).dest_exists
            &&& final(fs).dest_bytes@ == body@
            &&& !final(fs).temp_exists
            &&& mtime_set_ok ==> (
            final(fs).dest_mtime_secs,
            final(fs).dest_mtime_nanos,
            ) == rfc3339_instant_of(updated_at@)->Some_0
        },
        r is BadTimestamp ==> *final(fs) == *old(fs),
        r is Failed ==> {
            &&& final(fs).dest_exists == old(fs).dest_exists
            &&& final(fs).dest_bytes@ == old(fs).dest_bytes@
            &&& final(fs).dest_mtime_secs == old(fs).dest_mtime_secs
            &&& final(fs).dest_mtime_nanos == old(fs).dest_mtime_nanos
            &&& !final(fs).temp_exists
        },
{
    match crate::selection::parse_rfc3339(updated_at) {
        None => DownloadOutcome::BadTimestamp,
        Some(_) => {
            if download_atomic(fs, body, interrupted, mtime_set_ok, updated_at) {
                DownloadOutcome::Completed
            } else {
                DownloadOutcome::Failed
            }
        },
    }
}

/// The remote timestamp of a queued file, which the selection step
/// guarantees to parse.
fn parse_updated(updated_at: &str) -> (r: (i64, u32))
    requires
        rfc3339_instant_of(updated_at@) is Some,
    ensures
        r == rfc3339_instant_of(updated_at@)->Some_0,
{
    match crate::selection::parse_rfc3339(updated_at) {
        Some(p) => p,
        None => (0, 0),
    }
}

} // verus!
