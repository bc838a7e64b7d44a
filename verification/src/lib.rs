//! A concurrent crawl-and-sync engine for mirroring a hierarchical
//! tree of remote resources, exposed by a paginated REST API, onto
//! local storage.
//!
//! Three components carry the engine. The task orchestrator
//! ([`barrier`], [`permits`], [`orchestrator`]) schedules a recursive,
//! unbounded fan-out of tasks under a completion barrier with a
//! deterministic wake and a fixed pool of concurrency permits. The
//! fetch client ([`pagination`], [`backoff`], [`urls`]) follows
//! link-relation pagination and retries rate-limited requests with
//! exponential backoff and jitter. The sync engine ([`selection`],
//! [`download`]) decides which remote files are missing or stale and
//! downloads them crash-safely, through a temporary file renamed onto
//! the destination in one atomic step.
//!
//! Around them stand the data model ([`canvas`]), the per-resource
//! expander decisions ([`plans`], [`links`], [`videos`]) and the text
//! machinery they share ([`text`]). What is inherently I/O — sockets,
//! disks, the executor — lives in the unverified shell around this
//! crate; every decision the shell takes, it takes by calling in here.

pub mod backoff;
pub mod barrier;
pub mod canvas;
pub mod download;
pub mod links;
pub mod orchestrator;
pub mod pagination;
pub mod permits;
pub mod plans;
pub mod selection;
pub mod text;
pub mod urls;
pub mod videos;

use vstd::prelude::*;

verus! {

/// Capacity of the concurrency permit pool: the largest number of tasks
/// that may be mid-request at once.
pub const PERMIT_CAPACITY: u64 = 8;

/// Base backoff delay in milliseconds for the first retry of a
/// rate-limited request.
pub const BACKOFF_BASE_MS: u64 = 500;

} // verus!
