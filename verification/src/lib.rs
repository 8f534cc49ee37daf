//! Locates the first failing step of the most recent failed CI run of a
//! repository and extracts that step's raw log from the run's compressed
//! log archive.
//!
//! The crate holds the resolution pipeline and the archive-scanning
//! engine: the ordered traversal of runs, jobs and steps to the failure
//! point, the derivation of the log-entry path from it, and the scan of
//! the archive for that one entry. The authenticated transport, the JSON
//! decoding and the printing are collaborators outside this crate; they
//! drive the pipeline through `pipeline::start` and `pipeline::step` and
//! are specified only at that boundary.

pub mod conclusion;
pub mod errors;
pub mod fetcher;
pub mod logpath;
pub mod model;
pub mod pipeline;
pub mod resolve;
pub mod scanner;
pub mod text;
