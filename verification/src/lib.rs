//! Verified core of a working-set trimming tool.
//!
//! The library holds the logic of one cleaning run: accounting the
//! per-process trim observations into a report, the report's invariants,
//! the single-run guard, and the human-readable size formatter. The
//! operating-system calls and the window shell around them live outside
//! the library and feed it plain values.
pub mod guard;
pub mod report;
pub mod run;
pub mod snapshot;
pub mod text;
pub mod trim;
