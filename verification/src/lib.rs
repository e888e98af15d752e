//! Verified core of a mailbox backup pipeline.
//!
//! The library fingerprints message bodies, derives content-addressed
//! archive entry names, writes messages folder by folder into an archive
//! container, isolates per-message and per-folder failures, and keeps the
//! byte totals and progress counts that a run reports.

pub mod archive;
pub mod arguments;
pub mod fingerprint;
pub mod mail;
pub mod progress;
pub mod tar_sink;
pub mod time_delta;
pub mod zip_sink;
