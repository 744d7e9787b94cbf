//! Verified core of a playlist audio downloader.
//!
//! The library holds everything the downloader decides or computes on plain
//! values: request URLs and bodies for the catalog, search and conversion
//! services, filename sanitization, the first-result search policy, the
//! model of the streamed output file, and the pagination state machine that
//! drives one processed-or-skipped iteration per playlist track. The
//! surrounding binary performs the HTTP calls and file writes and feeds the
//! results back in.

pub mod download;
pub mod engine;
pub mod spotify;
pub mod strutil;
pub mod youtube;
