//! A verified core for a media download worker.
//!
//! The worker accepts a request naming a media id, a cache hash and a
//! credential, resolves per-tier stream URLs through one upstream call,
//! downloads each resolved tier and commits the bytes into a deterministic
//! cache layout.  Everything that decides — building the upstream request
//! body, interpreting the upstream response, choosing which tiers to
//! download, constructing cache paths, and aggregating the final outcome —
//! lives here as verified code.  The surrounding binary performs the actual
//! network and filesystem calls and feeds their results back as events.

pub mod cache;
pub mod fetch;
pub mod laws;
pub mod outcome;
pub mod resolve;
pub mod run;
pub mod text;
pub mod tier;
