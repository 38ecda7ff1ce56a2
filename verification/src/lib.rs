//! Locks the sources of Nix derivations.
//!
//! A source is named by a spec such as `github:owner/repo`. Locking it finds the revision that the
//! spec stands for now, and the hash of what is fetched from there.
//!
//! The crate holds every decision of that work; whoever drives it sends the requests, runs `nix`
//! and hands back what came out.

pub mod address;
pub mod laws;
pub mod lock_file;
pub mod nix_prefetch;
pub mod report;
pub mod run;
pub mod search;
pub mod sources;
pub mod text;
pub mod timestamp;
pub mod writer;
