//! Verified core of a `cargo` front end that layers profile-guided
//! optimization on top of an ordinary release build.
//!
//! The crate holds the decisions of the build pipeline as plain functions
//! with contracts: which caller-supplied arguments are forwarded, how the
//! compiler-flag variable is composed, what the `cargo` invocation looks
//! like, and what is shown to the user for each diagnostic record. Spawning
//! the process and writing to the terminal are left to the caller.

pub mod build;
pub mod pgo;
pub mod style;
