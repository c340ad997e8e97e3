//! Core of a source-based package installer.
//!
//! The crate models the dependency-aware install orchestrator: given a
//! package name it decides, step by step, which external operations to
//! perform (resolve metadata, clear staging, clone, read the executable-name
//! marker, check presence, confirm, build, move the binary, download, log)
//! and in which order. All decisions live here and are verified; the caller
//! performs the filesystem, network and subprocess work and reports each
//! outcome back as an event.

pub mod descriptor;
pub mod naming;
pub mod search;
pub mod machine;
pub mod laws;
