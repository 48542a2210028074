//! Locates the KCL language server binary, or installs it from the latest
//! upstream release, for the platform a host reports.
//!
//! The resolver in `resolver` decides; the host performs what it asks for
//! (search-path lookups, file checks, release queries, downloads) and hands
//! back the outcomes. `laws` states what every resolution obeys.

pub mod error;
pub mod install;
pub mod laws;
pub mod platform;
pub mod release;
pub mod resolver;
