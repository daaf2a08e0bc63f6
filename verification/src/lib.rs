//! Package resolution for an npm-style registry, without the network.
//!
//! The crate classifies package specifiers, decides what to do with each
//! registry response, reads the registry document, selects a version,
//! normalises the published digest and assembles the outcome. The caller
//! performs the HTTP requests and feeds the responses in.

pub mod batch;
pub mod document;
pub mod error;
pub mod integrity;
pub mod outcome;
pub mod registry;
pub mod remove;
pub mod resolve;
pub mod semver;
pub mod specifier;
pub mod text;
pub mod version;
