//! Generator for the `[lints.clippy]` table of a Cargo manifest.
//!
//! The catalog of known lints is classified according to a fixed policy and
//! the resulting settings are rendered as TOML text.  Every function in this
//! crate is verified against the contract stated in its header.
//!
//! - [`lint`]: lint names, groups and levels;
//! - [`catalog`]: the catalog and what it lists under a group;
//! - [`setting`]: settings, groups of settings and the configuration;
//! - [`error`]: the ways classification fails;
//! - [`classify`]: allow-overrides and the exhaustive split of a group;
//! - [`policy`]: the fixed policy and the configuration it gives;
//! - [`emit`]: the configuration as text;
//! - [`plain`]: why nothing that is emitted needs escaping;
//! - [`subsequence`]: order-keeping selections of a sequence.

pub mod catalog;
pub mod classify;
pub mod emit;
pub mod error;
pub mod lint;
pub mod plain;
pub mod policy;
pub mod setting;
pub mod subsequence;
