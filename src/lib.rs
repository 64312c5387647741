//! Locates, validates and installs the Ripple language server for an editor
//! extension, and builds the command that launches it.
//!
//! All decisions are made by verified code. The host's side effects (PATH
//! lookups, file checks, package installs, status notices) are requested as
//! actions by [`resolver::RippleExtension::step`] and carried out by the caller.

pub mod command;
pub mod manifest;
pub mod paths;
pub mod resolver;
pub mod version;
