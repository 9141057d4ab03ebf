//! Installs directory overlays: a source tree is laid onto a destination
//! directory, with regular-expression ignore rules, `{name}` placeholders in
//! destination paths filled from a profile, an overwrite policy, and hook
//! scripts before and after. This crate holds the decisions; the caller does
//! the file-system work they call for.
pub mod laws;
pub mod options;
pub mod overlay;
pub mod profile;
pub mod text;
