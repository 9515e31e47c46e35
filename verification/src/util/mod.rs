//! Additional functionality that does not strictly belong to a category.  Global helpers.

/// JSON numbers, written and read by the chain's standard library.
pub mod json;
/// Utility functions that assist in chain communication and data parsing.
pub mod prov_helpers;
/// Utility functions that assist in performing common tasks needed by routes.
pub mod route_helpers;
/// Numbers written out as text.
pub mod text;
/// Semantic versions, parsed and ordered by the `semver` crate.
pub mod version;
