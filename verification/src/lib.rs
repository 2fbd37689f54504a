//! Locates a project's build manifest, extracts the `local-install`
//! metadata table embedded in it, and translates each dependency
//! descriptor into a normalized set of command-line install flags.
//!
//! The library holds the decision logic: version normalization, the
//! dependency-descriptor classification, relative-path resolution, the
//! descriptor-to-flags translation, and the upward directory search.
//! Reading files and the process environment is left to the caller,
//! which hands manifest text in as a plain string.

pub mod extract;
pub mod model;
pub mod paths;
pub mod toml_read;
pub mod translate;
pub mod version;
pub mod walk;
