//! Translation of a resolved dependency graph into BitBake recipe fields.
//!
//! The library takes an immutable snapshot of a package's resolved
//! dependencies, classifies each dependency by its source, chooses a fetch
//! revision for git sources, optionally annotates registry sources with a
//! content checksum, computes a version-stability directive from the
//! project's own checkout state, and assembles the sorted source-URI block
//! and the ordered side-variable block of the recipe.

pub mod assemble;
pub mod checksum;
pub mod entry;
pub mod gitrev;
pub mod laws;
pub mod meta;
pub mod model;
pub mod policy;
pub mod text;
