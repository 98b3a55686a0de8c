//! Diagnostic translation for a language server: the checker's diagnostics, which are anchored
//! to byte ranges of named source files, become the editor protocol's diagnostics, which are
//! anchored to zero-based line and column positions.

pub mod analysis;
pub mod diagnostics;
pub mod files;
pub mod model;
pub mod theorems;
