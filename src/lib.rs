//! Dependency risk analysis: metadata heuristics, pattern-based source
//! scanning and the dependency graph of a resolved package set.

pub mod analyzer;
pub mod models;
pub mod scanner;
pub mod text;
