//! Extraction of function signatures from a type-checked item tree.
//!
//! The crate reads a tree of items in the shape a compiler frontend hands
//! out after name resolution, keeps the free functions, turns each parameter
//! and return type into a canonical name, and collects the signatures in the
//! order the items were visited. The collected signatures can be rendered as
//! a textual dump, one line per function.

pub mod canon;
pub mod collect;
pub mod context;
pub mod error;
pub mod model;
pub mod report;
pub mod signature;
pub mod syntax;
