//! Containers keyed by text, kept in insertion order with unique keys.

pub mod string_map;
pub mod string_set;

pub use string_map::{Duplicate, StringMap};
pub use string_set::StringSet;
