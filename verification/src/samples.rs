//! Example data types with verified encodings.
pub mod basic;
pub mod versions;
pub mod aligned;
pub mod generic;
pub mod named;
pub mod packed;
pub mod small;
pub mod recursive;
pub mod bench;
pub mod named_introspect;
pub mod removed;
pub mod recursive_type;
pub mod changed_type;
pub mod arrays;
