//! The decisions of the derive and interface macros, taken on plain models of
//! the declarations they read: which fields are written and how each is read
//! back, the schema of a record, how an argument of an interface method
//! travels, and which interface declarations are refused.
pub mod fields;
pub mod record_schema;
pub mod abi_types;
pub mod exportable;
pub mod packing;
