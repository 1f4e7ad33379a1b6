//! A binary serialization library with verified encoders and decoders.
use vstd::prelude::*;

pub mod abi;
pub mod attrs;
pub mod codegen;
pub mod containers;
pub mod interfaces;
pub mod introspect;
pub mod error;
pub mod le;
pub mod packed;
pub mod prim;
pub mod samples;
pub mod save;
pub mod schema;
pub mod serializer;
pub mod traits;
pub mod versioning;

verus! {

} // verus!
