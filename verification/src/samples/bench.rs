//! Writing a small record, as a benchmark does.
use vstd::prelude::*;

use crate::error::SavefileError;
use crate::samples::basic::NotSoSmallStruct;
use crate::serializer::Serializer;
use crate::traits::{Model, Serialize};

verus! {

/// Appends the encoding of `input` to `output`.
pub fn serialize_small_struct(input: NotSoSmallStruct, output: &mut Serializer)
    ensures
        final(output).file_version == old(output).file_version,
        final(output).writer@ == old(output).writer@ + <NotSoSmallStruct as Serialize>::encode(
            old(output).file_version,
            input.model(),
        ),
{
    let _ = input.serialize(output);
}

} // verus!
