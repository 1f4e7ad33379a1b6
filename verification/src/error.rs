//! Errors reported by serialization, deserialization and connection setup.
use vstd::prelude::*;

verus! {

/// Everything that can go wrong while saving, loading or connecting.
#[derive(Debug)]
pub enum SavefileError {
    /// The data was written with a layout this program does not understand.
    IncompatibleSchema { message: String },
    /// The input ended before the value was complete.
    ShortRead,
    /// A string in the input was not valid UTF-8.
    InvalidUtf8,
    /// A character in the input was not a Unicode scalar value.
    InvalidChar,
    /// An enum discriminant, option tag or boolean in the input had no meaning.
    BadDiscriminant,
    /// The input did not start with the expected file header.
    NotASavefile,
    /// The data was written by a newer version of this library's format.
    IncompatibleSavefileLibraryVersion,
    /// The data was written with a newer data version than the reader knows.
    WrongVersion,
    /// A compressed stream was found, which this build cannot read.
    CompressionSupportNotCompiledIn,
    /// A method has more than 64 arguments.
    TooManyArguments,
    /// The called implementation panicked.
    CalleePanic { msg: String },
    /// Some other failure, described by the message.
    GeneralError { msg: String },
}

} // verus!
