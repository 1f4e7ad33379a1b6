//! The implementation's side of a call: reading the arguments and writing the
//! outcome.
use vstd::prelude::*;
use vstd::utf8::encode_utf8;

use crate::abi::connection::{AbiErrorMsg, CallOutcome, RawAbiCallResult};
use crate::error::SavefileError;
use crate::le::le_bytes;
use crate::serializer::{Deserializer, Serializer};
use crate::traits::{Deserialize, Model, Serialize};

verus! {

/// The outcome of a call that returned a value with model `m`: the data
/// version as four bytes, then the value.
pub open spec fn returned<R: Serialize>(version: u32, m: <R as Model>::M) -> CallOutcome {
    CallOutcome::Success(le_bytes(version as nat, 4) + R::encode(version, m))
}

/// The outcome of a call whose method panicked with message `msg`.
pub open spec fn panicked(msg: Seq<char>) -> CallOutcome {
    CallOutcome::Panic(encode_utf8(msg))
}

/// The outcome of a call that could not be made, for the reason `msg`.
pub open spec fn refused(msg: Seq<char>) -> CallOutcome {
    CallOutcome::AbiError(encode_utf8(msg))
}

/// Reads the arguments of a call.
pub fn read_args<A: Deserialize>(version: u32, data: &[u8]) -> (r: Result<A, SavefileError>)
    ensures
        match A::decode(version, data@) {
            Some((m, _)) => r matches Ok(v) && v.model() == m,
            None => r is Err,
        },
{
    let mut deserializer = Deserializer::new(data, version);
    A::deserialize(&mut deserializer)
}

/// The outcome of a call that returned `value`.
pub fn return_value<R: Serialize>(version: u32, value: &R) -> (r: RawAbiCallResult)
    requires
        R::valid(version, value.model()),
    ensures
        r.model() == returned::<R>(version, value.model()),
{
    let mut serializer = Serializer::new(version);
    serializer.write_u32(version);
    match value.serialize(&mut serializer) {
        Ok(()) => {},
        Err(_) => {
            assert(false);
        },
    }
    RawAbiCallResult::Success { data: serializer.writer }
}

/// The outcome of a call whose method panicked with `msg`.
pub fn panic_outcome(msg: &str) -> (r: RawAbiCallResult)
    ensures
        r.model() == panicked(msg@),
{
    let s = String::from_str(msg);
    let bytes = s.as_str().as_bytes();
    RawAbiCallResult::Panic(AbiErrorMsg { error_msg_utf8: slice_to_vec(bytes) })
}

/// The outcome of a call that could not be made, for the reason `msg`.
pub fn refusal(msg: &str) -> (r: RawAbiCallResult)
    ensures
        r.model() == refused(msg@),
{
    let s = String::from_str(msg);
    let bytes = s.as_str().as_bytes();
    RawAbiCallResult::AbiError(AbiErrorMsg { error_msg_utf8: slice_to_vec(bytes) })
}

pub(crate) fn slice_to_vec(b: &[u8]) -> (r: Vec<u8>)
    ensures
        r@ == b@,
{
    let mut v: Vec<u8> = Vec::new();
    let mut i: usize = 0;
    while i < b.len()
        invariant
            i <= b.len(),
            v@ == b@.take(i as int),
        decreases b.len() - i,
    {
        v.push(b[i]);
        assert(v@ =~= b@.take(i + 1));
        i = i + 1;
    }
    assert(b@.take(i as int) =~= b@);
    v
}

} // verus!
