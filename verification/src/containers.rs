//! Encodings of strings, sequences, options, results, boxes and tuples.
use vstd::prelude::*;
use vstd::utf8::{decode_utf8, encode_utf8, valid_utf8};

use crate::error::SavefileError;
use crate::le::{le_bytes, le_value, lemma_le_roundtrip, pow256};
use crate::serializer::{Deserializer, Serializer};
use crate::traits::{Deserialize, Model, Roundtrip, Serialize};

verus! {

broadcast use vstd::utf8::encode_utf8_valid_utf8, vstd::utf8::encode_utf8_decode_utf8;

/// The concatenated encodings of the items of `s`.
pub open spec fn encode_items<T: Serialize>(version: u32, s: Seq<<T as Model>::M>) -> Seq<u8>
    decreases s.len(),
{
    if s.len() == 0 {
        Seq::empty()
    } else {
        T::encode(version, s[0]) + encode_items::<T>(version, s.drop_first())
    }
}

/// Decodes `n` items, one after the other, from the front of `s`.
pub open spec fn decode_items<T: Deserialize>(version: u32, s: Seq<u8>, n: nat) -> Option<
    (Seq<<T as Model>::M>, nat),
>
    decreases n,
{
    if n == 0 {
        Some((Seq::empty(), 0))
    } else {
        match T::decode(version, s) {
            Some((m, k)) => match decode_items::<T>(version, s.skip(k as int), (n - 1) as nat) {
                Some((ms, j)) => Some((seq![m] + ms, k + j)),
                None => None,
            },
            None => None,
        }
    }
}

/// Puts already decoded items and their length in front of a further decoding.
pub open spec fn prepend_decoded<A>(ms: Seq<A>, j: nat, r: Option<(Seq<A>, nat)>) -> Option<
    (Seq<A>, nat),
> {
    match r {
        Some((a, b)) => Some((ms + a, j + b)),
        None => None,
    }
}

/// What reading back each item of `s` gives.
pub open spec fn read_back_items<T: Roundtrip>(version: u32, s: Seq<<T as Model>::M>) -> Seq<
    <T as Model>::M,
> {
    s.map_values(|x: <T as Model>::M| T::read_back(version, x))
}

pub proof fn lemma_encode_items_snoc<T: Serialize>(version: u32, s: Seq<<T as Model>::M>, i: int)
    requires
        0 <= i < s.len(),
    ensures
        encode_items::<T>(version, s.take(i + 1)) == encode_items::<T>(version, s.take(i))
            + T::encode(version, s[i]),
    decreases i,
{
    if i == 0 {
        assert(s.take(1).drop_first() =~= Seq::<<T as Model>::M>::empty());
        assert(s.take(0) =~= Seq::<<T as Model>::M>::empty());
        assert(encode_items::<T>(version, Seq::<<T as Model>::M>::empty()) == Seq::<u8>::empty());
        assert(s.take(1)[0] == s[0]);
        assert(encode_items::<T>(version, s.take(1)) =~= T::encode(version, s[0]));
        assert(encode_items::<T>(version, s.take(0)) + T::encode(version, s[0]) =~= T::encode(
            version,
            s[0],
        ));
    } else {
        lemma_encode_items_snoc::<T>(version, s.drop_first(), i - 1);
        assert(s.take(i + 1).drop_first() =~= s.drop_first().take(i));
        assert(s.take(i).drop_first() =~= s.drop_first().take(i - 1));
        assert(encode_items::<T>(version, s.take(i + 1)) =~= encode_items::<T>(version, s.take(i))
            + T::encode(version, s[i]));
    }
}

pub proof fn lemma_items_roundtrip<T: Roundtrip>(
    version: u32,
    s: Seq<<T as Model>::M>,
    rest: Seq<u8>,
)
    requires
        forall|i: int| 0 <= i < s.len() ==> T::valid(version, #[trigger] s[i]),
    ensures
        decode_items::<T>(version, encode_items::<T>(version, s) + rest, s.len()) == Some(
            (read_back_items::<T>(version, s), encode_items::<T>(version, s).len()),
        ),
    decreases s.len(),
{
    if s.len() == 0 {
        assert(encode_items::<T>(version, s) + rest =~= rest);
        assert(read_back_items::<T>(version, s) =~= Seq::<<T as Model>::M>::empty());
    } else {
        let tail = s.drop_first();
        let tail_bytes = encode_items::<T>(version, tail) + rest;
        assert forall|i: int| 0 <= i < tail.len() implies T::valid(version, #[trigger] tail[i]) by {
            assert(tail[i] == s[i + 1]);
        }
        lemma_items_roundtrip::<T>(version, tail, rest);
        assert(T::valid(version, s[0]));
        T::lemma_roundtrip(version, s[0], tail_bytes);
        let all = encode_items::<T>(version, s) + rest;
        assert(all =~= T::encode(version, s[0]) + tail_bytes);
        assert(all.skip(T::encode(version, s[0]).len() as int) =~= tail_bytes);
        assert(seq![T::read_back(version, s[0])] + read_back_items::<T>(version, tail)
            =~= read_back_items::<T>(version, s));
    }
}

impl<T: Model> Model for Vec<T> {
    type M = Seq<<T as Model>::M>;

    open spec fn model(&self) -> Seq<<T as Model>::M> {
        self@.map_values(|x: T| x.model())
    }
}

impl<T: Serialize> Serialize for Vec<T> {
    open spec fn valid(version: u32, m: Seq<<T as Model>::M>) -> bool {
        &&& m.len() <= usize::MAX
        &&& forall|i: int| 0 <= i < m.len() ==> T::valid(version, #[trigger] m[i])
    }

    /// The number of items as eight bytes, then the items one after the other.
    open spec fn encode(version: u32, m: Seq<<T as Model>::M>) -> Seq<u8> {
        le_bytes(m.len(), 8) + encode_items::<T>(version, m)
    }

    fn serialize(&self, serializer: &mut Serializer) -> (r: Result<(), SavefileError>) {
        let ghost start = serializer.writer@;
        let ghost m = self.model();
        let ghost version = serializer.file_version;
        serializer.write_usize(self.len());
        let mut i: usize = 0;
        while i < self.len()
            invariant
                i <= self.len(),
                m == self.model(),
                version == serializer.file_version,
                version == old(serializer).file_version,
                start == old(serializer).writer@,
                serializer.writer@ == start + le_bytes(m.len(), 8) + encode_items::<T>(
                    version,
                    m.take(i as int),
                ),
                forall|j: int| 0 <= j < i ==> T::valid(version, #[trigger] m[j]),
            decreases self.len() - i,
        {
            match self[i].serialize(serializer) {
                Ok(()) => {},
                Err(e) => {
                    assert(!T::valid(version, m[i as int]));
                    return Err(e);
                },
            }
            proof {
                lemma_encode_items_snoc::<T>(version, m, i as int);
            }
            i = i + 1;
        }
        assert(m.take(i as int) =~= m);
        Ok(())
    }
}

impl<T: Deserialize> Deserialize for Vec<T> {
    open spec fn decode(version: u32, s: Seq<u8>) -> Option<(Seq<<T as Model>::M>, nat)> {
        if s.len() >= 8 {
            prepend_decoded(
                Seq::empty(),
                8,
                decode_items::<T>(version, s.skip(8), le_value(s.take(8))),
            )
        } else {
            None
        }
    }

    fn deserialize(deserializer: &mut Deserializer) -> (r: Result<Vec<T>, SavefileError>) {
        let ghost s = deserializer.rest();
        let ghost version = deserializer.file_version;
        let n = match deserializer.read_uint(8) {
            Ok(n) => n,
            Err(e) => {
                return Err(e);
            },
        };
        let ghost start_pos = deserializer.pos;
        let ghost body = deserializer.rest();
        assert(body =~= s.skip(8));
        assert(le_value(s.take(8)) == n);
        let mut out: Vec<T> = Vec::new();
        let mut i: u64 = 0;
        while i < n
            invariant
                i <= n,
                deserializer.wf(),
                deserializer.reader@ == old(deserializer).reader@,
                deserializer.file_version == old(deserializer).file_version,
                version == old(deserializer).file_version,
                start_pos <= deserializer.pos,
                deserializer.rest() == body.skip(deserializer.pos - start_pos),
                start_pos == old(deserializer).pos + 8,
                s == old(deserializer).rest(),
                body == s.skip(8),
                s.len() >= 8,
                le_value(s.take(8)) == n,
                body == deserializer.reader@.subrange(
                    start_pos as int,
                    deserializer.reader@.len() as int,
                ),
                decode_items::<T>(version, body, n as nat) == prepend_decoded(
                    out.model(),
                    (deserializer.pos - start_pos) as nat,
                    decode_items::<T>(version, deserializer.rest(), (n - i) as nat),
                ),
            decreases n - i,
        {
            let ghost cur = deserializer.rest();
            let ghost before = out.model();
            match T::deserialize(deserializer) {
                Ok(v) => {
                    proof {
                        let (mv, k) = T::decode(version, cur).unwrap();
                        assert(deserializer.rest() =~= cur.skip(k as int));
                        assert(deserializer.rest() =~= body.skip(deserializer.pos - start_pos));
                        let tail = decode_items::<T>(
                            version,
                            cur.skip(k as int),
                            (n - i - 1) as nat,
                        );
                        if tail is Some {
                            assert(before + (seq![mv] + tail.unwrap().0) =~= before.push(mv)
                                + tail.unwrap().0);
                        }
                    }
                    out.push(v);
                    assert(out.model() =~= before.push(v.model()));
                },
                Err(e) => {
                    proof {
                        assert(T::decode(version, cur) is None);
                        assert(decode_items::<T>(version, cur, (n - i) as nat) is None);
                        assert(decode_items::<T>(version, body, n as nat) is None);
                    }
                    return Err(e);
                },
            }
            i = i + 1;
        }
        Ok(out)
    }
}

impl<T: Roundtrip> Roundtrip for Vec<T> {
    open spec fn read_back(version: u32, m: Seq<<T as Model>::M>) -> Seq<<T as Model>::M> {
        read_back_items::<T>(version, m)
    }

    proof fn lemma_roundtrip(version: u32, m: Seq<<T as Model>::M>, rest: Seq<u8>) {
        reveal_with_fuel(pow256, 9);
        lemma_le_roundtrip(m.len(), 8);
        let all = Self::encode(version, m) + rest;
        assert(all.take(8) =~= le_bytes(m.len(), 8));
        assert(all.skip(8) =~= encode_items::<T>(version, m) + rest);
        lemma_items_roundtrip::<T>(version, m, rest);
        assert(Seq::<<T as Model>::M>::empty() + read_back_items::<T>(version, m)
            =~= read_back_items::<T>(version, m));
    }
}

/// `<[T; N]>::try_from(Vec<T>)`: an array holding the vector's items, when there are exactly `N`.
///
/// Claimed of the standard conversion: it succeeds exactly when the vector has
/// `N` items, and then the array holds them in order.
#[verifier::external_body]
fn vec_into_array<T, const N: usize>(v: Vec<T>) -> (r: Option<[T; N]>)
    ensures
        r is Some <==> v@.len() == N,
        r matches Some(a) ==> a@ == v@,
{
    <[T; N]>::try_from(v).ok()
}

impl<T: Model, const N: usize> Model for [T; N] {
    type M = Seq<<T as Model>::M>;

    open spec fn model(&self) -> Seq<<T as Model>::M> {
        self@.map_values(|x: T| x.model())
    }
}

impl<T: Serialize, const N: usize> Serialize for [T; N] {
    open spec fn valid(version: u32, m: Seq<<T as Model>::M>) -> bool {
        &&& m.len() == N
        &&& forall|i: int| 0 <= i < m.len() ==> T::valid(version, #[trigger] m[i])
    }

    /// The items one after the other, with no count: the type fixes it.
    open spec fn encode(version: u32, m: Seq<<T as Model>::M>) -> Seq<u8> {
        encode_items::<T>(version, m)
    }

    fn serialize(&self, serializer: &mut Serializer) -> (r: Result<(), SavefileError>) {
        let ghost start = serializer.writer@;
        let ghost m = self.model();
        let ghost version = serializer.file_version;
        assert(m.take(0) =~= Seq::<<T as Model>::M>::empty());
        let mut i: usize = 0;
        while i < N
            invariant
                i <= N,
                m == self.model(),
                m.len() == N,
                version == serializer.file_version,
                version == old(serializer).file_version,
                start == old(serializer).writer@,
                serializer.writer@ == start + encode_items::<T>(version, m.take(i as int)),
                forall|j: int| 0 <= j < i ==> T::valid(version, #[trigger] m[j]),
            decreases N - i,
        {
            match self[i].serialize(serializer) {
                Ok(()) => {},
                Err(e) => {
                    assert(!T::valid(version, m[i as int]));
                    return Err(e);
                },
            }
            proof {
                lemma_encode_items_snoc::<T>(version, m, i as int);
            }
            i = i + 1;
        }
        assert(m.take(i as int) =~= m);
        Ok(())
    }
}

impl<T: Deserialize, const N: usize> Deserialize for [T; N] {
    open spec fn decode(version: u32, s: Seq<u8>) -> Option<(Seq<<T as Model>::M>, nat)> {
        decode_items::<T>(version, s, N as nat)
    }

    fn deserialize(deserializer: &mut Deserializer) -> (r: Result<[T; N], SavefileError>) {
        let ghost body = deserializer.rest();
        let ghost version = deserializer.file_version;
        let ghost start_pos = deserializer.pos;
        let mut out: Vec<T> = Vec::new();
        assert(body.skip(0) =~= body);
        assert(out.model() =~= Seq::<<T as Model>::M>::empty());
        let mut i: usize = 0;
        while i < N
            invariant
                i <= N,
                out@.len() == i,
                deserializer.wf(),
                deserializer.reader@ == old(deserializer).reader@,
                deserializer.file_version == old(deserializer).file_version,
                version == old(deserializer).file_version,
                start_pos == old(deserializer).pos,
                start_pos <= deserializer.pos,
                body == old(deserializer).rest(),
                deserializer.rest() == body.skip(deserializer.pos - start_pos),
                body == deserializer.reader@.subrange(start_pos as int, deserializer.reader@.len() as int),
                decode_items::<T>(version, body, N as nat) == prepend_decoded(
                    out.model(),
                    (deserializer.pos - start_pos) as nat,
                    decode_items::<T>(version, deserializer.rest(), (N - i) as nat),
                ),
            decreases N - i,
        {
            let ghost cur = deserializer.rest();
            let ghost before = out.model();
            match T::deserialize(deserializer) {
                Ok(v) => {
                    proof {
                        let (mv, k) = T::decode(version, cur).unwrap();
                        assert(deserializer.rest() =~= cur.skip(k as int));
                        assert(deserializer.rest() =~= body.skip(deserializer.pos - start_pos));
                        let tail = decode_items::<T>(version, cur.skip(k as int), (N - i - 1) as nat);
                        if tail is Some {
                            assert(before + (seq![mv] + tail.unwrap().0) =~= before.push(mv)
                                + tail.unwrap().0);
                        }
                    }
                    out.push(v);
                    assert(out.model() =~= before.push(v.model()));
                },
                Err(e) => {
                    proof {
                        assert(T::decode(version, cur) is None);
                        assert(decode_items::<T>(version, cur, (N - i) as nat) is None);
                    }
                    return Err(e);
                },
            }
            i = i + 1;
        }
        assert(decode_items::<T>(version, deserializer.rest(), 0) == Some((Seq::<<T as Model>::M>::empty(), 0nat)));
        assert(out.model() + Seq::<<T as Model>::M>::empty() =~= out.model());
        let ghost om = out.model();
        match vec_into_array::<T, N>(out) {
            Some(a) => {
                assert(a.model() =~= om);
                Ok(a)
            },
            None => vstd::pervasive::unreached(),
        }
    }
}

impl<T: Roundtrip, const N: usize> Roundtrip for [T; N] {
    open spec fn read_back(version: u32, m: Seq<<T as Model>::M>) -> Seq<<T as Model>::M> {
        read_back_items::<T>(version, m)
    }

    proof fn lemma_roundtrip(version: u32, m: Seq<<T as Model>::M>, rest: Seq<u8>) {
        lemma_items_roundtrip::<T>(version, m, rest);
    }
}

/// `Vec::into_boxed_slice`: the vector's items as a boxed slice.
///
/// Claimed of the standard function: the slice holds the vector's items in order.
#[verifier::external_body]
fn vec_into_boxed_slice<T>(v: Vec<T>) -> (r: Box<[T]>)
    ensures
        r@ == v@,
{
    v.into_boxed_slice()
}

impl<T: Model> Model for Box<[T]> {
    type M = Seq<<T as Model>::M>;

    open spec fn model(&self) -> Seq<<T as Model>::M> {
        self@.map_values(|x: T| x.model())
    }
}

impl<T: Serialize> Serialize for Box<[T]> {
    open spec fn valid(version: u32, m: Seq<<T as Model>::M>) -> bool {
        <Vec<T> as Serialize>::valid(version, m)
    }

    /// As a vector: the number of items as eight bytes, then the items.
    open spec fn encode(version: u32, m: Seq<<T as Model>::M>) -> Seq<u8> {
        <Vec<T> as Serialize>::encode(version, m)
    }

    fn serialize(&self, serializer: &mut Serializer) -> (r: Result<(), SavefileError>) {
        let ghost start = serializer.writer@;
        let ghost m = self.model();
        let ghost version = serializer.file_version;
        let n = self.len();
        serializer.write_usize(n);
        let mut i: usize = 0;
        while i < n
            invariant
                i <= n,
                n == self@.len(),
                m == self.model(),
                version == serializer.file_version,
                version == old(serializer).file_version,
                start == old(serializer).writer@,
                serializer.writer@ == start + le_bytes(m.len(), 8) + encode_items::<T>(
                    version,
                    m.take(i as int),
                ),
                forall|j: int| 0 <= j < i ==> T::valid(version, #[trigger] m[j]),
            decreases n - i,
        {
            match self[i].serialize(serializer) {
                Ok(()) => {},
                Err(e) => {
                    assert(!T::valid(version, m[i as int]));
                    return Err(e);
                },
            }
            proof {
                lemma_encode_items_snoc::<T>(version, m, i as int);
            }
            i = i + 1;
        }
        assert(m.take(i as int) =~= m);
        Ok(())
    }
}

impl<T: Deserialize> Deserialize for Box<[T]> {
    open spec fn decode(version: u32, s: Seq<u8>) -> Option<(Seq<<T as Model>::M>, nat)> {
        <Vec<T> as Deserialize>::decode(version, s)
    }

    fn deserialize(deserializer: &mut Deserializer) -> (r: Result<Box<[T]>, SavefileError>) {
        match <Vec<T> as Deserialize>::deserialize(deserializer) {
            Ok(v) => {
                let ghost vm = v.model();
                let b = vec_into_boxed_slice(v);
                assert(b.model() =~= vm);
                Ok(b)
            },
            Err(e) => Err(e),
        }
    }
}

impl<T: Roundtrip> Roundtrip for Box<[T]> {
    open spec fn read_back(version: u32, m: Seq<<T as Model>::M>) -> Seq<<T as Model>::M> {
        <Vec<T> as Roundtrip>::read_back(version, m)
    }

    proof fn lemma_roundtrip(version: u32, m: Seq<<T as Model>::M>, rest: Seq<u8>) {
        <Vec<T> as Roundtrip>::lemma_roundtrip(version, m, rest);
    }
}

/// `Arc::<[T]>::from(Vec<T>)`: the vector's items as a shared slice.
///
/// Claimed of the standard conversion: the slice holds the vector's items in order.
#[verifier::external_body]
fn vec_into_arc_slice<T>(v: Vec<T>) -> (r: std::sync::Arc<[T]>)
    ensures
        r@ == v@,
{
    std::sync::Arc::from(v)
}

impl<T: Model> Model for std::sync::Arc<[T]> {
    type M = Seq<<T as Model>::M>;

    open spec fn model(&self) -> Seq<<T as Model>::M> {
        self@.map_values(|x: T| x.model())
    }
}

impl<T: Serialize> Serialize for std::sync::Arc<[T]> {
    open spec fn valid(version: u32, m: Seq<<T as Model>::M>) -> bool {
        <Vec<T> as Serialize>::valid(version, m)
    }

    /// As a vector: the number of items as eight bytes, then the items.
    open spec fn encode(version: u32, m: Seq<<T as Model>::M>) -> Seq<u8> {
        <Vec<T> as Serialize>::encode(version, m)
    }

    fn serialize(&self, serializer: &mut Serializer) -> (r: Result<(), SavefileError>) {
        let ghost start = serializer.writer@;
        let ghost m = self.model();
        let ghost version = serializer.file_version;
        let n = self.len();
        serializer.write_usize(n);
        let mut i: usize = 0;
        while i < n
            invariant
                i <= n,
                n == self@.len(),
                m == self.model(),
                version == serializer.file_version,
                version == old(serializer).file_version,
                start == old(serializer).writer@,
                serializer.writer@ == start + le_bytes(m.len(), 8) + encode_items::<T>(
                    version,
                    m.take(i as int),
                ),
                forall|j: int| 0 <= j < i ==> T::valid(version, #[trigger] m[j]),
            decreases n - i,
        {
            match self[i].serialize(serializer) {
                Ok(()) => {},
                Err(e) => {
                    assert(!T::valid(version, m[i as int]));
                    return Err(e);
                },
            }
            proof {
                lemma_encode_items_snoc::<T>(version, m, i as int);
            }
            i = i + 1;
        }
        assert(m.take(i as int) =~= m);
        Ok(())
    }
}

impl<T: Deserialize> Deserialize for std::sync::Arc<[T]> {
    open spec fn decode(version: u32, s: Seq<u8>) -> Option<(Seq<<T as Model>::M>, nat)> {
        <Vec<T> as Deserialize>::decode(version, s)
    }

    fn deserialize(deserializer: &mut Deserializer) -> (r: Result<std::sync::Arc<[T]>, SavefileError>) {
        match <Vec<T> as Deserialize>::deserialize(deserializer) {
            Ok(v) => {
                let ghost vm = v.model();
                let b = vec_into_arc_slice(v);
                assert(b.model() =~= vm);
                Ok(b)
            },
            Err(e) => Err(e),
        }
    }
}

impl<T: Roundtrip> Roundtrip for std::sync::Arc<[T]> {
    open spec fn read_back(version: u32, m: Seq<<T as Model>::M>) -> Seq<<T as Model>::M> {
        <Vec<T> as Roundtrip>::read_back(version, m)
    }

    proof fn lemma_roundtrip(version: u32, m: Seq<<T as Model>::M>, rest: Seq<u8>) {
        <Vec<T> as Roundtrip>::lemma_roundtrip(version, m, rest);
    }
}

/// `Arc::<str>::from(String)`: the text as a shared string.
///
/// Claimed of the standard conversion: the shared string holds the same text.
#[verifier::external_body]
fn string_into_arc_str(s: String) -> (r: std::sync::Arc<str>)
    ensures
        r@ == s@,
{
    std::sync::Arc::from(s)
}

impl Model for std::sync::Arc<str> {
    type M = Seq<char>;

    open spec fn model(&self) -> Seq<char> {
        self@
    }
}

impl Serialize for std::sync::Arc<str> {
    open spec fn valid(version: u32, m: Seq<char>) -> bool {
        <String as Serialize>::valid(version, m)
    }

    /// As a string: the number of UTF-8 bytes as eight bytes, then the bytes.
    open spec fn encode(version: u32, m: Seq<char>) -> Seq<u8> {
        <String as Serialize>::encode(version, m)
    }

    fn serialize(&self, serializer: &mut Serializer) -> (r: Result<(), SavefileError>) {
        let text: &str = &**self;
        let bytes = text.as_bytes();
        serializer.write_usize(bytes.len());
        serializer.write_bytes(bytes);
        Ok(())
    }
}

impl Deserialize for std::sync::Arc<str> {
    open spec fn decode(version: u32, s: Seq<u8>) -> Option<(Seq<char>, nat)> {
        <String as Deserialize>::decode(version, s)
    }

    fn deserialize(deserializer: &mut Deserializer) -> (r: Result<std::sync::Arc<str>, SavefileError>) {
        match String::deserialize(deserializer) {
            Ok(s) => Ok(string_into_arc_str(s)),
            Err(e) => Err(e),
        }
    }
}

impl Roundtrip for std::sync::Arc<str> {
    open spec fn read_back(version: u32, m: Seq<char>) -> Seq<char> {
        m
    }

    proof fn lemma_roundtrip(version: u32, m: Seq<char>, rest: Seq<u8>) {
        <String as Roundtrip>::lemma_roundtrip(version, m, rest);
    }
}

/// Turns bytes into a string, provided they are UTF-8 (`String::from_utf8`).
///
/// Claimed of the standard function: it succeeds exactly on valid UTF-8, and the
/// string it gives has those bytes as its UTF-8 encoding.
#[verifier::external_body]
fn string_from_utf8(bytes: Vec<u8>) -> (r: Option<String>)
    ensures
        r is Some <==> valid_utf8(bytes@),
        r matches Some(s) ==> encode_utf8(s@) == bytes@,
{
    String::from_utf8(bytes).ok()
}

impl Model for String {
    type M = Seq<char>;

    open spec fn model(&self) -> Seq<char> {
        self@
    }
}

impl Serialize for String {
    /// Its UTF-8 encoding must fit in memory, as that of every string in memory does.
    open spec fn valid(version: u32, m: Seq<char>) -> bool {
        encode_utf8(m).len() <= usize::MAX
    }

    /// The number of UTF-8 bytes as eight bytes, then the UTF-8 bytes.
    open spec fn encode(version: u32, m: Seq<char>) -> Seq<u8> {
        le_bytes(encode_utf8(m).len(), 8) + encode_utf8(m)
    }

    fn serialize(&self, serializer: &mut Serializer) -> (r: Result<(), SavefileError>) {
        let bytes = self.as_str().as_bytes();
        serializer.write_usize(bytes.len());
        serializer.write_bytes(bytes);
        Ok(())
    }
}

impl Deserialize for String {
    /// Byte sequences that are not UTF-8 are refused.
    open spec fn decode(version: u32, s: Seq<u8>) -> Option<(Seq<char>, nat)> {
        let n = le_value(s.take(8));
        if s.len() >= 8 && s.len() - 8 >= n && valid_utf8(s.subrange(8, 8 + n as int)) {
            Some((decode_utf8(s.subrange(8, 8 + n as int)), 8 + n))
        } else {
            None
        }
    }

    fn deserialize(deserializer: &mut Deserializer) -> (r: Result<String, SavefileError>) {
        let ghost s = deserializer.rest();
        let n = match deserializer.read_uint(8) {
            Ok(n) => n,
            Err(e) => {
                return Err(e);
            },
        };
        if n > deserializer.remaining() as u64 {
            return Err(SavefileError::ShortRead);
        }
        let ghost before = deserializer.rest();
        assert(before =~= s.skip(8));
        let bytes = match deserializer.read_bytes(n as usize) {
            Ok(b) => b,
            Err(e) => {
                return Err(e);
            },
        };
        assert(bytes@ =~= s.subrange(8, 8 + n as int));
        match string_from_utf8(bytes) {
            Some(st) => {
                proof {
                    vstd::utf8::decode_utf8_encode_utf8(s.subrange(8, 8 + n as int));
                }
                Ok(st)
            },
            None => Err(SavefileError::InvalidUtf8),
        }
    }
}

impl Roundtrip for String {
    open spec fn read_back(version: u32, m: Seq<char>) -> Seq<char> {
        m
    }

    proof fn lemma_roundtrip(version: u32, m: Seq<char>, rest: Seq<u8>) {
        reveal_with_fuel(pow256, 9);
        let b = encode_utf8(m);
        lemma_le_roundtrip(b.len(), 8);
        let all = Self::encode(version, m) + rest;
        assert(all.take(8) =~= le_bytes(b.len(), 8));
        assert(all.subrange(8, 8 + b.len() as int) =~= b);
    }
}

impl<T: Model> Model for Option<T> {
    type M = Option<<T as Model>::M>;

    open spec fn model(&self) -> Option<<T as Model>::M> {
        match self {
            Some(v) => Some(v.model()),
            None => None,
        }
    }
}

impl<T: Serialize> Serialize for Option<T> {
    open spec fn valid(version: u32, m: Option<<T as Model>::M>) -> bool {
        match m {
            Some(v) => T::valid(version, v),
            None => true,
        }
    }

    /// A zero byte for `None`; a one byte followed by the value for `Some`.
    open spec fn encode(version: u32, m: Option<<T as Model>::M>) -> Seq<u8> {
        match m {
            Some(v) => seq![1u8] + T::encode(version, v),
            None => seq![0u8],
        }
    }

    fn serialize(&self, serializer: &mut Serializer) -> (r: Result<(), SavefileError>) {
        match self {
            Some(v) => {
                serializer.writer.push(1u8);
                v.serialize(serializer)
            },
            None => {
                serializer.writer.push(0u8);
                Ok(())
            },
        }
    }
}

impl<T: Deserialize> Deserialize for Option<T> {
    open spec fn decode(version: u32, s: Seq<u8>) -> Option<(Option<<T as Model>::M>, nat)> {
        if s.len() >= 1 && s[0] == 0 {
            Some((None, 1))
        } else if s.len() >= 1 && s[0] == 1 {
            match T::decode(version, s.skip(1)) {
                Some((v, k)) => Some((Some(v), k + 1)),
                None => None,
            }
        } else {
            None
        }
    }

    fn deserialize(deserializer: &mut Deserializer) -> (r: Result<Option<T>, SavefileError>) {
        let ghost s = deserializer.rest();
        if deserializer.pos >= deserializer.reader.len() {
            return Err(SavefileError::ShortRead);
        }
        let tag = deserializer.reader[deserializer.pos];
        if tag == 0 {
            deserializer.pos = deserializer.pos + 1;
            Ok(None)
        } else if tag == 1 {
            deserializer.pos = deserializer.pos + 1;
            assert(deserializer.rest() =~= s.skip(1));
            match T::deserialize(deserializer) {
                Ok(v) => Ok(Some(v)),
                Err(e) => Err(e),
            }
        } else {
            Err(SavefileError::BadDiscriminant)
        }
    }
}

impl<T: Roundtrip> Roundtrip for Option<T> {
    open spec fn read_back(version: u32, m: Option<<T as Model>::M>) -> Option<<T as Model>::M> {
        match m {
            Some(v) => Some(T::read_back(version, v)),
            None => None,
        }
    }

    proof fn lemma_roundtrip(version: u32, m: Option<<T as Model>::M>, rest: Seq<u8>) {
        let all = Self::encode(version, m) + rest;
        match m {
            Some(v) => {
                T::lemma_roundtrip(version, v, rest);
                assert(all.skip(1) =~= T::encode(version, v) + rest);
            },
            None => {},
        }
    }
}

impl<T: Model, E: Model> Model for Result<T, E> {
    type M = Result<<T as Model>::M, <E as Model>::M>;

    open spec fn model(&self) -> Result<<T as Model>::M, <E as Model>::M> {
        match self {
            Ok(v) => Ok(v.model()),
            Err(e) => Err(e.model()),
        }
    }
}

impl<T: Serialize, E: Serialize> Serialize for Result<T, E> {
    open spec fn valid(version: u32, m: Result<<T as Model>::M, <E as Model>::M>) -> bool {
        match m {
            Ok(v) => T::valid(version, v),
            Err(e) => E::valid(version, e),
        }
    }

    /// A zero byte followed by the value for `Ok`; a one byte followed by the error for `Err`.
    open spec fn encode(version: u32, m: Result<<T as Model>::M, <E as Model>::M>) -> Seq<u8> {
        match m {
            Ok(v) => seq![0u8] + T::encode(version, v),
            Err(e) => seq![1u8] + E::encode(version, e),
        }
    }

    fn serialize(&self, serializer: &mut Serializer) -> (r: Result<(), SavefileError>) {
        match self {
            Ok(v) => {
                serializer.writer.push(0u8);
                v.serialize(serializer)
            },
            Err(e) => {
                serializer.writer.push(1u8);
                e.serialize(serializer)
            },
        }
    }
}

impl<T: Deserialize, E: Deserialize> Deserialize for Result<T, E> {
    open spec fn decode(version: u32, s: Seq<u8>) -> Option<
        (Result<<T as Model>::M, <E as Model>::M>, nat),
    > {
        if s.len() >= 1 && s[0] == 0 {
            match T::decode(version, s.skip(1)) {
                Some((v, k)) => Some((Ok(v), k + 1)),
                None => None,
            }
        } else if s.len() >= 1 && s[0] == 1 {
            match E::decode(version, s.skip(1)) {
                Some((e, k)) => Some((Err(e), k + 1)),
                None => None,
            }
        } else {
            None
        }
    }

    fn deserialize(deserializer: &mut Deserializer) -> (r: Result<Result<T, E>, SavefileError>) {
        let ghost s = deserializer.rest();
        if deserializer.pos >= deserializer.reader.len() {
            return Err(SavefileError::ShortRead);
        }
        let tag = deserializer.reader[deserializer.pos];
        if tag == 0 {
            deserializer.pos = deserializer.pos + 1;
            assert(deserializer.rest() =~= s.skip(1));
            match T::deserialize(deserializer) {
                Ok(v) => Ok(Ok(v)),
                Err(e) => Err(e),
            }
        } else if tag == 1 {
            deserializer.pos = deserializer.pos + 1;
            assert(deserializer.rest() =~= s.skip(1));
            match E::deserialize(deserializer) {
                Ok(v) => Ok(Err(v)),
                Err(e) => Err(e),
            }
        } else {
            Err(SavefileError::BadDiscriminant)
        }
    }
}

impl<T: Roundtrip, E: Roundtrip> Roundtrip for Result<T, E> {
    open spec fn read_back(version: u32, m: Result<<T as Model>::M, <E as Model>::M>) -> Result<
        <T as Model>::M,
        <E as Model>::M,
    > {
        match m {
            Ok(v) => Ok(T::read_back(version, v)),
            Err(e) => Err(E::read_back(version, e)),
        }
    }

    proof fn lemma_roundtrip(
        version: u32,
        m: Result<<T as Model>::M, <E as Model>::M>,
        rest: Seq<u8>,
    ) {
        let all = Self::encode(version, m) + rest;
        match m {
            Ok(v) => {
                T::lemma_roundtrip(version, v, rest);
                assert(all.skip(1) =~= T::encode(version, v) + rest);
            },
            Err(e) => {
                E::lemma_roundtrip(version, e, rest);
                assert(all.skip(1) =~= E::encode(version, e) + rest);
            },
        }
    }
}

impl<T: Model> Model for Box<T> {
    type M = <T as Model>::M;

    open spec fn model(&self) -> <T as Model>::M {
        (**self).model()
    }
}

impl<T: Serialize> Serialize for Box<T> {
    open spec fn valid(version: u32, m: <T as Model>::M) -> bool {
        T::valid(version, m)
    }

    /// The same bytes as the boxed value.
    open spec fn encode(version: u32, m: <T as Model>::M) -> Seq<u8> {
        T::encode(version, m)
    }

    fn serialize(&self, serializer: &mut Serializer) -> (r: Result<(), SavefileError>) {
        (**self).serialize(serializer)
    }
}

impl<T: Deserialize> Deserialize for Box<T> {
    open spec fn decode(version: u32, s: Seq<u8>) -> Option<(<T as Model>::M, nat)> {
        T::decode(version, s)
    }

    fn deserialize(deserializer: &mut Deserializer) -> (r: Result<Box<T>, SavefileError>) {
        match T::deserialize(deserializer) {
            Ok(v) => Ok(Box::new(v)),
            Err(e) => Err(e),
        }
    }
}

impl<T: Roundtrip> Roundtrip for Box<T> {
    open spec fn read_back(version: u32, m: <T as Model>::M) -> <T as Model>::M {
        T::read_back(version, m)
    }

    proof fn lemma_roundtrip(version: u32, m: <T as Model>::M, rest: Seq<u8>) {
        T::lemma_roundtrip(version, m, rest);
    }
}

impl<A: Model> Model for (A,) {
    type M = (<A as Model>::M,);

    open spec fn model(&self) -> (<A as Model>::M,) {
        (self.0.model(),)
    }
}

impl<A: Serialize> Serialize for (A,) {
    open spec fn valid(version: u32, m: (<A as Model>::M,)) -> bool {
        A::valid(version, m.0)
    }

    /// The same bytes as the single element.
    open spec fn encode(version: u32, m: (<A as Model>::M,)) -> Seq<u8> {
        A::encode(version, m.0)
    }

    fn serialize(&self, serializer: &mut Serializer) -> (r: Result<(), SavefileError>) {
        self.0.serialize(serializer)
    }
}

impl<A: Deserialize> Deserialize for (A,) {
    open spec fn decode(version: u32, s: Seq<u8>) -> Option<((<A as Model>::M,), nat)> {
        match A::decode(version, s) {
            Some((a, k)) => Some(((a,), k)),
            None => None,
        }
    }

    fn deserialize(deserializer: &mut Deserializer) -> (r: Result<(A,), SavefileError>) {
        match A::deserialize(deserializer) {
            Ok(a) => Ok((a,)),
            Err(e) => Err(e),
        }
    }
}

impl<A: Roundtrip> Roundtrip for (A,) {
    open spec fn read_back(version: u32, m: (<A as Model>::M,)) -> (<A as Model>::M,) {
        (A::read_back(version, m.0),)
    }

    proof fn lemma_roundtrip(version: u32, m: (<A as Model>::M,), rest: Seq<u8>) {
        A::lemma_roundtrip(version, m.0, rest);
    }
}

impl<A: Model, B: Model> Model for (A, B) {
    type M = (<A as Model>::M, <B as Model>::M);

    open spec fn model(&self) -> (<A as Model>::M, <B as Model>::M) {
        (self.0.model(), self.1.model())
    }
}

impl<A: Serialize, B: Serialize> Serialize for (A, B) {
    open spec fn valid(version: u32, m: (<A as Model>::M, <B as Model>::M)) -> bool {
        A::valid(version, m.0) && B::valid(version, m.1)
    }

    /// The elements one after the other.
    open spec fn encode(version: u32, m: (<A as Model>::M, <B as Model>::M)) -> Seq<u8> {
        A::encode(version, m.0) + B::encode(version, m.1)
    }

    fn serialize(&self, serializer: &mut Serializer) -> (r: Result<(), SavefileError>) {
        match self.0.serialize(serializer) {
            Ok(()) => {},
            Err(e) => {
                return Err(e);
            },
        }
        match self.1.serialize(serializer) {
            Ok(()) => {},
            Err(e) => {
                return Err(e);
            },
        }
        assert(serializer.writer@ =~= old(serializer).writer@ + Self::encode(
            old(serializer).file_version,
            self.model(),
        ));
        Ok(())
    }
}

impl<A: Deserialize, B: Deserialize> Deserialize for (A, B) {
    open spec fn decode(version: u32, s: Seq<u8>) -> Option<
        ((<A as Model>::M, <B as Model>::M), nat),
    > {
        match A::decode(version, s) {
            Some((a, k)) => match B::decode(version, s.skip(k as int)) {
                Some((b, j)) => Some(((a, b), k + j)),
                None => None,
            },
            None => None,
        }
    }

    fn deserialize(deserializer: &mut Deserializer) -> (r: Result<(A, B), SavefileError>) {
        let ghost s = deserializer.rest();
        let ghost version = deserializer.file_version;
        let a = match A::deserialize(deserializer) {
            Ok(a) => a,
            Err(e) => {
                return Err(e);
            },
        };
        assert(deserializer.rest() =~= s.skip(A::decode(version, s).unwrap().1 as int));
        let b = match B::deserialize(deserializer) {
            Ok(b) => b,
            Err(e) => {
                return Err(e);
            },
        };
        Ok((a, b))
    }
}

impl<A: Roundtrip, B: Roundtrip> Roundtrip for (A, B) {
    open spec fn read_back(version: u32, m: (<A as Model>::M, <B as Model>::M)) -> (
        <A as Model>::M,
        <B as Model>::M,
    ) {
        (A::read_back(version, m.0), B::read_back(version, m.1))
    }

    proof fn lemma_roundtrip(version: u32, m: (<A as Model>::M, <B as Model>::M), rest: Seq<u8>) {
        let tail = B::encode(version, m.1) + rest;
        A::lemma_roundtrip(version, m.0, tail);
        B::lemma_roundtrip(version, m.1, rest);
        let all = Self::encode(version, m) + rest;
        assert(all =~= A::encode(version, m.0) + tail);
        assert(all.skip(A::encode(version, m.0).len() as int) =~= tail);
    }
}

impl<A: Model, B: Model, C: Model> Model for (A, B, C) {
    type M = (<A as Model>::M, <B as Model>::M, <C as Model>::M);

    open spec fn model(&self) -> (<A as Model>::M, <B as Model>::M, <C as Model>::M) {
        (self.0.model(), self.1.model(), self.2.model())
    }
}

impl<A: Serialize, B: Serialize, C: Serialize> Serialize for (A, B, C) {
    open spec fn valid(version: u32, m: (<A as Model>::M, <B as Model>::M, <C as Model>::M)) -> bool {
        A::valid(version, m.0) && B::valid(version, m.1) && C::valid(version, m.2)
    }

    /// The elements one after the other.
    open spec fn encode(version: u32, m: (<A as Model>::M, <B as Model>::M, <C as Model>::M)) -> Seq<
        u8,
    > {
        A::encode(version, m.0) + B::encode(version, m.1) + C::encode(version, m.2)
    }

    fn serialize(&self, serializer: &mut Serializer) -> (r: Result<(), SavefileError>) {
        match self.0.serialize(serializer) {
            Ok(()) => {},
            Err(e) => {
                return Err(e);
            },
        }
        match self.1.serialize(serializer) {
            Ok(()) => {},
            Err(e) => {
                return Err(e);
            },
        }
        match self.2.serialize(serializer) {
            Ok(()) => {},
            Err(e) => {
                return Err(e);
            },
        }
        assert(serializer.writer@ =~= old(serializer).writer@ + Self::encode(
            old(serializer).file_version,
            self.model(),
        ));
        Ok(())
    }
}

impl<A: Deserialize, B: Deserialize, C: Deserialize> Deserialize for (A, B, C) {
    open spec fn decode(version: u32, s: Seq<u8>) -> Option<
        ((<A as Model>::M, <B as Model>::M, <C as Model>::M), nat),
    > {
        match A::decode(version, s) {
            Some((a, k)) => match B::decode(version, s.skip(k as int)) {
                Some((b, j)) => match C::decode(version, s.skip(k as int).skip(j as int)) {
                    Some((c, l)) => Some(((a, b, c), k + j + l)),
                    None => None,
                },
                None => None,
            },
            None => None,
        }
    }

    fn deserialize(deserializer: &mut Deserializer) -> (r: Result<(A, B, C), SavefileError>) {
        let ghost s = deserializer.rest();
        let ghost version = deserializer.file_version;
        let a = match A::deserialize(deserializer) {
            Ok(a) => a,
            Err(e) => {
                return Err(e);
            },
        };
        let ghost s1 = deserializer.rest();
        assert(s1 =~= s.skip(A::decode(version, s).unwrap().1 as int));
        let b = match B::deserialize(deserializer) {
            Ok(b) => b,
            Err(e) => {
                return Err(e);
            },
        };
        assert(deserializer.rest() =~= s1.skip(B::decode(version, s1).unwrap().1 as int));
        let c = match C::deserialize(deserializer) {
            Ok(c) => c,
            Err(e) => {
                return Err(e);
            },
        };
        Ok((a, b, c))
    }
}

impl<A: Roundtrip, B: Roundtrip, C: Roundtrip> Roundtrip for (A, B, C) {
    open spec fn read_back(
        version: u32,
        m: (<A as Model>::M, <B as Model>::M, <C as Model>::M),
    ) -> (<A as Model>::M, <B as Model>::M, <C as Model>::M) {
        (A::read_back(version, m.0), B::read_back(version, m.1), C::read_back(version, m.2))
    }

    proof fn lemma_roundtrip(
        version: u32,
        m: (<A as Model>::M, <B as Model>::M, <C as Model>::M),
        rest: Seq<u8>,
    ) {
        let t2 = C::encode(version, m.2) + rest;
        let t1 = B::encode(version, m.1) + t2;
        A::lemma_roundtrip(version, m.0, t1);
        B::lemma_roundtrip(version, m.1, t2);
        C::lemma_roundtrip(version, m.2, rest);
        let all = Self::encode(version, m) + rest;
        assert(all =~= A::encode(version, m.0) + t1);
        assert(all.skip(A::encode(version, m.0).len() as int) =~= t1);
        assert(t1.skip(B::encode(version, m.1).len() as int) =~= t2);
    }
}

impl<T> Model for core::marker::PhantomData<T> {
    type M = ();

    open spec fn model(&self) -> () {
        ()
    }
}

impl<T> Serialize for core::marker::PhantomData<T> {
    open spec fn valid(version: u32, m: ()) -> bool {
        true
    }

    /// Nothing: the marker holds no data.
    open spec fn encode(version: u32, m: ()) -> Seq<u8> {
        Seq::empty()
    }

    fn serialize(&self, serializer: &mut Serializer) -> (r: Result<(), SavefileError>) {
        assert(serializer.writer@ =~= old(serializer).writer@ + Seq::<u8>::empty());
        Ok(())
    }
}

impl<T> Deserialize for core::marker::PhantomData<T> {
    open spec fn decode(version: u32, s: Seq<u8>) -> Option<((), nat)> {
        Some(((), 0))
    }

    fn deserialize(deserializer: &mut Deserializer) -> (r: Result<
        core::marker::PhantomData<T>,
        SavefileError,
    >) {
        Ok(core::marker::PhantomData)
    }
}

impl<T> Roundtrip for core::marker::PhantomData<T> {
    open spec fn read_back(version: u32, m: ()) -> () {
        ()
    }

    proof fn lemma_roundtrip(version: u32, m: (), rest: Seq<u8>) {
        assert(Seq::<u8>::empty() + rest =~= rest);
    }
}

} // verus!
