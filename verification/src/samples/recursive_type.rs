//! A record that holds itself in optional boxes, and through a list of relays.
use vstd::prelude::*;

use crate::error::SavefileError;
use crate::le::{le_bytes, le_value, lemma_le_roundtrip, pow256};
use crate::schema::nodes::{SchemaNode, SchemaNodeModel};
use crate::schema::with_schema::{push_field, push_node, push_struct, WithSchema};
use crate::serializer::{Deserializer, Serializer};
use crate::traits::{Deserialize, Model, Roundtrip, Serialize};

verus! {

/// A record with an optional left and right copy of itself, and a list of
/// relays that each hold one more.
#[derive(Debug, PartialEq)]
pub struct RecursiveType {
    pub left: Option<Box<RecursiveType>>,
    pub right: Option<Box<RecursiveType>>,
    pub mid: Vec<Relay>,
}

/// Holds a [`RecursiveType`].
#[derive(Debug, PartialEq)]
pub struct Relay {
    pub relay: Box<RecursiveType>,
}

/// The model of a [`RecursiveType`]: the same shape.
pub struct RecursiveModel {
    pub left: Option<Box<RecursiveModel>>,
    pub right: Option<Box<RecursiveModel>>,
    pub mid: Seq<RecursiveModel>,
}

/// The shape of a [`RecursiveType`].
pub open spec fn rec_model(t: RecursiveType) -> RecursiveModel
    decreases t,
{
    RecursiveModel {
        left: match t.left {
            Some(b) => Some(Box::new(rec_model(*b))),
            None => None,
        },
        right: match t.right {
            Some(b) => Some(Box::new(rec_model(*b))),
            None => None,
        },
        mid: relays_model(t.mid@),
    }
}

/// The shape of an optional record.
pub open spec fn opt_model(o: Option<Box<RecursiveType>>) -> Option<Box<RecursiveModel>> {
    match o {
        Some(b) => Some(Box::new(rec_model(*b))),
        None => None,
    }
}

/// The shapes of the records the relays `rs` hold, in order.
pub open spec fn relays_model(rs: Seq<Relay>) -> Seq<RecursiveModel>
    decreases rs,
{
    if rs.len() == 0 {
        Seq::empty()
    } else {
        seq![rec_model(*rs[0].relay)] + relays_model(rs.subrange(1, rs.len() as int))
    }
}

/// The bytes of an optional record: a zero byte for none, a one byte and the record for one.
pub open spec fn opt_encode(o: Option<Box<RecursiveModel>>) -> Seq<u8>
    decreases o,
{
    match o {
        None => seq![0u8],
        Some(b) => seq![1u8] + rec_encode(*b),
    }
}

/// The left and right records as options, then the number of relays (eight
/// bytes), then the record each relay holds.
pub open spec fn rec_encode(m: RecursiveModel) -> Seq<u8>
    decreases m,
{
    opt_encode(m.left) + opt_encode(m.right) + le_bytes(m.mid.len(), 8) + list_encode(m.mid)
}

/// The records `ms`, one after the other.
pub open spec fn list_encode(ms: Seq<RecursiveModel>) -> Seq<u8>
    decreases ms,
{
    if ms.len() == 0 {
        Seq::empty()
    } else {
        rec_encode(ms[0]) + list_encode(ms.subrange(1, ms.len() as int))
    }
}

/// Whether every list of relays in the record is short enough to count in eight bytes.
pub open spec fn rec_valid(m: RecursiveModel) -> bool
    decreases m,
{
    &&& match m.left {
        None => true,
        Some(b) => rec_valid(*b),
    }
    &&& match m.right {
        None => true,
        Some(b) => rec_valid(*b),
    }
    &&& m.mid.len() <= usize::MAX
    &&& list_valid(m.mid)
}

/// Whether each of `ms` can be written.
pub open spec fn list_valid(ms: Seq<RecursiveModel>) -> bool
    decreases ms,
{
    ms.len() > 0 ==> rec_valid(ms[0]) && list_valid(ms.subrange(1, ms.len() as int))
}

/// The optional record at the front of `s`, and the number of bytes it takes.
pub open spec fn opt_decode(s: Seq<u8>) -> Option<(Option<Box<RecursiveModel>>, nat)>
    decreases s.len(), 0int, 0nat,
{
    if s.len() == 0 {
        None
    } else if s[0] == 0 {
        Some((None, 1))
    } else if s[0] == 1 {
        match rec_decode(s.skip(1)) {
            Some((m, n)) => if n + 1 <= s.len() {
                Some((Some(Box::new(m)), n + 1))
            } else {
                None
            },
            None => None,
        }
    } else {
        None
    }
}

/// The record at the front of `s`, and the number of bytes it takes.
pub open spec fn rec_decode(s: Seq<u8>) -> Option<(RecursiveModel, nat)>
    decreases s.len(), 1int, 0nat,
{
    match opt_decode(s) {
        None => None,
        Some((left, a)) => if 1 <= a <= s.len() {
            match opt_decode(s.skip(a as int)) {
                None => None,
                Some((right, b)) => if 1 <= b && a + b + 8 <= s.len() {
                    let count = le_value(s.subrange((a + b) as int, (a + b + 8) as int));
                    match list_decode(s.skip((a + b + 8) as int), count) {
                        None => None,
                        Some((mid, c)) => if a + b + 8 + c <= s.len() {
                            Some((RecursiveModel { left, right, mid }, a + b + 8 + c))
                        } else {
                            None
                        },
                    }
                } else {
                    None
                },
            }
        } else {
            None
        },
    }
}

/// `count` records at the front of `s`, and the number of bytes they take.
pub open spec fn list_decode(s: Seq<u8>, count: nat) -> Option<(Seq<RecursiveModel>, nat)>
    decreases s.len(), 2int, count,
{
    if count == 0 {
        Some((Seq::empty(), 0))
    } else {
        match rec_decode(s) {
            None => None,
            Some((m, k)) => if 1 <= k <= s.len() {
                match list_decode(s.skip(k as int), (count - 1) as nat) {
                    None => None,
                    Some((ms, j)) => Some((seq![m] + ms, k + j)),
                }
            } else {
                None
            },
        }
    }
}

/// Decoding the encoding of a writable optional record, followed by any
/// bytes, gives it back; the encoding takes at least one byte.
pub proof fn lemma_opt_roundtrip(o: Option<Box<RecursiveModel>>, rest: Seq<u8>)
    requires
        match o {
            None => true,
            Some(b) => rec_valid(*b),
        },
    ensures
        opt_decode(opt_encode(o) + rest) == Some((o, opt_encode(o).len())),
        opt_encode(o).len() >= 1,
    decreases o, 0nat,
{
    let all = opt_encode(o) + rest;
    match o {
        None => {},
        Some(b) => {
            lemma_rec_roundtrip(*b, rest);
            assert(all.skip(1) =~= rec_encode(*b) + rest);
        },
    }
}

/// A record decodes from its parts: the two options, the count and the list.
proof fn lemma_rec_decode_parts(
    all: Seq<u8>,
    left: Option<Box<RecursiveModel>>,
    right: Option<Box<RecursiveModel>>,
    mid: Seq<RecursiveModel>,
    a: nat,
    b: nat,
    c: nat,
)
    requires
        opt_decode(all) == Some((left, a)),
        1 <= a,
        opt_decode(all.skip(a as int)) == Some((right, b)),
        1 <= b,
        a + b + 8 + c <= all.len(),
        le_value(all.subrange((a + b) as int, (a + b + 8) as int)) == mid.len(),
        list_decode(all.skip((a + b + 8) as int), mid.len()) == Some((mid, c)),
    ensures
        rec_decode(all) == Some((RecursiveModel { left, right, mid }, a + b + 8 + c)),
{
}

/// Decoding the encoding of a writable record, followed by any bytes, gives
/// it back; the encoding takes at least ten bytes.
#[verifier::spinoff_prover]
pub proof fn lemma_rec_roundtrip(m: RecursiveModel, rest: Seq<u8>)
    requires
        rec_valid(m),
    ensures
        rec_decode(rec_encode(m) + rest) == Some((m, rec_encode(m).len())),
        rec_encode(m).len() >= 10,
    decreases m, 0nat,
{
    let l = opt_encode(m.left);
    let r = opt_encode(m.right);
    let n = le_bytes(m.mid.len(), 8);
    let ls = list_encode(m.mid);
    let all = rec_encode(m) + rest;
    assert(n.len() == 8 && le_value(n) == m.mid.len()) by {
        reveal_with_fuel(pow256, 9);
        lemma_le_roundtrip(m.mid.len(), 8);
    }
    lemma_opt_roundtrip(m.left, r + n + ls + rest);
    lemma_opt_roundtrip(m.right, n + ls + rest);
    lemma_list_roundtrip(m.mid, rest);
    let a = l.len();
    let b = r.len();
    let c = ls.len();
    assert(all =~= l + (r + n + ls + rest));
    assert(all.skip(a as int) =~= r + (n + ls + rest));
    assert(all.subrange((a + b) as int, (a + b + 8) as int) =~= n);
    assert(all.skip((a + b + 8) as int) =~= ls + rest);
    lemma_rec_decode_parts(all, m.left, m.right, m.mid, a, b, c);
}

/// Decoding the encodings of writable records, followed by any bytes, gives
/// them back.
pub proof fn lemma_list_roundtrip(ms: Seq<RecursiveModel>, rest: Seq<u8>)
    requires
        list_valid(ms),
    ensures
        list_decode(list_encode(ms) + rest, ms.len()) == Some((ms, list_encode(ms).len())),
    decreases ms, 0nat,
{
    if ms.len() > 0 {
        let tail = ms.subrange(1, ms.len() as int);
        let all = list_encode(ms) + rest;
        lemma_rec_roundtrip(ms[0], list_encode(tail) + rest);
        lemma_list_roundtrip(tail, rest);
        assert(all =~= rec_encode(ms[0]) + (list_encode(tail) + rest));
        assert(all.skip(rec_encode(ms[0]).len() as int) =~= list_encode(tail) + rest);
        assert(seq![ms[0]] + tail =~= ms);
    }
}

/// The shapes of the relays' records, one per relay.
pub proof fn lemma_relays_model(rs: Seq<Relay>)
    ensures
        relays_model(rs).len() == rs.len(),
        forall|i: int| 0 <= i < rs.len() ==> #[trigger] relays_model(rs)[i] == rec_model(*rs[i].relay),
    decreases rs.len(),
{
    if rs.len() > 0 {
        let tail = rs.subrange(1, rs.len() as int);
        lemma_relays_model(tail);
        assert forall|i: int| 0 <= i < rs.len() implies #[trigger] relays_model(rs)[i] == rec_model(
            *rs[i].relay,
        ) by {
            if i > 0 {
                assert(tail[i - 1] == rs[i]);
            }
        }
    }
}

/// Appending a record appends its encoding.
pub proof fn lemma_list_encode_push(ms: Seq<RecursiveModel>, x: RecursiveModel)
    ensures
        list_encode(ms.push(x)) == list_encode(ms) + rec_encode(x),
    decreases ms.len(),
{
    if ms.len() == 0 {
        let s1 = ms.push(x);
        assert(s1[0] == x);
        assert(s1.subrange(1, 1) =~= Seq::<RecursiveModel>::empty());
        assert(list_encode(s1.subrange(1, 1)) == Seq::<u8>::empty());
        assert(list_encode(s1) == rec_encode(x) + Seq::<u8>::empty());
        assert(list_encode(s1) =~= rec_encode(x));
        assert(list_encode(ms) == Seq::<u8>::empty());
        assert(list_encode(ms) + rec_encode(x) =~= rec_encode(x));
    } else {
        let tail = ms.subrange(1, ms.len() as int);
        lemma_list_encode_push(tail, x);
        assert(ms.push(x).subrange(1, ms.len() + 1 as int) =~= tail.push(x));
        assert(list_encode(ms.push(x)) =~= list_encode(ms) + rec_encode(x));
    }
}

/// A list can be written exactly when each of its records can.
pub proof fn lemma_list_valid(ms: Seq<RecursiveModel>)
    ensures
        list_valid(ms) <==> forall|i: int| 0 <= i < ms.len() ==> rec_valid(#[trigger] ms[i]),
    decreases ms.len(),
{
    if ms.len() > 0 {
        let tail = ms.subrange(1, ms.len() as int);
        lemma_list_valid(tail);
        if forall|i: int| 0 <= i < ms.len() ==> rec_valid(#[trigger] ms[i]) {
            assert forall|i: int| 0 <= i < tail.len() implies rec_valid(#[trigger] tail[i]) by {
                assert(tail[i] == ms[i + 1]);
            }
        }
        if list_valid(ms) {
            assert forall|i: int| 0 <= i < ms.len() implies rec_valid(#[trigger] ms[i]) by {
                if i > 0 {
                    assert(tail[i - 1] == ms[i]);
                }
            }
        }
    }
}

fn serialize_opt(o: &Option<Box<RecursiveType>>, serializer: &mut Serializer) -> (r: Result<(), SavefileError>)
    ensures
        final(serializer).file_version == old(serializer).file_version,
        ({
            let m = match *o {
                Some(b) => Some(Box::new(rec_model(*b))),
                None => None,
            };
            let v = match m {
                None => true,
                Some(b) => rec_valid(*b),
            };
            &&& v ==> r is Ok && final(serializer).writer@ == old(serializer).writer@ + opt_encode(m)
            &&& !v ==> r is Err
        }),
    decreases *o, 0nat,
{
    match o {
        None => {
            serializer.writer.push(0u8);
            Ok(())
        },
        Some(b) => {
            serializer.writer.push(1u8);
            let ghost mid = serializer.writer@;
            match serialize_rec(b, serializer) {
                Ok(()) => {
                    assert(serializer.writer@ =~= old(serializer).writer@ + opt_encode(
                        Some(Box::new(rec_model(**b))),
                    ));
                    Ok(())
                },
                Err(e) => Err(e),
            }
        },
    }
}

#[verifier::spinoff_prover]
fn serialize_rec(t: &RecursiveType, serializer: &mut Serializer) -> (r: Result<(), SavefileError>)
    ensures
        final(serializer).file_version == old(serializer).file_version,
        rec_valid(rec_model(*t)) ==> r is Ok && final(serializer).writer@ == old(serializer).writer@
            + rec_encode(rec_model(*t)),
        !rec_valid(rec_model(*t)) ==> r is Err,
    decreases *t, 1nat,
{
    let ghost m = rec_model(*t);
    let ghost ms = m.mid;
    proof {
        lemma_relays_model(t.mid@);
        lemma_list_valid(ms);
    }
    match serialize_opt(&t.left, serializer) {
        Ok(()) => {},
        Err(e) => {
            return Err(e);
        },
    }
    match serialize_opt(&t.right, serializer) {
        Ok(()) => {},
        Err(e) => {
            return Err(e);
        },
    }
    let ghost before_len = serializer.writer@;
    serializer.write_usize(t.mid.len());
    let ghost start = serializer.writer@;
    assert(ms.take(0) =~= Seq::<RecursiveModel>::empty());
    let mut i: usize = 0;
    while i < t.mid.len()
        invariant
            i <= t.mid.len(),
            ms == relays_model(t.mid@),
            ms.len() == t.mid@.len(),
            forall|j: int| 0 <= j < t.mid@.len() ==> #[trigger] ms[j] == rec_model(*t.mid@[j].relay),
            serializer.writer@ == start + list_encode(ms.take(i as int)),
            serializer.file_version == old(serializer).file_version,
            forall|j: int| 0 <= j < i ==> rec_valid(#[trigger] ms[j]),
            m == rec_model(*t),
            ms == m.mid,
            list_valid(ms) <==> forall|j: int| 0 <= j < ms.len() ==> rec_valid(#[trigger] ms[j]),
        decreases t.mid.len() - i,
    {
        let ghost before = serializer.writer@;
        proof {
            assert(decreases_to!(*t => t.mid));
            assert(decreases_to!(t.mid => t.mid@));
            assert(decreases_to!(t.mid@ => t.mid@[i as int]));
            assert(decreases_to!(t.mid@[i as int] => t.mid@[i as int].relay));
        }
        match serialize_rec(&t.mid[i].relay, serializer) {
            Ok(()) => {},
            Err(e) => {
                assert(!rec_valid(ms[i as int]));
                return Err(e);
            },
        }
        proof {
            lemma_list_encode_push(ms.take(i as int), ms[i as int]);
            assert(ms.take(i + 1) =~= ms.take(i as int).push(ms[i as int]));
        }
        i = i + 1;
    }
    assert(ms.take(i as int) =~= ms);
    assert(serializer.writer@ =~= old(serializer).writer@ + rec_encode(m));
    Ok(())
}

fn deserialize_opt(deserializer: &mut Deserializer) -> (r: Result<Option<Box<RecursiveType>>, SavefileError>)
    requires
        old(deserializer).wf(),
    ensures
        final(deserializer).wf(),
        final(deserializer).reader@ == old(deserializer).reader@,
        final(deserializer).file_version == old(deserializer).file_version,
        match opt_decode(old(deserializer).rest()) {
            Some((m, n)) => (r matches Ok(v) && (match v {
                Some(b) => Some(Box::new(rec_model(*b))),
                None => None,
            }) == m && old(deserializer).advanced(&*final(deserializer), n)),
            None => r is Err,
        },
    decreases old(deserializer).rest().len(), 0nat,
{
    let ghost s = deserializer.rest();
    if deserializer.pos >= deserializer.reader.len() {
        return Err(SavefileError::ShortRead);
    }
    let tag = deserializer.reader[deserializer.pos];
    if tag == 0 {
        deserializer.pos = deserializer.pos + 1;
        Ok(None)
    } else if tag == 1 {
        deserializer.pos = deserializer.pos + 1;
        assert(deserializer.rest() =~= s.skip(1));
        match deserialize_rec(deserializer) {
            Ok(v) => Ok(Some(Box::new(v))),
            Err(e) => Err(e),
        }
    } else {
        Err(SavefileError::BadDiscriminant)
    }
}

#[verifier::spinoff_prover]
fn deserialize_rec(deserializer: &mut Deserializer) -> (r: Result<RecursiveType, SavefileError>)
    requires
        old(deserializer).wf(),
    ensures
        final(deserializer).wf(),
        final(deserializer).reader@ == old(deserializer).reader@,
        final(deserializer).file_version == old(deserializer).file_version,
        match rec_decode(old(deserializer).rest()) {
            Some((m, n)) => (r matches Ok(v) && rec_model(v) == m && old(deserializer).advanced(
                &*final(deserializer),
                n,
            )),
            None => r is Err,
        },
    decreases old(deserializer).rest().len(), 1nat,
{
    let ghost s = deserializer.rest();
    let ghost p0 = deserializer.pos;
    let left = match deserialize_opt(deserializer) {
        Ok(v) => v,
        Err(e) => {
            return Err(e);
        },
    };
    let ghost a = (deserializer.pos - p0) as nat;
    assert(deserializer.rest() =~= s.skip(a as int));
    let right = match deserialize_opt(deserializer) {
        Ok(v) => v,
        Err(e) => {
            return Err(e);
        },
    };
    let ghost b = (deserializer.pos - p0 - a) as nat;
    assert(deserializer.rest() =~= s.skip((a + b) as int));
    let count = match deserializer.read_uint(8) {
        Ok(c) => c,
        Err(e) => {
            return Err(e);
        },
    };
    assert(s.skip((a + b) as int).take(8) =~= s.subrange((a + b) as int, (a + b + 8) as int));
    assert(deserializer.rest() =~= s.skip((a + b + 8) as int));
    let ghost s_mid = deserializer.rest();
    let ghost p_mid = deserializer.pos;
    let ghost lm = opt_model(left);
    let ghost rm = opt_model(right);
    assert(rec_decode(s) == (match list_decode(s_mid, count as nat) {
        None => None,
        Some((ms, c)) => if a + b + 8 + c <= s.len() {
            Some((RecursiveModel { left: lm, right: rm, mid: ms }, a + b + 8 + c))
        } else {
            None
        },
    }));
    let mut mid: Vec<Relay> = Vec::new();
    let mut i: u64 = 0;
    proof {
        lemma_relays_model(mid@);
        assert(relays_model(mid@) =~= Seq::<RecursiveModel>::empty());
        assert(s_mid.skip(0) =~= s_mid);
    }
    while i < count
        invariant
            i <= count,
            deserializer.wf(),
            deserializer.reader@ == old(deserializer).reader@,
            deserializer.file_version == old(deserializer).file_version,
            p_mid <= deserializer.pos,
            deserializer.rest().len() < s.len(),
            s == old(deserializer).rest(),
            p0 == old(deserializer).pos,
            p_mid == p0 + a + b + 8,
            rec_decode(s) == (match list_decode(s_mid, count as nat) {
                None => None,
                Some((ms, c)) => if a + b + 8 + c <= s.len() {
                    Some((RecursiveModel { left: lm, right: rm, mid: ms }, a + b + 8 + c))
                } else {
                    None
                },
            }),
            s_mid == deserializer.reader@.subrange(p_mid as int, deserializer.reader@.len() as int),
            deserializer.rest() == s_mid.skip(deserializer.pos - p_mid),
            relays_model(mid@).len() == i,
            list_decode(s_mid, count as nat) == (match list_decode(deserializer.rest(), (count - i) as nat) {
                Some((ms, j)) => Some((relays_model(mid@) + ms, ((deserializer.pos - p_mid) + j) as nat)),
                None => None::<(Seq<RecursiveModel>, nat)>,
            }),
        decreases count - i,
    {
        let ghost cur = deserializer.rest();
        let ghost pc = deserializer.pos;
        let v = match deserialize_rec(deserializer) {
            Ok(v) => v,
            Err(e) => {
                assert(list_decode(cur, (count - i) as nat) is None);
                return Err(e);
            },
        };
        let ghost k = (deserializer.pos - pc) as nat;
        assert(deserializer.rest() =~= cur.skip(k as int));
        let ghost before = mid@;
        mid.push(Relay { relay: Box::new(v) });
        proof {
            lemma_relays_model(before);
            lemma_relays_model(mid@);
            assert(relays_model(mid@) =~= relays_model(before).push(rec_model(v)));
            assert(deserializer.rest() =~= s_mid.skip(deserializer.pos - p_mid));
            match list_decode(deserializer.rest(), (count - i - 1) as nat) {
                Some((ms, j)) => {
                    assert(relays_model(mid@) + ms =~= relays_model(before) + (seq![rec_model(v)] + ms));
                },
                None => {},
            }
        }
        i = i + 1;
    }
    proof {
        assert(list_decode(deserializer.rest(), 0) == Some((Seq::<RecursiveModel>::empty(), 0nat)));
        assert(relays_model(mid@) + Seq::<RecursiveModel>::empty() =~= relays_model(mid@));
    }
    let r = RecursiveType { left, right, mid };
    assert(rec_model(r) == RecursiveModel { left: lm, right: rm, mid: relays_model(mid@) });
    Ok(r)
}

impl Model for RecursiveType {
    type M = RecursiveModel;

    open spec fn model(&self) -> RecursiveModel {
        rec_model(*self)
    }
}

impl Serialize for RecursiveType {
    open spec fn valid(version: u32, m: RecursiveModel) -> bool {
        rec_valid(m)
    }

    /// The left and right records as options, then the number of relays
    /// (eight bytes), then the record each relay holds.
    open spec fn encode(version: u32, m: RecursiveModel) -> Seq<u8> {
        rec_encode(m)
    }

    fn serialize(&self, serializer: &mut Serializer) -> (r: Result<(), SavefileError>) {
        serialize_rec(self, serializer)
    }
}

impl Deserialize for RecursiveType {
    open spec fn decode(version: u32, s: Seq<u8>) -> Option<(RecursiveModel, nat)> {
        rec_decode(s)
    }

    fn deserialize(deserializer: &mut Deserializer) -> (r: Result<RecursiveType, SavefileError>) {
        deserialize_rec(deserializer)
    }
}

impl Roundtrip for RecursiveType {
    open spec fn read_back(version: u32, m: RecursiveModel) -> RecursiveModel {
        m
    }

    proof fn lemma_roundtrip(version: u32, m: RecursiveModel, rest: Seq<u8>) {
        lemma_rec_roundtrip(m, rest);
    }
}

impl Model for Relay {
    /// The model of the record the relay holds.
    type M = RecursiveModel;

    open spec fn model(&self) -> RecursiveModel {
        rec_model(*self.relay)
    }
}

impl Serialize for Relay {
    open spec fn valid(version: u32, m: RecursiveModel) -> bool {
        rec_valid(m)
    }

    /// The bytes of the record it holds.
    open spec fn encode(version: u32, m: RecursiveModel) -> Seq<u8> {
        rec_encode(m)
    }

    fn serialize(&self, serializer: &mut Serializer) -> (r: Result<(), SavefileError>) {
        serialize_rec(&self.relay, serializer)
    }
}

impl Deserialize for Relay {
    open spec fn decode(version: u32, s: Seq<u8>) -> Option<(RecursiveModel, nat)> {
        rec_decode(s)
    }

    fn deserialize(deserializer: &mut Deserializer) -> (r: Result<Relay, SavefileError>) {
        match deserialize_rec(deserializer) {
            Ok(v) => Ok(Relay { relay: Box::new(v) }),
            Err(e) => Err(e),
        }
    }
}

impl Roundtrip for Relay {
    open spec fn read_back(version: u32, m: RecursiveModel) -> RecursiveModel {
        m
    }

    proof fn lemma_roundtrip(version: u32, m: RecursiveModel, rest: Seq<u8>) {
        lemma_rec_roundtrip(m, rest);
    }
}

/// The schema of a [`RecursiveType`] below its record node: a reference to
/// the record itself stands where it holds itself again.
pub open spec fn recursive_fields() -> Seq<SchemaNodeModel> {
    seq![
        SchemaNodeModel::Field(("left"@, false)),
        SchemaNodeModel::SchemaOption,
        SchemaNodeModel::Recursion(0usize),
        SchemaNodeModel::Field(("right"@, false)),
        SchemaNodeModel::SchemaOption,
        SchemaNodeModel::Recursion(0usize),
        SchemaNodeModel::Field(("mid"@, false)),
        SchemaNodeModel::Vector,
        SchemaNodeModel::Struct(("Relay"@, 1usize)),
        SchemaNodeModel::Field(("relay"@, false)),
        SchemaNodeModel::Recursion(1usize),
    ]
}

fn push_recursive_fields(nodes: &mut Vec<SchemaNode>)
    ensures
        final(nodes).model() == old(nodes).model() + recursive_fields(),
{
    push_field(nodes, "left", false);
    push_node(nodes, SchemaNode::SchemaOption);
    push_node(nodes, SchemaNode::Recursion(0));
    push_field(nodes, "right", false);
    push_node(nodes, SchemaNode::SchemaOption);
    push_node(nodes, SchemaNode::Recursion(0));
    push_field(nodes, "mid", false);
    push_node(nodes, SchemaNode::Vector);
    push_struct(nodes, "Relay", 1);
    push_field(nodes, "relay", false);
    push_node(nodes, SchemaNode::Recursion(1));
    assert(nodes.model() =~= old(nodes).model() + recursive_fields());
}

impl WithSchema for RecursiveType {
    open spec fn schema_nodes(version: u32) -> Seq<SchemaNodeModel> {
        seq![SchemaNodeModel::Struct(("RecursiveType"@, 3usize))] + recursive_fields()
    }

    fn schema(version: u32, nodes: &mut Vec<SchemaNode>) {
        push_struct(nodes, "RecursiveType", 3);
        push_recursive_fields(nodes);
        assert(nodes.model() =~= old(nodes).model() + Self::schema_nodes(version));
    }
}

impl WithSchema for Relay {
    open spec fn schema_nodes(version: u32) -> Seq<SchemaNodeModel> {
        seq![
            SchemaNodeModel::Struct(("Relay"@, 1usize)),
            SchemaNodeModel::Field(("relay"@, false)),
            SchemaNodeModel::Struct(("RecursiveType"@, 3usize)),
        ] + recursive_fields()
    }

    fn schema(version: u32, nodes: &mut Vec<SchemaNode>) {
        push_struct(nodes, "Relay", 1);
        push_field(nodes, "relay", false);
        push_struct(nodes, "RecursiveType", 3);
        push_recursive_fields(nodes);
        assert(nodes.model() =~= old(nodes).model() + Self::schema_nodes(version));
    }
}

} // verus!
