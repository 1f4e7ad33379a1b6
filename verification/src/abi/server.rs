//! The decisions of a server of interface objects and of its clients: which
//! request a connection's bytes hold, what the server does about it, the
//! bytes it answers with, and what a client makes of those answers. Sending
//! and receiving the bytes, and calling the implementations, is up to the caller.
use vstd::prelude::*;

use crate::abi::callee::slice_to_vec;
use crate::abi::connection::{utf8_lossy, AbiErrorMsg, CallOutcome, RawAbiCallResult};
use crate::abi::wire::{RemoteCallResult, RemoteCallResultModel, RemoteRequest, RemoteRequestModel};
use crate::error::SavefileError;
use crate::introspect::{decimal, to_decimal};
use crate::le::le_bytes;
use crate::serializer::{Deserializer, Serializer};
use crate::traits::{Deserialize, Model, Serialize};

verus! {

/// The position of `n` in `names`, if it is there.
pub open spec fn position_of(names: Seq<Seq<char>>, n: Seq<char>) -> Option<int> {
    if exists|i: int| 0 <= i < names.len() && names[i] == n {
        Some(choose|i: int| 0 <= i < names.len() && names[i] == n)
    } else {
        None
    }
}

/// No name occurs twice in `names`.
pub open spec fn distinct_names(names: Seq<Seq<char>>) -> bool {
    forall|i: int, j: int| 0 <= i < names.len() && 0 <= j < names.len() && i != j ==> names[i] != names[j]
}

/// The error text for a request about an interface the server does not support.
pub open spec fn unsupported_trait_message(name: Seq<char>) -> Seq<char> {
    "Unsupported trait '"@ + name + "'"@
}

/// The error text for a version request about an interface the server does not support.
pub open spec fn unknown_name_message(name: Seq<char>) -> Seq<char> {
    "Unknown object[1] 'TraitName(\""@ + name + "\")'"@
}

/// The error text for command `command` about an object the server does not hold.
pub open spec fn unknown_object_message(command: nat, key: (usize, usize)) -> Seq<char> {
    "Unknown object["@ + decimal(command) + "]: TraitKey(("@ + decimal(key.0 as nat) + ", "@ + decimal(
        key.1 as nat,
    ) + "))"@
}

/// The error text for a command number the server does not know.
pub open spec fn unsupported_command_message(command: u8) -> Seq<char> {
    "Unsupported command: "@ + decimal(command as nat)
}

/// Whether `c` is the number of one of the commands a server understands.
pub open spec fn known_command(c: u8) -> bool {
    c == 0 || c == 1 || (3 <= c && c <= 7)
}

/// An object a client has asked the server to make, and the position of its interface.
pub struct ActiveObject {
    /// How the object is known to the client.
    pub object: (usize, usize),
    /// The position of the object's interface among the supported ones.
    pub type_index: usize,
}

/// What a server knows on one connection: the interfaces it supports, by
/// position, and the objects it has made for the client.
pub struct ServerContext {
    names: Vec<String>,
    active: Vec<ActiveObject>,
}

/// What the server does about a request.
#[derive(Debug)]
pub enum ServerAction {
    /// Stop serving the connection.
    Finish,
    /// Ask the implementation of supported interface `type_index` for a new object.
    CreateInstance { type_index: usize },
    /// Drop the object, of supported interface `type_index`.
    DropInstance { type_index: usize, object: (usize, usize) },
    /// Ask supported interface `type_index` for its definition.
    InterrogateMethods {
        type_index: usize,
        schema_version_required: u16,
        callee_schema_version_interrogated: u32,
    },
    /// Ask supported interface `type_index` for its versions.
    InterrogateVersion { type_index: usize },
    /// Call method `method_number` of the object with the encoded arguments.
    CallInstanceMethod { type_index: usize, object: (usize, usize), method_number: u16, args: Vec<u8> },
    /// Stop serving the connection, with this error.
    Fail(SavefileError),
}

/// A text joined from a literal part and a string.
fn joined(a: &str, b: &str) -> (r: String)
    ensures
        r@ == a@ + b@,
{
    let mut s = String::from_str(a);
    s.append(b);
    s
}

/// The error for command `command` about an object the server does not hold.
fn unknown_object(command: u64, key: (usize, usize)) -> (r: SavefileError)
    ensures
        r matches SavefileError::GeneralError { msg } && msg@ == unknown_object_message(command as nat, key),
{
    let mut s = String::from_str("Unknown object[");
    let c = to_decimal(command);
    s.append(c.as_str());
    s.append("]: TraitKey((");
    let a = to_decimal(key.0 as u64);
    s.append(a.as_str());
    s.append(", ");
    let b = to_decimal(key.1 as u64);
    s.append(b.as_str());
    s.append("))");
    SavefileError::GeneralError { msg: s }
}

impl ServerContext {
    /// The supported interfaces' names, by position.
    pub closed spec fn names(&self) -> Seq<Seq<char>> {
        self.names@.map_values(|s: String| s@)
    }

    /// The objects made for the client, with the positions of their interfaces.
    pub closed spec fn objects(&self) -> Map<(usize, usize), usize> {
        Map::new(
            |k: (usize, usize)| exists|i: int| 0 <= i < self.active@.len() && self.active@[i].object == k,
            |k: (usize, usize)|
                self.active@[choose|i: int| 0 <= i < self.active@.len() && self.active@[i].object == k].type_index,
        )
    }

    /// Names are distinct, objects are held once each, and each object's
    /// interface is a supported one.
    pub closed spec fn wf(&self) -> bool {
        &&& distinct_names(self.names())
        &&& forall|i: int, j: int|
            0 <= i < self.active@.len() && 0 <= j < self.active@.len() && i != j
                ==> self.active@[i].object != self.active@[j].object
        &&& forall|i: int| 0 <= i < self.active@.len() ==> self.active@[i].type_index < self.names@.len()
    }

    /// A context for a new connection to a server supporting the interfaces `names`.
    pub fn new(names: Vec<String>) -> (r: Option<ServerContext>)
        ensures
            r is Some <==> distinct_names(names@.map_values(|s: String| s@)),
            r matches Some(c) ==> c.wf() && c.names() == names@.map_values(|s: String| s@)
                && c.objects() == Map::<(usize, usize), usize>::empty(),
    {
        let ghost m = names@.map_values(|s: String| s@);
        let mut i: usize = 0;
        while i < names.len()
            invariant
                i <= names.len(),
                m == names@.map_values(|s: String| s@),
                forall|a: int, b: int| 0 <= a < i && 0 <= b < names.len() && a != b ==> m[a] != m[b],
            decreases names.len() - i,
        {
            let mut j: usize = 0;
            while j < names.len()
                invariant
                    i < names.len(),
                    j <= names.len(),
                    m == names@.map_values(|s: String| s@),
                    forall|a: int, b: int| 0 <= a < i && 0 <= b < names.len() && a != b ==> m[a] != m[b],
                    forall|b: int| 0 <= b < j && b != i ==> m[i as int] != m[b],
                decreases names.len() - j,
            {
                if j != i && names[i] == names[j] {
                    assert(m[i as int] == m[j as int]);
                    return None;
                }
                j = j + 1;
            }
            i = i + 1;
        }
        let c = ServerContext { names, active: Vec::new() };
        assert(c.objects() =~= Map::<(usize, usize), usize>::empty());
        Some(c)
    }

    /// The position of the interface called `name`.
    fn position(&self, name: &String) -> (r: Option<usize>)
        requires
            self.wf(),
        ensures
            match position_of(self.names(), name@) {
                Some(i) => r == Some(i as usize),
                None => r is None,
            },
    {
        let mut i: usize = 0;
        while i < self.names.len()
            invariant
                i <= self.names.len(),
                self.wf(),
                forall|j: int| 0 <= j < i ==> self.names()[j] != name@,
            decreases self.names.len() - i,
        {
            if self.names[i] == *name {
                assert(self.names()[i as int] == name@);
                proof {
                    let c = choose|c: int| 0 <= c < self.names().len() && self.names()[c] == name@;
                    if c != i {
                        assert(self.names()[c] != self.names()[i as int]);
                    }
                }
                return Some(i);
            }
            i = i + 1;
        }
        None
    }

    /// Where the object `key` is held.
    fn slot(&self, key: (usize, usize)) -> (r: Option<usize>)
        requires
            self.wf(),
        ensures
            r matches Some(i) ==> i < self.active@.len() && self.active@[i as int].object == key,
            r is None <==> !self.objects().dom().contains(key),
    {
        let mut i: usize = 0;
        while i < self.active.len()
            invariant
                i <= self.active.len(),
                forall|j: int| 0 <= j < i ==> self.active@[j].object != key,
            decreases self.active.len() - i,
        {
            if self.active[i].object.0 == key.0 && self.active[i].object.1 == key.1 {
                return Some(i);
            }
            i = i + 1;
        }
        None
    }

    /// The interface of the object in `slot`.
    proof fn lemma_slot(&self, key: (usize, usize), i: int)
        requires
            self.wf(),
            0 <= i < self.active@.len(),
            self.active@[i].object == key,
        ensures
            self.objects().dom().contains(key),
            self.objects()[key] == self.active@[i].type_index,
    {
        let c = choose|c: int| 0 <= c < self.active@.len() && self.active@[c].object == key;
        if c != i {
            assert(self.active@[c].object != self.active@[i].object);
        }
    }

    /// What the server does about `request`: stops on the two closing
    /// commands; otherwise finds the interface or object the request is about,
    /// and fails where there is none.
    #[verifier::spinoff_prover]
    pub fn decide(&self, request: RemoteRequest) -> (r: ServerAction)
        requires
            self.wf(),
        ensures
            match request.model() {
                RemoteRequestModel::StopListener => r is Finish,
                RemoteRequestModel::Close => r is Finish,
                RemoteRequestModel::CreateInstance(name) => match position_of(self.names(), name) {
                    Some(i) => r == ServerAction::CreateInstance { type_index: i as usize },
                    None => r matches ServerAction::Fail(SavefileError::GeneralError { msg })
                        && msg@ == unsupported_trait_message(name),
                },
                RemoteRequestModel::InterrogateMethods((name, required, interrogated)) => match position_of(
                    self.names(),
                    name,
                ) {
                    Some(i) => r == ServerAction::InterrogateMethods {
                        type_index: i as usize,
                        schema_version_required: required,
                        callee_schema_version_interrogated: interrogated,
                    },
                    None => r matches ServerAction::Fail(SavefileError::GeneralError { msg })
                        && msg@ == unsupported_trait_message(name),
                },
                RemoteRequestModel::InterrogateVersion(name) => match position_of(self.names(), name) {
                    Some(i) => r == ServerAction::InterrogateVersion { type_index: i as usize },
                    None => r matches ServerAction::Fail(SavefileError::GeneralError { msg })
                        && msg@ == unknown_name_message(name),
                },
                RemoteRequestModel::DropInstance(key) => if self.objects().dom().contains(key) {
                    r == ServerAction::DropInstance { type_index: self.objects()[key], object: key }
                } else {
                    r matches ServerAction::Fail(SavefileError::GeneralError { msg })
                        && msg@ == unknown_object_message(5, key)
                },
                RemoteRequestModel::CallInstanceMethod((key, method, args)) => if self.objects().dom().contains(
                    key,
                ) {
                    r matches ServerAction::CallInstanceMethod {
                        type_index,
                        object,
                        method_number,
                        args: a,
                    } && type_index == self.objects()[key] && object == key && method_number == method
                        && a.model() == args
                } else {
                    r matches ServerAction::Fail(SavefileError::GeneralError { msg })
                        && msg@ == unknown_object_message(0, key)
                },
            },
    {
        match request {
            RemoteRequest::StopListener => ServerAction::Finish,
            RemoteRequest::Close => ServerAction::Finish,
            RemoteRequest::CreateInstance { trait_name } => match self.position(&trait_name) {
                Some(i) => ServerAction::CreateInstance { type_index: i },
                None => ServerAction::Fail(
                    SavefileError::GeneralError {
                        msg: joined(joined("Unsupported trait '", trait_name.as_str()).as_str(), "'"),
                    },
                ),
            },
            RemoteRequest::InterrogateMethods {
                trait_name,
                schema_version_required,
                callee_schema_version_interrogated,
            } => match self.position(&trait_name) {
                Some(i) => ServerAction::InterrogateMethods {
                    type_index: i,
                    schema_version_required,
                    callee_schema_version_interrogated,
                },
                None => ServerAction::Fail(
                    SavefileError::GeneralError {
                        msg: joined(joined("Unsupported trait '", trait_name.as_str()).as_str(), "'"),
                    },
                ),
            },
            RemoteRequest::InterrogateVersion { trait_name } => match self.position(&trait_name) {
                Some(i) => ServerAction::InterrogateVersion { type_index: i },
                None => ServerAction::Fail(
                    SavefileError::GeneralError {
                        msg: joined(
                            joined("Unknown object[1] 'TraitName(\"", trait_name.as_str()).as_str(),
                            "\")'",
                        ),
                    },
                ),
            },
            RemoteRequest::DropInstance { object } => match self.slot(object) {
                Some(i) => {
                    proof {
                        self.lemma_slot(object, i as int);
                    }
                    ServerAction::DropInstance { type_index: self.active[i].type_index, object }
                },
                None => ServerAction::Fail(unknown_object(5, object)),
            },
            RemoteRequest::CallInstanceMethod { object, method_number, args } => match self.slot(object) {
                Some(i) => {
                    proof {
                        self.lemma_slot(object, i as int);
                    }
                    ServerAction::CallInstanceMethod {
                        type_index: self.active[i].type_index,
                        object,
                        method_number,
                        args,
                    }
                },
                None => ServerAction::Fail(unknown_object(0, object)),
            },
        }
    }

    /// Records the outcome of making an object of interface `type_index`, and
    /// gives the answer to send: where the implementation reported an error,
    /// 0 and the error text; otherwise 1 and the new object, which the server
    /// now holds.
    pub fn created(&mut self, type_index: usize, error: &String, object: (usize, usize)) -> (r: Vec<u8>)
        requires
            old(self).wf(),
            type_index < old(self).names().len(),
        ensures
            final(self).wf(),
            final(self).names() == old(self).names(),
            error@.len() > 0 ==> r@ == seq![0u8] + <String as Serialize>::encode(0, error@)
                && final(self).objects() == old(self).objects(),
            error@.len() == 0 ==> r@ == seq![1u8] + <(usize, usize) as Serialize>::encode(0, object)
                && final(self).objects() == old(self).objects().insert(object, type_index),
    {
        let mut ser = Serializer::new(0);
        if error.as_str().unicode_len() > 0 {
            ser.write_u8(0);
            let b = error.as_str().as_bytes();
            ser.write_usize(b.len());
            ser.write_bytes(b);
            assert(ser.writer@ =~= seq![0u8] + <String as Serialize>::encode(0, error@)) by {
                assert(le_bytes(0, 1) =~= seq![0u8]) by {
                    reveal_with_fuel(crate::le::le_bytes, 2);
                }
            }
            return ser.writer;
        }
        ser.write_u8(1);
        ser.write_usize(object.0);
        ser.write_usize(object.1);
        assert(ser.writer@ =~= seq![1u8] + <(usize, usize) as Serialize>::encode(0, object)) by {
            assert(le_bytes(1, 1) =~= seq![1u8]) by {
                reveal_with_fuel(crate::le::le_bytes, 2);
            }
        }
        let ghost before = *self;
        match self.slot(object) {
            Some(i) => {
                self.active.set(i, ActiveObject { object, type_index });
                proof {
                    self.lemma_after_store(&before, object, type_index, i as int);
                }
            },
            None => {
                self.active.push(ActiveObject { object, type_index });
                proof {
                    self.lemma_after_store(&before, object, type_index, before.active@.len() as int);
                }
            },
        }
        ser.writer
    }

    /// Storing an object at position `i`, where it was or at the end, inserts it.
    #[verifier::spinoff_prover]
    proof fn lemma_after_store(
        &self,
        before: &ServerContext,
        object: (usize, usize),
        type_index: usize,
        i: int,
    )
        requires
            before.wf(),
            type_index < before.names@.len(),
            self.names == before.names,
            0 <= i < self.active@.len(),
            i <= before.active@.len(),
            self.active@[i] == (ActiveObject { object, type_index }),
            i < before.active@.len() ==> before.active@[i].object == object && self.active@.len()
                == before.active@.len(),
            i == before.active@.len() ==> self.active@.len() == before.active@.len() + 1
                && !before.objects().dom().contains(object),
            forall|j: int| 0 <= j < self.active@.len() && j != i ==> self.active@[j] == before.active@[j],
        ensures
            self.wf(),
            self.names() == before.names(),
            self.objects() == before.objects().insert(object, type_index),
    {
        assert forall|a: int, b: int|
            0 <= a < self.active@.len() && 0 <= b < self.active@.len() && a != b implies self.active@[a].object
            != self.active@[b].object by {
            if a == i {
                if i < before.active@.len() {
                    assert(before.active@[b].object != before.active@[i].object);
                } else {
                    before.lemma_slot(before.active@[b].object, b);
                }
            } else if b == i {
                if i < before.active@.len() {
                    assert(before.active@[a].object != before.active@[i].object);
                } else {
                    before.lemma_slot(before.active@[a].object, a);
                }
            } else {
            }
        }
        assert(self.wf());
        assert(self.objects() =~= before.objects().insert(object, type_index)) by {
            assert forall|k: (usize, usize)| #[trigger] self.objects().dom().contains(k) <==> before.objects().insert(
                object,
                type_index,
            ).dom().contains(k) by {
                if k != object {
                    if self.objects().dom().contains(k) {
                        let c = choose|c: int| 0 <= c < self.active@.len() && self.active@[c].object == k;
                        assert(c != i);
                        assert(before.active@[c].object == k);
                    }
                    if before.objects().dom().contains(k) {
                        let c = choose|c: int| 0 <= c < before.active@.len() && before.active@[c].object == k;
                        assert(c != i);
                        assert(self.active@[c].object == k);
                    }
                } else {
                    assert(self.active@[i].object == k);
                }
            }
            assert forall|k: (usize, usize)| #[trigger] self.objects().dom().contains(k) implies self.objects()[k]
                == before.objects().insert(object, type_index)[k] by {
                let c = choose|c: int| 0 <= c < self.active@.len() && self.active@[c].object == k;
                if k == object {
                    if c != i {
                        assert(self.active@[c].object != self.active@[i].object);
                    }
                } else {
                    assert(c != i);
                    before.lemma_slot(k, c);
                }
            }
        }
    }
}

/// The answer to a request to drop an object: an empty error text.
pub fn dropped_reply() -> (r: Vec<u8>)
    ensures
        r@ == <String as Serialize>::encode(0, Seq::<char>::empty()),
{
    let mut ser = Serializer::new(0);
    ser.write_usize(0);
    assert(vstd::utf8::encode_utf8(Seq::<char>::empty()) =~= Seq::<u8>::empty());
    assert(ser.writer@ =~= <String as Serialize>::encode(0, Seq::<char>::empty()));
    ser.writer
}

/// The answer to a version request: the schema version (2 bytes), then the
/// interface version (4 bytes).
pub fn version_reply(schema_version: u16, abi_version: u32) -> (r: Vec<u8>)
    ensures
        r@ == le_bytes(schema_version as nat, 2) + le_bytes(abi_version as nat, 4),
{
    let mut ser = Serializer::new(0);
    ser.write_u16(schema_version);
    ser.write_u32(abi_version);
    assert(ser.writer@ =~= le_bytes(schema_version as nat, 2) + le_bytes(abi_version as nat, 4));
    ser.writer
}

/// The answer to a request for an interface's definition: the schema version
/// it is written in (2 bytes), its length (8 bytes), then the definition's bytes.
pub fn methods_reply(callee_schema_version: u16, definition: &[u8]) -> (r: Vec<u8>)
    ensures
        r@ == le_bytes(callee_schema_version as nat, 2) + le_bytes(definition@.len(), 8) + definition@,
{
    let mut ser = Serializer::new(0);
    ser.write_u16(callee_schema_version);
    ser.write_usize(definition.len());
    ser.write_bytes(definition);
    assert(ser.writer@ =~= le_bytes(callee_schema_version as nat, 2) + le_bytes(definition@.len(), 8)
        + definition@);
    ser.writer
}

/// Reads the request at the front of `bytes`, and how many bytes it takes.
/// An empty input is too short; a command number the server does not know is
/// refused with its number; the rest is read as the request encoding says.
pub fn read_request(bytes: &[u8]) -> (r: Result<(RemoteRequest, usize), SavefileError>)
    ensures
        bytes@.len() == 0 ==> r matches Err(SavefileError::ShortRead),
        bytes@.len() > 0 && !known_command(bytes@[0]) ==> (r matches Err(
            SavefileError::GeneralError { msg },
        ) && msg@ == unsupported_command_message(bytes@[0])),
        bytes@.len() > 0 && known_command(bytes@[0]) ==> match RemoteRequest::decode(0, bytes@) {
            Some((m, n)) => r matches Ok((q, k)) && q.model() == m && k == n,
            None => r is Err,
        },
{
    if bytes.len() == 0 {
        return Err(SavefileError::ShortRead);
    }
    let c = bytes[0];
    if !(c == 0 || c == 1 || (3 <= c && c <= 7)) {
        let d = to_decimal(c as u64);
        return Err(SavefileError::GeneralError { msg: joined("Unsupported command: ", d.as_str()) });
    }
    let mut deserializer = Deserializer::new(bytes, 0);
    match RemoteRequest::deserialize(&mut deserializer) {
        Ok(q) => Ok((q, deserializer.pos)),
        Err(e) => Err(e),
    }
}

/// What a client makes of the answer to a request for a new object: the
/// object where the answer starts with 1, otherwise the error text that follows.
pub fn read_create_reply(bytes: &[u8]) -> (r: Result<Result<(usize, usize), String>, SavefileError>)
    ensures
        bytes@.len() == 0 ==> r matches Err(SavefileError::ShortRead),
        bytes@.len() > 0 && bytes@[0] == 1 ==> match <(usize, usize) as Deserialize>::decode(
            0,
            bytes@.skip(1),
        ) {
            Some((k, _)) => r == Ok::<Result<(usize, usize), String>, SavefileError>(Ok(k)),
            None => r is Err,
        },
        bytes@.len() > 0 && bytes@[0] != 1 ==> match <String as Deserialize>::decode(0, bytes@.skip(1)) {
            Some((s, _)) => r matches Ok(Err(t)) && t@ == s,
            None => r is Err,
        },
{
    let mut deserializer = Deserializer::new(bytes, 0);
    let tag = match deserializer.read_uint(1) {
        Ok(t) => t,
        Err(e) => {
            return Err(e);
        },
    };
    proof {
        reveal_with_fuel(crate::le::pow256, 2);
        assert(bytes@.take(1) =~= seq![bytes@[0]]);
        assert(crate::le::le_value(seq![bytes@[0]]) == bytes@[0]) by {
            reveal_with_fuel(crate::le::le_value, 2);
            assert(seq![bytes@[0]].drop_first() =~= Seq::<u8>::empty());
        }
    }
    assert(deserializer.rest() =~= bytes@.skip(1));
    if tag == 1 {
        match <(usize, usize) as Deserialize>::deserialize(&mut deserializer) {
            Ok(k) => Ok(Ok(k)),
            Err(e) => Err(e),
        }
    } else {
        match String::deserialize(&mut deserializer) {
            Ok(s) => Ok(Err(s)),
            Err(e) => Err(e),
        }
    }
}

/// What a client makes of the answer to a request to drop an object: an empty
/// text means done, any other text is the server's error.
pub fn read_drop_reply(bytes: &[u8]) -> (r: Result<(), SavefileError>)
    ensures
        match <String as Deserialize>::decode(0, bytes@) {
            Some((s, _)) => if s.len() == 0 {
                r is Ok
            } else {
                r matches Err(SavefileError::GeneralError { msg }) && msg@ == s
            },
            None => r is Err,
        },
{
    let mut deserializer = Deserializer::new(bytes, 0);
    match String::deserialize(&mut deserializer) {
        Ok(s) => {
            if s.as_str().unicode_len() == 0 {
                Ok(())
            } else {
                Err(SavefileError::GeneralError { msg: s })
            }
        },
        Err(e) => Err(e),
    }
}

/// What a client makes of the answer to a method call: the return value's
/// bytes, or, where the implementation panicked or refused, an error with the
/// message's UTF-8 bytes.
pub fn read_call_reply(bytes: &[u8]) -> (r: Result<RawAbiCallResult, SavefileError>)
    ensures
        match RemoteCallResult::decode(0, bytes@) {
            Some((m, _)) => r matches Ok(c) && c.model() == (match m {
                RemoteCallResultModel::Success(d) => CallOutcome::Success(d),
                RemoteCallResultModel::Panic(p) => CallOutcome::AbiError(vstd::utf8::encode_utf8(p)),
                RemoteCallResultModel::AbiError(e) => CallOutcome::AbiError(vstd::utf8::encode_utf8(e)),
            }),
            None => r is Err,
        },
{
    let mut deserializer = Deserializer::new(bytes, 0);
    match RemoteCallResult::deserialize(&mut deserializer) {
        Ok(RemoteCallResult::Success(d)) => {
            assert(d.model() =~= d@);
            Ok(RawAbiCallResult::Success { data: d })
        },
        Ok(RemoteCallResult::Panic(p)) => Ok(
            RawAbiCallResult::AbiError(AbiErrorMsg { error_msg_utf8: slice_to_vec(p.as_str().as_bytes()) }),
        ),
        Ok(RemoteCallResult::AbiError(e)) => Ok(
            RawAbiCallResult::AbiError(AbiErrorMsg { error_msg_utf8: slice_to_vec(e.as_str().as_bytes()) }),
        ),
        Err(e) => Err(e),
    }
}

/// What the server answers to the outcome of a call: the bytes of a return
/// value as they are; a panic or a refusal with its message as text.
pub fn answer_call(outcome: &RawAbiCallResult) -> (r: RemoteCallResult)
    ensures
        r.model() == (match outcome.model() {
            CallOutcome::Success(d) => RemoteCallResultModel::Success(d),
            CallOutcome::Panic(b) => RemoteCallResultModel::Panic(utf8_lossy(b)),
            CallOutcome::AbiError(b) => RemoteCallResultModel::AbiError(utf8_lossy(b)),
        }),
{
    match outcome {
        RawAbiCallResult::Success { data } => {
            let d = slice_to_vec(data.as_slice());
            assert(d.model() =~= d@);
            RemoteCallResult::Success(d)
        },
        RawAbiCallResult::Panic(m) => RemoteCallResult::Panic(m.convert_to_string()),
        RawAbiCallResult::AbiError(m) => RemoteCallResult::AbiError(m.convert_to_string()),
    }
}

} // verus!
