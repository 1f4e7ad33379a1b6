//! Whole files: a header, then one value.
use vstd::prelude::*;

use crate::error::SavefileError;
use crate::le::{le_bytes, le_value, lemma_le_roundtrip, pow256};
use crate::schema::nodes::{SchemaNode, SchemaNodeModel};
use crate::schema::{diff_schema, schemas_compatible, Schema};
use crate::schema::with_schema::{get_schema, WithSchema};
use crate::serializer::{Deserializer, Serializer};
use crate::traits::{Deserialize, Model, Roundtrip, Serialize};

verus! {

/// The version of the file layout this library writes, and the highest it reads.
pub const CURRENT_SAVEFILE_LIB_VERSION: u16 = 2;

/// The nine bytes every file starts with: "savefile" and a zero byte.
pub open spec fn magic() -> Seq<u8> {
    seq![115u8, 97u8, 118u8, 101u8, 102u8, 105u8, 108u8, 101u8, 0u8]
}

/// The sixteen bytes in front of the data of a file with the given data version:
/// the magic bytes, the layout version (two bytes), the data version (four bytes)
/// and a zero byte that marks the data as uncompressed.
pub open spec fn header(version: u32) -> Seq<u8> {
    magic() + le_bytes(CURRENT_SAVEFILE_LIB_VERSION as nat, 2) + le_bytes(version as nat, 4) + seq![0u8]
}

/// The data version stored in the header of `s`, if `s` starts with a header that
/// a reader which knows data versions up to `version` accepts.
pub open spec fn accepted_header(s: Seq<u8>, version: u32) -> Option<u32> {
    if s.len() >= 16 && s.take(9) == magic() && le_value(s.subrange(9, 11))
        <= CURRENT_SAVEFILE_LIB_VERSION && le_value(s.subrange(11, 15)) <= version && s[15] == 0 {
        Some(le_value(s.subrange(11, 15)) as u32)
    } else {
        None
    }
}

/// What `load_noschema` gives for `s`: the model of the value and the number of bytes used.
pub open spec fn load_noschema_model<T: Deserialize>(s: Seq<u8>, version: u32) -> Option<(<T as Model>::M, nat)> {
    match accepted_header(s, version) {
        Some(fv) => match T::decode(fv, s.skip(16)) {
            Some((m, n)) => Some((m, n + 16)),
            None => None,
        },
        None => None,
    }
}

fn write_header(serializer: &mut Serializer, version: u32)
    ensures
        final(serializer).writer@ == old(serializer).writer@ + header(version),
        final(serializer).file_version == old(serializer).file_version,
{
    let ghost start = serializer.writer@;
    serializer.writer.push(115u8);
    serializer.writer.push(97u8);
    serializer.writer.push(118u8);
    serializer.writer.push(101u8);
    serializer.writer.push(102u8);
    serializer.writer.push(105u8);
    serializer.writer.push(108u8);
    serializer.writer.push(101u8);
    serializer.writer.push(0u8);
    serializer.write_u16(CURRENT_SAVEFILE_LIB_VERSION);
    serializer.write_u32(version);
    serializer.writer.push(0u8);
    assert(serializer.writer@ =~= start + header(version));
}

/// Reads and checks the header; on success the reader stands at the data.
fn read_header(deserializer: &mut Deserializer, version: u32) -> (r: Result<u32, SavefileError>)
    requires
        old(deserializer).wf(),
    ensures
        final(deserializer).wf(),
        final(deserializer).reader@ == old(deserializer).reader@,
        final(deserializer).file_version == old(deserializer).file_version,
        match accepted_header(old(deserializer).rest(), version) {
            Some(v) => r == Ok::<u32, SavefileError>(v) && old(deserializer).advanced(&*final(deserializer), 16),
            None => r is Err,
        },
{
    let ghost s = deserializer.rest();
    if deserializer.remaining() < 16 {
        return Err(SavefileError::ShortRead);
    }
    let p = deserializer.pos;
    let d = deserializer.reader;
    if !(d[p] == 115u8 && d[p + 1] == 97u8 && d[p + 2] == 118u8 && d[p + 3] == 101u8
        && d[p + 4] == 102u8 && d[p + 5] == 105u8 && d[p + 6] == 108u8 && d[p + 7] == 101u8
        && d[p + 8] == 0u8) {
        assert(s.take(9) != magic()) by {
            if s.take(9) == magic() {
                assert(s.take(9)[0] == d@[p as int]);
                assert(s.take(9)[1] == d@[p + 1]);
                assert(s.take(9)[2] == d@[p + 2]);
                assert(s.take(9)[3] == d@[p + 3]);
                assert(s.take(9)[4] == d@[p + 4]);
                assert(s.take(9)[5] == d@[p + 5]);
                assert(s.take(9)[6] == d@[p + 6]);
                assert(s.take(9)[7] == d@[p + 7]);
                assert(s.take(9)[8] == d@[p + 8]);
            }
        }
        return Err(SavefileError::NotASavefile);
    }
    assert(s.take(9) =~= magic());
    deserializer.pos = p + 9;
    let ghost s1 = deserializer.rest();
    let lib = match deserializer.read_uint(2) {
        Ok(v) => v,
        Err(e) => {
            return Err(e);
        },
    };
    assert(s1.take(2) =~= s.subrange(9, 11));
    if lib > CURRENT_SAVEFILE_LIB_VERSION as u64 {
        return Err(SavefileError::IncompatibleSavefileLibraryVersion);
    }
    let ghost s2 = deserializer.rest();
    let file_version = match deserializer.read_uint(4) {
        Ok(v) => v,
        Err(e) => {
            return Err(e);
        },
    };
    assert(s2.take(4) =~= s.subrange(11, 15));
    if file_version > version as u64 {
        return Err(SavefileError::WrongVersion);
    }
    let c = deserializer.reader[deserializer.pos];
    assert(c == s[15]);
    if c == 1 {
        return Err(SavefileError::CompressionSupportNotCompiledIn);
    } else if c != 0 {
        return Err(SavefileError::BadDiscriminant);
    }
    deserializer.pos = deserializer.pos + 1;
    Ok(file_version as u32)
}

proof fn lemma_header_accepted(version: u32, rest: Seq<u8>)
    ensures
        accepted_header(header(version) + rest, version) == Some(version),
        (header(version) + rest).skip(16) == rest,
        header(version).len() == 16,
{
    reveal_with_fuel(pow256, 5);
    lemma_le_roundtrip(CURRENT_SAVEFILE_LIB_VERSION as nat, 2);
    lemma_le_roundtrip(version as nat, 4);
    let s = header(version) + rest;
    assert(s.take(9) =~= magic());
    assert(s.subrange(9, 11) =~= le_bytes(CURRENT_SAVEFILE_LIB_VERSION as nat, 2));
    assert(s.subrange(11, 15) =~= le_bytes(version as nat, 4));
    assert(s.skip(16) =~= rest);
}

/// Writes `data` with no header, using the given data version.
pub fn bare_serialize<T: Serialize>(version: u32, data: &T) -> (r: Result<Vec<u8>, SavefileError>)
    ensures
        r is Ok <==> T::valid(version, data.model()),
        r matches Ok(bytes) ==> bytes@ == T::encode(version, data.model()),
{
    let mut serializer = Serializer::new(version);
    match data.serialize(&mut serializer) {
        Ok(()) => {},
        Err(e) => {
            return Err(e);
        },
    }
    assert(serializer.writer@ =~= T::encode(version, data.model()));
    Ok(serializer.writer)
}

/// Reads a value that was written with no header.
pub fn bare_deserialize<T: Deserialize>(data: &[u8], version: u32) -> (r: Result<T, SavefileError>)
    ensures
        match T::decode(version, data@) {
            Some((m, _)) => r matches Ok(v) && v.model() == m,
            None => r is Err,
        },
{
    let mut deserializer = Deserializer::new(data, version);
    T::deserialize(&mut deserializer)
}

/// Writes a header followed by `data`.
pub fn save_noschema<T: Serialize>(version: u32, data: &T) -> (r: Result<Vec<u8>, SavefileError>)
    ensures
        r is Ok <==> T::valid(version, data.model()),
        r matches Ok(bytes) ==> bytes@ == header(version) + T::encode(version, data.model()),
{
    let mut serializer = Serializer::new(version);
    write_header(&mut serializer, version);
    match data.serialize(&mut serializer) {
        Ok(()) => {},
        Err(e) => {
            return Err(e);
        },
    }
    assert(serializer.writer@ =~= header(version) + T::encode(version, data.model()));
    Ok(serializer.writer)
}

/// Reads a file written by `save_noschema` with a data version no higher than `version`.
pub fn load_noschema<T: Deserialize>(data: &[u8], version: u32) -> (r: Result<T, SavefileError>)
    ensures
        match load_noschema_model::<T>(data@, version) {
            Some((m, _)) => r matches Ok(v) && v.model() == m,
            None => r is Err,
        },
{
    let mut deserializer = Deserializer::new(data, version);
    let file_version = match read_header(&mut deserializer, version) {
        Ok(v) => v,
        Err(e) => {
            return Err(e);
        },
    };
    assert(deserializer.rest() =~= data@.skip(16));
    deserializer.file_version = file_version;
    T::deserialize(&mut deserializer)
}

/// What `load` gives for `s`: the model of the value and the number of bytes
/// used. The schema stored after the header must be compatible with the schema
/// of `T` for the data version in the header.
pub open spec fn load_model<T: Deserialize + WithSchema>(s: Seq<u8>, version: u32) -> Option<
    (<T as Model>::M, nat),
> {
    match accepted_header(s, version) {
        Some(fv) => match <Vec<SchemaNode> as Deserialize>::decode(fv, s.skip(16)) {
            Some((sm, k)) => if schemas_compatible(sm, T::schema_nodes(fv)) {
                match T::decode(fv, s.skip(16 + k as int)) {
                    Some((m, n)) => Some((m, 16 + k + n)),
                    None => None,
                }
            } else {
                None
            },
            None => None,
        },
        None => None,
    }
}

/// The bytes `save` writes for a value with model `m`.
pub open spec fn saved_bytes<T: Serialize + WithSchema>(version: u32, m: <T as Model>::M) -> Seq<
    u8,
> {
    header(version) + <Vec<SchemaNode> as Serialize>::encode(version, T::schema_nodes(version))
        + T::encode(version, m)
}

/// Writes a header, the schema of `T` and then `data`.
pub fn save<T: Serialize + WithSchema>(version: u32, data: &T) -> (r: Result<Vec<u8>, SavefileError>)
    ensures
        r is Ok <==> T::valid(version, data.model()),
        r matches Ok(bytes) ==> bytes@ == saved_bytes::<T>(version, data.model()),
        <Vec<SchemaNode> as Serialize>::valid(version, T::schema_nodes(version)),
{
    let mut serializer = Serializer::new(version);
    write_header(&mut serializer, version);
    let schema = get_schema::<T>(version);
    schema.check_writable(version);
    match schema.nodes.serialize(&mut serializer) {
        Ok(()) => {},
        Err(e) => {
            return Err(e);
        },
    }
    match data.serialize(&mut serializer) {
        Ok(()) => {},
        Err(e) => {
            return Err(e);
        },
    }
    assert(serializer.writer@ =~= saved_bytes::<T>(version, data.model()));
    Ok(serializer.writer)
}

/// Reads a file image written by `save`; the stored schema must be compatible
/// with the schema of `T` for the stored data version.
pub fn load<T: Deserialize + WithSchema>(data: &[u8], version: u32) -> (r: Result<T, SavefileError>)
    ensures
        match load_model::<T>(data@, version) {
            Some((m, _)) => r matches Ok(v) && v.model() == m,
            None => r is Err,
        },
{
    let mut deserializer = Deserializer::new(data, version);
    let file_version = match read_header(&mut deserializer, version) {
        Ok(v) => v,
        Err(e) => {
            return Err(e);
        },
    };
    assert(deserializer.rest() =~= data@.skip(16));
    deserializer.file_version = file_version;
    let stored = match <Vec<SchemaNode> as Deserialize>::deserialize(&mut deserializer) {
        Ok(v) => v,
        Err(e) => {
            return Err(e);
        },
    };
    let stored_schema = Schema { nodes: stored };
    let expected = get_schema::<T>(file_version);
    match diff_schema(&stored_schema, &expected) {
        Some(message) => {
            return Err(SavefileError::IncompatibleSchema { message });
        },
        None => {},
    }
    let ghost k = (deserializer.pos - 16) as int;
    assert(deserializer.rest() =~= data@.skip(16 + k));
    T::deserialize(&mut deserializer)
}

/// Every schema is compatible with itself.
pub proof fn lemma_schemas_compatible_refl(s: Seq<SchemaNodeModel>)
    ensures
        schemas_compatible(s, s),
{
}

/// Loading what was saved gives back the value as the data version stores it,
/// and uses every byte.
pub proof fn lemma_save_load<T: Roundtrip + WithSchema>(version: u32, m: <T as Model>::M)
    requires
        T::valid(version, m),
        <Vec<SchemaNode> as Serialize>::valid(version, T::schema_nodes(version)),
    ensures
        load_model::<T>(saved_bytes::<T>(version, m), version) == Some(
            (T::read_back(version, m), saved_bytes::<T>(version, m).len()),
        ),
{
    let sn = T::schema_nodes(version);
    let sb = <Vec<SchemaNode> as Serialize>::encode(version, sn);
    let all = saved_bytes::<T>(version, m);
    lemma_header_accepted(version, sb + T::encode(version, m));
    assert(all =~= header(version) + (sb + T::encode(version, m)));
    <Vec<SchemaNode> as Roundtrip>::lemma_roundtrip(version, sn, T::encode(version, m));
    lemma_schema_nodes_read_back(version, sn);
    lemma_schemas_compatible_refl(sn);
    T::lemma_roundtrip(version, m, Seq::empty());
    assert(T::encode(version, m) + Seq::<u8>::empty() =~= T::encode(version, m));
    assert(all.skip(16 + sb.len() as int) =~= T::encode(version, m));
}

/// A program that knows newer data versions loads a file saved with an older
/// version just as that version does: it gives back the value as the older
/// version stores it, and uses every byte.
pub proof fn lemma_save_load_newer_reader<T: Roundtrip + WithSchema>(
    version: u32,
    reader_version: u32,
    m: <T as Model>::M,
)
    requires
        T::valid(version, m),
        <Vec<SchemaNode> as Serialize>::valid(version, T::schema_nodes(version)),
        version <= reader_version,
    ensures
        load_model::<T>(saved_bytes::<T>(version, m), reader_version) == Some(
            (T::read_back(version, m), saved_bytes::<T>(version, m).len()),
        ),
{
    let all = saved_bytes::<T>(version, m);
    let rest = <Vec<SchemaNode> as Serialize>::encode(version, T::schema_nodes(version)) + T::encode(version, m);
    lemma_header_accepted(version, rest);
    assert(all =~= header(version) + rest);
    assert(accepted_header(all, reader_version) == accepted_header(all, version));
    lemma_save_load::<T>(version, m);
}

/// A program refuses a file saved with a data version newer than any it knows.
pub proof fn lemma_newer_file_refused<T: Serialize + Deserialize + WithSchema>(
    version: u32,
    reader_version: u32,
    m: <T as Model>::M,
)
    requires
        reader_version < version,
    ensures
        load_model::<T>(saved_bytes::<T>(version, m), reader_version) is None,
{
    let all = saved_bytes::<T>(version, m);
    let rest = <Vec<SchemaNode> as Serialize>::encode(version, T::schema_nodes(version)) + T::encode(version, m);
    lemma_header_accepted(version, rest);
    reveal_with_fuel(pow256, 5);
    lemma_le_roundtrip(version as nat, 4);
    let h = header(version) + rest;
    assert(h.subrange(11, 15) =~= le_bytes(version as nat, 4));
    assert(all =~= h);
}

/// Loading what was saved without a schema gives back the value as the data
/// version stores it, and uses every byte.
pub proof fn lemma_save_load_noschema<T: Roundtrip>(version: u32, m: <T as Model>::M)
    requires
        T::valid(version, m),
    ensures
        load_noschema_model::<T>(header(version) + T::encode(version, m), version) == Some(
            (T::read_back(version, m), 16 + T::encode(version, m).len()),
        ),
{
    lemma_header_accepted(version, T::encode(version, m));
    T::lemma_roundtrip(version, m, Seq::empty());
    assert(T::encode(version, m) + Seq::<u8>::empty() =~= T::encode(version, m));
}


/// Reading back a list of schema nodes gives the same list.
pub proof fn lemma_schema_nodes_read_back(version: u32, s: Seq<SchemaNodeModel>)
    ensures
        <Vec<SchemaNode> as Roundtrip>::read_back(version, s) == s,
{
    assert(<Vec<SchemaNode> as Roundtrip>::read_back(version, s) =~= s);
}

/// Saves `sample` and loads it back.
pub fn roundtrip<E: Roundtrip + WithSchema>(sample: E) -> (r: E)
    requires
        E::valid(0, sample.model()),
    ensures
        r.model() == E::read_back(0, sample.model()),
{
    roundtrip_version(sample, 0)
}

/// Saves `sample` with the given data version and loads it back.
pub fn roundtrip_version<E: Roundtrip + WithSchema>(sample: E, version: u32) -> (r: E)
    requires
        E::valid(version, sample.model()),
    ensures
        r.model() == E::read_back(version, sample.model()),
{
    let bytes = match save(version, &sample) {
        Ok(b) => b,
        Err(_) => vstd::pervasive::unreached(),
    };
    proof {
        lemma_save_load::<E>(version, sample.model());
    }
    match load::<E>(bytes.as_slice(), version) {
        Ok(v) => v,
        Err(_) => vstd::pervasive::unreached(),
    }
}

/// Saves `sample`, loads it back and checks that the same value came back;
/// the check is proved, so it cannot fail.
pub fn assert_roundtrip<E: Roundtrip + WithSchema>(sample: E)
    requires
        E::valid(0, sample.model()),
        E::read_back(0, sample.model()) == sample.model(),
{
    let ghost m = sample.model();
    let r = roundtrip(sample);
    assert(r.model() == m);
}

/// The same check as `assert_roundtrip`.
pub fn assert_roundtrip_debug<E: Roundtrip + WithSchema>(sample: E)
    requires
        E::valid(0, sample.model()),
        E::read_back(0, sample.model()) == sample.model(),
{
    let ghost m = sample.model();
    let r = roundtrip(sample);
    assert(r.model() == m);
}

/// Saves `sample_v1` with data version `version_number1` and loads it as an
/// `E2` by a program that knows data versions up to `version_number2`, where
/// that load is known to give `expected_v2`; gives the loaded value.
pub fn assert_roundtrip_to_new_version<E1: Serialize + WithSchema, E2: Deserialize + WithSchema>(
    sample_v1: E1,
    version_number1: u32,
    expected_v2: E2,
    version_number2: u32,
) -> (r: E2)
    requires
        E1::valid(version_number1, sample_v1.model()),
        load_model::<E2>(saved_bytes::<E1>(version_number1, sample_v1.model()), version_number2) matches Some(
            (m, _),
        ) && m == expected_v2.model(),
    ensures
        r.model() == expected_v2.model(),
{
    let bytes = match save(version_number1, &sample_v1) {
        Ok(b) => b,
        Err(_) => vstd::pervasive::unreached(),
    };
    match load::<E2>(bytes.as_slice(), version_number2) {
        Ok(v) => v,
        Err(_) => vstd::pervasive::unreached(),
    }
}

/// Saves `sample` with data version `version`, with or without its schema,
/// and loads it back; the value that comes back is `sample` and every byte is
/// used, which is proved, so the check cannot fail.
pub fn assert_roundtrip_version<E: Roundtrip + WithSchema>(sample: E, version: u32, schema: bool)
    requires
        E::valid(version, sample.model()),
        E::read_back(version, sample.model()) == sample.model(),
{
    let ghost m = sample.model();
    if schema {
        let r = roundtrip_version(sample, version);
        assert(r.model() == m);
    } else {
        let bytes = match save_noschema(version, &sample) {
            Ok(b) => b,
            Err(_) => vstd::pervasive::unreached(),
        };
        proof {
            lemma_save_load_noschema::<E>(version, m);
        }
        let r = match load_noschema::<E>(bytes.as_slice(), version) {
            Ok(v) => v,
            Err(_) => vstd::pervasive::unreached(),
        };
        assert(r.model() == m);
    }
}

} // verus!
