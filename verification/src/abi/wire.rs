//! The messages a client and a server of interface objects exchange over a connection.
use vstd::prelude::*;

use crate::error::SavefileError;
use crate::le::{le_bytes, le_value, lemma_le_roundtrip, pow256};
use crate::serializer::{Deserializer, Serializer};
use crate::traits::{Deserialize, Model, Roundtrip, Serialize};

verus! {

/// What a client asks of a server: each request starts with its command number.
#[derive(Debug)]
pub enum RemoteRequest {
    CallInstanceMethod { object: (usize, usize), method_number: u16, args: Vec<u8> },
    InterrogateVersion { trait_name: String },
    InterrogateMethods { trait_name: String, schema_version_required: u16, callee_schema_version_interrogated: u32 },
    CreateInstance { trait_name: String },
    DropInstance { object: (usize, usize) },
    StopListener,
    Close,
}

/// The model of a [`RemoteRequest`]: the same variant, with the models of its fields.
pub enum RemoteRequestModel {
    CallInstanceMethod(<((usize, usize), u16, Vec<u8>) as Model>::M),
    InterrogateVersion(<String as Model>::M),
    InterrogateMethods(<(String, u16, u32) as Model>::M),
    CreateInstance(<String as Model>::M),
    DropInstance(<(usize, usize) as Model>::M),
    StopListener,
    Close,
}

impl Model for RemoteRequest {
    type M = RemoteRequestModel;

    open spec fn model(&self) -> RemoteRequestModel {
        match self {
            RemoteRequest::CallInstanceMethod { object: f0, method_number: f1, args: f3 } => RemoteRequestModel::CallInstanceMethod((f0.model(), f1.model(), f3.model())),
            RemoteRequest::InterrogateVersion { trait_name: f0 } => RemoteRequestModel::InterrogateVersion(f0.model()),
            RemoteRequest::InterrogateMethods { trait_name: f0, schema_version_required: f1, callee_schema_version_interrogated: f3 } => RemoteRequestModel::InterrogateMethods((f0.model(), f1.model(), f3.model())),
            RemoteRequest::CreateInstance { trait_name: f0 } => RemoteRequestModel::CreateInstance(f0.model()),
            RemoteRequest::DropInstance { object: f0 } => RemoteRequestModel::DropInstance(f0.model()),
            RemoteRequest::StopListener => RemoteRequestModel::StopListener,
            RemoteRequest::Close => RemoteRequestModel::Close,
        }
    }
}

impl Serialize for RemoteRequest {
    open spec fn valid(version: u32, m: RemoteRequestModel) -> bool {
        match m {
            RemoteRequestModel::CallInstanceMethod(t) => <((usize, usize), u16, Vec<u8>) as Serialize>::valid(version, t),
            RemoteRequestModel::InterrogateVersion(t) => <String as Serialize>::valid(version, t),
            RemoteRequestModel::InterrogateMethods(t) => <(String, u16, u32) as Serialize>::valid(version, t),
            RemoteRequestModel::CreateInstance(t) => <String as Serialize>::valid(version, t),
            RemoteRequestModel::DropInstance(t) => <(usize, usize) as Serialize>::valid(version, t),
            RemoteRequestModel::StopListener => true,
            RemoteRequestModel::Close => true,
        }
    }

    /// The tag of the variant, as 1 byte(s), then the fields of the variant.
    open spec fn encode(version: u32, m: RemoteRequestModel) -> Seq<u8> {
        match m {
            RemoteRequestModel::CallInstanceMethod(t) => le_bytes(0, 1) + <((usize, usize), u16, Vec<u8>) as Serialize>::encode(version, t),
            RemoteRequestModel::InterrogateVersion(t) => le_bytes(1, 1) + <String as Serialize>::encode(version, t),
            RemoteRequestModel::InterrogateMethods(t) => le_bytes(3, 1) + <(String, u16, u32) as Serialize>::encode(version, t),
            RemoteRequestModel::CreateInstance(t) => le_bytes(4, 1) + <String as Serialize>::encode(version, t),
            RemoteRequestModel::DropInstance(t) => le_bytes(5, 1) + <(usize, usize) as Serialize>::encode(version, t),
            RemoteRequestModel::StopListener => le_bytes(6, 1),
            RemoteRequestModel::Close => le_bytes(7, 1),
        }
    }

    fn serialize(&self, serializer: &mut Serializer) -> (r: Result<(), SavefileError>) {
        let ghost version = serializer.file_version;
        let ghost start0 = serializer.writer@;
        match self {
            RemoteRequest::CallInstanceMethod { object: f0, method_number: f1, args: f3 } => {
                serializer.write_u8(0);
                match f0.serialize(serializer) {
                    Ok(()) => {},
                    Err(e) => {
                        return Err(e);
                    },
                }
                match f1.serialize(serializer) {
                    Ok(()) => {},
                    Err(e) => {
                        return Err(e);
                    },
                }
                match f3.serialize(serializer) {
                    Ok(()) => {},
                    Err(e) => {
                        return Err(e);
                    },
                }
            },
            RemoteRequest::InterrogateVersion { trait_name: f0 } => {
                serializer.write_u8(1);
                match f0.serialize(serializer) {
                    Ok(()) => {},
                    Err(e) => {
                        return Err(e);
                    },
                }
            },
            RemoteRequest::InterrogateMethods { trait_name: f0, schema_version_required: f1, callee_schema_version_interrogated: f3 } => {
                serializer.write_u8(3);
                match f0.serialize(serializer) {
                    Ok(()) => {},
                    Err(e) => {
                        return Err(e);
                    },
                }
                match f1.serialize(serializer) {
                    Ok(()) => {},
                    Err(e) => {
                        return Err(e);
                    },
                }
                match f3.serialize(serializer) {
                    Ok(()) => {},
                    Err(e) => {
                        return Err(e);
                    },
                }
            },
            RemoteRequest::CreateInstance { trait_name: f0 } => {
                serializer.write_u8(4);
                match f0.serialize(serializer) {
                    Ok(()) => {},
                    Err(e) => {
                        return Err(e);
                    },
                }
            },
            RemoteRequest::DropInstance { object: f0 } => {
                serializer.write_u8(5);
                match f0.serialize(serializer) {
                    Ok(()) => {},
                    Err(e) => {
                        return Err(e);
                    },
                }
            },
            RemoteRequest::StopListener => {
                serializer.write_u8(6);
            },
            RemoteRequest::Close => {
                serializer.write_u8(7);
            },
        }
        assert(serializer.writer@ =~= old(serializer).writer@ + Self::encode(
            old(serializer).file_version,
            self.model(),
        ));
        Ok(())
    }
}

impl Deserialize for RemoteRequest {
    /// Unknown variant numbers are refused.
    open spec fn decode(version: u32, s: Seq<u8>) -> Option<(RemoteRequestModel, nat)> {
        if s.len() < 1 {
            None
        } else if le_value(s.take(1)) == 0 {
            match <((usize, usize), u16, Vec<u8>) as Deserialize>::decode(version, s.skip(1)) {
                Some((t, n)) => Some((RemoteRequestModel::CallInstanceMethod(t), n + 1)),
                None => None,
            }
        } else if le_value(s.take(1)) == 1 {
            match <String as Deserialize>::decode(version, s.skip(1)) {
                Some((t, n)) => Some((RemoteRequestModel::InterrogateVersion(t), n + 1)),
                None => None,
            }
        } else if le_value(s.take(1)) == 3 {
            match <(String, u16, u32) as Deserialize>::decode(version, s.skip(1)) {
                Some((t, n)) => Some((RemoteRequestModel::InterrogateMethods(t), n + 1)),
                None => None,
            }
        } else if le_value(s.take(1)) == 4 {
            match <String as Deserialize>::decode(version, s.skip(1)) {
                Some((t, n)) => Some((RemoteRequestModel::CreateInstance(t), n + 1)),
                None => None,
            }
        } else if le_value(s.take(1)) == 5 {
            match <(usize, usize) as Deserialize>::decode(version, s.skip(1)) {
                Some((t, n)) => Some((RemoteRequestModel::DropInstance(t), n + 1)),
                None => None,
            }
        } else if le_value(s.take(1)) == 6 {
            Some((RemoteRequestModel::StopListener, 1))
        } else if le_value(s.take(1)) == 7 {
            Some((RemoteRequestModel::Close, 1))
        } else {
            None
        }
    }

    fn deserialize(deserializer: &mut Deserializer) -> (r: Result<RemoteRequest, SavefileError>) {
        let ghost s0 = deserializer.rest();
        let tag = match deserializer.read_uint(1) {
            Ok(t) => t,
            Err(e) => {
                return Err(e);
            },
        };
        assert(deserializer.rest() =~= s0.skip(1));
        if tag == 0 {
            match <((usize, usize), u16, Vec<u8>) as Deserialize>::deserialize(deserializer) {
                Ok((v0, v1, v2)) => Ok(RemoteRequest::CallInstanceMethod { object: v0, method_number: v1, args: v2 }),
                Err(e) => Err(e),
            }
        } else if tag == 1 {
            match <String as Deserialize>::deserialize(deserializer) {
                Ok(v0) => Ok(RemoteRequest::InterrogateVersion { trait_name: v0 }),
                Err(e) => Err(e),
            }
        } else if tag == 3 {
            match <(String, u16, u32) as Deserialize>::deserialize(deserializer) {
                Ok((v0, v1, v2)) => Ok(RemoteRequest::InterrogateMethods { trait_name: v0, schema_version_required: v1, callee_schema_version_interrogated: v2 }),
                Err(e) => Err(e),
            }
        } else if tag == 4 {
            match <String as Deserialize>::deserialize(deserializer) {
                Ok(v0) => Ok(RemoteRequest::CreateInstance { trait_name: v0 }),
                Err(e) => Err(e),
            }
        } else if tag == 5 {
            match <(usize, usize) as Deserialize>::deserialize(deserializer) {
                Ok(v0) => Ok(RemoteRequest::DropInstance { object: v0 }),
                Err(e) => Err(e),
            }
        } else if tag == 6 {
            Ok(RemoteRequest::StopListener)
        } else if tag == 7 {
            Ok(RemoteRequest::Close)
        } else {
            Err(SavefileError::BadDiscriminant)
        }
    }
}

impl Roundtrip for RemoteRequest {
    open spec fn read_back(version: u32, m: RemoteRequestModel) -> RemoteRequestModel {
        match m {
            RemoteRequestModel::CallInstanceMethod(t) => RemoteRequestModel::CallInstanceMethod(<((usize, usize), u16, Vec<u8>) as Roundtrip>::read_back(version, t)),
            RemoteRequestModel::InterrogateVersion(t) => RemoteRequestModel::InterrogateVersion(<String as Roundtrip>::read_back(version, t)),
            RemoteRequestModel::InterrogateMethods(t) => RemoteRequestModel::InterrogateMethods(<(String, u16, u32) as Roundtrip>::read_back(version, t)),
            RemoteRequestModel::CreateInstance(t) => RemoteRequestModel::CreateInstance(<String as Roundtrip>::read_back(version, t)),
            RemoteRequestModel::DropInstance(t) => RemoteRequestModel::DropInstance(<(usize, usize) as Roundtrip>::read_back(version, t)),
            RemoteRequestModel::StopListener => RemoteRequestModel::StopListener,
            RemoteRequestModel::Close => RemoteRequestModel::Close,
        }
    }

    #[verifier::spinoff_prover]
    proof fn lemma_roundtrip(version: u32, m: RemoteRequestModel, rest: Seq<u8>) {
        reveal_with_fuel(pow256, 2);
        let all = Self::encode(version, m) + rest;
        match m {
            RemoteRequestModel::CallInstanceMethod(t) => {
                lemma_le_roundtrip(0, 1);
                assert(all.take(1) =~= le_bytes(0, 1));
                assert(all.skip(1) =~= <((usize, usize), u16, Vec<u8>) as Serialize>::encode(version, t) + rest);
                <((usize, usize), u16, Vec<u8>) as Roundtrip>::lemma_roundtrip(version, t, rest);
            },
            RemoteRequestModel::InterrogateVersion(t) => {
                lemma_le_roundtrip(1, 1);
                assert(all.take(1) =~= le_bytes(1, 1));
                assert(all.skip(1) =~= <String as Serialize>::encode(version, t) + rest);
                <String as Roundtrip>::lemma_roundtrip(version, t, rest);
            },
            RemoteRequestModel::InterrogateMethods(t) => {
                lemma_le_roundtrip(3, 1);
                assert(all.take(1) =~= le_bytes(3, 1));
                assert(all.skip(1) =~= <(String, u16, u32) as Serialize>::encode(version, t) + rest);
                <(String, u16, u32) as Roundtrip>::lemma_roundtrip(version, t, rest);
            },
            RemoteRequestModel::CreateInstance(t) => {
                lemma_le_roundtrip(4, 1);
                assert(all.take(1) =~= le_bytes(4, 1));
                assert(all.skip(1) =~= <String as Serialize>::encode(version, t) + rest);
                <String as Roundtrip>::lemma_roundtrip(version, t, rest);
            },
            RemoteRequestModel::DropInstance(t) => {
                lemma_le_roundtrip(5, 1);
                assert(all.take(1) =~= le_bytes(5, 1));
                assert(all.skip(1) =~= <(usize, usize) as Serialize>::encode(version, t) + rest);
                <(usize, usize) as Roundtrip>::lemma_roundtrip(version, t, rest);
            },
            RemoteRequestModel::StopListener => {
                lemma_le_roundtrip(6, 1);
                assert(all.take(1) =~= le_bytes(6, 1));
            },
            RemoteRequestModel::Close => {
                lemma_le_roundtrip(7, 1);
                assert(all.take(1) =~= le_bytes(7, 1));
            },
        }
    }
}

/// What a server answers to a method call: the encoded return value, or why there is none.
#[derive(Debug, PartialEq)]
pub enum RemoteCallResult {
    Success(Vec<u8>),
    Panic(String),
    AbiError(String),
}

/// The model of a [`RemoteCallResult`]: the same variant, with the models of its fields.
pub enum RemoteCallResultModel {
    Success(<Vec<u8> as Model>::M),
    Panic(<String as Model>::M),
    AbiError(<String as Model>::M),
}

impl Model for RemoteCallResult {
    type M = RemoteCallResultModel;

    open spec fn model(&self) -> RemoteCallResultModel {
        match self {
            RemoteCallResult::Success(f0) => RemoteCallResultModel::Success(f0.model()),
            RemoteCallResult::Panic(f0) => RemoteCallResultModel::Panic(f0.model()),
            RemoteCallResult::AbiError(f0) => RemoteCallResultModel::AbiError(f0.model()),
        }
    }
}

impl Serialize for RemoteCallResult {
    open spec fn valid(version: u32, m: RemoteCallResultModel) -> bool {
        match m {
            RemoteCallResultModel::Success(t) => <Vec<u8> as Serialize>::valid(version, t),
            RemoteCallResultModel::Panic(t) => <String as Serialize>::valid(version, t),
            RemoteCallResultModel::AbiError(t) => <String as Serialize>::valid(version, t),
        }
    }

    /// The position of the variant in the declaration, as 1 byte(s), then the fields of the variant.
    open spec fn encode(version: u32, m: RemoteCallResultModel) -> Seq<u8> {
        match m {
            RemoteCallResultModel::Success(t) => le_bytes(0, 1) + <Vec<u8> as Serialize>::encode(version, t),
            RemoteCallResultModel::Panic(t) => le_bytes(1, 1) + <String as Serialize>::encode(version, t),
            RemoteCallResultModel::AbiError(t) => le_bytes(2, 1) + <String as Serialize>::encode(version, t),
        }
    }

    fn serialize(&self, serializer: &mut Serializer) -> (r: Result<(), SavefileError>) {
        let ghost version = serializer.file_version;
        let ghost start0 = serializer.writer@;
        match self {
            RemoteCallResult::Success(f0) => {
                serializer.write_u8(0);
                match f0.serialize(serializer) {
                    Ok(()) => {},
                    Err(e) => {
                        return Err(e);
                    },
                }
            },
            RemoteCallResult::Panic(f0) => {
                serializer.write_u8(1);
                match f0.serialize(serializer) {
                    Ok(()) => {},
                    Err(e) => {
                        return Err(e);
                    },
                }
            },
            RemoteCallResult::AbiError(f0) => {
                serializer.write_u8(2);
                match f0.serialize(serializer) {
                    Ok(()) => {},
                    Err(e) => {
                        return Err(e);
                    },
                }
            },
        }
        assert(serializer.writer@ =~= old(serializer).writer@ + Self::encode(
            old(serializer).file_version,
            self.model(),
        ));
        Ok(())
    }
}

impl Deserialize for RemoteCallResult {
    /// Unknown variant numbers are refused.
    open spec fn decode(version: u32, s: Seq<u8>) -> Option<(RemoteCallResultModel, nat)> {
        if s.len() < 1 {
            None
        } else if le_value(s.take(1)) == 0 {
            match <Vec<u8> as Deserialize>::decode(version, s.skip(1)) {
                Some((t, n)) => Some((RemoteCallResultModel::Success(t), n + 1)),
                None => None,
            }
        } else if le_value(s.take(1)) == 1 {
            match <String as Deserialize>::decode(version, s.skip(1)) {
                Some((t, n)) => Some((RemoteCallResultModel::Panic(t), n + 1)),
                None => None,
            }
        } else if le_value(s.take(1)) == 2 {
            match <String as Deserialize>::decode(version, s.skip(1)) {
                Some((t, n)) => Some((RemoteCallResultModel::AbiError(t), n + 1)),
                None => None,
            }
        } else {
            None
        }
    }

    fn deserialize(deserializer: &mut Deserializer) -> (r: Result<RemoteCallResult, SavefileError>) {
        let ghost s0 = deserializer.rest();
        let tag = match deserializer.read_uint(1) {
            Ok(t) => t,
            Err(e) => {
                return Err(e);
            },
        };
        assert(deserializer.rest() =~= s0.skip(1));
        if tag == 0 {
            match <Vec<u8> as Deserialize>::deserialize(deserializer) {
                Ok(v0) => Ok(RemoteCallResult::Success(v0)),
                Err(e) => Err(e),
            }
        } else if tag == 1 {
            match <String as Deserialize>::deserialize(deserializer) {
                Ok(v0) => Ok(RemoteCallResult::Panic(v0)),
                Err(e) => Err(e),
            }
        } else if tag == 2 {
            match <String as Deserialize>::deserialize(deserializer) {
                Ok(v0) => Ok(RemoteCallResult::AbiError(v0)),
                Err(e) => Err(e),
            }
        } else {
            Err(SavefileError::BadDiscriminant)
        }
    }
}

impl Roundtrip for RemoteCallResult {
    open spec fn read_back(version: u32, m: RemoteCallResultModel) -> RemoteCallResultModel {
        match m {
            RemoteCallResultModel::Success(t) => RemoteCallResultModel::Success(<Vec<u8> as Roundtrip>::read_back(version, t)),
            RemoteCallResultModel::Panic(t) => RemoteCallResultModel::Panic(<String as Roundtrip>::read_back(version, t)),
            RemoteCallResultModel::AbiError(t) => RemoteCallResultModel::AbiError(<String as Roundtrip>::read_back(version, t)),
        }
    }

    #[verifier::spinoff_prover]
    proof fn lemma_roundtrip(version: u32, m: RemoteCallResultModel, rest: Seq<u8>) {
        reveal_with_fuel(pow256, 2);
        let all = Self::encode(version, m) + rest;
        match m {
            RemoteCallResultModel::Success(t) => {
                lemma_le_roundtrip(0, 1);
                assert(all.take(1) =~= le_bytes(0, 1));
                assert(all.skip(1) =~= <Vec<u8> as Serialize>::encode(version, t) + rest);
                <Vec<u8> as Roundtrip>::lemma_roundtrip(version, t, rest);
            },
            RemoteCallResultModel::Panic(t) => {
                lemma_le_roundtrip(1, 1);
                assert(all.take(1) =~= le_bytes(1, 1));
                assert(all.skip(1) =~= <String as Serialize>::encode(version, t) + rest);
                <String as Roundtrip>::lemma_roundtrip(version, t, rest);
            },
            RemoteCallResultModel::AbiError(t) => {
                lemma_le_roundtrip(2, 1);
                assert(all.take(1) =~= le_bytes(2, 1));
                assert(all.skip(1) =~= <String as Serialize>::encode(version, t) + rest);
                <String as Roundtrip>::lemma_roundtrip(version, t, rest);
            },
        }
    }
}

} // verus!
