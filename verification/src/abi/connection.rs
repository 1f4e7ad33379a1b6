//! Connections from a caller to an implementation of an interface: method
//! calls with arguments and results passed as bytes.
use vstd::prelude::*;
use vstd::utf8::{decode_utf8, valid_utf8};

use crate::abi::compat::{
    analyze_and_create, connect_methods, def_methods, first_named, method_args, reports,
    AbiConnectionTemplate, ConnectionMethodModel,
};
use crate::abi::definition::AbiTraitDefinition;
use crate::error::SavefileError;
use crate::le::{le_bytes, le_value, pow256};
use crate::serializer::{Deserializer, Serializer};
use crate::traits::{Deserialize, Model, Serialize};

verus! {

/// The two words of a reference to an interface object: the object's address
/// and the address of its method table.
#[derive(Clone, Copy, Debug)]
pub struct TraitObject {
    pub ptr: usize,
    pub vtable: usize,
}

impl TraitObject {
    /// A reference to nothing; it must never be used to call anything.
    pub fn zero() -> (r: TraitObject)
        ensures
            r.ptr == 0,
            r.vtable == 0,
    {
        TraitObject { ptr: 0, vtable: 0 }
    }

    /// The two words, as a pair.
    pub fn as_usize_tuples(&self) -> (r: (usize, usize))
        ensures
            r == (self.ptr, self.vtable),
    {
        (self.ptr, self.vtable)
    }
}

/// Whether a connection owns the object it calls.
#[derive(Debug, Clone, Copy)]
pub enum Owning {
    /// The object is owned.
    Owned,
    /// The object is not owned.
    NotOwned,
}

/// A reference to an interface object together with the entry point through
/// which it is called.
#[derive(Debug)]
pub struct PackagedTraitObject {
    pub trait_object: TraitObject,
    pub entry: usize,
}

impl PackagedTraitObject {
    /// Packages an object reference with its entry point.
    pub fn new(trait_object: TraitObject, entry: usize) -> (r: PackagedTraitObject)
        ensures
            r.trait_object == trait_object,
            r.entry == entry,
    {
        PackagedTraitObject { trait_object, entry }
    }

    /// Packages the two words of an object reference with its entry point.
    pub fn new_from_ptr(ptr: usize, vtable: usize, entry: usize) -> (r: PackagedTraitObject)
        ensures
            r.trait_object.ptr == ptr,
            r.trait_object.vtable == vtable,
            r.entry == entry,
    {
        PackagedTraitObject { trait_object: TraitObject { ptr, vtable }, entry }
    }

    /// Writes the three words, eight bytes each: the object's address, its
    /// method table's address and the entry point.
    pub fn serialize(self, serializer: &mut Serializer) -> (r: Result<(), SavefileError>)
        ensures
            r is Ok,
            final(serializer).file_version == old(serializer).file_version,
            final(serializer).writer@ == old(serializer).writer@ + le_bytes(
                self.trait_object.ptr as nat,
                8,
            ) + le_bytes(self.trait_object.vtable as nat, 8) + le_bytes(self.entry as nat, 8),
    {
        serializer.write_usize(self.trait_object.ptr);
        serializer.write_usize(self.trait_object.vtable);
        serializer.write_usize(self.entry);
        assert(serializer.writer@ =~= old(serializer).writer@ + le_bytes(
            self.trait_object.ptr as nat,
            8,
        ) + le_bytes(self.trait_object.vtable as nat, 8) + le_bytes(self.entry as nat, 8));
        Ok(())
    }
}

/// A request from a caller to the side that implements an interface.
pub enum AbiProtocol {
    /// Call a method of an object.
    RegularCall {
        /// The object.
        trait_object: TraitObject,
        /// One bit per argument: set where it is passed as it lies in memory.
        compatibility_mask: u64,
        /// The arguments.
        data: Vec<u8>,
        /// The data version the arguments are written in.
        effective_version: u32,
        /// The method's number at the implementation.
        method_number: u16,
    },
    /// Ask for the versions the implementation knows.
    InterrogateVersion,
    /// Ask for the definition of the interface.
    InterrogateMethods {
        /// The version of the schema format the caller reads.
        schema_version_required: u16,
        /// The data version whose definition is wanted.
        callee_schema_version_interrogated: u32,
    },
    /// Make a new object.
    CreateInstance,
    /// Drop an object.
    DropInstance {
        /// The object.
        trait_object: TraitObject,
    },
}

/// The text of the bytes `b`, with each sequence that is not UTF-8 replaced by
/// the replacement character, as `String::from_utf8_lossy` gives it.
pub uninterp spec fn utf8_lossy(b: Seq<u8>) -> Seq<char>;

/// `String::from_utf8_lossy`: the text of `bytes`, with invalid sequences replaced.
///
/// Claimed of the standard function: its result depends on the bytes alone,
/// and for valid UTF-8 it is the decoded text.
#[verifier::external_body]
fn string_from_utf8_lossy(bytes: &[u8]) -> (r: String)
    ensures
        r@ == utf8_lossy(bytes@),
        valid_utf8(bytes@) ==> r@ == decode_utf8(bytes@),
{
    String::from_utf8_lossy(bytes).into_owned()
}

/// A message, as UTF-8 bytes, sent back from the other side of a call.
pub struct AbiErrorMsg {
    pub error_msg_utf8: Vec<u8>,
}

impl AbiErrorMsg {
    /// The message as text; bytes that are not UTF-8 are replaced.
    pub fn convert_to_string(&self) -> (r: String)
        ensures
            r@ == utf8_lossy(self.error_msg_utf8@),
    {
        string_from_utf8_lossy(self.error_msg_utf8.as_slice())
    }
}

/// The outcome of a call on the other side.
pub enum RawAbiCallResult {
    /// The call returned; `data` holds the data version (four bytes) and then
    /// the serialized return value.
    Success { data: Vec<u8> },
    /// The called method panicked, with this message.
    Panic(AbiErrorMsg),
    /// The call could not be made, for the reason given.
    AbiError(AbiErrorMsg),
}

/// The model of a [`RawAbiCallResult`]: the kind of outcome and its bytes.
pub enum CallOutcome {
    Success(Seq<u8>),
    Panic(Seq<u8>),
    AbiError(Seq<u8>),
}

impl Model for RawAbiCallResult {
    type M = CallOutcome;

    open spec fn model(&self) -> CallOutcome {
        match self {
            RawAbiCallResult::Success { data } => CallOutcome::Success(data@),
            RawAbiCallResult::Panic(m) => CallOutcome::Panic(m.error_msg_utf8@),
            RawAbiCallResult::AbiError(m) => CallOutcome::AbiError(m.error_msg_utf8@),
        }
    }
}

/// What reading a return value of type `T` from the outcome `o` gives: the
/// value's model, or the failure.
pub enum ParsedReturn<M> {
    /// The value.
    Value(M),
    /// The bytes were too short or did not decode.
    Undecodable,
    /// The callee panicked with this message.
    CalleePanic(Seq<char>),
    /// The call could not be made, for this reason.
    CallFailed(Seq<char>),
}

/// What `parse_return_value_impl` gives for the outcome `o`.
pub open spec fn parse_return<T: Deserialize>(o: CallOutcome) -> ParsedReturn<<T as Model>::M> {
    match o {
        CallOutcome::Success(d) => if d.len() < 4 {
            ParsedReturn::Undecodable
        } else {
            match T::decode(le_value(d.take(4)) as u32, d.skip(4)) {
                Some((m, _)) => ParsedReturn::Value(m),
                None => ParsedReturn::Undecodable,
            }
        },
        CallOutcome::Panic(b) => ParsedReturn::CalleePanic(utf8_lossy(b)),
        CallOutcome::AbiError(b) => ParsedReturn::CallFailed(utf8_lossy(b)),
    }
}

/// Whether `r` is what parsing `p` gives.
pub open spec fn parsed_as<T: Model>(r: Result<T, SavefileError>, p: ParsedReturn<<T as Model>::M>) -> bool {
    match p {
        ParsedReturn::Value(m) => r matches Ok(v) && v.model() == m,
        ParsedReturn::Undecodable => r is Err,
        ParsedReturn::CalleePanic(msg) => r matches Err(SavefileError::CalleePanic { msg: s }) && s@
            == msg,
        ParsedReturn::CallFailed(msg) => r matches Err(SavefileError::GeneralError { msg: s }) && s@
            == msg,
    }
}

/// Reads the return value of a call from its outcome: on success the data
/// version (four bytes) and then the value in that version; a panic or a
/// failure of the call becomes the matching error.
pub fn parse_return_value_impl<T: Deserialize>(outcome: &RawAbiCallResult) -> (r: Result<
    T,
    SavefileError,
>)
    ensures
        parsed_as(r, parse_return::<T>(outcome.model())),
{
    match outcome {
        RawAbiCallResult::Success { data } => {
            let mut deserializer = Deserializer::new(data.as_slice(), 0);
            let file_version = match deserializer.read_uint(4) {
                Ok(v) => v,
                Err(e) => {
                    return Err(e);
                },
            };
            proof {
                reveal_with_fuel(pow256, 5);
                crate::le::lemma_le_value_bound(data@.take(4));
            }
            deserializer.file_version = file_version as u32;
            assert(deserializer.rest() =~= data@.skip(4));
            T::deserialize(&mut deserializer)
        },
        RawAbiCallResult::Panic(m) => Err(SavefileError::CalleePanic { msg: m.convert_to_string() }),
        RawAbiCallResult::AbiError(m) => Err(SavefileError::GeneralError { msg: m.convert_to_string() }),
    }
}

/// An implementation of an interface that can be called across a library
/// boundary: it describes the interface, and runs a method given its number
/// and its arguments as bytes.
pub trait AbiExportable {
    /// The definition of the interface in data version `version`.
    spec fn definition(version: u32) -> <AbiTraitDefinition as Model>::M;

    /// The newest data version the interface knows.
    spec fn latest_version() -> u32;

    /// What calling method `method_number` with the argument bytes `data` gives.
    spec fn outcome(
        &self,
        method_number: u16,
        effective_version: u32,
        compatibility_mask: u64,
        data: Seq<u8>,
    ) -> CallOutcome;

    /// The definition of the interface in data version `version`.
    fn get_definition(version: u32) -> (r: AbiTraitDefinition)
        ensures
            r.model() == Self::definition(version),
    ;

    /// The newest data version the interface knows.
    fn get_latest_version() -> (r: u32)
        ensures
            r == Self::latest_version(),
    ;

    /// Runs method `method_number` with the arguments in `data`, written in
    /// data version `effective_version`.
    fn call(&self, method_number: u16, effective_version: u32, compatibility_mask: u64, data: &[u8]) -> (r:
        RawAbiCallResult)
        ensures
            r.model() == self.outcome(method_number, effective_version, compatibility_mask, data@),
    ;
}

/// A type that can make a default object of the interface it implements.
pub trait AbiExportableImplementation {
    /// The interface.
    type AbiInterface: AbiExportable;

    /// A default object.
    fn new() -> Self::AbiInterface;
}

/// The smaller of two versions.
pub open spec fn min_version(a: u32, b: u32) -> u32 {
    if a <= b {
        a
    } else {
        b
    }
}

/// The data version a caller knowing interface `T` and an implementation `O`
/// agree on: the older of their newest versions.
pub open spec fn effective_version<T: AbiExportable, O: AbiExportable>() -> u32 {
    min_version(T::latest_version(), O::latest_version())
}

/// How the methods of a caller knowing `T` connect to an implementation `O`:
/// the caller's newest definition is matched against the implementation's
/// newest one, and both are read in the agreed version.
pub open spec fn connect<T: AbiExportable, O: AbiExportable>() -> Result<
    Seq<ConnectionMethodModel>,
    crate::abi::compat::SetupFailure,
> {
    let v = effective_version::<T, O>();
    connect_methods(
        def_methods(T::definition(v)),
        def_methods(O::definition(v)),
        def_methods(O::definition(O::latest_version())),
        def_methods(T::definition(T::latest_version())),
        def_methods(T::definition(T::latest_version())).len(),
    )
}

/// A caller's handle on an implementation `O` of an interface it knows as `T`.
pub struct AbiConnection<T, O> {
    /// How the caller's methods map to the implementation's.
    pub template: AbiConnectionTemplate,
    /// Whether the connection owns the object.
    pub owning: Owning,
    /// The object that is called.
    pub callee: O,
    /// The interface the caller knows.
    pub phantom: core::marker::PhantomData<T>,
}

impl<T: AbiExportable, O: AbiExportable> AbiConnection<T, O> {
    /// Connects to `callee`, comparing the interface `T` the caller knows with
    /// the one the callee implements.
    pub fn new_internal(callee: O, owning: Owning) -> (r: Result<AbiConnection<T, O>, SavefileError>)
        requires
            def_methods(T::definition(T::latest_version())).len() <= 64,
        ensures
            match connect::<T, O>() {
                Ok(ms) => r matches Ok(c) && c.template.methods.model() == ms
                    && c.template.effective_version == effective_version::<T, O>()
                    && c.owning == owning && c.callee == callee,
                Err(f) => r matches Err(e) && reports(e, f),
            },
    {
        let own_version = T::get_latest_version();
        let own_native_definition = T::get_definition(own_version);
        let callee_abi_version = O::get_latest_version();
        let effective_version = if own_version <= callee_abi_version {
            own_version
        } else {
            callee_abi_version
        };
        let callee_native_definition = O::get_definition(callee_abi_version);
        let callee_effective_definition = O::get_definition(effective_version);
        let own_effective_definition = T::get_definition(effective_version);
        let template = match analyze_and_create(
            "",
            effective_version,
            own_effective_definition,
            callee_effective_definition,
            own_native_definition,
            callee_native_definition,
        ) {
            Ok(t) => t,
            Err(e) => {
                return Err(e);
            },
        };
        Ok(AbiConnection { template, owning, callee, phantom: core::marker::PhantomData })
    }

    /// Connects to `created`, an object the implementation was asked to
    /// create, where `error_msg` is the text it answered with: the interfaces
    /// are compared first, and a non-empty text then means the creation
    /// failed, reported as the implementation's panic.
    pub fn from_created_instance(created: O, error_msg: String, owning: Owning) -> (r: Result<
        AbiConnection<T, O>,
        SavefileError,
    >)
        requires
            def_methods(T::definition(T::latest_version())).len() <= 64,
        ensures
            match connect::<T, O>() {
                Ok(ms) => if error_msg@.len() > 0 {
                    r matches Err(SavefileError::CalleePanic { msg }) && msg@ == error_msg@
                } else {
                    r matches Ok(c) && c.template.methods.model() == ms
                        && c.template.effective_version == effective_version::<T, O>()
                        && c.owning == owning && c.callee == created
                },
                Err(f) => r matches Err(e) && reports(e, f),
            },
    {
        let c = match Self::new_internal(created, owning) {
            Ok(c) => c,
            Err(e) => {
                return Err(e);
            },
        };
        if !error_msg.as_str().is_empty() {
            return Err(SavefileError::CalleePanic { msg: error_msg });
        }
        Ok(c)
    }

    /// Connects to an implementation of another version of the interface,
    /// which is how changes between versions are tried out.
    pub fn from_boxed_trait_for_test(trait_object: Box<O>) -> (r: Result<
        AbiConnection<T, O>,
        SavefileError,
    >)
        requires
            def_methods(T::definition(T::latest_version())).len() <= 64,
        ensures
            match connect::<T, O>() {
                Ok(ms) => r matches Ok(c) && c.template.methods.model() == ms && c.owning == Owning::Owned
                    && c.callee == *trait_object,
                Err(f) => r matches Err(e) && reports(e, f),
            },
    {
        Self::new_internal(*trait_object, Owning::Owned)
    }

    /// Calls the caller's method number `method` with `args`, and reads its
    /// return value: the arguments are written in the agreed version, the
    /// implementation runs its own method of that name, and its outcome is read.
    pub fn call_method<A: Serialize, R: Deserialize>(&self, method: usize, args: &A) -> (r: Result<
        R,
        SavefileError,
    >)
        requires
            method < self.template.methods.len(),
            self.template.methods@[method as int].callee_method_number is Some,
            A::valid(self.template.effective_version, args.model()),
        ensures
            parsed_as(
                r,
                parse_return::<R>(
                    self.callee.outcome(
                        self.template.methods@[method as int].callee_method_number->0,
                        self.template.effective_version,
                        self.template.methods@[method as int].compatibility_mask,
                        A::encode(self.template.effective_version, args.model()),
                    ),
                ),
            ),
    {
        let m = &self.template.methods[method];
        let number = match m.callee_method_number {
            Some(n) => n,
            None => {
                return Err(SavefileError::GeneralError { msg: String::from_str("method does not exist in implementation") });
            },
        };
        let mut serializer = Serializer::new(self.template.effective_version);
        match args.serialize(&mut serializer) {
            Ok(()) => {},
            Err(e) => {
                return Err(e);
            },
        }
        assert(serializer.writer@ =~= A::encode(self.template.effective_version, args.model()));
        let outcome = self.callee.call(
            number,
            self.template.effective_version,
            m.compatibility_mask,
            serializer.writer.as_slice(),
        );
        parse_return_value_impl::<R>(&outcome)
    }
}

impl<T: AbiExportable> AbiConnection<T, T> {
    /// Connects to an object implementing the same interface the caller knows.
    pub fn from_boxed_trait(trait_object: Box<T>) -> (r: Result<AbiConnection<T, T>, SavefileError>)
        requires
            def_methods(T::definition(T::latest_version())).len() <= 64,
        ensures
            match connect::<T, T>() {
                Ok(ms) => r matches Ok(c) && c.template.methods.model() == ms
                    && c.template.effective_version == T::latest_version() && c.owning == Owning::Owned
                    && c.callee == *trait_object,
                Err(f) => r matches Err(e) && reports(e, f),
            },
    {
        Self::new_internal(*trait_object, Owning::Owned)
    }
}

/// `i` is the first position in `ms` of a connected method called `name`.
pub open spec fn is_first_connected(ms: Seq<ConnectionMethodModel>, name: Seq<char>, i: int) -> bool {
    &&& 0 <= i < ms.len()
    &&& ms[i].name == name
    &&& forall|j: int| 0 <= j < i ==> (#[trigger] ms[j]).name != name
}

impl<T, O> AbiConnection<T, O> {
    /// Whether argument `arg` of the first method called `method` can be
    /// passed as it lies in memory rather than copied.
    pub fn get_arg_passable_by_ref(&self, method: &str, arg: usize) -> (r: bool)
        requires
            exists|i: int|
                is_first_connected(self.template.methods.model(), method@, i) && arg
                    < self.template.methods.model()[i].info.2.0.len(),
            arg < 64,
        ensures
            forall|i: int|
                is_first_connected(self.template.methods.model(), method@, i) ==> r == ((
                self.template.methods.model()[i].mask & (1u64 << (arg as u64))) != 0),
    {
        let ghost ms = self.template.methods.model();
        let ghost k = choose|i: int|
            is_first_connected(ms, method@, i) && arg < ms[i].info.2.0.len();
        let target = method.to_owned();
        let mut i: usize = 0;
        while i < self.template.methods.len()
            invariant
                ms == self.template.methods.model(),
                target@ == method@,
                arg < 64,
                is_first_connected(ms, method@, k),
                arg < ms[k].info.2.0.len(),
                i <= k,
                forall|j: int| 0 <= j < i ==> (#[trigger] ms[j]).name != method@,
            decreases self.template.methods.len() - i,
        {
            let m = &self.template.methods[i];
            assert(ms[i as int] == m.model());
            if m.method_name == target {
                assert(i as int == k);
                return (m.compatibility_mask & (1u64 << (arg as u64))) != 0;
            }
            i = i + 1;
        }
        assert(false);
        false
    }
}

} // verus!
