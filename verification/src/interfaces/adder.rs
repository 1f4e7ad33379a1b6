//! An interface that adds numbers, and an implementation of it.
use vstd::prelude::*;

use crate::abi::callee::{panic_outcome, panicked, read_args, refusal, refused, return_value, returned};
use crate::abi::connection::{
    parse_return, parsed_as, utf8_lossy, AbiConnection, AbiExportable, AbiExportableImplementation, CallOutcome,
    RawAbiCallResult,
};
use crate::abi::definition::AbiTraitDefinition;
use crate::error::SavefileError;
use crate::interfaces::adder_types::MyStuff;
use crate::interfaces::arguments::{overflow_message, unknown_method_message, unreadable_message};
use crate::interfaces::{arg, make_method, method_model, no_args, three_methods, two_args};
use crate::le::{le_bytes, lemma_le_roundtrip, pow256};
use crate::schema::with_schema::{get_schema, WithSchema};
use crate::traits::{Deserialize, Model, Roundtrip, Serialize};

verus! {

/// Receives a number and gives it back.
pub trait AdderCallback {
    /// Stores a number.
    fn set(&self, value: u32);

    /// The stored number.
    fn get(&self) -> u32;
}

/// Adds numbers.
pub trait AdderInterface {
    /// The sum of `x`, `y` and the low 32 bits of `z.x`.
    fn add(&self, x: u32, y: &u32, z: &MyStuff) -> (r: u32)
        requires
            x + *y + (z.x as u32) <= u32::MAX,
        ensures
            r == x + *y + (z.x as u32),
    ;

    /// The sum of `x` and `y`.
    fn add_simple(&self, x: u32, y: u32) -> (r: u32)
        requires
            x + y <= u32::MAX,
        ensures
            r == x + y,
    ;

    /// Does nothing.
    fn do_nothing(&self);
}

/// An implementation of [`AdderInterface`], with a name.
pub struct AdderImplementation {
    pub _name: String,
}

impl Default for AdderImplementation {
    fn default() -> (r: AdderImplementation)
        ensures
            r._name@ == "Adderaren Kalle"@,
    {
        AdderImplementation { _name: String::from_str("Adderaren Kalle") }
    }
}

impl AbiExportableImplementation for AdderImplementation {
    type AbiInterface = AdderImplementation;

    fn new() -> AdderImplementation {
        AdderImplementation::default()
    }
}

impl AdderInterface for AdderImplementation {
    fn add(&self, x: u32, y: &u32, z: &MyStuff) -> (r: u32) {
        x + *y + (z.x as u32)
    }

    fn add_simple(&self, x: u32, y: u32) -> (r: u32) {
        x + y
    }

    fn do_nothing(&self) {
    }
}

/// The outcome of adding `x` and `y`: the sum, or a panic when it does not fit.
pub open spec fn add_outcome(version: u32, x: u32, y: u32) -> CallOutcome {
    if x + y <= u32::MAX {
        returned::<u32>(version, (x + y) as u32)
    } else {
        panicked(overflow_message())
    }
}

fn return_add(version: u32, x: u32, y: u32) -> (r: RawAbiCallResult)
    ensures
        r.model() == add_outcome(version, x, y),
{
    if x as u64 + y as u64 > u32::MAX as u64 {
        panic_outcome("attempt to add with overflow")
    } else {
        return_value(version, &(x + y))
    }
}

impl AbiExportable for AdderImplementation {
    /// In every data version: `add` of two numbers and a record, `add_simple`
    /// of two numbers, and `do_nothing`.
    open spec fn definition(version: u32) -> <AbiTraitDefinition as Model>::M {
        (
            "AdderInterface"@,
            seq![
                method_model(
                    "add"@,
                    seq![
                        <(u32, u32) as WithSchema>::schema_nodes(version),
                        MyStuff::schema_nodes(version),
                    ],
                    <u32 as WithSchema>::schema_nodes(version),
                ),
                method_model(
                    "add_simple"@,
                    seq![
                        <u32 as WithSchema>::schema_nodes(version),
                        <u32 as WithSchema>::schema_nodes(version),
                    ],
                    <u32 as WithSchema>::schema_nodes(version),
                ),
                method_model("do_nothing"@, Seq::empty(), <() as WithSchema>::schema_nodes(version)),
            ],
        )
    }

    open spec fn latest_version() -> u32 {
        0
    }

    open spec fn outcome(
        &self,
        method_number: u16,
        effective_version: u32,
        compatibility_mask: u64,
        data: Seq<u8>,
    ) -> CallOutcome {
        let v = effective_version;
        if method_number == 0 {
            match <((u32, u32), MyStuff) as Deserialize>::decode(v, data) {
                Some((m, _)) => if m.0.0 + m.0.1 + (m.1.0 as u32) <= u32::MAX {
                    returned::<u32>(v, (m.0.0 + m.0.1 + (m.1.0 as u32)) as u32)
                } else {
                    panicked(overflow_message())
                },
                None => refused(unreadable_message()),
            }
        } else if method_number == 1 {
            match <(u32, u32) as Deserialize>::decode(v, data) {
                Some((m, _)) => add_outcome(v, m.0, m.1),
                None => refused(unreadable_message()),
            }
        } else if method_number == 2 {
            returned::<()>(v, ())
        } else {
            refused(unknown_method_message())
        }
    }

    fn get_definition(version: u32) -> (r: AbiTraitDefinition) {
        let methods = three_methods(
            make_method(
                "add",
                two_args(arg::<(u32, u32)>(version), arg::<MyStuff>(version)),
                get_schema::<u32>(version),
            ),
            make_method(
                "add_simple",
                two_args(arg::<u32>(version), arg::<u32>(version)),
                get_schema::<u32>(version),
            ),
            make_method("do_nothing", no_args(), get_schema::<()>(version)),
        );
        let r = AbiTraitDefinition { name: String::from_str("AdderInterface"), methods };
        assert(r.model() =~= Self::definition(version));
        r
    }

    fn get_latest_version() -> (r: u32) {
        0
    }

    fn call(&self, method_number: u16, effective_version: u32, compatibility_mask: u64, data: &[u8]) -> (r:
        RawAbiCallResult) {
        let v = effective_version;
        if method_number == 0 {
            match read_args::<((u32, u32), MyStuff)>(v, data) {
                Ok(((x, y), z)) => {
                    let zx: u64 = z.x;
                    let low = (zx % 0x1_0000_0000) as u32;
                    assert(low == zx as u32) by (bit_vector)
                        requires
                            low == (zx % 0x1_0000_0000) as u32,
                    ;
                    if x as u64 + y as u64 + low as u64 > u32::MAX as u64 {
                        panic_outcome("attempt to add with overflow")
                    } else {
                        return_value(v, &self.add(x, &y, &z))
                    }
                },
                Err(_) => refusal("the arguments of the call could not be read"),
            }
        } else if method_number == 1 {
            match read_args::<(u32, u32)>(v, data) {
                Ok((x, y)) => return_add(v, x, y),
                Err(_) => refusal("the arguments of the call could not be read"),
            }
        } else if method_number == 2 {
            self.do_nothing();
            return_value(v, &())
        } else {
            refusal("the implementation has no method with this number")
        }
    }
}

/// Adds `a` and `b` through a connection to an [`AdderImplementation`]: the
/// numbers are written, the implementation adds them, and the sum is read back.
/// A sum that does not fit makes the implementation panic, which comes back as
/// an error carrying the panic message.
pub fn call_add(adder: &AbiConnection<AdderImplementation, AdderImplementation>, a: u32, b: u32) -> (r:
    Result<u32, SavefileError>)
    requires
        adder.template.methods.len() == 3,
        adder.template.methods@[1].callee_method_number == Some(1u16),
        adder.template.effective_version == 0,
    ensures
        a + b <= u32::MAX ==> r == Ok::<u32, SavefileError>((a + b) as u32),
        a + b > u32::MAX ==> (r matches Err(SavefileError::CalleePanic { msg }) && msg@ == utf8_lossy(
            vstd::utf8::encode_utf8(overflow_message()),
        )),
{
    let ghost args = (a, b);
    let r = adder.call_method::<(u32, u32), u32>(1, &(a, b));
    proof {
        let bytes = <(u32, u32) as Serialize>::encode(0, args);
        <(u32, u32) as Roundtrip>::lemma_roundtrip(0, args, Seq::empty());
        assert(bytes + Seq::<u8>::empty() =~= bytes);
        if a + b <= u32::MAX {
            let s = (a + b) as u32;
            let d = le_bytes(0, 4) + <u32 as Serialize>::encode(0, s);
            reveal_with_fuel(pow256, 5);
            lemma_le_roundtrip(0, 4);
            assert(d.take(4) =~= le_bytes(0, 4));
            <u32 as Roundtrip>::lemma_roundtrip(0, s, Seq::empty());
            assert(d.skip(4) =~= <u32 as Serialize>::encode(0, s) + Seq::<u8>::empty());
        }
    }
    r
}

} // verus!
