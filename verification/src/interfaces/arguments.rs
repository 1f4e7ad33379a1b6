//! Two versions of an interface whose argument types change between them.
use vstd::prelude::*;
use vstd::utf8::encode_utf8;

use crate::abi::callee::{panic_outcome, read_args, refusal, refused, return_value, returned, panicked};
use crate::abi::compat::MethodModel;
use crate::abi::connection::{AbiExportable, CallOutcome, RawAbiCallResult};
use crate::abi::definition::AbiTraitDefinition;
use crate::interfaces::v1_types::{Argument, EnumArgument, EnumArgumentModel};
use crate::interfaces::v2_types::{ArgArgument, EnumArgument as EnumArgument2, EnumArgumentModel as EnumArgument2Model};
use crate::interfaces::{arg, make_method, method_model, no_args, one_arg, three_methods, two_args};
use crate::schema::with_schema::{get_schema, WithSchema};
use crate::traits::{Deserialize, Model, Serialize};

verus! {

/// The first version of the interface.
pub trait ArgInterfaceV1 {
    /// The sum of the four numbers.
    fn sums(&self, a: Argument, b: Argument) -> (r: u32)
        requires
            a.data1 + a.data2 + b.data1 + b.data2 <= u32::MAX,
        ensures
            r == a.data1 + a.data2 + b.data1 + b.data2,
    ;

    /// The name of the variant.
    fn enum_arg(&self, a: EnumArgument) -> (r: String)
        ensures
            r@ == match a {
                EnumArgument::Variant1 => "Variant1"@,
                EnumArgument::Variant2 => "Variant2"@,
            },
    ;

    /// Does nothing; later versions no longer have it.
    fn function_existing_in_v1(&self);
}

/// An implementation of the first version.
#[derive(Default)]
pub struct Implementation1 {}

impl ArgInterfaceV1 for Implementation1 {
    fn sums(&self, a: Argument, b: Argument) -> (r: u32) {
        a.data1 + a.data2 + b.data1 + b.data2
    }

    fn enum_arg(&self, a: EnumArgument) -> (r: String) {
        match a {
            EnumArgument::Variant1 => String::from_str("Variant1"),
            EnumArgument::Variant2 => String::from_str("Variant2"),
        }
    }

    fn function_existing_in_v1(&self) {
    }
}

/// The message of a call whose numbers add up to more than fits.
pub open spec fn overflow_message() -> Seq<char> {
    "attempt to add with overflow"@
}

/// The message of a call whose arguments could not be read.
pub open spec fn unreadable_message() -> Seq<char> {
    "the arguments of the call could not be read"@
}

/// The message of a call of a method number the implementation does not have.
pub open spec fn unknown_method_message() -> Seq<char> {
    "the implementation has no method with this number"@
}

/// The outcome of returning the text `s`.
pub open spec fn returned_text(version: u32, s: Seq<char>) -> CallOutcome {
    returned::<String>(version, s)
}

/// The outcome of adding four numbers: their sum, or a panic when it does not fit.
pub open spec fn sum_outcome(version: u32, a: u32, b: u32, c: u32, d: u32) -> CallOutcome {
    if a + b + c + d <= u32::MAX {
        returned::<u32>(version, (a + b + c + d) as u32)
    } else {
        panicked(overflow_message())
    }
}

fn return_text(version: u32, s: String) -> (r: RawAbiCallResult)
    ensures
        r.model() == returned_text(version, s@),
{
    let n = s.as_str().as_bytes().len();
    assert(encode_utf8(s@).len() == n);
    return_value(version, &s)
}

fn return_sum(version: u32, a: u32, b: u32, c: u32, d: u32) -> (r: RawAbiCallResult)
    ensures
        r.model() == sum_outcome(version, a, b, c, d),
{
    let s1 = a as u64 + b as u64 + c as u64 + d as u64;
    if s1 > u32::MAX as u64 {
        panic_outcome("attempt to add with overflow")
    } else {
        return_value(version, &(s1 as u32))
    }
}

impl AbiExportable for Implementation1 {
    /// In every data version: `sums` of two arguments to a number, `enum_arg`
    /// of a variant to text, and `function_existing_in_v1`.
    open spec fn definition(version: u32) -> <AbiTraitDefinition as Model>::M {
        (
            "ArgInterfaceV1"@,
            seq![
                method_model(
                    "sums"@,
                    seq![Argument::schema_nodes(version), Argument::schema_nodes(version)],
                    <u32 as WithSchema>::schema_nodes(version),
                ),
                method_model(
                    "enum_arg"@,
                    seq![EnumArgument::schema_nodes(version)],
                    <String as WithSchema>::schema_nodes(version),
                ),
                method_model(
                    "function_existing_in_v1"@,
                    Seq::empty(),
                    <() as WithSchema>::schema_nodes(version),
                ),
            ],
        )
    }

    open spec fn latest_version() -> u32 {
        0
    }

    open spec fn outcome(
        &self,
        method_number: u16,
        effective_version: u32,
        compatibility_mask: u64,
        data: Seq<u8>,
    ) -> CallOutcome {
        let v = effective_version;
        if method_number == 0 {
            match <(Argument, Argument) as Deserialize>::decode(v, data) {
                Some((m, _)) => sum_outcome(v, m.0.0, m.0.1, m.1.0, m.1.1),
                None => refused(unreadable_message()),
            }
        } else if method_number == 1 {
            match <EnumArgument as Deserialize>::decode(v, data) {
                Some((EnumArgumentModel::Variant1, _)) => returned_text(v, "Variant1"@),
                Some((EnumArgumentModel::Variant2, _)) => returned_text(v, "Variant2"@),
                None => refused(unreadable_message()),
            }
        } else if method_number == 2 {
            returned::<()>(v, ())
        } else {
            refused(unknown_method_message())
        }
    }

    fn get_definition(version: u32) -> (r: AbiTraitDefinition) {
        let methods = three_methods(
            make_method(
                "sums",
                two_args(arg::<Argument>(version), arg::<Argument>(version)),
                get_schema::<u32>(version),
            ),
            make_method("enum_arg", one_arg(arg::<EnumArgument>(version)), get_schema::<String>(version)),
            make_method("function_existing_in_v1", no_args(), get_schema::<()>(version)),
        );
        let r = AbiTraitDefinition { name: String::from_str("ArgInterfaceV1"), methods };
        assert(r.model() =~= Self::definition(version));
        r
    }

    fn get_latest_version() -> (r: u32) {
        0
    }

    fn call(&self, method_number: u16, effective_version: u32, compatibility_mask: u64, data: &[u8]) -> (r:
        RawAbiCallResult) {
        let v = effective_version;
        if method_number == 0 {
            match read_args::<(Argument, Argument)>(v, data) {
                Ok((a, b)) => return_sum(v, a.data1, a.data2, b.data1, b.data2),
                Err(_) => refusal("the arguments of the call could not be read"),
            }
        } else if method_number == 1 {
            match read_args::<EnumArgument>(v, data) {
                Ok(a) => return_text(v, self.enum_arg(a)),
                Err(_) => refusal("the arguments of the call could not be read"),
            }
        } else if method_number == 2 {
            self.function_existing_in_v1();
            return_value(v, &())
        } else {
            refusal("the implementation has no method with this number")
        }
    }
}

/// The second version of the interface: the arguments of `sums` changed, and a
/// method was replaced by another.
pub trait ArgInterfaceV2 {
    /// The sum of the second and third numbers of each argument.
    fn sums(&self, a: ArgArgument, b: ArgArgument) -> (r: u32)
        requires
            a.data3 + a.data2 + b.data2 + b.data3 <= u32::MAX,
        ensures
            r == a.data3 + a.data2 + b.data2 + b.data3,
    ;

    /// The name of the variant.
    fn enum_arg(&self, a: EnumArgument2) -> (r: String)
        ensures
            r@ == match a {
                EnumArgument2::Variant1 => "Variant1"@,
                EnumArgument2::Variant2 => "Variant2"@,
                EnumArgument2::Variant3 => "Variant3"@,
            },
    {
        match a {
            EnumArgument2::Variant1 => String::from_str("Variant1"),
            EnumArgument2::Variant2 => String::from_str("Variant2"),
            EnumArgument2::Variant3 => String::from_str("Variant3"),
        }
    }

    /// Does nothing; earlier versions do not have it.
    fn function_existing_in_v2(&self);
}

/// An implementation of the second version.
#[derive(Default)]
pub struct Implementation2 {}

impl ArgInterfaceV2 for Implementation2 {
    fn sums(&self, a: ArgArgument, b: ArgArgument) -> (r: u32) {
        a.data3 + a.data2 + b.data2 + b.data3
    }

    fn function_existing_in_v2(&self) {
    }
}

impl AbiExportable for Implementation2 {
    /// In every data version: `sums` of two arguments to a number, `enum_arg`
    /// of a variant to text, and `function_existing_in_v2`.
    open spec fn definition(version: u32) -> <AbiTraitDefinition as Model>::M {
        (
            "ArgInterfaceV2"@,
            seq![
                method_model(
                    "sums"@,
                    seq![ArgArgument::schema_nodes(version), ArgArgument::schema_nodes(version)],
                    <u32 as WithSchema>::schema_nodes(version),
                ),
                method_model(
                    "enum_arg"@,
                    seq![EnumArgument2::schema_nodes(version)],
                    <String as WithSchema>::schema_nodes(version),
                ),
                method_model(
                    "function_existing_in_v2"@,
                    Seq::empty(),
                    <() as WithSchema>::schema_nodes(version),
                ),
            ],
        )
    }

    open spec fn latest_version() -> u32 {
        1
    }

    open spec fn outcome(
        &self,
        method_number: u16,
        effective_version: u32,
        compatibility_mask: u64,
        data: Seq<u8>,
    ) -> CallOutcome {
        let v = effective_version;
        if method_number == 0 {
            match <(ArgArgument, ArgArgument) as Deserialize>::decode(v, data) {
                Some((m, _)) => sum_outcome(v, m.0.2, m.0.1, m.1.1, m.1.2),
                None => refused(unreadable_message()),
            }
        } else if method_number == 1 {
            match <EnumArgument2 as Deserialize>::decode(v, data) {
                Some((EnumArgument2Model::Variant1, _)) => returned_text(v, "Variant1"@),
                Some((EnumArgument2Model::Variant2, _)) => returned_text(v, "Variant2"@),
                Some((EnumArgument2Model::Variant3, _)) => returned_text(v, "Variant3"@),
                None => refused(unreadable_message()),
            }
        } else if method_number == 2 {
            returned::<()>(v, ())
        } else {
            refused(unknown_method_message())
        }
    }

    fn get_definition(version: u32) -> (r: AbiTraitDefinition) {
        let methods = three_methods(
            make_method(
                "sums",
                two_args(arg::<ArgArgument>(version), arg::<ArgArgument>(version)),
                get_schema::<u32>(version),
            ),
            make_method("enum_arg", one_arg(arg::<EnumArgument2>(version)), get_schema::<String>(version)),
            make_method("function_existing_in_v2", no_args(), get_schema::<()>(version)),
        );
        let r = AbiTraitDefinition { name: String::from_str("ArgInterfaceV2"), methods };
        assert(r.model() =~= Self::definition(version));
        r
    }

    fn get_latest_version() -> (r: u32) {
        1
    }

    fn call(&self, method_number: u16, effective_version: u32, compatibility_mask: u64, data: &[u8]) -> (r:
        RawAbiCallResult) {
        let v = effective_version;
        if method_number == 0 {
            match read_args::<(ArgArgument, ArgArgument)>(v, data) {
                Ok((a, b)) => return_sum(v, a.data3, a.data2, b.data2, b.data3),
                Err(_) => refusal("the arguments of the call could not be read"),
            }
        } else if method_number == 1 {
            match read_args::<EnumArgument2>(v, data) {
                Ok(a) => return_text(v, self.enum_arg(a)),
                Err(_) => refusal("the arguments of the call could not be read"),
            }
        } else if method_number == 2 {
            self.function_existing_in_v2();
            return_value(v, &())
        } else {
            refusal("the implementation has no method with this number")
        }
    }
}

} // verus!
