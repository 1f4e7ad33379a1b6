//! An interface that takes an enum, and an implementation of it.
use vstd::prelude::*;

use crate::abi::callee::{read_args, refusal, refused, return_value, returned};
use crate::abi::connection::{AbiExportable, CallOutcome, RawAbiCallResult};
use crate::abi::definition::AbiTraitDefinition;
use crate::interfaces::arguments::{unknown_method_message, unreadable_message};
use crate::interfaces::enum_types::{AbiSimpleEnum, AbiSimpleEnumModel};
use crate::interfaces::{arg, make_method, method_model, one_arg};
use crate::schema::with_schema::{get_schema, WithSchema};
use crate::traits::{Deserialize, Model};

verus! {

/// The count an [`AbiSimpleEnum`] carries: none for the first variant, its
/// number for the second, one for the third.
pub open spec fn enum_count(m: AbiSimpleEnumModel) -> u32 {
    match m {
        AbiSimpleEnumModel::Variant1 => 0,
        AbiSimpleEnumModel::Variant2(t) => t.0,
        AbiSimpleEnumModel::Variant3(_) => 1,
    }
}

/// Reads a count out of an enum.
pub trait SimpleInterfaceWithEnums {
    /// The count of the enum.
    fn count_arg(&self, x: &AbiSimpleEnum) -> (r: u32)
        ensures
            r == enum_count(x.model()),
    ;

    /// The count of the enum, which is handed over.
    fn count_arg_owned(&self, x: AbiSimpleEnum) -> (r: u32)
        ensures
            r == enum_count(x.model()),
    ;
}

/// An implementation of [`SimpleInterfaceWithEnums`].
pub struct Implementation {}

impl SimpleInterfaceWithEnums for Implementation {
    fn count_arg(&self, x: &AbiSimpleEnum) -> (r: u32) {
        match x {
            AbiSimpleEnum::Variant1 => 0,
            AbiSimpleEnum::Variant2(c, _, _, _) => *c,
            AbiSimpleEnum::Variant3(_, _) => 1,
        }
    }

    fn count_arg_owned(&self, x: AbiSimpleEnum) -> (r: u32) {
        match x {
            AbiSimpleEnum::Variant1 => 0,
            AbiSimpleEnum::Variant2(c, _, _, _) => c,
            AbiSimpleEnum::Variant3(_, _) => 1,
        }
    }
}

impl AbiExportable for Implementation {
    /// In every data version: `count_arg` and `count_arg_owned`, each of an
    /// enum to a number.
    open spec fn definition(version: u32) -> <AbiTraitDefinition as Model>::M {
        (
            "SimpleInterfaceWithEnums"@,
            seq![
                method_model(
                    "count_arg"@,
                    seq![AbiSimpleEnum::schema_nodes(version)],
                    <u32 as WithSchema>::schema_nodes(version),
                ),
                method_model(
                    "count_arg_owned"@,
                    seq![AbiSimpleEnum::schema_nodes(version)],
                    <u32 as WithSchema>::schema_nodes(version),
                ),
            ],
        )
    }

    open spec fn latest_version() -> u32 {
        0
    }

    open spec fn outcome(
        &self,
        method_number: u16,
        effective_version: u32,
        compatibility_mask: u64,
        data: Seq<u8>,
    ) -> CallOutcome {
        let v = effective_version;
        if method_number == 0 || method_number == 1 {
            match <AbiSimpleEnum as Deserialize>::decode(v, data) {
                Some((m, _)) => returned::<u32>(v, enum_count(m)),
                None => refused(unreadable_message()),
            }
        } else {
            refused(unknown_method_message())
        }
    }

    fn get_definition(version: u32) -> (r: AbiTraitDefinition) {
        let a = make_method("count_arg", one_arg(arg::<AbiSimpleEnum>(version)), get_schema::<u32>(version));
        let b = make_method(
            "count_arg_owned",
            one_arg(arg::<AbiSimpleEnum>(version)),
            get_schema::<u32>(version),
        );
        let ghost am = a.model();
        let ghost bm = b.model();
        let mut methods = Vec::new();
        methods.push(a);
        methods.push(b);
        assert(methods.model() =~= seq![am, bm]);
        let r = AbiTraitDefinition { name: String::from_str("SimpleInterfaceWithEnums"), methods };
        assert(r.model() =~= Self::definition(version));
        r
    }

    fn get_latest_version() -> (r: u32) {
        0
    }

    fn call(&self, method_number: u16, effective_version: u32, compatibility_mask: u64, data: &[u8]) -> (r:
        RawAbiCallResult) {
        let v = effective_version;
        if method_number == 0 {
            match read_args::<AbiSimpleEnum>(v, data) {
                Ok(x) => return_value(v, &self.count_arg(&x)),
                Err(_) => refusal("the arguments of the call could not be read"),
            }
        } else if method_number == 1 {
            match read_args::<AbiSimpleEnum>(v, data) {
                Ok(x) => return_value(v, &self.count_arg_owned(x)),
                Err(_) => refusal("the arguments of the call could not be read"),
            }
        } else {
            refusal("the implementation has no method with this number")
        }
    }
}

} // verus!
