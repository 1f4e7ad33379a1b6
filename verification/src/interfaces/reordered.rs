//! Two definitions of an interface whose methods differ in order and in which
//! methods exist; calls are matched by method name.
use vstd::prelude::*;

use crate::abi::callee::{panic_outcome, panicked, read_args, refusal, refused, return_value, returned};
use crate::abi::connection::{AbiExportable, CallOutcome, RawAbiCallResult};
use crate::abi::definition::{AbiMethod, AbiTraitDefinition};
use crate::interfaces::arguments::{overflow_message, unknown_method_message, unreadable_message};
use crate::interfaces::{arg, make_method, method_model, no_args, three_methods, two_args};
use crate::schema::with_schema::{get_schema, WithSchema};
use crate::traits::{Deserialize, Model};

verus! {

/// The message of a call whose product does not fit.
pub open spec fn mul_overflow_message() -> Seq<char> {
    "attempt to multiply with overflow"@
}

/// The outcome of a call of `add` with argument bytes `data`.
pub open spec fn add_call(v: u32, data: Seq<u8>) -> CallOutcome {
    match <(u32, u32) as Deserialize>::decode(v, data) {
        Some((m, _)) => if m.0 + m.1 <= u32::MAX {
            returned::<u32>(v, (m.0 + m.1) as u32)
        } else {
            panicked(overflow_message())
        },
        None => refused(unreadable_message()),
    }
}

/// The outcome of a call of `mul` with argument bytes `data`.
pub open spec fn mul_call(v: u32, data: Seq<u8>) -> CallOutcome {
    match <(u32, u32) as Deserialize>::decode(v, data) {
        Some((m, _)) => if m.0 * m.1 <= u32::MAX {
            returned::<u32>(v, (m.0 * m.1) as u32)
        } else {
            panicked(mul_overflow_message())
        },
        None => refused(unreadable_message()),
    }
}

fn run_add(v: u32, data: &[u8]) -> (r: RawAbiCallResult)
    ensures
        r.model() == add_call(v, data@),
{
    match read_args::<(u32, u32)>(v, data) {
        Ok((x, y)) => if x as u64 + y as u64 > u32::MAX as u64 {
            panic_outcome("attempt to add with overflow")
        } else {
            return_value(v, &(x + y))
        },
        Err(_) => refusal("the arguments of the call could not be read"),
    }
}

fn run_mul(v: u32, data: &[u8]) -> (r: RawAbiCallResult)
    ensures
        r.model() == mul_call(v, data@),
{
    match read_args::<(u32, u32)>(v, data) {
        Ok((x, y)) => {
            let xl = x as u64;
            let yl = y as u64;
            assert(xl * yl <= 0xffff_ffff_ffff_ffff) by (nonlinear_arith)
                requires
                    xl <= 0xffff_ffff,
                    yl <= 0xffff_ffff,
            ;
            let p = xl * yl;
            if p > u32::MAX as u64 {
                panic_outcome("attempt to multiply with overflow")
            } else {
                return_value(v, &(p as u32))
            }
        },
        Err(_) => refusal("the arguments of the call could not be read"),
    }
}

/// The older definition: `old`, `add`, `mul`.
pub trait InterfaceV1 {
    /// Does nothing; the newer definition lacks it. It is called `old` across
    /// the boundary.
    fn old_method(&self);

    /// The sum of `x` and `y`.
    fn add(&self, x: u32, y: u32) -> (r: u32)
        requires
            x + y <= u32::MAX,
        ensures
            r == x + y,
    ;

    /// The product of `x` and `y`.
    fn mul(&self, x: u32, y: u32) -> (r: u32)
        requires
            x * y <= u32::MAX,
        ensures
            r == x * y,
    ;
}

/// The newer definition: `newer1`, `newer2`, `mul`, `add`.
pub trait InterfaceV2 {
    /// Does nothing; the older definition lacks it.
    fn newer1(&self);

    /// Does nothing; the older definition lacks it.
    fn newer2(&self);

    /// The product of `x` and `y`.
    fn mul(&self, x: u32, y: u32) -> (r: u32)
        requires
            x * y <= u32::MAX,
        ensures
            r == x * y,
    ;

    /// The sum of `x` and `y`.
    fn add(&self, x: u32, y: u32) -> (r: u32)
        requires
            x + y <= u32::MAX,
        ensures
            r == x + y,
    ;
}

/// An implementation of the older definition.
#[derive(Default)]
pub struct Implementation1 {}

/// An implementation of the newer definition.
#[derive(Default)]
pub struct Implementation2 {}

impl InterfaceV1 for Implementation1 {
    fn old_method(&self) {
    }

    fn add(&self, x: u32, y: u32) -> (r: u32) {
        x + y
    }

    fn mul(&self, x: u32, y: u32) -> (r: u32) {
        x * y
    }
}

impl InterfaceV2 for Implementation2 {
    fn newer1(&self) {
    }

    fn newer2(&self) {
    }

    fn mul(&self, x: u32, y: u32) -> (r: u32) {
        x * y
    }

    fn add(&self, x: u32, y: u32) -> (r: u32) {
        x + y
    }
}

impl AbiExportable for Implementation1 {
    /// `old`, `add` and `mul`, in that order.
    open spec fn definition(version: u32) -> <AbiTraitDefinition as Model>::M {
        let u = <u32 as WithSchema>::schema_nodes(version);
        (
            "InterfaceV1"@,
            seq![
                method_model("old"@, Seq::empty(), <() as WithSchema>::schema_nodes(version)),
                method_model("add"@, seq![u, u], u),
                method_model("mul"@, seq![u, u], u),
            ],
        )
    }

    open spec fn latest_version() -> u32 {
        0
    }

    open spec fn outcome(
        &self,
        method_number: u16,
        effective_version: u32,
        compatibility_mask: u64,
        data: Seq<u8>,
    ) -> CallOutcome {
        if method_number == 0 {
            returned::<()>(effective_version, ())
        } else if method_number == 1 {
            add_call(effective_version, data)
        } else if method_number == 2 {
            mul_call(effective_version, data)
        } else {
            refused(unknown_method_message())
        }
    }

    fn get_definition(version: u32) -> (r: AbiTraitDefinition) {
        let methods = three_methods(
            make_method("old", no_args(), get_schema::<()>(version)),
            make_method("add", two_args(arg::<u32>(version), arg::<u32>(version)), get_schema::<u32>(version)),
            make_method("mul", two_args(arg::<u32>(version), arg::<u32>(version)), get_schema::<u32>(version)),
        );
        let r = AbiTraitDefinition { name: String::from_str("InterfaceV1"), methods };
        assert(r.model() =~= Self::definition(version));
        r
    }

    fn get_latest_version() -> (r: u32) {
        0
    }

    fn call(&self, method_number: u16, effective_version: u32, compatibility_mask: u64, data: &[u8]) -> (r:
        RawAbiCallResult) {
        if method_number == 0 {
            self.old_method();
            return_value(effective_version, &())
        } else if method_number == 1 {
            run_add(effective_version, data)
        } else if method_number == 2 {
            run_mul(effective_version, data)
        } else {
            refusal("the implementation has no method with this number")
        }
    }
}

impl AbiExportable for Implementation2 {
    /// `newer1`, `newer2`, `mul` and `add`, in that order.
    open spec fn definition(version: u32) -> <AbiTraitDefinition as Model>::M {
        let u = <u32 as WithSchema>::schema_nodes(version);
        let unit = <() as WithSchema>::schema_nodes(version);
        (
            "InterfaceV2"@,
            seq![
                method_model("newer1"@, Seq::empty(), unit),
                method_model("newer2"@, Seq::empty(), unit),
                method_model("mul"@, seq![u, u], u),
                method_model("add"@, seq![u, u], u),
            ],
        )
    }

    open spec fn latest_version() -> u32 {
        0
    }

    open spec fn outcome(
        &self,
        method_number: u16,
        effective_version: u32,
        compatibility_mask: u64,
        data: Seq<u8>,
    ) -> CallOutcome {
        if method_number == 0 || method_number == 1 {
            returned::<()>(effective_version, ())
        } else if method_number == 2 {
            mul_call(effective_version, data)
        } else if method_number == 3 {
            add_call(effective_version, data)
        } else {
            refused(unknown_method_message())
        }
    }

    fn get_definition(version: u32) -> (r: AbiTraitDefinition) {
        let a = make_method("newer1", no_args(), get_schema::<()>(version));
        let b = make_method("newer2", no_args(), get_schema::<()>(version));
        let c = make_method("mul", two_args(arg::<u32>(version), arg::<u32>(version)), get_schema::<u32>(version));
        let d = make_method("add", two_args(arg::<u32>(version), arg::<u32>(version)), get_schema::<u32>(version));
        let ghost ms = seq![a.model(), b.model(), c.model(), d.model()];
        let mut methods: Vec<AbiMethod> = Vec::new();
        methods.push(a);
        methods.push(b);
        methods.push(c);
        methods.push(d);
        assert(methods.model() =~= ms);
        let r = AbiTraitDefinition { name: String::from_str("InterfaceV2"), methods };
        assert(r.model() =~= Self::definition(version));
        r
    }

    fn get_latest_version() -> (r: u32) {
        0
    }

    fn call(&self, method_number: u16, effective_version: u32, compatibility_mask: u64, data: &[u8]) -> (r:
        RawAbiCallResult) {
        if method_number == 0 {
            self.newer1();
            return_value(effective_version, &())
        } else if method_number == 1 {
            self.newer2();
            return_value(effective_version, &())
        } else if method_number == 2 {
            run_mul(effective_version, data)
        } else if method_number == 3 {
            run_add(effective_version, data)
        } else {
            refusal("the implementation has no method with this number")
        }
    }
}

} // verus!
