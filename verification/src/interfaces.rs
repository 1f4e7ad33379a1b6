//! Interfaces whose methods are called through connections, with their
//! argument types and implementations.

pub mod adder;
pub mod adder_types;
pub mod arguments;
pub mod calls;
pub mod closure_args;
pub mod closure_args_newer;
pub mod enum_types;
pub mod enums;
pub mod reordered;
pub mod v1_types;
pub mod v2_types;

use vstd::prelude::*;

use crate::abi::compat::MethodModel;
use crate::abi::definition::{AbiMethod, AbiMethodArgument, AbiMethodInfo, ReceiverType, ReceiverTypeModel};
use crate::schema::nodes::SchemaNodeModel;
use crate::schema::with_schema::{get_schema, WithSchema};
use crate::schema::Schema;
use crate::traits::Model;

verus! {

/// Combines two numbers.
pub trait TestTrait {
    /// The combination of `x` and `y`.
    fn call_trait(&self, x: u32, y: u32) -> u32;
}

/// Maps a number to a number.
pub trait SimpleInterface {
    /// The number `x` maps to.
    fn do_call(&self, x: u32) -> u32;
}

/// A marker for objects that can be sent to another thread.
pub trait DummyTrait2: Send {}

/// The model of a method called `name` on a shared object, with the given
/// argument and return schemas.
pub open spec fn method_model(
    name: Seq<char>,
    args: Seq<Seq<SchemaNodeModel>>,
    ret: Seq<SchemaNodeModel>,
) -> MethodModel {
    (name, (ret, ReceiverTypeModel::Shared, (args, false)))
}

/// The argument description of a value of type `T`.
pub fn arg<T: WithSchema>(version: u32) -> (r: AbiMethodArgument)
    ensures
        r.model() == T::schema_nodes(version),
{
    AbiMethodArgument { schema: get_schema::<T>(version) }
}

/// The argument list of a method with no arguments.
pub fn no_args() -> (r: Vec<AbiMethodArgument>)
    ensures
        r.model() == Seq::<Seq<SchemaNodeModel>>::empty(),
{
    let r: Vec<AbiMethodArgument> = Vec::new();
    assert(r.model() =~= Seq::<Seq<SchemaNodeModel>>::empty());
    r
}

/// The argument list of a method with one argument.
pub fn one_arg(a: AbiMethodArgument) -> (r: Vec<AbiMethodArgument>)
    ensures
        r.model() == seq![a.model()],
{
    let ghost am = a.model();
    let mut r: Vec<AbiMethodArgument> = Vec::new();
    r.push(a);
    assert(r.model() =~= seq![am]);
    r
}

/// The argument list of a method with two arguments.
pub fn two_args(a: AbiMethodArgument, b: AbiMethodArgument) -> (r: Vec<AbiMethodArgument>)
    ensures
        r.model() == seq![a.model(), b.model()],
{
    let ghost am = a.model();
    let ghost bm = b.model();
    let mut r: Vec<AbiMethodArgument> = Vec::new();
    r.push(a);
    r.push(b);
    assert(r.model() =~= seq![am, bm]);
    r
}

/// A list of three methods.
pub fn three_methods(a: AbiMethod, b: AbiMethod, c: AbiMethod) -> (r: Vec<AbiMethod>)
    ensures
        r.model() == seq![a.model(), b.model(), c.model()],
{
    let ghost am = a.model();
    let ghost bm = b.model();
    let ghost cm = c.model();
    let mut r: Vec<AbiMethod> = Vec::new();
    r.push(a);
    r.push(b);
    r.push(c);
    assert(r.model() =~= seq![am, bm, cm]);
    r
}

/// A method called `name` on a shared object.
pub fn make_method(name: &str, arguments: Vec<AbiMethodArgument>, return_value: Schema) -> (r: AbiMethod)
    ensures
        r.model() == method_model(name@, arguments.model(), return_value.model()),
{
    AbiMethod {
        name: String::from_str(name),
        info: AbiMethodInfo {
            return_value,
            receiver: ReceiverType::Shared,
            arguments,
            async_trait_heuristic: false,
        },
    }
}

} // verus!
