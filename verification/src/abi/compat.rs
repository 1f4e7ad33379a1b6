//! Matching the methods a caller knows with the methods an implementation has,
//! and deciding, argument by argument, what can be passed without copying.
use vstd::prelude::*;

use crate::abi::definition::{AbiMethod, AbiMethodArgument, AbiMethodInfo, AbiTraitDefinition, ReceiverType};
use crate::error::SavefileError;
use crate::schema::nodes::{SchemaNode, SchemaNodeModel};
use crate::schema::{diff_schema, free_of_removed, is_removed_field, schemas_compatible, Schema};
use crate::traits::Model;

verus! {

/// The model of a method: its name and the model of its signature.
pub type MethodModel = <AbiMethod as Model>::M;

/// The model of a signature: return schema, receiver, and argument schemas with
/// the async flag.
pub type InfoModel = <AbiMethodInfo as Model>::M;

/// The name of a method.
pub open spec fn method_name(m: MethodModel) -> Seq<char> {
    m.0
}

/// The schema of the value a method returns.
pub open spec fn method_return(m: MethodModel) -> Seq<SchemaNodeModel> {
    m.1.0
}

/// The schemas of the arguments of a method, in order.
pub open spec fn method_args(m: MethodModel) -> Seq<Seq<SchemaNodeModel>> {
    m.1.2.0
}

/// The methods of an interface definition.
pub open spec fn def_methods(d: <AbiTraitDefinition as Model>::M) -> Seq<MethodModel> {
    d.1
}

/// `i` is the first position in `ms` of a method called `name`.
pub open spec fn is_first_named(ms: Seq<MethodModel>, name: Seq<char>, i: int) -> bool {
    &&& 0 <= i < ms.len()
    &&& method_name(ms[i]) == name
    &&& forall|j: int| 0 <= j < i ==> method_name(#[trigger] ms[j]) != name
}

/// The first position in `ms` of a method called `name`, if there is one.
pub open spec fn first_named(ms: Seq<MethodModel>, name: Seq<char>) -> Option<int> {
    if exists|i: int| is_first_named(ms, name, i) {
        Some(choose|i: int| is_first_named(ms, name, i))
    } else {
        None
    }
}

/// There is at most one first position of a name.
pub proof fn lemma_first_named_unique(ms: Seq<MethodModel>, name: Seq<char>, i: int, k: int)
    requires
        is_first_named(ms, name, i),
        is_first_named(ms, name, k),
    ensures
        i == k,
{
    if i < k {
        assert(method_name(ms[i]) != name);
    } else if k < i {
        assert(method_name(ms[k]) != name);
    }
}

/// Finds the first method called `name`.
pub fn find_method(ms: &Vec<AbiMethod>, name: &String) -> (r: Option<usize>)
    ensures
        r matches Some(i) ==> first_named(ms.model(), name@) == Some(i as int),
        r is None ==> first_named(ms.model(), name@) is None,
{
    let ghost m = ms.model();
    let mut i: usize = 0;
    while i < ms.len()
        invariant
            i <= ms.len(),
            m == ms.model(),
            forall|j: int| 0 <= j < i ==> method_name(#[trigger] m[j]) != name@,
        decreases ms.len() - i,
    {
        if ms[i].name == *name {
            assert(is_first_named(m, name@, i as int));
            proof {
                let k = choose|k: int| is_first_named(m, name@, k);
                lemma_first_named_unique(m, name@, i as int, k);
            }
            return Some(i);
        }
        i = i + 1;
    }
    assert(!exists|k: int| is_first_named(m, name@, k));
    None
}

/// Whether an argument can be handed over as it lies in memory, given the
/// schemas of its type at the caller and at the implementation: natively (in
/// the program's own version) and effectively (in the version both sides
/// speak). `None` means the two sides disagree in a way no call can bridge.
///
/// Boxes are looked through. An interface object is passable if both sides
/// name the same interface, in both views. Anything else is passable exactly
/// when both native schemas are the same and name no removed field.
pub open spec fn arg_layout_compat(
    an: Seq<SchemaNodeModel>,
    bn: Seq<SchemaNodeModel>,
    ae: Seq<SchemaNodeModel>,
    be: Seq<SchemaNodeModel>,
) -> Option<bool>
    decreases an.len(),
{
    if an.len() > 0 && bn.len() > 0 && an[0] is Boxed && bn[0] is Boxed {
        if ae.len() > 0 && be.len() > 0 && ae[0] is Boxed && be[0] is Boxed {
            arg_layout_compat(an.drop_first(), bn.drop_first(), ae.drop_first(), be.drop_first())
        } else {
            None
        }
    } else if an.len() > 0 && bn.len() > 0 && an[0] is Trait && bn[0] is Trait {
        if an[0] != bn[0] {
            None
        } else if ae.len() > 0 && be.len() > 0 && ae[0] is Trait && be[0] is Trait && ae[0] == be[0] {
            Some(true)
        } else {
            None
        }
    } else {
        Some(an == bn && free_of_removed(an))
    }
}

/// Skipping `k` leading boxes on all four schemas does not change the answer.
proof fn lemma_arg_layout_skip(
    an: Seq<SchemaNodeModel>,
    bn: Seq<SchemaNodeModel>,
    ae: Seq<SchemaNodeModel>,
    be: Seq<SchemaNodeModel>,
    k: int,
)
    requires
        0 <= k < an.len(),
        k < bn.len(),
        k < ae.len(),
        k < be.len(),
        an[k] is Boxed,
        bn[k] is Boxed,
        ae[k] is Boxed,
        be[k] is Boxed,
    ensures
        arg_layout_compat(an.skip(k), bn.skip(k), ae.skip(k), be.skip(k)) == arg_layout_compat(
            an.skip(k + 1),
            bn.skip(k + 1),
            ae.skip(k + 1),
            be.skip(k + 1),
        ),
{
    assert(an.skip(k).drop_first() =~= an.skip(k + 1));
    assert(bn.skip(k).drop_first() =~= bn.skip(k + 1));
    assert(ae.skip(k).drop_first() =~= ae.skip(k + 1));
    assert(be.skip(k).drop_first() =~= be.skip(k + 1));
}

fn is_boxed(s: &Schema, k: usize) -> (r: bool)
    ensures
        r == (k < s.model().len() && s.model()[k as int] is Boxed),
{
    if k < s.nodes.len() {
        match &s.nodes[k] {
            SchemaNode::Boxed => true,
            _ => false,
        }
    } else {
        false
    }
}

fn is_trait(s: &Schema, k: usize) -> (r: bool)
    ensures
        r == (k < s.model().len() && s.model()[k as int] is Trait),
{
    if k < s.nodes.len() {
        match &s.nodes[k] {
            SchemaNode::Trait { .. } => true,
            _ => false,
        }
    } else {
        false
    }
}

/// Whether the nodes of `a` and `b` from position `k` on are the same, and name no removed field.
fn same_tail_without_removed(a: &Schema, b: &Schema, k: usize) -> (r: bool)
    requires
        k <= a.model().len(),
        k <= b.model().len(),
    ensures
        r == (a.model().skip(k as int) == b.model().skip(k as int) && free_of_removed(
            a.model().skip(k as int),
        )),
{
    let ghost sa = a.model().skip(k as int);
    let ghost sb = b.model().skip(k as int);
    if a.nodes.len() != b.nodes.len() {
        assert(sa.len() != sb.len());
        return false;
    }
    let mut i: usize = k;
    while i < a.nodes.len()
        invariant
            k <= i <= a.nodes.len(),
            a.nodes.len() == b.nodes.len(),
            sa == a.model().skip(k as int),
            sb == b.model().skip(k as int),
            forall|j: int| 0 <= j < i - k ==> sa[j] == sb[j] && !is_removed_field(#[trigger] sa[j]),
        decreases a.nodes.len() - i,
    {
        if !crate::schema::nodes_equal(&a.nodes[i], &b.nodes[i]) {
            assert(sa[i - k] != sb[i - k]);
            return false;
        }
        if let SchemaNode::Field { removed: true, .. } = &a.nodes[i] {
            assert(is_removed_field(sa[i - k]));
            return false;
        }
        i = i + 1;
    }
    assert(sa =~= sb);
    true
}

/// Whether an argument can be passed as it lies in memory; an error where the
/// two sides disagree in a way no call can bridge.
#[verifier::spinoff_prover]
pub fn arg_layout_compatible(
    a_native: &Schema,
    b_native: &Schema,
    a_effective: &Schema,
    b_effective: &Schema,
    effective_version: u32,
    is_return_position: bool,
) -> (r: Result<bool, SavefileError>)
    ensures
        match arg_layout_compat(
            a_native.model(),
            b_native.model(),
            a_effective.model(),
            b_effective.model(),
        ) {
            Some(c) => r == Ok::<bool, SavefileError>(c),
            None => r matches Err(SavefileError::IncompatibleSchema { message }) && message@
                == "Type has changed"@,
        },
{
    let ghost an = a_native.model();
    let ghost bn = b_native.model();
    let ghost ae = a_effective.model();
    let ghost be = b_effective.model();
    assert(an.skip(0) =~= an);
    assert(bn.skip(0) =~= bn);
    assert(ae.skip(0) =~= ae);
    assert(be.skip(0) =~= be);
    let mut k: usize = 0;
    while is_boxed(a_native, k) && is_boxed(b_native, k)
        invariant
            k <= an.len(),
            k <= bn.len(),
            k <= ae.len(),
            k <= be.len(),
            an == a_native.model(),
            bn == b_native.model(),
            ae == a_effective.model(),
            be == b_effective.model(),
            arg_layout_compat(an, bn, ae, be) == arg_layout_compat(
                an.skip(k as int),
                bn.skip(k as int),
                ae.skip(k as int),
                be.skip(k as int),
            ),
        decreases an.len() - k,
    {
        if !(is_boxed(a_effective, k) && is_boxed(b_effective, k)) {
            return Err(
                SavefileError::IncompatibleSchema { message: String::from_str("Type has changed") },
            );
        }
        proof {
            lemma_arg_layout_skip(an, bn, ae, be, k as int);
        }
        assert(k < a_native.nodes.len());
        k = k + 1;
    }
    if is_trait(a_native, k) && is_trait(b_native, k) {
        if !crate::schema::nodes_equal(&a_native.nodes[k], &b_native.nodes[k]) {
            return Err(
                SavefileError::IncompatibleSchema { message: String::from_str("Type has changed") },
            );
        }
        if is_trait(a_effective, k) && is_trait(b_effective, k) && crate::schema::nodes_equal(
            &a_effective.nodes[k],
            &b_effective.nodes[k],
        ) {
            return Ok(true);
        }
        return Err(
            SavefileError::IncompatibleSchema { message: String::from_str("Type has changed") },
        );
    }
    Ok(same_tail_without_removed(a_native, b_native, k))
}

/// What can keep a caller from being connected to an implementation.
pub enum SetupFailure {
    /// A method the implementation has is missing from one of the
    /// definitions used to talk to it.
    MissingDefinition,
    /// The two sides disagree on the number of arguments of a method.
    ArgumentCountMismatch,
    /// A method has more than 64 arguments.
    TooManyArguments,
    /// An argument or return value cannot be converted between the two sides.
    IncompatibleSchema,
}

/// Whether the error `e` is the one reported for `f`.
pub open spec fn reports(e: SavefileError, f: SetupFailure) -> bool {
    match f {
        SetupFailure::MissingDefinition => e is GeneralError,
        SetupFailure::ArgumentCountMismatch => e is GeneralError,
        SetupFailure::TooManyArguments => e is TooManyArguments,
        SetupFailure::IncompatibleSchema => e is IncompatibleSchema,
    }
}

/// A method of the caller's interface, as connected to the implementation.
#[derive(Debug)]
pub struct AbiConnectionMethod {
    /// The name of the method.
    pub method_name: String,
    /// The signature the caller knows.
    pub caller_info: AbiMethodInfo,
    /// The position of the method at the implementation, if it has it.
    pub callee_method_number: Option<u16>,
    /// One bit per argument: set where the argument can be passed as it lies in memory.
    pub compatibility_mask: u64,
}

/// The model of an [`AbiConnectionMethod`].
pub struct ConnectionMethodModel {
    pub name: Seq<char>,
    pub info: InfoModel,
    pub callee: Option<u16>,
    pub mask: u64,
}

impl Model for AbiConnectionMethod {
    type M = ConnectionMethodModel;

    open spec fn model(&self) -> ConnectionMethodModel {
        ConnectionMethodModel {
            name: self.method_name@,
            info: self.caller_info.model(),
            callee: self.callee_method_number,
            mask: self.compatibility_mask,
        }
    }
}

/// Everything a caller needs to call the methods of an implementation.
#[derive(Debug)]
pub struct AbiConnectionTemplate {
    /// The data version both sides use for arguments and results.
    pub effective_version: u32,
    /// The caller's methods, in the caller's order.
    pub methods: Vec<AbiConnectionMethod>,
}

/// The mask of the first `k` arguments, checking each: the bit of argument `i`
/// is set where it can be passed as it lies in memory. `e1`, `e2` are the
/// effective schemas at the caller and the implementation, `n1`, `n2` the native ones.
pub open spec fn args_mask(
    e1: Seq<Seq<SchemaNodeModel>>,
    e2: Seq<Seq<SchemaNodeModel>>,
    n1: Seq<Seq<SchemaNodeModel>>,
    n2: Seq<Seq<SchemaNodeModel>>,
    k: nat,
) -> Result<u64, SetupFailure>
    decreases k,
{
    if k == 0 {
        Ok(0u64)
    } else {
        match args_mask(e1, e2, n1, n2, (k - 1) as nat) {
            Err(f) => Err(f),
            Ok(mask) => {
                let i = k - 1;
                if !schemas_compatible(e1[i], e2[i]) {
                    Err(SetupFailure::IncompatibleSchema)
                } else {
                    match arg_layout_compat(n1[i], n2[i], e1[i], e2[i]) {
                        None => Err(SetupFailure::IncompatibleSchema),
                        Some(true) => Ok(mask | (1u64 << (i as u64))),
                        Some(false) => Ok(mask),
                    }
                }
            },
        }
    }
}

/// How the caller's method `m` is connected: matched by name with the first
/// method of that name at the implementation, in the native and both effective
/// definitions; with no such method at the implementation it has no callee.
pub open spec fn connect_method(
    caller_eff: Seq<MethodModel>,
    callee_eff: Seq<MethodModel>,
    callee_nat: Seq<MethodModel>,
    m: MethodModel,
) -> Result<ConnectionMethodModel, SetupFailure> {
    match first_named(callee_nat, method_name(m)) {
        None => Ok(ConnectionMethodModel { name: m.0, info: m.1, callee: None, mask: 0 }),
        Some(j) => match first_named(callee_eff, method_name(m)) {
            None => Err(SetupFailure::MissingDefinition),
            Some(ce) => match first_named(caller_eff, method_name(m)) {
                None => Err(SetupFailure::MissingDefinition),
                Some(ke) => {
                    let n = method_args(m).len();
                    if n != method_args(callee_nat[j]).len() || n != method_args(caller_eff[ke]).len()
                        || n != method_args(callee_eff[ce]).len() {
                        Err(SetupFailure::ArgumentCountMismatch)
                    } else if n > 64 {
                        Err(SetupFailure::TooManyArguments)
                    } else if !schemas_compatible(
                        method_return(caller_eff[ke]),
                        method_return(callee_eff[ce]),
                    ) {
                        Err(SetupFailure::IncompatibleSchema)
                    } else {
                        match args_mask(
                            method_args(caller_eff[ke]),
                            method_args(callee_eff[ce]),
                            method_args(m),
                            method_args(callee_nat[j]),
                            n,
                        ) {
                            Err(f) => Err(f),
                            Ok(mask) => match arg_layout_compat(
                                method_return(m),
                                method_return(callee_nat[j]),
                                method_return(caller_eff[ke]),
                                method_return(callee_eff[ce]),
                            ) {
                                None => Err(SetupFailure::IncompatibleSchema),
                                Some(_) => Ok(
                                    ConnectionMethodModel {
                                        name: m.0,
                                        info: m.1,
                                        callee: Some(j as u16),
                                        mask,
                                    },
                                ),
                            },
                        }
                    }
                },
            },
        },
    }
}

/// The first `k` methods of the caller, connected in order; the first failure wins.
pub open spec fn connect_methods(
    caller_eff: Seq<MethodModel>,
    callee_eff: Seq<MethodModel>,
    callee_nat: Seq<MethodModel>,
    caller_nat: Seq<MethodModel>,
    k: nat,
) -> Result<Seq<ConnectionMethodModel>, SetupFailure>
    decreases k,
{
    if k == 0 {
        Ok(Seq::empty())
    } else {
        match connect_methods(caller_eff, callee_eff, callee_nat, caller_nat, (k - 1) as nat) {
            Err(f) => Err(f),
            Ok(ms) => match connect_method(caller_eff, callee_eff, callee_nat, caller_nat[k - 1]) {
                Err(f) => Err(f),
                Ok(c) => Ok(ms.push(c)),
            },
        }
    }
}

/// A schema compared with itself, natively and effectively, never leaves the
/// two sides disagreeing.
pub proof fn lemma_arg_layout_self(s: Seq<SchemaNodeModel>)
    ensures
        arg_layout_compat(s, s, s, s) is Some,
    decreases s.len(),
{
    if s.len() > 0 && s[0] is Boxed {
        lemma_arg_layout_self(s.drop_first());
    }
}

/// The arguments of a signature, checked against themselves, give a mask.
pub proof fn lemma_args_mask_self(e: Seq<Seq<SchemaNodeModel>>, k: nat)
    requires
        k <= e.len(),
    ensures
        args_mask(e, e, e, e, k) is Ok,
    decreases k,
{
    if k > 0 {
        lemma_args_mask_self(e, (k - 1) as nat);
        crate::save::lemma_schemas_compatible_refl(e[k - 1]);
        lemma_arg_layout_self(e[k - 1]);
    }
}

/// No two methods of `d` share a name.
pub open spec fn names_distinct(d: Seq<MethodModel>) -> bool {
    forall|i: int, j: int|
        0 <= i < d.len() && 0 <= j < d.len() && i != j ==> method_name(#[trigger] d[i]) != method_name(
            #[trigger] d[j],
        )
}

/// A caller connected to an implementation of the very same interface
/// definition always succeeds, as long as its methods have distinct names and
/// at most 64 arguments each: every method is found, at its own position, with
/// the caller's name and signature.
pub proof fn lemma_connect_to_itself(d: Seq<MethodModel>, k: nat)
    requires
        k <= d.len(),
        d.len() <= 65536,
        names_distinct(d),
        forall|i: int| 0 <= i < d.len() ==> method_args(#[trigger] d[i]).len() <= 64,
    ensures
        connect_methods(d, d, d, d, k) matches Ok(ms) && ms.len() == k && forall|i: int|
            0 <= i < k ==> (#[trigger] ms[i]).name == d[i].0 && ms[i].info == d[i].1 && ms[i].callee
                == Some(i as u16),
    decreases k,
{
    if k > 0 {
        lemma_connect_to_itself(d, (k - 1) as nat);
        let i = k - 1;
        let m = d[i];
        assert(is_first_named(d, method_name(m), i));
        let c = choose|c: int| is_first_named(d, method_name(m), c);
        lemma_first_named_unique(d, method_name(m), i, c);
        assert(first_named(d, method_name(m)) == Some(i));
        lemma_args_mask_self(method_args(m), method_args(m).len());
        crate::save::lemma_schemas_compatible_refl(method_return(m));
        lemma_arg_layout_self(method_return(m));
        let prev = connect_methods(d, d, d, d, (k - 1) as nat)->Ok_0;
        let cm = connect_method(d, d, d, m)->Ok_0;
        assert(connect_methods(d, d, d, d, k) == Ok::<Seq<ConnectionMethodModel>, SetupFailure>(prev.push(cm)));
    }
}

/// A copy of a schema node.
pub fn clone_node(n: &SchemaNode) -> (r: SchemaNode)
    ensures
        r.model() == n.model(),
{
    match n {
        SchemaNode::Primitive(p) => SchemaNode::Primitive(*p),
        SchemaNode::Vector => SchemaNode::Vector,
        SchemaNode::Struct { dbg_name, field_count } => SchemaNode::Struct {
            dbg_name: dbg_name.clone(),
            field_count: *field_count,
        },
        SchemaNode::Field { name, removed } => SchemaNode::Field { name: name.clone(), removed: *removed },
        SchemaNode::Enum { dbg_name, discriminant_size, variant_count } => SchemaNode::Enum {
            dbg_name: dbg_name.clone(),
            discriminant_size: *discriminant_size,
            variant_count: *variant_count,
        },
        SchemaNode::Variant { name, field_count } => SchemaNode::Variant {
            name: name.clone(),
            field_count: *field_count,
        },
        SchemaNode::SchemaOption => SchemaNode::SchemaOption,
        SchemaNode::Boxed => SchemaNode::Boxed,
        SchemaNode::Reference => SchemaNode::Reference,
        SchemaNode::ZeroSize => SchemaNode::ZeroSize,
        SchemaNode::Recursion(d) => SchemaNode::Recursion(*d),
        SchemaNode::Trait { name, mutable } => SchemaNode::Trait { name: name.clone(), mutable: *mutable },
        SchemaNode::Array(n) => SchemaNode::Array(*n),
    }
}

/// A copy of a schema.
pub fn clone_schema(s: &Schema) -> (r: Schema)
    ensures
        r.model() == s.model(),
{
    let mut nodes: Vec<SchemaNode> = Vec::new();
    let mut i: usize = 0;
    while i < s.nodes.len()
        invariant
            i <= s.nodes.len(),
            nodes.model() == s.model().take(i as int),
        decreases s.nodes.len() - i,
    {
        let ghost before = nodes.model();
        let c = clone_node(&s.nodes[i]);
        let ghost cm = c.model();
        nodes.push(c);
        assert(nodes.model() =~= before.push(cm));
        assert(s.model().take(i + 1) =~= s.model().take(i as int).push(s.model()[i as int]));
        i = i + 1;
    }
    assert(s.model().take(i as int) =~= s.model());
    Schema { nodes }
}

/// A copy of a method signature.
pub fn clone_info(info: &AbiMethodInfo) -> (r: AbiMethodInfo)
    ensures
        r.model() == info.model(),
{
    let mut arguments: Vec<AbiMethodArgument> = Vec::new();
    let mut i: usize = 0;
    while i < info.arguments.len()
        invariant
            i <= info.arguments.len(),
            arguments.model() == info.arguments.model().take(i as int),
        decreases info.arguments.len() - i,
    {
        let ghost before = arguments.model();
        let a = AbiMethodArgument { schema: clone_schema(&info.arguments[i].schema) };
        let ghost am = a.model();
        arguments.push(a);
        assert(arguments.model() =~= before.push(am));
        assert(info.arguments.model().take(i + 1) =~= info.arguments.model().take(i as int).push(
            info.arguments.model()[i as int],
        ));
        i = i + 1;
    }
    assert(info.arguments.model().take(i as int) =~= info.arguments.model());
    let receiver = match info.receiver {
        ReceiverType::Shared => ReceiverType::Shared,
        ReceiverType::Mut => ReceiverType::Mut,
        ReceiverType::PinMut => ReceiverType::PinMut,
    };
    AbiMethodInfo {
        return_value: clone_schema(&info.return_value),
        receiver,
        arguments,
        async_trait_heuristic: info.async_trait_heuristic,
    }
}

/// Once the mask computation has failed, it stays failed.
proof fn lemma_args_mask_failure_sticks(
    e1: Seq<Seq<SchemaNodeModel>>,
    e2: Seq<Seq<SchemaNodeModel>>,
    n1: Seq<Seq<SchemaNodeModel>>,
    n2: Seq<Seq<SchemaNodeModel>>,
    k: nat,
    k2: nat,
)
    requires
        args_mask(e1, e2, n1, n2, k) is Err,
        k <= k2,
    ensures
        args_mask(e1, e2, n1, n2, k2) == args_mask(e1, e2, n1, n2, k),
    decreases k2,
{
    if k < k2 {
        lemma_args_mask_failure_sticks(e1, e2, n1, n2, k, (k2 - 1) as nat);
    }
}

/// Once connecting the methods has failed, it stays failed.
proof fn lemma_connect_failure_sticks(
    caller_eff: Seq<MethodModel>,
    callee_eff: Seq<MethodModel>,
    callee_nat: Seq<MethodModel>,
    caller_nat: Seq<MethodModel>,
    k: nat,
    k2: nat,
)
    requires
        connect_methods(caller_eff, callee_eff, callee_nat, caller_nat, k) is Err,
        k <= k2,
    ensures
        connect_methods(caller_eff, callee_eff, callee_nat, caller_nat, k2) == connect_methods(
            caller_eff,
            callee_eff,
            callee_nat,
            caller_nat,
            k,
        ),
    decreases k2,
{
    if k < k2 {
        lemma_connect_failure_sticks(caller_eff, callee_eff, callee_nat, caller_nat, k, (k2 - 1) as nat);
    }
}

fn incompatible(what: &str, name: &String) -> (r: SavefileError)
    ensures
        r is IncompatibleSchema,
{
    let mut message = String::from_str("Incompatible ABI detected. Method: ");
    message.append(name.as_str());
    message.append(", ");
    message.append(what);
    SavefileError::IncompatibleSchema { message }
}

fn general(what: &str, name: &String) -> (r: SavefileError)
    ensures
        r is GeneralError,
{
    let mut msg = String::from_str(what);
    message_append_name(&mut msg, name);
    SavefileError::GeneralError { msg }
}

fn message_append_name(msg: &mut String, name: &String) {
    msg.append(" Method: ");
    msg.append(name.as_str());
}

/// Connects one method of the caller.
#[verifier::loop_isolation(false)]
#[verifier::spinoff_prover]
fn connect_one(
    caller_eff: &Vec<AbiMethod>,
    callee_eff: &Vec<AbiMethod>,
    callee_nat: &Vec<AbiMethod>,
    m: &AbiMethod,
    effective_version: u32,
) -> (r: Result<AbiConnectionMethod, SavefileError>)
    ensures
        match connect_method(caller_eff.model(), callee_eff.model(), callee_nat.model(), m.model()) {
            Ok(c) => r matches Ok(v) && v.model() == c,
            Err(f) => r matches Err(e) && reports(e, f),
        },
{
    let j = match find_method(callee_nat, &m.name) {
        None => {
            return Ok(
                AbiConnectionMethod {
                    method_name: m.name.clone(),
                    caller_info: clone_info(&m.info),
                    callee_method_number: None,
                    compatibility_mask: 0,
                },
            );
        },
        Some(j) => j,
    };
    assert(first_named(callee_nat.model(), method_name(m.model())) == Some(j as int));
    let ce = match find_method(callee_eff, &m.name) {
        None => {
            return Err(general("Internal error - missing method definition in signature (1).", &m.name));
        },
        Some(x) => x,
    };
    assert(first_named(callee_eff.model(), method_name(m.model())) == Some(ce as int));
    let ke = match find_method(caller_eff, &m.name) {
        None => {
            return Err(general("Internal error - missing method definition in signature (2).", &m.name));
        },
        Some(x) => x,
    };
    assert(first_named(caller_eff.model(), method_name(m.model())) == Some(ke as int));
    let n = m.info.arguments.len();
    assert(caller_eff.model()[ke as int] == caller_eff[ke as int].model());
    assert(callee_eff.model()[ce as int] == callee_eff[ce as int].model());
    assert(callee_nat.model()[j as int] == callee_nat[j as int].model());
    assert(method_args(m.model()).len() == n);
    assert(method_args(callee_nat.model()[j as int]).len() == callee_nat[j as int].info.arguments.len());
    if n != callee_nat[j].info.arguments.len() {
        return Err(general("Number of arguments differs between caller and implementation.", &m.name));
    }
    if n != caller_eff[ke].info.arguments.len() {
        return Err(general("Internal error - number of arguments differs (1).", &m.name));
    }
    if n != callee_eff[ce].info.arguments.len() {
        return Err(general("Internal error - number of arguments differs (2).", &m.name));
    }
    if n > 64 {
        return Err(SavefileError::TooManyArguments);
    }
    let caller_m = &caller_eff[ke];
    let callee_m = &callee_eff[ce];
    let native_m = &callee_nat[j];
    assert(caller_eff.model()[ke as int] == caller_m.model());
    assert(callee_eff.model()[ce as int] == callee_m.model());
    assert(callee_nat.model()[j as int] == native_m.model());
    if diff_schema(&caller_m.info.return_value, &callee_m.info.return_value).is_some() {
        return Err(incompatible("return value", &m.name));
    }
    let ghost e1 = method_args(caller_eff.model()[ke as int]);
    let ghost e2 = method_args(callee_eff.model()[ce as int]);
    let ghost n1 = method_args(m.model());
    let ghost n2 = method_args(callee_nat.model()[j as int]);
    let mut mask: u64 = 0;
    let mut index: usize = 0;
    while index < n
        invariant
            index <= n <= 64,
            n == m.info.arguments.len(),
            n == caller_m.info.arguments.len(),
            n == callee_m.info.arguments.len(),
            n == native_m.info.arguments.len(),
            e1 == caller_m.info.arguments.model(),
            e2 == callee_m.info.arguments.model(),
            n1 == m.info.arguments.model(),
            n2 == native_m.info.arguments.model(),
            args_mask(e1, e2, n1, n2, index as nat) == Ok::<u64, SetupFailure>(mask),
        decreases n - index,
    {
        let a1 = &caller_m.info.arguments[index].schema;
        let a2 = &callee_m.info.arguments[index].schema;
        let b1 = &m.info.arguments[index].schema;
        let b2 = &native_m.info.arguments[index].schema;
        assert(e1[index as int] == a1.model());
        assert(e2[index as int] == a2.model());
        assert(n1[index as int] == b1.model());
        assert(n2[index as int] == b2.model());
        if diff_schema(a1, a2).is_some() {
            proof {
                lemma_args_mask_failure_sticks(e1, e2, n1, n2, (index + 1) as nat, n as nat);
            }
            assert(args_mask(e1, e2, n1, n2, (index + 1) as nat) is Err);
            assert(args_mask(e1, e2, n1, n2, n as nat) is Err);
            return Err(incompatible("argument", &m.name));
        }
        match arg_layout_compatible(b1, b2, a1, a2, effective_version, false) {
            Err(e) => {
                proof {
                    lemma_args_mask_failure_sticks(e1, e2, n1, n2, (index + 1) as nat, n as nat);
                }
                return Err(e);
            },
            Ok(true) => {
                mask = mask | (1u64 << (index as u64));
            },
            Ok(false) => {},
        }
        index = index + 1;
    }
    match arg_layout_compatible(
        &m.info.return_value,
        &native_m.info.return_value,
        &caller_m.info.return_value,
        &callee_m.info.return_value,
        effective_version,
        true,
    ) {
        Err(e) => {
            return Err(e);
        },
        Ok(_) => {},
    }
    Ok(
        AbiConnectionMethod {
            method_name: m.name.clone(),
            caller_info: clone_info(&m.info),
            callee_method_number: Some(j as u16),
            compatibility_mask: mask,
        },
    )
}

/// Compares the caller's and the implementation's definitions of an interface,
/// method by method, and builds what the caller needs to call the implementation.
/// A method the implementation lacks is kept, with no callee; it fails when called.
#[verifier::spinoff_prover]
pub fn analyze_and_create(
    trait_name: &str,
    effective_version: u32,
    caller_effective_definition: AbiTraitDefinition,
    callee_effective_definition: AbiTraitDefinition,
    caller_native_definition: AbiTraitDefinition,
    callee_native_definition: AbiTraitDefinition,
) -> (r: Result<AbiConnectionTemplate, SavefileError>)
    requires
        caller_native_definition.methods.len() <= 64,
    ensures
        match connect_methods(
            def_methods(caller_effective_definition.model()),
            def_methods(callee_effective_definition.model()),
            def_methods(callee_native_definition.model()),
            def_methods(caller_native_definition.model()),
            caller_native_definition.methods.len() as nat,
        ) {
            Ok(ms) => r matches Ok(t) && t.effective_version == effective_version
                && t.methods.model() == ms,
            Err(f) => r matches Err(e) && reports(e, f),
        },
{
    let ghost ce = def_methods(caller_effective_definition.model());
    let ghost fe = def_methods(callee_effective_definition.model());
    let ghost fnat = def_methods(callee_native_definition.model());
    let ghost cn = def_methods(caller_native_definition.model());
    let mut methods: Vec<AbiConnectionMethod> = Vec::new();
    assert(methods.model() =~= Seq::<ConnectionMethodModel>::empty());
    let mut i: usize = 0;
    while i < caller_native_definition.methods.len()
        invariant
            i <= caller_native_definition.methods.len(),
            ce == caller_effective_definition.methods.model(),
            fe == callee_effective_definition.methods.model(),
            fnat == callee_native_definition.methods.model(),
            cn == caller_native_definition.methods.model(),
            connect_methods(ce, fe, fnat, cn, i as nat) == Ok::<
                Seq<ConnectionMethodModel>,
                SetupFailure,
            >(methods.model()),
        decreases caller_native_definition.methods.len() - i,
    {
        assert(cn[i as int] == caller_native_definition.methods[i as int].model());
        match connect_one(
            &caller_effective_definition.methods,
            &callee_effective_definition.methods,
            &callee_native_definition.methods,
            &caller_native_definition.methods[i],
            effective_version,
        ) {
            Ok(c) => {
                let ghost before = methods.model();
                methods.push(c);
                assert(methods.model() =~= before.push(c.model()));
            },
            Err(e) => {
                proof {
                    lemma_connect_failure_sticks(
                        ce,
                        fe,
                        fnat,
                        cn,
                        (i + 1) as nat,
                        caller_native_definition.methods.len() as nat,
                    );
                }
                return Err(e);
            },
        }
        i = i + 1;
    }
    Ok(AbiConnectionTemplate { effective_version, methods })
}

/// Each bit of an argument mask says whether that argument can be passed as it
/// lies in memory: bit `b` is set exactly when `b` is among the first `k`
/// arguments and the native and effective schemas of that argument agree on it.
pub proof fn lemma_args_mask_bits(
    e1: Seq<Seq<SchemaNodeModel>>,
    e2: Seq<Seq<SchemaNodeModel>>,
    n1: Seq<Seq<SchemaNodeModel>>,
    n2: Seq<Seq<SchemaNodeModel>>,
    k: nat,
    b: u64,
)
    requires
        k <= 64,
        b < 64,
        args_mask(e1, e2, n1, n2, k) is Ok,
    ensures
        ((args_mask(e1, e2, n1, n2, k)->Ok_0 >> b) & 1u64 == 1u64) <==> (b < k && arg_layout_compat(
            n1[b as int],
            n2[b as int],
            e1[b as int],
            e2[b as int],
        ) == Some(true)),
    decreases k,
{
    if k == 0 {
        assert((0u64 >> b) & 1u64 == 0u64) by (bit_vector);
    } else {
        let i = (k - 1) as int;
        lemma_args_mask_bits(e1, e2, n1, n2, (k - 1) as nat, b);
        let mask = args_mask(e1, e2, n1, n2, (k - 1) as nat)->Ok_0;
        let iu = i as u64;
        assert(iu < 64);
        match arg_layout_compat(n1[i], n2[i], e1[i], e2[i]) {
            Some(true) => {
                assert(((mask | (1u64 << iu)) >> b) & 1u64 == 1u64 <==> ((mask >> b) & 1u64 == 1u64 || b
                    == iu)) by (bit_vector)
                    requires
                        iu < 64,
                        b < 64,
                ;
            },
            _ => {},
        }
    }
}

/// The mask of a connected method has bit `b` set exactly when `b` is one of
/// the method's arguments and that argument can be passed as it lies in
/// memory, by its native schemas at the caller and the implementation and
/// its effective ones; the return value sets no bit, and a method that the
/// implementation lacks has no bit set.
pub proof fn lemma_connected_mask_bits(
    caller_eff: Seq<MethodModel>,
    callee_eff: Seq<MethodModel>,
    callee_nat: Seq<MethodModel>,
    m: MethodModel,
    b: u64,
)
    requires
        b < 64,
        connect_method(caller_eff, callee_eff, callee_nat, m) is Ok,
    ensures
        first_named(callee_nat, method_name(m)) is None ==> (connect_method(
            caller_eff,
            callee_eff,
            callee_nat,
            m,
        )->Ok_0.mask >> b) & 1u64 == 0u64,
        forall|j: int, ce: int, ke: int|
            first_named(callee_nat, method_name(m)) == Some(j) && first_named(callee_eff, method_name(m))
                == Some(ce) && first_named(caller_eff, method_name(m)) == Some(ke) ==> (((connect_method(
                caller_eff,
                callee_eff,
                callee_nat,
                m,
            )->Ok_0.mask >> b) & 1u64 == 1u64) <==> (b < method_args(m).len() && arg_layout_compat(
                method_args(m)[b as int],
                method_args(callee_nat[j])[b as int],
                method_args(caller_eff[ke])[b as int],
                method_args(callee_eff[ce])[b as int],
            ) == Some(true))),
{
    match first_named(callee_nat, method_name(m)) {
        None => {
            assert((0u64 >> b) & 1u64 == 0u64) by (bit_vector);
        },
        Some(j) => {
            let ce = first_named(callee_eff, method_name(m))->Some_0;
            let ke = first_named(caller_eff, method_name(m))->Some_0;
            let n = method_args(m).len();
            lemma_args_mask_bits(
                method_args(caller_eff[ke]),
                method_args(callee_eff[ce]),
                method_args(m),
                method_args(callee_nat[j]),
                n,
                b,
            );
        },
    }
}

/// Each method of a connection is the connection of the caller's method at
/// the same position, so [`lemma_connected_mask_bits`] describes its mask.
pub proof fn lemma_connect_methods_each(
    caller_eff: Seq<MethodModel>,
    callee_eff: Seq<MethodModel>,
    callee_nat: Seq<MethodModel>,
    caller_nat: Seq<MethodModel>,
    k: nat,
)
    requires
        connect_methods(caller_eff, callee_eff, callee_nat, caller_nat, k) is Ok,
    ensures
        connect_methods(caller_eff, callee_eff, callee_nat, caller_nat, k)->Ok_0.len() == k,
        forall|i: int|
            0 <= i < k ==> #[trigger] connect_methods(caller_eff, callee_eff, callee_nat, caller_nat, k)->Ok_0[i]
                == connect_method(caller_eff, callee_eff, callee_nat, caller_nat[i])->Ok_0 && connect_method(
                caller_eff,
                callee_eff,
                callee_nat,
                caller_nat[i],
            ) is Ok,
    decreases k,
{
    if k > 0 {
        let prev = (k - 1) as nat;
        lemma_connect_methods_each(caller_eff, callee_eff, callee_nat, caller_nat, prev);
        let ms = connect_methods(caller_eff, callee_eff, callee_nat, caller_nat, prev)->Ok_0;
        let all = connect_methods(caller_eff, callee_eff, callee_nat, caller_nat, k)->Ok_0;
        assert(all == ms.push(connect_method(caller_eff, callee_eff, callee_nat, caller_nat[k - 1])->Ok_0));
        assert forall|i: int| 0 <= i < k implies #[trigger] all[i] == connect_method(
            caller_eff,
            callee_eff,
            callee_nat,
            caller_nat[i],
        )->Ok_0 && connect_method(caller_eff, callee_eff, callee_nat, caller_nat[i]) is Ok by {
            if i < k - 1 {
                assert(all[i] == ms[i]);
            }
        }
        assert(all.len() == k);
    }
}

} // verus!
