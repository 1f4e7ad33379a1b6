//! Which trait declarations the interface macro accepts, and what it settles
//! for each method: how the method receives its object, how each argument
//! and the return value travel, and whether the `async_trait` macro ran first.
use vstd::prelude::*;

use crate::abi::definition::ReceiverType;
use crate::attrs::text::{
    find_char_from, find_from, parse_unsigned, parse_unsigned_between, range_is, same_text, split_parts, trim,
    trim_range,
};
use crate::codegen::abi_types::{arg_type, has_future, instruction, parse_type, AbiMacroError, ArgInstruction, ArgType, TypeDecl};

verus! {

/// A supertrait bound of an interface trait.
pub enum SuperTraitDecl {
    /// A trait, by the name of the last segment of its path; `for_lifetimes`
    /// where it is introduced by `for<'a>`.
    Trait { name: String, for_lifetimes: bool },
    /// A lifetime, by its name.
    Lifetime(String),
}

/// A bound in a `where` clause of a method.
pub enum WhereBoundDecl {
    /// A trait, by the number of segments of its path and the name of the last.
    Trait { segments: usize, name: String },
    /// A lifetime, by its name.
    Lifetime(String),
}

/// A predicate of a method's `where` clause.
pub enum WherePredDecl {
    /// `T: bounds`; `self_type` where `T` is `Self` written without a path,
    /// `for_lifetimes` where the predicate starts with `for<'a>`.
    Type { self_type: bool, for_lifetimes: bool, bounds: Vec<WhereBoundDecl> },
    /// `'a: 'b + ...`, by the names of the lifetimes.
    Lifetime { name: String, bounds: Vec<String> },
    /// `T = U`.
    Eq,
}

/// The first parameter of a method.
pub enum ReceiverDecl {
    /// `&self` or `&mut self`, with the name of the lifetime written on it.
    Reference { lifetime: Option<String>, mutable: bool },
    /// `self` by value.
    Value,
    /// `self: Pin<&mut Self>`.
    PinMut,
    /// `self: Pin<&Self>`.
    PinShared,
    /// `self` with another type, or written `mut self` or `ref self`.
    OtherTypedSelf,
    /// A first parameter that is not `self`.
    NotSelf,
}

/// A generic parameter of a method.
pub enum GenericParamDecl {
    Type,
    Const,
    /// A lifetime, by its name.
    Lifetime(String),
}

/// A parameter after `self`: its name, `None` where its pattern is not a
/// plain name, and its type.
pub struct ArgDecl {
    pub name: Option<String>,
    pub ty: TypeDecl,
}

/// A method of an interface trait, as the interface macro reads it.
pub struct MethodDecl {
    pub name: String,
    /// The first parameter; `None` for a method without parameters.
    pub receiver: Option<ReceiverDecl>,
    /// The parameters after the first.
    pub args: Vec<ArgDecl>,
    /// The return type; `None` where none is written.
    pub ret: Option<TypeDecl>,
    /// The predicates of its `where` clause; `None` where it has none.
    pub where_clause: Option<Vec<WherePredDecl>>,
    pub generics: Vec<GenericParamDecl>,
    pub is_async: bool,
    pub is_variadic: bool,
    pub is_unsafe: bool,
    /// It is declared with an ABI, such as `extern "C"`.
    pub has_abi: bool,
}

/// An item of an interface trait.
pub enum TraitItemDecl {
    Method(MethodDecl),
    Const,
    Type,
    Macro,
    Other,
}

/// A trait declared with the interface macro, as the macro reads it.
pub struct TraitDecl {
    pub name: String,
    /// The text of the macro's arguments, such as `version = 1`.
    pub macro_args: String,
    /// The paths of the trait's other attributes, by their segments.
    pub attr_paths: Vec<Vec<String>>,
    /// The number of the trait's generic parameters.
    pub generic_params: usize,
    pub supertraits: Vec<SuperTraitDecl>,
    pub has_where_clause: bool,
    pub items: Vec<TraitItemDecl>,
}

/// What the interface macro settles for one method.
pub struct MethodPlan {
    /// How the method receives its object.
    pub receiver: ReceiverType,
    /// How each argument travels.
    pub args: Vec<ArgType>,
    /// How the return value travels; `None` where the method returns nothing.
    pub ret: Option<ArgType>,
    /// The method's lifetimes show that the `async_trait` macro ran first.
    pub async_trait: bool,
}

/// The model of a [`MethodPlan`].
pub struct MethodPlanModel {
    pub receiver: ReceiverType,
    pub args: Seq<ArgType>,
    pub ret: Option<ArgType>,
    pub async_trait: bool,
}

impl MethodPlan {
    /// The model of this plan.
    pub open spec fn model(&self) -> MethodPlanModel {
        MethodPlanModel {
            receiver: self.receiver,
            args: self.args@,
            ret: self.ret,
            async_trait: self.async_trait,
        }
    }
}

/// What the interface macro settles for a trait.
pub struct ExportPlan {
    /// The interface version given in the macro's arguments, 0 where none is.
    pub version: u32,
    /// The trait has `Sync` among its supertraits.
    pub sync: bool,
    /// The trait has `Send` among its supertraits.
    pub send: bool,
    /// One plan per method, in order.
    pub methods: Vec<MethodPlan>,
}

/// Whether `s` names a lifetime of the form that `async_trait` writes:
/// `life` followed by a number.
pub open spec fn is_life(s: Seq<char>) -> bool {
    s.len() >= 4 && s.take(4) == "life"@ && parse_unsigned(s.skip(4), usize::MAX as nat) is Some
}

/// Reads one item of the macro's arguments, after the items that gave
/// `v`: it must split at `=` into two parts; the first, trimmed, must be
/// `version`, given once, and the second, trimmed, a number.
pub open spec fn read_macro_item(v: Option<u32>, item: Seq<char>) -> Result<Option<u32>, AbiMacroError> {
    let kv = split_parts(item, '=');
    if kv.len() != 2 {
        Err(AbiMacroError::BadMacroArgument)
    } else if trim(kv[0]) == "version"@ {
        if v is Some {
            Err(AbiMacroError::DuplicateVersion)
        } else {
            match parse_unsigned(trim(kv[1]), u32::MAX as nat) {
                Some(n) => Ok(Some(n as u32)),
                None => Err(AbiMacroError::VersionNotNumeric),
            }
        }
    } else {
        Err(AbiMacroError::UnknownMacroKey)
    }
}

/// Reads the items of the macro's arguments in order.
pub open spec fn read_macro_items(items: Seq<Seq<char>>) -> Result<Option<u32>, AbiMacroError>
    decreases items.len(),
{
    if items.len() == 0 {
        Ok(None)
    } else {
        match read_macro_items(items.drop_last()) {
            Err(e) => Err(e),
            Ok(v) => read_macro_item(v, items.last()),
        }
    }
}

/// Reads the text of the macro's arguments: its items are the parts between
/// commas.
pub open spec fn read_macro_args(text: Seq<char>) -> Result<Option<u32>, AbiMacroError> {
    read_macro_items(split_parts(text, ','))
}

/// Whether the path `p` names the `async_trait` attribute.
pub open spec fn is_async_trait_path(p: Seq<String>) -> bool {
    (p.len() == 1 && p[0]@ == "async_trait"@) || (p.len() == 2 && p[0]@ == "async_trait"@ && p[1]@
        == "async_trait"@)
}

/// Reads the supertraits in order: `Sync` and `Send` are noted; `Sized`
/// and `Debug` pass; any other trait, a `for<'a>` bound, or a lifetime other
/// than `'static` is refused. The result is the pair `(sync, send)`.
pub open spec fn read_supertraits(bs: Seq<SuperTraitDecl>) -> Result<(bool, bool), AbiMacroError>
    decreases bs.len(),
{
    if bs.len() == 0 {
        Ok((false, false))
    } else {
        match read_supertraits(bs.drop_last()) {
            Err(e) => Err(e),
            Ok((sync, send)) => match bs.last() {
                SuperTraitDecl::Trait { name, for_lifetimes } => if for_lifetimes {
                    Err(AbiMacroError::LifetimeNotSupported)
                } else if name@ == "Copy"@ {
                    Err(AbiMacroError::CopyBound)
                } else if name@ == "Clone"@ {
                    Err(AbiMacroError::CloneBound)
                } else if name@ == "Sync"@ {
                    Ok((true, send))
                } else if name@ == "Send"@ {
                    Ok((sync, true))
                } else if name@ == "Sized"@ || name@ == "Debug"@ {
                    Ok((sync, send))
                } else {
                    Err(AbiMacroError::UnsupportedBound)
                },
                SuperTraitDecl::Lifetime(l) => if l@ != "static"@ {
                    Err(AbiMacroError::LifetimeNotSupported)
                } else {
                    Ok((sync, send))
                },
            },
        }
    }
}

/// Whether the bound `b` of a type predicate passes: only `Sync`, written
/// without a path, and the lifetime `'async_trait`.
pub open spec fn where_bound_ok(b: WhereBoundDecl) -> bool {
    match b {
        WhereBoundDecl::Trait { segments, name } => segments == 1 && name@ == "Sync"@,
        WhereBoundDecl::Lifetime(l) => l@ == "async_trait"@,
    }
}

/// Whether the predicate `p` passes, and how many `'life0` and
/// `'async_trait` lifetimes it shows: a type predicate must bound `Self`
/// by passing bounds; a lifetime predicate must be on `'life0` or a `lifeN`
/// lifetime, bounded by `'async_trait` only.
pub open spec fn where_pred(p: WherePredDecl) -> (bool, nat, nat) {
    match p {
        WherePredDecl::Type { self_type, for_lifetimes, bounds } => (
            self_type && !for_lifetimes && forall|i: int|
                0 <= i < bounds.len() ==> #[trigger] where_bound_ok(bounds@[i]),
            0,
            0,
        ),
        WherePredDecl::Lifetime { name, bounds } => (
            (name@ == "life0"@ || is_life(name@)) && forall|i: int|
                0 <= i < bounds.len() ==> #[trigger] bounds@[i]@ == "async_trait"@,
            if name@ == "life0"@ {
                1nat
            } else {
                0nat
            },
            async_trait_bounds(bounds@),
        ),
        WherePredDecl::Eq => (false, 0, 0),
    }
}

/// How many of the lifetimes `bs` are `'async_trait`.
pub open spec fn async_trait_bounds(bs: Seq<String>) -> nat
    decreases bs.len(),
{
    if bs.len() == 0 {
        0
    } else {
        async_trait_bounds(bs.drop_last()) + if bs.last()@ == "async_trait"@ {
            1nat
        } else {
            0nat
        }
    }
}

/// Whether all predicates `ps` pass, and how many `'life0` and
/// `'async_trait` lifetimes they show.
pub open spec fn where_preds(ps: Seq<WherePredDecl>) -> (bool, nat, nat)
    decreases ps.len(),
{
    if ps.len() == 0 {
        (true, 0, 0)
    } else {
        let (ok, l, a) = where_preds(ps.drop_last());
        let (ok2, l2, a2) = where_pred(ps.last());
        (ok && ok2, l + l2, a + a2)
    }
}

/// The generic parameters `gs` read in order: types and constants are
/// refused, and a lifetime other than `'life0`, `'async_trait` and `lifeN`;
/// the result counts the `'life0` parameters and all lifetime parameters.
pub open spec fn read_generics(gs: Seq<GenericParamDecl>) -> Result<(nat, nat), AbiMacroError>
    decreases gs.len(),
{
    if gs.len() == 0 {
        Ok((0, 0))
    } else {
        match read_generics(gs.drop_last()) {
            Err(e) => Err(e),
            Ok((l, a)) => match gs.last() {
                GenericParamDecl::Type => Err(AbiMacroError::GenericMethod),
                GenericParamDecl::Const => Err(AbiMacroError::ConstGenericMethod),
                GenericParamDecl::Lifetime(n) => if n@ != "life0"@ && n@ != "async_trait"@ && !is_life(
                    n@,
                ) {
                    Err(AbiMacroError::MethodLifetimes)
                } else {
                    Ok((l + if n@ == "life0"@ {
                        1nat
                    } else {
                        0nat
                    }, a + 1))
                },
            },
        }
    }
}

/// How the receiver `r` is read: the receiver type and how many `'life0`
/// lifetimes it shows, or why it is refused.
pub open spec fn read_receiver(r: Option<ReceiverDecl>) -> Result<(ReceiverType, nat), AbiMacroError> {
    match r {
        None => Err(AbiMacroError::NoSelfArgument),
        Some(ReceiverDecl::Reference { lifetime, mutable }) => {
            let rt = if mutable {
                ReceiverType::Mut
            } else {
                ReceiverType::Shared
            };
            match lifetime {
                Some(l) => if l@ != "life0"@ {
                    Err(AbiMacroError::SelfLifetime)
                } else {
                    Ok((rt, 1))
                },
                None => Ok((rt, 0)),
            }
        },
        Some(ReceiverDecl::Value) => Err(AbiMacroError::SelfByValue),
        Some(ReceiverDecl::PinMut) => Ok((ReceiverType::PinMut, 0)),
        Some(ReceiverDecl::PinShared) => Err(AbiMacroError::PinSharedSelf),
        Some(ReceiverDecl::OtherTypedSelf) => Err(AbiMacroError::UnsupportedSelf),
        Some(ReceiverDecl::NotSelf) => Err(AbiMacroError::MissingSelf),
    }
}

/// Whether every parameter of `args` is a plain name.
pub open spec fn args_named(args: Seq<ArgDecl>) -> bool {
    forall|i: int| 0 <= i < args.len() ==> #[trigger] args[i].name is Some
}

/// How the parameters `args` travel, read in order as arguments.
pub open spec fn arg_kinds(args: Seq<ArgDecl>) -> Result<Seq<ArgType>, AbiMacroError>
    decreases args.len(),
{
    if args.len() == 0 {
        Ok(Seq::empty())
    } else {
        match arg_kinds(args.drop_last()) {
            Err(e) => Err(e),
            Ok(ks) => match arg_type(args.last().ty, false, false, false, false) {
                Err(e) => Err(e),
                Ok(k) => Ok(ks.push(k)),
            },
        }
    }
}

/// How the return type `ret` travels: nothing for none or `()`; a reference,
/// or a string slice without the `'static` lifetime, is refused.
pub open spec fn ret_kind(ret: Option<TypeDecl>) -> Result<Option<ArgType>, AbiMacroError> {
    match ret {
        None => Ok(None),
        Some(t) => if t matches TypeDecl::Tuple(es) && es.len() == 0 {
            Ok(None)
        } else {
            match arg_type(t, true, false, false, false) {
                Err(e) => Err(e),
                Ok(ArgType::Reference(_, _)) => Err(AbiMacroError::ReturnsReference),
                Ok(ArgType::Str(false)) => Err(AbiMacroError::ReturnsStr),
                Ok(k) => Ok(Some(k)),
            }
        }
    }
}

/// What the interface macro settles for the method `m`, or why it refuses
/// it, checking in this order: its `where` clause, its receiver, the
/// patterns of its parameters, `async`, variadic parameters, `unsafe`, an
/// ABI, its arguments and its return type (so that a lifetime written in an
/// argument's type is refused there), its generic parameters, and the
/// `async_trait` lifetimes (three or more each of `'life0` and of lifetimes
/// in all, or none of either).
pub open spec fn method_plan(m: MethodDecl) -> Result<MethodPlanModel, AbiMacroError> {
    let (where_ok, wl, wa) = match m.where_clause {
        Some(ps) => where_preds(ps@),
        None => (true, 0nat, 0nat),
    };
    if !where_ok {
        Err(AbiMacroError::MethodWhereClause)
    } else {
        match read_receiver(m.receiver) {
            Err(e) => Err(e),
            Ok((rt, rl)) => if !args_named(m.args@) {
                Err(AbiMacroError::ComplexPattern)
            } else if m.is_async {
                Err(AbiMacroError::AsyncMethod)
            } else if m.is_variadic {
                Err(AbiMacroError::VariadicMethod)
            } else if m.is_unsafe {
                Err(AbiMacroError::UnsafeMethod)
            } else if m.has_abi {
                Err(AbiMacroError::ExternMethod)
            } else {
                match arg_kinds(m.args@) {
                    Err(e) => Err(e),
                    Ok(ks) => match ret_kind(m.ret) {
                        Err(e) => Err(e),
                        Ok(r) => match read_generics(m.generics@) {
                            Err(e) => Err(e),
                            Ok((gl, ga)) => {
                                let life0 = wl + rl + gl;
                                let asyncs = wa + ga;
                                if !((life0 >= 3 && asyncs >= 3) || (life0 == 0 && asyncs == 0)) {
                                    Err(AbiMacroError::PartialAsyncTrait)
                                } else {
                                    Ok(
                                        MethodPlanModel {
                                            receiver: rt,
                                            args: ks,
                                            ret: r,
                                            async_trait: life0 >= 3,
                                        },
                                    )
                                }
                            },
                        },
                    },
                }
            },
        }
    }
}

/// What the interface macro settles for the items `items` of a trait, in
/// order: each must be a method, and there may be no more than 2^16 of them.
pub open spec fn items_plan(items: Seq<TraitItemDecl>) -> Result<Seq<MethodPlanModel>, AbiMacroError>
    decreases items.len(),
{
    if items.len() == 0 {
        Ok(Seq::empty())
    } else {
        match items_plan(items.drop_last()) {
            Err(e) => Err(e),
            Ok(ps) => if items.len() - 1 > u16::MAX {
                Err(AbiMacroError::TooManyMethods)
            } else {
                match items.last() {
                    TraitItemDecl::Method(m) => match method_plan(m) {
                        Err(e) => Err(e),
                        Ok(p) => Ok(ps.push(p)),
                    },
                    TraitItemDecl::Const => Err(AbiMacroError::AssociatedConst),
                    TraitItemDecl::Type => Err(AbiMacroError::AssociatedType),
                    TraitItemDecl::Macro => Err(AbiMacroError::MacroItem),
                    TraitItemDecl::Other => Err(AbiMacroError::UnsupportedItem),
                }
            },
        }
    }
}

/// The models of the plans `v`.
pub open spec fn plan_models(v: Seq<MethodPlan>) -> Seq<MethodPlanModel> {
    v.map_values(|m: MethodPlan| m.model())
}

/// The model of an [`ExportPlan`].
pub struct ExportPlanModel {
    pub version: u32,
    pub sync: bool,
    pub send: bool,
    pub methods: Seq<MethodPlanModel>,
}

impl ExportPlan {
    /// The model of this plan.
    pub open spec fn model(&self) -> ExportPlanModel {
        ExportPlanModel {
            version: self.version,
            sync: self.sync,
            send: self.send,
            methods: plan_models(self.methods@),
        }
    }
}

/// What the interface macro settles for the trait `t`, or why it refuses it,
/// checking in this order: its arguments, an `async_trait` attribute after
/// it, generic parameters, supertraits, a `where` clause, and its items.
pub open spec fn export_plan(t: TraitDecl) -> Result<ExportPlanModel, AbiMacroError> {
    match read_macro_args(t.macro_args@) {
        Err(e) => Err(e),
        Ok(v) => if exists|i: int|
            0 <= i < t.attr_paths.len() && #[trigger] is_async_trait_path(t.attr_paths@[i]@) {
            Err(AbiMacroError::AsyncTraitOrder)
        } else if t.generic_params > 0 {
            Err(AbiMacroError::GenericTrait)
        } else {
            match read_supertraits(t.supertraits@) {
                Err(e) => Err(e),
                Ok((sync, send)) => if t.has_where_clause {
                    Err(AbiMacroError::TraitWhereClause)
                } else {
                    match items_plan(t.items@) {
                        Err(e) => Err(e),
                        Ok(ms) => Ok(
                            ExportPlanModel {
                                version: match v {
                                    Some(n) => n,
                                    None => 0,
                                },
                                sync,
                                send,
                                methods: ms,
                            },
                        ),
                    }
                },
            }
        },
    }
}

/// Whether `s` names a lifetime of the form `lifeN`.
fn is_life_name(s: &str) -> (r: bool)
    ensures
        r == is_life(s@),
{
    let n = s.unicode_len();
    if n < 4 {
        return false;
    }
    if !(s.get_char(0) == 'l' && s.get_char(1) == 'i' && s.get_char(2) == 'f' && s.get_char(3) == 'e') {
        proof {
            reveal_strlit("life");
            if s@.take(4) == "life"@ {
                assert(s@.take(4)[0] == s@[0] && s@.take(4)[1] == s@[1]);
                assert(s@.take(4)[2] == s@[2] && s@.take(4)[3] == s@[3]);
            }
        }
        return false;
    }
    proof {
        reveal_strlit("life");
        assert(s@.take(4) =~= "life"@);
        assert(s@.subrange(4, n as int) =~= s@.skip(4));
    }
    parse_unsigned_between(s, 4, n, usize::MAX as u64).is_some()
}

/// Where `find_from` finds `c` from the start, it finds it within `s`.
proof fn lemma_find_from_some(s: Seq<char>, c: char)
    ensures
        find_from(s, c, 0) matches Some(p) ==> 0 <= p < s.len() && s[p] == c,
{
}

/// Splitting gives at least one part, and two or more exactly where `c` occurs.
proof fn lemma_split_len(s: Seq<char>, c: char)
    ensures
        split_parts(s, c).len() >= 1,
        find_from(s, c, 0) is Some <==> split_parts(s, c).len() >= 2,
    decreases s.len(),
{
    lemma_find_from_some(s, c);
    match find_from(s, c, 0) {
        Some(p) => {
            lemma_split_len(s.skip(p + 1), c);
        },
        None => {},
    }
}

/// Reads the item of the macro's arguments at characters `lo` to `hi` of `text`.
fn read_macro_item_exec(text: &str, lo: usize, hi: usize, v: Option<u32>) -> (r: Result<Option<u32>, AbiMacroError>)
    requires
        lo <= hi <= text@.len(),
    ensures
        r == read_macro_item(v, text@.subrange(lo as int, hi as int)),
{
    let ghost t = text@.subrange(lo as int, hi as int);
    proof {
        lemma_find_from_some(t, '=');
        lemma_split_len(t, '=');
    }
    let q = match find_char_from(text, lo, hi, '=', 0) {
        Some(q) => q,
        None => {
            return Err(AbiMacroError::BadMacroArgument);
        },
    };
    let ghost rest = t.skip(q + 1);
    assert(rest =~= text@.subrange(lo + q + 1, hi as int));
    assert(t.take(q as int) =~= text@.subrange(lo as int, lo + q));
    proof {
        lemma_split_len(rest, '=');
    }
    if find_char_from(text, lo + q + 1, hi, '=', 0).is_some() {
        return Err(AbiMacroError::BadMacroArgument);
    }
    assert(split_parts(rest, '=') == seq![rest]);
    let (ka, kb) = trim_range(text, lo, lo + q);
    if !range_is(text, ka, kb, "version") {
        return Err(AbiMacroError::UnknownMacroKey);
    }
    if v.is_some() {
        return Err(AbiMacroError::DuplicateVersion);
    }
    let (va, vb) = trim_range(text, lo + q + 1, hi);
    match parse_unsigned_between(text, va, vb, u32::MAX as u64) {
        Some(n) => Ok(Some(n as u32)),
        None => Err(AbiMacroError::VersionNotNumeric),
    }
}

/// Reads the text of the macro's arguments.
#[verifier::spinoff_prover]
#[verifier::rlimit(40)]
fn read_macro_args_exec(text: &str) -> (r: Result<Option<u32>, AbiMacroError>)
    ensures
        r == read_macro_args(text@),
{
    let n = text.unicode_len();
    let ghost all = split_parts(text@, ',');
    let ghost mut done: Seq<Seq<char>> = Seq::empty();
    let mut version: Option<u32> = None;
    let mut pos: usize = 0;
    assert(text@.skip(0) =~= text@);
    loop
        invariant
            pos <= n,
            n == text@.len(),
            all == split_parts(text@, ','),
            all == done + split_parts(text@.skip(pos as int), ','),
            read_macro_items(done) == Ok::<Option<u32>, AbiMacroError>(version),
        decreases n - pos,
    {
        let ghost s = text@.skip(pos as int);
        assert(s =~= text@.subrange(pos as int, n as int));
        proof {
            lemma_find_from_some(s, ',');
        }
        let found = find_char_from(text, pos, n, ',', 0);
        let end = match found {
            Some(p) => pos + p,
            None => n,
        };
        let ghost item = text@.subrange(pos as int, end as int);
        let ghost tail = match found {
            Some(p) => split_parts(s.skip(p + 1), ','),
            None => Seq::<Seq<char>>::empty(),
        };
        proof {
            match found {
                Some(p) => {
                    assert(s.take(p as int) =~= item);
                    assert(s.skip(p + 1) =~= text@.skip(end + 1));
                },
                None => {
                    assert(s =~= item);
                },
            }
            assert(split_parts(s, ',') =~= seq![item] + tail);
            assert(all =~= done.push(item) + tail);
            assert(done.push(item).drop_last() =~= done);
        }
        match read_macro_item_exec(text, pos, end, version) {
            Ok(v) => {
                version = v;
            },
            Err(e) => {
                proof {
                    assert(all.take((done.len() + 1) as int) =~= done.push(item));
                    lemma_macro_items_error(all, (done.len() + 1) as int);
                }
                return Err(e);
            },
        }
        proof {
            done = done.push(item);
        }
        match found {
            Some(_) => {
                pos = end + 1;
            },
            None => {
                assert(all =~= done);
                return Ok(version);
            },
        }
    }
}

/// A refusal after a prefix of the items is the outcome for all of them.
proof fn lemma_macro_items_error(items: Seq<Seq<char>>, n: int)
    requires
        0 <= n <= items.len(),
        read_macro_items(items.take(n)) is Err,
    ensures
        read_macro_items(items) == read_macro_items(items.take(n)),
    decreases items.len() - n,
{
    if n < items.len() {
        assert(items.take(n + 1).drop_last() =~= items.take(n));
        lemma_macro_items_error(items, n + 1);
    } else {
        assert(items.take(n) =~= items);
    }
}

/// Reads the supertraits.
fn read_supertraits_exec(bs: &Vec<SuperTraitDecl>) -> (r: Result<(bool, bool), AbiMacroError>)
    ensures
        r == read_supertraits(bs@),
{
    let ghost s = bs@;
    let mut sync = false;
    let mut send = false;
    let mut i: usize = 0;
    while i < bs.len()
        invariant
            i <= bs.len(),
            s == bs@,
            read_supertraits(s.take(i as int)) == Ok::<(bool, bool), AbiMacroError>((sync, send)),
        decreases bs.len() - i,
    {
        assert(s.take(i + 1).drop_last() =~= s.take(i as int));
        assert(s.take(i + 1).last() == s[i as int]);
        let refusal = match &bs[i] {
            SuperTraitDecl::Trait { name, for_lifetimes } => {
                let n = name.as_str();
                if *for_lifetimes {
                    Some(AbiMacroError::LifetimeNotSupported)
                } else if same_text(n, "Copy") {
                    Some(AbiMacroError::CopyBound)
                } else if same_text(n, "Clone") {
                    Some(AbiMacroError::CloneBound)
                } else if same_text(n, "Sync") {
                    sync = true;
                    None
                } else if same_text(n, "Send") {
                    send = true;
                    None
                } else if same_text(n, "Sized") || same_text(n, "Debug") {
                    None
                } else {
                    Some(AbiMacroError::UnsupportedBound)
                }
            },
            SuperTraitDecl::Lifetime(l) => if !same_text(l.as_str(), "static") {
                Some(AbiMacroError::LifetimeNotSupported)
            } else {
                None
            },
        };
        match refusal {
            Some(e) => {
                proof {
                    lemma_supertraits_error(s, (i + 1) as int);
                }
                return Err(e);
            },
            None => {},
        }
        i = i + 1;
    }
    assert(s.take(i as int) =~= s);
    Ok((sync, send))
}

/// A refusal after a prefix of the supertraits is the outcome for all of them.
proof fn lemma_supertraits_error(bs: Seq<SuperTraitDecl>, n: int)
    requires
        0 <= n <= bs.len(),
        read_supertraits(bs.take(n)) is Err,
    ensures
        read_supertraits(bs) == read_supertraits(bs.take(n)),
    decreases bs.len() - n,
{
    if n < bs.len() {
        assert(bs.take(n + 1).drop_last() =~= bs.take(n));
        lemma_supertraits_error(bs, n + 1);
    } else {
        assert(bs.take(n) =~= bs);
    }
}

/// `n`, but no more than 3: the lifetime counts matter only up to three.
pub open spec fn capped(n: nat) -> u8 {
    if n >= 3 {
        3
    } else {
        n as u8
    }
}

/// Whether all of the lifetimes `bs` are `'async_trait`, and how many are, up to three.
fn read_lifetime_bounds(bs: &Vec<String>) -> (r: (bool, u8))
    ensures
        r.0 == forall|i: int| 0 <= i < bs.len() ==> #[trigger] bs@[i]@ == "async_trait"@,
        r.1 == capped(async_trait_bounds(bs@)),
{
    let ghost s = bs@;
    let mut all = true;
    let mut count: u8 = 0;
    let mut i: usize = 0;
    while i < bs.len()
        invariant
            i <= bs.len(),
            s == bs@,
            all == forall|j: int| 0 <= j < i ==> #[trigger] s[j]@ == "async_trait"@,
            count == capped(async_trait_bounds(s.take(i as int))),
        decreases bs.len() - i,
    {
        assert(s.take(i + 1).drop_last() =~= s.take(i as int));
        assert(s.take(i + 1).last() == s[i as int]);
        if same_text(bs[i].as_str(), "async_trait") {
            if count < 3 {
                count = count + 1;
            }
        } else {
            all = false;
        }
        i = i + 1;
    }
    assert(s.take(i as int) =~= s);
    (all, count)
}

/// Whether the bounds `bs` of a type predicate all pass.
fn where_bounds_ok(bs: &Vec<WhereBoundDecl>) -> (r: bool)
    ensures
        r == forall|i: int| 0 <= i < bs.len() ==> #[trigger] where_bound_ok(bs@[i]),
{
    let mut i: usize = 0;
    while i < bs.len()
        invariant
            i <= bs.len(),
            forall|j: int| 0 <= j < i ==> #[trigger] where_bound_ok(bs@[j]),
        decreases bs.len() - i,
    {
        let ok = match &bs[i] {
            WhereBoundDecl::Trait { segments, name } => *segments == 1 && same_text(name.as_str(), "Sync"),
            WhereBoundDecl::Lifetime(l) => same_text(l.as_str(), "async_trait"),
        };
        if !ok {
            assert(!where_bound_ok(bs@[i as int]));
            return false;
        }
        i = i + 1;
    }
    true
}

/// Whether the predicates `ps` all pass, and the lifetimes they show, up to three.
fn read_where(ps: &Vec<WherePredDecl>) -> (r: (bool, u8, u8))
    ensures
        r.0 == where_preds(ps@).0,
        r.1 == capped(where_preds(ps@).1),
        r.2 == capped(where_preds(ps@).2),
{
    let ghost s = ps@;
    let mut ok = true;
    let mut life0: u8 = 0;
    let mut asyncs: u8 = 0;
    let mut i: usize = 0;
    while i < ps.len()
        invariant
            i <= ps.len(),
            s == ps@,
            ok == where_preds(s.take(i as int)).0,
            life0 == capped(where_preds(s.take(i as int)).1),
            asyncs == capped(where_preds(s.take(i as int)).2),
        decreases ps.len() - i,
    {
        assert(s.take(i + 1).drop_last() =~= s.take(i as int));
        assert(s.take(i + 1).last() == s[i as int]);
        match &ps[i] {
            WherePredDecl::Type { self_type, for_lifetimes, bounds } => {
                let b = where_bounds_ok(bounds);
                ok = ok && *self_type && !*for_lifetimes && b;
            },
            WherePredDecl::Lifetime { name, bounds } => {
                let is_life0 = same_text(name.as_str(), "life0");
                let named_ok = is_life0 || is_life_name(name.as_str());
                let (all, n) = read_lifetime_bounds(bounds);
                ok = ok && named_ok && all;
                if is_life0 && life0 < 3 {
                    life0 = life0 + 1;
                }
                asyncs = if asyncs + n >= 3 {
                    3
                } else {
                    asyncs + n
                };
            },
            WherePredDecl::Eq => {
                ok = false;
            },
        }
        i = i + 1;
    }
    assert(s.take(i as int) =~= s);
    (ok, life0, asyncs)
}

/// `a + b`, but no more than 3.
fn add_capped(a: u8, b: u8) -> (r: u8)
    requires
        a <= 3,
        b <= 3,
    ensures
        r == if a + b >= 3 {
            3
        } else {
            a + b
        },
{
    if a + b >= 3 {
        3
    } else {
        a + b
    }
}

/// Reads the generic parameters of a method.
fn read_generics_exec(gs: &Vec<GenericParamDecl>) -> (r: Result<(u8, u8), AbiMacroError>)
    ensures
        match read_generics(gs@) {
            Ok((l, a)) => r == Ok::<(u8, u8), AbiMacroError>((capped(l), capped(a))),
            Err(e) => r == Err::<(u8, u8), AbiMacroError>(e),
        },
{
    let ghost s = gs@;
    let mut l: u8 = 0;
    let mut a: u8 = 0;
    let mut i: usize = 0;
    while i < gs.len()
        invariant
            i <= gs.len(),
            s == gs@,
            read_generics(s.take(i as int)) matches Ok((l0, a0)) && l == capped(l0) && a == capped(a0),
        decreases gs.len() - i,
    {
        assert(s.take(i + 1).drop_last() =~= s.take(i as int));
        assert(s.take(i + 1).last() == s[i as int]);
        let refusal = match &gs[i] {
            GenericParamDecl::Type => Some(AbiMacroError::GenericMethod),
            GenericParamDecl::Const => Some(AbiMacroError::ConstGenericMethod),
            GenericParamDecl::Lifetime(n) => {
                let is_life0 = same_text(n.as_str(), "life0");
                if !is_life0 && !same_text(n.as_str(), "async_trait") && !is_life_name(n.as_str()) {
                    Some(AbiMacroError::MethodLifetimes)
                } else {
                    if is_life0 && l < 3 {
                        l = l + 1;
                    }
                    if a < 3 {
                        a = a + 1;
                    }
                    None
                }
            },
        };
        match refusal {
            Some(e) => {
                proof {
                    lemma_generics_error(s, (i + 1) as int);
                }
                return Err(e);
            },
            None => {},
        }
        i = i + 1;
    }
    assert(s.take(i as int) =~= s);
    Ok((l, a))
}

/// A refusal after a prefix of the generic parameters is the outcome for all of them.
proof fn lemma_generics_error(gs: Seq<GenericParamDecl>, n: int)
    requires
        0 <= n <= gs.len(),
        read_generics(gs.take(n)) is Err,
    ensures
        read_generics(gs) == read_generics(gs.take(n)),
    decreases gs.len() - n,
{
    if n < gs.len() {
        assert(gs.take(n + 1).drop_last() =~= gs.take(n));
        lemma_generics_error(gs, n + 1);
    } else {
        assert(gs.take(n) =~= gs);
    }
}

/// Reads the first parameter of a method.
fn read_receiver_exec(r: &Option<ReceiverDecl>) -> (res: Result<(ReceiverType, u8), AbiMacroError>)
    ensures
        match read_receiver(*r) {
            Ok((rt, l)) => res == Ok::<(ReceiverType, u8), AbiMacroError>((rt, l as u8)) && l <= 1,
            Err(e) => res == Err::<(ReceiverType, u8), AbiMacroError>(e),
        },
{
    match r {
        None => Err(AbiMacroError::NoSelfArgument),
        Some(ReceiverDecl::Reference { lifetime, mutable }) => {
            let rt = if *mutable {
                ReceiverType::Mut
            } else {
                ReceiverType::Shared
            };
            match lifetime {
                Some(l) => if !same_text(l.as_str(), "life0") {
                    Err(AbiMacroError::SelfLifetime)
                } else {
                    Ok((rt, 1))
                },
                None => Ok((rt, 0)),
            }
        },
        Some(ReceiverDecl::Value) => Err(AbiMacroError::SelfByValue),
        Some(ReceiverDecl::PinMut) => Ok((ReceiverType::PinMut, 0)),
        Some(ReceiverDecl::PinShared) => Err(AbiMacroError::PinSharedSelf),
        Some(ReceiverDecl::OtherTypedSelf) => Err(AbiMacroError::UnsupportedSelf),
        Some(ReceiverDecl::NotSelf) => Err(AbiMacroError::MissingSelf),
    }
}

/// How the parameters `args` travel as arguments.
pub fn parse_args(args: &Vec<ArgDecl>) -> (r: Result<Vec<ArgType>, AbiMacroError>)
    ensures
        match arg_kinds(args@) {
            Ok(ks) => r matches Ok(v) && v@ == ks,
            Err(e) => r == Err::<Vec<ArgType>, AbiMacroError>(e),
        },
{
    let ghost s = args@;
    let mut out: Vec<ArgType> = Vec::new();
    let mut i: usize = 0;
    while i < args.len()
        invariant
            i <= args.len(),
            s == args@,
            arg_kinds(s.take(i as int)) == Ok::<Seq<ArgType>, AbiMacroError>(out@),
        decreases args.len() - i,
    {
        assert(s.take(i + 1).drop_last() =~= s.take(i as int));
        assert(s.take(i + 1).last() == s[i as int]);
        match parse_type(&args[i].ty, false, false, false, false) {
            Ok(k) => {
                out.push(k);
            },
            Err(e) => {
                proof {
                    lemma_args_error(s, (i + 1) as int);
                }
                return Err(e);
            },
        }
        i = i + 1;
    }
    assert(s.take(i as int) =~= s);
    Ok(out)
}

/// A refusal after a prefix of the parameters is the outcome for all of them.
proof fn lemma_args_error(args: Seq<ArgDecl>, n: int)
    requires
        0 <= n <= args.len(),
        arg_kinds(args.take(n)) is Err,
    ensures
        arg_kinds(args) == arg_kinds(args.take(n)),
    decreases args.len() - n,
{
    if n < args.len() {
        assert(args.take(n + 1).drop_last() =~= args.take(n));
        lemma_args_error(args, n + 1);
    } else {
        assert(args.take(n) =~= args);
    }
}

/// How the return type `ret` travels.
pub fn parse_return(ret: &Option<TypeDecl>) -> (r: Result<Option<ArgType>, AbiMacroError>)
    ensures
        r == ret_kind(*ret),
{
    match ret {
        None => Ok(None),
        Some(t) => {
            let unit = match t {
                TypeDecl::Tuple(es) => es.len() == 0,
                _ => false,
            };
            if unit {
                Ok(None)
            } else {
                match parse_type(t, true, false, false, false) {
                    Err(e) => Err(e),
                    Ok(ArgType::Reference(_, _)) => Err(AbiMacroError::ReturnsReference),
                    Ok(ArgType::Str(false)) => Err(AbiMacroError::ReturnsStr),
                    Ok(k) => Ok(Some(k)),
                }
            }
        },
    }
}

/// Whether every parameter of `args` is a plain name.
fn all_named(args: &Vec<ArgDecl>) -> (r: bool)
    ensures
        r == args_named(args@),
{
    let mut i: usize = 0;
    while i < args.len()
        invariant
            i <= args.len(),
            forall|j: int| 0 <= j < i ==> #[trigger] args@[j].name is Some,
        decreases args.len() - i,
    {
        if args[i].name.is_none() {
            return false;
        }
        i = i + 1;
    }
    true
}

/// What the interface macro settles for the method `m`, or why it refuses it.
#[verifier::spinoff_prover]
pub fn check_method(m: &MethodDecl) -> (r: Result<MethodPlan, AbiMacroError>)
    ensures
        match method_plan(*m) {
            Ok(p) => r matches Ok(q) && q.model() == p,
            Err(e) => r matches Err(x) && x == e,
        },
{
    let (where_ok, wl, wa) = match &m.where_clause {
        Some(ps) => read_where(ps),
        None => (true, 0, 0),
    };
    if !where_ok {
        return Err(AbiMacroError::MethodWhereClause);
    }
    let (rt, rl) = match read_receiver_exec(&m.receiver) {
        Ok(x) => x,
        Err(e) => {
            return Err(e);
        },
    };
    if !all_named(&m.args) {
        return Err(AbiMacroError::ComplexPattern);
    }
    if m.is_async {
        return Err(AbiMacroError::AsyncMethod);
    }
    if m.is_variadic {
        return Err(AbiMacroError::VariadicMethod);
    }
    if m.is_unsafe {
        return Err(AbiMacroError::UnsafeMethod);
    }
    if m.has_abi {
        return Err(AbiMacroError::ExternMethod);
    }
    let args = match parse_args(&m.args) {
        Ok(v) => v,
        Err(e) => {
            return Err(e);
        },
    };
    let ret = match parse_return(&m.ret) {
        Ok(v) => v,
        Err(e) => {
            return Err(e);
        },
    };
    let (gl, ga) = match read_generics_exec(&m.generics) {
        Ok(x) => x,
        Err(e) => {
            return Err(e);
        },
    };
    let life0 = add_capped(add_capped(wl, rl), gl);
    let asyncs = add_capped(wa, ga);
    if !((life0 >= 3 && asyncs >= 3) || (life0 == 0 && asyncs == 0)) {
        return Err(AbiMacroError::PartialAsyncTrait);
    }
    Ok(MethodPlan { receiver: rt, args, ret, async_trait: life0 >= 3 })
}

/// Whether the path `p` names the `async_trait` attribute.
fn is_async_trait_attr(p: &Vec<String>) -> (r: bool)
    ensures
        r == is_async_trait_path(p@),
{
    (p.len() == 1 && same_text(p[0].as_str(), "async_trait")) || (p.len() == 2 && same_text(
        p[0].as_str(),
        "async_trait",
    ) && same_text(p[1].as_str(), "async_trait"))
}

/// What the interface macro settles for the items of a trait.
fn read_items(items: &Vec<TraitItemDecl>) -> (r: Result<Vec<MethodPlan>, AbiMacroError>)
    ensures
        match items_plan(items@) {
            Ok(ps) => r matches Ok(v) && plan_models(v@) == ps,
            Err(e) => r matches Err(x) && x == e,
        },
{
    let ghost s = items@;
    let mut out: Vec<MethodPlan> = Vec::new();
    assert(plan_models(out@) =~= Seq::<MethodPlanModel>::empty());
    let mut i: usize = 0;
    while i < items.len()
        invariant
            i <= items.len(),
            s == items@,
            out.len() == i,
            items_plan(s.take(i as int)) == Ok::<Seq<MethodPlanModel>, AbiMacroError>(plan_models(out@)),
        decreases items.len() - i,
    {
        assert(s.take(i + 1).drop_last() =~= s.take(i as int));
        assert(s.take(i + 1).last() == s[i as int]);
        if i > 65535 {
            proof {
                lemma_items_error(s, (i + 1) as int);
            }
            return Err(AbiMacroError::TooManyMethods);
        }
        let step = match &items[i] {
            TraitItemDecl::Method(m) => check_method(m),
            TraitItemDecl::Const => Err(AbiMacroError::AssociatedConst),
            TraitItemDecl::Type => Err(AbiMacroError::AssociatedType),
            TraitItemDecl::Macro => Err(AbiMacroError::MacroItem),
            TraitItemDecl::Other => Err(AbiMacroError::UnsupportedItem),
        };
        match step {
            Ok(p) => {
                let ghost before = out@;
                out.push(p);
                assert(plan_models(out@) =~= plan_models(before).push(out@[i as int].model()));
            },
            Err(e) => {
                proof {
                    lemma_items_error(s, (i + 1) as int);
                }
                return Err(e);
            },
        }
        i = i + 1;
    }
    assert(s.take(i as int) =~= s);
    Ok(out)
}

/// A refusal after a prefix of the items is the outcome for all of them.
proof fn lemma_items_error(items: Seq<TraitItemDecl>, n: int)
    requires
        0 <= n <= items.len(),
        items_plan(items.take(n)) is Err,
    ensures
        items_plan(items) == items_plan(items.take(n)),
    decreases items.len() - n,
{
    if n < items.len() {
        assert(items.take(n + 1).drop_last() =~= items.take(n));
        lemma_items_error(items, n + 1);
    } else {
        assert(items.take(n) =~= items);
    }
}

/// What the interface macro settles for the trait `def`, or why it refuses
/// it: the interface version, the `Sync` and `Send` supertraits, and a plan
/// for each method.
pub fn check_exportable(def: &TraitDecl) -> (r: Result<ExportPlan, AbiMacroError>)
    ensures
        match export_plan(*def) {
            Ok(p) => r matches Ok(q) && q.model() == p,
            Err(e) => r matches Err(x) && x == e,
        },
{
    let version = match read_macro_args_exec(def.macro_args.as_str()) {
        Ok(v) => v,
        Err(e) => {
            return Err(e);
        },
    };
    let mut i: usize = 0;
    while i < def.attr_paths.len()
        invariant
            i <= def.attr_paths.len(),
            read_macro_args(def.macro_args@) == Ok::<Option<u32>, AbiMacroError>(version),
            forall|j: int| 0 <= j < i ==> !#[trigger] is_async_trait_path(def.attr_paths@[j]@),
        decreases def.attr_paths.len() - i,
    {
        if is_async_trait_attr(&def.attr_paths[i]) {
            assert(is_async_trait_path(def.attr_paths@[i as int]@));
            return Err(AbiMacroError::AsyncTraitOrder);
        }
        i = i + 1;
    }
    if def.generic_params > 0 {
        return Err(AbiMacroError::GenericTrait);
    }
    let (sync, send) = match read_supertraits_exec(&def.supertraits) {
        Ok(x) => x,
        Err(e) => {
            return Err(e);
        },
    };
    if def.has_where_clause {
        return Err(AbiMacroError::TraitWhereClause);
    }
    let methods = match read_items(&def.items) {
        Ok(v) => v,
        Err(e) => {
            return Err(e);
        },
    };
    let v = match version {
        Some(n) => n,
        None => 0,
    };
    Ok(ExportPlan { version: v, sync, send, methods })
}

/// What the interface macro generates for calling one method: how the
/// method receives its object, what it settles for each argument and the
/// return value, and the size of the argument buffer where it is known.
pub struct DispatchPlan {
    pub receiver: ReceiverType,
    /// One instruction per argument, in order.
    pub args: Vec<ArgInstruction>,
    /// The instruction for the return value; `None` where there is none.
    pub ret: Option<ArgInstruction>,
    /// The size of a fixed argument buffer: the version number and every
    /// argument, where all their sizes are known; otherwise a growable
    /// buffer is used.
    pub arg_buffer_size: Option<usize>,
}

/// The model of a [`DispatchPlan`].
pub struct DispatchPlanModel {
    pub receiver: ReceiverType,
    pub args: Seq<ArgInstruction>,
    pub ret: Option<ArgInstruction>,
    pub arg_buffer_size: Option<usize>,
}

impl DispatchPlan {
    /// The model of this plan.
    pub open spec fn model(&self) -> DispatchPlanModel {
        DispatchPlanModel {
            receiver: self.receiver,
            args: self.args@,
            ret: self.ret,
            arg_buffer_size: self.arg_buffer_size,
        }
    }
}

/// The sum of the known sizes of the instructions `ins`, where all are known.
pub open spec fn known_total(ins: Seq<ArgInstruction>) -> Option<nat>
    decreases ins.len(),
{
    if ins.len() == 0 {
        Some(0)
    } else {
        match (known_total(ins.drop_last()), ins.last().known_size_align) {
            (Some(t), Some((s, _))) => Some(t + s as nat),
            _ => None,
        }
    }
}

/// What the macro generates for calling a method with plan `m`, where
/// pointers are `p` bytes: arguments and the return value are owned by the
/// receiving side; the argument buffer holds four bytes of version and the
/// known sizes of all arguments, where it fits in a `usize`.
pub open spec fn dispatch_plan(m: MethodPlanModel, p: usize) -> DispatchPlanModel {
    let ins = Seq::new(m.args.len(), |i: int| instruction(m.args[i], true, p));
    DispatchPlanModel {
        receiver: m.receiver,
        args: ins,
        ret: match m.ret {
            Some(r) => Some(instruction(r, true, p)),
            None => None,
        },
        arg_buffer_size: match known_total(ins) {
            Some(t) => if t + 4 <= usize::MAX {
                Some((t + 4) as usize)
            } else {
                None
            },
            None => None,
        },
    }
}

/// What the interface macro generates for calling the method planned by
/// `m`; `pointer_size` is the size of a pointer on the target.
pub fn method_dispatch(m: &MethodPlan, pointer_size: usize) -> (r: DispatchPlan)
    requires
        forall|i: int| 0 <= i < m.args.len() ==> !has_future(#[trigger] m.args@[i]),
        m.ret matches Some(x) ==> !has_future(x),
        3 * pointer_size <= usize::MAX,
    ensures
        r.model() == dispatch_plan(m.model(), pointer_size),
{
    let ghost want = Seq::new(m.args@.len(), |i: int| instruction(m.args@[i], true, pointer_size));
    let mut ins: Vec<ArgInstruction> = Vec::new();
    let mut total: Option<usize> = Some(4);
    let mut i: usize = 0;
    while i < m.args.len()
        invariant
            i <= m.args.len(),
            forall|j: int| 0 <= j < m.args.len() ==> !has_future(#[trigger] m.args@[j]),
            3 * pointer_size <= usize::MAX,
            want == Seq::new(m.args@.len(), |j: int| instruction(m.args@[j], true, pointer_size)),
            ins@ == want.take(i as int),
            match known_total(want.take(i as int)) {
                Some(t) => if t + 4 <= usize::MAX {
                    total == Some((t + 4) as usize)
                } else {
                    total is None
                },
                None => total is None,
            },
        decreases m.args.len() - i,
    {
        assert(want.take(i + 1).drop_last() =~= want.take(i as int));
        let one = m.args[i].get_instruction(true, pointer_size);
        assert(one == want[i as int]);
        total = match (total, one.known_size_align) {
            (Some(t), Some((s, _))) => t.checked_add(s),
            _ => None,
        };
        ins.push(one);
        assert(ins@ =~= want.take(i + 1));
        i = i + 1;
    }
    assert(want.take(i as int) =~= want);
    let ret = match &m.ret {
        Some(x) => Some(x.get_instruction(true, pointer_size)),
        None => None,
    };
    DispatchPlan { receiver: m.receiver, args: ins, ret, arg_buffer_size: total }
}

} // verus!
