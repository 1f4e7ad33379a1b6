//! How the interface macro reads the type of an argument or return value of
//! an interface method: which of the transport kinds it is, or why it is
//! refused.
use vstd::prelude::*;

use crate::attrs::text::same_text;

verus! {

/// A generic argument in angle brackets, as the interface macro reads it.
pub enum GenericArgDecl {
    /// A type.
    Type(TypeDecl),
    /// A lifetime.
    Lifetime,
    /// A constant.
    Const,
    /// An associated type binding, such as `Output = T`.
    Binding,
    /// A constraint, such as `T: Trait`.
    Constraint,
}

/// The arguments of the last segment of a path.
pub enum PathArgsDecl {
    /// No arguments.
    Bare,
    /// Arguments in round brackets, as in `Fn(u32)`.
    Parenthesized,
    /// Arguments in angle brackets.
    Angle(Vec<GenericArgDecl>),
}

/// A bound of a trait object.
pub enum BoundDecl {
    /// A trait, by the name of the last segment of its path.
    Trait {
        name: String,
        /// Its arguments are in round brackets, as in `Fn(u32) -> u32`.
        parenthesized: bool,
        /// It is introduced by `for<'a>`.
        for_lifetimes: bool,
        /// It is written `?Trait`.
        maybe: bool,
    },
    /// A lifetime.
    Lifetime,
}

/// A type, as the interface macro reads it.
pub enum TypeDecl {
    /// A tuple with these elements; `()` has none.
    Tuple(Vec<TypeDecl>),
    /// A reference.
    Reference {
        /// The name of its lifetime, if one is written.
        lifetime: Option<String>,
        mutable: bool,
        inner: Box<TypeDecl>,
    },
    /// A slice `[T]`.
    Slice(Box<TypeDecl>),
    /// An array `[T; n]`; `len` is the length where it is an integer literal.
    Array { elem: Box<TypeDecl>, len: Option<usize> },
    /// A trait object.
    TraitObject {
        /// It is written with `dyn`.
        has_dyn: bool,
        bounds: Vec<BoundDecl>,
    },
    /// A path, by the number of its segments, the name of its last segment,
    /// and that segment's arguments.
    Path { segments: usize, name: String, args: PathArgsDecl },
    /// `impl Trait`, with its bounds.
    ImplTrait(Vec<BoundDecl>),
    /// Any other type, such as a function pointer.
    Other,
}

/// How an argument or return value travels between caller and callee.
#[derive(Debug, PartialEq, Eq)]
pub enum ArgType {
    /// Serialized as a value; with the size and alignment of its type where
    /// the macro can tell them and the type can be copied as raw bytes.
    PlainData(Option<(usize, usize)>),
    /// A string slice; `true` for one with the `'static` lifetime.
    Str(bool),
    /// A reference to the inner kind; `true` for a mutable one.
    Reference(Box<ArgType>, bool),
    /// A slice of the inner kind.
    Slice(Box<ArgType>),
    /// A box of the inner kind.
    Boxed(Box<ArgType>),
    /// An interface object of the named trait; `true` behind a mutable reference.
    Trait(String, bool),
    /// A closure: `is_mut` for `FnMut`, and its `Sync` and `Send` bounds.
    Fn { is_mut: bool, sync: bool, send: bool },
    /// A boxed future.
    Future,
    /// A result, of an ok kind and an error kind.
    Result(Box<ArgType>, Box<ArgType>),
}

/// Why the interface macro refuses a type.
#[derive(Debug, PartialEq, Eq, Structural, Clone, Copy)]
pub enum AbiMacroError {
    /// A lifetime other than `'static` is written.
    LifetimeNotSupported,
    /// A reference to a reference, or a reference inside a box.
    ReferenceToReference,
    /// A tuple with more than three elements.
    TupleTooLong,
    /// A slice that is not directly behind a reference.
    SliceNotBehindReference,
    /// A mutable reference to anything but a trait object.
    MutableReference,
    /// A trait object that is neither behind a reference nor in a box.
    TraitObjectNotBehindReference,
    /// A trait object written without `dyn`.
    TraitObjectWithoutDyn,
    /// A trait object with no trait but `Send` and `Sync`.
    NoTraitInObject,
    /// A trait object with more than one trait besides `Send` and `Sync`.
    SeveralTraitsInObject,
    /// A closure of kind `FnOnce`.
    FnOnceNotSupported,
    /// A mutable reference to an `Fn` closure.
    MutableFnReference,
    /// An `FnMut` closure behind a shared reference.
    FnMutBehindSharedReference,
    /// A closure trait whose arguments are not in round brackets.
    FnArgumentsNotParenthesized,
    /// A future bound introduced by `for<'a>`.
    FutureWithLifetimes,
    /// A future bound written `?Future`.
    FutureMaybeBound,
    /// A future that is not boxed.
    FutureNotBoxed,
    /// A `Send` or `Sync` bound on a reference to an interface object.
    SendSyncOnTraitObject,
    /// `str` written with a path.
    NamespacedStr,
    /// `str` not behind a reference.
    BareStr,
    /// A reference to a box.
    ReferenceToBox,
    /// `Box` written with a path.
    NamespacedBox,
    /// A box without a type argument.
    MissingBoxArgument,
    /// A box with more than one generic argument.
    BoxArgumentCount,
    /// A box whose argument is not a type, or not in angle brackets.
    UnsupportedBox,
    /// A box of a result.
    BoxOfResult,
    /// A box of a box.
    BoxOfBox,
    /// A box of a slice of something other than plain data.
    BoxOfComplexSlice,
    /// A box of a reference.
    BoxOfReference,
    /// `Result` in return position written with a path.
    NamespacedResult,
    /// A reference to a result in return position.
    ReferenceToResult,
    /// A result in return position without exactly two arguments in angle brackets.
    ResultArgumentCount,
    /// A lifetime among the arguments of a result.
    ResultLifetimeArgument,
    /// A constant among the arguments of a result.
    ResultConstArgument,
    /// A binding among the arguments of a result.
    ResultBindingArgument,
    /// A constraint among the arguments of a result.
    ResultConstraintArgument,
    /// A type of another kind, such as an array or a function pointer.
    UnsupportedType,
    /// `impl Future`, which is only supported boxed and pinned.
    ImplFutureNotSupported,
    /// A method that returns a reference.
    ReturnsReference,
    /// A method that returns `&str` without the `'static` lifetime.
    ReturnsStr,
    /// An argument of the interface macro is not of the form `key=value`.
    BadMacroArgument,
    /// The interface macro is given `version` twice.
    DuplicateVersion,
    /// The `version` of the interface macro is not a number.
    VersionNotNumeric,
    /// The interface macro is given a key other than `version`.
    UnknownMacroKey,
    /// The `async_trait` attribute stands after the interface macro.
    AsyncTraitOrder,
    /// The trait has generic parameters.
    GenericTrait,
    /// The trait has `Copy` among its supertraits.
    CopyBound,
    /// The trait has `Clone` among its supertraits.
    CloneBound,
    /// The trait has a supertrait other than `Send`, `Sync`, `Sized` and `Debug`.
    UnsupportedBound,
    /// The trait has a `where` clause.
    TraitWhereClause,
    /// The trait has more methods than a 16-bit number can tell apart.
    TooManyMethods,
    /// The trait has an associated constant.
    AssociatedConst,
    /// The trait has an associated type.
    AssociatedType,
    /// The trait has a macro among its items.
    MacroItem,
    /// The trait has an item of another kind.
    UnsupportedItem,
    /// A method has a `where` clause other than those `async_trait` writes.
    MethodWhereClause,
    /// A method has no parameters.
    NoSelfArgument,
    /// The `self` of a method carries a lifetime other than `'life0`.
    SelfLifetime,
    /// A method takes `self` by value.
    SelfByValue,
    /// A method takes `self: Pin<&Self>`.
    PinSharedSelf,
    /// A method takes `self` with another type or form.
    UnsupportedSelf,
    /// The first parameter of a method is not `self`.
    MissingSelf,
    /// A parameter of a method is a pattern other than a plain name.
    ComplexPattern,
    /// A method is `async`.
    AsyncMethod,
    /// A method has variadic parameters.
    VariadicMethod,
    /// A method is `unsafe`.
    UnsafeMethod,
    /// A method is declared with an ABI.
    ExternMethod,
    /// A method has type parameters.
    GenericMethod,
    /// A method has constant parameters.
    ConstGenericMethod,
    /// A method has lifetime parameters other than those `async_trait` writes.
    MethodLifetimes,
    /// A method shows some, but not all, of the lifetimes that `async_trait` writes.
    PartialAsyncTrait,
}

/// The size and alignment of the primitive type named `name`.
pub open spec fn primitive_layout(name: Seq<char>) -> Option<(usize, usize)> {
    if name == "u8"@ || name == "i8"@ || name == "bool"@ {
        Some((1, 1))
    } else if name == "u16"@ || name == "i16"@ {
        Some((2, 2))
    } else if name == "u32"@ || name == "i32"@ || name == "char"@ || name == "f32"@ {
        Some((4, 4))
    } else if name == "u64"@ || name == "i64"@ || name == "f64"@ {
        Some((8, 8))
    } else {
        None
    }
}

/// The size and alignment of `t` where the macro can tell them and `t` can
/// be copied as raw bytes: a primitive named without a path; an array of such
/// a type with a literal length; a tuple whose elements all have one such
/// layout. `None` also where the size would not fit in a `usize`.
pub open spec fn plain_layout(t: TypeDecl) -> Option<(usize, usize)>
    decreases t, 1nat,
{
    match t {
        TypeDecl::Path { segments, name, args } => if segments == 1 && args is Bare {
            primitive_layout(name@)
        } else {
            None
        },
        TypeDecl::Tuple(elems) => if elems.len() == 0 {
            Some((0usize, 1usize))
        } else {
            match common_layout(elems@) {
                Some((s, a)) => if elems.len() * s <= usize::MAX {
                    Some(((elems.len() * s) as usize, a))
                } else {
                    None
                },
                None => None,
            }
        },
        TypeDecl::Array { elem, len } => match (plain_layout(*elem), len) {
            (Some((s, a)), Some(n)) => if n * s <= usize::MAX {
                Some(((n * s) as usize, a))
            } else {
                None
            },
            _ => None,
        },
        _ => None,
    }
}

/// The layout that all of `elems` share, where each has one.
pub open spec fn common_layout(elems: Seq<TypeDecl>) -> Option<(usize, usize)>
    decreases elems, 0nat,
{
    if elems.len() == 0 {
        None
    } else if elems.len() == 1 {
        plain_layout(elems[0])
    } else {
        match (common_layout(elems.drop_last()), plain_layout(elems.last())) {
            (Some(x), Some(y)) => if x == y {
                Some(x)
            } else {
                None
            },
            _ => None,
        }
    }
}

/// Whether `b` is a trait bound named `n`.
pub open spec fn bound_named(b: BoundDecl, n: Seq<char>) -> bool {
    b matches BoundDecl::Trait { name, .. } && name@ == n
}

/// Whether `b` is a trait bound other than `Send` and `Sync`.
pub open spec fn other_trait(b: BoundDecl) -> bool {
    b is Trait && !bound_named(b, "Sync"@) && !bound_named(b, "Send"@)
}

/// The positions of the trait bounds of `bs` other than `Send` and `Sync`.
pub open spec fn other_traits(bs: Seq<BoundDecl>) -> Seq<int>
    decreases bs.len(),
{
    if bs.len() == 0 {
        Seq::empty()
    } else {
        other_traits(bs.drop_last()) + if other_trait(bs.last()) {
            seq![bs.len() - 1]
        } else {
            Seq::<int>::empty()
        }
    }
}

/// How a trait object with bounds `bs` travels, given whether it stands
/// behind a mutable reference and in a box: its one trait besides `Send` and
/// `Sync` decides between a closure, a future and an interface object.
pub open spec fn trait_object_type(bs: Seq<BoundDecl>, is_mut_ref: bool, is_boxed: bool) -> Result<
    ArgType,
    AbiMacroError,
> {
    let sync = exists|i: int| 0 <= i < bs.len() && #[trigger] bound_named(bs[i], "Sync"@);
    let send = exists|i: int| 0 <= i < bs.len() && #[trigger] bound_named(bs[i], "Send"@);
    let others = other_traits(bs);
    if exists|i: int| 0 <= i < bs.len() && #[trigger] bs[i] is Lifetime {
        Err(AbiMacroError::LifetimeNotSupported)
    } else if others.len() == 0 {
        Err(AbiMacroError::NoTraitInObject)
    } else if others.len() > 1 {
        Err(AbiMacroError::SeveralTraitsInObject)
    } else {
        let b = bs[others[0]];
        if bound_named(b, "Fn"@) || bound_named(b, "FnMut"@) || bound_named(b, "FnOnce"@) {
            if bound_named(b, "FnOnce"@) {
                Err(AbiMacroError::FnOnceNotSupported)
            } else if bound_named(b, "Fn"@) && is_mut_ref {
                Err(AbiMacroError::MutableFnReference)
            } else if bound_named(b, "FnMut"@) && !is_boxed && !is_mut_ref {
                Err(AbiMacroError::FnMutBehindSharedReference)
            } else if b matches BoundDecl::Trait { parenthesized, .. } && parenthesized {
                Ok(ArgType::Fn { is_mut: bound_named(b, "FnMut"@), sync, send })
            } else {
                Err(AbiMacroError::FnArgumentsNotParenthesized)
            }
        } else if bound_named(b, "Future"@) {
            match bs[0] {
                BoundDecl::Trait { for_lifetimes, maybe, .. } => if for_lifetimes {
                    Err(AbiMacroError::FutureWithLifetimes)
                } else if maybe {
                    Err(AbiMacroError::FutureMaybeBound)
                } else if !is_boxed {
                    Err(AbiMacroError::FutureNotBoxed)
                } else {
                    Ok(ArgType::Future)
                },
                BoundDecl::Lifetime => Err(AbiMacroError::LifetimeNotSupported),
            }
        } else if sync || send {
            Err(AbiMacroError::SendSyncOnTraitObject)
        } else {
            match b {
                BoundDecl::Trait { name, .. } => Ok(ArgType::Trait(name, is_mut_ref)),
                BoundDecl::Lifetime => Err(AbiMacroError::LifetimeNotSupported),
            }
        }
    }
}

/// What a box of a value of kind `inner` travels as.
pub open spec fn boxed_kind(inner: ArgType) -> Result<ArgType, AbiMacroError> {
    match inner {
        ArgType::Future => Ok(ArgType::Future),
        ArgType::Result(_, _) => Err(AbiMacroError::BoxOfResult),
        ArgType::Boxed(_) => Err(AbiMacroError::BoxOfBox),
        ArgType::PlainData(_) => Ok(ArgType::PlainData(None)),
        ArgType::Str(_) => Ok(ArgType::PlainData(None)),
        ArgType::Slice(s) => if *s is PlainData {
            Ok(ArgType::Slice(s))
        } else {
            Err(AbiMacroError::BoxOfComplexSlice)
        },
        ArgType::Reference(_, _) => Err(AbiMacroError::BoxOfReference),
        ArgType::Trait(n, m) => Ok(ArgType::Boxed(Box::new(ArgType::Trait(n, m)))),
        ArgType::Fn { is_mut, sync, send } => Ok(ArgType::Boxed(Box::new(ArgType::Fn { is_mut, sync, send }))),
    }
}

/// The refusal of a generic argument of a result that is not a type.
pub open spec fn result_arg_error(a: GenericArgDecl) -> AbiMacroError {
    match a {
        GenericArgDecl::Lifetime => AbiMacroError::ResultLifetimeArgument,
        GenericArgDecl::Const => AbiMacroError::ResultConstArgument,
        GenericArgDecl::Binding => AbiMacroError::ResultBindingArgument,
        _ => AbiMacroError::ResultConstraintArgument,
    }
}

/// How a value of type `t` travels, or why it is refused, where it is the
/// return value or an argument, stands behind a reference (a mutable one),
/// or in a box.
pub open spec fn arg_type(t: TypeDecl, is_return_value: bool, is_reference: bool, is_mut_ref: bool, is_boxed: bool) -> Result<
    ArgType,
    AbiMacroError,
>
    decreases t,
{
    let plain = if is_mut_ref {
        Err(AbiMacroError::MutableReference)
    } else {
        Ok(ArgType::PlainData(plain_layout(t)))
    };
    match t {
        TypeDecl::Tuple(elems) => if elems.len() > 3 {
            Err(AbiMacroError::TupleTooLong)
        } else {
            plain
        },
        TypeDecl::Reference { lifetime, mutable, inner } => {
            if lifetime matches Some(l) && l@ != "static"@ {
                Err(AbiMacroError::LifetimeNotSupported)
            } else if is_reference || is_boxed {
                Err(AbiMacroError::ReferenceToReference)
            } else {
                match arg_type(*inner, is_return_value, true, mutable, is_boxed) {
                    Err(e) => Err(e),
                    Ok(ArgType::Str(_)) => Ok(ArgType::Str(lifetime is Some)),
                    Ok(k) => Ok(ArgType::Reference(Box::new(k), mutable)),
                }
            }
        },
        TypeDecl::Slice(elem) => if !is_reference || is_boxed {
            Err(AbiMacroError::SliceNotBehindReference)
        } else if is_mut_ref {
            Err(AbiMacroError::MutableReference)
        } else {
            match arg_type(*elem, is_return_value, is_reference, is_mut_ref, is_boxed) {
                Err(e) => Err(e),
                Ok(k) => Ok(ArgType::Slice(Box::new(k))),
            }
        },
        TypeDecl::TraitObject { has_dyn, bounds } => if !is_reference && !is_boxed {
            Err(AbiMacroError::TraitObjectNotBehindReference)
        } else if !has_dyn {
            Err(AbiMacroError::TraitObjectWithoutDyn)
        } else {
            trait_object_type(bounds@, is_mut_ref, is_boxed)
        },
        TypeDecl::Path { segments, name, args } => {
            if name@ == "str"@ {
                if segments != 1 {
                    Err(AbiMacroError::NamespacedStr)
                } else if !is_reference {
                    Err(AbiMacroError::BareStr)
                } else {
                    Ok(ArgType::Str(false))
                }
            } else if name@ == "Box"@ {
                if is_reference {
                    Err(AbiMacroError::ReferenceToBox)
                } else if segments != 1 {
                    Err(AbiMacroError::NamespacedBox)
                } else {
                    match args {
                        PathArgsDecl::Angle(v) => if v.len() == 0 {
                            Err(AbiMacroError::MissingBoxArgument)
                        } else if v.len() != 1 {
                            Err(AbiMacroError::BoxArgumentCount)
                        } else {
                            match v@[0] {
                                GenericArgDecl::Type(inner) => match arg_type(
                                    inner,
                                    is_return_value,
                                    false,
                                    is_mut_ref,
                                    true,
                                ) {
                                    Err(e) => Err(e),
                                    Ok(k) => boxed_kind(k),
                                },
                                _ => Err(AbiMacroError::UnsupportedBox),
                            }
                        },
                        _ => Err(AbiMacroError::UnsupportedBox),
                    }
                }
            } else if name@ == "Result"@ && is_return_value {
                if segments != 1 {
                    Err(AbiMacroError::NamespacedResult)
                } else if is_reference {
                    Err(AbiMacroError::ReferenceToResult)
                } else {
                    match args {
                        PathArgsDecl::Angle(v) => if v.len() != 2 {
                            Err(AbiMacroError::ResultArgumentCount)
                        } else {
                            match v@[0] {
                                GenericArgDecl::Type(a) => match arg_type(
                                    a,
                                    is_return_value,
                                    is_reference,
                                    is_mut_ref,
                                    is_boxed,
                                ) {
                                    Err(e) => Err(e),
                                    Ok(ok) => match v@[1] {
                                        GenericArgDecl::Type(b) => match arg_type(
                                            b,
                                            is_return_value,
                                            is_reference,
                                            is_mut_ref,
                                            is_boxed,
                                        ) {
                                            Err(e) => Err(e),
                                            Ok(err) => Ok(ArgType::Result(Box::new(ok), Box::new(err))),
                                        },
                                        other => Err(result_arg_error(other)),
                                    },
                                },
                                other => Err(result_arg_error(other)),
                            }
                        },
                        _ => Err(AbiMacroError::ResultArgumentCount),
                    }
                }
            } else {
                plain
            }
        },
        TypeDecl::Array { .. } => Err(AbiMacroError::UnsupportedType),
        TypeDecl::ImplTrait(bounds) => if exists|i: int|
            0 <= i < bounds.len() && #[trigger] bound_named(bounds@[i], "Future"@) {
            Err(AbiMacroError::ImplFutureNotSupported)
        } else {
            Err(AbiMacroError::UnsupportedType)
        },
        TypeDecl::Other => Err(AbiMacroError::UnsupportedType),
    }
}

/// The size and alignment of the primitive type named `name`.
fn primitive_layout_of(name: &str) -> (r: Option<(usize, usize)>)
    ensures
        r == primitive_layout(name@),
{
    if same_text(name, "u8") || same_text(name, "i8") || same_text(name, "bool") {
        Some((1, 1))
    } else if same_text(name, "u16") || same_text(name, "i16") {
        Some((2, 2))
    } else if same_text(name, "u32") || same_text(name, "i32") || same_text(name, "char") || same_text(
        name,
        "f32",
    ) {
        Some((4, 4))
    } else if same_text(name, "u64") || same_text(name, "i64") || same_text(name, "f64") {
        Some((8, 8))
    } else {
        None
    }
}

/// The size and alignment of `t`, where the macro can tell them and `t` can
/// be copied as raw bytes.
pub fn layout_of(t: &TypeDecl) -> (r: Option<(usize, usize)>)
    ensures
        r == plain_layout(*t),
    decreases t,
{
    match t {
        TypeDecl::Path { segments, name, args } => {
            let bare = match args {
                PathArgsDecl::Bare => true,
                _ => false,
            };
            if *segments == 1 && bare {
                primitive_layout_of(name.as_str())
            } else {
                None
            }
        },
        TypeDecl::Tuple(elems) => {
            if elems.len() == 0 {
                return Some((0, 1));
            }
            let ghost es = elems@;
            let mut acc = layout_of(&elems[0]);
            assert(es.take(1).len() == 1 && es.take(1)[0] == es[0]);
            let mut i: usize = 1;
            while i < elems.len()
                invariant
                    1 <= i <= elems.len(),
                    es == elems@,
                    acc == common_layout(es.take(i as int)),
                    *t == TypeDecl::Tuple(*elems),
                decreases elems.len() - i,
            {
                proof {
                    assert((*t)->Tuple_0 == *elems);
                    assert(decreases_to!(*t => (*t)->Tuple_0));
                    assert(decreases_to!(*elems => elems@));
                    assert(decreases_to!(elems@ => elems@[i as int]));
                    assert(decreases_to!(*t => elems@[i as int]));
                }
                assert(es.take(i + 1).drop_last() =~= es.take(i as int));
                assert(es.take(i + 1).last() == es[i as int]);
                let e = layout_of(&elems[i]);
                acc = match (acc, e) {
                    (Some(x), Some(y)) => if x.0 == y.0 && x.1 == y.1 {
                        Some(x)
                    } else {
                        None
                    },
                    _ => None,
                };
                i = i + 1;
            }
            assert(es.take(i as int) =~= es);
            match acc {
                Some((s, a)) => {
                    let n = elems.len();
                    match n.checked_mul(s) {
                        Some(total) => Some((total, a)),
                        None => None,
                    }
                },
                None => None,
            }
        },
        TypeDecl::Array { elem, len } => match (layout_of(&**elem), len) {
            (Some((s, a)), Some(n)) => match n.checked_mul(s) {
                Some(total) => Some((total, a)),
                None => None,
            },
            _ => None,
        },
        _ => None,
    }
}

/// Whether `b` is a trait bound named `n`.
fn bound_is(b: &BoundDecl, n: &str) -> (r: bool)
    ensures
        r == bound_named(*b, n@),
{
    match b {
        BoundDecl::Trait { name, .. } => same_text(name.as_str(), n),
        BoundDecl::Lifetime => false,
    }
}

/// How a trait object with bounds `bs` travels.
fn trait_object_kind(bs: &Vec<BoundDecl>, is_mut_ref: bool, is_boxed: bool) -> (r: Result<ArgType, AbiMacroError>)
    ensures
        r == trait_object_type(bs@, is_mut_ref, is_boxed),
{
    let ghost s = bs@;
    let mut sync = false;
    let mut send = false;
    let mut lifetime = false;
    let mut count: usize = 0;
    let mut first: usize = 0;
    let mut i: usize = 0;
    while i < bs.len()
        invariant
            i <= bs.len(),
            s == bs@,
            sync == exists|j: int| 0 <= j < i && #[trigger] bound_named(s[j], "Sync"@),
            send == exists|j: int| 0 <= j < i && #[trigger] bound_named(s[j], "Send"@),
            lifetime == exists|j: int| 0 <= j < i && #[trigger] s[j] is Lifetime,
            count == other_traits(s.take(i as int)).len(),
            count <= i,
            count > 0 ==> first == other_traits(s.take(i as int))[0],
        decreases bs.len() - i,
    {
        assert(s.take(i + 1).drop_last() =~= s.take(i as int));
        assert(s.take(i + 1).last() == s[i as int]);
        let b = &bs[i];
        let is_sync = bound_is(b, "Sync");
        let is_send = bound_is(b, "Send");
        let is_lifetime = match b {
            BoundDecl::Lifetime => true,
            _ => false,
        };
        if is_sync {
            sync = true;
        }
        if is_send {
            send = true;
        }
        if is_lifetime {
            lifetime = true;
        }
        if !is_lifetime && !is_sync && !is_send {
            if count == 0 {
                first = i;
            }
            count = count + 1;
        }
        i = i + 1;
    }
    assert(s.take(i as int) =~= s);
    if lifetime {
        return Err(AbiMacroError::LifetimeNotSupported);
    }
    if count == 0 {
        return Err(AbiMacroError::NoTraitInObject);
    }
    if count > 1 {
        return Err(AbiMacroError::SeveralTraitsInObject);
    }
    proof {
        lemma_other_traits_in_range(s);
    }
    let b = &bs[first];
    let is_fn = bound_is(b, "Fn");
    let is_fn_mut = bound_is(b, "FnMut");
    let is_fn_once = bound_is(b, "FnOnce");
    if is_fn || is_fn_mut || is_fn_once {
        if is_fn_once {
            Err(AbiMacroError::FnOnceNotSupported)
        } else if is_fn && is_mut_ref {
            Err(AbiMacroError::MutableFnReference)
        } else if is_fn_mut && !is_boxed && !is_mut_ref {
            Err(AbiMacroError::FnMutBehindSharedReference)
        } else {
            match b {
                BoundDecl::Trait { parenthesized, .. } => if *parenthesized {
                    Ok(ArgType::Fn { is_mut: is_fn_mut, sync, send })
                } else {
                    Err(AbiMacroError::FnArgumentsNotParenthesized)
                },
                BoundDecl::Lifetime => Err(AbiMacroError::FnArgumentsNotParenthesized),
            }
        }
    } else if bound_is(b, "Future") {
        match &bs[0] {
            BoundDecl::Trait { for_lifetimes, maybe, .. } => if *for_lifetimes {
                Err(AbiMacroError::FutureWithLifetimes)
            } else if *maybe {
                Err(AbiMacroError::FutureMaybeBound)
            } else if !is_boxed {
                Err(AbiMacroError::FutureNotBoxed)
            } else {
                Ok(ArgType::Future)
            },
            BoundDecl::Lifetime => Err(AbiMacroError::LifetimeNotSupported),
        }
    } else if sync || send {
        Err(AbiMacroError::SendSyncOnTraitObject)
    } else {
        match b {
            BoundDecl::Trait { name, .. } => Ok(ArgType::Trait(name.clone(), is_mut_ref)),
            BoundDecl::Lifetime => Err(AbiMacroError::LifetimeNotSupported),
        }
    }
}

/// The positions that [`other_traits`] lists lie within the bounds, and each
/// is a trait bound other than `Send` and `Sync`.
proof fn lemma_other_traits_in_range(bs: Seq<BoundDecl>)
    ensures
        forall|k: int|
            0 <= k < other_traits(bs).len() ==> 0 <= #[trigger] other_traits(bs)[k] < bs.len()
                && other_trait(bs[other_traits(bs)[k]]),
    decreases bs.len(),
{
    if bs.len() > 0 {
        lemma_other_traits_in_range(bs.drop_last());
        assert forall|k: int| 0 <= k < other_traits(bs).len() implies 0 <= #[trigger] other_traits(bs)[k]
            < bs.len() && other_trait(bs[other_traits(bs)[k]]) by {
            let p = other_traits(bs.drop_last());
            if k < p.len() {
                assert(other_traits(bs)[k] == p[k]);
                assert(bs[p[k]] == bs.drop_last()[p[k]]);
            }
        }
    }
}

/// What a box of a value of kind `inner` travels as.
fn box_kind(inner: ArgType) -> (r: Result<ArgType, AbiMacroError>)
    ensures
        r == boxed_kind(inner),
{
    match inner {
        ArgType::Future => Ok(ArgType::Future),
        ArgType::Result(_, _) => Err(AbiMacroError::BoxOfResult),
        ArgType::Boxed(_) => Err(AbiMacroError::BoxOfBox),
        ArgType::PlainData(_) => Ok(ArgType::PlainData(None)),
        ArgType::Str(_) => Ok(ArgType::PlainData(None)),
        ArgType::Slice(s) => {
            let is_plain = match &*s {
                ArgType::PlainData(_) => true,
                _ => false,
            };
            if is_plain {
                Ok(ArgType::Slice(s))
            } else {
                Err(AbiMacroError::BoxOfComplexSlice)
            }
        },
        ArgType::Reference(_, _) => Err(AbiMacroError::BoxOfReference),
        ArgType::Trait(n, m) => Ok(ArgType::Boxed(Box::new(ArgType::Trait(n, m)))),
        ArgType::Fn { is_mut, sync, send } => Ok(ArgType::Boxed(Box::new(ArgType::Fn { is_mut, sync, send }))),
    }
}

/// The refusal of a generic argument of a result that is not a type.
fn result_arg_refusal(a: &GenericArgDecl) -> (r: AbiMacroError)
    ensures
        r == result_arg_error(*a),
{
    match a {
        GenericArgDecl::Lifetime => AbiMacroError::ResultLifetimeArgument,
        GenericArgDecl::Const => AbiMacroError::ResultConstArgument,
        GenericArgDecl::Binding => AbiMacroError::ResultBindingArgument,
        _ => AbiMacroError::ResultConstraintArgument,
    }
}

/// Whether one of the bounds `bs` is the trait `Future`.
fn has_future_bound(bs: &Vec<BoundDecl>) -> (r: bool)
    ensures
        r == exists|i: int| 0 <= i < bs.len() && #[trigger] bound_named(bs@[i], "Future"@),
{
    let mut i: usize = 0;
    while i < bs.len()
        invariant
            i <= bs.len(),
            forall|j: int| 0 <= j < i ==> !#[trigger] bound_named(bs@[j], "Future"@),
        decreases bs.len() - i,
    {
        if bound_is(&bs[i], "Future") {
            assert(bound_named(bs@[i as int], "Future"@));
            return true;
        }
        i = i + 1;
    }
    false
}

/// How a value of type `t` travels between caller and callee, or why the
/// interface macro refuses it; `is_return_value` for the return value, and
/// where it stands behind a reference (a mutable one) or in a box.
pub fn parse_type(t: &TypeDecl, is_return_value: bool, is_reference: bool, is_mut_ref: bool, is_boxed: bool) -> (r:
    Result<ArgType, AbiMacroError>)
    ensures
        r == arg_type(*t, is_return_value, is_reference, is_mut_ref, is_boxed),
    decreases t,
{
    match t {
        TypeDecl::Tuple(elems) => if elems.len() > 3 {
            Err(AbiMacroError::TupleTooLong)
        } else if is_mut_ref {
            Err(AbiMacroError::MutableReference)
        } else {
            Ok(ArgType::PlainData(layout_of(t)))
        },
        TypeDecl::Reference { lifetime, mutable, inner } => {
            let lifetime_ok = match lifetime {
                Some(l) => same_text(l.as_str(), "static"),
                None => true,
            };
            if !lifetime_ok {
                Err(AbiMacroError::LifetimeNotSupported)
            } else if is_reference || is_boxed {
                Err(AbiMacroError::ReferenceToReference)
            } else {
                match parse_type(&**inner, is_return_value, true, *mutable, is_boxed) {
                    Err(e) => Err(e),
                    Ok(ArgType::Str(_)) => Ok(ArgType::Str(lifetime.is_some())),
                    Ok(k) => Ok(ArgType::Reference(Box::new(k), *mutable)),
                }
            }
        },
        TypeDecl::Slice(elem) => if !is_reference || is_boxed {
            Err(AbiMacroError::SliceNotBehindReference)
        } else if is_mut_ref {
            Err(AbiMacroError::MutableReference)
        } else {
            match parse_type(&**elem, is_return_value, is_reference, is_mut_ref, is_boxed) {
                Err(e) => Err(e),
                Ok(k) => Ok(ArgType::Slice(Box::new(k))),
            }
        },
        TypeDecl::TraitObject { has_dyn, bounds } => if !is_reference && !is_boxed {
            Err(AbiMacroError::TraitObjectNotBehindReference)
        } else if !*has_dyn {
            Err(AbiMacroError::TraitObjectWithoutDyn)
        } else {
            trait_object_kind(bounds, is_mut_ref, is_boxed)
        },
        TypeDecl::Path { segments, name, args } => {
            if same_text(name.as_str(), "str") {
                if *segments != 1 {
                    Err(AbiMacroError::NamespacedStr)
                } else if !is_reference {
                    Err(AbiMacroError::BareStr)
                } else {
                    Ok(ArgType::Str(false))
                }
            } else if same_text(name.as_str(), "Box") {
                if is_reference {
                    Err(AbiMacroError::ReferenceToBox)
                } else if *segments != 1 {
                    Err(AbiMacroError::NamespacedBox)
                } else {
                    match args {
                        PathArgsDecl::Angle(v) => if v.len() == 0 {
                            Err(AbiMacroError::MissingBoxArgument)
                        } else if v.len() != 1 {
                            Err(AbiMacroError::BoxArgumentCount)
                        } else {
                            match &v[0] {
                                GenericArgDecl::Type(inner) => match parse_type(
                                    inner,
                                    is_return_value,
                                    false,
                                    is_mut_ref,
                                    true,
                                ) {
                                    Err(e) => Err(e),
                                    Ok(k) => box_kind(k),
                                },
                                _ => Err(AbiMacroError::UnsupportedBox),
                            }
                        },
                        _ => Err(AbiMacroError::UnsupportedBox),
                    }
                }
            } else if same_text(name.as_str(), "Result") && is_return_value {
                if *segments != 1 {
                    Err(AbiMacroError::NamespacedResult)
                } else if is_reference {
                    Err(AbiMacroError::ReferenceToResult)
                } else {
                    match args {
                        PathArgsDecl::Angle(v) => if v.len() != 2 {
                            Err(AbiMacroError::ResultArgumentCount)
                        } else {
                            match &v[0] {
                                GenericArgDecl::Type(a) => match parse_type(
                                    a,
                                    is_return_value,
                                    is_reference,
                                    is_mut_ref,
                                    is_boxed,
                                ) {
                                    Err(e) => Err(e),
                                    Ok(ok) => match &v[1] {
                                        GenericArgDecl::Type(b) => match parse_type(
                                            b,
                                            is_return_value,
                                            is_reference,
                                            is_mut_ref,
                                            is_boxed,
                                        ) {
                                            Err(e) => Err(e),
                                            Ok(err) => Ok(ArgType::Result(Box::new(ok), Box::new(err))),
                                        },
                                        other => Err(result_arg_refusal(other)),
                                    },
                                },
                                other => Err(result_arg_refusal(other)),
                            }
                        },
                        _ => Err(AbiMacroError::ResultArgumentCount),
                    }
                }
            } else if is_mut_ref {
                Err(AbiMacroError::MutableReference)
            } else {
                Ok(ArgType::PlainData(layout_of(t)))
            }
        },
        TypeDecl::Array { .. } => Err(AbiMacroError::UnsupportedType),
        TypeDecl::ImplTrait(bounds) => if has_future_bound(bounds) {
            Err(AbiMacroError::ImplFutureNotSupported)
        } else {
            Err(AbiMacroError::UnsupportedType)
        },
        TypeDecl::Other => Err(AbiMacroError::UnsupportedType),
    }
}

/// The schema that the interface macro writes for an argument or return value.
#[derive(Debug, PartialEq, Eq)]
pub enum ArgSchema {
    /// The schema of the value's own type.
    Plain,
    /// A string slice.
    Str,
    /// A reference to a value with the inner schema.
    Reference(Box<ArgSchema>),
    /// A slice of values with the inner schema.
    Slice(Box<ArgSchema>),
    /// A box of a value with the inner schema.
    Boxed(Box<ArgSchema>),
    /// The definition of the named interface; `true` behind a mutable reference.
    Trait(String, bool),
    /// The definition of a closure interface; `true` for `FnMut`.
    FnClosure(bool),
    /// A result, of an ok schema and an error schema.
    Result(Box<ArgSchema>, Box<ArgSchema>),
}

/// What the interface macro settles for one argument or return value.
#[derive(Debug, PartialEq, Eq)]
pub struct ArgInstruction {
    /// The schema it is described by.
    pub schema: ArgSchema,
    /// Its size and alignment as it is passed, where known when the macro runs.
    pub known_size_align: Option<(usize, usize)>,
    /// The size and alignment of a pointer to it, where known.
    pub known_size_align_of_pointer: Option<(usize, usize)>,
    /// For an interface object or closure, whether the receiving side owns it.
    pub owned: Option<bool>,
}

/// Whether a future occurs anywhere in `a`.
pub open spec fn has_future(a: ArgType) -> bool
    decreases a,
{
    match a {
        ArgType::Future => true,
        ArgType::Reference(x, _) => has_future(*x),
        ArgType::Slice(x) => has_future(*x),
        ArgType::Boxed(x) => has_future(*x),
        ArgType::Result(x, y) => has_future(*x) || has_future(*y),
        _ => false,
    }
}

/// What the macro settles for a value of kind `a`, where `take_ownership`
/// says whether the receiving side owns interface objects and closures in
/// it, and `p` is the size of a pointer: a boxed value and the parts of a
/// result are owned, a referenced one is not; interface objects and closures
/// are passed as three pointers, a slice of values of known size as two.
pub open spec fn instruction(a: ArgType, take_ownership: bool, p: usize) -> ArgInstruction
    decreases a,
{
    match a {
        ArgType::Reference(inner, _) => {
            let i = instruction(*inner, false, p);
            ArgInstruction {
                schema: ArgSchema::Reference(Box::new(i.schema)),
                known_size_align: match *inner {
                    ArgType::PlainData(l) => if l is Some {
                        i.known_size_align_of_pointer
                    } else {
                        None
                    },
                    ArgType::Boxed(x) => if *x is Fn || *x is Trait {
                        Some(((3 * p) as usize, p))
                    } else {
                        None
                    },
                    ArgType::Fn { .. } => Some(((3 * p) as usize, p)),
                    ArgType::Trait(_, _) => Some(((3 * p) as usize, p)),
                    _ => None,
                },
                known_size_align_of_pointer: None,
                owned: i.owned,
            }
        },
        ArgType::Str(_) => ArgInstruction {
            schema: ArgSchema::Str,
            known_size_align: None,
            known_size_align_of_pointer: None,
            owned: None,
        },
        ArgType::Slice(inner) => {
            let i = instruction(*inner, false, p);
            ArgInstruction {
                schema: ArgSchema::Slice(Box::new(i.schema)),
                known_size_align: if i.known_size_align is Some {
                    Some(((2 * p) as usize, p))
                } else {
                    None
                },
                known_size_align_of_pointer: None,
                owned: i.owned,
            }
        },
        ArgType::PlainData(l) => ArgInstruction {
            schema: ArgSchema::Plain,
            known_size_align: l,
            known_size_align_of_pointer: None,
            owned: None,
        },
        ArgType::Boxed(inner) => {
            let i = instruction(*inner, true, p);
            ArgInstruction {
                schema: ArgSchema::Boxed(Box::new(i.schema)),
                known_size_align: None,
                known_size_align_of_pointer: None,
                owned: i.owned,
            }
        },
        ArgType::Trait(name, is_mut) => ArgInstruction {
            schema: ArgSchema::Trait(name, is_mut),
            known_size_align: Some(((3 * p) as usize, p)),
            known_size_align_of_pointer: None,
            owned: Some(take_ownership),
        },
        ArgType::Fn { is_mut, .. } => ArgInstruction {
            schema: ArgSchema::FnClosure(is_mut),
            known_size_align: Some(((3 * p) as usize, p)),
            known_size_align_of_pointer: None,
            owned: Some(take_ownership),
        },
        ArgType::Result(ok, err) => {
            let i = instruction(*ok, true, p);
            let j = instruction(*err, true, p);
            ArgInstruction {
                schema: ArgSchema::Result(Box::new(i.schema), Box::new(j.schema)),
                known_size_align: None,
                known_size_align_of_pointer: None,
                owned: None,
            }
        },
        ArgType::Future => ArgInstruction {
            schema: ArgSchema::Plain,
            known_size_align: None,
            known_size_align_of_pointer: None,
            owned: None,
        },
    }
}

impl ArgType {
    /// What the interface macro settles for a value of this kind: its
    /// schema, its size where known, and who owns the interface objects and
    /// closures in it. `pointer_size` is the size of a pointer on the target.
    /// The macro settles nothing for a future, so none may occur in the kind.
    pub fn get_instruction(&self, take_ownership: bool, pointer_size: usize) -> (r: ArgInstruction)
        requires
            !has_future(*self),
            3 * pointer_size <= usize::MAX,
        ensures
            r == instruction(*self, take_ownership, pointer_size),
        decreases self,
    {
        let mega_fat = (3 * pointer_size, pointer_size);
        match self {
            ArgType::Reference(inner, _) => {
                let i = inner.get_instruction(false, pointer_size);
                let known = match &**inner {
                    ArgType::PlainData(l) => if l.is_some() {
                        i.known_size_align_of_pointer
                    } else {
                        None
                    },
                    ArgType::Boxed(x) => match &**x {
                        ArgType::Fn { .. } => Some(mega_fat),
                        ArgType::Trait(_, _) => Some(mega_fat),
                        _ => None,
                    },
                    ArgType::Fn { .. } => Some(mega_fat),
                    ArgType::Trait(_, _) => Some(mega_fat),
                    _ => None,
                };
                ArgInstruction {
                    schema: ArgSchema::Reference(Box::new(i.schema)),
                    known_size_align: known,
                    known_size_align_of_pointer: None,
                    owned: i.owned,
                }
            },
            ArgType::Str(_) => ArgInstruction {
                schema: ArgSchema::Str,
                known_size_align: None,
                known_size_align_of_pointer: None,
                owned: None,
            },
            ArgType::Slice(inner) => {
                let i = inner.get_instruction(false, pointer_size);
                let known = if i.known_size_align.is_some() {
                    Some((2 * pointer_size, pointer_size))
                } else {
                    None
                };
                ArgInstruction {
                    schema: ArgSchema::Slice(Box::new(i.schema)),
                    known_size_align: known,
                    known_size_align_of_pointer: None,
                    owned: i.owned,
                }
            },
            ArgType::PlainData(l) => ArgInstruction {
                schema: ArgSchema::Plain,
                known_size_align: *l,
                known_size_align_of_pointer: None,
                owned: None,
            },
            ArgType::Boxed(inner) => {
                let i = inner.get_instruction(true, pointer_size);
                ArgInstruction {
                    schema: ArgSchema::Boxed(Box::new(i.schema)),
                    known_size_align: None,
                    known_size_align_of_pointer: None,
                    owned: i.owned,
                }
            },
            ArgType::Trait(name, is_mut) => ArgInstruction {
                schema: ArgSchema::Trait(name.clone(), *is_mut),
                known_size_align: Some(mega_fat),
                known_size_align_of_pointer: None,
                owned: Some(take_ownership),
            },
            ArgType::Fn { is_mut, .. } => ArgInstruction {
                schema: ArgSchema::FnClosure(*is_mut),
                known_size_align: Some(mega_fat),
                known_size_align_of_pointer: None,
                owned: Some(take_ownership),
            },
            ArgType::Result(ok, err) => {
                let i = ok.get_instruction(true, pointer_size);
                let j = err.get_instruction(true, pointer_size);
                ArgInstruction {
                    schema: ArgSchema::Result(Box::new(i.schema), Box::new(j.schema)),
                    known_size_align: None,
                    known_size_align_of_pointer: None,
                    owned: None,
                }
            },
            ArgType::Future => ArgInstruction {
                schema: ArgSchema::Plain,
                known_size_align: None,
                known_size_align_of_pointer: None,
                owned: None,
            },
        }
    }
}

/// Who owns an interface object or closure follows the ownership handed
/// down: a closure or interface object owns itself exactly as told, one
/// behind a reference is borrowed, and one in a box is owned.
pub proof fn lemma_ownership_of_closures_and_objects(take_ownership: bool, p: usize, is_mut: bool, sync: bool, send: bool, name: String, m: bool, rm: bool)
    ensures
        instruction(ArgType::Fn { is_mut, sync, send }, take_ownership, p).owned == Some(take_ownership),
        instruction(ArgType::Trait(name, m), take_ownership, p).owned == Some(take_ownership),
        instruction(
            ArgType::Reference(Box::new(ArgType::Fn { is_mut, sync, send }), rm),
            take_ownership,
            p,
        ).owned == Some(false),
        instruction(ArgType::Reference(Box::new(ArgType::Trait(name, m)), rm), take_ownership, p).owned
            == Some(false),
        instruction(ArgType::Boxed(Box::new(ArgType::Fn { is_mut, sync, send })), take_ownership, p).owned
            == Some(true),
        instruction(ArgType::Boxed(Box::new(ArgType::Trait(name, m))), take_ownership, p).owned == Some(true),
{
    reveal_with_fuel(instruction, 2);
}

/// Only interface objects and closures carry an ownership: a value of a kind
/// with neither inside it has none.
pub proof fn lemma_plain_kinds_own_nothing(t: bool, p: usize, l: Option<(usize, usize)>, s: bool)
    ensures
        instruction(ArgType::PlainData(l), t, p).owned is None,
        instruction(ArgType::Str(s), t, p).owned is None,
{
}

/// A mutable reference is accepted only to a closure or an interface object
/// (or, read as text, to a string slice): an argument that travels as a
/// mutable reference refers to one of those two.
pub proof fn lemma_mutable_references_only_to_objects(t: TypeDecl, ret: bool)
    ensures
        arg_type(t, ret, false, false, false) matches Ok(ArgType::Reference(x, true)) ==> (*x is Fn || *x is Trait),
{
    match t {
        TypeDecl::Reference { lifetime, mutable, inner } => {
            if mutable {
                lemma_mut_ref_target(*inner, ret);
            }
        },
        _ => {},
    }
}

/// What may stand behind a mutable reference.
proof fn lemma_mut_ref_target(t: TypeDecl, ret: bool)
    ensures
        arg_type(t, ret, true, true, false) matches Ok(k) ==> (k is Fn || k is Trait || k is Str),
{
}

/// A plain value keeps the layout read from its type; a closure or an
/// interface object is passed as three pointers, a reference to one as
/// well, and a slice of values of known size as two.
pub proof fn lemma_known_sizes(t: bool, p: usize, l: Option<(usize, usize)>, is_mut: bool, sync: bool, send: bool, name: String, m: bool)
    ensures
        instruction(ArgType::PlainData(l), t, p).known_size_align == l,
        instruction(ArgType::Fn { is_mut, sync, send }, t, p).known_size_align == Some(((3 * p) as usize, p)),
        instruction(ArgType::Trait(name, m), t, p).known_size_align == Some(((3 * p) as usize, p)),
        instruction(ArgType::Reference(Box::new(ArgType::Trait(name, m)), false), t, p).known_size_align == Some(((3 * p) as usize, p)),
        l is Some ==> instruction(ArgType::Slice(Box::new(ArgType::PlainData(l))), t, p).known_size_align == Some(((2 * p) as usize, p)),
        instruction(ArgType::Slice(Box::new(ArgType::PlainData(None))), t, p).known_size_align is None,
{
    reveal_with_fuel(instruction, 2);
}

} // verus!
