//! Reading how an enum is represented, and whether a field's type marks it as removed.
use vstd::prelude::*;

use crate::attrs::field::AttrError;
use crate::attrs::text::same_text;
use crate::attrs::{AttrLit, AttrMeta, NestedMeta};

verus! {

/// How the discriminant of an enum is stored.
#[derive(Debug, PartialEq, Eq, Structural, Clone, Copy)]
pub struct EnumSize {
    /// Its size in bytes.
    pub discriminant_size: u8,
    /// The enum is declared `repr(C)`.
    pub repr_c: bool,
    /// The enum declares the size of its discriminant.
    pub explicit_size: bool,
}

/// What the `repr` attributes of an enum have said so far: the declared
/// discriminant size, `repr(C)`, and whether a size was declared.
pub type ReprReading = (Option<u8>, bool, bool);

/// The word an entry of `repr(...)` names, if it names one.
pub open spec fn repr_word(x: NestedMeta) -> Option<Seq<char>> {
    match x {
        NestedMeta::Path(p) => Some(p@),
        NestedMeta::Lit(AttrLit::Str(s)) => Some(s@),
        _ => None,
    }
}

/// Reads one word of `repr(...)`.
pub open spec fn read_repr_word(st: ReprReading, w: Seq<char>) -> Result<ReprReading, AttrError> {
    if w == "C"@ {
        Ok((st.0, true, st.2))
    } else if w == "u8"@ || w == "i8"@ {
        Ok((Some(1u8), st.1, true))
    } else if w == "u16"@ || w == "i16"@ {
        Ok((Some(2u8), st.1, true))
    } else if w == "u32"@ || w == "i32"@ {
        Ok((Some(4u8), st.1, true))
    } else if w == "u64"@ || w == "i64"@ {
        Err(AttrError::EnumTooWide)
    } else {
        Err(AttrError::UnsupportedRepr)
    }
}

/// Reads the entries of `repr(...)` in order; entries that name no word are skipped.
pub open spec fn read_repr_list(st: ReprReading, nested: Seq<NestedMeta>) -> Result<
    ReprReading,
    AttrError,
>
    decreases nested.len(),
{
    if nested.len() == 0 {
        Ok(st)
    } else {
        match read_repr_list(st, nested.drop_last()) {
            Err(e) => Err(e),
            Ok(s) => match repr_word(nested.last()) {
                None => Ok(s),
                Some(w) => read_repr_word(s, w),
            },
        }
    }
}

/// Reads one attribute of an enum: only `repr(...)` matters.
pub open spec fn read_enum_attr(st: ReprReading, meta: AttrMeta) -> Result<ReprReading, AttrError> {
    match meta {
        AttrMeta::List { path, nested } => if path@ == "repr"@ {
            read_repr_list(st, nested@)
        } else {
            Ok(st)
        },
        _ => Ok(st),
    }
}

/// Reads the attributes of an enum in order; the first refusal wins.
pub open spec fn read_enum_attrs(attrs: Seq<AttrMeta>) -> Result<ReprReading, AttrError>
    decreases attrs.len(),
{
    if attrs.len() == 0 {
        Ok((None, false, false))
    } else {
        match read_enum_attrs(attrs.drop_last()) {
            Err(e) => Err(e),
            Ok(st) => read_enum_attr(st, attrs.last()),
        }
    }
}

/// How an enum with attributes `attrs` and `variants` variants stores its
/// discriminant: as declared, or else in the fewest of 1, 2 or 4 bytes that
/// tell the variants apart.
pub open spec fn enum_size(attrs: Seq<AttrMeta>, variants: nat) -> Result<EnumSize, AttrError> {
    match read_enum_attrs(attrs) {
        Err(e) => Err(e),
        Ok((size, repr_c, explicit_size)) => match size {
            Some(s) => Ok(EnumSize { discriminant_size: s, repr_c, explicit_size }),
            None => if variants <= 256 {
                Ok(EnumSize { discriminant_size: 1, repr_c, explicit_size })
            } else if variants <= 65536 {
                Ok(EnumSize { discriminant_size: 2, repr_c, explicit_size })
            } else if variants >= u32::MAX {
                Err(AttrError::TooManyVariants)
            } else {
                Ok(EnumSize { discriminant_size: 4, repr_c, explicit_size })
            },
        },
    }
}

/// Reads one word of `repr(...)`.
fn read_repr_word_of(st: ReprReading, w: &str) -> (r: Result<ReprReading, AttrError>)
    ensures
        r == read_repr_word(st, w@),
{
    if same_text(w, "C") {
        Ok((st.0, true, st.2))
    } else if same_text(w, "u8") || same_text(w, "i8") {
        Ok((Some(1u8), st.1, true))
    } else if same_text(w, "u16") || same_text(w, "i16") {
        Ok((Some(2u8), st.1, true))
    } else if same_text(w, "u32") || same_text(w, "i32") {
        Ok((Some(4u8), st.1, true))
    } else if same_text(w, "u64") || same_text(w, "i64") {
        Err(AttrError::EnumTooWide)
    } else {
        Err(AttrError::UnsupportedRepr)
    }
}

/// Reads the entries of `repr(...)` in order.
fn read_repr_list_of(st: ReprReading, nested: &Vec<NestedMeta>) -> (r: Result<ReprReading, AttrError>)
    ensures
        r == read_repr_list(st, nested@),
{
    let mut cur = st;
    let mut i: usize = 0;
    while i < nested.len()
        invariant
            i <= nested.len(),
            read_repr_list(st, nested@.take(i as int)) == Ok::<ReprReading, AttrError>(cur),
        decreases nested.len() - i,
    {
        assert(nested@.take(i + 1).drop_last() =~= nested@.take(i as int));
        let next = match &nested[i] {
            NestedMeta::Path(p) => read_repr_word_of(cur, p.as_str()),
            NestedMeta::Lit(AttrLit::Str(s)) => read_repr_word_of(cur, s.as_str()),
            _ => Ok(cur),
        };
        match next {
            Ok(s) => {
                cur = s;
            },
            Err(e) => {
                proof {
                    lemma_repr_failure_sticks(st, nested@, (i + 1) as nat);
                }
                return Err(e);
            },
        }
        i = i + 1;
    }
    assert(nested@.take(i as int) =~= nested@);
    Ok(cur)
}

/// Once reading the first `k` entries fails, reading all of them fails the same way.
proof fn lemma_repr_failure_sticks(st: ReprReading, nested: Seq<NestedMeta>, k: nat)
    requires
        k <= nested.len(),
        read_repr_list(st, nested.take(k as int)) is Err,
    ensures
        read_repr_list(st, nested) == read_repr_list(st, nested.take(k as int)),
    decreases nested.len() - k,
{
    if k < nested.len() {
        assert(nested.take(k + 1 as int).drop_last() =~= nested.take(k as int));
        lemma_repr_failure_sticks(st, nested, (k + 1) as nat);
    } else {
        assert(nested.take(k as int) =~= nested);
    }
}

/// Once reading the first `k` attributes fails, reading all of them fails the same way.
proof fn lemma_enum_failure_sticks(attrs: Seq<AttrMeta>, k: nat)
    requires
        k <= attrs.len(),
        read_enum_attrs(attrs.take(k as int)) is Err,
    ensures
        read_enum_attrs(attrs) == read_enum_attrs(attrs.take(k as int)),
    decreases attrs.len() - k,
{
    if k < attrs.len() {
        assert(attrs.take(k + 1 as int).drop_last() =~= attrs.take(k as int));
        lemma_enum_failure_sticks(attrs, (k + 1) as nat);
    } else {
        assert(attrs.take(k as int) =~= attrs);
    }
}

/// How an enum with attributes `attrs` and `actual_variants` variants stores its discriminant.
pub fn get_enum_size(attrs: &Vec<AttrMeta>, actual_variants: usize) -> (r: Result<EnumSize, AttrError>)
    ensures
        r == enum_size(attrs@, actual_variants as nat),
{
    let mut st: ReprReading = (None, false, false);
    let mut i: usize = 0;
    while i < attrs.len()
        invariant
            i <= attrs.len(),
            read_enum_attrs(attrs@.take(i as int)) == Ok::<ReprReading, AttrError>(st),
        decreases attrs.len() - i,
    {
        assert(attrs@.take(i + 1).drop_last() =~= attrs@.take(i as int));
        let next = match &attrs[i] {
            AttrMeta::List { path, nested } => {
                if same_text(path.as_str(), "repr") {
                    read_repr_list_of(st, nested)
                } else {
                    Ok(st)
                }
            },
            _ => Ok(st),
        };
        match next {
            Ok(s) => {
                st = s;
            },
            Err(e) => {
                proof {
                    lemma_enum_failure_sticks(attrs@, (i + 1) as nat);
                }
                return Err(e);
            },
        }
        i = i + 1;
    }
    assert(attrs@.take(i as int) =~= attrs@);
    let (size, repr_c, explicit_size) = st;
    let discriminant_size: u8 = match size {
        Some(s) => s,
        None => {
            if actual_variants <= 256 {
                1
            } else if actual_variants <= 65536 {
                2
            } else {
                if actual_variants as u64 >= 0xFFFF_FFFFu64 {
                    return Err(AttrError::TooManyVariants);
                }
                4
            }
        },
    };
    Ok(EnumSize { discriminant_size, repr_c, explicit_size })
}

/// Whether a field's type marks it as removed, and how.
#[derive(Debug, PartialEq, Eq, Structural, Clone, Copy)]
pub enum RemovedType {
    /// The field is present.
    NotRemoved,
    /// The field is `Removed<T>`: read from older data and dropped.
    Removed,
    /// The field is `AbiRemoved<T>`: still written for older readers.
    AbiRemoved,
}

impl RemovedType {
    /// Whether the field is removed in either way.
    pub fn is_removed(&self) -> (r: bool)
        ensures
            r == !(*self is NotRemoved),
    {
        match self {
            RemovedType::NotRemoved => false,
            RemovedType::Removed => true,
            RemovedType::AbiRemoved => true,
        }
    }
}

/// What the tokens of a field's type say, by the first token that is
/// `Removed` or `AbiRemoved`.
pub open spec fn removed_type(tokens: Seq<String>) -> RemovedType
    decreases tokens.len(),
{
    if tokens.len() == 0 {
        RemovedType::NotRemoved
    } else if tokens[0]@ == "Removed"@ {
        RemovedType::Removed
    } else if tokens[0]@ == "AbiRemoved"@ {
        RemovedType::AbiRemoved
    } else {
        removed_type(tokens.drop_first())
    }
}

/// Whether the type whose tokens are `tokens` marks a field as removed.
pub fn check_is_remove(tokens: &Vec<String>) -> (r: RemovedType)
    ensures
        r == removed_type(tokens@),
{
    assert(tokens@.skip(0) =~= tokens@);
    let mut i: usize = 0;
    while i < tokens.len()
        invariant
            i <= tokens.len(),
            removed_type(tokens@) == removed_type(tokens@.skip(i as int)),
        decreases tokens.len() - i,
    {
        assert(tokens@.skip(i as int).drop_first() =~= tokens@.skip(i + 1));
        assert(tokens@.skip(i as int)[0] == tokens@[i as int]);
        if same_text(tokens[i].as_str(), "Removed") {
            return RemovedType::Removed;
        }
        if same_text(tokens[i].as_str(), "AbiRemoved") {
            return RemovedType::AbiRemoved;
        }
        i = i + 1;
    }
    assert(tokens@.skip(i as int).len() == 0);
    RemovedType::NotRemoved
}

} // verus!
