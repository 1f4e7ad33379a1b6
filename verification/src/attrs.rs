//! How the derives read the attributes written on a field, a variant or an
//! enum: version ranges, defaults, what to ignore, and enum representations.
use vstd::prelude::*;

pub mod field;
pub mod repr;
pub mod text;

verus! {

/// The value of a `name = value` attribute.
#[derive(Debug)]
pub enum AttrLit {
    /// A string literal, by its contents.
    Str(String),
    /// Any other literal, by its source text.
    Other(String),
}

/// One entry inside the brackets of a list attribute such as `repr(C, u8)`.
#[derive(Debug)]
pub enum NestedMeta {
    /// A bare name: the last segment of its path.
    Path(String),
    /// A literal.
    Lit(AttrLit),
    /// An entry of the form `name = value`.
    NameValue,
    /// An entry of the form `name(...)`.
    List,
}

/// An attribute, as the derives see it.
#[derive(Debug)]
pub enum AttrMeta {
    /// A bare name such as `savefile_ignore`: the last segment of its path.
    Path(String),
    /// `path = lit`.
    NameValue { path: String, lit: AttrLit },
    /// `path(nested, ...)`.
    List { path: String, nested: Vec<NestedMeta> },
    /// An attribute whose tokens do not form a meta item.
    Unparsable,
}

} // verus!
