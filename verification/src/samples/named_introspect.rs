//! What the records and enums with named fields show when looked into.
use vstd::prelude::*;

use crate::introspect::{item, Introspect, IntrospectItem};
use crate::samples::named::{ComplexStruct, EnumWithName, OtherStruct, SillyStruct, SimpleEnum, SimpleStruct, StructWithName};

verus! {

impl Introspect for OtherStruct {
    open spec fn shown(&self) -> Seq<char> {
        "OtherStruct"@
    }

    open spec fn child_count(&self) -> nat {
        2
    }

    open spec fn child_key(&self, i: int) -> Seq<char> {
        if i == 0 { "0"@ } else { if i == 1 { "1"@ } else { Seq::empty() } }
    }

    open spec fn child_shown(&self, i: int) -> Seq<char> {
        if i == 0 { self.0.shown() } else { if i == 1 { self.1.shown() } else { Seq::empty() } }
    }

    open spec fn child_child_count(&self, i: int) -> nat {
        if i == 0 { self.0.child_count() } else { if i == 1 { self.1.child_count() } else { 0 } }
    }

    fn introspect_value(&self) -> (r: String) {
        String::from_str("OtherStruct")
    }

    fn introspect_len(&self) -> (r: usize) {
        2
    }

    fn introspect_child(&self, index: usize) -> (r: Option<IntrospectItem>) {
        if index == 0 {
            Some(item("0", self.0.introspect_value(), self.0.introspect_len()))
        } else {
            if index == 1 {
                Some(item("1", self.1.introspect_value(), self.1.introspect_len()))
            } else {
                None
            }
        }
    }
}

impl Introspect for SillyStruct {
    open spec fn shown(&self) -> Seq<char> {
        "SillyStruct"@
    }

    open spec fn child_count(&self) -> nat {
        0
    }

    open spec fn child_key(&self, i: int) -> Seq<char> {
        Seq::empty()
    }

    open spec fn child_shown(&self, i: int) -> Seq<char> {
        Seq::empty()
    }

    open spec fn child_child_count(&self, i: int) -> nat {
        0
    }

    fn introspect_value(&self) -> (r: String) {
        String::from_str("SillyStruct")
    }

    fn introspect_len(&self) -> (r: usize) {
        0
    }

    fn introspect_child(&self, index: usize) -> (r: Option<IntrospectItem>) {
        None
    }
}

impl Introspect for SimpleEnum {
    open spec fn shown(&self) -> Seq<char> {
        match self {
            SimpleEnum::VariantA(v0, v1, v2) => "SimpleEnum::VariantA"@,
            SimpleEnum::VariantB { x, y } => "SimpleEnum::VariantB"@,
            SimpleEnum::VariantC => "SimpleEnum::VariantC"@,
        }
    }

    open spec fn child_count(&self) -> nat {
        match self {
            SimpleEnum::VariantA(v0, v1, v2) => 3,
            SimpleEnum::VariantB { x, y } => 2,
            SimpleEnum::VariantC => 0,
        }
    }

    open spec fn child_key(&self, i: int) -> Seq<char> {
        match self {
            SimpleEnum::VariantA(v0, v1, v2) => if i == 0 { "0"@ } else { if i == 1 { "1"@ } else { if i == 2 { "2"@ } else { Seq::empty() } } },
            SimpleEnum::VariantB { x, y } => if i == 0 { "x"@ } else { if i == 1 { "y"@ } else { Seq::empty() } },
            SimpleEnum::VariantC => Seq::empty(),
        }
    }

    open spec fn child_shown(&self, i: int) -> Seq<char> {
        match self {
            SimpleEnum::VariantA(v0, v1, v2) => if i == 0 { v0.shown() } else { if i == 1 { v1.shown() } else { if i == 2 { v2.shown() } else { Seq::empty() } } },
            SimpleEnum::VariantB { x, y } => if i == 0 { x.shown() } else { if i == 1 { y.shown() } else { Seq::empty() } },
            SimpleEnum::VariantC => Seq::empty(),
        }
    }

    open spec fn child_child_count(&self, i: int) -> nat {
        match self {
            SimpleEnum::VariantA(v0, v1, v2) => if i == 0 { v0.child_count() } else { if i == 1 { v1.child_count() } else { if i == 2 { v2.child_count() } else { 0 } } },
            SimpleEnum::VariantB { x, y } => if i == 0 { x.child_count() } else { if i == 1 { y.child_count() } else { 0 } },
            SimpleEnum::VariantC => 0,
        }
    }

    fn introspect_value(&self) -> (r: String) {
        match self {
            SimpleEnum::VariantA(v0, v1, v2) => String::from_str("SimpleEnum::VariantA"),
            SimpleEnum::VariantB { x, y } => String::from_str("SimpleEnum::VariantB"),
            SimpleEnum::VariantC => String::from_str("SimpleEnum::VariantC"),
        }
    }

    fn introspect_len(&self) -> (r: usize) {
        match self {
            SimpleEnum::VariantA(v0, v1, v2) => 3,
            SimpleEnum::VariantB { x, y } => 2,
            SimpleEnum::VariantC => 0,
        }
    }

    fn introspect_child(&self, index: usize) -> (r: Option<IntrospectItem>) {
        match self {
            SimpleEnum::VariantA(v0, v1, v2) => if index == 0 { Some(item("0", v0.introspect_value(), v0.introspect_len())) } else { if index == 1 { Some(item("1", v1.introspect_value(), v1.introspect_len())) } else { if index == 2 { Some(item("2", v2.introspect_value(), v2.introspect_len())) } else { None } } },
            SimpleEnum::VariantB { x, y } => if index == 0 { Some(item("x", x.introspect_value(), x.introspect_len())) } else { if index == 1 { Some(item("y", y.introspect_value(), y.introspect_len())) } else { None } },
            SimpleEnum::VariantC => None,
        }
    }
}

impl Introspect for SimpleStruct {
    open spec fn shown(&self) -> Seq<char> {
        "SimpleStruct"@
    }

    open spec fn child_count(&self) -> nat {
        1
    }

    open spec fn child_key(&self, i: int) -> Seq<char> {
        if i == 0 { "item1"@ } else { Seq::empty() }
    }

    open spec fn child_shown(&self, i: int) -> Seq<char> {
        if i == 0 { self.item1.shown() } else { Seq::empty() }
    }

    open spec fn child_child_count(&self, i: int) -> nat {
        if i == 0 { self.item1.child_count() } else { 0 }
    }

    fn introspect_value(&self) -> (r: String) {
        String::from_str("SimpleStruct")
    }

    fn introspect_len(&self) -> (r: usize) {
        1
    }

    fn introspect_child(&self, index: usize) -> (r: Option<IntrospectItem>) {
        if index == 0 {
            Some(item("item1", self.item1.introspect_value(), self.item1.introspect_len()))
        } else {
            None
        }
    }
}

impl Introspect for ComplexStruct {
    open spec fn shown(&self) -> Seq<char> {
        "ComplexStruct"@
    }

    open spec fn child_count(&self) -> nat {
        3
    }

    open spec fn child_key(&self, i: int) -> Seq<char> {
        if i == 0 { "simple1"@ } else { if i == 1 { "simple2"@ } else { if i == 2 { "an_int"@ } else { Seq::empty() } } }
    }

    open spec fn child_shown(&self, i: int) -> Seq<char> {
        if i == 0 { self.simple1.shown() } else { if i == 1 { self.simple2.shown() } else { if i == 2 { self.an_int.shown() } else { Seq::empty() } } }
    }

    open spec fn child_child_count(&self, i: int) -> nat {
        if i == 0 { self.simple1.child_count() } else { if i == 1 { self.simple2.child_count() } else { if i == 2 { self.an_int.child_count() } else { 0 } } }
    }

    fn introspect_value(&self) -> (r: String) {
        String::from_str("ComplexStruct")
    }

    fn introspect_len(&self) -> (r: usize) {
        3
    }

    fn introspect_child(&self, index: usize) -> (r: Option<IntrospectItem>) {
        if index == 0 {
            Some(item("simple1", self.simple1.introspect_value(), self.simple1.introspect_len()))
        } else {
            if index == 1 {
                Some(item("simple2", self.simple2.introspect_value(), self.simple2.introspect_len()))
            } else {
                if index == 2 {
                    Some(item("an_int", self.an_int.introspect_value(), self.an_int.introspect_len()))
                } else {
                    None
                }
            }
        }
    }
}

impl Introspect for StructWithName {
    open spec fn shown(&self) -> Seq<char> {
        self.name@
    }

    open spec fn child_count(&self) -> nat {
        2
    }

    open spec fn child_key(&self, i: int) -> Seq<char> {
        if i == 0 { "name"@ } else { if i == 1 { "value"@ } else { Seq::empty() } }
    }

    open spec fn child_shown(&self, i: int) -> Seq<char> {
        if i == 0 { self.name.shown() } else { if i == 1 { self.value.shown() } else { Seq::empty() } }
    }

    open spec fn child_child_count(&self, i: int) -> nat {
        if i == 0 { self.name.child_count() } else { if i == 1 { self.value.child_count() } else { 0 } }
    }

    fn introspect_value(&self) -> (r: String) {
        self.name.clone()
    }

    fn introspect_len(&self) -> (r: usize) {
        2
    }

    fn introspect_child(&self, index: usize) -> (r: Option<IntrospectItem>) {
        if index == 0 {
            Some(item("name", self.name.introspect_value(), self.name.introspect_len()))
        } else {
            if index == 1 {
                Some(item("value", self.value.introspect_value(), self.value.introspect_len()))
            } else {
                None
            }
        }
    }
}

impl Introspect for EnumWithName {
    open spec fn shown(&self) -> Seq<char> {
        match self {
            EnumWithName::Variant1(v0) => v0@,
            EnumWithName::Variant2 { name, value } => name@,
            EnumWithName::Variant3 => "EnumWithName::Variant3"@,
        }
    }

    open spec fn child_count(&self) -> nat {
        match self {
            EnumWithName::Variant1(v0) => 1,
            EnumWithName::Variant2 { name, value } => 2,
            EnumWithName::Variant3 => 0,
        }
    }

    open spec fn child_key(&self, i: int) -> Seq<char> {
        match self {
            EnumWithName::Variant1(v0) => if i == 0 { "0"@ } else { Seq::empty() },
            EnumWithName::Variant2 { name, value } => if i == 0 { "name"@ } else { if i == 1 { "value"@ } else { Seq::empty() } },
            EnumWithName::Variant3 => Seq::empty(),
        }
    }

    open spec fn child_shown(&self, i: int) -> Seq<char> {
        match self {
            EnumWithName::Variant1(v0) => if i == 0 { v0.shown() } else { Seq::empty() },
            EnumWithName::Variant2 { name, value } => if i == 0 { name.shown() } else { if i == 1 { value.shown() } else { Seq::empty() } },
            EnumWithName::Variant3 => Seq::empty(),
        }
    }

    open spec fn child_child_count(&self, i: int) -> nat {
        match self {
            EnumWithName::Variant1(v0) => if i == 0 { v0.child_count() } else { 0 },
            EnumWithName::Variant2 { name, value } => if i == 0 { name.child_count() } else { if i == 1 { value.child_count() } else { 0 } },
            EnumWithName::Variant3 => 0,
        }
    }

    fn introspect_value(&self) -> (r: String) {
        match self {
            EnumWithName::Variant1(v0) => v0.clone(),
            EnumWithName::Variant2 { name, value } => name.clone(),
            EnumWithName::Variant3 => String::from_str("EnumWithName::Variant3"),
        }
    }

    fn introspect_len(&self) -> (r: usize) {
        match self {
            EnumWithName::Variant1(v0) => 1,
            EnumWithName::Variant2 { name, value } => 2,
            EnumWithName::Variant3 => 0,
        }
    }

    fn introspect_child(&self, index: usize) -> (r: Option<IntrospectItem>) {
        match self {
            EnumWithName::Variant1(v0) => if index == 0 { Some(item("0", v0.introspect_value(), v0.introspect_len())) } else { None },
            EnumWithName::Variant2 { name, value } => if index == 0 { Some(item("name", name.introspect_value(), name.introspect_len())) } else { if index == 1 { Some(item("value", value.introspect_value(), value.introspect_len())) } else { None } },
            EnumWithName::Variant3 => None,
        }
    }
}

} // verus!
