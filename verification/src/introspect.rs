//! Looking into values: a text for each value, and its children by key.
use vstd::prelude::*;

verus! {

/// What a child of a value shows: its text and how many children it has.
#[derive(Debug)]
pub struct IntrospectedValue {
    pub value: String,
    pub len: usize,
}

impl IntrospectedValue {
    /// The text of the value.
    pub fn introspect_value(&self) -> (r: String)
        ensures
            r@ == self.value@,
    {
        self.value.clone()
    }

    /// The number of children of the value.
    pub fn introspect_len(&self) -> (r: usize)
        ensures
            r == self.len,
    {
        self.len
    }
}

/// A child of a value: its key and what it shows.
#[derive(Debug)]
pub struct IntrospectItem {
    pub key: String,
    pub val: IntrospectedValue,
}

impl IntrospectItem {
    /// The key of the child.
    pub fn key(&self) -> (r: &str)
        ensures
            r@ == self.key@,
    {
        self.key.as_str()
    }

    /// What the child shows.
    pub fn val(&self) -> (r: &IntrospectedValue)
        ensures
            r == &self.val,
    {
        &self.val
    }
}

/// A value that can be looked into.
pub trait Introspect {
    /// The text shown for the value.
    spec fn shown(&self) -> Seq<char>;

    /// The number of children.
    spec fn child_count(&self) -> nat;

    /// The key of child `i`.
    spec fn child_key(&self, i: int) -> Seq<char>;

    /// The text shown for child `i`.
    spec fn child_shown(&self, i: int) -> Seq<char>;

    /// The number of children of child `i`.
    spec fn child_child_count(&self, i: int) -> nat;

    /// The text shown for the value.
    fn introspect_value(&self) -> (r: String)
        ensures
            r@ == self.shown(),
    ;

    /// The number of children.
    fn introspect_len(&self) -> (r: usize)
        ensures
            r == self.child_count(),
    ;

    /// Child number `index`, if there is one.
    fn introspect_child(&self, index: usize) -> (r: Option<IntrospectItem>)
        ensures
            r is Some <==> index < self.child_count(),
            r matches Some(item) ==> item.key@ == self.child_key(index as int) && item.val.value@
                == self.child_shown(index as int) && item.val.len == self.child_child_count(
                index as int,
            ),
    ;
}

/// The digit character for `d`.
pub open spec fn digit_char(d: nat) -> char {
    if d == 0 {
        '0'
    } else if d == 1 {
        '1'
    } else if d == 2 {
        '2'
    } else if d == 3 {
        '3'
    } else if d == 4 {
        '4'
    } else if d == 5 {
        '5'
    } else if d == 6 {
        '6'
    } else if d == 7 {
        '7'
    } else if d == 8 {
        '8'
    } else {
        '9'
    }
}

/// The decimal digits of `n`, most significant first, with no leading zeros.
pub open spec fn decimal(n: nat) -> Seq<char>
    decreases n,
{
    if n < 10 {
        seq![digit_char(n)]
    } else {
        decimal(n / 10).push(digit_char(n % 10))
    }
}

/// The decimal text of `n`, with a minus sign in front of a negative number.
pub open spec fn signed_decimal(n: int) -> Seq<char> {
    if n < 0 {
        seq!['-'] + decimal((-n) as nat)
    } else {
        decimal(n as nat)
    }
}

fn digit_str(d: u64) -> (r: &'static str)
    requires
        d < 10,
    ensures
        r@ == seq![digit_char(d as nat)],
{
    if d == 0 {
        proof {
            reveal_strlit("0");
        }
        "0"
    } else if d == 1 {
        proof {
            reveal_strlit("1");
        }
        "1"
    } else if d == 2 {
        proof {
            reveal_strlit("2");
        }
        "2"
    } else if d == 3 {
        proof {
            reveal_strlit("3");
        }
        "3"
    } else if d == 4 {
        proof {
            reveal_strlit("4");
        }
        "4"
    } else if d == 5 {
        proof {
            reveal_strlit("5");
        }
        "5"
    } else if d == 6 {
        proof {
            reveal_strlit("6");
        }
        "6"
    } else if d == 7 {
        proof {
            reveal_strlit("7");
        }
        "7"
    } else if d == 8 {
        proof {
            reveal_strlit("8");
        }
        "8"
    } else {
        proof {
            reveal_strlit("9");
        }
        "9"
    }
}

/// The decimal text of `n`.
pub fn to_decimal(n: u64) -> (r: String)
    ensures
        r@ == decimal(n as nat),
    decreases n,
{
    if n < 10 {
        let mut s = String::new();
        s.append(digit_str(n));
        assert(s@ =~= decimal(n as nat));
        s
    } else {
        let mut s = to_decimal(n / 10);
        s.append(digit_str(n % 10));
        s
    }
}

/// The decimal text of `n`, with a minus sign in front of a negative number.
pub fn to_signed_decimal(n: i64) -> (r: String)
    ensures
        r@ == signed_decimal(n as int),
{
    if n < 0 {
        let magnitude: u64 = if n == i64::MIN {
            0x8000_0000_0000_0000u64
        } else {
            (-n) as u64
        };
        let mut s = String::from_str("-");
        proof {
            reveal_strlit("-");
        }
        let digits = to_decimal(magnitude);
        s.append(digits.as_str());
        s
    } else {
        to_decimal(n as u64)
    }
}

/// What a child with text `value` and `len` children shows.
pub fn item(key: &str, value: String, len: usize) -> (r: IntrospectItem)
    ensures
        r.key@ == key@,
        r.val.value@ == value@,
        r.val.len == len,
{
    IntrospectItem { key: String::from_str(key), val: IntrospectedValue { value, len } }
}

impl Introspect for u8 {
    open spec fn shown(&self) -> Seq<char> {
        decimal(*self as nat)
    }

    open spec fn child_count(&self) -> nat {
        0
    }

    open spec fn child_key(&self, i: int) -> Seq<char> {
        Seq::empty()
    }

    open spec fn child_shown(&self, i: int) -> Seq<char> {
        Seq::empty()
    }

    open spec fn child_child_count(&self, i: int) -> nat {
        0
    }

    fn introspect_value(&self) -> (r: String) {
        to_decimal(*self as u64)
    }

    fn introspect_len(&self) -> (r: usize) {
        0
    }

    fn introspect_child(&self, index: usize) -> (r: Option<IntrospectItem>) {
        None
    }
}

impl Introspect for u16 {
    open spec fn shown(&self) -> Seq<char> {
        decimal(*self as nat)
    }

    open spec fn child_count(&self) -> nat {
        0
    }

    open spec fn child_key(&self, i: int) -> Seq<char> {
        Seq::empty()
    }

    open spec fn child_shown(&self, i: int) -> Seq<char> {
        Seq::empty()
    }

    open spec fn child_child_count(&self, i: int) -> nat {
        0
    }

    fn introspect_value(&self) -> (r: String) {
        to_decimal(*self as u64)
    }

    fn introspect_len(&self) -> (r: usize) {
        0
    }

    fn introspect_child(&self, index: usize) -> (r: Option<IntrospectItem>) {
        None
    }
}

impl Introspect for u32 {
    open spec fn shown(&self) -> Seq<char> {
        decimal(*self as nat)
    }

    open spec fn child_count(&self) -> nat {
        0
    }

    open spec fn child_key(&self, i: int) -> Seq<char> {
        Seq::empty()
    }

    open spec fn child_shown(&self, i: int) -> Seq<char> {
        Seq::empty()
    }

    open spec fn child_child_count(&self, i: int) -> nat {
        0
    }

    fn introspect_value(&self) -> (r: String) {
        to_decimal(*self as u64)
    }

    fn introspect_len(&self) -> (r: usize) {
        0
    }

    fn introspect_child(&self, index: usize) -> (r: Option<IntrospectItem>) {
        None
    }
}

impl Introspect for i8 {
    open spec fn shown(&self) -> Seq<char> {
        signed_decimal(*self as int)
    }

    open spec fn child_count(&self) -> nat {
        0
    }

    open spec fn child_key(&self, i: int) -> Seq<char> {
        Seq::empty()
    }

    open spec fn child_shown(&self, i: int) -> Seq<char> {
        Seq::empty()
    }

    open spec fn child_child_count(&self, i: int) -> nat {
        0
    }

    fn introspect_value(&self) -> (r: String) {
        to_signed_decimal(*self as i64)
    }

    fn introspect_len(&self) -> (r: usize) {
        0
    }

    fn introspect_child(&self, index: usize) -> (r: Option<IntrospectItem>) {
        None
    }
}

impl Introspect for i32 {
    open spec fn shown(&self) -> Seq<char> {
        signed_decimal(*self as int)
    }

    open spec fn child_count(&self) -> nat {
        0
    }

    open spec fn child_key(&self, i: int) -> Seq<char> {
        Seq::empty()
    }

    open spec fn child_shown(&self, i: int) -> Seq<char> {
        Seq::empty()
    }

    open spec fn child_child_count(&self, i: int) -> nat {
        0
    }

    fn introspect_value(&self) -> (r: String) {
        to_signed_decimal(*self as i64)
    }

    fn introspect_len(&self) -> (r: usize) {
        0
    }

    fn introspect_child(&self, index: usize) -> (r: Option<IntrospectItem>) {
        None
    }
}

impl Introspect for String {
    open spec fn shown(&self) -> Seq<char> {
        self@
    }

    open spec fn child_count(&self) -> nat {
        0
    }

    open spec fn child_key(&self, i: int) -> Seq<char> {
        Seq::empty()
    }

    open spec fn child_shown(&self, i: int) -> Seq<char> {
        Seq::empty()
    }

    open spec fn child_child_count(&self, i: int) -> nat {
        0
    }

    fn introspect_value(&self) -> (r: String) {
        self.clone()
    }

    fn introspect_len(&self) -> (r: usize) {
        0
    }

    fn introspect_child(&self, index: usize) -> (r: Option<IntrospectItem>) {
        None
    }
}

} // verus!
