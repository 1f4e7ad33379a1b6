//! Whether a type is laid out in memory exactly as it is saved: its fields back
//! to back, in order, with no padding, so that its bytes could be copied as they are.
use vstd::prelude::*;

verus! {

/// The answer to whether a type is laid out without padding.
#[derive(Debug, Clone, Copy, PartialEq, Eq)]
pub struct IsPacked {
    pub packed: bool,
}

impl IsPacked {
    /// The type is laid out without padding.
    pub fn yes() -> (r: IsPacked)
        ensures
            r.packed,
    {
        IsPacked { packed: true }
    }

    /// The type is not laid out without padding.
    pub fn no() -> (r: IsPacked)
        ensures
            !r.packed,
    {
        IsPacked { packed: false }
    }

    /// Whether the answer is yes.
    pub fn is_yes(&self) -> (r: bool)
        ensures
            r == self.packed,
    {
        self.packed
    }

    /// Whether the answer is no.
    pub fn is_false(&self) -> (r: bool)
        ensures
            r == !self.packed,
    {
        !self.packed
    }
}

/// The size and alignment of a type laid out without padding, if it is.
pub type Layout = Option<(nat, nat)>;

/// Where the next of a run of fields starts and the run's widest alignment so
/// far, while the run has been without padding; sizes that do not fit in 64
/// bits are not treated as packed.
pub open spec fn place(acc: Option<(nat, nat)>, field: Layout) -> Option<(nat, nat)> {
    match (acc, field) {
        (Some((end, align)), Some((size, a))) => if a > 0 && end % a == 0 && end + size <= u64::MAX {
            Some((end + size, if a > align {
                a
            } else {
                align
            }))
        } else {
            None
        },
        _ => None,
    }
}

/// The layout of a record whose fields have the given layouts, starting with
/// `start` bytes already placed: without padding exactly when each field starts
/// where the previous one ends, aligned for itself, and the total is a multiple
/// of the widest alignment.
pub open spec fn record_layout(fields: Seq<Layout>, start: (nat, nat)) -> Layout
    decreases fields.len(),
{
    if fields.len() == 0 {
        if start.1 > 0 && start.0 % start.1 == 0 {
            Some(start)
        } else {
            None
        }
    } else {
        match place(Some(start), fields[0]) {
            Some(next) => record_layout(fields.drop_first(), next),
            None => None,
        }
    }
}

/// The layout of an enum whose variants, each with its discriminant, have the
/// given layouts: without padding when every variant is; as large as its
/// largest variant, and aligned for its most aligned one.
pub open spec fn enum_layout(variants: Seq<Layout>) -> Layout
    decreases variants.len(),
{
    if variants.len() == 0 {
        Some((0, 1))
    } else {
        match (variants[0], enum_layout(variants.drop_first())) {
            (Some((s, a)), Some((s2, a2))) => Some((if s >= s2 {
                s
            } else {
                s2
            }, if a >= a2 {
                a
            } else {
                a2
            })),
            _ => None,
        }
    }
}

/// Adds a variant to the layout of the enum's other variants.
pub fn combine_variant(v: Option<(u64, u64)>, rest: Option<(u64, u64)>) -> (r: Option<(u64, u64)>)
    ensures
        match (v, rest) {
            (Some((s, a)), Some((s2, a2))) => r == Some((if s >= s2 {
                s
            } else {
                s2
            }, if a >= a2 {
                a
            } else {
                a2
            })),
            _ => r is None,
        },
{
    match (v, rest) {
        (Some((s, a)), Some((s2, a2))) => Some((if s >= s2 {
            s
        } else {
            s2
        }, if a >= a2 {
            a
        } else {
            a2
        })),
        _ => None,
    }
}

/// A type that can tell whether it is laid out without padding.
pub trait Packed {
    /// The size and alignment of the type in data version `version`, if it is
    /// laid out without padding there.
    spec fn packed_layout(version: u32) -> Layout;

    /// The size and alignment, if the type is laid out without padding.
    fn layout(version: u32) -> (r: Option<(u64, u64)>)
        ensures
            match Self::packed_layout(version) {
                Some((s, a)) => r == Some((s as u64, a as u64)) && s <= u64::MAX && a <= u64::MAX,
                None => r is None,
            },
    ;

    /// Whether the type is laid out without padding in data version `version`.
    fn repr_c_optimization_safe(version: u32) -> (r: IsPacked)
        ensures
            r.packed == Self::packed_layout(version) is Some,
    {
        match Self::layout(version) {
            Some(_) => IsPacked::yes(),
            None => IsPacked::no(),
        }
    }
}

/// Places a field after a run of fields; `None` where that leaves padding or
/// the sizes overflow.
pub fn place_field(acc: Option<(u64, u64)>, field: Option<(u64, u64)>) -> (r: Option<(u64, u64)>)
    ensures
        match (acc, field) {
            (Some((e, al)), Some((s, a))) => match place(Some((e as nat, al as nat)), Some((s as nat, a as nat))) {
                Some((e2, a2)) => r == Some((e2 as u64, a2 as u64)),
                None => r is None,
            },
            _ => r is None,
        },
{
    match (acc, field) {
        (Some((end, align)), Some((size, a))) => {
            if a > 0 && end % a == 0 {
                match end.checked_add(size) {
                    Some(e2) => Some((e2, if a > align {
                        a
                    } else {
                        align
                    })),
                    None => None,
                }
            } else {
                None
            }
        },
        _ => None,
    }
}

/// Closes a run of fields: the run is a record without padding if its total is
/// a multiple of its widest alignment.
pub fn close_record(acc: Option<(u64, u64)>) -> (r: Option<(u64, u64)>)
    ensures
        match acc {
            Some((e, a)) => if a > 0 && e % a == 0 {
                r == acc
            } else {
                r is None
            },
            None => r is None,
        },
{
    match acc {
        Some((end, align)) => if align > 0 && end % align == 0 {
            acc
        } else {
            None
        },
        None => None,
    }
}

/// The layout of a number type of `n` bytes, aligned to `n`.
pub open spec fn number_layout(n: nat) -> Layout {
    Some((n, n))
}

impl Packed for u8 {
    open spec fn packed_layout(version: u32) -> Layout {
        number_layout(1)
    }

    fn layout(version: u32) -> (r: Option<(u64, u64)>) {
        Some((1, 1))
    }
}

impl Packed for i8 {
    open spec fn packed_layout(version: u32) -> Layout {
        number_layout(1)
    }

    fn layout(version: u32) -> (r: Option<(u64, u64)>) {
        Some((1, 1))
    }
}

impl Packed for u16 {
    open spec fn packed_layout(version: u32) -> Layout {
        number_layout(2)
    }

    fn layout(version: u32) -> (r: Option<(u64, u64)>) {
        Some((2, 2))
    }
}

impl Packed for i16 {
    open spec fn packed_layout(version: u32) -> Layout {
        number_layout(2)
    }

    fn layout(version: u32) -> (r: Option<(u64, u64)>) {
        Some((2, 2))
    }
}

impl Packed for u32 {
    open spec fn packed_layout(version: u32) -> Layout {
        number_layout(4)
    }

    fn layout(version: u32) -> (r: Option<(u64, u64)>) {
        Some((4, 4))
    }
}

impl Packed for i32 {
    open spec fn packed_layout(version: u32) -> Layout {
        number_layout(4)
    }

    fn layout(version: u32) -> (r: Option<(u64, u64)>) {
        Some((4, 4))
    }
}

impl Packed for u64 {
    open spec fn packed_layout(version: u32) -> Layout {
        number_layout(8)
    }

    fn layout(version: u32) -> (r: Option<(u64, u64)>) {
        Some((8, 8))
    }
}

impl Packed for i64 {
    open spec fn packed_layout(version: u32) -> Layout {
        number_layout(8)
    }

    fn layout(version: u32) -> (r: Option<(u64, u64)>) {
        Some((8, 8))
    }
}

impl Packed for usize {
    /// Its width differs between platforms, so it is never treated as packed.
    open spec fn packed_layout(version: u32) -> Layout {
        None
    }

    fn layout(version: u32) -> (r: Option<(u64, u64)>) {
        None
    }
}

impl Packed for isize {
    /// Its width differs between platforms, so it is never treated as packed.
    open spec fn packed_layout(version: u32) -> Layout {
        None
    }

    fn layout(version: u32) -> (r: Option<(u64, u64)>) {
        None
    }
}

impl Packed for () {
    /// No bytes at all.
    open spec fn packed_layout(version: u32) -> Layout {
        Some((0, 1))
    }

    fn layout(version: u32) -> (r: Option<(u64, u64)>) {
        Some((0, 1))
    }
}

impl<A: Packed> Packed for (A,) {
    open spec fn packed_layout(version: u32) -> Layout {
        record_layout(seq![A::packed_layout(version)], (0, 1))
    }

    fn layout(version: u32) -> (r: Option<(u64, u64)>) {
        let acc = place_field(Some((0, 1)), A::layout(version));
        proof {
            reveal_with_fuel(record_layout, 2);
        }
        close_record(acc)
    }
}

impl<A: Packed, B: Packed> Packed for (A, B) {
    open spec fn packed_layout(version: u32) -> Layout {
        record_layout(seq![A::packed_layout(version), B::packed_layout(version)], (0, 1))
    }

    fn layout(version: u32) -> (r: Option<(u64, u64)>) {
        let acc = place_field(Some((0, 1)), A::layout(version));
        let acc = place_field(acc, B::layout(version));
        proof {
            let s = seq![A::packed_layout(version), B::packed_layout(version)];
            assert(s.drop_first() =~= seq![B::packed_layout(version)]);
            assert(s.drop_first().drop_first() =~= Seq::<Layout>::empty());
            reveal_with_fuel(record_layout, 3);
        }
        close_record(acc)
    }
}

impl<A: Packed, B: Packed, C: Packed> Packed for (A, B, C) {
    open spec fn packed_layout(version: u32) -> Layout {
        record_layout(
            seq![A::packed_layout(version), B::packed_layout(version), C::packed_layout(version)],
            (0, 1),
        )
    }

    fn layout(version: u32) -> (r: Option<(u64, u64)>) {
        let acc = place_field(Some((0, 1)), A::layout(version));
        let acc = place_field(acc, B::layout(version));
        let acc = place_field(acc, C::layout(version));
        proof {
            let s = seq![A::packed_layout(version), B::packed_layout(version), C::packed_layout(version)];
            assert(s.drop_first() =~= seq![B::packed_layout(version), C::packed_layout(version)]);
            assert(s.drop_first().drop_first() =~= seq![C::packed_layout(version)]);
            assert(s.drop_first().drop_first().drop_first() =~= Seq::<Layout>::empty());
            reveal_with_fuel(record_layout, 4);
        }
        close_record(acc)
    }
}

impl<A: Packed, B: Packed, C: Packed, D: Packed> Packed for (A, B, C, D) {
    open spec fn packed_layout(version: u32) -> Layout {
        record_layout(
            seq![
                A::packed_layout(version),
                B::packed_layout(version),
                C::packed_layout(version),
                D::packed_layout(version),
            ],
            (0, 1),
        )
    }

    fn layout(version: u32) -> (r: Option<(u64, u64)>) {
        let acc = place_field(Some((0, 1)), A::layout(version));
        let acc = place_field(acc, B::layout(version));
        let acc = place_field(acc, C::layout(version));
        let acc = place_field(acc, D::layout(version));
        proof {
            let s = seq![
                A::packed_layout(version),
                B::packed_layout(version),
                C::packed_layout(version),
                D::packed_layout(version),
            ];
            assert(s.drop_first() =~= seq![
                B::packed_layout(version),
                C::packed_layout(version),
                D::packed_layout(version),
            ]);
            assert(s.drop_first().drop_first() =~= seq![
                C::packed_layout(version),
                D::packed_layout(version),
            ]);
            assert(s.drop_first().drop_first().drop_first() =~= seq![D::packed_layout(version)]);
            assert(s.drop_first().drop_first().drop_first().drop_first() =~= Seq::<Layout>::empty());
            reveal_with_fuel(record_layout, 5);
        }
        close_record(acc)
    }
}

} // verus!
