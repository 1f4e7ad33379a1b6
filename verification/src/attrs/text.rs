//! The pieces of text the attribute readers look at: white space, decimal
//! numbers, and the `..` and `:` that separate the parts of a version tag.
use vstd::prelude::*;

verus! {

/// Whether `c` has the Unicode `White_Space` property, which is what
/// trimming a string removes.
pub open spec fn is_white_space(c: char) -> bool {
    let n = c as u32;
    ||| 0x09 <= n <= 0x0D
    ||| n == 0x20
    ||| n == 0x85
    ||| n == 0xA0
    ||| n == 0x1680
    ||| 0x2000 <= n <= 0x200A
    ||| n == 0x2028
    ||| n == 0x2029
    ||| n == 0x202F
    ||| n == 0x205F
    ||| n == 0x3000
}

/// Whether `s` is empty once trimmed: all of it is white space.
pub open spec fn is_blank(s: Seq<char>) -> bool {
    forall|i: int| 0 <= i < s.len() ==> is_white_space(#[trigger] s[i])
}

/// Whether `c` is one of the ASCII digits.
pub open spec fn is_digit(c: char) -> bool {
    '0' <= c <= '9'
}

/// Whether every character of `s` is a digit.
pub open spec fn all_digits(s: Seq<char>) -> bool {
    forall|i: int| 0 <= i < s.len() ==> is_digit(#[trigger] s[i])
}

/// The value of the digit `c`.
pub open spec fn digit_value(c: char) -> nat {
    (c as u32 - '0' as u32) as nat
}

/// The number the digits of `s` spell, most significant first.
pub open spec fn digits_value(s: Seq<char>) -> nat
    decreases s.len(),
{
    if s.len() == 0 {
        0
    } else {
        digits_value(s.drop_last()) * 10 + digit_value(s.last())
    }
}

/// What reading `s` as an unsigned decimal number no larger than `max` gives:
/// an optional `+`, then one or more digits. This is how the standard library
/// parses unsigned integers.
pub open spec fn parse_unsigned(s: Seq<char>, max: nat) -> Option<nat> {
    let d = if s.len() > 0 && s[0] == '+' {
        s.drop_first()
    } else {
        s
    };
    if d.len() > 0 && all_digits(d) && digits_value(d) <= max {
        Some(digits_value(d))
    } else {
        None
    }
}

/// A prefix of a run of digits is worth no more than the whole run.
pub proof fn lemma_digits_prefix(s: Seq<char>, k: int)
    requires
        0 <= k <= s.len(),
        all_digits(s),
    ensures
        digits_value(s.take(k)) <= digits_value(s),
    decreases s.len(),
{
    if k < s.len() {
        assert(s.drop_last().take(k) =~= s.take(k));
        lemma_digits_prefix(s.drop_last(), k);
    } else {
        assert(s.take(k) =~= s);
    }
}

/// Whether characters `lo` to `hi` of `s` are all white space.
pub fn blank_between(s: &str, lo: usize, hi: usize) -> (r: bool)
    requires
        lo <= hi <= s@.len(),
    ensures
        r == is_blank(s@.subrange(lo as int, hi as int)),
{
    let ghost t = s@.subrange(lo as int, hi as int);
    let mut i: usize = lo;
    while i < hi
        invariant
            lo <= i <= hi <= s@.len(),
            t == s@.subrange(lo as int, hi as int),
            forall|j: int| 0 <= j < i - lo ==> is_white_space(#[trigger] t[j]),
        decreases hi - i,
    {
        let c = s.get_char(i);
        let n = c as u32;
        let w = (0x09 <= n && n <= 0x0D) || n == 0x20 || n == 0x85 || n == 0xA0 || n == 0x1680 || (
        0x2000 <= n && n <= 0x200A) || n == 0x2028 || n == 0x2029 || n == 0x202F || n == 0x205F
            || n == 0x3000;
        assert(t[i - lo] == c);
        if !w {
            return false;
        }
        i = i + 1;
    }
    true
}

/// Reads characters `lo` to `hi` of `s` as an unsigned decimal number no larger than `max`.
#[verifier::spinoff_prover]
pub fn parse_unsigned_between(s: &str, lo: usize, hi: usize, max: u64) -> (r: Option<u64>)
    requires
        lo <= hi <= s@.len(),
    ensures
        match parse_unsigned(s@.subrange(lo as int, hi as int), max as nat) {
            Some(v) => r == Some(v as u64),
            None => r is None,
        },
{
    let ghost t = s@.subrange(lo as int, hi as int);
    let mut start: usize = lo;
    if lo < hi && s.get_char(lo) == '+' {
        start = lo + 1;
    }
    let ghost d = s@.subrange(start as int, hi as int);
    assert(d =~= (if t.len() > 0 && t[0] == '+' {
        t.drop_first()
    } else {
        t
    }));
    if start == hi {
        return None;
    }
    let mut acc: u64 = 0;
    let mut i: usize = start;
    while i < hi
        invariant
            lo <= start <= i <= hi <= s@.len(),
            d == s@.subrange(start as int, hi as int),
            t == s@.subrange(lo as int, hi as int),
            d == (if t.len() > 0 && t[0] == '+' {
                t.drop_first()
            } else {
                t
            }),
            acc as nat == digits_value(d.take(i - start)),
            all_digits(d.take(i - start)),
            acc <= max,
        decreases hi - i,
    {
        let c = s.get_char(i);
        assert(d[i - start] == c);
        if !('0' <= c && c <= '9') {
            assert(!is_digit(d[i - start]));
            return None;
        }
        let dv = (c as u32 - '0' as u32) as u64;
        assert(d.take(i + 1 - start).drop_last() =~= d.take(i - start));
        if dv > max || acc > (max - dv) / 10 {
            assert(acc * 10 + dv > max) by (nonlinear_arith)
                requires
                    dv > max || acc > (max - dv) / 10,
            ;
            proof {
                if all_digits(d) {
                    lemma_digits_prefix(d, i + 1 - start);
                }
            }
            return None;
        }
        assert(acc * 10 + dv <= max) by (nonlinear_arith)
            requires
                acc <= (max - dv) / 10,
                dv <= max,
        ;
        acc = acc * 10 + dv;
        i = i + 1;
        assert(all_digits(d.take(i - start))) by {
            assert forall|j: int| 0 <= j < i - start implies is_digit(#[trigger] d.take(i - start)[j]) by {
                if j < i - 1 - start {
                    assert(d.take(i - start)[j] == d.take(i - 1 - start)[j]);
                }
            }
        }
    }
    assert(d.take(i - start) =~= d);
    Some(acc)
}

/// Whether `..` starts at position `i` of `s`.
pub open spec fn dots_at(s: Seq<char>, i: int) -> bool {
    0 <= i && i + 1 < s.len() && s[i] == '.' && s[i + 1] == '.'
}

/// Whether `s` splits on `..` into exactly two parts, the first `..` starting at `i`:
/// no `..` starts before `i`, and none starts in what follows it.
pub open spec fn splits_in_two_at(s: Seq<char>, i: int) -> bool {
    &&& dots_at(s, i)
    &&& forall|j: int| 0 <= j < i ==> !dots_at(s, j)
    &&& forall|j: int| i + 2 <= j ==> !dots_at(s, j)
}

/// The two sides of `s` around its one `..`, if splitting `s` on `..` gives
/// exactly two parts.
pub open spec fn split_range(s: Seq<char>) -> Option<(Seq<char>, Seq<char>)> {
    if exists|i: int| splits_in_two_at(s, i) {
        let i = choose|i: int| splits_in_two_at(s, i);
        Some((s.take(i), s.skip(i + 2)))
    } else {
        None
    }
}

/// The first position of `c` in `s` at or after `from`.
pub open spec fn find_from(s: Seq<char>, c: char, from: int) -> Option<int> {
    if exists|i: int| from <= i < s.len() && s[i] == c && forall|j: int| from <= j < i ==> s[j] != c {
        Some(choose|i: int| from <= i < s.len() && s[i] == c && forall|j: int| from <= j < i ==> s[j] != c)
    } else {
        None
    }
}

/// The parts of `s` split at its first two colons (at most three parts; the
/// last keeps any further colons).
pub open spec fn colon_parts(s: Seq<char>) -> Seq<Seq<char>> {
    match find_from(s, ':', 0) {
        None => seq![s],
        Some(p) => match find_from(s, ':', p + 1) {
            None => seq![s.take(p), s.skip(p + 1)],
            Some(q) => seq![s.take(p), s.subrange(p + 1, q), s.skip(q + 1)],
        },
    }
}

/// The first position at or after `from` among characters `lo` to `hi` of `s`
/// where `..` starts, relative to `lo`.
fn next_dots(s: &str, lo: usize, hi: usize, from: usize) -> (r: Option<usize>)
    requires
        lo <= hi <= s@.len(),
        from <= hi - lo,
    ensures
        r matches Some(i) ==> from <= i && dots_at(s@.subrange(lo as int, hi as int), i as int)
            && forall|j: int| from <= j < i ==> !dots_at(s@.subrange(lo as int, hi as int), j),
        r is None ==> forall|j: int| from <= j ==> !dots_at(s@.subrange(lo as int, hi as int), j),
{
    let ghost t = s@.subrange(lo as int, hi as int);
    let mut i: usize = from;
    while i < hi - lo && i + 1 < hi - lo
        invariant
            from <= i <= hi - lo,
            lo <= hi <= s@.len(),
            t == s@.subrange(lo as int, hi as int),
            forall|j: int| from <= j < i ==> !dots_at(t, j),
        decreases hi - lo - i,
    {
        let a = s.get_char(lo + i);
        let b = s.get_char(lo + i + 1);
        assert(t[i as int] == a && t[i + 1] == b);
        if a == '.' && b == '.' {
            return Some(i);
        }
        i = i + 1;
    }
    None
}

/// Where the one `..` of characters `lo` to `hi` of `s` starts, relative to
/// `lo`, if splitting them on `..` gives exactly two parts.
pub fn find_range_dots(s: &str, lo: usize, hi: usize) -> (r: Option<usize>)
    requires
        lo <= hi <= s@.len(),
    ensures
        match split_range(s@.subrange(lo as int, hi as int)) {
            Some(parts) => r matches Some(i) && i + 2 <= hi - lo && parts == (
                s@.subrange(lo as int, hi as int).take(i as int),
                s@.subrange(lo as int, hi as int).skip(i + 2),
            ),
            None => r is None,
        },
{
    let ghost t = s@.subrange(lo as int, hi as int);
    match next_dots(s, lo, hi, 0) {
        None => {
            assert forall|k: int| splits_in_two_at(t, k) implies false by {
                assert(dots_at(t, k));
            }
            None
        },
        Some(i) => {
            match next_dots(s, lo, hi, i + 2) {
                Some(j) => {
                    assert forall|k: int| splits_in_two_at(t, k) implies false by {
                        if k < i {
                            assert(!dots_at(t, k));
                        } else if k > i {
                            assert(!dots_at(t, i as int));
                        } else {
                            assert(!dots_at(t, j as int));
                        }
                    }
                    None
                },
                None => {
                    assert(splits_in_two_at(t, i as int));
                    proof {
                        let c = choose|c: int| splits_in_two_at(t, c);
                        if c < i {
                            assert(!dots_at(t, c));
                        } else if i < c {
                            assert(!dots_at(t, i as int));
                        }
                    }
                    Some(i)
                },
            }
        },
    }
}

/// The first position at or after `from` of `c` among characters `lo` to
/// `hi` of `s`, relative to `lo`.
pub fn find_char_from(s: &str, lo: usize, hi: usize, c: char, from: usize) -> (r: Option<usize>)
    requires
        lo <= hi <= s@.len(),
        from <= hi - lo,
    ensures
        match find_from(s@.subrange(lo as int, hi as int), c, from as int) {
            Some(p) => r == Some(p as usize),
            None => r is None,
        },
{
    let ghost t = s@.subrange(lo as int, hi as int);
    let mut i: usize = from;
    while i < hi - lo
        invariant
            from <= i <= hi - lo,
            lo <= hi <= s@.len(),
            t == s@.subrange(lo as int, hi as int),
            forall|j: int| from <= j < i ==> t[j] != c,
        decreases hi - lo - i,
    {
        let x = s.get_char(lo + i);
        assert(t[i as int] == x);
        if x == c {
            let ghost p = choose|p: int|
                from <= p < t.len() && t[p] == c && forall|j: int| from <= j < p ==> t[j] != c;
            assert(from <= i < t.len() && t[i as int] == c && forall|j: int| from <= j < i ==> t[j] != c);
            proof {
                if p < i {
                    assert(t[p] != c);
                } else if i < p {
                    assert(t[i as int] != c);
                }
            }
            return Some(i);
        }
        i = i + 1;
    }
    None
}
/// Whether `a` and `b` hold the same text.
pub fn same_text(a: &str, b: &str) -> (r: bool)
    ensures
        r == (a@ == b@),
{
    let n = a.unicode_len();
    if n != b.unicode_len() {
        return false;
    }
    let mut i: usize = 0;
    while i < n
        invariant
            i <= n,
            n == a@.len(),
            n == b@.len(),
            forall|j: int| 0 <= j < i ==> a@[j] == b@[j],
        decreases n - i,
    {
        if a.get_char(i) != b.get_char(i) {
            return false;
        }
        i = i + 1;
    }
    assert(a@ =~= b@);
    true
}

/// `s` without its leading white space.
pub open spec fn trim_start(s: Seq<char>) -> Seq<char>
    decreases s.len(),
{
    if s.len() > 0 && is_white_space(s[0]) {
        trim_start(s.drop_first())
    } else {
        s
    }
}

/// `s` without its trailing white space.
pub open spec fn trim_end(s: Seq<char>) -> Seq<char>
    decreases s.len(),
{
    if s.len() > 0 && is_white_space(s.last()) {
        trim_end(s.drop_last())
    } else {
        s
    }
}

/// `s` without white space at either end, as trimming a string gives it.
pub open spec fn trim(s: Seq<char>) -> Seq<char> {
    trim_end(trim_start(s))
}

/// The parts of `s` between the occurrences of `c`, in order; one part where
/// `c` does not occur.
pub open spec fn split_parts(s: Seq<char>, c: char) -> Seq<Seq<char>>
    decreases s.len(),
{
    match find_from(s, c, 0) {
        None => seq![s],
        Some(p) => if 0 <= p < s.len() {
            seq![s.take(p)] + split_parts(s.skip(p + 1), c)
        } else {
            seq![s]
        },
    }
}

/// Whether `c` is white space, as [`is_white_space`] says.
fn white_space(c: char) -> (r: bool)
    ensures
        r == is_white_space(c),
{
    let n = c as u32;
    (0x09 <= n && n <= 0x0D) || n == 0x20 || n == 0x85 || n == 0xA0 || n == 0x1680 || (0x2000 <= n
        && n <= 0x200A) || n == 0x2028 || n == 0x2029 || n == 0x202F || n == 0x205F || n == 0x3000
}

/// The range of characters `lo` to `hi` of `s` without white space at
/// either end.
pub fn trim_range(s: &str, lo: usize, hi: usize) -> (r: (usize, usize))
    requires
        lo <= hi <= s@.len(),
    ensures
        lo <= r.0 <= r.1 <= hi,
        s@.subrange(r.0 as int, r.1 as int) == trim(s@.subrange(lo as int, hi as int)),
{
    let mut a: usize = lo;
    while a < hi && white_space(s.get_char(a))
        invariant
            lo <= a <= hi <= s@.len(),
            trim_start(s@.subrange(lo as int, hi as int)) == trim_start(s@.subrange(a as int, hi as int)),
        decreases hi - a,
    {
        assert(s@.subrange(a as int, hi as int).drop_first() =~= s@.subrange(a + 1, hi as int));
        assert(s@.subrange(a as int, hi as int)[0] == s@[a as int]);
        a = a + 1;
    }
    if a < hi {
        assert(s@.subrange(a as int, hi as int)[0] == s@[a as int]);
    }
    let mut b: usize = hi;
    while b > a && white_space(s.get_char(b - 1))
        invariant
            lo <= a <= b <= hi <= s@.len(),
            trim_end(s@.subrange(a as int, hi as int)) == trim_end(s@.subrange(a as int, b as int)),
        decreases b - a,
    {
        assert(s@.subrange(a as int, b as int).drop_last() =~= s@.subrange(a as int, b - 1));
        assert(s@.subrange(a as int, b as int).last() == s@[b - 1]);
        b = b - 1;
    }
    if b > a {
        assert(s@.subrange(a as int, b as int).last() == s@[b - 1]);
    }
    (a, b)
}

/// Whether characters `lo` to `hi` of `s` are the text `t`.
pub fn range_is(s: &str, lo: usize, hi: usize, t: &str) -> (r: bool)
    requires
        lo <= hi <= s@.len(),
    ensures
        r == (s@.subrange(lo as int, hi as int) == t@),
{
    let n = t.unicode_len();
    if hi - lo != n {
        return false;
    }
    let mut i: usize = 0;
    while i < n
        invariant
            i <= n,
            n == t@.len(),
            hi - lo == n,
            lo <= hi <= s@.len(),
            forall|j: int| 0 <= j < i ==> s@[lo + j] == t@[j],
        decreases n - i,
    {
        if s.get_char(lo + i) != t.get_char(i) {
            assert(s@.subrange(lo as int, hi as int)[i as int] != t@[i as int]);
            return false;
        }
        i = i + 1;
    }
    assert(s@.subrange(lo as int, hi as int) =~= t@);
    true
}

} // verus!
