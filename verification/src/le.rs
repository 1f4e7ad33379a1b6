//! Little-endian encoding of unsigned integers.
use vstd::prelude::*;

verus! {

/// 256 to the power of `n`.
pub open spec fn pow256(n: nat) -> nat
    decreases n,
{
    if n == 0 {
        1
    } else {
        256 * pow256((n - 1) as nat)
    }
}

/// The `n` least significant bytes of `x`, least significant first.
pub open spec fn le_bytes(x: nat, n: nat) -> Seq<u8>
    decreases n,
{
    if n == 0 {
        Seq::empty()
    } else {
        seq![(x % 256) as u8] + le_bytes(x / 256, (n - 1) as nat)
    }
}

/// The number whose little-endian bytes are `s`.
pub open spec fn le_value(s: Seq<u8>) -> nat
    decreases s.len(),
{
    if s.len() == 0 {
        0
    } else {
        s[0] as nat + 256 * le_value(s.drop_first())
    }
}

pub proof fn lemma_pow256_positive(n: nat)
    ensures
        pow256(n) >= 1,
    decreases n,
{
    if n > 0 {
        lemma_pow256_positive((n - 1) as nat);
    }
}

pub proof fn lemma_le_bytes_len(x: nat, n: nat)
    ensures
        le_bytes(x, n).len() == n,
    decreases n,
{
    if n > 0 {
        lemma_le_bytes_len(x / 256, (n - 1) as nat);
    }
}

/// Decoding the `n`-byte little-endian encoding of `x < 256^n` gives `x` back.
pub proof fn lemma_le_roundtrip(x: nat, n: nat)
    requires
        x < pow256(n),
    ensures
        le_bytes(x, n).len() == n,
        le_value(le_bytes(x, n)) == x,
    decreases n,
{
    lemma_le_bytes_len(x, n);
    if n > 0 {
        let m = (n - 1) as nat;
        assert(x / 256 < pow256(m)) by (nonlinear_arith)
            requires
                x < 256 * pow256(m),
        ;
        lemma_le_roundtrip(x / 256, m);
        let s = le_bytes(x, n);
        assert(s.drop_first() =~= le_bytes(x / 256, m));
        assert(x == x % 256 + 256 * (x / 256)) by (nonlinear_arith);
    }
}

/// Any `n` bytes decode to a number below `256^n`.
pub proof fn lemma_le_value_bound(s: Seq<u8>)
    ensures
        le_value(s) < pow256(s.len()),
    decreases s.len(),
{
    if s.len() > 0 {
        lemma_le_value_bound(s.drop_first());
        let v = le_value(s.drop_first());
        let p = pow256((s.len() - 1) as nat);
        assert(s[0] as nat + 256 * v < 256 * p) by (nonlinear_arith)
            requires
                v < p,
                s[0] < 256,
        ;
    }
}

/// Encoding a decoded byte sequence gives the same bytes.
pub proof fn lemma_le_canonical(s: Seq<u8>)
    ensures
        le_bytes(le_value(s), s.len()) == s,
    decreases s.len(),
{
    if s.len() > 0 {
        lemma_le_canonical(s.drop_first());
        let v = le_value(s);
        let t = le_value(s.drop_first());
        assert(v % 256 == s[0] as nat && v / 256 == t) by (nonlinear_arith)
            requires
                v == s[0] as nat + 256 * t,
                s[0] < 256,
        ;
        assert(le_bytes(v, s.len()) =~= s);
    }
}

/// Appending one more byte to a prefix of the encoding.
pub proof fn lemma_le_bytes_snoc(x: nat, i: nat)
    ensures
        le_bytes(x, i + 1) == le_bytes(x, i) + seq![((x / pow256(i)) % 256) as u8],
    decreases i,
{
    if i == 0 {
        assert(x / 1 == x);
        assert(le_bytes(x, 1) =~= seq![(x % 256) as u8] + le_bytes(x / 256, 0));
        assert(le_bytes(x, 0) + seq![((x / pow256(0)) % 256) as u8] =~= seq![(x % 256) as u8]);
    } else {
        lemma_le_bytes_snoc(x / 256, (i - 1) as nat);
        lemma_pow256_positive((i - 1) as nat);
        let p = pow256((i - 1) as nat);
        assert((x / 256) / p == x / (256 * p)) by {
            vstd::arithmetic::div_mod::lemma_div_denominator(x as int, 256, p as int);
        }
        assert(le_bytes(x, i + 1) =~= le_bytes(x, i) + seq![((x / pow256(i)) % 256) as u8]);
    }
}

/// Appends the `n`-byte little-endian encoding of `x` to `out`.
pub fn push_le(out: &mut Vec<u8>, x: u64, n: usize)
    requires
        n <= 8,
        x < pow256(n as nat),
    ensures
        final(out)@ == old(out)@ + le_bytes(x as nat, n as nat),
{
    let ghost start = old(out)@;
    let mut v: u64 = x;
    let mut i: usize = 0;
    assert(pow256(0) == 1);
    assert(x as nat / 1 == x as nat);
    while i < n
        invariant
            i <= n,
            n <= 8,
            out@ == start + le_bytes(x as nat, i as nat),
            v == x as nat / pow256(i as nat),
        decreases n - i,
    {
        proof {
            lemma_le_bytes_snoc(x as nat, i as nat);
            lemma_pow256_positive(i as nat);
            vstd::arithmetic::div_mod::lemma_div_denominator(x as int, pow256(i as nat) as int, 256);
            assert(pow256(i as nat) * 256 == pow256((i + 1) as nat)) by (nonlinear_arith)
                requires pow256((i + 1) as nat) == 256 * pow256(i as nat);
        }
        out.push((v % 256) as u8);
        v = v / 256;
        i = i + 1;
        assert(out@ =~= start + le_bytes(x as nat, i as nat));
    }
}

/// Reads the `n`-byte little-endian number stored at `pos`.
pub fn read_le(data: &[u8], pos: usize, n: usize) -> (r: u64)
    requires
        n <= 8,
        pos + n <= data@.len(),
    ensures
        r as nat == le_value(data@.subrange(pos as int, pos + n)),
{
    let mut v: u64 = 0;
    let mut i: usize = n;
    proof {
        assert(data@.subrange(pos + n, pos + n) =~= Seq::<u8>::empty());
    }
    while i > 0
        invariant
            i <= n,
            n <= 8,
            pos + n <= data@.len(),
            v as nat == le_value(data@.subrange(pos + i, pos + n)),
        decreases i,
    {
        let ghost tail = data@.subrange(pos + i, pos + n);
        proof {
            lemma_le_value_bound(tail);
            assert(pow256(tail.len()) <= pow256(7)) by {
                lemma_pow256_mono(tail.len(), 7);
            }
            reveal_with_fuel(pow256, 8);
            assert(pow256(7) == 72057594037927936);
        }
        i = i - 1;
        assert(data@.len() == data.len());
        let b = data[pos + i];
        let ghost s = data@.subrange(pos + i, pos + n);
        assert(s.drop_first() =~= tail);
        v = v * 256 + b as u64;
    }
    v
}

pub proof fn lemma_pow256_mono(a: nat, b: nat)
    requires
        a <= b,
    ensures
        pow256(a) <= pow256(b),
    decreases b,
{
    if a < b {
        lemma_pow256_mono(a, (b - 1) as nat);
        lemma_pow256_positive((b - 1) as nat);
    }
}

} // verus!
