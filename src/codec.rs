use vstd::prelude::*;

verus! {

/// `256^k`.
pub open spec fn pow256(k: nat) -> nat
    decreases k,
{
    if k == 0 {
        1
    } else {
        256 * pow256((k - 1) as nat)
    }
}

/// The `n` low-order bytes of `v`, least significant first.
pub open spec fn le_bytes(v: nat, n: nat) -> Seq<u8>
    decreases n,
{
    if n == 0 {
        seq![]
    } else {
        seq![(v % 256) as u8].add(le_bytes(v / 256, (n - 1) as nat))
    }
}

/// The number whose little-endian bytes are `s`.
pub open spec fn from_le(s: Seq<u8>) -> nat
    decreases s.len(),
{
    if s.len() == 0 {
        0
    } else {
        s[0] as nat + 256 * from_le(s.drop_first())
    }
}

pub proof fn lemma_pow256_mono(a: nat, b: nat)
    requires
        a <= b,
    ensures
        pow256(a) <= pow256(b),
    decreases b,
{
    if a < b {
        lemma_pow256_mono(a, (b - 1) as nat);
    }
}

pub proof fn lemma_from_le_bound(s: Seq<u8>)
    ensures
        from_le(s) < pow256(s.len()),
    decreases s.len(),
{
    if s.len() > 0 {
        let r = s.drop_first();
        lemma_from_le_bound(r);
        let x = from_le(r);
        let p = pow256(r.len());
        let b = s[0] as nat;
        assert(b + 256 * x < 256 * p) by (nonlinear_arith)
            requires
                b < 256,
                x < p,
        ;
    }
}

/// Decoding the `n` little-endian bytes of `v` gives `v` back when it fits.
pub proof fn lemma_from_le_of_le_bytes(v: nat, n: nat)
    requires
        v < pow256(n),
    ensures
        from_le(le_bytes(v, n)) == v,
        le_bytes(v, n).len() == n,
    decreases n,
{
    if n > 0 {
        let q = v / 256;
        assert(q < pow256((n - 1) as nat)) by (nonlinear_arith)
            requires
                v < 256 * pow256((n - 1) as nat),
                q == v / 256,
        ;
        lemma_from_le_of_le_bytes(q, (n - 1) as nat);
        let s = le_bytes(v, n);
        assert(s.drop_first() =~= le_bytes(q, (n - 1) as nat));
        assert(v == v % 256 + 256 * q) by (nonlinear_arith)
            requires
                q == v / 256,
        ;
    }
}

/// Appends the `n` low-order bytes of `v` to `out`, least significant first.
pub fn push_le(out: &mut Vec<u8>, v: u128, n: usize)
    requires
        n <= 16,
    ensures
        final(out)@ == old(out)@ + le_bytes(v as nat, n as nat),
{
    let mut x: u128 = v;
    let mut i: usize = 0;
    while i < n
        invariant
            i <= n,
            old(out)@ + le_bytes(v as nat, n as nat) == out@ + le_bytes(x as nat, (n - i) as nat),
        decreases n - i,
    {
        let ghost before = out@;
        let ghost k = (n - i) as nat;
        out.push((x % 256) as u8);
        proof {
            assert(le_bytes(x as nat, k) == seq![(x % 256) as u8].add(
                le_bytes((x / 256) as nat, (k - 1) as nat),
            ));
            assert(before + le_bytes(x as nat, k) =~= out@ + le_bytes(
                (x / 256) as nat,
                (k - 1) as nat,
            ));
        }
        x = x / 256;
        i = i + 1;
    }
    assert(le_bytes(x as nat, 0) =~= seq![]);
    assert(out@ + le_bytes(x as nat, 0) =~= out@);
}

/// The number whose little-endian bytes are `b[start..start + n]`.
pub fn read_le(b: &[u8], start: usize, n: usize) -> (r: u128)
    requires
        n <= 16,
        start + n <= b@.len(),
    ensures
        r as nat == from_le(b@.subrange(start as int, start + n)),
{
    let len = b.len();
    let mut acc: u128 = 0;
    let mut i: usize = n;
    while i > 0
        invariant
            len == b@.len(),
            i <= n,
            n <= 16,
            start + n <= b@.len(),
            acc as nat == from_le(b@.subrange(start + i, start + n)),
        decreases i,
    {
        let ghost tail = b@.subrange(start + i, start + n);
        let ghost s = b@.subrange(start + i - 1, start + n);
        proof {
            assert(s.drop_first() =~= tail);
            lemma_from_le_bound(tail);
            lemma_pow256_mono(tail.len(), 15);
            reveal_with_fuel(pow256, 16);
            assert(pow256(15) == 0x1_000000_000000_000000_000000_000000u128);
        }
        acc = b[start + i - 1] as u128 + 256 * acc;
        i = i - 1;
    }
    acc
}

} // verus!
