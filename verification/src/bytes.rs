//! Little-endian decoding of fixed-width integers from byte buffers.

use vstd::prelude::*;

verus! {

/// `256^k`.
pub open spec fn pow256(k: nat) -> nat
    decreases k,
{
    if k == 0 {
        1
    } else {
        256 * pow256((k - 1) as nat)
    }
}

/// The unsigned integer whose little-endian encoding is `s`.
pub open spec fn le_value(s: Seq<u8>) -> nat
    decreases s.len(),
{
    if s.len() == 0 {
        0
    } else {
        s[0] as nat + 256 * le_value(s.drop_first())
    }
}

/// The value of `len` bytes of `data` read little-endian from `off`.
pub open spec fn le_at(data: Seq<u8>, off: int, len: int) -> nat {
    le_value(data.subrange(off, off + len))
}

/// The `i32` whose little-endian two's complement encoding is the 4 bytes of `data` at `off`.
pub open spec fn le_i32_at(data: Seq<u8>, off: int) -> int {
    let u = le_at(data, off, 4);
    if u >= 0x8000_0000 {
        u - 0x1_0000_0000
    } else {
        u as int
    }
}

/// The `i64` whose little-endian two's complement encoding is the 8 bytes of `data` at `off`.
pub open spec fn le_i64_at(data: Seq<u8>, off: int) -> int {
    let u = le_at(data, off, 8);
    if u >= 0x8000_0000_0000_0000 {
        u - 0x1_0000_0000_0000_0000
    } else {
        u as int
    }
}

pub proof fn lemma_le_value_bound(s: Seq<u8>)
    ensures
        le_value(s) < pow256(s.len()),
    decreases s.len(),
{
    if s.len() > 0 {
        lemma_le_value_bound(s.drop_first());
    }
}

pub proof fn lemma_pow256_values()
    ensures
        pow256(4) == 0x1_0000_0000,
        pow256(8) == 0x1_0000_0000_0000_0000,
{
    reveal_with_fuel(pow256, 9);
}

/// Reads `len` (at most 8) bytes of `data` from `off`, least significant first.
pub fn read_le(data: &[u8], off: usize, len: usize) -> (r: u64)
    requires
        len <= 8,
        off + len <= data@.len(),
    ensures
        r as nat == le_at(data@, off as int, len as int),
{
    let n: usize = data.len();
    assert(off + len <= n);
    let end: usize = off + len;
    let mut acc: u64 = 0;
    let mut i: usize = end;
    proof {
        assert(data@.subrange(end as int, end as int) =~= Seq::<u8>::empty());
        lemma_pow256_values();
    }
    while i > off
        invariant
            off <= i <= end,
            end == off + len,
            len <= 8,
            end <= data@.len(),
            acc as nat == le_value(data@.subrange(i as int, end as int)),
            acc < pow256((end - i) as nat),
            pow256(8) == 0x1_0000_0000_0000_0000,
        decreases i,
    {
        let ghost old_i = i;
        i = i - 1;
        proof {
            let s = data@.subrange(i as int, end as int);
            assert(s.drop_first() =~= data@.subrange(old_i as int, end as int));
            lemma_pow256_monotone((end - old_i) as nat, 7);
            assert(pow256(((end - old_i) + 1) as nat) == 256 * pow256((end - old_i) as nat));
        }
        acc = acc * 256 + data[i] as u64;
    }
    acc
}

pub proof fn lemma_pow256_monotone(a: nat, b: nat)
    requires
        a <= b,
    ensures
        pow256(a) <= pow256(b),
    decreases b,
{
    if a < b {
        lemma_pow256_monotone(a, (b - 1) as nat);
    }
}


pub proof fn lemma_le_value_push(s: Seq<u8>, x: u8)
    ensures
        le_value(s.push(x)) == le_value(s) + pow256(s.len()) * x,
    decreases s.len(),
{
    if s.len() == 0 {
        assert(s.push(x).drop_first() =~= Seq::<u8>::empty());
        assert(le_value(Seq::<u8>::empty()) == 0);
        assert(le_value(s) == 0);
        assert(pow256(0) == 1);
        assert(s.push(x)[0] == x);
        assert(le_value(s.push(x)) == x as nat + 256 * le_value(Seq::<u8>::empty()));
    } else {
        let t = s.drop_first();
        assert(s.push(x).drop_first() =~= t.push(x));
        assert(s.push(x)[0] == s[0]);
        lemma_le_value_push(t, x);
        assert(le_value(s.push(x)) == s[0] as nat + 256 * le_value(t.push(x)));
        assert(le_value(s) == s[0] as nat + 256 * le_value(t));
        assert(pow256(s.len()) == 256 * pow256(t.len()));
        let p = pow256(t.len());
        assert(256 * (le_value(t) + p * x) == 256 * le_value(t) + (256 * p) * x)
            by (nonlinear_arith);
        assert(le_value(t.push(x)) == le_value(t) + p * x);
    }
}

/// Appends the 8 little-endian bytes of `w` to `out`.
pub fn push_le_u64(out: &mut Vec<u8>, w: u64)
    ensures
        final(out)@.len() == old(out)@.len() + 8,
        final(out)@.subrange(0, old(out)@.len() as int) == old(out)@,
        le_at(final(out)@, old(out)@.len() as int, 8) == w,
{
    let ghost start = out@.len();
    let mut v: u64 = w;
    let mut i: usize = 0;
    proof {
        lemma_pow256_values();
        assert(out@.subrange(start as int, start as int) =~= Seq::<u8>::empty());
        assert(le_value(Seq::<u8>::empty()) == 0);
        assert(pow256(0) == 1);
        assert(out@.subrange(0, start as int) =~= old(out)@);
    }
    while i < 8
        invariant
            i <= 8,
            out@.len() == start + i,
            out@.subrange(0, start as int) == old(out)@,
            w == le_value(out@.subrange(start as int, start + i)) + pow256(i as nat) * v,
            pow256(8) == 0x1_0000_0000_0000_0000,
        decreases 8 - i,
    {
        let ghost prev = out@;
        let ghost pv = v;
        let byte: u8 = (v % 256) as u8;
        out.push(byte);
        v = v / 256;
        proof {
            assert(out@.subrange(0, start as int) =~= prev.subrange(0, start as int));
            assert(out@.subrange(start as int, start + i + 1) =~= prev.subrange(start as int, start + i).push(byte));
            lemma_le_value_push(prev.subrange(start as int, start + i), byte);
            assert(pv == 256 * v + byte);
            assert(pow256(i as nat) * pv == pow256(i as nat) * byte + (256 * pow256(i as nat)) * v)
                by (nonlinear_arith)
                requires
                    pv == 256 * v + byte,
            ;
        }
        i = i + 1;
    }
    proof {
        lemma_le_value_bound(out@.subrange(start as int, start + 8int));
        assert(pow256(8) * v <= w);
        if v > 0 {
            assert(pow256(8) * v >= pow256(8)) by (nonlinear_arith)
                requires
                    v > 0,
            ;
        }
    }
}

} // verus!
