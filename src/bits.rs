//! The mathematical model of a bitstream: sequences of bits, least
//! significant bit first, and the byte sequences that carry them.
use vstd::arithmetic::div_mod::{
    lemma_div_decreases, lemma_div_denominator, lemma_div_multiples_vanish_fancy,
    lemma_fundamental_div_mod, lemma_fundamental_div_mod_converse, lemma_mod_bound,
    lemma_mod_breakdown, lemma_small_mod,
};
use vstd::arithmetic::power2::{
    lemma2_to64, lemma_pow2_pos, lemma_pow2_strictly_increases, lemma_pow2_unfold, pow2,
};
use vstd::bits::{
    lemma_low_bits_mask_values, lemma_u32_low_bits_mask_is_mod, lemma_u32_pow2_no_overflow,
    lemma_u32_shl_is_mul, lemma_u64_low_bits_mask_is_mod, lemma_u64_pow2_no_overflow,
    lemma_u64_shl_is_mul, low_bits_mask,
};
use vstd::prelude::*;

verus! {

/// The low `w` bits of `v`, least significant bit first.
pub open spec fn bits_of(v: nat, w: nat) -> Seq<bool>
    decreases w,
{
    if w == 0 {
        Seq::empty()
    } else {
        seq![v % 2 == 1] + bits_of(v / 2, (w - 1) as nat)
    }
}

/// The number that a sequence of bits spells, least significant bit first.
pub open spec fn value_of(b: Seq<bool>) -> nat
    decreases b.len(),
{
    if b.len() == 0 {
        0
    } else {
        (if b[0] {
            1nat
        } else {
            0nat
        }) + 2 * value_of(b.skip(1))
    }
}

/// The bits of a byte sequence: each byte contributes its eight bits, least
/// significant first, in the order of the bytes.
pub open spec fn bytes_bits(s: Seq<u8>) -> Seq<bool>
    decreases s.len(),
{
    if s.len() == 0 {
        Seq::empty()
    } else {
        bits_of(s[0] as nat, 8) + bytes_bits(s.skip(1))
    }
}

/// The low `n` bytes of `v`, least significant byte first.
pub open spec fn le_bytes(v: nat, n: nat) -> Seq<u8>
    decreases n,
{
    if n == 0 {
        Seq::empty()
    } else {
        seq![(v % 256) as u8] + le_bytes(v / 256, (n - 1) as nat)
    }
}

pub proof fn lemma_bits_len(v: nat, w: nat)
    ensures
        bits_of(v, w).len() == w,
    decreases w,
{
    if w > 0 {
        lemma_bits_len(v / 2, (w - 1) as nat);
    }
}

pub proof fn lemma_bytes_bits_len(s: Seq<u8>)
    ensures
        bytes_bits(s).len() == 8 * s.len(),
    decreases s.len(),
{
    if s.len() > 0 {
        lemma_bits_len(s[0] as nat, 8);
        lemma_bytes_bits_len(s.skip(1));
    }
}

pub proof fn lemma_le_bytes_len(v: nat, n: nat)
    ensures
        le_bytes(v, n).len() == n,
    decreases n,
{
    if n > 0 {
        lemma_le_bytes_len(v / 256, (n - 1) as nat);
    }
}

/// Splitting the low `k + n` bits of `v` after the first `k`.
pub proof fn lemma_bits_split(v: nat, k: nat, n: nat)
    ensures
        bits_of(v, k + n) == bits_of(v, k) + bits_of(v / pow2(k), n),
    decreases k,
{
    if k == 0 {
        lemma2_to64();
        assert(bits_of(v, 0) + bits_of(v / pow2(0), n) =~= bits_of(v, n));
    } else {
        let k1 = (k - 1) as nat;
        lemma_bits_split(v / 2, k1, n);
        lemma_pow2_unfold(k);
        lemma_pow2_pos(k1);
        lemma_div_denominator(v as int, 2, pow2(k1) as int);
        assert((k1 + n) as nat == (k + n - 1) as nat);
        assert(bits_of(v, k + n) =~= bits_of(v, k) + bits_of(v / pow2(k), n));
    }
}

/// Only the low `w` bits of `v` matter.
pub proof fn lemma_bits_mod(v: nat, w: nat)
    ensures
        bits_of(v % pow2(w), w) == bits_of(v, w),
    decreases w,
{
    if w > 0 {
        let w1 = (w - 1) as nat;
        lemma_pow2_unfold(w);
        lemma_pow2_pos(w1);
        lemma_mod_breakdown(v as int, 2, pow2(w1) as int);
        let r = v % pow2(w);
        let q = (v / 2) % pow2(w1);
        assert(r == 2 * q + v % 2);
        assert(r % 2 == v % 2);
        assert(r / 2 == q);
        lemma_bits_mod(v / 2, w1);
        assert(bits_of(r, w) == seq![r % 2 == 1] + bits_of(r / 2, w1));
        assert(bits_of(v, w) == seq![v % 2 == 1] + bits_of(v / 2, w1));
        assert(bits_of(r / 2, w1) == bits_of(v / 2, w1));
        assert(seq![r % 2 == 1] =~= seq![v % 2 == 1]);
        assert(bits_of(r, w) == bits_of(v, w));
    } else {
        lemma_pow2_pos(w);
        assert(bits_of(v % pow2(w), w) =~= bits_of(v, w));
    }
}

/// Reading back the low `w` bits of `v` gives `v` modulo `2^w`.
pub proof fn lemma_value_of_bits(v: nat, w: nat)
    ensures
        value_of(bits_of(v, w)) == v % pow2(w),
    decreases w,
{
    if w == 0 {
        lemma2_to64();
    } else {
        let w1 = (w - 1) as nat;
        lemma_pow2_unfold(w);
        lemma_pow2_pos(w1);
        lemma_mod_breakdown(v as int, 2, pow2(w1) as int);
        lemma_value_of_bits(v / 2, w1);
        let b = bits_of(v, w);
        assert(b.skip(1) =~= bits_of(v / 2, w1));
    }
}

/// Placing `m` above the low `k` bits of `a`.
pub proof fn lemma_bits_stack(a: nat, m: nat, k: nat, n: nat)
    requires
        a < pow2(k),
    ensures
        bits_of(a + m * pow2(k), k + n) == bits_of(a, k) + bits_of(m, n),
{
    let x = a + m * pow2(k);
    lemma_pow2_pos(k);
    lemma_bits_split(x, k, n);
    lemma_fundamental_div_mod_converse(x as int, pow2(k) as int, m as int, a as int);
    assert(x / pow2(k) == m) by {
        lemma_div_multiples_vanish_fancy(m as int, a as int, pow2(k) as int);
    }
    lemma_bits_mod(x, k);
    lemma_bits_mod(a, k);
    lemma_small_mod(a, pow2(k));
}

pub proof fn lemma_bytes_bits_append(a: Seq<u8>, b: Seq<u8>)
    ensures
        bytes_bits(a + b) == bytes_bits(a) + bytes_bits(b),
    decreases a.len(),
{
    if a.len() == 0 {
        assert(a + b =~= b);
        assert(bytes_bits(a) + bytes_bits(b) =~= bytes_bits(b));
    } else {
        lemma_bytes_bits_append(a.skip(1), b);
        assert((a + b).skip(1) =~= a.skip(1) + b);
        assert((a + b)[0] == a[0]);
        assert(bytes_bits(a + b) =~= bytes_bits(a) + bytes_bits(b));
    }
}

/// The bits of `n` little-endian bytes of `v` are the low `8 * n` bits of `v`.
pub proof fn lemma_le_bytes_bits(v: nat, n: nat)
    ensures
        bytes_bits(le_bytes(v, n)) == bits_of(v, 8 * n),
    decreases n,
{
    if n > 0 {
        let n1 = (n - 1) as nat;
        let s = le_bytes(v, n);
        lemma_le_bytes_bits(v / 256, n1);
        assert(s.skip(1) =~= le_bytes(v / 256, n1));
        lemma2_to64();
        lemma_bits_split(v, 8, 8 * n1);
        assert(8 + 8 * n1 == 8 * n);
        lemma_bits_mod(v, 8);
    }
}

/// The variable bit rate encoding of `v` in chunks of `w` bits: each chunk
/// carries the next `w - 1` bits of `v`, least significant first, and its top
/// bit says whether another chunk follows.
pub open spec fn vbr_bits(v: nat, w: nat) -> Seq<bool>
    decreases v,
    via vbr_bits_decreases
{
    let m = pow2((w - 1) as nat);
    if w < 2 || v < m {
        bits_of(v, w)
    } else {
        bits_of(m + v % m, w) + vbr_bits(v / m, w)
    }
}

#[via_fn]
proof fn vbr_bits_decreases(v: nat, w: nat) {
    let m = pow2((w - 1) as nat);
    if !(w < 2 || v < m) {
        lemma_pow2_ge_2((w - 1) as nat);
        lemma_div_decreases(v as int, m as int);
    }
}

proof fn lemma_pow2_ge_2(e: nat)
    requires
        e >= 1,
    ensures
        pow2(e) >= 2,
{
    lemma2_to64();
    if e > 1 {
        lemma_pow2_strictly_increases(1, e);
    }
}

/// Reads one variable bit rate number in chunks of `w` bits from the front of
/// `b`.
pub open spec fn vbr_decode(b: Seq<bool>, w: nat) -> nat
    decreases b.len(),
{
    if w < 2 || b.len() < w {
        0
    } else {
        let c = value_of(b.take(w as int));
        let m = pow2((w - 1) as nat);
        if c < m {
            c
        } else {
            ((c - m) + m * vbr_decode(b.skip(w as int), w)) as nat
        }
    }
}

/// Decoding what the variable bit rate encoding of `v` produced gives back
/// `v`, whatever bits follow it.
pub proof fn lemma_vbr_round_trip(v: nat, w: nat, rest: Seq<bool>)
    requires
        w >= 2,
    ensures
        vbr_decode(vbr_bits(v, w) + rest, w) == v,
    decreases v,
{
    let m = pow2((w - 1) as nat);
    lemma_pow2_ge_2((w - 1) as nat);
    lemma_pow2_unfold(w);
    if v < m {
        let b = bits_of(v, w) + rest;
        lemma_bits_len(v, w);
        assert(b.take(w as int) =~= bits_of(v, w));
        lemma_value_of_bits(v, w);
        lemma_small_mod(v, pow2(w));
    } else {
        let c = m + v % m;
        let tail = vbr_bits(v / m, w) + rest;
        let b = bits_of(c, w) + tail;
        lemma_mod_bound(v as int, m as int);
        lemma_bits_len(c, w);
        assert(vbr_bits(v, w) + rest =~= b);
        assert(b.take(w as int) =~= bits_of(c, w));
        assert(b.skip(w as int) =~= tail);
        lemma_value_of_bits(c, w);
        lemma_small_mod(c, pow2(w));
        lemma_pow2_ge_2((w - 1) as nat);
        lemma_div_decreases(v as int, m as int);
        lemma_vbr_round_trip(v / m, w, rest);
        lemma_fundamental_div_mod(v as int, m as int);
    }
}

/// Only the low `k` bits of `x` matter to its low `w <= k` bits.
pub proof fn lemma_bits_mod_wider(x: nat, k: nat, w: nat)
    requires
        w <= k,
    ensures
        bits_of(x % pow2(k), w) == bits_of(x, w),
{
    lemma_pow2_pos(k);
    lemma_bits_split(x, w, (k - w) as nat);
    lemma_bits_split(x % pow2(k), w, (k - w) as nat);
    lemma_bits_mod(x, k);
    lemma_bits_len(x, w);
    lemma_bits_len(x % pow2(k), w);
    assert(bits_of(x, k).take(w as int) =~= bits_of(x, w));
    assert(bits_of(x % pow2(k), k).take(w as int) =~= bits_of(x % pow2(k), w));
}

// Facts about the bit operations on machine words.

pub proof fn lemma_u32_or_disjoint(d: u32, m: u32, off: u32)
    by (bit_vector)
    requires
        off < 32,
        d < (1u32 << off),
    ensures
        d | (m << off) == d + (m << off),
        (m << off) | d == d + (m << off),
{
}

pub proof fn lemma_u64_or_disjoint(d: u64, m: u64, off: u64)
    by (bit_vector)
    requires
        off < 64,
        d < (1u64 << off),
    ensures
        d | (m << off) == d + (m << off),
        (m << off) | d == d + (m << off),
{
}

pub proof fn lemma_u32_shl_positive(f: u32)
    by (bit_vector)
    requires
        f < 32,
    ensures
        (1u32 << f) >= 1,
{
}

pub proof fn lemma_u32_full_mask(v: u32)
    by (bit_vector)
    ensures
        v & 0xffffffff == v,
{
}

/// `1 << f` is `2^f`, and `(1 << f) - 1` masks the low `f` bits.
pub proof fn lemma_u32_mask_is_mod(v: u32, f: u32)
    requires
        f < 32,
    ensures
        (1u32 << f) as nat == pow2(f as nat),
        v & (((1u32 << f) - 1) as u32) == v as nat % pow2(f as nat),
        low_bits_mask(f as nat) == ((1u32 << f) - 1) as nat,
{
    lemma_u32_pow2_no_overflow(f as nat);
    lemma_u32_shl_is_mul(1, f);
    lemma_u32_low_bits_mask_is_mod(v, f as nat);
}

/// `1 << f` is `2^f`, and `(1 << f) - 1` masks the low `f` bits.
pub proof fn lemma_u64_mask_is_mod(v: u64, f: u64)
    requires
        f < 64,
    ensures
        (1u64 << f) as nat == pow2(f as nat),
        v & (((1u64 << f) - 1) as u64) == v as nat % pow2(f as nat),
{
    lemma_u64_pow2_no_overflow(f as nat);
    lemma_u64_shl_is_mul(1, f);
    lemma_u64_low_bits_mask_is_mod(v, f as nat);
}

/// What `v & low_bits_mask(w)` reads as, for every width up to 32.
pub proof fn lemma_u32_low_bits(v: u32, w: nat)
    requires
        w <= 32,
    ensures
        (v & (low_bits_mask(w) as u32)) == v as nat % pow2(w),
{
    if w == 32 {
        lemma_low_bits_mask_values();
        lemma_u32_full_mask(v);
        lemma2_to64();
    } else {
        lemma_u32_pow2_no_overflow(w);
        lemma_u32_low_bits_mask_is_mod(v, w);
    }
}

pub proof fn lemma_u64_halves(v: u64)
    by (bit_vector)
    ensures
        (v as u32) as u64 == v % 0x1_0000_0000u64,
        ((v >> 32u64) as u32) as u64 == v / 0x1_0000_0000u64,
{
}

pub proof fn lemma_u64_join(hi: u32, lo: u32)
    by (bit_vector)
    ensures
        ((hi as u64) << 32u64) | (lo as u64) == (hi as u64) * 0x1_0000_0000u64 + (lo as u64),
        (hi as u64) * 0x1_0000_0000u64 + (lo as u64) <= 0xffff_ffff_ffff_ffffu64,
{
}

pub proof fn lemma_u32_byte_split(d: u32)
    by (bit_vector)
    requires
        d < 0x1000000,
    ensures
        d & 0xff == d % 256,
        d >> 8 == d / 256,
        d >> 8 < 0x10000,
{
}

} // verus!
