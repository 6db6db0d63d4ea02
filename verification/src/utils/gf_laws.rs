use vstd::prelude::*;
use crate::utils::galois_field::{
    clmul_bits, clmul_coeff, flip, gf128_mul_spec, gf2_poly_mul, gf64_mul_spec, gf64_mul_u64, gf_lambda_mul_64_spec, gf_one, mulx, mulx_pow, reduce_from,
    shift_add_mul, xtime64,
};
use vstd::bytes::{spec_u64_from_le_bytes, spec_u64_to_le_bytes};
use crate::utils::math::{bit_of, bits_of_bytes, bytes_of_bits, is_bit_seq, lemma_bits_bytes_inverse, lemma_flip_bit_of_byte, xor_seq};

verus! {

/// `n` zero bytes.
pub open spec fn zero_bytes(n: nat) -> Seq<u8> {
    Seq::new(n, |i: int| 0u8)
}

/// The reduction keeps the length of the bit string.
pub(crate) proof fn lemma_reduce_len(r: Seq<u8>, m: int, t1: int, t2: int, t3: int, i: int)
    requires
        0 < t3 < t2 < t1 < m,
        i < r.len(),
    ensures
        reduce_from(r, m, t1, t2, t3, i).len() == r.len(),
    decreases i,
{
    if !(i < m || m <= 0) {
        let r2 = if r[i] == 1 {
            flip(flip(flip(flip(r, i - m + t1), i - m + t2), i - m + t3), i - m)
        } else {
            r
        };
        lemma_reduce_len(r2, m, t1, t2, t3, i - 1);
    }
}

/// The reduction leaves a bit string alone whose coefficients from degree `m` to `i` are 0.
pub(crate) proof fn lemma_reduce_low(r: Seq<u8>, m: int, t1: int, t2: int, t3: int, i: int)
    requires
        forall|t: int| m <= t <= i ==> #[trigger] r[t] == 0,
    ensures
        reduce_from(r, m, t1, t2, t3, i) == r,
    decreases i,
{
    if !(i < m || m <= 0) {
        lemma_reduce_low(r, m, t1, t2, t3, i - 1);
    }
}

/// With a zero factor every coefficient of the carry-less product is 0.
proof fn lemma_clmul_zero(a: Seq<u8>, b: Seq<u8>, n: int, k: int)
    requires
        forall|t: int| 0 <= t < b.len() ==> #[trigger] b[t] == 0,
    ensures
        clmul_coeff(a, b, n, k) == 0,
    decreases n,
{
    if n > 0 {
        lemma_clmul_zero(a, b, n - 1, k);
        crate::utils::math::lemma_xor_assoc(0, 0, 0);
    }
}

/// With the factor 1 the carry-less product has the bits of the other factor.
proof fn lemma_clmul_one(a: Seq<u8>, e: Seq<u8>, n: int, k: int)
    requires
        e.len() >= 1,
        e[0] == 1,
        forall|t: int| 1 <= t < e.len() ==> #[trigger] e[t] == 0,
        forall|t: int| 0 <= t < a.len() ==> #[trigger] a[t] <= 1,
        0 <= n <= a.len(),
        0 <= k,
    ensures
        clmul_coeff(a, e, n, k) == if k < n { a[k] } else { 0u8 },
    decreases n,
{
    if n > 0 {
        lemma_clmul_one(a, e, n - 1, k);
        let prev = if k < n - 1 { a[k] } else { 0u8 };
        crate::utils::math::lemma_xor_assoc(prev, 0, 0);
        crate::utils::math::lemma_xor_assoc(1, 0, 0);
        crate::utils::math::lemma_xor_assoc(0, 0, 0);
        if k == n - 1 {
            assert(a[k] == 0 || a[k] == 1);
        } else if k > n - 1 {
            assert(k - (n - 1) >= e.len() || e[k - (n - 1)] == 0);
        }
    }
}

/// Multiplying by zero gives zero.
pub proof fn lemma_gf128_mul_zero(a: Seq<u8>)
    requires
        a.len() == 16,
    ensures
        gf128_mul_spec(a, zero_bytes(16)) == zero_bytes(16),
{
    let z = zero_bytes(16);
    let ba = bits_of_bytes(a);
    let bz = bits_of_bytes(z);
    assert forall|t: int| 0 <= t < bz.len() implies #[trigger] bz[t] == 0 by {
        lemma_flip_bit_of_byte(0, 0, (t % 8) as u8);
    }
    let c = clmul_bits(ba, bz);
    assert forall|t: int| 0 <= t < c.len() implies #[trigger] c[t] == 0 by {
        lemma_clmul_zero(ba, bz, ba.len() as int, t);
    }
    lemma_reduce_low(c, 128, 7, 2, 1, 255);
    let low = c.subrange(0, 128);
    assert(low =~= bits_of_bytes(z));
    lemma_bits_bytes_inverse(z, low);
}

/// The bits of the field element one: bit 0 is set, no other.
pub proof fn lemma_one_bits()
    ensures
        bits_of_bytes(gf_one()).len() == 128,
        bits_of_bytes(gf_one())[0] == 1,
        forall|t: int| 1 <= t < 128 ==> #[trigger] bits_of_bytes(gf_one())[t] == 0,
{
    let be = bits_of_bytes(gf_one());
    assert(be[0] == 1) by {
        assert(be[0] == bit_of(1u8, 0));
        assert(bit_of(1u8, 0) == 1) by (bit_vector);
    }
    assert forall|t: int| 1 <= t < be.len() implies #[trigger] be[t] == 0 by {
        if t < 8 {
            assert(be[t] == bit_of(1u8, t));
            let tt = t as u8;
            assert(1 <= tt < 8 ==> ((1u8 >> tt) & 1u8) == 0) by (bit_vector);
        } else {
            lemma_flip_bit_of_byte(0, 0, (t % 8) as u8);
        }
    }
}

/// Multiplying by one gives the other factor back.
pub proof fn lemma_gf128_mul_one(a: Seq<u8>)
    requires
        a.len() == 16,
    ensures
        gf128_mul_spec(a, gf_one()) == a,
{
    let one = gf_one();
    let ba = bits_of_bytes(a);
    let be = bits_of_bytes(one);
    lemma_bits_bytes_inverse(a, Seq::empty());
    lemma_one_bits();
    let c = clmul_bits(ba, be);
    assert forall|t: int| 0 <= t < c.len() implies #[trigger] c[t] == if t < 128 { ba[t] } else { 0u8 } by {
        lemma_clmul_one(ba, be, ba.len() as int, t);
    }
    lemma_reduce_low(c, 128, 7, 2, 1, 255);
    let low = c.subrange(0, 128);
    assert(low =~= ba);
}

/// The exclusive or of `f(t)` for `lo <= t < hi`.
pub open spec fn xor_bits_sum(f: spec_fn(int) -> u8, lo: int, hi: int) -> u8
    decreases hi - lo,
{
    if hi <= lo {
        0
    } else {
        xor_bits_sum(f, lo, hi - 1) ^ f(hi - 1)
    }
}

/// Term `j` of coefficient `k` of the carry-less product of two bit strings of length `l`.
pub open spec fn clmul_term(a: Seq<u8>, b: Seq<u8>, l: int, k: int) -> spec_fn(int) -> u8 {
    |j: int| if 0 <= j < l && 0 <= k - j < l && a[j] == 1 && b[k - j] == 1 { 1u8 } else { 0u8 }
}

proof fn lemma_clmul_coeff_sum(a: Seq<u8>, b: Seq<u8>, n: int, k: int)
    requires
        a.len() == b.len(),
        0 <= n <= a.len(),
    ensures
        clmul_coeff(a, b, n, k) == xor_bits_sum(clmul_term(a, b, a.len() as int, k), 0, n),
    decreases n,
{
    if n > 0 {
        lemma_clmul_coeff_sum(a, b, n - 1, k);
    }
}

/// Peeling the first term of a sum.
proof fn lemma_xor_bits_sum_front(f: spec_fn(int) -> u8, lo: int, hi: int)
    requires
        lo < hi,
    ensures
        xor_bits_sum(f, lo, hi) == f(lo) ^ xor_bits_sum(f, lo + 1, hi),
    decreases hi - lo,
{
    crate::utils::math::lemma_xor_assoc(f(lo), 0, 0);
    crate::utils::math::lemma_xor_assoc(0, f(lo), 0);
    assert(xor_bits_sum(f, lo, lo) == 0);
    assert(xor_bits_sum(f, lo, hi) == xor_bits_sum(f, lo, hi - 1) ^ f(hi - 1));
    if hi - 1 > lo {
        lemma_xor_bits_sum_front(f, lo, hi - 1);
        let m = xor_bits_sum(f, lo + 1, hi - 1);
        assert(xor_bits_sum(f, lo + 1, hi) == m ^ f(hi - 1));
        crate::utils::math::lemma_xor_assoc(f(lo), m, f(hi - 1));
    } else {
        assert(hi == lo + 1);
        assert(xor_bits_sum(f, lo + 1, hi) == 0);
    }
}

/// Terms that are zero can be dropped at both ends.
proof fn lemma_xor_bits_sum_trim(f: spec_fn(int) -> u8, lo2: int, lo: int, hi: int, hi2: int)
    requires
        lo2 <= lo <= hi <= hi2,
        forall|t: int| lo2 <= t < lo ==> #[trigger] f(t) == 0,
        forall|t: int| hi <= t < hi2 ==> #[trigger] f(t) == 0,
    ensures
        xor_bits_sum(f, lo2, hi2) == xor_bits_sum(f, lo, hi),
    decreases (lo - lo2) + (hi2 - hi),
{
    if hi2 > hi {
        lemma_xor_bits_sum_trim(f, lo2, lo, hi, hi2 - 1);
        crate::utils::math::lemma_xor_assoc(xor_bits_sum(f, lo2, hi2 - 1), 0, 0);
    } else if lo > lo2 {
        lemma_xor_bits_sum_trim(f, lo2 + 1, lo, hi, hi2);
        lemma_xor_bits_sum_front(f, lo2, hi2);
        crate::utils::math::lemma_xor_assoc(xor_bits_sum(f, lo2 + 1, hi2), 0, 0);
    }
}

/// A sum read backwards.
proof fn lemma_xor_bits_sum_reflect(f: spec_fn(int) -> u8, lo: int, hi: int)
    ensures
        xor_bits_sum(f, lo, hi) == xor_bits_sum(|t: int| f(lo + hi - 1 - t), lo, hi),
    decreases hi - lo,
{
    let g = |t: int| f(lo + hi - 1 - t);
    if hi - lo == 1 {
        assert(g(lo) == f(lo));
        assert(xor_bits_sum(f, lo, hi) == xor_bits_sum(f, lo, lo) ^ f(lo));
        assert(xor_bits_sum(g, lo, hi) == xor_bits_sum(g, lo, lo) ^ g(lo));
    } else if hi - lo >= 2 {
        lemma_xor_bits_sum_reflect(f, lo + 1, hi - 1);
        let g1 = |t: int| f((lo + 1) + (hi - 1) - 1 - t);
        assert(g1 =~= g);
        let m = xor_bits_sum(f, lo + 1, hi - 1);
        assert(xor_bits_sum(g, lo + 1, hi - 1) == m);
        lemma_xor_bits_sum_front(f, lo, hi);
        lemma_xor_bits_sum_front(g, lo, hi);
        assert(xor_bits_sum(f, lo + 1, hi) == m ^ f(hi - 1));
        assert(xor_bits_sum(g, lo + 1, hi) == m ^ g(hi - 1));
        assert(g(lo) == f(hi - 1));
        assert(g(hi - 1) == f(lo));
        crate::utils::math::lemma_xor_assoc(f(lo), m, f(hi - 1));
        crate::utils::math::lemma_xor_assoc(f(hi - 1), m, f(lo));
        crate::utils::math::lemma_xor_assoc(m, f(lo), f(hi - 1));
        crate::utils::math::lemma_xor_assoc(m, f(hi - 1), f(lo));
        crate::utils::math::lemma_xor_assoc(f(lo), f(hi - 1), m);
        crate::utils::math::lemma_xor_assoc(f(hi - 1), f(lo), m);
    }
}

/// Coefficient `k` of a carry-less product does not depend on the order of the factors.
proof fn lemma_clmul_coeff_comm(a: Seq<u8>, b: Seq<u8>, k: int)
    requires
        a.len() == b.len(),
        0 <= k,
    ensures
        clmul_coeff(a, b, a.len() as int, k) == clmul_coeff(b, a, b.len() as int, k),
{
    let l = a.len() as int;
    let f = clmul_term(a, b, l, k);
    let g = clmul_term(b, a, l, k);
    lemma_clmul_coeff_sum(a, b, l, k);
    lemma_clmul_coeff_sum(b, a, l, k);
    let lo = if k - l + 1 > 0 { k - l + 1 } else { 0 };
    let hi = if k + 1 < l { k + 1 } else { l };
    if lo < hi {
        assert(lo + hi - 1 == k);
        lemma_xor_bits_sum_trim(f, 0, lo, hi, l);
        lemma_xor_bits_sum_reflect(f, lo, hi);
        let fr = |t: int| f(lo + hi - 1 - t);
        assert forall|t: int| lo <= t < hi implies #[trigger] fr(t) == g(t) by {}
        assert forall|t: int| 0 <= t < l implies #[trigger] fr(t) == g(t) by {}
        lemma_xor_bits_sum_trim(g, 0, lo, hi, l);
        lemma_xor_bits_sum_congr(fr, g, lo, hi);
    } else {
        lemma_xor_bits_sum_trim(f, 0, 0, 0, l);
        lemma_xor_bits_sum_trim(g, 0, 0, 0, l);
    }
}

proof fn lemma_xor_bits_sum_congr(f: spec_fn(int) -> u8, g: spec_fn(int) -> u8, lo: int, hi: int)
    requires
        forall|t: int| lo <= t < hi ==> #[trigger] f(t) == g(t),
    ensures
        xor_bits_sum(f, lo, hi) == xor_bits_sum(g, lo, hi),
    decreases hi - lo,
{
    if hi > lo {
        lemma_xor_bits_sum_congr(f, g, lo, hi - 1);
        assert(f(hi - 1) == g(hi - 1));
    }
}

/// Multiplication in F_{2^128} is commutative.
pub proof fn lemma_gf128_mul_comm(a: Seq<u8>, b: Seq<u8>)
    requires
        a.len() == 16,
        b.len() == 16,
    ensures
        gf128_mul_spec(a, b) == gf128_mul_spec(b, a),
{
    let ba = bits_of_bytes(a);
    let bb = bits_of_bytes(b);
    assert forall|k: int| 0 <= k < 256 implies #[trigger] clmul_bits(ba, bb)[k] == clmul_bits(bb, ba)[k] by {
        lemma_clmul_coeff_comm(ba, bb, k);
    }
    assert(clmul_bits(ba, bb) =~= clmul_bits(bb, ba));
}

/// Exclusive or on bits.
pub(crate) proof fn lemma_bit_xor(x: u8, y: u8)
    requires
        x <= 1,
        y <= 1,
    ensures
        (x ^ y == 1) == ((x == 1) != (y == 1)),
        x ^ y <= 1,
        (x ^ 1u8) ^ y == (x ^ y) ^ 1u8,
        (x ^ 1u8) ^ (y ^ 1u8) == x ^ y,
        x ^ 1u8 <= 1,
{
    assert((x ^ y == 1) == ((x == 1) != (y == 1)) && x ^ y <= 1 && (x ^ 1u8) ^ y == (x ^ y) ^ 1u8
        && (x ^ 1u8) ^ (y ^ 1u8) == x ^ y && x ^ 1u8 <= 1) by (bit_vector)
        requires
            x <= 1,
            y <= 1,
    ;
}

/// Regrouping four terms of an exclusive or.
pub(crate) proof fn lemma_xor_swap(a: u8, b: u8, c: u8, d: u8)
    ensures
        (a ^ b) ^ (c ^ d) == (a ^ c) ^ (b ^ d),
{
    assert((a ^ b) ^ (c ^ d) == (a ^ c) ^ (b ^ d)) by (bit_vector);
}

/// The coefficients of a carry-less product are bits.
pub(crate) proof fn lemma_clmul_coeff_bit(a: Seq<u8>, b: Seq<u8>, n: int, k: int)
    ensures
        clmul_coeff(a, b, n, k) <= 1,
    decreases n,
{
    if n > 0 {
        lemma_clmul_coeff_bit(a, b, n - 1, k);
        let t: u8 = if 0 <= k - (n - 1) < b.len() && a[n - 1] == 1 && b[k - (n - 1)] == 1 { 1u8 } else { 0u8 };
        lemma_bit_xor(clmul_coeff(a, b, n - 1, k), t);
    }
}

/// A carry-less product is linear in its first factor.
proof fn lemma_clmul_coeff_linear(a: Seq<u8>, b: Seq<u8>, c: Seq<u8>, n: int, k: int)
    requires
        a.len() == b.len(),
        n <= a.len(),
        is_bit_seq(a),
        is_bit_seq(b),
    ensures
        clmul_coeff(xor_seq(a, b), c, n, k) == clmul_coeff(a, c, n, k) ^ clmul_coeff(b, c, n, k),
    decreases n,
{
    if n <= 0 {
        crate::utils::math::lemma_xor_assoc(0, 0, 0);
    } else {
        lemma_clmul_coeff_linear(a, b, c, n - 1, k);
        let ab = xor_seq(a, b);
        let in_range = 0 <= k - (n - 1) < c.len() && c[k - (n - 1)] == 1;
        let ta: u8 = if in_range && a[n - 1] == 1 { 1u8 } else { 0u8 };
        let tb: u8 = if in_range && b[n - 1] == 1 { 1u8 } else { 0u8 };
        let tab: u8 = if in_range && ab[n - 1] == 1 { 1u8 } else { 0u8 };
        lemma_bit_xor(a[n - 1], b[n - 1]);
        crate::utils::math::lemma_xor_assoc(0, 0, 0);
        crate::utils::math::lemma_xor_assoc(1, 0, 0);
        crate::utils::math::lemma_xor_assoc(1, 1, 0);
        crate::utils::math::lemma_xor_assoc(0, 1, 0);
        assert(tab == ta ^ tb);
        lemma_xor_swap(clmul_coeff(a, c, n - 1, k), clmul_coeff(b, c, n - 1, k), ta, tb);
    }
}

/// The four flips of one reduction step, at the positions below degree `i`.
pub open spec fn reduce_step(r: Seq<u8>, m: int, t1: int, t2: int, t3: int, i: int) -> Seq<u8> {
    if r[i] == 1 {
        flip(flip(flip(flip(r, i - m + t1), i - m + t2), i - m + t3), i - m)
    } else {
        r
    }
}

/// Which positions a reduction step flips.
pub open spec fn step_hits(m: int, t1: int, t2: int, t3: int, i: int, k: int) -> bool {
    k == i - m + t1 || k == i - m + t2 || k == i - m + t3 || k == i - m
}

pub(crate) proof fn lemma_flip4_at(r: Seq<u8>, m: int, t1: int, t2: int, t3: int, i: int, k: int)
    requires
        0 < t3 < t2 < t1 < m <= i < r.len(),
        0 <= k < r.len(),
    ensures
        flip(flip(flip(flip(r, i - m + t1), i - m + t2), i - m + t3), i - m).len() == r.len(),
        flip(flip(flip(flip(r, i - m + t1), i - m + t2), i - m + t3), i - m)[k] == if step_hits(m, t1, t2, t3, i, k) {
            r[k] ^ 1u8
        } else {
            r[k]
        },
{
}

/// One reduction step is linear on bit strings and keeps them bit strings.
proof fn lemma_reduce_step_linear(r: Seq<u8>, s: Seq<u8>, m: int, t1: int, t2: int, t3: int, i: int)
    requires
        0 < t3 < t2 < t1 < m <= i < r.len(),
        r.len() == s.len(),
        is_bit_seq(r),
        is_bit_seq(s),
    ensures
        reduce_step(xor_seq(r, s), m, t1, t2, t3, i) == xor_seq(reduce_step(r, m, t1, t2, t3, i), reduce_step(s, m, t1, t2, t3, i)),
        is_bit_seq(reduce_step(r, m, t1, t2, t3, i)),
        reduce_step(r, m, t1, t2, t3, i).len() == r.len(),
{
    let rs = xor_seq(r, s);
    let a = reduce_step(r, m, t1, t2, t3, i);
    let b = reduce_step(s, m, t1, t2, t3, i);
    let c = reduce_step(rs, m, t1, t2, t3, i);
    lemma_bit_xor(r[i], s[i]);
    assert forall|k: int| 0 <= k < r.len() implies #[trigger] a[k] <= 1 by {
        lemma_flip4_at(r, m, t1, t2, t3, i, k);
        lemma_bit_xor(r[k], s[k]);
    }
    assert forall|k: int| 0 <= k < r.len() implies #[trigger] c[k] == xor_seq(a, b)[k] by {
        lemma_flip4_at(r, m, t1, t2, t3, i, k);
        lemma_flip4_at(s, m, t1, t2, t3, i, k);
        lemma_flip4_at(rs, m, t1, t2, t3, i, k);
        lemma_bit_xor(r[k], s[k]);
        crate::utils::math::lemma_xor_assoc(r[k], s[k], 1);
        crate::utils::math::lemma_xor_assoc(r[k], 1, s[k]);
    }
    lemma_flip4_at(r, m, t1, t2, t3, i, 0);
    lemma_flip4_at(rs, m, t1, t2, t3, i, 0);
    assert(c =~= xor_seq(a, b));
}

/// The reduction is linear on bit strings, and keeps them bit strings.
pub(crate) proof fn lemma_reduce_linear(r: Seq<u8>, s: Seq<u8>, m: int, t1: int, t2: int, t3: int, i: int)
    requires
        0 < t3 < t2 < t1 < m,
        i < r.len(),
        r.len() == s.len(),
        is_bit_seq(r),
        is_bit_seq(s),
    ensures
        reduce_from(xor_seq(r, s), m, t1, t2, t3, i) == xor_seq(reduce_from(r, m, t1, t2, t3, i), reduce_from(s, m, t1, t2, t3, i)),
        is_bit_seq(reduce_from(r, m, t1, t2, t3, i)),
    decreases i,
{
    if i >= m {
        lemma_reduce_step_linear(r, s, m, t1, t2, t3, i);
        lemma_reduce_step_linear(s, r, m, t1, t2, t3, i);
        assert(reduce_step(r, m, t1, t2, t3, i) == if r[i] == 1 {
            flip(flip(flip(flip(r, i - m + t1), i - m + t2), i - m + t3), i - m)
        } else {
            r
        });
        lemma_reduce_linear(reduce_step(r, m, t1, t2, t3, i), reduce_step(s, m, t1, t2, t3, i), m, t1, t2, t3, i - 1);
    }
}

/// Bits of an exclusive or of bytes.
pub(crate) proof fn lemma_bits_of_xor(a: Seq<u8>, b: Seq<u8>)
    requires
        a.len() == b.len(),
    ensures
        bits_of_bytes(xor_seq(a, b)) == xor_seq(bits_of_bytes(a), bits_of_bytes(b)),
{
    let ab = xor_seq(a, b);
    assert forall|k: int| 0 <= k < 8 * a.len() implies #[trigger] bits_of_bytes(ab)[k] == xor_seq(bits_of_bytes(a), bits_of_bytes(b))[k] by {
        let x = a[k / 8];
        let y = b[k / 8];
        let j = (k % 8) as u8;
        assert(j < 8 ==> ((x ^ y) >> j) & 1u8 == ((x >> j) & 1u8) ^ ((y >> j) & 1u8)) by (bit_vector);
    }
    assert(bits_of_bytes(ab) =~= xor_seq(bits_of_bytes(a), bits_of_bytes(b)));
}

/// Bytes of an exclusive or of bit strings.
pub(crate) proof fn lemma_bytes_of_xor(x: Seq<u8>, y: Seq<u8>)
    requires
        x.len() == y.len(),
        x.len() % 8 == 0,
        is_bit_seq(x),
        is_bit_seq(y),
    ensures
        bytes_of_bits(xor_seq(x, y)) == xor_seq(bytes_of_bits(x), bytes_of_bits(y)),
{
    let a = bytes_of_bits(x);
    let b = bytes_of_bits(y);
    lemma_bits_bytes_inverse(a, x);
    lemma_bits_bytes_inverse(b, y);
    lemma_bits_of_xor(a, b);
    lemma_bits_bytes_inverse(xor_seq(a, b), Seq::empty());
}

/// The carry-less product is linear in its first factor, and its coefficients are bits.
proof fn lemma_clmul_bits_linear(ba: Seq<u8>, bb: Seq<u8>, bc: Seq<u8>)
    requires
        ba.len() == bb.len(),
        is_bit_seq(ba),
        is_bit_seq(bb),
    ensures
        clmul_bits(xor_seq(ba, bb), bc) == xor_seq(clmul_bits(ba, bc), clmul_bits(bb, bc)),
        is_bit_seq(clmul_bits(ba, bc)),
        is_bit_seq(clmul_bits(bb, bc)),
{
    let ca = clmul_bits(ba, bc);
    let cb = clmul_bits(bb, bc);
    let cab = clmul_bits(xor_seq(ba, bb), bc);
    assert forall|k: int| 0 <= k < ca.len() implies #[trigger] cab[k] == xor_seq(ca, cb)[k] by {
        lemma_clmul_coeff_linear(ba, bb, bc, ba.len() as int, k);
    }
    assert forall|k: int| 0 <= k < ca.len() implies #[trigger] ca[k] <= 1 by {
        lemma_clmul_coeff_bit(ba, bc, ba.len() as int, k);
    }
    assert forall|k: int| 0 <= k < cb.len() implies #[trigger] cb[k] <= 1 by {
        lemma_clmul_coeff_bit(bb, bc, bb.len() as int, k);
    }
    assert(cab =~= xor_seq(ca, cb));
}

/// Multiplication in F_2[x] / (x^m + x^t1 + x^t2 + x^t3 + 1) distributes over addition in the
/// first factor.
proof fn lemma_gf2_poly_mul_linear(a: Seq<u8>, b: Seq<u8>, c: Seq<u8>, t1: int, t2: int, t3: int)
    requires
        a.len() == b.len(),
        a.len() == c.len(),
        a.len() >= 1,
        0 < t3 < t2 < t1 < 8 * a.len(),
    ensures
        gf2_poly_mul(xor_seq(a, b), c, t1, t2, t3) == xor_seq(gf2_poly_mul(a, c, t1, t2, t3), gf2_poly_mul(b, c, t1, t2, t3)),
        gf2_poly_mul(a, c, t1, t2, t3).len() == a.len(),
{
    let m = 8 * a.len();
    let ba = bits_of_bytes(a);
    let bb = bits_of_bytes(b);
    let bc = bits_of_bytes(c);
    lemma_bits_of_xor(a, b);
    lemma_bits_bytes_inverse(a, Seq::empty());
    lemma_bits_bytes_inverse(b, Seq::empty());
    let ca = clmul_bits(ba, bc);
    let cb = clmul_bits(bb, bc);
    lemma_clmul_bits_linear(ba, bb, bc);
    lemma_reduce_linear(ca, cb, m as int, t1, t2, t3, 2 * m - 1);
    lemma_reduce_linear(cb, ca, m as int, t1, t2, t3, 2 * m - 1);
    lemma_reduce_len(ca, m as int, t1, t2, t3, 2 * m - 1);
    lemma_reduce_len(cb, m as int, t1, t2, t3, 2 * m - 1);
    let ra = reduce_from(ca, m as int, t1, t2, t3, 2 * m - 1);
    let rb = reduce_from(cb, m as int, t1, t2, t3, 2 * m - 1);
    let la = ra.subrange(0, m as int);
    let lb = rb.subrange(0, m as int);
    assert(xor_seq(ra, rb).subrange(0, m as int) =~= xor_seq(la, lb));
    lemma_bytes_of_xor(la, lb);
}

/// Multiplication in F_{2^128} distributes over addition.
pub proof fn lemma_gf128_mul_distrib(a: Seq<u8>, b: Seq<u8>, c: Seq<u8>)
    requires
        a.len() == 16,
        b.len() == 16,
        c.len() == 16,
    ensures
        gf128_mul_spec(xor_seq(a, b), c) == xor_seq(gf128_mul_spec(a, c), gf128_mul_spec(b, c)),
        gf128_mul_spec(c, xor_seq(a, b)) == xor_seq(gf128_mul_spec(c, a), gf128_mul_spec(c, b)),
        gf128_mul_spec(a, c).len() == 16,
{
    lemma_gf2_poly_mul_linear(a, b, c, 7, 2, 1);
    lemma_gf128_mul_comm(c, xor_seq(a, b));
    lemma_gf128_mul_comm(c, a);
    lemma_gf128_mul_comm(c, b);
}

/// Multiplication in F_{2^64} on words distributes over addition in the first factor.
proof fn lemma_gf64_mul_u64_linear(a: u64, c: u64, b: u64)
    ensures
        gf64_mul_u64(a ^ c, b) == gf64_mul_u64(a, b) ^ gf64_mul_u64(c, b),
    decreases b,
{
    if b == 0 {
        assert(0u64 ^ 0u64 == 0u64) by (bit_vector);
    } else {
        assert(xtime64(a ^ c) == xtime64(a) ^ xtime64(c)) by (bit_vector);
        lemma_gf64_mul_u64_linear(xtime64(a), xtime64(c), b / 2);
        let ra = gf64_mul_u64(xtime64(a), b / 2);
        let rc = gf64_mul_u64(xtime64(c), b / 2);
        assert((a ^ c) ^ (ra ^ rc) == (a ^ ra) ^ (c ^ rc)) by (bit_vector);
    }
}

/// The little-endian bytes of an exclusive or of words.
proof fn lemma_le_bytes_xor(x: u64, y: u64)
    ensures
        spec_u64_to_le_bytes(x ^ y) == xor_seq(spec_u64_to_le_bytes(x), spec_u64_to_le_bytes(y)),
{
    vstd::bytes::spec_u64_to_le_bytes_to_open(x);
    vstd::bytes::spec_u64_to_le_bytes_to_open(y);
    vstd::bytes::spec_u64_to_le_bytes_to_open(x ^ y);
    assert(((x ^ y) & 0xff) as u8 == ((x & 0xff) as u8) ^ ((y & 0xff) as u8)
        && (((x ^ y) >> 8) & 0xff) as u8 == (((x >> 8) & 0xff) as u8) ^ (((y >> 8) & 0xff) as u8)
        && (((x ^ y) >> 16) & 0xff) as u8 == (((x >> 16) & 0xff) as u8) ^ (((y >> 16) & 0xff) as u8)
        && (((x ^ y) >> 24) & 0xff) as u8 == (((x >> 24) & 0xff) as u8) ^ (((y >> 24) & 0xff) as u8)
        && (((x ^ y) >> 32) & 0xff) as u8 == (((x >> 32) & 0xff) as u8) ^ (((y >> 32) & 0xff) as u8)
        && (((x ^ y) >> 40) & 0xff) as u8 == (((x >> 40) & 0xff) as u8) ^ (((y >> 40) & 0xff) as u8)
        && (((x ^ y) >> 48) & 0xff) as u8 == (((x >> 48) & 0xff) as u8) ^ (((y >> 48) & 0xff) as u8)
        && (((x ^ y) >> 56) & 0xff) as u8 == (((x >> 56) & 0xff) as u8) ^ (((y >> 56) & 0xff) as u8))
        by (bit_vector);
    assert(spec_u64_to_le_bytes(x ^ y) =~= xor_seq(spec_u64_to_le_bytes(x), spec_u64_to_le_bytes(y)));
}

/// Multiplication in F_{2^64} distributes over addition in the first factor.
pub proof fn lemma_gf64_mul_distrib(a: Seq<u8>, c: Seq<u8>, b: Seq<u8>)
    requires
        a.len() == 8,
        c.len() == 8,
    ensures
        gf64_mul_spec(xor_seq(a, c), b) == xor_seq(gf64_mul_spec(a, b), gf64_mul_spec(c, b)),
        gf64_mul_spec(a, b).len() == 8,
{
    vstd::bytes::lemma_auto_spec_u64_to_from_le_bytes();
    let x = spec_u64_from_le_bytes(a);
    let y = spec_u64_from_le_bytes(c);
    let t = spec_u64_from_le_bytes(b);
    assert(spec_u64_to_le_bytes(x) == a);
    assert(spec_u64_to_le_bytes(y) == c);
    lemma_le_bytes_xor(x, y);
    assert(spec_u64_from_le_bytes(xor_seq(a, c)) == x ^ y);
    lemma_gf64_mul_u64_linear(x, y, t);
    lemma_le_bytes_xor(gf64_mul_u64(x, t), gf64_mul_u64(y, t));
}

/// Multiplication by x in F_{2^128} is linear.
pub(crate) proof fn lemma_mulx_linear(a: Seq<u8>, c: Seq<u8>)
    requires
        a.len() == 16,
        c.len() == 16,
    ensures
        mulx(xor_seq(a, c)) == xor_seq(mulx(a), mulx(c)),
        mulx(a).len() == 16,
{
    let ac = xor_seq(a, c);
    assert forall|k: int| 1 <= k < 16 implies #[trigger] mulx(ac)[k] == xor_seq(mulx(a), mulx(c))[k] by {
        let (x, y, xp, yp) = (a[k], c[k], a[k - 1], c[k - 1]);
        assert((((x ^ y) << 1u8) | ((xp ^ yp) >> 7u8)) as u8 == (((x << 1u8) | (xp >> 7u8)) as u8) ^ (((y << 1u8) | (yp >> 7u8)) as u8))
            by (bit_vector);
    }
    let (x0, y0, x15, y15) = (a[0], c[0], a[15], c[15]);
    assert(({
        let m = |s0: u8, s15: u8| if (s15 >> 7u8) & 1u8 == 1 { ((s0 << 1u8) as u8) ^ 0x87u8 } else { (s0 << 1u8) as u8 };
        m(x0 ^ y0, x15 ^ y15) == m(x0, x15) ^ m(y0, y15)
    })) by (bit_vector);
    assert(mulx(ac)[0] == xor_seq(mulx(a), mulx(c))[0]);
    assert(mulx(ac) =~= xor_seq(mulx(a), mulx(c)));
}

/// Multiplication by x^n in F_{2^128} is linear.
pub(crate) proof fn lemma_mulx_pow_linear(a: Seq<u8>, c: Seq<u8>, n: nat)
    requires
        a.len() == 16,
        c.len() == 16,
    ensures
        mulx_pow(xor_seq(a, c), n) == xor_seq(mulx_pow(a, n), mulx_pow(c, n)),
        mulx_pow(a, n).len() == 16,
    decreases n,
{
    if n > 0 {
        lemma_mulx_pow_linear(a, c, (n - 1) as nat);
        lemma_mulx_pow_linear(c, a, (n - 1) as nat);
        lemma_mulx_linear(mulx_pow(a, (n - 1) as nat), mulx_pow(c, (n - 1) as nat));
    }
}

/// Shift-and-add multiplication is linear in its first factor.
pub(crate) proof fn lemma_shift_add_mul_linear(a: Seq<u8>, c: Seq<u8>, b: Seq<u8>, n: nat)
    requires
        a.len() == 16,
        c.len() == 16,
    ensures
        shift_add_mul(xor_seq(a, c), b, n) == xor_seq(shift_add_mul(a, b, n), shift_add_mul(c, b, n)),
        shift_add_mul(a, b, n).len() == 16,
    decreases n,
{
    if n == 0 {
        assert forall|i: int| 0 <= i < 16 implies #[trigger] shift_add_mul(xor_seq(a, c), b, n)[i]
            == xor_seq(shift_add_mul(a, b, n), shift_add_mul(c, b, n))[i] by {
            crate::utils::math::lemma_xor_assoc(0, 0, 0);
        }
        assert(shift_add_mul(xor_seq(a, c), b, n) =~= xor_seq(shift_add_mul(a, b, n), shift_add_mul(c, b, n)));
    } else {
        let m = (n - 1) as nat;
        lemma_shift_add_mul_linear(a, c, b, m);
        lemma_shift_add_mul_linear(c, a, b, m);
        lemma_mulx_pow_linear(a, c, m);
        lemma_mulx_pow_linear(c, a, m);
        let pa = shift_add_mul(a, b, m);
        let pc = shift_add_mul(c, b, m);
        let xa = mulx_pow(a, m);
        let xc = mulx_pow(c, m);
        assert forall|i: int| 0 <= i < 16 implies #[trigger] xor_seq(xor_seq(pa, pc), xor_seq(xa, xc))[i]
            == xor_seq(xor_seq(pa, xa), xor_seq(pc, xc))[i] by {
            lemma_xor_swap(pa[i], pc[i], xa[i], xc[i]);
        }
        assert(xor_seq(xor_seq(pa, pc), xor_seq(xa, xc)) =~= xor_seq(xor_seq(pa, xa), xor_seq(pc, xc)));
    }
}

/// Multiplying an element of F_{2^128} by a 64-bit element distributes over addition in the
/// first factor.
pub proof fn lemma_gf_lambda_mul_64_distrib(a: Seq<u8>, c: Seq<u8>, b: Seq<u8>)
    requires
        a.len() == 16,
        c.len() == 16,
    ensures
        gf_lambda_mul_64_spec(xor_seq(a, c), b) == xor_seq(gf_lambda_mul_64_spec(a, b), gf_lambda_mul_64_spec(c, b)),
        gf_lambda_mul_64_spec(a, b).len() == 16,
{
    lemma_shift_add_mul_linear(a, c, b, 64);
}

} // verus!
