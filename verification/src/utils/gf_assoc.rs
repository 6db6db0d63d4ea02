use vstd::prelude::*;
use crate::utils::galois_field::{clmul_bits, clmul_coeff, gf128_mul_spec, gf_one, mulx, mulx_pow, reduce_from, shift_add_mul, shl1};
use crate::utils::gf_laws::{
    lemma_bytes_of_xor, lemma_clmul_coeff_bit, lemma_flip4_at, lemma_gf128_mul_comm, lemma_gf128_mul_distrib,
    lemma_gf128_mul_one, lemma_gf128_mul_zero, lemma_mulx_linear, lemma_one_bits, lemma_reduce_len, reduce_step, step_hits, zero_bytes,
};
use crate::utils::math::{bit_of, bits_of_bytes, bytes_of_bits, is_bit_seq, lemma_bits_bytes_inverse, lemma_xor_assoc, xor_seq};

verus! {

/// A bit string times x: every bit moves up one place, the top bit drops out.
pub open spec fn bshift(s: Seq<u8>) -> Seq<u8> {
    Seq::new(s.len(), |k: int| if k == 0 { 0u8 } else { s[k - 1] })
}

/// The carry-less product with `b` times x is the carry-less product with `b`, times x.
proof fn lemma_clmul_coeff_shift(a: Seq<u8>, b: Seq<u8>, n: int, k: int)
    requires
        b.len() >= 1,
        b[b.len() - 1] == 0,
        0 <= n <= a.len(),
        0 <= k,
    ensures
        clmul_coeff(a, bshift(b), n, k) == if k == 0 { 0u8 } else { clmul_coeff(a, b, n, k - 1) },
    decreases n,
{
    if n > 0 {
        lemma_clmul_coeff_shift(a, b, n - 1, k);
        let l = b.len() as int;
        let ts: u8 = if 0 <= k - (n - 1) < l && a[n - 1] == 1 && bshift(b)[k - (n - 1)] == 1 { 1u8 } else { 0u8 };
        lemma_xor_assoc(clmul_coeff(a, bshift(b), n - 1, k), 0, 0);
        if k == 0 {
            assert(ts == 0);
            lemma_xor_assoc(0, 0, 0);
        } else {
            let tb: u8 = if 0 <= (k - 1) - (n - 1) < l && a[n - 1] == 1 && b[(k - 1) - (n - 1)] == 1 { 1u8 } else { 0u8 };
            assert(ts == tb);
        }
    } else {
        if k != 0 {
        }
    }
}

/// One reduction step commutes with multiplying by x.
proof fn lemma_reduce_step_shift(r: Seq<u8>, m: int, t1: int, t2: int, t3: int, i: int)
    requires
        0 < t3 < t2 < t1 < m <= i,
        i + 1 < r.len(),
    ensures
        reduce_step(bshift(r), m, t1, t2, t3, i + 1) == bshift(reduce_step(r, m, t1, t2, t3, i)),
        reduce_step(r, m, t1, t2, t3, i).len() == r.len(),
{
    let a = reduce_step(bshift(r), m, t1, t2, t3, i + 1);
    let b = bshift(reduce_step(r, m, t1, t2, t3, i));
    lemma_flip4_at(r, m, t1, t2, t3, i, 0);
    lemma_flip4_at(bshift(r), m, t1, t2, t3, i + 1, 0);
    assert forall|k: int| 0 <= k < r.len() implies #[trigger] a[k] == b[k] by {
        lemma_flip4_at(bshift(r), m, t1, t2, t3, i + 1, k);
        if k > 0 {
            lemma_flip4_at(r, m, t1, t2, t3, i, k - 1);
            assert(step_hits(m, t1, t2, t3, i + 1, k) == step_hits(m, t1, t2, t3, i, k - 1));
        }
    }
    assert(a =~= b);
}

/// Reducing a product times x: the reduction of the product, times x, and then one more
/// reduction step at degree m.
proof fn lemma_reduce_shift(r: Seq<u8>, m: int, t1: int, t2: int, t3: int, i: int)
    requires
        0 < t3 < t2 < t1 < m <= i,
        i + 1 < r.len(),
    ensures
        reduce_from(bshift(r), m, t1, t2, t3, i + 1) == reduce_from(bshift(reduce_from(r, m, t1, t2, t3, i)), m, t1, t2, t3, m),
    decreases i - m,
{
    lemma_reduce_step_shift(r, m, t1, t2, t3, i);
    let r2 = reduce_step(r, m, t1, t2, t3, i);
    assert(reduce_from(bshift(r), m, t1, t2, t3, i + 1) == reduce_from(reduce_step(bshift(r), m, t1, t2, t3, i + 1), m, t1, t2, t3, i));
    assert(reduce_from(r, m, t1, t2, t3, i) == reduce_from(r2, m, t1, t2, t3, i - 1));
    if i > m {
        lemma_reduce_shift(r2, m, t1, t2, t3, i - 1);
    } else {
        assert(reduce_from(r2, m, t1, t2, t3, i - 1) == r2);
    }
}

/// The bits of one byte of a byte string shifted up by one place, and of the byte that the
/// reduction modulo x^128 + x^7 + x^2 + x + 1 changes.
proof fn lemma_shift_byte_bits(x: u8, y: u8, j: u8)
    requires
        j < 8,
    ensures
        bit_of(((x << 1u8) | (y >> 7u8)) as u8, j as int) == if j == 0 { bit_of(y, 7) } else { bit_of(x, j - 1) },
        bit_of((x << 1u8) as u8, j as int) == if j == 0 { 0u8 } else { bit_of(x, j - 1) },
        bit_of(x ^ 0x87u8, j as int) == bit_of(x, j as int) ^ (if j == 0 || j == 1 || j == 2 || j == 7 { 1u8 } else { 0u8 }),
        bit_of(x, j as int) <= 1,
{
    let jm: u8 = if j == 0 { 0u8 } else { (j - 1) as u8 };
    assert(j != 0 ==> bit_of(x, j - 1) == (x >> jm) & 1u8);
    assert(((((x << 1u8) | (y >> 7u8)) as u8 >> j) & 1u8) == if j == 0 { (y >> 7u8) & 1u8 } else { (x >> jm) & 1u8 }
        && ((((x << 1u8) as u8) >> j) & 1u8) == if j == 0 { 0u8 } else { (x >> jm) & 1u8 }
        && (((x ^ 0x87u8) >> j) & 1u8) == ((x >> j) & 1u8) ^ (if j == 0 || j == 1 || j == 2 || j == 7 { 1u8 } else { 0u8 })
        && ((x >> j) & 1u8) <= 1) by (bit_vector)
        requires
            j < 8,
            jm == if j == 0 { 0u8 } else { (j - 1) as u8 },
    ;
}

/// The bits of a 16-byte string times x in F_{2^128}: shifted up by one place, and, where the
/// top bit was set, with bits 0, 1, 2 and 7 flipped.
proof fn lemma_mulx_bits(g: Seq<u8>, k: int)
    requires
        g.len() == 16,
        0 <= k < 128,
    ensures
        mulx(g).len() == 16,
        bits_of_bytes(mulx(g))[k] == bshift(bits_of_bytes(g))[k] ^ (if bits_of_bytes(g)[127] == 1 && (k == 0 || k == 1 || k == 2 || k == 7) {
            1u8
        } else {
            0u8
        }),
{
    let q = k / 8;
    let j = (k % 8) as u8;
    let t = shl1(g);
    let top = bits_of_bytes(g)[127];
    assert(top == bit_of(g[15], 7));
    assert(top == (g[15] >> 7u8) & 1u8);
    lemma_xor_assoc(bshift(bits_of_bytes(g))[k], 0, 0);
    if q == 0 {
        lemma_shift_byte_bits(g[0], 0, j);
        lemma_shift_byte_bits((g[0] << 1u8) as u8, 0, j);
        assert(bshift(bits_of_bytes(g))[k] == if k == 0 { 0u8 } else { bit_of(g[0], k - 1) });
    } else {
        lemma_shift_byte_bits(g[q], g[q - 1], j);
        assert(k - 1 == 8 * q + j - 1);
        if j == 0 {
            assert((k - 1) / 8 == q - 1 && (k - 1) % 8 == 7);
        } else {
            assert((k - 1) / 8 == q && (k - 1) % 8 == j - 1);
        }
    }
}

/// The top coefficient of a carry-less product of two strings of one length is 0.
proof fn lemma_clmul_top(a: Seq<u8>, b: Seq<u8>, n: int)
    requires
        0 <= n <= a.len(),
        a.len() == b.len(),
    ensures
        clmul_coeff(a, b, n, a.len() + b.len() - 1) == 0,
    decreases n,
{
    if n > 0 {
        lemma_clmul_top(a, b, n - 1);
        lemma_xor_assoc(0, 0, 0);
    }
}

/// The carry-less product with b times x is the product with b, times x.
proof fn lemma_clmul_bits_shift(ba: Seq<u8>, bb: Seq<u8>)
    requires
        ba.len() == bb.len(),
        bb.len() >= 1,
        bb[bb.len() - 1] == 0,
    ensures
        clmul_bits(ba, bshift(bb)) == bshift(clmul_bits(ba, bb)),
        clmul_bits(ba, bb)[ba.len() + bb.len() - 1] == 0,
{
    let c = clmul_bits(ba, bb);
    let cs = clmul_bits(ba, bshift(bb));
    assert forall|k: int| 0 <= k < c.len() implies #[trigger] cs[k] == bshift(c)[k] by {
        lemma_clmul_coeff_shift(ba, bb, ba.len() as int, k);
    }
    assert(cs =~= bshift(c));
    lemma_clmul_top(ba, bb, ba.len() as int);
}

/// The reduced product of a and b, as bits, before its low half is read.
pub open spec fn reduced_product(a: Seq<u8>, b: Seq<u8>) -> Seq<u8> {
    reduce_from(clmul_bits(bits_of_bytes(a), bits_of_bytes(b)), 128, 7, 2, 1, 255)
}

/// Multiplying b by x (with the top bit of b clear) multiplies the unreduced product by x, and
/// the reduction then needs one more step at degree 128.
proof fn lemma_gf_mulx_raw(a: Seq<u8>, b: Seq<u8>)
    requires
        a.len() == 16,
        b.len() == 16,
        bits_of_bytes(b)[127] == 0,
    ensures
        mulx(b) == shl1(b),
        gf128_mul_spec(a, mulx(b)) == bytes_of_bits(reduce_step(bshift(reduced_product(a, b)), 128, 7, 2, 1, 128).subrange(0, 128)),
        reduced_product(a, b).len() == 256,
        is_bit_seq(reduced_product(a, b)),
{
    let ba = bits_of_bytes(a);
    let bb = bits_of_bytes(b);
    assert(bb[127] == bit_of(b[15], 7));
    assert(mulx(b) == shl1(b));
    assert forall|k: int| 0 <= k < 128 implies #[trigger] bits_of_bytes(mulx(b))[k] == bshift(bb)[k] by {
        lemma_mulx_bits(b, k);
        lemma_xor_assoc(bshift(bb)[k], 0, 0);
    }
    assert(bits_of_bytes(mulx(b)) =~= bshift(bb));
    lemma_clmul_bits_shift(ba, bb);
    let c = clmul_bits(ba, bb);
    assert forall|k: int| 0 <= k < c.len() implies #[trigger] c[k] <= 1 by {
        lemma_clmul_coeff_bit(ba, bb, ba.len() as int, k);
    }
    crate::utils::gf_laws::lemma_reduce_linear(c, c, 128, 7, 2, 1, 255);
    lemma_reduce_len(c, 128, 7, 2, 1, 255);
    assert(reduce_step(c, 128, 7, 2, 1, 255) == c);
    assert(reduce_from(c, 128, 7, 2, 1, 255) == reduce_from(c, 128, 7, 2, 1, 254));
    lemma_reduce_shift(c, 128, 7, 2, 1, 254);
    let r = reduced_product(a, b);
    let sr = bshift(r);
    assert(reduce_from(sr, 128, 7, 2, 1, 128) == reduce_from(reduce_step(sr, 128, 7, 2, 1, 128), 128, 7, 2, 1, 127));
}

/// Bit `k` of the last reduction step is bit `k` of the reduced product times x.
proof fn lemma_final_bit(r: Seq<u8>, g: Seq<u8>, k: int)
    requires
        r.len() == 256,
        g.len() == 16,
        bits_of_bytes(g) == r.subrange(0, 128),
        0 <= k < 128,
    ensures
        reduce_step(bshift(r), 128, 7, 2, 1, 128)[k] == bits_of_bytes(mulx(g))[k],
{
    let sr = bshift(r);
    lemma_mulx_bits(g, k);
    crate::utils::gf_laws::lemma_flip4_at(sr, 128, 7, 2, 1, 128, k);
    assert(sr[128] == bits_of_bytes(g)[127]);
    assert(sr[k] == bshift(bits_of_bytes(g))[k]);
    lemma_xor_assoc(sr[k], 0, 0);
}

/// Multiplying the second factor by x (with its top bit clear) multiplies the product by x.
pub proof fn lemma_gf128_mul_mulx(a: Seq<u8>, b: Seq<u8>)
    requires
        a.len() == 16,
        b.len() == 16,
        bits_of_bytes(b)[127] == 0,
    ensures
        gf128_mul_spec(a, mulx(b)) == mulx(gf128_mul_spec(a, b)),
{
    lemma_gf_mulx_raw(a, b);
    let r = reduced_product(a, b);
    let low = r.subrange(0, 128);
    let g = gf128_mul_spec(a, b);
    assert(g == bytes_of_bits(low));
    assert(is_bit_seq(low));
    lemma_bits_bytes_inverse(g, low);
    assert(bits_of_bytes(g) == low);
    let fl = reduce_step(bshift(r), 128, 7, 2, 1, 128).subrange(0, 128);
    assert forall|k: int| 0 <= k < 128 implies #[trigger] fl[k] == bits_of_bytes(mulx(g))[k] by {
        lemma_final_bit(r, g, k);
    }
    lemma_mulx_bits(g, 0);
    crate::utils::gf_laws::lemma_flip4_at(bshift(r), 128, 7, 2, 1, 128, 0);
    assert(fl =~= bits_of_bytes(mulx(g)));
    lemma_bits_bytes_inverse(mulx(g), Seq::empty());
}

/// The bit string with bit `i` set and no other.
pub open spec fn unit_bits(i: int) -> Seq<u8> {
    Seq::new(128, |k: int| if k == i { 1u8 } else { 0u8 })
}

/// x^i in F_{2^128}, as x times x ... times one.
pub open spec fn x_pow(i: nat) -> Seq<u8> {
    mulx_pow(gf_one(), i)
}

/// a times x^i is a times x, i times.
proof fn lemma_gf_unit(a: Seq<u8>, i: nat)
    requires
        a.len() == 16,
        i < 128,
    ensures
        gf128_mul_spec(a, x_pow(i)) == mulx_pow(a, i),
    decreases i,
{
    if i == 0 {
        lemma_gf128_mul_one(a);
    } else {
        lemma_gf_unit(a, (i - 1) as nat);
        let e = x_pow((i - 1) as nat);
        lemma_x_pow_bits((i - 1) as nat);
        assert(bits_of_bytes(e)[127] == 0);
        lemma_gf128_mul_mulx(a, e);
    }
}

/// The low `n` bits of b, the others cleared.
pub open spec fn low_bits(b: Seq<u8>, n: int) -> Seq<u8> {
    Seq::new(128, |k: int| if k < n { bits_of_bytes(b)[k] } else { 0u8 })
}

/// The zero field element has no bits set.
pub(crate) proof fn lemma_zero_bits()
    ensures
        bits_of_bytes(zero_bytes(16)) == Seq::new(128, |k: int| 0u8),
        bytes_of_bits(Seq::new(128, |k: int| 0u8)) == zero_bytes(16),
{
    assert forall|k: int| 0 <= k < 128 implies #[trigger] bits_of_bytes(zero_bytes(16))[k] == 0u8 by {
        crate::utils::math::lemma_flip_bit_of_byte(0, 0, (k % 8) as u8);
    }
    assert(bits_of_bytes(zero_bytes(16)) =~= Seq::new(128, |k: int| 0u8));
    lemma_bits_bytes_inverse(zero_bytes(16), Seq::empty());
}

/// x^i has bit i set and no other.
proof fn lemma_x_pow_bits(i: nat)
    requires
        i < 128,
    ensures
        x_pow(i).len() == 16,
        bits_of_bytes(x_pow(i)) == unit_bits(i as int),
    decreases i,
{
    if i == 0 {
        lemma_one_bits();
        assert(bits_of_bytes(gf_one()) =~= unit_bits(0));
    } else {
        lemma_x_pow_bits((i - 1) as nat);
        let e = x_pow((i - 1) as nat);
        assert forall|k: int| 0 <= k < 128 implies #[trigger] bits_of_bytes(mulx(e))[k] == unit_bits(i as int)[k] by {
            lemma_mulx_bits(e, k);
            lemma_xor_assoc(bshift(bits_of_bytes(e))[k], 0, 0);
        }
        lemma_mulx_bits(e, 0);
        assert(bits_of_bytes(mulx(e)) =~= unit_bits(i as int));
    }
}

/// The low n bits of b are its low n - 1 bits plus bit n - 1.
proof fn lemma_low_bits_xor(b: Seq<u8>, n: int)
    requires
        b.len() == 16,
        0 < n <= 128,
    ensures
        bits_of_bytes(b)[n - 1] == 1 ==> low_bits(b, n) == xor_seq(low_bits(b, n - 1), unit_bits(n - 1)),
        bits_of_bytes(b)[n - 1] != 1 ==> low_bits(b, n) == low_bits(b, n - 1),
        is_bit_seq(low_bits(b, n - 1)),
{
    let prev = low_bits(b, n - 1);
    let cur = low_bits(b, n);
    let bb = bits_of_bytes(b);
    assert forall|k: int| 0 <= k < 128 implies #[trigger] prev[k] <= 1 by {
        crate::utils::math::lemma_flip_bit_of_byte(b[k / 8], 0, (k % 8) as u8);
    }
    if bb[n - 1] == 1 {
        let u = unit_bits(n - 1);
        lemma_xor_assoc(1, 0, 0);
        lemma_xor_assoc(0, 0, 0);
        assert forall|k: int| 0 <= k < 128 implies #[trigger] cur[k] == xor_seq(prev, u)[k] by {
            lemma_xor_assoc(prev[k], 0, 0);
        }
        assert(cur =~= xor_seq(prev, u));
    } else {
        crate::utils::math::lemma_flip_bit_of_byte(b[(n - 1) / 8], 0, ((n - 1) % 8) as u8);
        assert(cur =~= prev);
    }
}

/// Adding bit n - 1 of b to its low n - 1 bits.
proof fn lemma_low_bits_step(b: Seq<u8>, n: int)
    requires
        b.len() == 16,
        0 < n <= 128,
    ensures
        bits_of_bytes(b)[n - 1] == 1 ==> bytes_of_bits(low_bits(b, n)) == xor_seq(bytes_of_bits(low_bits(b, n - 1)), x_pow((n - 1) as nat)),
        bits_of_bytes(b)[n - 1] != 1 ==> low_bits(b, n) == low_bits(b, n - 1),
        bytes_of_bits(low_bits(b, n)).len() == 16,
{
    lemma_low_bits_xor(b, n);
    if bits_of_bytes(b)[n - 1] == 1 {
        let u = unit_bits(n - 1);
        assert(is_bit_seq(u));
        lemma_bytes_of_xor(low_bits(b, n - 1), u);
        lemma_x_pow_bits((n - 1) as nat);
        lemma_bits_bytes_inverse(x_pow((n - 1) as nat), Seq::empty());
    }
}

/// a times the low n bits of b is the shift-and-add product over those bits.
proof fn lemma_gf_low_bits(a: Seq<u8>, b: Seq<u8>, n: int)
    requires
        a.len() == 16,
        b.len() == 16,
        0 <= n <= 128,
    ensures
        gf128_mul_spec(a, bytes_of_bits(low_bits(b, n))) == shift_add_mul(a, b, n as nat),
        bytes_of_bits(low_bits(b, n)).len() == 16,
    decreases n,
{
    if n == 0 {
        lemma_zero_bits();
        assert(low_bits(b, 0) =~= Seq::new(128, |k: int| 0u8));
        lemma_gf128_mul_zero(a);
        assert(shift_add_mul(a, b, 0) =~= zero_bytes(16));
    } else {
        lemma_gf_low_bits(a, b, n - 1);
        lemma_low_bits_step(b, n);
        if bits_of_bytes(b)[n - 1] == 1 {
            lemma_gf_unit(a, (n - 1) as nat);
            lemma_x_pow_bits((n - 1) as nat);
            lemma_gf128_mul_distrib(bytes_of_bits(low_bits(b, n - 1)), x_pow((n - 1) as nat), a);
        }
    }
}

/// Multiplication in F_{2^128} is shift-and-add: the sum of a times x^i over the set bits i of b.
pub proof fn lemma_gf128_mul_shift_add(a: Seq<u8>, b: Seq<u8>)
    requires
        a.len() == 16,
        b.len() == 16,
    ensures
        gf128_mul_spec(a, b) == shift_add_mul(a, b, 128),
{
    lemma_gf_low_bits(a, b, 128);
    lemma_bits_bytes_inverse(b, Seq::empty());
    assert(low_bits(b, 128) =~= bits_of_bytes(b));
}

/// Multiplying by x commutes with multiplying by x^j.
proof fn lemma_mulx_pow_mulx(a: Seq<u8>, j: nat)
    ensures
        mulx_pow(mulx(a), j) == mulx(mulx_pow(a, j)),
    decreases j,
{
    if j > 0 {
        lemma_mulx_pow_mulx(a, (j - 1) as nat);
    }
}

/// x times zero is zero.
proof fn lemma_mulx_zero()
    ensures
        mulx(zero_bytes(16)) == zero_bytes(16),
{
    let z = zero_bytes(16);
    lemma_mulx_linear(z, z);
    assert(xor_seq(z, z) =~= z) by {
        lemma_xor_assoc(0, 0, 0);
    }
    let m = mulx(z);
    assert forall|i: int| 0 <= i < 16 implies #[trigger] xor_seq(m, m)[i] == z[i] by {
        lemma_xor_assoc(m[i], 0, 0);
    }
    assert(xor_seq(m, m) =~= z);
}

/// Shift-and-add with the first factor times x is the shift-and-add product, times x.
proof fn lemma_shift_add_mulx(a: Seq<u8>, b: Seq<u8>, n: nat)
    requires
        a.len() == 16,
    ensures
        shift_add_mul(mulx(a), b, n) == mulx(shift_add_mul(a, b, n)),
    decreases n,
{
    lemma_mulx_linear(a, a);
    if n == 0 {
        lemma_mulx_zero();
        assert(shift_add_mul(a, b, 0) =~= zero_bytes(16));
        assert(shift_add_mul(mulx(a), b, 0) =~= zero_bytes(16));
    } else {
        let m = (n - 1) as nat;
        lemma_shift_add_mulx(a, b, m);
        lemma_mulx_pow_mulx(a, m);
        crate::utils::gf_laws::lemma_shift_add_mul_linear(a, a, b, m);
        crate::utils::gf_laws::lemma_mulx_pow_linear(a, a, m);
        lemma_mulx_linear(shift_add_mul(a, b, m), mulx_pow(a, m));
    }
}

/// Multiplying the first factor by x^j multiplies the product by x^j.
pub proof fn lemma_gf128_mul_mulx_pow_left(a: Seq<u8>, b: Seq<u8>, j: nat)
    requires
        a.len() == 16,
        b.len() == 16,
    ensures
        gf128_mul_spec(mulx_pow(a, j), b) == mulx_pow(gf128_mul_spec(a, b), j),
        mulx_pow(a, j).len() == 16,
    decreases j,
{
    crate::utils::gf_laws::lemma_mulx_pow_linear(a, a, j);
    if j > 0 {
        let m = (j - 1) as nat;
        lemma_gf128_mul_mulx_pow_left(a, b, m);
        let y = mulx_pow(a, m);
        lemma_mulx_linear(y, y);
        lemma_gf128_mul_shift_add(mulx(y), b);
        lemma_gf128_mul_shift_add(y, b);
        lemma_shift_add_mulx(y, b, 128);
    }
}

/// b times the shift-and-add product of a and c over the low n bits of c.
pub(crate) proof fn lemma_gf_shift_add_right(a: Seq<u8>, b: Seq<u8>, c: Seq<u8>, n: nat)
    requires
        a.len() == 16,
        b.len() == 16,
        n <= 128,
    ensures
        gf128_mul_spec(b, shift_add_mul(a, c, n)) == shift_add_mul(gf128_mul_spec(a, b), c, n),
    decreases n,
{
    let g = gf128_mul_spec(a, b);
    lemma_gf128_mul_distrib(a, a, b);
    if n == 0 {
        assert(shift_add_mul(a, c, 0) =~= zero_bytes(16));
        assert(shift_add_mul(g, c, 0) =~= zero_bytes(16));
        lemma_gf128_mul_zero(b);
    } else {
        let m = (n - 1) as nat;
        lemma_gf_shift_add_right(a, b, c, m);
        crate::utils::gf_laws::lemma_shift_add_mul_linear(a, a, c, m);
        crate::utils::gf_laws::lemma_mulx_pow_linear(a, a, m);
        let p = shift_add_mul(a, c, m);
        let y = mulx_pow(a, m);
        lemma_gf128_mul_distrib(p, y, b);
        lemma_gf128_mul_comm(b, y);
        lemma_gf128_mul_mulx_pow_left(a, b, m);
    }
}

/// (a b) c = b (a c) in F_{2^128}.
proof fn lemma_gf128_mul_rotate(a: Seq<u8>, b: Seq<u8>, c: Seq<u8>)
    requires
        a.len() == 16,
        b.len() == 16,
        c.len() == 16,
    ensures
        gf128_mul_spec(gf128_mul_spec(a, b), c) == gf128_mul_spec(b, gf128_mul_spec(a, c)),
{
    lemma_gf128_mul_distrib(a, a, b);
    lemma_gf_shift_add_right(a, b, c, 128);
    lemma_gf128_mul_shift_add(a, c);
    lemma_gf128_mul_shift_add(gf128_mul_spec(a, b), c);
}

/// Multiplication in F_{2^128} is associative.
pub proof fn lemma_gf128_mul_assoc(a: Seq<u8>, b: Seq<u8>, c: Seq<u8>)
    requires
        a.len() == 16,
        b.len() == 16,
        c.len() == 16,
    ensures
        gf128_mul_spec(gf128_mul_spec(a, b), c) == gf128_mul_spec(a, gf128_mul_spec(b, c)),
{
    lemma_gf128_mul_distrib(a, a, b);
    lemma_gf128_mul_distrib(b, b, c);
    lemma_gf128_mul_distrib(b, b, a);
    lemma_gf128_mul_rotate(a, b, c);
    lemma_gf128_mul_rotate(b, c, a);
    lemma_gf128_mul_comm(a, gf128_mul_spec(b, c));
    lemma_gf128_mul_comm(c, gf128_mul_spec(b, a));
    lemma_gf128_mul_comm(b, a);
}


/// Shift-and-add by a zero extension: the bits of `bx` past the eight bytes of `b` are zero,
/// so they add nothing.
proof fn lemma_shift_add_zero_ext(a: Seq<u8>, b: Seq<u8>, bx: Seq<u8>, n: nat)
    requires
        b.len() == 8,
        bx.len() == 16,
        forall|i: int| 0 <= i < 8 ==> #[trigger] bx[i] == b[i],
        forall|i: int| 8 <= i < 16 ==> #[trigger] bx[i] == 0,
        n <= 128,
    ensures
        shift_add_mul(a, bx, n) == shift_add_mul(a, b, if n <= 64 { n } else { 64 }),
    decreases n,
{
    if n > 0 {
        lemma_shift_add_zero_ext(a, b, bx, (n - 1) as nat);
        let k = n - 1;
        if k < 64 {
            assert(bx[k / 8] == b[k / 8]);
        } else {
            assert(bx[k / 8] == 0);
            crate::utils::math::lemma_flip_bit_of_byte(0, 0, (k % 8) as u8);
        }
    }
}

/// Multiplying by a 64-bit element is multiplying in F_{2^128} by its zero extension.
pub proof fn lemma_gf_lambda_mul_64_zero_ext(a: Seq<u8>, b: Seq<u8>, bx: Seq<u8>)
    requires
        a.len() == 16,
        b.len() == 8,
        bx == b + Seq::new(8, |i: int| 0u8),
    ensures
        crate::utils::galois_field::gf_lambda_mul_64_spec(a, b) == crate::utils::galois_field::gf_lambda_mul_spec(a, bx),
{
    lemma_gf128_mul_shift_add(a, bx);
    lemma_shift_add_zero_ext(a, b, bx, 128);
}


/// Powers of a field element of 16 bytes have 16 bytes.
proof fn lemma_pow_len(a: Seq<u8>, n: int)
    requires
        a.len() == 16,
    ensures
        crate::utils::galois_field::gf_lambda_pow_spec(a, n).len() == 16,
    decreases n,
{
    if n > 1 {
        lemma_pow_len(a, n - 1);
        lemma_gf128_mul_distrib(crate::utils::galois_field::gf_lambda_pow_spec(a, n - 1), crate::utils::galois_field::gf_lambda_pow_spec(a, n - 1), a);
    }
}

/// Exponents add: a^(m + n) = a^m a^n in F_{2^128}.
pub proof fn lemma_gf_lambda_pow_add(a: Seq<u8>, m: nat, n: nat)
    requires
        a.len() == 16,
    ensures
        crate::utils::galois_field::gf_lambda_pow_spec(a, (m + n) as int) == gf128_mul_spec(
            crate::utils::galois_field::gf_lambda_pow_spec(a, m as int),
            crate::utils::galois_field::gf_lambda_pow_spec(a, n as int),
        ),
    decreases n,
{
    let pm = crate::utils::galois_field::gf_lambda_pow_spec(a, m as int);
    lemma_pow_len(a, m as int);
    if n == 0 {
        lemma_gf128_mul_one(pm);
    } else if n == 1 {
        if m == 0 {
            lemma_gf128_mul_comm(gf_one(), a);
            lemma_gf128_mul_one(a);
        }
    } else {
        lemma_gf_lambda_pow_add(a, m, (n - 1) as nat);
        let pn1 = crate::utils::galois_field::gf_lambda_pow_spec(a, n - 1);
        lemma_pow_len(a, n - 1);
        lemma_gf128_mul_assoc(pm, pn1, a);
        assert(crate::utils::galois_field::gf_lambda_pow_spec(a, (m + n) as int) == gf128_mul_spec(
            crate::utils::galois_field::gf_lambda_pow_spec(a, m + n - 1), a));
    }
}

} // verus!
