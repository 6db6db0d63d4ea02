use vstd::prelude::*;
use crate::protocols::constraint_correlation::{lemma_alpha_pow_len, lemma_xs};
use crate::utils::alpha_laws::lemma_alpha_aes_root;
use crate::utils::constants::alpha_spec;
use crate::utils::galois_field::{gf128_mul_spec, gf28_mul_spec, gf_lambda_pow_spec, gf_one, xtime};
use crate::utils::gf_assoc::lemma_gf128_mul_assoc;
use crate::utils::gf_laws::{lemma_gf128_mul_comm, lemma_gf128_mul_distrib, lemma_gf128_mul_one, lemma_gf128_mul_zero, zero_bytes};
use crate::utils::hash_laws::lemma_xor_seq_swap;
use crate::utils::helper_methods_cstrnts::{alpha_pow_spec, bc_acc, bc_bits, bit_elems};
use crate::utils::math::{bit_of, xor_seq};
use crate::utils::types::zero16;

verus! {

/// The eight bits of a byte, least significant first.
pub open spec fn byte_bits(a: u8) -> Seq<u8> {
    Seq::new(8, |i: int| bit_of(a, i))
}

/// ByteCombine of the bits of a byte: the element of F_{2^128} that the byte stands for.
pub open spec fn bc_byte(a: u8) -> Seq<u8> {
    bc_bits(byte_bits(a))
}

/// The bit operations that ByteCombine of a product goes through.
proof fn lemma_byte_bit_facts(x: u8, y: u8)
    by (bit_vector)
    ensures
        bit_of(x ^ y, 0) == bit_of(x, 0) ^ bit_of(y, 0),
        bit_of(x, 0) <= 1,
        bit_of(0u8, 0) == 0u8,
        bit_of(1u8, 0) == 1u8,
        bit_of(0x1bu8, 0) == 1u8,
        bit_of(x / 2, 0) == bit_of(x, 1),
        bit_of(xtime(x), 0) == 0u8 ^ bit_of(x, 7),
        bit_of(x ^ y, 1) == bit_of(x, 1) ^ bit_of(y, 1),
        bit_of(x, 1) <= 1,
        bit_of(0u8, 1) == 0u8,
        bit_of(1u8, 1) == 0u8,
        bit_of(0x1bu8, 1) == 1u8,
        bit_of(x / 2, 1) == bit_of(x, 2),
        bit_of(xtime(x), 1) == bit_of(x, 0) ^ bit_of(x, 7),
        bit_of(x ^ y, 2) == bit_of(x, 2) ^ bit_of(y, 2),
        bit_of(x, 2) <= 1,
        bit_of(0u8, 2) == 0u8,
        bit_of(1u8, 2) == 0u8,
        bit_of(0x1bu8, 2) == 0u8,
        bit_of(x / 2, 2) == bit_of(x, 3),
        bit_of(xtime(x), 2) == bit_of(x, 1),
        bit_of(x ^ y, 3) == bit_of(x, 3) ^ bit_of(y, 3),
        bit_of(x, 3) <= 1,
        bit_of(0u8, 3) == 0u8,
        bit_of(1u8, 3) == 0u8,
        bit_of(0x1bu8, 3) == 1u8,
        bit_of(x / 2, 3) == bit_of(x, 4),
        bit_of(xtime(x), 3) == bit_of(x, 2) ^ bit_of(x, 7),
        bit_of(x ^ y, 4) == bit_of(x, 4) ^ bit_of(y, 4),
        bit_of(x, 4) <= 1,
        bit_of(0u8, 4) == 0u8,
        bit_of(1u8, 4) == 0u8,
        bit_of(0x1bu8, 4) == 1u8,
        bit_of(x / 2, 4) == bit_of(x, 5),
        bit_of(xtime(x), 4) == bit_of(x, 3) ^ bit_of(x, 7),
        bit_of(x ^ y, 5) == bit_of(x, 5) ^ bit_of(y, 5),
        bit_of(x, 5) <= 1,
        bit_of(0u8, 5) == 0u8,
        bit_of(1u8, 5) == 0u8,
        bit_of(0x1bu8, 5) == 0u8,
        bit_of(x / 2, 5) == bit_of(x, 6),
        bit_of(xtime(x), 5) == bit_of(x, 4),
        bit_of(x ^ y, 6) == bit_of(x, 6) ^ bit_of(y, 6),
        bit_of(x, 6) <= 1,
        bit_of(0u8, 6) == 0u8,
        bit_of(1u8, 6) == 0u8,
        bit_of(0x1bu8, 6) == 0u8,
        bit_of(x / 2, 6) == bit_of(x, 7),
        bit_of(xtime(x), 6) == bit_of(x, 5),
        bit_of(x ^ y, 7) == bit_of(x, 7) ^ bit_of(y, 7),
        bit_of(x, 7) <= 1,
        bit_of(0u8, 7) == 0u8,
        bit_of(1u8, 7) == 0u8,
        bit_of(0x1bu8, 7) == 0u8,
        bit_of(x / 2, 7) == 0u8,
        bit_of(xtime(x), 7) == bit_of(x, 6),
        (x % 2 == 1) == (bit_of(x, 0) == 1u8),
        bit_of(x, 0) ^ 0u8 == bit_of(x, 0),
        bit_of(x, 1) ^ 0u8 == bit_of(x, 1),
        bit_of(x, 2) ^ 0u8 == bit_of(x, 2),
        bit_of(x, 3) ^ 0u8 == bit_of(x, 3),
        bit_of(x, 4) ^ 0u8 == bit_of(x, 4),
        bit_of(x, 5) ^ 0u8 == bit_of(x, 5),
        bit_of(x, 6) ^ 0u8 == bit_of(x, 6),
        bit_of(x, 7) ^ 0u8 == bit_of(x, 7),
        (x == 0) ==> x / 2 == 0,
        (0u8 ^ 0u8) == 0u8,
        (0u8 ^ 1u8) == 1u8,
        (1u8 ^ 0u8) == 1u8,
        (1u8 ^ 1u8) == 0u8,
        (0u8 ^ 0u8) == 0u8 && (1u8 ^ 0u8) == 1u8,
        0u8 ^ bit_of(x, 0) == bit_of(x, 0),
        0u8 ^ bit_of(x, 1) == bit_of(x, 1),
        0u8 ^ bit_of(x, 2) == bit_of(x, 2),
        0u8 ^ bit_of(x, 3) == bit_of(x, 3),
        0u8 ^ bit_of(x, 4) == bit_of(x, 4),
        0u8 ^ bit_of(x, 5) == bit_of(x, 5),
        0u8 ^ bit_of(x, 6) == bit_of(x, 6),
        0u8 ^ bit_of(x, 7) == bit_of(x, 7),
{
}

/// A bit times a field element.
spec fn sel(b: u8, v: Seq<u8>) -> Seq<u8> {
    if b == 0 {
        zero16()
    } else {
        v
    }
}

/// A sequence of bits.
spec fn bits_ok(c: Seq<u8>, n: int) -> bool {
    &&& c.len() >= n
    &&& forall|i: int| 0 <= i < n ==> #[trigger] c[i] <= 1
}

/// ByteCombine gives 16 bytes.
proof fn lemma_bc_len(c: Seq<u8>, n: int)
    ensures
        bc_acc(bit_elems(c), n).len() == 16,
    decreases n,
{
    if n > 0 {
        lemma_bc_len(c, n - 1);
    }
}

proof fn lemma_zero16()
    ensures
        zero16() == zero_bytes(16),
{
    assert(zero16() =~= zero_bytes(16));
}

/// ByteCombine of bits is additive.
proof fn lemma_bc_xor(c: Seq<u8>, d: Seq<u8>, n: int)
    requires
        0 <= n <= 9,
        bits_ok(c, n),
        bits_ok(d, n),
        c.len() == d.len(),
    ensures
        bc_acc(bit_elems(xor_seq(c, d)), n) == xor_seq(bc_acc(bit_elems(c), n), bc_acc(bit_elems(d), n)),
    decreases n,
{
    lemma_zero16();
    let z = zero16();
    if n == 0 {
        lemma_xs(z, z, z);
    } else {
        lemma_bc_xor(c, d, n - 1);
        let a = alpha_pow_spec(n - 1);
        lemma_alpha_pow_len(n - 1);
        lemma_byte_bit_facts(0, 0);
        let (x, y) = (c[n - 1], d[n - 1]);
        assert(x <= 1 && y <= 1);
        lemma_xs(z, z, z);
        lemma_xs(a, a, a);
        lemma_xs(z, a, z);
        let sx = sel(x, a);
        let sy = sel(y, a);
        assert(sel(x ^ y, a) == xor_seq(sx, sy));
        lemma_bc_len(c, n - 1);
        lemma_bc_len(d, n - 1);
        assert(bit_elems(xor_seq(c, d))[n - 1].mul_alpha_spec(a) == sel(x ^ y, a));
        assert(bit_elems(c)[n - 1].mul_alpha_spec(a) == sx);
        assert(bit_elems(d)[n - 1].mul_alpha_spec(a) == sy);
        lemma_xor_seq_swap(bc_acc(bit_elems(c), n - 1), bc_acc(bit_elems(d), n - 1), sx, sy);
    }
}

/// ByteCombine of zeros is zero.
proof fn lemma_bc_zeros(c: Seq<u8>, n: int)
    requires
        0 <= n <= 9,
        c.len() >= n,
        forall|i: int| 0 <= i < n ==> #[trigger] c[i] == 0,
    ensures
        bc_acc(bit_elems(c), n) == zero16(),
    decreases n,
{
    lemma_zero16();
    if n > 0 {
        lemma_bc_zeros(c, n - 1);
        lemma_xs(zero16(), zero16(), zero16());
    }
}

/// alpha times alpha^i is alpha^(i + 1).
proof fn lemma_alpha_times_pow(i: int)
    requires
        0 <= i,
    ensures
        gf128_mul_spec(alpha_spec(), alpha_pow_spec(i)) == alpha_pow_spec(i + 1),
{
    assert(alpha_spec().len() == 16);
    lemma_alpha_pow_len(i);
    if i == 0 {
        lemma_gf128_mul_one(alpha_spec());
    } else {
        lemma_gf128_mul_comm(alpha_spec(), alpha_pow_spec(i));
    }
}

/// The bits shifted up one place.
spec fn shift_up(c: Seq<u8>) -> Seq<u8> {
    Seq::new(c.len() + 1, |i: int| if i == 0 { 0u8 } else { c[i - 1] })
}

/// Multiplying ByteCombine by alpha shifts the bits up one place.
proof fn lemma_bc_times_alpha(c: Seq<u8>, n: int)
    requires
        0 <= n <= 8,
        c.len() >= n,
    ensures
        gf128_mul_spec(alpha_spec(), bc_acc(bit_elems(c), n)) == bc_acc(bit_elems(shift_up(c)), n + 1),
    decreases n,
{
    lemma_zero16();
    let z = zero16();
    assert(alpha_spec().len() == 16);
    if n == 0 {
        lemma_gf128_mul_zero(alpha_spec());
        lemma_xs(z, z, z);
        assert(shift_up(c)[0] == 0u8);
        assert(bit_elems(shift_up(c))[0].mul_alpha_spec(alpha_pow_spec(0)) == z);
        assert(bc_acc(bit_elems(shift_up(c)), 0) == z);
        assert(bc_acc(bit_elems(shift_up(c)), 1) == xor_seq(z, z));
        assert(bc_acc(bit_elems(c), 0) == z);
    } else {
        lemma_bc_times_alpha(c, n - 1);
        let a = alpha_pow_spec(n - 1);
        lemma_alpha_pow_len(n - 1);
        lemma_alpha_pow_len(n);
        lemma_bc_len(c, n - 1);
        let s = sel(c[n - 1], a);
        lemma_gf128_mul_distrib(bc_acc(bit_elems(c), n - 1), s, alpha_spec());
        lemma_alpha_times_pow(n - 1);
        lemma_gf128_mul_zero(alpha_spec());
        assert(gf128_mul_spec(alpha_spec(), s) == sel(c[n - 1], alpha_pow_spec(n)));
        assert(bit_elems(shift_up(c))[n].mul_alpha_spec(alpha_pow_spec(n)) == sel(c[n - 1], alpha_pow_spec(n)));
        assert(bit_elems(c)[n - 1].mul_alpha_spec(a) == s);
        assert(bc_acc(bit_elems(shift_up(c)), n + 1) == xor_seq(bc_acc(bit_elems(shift_up(c)), n), sel(c[n - 1], alpha_pow_spec(n))));
        assert(bc_acc(bit_elems(c), n) == xor_seq(bc_acc(bit_elems(c), n - 1), s));
    }
}

/// ByteCombine of bits that are zero past the first: the first bit times one.
proof fn lemma_bc_single(e: Seq<u8>, n: int)
    requires
        1 <= n <= 8,
        e.len() >= n,
        forall|i: int| 1 <= i < n ==> #[trigger] e[i] == 0,
    ensures
        bc_acc(bit_elems(e), n) == sel(e[0], alpha_pow_spec(0)),
    decreases n,
{
    lemma_zero16();
    let z = zero16();
    let s0 = sel(e[0], alpha_pow_spec(0));
    lemma_alpha_pow_len(0);
    assert(s0.len() == 16);
    lemma_xs(s0, z, z);
    lemma_xs(z, s0, z);
    if n == 1 {
        assert(bc_acc(bit_elems(e), 0) == z);
    } else {
        lemma_bc_single(e, n - 1);
        assert(bit_elems(e)[n - 1].mul_alpha_spec(alpha_pow_spec(n - 1)) == z);
    }
}

/// ByteCombine of the byte 0x1b is alpha^8.
proof fn lemma_bc_1b()
    ensures
        bc_byte(0x1bu8) == alpha_pow_spec(8),
{
    lemma_byte_bit_facts(0x1bu8, 0);
    lemma_alpha_aes_root();
    lemma_zero16();
    let z = zero16();
    let es = bit_elems(byte_bits(0x1bu8));
    let a0 = alpha_pow_spec(0);
    let a1 = alpha_pow_spec(1);
    let a3 = alpha_pow_spec(3);
    let a4 = alpha_pow_spec(4);
    lemma_alpha_pow_len(0);
    lemma_alpha_pow_len(1);
    lemma_alpha_pow_len(3);
    lemma_alpha_pow_len(4);
    assert(a0 == gf_one());
    let t2 = xor_seq(a0, a1);
    let t4 = xor_seq(t2, a3);
    let t5 = xor_seq(t4, a4);
    lemma_xs(z, a0, z);
    lemma_xs(a0, z, z);
    lemma_xs(t2, z, z);
    lemma_xs(t5, z, z);
    assert(bc_acc(es, 0) == z);
    assert(bc_acc(es, 1) == a0);
    assert(bc_acc(es, 2) == t2);
    assert(bc_acc(es, 3) == t2);
    assert(bc_acc(es, 4) == t4);
    assert(bc_acc(es, 5) == t5);
    assert(bc_acc(es, 6) == t5);
    assert(bc_acc(es, 7) == t5);
    assert(bc_acc(es, 8) == t5);
}

/// Multiplying by x in F_{2^8} multiplies ByteCombine by alpha.
pub proof fn lemma_bc_xtime(x: u8)
    ensures
        bc_byte(xtime(x)) == gf128_mul_spec(alpha_spec(), bc_byte(x)),
{
    lemma_byte_bit_facts(x, 0);
    lemma_zero16();
    let z = zero16();
    let bx = byte_bits(x);
    let lo = Seq::new(8, |i: int| if i == 0 { 0u8 } else { bit_of(x, i - 1) });
    let m = Seq::new(8, |i: int| if bit_of(x, 7) == 1 { bit_of(0x1bu8, i) } else { 0u8 });
    lemma_byte_bit_facts(0x1bu8, 0);
    assert(byte_bits(xtime(x)) =~= xor_seq(lo, m));
    assert(bits_ok(lo, 8));
    assert(bits_ok(m, 8));
    lemma_bc_xor(lo, m, 8);
    lemma_bc_times_alpha(bx, 8);
    let sh = shift_up(bx);
    assert(forall|i: int| 0 <= i < 8 ==> #[trigger] bit_elems(sh)[i] == bit_elems(lo)[i]);
    crate::utils::helper_methods_cstrnts::lemma_bc_acc_ext(bit_elems(sh), bit_elems(lo), 8);
    lemma_bc_len(lo, 8);
    let a8 = alpha_pow_spec(8);
    lemma_alpha_pow_len(8);
    assert(bc_acc(bit_elems(sh), 9) == xor_seq(bc_acc(bit_elems(sh), 8), sel(bit_of(x, 7), a8)));
    if bit_of(x, 7) == 1 {
        assert(m =~= byte_bits(0x1bu8));
        lemma_bc_1b();
    } else {
        lemma_bc_zeros(m, 8);
    }
}

/// ByteCombine of a byte from its lowest bit and the byte shifted down.
proof fn lemma_bc_half(b: u8)
    ensures
        bc_byte(b) == xor_seq(sel(bit_of(b, 0), alpha_pow_spec(0)), gf128_mul_spec(alpha_spec(), bc_byte(b / 2))),
{
    lemma_byte_bit_facts(b, 0);
    lemma_byte_bit_facts(b / 2, 0);
    lemma_zero16();
    let z = zero16();
    let h = byte_bits(b / 2);
    lemma_bc_times_alpha(h, 8);
    let sh8 = Seq::new(8, |i: int| if i == 0 { 0u8 } else { bit_of(b, i) });
    let e0 = Seq::new(8, |i: int| if i == 0 { bit_of(b, 0) } else { 0u8 });
    assert(byte_bits(b) =~= xor_seq(sh8, e0));
    assert(bits_ok(sh8, 8));
    assert(bits_ok(e0, 8));
    lemma_bc_xor(sh8, e0, 8);
    let sh = shift_up(h);
    assert(forall|i: int| 0 <= i < 8 ==> #[trigger] bit_elems(sh)[i] == bit_elems(sh8)[i]);
    crate::utils::helper_methods_cstrnts::lemma_bc_acc_ext(bit_elems(sh), bit_elems(sh8), 8);
    lemma_bc_single(e0, 8);
    lemma_bc_len(sh8, 8);
    let s0 = sel(bit_of(b, 0), alpha_pow_spec(0));
    lemma_alpha_pow_len(0);
    lemma_alpha_pow_len(8);
    assert(s0.len() == 16);
    assert(bc_acc(bit_elems(sh), 9) == xor_seq(bc_acc(bit_elems(sh), 8), z));
    lemma_xs(bc_acc(bit_elems(sh8), 8), z, z);
    lemma_xs(bc_acc(bit_elems(sh8), 8), s0, z);
}

/// The bits of a byte are bits.
proof fn lemma_byte_bits_ok(x: u8)
    ensures
        bits_ok(byte_bits(x), 8),
        byte_bits(x).len() == 8,
{
    lemma_byte_bit_facts(x, 0);
    assert forall|i: int| 0 <= i < 8 implies #[trigger] byte_bits(x)[i] <= 1 by {
        assert(i == 0 || i == 1 || i == 2 || i == 3 || i == 4 || i == 5 || i == 6 || i == 7);
    }
}

/// The field algebra of one step of the product: ba (b0 + alpha h) = b0 ba + (alpha ba) h.
proof fn lemma_mul_algebra(ba: Seq<u8>, hh: Seq<u8>, b0: u8)
    requires
        ba.len() == 16,
        hh.len() == 16,
        b0 <= 1,
    ensures
        gf128_mul_spec(ba, xor_seq(sel(b0, gf_one()), gf128_mul_spec(alpha_spec(), hh)))
            == (if b0 == 1 {
            xor_seq(ba, gf128_mul_spec(gf128_mul_spec(alpha_spec(), ba), hh))
        } else {
            gf128_mul_spec(gf128_mul_spec(alpha_spec(), ba), hh)
        }),
{
    lemma_zero16();
    let z = zero16();
    assert(alpha_spec().len() == 16);
    assert(gf_one().len() == 16);
    lemma_gf128_mul_assoc(alpha_spec(), ba, hh);
    lemma_gf128_mul_assoc(ba, alpha_spec(), hh);
    lemma_gf128_mul_comm(ba, alpha_spec());
    let ah = gf128_mul_spec(alpha_spec(), hh);
    lemma_gf128_mul_distrib(alpha_spec(), alpha_spec(), hh);
    let s0 = sel(b0, gf_one());
    lemma_gf128_mul_distrib(s0, ah, ba);
    lemma_gf128_mul_one(ba);
    lemma_gf128_mul_zero(ba);
    let p = gf128_mul_spec(ba, ah);
    lemma_gf128_mul_distrib(ba, ba, ah);
    lemma_xs(z, p, z);
    lemma_xs(p, z, z);
}

/// ByteCombine of a product in F_{2^8} is the product of the ByteCombines in F_{2^128}.
pub proof fn lemma_bc_mul(a: u8, b: u8)
    ensures
        bc_byte(gf28_mul_spec(a, b)) == gf128_mul_spec(bc_byte(a), bc_byte(b)),
    decreases b,
{
    lemma_byte_bit_facts(a, b);
    lemma_zero16();
    let ba = bc_byte(a);
    lemma_bc_len(byte_bits(a), 8);
    if b == 0 {
        lemma_byte_bit_facts(0u8, 0);
        lemma_bc_zeros(byte_bits(0u8), 8);
        lemma_gf128_mul_zero(ba);
    } else {
        let ax = xtime(a);
        let rest = gf28_mul_spec(ax, b / 2);
        lemma_bc_mul(ax, b / 2);
        lemma_bc_xtime(a);
        lemma_bc_half(b);
        lemma_bc_len(byte_bits(b / 2), 8);
        assert(alpha_pow_spec(0) == gf_one());
        lemma_byte_bit_facts(b, 0);
        lemma_mul_algebra(ba, bc_byte(b / 2), bit_of(b, 0));
        if b % 2 == 1 {
            lemma_byte_bit_facts(a, rest);
            assert(byte_bits(a ^ rest) =~= xor_seq(byte_bits(a), byte_bits(rest)));
            lemma_byte_bits_ok(a);
            lemma_byte_bits_ok(rest);
            lemma_bc_xor(byte_bits(a), byte_bits(rest), 8);
            assert(gf28_mul_spec(a, b) == a ^ rest);
        } else {
            assert(gf28_mul_spec(a, b) == rest);
        }
    }
}

/// ByteCombine of the byte 1 is the one of F_{2^128}.
pub proof fn lemma_bc_one()
    ensures
        bc_byte(1u8) == gf_one(),
{
    lemma_byte_bit_facts(1u8, 0);
    lemma_bc_single(byte_bits(1u8), 8);
    assert(alpha_pow_spec(0) == gf_one());
}

} // verus!
