use vstd::prelude::*;
use crate::utils::galois_field::{gf28_inverse_spec, gf28_mul_spec, gf28_pow_acc, lemma_gf28_mul_unrolled, xtime};

verus! {

/// The product of `x0` by `y` in F_{2^8}, given `x0` and its seven successive `xtime`s:
/// the sum of those selected by the bits of `y`.
pub open spec fn mul_sel(y: u8, x0: u8, x1: u8, x2: u8, x3: u8, x4: u8, x5: u8, x6: u8, x7: u8) -> u8 {
    (if y % 2 == 1 { x0 } else { 0u8 }) ^ ((if (y / 2) % 2 == 1 { x1 } else { 0u8 }) ^ ((if (y / 4) % 2 == 1 { x2 } else { 0u8 }) ^ ((if (y / 8)
        % 2 == 1 { x3 } else { 0u8 }) ^ ((if (y / 16) % 2 == 1 { x4 } else { 0u8 }) ^ ((if (y / 32) % 2 == 1 { x5 } else { 0u8 }) ^ ((if (y / 64) % 2
        == 1 { x6 } else { 0u8 }) ^ (if (y / 128) % 2 == 1 { x7 } else { 0u8 })))))))
}

/// A product in F_{2^8} over the `xtime`s of its first factor.
proof fn lemma_mul_link(x: u8, y: u8)
    ensures
        gf28_mul_spec(x, y) == mul_sel(
            y,
            x,
            xtime(x),
            xtime(xtime(x)),
            xtime(xtime(xtime(x))),
            xtime(xtime(xtime(xtime(x)))),
            xtime(xtime(xtime(xtime(xtime(x))))),
            xtime(xtime(xtime(xtime(xtime(xtime(x)))))),
            xtime(xtime(xtime(xtime(xtime(xtime(xtime(x))))))),
        ),
{
    lemma_gf28_mul_unrolled(x, y);
}

/// The circuit of `b^254` by square-and-multiply, and of `b * b^254`: every variable is an
/// `xtime` of the one before it or a product written over eight `xtime`s.
proof fn lemma_inverse_circuit(
    b: u8,
    b_1: u8,
    b_2: u8,
    b_3: u8,
    b_4: u8,
    b_5: u8,
    b_6: u8,
    b_7: u8,
    s2: u8,
    s2_1: u8,
    s2_2: u8,
    s2_3: u8,
    s2_4: u8,
    s2_5: u8,
    s2_6: u8,
    s2_7: u8,
    s4: u8,
    s4_1: u8,
    s4_2: u8,
    s4_3: u8,
    s4_4: u8,
    s4_5: u8,
    s4_6: u8,
    s4_7: u8,
    s8: u8,
    s8_1: u8,
    s8_2: u8,
    s8_3: u8,
    s8_4: u8,
    s8_5: u8,
    s8_6: u8,
    s8_7: u8,
    s16: u8,
    s16_1: u8,
    s16_2: u8,
    s16_3: u8,
    s16_4: u8,
    s16_5: u8,
    s16_6: u8,
    s16_7: u8,
    s32: u8,
    s32_1: u8,
    s32_2: u8,
    s32_3: u8,
    s32_4: u8,
    s32_5: u8,
    s32_6: u8,
    s32_7: u8,
    s64: u8,
    s64_1: u8,
    s64_2: u8,
    s64_3: u8,
    s64_4: u8,
    s64_5: u8,
    s64_6: u8,
    s64_7: u8,
    s128: u8,
    s128_1: u8,
    s128_2: u8,
    s128_3: u8,
    s128_4: u8,
    s128_5: u8,
    s128_6: u8,
    s128_7: u8,
    p1: u8,
    p2: u8,
    p3: u8,
    p4: u8,
    p5: u8,
    p6: u8,
    p7: u8,
    f: u8,
) by (bit_vector)
    requires
        b_1 == xtime(b),
        b_2 == xtime(b_1),
        b_3 == xtime(b_2),
        b_4 == xtime(b_3),
        b_5 == xtime(b_4),
        b_6 == xtime(b_5),
        b_7 == xtime(b_6),
        s2_1 == xtime(s2),
        s2_2 == xtime(s2_1),
        s2_3 == xtime(s2_2),
        s2_4 == xtime(s2_3),
        s2_5 == xtime(s2_4),
        s2_6 == xtime(s2_5),
        s2_7 == xtime(s2_6),
        s4_1 == xtime(s4),
        s4_2 == xtime(s4_1),
        s4_3 == xtime(s4_2),
        s4_4 == xtime(s4_3),
        s4_5 == xtime(s4_4),
        s4_6 == xtime(s4_5),
        s4_7 == xtime(s4_6),
        s8_1 == xtime(s8),
        s8_2 == xtime(s8_1),
        s8_3 == xtime(s8_2),
        s8_4 == xtime(s8_3),
        s8_5 == xtime(s8_4),
        s8_6 == xtime(s8_5),
        s8_7 == xtime(s8_6),
        s16_1 == xtime(s16),
        s16_2 == xtime(s16_1),
        s16_3 == xtime(s16_2),
        s16_4 == xtime(s16_3),
        s16_5 == xtime(s16_4),
        s16_6 == xtime(s16_5),
        s16_7 == xtime(s16_6),
        s32_1 == xtime(s32),
        s32_2 == xtime(s32_1),
        s32_3 == xtime(s32_2),
        s32_4 == xtime(s32_3),
        s32_5 == xtime(s32_4),
        s32_6 == xtime(s32_5),
        s32_7 == xtime(s32_6),
        s64_1 == xtime(s64),
        s64_2 == xtime(s64_1),
        s64_3 == xtime(s64_2),
        s64_4 == xtime(s64_3),
        s64_5 == xtime(s64_4),
        s64_6 == xtime(s64_5),
        s64_7 == xtime(s64_6),
        s128_1 == xtime(s128),
        s128_2 == xtime(s128_1),
        s128_3 == xtime(s128_2),
        s128_4 == xtime(s128_3),
        s128_5 == xtime(s128_4),
        s128_6 == xtime(s128_5),
        s128_7 == xtime(s128_6),
        s2 == mul_sel(b, b, b_1, b_2, b_3, b_4, b_5, b_6, b_7),
        s4 == mul_sel(s2, s2, s2_1, s2_2, s2_3, s2_4, s2_5, s2_6, s2_7),
        s8 == mul_sel(s4, s4, s4_1, s4_2, s4_3, s4_4, s4_5, s4_6, s4_7),
        s16 == mul_sel(s8, s8, s8_1, s8_2, s8_3, s8_4, s8_5, s8_6, s8_7),
        s32 == mul_sel(s16, s16, s16_1, s16_2, s16_3, s16_4, s16_5, s16_6, s16_7),
        s64 == mul_sel(s32, s32, s32_1, s32_2, s32_3, s32_4, s32_5, s32_6, s32_7),
        s128 == mul_sel(s64, s64, s64_1, s64_2, s64_3, s64_4, s64_5, s64_6, s64_7),
        p1 == mul_sel(1u8, s2, s2_1, s2_2, s2_3, s2_4, s2_5, s2_6, s2_7),
        p2 == mul_sel(p1, s4, s4_1, s4_2, s4_3, s4_4, s4_5, s4_6, s4_7),
        p3 == mul_sel(p2, s8, s8_1, s8_2, s8_3, s8_4, s8_5, s8_6, s8_7),
        p4 == mul_sel(p3, s16, s16_1, s16_2, s16_3, s16_4, s16_5, s16_6, s16_7),
        p5 == mul_sel(p4, s32, s32_1, s32_2, s32_3, s32_4, s32_5, s32_6, s32_7),
        p6 == mul_sel(p5, s64, s64_1, s64_2, s64_3, s64_4, s64_5, s64_6, s64_7),
        p7 == mul_sel(p6, s128, s128_1, s128_2, s128_3, s128_4, s128_5, s128_6, s128_7),
        f == mul_sel(p7, b, b_1, b_2, b_3, b_4, b_5, b_6, b_7),
    ensures
        b != 0 ==> f == 1u8,
{
}

/// The inverse of a nonzero element of F_{2^8} is its inverse: `a * a^254 = 1`.
pub proof fn lemma_gf28_inverse(a: u8)
    requires
        a != 0,
    ensures
        gf28_mul_spec(a, gf28_inverse_spec(a)) == 1,
{
    let b = a;
    let b_1 = xtime(b);
    let b_2 = xtime(b_1);
    let b_3 = xtime(b_2);
    let b_4 = xtime(b_3);
    let b_5 = xtime(b_4);
    let b_6 = xtime(b_5);
    let b_7 = xtime(b_6);
    let s2 = gf28_mul_spec(b, b);
    lemma_mul_link(b, b);
    let s2_1 = xtime(s2);
    let s2_2 = xtime(s2_1);
    let s2_3 = xtime(s2_2);
    let s2_4 = xtime(s2_3);
    let s2_5 = xtime(s2_4);
    let s2_6 = xtime(s2_5);
    let s2_7 = xtime(s2_6);
    let s4 = gf28_mul_spec(s2, s2);
    lemma_mul_link(s2, s2);
    let s4_1 = xtime(s4);
    let s4_2 = xtime(s4_1);
    let s4_3 = xtime(s4_2);
    let s4_4 = xtime(s4_3);
    let s4_5 = xtime(s4_4);
    let s4_6 = xtime(s4_5);
    let s4_7 = xtime(s4_6);
    let s8 = gf28_mul_spec(s4, s4);
    lemma_mul_link(s4, s4);
    let s8_1 = xtime(s8);
    let s8_2 = xtime(s8_1);
    let s8_3 = xtime(s8_2);
    let s8_4 = xtime(s8_3);
    let s8_5 = xtime(s8_4);
    let s8_6 = xtime(s8_5);
    let s8_7 = xtime(s8_6);
    let s16 = gf28_mul_spec(s8, s8);
    lemma_mul_link(s8, s8);
    let s16_1 = xtime(s16);
    let s16_2 = xtime(s16_1);
    let s16_3 = xtime(s16_2);
    let s16_4 = xtime(s16_3);
    let s16_5 = xtime(s16_4);
    let s16_6 = xtime(s16_5);
    let s16_7 = xtime(s16_6);
    let s32 = gf28_mul_spec(s16, s16);
    lemma_mul_link(s16, s16);
    let s32_1 = xtime(s32);
    let s32_2 = xtime(s32_1);
    let s32_3 = xtime(s32_2);
    let s32_4 = xtime(s32_3);
    let s32_5 = xtime(s32_4);
    let s32_6 = xtime(s32_5);
    let s32_7 = xtime(s32_6);
    let s64 = gf28_mul_spec(s32, s32);
    lemma_mul_link(s32, s32);
    let s64_1 = xtime(s64);
    let s64_2 = xtime(s64_1);
    let s64_3 = xtime(s64_2);
    let s64_4 = xtime(s64_3);
    let s64_5 = xtime(s64_4);
    let s64_6 = xtime(s64_5);
    let s64_7 = xtime(s64_6);
    let s128 = gf28_mul_spec(s64, s64);
    lemma_mul_link(s64, s64);
    let s128_1 = xtime(s128);
    let s128_2 = xtime(s128_1);
    let s128_3 = xtime(s128_2);
    let s128_4 = xtime(s128_3);
    let s128_5 = xtime(s128_4);
    let s128_6 = xtime(s128_5);
    let s128_7 = xtime(s128_6);
    let p1 = gf28_mul_spec(s2, 1u8);
    lemma_mul_link(s2, 1u8);
    let p2 = gf28_mul_spec(s4, p1);
    lemma_mul_link(s4, p1);
    let p3 = gf28_mul_spec(s8, p2);
    lemma_mul_link(s8, p2);
    let p4 = gf28_mul_spec(s16, p3);
    lemma_mul_link(s16, p3);
    let p5 = gf28_mul_spec(s32, p4);
    lemma_mul_link(s32, p4);
    let p6 = gf28_mul_spec(s64, p5);
    lemma_mul_link(s64, p5);
    let p7 = gf28_mul_spec(s128, p6);
    lemma_mul_link(s128, p6);
    let f = gf28_mul_spec(b, p7);
    lemma_mul_link(b, p7);
    assert(gf28_pow_acc(b, 254, 1u8) == gf28_pow_acc(s2, 127, 1u8));
    assert(gf28_pow_acc(s2, 127, 1u8) == gf28_pow_acc(s4, 63, p1));
    assert(gf28_pow_acc(s4, 63, p1) == gf28_pow_acc(s8, 31, p2));
    assert(gf28_pow_acc(s8, 31, p2) == gf28_pow_acc(s16, 15, p3));
    assert(gf28_pow_acc(s16, 15, p3) == gf28_pow_acc(s32, 7, p4));
    assert(gf28_pow_acc(s32, 7, p4) == gf28_pow_acc(s64, 3, p5));
    assert(gf28_pow_acc(s64, 3, p5) == gf28_pow_acc(s128, 1, p6));
    assert(gf28_pow_acc(s128, 1, p6) == gf28_pow_acc(gf28_mul_spec(s128, s128), 0, p7));
    lemma_inverse_circuit(b, b_1, b_2, b_3, b_4, b_5, b_6, b_7, s2, s2_1, s2_2, s2_3, s2_4, s2_5, s2_6, s2_7, s4, s4_1, s4_2, s4_3, s4_4, s4_5, s4_6, s4_7, s8, s8_1, s8_2, s8_3, s8_4, s8_5, s8_6, s8_7, s16, s16_1, s16_2, s16_3, s16_4, s16_5, s16_6, s16_7, s32, s32_1, s32_2, s32_3, s32_4, s32_5, s32_6, s32_7, s64, s64_1, s64_2, s64_3, s64_4, s64_5, s64_6, s64_7, s128, s128_1, s128_2, s128_3, s128_4, s128_5, s128_6, s128_7, p1, p2, p3, p4, p5, p6, p7, f);
}

} // verus!
