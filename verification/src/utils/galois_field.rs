use vstd::prelude::*;
use crate::utils::math::{lemma_u8_halve, lemma_xor_assoc, bits_of_bytes, bytes_of_bits, lemma_flip_bit_of_byte, lemma_bit_position, lemma_bits_bytes_inverse, xor_seq};
use crate::protocols::aes::bitand_mod;
use crate::utils::constants::lambda_bytes;
use vstd::bytes::{spec_u64_from_le_bytes, spec_u64_to_le_bytes, u64_from_le_bytes, u64_to_le_bytes};

verus! {

// ---------------------------------------------------------------------------
// F_{2^8} = F_2[x] / (x^8 + x^4 + x^3 + x + 1), the AES field.
// ---------------------------------------------------------------------------

/// Multiplication by x in F_{2^8} (FIPS-197 `xtime`).
pub open spec fn xtime(a: u8) -> u8 {
    if a & 0x80u8 != 0 {
        ((a << 1u8) ^ 0x1bu8) as u8
    } else {
        (a << 1u8) as u8
    }
}

/// Product in F_{2^8}: the sum of `x^i * a` over the set bits `i` of `b`.
pub open spec fn gf28_mul_spec(a: u8, b: u8) -> u8
    decreases b,
{
    if b == 0 {
        0
    } else {
        let rest = gf28_mul_spec(xtime(a), b / 2);
        if b % 2 == 1 {
            a ^ rest
        } else {
            rest
        }
    }
}

/// `acc * base^exp` in F_{2^8}, evaluated by square-and-multiply.
pub open spec fn gf28_pow_acc(base: u8, exp: u8, acc: u8) -> u8
    decreases exp,
{
    if exp == 0 {
        acc
    } else {
        gf28_pow_acc(
            gf28_mul_spec(base, base),
            exp / 2,
            if exp % 2 == 1 {
                gf28_mul_spec(base, acc)
            } else {
                acc
            },
        )
    }
}

/// The multiplicative inverse in F_{2^8} (`a^254`), with 0 mapped to 0.
pub open spec fn gf28_inverse_spec(a: u8) -> u8 {
    if a == 0 {
        0
    } else {
        gf28_pow_acc(a, 254, 1)
    }
}

proof fn lemma_gf28_mul_step(a: u8, b: u8)
    ensures
        gf28_mul_spec(a, b) == (if b % 2 == 1 {
            a
        } else {
            0u8
        }) ^ gf28_mul_spec(xtime(a), b / 2),
{
    let rest = gf28_mul_spec(xtime(a), b / 2);
    lemma_xor_assoc(rest, 0u8, 0u8);
}

/// Multiplication in F_{2^8}.
pub fn gf28_multiply(a: u8, b: u8) -> (result: u8)
    ensures
        result == gf28_mul_spec(a, b),
{
    let mut result = 0u8;
    let mut a = a;
    let mut b = b;
    let ghost a0 = a;
    let ghost b0 = b;
    let mut i: u8 = 0;
    assert((b as u16) < (256u16 >> (0u16))) by (bit_vector);
    proof {
        lemma_xor_assoc(gf28_mul_spec(a, b), 0u8, 0u8);
    }
    while i < 8
        invariant
            0 <= i <= 8,
            (b as u16) < (256u16 >> (i as u16)),
            result ^ gf28_mul_spec(a, b) == gf28_mul_spec(a0, b0),
        decreases 8 - i,
    {
        proof {
            lemma_gf28_mul_step(a, b);
        }
        let ghost rest = gf28_mul_spec(xtime(a), b / 2);
        let ghost old_result = result;
        proof {
            lemma_u8_halve(b);
            lemma_xor_assoc(old_result, a, rest);
            lemma_xor_assoc(rest, 0u8, 0u8);
        }
        if (b & 1) != 0 {
            result ^= a;
        }
        if (a & 0x80) != 0 {
            a = (a << 1) ^ 0x1b;
        } else {
            a = a << 1;
        }
        let ghost bb = b;
        b = b >> 1;
        assert(((bb >> 1) as u16) < (256u16 >> ((i + 1) as u16))) by (bit_vector)
            requires
                (bb as u16) < (256u16 >> (i as u16)),
                i < 8,
        ;
        i = i + 1;
    }
    assert((b as u16) < (256u16 >> (8u16)) ==> b == 0) by (bit_vector);
    proof {
        lemma_xor_assoc(result, 0u8, 0u8);
    }
    result
}

fn gf28_pow(base: u8, exp: u8) -> (result: u8)
    ensures
        result == gf28_pow_acc(base, exp, 1),
{
    let mut result: u8 = 1;
    let mut base = base;
    let mut exp = exp;
    let ghost b0 = base;
    let ghost e0 = exp;
    while exp > 0
        invariant
            gf28_pow_acc(base, exp, result) == gf28_pow_acc(b0, e0, 1),
        decreases exp,
    {
        proof {
            lemma_u8_halve(exp);
        }
        if exp & 1 != 0 {
            result = gf28_multiply(base, result);
        }
        base = gf28_multiply(base, base);
        exp = exp >> 1;
    }
    result
}

/// Multiplication by 2 is `xtime`.
pub proof fn lemma_gf28_mul_two(a: u8)
    ensures
        gf28_mul_spec(a, 2) == xtime(a),
{
    let x = xtime(a);
    assert(gf28_mul_spec(xtime(x), 0) == 0);
    assert(gf28_mul_spec(x, 1) == x ^ 0u8);
    lemma_xor_assoc(x, 0u8, 0u8);
}

/// The product `a * b` in F_{2^8} written out over the eight bits of `b`.
pub open spec fn gf28_mul_unrolled(a: u8, b: u8) -> u8 {
    let a1 = xtime(a);
    let a2 = xtime(a1);
    let a3 = xtime(a2);
    let a4 = xtime(a3);
    let a5 = xtime(a4);
    let a6 = xtime(a5);
    let a7 = xtime(a6);
    (if b % 2 == 1 { a } else { 0u8 }) ^ ((if (b / 2) % 2 == 1 { a1 } else { 0u8 }) ^ ((if (b / 4) % 2 == 1 { a2 } else { 0u8 }) ^ ((if (b / 8) % 2 == 1 {
        a3
    } else {
        0u8
    }) ^ ((if (b / 16) % 2 == 1 { a4 } else { 0u8 }) ^ ((if (b / 32) % 2 == 1 { a5 } else { 0u8 }) ^ ((if (b / 64) % 2 == 1 { a6 } else { 0u8 }) ^ (if (b / 128) % 2 == 1 {
        a7
    } else {
        0u8
    })))))))
}

pub(crate) proof fn lemma_gf28_mul_unrolled(a: u8, b: u8)
    ensures
        gf28_mul_spec(a, b) == gf28_mul_unrolled(a, b),
{
    let a1 = xtime(a);
    let a2 = xtime(a1);
    let a3 = xtime(a2);
    let a4 = xtime(a3);
    let a5 = xtime(a4);
    let a6 = xtime(a5);
    let a7 = xtime(a6);
    assert((b / 128) / 2 == 0);
    assert((b / 2) / 2 == b / 4 && (b / 4) / 2 == b / 8 && (b / 8) / 2 == b / 16 && (b / 16) / 2 == b / 32 && (b / 32) / 2 == b / 64
        && (b / 64) / 2 == b / 128);
    assert(gf28_mul_spec(xtime(a7), (b / 128) / 2) == 0);
    let t7 = if (b / 128) % 2 == 1 { a7 } else { 0u8 };
    lemma_xor_assoc(t7, 0u8, 0u8);
    assert(gf28_mul_spec(a7, b / 128) == t7);
    lemma_gf28_mul_step(a6, b / 64);
    lemma_gf28_mul_step(a5, b / 32);
    lemma_gf28_mul_step(a4, b / 16);
    lemma_gf28_mul_step(a3, b / 8);
    lemma_gf28_mul_step(a2, b / 4);
    lemma_gf28_mul_step(a1, b / 2);
    lemma_gf28_mul_step(a, b);
    assert(gf28_mul_spec(a, b) == (if b % 2 == 1 { a } else { 0u8 }) ^ gf28_mul_spec(a1, b / 2));
}

/// Multiplication by the MixColumns coefficients 1, 2 and 3.
pub fn gf28_mul_small(c: u8, b: u8) -> (result: u8)
    requires
        1 <= c <= 3,
    ensures
        result == gf28_mul_spec(c, b),
{
    proof {
        lemma_gf28_mul_unrolled(c, b);
        assert(gf28_mul_unrolled(1, b) == b && gf28_mul_unrolled(2, b) == xtime(b) && gf28_mul_unrolled(3, b) == xtime(b) ^ b)
            by (bit_vector);
    }
    if c == 1 {
        b
    } else {
        let x: u8 = if b & 0x80u8 != 0 { (b << 1u8) ^ 0x1bu8 } else { b << 1u8 };
        if c == 2 {
            x
        } else {
            x ^ b
        }
    }
}

/// Multiplicative inverse in F_{2^8}; 0 is mapped to 0.
pub fn gf28_inverse(a: u8) -> (result: u8)
    ensures
        result == gf28_inverse_spec(a),
{
    if a == 0 {
        return 0;
    }
    gf28_pow(a, 254)
}


// ---------------------------------------------------------------------------
// F_{2^m} = F_2[x] / (x^m + x^t1 + x^t2 + x^t3 + 1) on little-endian byte strings:
// bit i of byte j is the coefficient of x^(8j+i).
// ---------------------------------------------------------------------------

/// Coefficient of x^k in (sum_{i<n} A_i x^i) * B(x), for bit strings A and B.
pub open spec fn clmul_coeff(a: Seq<u8>, b: Seq<u8>, n: int, k: int) -> u8
    decreases n,
{
    if n <= 0 {
        0
    } else {
        clmul_coeff(a, b, n - 1, k) ^ (if 0 <= k - (n - 1) < b.len() && a[n - 1] == 1 && b[k - (n
            - 1)] == 1 {
            1u8
        } else {
            0u8
        })
    }
}

/// The carry-less (F_2[x]) product of two bit strings, as a bit string.
pub open spec fn clmul_bits(a: Seq<u8>, b: Seq<u8>) -> Seq<u8> {
    Seq::new(a.len() + b.len(), |k: int| clmul_coeff(a, b, a.len() as int, k))
}

pub open spec fn flip(r: Seq<u8>, p: int) -> Seq<u8> {
    r.update(p, r[p] ^ 1)
}

/// Long division of the bit string `r` by x^m + x^t1 + x^t2 + x^t3 + 1, eliminating the
/// coefficients of degree `i` down to degree `m` one at a time.
pub open spec fn reduce_from(r: Seq<u8>, m: int, t1: int, t2: int, t3: int, i: int) -> Seq<u8>
    decreases i,
{
    if i < m || m <= 0 {
        r
    } else {
        let r2 = if r[i] == 1 {
            flip(flip(flip(flip(r, i - m + t1), i - m + t2), i - m + t3), i - m)
        } else {
            r
        };
        reduce_from(r2, m, t1, t2, t3, i - 1)
    }
}

/// The product of `a` and `b` in F_2[x] / (x^m + x^t1 + x^t2 + x^t3 + 1), m = 8 * |a|.
pub open spec fn gf2_poly_mul(a: Seq<u8>, b: Seq<u8>, t1: int, t2: int, t3: int) -> Seq<u8> {
    let m = 8 * a.len();
    bytes_of_bits(
        reduce_from(
            clmul_bits(bits_of_bytes(a), bits_of_bytes(b)),
            m as int,
            t1,
            t2,
            t3,
            2 * m - 1,
        ).subrange(0, m as int),
    )
}

/// Multiplication in F_{2^128} = F_2[x] / (x^128 + x^7 + x^2 + x + 1).
pub open spec fn gf128_mul_spec(a: Seq<u8>, b: Seq<u8>) -> Seq<u8> {
    gf2_poly_mul(a, b, 7, 2, 1)
}

/// Multiplication in F_{2^256} = F_2[x] / (x^256 + x^10 + x^5 + x^2 + 1).
pub open spec fn gf256_mul_spec(a: Seq<u8>, b: Seq<u8>) -> Seq<u8> {
    gf2_poly_mul(a, b, 10, 5, 2)
}

/// Bit `i` of the little-endian byte string `a`.
fn get_bit(a: &[u8], i: usize) -> (result: u8)
    requires
        i / 8 < a@.len(),
    ensures
        result == bits_of_bytes(a@)[i as int],
        result <= 1,
{
    proof {
        lemma_bit_position(i);
        lemma_flip_bit_of_byte(a@[(i / 8) as int], 0, (i % 8) as u8);
    }
    (a[i >> 3] >> bitand_mod(i as u8, 7)) & 1
}

/// Flips bit `i` of the little-endian byte string `a`.
fn flip_bit(a: &mut [u8], i: usize)
    requires
        i / 8 < old(a)@.len(),
    ensures
        final(a)@.len() == old(a)@.len(),
        bits_of_bytes(final(a)@) == flip(bits_of_bytes(old(a)@), i as int),
{
    proof {
        lemma_bit_position(i);
    }
    let ghost a0 = a@;
    let byte_index = i >> 3;
    let shift = bitand_mod(i as u8, 7);
    a[byte_index] = a[byte_index] ^ (1u8 << shift);
    proof {
        assert forall|k: int| 0 <= k < 8 * a0.len() implies #[trigger] bits_of_bytes(a@)[k] == flip(
            bits_of_bytes(a0),
            i as int,
        )[k] by {
            lemma_flip_bit_of_byte(a0[k / 8], shift, (k % 8) as u8);
            if k / 8 == i / 8 && k != i {
                assert(k % 8 != i % 8);
            }
        }
        assert(bits_of_bytes(a@) =~= flip(bits_of_bytes(a0), i as int));
    }
}

/// Adds the carry-less product of `a` and `b` into the zero buffer `result`.
fn carryless_mul(a: &[u8], b: &[u8], result: &mut [u8])
    requires
        a@.len() == b@.len(),
        a@.len() <= 64,
        old(result)@.len() == 2 * a@.len(),
        forall|k: int| 0 <= k < old(result)@.len() ==> old(result)@[k] == 0,
    ensures
        final(result)@.len() == old(result)@.len(),
        bits_of_bytes(final(result)@) == clmul_bits(bits_of_bytes(a@), bits_of_bytes(b@)),
{
    let n = a.len() * 8;
    let ghost ba = bits_of_bytes(a@);
    let ghost bb = bits_of_bytes(b@);
    proof {
        assert forall|k: int| 0 <= k < 2 * n implies #[trigger] bits_of_bytes(result@)[k]
            == clmul_coeff(ba, bb, 0, k) by {
            lemma_flip_bit_of_byte(0u8, 0, (k % 8) as u8);
        }
    }
    let mut i: usize = 0;
    while i < n
        invariant
            0 <= i <= n,
            n == 8 * a@.len(),
            a@.len() == b@.len(),
            a@.len() <= 64,
            ba == bits_of_bytes(a@),
            bb == bits_of_bytes(b@),
            result@.len() == 2 * a@.len(),
            forall|k: int|
                0 <= k < 2 * n ==> #[trigger] bits_of_bytes(result@)[k] == clmul_coeff(ba, bb, i as int, k),
        decreases n - i,
    {
        if get_bit(a, i) == 1 {
            let mut j: usize = 0;
            proof {
                assert forall|k: int| 0 <= k < 2 * n implies #[trigger] bits_of_bytes(result@)[k]
                    == clmul_coeff(ba, bb, i as int, k) ^ (if i <= k < i + j && bb[k - i] == 1 {
                    1u8
                } else {
                    0u8
                }) by {
                    lemma_xor_assoc(clmul_coeff(ba, bb, i as int, k), 0u8, 0u8);
                }
            }
            while j < n
                invariant
                    0 <= i < n,
                    0 <= j <= n,
                    n == 8 * a@.len(),
                    a@.len() == b@.len(),
                    a@.len() <= 64,
                    bb == bits_of_bytes(b@),
                    result@.len() == 2 * a@.len(),
                    forall|k: int|
                        0 <= k < 2 * n ==> #[trigger] bits_of_bytes(result@)[k] == clmul_coeff(ba, bb, i as int, k) ^ (
                        if i <= k < i + j && bb[k - i] == 1 {
                            1u8
                        } else {
                            0u8
                        }),
                decreases n - j,
            {
                if get_bit(b, j) == 1 {
                    let ghost before = bits_of_bytes(result@);
                    flip_bit(result, i + j);
                    proof {
                        assert forall|k: int| 0 <= k < 2 * n implies #[trigger] bits_of_bytes(result@)[k]
                            == clmul_coeff(ba, bb, i as int, k) ^ (if i <= k < i + j + 1 && bb[k - i] == 1 {
                            1u8
                        } else {
                            0u8
                        }) by {
                            let c = clmul_coeff(ba, bb, i as int, k);
                            lemma_xor_assoc(c, 0u8, 1u8);
                            lemma_xor_assoc(c, 1u8, 1u8);
                            lemma_xor_assoc(0u8, 1u8, 1u8);
                            lemma_xor_assoc(1u8, 1u8, 1u8);
                        }
                    }
                }
                j = j + 1;
            }
            proof {
                assert forall|k: int| 0 <= k < 2 * n implies #[trigger] bits_of_bytes(result@)[k]
                    == clmul_coeff(ba, bb, i + 1, k) by {
                    assert(ba[i as int] == 1);
                }
            }
        } else {
            proof {
                assert forall|k: int| 0 <= k < 2 * n implies #[trigger] bits_of_bytes(result@)[k]
                    == clmul_coeff(ba, bb, i + 1, k) by {
                    lemma_xor_assoc(clmul_coeff(ba, bb, i as int, k), 0u8, 0u8);
                }
            }
        }
        i = i + 1;
    }
    assert(bits_of_bytes(result@) =~= clmul_bits(ba, bb));
}

/// Reduces the 2m-bit polynomial in `r` modulo x^m + x^t1 + x^t2 + x^t3 + 1.
fn reduce_poly(r: &mut [u8], m: usize, t1: usize, t2: usize, t3: usize)
    requires
        8 <= m <= 256,
        8 * old(r)@.len() == 2 * m,
        0 < t3 < t2 < t1 < m - 1,
    ensures
        final(r)@.len() == old(r)@.len(),
        bits_of_bytes(final(r)@) == reduce_from(
            bits_of_bytes(old(r)@),
            m as int,
            t1 as int,
            t2 as int,
            t3 as int,
            2 * m - 1,
        ),
{
    let ghost r0 = bits_of_bytes(r@);
    let mut i: usize = 2 * m - 1;
    while i >= m
        invariant
            8 <= m <= 256,
            m - 1 <= i <= 2 * m - 1,
            8 * r@.len() == 2 * m,
            0 < t3 < t2 < t1 < m - 1,
            reduce_from(bits_of_bytes(r@), m as int, t1 as int, t2 as int, t3 as int, i as int)
                == reduce_from(r0, m as int, t1 as int, t2 as int, t3 as int, 2 * m - 1),
        decreases i,
    {
        if get_bit(r, i) == 1 {
            flip_bit(r, i - m + t1);
            flip_bit(r, i - m + t2);
            flip_bit(r, i - m + t3);
            flip_bit(r, i - m);
        }
        i = i - 1;
    }
}

/// The product of two little-endian field elements given by their bit strings' reduction.
fn gf2_poly_mul_exec(a: &[u8], b: &[u8], product: &mut [u8], t1: usize, t2: usize, t3: usize)
    requires
        a@.len() == b@.len(),
        1 <= a@.len() <= 32,
        old(product)@.len() == 2 * a@.len(),
        forall|k: int| 0 <= k < old(product)@.len() ==> old(product)@[k] == 0,
        0 < t3 < t2 < t1 < 8 * a@.len() - 1,
    ensures
        final(product)@.len() == old(product)@.len(),
        final(product)@.subrange(0, a@.len() as int) == gf2_poly_mul(a@, b@, t1 as int, t2 as int, t3 as int),
{
    carryless_mul(a, b, product);
    let ghost c = bits_of_bytes(product@);
    let m = 8 * a.len();
    reduce_poly(product, m, t1, t2, t3);
    proof {
        let red = reduce_from(c, m as int, t1 as int, t2 as int, t3 as int, 2 * m - 1);
        let low = product@.subrange(0, a@.len() as int);
        assert(bits_of_bytes(low) =~= red.subrange(0, m as int));
        lemma_bits_bytes_inverse(low, red);
    }
}

/// Multiplication in F_{2^128} = F_2[x] / (x^128 + x^7 + x^2 + x + 1), by shift-and-add:
/// the sum of a times x^i over the set bits i of b.
pub fn gf128_mul(a: &[u8; 16], b: &[u8; 16]) -> (result: [u8; 16])
    ensures
        result@ == gf128_mul_spec(a@, b@),
{
    proof {
        crate::utils::gf_assoc::lemma_gf128_mul_shift_add(a@, b@);
    }
    shift_add_mul_exec(a, b, 128)
}

/// Multiplication in F_{2^256}: carry-less product followed by reduction modulo
/// x^256 + x^10 + x^5 + x^2 + 1, from degree 511 down to degree 256.
pub fn gf256_mul(a: &[u8; 32], b: &[u8; 32]) -> (result: [u8; 32])
    ensures
        result@ == gf256_mul_spec(a@, b@),
{
    let mut product = [0u8; 64];
    gf2_poly_mul_exec(a.as_slice(), b.as_slice(), &mut product, 10, 5, 2);
    let mut result = [0u8; 32];
    let mut k: usize = 0;
    while k < 32
        invariant
            0 <= k <= 32,
            product@.subrange(0, 32) == gf256_mul_spec(a@, b@),
            forall|j: int| 0 <= j < k ==> result@[j] == product@[j],
        decreases 32 - k,
    {
        result[k] = product[k];
        k = k + 1;
    }
    assert(result@ =~= product@.subrange(0, 32));
    result
}


// ---------------------------------------------------------------------------
// Shift-and-add multiplication: a * b = sum over the set bits i of b of a * x^i.
// ---------------------------------------------------------------------------

/// Shifts a little-endian bit string left by one position (the top bit drops out).
pub open spec fn shl1(s: Seq<u8>) -> Seq<u8> {
    Seq::new(
        s.len(),
        |k: int|
            if k == 0 {
                (s[0] << 1u8) as u8
            } else {
                ((s[k] << 1u8) | (s[k - 1] >> 7u8)) as u8
            },
    )
}

/// Multiplication by x in F_{2^m}, m = 8|s|: for m = 128 and m = 192 the modulus is
/// x^m + x^7 + x^2 + x + 1 (low terms 0x87); for m = 256 it is x^256 + x^10 + x^5 + x^2 + 1.
pub open spec fn mulx(s: Seq<u8>) -> Seq<u8> {
    let t = shl1(s);
    if (s[s.len() - 1] >> 7u8) & 1u8 == 1 {
        if s.len() == 32 {
            t.update(0, t[0] ^ 0x25u8).update(1, t[1] ^ 0x04u8)
        } else {
            t.update(0, t[0] ^ 0x87u8)
        }
    } else {
        t
    }
}

/// a * x^n.
pub open spec fn mulx_pow(a: Seq<u8>, n: nat) -> Seq<u8>
    decreases n,
{
    if n == 0 {
        a
    } else {
        mulx(mulx_pow(a, (n - 1) as nat))
    }
}

/// The sum of a * x^i over the set bits i < n of b.
pub open spec fn shift_add_mul(a: Seq<u8>, b: Seq<u8>, n: nat) -> Seq<u8>
    decreases n,
{
    if n == 0 {
        Seq::new(a.len(), |i: int| 0u8)
    } else {
        let prev = shift_add_mul(a, b, (n - 1) as nat);
        if bits_of_bytes(b)[n - 1] == 1 {
            xor_seq(prev, mulx_pow(a, (n - 1) as nat))
        } else {
            prev
        }
    }
}

/// Multiplication in F_{2^192} = F_2[x] / (x^192 + x^7 + x^2 + x + 1).
pub open spec fn gf192_mul_spec(a: Seq<u8>, b: Seq<u8>) -> Seq<u8> {
    shift_add_mul(a, b, 192)
}

/// Multiplication of a field element of F_{2^lambda} by a 64-bit element.
pub open spec fn gf_lambda_mul_64_spec(a: Seq<u8>, b: Seq<u8>) -> Seq<u8> {
    shift_add_mul(a, b, 64)
}

/// One doubling step: `lhs * x` in F_{2^(8N)}.
fn mulx_exec<const N: usize>(lhs: &[u8; N]) -> (shifted: [u8; N])
    requires
        N >= 2,
    ensures
        shifted@ == mulx(lhs@),
{
    let top_bit = (lhs[N - 1] >> 7) & 1;
    let mut shifted = [0u8; N];
    let mut k: usize = 1;
    while k < N
        invariant
            1 <= k <= N,
            forall|j: int| 1 <= j < k ==> shifted@[j] == ((lhs@[j] << 1u8) | (lhs@[j - 1] >> 7u8)) as u8,
        decreases N - k,
    {
        shifted[k] = (lhs[k] << 1) | (lhs[k - 1] >> 7);
        k = k + 1;
    }
    shifted[0] = lhs[0] << 1;
    assert(shifted@ =~= shl1(lhs@));
    if top_bit == 1 {
        if N == 32 {
            shifted[0] = shifted[0] ^ 0x25;
            shifted[1] = shifted[1] ^ 0x04;
        } else {
            shifted[0] = shifted[0] ^ 0x87;
        }
    }
    shifted
}

/// `result + lhs`, pointwise.
fn xor_into<const N: usize>(result: &mut [u8; N], lhs: &[u8; N])
    ensures
        final(result)@ == xor_seq(old(result)@, lhs@),
{
    let ghost r0 = result@;
    let mut k: usize = 0;
    while k < N
        invariant
            0 <= k <= N,
            r0.len() == N,
            forall|j: int| 0 <= j < k ==> result@[j] == r0[j] ^ lhs@[j],
            forall|j: int| k <= j < N ==> result@[j] == r0[j],
        decreases N - k,
    {
        result[k] = result[k] ^ lhs[k];
        k = k + 1;
    }
    assert(result@ =~= xor_seq(r0, lhs@));
}

/// Shift-and-add multiplication of `a` by the first `nbits` bits of `b`.
pub(crate) fn shift_add_mul_exec<const N: usize, const M: usize>(a: &[u8; N], b: &[u8; M], nbits: usize) -> (result: [u8; N])
    requires
        N >= 2,
        1 <= nbits <= 8 * M,
    ensures
        result@ == shift_add_mul(a@, b@, nbits as nat),
{
    let mut result = [0u8; N];
    let mut lhs = *a;
    let mut idx: usize = 0;
    assert(result@ =~= shift_add_mul(a@, b@, 0));
    while idx < nbits
        invariant
            0 <= idx <= nbits,
            N >= 2,
            nbits <= 8 * M,
            result@ == shift_add_mul(a@, b@, idx as nat),
            idx < nbits ==> lhs@ == mulx_pow(a@, idx as nat),
        decreases nbits - idx,
    {
        let b_bit = get_bit(b.as_slice(), idx);
        if b_bit == 1 {
            xor_into(&mut result, &lhs);
        }
        if idx < nbits - 1 {
            lhs = mulx_exec(&lhs);
        }
        idx = idx + 1;
    }
    result
}

/// Multiplication in F_{2^192} by shift-and-add, reducing each doubling by
/// x^192 = x^7 + x^2 + x + 1.
pub fn gf192_mul(a: &[u8; 24], b: &[u8; 24]) -> (result: [u8; 24])
    ensures
        result@ == gf192_mul_spec(a@, b@),
{
    shift_add_mul_exec(a, b, 192)
}

/// Multiplication in F_{2^lambda}; with lambda = 128 this is F_{2^128}.
pub open spec fn gf_lambda_mul_spec(a: Seq<u8>, b: Seq<u8>) -> Seq<u8> {
    gf128_mul_spec(a, b)
}

/// The field element 1 of F_{2^lambda}.
pub open spec fn gf_one() -> Seq<u8> {
    Seq::new(lambda_bytes as nat, |i: int| if i == 0 { 1u8 } else { 0u8 })
}

/// Multiplication in F_{2^lambda}, dispatching on lambda.
pub fn gf_lambda_mul(a: &[u8; lambda_bytes], b: &[u8; lambda_bytes]) -> (result: [u8; lambda_bytes])
    ensures
        result@ == gf_lambda_mul_spec(a@, b@),
{
    let mut result = [0u8; lambda_bytes];
    gf128_mul_into(a.as_slice(), b.as_slice(), &mut result);
    result
}

fn gf128_mul_into(a: &[u8], b: &[u8], out: &mut [u8])
    requires
        a@.len() == 16,
        b@.len() == 16,
        old(out)@.len() == 16,
    ensures
        final(out)@ == gf128_mul_spec(a@, b@),
{
    let a16: [u8; 16] = [a[0], a[1], a[2], a[3], a[4], a[5], a[6], a[7], a[8], a[9], a[10], a[11], a[12], a[13], a[14], a[15]];
    let b16: [u8; 16] = [b[0], b[1], b[2], b[3], b[4], b[5], b[6], b[7], b[8], b[9], b[10], b[11], b[12], b[13], b[14], b[15]];
    assert(a16@ =~= a@);
    assert(b16@ =~= b@);
    let res = gf128_mul(&a16, &b16);
    let mut k: usize = 0;
    while k < 16
        invariant
            0 <= k <= 16,
            out@.len() == 16,
            forall|j: int| 0 <= j < k ==> out@[j] == res@[j],
        decreases 16 - k,
    {
        out[k] = res[k];
        k = k + 1;
    }
    assert(out@ =~= res@);
}

/// `base^n` in F_{2^lambda} by repeated multiplication; non-positive exponents other than 0
/// give `base`.
pub open spec fn gf_lambda_pow_spec(base: Seq<u8>, n: int) -> Seq<u8>
    decreases n,
{
    if n == 0 {
        gf_one()
    } else if n <= 1 {
        base
    } else {
        gf_lambda_mul_spec(gf_lambda_pow_spec(base, n - 1), base)
    }
}

/// Exponentiation in F_{2^lambda} by repeated multiplication.
pub fn gf_lambda_pow(base: &[u8; lambda_bytes], pow_of: i32) -> (result: [u8; lambda_bytes])
    requires
        pow_of < i32::MAX,
    ensures
        result@ == gf_lambda_pow_spec(base@, pow_of as int),
{
    if pow_of == 0 {
        let mut result = [0u8; lambda_bytes];
        result[0] = 1;
        assert(result@ =~= gf_one());
        return result;
    }
    if pow_of == 1 {
        return *base;
    }
    let mut res = *base;
    let mut k: i32 = 2;
    while k < pow_of + 1
        invariant
            2 <= k,
            pow_of < i32::MAX,
            pow_of != 0 && pow_of != 1,
            k <= pow_of + 1 || pow_of < 2,
            pow_of < 2 ==> k == 2,
            res@ == gf_lambda_pow_spec(base@, (k - 1) as int),
        decreases pow_of + 1 - k,
    {
        res = gf_lambda_mul(&res, base);
        k = k + 1;
    }
    assert(pow_of >= 2 ==> k == pow_of + 1);
    assert(pow_of < 2 ==> gf_lambda_pow_spec(base@, pow_of as int) == base@ && k == 2);
    res
}

/// Addition in F_{2^64}.
pub fn gf64_add(a: &[u8; 8], b: &[u8; 8]) -> (result: [u8; 8])
    ensures
        result@ == xor_seq(a@, b@),
{
    let mut result = [0u8; 8];
    let mut i: usize = 0;
    while i < 8
        invariant
            0 <= i <= 8,
            forall|j: int| 0 <= j < i ==> result@[j] == a@[j] ^ b@[j],
        decreases 8 - i,
    {
        result[i] = a[i] ^ b[i];
        i = i + 1;
    }
    assert(result@ =~= xor_seq(a@, b@));
    result
}

/// Multiplication by x in F_{2^64} = F_2[x] / (x^64 + x^4 + x^3 + x + 1).
pub open spec fn xtime64(a: u64) -> u64 {
    if (a >> 63u64) & 1u64 == 1 {
        ((a << 1u64) ^ 0x1bu64) as u64
    } else {
        (a << 1u64) as u64
    }
}

/// Product in F_{2^64}: the sum of x^i * a over the set bits i of b.
pub open spec fn gf64_mul_u64(a: u64, b: u64) -> u64
    decreases b,
{
    if b == 0 {
        0
    } else {
        let rest = gf64_mul_u64(xtime64(a), b / 2);
        if b % 2 == 1 {
            a ^ rest
        } else {
            rest
        }
    }
}

/// Product in F_{2^64} on little-endian byte strings.
pub open spec fn gf64_mul_spec(a: Seq<u8>, b: Seq<u8>) -> Seq<u8> {
    spec_u64_to_le_bytes(gf64_mul_u64(spec_u64_from_le_bytes(a), spec_u64_from_le_bytes(b)))
}

proof fn lemma_gf64_step(a: u64, b: u64, result: u64, i: u64)
    requires
        i < 64,
        b >> ((64 - i) as u64) == 0,
    ensures
        (b & 1 == 1) == (b % 2 == 1),
        b >> 1 == b / 2,
        (b >> 1) >> ((64 - (i + 1)) as u64) == 0,
        (a >> 63) & 1 == 1 ==> (a << 1) ^ 0x1b == xtime64(a),
        (a >> 63) & 1 != 1 ==> a << 1 == xtime64(a),
        (result ^ a) ^ gf64_mul_u64(xtime64(a), b / 2) == result ^ (a ^ gf64_mul_u64(xtime64(a), b / 2)),
        result ^ (0u64 ^ gf64_mul_u64(xtime64(a), b / 2)) == result ^ gf64_mul_u64(xtime64(a), b / 2),
{
    let rest = gf64_mul_u64(xtime64(a), b / 2);
    assert((b & 1 == 1) == (b % 2 == 1) && b >> 1 == b / 2 && (b >> 1) >> ((64 - (i + 1)) as u64) == 0
        && ((result ^ a) ^ rest == result ^ (a ^ rest)) && (result ^ (0u64 ^ rest) == result ^ rest)) by (bit_vector)
        requires
            i < 64,
            b >> ((64 - i) as u64) == 0,
    ;
}

/// Multiplication in F_{2^64} with reduction modulo x^64 + x^4 + x^3 + x + 1.
pub fn gf64_mul(a: &[u8; 8], b: &[u8; 8]) -> (result: [u8; 8])
    ensures
        result@ == gf64_mul_spec(a@, b@),
{
    let mut result = 0u64;
    let mut a_val = u64_from_le_bytes(a.as_slice());
    let mut b_val = u64_from_le_bytes(b.as_slice());
    let ghost a0 = a_val;
    let ghost b0 = b_val;
    let mut i: u64 = 0;
    assert(b_val >> 64u64 == 0) by (bit_vector);
    assert(0u64 ^ gf64_mul_u64(a_val, b_val) == gf64_mul_u64(a_val, b_val)) by {
        let m = gf64_mul_u64(a_val, b_val);
        assert(0u64 ^ m == m) by (bit_vector);
    }
    while i < 64
        invariant
            0 <= i <= 64,
            b_val >> ((64 - i) as u64) == 0,
            result ^ gf64_mul_u64(a_val, b_val) == gf64_mul_u64(a0, b0),
        decreases 64 - i,
    {
        proof {
            lemma_gf64_step(a_val, b_val, result, i);
            let rest = gf64_mul_u64(xtime64(a_val), b_val / 2);
            if b_val == 0 {
                assert(0u64 ^ 0u64 == 0u64) by (bit_vector);
            }
        }
        if b_val & 1 == 1 {
            result ^= a_val;
        }
        let carry = (a_val >> 63) & 1;
        if carry == 1 {
            a_val = (a_val << 1) ^ 0x1b;
        } else {
            a_val = a_val << 1;
        }
        b_val >>= 1;
        i = i + 1;
    }
    assert(b_val >> 0u64 == 0 ==> b_val == 0) by (bit_vector);
    assert(result ^ 0u64 == result) by (bit_vector);
    let bytes = u64_to_le_bytes(result);
    let out: [u8; 8] = [bytes[0], bytes[1], bytes[2], bytes[3], bytes[4], bytes[5], bytes[6], bytes[7]];
    assert(out@ =~= bytes@);
    out
}

/// `base^n` in F_{2^64} by repeated multiplication.
pub open spec fn field_pow_64_spec(base: Seq<u8>, n: nat) -> Seq<u8>
    decreases n,
{
    if n == 0 {
        seq![1u8, 0, 0, 0, 0, 0, 0, 0]
    } else {
        gf64_mul_spec(field_pow_64_spec(base, (n - 1) as nat), base)
    }
}

/// Exponentiation in F_{2^64} by repeated multiplication.
pub fn field_pow_64(base: &[u8; 8], exp: usize) -> (result: [u8; 8])
    ensures
        result@ == field_pow_64_spec(base@, exp as nat),
{
    if exp == 0 {
        let mut one = [0u8; 8];
        one[0] = 1;
        assert(one@ =~= seq![1u8, 0, 0, 0, 0, 0, 0, 0]);
        return one;
    }
    let mut result = [0u8; 8];
    result[0] = 1;
    assert(result@ =~= seq![1u8, 0, 0, 0, 0, 0, 0, 0]);
    let mut k: usize = 0;
    while k < exp
        invariant
            0 <= k <= exp,
            result@ == field_pow_64_spec(base@, k as nat),
        decreases exp - k,
    {
        result = gf64_mul(&result, base);
        k = k + 1;
    }
    result
}

} // verus!
