#![allow(non_upper_case_globals)]

use vstd::prelude::*;
use vstd::arithmetic::power2::{pow2, lemma_pow2_adds, lemma_pow2_pos, lemma2_to64};
use vstd::bits::{lemma_u64_shl_is_mul, lemma_u64_pow2_no_overflow};
use crate::utils::constants::{k_0, k_1};
use crate::utils::math::{xor_arrays, xor_seq};
use crate::utils::types::Log2Number;

verus! {

/// NumRec: the natural number whose little-endian base-2 digits are `b`,
/// that is the sum of `b[i] * 2^i`.
pub open spec fn num_rec(b: Seq<u8>) -> nat
    decreases b.len(),
{
    if b.len() == 0 {
        0
    } else {
        num_rec(b.drop_last()) + (b.last() as nat) * pow2((b.len() - 1) as nat)
    }
}

/// BitDec: the `n` little-endian binary digits of `x`.
pub open spec fn bit_dec(x: nat, n: nat) -> Seq<u8>
    decreases n,
{
    if n == 0 {
        Seq::empty()
    } else {
        bit_dec(x, (n - 1) as nat).push(((x / pow2((n - 1) as nat)) % 2) as u8)
    }
}

proof fn lemma_num_rec_step(b: Seq<u8>, i: int)
    requires
        0 <= i < b.len(),
    ensures
        num_rec(b.subrange(0, i + 1)) == num_rec(b.subrange(0, i)) + (b[i] as nat) * pow2(i as nat),
{
    assert(b.subrange(0, i + 1).drop_last() =~= b.subrange(0, i));
}

/// NumRec of bits stays below 2^len.
pub proof fn lemma_num_rec_bits_bound(b: Seq<u8>)
    requires
        forall|i: int| 0 <= i < b.len() ==> #[trigger] b[i] <= 1,
    ensures
        num_rec(b) < pow2(b.len()),
    decreases b.len(),
{
    lemma2_to64();
    if b.len() > 0 {
        let c = b.drop_last();
        assert forall|i: int| 0 <= i < c.len() implies #[trigger] c[i] <= 1 by {
            assert(c[i] == b[i]);
        }
        lemma_num_rec_bits_bound(c);
        lemma_pow2_adds((b.len() - 1) as nat, 1);
        let p = pow2((b.len() - 1) as nat);
        assert(b.last() <= 1);
        assert((b.last() as nat) * p <= p) by (nonlinear_arith)
            requires
                b.last() <= 1,
        ;
    }
}

/// Entry `j` of BitDec(x, n) is bit `j` of `x`.
pub proof fn lemma_bit_dec_index(x: nat, n: nat, j: int)
    requires
        0 <= j < n,
    ensures
        bit_dec(x, n).len() == n,
        bit_dec(x, n)[j] == ((x / pow2(j as nat)) % 2) as u8,
    decreases n,
{
    if n > 0 {
        if j < n - 1 {
            lemma_bit_dec_index(x, (n - 1) as nat, j);
        } else {
            lemma_bit_dec_len(x, (n - 1) as nat);
        }
    }
}

proof fn lemma_bit_dec_len(x: nat, n: nat)
    ensures
        bit_dec(x, n).len() == n,
    decreases n,
{
    if n > 0 {
        lemma_bit_dec_len(x, (n - 1) as nat);
    }
}

/// NumRec undoes BitDec: NumRec(BitDec(x, n)) = x for every x < 2^n.
pub proof fn lemma_num_rec_bit_dec(x: nat, n: nat)
    requires
        x < pow2(n),
    ensures
        num_rec(bit_dec(x, n)) == x,
{
    lemma_num_rec_bit_dec_mod(x, n);
    vstd::arithmetic::div_mod::lemma_small_mod(x, pow2(n));
}

/// NumRec(BitDec(x, n)) = x mod 2^n.
proof fn lemma_num_rec_bit_dec_mod(x: nat, n: nat)
    ensures
        num_rec(bit_dec(x, n)) == x % pow2(n),
    decreases n,
{
    lemma_pow2_pos(n);
    if n == 0 {
        lemma2_to64();
        assert(x % 1 == 0);
    } else {
        let m = (n - 1) as nat;
        lemma_num_rec_bit_dec_mod(x, m);
        lemma_bit_dec_len(x, m);
        let s = bit_dec(x, n);
        assert(s.drop_last() =~= bit_dec(x, m));
        lemma_pow2_pos(m);
        lemma_pow2_adds(m, 1);
        lemma2_to64();
        assert(pow2(n) == pow2(m) * 2);
        vstd::arithmetic::div_mod::lemma_mod_breakdown(x as int, pow2(m) as int, 2);
        assert(num_rec(s) == num_rec(bit_dec(x, m)) + ((x / pow2(m)) % 2) * pow2(m));
        assert(((x / pow2(m)) % 2) * pow2(m) == pow2(m) * ((x / pow2(m)) % 2)) by (nonlinear_arith);
    }
}

/// Bit `j` of NumRec(b) is `b[j]`, for a sequence of bits.
pub proof fn lemma_num_rec_bit(b: Seq<u8>, j: int)
    requires
        forall|i: int| 0 <= i < b.len() ==> #[trigger] b[i] <= 1,
        0 <= j < b.len(),
    ensures
        (num_rec(b) / pow2(j as nat)) % 2 == b[j] as nat,
    decreases b.len(),
{
    let n = b.len();
    let c = b.drop_last();
    let m = (n - 1) as nat;
    let x = num_rec(c);
    let last = b.last() as nat;
    assert forall|i: int| 0 <= i < c.len() implies #[trigger] c[i] <= 1 by {
        assert(c[i] == b[i]);
    }
    lemma_num_rec_bits_bound(c);
    lemma_pow2_pos(j as nat);
    assert(num_rec(b) == x + last * pow2(m));
    if j < m {
        lemma_num_rec_bit(c, j);
        let e = (m - j) as nat;
        lemma_pow2_adds(j as nat, e);
        assert(pow2(m) == pow2(j as nat) * pow2(e));
        lemma_pow2_adds(1, (e - 1) as nat);
        lemma2_to64();
        assert(pow2(e) == 2 * pow2((e - 1) as nat));
        let q = last * pow2(e);
        assert(last * pow2(m) == q * pow2(j as nat)) by (nonlinear_arith)
            requires
                pow2(m) == pow2(j as nat) * pow2(e),
                q == last * pow2(e),
        ;
        vstd::arithmetic::div_mod::lemma_hoist_over_denominator(x as int, q as int, pow2(j as nat));
        assert(q == 2 * (last * pow2((e - 1) as nat))) by (nonlinear_arith)
            requires
                pow2(e) == 2 * pow2((e - 1) as nat),
                q == last * pow2(e),
        ;
        vstd::arithmetic::div_mod::lemma_mod_multiples_vanish((last * pow2((e - 1) as nat)) as int, (x / pow2(j as nat)) as int, 2);
        assert(c[j] == b[j]);
    } else {
        vstd::arithmetic::div_mod::lemma_hoist_over_denominator(x as int, last as int, pow2(m));
        vstd::arithmetic::div_mod::lemma_basic_div(x as int, pow2(m) as int);
        assert(last * pow2(m) == pow2(m) * last) by (nonlinear_arith);
        assert(b[j] == b.last());
    }
}

/// BitDec undoes NumRec on sequences of bits: BitDec(NumRec(b), |b|) = b.
pub proof fn lemma_bit_dec_num_rec(b: Seq<u8>)
    requires
        forall|i: int| 0 <= i < b.len() ==> #[trigger] b[i] <= 1,
    ensures
        bit_dec(num_rec(b), b.len()) == b,
{
    lemma_bit_dec_len(num_rec(b), b.len());
    assert forall|j: int| 0 <= j < b.len() implies #[trigger] bit_dec(num_rec(b), b.len())[j] == b[j] by {
        lemma_bit_dec_index(num_rec(b), b.len(), j);
        lemma_num_rec_bit(b, j);
    }
    assert(bit_dec(num_rec(b), b.len()) =~= b);
}

/// Shared loop of `num_rec_k0` and `num_rec_k1`.
fn num_rec_slice(b: &[u8]) -> (j_star: u64)
    requires
        b@.len() <= 16,
    ensures
        j_star == num_rec(b@),
{
    let mut j_star: u64 = 0;
    let mut i: usize = 0;
    proof {
        lemma2_to64();
        assert(b@.subrange(0, 0) =~= Seq::<u8>::empty());
    }
    while i < b.len()
        invariant
            0 <= i <= b@.len() <= 16,
            j_star == num_rec(b@.subrange(0, i as int)),
            j_star < 256 * pow2(i as nat),
        decreases b@.len() - i,
    {
        proof {
            lemma_u64_pow2_no_overflow(i as nat);
            lemma_pow2_pos(i as nat);
            lemma_pow2_adds(i as nat, 1);
            lemma2_to64();
            vstd::arithmetic::power2::lemma_pow2_strictly_increases(i as nat, 16);
            assert(pow2(16) == 0x10000) by {
                lemma_pow2_adds(8, 8);
            }
            assert(1u64 * pow2(i as nat) <= u64::MAX);
            lemma_u64_shl_is_mul(1u64, i as u64);
        }
        let i_shift: u64 = 1u64 << (i as u64);
        let bi = b[i] as u64;
        proof {
            assert(i_shift == pow2(i as nat));
            assert(bi * i_shift <= 255 * pow2(i as nat)) by (nonlinear_arith)
                requires
                    bi <= 255,
                    i_shift == pow2(i as nat),
            ;
            assert(pow2(i as nat) <= 0x10000);
            lemma_num_rec_step(b@, i as int);
        }
        let bi_shift: u64 = bi * i_shift;
        j_star = j_star + bi_shift;
        i = i + 1;
    }
    assert(b@.subrange(0, b@.len() as int) =~= b@);
    j_star
}

/// NumRec of a k_0-bit challenge block: the leaf index it selects.
pub fn num_rec_k0(b: &[u8; k_0]) -> (j_star: u64)
    ensures
        j_star == num_rec(b@),
{
    num_rec_slice(b.as_slice())
}

/// NumRec of a k_1-bit challenge block: the leaf index it selects.
pub fn num_rec_k1(b: &[u8; k_1]) -> (j_star: u64)
    ensures
        j_star == num_rec(b@),
{
    num_rec_slice(b.as_slice())
}

/// Concatenates the rows of a matrix.
pub fn flatten<const OUTER_LEN: usize, const INNER_LEN: usize, const COMBINED_LEN: usize>(
    input: [[u8; INNER_LEN]; OUTER_LEN],
) -> (res: [u8; COMBINED_LEN])
    requires
        COMBINED_LEN == OUTER_LEN * INNER_LEN,
    ensures
        forall|i: int, j: int|
            0 <= i < OUTER_LEN && 0 <= j < INNER_LEN ==> #[trigger] res@[i * INNER_LEN + j]
                == input@[i]@[j],
{
    let mut res: [u8; COMBINED_LEN] = [0u8; COMBINED_LEN];
    let mut i: usize = 0;
    while i < OUTER_LEN
        invariant
            0 <= i <= OUTER_LEN,
            COMBINED_LEN == OUTER_LEN * INNER_LEN,
            res@.len() == COMBINED_LEN,
            forall|a: int, c: int|
                0 <= a < i && 0 <= c < INNER_LEN ==> #[trigger] res@[a * INNER_LEN + c]
                    == input@[a]@[c],
        decreases OUTER_LEN - i,
    {
        let row = input[i];
        let mut j: usize = 0;
        proof {
            assert((i + 1) * INNER_LEN <= OUTER_LEN * INNER_LEN) by (nonlinear_arith)
                requires
                    i < OUTER_LEN,
            ;
            assert((i + 1) * INNER_LEN == i * INNER_LEN + INNER_LEN) by (nonlinear_arith);
        }
        while j < INNER_LEN
            invariant
                0 <= i < OUTER_LEN,
                0 <= j <= INNER_LEN,
                COMBINED_LEN == OUTER_LEN * INNER_LEN,
                i * INNER_LEN + INNER_LEN <= COMBINED_LEN,
                res@.len() == COMBINED_LEN,
                row@ == input@[i as int]@,
                forall|a: int, c: int|
                    0 <= a < i && 0 <= c < INNER_LEN ==> #[trigger] res@[a * INNER_LEN + c]
                        == input@[a]@[c],
                forall|c: int| 0 <= c < j ==> #[trigger] res@[i * INNER_LEN + c] == input@[i as int]@[c],
            decreases INNER_LEN - j,
        {
            let idx: usize = i * INNER_LEN + j;
            let ghost before = res@;
            res[idx] = row[j];
            proof {
                assert forall|a: int, c: int|
                    0 <= a < i && 0 <= c < INNER_LEN implies #[trigger] res@[a * INNER_LEN + c]
                    == input@[a]@[c] by {
                    assert(a * INNER_LEN + c < i * INNER_LEN) by (nonlinear_arith)
                        requires
                            0 <= a < i,
                            0 <= c < INNER_LEN,
                    ;
                    assert(res@[a * INNER_LEN + c] == before[a * INNER_LEN + c]);
                }
            }
            j = j + 1;
        }
        proof {
            assert forall|a: int, c: int|
                0 <= a < i + 1 && 0 <= c < INNER_LEN implies #[trigger] res@[a * INNER_LEN + c]
                == input@[a]@[c] by {
                if a == i {
                } else {
                }
            }
        }
        i = i + 1;
    }
    res
}

/// Exclusive or of two bytes.
pub fn xor_u8(x: &u8, y: &u8) -> (r: u8)
    ensures
        r == *x ^ *y,
{
    *x ^ *y
}

/// Exclusive or of two 16-byte blocks.
pub fn xor_u8_16_array(x: &[u8; 16], y: &[u8; 16]) -> (r: [u8; 16])
    ensures
        r@ == xor_seq(x@, y@),
{
    xor_arrays::<16>(x, y)
}

/// `a ^ b` for two indices below a power of two; the result stays below it.
pub fn xor_with_bound(a: usize, b: usize, bound: Log2Number) -> (r: usize)
    requires
        a < bound.spec_value(),
        b < bound.spec_value(),
    ensures
        r == a ^ b,
        r < bound.spec_value(),
{
    let n = bound.value();
    proof {
        let k: usize = n;
        assert(k == 0 || k == 1 || k == 2 || k == 4 || k == 8 || k == 16 || k == 32 || k == 64 || k == 128
            || k == 256 || k == 512 || k == 1024 || k == 2048 || k == 4096);
        assert((k == 1 || k == 2 || k == 4 || k == 8 || k == 16 || k == 32 || k == 64 || k == 128
            || k == 256 || k == 512 || k == 1024 || k == 2048 || k == 4096) && a < k && b < k
            ==> (a ^ b) < k) by (bit_vector);
    }
    a ^ b
}

} // verus!
