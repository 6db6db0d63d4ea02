#![allow(non_snake_case, non_upper_case_globals)]

use vstd::prelude::*;
use crate::utils::constants::{lambda_bytes, lambda_bytes_times_three, lambda_bytes_times_two};
use crate::utils::galois_field::{gf_lambda_mul, gf_lambda_mul_spec, gf_lambda_mul_64_spec, shift_add_mul_exec};
use crate::utils::slices::take_bytes;
use crate::utils::math::{bit_of, bits_of_bytes, xor_arrays, xor_seq, lemma_bit_position};

verus! {

/// The bits of field element `i` of ToField(x, K): bit `j < K` is set exactly when
/// `x[i K + j]` is 1, and the bits from K on are zero.
pub open spec fn field_bits(x: Seq<u8>, i: int, K: int) -> Seq<u8> {
    Seq::new(128, |j: int| if j < K && x[i * K + j] == 1 { 1u8 } else { 0u8 })
}

/// Setting bit `p` of a byte by or-ing it in.
proof fn lemma_set_bit(x: u8, p: u8, q: u8)
    requires
        p < 8,
        q < 8,
    ensures
        bit_of(x | (1u8 << p), q as int) == if p == q { 1 } else { bit_of(x, q as int) },
{
    assert(bit_of(x | (1u8 << p), q as int) == if p == q { 1 } else { bit_of(x, q as int) }) by (bit_vector)
        requires
            p < 8,
            q < 8,
    ;
}

/// ToField: groups of K bits of `x`, each read as an element of F_{2^K} inside F_{2^lambda}
/// (bit j of the group is the coefficient of x^j).
pub fn to_field<const x_len: usize, const K: usize, const N: usize>(x: &[u8; x_len]) -> (result: [[u8; lambda_bytes]; N])
    requires
        0 < K <= 128,
        x_len % K == 0,
        N * K <= x_len,
    ensures
        forall|i: int| 0 <= i < N ==> #[trigger] bits_of_bytes(result@[i]@) == field_bits(x@, i, K as int),
{
    let mut result = [[0u8; lambda_bytes]; N];
    let mut i: usize = 0;
    while i < N
        invariant
            0 <= i <= N,
            0 < K <= 128,
            N * K <= x_len,
            forall|t: int| 0 <= t < i ==> #[trigger] bits_of_bytes(result@[t]@) == field_bits(x@, t, K as int),
        decreases N - i,
    {
        proof {
            assert(i * K + K <= N * K) by (nonlinear_arith)
                requires
                    i < N,
            ;
        }
        let mut field_elem = [0u8; lambda_bytes];
        let mut j: usize = 0;
        proof {
            assert forall|t: int| 0 <= t < 128 implies #[trigger] bit_of(field_elem@[t / 8], t % 8) == 0u8 by {
                crate::utils::math::lemma_flip_bit_of_byte(0, 0, (t % 8) as u8);
            }
        }
        while j < K
            invariant
                0 <= j <= K <= 128,
                i < N,
                i * K + K <= x_len,
                forall|t: int| 0 <= t < 128 ==> #[trigger] bit_of(field_elem@[t / 8], t % 8) == if t < j && x@[i * K + t] == 1 {
                    1u8
                } else {
                    0u8
                },
            decreases K - j,
        {
            let bit = x[i * K + j];
            if bit == 1 {
                let byte_idx = j / 8;
                let bit_idx = (j % 8) as u8;
                let ghost before = field_elem@;
                field_elem[byte_idx] = field_elem[byte_idx] | (1u8 << bit_idx);
                proof {
                    assert forall|t: int| 0 <= t < 128 implies #[trigger] bit_of(field_elem@[t / 8], t % 8) == if t < j + 1 && x@[i * K + t] == 1 {
                        1u8
                    } else {
                        0u8
                    } by {
                        lemma_set_bit(before[byte_idx as int], bit_idx, (t % 8) as u8);
                        if t / 8 == byte_idx {
                            assert(t == j <==> t % 8 == bit_idx);
                        }
                    }
                }
            }
            j = j + 1;
        }
        proof {
            assert(bits_of_bytes(field_elem@) =~= field_bits(x@, i as int, K as int));
        }
        result[i] = field_elem;
        i = i + 1;
    }
    result
}

/// ToBits: the first K bits of each field element, concatenated.
pub fn to_bits<const N: usize, const K: usize, const NK: usize>(x: &[[u8; lambda_bytes]; N], result: &mut [u8; NK])
    requires
        0 < K <= 128,
        N * K == NK,
    ensures
        forall|i: int, j: int| 0 <= i < N && 0 <= j < K ==> #[trigger] final(result)@[i * K + j] == bits_of_bytes(x@[i]@)[j],
{
    let mut i: usize = 0;
    while i < N
        invariant
            0 <= i <= N,
            0 < K <= 128,
            N * K == NK,
            forall|a: int, j: int| 0 <= a < i && 0 <= j < K ==> #[trigger] result@[a * K + j] == bits_of_bytes(x@[a]@)[j],
        decreases N - i,
    {
        proof {
            assert(i * K + K <= N * K) by (nonlinear_arith)
                requires
                    i < N,
            ;
        }
        let field_elem = x[i];
        let mut j: usize = 0;
        while j < K
            invariant
                0 <= j <= K <= 128,
                i < N,
                i * K + K <= NK,
                field_elem == x@[i as int],
                forall|a: int, c: int| 0 <= a < i && 0 <= c < K ==> #[trigger] result@[a * K + c] == bits_of_bytes(x@[a]@)[c],
                forall|c: int| 0 <= c < j ==> #[trigger] result@[i * K + c] == bits_of_bytes(x@[i as int]@)[c],
            decreases K - j,
        {
            proof {
                lemma_bit_position(j);
            }
            let ghost before = result@;
            result[i * K + j] = (field_elem[j >> 3] >> ((j & 7) as u8)) & 1;
            proof {
                assert((j & 7) as u8 == (j % 8) as u8) by (bit_vector);
                assert forall|a: int, c: int| 0 <= a < i && 0 <= c < K implies #[trigger] result@[a * K + c] == bits_of_bytes(x@[a]@)[c] by {
                    assert(a * K + c < i * K) by (nonlinear_arith)
                        requires
                            a + 1 <= i,
                            c < K,
                    ;
                    assert(result@[a * K + c] == before[a * K + c]);
                }
            }
            j = j + 1;
        }
        i = i + 1;
    }
}

/// ToBits undoes ToField on bit strings: bit `j` of field element `i` is input bit `i K + j`.
pub proof fn lemma_to_bits_to_field(x: Seq<u8>, K: int, N: int)
    requires
        0 < K <= 128,
        0 <= N,
        N * K <= x.len(),
        forall|t: int| 0 <= t < x.len() ==> #[trigger] x[t] <= 1,
    ensures
        forall|i: int, j: int| 0 <= i < N && 0 <= j < K ==> #[trigger] field_bits(x, i, K)[j] == x[i * K + j],
{
    assert forall|i: int, j: int| 0 <= i < N && 0 <= j < K implies #[trigger] field_bits(x, i, K)[j] == x[i * K + j] by {
        assert(i * K + j < N * K) by (nonlinear_arith)
            requires
                0 <= i,
                i + 1 <= N,
                0 <= j < K,
                K > 0,
        ;
    }
}

/// Horner evaluation: h_{k+1} = mul(h_k, s) + x_k for the first `n` entries, from `init`.
pub open spec fn horner(xs: Seq<Seq<u8>>, s: Seq<u8>, n: int, init: Seq<u8>, times: spec_fn(Seq<u8>, Seq<u8>) -> Seq<u8>) -> Seq<u8>
    decreases n,
{
    if n <= 0 {
        init
    } else {
        xor_seq(times(horner(xs, s, n - 1, init, times), s), xs[n - 1])
    }
}

/// The 16 zero bytes.
pub open spec fn zero_field() -> Seq<u8> {
    Seq::new(16, |i: int| 0u8)
}

/// Multiplication in F_{2^lambda}, as a closure.
pub open spec fn gf_mul_fn() -> spec_fn(Seq<u8>, Seq<u8>) -> Seq<u8> {
    |a: Seq<u8>, b: Seq<u8>| gf_lambda_mul_spec(a, b)
}

/// Multiplication of an F_{2^lambda} element by a 64-bit element, as a closure.
pub open spec fn gf_mul_64_fn() -> spec_fn(Seq<u8>, Seq<u8>) -> Seq<u8> {
    |a: Seq<u8>, b: Seq<u8>| gf_lambda_mul_64_spec(a, b)
}

/// ZKHash(sd, x0, x1) = r0 h0 + r1 h1 + x1, where h0 and h1 are the Horner evaluations of x0
/// at s and at the 64-bit t, and sd = r0 || r1 || s || t.
pub open spec fn zk_hash_spec(sd: Seq<u8>, x0: Seq<Seq<u8>>, x1: Seq<u8>) -> Seq<u8> {
    let r0 = sd.subrange(0, 16);
    let r1 = sd.subrange(16, 32);
    let s = sd.subrange(32, 48);
    let t = sd.subrange(48, 56);
    let h0 = horner(x0, s, x0.len() as int, zero_field(), gf_mul_fn());
    let h1 = horner(x0, t, x0.len() as int, zero_field(), gf_mul_64_fn());
    xor_seq(xor_seq(gf_lambda_mul_spec(r0, h0), gf_lambda_mul_spec(r1, h1)), x1)
}

/// ZKHash: compresses the constraint values `x0` and the mask `x1` into one field element
/// under the seed `sd`.
pub fn zk_hash(sd: &[u8], x0: &[[u8; lambda_bytes]], x1: &[u8; lambda_bytes]) -> (r: [u8; lambda_bytes])
    requires
        sd@.len() >= 56,
    ensures
        r@ == zk_hash_spec(sd@, crate::utils::hash_functions::rows_view(x0@), x1@),
{
    let r0 = take_bytes::<16>(sd, 0);
    let r1 = take_bytes::<16>(sd, lambda_bytes);
    let s = take_bytes::<16>(sd, lambda_bytes_times_two);
    let t = take_bytes::<8>(sd, lambda_bytes_times_three);
    let ghost xs = crate::utils::hash_functions::rows_view(x0@);
    let mut h0 = [0u8; lambda_bytes];
    let mut h1 = [0u8; lambda_bytes];
    assert(h0@ =~= zero_field());
    let mut k: usize = 0;
    while k < x0.len()
        invariant
            0 <= k <= x0@.len(),
            xs == crate::utils::hash_functions::rows_view(x0@),
            h0@ == horner(xs, s@, k as int, zero_field(), gf_mul_fn()),
            h1@ == horner(xs, t@, k as int, zero_field(), gf_mul_64_fn()),
        decreases x0@.len() - k,
    {
        let v = x0[k];
        h0 = xor_arrays(&gf_lambda_mul(&h0, &s), &v);
        h1 = xor_arrays(&gf_lambda_mul_64(&h1, &t), &v);
        k = k + 1;
    }
    let term0 = gf_lambda_mul(&r0, &h0);
    let term1 = gf_lambda_mul(&r1, &h1);
    xor_arrays(&xor_arrays(&term0, &term1), x1)
}

/// Multiplication of an F_{2^lambda} element by a 64-bit element, by shift-and-add.
pub fn gf_lambda_mul_64(a: &[u8; lambda_bytes], b: &[u8; 8]) -> (result: [u8; lambda_bytes])
    ensures
        result@ == gf_lambda_mul_64_spec(a@, b@),
{
    shift_add_mul_exec(a, b, 64)
}

} // verus!
