#![allow(non_snake_case, non_upper_case_globals)]

use vstd::prelude::*;
use crate::utils::constants::{chall1_bytes, chall3_bytes, ell_hat_bytes, ell_plus_lambda, h_v_size, k_0, k_1, lambda_bytes, tau, tau_0, x0_bytes, x1_bytes, LAMBDA};
use crate::utils::galois_field::{gf64_add, gf64_mul, gf64_mul_spec, gf_lambda_mul, gf_lambda_mul_spec};
use crate::utils::hash_functions::{concat_rows, lemma_concat_rows_index, pack_bits, rows_view};
use crate::utils::helper_methods_cstrnts::{bits_to_byte, or_shifted};
use crate::utils::helper_methods_prove_verify::{gf_mul_fn, horner, zero_field};
use crate::utils::math::{bit_of, bits_of_bytes, state_bytes, xor_arrays, xor_seq, lemma_bit_position};
use crate::utils::types::{sized_array_for_q_v, State};
use crate::utils::slices::take_bytes;
use crate::utils::preliminary_helper_methods::flatten;
use crate::protocols::fs_vole::{chall_offset, instance_depth, qv_variant_ok};

verus! {

/// Instance holding VOLE column `c` (columns are numbered across instances).
pub open spec fn instance_of(c: int) -> int {
    if c < k_0 * tau_0 {
        c / k_0 as int
    } else {
        tau_0 + (c - k_0 * tau_0) / k_1 as int
    }
}

/// VOLE column `c`, across all instances.
pub open spec fn vole_column(big_v: Seq<sized_array_for_q_v>, c: int) -> Seq<u8> {
    let i = instance_of(c);
    big_v[i].cols()[c - chall_offset(i)]@
}

/// The VOLE columns as a row-major bit matrix: row `r` holds bit `r` of every column.
pub fn vole_to_row_major(big_v: [sized_array_for_q_v; tau]) -> (v_rows: [[u8; LAMBDA]; ell_plus_lambda])
    requires
        forall|i: int| 0 <= i < tau ==> qv_variant_ok(#[trigger] big_v@[i], i),
    ensures
        forall|r: int, c: int| 0 <= r < ell_plus_lambda && 0 <= c < LAMBDA ==> #[trigger] v_rows@[r]@[c]
            == bits_of_bytes(vole_column(big_v@, c))[r],
        rows_view(v_rows@) == rows_of_columns(vole_columns(big_v@)),
{
    let mut v_rows: [[u8; LAMBDA]; ell_plus_lambda] = [[0u8; LAMBDA]; ell_plus_lambda];
    let mut col: usize = 0;
    let mut i: usize = 0;
    while i < tau
        invariant
            0 <= i <= tau,
            col == chall_offset(i as int),
            forall|t: int| 0 <= t < tau ==> qv_variant_ok(#[trigger] big_v@[t], t),
            forall|r: int, c: int| 0 <= r < ell_plus_lambda && 0 <= c < col ==> #[trigger] v_rows@[r]@[c]
                == bits_of_bytes(vole_column(big_v@, c))[r],
        decreases tau - i,
    {
        let k_b: usize = if i < tau_0 { k_0 } else { k_1 };
        let mut j: usize = 0;
        while j < k_b
            invariant
                0 <= i < tau,
                k_b == instance_depth(i as int),
                0 <= j <= k_b,
                col == chall_offset(i as int) + j,
                forall|t: int| 0 <= t < tau ==> qv_variant_ok(#[trigger] big_v@[t], t),
                forall|r: int, c: int| 0 <= r < ell_plus_lambda && 0 <= c < col ==> #[trigger] v_rows@[r]@[c]
                    == bits_of_bytes(vole_column(big_v@, c))[r],
            decreases k_b - j,
        {
            let column: [u8; ell_hat_bytes] = *big_v[i].get(j);
            proof {
                assert(instance_of(col as int) == i);
                assert(column@ == vole_column(big_v@, col as int));
            }
            let mut row: usize = 0;
            while row < ell_plus_lambda
                invariant
                    0 <= row <= ell_plus_lambda,
                    col < LAMBDA,
                    column@ == vole_column(big_v@, col as int),
                    forall|r: int, c: int| 0 <= r < ell_plus_lambda && 0 <= c < col ==> #[trigger] v_rows@[r]@[c]
                        == bits_of_bytes(vole_column(big_v@, c))[r],
                    forall|r: int| 0 <= r < row ==> #[trigger] v_rows@[r]@[col as int]
                        == bits_of_bytes(vole_column(big_v@, col as int))[r],
                decreases ell_plus_lambda - row,
            {
                let byte_idx = row >> 3;
                let bit_idx = (row % 8) as u8;
                proof {
                    lemma_bit_position(row);
                }
                let val = (column[byte_idx] >> bit_idx) & 1;
                let mut line = v_rows[row];
                line[col] = val;
                v_rows[row] = line;
                row = row + 1;
            }
            col = col + 1;
            j = j + 1;
        }
        i = i + 1;
    }
    assert forall|t: int| 0 <= t < ell_plus_lambda implies #[trigger] rows_view(v_rows@)[t] == rows_of_columns(vole_columns(big_v@))[t] by {
        assert(rows_view(v_rows@)[t] =~= rows_of_columns(vole_columns(big_v@))[t]);
    }
    assert(rows_view(v_rows@) =~= rows_of_columns(vole_columns(big_v@)));
    v_rows
}

/// The first ell + lambda bits of the packed column u.
pub fn u_to_1728_bits(u: &[u8; ell_hat_bytes]) -> (bits: [u8; ell_plus_lambda])
    ensures
        bits@ == bits_of_bytes(u@).subrange(0, ell_plus_lambda as int),
{
    let mut bits = [0u8; ell_plus_lambda];
    let mut idx: usize = 0;
    while idx < ell_plus_lambda
        invariant
            0 <= idx <= ell_plus_lambda,
            forall|k: int| 0 <= k < idx ==> #[trigger] bits@[k] == bits_of_bytes(u@)[k],
        decreases ell_plus_lambda - idx,
    {
        proof {
            lemma_bit_position(idx);
        }
        bits[idx] = (u[idx >> 3] >> ((idx % 8) as u8)) & 1;
        idx = idx + 1;
    }
    assert(bits@ =~= bits_of_bytes(u@).subrange(0, ell_plus_lambda as int));
    bits
}

/// The 448 bits of 56 bytes, most significant bit of each byte first.
pub fn expand_bits_56(input: [u8; 56]) -> (output: [u8; 448])
    ensures
        forall|k: int| 0 <= k < 448 ==> #[trigger] output@[k] == bit_of(input@[k / 8], 7 - k % 8),
{
    let mut output = [0u8; 448];
    let mut i: usize = 0;
    while i < 56
        invariant
            0 <= i <= 56,
            forall|k: int| 0 <= k < 8 * i ==> #[trigger] output@[k] == bit_of(input@[k / 8], 7 - k % 8),
        decreases 56 - i,
    {
        let byte = input[i];
        let mut bit: usize = 0;
        while bit < 8
            invariant
                0 <= i < 56,
                0 <= bit <= 8,
                byte == input@[i as int],
                forall|k: int| 0 <= k < 8 * i + bit ==> #[trigger] output@[k] == bit_of(input@[k / 8], 7 - k % 8),
            decreases 8 - bit,
        {
            output[i * 8 + bit] = (byte >> ((7 - bit) as u8)) & 1;
            proof {
                assert((i * 8 + bit) / 8 == i as int);
                assert((i * 8 + bit) % 8 == bit as int);
            }
            bit = bit + 1;
        }
        i = i + 1;
    }
    output
}

/// The 128 bits of the third challenge, least significant bit of each byte first.
pub fn chall3_to_bits(chall_3: &[u8; chall3_bytes]) -> (bits: [u8; LAMBDA])
    ensures
        bits@ == bits_of_bytes(chall_3@),
{
    let mut bits = [0u8; LAMBDA];
    let mut idx: usize = 0;
    while idx < LAMBDA
        invariant
            0 <= idx <= LAMBDA,
            forall|k: int| 0 <= k < idx ==> #[trigger] bits@[k] == bits_of_bytes(chall_3@)[k],
        decreases LAMBDA - idx,
    {
        proof {
            lemma_bit_position(idx);
        }
        bits[idx] = (chall_3[idx >> 3] >> ((idx % 8) as u8)) & 1;
        idx = idx + 1;
    }
    assert(bits@ =~= bits_of_bytes(chall_3@));
    bits
}

/// An AES state from 128 bits: byte `i` packs bits `8 i .. 8 i + 8` and goes to column
/// `i / 4`, row `i % 4`.
pub fn bits_to_state(text: &[u8; 128]) -> (state: State)
    ensures
        state_bytes(state) == pack_bits(text@),
{
    let mut state = [[0u8; 4]; 4];
    let mut i: usize = 0;
    while i < 16
        invariant
            0 <= i <= 16,
            forall|k: int| 0 <= k < i ==> #[trigger] state[k / 4][k % 4] == or_shifted(text@.subrange(8 * k, 8 * k + 8), 8),
        decreases 16 - i,
    {
        let chunk = crate::utils::slices::take_bytes::<8>(text, 8 * i);
        let byte = bits_to_byte(chunk.as_slice());
        let col = i >> 2;
        let row = i % 4;
        assert(col == i / 4) by (bit_vector)
            requires
                col == i >> 2,
        ;
        let mut column = state[col];
        column[row] = byte;
        state[col] = column;
        i = i + 1;
    }
    assert(state_bytes(state) =~= pack_bits(text@));
    state
}

/// The 8 zero bytes.
pub open spec fn zero8() -> Seq<u8> {
    Seq::new(8, |i: int| 0u8)
}

/// Multiplication in F_{2^64}, as a closure.
pub open spec fn gf64_mul_fn() -> spec_fn(Seq<u8>, Seq<u8>) -> Seq<u8> {
    |a: Seq<u8>, b: Seq<u8>| gf64_mul_spec(a, b)
}

/// VOLEHash(sd, x0, x1): with sd = r0 || r1 || r2 || r3 || s || t and x0 padded with zeros
/// to 14 blocks of 16 bytes, h0 is the Horner evaluation of those blocks at s in F_{2^128},
/// h1 that of the 27 blocks of 8 bytes of x0 at t in F_{2^64}; the result is
/// (r0 h0 + r1 h1 || the first two bytes of r2 h0 + r3 h1) + x1.
pub open spec fn vole_hash_spec(sd: Seq<u8>, x0: Seq<u8>, x1: Seq<u8>) -> Seq<u8> {
    let y = x0 + zero8();
    let blocks128 = Seq::new(14, |i: int| y.subrange(16 * i, 16 * i + 16));
    let blocks64 = Seq::new(27, |i: int| x0.subrange(8 * i, 8 * i + 8));
    let s = sd.subrange(64, 80);
    let t = sd.subrange(80, 88);
    let h0 = horner(blocks128, s, 14, zero_field(), gf_mul_fn());
    let h1 = horner(blocks64, t, 27, zero8(), gf64_mul_fn());
    let h1p = h1 + zero8();
    let h2 = xor_seq(gf_lambda_mul_spec(sd.subrange(0, 16), h0), gf_lambda_mul_spec(sd.subrange(16, 32), h1p));
    let h3 = xor_seq(gf_lambda_mul_spec(sd.subrange(32, 48), h0), gf_lambda_mul_spec(sd.subrange(48, 64), h1p));
    xor_seq(h2 + h3.subrange(0, 2), x1)
}

/// VOLEHash: compresses ell + lambda bits and a mask of lambda + 16 bits into lambda + 16 bits.
pub fn vole_hash(sd: &[u8; chall1_bytes], x0: &[u8; x0_bytes], x1: &[u8; x1_bytes]) -> (h: [u8; x1_bytes])
    ensures
        h@ == vole_hash_spec(sd@, x0@, x1@),
{
    let r0 = crate::utils::slices::take_bytes::<16>(sd.as_slice(), 0);
    let r1 = crate::utils::slices::take_bytes::<16>(sd.as_slice(), 16);
    let r2 = crate::utils::slices::take_bytes::<16>(sd.as_slice(), 32);
    let r3 = crate::utils::slices::take_bytes::<16>(sd.as_slice(), 48);
    let s = crate::utils::slices::take_bytes::<16>(sd.as_slice(), 64);
    let t: [u8; 8] = crate::utils::slices::take_bytes::<8>(sd.as_slice(), 80);
    let ghost y = x0@ + zero8();
    let mut padded = [0u8; 224];
    let mut k: usize = 0;
    while k < 216
        invariant
            0 <= k <= 216,
            forall|j: int| 0 <= j < k ==> #[trigger] padded@[j] == x0@[j],
            forall|j: int| 216 <= j < 224 ==> #[trigger] padded@[j] == 0,
        decreases 216 - k,
    {
        padded[k] = x0[k];
        k = k + 1;
    }
    assert(padded@ =~= y);
    let ghost blocks128 = Seq::new(14, |i: int| y.subrange(16 * i, 16 * i + 16));
    let ghost blocks64 = Seq::new(27, |i: int| x0@.subrange(8 * i, 8 * i + 8));
    let mut h0 = [0u8; lambda_bytes];
    assert(h0@ =~= zero_field());
    let mut i: usize = 0;
    while i < 14
        invariant
            0 <= i <= 14,
            padded@ == y,
            blocks128 == Seq::new(14, |i: int| y.subrange(16 * i, 16 * i + 16)),
            h0@ == horner(blocks128, s@, i as int, zero_field(), gf_mul_fn()),
        decreases 14 - i,
    {
        let chunk = crate::utils::slices::take_bytes::<16>(padded.as_slice(), 16 * i);
        h0 = xor_arrays(&gf_lambda_mul(&h0, &s), &chunk);
        i = i + 1;
    }
    let mut h1 = [0u8; 8];
    assert(h1@ =~= zero8());
    let mut i: usize = 0;
    while i < 27
        invariant
            0 <= i <= 27,
            blocks64 == Seq::new(27, |i: int| x0@.subrange(8 * i, 8 * i + 8)),
            h1@ == horner(blocks64, t@, i as int, zero8(), gf64_mul_fn()),
        decreases 27 - i,
    {
        let chunk = crate::utils::slices::take_bytes::<8>(x0.as_slice(), 8 * i);
        h1 = gf64_add(&gf64_mul(&h1, &t), &chunk);
        i = i + 1;
    }
    let mut h1_prime = [0u8; lambda_bytes];
    let mut k: usize = 0;
    while k < 8
        invariant
            0 <= k <= 8,
            forall|j: int| 0 <= j < k ==> #[trigger] h1_prime@[j] == h1@[j],
            forall|j: int| 8 <= j < 16 ==> #[trigger] h1_prime@[j] == 0,
        decreases 8 - k,
    {
        h1_prime[k] = h1[k];
        k = k + 1;
    }
    assert(h1_prime@ =~= h1@ + zero8());
    let h2 = xor_arrays(&gf_lambda_mul(&r0, &h0), &gf_lambda_mul(&r1, &h1_prime));
    let h3 = xor_arrays(&gf_lambda_mul(&r2, &h0), &gf_lambda_mul(&r3, &h1_prime));
    let mut h = [0u8; x1_bytes];
    let mut k: usize = 0;
    while k < x1_bytes
        invariant
            0 <= k <= x1_bytes,
            forall|j: int| 0 <= j < k ==> #[trigger] h@[j] == (h2@ + h3@.subrange(0, 2))[j] ^ x1@[j],
        decreases x1_bytes - k,
    {
        let v = if k < 16 { h2[k] } else { h3[k - 16] };
        h[k] = v ^ x1[k];
        k = k + 1;
    }
    assert(h@ =~= xor_seq(h2@ + h3@.subrange(0, 2), x1@));
    h
}

/// The LAMBDA VOLE columns of all instances, in order.
pub open spec fn vole_columns(big_v: Seq<sized_array_for_q_v>) -> Seq<Seq<u8>> {
    Seq::new(LAMBDA as nat, |c: int| vole_column(big_v, c))
}

/// A matrix given by its columns, as rows of bits: row `t` holds bit `t` of every column.
pub open spec fn rows_of_columns(cols: Seq<Seq<u8>>) -> Seq<Seq<u8>> {
    Seq::new(ell_plus_lambda as nat, |t: int| Seq::new(LAMBDA as nat, |c: int| bits_of_bytes(cols[c])[t]))
}

/// Column `c` lies in instance `instance_of(c)`, at position `c - chall_offset(instance_of(c))`.
pub proof fn lemma_instance_of(c: int)
    requires
        0 <= c < LAMBDA,
    ensures
        0 <= instance_of(c) < tau,
        chall_offset(instance_of(c)) <= c < chall_offset(instance_of(c)) + instance_depth(instance_of(c)),
{
}

/// The columns of all instances, from the columns of each instance.
pub proof fn lemma_columns_of(big_v: Seq<sized_array_for_q_v>, f: spec_fn(int, int) -> Seq<u8>)
    requires
        big_v.len() == tau,
        forall|i: int| 0 <= i < tau ==> qv_variant_ok(#[trigger] big_v[i], i),
        forall|i: int, j: int| 0 <= i < tau && 0 <= j < instance_depth(i) ==> #[trigger] big_v[i].cols()[j]@ == f(i, j),
    ensures
        vole_columns(big_v) == Seq::new(LAMBDA as nat, |c: int| f(instance_of(c), c - chall_offset(instance_of(c)))),
{
    assert forall|c: int| 0 <= c < LAMBDA implies #[trigger] vole_column(big_v, c) == f(instance_of(c), c - chall_offset(instance_of(c))) by {
        lemma_instance_of(c);
    }
    assert(vole_columns(big_v) =~= Seq::new(LAMBDA as nat, |c: int| f(instance_of(c), c - chall_offset(instance_of(c)))));
}

/// VOLEHash of every column under the first challenge, each column split into its first
/// ell + lambda bits and its last lambda + 16 bits.
pub open spec fn column_hashes_spec(chall_1: Seq<u8>, cols: Seq<Seq<u8>>) -> Seq<Seq<u8>> {
    Seq::new(cols.len(), |c: int| vole_hash_spec(chall_1, cols[c].subrange(0, x0_bytes as int), cols[c].subrange(x0_bytes as int, ell_hat_bytes as int)))
}

/// VOLEHash of every VOLE column.
pub fn column_hashes(chall_1: &[u8; chall1_bytes], big_v: &[sized_array_for_q_v; tau]) -> (r: [[u8; x1_bytes]; LAMBDA])
    requires
        forall|i: int| 0 <= i < tau ==> qv_variant_ok(#[trigger] big_v@[i], i),
    ensures
        rows_view(r@) == column_hashes_spec(chall_1@, vole_columns(big_v@)),
{
    let mut v_tilde = [[0u8; x1_bytes]; LAMBDA];
    let mut index: usize = 0;
    let mut i: usize = 0;
    while i < tau
        invariant
            0 <= i <= tau,
            index == chall_offset(i as int),
            forall|t: int| 0 <= t < tau ==> qv_variant_ok(#[trigger] big_v@[t], t),
            forall|c: int| 0 <= c < index ==> (#[trigger] v_tilde@[c])@ == column_hashes_spec(chall_1@, vole_columns(big_v@))[c],
        decreases tau - i,
    {
        let k_b: usize = if i < tau_0 { k_0 } else { k_1 };
        let mut j: usize = 0;
        while j < k_b
            invariant
                0 <= i < tau,
                k_b == instance_depth(i as int),
                0 <= j <= k_b,
                index == chall_offset(i as int) + j,
                forall|t: int| 0 <= t < tau ==> qv_variant_ok(#[trigger] big_v@[t], t),
                forall|c: int| 0 <= c < index ==> (#[trigger] v_tilde@[c])@ == column_hashes_spec(chall_1@, vole_columns(big_v@))[c],
            decreases k_b - j,
        {
            let col: [u8; ell_hat_bytes] = *big_v[i].get(j);
            proof {
                assert(instance_of(index as int) == i);
                assert(col@ == vole_column(big_v@, index as int));
            }
            let x0_col: [u8; x0_bytes] = take_bytes::<x0_bytes>(col.as_slice(), 0);
            let x1_col: [u8; x1_bytes] = take_bytes::<x1_bytes>(col.as_slice(), x0_bytes);
            v_tilde[index] = vole_hash(chall_1, &x0_col, &x1_col);
            index = index + 1;
            j = j + 1;
        }
        i = i + 1;
    }
    assert(rows_view(v_tilde@) =~= column_hashes_spec(chall_1@, vole_columns(big_v@)));
    v_tilde
}

/// The column hashes, concatenated.
pub fn flatten_column_hashes(v_tilde: [[u8; x1_bytes]; LAMBDA]) -> (r: [u8; h_v_size])
    ensures
        r@ == concat_rows(v_tilde@),
{
    let r = flatten::<LAMBDA, x1_bytes, h_v_size>(v_tilde);
    proof {
        lemma_concat_rows_index(v_tilde@);
        assert forall|k: int| 0 <= k < h_v_size implies #[trigger] r@[k] == concat_rows(v_tilde@)[k] by {
            let i = k / 18;
            let j = k % 18;
            assert(k == i * 18 + j);
            assert(r@[i * 18 + j] == v_tilde@[i]@[j]);
        }
    }
    assert(r@ =~= concat_rows(v_tilde@));
    r
}

} // verus!
