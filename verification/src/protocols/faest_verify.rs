#![allow(non_snake_case, non_upper_case_globals)]

use vstd::prelude::*;
use crate::protocols::faest_prove_and_verify::{faest_aes_verify, verify_spec};
use crate::protocols::faest_sign::sign_mu;
use crate::protocols::fs_vole::{
    chall_bits, chall_dec_k0, chall_dec_k1, chall_offset, cop_variant_ok, instance_depth, lemma_chall_bits_are_bits, qv_variant_ok,
    rec_instance_hash, rec_instance_rows, vole_commit_hash, vole_v, FAEST_VOLE_reconstruct,
};
use crate::utils::constants::{chall1_bytes, chall2_bytes, chall3_bytes, ell_bytes, ell_hat_bytes, k_0, k_1, lambda_bytes_times_two, tau, tau_0, tau_minus_one, x1_bytes, LAMBDA};
use crate::utils::hash_functions::{bits_to_bytes_for_d, concat_rows, concat_seqs, h_1_for_2304, h_1_for_sign, h_2_1, h_2_2, h_2_3, pack_bits, rows_view};
use crate::utils::helper_methods_for_sign::{
    chall3_to_bits, column_hashes, column_hashes_spec, flatten_column_hashes, instance_of, lemma_columns_of, lemma_instance_of, rows_of_columns,
    vole_columns, vole_to_row_major,
};
use crate::utils::libcrux_proxy::shake128_spec;
use crate::utils::math::{arrays_equal, bits_of_bytes, xor_arrays, xor_seq};
use crate::utils::types::{sized_array_for_q_v, Pk, Signature};
use crate::utils::vector_commit::cop_view;

verus! {

/// The verifier's VOLE column `c`, rebuilt from the opening of its instance.
pub open spec fn rec_column(sig: Signature, c: int) -> Seq<u8> {
    let i = instance_of(c);
    vole_v(rec_instance_rows(cop_view(sig.4[i].0), sig.5@, sig.6@, i), (c - chall_offset(i)) as nat)
}

/// Column `c` corrected by c_{i-1} of its instance i >= 1 where the challenge bit of the column
/// is set.
pub open spec fn corrected_columns(cols: Seq<Seq<u8>>, c_bytes: Seq<[u8; ell_hat_bytes]>, chall_3: Seq<u8>) -> Seq<Seq<u8>> {
    Seq::new(
        LAMBDA as nat,
        |c: int|
            if instance_of(c) >= 1 && bits_of_bytes(chall_3)[c] == 1 {
                xor_seq(cols[c], c_bytes[instance_of(c) - 1]@)
            } else {
                cols[c]
            },
    )
}

/// The verifier's corrected VOLE columns Q.
pub open spec fn verifier_columns(sig: Signature) -> Seq<Seq<u8>> {
    corrected_columns(Seq::new(LAMBDA as nat, |c: int| rec_column(sig, c)), sig.0@, sig.5@)
}

/// The column hashes with u~ added where the challenge bit of the column is set.
pub open spec fn unmasked_hashes(hashes: Seq<Seq<u8>>, u_tilde: Seq<u8>, chall_3: Seq<u8>) -> Seq<Seq<u8>> {
    Seq::new(hashes.len(), |c: int| if bits_of_bytes(chall_3)[c] == 1 { xor_seq(hashes[c], u_tilde) } else { hashes[c] })
}

/// Whether `sig` is accepted for `msg` under `pk`: the third challenge recomputed from the
/// rebuilt commitments, the challenges and the proof equals the one in the signature.
pub open spec fn verify_ok(msg: Seq<u8>, pk: Pk, sig: Signature) -> bool {
    let mu = sign_mu(pk, msg);
    let iv = sig.6@;
    let chall_3 = sig.5@;
    let h_com = vole_commit_hash(Seq::new(tau as nat, |i: int| rec_instance_hash(cop_view(sig.4[i].0), sig.4[i].1@, chall_3, iv, i)));
    let chall_1 = shake128_spec(mu + h_com + concat_rows(sig.0@) + iv + seq![2u8], 88);
    let h_v = shake128_spec(concat_seqs(unmasked_hashes(column_hashes_spec(chall_1, verifier_columns(sig)), sig.1@, chall_3)) + seq![1u8], 32);
    let chall_2 = shake128_spec(chall_1 + sig.1@ + h_v + pack_bits(sig.2@) + seq![2u8], 56);
    let b_tilde = verify_spec(sig.2@, rows_of_columns(verifier_columns(sig)), chall_2, bits_of_bytes(chall_3), sig.3@, pk);
    chall_3 == shake128_spec(chall_2 + sig.3@ + b_tilde + seq![2u8], 16)
}

/// Adds c to the columns of one instance whose challenge bit is set.
fn correct_instance(inst: sized_array_for_q_v, bits: &[u8], c: &[u8; ell_hat_bytes]) -> (r: sized_array_for_q_v)
    requires
        bits@.len() == inst.cols().len(),
    ensures
        r is sized_array_1 <==> inst is sized_array_1,
        r.cols().len() == inst.cols().len(),
        forall|j: int| 0 <= j < inst.cols().len() ==> (#[trigger] r.cols()[j])@ == if bits@[j] == 1 {
            xor_seq(inst.cols()[j]@, c@)
        } else {
            inst.cols()[j]@
        },
{
    let mut q = inst;
    let n = q.len();
    let mut j: usize = 0;
    while j < n
        invariant
            0 <= j <= n,
            n == inst.cols().len(),
            bits@.len() == n,
            q is sized_array_1 <==> inst is sized_array_1,
            q.cols().len() == n,
            forall|t: int| 0 <= t < j ==> (#[trigger] q.cols()[t])@ == if bits@[t] == 1 {
                xor_seq(inst.cols()[t]@, c@)
            } else {
                inst.cols()[t]@
            },
            forall|t: int| j <= t < n ==> #[trigger] q.cols()[t] == inst.cols()[t],
        decreases n - j,
    {
        if bits[j] == 1 {
            let row: [u8; ell_hat_bytes] = *q.get(j);
            let corrected = xor_arrays(&row, c);
            q = q.set(j, corrected);
        }
        j = j + 1;
    }
    q
}

/// Corrects the rebuilt Q of every instance i >= 1 by c_{i-1} where the challenge bit is set.
fn correct_q(q_mark: [sized_array_for_q_v; tau], c_bytes: &[[u8; ell_hat_bytes]; tau_minus_one], chall_3: [u8; chall3_bytes]) -> (q: [sized_array_for_q_v; tau])
    requires
        forall|i: int| 0 <= i < tau ==> qv_variant_ok(#[trigger] q_mark@[i], i),
    ensures
        forall|i: int| 0 <= i < tau ==> qv_variant_ok(#[trigger] q@[i], i),
        forall|i: int, j: int| 0 <= i < tau && 0 <= j < instance_depth(i) ==> (#[trigger] q@[i].cols()[j])@ == if i >= 1
            && chall_bits(chall_3@, i)[j] == 1 {
            xor_seq(q_mark@[i].cols()[j]@, c_bytes@[i - 1]@)
        } else {
            q_mark@[i].cols()[j]@
        },
{
    let mut q_corrected = q_mark;
    let mut i: usize = 1;
    while i < tau
        invariant
            1 <= i <= tau,
            forall|t: int| 0 <= t < tau ==> qv_variant_ok(#[trigger] q_corrected@[t], t),
            forall|t: int, j: int| 0 <= t < tau && 0 <= j < instance_depth(t) ==> (#[trigger] q_corrected@[t].cols()[j])@ == if 1 <= t < i
                && chall_bits(chall_3@, t)[j] == 1 {
                xor_seq(q_mark@[t].cols()[j]@, c_bytes@[t - 1]@)
            } else {
                q_mark@[t].cols()[j]@
            },
        decreases tau - i,
    {
        let ghost before = q_corrected@;
        if i < tau_0 {
            let delta_bits: [u8; k_0] = chall_dec_k0(chall_3, i);
            let inst = correct_instance(q_corrected[i], delta_bits.as_slice(), &c_bytes[i - 1]);
            q_corrected[i] = inst;
        } else {
            let delta_bits: [u8; k_1] = chall_dec_k1(chall_3, i);
            let inst = correct_instance(q_corrected[i], delta_bits.as_slice(), &c_bytes[i - 1]);
            q_corrected[i] = inst;
        }
        proof {
            assert forall|t: int, j: int| 0 <= t < tau && 0 <= j < instance_depth(t) implies (#[trigger] q_corrected@[t].cols()[j])@ == if 1 <= t
                < i + 1 && chall_bits(chall_3@, t)[j] == 1 {
                xor_seq(q_mark@[t].cols()[j]@, c_bytes@[t - 1]@)
            } else {
                q_mark@[t].cols()[j]@
            } by {
                if t != i {
                    assert(q_corrected@[t] == before[t]);
                }
            }
        }
        i = i + 1;
    }
    q_corrected
}

/// Adds u~ to the column hashes whose challenge bit is set.
fn unmask_hashes(q_e_columns: [[u8; x1_bytes]; LAMBDA], u_tilde: &[u8; x1_bytes], chall_3: [u8; chall3_bytes]) -> (r: [[u8; x1_bytes]; LAMBDA])
    ensures
        rows_view(r@) == unmasked_hashes(rows_view(q_e_columns@), u_tilde@, chall_3@),
{
    let mut q_e_xored = q_e_columns;
    let mut col_idx: usize = 0;
    let mut i: usize = 0;
    while i < tau
        invariant
            0 <= i <= tau,
            col_idx == chall_offset(i as int),
            forall|c: int| 0 <= c < col_idx ==> (#[trigger] q_e_xored@[c])@ == unmasked_hashes(rows_view(q_e_columns@), u_tilde@, chall_3@)[c],
            forall|c: int| col_idx <= c < LAMBDA ==> #[trigger] q_e_xored@[c] == q_e_columns@[c],
        decreases tau - i,
    {
        proof {
            lemma_chall_bits_are_bits(chall_3@, i as int);
        }
        let k_b: usize = if i < tau_0 { k_0 } else { k_1 };
        let mut delta_bits: [u8; k_0] = [0u8; k_0];
        if i < tau_0 {
            delta_bits = chall_dec_k0(chall_3, i);
        } else {
            let b1: [u8; k_1] = chall_dec_k1(chall_3, i);
            let mut t: usize = 0;
            while t < k_1
                invariant
                    0 <= t <= k_1,
                    forall|s: int| 0 <= s < t ==> delta_bits@[s] == b1@[s],
                decreases k_1 - t,
            {
                delta_bits[t] = b1[t];
                t = t + 1;
            }
        }
        let mut j: usize = 0;
        while j < k_b
            invariant
                0 <= i < tau,
                k_b == instance_depth(i as int),
                0 <= j <= k_b,
                col_idx == chall_offset(i as int) + j,
                forall|s: int| 0 <= s < k_b ==> delta_bits@[s] == chall_bits(chall_3@, i as int)[s],
                forall|c: int| 0 <= c < col_idx ==> (#[trigger] q_e_xored@[c])@ == unmasked_hashes(rows_view(q_e_columns@), u_tilde@, chall_3@)[c],
                forall|c: int| col_idx <= c < LAMBDA ==> #[trigger] q_e_xored@[c] == q_e_columns@[c],
            decreases k_b - j,
        {
            assert(delta_bits@[j as int] == bits_of_bytes(chall_3@)[col_idx as int]);
            if delta_bits[j] == 1 {
                let x = xor_arrays(&q_e_xored[col_idx], u_tilde);
                q_e_xored[col_idx] = x;
            }
            col_idx = col_idx + 1;
            j = j + 1;
        }
        i = i + 1;
    }
    assert(rows_view(q_e_xored@) =~= unmasked_hashes(rows_view(q_e_columns@), u_tilde@, chall_3@));
    q_e_xored
}

/// Verifies the signature `sig` of `msg` under `pk`: rebuilds the VOLE commitment from the
/// openings, recomputes the challenges and the proof check, and compares the third challenge.
pub fn faest_verify(msg: &[u8], pk: &Pk, sig: &Signature) -> (ok: bool)
    requires
        msg@.len() < usize::MAX - 16 * 2 - 1,
        forall|i: int| 0 <= i < tau ==> cop_variant_ok(#[trigger] sig.4[i].0, i),
    ensures
        ok == verify_ok(msg@, *pk, *sig),
{
    let c_bytes = &sig.0;
    let u_tilde = &sig.1;
    let d = &sig.2;
    let a_tilde = &sig.3;
    let pdcoms = &sig.4;
    let chall_3 = &sig.5;
    let iv = &sig.6;
    let my: [u8; lambda_bytes_times_two] = h_1_for_sign(pk[0], msg);
    let (h_com, q_mark) = FAEST_VOLE_reconstruct(*chall_3, pdcoms, *iv);
    let chall_1: [u8; chall1_bytes] = h_2_1(my, h_com, c_bytes, *iv);
    let q_corrected = correct_q(q_mark, c_bytes, *chall_3);
    proof {
        lemma_columns_of(
            q_corrected@,
            |i: int, j: int|
                if i >= 1 && chall_bits(sig.5@, i)[j] == 1 {
                    xor_seq(vole_v(rec_instance_rows(cop_view(sig.4[i].0), sig.5@, sig.6@, i), j as nat), sig.0@[i - 1]@)
                } else {
                    vole_v(rec_instance_rows(cop_view(sig.4[i].0), sig.5@, sig.6@, i), j as nat)
                },
        );
        assert forall|c: int| 0 <= c < LAMBDA implies #[trigger] vole_columns(q_corrected@)[c] == verifier_columns(*sig)[c] by {
            lemma_instance_of(c);
            let i = instance_of(c);
            assert(chall_bits(sig.5@, i)[c - chall_offset(i)] == bits_of_bytes(sig.5@)[c]);
        }
        assert(vole_columns(q_corrected@) =~= verifier_columns(*sig));
    }
    let q_e_columns = column_hashes(&chall_1, &q_corrected);
    let q_e_xored = unmask_hashes(q_e_columns, u_tilde, *chall_3);
    let q_e_flat = flatten_column_hashes(q_e_xored);
    let h_v: [u8; lambda_bytes_times_two] = h_1_for_2304(&q_e_flat);
    let d_bytes: [u8; ell_bytes] = bits_to_bytes_for_d(d);
    let chall_2: [u8; chall2_bytes] = h_2_2(chall_1, *u_tilde, h_v, d_bytes);
    let q_rows = vole_to_row_major(q_corrected);
    let b_tilde = faest_aes_verify(*d, q_rows, chall_2, chall3_to_bits(chall_3), *a_tilde, *pk);
    let chall_3_mark: [u8; chall3_bytes] = h_2_3(chall_2, *a_tilde, b_tilde);
    arrays_equal(chall_3, &chall_3_mark)
}

} // verus!
