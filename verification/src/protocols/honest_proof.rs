#![allow(non_snake_case, non_upper_case_globals)]

use vstd::prelude::*;
use vstd::array::{spec_array_fill_for_copy_type, spec_array_update};
use crate::protocols::constraint_laws::lemma_constraint_value_lens;
use crate::protocols::faest_prove_and_verify::{
    alpha_comb, alpha_x, bit_field, corrected_rows, enc_block, fields_of_rows, prove_a0, prove_a1, prove_spec, row_field, row_field_arr, tail_comb,
    u_star_spec, verify_b, verify_spec,
};
use crate::protocols::faest_sign::{prover_columns, sign_ok, witness_bits};
use crate::protocols::faest_verify::{verifier_columns, verify_ok};
use crate::protocols::honest_transcript::{
    authenticated_bits, lemma_corrected_rows, lemma_honest_transcript, lemma_prover_column_len, leaf_zero_seeds_nonzero, sign_iv, sign_root_key,
    signer_b_tilde, signer_chall_2, verifier_b_tilde, verifier_chall_2,
};
use crate::utils::constants::{ell, ell_hat_bytes, ell_plus_lambda, l_enc, l_ke, s_enc, LAMBDA, S_ke};
use crate::utils::gf_assoc::{lemma_zero_bits, unit_bits};
use crate::utils::galois_field::{gf_lambda_mul_spec, gf_one};
use crate::utils::gf_laws::{lemma_bit_xor, lemma_bytes_of_xor, lemma_gf128_mul_comm, lemma_gf128_mul_distrib, lemma_gf128_mul_one, lemma_gf128_mul_zero, lemma_one_bits, zero_bytes};
use crate::utils::hash_functions::rows_view;
use crate::utils::hash_laws::{lemma_xor_seq_swap, lemma_zk_hash_check, scale_blocks, xor_blocks};
use crate::utils::helper_methods_prove_verify::{zero_field, zk_hash_spec};
use crate::utils::math::{field_pow_acc, field_pow_spec, lemma_xor_assoc};
use crate::utils::helper_methods_for_sign::rows_of_columns;
use crate::utils::helper_methods_prove_verify::field_bits;
use crate::utils::math::{bits_of_bytes, bytes_of_bits, is_bit_seq, lemma_bits_bytes_inverse, xor_seq};
use crate::utils::types::{lemma_xor16, xor16, Pk, Signature};
use crate::protocols::constraint_correlation::{exp_sboxes_hold, lemma_exp_correlation, lemma_key_exp_fwd_related, lemma_xor16_view, lemma_xs, related};
use crate::protocols::enc_correlation::{elems_related, enc_sboxes_hold, lemma_enc_correlation};
use crate::protocols::faest_key_exp_cstrnts::key_exp_fwd_spec;

verus! {

/// An array of 16 bytes whose first `n` bytes are those of `s`.
spec fn array_of(s: Seq<u8>, n: int) -> [u8; 16]
    decreases n,
{
    if n <= 0 {
        spec_array_fill_for_copy_type::<u8, 16>(0u8)
    } else {
        spec_array_update(array_of(s, n - 1), n - 1, s[n - 1])
    }
}

proof fn lemma_array_of(s: Seq<u8>, n: int)
    requires
        0 <= n <= 16,
        s.len() == 16,
    ensures
        forall|i: int| 0 <= i < n ==> #[trigger] array_of(s, n)@[i] == s[i],
        array_of(s, n)@.len() == 16,
    decreases n,
{
    broadcast use vstd::array::axiom_spec_array_update, vstd::array::axiom_spec_array_fill_for_copy_type;
    if n > 0 {
        lemma_array_of(s, n - 1);
    } else {
        assert(spec_array_fill_for_copy_type::<u8, 16>(0u8)@.len() == 16);
    }
}

/// A row of 128 bits read as a field element: the bytes of its bits.
proof fn lemma_row_field(row: Seq<u8>)
    requires
        row.len() == LAMBDA,
        is_bit_seq(row),
    ensures
        row_field(row) == bytes_of_bits(row),
        row_field_arr(row)@ == bytes_of_bits(row),
        bytes_of_bits(row).len() == 16,
{
    assert(field_bits(row, 0, LAMBDA as int) =~= row);
    let rf = bytes_of_bits(row);
    lemma_array_of(rf, 16);
    assert(array_of(rf, 16)@ =~= rf);
}

/// The rows of a matrix given by its columns are bit strings.
proof fn lemma_rows_are_bits(cols: Seq<Seq<u8>>, t: int)
    requires
        0 <= t < ell_plus_lambda,
        forall|c: int| 0 <= c < LAMBDA ==> (#[trigger] cols[c]).len() == ell_hat_bytes,
    ensures
        rows_of_columns(cols)[t].len() == LAMBDA,
        is_bit_seq(rows_of_columns(cols)[t]),
{
    let row = rows_of_columns(cols)[t];
    assert forall|c: int| 0 <= c < LAMBDA implies #[trigger] row[c] <= 1 by {
        assert(cols[c].len() == ell_hat_bytes);
        crate::utils::math::lemma_flip_bit_of_byte(cols[c][t / 8], 0, (t % 8) as u8);
    }
}

/// For an honest signature, the verifier's field element of row t (corrected by d) is the
/// signer's field element of row t, plus Delta where the authenticated bit of the row is 1.
proof fn lemma_verifier_fields(msg: Seq<u8>, sk: Seq<u8>, pk: Pk, rho: Seq<u8>, sig: crate::utils::types::Signature, t: int)
    requires
        sign_ok(msg, sk, pk, rho, sig),
        leaf_zero_seeds_nonzero(sign_root_key(msg, sk, pk, rho), sign_iv(msg, sk, pk, rho)),
        sk.len() == 16,
        0 <= t < ell_plus_lambda,
    ensures
        ({
            let r = sign_root_key(msg, sk, pk, rho);
            let iv = sign_iv(msg, sk, pk, rho);
            let v = fields_of_rows(rows_of_columns(prover_columns(r, iv)));
            let q = fields_of_rows(corrected_rows(rows_of_columns(verifier_columns(sig)), sig.2@, bits_of_bytes(sig.5@)));
            &&& q[t]@ == if authenticated_bits(sk, pk, r, iv)[t] == 1 { xor_seq(v[t]@, sig.5@) } else { v[t]@ }
            &&& v[t]@.len() == 16
        }),
{
    let r = sign_root_key(msg, sk, pk, rho);
    let iv = sign_iv(msg, sk, pk, rho);
    let cols = prover_columns(r, iv);
    let vr = rows_of_columns(cols);
    let delta = bits_of_bytes(sig.5@);
    lemma_corrected_rows(msg, sk, pk, rho, sig, t);
    assert forall|c: int| 0 <= c < LAMBDA implies (#[trigger] cols[c]).len() == ell_hat_bytes by {
        lemma_prover_column_len(r, iv, c);
    }
    lemma_rows_are_bits(cols, t);
    lemma_field_of_corrected(vr[t], sig.5@, authenticated_bits(sk, pk, r, iv)[t]);
}

/// The field element of a bit row, plus Delta (given by its bits) or not.
proof fn lemma_field_of_corrected(row: Seq<u8>, d: Seq<u8>, e: u8)
    requires
        row.len() == LAMBDA,
        is_bit_seq(row),
        d.len() == 16,
    ensures
        row_field_arr(if e == 1 { xor_seq(row, bits_of_bytes(d)) } else { row })@ == if e == 1 {
            xor_seq(row_field_arr(row)@, d)
        } else {
            row_field_arr(row)@
        },
        row_field_arr(row)@.len() == 16,
{
    lemma_row_field(row);
    lemma_bits_bytes_inverse(d, Seq::empty());
    if e == 1 {
        let delta = bits_of_bytes(d);
        let x = xor_seq(row, delta);
        assert forall|c: int| 0 <= c < LAMBDA implies #[trigger] x[c] <= 1 by {
            lemma_bit_xor(row[c], delta[c]);
        }
        lemma_row_field(x);
        lemma_bytes_of_xor(row, delta);
    }
}

/// Powers computed by square-and-multiply are field elements of 16 bytes.
proof fn lemma_field_pow_acc_len(r: Seq<u8>, b: Seq<u8>, e: nat)
    requires
        r.len() == 16,
        b.len() == 16,
    ensures
        field_pow_acc(r, b, e).len() == 16,
    decreases e,
{
    if e > 0 {
        lemma_gf128_mul_distrib(r, r, b);
        lemma_gf128_mul_distrib(b, b, b);
        let r2 = if e % 2 == 1 { crate::utils::galois_field::gf128_mul_spec(r, b) } else { r };
        lemma_field_pow_acc_len(r2, crate::utils::galois_field::gf128_mul_spec(b, b), e / 2);
    }
}

/// The powers of alpha are field elements of 16 bytes.
proof fn lemma_alpha_pow_len(i: nat)
    ensures
        field_pow_spec(alpha_x(), i).len() == 16,
{
    lemma_field_pow_acc_len(gf_one(), alpha_x(), i);
}

/// The weighted sum over alpha^i is linear.
proof fn lemma_alpha_comb_linear(xs: Seq<Seq<u8>>, ys: Seq<Seq<u8>>, n: int)
    requires
        0 <= n <= xs.len(),
        xs.len() == ys.len(),
        forall|i: int| 0 <= i < xs.len() ==> (#[trigger] xs[i]).len() == 16 && ys[i].len() == 16,
    ensures
        alpha_comb(xor_blocks(xs, ys), n) == xor_seq(alpha_comb(xs, n), alpha_comb(ys, n)),
        alpha_comb(xs, n).len() == 16,
        alpha_comb(ys, n).len() == 16,
    decreases n,
{
    if n == 0 {
        assert forall|i: int| 0 <= i < 16 implies #[trigger] xor_seq(zero_field(), zero_field())[i] == zero_field()[i] by {
            lemma_xor_assoc(0, 0, 0);
        }
        assert(xor_seq(zero_field(), zero_field()) =~= zero_field());
    } else {
        lemma_alpha_comb_linear(xs, ys, n - 1);
        let p = field_pow_spec(alpha_x(), (n - 1) as nat);
        lemma_alpha_pow_len((n - 1) as nat);
        assert(xs[n - 1].len() == 16 && ys[n - 1].len() == 16);
        assert(xor_blocks(xs, ys)[n - 1] == xor_seq(xs[n - 1], ys[n - 1]));
        lemma_gf128_mul_distrib(xs[n - 1], ys[n - 1], p);
        lemma_gf128_mul_distrib(ys[n - 1], xs[n - 1], p);
        lemma_xor_seq_swap(alpha_comb(xs, n - 1), alpha_comb(ys, n - 1), gf_lambda_mul_spec(xs[n - 1], p), gf_lambda_mul_spec(ys[n - 1], p));
    }
}

/// The bytes of the bit string with only bit 0 set are the field element one.
proof fn lemma_one_bytes()
    ensures
        bytes_of_bits(unit_bits(0)) == gf_one(),
{
    lemma_one_bits();
    assert(bits_of_bytes(gf_one()) =~= unit_bits(0));
    lemma_bits_bytes_inverse(gf_one(), Seq::empty());
}

/// A bit read as a field element: one or zero.
proof fn lemma_bit_field(b: u8)
    requires
        b <= 1,
    ensures
        bit_field(b) == if b == 1 { gf_one() } else { zero_bytes(16) },
{
    if b == 1 {
        assert(field_bits(seq![b], 0, 1) =~= unit_bits(0));
        lemma_one_bytes();
    } else {
        assert(field_bits(seq![b], 0, 1) =~= Seq::new(128, |k: int| 0u8));
        lemma_zero_bits();
    }
}

/// The weighted sum of Delta times bits is Delta times the weighted sum of the bits.
proof fn lemma_alpha_comb_bits(bs: Seq<u8>, d: Seq<u8>, n: int)
    requires
        0 <= n <= bs.len(),
        is_bit_seq(bs),
        d.len() == 16,
    ensures
        alpha_comb(Seq::new(bs.len(), |i: int| if bs[i] == 1 { d } else { zero_bytes(16) }), n)
            == gf_lambda_mul_spec(d, alpha_comb(Seq::new(bs.len(), |i: int| bit_field(bs[i])), n)),
        alpha_comb(Seq::new(bs.len(), |i: int| bit_field(bs[i])), n).len() == 16,
    decreases n,
{
    let ys = Seq::new(bs.len(), |i: int| if bs[i] == 1 { d } else { zero_bytes(16) });
    let fs = Seq::new(bs.len(), |i: int| bit_field(bs[i]));
    if n == 0 {
        assert(zero_field() =~= zero_bytes(16));
        lemma_gf128_mul_zero(d);
    } else {
        lemma_alpha_comb_bits(bs, d, n - 1);
        let p = field_pow_spec(alpha_x(), (n - 1) as nat);
        lemma_alpha_pow_len((n - 1) as nat);
        lemma_bit_field(bs[n - 1]);
        let f = fs[n - 1];
        lemma_gf128_mul_comm(f, p);
        lemma_gf128_mul_comm(ys[n - 1], p);
        lemma_gf128_mul_one(p);
        lemma_gf128_mul_zero(p);
        lemma_gf128_mul_zero(d);
        lemma_gf128_mul_distrib(f, f, p);
        lemma_gf128_mul_distrib(alpha_comb(fs, n - 1), gf_lambda_mul_spec(f, p), d);
        assert(gf_one().len() == 16);
    }
}

/// The masks of the check: where the verifier's last lambda field elements are the signer's
/// plus Delta times the bits of u, q* = v* + Delta u*.
proof fn lemma_mask(v: Seq<[u8; 16]>, q: Seq<[u8; 16]>, u: Seq<u8>, d: Seq<u8>)
    requires
        v.len() == ell_plus_lambda,
        q.len() == ell_plus_lambda,
        u.len() == ell_plus_lambda,
        is_bit_seq(u),
        d.len() == 16,
        forall|t: int| ell <= t < ell_plus_lambda ==> (#[trigger] q[t])@ == if u[t] == 1 { xor_seq(v[t]@, d) } else { v[t]@ },
        forall|t: int| ell <= t < ell_plus_lambda ==> (#[trigger] v[t])@.len() == 16,
    ensures
        tail_comb(q) == xor_seq(tail_comb(v), gf_lambda_mul_spec(d, u_star_spec(u))),
{
    let x = rows_view(v.subrange(ell as int, ell_plus_lambda as int));
    let bs = Seq::new(LAMBDA as nat, |i: int| u[ell + i]);
    let y = Seq::new(bs.len(), |i: int| if bs[i] == 1 { d } else { zero_bytes(16) });
    let fs = Seq::new(bs.len(), |i: int| bit_field(bs[i]));
    assert forall|i: int| 0 <= i < LAMBDA implies #[trigger] rows_view(q.subrange(ell as int, ell_plus_lambda as int))[i] == xor_blocks(x, y)[i] by {
        let t = ell + i;
        assert(v[t]@.len() == 16);
        assert(q[t]@ == if u[t] == 1 { xor_seq(v[t]@, d) } else { v[t]@ });
        if u[t] != 1 {
            assert forall|k: int| 0 <= k < 16 implies #[trigger] xor_seq(v[t]@, zero_bytes(16))[k] == v[t]@[k] by {
                lemma_xor_assoc(v[t]@[k], 0, 0);
            }
            assert(xor_seq(v[t]@, zero_bytes(16)) =~= v[t]@);
        }
    }
    assert(rows_view(q.subrange(ell as int, ell_plus_lambda as int)) =~= xor_blocks(x, y));
    assert forall|i: int| 0 <= i < x.len() implies (#[trigger] x[i]).len() == 16 && y[i].len() == 16 by {
        assert(v[ell + i]@.len() == 16);
    }
    lemma_alpha_comb_linear(x, y, LAMBDA as int);
    assert forall|i: int| 0 <= i < bs.len() implies #[trigger] bs[i] <= 1 by {
        assert(u[ell + i] <= 1);
    }
    lemma_alpha_comb_bits(bs, d, LAMBDA as int);
    assert(Seq::new(LAMBDA as nat, |i: int| bit_field(u[ell + i])) =~= fs);
}

/// The tags v with Delta added to entry t < ell where witness bit t is 1: the keys that the
/// VOLE correlation hands the verifier for the witness w.
pub open spec fn correlated(v: Seq<[u8; 16]>, w: Seq<u8>, delta: [u8; 16]) -> Seq<[u8; 16]> {
    Seq::new(v.len(), |t: int| if t < ell && w[t] == 1 { xor16(v[t], delta) } else { v[t] })
}

/// The witness w satisfies the constraint system of pk: for all tags v and every Delta, the
/// verifier's constraint values on the keys of w are A_0 + Delta A_1.
pub open spec fn constraints_hold(w: Seq<u8>, pk: Pk) -> bool {
    forall|v: Seq<[u8; 16]>, delta: [u8; 16]|
        v.len() == ell_plus_lambda ==> #[trigger] verify_b(correlated(v, w, delta), delta, pk) == xor_blocks(
            prove_a0(w, v, pk),
            scale_blocks(delta@, prove_a1(w, v, pk)),
        )
}

/// The witness w satisfies each S-box constraint: those of the key schedule, and those of the
/// encryption of the public key's plaintext to its ciphertext under the expanded key.
pub open spec fn witness_sboxes_hold(w: Seq<u8>, pk: Pk) -> bool {
    let w_ke = w.subrange(0, l_ke as int);
    &&& exp_sboxes_hold(w_ke)
    &&& enc_sboxes_hold(enc_block(w, 0), key_exp_fwd_spec(w_ke), pk[0].0@, pk[0].1@)
}

/// The keys of a witness of bits are its tags plus its bits times Delta.
proof fn lemma_correlated_related(v: Seq<[u8; 16]>, w: Seq<u8>, delta: [u8; 16])
    requires
        v.len() == ell_plus_lambda,
        w.len() == ell,
        is_bit_seq(w),
    ensures
        forall|i: int| 0 <= i < ell ==> #[trigger] related(correlated(v, w, delta)[i], v[i], w[i], delta@),
{
    assert forall|i: int| 0 <= i < ell implies #[trigger] related(correlated(v, w, delta)[i], v[i], w[i], delta@) by {
        assert(w[i] <= 1);
        if w[i] == 1 {
            lemma_xor16_view(v[i], delta);
        } else {
            lemma_xs(v[i]@, v[i]@, v[i]@);
        }
    }
}

/// On the keys of a witness of bits that satisfies each S-box constraint, the verifier's
/// constraint values are A_0 + Delta A_1.
proof fn lemma_constraints_for(w: Seq<u8>, v: Seq<[u8; 16]>, delta: [u8; 16], pk: Pk)
    requires
        v.len() == ell_plus_lambda,
        w.len() == ell,
        is_bit_seq(w),
        witness_sboxes_hold(w, pk),
    ensures
        verify_b(correlated(v, w, delta), delta, pk) == xor_blocks(prove_a0(w, v, pk), scale_blocks(delta@, prove_a1(w, v, pk))),
{
    let q = correlated(v, w, delta);
    let d = delta@;
    lemma_correlated_related(v, w, delta);
    let (w_ke, v_ke, q_ke) = (w.subrange(0, l_ke as int), v.subrange(0, l_ke as int), q.subrange(0, l_ke as int));
    assert forall|i: int| 0 <= i < l_ke implies #[trigger] related(q_ke[i], v_ke[i], w_ke[i], d) by {
        assert(related(q[i], v[i], w[i], d));
    }
    lemma_exp_correlation(w_ke, v_ke, q_ke, delta);
    let (k, vk, qk) = (key_exp_fwd_spec(w_ke), key_exp_fwd_spec(v_ke), key_exp_fwd_spec(q_ke));
    lemma_key_exp_fwd_related(q_ke, v_ke, w_ke, d);
    let (we, ve, qe) = (enc_block(w, 0), enc_block(v, 0), enc_block(q, 0));
    assert forall|i: int| 0 <= i < l_enc implies #[trigger] related(qe[i], ve[i], we[i], d) by {
        assert(related(q[l_ke + i], v[l_ke + i], w[l_ke + i], d));
    }
    assert(elems_related(qe, ve, we, d));
    assert(elems_related(qk, vk, k, d));
    lemma_enc_correlation(we, ve, qe, k, vk, qk, delta, pk[0].0@, pk[0].1@);
    let a = verify_b(q, delta, pk);
    let b = xor_blocks(prove_a0(w, v, pk), scale_blocks(d, prove_a1(w, v, pk)));
    assert forall|t: int| 0 <= t < a.len() implies #[trigger] a[t] == b[t] by {
        if t >= S_ke {
            let u = t - S_ke;
            assert(u / s_enc as int == 0);
            assert(u % s_enc as int == u);
        }
    }
    assert(a =~= b);
}

/// A witness of bits that satisfies each S-box constraint satisfies the constraint system: for
/// all tags v and every Delta, on the keys v + w Delta the verifier's constraint values are
/// A_0 + Delta A_1.
pub proof fn lemma_constraints_hold(w: Seq<u8>, pk: Pk)
    requires
        w.len() == ell,
        is_bit_seq(w),
        witness_sboxes_hold(w, pk),
    ensures
        constraints_hold(w, pk),
{
    assert forall|v: Seq<[u8; 16]>, delta: [u8; 16]| v.len() == ell_plus_lambda implies #[trigger] verify_b(correlated(v, w, delta), delta, pk)
        == xor_blocks(prove_a0(w, v, pk), scale_blocks(delta@, prove_a1(w, v, pk))) by {
        lemma_constraints_for(w, v, delta, pk);
    }
}

/// The verifier's constraint values read the first ell keys only.
proof fn lemma_verify_b_prefix(q1: Seq<[u8; 16]>, q2: Seq<[u8; 16]>, delta: [u8; 16], pk: Pk)
    requires
        q1.len() >= ell,
        q2.len() >= ell,
        q1.subrange(0, ell as int) == q2.subrange(0, ell as int),
    ensures
        verify_b(q1, delta, pk) == verify_b(q2, delta, pk),
{
    assert(q1.subrange(0, l_ke as int) =~= q2.subrange(0, l_ke as int)) by {
        assert forall|i: int| 0 <= i < l_ke implies #[trigger] q1[i] == q2[i] by {
            assert(q1.subrange(0, ell as int)[i] == q2.subrange(0, ell as int)[i]);
        }
    }
    assert(enc_block(q1, 0) =~= enc_block(q2, 0)) by {
        assert forall|i: int| 0 <= i < l_enc implies #[trigger] enc_block(q1, 0)[i] == enc_block(q2, 0)[i] by {
            assert(q1.subrange(0, ell as int)[l_ke + i] == q2.subrange(0, ell as int)[l_ke + i]);
        }
    }
    let a = verify_b(q1, delta, pk);
    let b = verify_b(q2, delta, pk);
    assert forall|t: int| 0 <= t < a.len() implies #[trigger] a[t] == b[t] by {
        if t >= crate::utils::constants::S_ke {
            let u = t - crate::utils::constants::S_ke;
            assert(u / s_enc as int == 0);
        }
    }
    assert(a =~= b);
}

/// For an honest signature the verifier's keys agree, below ell, with the signer's tags
/// correlated by the witness, and its Delta is the third challenge.
proof fn lemma_verifier_keys(msg: Seq<u8>, sk: Seq<u8>, pk: Pk, rho: Seq<u8>, sig: Signature)
    requires
        sign_ok(msg, sk, pk, rho, sig),
        leaf_zero_seeds_nonzero(sign_root_key(msg, sk, pk, rho), sign_iv(msg, sk, pk, rho)),
        sk.len() == 16,
    ensures
        ({
            let r = sign_root_key(msg, sk, pk, rho);
            let iv = sign_iv(msg, sk, pk, rho);
            let v = fields_of_rows(rows_of_columns(prover_columns(r, iv)));
            let dbits = bits_of_bytes(sig.5@);
            let q = fields_of_rows(corrected_rows(rows_of_columns(verifier_columns(sig)), sig.2@, dbits));
            &&& row_field_arr(dbits) == sig.5
            &&& verify_b(q, sig.5, pk) == verify_b(correlated(v, witness_bits(sk, pk), sig.5), sig.5, pk)
            &&& tail_comb(q) == xor_seq(tail_comb(v), gf_lambda_mul_spec(sig.5@, u_star_spec(bits_of_bytes(crate::protocols::fs_vole::instance_u(r, iv, 0)).subrange(0, ell_plus_lambda as int))))
            &&& v.len() == ell_plus_lambda
        }),
{
    let r = sign_root_key(msg, sk, pk, rho);
    let iv = sign_iv(msg, sk, pk, rho);
    let u0 = crate::protocols::fs_vole::instance_u(r, iv, 0);
    let v = fields_of_rows(rows_of_columns(prover_columns(r, iv)));
    let dbits = bits_of_bytes(sig.5@);
    let q = fields_of_rows(corrected_rows(rows_of_columns(verifier_columns(sig)), sig.2@, dbits));
    let w = witness_bits(sk, pk);
    let e = authenticated_bits(sk, pk, r, iv);
    lemma_bits_bytes_inverse(sig.5@, Seq::empty());
    lemma_row_field(dbits);
    assert(row_field_arr(dbits) =~= sig.5);
    assert forall|t: int| 0 <= t < ell_plus_lambda implies #[trigger] q[t]@ == (if e[t] == 1 { xor_seq(v[t]@, sig.5@) } else { v[t]@ }) && v[t]@.len() == 16 by {
        lemma_verifier_fields(msg, sk, pk, rho, sig, t);
    }
    let corr = correlated(v, w, sig.5);
    assert forall|t: int| 0 <= t < ell implies q[t] == #[trigger] corr[t] by {
        assert(q[t]@ == (if e[t] == 1 { xor_seq(v[t]@, sig.5@) } else { v[t]@ }));
        assert(e[t] == w[t]);
        if w[t] == 1 {
            lemma_xor16(v[t], sig.5, q[t]);
        }
    }
    assert(q.subrange(0, ell as int) =~= corr.subrange(0, ell as int));
    lemma_verify_b_prefix(q, corr, sig.5, pk);
    let ubits = bits_of_bytes(u0).subrange(0, ell_plus_lambda as int);
    lemma_bits_bytes_inverse(u0, Seq::empty());
    let one: int = 1;
    assert(sig.0@[one - 1]@ == xor_seq(u0, crate::protocols::fs_vole::instance_u(r, iv, one)));
    assert forall|t: int| 0 <= t < ell_plus_lambda implies #[trigger] ubits[t] <= 1 by {}
    assert forall|t: int| ell <= t < ell_plus_lambda implies (#[trigger] q[t])@ == if ubits[t] == 1 { xor_seq(v[t]@, sig.5@) } else { v[t]@ } by {
        assert(q[t]@ == (if e[t] == 1 { xor_seq(v[t]@, sig.5@) } else { v[t]@ }));
    }
    assert forall|t: int| ell <= t < ell_plus_lambda implies (#[trigger] v[t])@.len() == 16 by {
        assert(q[t]@ == (if e[t] == 1 { xor_seq(v[t]@, sig.5@) } else { v[t]@ }) && v[t]@.len() == 16);
    }
    lemma_mask(v, q, ubits, sig.5@);
}

/// The verifier's b~, written out.
proof fn lemma_verifier_b_tilde_form(msg: Seq<u8>, pk: Pk, sig: Signature)
    ensures
        ({
            let dbits = bits_of_bytes(sig.5@);
            let delta = row_field_arr(dbits);
            let q = fields_of_rows(corrected_rows(rows_of_columns(verifier_columns(sig)), sig.2@, dbits));
            verifier_b_tilde(msg, pk, sig) == xor_seq(
                zk_hash_spec(verifier_chall_2(msg, pk, sig), verify_b(q, delta, pk), tail_comb(q)),
                gf_lambda_mul_spec(sig.3@, delta@),
            )
        }),
{
    reveal(verify_spec);
}

/// The signer's a~ and b~, written out.
proof fn lemma_signer_form(msg: Seq<u8>, sk: Seq<u8>, pk: Pk, rho: Seq<u8>, sig: Signature)
    requires
        sign_ok(msg, sk, pk, rho, sig),
    ensures
        ({
            let r = sign_root_key(msg, sk, pk, rho);
            let iv = sign_iv(msg, sk, pk, rho);
            let v = fields_of_rows(rows_of_columns(prover_columns(r, iv)));
            let ubits = bits_of_bytes(crate::protocols::fs_vole::instance_u(r, iv, 0)).subrange(0, ell_plus_lambda as int);
            let w = witness_bits(sk, pk);
            let chall_2 = signer_chall_2(msg, sk, pk, rho, sig);
            &&& sig.3@ == zk_hash_spec(chall_2, prove_a1(w, v, pk), u_star_spec(ubits))
            &&& signer_b_tilde(msg, sk, pk, rho, sig) == zk_hash_spec(chall_2, prove_a0(w, v, pk), tail_comb(v))
        }),
{
    reveal(prove_spec);
}

/// An honest signature is accepted whenever its witness satisfies each S-box constraint of the
/// key schedule and of the public key's encryption (and no small-VOLE instance has the all-zero
/// seed at leaf 0): the verifier then recomputes the signer's b~, and with it the third challenge.
pub proof fn lemma_honest_signature_verifies(msg: Seq<u8>, sk: Seq<u8>, pk: Pk, rho: Seq<u8>, sig: Signature)
    requires
        sign_ok(msg, sk, pk, rho, sig),
        leaf_zero_seeds_nonzero(sign_root_key(msg, sk, pk, rho), sign_iv(msg, sk, pk, rho)),
        sk.len() == 16,
        witness_sboxes_hold(witness_bits(sk, pk), pk),
    ensures
        verify_ok(msg, pk, sig),
{
    crate::protocols::honest_transcript::lemma_witness_bits(sk, pk);
    lemma_constraints_hold(witness_bits(sk, pk), pk);
    let r = sign_root_key(msg, sk, pk, rho);
    let iv = sign_iv(msg, sk, pk, rho);
    let w = witness_bits(sk, pk);
    let v = fields_of_rows(rows_of_columns(prover_columns(r, iv)));
    let ubits = bits_of_bytes(crate::protocols::fs_vole::instance_u(r, iv, 0)).subrange(0, ell_plus_lambda as int);
    let chall_2 = signer_chall_2(msg, sk, pk, rho, sig);
    let a0 = prove_a0(w, v, pk);
    let a1 = prove_a1(w, v, pk);
    lemma_honest_transcript(msg, sk, pk, rho, sig);
    lemma_verifier_keys(msg, sk, pk, rho, sig);
    lemma_verifier_b_tilde_form(msg, pk, sig);
    lemma_signer_form(msg, sk, pk, rho, sig);
    assert(verifier_b_tilde(msg, pk, sig) == signer_b_tilde(msg, sk, pk, rho, sig)) by {
        assert(verify_b(correlated(v, w, sig.5), sig.5, pk) == xor_blocks(a0, scale_blocks(sig.5@, a1)));
        lemma_constraint_value_lens(w, v, pk);
        lemma_bits_bytes_inverse(crate::protocols::fs_vole::instance_u(r, iv, 0), Seq::empty());
        assert forall|t: int| 0 <= t < ubits.len() implies #[trigger] ubits[t] <= 1 by {}
        lemma_mask_lens(v, ubits);
        lemma_zk_hash_check(chall_2, a0, a1, tail_comb(v), u_star_spec(ubits), sig.5@);
    }
}

/// The verifier recomputes the prover's b~: where the witness satisfies each S-box constraint,
/// the verifier's keys below ell are the prover's tags plus Delta times the witness bits, and
/// its mask key is v* + Delta u*, the verifier's ZKHash of B minus a~ Delta is the prover's b~.
pub proof fn lemma_prove_verify(w: Seq<u8>, u: Seq<u8>, V: Seq<Seq<u8>>, pk: Pk, chall_2: Seq<u8>, d: Seq<u8>, Q: Seq<Seq<u8>>, chall_3: Seq<u8>)
    requires
        chall_2.len() == 56,
        w.len() == ell,
        is_bit_seq(w),
        witness_sboxes_hold(w, pk),
        u.len() == ell_plus_lambda,
        is_bit_seq(u),
        fields_of_rows(V).len() == ell_plus_lambda,
        fields_of_rows(corrected_rows(Q, d, chall_3)).len() >= ell,
        fields_of_rows(corrected_rows(Q, d, chall_3)).subrange(0, ell as int)
            == correlated(fields_of_rows(V), w, row_field_arr(chall_3)).subrange(0, ell as int),
        tail_comb(fields_of_rows(corrected_rows(Q, d, chall_3)))
            == xor_seq(tail_comb(fields_of_rows(V)), gf_lambda_mul_spec(row_field_arr(chall_3)@, u_star_spec(u))),
    ensures
        verify_spec(d, Q, chall_2, chall_3, prove_spec(w, u, V, pk, chall_2).0, pk) == prove_spec(w, u, V, pk, chall_2).1,
{
    reveal(prove_spec);
    reveal(verify_spec);
    let delta = row_field_arr(chall_3);
    let v = fields_of_rows(V);
    let q = fields_of_rows(corrected_rows(Q, d, chall_3));
    let a0 = prove_a0(w, v, pk);
    let a1 = prove_a1(w, v, pk);
    lemma_constraints_hold(w, pk);
    assert(verify_b(correlated(v, w, delta), delta, pk) == xor_blocks(a0, scale_blocks(delta@, a1)));
    lemma_verify_b_prefix(q, correlated(v, w, delta), delta, pk);
    lemma_constraint_value_lens(w, v, pk);
    lemma_mask_lens(v, u);
    lemma_zk_hash_check(chall_2, a0, a1, tail_comb(v), u_star_spec(u), delta@);
}

/// The masks v* and u* are field elements of 16 bytes.
proof fn lemma_mask_lens(v: Seq<[u8; 16]>, u: Seq<u8>)
    requires
        v.len() == ell_plus_lambda,
        u.len() == ell_plus_lambda,
        is_bit_seq(u),
    ensures
        tail_comb(v).len() == 16,
        u_star_spec(u).len() == 16,
{
    let x = rows_view(v.subrange(ell as int, ell_plus_lambda as int));
    assert forall|i: int| 0 <= i < x.len() implies (#[trigger] x[i]).len() == 16 && x[i].len() == 16 by {}
    lemma_alpha_comb_linear(x, x, LAMBDA as int);
    let bs = Seq::new(LAMBDA as nat, |i: int| u[ell + i]);
    assert forall|i: int| 0 <= i < bs.len() implies #[trigger] bs[i] <= 1 by {
        assert(u[ell + i] <= 1);
    }
    lemma_alpha_comb_bits(bs, zero_bytes(16), LAMBDA as int);
    assert(Seq::new(LAMBDA as nat, |i: int| bit_field(u[ell + i])) =~= Seq::new(bs.len(), |i: int| bit_field(bs[i])));
}

} // verus!
