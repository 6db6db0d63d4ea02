#![allow(non_snake_case, non_upper_case_globals)]

use vstd::prelude::*;
use crate::protocols::aes::key_word;
use crate::protocols::faest_aes_extended_witness::ext_witness_bytes;
use crate::protocols::faest_prove_and_verify::{corrected_rows, prove_spec, verify_spec};
use crate::protocols::faest_sign::{prover_column, prover_columns, prover_commit_hash, sign_mu, sign_ok, sign_seed, witness_bits};
use crate::protocols::faest_verify::{rec_column, unmasked_hashes, verifier_columns, verify_ok};
use crate::protocols::fs_vole::{
    chall_bits, chall_offset, cop_variant_ok, instance_depth, instance_hash, instance_root, instance_rows, instance_u, lemma_chall_bits_are_bits,
    lemma_xor_bit_rows_len, rec_instance_hash, rows_wf, vole_commit_hash, vole_v,
};
use crate::protocols::vole_correlation::lemma_vole_correlation;
use crate::utils::constants::{ell, ell_hat_bytes, ell_plus_lambda, tau, x0_bytes, LAMBDA};
use crate::utils::hash_functions::{concat_rows, concat_seqs, lemma_concat_seqs_len16, pack_bits};
use crate::utils::hash_laws::lemma_vole_hash_linear;
use crate::utils::helper_methods_for_sign::{column_hashes_spec, instance_of, lemma_instance_of, rows_of_columns, vole_hash_spec};
use crate::utils::libcrux_proxy::shake128_spec;
use crate::utils::gf_laws::lemma_bits_of_xor;
use crate::utils::math::{bits_of_bytes, lemma_xor_assoc, is_bit_seq, lemma_bits_bytes_inverse, xor_seq};
use crate::utils::preliminary_helper_methods::num_rec;
use crate::utils::types::{zero16, Pk, Signature};
use crate::utils::vector_commit::{commit_coms, commit_seeds, cop_of, cop_view, lemma_vec_open_reconstruct};
use crate::utils::types::sized_array_for_cop;

verus! {

/// The root key that signing `msg` under (sk, pk) with randomness rho derives.
pub open spec fn sign_root_key(msg: Seq<u8>, sk: Seq<u8>, pk: Pk, rho: Seq<u8>) -> Seq<u8> {
    sign_seed(sk, sign_mu(pk, msg), rho).subrange(0, 16)
}

/// The iv that signing `msg` under (sk, pk) with randomness rho derives.
pub open spec fn sign_iv(msg: Seq<u8>, sk: Seq<u8>, pk: Pk, rho: Seq<u8>) -> Seq<u8> {
    sign_seed(sk, sign_mu(pk, msg), rho).subrange(16, 32)
}

/// No small-VOLE instance of the root key has the all-zero seed at leaf 0, the leaf that the
/// verifier marks as unknown with that value.
pub open spec fn leaf_zero_seeds_nonzero(r: Seq<u8>, iv: Seq<u8>) -> bool {
    forall|i: int| 0 <= i < tau ==> #[trigger] commit_seeds(instance_root(r, iv, i), iv, instance_depth(i))[0] != zero16()
}

/// The first challenge of the signer.
pub open spec fn signer_chall_1(msg: Seq<u8>, sk: Seq<u8>, pk: Pk, rho: Seq<u8>, sig: Signature) -> Seq<u8> {
    let r = sign_root_key(msg, sk, pk, rho);
    let iv = sign_iv(msg, sk, pk, rho);
    shake128_spec(sign_mu(pk, msg) + prover_commit_hash(r, iv) + concat_rows(sig.0@) + iv + seq![2u8], 88)
}

/// The hash h_V of the signer's VOLE columns.
pub open spec fn signer_h_v(msg: Seq<u8>, sk: Seq<u8>, pk: Pk, rho: Seq<u8>, sig: Signature) -> Seq<u8> {
    let r = sign_root_key(msg, sk, pk, rho);
    let iv = sign_iv(msg, sk, pk, rho);
    shake128_spec(concat_seqs(column_hashes_spec(signer_chall_1(msg, sk, pk, rho, sig), prover_columns(r, iv))) + seq![1u8], 32)
}

/// The second challenge of the signer.
pub open spec fn signer_chall_2(msg: Seq<u8>, sk: Seq<u8>, pk: Pk, rho: Seq<u8>, sig: Signature) -> Seq<u8> {
    shake128_spec(signer_chall_1(msg, sk, pk, rho, sig) + sig.1@ + signer_h_v(msg, sk, pk, rho, sig) + pack_bits(sig.2@) + seq![2u8], 56)
}

/// The b~ of the signer's proof.
pub open spec fn signer_b_tilde(msg: Seq<u8>, sk: Seq<u8>, pk: Pk, rho: Seq<u8>, sig: Signature) -> Seq<u8> {
    let r = sign_root_key(msg, sk, pk, rho);
    let iv = sign_iv(msg, sk, pk, rho);
    let u0 = instance_u(r, iv, 0);
    prove_spec(
        witness_bits(sk, pk),
        bits_of_bytes(u0).subrange(0, ell_plus_lambda as int),
        rows_of_columns(prover_columns(r, iv)),
        pk,
        signer_chall_2(msg, sk, pk, rho, sig),
    ).1
}

/// The commitment hash that the verifier rebuilds from the openings.
pub open spec fn verifier_commit_hash(sig: Signature) -> Seq<u8> {
    vole_commit_hash(Seq::new(tau as nat, |i: int| rec_instance_hash(cop_view(sig.4[i].0), sig.4[i].1@, sig.5@, sig.6@, i)))
}

/// The first challenge that the verifier recomputes.
pub open spec fn verifier_chall_1(msg: Seq<u8>, pk: Pk, sig: Signature) -> Seq<u8> {
    shake128_spec(sign_mu(pk, msg) + verifier_commit_hash(sig) + concat_rows(sig.0@) + sig.6@ + seq![2u8], 88)
}

/// The hash h_V that the verifier recomputes from its columns and u~.
pub open spec fn verifier_h_v(msg: Seq<u8>, pk: Pk, sig: Signature) -> Seq<u8> {
    shake128_spec(concat_seqs(unmasked_hashes(column_hashes_spec(verifier_chall_1(msg, pk, sig), verifier_columns(sig)), sig.1@, sig.5@)) + seq![1u8], 32)
}

/// The second challenge that the verifier recomputes.
pub open spec fn verifier_chall_2(msg: Seq<u8>, pk: Pk, sig: Signature) -> Seq<u8> {
    shake128_spec(verifier_chall_1(msg, pk, sig) + sig.1@ + verifier_h_v(msg, pk, sig) + pack_bits(sig.2@) + seq![2u8], 56)
}

/// The b~ that the verifier recomputes from its columns.
pub open spec fn verifier_b_tilde(msg: Seq<u8>, pk: Pk, sig: Signature) -> Seq<u8> {
    verify_spec(sig.2@, rows_of_columns(verifier_columns(sig)), verifier_chall_2(msg, pk, sig), bits_of_bytes(sig.5@), sig.3@, pk)
}

/// The verifier's column `c` of an honest signature: the signer's column, plus u_0 where the
/// challenge bit of the column is set.
proof fn lemma_verifier_column(msg: Seq<u8>, sk: Seq<u8>, pk: Pk, rho: Seq<u8>, sig: Signature, c: int)
    requires
        sign_ok(msg, sk, pk, rho, sig),
        leaf_zero_seeds_nonzero(sign_root_key(msg, sk, pk, rho), sign_iv(msg, sk, pk, rho)),
        0 <= c < LAMBDA,
    ensures
        verifier_columns(sig)[c] == if bits_of_bytes(sig.5@)[c] == 1 {
            xor_seq(
                prover_columns(sign_root_key(msg, sk, pk, rho), sign_iv(msg, sk, pk, rho))[c],
                instance_u(sign_root_key(msg, sk, pk, rho), sign_iv(msg, sk, pk, rho), 0),
            )
        } else {
            prover_columns(sign_root_key(msg, sk, pk, rho), sign_iv(msg, sk, pk, rho))[c]
        },
        prover_columns(sign_root_key(msg, sk, pk, rho), sign_iv(msg, sk, pk, rho))[c].len() == ell_hat_bytes,
{
    let r = sign_root_key(msg, sk, pk, rho);
    let iv = sign_iv(msg, sk, pk, rho);
    let u0 = instance_u(r, iv, 0);
    lemma_instance_of(c);
    let i = instance_of(c);
    let j = c - chall_offset(i);
    let chall = sig.5@;
    lemma_chall_bits_are_bits(chall, i);
    assert(cop_variant_ok(sig.4[i].0, i));
    assert(commit_seeds(instance_root(r, iv, i), iv, instance_depth(i))[0] != zero16());
    lemma_vole_correlation(r, iv, chall, i, j);
    let v = vole_v(instance_rows(r, iv, i), j as nat);
    assert(rows_wf(instance_rows(r, iv, i)));
    lemma_xor_bit_rows_len(instance_rows(r, iv, i), j as nat, instance_rows(r, iv, i).len() as int);
    assert(prover_columns(r, iv)[c] == prover_column(r, iv, c));
    assert(prover_column(r, iv, c) == v);
    assert(rec_column(sig, c) == if chall_bits(chall, i)[j] == 1 { xor_seq(v, instance_u(r, iv, i)) } else { v });
    assert(chall_bits(chall, i)[j] == bits_of_bytes(chall)[c]);
    if bits_of_bytes(chall)[c] == 1 && i >= 1 {
        let ui = instance_u(r, iv, i);
        let ci = sig.0@[i - 1]@;
        assert(ci == xor_seq(u0, ui));
        assert forall|k: int| 0 <= k < ell_hat_bytes implies #[trigger] xor_seq(xor_seq(v, ui), ci)[k] == xor_seq(v, u0)[k] by {
            crate::utils::gf_laws::lemma_xor_swap(v[k], ui[k], u0[k], ui[k]);
            lemma_xor_assoc(v[k] ^ u0[k], ui[k], ui[k]);
            lemma_xor_assoc(ui[k], 0, 0);
        }
        assert(xor_seq(xor_seq(v, ui), ci) =~= xor_seq(v, u0));
    }
}

/// The verifier's column hashes of an honest signature, with u~ added where the challenge bit
/// is set, are the signer's column hashes.
proof fn lemma_unmasked_hashes(msg: Seq<u8>, sk: Seq<u8>, pk: Pk, rho: Seq<u8>, sig: Signature, chall_1: Seq<u8>)
    requires
        sign_ok(msg, sk, pk, rho, sig),
        leaf_zero_seeds_nonzero(sign_root_key(msg, sk, pk, rho), sign_iv(msg, sk, pk, rho)),
        chall_1 == signer_chall_1(msg, sk, pk, rho, sig),
    ensures
        unmasked_hashes(column_hashes_spec(chall_1, verifier_columns(sig)), sig.1@, sig.5@)
            == column_hashes_spec(chall_1, prover_columns(sign_root_key(msg, sk, pk, rho), sign_iv(msg, sk, pk, rho))),
{
    let r = sign_root_key(msg, sk, pk, rho);
    let iv = sign_iv(msg, sk, pk, rho);
    let u0 = instance_u(r, iv, 0);
    let q = verifier_columns(sig);
    let p = prover_columns(r, iv);
    let one: int = 1;
    assert(sig.0@[one - 1]@ == xor_seq(u0, instance_u(r, iv, one)));
    assert(u0.len() == ell_hat_bytes);
    let u_lo = u0.subrange(0, x0_bytes as int);
    let u_hi = u0.subrange(x0_bytes as int, ell_hat_bytes as int);
    assert(sig.1@ == vole_hash_spec(chall_1, u_lo, u_hi));
    let lhs = unmasked_hashes(column_hashes_spec(chall_1, q), sig.1@, sig.5@);
    let rhs = column_hashes_spec(chall_1, p);
    assert forall|c: int| 0 <= c < LAMBDA implies #[trigger] lhs[c] == rhs[c] by {
        lemma_verifier_column(msg, sk, pk, rho, sig, c);
        let v = p[c];
        let v_lo = v.subrange(0, x0_bytes as int);
        let v_hi = v.subrange(x0_bytes as int, ell_hat_bytes as int);
        lemma_vole_hash_linear(chall_1, v_lo, v_hi, u_lo, u_hi);
        if bits_of_bytes(sig.5@)[c] == 1 {
            assert(q[c] == xor_seq(v, u0));
            assert(q[c].subrange(0, x0_bytes as int) =~= xor_seq(v_lo, u_lo));
            assert(q[c].subrange(x0_bytes as int, ell_hat_bytes as int) =~= xor_seq(v_hi, u_hi));
            let hv = vole_hash_spec(chall_1, v_lo, v_hi);
            let hu = sig.1@;
            assert forall|k: int| 0 <= k < 18 implies #[trigger] xor_seq(xor_seq(hv, hu), hu)[k] == hv[k] by {
                lemma_xor_assoc(hv[k], hu[k], hu[k]);
                lemma_xor_assoc(hu[k], 0, 0);
                lemma_xor_assoc(hv[k], 0, 0);
            }
            assert(xor_seq(xor_seq(hv, hu), hu) =~= hv);
        }
    }
    assert(lhs =~= rhs);
}

/// Reconstruction gives back the VOLE commitment: where every instance is opened at the leaf
/// that the challenge selects (its co-path and the commitment of that leaf), the commitment
/// hash rebuilt from the openings is the one the commitment made.
pub proof fn lemma_vole_commit_reconstruct(r: Seq<u8>, iv: Seq<u8>, chall: Seq<u8>, pdecoms: Seq<(sized_array_for_cop, [u8; 32])>)
    requires
        chall.len() == 16,
        pdecoms.len() == tau,
        forall|i: int| 0 <= i < tau ==> {
            let b = num_rec(chall_bits(chall, i));
            &&& cop_view(#[trigger] pdecoms[i].0) == cop_of(instance_root(r, iv, i), iv, b, instance_depth(i))
            &&& pdecoms[i].1@ == commit_coms(instance_root(r, iv, i), iv, instance_depth(i))[b as int]
        },
    ensures
        vole_commit_hash(Seq::new(tau as nat, |i: int| rec_instance_hash(cop_view(pdecoms[i].0), pdecoms[i].1@, chall, iv, i)))
            == prover_commit_hash(r, iv),
{
    let rec = Seq::new(tau as nat, |i: int| rec_instance_hash(cop_view(pdecoms[i].0), pdecoms[i].1@, chall, iv, i));
    let hon = Seq::new(tau as nat, |i: int| instance_hash(r, iv, i));
    assert forall|i: int| 0 <= i < tau implies #[trigger] rec[i] == hon[i] by {
        lemma_chall_bits_are_bits(chall, i);
        assert(cop_view(pdecoms[i].0) == cop_of(instance_root(r, iv, i), iv, num_rec(chall_bits(chall, i)), instance_depth(i)));
        let b = num_rec(chall_bits(chall, i));
        lemma_vec_open_reconstruct(instance_root(r, iv, i), iv, b, instance_depth(i));
    }
    assert(rec =~= hon);
}

/// The commitment hash that the verifier rebuilds from an honest signature is the signer's.
proof fn lemma_commit_hash(msg: Seq<u8>, sk: Seq<u8>, pk: Pk, rho: Seq<u8>, sig: Signature)
    requires
        sign_ok(msg, sk, pk, rho, sig),
    ensures
        verifier_commit_hash(sig) == prover_commit_hash(sign_root_key(msg, sk, pk, rho), sign_iv(msg, sk, pk, rho)),
{
    let r = sign_root_key(msg, sk, pk, rho);
    let iv = sign_iv(msg, sk, pk, rho);
    let p = sig.4@;
    assert forall|i: int| 0 <= i < tau implies {
        let b = num_rec(chall_bits(sig.5@, i));
        &&& cop_view(#[trigger] p[i].0) == cop_of(instance_root(r, iv, i), iv, b, instance_depth(i))
        &&& p[i].1@ == commit_coms(instance_root(r, iv, i), iv, instance_depth(i))[b as int]
    } by {
        assert(cop_variant_ok(sig.4[i].0, i));
    }
    lemma_vole_commit_reconstruct(r, iv, sig.5@, p);
    assert(Seq::new(tau as nat, |i: int| rec_instance_hash(cop_view(p[i].0), p[i].1@, sig.5@, sig.6@, i))
        =~= Seq::new(tau as nat, |i: int| rec_instance_hash(cop_view(sig.4[i].0), sig.4[i].1@, sig.5@, sig.6@, i)));
}

/// For an honest signature the verifier recomputes the signer's challenges: the commitment
/// hash, the first challenge, h_V and the second challenge are the signer's, so the signature
/// is accepted as soon as the verifier's b~ is the signer's. This holds where no small-VOLE
/// instance has the all-zero seed at leaf 0.
pub proof fn lemma_honest_transcript(msg: Seq<u8>, sk: Seq<u8>, pk: Pk, rho: Seq<u8>, sig: Signature)
    requires
        sign_ok(msg, sk, pk, rho, sig),
        leaf_zero_seeds_nonzero(sign_root_key(msg, sk, pk, rho), sign_iv(msg, sk, pk, rho)),
    ensures
        verifier_commit_hash(sig) == prover_commit_hash(sign_root_key(msg, sk, pk, rho), sign_iv(msg, sk, pk, rho)),
        verifier_chall_1(msg, pk, sig) == signer_chall_1(msg, sk, pk, rho, sig),
        verifier_h_v(msg, pk, sig) == signer_h_v(msg, sk, pk, rho, sig),
        verifier_chall_2(msg, pk, sig) == signer_chall_2(msg, sk, pk, rho, sig),
        verifier_b_tilde(msg, pk, sig) == signer_b_tilde(msg, sk, pk, rho, sig) ==> verify_ok(msg, pk, sig),
{
    lemma_commit_hash(msg, sk, pk, rho, sig);
    let chall_1 = signer_chall_1(msg, sk, pk, rho, sig);
    assert(verifier_chall_1(msg, pk, sig) == chall_1);
    lemma_unmasked_hashes(msg, sk, pk, rho, sig, chall_1);
}

/// The bits that the corrected VOLE authenticates: the extended witness, then the bits of u_0
/// after it.
pub open spec fn authenticated_bits(sk: Seq<u8>, pk: Pk, r: Seq<u8>, iv: Seq<u8>) -> Seq<u8> {
    Seq::new(ell_plus_lambda as nat, |t: int| if t < ell { witness_bits(sk, pk)[t] } else { bits_of_bytes(instance_u(r, iv, 0))[t] })
}

pub(crate) proof fn lemma_key_word_len(key: Seq<u8>, i: nat)
    requires
        key.len() == 16,
    ensures
        key_word(key, i).len() == 4,
    decreases i,
{
    if i >= 4 {
        lemma_key_word_len(key, (i - 4) as nat);
    }
}

/// The extended witness of a 16-byte key has 200 bytes, and its bits are bits.
pub(crate) proof fn lemma_witness_bits(sk: Seq<u8>, pk: Pk)
    requires
        sk.len() == 16,
    ensures
        witness_bits(sk, pk).len() == ell,
        is_bit_seq(witness_bits(sk, pk)),
{
    let pt = pack_bits(pk[0].0@);
    let words = Seq::new(10, |t: int| key_word(sk, (4 * (t + 1)) as nat));
    assert forall|t: int| 0 <= t < 10 implies (#[trigger] words[t]).len() == 4 by {
        lemma_key_word_len(sk, (4 * (t + 1)) as nat);
    }
    lemma_concat_seqs_len16(words);
    let states = Seq::new(9, |t: int| crate::protocols::aes::shift_rows_spec(crate::protocols::aes::sub_bytes_spec(crate::protocols::aes::aes_state_after(pt, crate::utils::prg::expanded_key(sk), t as nat))));
    assert forall|t: int| 0 <= t < 9 implies (#[trigger] states[t]).len() == 16 by {}
    lemma_concat_seqs_len16(states);
    assert(ext_witness_bytes(sk, pt) == sk + concat_seqs(words) + concat_seqs(states));
    lemma_bits_bytes_inverse(ext_witness_bytes(sk, pt), Seq::empty());
}

/// The correction of one bit of one row.
proof fn lemma_corrected_bit(v: u8, u: u8, dc: u8, w: u8)
    requires
        v <= 1,
        u <= 1,
        dc <= 1,
        w <= 1,
    ensures
        ({
            let q = if dc == 1 { v ^ u } else { v };
            &&& (if (w ^ u) == 1 { q ^ dc } else { q }) == (if w == 1 { v ^ dc } else { v })
            &&& q == (if u == 1 { v ^ dc } else { v })
        }),
{
    assert(({
        let q = if dc == 1 { v ^ u } else { v };
        &&& (if (w ^ u) == 1 { q ^ dc } else { q }) == (if w == 1 { v ^ dc } else { v })
        &&& q == (if u == 1 { v ^ dc } else { v })
    })) by (bit_vector)
        requires
            v <= 1,
            u <= 1,
            dc <= 1,
            w <= 1,
    ;
}

/// Bit `t` of the verifier's column `c` of an honest signature: the signer's bit, plus bit `t`
/// of u_0 where the challenge bit of the column is set.
proof fn lemma_row_bit(msg: Seq<u8>, sk: Seq<u8>, pk: Pk, rho: Seq<u8>, sig: Signature, t: int, c: int)
    requires
        sign_ok(msg, sk, pk, rho, sig),
        leaf_zero_seeds_nonzero(sign_root_key(msg, sk, pk, rho), sign_iv(msg, sk, pk, rho)),
        0 <= t < ell_plus_lambda,
        0 <= c < LAMBDA,
    ensures
        ({
            let r = sign_root_key(msg, sk, pk, rho);
            let iv = sign_iv(msg, sk, pk, rho);
            let vb = rows_of_columns(prover_columns(r, iv))[t][c];
            let ub = bits_of_bytes(instance_u(r, iv, 0))[t];
            let dc = bits_of_bytes(sig.5@)[c];
            &&& rows_of_columns(verifier_columns(sig))[t][c] == if dc == 1 { vb ^ ub } else { vb }
            &&& vb <= 1
            &&& ub <= 1
            &&& dc <= 1
        }),
{
    let r = sign_root_key(msg, sk, pk, rho);
    let iv = sign_iv(msg, sk, pk, rho);
    let u0 = instance_u(r, iv, 0);
    lemma_bits_bytes_inverse(u0, Seq::empty());
    lemma_bits_bytes_inverse(sig.5@, Seq::empty());
    let one: int = 1;
    assert(sig.0@[one - 1]@ == xor_seq(u0, instance_u(r, iv, one)));
    lemma_verifier_column(msg, sk, pk, rho, sig, c);
    let vc = prover_columns(r, iv)[c];
    lemma_bits_of_xor(vc, u0);
    lemma_bits_bytes_inverse(vc, Seq::empty());
}

/// For an honest signature, the verifier's rows of Q, corrected by d, are the signer's rows of V
/// with Delta added where the authenticated bit (the witness bit, or the bit of u_0 after the
/// witness) is 1: the VOLE correlation q = v + w Delta on every bit.
pub proof fn lemma_corrected_rows(msg: Seq<u8>, sk: Seq<u8>, pk: Pk, rho: Seq<u8>, sig: Signature, t: int)
    requires
        sign_ok(msg, sk, pk, rho, sig),
        leaf_zero_seeds_nonzero(sign_root_key(msg, sk, pk, rho), sign_iv(msg, sk, pk, rho)),
        sk.len() == 16,
        0 <= t < ell_plus_lambda,
    ensures
        ({
            let r = sign_root_key(msg, sk, pk, rho);
            let iv = sign_iv(msg, sk, pk, rho);
            let v = rows_of_columns(prover_columns(r, iv));
            let delta = bits_of_bytes(sig.5@);
            corrected_rows(rows_of_columns(verifier_columns(sig)), sig.2@, delta)[t] == if authenticated_bits(sk, pk, r, iv)[t] == 1 {
                xor_seq(v[t], delta)
            } else {
                v[t]
            }
        }),
{
    let r = sign_root_key(msg, sk, pk, rho);
    let iv = sign_iv(msg, sk, pk, rho);
    let u0 = instance_u(r, iv, 0);
    let v = rows_of_columns(prover_columns(r, iv));
    let q = rows_of_columns(verifier_columns(sig));
    let delta = bits_of_bytes(sig.5@);
    let d = sig.2@;
    let w = witness_bits(sk, pk);
    let e = authenticated_bits(sk, pk, r, iv);
    let qc = corrected_rows(q, d, delta);
    lemma_witness_bits(sk, pk);
    let target = if e[t] == 1 { xor_seq(v[t], delta) } else { v[t] };
    assert forall|c: int| 0 <= c < LAMBDA implies #[trigger] qc[t][c] == target[c] by {
        lemma_row_bit(msg, sk, pk, rho, sig, t, c);
        let vb = v[t][c];
        let ub = bits_of_bytes(u0)[t];
        if t < ell {
            assert(d[t] == w[t] ^ ub);
            lemma_corrected_bit(vb, ub, delta[c], w[t]);
        } else {
            lemma_corrected_bit(vb, ub, delta[c], 0);
        }
    }
    assert(qc[t] =~= target);
}

/// The signer's VOLE columns have ell_hat bytes.
pub proof fn lemma_prover_column_len(r: Seq<u8>, iv: Seq<u8>, c: int)
    requires
        0 <= c < LAMBDA,
    ensures
        prover_columns(r, iv)[c].len() == ell_hat_bytes,
{
    lemma_instance_of(c);
    let i = instance_of(c);
    let j = c - chall_offset(i);
    assert(rows_wf(instance_rows(r, iv, i)));
    lemma_xor_bit_rows_len(instance_rows(r, iv, i), j as nat, instance_rows(r, iv, i).len() as int);
    assert(prover_columns(r, iv)[c] == prover_column(r, iv, c));
}

} // verus!
