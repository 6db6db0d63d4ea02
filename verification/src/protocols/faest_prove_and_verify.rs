#![allow(non_snake_case, non_upper_case_globals)]

use vstd::prelude::*;
use crate::protocols::faest_key_enc_cstrnts::{enc_a0, enc_a1, enc_b, faest_aes_enc_cstrnts_prover, faest_aes_enc_cstrnts_verifier};
use crate::protocols::faest_key_exp_cstrnts::{exp_a0, exp_a1, exp_b, faest_aes_exp_cstrnts_qDelta, faest_aes_exp_cstrnts_wv, key_exp_fwd_spec};
use crate::utils::constants::{beta, big_C, chall2_bytes, ell, ell_plus_lambda, l_enc, l_ke, lambda_bytes, s_enc, S_ke, LAMBDA};
use crate::utils::galois_field::{gf_lambda_mul, gf_lambda_mul_spec};
use crate::utils::hash_functions::{pack_bits, pack_bits_exec, rows_view};
use crate::utils::helper_methods_prove_verify::{field_bits, to_field, zero_field, zk_hash, zk_hash_spec};
use crate::utils::math::{bits_of_bytes, bytes_of_bits, field_pow, field_pow_spec, lemma_bits_bytes_inverse, xor_arrays, xor_seq};
use crate::utils::slices::{take_bytes, take_rows};
use crate::utils::types::Pk;

verus! {

/// The field element that ToField reads from a row of lambda bits.
pub open spec fn row_field(row: Seq<u8>) -> Seq<u8> {
    bytes_of_bits(field_bits(row, 0, LAMBDA as int))
}

/// `row_field`, as an array of bytes.
pub open spec fn row_field_arr(row: Seq<u8>) -> [u8; 16] {
    choose|a: [u8; 16]| a@ == row_field(row)
}

/// The field element (0 or 1) that ToField reads from a single bit.
pub open spec fn bit_field(b: u8) -> Seq<u8> {
    bytes_of_bits(field_bits(seq![b], 0, 1))
}

/// The field elements of the rows of a VOLE matrix.
pub open spec fn fields_of_rows(rows: Seq<Seq<u8>>) -> Seq<[u8; 16]> {
    Seq::new(rows.len(), |i: int| row_field_arr(rows[i]))
}

/// The generator alpha = x of F_{2^lambda}.
pub open spec fn alpha_x() -> Seq<u8> {
    Seq::new(lambda_bytes as nat, |i: int| if i == 0 { 2u8 } else { 0u8 })
}

/// The sum over i < n of xs[i] alpha^i.
pub open spec fn alpha_comb(xs: Seq<Seq<u8>>, n: int) -> Seq<u8>
    decreases n,
{
    if n <= 0 {
        zero_field()
    } else {
        xor_seq(alpha_comb(xs, n - 1), gf_lambda_mul_spec(xs[n - 1], field_pow_spec(alpha_x(), (n - 1) as nat)))
    }
}

/// The masking value u* = sum_i ToField(u[ell + i]) alpha^i.
pub open spec fn u_star_spec(u: Seq<u8>) -> Seq<u8> {
    alpha_comb(Seq::new(LAMBDA as nat, |i: int| bit_field(u[ell + i])), LAMBDA as int)
}

/// The sum of the last lambda field elements weighted by the powers of alpha (v* and q*).
pub open spec fn tail_comb(f: Seq<[u8; 16]>) -> Seq<u8> {
    alpha_comb(rows_view(f.subrange(ell as int, ell_plus_lambda as int)), LAMBDA as int)
}

/// The part of the witness (or its tags) that encryption block `b` constrains.
pub open spec fn enc_block<T>(f: Seq<T>, b: int) -> Seq<T> {
    f.subrange(l_ke + b * l_enc, l_ke + b * l_enc + l_enc)
}

/// The prover's constraint values A_0: those of the key expansion, then those of each
/// encryption block.
pub open spec fn prove_a0(w: Seq<u8>, v: Seq<[u8; 16]>, pk: Pk) -> Seq<Seq<u8>> {
    let v_ke = v.subrange(0, l_ke as int);
    let vk = key_exp_fwd_spec(v_ke);
    exp_a0(w.subrange(0, l_ke as int), v_ke) + Seq::new(
        (beta * s_enc) as nat,
        |t: int| enc_a0(enc_block(v, t / s_enc as int), vk, pk[t / s_enc as int].0@, pk[t / s_enc as int].1@)[t % s_enc as int],
    )
}

/// The prover's constraint values A_1: those of the key expansion, then those of each
/// encryption block.
pub open spec fn prove_a1(w: Seq<u8>, v: Seq<[u8; 16]>, pk: Pk) -> Seq<Seq<u8>> {
    let w_ke = w.subrange(0, l_ke as int);
    let v_ke = v.subrange(0, l_ke as int);
    let k = key_exp_fwd_spec(w_ke);
    let vk = key_exp_fwd_spec(v_ke);
    exp_a1(w_ke, v_ke) + Seq::new(
        (beta * s_enc) as nat,
        |t: int|
            enc_a1(
                enc_block(w, t / s_enc as int),
                enc_block(v, t / s_enc as int),
                k,
                vk,
                pk[t / s_enc as int].0@,
                pk[t / s_enc as int].1@,
            )[t % s_enc as int],
    )
}

/// The verifier's constraint values B: those of the key expansion, then those of each
/// encryption block.
pub open spec fn verify_b(q: Seq<[u8; 16]>, delta: [u8; 16], pk: Pk) -> Seq<Seq<u8>> {
    let q_ke = q.subrange(0, l_ke as int);
    let qk = key_exp_fwd_spec(q_ke);
    exp_b(delta, q_ke) + Seq::new(
        (beta * s_enc) as nat,
        |t: int| enc_b(enc_block(q, t / s_enc as int), qk, delta, pk[t / s_enc as int].0@, pk[t / s_enc as int].1@)[t % s_enc as int],
    )
}

/// The rows of Q corrected by the commitment d: row i < ell is xor-ed with Delta's bits where
/// d[i] is 1.
pub open spec fn corrected_rows(Q: Seq<Seq<u8>>, d: Seq<u8>, chall_3: Seq<u8>) -> Seq<Seq<u8>> {
    Seq::new(Q.len(), |i: int| if i < ell && d[i] == 1 { xor_seq(Q[i], chall_3) } else { Q[i] })
}

/// What the prover answers: (alpha~, beta~) = (ZKHash(chall, A_1, u*), ZKHash(chall, A_0, v*)).
#[verifier::opaque]
pub open spec fn prove_spec(w: Seq<u8>, u: Seq<u8>, V: Seq<Seq<u8>>, pk: Pk, chall: Seq<u8>) -> (Seq<u8>, Seq<u8>) {
    let v = fields_of_rows(V);
    (zk_hash_spec(chall, prove_a1(w, v, pk), u_star_spec(u)), zk_hash_spec(chall, prove_a0(w, v, pk), tail_comb(v)))
}

/// What the verifier recomputes: ZKHash(chall_2, B, q*) - a~ Delta, with the tags q of the
/// corrected rows of Q.
#[verifier::opaque]
pub open spec fn verify_spec(d: Seq<u8>, Q: Seq<Seq<u8>>, chall_2: Seq<u8>, chall_3: Seq<u8>, a_tilde: Seq<u8>, pk: Pk) -> Seq<u8> {
    let delta = row_field_arr(chall_3);
    let q = fields_of_rows(corrected_rows(Q, d, chall_3));
    xor_seq(zk_hash_spec(chall_2, verify_b(q, delta, pk), tail_comb(q)), gf_lambda_mul_spec(a_tilde, delta@))
}

/// `row_field_arr` picks the array whose bytes are the row's field element.
proof fn lemma_row_field_arr(row: Seq<u8>, a: [u8; 16])
    requires
        a@ == row_field(row),
    ensures
        row_field_arr(row) == a,
{
    let c = row_field_arr(row);
    assert(c@ == row_field(row));
    assert(c =~= a);
}

/// ToField of a row of lambda bits.
fn row_to_field(row: &[u8; LAMBDA]) -> (r: [u8; lambda_bytes])
    ensures
        r@ == row_field(row@),
        r == row_field_arr(row@),
{
    let f = to_field::<LAMBDA, LAMBDA, 1>(row);
    proof {
        assert(bits_of_bytes(f@[0]@) == field_bits(row@, 0, LAMBDA as int));
        lemma_bits_bytes_inverse(f@[0]@, seq![]);
        lemma_row_field_arr(row@, f[0]);
    }
    f[0]
}

/// ToField of every row of a VOLE matrix.
fn field_rows(m: &[[u8; LAMBDA]; ell_plus_lambda]) -> (r: [[u8; lambda_bytes]; ell_plus_lambda])
    ensures
        r@ == fields_of_rows(rows_view(m@)),
{
    let mut r = [[0u8; lambda_bytes]; ell_plus_lambda];
    let mut i: usize = 0;
    while i < ell_plus_lambda
        invariant
            0 <= i <= ell_plus_lambda,
            forall|t: int| 0 <= t < i ==> #[trigger] r@[t] == row_field_arr(m@[t]@),
        decreases ell_plus_lambda - i,
    {
        r[i] = row_to_field(&m[i]);
        i = i + 1;
    }
    assert(r@ =~= fields_of_rows(rows_view(m@)));
    r
}

/// The sum over i < lambda of xs[lo + i] alpha^i.
fn alpha_sum(xs: &[[u8; lambda_bytes]], lo: usize) -> (r: [u8; lambda_bytes])
    requires
        lo + LAMBDA <= xs@.len(),
    ensures
        r@ == alpha_comb(rows_view(xs@.subrange(lo as int, lo + LAMBDA)), LAMBDA as int),
{
    let ghost ys = rows_view(xs@.subrange(lo as int, lo + LAMBDA));
    let mut alpha = [0u8; lambda_bytes];
    alpha[0] = 0x02;
    assert(alpha@ =~= alpha_x());
    let mut sum = [0u8; lambda_bytes];
    assert(sum@ =~= zero_field());
    let xlen = xs.len();
    let mut i: usize = 0;
    while i < LAMBDA
        invariant
            0 <= i <= LAMBDA,
            xlen == xs@.len(),
            lo + LAMBDA <= xs@.len(),
            alpha@ == alpha_x(),
            ys == rows_view(xs@.subrange(lo as int, lo + LAMBDA)),
            sum@ == alpha_comb(ys, i as int),
        decreases LAMBDA - i,
    {
        let alpha_pow = field_pow(&alpha, i);
        let term = gf_lambda_mul(&xs[lo + i], &alpha_pow);
        assert(ys[i as int] == xs@[lo + i]@);
        sum = xor_arrays(&sum, &term);
        i = i + 1;
    }
    sum
}

/// Places the key-expansion constraint values before those of the encryption.
fn concat_arrays(b1: [[u8; lambda_bytes]; S_ke], b2: [[u8; lambda_bytes]; s_enc]) -> (result: [[u8; lambda_bytes]; big_C])
    ensures
        result@ == b1@ + b2@,
{
    let mut result = [[0u8; lambda_bytes]; big_C];
    let mut idx: usize = 0;
    while idx < S_ke
        invariant
            0 <= idx <= S_ke,
            forall|t: int| 0 <= t < idx ==> #[trigger] result@[t] == b1@[t],
        decreases S_ke - idx,
    {
        result[idx] = b1[idx];
        idx = idx + 1;
    }
    let mut i: usize = 0;
    while i < s_enc
        invariant
            0 <= i <= s_enc,
            forall|t: int| 0 <= t < S_ke ==> #[trigger] result@[t] == b1@[t],
            forall|t: int| S_ke <= t < S_ke + i ==> #[trigger] result@[t] == b2@[t - S_ke],
        decreases s_enc - i,
    {
        result[S_ke + i] = b2[i];
        i = i + 1;
    }
    assert(result@ =~= b1@ + b2@);
    result
}

/// The prover's constraint values A_0 and A_1 for the witness bits `w` and their tags `v`.
fn prove_constraints(w: &[u8; ell], v: &[[u8; lambda_bytes]; ell_plus_lambda], pk: &Pk) -> (res: (
    [[u8; lambda_bytes]; big_C],
    [[u8; lambda_bytes]; big_C],
))
    ensures
        rows_view(res.0@) == prove_a0(w@, v@, *pk),
        rows_view(res.1@) == prove_a1(w@, v@, *pk),
{
    let w_tilde_exp: [u8; l_ke] = take_bytes::<l_ke>(w.as_slice(), 0);
    let v_tilde_exp: [[u8; lambda_bytes]; l_ke] = take_rows::<l_ke>(v.as_slice(), 0);
    let (a_tilde_0_exp, a_tilde_1_exp, k, v_k) = faest_aes_exp_cstrnts_wv(w_tilde_exp, v_tilde_exp, false);
    let ghost wk = w@.subrange(0, l_ke as int);
    let ghost vke = v@.subrange(0, l_ke as int);
    let mut a_tilde_0_enc = [[0u8; lambda_bytes]; s_enc];
    let mut a_tilde_1_enc = [[0u8; lambda_bytes]; s_enc];
    let mut b: usize = 0;
    while b < beta
        invariant
            0 <= b <= beta,
            k@ == key_exp_fwd_spec(wk),
            v_k@ == key_exp_fwd_spec(vke),
            wk == w@.subrange(0, l_ke as int),
            vke == v@.subrange(0, l_ke as int),
            forall|t: int| 0 <= t < b * s_enc ==> (#[trigger] a_tilde_0_enc@[t])@
                == enc_a0(enc_block(v@, t / s_enc as int), v_k@, pk[t / s_enc as int].0@, pk[t / s_enc as int].1@)[t % s_enc as int],
            forall|t: int| 0 <= t < b * s_enc ==> (#[trigger] a_tilde_1_enc@[t])@
                == enc_a1(enc_block(w@, t / s_enc as int), enc_block(v@, t / s_enc as int), k@, v_k@, pk[t / s_enc as int].0@, pk[t / s_enc as int].1@)[t % s_enc as int],
        decreases beta - b,
    {
        let w_enc_start = l_ke + b * l_enc;
        let w_enc: [u8; l_enc] = take_bytes::<l_enc>(w.as_slice(), w_enc_start);
        let v_tilde_enc: [[u8; lambda_bytes]; l_enc] = take_rows::<l_enc>(v.as_slice(), w_enc_start);
        let (a0, a1) = faest_aes_enc_cstrnts_prover(1, pk[b].0, pk[b].1, w_enc, v_tilde_enc, k, v_k, false);
        let ghost blk = b as int;
        let mut i: usize = 0;
        while i < s_enc
            invariant
                0 <= i <= s_enc,
                blk == b,
                b < beta,
                rows_view(a0@) == enc_a0(enc_block(v@, blk), v_k@, pk[blk].0@, pk[blk].1@),
                rows_view(a1@) == enc_a1(enc_block(w@, blk), enc_block(v@, blk), k@, v_k@, pk[blk].0@, pk[blk].1@),
                forall|t: int| 0 <= t < b * s_enc ==> (#[trigger] a_tilde_0_enc@[t])@
                    == enc_a0(enc_block(v@, t / s_enc as int), v_k@, pk[t / s_enc as int].0@, pk[t / s_enc as int].1@)[t % s_enc as int],
                forall|t: int| 0 <= t < b * s_enc ==> (#[trigger] a_tilde_1_enc@[t])@
                    == enc_a1(enc_block(w@, t / s_enc as int), enc_block(v@, t / s_enc as int), k@, v_k@, pk[t / s_enc as int].0@, pk[t / s_enc as int].1@)[t % s_enc as int],
                forall|t: int| b * s_enc <= t < b * s_enc + i ==> (#[trigger] a_tilde_0_enc@[t]) == a0@[t - b * s_enc],
                forall|t: int| b * s_enc <= t < b * s_enc + i ==> (#[trigger] a_tilde_1_enc@[t]) == a1@[t - b * s_enc],
            decreases s_enc - i,
        {
            a_tilde_0_enc[b * s_enc + i] = a0[i];
            a_tilde_1_enc[b * s_enc + i] = a1[i];
            i = i + 1;
        }
        proof {
            assert forall|t: int| 0 <= t < (b + 1) * s_enc implies (#[trigger] a_tilde_0_enc@[t])@
                == enc_a0(enc_block(v@, t / s_enc as int), v_k@, pk[t / s_enc as int].0@, pk[t / s_enc as int].1@)[t % s_enc as int]
                && a_tilde_1_enc@[t]@ == enc_a1(enc_block(w@, t / s_enc as int), enc_block(v@, t / s_enc as int), k@, v_k@,
                pk[t / s_enc as int].0@, pk[t / s_enc as int].1@)[t % s_enc as int] by {
                if t >= b * s_enc {
                    assert(t / s_enc as int == blk && t % s_enc as int == t - b * s_enc) by (nonlinear_arith)
                        requires
                            b * s_enc <= t < (b + 1) * s_enc,
                            blk == b,
                    ;
                    assert(rows_view(a0@)[t - b * s_enc] == a0@[t - b * s_enc]@);
                    assert(rows_view(a1@)[t - b * s_enc] == a1@[t - b * s_enc]@);
                }
            }
        }
        b = b + 1;
    }
    let a_0 = concat_arrays(a_tilde_0_exp, a_tilde_0_enc);
    let a_1 = concat_arrays(a_tilde_1_exp, a_tilde_1_enc);
    assert(rows_view(a_0@) =~= prove_a0(w@, v@, *pk));
    assert(rows_view(a_1@) =~= prove_a1(w@, v@, *pk));
    (a_0, a_1)
}

/// The verifier's constraint values B for the tags `q` under Delta.
fn verify_constraints(q: &[[u8; lambda_bytes]; ell_plus_lambda], delta: [u8; lambda_bytes], pk: &Pk) -> (res: [[u8; lambda_bytes]; big_C])
    ensures
        rows_view(res@) == verify_b(q@, delta, *pk),
{
    let q_for_q_delta: [[u8; lambda_bytes]; l_ke] = take_rows::<l_ke>(q.as_slice(), 0);
    let (b1, q_k) = faest_aes_exp_cstrnts_qDelta(delta, q_for_q_delta, true);
    let ghost qke = q@.subrange(0, l_ke as int);
    let mut b2 = [[0u8; lambda_bytes]; s_enc];
    let mut b: usize = 0;
    while b < beta
        invariant
            0 <= b <= beta,
            q_k@ == key_exp_fwd_spec(qke),
            qke == q@.subrange(0, l_ke as int),
            forall|t: int| 0 <= t < b * s_enc ==> (#[trigger] b2@[t])@
                == enc_b(enc_block(q@, t / s_enc as int), q_k@, delta, pk[t / s_enc as int].0@, pk[t / s_enc as int].1@)[t % s_enc as int],
        decreases beta - b,
    {
        let q_enc_start = l_ke + b * l_enc;
        let q_for_enc: [[u8; lambda_bytes]; l_enc] = take_rows::<l_enc>(q.as_slice(), q_enc_start);
        let b2_block = faest_aes_enc_cstrnts_verifier(128, &pk[b].0, &pk[b].1, &q_for_enc, &q_k, delta, true);
        let ghost blk = b as int;
        let mut i: usize = 0;
        while i < s_enc
            invariant
                0 <= i <= s_enc,
                blk == b,
                b < beta,
                rows_view(b2_block@) == enc_b(enc_block(q@, blk), q_k@, delta, pk[blk].0@, pk[blk].1@),
                forall|t: int| 0 <= t < b * s_enc ==> (#[trigger] b2@[t])@
                    == enc_b(enc_block(q@, t / s_enc as int), q_k@, delta, pk[t / s_enc as int].0@, pk[t / s_enc as int].1@)[t % s_enc as int],
                forall|t: int| b * s_enc <= t < b * s_enc + i ==> (#[trigger] b2@[t]) == b2_block@[t - b * s_enc],
            decreases s_enc - i,
        {
            b2[b * s_enc + i] = b2_block[i];
            i = i + 1;
        }
        proof {
            assert forall|t: int| 0 <= t < (b + 1) * s_enc implies (#[trigger] b2@[t])@
                == enc_b(enc_block(q@, t / s_enc as int), q_k@, delta, pk[t / s_enc as int].0@, pk[t / s_enc as int].1@)[t % s_enc as int] by {
                if t >= b * s_enc {
                    assert(t / s_enc as int == blk && t % s_enc as int == t - b * s_enc) by (nonlinear_arith)
                        requires
                            b * s_enc <= t < (b + 1) * s_enc,
                            blk == b,
                    ;
                    assert(rows_view(b2_block@)[t - b * s_enc] == b2_block@[t - b * s_enc]@);
                }
            }
        }
        b = b + 1;
    }
    let res = concat_arrays(b1, b2);
    assert(rows_view(res@) =~= verify_b(q@, delta, *pk));
    res
}

/// The prover's answer (alpha~, beta~) of the QuickSilver check: the constraint values of the
/// witness `w` under the tags of the VOLE rows `V`, hashed with ZKHash under `chall` and masked
/// by u* and v*.
pub fn faest_aes_prove(
    w: [u8; ell],
    u: &[u8; ell_plus_lambda],
    V: &[[u8; LAMBDA]; ell_plus_lambda],
    pk: Pk,
    chall: [u8; chall2_bytes],
) -> (res: ([u8; lambda_bytes], [u8; lambda_bytes]))
    ensures
        res.0@ == prove_spec(w@, u@, rows_view(V@), pk, chall@).0,
        res.1@ == prove_spec(w@, u@, rows_view(V@), pk, chall@).1,
{
    let v = field_rows(V);
    let (a_0, a_1) = prove_constraints(&w, &v, &pk);
    let mut new_u: [[u8; lambda_bytes]; LAMBDA] = [[0; lambda_bytes]; LAMBDA];
    let mut i: usize = 0;
    while i < LAMBDA
        invariant
            0 <= i <= LAMBDA,
            forall|t: int| 0 <= t < i ==> (#[trigger] new_u@[t])@ == bit_field(u@[ell + t]),
        decreases LAMBDA - i,
    {
        let bit: [u8; 1] = [u[ell + i]];
        let f = to_field::<1, 1, 1>(&bit);
        proof {
            assert(bit@ =~= seq![u@[ell + i]]);
            lemma_bits_bytes_inverse(f@[0]@, seq![]);
        }
        new_u[i] = f[0];
        i = i + 1;
    }
    let u_star = alpha_sum(new_u.as_slice(), 0);
    assert(rows_view(new_u@.subrange(0, LAMBDA as int)) =~= Seq::new(LAMBDA as nat, |t: int| bit_field(u@[ell + t])));
    let v_star = alpha_sum(v.as_slice(), ell);
    let alpha_tilde = zk_hash(chall.as_slice(), a_1.as_slice(), &u_star);
    let beta_tilde = zk_hash(chall.as_slice(), a_0.as_slice(), &v_star);
    proof {
        reveal(prove_spec);
    }
    (alpha_tilde, beta_tilde)
}

/// The verifier's side of the QuickSilver check: corrects the VOLE rows `Q` by `d` and Delta,
/// computes the constraint values B and q*, and returns ZKHash(chall_2, B, q*) - a~ Delta, which
/// equals b~ for an honest prover.
pub fn faest_aes_verify(
    d: [u8; ell],
    Q: [[u8; LAMBDA]; ell_plus_lambda],
    chall_2: [u8; chall2_bytes],
    chall_3: [u8; LAMBDA],
    a_tilde: [u8; lambda_bytes],
    pk: Pk,
) -> (r: [u8; lambda_bytes])
    ensures
        r@ == verify_spec(d@, rows_view(Q@), chall_2@, chall_3@, a_tilde@, pk),
{
    let delta = row_to_field(&chall_3);
    let mut Q_mut = Q;
    let mut row: usize = 0;
    while row < ell
        invariant
            0 <= row <= ell,
            forall|t: int| 0 <= t < row ==> (#[trigger] Q_mut@[t])@ == corrected_rows(rows_view(Q@), d@, chall_3@)[t],
            forall|t: int| row <= t < ell_plus_lambda ==> #[trigger] Q_mut@[t] == Q@[t],
        decreases ell - row,
    {
        if d[row] == 1 {
            let corrected = xor_arrays(&Q_mut[row], &chall_3);
            Q_mut[row] = corrected;
        }
        row = row + 1;
    }
    assert(rows_view(Q_mut@) =~= corrected_rows(rows_view(Q@), d@, chall_3@));
    let q = field_rows(&Q_mut);
    let b = verify_constraints(&q, delta, &pk);
    let q_star = alpha_sum(q.as_slice(), ell);
    let q_tilde = zk_hash(chall_2.as_slice(), b.as_slice(), &q_star);
    let a_tilde_times_delta = gf_lambda_mul(&a_tilde, &delta);
    proof {
        reveal(verify_spec);
    }
    xor_arrays(&q_tilde, &a_tilde_times_delta)
}

/// Packs 448 bits into 56 bytes, eight bits per byte, least significant bit first.
pub fn bits_to_bytes_56(bits: &[u8; 448]) -> (bytes: [u8; chall2_bytes])
    ensures
        bytes@ == pack_bits(bits@),
{
    let mut bytes = [0u8; chall2_bytes];
    pack_bits_exec(bits.as_slice(), &mut bytes);
    bytes
}

} // verus!
