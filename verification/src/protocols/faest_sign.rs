#![allow(non_snake_case, non_upper_case_globals)]

use vstd::prelude::*;
use crate::protocols::faest_aes_extended_witness::{ext_witness_bytes, faest_aes_extend_witness};
use crate::protocols::faest_prove_and_verify::{faest_aes_prove, prove_spec};
use crate::protocols::fs_vole::{
    chall_bits, chall_dec_k0, chall_dec_k1, chall_offset, cop_variant_ok, coms_variant_ok, instance_depth,
    instance_hash, instance_root, instance_rows, instance_u, lemma_chall_bits_are_bits, qv_variant_ok, vole_commit_hash, vole_v,
    FAEST_VOLE_commit,
};
use crate::utils::constants::{
    chall1_bytes, chall2_bytes, chall3_bytes, ell, ell_hat_bytes, ell_plus_lambda, iv_bytes, k_0, k_1, lambda_bytes, lambda_bytes_times_two,
    not_deterministic_test, tau, tau_0, tau_minus_one, x0_bytes, x1_bytes, LAMBDA,
};
use crate::utils::hash_functions::{bits_to_bytes_for_d, concat_rows, concat_seqs, h_1_for_2304, h_1_for_sign, h_2_1, h_2_2, h_2_3, h_3, pack_bits, rows_view};
use crate::utils::helper_methods_for_sign::{column_hashes, column_hashes_spec, flatten_column_hashes, instance_of, lemma_columns_of, rows_of_columns, u_to_1728_bits, vole_columns, vole_hash, vole_hash_spec, vole_to_row_major};
use crate::utils::libcrux_proxy::{shake128_spec, DrbgError, RandGenProxy};
use crate::utils::math::{bits_of_bytes, xor_seq};
use vstd::arithmetic::power2::pow2;
use crate::utils::preliminary_helper_methods::num_rec;
use crate::utils::slices::take_bytes;
use crate::utils::types::{sized_array_for_cop, sized_array_for_coms, sized_array_for_q_v, Pk, Signature};
use crate::utils::vector_commit::{commit_coms, cop_of, cop_view, vec_open_k0, vec_open_k1};

verus! {

/// mu = H_1(pk || msg).
pub open spec fn sign_mu(pk: Pk, msg: Seq<u8>) -> Seq<u8> {
    shake128_spec(pack_bits(pk[0].0@) + pack_bits(pk[0].1@) + msg + seq![1u8], 32)
}

/// H_3(sk || mu || rho): the root key r (first 16 bytes) and the iv (last 16 bytes).
pub open spec fn sign_seed(sk: Seq<u8>, mu: Seq<u8>, rho: Seq<u8>) -> Seq<u8> {
    shake128_spec(sk + mu + rho + seq![3u8], 32)
}

/// VOLE column `c` of the prover, from the root key and the iv.
pub open spec fn prover_column(r: Seq<u8>, iv: Seq<u8>, c: int) -> Seq<u8> {
    let i = instance_of(c);
    vole_v(instance_rows(r, iv, i), (c - chall_offset(i)) as nat)
}

/// The prover's VOLE columns.
pub open spec fn prover_columns(r: Seq<u8>, iv: Seq<u8>) -> Seq<Seq<u8>> {
    Seq::new(LAMBDA as nat, |c: int| prover_column(r, iv, c))
}

/// The hash of all vector commitments of the prover.
pub open spec fn prover_commit_hash(r: Seq<u8>, iv: Seq<u8>) -> Seq<u8> {
    vole_commit_hash(Seq::new(tau as nat, |i: int| instance_hash(r, iv, i)))
}

/// The extended witness bits of the secret key.
pub open spec fn witness_bits(sk: Seq<u8>, pk: Pk) -> Seq<u8> {
    bits_of_bytes(ext_witness_bytes(sk, pack_bits(pk[0].0@)))
}

/// What a signature of `msg` under (sk, pk) with randomness rho is: every component as
/// the signing algorithm derives it.
pub open spec fn sign_ok(msg: Seq<u8>, sk: Seq<u8>, pk: Pk, rho: Seq<u8>, sig: Signature) -> bool {
    let mu = sign_mu(pk, msg);
    let seed = sign_seed(sk, mu, rho);
    let r = seed.subrange(0, 16);
    let iv = seed.subrange(16, 32);
    let u0 = instance_u(r, iv, 0);
    let chall_1 = shake128_spec(mu + prover_commit_hash(r, iv) + concat_rows(sig.0@) + iv + seq![2u8], 88);
    let w = witness_bits(sk, pk);
    let h_v = shake128_spec(concat_seqs(column_hashes_spec(chall_1, prover_columns(r, iv))) + seq![1u8], 32);
    let chall_2 = shake128_spec(chall_1 + sig.1@ + h_v + pack_bits(sig.2@) + seq![2u8], 56);
    let proof = prove_spec(w, bits_of_bytes(u0).subrange(0, ell_plus_lambda as int), rows_of_columns(prover_columns(r, iv)), pk, chall_2);
    &&& sig.6@ == iv
    &&& forall|i: int| 1 <= i < tau ==> #[trigger] sig.0@[i - 1]@ == xor_seq(u0, instance_u(r, iv, i))
    &&& sig.1@ == vole_hash_spec(chall_1, u0.subrange(0, x0_bytes as int), u0.subrange(x0_bytes as int, ell_hat_bytes as int))
    &&& sig.2@ == Seq::new(ell as nat, |i: int| w[i] ^ bits_of_bytes(u0)[i])
    &&& sig.3@ == proof.0
    &&& sig.5@ == shake128_spec(chall_2 + proof.0 + proof.1 + seq![2u8], 16)
    &&& forall|i: int| 0 <= i < tau ==> {
        let b = num_rec(chall_bits(sig.5@, i));
        &&& cop_variant_ok(#[trigger] sig.4[i].0, i)
        &&& cop_view(sig.4[i].0) == cop_of(instance_root(r, iv, i), iv, b, instance_depth(i))
        &&& sig.4[i].1@ == commit_coms(instance_root(r, iv, i), iv, instance_depth(i))[b as int]
    }
}

/// The columns of the commitment are the prover's VOLE columns.
proof fn lemma_prover_columns(big_v: Seq<sized_array_for_q_v>, r: Seq<u8>, iv: Seq<u8>)
    requires
        big_v.len() == tau,
        forall|i: int| 0 <= i < tau ==> qv_variant_ok(#[trigger] big_v[i], i),
        forall|i: int, j: int| 0 <= i < tau && 0 <= j < instance_depth(i) ==> #[trigger] big_v[i].cols()[j]@
            == vole_v(instance_rows(r, iv, i), j as nat),
    ensures
        vole_columns(big_v) == prover_columns(r, iv),
{
    lemma_columns_of(big_v, |i: int, j: int| vole_v(instance_rows(r, iv, i), j as nat));
    assert(vole_columns(big_v) =~= prover_columns(r, iv));
}

/// Opens every vector commitment at all leaves but the one the third challenge selects.
fn open_all(decoms: &Vec<([u8; lambda_bytes], [u8; iv_bytes], sized_array_for_coms)>, chall_3: [u8; chall3_bytes]) -> (pdecoms: [(
    sized_array_for_cop,
    [u8; lambda_bytes_times_two],
); tau])
    requires
        decoms@.len() == tau,
        forall|i: int| 0 <= i < tau ==> coms_variant_ok(#[trigger] decoms@[i].2, i),
    ensures
        forall|i: int| 0 <= i < tau ==> {
            let b = num_rec(chall_bits(chall_3@, i));
            &&& cop_variant_ok(#[trigger] pdecoms@[i].0, i)
            &&& cop_view(pdecoms@[i].0) == cop_of(decoms@[i].0@, decoms@[i].1@, b, instance_depth(i))
            &&& pdecoms@[i].1 == decoms@[i].2.coms()[b as int]
        },
{
    let mut pdecoms: [(sized_array_for_cop, [u8; lambda_bytes_times_two]); tau] = [(
        sized_array_for_cop::sized_array_1([[0u8; lambda_bytes]; k_0]),
        [0u8; lambda_bytes_times_two],
    ); tau];
    let mut i: usize = 0;
    while i < tau
        invariant
            0 <= i <= tau,
            decoms@.len() == tau,
            forall|t: int| 0 <= t < tau ==> coms_variant_ok(#[trigger] decoms@[t].2, t),
            forall|t: int| 0 <= t < i ==> {
                let b = num_rec(chall_bits(chall_3@, t));
                &&& cop_variant_ok(#[trigger] pdecoms@[t].0, t)
                &&& cop_view(pdecoms@[t].0) == cop_of(decoms@[t].0@, decoms@[t].1@, b, instance_depth(t))
                &&& pdecoms@[t].1 == decoms@[t].2.coms()[b as int]
            },
        decreases tau - i,
    {
        proof {
            lemma_chall_bits_are_bits(chall_3@, i as int);
            vstd::arithmetic::power2::lemma2_to64();
        }
        let pdecom = if i < tau_0 {
            let s_i: [u8; k_0] = chall_dec_k0(chall_3, i);
            vec_open_k0(&decoms[i], &s_i)
        } else {
            let s_i: [u8; k_1] = chall_dec_k1(chall_3, i);
            vec_open_k1(&decoms[i], &s_i)
        };
        pdecoms[i] = pdecom;
        i = i + 1;
    }
    pdecoms
}

/// The VOLE part of signing: mu, the root key and iv, the VOLE commitment, the first
/// challenge, u~, h_V and the VOLE rows of the prover.
fn sign_vole(msg: &[u8], sk: &[u8; lambda_bytes], pk: &Pk, rho: [u8; lambda_bytes]) -> (res: (
    [u8; iv_bytes],
    [u8; chall1_bytes],
    Vec<([u8; lambda_bytes], [u8; iv_bytes], sized_array_for_coms)>,
    [[u8; ell_hat_bytes]; tau_minus_one],
    [u8; ell_hat_bytes],
    [u8; x1_bytes],
    [u8; lambda_bytes_times_two],
    [[u8; LAMBDA]; ell_plus_lambda],
))
    requires
        msg@.len() < usize::MAX - 16 * 2 - 1,
    ensures
        ({
            let mu = sign_mu(*pk, msg@);
            let seed = sign_seed(sk@, mu, rho@);
            let r = seed.subrange(0, 16);
            let iv = seed.subrange(16, 32);
            let u0 = instance_u(r, iv, 0);
            &&& res.0@ == iv
            &&& res.1@ == shake128_spec(mu + prover_commit_hash(r, iv) + concat_rows(res.3@) + iv + seq![2u8], 88)
            &&& res.2@.len() == tau
            &&& forall|i: int| 0 <= i < tau ==> {
                let dc = #[trigger] res.2@[i];
                &&& dc.0@ == instance_root(r, iv, i)
                &&& dc.1@ == iv
                &&& coms_variant_ok(dc.2, i)
                &&& rows_view(dc.2.coms()) == commit_coms(instance_root(r, iv, i), iv, instance_depth(i))
            }
            &&& forall|i: int| 1 <= i < tau ==> #[trigger] res.3@[i - 1]@ == xor_seq(u0, instance_u(r, iv, i))
            &&& res.4@ == u0
            &&& res.5@ == vole_hash_spec(res.1@, u0.subrange(0, x0_bytes as int), u0.subrange(x0_bytes as int, ell_hat_bytes as int))
            &&& res.6@ == shake128_spec(concat_seqs(column_hashes_spec(res.1@, prover_columns(r, iv))) + seq![1u8], 32)
            &&& rows_view(res.7@) == rows_of_columns(prover_columns(r, iv))
        }),
{
    let my: [u8; lambda_bytes_times_two] = h_1_for_sign(pk[0], msg);
    let (r, iv) = h_3(*sk, my, rho);
    let (h_com, decoms, c_bytes, u_bytes, v_bytes) = FAEST_VOLE_commit(r, iv);
    let chall_1: [u8; chall1_bytes] = h_2_1(my, h_com, &c_bytes, iv);
    let u_x_0: [u8; x0_bytes] = take_bytes::<x0_bytes>(u_bytes.as_slice(), 0);
    let u_x_1: [u8; x1_bytes] = take_bytes::<x1_bytes>(u_bytes.as_slice(), x0_bytes);
    let u_tilde: [u8; x1_bytes] = vole_hash(&chall_1, &u_x_0, &u_x_1);
    let v_tilde = column_hashes(&chall_1, &v_bytes);
    let h_v_val = flatten_column_hashes(v_tilde);
    let h_v: [u8; lambda_bytes_times_two] = h_1_for_2304(&h_v_val);
    proof {
        lemma_prover_columns(v_bytes@, r@, iv@);
    }
    let v_rows = vole_to_row_major(v_bytes);
    (iv, chall_1, decoms, c_bytes, u_bytes, u_tilde, h_v, v_rows)
}

/// The openings of the commitments of the prover, in terms of its root key and iv.
proof fn lemma_openings(
    pdecoms: Seq<(sized_array_for_cop, [u8; lambda_bytes_times_two])>,
    decoms: Seq<([u8; lambda_bytes], [u8; iv_bytes], sized_array_for_coms)>,
    chall_3: Seq<u8>,
    r: Seq<u8>,
    iv: Seq<u8>,
)
    requires
        chall_3.len() == 16,
        decoms.len() == tau,
        pdecoms.len() == tau,
        forall|i: int| 0 <= i < tau ==> {
            let dc = #[trigger] decoms[i];
            &&& dc.0@ == instance_root(r, iv, i)
            &&& dc.1@ == iv
            &&& rows_view(dc.2.coms()) == commit_coms(instance_root(r, iv, i), iv, instance_depth(i))
        },
        forall|i: int| 0 <= i < tau ==> {
            let b = num_rec(chall_bits(chall_3, i));
            &&& cop_variant_ok(#[trigger] pdecoms[i].0, i)
            &&& cop_view(pdecoms[i].0) == cop_of(decoms[i].0@, decoms[i].1@, b, instance_depth(i))
            &&& pdecoms[i].1 == decoms[i].2.coms()[b as int]
        },
    ensures
        forall|i: int| 0 <= i < tau ==> {
            let b = num_rec(chall_bits(chall_3, i));
            &&& cop_variant_ok(#[trigger] pdecoms[i].0, i)
            &&& cop_view(pdecoms[i].0) == cop_of(instance_root(r, iv, i), iv, b, instance_depth(i))
            &&& pdecoms[i].1@ == commit_coms(instance_root(r, iv, i), iv, instance_depth(i))[b as int]
        },
{
    assert forall|i: int| 0 <= i < tau implies {
        let b = num_rec(chall_bits(chall_3, i));
        &&& cop_variant_ok(#[trigger] pdecoms[i].0, i)
        &&& cop_view(pdecoms[i].0) == cop_of(instance_root(r, iv, i), iv, b, instance_depth(i))
        &&& pdecoms[i].1@ == commit_coms(instance_root(r, iv, i), iv, instance_depth(i))[b as int]
    } by {
        lemma_chall_bits_are_bits(chall_3, i);
        let b = num_rec(chall_bits(chall_3, i));
        let dc = decoms[i];
        assert(b < pow2(instance_depth(i)));
        assert(commit_coms(instance_root(r, iv, i), iv, instance_depth(i)).len() == pow2(instance_depth(i)));
        assert(rows_view(dc.2.coms()).len() == dc.2.coms().len());
        assert(rows_view(dc.2.coms())[b as int] == dc.2.coms()[b as int]@);
        assert(cop_variant_ok(pdecoms[i].0, i));
        assert(dc.0@ == instance_root(r, iv, i));
        assert(cop_view(pdecoms[i].0) == cop_of(instance_root(r, iv, i), iv, b, instance_depth(i)));
        assert(pdecoms[i].1 == dc.2.coms()[b as int]);
        assert(pdecoms[i].1@ == commit_coms(instance_root(r, iv, i), iv, instance_depth(i))[b as int]);
    }
}

/// Signs `msg` under the secret key `sk` and the public key `pk`, with the randomness `rho`.
#[verifier::rlimit(60)]
pub fn faest_sign_with_rho(msg: &[u8], sk: &[u8; lambda_bytes], pk: &Pk, rho: [u8; lambda_bytes]) -> (sig: Signature)
    requires
        msg@.len() < usize::MAX - 16 * 2 - 1,
    ensures
        sign_ok(msg@, sk@, *pk, rho@, sig),
{
    let (iv, chall_1, decoms, c_bytes, u_bytes, u_tilde, h_v, v_rows) = sign_vole(msg, sk, pk, rho);
    let u_bits = u_to_1728_bits(&u_bytes);
    let extended_witness = faest_aes_extend_witness(*sk, *pk);
    let mut d: [u8; ell] = [0; ell];
    let mut i: usize = 0;
    while i < ell
        invariant
            0 <= i <= ell,
            forall|t: int| 0 <= t < i ==> #[trigger] d@[t] == extended_witness@[t] ^ u_bits@[t],
        decreases ell - i,
    {
        d[i] = extended_witness[i] ^ u_bits[i];
        i = i + 1;
    }
    let d_bytes = bits_to_bytes_for_d(&d);
    let chall_2: [u8; chall2_bytes] = h_2_2(chall_1, u_tilde, h_v, d_bytes);
    let (a_tilde, b_tilde) = faest_aes_prove(extended_witness, &u_bits, &v_rows, *pk, chall_2);
    let chall_3: [u8; chall3_bytes] = h_2_3(chall_2, a_tilde, b_tilde);
    let pdecoms = open_all(&decoms, chall_3);
    proof {
        assert(d@ =~= Seq::new(ell as nat, |t: int| witness_bits(sk@, *pk)[t] ^ bits_of_bytes(u_bytes@)[t]));
        let mu = sign_mu(*pk, msg@);
        let seed = sign_seed(sk@, mu, rho@);
        let r = seed.subrange(0, 16);
        let ivs = seed.subrange(16, 32);
        let u0 = instance_u(r, ivs, 0);
        let w = witness_bits(sk@, *pk);
        assert(u_bits@ == bits_of_bytes(u0).subrange(0, ell_plus_lambda as int));
        assert(extended_witness@ == w);
        let proof = prove_spec(w, bits_of_bytes(u0).subrange(0, ell_plus_lambda as int), rows_of_columns(prover_columns(r, ivs)), *pk, chall_2@);
        assert(a_tilde@ == proof.0);
        assert(b_tilde@ == proof.1);
        assert(chall_3@ == shake128_spec(chall_2@ + proof.0 + proof.1 + seq![2u8], 16));
        assert(d@ == Seq::new(ell as nat, |i: int| w[i] ^ bits_of_bytes(u0)[i]));
        lemma_openings(pdecoms@, decoms@, chall_3@, r, ivs);
    }
    (c_bytes, u_tilde, d, a_tilde, pdecoms, chall_3, iv)
}

/// Signs `msg` under (sk, pk). The randomness rho is the fixed value of the test vectors unless
/// `not_deterministic_test` is set, in which case it is drawn from a random generator seeded
/// by the operating system; with the fixed rho signing always succeeds.
pub fn faest_sign(msg: &[u8], sk: &[u8; lambda_bytes], pk: &Pk) -> (res: Result<Signature, DrbgError>)
    requires
        msg@.len() < usize::MAX - 16 * 2 - 1,
    ensures
        !not_deterministic_test ==> res is Ok,
        res matches Ok(sig) ==> sign_ok(msg@, sk@, *pk, Seq::new(lambda_bytes as nat, |i: int| 0x42u8), sig),
        res is Err ==> res->Err_0 == DrbgError::InstantiationFailed || res->Err_0 == DrbgError::GenerationFailed,
{
    let mut rho: [u8; lambda_bytes] = [0x42; lambda_bytes];
    if not_deterministic_test {
        let mut rng = match RandGenProxy::get_rand_gen_sha256() {
            Ok(rng) => rng,
            Err(e) => return Err(e),
        };
        match rng.fill_bytes(&mut rho) {
            Ok(()) => {},
            Err(e) => return Err(e),
        }
    }
    assert(rho@ =~= Seq::new(lambda_bytes as nat, |i: int| 0x42u8));
    Ok(faest_sign_with_rho(msg, sk, pk, rho))
}

} // verus!
