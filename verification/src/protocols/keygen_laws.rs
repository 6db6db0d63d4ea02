#![allow(non_snake_case, non_upper_case_globals)]

use vstd::prelude::*;
use crate::protocols::aes::key_word;
use crate::protocols::faest_aes_extended_witness::ext_witness_bytes;
use crate::protocols::faest_key_exp_cstrnts::{kef_elem, key_exp_fwd_spec};
use crate::protocols::faest_key_gen::{enc_sbox_ok, key_sbox_ok, keygen_ct, keygen_ok, schedule_bits};
use crate::protocols::faest_key_exp_cstrnts::{bkwd_seq, bkwd_x_tilde, ke_offset};
use crate::utils::bc_laws::{bc_byte, byte_bits, lemma_bc_mul, lemma_bc_one};
use crate::utils::galois_field::{gf28_mul_spec, gf_lambda_mul_spec, gf_one};
use crate::utils::gf_laws::lemma_bit_xor;
use crate::utils::helper_methods_cstrnts::{bc_bits, lemma_or_shifted_bits, or_shifted};
use crate::utils::math::{byte_of_bits, lemma_byte_bits_roundtrip};
use crate::protocols::constraint_correlation::{exp_sboxes_hold, lemma_exp_correlation, related};
use crate::protocols::faest_key_exp_cstrnts::{exp_a0, exp_a1, exp_b};
use crate::utils::hash_laws::{scale_blocks, xor_blocks};
use crate::protocols::enc_correlation::enc_sboxes_hold;
use crate::protocols::faest_prove_and_verify::enc_block;
use crate::protocols::faest_sign::{sign_ok, witness_bits};
use crate::protocols::faest_verify::verify_ok;
use crate::protocols::honest_proof::{lemma_honest_signature_verifies, witness_sboxes_hold};
use crate::protocols::honest_transcript::{leaf_zero_seeds_nonzero, lemma_witness_bits, sign_iv, sign_root_key};
use crate::utils::hash_functions::pack_bits;
use crate::utils::types::{Pk, Signature};
use crate::utils::gf_laws::lemma_bits_of_xor;
use crate::utils::hash_functions::{concat_seqs, lemma_concat_seqs_len16};
use crate::protocols::honest_transcript::lemma_key_word_len;
use crate::utils::math::{bit_of, bits_of_bytes, xor_seq};
use crate::utils::constants::{ell, l_ke, S_ke, LAMBDA};

verus! {

/// Entry `4 i + j` of a concatenation of four-byte strings is byte `j` of string `i`.
proof fn lemma_concat4_index(s: Seq<Seq<u8>>, i: int, j: int)
    requires
        forall|k: int| 0 <= k < s.len() ==> (#[trigger] s[k]).len() == 4,
        0 <= i < s.len(),
        0 <= j < 4,
    ensures
        concat_seqs(s)[4 * i + j] == s[i][j],
    decreases s.len(),
{
    let p = s.drop_last();
    assert forall|k: int| 0 <= k < p.len() implies (#[trigger] p[k]).len() == 4 by {
        assert(p[k] == s[k]);
    }
    lemma_concat_seqs_len16(p);
    if i < s.len() - 1 {
        lemma_concat4_index(p, i, j);
        assert(p[i] == s[i]);
    }
}

/// The key-schedule word bytes that the extended witness holds: the key itself (words 0 to 3),
/// then words 4, 8, ..., 40.
proof fn lemma_witness_word_byte(key: Seq<u8>, pt: Seq<u8>, i: int, b: int)
    requires
        key.len() == 16,
        0 <= b < 4,
        0 <= i < 4 || (i % 4 == 0 && 4 <= i <= 40),
    ensures
        ext_witness_bytes(key, pt).len() >= 56,
        ext_witness_bytes(key, pt)[if i < 4 { 4 * i + b } else { 16 + 4 * (i / 4 - 1) + b }] == key_word(key, i as nat)[b],
{
    let words = Seq::new(10, |t: int| key_word(key, (4 * (t + 1)) as nat));
    assert forall|t: int| 0 <= t < 10 implies (#[trigger] words[t]).len() == 4 by {
        lemma_key_word_len(key, (4 * (t + 1)) as nat);
    }
    lemma_concat_seqs_len16(words);
    let ext = ext_witness_bytes(key, pt);
    let rest = concat_seqs(
        Seq::new(
            9,
            |t: int|
                crate::protocols::aes::shift_rows_spec(
                    crate::protocols::aes::sub_bytes_spec(
                        crate::protocols::aes::aes_state_after(pt, crate::utils::prg::expanded_key(key), t as nat),
                    ),
                ),
        ),
    );
    assert(ext == key + concat_seqs(words) + rest);
    if i >= 4 {
        lemma_concat4_index(words, i / 4 - 1, b);
        assert(4 * (i / 4 - 1 + 1) == i);
    }
}

/// The bits of the extended witness of `key` that ExpFwd copies.
spec fn key_part(key: Seq<u8>, pt: Seq<u8>) -> Seq<u8> {
    bits_of_bytes(ext_witness_bytes(key, pt)).subrange(0, 448)
}

/// Bit `t` of the key schedule is bit `t % 8` of byte `(t % 32) / 8` of word `t / 32`.
proof fn lemma_schedule_bit(key: Seq<u8>, t: int)
    requires
        0 <= t < 1408,
    ensures
        schedule_bits(key)[t] == bit_of(key_word(key, (t / 32) as nat)[(t % 32) / 8], t % 8),
{
}

/// The first four key-schedule words are the key, as the witness holds it.
proof fn lemma_kef_low(key: Seq<u8>, pt: Seq<u8>, t: int)
    requires
        key.len() == 16,
        0 <= t < 128,
    ensures
        key_part(key, pt)[t] == schedule_bits(key)[t],
{
    let i = t / 32;
    let b = (t % 32) / 8;
    lemma_witness_word_byte(key, pt, i, b);
    lemma_schedule_bit(key, t);
    assert(t / 8 == 4 * i + b);
}

/// Words 4, 8, ..., 40 of the key schedule, as the witness holds them.
proof fn lemma_kef_word(key: Seq<u8>, pt: Seq<u8>, t: int)
    requires
        key.len() == 16,
        128 <= t < 1408,
        (t / 32) % 4 == 0,
    ensures
        key_part(key, pt)[LAMBDA + 32 * ((t / 32) / 4 - 1) + t % 32] == schedule_bits(key)[t],
{
    let i = t / 32;
    let b = (t % 32) / 8;
    let p = 128 + 32 * (i / 4 - 1) + t % 32;
    lemma_witness_word_byte(key, pt, i, b);
    lemma_schedule_bit(key, t);
    assert(p / 8 == 16 + 4 * (i / 4 - 1) + b && p % 8 == t % 8);
}

/// The other words are the sum of the word four before and the word before.
proof fn lemma_schedule_xor(key: Seq<u8>, t: int)
    requires
        key.len() == 16,
        128 <= t < 1408,
        (t / 32) % 4 != 0,
    ensures
        schedule_bits(key)[t] == schedule_bits(key)[t - 128] ^ schedule_bits(key)[t - 32],
{
    let i = t / 32;
    let b = (t % 32) / 8;
    let e = t % 8;
    let a = key_word(key, (i - 4) as nat);
    let c = key_word(key, (i - 1) as nat);
    lemma_key_word_len(key, (i - 4) as nat);
    lemma_key_word_len(key, (i - 1) as nat);
    assert(key_word(key, i as nat) == xor_seq(a, c));
    lemma_bits_of_xor(a, c);
    assert(bits_of_bytes(xor_seq(a, c))[8 * b + e] == bit_of(xor_seq(a, c)[b], e));
    assert(bits_of_bytes(a)[8 * b + e] == bit_of(a[b], e));
    assert(bits_of_bytes(c)[8 * b + e] == bit_of(c[b], e));
    lemma_schedule_bit(key, t);
    lemma_schedule_bit(key, t - 128);
    lemma_schedule_bit(key, t - 32);
    assert((t - 128) / 32 == i - 4 && ((t - 128) % 32) / 8 == b && (t - 128) % 8 == e);
    assert((t - 32) / 32 == i - 1 && ((t - 32) % 32) / 8 == b && (t - 32) % 8 == e);
}

/// ExpFwd of the key part of the extended witness gives the bits of the key schedule.
proof fn lemma_kef_schedule(key: Seq<u8>, pt: Seq<u8>, t: int)
    requires
        key.len() == 16,
        0 <= t < 1408,
    ensures
        kef_elem(key_part(key, pt), t) == schedule_bits(key)[t],
    decreases t,
{
    if t < 128 {
        lemma_kef_low(key, pt, t);
    } else if (t / 32) % 4 == 0 {
        lemma_kef_word(key, pt, t);
    } else {
        lemma_kef_schedule(key, pt, t - 128);
        lemma_kef_schedule(key, pt, t - 32);
        lemma_schedule_xor(key, t);
    }
}

/// ExpFwd of the key part of the extended witness of `key` is the bit string of its key schedule.
pub proof fn lemma_key_exp_fwd_schedule(key: Seq<u8>, pt: Seq<u8>)
    requires
        key.len() == 16,
    ensures
        key_exp_fwd_spec(bits_of_bytes(ext_witness_bytes(key, pt)).subrange(0, 448)) == schedule_bits(key),
{
    assert forall|t: int| 0 <= t < 1408 implies #[trigger] key_exp_fwd_spec(key_part(key, pt))[t] == schedule_bits(key)[t] by {
        lemma_kef_schedule(key, pt, t);
    }
    lemma_witness_word_byte(key, pt, 0, 0);
    assert(key_exp_fwd_spec(key_part(key, pt)) =~= schedule_bits(key));
}


/// For a key pair from key generation the witness satisfies the encryption S-box constraints:
/// key generation checks them on the witness with the key-schedule bits, which ExpFwd of the
/// witness reproduces.
pub proof fn lemma_keygen_enc_sboxes(key: Seq<u8>, pk: Pk)
    requires
        key.len() == 16,
        keygen_ok(key, pk),
    ensures
        enc_sboxes_hold(
            enc_block(witness_bits(key, pk), 0),
            key_exp_fwd_spec(witness_bits(key, pk).subrange(0, l_ke as int)),
            pk[0].0@,
            pk[0].1@,
        ),
{
    let pt = pack_bits(pk[0].0@);
    let w = witness_bits(key, pk);
    lemma_witness_bits(key, pk);
    lemma_key_exp_fwd_schedule(key, pt);
    assert(enc_block(w, 0) =~= w.subrange(l_ke as int, ell as int));
    assert(enc_sbox_ok(w, schedule_bits(key), bits_of_bytes(pt), bits_of_bytes(keygen_ct(key, pt))));
}

/// For a key pair from key generation the witness satisfies every S-box constraint.
pub proof fn lemma_keygen_witness_sboxes(key: Seq<u8>, pk: Pk)
    requires
        key.len() == 16,
        keygen_ok(key, pk),
    ensures
        witness_sboxes_hold(witness_bits(key, pk), pk),
{
    lemma_keygen_enc_sboxes(key, pk);
    lemma_keygen_exp_sboxes(key, pk);
}

/// A signature under a key pair from key generation is accepted, wherever no small-VOLE
/// instance has the all-zero seed at leaf 0.
pub proof fn lemma_keygen_signature_verifies(msg: Seq<u8>, key: Seq<u8>, pk: Pk, rho: Seq<u8>, sig: Signature)
    requires
        key.len() == 16,
        keygen_ok(key, pk),
        sign_ok(msg, key, pk, rho, sig),
        leaf_zero_seeds_nonzero(sign_root_key(msg, key, pk, rho), sign_iv(msg, key, pk, rho)),
    ensures
        verify_ok(msg, pk, sig),
{
    lemma_keygen_witness_sboxes(key, pk);
    lemma_honest_signature_verifies(msg, key, pk, rho, sig);
}

/// For the witness of a key pair from key generation, the key-schedule constraints on keys
/// q = v + w Delta are A_0 + Delta A_1.
pub proof fn lemma_keygen_exp_correlation(key: Seq<u8>, pk: Pk, v: Seq<[u8; 16]>, q: Seq<[u8; 16]>, dl: [u8; 16])
    requires
        key.len() == 16,
        keygen_ok(key, pk),
        v.len() == l_ke,
        q.len() == l_ke,
        forall|i: int| 0 <= i < l_ke ==> #[trigger] related(q[i], v[i], witness_bits(key, pk)[i], dl@),
    ensures
        exp_b(dl, q) == xor_blocks(
            exp_a0(witness_bits(key, pk).subrange(0, l_ke as int), v),
            scale_blocks(dl@, exp_a1(witness_bits(key, pk).subrange(0, l_ke as int), v)),
        ),
{
    let w = witness_bits(key, pk);
    lemma_witness_bits(key, pk);
    lemma_keygen_exp_sboxes(key, pk);
    let wk = w.subrange(0, l_ke as int);
    assert forall|i: int| 0 <= i < l_ke implies #[trigger] related(q[i], v[i], wk[i], dl@) by {
        assert(related(q[i], v[i], w[i], dl@));
    }
    lemma_exp_correlation(wk, v, q, dl);
}

/// ExpFwd reads the first 448 bits only.
proof fn lemma_kef_prefix(w: Seq<u8>, t: int)
    requires
        w.len() >= 448,
        0 <= t < 1408,
    ensures
        kef_elem(w, t) == kef_elem(w.subrange(0, 448), t),
    decreases t,
{
    if t >= 128 && (t / 32) % 4 != 0 {
        lemma_kef_prefix(w, t - 128);
        lemma_kef_prefix(w, t - 32);
    }
}

/// ExpFwd of bits gives bits.
proof fn lemma_kef_bits(w: Seq<u8>, t: int)
    requires
        w.len() >= 448,
        forall|i: int| 0 <= i < 448 ==> #[trigger] w[i] <= 1,
        0 <= t < 1408,
    ensures
        kef_elem(w, t) <= 1,
    decreases t,
{
    if t >= 128 && (t / 32) % 4 != 0 {
        lemma_kef_bits(w, t - 128);
        lemma_kef_bits(w, t - 32);
        lemma_bit_xor(kef_elem(w, t - 128), kef_elem(w, t - 32));
    }
}

/// ExpBkwd of bits gives bits.
proof fn lemma_bkwd_bits(x: Seq<u8>, k: Seq<u8>, t: int)
    requires
        x.len() >= 320,
        k.len() >= 1408,
        forall|i: int| 0 <= i < 320 ==> #[trigger] x[i] <= 1,
        forall|i: int| 0 <= i < 1408 ==> #[trigger] k[i] <= 1,
        0 <= t < 320,
    ensures
        bkwd_seq(x, k, false, false, 0u8, 0u8, 1u8)[t] <= 1,
{
    let j = t / 8;
    let i = t % 8;
    assert forall|a: int| 0 <= a < 8 implies #[trigger] bkwd_x_tilde(x, k, j, a, false, false, 0u8, 0u8, 1u8) <= 1 by {
        let base = x[8 * j + a] ^ k[128 * (j / 4) + 8 * (j % 4) + a];
        lemma_bit_xor(x[8 * j + a], k[128 * (j / 4) + 8 * (j % 4) + a]);
        lemma_bit_xor(base, 0u8);
        lemma_bit_xor(base, 1u8);
    }
    let x7 = bkwd_x_tilde(x, k, j, (i + 7) % 8, false, false, 0u8, 0u8, 1u8);
    let x5 = bkwd_x_tilde(x, k, j, (i + 5) % 8, false, false, 0u8, 0u8, 1u8);
    let x2 = bkwd_x_tilde(x, k, j, (i + 2) % 8, false, false, 0u8, 0u8, 1u8);
    lemma_bit_xor(x7, x5);
    lemma_bit_xor(x7 ^ x5, x2);
    lemma_bit_xor((x7 ^ x5) ^ x2, 1u8);
}

/// ExpBkwd reads the first 320 state bits only.
proof fn lemma_bkwd_prefix(x1: Seq<u8>, x2: Seq<u8>, k: Seq<u8>)
    requires
        x1.len() >= 320,
        x2.len() >= 320,
        forall|i: int| 0 <= i < 320 ==> #[trigger] x1[i] == x2[i],
    ensures
        bkwd_seq(x1, k, false, false, 0u8, 0u8, 1u8) == bkwd_seq(x2, k, false, false, 0u8, 0u8, 1u8),
{
    assert forall|t: int| 0 <= t < 320 implies #[trigger] bkwd_seq(x1, k, false, false, 0u8, 0u8, 1u8)[t]
        == bkwd_seq(x2, k, false, false, 0u8, 0u8, 1u8)[t] by {
        let j = t / 8;
        assert forall|a: int| 0 <= a < 8 implies #[trigger] bkwd_x_tilde(x1, k, j, a, false, false, 0u8, 0u8, 1u8)
            == bkwd_x_tilde(x2, k, j, a, false, false, 0u8, 0u8, 1u8) by {
            assert(x1[8 * j + a] == x2[8 * j + a]);
        }
    }
    assert(bkwd_seq(x1, k, false, false, 0u8, 0u8, 1u8) =~= bkwd_seq(x2, k, false, false, 0u8, 0u8, 1u8));
}

/// ByteCombine of eight bits is ByteCombine of the byte they pack into.
proof fn lemma_bc_bits_byte(s: Seq<u8>)
    requires
        s.len() == 8,
        forall|i: int| 0 <= i < 8 ==> #[trigger] s[i] <= 1,
    ensures
        bc_bits(s) == bc_byte(or_shifted(s, 8)),
{
    lemma_or_shifted_bits(s);
    let y = byte_of_bits(s);
    lemma_byte_bits_roundtrip(y, s[0], s[1], s[2], s[3], s[4], s[5], s[6], s[7]);
    assert(s =~= seq![s[0], s[1], s[2], s[3], s[4], s[5], s[6], s[7]]);
    assert(byte_bits(y) =~= s);
}

/// Key generation's check of the key-schedule S-boxes in F_{2^8} gives their constraints in
/// F_{2^128}: ByteCombine carries the product of the S-box input and output to one.
pub proof fn lemma_keygen_exp_sboxes(key: Seq<u8>, pk: Pk)
    requires
        key.len() == 16,
        keygen_ok(key, pk),
    ensures
        exp_sboxes_hold(witness_bits(key, pk).subrange(0, l_ke as int)),
{
    let w = witness_bits(key, pk);
    lemma_witness_bits(key, pk);
    let wk = w.subrange(0, l_ke as int);
    assert(key_sbox_ok(w));
    let k = key_exp_fwd_spec(wk);
    assert forall|t: int| 0 <= t < 1408 implies #[trigger] key_exp_fwd_spec(w)[t] == k[t] by {
        lemma_kef_prefix(w, t);
    }
    assert(key_exp_fwd_spec(w) =~= k);
    assert forall|i: int| 0 <= i < 448 implies #[trigger] wk[i] <= 1 by {
        assert(w[i] <= 1);
    }
    assert forall|t: int| 0 <= t < 1408 implies #[trigger] k[t] <= 1 by {
        lemma_kef_bits(wk, t);
    }
    let x1 = w.subrange(LAMBDA as int, ell as int);
    let x2 = wk.subrange(LAMBDA as int, l_ke as int);
    assert forall|i: int| 0 <= i < 320 implies #[trigger] x1[i] == x2[i] by {}
    lemma_bkwd_prefix(x1, x2, k);
    let wout = bkwd_seq(x2, k, false, false, 0u8, 0u8, 1u8);
    assert forall|i: int| 0 <= i < 320 implies #[trigger] x2[i] <= 1 by {
        assert(w[LAMBDA + i] <= 1);
    }
    assert forall|t: int| 0 <= t < 320 implies #[trigger] wout[t] <= 1 by {
        lemma_bkwd_bits(x2, k, t);
    }
    assert forall|t: int| 0 <= t < S_ke implies gf_lambda_mul_spec(
        #[trigger] bc_bits(k.subrange(ke_offset(t / 4, t % 4), ke_offset(t / 4, t % 4) + 8)),
        bc_bits(wout.subrange(32 * (t / 4) + 8 * (t % 4), 32 * (t / 4) + 8 * (t % 4) + 8)),
    ) == gf_one() by {
        let o = ke_offset(t / 4, t % 4);
        let p = 32 * (t / 4) + 8 * (t % 4);
        assert(p == 8 * t);
        let fin = k.subrange(o, o + 8);
        let fout = wout.subrange(p, p + 8);
        assert(0 <= o && o + 8 <= 1408);
        assert forall|i: int| 0 <= i < 8 implies #[trigger] fin[i] <= 1 by {
            assert(k[o + i] <= 1);
        }
        assert forall|i: int| 0 <= i < 8 implies #[trigger] fout[i] <= 1 by {
            assert(wout[p + i] <= 1);
        }
        lemma_bc_bits_byte(fin);
        lemma_bc_bits_byte(fout);
        let xb = or_shifted(fin, 8);
        let yb = or_shifted(fout, 8);
        assert(gf28_mul_spec(xb, yb) == 1);
        lemma_bc_mul(xb, yb);
        lemma_bc_one();
    }
}

} // verus!
