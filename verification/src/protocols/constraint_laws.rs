#![allow(non_snake_case, non_upper_case_globals)]

use vstd::prelude::*;
use crate::protocols::faest_key_enc_cstrnts::{
    enc_a0, enc_a1, enc_b, enc_bkwd_out, enc_bkwd_value, enc_bkwd_x_tilde, enc_bkwd_y_tilde, enc_fwd_round, enc_fwd_value, mix_row, public_bit_elem,
    public_byte_elems, small_constant, zero_elem,
};
use crate::protocols::faest_prove_and_verify::{enc_block, prove_a0, prove_a1, verify_b};
use crate::protocols::faest_key_exp_cstrnts::{bkwd_seq, bkwd_x_tilde, bkwd_y, exp_a0, exp_a1, exp_b, kef_elem, key_exp_fwd_spec, rcon_added};
use crate::utils::constants::{beta, l_enc, l_ke, ret_size_exp_bwd, ret_size_exp_fwd, s_enc, S_ke, LAMBDA};
use crate::utils::galois_field::{gf128_mul_spec, gf_lambda_pow_spec};
use crate::utils::gf_laws::{lemma_gf128_mul_comm, lemma_gf128_mul_distrib, lemma_gf128_mul_zero, zero_bytes};
use crate::utils::constants::alpha_spec;
use crate::utils::helper_methods_cstrnts::{alpha_pow_spec, bc_acc, bc_bits, bc_fields, bit_elems, field_elems};
use crate::utils::math::{lemma_xor_assoc, xor_seq};
use crate::utils::types::{lemma_xor16, value_of_one_in_bytes, value_of_zero_in_bytes, xor16, zero16, ByteOrBytesElem, BytesElem, Pk};

verus! {

/// Adding the zero field element changes nothing.
proof fn lemma_xor16_zero(x: [u8; 16])
    ensures
        xor16(x, value_of_zero_in_bytes) == x,
{
    let z = value_of_zero_in_bytes;
    assert forall|i: int| 0 <= i < 16 implies #[trigger] xor_seq(x@, z@)[i] == x@[i] by {
        lemma_xor_assoc(x@[i], 0, 0);
    }
    assert(x@ =~= xor_seq(x@, z@));
    lemma_xor16(x, z, x);
}

/// The zero array is the zero field element.
proof fn lemma_zero_array()
    ensures
        value_of_zero_in_bytes@ == zero_bytes(16),
        value_of_zero_in_bytes@ == zero16(),
{
    assert(value_of_zero_in_bytes@ =~= zero_bytes(16));
    assert(value_of_zero_in_bytes@ =~= zero16());
}

/// Adding the zero string of 16 bytes changes nothing.
proof fn lemma_xor_seq_zero(p: Seq<u8>)
    requires
        p.len() == 16,
    ensures
        xor_seq(p, zero_bytes(16)) == p,
        xor_seq(zero_bytes(16), p) == p,
{
    assert forall|i: int| 0 <= i < 16 implies #[trigger] xor_seq(p, zero_bytes(16))[i] == p[i] && xor_seq(zero_bytes(16), p)[i] == p[i] by {
        lemma_xor_assoc(p[i], 0, 0);
    }
    assert(xor_seq(p, zero_bytes(16)) =~= p);
    assert(xor_seq(zero_bytes(16), p) =~= p);
}

/// ByteCombine gives a field element of 16 bytes.
proof fn lemma_bc_acc_len(es: Seq<crate::utils::types::ByteOrBytesElem>, n: int)
    ensures
        bc_acc(es, n).len() == 16,
    decreases n,
{
    if n > 0 {
        lemma_bc_acc_len(es, n - 1);
    }
}

/// With Delta = 0 the ExpBkwd outputs of the verifier on keys q are the prover's ExpBkwd
/// outputs on tags q.
proof fn lemma_bkwd_zero_delta(x: Seq<[u8; 16]>, xk: Seq<[u8; 16]>)
    ensures
        bkwd_seq(x, xk, false, true, value_of_zero_in_bytes, value_of_zero_in_bytes, value_of_one_in_bytes)
            == bkwd_seq(x, xk, true, false, value_of_zero_in_bytes, value_of_zero_in_bytes, value_of_one_in_bytes),
{
    let z = value_of_zero_in_bytes;
    let one = value_of_one_in_bytes;
    assert forall|j: int, i: int| #![trigger bkwd_x_tilde(x, xk, j, i, false, true, z, z, one)]
        bkwd_x_tilde(x, xk, j, i, false, true, z, z, one) == bkwd_x_tilde(x, xk, j, i, true, false, z, z, one) by {
        let base = xor16(x[8 * j + i], xk[128 * (j / 4) + 8 * (j % 4) + i]);
        lemma_xor16_zero(base);
        assert(rcon_added(base, j, i, false, true, z, z, one) == base);
    }
    let a = bkwd_seq(x, xk, false, true, z, z, one);
    let b = bkwd_seq(x, xk, true, false, z, z, one);
    assert forall|t: int| 0 <= t < ret_size_exp_bwd implies #[trigger] a[t] == b[t] by {
        let j = t / 8;
        let i = t % 8;
        let s = xor16(
            xor16(bkwd_x_tilde(x, xk, j, (i + 7) % 8, false, true, z, z, one), bkwd_x_tilde(x, xk, j, (i + 5) % 8, false, true, z, z, one)),
            bkwd_x_tilde(x, xk, j, (i + 2) % 8, false, true, z, z, one),
        );
        lemma_xor16_zero(s);
        assert(bkwd_y(x, xk, j, i, false, true, z, z, one) == bkwd_y(x, xk, j, i, true, false, z, z, one));
    }
    assert(a =~= b);
}

/// With Delta = 0 and keys equal to the tags, the verifier's key-schedule constraint values B
/// are the prover's A_0 values.
pub proof fn lemma_exp_zero_delta(w: Seq<u8>, v: Seq<[u8; 16]>)
    ensures
        exp_b(value_of_zero_in_bytes, v) == exp_a0(w, v),
{
    let z = value_of_zero_in_bytes;
    let vk = key_exp_fwd_spec(v);
    lemma_bkwd_zero_delta(v.subrange(LAMBDA as int, l_ke as int), vk);
    lemma_zero_array();
    lemma_gf128_mul_zero(z@);
    let a = exp_b(z, v);
    let b = exp_a0(w, v);
    assert forall|t: int| 0 <= t < S_ke implies #[trigger] a[t] == b[t] by {
        let vout = bkwd_seq(v.subrange(LAMBDA as int, l_ke as int), vk, true, false, z, z, value_of_one_in_bytes);
        let o = crate::protocols::faest_key_exp_cstrnts::ke_offset(t / 4, t % 4);
        let p = 32 * (t / 4) + 8 * (t % 4);
        let f = bc_fields(vk.subrange(o, o + 8));
        let g = bc_fields(vout.subrange(p, p + 8));
        lemma_bc_acc_len(field_elems(vk.subrange(o, o + 8)), 8);
        lemma_bc_acc_len(field_elems(vout.subrange(p, p + 8)), 8);
        lemma_gf128_mul_distrib(f, f, g);
        lemma_xor_seq_zero(gf128_mul_spec(f, g));
    }
    assert(a =~= b);
}

/// ExpFwd of all-zero tags is all zero.
proof fn lemma_kef_zero(x: Seq<[u8; 16]>, t: int)
    requires
        x.len() == l_ke,
        forall|i: int| 0 <= i < x.len() ==> #[trigger] x[i] == value_of_zero_in_bytes,
        0 <= t < ret_size_exp_fwd,
    ensures
        kef_elem(x, t) == value_of_zero_in_bytes,
    decreases t,
{
    if t < LAMBDA {
    } else if (t / 32) % 4 == 0 {
        assert(0 <= LAMBDA + 32 * ((t / 32) / 4 - 1) + t % 32 < l_ke);
    } else {
        lemma_kef_zero(x, t - 128);
        lemma_kef_zero(x, t - 32);
        lemma_xor16_zero(value_of_zero_in_bytes);
    }
}

/// The powers of alpha are field elements of 16 bytes.
proof fn lemma_pow_len(base: Seq<u8>, n: int)
    requires
        base.len() == 16,
    ensures
        gf_lambda_pow_spec(base, n).len() == 16,
    decreases n,
{
    if n > 1 {
        lemma_pow_len(base, n - 1);
        lemma_gf128_mul_distrib(gf_lambda_pow_spec(base, n - 1), gf_lambda_pow_spec(base, n - 1), base);
    }
}

/// ByteCombine of zero field elements is zero.
proof fn lemma_bc_zero(s: Seq<[u8; 16]>, n: int)
    requires
        0 <= n <= 8,
        s.len() >= n,
        forall|i: int| 0 <= i < n ==> #[trigger] s[i] == value_of_zero_in_bytes,
    ensures
        bc_acc(field_elems(s), n) == zero16(),
    decreases n,
{
    if n > 0 {
        lemma_bc_zero(s, n - 1);
        lemma_zero_array();
        let a = alpha_pow_spec(n - 1);
        lemma_pow_len(alpha_spec(), n - 1);
        lemma_gf128_mul_comm(value_of_zero_in_bytes@, a);
        lemma_gf128_mul_zero(a);
        assert(field_elems(s)[n - 1].mul_alpha_spec(a) == zero16());
        lemma_xor_seq_zero(zero16());
    }
}

/// With all tags zero, the prover's key-schedule constraint values A_0 are all zero.
pub proof fn lemma_exp_zero_tags(w: Seq<u8>, v: Seq<[u8; 16]>)
    requires
        v.len() == l_ke,
        forall|i: int| 0 <= i < v.len() ==> #[trigger] v[i] == value_of_zero_in_bytes,
    ensures
        forall|t: int| 0 <= t < S_ke ==> #[trigger] exp_a0(w, v)[t] == zero16(),
{
    let z = value_of_zero_in_bytes;
    let one = value_of_one_in_bytes;
    let vk = key_exp_fwd_spec(v);
    let x = v.subrange(LAMBDA as int, l_ke as int);
    assert forall|t: int| 0 <= t < ret_size_exp_fwd implies #[trigger] vk[t] == z by {
        lemma_kef_zero(v, t);
    }
    let vout = bkwd_seq(x, vk, true, false, z, z, one);
    lemma_xor16_zero(z);
    assert forall|t: int| 0 <= t < ret_size_exp_bwd implies #[trigger] vout[t] == z by {
        let j = t / 8;
        assert forall|i: int| 0 <= i < 8 implies #[trigger] bkwd_x_tilde(x, vk, j, i, true, false, z, z, one) == z by {
            assert(x[8 * j + i] == z);
            assert(vk[128 * (j / 4) + 8 * (j % 4) + i] == z);
        }
        assert(bkwd_x_tilde(x, vk, j, (t % 8 + 7) % 8, true, false, z, z, one) == z);
        assert(bkwd_x_tilde(x, vk, j, (t % 8 + 5) % 8, true, false, z, z, one) == z);
        assert(bkwd_x_tilde(x, vk, j, (t % 8 + 2) % 8, true, false, z, z, one) == z);
    }
    lemma_zero_array();
    lemma_gf128_mul_zero(zero16());
    assert forall|t: int| 0 <= t < S_ke implies #[trigger] exp_a0(w, v)[t] == zero16() by {
        let o = crate::protocols::faest_key_exp_cstrnts::ke_offset(t / 4, t % 4);
        let p = 32 * (t / 4) + 8 * (t % 4);
        lemma_bc_zero(vk.subrange(o, o + 8), 8);
        lemma_bc_zero(vout.subrange(p, p + 8), 8);
    }
}

/// The constants of MixColumns are field elements of 16 bytes.
proof fn lemma_small_constant_len(b0: bool, b1: bool)
    ensures
        small_constant(b0, b1).len() == 16,
{
    lemma_bc_acc_len(
        Seq::new(
            8,
            |t: int|
                ByteOrBytesElem::Bytes(BytesElem(if (t == 0 && b0) || (t == 1 && b1) {
                    value_of_one_in_bytes
                } else {
                    value_of_zero_in_bytes
                })),
        ),
        8,
    );
}

/// EncFwd outputs are field elements of 16 bytes.
proof fn lemma_enc_fwd_len(x: Seq<ByteOrBytesElem>, x_k: Seq<ByteOrBytesElem>, in_out: Seq<u8>, mtag: bool, mkey: bool, delta: ByteOrBytesElem, t: int)
    ensures
        enc_fwd_value(x, x_k, in_out, mtag, mkey, delta, t).len() == 16,
{
    if t < 16 {
        lemma_bc_acc_len(public_byte_elems(in_out, t, mtag, mkey, delta, x[0]), 8);
    } else {
        let (j, c, r) = (t / 16, (t % 16) / 4, t % 4);
        let xh = Seq::new(4, |u: int| crate::protocols::faest_key_enc_cstrnts::bc_at(x, 128 * (j - 1) + 32 * c + 8 * u));
        let x0 = xh[0];
        lemma_bc_acc_len(x.subrange(128 * (j - 1) + 32 * c, 128 * (j - 1) + 32 * c + 8), 8);
        let m0 = if (0 - r + 4) % 4 == 0 { small_constant(false, true) } else if (0 - r + 4) % 4 == 1 { small_constant(true, true) } else { small_constant(true, false) };
        lemma_small_constant_len(false, true);
        lemma_small_constant_len(true, true);
        lemma_small_constant_len(true, false);
        assert(m0.len() == 16);
        lemma_gf128_mul_distrib(x0, x0, m0);
        assert(enc_fwd_round(x, x_k, j, c, r) == mix_row(xh, crate::protocols::faest_key_enc_cstrnts::bc_at(x_k, 128 * j + 32 * c + 8 * r), r));
    }
}

/// With Delta = 0, the verifier's encryption constraint values B on keys q are the prover's
/// A_0 values on tags q.
proof fn lemma_enc_zero_delta(v: Seq<[u8; 16]>, vk: Seq<[u8; 16]>, pt: Seq<u8>, ct: Seq<u8>)
    requires
        v.len() >= 1,
    ensures
        enc_b(v, vk, value_of_zero_in_bytes, pt, ct) == enc_a0(v, vk, pt, ct),
{
    let z = value_of_zero_in_bytes;
    let x = field_elems(v);
    let xk = field_elems(vk);
    let d = ByteOrBytesElem::Bytes(BytesElem(z));
    assert(d == zero_elem());
    assert(ByteOrBytesElem::dummy_spec(x[0]) == zero_elem());
    assert forall|bit: u8| #[trigger] public_bit_elem(bit, false, true, d, x[0]) == public_bit_elem(bit, true, false, zero_elem(), x[0]) by {}
    assert forall|io: Seq<u8>, i: int| #[trigger] public_byte_elems(io, i, false, true, d, x[0]) == public_byte_elems(io, i, true, false, zero_elem(), x[0]) by {
        assert(public_byte_elems(io, i, false, true, d, x[0]) =~= public_byte_elems(io, i, true, false, zero_elem(), x[0]));
    }
    assert forall|t: int| #[trigger] enc_fwd_value(x, xk, pt, false, true, d, t) == enc_fwd_value(x, xk, pt, true, false, zero_elem(), t) by {}
    assert forall|t: int| #[trigger] enc_bkwd_value(x, xk, ct, false, true, d, t) == enc_bkwd_value(x, xk, ct, true, false, zero_elem(), t) by {
        let (j, c, r) = (t / 16, (t % 16) / 4, t % 4);
        assert forall|i: int| #[trigger] enc_bkwd_x_tilde(x, xk, ct, false, true, d, j, c, r, i) == enc_bkwd_x_tilde(x, xk, ct, true, false, zero_elem(), j, c, r, i) by {}
        let ya = Seq::new(8, |i: int| enc_bkwd_y_tilde(x, xk, ct, false, true, d, j, c, r, i));
        let yb = Seq::new(8, |i: int| enc_bkwd_y_tilde(x, xk, ct, true, false, zero_elem(), j, c, r, i));
        assert forall|i: int| 0 <= i < 8 implies #[trigger] ya[i] == yb[i] by {
            assert(enc_bkwd_x_tilde(x, xk, ct, false, true, d, j, c, r, (i + 7) % 8) == enc_bkwd_x_tilde(x, xk, ct, true, false, zero_elem(), j, c, r, (i + 7) % 8));
            assert(enc_bkwd_x_tilde(x, xk, ct, false, true, d, j, c, r, (i + 5) % 8) == enc_bkwd_x_tilde(x, xk, ct, true, false, zero_elem(), j, c, r, (i + 5) % 8));
            assert(enc_bkwd_x_tilde(x, xk, ct, false, true, d, j, c, r, (i + 2) % 8) == enc_bkwd_x_tilde(x, xk, ct, true, false, zero_elem(), j, c, r, (i + 2) % 8));
        }
        assert(ya =~= yb);
        assert(enc_bkwd_out(x, xk, ct, false, true, d, j, c, r) == enc_bkwd_out(x, xk, ct, true, false, zero_elem(), j, c, r));
    }
    lemma_zero_array();
    lemma_gf128_mul_zero(z@);
    let a = enc_b(v, vk, z, pt, ct);
    let b = enc_a0(v, vk, pt, ct);
    assert forall|t: int| 0 <= t < s_enc implies #[trigger] a[t] == b[t] by {
        let f = enc_fwd_value(x, xk, pt, true, false, zero_elem(), t);
        let g = enc_bkwd_value(x, xk, ct, true, false, zero_elem(), t);
        lemma_enc_fwd_len(x, xk, pt, true, false, zero_elem(), t);
        let (j, c, r) = (t / 16, (t % 16) / 4, t % 4);
        lemma_bc_acc_len(Seq::new(8, |i: int| enc_bkwd_y_tilde(x, xk, ct, true, false, zero_elem(), j, c, r, i)), 8);
        assert(g.len() == 16);
        lemma_gf128_mul_distrib(f, f, g);
        lemma_xor_seq_zero(gf128_mul_spec(f, g));
        assert(enc_fwd_value(x, xk, pt, false, true, d, t) == f);
        assert(enc_bkwd_value(x, xk, ct, false, true, d, t) == g);
    }
    assert(a =~= b);
}

/// With Delta = 0 and keys equal to the tags, the verifier's constraint values B (key schedule
/// and encryption) are the prover's A_0 values: the constraint system adds Delta times A_1 and
/// nothing else.
pub proof fn lemma_constraints_zero_delta(w: Seq<u8>, v: Seq<[u8; 16]>, pk: Pk)
    requires
        v.len() >= l_ke + beta * l_enc,
    ensures
        verify_b(v, value_of_zero_in_bytes, pk) == prove_a0(w, v, pk),
{
    let v_ke = v.subrange(0, l_ke as int);
    let vk = key_exp_fwd_spec(v_ke);
    lemma_exp_zero_delta(w.subrange(0, l_ke as int), v_ke);
    assert(enc_block(v, 0).len() == l_enc);
    lemma_enc_zero_delta(enc_block(v, 0), vk, pk[0].0@, pk[0].1@);
    let a = verify_b(v, value_of_zero_in_bytes, pk);
    let b = prove_a0(w, v, pk);
    assert forall|t: int| 0 <= t < a.len() implies #[trigger] a[t] == b[t] by {
        if t >= S_ke {
            let u = t - S_ke;
            assert(u / s_enc as int == 0);
        }
    }
    assert(a =~= b);
}

/// The constraint values A_0 and A_1 of the prover: as many of each, every one a field element
/// of 16 bytes.
pub proof fn lemma_constraint_value_lens(w: Seq<u8>, v: Seq<[u8; 16]>, pk: Pk)
    ensures
        prove_a0(w, v, pk).len() == prove_a1(w, v, pk).len(),
        forall|t: int| 0 <= t < prove_a0(w, v, pk).len() ==> (#[trigger] prove_a0(w, v, pk)[t]).len() == 16 && prove_a1(w, v, pk)[t].len() == 16,
{
    let a0 = prove_a0(w, v, pk);
    let a1 = prove_a1(w, v, pk);
    let w_ke = w.subrange(0, l_ke as int);
    let v_ke = v.subrange(0, l_ke as int);
    let k = key_exp_fwd_spec(w_ke);
    let vk = key_exp_fwd_spec(v_ke);
    assert forall|t: int| 0 <= t < a0.len() implies (#[trigger] a0[t]).len() == 16 && a1[t].len() == 16 by {
        if t < S_ke {
            let o = crate::protocols::faest_key_exp_cstrnts::ke_offset(t / 4, t % 4);
            let p = 32 * (t / 4) + 8 * (t % 4);
            let wout = bkwd_seq(w_ke.subrange(LAMBDA as int, l_ke as int), k, false, false, 0u8, 0u8, 1u8);
            let vout = bkwd_seq(v_ke.subrange(LAMBDA as int, l_ke as int), vk, true, false, value_of_zero_in_bytes, value_of_zero_in_bytes, value_of_one_in_bytes);
            let f = bc_fields(vk.subrange(o, o + 8));
            let g = bc_fields(vout.subrange(p, p + 8));
            let fb = bc_bits(k.subrange(o, o + 8));
            let gb = bc_bits(wout.subrange(p, p + 8));
            lemma_bc_acc_len(field_elems(vk.subrange(o, o + 8)), 8);
            lemma_bc_acc_len(field_elems(vout.subrange(p, p + 8)), 8);
            lemma_bc_acc_len(bit_elems(k.subrange(o, o + 8)), 8);
            lemma_bc_acc_len(bit_elems(wout.subrange(p, p + 8)), 8);
            lemma_gf128_mul_distrib(f, f, g);
            lemma_gf128_mul_distrib(xor_seq(fb, f), xor_seq(fb, f), xor_seq(gb, g));
            assert(a0[t] == exp_a0(w_ke, v_ke)[t]);
            assert(a1[t] == exp_a1(w_ke, v_ke)[t]);
        } else {
            let u = t - S_ke;
            let b = u / s_enc as int;
            let tt = u % s_enc as int;
            let vb = enc_block(v, b);
            let wb = enc_block(w, b);
            let zb = ByteOrBytesElem::Byte(crate::utils::types::ByteElem(0));
            let pt = pk[b].0@;
            let ct = pk[b].1@;
            let f = enc_fwd_value(field_elems(vb), field_elems(vk), pt, true, false, zero_elem(), tt);
            let g = enc_bkwd_value(field_elems(vb), field_elems(vk), ct, true, false, zero_elem(), tt);
            let fw = enc_fwd_value(bit_elems(wb), bit_elems(k), pt, false, false, zb, tt);
            let gw = enc_bkwd_value(bit_elems(wb), bit_elems(k), ct, false, false, zb, tt);
            lemma_enc_fwd_len(field_elems(vb), field_elems(vk), pt, true, false, zero_elem(), tt);
            lemma_enc_fwd_len(bit_elems(wb), bit_elems(k), pt, false, false, zb, tt);
            let (j, c, r) = (tt / 16, (tt % 16) / 4, tt % 4);
            lemma_bc_acc_len(Seq::new(8, |i: int| enc_bkwd_y_tilde(field_elems(vb), field_elems(vk), ct, true, false, zero_elem(), j, c, r, i)), 8);
            lemma_bc_acc_len(Seq::new(8, |i: int| enc_bkwd_y_tilde(bit_elems(wb), bit_elems(k), ct, false, false, zb, j, c, r, i)), 8);
            assert(g.len() == 16);
            assert(gw.len() == 16);
            lemma_gf128_mul_distrib(f, f, g);
            lemma_gf128_mul_distrib(xor_seq(fw, f), xor_seq(fw, f), xor_seq(gw, g));
            assert(a0[t] == enc_a0(vb, vk, pt, ct)[tt]);
            assert(a1[t] == enc_a1(wb, vb, k, vk, pt, ct)[tt]);
        }
    }
}

} // verus!
