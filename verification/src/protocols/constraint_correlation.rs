#![allow(non_snake_case, non_upper_case_globals)]

use vstd::prelude::*;
use crate::protocols::faest_key_exp_cstrnts::{bkwd_seq, bkwd_x_tilde, exp_a0, exp_a1, exp_b, ke_offset, kef_elem, key_exp_fwd_spec, rcon_added};
use crate::utils::constants::alpha_spec;
use crate::utils::galois_field::gf_lambda_pow_spec;
use crate::utils::hash_laws::{lemma_xor_seq_swap, scale_blocks, xor_blocks};
use crate::utils::helper_methods_cstrnts::{alpha_pow_spec, bc_acc, bc_bits, bc_fields, bit_elems, field_elems};
use crate::utils::constants::{l_ke, ret_size_exp_bwd, ret_size_exp_fwd, S_ke, LAMBDA};
use crate::utils::galois_field::{gf_lambda_mul_spec, gf_one};
use crate::utils::gf_assoc::lemma_gf128_mul_assoc;
use crate::utils::gf_laws::{lemma_gf128_mul_comm, lemma_gf128_mul_distrib, lemma_gf128_mul_one, lemma_gf128_mul_zero, zero_bytes};
use crate::utils::math::{lemma_xor_assoc, xor_seq};
use crate::utils::types::{lemma_xor16, value_of_one_in_bytes, value_of_zero_in_bytes, xor16, ByteOrBytesElem};
use vstd::array::{spec_array_fill_for_copy_type, spec_array_update};

verus! {

/// Exclusive or on field elements of 16 bytes: associative, commutative, zero, self-inverse.
pub(crate) proof fn lemma_xs(a: Seq<u8>, b: Seq<u8>, c: Seq<u8>)
    requires
        a.len() == 16,
        b.len() == 16,
        c.len() == 16,
    ensures
        xor_seq(xor_seq(a, b), c) == xor_seq(a, xor_seq(b, c)),
        xor_seq(a, b) == xor_seq(b, a),
        xor_seq(a, zero_bytes(16)) == a,
        xor_seq(a, a) == zero_bytes(16),
{
    assert forall|i: int| 0 <= i < 16 implies #[trigger] xor_seq(xor_seq(a, b), c)[i] == xor_seq(a, xor_seq(b, c))[i] by {
        lemma_xor_assoc(a[i], b[i], c[i]);
    }
    assert forall|i: int| 0 <= i < 16 implies #[trigger] xor_seq(a, b)[i] == xor_seq(b, a)[i] by {
        lemma_xor_assoc(a[i], b[i], c[i]);
    }
    assert forall|i: int| 0 <= i < 16 implies #[trigger] xor_seq(a, zero_bytes(16))[i] == a[i] by {
        lemma_xor_assoc(a[i], b[i], c[i]);
    }
    assert forall|i: int| 0 <= i < 16 implies #[trigger] xor_seq(a, a)[i] == zero_bytes(16)[i] by {
        lemma_xor_assoc(a[i], b[i], c[i]);
    }
    assert(xor_seq(xor_seq(a, b), c) =~= xor_seq(a, xor_seq(b, c)));
    assert(xor_seq(a, b) =~= xor_seq(b, a));
    assert(xor_seq(a, zero_bytes(16)) =~= a);
    assert(xor_seq(a, a) =~= zero_bytes(16));
}

/// a (d b) = d (a b).
pub(crate) proof fn lemma_swap(d: Seq<u8>, a: Seq<u8>, b: Seq<u8>)
    requires
        d.len() == 16,
        a.len() == 16,
        b.len() == 16,
    ensures
        gf_lambda_mul_spec(a, gf_lambda_mul_spec(d, b)) == gf_lambda_mul_spec(d, gf_lambda_mul_spec(a, b)),
        gf_lambda_mul_spec(gf_lambda_mul_spec(d, a), b) == gf_lambda_mul_spec(d, gf_lambda_mul_spec(a, b)),
{
    lemma_gf128_mul_assoc(a, d, b);
    lemma_gf128_mul_assoc(d, a, b);
    lemma_gf128_mul_comm(a, d);
}

/// (a + b)(c + e) = (a c + a e) + (b c + b e).
proof fn lemma_expand(a: Seq<u8>, b: Seq<u8>, c: Seq<u8>, e: Seq<u8>)
    requires
        a.len() == 16,
        b.len() == 16,
        c.len() == 16,
        e.len() == 16,
    ensures
        gf_lambda_mul_spec(xor_seq(a, b), xor_seq(c, e)) == xor_seq(
            xor_seq(gf_lambda_mul_spec(a, c), gf_lambda_mul_spec(a, e)),
            xor_seq(gf_lambda_mul_spec(b, c), gf_lambda_mul_spec(b, e)),
        ),
        gf_lambda_mul_spec(a, c).len() == 16,
{
    lemma_gf128_mul_distrib(a, b, xor_seq(c, e));
    lemma_gf128_mul_distrib(c, e, a);
    lemma_gf128_mul_distrib(c, e, b);
}

/// The cross terms with d: fv (d gw) = d (fv gw), (d fw) gv = d (fw gv), (d fw)(d gw) = d d.
proof fn lemma_cross(fv: Seq<u8>, gv: Seq<u8>, fw: Seq<u8>, gw: Seq<u8>, d: Seq<u8>)
    requires
        fv.len() == 16,
        gv.len() == 16,
        fw.len() == 16,
        gw.len() == 16,
        d.len() == 16,
        gf_lambda_mul_spec(fw, gw) == gf_one(),
    ensures
        gf_lambda_mul_spec(fv, gf_lambda_mul_spec(d, gw)) == gf_lambda_mul_spec(d, gf_lambda_mul_spec(fv, gw)),
        gf_lambda_mul_spec(gf_lambda_mul_spec(d, fw), gv) == gf_lambda_mul_spec(d, gf_lambda_mul_spec(fw, gv)),
        gf_lambda_mul_spec(gf_lambda_mul_spec(d, fw), gf_lambda_mul_spec(d, gw)) == gf_lambda_mul_spec(d, d),
{
    lemma_swap(d, fv, gw);
    lemma_swap(d, fw, gv);
    lemma_gf128_mul_distrib(d, d, gw);
    lemma_swap(d, fw, gf_lambda_mul_spec(d, gw));
    lemma_swap(d, fw, gw);
    lemma_gf128_mul_one(d);
}

/// Where z = 1: ((z + y) + (x + p)) + (1 + p) = y + x.
proof fn lemma_a1_terms(z: Seq<u8>, y: Seq<u8>, x: Seq<u8>, p: Seq<u8>)
    requires
        z.len() == 16,
        y.len() == 16,
        x.len() == 16,
        p.len() == 16,
    ensures
        xor_seq(xor_seq(xor_seq(z, y), xor_seq(x, p)), xor_seq(z, p)) == xor_seq(y, x),
{
    assert forall|i: int| 0 <= i < 16 implies #[trigger] xor_seq(xor_seq(xor_seq(z, y), xor_seq(x, p)), xor_seq(z, p))[i] == xor_seq(y, x)[i] by {
        let (a, b, c, e) = (z[i], y[i], x[i], p[i]);
        crate::utils::gf_laws::lemma_xor_swap(a ^ b, c ^ e, a, e);
        crate::utils::gf_laws::lemma_xor_swap(a, b, a, 0);
        lemma_xor_assoc(a, a, 0);
        lemma_xor_assoc(c, e, e);
        lemma_xor_assoc(e, 0, 0);
        lemma_xor_assoc(c, 0, 0);
        lemma_xor_assoc(b, 0, 0);
        lemma_xor_assoc(0, b, 0);
        lemma_xor_assoc(b, c, 0);
    }
    assert(xor_seq(xor_seq(xor_seq(z, y), xor_seq(x, p)), xor_seq(z, p)) =~= xor_seq(y, x));
}

/// ((p + dx) + (dy + dd)) + dd = p + (dy + dx).
proof fn lemma_b_terms(p: Seq<u8>, dx: Seq<u8>, dy: Seq<u8>, dd: Seq<u8>)
    requires
        p.len() == 16,
        dx.len() == 16,
        dy.len() == 16,
        dd.len() == 16,
    ensures
        xor_seq(xor_seq(xor_seq(p, dx), xor_seq(dy, dd)), dd) == xor_seq(p, xor_seq(dy, dx)),
{
    assert forall|i: int| 0 <= i < 16 implies #[trigger] xor_seq(xor_seq(xor_seq(p, dx), xor_seq(dy, dd)), dd)[i] == xor_seq(p, xor_seq(dy, dx))[i] by {
        let (a, b, c, e) = (p[i], dx[i], dy[i], dd[i]);
        lemma_xor_assoc(a ^ b, c ^ e, e);
        lemma_xor_assoc(c, e, e);
        lemma_xor_assoc(e, 0, 0);
        lemma_xor_assoc(c, 0, 0);
        lemma_xor_assoc(a, b, c);
        lemma_xor_assoc(b, c, 0);
        lemma_xor_assoc(a, c, b);
    }
    assert(xor_seq(xor_seq(xor_seq(p, dx), xor_seq(dy, dd)), dd) =~= xor_seq(p, xor_seq(dy, dx)));
}

/// The product of one S-box constraint on correlated values: where F_w G_w = 1,
/// (F_v + d F_w)(G_v + d G_w) + d d = F_v G_v + d ((F_w + F_v)(G_w + G_v) + (1 + F_v G_v)).
pub proof fn lemma_sbox_product(fv: Seq<u8>, gv: Seq<u8>, fw: Seq<u8>, gw: Seq<u8>, d: Seq<u8>)
    requires
        fv.len() == 16,
        gv.len() == 16,
        fw.len() == 16,
        gw.len() == 16,
        d.len() == 16,
        gf_lambda_mul_spec(fw, gw) == gf_one(),
    ensures
        xor_seq(
            gf_lambda_mul_spec(xor_seq(fv, gf_lambda_mul_spec(d, fw)), xor_seq(gv, gf_lambda_mul_spec(d, gw))),
            gf_lambda_mul_spec(d, d),
        ) == xor_seq(
            gf_lambda_mul_spec(fv, gv),
            gf_lambda_mul_spec(
                d,
                xor_seq(gf_lambda_mul_spec(xor_seq(fw, fv), xor_seq(gw, gv)), xor_seq(gf_one(), gf_lambda_mul_spec(fv, gv))),
            ),
        ),
{
    let dfw = gf_lambda_mul_spec(d, fw);
    let dgw = gf_lambda_mul_spec(d, gw);
    lemma_gf128_mul_distrib(d, d, fw);
    lemma_gf128_mul_distrib(d, d, gw);
    lemma_expand(fv, dfw, gv, dgw);
    lemma_cross(fv, gv, fw, gw, d);
    lemma_expand(fw, fv, gw, gv);
    lemma_expand(fv, fw, gv, gw);
    lemma_expand(fw, fv, gv, gw);
    let p = gf_lambda_mul_spec(fv, gv);
    let x = gf_lambda_mul_spec(fv, gw);
    let y = gf_lambda_mul_spec(fw, gv);
    lemma_gf128_mul_distrib(fv, fv, gw);
    lemma_gf128_mul_distrib(fw, fw, gv);
    lemma_gf128_mul_distrib(fv, fv, gv);
    assert(gf_one().len() == 16);
    lemma_a1_terms(gf_one(), y, x, p);
    lemma_gf128_mul_distrib(d, d, x);
    lemma_gf128_mul_distrib(d, d, y);
    lemma_gf128_mul_distrib(y, x, d);
    lemma_gf128_mul_distrib(d, d, d);
    lemma_b_terms(p, gf_lambda_mul_spec(d, x), gf_lambda_mul_spec(d, y), gf_lambda_mul_spec(d, d));
}

/// d times a bit: d or zero.
pub open spec fn emb(b: u8, d: Seq<u8>) -> Seq<u8> {
    if b == 1 { d } else { zero_bytes(16) }
}

/// The key of a field element q relates to its tag v and its bit w as q = v + w d.
pub open spec fn related(q: [u8; 16], v: [u8; 16], w: u8, d: Seq<u8>) -> bool {
    &&& w <= 1
    &&& q@ == xor_seq(v@, emb(w, d))
}

/// An array of 16 bytes with the given first `n` bytes.
spec fn array_with(s: Seq<u8>, n: int) -> [u8; 16]
    decreases n,
{
    if n <= 0 {
        spec_array_fill_for_copy_type::<u8, 16>(0u8)
    } else {
        spec_array_update(array_with(s, n - 1), n - 1, s[n - 1])
    }
}

proof fn lemma_array_with(s: Seq<u8>, n: int)
    requires
        0 <= n <= 16,
        s.len() == 16,
    ensures
        forall|i: int| 0 <= i < n ==> #[trigger] array_with(s, n)@[i] == s[i],
        array_with(s, n)@.len() == 16,
    decreases n,
{
    broadcast use vstd::array::axiom_spec_array_update, vstd::array::axiom_spec_array_fill_for_copy_type;
    if n > 0 {
        lemma_array_with(s, n - 1);
    } else {
        assert(spec_array_fill_for_copy_type::<u8, 16>(0u8)@.len() == 16);
    }
}

/// The bytes of the exclusive or of two arrays.
pub(crate) proof fn lemma_xor16_view(x: [u8; 16], y: [u8; 16])
    ensures
        xor16(x, y)@ == xor_seq(x@, y@),
{
    let s = xor_seq(x@, y@);
    lemma_array_with(s, 16);
    assert(array_with(s, 16)@ =~= s);
    lemma_xor16(x, y, array_with(s, 16));
}

/// Sums of related elements are related.
pub(crate) proof fn lemma_related_xor(q1: [u8; 16], v1: [u8; 16], w1: u8, q2: [u8; 16], v2: [u8; 16], w2: u8, d: Seq<u8>)
    requires
        related(q1, v1, w1, d),
        related(q2, v2, w2, d),
        d.len() == 16,
    ensures
        related(xor16(q1, q2), xor16(v1, v2), w1 ^ w2, d),
{
    lemma_xor16_view(q1, q2);
    lemma_xor16_view(v1, v2);
    crate::utils::gf_laws::lemma_bit_xor(w1, w2);
    crate::utils::hash_laws::lemma_xor_seq_swap(v1@, emb(w1, d), v2@, emb(w2, d));
    lemma_xs(d, d, d);
    lemma_xs(zero_bytes(16), zero_bytes(16), zero_bytes(16));
    lemma_xs(d, zero_bytes(16), zero_bytes(16));
    lemma_xs(zero_bytes(16), d, zero_bytes(16));
    lemma_xor_assoc(1, 1, 0);
    lemma_xor_assoc(1, 0, 0);
    lemma_xor_assoc(0, 1, 0);
    lemma_xor_assoc(0, 0, 0);
}

/// Adding the key d (or the wire value one) to a related element keeps it related.
proof fn lemma_related_const(q: [u8; 16], v: [u8; 16], w: u8, dq: [u8; 16], c: u8, d: Seq<u8>)
    requires
        related(q, v, w, d),
        c <= 1,
        dq@ == emb(c, d),
        d.len() == 16,
    ensures
        related(xor16(q, dq), v, w ^ c, d),
{
    lemma_xor16_view(q, dq);
    crate::utils::gf_laws::lemma_bit_xor(w, c);
    lemma_xs(v@, emb(w, d), emb(c, d));
    lemma_xs(d, d, d);
    lemma_xs(zero_bytes(16), zero_bytes(16), zero_bytes(16));
    lemma_xs(d, zero_bytes(16), zero_bytes(16));
    lemma_xs(zero_bytes(16), d, zero_bytes(16));
    lemma_xor_assoc(1, 1, 0);
    lemma_xor_assoc(1, 0, 0);
    lemma_xor_assoc(0, 1, 0);
    lemma_xor_assoc(0, 0, 0);
}

/// ExpFwd keeps keys, tags and bits related.
proof fn lemma_kef_related(q: Seq<[u8; 16]>, v: Seq<[u8; 16]>, w: Seq<u8>, d: Seq<u8>, t: int)
    requires
        q.len() == l_ke,
        v.len() == l_ke,
        w.len() == l_ke,
        d.len() == 16,
        forall|i: int| 0 <= i < l_ke ==> #[trigger] related(q[i], v[i], w[i], d),
        0 <= t < ret_size_exp_fwd,
    ensures
        related(kef_elem(q, t), kef_elem(v, t), kef_elem(w, t), d),
    decreases t,
{
    if t < LAMBDA {
        assert(related(q[t], v[t], w[t], d));
    } else if (t / 32) % 4 == 0 {
        let i = LAMBDA + 32 * ((t / 32) / 4 - 1) + t % 32;
        assert(0 <= i < l_ke);
        assert(related(q[i], v[i], w[i], d));
    } else {
        lemma_kef_related(q, v, w, d, t - 128);
        lemma_kef_related(q, v, w, d, t - 32);
        lemma_related_xor(kef_elem(q, t - 128), kef_elem(v, t - 128), kef_elem(w, t - 128), kef_elem(q, t - 32), kef_elem(v, t - 32), kef_elem(w, t - 32), d);
    }
}

/// ExpFwd of related vectors is related.
pub(crate) proof fn lemma_key_exp_fwd_related(q: Seq<[u8; 16]>, v: Seq<[u8; 16]>, w: Seq<u8>, d: Seq<u8>)
    requires
        q.len() == l_ke,
        v.len() == l_ke,
        w.len() == l_ke,
        d.len() == 16,
        forall|i: int| 0 <= i < l_ke ==> #[trigger] related(q[i], v[i], w[i], d),
    ensures
        forall|t: int| 0 <= t < ret_size_exp_fwd ==> #[trigger] related(key_exp_fwd_spec(q)[t], key_exp_fwd_spec(v)[t], key_exp_fwd_spec(w)[t], d),
{
    assert forall|t: int| 0 <= t < ret_size_exp_fwd implies #[trigger] related(key_exp_fwd_spec(q)[t], key_exp_fwd_spec(v)[t], key_exp_fwd_spec(w)[t], d) by {
        lemma_kef_related(q, v, w, d, t);
    }
}

/// The zero and one arrays.
proof fn lemma_const_arrays()
    ensures
        value_of_zero_in_bytes@ == zero_bytes(16),
        value_of_zero_in_bytes@ == emb(0, value_of_zero_in_bytes@),
{
    assert(value_of_zero_in_bytes@ =~= zero_bytes(16));
}

/// The recovered S-box input bits of ExpBkwd keep keys, tags and bits related.
proof fn lemma_bkwd_x_related(
    xq: Seq<[u8; 16]>,
    xkq: Seq<[u8; 16]>,
    xv: Seq<[u8; 16]>,
    xkv: Seq<[u8; 16]>,
    xw: Seq<u8>,
    xkw: Seq<u8>,
    dl: [u8; 16],
    j: int,
    i: int,
)
    requires
        0 <= j < 40,
        0 <= i < 8,
        xq.len() == 320 && xv.len() == 320 && xw.len() == 320,
        xkq.len() == ret_size_exp_fwd && xkv.len() == ret_size_exp_fwd && xkw.len() == ret_size_exp_fwd,
        forall|k: int| 0 <= k < 320 ==> #[trigger] related(xq[k], xv[k], xw[k], dl@),
        forall|k: int| 0 <= k < ret_size_exp_fwd ==> #[trigger] related(xkq[k], xkv[k], xkw[k], dl@),
    ensures
        related(
            bkwd_x_tilde(xq, xkq, j, i, false, true, dl, value_of_zero_in_bytes, value_of_one_in_bytes),
            bkwd_x_tilde(xv, xkv, j, i, true, false, value_of_zero_in_bytes, value_of_zero_in_bytes, value_of_one_in_bytes),
            bkwd_x_tilde(xw, xkw, j, i, false, false, 0u8, 0u8, 1u8),
            dl@,
        ),
{
    let a = 8 * j + i;
    let b = 128 * (j / 4) + 8 * (j % 4) + i;
    assert(related(xq[a], xv[a], xw[a], dl@));
    assert(related(xkq[b], xkv[b], xkw[b], dl@));
    lemma_related_xor(xq[a], xv[a], xw[a], xkq[b], xkv[b], xkw[b], dl@);
    let bq = xor16(xq[a], xkq[b]);
    let bv = xor16(xv[a], xkv[b]);
    let bw = xw[a] ^ xkw[b];
    if j % 4 == 0 {
        let rb = crate::utils::math::bit_of(crate::protocols::aes::rcon_spec()[j / 4], i);
        let c: u8 = if rb == 0 { 0u8 } else { 1u8 };
        let dq = if rb == 0 { value_of_zero_in_bytes } else { dl };
        lemma_const_arrays();
        lemma_related_const(bq, bv, bw, dq, c, dl@);
        assert(rcon_added(bq, j, i, false, true, dl, value_of_zero_in_bytes, value_of_one_in_bytes) == xor16(bq, dq));
        assert(rcon_added(bw, j, i, false, false, 0u8, 0u8, 1u8) == bw ^ c);
    }
}

/// ExpBkwd keeps keys, tags and bits related.
proof fn lemma_bkwd_seq_related(
    xq: Seq<[u8; 16]>,
    xkq: Seq<[u8; 16]>,
    xv: Seq<[u8; 16]>,
    xkv: Seq<[u8; 16]>,
    xw: Seq<u8>,
    xkw: Seq<u8>,
    dl: [u8; 16],
)
    requires
        xq.len() == 320 && xv.len() == 320 && xw.len() == 320,
        xkq.len() == ret_size_exp_fwd && xkv.len() == ret_size_exp_fwd && xkw.len() == ret_size_exp_fwd,
        forall|k: int| 0 <= k < 320 ==> #[trigger] related(xq[k], xv[k], xw[k], dl@),
        forall|k: int| 0 <= k < ret_size_exp_fwd ==> #[trigger] related(xkq[k], xkv[k], xkw[k], dl@),
    ensures
        forall|t: int| 0 <= t < ret_size_exp_bwd ==> #[trigger] related(
            bkwd_seq(xq, xkq, false, true, dl, value_of_zero_in_bytes, value_of_one_in_bytes)[t],
            bkwd_seq(xv, xkv, true, false, value_of_zero_in_bytes, value_of_zero_in_bytes, value_of_one_in_bytes)[t],
            bkwd_seq(xw, xkw, false, false, 0u8, 0u8, 1u8)[t],
            dl@,
        ),
{
    let z = value_of_zero_in_bytes;
    let o = value_of_one_in_bytes;
    assert forall|t: int| 0 <= t < ret_size_exp_bwd implies #[trigger] related(
        bkwd_seq(xq, xkq, false, true, dl, z, o)[t],
        bkwd_seq(xv, xkv, true, false, z, z, o)[t],
        bkwd_seq(xw, xkw, false, false, 0u8, 0u8, 1u8)[t],
        dl@,
    ) by {
        let j = t / 8;
        let i = t % 8;
        let xa = |a: int| bkwd_x_tilde(xq, xkq, j, a, false, true, dl, z, o);
        let xb = |a: int| bkwd_x_tilde(xv, xkv, j, a, true, false, z, z, o);
        let xc = |a: int| bkwd_x_tilde(xw, xkw, j, a, false, false, 0u8, 0u8, 1u8);
        lemma_bkwd_x_related(xq, xkq, xv, xkv, xw, xkw, dl, j, (i + 7) % 8);
        lemma_bkwd_x_related(xq, xkq, xv, xkv, xw, xkw, dl, j, (i + 5) % 8);
        lemma_bkwd_x_related(xq, xkq, xv, xkv, xw, xkw, dl, j, (i + 2) % 8);
        lemma_related_xor(xa((i + 7) % 8), xb((i + 7) % 8), xc((i + 7) % 8), xa((i + 5) % 8), xb((i + 5) % 8), xc((i + 5) % 8), dl@);
        let tq = xor16(xa((i + 7) % 8), xa((i + 5) % 8));
        let tv = xor16(xb((i + 7) % 8), xb((i + 5) % 8));
        let tw = xc((i + 7) % 8) ^ xc((i + 5) % 8);
        lemma_related_xor(tq, tv, tw, xa((i + 2) % 8), xb((i + 2) % 8), xc((i + 2) % 8), dl@);
        let uq = xor16(tq, xa((i + 2) % 8));
        let uv = xor16(tv, xb((i + 2) % 8));
        let uw = tw ^ xc((i + 2) % 8);
        assert(bkwd_seq(xv, xkv, true, false, z, z, o)[t] == uv);
        if i == 0 || i == 2 {
            lemma_related_const(uq, uv, uw, dl, 1, dl@);
            assert(bkwd_seq(xq, xkq, false, true, dl, z, o)[t] == xor16(uq, dl));
            assert(bkwd_seq(xw, xkw, false, false, 0u8, 0u8, 1u8)[t] == uw ^ 1u8);
        } else {
            assert(bkwd_seq(xq, xkq, false, true, dl, z, o)[t] == uq);
            assert(bkwd_seq(xw, xkw, false, false, 0u8, 0u8, 1u8)[t] == uw);
        }
    }
}

/// The powers of alpha are field elements of 16 bytes.
pub(crate) proof fn lemma_alpha_pow_len(n: int)
    ensures
        alpha_pow_spec(n).len() == 16,
    decreases n,
{
    if n > 1 {
        lemma_alpha_pow_len(n - 1);
        lemma_gf128_mul_distrib(gf_lambda_pow_spec(alpha_spec(), n - 1), gf_lambda_pow_spec(alpha_spec(), n - 1), alpha_spec());
    }
}

/// Element form of `related`: a key and a tag that are field elements, and a bit.
pub open spec fn erel(q: ByteOrBytesElem, v: ByteOrBytesElem, w: ByteOrBytesElem, d: Seq<u8>) -> bool {
    &&& q is Bytes
    &&& v is Bytes
    &&& w is Byte
    &&& related(q->Bytes_0.0, v->Bytes_0.0, w->Byte_0.0, d)
}

/// Sums of related elements are related.
pub(crate) proof fn lemma_erel_xor(
    q1: ByteOrBytesElem,
    v1: ByteOrBytesElem,
    w1: ByteOrBytesElem,
    q2: ByteOrBytesElem,
    v2: ByteOrBytesElem,
    w2: ByteOrBytesElem,
    d: Seq<u8>,
)
    requires
        erel(q1, v1, w1, d),
        erel(q2, v2, w2, d),
        d.len() == 16,
    ensures
        erel(q1.xor_spec(q2), v1.xor_spec(v2), w1.xor_spec(w2), d),
{
    lemma_related_xor(q1->Bytes_0.0, v1->Bytes_0.0, w1->Byte_0.0, q2->Bytes_0.0, v2->Bytes_0.0, w2->Byte_0.0, d);
}

/// ByteCombine of related keys is ByteCombine of the tags plus d times ByteCombine of the bits.
pub(crate) proof fn lemma_bc_erel(qs: Seq<ByteOrBytesElem>, vs: Seq<ByteOrBytesElem>, ws: Seq<ByteOrBytesElem>, d: Seq<u8>, n: int)
    requires
        0 <= n <= 8,
        qs.len() >= n && vs.len() >= n && ws.len() >= n,
        d.len() == 16,
        forall|i: int| 0 <= i < n ==> #[trigger] erel(qs[i], vs[i], ws[i], d),
    ensures
        bc_acc(qs, n) == xor_seq(bc_acc(vs, n), gf_lambda_mul_spec(d, bc_acc(ws, n))),
        bc_acc(vs, n).len() == 16,
        bc_acc(ws, n).len() == 16,
    decreases n,
{
    let z = zero_bytes(16);
    if n == 0 {
        assert(crate::utils::types::zero16() =~= z);
        lemma_gf128_mul_zero(d);
        lemma_xs(z, z, z);
    } else {
        lemma_bc_erel(qs, vs, ws, d, n - 1);
        let a = alpha_pow_spec(n - 1);
        lemma_alpha_pow_len(n - 1);
        assert(erel(qs[n - 1], vs[n - 1], ws[n - 1], d));
        let (q, v, w) = (qs[n - 1]->Bytes_0.0, vs[n - 1]->Bytes_0.0, ws[n - 1]->Byte_0.0);
        let pw = bc_acc(ws, n - 1);
        let pv = bc_acc(vs, n - 1);
        let tw = if w == 0 { crate::utils::types::zero16() } else { a };
        assert(crate::utils::types::zero16() =~= z);
        lemma_gf128_mul_distrib(v@, emb(w, d), a);
        lemma_gf128_mul_distrib(pw, tw, d);
        lemma_gf128_mul_zero(a);
        lemma_gf128_mul_comm(z, a);
        lemma_gf128_mul_zero(d);
        lemma_gf128_mul_distrib(d, d, pw);
        lemma_gf128_mul_distrib(d, d, a);
        lemma_gf128_mul_distrib(v@, v@, a);
        assert(qs[n - 1].mul_alpha_spec(a) == gf_lambda_mul_spec(q@, a));
        assert(vs[n - 1].mul_alpha_spec(a) == gf_lambda_mul_spec(v@, a));
        assert(ws[n - 1].mul_alpha_spec(a) == tw);
        lemma_xor_seq_swap(pv, gf_lambda_mul_spec(d, pw), gf_lambda_mul_spec(v@, a), gf_lambda_mul_spec(emb(w, d), a));
        lemma_xs(pw, tw, tw);
    }
}

/// ByteCombine of related keys is ByteCombine of the tags plus d times ByteCombine of the bits.
proof fn lemma_bc_related(qs: Seq<[u8; 16]>, vs: Seq<[u8; 16]>, ws: Seq<u8>, d: Seq<u8>, n: int)
    requires
        0 <= n <= 8,
        qs.len() >= n && vs.len() >= n && ws.len() >= n,
        d.len() == 16,
        forall|i: int| 0 <= i < n ==> #[trigger] related(qs[i], vs[i], ws[i], d),
    ensures
        bc_acc(field_elems(qs), n) == xor_seq(bc_acc(field_elems(vs), n), gf_lambda_mul_spec(d, bc_acc(bit_elems(ws), n))),
        bc_acc(field_elems(vs), n).len() == 16,
        bc_acc(bit_elems(ws), n).len() == 16,
{
    assert forall|i: int| 0 <= i < n implies #[trigger] erel(field_elems(qs)[i], field_elems(vs)[i], bit_elems(ws)[i], d) by {
        assert(related(qs[i], vs[i], ws[i], d));
    }
    lemma_bc_erel(field_elems(qs), field_elems(vs), bit_elems(ws), d, n);
}

/// The key-schedule S-boxes of the witness bits w satisfy their constraint: ByteCombine of the
/// S-box input times ByteCombine of the inverse-affine S-box output is one.
pub open spec fn exp_sboxes_hold(w: Seq<u8>) -> bool {
    let k = key_exp_fwd_spec(w);
    let wout = bkwd_seq(w.subrange(LAMBDA as int, l_ke as int), k, false, false, 0u8, 0u8, 1u8);
    forall|t: int|
        0 <= t < S_ke ==> gf_lambda_mul_spec(
            #[trigger] bc_bits(k.subrange(ke_offset(t / 4, t % 4), ke_offset(t / 4, t % 4) + 8)),
            bc_bits(wout.subrange(32 * (t / 4) + 8 * (t % 4), 32 * (t / 4) + 8 * (t % 4) + 8)),
        ) == gf_one()
}

/// The key-schedule constraints on keys q = v + w Delta are A_0 + Delta A_1 where the witness
/// satisfies its key-schedule S-box constraints.
pub proof fn lemma_exp_correlation(w: Seq<u8>, v: Seq<[u8; 16]>, q: Seq<[u8; 16]>, dl: [u8; 16])
    requires
        w.len() == l_ke,
        v.len() == l_ke,
        q.len() == l_ke,
        forall|i: int| 0 <= i < l_ke ==> #[trigger] related(q[i], v[i], w[i], dl@),
        exp_sboxes_hold(w),
    ensures
        exp_b(dl, q) == xor_blocks(exp_a0(w, v), scale_blocks(dl@, exp_a1(w, v))),
{
    let d = dl@;
    let z = value_of_zero_in_bytes;
    let o = value_of_one_in_bytes;
    let qk = key_exp_fwd_spec(q);
    let vk = key_exp_fwd_spec(v);
    let k = key_exp_fwd_spec(w);
    lemma_key_exp_fwd_related(q, v, w, d);
    let xq = q.subrange(LAMBDA as int, l_ke as int);
    let xv = v.subrange(LAMBDA as int, l_ke as int);
    let xw = w.subrange(LAMBDA as int, l_ke as int);
    assert forall|i: int| 0 <= i < 320 implies #[trigger] related(xq[i], xv[i], xw[i], d) by {
        assert(related(q[LAMBDA + i], v[LAMBDA + i], w[LAMBDA + i], d));
    }
    assert forall|i: int| 0 <= i < ret_size_exp_fwd implies #[trigger] related(qk[i], vk[i], k[i], d) by {}
    lemma_bkwd_seq_related(xq, qk, xv, vk, xw, k, dl);
    let qout = bkwd_seq(xq, qk, false, true, dl, z, o);
    let vout = bkwd_seq(xv, vk, true, false, z, z, o);
    let wout = bkwd_seq(xw, k, false, false, 0u8, 0u8, 1u8);
    assert(o@ =~= gf_one());
    let a = exp_b(dl, q);
    let b = xor_blocks(exp_a0(w, v), scale_blocks(d, exp_a1(w, v)));
    assert forall|t: int| 0 <= t < S_ke implies #[trigger] a[t] == b[t] by {
        let off = ke_offset(t / 4, t % 4);
        let p = 32 * (t / 4) + 8 * (t % 4);
        assert forall|i: int| 0 <= i < 8 implies #[trigger] related(qk.subrange(off, off + 8)[i], vk.subrange(off, off + 8)[i], k.subrange(off, off + 8)[i], d) by {
            assert(related(qk[off + i], vk[off + i], k[off + i], d));
        }
        assert forall|i: int| 0 <= i < 8 implies #[trigger] related(qout.subrange(p, p + 8)[i], vout.subrange(p, p + 8)[i], wout.subrange(p, p + 8)[i], d) by {
            assert(related(qout[p + i], vout[p + i], wout[p + i], d));
        }
        lemma_bc_related(qk.subrange(off, off + 8), vk.subrange(off, off + 8), k.subrange(off, off + 8), d, 8);
        lemma_bc_related(qout.subrange(p, p + 8), vout.subrange(p, p + 8), wout.subrange(p, p + 8), d, 8);
        let fv = bc_fields(vk.subrange(off, off + 8));
        let gv = bc_fields(vout.subrange(p, p + 8));
        let fw = bc_bits(k.subrange(off, off + 8));
        let gw = bc_bits(wout.subrange(p, p + 8));
        assert(gf_lambda_mul_spec(fw, gw) == gf_one());
        lemma_sbox_product(fv, gv, fw, gw, d);
    }
    assert(a =~= b);
}


/// ExpBkwd on keys is ExpBkwd on tags plus Delta times ExpBkwd on bits: where the state bits
/// and the expanded-key bits have keys q = v + w Delta, each recovered S-box input bit has
/// key = tag + bit Delta.
pub proof fn lemma_exp_bkwd_correlation(
    xq: Seq<[u8; 16]>,
    xkq: Seq<[u8; 16]>,
    xv: Seq<[u8; 16]>,
    xkv: Seq<[u8; 16]>,
    xw: Seq<u8>,
    xkw: Seq<u8>,
    dl: [u8; 16],
)
    requires
        xq.len() == 320 && xv.len() == 320 && xw.len() == 320,
        xkq.len() == ret_size_exp_fwd && xkv.len() == ret_size_exp_fwd && xkw.len() == ret_size_exp_fwd,
        forall|k: int| 0 <= k < 320 ==> #[trigger] related(xq[k], xv[k], xw[k], dl@),
        forall|k: int| 0 <= k < ret_size_exp_fwd ==> #[trigger] related(xkq[k], xkv[k], xkw[k], dl@),
    ensures
        forall|t: int| 0 <= t < ret_size_exp_bwd ==> #[trigger] related(
            bkwd_seq(xq, xkq, false, true, dl, value_of_zero_in_bytes, value_of_one_in_bytes)[t],
            bkwd_seq(xv, xkv, true, false, value_of_zero_in_bytes, value_of_zero_in_bytes, value_of_one_in_bytes)[t],
            bkwd_seq(xw, xkw, false, false, 0u8, 0u8, 1u8)[t],
            dl@,
        ),
{
    lemma_bkwd_seq_related(xq, xkq, xv, xkv, xw, xkw, dl);
}

/// ExpFwd on keys is ExpFwd on tags plus Delta times ExpFwd on bits.
pub proof fn lemma_exp_fwd_correlation(q: Seq<[u8; 16]>, v: Seq<[u8; 16]>, w: Seq<u8>, dl: [u8; 16])
    requires
        q.len() == l_ke,
        v.len() == l_ke,
        w.len() == l_ke,
        forall|i: int| 0 <= i < l_ke ==> #[trigger] related(q[i], v[i], w[i], dl@),
    ensures
        forall|t: int| 0 <= t < ret_size_exp_fwd ==> #[trigger] related(key_exp_fwd_spec(q)[t], key_exp_fwd_spec(v)[t], key_exp_fwd_spec(w)[t], dl@),
{
    lemma_key_exp_fwd_related(q, v, w, dl@);
}

} // verus!
