#![allow(non_snake_case, non_upper_case_globals)]

use vstd::prelude::*;
use crate::protocols::constraint_correlation::{erel, lemma_bc_erel, lemma_erel_xor, lemma_sbox_product, lemma_swap, lemma_xs, related};
use crate::protocols::faest_key_enc_cstrnts::{enc_a0, enc_a1, enc_b};
use crate::utils::hash_laws::{scale_blocks, xor_blocks};
use crate::protocols::faest_key_enc_cstrnts::{bc_at, enc_fwd_round, enc_fwd_value, mix_row, public_bit_elem, public_byte_elems, small_constant, zero_elem, bkwd_index, enc_bkwd_x_tilde, enc_bkwd_y_tilde, enc_bkwd_value};
use crate::utils::constants::{l_enc, s_enc, R};
use crate::utils::galois_field::{gf_lambda_mul_spec, gf_one};
use crate::utils::gf_laws::{lemma_gf128_mul_distrib, zero_bytes};
use crate::utils::hash_laws::lemma_xor_seq_swap;
use crate::utils::helper_methods_cstrnts::{bc_acc, bit_elems, field_elems};
use crate::utils::math::xor_seq;
use crate::utils::types::{value_of_one_in_bytes, value_of_zero_in_bytes, BytesElem, ByteElem, ByteOrBytesElem};

verus! {

/// A key q, a tag v and a value w in F_{2^128} with q = v + d w.
pub open spec fn lin(q: Seq<u8>, v: Seq<u8>, w: Seq<u8>, d: Seq<u8>) -> bool {
    &&& v.len() == 16
    &&& w.len() == 16
    &&& q == xor_seq(v, gf_lambda_mul_spec(d, w))
}

/// Sums keep keys, tags and values related.
proof fn lemma_lin_add(q1: Seq<u8>, v1: Seq<u8>, w1: Seq<u8>, q2: Seq<u8>, v2: Seq<u8>, w2: Seq<u8>, d: Seq<u8>)
    requires
        lin(q1, v1, w1, d),
        lin(q2, v2, w2, d),
        d.len() == 16,
    ensures
        lin(xor_seq(q1, q2), xor_seq(v1, v2), xor_seq(w1, w2), d),
{
    lemma_gf128_mul_distrib(w1, w2, d);
    lemma_gf128_mul_distrib(d, d, w1);
    lemma_gf128_mul_distrib(d, d, w2);
    lemma_xor_seq_swap(v1, gf_lambda_mul_spec(d, w1), v2, gf_lambda_mul_spec(d, w2));
}

/// Products with a public field element keep keys, tags and values related.
proof fn lemma_lin_scale(q: Seq<u8>, v: Seq<u8>, w: Seq<u8>, m: Seq<u8>, d: Seq<u8>)
    requires
        lin(q, v, w, d),
        m.len() == 16,
        d.len() == 16,
    ensures
        lin(gf_lambda_mul_spec(q, m), gf_lambda_mul_spec(v, m), gf_lambda_mul_spec(w, m), d),
{
    lemma_gf128_mul_distrib(d, d, w);
    lemma_gf128_mul_distrib(v, gf_lambda_mul_spec(d, w), m);
    lemma_swap(d, w, m);
    lemma_gf128_mul_distrib(v, v, m);
    lemma_gf128_mul_distrib(w, w, m);
}

/// ByteCombine of the eight related elements from `from` on.
proof fn lemma_bc_at_lin(qs: Seq<ByteOrBytesElem>, vs: Seq<ByteOrBytesElem>, ws: Seq<ByteOrBytesElem>, d: Seq<u8>, from: int)
    requires
        0 <= from,
        from + 8 <= qs.len(),
        from + 8 <= vs.len(),
        from + 8 <= ws.len(),
        d.len() == 16,
        forall|i: int| 0 <= i < qs.len() && i < vs.len() && i < ws.len() ==> #[trigger] erel(qs[i], vs[i], ws[i], d),
    ensures
        lin(bc_at(qs, from), bc_at(vs, from), bc_at(ws, from), d),
{
    let (a, b, c) = (qs.subrange(from, from + 8), vs.subrange(from, from + 8), ws.subrange(from, from + 8));
    assert forall|i: int| 0 <= i < 8 implies #[trigger] erel(a[i], b[i], c[i], d) by {
        assert(erel(qs[from + i], vs[from + i], ws[from + i], d));
    }
    lemma_bc_erel(a, b, c, d, 8);
}

/// Keys, tags and bits of the witness as elements.
pub open spec fn elems_related(q: Seq<[u8; 16]>, v: Seq<[u8; 16]>, w: Seq<u8>, d: Seq<u8>) -> bool {
    &&& q.len() == v.len()
    &&& q.len() == w.len()
    &&& forall|i: int| 0 <= i < q.len() ==> #[trigger] related(q[i], v[i], w[i], d)
}

proof fn lemma_elems_erel(q: Seq<[u8; 16]>, v: Seq<[u8; 16]>, w: Seq<u8>, d: Seq<u8>)
    requires
        elems_related(q, v, w, d),
    ensures
        forall|i: int| 0 <= i < field_elems(q).len() && i < field_elems(v).len() && i < bit_elems(w).len()
            ==> #[trigger] erel(field_elems(q)[i], field_elems(v)[i], bit_elems(w)[i], d),
{
    assert forall|i: int| 0 <= i < field_elems(q).len() && i < field_elems(v).len() && i < bit_elems(w).len()
        implies #[trigger] erel(field_elems(q)[i], field_elems(v)[i], bit_elems(w)[i], d) by {
        assert(related(q[i], v[i], w[i], d));
    }
}

/// The public elements of a key, a tag and a wire value are related.
proof fn lemma_public_erel(bit: u8, dl: [u8; 16], q0: ByteOrBytesElem, v0: ByteOrBytesElem, w0: ByteOrBytesElem)
    requires
        q0 is Bytes,
        v0 is Bytes,
        w0 is Byte,
    ensures
        erel(
            public_bit_elem(bit, false, true, ByteOrBytesElem::Bytes(BytesElem(dl)), q0),
            public_bit_elem(bit, true, false, ByteOrBytesElem::Bytes(BytesElem(value_of_zero_in_bytes)), v0),
            public_bit_elem(bit, false, false, ByteOrBytesElem::Byte(ByteElem(0)), w0),
            dl@,
        ),
{
    let z = zero_bytes(16);
    assert(value_of_zero_in_bytes@ =~= z);
    lemma_xs(dl@, dl@, dl@);
    lemma_xs(z, z, z);
    lemma_xs(z, dl@, z);
}


/// ByteCombine always gives 16 bytes.
proof fn lemma_bc_len(es: Seq<ByteOrBytesElem>, n: int)
    ensures
        bc_acc(es, n).len() == 16,
    decreases n,
{
    if n > 0 {
        lemma_bc_len(es, n - 1);
    }
}

/// The MixColumns coefficient of byte `i` in row `row`.
spec fn mix_coeff(i: int, row: int) -> Seq<u8> {
    if (i - row + 4) % 4 == 0 {
        small_constant(false, true)
    } else if (i - row + 4) % 4 == 1 {
        small_constant(true, true)
    } else {
        small_constant(true, false)
    }
}

/// One row of MixColumns plus the round key keeps keys, tags and values related.
proof fn lemma_mix_row_lin(
    hq: Seq<Seq<u8>>,
    hv: Seq<Seq<u8>>,
    hw: Seq<Seq<u8>>,
    kq: Seq<u8>,
    kv: Seq<u8>,
    kw: Seq<u8>,
    d: Seq<u8>,
    row: int,
)
    requires
        hq.len() == 4 && hv.len() == 4 && hw.len() == 4,
        forall|i: int| 0 <= i < 4 ==> #[trigger] lin(hq[i], hv[i], hw[i], d),
        lin(kq, kv, kw, d),
        d.len() == 16,
    ensures
        lin(mix_row(hq, kq, row), mix_row(hv, kv, row), mix_row(hw, kw, row), d),
{
    assert forall|b0: bool, b1: bool| #[trigger] small_constant(b0, b1).len() == 16 by {
        lemma_bc_len(
            Seq::new(
                8,
                |t: int|
                    ByteOrBytesElem::Bytes(BytesElem(if (t == 0 && b0) || (t == 1 && b1) {
                        crate::utils::types::value_of_one_in_bytes
                    } else {
                        value_of_zero_in_bytes
                    })),
            ),
            8,
        );
    }
    let g = |h: Seq<Seq<u8>>, i: int| gf_lambda_mul_spec(h[i], mix_coeff(i, row));
    assert forall|i: int| 0 <= i < 4 implies #[trigger] lin(g(hq, i), g(hv, i), g(hw, i), d) by {
        assert(lin(hq[i], hv[i], hw[i], d));
        assert(mix_coeff(i, row).len() == 16);
        lemma_lin_scale(hq[i], hv[i], hw[i], mix_coeff(i, row), d);
    }
    assert(lin(g(hq, 0), g(hv, 0), g(hw, 0), d));
    assert(lin(g(hq, 1), g(hv, 1), g(hw, 1), d));
    assert(lin(g(hq, 2), g(hv, 2), g(hw, 2), d));
    assert(lin(g(hq, 3), g(hv, 3), g(hw, 3), d));
    lemma_lin_add(g(hq, 0), g(hv, 0), g(hw, 0), g(hq, 1), g(hv, 1), g(hw, 1), d);
    let (s1q, s1v, s1w) = (xor_seq(g(hq, 0), g(hq, 1)), xor_seq(g(hv, 0), g(hv, 1)), xor_seq(g(hw, 0), g(hw, 1)));
    lemma_lin_add(s1q, s1v, s1w, g(hq, 2), g(hv, 2), g(hw, 2), d);
    let (s2q, s2v, s2w) = (xor_seq(s1q, g(hq, 2)), xor_seq(s1v, g(hv, 2)), xor_seq(s1w, g(hw, 2)));
    lemma_lin_add(s2q, s2v, s2w, g(hq, 3), g(hv, 3), g(hw, 3), d);
    let (s3q, s3v, s3w) = (xor_seq(s2q, g(hq, 3)), xor_seq(s2v, g(hv, 3)), xor_seq(s2w, g(hw, 3)));
    lemma_lin_add(s3q, s3v, s3w, kq, kv, kw, d);
    assert(mix_row(hq, kq, row) == xor_seq(s3q, kq));
    assert(mix_row(hv, kv, row) == xor_seq(s3v, kv));
    assert(mix_row(hw, kw, row) == xor_seq(s3w, kw));
}


/// The elements of all three vectors are related.
pub open spec fn all_erel(qs: Seq<ByteOrBytesElem>, vs: Seq<ByteOrBytesElem>, ws: Seq<ByteOrBytesElem>, d: Seq<u8>) -> bool {
    forall|i: int| 0 <= i < qs.len() && i < vs.len() && i < ws.len() ==> #[trigger] erel(qs[i], vs[i], ws[i], d)
}

/// A round of EncFwd keeps keys, tags and values related.
proof fn lemma_round_lin(
    xq: Seq<ByteOrBytesElem>,
    xv: Seq<ByteOrBytesElem>,
    xw: Seq<ByteOrBytesElem>,
    kq: Seq<ByteOrBytesElem>,
    kv: Seq<ByteOrBytesElem>,
    kw: Seq<ByteOrBytesElem>,
    d: Seq<u8>,
    j: int,
    c: int,
    r: int,
)
    requires
        1 <= j < R,
        0 <= c < 4,
        0 <= r < 4,
        xq.len() == l_enc && xv.len() == l_enc && xw.len() == l_enc,
        kq.len() == 1408 && kv.len() == 1408 && kw.len() == 1408,
        all_erel(xq, xv, xw, d),
        all_erel(kq, kv, kw, d),
        d.len() == 16,
    ensures
        lin(enc_fwd_round(xq, kq, j, c, r), enc_fwd_round(xv, kv, j, c, r), enc_fwd_round(xw, kw, j, c, r), d),
{
    let base = 128 * (j - 1) + 32 * c;
    let hq = Seq::new(4, |t: int| bc_at(xq, base + 8 * t));
    let hv = Seq::new(4, |t: int| bc_at(xv, base + 8 * t));
    let hw = Seq::new(4, |t: int| bc_at(xw, base + 8 * t));
    assert forall|i: int| 0 <= i < 4 implies #[trigger] lin(hq[i], hv[i], hw[i], d) by {
        lemma_bc_at_lin(xq, xv, xw, d, base + 8 * i);
    }
    let ko = 128 * j + 32 * c + 8 * r;
    lemma_bc_at_lin(kq, kv, kw, d, ko);
    lemma_mix_row_lin(hq, hv, hw, bc_at(kq, ko), bc_at(kv, ko), bc_at(kw, ko), d, r);
}

/// EncFwd keeps keys, tags and values related.
proof fn lemma_fwd_lin(
    xq: Seq<ByteOrBytesElem>,
    xv: Seq<ByteOrBytesElem>,
    xw: Seq<ByteOrBytesElem>,
    kq: Seq<ByteOrBytesElem>,
    kv: Seq<ByteOrBytesElem>,
    kw: Seq<ByteOrBytesElem>,
    dl: [u8; 16],
    pt: Seq<u8>,
    t: int,
)
    requires
        0 <= t < s_enc,
        xq.len() == l_enc && xv.len() == l_enc && xw.len() == l_enc,
        kq.len() == 1408 && kv.len() == 1408 && kw.len() == 1408,
        all_erel(xq, xv, xw, dl@),
        all_erel(kq, kv, kw, dl@),
    ensures
        lin(
            enc_fwd_value(xq, kq, pt, false, true, ByteOrBytesElem::Bytes(BytesElem(dl)), t),
            enc_fwd_value(xv, kv, pt, true, false, zero_elem(), t),
            enc_fwd_value(xw, kw, pt, false, false, ByteOrBytesElem::Byte(ByteElem(0)), t),
            dl@,
        ),
{
    let d = dl@;
    if t < 16 {
        let D = ByteOrBytesElem::Bytes(BytesElem(dl));
        let pq = public_byte_elems(pt, t, false, true, D, xq[0]);
        let pv = public_byte_elems(pt, t, true, false, zero_elem(), xv[0]);
        let pw = public_byte_elems(pt, t, false, false, ByteOrBytesElem::Byte(ByteElem(0)), xw[0]);
        assert(erel(xq[0], xv[0], xw[0], d));
        assert forall|i: int| 0 <= i < 8 implies #[trigger] erel(pq[i], pv[i], pw[i], d) by {
            lemma_public_erel(pt[8 * t + i], dl, xq[0], xv[0], xw[0]);
        }
        lemma_bc_erel(pq, pv, pw, d, 8);
        lemma_bc_at_lin(kq, kv, kw, d, 8 * t);
        lemma_lin_add(bc_acc(pq, 8), bc_acc(pv, 8), bc_acc(pw, 8), bc_at(kq, 8 * t), bc_at(kv, 8 * t), bc_at(kw, 8 * t), d);
    } else {
        lemma_round_lin(xq, xv, xw, kq, kv, kw, d, t / 16, (t % 16) / 4, t % 4);
    }
}


/// The S-box output bits that EncBkwd reads keep keys, tags and bits related.
proof fn lemma_x_tilde_erel(
    xq: Seq<ByteOrBytesElem>,
    xv: Seq<ByteOrBytesElem>,
    xw: Seq<ByteOrBytesElem>,
    kq: Seq<ByteOrBytesElem>,
    kv: Seq<ByteOrBytesElem>,
    kw: Seq<ByteOrBytesElem>,
    dl: [u8; 16],
    ct: Seq<u8>,
    j: int,
    c: int,
    r: int,
    i: int,
)
    requires
        0 <= j < R,
        0 <= c < 4,
        0 <= r < 4,
        0 <= i < 8,
        xq.len() == l_enc && xv.len() == l_enc && xw.len() == l_enc,
        kq.len() == 1408 && kv.len() == 1408 && kw.len() == 1408,
        all_erel(xq, xv, xw, dl@),
        all_erel(kq, kv, kw, dl@),
    ensures
        erel(
            enc_bkwd_x_tilde(xq, kq, ct, false, true, ByteOrBytesElem::Bytes(BytesElem(dl)), j, c, r, i),
            enc_bkwd_x_tilde(xv, kv, ct, true, false, zero_elem(), j, c, r, i),
            enc_bkwd_x_tilde(xw, kw, ct, false, false, ByteOrBytesElem::Byte(ByteElem(0)), j, c, r, i),
            dl@,
        ),
{
    let ird = bkwd_index(j, c, r);
    assert(0 <= (c + 4 - r) % 4 < 4);
    if j < R - 1 {
        assert(erel(xq[ird + i], xv[ird + i], xw[ird + i], dl@));
    } else {
        assert(erel(xq[0], xv[0], xw[0], dl@));
        lemma_public_erel(ct[ird - 128 * j + i], dl, xq[0], xv[0], xw[0]);
        assert(erel(kq[128 + ird + i], kv[128 + ird + i], kw[128 + ird + i], dl@));
        lemma_erel_xor(
            public_bit_elem(ct[ird - 128 * j + i], false, true, ByteOrBytesElem::Bytes(BytesElem(dl)), xq[0]),
            public_bit_elem(ct[ird - 128 * j + i], true, false, zero_elem(), xv[0]),
            public_bit_elem(ct[ird - 128 * j + i], false, false, ByteOrBytesElem::Byte(ByteElem(0)), xw[0]),
            kq[128 + ird + i],
            kv[128 + ird + i],
            kw[128 + ird + i],
            dl@,
        );
    }
}

/// The S-box input bits that EncBkwd recovers keep keys, tags and bits related.
proof fn lemma_y_tilde_erel(
    xq: Seq<ByteOrBytesElem>,
    xv: Seq<ByteOrBytesElem>,
    xw: Seq<ByteOrBytesElem>,
    kq: Seq<ByteOrBytesElem>,
    kv: Seq<ByteOrBytesElem>,
    kw: Seq<ByteOrBytesElem>,
    dl: [u8; 16],
    ct: Seq<u8>,
    j: int,
    c: int,
    r: int,
    i: int,
)
    requires
        0 <= j < R,
        0 <= c < 4,
        0 <= r < 4,
        0 <= i < 8,
        xq.len() == l_enc && xv.len() == l_enc && xw.len() == l_enc,
        kq.len() == 1408 && kv.len() == 1408 && kw.len() == 1408,
        all_erel(xq, xv, xw, dl@),
        all_erel(kq, kv, kw, dl@),
    ensures
        erel(
            enc_bkwd_y_tilde(xq, kq, ct, false, true, ByteOrBytesElem::Bytes(BytesElem(dl)), j, c, r, i),
            enc_bkwd_y_tilde(xv, kv, ct, true, false, zero_elem(), j, c, r, i),
            enc_bkwd_y_tilde(xw, kw, ct, false, false, ByteOrBytesElem::Byte(ByteElem(0)), j, c, r, i),
            dl@,
        ),
{
    let D = ByteOrBytesElem::Bytes(BytesElem(dl));
    let zb = ByteOrBytesElem::Byte(ByteElem(0));
    let aq = |a: int| enc_bkwd_x_tilde(xq, kq, ct, false, true, D, j, c, r, a);
    let av = |a: int| enc_bkwd_x_tilde(xv, kv, ct, true, false, zero_elem(), j, c, r, a);
    let aw = |a: int| enc_bkwd_x_tilde(xw, kw, ct, false, false, zb, j, c, r, a);
    let (i7, i5, i2) = ((i + 7) % 8, (i + 5) % 8, (i + 2) % 8);
    lemma_x_tilde_erel(xq, xv, xw, kq, kv, kw, dl, ct, j, c, r, i7);
    lemma_x_tilde_erel(xq, xv, xw, kq, kv, kw, dl, ct, j, c, r, i5);
    lemma_x_tilde_erel(xq, xv, xw, kq, kv, kw, dl, ct, j, c, r, i2);
    lemma_erel_xor(aq(i7), av(i7), aw(i7), aq(i5), av(i5), aw(i5), dl@);
    lemma_erel_xor(aq(i7).xor_spec(aq(i5)), av(i7).xor_spec(av(i5)), aw(i7).xor_spec(aw(i5)), aq(i2), av(i2), aw(i2), dl@);
    if i == 0 || i == 2 {
        assert(erel(xq[0], xv[0], xw[0], dl@));
        let z = zero_bytes(16);
        assert(value_of_zero_in_bytes@ =~= z);
        lemma_xs(dl@, dl@, dl@);
        lemma_xs(z, dl@, z);
        assert(erel(D, ByteOrBytesElem::dummy_spec(xv[0]), ByteOrBytesElem::ones_spec(xw[0]), dl@));
        let bq = aq(i7).xor_spec(aq(i5)).xor_spec(aq(i2));
        let bv = av(i7).xor_spec(av(i5)).xor_spec(av(i2));
        let bw = aw(i7).xor_spec(aw(i5)).xor_spec(aw(i2));
        lemma_erel_xor(bq, bv, bw, D, ByteOrBytesElem::dummy_spec(xv[0]), ByteOrBytesElem::ones_spec(xw[0]), dl@);
    }
}

/// EncBkwd keeps keys, tags and values related.
proof fn lemma_bkwd_lin(
    xq: Seq<ByteOrBytesElem>,
    xv: Seq<ByteOrBytesElem>,
    xw: Seq<ByteOrBytesElem>,
    kq: Seq<ByteOrBytesElem>,
    kv: Seq<ByteOrBytesElem>,
    kw: Seq<ByteOrBytesElem>,
    dl: [u8; 16],
    ct: Seq<u8>,
    t: int,
)
    requires
        0 <= t < s_enc,
        xq.len() == l_enc && xv.len() == l_enc && xw.len() == l_enc,
        kq.len() == 1408 && kv.len() == 1408 && kw.len() == 1408,
        all_erel(xq, xv, xw, dl@),
        all_erel(kq, kv, kw, dl@),
    ensures
        lin(
            enc_bkwd_value(xq, kq, ct, false, true, ByteOrBytesElem::Bytes(BytesElem(dl)), t),
            enc_bkwd_value(xv, kv, ct, true, false, zero_elem(), t),
            enc_bkwd_value(xw, kw, ct, false, false, ByteOrBytesElem::Byte(ByteElem(0)), t),
            dl@,
        ),
{
    let D = ByteOrBytesElem::Bytes(BytesElem(dl));
    let zb = ByteOrBytesElem::Byte(ByteElem(0));
    let (j, c, r) = (t / 16, (t % 16) / 4, t % 4);
    let yq = Seq::new(8, |i: int| enc_bkwd_y_tilde(xq, kq, ct, false, true, D, j, c, r, i));
    let yv = Seq::new(8, |i: int| enc_bkwd_y_tilde(xv, kv, ct, true, false, zero_elem(), j, c, r, i));
    let yw = Seq::new(8, |i: int| enc_bkwd_y_tilde(xw, kw, ct, false, false, zb, j, c, r, i));
    assert forall|i: int| 0 <= i < 8 implies #[trigger] erel(yq[i], yv[i], yw[i], dl@) by {
        lemma_y_tilde_erel(xq, xv, xw, kq, kv, kw, dl, ct, j, c, r, i);
    }
    lemma_bc_erel(yq, yv, yw, dl@, 8);
}


/// The encryption S-boxes of the witness state bits w, under the expanded key bits k, satisfy
/// their constraint: ByteCombine of each S-box input times ByteCombine of the inverse-affine
/// S-box output is one.
pub open spec fn enc_sboxes_hold(w: Seq<u8>, k: Seq<u8>, pt: Seq<u8>, ct: Seq<u8>) -> bool {
    let zb = ByteOrBytesElem::Byte(ByteElem(0));
    forall|t: int|
        0 <= t < s_enc ==> gf_lambda_mul_spec(
            #[trigger] enc_fwd_value(bit_elems(w), bit_elems(k), pt, false, false, zb, t),
            enc_bkwd_value(bit_elems(w), bit_elems(k), ct, false, false, zb, t),
        ) == gf_one()
}

/// The encryption constraints on keys q = v + w Delta (and expanded-key keys qk = vk + k Delta)
/// are A_0 + Delta A_1 where the witness satisfies its encryption S-box constraints.
pub proof fn lemma_enc_correlation(
    w: Seq<u8>,
    v: Seq<[u8; 16]>,
    q: Seq<[u8; 16]>,
    k: Seq<u8>,
    vk: Seq<[u8; 16]>,
    qk: Seq<[u8; 16]>,
    dl: [u8; 16],
    pt: Seq<u8>,
    ct: Seq<u8>,
)
    requires
        q.len() == l_enc,
        elems_related(q, v, w, dl@),
        qk.len() == 1408,
        elems_related(qk, vk, k, dl@),
        enc_sboxes_hold(w, k, pt, ct),
    ensures
        enc_b(q, qk, dl, pt, ct) == xor_blocks(enc_a0(v, vk, pt, ct), scale_blocks(dl@, enc_a1(w, v, k, vk, pt, ct))),
{
    let d = dl@;
    let D = ByteOrBytesElem::Bytes(BytesElem(dl));
    let zb = ByteOrBytesElem::Byte(ByteElem(0));
    lemma_elems_erel(q, v, w, d);
    lemma_elems_erel(qk, vk, k, d);
    let (xq, xv, xw) = (field_elems(q), field_elems(v), bit_elems(w));
    let (kq, kv, kw) = (field_elems(qk), field_elems(vk), bit_elems(k));
    let a = enc_b(q, qk, dl, pt, ct);
    let b = xor_blocks(enc_a0(v, vk, pt, ct), scale_blocks(d, enc_a1(w, v, k, vk, pt, ct)));
    assert(value_of_one_in_bytes@ =~= gf_one());
    assert forall|t: int| 0 <= t < s_enc implies #[trigger] a[t] == b[t] by {
        lemma_fwd_lin(xq, xv, xw, kq, kv, kw, dl, pt, t);
        lemma_bkwd_lin(xq, xv, xw, kq, kv, kw, dl, ct, t);
        let fv = enc_fwd_value(xv, kv, pt, true, false, zero_elem(), t);
        let gv = enc_bkwd_value(xv, kv, ct, true, false, zero_elem(), t);
        let fw = enc_fwd_value(xw, kw, pt, false, false, zb, t);
        let gw = enc_bkwd_value(xw, kw, ct, false, false, zb, t);
        assert(gf_lambda_mul_spec(fw, gw) == gf_one());
        lemma_sbox_product(fv, gv, fw, gw, d);
        lemma_gf128_mul_distrib(xor_seq(fw, fv), xor_seq(fw, fv), xor_seq(gw, gv));
        lemma_gf128_mul_distrib(fv, fv, gv);
        lemma_xs(gf_lambda_mul_spec(xor_seq(fw, fv), xor_seq(gw, gv)), gf_one(), gf_lambda_mul_spec(fv, gv));
    }
    assert(a =~= b);
}


/// EncFwd on keys is EncFwd on tags plus Delta times EncFwd on wire values: where the state
/// bits and the expanded-key bits have keys q = v + w Delta, each S-box input of EncFwd has
/// key = tag + Delta value.
pub proof fn lemma_enc_fwd_correlation(
    w: Seq<u8>,
    v: Seq<[u8; 16]>,
    q: Seq<[u8; 16]>,
    k: Seq<u8>,
    vk: Seq<[u8; 16]>,
    qk: Seq<[u8; 16]>,
    dl: [u8; 16],
    pt: Seq<u8>,
    t: int,
)
    requires
        0 <= t < s_enc,
        q.len() == l_enc,
        elems_related(q, v, w, dl@),
        qk.len() == 1408,
        elems_related(qk, vk, k, dl@),
    ensures
        lin(
            enc_fwd_value(field_elems(q), field_elems(qk), pt, false, true, ByteOrBytesElem::Bytes(BytesElem(dl)), t),
            enc_fwd_value(field_elems(v), field_elems(vk), pt, true, false, zero_elem(), t),
            enc_fwd_value(bit_elems(w), bit_elems(k), pt, false, false, ByteOrBytesElem::Byte(ByteElem(0)), t),
            dl@,
        ),
{
    lemma_elems_erel(q, v, w, dl@);
    lemma_elems_erel(qk, vk, k, dl@);
    lemma_fwd_lin(field_elems(q), field_elems(v), bit_elems(w), field_elems(qk), field_elems(vk), bit_elems(k), dl, pt, t);
}

/// EncBkwd on keys is EncBkwd on tags plus Delta times EncBkwd on wire values.
pub proof fn lemma_enc_bkwd_correlation(
    w: Seq<u8>,
    v: Seq<[u8; 16]>,
    q: Seq<[u8; 16]>,
    k: Seq<u8>,
    vk: Seq<[u8; 16]>,
    qk: Seq<[u8; 16]>,
    dl: [u8; 16],
    ct: Seq<u8>,
    t: int,
)
    requires
        0 <= t < s_enc,
        q.len() == l_enc,
        elems_related(q, v, w, dl@),
        qk.len() == 1408,
        elems_related(qk, vk, k, dl@),
    ensures
        lin(
            enc_bkwd_value(field_elems(q), field_elems(qk), ct, false, true, ByteOrBytesElem::Bytes(BytesElem(dl)), t),
            enc_bkwd_value(field_elems(v), field_elems(vk), ct, true, false, zero_elem(), t),
            enc_bkwd_value(bit_elems(w), bit_elems(k), ct, false, false, ByteOrBytesElem::Byte(ByteElem(0)), t),
            dl@,
        ),
{
    lemma_elems_erel(q, v, w, dl@);
    lemma_elems_erel(qk, vk, k, dl@);
    lemma_bkwd_lin(field_elems(q), field_elems(v), bit_elems(w), field_elems(qk), field_elems(vk), bit_elems(k), dl, ct, t);
}

} // verus!
