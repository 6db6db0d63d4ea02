use vstd::prelude::*;
use crate::utils::galois_field::gf_lambda_mul_spec;
use crate::utils::gf_assoc::{lemma_gf128_mul_assoc, lemma_gf_shift_add_right};
use crate::utils::gf_laws::{lemma_gf128_mul_comm, lemma_gf128_mul_distrib, lemma_gf128_mul_zero, lemma_gf64_mul_distrib, lemma_gf_lambda_mul_64_distrib, zero_bytes};
use crate::utils::helper_methods_for_sign::{gf64_mul_fn, vole_hash_spec, zero8};
use crate::utils::helper_methods_prove_verify::{gf_mul_64_fn, gf_mul_fn, horner, zero_field, zk_hash_spec};
use crate::utils::math::{lemma_xor_assoc, xor_seq};

verus! {

/// Regrouping an exclusive or of four byte strings of one length.
pub proof fn lemma_xor_seq_swap(a: Seq<u8>, b: Seq<u8>, c: Seq<u8>, d: Seq<u8>)
    requires
        a.len() == b.len(),
        a.len() == c.len(),
        a.len() == d.len(),
    ensures
        xor_seq(xor_seq(a, b), xor_seq(c, d)) == xor_seq(xor_seq(a, c), xor_seq(b, d)),
{
    assert forall|i: int| 0 <= i < a.len() implies #[trigger] xor_seq(xor_seq(a, b), xor_seq(c, d))[i]
        == xor_seq(xor_seq(a, c), xor_seq(b, d))[i] by {
        crate::utils::gf_laws::lemma_xor_swap(a[i], b[i], c[i], d[i]);
    }
    assert(xor_seq(xor_seq(a, b), xor_seq(c, d)) =~= xor_seq(xor_seq(a, c), xor_seq(b, d)));
}

/// Pointwise exclusive or of two sequences of byte strings.
pub open spec fn xor_blocks(xs: Seq<Seq<u8>>, ys: Seq<Seq<u8>>) -> Seq<Seq<u8>> {
    Seq::new(xs.len(), |i: int| xor_seq(xs[i], ys[i]))
}

/// Horner evaluation at `s` is linear in the evaluated blocks when multiplication by `s`
/// distributes over addition.
proof fn lemma_horner_linear(
    xs: Seq<Seq<u8>>,
    ys: Seq<Seq<u8>>,
    s: Seq<u8>,
    n: int,
    z: Seq<u8>,
    times: spec_fn(Seq<u8>, Seq<u8>) -> Seq<u8>,
    len: nat,
)
    requires
        0 <= n <= xs.len(),
        xs.len() == ys.len(),
        forall|i: int| 0 <= i < xs.len() ==> (#[trigger] xs[i]).len() == len && ys[i].len() == len,
        z.len() == len,
        forall|i: int| 0 <= i < len ==> #[trigger] z[i] == 0,
        forall|a: Seq<u8>, b: Seq<u8>| a.len() == len && b.len() == len ==> #[trigger] times(xor_seq(a, b), s)
            == xor_seq(times(a, s), times(b, s)) && times(a, s).len() == len,
    ensures
        horner(xor_blocks(xs, ys), s, n, z, times) == xor_seq(horner(xs, s, n, z, times), horner(ys, s, n, z, times)),
        horner(xs, s, n, z, times).len() == len,
        horner(ys, s, n, z, times).len() == len,
    decreases n,
{
    if n <= 0 {
        assert forall|i: int| 0 <= i < len implies #[trigger] xor_seq(z, z)[i] == z[i] by {
            lemma_xor_assoc(0, 0, 0);
        }
        assert(xor_seq(z, z) =~= z);
    } else {
        lemma_horner_linear(xs, ys, s, n - 1, z, times, len);
        let hx = horner(xs, s, n - 1, z, times);
        let hy = horner(ys, s, n - 1, z, times);
        assert(times(xor_seq(hx, hy), s) == xor_seq(times(hx, s), times(hy, s)));
        assert(times(hy, s).len() == len);
        assert(xor_blocks(xs, ys)[n - 1] == xor_seq(xs[n - 1], ys[n - 1]));
        lemma_xor_seq_swap(times(hx, s), times(hy, s), xs[n - 1], ys[n - 1]);
    }
}

/// The 16-byte blocks of a padded string.
pub open spec fn blocks_of(y: Seq<u8>, n: int, w: int) -> Seq<Seq<u8>> {
    Seq::new(n as nat, |i: int| y.subrange(w * i, w * i + w))
}

proof fn lemma_blocks_of_xor(y: Seq<u8>, y2: Seq<u8>, n: int, w: int)
    requires
        y.len() == y2.len(),
        y.len() == n * w,
        0 < w,
        0 <= n,
    ensures
        blocks_of(xor_seq(y, y2), n, w) == xor_blocks(blocks_of(y, n, w), blocks_of(y2, n, w)),
        forall|i: int| 0 <= i < n ==> (#[trigger] blocks_of(y, n, w)[i]).len() == w && blocks_of(y2, n, w)[i].len() == w,
{
    assert forall|i: int| 0 <= i < n implies #[trigger] blocks_of(xor_seq(y, y2), n, w)[i]
        == xor_blocks(blocks_of(y, n, w), blocks_of(y2, n, w))[i] by {
        assert(0 <= w * i && w * i + w <= n * w) by (nonlinear_arith)
            requires
                0 <= i < n,
                w > 0,
        ;
        let lo = w * i;
        assert forall|k: int| 0 <= k < w implies #[trigger] blocks_of(xor_seq(y, y2), n, w)[i][k]
            == xor_seq(blocks_of(y, n, w)[i], blocks_of(y2, n, w)[i])[k] by {
            assert(blocks_of(xor_seq(y, y2), n, w)[i][k] == xor_seq(y, y2)[lo + k]);
        }
        assert(blocks_of(xor_seq(y, y2), n, w)[i] =~= xor_seq(blocks_of(y, n, w)[i], blocks_of(y2, n, w)[i]));
    }
    assert(blocks_of(xor_seq(y, y2), n, w) =~= xor_blocks(blocks_of(y, n, w), blocks_of(y2, n, w)));
    assert forall|i: int| 0 <= i < n implies (#[trigger] blocks_of(y, n, w)[i]).len() == w && blocks_of(y2, n, w)[i].len() == w by {
        assert(0 <= w * i && w * i + w <= n * w) by (nonlinear_arith)
            requires
                0 <= i < n,
                w > 0,
        ;
    }
}

/// The Horner evaluations of VOLEHash, as functions of the padded string.
proof fn lemma_vole_hash_horner_linear(ya: Seq<u8>, yb: Seq<u8>, xa: Seq<u8>, xb: Seq<u8>, s: Seq<u8>, t: Seq<u8>)
    requires
        ya.len() == 224,
        yb.len() == 224,
        xa.len() == 216,
        xb.len() == 216,
        s.len() == 16,
        t.len() == 8,
    ensures
        horner(blocks_of(xor_seq(ya, yb), 14, 16), s, 14, zero_field(), gf_mul_fn())
            == xor_seq(horner(blocks_of(ya, 14, 16), s, 14, zero_field(), gf_mul_fn()), horner(blocks_of(yb, 14, 16), s, 14, zero_field(), gf_mul_fn())),
        horner(blocks_of(ya, 14, 16), s, 14, zero_field(), gf_mul_fn()).len() == 16,
        horner(blocks_of(yb, 14, 16), s, 14, zero_field(), gf_mul_fn()).len() == 16,
        horner(blocks_of(xor_seq(xa, xb), 27, 8), t, 27, zero8(), gf64_mul_fn())
            == xor_seq(horner(blocks_of(xa, 27, 8), t, 27, zero8(), gf64_mul_fn()), horner(blocks_of(xb, 27, 8), t, 27, zero8(), gf64_mul_fn())),
        horner(blocks_of(xa, 27, 8), t, 27, zero8(), gf64_mul_fn()).len() == 8,
        horner(blocks_of(xb, 27, 8), t, 27, zero8(), gf64_mul_fn()).len() == 8,
{
    lemma_blocks_of_xor(ya, yb, 14, 16);
    lemma_blocks_of_xor(xa, xb, 27, 8);
    let m128 = gf_mul_fn();
    let m64 = gf64_mul_fn();
    assert forall|a: Seq<u8>, b: Seq<u8>| a.len() == 16 && b.len() == 16 implies #[trigger] m128(xor_seq(a, b), s)
        == xor_seq(m128(a, s), m128(b, s)) && m128(a, s).len() == 16 by {
        lemma_gf128_mul_distrib(a, b, s);
    }
    assert forall|a: Seq<u8>, b: Seq<u8>| a.len() == 8 && b.len() == 8 implies #[trigger] m64(xor_seq(a, b), t)
        == xor_seq(m64(a, t), m64(b, t)) && m64(a, t).len() == 8 by {
        lemma_gf64_mul_distrib(a, b, t);
    }
    lemma_horner_linear(blocks_of(ya, 14, 16), blocks_of(yb, 14, 16), s, 14, zero_field(), m128, 16);
    lemma_horner_linear(blocks_of(xa, 27, 8), blocks_of(xb, 27, 8), t, 27, zero8(), m64, 8);
}


/// The last step of VOLEHash, from the Horner evaluations h0 and h1 (padded to 16 bytes).
pub open spec fn vole_hash_tail(sd: Seq<u8>, h0: Seq<u8>, h1p: Seq<u8>, x1: Seq<u8>) -> Seq<u8> {
    let h2 = xor_seq(gf_lambda_mul_spec(sd.subrange(0, 16), h0), gf_lambda_mul_spec(sd.subrange(16, 32), h1p));
    let h3 = xor_seq(gf_lambda_mul_spec(sd.subrange(32, 48), h0), gf_lambda_mul_spec(sd.subrange(48, 64), h1p));
    xor_seq(h2 + h3.subrange(0, 2), x1)
}

proof fn lemma_vole_hash_tail_linear(sd: Seq<u8>, h0a: Seq<u8>, h0b: Seq<u8>, h1a: Seq<u8>, h1b: Seq<u8>, x1: Seq<u8>, y1: Seq<u8>)
    requires
        sd.len() == 88,
        h0a.len() == 16,
        h0b.len() == 16,
        h1a.len() == 16,
        h1b.len() == 16,
        x1.len() == 18,
        y1.len() == 18,
    ensures
        vole_hash_tail(sd, xor_seq(h0a, h0b), xor_seq(h1a, h1b), xor_seq(x1, y1)) == xor_seq(vole_hash_tail(sd, h0a, h1a, x1), vole_hash_tail(sd, h0b, h1b, y1)),
        vole_hash_tail(sd, h0a, h1a, x1).len() == 18,
{
    let r0 = sd.subrange(0, 16);
    let r1 = sd.subrange(16, 32);
    let r2 = sd.subrange(32, 48);
    let r3 = sd.subrange(48, 64);
    lemma_gf128_mul_distrib(h0a, h0b, r0);
    lemma_gf128_mul_distrib(h0a, h0b, r2);
    lemma_gf128_mul_distrib(h1a, h1b, r1);
    lemma_gf128_mul_distrib(h1a, h1b, r3);
    lemma_gf128_mul_distrib(r0, r0, h0b);
    lemma_gf128_mul_distrib(r1, r1, h1b);
    lemma_gf128_mul_distrib(r2, r2, h0b);
    lemma_gf128_mul_distrib(r3, r3, h1b);
    lemma_gf128_mul_distrib(r0, r0, h0a);
    lemma_gf128_mul_distrib(r1, r1, h1a);
    lemma_gf128_mul_distrib(r2, r2, h0a);
    lemma_gf128_mul_distrib(r3, r3, h1a);
    let p0a = gf_lambda_mul_spec(r0, h0a);
    let p0b = gf_lambda_mul_spec(r0, h0b);
    let p1a = gf_lambda_mul_spec(r1, h1a);
    let p1b = gf_lambda_mul_spec(r1, h1b);
    let p2a = gf_lambda_mul_spec(r2, h0a);
    let p2b = gf_lambda_mul_spec(r2, h0b);
    let p3a = gf_lambda_mul_spec(r3, h1a);
    let p3b = gf_lambda_mul_spec(r3, h1b);
    lemma_xor_seq_swap(p0a, p0b, p1a, p1b);
    lemma_xor_seq_swap(p2a, p2b, p3a, p3b);
    let h2a = xor_seq(p0a, p1a);
    let h2b = xor_seq(p0b, p1b);
    let h3a = xor_seq(p2a, p3a);
    let h3b = xor_seq(p2b, p3b);
    let ea = h2a + h3a.subrange(0, 2);
    let eb = h2b + h3b.subrange(0, 2);
    assert(xor_seq(h2a, h2b) + xor_seq(h3a, h3b).subrange(0, 2) =~= xor_seq(ea, eb));
    lemma_xor_seq_swap(ea, eb, x1, y1);
}

/// VOLEHash is linear: hashing the sum of two inputs under one seed gives the sum of the
/// hashes.
pub proof fn lemma_vole_hash_linear(sd: Seq<u8>, x0: Seq<u8>, x1: Seq<u8>, y0: Seq<u8>, y1: Seq<u8>)
    requires
        sd.len() == 88,
        x0.len() == 216,
        y0.len() == 216,
        x1.len() == 18,
        y1.len() == 18,
    ensures
        vole_hash_spec(sd, xor_seq(x0, y0), xor_seq(x1, y1)) == xor_seq(vole_hash_spec(sd, x0, x1), vole_hash_spec(sd, y0, y1)),
        vole_hash_spec(sd, x0, x1).len() == 18,
{
    let ya = x0 + zero8();
    let yb = y0 + zero8();
    let yab = xor_seq(x0, y0) + zero8();
    assert forall|i: int| 0 <= i < 224 implies #[trigger] yab[i] == xor_seq(ya, yb)[i] by {
        lemma_xor_assoc(0, 0, 0);
    }
    assert(yab =~= xor_seq(ya, yb));
    let s = sd.subrange(64, 80);
    let t = sd.subrange(80, 88);
    lemma_vole_hash_horner_linear(ya, yb, x0, y0, s, t);
    assert(Seq::new(14, |i: int| yab.subrange(16 * i, 16 * i + 16)) =~= blocks_of(xor_seq(ya, yb), 14, 16));
    assert(Seq::new(27, |i: int| xor_seq(x0, y0).subrange(8 * i, 8 * i + 8)) =~= blocks_of(xor_seq(x0, y0), 27, 8));
    assert(Seq::new(14, |i: int| ya.subrange(16 * i, 16 * i + 16)) =~= blocks_of(ya, 14, 16));
    assert(Seq::new(27, |i: int| x0.subrange(8 * i, 8 * i + 8)) =~= blocks_of(x0, 27, 8));
    assert(Seq::new(14, |i: int| yb.subrange(16 * i, 16 * i + 16)) =~= blocks_of(yb, 14, 16));
    assert(Seq::new(27, |i: int| y0.subrange(8 * i, 8 * i + 8)) =~= blocks_of(y0, 27, 8));
    let h0a = horner(blocks_of(ya, 14, 16), s, 14, zero_field(), gf_mul_fn());
    let h0b = horner(blocks_of(yb, 14, 16), s, 14, zero_field(), gf_mul_fn());
    let h1a = horner(blocks_of(x0, 27, 8), t, 27, zero8(), gf64_mul_fn()) + zero8();
    let h1b = horner(blocks_of(y0, 27, 8), t, 27, zero8(), gf64_mul_fn()) + zero8();
    let h1ab = xor_seq(horner(blocks_of(x0, 27, 8), t, 27, zero8(), gf64_mul_fn()), horner(blocks_of(y0, 27, 8), t, 27, zero8(), gf64_mul_fn())) + zero8();
    assert forall|i: int| 0 <= i < 16 implies #[trigger] h1ab[i] == xor_seq(h1a, h1b)[i] by {
        lemma_xor_assoc(0, 0, 0);
    }
    assert(h1ab =~= xor_seq(h1a, h1b));
    lemma_vole_hash_tail_linear(sd, h0a, h0b, h1a, h1b, x1, y1);
    assert(vole_hash_spec(sd, x0, x1) == vole_hash_tail(sd, h0a, h1a, x1));
    assert(vole_hash_spec(sd, y0, y1) == vole_hash_tail(sd, h0b, h1b, y1));
}

/// ZKHash is linear: hashing the sum of two lists of field elements and masks under one seed
/// gives the sum of the hashes.
pub proof fn lemma_zk_hash_linear(sd: Seq<u8>, x0: Seq<Seq<u8>>, x1: Seq<u8>, y0: Seq<Seq<u8>>, y1: Seq<u8>)
    requires
        sd.len() == 56,
        x0.len() == y0.len(),
        forall|i: int| 0 <= i < x0.len() ==> (#[trigger] x0[i]).len() == 16 && y0[i].len() == 16,
        x1.len() == 16,
        y1.len() == 16,
    ensures
        zk_hash_spec(sd, xor_blocks(x0, y0), xor_seq(x1, y1)) == xor_seq(zk_hash_spec(sd, x0, x1), zk_hash_spec(sd, y0, y1)),
        zk_hash_spec(sd, x0, x1).len() == 16,
{
    let r0 = sd.subrange(0, 16);
    let r1 = sd.subrange(16, 32);
    let s = sd.subrange(32, 48);
    let t = sd.subrange(48, 56);
    let n = x0.len() as int;
    let m128 = gf_mul_fn();
    let m64 = gf_mul_64_fn();
    assert forall|a: Seq<u8>, b: Seq<u8>| a.len() == 16 && b.len() == 16 implies #[trigger] m128(xor_seq(a, b), s)
        == xor_seq(m128(a, s), m128(b, s)) && m128(a, s).len() == 16 by {
        lemma_gf128_mul_distrib(a, b, s);
    }
    assert forall|a: Seq<u8>, b: Seq<u8>| a.len() == 16 && b.len() == 16 implies #[trigger] m64(xor_seq(a, b), t)
        == xor_seq(m64(a, t), m64(b, t)) && m64(a, t).len() == 16 by {
        lemma_gf_lambda_mul_64_distrib(a, b, t);
    }
    assert forall|i: int| 0 <= i < 16 implies #[trigger] zero_field()[i] == 0 by {}
    lemma_horner_linear(x0, y0, s, n, zero_field(), m128, 16);
    lemma_horner_linear(x0, y0, t, n, zero_field(), m64, 16);
    assert(xor_blocks(x0, y0).len() == n);
    let h0a = horner(x0, s, n, zero_field(), m128);
    let h0b = horner(y0, s, n, zero_field(), m128);
    let h1a = horner(x0, t, n, zero_field(), m64);
    let h1b = horner(y0, t, n, zero_field(), m64);
    lemma_gf128_mul_distrib(h0a, h0b, r0);
    lemma_gf128_mul_distrib(h1a, h1b, r1);
    lemma_gf128_mul_distrib(r0, r0, h0b);
    lemma_gf128_mul_distrib(r1, r1, h1b);
    lemma_gf128_mul_distrib(r0, r0, h0a);
    lemma_gf128_mul_distrib(r1, r1, h1a);
    let pa = gf_lambda_mul_spec(r0, h0a);
    let pb = gf_lambda_mul_spec(r0, h0b);
    let qa = gf_lambda_mul_spec(r1, h1a);
    let qb = gf_lambda_mul_spec(r1, h1b);
    lemma_xor_seq_swap(pa, pb, qa, qb);
    lemma_xor_seq_swap(xor_seq(pa, qa), xor_seq(pb, qb), x1, y1);
}

/// Each element of a list of field elements multiplied by `d`.
pub open spec fn scale_blocks(d: Seq<u8>, xs: Seq<Seq<u8>>) -> Seq<Seq<u8>> {
    Seq::new(xs.len(), |i: int| gf_lambda_mul_spec(d, xs[i]))
}

/// d (a b) = a (d b) in F_{2^128}.
proof fn lemma_gf_swap(d: Seq<u8>, a: Seq<u8>, b: Seq<u8>)
    requires
        d.len() == 16,
        a.len() == 16,
        b.len() == 16,
    ensures
        gf_lambda_mul_spec(a, gf_lambda_mul_spec(d, b)) == gf_lambda_mul_spec(d, gf_lambda_mul_spec(a, b)),
{
    lemma_gf128_mul_assoc(a, d, b);
    lemma_gf128_mul_assoc(d, a, b);
    lemma_gf128_mul_comm(a, d);
}

/// Horner evaluation at s of the blocks times d is d times the Horner evaluation, in
/// F_{2^128} and with a 64-bit point.
proof fn lemma_horner_homog(xs: Seq<Seq<u8>>, d: Seq<u8>, s: Seq<u8>, t: Seq<u8>, n: int)
    requires
        0 <= n <= xs.len(),
        forall|i: int| 0 <= i < xs.len() ==> (#[trigger] xs[i]).len() == 16,
        d.len() == 16,
        s.len() == 16,
    ensures
        horner(scale_blocks(d, xs), s, n, zero_field(), gf_mul_fn()) == gf_lambda_mul_spec(d, horner(xs, s, n, zero_field(), gf_mul_fn())),
        horner(scale_blocks(d, xs), t, n, zero_field(), gf_mul_64_fn()) == gf_lambda_mul_spec(d, horner(xs, t, n, zero_field(), gf_mul_64_fn())),
        horner(xs, s, n, zero_field(), gf_mul_fn()).len() == 16,
        horner(xs, t, n, zero_field(), gf_mul_64_fn()).len() == 16,
    decreases n,
{
    if n == 0 {
        assert(zero_field() =~= zero_bytes(16));
        lemma_gf128_mul_zero(d);
    } else {
        lemma_horner_homog(xs, d, s, t, n - 1);
        let h = horner(xs, s, n - 1, zero_field(), gf_mul_fn());
        let g = horner(xs, t, n - 1, zero_field(), gf_mul_64_fn());
        let x = xs[n - 1];
        assert(scale_blocks(d, xs)[n - 1] == gf_lambda_mul_spec(d, x));
        lemma_gf128_mul_distrib(h, h, s);
        lemma_gf128_mul_distrib(d, d, h);
        lemma_gf128_mul_assoc(d, h, s);
        lemma_gf128_mul_distrib(gf_lambda_mul_spec(h, s), x, d);
        lemma_gf_lambda_mul_64_distrib(g, g, t);
        lemma_gf128_mul_distrib(d, d, g);
        lemma_gf_shift_add_right(g, d, t, 64);
        lemma_gf128_mul_comm(g, d);
        lemma_gf128_mul_distrib(gf_lambda_mul_spec(d, g), gf_lambda_mul_spec(d, g), d);
        lemma_gf128_mul_distrib(crate::utils::galois_field::gf_lambda_mul_64_spec(g, t), x, d);
    }
}

/// ZKHash is homogeneous: hashing the lists and the mask times d gives d times the hash.
pub proof fn lemma_zk_hash_homog(sd: Seq<u8>, x0: Seq<Seq<u8>>, x1: Seq<u8>, d: Seq<u8>)
    requires
        sd.len() == 56,
        forall|i: int| 0 <= i < x0.len() ==> (#[trigger] x0[i]).len() == 16,
        x1.len() == 16,
        d.len() == 16,
    ensures
        zk_hash_spec(sd, scale_blocks(d, x0), gf_lambda_mul_spec(d, x1)) == gf_lambda_mul_spec(d, zk_hash_spec(sd, x0, x1)),
{
    let r0 = sd.subrange(0, 16);
    let r1 = sd.subrange(16, 32);
    let s = sd.subrange(32, 48);
    let t = sd.subrange(48, 56);
    let n = x0.len() as int;
    lemma_horner_homog(x0, d, s, t, n);
    assert(scale_blocks(d, x0).len() == n);
    let h0 = horner(x0, s, n, zero_field(), gf_mul_fn());
    let h1 = horner(x0, t, n, zero_field(), gf_mul_64_fn());
    lemma_gf_swap(d, r0, h0);
    lemma_gf_swap(d, r1, h1);
    let p = gf_lambda_mul_spec(r0, h0);
    let q = gf_lambda_mul_spec(r1, h1);
    lemma_gf128_mul_distrib(r0, r0, h0);
    lemma_gf128_mul_distrib(r1, r1, h1);
    lemma_gf128_mul_distrib(p, q, d);
    lemma_gf128_mul_distrib(xor_seq(p, q), x1, d);
}

/// The QuickSilver check of ZKHash: where each constraint value of the verifier is
/// B = A_0 + Delta A_1 and its mask is q* = v* + Delta u*, its hash plus Delta times the
/// prover's a~ = ZKHash(A_1, u*) is the prover's b~ = ZKHash(A_0, v*).
pub proof fn lemma_zk_hash_check(sd: Seq<u8>, a0: Seq<Seq<u8>>, a1: Seq<Seq<u8>>, v_star: Seq<u8>, u_star: Seq<u8>, delta: Seq<u8>)
    requires
        sd.len() == 56,
        a0.len() == a1.len(),
        forall|i: int| 0 <= i < a0.len() ==> (#[trigger] a0[i]).len() == 16 && a1[i].len() == 16,
        v_star.len() == 16,
        u_star.len() == 16,
        delta.len() == 16,
    ensures
        xor_seq(
            zk_hash_spec(sd, xor_blocks(a0, scale_blocks(delta, a1)), xor_seq(v_star, gf_lambda_mul_spec(delta, u_star))),
            gf_lambda_mul_spec(zk_hash_spec(sd, a1, u_star), delta),
        ) == zk_hash_spec(sd, a0, v_star),
{
    let sa1 = scale_blocks(delta, a1);
    assert forall|i: int| 0 <= i < a0.len() implies (#[trigger] a0[i]).len() == 16 && sa1[i].len() == 16 by {
        assert(a0[i].len() == 16);
        assert(a1[i].len() == 16);
        lemma_gf128_mul_distrib(delta, delta, a1[i]);
    }
    lemma_gf128_mul_distrib(delta, delta, u_star);
    lemma_zk_hash_linear(sd, a0, v_star, sa1, gf_lambda_mul_spec(delta, u_star));
    assert forall|i: int| 0 <= i < a1.len() implies (#[trigger] a1[i]).len() == 16 by {
        assert(a0[i].len() == 16 && a1[i].len() == 16);
    }
    lemma_zk_hash_homog(sd, a1, u_star, delta);
    let z0 = zk_hash_spec(sd, a0, v_star);
    let z1 = zk_hash_spec(sd, a1, u_star);
    lemma_zk_hash_linear(sd, a1, u_star, a1, u_star);
    lemma_gf128_mul_comm(z1, delta);
    let dz = gf_lambda_mul_spec(delta, z1);
    lemma_gf128_mul_distrib(delta, delta, z1);
    assert forall|i: int| 0 <= i < 16 implies #[trigger] xor_seq(xor_seq(z0, dz), dz)[i] == z0[i] by {
        lemma_xor_assoc(z0[i], dz[i], dz[i]);
        lemma_xor_assoc(dz[i], 0, 0);
        lemma_xor_assoc(z0[i], 0, 0);
    }
    assert(xor_seq(xor_seq(z0, dz), dz) =~= z0);
}

} // verus!
