use vstd::prelude::*;
use vstd::arithmetic::power2::{lemma2_to64, lemma_pow2_strictly_increases, pow2};
use crate::protocols::fs_vole::{chall_bits, instance_depth, instance_root, instance_rows, instance_u, lemma_chall_bits_are_bits, lemma_xor_bit_rows_len, lemma_xor_seq_props, rec_instance_rows, rows_wf, shifted_seeds, vole_rows, vole_v, xor_bit_rows, xor_range, zero_col};
use crate::utils::constants::{ell_hat_bytes, tau};
use crate::utils::ggm_tree::bit_at;
use crate::utils::math::xor_seq;
use crate::utils::preliminary_helper_methods::{lemma_num_rec_bit, num_rec};
use crate::utils::prg::prg_spec;
use crate::utils::types::zero16;
use crate::utils::vector_commit::{commit_seeds, cop_of, lemma_vec_open_reconstruct, rec_seeds};

verus! {

/// The exclusive or of `f(t)` for `t < n`.
pub open spec fn xor_sum(f: spec_fn(int) -> Seq<u8>, n: int) -> Seq<u8>
    decreases n,
{
    if n <= 0 {
        zero_col()
    } else {
        xor_seq(xor_sum(f, n - 1), f(n - 1))
    }
}

/// Every `f(t)` for `t < n` has the length of a VOLE column.
pub open spec fn cols_wf(f: spec_fn(int) -> Seq<u8>, n: int) -> bool {
    forall|t: int| 0 <= t < n ==> (#[trigger] f(t)).len() == ell_hat_bytes
}

proof fn lemma_xor_sum_len(f: spec_fn(int) -> Seq<u8>, n: int)
    requires
        cols_wf(f, n),
    ensures
        xor_sum(f, n).len() == ell_hat_bytes,
    decreases n,
{
    if n > 0 {
        lemma_xor_sum_len(f, n - 1);
    }
}

/// The sum only depends on the terms below `n`.
proof fn lemma_xor_sum_congr(f: spec_fn(int) -> Seq<u8>, g: spec_fn(int) -> Seq<u8>, n: int)
    requires
        forall|t: int| 0 <= t < n ==> #[trigger] f(t) == g(t),
    ensures
        xor_sum(f, n) == xor_sum(g, n),
    decreases n,
{
    if n > 0 {
        lemma_xor_sum_congr(f, g, n - 1);
        assert(f(n - 1) == g(n - 1));
    }
}

/// A sum over `a + b` terms is the sum of the first `a` terms plus the sum of the next `b`.
proof fn lemma_xor_sum_split(f: spec_fn(int) -> Seq<u8>, a: int, b: int)
    requires
        0 <= a,
        0 <= b,
        cols_wf(f, a + b),
    ensures
        xor_sum(f, a + b) == xor_seq(xor_sum(f, a), xor_sum(|t: int| f(a + t), b)),
    decreases b,
{
    let g = |t: int| f(a + t);
    lemma_xor_sum_len(f, a);
    if b == 0 {
        lemma_xor_seq_props(xor_sum(f, a), zero_col(), zero_col());
    } else {
        lemma_xor_sum_split(f, a, b - 1);
        assert(cols_wf(g, b - 1));
        lemma_xor_sum_len(g, b - 1);
        assert(g(b - 1) == f(a + b - 1));
        lemma_xor_seq_props(xor_sum(f, a), xor_sum(g, b - 1), f(a + b - 1));
    }
}

/// The sum of pointwise sums is the sum of the two sums.
proof fn lemma_xor_sum_add(f: spec_fn(int) -> Seq<u8>, g: spec_fn(int) -> Seq<u8>, n: int)
    requires
        cols_wf(f, n),
        cols_wf(g, n),
    ensures
        xor_sum(|t: int| xor_seq(f(t), g(t)), n) == xor_seq(xor_sum(f, n), xor_sum(g, n)),
    decreases n,
{
    let h = |t: int| xor_seq(f(t), g(t));
    if n <= 0 {
        lemma_xor_seq_props(zero_col(), zero_col(), zero_col());
    } else {
        lemma_xor_sum_add(f, g, n - 1);
        lemma_xor_sum_len(f, n - 1);
        lemma_xor_sum_len(g, n - 1);
        let a = xor_sum(f, n - 1);
        let b = xor_sum(g, n - 1);
        let x = f(n - 1);
        let y = g(n - 1);
        assert(h(n - 1) == xor_seq(x, y));
        lemma_xor_seq_props(a, b, xor_seq(x, y));
        lemma_xor_seq_props(b, x, y);
        lemma_xor_seq_props(x, b, y);
        lemma_xor_seq_props(a, x, xor_seq(b, y));
        lemma_xor_seq_props(xor_seq(a, x), b, y);
    }
}

/// Facts on the bits of indices below a power of two.
proof fn lemma_xor_halves(e: usize, t: usize, d: usize)
    by (bit_vector)
    requires
        e <= 12,
        t < (1usize << e),
        d < (1usize << e),
    ensures
        t ^ d < (1usize << e),
        (((1usize << e) + t) as usize) ^ d == (1usize << e) + (t ^ d),
        t ^ (((1usize << e) + d) as usize) == (1usize << e) + (t ^ d),
        (((1usize << e) + t) as usize) ^ (((1usize << e) + d) as usize) == t ^ d,
        t ^ 0usize == t,
{
}

/// 2^e as a shift, for e <= 12.
proof fn lemma_pow2_shift(e: nat)
    requires
        e <= 12,
    ensures
        pow2(e) == (1usize << (e as usize)),
        pow2(e) <= 4096,
{
    lemma2_to64();
    if e < 12 {
        lemma_pow2_strictly_increases(e, 12);
    }
    vstd::bits::lemma_usize_shl_is_mul(1, e as usize);
}

/// Summing over the indices moved by `t -> t ^ d` gives the same sum, for `d < 2^k`.
pub proof fn lemma_xor_sum_shift(f: spec_fn(int) -> Seq<u8>, k: nat, d: usize)
    requires
        k <= 12,
        d < pow2(k),
        cols_wf(f, pow2(k) as int),
    ensures
        xor_sum(|t: int| f((t as usize ^ d) as int), pow2(k) as int) == xor_sum(f, pow2(k) as int),
    decreases k,
{
    let g = |t: int| f((t as usize ^ d) as int);
    lemma2_to64();
    if k == 0 {
        assert(d == 0);
        lemma_pow2_shift(0);
        lemma_xor_halves(0, 0, 0);
        assert(g(0) == f(0));
        assert(pow2(k) as int == 1);
        assert(xor_sum(g, 1) == xor_seq(xor_sum(g, 0), g(0)));
        assert(xor_sum(f, 1) == xor_seq(xor_sum(f, 0), f(0)));
    } else {
        let e: nat = (k - 1) as nat;
        let h = pow2(e) as int;
        lemma_pow2_shift(e);
        vstd::arithmetic::power2::lemma_pow2_unfold(k);
        assert(pow2(k) == 2 * pow2(e));
        let fu = |s: int| f(h + s);
        assert(cols_wf(fu, h));
        assert(cols_wf(f, h));
        assert(cols_wf(g, h + h)) by {
            assert forall|t: int| 0 <= t < h + h implies (#[trigger] g(t)).len() == ell_hat_bytes by {
                if t < h {
                    lemma_xor_halves(e as usize, t as usize, if d < h { d } else { (d - h) as usize });
                } else {
                    lemma_xor_halves(e as usize, (t - h) as usize, if d < h { d } else { (d - h) as usize });
                }
            }
        }
        lemma_xor_sum_split(g, h, h);
        lemma_xor_sum_split(f, h, h);
        let gu = |t: int| g(h + t);
        if d < h {
            lemma_xor_sum_shift(f, e, d);
            lemma_xor_sum_shift(fu, e, d);
            assert forall|t: int| 0 <= t < h implies #[trigger] gu(t) == fu((t as usize ^ d) as int) by {
                lemma_xor_halves(e as usize, t as usize, d);
            }
            lemma_xor_sum_congr(gu, |t: int| fu((t as usize ^ d) as int), h);
            assert forall|t: int| 0 <= t < h implies #[trigger] g(t) == f((t as usize ^ d) as int) by {}
            lemma_xor_sum_congr(g, |t: int| f((t as usize ^ d) as int), h);
            assert(xor_sum(g, h) == xor_sum(f, h));
            assert(xor_sum(gu, h) == xor_sum(fu, h));
        } else {
            let d2 = (d - h) as usize;
            lemma_xor_sum_shift(f, e, d2);
            lemma_xor_sum_shift(fu, e, d2);
            assert forall|t: int| 0 <= t < h implies #[trigger] g(t) == fu((t as usize ^ d2) as int) by {
                lemma_xor_halves(e as usize, t as usize, d2);
            }
            lemma_xor_sum_congr(g, |t: int| fu((t as usize ^ d2) as int), h);
            assert forall|t: int| 0 <= t < h implies #[trigger] gu(t) == f((t as usize ^ d2) as int) by {
                lemma_xor_halves(e as usize, t as usize, d2);
            }
            lemma_xor_sum_congr(gu, |t: int| f((t as usize ^ d2) as int), h);
            lemma_xor_sum_len(f, h);
            lemma_xor_sum_len(fu, h);
            lemma_xor_seq_props(xor_sum(f, h), xor_sum(fu, h), zero_col());
            assert(xor_sum(g, h) == xor_sum(fu, h));
            assert(xor_sum(gu, h) == xor_sum(f, h));
        }
        assert((|t: int| g(h + t)) =~= gu);
        assert((|t: int| f(h + t)) =~= fu);
        assert(pow2(k) as int == h + h);
        assert(xor_sum(g, h + h) == xor_seq(xor_sum(g, h), xor_sum(gu, h)));
        assert(xor_sum(f, h + h) == xor_seq(xor_sum(f, h), xor_sum(fu, h)));
        assert(xor_sum(g, pow2(k) as int) == xor_sum(f, pow2(k) as int));
    }
}

/// The terms of column `j`: row `t` where bit `j` of `t` is set, else the zero column.
pub open spec fn bit_terms(rows: Seq<Seq<u8>>, j: nat) -> spec_fn(int) -> Seq<u8> {
    |t: int| if bit_at(t as nat, j) == 1 { rows[t] } else { zero_col() }
}

/// A column of V is the sum of its terms.
proof fn lemma_xor_bit_rows_sum(rows: Seq<Seq<u8>>, j: nat, n: int)
    requires
        rows_wf(rows),
        0 <= n <= rows.len(),
    ensures
        xor_bit_rows(rows, j, n) == xor_sum(bit_terms(rows, j), n),
    decreases n,
{
    if n > 0 {
        lemma_xor_bit_rows_sum(rows, j, n - 1);
        lemma_xor_bit_rows_len(rows, j, n - 1);
        lemma_xor_seq_props(xor_bit_rows(rows, j, n - 1), zero_col(), zero_col());
    }
}

/// u is the sum of all rows.
proof fn lemma_xor_range_sum(rows: Seq<Seq<u8>>, n: int)
    requires
        rows_wf(rows),
        0 <= n <= rows.len(),
    ensures
        xor_range(rows, 0, n) == xor_sum(|t: int| rows[t], n),
    decreases n,
{
    if n > 0 {
        lemma_xor_range_sum(rows, n - 1);
    }
}

proof fn lemma_xor_bits(t: usize, d: usize, j: usize)
    by (bit_vector)
    ensures
        (t >> j) & 1usize == 0usize || (t >> j) & 1usize == 1usize,
        (d >> j) & 1usize == 0usize ==> ((t ^ d) >> j) & 1usize == (t >> j) & 1usize,
        ((d >> j) & 1usize == 1usize && (t >> j) & 1usize == 0usize) ==> ((t ^ d) >> j) & 1usize == 1usize,
        ((d >> j) & 1usize == 1usize && (t >> j) & 1usize == 1usize) ==> ((t ^ d) >> j) & 1usize == 0usize,
        (t ^ d) ^ d == t,
        (t ^ d) == 0usize ==> t == d,
        t == d ==> (t ^ d) == 0usize,
        (0usize >> j) & 1usize == 0usize,
{
}

/// Bit `j` of `t ^ d` is bit `j` of `t`, flipped where bit `j` of `d` is set.
proof fn lemma_bit_at_xor(t: usize, d: usize, j: nat)
    requires
        j < 32,
    ensures
        bit_at((t ^ d) as nat, j) == if bit_at(d as nat, j) == 1 { 1 - bit_at(t as nat, j) } else { bit_at(t as nat, j) as int },
        bit_at(t as nat, j) <= 1,
        (t ^ d) ^ d == t,
        ((t ^ d) == 0) == (t == d),
        bit_at(0, j) == 0,
{
    lemma_xor_bits(t, d, j as usize);
    vstd::bits::lemma_usize_shr_is_div(t ^ d, j as usize);
    vstd::bits::lemma_usize_shr_is_div(t, j as usize);
    vstd::bits::lemma_usize_shr_is_div(d, j as usize);
    vstd::bits::lemma_usize_shr_is_div(0, j as usize);
    vstd::bits::lemma_low_bits_mask_values();
    lemma2_to64();
    vstd::bits::lemma_usize_low_bits_mask_is_mod((t ^ d) >> (j as usize), 1);
    vstd::bits::lemma_usize_low_bits_mask_is_mod(t >> (j as usize), 1);
    vstd::bits::lemma_usize_low_bits_mask_is_mod(d >> (j as usize), 1);
    vstd::bits::lemma_usize_low_bits_mask_is_mod(0usize >> (j as usize), 1);
}

/// VOLE correlation of one tree of depth `k` opened at leaf `delta`: the verifier's column
/// `j` (from the seeds rebuilt from the opening, moved by `t -> t ^ delta`) is the prover's
/// column `j` where bit `j` of `delta` is 0, and the prover's column `j` plus u where it is
/// 1. Seed 0 of the prover must not be the all-zero seed, which marks the unknown leaf.
pub proof fn lemma_vole_correlation_core(root: Seq<u8>, iv: Seq<u8>, k: nat, delta: nat, j: nat)
    requires
        1 <= k <= 12,
        delta < pow2(k),
        j < k,
        commit_seeds(root, iv, k)[0] != zero16(),
    ensures
        ({
            let p = vole_rows(commit_seeds(root, iv, k), iv);
            let q = vole_rows(shifted_seeds(rec_seeds(cop_of(root, iv, delta, k), iv, delta, k), delta as usize), iv);
            xor_bit_rows(q, j, pow2(k) as int) == if bit_at(delta, j) == 1 {
                xor_seq(xor_bit_rows(p, j, pow2(k) as int), xor_range(p, 0, pow2(k) as int))
            } else {
                xor_bit_rows(p, j, pow2(k) as int)
            }
        }),
{
    let n = pow2(k) as int;
    let s = commit_seeds(root, iv, k);
    let rec = rec_seeds(cop_of(root, iv, delta, k), iv, delta, k);
    let d = delta as usize;
    let sh = shifted_seeds(rec, d);
    let p = vole_rows(s, iv);
    let q = vole_rows(sh, iv);
    let r = |x: int| prg_spec(s[x], iv, ell_hat_bytes as nat);
    lemma_pow2_shift(k);
    lemma_vec_open_reconstruct(root, iv, delta, k);
    assert(rows_wf(p));
    assert(rows_wf(q));
    assert forall|x: int| 0 <= x < n implies #[trigger] p[x] == r(x) by {}
    let a = bit_terms(q, j);
    let v = bit_terms(p, j);
    let g = |x: int| a((x as usize ^ d) as int);
    assert forall|x: int| 0 <= x < n implies (#[trigger] g(x)) == if bit_at((x as usize ^ d) as nat, j) == 1 { r(x) } else { zero_col() } by {
        lemma_xor_halves(k as usize, x as usize, d);
        lemma_bit_at_xor(x as usize, d, j);
        let y = (x as usize ^ d) as int;
        if bit_at(y as nat, j) == 1 {
            assert(y != 0);
            assert(sh[y] == rec[(y as usize ^ d) as int]);
            assert((y as usize ^ d) as int == x);
            assert(x != delta);
        }
    }
    assert(cols_wf(g, n));
    lemma_xor_sum_shift(g, k, d);
    let gs = |t: int| g((t as usize ^ d) as int);
    assert forall|t: int| 0 <= t < n implies #[trigger] a(t) == gs(t) by {
        lemma_xor_halves(k as usize, t as usize, d);
        lemma_bit_at_xor(t as usize, d, j);
    }
    lemma_xor_sum_congr(a, gs, n);
    lemma_xor_bit_rows_sum(q, j, n);
    lemma_xor_bit_rows_sum(p, j, n);
    if bit_at(delta, j) == 1 {
        assert forall|x: int| 0 <= x < n implies #[trigger] g(x) == (if bit_at(x as nat, j) == 0 { r(x) } else { zero_col() }) by {
            lemma_bit_at_xor(x as usize, d, j);
        }
        let gw = |x: int| if bit_at(x as nat, j) == 0 { r(x) } else { zero_col() };
        lemma_xor_sum_congr(g, gw, n);
        let pr = |t: int| p[t];
        let gv = |t: int| xor_seq(gw(t), v(t));
        assert forall|x: int| 0 <= x < n implies #[trigger] pr(x) == gv(x) by {
            lemma_xor_seq_props(r(x), zero_col(), zero_col());
        }
        lemma_xor_sum_congr(pr, gv, n);
        assert(cols_wf(gw, n));
        assert(cols_wf(v, n));
        lemma_xor_sum_add(gw, v, n);
        lemma_xor_range_sum(p, n);
        lemma_xor_sum_len(gw, n);
        lemma_xor_sum_len(v, n);
        let sa = xor_sum(gw, n);
        let sb = xor_sum(v, n);
        lemma_xor_seq_props(sb, sa, sb);
        lemma_xor_seq_props(sa, sb, sb);
        lemma_xor_seq_props(sb, sb, sa);
        lemma_xor_seq_props(sa, zero_col(), zero_col());
    } else {
        assert forall|x: int| 0 <= x < n implies #[trigger] g(x) == v(x) by {
            lemma_bit_at_xor(x as usize, d, j);
        }
        lemma_xor_sum_congr(g, v, n);
    }
}

/// VOLE correlation of small-VOLE instance `i` of FAEST: when the verifier rebuilds the
/// instance from the honest opening at the leaf its challenge bits Delta select, its column
/// `j` is the prover's column `j` where bit `j` of Delta is 0, and the prover's column `j`
/// plus the prover's u where it is 1 (q_j = v_j + Delta_j u). Seed 0 of the prover must not
/// be the all-zero seed, which marks the verifier's unknown leaf.
pub proof fn lemma_vole_correlation(r: Seq<u8>, iv: Seq<u8>, chall: Seq<u8>, i: int, j: int)
    requires
        0 <= i < tau,
        chall.len() == 16,
        0 <= j < instance_depth(i),
        commit_seeds(instance_root(r, iv, i), iv, instance_depth(i))[0] != zero16(),
    ensures
        vole_v(rec_instance_rows(cop_of(instance_root(r, iv, i), iv, num_rec(chall_bits(chall, i)), instance_depth(i)), chall, iv, i), j as nat)
            == if chall_bits(chall, i)[j] == 1 {
            xor_seq(vole_v(instance_rows(r, iv, i), j as nat), instance_u(r, iv, i))
        } else {
            vole_v(instance_rows(r, iv, i), j as nat)
        },
{
    let k = instance_depth(i);
    let b = chall_bits(chall, i);
    lemma_chall_bits_are_bits(chall, i);
    lemma_num_rec_bit(b, j);
    lemma_vole_correlation_core(instance_root(r, iv, i), iv, k, num_rec(b), j as nat);
}

} // verus!
