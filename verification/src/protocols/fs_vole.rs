#![allow(non_snake_case, non_upper_case_globals)]

use vstd::prelude::*;
use vstd::arithmetic::power2::{pow2, lemma_pow2_adds, lemma2_to64, lemma_pow2_pos};
use vstd::arithmetic::div_mod::lemma_fundamental_div_mod;
use crate::utils::constants::{ell_hat_bytes, k_0, k_1, k_0_pow, k_1_pow, tau, tau_0, tau_minus_one};
use crate::utils::ggm_tree::bit_at;
use crate::utils::math::{arrays_equal, lemma_xor_assoc, xor_arrays, xor_seq};
use crate::utils::prg::{prg_block, prg_convert_to_vole, prg_spec};
use crate::utils::types::{sized_array_for_sds, sized_array_for_coms, sized_array_for_cop, sized_array_for_q_v, zero16, Log2Number};
use crate::utils::hash_functions::{concat_rows, concat_seqs, h_1_for_352, lemma_concat_rows_index, rows_view};
use crate::utils::math::{bits_of_bytes, bitand_mod, lemma_bit_position};
use crate::utils::libcrux_proxy::shake128_spec;
use crate::utils::prg::prg_vole_commit_r;
use crate::utils::preliminary_helper_methods::{flatten, num_rec, num_rec_k0, num_rec_k1, xor_with_bound, lemma_num_rec_bits_bound};
use crate::utils::vector_commit::{
    commit_coms, commit_seeds, commitment_hash, cop_view, rec_coms, rec_seeds, vec_commit_k0, vec_commit_k1,
    vec_reconstruct_k0, vec_reconstruct_k1,
};

verus! {

/// The all-zero VOLE column.
pub open spec fn zero_col() -> Seq<u8> {
    Seq::new(ell_hat_bytes as nat, |i: int| 0u8)
}

/// The PRG expansion of every leaf seed; a zero seed at leaf 0 (the verifier's unknown
/// leaf, shifted there) gives the zero column instead.
pub open spec fn vole_rows(sds: Seq<Seq<u8>>, iv: Seq<u8>) -> Seq<Seq<u8>> {
    Seq::new(
        sds.len(),
        |i: int|
            if i == 0 && sds[0] == zero16() {
                zero_col()
            } else {
                prg_spec(sds[i], iv, ell_hat_bytes as nat)
            },
    )
}

/// Exclusive or of rows `lo .. hi`.
pub open spec fn xor_range(rows: Seq<Seq<u8>>, lo: int, hi: int) -> Seq<u8>
    decreases hi - lo,
{
    if hi <= lo {
        zero_col()
    } else {
        xor_seq(xor_range(rows, lo, hi - 1), rows[hi - 1])
    }
}

/// Exclusive or of the rows `t < n` whose index has bit `j` set.
pub open spec fn xor_bit_rows(rows: Seq<Seq<u8>>, j: nat, n: int) -> Seq<u8>
    decreases n,
{
    if n <= 0 {
        zero_col()
    } else if bit_at((n - 1) as nat, j) == 1 {
        xor_seq(xor_bit_rows(rows, j, n - 1), rows[n - 1])
    } else {
        xor_bit_rows(rows, j, n - 1)
    }
}

/// All rows have the length of a VOLE column.
pub open spec fn rows_wf(rows: Seq<Seq<u8>>) -> bool {
    forall|i: int| 0 <= i < rows.len() ==> (#[trigger] rows[i]).len() == ell_hat_bytes
}

pub(crate) proof fn lemma_xor_seq_props(a: Seq<u8>, b: Seq<u8>, c: Seq<u8>)
    requires
        a.len() == ell_hat_bytes,
        b.len() == ell_hat_bytes,
        c.len() == ell_hat_bytes,
    ensures
        xor_seq(xor_seq(a, b), c) == xor_seq(a, xor_seq(b, c)),
        xor_seq(a, zero_col()) == a,
        xor_seq(zero_col(), a) == a,
        xor_seq(a, b) == xor_seq(b, a),
        xor_seq(a, a) == zero_col(),
{
    assert forall|i: int| 0 <= i < ell_hat_bytes implies #[trigger] xor_seq(xor_seq(a, b), c)[i] == xor_seq(a, xor_seq(b, c))[i] by {
        lemma_xor_assoc(a[i], b[i], c[i]);
    }
    assert forall|i: int| 0 <= i < ell_hat_bytes implies #[trigger] xor_seq(a, zero_col())[i] == a[i] by {
        lemma_xor_assoc(a[i], 0, 0);
    }
    assert forall|i: int| 0 <= i < ell_hat_bytes implies #[trigger] xor_seq(zero_col(), a)[i] == a[i] by {
        lemma_xor_assoc(a[i], 0, 0);
    }
    assert forall|i: int| 0 <= i < ell_hat_bytes implies #[trigger] xor_seq(a, b)[i] == xor_seq(b, a)[i] by {
        lemma_xor_assoc(a[i], b[i], 0);
    }
    assert forall|i: int| 0 <= i < ell_hat_bytes implies #[trigger] xor_seq(a, a)[i] == zero_col()[i] by {
        lemma_xor_assoc(a[i], 0, 0);
    }
    assert(xor_seq(xor_seq(a, b), c) =~= xor_seq(a, xor_seq(b, c)));
    assert(xor_seq(a, zero_col()) =~= a);
    assert(xor_seq(zero_col(), a) =~= a);
    assert(xor_seq(a, b) =~= xor_seq(b, a));
    assert(xor_seq(a, a) =~= zero_col());
}

pub(crate) proof fn lemma_xor_range_len(rows: Seq<Seq<u8>>, lo: int, hi: int)
    requires
        rows_wf(rows),
        0 <= lo,
        hi <= rows.len(),
    ensures
        xor_range(rows, lo, hi).len() == ell_hat_bytes,
    decreases hi - lo,
{
    if hi > lo {
        lemma_xor_range_len(rows, lo, hi - 1);
    }
}

pub(crate) proof fn lemma_xor_bit_rows_len(rows: Seq<Seq<u8>>, j: nat, n: int)
    requires
        rows_wf(rows),
        n <= rows.len(),
    ensures
        xor_bit_rows(rows, j, n).len() == ell_hat_bytes,
    decreases n,
{
    if n > 0 {
        lemma_xor_bit_rows_len(rows, j, n - 1);
    }
}

/// Splitting a range of rows.
proof fn lemma_xor_range_split(rows: Seq<Seq<u8>>, lo: int, mid: int, hi: int)
    requires
        rows_wf(rows),
        0 <= lo <= mid <= hi <= rows.len(),
    ensures
        xor_range(rows, lo, hi) == xor_seq(xor_range(rows, lo, mid), xor_range(rows, mid, hi)),
    decreases hi - mid,
{
    lemma_xor_range_len(rows, lo, mid);
    if hi == mid {
        lemma_xor_seq_props(xor_range(rows, lo, mid), zero_col(), zero_col());
    } else {
        lemma_xor_range_split(rows, lo, mid, hi - 1);
        lemma_xor_range_len(rows, mid, hi - 1);
        lemma_xor_seq_props(xor_range(rows, lo, mid), xor_range(rows, mid, hi - 1), rows[hi - 1]);
    }
}

/// Within an aligned block of 2^j rows, bit `j` of the index is constant.
proof fn lemma_bit_in_block(t: nat, q: nat, j: nat)
    requires
        q * pow2(j) <= t < (q + 1) * pow2(j),
    ensures
        bit_at(t, j) == q % 2,
{
    lemma_pow2_pos(j);
    let p = pow2(j);
    lemma_fundamental_div_mod(t as int, p as int);
    assert(t / p == q) by (nonlinear_arith)
        requires
            q * p <= t < (q + 1) * p,
            p > 0,
            t == p * (t / p) + t % p,
            0 <= t % p < p,
    ;
}

/// Adding a block of rows to the bit-selected exclusive or.
proof fn lemma_xor_bit_rows_block(rows: Seq<Seq<u8>>, j: nat, q: nat, m: int)
    requires
        rows_wf(rows),
        q * pow2(j) <= m <= (q + 1) * pow2(j),
        m <= rows.len(),
    ensures
        q % 2 == 1 ==> xor_bit_rows(rows, j, m) == xor_seq(xor_bit_rows(rows, j, q * pow2(j) as int), xor_range(rows, q * pow2(j) as int, m)),
        q % 2 == 0 ==> xor_bit_rows(rows, j, m) == xor_bit_rows(rows, j, q * pow2(j) as int),
    decreases m - q * pow2(j),
{
    let s = (q * pow2(j)) as int;
    lemma_xor_bit_rows_len(rows, j, s);
    if m == s {
        lemma_xor_seq_props(xor_bit_rows(rows, j, s), zero_col(), zero_col());
    } else {
        lemma_xor_bit_rows_block(rows, j, q, m - 1);
        lemma_bit_in_block((m - 1) as nat, q, j);
        lemma_xor_range_len(rows, s, m - 1);
        lemma_xor_seq_props(xor_bit_rows(rows, j, s), xor_range(rows, s, m - 1), rows[m - 1]);
    }
}

/// Below 2^j no index has bit `j` set.
proof fn lemma_xor_bit_rows_small(rows: Seq<Seq<u8>>, j: nat, n: int)
    requires
        n <= pow2(j),
    ensures
        xor_bit_rows(rows, j, n) == zero_col(),
    decreases n,
{
    if n > 0 {
        lemma_xor_bit_rows_small(rows, j, n - 1);
        lemma_pow2_pos(j);
        vstd::arithmetic::div_mod::lemma_basic_div((n - 1) as int, pow2(j) as int);
    }
}

/// The u vector of ConvertToVOLE: the exclusive or of the first 2^d rows, when there are that many.
pub open spec fn vole_u(rows: Seq<Seq<u8>>, d: nat) -> Seq<u8> {
    if pow2(d) <= rows.len() {
        xor_range(rows, 0, pow2(d) as int)
    } else {
        zero_col()
    }
}

/// Column `j` of the V matrix of ConvertToVOLE: the exclusive or of the rows whose index has bit `j` set.
pub open spec fn vole_v(rows: Seq<Seq<u8>>, j: nat) -> Seq<u8> {
    xor_bit_rows(rows, j, rows.len() as int)
}

/// The leaf seeds, as sequences.
pub open spec fn seeds_view(sds: sized_array_for_sds) -> Seq<Seq<u8>> {
    rows_view(sds.seeds())
}

/// Level `j` of the pairwise reduction: rows `i 2^j .. (i+1) 2^j`, summed.
proof fn lemma_level_step(rows: Seq<Seq<u8>>, j: nat, i: int)
    requires
        rows_wf(rows),
        0 <= i,
        (2 * i + 2) * pow2(j) <= rows.len(),
    ensures
        xor_range(rows, i * pow2(j + 1), (i + 1) * pow2(j + 1)) == xor_seq(
            xor_range(rows, 2 * i * pow2(j), (2 * i + 1) * pow2(j)),
            xor_range(rows, (2 * i + 1) * pow2(j), (2 * i + 2) * pow2(j)),
        ),
{
    lemma2_to64();
    lemma_pow2_adds(j, 1);
    let p = pow2(j);
    assert(i * (p * 2) == 2 * i * p && (i + 1) * (p * 2) == (2 * i + 2) * p) by (nonlinear_arith);
    assert(2 * i * p <= (2 * i + 1) * p <= (2 * i + 2) * p) by (nonlinear_arith)
        requires
            i >= 0,
            p >= 0,
    ;
    assert(0 <= 2 * i * p) by (nonlinear_arith)
        requires
            i >= 0,
            p >= 0,
    ;
    lemma_xor_range_split(rows, 2 * i * p, (2 * i + 1) * p, (2 * i + 2) * p);
}

/// Level 0 of the reduction is the rows themselves.
proof fn lemma_level0(rows: Seq<Seq<u8>>)
    requires
        rows_wf(rows),
    ensures
        forall|t: int| 0 <= t < rows.len() ==> #[trigger] xor_range(rows, t * pow2(0), (t + 1) * pow2(0)) == rows[t],
{
    lemma2_to64();
    assert forall|t: int| 0 <= t < rows.len() implies #[trigger] xor_range(rows, t * pow2(0), (t + 1) * pow2(0)) == rows[t] by {
        assert(t * pow2(0) == t && (t + 1) * pow2(0) == t + 1) by (nonlinear_arith)
            requires
                pow2(0) == 1,
        ;
        assert(xor_range(rows, t, t) == zero_col());
        lemma_xor_seq_props(rows[t], zero_col(), zero_col());
    }
}

/// The PRG expansions of all seeds, the first one zero if `first_zero`.
fn expand_rows(seeds: &[[u8; 16]], iv: [u8; 16], first_zero: bool, Ghost(rows): Ghost<Seq<Seq<u8>>>) -> (cur: Vec<[u8; ell_hat_bytes]>)
    requires
        seeds@.len() == rows.len(),
        forall|t: int| 0 <= t < rows.len() ==> #[trigger] rows[t] == if t == 0 && first_zero {
            zero_col()
        } else {
            prg_spec(seeds@[t]@, iv@, ell_hat_bytes as nat)
        },
    ensures
        cur@.len() == rows.len(),
        forall|t: int| 0 <= t < rows.len() ==> #[trigger] cur@[t]@ == rows[t],
        rows_wf(rows),
{
    let n = seeds.len();
    let mut cur: Vec<[u8; ell_hat_bytes]> = Vec::new();
    let mut i: usize = 0;
    while i < n
        invariant
            0 <= i <= n,
            n == seeds@.len(),
            n == rows.len(),
            forall|t: int| 0 <= t < rows.len() ==> #[trigger] rows[t] == if t == 0 && first_zero {
                zero_col()
            } else {
                prg_spec(seeds@[t]@, iv@, ell_hat_bytes as nat)
            },
            cur@.len() == i,
            forall|t: int| 0 <= t < i ==> #[trigger] cur@[t]@ == rows[t],
        decreases n - i,
    {
        if i == 0 && first_zero {
            let z = [0u8; ell_hat_bytes];
            assert(z@ =~= zero_col());
            cur.push(z);
        } else {
            cur.push(prg_convert_to_vole(seeds[i], iv));
        }
        i = i + 1;
    }
    assert forall|t: int| 0 <= t < rows.len() implies (#[trigger] rows[t]).len() == ell_hat_bytes by {
        assert(cur@[t]@ == rows[t]);
    }
    cur
}

/// ConvertToVOLE: from the 2^d leaf seeds of a vector commitment, the column u (the sum of
/// all expanded seeds) and the d columns of V (column j sums the expanded seeds whose index
/// has bit j set).  A zero seed at leaf 0 stands for an unknown leaf and contributes zero.
pub fn convert_to_VOLE<const d: usize>(sds: &sized_array_for_sds, iv: [u8; 16]) -> (res: ([u8; ell_hat_bytes], [[u8; ell_hat_bytes]; d]))
    requires
        d == k_0 || d == k_1,
    ensures
        res.0@ == vole_u(vole_rows(seeds_view(*sds), iv@), d as nat),
        forall|j: int| 0 <= j < d ==> #[trigger] res.1@[j]@ == vole_v(vole_rows(seeds_view(*sds), iv@), j as nat),
{
    let seeds: &[[u8; 16]] = match sds {
        sized_array_for_sds::sized_array_1(inner) => inner.as_slice(),
        sized_array_for_sds::sized_array_2(inner) => inner.as_slice(),
    };
    let n = seeds.len();
    let ghost rows = vole_rows(seeds_view(*sds), iv@);
    assert(seeds@ =~= sds.seeds());
    let zero_s = [0u8; 16];
    let first_zero: bool = arrays_equal(&seeds[0], &zero_s);
    proof {
        assert(zero_s@ =~= zero16());
        assert(seeds_view(*sds)[0] == seeds@[0]@);
    }
    let mut cur = expand_rows(seeds, iv, first_zero, Ghost(rows));
    let ghost e: nat = if n == 4096 { 12 } else { 11 };
    proof {
        lemma2_to64();
        assert(pow2(e) == n);
        assert(pow2((e - 0) as nat) == n);
        lemma_level0(rows);
    }
    let mut v: [[u8; ell_hat_bytes]; d] = [[0u8; ell_hat_bytes]; d];
    let mut j: usize = 0;
    while j < d
        invariant
            0 <= j <= d,
            d == k_0 || d == k_1,
            rows_wf(rows),
            rows.len() == n,
            n == pow2(e),
            e == 11 || e == 12,
            cur@.len() == level_len(e, j as nat),
            forall|t: int| 0 <= t < cur@.len() ==> #[trigger] cur@[t]@ == xor_range(rows, t * pow2(j as nat), (t + 1) * pow2(j as nat)),
            forall|t: int| 0 <= t < j ==> #[trigger] v@[t]@ == vole_v(rows, t as nat),
        decreases d - j,
    {
        let (next, acc) = reduce_level(&cur, Ghost(rows), Ghost(j as nat), Ghost(e));
        v[j] = acc;
        cur = next;
        j = j + 1;
    }
    let u: [u8; ell_hat_bytes] = if cur.len() > 0 {
        cur[0]
    } else {
        [0u8; ell_hat_bytes]
    };
    proof {
        lemma2_to64();
        if cur@.len() > 0 {
            assert(d <= e);
            lemma_pow2_adds((e - d) as nat, d as nat);
            assert((e - d) as nat + d == e);
            lemma_pow2_pos((e - d) as nat);
            assert(pow2(d as nat) <= n) by (nonlinear_arith)
                requires
                    pow2((e - d) as nat) * pow2(d as nat) == n,
                    pow2((e - d) as nat) >= 1,
            ;
            assert(0 * pow2(d as nat) == 0 && (0 + 1) * pow2(d as nat) == pow2(d as nat));
        } else {
            assert(d > e);
            vstd::arithmetic::power2::lemma_pow2_strictly_increases(e, d as nat);
            assert(u@ =~= zero_col());
        }
    }
    (u, v)
}

/// Length of level `j` of the pairwise reduction of 2^e rows.
pub open spec fn level_len(e: nat, j: nat) -> nat {
    if j <= e {
        pow2((e - j) as nat)
    } else {
        0
    }
}

/// One level of the pairwise reduction of ConvertToVOLE: the pairwise sums of `cur`, and the
/// sum of the odd entries, which is column `j` of V.
fn reduce_level(
    cur: &Vec<[u8; ell_hat_bytes]>,
    Ghost(rows): Ghost<Seq<Seq<u8>>>,
    Ghost(j): Ghost<nat>,
    Ghost(e): Ghost<nat>,
) -> (res: (Vec<[u8; ell_hat_bytes]>, [u8; ell_hat_bytes]))
    requires
        rows_wf(rows),
        rows.len() == pow2(e),
        e == 11 || e == 12,
        j < 12,
        cur@.len() == level_len(e, j),
        forall|t: int| 0 <= t < cur@.len() ==> #[trigger] cur@[t]@ == xor_range(rows, t * pow2(j), (t + 1) * pow2(j)),
    ensures
        res.0@.len() == level_len(e, j + 1),
        forall|t: int| 0 <= t < res.0@.len() ==> #[trigger] res.0@[t]@ == xor_range(rows, t * pow2(j + 1), (t + 1) * pow2(j + 1)),
        res.1@ == vole_v(rows, j),
{
    proof {
        lemma2_to64();
        lemma_pow2_pos(j);
        if j < e {
            lemma_pow2_adds((e - j - 1) as nat, 1);
            assert((e - j - 1) as nat + 1 == (e - j) as nat);
        } else if j == e {
            assert(pow2(0) == 1);
        }
    }
    let clen = cur.len();
    let half = clen / 2;
    let ghost p = pow2(j);
    proof {
        if j < e {
            lemma_pow2_adds((e - j) as nat, j);
            assert((e - j) as nat + j == e);
            assert(2 * half == clen);
            assert((2 * half) * p == rows.len());
        } else {
            assert(clen <= 1);
            assert(half == 0);
        }
    }
    let mut next: Vec<[u8; ell_hat_bytes]> = Vec::new();
    let mut acc = [0u8; ell_hat_bytes];
    assert(acc@ =~= zero_col());
    assert(2 * 0 * p == 0) by (nonlinear_arith);
    let mut i: usize = 0;
    while i < half
        invariant
            0 <= i <= half,
            clen == cur@.len(),
            half == clen / 2,
            p == pow2(j),
            p > 0,
            rows_wf(rows),
            (2 * half) * p <= rows.len(),
            forall|t: int| 0 <= t < cur@.len() ==> #[trigger] cur@[t]@ == xor_range(rows, t * p, (t + 1) * p),
            next@.len() == i,
            forall|t: int| 0 <= t < i ==> #[trigger] next@[t]@ == xor_range(rows, t * pow2(j + 1), (t + 1) * pow2(j + 1)),
            acc@ == xor_bit_rows(rows, j, 2 * i * p),
        decreases half - i,
    {
        let a = cur[2 * i];
        let b = cur[2 * i + 1];
        proof {
            assert((2 * i + 2) * p <= (2 * half) * p) by (nonlinear_arith)
                requires
                    i + 1 <= half,
                    p > 0,
            ;
            lemma_level_step(rows, j, i as int);
            assert((2 * i) * p <= (2 * i + 1) * p <= (2 * i + 2) * p) by (nonlinear_arith)
                requires
                    p > 0,
            ;
            assert(((2 * i) as nat + 1) * p == (2 * i + 1) * p);
            assert(((2 * i + 1) as nat + 1) * p == (2 * i + 2) * p);
            assert((2 * i) as nat * pow2(j) == (2 * i) * p);
            assert((2 * i + 1) as nat * pow2(j) == (2 * i + 1) * p);
            lemma_xor_bit_rows_block(rows, j, (2 * i) as nat, ((2 * i + 1) * p) as int);
            lemma_xor_bit_rows_block(rows, j, (2 * i + 1) as nat, ((2 * i + 2) * p) as int);
            assert(2 * (i + 1) * p == (2 * i + 2) * p) by (nonlinear_arith);
        }
        acc = xor_arrays(&acc, &b);
        next.push(xor_arrays(&a, &b));
        i = i + 1;
    }
    proof {
        if j < e {
            assert(2 * half == pow2((e - j) as nat));
            lemma_pow2_adds((e - j) as nat, j);
            assert((e - j) as nat + j == e);
            assert((2 * half) * p == rows.len());
            assert((e - (j + 1)) as nat == (e - j - 1) as nat);
        } else {
            assert(half == 0);
            assert(rows.len() <= p) by {
                if j > e {
                    vstd::arithmetic::power2::lemma_pow2_strictly_increases(e, j);
                }
            }
            lemma_xor_bit_rows_small(rows, j, rows.len() as int);
        }
    }
    (next, acc)
}

/// Bit offset in the third challenge of the bits of small-VOLE instance `i`.
pub open spec fn chall_offset(i: int) -> int {
    if i < tau_0 {
        k_0 * i
    } else {
        k_0 * tau_0 + k_1 * (i - tau_0)
    }
}

/// Depth of small-VOLE instance `i`.
pub open spec fn instance_depth(i: int) -> nat {
    if i < tau_0 {
        k_0 as nat
    } else {
        k_1 as nat
    }
}

/// The challenge bits of instance `i` of the third challenge.
pub open spec fn chall_bits(chall: Seq<u8>, i: int) -> Seq<u8> {
    bits_of_bytes(chall).subrange(chall_offset(i), chall_offset(i) + instance_depth(i))
}

/// Reads `n` bits of the challenge from bit `lo` on, least significant bit of each byte first.
fn chall_bits_exec(chall: &[u8; 16], lo: usize, bits: &mut [u8])
    requires
        lo + old(bits)@.len() <= 128,
    ensures
        final(bits)@ == bits_of_bytes(chall@).subrange(lo as int, lo + old(bits)@.len()),
{
    let n = bits.len();
    let mut idx: usize = 0;
    while idx < n
        invariant
            0 <= idx <= n,
            n == bits@.len(),
            n == old(bits)@.len(),
            lo + n <= 128,
            forall|j: int| 0 <= j < idx ==> #[trigger] bits@[j] == bits_of_bytes(chall@)[lo + j],
        decreases n - idx,
    {
        let b = lo + idx;
        let byte_index = b >> 3;
        let bit_index = (b % 8) as u8;
        proof {
            lemma_bit_position(b);
        }
        let val = bitand_mod(chall[byte_index] >> bit_index, 1);
        bits[idx] = val;
        idx = idx + 1;
    }
    assert(bits@ =~= bits_of_bytes(chall@).subrange(lo as int, lo + n));
}

/// ChalDec for an instance of depth k_0: its k_0 challenge bits.
pub fn chall_dec_k0(chall: [u8; 16], i: usize) -> (bits: [u8; k_0])
    requires
        i < tau_0,
    ensures
        bits@ == chall_bits(chall@, i as int),
{
    let mut bits = [0u8; k_0];
    chall_bits_exec(&chall, i * k_0, &mut bits);
    bits
}

/// ChalDec for an instance of depth k_1: its k_1 challenge bits.
pub fn chall_dec_k1(chall: [u8; 16], i: usize) -> (bits: [u8; k_1])
    requires
        tau_0 <= i < tau,
    ensures
        bits@ == chall_bits(chall@, i as int),
{
    let mut bits = [0u8; k_1];
    chall_bits_exec(&chall, tau_0 * k_0 + (i - tau_0) * k_1, &mut bits);
    bits
}

/// Challenge bits are bits.
pub proof fn lemma_chall_bits_are_bits(chall: Seq<u8>, i: int)
    requires
        0 <= i < tau,
        chall.len() == 16,
    ensures
        forall|j: int| 0 <= j < chall_bits(chall, i).len() ==> #[trigger] chall_bits(chall, i)[j] <= 1,
        chall_bits(chall, i).len() == instance_depth(i),
        num_rec(chall_bits(chall, i)) < pow2(instance_depth(i)),
{
    crate::utils::math::lemma_bits_bytes_inverse(chall, Seq::empty());
    assert forall|j: int| 0 <= j < chall_bits(chall, i).len() implies #[trigger] chall_bits(chall, i)[j] <= 1 by {
        assert(chall_bits(chall, i)[j] == bits_of_bytes(chall)[chall_offset(i) + j]);
    }
    lemma_num_rec_bits_bound(chall_bits(chall, i));
}

/// Root seed of small-VOLE instance `i`, cut from the PRG expansion of the root key.
pub open spec fn instance_root(r: Seq<u8>, iv: Seq<u8>, i: int) -> Seq<u8> {
    prg_spec(r, iv, 176).subrange(16 * i, 16 * i + 16)
}

/// The first `m` 16-byte chunks of `s`, concatenated, are the first 16m bytes of `s`.
proof fn lemma_concat_chunks16(s: Seq<u8>, m: nat)
    requires
        16 * m <= s.len(),
    ensures
        concat_seqs(Seq::new(m, |i: int| s.subrange(16 * i, 16 * i + 16))) == s.subrange(0, 16 * m as int),
    decreases m,
{
    if m > 0 {
        let m1 = (m - 1) as nat;
        lemma_concat_chunks16(s, m1);
        let c = Seq::new(m, |i: int| s.subrange(16 * i, 16 * i + 16));
        assert(c.drop_last() =~= Seq::new(m1, |i: int| s.subrange(16 * i, 16 * i + 16)));
        let a: int = 16 * m1 as int;
        assert(c.last() == s.subrange(a, a + 16));
        assert(s.subrange(0, a) + s.subrange(a, a + 16) =~= s.subrange(0, 16 * m as int));
    }
}

/// The roots of the tau small-VOLE instances, one after another, are the 176-byte AES-CTR
/// key stream keyed by the commitment root `r`: the root of instance `i` is key-stream
/// block `i`. So the roots of two instances differ whenever their key-stream blocks differ.
pub proof fn lemma_instance_roots_split_prg(r: Seq<u8>, iv: Seq<u8>)
    ensures
        concat_seqs(Seq::new(tau as nat, |i: int| instance_root(r, iv, i))) == prg_spec(r, iv, 176),
        forall|i: int| 0 <= i < tau ==> #[trigger] instance_root(r, iv, i) == prg_block(r, iv, i as nat),
        forall|i: int, j: int|
            0 <= i < tau && 0 <= j < tau && prg_block(r, iv, i as nat) != prg_block(r, iv, j as nat)
                ==> #[trigger] instance_root(r, iv, i) != #[trigger] instance_root(r, iv, j),
{
    let s = prg_spec(r, iv, 176);
    lemma_concat_chunks16(s, tau as nat);
    assert(Seq::new(tau as nat, |i: int| instance_root(r, iv, i)) =~= Seq::new(tau as nat, |i: int| s.subrange(16 * i, 16 * i + 16)));
    assert(s.subrange(0, 176) =~= s);
    assert forall|i: int| 0 <= i < tau implies #[trigger] instance_root(r, iv, i) == prg_block(r, iv, i as nat) by {
        assert forall|t: int| 0 <= t < 16 implies #[trigger] instance_root(r, iv, i)[t] == prg_block(r, iv, i as nat)[t] by {
            assert((16 * i + t) / 16 == i && (16 * i + t) % 16 == t) by (nonlinear_arith)
                requires
                    0 <= t < 16,
            ;
        }
        assert(instance_root(r, iv, i) =~= prg_block(r, iv, i as nat));
    }
}

/// The expanded leaf seeds of small-VOLE instance `i` of the prover.
pub open spec fn instance_rows(r: Seq<u8>, iv: Seq<u8>, i: int) -> Seq<Seq<u8>> {
    vole_rows(commit_seeds(instance_root(r, iv, i), iv, instance_depth(i)), iv)
}

/// The u of small-VOLE instance `i`.
pub open spec fn instance_u(r: Seq<u8>, iv: Seq<u8>, i: int) -> Seq<u8> {
    vole_u(instance_rows(r, iv, i), instance_depth(i))
}

/// The hash of the vector commitment of instance `i`.
pub open spec fn instance_hash(r: Seq<u8>, iv: Seq<u8>, i: int) -> Seq<u8> {
    commitment_hash(commit_coms(instance_root(r, iv, i), iv, instance_depth(i)))
}

/// The commitment to all instances: H_1 of the concatenated instance hashes.
pub open spec fn vole_commit_hash(hashes: Seq<Seq<u8>>) -> Seq<u8> {
    shake128_spec(concat_seqs(hashes) + seq![1u8], 32)
}

/// The right variant for instance `i`.
pub open spec fn coms_variant_ok(c: sized_array_for_coms, i: int) -> bool {
    if i < tau_0 {
        c is sized_array_1
    } else {
        c is sized_array_2
    }
}

/// The right variant for instance `i`.
pub open spec fn qv_variant_ok(c: sized_array_for_q_v, i: int) -> bool {
    if i < tau_0 {
        c is sized_array_1
    } else {
        c is sized_array_2
    }
}

/// The right variant for instance `i`.
pub open spec fn cop_variant_ok(c: sized_array_for_cop, i: int) -> bool {
    if i < tau_0 {
        c is sized_array_1
    } else {
        c is sized_array_2
    }
}

/// The 16-byte chunk `i` of an array.
fn chunk16(a: &[u8; 176], i: usize) -> (r: [u8; 16])
    requires
        i < 11,
    ensures
        r@ == a@.subrange(16 * i, 16 * i + 16),
{
    let mut r = [0u8; 16];
    let mut t: usize = 0;
    while t < 16
        invariant
            0 <= t <= 16,
            i < 11,
            forall|j: int| 0 <= j < t ==> #[trigger] r@[j] == a@[16 * i + j],
        decreases 16 - t,
    {
        r[t] = a[16 * i + t];
        t = t + 1;
    }
    assert(r@ =~= a@.subrange(16 * i, 16 * i + 16));
    r
}

/// VOLE commitment of the signer: tau vector commitments under root seeds derived from `r`,
/// each converted to a small VOLE; returns the hash of all commitment hashes, the
/// decommitments, the corrections c_i = u_0 + u_i, u_0, and the V columns of every instance.
pub fn FAEST_VOLE_commit(r: [u8; 16], iv: [u8; 16]) -> (res: (
    [u8; 32],
    Vec<([u8; 16], [u8; 16], sized_array_for_coms)>,
    [[u8; 234]; tau_minus_one],
    [u8; 234],
    [sized_array_for_q_v; tau],
))
    ensures
        res.1@.len() == tau,
        forall|i: int| 0 <= i < tau ==> {
            let dc = #[trigger] res.1@[i];
            &&& dc.0@ == instance_root(r@, iv@, i)
            &&& dc.1 == iv
            &&& coms_variant_ok(dc.2, i)
            &&& rows_view(dc.2.coms()) == commit_coms(instance_root(r@, iv@, i), iv@, instance_depth(i))
        },
        forall|i: int| 0 <= i < tau ==> qv_variant_ok(#[trigger] res.4@[i], i),
        forall|i: int, j: int| 0 <= i < tau && 0 <= j < instance_depth(i) ==> #[trigger] res.4@[i].cols()[j]@
            == vole_v(instance_rows(r@, iv@, i), j as nat),
        res.3@ == instance_u(r@, iv@, 0),
        forall|i: int| 1 <= i < tau ==> #[trigger] res.2@[i - 1]@ == xor_seq(instance_u(r@, iv@, 0), instance_u(r@, iv@, i)),
        res.0@ == vole_commit_hash(Seq::new(tau as nat, |i: int| instance_hash(r@, iv@, i))),
{
    let new_r = prg_vole_commit_r(r, iv);
    let mut big_v: [sized_array_for_q_v; tau] = [sized_array_for_q_v::sized_array_1([[0u8; 234]; k_0]); tau];
    let mut big_u: [[u8; 234]; tau] = [[0; 234]; tau];
    let mut all_decoms: Vec<([u8; 16], [u8; 16], sized_array_for_coms)> = Vec::new();
    let mut commitments: [[u8; 32]; tau] = [[0; 32]; tau];
    let mut i: usize = 0;
    while i < tau
        invariant
            0 <= i <= tau,
            new_r@ == prg_spec(r@, iv@, 176),
            all_decoms@.len() == i,
            forall|t: int| 0 <= t < i ==> {
                let dc = #[trigger] all_decoms@[t];
                &&& dc.0@ == instance_root(r@, iv@, t)
                &&& dc.1 == iv
                &&& coms_variant_ok(dc.2, t)
                &&& rows_view(dc.2.coms()) == commit_coms(instance_root(r@, iv@, t), iv@, instance_depth(t))
            },
            forall|t: int| 0 <= t < i ==> qv_variant_ok(#[trigger] big_v@[t], t),
            forall|t: int, j: int| 0 <= t < i && 0 <= j < instance_depth(t) ==> #[trigger] big_v@[t].cols()[j]@
                == vole_v(instance_rows(r@, iv@, t), j as nat),
            forall|t: int| 0 <= t < i ==> #[trigger] big_u@[t]@ == instance_u(r@, iv@, t),
            forall|t: int| 0 <= t < i ==> #[trigger] commitments@[t]@ == instance_hash(r@, iv@, t),
        decreases tau - i,
    {
        let root = chunk16(&new_r, i);
        if i < tau_0 {
            let (h, decoms, seeds) = vec_commit_k0(root, iv);
            let (u, v) = convert_to_VOLE::<k_0>(&seeds, iv);
            big_v[i] = sized_array_for_q_v::sized_array_1(v);
            big_u[i] = u;
            all_decoms.push(decoms);
            commitments[i] = h;
        } else {
            let (h, decoms, seeds) = vec_commit_k1(root, iv);
            let (u, v) = convert_to_VOLE::<k_1>(&seeds, iv);
            big_v[i] = sized_array_for_q_v::sized_array_2(v);
            big_u[i] = u;
            all_decoms.push(decoms);
            commitments[i] = h;
        }
        i = i + 1;
    }
    let u_0 = big_u[0];
    let mut big_c: [[u8; 234]; tau_minus_one] = [[0u8; 234]; tau_minus_one];
    let mut i: usize = 1;
    while i < tau
        invariant
            1 <= i <= tau,
            u_0 == big_u@[0],
            forall|t: int| 0 <= t < tau ==> #[trigger] big_u@[t]@ == instance_u(r@, iv@, t),
            forall|t: int| 1 <= t < i ==> #[trigger] big_c@[t - 1]@ == xor_seq(instance_u(r@, iv@, 0), instance_u(r@, iv@, t)),
        decreases tau - i,
    {
        big_c[i - 1] = xor_arrays(&u_0, &big_u[i]);
        i = i + 1;
    }
    let coms_flat: [u8; 352] = flatten::<tau, 32, 352>(commitments);
    proof {
        lemma_concat_rows_index(commitments@);
        assert forall|k: int| 0 <= k < 352 implies coms_flat@[k] == concat_rows(commitments@)[k] by {
            let a = k / 32;
            let c = k % 32;
            assert(k == a * 32 + c);
            assert(coms_flat@[a * 32 + c] == commitments@[a]@[c]);
        }
        assert(coms_flat@ =~= concat_rows(commitments@));
        assert(rows_view(commitments@) =~= Seq::new(tau as nat, |i: int| instance_hash(r@, iv@, i)));
    }
    let hash = h_1_for_352(&coms_flat);
    (hash, all_decoms, big_c, u_0, big_v)
}

/// Seeds with the hidden leaf moved to index 0: entry j is entry j xor delta, and entry 0 is zero.
pub open spec fn shifted_seeds(s: Seq<Seq<u8>>, delta: usize) -> Seq<Seq<u8>> {
    Seq::new(s.len(), |j: int| if j == 0 { zero16() } else { s[(j as usize ^ delta) as int] })
}

/// The verifier's expanded leaf seeds of instance `i`.
pub open spec fn rec_instance_rows(pdecom_cop: Seq<Seq<u8>>, chall: Seq<u8>, iv: Seq<u8>, i: int) -> Seq<Seq<u8>> {
    let b = chall_bits(chall, i);
    let delta = num_rec(b);
    vole_rows(shifted_seeds(rec_seeds(pdecom_cop, iv, delta, instance_depth(i)), delta as usize), iv)
}

/// The verifier's rebuilt commitment hash of instance `i`.
pub open spec fn rec_instance_hash(pdecom_cop: Seq<Seq<u8>>, com: Seq<u8>, chall: Seq<u8>, iv: Seq<u8>, i: int) -> Seq<u8> {
    commitment_hash(rec_coms(pdecom_cop, com, iv, num_rec(chall_bits(chall, i)), instance_depth(i)))
}

/// Moves the verifier's seeds so that the unknown leaf sits at index 0.
fn shift_seeds<const N: usize>(sds: &sized_array_for_sds, delta: usize) -> (out: [[u8; 16]; N])
    requires
        N == 4096 || N == 2048,
        sds.seeds().len() == N,
        delta < N,
    ensures
        rows_view(out@) == shifted_seeds(rows_view(sds.seeds()), delta),
{
    let seeds: &[[u8; 16]] = match sds {
        sized_array_for_sds::sized_array_1(inner) => inner.as_slice(),
        sized_array_for_sds::sized_array_2(inner) => inner.as_slice(),
    };
    assert(seeds@ =~= sds.seeds());
    let mut out: [[u8; 16]; N] = [[0u8; 16]; N];
    let bound = if N == 4096 { Log2Number::wrap(4096) } else { Log2Number::wrap(2048) };
    let mut j: usize = 1;
    proof {
        let z = [0u8; 16];
        assert(out@[0]@ =~= zero16());
    }
    while j < N
        invariant
            1 <= j <= N,
            N == 4096 || N == 2048,
            bound.spec_value() == N,
            seeds@ == sds.seeds(),
            seeds@.len() == N,
            delta < N,
            out@[0]@ == zero16(),
            forall|t: int| 1 <= t < j ==> #[trigger] out@[t]@ == rows_view(sds.seeds())[(t as usize ^ delta) as int],
        decreases N - j,
    {
        let src = xor_with_bound(j, delta, bound);
        out[j] = seeds[src];
        j = j + 1;
    }
    assert(rows_view(out@) =~= shifted_seeds(rows_view(sds.seeds()), delta));
    out
}

/// VOLE reconstruction of the verifier: from the third challenge and the openings, the
/// hash of all rebuilt commitment hashes and the Q columns of every instance.
pub fn FAEST_VOLE_reconstruct(chall: [u8; 16], pdecoms: &[(sized_array_for_cop, [u8; 32]); 11], iv: [u8; 16]) -> (res: (
    [u8; 32],
    [sized_array_for_q_v; tau],
))
    requires
        forall|i: int| 0 <= i < tau ==> cop_variant_ok(#[trigger] pdecoms@[i].0, i),
    ensures
        forall|i: int| 0 <= i < tau ==> qv_variant_ok(#[trigger] res.1@[i], i),
        forall|i: int, j: int| 0 <= i < tau && 0 <= j < instance_depth(i) ==> #[trigger] res.1@[i].cols()[j]@
            == vole_v(rec_instance_rows(cop_view(pdecoms@[i].0), chall@, iv@, i), j as nat),
        res.0@ == vole_commit_hash(Seq::new(tau as nat, |i: int| rec_instance_hash(cop_view(pdecoms@[i].0), pdecoms@[i].1@, chall@, iv@, i))),
{
    let mut commitments: [[u8; 32]; tau] = [[0; 32]; tau];
    let mut big_q: [sized_array_for_q_v; tau] = [sized_array_for_q_v::sized_array_1([[0u8; 234]; k_0]); tau];
    let mut i: usize = 0;
    while i < tau
        invariant
            0 <= i <= tau,
            forall|t: int| 0 <= t < tau ==> cop_variant_ok(#[trigger] pdecoms@[t].0, t),
            forall|t: int| 0 <= t < i ==> qv_variant_ok(#[trigger] big_q@[t], t),
            forall|t: int, j: int| 0 <= t < i && 0 <= j < instance_depth(t) ==> #[trigger] big_q@[t].cols()[j]@
                == vole_v(rec_instance_rows(cop_view(pdecoms@[t].0), chall@, iv@, t), j as nat),
            forall|t: int| 0 <= t < i ==> #[trigger] commitments@[t]@ == rec_instance_hash(cop_view(pdecoms@[t].0), pdecoms@[t].1@, chall@, iv@, t),
        decreases tau - i,
    {
        proof {
            lemma_chall_bits_are_bits(chall@, i as int);
            lemma2_to64();
        }
        if i < tau_0 {
            let b = chall_dec_k0(chall, i);
            proof {
                assert(pow2(12) == 4096);
            }
            let (com, sds) = vec_reconstruct_k0(&pdecoms[i], b, iv);
            let delta = num_rec_k0(&b);
            let shifted: [[u8; 16]; k_0_pow] = shift_seeds::<k_0_pow>(&sds, delta as usize);
            let sds_for_later_use = sized_array_for_sds::sized_array_1(Box::new(shifted));
            let (_u_mark, q) = convert_to_VOLE::<k_0>(&sds_for_later_use, iv);
            commitments[i] = com;
            big_q[i] = sized_array_for_q_v::sized_array_1(q);
        } else {
            let b = chall_dec_k1(chall, i);
            proof {
                assert(pow2(11) == 2048);
            }
            let (com, sds) = vec_reconstruct_k1(&pdecoms[i], b, iv);
            let delta = num_rec_k1(&b);
            let shifted: [[u8; 16]; k_1_pow] = shift_seeds::<k_1_pow>(&sds, delta as usize);
            let sds_for_later_use = sized_array_for_sds::sized_array_2(Box::new(shifted));
            let (_u_mark, q) = convert_to_VOLE::<k_1>(&sds_for_later_use, iv);
            commitments[i] = com;
            big_q[i] = sized_array_for_q_v::sized_array_2(q);
        }
        i = i + 1;
    }
    let coms_flat: [u8; 352] = flatten::<tau, 32, 352>(commitments);
    proof {
        lemma_concat_rows_index(commitments@);
        assert forall|k: int| 0 <= k < 352 implies coms_flat@[k] == concat_rows(commitments@)[k] by {
            let a = k / 32;
            let c = k % 32;
            assert(k == a * 32 + c);
            assert(coms_flat@[a * 32 + c] == commitments@[a]@[c]);
        }
        assert(coms_flat@ =~= concat_rows(commitments@));
        assert(rows_view(commitments@) =~= Seq::new(tau as nat, |i: int| rec_instance_hash(cop_view(pdecoms@[i].0), pdecoms@[i].1@, chall@, iv@, i)));
    }
    let hash = h_1_for_352(&coms_flat);
    (hash, big_q)
}

} // verus!
