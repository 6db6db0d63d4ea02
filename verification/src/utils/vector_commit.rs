#![allow(non_upper_case_globals)]

use vstd::prelude::*;
use vstd::arithmetic::power2::{pow2, lemma_pow2_adds, lemma2_to64, lemma_pow2_pos};
use vstd::arithmetic::div_mod::{lemma_div_denominator, lemma_fundamental_div_mod};
use crate::utils::constants::{k_0, k_1, k_0_pow, k_1_pow, iv_bytes, lambda_bytes, lambda_bytes_times_two};
use crate::utils::ggm_tree::{
    bit_at, get_cop, get_leaves_from_cop_and_b, get_leaves_node_from_root, ggm_level, path_index,
    sibling, sibling_start, lemma_ggm_level_len, lemma_ggm_subtree, lemma_sibling_bound,
};
use crate::utils::hash_functions::{concat_seqs, h0_com, h0_seed, h_0, h_1_k0, h_1_k1, lemma_h0_split, rows_view};
use crate::utils::libcrux_proxy::shake128_spec;
use crate::utils::preliminary_helper_methods::{num_rec, num_rec_k0, num_rec_k1};
use crate::utils::types::{sized_array_for_cop, sized_array_for_coms, sized_array_for_sds, zero16};

verus! {

/// The seeds H_0 derives from the leaves of the GGM tree of depth `k` with root `r`.
pub open spec fn commit_seeds(r: Seq<u8>, iv: Seq<u8>, k: nat) -> Seq<Seq<u8>> {
    Seq::new(pow2(k), |i: int| h0_seed(ggm_level(r, iv, k)[i], iv))
}

/// The commitments H_0 derives from the leaves of the GGM tree of depth `k` with root `r`.
pub open spec fn commit_coms(r: Seq<u8>, iv: Seq<u8>, k: nat) -> Seq<Seq<u8>> {
    Seq::new(pow2(k), |i: int| h0_com(ggm_level(r, iv, k)[i], iv))
}

/// The hash of a vector commitment: H_1 of its leaf commitments.
pub open spec fn commitment_hash(coms: Seq<Seq<u8>>) -> Seq<u8> {
    shake128_spec(concat_seqs(coms) + seq![1u8], 32)
}

/// Seed `i` and commitment `i` of a vector commitment are, one after the other, the
/// 48-byte SHAKE128 output on leaf `i` of the GGM tree, the iv and a zero byte: the seed is
/// its first 16 bytes, the commitment the other 32.
pub proof fn lemma_commit_seed_com_split(r: Seq<u8>, iv: Seq<u8>, k: nat, i: int)
    requires
        0 <= i < pow2(k),
    ensures
        commit_seeds(r, iv, k)[i] + commit_coms(r, iv, k)[i]
            == shake128_spec(ggm_level(r, iv, k)[i] + iv + seq![0u8], 48),
{
    lemma_h0_split(ggm_level(r, iv, k)[i], iv);
}

/// Leaf `i` lies in the subtree beside the path to leaf `b` at level `c + 1`.
pub open spec fn in_sibling_range(b: nat, k: nat, c: nat, i: nat) -> bool {
    &&& c < k
    &&& sibling_start(b, k, c) <= i
    &&& i < sibling_start(b, k, c) + pow2((k - c - 1) as nat)
}

/// Leaf `i` as rebuilt from the co-path `cop` of leaf `b`: a leaf of the subtree hanging
/// beside the path that holds it.
pub open spec fn rec_leaf(cop: Seq<Seq<u8>>, iv: Seq<u8>, b: nat, k: nat, i: nat) -> Seq<u8> {
    let c = choose|c: nat| #[trigger] in_sibling_range(b, k, c, i);
    ggm_level(cop[c as int], iv, (k - c - 1) as nat)[i - sibling_start(b, k, c)]
}

/// The leaf commitments a verifier rebuilds from the co-path of leaf `b` and the
/// commitment `com` of the hidden leaf.
pub open spec fn rec_coms(cop: Seq<Seq<u8>>, com: Seq<u8>, iv: Seq<u8>, b: nat, k: nat) -> Seq<Seq<u8>> {
    Seq::new(
        pow2(k),
        |i: int|
            if i == path_index(b, k, k) {
                com
            } else {
                h0_com(rec_leaf(cop, iv, b, k, i as nat), iv)
            },
    )
}

/// The leaf seeds a verifier rebuilds from the co-path of leaf `b`; the hidden one is zero.
pub open spec fn rec_seeds(cop: Seq<Seq<u8>>, iv: Seq<u8>, b: nat, k: nat) -> Seq<Seq<u8>> {
    Seq::new(
        pow2(k),
        |i: int|
            if i == path_index(b, k, k) {
                zero16()
            } else {
                h0_seed(rec_leaf(cop, iv, b, k, i as nat), iv)
            },
    )
}

/// For a leaf of the tree, its ancestor at level `l` is its index shifted right by `k - l`.
pub proof fn lemma_path_index_div(i: nat, k: nat, l: nat)
    requires
        i < pow2(k),
        l <= k,
    ensures
        path_index(i, k, l) == i / pow2((k - l) as nat),
    decreases l,
{
    lemma2_to64();
    lemma_pow2_pos((k - l) as nat);
    if l == 0 {
        assert(i / pow2(k) == 0) by {
            vstd::arithmetic::div_mod::lemma_basic_div(i as int, pow2(k) as int);
        }
    } else {
        lemma_path_index_div(i, k, (l - 1) as nat);
        let p = pow2((k - l) as nat);
        let x = i / p;
        lemma_pow2_adds((k - l) as nat, 1);
        assert((k - l) as nat + 1 == (k - (l - 1)) as nat);
        lemma_div_denominator(i as int, p as int, 2);
        lemma_fundamental_div_mod(x as int, 2);
        assert(path_index(i, k, l) == 2 * path_index(i, k, (l - 1) as nat) + bit_at(i, (k - l) as nat));
    }
}

/// A leaf other than the hidden one lies in exactly one of the subtrees beside the path;
/// here: in at least one.
proof fn lemma_partition_from(b: nat, k: nat, i: nat, c: nat)
    requires
        i < pow2(k),
        b < pow2(k),
        i != b,
        c <= k,
        path_index(i, k, c) == path_index(b, k, c),
    ensures
        exists|c2: nat| #[trigger] in_sibling_range(b, k, c2, i),
    decreases k - c,
{
    lemma_path_index_div(i, k, k);
    lemma_path_index_div(b, k, k);
    lemma2_to64();
    vstd::arithmetic::div_mod::lemma_div_basics(i as int);
    vstd::arithmetic::div_mod::lemma_div_basics(b as int);
    assert(i / pow2(0) == i && b / pow2(0) == b);
    if c == k {
        assert(path_index(i, k, k) == i);
        assert(path_index(b, k, k) == b);
    } else {
        let qi = path_index(i, k, c + 1);
        let qb = path_index(b, k, c + 1);
        if qi == qb {
            lemma_partition_from(b, k, i, c + 1);
        } else {
            let p = path_index(b, k, c);
            let bi = bit_at(i, (k - c - 1) as nat);
            let bb = bit_at(b, (k - c - 1) as nat);
            assert(qi == 2 * p + bi);
            assert(qb == 2 * p + bb);
            assert(qi == sibling(qb));
            let n = pow2((k - c - 1) as nat);
            lemma_pow2_pos((k - c - 1) as nat);
            lemma_path_index_div(i, k, c + 1);
            assert((k - (c + 1)) as nat == (k - c - 1) as nat);
            lemma_fundamental_div_mod(i as int, n as int);
            assert(qi == i / n);
            assert(qi * n <= i < qi * n + n) by (nonlinear_arith)
                requires
                    qi == i / n,
                    n > 0,
                    i == n * (i / n) + i % n,
                    0 <= i % n < n,
            ;
            assert(in_sibling_range(b, k, c, i));
        }
    }
}

/// Every leaf but the hidden one lies in some subtree beside the path.
pub proof fn lemma_partition(b: nat, k: nat, i: nat)
    requires
        i < pow2(k),
        b < pow2(k),
        i != b,
    ensures
        exists|c: nat| #[trigger] in_sibling_range(b, k, c, i),
{
    lemma_partition_from(b, k, i, 0);
}

/// Seeds and commitments of all leaves, where the hidden leaf gets a zero seed and the
/// given commitment.
fn regen_tree_from_pdecom<const size: usize>(
    leaves: &[Option<[u8; 16]>; size],
    sds: &mut [[u8; lambda_bytes]; size],
    coms: &mut [[u8; lambda_bytes_times_two]; size],
    iv: &[u8; iv_bytes],
    pdecom1: &[u8; lambda_bytes_times_two],
)
    ensures
        forall|i: int| 0 <= i < size ==> {
            let l = #[trigger] leaves@[i];
            &&& l is Some ==> final(sds)@[i]@ == h0_seed(l->0@, iv@) && final(coms)@[i]@ == h0_com(l->0@, iv@)
            &&& l is None ==> final(sds)@[i]@ == zero16() && final(coms)@[i] == *pdecom1
        },
{
    let mut l: usize = 0;
    while l < size
        invariant
            0 <= l <= size,
            forall|i: int| 0 <= i < l ==> {
                let lf = #[trigger] leaves@[i];
                &&& lf is Some ==> sds@[i]@ == h0_seed(lf->0@, iv@) && coms@[i]@ == h0_com(lf->0@, iv@)
                &&& lf is None ==> sds@[i]@ == zero16() && coms@[i] == *pdecom1
            },
        decreases size - l,
    {
        match leaves[l] {
            Some(leaf) => {
                let (sd, com) = h_0(leaf, *iv);
                sds[l] = sd;
                coms[l] = com;
            },
            None => {
                coms[l] = *pdecom1;
                let z = [0u8; lambda_bytes];
                assert(z@ =~= zero16());
                sds[l] = z;
            },
        }
        l = l + 1;
    }
}

/// Commits to the 2^k_0 leaves of the GGM tree with root `r`: the hash of all leaf
/// commitments, the decommitment (root, iv, commitments) and the leaf seeds.
pub fn vec_commit_k0(r: [u8; lambda_bytes], iv: [u8; iv_bytes]) -> (res: (
    [u8; lambda_bytes_times_two],
    ([u8; lambda_bytes], [u8; iv_bytes], sized_array_for_coms),
    sized_array_for_sds,
))
    ensures
        res.1.0 == r,
        res.1.1 == iv,
        res.1.2 is sized_array_1,
        res.2 is sized_array_1,
        rows_view(res.1.2.coms()) == commit_coms(r@, iv@, k_0 as nat),
        rows_view(res.2.seeds()) == commit_seeds(r@, iv@, k_0 as nat),
        res.0@ == commitment_hash(commit_coms(r@, iv@, k_0 as nat)),
{
    proof {
        lemma2_to64();
        lemma_pow2_adds(10, 2);
        lemma_ggm_level_len(r@, iv@, k_0 as nat);
    }
    let leaves = get_leaves_node_from_root::<k_0_pow>(&r, iv, k_0);
    let mut sds: [[u8; lambda_bytes]; k_0_pow] = [[0; lambda_bytes]; k_0_pow];
    let mut coms: [[u8; lambda_bytes_times_two]; k_0_pow] = [[0; lambda_bytes_times_two]; k_0_pow];
    let mut i: usize = 0;
    while i < k_0_pow
        invariant
            0 <= i <= k_0_pow,
            k_0_pow == pow2(k_0 as nat),
            forall|j: int| 0 <= j < k_0_pow ==> #[trigger] leaves@[j]@ == ggm_level(r@, iv@, k_0 as nat)[j],
            forall|j: int| 0 <= j < i ==> #[trigger] sds@[j]@ == h0_seed(ggm_level(r@, iv@, k_0 as nat)[j], iv@),
            forall|j: int| 0 <= j < i ==> #[trigger] coms@[j]@ == h0_com(ggm_level(r@, iv@, k_0 as nat)[j], iv@),
        decreases k_0_pow - i,
    {
        let (sd, com) = h_0(leaves[i], iv);
        sds[i] = sd;
        coms[i] = com;
        i = i + 1;
    }
    assert(rows_view(coms@) =~= commit_coms(r@, iv@, k_0 as nat));
    assert(rows_view(sds@) =~= commit_seeds(r@, iv@, k_0 as nat));
    let h = h_1_k0(&coms);
    let coms_to_return = sized_array_for_coms::sized_array_1(Box::new(coms));
    let sds_to_return = sized_array_for_sds::sized_array_1(Box::new(sds));
    (h, (r, iv, coms_to_return), sds_to_return)
}

/// Commits to the 2^k_1 leaves of the GGM tree with root `r`.
pub fn vec_commit_k1(r: [u8; lambda_bytes], iv: [u8; iv_bytes]) -> (res: (
    [u8; lambda_bytes_times_two],
    ([u8; lambda_bytes], [u8; iv_bytes], sized_array_for_coms),
    sized_array_for_sds,
))
    ensures
        res.1.0 == r,
        res.1.1 == iv,
        res.1.2 is sized_array_2,
        res.2 is sized_array_2,
        rows_view(res.1.2.coms()) == commit_coms(r@, iv@, k_1 as nat),
        rows_view(res.2.seeds()) == commit_seeds(r@, iv@, k_1 as nat),
        res.0@ == commitment_hash(commit_coms(r@, iv@, k_1 as nat)),
{
    proof {
        lemma2_to64();
        lemma_ggm_level_len(r@, iv@, k_1 as nat);
    }
    let leaves = get_leaves_node_from_root::<k_1_pow>(&r, iv, k_1);
    let mut sds: [[u8; lambda_bytes]; k_1_pow] = [[0; lambda_bytes]; k_1_pow];
    let mut coms: [[u8; lambda_bytes_times_two]; k_1_pow] = [[0; lambda_bytes_times_two]; k_1_pow];
    let mut i: usize = 0;
    while i < k_1_pow
        invariant
            0 <= i <= k_1_pow,
            k_1_pow == pow2(k_1 as nat),
            forall|j: int| 0 <= j < k_1_pow ==> #[trigger] leaves@[j]@ == ggm_level(r@, iv@, k_1 as nat)[j],
            forall|j: int| 0 <= j < i ==> #[trigger] sds@[j]@ == h0_seed(ggm_level(r@, iv@, k_1 as nat)[j], iv@),
            forall|j: int| 0 <= j < i ==> #[trigger] coms@[j]@ == h0_com(ggm_level(r@, iv@, k_1 as nat)[j], iv@),
        decreases k_1_pow - i,
    {
        let (sd, com) = h_0(leaves[i], iv);
        sds[i] = sd;
        coms[i] = com;
        i = i + 1;
    }
    assert(rows_view(coms@) =~= commit_coms(r@, iv@, k_1 as nat));
    assert(rows_view(sds@) =~= commit_seeds(r@, iv@, k_1 as nat));
    let h = h_1_k1(&coms);
    let coms_to_return = sized_array_for_coms::sized_array_2(Box::new(coms));
    let sds_to_return = sized_array_for_sds::sized_array_2(Box::new(sds));
    (h, (r, iv, coms_to_return), sds_to_return)
}

/// The co-path of leaf `b` in the tree of depth `k`, as sequences.
pub open spec fn cop_of(r: Seq<u8>, iv: Seq<u8>, b: nat, k: nat) -> Seq<Seq<u8>> {
    Seq::new(k, |i: int| ggm_level(r, iv, (i + 1) as nat)[sibling(path_index(b, k, (i + 1) as nat)) as int])
}

/// The seeds of a co-path, as sequences.
pub open spec fn cop_view(cop: sized_array_for_cop) -> Seq<Seq<u8>> {
    rows_view(cop.nodes())
}

/// Opens a k_0 commitment at all leaves but leaf NumRec(b): the co-path of that leaf and
/// its commitment.
pub fn vec_open_k0(
    decom: &([u8; lambda_bytes], [u8; iv_bytes], sized_array_for_coms),
    b: &[u8; k_0],
) -> (pdecom: (sized_array_for_cop, [u8; lambda_bytes_times_two]))
    requires
        decom.2 is sized_array_1,
        num_rec(b@) < k_0_pow,
    ensures
        pdecom.0 is sized_array_1,
        cop_view(pdecom.0) == cop_of(decom.0@, decom.1@, num_rec(b@), k_0 as nat),
        pdecom.1 == decom.2.coms()[num_rec(b@) as int],
{
    let r = decom.0;
    let iv = decom.1;
    let idx = num_rec_k0(b);
    let cop = get_cop::<k_0>(r, iv, idx);
    let com_value: [u8; lambda_bytes_times_two] = match &decom.2 {
        sized_array_for_coms::sized_array_1(inner) => inner[idx as usize],
        sized_array_for_coms::sized_array_2(inner) => [0u8; lambda_bytes_times_two],
    };
    let cop_to_return = sized_array_for_cop::sized_array_1(cop);
    assert(cop_view(cop_to_return) =~= cop_of(r@, iv@, num_rec(b@), k_0 as nat));
    (cop_to_return, com_value)
}

/// Opens a k_1 commitment at all leaves but leaf NumRec(b).
pub fn vec_open_k1(
    decom: &([u8; lambda_bytes], [u8; iv_bytes], sized_array_for_coms),
    b: &[u8; k_1],
) -> (pdecom: (sized_array_for_cop, [u8; lambda_bytes_times_two]))
    requires
        decom.2 is sized_array_2,
        num_rec(b@) < k_1_pow,
    ensures
        pdecom.0 is sized_array_2,
        cop_view(pdecom.0) == cop_of(decom.0@, decom.1@, num_rec(b@), k_1 as nat),
        pdecom.1 == decom.2.coms()[num_rec(b@) as int],
{
    let r = decom.0;
    let iv = decom.1;
    let idx = num_rec_k1(b);
    let cop = get_cop::<k_1>(r, iv, idx);
    let com_value: [u8; lambda_bytes_times_two] = match &decom.2 {
        sized_array_for_coms::sized_array_2(inner) => inner[idx as usize],
        sized_array_for_coms::sized_array_1(inner) => [0u8; lambda_bytes_times_two],
    };
    let cop_to_return = sized_array_for_cop::sized_array_2(cop);
    assert(cop_view(cop_to_return) =~= cop_of(r@, iv@, num_rec(b@), k_1 as nat));
    (cop_to_return, com_value)
}

/// Entry `i` of the rebuilt commitments and seeds, from the leaves as the exec code fills them.
proof fn lemma_rebuilt_entry(
    leaves: Seq<Option<[u8; 16]>>,
    sds: Seq<[u8; 16]>,
    coms: Seq<[u8; 32]>,
    cop: Seq<Seq<u8>>,
    com: [u8; 32],
    iv: Seq<u8>,
    b: nat,
    k: nat,
    i: int,
)
    requires
        leaves.len() == pow2(k),
        sds.len() == pow2(k),
        coms.len() == pow2(k),
        0 <= i < pow2(k),
        b < pow2(k),
        path_index(b, k, k) == b,
        leaves[b as int] is None,
        forall|c: int, y: int|
            0 <= c < k && 0 <= y < pow2((k - c - 1) as nat) ==> {
                let e = #[trigger] leaves[sibling_start(b, k, c as nat) + y];
                &&& e is Some
                &&& e->0@ == ggm_level(cop[c], iv, (k - c - 1) as nat)[y]
            },
        ({
            let l = leaves[i];
            &&& l is Some ==> sds[i]@ == h0_seed(l->0@, iv) && coms[i]@ == h0_com(l->0@, iv)
            &&& l is None ==> sds[i]@ == zero16() && coms[i] == com
        }),
    ensures
        coms[i]@ == rec_coms(cop, com@, iv, b, k)[i],
        sds[i]@ == rec_seeds(cop, iv, b, k)[i],
{
    if i != b {
        lemma_partition(b, k, i as nat);
        let c = choose|c: nat| #[trigger] in_sibling_range(b, k, c, i as nat);
        let y = i - sibling_start(b, k, c);
        assert(leaves[sibling_start(b, k, c) + y] is Some);
    }
}

/// The rebuilt seeds and commitments of a tree of depth `k`, from the leaves as the exec
/// code fills them.
proof fn lemma_rebuilt_arrays(
    leaves: Seq<Option<[u8; 16]>>,
    sds: Seq<[u8; 16]>,
    coms: Seq<[u8; 32]>,
    cop: Seq<Seq<u8>>,
    com: [u8; 32],
    iv: Seq<u8>,
    b: nat,
    k: nat,
)
    requires
        leaves.len() == pow2(k),
        sds.len() == pow2(k),
        coms.len() == pow2(k),
        b < pow2(k),
        path_index(b, k, k) == b,
        leaves[b as int] is None,
        forall|c: int, y: int|
            0 <= c < k && 0 <= y < pow2((k - c - 1) as nat) ==> {
                let e = #[trigger] leaves[sibling_start(b, k, c as nat) + y];
                &&& e is Some
                &&& e->0@ == ggm_level(cop[c], iv, (k - c - 1) as nat)[y]
            },
        forall|i: int| 0 <= i < pow2(k) ==> {
            let l = #[trigger] leaves[i];
            &&& l is Some ==> sds[i]@ == h0_seed(l->0@, iv) && coms[i]@ == h0_com(l->0@, iv)
            &&& l is None ==> sds[i]@ == zero16() && coms[i] == com
        },
    ensures
        rows_view(coms) == rec_coms(cop, com@, iv, b, k),
        rows_view(sds) == rec_seeds(cop, iv, b, k),
{
    assert forall|i: int| 0 <= i < pow2(k) implies #[trigger] rows_view(coms)[i] == rec_coms(cop, com@, iv, b, k)[i] by {
        let l = leaves[i];
        lemma_rebuilt_entry(leaves, sds, coms, cop, com, iv, b, k, i);
    }
    assert forall|i: int| 0 <= i < pow2(k) implies #[trigger] rows_view(sds)[i] == rec_seeds(cop, iv, b, k)[i] by {
        let l = leaves[i];
        lemma_rebuilt_entry(leaves, sds, coms, cop, com, iv, b, k, i);
    }
    assert(rows_view(coms) =~= rec_coms(cop, com@, iv, b, k));
    assert(rows_view(sds) =~= rec_seeds(cop, iv, b, k));
}

/// Rebuilds a k_0 vector commitment from an opening at all leaves but leaf NumRec(b):
/// the commitment hash and the leaf seeds, the hidden one zero.
pub fn vec_reconstruct_k0(
    pdecom: &(sized_array_for_cop, [u8; lambda_bytes_times_two]),
    b: [u8; k_0],
    iv: [u8; iv_bytes],
) -> (res: ([u8; lambda_bytes_times_two], sized_array_for_sds))
    requires
        pdecom.0 is sized_array_1,
        num_rec(b@) < k_0_pow,
    ensures
        res.1 is sized_array_1,
        rows_view(res.1.seeds()) == rec_seeds(cop_view(pdecom.0), iv@, num_rec(b@), k_0 as nat),
        res.0@ == commitment_hash(rec_coms(cop_view(pdecom.0), pdecom.1@, iv@, num_rec(b@), k_0 as nat)),
{
    let cop: [[u8; 16]; k_0] = match pdecom.0 {
        sized_array_for_cop::sized_array_1(arr) => arr,
        sized_array_for_cop::sized_array_2(_) => [[0u8; 16]; k_0],
    };
    let mut sds: [[u8; lambda_bytes]; k_0_pow] = [[0u8; lambda_bytes]; k_0_pow];
    let mut coms: [[u8; lambda_bytes_times_two]; k_0_pow] = [[0u8; lambda_bytes_times_two]; k_0_pow];
    let value_of_b = num_rec_k0(&b);
    proof {
        lemma2_to64();
        lemma_pow2_adds(10, 2);
        lemma_path_index_div(value_of_b as nat, k_0 as nat, k_0 as nat);
        vstd::arithmetic::div_mod::lemma_div_basics(value_of_b as int);
        assert(value_of_b as nat / pow2(0) == value_of_b as nat);
    }
    let leaves: [Option<[u8; 16]>; k_0_pow] = get_leaves_from_cop_and_b::<k_0, k_0_pow>(&cop, iv, value_of_b);
    regen_tree_from_pdecom::<k_0_pow>(&leaves, &mut sds, &mut coms, &iv, &pdecom.1);
    proof {
        assert(rows_view(cop@) =~= cop_view(pdecom.0));
        lemma_rebuilt_arrays(leaves@, sds@, coms@, rows_view(cop@), pdecom.1, iv@, value_of_b as nat, k_0 as nat);
    }
    let h = h_1_k0(&coms);
    let seeds_to_return = sized_array_for_sds::sized_array_1(Box::new(sds));
    (h, seeds_to_return)
}

/// Rebuilds a k_1 vector commitment from an opening at all leaves but leaf NumRec(b).
pub fn vec_reconstruct_k1(
    pdecom: &(sized_array_for_cop, [u8; lambda_bytes_times_two]),
    b: [u8; k_1],
    iv: [u8; iv_bytes],
) -> (res: ([u8; lambda_bytes_times_two], sized_array_for_sds))
    requires
        pdecom.0 is sized_array_2,
        num_rec(b@) < k_1_pow,
    ensures
        res.1 is sized_array_2,
        rows_view(res.1.seeds()) == rec_seeds(cop_view(pdecom.0), iv@, num_rec(b@), k_1 as nat),
        res.0@ == commitment_hash(rec_coms(cop_view(pdecom.0), pdecom.1@, iv@, num_rec(b@), k_1 as nat)),
{
    let cop: [[u8; 16]; k_1] = match pdecom.0 {
        sized_array_for_cop::sized_array_2(arr) => arr,
        sized_array_for_cop::sized_array_1(_) => [[0u8; 16]; k_1],
    };
    let mut sds: [[u8; lambda_bytes]; k_1_pow] = [[0u8; lambda_bytes]; k_1_pow];
    let mut coms: [[u8; lambda_bytes_times_two]; k_1_pow] = [[0u8; lambda_bytes_times_two]; k_1_pow];
    let value_of_b = num_rec_k1(&b);
    proof {
        lemma2_to64();
        lemma_path_index_div(value_of_b as nat, k_1 as nat, k_1 as nat);
        vstd::arithmetic::div_mod::lemma_div_basics(value_of_b as int);
        assert(value_of_b as nat / pow2(0) == value_of_b as nat);
    }
    let leaves: [Option<[u8; 16]>; k_1_pow] = get_leaves_from_cop_and_b::<k_1, k_1_pow>(&cop, iv, value_of_b);
    regen_tree_from_pdecom::<k_1_pow>(&leaves, &mut sds, &mut coms, &iv, &pdecom.1);
    proof {
        assert(rows_view(cop@) =~= cop_view(pdecom.0));
        lemma_rebuilt_arrays(leaves@, sds@, coms@, rows_view(cop@), pdecom.1, iv@, value_of_b as nat, k_1 as nat);
    }
    let h = h_1_k1(&coms);
    let seeds_to_return = sized_array_for_sds::sized_array_2(Box::new(sds));
    (h, seeds_to_return)
}

/// A leaf rebuilt from the honest co-path of leaf `b` is the committed leaf.
proof fn lemma_rec_leaf_honest(r: Seq<u8>, iv: Seq<u8>, b: nat, k: nat, i: nat)
    requires
        b < pow2(k),
        i < pow2(k),
        i != b,
    ensures
        rec_leaf(cop_of(r, iv, b, k), iv, b, k, i) == ggm_level(r, iv, k)[i as int],
{
    lemma_partition(b, k, i);
    let c = choose|c: nat| #[trigger] in_sibling_range(b, k, c, i);
    let q = path_index(b, k, c + 1);
    crate::utils::ggm_tree::lemma_path_index_bound(b, k, c + 1);
    lemma_sibling_bound(q, c + 1);
    let m = (k - c - 1) as nat;
    let y = (i - sibling_start(b, k, c)) as nat;
    lemma_ggm_subtree(r, iv, c + 1, sibling(q), m, y);
    assert(c + 1 + m == k);
}

/// Leaves from the co-path: expanding node `c` of the co-path of leaf `b` by the remaining
/// `k - c - 1` levels gives the leaves of the tree in that sibling subtree, and the leaf that
/// the co-path hides is leaf `b` itself.
pub proof fn lemma_cop_leaves(r: Seq<u8>, iv: Seq<u8>, b: nat, k: nat, c: nat, y: nat)
    requires
        b < pow2(k),
        c < k,
        y < pow2((k - c - 1) as nat),
    ensures
        ggm_level(cop_of(r, iv, b, k)[c as int], iv, (k - c - 1) as nat)[y as int] == ggm_level(r, iv, k)[(sibling_start(b, k, c) + y) as int],
        path_index(b, k, k) == b,
{
    let q = path_index(b, k, c + 1);
    crate::utils::ggm_tree::lemma_path_index_bound(b, k, c + 1);
    lemma_sibling_bound(q, c + 1);
    let m = (k - c - 1) as nat;
    lemma_ggm_subtree(r, iv, c + 1, sibling(q), m, y);
    assert(c + 1 + m == k);
    lemma_path_index_div(b, k, k);
    lemma2_to64();
    vstd::arithmetic::div_mod::lemma_div_basics(b as int);
}

/// Opening a vector commitment at every leaf but leaf `b` and rebuilding it gives back
/// all leaf commitments, hence the commitment hash, and every leaf seed but the hidden one.
pub proof fn lemma_vec_open_reconstruct(r: Seq<u8>, iv: Seq<u8>, b: nat, k: nat)
    requires
        b < pow2(k),
    ensures
        rec_coms(cop_of(r, iv, b, k), commit_coms(r, iv, k)[b as int], iv, b, k) == commit_coms(r, iv, k),
        commitment_hash(rec_coms(cop_of(r, iv, b, k), commit_coms(r, iv, k)[b as int], iv, b, k))
            == commitment_hash(commit_coms(r, iv, k)),
        forall|i: int| 0 <= i < pow2(k) && i != b ==> #[trigger] rec_seeds(cop_of(r, iv, b, k), iv, b, k)[i]
            == commit_seeds(r, iv, k)[i],
        rec_seeds(cop_of(r, iv, b, k), iv, b, k)[b as int] == zero16(),
{
    lemma_path_index_div(b, k, k);
    lemma2_to64();
    vstd::arithmetic::div_mod::lemma_div_basics(b as int);
    assert(path_index(b, k, k) == b);
    let cop = cop_of(r, iv, b, k);
    assert forall|i: int| 0 <= i < pow2(k) implies #[trigger] rec_coms(cop, commit_coms(r, iv, k)[b as int], iv, b, k)[i]
        == commit_coms(r, iv, k)[i] by {
        if i != b {
            lemma_rec_leaf_honest(r, iv, b, k, i as nat);
        }
    }
    assert(rec_coms(cop, commit_coms(r, iv, k)[b as int], iv, b, k) =~= commit_coms(r, iv, k));
    assert forall|i: int| 0 <= i < pow2(k) && i != b implies #[trigger] rec_seeds(cop, iv, b, k)[i]
        == commit_seeds(r, iv, k)[i] by {
        lemma_rec_leaf_honest(r, iv, b, k, i as nat);
    }
}

} // verus!
