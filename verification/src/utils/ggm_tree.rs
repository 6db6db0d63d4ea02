#![allow(non_upper_case_globals)]

use vstd::prelude::*;
use vstd::arithmetic::power2::{pow2, lemma_pow2_adds, lemma2_to64, lemma_pow2_pos};
use vstd::arithmetic::div_mod::lemma_div_denominator;
use vstd::bits::lemma_usize_pow2_no_overflow;
use crate::utils::prg::{prg, prg_block, prg_spec};

verus! {

/// Left child of a GGM node: the first half of PRG(node, iv) on 2 lambda bits.
pub open spec fn left_child(n: Seq<u8>, iv: Seq<u8>) -> Seq<u8> {
    prg_spec(n, iv, 32).subrange(0, 16)
}

/// Right child of a GGM node: the second half of PRG(node, iv) on 2 lambda bits.
pub open spec fn right_child(n: Seq<u8>, iv: Seq<u8>) -> Seq<u8> {
    prg_spec(n, iv, 32).subrange(16, 32)
}

/// The 2^l nodes of level `l` of the GGM tree with root `r`: node `j` of level
/// `l + 1` is the left child (j even) or the right child (j odd) of node `j / 2` of level `l`.
pub open spec fn ggm_level(r: Seq<u8>, iv: Seq<u8>, l: nat) -> Seq<Seq<u8>>
    decreases l,
{
    if l == 0 {
        seq![r]
    } else {
        let prev = ggm_level(r, iv, (l - 1) as nat);
        Seq::new(
            2 * prev.len(),
            |j: int|
                if j % 2 == 0 {
                    left_child(prev[j / 2], iv)
                } else {
                    right_child(prev[j / 2], iv)
                },
        )
    }
}

/// Bit `k` of `x`.
pub open spec fn bit_at(x: nat, k: nat) -> nat {
    (x / pow2(k)) % 2
}

/// Index at level `i` of the ancestor of leaf `b` in a tree of depth `d`: the top `i` of
/// the `d` low bits of `b`.
pub open spec fn path_index(b: nat, d: nat, i: nat) -> nat
    decreases i,
{
    if i == 0 {
        0
    } else {
        2 * path_index(b, d, (i - 1) as nat) + bit_at(b, (d - i) as nat)
    }
}

/// The sibling of node `x`.
pub open spec fn sibling(x: nat) -> nat {
    if x % 2 == 0 {
        x + 1
    } else {
        (x - 1) as nat
    }
}

pub proof fn lemma_ggm_level_len(r: Seq<u8>, iv: Seq<u8>, l: nat)
    ensures
        ggm_level(r, iv, l).len() == pow2(l),
    decreases l,
{
    lemma2_to64();
    if l > 0 {
        lemma_ggm_level_len(r, iv, (l - 1) as nat);
        lemma_pow2_adds((l - 1) as nat, 1);
    }
}

/// The children of node `p` of level `l` are nodes `2p` and `2p + 1` of level `l + 1`.
pub proof fn lemma_ggm_child(r: Seq<u8>, iv: Seq<u8>, l: nat, p: nat)
    requires
        p < pow2(l),
    ensures
        ggm_level(r, iv, l + 1)[(2 * p) as int] == left_child(ggm_level(r, iv, l)[p as int], iv),
        ggm_level(r, iv, l + 1)[(2 * p + 1) as int] == right_child(ggm_level(r, iv, l)[p as int], iv),
{
    lemma_ggm_level_len(r, iv, l);
    let prev = ggm_level(r, iv, l);
    let lv = ggm_level(r, iv, l + 1);
    assert(lv == Seq::new(
        2 * prev.len(),
        |j: int|
            if j % 2 == 0 {
                left_child(prev[j / 2], iv)
            } else {
                right_child(prev[j / 2], iv)
            },
    ));
    assert((2 * p) % 2 == 0 && (2 * p) / 2 == p);
    assert((2 * p + 1) % 2 == 1 && (2 * p + 1) / 2 == p);
}

/// A node's two children are, in order, the two 16-byte halves of the 32-byte AES-CTR key
/// stream keyed by the node: the left child is key-stream block 0 (the encryption of the
/// counter iv), the right child key-stream block 1 (that of iv + 1). So the two children
/// differ whenever these two key-stream blocks differ.
pub proof fn lemma_children_split_prg(n: Seq<u8>, iv: Seq<u8>)
    ensures
        left_child(n, iv) + right_child(n, iv) == prg_spec(n, iv, 32),
        left_child(n, iv) == prg_block(n, iv, 0),
        right_child(n, iv) == prg_block(n, iv, 1),
        prg_block(n, iv, 0) != prg_block(n, iv, 1) ==> left_child(n, iv) != right_child(n, iv),
{
    let s = prg_spec(n, iv, 32);
    assert(left_child(n, iv) + right_child(n, iv) =~= s);
    assert forall|t: int| 0 <= t < 16 implies #[trigger] left_child(n, iv)[t] == prg_block(n, iv, 0)[t] by {
        assert(t / 16 == 0 && t % 16 == t);
    }
    assert(left_child(n, iv) =~= prg_block(n, iv, 0));
    assert forall|t: int| 0 <= t < 16 implies #[trigger] right_child(n, iv)[t] == prg_block(n, iv, 1)[t] by {
        assert((16 + t) / 16 == 1 && (16 + t) % 16 == t);
    }
    assert(right_child(n, iv) =~= prg_block(n, iv, 1));
}

/// In the GGM tree, nodes 2p and 2p + 1 of level l + 1, read one after the other, are the
/// 32-byte AES-CTR key stream keyed by node p of level l: node 2p is its key-stream block 0
/// and node 2p + 1 its key-stream block 1.
pub proof fn lemma_ggm_children_prg(r: Seq<u8>, iv: Seq<u8>, l: nat, p: nat)
    requires
        p < pow2(l),
    ensures
        ggm_level(r, iv, l + 1)[(2 * p) as int] + ggm_level(r, iv, l + 1)[(2 * p + 1) as int]
            == prg_spec(ggm_level(r, iv, l)[p as int], iv, 32),
        ggm_level(r, iv, l + 1)[(2 * p) as int] == prg_block(ggm_level(r, iv, l)[p as int], iv, 0),
        ggm_level(r, iv, l + 1)[(2 * p + 1) as int] == prg_block(ggm_level(r, iv, l)[p as int], iv, 1),
{
    lemma_ggm_child(r, iv, l, p);
    lemma_children_split_prg(ggm_level(r, iv, l)[p as int], iv);
}

pub proof fn lemma_path_index_bound(b: nat, d: nat, i: nat)
    ensures
        path_index(b, d, i) < pow2(i),
    decreases i,
{
    lemma2_to64();
    if i > 0 {
        lemma_path_index_bound(b, d, (i - 1) as nat);
        lemma_pow2_adds((i - 1) as nat, 1);
    }
}

/// The two children of a node under the iv.
fn children(node: [u8; 16], iv: [u8; 16]) -> (r: ([u8; 16], [u8; 16]))
    ensures
        r.0@ == left_child(node@, iv@),
        r.1@ == right_child(node@, iv@),
{
    let mut nodes = [0u8; 32];
    prg(node, iv, &mut nodes);
    let mut left = [0u8; 16];
    let mut right = [0u8; 16];
    let mut i: usize = 0;
    while i < 16
        invariant
            0 <= i <= 16,
            nodes@ == prg_spec(node@, iv@, 32),
            forall|j: int| 0 <= j < i ==> #[trigger] left@[j] == nodes@[j],
            forall|j: int| 0 <= j < i ==> #[trigger] right@[j] == nodes@[16 + j],
        decreases 16 - i,
    {
        left[i] = nodes[i];
        right[i] = nodes[16 + i];
        i = i + 1;
    }
    assert(left@ =~= prg_spec(node@, iv@, 32).subrange(0, 16));
    assert(right@ =~= prg_spec(node@, iv@, 32).subrange(16, 32));
    (left, right)
}

/// All 2^d leaves of the GGM tree of depth `d` with root `r`.
fn ggm_expand(r: &[u8; 16], iv: [u8; 16], d: usize) -> (leaves: Vec<[u8; 16]>)
    requires
        d <= 12,
    ensures
        leaves@.len() == pow2(d as nat),
        forall|i: int| 0 <= i < leaves@.len() ==> #[trigger] leaves@[i]@ == ggm_level(r@, iv@, d as nat)[i],
{
    let mut level: Vec<[u8; 16]> = Vec::new();
    level.push(*r);
    let mut l: usize = 0;
    proof {
        lemma_ggm_level_len(r@, iv@, 0);
    }
    while l < d
        invariant
            0 <= l <= d <= 12,
            level@.len() == ggm_level(r@, iv@, l as nat).len(),
            level@.len() == pow2(l as nat),
            forall|i: int| 0 <= i < level@.len() ==> #[trigger] level@[i]@ == ggm_level(r@, iv@, l as nat)[i],
        decreases d - l,
    {
        proof {
            lemma_ggm_level_len(r@, iv@, (l + 1) as nat);
            lemma_usize_pow2_no_overflow((l + 1) as nat);
            lemma_pow2_adds(l as nat, 1);
            lemma2_to64();
            vstd::arithmetic::power2::lemma_pow2_strictly_increases((l + 1) as nat, 13);
            assert(pow2(13) == 8192) by {
                lemma_pow2_adds(12, 1);
            }
        }
        let mut next: Vec<[u8; 16]> = Vec::new();
        let mut j: usize = 0;
        while j < level.len()
            invariant
                0 <= l < d <= 12,
                level@.len() == pow2(l as nat),
                2 * level@.len() <= 8192,
                forall|i: int| 0 <= i < level@.len() ==> #[trigger] level@[i]@ == ggm_level(r@, iv@, l as nat)[i],
                0 <= j <= level@.len(),
                next@.len() == 2 * j,
                forall|i: int| 0 <= i < next@.len() ==> #[trigger] next@[i]@ == ggm_level(r@, iv@, (l + 1) as nat)[i],
            decreases level@.len() - j,
        {
            let (left, right) = children(level[j], iv);
            next.push(left);
            next.push(right);
            proof {
                lemma_ggm_child(r@, iv@, l as nat, j as nat);
            }
            j = j + 1;
        }
        level = next;
        l = l + 1;
    }
    level
}

/// All 2^d leaves of the GGM tree with root `r` and depth `d`.
pub fn get_leaves_node_from_root<const size_pow: usize>(r: &[u8; 16], iv: [u8; 16], d: usize) -> (leaves: [[u8; 16]; size_pow])
    requires
        d <= 12,
        size_pow == pow2(d as nat),
    ensures
        forall|i: int| 0 <= i < size_pow ==> #[trigger] leaves@[i]@ == ggm_level(r@, iv@, d as nat)[i],
{
    let all = ggm_expand(r, iv, d);
    let mut leaves: [[u8; 16]; size_pow] = [[0u8; 16]; size_pow];
    let mut i: usize = 0;
    while i < size_pow
        invariant
            0 <= i <= size_pow,
            all@.len() == size_pow,
            forall|j: int| 0 <= j < all@.len() ==> #[trigger] all@[j]@ == ggm_level(r@, iv@, d as nat)[j],
            forall|j: int| 0 <= j < i ==> #[trigger] leaves@[j]@ == ggm_level(r@, iv@, d as nat)[j],
        decreases size_pow - i,
    {
        leaves[i] = all[i];
        i = i + 1;
    }
    leaves
}

/// Whether node `index` of level `level` steps... : whether bit `level` of `index` is 0,
/// that is whether the ancestor one level below `level` bits up is a left child.
pub fn get_if_left(level: u64, index: u64) -> (r: bool)
    ensures
        r == (bit_at(index as nat, level as nat) == 0),
{
    let mut idx = index;
    let mut i = level;
    proof {
        lemma2_to64();
        assert((level - i) as nat == 0);
        assert(index as nat / 1 == index as nat);
    }
    while i > 0
        invariant
            i <= level,
            idx as nat == (index as nat) / pow2((level - i) as nat),
        decreases i,
    {
        proof {
            lemma_pow2_pos((level - i) as nat);
            lemma_div_denominator(index as int, pow2((level - i) as nat) as int, 2);
            lemma_pow2_adds((level - i) as nat, 1);
            lemma2_to64();
            assert((level - (i - 1)) as nat == (level - i) as nat + 1);
        }
        if idx % 2 == 1 {
            idx = (idx - 1) / 2;
        } else {
            idx = idx / 2;
        }
        i = i - 1;
    }
    idx % 2 == 0
}

/// One step down the path to leaf `b`: the next node on the path and its sibling are the
/// children of the current node, in the order the bit of `b` selects.
proof fn lemma_cop_step(r: Seq<u8>, iv: Seq<u8>, b: nat, size: nat, i: nat)
    requires
        i < size,
    ensures
        ({
            let node = ggm_level(r, iv, i)[path_index(b, size, i) as int];
            let q = path_index(b, size, i + 1);
            let lv = ggm_level(r, iv, i + 1);
            &&& bit_at(b, (size - i - 1) as nat) == 0 ==> lv[q as int] == left_child(node, iv)
                && lv[sibling(q) as int] == right_child(node, iv)
            &&& bit_at(b, (size - i - 1) as nat) != 0 ==> lv[q as int] == right_child(node, iv)
                && lv[sibling(q) as int] == left_child(node, iv)
        }),
{
    let p = path_index(b, size, i);
    let bit = bit_at(b, (size - i - 1) as nat);
    let q = path_index(b, size, i + 1);
    assert(q == 2 * p + bit);
    assert(bit == 0 || bit == 1);
    lemma_path_index_bound(b, size, i);
    lemma_ggm_child(r, iv, i, p);
}

/// The co-path of leaf `b` (its low `size` bits): for each level from the top, the seed
/// of the sibling of the node on the path.
pub fn get_cop<const size: usize>(r: [u8; 16], iv: [u8; 16], b: u64) -> (cop: [[u8; 16]; size])
    requires
        0 < size <= 12,
    ensures
        forall|i: int| 0 <= i < size ==> #[trigger] cop@[i]@ == ggm_level(r@, iv@, (i + 1) as nat)[
            sibling(path_index(b as nat, size as nat, (i + 1) as nat)) as int],
{
    let mut cop = [[0u8; 16]; size];
    let mut current_node = r;
    let mut i: usize = 0;
    while i < size
        invariant
            0 < size <= 12,
            0 <= i <= size,
            current_node@ == ggm_level(r@, iv@, i as nat)[path_index(b as nat, size as nat, i as nat) as int],
            forall|j: int| 0 <= j < i ==> #[trigger] cop@[j]@ == ggm_level(r@, iv@, (j + 1) as nat)[
                sibling(path_index(b as nat, size as nat, (j + 1) as nat)) as int],
        decreases size - i,
    {
        let is_left = get_if_left((size - i - 1) as u64, b);
        let (left_node_value, right_node_value) = children(current_node, iv);
        proof {
            lemma_cop_step(r@, iv@, b as nat, size as nat, i as nat);
        }
        if is_left {
            current_node = left_node_value;
            cop[i] = right_node_value;
        } else {
            current_node = right_node_value;
            cop[i] = left_node_value;
        }
        i = i + 1;
    }
    cop
}


/// Start, in leaf order, of the subtree hanging off level `c + 1` beside the path to leaf `b`.
pub open spec fn sibling_start(b: nat, size: nat, c: nat) -> nat {
    sibling(path_index(b, size, c + 1)) * pow2((size - c - 1) as nat)
}

/// The sibling of a node of level `l` is a node of level `l`.
pub proof fn lemma_sibling_bound(x: nat, l: nat)
    requires
        l > 0,
        x < pow2(l),
    ensures
        sibling(x) < pow2(l),
{
    lemma2_to64();
    lemma_pow2_adds((l - 1) as nat, 1);
    assert(pow2(l) == pow2((l - 1) as nat) * 2);
}

/// Level `m` of the subtree rooted at node `x` of level `l` is a block of level `l + m`:
/// its node `y` is node `x * 2^m + y` of the whole tree.
pub proof fn lemma_ggm_subtree(r: Seq<u8>, iv: Seq<u8>, l: nat, x: nat, m: nat, y: nat)
    requires
        x < pow2(l),
        y < pow2(m),
    ensures
        x * pow2(m) + y < pow2(l + m),
        ggm_level(ggm_level(r, iv, l)[x as int], iv, m)[y as int] == ggm_level(r, iv, l + m)[(x * pow2(m) + y) as int],
    decreases m,
{
    lemma2_to64();
    lemma_pow2_adds(l, m);
    assert(x * pow2(m) + y < pow2(l) * pow2(m)) by (nonlinear_arith)
        requires
            x + 1 <= pow2(l),
            y < pow2(m),
    ;
    if m == 0 {
        assert(y == 0);
        assert(x * pow2(0) == x) by (nonlinear_arith)
            requires
                pow2(0) == 1,
        ;
    } else {
        let node = ggm_level(r, iv, l)[x as int];
        let h = y / 2;
        let bit = y % 2;
        lemma_pow2_adds((m - 1) as nat, 1);
        assert(h < pow2((m - 1) as nat));
        lemma_ggm_subtree(r, iv, l, x, (m - 1) as nat, h);
        let z = x * pow2((m - 1) as nat) + h;
        assert(z < pow2(l + (m - 1) as nat));
        lemma_ggm_child(node, iv, (m - 1) as nat, h);
        lemma_ggm_child(r, iv, l + (m - 1) as nat, z);
        assert(x * pow2(m) + y == 2 * z + bit) by (nonlinear_arith)
            requires
                pow2(m) == pow2((m - 1) as nat) * 2,
                z == x * pow2((m - 1) as nat) + h,
                y == 2 * h + bit,
        ;
        assert(l + (m - 1) as nat + 1 == l + m);
        assert(y == 2 * h + bit);
        if bit == 0 {
            assert(ggm_level(node, iv, m)[y as int] == ggm_level(node, iv, ((m - 1) as nat + 1) as nat)[(2 * h) as int]);
        } else {
            assert(ggm_level(node, iv, m)[y as int] == ggm_level(node, iv, ((m - 1) as nat + 1) as nat)[(2 * h + 1) as int]);
        }
    }
}

/// The subtree beside the path at level `c + 1` lies within the leaves.
proof fn lemma_sibling_start_bound(b: nat, size: nat, c: nat, y: nat)
    requires
        c < size,
        y < pow2((size - c - 1) as nat),
    ensures
        sibling_start(b, size, c) + y < pow2(size),
{
    let q = path_index(b, size, c + 1);
    let n = pow2((size - c - 1) as nat);
    lemma_path_index_bound(b, size, c + 1);
    lemma2_to64();
    lemma_pow2_adds(c, 1);
    lemma_pow2_adds(c + 1, (size - c - 1) as nat);
    assert(c + 1 + (size - c - 1) as nat == size);
    let m = pow2(c + 1);
    assert(m % 2 == 0) by {
        assert(m == pow2(c) * 2);
    }
    assert(sibling(q) < m);
    assert(sibling(q) * n + y < m * n) by (nonlinear_arith)
        requires
            sibling(q) + 1 <= m,
            y < n,
    ;
}

/// One step of the narrowing leaf interval: the path interval at level `c + 1`, and the
/// sibling subtree's interval, split the path interval at level `c` in two halves.
proof fn lemma_interval_step(b: nat, size: nat, c: nat)
    requires
        c < size,
    ensures
        ({
            let n = pow2((size - c - 1) as nat);
            let start = path_index(b, size, c) * pow2((size - c) as nat);
            &&& pow2((size - c) as nat) == 2 * n
            &&& bit_at(b, (size - c - 1) as nat) == 0 ==> sibling_start(b, size, c) == start + n
                && path_index(b, size, c + 1) * n == start
            &&& bit_at(b, (size - c - 1) as nat) != 0 ==> sibling_start(b, size, c) == start
                && path_index(b, size, c + 1) * n == start + n
        }),
{
    let n = pow2((size - c - 1) as nat);
    let p = path_index(b, size, c);
    let bit = bit_at(b, (size - c - 1) as nat);
    lemma2_to64();
    lemma_pow2_adds((size - c - 1) as nat, 1);
    assert((size - c - 1) as nat + 1 == (size - c) as nat);
    assert(path_index(b, size, c + 1) == 2 * p + bit);
    assert(bit == 0 || bit == 1);
    assert(p * (2 * n) == 2 * p * n) by (nonlinear_arith);
    assert((2 * p + 1) * n == 2 * p * n + n) by (nonlinear_arith);
}

/// All leaves of a tree of depth `size`, rebuilt from the co-path `cop` of leaf `b`; leaf `b`
/// (its low `size` bits) stays unknown.
pub fn get_leaves_from_cop_and_b<const size: usize, const size_pow: usize>(
    cop: &[[u8; 16]; size],
    iv: [u8; 16],
    b: u64,
) -> (leaves: [Option<[u8; 16]>; size_pow])
    requires
        0 < size <= 12,
        size_pow == pow2(size as nat),
    ensures
        leaves@[path_index(b as nat, size as nat, size as nat) as int] is None,
        forall|c: int, y: int|
            0 <= c < size && 0 <= y < pow2((size - c - 1) as nat) ==> {
                let e = #[trigger] leaves@[sibling_start(b as nat, size as nat, c as nat) + y];
                &&& e is Some
                &&& e->0@ == ggm_level(cop@[c]@, iv@, (size - c - 1) as nat)[y]
            },
{
    let mut leaves: [Option<[u8; 16]>; size_pow] = [None; size_pow];
    let mut start: usize = 0;
    let mut end: usize = size_pow;
    let mut c: usize = 0;
    proof {
        lemma2_to64();
        assert(path_index(b as nat, size as nat, 0) == 0);
        assert((size - 0) as nat == size as nat);
    }
    while c < size
        invariant
            0 < size <= 12,
            size_pow == pow2(size as nat),
            0 <= c <= size,
            start == path_index(b as nat, size as nat, c as nat) * pow2((size - c) as nat),
            end == start + pow2((size - c) as nat),
            end <= size_pow,
            forall|k: int| start <= k < end ==> #[trigger] leaves@[k] is None,
            forall|c2: int, y: int|
                0 <= c2 < c && 0 <= y < pow2((size - c2 - 1) as nat) ==> {
                    let e = #[trigger] leaves@[sibling_start(b as nat, size as nat, c2 as nat) + y];
                    &&& e is Some
                    &&& e->0@ == ggm_level(cop@[c2]@, iv@, (size - c2 - 1) as nat)[y]
                },
        decreases size - c,
    {
        let d: usize = size - c - 1;
        let sub = ggm_expand(&cop[c], iv, d);
        let n: usize = sub.len();
        proof {
            lemma_interval_step(b as nat, size as nat, c as nat);
        }
        let go_left = get_if_left(d as u64, b);
        let base: usize = if go_left { start + n } else { start };
        let ghost before = leaves@;
        let mut t: usize = 0;
        while t < n
            invariant
                0 <= t <= n,
                n == sub@.len(),
                base + n <= end,
                start <= base,
                end <= size_pow,
                forall|j: int| 0 <= j < sub@.len() ==> #[trigger] sub@[j]@ == ggm_level(cop@[c as int]@, iv@, d as nat)[j],
                forall|k: int| 0 <= k < size_pow && !(base <= k < base + t) ==> #[trigger] leaves@[k] == before[k],
                forall|k: int| base <= k < base + t ==> {
                    let e = #[trigger] leaves@[k];
                    &&& e is Some
                    &&& e->0@ == ggm_level(cop@[c as int]@, iv@, d as nat)[k - base]
                },
            decreases n - t,
        {
            leaves[base + t] = Some(sub[t]);
            t = t + 1;
        }
        proof {
            assert forall|c2: int, y: int|
                0 <= c2 < c + 1 && 0 <= y < pow2((size - c2 - 1) as nat) implies {
                    let e = #[trigger] leaves@[sibling_start(b as nat, size as nat, c2 as nat) + y];
                    &&& e is Some
                    &&& e->0@ == ggm_level(cop@[c2]@, iv@, (size - c2 - 1) as nat)[y]
                } by {
                if c2 < c {
                    let k = sibling_start(b as nat, size as nat, c2 as nat) + y;
                    lemma_sibling_start_bound(b as nat, size as nat, c2 as nat, y as nat);
                    assert(before[k] is Some);
                    if base <= k < base + n {
                        assert(before[k] is None);
                    }
                } else {
                    assert(sibling_start(b as nat, size as nat, c as nat) == base);
                }
            }
        }
        if go_left {
            end = end - n;
        } else {
            start = start + n;
        }
        c = c + 1;
    }
    proof {
        assert((size - size) as nat == 0);
        lemma2_to64();
        let pi = path_index(b as nat, size as nat, size as nat);
        assert(c == size);
        assert(pi * pow2(0) == pi) by (nonlinear_arith)
            requires
                pow2(0) == 1,
        ;
        assert(start == pi);
        assert(leaves@[start as int] is None);
    }
    leaves
}
} // verus!
