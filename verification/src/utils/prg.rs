#![allow(non_upper_case_globals)]

use vstd::prelude::*;
use vstd::arithmetic::power2::{pow2, lemma_pow2_adds, lemma2_to64};
use crate::utils::constants::{iv_bytes, lambda_bytes, ell_hat_bytes, expanded_key_words};
use crate::utils::math::{transform_byte_array_to_state, transform_state_to_array};
use crate::utils::types::Word;
use crate::protocols::aes::{aes_encrypt_spec, encrypt, key_expansion, key_schedule, words_view};

verus! {

/// The natural number with big-endian base-256 digits `s`.
pub open spec fn be_value(s: Seq<u8>) -> nat
    decreases s.len(),
{
    if s.len() == 0 {
        0
    } else {
        be_value(s.drop_last()) * 256 + s.last() as nat
    }
}

/// The `n` big-endian base-256 digits of `x` (modulo 256^n).
pub open spec fn be_bytes(x: nat, n: nat) -> Seq<u8>
    decreases n,
{
    if n == 0 {
        Seq::empty()
    } else {
        be_bytes(x / 256, (n - 1) as nat).push((x % 256) as u8)
    }
}

/// 2^128.
pub open spec fn two_to_128() -> nat {
    u128::MAX as nat + 1
}

/// Counter block `j` of CTR mode: the iv read as a 128-bit big-endian number, plus `j`, modulo 2^128.
pub open spec fn ctr_block(iv: Seq<u8>, j: nat) -> Seq<u8> {
    be_bytes((be_value(iv) + j) % two_to_128(), 16)
}

/// The AES-128 key schedule of `key` as words.
pub open spec fn expanded_key(key: Seq<u8>) -> Seq<Word> {
    choose|w: Seq<Word>| words_view(w) == key_schedule(key)
}

/// Key-stream block `j` of AES-128 in counter mode under `key` and `iv`.
pub open spec fn prg_block(key: Seq<u8>, iv: Seq<u8>, j: nat) -> Seq<u8> {
    aes_encrypt_spec(ctr_block(iv, j), expanded_key(key))
}

/// The first `len` bytes of the AES-128-CTR key stream under `key` and `iv`.
pub open spec fn prg_spec(key: Seq<u8>, iv: Seq<u8>, len: nat) -> Seq<u8> {
    Seq::new(len, |t: int| prg_block(key, iv, (t / 16) as nat)[t % 16])
}

/// The key schedule determines the words.
proof fn lemma_expanded_key(key: Seq<u8>, w: Seq<Word>)
    requires
        words_view(w) == key_schedule(key),
    ensures
        w == expanded_key(key),
{
    let c = expanded_key(key);
    assert(words_view(c) == key_schedule(key));
    assert(c.len() == w.len()) by {
        assert(words_view(c).len() == words_view(w).len());
    }
    assert forall|i: int| 0 <= i < w.len() implies c[i] == w[i] by {
        assert(words_view(c)[i] == words_view(w)[i]);
        assert(c[i]@ =~= w[i]@);
    }
    assert(c =~= w);
}

proof fn lemma_pow2_128()
    ensures
        pow2(128) == two_to_128(),
{
    lemma2_to64();
    lemma_pow2_adds(64, 64);
    assert(0x10000000000000000nat * 0x10000000000000000nat == u128::MAX as nat + 1) by (nonlinear_arith);
}

proof fn lemma_be_bytes_len(x: nat, n: nat)
    ensures
        be_bytes(x, n).len() == n,
    decreases n,
{
    if n > 0 {
        lemma_be_bytes_len(x / 256, (n - 1) as nat);
    }
}

/// The words of any key expansion of `key` are `expanded_key(key)`.
pub proof fn lemma_expanded_key_pub(key: Seq<u8>, w: Seq<Word>)
    requires
        words_view(w) == key_schedule(key),
    ensures
        w == expanded_key(key),
{
    lemma_expanded_key(key, w);
}

proof fn lemma_be_value_bound(s: Seq<u8>)
    ensures
        be_value(s) < pow2(8 * s.len()),
    decreases s.len(),
{
    lemma2_to64();
    if s.len() == 0 {
    } else {
        lemma_be_value_bound(s.drop_last());
        let p = pow2(8 * (s.len() - 1) as nat);
        lemma_pow2_adds(8 * (s.len() - 1) as nat, 8);
        assert(8 * (s.len() - 1) as nat + 8 == 8 * s.len());
        let v = be_value(s.drop_last());
        assert(v * 256 + s.last() < p * 256) by (nonlinear_arith)
            requires
                v < p,
                s.last() < 256,
        ;
    }
}

/// The iv as a big-endian number.
fn be_u128(iv: &[u8; 16]) -> (r: u128)
    ensures
        r == be_value(iv@),
{
    let mut acc: u128 = 0;
    let mut i: usize = 0;
    proof {
        assert(iv@.subrange(0, 0) =~= Seq::<u8>::empty());
    }
    while i < 16
        invariant
            0 <= i <= 16,
            acc == be_value(iv@.subrange(0, i as int)),
        decreases 16 - i,
    {
        proof {
            lemma_be_value_bound(iv@.subrange(0, i + 1));
            assert(iv@.subrange(0, i + 1).drop_last() =~= iv@.subrange(0, i as int));
            vstd::arithmetic::power2::lemma_pow2_strictly_increases(8 * (i + 1) as nat, 129);
            lemma_pow2_128();
            assert(pow2(129) == 2 * two_to_128()) by {
                lemma2_to64();
                lemma_pow2_adds(128, 1);
            }
            if i + 1 < 16 {
                vstd::arithmetic::power2::lemma_pow2_strictly_increases(8 * (i + 1) as nat, 128);
            }

        }
        acc = acc * 256 + iv[i] as u128;
        i = i + 1;
    }
    assert(iv@.subrange(0, 16) =~= iv@);
    acc
}

/// The 16 big-endian digits of `x`.
fn be_bytes16(x: u128) -> (r: [u8; 16])
    ensures
        r@ == be_bytes(x as nat, 16),
{
    let mut r = [0u8; 16];
    let mut y: u128 = x;
    let mut j: usize = 0;
    proof {
        assert(r@.subrange(16, 16) =~= Seq::<u8>::empty());
        assert(be_bytes(x as nat, 16) + r@.subrange(16, 16) =~= be_bytes(x as nat, 16));
    }
    while j < 16
        invariant
            0 <= j <= 16,
            be_bytes(x as nat, 16) == be_bytes(y as nat, (16 - j) as nat) + r@.subrange(16 - j, 16),
        decreases 16 - j,
    {
        let ghost old_r = r@;
        let ghost yy = y;
        r[15 - j] = (y % 256) as u8;
        y = y / 256;
        proof {
            assert(r@.subrange(16 - (j + 1), 16) =~= seq![(yy % 256) as u8] + old_r.subrange(16 - j, 16));
            assert(be_bytes(yy as nat, (16 - j) as nat) == be_bytes((yy / 256) as nat, (16 - (j + 1)) as nat).push((yy % 256) as u8));
            assert(be_bytes(yy as nat, (16 - j) as nat) + old_r.subrange(16 - j, 16) =~= be_bytes(y as nat, (16 - (j + 1)) as nat)
                + r@.subrange(16 - (j + 1), 16));
        }
        j = j + 1;
    }
    assert(r@.subrange(0, 16) =~= r@);
    assert(be_bytes(x as nat, 16) =~= r@);
    r
}

/// Counter block `i` as an array.
fn counter_block(iv_int: u128, i: usize, ghost_iv: &[u8; 16]) -> (r: [u8; 16])
    requires
        iv_int == be_value(ghost_iv@),
    ensures
        r@ == ctr_block(ghost_iv@, i as nat),
{
    let c = iv_int.wrapping_add(i as u128);
    proof {
        let s: nat = (iv_int + i) as nat;
        let n: nat = two_to_128();
        if s < n {
            assert(s % n == s);
        } else {
            assert(s < 2 * n);
            assert(s % n == s - n);
        }
        lemma_be_bytes_len(c as nat, 16);
    }
    assert(c as nat == ((be_value(ghost_iv@) + i) as nat) % two_to_128());
    be_bytes16(c)
}

/// AES-128 in counter mode: fills `output` with the key stream of `k` from counter `iv`.
pub fn prg(k: [u8; lambda_bytes], iv: [u8; iv_bytes], output: &mut [u8])
    requires
        old(output)@.len() + 15 <= usize::MAX,
    ensures
        final(output)@ == prg_spec(k@, iv@, old(output)@.len() as nat),
{
    let len = output.len();
    let len15: usize = len + 15;
    let num_blocks = len15 >> 4;
    assert(num_blocks == len15 / 16) by (bit_vector)
        requires
            num_blocks == len15 >> 4,
    ;
    let iv_int = be_u128(&iv);
    let key_ex: [Word; expanded_key_words] = key_expansion(k);
    proof {
        lemma_expanded_key(k@, key_ex@);
    }
    let mut i: usize = 0;
    while i < num_blocks
        invariant
            len == output@.len(),
            len == old(output)@.len(),
            len + 15 <= usize::MAX,
            num_blocks == (len + 15) / 16,
            0 <= i <= num_blocks,
            iv_int == be_value(iv@),
            key_ex@ == expanded_key(k@),
            forall|t: int| 0 <= t < 16 * i && t < len ==> #[trigger] output@[t] == prg_block(k@, iv@, (t / 16) as nat)[t % 16],
        decreases num_blocks - i,
    {
        let counter = counter_block(iv_int, i, &iv);
        let counter_state = transform_byte_array_to_state(counter.as_slice());
        assert(counter@.subrange(0, 16) =~= counter@);
        let block = encrypt(counter_state, key_ex.as_slice());
        let block_arr = transform_state_to_array(&block);
        assert(block_arr@ == prg_block(k@, iv@, i as nat));
        let start = i * 16;
        let mut t: usize = 0;
        while t < 16 && start + t < len
            invariant
                len == output@.len(),
                len + 15 <= usize::MAX,
                num_blocks == (len + 15) / 16,
                0 <= i < num_blocks,
                start == 16 * i,
                0 <= t <= 16,
                block_arr@ == prg_block(k@, iv@, i as nat),
                forall|u: int| 0 <= u < 16 * i && u < len ==> #[trigger] output@[u] == prg_block(k@, iv@, (u / 16) as nat)[u % 16],
                forall|u: int| 16 * i <= u < 16 * i + t && u < len ==> #[trigger] output@[u] == prg_block(k@, iv@, (u / 16) as nat)[u % 16],
            decreases 16 - t,
        {
            output[start + t] = block_arr[t];
            proof {
                assert((start + t) / 16 == i as int);
                assert((start + t) % 16 == t as int);
            }
            t = t + 1;
        }
        i = i + 1;
    }
    proof {
        assert(16 * num_blocks >= len);
        assert(output@ =~= prg_spec(k@, iv@, len as nat));
    }
}

/// The PRG output that expands a leaf seed into one VOLE column set: ell_hat bits.
pub fn prg_convert_to_vole(sd: [u8; lambda_bytes], iv: [u8; iv_bytes]) -> (output: [u8; ell_hat_bytes])
    ensures
        output@ == prg_spec(sd@, iv@, ell_hat_bytes as nat),
{
    let mut output = [0u8; ell_hat_bytes];
    prg(sd, iv, &mut output);
    output
}

/// The PRG output that derives the tau root seeds from the signature's root key.
pub fn prg_vole_commit_r(r: [u8; lambda_bytes], iv: [u8; iv_bytes]) -> (output: [u8; 176])
    ensures
        output@ == prg_spec(r@, iv@, 176),
{
    let mut output = [0u8; 176];
    prg(r, iv, &mut output);
    output
}

} // verus!
