#![allow(non_snake_case, non_upper_case_globals, non_camel_case_types)]

use vstd::prelude::*;
use crate::protocols::aes::{add_round_key, aes_state_after, key_expansion, key_schedule, key_word, mix_columns, round_key, shift_rows, shift_rows_spec, sub_bytes, sub_bytes_spec, words_view};
use crate::utils::constants::{ell, expanded_key_words, lambda_bytes, R};
use crate::utils::hash_functions::{concat_seqs, pack_bits};
use crate::utils::helper_methods_cstrnts::byte_to_bits;
use crate::utils::helper_methods_for_sign::bits_to_state;
use crate::utils::math::{bits_of_bytes, state_bytes, transform_state_to_array};
use crate::utils::prg::expanded_key;
use crate::utils::types::{Pk, State, Word};

verus! {

/// The bytes of the extended witness: the key, the ten key-schedule words that go through
/// SubWord (words 4, 8, ..., 40), and the AES state after ShiftRows in rounds 1 to R - 1 of
/// the encryption of the plaintext `pt`.
pub open spec fn ext_witness_bytes(k: Seq<u8>, pt: Seq<u8>) -> Seq<u8> {
    k + concat_seqs(Seq::new(10, |t: int| key_word(k, (4 * (t + 1)) as nat))) + concat_seqs(
        Seq::new(9, |t: int| shift_rows_spec(sub_bytes_spec(aes_state_after(pt, expanded_key(k), t as nat)))),
    )
}

/// Appends the bytes of `s` to `v`.
fn push_bytes(v: &mut Vec<u8>, s: &[u8])
    ensures
        final(v)@ == old(v)@ + s@,
{
    let mut i: usize = 0;
    while i < s.len()
        invariant
            0 <= i <= s@.len(),
            v@ == old(v)@ + s@.subrange(0, i as int),
        decreases s@.len() - i,
    {
        v.push(s[i]);
        i = i + 1;
        assert(s@.subrange(0, i as int) =~= s@.subrange(0, i - 1) + seq![s@[i - 1]]);
    }
    assert(s@.subrange(0, s@.len() as int) =~= s@);
}

/// The round key words `4 r .. 4 r + 4`.
fn round_words(w: &[Word; expanded_key_words], r: usize) -> (keys: [Word; 4])
    requires
        r <= R,
    ensures
        state_bytes(keys) == round_key(w@, r as int),
{
    let keys: [Word; 4] = [w[4 * r], w[4 * r + 1], w[4 * r + 2], w[4 * r + 3]];
    assert(state_bytes(keys) =~= round_key(w@, r as int));
    keys
}

/// The key bytes and the SubWord words of the key schedule.
fn key_witness_bytes(k: &[u8; lambda_bytes], k_overline: &[Word; expanded_key_words]) -> (wb: Vec<u8>)
    requires
        words_view(k_overline@) == key_schedule(k@),
    ensures
        wb@ == k@ + concat_seqs(Seq::new(10, |t: int| key_word(k@, (4 * (t + 1)) as nat))),
{
    let mut wb: Vec<u8> = Vec::new();
    let mut i: usize = 0;
    while i < 4
        invariant
            0 <= i <= 4,
            words_view(k_overline@) == key_schedule(k@),
            wb@ == k@.subrange(0, 4 * i as int),
        decreases 4 - i,
    {
        let word = k_overline[i];
        proof {
            assert(words_view(k_overline@)[i as int] == key_schedule(k@)[i as int]);
            assert(word@ == key_word(k@, i as nat));
        }
        push_bytes(&mut wb, word.as_slice());
        assert(k@.subrange(0, 4 * (i + 1)) =~= k@.subrange(0, 4 * i as int) + k@.subrange(4 * i as int, 4 * i + 4));
        i = i + 1;
    }
    assert(k@.subrange(0, 16) =~= k@);
    let ghost sub_words = Seq::new(10, |t: int| key_word(k@, (4 * (t + 1)) as nat));
    let mut t: usize = 0;
    while t < 10
        invariant
            0 <= t <= 10,
            words_view(k_overline@) == key_schedule(k@),
            sub_words == Seq::new(10, |t: int| key_word(k@, (4 * (t + 1)) as nat)),
            wb@ == k@ + concat_seqs(sub_words.subrange(0, t as int)),
        decreases 10 - t,
    {
        let word = k_overline[4 * (t + 1)];
        proof {
            assert(words_view(k_overline@)[4 * (t + 1)] == key_schedule(k@)[4 * (t + 1)]);
            assert(word@ == key_word(k@, (4 * (t + 1)) as nat));
            assert(sub_words.subrange(0, t + 1).drop_last() =~= sub_words.subrange(0, t as int));
        }
        push_bytes(&mut wb, word.as_slice());
        t = t + 1;
    }
    assert(sub_words.subrange(0, 10) =~= sub_words);
    wb
}

/// The AES states after ShiftRows in rounds 1 to R - 1, column by column.
fn state_witness_bytes(in_block: &[u8; 128], k_overline: &[Word; expanded_key_words], Ghost(k): Ghost<Seq<u8>>) -> (wb: Vec<u8>)
    requires
        k_overline@ == expanded_key(k),
    ensures
        wb@ == concat_seqs(Seq::new(9, |t: int| shift_rows_spec(sub_bytes_spec(aes_state_after(pack_bits(in_block@), expanded_key(k), t as nat))))),
{
    let ghost pt = pack_bits(in_block@);
    let ghost W = k_overline@;
    let ghost states = Seq::new(9, |t: int| shift_rows_spec(sub_bytes_spec(aes_state_after(pt, expanded_key(k), t as nat))));
    let mut state_new: State = bits_to_state(in_block);
    add_round_key(&mut state_new, round_words(k_overline, 0));
    let mut wb: Vec<u8> = Vec::new();
    let mut j: usize = 1;
    while j < R
        invariant
            1 <= j <= R,
            W == k_overline@,
            W == expanded_key(k),
            pt == pack_bits(in_block@),
            states == Seq::new(9, |t: int| shift_rows_spec(sub_bytes_spec(aes_state_after(pt, expanded_key(k), t as nat)))),
            state_bytes(state_new) == aes_state_after(pt, W, (j - 1) as nat),
            wb@ == concat_seqs(states.subrange(0, j - 1)),
        decreases R - j,
    {
        sub_bytes(&mut state_new);
        shift_rows(&mut state_new);
        let bytes = transform_state_to_array(&state_new);
        proof {
            assert(states.subrange(0, j as int).drop_last() =~= states.subrange(0, j - 1));
            assert(bytes@ == states[j - 1]);
        }
        push_bytes(&mut wb, bytes.as_slice());
        mix_columns(&mut state_new);
        add_round_key(&mut state_new, round_words(k_overline, j));
        j = j + 1;
    }
    assert(states.subrange(0, 9) =~= states);
    wb
}

/// The bits of 200 bytes.
fn witness_bits(wb: &Vec<u8>) -> (witness: [u8; ell])
    requires
        wb@.len() == 200,
    ensures
        witness@ == bits_of_bytes(wb@),
{
    let mut witness: [u8; ell] = [0; ell];
    let mut b: usize = 0;
    while b < 200
        invariant
            0 <= b <= 200,
            wb@.len() == 200,
            forall|t: int| 0 <= t < 8 * b ==> #[trigger] witness@[t] == bits_of_bytes(wb@)[t],
        decreases 200 - b,
    {
        let bits = byte_to_bits(wb[b]);
        let mut bit: usize = 0;
        while bit < 8
            invariant
                0 <= b < 200,
                0 <= bit <= 8,
                wb@.len() == 200,
                forall|t: int| 0 <= t < 8 ==> #[trigger] bits@[t] == crate::utils::math::bit_of(wb@[b as int], t),
                forall|t: int| 0 <= t < 8 * b + bit ==> #[trigger] witness@[t] == bits_of_bytes(wb@)[t],
            decreases 8 - bit,
        {
            witness[8 * b + bit] = bits[bit];
            proof {
                assert((8 * b + bit) / 8 == b as int);
                assert((8 * b + bit) % 8 == bit as int);
            }
            bit = bit + 1;
        }
        b = b + 1;
    }
    assert(witness@ =~= bits_of_bytes(wb@));
    witness
}

/// ExtendWitness: the witness bits for the proof of knowledge of the AES key `k` of the
/// public key `pk`, least significant bit of each byte first.
pub fn faest_aes_extend_witness(k: [u8; lambda_bytes], pk: Pk) -> (witness: [u8; ell])
    ensures
        witness@ == bits_of_bytes(ext_witness_bytes(k@, pack_bits(pk@[0].0@))),
{
    let k_overline = key_expansion(k);
    proof {
        crate::utils::prg::lemma_expanded_key_pub(k@, k_overline@);
    }
    let mut wb = key_witness_bytes(&k, &k_overline);
    let in_block = pk[0].0;
    let sb = state_witness_bytes(&in_block, &k_overline, Ghost(k@));
    let ghost kb = wb@;
    let mut i: usize = 0;
    while i < sb.len()
        invariant
            0 <= i <= sb@.len(),
            wb@ == kb + sb@.subrange(0, i as int),
        decreases sb@.len() - i,
    {
        wb.push(sb[i]);
        i = i + 1;
        assert(sb@.subrange(0, i as int) =~= sb@.subrange(0, i - 1) + seq![sb@[i - 1]]);
    }
    assert(sb@.subrange(0, sb@.len() as int) =~= sb@);
    proof {
        let sub_words = Seq::new(10, |t: int| key_word(k@, (4 * (t + 1)) as nat));
        let states = Seq::new(9, |t: int| shift_rows_spec(sub_bytes_spec(aes_state_after(pack_bits(in_block@), expanded_key(k@), t as nat))));
        assert forall|t: int| 0 <= t < 10 implies (#[trigger] sub_words[t]).len() == 4 by {
            assert(words_view(k_overline@)[4 * (t + 1)] == key_schedule(k@)[4 * (t + 1)]);
        }
        crate::utils::hash_functions::lemma_concat_seqs_len16(sub_words);
        crate::utils::hash_functions::lemma_concat_seqs_len16(states);
        assert(wb@ == ext_witness_bytes(k@, pack_bits(pk@[0].0@)));
    }
    witness_bits(&wb)
}

} // verus!
