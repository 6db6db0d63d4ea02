#![allow(non_snake_case, non_upper_case_globals)]

use vstd::prelude::*;
use crate::protocols::aes::{aes_encrypt_spec, encrypt, key_expansion, key_schedule};
use crate::protocols::faest_aes_extended_witness::{ext_witness_bytes, faest_aes_extend_witness};
use crate::protocols::faest_key_enc_cstrnts::{
    enc_bkwd_value, enc_fwd_value, faest_aes_enc_bkwd, faest_aes_enc_fwd, lemma_array_elems_bits, lemma_enc_values,
};
use crate::protocols::faest_key_exp_cstrnts::{bkwd_seq, faest_aes_key_exp_bkwd, faest_aes_key_exp_fwd, ke_offset, key_exp_fwd_spec};
use crate::utils::constants::{ell, expanded_key_words, l_enc, l_ke, lambda_bytes, nk, ret_size_exp_bwd, s_enc, w_lambda_size, S_ke, LAMBDA};
use crate::utils::galois_field::{gf128_mul, gf128_mul_spec, gf28_mul_spec, gf28_multiply, gf_one};
use crate::utils::hash_functions::pack_bits;
use crate::utils::helper_methods_cstrnts::{array_elems, bit_elems, bits_to_byte, byte_to_bits, lemma_or_shifted_bits, or_shifted, words_to_blocks};
use crate::utils::helper_methods_prove_verify::zero_field;
use crate::utils::libcrux_proxy::{DrbgError, RandGenProxy};
use crate::utils::math::{arrays_equal, bit_of, bits_of_bytes, state_bytes, transform_byte_array_to_state};
use crate::utils::prg::{expanded_key, lemma_expanded_key_pub};
use crate::utils::slices::take_bytes;
use crate::utils::types::{ByteElem, ByteOrBytesArray, ByteOrBytesElem, Pk, State, Word};

verus! {

/// How many candidate keys key generation draws before it gives up.
pub const max_key_gen_attempts: u32 = 1000;

/// Why key generation failed.
#[derive(Debug, Clone, Copy, PartialEq, Eq, Structural)]
pub enum KeyGenError {
    /// The random generator failed.
    RandomGenerator(DrbgError),
    /// No drawn candidate was valid.
    NoValidKey,
}

/// The ciphertext block of the plaintext block `pt` under `key`.
pub open spec fn keygen_ct(key: Seq<u8>, pt: Seq<u8>) -> Seq<u8> {
    aes_encrypt_spec(pt, expanded_key(key))
}

/// The bits of the key schedule: bit `t % 8` of byte `(t % 32) / 8` of word `t / 32`.
pub open spec fn schedule_bits(key: Seq<u8>) -> Seq<u8> {
    Seq::new(1408, |t: int| bit_of(key_schedule(key)[t / 32][(t % 32) / 8], t % 8))
}

/// Every S-box of the key schedule has a non-zero input: the input byte times the output byte
/// recovered by ExpBkwd is 1 in F_{2^8}.
pub open spec fn key_sbox_ok(w: Seq<u8>) -> bool {
    let fwd = key_exp_fwd_spec(w);
    let bwd = bkwd_seq(w.subrange(LAMBDA as int, ell as int), fwd, false, false, 0u8, 0u8, 1u8);
    forall|i: int|
        0 <= i < S_ke ==> #[trigger] gf28_mul_spec(
            or_shifted(fwd.subrange(ke_offset(i / 4, i % 4), ke_offset(i / 4, i % 4) + 8), 8),
            or_shifted(bwd.subrange(8 * i, 8 * i + 8), 8),
        ) == 1
}

/// Every S-box of the encryption has non-zero inputs on both sides, whose product is 1.
pub open spec fn enc_sbox_ok(w: Seq<u8>, kbits: Seq<u8>, pt_bits: Seq<u8>, ct_bits: Seq<u8>) -> bool {
    let x = bit_elems(w.subrange(l_ke as int, ell as int));
    let xk = bit_elems(kbits);
    let zb = ByteOrBytesElem::Byte(ByteElem(0));
    forall|t: int|
        0 <= t < s_enc ==> {
            let f = #[trigger] enc_fwd_value(x, xk, pt_bits, false, false, zb, t);
            let b = enc_bkwd_value(x, xk, ct_bits, false, false, zb, t);
            f != zero_field() && b != zero_field() && gf128_mul_spec(f, b) == gf_one()
        }
}

/// Whether the key `key` with the plaintext block `pt` gives a usable key pair: no S-box of the
/// key schedule or of the encryption has a zero input.
pub open spec fn candidate_valid(key: Seq<u8>, pt: Seq<u8>) -> bool {
    let w = bits_of_bytes(ext_witness_bytes(key, pt));
    key_sbox_ok(w) && enc_sbox_ok(w, schedule_bits(key), bits_of_bytes(pt), bits_of_bytes(keygen_ct(key, pt)))
}

/// A key pair from key generation: the public key holds the bits of a plaintext block and of
/// its encryption under the key, and the pair is valid.
pub open spec fn keygen_ok(key: Seq<u8>, pk: Pk) -> bool {
    let pt = pack_bits(pk[0].0@);
    &&& pk[0].0@ == bits_of_bytes(pt)
    &&& pk[0].1@ == bits_of_bytes(keygen_ct(key, pt))
    &&& candidate_valid(key, pt)
}

/// Packing the bits of a byte string gives the byte string back.
proof fn lemma_pack_bits_of_bytes(x: Seq<u8>)
    ensures
        pack_bits(bits_of_bytes(x)) == x,
{
    let b = bits_of_bytes(x);
    assert(pack_bits(b).len() == x.len());
    assert forall|i: int| 0 <= i < x.len() implies #[trigger] pack_bits(b)[i] == x[i] by {
        lemma_pack_bits_entry(x, i);
    }
    assert(pack_bits(b) =~= x);
}

/// Entry `i` of `lemma_pack_bits_of_bytes`.
proof fn lemma_pack_bits_entry(x: Seq<u8>, i: int)
    requires
        0 <= i < x.len(),
    ensures
        pack_bits(bits_of_bytes(x))[i] == x[i],
{
    let b = bits_of_bytes(x);
    let s = b.subrange(8 * i, 8 * i + 8);
    let y = x[i];
    assert(s =~= seq![bit_of(y, 0), bit_of(y, 1), bit_of(y, 2), bit_of(y, 3), bit_of(y, 4), bit_of(y, 5), bit_of(y, 6), bit_of(y, 7)]);
    crate::utils::math::lemma_byte_bits_roundtrip(y, 0, 0, 0, 0, 0, 0, 0, 0);
    assert forall|j: int| 0 <= j < 8 implies #[trigger] s[j] <= 1 by {
        crate::utils::math::lemma_flip_bit_of_byte(y, 0, j as u8);
    }
    lemma_or_shifted_bits(s);
}

/// The bits of a block of 16 bytes, least significant bit of each byte first.
fn blocks_to_u8(x: [u8; 16]) -> (x_flat: [u8; 128])
    ensures
        x_flat@ == bits_of_bytes(x@),
{
    let mut x_flat = [0u8; 128];
    let mut i: usize = 0;
    while i < 16
        invariant
            0 <= i <= 16,
            forall|t: int| 0 <= t < 8 * i ==> #[trigger] x_flat@[t] == bit_of(x@[t / 8], t % 8),
        decreases 16 - i,
    {
        let bits = byte_to_bits(x[i]);
        let mut b: usize = 0;
        while b < 8
            invariant
                0 <= i < 16,
                0 <= b <= 8,
                forall|j: int| 0 <= j < 8 ==> #[trigger] bits@[j] == bit_of(x@[i as int], j),
                forall|t: int| 0 <= t < 8 * i + b ==> #[trigger] x_flat@[t] == bit_of(x@[t / 8], t % 8),
            decreases 8 - b,
        {
            x_flat[8 * i + b] = bits[b];
            assert((8 * i + b) / 8 == i as int && (8 * i + b) % 8 == b as int);
            b = b + 1;
        }
        i = i + 1;
    }
    assert(x_flat@ =~= bits_of_bytes(x@));
    x_flat
}

/// The bits of an AES state, column by column, least significant bit of each byte first.
fn turn_states_to_bits(x: State) -> (res: [u8; LAMBDA])
    ensures
        res@ == bits_of_bytes(state_bytes(x)),
{
    let mut bytes = [0u8; 16];
    let mut word_index: usize = 0;
    while word_index < 4
        invariant
            0 <= word_index <= 4,
            forall|k: int| 0 <= k < 4 * word_index ==> #[trigger] bytes@[k] == x[k / 4][k % 4],
        decreases 4 - word_index,
    {
        let word = x[word_index];
        let mut byte: usize = 0;
        while byte < 4
            invariant
                0 <= word_index < 4,
                0 <= byte <= 4,
                word == x[word_index as int],
                forall|k: int| 0 <= k < 4 * word_index + byte ==> #[trigger] bytes@[k] == x[k / 4][k % 4],
            decreases 4 - byte,
        {
            bytes[4 * word_index + byte] = word[byte];
            byte = byte + 1;
        }
        word_index = word_index + 1;
    }
    assert(bytes@ =~= state_bytes(x));
    blocks_to_u8(bytes)
}

/// Checks the S-boxes of the key schedule of the witness `w`: for each, the byte read from
/// ExpFwd times the byte recovered by ExpBkwd must be 1 in F_{2^8}.
fn key_sboxes_valid(w: &[u8; ell]) -> (valid: bool)
    ensures
        valid == key_sbox_ok(w@),
{
    let fwd_key: [u8; 1408] = faest_aes_key_exp_fwd::<[u8; ell]>(1, *w, false, false, [0u8; lambda_bytes]);
    let w_lambda: [u8; w_lambda_size] = take_bytes::<w_lambda_size>(w.as_slice(), LAMBDA);
    let bwd_key: [u8; ret_size_exp_bwd] = faest_aes_key_exp_bkwd::<[u8; w_lambda_size], [u8; 1408]>(1, w_lambda, fwd_key, false, false, 0);
    let ghost fwd = key_exp_fwd_spec(w@);
    let ghost bwd = bkwd_seq(w@.subrange(LAMBDA as int, ell as int), fwd, false, false, 0u8, 0u8, 1u8);
    assert forall|t: int| 0 <= t < ret_size_exp_bwd implies #[trigger] bwd_key@[t] == bwd[t] by {
        assert(t == 8 * (t / 8) + t % 8);
        assert(bwd_key@[8 * (t / 8) + t % 8] == crate::protocols::faest_key_exp_cstrnts::bkwd_y(
            w_lambda@, fwd_key@, t / 8, t % 8, false, false, 0u8, 0u8, 1u8));
    }
    assert(bwd_key@ =~= bwd);
    let mut valid = true;
    let mut i: usize = 0;
    while i < S_ke
        invariant
            0 <= i <= S_ke,
            fwd_key@ == fwd,
            bwd_key@ == bwd,
            fwd == key_exp_fwd_spec(w@),
            bwd == bkwd_seq(w@.subrange(LAMBDA as int, ell as int), fwd, false, false, 0u8, 0u8, 1u8),
            valid == forall|t: int|
                0 <= t < i ==> #[trigger] gf28_mul_spec(
                    or_shifted(fwd.subrange(ke_offset(t / 4, t % 4), ke_offset(t / 4, t % 4) + 8), 8),
                    or_shifted(bwd.subrange(8 * t, 8 * t + 8), 8),
                ) == 1,
        decreases S_ke - i,
    {
        let word_idx = i / 4;
        let byte_idx = i % 4;
        let rotated_idx = (byte_idx + 1) % 4;
        let word_start = (nk - 1 + word_idx * 4) * 32;
        assert(word_start + rotated_idx * 8 == ke_offset(i as int / 4, i as int % 4));
        let alpha_bits: [u8; 8] = take_bytes::<8>(fwd_key.as_slice(), word_start + rotated_idx * 8);
        let gamma_bits: [u8; 8] = take_bytes::<8>(bwd_key.as_slice(), i * 8);
        let w_alpha = bits_to_byte(alpha_bits.as_slice());
        let w_gamma = bits_to_byte(gamma_bits.as_slice());
        let product = gf28_multiply(w_alpha, w_gamma);
        if product != 1 {
            valid = false;
        }
        i = i + 1;
    }
    valid
}

/// The bits of the key schedule of `key`, round-key block by round-key block.
fn schedule_to_bits(expanded_key: &[Word; expanded_key_words], Ghost(key): Ghost<Seq<u8>>) -> (expanded_key_flat: [u8; 1408])
    requires
        crate::protocols::aes::words_view(expanded_key@) == key_schedule(key),
    ensures
        expanded_key_flat@ == schedule_bits(key),
{
    let blocks_of_expanded_key: [[u8; 16]; 11] = words_to_blocks(*expanded_key);
    let mut expanded_key_flat = [0u8; 1408];
    let mut bi: usize = 0;
    while bi < 11
        invariant
            0 <= bi <= 11,
            crate::protocols::aes::words_view(expanded_key@) == key_schedule(key),
            forall|i: int, j: int, k: int|
                0 <= i < 11 && 0 <= j < 4 && 0 <= k < 4 ==> #[trigger] blocks_of_expanded_key@[i]@[4 * j + k] == expanded_key@[4 * i + j]@[k],
            forall|t: int| 0 <= t < 128 * bi ==> #[trigger] expanded_key_flat@[t] == schedule_bits(key)[t],
        decreases 11 - bi,
    {
        let bits_of_blocks = blocks_to_u8(blocks_of_expanded_key[bi]);
        let mut t: usize = 0;
        while t < 128
            invariant
                0 <= bi < 11,
                0 <= t <= 128,
                crate::protocols::aes::words_view(expanded_key@) == key_schedule(key),
                bits_of_blocks@ == bits_of_bytes(blocks_of_expanded_key@[bi as int]@),
                forall|i: int, j: int, k: int|
                    0 <= i < 11 && 0 <= j < 4 && 0 <= k < 4 ==> #[trigger] blocks_of_expanded_key@[i]@[4 * j + k] == expanded_key@[4 * i + j]@[k],
                forall|s: int| 0 <= s < 128 * bi + t ==> #[trigger] expanded_key_flat@[s] == schedule_bits(key)[s],
            decreases 128 - t,
        {
            proof {
                let s: int = 128 * bi + t;
                let j: int = (t / 8) as int / 4;
                let k: int = (t / 8) as int % 4;
                assert(t / 8 == 4 * j + k);
                assert(s / 32 == 4 * bi + j && (s % 32) / 8 == k && s % 8 == t % 8);
                assert(blocks_of_expanded_key@[bi as int]@[4 * j + k] == expanded_key@[4 * bi + j]@[k]);
                assert(crate::protocols::aes::words_view(expanded_key@)[4 * bi + j] == expanded_key@[4 * bi + j]@);
            }
            expanded_key_flat[128 * bi + t] = bits_of_blocks[t];
            t = t + 1;
        }
        bi = bi + 1;
    }
    assert(expanded_key_flat@ =~= schedule_bits(key));
    expanded_key_flat
}

/// Checks the S-boxes of the encryption of the plaintext bits under the key schedule bits:
/// EncFwd and EncBkwd must both be non-zero and multiply to 1.
fn enc_sboxes_valid(w: &[u8; ell], expanded_key_flat: &[u8; 1408], plain_text_flat: &[u8; 128], cipher_text_flat: &[u8; 128]) -> (valid: bool)
    ensures
        valid == enc_sbox_ok(w@, expanded_key_flat@, plain_text_flat@, cipher_text_flat@),
{
    let w_enc: [u8; l_enc] = take_bytes::<l_enc>(w.as_slice(), l_ke);
    let wx = ByteOrBytesArray::from_byte_array(w_enc);
    let wk = ByteOrBytesArray::from_byte_array(*expanded_key_flat);
    let enc_fwd = faest_aes_enc_fwd(1, &wx, &wk, plain_text_flat, false, false, ByteOrBytesElem::Byte(ByteElem(0)));
    let enc_bwd = faest_aes_enc_bkwd(1, &wx, &wk, cipher_text_flat, false, false, &ByteOrBytesElem::Byte(ByteElem(0)));
    let ghost x = bit_elems(w@.subrange(l_ke as int, ell as int));
    let ghost xk = bit_elems(expanded_key_flat@);
    let ghost zb = ByteOrBytesElem::Byte(ByteElem(0));
    proof {
        lemma_array_elems_bits(w_enc);
        lemma_array_elems_bits(*expanded_key_flat);
        lemma_enc_values(array_elems(wx), array_elems(wk), plain_text_flat@, false, false, zb, enc_fwd@, enc_bwd@, cipher_text_flat@);
    }
    let one: [u8; 16] = [1, 0, 0, 0, 0, 0, 0, 0, 0, 0, 0, 0, 0, 0, 0, 0u8];
    let zero = [0u8; 16];
    assert(one@ =~= gf_one());
    assert(zero@ =~= zero_field());
    let mut i: usize = 0;
    while i < s_enc
        invariant
            0 <= i <= s_enc,
            one@ == gf_one(),
            zero@ == zero_field(),
            x == bit_elems(w@.subrange(l_ke as int, ell as int)),
            xk == bit_elems(expanded_key_flat@),
            zb == ByteOrBytesElem::Byte(ByteElem(0)),
            forall|t: int| 0 <= t < s_enc ==> #[trigger] enc_fwd@[t]@ == enc_fwd_value(x, xk, plain_text_flat@, false, false, zb, t),
            forall|t: int| 0 <= t < s_enc ==> #[trigger] enc_bwd@[t]@ == enc_bkwd_value(x, xk, cipher_text_flat@, false, false, zb, t),
            forall|t: int|
                0 <= t < i ==> {
                    let f = #[trigger] enc_fwd_value(x, xk, plain_text_flat@, false, false, zb, t);
                    let b = enc_bkwd_value(x, xk, cipher_text_flat@, false, false, zb, t);
                    f != zero_field() && b != zero_field() && gf128_mul_spec(f, b) == gf_one()
                },
        decreases s_enc - i,
    {
        assert(enc_fwd@[i as int]@ == enc_fwd_value(x, xk, plain_text_flat@, false, false, zb, i as int));
        if arrays_equal(&enc_fwd[i], &zero) || arrays_equal(&enc_bwd[i], &zero) {
            return false;
        }
        let product = gf128_mul(&enc_fwd[i], &enc_bwd[i]);
        if !arrays_equal(&product, &one) {
            return false;
        }
        i = i + 1;
    }
    true
}

/// One candidate of key generation from the random key and plaintext block: the public key
/// (the plaintext bits and the ciphertext bits) if no S-box input is zero.
pub fn key_gen_candidate(key: [u8; lambda_bytes], plaintext: [u8; 16]) -> (r: Option<Pk>)
    ensures
        r is Some <==> candidate_valid(key@, plaintext@),
        r matches Some(pk) ==> pk[0].0@ == bits_of_bytes(plaintext@) && pk[0].1@ == bits_of_bytes(keygen_ct(key@, plaintext@)),
{
    let expanded_key: [Word; expanded_key_words] = key_expansion(key);
    proof {
        lemma_expanded_key_pub(key@, expanded_key@);
    }
    let plaintext_state = transform_byte_array_to_state(plaintext.as_slice());
    let ciphertext_state = encrypt(plaintext_state, expanded_key.as_slice());
    let plain_text_flat = blocks_to_u8(plaintext);
    let cipher_text_flat = turn_states_to_bits(ciphertext_state);
    let pk: Pk = [(plain_text_flat, cipher_text_flat)];
    proof {
        assert(plaintext@.subrange(0, 16) =~= plaintext@);
        lemma_pack_bits_of_bytes(plaintext@);
    }
    let w = faest_aes_extend_witness(key, pk);
    if !key_sboxes_valid(&w) {
        return None;
    }
    let expanded_key_flat = schedule_to_bits(&expanded_key, Ghost(key@));
    if !enc_sboxes_valid(&w, &expanded_key_flat, &plain_text_flat, &cipher_text_flat) {
        return None;
    }
    Some(pk)
}

/// KeyGen: draws a random key and plaintext block until the pair is valid (at most
/// `max_key_gen_attempts` times) and returns the key with the public key.
pub fn faest_key_gen() -> (r: Result<([u8; lambda_bytes], Pk), KeyGenError>)
    ensures
        r matches Ok((key, pk)) ==> keygen_ok(key@, pk),
{
    let mut rng = match RandGenProxy::get_rand_gen_sha256() {
        Ok(rng) => rng,
        Err(e) => return Err(KeyGenError::RandomGenerator(e)),
    };
    let mut attempt: u32 = 0;
    while attempt < max_key_gen_attempts
        decreases max_key_gen_attempts - attempt,
    {
        let mut key: [u8; lambda_bytes] = [0u8; lambda_bytes];
        match rng.fill_bytes(&mut key) {
            Ok(()) => {},
            Err(e) => return Err(KeyGenError::RandomGenerator(e)),
        }
        let mut plaintext: [u8; 16] = [0u8; 16];
        match rng.fill_bytes(&mut plaintext) {
            Ok(()) => {},
            Err(e) => return Err(KeyGenError::RandomGenerator(e)),
        }
        match key_gen_candidate(key, plaintext) {
            Some(pk) => {
                proof {
                    lemma_pack_bits_of_bytes(plaintext@);
                }
                return Ok((key, pk));
            },
            None => {},
        }
        attempt = attempt + 1;
    }
    Err(KeyGenError::NoValidKey)
}

} // verus!
