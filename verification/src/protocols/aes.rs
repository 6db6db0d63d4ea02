#![allow(non_snake_case, non_upper_case_globals)]

use vstd::prelude::*;
use crate::utils::constants::{lambda_bytes, nk, nst, R, expanded_key_words};
use crate::utils::galois_field::{gf28_mul_small, gf28_multiply, gf28_mul_spec, lemma_gf28_mul_two, xtime};
use crate::utils::math::{state_bytes, xor_seq};
use crate::utils::types::{State, Word};

verus! {

// ---------------------------------------------------------------------------
// Specification of AES-128 (FIPS-197) on 16-byte blocks in column-major order.
// ---------------------------------------------------------------------------

/// The AES S-box (FIPS-197, Figure 7).
pub open spec fn sbox_table() -> Seq<u8> {
    seq![99, 124, 119, 123, 242, 107, 111, 197, 48, 1, 103, 43, 254, 215, 171, 118, 202, 130, 201, 125, 250, 89, 71, 240, 173, 212, 162, 175, 156, 164, 114, 192, 183, 253, 147, 38, 54, 63, 247, 204, 52, 165, 229, 241, 113, 216, 49, 21, 4, 199, 35, 195, 24, 150, 5, 154, 7, 18, 128, 226, 235, 39, 178, 117, 9, 131, 44, 26, 27, 110, 90, 160, 82, 59, 214, 179, 41, 227, 47, 132, 83, 209, 0, 237, 32, 252, 177, 91, 106, 203, 190, 57, 74, 76, 88, 207, 208, 239, 170, 251, 67, 77, 51, 133, 69, 249, 2, 127, 80, 60, 159, 168, 81, 163, 64, 143, 146, 157, 56, 245, 188, 182, 218, 33, 16, 255, 243, 210, 205, 12, 19, 236, 95, 151, 68, 23, 196, 167, 126, 61, 100, 93, 25, 115, 96, 129, 79, 220, 34, 42, 144, 136, 70, 238, 184, 20, 222, 94, 11, 219, 224, 50, 58, 10, 73, 6, 36, 92, 194, 211, 172, 98, 145, 149, 228, 121, 231, 200, 55, 109, 141, 213, 78, 169, 108, 86, 244, 234, 101, 122, 174, 8, 186, 120, 37, 46, 28, 166, 180, 198, 232, 221, 116, 31, 75, 189, 139, 138, 112, 62, 181, 102, 72, 3, 246, 14, 97, 53, 87, 185, 134, 193, 29, 158, 225, 248, 152, 17, 105, 217, 142, 148, 155, 30, 135, 233, 206, 85, 40, 223, 140, 161, 137, 13, 191, 230, 66, 104, 65, 153, 45, 15, 176, 84, 187, 22]
}

pub open spec fn sbox(b: u8) -> u8 {
    sbox_table()[b as int]
}

/// The F_2-affine map of the S-box: b + rotl(b,1) + rotl(b,2) + rotl(b,3) + rotl(b,4) + 0x63.
pub open spec fn affine_spec(b: u8) -> u8 {
    (b ^ (((b << 1u8) | (b >> 7u8)) as u8) ^ (((b << 2u8) | (b >> 6u8)) as u8) ^ (((b << 3u8) | (b
        >> 5u8)) as u8) ^ (((b << 4u8) | (b >> 4u8)) as u8) ^ 0x63u8) as u8
}

pub open spec fn sub_bytes_spec(s: Seq<u8>) -> Seq<u8> {
    Seq::new(16, |k: int| sbox(s[k]))
}

/// Row `r` of the state is rotated left by `r` positions.
pub open spec fn shift_rows_spec(s: Seq<u8>) -> Seq<u8> {
    Seq::new(16, |k: int| s[4 * ((k / 4 + k % 4) % 4) + k % 4])
}

/// Entry (r, k) of the circulant MixColumns matrix [2 3 1 1].
pub open spec fn mix_coeff(r: int, k: int) -> u8 {
    if (k - r) % 4 == 0 {
        2
    } else if (k - r) % 4 == 1 {
        3
    } else {
        1
    }
}

/// Byte `r` of the MixColumns image of column `c` of `s`.
pub open spec fn mix_col_byte(s: Seq<u8>, c: int, r: int) -> u8 {
    gf28_mul_spec(mix_coeff(r, 0), s[4 * c]) ^ gf28_mul_spec(mix_coeff(r, 1), s[4 * c + 1])
        ^ gf28_mul_spec(mix_coeff(r, 2), s[4 * c + 2]) ^ gf28_mul_spec(mix_coeff(r, 3), s[4 * c + 3])
}

pub open spec fn mix_columns_spec(s: Seq<u8>) -> Seq<u8> {
    Seq::new(16, |k: int| mix_col_byte(s, k / 4, k % 4))
}

/// Round key `r` (16 bytes) taken from the expanded key words.
pub open spec fn round_key(w: Seq<Word>, r: int) -> Seq<u8> {
    Seq::new(16, |k: int| w[4 * r + k / 4][k % 4])
}

/// The AES state after the initial key addition and `r` full rounds.
pub open spec fn aes_state_after(b: Seq<u8>, w: Seq<Word>, r: nat) -> Seq<u8>
    decreases r,
{
    if r == 0 {
        xor_seq(b, round_key(w, 0))
    } else {
        xor_seq(
            mix_columns_spec(shift_rows_spec(sub_bytes_spec(aes_state_after(b, w, (r - 1) as nat)))),
            round_key(w, r as int),
        )
    }
}

/// AES encryption of block `b` under the expanded key `w`.
pub open spec fn aes_encrypt_spec(b: Seq<u8>, w: Seq<Word>) -> Seq<u8> {
    xor_seq(
        shift_rows_spec(sub_bytes_spec(aes_state_after(b, w, (R - 1) as nat))),
        round_key(w, R as int),
    )
}

pub open spec fn rcon_spec() -> Seq<u8> {
    seq![1u8, 2, 4, 8, 16, 32, 64, 128, 27, 54, 108]
}

pub open spec fn rot_word_spec(w: Seq<u8>) -> Seq<u8> {
    seq![w[1], w[2], w[3], w[0]]
}

pub open spec fn sub_word_spec(w: Seq<u8>) -> Seq<u8> {
    Seq::new(4, |i: int| sbox(w[i]))
}

/// Word `i` of the AES-128 key schedule of `key`.
pub open spec fn key_word(key: Seq<u8>, i: nat) -> Seq<u8>
    decreases i,
{
    if i < 4 {
        key.subrange(4 * i as int, 4 * i as int + 4)
    } else {
        let prev = key_word(key, (i - 1) as nat);
        let temp = if i % 4 == 0 {
            let t = sub_word_spec(rot_word_spec(prev));
            t.update(0, t[0] ^ rcon_spec()[i / 4 - 1])
        } else {
            prev
        };
        xor_seq(key_word(key, (i - 4) as nat), temp)
    }
}

/// The expanded key as a sequence of words.
pub open spec fn key_schedule(key: Seq<u8>) -> Seq<Seq<u8>> {
    Seq::new(44, |i: int| key_word(key, i as nat))
}

pub open spec fn words_view(w: Seq<Word>) -> Seq<Seq<u8>> {
    Seq::new(w.len(), |i: int| w[i]@)
}

// ---------------------------------------------------------------------------
// Implementation.
// ---------------------------------------------------------------------------

/// The AES S-box, by table lookup.
pub fn s_box(b: u8) -> (result: u8)
    ensures
        result == sbox(b),
{
    let table: [u8; 256] = [99, 124, 119, 123, 242, 107, 111, 197, 48, 1, 103, 43, 254, 215, 171, 118, 202, 130, 201, 125, 250, 89, 71, 240, 173, 212, 162, 175, 156, 164, 114, 192, 183, 253, 147, 38, 54, 63, 247, 204, 52, 165, 229, 241, 113, 216, 49, 21, 4, 199, 35, 195, 24, 150, 5, 154, 7, 18, 128, 226, 235, 39, 178, 117, 9, 131, 44, 26, 27, 110, 90, 160, 82, 59, 214, 179, 41, 227, 47, 132, 83, 209, 0, 237, 32, 252, 177, 91, 106, 203, 190, 57, 74, 76, 88, 207, 208, 239, 170, 251, 67, 77, 51, 133, 69, 249, 2, 127, 80, 60, 159, 168, 81, 163, 64, 143, 146, 157, 56, 245, 188, 182, 218, 33, 16, 255, 243, 210, 205, 12, 19, 236, 95, 151, 68, 23, 196, 167, 126, 61, 100, 93, 25, 115, 96, 129, 79, 220, 34, 42, 144, 136, 70, 238, 184, 20, 222, 94, 11, 219, 224, 50, 58, 10, 73, 6, 36, 92, 194, 211, 172, 98, 145, 149, 228, 121, 231, 200, 55, 109, 141, 213, 78, 169, 108, 86, 244, 234, 101, 122, 174, 8, 186, 120, 37, 46, 28, 166, 180, 198, 232, 221, 116, 31, 75, 189, 139, 138, 112, 62, 181, 102, 72, 3, 246, 14, 97, 53, 87, 185, 134, 193, 29, 158, 225, 248, 152, 17, 105, 217, 142, 148, 155, 30, 135, 233, 206, 85, 40, 223, 140, 161, 137, 13, 191, 230, 66, 104, 65, 153, 45, 15, 176, 84, 187, 22];
    assert(table@ =~= sbox_table());
    table[b as usize]
}

/// AES encryption of one block under an expanded key of 4 * (R + 1) words.
pub fn encrypt(state: State, key: &[Word]) -> (result: State)
    requires
        key@.len() == expanded_key_words,
    ensures
        state_bytes(result) == aes_encrypt_spec(state_bytes(state), key@),
{
    let mut res_state = state;
    add_round_key(&mut res_state, round_key_words(key, 0));
    let mut r: usize = 1;
    while r < R
        invariant
            1 <= r <= R,
            key@.len() == expanded_key_words,
            state_bytes(res_state) == aes_state_after(state_bytes(state), key@, (r - 1) as nat),
        decreases R - r,
    {
        sub_bytes(&mut res_state);
        shift_rows(&mut res_state);
        mix_columns(&mut res_state);
        add_round_key(&mut res_state, round_key_words(key, r));
        r = r + 1;
    }
    sub_bytes(&mut res_state);
    shift_rows(&mut res_state);
    add_round_key(&mut res_state, round_key_words(key, R));
    res_state
}

/// The four words of round key `r`.
fn round_key_words(key: &[Word], r: usize) -> (result: [Word; nst])
    requires
        r <= R,
        key@.len() == expanded_key_words,
    ensures
        state_bytes(result) == round_key(key@, r as int),
{
    let result: [Word; nst] = [key[4 * r], key[4 * r + 1], key[4 * r + 2], key[4 * r + 3]];
    assert(state_bytes(result) =~= round_key(key@, r as int));
    result
}

/// AES-128 key expansion into 4 * (R + 1) words.
pub fn key_expansion(key: [u8; lambda_bytes]) -> (result: [Word; expanded_key_words])
    ensures
        words_view(result@) == key_schedule(key@),
{
    let mut result_key: [Word; expanded_key_words] = [[0u8, 0u8, 0u8, 0u8]; expanded_key_words];
    let mut i: usize = 0;
    while i < nk
        invariant
            0 <= i <= nk,
            forall|j: int| 0 <= j < i ==> #[trigger] result_key[j]@ == key_word(key@, j as nat),
        decreases nk - i,
    {
        let w: Word = [key[4 * i], key[4 * i + 1], key[4 * i + 2], key[4 * i + 3]];
        assert(w@ =~= key_word(key@, i as nat));
        result_key[i] = w;
        i = i + 1;
    }
    let rcon: [u8; 11] = [1, 2, 4, 8, 16, 32, 64, 128, 27, 54, 108];
    assert(rcon@ =~= rcon_spec());
    while i < expanded_key_words
        invariant
            nk <= i <= expanded_key_words,
            rcon@ == rcon_spec(),
            forall|j: int| 0 <= j < i ==> #[trigger] result_key[j]@ == key_word(key@, j as nat),
        decreases expanded_key_words - i,
    {
        let mut temp: Word = result_key[i - 1];
        if i % nk == 0 {
            let mut rotated = sub_word(rot_word(temp));
            rotated[0] = rotated[0] ^ rcon[i / nk - 1];
            temp = rotated;
        }
        let prev: Word = result_key[i - nk];
        let temp_word: Word = [
            prev[0] ^ temp[0],
            prev[1] ^ temp[1],
            prev[2] ^ temp[2],
            prev[3] ^ temp[3],
        ];
        assert(temp_word@ =~= key_word(key@, i as nat));
        result_key[i] = temp_word;
        i = i + 1;
    }
    assert(words_view(result_key@) =~= key_schedule(key@));
    result_key
}

/// The round constants x^i in F_{2^8} for i < R.
pub fn setup_rcon_table() -> (rcon: [u8; R])
    ensures
        rcon@ == rcon_spec().subrange(0, R as int),
{
    let mut rcon: [u8; R] = [0u8; R];
    let mut value: u8 = 0x01;
    let mut i: usize = 0;
    while i < R
        invariant
            0 <= i <= R,
            value == rcon_spec()[i as int],
            forall|j: int| 0 <= j < i ==> rcon@[j] == rcon_spec()[j],
        decreases R - i,
    {
        rcon[i] = value;
        proof {
            lemma_gf28_mul_two(value);
            lemma_rcon_step(i as int);
        }
        value = gf28_multiply(value, 0x02);
        i = i + 1;
    }
    assert(rcon@ =~= rcon_spec().subrange(0, R as int));
    rcon
}

proof fn lemma_rcon_step(i: int)
    requires
        0 <= i < 10,
    ensures
        xtime(rcon_spec()[i]) == rcon_spec()[i + 1],
{
    assert(xtime(1u8) == 2u8 && xtime(2u8) == 4u8 && xtime(4u8) == 8u8 && xtime(8u8) == 16u8
        && xtime(16u8) == 32u8 && xtime(32u8) == 64u8 && xtime(64u8) == 128u8 && xtime(128u8)
        == 27u8 && xtime(27u8) == 54u8 && xtime(54u8) == 108u8) by (bit_vector);
}

/// Applies the S-box to every byte of the state.
pub fn sub_bytes(state: &mut State)
    ensures
        state_bytes(*final(state)) == sub_bytes_spec(state_bytes(*old(state))),
{
    let ghost s0 = state_bytes(*state);
    let mut i: usize = 0;
    while i < 4
        invariant
            0 <= i <= 4,
            s0 == state_bytes(*old(state)),
            forall|c: int, r: int|
                0 <= c < 4 && 0 <= r < 4 ==> #[trigger] state[c][r] == if c < i {
                    sbox(s0[4 * c + r])
                } else {
                    s0[4 * c + r]
                },
        decreases 4 - i,
    {
        let col: Word = state[i];
        let new_col: Word = [s_box(col[0]), s_box(col[1]), s_box(col[2]), s_box(col[3])];
        state[i] = new_col;
        i = i + 1;
    }
    assert(state_bytes(*state) =~= sub_bytes_spec(s0));
}

/// Adds (xors) the round key into the state.
pub fn add_round_key(state: &mut State, keys: [Word; nst])
    ensures
        state_bytes(*final(state)) == xor_seq(state_bytes(*old(state)), state_bytes(keys)),
{
    let ghost s0 = state_bytes(*state);
    let mut c: usize = 0;
    while c < 4
        invariant
            0 <= c <= 4,
            s0 == state_bytes(*old(state)),
            forall|cc: int, r: int|
                0 <= cc < 4 && 0 <= r < 4 ==> #[trigger] state[cc][r] == if cc < c {
                    s0[4 * cc + r] ^ keys[cc][r]
                } else {
                    s0[4 * cc + r]
                },
        decreases 4 - c,
    {
        let col: Word = state[c];
        let k: Word = keys[c];
        let new_col: Word = [col[0] ^ k[0], col[1] ^ k[1], col[2] ^ k[2], col[3] ^ k[3]];
        state[c] = new_col;
        c = c + 1;
    }
    assert(state_bytes(*state) =~= xor_seq(s0, state_bytes(keys)));
}

/// Rotates row `r` of the state left by `r` positions.
pub fn shift_rows(state: &mut State)
    ensures
        state_bytes(*final(state)) == shift_rows_spec(state_bytes(*old(state))),
{
    let temp_state: State = *state;
    let mut new_state: State = [[0u8; 4]; 4];
    let mut col: usize = 0;
    while col < 4
        invariant
            0 <= col <= 4,
            forall|c: int, r: int|
                0 <= c < col && 0 <= r < 4 ==> #[trigger] new_state[c][r] == temp_state[(c + r)
                    % 4][r],
        decreases 4 - col,
    {
        let new_col: Word = [
            temp_state[col][0],
            temp_state[(col + 1) % 4][1],
            temp_state[(col + 2) % 4][2],
            temp_state[(col + 3) % 4][3],
        ];
        new_state[col] = new_col;
        col = col + 1;
    }
    *state = new_state;
    assert(state_bytes(*state) =~= shift_rows_spec(state_bytes(temp_state)));
}

/// Multiplies every column of the state by the MixColumns matrix over F_{2^8}.
pub fn mix_columns(state: &mut State)
    ensures
        state_bytes(*final(state)) == mix_columns_spec(state_bytes(*old(state))),
{
    let ghost s0 = state_bytes(*state);
    let a: [[u8; 4]; 4] = [[2, 3, 1, 1], [1, 2, 3, 1], [1, 1, 2, 3], [3, 1, 1, 2]];
    assert(forall|r: int, k: int|
        0 <= r < 4 && 0 <= k < 4 ==> #[trigger] a[r][k] == mix_coeff(r, k));
    let mut col: usize = 0;
    while col < 4
        invariant
            0 <= col <= 4,
            s0 == state_bytes(*old(state)),
            forall|r: int, k: int| 0 <= r < 4 && 0 <= k < 4 ==> #[trigger] a[r][k] == mix_coeff(r, k),
            forall|c: int, r: int|
                0 <= c < 4 && 0 <= r < 4 ==> #[trigger] state[c][r] == if c < col {
                    mix_col_byte(s0, c, r)
                } else {
                    s0[4 * c + r]
                },
        decreases 4 - col,
    {
        let column: Word = state[col];
        let mut new_col: Word = [0u8; 4];
        let mut row: usize = 0;
        while row < 4
            invariant
                0 <= row <= 4,
                0 <= col < 4,
                forall|k: int| 0 <= k < 4 ==> column[k] == s0[4 * col + k],
                forall|r: int, k: int|
                    0 <= r < 4 && 0 <= k < 4 ==> #[trigger] a[r][k] == mix_coeff(r, k),
                forall|r: int|
                    0 <= r < row ==> #[trigger] new_col[r] == mix_col_byte(s0, col as int, r),
            decreases 4 - row,
        {
            let coeffs: [u8; 4] = a[row];
            new_col[row] = gf28_mul_small(coeffs[0], column[0]) ^ gf28_mul_small(coeffs[1], column[1])
                ^ gf28_mul_small(coeffs[2], column[2]) ^ gf28_mul_small(coeffs[3], column[3]);
            row = row + 1;
        }
        state[col] = new_col;
        col = col + 1;
    }
    assert(state_bytes(*state) =~= mix_columns_spec(s0));
}

/// Rotates a word left by one byte.
fn rot_word(word: Word) -> (result: Word)
    ensures
        result@ == rot_word_spec(word@),
{
    let result: Word = [word[1], word[2], word[3], word[0]];
    assert(result@ =~= rot_word_spec(word@));
    result
}

/// Applies the S-box to every byte of a word.
fn sub_word(word: Word) -> (result: Word)
    ensures
        result@ == sub_word_spec(word@),
{
    let result: Word = [s_box(word[0]), s_box(word[1]), s_box(word[2]), s_box(word[3])];
    assert(result@ =~= sub_word_spec(word@));
    result
}

/// The F_2-affine map of the AES S-box, computed bit by bit.
pub fn gf2_affine_transform(w: u8) -> (result: u8)
    ensures
        result == affine_spec(w),
{
    let mut result = 0u8;
    let c: u8 = 0x63;
    let mut i: u8 = 0;
    proof {
        lemma_affine_mask(w, result, 0);
    }
    while i < 8
        invariant
            0 <= i <= 8,
            c == 0x63,
            result == affine_spec(w) & (((1u16 << (i as u16)) - 1) as u8),
        decreases 8 - i,
    {
        let bit = ((w >> i) & 1) ^ ((w >> bitand_mod(i + 4, 7)) & 1) ^ ((w >> bitand_mod(i + 5, 7))
            & 1) ^ ((w >> bitand_mod(i + 6, 7)) & 1) ^ ((w >> bitand_mod(i + 7, 7)) & 1) ^ ((c
            >> i) & 1);
        proof {
            lemma_affine_step(w, result, i);
        }
        result = result | (bit << i);
        i = i + 1;
    }
    proof {
        lemma_affine_mask(w, result, 8);
    }
    result
}

proof fn lemma_affine_mask(w: u8, result: u8, i: u8)
    requires
        i == 0 || i == 8,
    ensures
        i == 0 ==> (result == 0 ==> result == affine_spec(w) & (((1u16 << (i as u16)) - 1) as u8)),
        i == 8 ==> (result == affine_spec(w) & (((1u16 << (i as u16)) - 1) as u8) ==> result
            == affine_spec(w)),
{
    assert((i == 0 ==> (result == 0 ==> result == affine_spec(w) & (((1u16 << (i as u16)) - 1) as u8)))
        && (i == 8 ==> (result == affine_spec(w) & (((1u16 << (i as u16)) - 1) as u8) ==> result
        == affine_spec(w)))) by (bit_vector);
}

proof fn lemma_affine_step(w: u8, result: u8, i: u8)
    requires
        i < 8,
        result == affine_spec(w) & (((1u16 << (i as u16)) - 1) as u8),
    ensures
        (result | ((((w >> i) & 1) ^ ((w >> (((i + 4) as u8) & 7u8)) & 1) ^ ((w >> (((i + 5) as u8) & 7u8)) & 1) ^ ((w
            >> (((i + 6) as u8) & 7u8)) & 1) ^ ((w >> (((i + 7) as u8) & 7u8)) & 1) ^ ((0x63u8 >> i) & 1)) << i))
            == affine_spec(w) & (((1u16 << ((i + 1) as u16)) - 1) as u8),
{
    assert((result | ((((w >> i) & 1) ^ ((w >> (((i + 4) as u8) & 7u8)) & 1) ^ ((w >> (((i + 5) as u8) & 7u8)) & 1) ^ ((w
        >> (((i + 6) as u8) & 7u8)) & 1) ^ ((w >> (((i + 7) as u8) & 7u8)) & 1) ^ ((0x63u8 >> i) & 1)) << i))
        == affine_spec(w) & (((1u16 << ((i + 1) as u16)) - 1) as u8)) by (bit_vector)
        requires
            i < 8,
            result == affine_spec(w) & (((1u16 << (i as u16)) - 1) as u8),
    ;
}

/// The affine map is affine: T(a + b) = T(a) + T(b) + 0x63.
pub proof fn lemma_gf2_affine_transform_affine(a: u8, b: u8)
    ensures
        affine_spec(a ^ b) == affine_spec(a) ^ affine_spec(b) ^ 0x63u8,
{
    assert(affine_spec(a ^ b) == affine_spec(a) ^ affine_spec(b) ^ 0x63u8) by (bit_vector);
}

/// AddRoundKey undoes itself: adding the same round key twice gives back the state, and
/// adding the all-zero key leaves the state unchanged.
pub proof fn lemma_add_round_key_involution(s: State, k: [Word; nst], z: [Word; nst])
    requires
        forall|c: int, r: int| 0 <= c < 4 && 0 <= r < 4 ==> #[trigger] z[c][r] == 0,
    ensures
        xor_seq(xor_seq(state_bytes(s), state_bytes(k)), state_bytes(k)) == state_bytes(s),
        xor_seq(state_bytes(s), state_bytes(z)) == state_bytes(s),
{
    assert forall|i: int| 0 <= i < 16 implies #[trigger] xor_seq(xor_seq(state_bytes(s), state_bytes(k)), state_bytes(k))[i]
        == state_bytes(s)[i] by {
        let a = state_bytes(s)[i];
        let b = state_bytes(k)[i];
        crate::utils::math::lemma_xor_assoc(a, b, b);
        crate::utils::math::lemma_xor_assoc(b, 0, 0);
        crate::utils::math::lemma_xor_assoc(a, 0, 0);
        assert(xor_seq(state_bytes(s), state_bytes(k))[i] == a ^ b);
    }
    assert forall|i: int| 0 <= i < 16 implies #[trigger] xor_seq(state_bytes(s), state_bytes(z))[i] == state_bytes(s)[i] by {
        assert(state_bytes(z)[i] == z[i / 4][i % 4]);
        crate::utils::math::lemma_xor_assoc(state_bytes(s)[i], 0, 0);
    }
    assert(xor_seq(xor_seq(state_bytes(s), state_bytes(k)), state_bytes(k)) =~= state_bytes(s));
    assert(xor_seq(state_bytes(s), state_bytes(z)) =~= state_bytes(s));
}

/// `n & modu`, used as `n mod 8` with `modu = 7`.
pub fn bitand_mod(n: u8, modu: u8) -> (result: u8)
    ensures
        result == n & modu,
        result <= modu,
{
    crate::utils::math::bitand_mod(n, modu)
}

} // verus!
