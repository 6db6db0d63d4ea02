use vstd::prelude::*;
use crate::utils::galois_field::{gf128_mul, gf128_mul_spec, gf_one};

verus! {

/// Pointwise exclusive or of two byte sequences of equal length.
pub open spec fn xor_seq(a: Seq<u8>, b: Seq<u8>) -> Seq<u8> {
    Seq::new(a.len(), |i: int| a[i] ^ b[i])
}

/// Bit `i` (0 = least significant) of byte `b`, as 0 or 1.
pub open spec fn bit_of(b: u8, i: int) -> u8 {
    (b >> (i as u8)) & 1u8
}

/// The little-endian bit string of a byte string: bit `k` is bit `k % 8` of byte `k / 8`.
pub open spec fn bits_of_bytes(s: Seq<u8>) -> Seq<u8> {
    Seq::new(8 * s.len(), |k: int| bit_of(s[k / 8], k % 8))
}

/// A sequence whose entries are all 0 or 1.
pub open spec fn is_bit_seq(s: Seq<u8>) -> bool {
    forall|i: int| 0 <= i < s.len() ==> #[trigger] s[i] <= 1
}

/// The byte whose bit `i` is `s[i]`, for the first eight entries of a bit string.
pub open spec fn byte_of_bits(s: Seq<u8>) -> u8 {
    ((s[0] & 1) | ((s[1] & 1) << 1u8) | ((s[2] & 1) << 2u8) | ((s[3] & 1) << 3u8) | ((s[4] & 1)
        << 4u8) | ((s[5] & 1) << 5u8) | ((s[6] & 1) << 6u8) | ((s[7] & 1) << 7u8)) as u8
}

/// The 16 bytes of an AES state in column-major order.
pub open spec fn state_bytes(s: [[u8; 4]; 4]) -> Seq<u8> {
    Seq::new(16, |k: int| s[k / 4][k % 4])
}

/// The byte string denoted by the first `n` bytes of `s`, read as a
/// little-endian natural number.
pub open spec fn le_bytes_value(s: Seq<u8>) -> nat
    decreases s.len(),
{
    if s.len() == 0 {
        0
    } else {
        s[0] as nat + 256 * le_bytes_value(s.subrange(1, s.len() as int))
    }
}

pub proof fn lemma_xor_assoc(a: u8, b: u8, c: u8)
    ensures
        (a ^ b) ^ c == a ^ (b ^ c),
        a ^ b == b ^ a,
        a ^ 0 == a,
        0 ^ a == a,
        a ^ a == 0,
{
    assert((a ^ b) ^ c == a ^ (b ^ c) && a ^ b == b ^ a && a ^ 0 == a && 0 ^ a == a && a ^ a == 0)
        by (bit_vector);
}

pub proof fn lemma_u8_halve(b: u8)
    ensures
        (b & 1 != 0) == (b % 2 == 1),
        b & 1 == b % 2,
        b >> 1 == b / 2,
        b & 0x80 != 0 <==> b >= 128,
{
    assert((b & 1 != 0) == (b % 2 == 1) && b & 1 == b % 2 && b >> 1 == b / 2 && (b & 0x80 != 0
        <==> b >= 128)) by (bit_vector);
}

/// The bytes whose little-endian bits are the bit string `s` (eight bits per byte).
pub open spec fn bytes_of_bits(s: Seq<u8>) -> Seq<u8> {
    Seq::new(s.len() / 8, |i: int| byte_of_bits(s.subrange(8 * i, 8 * i + 8)))
}

/// Flipping bit `p` of a byte changes bit `p` and no other bit.
pub proof fn lemma_flip_bit_of_byte(x: u8, p: u8, q: u8)
    requires
        p < 8,
        q < 8,
    ensures
        bit_of(x ^ (1u8 << p), q as int) == if p == q {
            bit_of(x, q as int) ^ 1
        } else {
            bit_of(x, q as int)
        },
        bit_of(x, q as int) <= 1,
        bit_of(0u8, q as int) == 0,
{
    assert(bit_of(x ^ (1u8 << p), q as int) == if p == q {
        bit_of(x, q as int) ^ 1
    } else {
        bit_of(x, q as int)
    } && bit_of(x, q as int) <= 1 && bit_of(0u8, q as int) == 0) by (bit_vector)
        requires
            p < 8,
            q < 8,
    ;
}

/// A byte is rebuilt from its eight bits, and eight 0/1 values are the bits of the byte they build.
pub proof fn lemma_byte_bits_roundtrip(x: u8, b0: u8, b1: u8, b2: u8, b3: u8, b4: u8, b5: u8, b6: u8, b7: u8)
    ensures
        byte_of_bits(seq![bit_of(x, 0), bit_of(x, 1), bit_of(x, 2), bit_of(x, 3), bit_of(x, 4), bit_of(x, 5), bit_of(x, 6), bit_of(x, 7)]) == x,
        (b0 <= 1 && b1 <= 1 && b2 <= 1 && b3 <= 1 && b4 <= 1 && b5 <= 1 && b6 <= 1 && b7 <= 1) ==> {
            let y = byte_of_bits(seq![b0, b1, b2, b3, b4, b5, b6, b7]);
            bit_of(y, 0) == b0 && bit_of(y, 1) == b1 && bit_of(y, 2) == b2 && bit_of(y, 3) == b3
                && bit_of(y, 4) == b4 && bit_of(y, 5) == b5 && bit_of(y, 6) == b6 && bit_of(y, 7) == b7
        },
{
    let s = seq![bit_of(x, 0), bit_of(x, 1), bit_of(x, 2), bit_of(x, 3), bit_of(x, 4), bit_of(x, 5), bit_of(x, 6), bit_of(x, 7)];
    let t = seq![b0, b1, b2, b3, b4, b5, b6, b7];
    assert(byte_of_bits(s) == ((((x >> 0u8) & 1u8) & 1) | ((((x >> 1u8) & 1u8) & 1) << 1u8) | ((((x >> 2u8) & 1u8) & 1) << 2u8) | ((((x >> 3u8) & 1u8) & 1) << 3u8) | ((((x >> 4u8) & 1u8) & 1)
        << 4u8) | ((((x >> 5u8) & 1u8) & 1) << 5u8) | ((((x >> 6u8) & 1u8) & 1) << 6u8) | ((((x >> 7u8) & 1u8) & 1) << 7u8)) as u8);
    let y = byte_of_bits(t);
    assert(y == ((b0 & 1) | ((b1 & 1) << 1u8) | ((b2 & 1) << 2u8) | ((b3 & 1) << 3u8) | ((b4 & 1)
        << 4u8) | ((b5 & 1) << 5u8) | ((b6 & 1) << 6u8) | ((b7 & 1) << 7u8)) as u8);
    assert(((((x >> 0u8) & 1u8) & 1) | ((((x >> 1u8) & 1u8) & 1) << 1u8) | ((((x >> 2u8) & 1u8) & 1) << 2u8) | ((((x >> 3u8) & 1u8) & 1) << 3u8) | ((((x >> 4u8) & 1u8) & 1)
        << 4u8) | ((((x >> 5u8) & 1u8) & 1) << 5u8) | ((((x >> 6u8) & 1u8) & 1) << 6u8) | ((((x >> 7u8) & 1u8) & 1) << 7u8)) as u8 == x
        && ((b0 <= 1 && b1 <= 1 && b2 <= 1 && b3 <= 1 && b4 <= 1 && b5 <= 1 && b6 <= 1 && b7 <= 1) ==> (
        (((y >> 0u8) & 1u8) == b0) && (((y >> 1u8) & 1u8) == b1) && (((y >> 2u8) & 1u8) == b2) && (((y >> 3u8) & 1u8) == b3)
        && (((y >> 4u8) & 1u8) == b4) && (((y >> 5u8) & 1u8) == b5) && (((y >> 6u8) & 1u8) == b6) && (((y >> 7u8) & 1u8) == b7))))
        by (bit_vector)
        requires
            y == ((b0 & 1) | ((b1 & 1) << 1u8) | ((b2 & 1) << 2u8) | ((b3 & 1) << 3u8) | ((b4 & 1)
                << 4u8) | ((b5 & 1) << 5u8) | ((b6 & 1) << 6u8) | ((b7 & 1) << 7u8)) as u8,
    ;
}

/// `bits_of_bytes` and `bytes_of_bits` are inverse to each other.
pub proof fn lemma_bits_bytes_inverse(x: Seq<u8>, s: Seq<u8>)
    ensures
        bytes_of_bits(bits_of_bytes(x)) == x,
        is_bit_seq(s) && s.len() % 8 == 0 ==> bits_of_bytes(bytes_of_bits(s)) == s,
        is_bit_seq(bits_of_bytes(x)),
{
    let bx = bits_of_bytes(x);
    assert forall|i: int| 0 <= i < x.len() implies #[trigger] bytes_of_bits(bx)[i] == x[i] by {
        lemma_byte_bits_roundtrip(x[i], 0, 0, 0, 0, 0, 0, 0, 0);
        assert(bx.subrange(8 * i, 8 * i + 8) =~= seq![bit_of(x[i], 0), bit_of(x[i], 1), bit_of(x[i], 2), bit_of(x[i], 3), bit_of(x[i], 4), bit_of(x[i], 5), bit_of(x[i], 6), bit_of(x[i], 7)]);
    }
    assert(bytes_of_bits(bx) =~= x);
    assert forall|k: int| 0 <= k < bx.len() implies #[trigger] bx[k] <= 1 by {
        lemma_flip_bit_of_byte(x[k / 8], 0, (k % 8) as u8);
    }
    if is_bit_seq(s) && s.len() % 8 == 0 {
        let bs = bytes_of_bits(s);
        assert forall|k: int| 0 <= k < s.len() implies #[trigger] bits_of_bytes(bs)[k] == s[k] by {
            let i = k / 8;
            let t = s.subrange(8 * i, 8 * i + 8);
            assert(t =~= seq![t[0], t[1], t[2], t[3], t[4], t[5], t[6], t[7]]);
            assert(t[0] <= 1 && t[1] <= 1 && t[2] <= 1 && t[3] <= 1 && t[4] <= 1 && t[5] <= 1 && t[6] <= 1 && t[7] <= 1);
            lemma_byte_bits_roundtrip(0, t[0], t[1], t[2], t[3], t[4], t[5], t[6], t[7]);
            assert(k == 8 * i + k % 8);
        }
        assert(bits_of_bytes(bs) =~= s);
    }
}

/// Index arithmetic of bit positions: byte `i / 8`, bit `i % 8`.
pub proof fn lemma_bit_position(i: usize)
    ensures
        i >> 3 == i / 8,
        (i as u8) & 7 == (i % 8) as u8,
        ((i % 8) as int) as u8 == (i % 8) as u8,
{
    assert(i >> 3 == i / 8 && (i as u8) & 7 == (i % 8) as u8) by (bit_vector);
}

/// Pointwise exclusive or of two byte arrays.
pub fn xor_arrays<const N: usize>(a: &[u8; N], b: &[u8; N]) -> (result: [u8; N])
    ensures
        result@ == xor_seq(a@, b@),
{
    let mut result = [0u8; N];
    let mut i: usize = 0;
    while i < N
        invariant
            0 <= i <= N,
            result@.len() == N,
            forall|j: int| 0 <= j < i ==> result@[j] == a@[j] ^ b@[j],
        decreases N - i,
    {
        result[i] = a[i] ^ b[i];
        i = i + 1;
    }
    assert(result@ =~= xor_seq(a@, b@));
    result
}

/// Reads the first 16 bytes of `a` into an AES state, column by column.
pub fn transform_byte_array_to_state(a: &[u8]) -> (state: [[u8; 4]; 4])
    requires
        a@.len() >= 16,
    ensures
        state_bytes(state) == a@.subrange(0, 16),
{
    let mut state = [[0u8; 4]; 4];
    let mut col: usize = 0;
    while col < 4
        invariant
            0 <= col <= 4,
            a@.len() >= 16,
            forall|c: int, r: int| 0 <= c < col && 0 <= r < 4 ==> state[c][r] == a@[4 * c + r],
        decreases 4 - col,
    {
        let column: [u8; 4] = [a[col * 4], a[col * 4 + 1], a[col * 4 + 2], a[col * 4 + 3]];
        state[col] = column;
        col = col + 1;
    }
    assert(state_bytes(state) =~= a@.subrange(0, 16));
    state
}

/// Writes an AES state out as 16 bytes, column by column.
pub fn transform_state_to_array(state: &[[u8; 4]; 4]) -> (bytes: [u8; 16])
    ensures
        bytes@ == state_bytes(*state),
{
    let mut bytes = [0u8; 16];
    let mut col: usize = 0;
    while col < 4
        invariant
            0 <= col <= 4,
            forall|k: int| 0 <= k < 4 * col ==> bytes@[k] == state[k / 4][k % 4],
        decreases 4 - col,
    {
        let column = state[col];
        bytes[col * 4] = column[0];
        bytes[col * 4 + 1] = column[1];
        bytes[col * 4 + 2] = column[2];
        bytes[col * 4 + 3] = column[3];
        col = col + 1;
    }
    assert(bytes@ =~= state_bytes(*state));
    bytes
}

/// Square-and-multiply in F_{2^128}: processes the bits of `e` from the least
/// significant one, multiplying `result` by `b` where a bit is set and squaring `b`.
pub open spec fn field_pow_acc(result: Seq<u8>, b: Seq<u8>, e: nat) -> Seq<u8>
    decreases e,
{
    if e == 0 {
        result
    } else {
        let r2 = if e % 2 == 1 { gf128_mul_spec(result, b) } else { result };
        field_pow_acc(r2, gf128_mul_spec(b, b), e / 2)
    }
}

/// `base^exp` in F_{2^128}, by square-and-multiply.
pub open spec fn field_pow_spec(base: Seq<u8>, exp: nat) -> Seq<u8> {
    field_pow_acc(gf_one(), base, exp)
}

/// `base^exp` in F_{2^128}, by square-and-multiply.
pub fn field_pow(base: &[u8; 16], exp: usize) -> (result: [u8; 16])
    ensures
        result@ == field_pow_spec(base@, exp as nat),
{
    if exp == 0 {
        let mut one = [0u8; 16];
        one[0] = 0x01;
        assert(one@ =~= gf_one());
        return one;
    }
    let mut result = [0u8; 16];
    result[0] = 0x01;
    assert(result@ =~= gf_one());
    let mut b = *base;
    let mut e = exp;
    while e > 0
        invariant
            field_pow_acc(result@, b@, e as nat) == field_pow_spec(base@, exp as nat),
        decreases e,
    {
        assert(e & 1 == e % 2 && e >> 1 == e / 2) by (bit_vector);
        if e & 1 == 1 {
            result = gf128_mul(&result, &b);
        }
        b = gf128_mul(&b, &b);
        e = e >> 1;
    }
    result
}

/// Whether two byte arrays are equal.
pub fn arrays_equal<const N: usize>(a: &[u8; N], b: &[u8; N]) -> (r: bool)
    ensures
        r == (a@ == b@),
{
    let mut i: usize = 0;
    while i < N
        invariant
            0 <= i <= N,
            forall|j: int| 0 <= j < i ==> a@[j] == b@[j],
        decreases N - i,
    {
        if a[i] != b[i] {
            return false;
        }
        i = i + 1;
    }
    assert(a@ =~= b@);
    true
}

/// `n & modu`; with `modu = 2^k - 1` this is `n mod 2^k`.
pub fn bitand_mod(n: u8, modu: u8) -> (result: u8)
    ensures
        result == n & modu,
        result <= modu,
{
    assert(n & modu <= modu) by (bit_vector);
    n & modu
}

} // verus!
