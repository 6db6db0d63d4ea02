use vstd::prelude::*;
use crate::utils::constants::{alpha, alpha_spec};
use crate::utils::galois_field::{gf_lambda_mul, gf_lambda_pow, gf_lambda_pow_spec};
use crate::utils::math::{bit_of, byte_of_bits, xor_arrays, xor_seq};
use crate::utils::types::{ByteElem, BytesElem, ByteOrBytesArray, ByteOrBytesElem, Word, zero16};

verus! {

/// Groups 44 key-schedule words into 11 round-key blocks of 16 bytes:
/// byte `4 * j + k` of block `i` is byte `k` of word `4 * i + j`.
pub fn words_to_blocks(x: [Word; 44]) -> (a: [[u8; 16]; 11])
    ensures
        forall|i: int, j: int, k: int|
            0 <= i < 11 && 0 <= j < 4 && 0 <= k < 4 ==> #[trigger] a@[i]@[4 * j + k] == x@[4 * i + j]@[k],
{
    let mut a: [[u8; 16]; 11] = [[0u8; 16]; 11];
    let mut i: usize = 0;
    while i < 11
        invariant
            0 <= i <= 11,
            forall|i2: int, j: int, k: int|
                0 <= i2 < i && 0 <= j < 4 && 0 <= k < 4 ==> #[trigger] a@[i2]@[4 * j + k] == x@[4 * i2 + j]@[k],
        decreases 11 - i,
    {
        let mut block: [u8; 16] = [0u8; 16];
        let mut j: usize = 0;
        while j < 4
            invariant
                0 <= i < 11,
                0 <= j <= 4,
                forall|j2: int, k: int| 0 <= j2 < j && 0 <= k < 4 ==> #[trigger] block@[4 * j2 + k] == x@[4 * i + j2]@[k],
            decreases 4 - j,
        {
            let word = x[4 * i + j];
            block[4 * j] = word[0];
            block[4 * j + 1] = word[1];
            block[4 * j + 2] = word[2];
            block[4 * j + 3] = word[3];
            proof {
                assert forall|j2: int, k: int| 0 <= j2 < j + 1 && 0 <= k < 4 implies #[trigger] block@[4 * j2 + k]
                    == x@[4 * i + j2]@[k] by {
                    if j2 == j {
                        assert(k == 0 || k == 1 || k == 2 || k == 3);
                    }
                }
            }
            j = j + 1;
        }
        a[i] = block;
        i = i + 1;
    }
    a
}

/// The powers alpha^i for i >= 0.
pub open spec fn alpha_pow_spec(i: int) -> Seq<u8> {
    gf_lambda_pow_spec(alpha_spec(), i)
}

/// alpha^i in F_{2^128}, where alpha generates F_{2^8} inside it.
pub fn alpha_pow(i: i32) -> (r: [u8; 16])
    requires
        i < i32::MAX,
    ensures
        r@ == alpha_pow_spec(i as int),
{
    if i == 0 {
        let one: [u8; 16] = [1, 0, 0, 0, 0, 0, 0, 0, 0, 0, 0, 0, 0, 0, 0, 0];
        assert(one@ =~= gf_lambda_pow_spec(alpha_spec(), 0));
        one
    } else if i == 1 {
        assert(alpha@ =~= alpha_spec());
        alpha
    } else {
        assert(alpha@ =~= alpha_spec());
        gf_lambda_pow(&alpha, i)
    }
}

/// ByteCombine: the sum over i < n of es_i * alpha^i.
pub open spec fn bc_acc(es: Seq<ByteOrBytesElem>, n: int) -> Seq<u8>
    decreases n,
{
    if n <= 0 {
        zero16()
    } else {
        xor_seq(bc_acc(es, n - 1), es[n - 1].mul_alpha_spec(alpha_pow_spec(n - 1)))
    }
}

/// The elements of a vector of bits or field elements.
pub open spec fn array_elems<const N: usize>(x: ByteOrBytesArray<N>) -> Seq<ByteOrBytesElem> {
    Seq::new(N as nat, |i: int| x.elem_at(i))
}

/// Bits as elements.
pub open spec fn bit_elems(s: Seq<u8>) -> Seq<ByteOrBytesElem> {
    Seq::new(s.len(), |i: int| ByteOrBytesElem::Byte(ByteElem(s[i])))
}

/// Field elements as elements.
pub open spec fn field_elems(s: Seq<[u8; 16]>) -> Seq<ByteOrBytesElem> {
    Seq::new(s.len(), |i: int| ByteOrBytesElem::Bytes(BytesElem(s[i])))
}

/// ByteCombine of eight bits or field elements: the F_{2^128} element sum of x_i * alpha^i.
pub open spec fn byte_combine_spec(x: ByteOrBytesArray<8>) -> Seq<u8> {
    bc_acc(array_elems(x), 8)
}

/// ByteCombine of the first eight entries of a bit string.
pub open spec fn bc_bits(s: Seq<u8>) -> Seq<u8> {
    bc_acc(bit_elems(s), 8)
}

/// ByteCombine of the first eight entries of a sequence of field elements.
pub open spec fn bc_fields(s: Seq<[u8; 16]>) -> Seq<u8> {
    bc_acc(field_elems(s), 8)
}

/// ByteCombine depends on the eight entries only.
pub proof fn lemma_bc_acc_ext(a: Seq<ByteOrBytesElem>, b: Seq<ByteOrBytesElem>, n: int)
    requires
        forall|i: int| 0 <= i < n ==> #[trigger] a[i] == b[i],
    ensures
        bc_acc(a, n) == bc_acc(b, n),
    decreases n,
{
    if n > 0 {
        lemma_bc_acc_ext(a, b, n - 1);
    }
}

/// ByteCombine of eight bits or field elements.
pub fn byte_combine(x: ByteOrBytesArray<8>) -> (res: [u8; 16])
    ensures
        res@ == byte_combine_spec(x),
{
    let mut res: [u8; 16] = [0; 16];
    assert(res@ =~= zero16());
    let alpha_val = alpha_pow(1);
    let mut alpha_pow_val = alpha_pow(0);
    let mut i: usize = 0;
    while i < x.len()
        invariant
            0 <= i <= 8,
            res@ == bc_acc(array_elems(x), i as int),
            alpha_val@ == alpha_pow_spec(1),
            alpha_pow_val@ == alpha_pow_spec(i as int),
        decreases 8 - i,
    {
        let elem = ByteOrBytesArray::get_at_index(&x, i);
        let contribution = elem.multiply_with_alpha(alpha_pow_val);
        res = xor_arrays(&res, &contribution);
        alpha_pow_val = if i == 0 {
            alpha_val
        } else {
            gf_lambda_mul(&alpha_pow_val, &alpha_val)
        };
        i = i + 1;
    }
    res
}

/// The eight bits of a byte, least significant first.
pub fn byte_to_bits(byte: u8) -> (bits: [u8; 8])
    ensures
        forall|i: int| 0 <= i < 8 ==> #[trigger] bits@[i] == bit_of(byte, i),
{
    let mut bits = [0u8; 8];
    let mut i: usize = 0;
    while i < 8
        invariant
            0 <= i <= 8,
            forall|j: int| 0 <= j < i ==> #[trigger] bits@[j] == bit_of(byte, j),
        decreases 8 - i,
    {
        bits[i] = (byte >> (i as u8)) & 1;
        i = i + 1;
    }
    bits
}

/// The byte `s[0] | s[1] << 1 | ... | s[n-1] << (n-1)`, shifts truncating to 8 bits.
pub open spec fn or_shifted(s: Seq<u8>, n: int) -> u8
    decreases n,
{
    if n <= 0 {
        0
    } else {
        or_shifted(s, n - 1) | ((s[n - 1] << ((n - 1) as u8)) as u8)
    }
}

/// Packs the first eight entries of `bits` into a byte, entry `i` shifted left by `i`.
pub fn bits_to_byte(bits: &[u8]) -> (result: u8)
    requires
        bits@.len() >= 8,
    ensures
        result == or_shifted(bits@, 8),
{
    let mut result = 0u8;
    let mut i: usize = 0;
    while i < 8
        invariant
            0 <= i <= 8,
            bits@.len() >= 8,
            result == or_shifted(bits@, i as int),
        decreases 8 - i,
    {
        result = result | (bits[i] << (i as u8));
        i = i + 1;
    }
    result
}

/// For bits, packing by shifts agrees with `byte_of_bits`.
pub proof fn lemma_or_shifted_bits(s: Seq<u8>)
    requires
        s.len() >= 8,
        forall|i: int| 0 <= i < 8 ==> #[trigger] s[i] <= 1,
    ensures
        or_shifted(s, 8) == byte_of_bits(s),
{
    let (b0, b1, b2, b3, b4, b5, b6, b7) = (s[0], s[1], s[2], s[3], s[4], s[5], s[6], s[7]);
    assert(b0 <= 1 && b1 <= 1 && b2 <= 1 && b3 <= 1 && b4 <= 1 && b5 <= 1 && b6 <= 1 && b7 <= 1);
    reveal_with_fuel(or_shifted, 9);
    assert(((((((((0u8 | ((b0 << 0u8) as u8)) | ((b1 << 1u8) as u8)) | ((b2 << 2u8) as u8)) | ((b3 << 3u8) as u8))
        | ((b4 << 4u8) as u8)) | ((b5 << 5u8) as u8)) | ((b6 << 6u8) as u8)) | ((b7 << 7u8) as u8))
        == ((b0 & 1) | ((b1 & 1) << 1u8) | ((b2 & 1) << 2u8) | ((b3 & 1) << 3u8) | ((b4 & 1)
        << 4u8) | ((b5 & 1) << 5u8) | ((b6 & 1) << 6u8) | ((b7 & 1) << 7u8)) as u8) by (bit_vector)
        requires
            b0 <= 1 && b1 <= 1 && b2 <= 1 && b3 <= 1 && b4 <= 1 && b5 <= 1 && b6 <= 1 && b7 <= 1,
    ;
}

/// ByteToBits and BitsToByte are inverse: packing the eight bits of a byte gives the byte, and
/// the bits of the byte packed from eight 0/1 values are those values.
pub proof fn lemma_byte_bits_inverse(x: u8, s: Seq<u8>)
    ensures
        or_shifted(Seq::new(8, |i: int| bit_of(x, i)), 8) == x,
        s.len() == 8 && (forall|i: int| 0 <= i < 8 ==> #[trigger] s[i] <= 1) ==> forall|i: int|
            0 <= i < 8 ==> #[trigger] bit_of(or_shifted(s, 8), i) == s[i],
{
    let t = Seq::new(8, |i: int| bit_of(x, i));
    crate::utils::math::lemma_byte_bits_roundtrip(x, 0, 0, 0, 0, 0, 0, 0, 0);
    assert(t =~= seq![bit_of(x, 0), bit_of(x, 1), bit_of(x, 2), bit_of(x, 3), bit_of(x, 4), bit_of(x, 5), bit_of(x, 6), bit_of(x, 7)]);
    assert forall|i: int| 0 <= i < 8 implies #[trigger] t[i] <= 1 by {
        crate::utils::math::lemma_flip_bit_of_byte(x, 0, i as u8);
    }
    lemma_or_shifted_bits(t);
    if s.len() == 8 && (forall|i: int| 0 <= i < 8 ==> #[trigger] s[i] <= 1) {
        assert(s[0] <= 1 && s[1] <= 1 && s[2] <= 1 && s[3] <= 1 && s[4] <= 1 && s[5] <= 1 && s[6] <= 1 && s[7] <= 1);
        lemma_or_shifted_bits(s);
        crate::utils::math::lemma_byte_bits_roundtrip(0, s[0], s[1], s[2], s[3], s[4], s[5], s[6], s[7]);
        assert(s =~= seq![s[0], s[1], s[2], s[3], s[4], s[5], s[6], s[7]]);
    }
}

} // verus!
