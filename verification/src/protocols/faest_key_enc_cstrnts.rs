#![allow(non_snake_case, non_upper_case_globals, non_camel_case_types)]

use vstd::prelude::*;
use crate::utils::constants::{l_enc, s_enc, R};
use crate::utils::galois_field::{gf128_mul, gf128_mul_spec};
use crate::utils::helper_methods_cstrnts::{array_elems, bc_acc, bit_elems, byte_combine, field_elems, lemma_bc_acc_ext};
use crate::utils::hash_functions::rows_view;
use crate::utils::math::{xor_arrays, xor_seq};
use crate::utils::types::{
    value_of_one_in_bytes, value_of_zero_in_bytes, ByteArray, ByteElem, ByteOrBytesArray, ByteOrBytesElem, BytesArray,
    BytesElem,
};

verus! {

/// ByteCombine of the eight elements of `x` from `from` on.
pub open spec fn bc_at(xs: Seq<ByteOrBytesElem>, from: int) -> Seq<u8> {
    bc_acc(xs.subrange(from, from + 8), 8)
}

/// The element a public bit contributes: for tags nothing (zero), for keys Delta times the
/// bit, for wire values the bit itself.
pub open spec fn public_bit_elem(bit: u8, mtag: bool, mkey: bool, delta: ByteOrBytesElem, x0: ByteOrBytesElem) -> ByteOrBytesElem {
    if mtag {
        ByteOrBytesElem::dummy_spec(x0)
    } else if mkey {
        if bit == 1 {
            delta
        } else {
            ByteOrBytesElem::dummy_spec(x0)
        }
    } else if bit == 1 {
        ByteOrBytesElem::ones_spec(x0)
    } else {
        ByteOrBytesElem::dummy_spec(x0)
    }
}

/// The public block bits `8 i .. 8 i + 8` as elements.
pub open spec fn public_byte_elems(in_out: Seq<u8>, i: int, mtag: bool, mkey: bool, delta: ByteOrBytesElem, x0: ByteOrBytesElem) -> Seq<ByteOrBytesElem> {
    Seq::new(8, |t: int| public_bit_elem(in_out[8 * i + t], mtag, mkey, delta, x0))
}

/// The field element ByteCombine gives for a byte with bits `b0` and `b1` only.
pub open spec fn small_constant(b0: bool, b1: bool) -> Seq<u8> {
    bc_acc(
        Seq::new(
            8,
            |t: int|
                ByteOrBytesElem::Bytes(BytesElem(if (t == 0 && b0) || (t == 1 && b1) {
                    value_of_one_in_bytes
                } else {
                    value_of_zero_in_bytes
                })),
        ),
        8,
    )
}

/// Row `row` of MixColumns applied to the four combined bytes, plus the round-key byte.
pub open spec fn mix_row(x: Seq<Seq<u8>>, k: Seq<u8>, row: int) -> Seq<u8> {
    let one = small_constant(true, false);
    let two = small_constant(false, true);
    let three = small_constant(true, true);
    let m = |i: int| if (i - row + 4) % 4 == 0 { two } else if (i - row + 4) % 4 == 1 { three } else { one };
    xor_seq(
        xor_seq(
            xor_seq(xor_seq(gf128_mul_spec(x[0], m(0)), gf128_mul_spec(x[1], m(1))), gf128_mul_spec(x[2], m(2))),
            gf128_mul_spec(x[3], m(3)),
        ),
        k,
    )
}

/// EncFwd output `16 j + 4 c + r` for rounds `j >= 1`.
pub open spec fn enc_fwd_round(x: Seq<ByteOrBytesElem>, x_k: Seq<ByteOrBytesElem>, j: int, c: int, r: int) -> Seq<u8> {
    let xh = Seq::new(4, |t: int| bc_at(x, 128 * (j - 1) + 32 * c + 8 * t));
    mix_row(xh, bc_at(x_k, 128 * j + 32 * c + 8 * r), r)
}

/// ByteCombine of an eight-element vector built by the exec code.
fn bc8(x: ByteOrBytesArray<8>, Ghost(es): Ghost<Seq<ByteOrBytesElem>>) -> (r: [u8; 16])
    requires
        es.len() == 8,
        forall|t: int| 0 <= t < 8 ==> #[trigger] x.elem_at(t) == es[t],
    ensures
        r@ == bc_acc(es, 8),
{
    proof {
        lemma_bc_acc_ext(array_elems(x), es, 8);
    }
    byte_combine(x)
}

/// ByteCombine of the eight elements of `x` from `from` on.
fn bc_slice<const N: usize>(x: &ByteOrBytesArray<N>, from: usize) -> (r: [u8; 16])
    requires
        from + 8 <= N,
    ensures
        r@ == bc_at(array_elems(*x), from as int),
{
    let s: ByteOrBytesArray<8> = ByteOrBytesArray::get_slice(x, from, from + 8);
    bc8(s, Ghost(array_elems(*x).subrange(from as int, from + 8)))
}

/// ByteCombine of the field elements `a0`, `a1` and zeros.
fn small_constant_exec(b0: bool, b1: bool) -> (r: [u8; 16])
    ensures
        r@ == small_constant(b0, b1),
{
    let mut arr: BytesArray<8> = BytesArray([value_of_zero_in_bytes; 8]);
    if b0 {
        arr.0[0] = value_of_one_in_bytes;
    }
    if b1 {
        arr.0[1] = value_of_one_in_bytes;
    }
    let x = ByteOrBytesArray::Bytes(arr);
    bc8(
        x,
        Ghost(
            Seq::new(
                8,
                |t: int|
                    ByteOrBytesElem::Bytes(BytesElem(if (t == 0 && b0) || (t == 1 && b1) {
                        value_of_one_in_bytes
                    } else {
                        value_of_zero_in_bytes
                    })),
            ),
        ),
    )
}

/// The public block bits `8 i .. 8 i + 8` as a vector of the variant of `x0`.
fn public_byte(in_out: &[u8; 128], i: usize, mtag: bool, mkey: bool, Delta: ByteOrBytesElem, x0: ByteOrBytesElem) -> (x_in: ByteOrBytesArray<8>)
    requires
        i < 16,
        (x0 is Byte) == (Delta is Byte),
    ensures
        x_in is Byte <==> x0 is Byte,
        forall|t: int| 0 <= t < 8 ==> #[trigger] x_in.elem_at(t) == public_bit_elem(in_out@[8 * i + t], mtag, mkey, Delta, x0),
{
    let zeroes = ByteOrBytesElem::dummy(&x0);
    let ones = ByteOrBytesElem::ones(&x0);
    let mut x_in: ByteOrBytesArray<8> = ByteOrBytesArray::dummy(&x0);
    let mut j: usize = 0;
    while j < 8
        invariant
            0 <= j <= 8,
            i < 16,
            (x0 is Byte) == (Delta is Byte),
            zeroes == ByteOrBytesElem::dummy_spec(x0),
            ones == ByteOrBytesElem::ones_spec(x0),
            x_in is Byte <==> x0 is Byte,
            forall|t: int| 0 <= t < j ==> #[trigger] x_in.elem_at(t) == public_bit_elem(in_out@[8 * i + t], mtag, mkey, Delta, x0),
            forall|t: int| j <= t < 8 ==> #[trigger] x_in.elem_at(t) == ByteOrBytesElem::dummy_spec(x0),
        decreases 8 - j,
    {
        let elem = in_out[8 * i + j];
        if mtag {
        } else if mkey {
            x_in = ByteOrBytesArray::set_at_index(x_in, j, if elem == 1 { Delta } else { zeroes });
        } else {
            x_in = ByteOrBytesArray::set_at_index(x_in, j, if elem == 1 { ones } else { zeroes });
        }
        j = j + 1;
    }
    x_in
}

/// EncFwd outputs of column `c` of round `j`.
fn enc_fwd_column(
    x: &ByteOrBytesArray<1152>,
    x_k: &ByteOrBytesArray<1408>,
    j: usize,
    c: usize,
    one: &[u8; 16],
    two: &[u8; 16],
    three: &[u8; 16],
) -> (col: [[u8; 16]; 4])
    requires
        1 <= j < R,
        c < 4,
        one@ == small_constant(true, false),
        two@ == small_constant(false, true),
        three@ == small_constant(true, true),
    ensures
        forall|r: int| 0 <= r < 4 ==> #[trigger] col@[r]@ == enc_fwd_round(array_elems(*x), array_elems(*x_k), j as int, c as int, r),
{
    let i_x = 128 * (j - 1) + 32 * c;
    let i_k = 128 * j + 32 * c;
    let x0h = bc_slice(x, i_x);
    let x1h = bc_slice(x, i_x + 8);
    let x2h = bc_slice(x, i_x + 16);
    let x3h = bc_slice(x, i_x + 24);
    let k0 = bc_slice(x_k, i_k);
    let k1 = bc_slice(x_k, i_k + 8);
    let k2 = bc_slice(x_k, i_k + 16);
    let k3 = bc_slice(x_k, i_k + 24);
    let ghost xh = Seq::new(4, |t: int| bc_at(array_elems(*x), 128 * (j - 1) + 32 * c + 8 * t));
    proof {
        assert(xh[0] == x0h@ && xh[1] == x1h@ && xh[2] == x2h@ && xh[3] == x3h@);
    }
    let x_hat_0_2 = gf128_mul(&x0h, two);
    let x_hat_1_3 = gf128_mul(&x1h, three);
    let x_hat_2_1 = gf128_mul(&x2h, one);
    let x_hat_3_1 = gf128_mul(&x3h, one);
    let y0 = xor_arrays(&xor_arrays(&xor_arrays(&xor_arrays(&x_hat_0_2, &x_hat_1_3), &x_hat_2_1), &x_hat_3_1), &k0);
    let x_hat_0_1 = gf128_mul(&x0h, one);
    let x_hat_1_2 = gf128_mul(&x1h, two);
    let x_hat_2_3 = gf128_mul(&x2h, three);
    let y1 = xor_arrays(&xor_arrays(&xor_arrays(&xor_arrays(&x_hat_0_1, &x_hat_1_2), &x_hat_2_3), &x_hat_3_1), &k1);
    let x_hat_1_1 = gf128_mul(&x1h, one);
    let x_hat_2_2 = gf128_mul(&x2h, two);
    let x_hat_3_3 = gf128_mul(&x3h, three);
    let y2 = xor_arrays(&xor_arrays(&xor_arrays(&xor_arrays(&x_hat_0_1, &x_hat_1_1), &x_hat_2_2), &x_hat_3_3), &k2);
    let x_hat_0_3 = gf128_mul(&x0h, three);
    let x_hat_3_2 = gf128_mul(&x3h, two);
    let y3 = xor_arrays(&xor_arrays(&xor_arrays(&xor_arrays(&x_hat_0_3, &x_hat_1_1), &x_hat_2_1), &x_hat_3_2), &k3);
    proof {
        assert(y0@ == enc_fwd_round(array_elems(*x), array_elems(*x_k), j as int, c as int, 0));
        assert(y1@ == enc_fwd_round(array_elems(*x), array_elems(*x_k), j as int, c as int, 1));
        assert(y2@ == enc_fwd_round(array_elems(*x), array_elems(*x_k), j as int, c as int, 2));
        assert(y3@ == enc_fwd_round(array_elems(*x), array_elems(*x_k), j as int, c as int, 3));
    }
    let col = [y0, y1, y2, y3];
    assert forall|r: int| 0 <= r < 4 implies #[trigger] col@[r]@ == enc_fwd_round(array_elems(*x), array_elems(*x_k), j as int, c as int, r) by {
        assert(r == 0 || r == 1 || r == 2 || r == 3);
    }
    col
}

/// EncFwd: the S-box inputs of the AES encryption of `in_out` as field elements (wire values,
/// tags or keys), from the state bits of the extended witness and the expanded key: the first
/// 16 are the plaintext plus the first round key, the others MixColumns of the previous
/// round's combined state bytes plus the round key.
pub fn faest_aes_enc_fwd(
    _m: usize,
    x: &ByteOrBytesArray<1152>,
    x_k: &ByteOrBytesArray<1408>,
    in_out: &[u8; 128],
    mtag: bool,
    mkey: bool,
    Delta: ByteOrBytesElem,
) -> (y: [[u8; 16]; s_enc])
    requires
        !(mtag && mkey),
        (*x is Byte) == (*x_k is Byte),
        (*x is Byte) == (Delta is Byte),
    ensures
        forall|i: int| 0 <= i < 16 ==> #[trigger] y@[i]@ == xor_seq(
            bc_acc(public_byte_elems(in_out@, i, mtag, mkey, Delta, x.elem_at(0)), 8),
            bc_at(array_elems(*x_k), 8 * i),
        ),
        forall|j: int, c: int, r: int| 1 <= j < R && 0 <= c < 4 && 0 <= r < 4 ==> #[trigger] y@[16 * j + 4 * c + r]@
            == enc_fwd_round(array_elems(*x), array_elems(*x_k), j, c, r),
{
    let mut y: [[u8; 16]; s_enc] = [[0u8; 16]; s_enc];
    let x0 = ByteOrBytesArray::get_at_index(x, 0);
    let mut i: usize = 0;
    while i < 16
        invariant
            0 <= i <= 16,
            x0 == x.elem_at(0),
            (*x is Byte) == (Delta is Byte),
            forall|i2: int| 0 <= i2 < i ==> #[trigger] y@[i2]@ == xor_seq(
                bc_acc(public_byte_elems(in_out@, i2, mtag, mkey, Delta, x.elem_at(0)), 8),
                bc_at(array_elems(*x_k), 8 * i2),
            ),
        decreases 16 - i,
    {
        let x_in = public_byte(in_out, i, mtag, mkey, Delta, x0);
        let parameter_1 = bc8(x_in, Ghost(public_byte_elems(in_out@, i as int, mtag, mkey, Delta, x.elem_at(0))));
        let parameter_2 = bc_slice(x_k, 8 * i);
        y[i] = xor_arrays(&parameter_1, &parameter_2);
        i = i + 1;
    }
    let one = small_constant_exec(true, false);
    let two = small_constant_exec(false, true);
    let three = small_constant_exec(true, true);
    let mut j: usize = 1;
    while j < R
        invariant
            1 <= j <= R,
            one@ == small_constant(true, false),
            two@ == small_constant(false, true),
            three@ == small_constant(true, true),
            forall|i2: int| 0 <= i2 < 16 ==> #[trigger] y@[i2]@ == xor_seq(
                bc_acc(public_byte_elems(in_out@, i2, mtag, mkey, Delta, x.elem_at(0)), 8),
                bc_at(array_elems(*x_k), 8 * i2),
            ),
            forall|j2: int, c: int, r: int| 1 <= j2 < j && 0 <= c < 4 && 0 <= r < 4 ==> #[trigger] y@[16 * j2 + 4 * c + r]@
                == enc_fwd_round(array_elems(*x), array_elems(*x_k), j2, c, r),
        decreases R - j,
    {
        let mut c: usize = 0;
        while c < 4
            invariant
                1 <= j < R,
                0 <= c <= 4,
                one@ == small_constant(true, false),
                two@ == small_constant(false, true),
                three@ == small_constant(true, true),
                forall|i2: int| 0 <= i2 < 16 ==> #[trigger] y@[i2]@ == xor_seq(
                    bc_acc(public_byte_elems(in_out@, i2, mtag, mkey, Delta, x.elem_at(0)), 8),
                    bc_at(array_elems(*x_k), 8 * i2),
                ),
                forall|j2: int, c2: int, r: int| 1 <= j2 < j && 0 <= c2 < 4 && 0 <= r < 4 ==> #[trigger] y@[16 * j2 + 4 * c2 + r]@
                    == enc_fwd_round(array_elems(*x), array_elems(*x_k), j2, c2, r),
                forall|c2: int, r: int| 0 <= c2 < c && 0 <= r < 4 ==> #[trigger] y@[16 * j + 4 * c2 + r]@
                    == enc_fwd_round(array_elems(*x), array_elems(*x_k), j as int, c2, r),
            decreases 4 - c,
        {
            let col = enc_fwd_column(x, x_k, j, c, &one, &two, &three);
            y[16 * j + 4 * c] = col[0];
            y[16 * j + 4 * c + 1] = col[1];
            y[16 * j + 4 * c + 2] = col[2];
            y[16 * j + 4 * c + 3] = col[3];
            c = c + 1;
        }
        j = j + 1;
    }
    y
}

/// Start, in the state bits, of the byte that InvShiftRows brings to row `r` of column `c` in round `j`.
pub open spec fn bkwd_index(j: int, c: int, r: int) -> int {
    128 * j + 32 * ((c + 4 - r) % 4) + 8 * r
}

/// Bit `i` of the S-box output of byte `(c, r)` in round `j`: a state bit of the witness,
/// or in the last round the ciphertext bit minus the last round key bit.
pub open spec fn enc_bkwd_x_tilde(
    x: Seq<ByteOrBytesElem>,
    x_k: Seq<ByteOrBytesElem>,
    in_out: Seq<u8>,
    mtag: bool,
    mkey: bool,
    delta: ByteOrBytesElem,
    j: int,
    c: int,
    r: int,
    i: int,
) -> ByteOrBytesElem {
    let ird = bkwd_index(j, c, r);
    if j < R - 1 {
        x[ird + i]
    } else {
        public_bit_elem(in_out[ird - 128 * j + i], mtag, mkey, delta, x[0]).xor_spec(x_k[128 + ird + i])
    }
}

/// Bit `i` of the S-box input recovered by EncBkwd: the inverse affine layer plus the
/// affine constant on bits 0 and 2.
pub open spec fn enc_bkwd_y_tilde(
    x: Seq<ByteOrBytesElem>,
    x_k: Seq<ByteOrBytesElem>,
    in_out: Seq<u8>,
    mtag: bool,
    mkey: bool,
    delta: ByteOrBytesElem,
    j: int,
    c: int,
    r: int,
    i: int,
) -> ByteOrBytesElem {
    let xt = |t: int| enc_bkwd_x_tilde(x, x_k, in_out, mtag, mkey, delta, j, c, r, t);
    let base = xt((i + 7) % 8).xor_spec(xt((i + 5) % 8)).xor_spec(xt((i + 2) % 8));
    let v = if mtag {
        ByteOrBytesElem::dummy_spec(x[0])
    } else if mkey {
        delta
    } else {
        ByteOrBytesElem::ones_spec(x[0])
    };
    if i == 0 || i == 2 {
        base.xor_spec(v)
    } else {
        base
    }
}

/// EncBkwd output for byte `(c, r)` of round `j`: ByteCombine of the recovered S-box input bits.
pub open spec fn enc_bkwd_out(
    x: Seq<ByteOrBytesElem>,
    x_k: Seq<ByteOrBytesElem>,
    in_out: Seq<u8>,
    mtag: bool,
    mkey: bool,
    delta: ByteOrBytesElem,
    j: int,
    c: int,
    r: int,
) -> Seq<u8> {
    bc_acc(Seq::new(8, |i: int| enc_bkwd_y_tilde(x, x_k, in_out, mtag, mkey, delta, j, c, r, i)), 8)
}

/// The variant of every element of a vector is the variant of the vector.
proof fn lemma_elem_variant<const N: usize>(x: ByteOrBytesArray<N>, i: int)
    ensures
        (x.elem_at(i) is Byte) == (x is Byte),
{
}

/// EncBkwd output for byte `(c, r)` of round `j`.
fn enc_bkwd_entry(
    x: &ByteOrBytesArray<1152>,
    x_k: &ByteOrBytesArray<1408>,
    in_out: &[u8; 128],
    mtag: bool,
    mkey: bool,
    Delta: &ByteOrBytesElem,
    j: usize,
    c: usize,
    r: usize,
    x0: ByteOrBytesElem,
    dummy: ByteOrBytesElem,
    ones: ByteOrBytesElem,
    value_might_be_delta: ByteOrBytesElem,
) -> (out: [u8; 16])
    requires
        0 <= j < R,
        0 <= c < 4,
        0 <= r < 4,
        x0 == x.elem_at(0),
        dummy == ByteOrBytesElem::dummy_spec(x0),
        ones == ByteOrBytesElem::ones_spec(x0),
        (*x is Byte) == (*x_k is Byte),
        (*x is Byte) == (*Delta is Byte),
        value_might_be_delta == (if mtag { dummy } else if mkey { *Delta } else { ones }),
    ensures
        out@ == enc_bkwd_out(array_elems(*x), array_elems(*x_k), in_out@, mtag, mkey, *Delta, j as int, c as int, r as int),
{
        let ird = 128 * j + 32 * ((c + 4 - r) % 4) + 8 * r;
        let mut x_tilde: ByteOrBytesArray<8> = ByteOrBytesArray::dummy(&x0);
        let mut idx: usize = 0;
        while idx < 8
            invariant
                0 <= j < R,
                0 <= c < 4,
                0 <= r < 4,
                0 <= idx <= 8,
                ird == bkwd_index(j as int, c as int, r as int),
                x0 == x.elem_at(0),
                dummy == ByteOrBytesElem::dummy_spec(x0),
                ones == ByteOrBytesElem::ones_spec(x0),
                (*x is Byte) == (*x_k is Byte),
                (*x is Byte) == (*Delta is Byte),
                x_tilde is Byte <==> *x is Byte,
                forall|t: int| 0 <= t < idx ==> #[trigger] x_tilde.elem_at(t)
                    == enc_bkwd_x_tilde(array_elems(*x), array_elems(*x_k), in_out@, mtag, mkey, *Delta, j as int, c as int, r as int, t),
            decreases 8 - idx,
        {
            proof {
                lemma_elem_variant(*x, ird + idx);
                lemma_elem_variant(*x_k, 128 + ird + idx);
            }
            let val = if j < R - 1 {
                ByteOrBytesArray::get_at_index(x, ird + idx)
            } else {
                let bit = in_out[ird - 128 * j + idx];
                let left_val = if mtag {
                    dummy
                } else if mkey {
                    if bit == 1 { *Delta } else { dummy }
                } else if bit == 1 {
                    ones
                } else {
                    dummy
                };
                let right_val = ByteOrBytesArray::get_at_index(x_k, 128 + ird + idx);
                ByteOrBytesElem::xor_array(&left_val, &right_val)
            };
            x_tilde = ByteOrBytesArray::set_at_index(x_tilde, idx, val);
            idx = idx + 1;
        }
        let mut y_tilde: ByteOrBytesArray<8> = ByteOrBytesArray::dummy(&x0);
        let mut i: usize = 0;
        while i < 8
            invariant
                0 <= i <= 8,
                x_tilde is Byte <==> *x is Byte,
                y_tilde is Byte <==> *x is Byte,
                forall|t: int| 0 <= t < 8 ==> #[trigger] x_tilde.elem_at(t)
                    == enc_bkwd_x_tilde(array_elems(*x), array_elems(*x_k), in_out@, mtag, mkey, *Delta, j as int, c as int, r as int, t),
                forall|t: int| 0 <= t < i ==> #[trigger] y_tilde.elem_at(t)
                    == x_tilde.elem_at((t + 7) % 8).xor_spec(x_tilde.elem_at((t + 5) % 8)).xor_spec(x_tilde.elem_at((t + 2) % 8)),
            decreases 8 - i,
        {
            let parameter_a = ByteOrBytesArray::get_at_index(&x_tilde, (i + 7) % 8);
            let parameter_b = ByteOrBytesArray::get_at_index(&x_tilde, (i + 5) % 8);
            let parameter_c = ByteOrBytesArray::get_at_index(&x_tilde, (i + 2) % 8);
            let middle_result = ByteOrBytesElem::xor_array(&parameter_a, &parameter_b);
            let final_result = ByteOrBytesElem::xor_array(&middle_result, &parameter_c);
            y_tilde = ByteOrBytesArray::set_at_index(y_tilde, i, final_result);
            i = i + 1;
        }
        let e0 = ByteOrBytesArray::get_at_index(&y_tilde, 0);
        let val0 = ByteOrBytesElem::xor_array(&e0, &value_might_be_delta);
        y_tilde = ByteOrBytesArray::set_at_index(y_tilde, 0, val0);
        let e2 = ByteOrBytesArray::get_at_index(&y_tilde, 2);
        let val2 = ByteOrBytesElem::xor_array(&e2, &value_might_be_delta);
        y_tilde = ByteOrBytesArray::set_at_index(y_tilde, 2, val2);
        let ghost es = Seq::new(8, |i: int| enc_bkwd_y_tilde(array_elems(*x), array_elems(*x_k), in_out@, mtag, mkey, *Delta, j as int, c as int, r as int, i));
    bc8(y_tilde, Ghost(es))
}

/// EncBkwd: the S-box inputs, as field elements, recovered from the S-box outputs (state bits
/// of the witness, and in the last round the ciphertext `in_out` minus the last round key).
pub fn faest_aes_enc_bkwd(
    _m: usize,
    x: &ByteOrBytesArray<1152>,
    x_k: &ByteOrBytesArray<1408>,
    in_out: &[u8; 128],
    mtag: bool,
    mkey: bool,
    Delta: &ByteOrBytesElem,
) -> (y: [[u8; 16]; 160])
    requires
        (*x is Byte) == (*x_k is Byte),
        (*x is Byte) == (*Delta is Byte),
    ensures
        forall|j: int, c: int, r: int| 0 <= j < R && 0 <= c < 4 && 0 <= r < 4 ==> #[trigger] y@[16 * j + 4 * c + r]@
            == enc_bkwd_out(array_elems(*x), array_elems(*x_k), in_out@, mtag, mkey, *Delta, j, c, r),
{
    let mut y: [[u8; 16]; s_enc] = [[0u8; 16]; s_enc];
    let x0 = ByteOrBytesArray::get_at_index(x, 0);
    let dummy = ByteOrBytesElem::dummy(&x0);
    let ones = ByteOrBytesElem::ones(&x0);
    let value_might_be_delta = if mtag {
        dummy
    } else if mkey {
        *Delta
    } else {
        ones
    };
    let mut j: usize = 0;
    while j < R
        invariant
            0 <= j <= R,
            x0 == x.elem_at(0),
            dummy == ByteOrBytesElem::dummy_spec(x0),
            ones == ByteOrBytesElem::ones_spec(x0),
            (*x is Byte) == (*x_k is Byte),
            (*x is Byte) == (*Delta is Byte),
            value_might_be_delta == (if mtag { dummy } else if mkey { *Delta } else { ones }),
            forall|j2: int, c: int, r: int| 0 <= j2 < j && 0 <= c < 4 && 0 <= r < 4 ==> #[trigger] y@[16 * j2 + 4 * c + r]@
                == enc_bkwd_out(array_elems(*x), array_elems(*x_k), in_out@, mtag, mkey, *Delta, j2, c, r),
        decreases R - j,
    {
        let mut c: usize = 0;
        while c < 4
            invariant
                0 <= j < R,
                0 <= c <= 4,
                x0 == x.elem_at(0),
                dummy == ByteOrBytesElem::dummy_spec(x0),
                ones == ByteOrBytesElem::ones_spec(x0),
                (*x is Byte) == (*x_k is Byte),
                (*x is Byte) == (*Delta is Byte),
                value_might_be_delta == (if mtag { dummy } else if mkey { *Delta } else { ones }),
                forall|j2: int, c2: int, r: int| 0 <= j2 < j && 0 <= c2 < 4 && 0 <= r < 4 ==> #[trigger] y@[16 * j2 + 4 * c2 + r]@
                    == enc_bkwd_out(array_elems(*x), array_elems(*x_k), in_out@, mtag, mkey, *Delta, j2, c2, r),
                forall|c2: int, r: int| 0 <= c2 < c && 0 <= r < 4 ==> #[trigger] y@[16 * j + 4 * c2 + r]@
                    == enc_bkwd_out(array_elems(*x), array_elems(*x_k), in_out@, mtag, mkey, *Delta, j as int, c2, r),
            decreases 4 - c,
        {
            let mut r: usize = 0;
            while r < 4
                invariant
                    0 <= j < R,
                    0 <= c < 4,
                    0 <= r <= 4,
                    x0 == x.elem_at(0),
                    dummy == ByteOrBytesElem::dummy_spec(x0),
                    ones == ByteOrBytesElem::ones_spec(x0),
                    (*x is Byte) == (*x_k is Byte),
                    (*x is Byte) == (*Delta is Byte),
                    value_might_be_delta == (if mtag { dummy } else if mkey { *Delta } else { ones }),
                    forall|j2: int, c2: int, r2: int| 0 <= j2 < j && 0 <= c2 < 4 && 0 <= r2 < 4 ==> #[trigger] y@[16 * j2 + 4 * c2 + r2]@
                        == enc_bkwd_out(array_elems(*x), array_elems(*x_k), in_out@, mtag, mkey, *Delta, j2, c2, r2),
                    forall|c2: int, r2: int| 0 <= c2 < c && 0 <= r2 < 4 ==> #[trigger] y@[16 * j + 4 * c2 + r2]@
                        == enc_bkwd_out(array_elems(*x), array_elems(*x_k), in_out@, mtag, mkey, *Delta, j as int, c2, r2),
                    forall|r2: int| 0 <= r2 < r ==> #[trigger] y@[16 * j + 4 * c + r2]@
                        == enc_bkwd_out(array_elems(*x), array_elems(*x_k), in_out@, mtag, mkey, *Delta, j as int, c as int, r2),
                decreases 4 - r,
            {
                y[16 * j + 4 * c + r] = enc_bkwd_entry(x, x_k, in_out, mtag, mkey, Delta, j, c, r, x0, dummy, ones, value_might_be_delta);
                r = r + 1;
            }
            c = c + 1;
        }
        j = j + 1;
    }
    y
}

/// The prover's encryption constraints: A_0 = v_in v_out and A_1 = (s_in + v_in)(s_out + v_out) + 1 + A_0
/// for each of the s_enc S-boxes, from EncFwd and EncBkwd on the witness bits and their tags.
pub fn faest_aes_enc_cstrnts_prover(
    _m: usize,
    in_of_in_and_out: [u8; 128],
    out_of_in_and_out: [u8; 128],
    w: [u8; l_enc],
    v: [[u8; 16]; l_enc],
    k: [u8; 1408],
    v_k: [[u8; 16]; 1408],
    mkey: bool,
) -> (res: ([[u8; 16]; s_enc], [[u8; 16]; s_enc]))
    requires
        !mkey,
    ensures
        rows_view(res.0@) == enc_a0(v@, v_k@, in_of_in_and_out@, out_of_in_and_out@),
        rows_view(res.1@) == enc_a1(w@, v@, k@, v_k@, in_of_in_and_out@, out_of_in_and_out@),
{
    let wx = ByteOrBytesArray::from_byte_array(w);
    let wk = ByteOrBytesArray::from_byte_array(k);
    let vx = ByteOrBytesArray::from_bytes_array(v);
    let vk = ByteOrBytesArray::from_bytes_array(v_k);
    let s = faest_aes_enc_fwd(1, &wx, &wk, &in_of_in_and_out, false, false, ByteOrBytesElem::Byte(ByteElem(0)));
    let v_s = faest_aes_enc_fwd(128, &vx, &vk, &in_of_in_and_out, true, false, ByteOrBytesElem::Bytes(BytesElem(value_of_zero_in_bytes)));
    let s_overline = faest_aes_enc_bkwd(1, &wx, &wk, &out_of_in_and_out, false, false, &ByteOrBytesElem::Byte(ByteElem(0)));
    let v_s_overline = faest_aes_enc_bkwd(128, &vx, &vk, &out_of_in_and_out, true, false, &ByteOrBytesElem::Bytes(BytesElem(value_of_zero_in_bytes)));
    proof {
        lemma_array_elems_bits(w);
        lemma_array_elems_bits(k);
        lemma_array_elems_fields(v);
        lemma_array_elems_fields(v_k);
        lemma_enc_values(array_elems(wx), array_elems(wk), in_of_in_and_out@, false, false, ByteOrBytesElem::Byte(ByteElem(0)), s@, s_overline@, out_of_in_and_out@);
        lemma_enc_values(array_elems(vx), array_elems(vk), in_of_in_and_out@, true, false, ByteOrBytesElem::Bytes(BytesElem(value_of_zero_in_bytes)), v_s@, v_s_overline@, out_of_in_and_out@);
    }
    let mut A_0: [[u8; 16]; 160] = [[0; 16]; 160];
    let mut A_1: [[u8; 16]; 160] = [[0; 16]; 160];
    let one_f28: [u8; 16] = value_of_one_in_bytes;
    let mut j: usize = 0;
    while j < s_enc
        invariant
            0 <= j <= s_enc,
            one_f28 == value_of_one_in_bytes,
            forall|t: int| 0 <= t < j ==> (#[trigger] A_0@[t])@ == gf128_mul_spec(v_s@[t]@, v_s_overline@[t]@),
            forall|t: int| 0 <= t < j ==> (#[trigger] A_1@[t])@ == xor_seq(xor_seq(gf128_mul_spec(xor_seq(s@[t]@, v_s@[t]@), xor_seq(s_overline@[t]@, v_s_overline@[t]@)), value_of_one_in_bytes@), A_0@[t]@),
        decreases s_enc - j,
    {
        let a0 = gf128_mul(&v_s[j], &v_s_overline[j]);
        let s_v_s_add = xor_arrays(&s[j], &v_s[j]);
        let s_overline_v_s_overline_add = xor_arrays(&s_overline[j], &v_s_overline[j]);
        let prod = gf128_mul(&s_v_s_add, &s_overline_v_s_overline_add);
        A_0[j] = a0;
        A_1[j] = xor_arrays(&xor_arrays(&prod, &one_f28), &a0);
        j = j + 1;
    }
    assert(rows_view(A_0@) =~= enc_a0(v@, v_k@, in_of_in_and_out@, out_of_in_and_out@));
    assert(rows_view(A_1@) =~= enc_a1(w@, v@, k@, v_k@, in_of_in_and_out@, out_of_in_and_out@));
    (A_0, A_1)
}

/// The verifier's encryption constraints: B = q_in q_out + Delta^2 for each S-box, from EncFwd
/// and EncBkwd on the VOLE keys.
pub fn faest_aes_enc_cstrnts_verifier(
    _m: usize,
    in_of_in_and_out: &[u8; 128],
    out_of_in_and_out: &[u8; 128],
    q: &[[u8; 16]; l_enc],
    q_k: &[[u8; 16]; 1408],
    delta: [u8; 16],
    mkey: bool,
) -> (B: [[u8; 16]; s_enc])
    requires
        mkey,
    ensures
        rows_view(B@) == enc_b(q@, q_k@, delta, in_of_in_and_out@, out_of_in_and_out@),
{
    let qx = ByteOrBytesArray::from_bytes_array(*q);
    let qk = ByteOrBytesArray::from_bytes_array(*q_k);
    let d = ByteOrBytesElem::Bytes(BytesElem(delta));
    let q_s = faest_aes_enc_fwd(128, &qx, &qk, in_of_in_and_out, false, true, d);
    let q_s_overline = faest_aes_enc_bkwd(128, &qx, &qk, out_of_in_and_out, false, true, &d);
    proof {
        lemma_array_elems_fields(*q);
        lemma_array_elems_fields(*q_k);
        lemma_enc_values(array_elems(qx), array_elems(qk), in_of_in_and_out@, false, true, d, q_s@, q_s_overline@, out_of_in_and_out@);
    }
    let delta_product = gf128_mul(&delta, &delta);
    let mut B: [[u8; 16]; s_enc] = [[0; 16]; s_enc];
    let mut j: usize = 0;
    while j < s_enc
        invariant
            0 <= j <= s_enc,
            delta_product@ == gf128_mul_spec(delta@, delta@),
            forall|t: int| 0 <= t < j ==> (#[trigger] B@[t])@ == xor_seq(gf128_mul_spec(q_s@[t]@, q_s_overline@[t]@), gf128_mul_spec(delta@, delta@)),
        decreases s_enc - j,
    {
        let q_product = gf128_mul(&q_s[j], &q_s_overline[j]);
        B[j] = xor_arrays(&q_product, &delta_product);
        j = j + 1;
    }
    assert(rows_view(B@) =~= enc_b(q@, q_k@, delta, in_of_in_and_out@, out_of_in_and_out@));
    B
}

/// EncFwd output `t`.
pub open spec fn enc_fwd_value(
    x: Seq<ByteOrBytesElem>,
    x_k: Seq<ByteOrBytesElem>,
    in_out: Seq<u8>,
    mtag: bool,
    mkey: bool,
    delta: ByteOrBytesElem,
    t: int,
) -> Seq<u8> {
    if t < 16 {
        xor_seq(bc_acc(public_byte_elems(in_out, t, mtag, mkey, delta, x[0]), 8), bc_at(x_k, 8 * t))
    } else {
        enc_fwd_round(x, x_k, t / 16, (t % 16) / 4, t % 4)
    }
}

/// EncBkwd output `t`.
pub open spec fn enc_bkwd_value(
    x: Seq<ByteOrBytesElem>,
    x_k: Seq<ByteOrBytesElem>,
    in_out: Seq<u8>,
    mtag: bool,
    mkey: bool,
    delta: ByteOrBytesElem,
    t: int,
) -> Seq<u8> {
    enc_bkwd_out(x, x_k, in_out, mtag, mkey, delta, t / 16, (t % 16) / 4, t % 4)
}

/// The outputs of EncFwd and EncBkwd, by index.
pub(crate) proof fn lemma_enc_values(
    x: Seq<ByteOrBytesElem>,
    x_k: Seq<ByteOrBytesElem>,
    in_out: Seq<u8>,
    mtag: bool,
    mkey: bool,
    delta: ByteOrBytesElem,
    fwd: Seq<[u8; 16]>,
    bkwd: Seq<[u8; 16]>,
    out: Seq<u8>,
)
    requires
        fwd.len() == s_enc,
        bkwd.len() == s_enc,
        forall|i: int| 0 <= i < 16 ==> #[trigger] fwd[i]@ == xor_seq(
            bc_acc(public_byte_elems(in_out, i, mtag, mkey, delta, x[0]), 8),
            bc_at(x_k, 8 * i),
        ),
        forall|j: int, c: int, r: int| 1 <= j < R && 0 <= c < 4 && 0 <= r < 4 ==> #[trigger] fwd[16 * j + 4 * c + r]@
            == enc_fwd_round(x, x_k, j, c, r),
        forall|j: int, c: int, r: int| 0 <= j < R && 0 <= c < 4 && 0 <= r < 4 ==> #[trigger] bkwd[16 * j + 4 * c + r]@
            == enc_bkwd_out(x, x_k, out, mtag, mkey, delta, j, c, r),
    ensures
        forall|t: int| 0 <= t < s_enc ==> #[trigger] fwd[t]@ == enc_fwd_value(x, x_k, in_out, mtag, mkey, delta, t),
        forall|t: int| 0 <= t < s_enc ==> #[trigger] bkwd[t]@ == enc_bkwd_value(x, x_k, out, mtag, mkey, delta, t),
{
    assert forall|t: int| 0 <= t < s_enc implies #[trigger] fwd[t]@ == enc_fwd_value(x, x_k, in_out, mtag, mkey, delta, t) by {
        if t >= 16 {
            assert(t == 16 * (t / 16) + 4 * ((t % 16) / 4) + t % 4);
        }
    }
    assert forall|t: int| 0 <= t < s_enc implies #[trigger] bkwd[t]@ == enc_bkwd_value(x, x_k, out, mtag, mkey, delta, t) by {
        assert(t == 16 * (t / 16) + 4 * ((t % 16) / 4) + t % 4);
    }
}

/// Bit vectors as elements.
pub proof fn lemma_array_elems_bits<const N: usize>(a: [u8; N])
    ensures
        array_elems(ByteOrBytesArray::<N>::Byte(ByteArray(a))) == bit_elems(a@),
{
    assert(array_elems(ByteOrBytesArray::<N>::Byte(ByteArray(a))) =~= bit_elems(a@));
}

/// Field-element vectors as elements.
pub proof fn lemma_array_elems_fields<const N: usize>(a: [[u8; 16]; N])
    ensures
        array_elems(ByteOrBytesArray::<N>::Bytes(BytesArray(a))) == field_elems(a@),
{
    assert(array_elems(ByteOrBytesArray::<N>::Bytes(BytesArray(a))) =~= field_elems(a@));
}

/// The zero field element as an element.
pub open spec fn zero_elem() -> ByteOrBytesElem {
    ByteOrBytesElem::Bytes(BytesElem(value_of_zero_in_bytes))
}

/// The prover's A_0 encryption constraint values: tag of the S-box input times tag of the S-box output.
pub open spec fn enc_a0(v: Seq<[u8; 16]>, vk: Seq<[u8; 16]>, pt: Seq<u8>, ct: Seq<u8>) -> Seq<Seq<u8>> {
    Seq::new(
        s_enc as nat,
        |t: int|
            gf128_mul_spec(
                enc_fwd_value(field_elems(v), field_elems(vk), pt, true, false, zero_elem(), t),
                enc_bkwd_value(field_elems(v), field_elems(vk), ct, true, false, zero_elem(), t),
            ),
    )
}

/// The prover's A_1 encryption constraint values: (s_in + v_in)(s_out + v_out) + 1 + A_0.
pub open spec fn enc_a1(w: Seq<u8>, v: Seq<[u8; 16]>, k: Seq<u8>, vk: Seq<[u8; 16]>, pt: Seq<u8>, ct: Seq<u8>) -> Seq<Seq<u8>> {
    let zb = ByteOrBytesElem::Byte(ByteElem(0));
    Seq::new(
        s_enc as nat,
        |t: int|
            xor_seq(
                xor_seq(
                    gf128_mul_spec(
                        xor_seq(
                            enc_fwd_value(bit_elems(w), bit_elems(k), pt, false, false, zb, t),
                            enc_fwd_value(field_elems(v), field_elems(vk), pt, true, false, zero_elem(), t),
                        ),
                        xor_seq(
                            enc_bkwd_value(bit_elems(w), bit_elems(k), ct, false, false, zb, t),
                            enc_bkwd_value(field_elems(v), field_elems(vk), ct, true, false, zero_elem(), t),
                        ),
                    ),
                    value_of_one_in_bytes@,
                ),
                enc_a0(v, vk, pt, ct)[t],
            ),
    )
}

/// The verifier's B encryption constraint values: key of the S-box input times key of the
/// S-box output plus Delta^2.
pub open spec fn enc_b(q: Seq<[u8; 16]>, qk: Seq<[u8; 16]>, delta: [u8; 16], pt: Seq<u8>, ct: Seq<u8>) -> Seq<Seq<u8>> {
    let d = ByteOrBytesElem::Bytes(BytesElem(delta));
    Seq::new(
        s_enc as nat,
        |t: int|
            xor_seq(
                gf128_mul_spec(
                    enc_fwd_value(field_elems(q), field_elems(qk), pt, false, true, d, t),
                    enc_bkwd_value(field_elems(q), field_elems(qk), ct, false, true, d, t),
                ),
                gf128_mul_spec(delta@, delta@),
            ),
    )
}

} // verus!
