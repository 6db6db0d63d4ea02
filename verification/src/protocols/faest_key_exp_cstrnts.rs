#![allow(non_snake_case, non_upper_case_globals, non_camel_case_types)]

use vstd::prelude::*;
use crate::protocols::aes::{rcon_spec, setup_rcon_table};
use crate::utils::constants::{key_schedule_bits, l_ke, l_ke_minus_lambda, lambda_bytes, nk, ret_size_exp_bwd, ret_size_exp_fwd, S_ke, LAMBDA, R};
use crate::utils::galois_field::{gf_lambda_mul, gf_lambda_mul_spec};
use crate::utils::helper_methods_cstrnts::{array_elems, bc_bits, bc_fields, bit_elems, byte_combine, field_elems, lemma_bc_acc_ext};
use crate::utils::slices::take_bytes;
use crate::utils::hash_functions::rows_view;
use crate::utils::types::value_of_zero_in_bytes;
use crate::utils::math::{bit_of, xor_arrays, xor_seq};
use crate::utils::types::{ret_value, value_of_one_in_bytes, ByteOrBytesArray, XorHelper};

verus! {

/// ExpFwd of a vector `x` of lambda key bits followed by the bits of the S-box outputs of
/// the key schedule: the 44 key-schedule words, bit by bit.  Word `j` is read from `x`
/// when it is a SubWord word (`j % 4 == 0`), and is otherwise the sum of words `j - 4` and `j - 1`.
pub open spec fn key_exp_fwd_ok<E: XorHelper>(x: Seq<E>, y: Seq<E>) -> bool {
    &&& y.len() == ret_size_exp_fwd
    &&& forall|t: int| 0 <= t < LAMBDA ==> #[trigger] y[t] == x[t]
    &&& forall|j: int, i: int|
        nk <= j < 4 * (R + 1) && 0 <= i < 32 && j % 4 == 0 ==> #[trigger] y[32 * j + i] == x[LAMBDA + 32 * (j / 4 - 1) + i]
    &&& forall|j: int, i: int|
        nk <= j < 4 * (R + 1) && 0 <= i < 32 && j % 4 != 0 ==> #[trigger] y[32 * j + i] == E::xor_spec(y[32 * (j - 4) + i], y[32 * (j - 1) + i])
}

/// Entry `t` of ExpFwd of `x`: bit `t % 32` of key-schedule word `t / 32`.
pub open spec fn kef_elem<E: XorHelper>(x: Seq<E>, t: int) -> E
    decreases t,
{
    if t < LAMBDA {
        x[t]
    } else if (t / 32) % 4 == 0 {
        x[LAMBDA + 32 * ((t / 32) / 4 - 1) + t % 32]
    } else if t >= 128 {
        E::xor_spec(kef_elem(x, t - 128), kef_elem(x, t - 32))
    } else {
        x[t]
    }
}

/// ExpFwd of `x`, as a sequence.
pub open spec fn key_exp_fwd_spec<E: XorHelper>(x: Seq<E>) -> Seq<E> {
    Seq::new(ret_size_exp_fwd as nat, |t: int| kef_elem(x, t))
}

/// The recurrence of ExpFwd determines its output.
pub proof fn lemma_key_exp_fwd_unique<E: XorHelper>(x: Seq<E>, y: Seq<E>)
    requires
        key_exp_fwd_ok(x, y),
    ensures
        y == key_exp_fwd_spec(x),
{
    assert forall|t: int| 0 <= t < ret_size_exp_fwd implies y[t] == kef_elem(x, t) by {
        lemma_kef_entry(x, y, t);
    }
    assert(y =~= key_exp_fwd_spec(x));
}

proof fn lemma_kef_entry<E: XorHelper>(x: Seq<E>, y: Seq<E>, t: int)
    requires
        key_exp_fwd_ok(x, y),
        0 <= t < ret_size_exp_fwd,
    ensures
        y[t] == kef_elem(x, t),
    decreases t,
{
    if t >= LAMBDA {
        let j = t / 32;
        let i = t % 32;
        assert(t == 32 * j + i);
        if j % 4 != 0 {
            lemma_kef_entry(x, y, t - 128);
            lemma_kef_entry(x, y, t - 32);
            assert(32 * (j - 4) + i == t - 128);
            assert(32 * (j - 1) + i == t - 32);
        }
    }
}

/// ExpFwd: the key schedule of the VOLE-committed key, as bits (wire values), tags or keys.
pub fn faest_aes_key_exp_fwd<T: ret_value>(_m: usize, x: T, mtag: bool, mkey: bool, _Delta: [u8; lambda_bytes]) -> (y: [<T as ret_value>::Elem; ret_size_exp_fwd])
    requires
        !(mtag && mkey),
        x.elems().len() >= l_ke,
    ensures
        key_exp_fwd_ok(x.elems(), y@),
        y@ == key_exp_fwd_spec(x.elems()),
{
    let mut y: [<T as ret_value>::Elem; ret_size_exp_fwd] = [T::dummy_value(); ret_size_exp_fwd];
    let mut i: usize = 0;
    while i < LAMBDA
        invariant
            0 <= i <= LAMBDA,
            x.elems().len() >= l_ke,
            forall|t: int| 0 <= t < i ==> #[trigger] y@[t] == x.elems()[t],
        decreases LAMBDA - i,
    {
        y[i] = x.get_element(i);
        i = i + 1;
    }
    let mut iwd: usize = LAMBDA;
    let mut j: usize = nk;
    while j < (R + 1) * 4
        invariant
            nk <= j <= 4 * (R + 1),
            x.elems().len() >= l_ke,
            iwd == LAMBDA + 32 * ((j + 3) / 4 - 1),
            forall|t: int| 0 <= t < LAMBDA ==> #[trigger] y@[t] == x.elems()[t],
            forall|j2: int, i2: int|
                nk <= j2 < j && 0 <= i2 < 32 && j2 % 4 == 0 ==> #[trigger] y@[32 * j2 + i2] == x.elems()[LAMBDA + 32 * (j2 / 4 - 1) + i2],
            forall|j2: int, i2: int|
                nk <= j2 < j && 0 <= i2 < 32 && j2 % 4 != 0 ==> #[trigger] y@[32 * j2 + i2]
                    == <T::Elem as XorHelper>::xor_spec(y@[32 * (j2 - 4) + i2], y@[32 * (j2 - 1) + i2]),
        decreases 4 * (R + 1) - j,
    {
        if j % nk == 0 {
            let mut i: usize = 0;
            while i < 32
                invariant
                    nk <= j < 4 * (R + 1),
                    j % 4 == 0,
                    x.elems().len() >= l_ke,
                    iwd == LAMBDA + 32 * (j / 4 - 1),
                    0 <= i <= 32,
                    forall|t: int| 0 <= t < LAMBDA ==> #[trigger] y@[t] == x.elems()[t],
                    forall|j2: int, i2: int|
                        nk <= j2 < j && 0 <= i2 < 32 && j2 % 4 == 0 ==> #[trigger] y@[32 * j2 + i2] == x.elems()[LAMBDA + 32 * (j2 / 4 - 1) + i2],
                    forall|j2: int, i2: int|
                        nk <= j2 < j && 0 <= i2 < 32 && j2 % 4 != 0 ==> #[trigger] y@[32 * j2 + i2]
                            == <T::Elem as XorHelper>::xor_spec(y@[32 * (j2 - 4) + i2], y@[32 * (j2 - 1) + i2]),
                    forall|i2: int| 0 <= i2 < i ==> #[trigger] y@[32 * j + i2] == x.elems()[LAMBDA + 32 * (j / 4 - 1) + i2],
                decreases 32 - i,
            {
                y[32 * j + i] = x.get_element(iwd + i);
                i = i + 1;
            }
            iwd = iwd + 32;
        } else {
            let mut i: usize = 0;
            while i < 32
                invariant
                    nk <= j < 4 * (R + 1),
                    j % 4 != 0,
                    0 <= i <= 32,
                    forall|t: int| 0 <= t < LAMBDA ==> #[trigger] y@[t] == x.elems()[t],
                    forall|j2: int, i2: int|
                        nk <= j2 < j && 0 <= i2 < 32 && j2 % 4 == 0 ==> #[trigger] y@[32 * j2 + i2] == x.elems()[LAMBDA + 32 * (j2 / 4 - 1) + i2],
                    forall|j2: int, i2: int|
                        nk <= j2 < j && 0 <= i2 < 32 && j2 % 4 != 0 ==> #[trigger] y@[32 * j2 + i2]
                            == <T::Elem as XorHelper>::xor_spec(y@[32 * (j2 - 4) + i2], y@[32 * (j2 - 1) + i2]),
                    forall|i2: int| 0 <= i2 < i ==> #[trigger] y@[32 * j + i2]
                        == <T::Elem as XorHelper>::xor_spec(y@[32 * (j - 4) + i2], y@[32 * (j - 1) + i2]),
                decreases 32 - i,
            {
                let v = <T::Elem as XorHelper>::xor_array(&y[32 * (j - nk) + i], &y[32 * (j - 1) + i]);
                y[32 * j + i] = v;
                i = i + 1;
            }
        }
        j = j + 1;
    }
    proof {
        lemma_key_exp_fwd_unique(x.elems(), y@);
    }
    y
}

/// The term ExpBkwd adds for bit `i` of the round constant of S-box `j`: nothing for tags,
/// nothing for S-boxes other than the first of a word; otherwise zero, the key Delta or the
/// wire value one, as the round-constant bit is 0 or 1.
pub open spec fn rcon_added<E: XorHelper>(base: E, j: int, i: int, mtag: bool, mkey: bool, delta: E, zero: E, one: E) -> E {
    if !mtag && j % 4 == 0 {
        E::xor_spec(base, if bit_of(rcon_spec()[j / 4], i) == 0 { zero } else if mkey { delta } else { one })
    } else {
        base
    }
}

/// Bit `i` of the S-box input of S-box `j` recovered by ExpBkwd: the S-box output bit minus
/// the key-schedule bit it was added to, minus the round constant.
pub open spec fn bkwd_x_tilde<E: XorHelper>(x: Seq<E>, xk: Seq<E>, j: int, i: int, mtag: bool, mkey: bool, delta: E, zero: E, one: E) -> E {
    rcon_added(E::xor_spec(x[8 * j + i], xk[128 * (j / 4) + 8 * (j % 4) + i]), j, i, mtag, mkey, delta, zero, one)
}

/// ExpBkwd output bit `i` of S-box `j`: the inverse affine layer applied to the recovered bits,
/// plus the affine constant (Delta or one on bits 0 and 2; nothing for tags).
pub open spec fn bkwd_y<E: XorHelper>(x: Seq<E>, xk: Seq<E>, j: int, i: int, mtag: bool, mkey: bool, delta: E, zero: E, one: E) -> E {
    let t = E::xor_spec(
        E::xor_spec(
            bkwd_x_tilde(x, xk, j, (i + 7) % 8, mtag, mkey, delta, zero, one),
            bkwd_x_tilde(x, xk, j, (i + 5) % 8, mtag, mkey, delta, zero, one),
        ),
        bkwd_x_tilde(x, xk, j, (i + 2) % 8, mtag, mkey, delta, zero, one),
    );
    if !mtag && (i == 0 || i == 2) {
        E::xor_spec(t, if mkey { delta } else { one })
    } else {
        t
    }
}

/// ExpBkwd: for each of the S_ke key-schedule S-boxes, the 8 bits of the S-box input,
/// recovered from its output bits and the key schedule.
pub fn faest_aes_key_exp_bkwd<T: ret_value, TK: ret_value<Elem = T::Elem>>(
    _m: usize,
    x: T,
    x_k: TK,
    mtag: bool,
    mkey: bool,
    Delta: <T as ret_value>::Elem,
) -> (y: [<T as ret_value>::Elem; ret_size_exp_bwd])
    requires
        !(mtag && mkey),
        x.elems().len() >= ret_size_exp_bwd,
        x_k.elems().len() >= key_schedule_bits,
        T::len_spec() >= 8,
    ensures
        forall|j: int, i: int| 0 <= j < S_ke && 0 <= i < 8 ==> #[trigger] y@[8 * j + i] == bkwd_y(
            x.elems(), x_k.elems(), j, i, mtag, mkey, Delta, T::zero_spec(), T::one_spec()),
{
    let rcon_table = setup_rcon_table();
    let zero = T::dummy_value();
    let one = T::value_of_one();
    let mut y: [<T as ret_value>::Elem; ret_size_exp_bwd] = [T::dummy_value(); ret_size_exp_bwd];
    let mut j: usize = 0;
    while j < S_ke
        invariant
            0 <= j <= S_ke,
            !(mtag && mkey),
            x.elems().len() >= ret_size_exp_bwd,
            x_k.elems().len() >= key_schedule_bits,
            T::len_spec() >= 8,
            rcon_table@ == rcon_spec().subrange(0, R as int),
            zero == T::zero_spec(),
            one == T::one_spec(),
            forall|j2: int, i: int| 0 <= j2 < j && 0 <= i < 8 ==> #[trigger] y@[8 * j2 + i] == bkwd_y(
                x.elems(), x_k.elems(), j2, i, mtag, mkey, Delta, T::zero_spec(), T::one_spec()),
        decreases S_ke - j,
    {
        let c = j % 4;
        let i_wd = 128 * (j / 4);
        let parameter_a = x.get_slice(8 * j, 8 * j + 8);
        let parameter_b = x_k.get_slice(i_wd + 8 * c, i_wd + 8 * c + 8);
        let mut x_tilde: [T::Elem; 8] = <T::Elem as XorHelper>::xor_two_array(parameter_a, parameter_b);
        if !mtag && c == 0 {
            let mut rcon_value = rcon_table[j / 4];
            let ghost rc = rcon_table@[(j / 4) as int];
            assert(rcon_value >> 0u8 == rcon_value) by (bit_vector);
            let mut i: usize = 0;
            while i < 8
                invariant
                    0 <= i <= 8,
                    0 <= j < S_ke,
                    j % 4 == 0,
                    !mtag,
                    rc == rcon_spec()[(j / 4) as int],
                    rcon_value == rc >> (i as u8),
                    zero == T::zero_spec(),
                    one == T::one_spec(),
                    x.elems().len() >= ret_size_exp_bwd,
                    x_k.elems().len() >= key_schedule_bits,
                    forall|t: int| i <= t < 8 ==> #[trigger] x_tilde@[t] == <T::Elem as XorHelper>::xor_spec(
                        x.elems()[8 * j + t], x_k.elems()[128 * (j / 4) + t]),
                    forall|t: int| 0 <= t < i ==> #[trigger] x_tilde@[t] == bkwd_x_tilde(
                        x.elems(), x_k.elems(), j as int, t, mtag, mkey, Delta, T::zero_spec(), T::one_spec()),
                decreases 8 - i,
            {
                proof {
                    assert(rcon_value & 1 == bit_of(rc, i as int)) by (bit_vector)
                        requires
                            rcon_value == rc >> (i as u8),
                            i < 8,
                    ;
                    assert(rcon_value >> 1u8 == rc >> ((i + 1) as u8)) by (bit_vector)
                        requires
                            rcon_value == rc >> (i as u8),
                            i < 8,
                    ;
                }
                let r = if (rcon_value & 1) == 0 {
                    zero
                } else if mkey {
                    Delta
                } else {
                    one
                };
                let existing = x_tilde[i];
                x_tilde[i] = <T::Elem as XorHelper>::xor_array(&existing, &r);
                rcon_value = rcon_value >> 1;
                i = i + 1;
            }
        }
        proof {
            assert forall|t: int| 0 <= t < 8 implies #[trigger] x_tilde@[t] == bkwd_x_tilde(
                x.elems(), x_k.elems(), j as int, t, mtag, mkey, Delta, T::zero_spec(), T::one_spec()) by {
                if !(!mtag && c == 0) {
                    assert(x_tilde@[t] == <T::Elem as XorHelper>::xor_spec(x.elems()[8 * j + t], x_k.elems()[128 * (j / 4) + 8 * (j % 4) + t]));
                }
            }
        }
        let mut y_tilde: T = T::new_with_size(T::dummy_value());
        let mut i: usize = 0;
        while i < 8
            invariant
                0 <= i <= 8,
                y_tilde.elems().len() == T::len_spec(),
                T::len_spec() >= 8,
                forall|t: int| 0 <= t < 8 ==> #[trigger] x_tilde@[t] == bkwd_x_tilde(
                    x.elems(), x_k.elems(), j as int, t, mtag, mkey, Delta, T::zero_spec(), T::one_spec()),
                forall|t: int| 0 <= t < i ==> #[trigger] y_tilde.elems()[t] == <T::Elem as XorHelper>::xor_spec(
                    <T::Elem as XorHelper>::xor_spec(x_tilde@[(t + 7) % 8], x_tilde@[(t + 5) % 8]), x_tilde@[(t + 2) % 8]),
            decreases 8 - i,
        {
            let parameter_a = x_tilde[(i + 7) % 8];
            let parameter_b = x_tilde[(i + 5) % 8];
            let parameter_c = x_tilde[(i + 2) % 8];
            let middle_result = <T::Elem as XorHelper>::xor_array(&parameter_a, &parameter_b);
            let final_result = <T::Elem as XorHelper>::xor_array(&middle_result, &parameter_c);
            y_tilde.set_element(i, &final_result);
            i = i + 1;
        }
        if !mtag {
            let delta_or_1 = if mkey { Delta } else { one };
            let e0 = y_tilde.get_element(0);
            y_tilde.set_element(0, &<T::Elem as XorHelper>::xor_array(&e0, &delta_or_1));
            let e2 = y_tilde.get_element(2);
            y_tilde.set_element(2, &<T::Elem as XorHelper>::xor_array(&e2, &delta_or_1));
        }
        let mut i: usize = 0;
        while i < 8
            invariant
                0 <= i <= 8,
                0 <= j < S_ke,
                y_tilde.elems().len() >= 8,
                forall|t: int| 0 <= t < 8 ==> #[trigger] y_tilde.elems()[t] == bkwd_y(
                    x.elems(), x_k.elems(), j as int, t, mtag, mkey, Delta, T::zero_spec(), T::one_spec()),
                forall|j2: int, i2: int| 0 <= j2 < j && 0 <= i2 < 8 ==> #[trigger] y@[8 * j2 + i2] == bkwd_y(
                    x.elems(), x_k.elems(), j2, i2, mtag, mkey, Delta, T::zero_spec(), T::one_spec()),
                forall|i2: int| 0 <= i2 < i ==> #[trigger] y@[8 * j + i2] == bkwd_y(
                    x.elems(), x_k.elems(), j as int, i2, mtag, mkey, Delta, T::zero_spec(), T::one_spec()),
            decreases 8 - i,
        {
            y[8 * j + i] = y_tilde.get_element(i);
            i = i + 1;
        }
        j = j + 1;
    }
    y
}

/// All outputs of ExpBkwd, in order.
pub open spec fn bkwd_seq<E: XorHelper>(x: Seq<E>, xk: Seq<E>, mtag: bool, mkey: bool, delta: E, zero: E, one: E) -> Seq<E> {
    Seq::new(ret_size_exp_bwd as nat, |t: int| bkwd_y(x, xk, t / 8, t % 8, mtag, mkey, delta, zero, one))
}

/// Offset in the expanded key of the byte read for S-box `r` of key-schedule word `j` (RotWord
/// applied by reading byte `(r + 1) % 4`).
pub open spec fn ke_offset(j: int, r: int) -> int {
    32 * (nk - 1) + 128 * j + 8 * ((r + 1) % 4)
}

/// Eight field elements from `lo` on.
fn slice_fields8(a: &[[u8; 16]], lo: usize) -> (r: [[u8; 16]; 8])
    requires
        lo + 8 <= a@.len(),
    ensures
        r@ == a@.subrange(lo as int, lo + 8),
{
    let alen = a.len();
    let mut r = [[0u8; 16]; 8];
    let mut t: usize = 0;
    while t < 8
        invariant
            0 <= t <= 8,
            alen == a@.len(),
            lo + 8 <= a@.len(),
            forall|j: int| 0 <= j < t ==> #[trigger] r@[j] == a@[lo + j],
        decreases 8 - t,
    {
        r[t] = a[lo + t];
        t = t + 1;
    }
    assert(r@ =~= a@.subrange(lo as int, lo + 8));
    r
}

/// ByteCombine of eight bits.
fn bc_of_bits(a: [u8; 8]) -> (r: [u8; 16])
    ensures
        r@ == bc_bits(a@),
{
    let x = ByteOrBytesArray::from_byte_array(a);
    proof {
        lemma_bc_acc_ext(array_elems(x), bit_elems(a@), 8);
    }
    byte_combine(x)
}

/// ByteCombine of eight field elements.
fn bc_of_fields(a: [[u8; 16]; 8]) -> (r: [u8; 16])
    ensures
        r@ == bc_fields(a@),
{
    let x = ByteOrBytesArray::from_bytes_array(a);
    proof {
        lemma_bc_acc_ext(array_elems(x), field_elems(a@), 8);
    }
    byte_combine(x)
}

/// The prover's key-schedule constraints: for each key-schedule S-box, A_0 = v_in v_out and
/// A_1 = (k_in + v_in)(w_out + v_out) + 1 + A_0, where the inputs are ByteCombine of the
/// expanded-key bits (and tags) and the outputs ByteCombine of the ExpBkwd bits (and tags);
/// also returns the expanded key bits and their tags.
pub fn faest_aes_exp_cstrnts_wv(w: [u8; l_ke], v: [[u8; lambda_bytes]; l_ke], mkey: bool) -> (res: (
    [[u8; lambda_bytes]; S_ke],
    [[u8; lambda_bytes]; S_ke],
    [u8; key_schedule_bits],
    [[u8; lambda_bytes]; key_schedule_bits],
))
    requires
        !mkey,
    ensures
        res.2@ == key_exp_fwd_spec(w@),
        res.3@ == key_exp_fwd_spec(v@),
        rows_view(res.0@) == exp_a0(w@, v@),
        rows_view(res.1@) == exp_a1(w@, v@),
        key_exp_fwd_ok(w@, res.2@),
        key_exp_fwd_ok(v@, res.3@),
        forall|j: int, r: int| 0 <= j < S_ke / 4 && 0 <= r < 4 ==> {
            let kin = res.2@.subrange(ke_offset(j, r), ke_offset(j, r) + 8);
            let vin = res.3@.subrange(ke_offset(j, r), ke_offset(j, r) + 8);
            let wout = bkwd_seq(w@.subrange(LAMBDA as int, l_ke as int), res.2@, false, false, 0u8, 0u8, 1u8).subrange(32 * j + 8 * r, 32 * j + 8 * r + 8);
            let vout = bkwd_seq(v@.subrange(LAMBDA as int, l_ke as int), res.3@, true, false, value_of_zero_in_bytes,
                value_of_zero_in_bytes, value_of_one_in_bytes).subrange(32 * j + 8 * r, 32 * j + 8 * r + 8);
            &&& (#[trigger] res.0@[4 * j + r])@ == gf_lambda_mul_spec(bc_fields(vin), bc_fields(vout))
            &&& res.1@[4 * j + r]@ == xor_seq(
                gf_lambda_mul_spec(xor_seq(bc_bits(kin), bc_fields(vin)), xor_seq(bc_bits(wout), bc_fields(vout))),
                xor_seq(value_of_one_in_bytes@, res.0@[4 * j + r]@),
            )
        },
{
    let k: [u8; key_schedule_bits] = faest_aes_key_exp_fwd::<[u8; l_ke]>(1, w, false, false, [0; lambda_bytes]);
    let v_k: [[u8; lambda_bytes]; key_schedule_bits] = faest_aes_key_exp_fwd::<[[u8; lambda_bytes]; l_ke]>(128, v, true, false, [0; lambda_bytes]);
    let mut w_slice = [0u8; l_ke_minus_lambda];
    let mut v_slice = [[0u8; lambda_bytes]; l_ke_minus_lambda];
    let mut t: usize = 0;
    while t < l_ke_minus_lambda
        invariant
            0 <= t <= l_ke_minus_lambda,
            forall|i: int| 0 <= i < t ==> #[trigger] w_slice@[i] == w@[LAMBDA + i],
            forall|i: int| 0 <= i < t ==> #[trigger] v_slice@[i] == v@[LAMBDA + i],
        decreases l_ke_minus_lambda - t,
    {
        w_slice[t] = w[LAMBDA + t];
        v_slice[t] = v[LAMBDA + t];
        t = t + 1;
    }
    assert(w_slice@ =~= w@.subrange(LAMBDA as int, l_ke as int));
    assert(v_slice@ =~= v@.subrange(LAMBDA as int, l_ke as int));
    let w_tilde: [u8; ret_size_exp_bwd] = faest_aes_key_exp_bkwd::<[u8; l_ke_minus_lambda], [u8; key_schedule_bits]>(1, w_slice, k, false, false, 0);
    let v_w: [[u8; lambda_bytes]; ret_size_exp_bwd] = faest_aes_key_exp_bkwd::<[[u8; lambda_bytes]; l_ke_minus_lambda], [[u8; lambda_bytes]; key_schedule_bits]>(
        128, v_slice, v_k, true, false, [0; lambda_bytes]);
    let ghost wout_all = bkwd_seq(w@.subrange(LAMBDA as int, l_ke as int), k@, false, false, 0u8, 0u8, 1u8);
    let ghost vout_all = bkwd_seq(v@.subrange(LAMBDA as int, l_ke as int), v_k@, true, false, value_of_zero_in_bytes,
        value_of_zero_in_bytes, value_of_one_in_bytes);
    proof {
        assert(value_of_zero_in_bytes@ =~= [0u8; lambda_bytes]@);
        assert(value_of_zero_in_bytes == [0u8; lambda_bytes]);
        assert forall|t: int| 0 <= t < ret_size_exp_bwd implies w_tilde@[t] == wout_all[t] && v_w@[t] == vout_all[t] by {
            assert(t == 8 * (t / 8) + t % 8);
            assert(w_tilde@[8 * (t / 8) + t % 8] == wout_all[t]);
            assert(v_w@[8 * (t / 8) + t % 8] == vout_all[t]);
        }
        assert(w_tilde@ =~= wout_all);
        assert(v_w@ =~= vout_all);
    }
    let mut A_0: [[u8; lambda_bytes]; S_ke] = [[0; lambda_bytes]; S_ke];
    let mut A_1: [[u8; lambda_bytes]; S_ke] = [[0; lambda_bytes]; S_ke];
    let one: [u8; lambda_bytes] = value_of_one_in_bytes;
    let mut j: usize = 0;
    while j < S_ke / 4
        invariant
            0 <= j <= S_ke / 4,
            one == value_of_one_in_bytes,
            key_exp_fwd_ok(w@, k@),
            key_exp_fwd_ok(v@, v_k@),
            w_tilde@ == wout_all,
            v_w@ == vout_all,
            forall|j2: int, r: int| 0 <= j2 < j && 0 <= r < 4 ==> {
                let kin = k@.subrange(ke_offset(j2, r), ke_offset(j2, r) + 8);
                let vin = v_k@.subrange(ke_offset(j2, r), ke_offset(j2, r) + 8);
                let wout = wout_all.subrange(32 * j2 + 8 * r, 32 * j2 + 8 * r + 8);
                let vout = vout_all.subrange(32 * j2 + 8 * r, 32 * j2 + 8 * r + 8);
                &&& (#[trigger] A_0@[4 * j2 + r])@ == gf_lambda_mul_spec(bc_fields(vin), bc_fields(vout))
                &&& A_1@[4 * j2 + r]@ == xor_seq(
                    gf_lambda_mul_spec(xor_seq(bc_bits(kin), bc_fields(vin)), xor_seq(bc_bits(wout), bc_fields(vout))),
                    xor_seq(value_of_one_in_bytes@, A_0@[4 * j2 + r]@),
                )
            },
        decreases S_ke / 4 - j,
    {
        let mut r: usize = 0;
        while r < 4
            invariant
                0 <= j < S_ke / 4,
                0 <= r <= 4,
                one == value_of_one_in_bytes,
                w_tilde@ == wout_all,
                v_w@ == vout_all,
                forall|j2: int, r2: int| 0 <= j2 < j && 0 <= r2 < 4 ==> {
                    let kin = k@.subrange(ke_offset(j2, r2), ke_offset(j2, r2) + 8);
                    let vin = v_k@.subrange(ke_offset(j2, r2), ke_offset(j2, r2) + 8);
                    let wout = wout_all.subrange(32 * j2 + 8 * r2, 32 * j2 + 8 * r2 + 8);
                    let vout = vout_all.subrange(32 * j2 + 8 * r2, 32 * j2 + 8 * r2 + 8);
                    &&& (#[trigger] A_0@[4 * j2 + r2])@ == gf_lambda_mul_spec(bc_fields(vin), bc_fields(vout))
                    &&& A_1@[4 * j2 + r2]@ == xor_seq(
                        gf_lambda_mul_spec(xor_seq(bc_bits(kin), bc_fields(vin)), xor_seq(bc_bits(wout), bc_fields(vout))),
                        xor_seq(value_of_one_in_bytes@, A_0@[4 * j2 + r2]@),
                    )
                },
                forall|r2: int| 0 <= r2 < r ==> {
                    let kin = k@.subrange(ke_offset(j as int, r2), ke_offset(j as int, r2) + 8);
                    let vin = v_k@.subrange(ke_offset(j as int, r2), ke_offset(j as int, r2) + 8);
                    let wout = wout_all.subrange(32 * j + 8 * r2, 32 * j + 8 * r2 + 8);
                    let vout = vout_all.subrange(32 * j + 8 * r2, 32 * j + 8 * r2 + 8);
                    &&& (#[trigger] A_0@[4 * j + r2])@ == gf_lambda_mul_spec(bc_fields(vin), bc_fields(vout))
                    &&& A_1@[4 * j + r2]@ == xor_seq(
                        gf_lambda_mul_spec(xor_seq(bc_bits(kin), bc_fields(vin)), xor_seq(bc_bits(wout), bc_fields(vout))),
                        xor_seq(value_of_one_in_bytes@, A_0@[4 * j + r2]@),
                    )
                },
            decreases 4 - r,
        {
            let off = 32 * (nk - 1) + 128 * j + 8 * ((r + 1) % 4);
            let k_hat = bc_of_bits(take_bytes::<8>(k.as_slice(), off));
            let v_k_hat = bc_of_fields(slice_fields8(v_k.as_slice(), off));
            let w_hat = bc_of_bits(take_bytes::<8>(w_tilde.as_slice(), 32 * j + 8 * r));
            let v_w_hat = bc_of_fields(slice_fields8(v_w.as_slice(), 32 * j + 8 * r));
            let a0 = gf_lambda_mul(&v_k_hat, &v_w_hat);
            let product = gf_lambda_mul(&xor_arrays(&k_hat, &v_k_hat), &xor_arrays(&w_hat, &v_w_hat));
            let xor = xor_arrays(&one, &a0);
            A_0[4 * j + r] = a0;
            A_1[4 * j + r] = xor_arrays(&product, &xor);
            r = r + 1;
        }
        j = j + 1;
    }
    proof {
        assert forall|t: int| 0 <= t < S_ke implies rows_view(A_0@)[t] == exp_a0(w@, v@)[t] && rows_view(A_1@)[t] == exp_a1(w@, v@)[t] by {
            assert(t == 4 * (t / 4) + t % 4);
            assert(A_0@[4 * (t / 4) + t % 4] == A_0@[t]);
        }
        assert(rows_view(A_0@) =~= exp_a0(w@, v@));
        assert(rows_view(A_1@) =~= exp_a1(w@, v@));
    }
    (A_0, A_1, k, v_k)
}

/// The verifier's key-schedule constraints: B = q_in q_out + Delta^2 for each key-schedule
/// S-box, from the VOLE keys; also returns the keys of the expanded key.
pub fn faest_aes_exp_cstrnts_qDelta(Delta: [u8; lambda_bytes], q: [[u8; lambda_bytes]; l_ke], mkey: bool) -> (res: (
    [[u8; lambda_bytes]; S_ke],
    [[u8; lambda_bytes]; key_schedule_bits],
))
    requires
        mkey,
    ensures
        res.1@ == key_exp_fwd_spec(q@),
        rows_view(res.0@) == exp_b(Delta, q@),
        key_exp_fwd_ok(q@, res.1@),
        forall|j: int, r: int| 0 <= j < S_ke / 4 && 0 <= r < 4 ==> {
            let qin = res.1@.subrange(ke_offset(j, r), ke_offset(j, r) + 8);
            let qout = bkwd_seq(q@.subrange(LAMBDA as int, l_ke as int), res.1@, false, true, Delta,
                value_of_zero_in_bytes, value_of_one_in_bytes).subrange(32 * j + 8 * r, 32 * j + 8 * r + 8);
            (#[trigger] res.0@[4 * j + r])@ == xor_seq(gf_lambda_mul_spec(bc_fields(qin), bc_fields(qout)), gf_lambda_mul_spec(Delta@, Delta@))
        },
{
    let q_k: [[u8; lambda_bytes]; key_schedule_bits] = faest_aes_key_exp_fwd::<[[u8; lambda_bytes]; l_ke]>(128, q, false, true, Delta);
    let mut q_slice = [[0u8; lambda_bytes]; l_ke_minus_lambda];
    let mut t: usize = 0;
    while t < l_ke_minus_lambda
        invariant
            0 <= t <= l_ke_minus_lambda,
            forall|i: int| 0 <= i < t ==> #[trigger] q_slice@[i] == q@[LAMBDA + i],
        decreases l_ke_minus_lambda - t,
    {
        q_slice[t] = q[LAMBDA + t];
        t = t + 1;
    }
    assert(q_slice@ =~= q@.subrange(LAMBDA as int, l_ke as int));
    let q_w_flat: [[u8; lambda_bytes]; ret_size_exp_bwd] = faest_aes_key_exp_bkwd::<[[u8; lambda_bytes]; l_ke_minus_lambda], [[u8; lambda_bytes]; key_schedule_bits]>(
        128, q_slice, q_k, false, true, Delta);
    let ghost qout_all = bkwd_seq(q@.subrange(LAMBDA as int, l_ke as int), q_k@, false, true, Delta,
        value_of_zero_in_bytes, value_of_one_in_bytes);
    proof {
        assert(value_of_zero_in_bytes@ =~= [0u8; lambda_bytes]@);
        assert forall|t: int| 0 <= t < ret_size_exp_bwd implies q_w_flat@[t] == qout_all[t] by {
            assert(t == 8 * (t / 8) + t % 8);
            assert(q_w_flat@[8 * (t / 8) + t % 8] == qout_all[t]);
        }
        assert(q_w_flat@ =~= qout_all);
    }
    let dd = gf_lambda_mul(&Delta, &Delta);
    let mut B: [[u8; lambda_bytes]; S_ke] = [[0; lambda_bytes]; S_ke];
    let mut j: usize = 0;
    while j < S_ke / 4
        invariant
            0 <= j <= S_ke / 4,
            dd@ == gf_lambda_mul_spec(Delta@, Delta@),
            key_exp_fwd_ok(q@, q_k@),
            q_w_flat@ == qout_all,
            forall|j2: int, r: int| 0 <= j2 < j && 0 <= r < 4 ==> {
                let qin = q_k@.subrange(ke_offset(j2, r), ke_offset(j2, r) + 8);
                let qout = qout_all.subrange(32 * j2 + 8 * r, 32 * j2 + 8 * r + 8);
                (#[trigger] B@[4 * j2 + r])@ == xor_seq(gf_lambda_mul_spec(bc_fields(qin), bc_fields(qout)), gf_lambda_mul_spec(Delta@, Delta@))
            },
        decreases S_ke / 4 - j,
    {
        let mut r: usize = 0;
        while r < 4
            invariant
                0 <= j < S_ke / 4,
                0 <= r <= 4,
                dd@ == gf_lambda_mul_spec(Delta@, Delta@),
                q_w_flat@ == qout_all,
                forall|j2: int, r2: int| 0 <= j2 < j && 0 <= r2 < 4 ==> {
                    let qin = q_k@.subrange(ke_offset(j2, r2), ke_offset(j2, r2) + 8);
                    let qout = qout_all.subrange(32 * j2 + 8 * r2, 32 * j2 + 8 * r2 + 8);
                    (#[trigger] B@[4 * j2 + r2])@ == xor_seq(gf_lambda_mul_spec(bc_fields(qin), bc_fields(qout)), gf_lambda_mul_spec(Delta@, Delta@))
                },
                forall|r2: int| 0 <= r2 < r ==> {
                    let qin = q_k@.subrange(ke_offset(j as int, r2), ke_offset(j as int, r2) + 8);
                    let qout = qout_all.subrange(32 * j + 8 * r2, 32 * j + 8 * r2 + 8);
                    (#[trigger] B@[4 * j + r2])@ == xor_seq(gf_lambda_mul_spec(bc_fields(qin), bc_fields(qout)), gf_lambda_mul_spec(Delta@, Delta@))
                },
            decreases 4 - r,
        {
            let off = 32 * (nk - 1) + 128 * j + 8 * ((r + 1) % 4);
            let q_hat_k = bc_of_fields(slice_fields8(q_k.as_slice(), off));
            let q_hat_w = bc_of_fields(slice_fields8(q_w_flat.as_slice(), 32 * j + 8 * r));
            B[4 * j + r] = xor_arrays(&gf_lambda_mul(&q_hat_k, &q_hat_w), &dd);
            r = r + 1;
        }
        j = j + 1;
    }
    proof {
        assert forall|t: int| 0 <= t < S_ke implies rows_view(B@)[t] == exp_b(Delta, q@)[t] by {
            assert(t == 4 * (t / 4) + t % 4);
            assert(B@[4 * (t / 4) + t % 4] == B@[t]);
        }
        assert(rows_view(B@) =~= exp_b(Delta, q@));
    }
    (B, q_k)
}

/// The prover's A_0 key-schedule constraint values.
pub open spec fn exp_a0(w: Seq<u8>, v: Seq<[u8; 16]>) -> Seq<Seq<u8>> {
    let vk = key_exp_fwd_spec(v);
    let vout = bkwd_seq(v.subrange(LAMBDA as int, l_ke as int), vk, true, false, value_of_zero_in_bytes, value_of_zero_in_bytes, value_of_one_in_bytes);
    Seq::new(
        S_ke as nat,
        |t: int|
            gf_lambda_mul_spec(
                bc_fields(vk.subrange(ke_offset(t / 4, t % 4), ke_offset(t / 4, t % 4) + 8)),
                bc_fields(vout.subrange(32 * (t / 4) + 8 * (t % 4), 32 * (t / 4) + 8 * (t % 4) + 8)),
            ),
    )
}

/// The prover's A_1 key-schedule constraint values.
pub open spec fn exp_a1(w: Seq<u8>, v: Seq<[u8; 16]>) -> Seq<Seq<u8>> {
    let k = key_exp_fwd_spec(w);
    let vk = key_exp_fwd_spec(v);
    let wout = bkwd_seq(w.subrange(LAMBDA as int, l_ke as int), k, false, false, 0u8, 0u8, 1u8);
    let vout = bkwd_seq(v.subrange(LAMBDA as int, l_ke as int), vk, true, false, value_of_zero_in_bytes, value_of_zero_in_bytes, value_of_one_in_bytes);
    Seq::new(
        S_ke as nat,
        |t: int| {
            let o = ke_offset(t / 4, t % 4);
            let p = 32 * (t / 4) + 8 * (t % 4);
            xor_seq(
                gf_lambda_mul_spec(
                    xor_seq(bc_bits(k.subrange(o, o + 8)), bc_fields(vk.subrange(o, o + 8))),
                    xor_seq(bc_bits(wout.subrange(p, p + 8)), bc_fields(vout.subrange(p, p + 8))),
                ),
                xor_seq(value_of_one_in_bytes@, exp_a0(w, v)[t]),
            )
        },
    )
}

/// The verifier's B key-schedule constraint values.
pub open spec fn exp_b(delta: [u8; 16], q: Seq<[u8; 16]>) -> Seq<Seq<u8>> {
    let qk = key_exp_fwd_spec(q);
    let qout = bkwd_seq(q.subrange(LAMBDA as int, l_ke as int), qk, false, true, delta, value_of_zero_in_bytes, value_of_one_in_bytes);
    Seq::new(
        S_ke as nat,
        |t: int| {
            let o = ke_offset(t / 4, t % 4);
            let p = 32 * (t / 4) + 8 * (t % 4);
            xor_seq(gf_lambda_mul_spec(bc_fields(qk.subrange(o, o + 8)), bc_fields(qout.subrange(p, p + 8))), gf_lambda_mul_spec(delta@, delta@))
        },
    )
}

} // verus!
