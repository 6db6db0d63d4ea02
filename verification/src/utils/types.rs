#![allow(non_snake_case, non_upper_case_globals, non_camel_case_types)]

use vstd::prelude::*;
use crate::utils::constants::{chall3_bytes, ell, ell_hat_bytes, iv_bytes, k_0, k_0_pow, k_1, k_1_pow, lambda_bytes, lambda_bytes_times_two, tau, tau_minus_one, x1_bytes};
use crate::utils::galois_field::{gf128_mul, gf128_mul_spec};
use crate::utils::math::{xor_arrays, xor_seq};

verus! {

/// A 32-bit AES word.
pub type Word = [u8; 4];

/// An AES state, stored column by column: `state[col][row]`.
pub type State = [[u8; 4]; 4];

/// A public key: the plaintext block and the ciphertext block, one bit per byte.
pub type Pk = [([u8; 128], [u8; 128]); 1];

/// A signature: the VOLE corrections c_1 .. c_{tau-1}, u~, the masked witness d, a~, the
/// partial decommitments of all instances, the third challenge and the iv.
pub type Signature = (
    [[u8; ell_hat_bytes]; tau_minus_one],
    [u8; x1_bytes],
    [u8; ell],
    [u8; lambda_bytes],
    [(sized_array_for_cop, [u8; lambda_bytes_times_two]); tau],
    [u8; chall3_bytes],
    [u8; iv_bytes],
);

/// The field element 1 of F_{2^128}.
pub const value_of_one_in_bytes: [u8; 16] = [0x01, 0, 0, 0, 0, 0, 0, 0, 0, 0, 0, 0, 0, 0, 0, 0];

/// The field element 0 of F_{2^128}.
pub const value_of_zero_in_bytes: [u8; 16] = [0, 0, 0, 0, 0, 0, 0, 0, 0, 0, 0, 0, 0, 0, 0, 0];

/// The field element x (the integer 2) of F_{2^128}.
pub const value_of_two_in_bytes: [u8; 16] = [0x02, 0, 0, 0, 0, 0, 0, 0, 0, 0, 0, 0, 0, 0, 0, 0];

/// The field element x + 1 (the integer 3) of F_{2^128}.
pub const value_of_three_in_bytes: [u8; 16] = [0x03, 0, 0, 0, 0, 0, 0, 0, 0, 0, 0, 0, 0, 0, 0, 0];

/// Co-path of a GGM tree: one sibling seed per level (k_0 or k_1 levels).
#[derive(Clone, Copy)]
pub enum sized_array_for_cop {
    sized_array_1([[u8; 16]; k_0]),
    sized_array_2([[u8; 16]; k_1]),
}

/// Leaf commitments of a GGM tree (2^k_0 or 2^k_1 of them), on the heap.
pub enum sized_array_for_coms {
    sized_array_1(Box<[[u8; 32]; k_0_pow]>),
    sized_array_2(Box<[[u8; 32]; k_1_pow]>),
}

/// Leaf seeds of a GGM tree (2^k_0 or 2^k_1 of them), on the heap.
pub enum sized_array_for_sds {
    sized_array_1(Box<[[u8; 16]; k_0_pow]>),
    sized_array_2(Box<[[u8; 16]; k_1_pow]>),
}

/// The VOLE columns of one small-VOLE instance (k_0 or k_1 columns of ell_hat bits).
#[derive(Clone, Copy)]
pub enum sized_array_for_q_v {
    sized_array_1([[u8; ell_hat_bytes]; k_0]),
    sized_array_2([[u8; ell_hat_bytes]; k_1]),
}

impl sized_array_for_cop {
    /// The sibling seeds, from the root downwards.
    pub open spec fn nodes(self) -> Seq<[u8; 16]> {
        match self {
            sized_array_for_cop::sized_array_1(a) => a@,
            sized_array_for_cop::sized_array_2(a) => a@,
        }
    }
}

impl sized_array_for_coms {
    /// The leaf commitments in leaf order.
    pub open spec fn coms(self) -> Seq<[u8; 32]> {
        match self {
            sized_array_for_coms::sized_array_1(a) => a@,
            sized_array_for_coms::sized_array_2(a) => a@,
        }
    }
}

impl sized_array_for_sds {
    /// The leaf seeds in leaf order.
    pub open spec fn seeds(self) -> Seq<[u8; 16]> {
        match self {
            sized_array_for_sds::sized_array_1(a) => a@,
            sized_array_for_sds::sized_array_2(a) => a@,
        }
    }
}

impl sized_array_for_q_v {
    /// The columns in order.
    pub open spec fn cols(self) -> Seq<[u8; ell_hat_bytes]> {
        match self {
            sized_array_for_q_v::sized_array_1(a) => a@,
            sized_array_for_q_v::sized_array_2(a) => a@,
        }
    }

    /// Number of columns.
    pub fn len(&self) -> (r: usize)
        ensures
            r == self.cols().len(),
    {
        match self {
            sized_array_for_q_v::sized_array_1(_) => 12,
            sized_array_for_q_v::sized_array_2(_) => 11,
        }
    }

    /// Column `index`.
    pub fn get(&self, index: usize) -> (r: &[u8; ell_hat_bytes])
        requires
            index < self.cols().len(),
        ensures
            *r == self.cols()[index as int],
    {
        match self {
            sized_array_for_q_v::sized_array_1(arr) => &arr[index],
            sized_array_for_q_v::sized_array_2(arr) => &arr[index],
        }
    }

    /// The same columns with column `index` replaced by `value`.
    pub fn set(self, index: usize, value: [u8; ell_hat_bytes]) -> (r: Self)
        requires
            index < self.cols().len(),
        ensures
            r.cols() == self.cols().update(index as int, value),
            r is sized_array_1 <==> self is sized_array_1,
    {
        match self {
            sized_array_for_q_v::sized_array_1(arr) => {
                let mut arr = arr;
                arr[index] = value;
                sized_array_for_q_v::sized_array_1(arr)
            },
            sized_array_for_q_v::sized_array_2(arr) => {
                let mut arr = arr;
                arr[index] = value;
                sized_array_for_q_v::sized_array_2(arr)
            },
        }
    }

    /// All columns.
    pub fn get_all(&self) -> (r: &[[u8; ell_hat_bytes]])
        ensures
            r@ == self.cols(),
    {
        match self {
            sized_array_for_q_v::sized_array_1(arr) => arr.as_slice(),
            sized_array_for_q_v::sized_array_2(arr) => arr.as_slice(),
        }
    }
}

/// The powers of two from 1 to 4096, and zero.
#[derive(Clone, Copy, Debug, PartialEq, Eq, Structural)]
pub enum Log2Number {
    zero,
    one,
    two,
    four,
    eight,
    sixteen,
    thirtytwo,
    sixtyfour,
    onehundredandtwentyeight,
    twohundredandfiftysix,
    fivehundredandtwelve,
    onethousandandtwentyfour,
    twothousandsandfortyeight,
    fourthousandsandninetysix,
}

/// Zero or a power of two up to 4096.
pub open spec fn is_log2_number(n: int) -> bool {
    n == 0 || n == 1 || n == 2 || n == 4 || n == 8 || n == 16 || n == 32 || n == 64 || n == 128
        || n == 256 || n == 512 || n == 1024 || n == 2048 || n == 4096
}

impl Log2Number {
    /// The number this value names.
    pub open spec fn spec_value(self) -> usize {
        match self {
            Log2Number::zero => 0,
            Log2Number::one => 1,
            Log2Number::two => 2,
            Log2Number::four => 4,
            Log2Number::eight => 8,
            Log2Number::sixteen => 16,
            Log2Number::thirtytwo => 32,
            Log2Number::sixtyfour => 64,
            Log2Number::onehundredandtwentyeight => 128,
            Log2Number::twohundredandfiftysix => 256,
            Log2Number::fivehundredandtwelve => 512,
            Log2Number::onethousandandtwentyfour => 1024,
            Log2Number::twothousandsandfortyeight => 2048,
            Log2Number::fourthousandsandninetysix => 4096,
        }
    }

    /// The number this value names.
    pub fn value(self) -> (result: usize)
        ensures
            result == self.spec_value(),
            is_log2_number(result as int),
    {
        match self {
            Log2Number::zero => 0,
            Log2Number::one => 1,
            Log2Number::two => 2,
            Log2Number::four => 4,
            Log2Number::eight => 8,
            Log2Number::sixteen => 16,
            Log2Number::thirtytwo => 32,
            Log2Number::sixtyfour => 64,
            Log2Number::onehundredandtwentyeight => 128,
            Log2Number::twohundredandfiftysix => 256,
            Log2Number::fivehundredandtwelve => 512,
            Log2Number::onethousandandtwentyfour => 1024,
            Log2Number::twothousandsandfortyeight => 2048,
            Log2Number::fourthousandsandninetysix => 4096,
        }
    }

    /// The value naming `n`.
    pub fn wrap(n: usize) -> (result: Log2Number)
        requires
            is_log2_number(n as int),
        ensures
            result.spec_value() == n,
    {
        match n {
            0 => Log2Number::zero,
            1 => Log2Number::one,
            2 => Log2Number::two,
            4 => Log2Number::four,
            8 => Log2Number::eight,
            16 => Log2Number::sixteen,
            32 => Log2Number::thirtytwo,
            64 => Log2Number::sixtyfour,
            128 => Log2Number::onehundredandtwentyeight,
            256 => Log2Number::twohundredandfiftysix,
            512 => Log2Number::fivehundredandtwelve,
            1024 => Log2Number::onethousandandtwentyfour,
            2048 => Log2Number::twothousandsandfortyeight,
            _ => Log2Number::fourthousandsandninetysix,
        }
    }

    /// The value naming half of this one (zero stays zero); `self` is left as it was.
    pub fn log_reduce(&mut self) -> (result: Self)
        ensures
            result.spec_value() == old(self).spec_value() / 2,
            *final(self) == *old(self),
    {
        let v = self.value();
        assert(v >> 1 == v / 2) by (bit_vector);
        Self::wrap(v >> 1)
    }
}

/// Exclusive or on a field-element representation (one bit as `u8`, or
/// an element of F_{2^128} as 16 bytes).
pub trait XorHelper: Sized + Copy {
    spec fn xor_spec(x: Self, y: Self) -> Self;

    fn xor_array(x: &Self, y: &Self) -> (r: Self)
        ensures
            r == Self::xor_spec(*x, *y),
    ;

    fn xor_two_array(x: &[Self], y: &[Self]) -> (r: [Self; 8])
        requires
            x@.len() >= 8,
            y@.len() >= 8,
        ensures
            forall|i: int| 0 <= i < 8 ==> #[trigger] r@[i] == Self::xor_spec(x@[i], y@[i]),
    ;
}

/// The array of 16 bytes whose view is the exclusive or of the views of `x` and `y`.
pub open spec fn xor16(x: [u8; 16], y: [u8; 16]) -> [u8; 16] {
    choose|r: [u8; 16]| r@ == xor_seq(x@, y@)
}

pub(crate) proof fn lemma_xor16(x: [u8; 16], y: [u8; 16], r: [u8; 16])
    requires
        r@ == xor_seq(x@, y@),
    ensures
        r == xor16(x, y),
        xor16(x, y)@ == xor_seq(x@, y@),
{
    let c = xor16(x, y);
    assert(c@ == xor_seq(x@, y@));
    assert(c@ =~= r@);
    assert(c == r);
}

impl XorHelper for u8 {
    open spec fn xor_spec(x: u8, y: u8) -> u8 {
        x ^ y
    }

    fn xor_array(x: &u8, y: &u8) -> (r: u8) {
        *x ^ *y
    }

    fn xor_two_array(x: &[u8], y: &[u8]) -> (r: [u8; 8]) {
        let mut res: [u8; 8] = [0u8; 8];
        let mut i: usize = 0;
        while i < 8
            invariant
                0 <= i <= 8,
                x@.len() >= 8,
                y@.len() >= 8,
                forall|j: int| 0 <= j < i ==> #[trigger] res@[j] == x@[j] ^ y@[j],
            decreases 8 - i,
        {
            res[i] = x[i] ^ y[i];
            i = i + 1;
        }
        res
    }
}

impl XorHelper for [u8; 16] {
    open spec fn xor_spec(x: [u8; 16], y: [u8; 16]) -> [u8; 16] {
        xor16(x, y)
    }

    fn xor_array(x: &[u8; 16], y: &[u8; 16]) -> (r: [u8; 16]) {
        let r = xor_arrays::<16>(x, y);
        proof {
            lemma_xor16(*x, *y, r);
        }
        r
    }

    fn xor_two_array(x: &[[u8; 16]], y: &[[u8; 16]]) -> (r: [[u8; 16]; 8]) {
        let mut res: [[u8; 16]; 8] = [[0u8; 16]; 8];
        let mut i: usize = 0;
        while i < 8
            invariant
                0 <= i <= 8,
                x@.len() >= 8,
                y@.len() >= 8,
                forall|j: int| 0 <= j < i ==> #[trigger] res@[j] == xor16(x@[j], y@[j]),
            decreases 8 - i,
        {
            let v = xor_arrays::<16>(&x[i], &y[i]);
            proof {
                lemma_xor16(x@[i as int], y@[i as int], v);
            }
            res[i] = v;
            i = i + 1;
        }
        res
    }
}

/// Multiplication of a bit or a field element by a power of alpha, giving a field element.
pub trait AlphaMul: Copy {
    spec fn mul_alpha_spec(x: Self, alpha_val: Seq<u8>) -> Seq<u8>;

    fn mul_with_alpha(x: Self, alpha_val: [u8; 16]) -> (r: [u8; 16])
        ensures
            r@ == Self::mul_alpha_spec(x, alpha_val@),
    ;
}

/// The 16 zero bytes.
pub open spec fn zero16() -> Seq<u8> {
    Seq::new(16, |i: int| 0u8)
}

impl AlphaMul for u8 {
    /// A bit selects either zero or the power of alpha.
    open spec fn mul_alpha_spec(x: u8, alpha_val: Seq<u8>) -> Seq<u8> {
        if x == 0 {
            zero16()
        } else {
            alpha_val
        }
    }

    fn mul_with_alpha(x: u8, alpha_val: [u8; 16]) -> (r: [u8; 16]) {
        if x == 0 {
            let z = [0u8; 16];
            assert(z@ =~= zero16());
            z
        } else {
            alpha_val
        }
    }
}

impl AlphaMul for [u8; 16] {
    open spec fn mul_alpha_spec(x: [u8; 16], alpha_val: Seq<u8>) -> Seq<u8> {
        gf128_mul_spec(x@, alpha_val)
    }

    fn mul_with_alpha(x: [u8; 16], alpha_val: [u8; 16]) -> (r: [u8; 16]) {
        gf128_mul(&x, &alpha_val)
    }
}

/// Vectors of wire values (bits) or of VOLE tags and keys (field elements),
/// indexable and updatable element by element.
pub trait ret_value: Sized {
    type Elem: XorHelper + AlphaMul;

    /// The elements in order.
    spec fn elems(&self) -> Seq<Self::Elem>;

    /// The additive zero.
    spec fn zero_spec() -> Self::Elem;

    /// The multiplicative one.
    spec fn one_spec() -> Self::Elem;

    fn dummy_value() -> (r: Self::Elem)
        ensures
            r == Self::zero_spec(),
    ;

    fn value_of_one() -> (r: Self::Elem)
        ensures
            r == Self::one_spec(),
    ;

    fn get_slice(&self, x: usize, y: usize) -> (r: &[Self::Elem])
        requires
            x <= y <= self.elems().len(),
        ensures
            r@ == self.elems().subrange(x as int, y as int),
    ;

    fn get_element(&self, x: usize) -> (r: Self::Elem)
        requires
            x < self.elems().len(),
        ensures
            r == self.elems()[x as int],
    ;

    fn set_element(&mut self, index: usize, value: &Self::Elem)
        requires
            index < old(self).elems().len(),
        ensures
            final(self).elems() == old(self).elems().update(index as int, *value),
    ;

    fn new_with_size(value: Self::Elem) -> (r: Self)
        ensures
            r.elems().len() == Self::len_spec(),
            forall|i: int| 0 <= i < r.elems().len() ==> #[trigger] r.elems()[i] == value,
    ;

    proof fn lemma_elems_len(&self)
        ensures
            self.elems().len() == Self::len_spec(),
    ;

    fn turn_array_to_T(x: &[Self::Elem]) -> (r: Self)
        requires
            x@.len() == Self::len_spec(),
        ensures
            r.elems() == x@,
    ;

    /// The fixed number of elements.
    spec fn len_spec() -> nat;
}

impl<const N: usize> ret_value for [[u8; 16]; N] {
    type Elem = [u8; 16];

    open spec fn elems(&self) -> Seq<[u8; 16]> {
        self@
    }

    open spec fn zero_spec() -> [u8; 16] {
        value_of_zero_in_bytes
    }

    open spec fn one_spec() -> [u8; 16] {
        value_of_one_in_bytes
    }

    open spec fn len_spec() -> nat {
        N as nat
    }

    fn dummy_value() -> (r: [u8; 16]) {
        value_of_zero_in_bytes
    }

    fn value_of_one() -> (r: [u8; 16]) {
        value_of_one_in_bytes
    }

    fn get_slice(&self, x: usize, y: usize) -> (r: &[[u8; 16]]) {
        vstd::slice::slice_subrange(self.as_slice(), x, y)
    }

    fn get_element(&self, x: usize) -> (r: [u8; 16]) {
        self[x]
    }

    fn set_element(&mut self, index: usize, value: &[u8; 16]) {
        self[index] = *value;
    }

    fn new_with_size(value: [u8; 16]) -> (r: [[u8; 16]; N]) {
        [value; N]
    }

    proof fn lemma_elems_len(&self) {
    }

    fn turn_array_to_T(x: &[[u8; 16]]) -> (r: [[u8; 16]; N]) {
        let mut res: [[u8; 16]; N] = [[0u8; 16]; N];
        let mut i: usize = 0;
        while i < N
            invariant
                0 <= i <= N,
                x@.len() == N,
                forall|j: int| 0 <= j < i ==> #[trigger] res@[j] == x@[j],
            decreases N - i,
        {
            res[i] = x[i];
            i = i + 1;
        }
        assert(res@ =~= x@);
        res
    }
}

impl<const N: usize> ret_value for [u8; N] {
    type Elem = u8;

    open spec fn elems(&self) -> Seq<u8> {
        self@
    }

    open spec fn zero_spec() -> u8 {
        0
    }

    open spec fn one_spec() -> u8 {
        1
    }

    open spec fn len_spec() -> nat {
        N as nat
    }

    fn dummy_value() -> (r: u8) {
        0
    }

    fn value_of_one() -> (r: u8) {
        1
    }

    fn get_slice(&self, x: usize, y: usize) -> (r: &[u8]) {
        vstd::slice::slice_subrange(self.as_slice(), x, y)
    }

    fn get_element(&self, x: usize) -> (r: u8) {
        self[x]
    }

    fn set_element(&mut self, index: usize, value: &u8) {
        self[index] = *value;
    }

    fn new_with_size(value: u8) -> (r: [u8; N]) {
        [value; N]
    }

    proof fn lemma_elems_len(&self) {
    }

    fn turn_array_to_T(x: &[u8]) -> (r: [u8; N]) {
        let mut res: [u8; N] = [0u8; N];
        let mut i: usize = 0;
        while i < N
            invariant
                0 <= i <= N,
                x@.len() == N,
                forall|j: int| 0 <= j < i ==> #[trigger] res@[j] == x@[j],
            decreases N - i,
        {
            res[i] = x[i];
            i = i + 1;
        }
        assert(res@ =~= x@);
        res
    }
}

/// A vector of field elements.
#[derive(Clone, Copy)]
pub struct BytesArray<const N: usize>(pub [[u8; 16]; N]);

/// A vector of bits, one per byte.
#[derive(Clone, Copy)]
pub struct ByteArray<const N: usize>(pub [u8; N]);

/// A vector of either bits or field elements.
#[derive(Clone, Copy)]
pub enum ByteOrBytesArray<const N: usize> {
    Byte(ByteArray<N>),
    Bytes(BytesArray<N>),
}

/// A bit.
#[derive(Clone, Copy)]
pub struct ByteElem(pub u8);

/// A field element.
#[derive(Clone, Copy)]
pub struct BytesElem(pub [u8; 16]);

/// Either a bit or a field element.
#[derive(Clone, Copy)]
pub enum ByteOrBytesElem {
    Byte(ByteElem),
    Bytes(BytesElem),
}

impl ByteOrBytesElem {
    /// The zero of the variant of `x`.
    pub open spec fn dummy_spec(x: Self) -> Self {
        match x {
            ByteOrBytesElem::Byte(_) => ByteOrBytesElem::Byte(ByteElem(0)),
            ByteOrBytesElem::Bytes(_) => ByteOrBytesElem::Bytes(BytesElem(value_of_zero_in_bytes)),
        }
    }

    /// The one of the variant of `x`.
    pub open spec fn ones_spec(x: Self) -> Self {
        match x {
            ByteOrBytesElem::Byte(_) => ByteOrBytesElem::Byte(ByteElem(1)),
            ByteOrBytesElem::Bytes(_) => ByteOrBytesElem::Bytes(BytesElem(value_of_one_in_bytes)),
        }
    }

    /// The field element that this bit or field element times `alpha` gives.
    pub open spec fn mul_alpha_spec(self, alpha: Seq<u8>) -> Seq<u8> {
        match self {
            ByteOrBytesElem::Byte(x) => <u8 as AlphaMul>::mul_alpha_spec(x.0, alpha),
            ByteOrBytesElem::Bytes(x) => <[u8; 16] as AlphaMul>::mul_alpha_spec(x.0, alpha),
        }
    }

    /// Exclusive or of two elements of the same variant.
    pub open spec fn xor_spec(self, other: Self) -> Self {
        match (self, other) {
            (ByteOrBytesElem::Byte(x), ByteOrBytesElem::Byte(y)) => ByteOrBytesElem::Byte(ByteElem(x.0 ^ y.0)),
            (ByteOrBytesElem::Bytes(x), ByteOrBytesElem::Bytes(y)) => ByteOrBytesElem::Bytes(BytesElem(xor16(x.0, y.0))),
            _ => self,
        }
    }

    /// The bit of a `Byte` element.
    pub fn get_byte(x: &Self) -> (r: u8)
        requires
            x is Byte,
        ensures
            r == x->Byte_0.0,
    {
        match x {
            ByteOrBytesElem::Byte(ByteElem(y)) => *y,
            ByteOrBytesElem::Bytes(_) => 0,
        }
    }

    /// The field element of a `Bytes` element.
    pub fn get_bytes(x: &Self) -> (r: [u8; 16])
        requires
            x is Bytes,
        ensures
            r == x->Bytes_0.0,
    {
        match x {
            ByteOrBytesElem::Bytes(BytesElem(y)) => *y,
            ByteOrBytesElem::Byte(_) => value_of_zero_in_bytes,
        }
    }

    /// The zero of the same variant as `x`.
    pub fn dummy(x: &Self) -> (r: Self)
        ensures
            r == Self::dummy_spec(*x),
    {
        match x {
            ByteOrBytesElem::Byte(_) => ByteOrBytesElem::Byte(ByteElem(0)),
            ByteOrBytesElem::Bytes(_) => ByteOrBytesElem::Bytes(BytesElem(value_of_zero_in_bytes)),
        }
    }

    /// The zero field element.
    pub fn zero_bytes() -> (r: Self)
        ensures
            r == ByteOrBytesElem::Bytes(BytesElem(value_of_zero_in_bytes)),
    {
        ByteOrBytesElem::Bytes(BytesElem(value_of_zero_in_bytes))
    }

    /// The one of the same variant as `x`.
    pub fn ones(x: &Self) -> (r: Self)
        ensures
            r == Self::ones_spec(*x),
    {
        match x {
            ByteOrBytesElem::Byte(_) => ByteOrBytesElem::Byte(ByteElem(1)),
            ByteOrBytesElem::Bytes(_) => ByteOrBytesElem::Bytes(BytesElem(value_of_one_in_bytes)),
        }
    }

    /// The field element one.
    pub fn one_bytes() -> (r: Self)
        ensures
            r == ByteOrBytesElem::Bytes(BytesElem(value_of_one_in_bytes)),
    {
        ByteOrBytesElem::Bytes(BytesElem(value_of_one_in_bytes))
    }

    /// Exclusive or of two elements of the same variant.
    pub fn xor_array(x: &ByteOrBytesElem, y: &ByteOrBytesElem) -> (r: ByteOrBytesElem)
        requires
            (x is Byte) == (y is Byte),
        ensures
            r == x.xor_spec(*y),
            r is Byte <==> x is Byte,
    {
        match (x, y) {
            (ByteOrBytesElem::Byte(a), ByteOrBytesElem::Byte(b)) => ByteOrBytesElem::Byte(ByteElem(a.0 ^ b.0)),
            (ByteOrBytesElem::Bytes(a), ByteOrBytesElem::Bytes(b)) => {
                let v = xor_arrays::<16>(&a.0, &b.0);
                proof {
                    lemma_xor16(a.0, b.0, v);
                }
                ByteOrBytesElem::Bytes(BytesElem(v))
            },
            _ => *x,
        }
    }

    /// Whether both are bits or both are field elements.
    pub fn same_variant(x: &Self, y: &Self) -> (r: bool)
        ensures
            r == ((x is Byte) == (y is Byte)),
    {
        match (x, y) {
            (ByteOrBytesElem::Byte(_), ByteOrBytesElem::Byte(_)) => true,
            (ByteOrBytesElem::Bytes(_), ByteOrBytesElem::Bytes(_)) => true,
            _ => false,
        }
    }

    /// This bit or field element times `alpha`, as a field element.
    pub fn multiply_with_alpha(self, alpha: [u8; 16]) -> (r: [u8; 16])
        ensures
            r@ == self.mul_alpha_spec(alpha@),
    {
        match self {
            ByteOrBytesElem::Byte(x) => <u8 as AlphaMul>::mul_with_alpha(x.0, alpha),
            ByteOrBytesElem::Bytes(x) => <[u8; 16] as AlphaMul>::mul_with_alpha(x.0, alpha),
        }
    }

    /// The bits of `x`, each as an element.
    pub fn from_byte_array<const N: usize>(x: &[u8; N]) -> (res: [ByteOrBytesElem; N])
        ensures
            forall|i: int| 0 <= i < N ==> #[trigger] res@[i] == ByteOrBytesElem::Byte(ByteElem(x@[i])),
    {
        let mut res: [ByteOrBytesElem; N] = [ByteOrBytesElem::Byte(ByteElem(0)); N];
        let mut i: usize = 0;
        while i < N
            invariant
                0 <= i <= N,
                forall|j: int| 0 <= j < i ==> #[trigger] res@[j] == ByteOrBytesElem::Byte(ByteElem(x@[j])),
            decreases N - i,
        {
            ByteOrBytesElem::set_elem(&mut res, i, ByteOrBytesElem::Byte(ByteElem(x[i])));
            i = i + 1;
        }
        res
    }

    /// The field elements of `x`, each as an element.
    pub fn from_bytes_array<const N: usize>(x: &[[u8; 16]; N]) -> (res: [ByteOrBytesElem; N])
        ensures
            forall|i: int| 0 <= i < N ==> #[trigger] res@[i] == ByteOrBytesElem::Bytes(BytesElem(x@[i])),
    {
        let mut res: [ByteOrBytesElem; N] = [ByteOrBytesElem::Bytes(BytesElem(value_of_zero_in_bytes)); N];
        let mut i: usize = 0;
        while i < N
            invariant
                0 <= i <= N,
                forall|j: int| 0 <= j < i ==> #[trigger] res@[j] == ByteOrBytesElem::Bytes(BytesElem(x@[j])),
            decreases N - i,
        {
            ByteOrBytesElem::set_elem(&mut res, i, ByteOrBytesElem::Bytes(BytesElem(x[i])));
            i = i + 1;
        }
        res
    }

    /// Stores `elem` at `index`.
    pub fn set_elem<const N: usize>(arr: &mut [ByteOrBytesElem; N], index: usize, elem: ByteOrBytesElem)
        requires
            index < N,
        ensures
            final(arr)@ == old(arr)@.update(index as int, elem),
    {
        arr[index] = elem;
    }

    /// Whether this is a bit.
    pub fn is_byte(&self) -> (r: bool)
        ensures
            r == (*self is Byte),
    {
        match self {
            ByteOrBytesElem::Byte(_) => true,
            ByteOrBytesElem::Bytes(_) => false,
        }
    }

    /// Whether this is a field element.
    pub fn is_bytes(&self) -> (r: bool)
        ensures
            r == (*self is Bytes),
    {
        match self {
            ByteOrBytesElem::Byte(_) => false,
            ByteOrBytesElem::Bytes(_) => true,
        }
    }
}

impl<const N: usize> ByteOrBytesArray<N> {
    /// Element `i`, as a bit or a field element.
    pub open spec fn elem_at(self, i: int) -> ByteOrBytesElem {
        match self {
            ByteOrBytesArray::Byte(a) => ByteOrBytesElem::Byte(ByteElem(a.0@[i])),
            ByteOrBytesArray::Bytes(a) => ByteOrBytesElem::Bytes(BytesElem(a.0@[i])),
        }
    }

    /// The zero vector of the variant of `x`.
    pub fn dummy(x: &ByteOrBytesElem) -> (result: Self)
        ensures
            result is Byte <==> x is Byte,
            forall|i: int| 0 <= i < N ==> #[trigger] result.elem_at(i) == ByteOrBytesElem::dummy_spec(*x),
    {
        match x {
            ByteOrBytesElem::Byte(_) => ByteOrBytesArray::Byte(ByteArray([0u8; N])),
            ByteOrBytesElem::Bytes(_) => ByteOrBytesArray::Bytes(BytesArray([value_of_zero_in_bytes; N])),
        }
    }

    /// The zero vector of field elements.
    pub fn zero_bytes() -> (result: Self)
        ensures
            result is Bytes,
            forall|i: int| 0 <= i < N ==> #[trigger] result.elem_at(i) == ByteOrBytesElem::Bytes(BytesElem(value_of_zero_in_bytes)),
    {
        ByteOrBytesArray::Bytes(BytesArray([value_of_zero_in_bytes; N]))
    }

    /// The all-ones vector of the variant of `x`.
    pub fn ones(x: &Self) -> (result: Self)
        ensures
            result is Byte <==> x is Byte,
            forall|i: int| 0 <= i < N ==> #[trigger] result.elem_at(i) == ByteOrBytesElem::ones_spec(x.elem_at(0)),
    {
        match x {
            ByteOrBytesArray::Byte(_) => ByteOrBytesArray::Byte(ByteArray([1u8; N])),
            ByteOrBytesArray::Bytes(_) => ByteOrBytesArray::Bytes(BytesArray([value_of_one_in_bytes; N])),
        }
    }

    /// The all-ones vector of field elements.
    pub fn one_bytes() -> (result: Self)
        ensures
            result is Bytes,
            forall|i: int| 0 <= i < N ==> #[trigger] result.elem_at(i) == ByteOrBytesElem::Bytes(BytesElem(value_of_one_in_bytes)),
    {
        ByteOrBytesArray::Bytes(BytesArray([value_of_one_in_bytes; N]))
    }

    /// Pointwise exclusive or of two vectors of the same variant.
    pub fn xor_array(x: &ByteOrBytesArray<N>, y: &ByteOrBytesArray<N>) -> (result: ByteOrBytesArray<N>)
        requires
            (x is Byte) == (y is Byte),
        ensures
            result is Byte <==> x is Byte,
            forall|i: int| 0 <= i < N ==> #[trigger] result.elem_at(i) == x.elem_at(i).xor_spec(y.elem_at(i)),
    {
        match (x, y) {
            (ByteOrBytesArray::Byte(a), ByteOrBytesArray::Byte(b)) => {
                let mut res: [u8; N] = [0u8; N];
                let mut i: usize = 0;
                while i < N
                    invariant
                        0 <= i <= N,
                        forall|j: int| 0 <= j < i ==> #[trigger] res@[j] == a.0@[j] ^ b.0@[j],
                    decreases N - i,
                {
                    res[i] = a.0[i] ^ b.0[i];
                    i = i + 1;
                }
                ByteOrBytesArray::Byte(ByteArray(res))
            },
            (ByteOrBytesArray::Bytes(a), ByteOrBytesArray::Bytes(b)) => {
                let mut res: [[u8; 16]; N] = [[0u8; 16]; N];
                let mut i: usize = 0;
                while i < N
                    invariant
                        0 <= i <= N,
                        forall|j: int| 0 <= j < i ==> #[trigger] res@[j] == xor16(a.0@[j], b.0@[j]),
                    decreases N - i,
                {
                    let v = xor_arrays::<16>(&a.0[i], &b.0[i]);
                    proof {
                        lemma_xor16(a.0@[i as int], b.0@[i as int], v);
                    }
                    res[i] = v;
                    i = i + 1;
                }
                ByteOrBytesArray::Bytes(BytesArray(res))
            },
            _ => *x,
        }
    }

    /// Whether both vectors hold bits or both hold field elements.
    pub fn same_variant<const M: usize>(x: &ByteOrBytesArray<N>, y: &ByteOrBytesArray<M>) -> (result: bool)
        ensures
            result == ((x is Byte) == (y is Byte)),
    {
        match (x, y) {
            (ByteOrBytesArray::Byte(_), ByteOrBytesArray::Byte(_)) => true,
            (ByteOrBytesArray::Bytes(_), ByteOrBytesArray::Bytes(_)) => true,
            _ => false,
        }
    }

    /// The length `N`.
    pub fn len(&self) -> (result: usize)
        ensures
            result == N,
    {
        N
    }

    /// The bits of a bit vector.
    pub fn get_byte(&self) -> (result: [u8; N])
        requires
            *self is Byte,
        ensures
            result == self->Byte_0.0,
    {
        match self {
            ByteOrBytesArray::Byte(res) => res.0,
            ByteOrBytesArray::Bytes(_) => [0u8; N],
        }
    }

    /// The field elements of a field-element vector.
    pub fn get_bytes(&self) -> (result: [[u8; 16]; N])
        requires
            *self is Bytes,
        ensures
            result == self->Bytes_0.0,
    {
        match self {
            ByteOrBytesArray::Bytes(res) => res.0,
            ByteOrBytesArray::Byte(_) => [value_of_zero_in_bytes; N],
        }
    }

    /// Elements `from .. to` of `x`, of the same variant.
    pub fn get_slice<const SIZE: usize>(x: &ByteOrBytesArray<N>, from: usize, to: usize) -> (result: ByteOrBytesArray<SIZE>)
        requires
            from <= to <= N,
            SIZE == to - from,
        ensures
            result is Byte <==> x is Byte,
            forall|i: int| 0 <= i < SIZE ==> #[trigger] result.elem_at(i) == x.elem_at(from + i),
    {
        match x {
            ByteOrBytesArray::Byte(arr) => {
                let mut res: [u8; SIZE] = [0u8; SIZE];
                let mut i: usize = 0;
                while i < SIZE
                    invariant
                        0 <= i <= SIZE,
                        from <= to <= N,
                        SIZE == to - from,
                        forall|j: int| 0 <= j < i ==> #[trigger] res@[j] == arr.0@[from + j],
                    decreases SIZE - i,
                {
                    res[i] = arr.0[from + i];
                    i = i + 1;
                }
                ByteOrBytesArray::Byte(ByteArray(res))
            },
            ByteOrBytesArray::Bytes(arr) => {
                let mut res: [[u8; 16]; SIZE] = [[0u8; 16]; SIZE];
                let mut i: usize = 0;
                while i < SIZE
                    invariant
                        0 <= i <= SIZE,
                        from <= to <= N,
                        SIZE == to - from,
                        forall|j: int| 0 <= j < i ==> #[trigger] res@[j] == arr.0@[from + j],
                    decreases SIZE - i,
                {
                    res[i] = arr.0[from + i];
                    i = i + 1;
                }
                ByteOrBytesArray::Bytes(BytesArray(res))
            },
        }
    }

    /// Element `index` of `x`.
    pub fn get_at_index(x: &Self, index: usize) -> (result: ByteOrBytesElem)
        requires
            index < N,
        ensures
            result == x.elem_at(index as int),
    {
        match x {
            ByteOrBytesArray::Byte(arr) => ByteOrBytesElem::Byte(ByteElem(arr.0[index])),
            ByteOrBytesArray::Bytes(arr) => ByteOrBytesElem::Bytes(BytesElem(arr.0[index])),
        }
    }

    /// `x` with element `index` replaced by `elem`, which is of the same variant.
    pub fn set_at_index(x: ByteOrBytesArray<N>, index: usize, elem: ByteOrBytesElem) -> (result: ByteOrBytesArray<N>)
        requires
            index < N,
            (x is Byte) == (elem is Byte),
        ensures
            result is Byte <==> x is Byte,
            result.elem_at(index as int) == elem,
            forall|i: int| 0 <= i < N && i != index ==> #[trigger] result.elem_at(i) == x.elem_at(i),
    {
        match x {
            ByteOrBytesArray::Byte(arr) => {
                let mut arr = arr;
                let v = ByteOrBytesElem::get_byte(&elem);
                arr.0[index] = v;
                ByteOrBytesArray::Byte(arr)
            },
            ByteOrBytesArray::Bytes(arr) => {
                let mut arr = arr;
                let v = ByteOrBytesElem::get_bytes(&elem);
                arr.0[index] = v;
                ByteOrBytesArray::Bytes(arr)
            },
        }
    }

    /// A bit vector.
    pub fn from_byte_array(arr: [u8; N]) -> (result: ByteOrBytesArray<N>)
        ensures
            result == ByteOrBytesArray::<N>::Byte(ByteArray(arr)),
    {
        ByteOrBytesArray::Byte(ByteArray(arr))
    }

    /// A field-element vector.
    pub fn from_bytes_array(arr: [[u8; 16]; N]) -> (result: ByteOrBytesArray<N>)
        ensures
            result == ByteOrBytesArray::<N>::Bytes(BytesArray(arr)),
    {
        ByteOrBytesArray::Bytes(BytesArray(arr))
    }

    /// Whether this holds bits.
    pub fn is_byte(&self) -> (result: bool)
        ensures
            result == (*self is Byte),
    {
        match self {
            ByteOrBytesArray::Byte(_) => true,
            ByteOrBytesArray::Bytes(_) => false,
        }
    }

    /// Whether this holds field elements.
    pub fn is_bytes(&self) -> (result: bool)
        ensures
            result == (*self is Bytes),
    {
        match self {
            ByteOrBytesArray::Byte(_) => false,
            ByteOrBytesArray::Bytes(_) => true,
        }
    }
}

} // verus!
