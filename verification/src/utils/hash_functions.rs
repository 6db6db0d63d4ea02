#![allow(non_upper_case_globals)]

use vstd::prelude::*;
use crate::utils::constants::{h_v_size, iv_bytes, k_0_pow, k_1_pow, lambda_bytes, lambda_bytes_times_two, tau};
use crate::utils::helper_methods_cstrnts::or_shifted;
use crate::utils::libcrux_proxy::{shake128_spec, DigestProxy};

verus! {

/// The rows of a matrix of bytes, each as a sequence.
pub open spec fn rows_view<const N: usize>(s: Seq<[u8; N]>) -> Seq<Seq<u8>> {
    Seq::new(s.len(), |i: int| s[i]@)
}

/// Byte strings, concatenated.
pub open spec fn concat_seqs(s: Seq<Seq<u8>>) -> Seq<u8>
    decreases s.len(),
{
    if s.len() == 0 {
        Seq::empty()
    } else {
        concat_seqs(s.drop_last()) + s.last()
    }
}

/// The rows of a matrix, concatenated.
pub open spec fn concat_rows<const N: usize>(s: Seq<[u8; N]>) -> Seq<u8> {
    concat_seqs(rows_view(s))
}

/// Entry `i * N + j` of the concatenated rows is entry `j` of row `i`.
pub proof fn lemma_concat_rows_index<const N: usize>(s: Seq<[u8; N]>)
    ensures
        concat_rows(s).len() == s.len() * N,
        forall|i: int, j: int| 0 <= i < s.len() && 0 <= j < N ==> #[trigger] concat_rows(s)[i * N + j] == s[i]@[j],
    decreases s.len(),
{
    if s.len() == 0 {
        assert(rows_view(s).len() == 0);
        assert(0 * N == 0) by (nonlinear_arith);
    } else {
        let t = s.drop_last();
        lemma_concat_rows_index(t);
        assert(rows_view(s).drop_last() =~= rows_view(t));
        assert(concat_rows(s) == concat_rows(t) + s.last()@);
        assert(t.len() * N + N == s.len() * N) by (nonlinear_arith)
            requires
                t.len() + 1 == s.len(),
        ;
        assert forall|i: int, j: int| 0 <= i < s.len() && 0 <= j < N implies #[trigger] concat_rows(s)[i * N + j] == s[i]@[j] by {
            if i < t.len() {
                assert(i * N + j < t.len() * N) by (nonlinear_arith)
                    requires
                        i + 1 <= t.len(),
                        j < N,
                ;
                assert(t[i] == s[i]);
            } else {
                assert(i == t.len());
            }
        }
    }
}

/// Concatenating `n` rows of four or sixteen bytes.
pub proof fn lemma_concat_seqs_len16(s: Seq<Seq<u8>>)
    ensures
        (forall|i: int| 0 <= i < s.len() ==> (#[trigger] s[i]).len() == 4) ==> concat_seqs(s).len() == 4 * s.len(),
        (forall|i: int| 0 <= i < s.len() ==> (#[trigger] s[i]).len() == 16) ==> concat_seqs(s).len() == 16 * s.len(),
    decreases s.len(),
{
    if s.len() > 0 {
        lemma_concat_seqs_len16(s.drop_last());
        assert forall|i: int| 0 <= i < s.drop_last().len() implies #[trigger] s.drop_last()[i] == s[i] by {}
    }
}

/// The seed H_0 derives from a leaf key.
pub open spec fn h0_seed(k: Seq<u8>, iv: Seq<u8>) -> Seq<u8> {
    shake128_spec(k + iv + seq![0u8], 48).subrange(0, 16)
}

/// The commitment H_0 derives from a leaf key.
pub open spec fn h0_com(k: Seq<u8>, iv: Seq<u8>) -> Seq<u8> {
    shake128_spec(k + iv + seq![0u8], 48).subrange(16, 48)
}

/// H_0 on a leaf key `k` cuts the 48-byte SHAKE128 output on k || iv || 0x00 into two
/// disjoint parts that, one after the other, give the whole output: the seed is its first
/// 16 bytes and the commitment the 32 bytes after them.
pub proof fn lemma_h0_split(k: Seq<u8>, iv: Seq<u8>)
    ensures
        h0_seed(k, iv) + h0_com(k, iv) == shake128_spec(k + iv + seq![0u8], 48),
        h0_seed(k, iv).len() == 16,
        h0_com(k, iv).len() == 32,
{
    assert(h0_seed(k, iv) + h0_com(k, iv) =~= shake128_spec(k + iv + seq![0u8], 48));
}

/// Bytes packed from a bit string, eight entries per byte, entry `i` of a group shifted left by `i`.
pub open spec fn pack_bits(bits: Seq<u8>) -> Seq<u8> {
    Seq::new(bits.len() / 8, |i: int| or_shifted(bits.subrange(8 * i, 8 * i + 8), 8))
}

/// Appends the bytes of `s` to `v`.
fn append_slice(v: &mut Vec<u8>, s: &[u8])
    ensures
        final(v)@ == old(v)@ + s@,
{
    let mut i: usize = 0;
    while i < s.len()
        invariant
            0 <= i <= s@.len(),
            v@ == old(v)@ + s@.subrange(0, i as int),
        decreases s@.len() - i,
    {
        v.push(s[i]);
        i = i + 1;
        assert(s@.subrange(0, i as int) =~= s@.subrange(0, i - 1) + seq![s@[i - 1]]);
    }
    assert(s@.subrange(0, s@.len() as int) =~= s@);
}

/// Appends the rows of `rows` to `v`.
fn append_rows<const N: usize>(v: &mut Vec<u8>, rows: &[[u8; N]])
    ensures
        final(v)@ == old(v)@ + concat_rows(rows@),
{
    let mut j: usize = 0;
    while j < rows.len()
        invariant
            0 <= j <= rows@.len(),
            v@ == old(v)@ + concat_rows(rows@.subrange(0, j as int)),
        decreases rows@.len() - j,
    {
        let row: [u8; N] = rows[j];
        append_slice(v, row.as_slice());
        assert(rows_view(rows@.subrange(0, j + 1)).drop_last() =~= rows_view(rows@.subrange(0, j as int)));
        j = j + 1;
    }
    assert(rows@.subrange(0, rows@.len() as int) =~= rows@);
}

/// Packs `bits` eight at a time into bytes.
pub(crate) fn pack_bits_exec(bits: &[u8], out: &mut [u8])
    requires
        bits@.len() == 8 * old(out)@.len(),
    ensures
        final(out)@ == pack_bits(bits@),
{
    let blen = bits.len();
    let mut i: usize = 0;
    while i < out.len()
        invariant
            blen == bits@.len(),
            0 <= i <= out@.len(),
            bits@.len() == 8 * out@.len(),
            out@.len() == old(out)@.len(),
            forall|j: int| 0 <= j < i ==> #[trigger] out@[j] == or_shifted(bits@.subrange(8 * j, 8 * j + 8), 8),
        decreases out@.len() - i,
    {
        let mut b: u8 = 0;
        let mut bit: usize = 0;
        while bit < 8
            invariant
                0 <= i < out@.len(),
                bits@.len() == 8 * out@.len(),
                0 <= bit <= 8,
                blen == bits@.len(),
                8 * i + 8 <= bits@.len(),
                b == or_shifted(bits@.subrange(8 * i, 8 * i + 8), bit as int),
            decreases 8 - bit,
        {
            assert(bits@.subrange(8 * i, 8 * i + 8)[bit as int] == bits@[8 * i + bit]);
            b = b | (bits[8 * i + bit] << (bit as u8));
            bit = bit + 1;
        }
        out[i] = b;
        i = i + 1;
    }
    assert(out@ =~= pack_bits(bits@));
}

/// H_0: from a leaf key and the iv, a seed of lambda bits and a commitment of 2 lambda bits.
pub fn h_0(k: [u8; lambda_bytes], iv: [u8; iv_bytes]) -> (r: ([u8; lambda_bytes], [u8; lambda_bytes_times_two]))
    ensures
        r.0@ == h0_seed(k@, iv@),
        r.1@ == h0_com(k@, iv@),
{
    let mut input: Vec<u8> = Vec::new();
    append_slice(&mut input, k.as_slice());
    append_slice(&mut input, iv.as_slice());
    input.push(0u8);
    assert(input@ =~= k@ + iv@ + seq![0u8]);
    let output: [u8; 48] = DigestProxy::shake128::<48>(input.as_slice());
    let mut sd = [0u8; lambda_bytes];
    let mut com = [0u8; lambda_bytes_times_two];
    let mut i: usize = 0;
    while i < 16
        invariant
            0 <= i <= 16,
            forall|j: int| 0 <= j < i ==> #[trigger] sd@[j] == output@[j],
        decreases 16 - i,
    {
        sd[i] = output[i];
        i = i + 1;
    }
    let mut i: usize = 0;
    while i < 32
        invariant
            0 <= i <= 32,
            forall|j: int| 0 <= j < i ==> #[trigger] com@[j] == output@[16 + j],
        decreases 32 - i,
    {
        com[i] = output[16 + i];
        i = i + 1;
    }
    assert(sd@ =~= output@.subrange(0, 16));
    assert(com@ =~= output@.subrange(16, 48));
    (sd, com)
}

/// H_1 over the 2^k_0 leaf commitments of a GGM tree.
pub fn h_1_k0(coms: &[[u8; lambda_bytes_times_two]; k_0_pow]) -> (r: [u8; lambda_bytes_times_two])
    ensures
        r@ == shake128_spec(concat_rows(coms@) + seq![1u8], 32),
{
    let mut input: Vec<u8> = Vec::new();
    append_rows(&mut input, coms.as_slice());
    input.push(0x01u8);
    assert(input@ =~= concat_rows(coms@) + seq![1u8]);
    DigestProxy::shake128::<lambda_bytes_times_two>(input.as_slice())
}

/// H_1 over the 2^k_1 leaf commitments of a GGM tree.
pub fn h_1_k1(coms: &[[u8; lambda_bytes_times_two]; k_1_pow]) -> (r: [u8; lambda_bytes_times_two])
    ensures
        r@ == shake128_spec(concat_rows(coms@) + seq![1u8], 32),
{
    let mut input: Vec<u8> = Vec::new();
    append_rows(&mut input, coms.as_slice());
    input.push(0x01u8);
    assert(input@ =~= concat_rows(coms@) + seq![1u8]);
    DigestProxy::shake128::<lambda_bytes_times_two>(input.as_slice())
}

/// H_1 over the concatenated commitments of the tau vector commitments.
pub fn h_1_for_352(coms: &[u8; 352]) -> (r: [u8; lambda_bytes_times_two])
    ensures
        r@ == shake128_spec(coms@ + seq![1u8], 32),
{
    let mut input: Vec<u8> = Vec::new();
    append_slice(&mut input, coms.as_slice());
    input.push(0x01u8);
    assert(input@ =~= coms@ + seq![1u8]);
    DigestProxy::shake128::<lambda_bytes_times_two>(input.as_slice())
}

/// H_1 over the concatenated VOLE hashes of all columns.
pub fn h_1_for_2304(coms: &[u8; h_v_size]) -> (r: [u8; lambda_bytes_times_two])
    ensures
        r@ == shake128_spec(coms@ + seq![1u8], 32),
{
    let mut input: Vec<u8> = Vec::new();
    append_slice(&mut input, coms.as_slice());
    input.push(0x01u8);
    assert(input@ =~= coms@ + seq![1u8]);
    DigestProxy::shake128::<lambda_bytes_times_two>(input.as_slice())
}

/// H_1 of the public key (packed from bits to bytes) and the message: mu.
pub fn h_1_for_sign(pk: ([u8; 128], [u8; 128]), msg: &[u8]) -> (r: [u8; lambda_bytes_times_two])
    requires
        msg@.len() < usize::MAX - 16 * 2 - 1,
    ensures
        r@ == shake128_spec(pack_bits(pk.0@) + pack_bits(pk.1@) + msg@ + seq![1u8], 32),
{
    let mut owf_input = [0u8; 16];
    let mut owf_output = [0u8; 16];
    pack_bits_exec(pk.0.as_slice(), &mut owf_input);
    pack_bits_exec(pk.1.as_slice(), &mut owf_output);
    let mut input: Vec<u8> = Vec::new();
    append_slice(&mut input, owf_input.as_slice());
    append_slice(&mut input, owf_output.as_slice());
    append_slice(&mut input, msg);
    input.push(0x01u8);
    assert(input@ =~= pack_bits(pk.0@) + pack_bits(pk.1@) + msg@ + seq![1u8]);
    DigestProxy::shake128::<32>(input.as_slice())
}

/// H_3: the root key and the iv of the signature from the secret key, mu and rho.
pub fn h_3(sk: [u8; lambda_bytes], my: [u8; lambda_bytes_times_two], rho: [u8; lambda_bytes]) -> (r: ([u8; lambda_bytes], [u8; iv_bytes]))
    ensures
        r.0@ == shake128_spec(sk@ + my@ + rho@ + seq![3u8], 32).subrange(0, 16),
        r.1@ == shake128_spec(sk@ + my@ + rho@ + seq![3u8], 32).subrange(16, 32),
{
    let mut input: Vec<u8> = Vec::new();
    append_slice(&mut input, sk.as_slice());
    append_slice(&mut input, my.as_slice());
    append_slice(&mut input, rho.as_slice());
    input.push(0x03u8);
    assert(input@ =~= sk@ + my@ + rho@ + seq![3u8]);
    let output: [u8; 32] = DigestProxy::shake128::<32>(input.as_slice());
    let mut r = [0u8; lambda_bytes];
    let mut iv = [0u8; iv_bytes];
    let mut i: usize = 0;
    while i < 16
        invariant
            0 <= i <= 16,
            forall|j: int| 0 <= j < i ==> #[trigger] r@[j] == output@[j],
            forall|j: int| 0 <= j < i ==> #[trigger] iv@[j] == output@[16 + j],
        decreases 16 - i,
    {
        r[i] = output[i];
        iv[i] = output[16 + i];
        i = i + 1;
    }
    assert(r@ =~= output@.subrange(0, 16));
    assert(iv@ =~= output@.subrange(16, 32));
    (r, iv)
}

/// H_2, first challenge: from mu, the commitment hash, the correction values and the iv.
pub fn h_2_1(my: [u8; 32], hcom: [u8; 32], cs: &[[u8; 234]; 10], iv: [u8; 16]) -> (r: [u8; 88])
    ensures
        r@ == shake128_spec(my@ + hcom@ + concat_rows(cs@) + iv@ + seq![2u8], 88),
{
    let mut input: Vec<u8> = Vec::new();
    append_slice(&mut input, my.as_slice());
    append_slice(&mut input, hcom.as_slice());
    append_rows(&mut input, cs.as_slice());
    append_slice(&mut input, iv.as_slice());
    input.push(0x02u8);
    assert(input@ =~= my@ + hcom@ + concat_rows(cs@) + iv@ + seq![2u8]);
    DigestProxy::shake128::<88>(input.as_slice())
}

/// H_2, second challenge: from the first challenge, u~, h_V and the masked witness d.
pub fn h_2_2(chall_1: [u8; 88], u_tilde: [u8; 18], h_v: [u8; 32], d: [u8; 200]) -> (r: [u8; 56])
    ensures
        r@ == shake128_spec(chall_1@ + u_tilde@ + h_v@ + d@ + seq![2u8], 56),
{
    let mut input: Vec<u8> = Vec::new();
    append_slice(&mut input, chall_1.as_slice());
    append_slice(&mut input, u_tilde.as_slice());
    append_slice(&mut input, h_v.as_slice());
    append_slice(&mut input, d.as_slice());
    input.push(0x02u8);
    assert(input@ =~= chall_1@ + u_tilde@ + h_v@ + d@ + seq![2u8]);
    DigestProxy::shake128::<56>(input.as_slice())
}

/// H_2, third challenge: from the second challenge and the two proof values.
pub fn h_2_3(chall_2: [u8; 56], a_tilde: [u8; 16], b_tilde: [u8; 16]) -> (r: [u8; 16])
    ensures
        r@ == shake128_spec(chall_2@ + a_tilde@ + b_tilde@ + seq![2u8], 16),
{
    let mut input: Vec<u8> = Vec::new();
    append_slice(&mut input, chall_2.as_slice());
    append_slice(&mut input, a_tilde.as_slice());
    append_slice(&mut input, b_tilde.as_slice());
    input.push(0x02u8);
    assert(input@ =~= chall_2@ + a_tilde@ + b_tilde@ + seq![2u8]);
    DigestProxy::shake128::<16>(input.as_slice())
}

/// Packs the 1600 bits of d into 200 bytes.
pub fn bits_to_bytes_for_d(bits: &[u8; 1600]) -> (bytes: [u8; 200])
    ensures
        bytes@ == pack_bits(bits@),
{
    let mut bytes = [0u8; 200];
    pack_bits_exec(bits.as_slice(), &mut bytes);
    bytes
}

} // verus!
