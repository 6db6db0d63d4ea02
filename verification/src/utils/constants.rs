#![allow(non_snake_case, non_upper_case_globals)]

use vstd::prelude::*;

verus! {

// Base parameters of FAEST-128s.
pub const LAMBDA: usize = 128;

pub const tau: usize = 11;

pub const ell: usize = 1600;

pub const iv_bytes: usize = 16;

// AES one-way-function parameters derived from LAMBDA.
pub const nk: usize = LAMBDA / 32;

pub const nst: usize = 4;

pub const R: usize = nk + 6;

pub const beta: usize = 1;

/// Number of S-boxes in the key schedule: 56 - lambda/8 + 28 * (lambda / 256).
pub const S_ke: usize = 40;

pub const s_enc: usize = 160;

pub const l_ke: usize = 448;

pub const l_enc: usize = 1152;

pub const big_C: usize = 200;

// VOLE parameters derived from LAMBDA and tau.
pub const k_0: usize = 12;

pub const k_1: usize = 11;

pub const tau_0: usize = 7;

pub const tau_1: usize = 4;

pub const k_0_pow: usize = 4096;

pub const k_1_pow: usize = 2048;

// Size parameters.
pub const big_b: usize = 16;

pub const lambda_bytes: usize = 16;

pub const ell_hat: usize = 1872;

pub const ell_hat_bytes: usize = 234;

pub const x0_bytes: usize = 216;

pub const x1_bytes: usize = 18;

pub const h_v_size: usize = 2304;

pub const ell_plus_lambda: usize = 1728;

// Challenge sizes.
pub const chall1_bytes: usize = 88;

pub const chall2_bytes: usize = 56;

pub const chall3_bytes: usize = 16;

pub const tau_minus_one: usize = 10;

/// When set, signing draws the randomness rho from the random generator instead
/// of using the fixed value of the deterministic test vectors.
pub const not_deterministic_test: bool = false;

// Sizes of the expanded-key and key-schedule S-box vectors.
pub const ret_size_exp_fwd: usize = 1408;

pub const ret_size_exp_bwd: usize = 320;

pub const lambda_plus_iv: usize = 32;

pub const lambda_bytes_times_three: usize = 48;

pub const lambda_bytes_times_two: usize = 32;

pub const key_schedule_bits: usize = 1408;

pub const aes_block_bits: usize = 128;

pub const l_ke_minus_lambda: usize = 320;

pub const w_lambda_size: usize = 1472;

pub const w_enc_start: usize = 448;

pub const w_enc_size: usize = 1152;

pub const ell_bytes: usize = 200;

pub const x0_padded_lambda_size: usize = 224;

pub const x0_padded_64_size: usize = 216;

pub const num_chunks_lambda: usize = 14;

pub const num_chunks_64: usize = 27;

/// Number of VOLE columns over all tau instances: tau_0 * k_0 + tau_1 * k_1.
pub const vole_columns: usize = 128;

/// Expanded AES key in words: 4 * (R + 1).
pub const expanded_key_words: usize = 44;

/// Expanded AES key in bytes: 16 * (R + 1).
pub const expanded_key_bytes: usize = 176;

/// Byte length of the concatenated commitments of all tau instances.
pub const tau_coms_bytes: usize = 352;

/// The generator alpha of F_{2^8} embedded in F_{2^128} (FAEST spec, Appendix A).
pub const alpha: [u8; 16] = [
    0x0d, 0xce, 0x60, 0x55, 0xac, 0xe8, 0x3f, 0xa1, 0x1c, 0x9a, 0x97, 0xa9, 0x55, 0x85, 0x3d, 0x05,
];

/// Spec view of the generator alpha.
pub open spec fn alpha_spec() -> Seq<u8> {
    seq![0x0du8, 0xce, 0x60, 0x55, 0xac, 0xe8, 0x3f, 0xa1, 0x1c, 0x9a, 0x97, 0xa9, 0x55, 0x85, 0x3d, 0x05]
}

/// Returns the generator alpha of F_{2^8} inside F_{2^lambda}.
pub fn get_alpha() -> (res: [u8; lambda_bytes])
    ensures
        res@ == alpha_spec(),
{
    let res: [u8; lambda_bytes] = [
        0x0d, 0xce, 0x60, 0x55, 0xac, 0xe8, 0x3f, 0xa1, 0x1c, 0x9a, 0x97, 0xa9, 0x55, 0x85, 0x3d, 0x05,
    ];
    assert(res@ =~= alpha_spec());
    res
}

} // verus!
