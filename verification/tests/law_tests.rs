use bachelor_assurance::utils::helper_methods_cstrnts::{byte_combine, byte_to_bits};
use bachelor_assurance::utils::types::{ByteArray, ByteOrBytesArray};
use bachelor_assurance::utils::constants::alpha;
use bachelor_assurance::protocols::faest_key_gen::faest_key_gen;
use bachelor_assurance::protocols::faest_sign::faest_sign;
use bachelor_assurance::protocols::faest_verify::faest_verify;
use bachelor_assurance::utils::galois_field::{gf128_mul, gf28_inverse, gf28_multiply, gf64_mul, gf_lambda_mul, gf_lambda_pow};
use bachelor_assurance::utils::helper_methods_for_sign::vole_hash;
use bachelor_assurance::utils::helper_methods_prove_verify::{gf_lambda_mul_64, zk_hash};
use bachelor_assurance::utils::ggm_tree::{get_cop, get_leaves_from_cop_and_b, get_leaves_node_from_root};
use bachelor_assurance::utils::libcrux_proxy::Drbg;

fn pattern<const N: usize>(seed: u8) -> [u8; N] {
    let mut out = [0u8; N];
    let mut x: u8 = seed;
    for b in out.iter_mut() {
        x = x.wrapping_mul(37).wrapping_add(11);
        *b = x;
    }
    out
}

fn xor<const N: usize>(a: &[u8; N], b: &[u8; N]) -> [u8; N] {
    let mut out = [0u8; N];
    for i in 0..N {
        out[i] = a[i] ^ b[i];
    }
    out
}

#[test]
fn gf128_mul_is_commutative() {
    let a: [u8; 16] = pattern(1);
    let b: [u8; 16] = pattern(2);
    assert_eq!(gf128_mul(&a, &b), gf128_mul(&b, &a));
}

#[test]
fn gf128_mul_distributes() {
    let a: [u8; 16] = pattern(3);
    let b: [u8; 16] = pattern(4);
    let c: [u8; 16] = pattern(5);
    assert_eq!(gf128_mul(&xor(&a, &b), &c), xor(&gf128_mul(&a, &c), &gf128_mul(&b, &c)));
    assert_eq!(gf128_mul(&c, &xor(&a, &b)), xor(&gf128_mul(&c, &a), &gf128_mul(&c, &b)));
}

#[test]
fn gf128_mul_by_zero_and_one() {
    let a: [u8; 16] = pattern(6);
    let mut one = [0u8; 16];
    one[0] = 1;
    assert_eq!(gf128_mul(&a, &one), a);
    assert_eq!(gf128_mul(&a, &[0u8; 16]), [0u8; 16]);
}

#[test]
fn gf64_mul_distributes() {
    let a: [u8; 8] = pattern(7);
    let b: [u8; 8] = pattern(8);
    let c: [u8; 8] = pattern(9);
    assert_eq!(gf64_mul(&xor(&a, &b), &c), xor(&gf64_mul(&a, &c), &gf64_mul(&b, &c)));
}

#[test]
fn gf_lambda_mul_64_distributes() {
    let a: [u8; 16] = pattern(10);
    let b: [u8; 16] = pattern(11);
    let c: [u8; 8] = pattern(12);
    assert_eq!(gf_lambda_mul_64(&xor(&a, &b), &c), xor(&gf_lambda_mul_64(&a, &c), &gf_lambda_mul_64(&b, &c)));
}

#[test]
fn vole_hash_is_linear() {
    let sd: [u8; 88] = pattern(13);
    let x0: [u8; 216] = pattern(14);
    let y0: [u8; 216] = pattern(15);
    let x1: [u8; 18] = pattern(16);
    let y1: [u8; 18] = pattern(17);
    let sum = vole_hash(&sd, &xor(&x0, &y0), &xor(&x1, &y1));
    assert_eq!(sum, xor(&vole_hash(&sd, &x0, &x1), &vole_hash(&sd, &y0, &y1)));
}

#[test]
fn zk_hash_is_linear() {
    let sd: [u8; 56] = pattern(18);
    let x0: Vec<[u8; 16]> = (0..5u8).map(|i| pattern(20 + i)).collect();
    let y0: Vec<[u8; 16]> = (0..5u8).map(|i| pattern(40 + i)).collect();
    let s0: Vec<[u8; 16]> = x0.iter().zip(y0.iter()).map(|(a, b)| xor(a, b)).collect();
    let x1: [u8; 16] = pattern(60);
    let y1: [u8; 16] = pattern(61);
    let sum = zk_hash(&sd, &s0, &xor(&x1, &y1));
    assert_eq!(sum, xor(&zk_hash(&sd, &x0, &x1), &zk_hash(&sd, &y0, &y1)));
}

#[test]
fn verify_rejects_changed_message() {
    let (key, pk) = faest_key_gen().unwrap();
    let sig = faest_sign(b"hello world", &key, &pk).unwrap();
    assert!(faest_verify(b"hello world", &pk, &sig));
    assert!(!faest_verify(b"hello worle", &pk, &sig));
}

#[test]
fn gf128_mul_is_associative() {
    let a: [u8; 16] = pattern(70);
    let b: [u8; 16] = pattern(71);
    let c: [u8; 16] = pattern(72);
    assert_eq!(gf128_mul(&gf128_mul(&a, &b), &c), gf128_mul(&a, &gf128_mul(&b, &c)));
}

#[test]
fn gf128_mul_by_x_shifts() {
    // x * (x^127) = x^128 = x^7 + x^2 + x + 1
    let mut x = [0u8; 16];
    x[0] = 2;
    let mut top = [0u8; 16];
    top[15] = 0x80;
    let mut expected = [0u8; 16];
    expected[0] = 0x87;
    assert_eq!(gf128_mul(&top, &x), expected);
}

#[test]
fn zk_hash_is_homogeneous() {
    let sd: [u8; 56] = pattern(80);
    let d: [u8; 16] = pattern(81);
    let x0: Vec<[u8; 16]> = (0..4u8).map(|i| pattern(90 + i)).collect();
    let x1: [u8; 16] = pattern(99);
    let scaled: Vec<[u8; 16]> = x0.iter().map(|x| gf128_mul(&d, x)).collect();
    let lhs = zk_hash(&sd, &scaled, &gf128_mul(&d, &x1));
    assert_eq!(lhs, gf128_mul(&d, &zk_hash(&sd, &x0, &x1)));
}

#[test]
fn gf28_inverse_is_inverse() {
    for a in 1..=255u8 {
        assert_eq!(gf28_multiply(a, gf28_inverse(a)), 1);
    }
    assert_eq!(gf28_inverse(0), 0);
}

#[test]
fn vole_hash_takes_h1_over_the_input_chunks() {
    // r1 = 1 and t = x; everything else zero. The last 8-byte chunk of x0 is 5, so h1 = 5
    // (the last chunk is not multiplied by t) and the hash is r1 * h1 = 5.
    let mut sd = [0u8; 88];
    sd[16] = 1;
    sd[80] = 2;
    let mut x0 = [0u8; 216];
    x0[208] = 5;
    let x1 = [0u8; 18];
    let mut expected = [0u8; 18];
    expected[0] = 5;
    assert_eq!(vole_hash(&sd, &x0, &x1), expected);
}

#[test]
fn gf_lambda_pow_exponents_add() {
    let a: [u8; 16] = pattern(9);
    assert_eq!(gf_lambda_pow(&a, 7), gf_lambda_mul(&gf_lambda_pow(&a, 3), &gf_lambda_pow(&a, 4)));
    assert_eq!(gf_lambda_pow(&a, 5), gf_lambda_mul(&gf_lambda_pow(&a, 0), &gf_lambda_pow(&a, 5)));
}

#[test]
fn gf_lambda_mul_64_is_zero_extended_mul() {
    let a: [u8; 16] = pattern(3);
    let b: [u8; 8] = pattern(11);
    let mut bx = [0u8; 16];
    bx[..8].copy_from_slice(&b);
    assert_eq!(gf_lambda_mul_64(&a, &b), gf_lambda_mul(&a, &bx));
}

#[test]
fn leaves_from_cop_are_tree_leaves() {
    let r: [u8; 16] = pattern(5);
    let iv: [u8; 16] = pattern(6);
    let b: u64 = 5;
    let cop = get_cop::<4>(r, iv, b);
    let leaves = get_leaves_node_from_root::<16>(&r, iv, 4);
    let rebuilt = get_leaves_from_cop_and_b::<4, 16>(&cop, iv, b);
    for i in 0..16 {
        if i == b as usize {
            assert!(rebuilt[i].is_none());
        } else {
            assert_eq!(rebuilt[i], Some(leaves[i]));
        }
    }
}

#[test]
fn drbg_from_seed_instantiates() {
    let entropy = [7u8; 32];
    let nonce = [9u8; 16];
    assert!(Drbg::from_seed(&entropy, &nonce).is_ok());
}

#[test]
fn byte_combine_is_multiplicative() {
    let bc = |x: u8| byte_combine(ByteOrBytesArray::Byte(ByteArray(byte_to_bits(x))));
    for a in 0..=255u8 {
        for b in [0u8, 1, 2, 3, 0x1b, 0x53, 0xca, 0xff] {
            assert_eq!(bc(gf28_multiply(a, b)), gf128_mul(&bc(a), &bc(b)));
        }
    }
    let mut one = [0u8; 16];
    one[0] = 1;
    assert_eq!(bc(1), one);
}

#[test]
fn alpha_is_a_root_of_the_aes_polynomial() {
    let mut one = [0u8; 16];
    one[0] = 1;
    let rhs = xor(&xor(&xor(&one, &alpha), &gf_lambda_pow(&alpha, 3)), &gf_lambda_pow(&alpha, 4));
    assert_eq!(gf_lambda_pow(&alpha, 8), rhs);
}
