use bachelor_assurance::protocols::faest_key_gen::faest_key_gen;
use bachelor_assurance::protocols::faest_sign::faest_sign;
use bachelor_assurance::protocols::faest_verify::faest_verify;

#[test]
fn sign_verify_test() {
    let key = [
        201, 162, 240, 157, 17, 221, 199, 249, 177, 157, 68, 52, 44, 101, 110, 159,
    ];
    // wrap in Pk array format: [([u8;128], [u8;128]); beta]
    let pk = [(
        [
            1, 0, 0, 1, 0, 1, 1, 0, 1, 0, 0, 0, 1, 0, 0, 1, 0, 1, 1, 0, 1, 0, 1, 0, 0, 1, 0, 1,
            0, 1, 0, 0, 1, 1, 1, 1, 1, 0, 0, 1, 0, 0, 1, 1, 0, 0, 0, 0, 0, 1, 1, 1, 0, 0, 1, 1,
            1, 0, 0, 1, 0, 1, 1, 0, 0, 1, 1, 1, 0, 0, 0, 1, 0, 1, 0, 0, 0, 0, 0, 1, 0, 0, 1, 1,
            0, 1, 1, 1, 0, 1, 1, 0, 0, 1, 1, 1, 1, 0, 0, 1, 1, 0, 0, 0, 0, 0, 1, 1, 0, 1, 1, 0,
            1, 1, 0, 0, 0, 0, 0, 1, 1, 1, 0, 1, 1, 1, 0, 0,
        ],
        [
            1, 1, 0, 0, 0, 1, 0, 1, 1, 0, 0, 0, 0, 0, 1, 1, 0, 1, 0, 1, 1, 0, 0, 1, 0, 0, 0, 0,
            1, 1, 0, 0, 0, 0, 0, 1, 0, 0, 0, 1, 0, 1, 0, 1, 1, 0, 0, 1, 1, 0, 1, 1, 0, 1, 1, 0,
            1, 1, 1, 1, 0, 0, 1, 1, 1, 0, 1, 0, 1, 1, 1, 1, 0, 0, 1, 1, 0, 0, 0, 1, 0, 0, 0, 0,
            0, 0, 1, 1, 1, 1, 1, 0, 1, 0, 0, 1, 1, 1, 1, 1, 0, 1, 1, 0, 1, 1, 1, 0, 0, 0, 1, 0,
            1, 1, 0, 1, 0, 1, 0, 0, 0, 1, 0, 1, 1, 0, 0, 1,
        ],
    )];

    let msg: &[u8] = b"hello world";
    let sig = faest_sign(msg, &key, &pk).unwrap();

    let test_work = faest_verify(msg, &pk, &sig);
    assert!(test_work);
}

#[test]
fn sign_verify_test_sign_verify_test_random_key() {
    let (key, pk) = faest_key_gen().unwrap();
    let msg: &[u8] = b"hello world";
    let sig = faest_sign(msg, &key, &pk).unwrap();
    let test_work = faest_verify(msg, &pk, &sig);
    assert!(test_work);
}

#[test]
fn yfaest_sign_verify192_sign_verify_test_random_key() {
    let (key, pk) = faest_key_gen().unwrap();
    let msg: &[u8] = b"hello world";
    let sig = faest_sign(msg, &key, &pk).unwrap();
    let test_work = faest_verify(msg, &pk, &sig);
    assert!(test_work);
}

#[test]
fn sign_verify_test_random_multiple() {
    for i in 0..10 {
        let messages: Vec<&[u8]> = vec![
            b"hello world",
            b"the quick brown fox jumps over the lazy dog",
            b"FAEST signature scheme",
            b"post-quantum cryptography",
            b"",
            b"a",
            b"1234567890",
            b"!@#$%^&*()",
            b"the answer is 42",
            b"bachelor assurance project",
        ];
        let (key, pk) = faest_key_gen().unwrap();
        let msg: &[u8] = messages[i];
        let sig = faest_sign(msg, &key, &pk).unwrap();
        let test_work = faest_verify(msg, &pk, &sig);
        assert!(test_work);
    }
}
