use vstd::prelude::*;
use crate::utils::constants::lambda_bytes;
use libcrux::algorithms::hmac_drbg::HmacDrbgSha256;

verus! {

/// The SHAKE128 output (FIPS 202) of `input`, asked for with length `out_len`.
pub uninterp spec fn shake128_output(input: Seq<u8>, out_len: nat) -> Seq<u8>;

/// The SHAKE256 output (FIPS 202) of `input`, asked for with length `out_len`.
pub uninterp spec fn shake256_output(input: Seq<u8>, out_len: nat) -> Seq<u8>;

/// The first `out_len` bytes of SHAKE128 on `input`.
pub open spec fn shake128_spec(input: Seq<u8>, out_len: nat) -> Seq<u8> {
    Seq::new(out_len, |i: int| shake128_output(input, out_len)[i])
}

/// The first `out_len` bytes of SHAKE256 on `input`.
pub open spec fn shake256_spec(input: Seq<u8>, out_len: nat) -> Seq<u8> {
    Seq::new(out_len, |i: int| shake256_output(input, out_len)[i])
}

/// Calls `libcrux::algorithms::sha3::shake128::<LEN>`; its result is the SHAKE128
/// output of `input` of length `LEN`, a function of the input and the length alone.
#[verifier::external_body]
fn shake128_call<const LEN: usize>(input: &[u8]) -> (r: [u8; LEN])
    requires
        LEN <= u32::MAX,
    ensures
        r@ == shake128_output(input@, LEN as nat),
{
    libcrux::algorithms::sha3::shake128::<LEN>(input)
}

/// Calls `libcrux::algorithms::sha3::shake256::<LEN>`; its result is the SHAKE256
/// output of `input` of length `LEN`, a function of the input and the length alone.
#[verifier::external_body]
fn shake256_call<const LEN: usize>(input: &[u8]) -> (r: [u8; LEN])
    requires
        LEN <= u32::MAX,
    ensures
        r@ == shake256_output(input@, LEN as nat),
{
    libcrux::algorithms::sha3::shake256::<LEN>(input)
}

/// Fills `dest` from the operating system's random source through
/// `rand::rngs::SysRng::try_fill_bytes` (getrandom's `fill`), which reports a failure of the
/// source instead of panicking. The bytes, and whether the source delivers, depend on the
/// machine; only that the length is kept is stated.
#[verifier::external_body]
fn os_entropy(dest: &mut [u8]) -> (ok: bool)
    ensures
        final(dest)@.len() == old(dest)@.len(),
{
    rand::TryRng::try_fill_bytes(&mut rand::rngs::SysRng, dest).is_ok()
}

/// Calls `HmacDrbgSha256::new(entropy, nonce, personalization)` with an empty
/// personalization string. Its source (health tests off) refuses entropy shorter than 32
/// bytes (`MIN_ENTROPY_BYTES`) and HMAC inputs longer than `u32::MAX` bytes, and succeeds
/// otherwise; it is stated that 32 to 64 bytes of entropy with a nonce of at most 32 bytes
/// succeed. The state it builds depends on the entropy and is not stated.
#[verifier::external_body]
fn drbg_instantiate(entropy: &[u8], nonce: &[u8]) -> (r: Option<Drbg>)
    ensures
        32 <= entropy@.len() <= 64 && nonce@.len() <= 32 ==> r is Some,
{
    match HmacDrbgSha256::new(entropy, nonce, &[]) {
        Ok(d) => Some(Drbg { inner: d }),
        Err(_) => None,
    }
}

/// Calls `HmacDrbgSha256::generate(output, &[])`, which fills `output` with pseudorandom
/// bytes. Its source returns an error whenever `output` exceeds 65536 bytes
/// (`MAX_GENERATE_BYTES`), and otherwise also when a reseed is due or a health test has
/// failed; those depend on the generator's state, and the bytes on its seed, so beyond the
/// length and the refusal of long outputs nothing is stated.
#[verifier::external_body]
fn drbg_generate(d: &mut Drbg, output: &mut [u8]) -> (ok: bool)
    ensures
        final(output)@.len() == old(output)@.len(),
        old(output)@.len() > 65536 ==> !ok,
{
    d.inner.generate(output, &[]).is_ok()
}

/// Hash algorithms a DRBG can be built on.
#[derive(Clone, Copy)]
pub enum Algorithm {
    Sha256,
}

/// A deterministic random bit generator seeded from the operating system: libcrux's
/// HMAC-DRBG over SHA-256, held opaque (its type names a parameter from a private
/// module of libcrux, so it cannot be declared to Verus).
#[verifier::external_body]
pub struct Drbg {
    inner: HmacDrbgSha256,
}

/// Why a random generator could not deliver.
#[derive(Clone, Copy, Debug, PartialEq, Eq, Structural)]
pub enum DrbgError {
    InstantiationFailed,
    GenerationFailed,
}

/// Sources of random bytes.
pub trait RngCore {
    fn fill_bytes(&mut self, dest: &mut [u8]) -> (r: Result<(), DrbgError>)
        ensures
            final(dest)@.len() == old(dest)@.len(),
    ;
}

impl Drbg {
    /// A new generator seeded with 32 bytes of operating-system entropy and a 16-byte nonce;
    /// it fails only where the operating system's random source does.
    pub fn new(alg: Algorithm) -> (r: Result<Self, DrbgError>)
        ensures
            r is Err ==> r->Err_0 == DrbgError::InstantiationFailed,
    {
        let mut entropy = [0u8; 32];
        let mut nonce = [0u8; 16];
        if !os_entropy(&mut entropy) || !os_entropy(&mut nonce) {
            return Err(DrbgError::InstantiationFailed);
        }
        match alg {
            Algorithm::Sha256 => Drbg::from_seed(&entropy, &nonce),
        }
    }

    /// A generator instantiated from the given 32 bytes of entropy and 16-byte nonce; with
    /// entropy of that length instantiation always succeeds.
    pub fn from_seed(entropy: &[u8; 32], nonce: &[u8; 16]) -> (r: Result<Self, DrbgError>)
        ensures
            r is Ok,
    {
        match drbg_instantiate(entropy.as_slice(), nonce.as_slice()) {
            Some(d) => Ok(d),
            None => Err(DrbgError::InstantiationFailed),
        }
    }

    /// Fills `out` with pseudorandom bytes; more than 65536 bytes at once are refused.
    pub fn generate(&mut self, out: &mut [u8]) -> (r: Result<(), DrbgError>)
        ensures
            final(out)@.len() == old(out)@.len(),
            r is Err ==> r->Err_0 == DrbgError::GenerationFailed,
            old(out)@.len() > 65536 ==> r is Err,
    {
        if drbg_generate(self, out) {
            Ok(())
        } else {
            Err(DrbgError::GenerationFailed)
        }
    }
}

impl RngCore for Drbg {
    /// Fills `dest` with pseudorandom bytes, as `generate` does.
    fn fill_bytes(&mut self, dest: &mut [u8]) -> (r: Result<(), DrbgError>)
        ensures
            r is Err ==> r->Err_0 == DrbgError::GenerationFailed,
            old(dest)@.len() > 65536 ==> r is Err,
    {
        self.generate(dest)
    }
}

/// The random generator used by key generation and signing.
pub struct RandGenProxy {
    rand_gen: Drbg,
}

impl RandGenProxy {
    /// A generator over HMAC-DRBG with SHA-256.
    pub fn get_rand_gen_sha256() -> (r: Result<Self, DrbgError>)
        ensures
            r is Err ==> r->Err_0 == DrbgError::InstantiationFailed,
    {
        match Drbg::new(Algorithm::Sha256) {
            Ok(rand_gen) => Ok(RandGenProxy { rand_gen }),
            Err(e) => Err(e),
        }
    }

    /// Fills a lambda-byte key with random bytes.
    pub fn fill_bytes(&mut self, key: &mut [u8; lambda_bytes]) -> (r: Result<(), DrbgError>)
        ensures
            r is Err ==> r->Err_0 == DrbgError::GenerationFailed,
    {
        let mut buf = [0u8; lambda_bytes];
        let res = self.rand_gen.generate(&mut buf);
        *key = buf;
        res
    }

    /// Fills a 16-byte plaintext block with random bytes.
    pub fn fill_bytes_plaintext(&mut self, key: &mut [u8; 16]) -> (r: Result<(), DrbgError>)
        ensures
            r is Err ==> r->Err_0 == DrbgError::GenerationFailed,
    {
        let mut buf = [0u8; 16];
        let res = self.rand_gen.generate(&mut buf);
        *key = buf;
        res
    }

    /// Draws lambda random bytes into a copy of `rand_bytes`; the caller's array is unchanged.
    pub fn generate(&mut self, rand_bytes: [u8; lambda_bytes]) -> (r: Result<(), DrbgError>)
        ensures
            r is Err ==> r->Err_0 == DrbgError::GenerationFailed,
    {
        let mut rand_bytes = rand_bytes;
        self.rand_gen.generate(&mut rand_bytes)
    }
}

/// The hash functions of the scheme.
pub struct DigestProxy;

impl DigestProxy {
    /// SHAKE128 of `input`, `LEN` bytes of output.
    pub fn shake128<const LEN: usize>(input: &[u8]) -> (r: [u8; LEN])
        requires
            LEN <= u32::MAX,
        ensures
            r@ == shake128_spec(input@, LEN as nat),
    {
        let r = shake128_call::<LEN>(input);
        assert(r@ =~= shake128_spec(input@, LEN as nat));
        r
    }

    /// SHAKE256 of `input`, `LEN` bytes of output.
    pub fn shake256<const LEN: usize>(input: &[u8]) -> (r: [u8; LEN])
        requires
            LEN <= u32::MAX,
        ensures
            r@ == shake256_spec(input@, LEN as nat),
    {
        let r = shake256_call::<LEN>(input);
        assert(r@ =~= shake256_spec(input@, LEN as nat));
        r
    }
}

} // verus!
