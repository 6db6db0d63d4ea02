# FAEST-128s in verified Rust

A FAEST-128s signature scheme (VOLE-in-the-head proofs of knowledge of an AES-128 key)
whose library is verified with Verus.

## Layout

- `src/utils/`: fields and helpers. `galois_field.rs` (F_{2^8}, F_{2^64}, F_{2^128} and
  friends), `gf_laws.rs` (field laws: zero, one, commutativity, distributivity),
  `gf28_laws.rs` (the inverse in F_{2^8} is an inverse), `alpha_laws.rs` (alpha is a root of
  the AES polynomial in F_{2^128}), `bc_laws.rs` (ByteCombine carries products in F_{2^8} to
  products in F_{2^128}),
  `gf_assoc.rs` (multiplication in F_{2^128} is shift-and-add, and associative),
  `hash_laws.rs` (VOLEHash and ZKHash are linear, ZKHash is homogeneous, and the QuickSilver
  check identity), the PRG (`prg.rs`), the GGM tree and
  vector commitments (`ggm_tree.rs`, `vector_commit.rs`), the hash functions
  (`hash_functions.rs`, on top of the SHAKE and DRBG calls in `libcrux_proxy.rs`).
- `src/protocols/`: AES, the VOLE commitment and its reconstruction (`fs_vole.rs`), the
  key-expansion and encryption constraints, the extended witness, the QuickSilver prover and
  verifier, key generation, signing and verification, and files of cross-function laws:
  `vole_correlation.rs` (q = v + Delta u for an honest opening), `honest_transcript.rs`
  (the verifier of an honest signature recomputes the signer's challenges, and its corrected
  VOLE rows authenticate the witness bits), `constraint_laws.rs` (with Delta = 0 the
  verifier's constraint values are the prover's A_0; zero tags give zero A_0),
  `constraint_correlation.rs` and `enc_correlation.rs` (on keys q = v + w Delta the
  key-schedule and encryption constraint values are A_0 + Delta A_1 wherever the witness
  satisfies its S-box constraints), `honest_proof.rs` (the verifier recomputes the prover's
  b~, and an honest signature is accepted whenever its witness satisfies each S-box
  constraint) and `keygen_laws.rs` (ExpFwd of a key's witness is its key schedule, key
  generation's checks give every S-box constraint of the witness, and signatures under
  generated keys verify).
- `tests/`: test vectors and sign/verify round trips.
- `app/`: a small program that generates a key, signs a message and verifies it.

Every function in `src/` carries a contract that Verus proves. The outside calls (SHAKE from
`libcrux`, HMAC-DRBG from `libcrux`, operating-system entropy from `rand`) are wrapped in
small trusted functions whose contracts say what those calls return.
