pub mod aes;
pub mod fs_vole;
pub mod faest_key_exp_cstrnts;
pub mod faest_key_enc_cstrnts;
pub mod faest_aes_extended_witness;
pub mod faest_prove_and_verify;
pub mod faest_sign;
pub mod faest_verify;
pub mod faest_key_gen;
pub mod vole_correlation;
pub mod honest_transcript;
pub mod constraint_laws;
pub mod honest_proof;
pub mod constraint_correlation;
pub mod enc_correlation;
pub mod keygen_laws;
