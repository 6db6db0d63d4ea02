pub mod constants;
pub mod types;
pub mod math;
pub mod galois_field;
pub mod preliminary_helper_methods;
pub mod helper_methods_cstrnts;
pub mod libcrux_proxy;
pub mod hash_functions;
pub mod prg;
pub mod ggm_tree;
pub mod vector_commit;
pub mod helper_methods_prove_verify;
pub mod slices;
pub mod helper_methods_for_sign;
pub mod gf_laws;
pub mod hash_laws;
pub mod gf_assoc;
pub mod gf28_laws;
pub mod alpha_laws;
pub mod bc_laws;
