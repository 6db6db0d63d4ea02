//! FAEST-128s post-quantum signatures: AES, binary-field arithmetic,
//! GGM-tree vector commitments, VOLE conversion and the VOLE-in-the-head
//! zero-knowledge proof of AES knowledge.

pub mod utils;
pub mod protocols;
