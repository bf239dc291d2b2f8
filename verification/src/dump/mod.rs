//! Decryption of `.ncm` containers.
pub mod decrypt;
pub mod decode;
pub mod dump;
pub mod util;
pub mod container_laws;
