//! Blowfish: key schedule, block transform, byte/block codec, and a password-based
//! encrypt/decrypt facade.
pub mod block;
pub mod cipher;
pub mod codec;
pub mod error;
pub mod schedule;
pub mod tables;

pub use cipher::{decrypt, encrypt};
pub use block::{combine, decrypt_block, encrypt_block, f, quartets, split};
pub use codec::{
    blocks_to_bytes, bytes_to_blocks, pad_and_pack, password_to_key, unpack_and_unpad,
};
pub use error::CipherError;
pub use schedule::{derive_state, generate_arrays, CipherState};
