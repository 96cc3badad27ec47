//! The errors of the cipher facade.
use vstd::prelude::*;

verus! {

/// Why an encryption or a decryption was refused.
#[derive(Debug, Clone, Copy, PartialEq, Eq, Structural)]
pub enum CipherError {
    /// The password is empty or longer than 56 bytes.
    InvalidPasswordLength,
    /// The ciphertext length is not a positive multiple of 8.
    InvalidLength,
    /// The decrypted padding is out of range or inconsistent: a wrong password or
    /// corrupted input.
    MalformedPadding,
}

} // verus!
