//! Secret bytes held in a buffer that is wiped when dropped.

use vstd::prelude::*;
use zeroize::Zeroizing;

verus! {

/// Secret bytes (a passphrase, a derived key) in a buffer that is overwritten
/// when dropped.
#[derive(Debug)]
#[verifier::external_body]
pub struct SecretBytes {
    pub(crate) bytes: Zeroizing<Vec<u8>>,
}

/// The bytes a secret buffer holds.
pub uninterp spec fn secret_bytes(s: SecretBytes) -> Seq<u8>;

impl SecretBytes {
    /// Relies on zeroize's `Zeroizing::new`: the buffer holds the given bytes
    /// and wipes them when dropped.
    #[verifier::external_body]
    pub fn new(bytes: Vec<u8>) -> (r: SecretBytes)
        ensures
            secret_bytes(r) == bytes@,
    {
        SecretBytes { bytes: Zeroizing::new(bytes) }
    }

    /// Relies on the `Deref` of zeroize's `Zeroizing`: the bytes held.
    #[verifier::external_body]
    pub fn as_bytes(&self) -> (r: &[u8])
        ensures
            r@ == secret_bytes(*self),
    {
        self.bytes.as_slice()
    }

    /// Relies on the `Clone` of zeroize's `Zeroizing`: a second wiping buffer
    /// with the same bytes.
    #[verifier::external_body]
    pub(crate) fn duplicate(&self) -> (r: SecretBytes)
        ensures
            secret_bytes(r) == secret_bytes(*self),
    {
        SecretBytes { bytes: self.bytes.clone() }
    }
}

} // verus!
