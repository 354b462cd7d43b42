//! The cryptographic primitives this library builds on: scrypt for key
//! derivation, the XSalsa20-Poly1305 secret box for authenticated encryption,
//! and the operating system's random generator.

use crate::secret::{secret_bytes, SecretBytes};
use crypto_secretbox::aead::{Aead, KeyInit};
use crypto_secretbox::{Key, Nonce, XSalsa20Poly1305};
use rand::rngs::OsRng;
use rand::RngCore;
use vstd::arithmetic::power2::pow2;
use vstd::prelude::*;
use zeroize::Zeroizing;

verus! {

/// Length of a derived key, in bytes.
pub const KEY_LEN: usize = 32;

/// Length of the secret box's authentication tag, in bytes.
pub const TAG_LEN: usize = 16;

/// Length of a secret-box nonce, in bytes.
pub const BOX_NONCE_LEN: usize = 24;

/// The error of crypto_secretbox's `Aead` operations, carried as an opaque value.
#[verifier::external_type_specification]
#[verifier::external_body]
pub struct ExAeadError(crypto_secretbox::aead::Error);

/// The error of rand's generators, carried as an opaque value.
#[verifier::external_type_specification]
#[verifier::external_body]
pub struct ExRandError(rand::Error);

/// The 32-byte key that scrypt derives from a passphrase and a salt at the
/// cost `2^log_n`, block size `r` and parallelism `p`.
pub uninterp spec fn scrypt_key(passphrase: Seq<u8>, salt: Seq<u8>, log_n: u8, r: u32, p: u32) -> Seq<
    u8,
>;

/// What sealing `plaintext` under `key` and `nonce` gives: tag, then ciphertext.
pub uninterp spec fn sealed_box(key: Seq<u8>, nonce: Seq<u8>, plaintext: Seq<u8>) -> Seq<u8>;

/// What opening `sealed` under `key` and `nonce` gives: the plaintext, or
/// nothing when authentication fails.
pub uninterp spec fn opened_box(key: Seq<u8>, nonce: Seq<u8>, sealed: Seq<u8>) -> Option<Seq<u8>>;

/// Cost parameters that pass the checks of scrypt's `Params::new` for a
/// 32-byte key: positive `r` and `p`, `2^log_n * r * 128` and `p * r * 128`
/// within `usize`, `log_n < 16 * r`, and `r * p < 2^30`.
pub open spec fn scrypt_cost_accepted(log_n: u8, r: u32, p: u32) -> bool {
    &&& 0 < r
    &&& 0 < p
    &&& pow2(log_n as nat) * r * 128 <= usize::MAX
    &&& p * r * 128 <= usize::MAX
    &&& (log_n as int) < 16 * r
    &&& r * p < 0x4000_0000
}

/// Relies on scrypt::Params::new, which builds the parameters for a 32-byte
/// output whenever `scrypt_cost_accepted` holds, and on scrypt::scrypt, which
/// then succeeds (32 is within its output lengths) and fills the key from
/// passphrase, salt and parameters alone. The key is written straight into a
/// wiping buffer.
#[verifier::external_body]
pub(crate) fn scrypt_derive(passphrase: &[u8], salt: &[u8], log_n: u8, r: u32, p: u32) -> (res:
    Option<SecretBytes>)
    ensures
        scrypt_cost_accepted(log_n, r, p) ==> res is Some,
        res matches Some(k) ==> secret_bytes(k) == scrypt_key(passphrase@, salt@, log_n, r, p)
            && secret_bytes(k).len() == KEY_LEN,
{
    let params = scrypt::Params::new(log_n, r, p, KEY_LEN).ok()?;
    let mut key = Zeroizing::new(vec![0u8; KEY_LEN]);
    scrypt::scrypt(passphrase, salt, &params, &mut key).ok()?;
    Some(SecretBytes { bytes: key })
}

/// Relies on crypto_secretbox's XSalsa20Poly1305 (`KeyInit::new`, then
/// `Aead::encrypt` without associated data): it cannot fail then; it returns
/// the 16-byte tag followed by the ciphertext, which depends on key, nonce and
/// plaintext alone; and opening it under the same key and nonce gives the
/// plaintext back.
#[verifier::external_body]
pub(crate) fn secretbox_seal(key: &SecretBytes, nonce: &[u8], plaintext: &[u8]) -> (r: Result<
    Vec<u8>,
    crypto_secretbox::aead::Error,
>)
    requires
        secret_bytes(*key).len() == KEY_LEN,
        nonce@.len() == BOX_NONCE_LEN,
    ensures
        r is Ok,
        r matches Ok(c) ==> {
            &&& c@ == sealed_box(secret_bytes(*key), nonce@, plaintext@)
            &&& c@.len() == plaintext@.len() + TAG_LEN
            &&& opened_box(secret_bytes(*key), nonce@, c@) == Some(plaintext@)
        },
{
    XSalsa20Poly1305::new(Key::from_slice(&key.bytes)).encrypt(Nonce::from_slice(nonce), plaintext)
}

/// Relies on crypto_secretbox's XSalsa20Poly1305 (`KeyInit::new`, then
/// `Aead::decrypt` without associated data): it succeeds exactly when the tag
/// in front authenticates the ciphertext after it, and then returns the
/// plaintext, which seals back to exactly the bytes given (sealing is
/// deterministic and the tag was checked equal).
#[verifier::external_body]
pub(crate) fn secretbox_open(key: &SecretBytes, nonce: &[u8], sealed: &[u8]) -> (r: Result<
    Vec<u8>,
    crypto_secretbox::aead::Error,
>)
    requires
        secret_bytes(*key).len() == KEY_LEN,
        nonce@.len() == BOX_NONCE_LEN,
    ensures
        match r {
            Ok(p) => {
                &&& opened_box(secret_bytes(*key), nonce@, sealed@) == Some(p@)
                &&& sealed_box(secret_bytes(*key), nonce@, p@) == sealed@
            },
            Err(_) => opened_box(secret_bytes(*key), nonce@, sealed@) is None,
        },
{
    XSalsa20Poly1305::new(Key::from_slice(&key.bytes)).decrypt(Nonce::from_slice(nonce), sealed)
}

/// Relies on rand's OsRng::try_fill_bytes: the operating system's generator
/// fills the array, or reports why it could not.
#[verifier::external_body]
pub(crate) fn os_random<const N: usize>() -> (r: Result<[u8; N], rand::Error>) {
    let mut bytes = [0u8; N];
    OsRng.try_fill_bytes(&mut bytes)?;
    Ok(bytes)
}

} // verus!
