//! Passphrase-based encryption into the binary envelope, and back.

use crate::envelope::{
    decode, encode, envelope_bytes, envelope_fault, envelope_fault_message, lemma_decode_encode,
    length_field, HEADER_LEN, NONCE_LEN, SALT_LEN,
};
use crate::error::{ErrorCategory, ErrorKind, SaltyboxError};
use crate::primitives::{
    opened_box, os_random, scrypt_cost_accepted, scrypt_derive, scrypt_key, sealed_box,
    secretbox_open, secretbox_seal, KEY_LEN, TAG_LEN,
};
use crate::secret::{secret_bytes, SecretBytes};
use vstd::arithmetic::power2::lemma2_to64;
use vstd::prelude::*;

verus! {

/// log2 of scrypt's CPU/memory cost `N` (`N = 32768`); part of the format.
pub const SCRYPT_LOG_N: u8 = 15;

/// scrypt's block size `r`; part of the format.
pub const SCRYPT_R: u32 = 8;

/// scrypt's parallelism `p`; part of the format.
pub const SCRYPT_P: u32 = 1;

/// The key derived from a passphrase and a salt at the format's fixed cost.
pub open spec fn derived_key(passphrase: Seq<u8>, salt: Seq<u8>) -> Seq<u8> {
    scrypt_key(passphrase, salt, SCRYPT_LOG_N, SCRYPT_R, SCRYPT_P)
}

/// The envelope that encrypting `plaintext` under `passphrase` with the given
/// salt and nonce produces.
pub open spec fn encryption_of(
    passphrase: Seq<u8>,
    plaintext: Seq<u8>,
    salt: Seq<u8>,
    nonce: Seq<u8>,
) -> Seq<u8> {
    envelope_bytes(salt, nonce, sealed_box(derived_key(passphrase, salt), nonce, plaintext))
}

/// What decrypting the envelope `data` with `passphrase` gives: the plaintext,
/// or the kind of the error (a structural one first, else a failed
/// authentication).
pub open spec fn decrypt_outcome(passphrase: Seq<u8>, data: Seq<u8>) -> Result<Seq<u8>, ErrorKind> {
    match envelope_fault(data) {
        Some(k) => Err(k),
        None => match opened_box(
            derived_key(passphrase, data.subrange(0, SALT_LEN as int)),
            data.subrange(SALT_LEN as int, SALT_LEN + NONCE_LEN),
            data.subrange(HEADER_LEN as int, data.len() as int),
        ) {
            Some(p) => Ok(p),
            None => Err(ErrorKind::AuthenticationFailed),
        },
    }
}

/// Decrypting the envelope `data` with `passphrase` gives `plaintext`.
pub open spec fn decrypts_to(passphrase: Seq<u8>, data: Seq<u8>, plaintext: Seq<u8>) -> bool {
    decrypt_outcome(passphrase, data) == Ok::<Seq<u8>, ErrorKind>(plaintext)
}

/// The envelope `data` has the size an encryption of `plaintext` has: the
/// plaintext, its 16-byte tag and the 40-byte header; its length field gives
/// the sealed payload's size whenever that fits the largest buffer.
pub open spec fn encryption_sized(plaintext: Seq<u8>, data: Seq<u8>) -> bool {
    &&& data.len() == plaintext.len() + HEADER_LEN + TAG_LEN
    &&& plaintext_fits(plaintext) ==> length_field(data) == plaintext.len() + TAG_LEN
}

/// The failure of a decryption of `data` under `passphrase`, as `decrypt`
/// reports it: the kind of `decrypt_outcome`, a user error, and the message of
/// the structural fault or of the failed authentication.
pub open spec fn decrypt_error(passphrase: Seq<u8>, data: Seq<u8>, e: SaltyboxError) -> bool {
    &&& e.spec_kind() is Some
    &&& decrypt_outcome(passphrase, data) == Err::<Seq<u8>, ErrorKind>(e.spec_kind()->Some_0)
    &&& e.spec_category() == ErrorCategory::User
    &&& e.text() == (if envelope_fault(data) is Some {
        envelope_fault_message(data)
    } else {
        "corrupt input, tampered-with data, or bad passphrase"@
    })
}

/// The failure of `encrypt`: the random generator could not supply salt or nonce.
pub open spec fn encrypt_error(e: SaltyboxError) -> bool {
    &&& e.spec_category() == ErrorCategory::Internal
    &&& e.spec_kind() == Some(ErrorKind::Io)
    &&& e.text() == "random generation failed"@
}

/// The plaintext is short enough for its sealed payload to fit the largest
/// buffer the platform allows.
pub open spec fn plaintext_fits(plaintext: Seq<u8>) -> bool {
    plaintext.len() + TAG_LEN <= isize::MAX
}

proof fn lemma_format_cost_accepted()
    ensures
        scrypt_cost_accepted(SCRYPT_LOG_N, SCRYPT_R, SCRYPT_P),
{
    lemma2_to64();
}

/// Derives the 32-byte key for `passphrase` and `salt` at the format's cost,
/// in a buffer that is wiped when dropped.
fn derive_key(passphrase: &[u8], salt: &[u8]) -> (r: Result<SecretBytes, SaltyboxError>)
    ensures
        r matches Ok(k) && secret_bytes(k) == derived_key(passphrase@, salt@) && secret_bytes(k).len()
            == KEY_LEN,
{
    proof {
        lemma_format_cost_accepted();
    }
    match scrypt_derive(passphrase, salt, SCRYPT_LOG_N, SCRYPT_R, SCRYPT_P) {
        Some(key) => Ok(key),
        None => Err(
            SaltyboxError::with_kind(
                ErrorCategory::Internal,
                ErrorKind::ScryptFailure,
                "scrypt key derivation failed",
            ),
        ),
    }
}

/// Encrypts `plaintext` under `passphrase` with the salt and nonce given:
/// the same inputs always give the same envelope.
pub fn encrypt_deterministic(
    passphrase: &[u8],
    plaintext: &[u8],
    salt: &[u8; SALT_LEN],
    nonce: &[u8; NONCE_LEN],
) -> (r: Result<Vec<u8>, SaltyboxError>)
    ensures
        r matches Ok(v) && v@ == encryption_of(passphrase@, plaintext@, salt@, nonce@)
            && encryption_sized(plaintext@, v@),
        plaintext_fits(plaintext@) ==> (r matches Ok(v) && decrypts_to(passphrase@, v@, plaintext@)),
{
    let key = derive_key(passphrase, salt.as_slice())?;
    let sealed = match secretbox_seal(&key, nonce.as_slice(), plaintext) {
        Ok(sealed) => sealed,
        Err(_) => {
            return Err(
                SaltyboxError::with_kind(
                    ErrorCategory::Internal,
                    ErrorKind::SecretboxFailure,
                    "encryption failed",
                ),
            );
        },
    };
    let out = encode(salt.as_slice(), nonce.as_slice(), sealed.as_slice());
    proof {
        if plaintext_fits(plaintext@) {
            lemma_decode_encode(salt@, nonce@, sealed@);
        }
        assert(out@.len() == plaintext@.len() + HEADER_LEN + TAG_LEN);
    }
    Ok(out)
}

/// Encrypts `plaintext` under `passphrase` with a fresh random salt and nonce.
pub fn encrypt(passphrase: &[u8], plaintext: &[u8]) -> (r: Result<Vec<u8>, SaltyboxError>)
    ensures
        match r {
            Ok(v) => {
                &&& encryption_sized(plaintext@, v@)
                &&& exists|salt: Seq<u8>, nonce: Seq<u8>|
                    salt.len() == SALT_LEN && nonce.len() == NONCE_LEN && v@ == encryption_of(
                        passphrase@,
                        plaintext@,
                        salt,
                        nonce,
                    )
            },
            Err(e) => encrypt_error(e),
        },
        plaintext_fits(plaintext@) ==> (r matches Ok(v) ==> decrypts_to(passphrase@, v@, plaintext@)),
{
    let salt = match os_random::<SALT_LEN>() {
        Ok(salt) => salt,
        Err(_) => {
            return Err(
                SaltyboxError::with_kind(
                    ErrorCategory::Internal,
                    ErrorKind::Io,
                    "random generation failed",
                ),
            );
        },
    };
    let nonce = match os_random::<NONCE_LEN>() {
        Ok(nonce) => nonce,
        Err(_) => {
            return Err(
                SaltyboxError::with_kind(
                    ErrorCategory::Internal,
                    ErrorKind::Io,
                    "random generation failed",
                ),
            );
        },
    };
    let r = encrypt_deterministic(passphrase, plaintext, &salt, &nonce);
    assert(salt@.len() == SALT_LEN && nonce@.len() == NONCE_LEN);
    r
}

/// Decrypts an envelope with `passphrase`. A structural fault is reported
/// before any key is derived; a failed authentication gives
/// `AuthenticationFailed`, never partial plaintext. A returned plaintext
/// encrypts, with the envelope's own salt and nonce, to exactly the input.
pub fn decrypt(passphrase: &[u8], ciphertext: &[u8]) -> (r: Result<Vec<u8>, SaltyboxError>)
    ensures
        match r {
            Ok(p) => {
                &&& decrypts_to(passphrase@, ciphertext@, p@)
                &&& ciphertext@ == encryption_of(
                    passphrase@,
                    p@,
                    ciphertext@.subrange(0, SALT_LEN as int),
                    ciphertext@.subrange(SALT_LEN as int, SALT_LEN + NONCE_LEN),
                )
            },
            Err(e) => decrypt_error(passphrase@, ciphertext@, e),
        },
{
    let env = decode(ciphertext)?;
    let key = derive_key(passphrase, env.salt.as_slice())?;
    match secretbox_open(&key, env.nonce.as_slice(), env.sealed.as_slice()) {
        Ok(plaintext) => Ok(plaintext),
        Err(_) => Err(
            SaltyboxError::with_kind(
                ErrorCategory::User,
                ErrorKind::AuthenticationFailed,
                "corrupt input, tampered-with data, or bad passphrase",
            ),
        ),
    }
}

} // verus!
