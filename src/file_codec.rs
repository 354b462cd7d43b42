//! Whole-file operations on values: plaintext to armored text, armored text
//! to plaintext, and the update protocol that re-encrypts only after the
//! current passphrase has been proven to open the existing text.

use crate::envelope::{NONCE_LEN, SALT_LEN};
use crate::error::{ErrorCategory, ErrorKind, SaltyboxError};
use crate::secretcrypt::{
    decrypt, decrypt_error, decrypt_outcome, decrypts_to, encrypt, encrypt_error, encryption_of,
    encryption_sized, plaintext_fits,
};
use crate::varmor::{armor_text, unwrap, unwrap_error, unwrap_outcome, unwraps_to, wrap};
use vstd::prelude::*;
use vstd::string::*;
use vstd::utf8::*;

verus! {

/// What decrypting the armored text with bytes `text` under `passphrase`
/// gives: the plaintext, or the kind of the error of the first stage that failed.
pub open spec fn open_outcome(passphrase: Seq<u8>, text: Seq<u8>) -> Result<Seq<u8>, ErrorKind> {
    match unwrap_outcome(text) {
        Ok(envelope) => decrypt_outcome(passphrase, envelope),
        Err(k) => Err(k),
    }
}

/// Decrypting the armored text with bytes `text` under `passphrase` gives `plaintext`.
pub open spec fn opens_to(passphrase: Seq<u8>, text: Seq<u8>, plaintext: Seq<u8>) -> bool {
    open_outcome(passphrase, text) == Ok::<Seq<u8>, ErrorKind>(plaintext)
}

/// `text` is the armor of an encryption of `plaintext` under `passphrase`,
/// with some salt and nonce: it unwraps to that envelope, which has the size
/// of an encryption of `plaintext`.
pub open spec fn armors_encryption(passphrase: Seq<u8>, plaintext: Seq<u8>, text: Seq<char>) -> bool {
    exists|salt: Seq<u8>, nonce: Seq<u8>|
        {
            let envelope = #[trigger] encryption_of(passphrase, plaintext, salt, nonce);
            &&& salt.len() == SALT_LEN
            &&& nonce.len() == NONCE_LEN
            &&& text == armor_text(envelope)
            &&& unwraps_to(encode_utf8(text), envelope)
            &&& encryption_sized(plaintext, envelope)
        }
}

/// The failure of decrypting armored text with bytes `text` under
/// `passphrase`, as `decrypt_string` reports it: a message naming the stage
/// that failed, over the error of that stage as cause, whose category and
/// kind it keeps.
pub open spec fn open_error(passphrase: Seq<u8>, text: Seq<u8>, e: SaltyboxError) -> bool {
    &&& e.spec_kind() is Some
    &&& open_outcome(passphrase, text) == Err::<Seq<u8>, ErrorKind>(e.spec_kind()->Some_0)
    &&& e.spec_category() == ErrorCategory::User
    &&& e.cause() matches Some(c)
    &&& c.spec_kind() == e.spec_kind()
    &&& match unwrap_outcome(text) {
        Err(_) => e.text() == "failed to unarmor"@ && unwrap_error(text, c),
        Ok(envelope) => e.text() == "failed to decrypt"@ && decrypt_error(passphrase, envelope, c),
    }
}

/// The failure of `encrypt_bytes`: "encryption failed", over the failure of
/// the random generator as cause.
pub open spec fn seal_error(e: SaltyboxError) -> bool {
    &&& e.spec_category() == ErrorCategory::Internal
    &&& e.spec_kind() == Some(ErrorKind::Io)
    &&& e.text() == "encryption failed"@
    &&& e.cause() matches Some(c) && encrypt_error(c)
}

/// Encrypts `plaintext` under `passphrase` with a fresh salt and nonce and
/// armors the envelope. The text decrypts back to `plaintext`.
pub fn encrypt_bytes(passphrase: &[u8], plaintext: &[u8]) -> (r: Result<String, SaltyboxError>)
    ensures
        match r {
            Ok(text) => {
                &&& armors_encryption(passphrase@, plaintext@, text@)
                &&& plaintext_fits(plaintext@) ==> opens_to(
                    passphrase@,
                    encode_utf8(text@),
                    plaintext@,
                )
            },
            Err(e) => seal_error(e),
        },
{
    let envelope = match encrypt(passphrase, plaintext) {
        Ok(envelope) => envelope,
        Err(e) => {
            return Err(e.with_context("encryption failed"));
        },
    };
    let text = wrap(envelope.as_slice());
    assert(decrypts_to(passphrase@, envelope@, plaintext@) ==> opens_to(
        passphrase@,
        encode_utf8(text@),
        plaintext@,
    ));
    Ok(text)
}

/// Unarmors `armored` and decrypts it with `passphrase`; an error keeps the
/// kind of the stage that failed, under a message naming that stage.
pub fn decrypt_string(passphrase: &[u8], armored: &str) -> (r: Result<Vec<u8>, SaltyboxError>)
    ensures
        match r {
            Ok(plaintext) => opens_to(passphrase@, armored.spec_bytes(), plaintext@),
            Err(e) => open_error(passphrase@, armored.spec_bytes(), e),
        },
{
    let envelope = match unwrap(armored) {
        Ok(envelope) => envelope,
        Err(e) => {
            return Err(e.with_context("failed to unarmor"));
        },
    };
    match decrypt(passphrase, envelope.as_slice()) {
        Ok(plaintext) => Ok(plaintext),
        Err(e) => Err(e.with_context("failed to decrypt")),
    }
}

/// Replaces the contents of an armored text: first proves that `passphrase`
/// opens `existing` (else fails with the kind of that failure, such as
/// `AuthenticationFailed`, and produces nothing), then encrypts
/// `new_plaintext` under the same passphrase with a fresh salt and nonce.
/// The new text decrypts, under that passphrase, to `new_plaintext`.
pub fn update(passphrase: &[u8], existing: &str, new_plaintext: &[u8]) -> (r: Result<
    String,
    SaltyboxError,
>)
    ensures
        match open_outcome(passphrase@, existing.spec_bytes()) {
            Err(k) => r matches Err(e) && e.spec_kind() == Some(k) && open_error(
                passphrase@,
                existing.spec_bytes(),
                e,
            ),
            Ok(_) => match r {
                Ok(text) => {
                    &&& armors_encryption(passphrase@, new_plaintext@, text@)
                    &&& plaintext_fits(new_plaintext@) ==> opens_to(
                        passphrase@,
                        encode_utf8(text@),
                        new_plaintext@,
                    )
                },
                Err(e) => seal_error(e),
            },
        },
{
    let _ = decrypt_string(passphrase, existing)?;
    encrypt_bytes(passphrase, new_plaintext)
}

} // verus!
