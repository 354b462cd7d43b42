//! Passphrase sources. A passphrase is held in a buffer that is wiped when
//! dropped; the sources that prompt a terminal or read a stream live with the
//! program, and the library gives the fixed and the caching ones.

use crate::error::SaltyboxError;
use crate::secret::{secret_bytes, SecretBytes};
use vstd::prelude::*;

verus! {

/// A source of passphrases.
pub trait PassphraseReader {
    /// Reads a passphrase as arbitrary bytes (not necessarily UTF-8), in a
    /// buffer that is wiped when dropped.
    fn read_passphrase(&mut self) -> Result<SecretBytes, SaltyboxError>;
}

impl<T: PassphraseReader + ?Sized> PassphraseReader for Box<T> {
    fn read_passphrase(&mut self) -> Result<SecretBytes, SaltyboxError> {
        (**self).read_passphrase()
    }
}

/// Returns one fixed passphrase, every time.
pub struct ConstantPassphraseReader {
    passphrase: SecretBytes,
}

impl ConstantPassphraseReader {
    /// The passphrase this reader returns.
    pub closed spec fn value(&self) -> Seq<u8> {
        secret_bytes(self.passphrase)
    }

    /// A reader that always returns `passphrase`.
    pub fn new(passphrase: Vec<u8>) -> (r: Self)
        ensures
            r.value() == passphrase@,
    {
        ConstantPassphraseReader { passphrase: SecretBytes::new(passphrase) }
    }
}

impl PassphraseReader for ConstantPassphraseReader {
    fn read_passphrase(&mut self) -> (r: Result<SecretBytes, SaltyboxError>)
        ensures
            r matches Ok(p) && secret_bytes(p) == old(self).value(),
            final(self).value() == old(self).value(),
    {
        Ok(self.passphrase.duplicate())
    }
}

/// Wraps another reader and asks it at most once successfully: the first
/// passphrase it returns is kept and returned on every later call. A failure
/// is passed on and not kept, so the next call asks again.
pub struct CachingPassphraseReader<P: PassphraseReader> {
    upstream: P,
    cached: Option<SecretBytes>,
}

impl<P: PassphraseReader> CachingPassphraseReader<P> {
    /// The kept passphrase, once one was read.
    pub closed spec fn cached_value(&self) -> Option<Seq<u8>> {
        match self.cached {
            Some(z) => Some(secret_bytes(z)),
            None => None,
        }
    }

    /// A reader over `upstream` that has kept nothing yet.
    pub fn new(upstream: P) -> (r: Self)
        ensures
            r.cached_value() is None,
    {
        CachingPassphraseReader { upstream, cached: None }
    }
}

impl<P: PassphraseReader> PassphraseReader for CachingPassphraseReader<P> {
    fn read_passphrase(&mut self) -> (r: Result<SecretBytes, SaltyboxError>)
        ensures
            match old(self).cached_value() {
                Some(v) => r matches Ok(p) && secret_bytes(p) == v && final(self).cached_value()
                    == Some(v),
                None => match r {
                    Ok(p) => final(self).cached_value() == Some(secret_bytes(p)),
                    Err(_) => final(self).cached_value() is None,
                },
            },
    {
        if self.cached.is_none() {
            let passphrase = self.upstream.read_passphrase()?;
            self.cached = Some(passphrase);
        }
        match &self.cached {
            Some(inner) => Ok(inner.duplicate()),
            None => Err(
                SaltyboxError::with_kind(
                    crate::error::ErrorCategory::Internal,
                    crate::error::ErrorKind::InternalInvariant,
                    "passphrase cache empty after a successful read",
                ),
            ),
        }
    }
}

} // verus!
