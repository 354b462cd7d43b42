use std::cell::RefCell;
use std::rc::Rc;

use saltybox::error::{ErrorCategory, ErrorKind, SaltyboxError};
use saltybox::passphrase::{CachingPassphraseReader, ConstantPassphraseReader, PassphraseReader};
use saltybox::secret::SecretBytes;

#[test]
fn test_constant_reader() {
    let mut reader = ConstantPassphraseReader::new(b"test123".to_vec());
    assert_eq!(reader.read_passphrase().unwrap().as_bytes(), b"test123");
    assert_eq!(reader.read_passphrase().unwrap().as_bytes(), b"test123");
}

struct CountingReader {
    passphrase: Vec<u8>,
    call_count: Rc<RefCell<usize>>,
}

impl PassphraseReader for CountingReader {
    fn read_passphrase(&mut self) -> Result<SecretBytes, SaltyboxError> {
        *self.call_count.borrow_mut() += 1;
        Ok(SecretBytes::new(self.passphrase.clone()))
    }
}

#[test]
fn test_caching_reader() {
    let call_count = Rc::new(RefCell::new(0));
    let upstream = CountingReader {
        passphrase: b"cached_pass".to_vec(),
        call_count: call_count.clone(),
    };

    let mut caching = CachingPassphraseReader::new(Box::new(upstream));

    assert_eq!(caching.read_passphrase().unwrap().as_bytes(), b"cached_pass");
    assert_eq!(*call_count.borrow(), 1);

    assert_eq!(caching.read_passphrase().unwrap().as_bytes(), b"cached_pass");
    assert_eq!(*call_count.borrow(), 1);

    assert_eq!(caching.read_passphrase().unwrap().as_bytes(), b"cached_pass");
    assert_eq!(*call_count.borrow(), 1);
}

struct FailingReader;

impl PassphraseReader for FailingReader {
    fn read_passphrase(&mut self) -> Result<SecretBytes, SaltyboxError> {
        Err(SaltyboxError::with_kind(
            ErrorCategory::Internal,
            ErrorKind::PassphraseUnavailable,
            "simulated error",
        ))
    }
}

#[test]
fn test_caching_reader_with_error() {
    let mut caching = CachingPassphraseReader::new(Box::new(FailingReader));

    assert!(caching.read_passphrase().is_err());

    assert!(caching.read_passphrase().is_err());
}

/// Fails once, then succeeds: a failure must not be kept.
struct FlakyReader {
    calls: usize,
}

impl PassphraseReader for FlakyReader {
    fn read_passphrase(&mut self) -> Result<SecretBytes, SaltyboxError> {
        self.calls += 1;
        if self.calls == 1 {
            Err(SaltyboxError::with_kind(
                ErrorCategory::Internal,
                ErrorKind::PassphraseUnavailable,
                "not yet",
            ))
        } else {
            Ok(SecretBytes::new(format!("pass{}", self.calls).into_bytes()))
        }
    }
}

#[test]
fn caching_reader_asks_again_after_failure_then_keeps_value() {
    let mut caching = CachingPassphraseReader::new(FlakyReader { calls: 0 });
    let err = caching.read_passphrase().unwrap_err();
    assert_eq!(err.kind, Some(ErrorKind::PassphraseUnavailable));
    assert_eq!(caching.read_passphrase().unwrap().as_bytes(), b"pass2");
    assert_eq!(caching.read_passphrase().unwrap().as_bytes(), b"pass2");
}

#[test]
fn constant_reader_returns_non_utf8_bytes() {
    let data = vec![0xff, 0xfe, 0x00, 0x01];
    let mut reader = ConstantPassphraseReader::new(data.clone());
    assert_eq!(reader.read_passphrase().unwrap().as_bytes(), &data[..]);
}

#[test]
fn secret_bytes_hold_given_bytes() {
    let secret = SecretBytes::new(b"abc".to_vec());
    assert_eq!(secret.as_bytes(), b"abc");
}
