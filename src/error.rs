//! The error taxonomy: a broad category, an optional fine-grained kind, a
//! message, and an optional underlying cause.

use vstd::prelude::*;

verus! {

/// Broad classification of a failure.
#[derive(Debug, Clone, Copy, PartialEq, Eq, Structural)]
#[non_exhaustive]
pub enum ErrorCategory {
    /// Any failure that cannot be confidently attributed to the user; this is
    /// never a guarantee that the user was not at fault.
    Internal,
    /// The user provided invalid input or asked for something impossible.
    User,
}

/// Fine-grained condition flags for callers that branch on error kinds.
#[derive(Debug, Clone, Copy, PartialEq, Eq, Structural)]
#[non_exhaustive]
pub enum ErrorKind {
    /// The armored representation is malformed or unrecognized.
    ArmoringInvalid,
    /// Base64 decoding of the armored payload failed.
    ArmoringDecode,
    /// The input claims to be armored, but with a version not supported here.
    ArmoringFromFuture,
    /// The binary layout is invalid (bad length field).
    BinaryFormat,
    /// The input ended before a component could be read.
    TruncatedInput,
    /// Bytes follow the sealed payload.
    TrailingData,
    /// Wrong passphrase, tampering, or corruption.
    AuthenticationFailed,
    /// No passphrase could be obtained.
    PassphraseUnavailable,
    /// Key derivation failed.
    ScryptFailure,
    /// Sealing or opening the secret box failed.
    SecretboxFailure,
    /// An unexpected state was reached.
    InternalInvariant,
    /// Interaction with files, streams, or the operating system failed.
    Io,
}

/// An error with a category, an optional kind, a message and an optional cause.
#[derive(Debug)]
pub struct SaltyboxError {
    /// Broad error category, always present.
    pub category: ErrorCategory,
    /// Optional specific condition tag; callers must handle its absence.
    pub kind: Option<ErrorKind>,
    source: Option<Box<SaltyboxError>>,
    msg: String,
}

impl SaltyboxError {
    /// The category of the error.
    pub closed spec fn spec_category(&self) -> ErrorCategory {
        self.category
    }

    /// The kind of the error, if it has one.
    pub closed spec fn spec_kind(&self) -> Option<ErrorKind> {
        self.kind
    }

    /// The message this error carries.
    pub closed spec fn text(&self) -> Seq<char> {
        self.msg@
    }

    /// The error this one wraps, if any.
    pub closed spec fn cause(&self) -> Option<SaltyboxError> {
        match self.source {
            Some(b) => Some(*b),
            None => None,
        }
    }

    /// Creates an error with a category and a message.
    pub fn new(category: ErrorCategory, msg: &str) -> (r: Self)
        ensures
            r.spec_category() == category,
            r.spec_kind() is None,
            r.text() == msg@,
            r.cause() is None,
    {
        SaltyboxError { category, kind: None, source: None, msg: msg.to_owned() }
    }

    /// Creates an error tagged with a kind.
    pub fn with_kind(category: ErrorCategory, kind: ErrorKind, msg: &str) -> (r: Self)
        ensures
            r.spec_category() == category,
            r.spec_kind() == Some(kind),
            r.text() == msg@,
            r.cause() is None,
    {
        SaltyboxError { category, kind: Some(kind), source: None, msg: msg.to_owned() }
    }

    /// Creates an error that keeps the error it stems from.
    pub fn with_source(category: ErrorCategory, msg: &str, source: SaltyboxError) -> (r: Self)
        ensures
            r.spec_category() == category,
            r.spec_kind() is None,
            r.text() == msg@,
            r.cause() == Some(source),
    {
        SaltyboxError {
            category,
            kind: None,
            source: Some(Box::new(source)),
            msg: msg.to_owned(),
        }
    }

    /// Creates an error with a kind that keeps the error it stems from.
    pub fn with_kind_and_source(
        category: ErrorCategory,
        kind: ErrorKind,
        msg: &str,
        source: SaltyboxError,
    ) -> (r: Self)
        ensures
            r.spec_category() == category,
            r.spec_kind() == Some(kind),
            r.text() == msg@,
            r.cause() == Some(source),
    {
        SaltyboxError {
            category,
            kind: Some(kind),
            source: Some(Box::new(source)),
            msg: msg.to_owned(),
        }
    }

    /// The message carried by the error.
    pub fn message(&self) -> (r: &str)
        ensures
            r@ == self.text(),
    {
        self.msg.as_str()
    }

    /// The error this one wraps, if any.
    pub fn source_error(&self) -> (r: Option<&SaltyboxError>)
        ensures
            r matches Some(e) ==> self.cause() == Some(*e),
            r is None ==> self.cause() is None,
    {
        match &self.source {
            Some(b) => Some(&**b),
            None => None,
        }
    }

    /// Wraps this error under a higher-level message; category and kind carry over.
    pub fn with_context(self, msg: &str) -> (r: Self)
        ensures
            r.spec_category() == self.spec_category(),
            r.spec_kind() == self.spec_kind(),
            r.text() == msg@,
            r.cause() == Some(self),
    {
        let category = self.category;
        let kind = self.kind;
        SaltyboxError { category, kind, source: Some(Box::new(self)), msg: msg.to_owned() }
    }
}

} // verus!
