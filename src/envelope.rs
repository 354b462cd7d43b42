//! The binary envelope: `salt(8) ∥ nonce(24) ∥ length(8, big-endian i64) ∥
//! sealed payload(length bytes)`, with nothing after the payload.

use crate::error::{ErrorCategory, ErrorKind, SaltyboxError};
use vstd::prelude::*;
use vstd::slice::slice_to_vec;

verus! {

/// Length of the salt, in bytes.
pub const SALT_LEN: usize = 8;

/// Length of the nonce, in bytes.
pub const NONCE_LEN: usize = 24;

/// Length of the payload length field, in bytes.
pub const LENGTH_LEN: usize = 8;

/// Length of everything before the sealed payload, in bytes.
pub const HEADER_LEN: usize = 40;

/// The unsigned value of eight big-endian bytes.
pub open spec fn be_u64(b: Seq<u8>) -> u64 {
    (b[0] as u64) << 56u64 | (b[1] as u64) << 48u64 | (b[2] as u64) << 40u64 | (b[3] as u64)
        << 32u64 | (b[4] as u64) << 24u64 | (b[5] as u64) << 16u64 | (b[6] as u64) << 8u64 | (
    b[7] as u64)
}

/// The eight big-endian bytes of a 64-bit value.
pub open spec fn be_bytes(v: u64) -> Seq<u8> {
    seq![
        (v >> 56u64) as u8,
        (v >> 48u64) as u8,
        (v >> 40u64) as u8,
        (v >> 32u64) as u8,
        (v >> 24u64) as u8,
        (v >> 16u64) as u8,
        (v >> 8u64) as u8,
        v as u8,
    ]
}

/// The length field of an envelope read as a signed (two's complement) integer.
pub open spec fn length_field(b: Seq<u8>) -> int {
    let u = be_u64(b.subrange(SALT_LEN + NONCE_LEN, HEADER_LEN as int));
    if u >= 0x8000_0000_0000_0000u64 {
        u - 0x1_0000_0000_0000_0000int
    } else {
        u as int
    }
}

/// The error kind with which decoding `b` fails, after the checks in their
/// order; `None` when `b` is a well-formed envelope.
pub open spec fn envelope_fault(b: Seq<u8>) -> Option<ErrorKind> {
    if b.len() < HEADER_LEN {
        Some(ErrorKind::TruncatedInput)
    } else if length_field(b) < 0 || length_field(b) > isize::MAX || length_field(b) > b.len() {
        Some(ErrorKind::BinaryFormat)
    } else if b.len() < HEADER_LEN + length_field(b) {
        Some(ErrorKind::TruncatedInput)
    } else if b.len() > HEADER_LEN + length_field(b) {
        Some(ErrorKind::TrailingData)
    } else {
        None
    }
}

/// The message with which decoding `b` fails; it names the failing check.
pub open spec fn envelope_fault_message(b: Seq<u8>) -> Seq<char> {
    if b.len() < SALT_LEN {
        "input likely truncated while reading salt"@
    } else if b.len() < SALT_LEN + NONCE_LEN {
        "input likely truncated while reading nonce"@
    } else if b.len() < HEADER_LEN {
        "input likely truncated while reading sealed box"@
    } else if length_field(b) < 0 {
        "negative sealed box length (when interpreted as a big-endian i64)"@
    } else if length_field(b) > isize::MAX {
        "sealed box length exceeds this system's max isize"@
    } else if length_field(b) > b.len() {
        "truncated or corrupt input; claimed length greater than available input"@
    } else if b.len() < HEADER_LEN + length_field(b) {
        "truncated or corrupt input (while reading sealed box)"@
    } else {
        "invalid input: unexpected data after sealed box"@
    }
}

/// The bytes of the envelope holding `salt`, `nonce` and `sealed`.
pub open spec fn envelope_bytes(salt: Seq<u8>, nonce: Seq<u8>, sealed: Seq<u8>) -> Seq<u8> {
    salt + nonce + be_bytes(sealed.len() as u64) + sealed
}

/// The three fields of an envelope.
#[derive(Debug)]
pub struct Envelope {
    /// The key-derivation salt.
    pub salt: Vec<u8>,
    /// The secret-box nonce.
    pub nonce: Vec<u8>,
    /// Ciphertext with its authentication tag.
    pub sealed: Vec<u8>,
}

impl Envelope {
    /// Salt and nonce have their fixed lengths.
    pub open spec fn wf(&self) -> bool {
        self.salt@.len() == SALT_LEN && self.nonce@.len() == NONCE_LEN
    }

    /// The bytes this envelope encodes to.
    pub open spec fn spec_bytes(&self) -> Seq<u8> {
        envelope_bytes(self.salt@, self.nonce@, self.sealed@)
    }
}

proof fn lemma_be_u64_of_be_bytes(v: u64)
    ensures
        be_u64(be_bytes(v)) == v,
{
    let b = be_bytes(v);
    assert(b[0] == (v >> 56u64) as u8 && b[1] == (v >> 48u64) as u8 && b[2] == (v >> 40u64) as u8
        && b[3] == (v >> 32u64) as u8 && b[4] == (v >> 24u64) as u8 && b[5] == (v >> 16u64) as u8
        && b[6] == (v >> 8u64) as u8 && b[7] == v as u8);
    assert(((v >> 56u64) as u8 as u64) << 56u64 | ((v >> 48u64) as u8 as u64) << 48u64 | ((v
        >> 40u64) as u8 as u64) << 40u64 | ((v >> 32u64) as u8 as u64) << 32u64 | ((v >> 24u64) as u8
        as u64) << 24u64 | ((v >> 16u64) as u8 as u64) << 16u64 | ((v >> 8u64) as u8 as u64)
        << 8u64 | (v as u8 as u64) == v) by (bit_vector);
}

proof fn lemma_be_bytes_of_be_u64(b: Seq<u8>)
    requires
        b.len() == 8,
    ensures
        be_bytes(be_u64(b)) == b,
{
    let (b0, b1, b2, b3, b4, b5, b6, b7) = (b[0], b[1], b[2], b[3], b[4], b[5], b[6], b[7]);
    let v = be_u64(b);
    assert(v == (b0 as u64) << 56u64 | (b1 as u64) << 48u64 | (b2 as u64) << 40u64 | (b3 as u64)
        << 32u64 | (b4 as u64) << 24u64 | (b5 as u64) << 16u64 | (b6 as u64) << 8u64 | (b7 as u64));
    assert((v >> 56u64) as u8 == b0 && (v >> 48u64) as u8 == b1 && (v >> 40u64) as u8 == b2 && (v
        >> 32u64) as u8 == b3 && (v >> 24u64) as u8 == b4 && (v >> 16u64) as u8 == b5 && (v
        >> 8u64) as u8 == b6 && v as u8 == b7) by (bit_vector)
        requires
            v == (b0 as u64) << 56u64 | (b1 as u64) << 48u64 | (b2 as u64) << 40u64 | (b3 as u64)
                << 32u64 | (b4 as u64) << 24u64 | (b5 as u64) << 16u64 | (b6 as u64) << 8u64 | (
            b7 as u64),
    ;
    assert(be_bytes(v) =~= b);
}

/// Decoding inverts encoding: the envelope of a salt, a nonce and a sealed
/// payload that fits the largest buffer is well formed and gives back those
/// three fields.
pub proof fn lemma_decode_encode(salt: Seq<u8>, nonce: Seq<u8>, sealed: Seq<u8>)
    requires
        salt.len() == SALT_LEN,
        nonce.len() == NONCE_LEN,
        sealed.len() <= isize::MAX,
    ensures
        ({
            let b = envelope_bytes(salt, nonce, sealed);
            &&& envelope_fault(b) is None
            &&& b.len() == HEADER_LEN + sealed.len()
            &&& length_field(b) == sealed.len()
            &&& b.subrange(0, SALT_LEN as int) == salt
            &&& b.subrange(SALT_LEN as int, SALT_LEN + NONCE_LEN) == nonce
            &&& b.subrange(HEADER_LEN as int, b.len() as int) == sealed
        }),
{
    let b = envelope_bytes(salt, nonce, sealed);
    let v = sealed.len() as u64;
    lemma_be_u64_of_be_bytes(v);
    assert(b.subrange(SALT_LEN + NONCE_LEN, HEADER_LEN as int) =~= be_bytes(v));
    assert(b.subrange(0, SALT_LEN as int) =~= salt);
    assert(b.subrange(SALT_LEN as int, SALT_LEN + NONCE_LEN) =~= nonce);
    assert(b.subrange(HEADER_LEN as int, b.len() as int) =~= sealed);
}

/// Cutting a well-formed envelope short yields `TruncatedInput` when the cut
/// falls within salt, nonce or length field, and within the payload once at
/// least as many bytes as the payload's length remain (a shorter cut makes the
/// declared length exceed the whole input, which is `BinaryFormat`).
pub proof fn lemma_truncation_is_detected(salt: Seq<u8>, nonce: Seq<u8>, sealed: Seq<u8>, cut: int)
    requires
        salt.len() == SALT_LEN,
        nonce.len() == NONCE_LEN,
        sealed.len() <= isize::MAX,
        0 <= cut < HEADER_LEN + sealed.len(),
        cut < HEADER_LEN || cut >= sealed.len(),
    ensures
        envelope_fault(envelope_bytes(salt, nonce, sealed).subrange(0, cut)) == Some(
            ErrorKind::TruncatedInput,
        ),
{
    let b = envelope_bytes(salt, nonce, sealed);
    lemma_decode_encode(salt, nonce, sealed);
    if cut >= HEADER_LEN {
        let t = b.subrange(0, cut);
        assert(t.subrange(SALT_LEN + NONCE_LEN, HEADER_LEN as int) =~= b.subrange(
            SALT_LEN + NONCE_LEN,
            HEADER_LEN as int,
        ));
        assert(length_field(t) == length_field(b));
    }
}

/// One byte appended to a well-formed envelope yields `TrailingData`.
pub proof fn lemma_trailing_byte_is_detected(
    salt: Seq<u8>,
    nonce: Seq<u8>,
    sealed: Seq<u8>,
    extra: u8,
)
    requires
        salt.len() == SALT_LEN,
        nonce.len() == NONCE_LEN,
        sealed.len() <= isize::MAX,
    ensures
        envelope_fault(envelope_bytes(salt, nonce, sealed).push(extra)) == Some(
            ErrorKind::TrailingData,
        ),
{
    let b = envelope_bytes(salt, nonce, sealed);
    lemma_decode_encode(salt, nonce, sealed);
    let t = b.push(extra);
    assert(t.subrange(SALT_LEN + NONCE_LEN, HEADER_LEN as int) =~= b.subrange(
        SALT_LEN + NONCE_LEN,
        HEADER_LEN as int,
    ));
}

/// Any input whose length field reads as a negative number yields `BinaryFormat`.
pub proof fn lemma_negative_length_is_detected(b: Seq<u8>)
    requires
        b.len() >= HEADER_LEN,
        length_field(b) < 0,
    ensures
        envelope_fault(b) == Some(ErrorKind::BinaryFormat),
{
}

/// Reads the length field: eight big-endian bytes starting at `at`.
fn read_be_u64(data: &[u8], at: usize) -> (r: u64)
    requires
        at + 8 <= data@.len(),
    ensures
        r == be_u64(data@.subrange(at as int, at + 8)),
{
    let ghost b = data@.subrange(at as int, at + 8);
    assert(b[0] == data@[at as int] && b[7] == data@[at + 7]);
    (data[at] as u64) << 56u64 | (data[at + 1] as u64) << 48u64 | (data[at + 2] as u64) << 40u64 | (
    data[at + 3] as u64) << 32u64 | (data[at + 4] as u64) << 24u64 | (data[at + 5] as u64)
        << 16u64 | (data[at + 6] as u64) << 8u64 | (data[at + 7] as u64)
}

/// Appends the eight big-endian bytes of `v`.
fn push_be_u64(out: &mut Vec<u8>, v: u64)
    ensures
        final(out)@ == old(out)@ + be_bytes(v),
{
    out.push((v >> 56u64) as u8);
    out.push((v >> 48u64) as u8);
    out.push((v >> 40u64) as u8);
    out.push((v >> 32u64) as u8);
    out.push((v >> 24u64) as u8);
    out.push((v >> 16u64) as u8);
    out.push((v >> 8u64) as u8);
    out.push(v as u8);
    assert(final(out)@ =~= old(out)@ + be_bytes(v));
}

/// Appends the bytes of `src`.
fn append_bytes(out: &mut Vec<u8>, src: &[u8])
    ensures
        final(out)@ == old(out)@ + src@,
{
    let mut i: usize = 0;
    while i < src.len()
        invariant
            i <= src@.len(),
            out@ == old(out)@ + src@.subrange(0, i as int),
        decreases src@.len() - i,
    {
        out.push(src[i]);
        i = i + 1;
        assert(out@ =~= old(out)@ + src@.subrange(0, i as int));
    }
    assert(src@.subrange(0, i as int) =~= src@);
}

/// Lays out salt, nonce, payload length and sealed payload in that order.
pub fn encode(salt: &[u8], nonce: &[u8], sealed: &[u8]) -> (r: Vec<u8>)
    ensures
        r@ == envelope_bytes(salt@, nonce@, sealed@),
{
    let mut out: Vec<u8> = Vec::new();
    append_bytes(&mut out, salt);
    append_bytes(&mut out, nonce);
    push_be_u64(&mut out, sealed.len() as u64);
    append_bytes(&mut out, sealed);
    out
}

/// Reads an envelope, checking its structure field by field.
pub fn decode(data: &[u8]) -> (r: Result<Envelope, SaltyboxError>)
    ensures
        match r {
            Ok(env) => {
                &&& envelope_fault(data@) is None
                &&& env.wf()
                &&& env.spec_bytes() == data@
                &&& env.salt@ == data@.subrange(0, SALT_LEN as int)
                &&& env.nonce@ == data@.subrange(SALT_LEN as int, SALT_LEN + NONCE_LEN)
                &&& env.sealed@ == data@.subrange(HEADER_LEN as int, data@.len() as int)
            },
            Err(e) => {
                &&& envelope_fault(data@) == e.spec_kind()
                &&& e.spec_kind() is Some
                &&& e.spec_category() == ErrorCategory::User
                &&& e.text() == envelope_fault_message(data@)
            },
        },
{
    let n = data.len();
    if n < SALT_LEN {
        return Err(
            SaltyboxError::with_kind(
                ErrorCategory::User,
                ErrorKind::TruncatedInput,
                "input likely truncated while reading salt",
            ),
        );
    }
    if n < SALT_LEN + NONCE_LEN {
        return Err(
            SaltyboxError::with_kind(
                ErrorCategory::User,
                ErrorKind::TruncatedInput,
                "input likely truncated while reading nonce",
            ),
        );
    }
    if n < HEADER_LEN {
        return Err(
            SaltyboxError::with_kind(
                ErrorCategory::User,
                ErrorKind::TruncatedInput,
                "input likely truncated while reading sealed box",
            ),
        );
    }
    let v = read_be_u64(data, SALT_LEN + NONCE_LEN);
    if v >= 0x8000_0000_0000_0000u64 {
        return Err(
            SaltyboxError::with_kind(
                ErrorCategory::User,
                ErrorKind::BinaryFormat,
                "negative sealed box length (when interpreted as a big-endian i64)",
            ),
        );
    }
    if v > isize::MAX as u64 {
        return Err(
            SaltyboxError::with_kind(
                ErrorCategory::User,
                ErrorKind::BinaryFormat,
                "sealed box length exceeds this system's max isize",
            ),
        );
    }
    if v > n as u64 {
        return Err(
            SaltyboxError::with_kind(
                ErrorCategory::User,
                ErrorKind::BinaryFormat,
                "truncated or corrupt input; claimed length greater than available input",
            ),
        );
    }
    let len = v as usize;
    if n - HEADER_LEN < len {
        return Err(
            SaltyboxError::with_kind(
                ErrorCategory::User,
                ErrorKind::TruncatedInput,
                "truncated or corrupt input (while reading sealed box)",
            ),
        );
    }
    if n - HEADER_LEN > len {
        return Err(
            SaltyboxError::with_kind(
                ErrorCategory::User,
                ErrorKind::TrailingData,
                "invalid input: unexpected data after sealed box",
            ),
        );
    }
    let env = Envelope {
        salt: slice_to_vec(&data[0..SALT_LEN]),
        nonce: slice_to_vec(&data[SALT_LEN..SALT_LEN + NONCE_LEN]),
        sealed: slice_to_vec(&data[HEADER_LEN..n]),
    };
    proof {
        let d = data@;
        lemma_be_bytes_of_be_u64(d.subrange(SALT_LEN + NONCE_LEN, HEADER_LEN as int));
        assert(d =~= d.subrange(0, SALT_LEN as int) + d.subrange(SALT_LEN as int, SALT_LEN
            + NONCE_LEN) + d.subrange(SALT_LEN + NONCE_LEN, HEADER_LEN as int) + d.subrange(
            HEADER_LEN as int,
            n as int,
        ));
    }
    Ok(env)
}

} // verus!
