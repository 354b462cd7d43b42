//! Versioned armor: the binary envelope as whitespace-free, URL- and
//! shell-safe text, `saltybox1:` followed by unpadded base64url.

use crate::error::{ErrorCategory, ErrorKind, SaltyboxError};
use base64::engine::general_purpose::URL_SAFE_NO_PAD;
use base64::Engine;
use vstd::prelude::*;
use vstd::string::*;
use vstd::utf8::*;

verus! {

broadcast use is_ascii_chars_encode_utf8;

/// The prefix that every version of the armor starts with.
pub const MAGIC_PREFIX: &'static str = "saltybox";

/// The marker of the one armor version supported here.
pub const V1_MAGIC: &'static str = "saltybox1:";

/// The error of base64's decoding, carried as an opaque value.
#[verifier::external_type_specification]
#[verifier::external_body]
pub struct ExDecodeError(base64::DecodeError);

/// The unpadded base64url text of `data`.
pub uninterp spec fn base64url_encoded(data: Seq<u8>) -> Seq<char>;

/// The bytes that the unpadded base64url text `text` stands for, or nothing
/// when it is not such a text.
pub uninterp spec fn base64url_decoded(text: Seq<u8>) -> Option<Seq<u8>>;

/// A character of the URL-safe base64 alphabet.
pub open spec fn is_url_safe_char(c: char) -> bool {
    ('A' <= c && c <= 'Z') || ('a' <= c && c <= 'z') || ('0' <= c && c <= '9') || c == '-' || c
        == '_'
}

/// A whitespace character in Unicode's sense (`char::is_whitespace`).
pub open spec fn is_whitespace_char(c: char) -> bool {
    ('\u{9}' <= c && c <= '\u{d}') || c == ' ' || c == '\u{85}' || c == '\u{a0}' || c
        == '\u{1680}' || ('\u{2000}' <= c && c <= '\u{200a}') || c == '\u{2028}' || c
        == '\u{2029}' || c == '\u{202f}' || c == '\u{205f}' || c == '\u{3000}'
}

/// The bytes of a text of ASCII characters.
pub open spec fn ascii_bytes(s: Seq<char>) -> Seq<u8> {
    s.map_values(|c: char| c as u8)
}

/// Relies on base64's `URL_SAFE_NO_PAD.encode`: the text uses only the
/// URL-safe alphabet, has no padding (four characters per three bytes, two or
/// three for a final one or two), and decoding it with the same engine gives
/// the input back.
#[verifier::external_body]
fn base64url_encode(data: &[u8]) -> (r: String)
    ensures
        r@ == base64url_encoded(data@),
        r@.len() == (4 * data@.len() + 2) / 3,
        forall|i: int| 0 <= i < r@.len() ==> is_url_safe_char(#[trigger] r@[i]),
        base64url_decoded(ascii_bytes(r@)) == Some(data@),
{
    URL_SAFE_NO_PAD.encode(data)
}

/// Relies on base64's `URL_SAFE_NO_PAD.decode`: it fails exactly when the
/// text is not unpadded base64url, and otherwise returns the bytes it stands for.
#[verifier::external_body]
fn base64url_decode(text: &[u8]) -> (r: Result<Vec<u8>, base64::DecodeError>)
    ensures
        match r {
            Ok(v) => base64url_decoded(text@) == Some(v@),
            Err(_) => base64url_decoded(text@) is None,
        },
{
    URL_SAFE_NO_PAD.decode(text)
}

/// Relies on the `Display` of base64::DecodeError: a description of the failure.
#[verifier::external_body]
fn describe_decode_error(e: &base64::DecodeError) -> String {
    e.to_string()
}

/// The armored text of `body`.
pub open spec fn armor_text(body: Seq<u8>) -> Seq<char> {
    V1_MAGIC@ + base64url_encoded(body)
}

/// What unwrapping the text with bytes `text` gives: the body, or the kind of
/// the error.
pub open spec fn unwrap_outcome(text: Seq<u8>) -> Result<Seq<u8>, ErrorKind> {
    let v1 = V1_MAGIC.spec_bytes();
    let prefix = MAGIC_PREFIX.spec_bytes();
    if text.len() < v1.len() {
        Err(ErrorKind::ArmoringInvalid)
    } else if text.subrange(0, v1.len() as int) == v1 {
        match base64url_decoded(text.subrange(v1.len() as int, text.len() as int)) {
            Some(body) => Ok(body),
            None => Err(ErrorKind::ArmoringDecode),
        }
    } else if text.subrange(0, prefix.len() as int) == prefix {
        Err(ErrorKind::ArmoringFromFuture)
    } else {
        Err(ErrorKind::ArmoringInvalid)
    }
}

/// The failure of unwrapping the text with bytes `text`, as `unwrap` reports
/// it: the kind of `unwrap_outcome`, a user error, and the message of the
/// failing check; a decoding failure keeps base64's description as its cause.
pub open spec fn unwrap_error(text: Seq<u8>, e: SaltyboxError) -> bool {
    let v1 = V1_MAGIC.spec_bytes();
    let prefix = MAGIC_PREFIX.spec_bytes();
    &&& e.spec_kind() is Some
    &&& unwrap_outcome(text) == Err::<Seq<u8>, ErrorKind>(e.spec_kind()->Some_0)
    &&& e.spec_category() == ErrorCategory::User
    &&& if text.len() < v1.len() {
        e.text() == "input size smaller than magic marker; likely truncated"@
    } else if text.subrange(0, v1.len() as int) == v1 {
        &&& e.cause() matches Some(c)
        &&& e.text() == "base64 decoding failed: "@ + c.text()
        &&& c.spec_category() == ErrorCategory::User
        &&& c.spec_kind() is None
    } else if text.subrange(0, prefix.len() as int) == prefix {
        e.text() == "input claims to be saltybox, but not a version we support"@
    } else {
        e.text() == "input unrecognized as saltybox data"@
    }
}

/// Unwrapping the text with bytes `text` gives `body`.
pub open spec fn unwraps_to(text: Seq<u8>, body: Seq<u8>) -> bool {
    unwrap_outcome(text) == Ok::<Seq<u8>, ErrorKind>(body)
}

/// The markers are ASCII: the version marker is 10 bytes, the magic prefix
/// its first 8.
pub proof fn lemma_magic()
    ensures
        V1_MAGIC@.len() == 10,
        MAGIC_PREFIX@.len() == 8,
        V1_MAGIC.spec_bytes() == ascii_bytes(V1_MAGIC@),
        MAGIC_PREFIX.spec_bytes() == ascii_bytes(MAGIC_PREFIX@),
        is_ascii_chars(V1_MAGIC@),
        is_ascii_chars(MAGIC_PREFIX@),
        V1_MAGIC@.subrange(0, 8) == MAGIC_PREFIX@,
        forall|i: int| 0 <= i < 10 ==> (#[trigger] V1_MAGIC@[i] == ':' || is_url_safe_char(V1_MAGIC@[i])),
{
    reveal_strlit("saltybox1:");
    reveal_strlit("saltybox");
    assert(V1_MAGIC@.subrange(0, 8) =~= MAGIC_PREFIX@);
    assert(is_ascii_chars(V1_MAGIC@));
    assert(is_ascii_chars(MAGIC_PREFIX@));
    assert(V1_MAGIC.spec_bytes() =~= ascii_bytes(V1_MAGIC@));
    assert(MAGIC_PREFIX.spec_bytes() =~= ascii_bytes(MAGIC_PREFIX@));
}

/// Text that starts with the magic prefix, is at least as long as the version
/// marker, and does not start with the supported marker is from a future
/// version; text that does not start with the magic prefix is not armor.
pub proof fn lemma_version_handling(text: Seq<u8>)
    ensures
        text.len() >= V1_MAGIC.spec_bytes().len() && text.subrange(
            0,
            MAGIC_PREFIX.spec_bytes().len() as int,
        ) == MAGIC_PREFIX.spec_bytes() && text.subrange(0, V1_MAGIC.spec_bytes().len() as int)
            != V1_MAGIC.spec_bytes() ==> unwrap_outcome(text) == Err::<Seq<u8>, ErrorKind>(
            ErrorKind::ArmoringFromFuture,
        ),
        !(MAGIC_PREFIX.spec_bytes().len() <= text.len() && text.subrange(
            0,
            MAGIC_PREFIX.spec_bytes().len() as int,
        ) == MAGIC_PREFIX.spec_bytes()) ==> unwrap_outcome(text) == Err::<Seq<u8>, ErrorKind>(
            ErrorKind::ArmoringInvalid,
        ),
{
    lemma_magic();
    if text.len() >= 10 && text.subrange(0, 10) == V1_MAGIC.spec_bytes() {
        assert(text.subrange(0, 8) =~= text.subrange(0, 10).subrange(0, 8));
        assert(V1_MAGIC.spec_bytes().subrange(0, 8) =~= MAGIC_PREFIX.spec_bytes());
    }
}

/// Whether `data` starts with `prefix`.
fn starts_with(data: &[u8], prefix: &[u8]) -> (r: bool)
    ensures
        r == (prefix@.len() <= data@.len() && data@.subrange(0, prefix@.len() as int) == prefix@),
{
    if data.len() < prefix.len() {
        return false;
    }
    let mut i: usize = 0;
    while i < prefix.len()
        invariant
            prefix@.len() <= data@.len(),
            i <= prefix@.len(),
            data@.subrange(0, i as int) == prefix@.subrange(0, i as int),
        decreases prefix@.len() - i,
    {
        if data[i] != prefix[i] {
            assert(data@.subrange(0, prefix@.len() as int)[i as int] != prefix@[i as int]);
            return false;
        }
        i = i + 1;
        assert(data@.subrange(0, i as int) =~= prefix@.subrange(0, i as int));
    }
    assert(prefix@.subrange(0, i as int) =~= prefix@);
    true
}

/// Wraps bytes in the armor: `saltybox1:` and then their unpadded base64url.
/// The text holds no whitespace, `+`, `/` or `=`, and unwraps to `body`.
pub fn wrap(body: &[u8]) -> (r: String)
    ensures
        r@ == armor_text(body@),
        r@.len() == V1_MAGIC@.len() + (4 * body@.len() + 2) / 3,
        forall|i: int|
            V1_MAGIC@.len() <= i < r@.len() ==> is_url_safe_char(#[trigger] r@[i]),
        forall|i: int| 0 <= i < r@.len() ==> #[trigger] r@[i] == ':' || is_url_safe_char(r@[i]),
        forall|i: int|
            0 <= i < r@.len() ==> !is_whitespace_char(#[trigger] r@[i]) && r@[i] != '+' && r@[i]
                != '/' && r@[i] != '=',
        unwraps_to(encode_utf8(r@), body@),
{
    let encoded = base64url_encode(body);
    let mut out = String::from_str(V1_MAGIC);
    out.append(encoded.as_str());
    proof {
        lemma_magic();
        let t = out@;
        let v1 = V1_MAGIC@;
        let enc = encoded@;
        assert(t =~= v1 + enc);
        assert forall|i: int| 0 <= i < t.len() implies t[i] == ':' || is_url_safe_char(
            #[trigger] t[i],
        ) by {
            if i >= 10 {
                assert(t[i] == enc[i - 10]);
            }
        }
        assert(is_ascii_chars(t));
        assert(is_ascii_chars(enc));
        let bytes = encode_utf8(t);
        assert(bytes.subrange(0, 10) =~= V1_MAGIC.spec_bytes());
        assert(bytes.subrange(10, bytes.len() as int) =~= ascii_bytes(enc));
    }
    out
}

/// Unwraps armored text. Text shorter than the version marker, or not
/// starting with the magic prefix, is `ArmoringInvalid`; the magic prefix with
/// another version is `ArmoringFromFuture`; bad base64 after the marker is
/// `ArmoringDecode`.
pub fn unwrap(armored: &str) -> (r: Result<Vec<u8>, SaltyboxError>)
    ensures
        match r {
            Ok(body) => unwraps_to(armored.spec_bytes(), body@),
            Err(e) => unwrap_error(armored.spec_bytes(), e),
        },
{
    proof {
        lemma_magic();
    }
    let bytes = armored.as_bytes();
    if bytes.len() < V1_MAGIC.len() {
        return Err(
            SaltyboxError::with_kind(
                ErrorCategory::User,
                ErrorKind::ArmoringInvalid,
                "input size smaller than magic marker; likely truncated",
            ),
        );
    }
    if starts_with(bytes, V1_MAGIC.as_bytes()) {
        match base64url_decode(&bytes[V1_MAGIC.len()..bytes.len()]) {
            Ok(body) => Ok(body),
            Err(e) => {
                let cause = describe_decode_error(&e);
                let mut msg = String::from_str("base64 decoding failed: ");
                msg.append(cause.as_str());
                Err(
                    SaltyboxError::with_kind_and_source(
                        ErrorCategory::User,
                        ErrorKind::ArmoringDecode,
                        msg.as_str(),
                        SaltyboxError::new(ErrorCategory::User, cause.as_str()),
                    ),
                )
            },
        }
    } else if starts_with(bytes, MAGIC_PREFIX.as_bytes()) {
        Err(
            SaltyboxError::with_kind(
                ErrorCategory::User,
                ErrorKind::ArmoringFromFuture,
                "input claims to be saltybox, but not a version we support",
            ),
        )
    } else {
        Err(
            SaltyboxError::with_kind(
                ErrorCategory::User,
                ErrorKind::ArmoringInvalid,
                "input unrecognized as saltybox data",
            ),
        )
    }
}

} // verus!
