//! SHA-256 digests and their hexadecimal text.

use sha2::Digest;
use vstd::prelude::*;

use crate::text;

verus! {

/// A running SHA-256 computation of the `sha2` crate.
///
/// `sha2::Sha256` names an instance of a generic wrapper type, which cannot be declared by itself,
/// so the value stands in a private field. [`hashed_bytes`] names what has been fed to it.
#[verifier::external_body]
pub struct Hasher {
    inner: sha2::Sha256,
}

/// The bytes fed to a running computation so far.
pub uninterp spec fn hashed_bytes(hasher: Hasher) -> Seq<u8>;

/// What `sha2::Sha256` finalizes to when exactly these bytes were fed to it.
pub uninterp spec fn sha256_value(bytes: Seq<u8>) -> [u8; 32];

/// The SHA-256 digest of some bytes.
pub open spec fn sha256(bytes: Seq<u8>) -> Seq<u8> {
    sha256_value(bytes)@
}

impl Hasher {
    /// `sha2::Digest::new` starts a computation that nothing has been fed to.
    #[verifier::external_body]
    pub(crate) fn new() -> (hasher: Hasher)
        ensures
            hashed_bytes(hasher) == Seq::<u8>::empty(),
    {
        Hasher { inner: sha2::Sha256::new() }
    }

    /// `sha2::Digest::update` feeds the bytes behind those that were fed before.
    #[verifier::external_body]
    pub(crate) fn update(&mut self, bytes: &[u8])
        ensures
            hashed_bytes(*final(self)) == hashed_bytes(*old(self)) + bytes@,
    {
        self.inner.update(bytes);
    }

    /// `sha2::Digest::finalize`, on a copy of the computation, gives the digest of all that was
    /// fed so far. The digest has the fixed width of SHA-256.
    #[verifier::external_body]
    pub(crate) fn digest(&self) -> (digest: [u8; 32])
        ensures
            digest@ == sha256_value(hashed_bytes(*self))@,
    {
        self.inner.clone().finalize().into()
    }
}

/// The SHA-256 digest of some bytes.
pub fn sha256_of(bytes: &[u8]) -> (digest: [u8; 32])
    ensures
        digest@ == sha256(bytes@),
{
    let mut hasher = Hasher::new();
    hasher.update(bytes);
    assert(hashed_bytes(hasher) == bytes@);
    hasher.digest()
}

/// The lower-case hexadecimal digit of a value below sixteen.
pub open spec fn hex_char(value: nat) -> char {
    if value < 10 {
        ('0' as nat + value) as char
    } else {
        ('a' as nat + value - 10) as char
    }
}

/// The value of a hexadecimal digit of either case.
pub open spec fn hex_value(c: char) -> nat {
    if text::is_digit(c) {
        text::digit_value(c)
    } else if 'a' <= c <= 'f' {
        (c as nat - 'a' as nat + 10) as nat
    } else {
        (c as nat - 'A' as nat + 10) as nat
    }
}

/// The hexadecimal text of some bytes: two lower-case digits each, the higher half first.
pub open spec fn hex_text(bytes: Seq<u8>) -> Seq<char> {
    Seq::new(
        2 * bytes.len(),
        |i: int|
            if i % 2 == 0 {
                hex_char(bytes[i / 2] as nat / 16)
            } else {
                hex_char(bytes[i / 2] as nat % 16)
            },
    )
}

/// Whether a text is a run of whole pairs of hexadecimal digits.
pub open spec fn is_hex_text(text: Seq<char>) -> bool {
    text.len() % 2 == 0 && text::all_hex(text)
}

/// The bytes that a run of whole pairs of hexadecimal digits stands for.
pub open spec fn hex_bytes(text: Seq<char>) -> Seq<u8> {
    Seq::new(
        text.len() / 2,
        |i: int| (16 * hex_value(text[2 * i]) + hex_value(text[2 * i + 1])) as u8,
    )
}

/// `hex::encode` writes each byte as two lower-case digits, the higher half first.
#[verifier::external_body]
pub(crate) fn hex_encode(bytes: &[u8]) -> (text: String)
    ensures
        text@ == hex_text(bytes@),
{
    hex::encode(bytes)
}

/// `hex::decode` reads pairs of digits of either case and fails on an odd length and on any
/// character that is no hexadecimal digit. Which of the two faults it found is not stated.
#[verifier::external_body]
pub(crate) fn hex_decode(text: &str) -> (bytes: Option<Vec<u8>>)
    ensures
        match bytes {
            Some(decoded) => is_hex_text(text@) && decoded@ == hex_bytes(text@),
            None => !is_hex_text(text@),
        },
{
    hex::decode(text).ok()
}

/// The hexadecimal text of the SHA-256 digest of some bytes.
pub open spec fn sha256_text(bytes: Seq<u8>) -> Seq<char> {
    hex_text(sha256(bytes))
}

/// The text of a digest is one of 64 hexadecimal digits.
pub proof fn digest_text_is_a_digest(bytes: Seq<u8>)
    ensures
        is_sha256_text(sha256_text(bytes)),
{
    hex_reads_back(sha256(bytes));
}

/// Whether a text is a SHA-256 digest in hexadecimal digits of either case.
pub open spec fn is_sha256_text(text: Seq<char>) -> bool {
    text.len() == 64 && text::all_hex(text)
}

/// The bytes that hexadecimal digits of either case stand for have these digits as their text, in
/// lower case.
pub proof fn hex_digits_are_read_in_either_case(text: Seq<char>)
    requires
        is_hex_text(text),
    ensures
        hex_text(hex_bytes(text)) == text::lower_text(text),
{
    let bytes = hex_bytes(text);
    assert(2 * bytes.len() == text.len());
    assert forall|i: int| 0 <= i < text.len() implies hex_text(bytes)[i] == text::lower_text(
        text,
    )[i] by {
        let at = i / 2;
        assert(text::is_hex_digit(text[2 * at]));
        assert(text::is_hex_digit(text[2 * at + 1]));
        assert(text::is_hex_digit(text[i]));
        assert(bytes[at] == (16 * hex_value(text[2 * at]) + hex_value(text[2 * at + 1])) as u8);
        assert(i == 2 * at || i == 2 * at + 1);
        assert(hex_char(hex_value(text[i])) == text::lower_text(text)[i]);
    }
    assert(hex_text(bytes) =~= text::lower_text(text));
}

/// Reading the hexadecimal text of some bytes gives the bytes back.
pub proof fn hex_reads_back(bytes: Seq<u8>)
    ensures
        is_hex_text(hex_text(bytes)),
        hex_bytes(hex_text(bytes)) == bytes,
        text::lower_text(hex_text(bytes)) == hex_text(bytes),
{
    let text = hex_text(bytes);
    assert forall|i: int| 0 <= i < text.len() implies text::is_hex_digit(#[trigger] text[i]) by {
        assert(0 <= i / 2 < bytes.len());
    }
    assert forall|i: int| 0 <= i < bytes.len() implies hex_bytes(text)[i] == bytes[i] by {
        assert((2 * i) / 2 == i);
        assert((2 * i + 1) / 2 == i);
        assert(text[2 * i] == hex_char(bytes[i] as nat / 16));
        assert(text[2 * i + 1] == hex_char(bytes[i] as nat % 16));
    }
    assert(hex_bytes(text) =~= bytes);
    assert(text::lower_text(text) =~= text) by {
        assert forall|i: int| 0 <= i < text.len() implies text::lower_text(text)[i] == text[i] by {
            assert(0 <= i / 2 < bytes.len());
        }
    }
}

/// A text is taken for a digest exactly where it is 64 characters long and each of them is one of
/// the hexadecimal digits, of either case.
pub proof fn digest_has_64_hexadecimal_digits(text: Seq<char>)
    ensures
        is_sha256_text(text) <==> text.len() == 64 && forall|i: int|
            0 <= i < 64 ==> ('0' <= #[trigger] text[i] && text[i] <= '9') || ('a' <= text[i]
                && text[i] <= 'f') || ('A' <= text[i] && text[i] <= 'F'),
{
    if text.len() == 64 && (forall|i: int|
        0 <= i < 64 ==> ('0' <= #[trigger] text[i] && text[i] <= '9') || ('a' <= text[i]
            && text[i] <= 'f') || ('A' <= text[i] && text[i] <= 'F')) {
        assert forall|i: int| 0 <= i < text.len() implies text::is_hex_digit(
            #[trigger] text[i],
        ) by {}
    }
    if is_sha256_text(text) {
        assert forall|i: int| 0 <= i < 64 implies ('0' <= #[trigger] text[i] && text[i] <= '9')
            || ('a' <= text[i] && text[i] <= 'f') || ('A' <= text[i] && text[i] <= 'F') by {
            assert(text::is_hex_digit(text[i]));
        }
    }
}

} // verus!
