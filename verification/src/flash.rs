//! Writing an image: decompressing it beforehand, copying it to the target and reading it back.
//!
//! Each operation is a machine. It is told what the last read, write or seek came to and answers
//! with the next one to perform, so the order of all accesses and every decision between them
//! stand here.

use vstd::prelude::*;

pub mod gzip;
pub mod prepare;
pub mod raw;

pub use crate::flash::gzip::flash_gzip;
pub use crate::flash::prepare::prepare_gzip;
pub use crate::flash::raw::write_raw;

use crate::digest;
use crate::digest::{hex_encode, Hasher};
use crate::text;
use crate::text::same_ignoring_case;

verus! {

broadcast use vstd::seq_lib::group_seq_properties;

/// The most bytes that one access moves.
pub const BUFFER_SIZE: usize = 1_048_576;

/// Result of a flash operation.
#[derive(Clone, Debug, PartialEq, Eq)]
pub struct FlashReport {
    pub bytes_written: u64,
    pub raw_sha256: String,
    pub verified: bool,
}

/// What a [`FlashReport`] holds.
pub struct FlashReportView {
    pub bytes_written: u64,
    pub raw_sha256: Seq<char>,
    pub verified: bool,
}

impl View for FlashReport {
    type V = FlashReportView;

    open spec fn view(&self) -> FlashReportView {
        FlashReportView {
            bytes_written: self.bytes_written,
            raw_sha256: self.raw_sha256@,
            verified: self.verified,
        }
    }
}

/// A prepared uncompressed image that is safe to hand to a privileged writer.
#[derive(Clone, Debug, PartialEq, Eq)]
pub struct PreparedImage {
    pub bytes: u64,
    pub raw_sha256: String,
}

/// What a [`PreparedImage`] holds.
pub struct PreparedImageView {
    pub bytes: u64,
    pub raw_sha256: Seq<char>,
}

impl View for PreparedImage {
    type V = PreparedImageView;

    open spec fn view(&self) -> PreparedImageView {
        PreparedImageView { bytes: self.bytes, raw_sha256: self.raw_sha256@ }
    }
}

/// The currently active phase of the image pipeline.
#[derive(Clone, Copy, Debug, PartialEq, Eq, Structural)]
pub enum FlashStage {
    Decompressing,
    Writing,
    Verifying,
}

/// Monotonic byte progress for one pipeline phase.
#[derive(Clone, Copy, Debug, PartialEq, Eq)]
pub struct FlashProgress {
    pub stage: FlashStage,
    pub processed: u64,
    pub total: Option<u64>,
}

/// Safe core flash errors.
#[derive(Debug)]
pub enum FlashError {
    Io(String),
    CompressedChecksum,
    TargetTooSmall,
    RawSize,
    Cancelled,
    Verification,
}

impl FlashError {
    /// The sentence shown for the error.
    pub open spec fn text(self) -> Seq<char> {
        match self {
            FlashError::Io(message) => "I/O error while flashing: "@ + message@,
            FlashError::CompressedChecksum => "the downloaded image checksum does not match"@,
            FlashError::TargetTooSmall => "the image is larger than the selected target"@,
            FlashError::RawSize => {
                "the uncompressed image size does not match the release manifest"@
            },
            FlashError::Cancelled => "the flash operation was cancelled"@,
            FlashError::Verification => "the written data could not be verified"@,
        }
    }

    /// The sentence shown for the error.
    pub fn message(&self) -> (result: String)
        ensures
            result@ == self.text(),
    {
        match self {
            FlashError::Io(message) => text::join2(
                "I/O error while flashing: ",
                message.as_str(),
            ),
            FlashError::CompressedChecksum => {
                "the downloaded image checksum does not match".to_owned()
            },
            FlashError::TargetTooSmall => {
                "the image is larger than the selected target".to_owned()
            },
            FlashError::RawSize => {
                "the uncompressed image size does not match the release manifest".to_owned()
            },
            FlashError::Cancelled => "the flash operation was cancelled".to_owned(),
            FlashError::Verification => "the written data could not be verified".to_owned(),
        }
    }

    /// A copy of the error.
    pub fn copy(&self) -> (result: FlashError)
        ensures
            result == *self,
    {
        match self {
            FlashError::Io(message) => FlashError::Io(message.clone()),
            FlashError::CompressedChecksum => FlashError::CompressedChecksum,
            FlashError::TargetTooSmall => FlashError::TargetTooSmall,
            FlashError::RawSize => FlashError::RawSize,
            FlashError::Cancelled => FlashError::Cancelled,
            FlashError::Verification => FlashError::Verification,
        }
    }
}

/// Whether a digest satisfies an expectation that may be absent. Hexadecimal digits are compared
/// without regard to their case.
pub open spec fn digest_accepted(expected: Option<Seq<char>>, actual: Seq<char>) -> bool {
    match expected {
        Some(wanted) => text::lower_text(wanted) == text::lower_text(actual),
        None => true,
    }
}

/// A digest is accepted where nothing is expected, and else exactly where it has the expected
/// characters, but for the case of letters: another length or another digit is refused.
pub proof fn accepted_digest_is_the_expected_one(wanted: Seq<char>, actual: Seq<char>)
    ensures
        digest_accepted(None, actual),
        digest_accepted(Some(actual), actual),
        digest_accepted(Some(wanted), actual) <==> wanted.len() == actual.len() && forall|i: int|
            0 <= i < wanted.len() ==> #[trigger] wanted[i] == actual[i] || (text::is_ascii_letter(
                wanted[i],
            ) && text::is_ascii_letter(actual[i]) && (wanted[i] as int - actual[i] as int == 32
                || actual[i] as int - wanted[i] as int == 32)),
{
    text::case_is_all_that_is_disregarded(wanted, actual);
}

/// Whether a digest satisfies an expectation that may be absent.
pub fn digest_is_accepted(expected: &Option<String>, actual: &str) -> (accepted: bool)
    ensures
        accepted == digest_accepted(text::optional_text(*expected), actual@),
{
    match expected {
        Some(wanted) => same_ignoring_case(wanted.as_str(), actual),
        None => true,
    }
}

// ---------------------------------------------------------------------------------------------
// Checking a file against a digest
// ---------------------------------------------------------------------------------------------

/// A file that is being hashed from its first byte to its last.
pub struct FileCheck {
    hasher: Hasher,
}

impl View for FileCheck {
    type V = Seq<u8>;

    /// The bytes read so far.
    closed spec fn view(&self) -> Seq<u8> {
        digest::hashed_bytes(self.hasher)
    }
}

impl FileCheck {
    /// A file of which nothing has been read yet.
    pub fn new() -> (check: FileCheck)
        ensures
            check@ == Seq::<u8>::empty(),
    {
        FileCheck { hasher: Hasher::new() }
    }

    /// The next bytes of the file.
    pub fn feed(&mut self, bytes: &[u8])
        ensures
            final(self)@ == old(self)@ + bytes@,
    {
        self.hasher.update(bytes);
    }

    /// The hexadecimal digest of what was read.
    pub fn sha256(&self) -> (result: String)
        ensures
            result@ == digest::sha256_text(self@),
    {
        let digest = self.hasher.digest();
        hex_encode(&digest)
    }
}

/// Check a completely read archive against its expected digest before any target is touched.
pub fn verify_archive(check: &FileCheck, expected_sha256: &str) -> (result: Result<(), FlashError>)
    ensures
        result is Ok <==> text::lower_text(digest::sha256_text(check@)) == text::lower_text(
            expected_sha256@,
        ),
        result matches Err(error) ==> error == FlashError::CompressedChecksum,
{
    verify_file_sha256(check, expected_sha256)
}

/// Check any completely read file against an expected SHA-256 digest.
pub fn verify_file_sha256(check: &FileCheck, expected_sha256: &str) -> (result: Result<
    (),
    FlashError,
>)
    ensures
        result is Ok <==> text::lower_text(digest::sha256_text(check@)) == text::lower_text(
            expected_sha256@,
        ),
        result matches Err(error) ==> error == FlashError::CompressedChecksum,
{
    let actual = check.sha256();
    verify_digest(actual.as_str(), expected_sha256)
}

/// Check the digest of a completely read file against an expected one.
pub fn verify_digest(actual: &str, expected_sha256: &str) -> (result: Result<(), FlashError>)
    ensures
        result is Ok <==> text::lower_text(actual@) == text::lower_text(expected_sha256@),
        result matches Err(error) ==> error == FlashError::CompressedChecksum,
{
    if same_ignoring_case(actual, expected_sha256) {
        Ok(())
    } else {
        Err(FlashError::CompressedChecksum)
    }
}

/// What an access to a file or a device came to.
#[derive(Debug)]
pub enum AccessEvent {
    /// The access succeeded.
    Done,
    /// The bytes that a read gave; none at the end of what can be read.
    Chunk(Vec<u8>),
    /// The access failed.
    Failed(String),
}

impl AccessEvent {
    /// The bytes that the event brought.
    pub open spec fn bytes(self) -> Seq<u8> {
        match self {
            AccessEvent::Chunk(chunk) => chunk@,
            _ => Seq::empty(),
        }
    }
}

} // verus!
