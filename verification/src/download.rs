//! Bounded, cancellable image downloads with atomic publication.
//!
//! The download is a machine: it is told what the last access came to and answers with the next
//! one to perform. The image is received into a sibling `.part` file, which takes the final name
//! only when every byte has been checked.

use vstd::prelude::*;
use vstd::string::*;

use crate::digest;
use crate::digest::{hex_decode, hex_encode, Hasher};
use crate::flash::raw::same_digest;
use crate::paths;
use crate::text;
use crate::text::{decimal_text, same_text};
use crate::urls;
use crate::urls::{parse_url, UrlParts, UrlView};

verus! {

broadcast use vstd::seq_lib::group_seq_properties;

/// The most bytes that one read of a response moves.
pub const BUFFER_SIZE: usize = 131_072;

/// The most redirects that a download follows.
pub const MAX_REDIRECTS: usize = 10;

/// One image download request.
#[derive(Clone, Copy, Debug)]
pub struct DownloadRequest<'a> {
    pub url: &'a str,
    pub destination: &'a str,
    pub expected_sha256: Option<&'a str>,
    pub expected_size: Option<u64>,
}

impl<'a> DownloadRequest<'a> {
    /// Create a request without optional integrity metadata.
    pub fn new(url: &'a str, destination: &'a str) -> (request: DownloadRequest<'a>)
        ensures
            request.url == url,
            request.destination == destination,
            request.expected_sha256 is None,
            request.expected_size is None,
    {
        DownloadRequest { url, destination, expected_sha256: None, expected_size: None }
    }
}

/// A progress snapshot emitted after each persisted chunk.
#[derive(Clone, Copy, Debug, PartialEq, Eq)]
pub struct DownloadProgress {
    pub downloaded: u64,
    pub total: Option<u64>,
}

/// Metadata for a successfully published download.
#[derive(Clone, Debug, PartialEq, Eq)]
pub struct DownloadReport {
    pub destination: String,
    pub bytes_downloaded: u64,
    pub sha256: String,
}

/// What a [`DownloadReport`] holds.
pub struct DownloadReportView {
    pub destination: Seq<char>,
    pub bytes_downloaded: u64,
    pub sha256: Seq<char>,
}

impl View for DownloadReport {
    type V = DownloadReportView;

    open spec fn view(&self) -> DownloadReportView {
        DownloadReportView {
            destination: self.destination@,
            bytes_downloaded: self.bytes_downloaded,
            sha256: self.sha256@,
        }
    }
}

/// Download failures that never leave a partially published destination.
#[derive(Debug)]
pub enum DownloadError {
    InvalidUrl(String),
    InsecureUrl(String),
    InvalidChecksum(String),
    InvalidDestination(String),
    DestinationExists(String),
    PartialExists(String),
    Request(String),
    Io(String),
    SizeMismatch { expected: u64, actual: u64 },
    SizeOverflow,
    ChecksumMismatch,
    Cancelled,
}

/// What a [`DownloadError`] holds.
pub enum DownloadErrorView {
    InvalidUrl(Seq<char>),
    InsecureUrl(Seq<char>),
    InvalidChecksum(Seq<char>),
    InvalidDestination(Seq<char>),
    DestinationExists(Seq<char>),
    PartialExists(Seq<char>),
    Request(Seq<char>),
    Io(Seq<char>),
    SizeMismatch { expected: u64, actual: u64 },
    SizeOverflow,
    ChecksumMismatch,
    Cancelled,
}

impl View for DownloadError {
    type V = DownloadErrorView;

    open spec fn view(&self) -> DownloadErrorView {
        match *self {
            DownloadError::InvalidUrl(url) => DownloadErrorView::InvalidUrl(url@),
            DownloadError::InsecureUrl(url) => DownloadErrorView::InsecureUrl(url@),
            DownloadError::InvalidChecksum(value) => DownloadErrorView::InvalidChecksum(value@),
            DownloadError::InvalidDestination(path) => DownloadErrorView::InvalidDestination(path@),
            DownloadError::DestinationExists(path) => DownloadErrorView::DestinationExists(path@),
            DownloadError::PartialExists(path) => DownloadErrorView::PartialExists(path@),
            DownloadError::Request(cause) => DownloadErrorView::Request(cause@),
            DownloadError::Io(cause) => DownloadErrorView::Io(cause@),
            DownloadError::SizeMismatch { expected, actual } => DownloadErrorView::SizeMismatch {
                expected,
                actual,
            },
            DownloadError::SizeOverflow => DownloadErrorView::SizeOverflow,
            DownloadError::ChecksumMismatch => DownloadErrorView::ChecksumMismatch,
            DownloadError::Cancelled => DownloadErrorView::Cancelled,
        }
    }
}

impl DownloadErrorView {
    /// The sentence shown for the error.
    pub open spec fn text(self) -> Seq<char> {
        match self {
            DownloadErrorView::InvalidUrl(url) => "invalid image URL: "@ + url,
            DownloadErrorView::InsecureUrl(url) => "image downloads require HTTPS: "@ + url,
            DownloadErrorView::InvalidChecksum(value) => {
                "invalid expected SHA-256 digest: "@ + value
            },
            DownloadErrorView::InvalidDestination(path) => {
                "download destination has no file name: "@ + path
            },
            DownloadErrorView::DestinationExists(path) => {
                "download destination already exists: "@ + path
            },
            DownloadErrorView::PartialExists(path) => {
                "another download is already using the partial file: "@ + path
            },
            DownloadErrorView::Request(cause) => "image request failed: "@ + cause,
            DownloadErrorView::Io(cause) => "download I/O failed: "@ + cause,
            DownloadErrorView::SizeMismatch { expected, actual } => {
                "download size mismatch: expected "@ + text::decimal(expected as nat)
                    + " bytes, received "@ + text::decimal(actual as nat) + " bytes"@
            },
            DownloadErrorView::SizeOverflow => "download size exceeds the supported range"@,
            DownloadErrorView::ChecksumMismatch => "download checksum mismatch"@,
            DownloadErrorView::Cancelled => "download was cancelled"@,
        }
    }
}

impl DownloadError {
    /// The sentence shown for the error.
    pub fn message(&self) -> (result: String)
        ensures
            result@ == self@.text(),
    {
        match self {
            DownloadError::InvalidUrl(url) => text::join2("invalid image URL: ", url.as_str()),
            DownloadError::InsecureUrl(url) => text::join2(
                "image downloads require HTTPS: ",
                url.as_str(),
            ),
            DownloadError::InvalidChecksum(value) => text::join2(
                "invalid expected SHA-256 digest: ",
                value.as_str(),
            ),
            DownloadError::InvalidDestination(path) => text::join2(
                "download destination has no file name: ",
                path.as_str(),
            ),
            DownloadError::DestinationExists(path) => text::join2(
                "download destination already exists: ",
                path.as_str(),
            ),
            DownloadError::PartialExists(path) => text::join2(
                "another download is already using the partial file: ",
                path.as_str(),
            ),
            DownloadError::Request(cause) => text::join2("image request failed: ", cause.as_str()),
            DownloadError::Io(cause) => text::join2("download I/O failed: ", cause.as_str()),
            DownloadError::SizeMismatch { expected, actual } => {
                let wanted = decimal_text(*expected);
                let got = decimal_text(*actual);
                let mut result = text::join3(
                    "download size mismatch: expected ",
                    wanted.as_str(),
                    " bytes, received ",
                );
                result.append(got.as_str());
                result.append(" bytes");
                result
            },
            DownloadError::SizeOverflow => "download size exceeds the supported range".to_owned(),
            DownloadError::ChecksumMismatch => "download checksum mismatch".to_owned(),
            DownloadError::Cancelled => "download was cancelled".to_owned(),
        }
    }
}

// ---------------------------------------------------------------------------------------------
// Checking a request
// ---------------------------------------------------------------------------------------------

/// Why a URL, as it was parsed, is not one that images are downloaded from, if it is not.
pub open spec fn parsed_url_fault(value: Seq<char>, url: Option<UrlView>) -> Option<
    DownloadErrorView,
> {
    match url {
        None => Some(DownloadErrorView::InvalidUrl(value)),
        Some(url) => if url.scheme != "https"@ {
            Some(DownloadErrorView::InsecureUrl(value))
        } else if url.host is None {
            Some(DownloadErrorView::InvalidUrl(value))
        } else {
            None
        },
    }
}

/// Why a text is not a URL that images are downloaded from, if it is not.
pub open spec fn url_fault(value: Seq<char>) -> Option<DownloadErrorView> {
    parsed_url_fault(value, urls::parsed_url(value))
}

/// The normalized form of a URL that images are downloaded from.
pub fn validate_url(value: &str) -> (result: Result<String, DownloadError>)
    ensures
        match result {
            Ok(url) => url_fault(value@) is None && urls::parsed_url(value@)->0.text == url@,
            Err(error) => url_fault(value@) == Some(error@),
        },
{
    accept_url(value, parse_url(value))
}

/// The normalized form of a URL, as it was parsed, that images are downloaded from.
pub fn accept_url(value: &str, url: Option<UrlParts>) -> (result: Result<String, DownloadError>)
    ensures
        match result {
            Ok(text) => parsed_url_fault(value@, urls::url_view(url)) is None && urls::url_view(
                url,
            )->0.text == text@,
            Err(error) => parsed_url_fault(value@, urls::url_view(url)) == Some(error@),
        },
{
    let url = match url {
        Some(url) => url,
        None => {
            return Err(DownloadError::InvalidUrl(value.to_owned()));
        },
    };
    if !same_text(url.scheme.as_str(), "https") {
        return Err(DownloadError::InsecureUrl(value.to_owned()));
    }
    if url.host.is_none() {
        return Err(DownloadError::InvalidUrl(value.to_owned()));
    }
    Ok(url.text)
}

/// The digest that a text of 64 hexadecimal digits stands for.
pub fn parse_sha256(value: &str) -> (result: Result<[u8; 32], DownloadError>)
    ensures
        match result {
            Ok(digest) => digest::is_sha256_text(value@) && digest@ == digest::hex_bytes(value@),
            Err(error) => !digest::is_sha256_text(value@) && error@
                == DownloadErrorView::InvalidChecksum(value@),
        },
{
    let decoded = match hex_decode(value) {
        Some(decoded) => decoded,
        None => {
            return Err(DownloadError::InvalidChecksum(value.to_owned()));
        },
    };
    if decoded.len() != 32 {
        return Err(DownloadError::InvalidChecksum(value.to_owned()));
    }
    let mut digest: [u8; 32] = [0u8;32];
    let mut index: usize = 0;
    while index < 32
        invariant
            index <= 32,
            decoded@.len() == 32,
            forall|i: int| 0 <= i < index ==> digest@[i] == decoded@[i],
        decreases 32 - index,
    {
        digest[index] = decoded[index];
        index += 1;
    }
    assert(digest@ =~= decoded@);
    Ok(digest)
}

/// The sibling file that an image is received into.
pub open spec fn partial_text(destination: Seq<char>) -> Option<Seq<char>> {
    let path = paths::path_view(destination);
    match (path.parent(), path.file_name()) {
        (Some(parent), Some(name)) => Some(
            paths::member_text(paths::path_text(parent), name + ".part"@),
        ),
        _ => None,
    }
}

/// The sibling file that an image is received into.
pub fn partial_path(destination: &str) -> (result: Result<String, DownloadError>)
    ensures
        match result {
            Ok(path) => partial_text(destination@) == Some(path@),
            Err(error) => partial_text(destination@) is None && error@
                == DownloadErrorView::InvalidDestination(destination@),
        },
{
    match (paths::parent_path(destination), paths::file_name(destination)) {
        (Some(parent), Some(name)) => {
            let partial_name = text::join2(name.as_str(), ".part");
            Ok(paths::member_path(parent.as_str(), partial_name.as_str()))
        },
        _ => Err(DownloadError::InvalidDestination(destination.to_owned())),
    }
}

/// Whether a redirect is followed.
#[derive(Clone, Copy, Debug, PartialEq, Eq, Structural)]
pub enum Redirect {
    Follow,
    /// It leads away from HTTPS.
    Insecure,
    /// It is one too many.
    TooMany,
}

/// Whether to follow a redirect to a URL with this scheme after so many URLs were visited.
pub open spec fn redirect_verdict(scheme: Seq<char>, visited: nat) -> Redirect {
    if scheme != "https"@ {
        Redirect::Insecure
    } else if visited >= MAX_REDIRECTS {
        Redirect::TooMany
    } else {
        Redirect::Follow
    }
}

/// Whether to follow a redirect to a URL with this scheme after so many URLs were visited.
pub fn follow_redirect(scheme: &str, visited: usize) -> (redirect: Redirect)
    ensures
        redirect == redirect_verdict(scheme@, visited as nat),
{
    if !same_text(scheme, "https") {
        Redirect::Insecure
    } else if visited >= MAX_REDIRECTS {
        Redirect::TooMany
    } else {
        Redirect::Follow
    }
}

// ---------------------------------------------------------------------------------------------
// The download
// ---------------------------------------------------------------------------------------------

/// What a download waits for.
#[derive(Clone, Copy, Debug, PartialEq, Eq, Structural)]
pub enum DownloadPhase {
    /// Whether the destination exists, before anything is requested.
    CheckingDestination,
    /// The answer to the request.
    Requesting,
    /// Whether the destination exists, before the image is received.
    CheckingAgain,
    /// Whether the partial file exists.
    CheckingPartial,
    /// The partial file is to be created.
    Creating,
    /// The first progress is to be reported.
    Reporting,
    /// A chunk is to be read.
    Reading,
    /// A chunk is to be written.
    Writing,
    /// The partial file is to be synchronized and closed.
    Syncing,
    /// Whether the destination exists, before the partial file takes its name.
    CheckingLast,
    /// The partial file is to take the name of the destination.
    Renaming,
    /// The download is over.
    Closed,
}

/// What an access came to.
#[derive(Debug)]
pub enum DownloadEvent {
    /// The access succeeded.
    Done,
    /// Whether a path exists.
    Exists(bool),
    /// The request was answered, with this length where the answer gives one.
    Response(Option<u64>),
    /// The request failed.
    RequestFailed(String),
    /// The bytes that a read gave; none at the end.
    Chunk(Vec<u8>),
    /// The access failed.
    Failed(String),
}

/// What to do next.
#[derive(Debug)]
pub enum DownloadAction {
    /// Look whether the destination exists.
    CheckDestination,
    /// Request this URL, without content encoding.
    Request(String),
    /// Look whether this partial file exists.
    CheckPartial(String),
    /// Create this partial file.
    CreatePartial(String),
    /// Report this progress.
    Report(DownloadProgress),
    /// Read the next chunk, of at most [`BUFFER_SIZE`] bytes.
    Read,
    /// Write the chunk that was read to the partial file, then report this progress.
    Write(DownloadProgress),
    /// Synchronize and close the partial file.
    Sync,
    /// Give the partial file the name of the destination.
    Rename,
    /// Hand out the report.
    Finish(DownloadReport),
    /// Report the error, after removing the partial file where this download created it.
    Fail { error: DownloadError, remove_partial: bool },
}

/// What a [`DownloadAction`] holds.
pub enum DownloadActionView {
    CheckDestination,
    Request(Seq<char>),
    CheckPartial(Seq<char>),
    CreatePartial(Seq<char>),
    Report(DownloadProgress),
    Read,
    Write(DownloadProgress),
    Sync,
    Rename,
    Finish(DownloadReportView),
    Fail { error: DownloadErrorView, remove_partial: bool },
}

impl View for DownloadAction {
    type V = DownloadActionView;

    open spec fn view(&self) -> DownloadActionView {
        match *self {
            DownloadAction::CheckDestination => DownloadActionView::CheckDestination,
            DownloadAction::Request(url) => DownloadActionView::Request(url@),
            DownloadAction::CheckPartial(path) => DownloadActionView::CheckPartial(path@),
            DownloadAction::CreatePartial(path) => DownloadActionView::CreatePartial(path@),
            DownloadAction::Report(progress) => DownloadActionView::Report(progress),
            DownloadAction::Read => DownloadActionView::Read,
            DownloadAction::Write(progress) => DownloadActionView::Write(progress),
            DownloadAction::Sync => DownloadActionView::Sync,
            DownloadAction::Rename => DownloadActionView::Rename,
            DownloadAction::Finish(report) => DownloadActionView::Finish(report@),
            DownloadAction::Fail { error, remove_partial } => DownloadActionView::Fail {
                error: error@,
                remove_partial,
            },
        }
    }
}

/// The state of a download.
pub struct DownloadState {
    /// The URL to request.
    pub url: Seq<char>,
    pub destination: Seq<char>,
    pub expected_digest: Option<Seq<u8>>,
    pub expected_size: Option<u64>,
    /// The total that progress is reported against.
    pub total: Option<u64>,
    pub phase: DownloadPhase,
    /// The bytes received so far.
    pub received: Seq<u8>,
    /// Whether the partial file is this download's own.
    pub created: bool,
}

impl DownloadState {
    /// Whether the event answers the access that the download waits for.
    pub open spec fn expects(self, event: DownloadEvent) -> bool {
        match self.phase {
            DownloadPhase::CheckingDestination
            | DownloadPhase::CheckingAgain
            | DownloadPhase::CheckingPartial
            | DownloadPhase::CheckingLast => event is Exists || event is Failed,
            DownloadPhase::Requesting => event is Response || event is RequestFailed,
            DownloadPhase::Reading => event is Chunk || event is Failed,
            DownloadPhase::Reporting => event is Done,
            DownloadPhase::Closed => false,
            _ => event is Done || event is Failed,
        }
    }

    /// The state in another phase.
    pub open spec fn at(self, phase: DownloadPhase) -> DownloadState {
        DownloadState { phase, ..self }
    }

    /// The download gives up and cleans up after itself.
    pub open spec fn fail(self, error: DownloadErrorView) -> (DownloadState, DownloadActionView) {
        (
            self.at(DownloadPhase::Closed),
            DownloadActionView::Fail { error, remove_partial: self.created },
        )
    }

    /// The name of the partial file.
    pub open spec fn partial(self) -> Seq<char> {
        partial_text(self.destination)->0
    }

    /// The image is about to be received.
    pub open spec fn transfer(self, cancelled: bool) -> (DownloadState, DownloadActionView) {
        if cancelled {
            self.fail(DownloadErrorView::Cancelled)
        } else if paths::path_view(self.destination).file_name() is None {
            self.fail(DownloadErrorView::InvalidDestination(self.destination))
        } else {
            (self.at(DownloadPhase::CheckingAgain), DownloadActionView::CheckDestination)
        }
    }

    /// The next read, unless the user has cancelled.
    pub open spec fn read(self, cancelled: bool) -> (DownloadState, DownloadActionView) {
        if cancelled {
            self.fail(DownloadErrorView::Cancelled)
        } else {
            (self.at(DownloadPhase::Reading), DownloadActionView::Read)
        }
    }

    /// A chunk has been read.
    pub open spec fn chunk(self, bytes: Seq<u8>, cancelled: bool) -> (
        DownloadState,
        DownloadActionView,
    ) {
        let received = self.received + bytes;
        if bytes.len() == 0 {
            if self.expected_size matches Some(expected) && received.len() != expected {
                self.fail(
                    DownloadErrorView::SizeMismatch {
                        expected: self.expected_size->0,
                        actual: received.len() as u64,
                    },
                )
            } else if self.expected_digest matches Some(expected) && expected != digest::sha256(
                received,
            ) {
                self.fail(DownloadErrorView::ChecksumMismatch)
            } else {
                (self.at(DownloadPhase::Syncing), DownloadActionView::Sync)
            }
        } else if cancelled {
            self.fail(DownloadErrorView::Cancelled)
        } else if received.len() > u64::MAX {
            self.fail(DownloadErrorView::SizeOverflow)
        } else if self.expected_size matches Some(expected) && received.len() > expected {
            self.fail(
                DownloadErrorView::SizeMismatch {
                    expected: self.expected_size->0,
                    actual: received.len() as u64,
                },
            )
        } else {
            (
                DownloadState { phase: DownloadPhase::Writing, received, ..self },
                DownloadActionView::Write(
                    DownloadProgress { downloaded: received.len() as u64, total: self.total },
                ),
            )
        }
    }

    /// It is known whether a path exists.
    pub open spec fn looked_up(self, found: bool) -> (DownloadState, DownloadActionView) {
        match self.phase {
            DownloadPhase::CheckingPartial => if found {
                self.fail(DownloadErrorView::PartialExists(self.partial()))
            } else {
                (
                    self.at(DownloadPhase::Creating),
                    DownloadActionView::CreatePartial(self.partial()),
                )
            },
            _ => if found {
                self.fail(DownloadErrorView::DestinationExists(self.destination))
            } else if self.phase == DownloadPhase::CheckingDestination {
                (self.at(DownloadPhase::Requesting), DownloadActionView::Request(self.url))
            } else if self.phase == DownloadPhase::CheckingAgain {
                (
                    self.at(DownloadPhase::CheckingPartial),
                    DownloadActionView::CheckPartial(self.partial()),
                )
            } else {
                (self.at(DownloadPhase::Renaming), DownloadActionView::Rename)
            },
        }
    }

    /// What follows on an event.
    pub open spec fn step(self, event: DownloadEvent, cancelled: bool) -> (
        DownloadState,
        DownloadActionView,
    ) {
        match event {
            DownloadEvent::Failed(cause) => self.fail(DownloadErrorView::Io(cause@)),
            DownloadEvent::RequestFailed(cause) => self.fail(DownloadErrorView::Request(cause@)),
            DownloadEvent::Exists(found) => self.looked_up(found),
            DownloadEvent::Response(length) => if self.expected_size is Some && length is Some
                && self.expected_size != length {
                self.fail(
                    DownloadErrorView::SizeMismatch {
                        expected: self.expected_size->0,
                        actual: length->0,
                    },
                )
            } else {
                (DownloadState {
                    total: if self.expected_size is Some {
                        self.expected_size
                    } else {
                        length
                    },
                    ..self
                }).transfer(cancelled)
            },
            DownloadEvent::Chunk(chunk) => self.chunk(chunk@, cancelled),
            DownloadEvent::Done => match self.phase {
                DownloadPhase::Creating => (
                    DownloadState { phase: DownloadPhase::Reporting, created: true, ..self },
                    DownloadActionView::Report(
                        DownloadProgress { downloaded: 0, total: self.total },
                    ),
                ),
                DownloadPhase::Reporting | DownloadPhase::Writing => self.read(cancelled),
                DownloadPhase::Syncing => (
                    self.at(DownloadPhase::CheckingLast),
                    DownloadActionView::CheckDestination,
                ),
                _ => (
                    DownloadState { phase: DownloadPhase::Closed, created: false, ..self },
                    DownloadActionView::Finish(
                        DownloadReportView {
                            destination: self.destination,
                            bytes_downloaded: self.received.len() as u64,
                            sha256: digest::sha256_text(self.received),
                        },
                    ),
                ),
            },
        }
    }

    /// What a download keeps: nothing is received before the partial file is its own, and never
    /// more than expected.
    pub open spec fn well_formed(self) -> bool {
        &&& self.received.len() <= u64::MAX
        &&& self.expected_size matches Some(expected) ==> self.received.len() <= expected
        &&& self.expected_digest matches Some(digest) ==> digest.len() == 32
        &&& match self.phase {
            DownloadPhase::CheckingDestination | DownloadPhase::Requesting => !self.created
                && self.received.len() == 0,
            DownloadPhase::CheckingAgain
            | DownloadPhase::CheckingPartial
            | DownloadPhase::Creating => !self.created && self.received.len() == 0
                && paths::path_view(self.destination).file_name() is Some,
            DownloadPhase::Reporting => self.created && self.received.len() == 0,
            DownloadPhase::Reading | DownloadPhase::Writing => self.created,
            DownloadPhase::Syncing
            | DownloadPhase::CheckingLast
            | DownloadPhase::Renaming => self.created && self.complete(),
            DownloadPhase::Closed => true,
        }
    }

    /// Whether what was received is all that was expected.
    pub open spec fn complete(self) -> bool {
        &&& self.expected_size matches Some(expected) ==> self.received.len() == expected
        &&& self.expected_digest matches Some(expected) ==> expected == digest::sha256(
            self.received,
        )
    }
}

/// Downloads one image to a sibling `.part` file and publishes it only after validation.
///
/// Cancellation is observed before the request and between all reads and writes.
pub struct Download {
    url: String,
    destination: String,
    expected_digest: Option<[u8; 32]>,
    expected_size: Option<u64>,
    total: Option<u64>,
    phase: DownloadPhase,
    downloaded: u64,
    hasher: Hasher,
    created: bool,
}

/// The view of an optional digest.
pub open spec fn digest_view(digest: Option<[u8; 32]>) -> Option<Seq<u8>> {
    match digest {
        Some(bytes) => Some(bytes@),
        None => None,
    }
}

impl View for Download {
    type V = DownloadState;

    closed spec fn view(&self) -> DownloadState {
        DownloadState {
            url: self.url@,
            destination: self.destination@,
            expected_digest: digest_view(self.expected_digest),
            expected_size: self.expected_size,
            total: self.total,
            phase: self.phase,
            received: digest::hashed_bytes(self.hasher),
            created: self.created,
        }
    }
}

/// Why a request is refused before anything is looked up or requested, if it is.
pub open spec fn request_fault(request: DownloadRequest, cancelled: bool) -> Option<
    DownloadErrorView,
> {
    if url_fault(request.url@) is Some {
        url_fault(request.url@)
    } else if request.expected_sha256 matches Some(value) && !digest::is_sha256_text(value@) {
        Some(DownloadErrorView::InvalidChecksum(request.expected_sha256->0@))
    } else if cancelled {
        Some(DownloadErrorView::Cancelled)
    } else if paths::path_view(request.destination@).file_name() is None {
        Some(DownloadErrorView::InvalidDestination(request.destination@))
    } else {
        None
    }
}

/// How the download of an acceptable request begins.
pub open spec fn download_start(request: DownloadRequest) -> DownloadState {
    DownloadState {
        url: urls::parsed_url(request.url@)->0.text,
        destination: request.destination@,
        expected_digest: match request.expected_sha256 {
            Some(value) => Some(digest::hex_bytes(value@)),
            None => None,
        },
        expected_size: request.expected_size,
        total: None,
        phase: DownloadPhase::CheckingDestination,
        received: Seq::empty(),
        created: false,
    }
}

/// How the transfer of an answer that is already being received begins.
pub open spec fn transfer_start(
    destination: Seq<char>,
    expected_digest: Option<[u8; 32]>,
    expected_size: Option<u64>,
    progress_total: Option<u64>,
) -> DownloadState {
    DownloadState {
        url: Seq::empty(),
        destination,
        expected_digest: digest_view(expected_digest),
        expected_size,
        total: progress_total,
        phase: DownloadPhase::CheckingAgain,
        received: Seq::empty(),
        created: false,
    }
}

/// Downloads images over HTTPS only.
pub struct DownloadClient {}

impl DownloadClient {
    /// Begin the download of a request. A request that cannot be downloaded is refused before
    /// anything is looked up; then the first action is to look whether the destination exists.
    pub fn download(request: &DownloadRequest, cancelled: bool) -> (result: Result<
        (Download, DownloadAction),
        DownloadError,
    >)
        ensures
            match result {
                Ok((download, action)) => request_fault(*request, cancelled) is None
                    && download.well_formed() && download@ == download_start(*request) && action@
                    == DownloadActionView::CheckDestination,
                Err(error) => request_fault(*request, cancelled) == Some(error@),
            },
    {
        let url = match validate_url(request.url) {
            Ok(url) => url,
            Err(error) => {
                return Err(error);
            },
        };
        let expected_digest = match request.expected_sha256 {
            Some(value) => match parse_sha256(value) {
                Ok(digest) => Some(digest),
                Err(error) => {
                    return Err(error);
                },
            },
            None => None,
        };
        if cancelled {
            return Err(DownloadError::Cancelled);
        }
        if paths::file_name(request.destination).is_none() {
            return Err(DownloadError::InvalidDestination(request.destination.to_owned()));
        }
        let download = Download {
            url,
            destination: request.destination.to_owned(),
            expected_digest,
            expected_size: request.expected_size,
            total: None,
            phase: DownloadPhase::CheckingDestination,
            downloaded: 0,
            hasher: Hasher::new(),
            created: false,
        };
        Ok((download, DownloadAction::CheckDestination))
    }
}

impl Download {
    /// Whether the byte count is that of the bytes, and the state one that can be reached.
    pub closed spec fn well_formed(self) -> bool {
        &&& self.downloaded == digest::hashed_bytes(self.hasher).len()
        &&& self@.well_formed()
    }

    /// Begin to receive an answer whose expectations are known already.
    pub fn transfer_to(
        destination: &str,
        expected_digest: Option<[u8; 32]>,
        expected_size: Option<u64>,
        progress_total: Option<u64>,
        cancelled: bool,
    ) -> (result: (Download, DownloadAction))
        ensures
            result.0.well_formed(),
            (result.0@, result.1@) == transfer_start(
                destination@,
                expected_digest,
                expected_size,
                progress_total,
            ).transfer(cancelled),
    {
        let mut download = Download {
            url: String::new(),
            destination: destination.to_owned(),
            expected_digest,
            expected_size,
            total: progress_total,
            phase: DownloadPhase::CheckingAgain,
            downloaded: 0,
            hasher: Hasher::new(),
            created: false,
        };
        if cancelled {
            let action = download.fail(DownloadError::Cancelled);
            return (download, action);
        }
        if paths::file_name(destination).is_none() {
            let action = download.fail(DownloadError::InvalidDestination(destination.to_owned()));
            return (download, action);
        }
        (download, DownloadAction::CheckDestination)
    }

    fn fail(&mut self, error: DownloadError) -> (action: DownloadAction)
        requires
            old(self).downloaded == digest::hashed_bytes(old(self).hasher).len(),
            old(self).expected_size matches Some(expected) ==> old(self).downloaded <= expected,
        ensures
            final(self).well_formed(),
            (final(self)@, action@) == old(self)@.fail(error@),
    {
        self.phase = DownloadPhase::Closed;
        DownloadAction::Fail { error, remove_partial: self.created }
    }

    fn transfer(&mut self, cancelled: bool) -> (action: DownloadAction)
        requires
            old(self).well_formed(),
            old(self)@.phase == DownloadPhase::Requesting,
        ensures
            final(self).well_formed(),
            (final(self)@, action@) == old(self)@.transfer(cancelled),
    {
        if cancelled {
            return self.fail(DownloadError::Cancelled);
        }
        if paths::file_name(self.destination.as_str()).is_none() {
            let destination = self.destination.clone();
            return self.fail(DownloadError::InvalidDestination(destination));
        }
        self.phase = DownloadPhase::CheckingAgain;
        DownloadAction::CheckDestination
    }

    fn chunk(&mut self, bytes: &Vec<u8>, cancelled: bool) -> (action: DownloadAction)
        requires
            old(self).well_formed(),
            old(self)@.phase == DownloadPhase::Reading,
        ensures
            final(self).well_formed(),
            (final(self)@, action@) == old(self)@.chunk(bytes@, cancelled),
    {
        if bytes.len() == 0 {
            assert(self@.received + bytes@ =~= self@.received);
            if let Some(expected) = self.expected_size {
                if self.downloaded != expected {
                    let actual: u64 = self.downloaded;
                    return self.fail(DownloadError::SizeMismatch { expected, actual });
                }
            }
            if let Some(expected) = &self.expected_digest {
                let digest = self.hasher.digest();
                if !same_digest(expected, &digest) {
                    return self.fail(DownloadError::ChecksumMismatch);
                }
            }
            self.phase = DownloadPhase::Syncing;
            return DownloadAction::Sync;
        }
        if cancelled {
            return self.fail(DownloadError::Cancelled);
        }
        let count: u64 = bytes.len() as u64;
        let next: u64 = match self.downloaded.checked_add(count) {
            Some(next) => next,
            None => {
                return self.fail(DownloadError::SizeOverflow);
            },
        };
        if let Some(expected) = self.expected_size {
            if next > expected {
                return self.fail(DownloadError::SizeMismatch { expected, actual: next });
            }
        }
        self.hasher.update(bytes.as_slice());
        self.downloaded = next;
        self.phase = DownloadPhase::Writing;
        DownloadAction::Write(DownloadProgress { downloaded: next, total: self.total })
    }

    fn looked_up(&mut self, found: bool) -> (action: DownloadAction)
        requires
            old(self).well_formed(),
            old(self)@.expects(DownloadEvent::Exists(found)),
        ensures
            final(self).well_formed(),
            (final(self)@, action@) == old(self)@.looked_up(found),
    {
        if self.phase == DownloadPhase::CheckingPartial {
            return match partial_path(self.destination.as_str()) {
                Ok(path) => if found {
                    self.fail(DownloadError::PartialExists(path))
                } else {
                    self.phase = DownloadPhase::Creating;
                    DownloadAction::CreatePartial(path)
                },
                Err(error) => self.fail(error),
            };
        }
        if found {
            let destination = self.destination.clone();
            return self.fail(DownloadError::DestinationExists(destination));
        }
        match self.phase {
            DownloadPhase::CheckingDestination => {
                self.phase = DownloadPhase::Requesting;
                DownloadAction::Request(self.url.clone())
            },
            DownloadPhase::CheckingAgain => match partial_path(self.destination.as_str()) {
                Ok(path) => {
                    self.phase = DownloadPhase::CheckingPartial;
                    DownloadAction::CheckPartial(path)
                },
                Err(error) => self.fail(error),
            },
            _ => {
                self.phase = DownloadPhase::Renaming;
                DownloadAction::Rename
            },
        }
    }

    /// What to do next after an access. `cancelled` is the user's wish at this moment.
    pub fn step(&mut self, event: &DownloadEvent, cancelled: bool) -> (action: DownloadAction)
        requires
            old(self).well_formed(),
            old(self)@.expects(*event),
        ensures
            final(self).well_formed(),
            (final(self)@, action@) == old(self)@.step(*event, cancelled),
    {
        match event {
            DownloadEvent::Failed(cause) => self.fail(DownloadError::Io(cause.clone())),
            DownloadEvent::RequestFailed(cause) => self.fail(DownloadError::Request(cause.clone())),
            DownloadEvent::Exists(found) => self.looked_up(*found),
            DownloadEvent::Response(length) => {
                if let Some(expected) = self.expected_size {
                    if let Some(actual) = *length {
                        if expected != actual {
                            return self.fail(DownloadError::SizeMismatch { expected, actual });
                        }
                    }
                    self.total = Some(expected);
                } else {
                    self.total = *length;
                }
                self.transfer(cancelled)
            },
            DownloadEvent::Chunk(bytes) => self.chunk(bytes, cancelled),
            DownloadEvent::Done => match self.phase {
                DownloadPhase::Creating => {
                    self.created = true;
                    self.phase = DownloadPhase::Reporting;
                    DownloadAction::Report(DownloadProgress { downloaded: 0, total: self.total })
                },
                DownloadPhase::Reporting | DownloadPhase::Writing => {
                    if cancelled {
                        return self.fail(DownloadError::Cancelled);
                    }
                    self.phase = DownloadPhase::Reading;
                    DownloadAction::Read
                },
                DownloadPhase::Syncing => {
                    self.phase = DownloadPhase::CheckingLast;
                    DownloadAction::CheckDestination
                },
                _ => {
                    self.phase = DownloadPhase::Closed;
                    self.created = false;
                    let digest = self.hasher.digest();
                    DownloadAction::Finish(
                        DownloadReport {
                            destination: self.destination.clone(),
                            bytes_downloaded: self.downloaded,
                            sha256: hex_encode(&digest),
                        },
                    )
                },
            },
        }
    }
}

// ---------------------------------------------------------------------------------------------
// What holds of a whole download
// ---------------------------------------------------------------------------------------------

/// One event of a download, with the user's wish to cancel at that moment.
pub type DownloadInput = (DownloadEvent, bool);

/// The state after a run of events.
pub open spec fn download_after(start: DownloadState, inputs: Seq<DownloadInput>) -> DownloadState
    decreases inputs.len(),
{
    if inputs.len() == 0 {
        start
    } else {
        download_after(start, inputs.drop_last()).step(inputs.last().0, inputs.last().1).0
    }
}

/// Whether every event of the run answers the access that was asked for.
pub open spec fn download_accepts(start: DownloadState, inputs: Seq<DownloadInput>) -> bool
    decreases inputs.len(),
{
    inputs.len() == 0 || (download_accepts(start, inputs.drop_last()) && download_after(
        start,
        inputs.drop_last(),
    ).expects(inputs.last().0))
}

/// All bytes that the events of a run brought, in their order.
pub open spec fn download_bytes(inputs: Seq<DownloadInput>) -> Seq<u8>
    decreases inputs.len(),
{
    if inputs.len() == 0 {
        Seq::empty()
    } else {
        download_bytes(inputs.drop_last()) + (match inputs.last().0 {
            DownloadEvent::Chunk(chunk) => chunk@,
            _ => Seq::empty(),
        })
    }
}

proof fn download_keeps_every_byte(start: DownloadState, inputs: Seq<DownloadInput>)
    requires
        start.well_formed(),
        start.received.len() == 0,
        download_accepts(start, inputs),
    ensures
        ({
            let state = download_after(start, inputs);
            &&& state.well_formed()
            &&& state.phase != DownloadPhase::Closed ==> state.received == download_bytes(inputs)
            &&& state.expected_size == start.expected_size
            &&& state.expected_digest == start.expected_digest
            &&& state.destination == start.destination
        }),
    decreases inputs.len(),
{
    if inputs.len() > 0 {
        download_keeps_every_byte(start, inputs.drop_last());
        let before = download_after(start, inputs.drop_last());
        assert(before.phase != DownloadPhase::Closed);
        assert(before.received + Seq::<u8>::empty() =~= before.received);
    } else {
        assert(start.received =~= Seq::<u8>::empty());
    }
}

/// A download takes its final name only when everything is received: at that moment all bytes read
/// from the answer, in order, have the expected size and digest, and the destination has just been
/// found not to exist. The report gives their number and digest.
pub proof fn only_a_complete_download_is_published(
    start: DownloadState,
    inputs: Seq<DownloadInput>,
    event: DownloadEvent,
    cancelled: bool,
)
    requires
        start.well_formed(),
        start.received.len() == 0,
        download_accepts(start, inputs.push((event, cancelled))),
    ensures
        ({
            let before = download_after(start, inputs);
            let action = before.step(event, cancelled).1;
            let bytes = download_bytes(inputs);
            &&& (action is Rename || action is Finish) ==> {
                &&& start.expected_size matches Some(size) ==> bytes.len() == size
                &&& start.expected_digest matches Some(expected) ==> digest::sha256(bytes)
                    == expected
            }
            &&& action is Rename ==> event == DownloadEvent::Exists(false) && before.phase
                == DownloadPhase::CheckingLast
            &&& action is Finish ==> before.phase == DownloadPhase::Renaming && event is Done
            &&& action matches DownloadActionView::Finish(report) ==> {
                &&& report.destination == start.destination
                &&& report.bytes_downloaded == bytes.len()
                &&& report.sha256 == digest::sha256_text(bytes)
            }
        }),
{
    assert(inputs.push((event, cancelled)).drop_last() =~= inputs);
    download_keeps_every_byte(start, inputs);
    download_keeps_every_byte(start, inputs.push((event, cancelled)));
}

/// A failing download removes the partial file exactly where it has created it itself: from the
/// moment its creation succeeded until the file has taken the final name. The partial file of
/// another download is left alone.
pub proof fn a_failed_download_leaves_nothing_behind(
    start: DownloadState,
    inputs: Seq<DownloadInput>,
    event: DownloadEvent,
    cancelled: bool,
)
    requires
        start.well_formed(),
        start.received.len() == 0,
        download_accepts(start, inputs.push((event, cancelled))),
    ensures
        ({
            let before = download_after(start, inputs);
            before.step(event, cancelled).1 matches DownloadActionView::Fail {
                error,
                remove_partial,
            } ==> remove_partial == (match before.phase {
                DownloadPhase::CheckingDestination
                | DownloadPhase::Requesting
                | DownloadPhase::CheckingAgain
                | DownloadPhase::CheckingPartial
                | DownloadPhase::Creating => false,
                _ => true,
            })
        }),
{
    assert(inputs.push((event, cancelled)).drop_last() =~= inputs);
    download_keeps_every_byte(start, inputs);
}

/// Every progress counts the bytes received so far; it grows with every chunk and never exceeds
/// the expected size.
pub proof fn download_progress_is_monotonic(
    start: DownloadState,
    inputs: Seq<DownloadInput>,
    event: DownloadEvent,
    cancelled: bool,
)
    requires
        start.well_formed(),
        start.received.len() == 0,
        download_accepts(start, inputs.push((event, cancelled))),
    ensures
        ({
            let before = download_after(start, inputs);
            match before.step(event, cancelled).1 {
                DownloadActionView::Report(progress) => progress.downloaded == 0,
                DownloadActionView::Write(progress) => {
                    &&& progress.downloaded > download_bytes(inputs).len()
                    &&& progress.downloaded == download_bytes(inputs.push((event, cancelled))).len()
                    &&& start.expected_size matches Some(size) ==> progress.downloaded <= size
                },
                _ => true,
            }
        }),
{
    assert(inputs.push((event, cancelled)).drop_last() =~= inputs);
    download_keeps_every_byte(start, inputs);
    download_keeps_every_byte(start, inputs.push((event, cancelled)));
}

/// A wish to cancel that stands between two accesses of the transfer ends it with that error.
pub proof fn cancelling_ends_the_download(state: DownloadState, chunk: DownloadEvent)
    requires
        state.well_formed(),
    ensures
        state.phase == DownloadPhase::Writing || state.phase == DownloadPhase::Reporting
            ==> state.step(DownloadEvent::Done, true).1 == (DownloadActionView::Fail {
            error: DownloadErrorView::Cancelled,
            remove_partial: true,
        }),
        (state.phase == DownloadPhase::Reading && (chunk matches DownloadEvent::Chunk(bytes)
            && bytes@.len() > 0)) ==> state.step(chunk, true).1 == (DownloadActionView::Fail {
            error: DownloadErrorView::Cancelled,
            remove_partial: true,
        }),
{
}

/// A download fails only for a reason, and the error is that reason. In particular an answer is
/// refused for its size only where the size differs from the expected one, and for its digest only
/// where that differs.
pub proof fn failed_download_has_its_reason(
    state: DownloadState,
    event: DownloadEvent,
    cancelled: bool,
)
    requires
        state.well_formed(),
        state.expects(event),
    ensures
        event matches DownloadEvent::Failed(cause) ==> (state.step(event, cancelled).1
            matches DownloadActionView::Fail { error, remove_partial } && error
            == DownloadErrorView::Io(cause@)),
        event matches DownloadEvent::RequestFailed(cause) ==> (state.step(event, cancelled).1
            matches DownloadActionView::Fail { error, remove_partial } && error
            == DownloadErrorView::Request(cause@)),
        state.step(event, cancelled).1 matches DownloadActionView::Fail { error, remove_partial }
            ==> {
            let now = state.received.len() + (match event {
                DownloadEvent::Chunk(chunk) => chunk@.len(),
                _ => 0,
            });
            match error {
                DownloadErrorView::Io(cause) => event matches DownloadEvent::Failed(given)
                    && given@ == cause,
                DownloadErrorView::Request(cause) => event matches DownloadEvent::RequestFailed(
                    given,
                ) && given@ == cause,
                DownloadErrorView::SizeMismatch { expected, actual } => {
                    &&& state.expected_size == Some(expected)
                    &&& expected != actual
                    &&& event == DownloadEvent::Response(Some(actual)) || (event is Chunk
                        && actual == now && (now > expected || now == state.received.len()))
                },
                DownloadErrorView::ChecksumMismatch => {
                    &&& event is Chunk && now == state.received.len()
                    &&& state.expected_digest matches Some(expected)
                    &&& expected != digest::sha256(state.received)
                },
                DownloadErrorView::SizeOverflow => event is Chunk && now > u64::MAX,
                DownloadErrorView::Cancelled => cancelled,
                DownloadErrorView::DestinationExists(path) => event == DownloadEvent::Exists(true)
                    && path == state.destination && state.phase != DownloadPhase::CheckingPartial,
                DownloadErrorView::PartialExists(path) => event == DownloadEvent::Exists(true)
                    && Some(path) == partial_text(state.destination) && state.phase
                    == DownloadPhase::CheckingPartial,
                DownloadErrorView::InvalidDestination(path) => path == state.destination
                    && paths::path_view(path).file_name() is None,
                _ => false,
            }
        },
{
    if state.phase == DownloadPhase::CheckingPartial {
        named_destination_has_a_partial(state.destination);
    }
    if let DownloadEvent::Chunk(chunk) = event {
        if chunk@.len() == 0 {
            assert(state.received + chunk@ =~= state.received);
        }
    }
}

proof fn named_destination_has_a_partial(destination: Seq<char>)
    requires
        paths::path_view(destination).file_name() is Some,
    ensures
        partial_text(destination) is Some,
{
}

/// Whether these are the events of a transfer that nothing disturbs: each chunk is read, not empty,
/// and then written.
pub open spec fn brings_chunks(inputs: Seq<DownloadInput>) -> bool {
    &&& inputs.len() % 2 == 0
    &&& forall|i: int|
        #![trigger inputs[i]]
        0 <= i < inputs.len() ==> !inputs[i].1 && if i % 2 == 0 {
            inputs[i].0 matches DownloadEvent::Chunk(chunk) && chunk@.len() > 0
        } else {
            inputs[i].0 is Done
        }
}

proof fn chunks_are_received(start: DownloadState, inputs: Seq<DownloadInput>)
    requires
        start.phase == DownloadPhase::Reading,
        start.received.len() == 0,
        brings_chunks(inputs),
        download_bytes(inputs).len() <= u64::MAX,
        start.expected_size matches Some(size) ==> download_bytes(inputs).len() <= size,
    ensures
        download_accepts(start, inputs),
        download_after(start, inputs) == (DownloadState {
            received: download_bytes(inputs),
            ..start
        }),
    decreases inputs.len(),
{
    if inputs.len() == 0 {
        assert(start.received =~= download_bytes(inputs));
    } else {
        let front = inputs.drop_last();
        let rest = front.drop_last();
        assert(inputs.last() == inputs[inputs.len() - 1]);
        assert(front.last() == inputs[inputs.len() - 2]);
        assert forall|i: int| #![trigger rest[i]] 0 <= i < rest.len() implies rest[i]
            == inputs[i] by {}
        let chunk = front.last().0->Chunk_0@;
        assert(download_bytes(front) =~= download_bytes(rest) + chunk);
        assert(download_bytes(inputs) =~= download_bytes(front));
        chunks_are_received(start, rest);
        let before = download_after(start, rest);
        assert(download_accepts(start, front));
        assert(download_after(start, front) == before.step(front.last().0, front.last().1).0);
        assert(download_accepts(start, inputs));
    }
}

/// A declared length that agrees with what is expected, or that nothing is expected of, never stops
/// a download: the destination is looked at once more, then the partial file is looked at and
/// created, an empty progress against the expected or declared size is reported, and the first bytes
/// are asked for.
pub proof fn agreeing_answer_is_received(
    request: DownloadRequest,
    length: Option<u64>,
)
    requires
        request_fault(request, false) is None,
        match (request.expected_size, length) {
            (Some(expected), Some(declared)) => expected == declared,
            _ => true,
        },
    ensures
        ({
            let start = download_start(request);
            let total = if request.expected_size is Some {
                request.expected_size
            } else {
                length
            };
            let partial = partial_text(request.destination@)->0;
            let (s1, a1) = start.step(DownloadEvent::Exists(false), false);
            let (s2, a2) = s1.step(DownloadEvent::Response(length), false);
            let (s3, a3) = s2.step(DownloadEvent::Exists(false), false);
            let (s4, a4) = s3.step(DownloadEvent::Exists(false), false);
            let (s5, a5) = s4.step(DownloadEvent::Done, false);
            let (s6, a6) = s5.step(DownloadEvent::Done, false);
            &&& start.expects(DownloadEvent::Exists(false))
            &&& a1 == DownloadActionView::Request(urls::parsed_url(request.url@)->0.text)
            &&& s1.expects(DownloadEvent::Response(length))
            &&& a2 == DownloadActionView::CheckDestination
            &&& s2.expects(DownloadEvent::Exists(false))
            &&& a3 == DownloadActionView::CheckPartial(partial)
            &&& s3.expects(DownloadEvent::Exists(false))
            &&& a4 == DownloadActionView::CreatePartial(partial)
            &&& s4.expects(DownloadEvent::Done)
            &&& a5 == DownloadActionView::Report(DownloadProgress { downloaded: 0, total })
            &&& s5.expects(DownloadEvent::Done)
            &&& a6 == DownloadActionView::Read
            &&& s6.phase == DownloadPhase::Reading && s6.received.len() == 0
            &&& s6.destination == request.destination@ && s6.total == total
            &&& s6.expected_size == request.expected_size
            &&& s6.expected_digest == (match request.expected_sha256 {
                Some(value) => Some(digest::hex_bytes(value@)),
                None => None,
            })
        }),
{
}

/// A transfer that nothing disturbs ends in the published image: each chunk is written with the
/// count of all bytes so far, and where the bytes have the expected size and digest, the partial file
/// is synchronized and takes the name of the destination, and the report gives their number and
/// digest.
pub proof fn undisturbed_transfer_is_published(
    start: DownloadState,
    inputs: Seq<DownloadInput>,
    end: DownloadEvent,
)
    requires
        start.phase == DownloadPhase::Reading,
        start.received.len() == 0,
        brings_chunks(inputs),
        download_bytes(inputs).len() <= u64::MAX,
        start.expected_size matches Some(size) ==> download_bytes(inputs).len() == size,
        start.expected_digest matches Some(expected) ==> expected == digest::sha256(
            download_bytes(inputs),
        ),
        end matches DownloadEvent::Chunk(chunk) && chunk@.len() == 0,
    ensures
        ({
            let bytes = download_bytes(inputs);
            let (s1, a1) = download_after(start, inputs).step(end, false);
            let (s2, a2) = s1.step(DownloadEvent::Done, false);
            let (s3, a3) = s2.step(DownloadEvent::Exists(false), false);
            let (s4, a4) = s3.step(DownloadEvent::Done, false);
            &&& download_accepts(start, inputs)
            &&& a1 == DownloadActionView::Sync
            &&& a2 == DownloadActionView::CheckDestination
            &&& a3 == DownloadActionView::Rename
            &&& a4 == DownloadActionView::Finish(
                DownloadReportView {
                    destination: start.destination,
                    bytes_downloaded: bytes.len() as u64,
                    sha256: digest::sha256_text(bytes),
                },
            )
            &&& s4.phase == DownloadPhase::Closed
        }),
{
    chunks_are_received(start, inputs);
    let state = download_after(start, inputs);
    assert(state.received + end->Chunk_0@ =~= state.received);
}

/// Every chunk that is within the expected size is written, with the count of all bytes so far
/// against the total, and the next one is asked for. What was received is checked only at the end.
pub proof fn every_chunk_is_written_and_reading_goes_on(state: DownloadState, event: DownloadEvent)
    requires
        state.phase == DownloadPhase::Reading,
        event matches DownloadEvent::Chunk(chunk) && chunk@.len() > 0 && state.received.len()
            + chunk@.len() <= u64::MAX && (state.expected_size matches Some(size)
            ==> state.received.len() + chunk@.len() <= size),
    ensures
        ({
            let (writing, action) = state.step(event, false);
            let (reading, next) = writing.step(DownloadEvent::Done, false);
            &&& action == DownloadActionView::Write(
                DownloadProgress {
                    downloaded: (state.received.len() + event->Chunk_0@.len()) as u64,
                    total: state.total,
                },
            )
            &&& next == DownloadActionView::Read
            &&& reading == (DownloadState {
                received: state.received + event->Chunk_0@,
                ..state
            })
        }),
{
}

/// An image with more or fewer bytes than expected, or with another digest, is never kept: the
/// download fails for its size, or else for its digest, and removes what it has received.
pub proof fn wrong_image_is_refused(state: DownloadState, event: DownloadEvent)
    requires
        state.well_formed(),
        state.phase == DownloadPhase::Reading,
        event is Chunk,
    ensures
        ({
            let chunk = event->Chunk_0@;
            let now = state.received.len() + chunk.len();
            let action = state.step(event, false).1;
            &&& (state.expected_size matches Some(size) && now <= u64::MAX && (now > size || (
            chunk.len() == 0 && now < size))) ==> action == (DownloadActionView::Fail {
                error: DownloadErrorView::SizeMismatch {
                    expected: state.expected_size->0,
                    actual: now as u64,
                },
                remove_partial: true,
            })
            &&& (chunk.len() == 0 && (state.expected_size matches Some(size) ==> now == size) && (
            state.expected_digest matches Some(digest) && digest != digest::sha256(
                state.received,
            ))) ==> action == (DownloadActionView::Fail {
                error: DownloadErrorView::ChecksumMismatch,
                remove_partial: true,
            })
        }),
{
    if event->Chunk_0@.len() == 0 {
        assert(state.received + event->Chunk_0@ =~= state.received);
    }
}

/// A request is taken exactly where its address is an HTTPS one with a host, its digest, if any, is
/// one in hexadecimal digits, its destination names a file, and the user has not cancelled.
pub proof fn acceptable_request_is_taken(request: DownloadRequest, cancelled: bool)
    ensures
        request_fault(request, cancelled) is None <==> {
            &&& urls::parsed_url(request.url@) matches Some(url)
            &&& url.scheme == "https"@ && url.host is Some
            &&& request.expected_sha256 matches Some(value) ==> value@.len() == 64
                && text::all_hex(value@)
            &&& paths::path_view(request.destination@).file_name() is Some
            &&& !cancelled
        },
        (urls::parsed_url(request.url@) matches Some(url) && url.scheme != "https"@)
            ==> request_fault(request, cancelled) == Some(
            DownloadErrorView::InsecureUrl(request.url@),
        ),
        urls::parsed_url(request.url@) is None ==> request_fault(request, cancelled) == Some(
            DownloadErrorView::InvalidUrl(request.url@),
        ),
{
}

/// An existing file is never touched: where the destination exists, before the request, before the
/// transfer or at its end, or where the partial file exists, the download fails and says which.
pub proof fn existing_files_are_left_alone(state: DownloadState, cancelled: bool)
    requires
        state.well_formed(),
        state.expects(DownloadEvent::Exists(true)),
    ensures
        ({
            let action = state.step(DownloadEvent::Exists(true), cancelled).1;
            &&& action matches DownloadActionView::Fail { error, remove_partial }
            &&& state.phase == DownloadPhase::CheckingPartial ==> error
                == DownloadErrorView::PartialExists(partial_text(state.destination)->0)
                && !remove_partial
            &&& state.phase != DownloadPhase::CheckingPartial ==> error
                == DownloadErrorView::DestinationExists(state.destination)
        }),
{
}

/// A redirect never leads away from HTTPS, however few came before it. Within HTTPS it is followed,
/// until as many URLs were visited as may be: then no further one is.
pub proof fn redirects_stay_secure_and_end(scheme: Seq<char>, visited: nat)
    ensures
        redirect_verdict(scheme, visited) is Follow ==> scheme == "https"@,
        redirect_verdict(scheme, visited) is Insecure <==> scheme != "https"@,
        visited >= MAX_REDIRECTS ==> !(redirect_verdict(scheme, visited) is Follow),
        visited < MAX_REDIRECTS && scheme == "https"@ ==> redirect_verdict(scheme, visited) is Follow,
{
}

/// An answer that declares another length than the one expected is refused, with both, before anything
/// is received.
pub proof fn contradicting_answer_is_refused(state: DownloadState, length: u64, cancelled: bool)
    requires
        state.well_formed(),
        state.expects(DownloadEvent::Response(Some(length))),
        state.expected_size matches Some(size) && size != length,
    ensures
        state.step(DownloadEvent::Response(Some(length)), cancelled).1 matches
            DownloadActionView::Fail { error, .. } && error == (DownloadErrorView::SizeMismatch {
            expected: state.expected_size->0,
            actual: length,
        }),
{
}

} // verus!
