//! Which releases the release service may offer, and under which URLs.

use vstd::prelude::*;
use vstd::string::*;
use vstd::utf8::*;

use crate::model::{Board, Channel, Manifest, ReleaseCatalog};
use crate::text;
use crate::text::{decimal_text, same_text};
use crate::urls;
use crate::urls::{join_url, parse_url, UrlParts, UrlView};
use crate::versions;
use crate::versions::{is_version, version_precedes};

verus! {

broadcast use vstd::seq_lib::group_seq_properties;

/// Where the release service keeps images, manifests and catalogs.
pub const IMAGE_BASE_URL: &'static str = "https://updates.snapdog.cc/os/images/";

/// The most releases that a catalog may list.
pub const MAX_RELEASES: usize = 20;

/// Catalog loading errors presented by the application.
#[derive(Debug)]
pub enum CatalogError {
    Request(String),
    InvalidImageUrl(String),
    InvalidManifest(String),
}

impl CatalogError {
    /// The sentence shown for the error.
    pub open spec fn text(self) -> Seq<char> {
        match self {
            CatalogError::Request(cause) => {
                "could not contact the SnapDog release service: "@ + cause@
            },
            CatalogError::InvalidImageUrl(url) => {
                "the release service returned an invalid image URL: "@ + url@
            },
            CatalogError::InvalidManifest(cause) => {
                "the release service returned an invalid manifest: "@ + cause@
            },
        }
    }

    /// The sentence shown for the error.
    pub fn message(&self) -> (result: String)
        ensures
            result@ == self.text(),
    {
        match self {
            CatalogError::Request(cause) => text::join2(
                "could not contact the SnapDog release service: ",
                cause.as_str(),
            ),
            CatalogError::InvalidImageUrl(url) => text::join2(
                "the release service returned an invalid image URL: ",
                url.as_str(),
            ),
            CatalogError::InvalidManifest(cause) => text::join2(
                "the release service returned an invalid manifest: ",
                cause.as_str(),
            ),
        }
    }
}

/// Whether a validation found exactly this: no fault, or an invalid manifest for this reason.
pub open spec fn is_verdict(result: Result<(), CatalogError>, fault: Option<Seq<char>>) -> bool {
    match result {
        Ok(()) => fault is None,
        Err(CatalogError::InvalidManifest(reason)) => fault == Some(reason@),
        Err(_) => false,
    }
}

// ---------------------------------------------------------------------------------------------
// Percent-encoding
// ---------------------------------------------------------------------------------------------

/// The value of a hexadecimal digit of either case.
pub open spec fn hex_digit_value(byte: u8) -> Option<u8> {
    if 48 <= byte <= 57 {
        Some((byte - 48) as u8)
    } else if 97 <= byte <= 102 {
        Some((byte - 87) as u8)
    } else if 65 <= byte <= 70 {
        Some((byte - 55) as u8)
    } else {
        None
    }
}

/// The value of a hexadecimal digit of either case.
pub fn hex_digit(value: u8) -> (result: Option<u8>)
    ensures
        result == hex_digit_value(value),
{
    if 48 <= value && value <= 57 {
        Some(value - 48)
    } else if 97 <= value && value <= 102 {
        Some(value - 87)
    } else if 65 <= value && value <= 70 {
        Some(value - 55)
    } else {
        None
    }
}

/// The bytes that remain when each `%` with two hexadecimal digits is replaced by the byte they
/// stand for; none where a `%` lacks its digits.
pub open spec fn percent_bytes(bytes: Seq<u8>) -> Option<Seq<u8>>
    decreases bytes.len(),
{
    if bytes.len() == 0 {
        Some(Seq::empty())
    } else if bytes[0] != 37 {
        match percent_bytes(bytes.drop_first()) {
            Some(rest) => Some(seq![bytes[0]] + rest),
            None => None,
        }
    } else if bytes.len() < 3 {
        None
    } else {
        match (
            hex_digit_value(bytes[1]),
            hex_digit_value(bytes[2]),
            percent_bytes(bytes.subrange(3, bytes.len() as int)),
        ) {
            (Some(high), Some(low), Some(rest)) => Some(seq![(high * 16 + low) as u8] + rest),
            _ => None,
        }
    }
}

/// A text without its percent-encoding, where what remains is UTF-8.
pub open spec fn percent_decoded(value: Seq<char>) -> Option<Seq<char>> {
    match percent_bytes(encode_utf8(value)) {
        Some(bytes) => if valid_utf8(bytes) {
            Some(decode_utf8(bytes))
        } else {
            None
        },
        None => None,
    }
}

/// `String::from_utf8` takes exactly the valid UTF-8 sequences, as the text that they encode.
#[verifier::external_body]
pub(crate) fn utf8_text(bytes: Vec<u8>) -> (result: Option<String>)
    ensures
        match result {
            Some(decoded) => valid_utf8(bytes@) && decoded@ == decode_utf8(bytes@),
            None => !valid_utf8(bytes@),
        },
{
    String::from_utf8(bytes).ok()
}

/// A text without its percent-encoding, where what remains is UTF-8.
pub fn percent_decode(value: &str) -> (result: Option<String>)
    ensures
        text::optional_text(result) == percent_decoded(value@),
{
    let bytes = value.as_bytes();
    let ghost all = bytes@;
    let mut decoded: Vec<u8> = Vec::new();
    let mut index: usize = 0;
    assert(all.subrange(0, all.len() as int) =~= all);
    let ghost whole = percent_bytes(all);
    assert(whole matches Some(rest) ==> decoded@ + rest =~= rest);
    while index < bytes.len()
        invariant
            index <= all.len(),
            all == bytes@,
            match percent_bytes(all.subrange(index as int, all.len() as int)) {
                Some(rest) => whole == Some(decoded@ + rest),
                None => whole is None,
            },
            whole == percent_bytes(all),
            all == encode_utf8(value@),
        decreases all.len() - index,
    {
        let ghost rest = all.subrange(index as int, all.len() as int);
        let ghost before = decoded@;
        if bytes[index] == 37 {
            if bytes.len() - index < 3 {
                return None;
            }
            let high: u8 = match hex_digit(bytes[index + 1]) {
                Some(digit) => digit,
                None => {
                    return None;
                },
            };
            let low: u8 = match hex_digit(bytes[index + 2]) {
                Some(digit) => digit,
                None => {
                    return None;
                },
            };
            assert(rest[1] == all[index + 1] && rest[2] == all[index + 2]);
            assert(rest.subrange(3, rest.len() as int) =~= all.subrange(
                index as int + 3,
                all.len() as int,
            ));
            decoded.push(high * 16 + low);
            proof {
                let tail = percent_bytes(all.subrange(index as int + 3, all.len() as int));
                if tail is Some {
                    assert(before + (seq![(high * 16 + low) as u8] + tail->0) =~= decoded@
                        + tail->0);
                }
            }
            index += 3;
        } else {
            assert(rest.drop_first() =~= all.subrange(index as int + 1, all.len() as int));
            decoded.push(bytes[index]);
            proof {
                let tail = percent_bytes(all.subrange(index as int + 1, all.len() as int));
                if tail is Some {
                    assert(before + (seq![rest[0]] + tail->0) =~= decoded@ + tail->0);
                }
            }
            index += 1;
        }
    }
    assert(all.subrange(index as int, all.len() as int) =~= Seq::<u8>::empty());
    assert(decoded@ + Seq::<u8>::empty() =~= decoded@);
    utf8_text(decoded)
}

// ---------------------------------------------------------------------------------------------
// Image URLs
// ---------------------------------------------------------------------------------------------

/// How the formatter of the standard library quotes a text with `{:?}`.
pub uninterp spec fn quoted_text(value: Seq<char>) -> Seq<char>;

/// `format!` with `{:?}` quotes a text and escapes what does not print; the text alone decides the
/// result.
#[verifier::external_body]
pub(crate) fn quoted(value: &str) -> (result: String)
    ensures
        result@ == quoted_text(value@),
{
    format!("{value:?}")
}

/// The name that the image of a board has in a release.
pub open spec fn image_name(id: Seq<char>, version: Seq<char>) -> Seq<char> {
    "snapdog-os-"@ + id + "-"@ + version + ".img.gz"@
}

/// Why a URL, as it was parsed, is not the immutable URL of a board's image in a release, if it is
/// not.
pub open spec fn parsed_url_fault(url: Option<UrlView>, id: Seq<char>, version: Seq<char>) -> Option<
    Seq<char>,
> {
    match url {
        None => Some(id + " image URL must be absolute HTTPS"@),
        Some(url) => if url.scheme != "https"@ || url.host is None || url.username.len() > 0
            || url.password is Some || url.query is Some || url.fragment is Some {
            Some(id + " image URL must be an unadorned absolute HTTPS URL"@)
        } else {
            match url.last_segment {
                None => Some(id + " image URL is missing a filename"@),
                Some(segment) => if segment.len() == 0 {
                    Some(id + " image URL is missing a filename"@)
                } else {
                    match percent_decoded(segment) {
                        None => Some(id + " image URL contains an invalid filename"@),
                        Some(name) => if name != image_name(id, version) {
                            Some(
                                id + " image URL must end in "@ + quoted_text(
                                    image_name(id, version),
                                ),
                            )
                        } else {
                            None
                        },
                    }
                },
            }
        },
    }
}

/// Why a text is not the immutable URL of a board's image in a release, if it is not.
pub open spec fn immutable_url_fault(value: Seq<char>, id: Seq<char>, version: Seq<char>) -> Option<
    Seq<char>,
> {
    parsed_url_fault(urls::parsed_url(value), id, version)
}

fn invalid(first: &str, second: &str) -> (error: CatalogError)
    ensures
        error matches CatalogError::InvalidManifest(reason) && reason@ == first@ + second@,
{
    CatalogError::InvalidManifest(text::join2(first, second))
}

/// Check that a URL is the immutable URL of a board's image in a release.
pub fn validate_immutable_url(value: &str, board: Board, version: &str) -> (result: Result<
    (),
    CatalogError,
>)
    ensures
        is_verdict(result, immutable_url_fault(value@, board.id_text(), version@)),
{
    validate_parsed_url(&parse_url(value), board, version)
}

/// Check that a URL, as it was parsed, is the immutable URL of a board's image in a release.
pub fn validate_parsed_url(url: &Option<UrlParts>, board: Board, version: &str) -> (result: Result<
    (),
    CatalogError,
>)
    ensures
        is_verdict(result, parsed_url_fault(urls::url_view(*url), board.id_text(), version@)),
{
    let id = board.id();
    let url = match url {
        Some(url) => url,
        None => {
            return Err(invalid(id, " image URL must be absolute HTTPS"));
        },
    };
    if !same_text(url.scheme.as_str(), "https") || url.host.is_none()
        || !url.username.as_str().is_empty() || url.password.is_some() || url.query.is_some()
        || url.fragment.is_some() {
        return Err(invalid(id, " image URL must be an unadorned absolute HTTPS URL"));
    }
    let segment: &String = match &url.last_segment {
        Some(segment) => segment,
        None => {
            return Err(invalid(id, " image URL is missing a filename"));
        },
    };
    if segment.as_str().is_empty() {
        return Err(invalid(id, " image URL is missing a filename"));
    }
    let name = match percent_decode(segment.as_str()) {
        Some(name) => name,
        None => {
            return Err(invalid(id, " image URL contains an invalid filename"));
        },
    };
    let expected = expected_image_name(id, version);
    if name != expected {
        let quoted_name = quoted(expected.as_str());
        let front = text::join2(id, " image URL must end in ");
        return Err(invalid(front.as_str(), quoted_name.as_str()));
    }
    Ok(())
}

fn expected_image_name(id: &str, version: &str) -> (result: String)
    ensures
        result@ == image_name(id@, version@),
{
    let mut result = text::join3("snapdog-os-", id, "-");
    result.append(version);
    result.append(".img.gz");
    result
}

// ---------------------------------------------------------------------------------------------
// Manifests
// ---------------------------------------------------------------------------------------------

/// What the parsers of versions and URLs make of a manifest.
#[derive(Clone, Debug, PartialEq, Eq)]
pub struct ManifestReading {
    /// Whether its version is one.
    pub is_version: bool,
    /// The image URL of each board, in the order of [`Board::ALL`], where it has one that is one.
    pub urls: Vec<Option<UrlParts>>,
}

/// What a [`ManifestReading`] holds.
#[verifier::ext_equal]
pub struct ManifestReadingView {
    pub is_version: bool,
    pub urls: Seq<Option<UrlView>>,
}

impl View for ManifestReading {
    type V = ManifestReadingView;

    open spec fn view(&self) -> ManifestReadingView {
        ManifestReadingView {
            is_version: self.is_version,
            urls: self.urls@.map_values(|url: Option<UrlParts>| urls::url_view(url)),
        }
    }
}

impl ManifestReadingView {
    /// The URL at a place, where there is one.
    pub open spec fn url(self, at: int) -> Option<UrlView> {
        if 0 <= at < self.urls.len() {
            self.urls[at]
        } else {
            None
        }
    }
}

/// What the parser makes of the image URL of a board, where it has one.
pub open spec fn board_url(manifest: Manifest, board: Board) -> Option<UrlView> {
    match manifest.image(board) {
        Some(image) => match image.url {
            Some(url) => urls::parsed_url(url@),
            None => None,
        },
        None => None,
    }
}

/// What the parsers make of a manifest.
pub open spec fn reading_of(manifest: Manifest) -> ManifestReadingView {
    ManifestReadingView {
        is_version: versions::parsed_version(manifest.version@) is Some,
        urls: Seq::new(Board::ALL@.len(), |i: int| board_url(manifest, Board::ALL@[i])),
    }
}

/// Why a manifest lacks the immutable image of a board, if it does. `url` is the board's URL as it
/// was parsed.
pub open spec fn board_fault(manifest: Manifest, board: Board, url: Option<UrlView>) -> Option<
    Seq<char>,
> {
    match manifest.image(board) {
        None => Some("missing image for "@ + board.id_text()),
        Some(image) => if image.url is None {
            Some("missing immutable image URL for "@ + board.id_text())
        } else {
            parsed_url_fault(url, board.id_text(), manifest.version@)
        },
    }
}

/// The first fault among the first `upto` boards.
pub open spec fn boards_fault(manifest: Manifest, reading: ManifestReadingView, upto: int) -> Option<
    Seq<char>,
>
    decreases upto,
{
    if upto <= 0 {
        None
    } else {
        match boards_fault(manifest, reading, upto - 1) {
            Some(fault) => Some(fault),
            None => board_fault(manifest, Board::ALL@[upto - 1], reading.url(upto - 1)),
        }
    }
}

/// Why a manifest, as its parts were parsed, may not be offered, if it may not. A manifest of the
/// first schema stays readable; it has no integrity metadata and is refused where an image is to be
/// written.
pub open spec fn read_manifest_fault(manifest: Manifest, reading: ManifestReadingView) -> Option<
    Seq<char>,
> {
    match manifest.schema_version {
        None => None,
        Some(schema) => if schema != 2 {
            Some("unsupported schema version "@ + text::decimal(schema as nat))
        } else if !reading.is_version {
            Some("invalid SnapDog OS version "@ + quoted_text(manifest.version@))
        } else {
            boards_fault(manifest, reading, Board::ALL@.len() as int)
        },
    }
}

/// Why a manifest may not be offered, if it may not.
pub open spec fn manifest_fault(manifest: Manifest) -> Option<Seq<char>> {
    read_manifest_fault(manifest, reading_of(manifest))
}

fn read_board_url(manifest: &Manifest, board: Board) -> (url: Option<UrlParts>)
    ensures
        urls::url_view(url) == board_url(*manifest, board),
{
    match manifest.image_for(board) {
        Some(image) => match &image.url {
            Some(url) => parse_url(url.as_str()),
            None => None,
        },
        None => None,
    }
}

/// What the parsers make of a manifest.
pub fn read_manifest(manifest: &Manifest) -> (reading: ManifestReading)
    ensures
        reading@ == reading_of(*manifest),
{
    let mut urls: Vec<Option<UrlParts>> = Vec::new();
    let mut index: usize = 0;
    while index < 4
        invariant
            index <= 4,
            urls@.len() == index,
            forall|i: int|
                0 <= i < index ==> urls::url_view(#[trigger] urls@[i]) == board_url(
                    *manifest,
                    Board::ALL@[i],
                ),
        decreases 4 - index,
    {
        urls.push(read_board_url(manifest, Board::ALL[index]));
        index += 1;
    }
    let reading = ManifestReading { is_version: is_version(manifest.version.as_str()), urls };
    assert(reading@.urls =~= reading_of(*manifest).urls);
    reading
}

fn validate_board(manifest: &Manifest, board: Board, url: &Option<UrlParts>) -> (result: Result<
    (),
    CatalogError,
>)
    ensures
        is_verdict(result, board_fault(*manifest, board, urls::url_view(*url))),
{
    match manifest.image_for(board) {
        None => Err(invalid("missing image for ", board.id())),
        Some(image) => if image.url.is_none() {
            Err(invalid("missing immutable image URL for ", board.id()))
        } else {
            validate_parsed_url(url, board, manifest.version.as_str())
        },
    }
}

/// Check a manifest before any of its images is offered.
pub fn validate_download_manifest(manifest: &Manifest) -> (result: Result<(), CatalogError>)
    ensures
        is_verdict(result, manifest_fault(*manifest)),
{
    validate_read_manifest(manifest, &read_manifest(manifest))
}

/// Check a manifest, as its parts were parsed, before any of its images is offered.
pub fn validate_read_manifest(manifest: &Manifest, reading: &ManifestReading) -> (result: Result<
    (),
    CatalogError,
>)
    ensures
        is_verdict(result, read_manifest_fault(*manifest, reading@)),
{
    let schema: u32 = match manifest.schema_version {
        Some(schema) => schema,
        None => {
            return Ok(());
        },
    };
    if schema != 2 {
        let number = decimal_text(schema as u64);
        return Err(invalid("unsupported schema version ", number.as_str()));
    }
    if !reading.is_version {
        let name = quoted(manifest.version.as_str());
        return Err(invalid("invalid SnapDog OS version ", name.as_str()));
    }
    let missing: Option<UrlParts> = None;
    let mut index: usize = 0;
    while index < 4
        invariant
            index <= 4,
            missing is None,
            boards_fault(*manifest, reading@, index as int) is None,
            read_manifest_fault(*manifest, reading@) == boards_fault(*manifest, reading@, 4),
        decreases 4 - index,
    {
        let url: &Option<UrlParts> = if index < reading.urls.len() {
            &reading.urls[index]
        } else {
            &missing
        };
        assert(urls::url_view(*url) == reading@.url(index as int));
        let verdict = validate_board(manifest, Board::ALL[index], url);
        if verdict.is_err() {
            proof {
                first_fault_stays(*manifest, reading@, index as int + 1, 4);
            }
            return verdict;
        }
        index += 1;
    }
    Ok(())
}

proof fn first_fault_stays(
    manifest: Manifest,
    reading: ManifestReadingView,
    upto: int,
    boards: int,
)
    requires
        0 <= upto <= boards,
        boards_fault(manifest, reading, upto) is Some,
    ensures
        boards_fault(manifest, reading, boards) == boards_fault(manifest, reading, upto),
    decreases boards - upto,
{
    if upto < boards {
        first_fault_stays(manifest, reading, upto + 1, boards);
    }
}

// ---------------------------------------------------------------------------------------------
// Catalogs
// ---------------------------------------------------------------------------------------------

/// The name of a channel in error texts.
pub open spec fn channel_name(channel: Channel) -> Seq<char> {
    match channel {
        Channel::Release => "Release"@,
        Channel::Beta => "Beta"@,
    }
}

fn channel_text(channel: Channel) -> (result: &'static str)
    ensures
        result@ == channel_name(channel),
{
    match channel {
        Channel::Release => "Release",
        Channel::Beta => "Beta",
    }
}

/// What the parsers of versions and URLs make of a release in a catalog.
#[derive(Clone, Debug, PartialEq, Eq)]
pub struct ReleaseReading {
    pub manifest: ManifestReading,
    /// Whether it is newer than the release before it.
    pub is_newer: bool,
}

/// What a [`ReleaseReading`] holds.
#[verifier::ext_equal]
pub struct ReleaseReadingView {
    pub manifest: ManifestReadingView,
    pub is_newer: bool,
}

impl View for ReleaseReading {
    type V = ReleaseReadingView;

    open spec fn view(&self) -> ReleaseReadingView {
        ReleaseReadingView { manifest: self.manifest@, is_newer: self.is_newer }
    }
}

/// The views of some readings.
pub open spec fn reading_views(readings: Seq<ReleaseReading>) -> Seq<ReleaseReadingView> {
    readings.map_values(|reading: ReleaseReading| reading@)
}

/// The reading at a place; nothing is known of a release that none is there for.
pub open spec fn reading_at(readings: Seq<ReleaseReadingView>, at: int) -> ReleaseReadingView {
    if 0 <= at < readings.len() {
        readings[at]
    } else {
        ReleaseReadingView {
            manifest: ManifestReadingView { is_version: false, urls: Seq::empty() },
            is_newer: false,
        }
    }
}

/// What the parsers make of the releases of a catalog.
pub open spec fn readings_of(releases: Seq<Manifest>) -> Seq<ReleaseReadingView> {
    Seq::new(
        releases.len(),
        |i: int|
            ReleaseReadingView {
                manifest: reading_of(releases[i]),
                is_newer: i > 0 && versions::text_precedes(
                    releases[i - 1].version@,
                    releases[i].version@,
                ),
            },
    )
}

/// Whether a release repeats the version of one before it.
pub open spec fn repeats_a_version(releases: Seq<Manifest>, at: int) -> bool {
    exists|i: int| 0 <= i < at && (#[trigger] releases[i]).version@ == releases[at].version@
}

/// Why a release, as its parts were parsed, may not stand at its place in a catalog, if it may not.
pub open spec fn release_fault(
    releases: Seq<Manifest>,
    channel: Channel,
    at: int,
    reading: ReleaseReadingView,
) -> Option<Seq<char>> {
    let manifest = releases[at];
    if read_manifest_fault(manifest, reading.manifest) is Some {
        read_manifest_fault(manifest, reading.manifest)
    } else if manifest.channel != channel {
        Some("release "@ + manifest.version@ + " belongs to the wrong channel"@)
    } else if !reading.manifest.is_version {
        Some("invalid SnapDog OS version "@ + quoted_text(manifest.version@))
    } else if repeats_a_version(releases, at) {
        Some("duplicate release version "@ + manifest.version@)
    } else if reading.is_newer {
        Some("catalog releases are not sorted newest first"@)
    } else {
        None
    }
}

/// The first fault among the first `upto` releases.
pub open spec fn releases_fault(
    releases: Seq<Manifest>,
    channel: Channel,
    readings: Seq<ReleaseReadingView>,
    upto: int,
) -> Option<Seq<char>>
    decreases upto,
{
    if upto <= 0 {
        None
    } else {
        match releases_fault(releases, channel, readings, upto - 1) {
            Some(fault) => Some(fault),
            None => release_fault(releases, channel, upto - 1, reading_at(readings, upto - 1)),
        }
    }
}

/// Why a catalog, as its parts were parsed, may not be offered for a channel, if it may not.
pub open spec fn read_catalog_fault(
    catalog: ReleaseCatalog,
    channel: Channel,
    readings: Seq<ReleaseReadingView>,
) -> Option<Seq<char>> {
    let releases = catalog.releases@;
    if catalog.schema_version != 1 {
        Some("unsupported catalog schema version "@ + text::decimal(catalog.schema_version as nat))
    } else if catalog.channel != channel {
        Some(
            "catalog channel "@ + channel_name(catalog.channel) + " does not match "@
                + channel_name(channel),
        )
    } else if releases.len() == 0 || releases.len() > MAX_RELEASES {
        Some("catalog must contain between 1 and 20 releases"@)
    } else {
        releases_fault(releases, channel, readings, releases.len() as int)
    }
}

/// Why a catalog may not be offered for a channel, if it may not.
pub open spec fn catalog_fault(catalog: ReleaseCatalog, channel: Channel) -> Option<Seq<char>> {
    read_catalog_fault(catalog, channel, readings_of(catalog.releases@))
}

proof fn first_release_fault_stays(
    releases: Seq<Manifest>,
    channel: Channel,
    readings: Seq<ReleaseReadingView>,
    upto: int,
)
    requires
        0 <= upto <= releases.len(),
        releases_fault(releases, channel, readings, upto) is Some,
    ensures
        releases_fault(releases, channel, readings, releases.len() as int) == releases_fault(
            releases,
            channel,
            readings,
            upto,
        ),
    decreases releases.len() - upto,
{
    if upto < releases.len() {
        first_release_fault_stays(releases, channel, readings, upto + 1);
    }
}

fn version_is_repeated(releases: &Vec<Manifest>, at: usize) -> (result: bool)
    requires
        at < releases@.len(),
    ensures
        result == repeats_a_version(releases@, at as int),
{
    let mut index: usize = 0;
    while index < at
        invariant
            index <= at < releases@.len(),
            forall|i: int|
                0 <= i < index ==> (#[trigger] releases@[i]).version@ != releases@[at as int].version@,
        decreases at - index,
    {
        if releases[index].version == releases[at].version {
            assert(releases@[index as int].version@ == releases@[at as int].version@);
            return true;
        }
        index += 1;
    }
    false
}

fn validate_release(
    releases: &Vec<Manifest>,
    channel: Channel,
    at: usize,
    reading: &ReleaseReading,
) -> (result: Result<(), CatalogError>)
    requires
        at < releases@.len(),
    ensures
        is_verdict(result, release_fault(releases@, channel, at as int, reading@)),
{
    let manifest: &Manifest = &releases[at];
    let verdict = validate_read_manifest(manifest, &reading.manifest);
    if verdict.is_err() {
        return verdict;
    }
    if manifest.channel != channel {
        let front = text::join2("release ", manifest.version.as_str());
        return Err(invalid(front.as_str(), " belongs to the wrong channel"));
    }
    if !reading.manifest.is_version {
        let name = quoted(manifest.version.as_str());
        return Err(invalid("invalid SnapDog OS version ", name.as_str()));
    }
    if version_is_repeated(releases, at) {
        return Err(invalid("duplicate release version ", manifest.version.as_str()));
    }
    if reading.is_newer {
        return Err(
            CatalogError::InvalidManifest(
                "catalog releases are not sorted newest first".to_owned(),
            ),
        );
    }
    Ok(())
}

/// What the parsers make of the releases of a catalog.
pub fn read_releases(releases: &Vec<Manifest>) -> (readings: Vec<ReleaseReading>)
    ensures
        reading_views(readings@) == readings_of(releases@),
{
    let mut readings: Vec<ReleaseReading> = Vec::new();
    let mut index: usize = 0;
    while index < releases.len()
        invariant
            index <= releases@.len(),
            readings@.len() == index,
            forall|i: int|
                0 <= i < index ==> (#[trigger] readings@[i])@ == readings_of(releases@)[i],
        decreases releases@.len() - index,
    {
        let is_newer = index > 0 && version_precedes(
            releases[index - 1].version.as_str(),
            releases[index].version.as_str(),
        );
        readings.push(ReleaseReading { manifest: read_manifest(&releases[index]), is_newer });
        index += 1;
    }
    assert(reading_views(readings@) =~= readings_of(releases@));
    readings
}

/// Check a catalog before any of its releases is offered for a channel.
pub fn validate_catalog(catalog: &ReleaseCatalog, channel: Channel) -> (result: Result<
    (),
    CatalogError,
>)
    ensures
        is_verdict(result, catalog_fault(*catalog, channel)),
{
    let readings = read_releases(&catalog.releases);
    validate_read_catalog(catalog, channel, &readings)
}

/// Check a catalog, as the parts of each of its releases were parsed, before any of its releases is
/// offered for a channel.
pub fn validate_read_catalog(
    catalog: &ReleaseCatalog,
    channel: Channel,
    readings: &Vec<ReleaseReading>,
) -> (result: Result<(), CatalogError>)
    ensures
        is_verdict(result, read_catalog_fault(*catalog, channel, reading_views(readings@))),
{
    if catalog.schema_version != 1 {
        let number = decimal_text(catalog.schema_version as u64);
        return Err(invalid("unsupported catalog schema version ", number.as_str()));
    }
    if catalog.channel != channel {
        let front = text::join3(
            "catalog channel ",
            channel_text(catalog.channel),
            " does not match ",
        );
        return Err(invalid(front.as_str(), channel_text(channel)));
    }
    let releases = &catalog.releases;
    if releases.len() == 0 || releases.len() > MAX_RELEASES {
        return Err(
            CatalogError::InvalidManifest(
                "catalog must contain between 1 and 20 releases".to_owned(),
            ),
        );
    }
    let ghost views = reading_views(readings@);
    let missing = ReleaseReading {
        manifest: ManifestReading { is_version: false, urls: Vec::new() },
        is_newer: false,
    };
    assert(missing.manifest@.urls =~= Seq::<Option<UrlView>>::empty());
    let mut index: usize = 0;
    while index < releases.len()
        invariant
            index <= releases@.len(),
            views == reading_views(readings@),
            missing@ == reading_at(views, -1),
            releases_fault(releases@, channel, views, index as int) is None,
            read_catalog_fault(*catalog, channel, views) == releases_fault(
                releases@,
                channel,
                views,
                releases@.len() as int,
            ),
        decreases releases@.len() - index,
    {
        let reading: &ReleaseReading = if index < readings.len() {
            &readings[index]
        } else {
            &missing
        };
        assert(reading@ == reading_at(views, index as int));
        let verdict = validate_release(releases, channel, index, reading);
        if verdict.is_err() {
            proof {
                first_release_fault_stays(releases@, channel, views, index as int + 1);
            }
            return verdict;
        }
        index += 1;
    }
    Ok(())
}

proof fn no_release_has_a_fault(
    releases: Seq<Manifest>,
    channel: Channel,
    readings: Seq<ReleaseReadingView>,
    upto: int,
    at: int,
)
    requires
        0 <= at < upto <= releases.len(),
        releases_fault(releases, channel, readings, upto) is None,
    ensures
        release_fault(releases, channel, at, reading_at(readings, at)) is None,
    decreases upto,
{
    if at < upto - 1 {
        no_release_has_a_fault(releases, channel, readings, upto - 1, at);
    }
}

proof fn no_board_has_a_fault(manifest: Manifest, reading: ManifestReadingView, upto: int, at: int)
    requires
        0 <= at < upto,
        boards_fault(manifest, reading, upto) is None,
    ensures
        board_fault(manifest, Board::ALL@[at], reading.url(at)) is None,
    decreases upto,
{
    if at < upto - 1 {
        no_board_has_a_fault(manifest, reading, upto - 1, at);
    }
}

/// A catalog that passes offers between one and twenty releases, all of the wanted channel and
/// under valid versions, none twice, and none newer than the one before it.
pub proof fn accepted_catalog_is_ordered(catalog: ReleaseCatalog, channel: Channel)
    requires
        catalog_fault(catalog, channel) is None,
    ensures
        1 <= catalog.releases@.len() <= 20,
        forall|i: int|
            0 <= i < catalog.releases@.len() ==> {
                let manifest = #[trigger] catalog.releases@[i];
                &&& manifest.channel == channel
                &&& versions::parsed_version(manifest.version@) is Some
                &&& manifest_fault(manifest) is None
            },
        forall|i: int, j: int|
            0 <= i < j < catalog.releases@.len() ==> (#[trigger] catalog.releases@[i]).version@ != (
            #[trigger] catalog.releases@[j]).version@,
        forall|i: int, j: int|
            0 <= i < catalog.releases@.len() - 1 && j == i + 1 ==> !versions::text_precedes(
                (#[trigger] catalog.releases@[i]).version@,
                (#[trigger] catalog.releases@[j]).version@,
            ),
{
    let releases = catalog.releases@;
    let readings = readings_of(releases);
    assert forall|i: int| 0 <= i < releases.len() implies {
        let manifest = #[trigger] releases[i];
        &&& manifest.channel == channel
        &&& versions::parsed_version(manifest.version@) is Some
        &&& manifest_fault(manifest) is None
    } by {
        no_release_has_a_fault(releases, channel, readings, releases.len() as int, i);
    }
    assert forall|i: int, j: int|
        0 <= i < releases.len() - 1 && j == i + 1 implies !versions::text_precedes(
        (#[trigger] releases[i]).version@,
        (#[trigger] releases[j]).version@,
    ) by {
        no_release_has_a_fault(releases, channel, readings, releases.len() as int, j);
    }
    assert forall|i: int, j: int| 0 <= i < j < releases.len() implies (
    #[trigger] releases[i]).version@ != (#[trigger] releases[j]).version@ by {
        no_release_has_a_fault(releases, channel, readings, releases.len() as int, j);
        assert(!repeats_a_version(releases, j));
    }
}

/// Whether a board has an image behind an unadorned HTTPS URL whose file name carries exactly that
/// board and the manifest's version.
pub open spec fn binds_board(manifest: Manifest, board: Board) -> bool {
    &&& manifest.image(board) matches Some(image)
    &&& image.url matches Some(url)
    &&& urls::parsed_url(url@) matches Some(parts)
    &&& parts.scheme == "https"@
    &&& parts.host is Some
    &&& parts.username.len() == 0
    &&& parts.password is None
    &&& parts.query is None
    &&& parts.fragment is None
    &&& parts.last_segment matches Some(segment)
    &&& percent_decoded(segment) == Some(image_name(board.id_text(), manifest.version@))
}

/// In a manifest of the second schema that passes, every board has an image behind an unadorned
/// HTTPS URL whose file name carries exactly that board and that version.
pub proof fn accepted_manifest_binds_every_board(manifest: Manifest, board: Board)
    requires
        manifest.schema_version is Some,
        manifest_fault(manifest) is None,
    ensures
        manifest.schema_version == Some(2u32),
        versions::parsed_version(manifest.version@) is Some,
        binds_board(manifest, board),
{
    let at: int = match board {
        Board::Pi5 => 0,
        Board::Pi4 => 1,
        Board::Pi3 => 2,
        Board::Zero2W => 3,
    };
    assert(Board::ALL@[at] == board);
    no_board_has_a_fault(manifest, reading_of(manifest), 4, at);
}

// ---------------------------------------------------------------------------------------------
// Where to look
// ---------------------------------------------------------------------------------------------

/// What to do with the answer to a request for a channel's catalog.
#[derive(Clone, Copy, Debug, PartialEq, Eq, Structural)]
pub enum CatalogRoute {
    /// Read the answer as a catalog.
    ReadCatalog,
    /// The service publishes no catalog yet: fetch the latest manifest instead.
    FetchLatest,
}

/// Where the latest manifest of a channel is.
pub open spec fn latest_text(channel: Channel) -> Seq<char> {
    IMAGE_BASE_URL@ + "latest-"@ + channel.manifest_text() + ".json"@
}

/// Where the catalog of a channel is.
pub open spec fn catalog_text(channel: Channel) -> Seq<char> {
    IMAGE_BASE_URL@ + "catalog-"@ + channel.manifest_text() + ".json"@
}

/// How to go on after the service answered a catalog request with this status.
pub open spec fn route_of(status: u16) -> CatalogRoute {
    if status == 404 {
        CatalogRoute::FetchLatest
    } else {
        CatalogRoute::ReadCatalog
    }
}

/// The release service as the installer addresses it.
pub struct CatalogClient {}

impl CatalogClient {
    /// Where the latest manifest of a channel is.
    pub fn latest_url(channel: Channel) -> (result: String)
        ensures
            result@ == latest_text(channel),
    {
        let mut result = text::join3(IMAGE_BASE_URL, "latest-", channel.manifest_name());
        result.append(".json");
        result
    }

    /// Where the catalog of a channel is.
    pub fn catalog_url(channel: Channel) -> (result: String)
        ensures
            result@ == catalog_text(channel),
    {
        let mut result = text::join3(IMAGE_BASE_URL, "catalog-", channel.manifest_name());
        result.append(".json");
        result
    }

    /// How to go on after the service answered a catalog request with this status. Only an absent
    /// catalog falls back to the latest manifest; an invalid one never does.
    pub fn route(status: u16) -> (route: CatalogRoute)
        ensures
            route == route_of(status),
    {
        if status == 404 {
            CatalogRoute::FetchLatest
        } else {
            CatalogRoute::ReadCatalog
        }
    }

    /// The latest manifest of a channel, as the installer may use it.
    pub fn fetch_latest(received: Result<Manifest, String>) -> (result: Result<
        Manifest,
        CatalogError,
    >)
        ensures
            match received {
                Err(cause) => result == Err::<Manifest, CatalogError>(CatalogError::Request(cause)),
                Ok(manifest) => match manifest_fault(manifest) {
                    None => result == Ok::<Manifest, CatalogError>(manifest),
                    Some(fault) => result matches Err(CatalogError::InvalidManifest(reason))
                        && reason@ == fault,
                },
            },
    {
        match received {
            Err(cause) => Err(CatalogError::Request(cause)),
            Ok(manifest) => match validate_download_manifest(&manifest) {
                Ok(()) => Ok(manifest),
                Err(error) => Err(error),
            },
        }
    }

    /// The installable releases of a channel, as its catalog lists them.
    pub fn fetch_catalog(received: Result<ReleaseCatalog, String>, channel: Channel) -> (result:
        Result<Vec<Manifest>, CatalogError>)
        ensures
            match received {
                Err(cause) => result == Err::<Vec<Manifest>, CatalogError>(
                    CatalogError::Request(cause),
                ),
                Ok(catalog) => match catalog_fault(catalog, channel) {
                    None => result == Ok::<Vec<Manifest>, CatalogError>(catalog.releases),
                    Some(fault) => result matches Err(CatalogError::InvalidManifest(reason))
                        && reason@ == fault,
                },
            },
    {
        match received {
            Err(cause) => Err(CatalogError::Request(cause)),
            Ok(catalog) => match validate_catalog(&catalog, channel) {
                Ok(()) => Ok(catalog.releases),
                Err(error) => Err(error),
            },
        }
    }

    /// Resolve an image name or absolute URL without accepting other schemes.
    pub fn image_url(image: &str) -> (result: Result<String, CatalogError>)
        ensures
            is_image_url(result, image@, urls::joined_url(IMAGE_BASE_URL@, image@)),
    {
        Self::accept_image_url(image, join_url(IMAGE_BASE_URL, image))
    }

    /// Take an image name or URL that was resolved to a scheme and a URL, where it could be.
    pub fn accept_image_url(image: &str, resolved: Option<(String, String)>) -> (result: Result<
        String,
        CatalogError,
    >)
        ensures
            is_image_url(
                result,
                image@,
                match resolved {
                    Some((scheme, url)) => Some((scheme@, url@)),
                    None => None,
                },
            ),
    {
        match resolved {
            Some((scheme, url)) => {
                if same_text(scheme.as_str(), "https") {
                    Ok(url)
                } else {
                    Err(CatalogError::InvalidImageUrl(image.to_owned()))
                }
            },
            None => Err(CatalogError::InvalidImageUrl(image.to_owned())),
        }
    }
}

/// Whether an image was resolved to an HTTPS URL, or is refused by its name.
pub open spec fn is_image_url(
    result: Result<String, CatalogError>,
    image: Seq<char>,
    resolved: Option<(Seq<char>, Seq<char>)>,
) -> bool {
    match resolved {
        Some((scheme, url)) => if scheme == "https"@ {
            result matches Ok(accepted) && accepted@ == url
        } else {
            result matches Err(CatalogError::InvalidImageUrl(named)) && named@ == image
        },
        None => result matches Err(CatalogError::InvalidImageUrl(named)) && named@ == image,
    }
}

/// Only an absent catalog falls back to the latest manifest: the status 404, and no other.
pub proof fn only_an_absent_catalog_falls_back(status: u16)
    ensures
        route_of(status) is FetchLatest <==> status == 404,
        route_of(status) is ReadCatalog <==> status != 404,
{
}

/// Each channel has a catalog and a latest manifest of its own, below the image service.
pub proof fn channels_are_looked_up_apart(first: Channel, second: Channel)
    ensures
        catalog_text(first) == catalog_text(second) ==> first == second,
        latest_text(first) == latest_text(second) ==> first == second,
        catalog_text(first) != latest_text(second),
        catalog_text(first).len() > IMAGE_BASE_URL@.len(),
        catalog_text(first).take(IMAGE_BASE_URL@.len() as int) == IMAGE_BASE_URL@,
        latest_text(first).len() > IMAGE_BASE_URL@.len(),
        latest_text(first).take(IMAGE_BASE_URL@.len() as int) == IMAGE_BASE_URL@,
{
    reveal_strlit("latest-");
    reveal_strlit("catalog-");
    reveal_strlit("release");
    reveal_strlit("beta");
    reveal_strlit(".json");
    let base = IMAGE_BASE_URL@.len() as int;
    assert(catalog_text(first).take(base) =~= IMAGE_BASE_URL@);
    assert(latest_text(first).take(base) =~= IMAGE_BASE_URL@);
    assert(catalog_text(first)[base] == 'c');
    assert(latest_text(second)[base] == 'l');
    assert(catalog_text(first).len() == base + 13 + first.manifest_text().len());
    assert(catalog_text(second).len() == base + 13 + second.manifest_text().len());
    assert(latest_text(first).len() == base + 12 + first.manifest_text().len());
    assert(latest_text(second).len() == base + 12 + second.manifest_text().len());
    assert("release"@.len() == 7 && "beta"@.len() == 4);
}

/// The name of an image tells its board and its version: no other board or version has it.
pub proof fn image_name_tells_board_and_version(
    first: Board,
    version: Seq<char>,
    second: Board,
    other: Seq<char>,
)
    requires
        image_name(first.id_text(), version) == image_name(second.id_text(), other),
    ensures
        first == second,
        version == other,
{
    reveal_strlit("snapdog-os-");
    reveal_strlit("-");
    reveal_strlit(".img.gz");
    reveal_strlit("pi5");
    reveal_strlit("pi4");
    reveal_strlit("pi3");
    reveal_strlit("zero2w");
    let one = image_name(first.id_text(), version);
    let two = image_name(second.id_text(), other);
    assert(one[11] == first.id_text()[0] && two[11] == second.id_text()[0]);
    assert(one[13] == first.id_text()[2] && two[13] == second.id_text()[2]);
    assert(first.id_text() == second.id_text());
    assert(one.len() == 19 + first.id_text().len() + version.len());
    assert(two.len() == 19 + second.id_text().len() + other.len());
    let start = first.id_text().len() + 12int;
    assert(version =~= one.subrange(start, start + version.len()));
    assert(other =~= two.subrange(start, start + other.len()));
}

/// An image URL is good for a board and a version exactly where it is an absolute HTTPS URL with a
/// host, without credentials, query or fragment, and its file name is that of this very image.
pub proof fn image_url_is_unadorned_and_names_its_image(
    value: Seq<char>,
    board: Board,
    version: Seq<char>,
)
    ensures
        immutable_url_fault(value, board.id_text(), version) is None <==> {
            &&& urls::parsed_url(value) matches Some(url)
            &&& url.scheme == "https"@
            &&& url.host is Some
            &&& url.username.len() == 0
            &&& url.password is None
            &&& url.query is None
            &&& url.fragment is None
            &&& url.last_segment matches Some(segment)
            &&& percent_decoded(segment) == Some(image_name(board.id_text(), version))
        },
{
    reveal_strlit("snapdog-os-");
    assert(image_name(board.id_text(), version).len() > 0);
    if let Some(url) = urls::parsed_url(value) {
        if let Some(segment) = url.last_segment {
            if segment.len() == 0 {
                nothing_is_decoded_to_nothing(segment);
            }
        }
    }
}

proof fn nothing_is_decoded_to_nothing(segment: Seq<char>)
    requires
        segment.len() == 0,
    ensures
        percent_decoded(segment) matches Some(name) ==> name.len() == 0,
{
    assert(encode_utf8(segment).len() == 0);
    assert(percent_bytes(encode_utf8(segment)) == Some(Seq::<u8>::empty()));
}

/// A manifest is accepted exactly where it is of the first schema, or of the second with a valid
/// version and an image for every board behind an unadorned HTTPS URL that names that very image.
pub proof fn complete_manifest_is_accepted(manifest: Manifest)
    ensures
        manifest.schema_version is None ==> manifest_fault(manifest) is None,
        manifest.schema_version is Some ==> (manifest_fault(manifest) is None <==> {
            &&& manifest.schema_version == Some(2u32)
            &&& versions::parsed_version(manifest.version@) is Some
            &&& binds_board(manifest, Board::Pi5)
            &&& binds_board(manifest, Board::Pi4)
            &&& binds_board(manifest, Board::Pi3)
            &&& binds_board(manifest, Board::Zero2W)
        }),
{
    if manifest.schema_version is Some {
        if manifest_fault(manifest) is None {
            accepted_manifest_binds_every_board(manifest, Board::Pi5);
            accepted_manifest_binds_every_board(manifest, Board::Pi4);
            accepted_manifest_binds_every_board(manifest, Board::Pi3);
            accepted_manifest_binds_every_board(manifest, Board::Zero2W);
        }
        if binds_board(manifest, Board::Pi5) && binds_board(manifest, Board::Pi4) && binds_board(
            manifest,
            Board::Pi3,
        ) && binds_board(manifest, Board::Zero2W) {
            let reading = reading_of(manifest);
            bound_board_has_no_fault(manifest, Board::Pi5, 0);
            bound_board_has_no_fault(manifest, Board::Pi4, 1);
            bound_board_has_no_fault(manifest, Board::Pi3, 2);
            bound_board_has_no_fault(manifest, Board::Zero2W, 3);
            reveal_with_fuel(boards_fault, 5);
            assert(boards_fault(manifest, reading, 4) is None);
        }
    }
}

proof fn bound_board_has_no_fault(manifest: Manifest, board: Board, at: int)
    requires
        0 <= at < 4,
        Board::ALL@[at] == board,
        binds_board(manifest, board),
    ensures
        board_fault(manifest, board, reading_of(manifest).url(at)) is None,
{
    let url = manifest.image(board)->0.url->0;
    image_url_is_unadorned_and_names_its_image(url@, board, manifest.version@);
    assert(reading_of(manifest).url(at) == urls::parsed_url(url@));
}

/// A catalog is accepted exactly where it has the known schema, is that of the wanted channel, and
/// offers between one and twenty releases, each an acceptable one of that channel under a valid
/// version that no earlier one has, and none newer than the one before it.
pub proof fn catalog_of_good_releases_is_accepted(catalog: ReleaseCatalog, channel: Channel)
    ensures
        catalog_fault(catalog, channel) is None <==> {
            &&& catalog.schema_version == 1
            &&& catalog.channel == channel
            &&& 1 <= catalog.releases@.len() <= 20
            &&& forall|i: int| 0 <= i < catalog.releases@.len() ==> may_stand(catalog, channel, i)
        },
{
    let releases = catalog.releases@;
    let readings = readings_of(releases);
    if catalog_fault(catalog, channel) is None {
        assert forall|i: int| 0 <= i < releases.len() implies may_stand(catalog, channel, i) by {
            no_release_has_a_fault(releases, channel, readings, releases.len() as int, i);
        }
    }
    if forall|i: int| 0 <= i < releases.len() ==> may_stand(catalog, channel, i) {
        good_releases_have_no_fault(catalog, channel, releases.len() as int);
    }
}

/// Whether a release may stand at its place in a catalog.
pub open spec fn may_stand(catalog: ReleaseCatalog, channel: Channel, at: int) -> bool {
    let release = catalog.releases@[at];
    &&& manifest_fault(release) is None
    &&& release.channel == channel
    &&& versions::parsed_version(release.version@) is Some
    &&& forall|i: int|
        0 <= i < at ==> (#[trigger] catalog.releases@[i]).version@ != release.version@
    &&& at > 0 ==> !versions::text_precedes(
        catalog.releases@[at - 1].version@,
        release.version@,
    )
}

proof fn good_releases_have_no_fault(catalog: ReleaseCatalog, channel: Channel, upto: int)
    requires
        0 <= upto <= catalog.releases@.len(),
        forall|i: int| 0 <= i < catalog.releases@.len() ==> may_stand(catalog, channel, i),
    ensures
        releases_fault(
            catalog.releases@,
            channel,
            readings_of(catalog.releases@),
            upto,
        ) is None,
    decreases upto,
{
    if upto > 0 {
        good_releases_have_no_fault(catalog, channel, upto - 1);
        assert(may_stand(catalog, channel, upto - 1));
    }
}

/// An image is taken by the HTTPS URL that it resolves to, and by nothing else; one that resolves to
/// no URL or to another scheme is refused by its name.
pub proof fn image_is_taken_by_its_https_url(
    result: Result<String, CatalogError>,
    image: Seq<char>,
    resolved: Option<(Seq<char>, Seq<char>)>,
)
    requires
        is_image_url(result, image, resolved),
    ensures
        result is Ok <==> resolved is Some && (resolved->0).0 == "https"@,
        result matches Ok(url) ==> url@ == (resolved->0).1,
        result matches Err(error) ==> (error matches CatalogError::InvalidImageUrl(name) && name@
            == image),
{
}

/// A text of bytes in which every byte is escaped, as two digits behind a percent sign.
pub open spec fn escaped(bytes: Seq<u8>) -> Seq<u8>
    decreases bytes.len(),
{
    if bytes.len() == 0 {
        Seq::empty()
    } else {
        seq![37u8, upper_digit(bytes[0] / 16), upper_digit(bytes[0] % 16)] + escaped(
            bytes.drop_first(),
        )
    }
}

/// The upper-case hexadecimal digit of a value below sixteen.
pub open spec fn upper_digit(value: u8) -> u8 {
    if value < 10 {
        (48 + value) as u8
    } else {
        (55 + value) as u8
    }
}

/// Decoding undoes escaping, whatever the bytes are.
pub proof fn decoding_undoes_escaping(bytes: Seq<u8>)
    ensures
        percent_bytes(escaped(bytes)) == Some(bytes),
    decreases bytes.len(),
{
    if bytes.len() > 0 {
        let rest = bytes.drop_first();
        decoding_undoes_escaping(rest);
        let all = escaped(bytes);
        assert(all.subrange(3, all.len() as int) =~= escaped(rest));
        assert(bytes =~= seq![bytes[0]] + rest);
        assert(all[0] == 37u8);
        let (high, low) = ((bytes[0] / 16) as u8, (bytes[0] % 16) as u8);
        assert(high < 16 && low < 16 && high * 16 + low == bytes[0]);
        assert(hex_digit_value(all[1]) == Some(high));
        assert(hex_digit_value(all[2]) == Some(low));
    } else {
        assert(bytes =~= Seq::empty());
    }
}

/// Bytes without a percent sign stand for themselves, and a digit of either case counts the same.
pub proof fn plain_bytes_stand_for_themselves(bytes: Seq<u8>)
    requires
        forall|i: int| 0 <= i < bytes.len() ==> #[trigger] bytes[i] != 37,
    ensures
        percent_bytes(bytes) == Some(bytes),
    decreases bytes.len(),
{
    if bytes.len() > 0 {
        assert forall|i: int| 0 <= i < bytes.drop_first().len() implies #[trigger] bytes.drop_first()[i]
            != 37 by {
            assert(bytes.drop_first()[i] == bytes[i + 1]);
        }
        plain_bytes_stand_for_themselves(bytes.drop_first());
        assert(bytes =~= seq![bytes[0]] + bytes.drop_first());
    } else {
        assert(bytes =~= Seq::empty());
    }
}

/// A percent sign that no two hexadecimal digits follow makes a name invalid.
pub proof fn broken_escape_is_refused(bytes: Seq<u8>)
    requires
        bytes.len() > 0,
        bytes[0] == 37,
        bytes.len() < 3 || hex_digit_value(bytes[1]) is None || hex_digit_value(bytes[2]) is None,
    ensures
        percent_bytes(bytes) is None,
{
}

/// A byte is a hexadecimal digit exactly where it is one of the ten digits or of the six letters of
/// either case, and the two cases of a letter count the same.
pub proof fn hexadecimal_digits_are_these(byte: u8)
    ensures
        hex_digit_value(byte) is Some <==> 48 <= byte <= 57 || 65 <= byte <= 70 || 97 <= byte
            <= 102,
        65 <= byte <= 70 ==> hex_digit_value(byte) == hex_digit_value((byte + 32) as u8),
        hex_digit_value(byte) matches Some(value) ==> value < 16,
{
}

/// A release of which nothing is known is refused, and each release is judged by its own reading.
pub proof fn unread_release_is_refused(
    releases: Seq<Manifest>,
    channel: Channel,
    readings: Seq<ReleaseReadingView>,
    at: int,
)
    requires
        0 <= at < releases.len(),
    ensures
        at < readings.len() ==> reading_at(readings, at) == readings[at],
        at >= readings.len() ==> release_fault(
            releases,
            channel,
            at,
            reading_at(readings, at),
        ) is Some,
{
}

} // verus!
