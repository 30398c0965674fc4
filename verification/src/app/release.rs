//! Which releases may enter the destructive path.

use vstd::prelude::*;
use vstd::string::*;

use crate::digest;
use crate::model::{Board, ImageInfo, Manifest, ManifestView};
use crate::text;
use crate::text::join3;
use crate::worker::valid_sha256;

verus! {

/// The manifest schema that carries integrity metadata.
pub const INTEGRITY_SCHEMA: u32 = 2;

/// Whether releases of a schema carry what a safe installation needs.
pub open spec fn is_supported_schema(schema_version: Option<u32>) -> bool {
    schema_version == Some(INTEGRITY_SCHEMA)
}

/// Whether a manifest has the schema that carries integrity metadata.
pub fn supports_manifest_schema(schema_version: Option<u32>) -> (result: bool)
    ensures
        result == is_supported_schema(schema_version),
{
    match schema_version {
        Some(version) => version == INTEGRITY_SCHEMA,
        None => false,
    }
}

/// The view of an optional text.
pub open spec fn text_view(value: Option<&str>) -> Option<Seq<char>> {
    match value {
        Some(text) => Some(text@),
        None => None,
    }
}

/// What is wrong with a checksum of a release.
pub open spec fn hash_fault(value: Option<Seq<char>>, name: Seq<char>) -> Option<Seq<char>> {
    match value {
        None => Some("Release metadata is missing the "@ + name + " checksum"@),
        Some(hash) => if digest::is_sha256_text(hash) {
            None
        } else {
            Some("Release metadata has an invalid "@ + name + " checksum"@)
        },
    }
}

/// What is wrong with a size of a release.
pub open spec fn size_fault(value: Option<u64>, name: Seq<char>) -> Option<Seq<char>> {
    if value matches Some(size) && size > 0 {
        None
    } else {
        Some("Release metadata is missing the "@ + name + " size"@)
    }
}

/// A checksum that a release must have.
pub fn required_hash(value: Option<&str>, name: &str) -> (result: Result<String, String>)
    ensures
        match result {
            Ok(hash) => hash_fault(text_view(value), name@) is None && text_view(value) == Some(
                hash@,
            ),
            Err(fault) => hash_fault(text_view(value), name@) == Some(fault@),
        },
{
    match value {
        None => Err(join3("Release metadata is missing the ", name, " checksum")),
        Some(hash) => {
            if valid_sha256(hash) {
                Ok(hash.to_owned())
            } else {
                Err(join3("Release metadata has an invalid ", name, " checksum"))
            }
        },
    }
}

/// A size that a release must have.
pub fn required_size(value: Option<u64>, name: &str) -> (result: Result<u64, String>)
    ensures
        match result {
            Ok(size) => size_fault(value, name@) is None && value == Some(size),
            Err(fault) => size_fault(value, name@) == Some(fault@),
        },
{
    match value {
        Some(size) => {
            if size > 0 {
                return Ok(size);
            }
        },
        None => {},
    }
    Err(join3("Release metadata is missing the ", name, " size"))
}

/// The first of some faults.
pub open spec fn first_fault(first: Option<Seq<char>>, second: Option<Seq<char>>) -> Option<
    Seq<char>,
> {
    if first is Some {
        first
    } else {
        second
    }
}

/// What is wrong with the integrity metadata of an image.
pub open spec fn integrity_fault(image: ImageInfo) -> Option<Seq<char>> {
    first_fault(
        first_fault(
            hash_fault(text::optional_text(image.sha256), "compressed image"@),
            hash_fault(text::optional_text(image.raw_sha256), "raw image"@),
        ),
        first_fault(
            size_fault(image.compressed_size, "compressed image"@),
            size_fault(image.uncompressed_size, "raw image"@),
        ),
    )
}

/// What is wrong with a release for a board.
pub open spec fn release_fault(manifest: ManifestView, board: Board) -> Option<Seq<char>> {
    if manifest.schema_version != Some(INTEGRITY_SCHEMA) {
        Some("This release is waiting for safe installer metadata. Try again shortly."@)
    } else {
        match manifest.image(board) {
            None => Some("This release has no image for the selected Raspberry Pi"@),
            Some(image) => if image.url is None {
                Some("Release metadata is missing the immutable image URL"@)
            } else {
                integrity_fault(image)
            },
        }
    }
}

/// An optional text, borrowed.
pub fn borrowed(value: &Option<String>) -> (result: Option<&str>)
    ensures
        text_view(result) == text::optional_text(*value),
{
    match value {
        Some(text) => Some(text.as_str()),
        None => None,
    }
}

/// What the integrity metadata of an image say.
#[derive(Clone, Debug, PartialEq, Eq)]
pub struct Integrity {
    pub compressed_sha256: String,
    pub raw_sha256: String,
    pub compressed_size: u64,
    pub raw_size: u64,
}

/// The integrity metadata of an image, where they are complete.
pub fn required_integrity(image: &ImageInfo) -> (result: Result<Integrity, String>)
    ensures
        match result {
            Ok(integrity) => {
                &&& integrity_fault(*image) is None
                &&& text::optional_text(image.sha256) == Some(integrity.compressed_sha256@)
                &&& text::optional_text(image.raw_sha256) == Some(integrity.raw_sha256@)
                &&& image.compressed_size == Some(integrity.compressed_size)
                &&& image.uncompressed_size == Some(integrity.raw_size)
            },
            Err(fault) => integrity_fault(*image) == Some(fault@),
        },
{
    let compressed_sha256 = match required_hash(borrowed(&image.sha256), "compressed image") {
        Ok(hash) => hash,
        Err(fault) => {
            return Err(fault);
        },
    };
    let raw_sha256 = match required_hash(borrowed(&image.raw_sha256), "raw image") {
        Ok(hash) => hash,
        Err(fault) => {
            return Err(fault);
        },
    };
    let compressed_size: u64 = match required_size(image.compressed_size, "compressed image") {
        Ok(size) => size,
        Err(fault) => {
            return Err(fault);
        },
    };
    let raw_size: u64 = match required_size(image.uncompressed_size, "raw image") {
        Ok(size) => size,
        Err(fault) => {
            return Err(fault);
        },
    };
    Ok(Integrity { compressed_sha256, raw_sha256, compressed_size, raw_size })
}

/// Check that a release can be installed on a board.
pub fn validate_release_image(manifest: &Manifest, board: Board) -> (result: Result<(), String>)
    ensures
        match result {
            Ok(_) => release_fault(manifest@, board) is None,
            Err(fault) => release_fault(manifest@, board) == Some(fault@),
        },
{
    if !supports_manifest_schema(manifest.schema_version) {
        return Err(
            "This release is waiting for safe installer metadata. Try again shortly.".to_owned(),
        );
    }
    let image = match manifest.image_for(board) {
        Some(image) => image,
        None => {
            return Err("This release has no image for the selected Raspberry Pi".to_owned());
        },
    };
    if image.url.is_none() {
        return Err("Release metadata is missing the immutable image URL".to_owned());
    }
    match required_integrity(image) {
        Ok(_) => Ok(()),
        Err(fault) => Err(fault),
    }
}

/// A release may be installed on a board exactly where it is of the schema with integrity metadata,
/// has an image for that board with an immutable URL, and names the digest and the size of that
/// image both compressed and raw.
pub proof fn installable_release_is_complete(manifest: ManifestView, board: Board)
    ensures
        release_fault(manifest, board) is None <==> {
            &&& manifest.schema_version == Some(2u32)
            &&& manifest.image(board) matches Some(image)
            &&& image.url is Some
            &&& image.sha256 matches Some(compressed)
            &&& digest::is_sha256_text(compressed@)
            &&& image.raw_sha256 matches Some(raw)
            &&& digest::is_sha256_text(raw@)
            &&& image.compressed_size matches Some(compressed_size)
            &&& compressed_size > 0
            &&& image.uncompressed_size matches Some(raw_size)
            &&& raw_size > 0
        },
{
}

/// No release is installed whose schema is not supported, and none is refused for a schema that is.
pub proof fn supported_schema_is_what_installing_needs(manifest: ManifestView, board: Board)
    ensures
        release_fault(manifest, board) is None ==> is_supported_schema(manifest.schema_version),
        is_supported_schema(manifest.schema_version) && (manifest.image(board) matches Some(image)
            && image.url is Some && integrity_fault(image) is None) ==> release_fault(
            manifest,
            board,
        ) is None,
{
}

/// What a release must have is missed by name: a checksum that is absent is not said to be invalid,
/// and the size and checksum that are named are the ones that were asked for.
pub proof fn missing_metadata_is_named(
    hash: Option<Seq<char>>,
    size: Option<u64>,
    name: Seq<char>,
    other: Seq<char>,
)
    ensures
        hash is None ==> hash_fault(hash, name) is Some,
        hash_fault(hash, name) is Some && hash_fault(hash, name) == hash_fault(hash, other) ==> name
            == other,
        size_fault(size, name) is Some && size_fault(size, name) == size_fault(size, other) ==> name
            == other,
{
    let missing = "Release metadata is missing the "@;
    let invalid = "Release metadata has an invalid "@;
    let checksum = " checksum"@;
    let bytes = " size"@;
    named_between(missing, name, other, checksum);
    named_between(invalid, name, other, checksum);
    named_between(missing, name, other, bytes);
}

proof fn named_between(front: Seq<char>, first: Seq<char>, second: Seq<char>, end: Seq<char>)
    ensures
        front + first + end == front + second + end ==> first == second,
{
    if front + first + end == front + second + end {
        let whole = front + first + end;
        assert(whole.len() == (front + second + end).len());
        assert(first =~= whole.subrange(front.len() as int, (front.len() + first.len()) as int));
        assert(second =~= (front + second + end).subrange(
            front.len() as int,
            (front.len() + second.len()) as int,
        ));
    }
}

} // verus!
