//! Channels, boards, releases and drives.

use vstd::prelude::*;
use vstd::string::*;

use crate::text;
use crate::text::decimal_text;

verus! {

/// `SnapDog` OS release channel.
#[derive(Clone, Copy, Debug, PartialEq, Eq, PartialOrd, Ord, Structural)]
pub enum Channel {
    /// Stable release images.
    Release,
    /// Preview images.
    Beta,
}

impl Default for Channel {
    fn default() -> (channel: Channel)
        ensures
            channel == Channel::Release,
    {
        Channel::Release
    }
}

impl Channel {
    /// Human-facing channel name.
    pub open spec fn label_text(self) -> Seq<char> {
        match self {
            Channel::Release => "Stable"@,
            Channel::Beta => "Beta"@,
        }
    }

    /// Human-facing channel name.
    pub fn label(self) -> (result: &'static str)
        ensures
            result@ == self.label_text(),
    {
        match self {
            Channel::Release => "Stable",
            Channel::Beta => "Beta",
        }
    }

    /// Manifest filename suffix.
    pub open spec fn manifest_text(self) -> Seq<char> {
        match self {
            Channel::Release => "release"@,
            Channel::Beta => "beta"@,
        }
    }

    /// Manifest filename suffix.
    pub fn manifest_name(self) -> (result: &'static str)
        ensures
            result@ == self.manifest_text(),
    {
        match self {
            Channel::Release => "release",
            Channel::Beta => "beta",
        }
    }
}

/// Raspberry Pi models supported by `SnapDog` OS.
#[derive(Clone, Copy, Debug, PartialEq, Eq, PartialOrd, Ord, Hash, Structural)]
pub enum Board {
    Pi5,
    Pi4,
    Pi3,
    Zero2W,
}

impl Board {
    /// Every supported board, in the order in which they are offered and checked.
    pub const ALL: [Board; 4] = [Board::Pi5, Board::Pi4, Board::Pi3, Board::Zero2W];

    /// Manifest identifier.
    pub open spec fn id_text(self) -> Seq<char> {
        match self {
            Board::Pi5 => "pi5"@,
            Board::Pi4 => "pi4"@,
            Board::Pi3 => "pi3"@,
            Board::Zero2W => "zero2w"@,
        }
    }

    /// Manifest identifier.
    pub fn id(self) -> (result: &'static str)
        ensures
            result@ == self.id_text(),
    {
        match self {
            Board::Pi5 => "pi5",
            Board::Pi4 => "pi4",
            Board::Pi3 => "pi3",
            Board::Zero2W => "zero2w",
        }
    }

    /// Full Raspberry Pi product name.
    pub open spec fn label_text(self) -> Seq<char> {
        match self {
            Board::Pi5 => "Raspberry Pi 5"@,
            Board::Pi4 => "Raspberry Pi 4"@,
            Board::Pi3 => "Raspberry Pi 3"@,
            Board::Zero2W => "Raspberry Pi Zero 2 W"@,
        }
    }

    /// Full Raspberry Pi product name.
    pub fn label(self) -> (result: &'static str)
        ensures
            result@ == self.label_text(),
    {
        match self {
            Board::Pi5 => "Raspberry Pi 5",
            Board::Pi4 => "Raspberry Pi 4",
            Board::Pi3 => "Raspberry Pi 3",
            Board::Zero2W => "Raspberry Pi Zero 2 W",
        }
    }
}

/// No two boards share an identifier.
pub proof fn board_identifiers_differ(first: Board, second: Board)
    ensures
        first.id_text() == second.id_text() ==> first == second,
{
    reveal_strlit("pi5");
    reveal_strlit("pi4");
    reveal_strlit("pi3");
    reveal_strlit("zero2w");
    assert("pi5"@[2] == '5' && "pi4"@[2] == '4' && "pi3"@[2] == '3');
    assert("zero2w"@.len() == 6 && "pi5"@.len() == 3 && "pi4"@.len() == 3 && "pi3"@.len() == 3);
}

/// Download information for one board image.
#[derive(Clone, Debug, PartialEq, Eq)]
pub struct ImageInfo {
    /// The name of the image below the image service; it may change between releases.
    pub image: String,
    pub sha256: Option<String>,
    /// The immutable URL of exactly this image.
    pub url: Option<String>,
    pub compressed_size: Option<u64>,
    pub uncompressed_size: Option<u64>,
    pub raw_sha256: Option<String>,
}

impl ImageInfo {
    /// A copy of the information.
    pub fn copy(&self) -> (result: ImageInfo)
        ensures
            result == *self,
    {
        ImageInfo {
            image: self.image.clone(),
            sha256: text::copy_text(&self.sha256),
            url: text::copy_text(&self.url),
            compressed_size: self.compressed_size,
            uncompressed_size: self.uncompressed_size,
            raw_sha256: text::copy_text(&self.raw_sha256),
        }
    }

    /// What the image is downloaded by: its URL, or its file name where it has none.
    pub open spec fn reference(self) -> Seq<char> {
        match self.url {
            Some(url) => url@,
            None => self.image@,
        }
    }

    /// What the image is downloaded by: its immutable URL where the manifest has one, else its
    /// name.
    pub fn download_reference(&self) -> (result: &str)
        ensures
            result@ == self.reference(),
    {
        match &self.url {
            Some(url) => url.as_str(),
            None => self.image.as_str(),
        }
    }
}

/// Release service manifest.
#[derive(Clone, Debug, PartialEq, Eq)]
pub struct Manifest {
    /// Absent in the first schema, which carries no integrity metadata.
    pub schema_version: Option<u32>,
    pub channel: Channel,
    pub version: String,
    pub commit: Option<String>,
    pub date: String,
    /// The image of each board, by the board's identifier. An identifier occurs once.
    pub boards: Vec<(String, ImageInfo)>,
}

/// What a [`Manifest`] holds.
#[verifier::ext_equal]
pub struct ManifestView {
    pub schema_version: Option<u32>,
    pub channel: Channel,
    pub version: Seq<char>,
    pub commit: Option<Seq<char>>,
    pub date: Seq<char>,
    pub boards: Seq<(String, ImageInfo)>,
}

impl View for Manifest {
    type V = ManifestView;

    open spec fn view(&self) -> ManifestView {
        ManifestView {
            schema_version: self.schema_version,
            channel: self.channel,
            version: self.version@,
            commit: text::optional_text(self.commit),
            date: self.date@,
            boards: self.boards@,
        }
    }
}

impl ManifestView {
    /// The image of a board, where the manifest has one.
    pub open spec fn image(self, board: Board) -> Option<ImageInfo> {
        lookup(self.boards, board.id_text())
    }
}

/// The entry of an identifier, the first where there are several.
pub open spec fn lookup(boards: Seq<(String, ImageInfo)>, id: Seq<char>) -> Option<ImageInfo>
    decreases boards.len(),
{
    if boards.len() == 0 {
        None
    } else if boards[0].0@ == id {
        Some(boards[0].1)
    } else {
        lookup(boards.drop_first(), id)
    }
}

impl Manifest {
    /// Whether every identifier occurs once.
    pub open spec fn well_formed(self) -> bool {
        forall|i: int, j: int|
            0 <= i < j < self.boards@.len() ==> (#[trigger] self.boards@[i]).0@ != (
            #[trigger] self.boards@[j]).0@
    }

    /// The image of a board, where the manifest has one.
    pub open spec fn image(self, board: Board) -> Option<ImageInfo> {
        lookup(self.boards@, board.id_text())
    }

    /// A copy of the manifest.
    pub fn copy(&self) -> (result: Manifest)
        ensures
            result@ == self@,
    {
        let mut boards: Vec<(String, ImageInfo)> = Vec::new();
        let mut index: usize = 0;
        while index < self.boards.len()
            invariant
                index <= self.boards@.len(),
                boards@ == self.boards@.take(index as int),
            decreases self.boards@.len() - index,
        {
            boards.push((self.boards[index].0.clone(), self.boards[index].1.copy()));
            assert(boards@ =~= self.boards@.take(index as int + 1));
            index += 1;
        }
        assert(boards@ =~= self.boards@);
        Manifest {
            schema_version: self.schema_version,
            channel: self.channel,
            version: self.version.clone(),
            commit: text::copy_text(&self.commit),
            date: self.date.clone(),
            boards,
        }
    }

    /// Return the selected board image, when present.
    pub fn image_for(&self, board: Board) -> (result: Option<&ImageInfo>)
        ensures
            match result {
                Some(info) => self.image(board) == Some(*info),
                None => self.image(board) is None,
            },
    {
        let ghost all = self.boards@;
        assert(all.subrange(0, all.len() as int) =~= all);
        let mut index: usize = 0;
        while index < self.boards.len()
            invariant
                index <= self.boards@.len(),
                all == self.boards@,
                self.image(board) == lookup(
                    all.subrange(index as int, all.len() as int),
                    board.id_text(),
                ),
            decreases self.boards@.len() - index,
        {
            let ghost rest = all.subrange(index as int, all.len() as int);
            if text::same_text(self.boards[index].0.as_str(), board.id()) {
                assert(rest[0].0@ == board.id_text());
                return Some(&self.boards[index].1);
            }
            assert(rest.drop_first() =~= all.subrange(index as int + 1, all.len() as int));
            index += 1;
        }
        None
    }
}

/// In a manifest in which every identifier occurs once, a board's image is that of any entry with
/// its identifier.
pub proof fn image_is_the_only_entry(manifest: Manifest, board: Board, at: int)
    requires
        manifest.well_formed(),
        0 <= at < manifest.boards@.len(),
        manifest.boards@[at].0@ == board.id_text(),
    ensures
        manifest.image(board) == Some(manifest.boards@[at].1),
{
    lookup_finds(manifest.boards@, board.id_text(), at);
}

proof fn lookup_finds(boards: Seq<(String, ImageInfo)>, id: Seq<char>, at: int)
    requires
        0 <= at < boards.len(),
        boards[at].0@ == id,
        forall|i: int| 0 <= i < at ==> (#[trigger] boards[i]).0@ != id,
    ensures
        lookup(boards, id) == Some(boards[at].1),
    decreases boards.len(),
{
    if at > 0 {
        let rest = boards.drop_first();
        assert forall|i: int| 0 <= i < at - 1 implies (#[trigger] rest[i]).0@ != id by {
            assert(rest[i] == boards[i + 1]);
        }
        lookup_finds(rest, id, at - 1);
    }
}

/// Every release that a channel offers for installation.
#[derive(Clone, Debug, PartialEq, Eq)]
pub struct ReleaseCatalog {
    pub schema_version: u32,
    pub channel: Channel,
    /// The releases, newest first.
    pub releases: Vec<Manifest>,
}

/// Image choice confirmed in the first workflow step.
#[derive(Clone, Debug, PartialEq, Eq)]
pub struct ImageSelection {
    pub board: Board,
    pub manifest: Manifest,
    pub url: String,
}

/// What an [`ImageSelection`] holds.
#[verifier::ext_equal]
pub struct ImageSelectionView {
    pub board: Board,
    pub manifest: ManifestView,
    pub url: Seq<char>,
}

impl View for ImageSelection {
    type V = ImageSelectionView;

    open spec fn view(&self) -> ImageSelectionView {
        ImageSelectionView { board: self.board, manifest: self.manifest@, url: self.url@ }
    }
}

impl ImageSelection {
    /// A copy of the selection.
    pub fn copy(&self) -> (result: ImageSelection)
        ensures
            result@ == self@,
    {
        ImageSelection {
            board: self.board,
            manifest: self.manifest.copy(),
            url: self.url.clone(),
        }
    }
}

/// A removable physical drive that can be selected as the single flash target.
#[derive(Clone, Debug, PartialEq, Eq)]
pub struct Drive {
    pub id: String,
    pub device: String,
    pub name: String,
    pub capacity: u64,
}

/// What a [`Drive`] holds.
#[verifier::ext_equal]
pub struct DriveView {
    pub id: Seq<char>,
    pub device: Seq<char>,
    pub name: Seq<char>,
    pub capacity: u64,
}

impl View for Drive {
    type V = DriveView;

    open spec fn view(&self) -> DriveView {
        DriveView {
            id: self.id@,
            device: self.device@,
            name: self.name@,
            capacity: self.capacity,
        }
    }
}

/// A size in gigabytes with one decimal, or in whole megabytes below one gigabyte.
pub open spec fn capacity_text(bytes: u64) -> Seq<char> {
    if bytes >= 1_000_000_000 {
        text::decimal(bytes as nat / 1_000_000_000) + "."@ + text::decimal(
            (bytes as nat % 1_000_000_000) / 100_000_000,
        ) + " GB"@
    } else {
        text::decimal(bytes as nat / 1_000_000) + " MB"@
    }
}

/// A size as it is shown beside a drive's name.
pub fn format_capacity(bytes: u64) -> (result: String)
    ensures
        result@ == capacity_text(bytes),
{
    if bytes >= 1_000_000_000 {
        let whole = decimal_text(bytes / 1_000_000_000);
        let tenth = decimal_text((bytes % 1_000_000_000) / 100_000_000);
        let mut result = text::join3(whole.as_str(), ".", tenth.as_str());
        result.append(" GB");
        result
    } else {
        let whole = decimal_text(bytes / 1_000_000);
        text::join2(whole.as_str(), " MB")
    }
}

impl Drive {
    /// Human-facing drive name with its approximate capacity.
    pub fn label(&self) -> (result: String)
        ensures
            result@ == self.name@ + " — "@ + capacity_text(self.capacity),
    {
        let capacity = format_capacity(self.capacity);
        text::join3(self.name.as_str(), " — ", capacity.as_str())
    }

    /// A copy of the drive.
    pub fn copy(&self) -> (result: Drive)
        ensures
            result == *self,
    {
        Drive {
            id: self.id.clone(),
            device: self.device.clone(),
            name: self.name.clone(),
            capacity: self.capacity,
        }
    }
}

/// A board has an image exactly where an entry of the manifest has its identifier, and the image is
/// that of such an entry.
pub proof fn image_comes_from_an_entry(manifest: Manifest, board: Board)
    ensures
        manifest.image(board) is None <==> forall|i: int|
            0 <= i < manifest.boards@.len() ==> (#[trigger] manifest.boards@[i]).0@
                != board.id_text(),
        manifest.image(board) matches Some(image) ==> exists|i: int|
            0 <= i < manifest.boards@.len() && (#[trigger] manifest.boards@[i]).0@
                == board.id_text() && manifest.boards@[i].1 == image,
        manifest@.image(board) == manifest.image(board),
{
    lookup_is_sound(manifest.boards@, board.id_text());
}

proof fn lookup_is_sound(boards: Seq<(String, ImageInfo)>, id: Seq<char>)
    ensures
        lookup(boards, id) is None <==> forall|i: int|
            0 <= i < boards.len() ==> (#[trigger] boards[i]).0@ != id,
        lookup(boards, id) matches Some(image) ==> exists|i: int|
            0 <= i < boards.len() && (#[trigger] boards[i]).0@ == id && boards[i].1 == image,
    decreases boards.len(),
{
    if boards.len() > 0 {
        let rest = boards.drop_first();
        lookup_is_sound(rest, id);
        if boards[0].0@ != id {
            assert forall|i: int| 0 <= i < rest.len() implies #[trigger] rest[i] == boards[i + 1] by {
            }
            if lookup(boards, id) is None {
                assert forall|i: int| 0 <= i < boards.len() implies (#[trigger] boards[i]).0@
                    != id by {
                    if i > 0 {
                        assert(rest[i - 1] == boards[i]);
                    }
                }
            } else {
                let at = choose|i: int|
                    0 <= i < rest.len() && (#[trigger] rest[i]).0@ == id && rest[i].1 == lookup(
                        rest,
                        id,
                    )->0;
                assert(boards[at + 1].0@ == id);
            }
        }
    }
}

/// A capacity is shown by its whole and tenth gigabytes, or below one gigabyte by its whole
/// megabytes: never more than there is, and short of it by less than the last digit counts.
pub proof fn shown_capacity_is_near(bytes: u64) -> (shown: (nat, nat))
    ensures
        bytes >= 1_000_000_000 ==> {
            &&& capacity_text(bytes) == text::decimal(shown.0) + "."@ + text::decimal(shown.1)
                + " GB"@
            &&& shown.1 < 10
            &&& (10 * shown.0 + shown.1) * 100_000_000 <= bytes < (10 * shown.0 + shown.1 + 1)
                * 100_000_000
        },
        bytes < 1_000_000_000 ==> {
            &&& capacity_text(bytes) == text::decimal(shown.0) + " MB"@
            &&& shown.0 * 1_000_000 <= bytes < (shown.0 + 1) * 1_000_000
        },
{
    if bytes >= 1_000_000_000 {
        (bytes as nat / 1_000_000_000, (bytes as nat % 1_000_000_000) / 100_000_000)
    } else {
        (bytes as nat / 1_000_000, 0)
    }
}

/// The URL of an image decides what is downloaded, whatever its file is named; without a URL its
/// file name does.
pub proof fn url_goes_before_the_file_name(image: ImageInfo, other: ImageInfo)
    ensures
        image.url matches Some(url) ==> image.reference() == url@,
        image.url is None ==> image.reference() == image.image@,
        image.url is Some && image.url == other.url ==> image.reference() == other.reference(),
{
}

} // verus!
