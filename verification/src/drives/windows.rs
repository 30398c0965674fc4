//! Windows disks, as the storage provider describes them.

use vstd::bytes::*;
use vstd::prelude::*;
use vstd::string::*;
use vstd::utf8::*;

use crate::digest;
use crate::digest::{hex_encode, Hasher};
use crate::drives;
use crate::model::{Drive, DriveView};
use crate::text;
use crate::text::{
    chars_of, decimal_text, digits_between, has_prefix, hex_between, parse_bounded, rfind_char,
    same_text, text_between, to_upper, trim,
};
use crate::windows_native::DiskRecord;
use crate::worker::{WorkerDrive, WorkerDriveView};

verus! {

broadcast use vstd::seq_lib::group_seq_properties;

/// The first field of every fingerprint.
pub const STABLE_ID_VERSION: &'static str = "windows-disk-v2";

/// What the device path of every physical disk starts with.
pub const PHYSICAL_DRIVE_PREFIX: &'static str = "\\\\.\\PHYSICALDRIVE";

// ---------------------------------------------------------------------------------------------
// Geometry
// ---------------------------------------------------------------------------------------------

/// A power of two from 512 up to 65536.
pub open spec fn is_sector_size(size: u32) -> bool {
    size == 512 || size == 1024 || size == 2048 || size == 4096 || size == 8192 || size == 16384
        || size == 32768 || size == 65536
}

fn sector_size_is_valid(size: u32) -> (result: bool)
    ensures
        result == is_sector_size(size),
{
    size == 512 || size == 1024 || size == 2048 || size == 4096 || size == 8192 || size == 16384
        || size == 32768 || size == 65536
}

/// Whether a disk's sectors are ones that can be transferred unbuffered: powers of two between 512
/// bytes and 64 kilobytes, the physical no smaller than the logical, and a size of whole logical
/// sectors.
pub open spec fn is_sector_geometry(size: u64, logical: u32, physical: u32) -> bool {
    &&& is_sector_size(logical)
    &&& is_sector_size(physical)
    &&& logical <= physical
    &&& size % (logical as u64) == 0
}

/// Whether a disk's sectors are ones that can be transferred unbuffered.
pub fn valid_sector_geometry(size: u64, logical: u32, physical: u32) -> (result: bool)
    ensures
        result == is_sector_geometry(size, logical, physical),
{
    sector_size_is_valid(logical) && sector_size_is_valid(physical) && logical <= physical && size
        % (logical as u64) == 0
}

// ---------------------------------------------------------------------------------------------
// Fingerprints
// ---------------------------------------------------------------------------------------------

/// What a fingerprint is taken of.
#[verifier::ext_equal]
pub struct DiskIdentity {
    pub number: u32,
    pub size: u64,
    pub logical_sector_size: u32,
    pub physical_sector_size: u32,
    pub bus_type: Seq<char>,
    pub path: Seq<char>,
    pub unique_id: Seq<char>,
    pub serial_number: Seq<char>,
    pub supports_removable_media: bool,
}

/// One field, behind its length in eight little-endian bytes.
pub open spec fn frame(field: Seq<u8>) -> Seq<u8> {
    spec_u64_to_le_bytes(field.len() as u64) + field
}

/// Some fields, each behind its length.
pub open spec fn framed(fields: Seq<Seq<u8>>) -> Seq<u8>
    decreases fields.len(),
{
    if fields.len() == 0 {
        Seq::empty()
    } else {
        framed(fields.drop_last()) + frame(fields.last())
    }
}

/// The text of a truth value.
pub open spec fn bool_text(value: bool) -> Seq<char> {
    if value {
        "true"@
    } else {
        "false"@
    }
}

/// The fields of a fingerprint, in their order.
pub open spec fn fingerprint_fields(identity: DiskIdentity) -> Seq<Seq<u8>> {
    seq![
        encode_utf8(STABLE_ID_VERSION@),
        encode_utf8(text::decimal(identity.number as nat)),
        encode_utf8(text::decimal(identity.size as nat)),
        encode_utf8(text::decimal(identity.logical_sector_size as nat)),
        encode_utf8(text::decimal(identity.physical_sector_size as nat)),
        encode_utf8(identity.bus_type),
        encode_utf8(identity.path),
        encode_utf8(identity.unique_id),
        encode_utf8(identity.serial_number),
        encode_utf8(bool_text(identity.supports_removable_media)),
    ]
}

/// The fingerprint of a disk: the digest of its framed fields in hexadecimal digits.
pub open spec fn fingerprint_of(identity: DiskIdentity) -> Seq<char> {
    digest::sha256_text(framed(fingerprint_fields(identity)))
}

/// Whether every field's length can be written in eight bytes.
pub open spec fn is_framable(fields: Seq<Seq<u8>>) -> bool {
    forall|i: int| 0 <= i < fields.len() ==> (#[trigger] fields[i]).len() <= u64::MAX
}

proof fn framed_from_the_front(fields: Seq<Seq<u8>>)
    requires
        fields.len() > 0,
    ensures
        framed(fields) == frame(fields[0]) + framed(fields.drop_first()),
    decreases fields.len(),
{
    if fields.len() == 1 {
        assert(fields.drop_last() =~= Seq::empty());
        assert(fields.drop_first() =~= Seq::empty());
        assert(framed(fields) =~= frame(fields[0]) + framed(fields.drop_first()));
    } else {
        let head = fields.drop_last();
        framed_from_the_front(head);
        assert(head.drop_first() =~= fields.drop_first().drop_last());
        assert(framed(fields) =~= frame(fields[0]) + (framed(head.drop_first()) + frame(
            fields.last(),
        )));
    }
}

/// Two lists of as many fields that are framed to the same bytes are the same list: no field can
/// run into the next.
pub proof fn framing_is_unambiguous(first: Seq<Seq<u8>>, second: Seq<Seq<u8>>)
    requires
        first.len() == second.len(),
        is_framable(first),
        is_framable(second),
        framed(first) == framed(second),
    ensures
        first == second,
    decreases first.len(),
{
    if first.len() > 0 {
        framed_from_the_front(first);
        framed_from_the_front(second);
        lemma_auto_spec_u64_to_from_le_bytes();
        let whole = framed(first);
        let one = first[0];
        let other = second[0];
        let one_length = spec_u64_to_le_bytes(one.len() as u64);
        let other_length = spec_u64_to_le_bytes(other.len() as u64);
        assert(whole.take(8) =~= one_length);
        assert(whole.take(8) =~= other_length);
        assert(one.len() as u64 == other.len() as u64);
        assert(one.len() == other.len());
        assert(whole.subrange(8, 8 + one.len() as int) =~= one);
        assert(whole.subrange(8, 8 + one.len() as int) =~= other);
        let rest_first = framed(first.drop_first());
        let rest_second = framed(second.drop_first());
        assert(whole.subrange(8 + one.len() as int, whole.len() as int) =~= rest_first);
        assert(whole.subrange(8 + one.len() as int, whole.len() as int) =~= rest_second);
        assert forall|i: int| 0 <= i < first.drop_first().len() implies (
        #[trigger] first.drop_first()[i]).len() <= u64::MAX by {
            assert(first.drop_first()[i] == first[i + 1]);
        }
        assert forall|i: int| 0 <= i < second.drop_first().len() implies (
        #[trigger] second.drop_first()[i]).len() <= u64::MAX by {
            assert(second.drop_first()[i] == second[i + 1]);
        }
        framing_is_unambiguous(first.drop_first(), second.drop_first());
        assert(seq![first[0]] + first.drop_first() =~= first);
        assert(seq![second[0]] + second.drop_first() =~= second);
    } else {
        assert(first =~= second);
    }
}

proof fn same_encoding_same_text(first: Seq<char>, second: Seq<char>)
    requires
        encode_utf8(first) == encode_utf8(second),
    ensures
        first == second,
{
    encode_utf8_decode_utf8(first);
    encode_utf8_decode_utf8(second);
}

proof fn same_decimal_same_number(first: nat, second: nat)
    requires
        encode_utf8(text::decimal(first)) == encode_utf8(text::decimal(second)),
    ensures
        first == second,
{
    same_encoding_same_text(text::decimal(first), text::decimal(second));
    text::decimal_reads_back(first);
    text::decimal_reads_back(second);
}

/// What is hashed into a fingerprint binds every part of a disk's identity: two disks that differ
/// in number, capacity, sector sizes, bus, path, unique identifier, serial number or removable
/// capability are never hashed from the same bytes.
pub proof fn fingerprint_binds_every_field(first: DiskIdentity, second: DiskIdentity)
    requires
        is_framable(fingerprint_fields(first)),
        is_framable(fingerprint_fields(second)),
        framed(fingerprint_fields(first)) == framed(fingerprint_fields(second)),
    ensures
        first == second,
{
    let one = fingerprint_fields(first);
    let other = fingerprint_fields(second);
    framing_is_unambiguous(one, other);
    assert(one[1] == other[1] && one[2] == other[2] && one[3] == other[3] && one[4] == other[4]);
    assert(one[5] == other[5] && one[6] == other[6] && one[7] == other[7] && one[8] == other[8]
        && one[9] == other[9]);
    same_decimal_same_number(first.number as nat, second.number as nat);
    same_decimal_same_number(first.size as nat, second.size as nat);
    same_decimal_same_number(first.logical_sector_size as nat, second.logical_sector_size as nat);
    same_decimal_same_number(first.physical_sector_size as nat, second.physical_sector_size as nat);
    same_encoding_same_text(first.bus_type, second.bus_type);
    same_encoding_same_text(first.path, second.path);
    same_encoding_same_text(first.unique_id, second.unique_id);
    same_encoding_same_text(first.serial_number, second.serial_number);
    same_encoding_same_text(
        bool_text(first.supports_removable_media),
        bool_text(second.supports_removable_media),
    );
    reveal_strlit("true");
    reveal_strlit("false");
    assert("true"@.len() != "false"@.len());
    assert(first =~= second);
}

fn hash_field(hasher: &mut Hasher, field: &str)
    ensures
        digest::hashed_bytes(*final(hasher)) == digest::hashed_bytes(*old(hasher)) + frame(
            encode_utf8(field@),
        ),
{
    let bytes = field.as_bytes();
    let length = u64_to_le_bytes(bytes.len() as u64);
    hasher.update(length.as_slice());
    hasher.update(bytes);
    assert(digest::hashed_bytes(*hasher) =~= digest::hashed_bytes(*old(hasher)) + frame(
        encode_utf8(field@),
    ));
}

/// The parts of a disk's identity that are hashed into its fingerprint.
pub struct FingerprintParts<'a> {
    pub number: u32,
    pub size: u64,
    pub logical_sector_size: u32,
    pub physical_sector_size: u32,
    pub bus_type: &'a str,
    pub path: &'a str,
    pub unique_id: &'a str,
    pub serial_number: &'a str,
    pub supports_removable_media: bool,
}

impl<'a> View for FingerprintParts<'a> {
    type V = DiskIdentity;

    open spec fn view(&self) -> DiskIdentity {
        DiskIdentity {
            number: self.number,
            size: self.size,
            logical_sector_size: self.logical_sector_size,
            physical_sector_size: self.physical_sector_size,
            bus_type: self.bus_type@,
            path: self.path@,
            unique_id: self.unique_id@,
            serial_number: self.serial_number@,
            supports_removable_media: self.supports_removable_media,
        }
    }
}

/// The fingerprint of a disk.
pub fn fingerprint(parts: &FingerprintParts) -> (result: String)
    ensures
        result@ == fingerprint_of(parts@),
{
    let number = decimal_text(parts.number as u64);
    let size = decimal_text(parts.size);
    let logical = decimal_text(parts.logical_sector_size as u64);
    let physical = decimal_text(parts.physical_sector_size as u64);
    let removable = if parts.supports_removable_media {
        "true"
    } else {
        "false"
    };
    let ghost fields = fingerprint_fields(parts@);
    let mut hasher = Hasher::new();
    proof {
        framed_step(fields, 0);
        framed_step(fields, 1);
        framed_step(fields, 2);
        framed_step(fields, 3);
        framed_step(fields, 4);
        framed_step(fields, 5);
        framed_step(fields, 6);
        framed_step(fields, 7);
        framed_step(fields, 8);
        framed_step(fields, 9);
        assert(fields.take(0) =~= Seq::empty());
        assert(fields.take(10) =~= fields);
    }
    hash_field(&mut hasher, STABLE_ID_VERSION);
    assert(digest::hashed_bytes(hasher) =~= framed(fields.take(1)));
    hash_field(&mut hasher, number.as_str());
    hash_field(&mut hasher, size.as_str());
    hash_field(&mut hasher, logical.as_str());
    hash_field(&mut hasher, physical.as_str());
    assert(digest::hashed_bytes(hasher) == framed(fields.take(5)));
    hash_field(&mut hasher, parts.bus_type);
    hash_field(&mut hasher, parts.path);
    hash_field(&mut hasher, parts.unique_id);
    hash_field(&mut hasher, parts.serial_number);
    hash_field(&mut hasher, removable);
    let digest = hasher.digest();
    hex_encode(&digest)
}

proof fn framed_step(fields: Seq<Seq<u8>>, at: int)
    requires
        0 <= at < fields.len(),
    ensures
        framed(fields.take(at + 1)) == framed(fields.take(at)) + frame(fields[at]),
{
    assert(fields.take(at + 1).drop_last() =~= fields.take(at));
}

// ---------------------------------------------------------------------------------------------
// Disks
// ---------------------------------------------------------------------------------------------

/// A safety fact of a disk.
#[derive(Clone, Copy, Debug, PartialEq, Eq, Structural)]
pub struct BoolFlag(pub bool);

impl BoolFlag {
    /// Whether the fact holds.
    pub fn is_set(self) -> (result: bool)
        ensures
            result == self.0,
    {
        self.0
    }
}

/// A disk as discovery looks at it.
#[derive(Debug)]
pub struct WindowsDisk {
    pub number: u32,
    pub friendly_name: String,
    pub path: String,
    pub unique_id: String,
    pub serial_number: String,
    pub size: u64,
    pub logical_sector_size: u32,
    pub physical_sector_size: u32,
    pub is_boot: BoolFlag,
    pub is_system: BoolFlag,
    pub is_offline: BoolFlag,
    pub is_read_only: BoolFlag,
    pub bus_type: String,
    pub supports_removable_media: BoolFlag,
}

/// Whether a disk on this bus is a card: always on SD and MMC; on USB, which also carries ordinary
/// disks, only with the removable-media capability.
pub open spec fn is_card_bus(bus_type: Seq<char>, supports_removable_media: bool) -> bool {
    bus_type == "SD"@ || bus_type == "MMC"@ || (bus_type == "USB"@ && supports_removable_media)
}

/// Whether a disk on this bus is a card.
pub fn card_bus(bus_type: &str, supports_removable_media: bool) -> (result: bool)
    ensures
        result == is_card_bus(bus_type@, supports_removable_media),
{
    same_text(bus_type, "SD") || same_text(bus_type, "MMC") || (same_text(bus_type, "USB")
        && supports_removable_media)
}

impl WindowsDisk {
    /// The disk of a record.
    pub fn from_record(disk: DiskRecord) -> (result: WindowsDisk)
        ensures
            result == (WindowsDisk {
                number: disk.number,
                friendly_name: disk.friendly_name,
                path: disk.path,
                unique_id: disk.unique_id,
                serial_number: disk.serial_number,
                size: disk.size,
                logical_sector_size: disk.logical_sector_size,
                physical_sector_size: disk.physical_sector_size,
                is_boot: BoolFlag(disk.is_boot),
                is_system: BoolFlag(disk.is_system),
                is_offline: BoolFlag(disk.is_offline),
                is_read_only: BoolFlag(disk.is_read_only),
                bus_type: disk.bus_type,
                supports_removable_media: BoolFlag(disk.supports_removable_media),
            }),
    {
        WindowsDisk {
            number: disk.number,
            friendly_name: disk.friendly_name,
            path: disk.path,
            unique_id: disk.unique_id,
            serial_number: disk.serial_number,
            size: disk.size,
            logical_sector_size: disk.logical_sector_size,
            physical_sector_size: disk.physical_sector_size,
            is_boot: BoolFlag(disk.is_boot),
            is_system: BoolFlag(disk.is_system),
            is_offline: BoolFlag(disk.is_offline),
            is_read_only: BoolFlag(disk.is_read_only),
            bus_type: disk.bus_type,
            supports_removable_media: BoolFlag(disk.supports_removable_media),
        }
    }

    /// Remove white space around every text, and write the bus in upper case.
    pub fn normalize(&mut self)
        ensures
            final(self).friendly_name@ == text::trimmed(old(self).friendly_name@),
            final(self).path@ == text::trimmed(old(self).path@),
            final(self).unique_id@ == text::trimmed(old(self).unique_id@),
            final(self).serial_number@ == text::trimmed(old(self).serial_number@),
            final(self).bus_type@ == text::upper_text(text::trimmed(old(self).bus_type@)),
            *final(self) == (WindowsDisk {
                friendly_name: final(self).friendly_name,
                path: final(self).path,
                unique_id: final(self).unique_id,
                serial_number: final(self).serial_number,
                bus_type: final(self).bus_type,
                ..*old(self)
            }),
    {
        self.friendly_name = trim(self.friendly_name.as_str());
        self.path = trim(self.path.as_str());
        self.unique_id = trim(self.unique_id.as_str());
        self.serial_number = trim(self.serial_number.as_str());
        let bus = trim(self.bus_type.as_str());
        self.bus_type = to_upper(bus.as_str());
    }

    /// Whether the disk may be offered.
    pub open spec fn is_safe(self) -> bool {
        &&& !self.is_boot.0
        &&& !self.is_system.0
        &&& !self.is_offline.0
        &&& !self.is_read_only.0
        &&& self.size > 0
        &&& is_sector_geometry(self.size, self.logical_sector_size, self.physical_sector_size)
        &&& self.path@.len() > 0
        &&& self.unique_id@.len() > 0 || self.serial_number@.len() > 0
        &&& is_card_bus(self.bus_type@, self.supports_removable_media.0)
    }

    /// Whether the disk may be offered: an online, writable card with a usable geometry and an
    /// identity of its own, and neither boot nor system disk.
    pub fn safe_removable(&self) -> (result: bool)
        ensures
            result == self.is_safe(),
    {
        !self.is_boot.is_set() && !self.is_system.is_set() && !self.is_offline.is_set()
            && !self.is_read_only.is_set() && self.size > 0 && valid_sector_geometry(
            self.size,
            self.logical_sector_size,
            self.physical_sector_size,
        ) && !self.path.as_str().is_empty() && (!self.unique_id.as_str().is_empty()
            || !self.serial_number.as_str().is_empty()) && card_bus(
            self.bus_type.as_str(),
            self.supports_removable_media.is_set(),
        )
    }

    /// What the disk's fingerprint is taken of.
    pub open spec fn identity(self) -> DiskIdentity {
        DiskIdentity {
            number: self.number,
            size: self.size,
            logical_sector_size: self.logical_sector_size,
            physical_sector_size: self.physical_sector_size,
            bus_type: self.bus_type@,
            path: self.path@,
            unique_id: self.unique_id@,
            serial_number: self.serial_number@,
            supports_removable_media: self.supports_removable_media.0,
        }
    }

    /// The disk's fingerprint.
    pub fn fingerprint(&self) -> (result: String)
        ensures
            result@ == fingerprint_of(self.identity()),
    {
        fingerprint(
            &FingerprintParts {
                number: self.number,
                size: self.size,
                logical_sector_size: self.logical_sector_size,
                physical_sector_size: self.physical_sector_size,
                bus_type: self.bus_type.as_str(),
                path: self.path.as_str(),
                unique_id: self.unique_id.as_str(),
                serial_number: self.serial_number.as_str(),
                supports_removable_media: self.supports_removable_media.is_set(),
            },
        )
    }
}

/// The device path of a physical disk.
pub open spec fn device_path(number: nat) -> Seq<char> {
    PHYSICAL_DRIVE_PREFIX@ + text::decimal(number)
}

/// The device path of a physical disk.
pub fn physical_drive(number: u32) -> (result: String)
    ensures
        result@ == device_path(number as nat),
{
    let digits = decimal_text(number as u64);
    text::join2(PHYSICAL_DRIVE_PREFIX, digits.as_str())
}

/// The drive that a record is offered as, where it may be offered.
pub open spec fn offered(record: DiskRecord) -> Option<DriveView> {
    let path = text::trimmed(record.path@);
    let unique_id = text::trimmed(record.unique_id@);
    let serial_number = text::trimmed(record.serial_number@);
    let bus_type = text::upper_text(text::trimmed(record.bus_type@));
    let name = text::trimmed(record.friendly_name@);
    if !record.is_boot && !record.is_system && !record.is_offline && !record.is_read_only
        && record.size > 0 && is_sector_geometry(
        record.size,
        record.logical_sector_size,
        record.physical_sector_size,
    ) && path.len() > 0 && (unique_id.len() > 0 || serial_number.len() > 0) && is_card_bus(
        bus_type,
        record.supports_removable_media,
    ) {
        let identity = DiskIdentity {
            number: record.number,
            size: record.size,
            logical_sector_size: record.logical_sector_size,
            physical_sector_size: record.physical_sector_size,
            bus_type,
            path,
            unique_id,
            serial_number,
            supports_removable_media: record.supports_removable_media,
        };
        Some(
            DriveView {
                id: device_path(record.number as nat) + "@"@ + fingerprint_of(identity),
                device: device_path(record.number as nat),
                name: if name.len() == 0 {
                    drives::unnamed()
                } else {
                    name
                },
                capacity: record.size,
            },
        )
    } else {
        None
    }
}

/// The drives that some records are offered as, in their order.
pub open spec fn offered_all(records: Seq<DiskRecord>) -> Seq<DriveView>
    decreases records.len(),
{
    if records.len() == 0 {
        Seq::empty()
    } else {
        match offered(records.last()) {
            Some(drive) => offered_all(records.drop_last()).push(drive),
            None => offered_all(records.drop_last()),
        }
    }
}

fn offer(record: &DiskRecord) -> (result: Option<Drive>)
    ensures
        match result {
            Some(drive) => offered(*record) == Some(drive@),
            None => offered(*record) is None,
        },
{
    let mut disk = WindowsDisk::from_record(record.copy());
    disk.normalize();
    if !disk.safe_removable() {
        return None;
    }
    let fingerprint = disk.fingerprint();
    let device = physical_drive(disk.number);
    let id = text::join3(device.as_str(), "@", fingerprint.as_str());
    let name = if disk.friendly_name.as_str().is_empty() {
        "Removable drive".to_owned()
    } else {
        disk.friendly_name.clone()
    };
    Some(Drive { id, device, name, capacity: disk.size })
}

/// The cards among the physical disks, in their order.
pub fn removable_drives(records: &Vec<DiskRecord>) -> (found: Vec<Drive>)
    ensures
        drives::drive_views(found@) == offered_all(records@),
{
    let mut found: Vec<Drive> = Vec::new();
    let mut index: usize = 0;
    assert(records@.take(0) =~= Seq::empty());
    assert(drives::drive_views(found@) =~= Seq::empty());
    while index < records.len()
        invariant
            index <= records@.len(),
            drives::drive_views(found@) == offered_all(records@.take(index as int)),
        decreases records@.len() - index,
    {
        let ghost upto = records@.take(index as int + 1);
        assert(upto.drop_last() =~= records@.take(index as int));
        assert(upto.last() == records@[index as int]);
        if let Some(drive) = offer(&records[index]) {
            let ghost before = drives::drive_views(found@);
            found.push(drive);
            assert(drives::drive_views(found@) =~= before.push(drive@));
        }
        index += 1;
    }
    assert(records@.take(records@.len() as int) =~= records@);
    found
}

// ---------------------------------------------------------------------------------------------
// Identifiers
// ---------------------------------------------------------------------------------------------

/// The disk number and the fingerprint that an identifier consists of. What stands before its last
/// `@` is a physical disk's path, written in the one way that it has; behind it stand 64
/// hexadecimal digits.
pub open spec fn split_identifier(value: Seq<char>) -> Option<(u32, Seq<char>)> {
    let at = text::rfind(value, '@');
    let device = value.take(at);
    let fingerprint = value.subrange(at + 1, value.len() as int);
    let digits = device.subrange(PHYSICAL_DRIVE_PREFIX@.len() as int, device.len() as int);
    if at >= 0 && text::starts_with(device, PHYSICAL_DRIVE_PREFIX@) && digits.len() > 0
        && text::all_digits(digits) && text::digits_value(digits) <= u32::MAX && device
        == device_path(text::digits_value(digits)) && digest::is_sha256_text(fingerprint) {
        Some((text::digits_value(digits) as u32, fingerprint))
    } else {
        None
    }
}

/// Take an identifier apart.
pub fn split_stable_identifier(value: &str) -> (result: Option<(u32, String)>)
    ensures
        match result {
            Some((number, fingerprint)) => split_identifier(value@) == Some(
                (number, fingerprint@),
            ),
            None => split_identifier(value@) is None,
        },
{
    let characters = chars_of(value);
    let at: usize = match rfind_char(&characters, '@') {
        Some(at) => at,
        None => {
            return None;
        },
    };
    let device = text_between(&characters, 0, at);
    assert(device@ =~= value@.take(at as int));
    let device_characters = chars_of(device.as_str());
    let prefix: usize = match has_prefix(&device_characters, PHYSICAL_DRIVE_PREFIX) {
        Some(prefix) => prefix,
        None => {
            return None;
        },
    };
    let ghost digits = device@.subrange(prefix as int, device@.len() as int);
    if prefix == device_characters.len() || !digits_between(
        &device_characters,
        prefix,
        device_characters.len(),
    ) {
        return None;
    }
    let number_text = text_between(&device_characters, prefix, device_characters.len());
    proof {
        assert(number_text@ =~= digits);
        text::scan_of_digits(digits, u32::MAX as nat);
        assert(text::is_digit(digits[0]));
    }
    let number: u32 = match parse_bounded(number_text.as_str(), u32::MAX as u64) {
        Ok(number) => number as u32,
        Err(_) => {
            return None;
        },
    };
    let canonical = physical_drive(number);
    if device != canonical {
        return None;
    }
    let count: usize = characters.len();
    let from: usize = at + 1;
    if count - from != 64 || !hex_between(&characters, from, characters.len()) {
        return None;
    }
    Some((number, text_between(&characters, from, characters.len())))
}

/// Whether a drive's identity is one that discovery gives out.
pub open spec fn is_worker_drive(drive: WorkerDriveView) -> bool {
    &&& split_identifier(drive.id) matches Some((number, fingerprint))
    &&& drive.device == device_path(number as nat)
    &&& drive.capacity > 0
}

/// Whether a drive's identity is one that discovery gives out.
pub fn valid_worker_drive(drive: &WorkerDrive) -> (result: bool)
    ensures
        result == is_worker_drive(drive@),
{
    match split_stable_identifier(drive.id.as_str()) {
        Some((number, _)) => {
            let device = physical_drive(number);
            drive.capacity > 0 && drive.device == device
        },
        None => false,
    }
}

/// An identifier made of a disk number and a digest comes apart into just these.
pub proof fn stable_identifier_splits_back(number: u32, fingerprint: Seq<char>)
    requires
        digest::is_sha256_text(fingerprint),
    ensures
        split_identifier(device_path(number as nat) + "@"@ + fingerprint) == Some(
            (number, fingerprint),
        ),
{
    let device = device_path(number as nat);
    let value = device + "@"@ + fingerprint;
    let digits = text::decimal(number as nat);
    reveal_strlit("@");
    text::decimal_reads_back(number as nat);
    let at = device.len() as int;
    assert(value[at] == '@');
    assert forall|i: int| at < i < value.len() implies value[i] != '@' by {
        assert(value[i] == fingerprint[i - at - 1]);
        assert(text::is_hex_digit(fingerprint[i - at - 1]));
    }
    text::rfind_is(value, '@', at);
    assert(value.take(at) =~= device);
    assert(value.subrange(at + 1, value.len() as int) =~= fingerprint);
    let prefix = PHYSICAL_DRIVE_PREFIX@.len() as int;
    assert(device.take(prefix) =~= PHYSICAL_DRIVE_PREFIX@);
    assert(device.subrange(prefix, device.len() as int) =~= digits);
}

/// Every drive that discovery offers has an identity that the worker accepts.
pub proof fn offered_disks_are_worker_drives(record: DiskRecord)
    requires
        offered(record) is Some,
    ensures
        is_worker_drive(drives::worker_view(offered(record)->0)),
{
    let drive = offered(record)->0;
    let identity = DiskIdentity {
        number: record.number,
        size: record.size,
        logical_sector_size: record.logical_sector_size,
        physical_sector_size: record.physical_sector_size,
        bus_type: text::upper_text(text::trimmed(record.bus_type@)),
        path: text::trimmed(record.path@),
        unique_id: text::trimmed(record.unique_id@),
        serial_number: text::trimmed(record.serial_number@),
        supports_removable_media: record.supports_removable_media,
    };
    digest::digest_text_is_a_digest(framed(fingerprint_fields(identity)));
    stable_identifier_splits_back(record.number, fingerprint_of(identity));
}

/// A disk is offered only where it is a card that may be written: neither the boot nor the system
/// disk, online, not read-only, and on a card bus or on USB with removable media.
pub proof fn offered_disks_are_writable_cards(records: Seq<DiskRecord>, at: int)
    requires
        0 <= at < offered_all(records).len(),
    ensures
        exists|i: int|
            #![trigger records[i]]
            0 <= i < records.len() && offered(records[i]) == Some(offered_all(records)[at])
                && !records[i].is_boot && !records[i].is_system && !records[i].is_offline
                && !records[i].is_read_only && is_card_bus(
                text::upper_text(text::trimmed(records[i].bus_type@)),
                records[i].supports_removable_media,
            ),
    decreases records.len(),
{
    let front = records.drop_last();
    if at < offered_all(front).len() {
        offered_disks_are_writable_cards(front, at);
        let i = choose|i: int|
            #![trigger front[i]]
            0 <= i < front.len() && offered(front[i]) == Some(offered_all(front)[at])
                && !front[i].is_boot && !front[i].is_system && !front[i].is_offline
                && !front[i].is_read_only && is_card_bus(
                text::upper_text(text::trimmed(front[i].bus_type@)),
                front[i].supports_removable_media,
            );
        assert(records[i] == front[i]);
    } else {
        assert(records[records.len() - 1] == records.last());
    }
}

/// Whether a number of bytes is a sector that unbuffered access can transfer: at least 512 bytes,
/// and a divisor of 65536, that is, a power of two.
pub open spec fn divides_a_transfer(size: u32) -> bool {
    512 <= size && 65536u32 % size == 0
}

proof fn sector_sizes_are_the_divisors(size: u32)
    ensures
        is_sector_size(size) <==> divides_a_transfer(size),
{
    assert((512 <= size && 65536u32 % size == 0) == (size == 512 || size == 1024 || size == 2048
        || size == 4096 || size == 8192 || size == 16384 || size == 32768 || size == 65536))
        by (bit_vector);
}

/// What is required of a disk to be offered: neither boot nor system disk, online, writable, not
/// empty, of whole logical sectors that fit into physical ones, with a path, with a unique
/// identifier or a serial number, and a card: on an SD or MMC bus, or on USB with removable media.
pub open spec fn may_be_offered(record: DiskRecord) -> bool {
    let bus = text::upper_text(text::trimmed(record.bus_type@));
    &&& !record.is_boot && !record.is_system && !record.is_offline && !record.is_read_only
    &&& record.size > 0
    &&& divides_a_transfer(record.logical_sector_size)
    &&& divides_a_transfer(record.physical_sector_size)
    &&& record.logical_sector_size <= record.physical_sector_size
    &&& record.size % (record.logical_sector_size as u64) == 0
    &&& text::trimmed(record.path@).len() > 0
    &&& text::trimmed(record.unique_id@).len() > 0 || text::trimmed(record.serial_number@).len() > 0
    &&& bus == "SD"@ || bus == "MMC"@ || (bus == "USB"@ && record.supports_removable_media)
}

/// Whether a drive is the one that a disk is offered as: at the path of the physical disk with its
/// number, identified by that path and the disk's fingerprint, with its name and its size.
pub open spec fn describes(drive: DriveView, record: DiskRecord) -> bool {
    let name = text::trimmed(record.friendly_name@);
    &&& drive.device == "\\\\.\\PHYSICALDRIVE"@ + text::decimal(record.number as nat)
    &&& drive.id == drive.device + "@"@ + fingerprint_of(
        DiskIdentity {
            number: record.number,
            size: record.size,
            logical_sector_size: record.logical_sector_size,
            physical_sector_size: record.physical_sector_size,
            bus_type: text::upper_text(text::trimmed(record.bus_type@)),
            path: text::trimmed(record.path@),
            unique_id: text::trimmed(record.unique_id@),
            serial_number: text::trimmed(record.serial_number@),
            supports_removable_media: record.supports_removable_media,
        },
    )
    &&& drive.capacity == record.size
    &&& drive.name == (if name.len() == 0 {
        "Removable drive"@
    } else {
        name
    })
}

/// The disks among some records that may be offered, in their order.
pub open spec fn offerable(records: Seq<DiskRecord>) -> Seq<DiskRecord>
    decreases records.len(),
{
    if records.len() == 0 {
        Seq::empty()
    } else if may_be_offered(records.last()) {
        offerable(records.drop_last()).push(records.last())
    } else {
        offerable(records.drop_last())
    }
}

/// Every disk that may be offered is offered, and no other: one drive for each, in the order of the
/// disks, and each drive describes its disk.
pub proof fn every_offerable_disk_is_offered(records: Seq<DiskRecord>)
    ensures
        offered_all(records).len() == offerable(records).len(),
        forall|i: int|
            0 <= i < offered_all(records).len() ==> describes(
                #[trigger] offered_all(records)[i],
                offerable(records)[i],
            ),
        forall|i: int|
            0 <= i < records.len() && may_be_offered(#[trigger] records[i]) ==> exists|j: int|
                0 <= j < offered_all(records).len() && describes(
                    #[trigger] offered_all(records)[j],
                    records[i],
                ),
    decreases records.len(),
{
    if records.len() > 0 {
        let front = records.drop_last();
        let found = offered_all(records);
        let before = offered_all(front);
        every_offerable_disk_is_offered(front);
        sector_sizes_are_the_divisors(records.last().logical_sector_size);
        sector_sizes_are_the_divisors(records.last().physical_sector_size);
        assert(offered(records.last()) is Some <==> may_be_offered(records.last()));
        assert forall|i: int| 0 <= i < found.len() implies describes(
            #[trigger] found[i],
            offerable(records)[i],
        ) by {
            if i < before.len() {
                assert(found[i] == before[i]);
                assert(offerable(records)[i] == offerable(front)[i]);
            }
        }
        assert forall|i: int|
            0 <= i < records.len() && may_be_offered(#[trigger] records[i]) implies exists|j: int|
            0 <= j < found.len() && describes(#[trigger] found[j], records[i]) by {
            if i < front.len() {
                assert(front[i] == records[i]);
                let j = choose|j: int|
                    0 <= j < before.len() && describes(#[trigger] before[j], front[i]);
                assert(found[j] == before[j]);
            } else {
                assert(records[i] == records.last());
                assert(describes(found[found.len() - 1], records[i]));
            }
        }
    }
}

/// Only such identifiers are taken apart as discovery gives out: they consist of the path of the
/// physical disk with that number, an `@`, and that fingerprint.
pub proof fn split_identifier_is_put_together_again(value: Seq<char>)
    requires
        split_identifier(value) is Some,
    ensures
        ({
            let (number, fingerprint) = split_identifier(value)->0;
            &&& value == "\\\\.\\PHYSICALDRIVE"@ + text::decimal(number as nat) + "@"@ + fingerprint
            &&& fingerprint.len() == 64 && text::all_hex(fingerprint)
        }),
{
    let at = text::rfind(value, '@');
    let (number, fingerprint) = split_identifier(value)->0;
    reveal_strlit("@");
    text::rfind_bounds(value, '@');
    assert(value =~= value.take(at) + "@"@ + value.subrange(at + 1, value.len() as int));
}

/// The disks that may be offered are disks among the records.
pub proof fn offerable_disks_are_among_the_records(records: Seq<DiskRecord>, at: int)
    requires
        0 <= at < offerable(records).len(),
    ensures
        exists|i: int|
            0 <= i < records.len() && may_be_offered(#[trigger] records[i]) && records[i]
                == offerable(records)[at],
    decreases records.len(),
{
    let front = records.drop_last();
    let before = offerable(front);
    if at < before.len() {
        offerable_disks_are_among_the_records(front, at);
        let place = choose|i: int|
            0 <= i < front.len() && may_be_offered(#[trigger] front[i]) && front[i] == before[at];
        assert(records[place] == front[place]);
    } else {
        assert(records[records.len() - 1] == records.last());
    }
}

/// A drive that can be written to has room, however much; and its identifier alone says which disk it
/// is: two with the same identifier have the same path.
pub proof fn identifier_tells_the_path(first: WorkerDriveView, second: WorkerDriveView)
    requires
        is_worker_drive(first),
    ensures
        first.capacity > 0,
        second.id == first.id && second.device == first.device && second.capacity > 0
            ==> is_worker_drive(second),
        is_worker_drive(second) && second.id == first.id ==> second.device == first.device,
{
}

/// A disk that is offered meets every condition that a target has to meet, and says so of itself: it
/// is no boot or system disk, is online and writable, has whole sectors of a usable size, has room,
/// can be found and told apart, and is a card.
pub proof fn offered_disk_meets_every_condition(record: DiskRecord)
    requires
        offered(record) is Some,
    ensures
        !record.is_boot && !record.is_system && !record.is_offline && !record.is_read_only,
        record.size > 0 && record.size % (record.logical_sector_size as u64) == 0,
        record.logical_sector_size <= record.physical_sector_size,
        text::trimmed(record.path@).len() > 0,
        text::trimmed(record.unique_id@).len() > 0 || text::trimmed(record.serial_number@).len()
            > 0,
        is_card_bus(
            text::upper_text(text::trimmed(record.bus_type@)),
            record.supports_removable_media,
        ),
{
}

} // verus!
