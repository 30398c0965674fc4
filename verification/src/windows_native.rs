//! What Windows says of its disks, volumes and processes, and what follows from it.

use vstd::prelude::*;
use vstd::string::*;

use crate::text;
use crate::text::{char_is_ascii_letter, chars_of, decimal_text, text_between, trim};

pub mod volumes;

pub use volumes::lock_and_dismount_volumes;

verus! {

broadcast use vstd::seq_lib::group_seq_properties;

/// The most physical disks that are plausible.
pub const MAX_PHYSICAL_DISKS: usize = 256;

/// The capability with which a drive says that it supports removable media.
pub const REMOVABLE_MEDIA: u16 = 7;

/// One physical disk.
#[derive(Clone, Debug, PartialEq, Eq)]
pub struct DiskRecord {
    pub number: u32,
    pub friendly_name: String,
    pub path: String,
    pub unique_id: String,
    pub serial_number: String,
    pub size: u64,
    pub logical_sector_size: u32,
    pub physical_sector_size: u32,
    pub is_boot: bool,
    pub is_system: bool,
    pub is_offline: bool,
    pub is_read_only: bool,
    pub bus_type: String,
    pub supports_removable_media: bool,
}

impl DiskRecord {
    /// A copy of the record.
    pub fn copy(&self) -> (result: DiskRecord)
        ensures
            result == *self,
    {
        DiskRecord {
            number: self.number,
            friendly_name: self.friendly_name.clone(),
            path: self.path.clone(),
            unique_id: self.unique_id.clone(),
            serial_number: self.serial_number.clone(),
            size: self.size,
            logical_sector_size: self.logical_sector_size,
            physical_sector_size: self.physical_sector_size,
            is_boot: self.is_boot,
            is_system: self.is_system,
            is_offline: self.is_offline,
            is_read_only: self.is_read_only,
            bus_type: self.bus_type.clone(),
            supports_removable_media: self.supports_removable_media,
        }
    }
}

/// One disk of the Storage Management provider.
#[derive(Debug)]
pub struct MsftDisk {
    pub number: u32,
    pub friendly_name: Option<String>,
    pub path: Option<String>,
    pub unique_id: Option<String>,
    pub serial_number: Option<String>,
    pub size: u64,
    pub logical_sector_size: u32,
    pub physical_sector_size: u32,
    pub is_boot: bool,
    pub is_system: bool,
    pub is_offline: bool,
    pub is_read_only: bool,
    pub bus_type: u16,
}

/// The capabilities of one drive.
#[derive(Debug)]
pub struct Win32DiskDrive {
    pub index: u32,
    pub capabilities: Option<Vec<u16>>,
}

/// A text without white space around it; an absent one is empty.
pub open spec fn cleaned(value: Option<String>) -> Seq<char> {
    match value {
        Some(held) => text::trimmed(held@),
        None => Seq::empty(),
    }
}

/// A text without white space around it; an absent one is empty.
pub fn clean(value: &Option<String>) -> (result: String)
    ensures
        result@ == cleaned(*value),
{
    match value {
        Some(held) => trim(held.as_str()),
        None => String::new(),
    }
}

/// The bus types that cards come on; all others are one.
pub open spec fn bus_text(value: u16) -> Seq<char> {
    if value == 7 {
        "USB"@
    } else if value == 12 {
        "SD"@
    } else if value == 13 {
        "MMC"@
    } else {
        "OTHER"@
    }
}

/// The bus types that cards come on; all others are one.
pub fn bus_name(value: u16) -> (result: &'static str)
    ensures
        result@ == bus_text(value),
{
    if value == 7 {
        "USB"
    } else if value == 12 {
        "SD"
    } else if value == 13 {
        "MMC"
    } else {
        "OTHER"
    }
}

/// Whether a drive lists the removable-media capability.
pub open spec fn is_removable_drive(drive: Win32DiskDrive) -> bool {
    drive.capabilities matches Some(items) && items@.contains(REMOVABLE_MEDIA)
}

/// How many entries a disk number has.
pub open spec fn entries_of(drives: Seq<Win32DiskDrive>, number: u32) -> nat
    decreases drives.len(),
{
    if drives.len() == 0 {
        0
    } else {
        entries_of(drives.drop_last(), number) + (if drives.last().index == number {
            1nat
        } else {
            0nat
        })
    }
}

/// Whether a disk is known to take removable media: exactly one entry is its own, and that entry
/// says so. A disk with two entries is ambiguous and counts as fixed.
pub open spec fn takes_removable_media(drives: Seq<Win32DiskDrive>, number: u32) -> bool {
    &&& entries_of(drives, number) == 1
    &&& exists|i: int|
        0 <= i < drives.len() && (#[trigger] drives[i]).index == number && is_removable_drive(
            drives[i],
        )
}

fn lists_removable_media(drive: &Win32DiskDrive) -> (result: bool)
    ensures
        result == is_removable_drive(*drive),
{
    let items: &Vec<u16> = match &drive.capabilities {
        Some(items) => items,
        None => {
            return false;
        },
    };
    let mut index: usize = 0;
    while index < items.len()
        invariant
            index <= items@.len(),
            drive.capabilities == Some(*items),
            forall|i: int| 0 <= i < index ==> items@[i] != REMOVABLE_MEDIA,
        decreases items@.len() - index,
    {
        if items[index] == REMOVABLE_MEDIA {
            assert(items@[index as int] == REMOVABLE_MEDIA);
            assert(items@.contains(REMOVABLE_MEDIA));
            return true;
        }
        index += 1;
    }
    false
}

proof fn entries_grow(drives: Seq<Win32DiskDrive>, number: u32, upto: int)
    requires
        0 <= upto <= drives.len(),
    ensures
        entries_of(drives.take(upto), number) <= entries_of(drives, number),
    decreases drives.len() - upto,
{
    if upto < drives.len() {
        assert(drives.take(upto + 1).drop_last() =~= drives.take(upto));
        entries_grow(drives, number, upto + 1);
    } else {
        assert(drives.take(upto) =~= drives);
    }
}

fn supports_removable_media(drives: &Vec<Win32DiskDrive>, number: u32) -> (result: bool)
    ensures
        result == takes_removable_media(drives@, number),
{
    let mut found = false;
    let mut removable = false;
    let mut index: usize = 0;
    assert(drives@.take(0) =~= Seq::empty());
    while index < drives.len()
        invariant
            index <= drives@.len(),
            entries_of(drives@.take(index as int), number) == (if found {
                1nat
            } else {
                0nat
            }),
            removable == (exists|i: int|
                0 <= i < index && (#[trigger] drives@[i]).index == number && is_removable_drive(
                    drives@[i],
                )),
        decreases drives@.len() - index,
    {
        let ghost upto = drives@.take(index as int + 1);
        assert(upto.drop_last() =~= drives@.take(index as int));
        assert(upto.last() == drives@[index as int]);
        if drives[index].index == number {
            if found {
                proof {
                    entries_grow(drives@, number, index as int + 1);
                }
                return false;
            }
            found = true;
            if lists_removable_media(&drives[index]) {
                assert(drives@[index as int].index == number && is_removable_drive(
                    drives@[index as int],
                ));
                removable = true;
            }
        }
        index += 1;
    }
    assert(drives@.take(drives@.len() as int) =~= drives@);
    found && removable
}

/// Whether a record says of a disk what the two queries say together.
pub open spec fn describes(record: DiskRecord, disk: MsftDisk, drives: Seq<Win32DiskDrive>) -> bool {
    &&& record.number == disk.number
    &&& record.friendly_name@ == cleaned(disk.friendly_name)
    &&& record.path@ == cleaned(disk.path)
    &&& record.unique_id@ == cleaned(disk.unique_id)
    &&& record.serial_number@ == cleaned(disk.serial_number)
    &&& record.size == disk.size
    &&& record.logical_sector_size == disk.logical_sector_size
    &&& record.physical_sector_size == disk.physical_sector_size
    &&& record.is_boot == disk.is_boot
    &&& record.is_system == disk.is_system
    &&& record.is_offline == disk.is_offline
    &&& record.is_read_only == disk.is_read_only
    &&& record.bus_type@ == bus_text(disk.bus_type)
    &&& record.supports_removable_media == takes_removable_media(drives, disk.number)
}

/// The physical disks, from the disks of the storage provider and the capabilities of the drives.
pub fn query_disks(disks: &Vec<MsftDisk>, drives: &Vec<Win32DiskDrive>) -> (result: Result<
    Vec<DiskRecord>,
    String,
>)
    ensures
        match result {
            Ok(records) => disks@.len() <= MAX_PHYSICAL_DISKS && records@.len() == disks@.len()
                && forall|i: int|
                0 <= i < records@.len() ==> describes(#[trigger] records@[i], disks@[i], drives@),
            Err(cause) => disks@.len() > MAX_PHYSICAL_DISKS && cause@
                == "Windows returned an implausible number of physical disks"@,
        },
{
    if disks.len() > MAX_PHYSICAL_DISKS {
        return Err("Windows returned an implausible number of physical disks".to_owned());
    }
    let mut records: Vec<DiskRecord> = Vec::new();
    let mut index: usize = 0;
    while index < disks.len()
        invariant
            index <= disks@.len(),
            records@.len() == index,
            forall|i: int| 0 <= i < index ==> describes(#[trigger] records@[i], disks@[i], drives@),
        decreases disks@.len() - index,
    {
        let disk: &MsftDisk = &disks[index];
        records.push(
            DiskRecord {
                number: disk.number,
                friendly_name: clean(&disk.friendly_name),
                path: clean(&disk.path),
                unique_id: clean(&disk.unique_id),
                serial_number: clean(&disk.serial_number),
                size: disk.size,
                logical_sector_size: disk.logical_sector_size,
                physical_sector_size: disk.physical_sector_size,
                is_boot: disk.is_boot,
                is_system: disk.is_system,
                is_offline: disk.is_offline,
                is_read_only: disk.is_read_only,
                bus_type: bus_name(disk.bus_type).to_owned(),
                supports_removable_media: supports_removable_media(drives, disk.number),
            },
        );
        index += 1;
    }
    Ok(records)
}

/// Why a disk number gives no disk.
#[derive(Clone, Copy, Debug, PartialEq, Eq, Structural)]
pub enum QueryFault {
    NotFound,
    Duplicate,
}

impl QueryFault {
    /// The sentence shown for the fault.
    pub open spec fn text(self) -> Seq<char> {
        match self {
            QueryFault::NotFound => "the selected physical disk is no longer present"@,
            QueryFault::Duplicate => "Windows returned a duplicate physical-disk number"@,
        }
    }

    /// The sentence shown for the fault.
    pub fn message(self) -> (result: &'static str)
        ensures
            result@ == self.text(),
    {
        match self {
            QueryFault::NotFound => "the selected physical disk is no longer present",
            QueryFault::Duplicate => "Windows returned a duplicate physical-disk number",
        }
    }
}

/// Whether the disk at `at` is the only one with this number.
pub open spec fn is_only(records: Seq<DiskRecord>, number: u32, at: int) -> bool {
    &&& 0 <= at < records.len()
    &&& records[at].number == number
    &&& forall|i: int| 0 <= i < records.len() && (#[trigger] records[i]).number == number ==> i == at
}

/// What a search for the record with a number comes to.
pub open spec fn is_answer(
    result: Result<DiskRecord, QueryFault>,
    records: Seq<DiskRecord>,
    number: u32,
) -> bool {
    match result {
        Ok(disk) => exists|at: int| #[trigger] is_only(records, number, at) && disk == records[at],
        Err(QueryFault::NotFound) => forall|i: int|
            0 <= i < records.len() ==> (#[trigger] records[i]).number != number,
        Err(QueryFault::Duplicate) => exists|i: int, j: int|
            0 <= i < j < records.len() && (#[trigger] records[i]).number == number && (
            #[trigger] records[j]).number == number,
    }
}

/// The one disk with a number.
pub fn query_disk(records: &Vec<DiskRecord>, number: u32) -> (result: Result<
    DiskRecord,
    QueryFault,
>)
    ensures
        is_answer(result, records@, number),
{
    let mut found: Option<usize> = None;
    let mut index: usize = 0;
    while index < records.len()
        invariant
            index <= records@.len(),
            match found {
                Some(at) => at < index && records@[at as int].number == number && forall|i: int|
                    0 <= i < index && (#[trigger] records@[i]).number == number ==> i == at,
                None => forall|i: int|
                    0 <= i < index ==> (#[trigger] records@[i]).number != number,
            },
        decreases records@.len() - index,
    {
        if records[index].number == number {
            if let Some(at) = found {
                assert(records@[at as int].number == number && records@[index as int].number
                    == number);
                return Err(QueryFault::Duplicate);
            }
            found = Some(index);
        }
        index += 1;
    }
    match found {
        Some(at) => {
            assert(is_only(records@, number, at as int));
            Ok(records[at].copy())
        },
        None => Err(QueryFault::NotFound),
    }
}

// ---------------------------------------------------------------------------------------------
// Volumes
// ---------------------------------------------------------------------------------------------

/// How a volume lies on the selected disk.
#[derive(Clone, Copy, Debug, PartialEq, Eq, Structural)]
pub enum VolumeRelation {
    /// It does not touch the disk.
    Unrelated,
    /// It lies on the disk alone.
    Exact,
    /// It lies on the disk and on another one.
    Spanned,
}

/// Where the first extent stands in the answer to an extents query.
pub const EXTENTS_OFFSET: usize = 8;

/// The size of one extent.
pub const EXTENT_SIZE: usize = 24;

/// A little-endian number of four bytes.
pub open spec fn le_u32(bytes: Seq<u8>, at: int) -> u32 {
    (bytes[at] + bytes[at + 1] * 0x100 + bytes[at + 2] * 0x1_0000 + bytes[at + 3]
        * 0x100_0000) as u32
}

fn read_le_u32(bytes: &Vec<u8>, at: usize) -> (result: u32)
    requires
        at + 4 <= bytes@.len(),
    ensures
        result == le_u32(bytes@, at as int),
{
    let length: usize = bytes.len();
    assert(at + 4 <= length);
    bytes[at] as u32 + bytes[at + 1] as u32 * 0x100 + bytes[at + 2] as u32 * 0x1_0000 + bytes[at
        + 3] as u32 * 0x100_0000
}

/// The disk of an extent.
pub open spec fn extent_disk(bytes: Seq<u8>, at: int) -> u32 {
    le_u32(bytes, EXTENTS_OFFSET + at * EXTENT_SIZE)
}

/// How many bytes this many extents take.
pub open spec fn extents_end(extents: nat) -> int {
    EXTENTS_OFFSET + extents * EXTENT_SIZE
}

/// How a volume with these extents lies on a disk.
pub open spec fn relation_of(bytes: Seq<u8>, extents: int, disk_number: u32) -> VolumeRelation {
    if forall|i: int| 0 <= i < extents ==> #[trigger] extent_disk(bytes, i) != disk_number {
        VolumeRelation::Unrelated
    } else if forall|i: int| 0 <= i < extents ==> #[trigger] extent_disk(bytes, i) == disk_number {
        VolumeRelation::Exact
    } else {
        VolumeRelation::Spanned
    }
}

/// Why the answer to an extents query is unusable, if it is.
pub open spec fn extents_fault(bytes: Seq<u8>, count: int) -> Option<Seq<char>> {
    let extents = le_u32(bytes, 0) as nat;
    if count < 4 {
        Some("Windows returned truncated volume extents"@)
    } else if extents * EXTENT_SIZE > usize::MAX {
        Some("volume extent count overflow"@)
    } else if extents_end(extents) > usize::MAX {
        Some("volume extent size overflow"@)
    } else if extents == 0 || extents_end(extents) > count {
        Some("Windows returned invalid volume extents"@)
    } else {
        None
    }
}

/// How a volume lies on a disk, from the first `count` bytes of the answer to an extents query.
pub fn volume_relation(bytes: &Vec<u8>, count: usize, disk_number: u32) -> (result: Result<
    VolumeRelation,
    String,
>)
    requires
        count <= bytes@.len(),
    ensures
        match result {
            Ok(relation) => extents_fault(bytes@, count as int) is None && relation == relation_of(
                bytes@,
                le_u32(bytes@, 0) as int,
                disk_number,
            ),
            Err(cause) => extents_fault(bytes@, count as int) == Some(cause@),
        },
{
    if count < 4 {
        return Err("Windows returned truncated volume extents".to_owned());
    }
    let extents: usize = read_le_u32(bytes, 0) as usize;
    let length: usize = match extents.checked_mul(EXTENT_SIZE) {
        Some(length) => length,
        None => {
            return Err("volume extent count overflow".to_owned());
        },
    };
    let required: usize = match EXTENTS_OFFSET.checked_add(length) {
        Some(required) => required,
        None => {
            return Err("volume extent size overflow".to_owned());
        },
    };
    if extents == 0 || required > count {
        return Err("Windows returned invalid volume extents".to_owned());
    }
    let mut selected = false;
    let mut other = false;
    let mut index: usize = 0;
    let available: usize = bytes.len();
    while index < extents
        invariant
            index <= extents,
            extents_end(extents as nat) <= available,
            available == bytes@.len(),
            selected == (exists|i: int|
                0 <= i < index && #[trigger] extent_disk(bytes@, i) == disk_number),
            other == (exists|i: int|
                0 <= i < index && #[trigger] extent_disk(bytes@, i) != disk_number),
        decreases extents - index,
    {
        assert(index * EXTENT_SIZE + EXTENT_SIZE <= extents * EXTENT_SIZE) by (nonlinear_arith)
            requires
                index < extents,
        ;
        let at: usize = EXTENTS_OFFSET + index * EXTENT_SIZE;
        let disk: u32 = read_le_u32(bytes, at);
        assert(disk == extent_disk(bytes@, index as int));
        if disk == disk_number {
            selected = true;
        } else {
            other = true;
        }
        index += 1;
    }
    if !selected {
        Ok(VolumeRelation::Unrelated)
    } else if !other {
        Ok(VolumeRelation::Exact)
    } else {
        Ok(VolumeRelation::Spanned)
    }
}

/// The text of a UTF-16 sequence, where every surrogate in it is one of a pair.
pub open spec fn utf16_text(units: Seq<u16>) -> Option<Seq<char>>
    decreases units.len(),
{
    if units.len() == 0 {
        Some(Seq::empty())
    } else if !(0xd800 <= units[0] <= 0xdfff) {
        match utf16_text(units.drop_first()) {
            Some(rest) => Some(seq![units[0] as char] + rest),
            None => None,
        }
    } else if units[0] <= 0xdbff && units.len() > 1 && 0xdc00 <= units[1] <= 0xdfff {
        match utf16_text(units.subrange(2, units.len() as int)) {
            Some(rest) => Some(
                seq![
                    (0x1_0000 + (units[0] - 0xd800) * 0x400 + (units[1] - 0xdc00)) as char,
                ] + rest,
            ),
            None => None,
        }
    } else {
        None
    }
}

/// `String::from_utf16` decodes a UTF-16 sequence and fails on an unpaired surrogate.
#[verifier::external_body]
fn decode_utf16(units: &[u16]) -> (result: Option<String>)
    ensures
        text::optional_text(result) == utf16_text(units@),
{
    String::from_utf16(units).ok()
}

/// The place of the first zero, or the length where there is none.
pub open spec fn first_zero(units: Seq<u16>) -> int
    decreases units.len(),
{
    if units.len() == 0 || units[0] == 0 {
        0
    } else {
        1 + first_zero(units.drop_first())
    }
}

/// The text of a buffer up to its terminating zero.
pub fn utf16_buffer(buffer: &[u16]) -> (result: Result<String, String>)
    ensures
        match result {
            Ok(decoded) => first_zero(buffer@) < buffer@.len() && utf16_text(
                buffer@.take(first_zero(buffer@)),
            ) == Some(decoded@),
            Err(cause) => if first_zero(buffer@) >= buffer@.len() {
                cause@ == "Windows volume name was not terminated"@
            } else {
                utf16_text(buffer@.take(first_zero(buffer@))) is None && cause@
                    == "Windows returned an invalid volume name"@
            },
        },
{
    let ghost all = buffer@;
    let mut name: Vec<u16> = Vec::new();
    let mut index: usize = 0;
    assert(all.subrange(0, all.len() as int) =~= all);
    while index < buffer.len() && buffer[index] != 0
        invariant
            index <= buffer@.len(),
            all == buffer@,
            name@ == all.take(index as int),
            first_zero(all) == index + first_zero(all.subrange(index as int, all.len() as int)),
        decreases buffer@.len() - index,
    {
        let ghost rest = all.subrange(index as int, all.len() as int);
        assert(rest.drop_first() =~= all.subrange(index as int + 1, all.len() as int));
        name.push(buffer[index]);
        assert(name@ =~= all.take(index as int + 1));
        index += 1;
    }
    assert(first_zero(all) == index);
    if index == buffer.len() {
        return Err("Windows volume name was not terminated".to_owned());
    }
    match decode_utf16(name.as_slice()) {
        Some(decoded) => Ok(decoded),
        None => Err("Windows returned an invalid volume name".to_owned()),
    }
}

/// The path under which a volume is opened: its name without the separator that ends it.
pub open spec fn opened_path(volume: Seq<char>) -> Seq<char> {
    if volume.len() > 0 && volume.last() == '\\' {
        volume.drop_last()
    } else {
        volume
    }
}

/// The path under which a volume is opened: its name without the separator that ends it.
pub fn volume_path(volume: &str) -> (result: String)
    ensures
        result@ == opened_path(volume@),
{
    let characters = chars_of(volume);
    let end: usize = if characters.len() > 0 && characters[characters.len() - 1] == '\\' {
        characters.len() - 1
    } else {
        characters.len()
    };
    let result = text_between(&characters, 0, end);
    assert(volume@.subrange(0, volume@.len() as int) =~= volume@);
    assert(volume@.len() > 0 ==> volume@.subrange(0, volume@.len() - 1) =~= volume@.drop_last());
    result
}

/// The drive root that a path starts with: a letter, a colon and a backslash.
pub open spec fn drive_root_of(path: Seq<char>) -> Option<Seq<char>> {
    if path.len() >= 3 && text::is_ascii_letter(path[0]) && path[1] == ':' && path[2] == '\\' {
        Some(path.take(3))
    } else {
        None
    }
}

/// The drive root whose type decides whether a path lies on a fixed drive.
pub fn drive_root(path: &str) -> (result: Option<String>)
    ensures
        text::optional_text(result) == drive_root_of(path@),
{
    let characters = chars_of(path);
    if characters.len() < 3 || !char_is_ascii_letter(characters[0]) || characters[1] != ':'
        || characters[2] != '\\' {
        return None;
    }
    assert(path@.subrange(0, 3) =~= path@.take(3));
    Some(text_between(&characters, 0, 3))
}

// ---------------------------------------------------------------------------------------------
// Processes
// ---------------------------------------------------------------------------------------------

/// What waiting for a process came to.
#[derive(Debug)]
pub enum WaitOutcome {
    /// The process has ended; its exit code can be read.
    Ended,
    /// The process is still running.
    Running,
    /// The wait failed; the system knows why.
    Failed,
    /// The system gave an answer that has no meaning here.
    Unexpected(String),
}

/// Whether this is the meaning of the result of a wait.
pub open spec fn is_outcome(outcome: WaitOutcome, result: u32, limited: bool) -> bool {
    if result == 0 {
        outcome is Ended
    } else if result == 0x102 && limited {
        outcome is Running
    } else if result == 0xffff_ffff {
        outcome is Failed
    } else {
        outcome matches WaitOutcome::Unexpected(cause) && cause@
            == "unexpected Windows process wait result "@ + text::decimal(result as nat)
    }
}

/// The meaning of the result of a wait. A wait without a time limit cannot run out of time.
pub fn wait_outcome(result: u32, limited: bool) -> (outcome: WaitOutcome)
    ensures
        is_outcome(outcome, result, limited),
{
    if result == 0 {
        WaitOutcome::Ended
    } else if result == 0x102 && limited {
        WaitOutcome::Running
    } else if result == 0xffff_ffff {
        WaitOutcome::Failed
    } else {
        let number = decimal_text(result as u64);
        WaitOutcome::Unexpected(
            text::join2("unexpected Windows process wait result ", number.as_str()),
        )
    }
}

/// A process has ended exactly where the wait says so; it still runs only where the wait had a limit,
/// and any answer that has no meaning is passed on with its number.
pub proof fn waits_mean_what_the_system_says(outcome: WaitOutcome, result: u32, limited: bool)
    requires
        is_outcome(outcome, result, limited),
    ensures
        outcome is Ended <==> result == 0,
        outcome is Running <==> limited && result == 258,
        outcome is Failed <==> result == u32::MAX,
{
}

/// A record says of a disk in each field what the storage provider says of it, without white space
/// around the texts; and that it takes removable media only where its own drive entry says so.
pub proof fn record_says_what_the_system_says(
    record: DiskRecord,
    disk: MsftDisk,
    drives: Seq<Win32DiskDrive>,
)
    requires
        describes(record, disk, drives),
    ensures
        record.number == disk.number && record.size == disk.size,
        record.is_boot == disk.is_boot && record.is_system == disk.is_system && record.is_offline
            == disk.is_offline && record.is_read_only == disk.is_read_only,
        record.logical_sector_size == disk.logical_sector_size && record.physical_sector_size
            == disk.physical_sector_size,
        disk.path matches Some(path) ==> record.path@ == text::trimmed(path@),
        disk.unique_id matches Some(id) ==> record.unique_id@ == text::trimmed(id@),
        disk.serial_number matches Some(serial) ==> record.serial_number@ == text::trimmed(serial@),
        disk.friendly_name matches Some(name) ==> record.friendly_name@ == text::trimmed(name@),
        disk.path is None ==> record.path@.len() == 0,
        disk.unique_id is None ==> record.unique_id@.len() == 0,
        disk.serial_number is None ==> record.serial_number@.len() == 0,
        record.bus_type@ == "USB"@ <==> disk.bus_type == 7,
        record.bus_type@ == "SD"@ <==> disk.bus_type == 12,
        record.bus_type@ == "MMC"@ <==> disk.bus_type == 13,
        record.supports_removable_media <==> takes_removable_media(drives, disk.number),
{
    reveal_strlit("USB");
    reveal_strlit("SD");
    reveal_strlit("MMC");
    reveal_strlit("OTHER");
    assert("USB"@.len() == 3 && "SD"@.len() == 2 && "MMC"@.len() == 3 && "OTHER"@.len() == 5);
    assert("USB"@[0] == 'U' && "MMC"@[0] == 'M');
}

/// A disk takes removable media exactly where one entry, and no other, has its number, and that entry
/// lists the capability.
pub proof fn only_an_unambiguous_entry_makes_a_disk_removable(
    drives: Seq<Win32DiskDrive>,
    number: u32,
)
    ensures
        takes_removable_media(drives, number) <==> exists|i: int|
            #![trigger drives[i]]
            0 <= i < drives.len() && drives[i].index == number && (
            drives[i].capabilities matches Some(items) && items@.contains(7u16)) && forall|j: int|
                0 <= j < drives.len() && (#[trigger] drives[j]).index == number ==> j == i,
{
    if takes_removable_media(drives, number) {
        let at = choose|i: int|
            0 <= i < drives.len() && (#[trigger] drives[i]).index == number && is_removable_drive(
                drives[i],
            );
        assert forall|j: int| 0 <= j < drives.len() && (#[trigger] drives[j]).index
            == number implies j == at by {
            if j != at {
                let (first, second) = if j < at {
                    (j, at)
                } else {
                    (at, j)
                };
                two_entries_count_twice(drives, number, first, second);
            }
        }
        assert(drives[at].index == number);
    }
    if exists|i: int|
        #![trigger drives[i]]
        0 <= i < drives.len() && drives[i].index == number && (
        drives[i].capabilities matches Some(items) && items@.contains(7u16)) && forall|j: int|
            0 <= j < drives.len() && (#[trigger] drives[j]).index == number ==> j == i {
        let at = choose|i: int|
            #![trigger drives[i]]
            0 <= i < drives.len() && drives[i].index == number && (
            drives[i].capabilities matches Some(items) && items@.contains(7u16)) && forall|j: int|
                0 <= j < drives.len() && (#[trigger] drives[j]).index == number ==> j == i;
        one_entry_counts_once(drives, number, at);
        assert(is_removable_drive(drives[at]));
    }
}

proof fn two_entries_count_twice(
    drives: Seq<Win32DiskDrive>,
    number: u32,
    first: int,
    second: int,
)
    requires
        0 <= first < second < drives.len(),
        drives[first].index == number,
        drives[second].index == number,
    ensures
        entries_of(drives, number) >= 2,
    decreases drives.len(),
{
    let front = drives.drop_last();
    if second < front.len() {
        two_entries_count_twice(front, number, first, second);
    } else {
        one_entry_counts(front, number, first);
    }
}

proof fn one_entry_counts(drives: Seq<Win32DiskDrive>, number: u32, at: int)
    requires
        0 <= at < drives.len(),
        drives[at].index == number,
    ensures
        entries_of(drives, number) >= 1,
    decreases drives.len(),
{
    if at < drives.len() - 1 {
        one_entry_counts(drives.drop_last(), number, at);
    }
}

proof fn no_entry_counts_nothing(drives: Seq<Win32DiskDrive>, number: u32)
    requires
        forall|j: int| 0 <= j < drives.len() ==> (#[trigger] drives[j]).index != number,
    ensures
        entries_of(drives, number) == 0,
    decreases drives.len(),
{
    if drives.len() > 0 {
        let front = drives.drop_last();
        assert forall|j: int| 0 <= j < front.len() implies (#[trigger] front[j]).index != number by {
            assert(front[j] == drives[j]);
        }
        assert(drives[drives.len() - 1].index != number);
        no_entry_counts_nothing(front, number);
    }
}

proof fn one_entry_counts_once(drives: Seq<Win32DiskDrive>, number: u32, at: int)
    requires
        0 <= at < drives.len(),
        drives[at].index == number,
        forall|j: int| 0 <= j < drives.len() && (#[trigger] drives[j]).index == number ==> j == at,
    ensures
        entries_of(drives, number) == 1,
    decreases drives.len(),
{
    let front = drives.drop_last();
    if at < front.len() {
        assert forall|j: int| 0 <= j < front.len() && (#[trigger] front[j]).index
            == number implies j == at by {
            assert(front[j] == drives[j]);
        }
        one_entry_counts_once(front, number, at);
        assert(drives[drives.len() - 1].index != number);
    } else {
        assert forall|j: int| 0 <= j < front.len() implies (#[trigger] front[j]).index != number by {
            assert(front[j] == drives[j]);
        }
        no_entry_counts_nothing(front, number);
    }
}

/// A number of four bytes is read with its lowest byte first.
pub proof fn lowest_byte_comes_first(bytes: Seq<u8>, at: int)
    ensures
        ({
            let number = le_u32(bytes, at);
            &&& number % 0x100 == bytes[at]
            &&& number / 0x100 % 0x100 == bytes[at + 1]
            &&& number / 0x1_0000 % 0x100 == bytes[at + 2]
            &&& number / 0x100_0000 == bytes[at + 3]
        }),
{
}

/// The extents of a volume are usable exactly where the answer holds their count, which is not zero,
/// and as many extents as it says.
pub proof fn usable_extents_are_complete(bytes: Seq<u8>, count: int)
    requires
        count <= usize::MAX,
    ensures
        extents_fault(bytes, count) is None <==> {
            &&& count >= 4
            &&& le_u32(bytes, 0) > 0
            &&& 8 + 24 * le_u32(bytes, 0) <= count
        },
{
}

/// A volume lies on a disk alone exactly where it has an extent there and none elsewhere, and it
/// spans the disk exactly where it has both.
pub proof fn volume_relation_is_told_by_its_extents(
    bytes: Seq<u8>,
    extents: int,
    disk_number: u32,
)
    requires
        extents > 0,
    ensures
        ({
            let relation = relation_of(bytes, extents, disk_number);
            let here = exists|i: int|
                0 <= i < extents && #[trigger] extent_disk(bytes, i) == disk_number;
            let elsewhere = exists|i: int|
                0 <= i < extents && #[trigger] extent_disk(bytes, i) != disk_number;
            &&& relation is Unrelated <==> !here
            &&& relation is Exact <==> here && !elsewhere
            &&& relation is Spanned <==> here && elsewhere
        }),
{
    assert(extent_disk(bytes, 0) == extent_disk(bytes, 0));
}

/// The text of a buffer ends at its first zero.
pub proof fn first_zero_ends_the_text(units: Seq<u16>)
    ensures
        0 <= first_zero(units) <= units.len(),
        first_zero(units) < units.len() ==> units[first_zero(units)] == 0,
        forall|i: int| 0 <= i < first_zero(units) ==> #[trigger] units[i] != 0,
    decreases units.len(),
{
    if units.len() > 0 && units[0] != 0 {
        let rest = units.drop_first();
        first_zero_ends_the_text(rest);
        assert forall|i: int| 0 <= i < first_zero(units) implies #[trigger] units[i] != 0 by {
            if i > 0 {
                assert(rest[i - 1] == units[i]);
            }
        }
        if first_zero(rest) < rest.len() {
            assert(rest[first_zero(rest)] == units[first_zero(rest) + 1]);
        }
    }
}

/// A volume is opened under its name without the separator that may end it.
pub proof fn volume_is_opened_without_its_last_separator(name: Seq<char>)
    requires
        name.len() == 0 || name.last() != '\\',
    ensures
        opened_path(name) == name,
        opened_path(name.push('\\')) == name,
{
    assert(name.push('\\').drop_last() =~= name);
}

/// The drive root of a path is its letter, colon and backslash, and nothing that stands behind them.
pub proof fn drive_root_is_letter_and_root(path: Seq<char>)
    ensures
        drive_root_of(path) is Some <==> path.len() >= 3 && (('a' <= path[0] && path[0] <= 'z') || (
        'A' <= path[0] && path[0] <= 'Z')) && path[1] == ':' && path[2] == '\\',
        drive_root_of(path) matches Some(root) ==> root == seq![path[0], ':', '\\'],
{
    if drive_root_of(path) is Some {
        assert(path.take(3) =~= seq![path[0], ':', '\\']);
    }
}

/// A record is found where it is the only one with its number, and then it is that record. No record
/// stands for a number that none or several have.
pub proof fn only_record_of_a_number_is_found(
    result: Result<DiskRecord, QueryFault>,
    records: Seq<DiskRecord>,
    number: u32,
    at: int,
)
    requires
        is_answer(result, records, number),
        0 <= at < records.len(),
        records[at].number == number,
    ensures
        result matches Ok(disk) ==> disk == records[at] && disk.number == number,
        !(result matches Err(QueryFault::NotFound)),
        (forall|i: int|
            0 <= i < records.len() && (#[trigger] records[i]).number == number ==> i == at)
            ==> result is Ok,
{
}

/// The buses that cards come on are told apart from all others, by the numbers that Windows gives
/// them; an unknown number is never taken for one of them.
pub proof fn card_buses_are_told_apart(value: u16, other: u16, removable: bool)
    ensures
        crate::drives::windows::is_card_bus(bus_text(value), removable) <==> value == 12 || value
            == 13 || (value == 7 && removable),
        bus_text(value) == bus_text(other) && value != other
            ==> !crate::drives::windows::is_card_bus(bus_text(value), true),
{
    reveal_strlit("USB");
    reveal_strlit("SD");
    reveal_strlit("MMC");
    reveal_strlit("OTHER");
    assert("USB"@.len() == 3 && "MMC"@.len() == 3 && "SD"@.len() == 2 && "OTHER"@.len() == 5);
    assert("USB"@[0] != "MMC"@[0]);
}

} // verus!
