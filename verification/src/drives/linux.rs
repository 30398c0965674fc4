//! Linux block devices, as `/sys/block` describes them.

use vstd::prelude::*;
use vstd::string::*;

use crate::drives;
use crate::drives::{DriveError, DriveErrorView};
use crate::model::{Drive, DriveView};
use crate::text;
use crate::text::{
    char_is_ascii_letter, char_is_digit, chars_of, decimal_text, digits_between, find_char,
    parse_bounded, same_text, text_between, trim,
};
use crate::worker::linux::devices::DeviceNumber;
use crate::worker::linux::mounts;
use crate::worker::linux::mounts::reject_protected_mounts;
use crate::worker::{WorkerDrive, WorkerDriveView, WorkerError, WorkerErrorView};

verus! {

broadcast use vstd::seq_lib::group_seq_properties;

/// The kernel counts the size of every block device in sectors of this many bytes.
pub const SECTOR_SIZE: u64 = 512;

// ---------------------------------------------------------------------------------------------
// Identifiers
// ---------------------------------------------------------------------------------------------

/// A character of a block device's name.
pub open spec fn is_name_char(c: char) -> bool {
    text::is_ascii_letter(c) || text::is_digit(c) || c == '_' || c == '-'
}

/// Whether a text is the name of a block device: up to 128 letters, digits, `_` and `-`.
pub open spec fn is_block_name(name: Seq<char>) -> bool {
    &&& 1 <= name.len() <= 128
    &&& forall|i: int| 0 <= i < name.len() ==> is_name_char(#[trigger] name[i])
}

/// Whether the characters from `from` up to `to` are the name of a block device.
fn block_name_between(characters: &Vec<char>, from: usize, to: usize) -> (result: bool)
    requires
        from <= to <= characters@.len(),
    ensures
        result == is_block_name(characters@.subrange(from as int, to as int)),
{
    let ghost part = characters@.subrange(from as int, to as int);
    if from == to || to - from > 128 {
        return false;
    }
    let mut index: usize = from;
    while index < to
        invariant
            from <= index <= to <= characters@.len(),
            part == characters@.subrange(from as int, to as int),
            forall|i: int| 0 <= i < index - from ==> is_name_char(#[trigger] part[i]),
        decreases to - index,
    {
        let c: char = characters[index];
        if !(char_is_ascii_letter(c) || char_is_digit(c) || c == '_' || c == '-') {
            assert(!is_name_char(part[index - from]));
            return false;
        }
        assert(part[index - from] == c);
        index += 1;
    }
    true
}

/// Whether a text is the name of a block device.
pub fn is_safe_id(id: &str) -> (result: bool)
    ensures
        result == is_block_name(id@),
{
    let characters = chars_of(id);
    assert(characters@.subrange(0, characters@.len() as int) =~= characters@);
    block_name_between(&characters, 0, characters.len())
}

/// The identifier of a drive: its kernel name and its disk sequence number, which changes whenever
/// a device is instantiated.
pub open spec fn stable_identifier(name: Seq<char>, diskseq: nat) -> Seq<char> {
    name + "@"@ + text::decimal(diskseq)
}

/// The identifier of a drive.
pub fn format_stable_identifier(block_name: &str, diskseq: u64) -> (result: String)
    ensures
        result@ == stable_identifier(block_name@, diskseq as nat),
{
    let number = decimal_text(diskseq);
    text::join3(block_name, "@", number.as_str())
}

/// The name and the disk sequence number that an identifier consists of: what stands before and
/// behind its first `@`. The number is a positive run of digits.
pub open spec fn split_identifier(value: Seq<char>) -> Option<(Seq<char>, u64)> {
    let at = text::find(value, '@');
    let name = value.take(at);
    let digits = value.subrange(at + 1, value.len() as int);
    if at < value.len() && is_block_name(name) && digits.len() > 0 && text::all_digits(digits)
        && 0 < text::digits_value(digits) <= u64::MAX {
        Some((name, text::digits_value(digits) as u64))
    } else {
        None
    }
}

/// Take an identifier apart.
pub fn split_stable_identifier(value: &str) -> (result: Option<(String, u64)>)
    ensures
        match result {
            Some((name, diskseq)) => split_identifier(value@) == Some((name@, diskseq)),
            None => split_identifier(value@) is None,
        },
{
    let characters = chars_of(value);
    let at: usize = find_char(&characters, '@');
    if at == characters.len() {
        return None;
    }
    let ghost name = value@.take(at as int);
    assert(characters@.subrange(0, at as int) =~= name);
    if !block_name_between(&characters, 0, at) {
        return None;
    }
    let from: usize = at + 1;
    let ghost digits = value@.subrange(from as int, value@.len() as int);
    if from == characters.len() || !digits_between(&characters, from, characters.len()) {
        return None;
    }
    let number = text_between(&characters, from, characters.len());
    proof {
        assert(number@ =~= digits);
        text::scan_of_digits(digits, u64::MAX as nat);
        assert(text::is_digit(digits[0]));
    }
    match parse_bounded(number.as_str(), u64::MAX) {
        Ok(diskseq) => {
            if diskseq == 0 {
                None
            } else {
                Some((text_between(&characters, 0, at), diskseq))
            }
        },
        Err(_) => None,
    }
}

/// An identifier made of a block name and a positive number comes apart into just these.
pub proof fn stable_identifier_splits_back(name: Seq<char>, diskseq: u64)
    requires
        is_block_name(name),
        diskseq > 0,
    ensures
        split_identifier(stable_identifier(name, diskseq as nat)) == Some((name, diskseq)),
{
    let digits = text::decimal(diskseq as nat);
    let value = stable_identifier(name, diskseq as nat);
    reveal_strlit("@");
    text::decimal_reads_back(diskseq as nat);
    let at = name.len() as int;
    assert(value[at] == '@');
    assert forall|i: int| 0 <= i < at implies value[i] != '@' by {
        assert(value[i] == name[i]);
        assert(is_name_char(name[i]));
    }
    text::find_is(value, '@', at);
    assert(value.take(at) =~= name);
    assert(value.subrange(at + 1, value.len() as int) =~= digits);
}

/// The device path of a block device.
pub open spec fn device_path(name: Seq<char>) -> Seq<char> {
    "/dev/"@ + name
}

/// Whether a drive's identity is one that discovery gives out: a well-formed identifier, the device
/// path that belongs to it, and a capacity.
pub open spec fn is_worker_drive(drive: WorkerDriveView) -> bool {
    &&& split_identifier(drive.id) matches Some((name, diskseq))
    &&& drive.device == device_path(name)
    &&& drive.capacity > 0
}

/// Whether a drive's identity is one that discovery gives out.
pub fn valid_worker_drive(drive: &WorkerDrive) -> (result: bool)
    ensures
        result == is_worker_drive(drive@),
{
    match split_stable_identifier(drive.id.as_str()) {
        Some((name, _)) => {
            let device = text::join2("/dev/", name.as_str());
            drive.capacity > 0 && drive.device == device
        },
        None => false,
    }
}

// ---------------------------------------------------------------------------------------------
// Discovery
// ---------------------------------------------------------------------------------------------

/// What `/sys/block` says of one device. A file that could not be read holds the cause.
#[derive(Debug)]
pub struct BlockFacts {
    /// The name of the device's directory.
    pub id: String,
    pub removable: Result<String, String>,
    pub read_only: Result<String, String>,
    pub diskseq: Result<String, String>,
    pub size: Result<String, String>,
    pub vendor: Option<String>,
    pub model: Option<String>,
    /// The device itself, its partitions, and everything that holds one of them.
    pub related: Result<Vec<DeviceNumber>, WorkerError>,
}

/// What one device comes to: a failed discovery, nothing, or a drive.
pub enum Discovery {
    Failed(DriveErrorView),
    Skipped,
    Found(DriveView),
}

/// The text of an optional attribute, without white space around it.
pub open spec fn attribute(value: Option<String>) -> Seq<char> {
    match value {
        Some(held) => text::trimmed(held@),
        None => Seq::empty(),
    }
}

/// The name under which a device is offered: its vendor and model, where it gives any.
pub open spec fn drive_name(vendor: Option<String>, model: Option<String>) -> Seq<char> {
    let name = text::trimmed(attribute(vendor) + " "@ + attribute(model));
    if name.len() == 0 {
        drives::unnamed()
    } else {
        name
    }
}

/// What a device's size and sequence number make of it.
pub open spec fn sized_drive(facts: BlockFacts, diskseq: nat, size: Seq<char>) -> Discovery {
    match text::parse_unsigned(text::trimmed(size), u64::MAX as nat) {
        Err(fault) => Discovery::Failed(DriveErrorView::InvalidData(fault.text())),
        Ok(sectors) => if sectors * SECTOR_SIZE > u64::MAX {
            Discovery::Failed(DriveErrorView::InvalidData("drive capacity overflow"@))
        } else if sectors == 0 {
            Discovery::Skipped
        } else {
            Discovery::Found(
                DriveView {
                    id: stable_identifier(facts.id@, diskseq),
                    device: device_path(facts.id@),
                    name: drive_name(facts.vendor, facts.model),
                    capacity: (sectors * SECTOR_SIZE) as u64,
                },
            )
        },
    }
}

/// What a removable, writable device comes to.
pub open spec fn removable_device(facts: BlockFacts) -> Discovery {
    match facts.diskseq {
        Err(cause) => Discovery::Failed(
            DriveErrorView::InvalidData(
                "Linux kernel 5.15 or newer is required for safe removable-drive identity: "@
                    + DriveErrorView::Io(cause@).text(),
            ),
        ),
        Ok(diskseq) => match text::parse_unsigned(text::trimmed(diskseq@), u64::MAX as nat) {
            Err(fault) => Discovery::Failed(
                DriveErrorView::InvalidData(
                    "invalid kernel disk sequence number: "@ + fault.text(),
                ),
            ),
            Ok(number) => if number == 0 {
                Discovery::Failed(
                    DriveErrorView::InvalidData(
                        "kernel returned an unsafe zero disk sequence number"@,
                    ),
                )
            } else {
                match facts.size {
                    Err(cause) => Discovery::Failed(DriveErrorView::Io(cause@)),
                    Ok(size) => sized_drive(facts, number, size@),
                }
            },
        },
    }
}

/// What the mounts make of a removable, writable device: one that holds mounted system media is not
/// offered, and nothing is where the mounts are not known.
pub open spec fn unless_mounted(
    drive: DriveView,
    related: Result<Vec<DeviceNumber>, WorkerError>,
    mountinfo: Result<String, String>,
) -> Discovery {
    match related {
        Err(error) => Discovery::Failed(DriveErrorView::InvalidData(error@.text())),
        Ok(numbers) => match mountinfo {
            Err(cause) => Discovery::Failed(DriveErrorView::Io(cause@)),
            Ok(list) => match mounts::mounts_fault(list@, numbers@) {
                None => Discovery::Found(drive),
                Some(WorkerErrorView::UnsafeTarget) => Discovery::Skipped,
                Some(fault) => Discovery::Failed(DriveErrorView::InvalidData(fault.text())),
            },
        },
    }
}

/// What one device comes to, given the kernel's list of mounts.
pub open spec fn discover(facts: BlockFacts, mountinfo: Result<String, String>) -> Discovery {
    match candidate(facts) {
        Discovery::Found(drive) => unless_mounted(drive, facts.related, mountinfo),
        settled => settled,
    }
}

/// What one device comes to by itself. Only a device that says it is removable and not read-only is
/// offered.
pub open spec fn candidate(facts: BlockFacts) -> Discovery {
    if !is_block_name(facts.id@) {
        Discovery::Skipped
    } else {
        match facts.removable {
            Err(cause) => Discovery::Failed(DriveErrorView::Io(cause@)),
            Ok(removable) => if text::trimmed(removable@) != "1"@ {
                Discovery::Skipped
            } else {
                match facts.read_only {
                    Err(cause) => Discovery::Failed(DriveErrorView::Io(cause@)),
                    Ok(read_only) => if text::trimmed(read_only@) != "0"@ {
                        Discovery::Skipped
                    } else {
                        removable_device(facts)
                    },
                }
            },
        }
    }
}

/// What all devices come to: the first failure, or every drive in the order of the devices.
pub open spec fn discover_all(
    entries: Seq<Result<BlockFacts, String>>,
    mountinfo: Result<String, String>,
) -> Result<Seq<DriveView>, DriveErrorView>
    decreases entries.len(),
{
    if entries.len() == 0 {
        Ok(Seq::empty())
    } else {
        match discover_all(entries.drop_last(), mountinfo) {
            Err(error) => Err(error),
            Ok(found) => match entries.last() {
                Err(cause) => Err(DriveErrorView::Io(cause@)),
                Ok(facts) => match discover(facts, mountinfo) {
                    Discovery::Failed(error) => Err(error),
                    Discovery::Skipped => Ok(found),
                    Discovery::Found(drive) => Ok(found.push(drive)),
                },
            },
        }
    }
}

fn attribute_text(value: &Option<String>) -> (result: String)
    ensures
        result@ == attribute(*value),
{
    match value {
        Some(held) => trim(held.as_str()),
        None => String::new(),
    }
}

fn discovered_name(vendor: &Option<String>, model: &Option<String>) -> (result: String)
    ensures
        result@ == drive_name(*vendor, *model),
{
    let first = attribute_text(vendor);
    let second = attribute_text(model);
    let whole = text::join3(first.as_str(), " ", second.as_str());
    let name = trim(whole.as_str());
    if name.as_str().is_empty() {
        "Removable drive".to_owned()
    } else {
        name
    }
}

fn find_candidate(facts: &BlockFacts) -> (result: Result<Option<Drive>, DriveError>)
    ensures
        match result {
            Err(error) => candidate(*facts) == Discovery::Failed(error@),
            Ok(None) => candidate(*facts) == Discovery::Skipped,
            Ok(Some(drive)) => candidate(*facts) == Discovery::Found(drive@),
        },
{
    if !is_safe_id(facts.id.as_str()) {
        return Ok(None);
    }
    let removable = match &facts.removable {
        Ok(value) => trim(value.as_str()),
        Err(cause) => {
            return Err(DriveError::Io(cause.clone()));
        },
    };
    if !same_text(removable.as_str(), "1") {
        return Ok(None);
    }
    let read_only = match &facts.read_only {
        Ok(value) => trim(value.as_str()),
        Err(cause) => {
            return Err(DriveError::Io(cause.clone()));
        },
    };
    if !same_text(read_only.as_str(), "0") {
        return Ok(None);
    }
    let diskseq_text = match &facts.diskseq {
        Ok(value) => trim(value.as_str()),
        Err(cause) => {
            let reason = DriveError::Io(cause.clone()).message();
            return Err(
                DriveError::InvalidData(
                    text::join2(
                        "Linux kernel 5.15 or newer is required for safe removable-drive identity: ",
                        reason.as_str(),
                    ),
                ),
            );
        },
    };
    let diskseq: u64 = match parse_bounded(diskseq_text.as_str(), u64::MAX) {
        Ok(number) => number,
        Err(fault) => {
            return Err(
                DriveError::InvalidData(
                    text::join2("invalid kernel disk sequence number: ", fault.message()),
                ),
            );
        },
    };
    if diskseq == 0 {
        return Err(
            DriveError::InvalidData(
                "kernel returned an unsafe zero disk sequence number".to_owned(),
            ),
        );
    }
    let size_text = match &facts.size {
        Ok(value) => trim(value.as_str()),
        Err(cause) => {
            return Err(DriveError::Io(cause.clone()));
        },
    };
    let sectors: u64 = match parse_bounded(size_text.as_str(), u64::MAX) {
        Ok(number) => number,
        Err(fault) => {
            return Err(DriveError::InvalidData(fault.message().to_owned()));
        },
    };
    let capacity: u64 = match sectors.checked_mul(SECTOR_SIZE) {
        Some(capacity) => capacity,
        None => {
            return Err(DriveError::InvalidData("drive capacity overflow".to_owned()));
        },
    };
    if capacity == 0 {
        return Ok(None);
    }
    Ok(
        Some(
            Drive {
                id: format_stable_identifier(facts.id.as_str(), diskseq),
                device: text::join2("/dev/", facts.id.as_str()),
                name: discovered_name(&facts.vendor, &facts.model),
                capacity,
            },
        ),
    )
}

fn discover_device(facts: &BlockFacts, mountinfo: &Result<String, String>) -> (result: Result<
    Option<Drive>,
    DriveError,
>)
    ensures
        match result {
            Err(error) => discover(*facts, *mountinfo) == Discovery::Failed(error@),
            Ok(None) => discover(*facts, *mountinfo) == Discovery::Skipped,
            Ok(Some(drive)) => discover(*facts, *mountinfo) == Discovery::Found(drive@),
        },
{
    let drive = match find_candidate(facts) {
        Err(error) => {
            return Err(error);
        },
        Ok(None) => {
            return Ok(None);
        },
        Ok(Some(drive)) => drive,
    };
    let numbers: &Vec<DeviceNumber> = match &facts.related {
        Err(error) => {
            return Err(DriveError::InvalidData(error.message()));
        },
        Ok(numbers) => numbers,
    };
    let list: &String = match mountinfo {
        Err(cause) => {
            return Err(DriveError::Io(cause.clone()));
        },
        Ok(list) => list,
    };
    match reject_protected_mounts(list.as_str(), numbers) {
        Ok(()) => Ok(Some(drive)),
        Err(WorkerError::UnsafeTarget) => Ok(None),
        Err(error) => Err(DriveError::InvalidData(error.message())),
    }
}

/// The removable, writable drives among the block devices that hold no mounted system media, in the
/// order of the devices. `mountinfo` is the kernel's list of mounts.
pub fn removable_drives(
    entries: &Vec<Result<BlockFacts, String>>,
    mountinfo: &Result<String, String>,
) -> (result: Result<Vec<Drive>, DriveError>)
    ensures
        match result {
            Ok(found) => discover_all(entries@, *mountinfo) == Ok::<
                Seq<DriveView>,
                DriveErrorView,
            >(drives::drive_views(found@)),
            Err(error) => discover_all(entries@, *mountinfo) == Err::<
                Seq<DriveView>,
                DriveErrorView,
            >(error@),
        },
{
    let mut found: Vec<Drive> = Vec::new();
    let mut index: usize = 0;
    assert(drives::drive_views(found@) =~= Seq::<DriveView>::empty());
    assert(entries@.take(0) =~= Seq::empty());
    while index < entries.len()
        invariant
            index <= entries@.len(),
            discover_all(entries@.take(index as int), *mountinfo) == Ok::<
                Seq<DriveView>,
                DriveErrorView,
            >(drives::drive_views(found@)),
        decreases entries@.len() - index,
    {
        let ghost upto = entries@.take(index as int + 1);
        assert(upto.drop_last() =~= entries@.take(index as int));
        assert(upto.last() == entries@[index as int]);
        let facts: &BlockFacts = match &entries[index] {
            Ok(facts) => facts,
            Err(cause) => {
                proof {
                    first_failure_stays(entries@, *mountinfo, index as int + 1);
                }
                return Err(DriveError::Io(cause.clone()));
            },
        };
        match discover_device(facts, mountinfo) {
            Err(error) => {
                proof {
                    first_failure_stays(entries@, *mountinfo, index as int + 1);
                }
                return Err(error);
            },
            Ok(None) => {},
            Ok(Some(drive)) => {
                let ghost before = drives::drive_views(found@);
                found.push(drive);
                assert(drives::drive_views(found@) =~= before.push(drive@));
            },
        }
        index += 1;
    }
    assert(entries@.take(entries@.len() as int) =~= entries@);
    Ok(found)
}

proof fn first_failure_stays(
    entries: Seq<Result<BlockFacts, String>>,
    mountinfo: Result<String, String>,
    upto: int,
)
    requires
        0 <= upto <= entries.len(),
        discover_all(entries.take(upto), mountinfo) is Err,
    ensures
        discover_all(entries, mountinfo) == discover_all(entries.take(upto), mountinfo),
    decreases entries.len() - upto,
{
    if upto < entries.len() {
        assert(entries.take(upto + 1).drop_last() =~= entries.take(upto));
        first_failure_stays(entries, mountinfo, upto + 1);
    } else {
        assert(entries.take(upto) =~= entries);
    }
}

proof fn scanned_within(s: Seq<char>, max: nat)
    ensures
        text::scan_digits(s, max) matches Ok(value) ==> value <= max,
    decreases s.len(),
{
    if s.len() > 0 {
        scanned_within(s.drop_last(), max);
    }
}

/// Every drive that discovery offers has an identity that the worker accepts.
pub proof fn discovered_drives_are_worker_drives(
    entries: Seq<Result<BlockFacts, String>>,
    mountinfo: Result<String, String>,
    found: Seq<DriveView>,
    at: int,
)
    requires
        discover_all(entries, mountinfo) == Ok::<Seq<DriveView>, DriveErrorView>(found),
        0 <= at < found.len(),
    ensures
        is_worker_drive(drives::worker_view(found[at])),
    decreases entries.len(),
{
    if entries.len() > 0 {
        let before = discover_all(entries.drop_last(), mountinfo)->Ok_0;
        if at < before.len() {
            discovered_drives_are_worker_drives(entries.drop_last(), mountinfo, before, at);
        } else {
            let facts = entries.last()->Ok_0;
            let digits = text::trimmed(facts.diskseq->Ok_0@);
            let number = text::parse_unsigned(digits, u64::MAX as nat)->Ok_0;
            scanned_within(digits, u64::MAX as nat);
            scanned_within(digits.drop_first(), u64::MAX as nat);
            stable_identifier_splits_back(facts.id@, number as u64);
        }
    }
}

/// A device is offered only where it says of itself that it is removable and not read-only.
pub proof fn discovered_drives_are_removable_and_writable(
    entries: Seq<Result<BlockFacts, String>>,
    mountinfo: Result<String, String>,
    found: Seq<DriveView>,
    at: int,
)
    requires
        discover_all(entries, mountinfo) == Ok::<Seq<DriveView>, DriveErrorView>(found),
        0 <= at < found.len(),
    ensures
        exists|i: int|
            #![trigger entries[i]]
            0 <= i < entries.len() && (entries[i] matches Ok(facts) && discover(facts, mountinfo)
                == Discovery::Found(found[at]) && is_removable_and_writable(facts)),
    decreases entries.len(),
{
    let front = entries.drop_last();
    let before = discover_all(front, mountinfo)->Ok_0;
    if at < before.len() {
        discovered_drives_are_removable_and_writable(front, mountinfo, before, at);
        let i = choose|i: int|
            #![trigger front[i]]
            0 <= i < front.len() && (front[i] matches Ok(facts) && discover(facts, mountinfo)
                == Discovery::Found(before[at]) && is_removable_and_writable(facts));
        assert(entries[i] == front[i]);
    } else {
        assert(entries[entries.len() - 1] == entries.last());
    }
}

/// Whether the mounts are known, and none of them is one of the system on the device, on one of its
/// partitions, or on anything that holds one of them.
pub open spec fn holds_no_system_mount(
    facts: BlockFacts,
    mountinfo: Result<String, String>,
) -> bool {
    &&& facts.related matches Ok(numbers)
    &&& mountinfo matches Ok(list)
    &&& mounts::listed_mounts(list@) matches Ok(mounted)
    &&& !mounts::holds_protected_mount(mounted, numbers@)
}

/// Mounted system media are never offered: neither an offered device nor anything that depends on it
/// is mounted outside the roots for removable media.
pub proof fn discovered_drives_hold_no_system_mount(
    entries: Seq<Result<BlockFacts, String>>,
    mountinfo: Result<String, String>,
    found: Seq<DriveView>,
    at: int,
)
    requires
        discover_all(entries, mountinfo) == Ok::<Seq<DriveView>, DriveErrorView>(found),
        0 <= at < found.len(),
    ensures
        exists|i: int|
            #![trigger entries[i]]
            0 <= i < entries.len() && (entries[i] matches Ok(facts) && discover(facts, mountinfo)
                == Discovery::Found(found[at]) && holds_no_system_mount(facts, mountinfo)),
    decreases entries.len(),
{
    let front = entries.drop_last();
    let before = discover_all(front, mountinfo)->Ok_0;
    if at < before.len() {
        discovered_drives_hold_no_system_mount(front, mountinfo, before, at);
        let i = choose|i: int|
            #![trigger front[i]]
            0 <= i < front.len() && (front[i] matches Ok(facts) && discover(facts, mountinfo)
                == Discovery::Found(before[at]) && holds_no_system_mount(facts, mountinfo));
        assert(entries[i] == front[i]);
    } else {
        assert(entries[entries.len() - 1] == entries.last());
    }
}

/// Whether a device says of itself that it is removable and not read-only.
pub open spec fn is_removable_and_writable(facts: BlockFacts) -> bool {
    &&& facts.removable matches Ok(removable) && text::trimmed(removable@) == "1"@
    &&& facts.read_only matches Ok(read_only) && text::trimmed(read_only@) == "0"@
}

/// What is required of a device to be offered: the name of a block device, removable, writable, a
/// positive disk sequence number, a positive size that can be counted in bytes, and no mount of the
/// system on it.
pub open spec fn may_be_offered(facts: BlockFacts, mountinfo: Result<String, String>) -> bool {
    &&& is_block_name(facts.id@)
    &&& is_removable_and_writable(facts)
    &&& facts.diskseq matches Ok(diskseq)
    &&& text::parse_unsigned(text::trimmed(diskseq@), u64::MAX as nat) matches Ok(number)
    &&& number > 0
    &&& facts.size matches Ok(size)
    &&& text::parse_unsigned(text::trimmed(size@), u64::MAX as nat) matches Ok(sectors)
    &&& 0 < sectors * 512 <= u64::MAX
    &&& holds_no_system_mount(facts, mountinfo)
}

/// Whether a drive is the one that a device is offered as: named by its vendor and model, identified
/// by its kernel name and disk sequence number, at its device path, with its size in bytes.
pub open spec fn describes(drive: DriveView, facts: BlockFacts) -> bool {
    let number = text::parse_unsigned(
        text::trimmed(facts.diskseq->Ok_0@),
        u64::MAX as nat,
    )->Ok_0;
    let sectors = text::parse_unsigned(text::trimmed(facts.size->Ok_0@), u64::MAX as nat)->Ok_0;
    let name = text::trimmed(attribute(facts.vendor) + " "@ + attribute(facts.model));
    &&& drive.id == facts.id@ + "@"@ + text::decimal(number)
    &&& drive.device == "/dev/"@ + facts.id@
    &&& drive.capacity == sectors * 512
    &&& drive.name == (if name.len() == 0 {
        "Removable drive"@
    } else {
        name
    })
}

/// The devices among some entries that may be offered, in their order.
pub open spec fn offerable(
    entries: Seq<Result<BlockFacts, String>>,
    mountinfo: Result<String, String>,
) -> Seq<BlockFacts>
    decreases entries.len(),
{
    if entries.len() == 0 {
        Seq::empty()
    } else {
        let before = offerable(entries.drop_last(), mountinfo);
        match entries.last() {
            Ok(facts) => if may_be_offered(facts, mountinfo) {
                before.push(facts)
            } else {
                before
            },
            Err(_) => before,
        }
    }
}

/// Where discovery succeeds, it offers every device that may be offered and no other: one drive for
/// each, in the order of the devices, and each drive describes its device.
pub proof fn every_offerable_device_is_offered(
    entries: Seq<Result<BlockFacts, String>>,
    mountinfo: Result<String, String>,
    found: Seq<DriveView>,
)
    requires
        discover_all(entries, mountinfo) == Ok::<Seq<DriveView>, DriveErrorView>(found),
    ensures
        found.len() == offerable(entries, mountinfo).len(),
        forall|i: int|
            0 <= i < found.len() ==> describes(
                #[trigger] found[i],
                offerable(entries, mountinfo)[i],
            ),
        forall|i: int|
            0 <= i < entries.len() && (#[trigger] entries[i] matches Ok(facts) && may_be_offered(
                facts,
                mountinfo,
            )) ==> exists|j: int|
                0 <= j < found.len() && describes(#[trigger] found[j], entries[i]->Ok_0),
    decreases entries.len(),
{
    if entries.len() > 0 {
        let front = entries.drop_last();
        let before = discover_all(front, mountinfo)->Ok_0;
        every_offerable_device_is_offered(front, mountinfo, before);
        let facts = entries.last()->Ok_0;
        let offered = offerable(entries, mountinfo);
        let earlier = offerable(front, mountinfo);
        offered_where_required(facts, mountinfo);
        assert forall|i: int| 0 <= i < found.len() implies describes(
            #[trigger] found[i],
            offered[i],
        ) by {
            if i < before.len() {
                assert(found[i] == before[i]);
                assert(offered[i] == earlier[i]);
            }
        }
        assert forall|i: int|
            0 <= i < entries.len() && (#[trigger] entries[i] matches Ok(facts) && may_be_offered(
                facts,
                mountinfo,
            )) implies exists|j: int|
            0 <= j < found.len() && describes(#[trigger] found[j], entries[i]->Ok_0) by {
            if i < front.len() {
                assert(front[i] == entries[i]);
                let j = choose|j: int|
                    0 <= j < before.len() && describes(#[trigger] before[j], front[i]->Ok_0);
                assert(found[j] == before[j]);
            } else {
                assert(entries[i] == entries.last());
                assert(describes(found[found.len() - 1], facts));
            }
        }
    }
}

proof fn offered_where_required(facts: BlockFacts, mountinfo: Result<String, String>)
    ensures
        discover(facts, mountinfo) is Found <==> may_be_offered(facts, mountinfo),
        discover(facts, mountinfo) matches Discovery::Found(drive) ==> describes(drive, facts),
{
    if let Ok(diskseq) = facts.diskseq {
        scanned_within(text::trimmed(diskseq@), u64::MAX as nat);
        scanned_within(text::trimmed(diskseq@).drop_first(), u64::MAX as nat);
    }
}

/// Discovery fails only for a reason: an entry that could not be read, or a removable, writable
/// device whose attributes or mounts are not known or make no sense. A device that is fixed or
/// read-only, and one with no medium, never stops it.
pub proof fn discovery_fails_only_for_a_reason(
    entries: Seq<Result<BlockFacts, String>>,
    mountinfo: Result<String, String>,
)
    requires
        forall|i: int|
            0 <= i < entries.len() ==> (#[trigger] entries[i] matches Ok(facts) && is_settled(
                facts,
                mountinfo,
            )),
    ensures
        discover_all(entries, mountinfo) is Ok,
    decreases entries.len(),
{
    if entries.len() > 0 {
        let front = entries.drop_last();
        assert forall|i: int| 0 <= i < front.len() implies (#[trigger] front[i] matches Ok(facts)
            && is_settled(facts, mountinfo)) by {
            assert(front[i] == entries[i]);
        }
        discovery_fails_only_for_a_reason(front, mountinfo);
        assert(entries[entries.len() - 1] == entries.last());
        offered_where_required(entries.last()->Ok_0, mountinfo);
    }
}

/// Whether it is clear what becomes of a device: it may be offered, or it says that it is fixed,
/// read-only, without a medium or in use by the system, or it has no proper name.
pub open spec fn is_settled(facts: BlockFacts, mountinfo: Result<String, String>) -> bool {
    ||| may_be_offered(facts, mountinfo)
    ||| !is_block_name(facts.id@)
    ||| facts.removable matches Ok(removable) && text::trimmed(removable@) != "1"@
    ||| is_removable(facts) && (facts.read_only matches Ok(read_only) && text::trimmed(read_only@)
        != "0"@)
    ||| is_removable_and_writable(facts) && has_number(facts.diskseq) && (facts.size matches Ok(
        size,
    ) && text::parse_unsigned(text::trimmed(size@), u64::MAX as nat) == Ok::<
        nat,
        text::ParseFault,
    >(0))
}

/// Whether a device says of itself that it is removable.
pub open spec fn is_removable(facts: BlockFacts) -> bool {
    facts.removable matches Ok(removable) && text::trimmed(removable@) == "1"@
}

/// Whether an attribute was read and is a positive number.
pub open spec fn has_number(attribute: Result<String, String>) -> bool {
    &&& attribute matches Ok(value)
    &&& text::parse_unsigned(text::trimmed(value@), u64::MAX as nat) matches Ok(number)
    &&& number > 0
}

/// An identifier comes apart only where it is the name of a block device and the digits of a number
/// other than zero around an `@`, and then into just these; the device of a name is below `/dev`.
pub proof fn split_identifier_is_put_together_again(value: Seq<char>, name: Seq<char>)
    ensures
        split_identifier(value) matches Some((front, number)) ==> {
            let digits = value.subrange(front.len() + 1int, value.len() as int);
            &&& value == front + "@"@ + digits
            &&& is_block_name(front)
            &&& text::all_digits(digits) && text::digits_value(digits) == number && number > 0
        },
        is_block_name(name) <==> 1 <= name.len() <= 128 && forall|i: int|
            0 <= i < name.len() ==> ('a' <= #[trigger] name[i] && name[i] <= 'z') || ('A' <= name[i]
                && name[i] <= 'Z') || ('0' <= name[i] && name[i] <= '9') || name[i] == '_'
                || name[i] == '-',
        device_path(name) == "/dev/"@ + name,
{
    reveal_strlit("@");
    text::find_bounds(value, '@');
    let at = text::find(value, '@');
    if split_identifier(value) is Some {
        assert(value =~= value.take(at) + "@"@ + value.subrange(at + 1, value.len() as int));
    }
    if 1 <= name.len() <= 128 && forall|i: int|
        0 <= i < name.len() ==> ('a' <= #[trigger] name[i] && name[i] <= 'z') || ('A' <= name[i]
            && name[i] <= 'Z') || ('0' <= name[i] && name[i] <= '9') || name[i] == '_' || name[i]
            == '-' {
        assert forall|i: int| 0 <= i < name.len() implies is_name_char(#[trigger] name[i]) by {}
    }
    if is_block_name(name) {
        assert forall|i: int| 0 <= i < name.len() implies ('a' <= #[trigger] name[i] && name[i]
            <= 'z') || ('A' <= name[i] && name[i] <= 'Z') || ('0' <= name[i] && name[i] <= '9')
            || name[i] == '_' || name[i] == '-' by {
            assert(is_name_char(name[i]));
        }
    }
}

/// The devices that may be offered are devices among the entries.
pub proof fn offerable_devices_are_among_the_entries(
    entries: Seq<Result<BlockFacts, String>>,
    mountinfo: Result<String, String>,
    at: int,
)
    requires
        0 <= at < offerable(entries, mountinfo).len(),
    ensures
        exists|i: int|
            0 <= i < entries.len() && (#[trigger] entries[i] matches Ok(block) && may_be_offered(
                block,
                mountinfo,
            ) && block == offerable(entries, mountinfo)[at]),
    decreases entries.len(),
{
    let front = entries.drop_last();
    let before = offerable(front, mountinfo);
    if at < before.len() {
        offerable_devices_are_among_the_entries(front, mountinfo, at);
        let place = choose|i: int|
            0 <= i < front.len() && (#[trigger] front[i] matches Ok(block) && may_be_offered(
                block,
                mountinfo,
            ) && block == before[at]);
        assert(entries[place] == front[place]);
    } else {
        assert(entries[entries.len() - 1] == entries.last());
    }
}

/// A drive that can be written to has room, however much; and its identifier alone says which device it
/// is: two with the same identifier have the same path.
pub proof fn identifier_tells_the_path(first: WorkerDriveView, second: WorkerDriveView)
    requires
        is_worker_drive(first),
    ensures
        first.capacity > 0,
        second.id == first.id && second.device == first.device && second.capacity > 0
            ==> is_worker_drive(second),
        is_worker_drive(second) && second.id == first.id ==> second.device == first.device,
{
}

} // verus!
