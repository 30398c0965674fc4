//! Kernel device numbers, and what the kernel says of the selected device.

use vstd::prelude::*;
use vstd::string::*;

use crate::drives::linux;
use crate::drives::linux::{format_stable_identifier, is_safe_id, SECTOR_SIZE};
use crate::text;
use crate::text::{
    chars_of, decimal_text, digits_between, find_char, join2, join3, parse_bounded, same_text,
    text_between, trim,
};
use crate::worker;
use crate::worker::session::LookFailure;
use crate::worker::{WorkerDrive, WorkerDriveView, WorkerError, WorkerErrorView};

verus! {

broadcast use vstd::seq_lib::group_seq_properties;

/// The number by which the kernel knows a block device.
#[derive(Clone, Copy, Debug, PartialEq, Eq, Structural)]
pub struct DeviceNumber {
    pub major: u64,
    pub minor: u64,
}

/// A device number as the kernel writes it.
pub open spec fn number_text(device: DeviceNumber) -> Seq<char> {
    text::decimal(device.major as nat) + ":"@ + text::decimal(device.minor as nat)
}

/// The value of a run of digits that fits.
pub open spec fn plain_number(s: Seq<char>) -> Option<u64> {
    if s.len() > 0 && text::all_digits(s) && text::digits_value(s) <= u64::MAX {
        Some(text::digits_value(s) as u64)
    } else {
        None
    }
}

/// The device number that a text spells: two runs of digits around the first colon.
pub open spec fn device_number(value: Seq<char>) -> Option<DeviceNumber> {
    let at = text::find(value, ':');
    if at >= value.len() {
        None
    } else {
        match (plain_number(value.take(at)), plain_number(value.subrange(
            at + 1,
            value.len() as int,
        ))) {
            (Some(major), Some(minor)) => Some(DeviceNumber { major, minor }),
            _ => None,
        }
    }
}

/// A text that spells no device number.
pub open spec fn bad_number() -> WorkerErrorView {
    WorkerErrorView::Platform("invalid kernel device number"@)
}

fn parse_plain(characters: &Vec<char>, from: usize, to: usize) -> (result: Option<u64>)
    requires
        from <= to <= characters@.len(),
    ensures
        result == plain_number(characters@.subrange(from as int, to as int)),
{
    let ghost part = characters@.subrange(from as int, to as int);
    if from == to || !digits_between(characters, from, to) {
        return None;
    }
    let number = text_between(characters, from, to);
    proof {
        text::scan_of_digits(part, u64::MAX as nat);
        assert(text::is_digit(part[0]));
    }
    match parse_bounded(number.as_str(), u64::MAX) {
        Ok(value) => Some(value),
        Err(_) => None,
    }
}

/// Read a device number.
pub fn parse_device_number(value: &str) -> (result: Result<DeviceNumber, WorkerError>)
    ensures
        match result {
            Ok(device) => device_number(value@) == Some(device),
            Err(error) => device_number(value@) is None && error@ == bad_number(),
        },
{
    let characters = chars_of(value);
    let at: usize = find_char(&characters, ':');
    if at < characters.len() {
        assert(value@.subrange(0, at as int) =~= value@.take(at as int));
        match (
            parse_plain(&characters, 0, at),
            parse_plain(&characters, at + 1, characters.len()),
        ) {
            (Some(major), Some(minor)) => {
                return Ok(DeviceNumber { major, minor });
            },
            _ => {},
        }
    }
    Err(WorkerError::Platform("invalid kernel device number".to_owned()))
}

/// Write a device number as the kernel does.
pub fn format_device_number(device: DeviceNumber) -> (result: String)
    ensures
        result@ == number_text(device),
{
    let major = decimal_text(device.major);
    let minor = decimal_text(device.minor);
    join3(major.as_str(), ":", minor.as_str())
}

/// A device number that was written is read back as the same.
pub proof fn device_number_reads_back(device: DeviceNumber)
    ensures
        device_number(number_text(device)) == Some(device),
{
    let major = text::decimal(device.major as nat);
    let minor = text::decimal(device.minor as nat);
    let value = number_text(device);
    let at = major.len() as int;
    reveal_strlit(":");
    text::decimal_reads_back(device.major as nat);
    text::decimal_reads_back(device.minor as nat);
    assert(value[at] == ':');
    assert forall|i: int| 0 <= i < at implies value[i] != ':' by {
        assert(value[i] == major[i]);
        assert(text::is_digit(major[i]));
    }
    text::find_is(value, ':', at);
    assert(value.take(at) =~= major);
    assert(value.subrange(at + 1, value.len() as int) =~= minor);
}

/// The device number in the kernel's layout of `dev_t`.
pub open spec fn decoded_device(device: u64) -> DeviceNumber {
    DeviceNumber {
        major: ((device >> 8) & 0x0fff) | ((device >> 32) & 0xffff_f000),
        minor: (device & 0x00ff) | ((device >> 12) & 0xffff_ff00),
    }
}

/// Take a `dev_t` apart, as `gnu_dev_major` and `gnu_dev_minor` do.
pub fn decode_linux_device(device: u64) -> (result: DeviceNumber)
    ensures
        result == decoded_device(device),
{
    DeviceNumber {
        major: ((device >> 8) & 0x0fff) | ((device >> 32) & 0xffff_f000),
        minor: (device & 0x00ff) | ((device >> 12) & 0xffff_ff00),
    }
}

/// A `dev_t` that holds a device number, as `makedev` makes it.
pub open spec fn encoded_device(major: u64, minor: u64) -> u64 {
    ((major & 0x0fff) << 8) | ((major & 0xffff_f000) << 32) | (minor & 0x00ff) | ((minor
        & 0xffff_ff00) << 12)
}

/// Every pair of 32-bit numbers that was made into a `dev_t` is taken apart into the same pair.
pub proof fn decoding_undoes_encoding(major: u32, minor: u32)
    ensures
        decoded_device(encoded_device(major as u64, minor as u64)) == (DeviceNumber {
            major: major as u64,
            minor: minor as u64,
        }),
{
    let high = major as u64;
    let low = minor as u64;
    let device = encoded_device(high, low);
    assert(((device >> 8) & 0x0fff) | ((device >> 32) & 0xffff_f000) == high) by (bit_vector)
        requires
            high <= 0xffff_ffff,
            low <= 0xffff_ffff,
            device == ((high & 0x0fff) << 8) | ((high & 0xffff_f000) << 32) | (low & 0x00ff) | ((
            low & 0xffff_ff00) << 12),
    ;
    assert((device & 0x00ff) | ((device >> 12) & 0xffff_ff00) == low) by (bit_vector)
        requires
            high <= 0xffff_ffff,
            low <= 0xffff_ffff,
            device == ((high & 0x0fff) << 8) | ((high & 0xffff_f000) << 32) | (low & 0x00ff) | ((
            low & 0xffff_ff00) << 12),
    ;
}

// ---------------------------------------------------------------------------------------------
// The attributes of the selected device
// ---------------------------------------------------------------------------------------------

/// What a read of an attribute file gave.
pub type AttributeRead = Result<String, LookFailure>;

/// The error for an attribute file that could not be read.
pub open spec fn read_fault(failure: LookFailure) -> WorkerErrorView {
    match failure {
        LookFailure::NotFound(_) => WorkerErrorView::TargetMissing,
        LookFailure::Failed(cause) => WorkerErrorView::Platform(cause@),
    }
}

/// What an attribute file holds, without the white space around it.
pub open spec fn attribute(read: AttributeRead) -> Result<Seq<char>, WorkerErrorView> {
    match read {
        Ok(contents) => Ok(text::trimmed(contents@)),
        Err(failure) => Err(read_fault(failure)),
    }
}

/// The device number in an attribute file.
pub open spec fn number_attribute(read: AttributeRead) -> Result<DeviceNumber, WorkerErrorView> {
    match attribute(read) {
        Err(fault) => Err(fault),
        Ok(value) => match device_number(value) {
            Some(device) => Ok(device),
            None => Err(bad_number()),
        },
    }
}

/// The positive number in an attribute file.
pub open spec fn positive_attribute(read: AttributeRead, label: Seq<char>) -> Result<
    u64,
    WorkerErrorView,
> {
    match attribute(read) {
        Err(fault) => Err(fault),
        Ok(value) => match text::parse_unsigned(value, u64::MAX as nat) {
            Ok(number) => if number > 0 {
                Ok(number as u64)
            } else {
                Err(WorkerErrorView::Platform("target "@ + label + " is invalid"@))
            },
            Err(_) => Err(WorkerErrorView::Platform("target "@ + label + " is invalid"@)),
        },
    }
}

/// Whether a result is the wanted one, its error taken by its view.
pub open spec fn is_result<T>(result: Result<T, WorkerError>, wanted: Result<T, WorkerErrorView>) ->
    bool {
    match result {
        Ok(value) => wanted == Ok::<T, WorkerErrorView>(value),
        Err(error) => wanted == Err::<T, WorkerErrorView>(error@),
    }
}

/// The error for a file that could not be read.
pub fn look_error(failure: &LookFailure) -> (error: WorkerError)
    ensures
        error@ == read_fault(*failure),
{
    match failure {
        LookFailure::NotFound(_) => WorkerError::TargetMissing,
        LookFailure::Failed(cause) => WorkerError::Platform(cause.clone()),
    }
}

/// What an attribute file holds, without the white space around it.
pub fn read_trimmed(read: &AttributeRead) -> (result: Result<String, WorkerError>)
    ensures
        match result {
            Ok(value) => attribute(*read) == Ok::<Seq<char>, WorkerErrorView>(value@),
            Err(error) => attribute(*read) == Err::<Seq<char>, WorkerErrorView>(error@),
        },
{
    match read {
        Ok(contents) => Ok(trim(contents.as_str())),
        Err(failure) => Err(look_error(failure)),
    }
}

/// The device number in an attribute file.
pub fn read_device_number(read: &AttributeRead) -> (result: Result<DeviceNumber, WorkerError>)
    ensures
        is_result(result, number_attribute(*read)),
{
    match read_trimmed(read) {
        Err(error) => Err(error),
        Ok(value) => parse_device_number(value.as_str()),
    }
}

/// The positive number in an attribute file.
pub fn read_positive_u64(read: &AttributeRead, label: &str) -> (result: Result<u64, WorkerError>)
    ensures
        is_result(result, positive_attribute(*read, label@)),
{
    match read_trimmed(read) {
        Err(error) => Err(error),
        Ok(value) => {
            match parse_bounded(value.as_str(), u64::MAX) {
                Ok(number) => {
                    if number > 0 {
                        return Ok(number);
                    }
                },
                Err(_) => {},
            }
            Err(WorkerError::Platform(join3("target ", label, " is invalid")))
        },
    }
}

/// What `/sys/block` holds of a device.
#[derive(Debug)]
pub struct DriveAttributes {
    /// Whether the directory of the device is there.
    pub present: bool,
    pub removable: AttributeRead,
    pub read_only: AttributeRead,
    pub diskseq: AttributeRead,
    pub size: AttributeRead,
    pub dev: AttributeRead,
}

/// A whole drive as the kernel describes it now.
#[derive(Clone, Debug, PartialEq, Eq)]
pub struct CurrentDrive {
    pub name: String,
    pub diskseq: u64,
    pub capacity: u64,
    pub device_number: DeviceNumber,
}

/// What a [`CurrentDrive`] holds.
pub struct CurrentDriveView {
    pub name: Seq<char>,
    pub diskseq: u64,
    pub capacity: u64,
    pub device_number: DeviceNumber,
}

impl View for CurrentDrive {
    type V = CurrentDriveView;

    open spec fn view(&self) -> CurrentDriveView {
        CurrentDriveView {
            name: self.name@,
            diskseq: self.diskseq,
            capacity: self.capacity,
            device_number: self.device_number,
        }
    }
}

/// Whether the kernel calls the device removable and writable.
pub open spec fn flags_fault(attributes: DriveAttributes) -> Option<WorkerErrorView> {
    match attribute(attributes.removable) {
        Err(fault) => Some(fault),
        Ok(removable) => if removable != "1"@ {
            Some(WorkerErrorView::UnsafeTarget)
        } else {
            match attribute(attributes.read_only) {
                Err(fault) => Some(fault),
                Ok(read_only) => if read_only != "0"@ {
                    Some(WorkerErrorView::UnsafeTarget)
                } else {
                    None
                },
            }
        },
    }
}

/// The drive that the attributes describe: a removable, writable one with a disk sequence number, a
/// size and a device number.
pub open spec fn current_drive(name: Seq<char>, attributes: DriveAttributes) -> Result<
    CurrentDriveView,
    WorkerErrorView,
> {
    if !linux::is_block_name(name) {
        Err(WorkerErrorView::UnsafeTarget)
    } else if !attributes.present {
        Err(WorkerErrorView::TargetMissing)
    } else {
        match flags_fault(attributes) {
            Some(fault) => Err(fault),
            None => match positive_attribute(attributes.diskseq, "diskseq"@) {
                Err(fault) => Err(fault),
                Ok(diskseq) => match positive_attribute(attributes.size, "device size"@) {
                    Err(fault) => Err(fault),
                    Ok(sectors) => if sectors * SECTOR_SIZE > u64::MAX {
                        Err(WorkerErrorView::Platform("target capacity overflow"@))
                    } else {
                        match number_attribute(attributes.dev) {
                            Err(fault) => Err(fault),
                            Ok(device_number) => Ok(
                                CurrentDriveView {
                                    name,
                                    diskseq,
                                    capacity: (sectors * SECTOR_SIZE) as u64,
                                    device_number,
                                },
                            ),
                        }
                    },
                },
            },
        }
    }
}

fn check_flags(attributes: &DriveAttributes) -> (result: Result<(), WorkerError>)
    ensures
        worker::is_verdict(result, flags_fault(*attributes)),
{
    match read_trimmed(&attributes.removable) {
        Err(error) => {
            return Err(error);
        },
        Ok(value) => {
            if !same_text(value.as_str(), "1") {
                return Err(WorkerError::UnsafeTarget);
            }
        },
    }
    match read_trimmed(&attributes.read_only) {
        Err(error) => Err(error),
        Ok(value) => {
            if !same_text(value.as_str(), "0") {
                return Err(WorkerError::UnsafeTarget);
            }
            Ok(())
        },
    }
}

/// Read the drive that the attributes describe.
pub fn inspect_current_drive(block_name: &str, attributes: &DriveAttributes) -> (result: Result<
    CurrentDrive,
    WorkerError,
>)
    ensures
        match result {
            Ok(drive) => current_drive(block_name@, *attributes) == Ok::<
                CurrentDriveView,
                WorkerErrorView,
            >(drive@),
            Err(error) => current_drive(block_name@, *attributes) == Err::<
                CurrentDriveView,
                WorkerErrorView,
            >(error@),
        },
{
    if !is_safe_id(block_name) {
        return Err(WorkerError::UnsafeTarget);
    }
    if !attributes.present {
        return Err(WorkerError::TargetMissing);
    }
    match check_flags(attributes) {
        Err(error) => {
            return Err(error);
        },
        Ok(()) => {},
    }
    let diskseq: u64 = match read_positive_u64(&attributes.diskseq, "diskseq") {
        Err(error) => {
            return Err(error);
        },
        Ok(value) => value,
    };
    let sectors: u64 = match read_positive_u64(&attributes.size, "device size") {
        Err(error) => {
            return Err(error);
        },
        Ok(value) => value,
    };
    let capacity: u64 = match sectors.checked_mul(SECTOR_SIZE) {
        Some(capacity) => capacity,
        None => {
            return Err(WorkerError::Platform("target capacity overflow".to_owned()));
        },
    };
    match read_device_number(&attributes.dev) {
        Err(error) => Err(error),
        Ok(device_number) => Ok(
            CurrentDrive { name: block_name.to_owned(), diskseq, capacity, device_number },
        ),
    }
}

impl CurrentDriveView {
    /// The identity under which the drive is offered.
    pub open spec fn identity(self) -> WorkerDriveView {
        WorkerDriveView {
            id: linux::stable_identifier(self.name, self.diskseq as nat),
            device: linux::device_path(self.name),
            capacity: self.capacity,
        }
    }
}

impl CurrentDrive {
    /// The identity under which the drive is offered.
    pub fn identity(&self) -> (drive: WorkerDrive)
        ensures
            drive@ == self@.identity(),
    {
        WorkerDrive {
            id: format_stable_identifier(self.name.as_str(), self.diskseq),
            device: join2("/dev/", self.name.as_str()),
            capacity: self.capacity,
        }
    }
}

// ---------------------------------------------------------------------------------------------
// Device nodes
// ---------------------------------------------------------------------------------------------

/// What a look at a device node or an opened device shows.
#[derive(Clone, Copy, Debug, PartialEq, Eq)]
pub struct NodeFacts {
    pub is_symlink: bool,
    pub is_block_device: bool,
    /// The `dev_t` of the device that the node stands for.
    pub rdev: u64,
}

/// Why a node does not stand for the expected device.
pub open spec fn node_fault(facts: NodeFacts, expected: DeviceNumber) -> Option<WorkerErrorView> {
    if !facts.is_block_device {
        Some(WorkerErrorView::UnsafeTarget)
    } else if decoded_device(facts.rdev) != expected {
        Some(WorkerErrorView::TargetChanged)
    } else {
        None
    }
}

/// Why the node at a path does not stand for the expected device.
pub open spec fn path_node_fault(
    look: Result<NodeFacts, LookFailure>,
    expected: DeviceNumber,
) -> Option<WorkerErrorView> {
    match look {
        Err(failure) => Some(read_fault(failure)),
        Ok(facts) => if facts.is_symlink {
            Some(WorkerErrorView::UnsafeTarget)
        } else {
            node_fault(facts, expected)
        },
    }
}

/// Why an opened file is not the expected device.
pub open spec fn opened_node_fault(look: Result<NodeFacts, String>, expected: DeviceNumber) ->
    Option<WorkerErrorView> {
    match look {
        Err(cause) => Some(WorkerErrorView::Platform(cause@)),
        Ok(facts) => node_fault(facts, expected),
    }
}

fn check_node(facts: &NodeFacts, expected: DeviceNumber) -> (result: Result<(), WorkerError>)
    ensures
        worker::is_verdict(result, node_fault(*facts, expected)),
{
    if !facts.is_block_device {
        return Err(WorkerError::UnsafeTarget);
    }
    if decode_linux_device(facts.rdev) != expected {
        return Err(WorkerError::TargetChanged);
    }
    Ok(())
}

/// Check that the node at a path stands for the expected device.
pub fn validate_device_node(look: &Result<NodeFacts, LookFailure>, expected: DeviceNumber) -> (
    result: Result<(), WorkerError>)
    ensures
        worker::is_verdict(result, path_node_fault(*look, expected)),
{
    match look {
        Err(failure) => Err(look_error(failure)),
        Ok(facts) => {
            if facts.is_symlink {
                return Err(WorkerError::UnsafeTarget);
            }
            check_node(facts, expected)
        },
    }
}

/// Check that an opened file is the expected device.
pub fn validate_opened_device(look: &Result<NodeFacts, String>, expected: DeviceNumber) -> (result:
    Result<(), WorkerError>)
    ensures
        worker::is_verdict(result, opened_node_fault(*look, expected)),
{
    match look {
        Err(cause) => Err(WorkerError::Platform(cause.clone())),
        Ok(facts) => check_node(facts, expected),
    }
}

/// A text is read as a device number only where it is two runs of digits around a colon, and then as
/// the two numbers that they spell.
pub proof fn device_number_is_two_numbers(value: Seq<char>, device: DeviceNumber)
    requires
        device_number(value) == Some(device),
    ensures
        ({
            let at = text::find(value, ':');
            let (major, minor) = (value.take(at), value.subrange(at + 1, value.len() as int));
            &&& value == major + ":"@ + minor
            &&& major.len() > 0 && text::all_digits(major) && text::digits_value(major)
                == device.major
            &&& minor.len() > 0 && text::all_digits(minor) && text::digits_value(minor)
                == device.minor
        }),
{
    let at = text::find(value, ':');
    text::find_bounds(value, ':');
    reveal_strlit(":");
    assert(value =~= value.take(at) + ":"@ + value.subrange(at + 1, value.len() as int));
}

/// The kernel's attributes describe a drive exactly where the name is that of a block device that is
/// there, it is removable and writable, and its sequence number, its size and its device number can
/// be read; its capacity is its sectors of 512 bytes each.
pub proof fn described_drive_is_removable_and_writable(
    name: Seq<char>,
    attributes: DriveAttributes,
)
    ensures
        current_drive(name, attributes) is Ok <==> {
            &&& linux::is_block_name(name)
            &&& attributes.present
            &&& attributes.removable matches Ok(removable)
            &&& text::trimmed(removable@) == "1"@
            &&& attributes.read_only matches Ok(read_only)
            &&& text::trimmed(read_only@) == "0"@
            &&& attributes.diskseq matches Ok(diskseq)
            &&& text::parse_unsigned(
                text::trimmed(diskseq@),
                u64::MAX as nat,
            ) matches Ok(sequence)
            &&& sequence > 0
            &&& attributes.size matches Ok(size)
            &&& text::parse_unsigned(text::trimmed(size@), u64::MAX as nat) matches Ok(sectors)
            &&& sectors > 0 && sectors * 512 <= u64::MAX
            &&& attributes.dev matches Ok(dev)
            &&& device_number(text::trimmed(dev@)) is Some
        },
        current_drive(name, attributes) matches Ok(drive) ==> {
            &&& drive.name == name
            &&& text::parse_unsigned(
                text::trimmed(attributes.diskseq->Ok_0@),
                u64::MAX as nat,
            ) matches Ok(sequence) && sequence == drive.diskseq
            &&& text::parse_unsigned(
                text::trimmed(attributes.size->Ok_0@),
                u64::MAX as nat,
            ) matches Ok(sectors) && sectors * 512 == drive.capacity
            &&& device_number(text::trimmed(attributes.dev->Ok_0@)) == Some(drive.device_number)
        },
{
    if let Ok(value) = attributes.diskseq {
        text::number_is_what_its_digits_spell(text::trimmed(value@), 0, u64::MAX as nat);
    }
    if let Ok(value) = attributes.size {
        text::number_is_what_its_digits_spell(text::trimmed(value@), 0, u64::MAX as nat);
    }
}

/// An attribute that is not there means that the target is gone, and one that cannot be read is a
/// failure of the platform with its cause.
pub proof fn absent_attribute_means_a_missing_target(failure: LookFailure)
    ensures
        failure is NotFound ==> read_fault(failure) is TargetMissing,
        failure matches LookFailure::Failed(cause) ==> read_fault(failure)
            == WorkerErrorView::Platform(cause@),
{
}

/// A node stands for the expected device exactly where it is a block device with its number, at a
/// path without being a link; a node that is none is unsafe, and one of another device has changed.
pub proof fn node_is_the_expected_block_device(facts: NodeFacts, expected: DeviceNumber)
    ensures
        opened_node_fault(Ok(facts), expected) is None <==> facts.is_block_device
            && decoded_device(facts.rdev) == expected,
        path_node_fault(Ok(facts), expected) is None <==> !facts.is_symlink
            && facts.is_block_device && decoded_device(facts.rdev) == expected,
        facts.is_block_device && decoded_device(facts.rdev) != expected ==> opened_node_fault(
            Ok(facts),
            expected,
        ) == Some(WorkerErrorView::TargetChanged),
        !facts.is_block_device ==> opened_node_fault(Ok(facts), expected) == Some(
            WorkerErrorView::UnsafeTarget,
        ),
{
}

} // verus!
