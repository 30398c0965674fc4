//! Mounted file systems and active swap, as the kernel lists them.

use vstd::prelude::*;
use vstd::string::*;
use vstd::utf8::*;

use crate::text;
use crate::text::{fields_of, lines_of, same_text, trim};
use crate::worker;
use crate::worker::linux::devices;
use crate::worker::linux::devices::{decode_linux_device, parse_device_number, DeviceNumber};
use crate::worker::linux::related::is_among;
use crate::worker::{WorkerError, WorkerErrorView};

verus! {

broadcast use vstd::seq_lib::group_seq_properties;

// ---------------------------------------------------------------------------------------------
// Escaped fields
// ---------------------------------------------------------------------------------------------

/// The byte that marks an escape.
pub const BACKSLASH: u8 = 92;

/// The digit zero.
pub const ZERO: u8 = 48;

/// Whether a byte is an octal digit.
pub open spec fn is_octal(byte: u8) -> bool {
    ZERO <= byte <= ZERO + 7
}

/// The number that three octal digits spell.
pub open spec fn octal_value(a: u8, b: u8, c: u8) -> int {
    (a - ZERO) * 64 + (b - ZERO) * 8 + (c - ZERO)
}

/// The bytes that a field stands for. A backslash and three octal digits stand for one byte.
pub open spec fn decoded_field(bytes: Seq<u8>) -> Result<Seq<u8>, WorkerErrorView>
    decreases bytes.len(),
{
    if bytes.len() == 0 {
        Ok(Seq::empty())
    } else if bytes[0] != BACKSLASH {
        match decoded_field(bytes.subrange(1, bytes.len() as int)) {
            Ok(rest) => Ok(seq![bytes[0]] + rest),
            Err(fault) => Err(fault),
        }
    } else if bytes.len() < 4 {
        Err(WorkerErrorView::Platform("mountinfo contained a truncated escape"@))
    } else if !is_octal(bytes[1]) || !is_octal(bytes[2]) || !is_octal(bytes[3]) || octal_value(
        bytes[1],
        bytes[2],
        bytes[3],
    ) > 255 {
        Err(WorkerErrorView::Platform("mountinfo contained an invalid escape"@))
    } else {
        match decoded_field(bytes.subrange(4, bytes.len() as int)) {
            Ok(rest) => Ok(seq![octal_value(bytes[1], bytes[2], bytes[3]) as u8] + rest),
            Err(fault) => Err(fault),
        }
    }
}

/// A decoded beginning, with what the rest decodes to.
spec fn continued(start: Seq<u8>, rest: Result<Seq<u8>, WorkerErrorView>) -> Result<
    Seq<u8>,
    WorkerErrorView,
> {
    match rest {
        Ok(bytes) => Ok(start + bytes),
        Err(fault) => Err(fault),
    }
}

/// Decode a field.
pub fn decode_mountinfo_field(value: &str) -> (result: Result<Vec<u8>, WorkerError>)
    ensures
        match result {
            Ok(bytes) => decoded_field(encode_utf8(value@)) == Ok::<Seq<u8>, WorkerErrorView>(
                bytes@,
            ),
            Err(error) => decoded_field(encode_utf8(value@)) == Err::<Seq<u8>, WorkerErrorView>(
                error@,
            ),
        },
{
    let bytes: &[u8] = value.as_bytes();
    let ghost all = encode_utf8(value@);
    let mut decoded: Vec<u8> = Vec::new();
    let mut index: usize = 0;
    assert(all.subrange(0, all.len() as int) =~= all);
    assert(continued(decoded@, decoded_field(all)) == decoded_field(all)) by {
        if let Ok(rest) = decoded_field(all) {
            assert(Seq::<u8>::empty() + rest =~= rest);
        }
    }
    while index < bytes.len()
        invariant
            index <= bytes@.len(),
            bytes@ == all,
            all == encode_utf8(value@),
            decoded_field(all) == continued(
                decoded@,
                decoded_field(all.subrange(index as int, all.len() as int)),
            ),
        decreases bytes@.len() - index,
    {
        let ghost rest = all.subrange(index as int, all.len() as int);
        let ghost before = decoded@;
        if bytes[index] != BACKSLASH {
            assert(rest.subrange(1, rest.len() as int) =~= all.subrange(
                index as int + 1,
                all.len() as int,
            ));
            decoded.push(bytes[index]);
            proof {
                if let Ok(tail) = decoded_field(
                    all.subrange(index as int + 1, all.len() as int),
                ) {
                    assert(before + (seq![rest[0]] + tail) =~= decoded@ + tail);
                }
            }
            index += 1;
        } else {
            if bytes.len() - index < 4 {
                return Err(
                    WorkerError::Platform("mountinfo contained a truncated escape".to_owned()),
                );
            }
            let a: u8 = bytes[index + 1];
            let b: u8 = bytes[index + 2];
            let c: u8 = bytes[index + 3];
            assert(rest[1] == a && rest[2] == b && rest[3] == c);
            if a < ZERO || a > ZERO + 7 || b < ZERO || b > ZERO + 7 || c < ZERO || c > ZERO + 7 || a
                > ZERO + 3 {
                return Err(
                    WorkerError::Platform("mountinfo contained an invalid escape".to_owned()),
                );
            }
            let value: u8 = (a - ZERO) * 64 + (b - ZERO) * 8 + (c - ZERO);
            assert(rest.subrange(4, rest.len() as int) =~= all.subrange(
                index as int + 4,
                all.len() as int,
            ));
            decoded.push(value);
            proof {
                if let Ok(tail) = decoded_field(
                    all.subrange(index as int + 4, all.len() as int),
                ) {
                    assert(before + (seq![value] + tail) =~= decoded@ + tail);
                }
            }
            index += 4;
        }
    }
    proof {
        assert(all.subrange(all.len() as int, all.len() as int) =~= Seq::empty());
        assert(decoded@ + Seq::<u8>::empty() =~= decoded@);
    }
    Ok(decoded)
}

// ---------------------------------------------------------------------------------------------
// Mounts
// ---------------------------------------------------------------------------------------------

/// A mounted file system: the device that it is on, and the bytes of the path where it is mounted.
#[derive(Clone, Debug, PartialEq, Eq)]
pub struct Mount {
    pub device: DeviceNumber,
    pub path: Vec<u8>,
}

/// What a [`Mount`] holds.
#[verifier::ext_equal]
pub struct MountView {
    pub device: DeviceNumber,
    pub path: Seq<u8>,
}

impl View for Mount {
    type V = MountView;

    open spec fn view(&self) -> MountView {
        MountView { device: self.device, path: self.path@ }
    }
}

/// The views of some mounts.
pub open spec fn mount_views(mounts: Seq<Mount>) -> Seq<MountView> {
    mounts.map_values(|mount: Mount| mount@)
}

/// The mount that a record describes.
pub open spec fn record_mount(line: Seq<char>) -> Result<MountView, WorkerErrorView> {
    let fields = text::fields(line);
    if fields.len() < 6 || !fields.contains("-"@) {
        Err(WorkerErrorView::Platform("kernel mountinfo contained an invalid record"@))
    } else {
        match devices::device_number(fields[2]) {
            None => Err(devices::bad_number()),
            Some(device) => match decoded_field(encode_utf8(fields[4])) {
                Err(fault) => Err(fault),
                Ok(path) => Ok(MountView { device, path }),
            },
        }
    }
}

/// The mounts that some lines describe, or the first fault. Lines of white space say nothing.
pub open spec fn line_mounts(lines: Seq<Seq<char>>) -> Result<Seq<MountView>, WorkerErrorView>
    decreases lines.len(),
{
    if lines.len() == 0 {
        Ok(Seq::empty())
    } else {
        match line_mounts(lines.drop_last()) {
            Err(fault) => Err(fault),
            Ok(before) => if text::trimmed(lines.last()).len() == 0 {
                Ok(before)
            } else {
                match record_mount(lines.last()) {
                    Err(fault) => Err(fault),
                    Ok(mount) => Ok(before.push(mount)),
                }
            },
        }
    }
}

/// The mounts that the kernel's list describes.
pub open spec fn listed_mounts(contents: Seq<char>) -> Result<Seq<MountView>, WorkerErrorView> {
    line_mounts(text::lines(contents))
}

proof fn first_bad_line_stays(lines: Seq<Seq<char>>, upto: int)
    requires
        0 <= upto <= lines.len(),
        line_mounts(lines.take(upto)) is Err,
    ensures
        line_mounts(lines) == line_mounts(lines.take(upto)),
    decreases lines.len() - upto,
{
    if upto < lines.len() {
        assert(lines.take(upto + 1).drop_last() =~= lines.take(upto));
        first_bad_line_stays(lines, upto + 1);
    } else {
        assert(lines.take(upto) =~= lines);
    }
}

fn holds_dash(fields: &Vec<String>) -> (result: bool)
    ensures
        result == text::texts(fields@).contains("-"@),
{
    let ghost all = text::texts(fields@);
    let mut index: usize = 0;
    while index < fields.len()
        invariant
            index <= fields@.len(),
            all == text::texts(fields@),
            forall|i: int| 0 <= i < index ==> all[i] != "-"@,
        decreases fields@.len() - index,
    {
        if same_text(fields[index].as_str(), "-") {
            assert(all[index as int] == "-"@);
            return true;
        }
        index += 1;
    }
    false
}

fn parse_record(line: &str) -> (result: Result<Mount, WorkerError>)
    ensures
        match result {
            Ok(mount) => record_mount(line@) == Ok::<MountView, WorkerErrorView>(mount@),
            Err(error) => record_mount(line@) == Err::<MountView, WorkerErrorView>(error@),
        },
{
    let fields = fields_of(line);
    let ghost all = text::fields(line@);
    assert(all.len() == fields@.len());
    if fields.len() < 6 || !holds_dash(&fields) {
        return Err(
            WorkerError::Platform("kernel mountinfo contained an invalid record".to_owned()),
        );
    }
    assert(all[2] == fields@[2]@ && all[4] == fields@[4]@);
    match parse_device_number(fields[2].as_str()) {
        Err(error) => Err(error),
        Ok(device) => match decode_mountinfo_field(fields[4].as_str()) {
            Err(error) => Err(error),
            Ok(path) => Ok(Mount { device, path }),
        },
    }
}

/// Read the kernel's list of mounts.
pub fn parse_mountinfo(contents: &str) -> (result: Result<Vec<Mount>, WorkerError>)
    ensures
        match result {
            Ok(mounts) => listed_mounts(contents@) == Ok::<Seq<MountView>, WorkerErrorView>(
                mount_views(mounts@),
            ),
            Err(error) => listed_mounts(contents@) == Err::<Seq<MountView>, WorkerErrorView>(
                error@,
            ),
        },
{
    let lines = lines_of(contents);
    let ghost all = text::lines(contents@);
    let mut mounts: Vec<Mount> = Vec::new();
    let mut index: usize = 0;
    assert(all.take(0) =~= Seq::empty());
    assert(mount_views(mounts@) =~= Seq::empty());
    while index < lines.len()
        invariant
            index <= lines@.len(),
            all == text::lines(contents@),
            text::texts(lines@) == all,
            line_mounts(all.take(index as int)) == Ok::<Seq<MountView>, WorkerErrorView>(
                mount_views(mounts@),
            ),
        decreases lines@.len() - index,
    {
        let line: &str = lines[index].as_str();
        let ghost upto = all.take(index as int + 1);
        assert(upto.drop_last() =~= all.take(index as int));
        assert(upto.last() == line@);
        let kept = trim(line);
        if !kept.as_str().is_empty() {
            match parse_record(line) {
                Err(error) => {
                    proof {
                        first_bad_line_stays(all, index as int + 1);
                    }
                    return Err(error);
                },
                Ok(mount) => {
                    let ghost before = mount_views(mounts@);
                    mounts.push(mount);
                    assert(mount_views(mounts@) =~= before.push(mount@));
                },
            }
        }
        index += 1;
    }
    assert(all.take(all.len() as int) =~= all);
    Ok(mounts)
}

/// The mounts on one of some devices, in their order.
pub open spec fn mounts_on(mounts: Seq<MountView>, devices: Seq<DeviceNumber>) -> Seq<MountView>
    decreases mounts.len(),
{
    if mounts.len() == 0 {
        Seq::empty()
    } else {
        let before = mounts_on(mounts.drop_last(), devices);
        if devices.contains(mounts.last().device) {
            before.push(mounts.last())
        } else {
            before
        }
    }
}

/// The mounts on one of some devices.
pub fn select_mounts(mounts: Vec<Mount>, devices: &Vec<DeviceNumber>) -> (result: Vec<Mount>)
    ensures
        mount_views(result@) == mounts_on(mount_views(mounts@), devices@),
{
    let ghost all = mount_views(mounts@);
    let mut result: Vec<Mount> = Vec::new();
    let mut index: usize = 0;
    assert(all.take(0) =~= Seq::empty());
    assert(mount_views(result@) =~= Seq::empty());
    while index < mounts.len()
        invariant
            index <= mounts@.len(),
            all == mount_views(mounts@),
            mount_views(result@) == mounts_on(all.take(index as int), devices@),
        decreases mounts@.len() - index,
    {
        let ghost upto = all.take(index as int + 1);
        assert(upto.drop_last() =~= all.take(index as int));
        assert(upto.last() == mounts@[index as int]@);
        if is_among(devices, mounts[index].device) {
            let ghost before = mount_views(result@);
            let mount = mounts[index].copy();
            result.push(mount);
            assert(mount_views(result@) =~= before.push(mount@));
        }
        index += 1;
    }
    assert(all.take(all.len() as int) =~= all);
    result
}

impl Mount {
    /// A copy of the mount.
    pub fn copy(&self) -> (result: Mount)
        ensures
            result@ == self@,
    {
        Mount { device: self.device, path: copy_bytes(&self.path) }
    }
}

fn copy_bytes(bytes: &Vec<u8>) -> (result: Vec<u8>)
    ensures
        result@ == bytes@,
{
    let mut result: Vec<u8> = Vec::new();
    let mut index: usize = 0;
    while index < bytes.len()
        invariant
            index <= bytes@.len(),
            result@ == bytes@.take(index as int),
        decreases bytes@.len() - index,
    {
        result.push(bytes[index]);
        assert(bytes@.take(index as int + 1) =~= bytes@.take(index as int).push(
            bytes@[index as int],
        ));
        index += 1;
    }
    assert(bytes@.take(bytes@.len() as int) =~= bytes@);
    result
}

/// The paths of some mounts.
pub open spec fn mount_paths(mounts: Seq<MountView>) -> Seq<Seq<u8>> {
    mounts.map_values(|mount: MountView| mount.path)
}

/// The views of some byte strings.
pub open spec fn byte_views(paths: Seq<Vec<u8>>) -> Seq<Seq<u8>> {
    paths.map_values(|path: Vec<u8>| path@)
}

/// Where file systems on one of some devices are mounted.
pub fn mounted_paths(mountinfo: &str, devices: &Vec<DeviceNumber>) -> (result: Result<
    Vec<Vec<u8>>,
    WorkerError,
>)
    ensures
        match (result, listed_mounts(mountinfo@)) {
            (Ok(paths), Ok(mounts)) => byte_views(paths@) == mount_paths(
                mounts_on(mounts, devices@),
            ),
            (Err(error), Err(fault)) => error@ == fault,
            _ => false,
        },
{
    let mounts = match parse_mountinfo(mountinfo) {
        Err(error) => {
            return Err(error);
        },
        Ok(mounts) => select_mounts(mounts, devices),
    };
    let ghost wanted = mount_paths(mount_views(mounts@));
    let mut paths: Vec<Vec<u8>> = Vec::new();
    let mut index: usize = 0;
    assert(byte_views(paths@) =~= wanted.take(0));
    while index < mounts.len()
        invariant
            index <= mounts@.len(),
            wanted == mount_paths(mount_views(mounts@)),
            byte_views(paths@) == wanted.take(index as int),
        decreases mounts@.len() - index,
    {
        let ghost before = byte_views(paths@);
        let path = copy_bytes(&mounts[index].path);
        paths.push(path);
        assert(byte_views(paths@) =~= before.push(path@));
        assert(wanted.take(index as int + 1) =~= wanted.take(index as int).push(
            wanted[index as int],
        ));
        index += 1;
    }
    assert(wanted.take(wanted.len() as int) =~= wanted);
    Ok(paths)
}

// ---------------------------------------------------------------------------------------------
// Places
// ---------------------------------------------------------------------------------------------

/// The byte that separates the components of a path.
pub const SLASH: u8 = 47;

/// What the separators of a path leave between.
pub open spec fn byte_pieces(path: Seq<u8>) -> Seq<Seq<u8>>
    decreases path.len(),
{
    if path.len() == 0 {
        seq![Seq::empty()]
    } else {
        let before = byte_pieces(path.drop_last());
        if path.last() == SLASH {
            before.push(Seq::empty())
        } else {
            before.drop_last().push(before.last().push(path.last()))
        }
    }
}

/// The components of a path: a single dot counts only at the start of a relative path.
pub open spec fn kept_pieces(pieces: Seq<Seq<u8>>, absolute: bool) -> Seq<Seq<u8>>
    decreases pieces.len(),
{
    if pieces.len() == 0 {
        Seq::empty()
    } else {
        let before = kept_pieces(pieces.drop_last(), absolute);
        let last = pieces.last();
        if last.len() == 0 || (last == seq![46u8] && (absolute || pieces.len() > 1)) {
            before
        } else {
            before.push(last)
        }
    }
}

/// Whether a path starts at the root.
pub open spec fn is_absolute_bytes(path: Seq<u8>) -> bool {
    path.len() > 0 && path[0] == SLASH
}

/// The components of a path, without the root.
pub open spec fn byte_parts(path: Seq<u8>) -> Seq<Seq<u8>> {
    kept_pieces(byte_pieces(path), is_absolute_bytes(path))
}

/// How many components a path has, with the root.
pub open spec fn depth(path: Seq<u8>) -> int {
    byte_parts(path).len() + if is_absolute_bytes(path) {
        1int
    } else {
        0int
    }
}

fn split_bytes(path: &Vec<u8>) -> (result: Vec<Vec<u8>>)
    ensures
        byte_views(result@) == byte_pieces(path@),
{
    let mut result: Vec<Vec<u8>> = Vec::new();
    let mut current: Vec<u8> = Vec::new();
    let mut index: usize = 0;
    assert(path@.take(0) =~= Seq::<u8>::empty());
    assert(byte_views(result@).push(current@) =~= byte_pieces(path@.take(0)));
    while index < path.len()
        invariant
            index <= path@.len(),
            byte_views(result@).push(current@) == byte_pieces(path@.take(index as int)),
        decreases path@.len() - index,
    {
        let byte: u8 = path[index];
        let ghost upto = path@.take(index as int + 1);
        let ghost before = byte_views(result@).push(current@);
        assert(upto.drop_last() =~= path@.take(index as int));
        assert(upto.last() == byte);
        if byte == SLASH {
            result.push(current);
            current = Vec::new();
            assert(byte_views(result@) =~= before);
            assert(current@ =~= Seq::<u8>::empty());
        } else {
            assert(before.drop_last() =~= byte_views(result@));
            current.push(byte);
        }
        index += 1;
    }
    assert(path@.take(path@.len() as int) =~= path@);
    let ghost whole = byte_views(result@).push(current@);
    result.push(current);
    assert(byte_views(result@) =~= whole);
    result
}

fn parts_of(path: &Vec<u8>) -> (result: Vec<Vec<u8>>)
    ensures
        byte_views(result@) == byte_parts(path@),
{
    let absolute = path.len() > 0 && path[0] == SLASH;
    let pieces = split_bytes(path);
    let ghost all = byte_pieces(path@);
    let mut result: Vec<Vec<u8>> = Vec::new();
    let mut index: usize = 0;
    assert(all.take(0) =~= Seq::empty());
    assert(byte_views(result@) =~= Seq::empty());
    while index < pieces.len()
        invariant
            index <= pieces@.len(),
            all == byte_views(pieces@),
            byte_views(result@) == kept_pieces(all.take(index as int), absolute),
        decreases pieces@.len() - index,
    {
        let ghost upto = all.take(index as int + 1);
        assert(upto.drop_last() =~= all.take(index as int));
        assert(upto.last() == pieces@[index as int]@);
        let dot = pieces[index].len() == 1 && pieces[index][0] == 46;
        assert(dot == (pieces@[index as int]@ == seq![46u8])) by {
            if dot {
                assert(pieces@[index as int]@ =~= seq![46u8]);
            }
        }
        if !(pieces[index].len() == 0 || (dot && (absolute || index > 0))) {
            let ghost before = byte_views(result@);
            let piece = copy_bytes(&pieces[index]);
            result.push(piece);
            assert(byte_views(result@) =~= before.push(piece@));
        }
        index += 1;
    }
    assert(all.take(all.len() as int) =~= all);
    result
}

pub(crate) fn depth_of(path: &Vec<u8>) -> (result: u128)
    ensures
        result == depth(path@),
{
    let parts = parts_of(path);
    assert(byte_parts(path@).len() == parts@.len());
    let count: u128 = parts.len() as u128;
    if path.len() > 0 && path[0] == SLASH {
        count + 1
    } else {
        count
    }
}

/// Whether a path lies in one of the conventional roots for removable media, or is one.
pub open spec fn is_removable_place(path: Seq<u8>) -> bool {
    let parts = byte_parts(path);
    &&& is_absolute_bytes(path)
    &&& parts.len() > 0
    &&& {
        ||| parts[0] == encode_utf8("media"@)
        ||| parts[0] == encode_utf8("mnt"@)
        ||| parts[0] == encode_utf8("run"@) && parts.len() > 1 && parts[1] == encode_utf8("media"@)
    }
}

fn same_bytes(left: &Vec<u8>, right: &[u8]) -> (same: bool)
    ensures
        same == (left@ == right@),
{
    if left.len() != right.len() {
        return false;
    }
    let mut index: usize = 0;
    while index < left.len()
        invariant
            index <= left@.len(),
            left@.len() == right@.len(),
            forall|i: int| 0 <= i < index ==> left@[i] == right@[i],
        decreases left@.len() - index,
    {
        if left[index] != right[index] {
            assert(left@[index as int] != right@[index as int]);
            return false;
        }
        index += 1;
    }
    assert(left@ =~= right@);
    true
}

/// Whether a mount at this place must not be unmounted: every place outside the conventional roots
/// for removable media may belong to the running system.
pub fn protected_mount_point(path: &Vec<u8>) -> (result: bool)
    ensures
        result == !is_removable_place(path@),
{
    if path.len() == 0 || path[0] != SLASH {
        return true;
    }
    let parts = parts_of(path);
    assert(byte_parts(path@).len() == parts@.len());
    if parts.len() == 0 {
        return true;
    }
    assert(byte_parts(path@)[0] == parts@[0]@);
    if same_bytes(&parts[0], "media".as_bytes()) || same_bytes(&parts[0], "mnt".as_bytes()) {
        return false;
    }
    if parts.len() > 1 {
        assert(byte_parts(path@)[1] == parts@[1]@);
    }
    !(same_bytes(&parts[0], "run".as_bytes()) && parts.len() > 1 && same_bytes(
        &parts[1],
        "media".as_bytes(),
    ))
}

/// Whether one of some mounts is on one of some devices and must not be unmounted.
pub open spec fn holds_protected_mount(
    mounts: Seq<MountView>,
    devices: Seq<DeviceNumber>,
) -> bool {
    exists|i: int|
        0 <= i < mounts.len() && devices.contains((#[trigger] mounts[i]).device)
            && !is_removable_place(mounts[i].path)
}

/// Why the mounts of some devices are refused.
pub open spec fn mounts_fault(mountinfo: Seq<char>, devices: Seq<DeviceNumber>) -> Option<
    WorkerErrorView,
> {
    match listed_mounts(mountinfo) {
        Err(fault) => Some(fault),
        Ok(mounts) => if holds_protected_mount(mounts, devices) {
            Some(WorkerErrorView::UnsafeTarget)
        } else {
            None
        },
    }
}

/// Refuse devices that are mounted anywhere but where removable media are.
pub fn reject_protected_mounts(mountinfo: &str, devices: &Vec<DeviceNumber>) -> (result: Result<
    (),
    WorkerError,
>)
    ensures
        worker::is_verdict(result, mounts_fault(mountinfo@, devices@)),
{
    let mounts = match parse_mountinfo(mountinfo) {
        Err(error) => {
            return Err(error);
        },
        Ok(mounts) => mounts,
    };
    let ghost all = mount_views(mounts@);
    let mut index: usize = 0;
    while index < mounts.len()
        invariant
            index <= mounts@.len(),
            all == mount_views(mounts@),
            listed_mounts(mountinfo@) == Ok::<Seq<MountView>, WorkerErrorView>(all),
            forall|i: int|
                0 <= i < index ==> !(devices@.contains((#[trigger] all[i]).device)
                    && !is_removable_place(all[i].path)),
        decreases mounts@.len() - index,
    {
        assert(all[index as int] == mounts@[index as int]@);
        if is_among(devices, mounts[index].device) && protected_mount_point(&mounts[index].path) {
            return Err(WorkerError::UnsafeTarget);
        }
        index += 1;
    }
    Ok(())
}

// ---------------------------------------------------------------------------------------------
// Swap
// ---------------------------------------------------------------------------------------------

/// The sources that the lines of the kernel's swap list name, behind its heading. A source that
/// cannot be read holds the fault.
pub open spec fn swap_records(lines: Seq<Seq<char>>) -> Seq<Result<Seq<u8>, WorkerErrorView>>
    decreases lines.len(),
{
    if lines.len() <= 1 {
        Seq::empty()
    } else {
        let before = swap_records(lines.drop_last());
        if text::trimmed(lines.last()).len() == 0 || text::fields(lines.last()).len() == 0 {
            before
        } else {
            before.push(decoded_field(encode_utf8(text::fields(lines.last())[0])))
        }
    }
}

/// What a look at a swap source shows.
#[derive(Clone, Copy, Debug, PartialEq, Eq)]
pub struct SwapSource {
    pub is_block_device: bool,
    pub is_file: bool,
    /// The `dev_t` of the device that the source is.
    pub rdev: u64,
    /// The `dev_t` of the device that the source lies on.
    pub dev: u64,
}

impl SwapSource {
    /// The device that is swapped to.
    pub open spec fn device(self) -> Option<DeviceNumber> {
        if self.is_block_device {
            Some(devices::decoded_device(self.rdev))
        } else if self.is_file {
            Some(devices::decoded_device(self.dev))
        } else {
            None
        }
    }
}

/// Why one swap source is refused.
pub open spec fn source_fault(
    record: Result<Seq<u8>, WorkerErrorView>,
    source: Result<SwapSource, String>,
    devices: Seq<DeviceNumber>,
) -> Option<WorkerErrorView> {
    match record {
        Err(fault) => Some(fault),
        Ok(_) => match source {
            Err(cause) => Some(WorkerErrorView::Platform(cause@)),
            Ok(facts) => match facts.device() {
                Some(device) => if devices.contains(device) {
                    Some(WorkerErrorView::UnsafeTarget)
                } else {
                    None
                },
                None => None,
            },
        },
    }
}

/// Why the active swap is refused: the first source that is.
pub open spec fn swap_fault(
    records: Seq<Result<Seq<u8>, WorkerErrorView>>,
    sources: Seq<Result<SwapSource, String>>,
    devices: Seq<DeviceNumber>,
) -> Option<WorkerErrorView>
    decreases records.len(),
{
    if records.len() == 0 {
        None
    } else {
        match swap_fault(records.drop_last(), sources, devices) {
            Some(fault) => Some(fault),
            None => source_fault(records.last(), sources[records.len() - 1], devices),
        }
    }
}

proof fn first_source_fault_stays(
    records: Seq<Result<Seq<u8>, WorkerErrorView>>,
    sources: Seq<Result<SwapSource, String>>,
    devices: Seq<DeviceNumber>,
    upto: int,
)
    requires
        0 <= upto <= records.len(),
        swap_fault(records.take(upto), sources, devices) is Some,
    ensures
        swap_fault(records, sources, devices) == swap_fault(records.take(upto), sources, devices),
    decreases records.len() - upto,
{
    if upto < records.len() {
        assert(records.take(upto + 1).drop_last() =~= records.take(upto));
        first_source_fault_stays(records, sources, devices, upto + 1);
    } else {
        assert(records.take(upto) =~= records);
    }
}

/// What the records of a swap list are read as.
pub open spec fn record_views(records: Seq<Result<Vec<u8>, WorkerError>>) -> Seq<
    Result<Seq<u8>, WorkerErrorView>,
> {
    records.map_values(
        |record: Result<Vec<u8>, WorkerError>|
            match record {
                Ok(path) => Ok::<Seq<u8>, WorkerErrorView>(path@),
                Err(error) => Err::<Seq<u8>, WorkerErrorView>(error@),
            },
    )
}

/// The sources that the kernel's swap list names.
pub fn swap_sources(swaps: &str) -> (records: Vec<Result<Vec<u8>, WorkerError>>)
    ensures
        record_views(records@) == swap_records(text::lines(swaps@)),
{
    let lines = lines_of(swaps);
    let ghost all = text::lines(swaps@);
    let mut records: Vec<Result<Vec<u8>, WorkerError>> = Vec::new();
    let mut index: usize = 0;
    assert(record_views(records@) =~= swap_records(all.take(0)));
    while index < lines.len()
        invariant
            index <= lines@.len(),
            text::texts(lines@) == all,
            record_views(records@) == swap_records(all.take(index as int)),
        decreases lines@.len() - index,
    {
        let ghost upto = all.take(index as int + 1);
        assert(upto.drop_last() =~= all.take(index as int));
        let line: &str = lines[index].as_str();
        assert(upto.last() == line@);
        if index > 0 {
            let kept = trim(line);
            let fields = fields_of(line);
            assert(text::fields(line@).len() == fields@.len());
            if !kept.as_str().is_empty() && fields.len() > 0 {
                assert(text::fields(line@)[0] == fields@[0]@);
                let ghost before = record_views(records@);
                let record = decode_mountinfo_field(fields[0].as_str());
                let ghost added = decoded_field(encode_utf8(fields@[0]@));
                records.push(record);
                assert(record_views(records@) =~= before.push(added));
            }
        }
        index += 1;
    }
    assert(all.take(all.len() as int) =~= all);
    records
}

/// Refuse devices that the system swaps to. `sources` is what a look at each source that the list
/// names came to: one that cannot be inspected is ambiguous and therefore refused.
pub fn reject_related_swap(
    swaps: &str,
    sources: &Vec<Result<SwapSource, String>>,
    devices: &Vec<DeviceNumber>,
) -> (result: Result<(), WorkerError>)
    requires
        sources@.len() == swap_records(text::lines(swaps@)).len(),
    ensures
        worker::is_verdict(
            result,
            swap_fault(swap_records(text::lines(swaps@)), sources@, devices@),
        ),
{
    let records = swap_sources(swaps);
    let ghost all = record_views(records@);
    assert(all.len() == records@.len());
    let mut index: usize = 0;
    assert(all.take(0) =~= Seq::empty());
    while index < records.len()
        invariant
            index <= records@.len(),
            all == record_views(records@),
            all == swap_records(text::lines(swaps@)),
            sources@.len() == records@.len(),
            swap_fault(all.take(index as int), sources@, devices@) is None,
        decreases records@.len() - index,
    {
        let ghost upto = all.take(index as int + 1);
        assert(upto.drop_last() =~= all.take(index as int));
        assert(upto.last() == all[index as int]);
        let refused: Option<WorkerError> = match &records[index] {
            Err(error) => Some(error.copy()),
            Ok(_) => match &sources[index] {
                Err(cause) => Some(WorkerError::Platform(cause.clone())),
                Ok(facts) => {
                    let device: Option<DeviceNumber> = if facts.is_block_device {
                        Some(decode_linux_device(facts.rdev))
                    } else if facts.is_file {
                        Some(decode_linux_device(facts.dev))
                    } else {
                        None
                    };
                    match device {
                        Some(device) => if is_among(devices, device) {
                            Some(WorkerError::UnsafeTarget)
                        } else {
                            None
                        },
                        None => None,
                    }
                },
            },
        };
        match refused {
            Some(error) => {
                proof {
                    first_source_fault_stays(all, sources@, devices@, index as int + 1);
                }
                return Err(error);
            },
            None => {},
        }
        index += 1;
    }
    assert(all.take(all.len() as int) =~= all);
    Ok(())
}

/// The mounts on some devices are exactly those of the list whose device is one of them, in their
/// order.
pub proof fn mounts_on_devices_are_selected(mounts: Seq<MountView>, devices: Seq<DeviceNumber>)
    ensures
        mounts_on(mounts, devices) == mounts.filter(
            |mount: MountView| devices.contains(mount.device),
        ),
        forall|mount: MountView| #[trigger]
            mounts_on(mounts, devices).contains(mount) <==> mounts.contains(mount)
                && devices.contains(mount.device),
    decreases mounts.len(),
{
    let wanted = |mount: MountView| devices.contains(mount.device);
    reveal(Seq::filter);
    if mounts.len() > 0 {
        let front = mounts.drop_last();
        mounts_on_devices_are_selected(front, devices);
        assert(mounts =~= front.push(mounts.last()));
        assert(mounts.filter(wanted) == if wanted(mounts.last()) {
            front.filter(wanted).push(mounts.last())
        } else {
            front.filter(wanted)
        });
        assert forall|mount: MountView| #[trigger]
            mounts_on(mounts, devices).contains(mount) <==> mounts.contains(mount)
                && devices.contains(mount.device) by {
            let before = mounts_on(front, devices);
            assert(mounts.contains(mount) <==> front.contains(mount) || mount == mounts.last()) by {
                if mounts.contains(mount) {
                    let at = choose|i: int| 0 <= i < mounts.len() && mounts[i] == mount;
                    if at < front.len() {
                        assert(front[at] == mount);
                    }
                }
                if front.contains(mount) {
                    let at = choose|i: int| 0 <= i < front.len() && front[i] == mount;
                    assert(mounts[at] == mount);
                }
                if mount == mounts.last() {
                    assert(mounts[mounts.len() - 1] == mount);
                }
            }
            let pushed = before.push(mounts.last());
            assert(pushed.contains(mount) <==> before.contains(mount) || mount == mounts.last()) by {
                if pushed.contains(mount) {
                    let at = choose|i: int| 0 <= i < pushed.len() && pushed[i] == mount;
                    if at < before.len() {
                        assert(before[at] == mount);
                    }
                }
                if before.contains(mount) {
                    let at = choose|i: int| 0 <= i < before.len() && before[i] == mount;
                    assert(pushed[at] == mount);
                }
                if mount == mounts.last() {
                    assert(pushed[before.len() as int] == mount);
                }
            }
        }
    }
}

/// Bytes without a backslash stand for themselves.
pub proof fn plain_field_stands_for_itself(bytes: Seq<u8>)
    requires
        forall|i: int| 0 <= i < bytes.len() ==> #[trigger] bytes[i] != 92,
    ensures
        decoded_field(bytes) == Ok::<Seq<u8>, WorkerErrorView>(bytes),
    decreases bytes.len(),
{
    if bytes.len() > 0 {
        let rest = bytes.subrange(1, bytes.len() as int);
        assert forall|i: int| 0 <= i < rest.len() implies #[trigger] rest[i] != 92 by {
            assert(rest[i] == bytes[i + 1]);
        }
        plain_field_stands_for_itself(rest);
        assert(bytes =~= seq![bytes[0]] + rest);
    } else {
        assert(bytes =~= Seq::empty());
    }
}

/// A field in which every byte is escaped, by three octal digits behind a backslash.
pub open spec fn escaped_field(bytes: Seq<u8>) -> Seq<u8>
    decreases bytes.len(),
{
    if bytes.len() == 0 {
        Seq::empty()
    } else {
        seq![
            92u8,
            (48 + bytes[0] / 64) as u8,
            (48 + bytes[0] / 8 % 8) as u8,
            (48 + bytes[0] % 8) as u8,
        ] + escaped_field(bytes.subrange(1, bytes.len() as int))
    }
}

/// Decoding undoes escaping, whatever the bytes are.
pub proof fn decoding_undoes_escaping(bytes: Seq<u8>)
    ensures
        decoded_field(escaped_field(bytes)) == Ok::<Seq<u8>, WorkerErrorView>(bytes),
    decreases bytes.len(),
{
    if bytes.len() > 0 {
        let rest = bytes.subrange(1, bytes.len() as int);
        decoding_undoes_escaping(rest);
        let all = escaped_field(bytes);
        assert(all.subrange(4, all.len() as int) =~= escaped_field(rest));
        assert(bytes =~= seq![bytes[0]] + rest);
        let byte = bytes[0];
        assert(all[0] == 92u8 && all[1] == 48 + byte / 64 && all[2] == 48 + byte / 8 % 8 && all[3]
            == 48 + byte % 8);
        assert(octal_value(all[1], all[2], all[3]) == byte as int);
    } else {
        assert(bytes =~= Seq::empty());
    }
}

/// A record is that of a mount exactly where it has at least six fields, one of which is a dash, and
/// its third and fifth field can be read; the mount is on the device of the third field, at the
/// path of the fifth.
pub proof fn record_names_device_and_place(line: Seq<char>)
    ensures
        record_mount(line) is Ok <==> {
            &&& text::fields(line).len() >= 6
            &&& text::fields(line).contains("-"@)
            &&& devices::device_number(text::fields(line)[2]) is Some
            &&& decoded_field(encode_utf8(text::fields(line)[4])) is Ok
        },
        record_mount(line) matches Ok(mount) ==> devices::device_number(text::fields(line)[2])
            == Some(mount.device) && decoded_field(encode_utf8(text::fields(line)[4])) == Ok::<
            Seq<u8>,
            WorkerErrorView,
        >(mount.path),
{
}

/// The lines that say something.
pub open spec fn telling_lines(lines: Seq<Seq<char>>) -> Seq<Seq<char>> {
    lines.filter(|line: Seq<char>| text::trimmed(line).len() > 0)
}

/// The list of mounts has one mount for each line that says something, in their order; it can be
/// read exactly where each of these lines is a record.
pub proof fn every_telling_line_is_a_mount(lines: Seq<Seq<char>>)
    ensures
        line_mounts(lines) is Ok <==> forall|i: int|
            0 <= i < telling_lines(lines).len() ==> record_mount(
                #[trigger] telling_lines(lines)[i],
            ) is Ok,
        line_mounts(lines) matches Ok(mounts) ==> {
            &&& mounts.len() == telling_lines(lines).len()
            &&& forall|i: int|
                0 <= i < mounts.len() ==> record_mount(telling_lines(lines)[i]) == Ok::<
                    MountView,
                    WorkerErrorView,
                >(#[trigger] mounts[i])
        },
    decreases lines.len(),
{
    let tells = |line: Seq<char>| text::trimmed(line).len() > 0;
    reveal(Seq::filter);
    if lines.len() > 0 {
        let front = lines.drop_last();
        every_telling_line_is_a_mount(front);
        let before = telling_lines(front);
        let all = telling_lines(lines);
        assert(lines =~= front.push(lines.last()));
        assert(all == if tells(lines.last()) {
            before.push(lines.last())
        } else {
            before
        });
        if tells(lines.last()) {
            assert(all[before.len() as int] == lines.last());
            assert forall|i: int| 0 <= i < before.len() implies #[trigger] all[i] == before[i] by {}
            if forall|i: int| 0 <= i < all.len() ==> record_mount(#[trigger] all[i]) is Ok {
                assert forall|i: int| 0 <= i < before.len() implies record_mount(
                    #[trigger] before[i],
                ) is Ok by {
                    assert(all[i] == before[i]);
                }
            }
            if line_mounts(lines) is Ok {
                assert forall|i: int| 0 <= i < all.len() implies record_mount(
                    #[trigger] all[i],
                ) is Ok by {
                    if i < before.len() {
                        assert(record_mount(before[i]) is Ok);
                    }
                }
            }
        }
    }
}

/// What the separators of a path leave between, put together again.
pub open spec fn pieces_joined(pieces: Seq<Seq<u8>>) -> Seq<u8>
    decreases pieces.len(),
{
    if pieces.len() == 0 {
        Seq::empty()
    } else if pieces.len() == 1 {
        pieces[0]
    } else {
        pieces_joined(pieces.drop_last()).push(SLASH) + pieces.last()
    }
}

/// Taking a path apart loses nothing: with a separator between each two the pieces are the path
/// again, and no piece holds a separator.
pub proof fn pieces_are_all_of_the_path(path: Seq<u8>)
    ensures
        byte_pieces(path).len() > 0,
        pieces_joined(byte_pieces(path)) == path,
        forall|i: int, j: int|
            #![trigger byte_pieces(path)[i][j]]
            0 <= i < byte_pieces(path).len() && 0 <= j < byte_pieces(path)[i].len()
                ==> byte_pieces(path)[i][j] != 47,
    decreases path.len(),
{
    if path.len() == 0 {
        assert(byte_pieces(path)[0] =~= path);
    } else {
        let front = path.drop_last();
        pieces_are_all_of_the_path(front);
        let before = byte_pieces(front);
        let after = byte_pieces(path);
        assert(path =~= front.push(path.last()));
        if path.last() == SLASH {
            assert(after.drop_last() =~= before);
            assert(pieces_joined(after) =~= path);
        } else {
            assert(after.drop_last() =~= before.drop_last());
            assert(after.last() =~= before.last().push(path.last()));
            if before.len() == 1 {
                assert(pieces_joined(after) =~= path);
            } else {
                assert(pieces_joined(before) == pieces_joined(before.drop_last()).push(SLASH)
                    + before.last());
                assert(pieces_joined(after) =~= path);
            }
        }
        assert forall|i: int, j: int|
            #![trigger after[i][j]]
            0 <= i < after.len() && 0 <= j < after[i].len() implies after[i][j] != 47 by {
            if path.last() == SLASH {
                if i < before.len() {
                    assert(after[i] == before[i]);
                    assert(before[i][j] != 47);
                }
            } else if i < before.len() - 1 {
                assert(after[i] == before[i]);
                assert(before[i][j] != 47);
            } else if j < before.last().len() {
                assert(before[before.len() - 1][j] != 47);
            }
        }
    }
}

proof fn pieces_of_a_member(path: Seq<u8>, name: Seq<u8>)
    requires
        forall|i: int| 0 <= i < name.len() ==> #[trigger] name[i] != 47,
    ensures
        byte_pieces(path.push(SLASH) + name) == byte_pieces(path).push(name),
    decreases name.len(),
{
    let whole = path.push(SLASH) + name;
    if name.len() == 0 {
        assert(whole =~= path.push(SLASH));
        assert(whole.drop_last() =~= path);
        assert(name =~= Seq::empty());
    } else {
        let front = name.drop_last();
        assert forall|i: int| 0 <= i < front.len() implies #[trigger] front[i] != 47 by {
            assert(front[i] == name[i]);
        }
        pieces_of_a_member(path, front);
        assert(whole.drop_last() =~= path.push(SLASH) + front);
        assert(whole.last() == name.last());
        let before = byte_pieces(path).push(front);
        assert(before.drop_last() =~= byte_pieces(path));
        assert(front.push(name.last()) =~= name);
    }
}

/// A place below another one is deeper by one for each name, so that it is unmounted first.
pub proof fn member_is_one_deeper(path: Seq<u8>, name: Seq<u8>)
    requires
        path.len() > 0,
        name.len() > 0,
        name != seq![46u8],
        forall|i: int| 0 <= i < name.len() ==> #[trigger] name[i] != 47,
    ensures
        depth(path.push(SLASH) + name) == depth(path) + 1,
        byte_parts(path.push(SLASH) + name) == byte_parts(path).push(name),
        is_removable_place(path) ==> is_removable_place(path.push(SLASH) + name),
{
    let whole = path.push(SLASH) + name;
    pieces_of_a_member(path, name);
    assert(whole[0] == path[0]);
    let pieces = byte_pieces(path);
    assert(pieces.push(name).drop_last() =~= pieces);
    let parts = byte_parts(path);
    assert(byte_parts(whole) == parts.push(name));
    if is_removable_place(path) {
        assert(parts.push(name)[0] == parts[0]);
        if parts.len() > 1 {
            assert(parts.push(name)[1] == parts[1]);
        }
    }
}

/// A place is one for removable media only where it is absolute and its first name is that of one of
/// the conventional roots; the root of the file system is none, and neither is a relative path.
pub proof fn removable_places_lie_below_known_roots(path: Seq<u8>)
    ensures
        is_removable_place(path) ==> path.len() > 0 && path[0] == 47 && byte_parts(path).len() > 0,
        is_removable_place(path) <==> is_absolute_bytes(path) && {
            ||| byte_parts(path).len() > 0 && byte_parts(path)[0] == encode_utf8("media"@)
            ||| byte_parts(path).len() > 0 && byte_parts(path)[0] == encode_utf8("mnt"@)
            ||| byte_parts(path).len() > 1 && byte_parts(path)[0] == encode_utf8("run"@)
                && byte_parts(path)[1] == encode_utf8("media"@)
        },
{
}

/// Mounts are refused exactly where the list cannot be read, or one of them is on one of the devices
/// and not in a place for removable media.
pub proof fn protected_mount_is_refused(mountinfo: Seq<char>, devices: Seq<DeviceNumber>)
    ensures
        mounts_fault(mountinfo, devices) is None <==> (listed_mounts(mountinfo) matches Ok(mounts)
            && forall|i: int|
            0 <= i < mounts.len() && devices.contains((#[trigger] mounts[i]).device)
                ==> is_removable_place(mounts[i].path)),
        listed_mounts(mountinfo) is Ok && mounts_fault(mountinfo, devices) is Some ==> mounts_fault(
            mountinfo,
            devices,
        ) == Some(WorkerErrorView::UnsafeTarget),
{
}

/// Swap is refused exactly where one of its sources cannot be named or looked at, or is on one of the
/// devices: as a block device itself, or as a file on one.
pub proof fn swap_on_a_device_is_refused(
    records: Seq<Result<Seq<u8>, WorkerErrorView>>,
    sources: Seq<Result<SwapSource, String>>,
    devices: Seq<DeviceNumber>,
)
    requires
        records.len() <= sources.len(),
    ensures
        swap_fault(records, sources, devices) is None <==> forall|i: int|
            #![trigger records[i]]
            0 <= i < records.len() ==> records[i] is Ok && (sources[i] matches Ok(source) && !(
            source.is_block_device && devices.contains(devices::decoded_device(source.rdev))) && !(
            !source.is_block_device && source.is_file && devices.contains(
                devices::decoded_device(source.dev),
            ))),
    decreases records.len(),
{
    if records.len() > 0 {
        let front = records.drop_last();
        swap_on_a_device_is_refused(front, sources, devices);
        assert forall|i: int| 0 <= i < front.len() implies #[trigger] front[i] == records[i] by {}
        let last = records.len() - 1;
        assert(records[last] == records.last());
        if swap_fault(records, sources, devices) is None {
            assert forall|i: int| #![trigger records[i]] 0 <= i < records.len() implies records[i]
                is Ok && (sources[i] matches Ok(source) && !(source.is_block_device
                && devices.contains(devices::decoded_device(source.rdev))) && !(
            !source.is_block_device && source.is_file && devices.contains(
                devices::decoded_device(source.dev),
            ))) by {
                if i < last {
                    assert(front[i] == records[i]);
                }
            }
        }
    }
}

/// Every line of the swap list behind its heading that names a source is a record, in their order,
/// and the source is its first field.
pub proof fn every_swap_line_is_a_record(lines: Seq<Seq<char>>, last: Seq<char>)
    requires
        lines.len() > 0,
    ensures
        swap_records(seq![last]).len() == 0,
        text::trimmed(last).len() > 0 && text::fields(last).len() > 0 ==> swap_records(
            lines.push(last),
        ) == swap_records(lines).push(decoded_field(encode_utf8(text::fields(last)[0]))),
        text::trimmed(last).len() == 0 || text::fields(last).len() == 0 ==> swap_records(
            lines.push(last),
        ) == swap_records(lines),
{
    assert(lines.push(last).drop_last() =~= lines);
}

} // verus!
