//! Windows raw-disk worker backend: the identity of a physical disk and what is safe to do with it.

use vstd::prelude::*;
use vstd::string::*;

pub mod disk;

use crate::drives::windows;
use crate::drives::windows::{
    card_bus, physical_drive, split_stable_identifier, valid_sector_geometry, BoolFlag,
    FingerprintParts,
};
use crate::text;
use crate::text::{join2, join3, same_text, to_lower};
use crate::windows_native::DiskRecord;
use crate::worker;
use crate::worker::session::LookFailure;
use crate::worker::{
    compare_drive, WorkerDrive, WorkerDriveView, WorkerError, WorkerErrorView,
};

verus! {

/// The flag by which a write is complete when it returns.
pub const FILE_FLAG_WRITE_THROUGH: u32 = 0x8000_0000;

/// The flag by which reads bypass the system cache.
pub const FILE_FLAG_NO_BUFFERING: u32 = 0x2000_0000;

/// The mode that lets others read.
pub const FILE_SHARE_READ: u32 = 0x1;

/// The mode that lets others write.
pub const FILE_SHARE_WRITE: u32 = 0x2;

/// A physical disk at one moment.
#[derive(Clone, Debug, PartialEq, Eq)]
pub struct DiskSnapshot {
    pub number: u32,
    pub path: String,
    pub unique_id: String,
    pub serial_number: String,
    pub size: u64,
    pub logical_sector_size: u32,
    pub physical_sector_size: u32,
    pub is_boot: BoolFlag,
    pub is_system: BoolFlag,
    pub is_offline: BoolFlag,
    pub is_read_only: BoolFlag,
    pub bus_type: String,
    pub supports_removable_media: BoolFlag,
}

/// What a [`DiskSnapshot`] holds.
#[verifier::ext_equal]
pub struct DiskSnapshotView {
    pub number: u32,
    pub path: Seq<char>,
    pub unique_id: Seq<char>,
    pub serial_number: Seq<char>,
    pub size: u64,
    pub logical_sector_size: u32,
    pub physical_sector_size: u32,
    pub is_boot: bool,
    pub is_system: bool,
    pub is_offline: bool,
    pub is_read_only: bool,
    pub bus_type: Seq<char>,
    pub supports_removable_media: bool,
}

impl View for DiskSnapshot {
    type V = DiskSnapshotView;

    open spec fn view(&self) -> DiskSnapshotView {
        DiskSnapshotView {
            number: self.number,
            path: self.path@,
            unique_id: self.unique_id@,
            serial_number: self.serial_number@,
            size: self.size,
            logical_sector_size: self.logical_sector_size,
            physical_sector_size: self.physical_sector_size,
            is_boot: self.is_boot.0,
            is_system: self.is_system.0,
            is_offline: self.is_offline.0,
            is_read_only: self.is_read_only.0,
            bus_type: self.bus_type@,
            supports_removable_media: self.supports_removable_media.0,
        }
    }
}

impl DiskSnapshotView {
    /// What the disk's fingerprint is taken of.
    pub open spec fn identity(self) -> windows::DiskIdentity {
        windows::DiskIdentity {
            number: self.number,
            size: self.size,
            logical_sector_size: self.logical_sector_size,
            physical_sector_size: self.physical_sector_size,
            bus_type: self.bus_type,
            path: self.path,
            unique_id: self.unique_id,
            serial_number: self.serial_number,
            supports_removable_media: self.supports_removable_media,
        }
    }

    /// Whether the disk can be told apart from others: it has a path, a unique identifier or a
    /// serial number, a size and a usable geometry.
    pub open spec fn is_identifiable(self) -> bool {
        &&& self.path.len() > 0
        &&& self.unique_id.len() > 0 || self.serial_number.len() > 0
        &&& self.size > 0
        &&& windows::is_sector_geometry(
            self.size,
            self.logical_sector_size,
            self.physical_sector_size,
        )
    }

    /// Whether the disk may be written: an online, writable card that can be told apart from
    /// others, and neither boot nor system disk.
    pub open spec fn is_safe(self) -> bool {
        &&& !self.is_boot
        &&& !self.is_system
        &&& !self.is_offline
        &&& !self.is_read_only
        &&& windows::is_card_bus(self.bus_type, self.supports_removable_media)
        &&& windows::is_sector_geometry(
            self.size,
            self.logical_sector_size,
            self.physical_sector_size,
        )
        &&& self.path.len() > 0
        &&& self.unique_id.len() > 0 || self.serial_number.len() > 0
    }

    /// What stays the same when an image replaces the disk's partition table, which the unique
    /// identifier may be taken of.
    pub open spec fn post_write(self) -> PostWriteIdentityView {
        PostWriteIdentityView {
            number: self.number,
            path: self.path,
            serial_number: self.serial_number,
            size: self.size,
            logical_sector_size: self.logical_sector_size,
            physical_sector_size: self.physical_sector_size,
            bus_type: self.bus_type,
            supports_removable_media: self.supports_removable_media,
        }
    }
}

impl DiskSnapshot {
    /// The snapshot that a record describes.
    pub fn from_record(disk: &DiskRecord) -> (snapshot: DiskSnapshot)
        ensures
            snapshot == snapshot_of(*disk),
    {
        DiskSnapshot {
            number: disk.number,
            path: disk.path.clone(),
            unique_id: disk.unique_id.clone(),
            serial_number: disk.serial_number.clone(),
            size: disk.size,
            logical_sector_size: disk.logical_sector_size,
            physical_sector_size: disk.physical_sector_size,
            is_boot: BoolFlag(disk.is_boot),
            is_system: BoolFlag(disk.is_system),
            is_offline: BoolFlag(disk.is_offline),
            is_read_only: BoolFlag(disk.is_read_only),
            bus_type: disk.bus_type.clone(),
            supports_removable_media: BoolFlag(disk.supports_removable_media),
        }
    }

    /// Whether two snapshots agree in every field.
    pub fn same(&self, other: &DiskSnapshot) -> (result: bool)
        ensures
            result == (self@ == other@),
    {
        self.number == other.number && self.path == other.path && self.unique_id
            == other.unique_id && self.serial_number == other.serial_number && self.size
            == other.size && self.logical_sector_size == other.logical_sector_size
            && self.physical_sector_size == other.physical_sector_size && self.is_boot
            == other.is_boot && self.is_system == other.is_system && self.is_offline
            == other.is_offline && self.is_read_only == other.is_read_only && self.bus_type
            == other.bus_type && self.supports_removable_media == other.supports_removable_media
    }

    /// Whether the disk can be told apart from others.
    pub fn is_identifiable(&self) -> (result: bool)
        ensures
            result == self@.is_identifiable(),
    {
        !self.path.as_str().is_empty() && !(self.unique_id.as_str().is_empty()
            && self.serial_number.as_str().is_empty()) && self.size != 0 && valid_sector_geometry(
            self.size,
            self.logical_sector_size,
            self.physical_sector_size,
        )
    }

    fn computed_fingerprint(&self) -> (fingerprint: String)
        ensures
            fingerprint@ == windows::fingerprint_of(self@.identity()),
    {
        windows::fingerprint(
            &FingerprintParts {
                number: self.number,
                size: self.size,
                logical_sector_size: self.logical_sector_size,
                physical_sector_size: self.physical_sector_size,
                bus_type: self.bus_type.as_str(),
                path: self.path.as_str(),
                unique_id: self.unique_id.as_str(),
                serial_number: self.serial_number.as_str(),
                supports_removable_media: self.supports_removable_media.is_set(),
            },
        )
    }

    /// The fingerprint of a disk that can be told apart from others.
    pub fn fingerprint(&self) -> (result: Result<String, WorkerError>)
        ensures
            match result {
                Ok(fingerprint) => self@.is_identifiable() && fingerprint@
                    == windows::fingerprint_of(self@.identity()),
                Err(error) => !self@.is_identifiable() && error@ == WorkerErrorView::UnsafeTarget,
            },
    {
        if self.is_identifiable() {
            Ok(self.computed_fingerprint())
        } else {
            Err(WorkerError::UnsafeTarget)
        }
    }

    /// Whether the disk is a card.
    pub fn is_card_target(&self) -> (result: bool)
        ensures
            result == windows::is_card_bus(self@.bus_type, self@.supports_removable_media),
    {
        card_bus(self.bus_type.as_str(), self.supports_removable_media.is_set())
    }
}

/// The snapshot that a record describes.
pub open spec fn snapshot_of(disk: DiskRecord) -> DiskSnapshot {
    DiskSnapshot {
        number: disk.number,
        path: disk.path,
        unique_id: disk.unique_id,
        serial_number: disk.serial_number,
        size: disk.size,
        logical_sector_size: disk.logical_sector_size,
        physical_sector_size: disk.physical_sector_size,
        is_boot: BoolFlag(disk.is_boot),
        is_system: BoolFlag(disk.is_system),
        is_offline: BoolFlag(disk.is_offline),
        is_read_only: BoolFlag(disk.is_read_only),
        bus_type: disk.bus_type,
        supports_removable_media: BoolFlag(disk.supports_removable_media),
    }
}

/// The disk that a worker drive names.
#[derive(Clone, Debug, PartialEq, Eq)]
pub struct SelectedDisk {
    pub number: u32,
    pub device: String,
    pub fingerprint: String,
}

/// What a [`SelectedDisk`] holds.
#[verifier::ext_equal]
pub struct SelectedDiskView {
    pub number: u32,
    pub device: Seq<char>,
    pub fingerprint: Seq<char>,
}

impl View for SelectedDisk {
    type V = SelectedDiskView;

    open spec fn view(&self) -> SelectedDiskView {
        SelectedDiskView {
            number: self.number,
            device: self.device@,
            fingerprint: self.fingerprint@,
        }
    }
}

/// The disk that a worker drive names, where its identity is one that discovery gives out.
pub open spec fn selected_disk(selected: WorkerDriveView) -> Option<SelectedDiskView> {
    if windows::is_worker_drive(selected) {
        let (number, fingerprint) = windows::split_identifier(selected.id)->0;
        Some(
            SelectedDiskView {
                number,
                device: windows::device_path(number as nat),
                fingerprint: text::lower_text(fingerprint),
            },
        )
    } else {
        None
    }
}

impl SelectedDisk {
    /// Read the identity of a worker drive.
    pub fn parse(selected: &WorkerDrive) -> (result: Result<SelectedDisk, WorkerError>)
        ensures
            match result {
                Ok(disk) => selected_disk(selected@) == Some(disk@),
                Err(error) => selected_disk(selected@) is None && error@
                    == WorkerErrorView::UnsafeTarget,
            },
    {
        match split_stable_identifier(selected.id.as_str()) {
            None => Err(WorkerError::UnsafeTarget),
            Some((number, fingerprint)) => {
                let device = physical_drive(number);
                if selected.device != device || selected.capacity == 0 {
                    return Err(WorkerError::UnsafeTarget);
                }
                Ok(SelectedDisk { number, device, fingerprint: to_lower(fingerprint.as_str()) })
            },
        }
    }
}

/// What stays the same when an image replaces the disk's partition table.
#[derive(Clone, Debug, PartialEq, Eq)]
pub struct PostWriteIdentity {
    pub number: u32,
    pub path: String,
    pub serial_number: String,
    pub size: u64,
    pub logical_sector_size: u32,
    pub physical_sector_size: u32,
    pub bus_type: String,
    pub supports_removable_media: BoolFlag,
}

/// What a [`PostWriteIdentity`] holds.
#[verifier::ext_equal]
pub struct PostWriteIdentityView {
    pub number: u32,
    pub path: Seq<char>,
    pub serial_number: Seq<char>,
    pub size: u64,
    pub logical_sector_size: u32,
    pub physical_sector_size: u32,
    pub bus_type: Seq<char>,
    pub supports_removable_media: bool,
}

impl View for PostWriteIdentity {
    type V = PostWriteIdentityView;

    open spec fn view(&self) -> PostWriteIdentityView {
        PostWriteIdentityView {
            number: self.number,
            path: self.path@,
            serial_number: self.serial_number@,
            size: self.size,
            logical_sector_size: self.logical_sector_size,
            physical_sector_size: self.physical_sector_size,
            bus_type: self.bus_type@,
            supports_removable_media: self.supports_removable_media.0,
        }
    }
}

impl PostWriteIdentity {
    /// What of a snapshot stays the same.
    pub fn of(snapshot: &DiskSnapshot) -> (identity: PostWriteIdentity)
        ensures
            identity@ == snapshot@.post_write(),
    {
        PostWriteIdentity {
            number: snapshot.number,
            path: snapshot.path.clone(),
            serial_number: snapshot.serial_number.clone(),
            size: snapshot.size,
            logical_sector_size: snapshot.logical_sector_size,
            physical_sector_size: snapshot.physical_sector_size,
            bus_type: snapshot.bus_type.clone(),
            supports_removable_media: snapshot.supports_removable_media,
        }
    }
}

/// Why a disk must not be touched, whatever its fingerprint is.
pub open spec fn safety_fault(
    selected: WorkerDriveView,
    identity: SelectedDiskView,
    snapshot: DiskSnapshotView,
) -> Option<WorkerErrorView> {
    if snapshot.number == identity.number && snapshot.size == selected.capacity
        && snapshot.is_safe() {
        None
    } else {
        Some(WorkerErrorView::UnsafeTarget)
    }
}

/// Why a disk with this fingerprint is not the selected one.
pub open spec fn fingerprinted_fault(
    selected: WorkerDriveView,
    identity: SelectedDiskView,
    snapshot: DiskSnapshotView,
    expected_offline: Option<bool>,
    fingerprint: Seq<char>,
) -> Option<WorkerErrorView> {
    match safety_fault(selected, identity, snapshot) {
        Some(fault) => Some(fault),
        None => if expected_offline matches Some(expected) && snapshot.is_offline != expected {
            Some(WorkerErrorView::TargetChanged)
        } else if !snapshot.is_identifiable() {
            Some(WorkerErrorView::UnsafeTarget)
        } else if fingerprint == identity.fingerprint && selected == (WorkerDriveView {
            id: identity.device + "@"@ + fingerprint,
            device: identity.device,
            capacity: snapshot.size,
        }) {
            None
        } else {
            Some(WorkerErrorView::TargetChanged)
        },
    }
}

/// Why a disk is not the selected one.
pub open spec fn snapshot_fault(
    selected: WorkerDriveView,
    identity: SelectedDiskView,
    snapshot: DiskSnapshotView,
    expected_offline: Option<bool>,
) -> Option<WorkerErrorView> {
    fingerprinted_fault(
        selected,
        identity,
        snapshot,
        expected_offline,
        windows::fingerprint_of(snapshot.identity()),
    )
}

/// Why a disk is not the one that was written.
pub open spec fn post_write_fault(
    selected: WorkerDriveView,
    identity: SelectedDiskView,
    snapshot: DiskSnapshotView,
    expected: PostWriteIdentityView,
) -> Option<WorkerErrorView> {
    match safety_fault(selected, identity, snapshot) {
        Some(fault) => Some(fault),
        None => if snapshot.post_write() == expected {
            None
        } else {
            Some(WorkerErrorView::TargetChanged)
        },
    }
}

/// Check that a disk may be touched, whatever its fingerprint is.
pub fn validate_common_safety(
    selected: &WorkerDrive,
    identity: &SelectedDisk,
    snapshot: &DiskSnapshot,
) -> (result: Result<(), WorkerError>)
    ensures
        worker::is_verdict(result, safety_fault(selected@, identity@, snapshot@)),
{
    if snapshot.number != identity.number || snapshot.size != selected.capacity {
        return Err(WorkerError::UnsafeTarget);
    }
    if snapshot.is_boot.is_set() || snapshot.is_system.is_set() || snapshot.is_offline.is_set()
        || snapshot.is_read_only.is_set() || !snapshot.is_card_target() || !valid_sector_geometry(
        snapshot.size,
        snapshot.logical_sector_size,
        snapshot.physical_sector_size,
    ) || snapshot.path.as_str().is_empty() || (snapshot.unique_id.as_str().is_empty()
        && snapshot.serial_number.as_str().is_empty()) {
        return Err(WorkerError::UnsafeTarget);
    }
    Ok(())
}

/// Check that a disk is the selected one.
pub fn validate_snapshot(
    selected: &WorkerDrive,
    identity: &SelectedDisk,
    snapshot: &DiskSnapshot,
    expected_offline: Option<bool>,
) -> (result: Result<(), WorkerError>)
    ensures
        worker::is_verdict(
            result,
            snapshot_fault(selected@, identity@, snapshot@, expected_offline),
        ),
{
    let fingerprint = snapshot.computed_fingerprint();
    validate_fingerprinted(selected, identity, snapshot, expected_offline, fingerprint.as_str())
}

/// Check that a disk with this fingerprint is the selected one.
pub fn validate_fingerprinted(
    selected: &WorkerDrive,
    identity: &SelectedDisk,
    snapshot: &DiskSnapshot,
    expected_offline: Option<bool>,
    fingerprint: &str,
) -> (result: Result<(), WorkerError>)
    ensures
        worker::is_verdict(
            result,
            fingerprinted_fault(selected@, identity@, snapshot@, expected_offline, fingerprint@),
        ),
{
    match validate_common_safety(selected, identity, snapshot) {
        Err(error) => {
            return Err(error);
        },
        Ok(()) => {},
    }
    match expected_offline {
        Some(expected) => {
            if snapshot.is_offline.is_set() != expected {
                return Err(WorkerError::TargetChanged);
            }
        },
        None => {},
    }
    if !snapshot.is_identifiable() {
        return Err(WorkerError::UnsafeTarget);
    }
    if !same_text(fingerprint, identity.fingerprint.as_str()) {
        return Err(WorkerError::TargetChanged);
    }
    let current = WorkerDrive {
        id: join3(identity.device.as_str(), "@", fingerprint),
        device: identity.device.clone(),
        capacity: snapshot.size,
    };
    compare_drive(selected, &current)
}

/// Check that a disk is the one that was written. The image may have replaced what the unique
/// identifier is taken of, so the fingerprint is not asked for; the path and the serial number of
/// the hardware are.
pub fn validate_post_write_snapshot(
    selected: &WorkerDrive,
    identity: &SelectedDisk,
    snapshot: &DiskSnapshot,
    expected: &PostWriteIdentity,
) -> (result: Result<(), WorkerError>)
    ensures
        worker::is_verdict(
            result,
            post_write_fault(selected@, identity@, snapshot@, expected@),
        ),
{
    match validate_common_safety(selected, identity, snapshot) {
        Err(error) => {
            return Err(error);
        },
        Ok(()) => {},
    }
    if snapshot.number != expected.number || snapshot.path != expected.path
        || snapshot.serial_number != expected.serial_number || snapshot.size != expected.size
        || snapshot.logical_sector_size != expected.logical_sector_size
        || snapshot.physical_sector_size != expected.physical_sector_size || snapshot.bus_type
        != expected.bus_type || snapshot.supports_removable_media
        != expected.supports_removable_media {
        return Err(WorkerError::TargetChanged);
    }
    Ok(())
}

/// A look at the disk with a number.
pub type DiskQuery = Result<DiskRecord, LookFailure>;

/// The snapshot that a query gave.
pub open spec fn queried(query: DiskQuery) -> Result<DiskSnapshot, WorkerErrorView> {
    match query {
        Ok(record) => Ok(snapshot_of(record)),
        Err(LookFailure::NotFound(_)) => Err(WorkerErrorView::TargetMissing),
        Err(LookFailure::Failed(cause)) => Err(WorkerErrorView::Platform(cause@)),
    }
}

/// The snapshot that a query gave.
pub fn query_disk(query: &DiskQuery) -> (result: Result<DiskSnapshot, WorkerError>)
    ensures
        match result {
            Ok(snapshot) => queried(*query) == Ok::<DiskSnapshot, WorkerErrorView>(snapshot),
            Err(error) => queried(*query) == Err::<DiskSnapshot, WorkerErrorView>(error@),
        },
{
    match query {
        Ok(record) => Ok(DiskSnapshot::from_record(record)),
        Err(LookFailure::NotFound(_)) => Err(WorkerError::TargetMissing),
        Err(LookFailure::Failed(cause)) => Err(WorkerError::Platform(cause.clone())),
    }
}

/// The error for a disk that could not be opened.
pub open spec fn open_fault(cause: Seq<char>) -> WorkerErrorView {
    WorkerErrorView::Platform(
        "could not lock the physical disk; close Explorer and other applications using it, then retry: "@
            + cause,
    )
}

/// The error for a disk that could not be opened.
pub fn device_open_error(cause: &str) -> (error: WorkerError)
    ensures
        error@ == open_fault(cause@),
{
    WorkerError::Platform(
        join2(
            "could not lock the physical disk; close Explorer and other applications using it, then retry: ",
            cause,
        ),
    )
}

/// A disk that passes as the selected one has the fingerprint of the selected one: it was hashed
/// from its own number, size, geometry, bus, path, identifiers and capability.
pub proof fn validated_disk_has_the_selected_fingerprint(
    selected: WorkerDriveView,
    identity: SelectedDiskView,
    snapshot: DiskSnapshotView,
    expected_offline: Option<bool>,
)
    requires
        snapshot_fault(selected, identity, snapshot, expected_offline) is None,
    ensures
        snapshot.is_safe(),
        windows::fingerprint_of(snapshot.identity()) == identity.fingerprint,
        selected.capacity == snapshot.size,
        selected.device == identity.device,
{
}

/// A disk may be touched exactly where it has the number and the size of the selected one, is an
/// online and writable card that can be told apart from others, and is neither boot nor system disk.
pub proof fn only_the_selected_card_may_be_touched(
    selected: WorkerDriveView,
    identity: SelectedDiskView,
    snapshot: DiskSnapshotView,
)
    ensures
        safety_fault(selected, identity, snapshot) is None <==> {
            &&& snapshot.number == identity.number
            &&& snapshot.size == selected.capacity
            &&& !snapshot.is_boot && !snapshot.is_system
            &&& !snapshot.is_offline && !snapshot.is_read_only
            &&& windows::is_card_bus(snapshot.bus_type, snapshot.supports_removable_media)
            &&& windows::is_sector_geometry(
                snapshot.size,
                snapshot.logical_sector_size,
                snapshot.physical_sector_size,
            )
            &&& snapshot.path.len() > 0
            &&& snapshot.unique_id.len() > 0 || snapshot.serial_number.len() > 0
        },
        safety_fault(selected, identity, snapshot) matches Some(fault) ==> fault is UnsafeTarget,
{
}

/// A disk is the selected one exactly where it may be touched, is online or offline as expected, and
/// has the fingerprint by which it was selected.
pub proof fn selected_disk_is_known_by_its_fingerprint(
    selected: WorkerDriveView,
    identity: SelectedDiskView,
    snapshot: DiskSnapshotView,
    expected_offline: Option<bool>,
)
    ensures
        snapshot_fault(selected, identity, snapshot, expected_offline) is None <==> {
            let fingerprint = windows::fingerprint_of(snapshot.identity());
            &&& safety_fault(selected, identity, snapshot) is None
            &&& expected_offline != Some(true)
            &&& snapshot.size > 0
            &&& fingerprint == identity.fingerprint
            &&& selected.id == identity.device + "@"@ + fingerprint
            &&& selected.device == identity.device
        },
        safety_fault(selected, identity, snapshot) is None && snapshot.size > 0 && snapshot_fault(
            selected,
            identity,
            snapshot,
            expected_offline,
        ) is Some ==> snapshot_fault(selected, identity, snapshot, expected_offline) == Some(
            WorkerErrorView::TargetChanged,
        ),
{
    let fingerprint = windows::fingerprint_of(snapshot.identity());
    assert(selected == (WorkerDriveView {
        id: identity.device + "@"@ + fingerprint,
        device: identity.device,
        capacity: snapshot.size,
    }) <==> selected.id == identity.device + "@"@ + fingerprint && selected.device
        == identity.device && selected.capacity == snapshot.size);
}

/// A disk is the one that was written exactly where it may be touched and all that an image leaves
/// as it is agrees: number, path, serial number, size, geometry, bus and capability; only the unique
/// identifier may differ.
pub proof fn written_disk_is_known_by_its_hardware(
    selected: WorkerDriveView,
    identity: SelectedDiskView,
    before: DiskSnapshotView,
    after: DiskSnapshotView,
)
    ensures
        post_write_fault(selected, identity, after, before.post_write()) is None <==> {
            &&& safety_fault(selected, identity, after) is None
            &&& after.number == before.number
            &&& after.path == before.path
            &&& after.serial_number == before.serial_number
            &&& after.size == before.size
            &&& after.logical_sector_size == before.logical_sector_size
            &&& after.physical_sector_size == before.physical_sector_size
            &&& after.bus_type == before.bus_type
            &&& after.supports_removable_media == before.supports_removable_media
        },
{
    assert(after.post_write() == before.post_write() <==> (after.number == before.number
        && after.path == before.path && after.serial_number == before.serial_number && after.size
        == before.size && after.logical_sector_size == before.logical_sector_size
        && after.physical_sector_size == before.physical_sector_size && after.bus_type
        == before.bus_type && after.supports_removable_media == before.supports_removable_media));
}

/// A snapshot holds what the record of its disk says, in every field.
pub proof fn snapshot_says_what_the_record_says(disk: DiskRecord)
    ensures
        ({
            let shown = snapshot_of(disk)@;
            &&& shown.number == disk.number && shown.size == disk.size
            &&& shown.path == disk.path@ && shown.unique_id == disk.unique_id@
                && shown.serial_number == disk.serial_number@ && shown.bus_type == disk.bus_type@
            &&& shown.logical_sector_size == disk.logical_sector_size
                && shown.physical_sector_size == disk.physical_sector_size
            &&& shown.is_boot == disk.is_boot && shown.is_system == disk.is_system
                && shown.is_offline == disk.is_offline && shown.is_read_only == disk.is_read_only
            &&& shown.supports_removable_media == disk.supports_removable_media
            &&& queried(Ok(disk)) == Ok::<DiskSnapshot, WorkerErrorView>(snapshot_of(disk))
        }),
{
}

/// The disk that a drive names is that of its number and device, with its fingerprint in lower case;
/// a drive that discovery does not give out names none, and a disk that is gone is missing.
pub proof fn drive_names_its_disk(selected: WorkerDriveView, failure: LookFailure)
    ensures
        selected_disk(selected) is Some <==> windows::is_worker_drive(selected),
        selected_disk(selected) matches Some(disk) ==> disk.device == selected.device && (
        windows::split_identifier(selected.id) matches Some((number, fingerprint)) && disk.number
            == number && disk.fingerprint == text::lower_text(fingerprint)),
        failure is NotFound ==> queried(Err(failure)) == Err::<DiskSnapshot, WorkerErrorView>(
            WorkerErrorView::TargetMissing,
        ),
        failure matches LookFailure::Failed(cause) ==> queried(Err(failure)) == Err::<
            DiskSnapshot,
            WorkerErrorView,
        >(WorkerErrorView::Platform(cause@)),
{
}

} // verus!
