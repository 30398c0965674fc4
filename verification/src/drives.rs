//! Which physical drives may be offered as flash targets, and how each is identified.
//!
//! Discovery only reads. Every platform gives a drive an identifier that survives a change of its
//! device path, so that a replaced medium is never mistaken for the selected one.

use vstd::prelude::*;
use vstd::string::*;

pub mod linux;
pub mod macos;
pub mod windows;

use crate::drives::linux::BlockFacts;
use crate::macos_native;
use crate::model::{Drive, DriveView};
use crate::text;
use crate::windows_native;
use crate::worker::WorkerDriveView;

verus! {

/// Failures while querying removable physical drives.
#[derive(Debug)]
pub enum DriveError {
    Io(String),
    InvalidData(String),
    Unsupported,
}

/// What a [`DriveError`] holds.
pub enum DriveErrorView {
    Io(Seq<char>),
    InvalidData(Seq<char>),
    Unsupported,
}

impl View for DriveError {
    type V = DriveErrorView;

    open spec fn view(&self) -> DriveErrorView {
        match *self {
            DriveError::Io(cause) => DriveErrorView::Io(cause@),
            DriveError::InvalidData(cause) => DriveErrorView::InvalidData(cause@),
            DriveError::Unsupported => DriveErrorView::Unsupported,
        }
    }
}

impl DriveErrorView {
    /// The sentence shown for the error.
    pub open spec fn text(self) -> Seq<char> {
        match self {
            DriveErrorView::Io(cause) => "could not query removable drives: "@ + cause,
            DriveErrorView::InvalidData(cause) => {
                "the operating system returned invalid drive information: "@ + cause
            },
            DriveErrorView::Unsupported => {
                "drive discovery is not implemented on this platform"@
            },
        }
    }
}

impl DriveError {
    /// The sentence shown for the error.
    pub fn message(&self) -> (result: String)
        ensures
            result@ == self@.text(),
    {
        match self {
            DriveError::Io(cause) => text::join2(
                "could not query removable drives: ",
                cause.as_str(),
            ),
            DriveError::InvalidData(cause) => text::join2(
                "the operating system returned invalid drive information: ",
                cause.as_str(),
            ),
            DriveError::Unsupported => {
                "drive discovery is not implemented on this platform".to_owned()
            },
        }
    }
}

/// The name of a drive that has none.
pub open spec fn unnamed() -> Seq<char> {
    "Removable drive"@
}

/// The views of some drives.
pub open spec fn drive_views(found: Seq<Drive>) -> Seq<DriveView> {
    Seq::new(found.len(), |i: int| found[i]@)
}

/// What a drive keeps of its identity when it is handed to the worker.
pub open spec fn worker_view(drive: DriveView) -> WorkerDriveView {
    WorkerDriveView { id: drive.id, device: drive.device, capacity: drive.capacity }
}

/// What an operating system says of its disks. A query that failed holds the cause.
#[derive(Debug)]
pub enum DriveFacts {
    /// The devices below `/sys/block`, and the kernel's list of mounts.
    Linux {
        entries: Result<Vec<Result<BlockFacts, String>>, String>,
        mountinfo: Result<String, String>,
    },
    /// The media of the I/O Registry.
    MacOs(Result<Vec<macos_native::DiskRecord>, String>),
    /// The disks of the storage provider.
    Windows(Result<Vec<windows_native::DiskRecord>, String>),
    /// Nothing is known of this operating system.
    Other,
}

/// Whether a result is what discovery gives for these facts.
pub open spec fn is_discovery(result: Result<Vec<Drive>, DriveError>, facts: DriveFacts) -> bool {
    match facts {
        DriveFacts::Linux { entries: Err(cause), mountinfo: _ }
        | DriveFacts::MacOs(Err(cause))
        | DriveFacts::Windows(Err(cause)) => result matches Err(error) && error@
            == DriveErrorView::Io(cause@),
        DriveFacts::Linux { entries: Ok(entries), mountinfo } => match linux::discover_all(
            entries@,
            mountinfo,
        ) {
            Ok(wanted) => result matches Ok(found) && drive_views(found@) == wanted,
            Err(fault) => result matches Err(error) && error@ == fault,
        },
        DriveFacts::MacOs(Ok(records)) => match macos::collect(records@) {
            Ok(media) => result matches Ok(found) && macos::is_listing(drive_views(found@), media),
            Err(fault) => result matches Err(error) && error@ == fault,
        },
        DriveFacts::Windows(Ok(records)) => result matches Ok(found) && drive_views(found@)
            == windows::offered_all(records@),
        DriveFacts::Other => result matches Err(error) && error@ == DriveErrorView::Unsupported,
    }
}

/// Enumerate removable, non-system physical drives.
pub fn removable_drives(facts: &DriveFacts) -> (result: Result<Vec<Drive>, DriveError>)
    ensures
        is_discovery(result, *facts),
{
    match facts {
        DriveFacts::Linux { entries: Ok(entries), mountinfo } => linux::removable_drives(
            entries,
            mountinfo,
        ),
        DriveFacts::MacOs(Ok(records)) => macos::removable_drives(records),
        DriveFacts::Windows(Ok(records)) => Ok(windows::removable_drives(records)),
        DriveFacts::Linux { entries: Err(cause), mountinfo: _ } => Err(DriveError::Io(cause.clone())),
        DriveFacts::MacOs(Err(cause)) => Err(DriveError::Io(cause.clone())),
        DriveFacts::Windows(Err(cause)) => Err(DriveError::Io(cause.clone())),
        DriveFacts::Other => Err(DriveError::Unsupported),
    }
}

/// Whether a drive that was found is that of a device on Linux, of a medium on macOS, or of a disk on
/// Windows that may be offered.
pub open spec fn is_of_an_offerable(drive: DriveView, facts: DriveFacts) -> bool {
    match facts {
        DriveFacts::Linux { entries: Ok(entries), mountinfo } => exists|i: int|
            0 <= i < entries@.len() && (#[trigger] entries@[i] matches Ok(block)
                && linux::may_be_offered(block, mountinfo) && linux::describes(drive, block)),
        DriveFacts::MacOs(Ok(records)) => macos::is_of_a_record(drive, records@),
        DriveFacts::Windows(Ok(records)) => exists|i: int|
            0 <= i < records@.len() && windows::may_be_offered(#[trigger] records@[i])
                && windows::describes(drive, records@[i]),
        _ => false,
    }
}

/// Every device, medium or disk that may be offered is among the drives that are found: none is left
/// out, whatever its place is.
pub proof fn nothing_offerable_is_left_out(
    result: Result<Vec<Drive>, DriveError>,
    facts: DriveFacts,
)
    requires
        is_discovery(result, facts),
        result is Ok,
    ensures
        facts matches DriveFacts::Linux { entries: Ok(entries), mountinfo } ==> forall|i: int|
            0 <= i < entries@.len() && (#[trigger] entries@[i] matches Ok(block)
                && linux::may_be_offered(block, mountinfo)) ==> exists|j: int|
                0 <= j < result->Ok_0@.len() && linux::describes(
                    #[trigger] drive_views(result->Ok_0@)[j],
                    entries@[i]->Ok_0,
                ),
        facts matches DriveFacts::MacOs(Ok(records)) ==> forall|i: int|
            0 <= i < records@.len() && macos::may_be_offered(#[trigger] records@[i])
                ==> exists|j: int|
                0 <= j < result->Ok_0@.len() && macos::describes(
                    #[trigger] drive_views(result->Ok_0@)[j],
                    records@[i],
                ),
        facts matches DriveFacts::Windows(Ok(records)) ==> forall|i: int|
            0 <= i < records@.len() && windows::may_be_offered(#[trigger] records@[i])
                ==> exists|j: int|
                0 <= j < result->Ok_0@.len() && windows::describes(
                    #[trigger] drive_views(result->Ok_0@)[j],
                    records@[i],
                ),
{
    let found = drive_views(result->Ok_0@);
    match facts {
        DriveFacts::Linux { entries: Ok(entries), mountinfo } => {
            linux::every_offerable_device_is_offered(entries@, mountinfo, found);
        },
        DriveFacts::MacOs(Ok(records)) => {
            macos::every_offerable_medium_is_listed(records@, found);
        },
        DriveFacts::Windows(Ok(records)) => {
            windows::every_offerable_disk_is_offered(records@);
        },
        _ => {},
    }
}

/// Discovery fails with the cause of a query that failed, and on a system of which nothing is known;
/// on Windows it fails for no other reason.
pub proof fn discovery_fails_only_for_a_reason(
    result: Result<Vec<Drive>, DriveError>,
    facts: DriveFacts,
)
    requires
        is_discovery(result, facts),
    ensures
        facts matches DriveFacts::Linux { entries: Err(cause), .. } ==> (result matches Err(error)
            && error@ == DriveErrorView::Io(cause@)),
        facts matches DriveFacts::MacOs(Err(cause)) ==> (result matches Err(error) && error@
            == DriveErrorView::Io(cause@)),
        facts matches DriveFacts::Windows(Err(cause)) ==> (result matches Err(error) && error@
            == DriveErrorView::Io(cause@)),
        facts matches DriveFacts::Windows(Ok(_)) ==> result is Ok,
        facts is Other ==> (result matches Err(error) && error@ is Unsupported),
{
}

/// A drive is handed to the worker under the identity, the device and the capacity that it was
/// offered with; only its name is left behind.
pub proof fn drive_keeps_its_identity(drive: DriveView)
    ensures
        worker_view(drive).id == drive.id,
        worker_view(drive).device == drive.device,
        worker_view(drive).capacity == drive.capacity,
{
}

/// Only what may be offered is found: each drive is that of a removable, writable device that is not
/// in use by the system.
pub proof fn only_offerable_drives_are_found(
    result: Result<Vec<Drive>, DriveError>,
    facts: DriveFacts,
    at: int,
)
    requires
        is_discovery(result, facts),
        result matches Ok(found) && 0 <= at < found@.len(),
    ensures
        is_of_an_offerable(drive_views(result->Ok_0@)[at], facts),
{
    let found = drive_views(result->Ok_0@);
    match facts {
        DriveFacts::Linux { entries: Ok(entries), mountinfo } => {
            linux::every_offerable_device_is_offered(entries@, mountinfo, found);
            linux::offerable_devices_are_among_the_entries(entries@, mountinfo, at);
            let block = linux::offerable(entries@, mountinfo)[at];
            assert(linux::describes(found[at], block));
        },
        DriveFacts::MacOs(Ok(records)) => {
            macos::every_offerable_medium_is_listed(records@, found);
            assert(macos::is_of_a_record(found[at], records@));
        },
        DriveFacts::Windows(Ok(records)) => {
            windows::every_offerable_disk_is_offered(records@);
            windows::offerable_disks_are_among_the_records(records@, at);
            let record = windows::offerable(records@)[at];
            assert(windows::describes(found[at], record));
        },
        _ => {},
    }
}

} // verus!
