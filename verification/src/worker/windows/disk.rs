//! The steps in which a physical disk is locked, opened, read back and released.
//!
//! Its volumes stay locked and dismounted from before the write until after it. Before anything was
//! written the lock can be taken back; afterwards the disk is only ever released as it is.

use vstd::prelude::*;
use vstd::string::*;

use crate::flash::FlashError;
use crate::text::join3;
use crate::worker::windows;
use crate::worker::windows::{
    device_open_error, query_disk, validate_post_write_snapshot, validate_snapshot, DiskQuery,
    DiskSnapshot, DiskSnapshotView, PostWriteIdentity, PostWriteIdentityView, SelectedDisk,
};
use crate::worker::{WorkerDrive, WorkerDriveView, WorkerError, WorkerErrorView};

verus! {

/// What is done with the disk.
#[derive(Clone, Copy, Debug, PartialEq, Eq, Structural)]
pub enum DiskOperation {
    /// Its volumes are locked and dismounted, and it is opened for no one else.
    Unmount,
    /// The opened disk is handed to the writer.
    Open,
    /// It is made ready for reading it back.
    Prepare,
    /// It is released.
    Eject,
}

/// The geometry of a disk.
#[derive(Clone, Copy, Debug, PartialEq, Eq, Structural)]
pub struct DiskGeometry {
    pub size: u64,
    pub logical_sector_size: u32,
    pub physical_sector_size: u32,
}

/// What was done.
#[derive(Debug)]
pub enum DiskEvent {
    /// The disk was looked at.
    Query(DiskQuery),
    /// A handle was opened or used, or why it could not be.
    Handle(Result<(), String>),
}

/// What to do next.
#[derive(Debug)]
pub enum DiskAction {
    /// Look at the disk with this number.
    Query(u32),
    /// Open the disk for reading, shared with everyone.
    OpenPin(String),
    /// Lock and dismount every volume on the disk with this number.
    LockVolumes(u32),
    /// Close the handle that pinned the disk.
    ClosePin,
    /// Open the disk for reading and writing, shared with no one.
    OpenExclusive(String),
    /// Close the handle prepared for the writer, and the copy of the writer's.
    CloseHandles,
    /// Close the handle prepared for the writer.
    ClosePrepared,
    /// Close the copy of the writer's handle.
    CloseCopy,
    /// Release the locked volumes.
    ReleaseVolumes,
    /// Copy the prepared handle, and hand it to the writer.
    HandOver,
    /// Write what was written through to the medium.
    SyncTarget,
    /// Write what was written through to the medium, close the writer's handle, open the disk for
    /// reading without the system cache, and make a reader for this geometry.
    BeginVerification(String, DiskGeometry),
    /// Write the handle that was just opened through to the medium, and close it.
    SyncProof,
    /// The operation is over.
    Finish,
    /// Report the error.
    Fail(WorkerError),
}

/// What a [`DiskAction`] holds.
pub enum DiskActionView {
    Query(u32),
    OpenPin(Seq<char>),
    LockVolumes(u32),
    ClosePin,
    OpenExclusive(Seq<char>),
    CloseHandles,
    ClosePrepared,
    CloseCopy,
    ReleaseVolumes,
    HandOver,
    SyncTarget,
    BeginVerification(Seq<char>, DiskGeometry),
    SyncProof,
    Finish,
    Fail(WorkerErrorView),
}

impl View for DiskAction {
    type V = DiskActionView;

    open spec fn view(&self) -> DiskActionView {
        match *self {
            DiskAction::Query(number) => DiskActionView::Query(number),
            DiskAction::OpenPin(device) => DiskActionView::OpenPin(device@),
            DiskAction::LockVolumes(number) => DiskActionView::LockVolumes(number),
            DiskAction::ClosePin => DiskActionView::ClosePin,
            DiskAction::OpenExclusive(device) => DiskActionView::OpenExclusive(device@),
            DiskAction::CloseHandles => DiskActionView::CloseHandles,
            DiskAction::ClosePrepared => DiskActionView::ClosePrepared,
            DiskAction::CloseCopy => DiskActionView::CloseCopy,
            DiskAction::ReleaseVolumes => DiskActionView::ReleaseVolumes,
            DiskAction::HandOver => DiskActionView::HandOver,
            DiskAction::SyncTarget => DiskActionView::SyncTarget,
            DiskAction::BeginVerification(device, geometry) => {
                DiskActionView::BeginVerification(device@, geometry)
            },
            DiskAction::SyncProof => DiskActionView::SyncProof,
            DiskAction::Finish => DiskActionView::Finish,
            DiskAction::Fail(error) => DiskActionView::Fail(error@),
        }
    }
}

/// What the disk waits for.
#[derive(Debug)]
pub enum DiskPhase {
    Idle,
    /// The disk is looked at before it is pinned.
    Unpinned,
    Pinning,
    /// The pinned disk is looked at.
    Pinned,
    Locking,
    Unpinning,
    /// The dismounted disk is looked at.
    Dismounted,
    OpeningExclusive,
    /// The exclusively opened disk is looked at.
    Exclusive,
    /// The lock is taken back, after this error where it was one.
    ClosingForRollback(Option<WorkerError>),
    CheckingForRollback(Option<WorkerError>),
    ReleasingForRollback(Option<WorkerError>),
    /// The disk is looked at before it is handed to the writer.
    BeforeWrite,
    HandingOver,
    /// The written disk is looked at.
    Written,
    SyncingTarget(DiskGeometry),
    ClosingCopy(DiskGeometry),
    BeginningVerification,
    /// The disk is looked at while it is opened for reading it back.
    Verifying,
    ClosingForEject,
    /// The disk is looked at before the copy of the writer's handle is closed.
    StillPinned,
    ClosingCopyForEject,
    /// The disk is looked at after that.
    Released,
    OpeningProof,
    SyncingProof,
    ReleasingVolumes,
}

/// What a [`DiskPhase`] holds.
pub enum DiskPhaseView {
    Idle,
    Unpinned,
    Pinning,
    Pinned,
    Locking,
    Unpinning,
    Dismounted,
    OpeningExclusive,
    Exclusive,
    ClosingForRollback(Option<WorkerErrorView>),
    CheckingForRollback(Option<WorkerErrorView>),
    ReleasingForRollback(Option<WorkerErrorView>),
    BeforeWrite,
    HandingOver,
    Written,
    SyncingTarget(DiskGeometry),
    ClosingCopy(DiskGeometry),
    BeginningVerification,
    Verifying,
    ClosingForEject,
    StillPinned,
    ClosingCopyForEject,
    Released,
    OpeningProof,
    SyncingProof,
    ReleasingVolumes,
}

/// What an optional error holds.
pub open spec fn cause_view(cause: Option<WorkerError>) -> Option<WorkerErrorView> {
    match cause {
        Some(error) => Some(error@),
        None => None,
    }
}

impl View for DiskPhase {
    type V = DiskPhaseView;

    open spec fn view(&self) -> DiskPhaseView {
        match *self {
            DiskPhase::Idle => DiskPhaseView::Idle,
            DiskPhase::Unpinned => DiskPhaseView::Unpinned,
            DiskPhase::Pinning => DiskPhaseView::Pinning,
            DiskPhase::Pinned => DiskPhaseView::Pinned,
            DiskPhase::Locking => DiskPhaseView::Locking,
            DiskPhase::Unpinning => DiskPhaseView::Unpinning,
            DiskPhase::Dismounted => DiskPhaseView::Dismounted,
            DiskPhase::OpeningExclusive => DiskPhaseView::OpeningExclusive,
            DiskPhase::Exclusive => DiskPhaseView::Exclusive,
            DiskPhase::ClosingForRollback(cause) => DiskPhaseView::ClosingForRollback(
                cause_view(cause),
            ),
            DiskPhase::CheckingForRollback(cause) => DiskPhaseView::CheckingForRollback(
                cause_view(cause),
            ),
            DiskPhase::ReleasingForRollback(cause) => DiskPhaseView::ReleasingForRollback(
                cause_view(cause),
            ),
            DiskPhase::BeforeWrite => DiskPhaseView::BeforeWrite,
            DiskPhase::HandingOver => DiskPhaseView::HandingOver,
            DiskPhase::Written => DiskPhaseView::Written,
            DiskPhase::SyncingTarget(geometry) => DiskPhaseView::SyncingTarget(geometry),
            DiskPhase::ClosingCopy(geometry) => DiskPhaseView::ClosingCopy(geometry),
            DiskPhase::BeginningVerification => DiskPhaseView::BeginningVerification,
            DiskPhase::Verifying => DiskPhaseView::Verifying,
            DiskPhase::ClosingForEject => DiskPhaseView::ClosingForEject,
            DiskPhase::StillPinned => DiskPhaseView::StillPinned,
            DiskPhase::ClosingCopyForEject => DiskPhaseView::ClosingCopyForEject,
            DiskPhase::Released => DiskPhaseView::Released,
            DiskPhase::OpeningProof => DiskPhaseView::OpeningProof,
            DiskPhase::SyncingProof => DiskPhaseView::SyncingProof,
            DiskPhase::ReleasingVolumes => DiskPhaseView::ReleasingVolumes,
        }
    }
}

/// The state of a disk that a job works on.
pub struct DiskState {
    pub selected: WorkerDriveView,
    pub phase: DiskPhaseView,
    /// The volumes were locked and dismounted.
    pub volumes_dismounted: bool,
    /// The disk was handed to the writer.
    pub write_may_have_started: bool,
    /// A handle is prepared for the writer.
    pub is_prepared: bool,
    /// The volumes are locked.
    pub is_locked: bool,
    /// What the disk keeps when it is written.
    pub post_write_identity: Option<PostWriteIdentityView>,
    /// The disk as it was before its volumes were locked.
    pub rollback_snapshot: Option<DiskSnapshotView>,
}

impl DiskState {
    /// Whether the event answers what the disk waits for.
    pub open spec fn expects(self, event: DiskEvent) -> bool {
        match self.phase {
            DiskPhaseView::Idle => false,
            DiskPhaseView::Unpinned
            | DiskPhaseView::Pinned
            | DiskPhaseView::Dismounted
            | DiskPhaseView::Exclusive
            | DiskPhaseView::CheckingForRollback(_)
            | DiskPhaseView::BeforeWrite
            | DiskPhaseView::Written
            | DiskPhaseView::Verifying
            | DiskPhaseView::StillPinned
            | DiskPhaseView::Released => event is Query,
            _ => event is Handle,
        }
    }

    /// The next phase, with what it waits for.
    pub open spec fn go(self, phase: DiskPhaseView, action: DiskActionView) -> (
        DiskState,
        DiskActionView,
    ) {
        (DiskState { phase, ..self }, action)
    }

    /// The operation is over.
    pub open spec fn finish(self) -> (DiskState, DiskActionView) {
        self.go(DiskPhaseView::Idle, DiskActionView::Finish)
    }

    /// The operation gives up.
    pub open spec fn fail(self, fault: WorkerErrorView) -> (DiskState, DiskActionView) {
        self.go(DiskPhaseView::Idle, DiskActionView::Fail(fault))
    }

    /// The disk that the worker drive names.
    pub open spec fn disk(self) -> Option<windows::SelectedDiskView> {
        windows::selected_disk(self.selected)
    }

    /// A look at the selected disk.
    pub open spec fn query(self, phase: DiskPhaseView) -> (DiskState, DiskActionView) {
        match self.disk() {
            Some(disk) => self.go(phase, DiskActionView::Query(disk.number)),
            None => self.fail(WorkerErrorView::UnsafeTarget),
        }
    }

    /// Why a disk that was looked at is not the selected one.
    pub open spec fn query_fault(self, query: DiskQuery) -> Option<WorkerErrorView> {
        match (windows::queried(query), self.disk()) {
            (Err(fault), _) => Some(fault),
            (_, None) => Some(WorkerErrorView::UnsafeTarget),
            (Ok(snapshot), Some(disk)) => windows::snapshot_fault(
                self.selected,
                disk,
                snapshot@,
                Some(false),
            ),
        }
    }

    /// Why a disk that was looked at is not the one that was written.
    pub open spec fn written_fault(self, query: DiskQuery) -> Option<WorkerErrorView> {
        match (windows::queried(query), self.disk(), self.post_write_identity) {
            (Err(fault), _, _) => Some(fault),
            (Ok(snapshot), Some(disk), Some(expected)) => windows::post_write_fault(
                self.selected,
                disk,
                snapshot@,
                expected,
            ),
            _ => Some(WorkerErrorView::UnsafeTarget),
        }
    }

    /// The lock could not be taken back.
    pub open spec fn rollback_failed(self, cause: Option<WorkerErrorView>, fault: WorkerErrorView)
        -> (DiskState, DiskActionView) {
        match cause {
            None => self.fail(fault),
            Some(error) => self.fail(
                WorkerErrorView::Platform(
                    error.text() + "; Windows volume-lock cleanup also failed: "@ + fault.text(),
                ),
            ),
        }
    }

    /// The lock is taken back, unless something may have been written.
    pub open spec fn rollback(self, cause: Option<WorkerErrorView>) -> (DiskState, DiskActionView) {
        if self.write_may_have_started {
            self.rollback_failed(cause, WorkerErrorView::UnsafeTarget)
        } else {
            DiskState { is_prepared: false, ..self }.go(
                DiskPhaseView::ClosingForRollback(cause),
                DiskActionView::CloseHandles,
            )
        }
    }

    /// What follows on the closed handles of a lock that is taken back.
    pub open spec fn rollback_closed(self, cause: Option<WorkerErrorView>) -> (
        DiskState,
        DiskActionView,
    ) {
        match (self.rollback_snapshot, self.disk()) {
            (Some(_), Some(disk)) => self.go(
                DiskPhaseView::CheckingForRollback(cause),
                DiskActionView::Query(disk.number),
            ),
            _ => self.rollback_failed(cause, WorkerErrorView::UnsafeTarget),
        }
    }

    /// What follows on a look at a disk whose lock is taken back: it has to be exactly as it was.
    pub open spec fn rollback_checked(self, cause: Option<WorkerErrorView>, query: DiskQuery) -> (
        DiskState,
        DiskActionView,
    ) {
        match self.query_fault(query) {
            Some(fault) => self.rollback_failed(cause, fault),
            None => if self.rollback_snapshot == Some(windows::queried(query)->Ok_0@) {
                self.go(
                    DiskPhaseView::ReleasingForRollback(cause),
                    DiskActionView::ReleaseVolumes,
                )
            } else {
                self.rollback_failed(cause, WorkerErrorView::TargetChanged)
            },
        }
    }

    /// The lock was taken back.
    pub open spec fn rolled_back(self, cause: Option<WorkerErrorView>) -> (
        DiskState,
        DiskActionView,
    ) {
        let state = DiskState {
            is_locked: false,
            rollback_snapshot: None,
            post_write_identity: None,
            volumes_dismounted: false,
            ..self
        };
        match cause {
            None => state.finish(),
            Some(error) => state.fail(error),
        }
    }

    /// How an operation begins.
    pub open spec fn begin(self, operation: DiskOperation) -> (DiskState, DiskActionView) {
        match operation {
            DiskOperation::Unmount => if self.is_prepared || self.volumes_dismounted
                || self.write_may_have_started || self.is_locked {
                self.fail(WorkerErrorView::UnsafeTarget)
            } else {
                self.query(DiskPhaseView::Unpinned)
            },
            DiskOperation::Open => if !self.volumes_dismounted {
                self.fail(WorkerErrorView::UnsafeTarget)
            } else {
                self.query(DiskPhaseView::BeforeWrite)
            },
            DiskOperation::Prepare => self.query(DiskPhaseView::Written),
            DiskOperation::Eject => if self.write_may_have_started {
                DiskState { is_prepared: false, ..self }.go(
                    DiskPhaseView::ClosingForEject,
                    DiskActionView::ClosePrepared,
                )
            } else if self.volumes_dismounted {
                self.rollback(None)
            } else {
                self.finish()
            },
        }
    }

    /// What follows on a look at the disk.
    pub open spec fn after_query(self, query: DiskQuery) -> (DiskState, DiskActionView) {
        let snapshot = windows::queried(query)->Ok_0@;
        let disk = self.disk()->0;
        match self.phase {
            DiskPhaseView::Unpinned => match self.query_fault(query) {
                Some(fault) => self.fail(fault),
                None => self.go(DiskPhaseView::Pinning, DiskActionView::OpenPin(disk.device)),
            },
            DiskPhaseView::Pinned => match self.query_fault(query) {
                Some(fault) => self.fail(fault),
                None => DiskState {
                    post_write_identity: Some(snapshot.post_write()),
                    rollback_snapshot: Some(snapshot),
                    ..self
                }.go(DiskPhaseView::Locking, DiskActionView::LockVolumes(disk.number)),
            },
            DiskPhaseView::Dismounted => match self.query_fault(query) {
                Some(fault) => self.rollback(Some(fault)),
                None => self.go(
                    DiskPhaseView::OpeningExclusive,
                    DiskActionView::OpenExclusive(disk.device),
                ),
            },
            DiskPhaseView::Exclusive => match self.query_fault(query) {
                Some(fault) => self.rollback(Some(fault)),
                None => DiskState {
                    is_prepared: true,
                    post_write_identity: Some(snapshot.post_write()),
                    ..self
                }.finish(),
            },
            DiskPhaseView::CheckingForRollback(cause) => self.rollback_checked(cause, query),
            DiskPhaseView::BeforeWrite => match self.query_fault(query) {
                Some(fault) => self.fail(fault),
                None => if self.is_prepared {
                    DiskState { is_prepared: false, ..self }.go(
                        DiskPhaseView::HandingOver,
                        DiskActionView::HandOver,
                    )
                } else {
                    self.fail(WorkerErrorView::UnsafeTarget)
                },
            },
            DiskPhaseView::Written => match self.written_fault(query) {
                Some(fault) => self.fail(fault),
                None => self.go(
                    DiskPhaseView::SyncingTarget(
                        DiskGeometry {
                            size: snapshot.size,
                            logical_sector_size: snapshot.logical_sector_size,
                            physical_sector_size: snapshot.physical_sector_size,
                        },
                    ),
                    DiskActionView::SyncTarget,
                ),
            },
            DiskPhaseView::Verifying => match self.written_fault(query) {
                Some(fault) => self.fail(fault),
                None => self.finish(),
            },
            DiskPhaseView::StillPinned => match self.written_fault(query) {
                Some(fault) => self.fail(fault),
                None => self.go(DiskPhaseView::ClosingCopyForEject, DiskActionView::CloseCopy),
            },
            _ => match self.written_fault(query) {
                Some(fault) => self.fail(fault),
                None => self.go(
                    DiskPhaseView::OpeningProof,
                    DiskActionView::OpenExclusive(disk.device),
                ),
            },
        }
    }

    /// What follows on a handle that was opened or used.
    pub open spec fn after_handle(self, result: Result<(), String>) -> (
        DiskState,
        DiskActionView,
    ) {
        let disk = self.disk()->0;
        match self.phase {
            DiskPhaseView::Pinning => match result {
                Err(cause) => self.fail(windows::open_fault(cause@)),
                Ok(_) => self.query(DiskPhaseView::Pinned),
            },
            DiskPhaseView::Locking => match result {
                Err(cause) => DiskState {
                    post_write_identity: None,
                    rollback_snapshot: None,
                    ..self
                }.fail(WorkerErrorView::Platform(cause@)),
                Ok(_) => DiskState { is_locked: true, volumes_dismounted: true, ..self }.go(
                    DiskPhaseView::Unpinning,
                    DiskActionView::ClosePin,
                ),
            },
            DiskPhaseView::Unpinning => self.query(DiskPhaseView::Dismounted),
            DiskPhaseView::OpeningExclusive => match result {
                Err(cause) => self.rollback(Some(windows::open_fault(cause@))),
                Ok(_) => self.query(DiskPhaseView::Exclusive),
            },
            DiskPhaseView::ClosingForRollback(cause) => self.rollback_closed(cause),
            DiskPhaseView::ReleasingForRollback(cause) => self.rolled_back(cause),
            DiskPhaseView::HandingOver => match result {
                Err(cause) => self.fail(WorkerErrorView::Platform(cause@)),
                Ok(_) => DiskState {
                    write_may_have_started: true,
                    rollback_snapshot: None,
                    ..self
                }.finish(),
            },
            DiskPhaseView::SyncingTarget(geometry) => match result {
                Err(cause) => self.fail(WorkerErrorView::Flash(FlashError::Io(cause))),
                Ok(_) => self.go(
                    DiskPhaseView::ClosingCopy(geometry),
                    DiskActionView::CloseCopy,
                ),
            },
            DiskPhaseView::ClosingCopy(geometry) => match self.disk() {
                Some(disk) => self.go(
                    DiskPhaseView::BeginningVerification,
                    DiskActionView::BeginVerification(disk.device, geometry),
                ),
                None => self.fail(WorkerErrorView::UnsafeTarget),
            },
            DiskPhaseView::BeginningVerification => match result {
                Err(cause) => self.fail(WorkerErrorView::Flash(FlashError::Io(cause))),
                Ok(_) => self.query(DiskPhaseView::Verifying),
            },
            DiskPhaseView::ClosingForEject => self.query(DiskPhaseView::StillPinned),
            DiskPhaseView::ClosingCopyForEject => if self.is_locked {
                self.query(DiskPhaseView::Released)
            } else {
                self.fail(WorkerErrorView::UnsafeTarget)
            },
            DiskPhaseView::OpeningProof => match result {
                Err(cause) => self.fail(windows::open_fault(cause@)),
                Ok(_) => self.go(DiskPhaseView::SyncingProof, DiskActionView::SyncProof),
            },
            DiskPhaseView::SyncingProof => match result {
                Err(cause) => self.fail(WorkerErrorView::Platform(cause@)),
                Ok(_) => self.go(
                    DiskPhaseView::ReleasingVolumes,
                    DiskActionView::ReleaseVolumes,
                ),
            },
            _ => DiskState {
                is_locked: false,
                volumes_dismounted: true,
                write_may_have_started: true,
                ..self
            }.finish(),
        }
    }

    /// What follows on an event.
    pub open spec fn step(self, event: DiskEvent) -> (DiskState, DiskActionView) {
        match event {
            DiskEvent::Query(query) => self.after_query(query),
            DiskEvent::Handle(result) => self.after_handle(result),
        }
    }
}

/// A disk that nothing was done with.
pub open spec fn untouched(selected: WorkerDriveView) -> DiskState {
    DiskState {
        selected,
        phase: DiskPhaseView::Idle,
        volumes_dismounted: false,
        write_may_have_started: false,
        is_prepared: false,
        is_locked: false,
        post_write_identity: None,
        rollback_snapshot: None,
    }
}

/// The Windows backend of one job.
pub struct WindowsPlatform<'a> {
    selected: &'a WorkerDrive,
    phase: DiskPhase,
    volumes_dismounted: bool,
    write_may_have_started: bool,
    is_prepared: bool,
    is_locked: bool,
    post_write_identity: Option<PostWriteIdentity>,
    rollback_snapshot: Option<DiskSnapshot>,
}

impl<'a> View for WindowsPlatform<'a> {
    type V = DiskState;

    closed spec fn view(&self) -> DiskState {
        DiskState {
            selected: self.selected@,
            phase: self.phase@,
            volumes_dismounted: self.volumes_dismounted,
            write_may_have_started: self.write_may_have_started,
            is_prepared: self.is_prepared,
            is_locked: self.is_locked,
            post_write_identity: match self.post_write_identity {
                Some(identity) => Some(identity@),
                None => None,
            },
            rollback_snapshot: match self.rollback_snapshot {
                Some(snapshot) => Some(snapshot@),
                None => None,
            },
        }
    }
}

impl<'a> WindowsPlatform<'a> {
    /// The backend of a job with this target.
    pub fn new(selected: &'a WorkerDrive) -> (platform: WindowsPlatform<'a>)
        ensures
            platform@ == untouched(selected@),
    {
        WindowsPlatform {
            selected,
            phase: DiskPhase::Idle,
            volumes_dismounted: false,
            write_may_have_started: false,
            is_prepared: false,
            is_locked: false,
            post_write_identity: None,
            rollback_snapshot: None,
        }
    }

    fn go(&mut self, phase: DiskPhase, action: DiskAction) -> (result: DiskAction)
        ensures
            (final(self)@, result@) == old(self)@.go(phase@, action@),
    {
        self.phase = phase;
        action
    }

    fn finish(&mut self) -> (action: DiskAction)
        ensures
            (final(self)@, action@) == old(self)@.finish(),
    {
        self.go(DiskPhase::Idle, DiskAction::Finish)
    }

    fn fail(&mut self, error: WorkerError) -> (action: DiskAction)
        ensures
            (final(self)@, action@) == old(self)@.fail(error@),
    {
        self.go(DiskPhase::Idle, DiskAction::Fail(error))
    }

    fn query(&mut self, phase: DiskPhase) -> (action: DiskAction)
        ensures
            (final(self)@, action@) == old(self)@.query(phase@),
    {
        match SelectedDisk::parse(self.selected) {
            Ok(disk) => self.go(phase, DiskAction::Query(disk.number)),
            Err(error) => self.fail(error),
        }
    }

    /// The disk that was looked at, where it is the selected one.
    fn current(&self, query: &DiskQuery) -> (result: Result<
        (DiskSnapshot, SelectedDisk),
        WorkerError,
    >)
        ensures
            match result {
                Ok((snapshot, disk)) => {
                    &&& self@.query_fault(*query) is None
                    &&& windows::queried(*query) == Ok::<DiskSnapshot, WorkerErrorView>(snapshot)
                    &&& self@.disk() == Some(disk@)
                },
                Err(error) => self@.query_fault(*query) == Some(error@),
            },
    {
        let snapshot = match query_disk(query) {
            Err(error) => {
                return Err(error);
            },
            Ok(snapshot) => snapshot,
        };
        let disk = match SelectedDisk::parse(self.selected) {
            Err(error) => {
                return Err(error);
            },
            Ok(disk) => disk,
        };
        match validate_snapshot(self.selected, &disk, &snapshot, Some(false)) {
            Err(error) => Err(error),
            Ok(()) => Ok((snapshot, disk)),
        }
    }

    /// The disk that was looked at, where it is the one that was written.
    fn written(&self, query: &DiskQuery) -> (result: Result<
        (DiskSnapshot, SelectedDisk),
        WorkerError,
    >)
        ensures
            match result {
                Ok((snapshot, disk)) => {
                    &&& self@.written_fault(*query) is None
                    &&& windows::queried(*query) == Ok::<DiskSnapshot, WorkerErrorView>(snapshot)
                    &&& self@.disk() == Some(disk@)
                },
                Err(error) => self@.written_fault(*query) == Some(error@),
            },
    {
        let snapshot = match query_disk(query) {
            Err(error) => {
                return Err(error);
            },
            Ok(snapshot) => snapshot,
        };
        let disk = match SelectedDisk::parse(self.selected) {
            Err(error) => {
                return Err(error);
            },
            Ok(disk) => disk,
        };
        match &self.post_write_identity {
            None => Err(WorkerError::UnsafeTarget),
            Some(expected) => {
                match validate_post_write_snapshot(self.selected, &disk, &snapshot, expected) {
                    Err(error) => Err(error),
                    Ok(()) => Ok((snapshot, disk)),
                }
            },
        }
    }

    fn rollback_failed(&mut self, cause: Option<WorkerError>, error: WorkerError) -> (action:
        DiskAction)
        ensures
            (final(self)@, action@) == old(self)@.rollback_failed(cause_view(cause), error@),
    {
        match cause {
            None => self.fail(error),
            Some(first) => {
                let first = first.message();
                let second = error.message();
                self.fail(
                    WorkerError::Platform(
                        join3(
                            first.as_str(),
                            "; Windows volume-lock cleanup also failed: ",
                            second.as_str(),
                        ),
                    ),
                )
            },
        }
    }

    fn rollback(&mut self, cause: Option<WorkerError>) -> (action: DiskAction)
        ensures
            (final(self)@, action@) == old(self)@.rollback(cause_view(cause)),
    {
        if self.write_may_have_started {
            return self.rollback_failed(cause, WorkerError::UnsafeTarget);
        }
        self.is_prepared = false;
        self.go(DiskPhase::ClosingForRollback(cause), DiskAction::CloseHandles)
    }

    fn rollback_closed(&mut self, cause: Option<WorkerError>) -> (action: DiskAction)
        ensures
            (final(self)@, action@) == old(self)@.rollback_closed(cause_view(cause)),
    {
        if self.rollback_snapshot.is_none() {
            return self.rollback_failed(cause, WorkerError::UnsafeTarget);
        }
        match SelectedDisk::parse(self.selected) {
            Ok(disk) => self.go(
                DiskPhase::CheckingForRollback(cause),
                DiskAction::Query(disk.number),
            ),
            Err(error) => self.rollback_failed(cause, error),
        }
    }

    fn rollback_checked(&mut self, cause: Option<WorkerError>, query: &DiskQuery) -> (action:
        DiskAction)
        ensures
            (final(self)@, action@) == old(self)@.rollback_checked(cause_view(cause), *query),
    {
        match self.current(query) {
            Err(error) => self.rollback_failed(cause, error),
            Ok((snapshot, _)) => {
                let unchanged = match &self.rollback_snapshot {
                    Some(expected) => expected.same(&snapshot),
                    None => false,
                };
                if unchanged {
                    self.go(DiskPhase::ReleasingForRollback(cause), DiskAction::ReleaseVolumes)
                } else {
                    self.rollback_failed(cause, WorkerError::TargetChanged)
                }
            },
        }
    }

    fn rolled_back(&mut self, cause: Option<WorkerError>) -> (action: DiskAction)
        ensures
            (final(self)@, action@) == old(self)@.rolled_back(cause_view(cause)),
    {
        self.is_locked = false;
        self.rollback_snapshot = None;
        self.post_write_identity = None;
        self.volumes_dismounted = false;
        match cause {
            None => self.finish(),
            Some(error) => self.fail(error),
        }
    }

    /// Begin an operation.
    pub fn begin(&mut self, operation: DiskOperation) -> (action: DiskAction)
        requires
            old(self)@.phase is Idle,
        ensures
            (final(self)@, action@) == old(self)@.begin(operation),
    {
        match operation {
            DiskOperation::Unmount => {
                if self.is_prepared || self.volumes_dismounted || self.write_may_have_started
                    || self.is_locked {
                    return self.fail(WorkerError::UnsafeTarget);
                }
                self.query(DiskPhase::Unpinned)
            },
            DiskOperation::Open => {
                if !self.volumes_dismounted {
                    return self.fail(WorkerError::UnsafeTarget);
                }
                self.query(DiskPhase::BeforeWrite)
            },
            DiskOperation::Prepare => self.query(DiskPhase::Written),
            DiskOperation::Eject => {
                if self.write_may_have_started {
                    self.is_prepared = false;
                    self.go(DiskPhase::ClosingForEject, DiskAction::ClosePrepared)
                } else if self.volumes_dismounted {
                    self.rollback(None)
                } else {
                    self.finish()
                }
            },
        }
    }

    fn after_selected(
        &mut self,
        phase: DiskPhase,
        snapshot: DiskSnapshot,
        disk: SelectedDisk,
    ) -> (action: DiskAction)
        requires
            phase is Unpinned || phase is Pinned || phase is Dismounted || phase is Exclusive
                || phase is BeforeWrite,
            old(self)@.disk() == Some(disk@),
        ensures
            forall|query: DiskQuery|
                #![trigger windows::queried(query)]
                old(self)@.query_fault(query) is None && windows::queried(query) == Ok::<
                    DiskSnapshot,
                    WorkerErrorView,
                >(snapshot) ==> (final(self)@, action@) == (DiskState {
                    phase: phase@,
                    ..old(self)@
                }).after_query(query),
    {
        match phase {
            DiskPhase::Unpinned => self.go(DiskPhase::Pinning, DiskAction::OpenPin(disk.device)),
            DiskPhase::Pinned => {
                self.post_write_identity = Some(PostWriteIdentity::of(&snapshot));
                self.rollback_snapshot = Some(snapshot);
                self.go(DiskPhase::Locking, DiskAction::LockVolumes(disk.number))
            },
            DiskPhase::Dismounted => self.go(
                DiskPhase::OpeningExclusive,
                DiskAction::OpenExclusive(disk.device),
            ),
            DiskPhase::Exclusive => {
                self.is_prepared = true;
                self.post_write_identity = Some(PostWriteIdentity::of(&snapshot));
                self.finish()
            },
            _ => {
                if !self.is_prepared {
                    return self.fail(WorkerError::UnsafeTarget);
                }
                self.is_prepared = false;
                self.go(DiskPhase::HandingOver, DiskAction::HandOver)
            },
        }
    }

    fn after_written(
        &mut self,
        phase: DiskPhase,
        snapshot: DiskSnapshot,
        disk: SelectedDisk,
    ) -> (action: DiskAction)
        requires
            phase is Written || phase is Verifying || phase is StillPinned || phase is Released,
            old(self)@.disk() == Some(disk@),
        ensures
            forall|query: DiskQuery|
                #![trigger windows::queried(query)]
                old(self)@.written_fault(query) is None && windows::queried(query) == Ok::<
                    DiskSnapshot,
                    WorkerErrorView,
                >(snapshot) ==> (final(self)@, action@) == (DiskState {
                    phase: phase@,
                    ..old(self)@
                }).after_query(query),
    {
        match phase {
            DiskPhase::Written => {
                let geometry = DiskGeometry {
                    size: snapshot.size,
                    logical_sector_size: snapshot.logical_sector_size,
                    physical_sector_size: snapshot.physical_sector_size,
                };
                self.go(DiskPhase::SyncingTarget(geometry), DiskAction::SyncTarget)
            },
            DiskPhase::Verifying => self.finish(),
            DiskPhase::StillPinned => self.go(
                DiskPhase::ClosingCopyForEject,
                DiskAction::CloseCopy,
            ),
            _ => self.go(DiskPhase::OpeningProof, DiskAction::OpenExclusive(disk.device)),
        }
    }

    fn after_query(&mut self, query: &DiskQuery) -> (action: DiskAction)
        requires
            old(self)@.expects(DiskEvent::Query(*query)),
        ensures
            (final(self)@, action@) == old(self)@.after_query(*query),
    {
        let mut phase = DiskPhase::Idle;
        core::mem::swap(&mut phase, &mut self.phase);
        match phase {
            DiskPhase::CheckingForRollback(cause) => self.rollback_checked(cause, query),
            DiskPhase::Dismounted | DiskPhase::Exclusive => match self.current(query) {
                Err(error) => self.rollback(Some(error)),
                Ok((snapshot, disk)) => self.after_selected(phase, snapshot, disk),
            },
            DiskPhase::Unpinned | DiskPhase::Pinned | DiskPhase::BeforeWrite => {
                match self.current(query) {
                    Err(error) => self.fail(error),
                    Ok((snapshot, disk)) => self.after_selected(phase, snapshot, disk),
                }
            },
            _ => match self.written(query) {
                Err(error) => self.fail(error),
                Ok((snapshot, disk)) => self.after_written(phase, snapshot, disk),
            },
        }
    }

    fn after_opened(&mut self, phase: DiskPhase, result: &Result<(), String>) -> (action:
        DiskAction)
        requires
            phase is Pinning || phase is Locking || phase is OpeningExclusive || phase
                is HandingOver || phase is OpeningProof || phase is SyncingProof,
        ensures
            (final(self)@, action@) == (DiskState {
                phase: phase@,
                ..old(self)@
            }).after_handle(*result),
    {
        match (phase, result) {
            (DiskPhase::Pinning, Err(cause)) => self.fail(device_open_error(cause.as_str())),
            (DiskPhase::Pinning, Ok(())) => self.query(DiskPhase::Pinned),
            (DiskPhase::Locking, Err(cause)) => {
                self.post_write_identity = None;
                self.rollback_snapshot = None;
                self.fail(WorkerError::Platform(cause.clone()))
            },
            (DiskPhase::Locking, Ok(())) => {
                self.is_locked = true;
                self.volumes_dismounted = true;
                self.go(DiskPhase::Unpinning, DiskAction::ClosePin)
            },
            (DiskPhase::OpeningExclusive, Err(cause)) => {
                self.rollback(Some(device_open_error(cause.as_str())))
            },
            (DiskPhase::OpeningExclusive, Ok(())) => self.query(DiskPhase::Exclusive),
            (DiskPhase::HandingOver, Err(cause)) => self.fail(WorkerError::Platform(cause.clone())),
            (DiskPhase::HandingOver, Ok(())) => {
                self.write_may_have_started = true;
                self.rollback_snapshot = None;
                self.finish()
            },
            (DiskPhase::OpeningProof, Err(cause)) => self.fail(device_open_error(cause.as_str())),
            (DiskPhase::OpeningProof, Ok(())) => self.go(
                DiskPhase::SyncingProof,
                DiskAction::SyncProof,
            ),
            (_, Err(cause)) => self.fail(WorkerError::Platform(cause.clone())),
            (_, Ok(())) => self.go(DiskPhase::ReleasingVolumes, DiskAction::ReleaseVolumes),
        }
    }

    fn after_handle(&mut self, result: &Result<(), String>) -> (action: DiskAction)
        requires
            old(self)@.expects(DiskEvent::Handle(*result)),
        ensures
            (final(self)@, action@) == old(self)@.after_handle(*result),
    {
        let mut phase = DiskPhase::Idle;
        core::mem::swap(&mut phase, &mut self.phase);
        match phase {
            DiskPhase::Pinning
            | DiskPhase::Locking
            | DiskPhase::OpeningExclusive
            | DiskPhase::HandingOver
            | DiskPhase::OpeningProof
            | DiskPhase::SyncingProof => self.after_opened(phase, result),
            DiskPhase::Unpinning => self.query(DiskPhase::Dismounted),
            DiskPhase::ClosingForRollback(cause) => self.rollback_closed(cause),
            DiskPhase::ReleasingForRollback(cause) => self.rolled_back(cause),
            DiskPhase::SyncingTarget(geometry) => match result {
                Err(cause) => self.fail(WorkerError::Flash(FlashError::Io(cause.clone()))),
                Ok(()) => self.go(DiskPhase::ClosingCopy(geometry), DiskAction::CloseCopy),
            },
            DiskPhase::ClosingCopy(geometry) => match SelectedDisk::parse(self.selected) {
                Ok(disk) => self.go(
                    DiskPhase::BeginningVerification,
                    DiskAction::BeginVerification(disk.device, geometry),
                ),
                Err(error) => self.fail(error),
            },
            DiskPhase::BeginningVerification => match result {
                Err(cause) => self.fail(WorkerError::Flash(FlashError::Io(cause.clone()))),
                Ok(()) => self.query(DiskPhase::Verifying),
            },
            DiskPhase::ClosingForEject => self.query(DiskPhase::StillPinned),
            DiskPhase::ClosingCopyForEject => {
                if self.is_locked {
                    self.query(DiskPhase::Released)
                } else {
                    self.fail(WorkerError::UnsafeTarget)
                }
            },
            _ => {
                self.is_locked = false;
                self.volumes_dismounted = true;
                self.write_may_have_started = true;
                self.finish()
            },
        }
    }

    /// What to do next after something was done.
    pub fn step(&mut self, event: &DiskEvent) -> (action: DiskAction)
        requires
            old(self)@.expects(*event),
        ensures
            (final(self)@, action@) == old(self)@.step(*event),
    {
        match event {
            DiskEvent::Query(query) => self.after_query(query),
            DiskEvent::Handle(result) => self.after_handle(result),
        }
    }
}

/// The phases in which nothing can have been written yet.
pub open spec fn is_before_write(phase: DiskPhaseView) -> bool {
    phase is Unpinned || phase is Pinning || phase is Pinned || phase is Locking || phase
        is Unpinning || phase is Dismounted || phase is OpeningExclusive || phase is Exclusive
        || phase is ClosingForRollback || phase is CheckingForRollback || phase
        is ReleasingForRollback
}

/// What a disk keeps: a lock is only ever taken, or taken back, before anything was written.
pub open spec fn disk_keeps(state: DiskState) -> bool {
    is_before_write(state.phase) ==> !state.write_may_have_started
}

/// The operations on a disk keep that a lock is only taken, or taken back, before anything was
/// written.
pub proof fn lock_is_taken_back_only_before_the_write(
    state: DiskState,
    operation: DiskOperation,
    event: DiskEvent,
)
    requires
        disk_keeps(state),
    ensures
        disk_keeps(untouched(state.selected)),
        disk_keeps(state.begin(operation).0),
        state.expects(event) ==> disk_keeps(state.step(event).0),
{
}

/// Once the disk may have been written its volumes are released only after the disk was opened for
/// no one else and written through.
pub proof fn written_disk_is_released_only_after_a_proof(state: DiskState, event: DiskEvent)
    requires
        disk_keeps(state),
        state.write_may_have_started,
        state.expects(event),
        state.step(event).1 is ReleaseVolumes,
    ensures
        state.phase is SyncingProof,
        event matches DiskEvent::Handle(Ok(_)),
{
}

/// The disk is handed to the writer only where its volumes are dismounted, a handle is prepared,
/// and the disk was just found to be the selected one.
pub proof fn disk_is_handed_over_only_when_prepared(state: DiskState, event: DiskEvent)
    requires
        state.expects(event),
        state.step(event).1 is HandOver,
    ensures
        state.is_prepared,
        event matches DiskEvent::Query(query) && state.query_fault(query) is None,
{
}

/// Ejecting a disk that nothing was done with does nothing.
pub proof fn ejecting_an_untouched_disk_does_nothing(selected: WorkerDriveView)
    ensures
        untouched(selected).begin(DiskOperation::Eject) == untouched(selected).finish(),
{
}

/// An untroubled unmounting looks at the disk, pins it, looks at it again, locks its volumes, lets go
/// of the pin, looks at it once more and opens it for no one else; when it is still the selected one
/// a handle is prepared for the writer and the volumes stay locked.
pub proof fn untroubled_unmounting_prepares_the_disk(
    selected: WorkerDriveView,
    disk: windows::SelectedDiskView,
    first: DiskQuery,
    second: DiskQuery,
    third: DiskQuery,
    fourth: DiskQuery,
)
    requires
        windows::selected_disk(selected) == Some(disk),
        untouched(selected).query_fault(first) is None,
        untouched(selected).query_fault(second) is None,
        untouched(selected).query_fault(third) is None,
        untouched(selected).query_fault(fourth) is None,
    ensures
        ({
            let (one, looks) = untouched(selected).begin(DiskOperation::Unmount);
            let (two, pins) = one.step(DiskEvent::Query(first));
            let (three, looks_again) = two.step(DiskEvent::Handle(Ok(())));
            let (four, locks) = three.step(DiskEvent::Query(second));
            let (five, unpins) = four.step(DiskEvent::Handle(Ok(())));
            let (six, looks_once_more) = five.step(DiskEvent::Handle(Ok(())));
            let (seven, opens) = six.step(DiskEvent::Query(third));
            let (eight, looks_last) = seven.step(DiskEvent::Handle(Ok(())));
            let (nine, last) = eight.step(DiskEvent::Query(fourth));
            &&& looks == DiskActionView::Query(disk.number)
            &&& pins == DiskActionView::OpenPin(disk.device)
            &&& looks_again == DiskActionView::Query(disk.number)
            &&& locks == DiskActionView::LockVolumes(disk.number)
            &&& unpins is ClosePin
            &&& looks_once_more == DiskActionView::Query(disk.number)
            &&& opens == DiskActionView::OpenExclusive(disk.device)
            &&& looks_last == DiskActionView::Query(disk.number)
            &&& last is Finish
            &&& nine.is_prepared && nine.is_locked && nine.volumes_dismounted
                && !nine.write_may_have_started
            &&& nine.rollback_snapshot == Some(windows::queried(second)->Ok_0@)
            &&& nine.post_write_identity == Some(windows::queried(fourth)->Ok_0@.post_write())
        }),
{
}

/// A prepared disk that is still the selected one is handed to the writer, and from then on it may
/// have been written.
pub proof fn prepared_disk_is_handed_over(
    state: DiskState,
    disk: windows::SelectedDiskView,
    query: DiskQuery,
)
    requires
        state.phase is Idle,
        state.volumes_dismounted && state.is_prepared,
        windows::selected_disk(state.selected) == Some(disk),
        state.query_fault(query) is None,
    ensures
        ({
            let (one, looks) = state.begin(DiskOperation::Open);
            let (two, hands) = one.step(DiskEvent::Query(query));
            let (three, last) = two.step(DiskEvent::Handle(Ok(())));
            &&& looks == DiskActionView::Query(disk.number)
            &&& hands is HandOver
            &&& last is Finish
            &&& three.write_may_have_started && !three.is_prepared && three.is_locked
                == state.is_locked
        }),
{
}

/// For the read-back the written disk is looked at, written through and opened anew with its own
/// geometry, without the system cache; then it is looked at once more.
pub proof fn written_disk_is_opened_for_the_read_back(
    state: DiskState,
    disk: windows::SelectedDiskView,
    first: DiskQuery,
    second: DiskQuery,
)
    requires
        state.phase is Idle,
        windows::selected_disk(state.selected) == Some(disk),
        state.written_fault(first) is None,
        state.written_fault(second) is None,
    ensures
        ({
            let seen = windows::queried(first)->Ok_0@;
            let (one, looks) = state.begin(DiskOperation::Prepare);
            let (two, syncs) = one.step(DiskEvent::Query(first));
            let (three, closes) = two.step(DiskEvent::Handle(Ok(())));
            let (four, begins) = three.step(DiskEvent::Handle(Ok(())));
            let (five, looks_again) = four.step(DiskEvent::Handle(Ok(())));
            let (six, last) = five.step(DiskEvent::Query(second));
            &&& looks == DiskActionView::Query(disk.number)
            &&& syncs is SyncTarget
            &&& closes is CloseCopy
            &&& begins matches DiskActionView::BeginVerification(device, geometry) && device
                == disk.device && geometry.size == seen.size && geometry.logical_sector_size
                == seen.logical_sector_size && geometry.physical_sector_size
                == seen.physical_sector_size
            &&& looks_again == DiskActionView::Query(disk.number)
            &&& last is Finish
        }),
{
}

/// A written disk is released untroubled: its handles are closed, and it is looked at before and
/// after; then it is opened for no one else as a proof, written through, and its volumes are let go.
pub proof fn written_disk_is_released(
    state: DiskState,
    disk: windows::SelectedDiskView,
    first: DiskQuery,
    second: DiskQuery,
)
    requires
        state.phase is Idle,
        state.write_may_have_started && state.is_locked,
        windows::selected_disk(state.selected) == Some(disk),
        state.written_fault(first) is None,
        state.written_fault(second) is None,
    ensures
        ({
            let (one, closes) = state.begin(DiskOperation::Eject);
            let (two, looks) = one.step(DiskEvent::Handle(Ok(())));
            let (three, closes_copy) = two.step(DiskEvent::Query(first));
            let (four, looks_again) = three.step(DiskEvent::Handle(Ok(())));
            let (five, opens) = four.step(DiskEvent::Query(second));
            let (six, syncs) = five.step(DiskEvent::Handle(Ok(())));
            let (seven, releases) = six.step(DiskEvent::Handle(Ok(())));
            let (eight, last) = seven.step(DiskEvent::Handle(Ok(())));
            &&& closes is ClosePrepared
            &&& looks == DiskActionView::Query(disk.number)
            &&& closes_copy is CloseCopy
            &&& looks_again == DiskActionView::Query(disk.number)
            &&& opens == DiskActionView::OpenExclusive(disk.device)
            &&& syncs is SyncProof
            &&& releases is ReleaseVolumes
            &&& last is Finish
            &&& !eight.is_locked
        }),
{
}

/// A lock that was taken is taken back before anything was written: the handles are closed, and when
/// the disk is exactly as it was its volumes are let go and it is as untouched as before; the error
/// that led to it is the one that is reported.
pub proof fn lock_is_taken_back(
    state: DiskState,
    disk: windows::SelectedDiskView,
    cause: Option<WorkerErrorView>,
    query: DiskQuery,
)
    requires
        !state.write_may_have_started,
        windows::selected_disk(state.selected) == Some(disk),
        state.query_fault(query) is None,
        state.rollback_snapshot == Some(windows::queried(query)->Ok_0@),
    ensures
        ({
            let (one, closes) = state.rollback(cause);
            let (two, looks) = one.step(DiskEvent::Handle(Ok(())));
            let (three, releases) = two.step(DiskEvent::Query(query));
            let (four, last) = three.step(DiskEvent::Handle(Ok(())));
            &&& closes is CloseHandles
            &&& looks == DiskActionView::Query(disk.number)
            &&& releases is ReleaseVolumes
            &&& cause is None ==> last is Finish
            &&& cause matches Some(error) ==> last == DiskActionView::Fail(error)
            &&& four == untouched(state.selected)
        }),
{
}

/// Ejecting a disk whose volumes are dismounted, but which was not handed over, takes the lock back;
/// an unmounting begins only on an untouched disk, and a hand-over only on a dismounted one.
pub proof fn operations_begin_where_they_may(state: DiskState)
    requires
        state.phase is Idle,
        windows::selected_disk(state.selected) is Some,
    ensures
        state.begin(DiskOperation::Unmount).1 is Query <==> !state.is_prepared
            && !state.volumes_dismounted && !state.write_may_have_started && !state.is_locked,
        state.begin(DiskOperation::Open).1 is Query <==> state.volumes_dismounted,
        state.begin(DiskOperation::Eject).1 is ClosePrepared <==> state.write_may_have_started,
        state.begin(DiskOperation::Eject).1 is CloseHandles <==> !state.write_may_have_started
            && state.volumes_dismounted,
        state.begin(DiskOperation::Eject).1 is Finish <==> !state.write_may_have_started
            && !state.volumes_dismounted,
{
}

/// An operation on a disk fails only for a reason: a handle failed, the disk that was looked at is
/// not the one it should be, or the disk is not in the state that the operation needs.
pub proof fn failed_operation_has_its_reason(state: DiskState, event: DiskEvent)
    requires
        state.expects(event),
        windows::selected_disk(state.selected) is Some,
    ensures
        state.step(event).1 is Fail ==> match event {
            DiskEvent::Handle(result) => {
                ||| result is Err
                ||| state.phase matches DiskPhaseView::ReleasingForRollback(cause) && cause is Some
                ||| state.phase is ClosingForRollback && state.rollback_snapshot is None
                ||| state.phase is ClosingCopyForEject && !state.is_locked
            },
            DiskEvent::Query(query) => {
                ||| state.query_fault(query) is Some
                ||| state.written_fault(query) is Some
                ||| state.phase is BeforeWrite && !state.is_prepared
                ||| state.phase is CheckingForRollback && state.rollback_snapshot != Some(
                    windows::queried(query)->Ok_0@,
                )
            },
        },
{
}

/// Nothing that goes wrong is passed over: what does not pass as the selected disk, before the write or
/// behind it, and what cannot be opened, locked, handed over or written out leads to no success. The
/// operation fails at once, or takes back its locks first and fails then.
pub proof fn trouble_ends_the_operation(state: DiskState, event: DiskEvent)
    requires
        state.expects(event),
        windows::selected_disk(state.selected) is Some,
        !(state.phase is CheckingForRollback),
    ensures
        ({
            let (after, action) = state.step(event);
            let failing = action is Fail || (after.phase matches DiskPhaseView::ClosingForRollback(
                cause,
            ) && cause is Some) || (after.phase matches DiskPhaseView::CheckingForRollback(cause)
                && cause is Some);
            let before = state.phase is Unpinned || state.phase is Pinned || state.phase
                is Dismounted || state.phase is Exclusive || state.phase is BeforeWrite;
            &&& event matches DiskEvent::Query(query) ==> {
                &&& before && state.query_fault(query) is Some ==> failing
                &&& !before && state.written_fault(query) is Some ==> failing
            }
            &&& event matches DiskEvent::Handle(Err(_)) ==> {
                state.phase is Pinning || state.phase is Locking || state.phase is OpeningExclusive
                    || state.phase is HandingOver || state.phase is SyncingTarget || state.phase
                    is BeginningVerification || state.phase is OpeningProof || state.phase
                    is SyncingProof ==> failing
            }
        }),
{
}

/// Where something may have been written, and where the disk is not exactly what it was when it was
/// locked, the lock is not taken back: the operation fails, and what led to it is not lost.
pub proof fn lock_of_a_changed_disk_is_kept(
    state: DiskState,
    cause: Option<WorkerErrorView>,
    query: DiskQuery,
)
    ensures
        state.write_may_have_started ==> state.rollback(cause).1 is Fail && state.rollback(
            cause,
        ).0.is_locked == state.is_locked,
        state.phase == DiskPhaseView::CheckingForRollback(cause) && (state.query_fault(query)
            is Some || state.rollback_snapshot != Some(windows::queried(query)->Ok_0@)) ==> {
            let (after, action) = state.step(DiskEvent::Query(query));
            &&& action is Fail
            &&& after.is_locked == state.is_locked
            &&& cause is None ==> action == DiskActionView::Fail(
                match state.query_fault(query) {
                    Some(fault) => fault,
                    None => WorkerErrorView::TargetChanged,
                },
            )
        },
{
}

} // verus!
