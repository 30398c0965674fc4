//! One job of the privileged worker, from its check to the ejected medium.
//!
//! The job is a machine: it is told what the last access came to and answers with the next one.
//! The raw image is copied into the worker's own keeping and checked there before the target is
//! even looked at, the target's identity is compared before and after its volumes are unmounted,
//! and whatever fails from then on ends with an attempt to eject the medium.

use vstd::prelude::*;

use crate::digest;
use crate::digest::{hex_encode, Hasher};
use crate::flash::raw;
use crate::flash::raw::{
    write_raw, FlashWriteOptions, RawWrite, Wishes, WriteAction, WriteActionView, WritePhase,
    WriteState,
};
use crate::flash::{AccessEvent, FlashError, FlashProgress, FlashReport, FlashReportView};
use crate::text;
use crate::text::same_ignoring_case;
use crate::worker;
use crate::worker::signals;
use crate::worker::signals::{check_cancelled, refresh, MarkerLooks};
use crate::worker::staging;
use crate::worker::staging::{open_raw_image, RawImageOpening};
use crate::worker::{
    compare_drive, inspect_raw_image, progress_from_flash, validate_job_text, Platform, RawImageFacts,
    WorkerDrive, WorkerError, WorkerErrorView, WorkerJob, WorkerPhase, WorkerProgress,
    WorkerProgressView,
};

verus! {

broadcast use vstd::seq_lib::group_seq_properties;

/// The most bytes of the raw image that one access copies.
pub const STAGING_BUFFER_SIZE: usize = 1_048_576;

/// What an access came to.
#[derive(Debug)]
pub enum JobEvent {
    /// A look at the raw image.
    Image(Result<RawImageFacts, String>),
    /// A look at the markers.
    Markers(MarkerLooks),
    /// A progress event was written out, or why it was not.
    Emitted(Result<(), String>),
    /// The raw image was opened.
    Opened(RawImageOpening),
    /// A file or the target was accessed.
    Access(AccessEvent),
    /// The platform did its part.
    Platform(Result<(), WorkerError>),
    /// The platform looked at the target.
    Target(Result<WorkerDrive, WorkerError>),
    /// The length of the copy.
    Length(Result<u64, String>),
}

/// What to do next.
#[derive(Debug)]
pub enum JobAction {
    /// Look at the raw image.
    InspectImage,
    /// Look at the markers.
    InspectMarkers,
    /// Write a progress event out.
    Emit(WorkerProgress),
    /// Look at the raw image, open it, and look at the opened file.
    OpenImage,
    /// Create the file that the raw image is copied to, which has no name.
    CreateCopy,
    /// Read the next chunk of the raw image, of at most [`STAGING_BUFFER_SIZE`] bytes.
    ReadImage,
    /// Write the chunk that was read to the copy.
    WriteCopy,
    /// Write the copy through to the medium.
    SyncCopy,
    /// Set the copy to its first byte.
    RewindCopy,
    /// Let the platform look at the copy.
    CheckCopy,
    /// Let the platform look at the selected target.
    ValidateTarget,
    /// Let the platform unmount the target's volumes.
    Unmount,
    /// Let the platform open the target, for reading too where this is true.
    OpenTarget(bool),
    /// Find out the length of the copy.
    MeasureCopy,
    /// Set the copy and then the target to their first byte.
    RewindBoth,
    /// Read the next chunk of the copy.
    ReadCopy,
    /// Write the chunk that was read to the target.
    WriteTarget,
    /// Flush the target.
    FlushTarget,
    /// Let the platform make the target ready for reading it back.
    PrepareVerification,
    /// Set the target to its first byte.
    RewindTarget,
    /// Read at most this many bytes back from the target.
    ReadTarget(usize),
    /// Try to write the target through to its medium, and close it.
    AbandonTarget,
    /// Write the target through to its medium, and close it.
    SyncTarget,
    /// Let the platform eject the medium.
    Eject,
    /// The job is done.
    Return(FlashReport),
    /// The job has failed.
    Fail(WorkerError),
}

/// What a [`JobAction`] holds.
pub enum JobActionView {
    InspectImage,
    InspectMarkers,
    Emit(WorkerProgressView),
    OpenImage,
    CreateCopy,
    ReadImage,
    WriteCopy,
    SyncCopy,
    RewindCopy,
    CheckCopy,
    ValidateTarget,
    Unmount,
    OpenTarget(bool),
    MeasureCopy,
    RewindBoth,
    ReadCopy,
    WriteTarget,
    FlushTarget,
    PrepareVerification,
    RewindTarget,
    ReadTarget(usize),
    AbandonTarget,
    SyncTarget,
    Eject,
    Return(FlashReportView),
    Fail(WorkerErrorView),
}

impl View for JobAction {
    type V = JobActionView;

    open spec fn view(&self) -> JobActionView {
        match *self {
            JobAction::InspectImage => JobActionView::InspectImage,
            JobAction::InspectMarkers => JobActionView::InspectMarkers,
            JobAction::Emit(progress) => JobActionView::Emit(progress@),
            JobAction::OpenImage => JobActionView::OpenImage,
            JobAction::CreateCopy => JobActionView::CreateCopy,
            JobAction::ReadImage => JobActionView::ReadImage,
            JobAction::WriteCopy => JobActionView::WriteCopy,
            JobAction::SyncCopy => JobActionView::SyncCopy,
            JobAction::RewindCopy => JobActionView::RewindCopy,
            JobAction::CheckCopy => JobActionView::CheckCopy,
            JobAction::ValidateTarget => JobActionView::ValidateTarget,
            JobAction::Unmount => JobActionView::Unmount,
            JobAction::OpenTarget(verify) => JobActionView::OpenTarget(verify),
            JobAction::MeasureCopy => JobActionView::MeasureCopy,
            JobAction::RewindBoth => JobActionView::RewindBoth,
            JobAction::ReadCopy => JobActionView::ReadCopy,
            JobAction::WriteTarget => JobActionView::WriteTarget,
            JobAction::FlushTarget => JobActionView::FlushTarget,
            JobAction::PrepareVerification => JobActionView::PrepareVerification,
            JobAction::RewindTarget => JobActionView::RewindTarget,
            JobAction::ReadTarget(limit) => JobActionView::ReadTarget(limit),
            JobAction::AbandonTarget => JobActionView::AbandonTarget,
            JobAction::SyncTarget => JobActionView::SyncTarget,
            JobAction::Eject => JobActionView::Eject,
            JobAction::Return(report) => JobActionView::Return(report@),
            JobAction::Fail(error) => JobActionView::Fail(error@),
        }
    }
}

/// What a job waits for.
#[derive(Debug)]
pub enum JobPhase {
    CheckingJob,
    FirstSignals,
    AnnouncingImage,
    OpeningImage,
    CreatingCopy,
    CopySignals,
    ReadingImage,
    WritingCopy,
    ReportingCopy,
    SyncingCopy,
    RewindingCopy,
    CheckingCopy,
    ImageSignals,
    AnnouncingTarget,
    ValidatingTarget,
    TargetSignals,
    AnnouncingUnmount,
    Unmounting,
    UnmountedSignals,
    AnnouncingTargetAgain,
    ValidatingTargetAgain,
    OpeningTarget,
    MeasuringCopy,
    /// An access of the write, other than writing a chunk.
    Flashing,
    /// A chunk is being written, after which this is to be reported.
    WritingTarget(FlashProgress),
    /// The markers are looked at before this is reported.
    FlashSignals(FlashProgress),
    ReportingFlash,
    /// The write is over, with this result.
    FinalSignals(Result<FlashReport, FlashError>),
    /// The target is given up for this error.
    Abandoning(WorkerError),
    AnnouncingSync(FlashReport),
    SyncingTarget(FlashReport),
    AnnouncingEject(FlashReport),
    Ejecting(FlashReport),
    AnnouncingCompletion(FlashReport),
    /// The medium is being ejected after this error.
    CleaningUp(WorkerError),
    /// The error is being reported.
    ReportingFailure(WorkerError),
    Closed,
}

/// What a [`JobPhase`] holds.
pub enum JobPhaseView {
    CheckingJob,
    FirstSignals,
    AnnouncingImage,
    OpeningImage,
    CreatingCopy,
    CopySignals,
    ReadingImage,
    WritingCopy,
    ReportingCopy,
    SyncingCopy,
    RewindingCopy,
    CheckingCopy,
    ImageSignals,
    AnnouncingTarget,
    ValidatingTarget,
    TargetSignals,
    AnnouncingUnmount,
    Unmounting,
    UnmountedSignals,
    AnnouncingTargetAgain,
    ValidatingTargetAgain,
    OpeningTarget,
    MeasuringCopy,
    Flashing,
    WritingTarget(FlashProgress),
    FlashSignals(FlashProgress),
    ReportingFlash,
    FinalSignals(Result<FlashReportView, FlashError>),
    Abandoning(WorkerErrorView),
    AnnouncingSync(FlashReportView),
    SyncingTarget(FlashReportView),
    AnnouncingEject(FlashReportView),
    Ejecting(FlashReportView),
    AnnouncingCompletion(FlashReportView),
    CleaningUp(WorkerErrorView),
    ReportingFailure(WorkerErrorView),
    Closed,
}

/// What the result of a write holds.
pub open spec fn result_view(result: Result<FlashReport, FlashError>) -> Result<
    FlashReportView,
    FlashError,
> {
    match result {
        Ok(report) => Ok(report@),
        Err(error) => Err(error),
    }
}

impl View for JobPhase {
    type V = JobPhaseView;

    open spec fn view(&self) -> JobPhaseView {
        match *self {
            JobPhase::CheckingJob => JobPhaseView::CheckingJob,
            JobPhase::FirstSignals => JobPhaseView::FirstSignals,
            JobPhase::AnnouncingImage => JobPhaseView::AnnouncingImage,
            JobPhase::OpeningImage => JobPhaseView::OpeningImage,
            JobPhase::CreatingCopy => JobPhaseView::CreatingCopy,
            JobPhase::CopySignals => JobPhaseView::CopySignals,
            JobPhase::ReadingImage => JobPhaseView::ReadingImage,
            JobPhase::WritingCopy => JobPhaseView::WritingCopy,
            JobPhase::ReportingCopy => JobPhaseView::ReportingCopy,
            JobPhase::SyncingCopy => JobPhaseView::SyncingCopy,
            JobPhase::RewindingCopy => JobPhaseView::RewindingCopy,
            JobPhase::CheckingCopy => JobPhaseView::CheckingCopy,
            JobPhase::ImageSignals => JobPhaseView::ImageSignals,
            JobPhase::AnnouncingTarget => JobPhaseView::AnnouncingTarget,
            JobPhase::ValidatingTarget => JobPhaseView::ValidatingTarget,
            JobPhase::TargetSignals => JobPhaseView::TargetSignals,
            JobPhase::AnnouncingUnmount => JobPhaseView::AnnouncingUnmount,
            JobPhase::Unmounting => JobPhaseView::Unmounting,
            JobPhase::UnmountedSignals => JobPhaseView::UnmountedSignals,
            JobPhase::AnnouncingTargetAgain => JobPhaseView::AnnouncingTargetAgain,
            JobPhase::ValidatingTargetAgain => JobPhaseView::ValidatingTargetAgain,
            JobPhase::OpeningTarget => JobPhaseView::OpeningTarget,
            JobPhase::MeasuringCopy => JobPhaseView::MeasuringCopy,
            JobPhase::Flashing => JobPhaseView::Flashing,
            JobPhase::WritingTarget(progress) => JobPhaseView::WritingTarget(progress),
            JobPhase::FlashSignals(progress) => JobPhaseView::FlashSignals(progress),
            JobPhase::ReportingFlash => JobPhaseView::ReportingFlash,
            JobPhase::FinalSignals(result) => JobPhaseView::FinalSignals(result_view(result)),
            JobPhase::Abandoning(error) => JobPhaseView::Abandoning(error@),
            JobPhase::AnnouncingSync(report) => JobPhaseView::AnnouncingSync(report@),
            JobPhase::SyncingTarget(report) => JobPhaseView::SyncingTarget(report@),
            JobPhase::AnnouncingEject(report) => JobPhaseView::AnnouncingEject(report@),
            JobPhase::Ejecting(report) => JobPhaseView::Ejecting(report@),
            JobPhase::AnnouncingCompletion(report) => JobPhaseView::AnnouncingCompletion(report@),
            JobPhase::CleaningUp(error) => JobPhaseView::CleaningUp(error@),
            JobPhase::ReportingFailure(error) => JobPhaseView::ReportingFailure(error@),
            JobPhase::Closed => JobPhaseView::Closed,
        }
    }
}

impl JobEvent {
    /// Whether an access that moves no bytes is over.
    pub open spec fn is_plain_access(self) -> bool {
        self matches JobEvent::Access(event) && !(event is Chunk)
    }
}

/// The state of a job.
pub struct JobState {
    pub platform: Platform,
    pub job: WorkerJob,
    pub phase: JobPhaseView,
    /// The signals given so far.
    pub signals: Wishes,
    /// The bytes of the raw image copied so far.
    pub copied: Seq<u8>,
    /// The write to the target, once it has begun.
    pub write: Option<WriteState>,
}

impl JobState {
    /// Whether the copy is the image that the job asks for.
    pub open spec fn copy_is_expected(self) -> bool {
        &&& self.copied.len() == self.job.raw_size
        &&& text::lower_text(digest::sha256_text(self.copied)) == text::lower_text(
            self.job.expected_raw_sha256@,
        )
    }

    /// Whether the event answers what the job waits for.
    pub open spec fn expects(self, event: JobEvent) -> bool {
        match self.phase {
            JobPhaseView::CheckingJob => event is Image,
            JobPhaseView::FirstSignals
            | JobPhaseView::CopySignals
            | JobPhaseView::ImageSignals
            | JobPhaseView::TargetSignals
            | JobPhaseView::UnmountedSignals
            | JobPhaseView::FlashSignals(_)
            | JobPhaseView::FinalSignals(_) => event is Markers,
            JobPhaseView::OpeningImage => event is Opened,
            JobPhaseView::ReadingImage => event matches JobEvent::Access(access) && !(access
                is Done),
            JobPhaseView::CreatingCopy
            | JobPhaseView::WritingCopy
            | JobPhaseView::SyncingCopy
            | JobPhaseView::RewindingCopy
            | JobPhaseView::WritingTarget(_)
            | JobPhaseView::Abandoning(_)
            | JobPhaseView::SyncingTarget(_) => event.is_plain_access(),
            JobPhaseView::Flashing => event matches JobEvent::Access(access) && self.write matches
                Some(write) && write.expects(access),
            JobPhaseView::CheckingCopy
            | JobPhaseView::Unmounting
            | JobPhaseView::OpeningTarget
            | JobPhaseView::Ejecting(_)
            | JobPhaseView::CleaningUp(_) => event is Platform,
            JobPhaseView::ValidatingTarget | JobPhaseView::ValidatingTargetAgain => event is Target,
            JobPhaseView::MeasuringCopy => event is Length,
            JobPhaseView::Closed => false,
            _ => event is Emitted,
        }
    }

    /// The state in another phase.
    pub open spec fn at(self, phase: JobPhaseView) -> JobState {
        JobState { phase, ..self }
    }

    /// The next phase, with what it waits for.
    pub open spec fn go(self, phase: JobPhaseView, action: JobActionView) -> (
        JobState,
        JobActionView,
    ) {
        (self.at(phase), action)
    }

    /// A phase that begins with its announcement.
    pub open spec fn announce(self, phase: JobPhaseView, announced: WorkerPhase) -> (
        JobState,
        JobActionView,
    ) {
        self.go(phase, JobActionView::Emit(worker::phase_progress(announced)))
    }

    /// The job gives up. Where the target's volumes may have been unmounted, the medium is ejected
    /// first.
    pub open spec fn give_up(self, unmounted: bool, fault: WorkerErrorView) -> (
        JobState,
        JobActionView,
    ) {
        if unmounted {
            self.go(JobPhaseView::CleaningUp(fault), JobActionView::Eject)
        } else {
            self.go(
                JobPhaseView::ReportingFailure(fault),
                JobActionView::Emit(worker::failed_progress(fault)),
            )
        }
    }

    /// The job gives up while the target is open.
    pub open spec fn abandon(self, fault: WorkerErrorView) -> (JobState, JobActionView) {
        self.go(JobPhaseView::Abandoning(fault), JobActionView::AbandonTarget)
    }

    /// What follows on a look at the markers.
    pub open spec fn after_signals(
        self,
        looks: MarkerLooks,
        unmounted: bool,
        next: (JobPhaseView, JobActionView),
    ) -> (JobState, JobActionView) {
        let (signals, fault) = signals::checked(self.job, self.signals, looks);
        let state = JobState { signals, ..self };
        match fault {
            Some(fault) => state.give_up(unmounted, fault),
            None => state.go(next.0, next.1),
        }
    }

    /// What follows on a progress event that was written out.
    pub open spec fn after_emit(
        self,
        emitted: Result<(), String>,
        unmounted: bool,
        next: (JobPhaseView, JobActionView),
    ) -> (JobState, JobActionView) {
        match emitted {
            Err(cause) => self.give_up(unmounted, WorkerErrorView::Progress(cause@)),
            Ok(_) => self.go(next.0, next.1),
        }
    }

    /// What follows on an access to the copy.
    pub open spec fn after_copy(
        self,
        access: AccessEvent,
        next: (JobPhaseView, JobActionView),
    ) -> (JobState, JobActionView) {
        match access {
            AccessEvent::Failed(message) => self.give_up(
                false,
                WorkerErrorView::Flash(FlashError::Io(message)),
            ),
            _ => self.go(next.0, next.1),
        }
    }

    /// What follows on what the platform did.
    pub open spec fn after_platform(
        self,
        result: Result<(), WorkerError>,
        unmounted: bool,
        next: (JobPhaseView, JobActionView),
    ) -> (JobState, JobActionView) {
        match result {
            Err(error) => self.give_up(unmounted, error@),
            Ok(_) => self.go(next.0, next.1),
        }
    }

    /// What follows on the platform's look at the target: it has to be the selected one.
    pub open spec fn after_target(
        self,
        target: Result<WorkerDrive, WorkerError>,
        unmounted: bool,
        next: (JobPhaseView, JobActionView),
    ) -> (JobState, JobActionView) {
        match target {
            Err(error) => self.give_up(unmounted, error@),
            Ok(drive) => if drive@ == self.job.drive@ {
                self.go(next.0, next.1)
            } else {
                self.give_up(unmounted, WorkerErrorView::TargetChanged)
            },
        }
    }

    /// What follows on a read of the raw image. The copy never grows beyond the size that the job
    /// names, and at the end it has to be the expected image.
    pub open spec fn after_read(self, access: AccessEvent) -> (JobState, JobActionView) {
        let refused = WorkerErrorView::Flash(FlashError::Verification);
        match access {
            AccessEvent::Failed(message) => self.give_up(
                false,
                WorkerErrorView::Flash(FlashError::Io(message)),
            ),
            AccessEvent::Chunk(chunk) => if chunk@.len() == 0 {
                if self.copy_is_expected() {
                    self.go(JobPhaseView::SyncingCopy, JobActionView::SyncCopy)
                } else {
                    self.give_up(false, refused)
                }
            } else if self.copied.len() + chunk@.len() > self.job.raw_size {
                self.give_up(false, refused)
            } else {
                JobState { copied: self.copied + chunk@, ..self }.go(
                    JobPhaseView::WritingCopy,
                    JobActionView::WriteCopy,
                )
            },
            AccessEvent::Done => self.give_up(false, refused),
        }
    }

    /// The next access of the write to the target, or what follows on its end.
    pub open spec fn flash(self, next: (WriteState, WriteActionView)) -> (JobState, JobActionView) {
        let state = JobState { write: Some(next.0), ..self };
        match next.1 {
            WriteActionView::Rewind => state.go(JobPhaseView::Flashing, JobActionView::RewindBoth),
            WriteActionView::Read => state.go(JobPhaseView::Flashing, JobActionView::ReadCopy),
            WriteActionView::Write(progress) => state.go(
                JobPhaseView::WritingTarget(progress),
                JobActionView::WriteTarget,
            ),
            WriteActionView::Flush => state.go(JobPhaseView::Flashing, JobActionView::FlushTarget),
            WriteActionView::Prepare => state.go(
                JobPhaseView::Flashing,
                JobActionView::PrepareVerification,
            ),
            WriteActionView::RewindTarget => state.go(
                JobPhaseView::Flashing,
                JobActionView::RewindTarget,
            ),
            WriteActionView::ReadBack(limit) => state.go(
                JobPhaseView::Flashing,
                JobActionView::ReadTarget(limit),
            ),
            WriteActionView::Report(progress) => state.go(
                JobPhaseView::FlashSignals(progress),
                JobActionView::InspectMarkers,
            ),
            WriteActionView::Finish(report) => state.go(
                JobPhaseView::FinalSignals(Ok(report)),
                JobActionView::InspectMarkers,
            ),
            WriteActionView::Fail(error) => state.go(
                JobPhaseView::FinalSignals(Err(error)),
                JobActionView::InspectMarkers,
            ),
        }
    }

    /// The write takes note of an access.
    pub open spec fn flash_step(self, access: AccessEvent) -> (JobState, JobActionView) {
        self.flash(self.write->0.step(access, self.signals))
    }

    /// How the target is to be written.
    pub open spec fn options(self) -> FlashWriteOptions {
        FlashWriteOptions { target_capacity: self.job.drive.capacity, verify: self.job.verify }
    }

    /// What follows on the last look at the markers, with the result of the write.
    pub open spec fn after_flash(
        self,
        looks: MarkerLooks,
        result: Result<FlashReportView, FlashError>,
    ) -> (JobState, JobActionView) {
        let (signals, fault) = signals::checked(self.job, self.signals, looks);
        let state = JobState { signals, ..self };
        match fault {
            Some(fault) => state.abandon(fault),
            None => match result {
                Err(error) => state.abandon(WorkerErrorView::Flash(error)),
                Ok(report) => if report_is_expected(self.job, report) {
                    state.announce(JobPhaseView::AnnouncingSync(report), WorkerPhase::Syncing)
                } else {
                    state.abandon(WorkerErrorView::Flash(FlashError::Verification))
                },
            },
        }
    }

    /// What follows on an event before the target is touched.
    pub open spec fn step_before(self, event: JobEvent) -> (JobState, JobActionView) {
        match self.phase {
            JobPhaseView::CheckingJob => match worker::raw_image_fault(self.job, event->Image_0) {
                Some(fault) => self.give_up(false, fault),
                None => self.go(JobPhaseView::FirstSignals, JobActionView::InspectMarkers),
            },
            JobPhaseView::FirstSignals => self.after_signals(
                event->Markers_0,
                false,
                (
                    JobPhaseView::AnnouncingImage,
                    JobActionView::Emit(worker::phase_progress(WorkerPhase::ValidatingImage)),
                ),
            ),
            JobPhaseView::AnnouncingImage => self.after_emit(
                event->Emitted_0,
                false,
                (JobPhaseView::OpeningImage, JobActionView::OpenImage),
            ),
            JobPhaseView::OpeningImage => match staging::opening_fault(self.job, event->Opened_0) {
                Some(fault) => self.give_up(false, fault),
                None => self.go(JobPhaseView::CreatingCopy, JobActionView::CreateCopy),
            },
            JobPhaseView::CreatingCopy => self.after_copy(
                event->Access_0,
                (JobPhaseView::CopySignals, JobActionView::InspectMarkers),
            ),
            JobPhaseView::CopySignals => self.after_signals(
                event->Markers_0,
                false,
                (JobPhaseView::ReadingImage, JobActionView::ReadImage),
            ),
            JobPhaseView::ReadingImage => self.after_read(event->Access_0),
            JobPhaseView::WritingCopy => self.after_copy(
                event->Access_0,
                (
                    JobPhaseView::ReportingCopy,
                    JobActionView::Emit(
                        worker::byte_progress(
                            WorkerPhase::ValidatingImage,
                            self.copied.len() as u64,
                            Some(self.job.raw_size),
                        ),
                    ),
                ),
            ),
            JobPhaseView::ReportingCopy => self.after_emit(
                event->Emitted_0,
                false,
                (JobPhaseView::CopySignals, JobActionView::InspectMarkers),
            ),
            JobPhaseView::SyncingCopy => self.after_copy(
                event->Access_0,
                (JobPhaseView::RewindingCopy, JobActionView::RewindCopy),
            ),
            JobPhaseView::RewindingCopy => self.after_copy(
                event->Access_0,
                (JobPhaseView::CheckingCopy, JobActionView::CheckCopy),
            ),
            JobPhaseView::CheckingCopy => self.after_platform(
                event->Platform_0,
                false,
                (JobPhaseView::ImageSignals, JobActionView::InspectMarkers),
            ),
            JobPhaseView::ImageSignals => self.after_signals(
                event->Markers_0,
                false,
                (
                    JobPhaseView::AnnouncingTarget,
                    JobActionView::Emit(worker::phase_progress(WorkerPhase::ValidatingTarget)),
                ),
            ),
            JobPhaseView::AnnouncingTarget => self.after_emit(
                event->Emitted_0,
                false,
                (JobPhaseView::ValidatingTarget, JobActionView::ValidateTarget),
            ),
            JobPhaseView::ValidatingTarget => self.after_target(
                event->Target_0,
                false,
                (JobPhaseView::TargetSignals, JobActionView::InspectMarkers),
            ),
            JobPhaseView::TargetSignals => self.after_signals(
                event->Markers_0,
                false,
                (
                    JobPhaseView::AnnouncingUnmount,
                    JobActionView::Emit(worker::phase_progress(WorkerPhase::Unmounting)),
                ),
            ),
            _ => self.after_emit(
                event->Emitted_0,
                false,
                (JobPhaseView::Unmounting, JobActionView::Unmount),
            ),
        }
    }

    /// What follows on an event from the unmounting to the opened target.
    pub open spec fn step_opening(self, event: JobEvent) -> (JobState, JobActionView) {
        match self.phase {
            JobPhaseView::Unmounting => self.after_platform(
                event->Platform_0,
                true,
                (JobPhaseView::UnmountedSignals, JobActionView::InspectMarkers),
            ),
            JobPhaseView::UnmountedSignals => self.after_signals(
                event->Markers_0,
                true,
                (
                    JobPhaseView::AnnouncingTargetAgain,
                    JobActionView::Emit(worker::phase_progress(WorkerPhase::ValidatingTarget)),
                ),
            ),
            JobPhaseView::AnnouncingTargetAgain => self.after_emit(
                event->Emitted_0,
                true,
                (JobPhaseView::ValidatingTargetAgain, JobActionView::ValidateTarget),
            ),
            JobPhaseView::ValidatingTargetAgain => self.after_target(
                event->Target_0,
                true,
                (JobPhaseView::OpeningTarget, JobActionView::OpenTarget(self.job.verify)),
            ),
            _ => self.after_platform(
                event->Platform_0,
                true,
                (JobPhaseView::MeasuringCopy, JobActionView::MeasureCopy),
            ),
        }
    }

    /// What follows on an event while the target is being written and read back.
    pub open spec fn step_flashing(self, event: JobEvent) -> (JobState, JobActionView) {
        match self.phase {
            JobPhaseView::MeasuringCopy => match event->Length_0 {
                Err(message) => self.go(
                    JobPhaseView::FinalSignals(Err(FlashError::Io(message))),
                    JobActionView::InspectMarkers,
                ),
                Ok(total) => self.flash(raw::write_start(self.options(), total)),
            },
            JobPhaseView::Flashing => self.flash_step(event->Access_0),
            JobPhaseView::WritingTarget(progress) => match event->Access_0 {
                AccessEvent::Failed(_) => self.flash_step(event->Access_0),
                _ => self.go(JobPhaseView::FlashSignals(progress), JobActionView::InspectMarkers),
            },
            JobPhaseView::FlashSignals(progress) => {
                let (signals, fault) = signals::refreshed(
                    self.job,
                    self.signals,
                    event->Markers_0,
                );
                let state = JobState { signals, ..self };
                match fault {
                    Some(fault) => state.abandon(fault),
                    None => state.go(
                        JobPhaseView::ReportingFlash,
                        JobActionView::Emit(
                            worker::byte_progress(
                                worker::phase_of(progress.stage),
                                progress.processed,
                                progress.total,
                            ),
                        ),
                    ),
                }
            },
            JobPhaseView::ReportingFlash => match event->Emitted_0 {
                Err(cause) => self.abandon(WorkerErrorView::Progress(cause@)),
                Ok(_) => self.flash_step(AccessEvent::Done),
            },
            JobPhaseView::FinalSignals(result) => self.after_flash(event->Markers_0, result),
            JobPhaseView::Abandoning(fault) => self.give_up(true, fault),
            _ => self.go(self.phase, JobActionView::InspectMarkers),
        }
    }

    /// What follows on an event once the write has succeeded, or the job has failed.
    pub open spec fn step_after(self, event: JobEvent) -> (JobState, JobActionView) {
        match self.phase {
            JobPhaseView::AnnouncingSync(report) => match event->Emitted_0 {
                Err(cause) => self.abandon(WorkerErrorView::Progress(cause@)),
                Ok(_) => self.go(JobPhaseView::SyncingTarget(report), JobActionView::SyncTarget),
            },
            JobPhaseView::SyncingTarget(report) => match event->Access_0 {
                AccessEvent::Failed(message) => self.give_up(
                    true,
                    WorkerErrorView::Flash(FlashError::Io(message)),
                ),
                _ => self.announce(JobPhaseView::AnnouncingEject(report), WorkerPhase::Ejecting),
            },
            JobPhaseView::AnnouncingEject(report) => self.after_emit(
                event->Emitted_0,
                true,
                (JobPhaseView::Ejecting(report), JobActionView::Eject),
            ),
            JobPhaseView::Ejecting(report) => self.after_platform(
                event->Platform_0,
                true,
                (
                    JobPhaseView::AnnouncingCompletion(report),
                    JobActionView::Emit(worker::completed_progress(report)),
                ),
            ),
            JobPhaseView::AnnouncingCompletion(report) => self.after_emit(
                event->Emitted_0,
                true,
                (JobPhaseView::Closed, JobActionView::Return(report)),
            ),
            JobPhaseView::CleaningUp(fault) => self.give_up(false, fault),
            JobPhaseView::ReportingFailure(fault) => match event->Emitted_0 {
                Err(cause) => self.go(
                    JobPhaseView::Closed,
                    JobActionView::Fail(WorkerErrorView::Progress(cause@)),
                ),
                Ok(_) => self.go(JobPhaseView::Closed, JobActionView::Fail(fault)),
            },
            _ => self.go(self.phase, JobActionView::InspectMarkers),
        }
    }

    /// What follows on an event.
    pub open spec fn step(self, event: JobEvent) -> (JobState, JobActionView) {
        match self.phase {
            JobPhaseView::Unmounting
            | JobPhaseView::UnmountedSignals
            | JobPhaseView::AnnouncingTargetAgain
            | JobPhaseView::ValidatingTargetAgain
            | JobPhaseView::OpeningTarget => self.step_opening(event),
            JobPhaseView::MeasuringCopy
            | JobPhaseView::Flashing
            | JobPhaseView::WritingTarget(_)
            | JobPhaseView::FlashSignals(_)
            | JobPhaseView::ReportingFlash
            | JobPhaseView::FinalSignals(_)
            | JobPhaseView::Abandoning(_) => self.step_flashing(event),
            JobPhaseView::AnnouncingSync(_)
            | JobPhaseView::SyncingTarget(_)
            | JobPhaseView::AnnouncingEject(_)
            | JobPhaseView::Ejecting(_)
            | JobPhaseView::AnnouncingCompletion(_)
            | JobPhaseView::CleaningUp(_)
            | JobPhaseView::ReportingFailure(_)
            | JobPhaseView::Closed => self.step_after(event),
            _ => self.step_before(event),
        }
    }
}

/// Whether a report says that exactly the image that the job asks for was written.
pub open spec fn report_is_expected(job: WorkerJob, report: FlashReportView) -> bool {
    &&& report.bytes_written == job.raw_size
    &&& text::lower_text(report.raw_sha256) == text::lower_text(job.expected_raw_sha256@)
}

/// A job of which nothing has been done.
pub open spec fn new_job(platform: Platform, job: WorkerJob) -> JobState {
    JobState {
        platform,
        job,
        phase: JobPhaseView::CheckingJob,
        signals: Wishes { cancelled: false, skip_verification: false },
        copied: Seq::empty(),
        write: None,
    }
}

/// How a job begins.
pub open spec fn job_start(platform: Platform, job: WorkerJob) -> (JobState, JobActionView) {
    match worker::text_fault(platform, job) {
        Some(fault) => new_job(platform, job).give_up(false, fault),
        None => (new_job(platform, job), JobActionView::InspectImage),
    }
}

/// Runs one job.
pub struct WorkerRun<'a> {
    platform: Platform,
    job: &'a WorkerJob,
    phase: JobPhase,
    signals: Wishes,
    copied: u64,
    hasher: Hasher,
    write: Option<RawWrite>,
}

impl<'a> View for WorkerRun<'a> {
    type V = JobState;

    closed spec fn view(&self) -> JobState {
        JobState {
            platform: self.platform,
            job: *self.job,
            phase: self.phase@,
            signals: self.signals,
            copied: digest::hashed_bytes(self.hasher),
            write: match self.write {
                Some(write) => Some(write@),
                None => None,
            },
        }
    }
}

impl JobState {
    /// Whether a write is under way that waits for what the phase says.
    pub open spec fn write_is_due(self) -> bool {
        match self.phase {
            JobPhaseView::Flashing => self.write is Some,
            JobPhaseView::WritingTarget(_)
            | JobPhaseView::FlashSignals(_)
            | JobPhaseView::ReportingFlash => self.write matches Some(write) && write.expects(
                AccessEvent::Done,
            ),
            _ => true,
        }
    }
}

impl<'a> WorkerRun<'a> {
    /// Whether the counts are those of the bytes, and the write one that can go on.
    pub closed spec fn well_formed(self) -> bool {
        &&& self.copied == digest::hashed_bytes(self.hasher).len()
        &&& self.copied <= self.job.raw_size
        &&& self@.write_is_due()
        &&& self.write matches Some(write) ==> write.well_formed()
    }

    /// Begin a job.
    pub fn start(platform: Platform, job: &'a WorkerJob) -> (result: (WorkerRun<'a>, JobAction))
        ensures
            result.0.well_formed(),
            (result.0@, result.1@) == job_start(platform, *job),
    {
        let mut run = WorkerRun {
            platform,
            job,
            phase: JobPhase::CheckingJob,
            signals: Wishes { cancelled: false, skip_verification: false },
            copied: 0,
            hasher: Hasher::new(),
            write: None,
        };
        match validate_job_text(platform, job) {
            Err(error) => {
                let action = run.give_up(false, error);
                (run, action)
            },
            Ok(()) => (run, JobAction::InspectImage),
        }
    }

    fn go(&mut self, phase: JobPhase, action: JobAction) -> (result: JobAction)
        requires
            old(self).well_formed(),
            old(self)@.at(phase@).write_is_due(),
        ensures
            final(self).well_formed(),
            (final(self)@, result@) == old(self)@.go(phase@, action@),
    {
        self.phase = phase;
        action
    }

    fn give_up(&mut self, unmounted: bool, error: WorkerError) -> (action: JobAction)
        requires
            old(self).well_formed(),
        ensures
            final(self).well_formed(),
            (final(self)@, action@) == old(self)@.give_up(unmounted, error@),
    {
        if unmounted {
            self.go(JobPhase::CleaningUp(error), JobAction::Eject)
        } else {
            let progress = WorkerProgress::failed(&error);
            self.go(JobPhase::ReportingFailure(error), JobAction::Emit(progress))
        }
    }

    fn abandon(&mut self, error: WorkerError) -> (action: JobAction)
        requires
            old(self).well_formed(),
        ensures
            final(self).well_formed(),
            (final(self)@, action@) == old(self)@.abandon(error@),
    {
        self.go(JobPhase::Abandoning(error), JobAction::AbandonTarget)
    }

    fn announce(&mut self, phase: JobPhase, announced: WorkerPhase) -> (action: JobAction)
        requires
            old(self).well_formed(),
            old(self)@.at(phase@).write_is_due(),
        ensures
            final(self).well_formed(),
            (final(self)@, action@) == old(self)@.announce(phase@, announced),
    {
        self.go(phase, JobAction::Emit(WorkerProgress::phase(announced)))
    }

    fn after_signals(
        &mut self,
        looks: &MarkerLooks,
        unmounted: bool,
        phase: JobPhase,
        action: JobAction,
    ) -> (result: JobAction)
        requires
            old(self).well_formed(),
            old(self)@.at(phase@).write_is_due(),
        ensures
            final(self).well_formed(),
            (final(self)@, result@) == old(self)@.after_signals(
                *looks,
                unmounted,
                (phase@, action@),
            ),
    {
        match check_cancelled(self.job, &mut self.signals, looks) {
            Err(error) => self.give_up(unmounted, error),
            Ok(()) => self.go(phase, action),
        }
    }

    fn after_emit(
        &mut self,
        emitted: &Result<(), String>,
        unmounted: bool,
        phase: JobPhase,
        action: JobAction,
    ) -> (result: JobAction)
        requires
            old(self).well_formed(),
            old(self)@.at(phase@).write_is_due(),
        ensures
            final(self).well_formed(),
            (final(self)@, result@) == old(self)@.after_emit(
                *emitted,
                unmounted,
                (phase@, action@),
            ),
    {
        match emitted {
            Err(cause) => self.give_up(unmounted, WorkerError::Progress(cause.clone())),
            Ok(()) => self.go(phase, action),
        }
    }

    fn after_copy(&mut self, access: &AccessEvent, phase: JobPhase, action: JobAction) -> (result:
        JobAction)
        requires
            old(self).well_formed(),
            old(self)@.at(phase@).write_is_due(),
        ensures
            final(self).well_formed(),
            (final(self)@, result@) == old(self)@.after_copy(*access, (phase@, action@)),
    {
        match access {
            AccessEvent::Failed(message) => {
                self.give_up(false, WorkerError::Flash(FlashError::Io(message.clone())))
            },
            _ => self.go(phase, action),
        }
    }

    fn after_platform(
        &mut self,
        result: &Result<(), WorkerError>,
        unmounted: bool,
        phase: JobPhase,
        action: JobAction,
    ) -> (answer: JobAction)
        requires
            old(self).well_formed(),
            old(self)@.at(phase@).write_is_due(),
        ensures
            final(self).well_formed(),
            (final(self)@, answer@) == old(self)@.after_platform(
                *result,
                unmounted,
                (phase@, action@),
            ),
    {
        match result {
            Err(error) => self.give_up(unmounted, error.copy()),
            Ok(()) => self.go(phase, action),
        }
    }

    fn after_target(
        &mut self,
        target: &Result<WorkerDrive, WorkerError>,
        unmounted: bool,
        phase: JobPhase,
        action: JobAction,
    ) -> (result: JobAction)
        requires
            old(self).well_formed(),
            old(self)@.at(phase@).write_is_due(),
        ensures
            final(self).well_formed(),
            (final(self)@, result@) == old(self)@.after_target(
                *target,
                unmounted,
                (phase@, action@),
            ),
    {
        match target {
            Err(error) => self.give_up(unmounted, error.copy()),
            Ok(drive) => match compare_drive(&self.job.drive, drive) {
                Err(error) => self.give_up(unmounted, error),
                Ok(()) => self.go(phase, action),
            },
        }
    }

    fn after_read(&mut self, access: &AccessEvent) -> (action: JobAction)
        requires
            old(self).well_formed(),
        ensures
            final(self).well_formed(),
            (final(self)@, action@) == old(self)@.after_read(*access),
    {
        match access {
            AccessEvent::Failed(message) => {
                self.give_up(false, WorkerError::Flash(FlashError::Io(message.clone())))
            },
            AccessEvent::Chunk(chunk) => {
                let count: u64 = chunk.len() as u64;
                if count == 0 {
                    let digest = self.hasher.digest();
                    let actual = hex_encode(&digest);
                    if self.copied != self.job.raw_size || !same_ignoring_case(
                        actual.as_str(),
                        self.job.expected_raw_sha256.as_str(),
                    ) {
                        return self.give_up(false, WorkerError::Flash(FlashError::Verification));
                    }
                    return self.go(JobPhase::SyncingCopy, JobAction::SyncCopy);
                }
                if count > self.job.raw_size - self.copied {
                    return self.give_up(false, WorkerError::Flash(FlashError::Verification));
                }
                self.hasher.update(chunk.as_slice());
                self.copied = self.copied + count;
                self.phase = JobPhase::WritingCopy;
                JobAction::WriteCopy
            },
            AccessEvent::Done => {
                self.give_up(false, WorkerError::Flash(FlashError::Verification))
            },
        }
    }

    fn flash(&mut self, action: WriteAction) -> (result: JobAction)
        requires
            old(self).well_formed(),
            old(self).write is Some,
            action@ is Write || action@ is Report ==> old(self)@.write->0.expects(AccessEvent::Done),
        ensures
            final(self).well_formed(),
            (final(self)@, result@) == old(self)@.flash((old(self)@.write->0, action@)),
    {
        match action {
            WriteAction::Rewind => self.go(JobPhase::Flashing, JobAction::RewindBoth),
            WriteAction::Read => self.go(JobPhase::Flashing, JobAction::ReadCopy),
            WriteAction::Write(progress) => {
                self.go(JobPhase::WritingTarget(progress), JobAction::WriteTarget)
            },
            WriteAction::Flush => self.go(JobPhase::Flashing, JobAction::FlushTarget),
            WriteAction::Prepare => self.go(JobPhase::Flashing, JobAction::PrepareVerification),
            WriteAction::RewindTarget => self.go(JobPhase::Flashing, JobAction::RewindTarget),
            WriteAction::ReadBack(limit) => {
                self.go(JobPhase::Flashing, JobAction::ReadTarget(limit))
            },
            WriteAction::Report(progress) => {
                self.go(JobPhase::FlashSignals(progress), JobAction::InspectMarkers)
            },
            WriteAction::Finish(report) => {
                self.go(JobPhase::FinalSignals(Ok(report)), JobAction::InspectMarkers)
            },
            WriteAction::Fail(error) => {
                self.go(JobPhase::FinalSignals(Err(error)), JobAction::InspectMarkers)
            },
        }
    }

    fn flash_step(&mut self, access: &AccessEvent) -> (action: JobAction)
        requires
            old(self).well_formed(),
            old(self)@.write is Some,
            old(self)@.write->0.expects(*access),
        ensures
            final(self).well_formed(),
            (final(self)@, action@) == old(self)@.flash_step(*access),
    {
        let signals = self.signals;
        self.phase = JobPhase::Closed;
        let mut taken: Option<RawWrite> = None;
        core::mem::swap(&mut taken, &mut self.write);
        match taken {
            Some(mut write) => {
                let action = write.step(access, signals);
                self.write = Some(write);
                self.flash(action)
            },
            None => vstd::pervasive::unreached(),
        }
    }

    fn after_flash(&mut self, looks: &MarkerLooks, result: Result<FlashReport, FlashError>) -> (
        action: JobAction)
        requires
            old(self).well_formed(),
        ensures
            final(self).well_formed(),
            (final(self)@, action@) == old(self)@.after_flash(*looks, result_view(result)),
    {
        match check_cancelled(self.job, &mut self.signals, looks) {
            Err(error) => {
                return self.abandon(error);
            },
            Ok(()) => {},
        }
        match result {
            Err(error) => self.abandon(WorkerError::Flash(error)),
            Ok(report) => {
                if report.bytes_written == self.job.raw_size && same_ignoring_case(
                    report.raw_sha256.as_str(),
                    self.job.expected_raw_sha256.as_str(),
                ) {
                    self.announce(JobPhase::AnnouncingSync(report), WorkerPhase::Syncing)
                } else {
                    self.abandon(WorkerError::Flash(FlashError::Verification))
                }
            },
        }
    }

    fn announcement(phase: WorkerPhase) -> (action: JobAction)
        ensures
            action@ == JobActionView::Emit(worker::phase_progress(phase)),
    {
        JobAction::Emit(WorkerProgress::phase(phase))
    }

    fn check_job(&mut self, raw: &Result<RawImageFacts, String>) -> (action: JobAction)
        requires
            old(self).well_formed(),
        ensures
            final(self).well_formed(),
            (final(self)@, action@) == (match worker::raw_image_fault(old(self)@.job, *raw) {
                Some(fault) => old(self)@.give_up(false, fault),
                None => old(self)@.go(JobPhaseView::FirstSignals, JobActionView::InspectMarkers),
            }),
    {
        match inspect_raw_image(self.job, raw) {
            Err(error) => self.give_up(false, error),
            Ok(()) => self.go(JobPhase::FirstSignals, JobAction::InspectMarkers),
        }
    }

    fn open_image(&mut self, opening: &RawImageOpening) -> (action: JobAction)
        requires
            old(self).well_formed(),
        ensures
            final(self).well_formed(),
            (final(self)@, action@) == (match staging::opening_fault(old(self)@.job, *opening) {
                Some(fault) => old(self)@.give_up(false, fault),
                None => old(self)@.go(JobPhaseView::CreatingCopy, JobActionView::CreateCopy),
            }),
    {
        match open_raw_image(self.job, opening) {
            Err(error) => self.give_up(false, error),
            Ok(()) => self.go(JobPhase::CreatingCopy, JobAction::CreateCopy),
        }
    }

    fn report_flash(&mut self, progress: FlashProgress, looks: &MarkerLooks) -> (action: JobAction)
        requires
            old(self).well_formed(),
            old(self)@.at(JobPhaseView::FlashSignals(progress)).write_is_due(),
        ensures
            final(self).well_formed(),
            (final(self)@, action@) == old(self)@.at(
                JobPhaseView::FlashSignals(progress),
            ).step_flashing(JobEvent::Markers(*looks)),
    {
        match refresh(self.job, &mut self.signals, looks) {
            Err(error) => self.abandon(error),
            Ok(()) => {
                let progress = progress_from_flash(progress);
                self.go(JobPhase::ReportingFlash, JobAction::Emit(progress))
            },
        }
    }

    fn begin_flash(&mut self, length: &Result<u64, String>) -> (action: JobAction)
        requires
            old(self).well_formed(),
        ensures
            final(self).well_formed(),
            (final(self)@, action@) == old(self)@.at(JobPhaseView::MeasuringCopy).step_flashing(
                JobEvent::Length(*length),
            ),
    {
        match length {
            Err(message) => {
                let result = Err(FlashError::Io(message.clone()));
                self.go(JobPhase::FinalSignals(result), JobAction::InspectMarkers)
            },
            Ok(total) => {
                let options = FlashWriteOptions {
                    target_capacity: self.job.drive.capacity,
                    verify: self.job.verify,
                };
                let (write, action) = write_raw(options, *total);
                self.phase = JobPhase::Closed;
                self.write = Some(write);
                self.flash(action)
            },
        }
    }

    fn step_before(&mut self, event: &JobEvent) -> (action: JobAction)
        requires
            old(self).well_formed(),
            old(self)@.expects(*event),
            is_before(old(self)@.phase),
        ensures
            final(self).well_formed(),
            (final(self)@, action@) == old(self)@.step_before(*event),
    {
        match (&self.phase, event) {
            (JobPhase::CheckingJob, JobEvent::Image(raw)) => self.check_job(raw),
            (JobPhase::FirstSignals, JobEvent::Markers(looks)) => self.after_signals(
                looks,
                false,
                JobPhase::AnnouncingImage,
                WorkerRun::announcement(WorkerPhase::ValidatingImage),
            ),
            (JobPhase::AnnouncingImage, JobEvent::Emitted(emitted)) => self.after_emit(
                emitted,
                false,
                JobPhase::OpeningImage,
                JobAction::OpenImage,
            ),
            (JobPhase::OpeningImage, JobEvent::Opened(opening)) => self.open_image(opening),
            (JobPhase::CreatingCopy, JobEvent::Access(access)) => self.after_copy(
                access,
                JobPhase::CopySignals,
                JobAction::InspectMarkers,
            ),
            (JobPhase::CopySignals, JobEvent::Markers(looks)) => self.after_signals(
                looks,
                false,
                JobPhase::ReadingImage,
                JobAction::ReadImage,
            ),
            (JobPhase::ReadingImage, JobEvent::Access(access)) => self.after_read(access),
            (JobPhase::WritingCopy, JobEvent::Access(access)) => {
                let progress = WorkerProgress::bytes(
                    WorkerPhase::ValidatingImage,
                    self.copied,
                    Some(self.job.raw_size),
                );
                self.after_copy(access, JobPhase::ReportingCopy, JobAction::Emit(progress))
            },
            (JobPhase::ReportingCopy, JobEvent::Emitted(emitted)) => self.after_emit(
                emitted,
                false,
                JobPhase::CopySignals,
                JobAction::InspectMarkers,
            ),
            (JobPhase::SyncingCopy, JobEvent::Access(access)) => self.after_copy(
                access,
                JobPhase::RewindingCopy,
                JobAction::RewindCopy,
            ),
            (JobPhase::RewindingCopy, JobEvent::Access(access)) => self.after_copy(
                access,
                JobPhase::CheckingCopy,
                JobAction::CheckCopy,
            ),
            (JobPhase::CheckingCopy, JobEvent::Platform(result)) => self.after_platform(
                result,
                false,
                JobPhase::ImageSignals,
                JobAction::InspectMarkers,
            ),
            (JobPhase::ImageSignals, JobEvent::Markers(looks)) => self.after_signals(
                looks,
                false,
                JobPhase::AnnouncingTarget,
                WorkerRun::announcement(WorkerPhase::ValidatingTarget),
            ),
            (JobPhase::AnnouncingTarget, JobEvent::Emitted(emitted)) => self.after_emit(
                emitted,
                false,
                JobPhase::ValidatingTarget,
                JobAction::ValidateTarget,
            ),
            (JobPhase::ValidatingTarget, JobEvent::Target(target)) => self.after_target(
                target,
                false,
                JobPhase::TargetSignals,
                JobAction::InspectMarkers,
            ),
            (JobPhase::TargetSignals, JobEvent::Markers(looks)) => self.after_signals(
                looks,
                false,
                JobPhase::AnnouncingUnmount,
                WorkerRun::announcement(WorkerPhase::Unmounting),
            ),
            (JobPhase::AnnouncingUnmount, JobEvent::Emitted(emitted)) => self.after_emit(
                emitted,
                false,
                JobPhase::Unmounting,
                JobAction::Unmount,
            ),
            _ => vstd::pervasive::unreached(),
        }
    }

    fn step_opening(&mut self, event: &JobEvent) -> (action: JobAction)
        requires
            old(self).well_formed(),
            old(self)@.expects(*event),
            is_opening(old(self)@.phase),
        ensures
            final(self).well_formed(),
            (final(self)@, action@) == old(self)@.step_opening(*event),
    {
        match (&self.phase, event) {
            (JobPhase::Unmounting, JobEvent::Platform(result)) => self.after_platform(
                result,
                true,
                JobPhase::UnmountedSignals,
                JobAction::InspectMarkers,
            ),
            (JobPhase::UnmountedSignals, JobEvent::Markers(looks)) => self.after_signals(
                looks,
                true,
                JobPhase::AnnouncingTargetAgain,
                WorkerRun::announcement(WorkerPhase::ValidatingTarget),
            ),
            (JobPhase::AnnouncingTargetAgain, JobEvent::Emitted(emitted)) => self.after_emit(
                emitted,
                true,
                JobPhase::ValidatingTargetAgain,
                JobAction::ValidateTarget,
            ),
            (JobPhase::ValidatingTargetAgain, JobEvent::Target(target)) => self.after_target(
                target,
                true,
                JobPhase::OpeningTarget,
                JobAction::OpenTarget(self.job.verify),
            ),
            (JobPhase::OpeningTarget, JobEvent::Platform(result)) => self.after_platform(
                result,
                true,
                JobPhase::MeasuringCopy,
                JobAction::MeasureCopy,
            ),
            _ => vstd::pervasive::unreached(),
        }
    }

    fn step_flashing(&mut self, event: &JobEvent) -> (action: JobAction)
        requires
            old(self).well_formed(),
            old(self)@.expects(*event),
            is_flashing(old(self)@.phase),
        ensures
            final(self).well_formed(),
            (final(self)@, action@) == old(self)@.step_flashing(*event),
    {
        let mut phase = JobPhase::Closed;
        core::mem::swap(&mut phase, &mut self.phase);
        match (phase, event) {
            (JobPhase::MeasuringCopy, JobEvent::Length(length)) => self.begin_flash(length),
            (JobPhase::Flashing, JobEvent::Access(access)) => self.flash_step(access),
            (JobPhase::WritingTarget(progress), JobEvent::Access(access)) => match access {
                AccessEvent::Failed(_) => self.flash_step(access),
                _ => self.go(JobPhase::FlashSignals(progress), JobAction::InspectMarkers),
            },
            (JobPhase::FlashSignals(progress), JobEvent::Markers(looks)) => {
                self.report_flash(progress, looks)
            },
            (JobPhase::ReportingFlash, JobEvent::Emitted(emitted)) => match emitted {
                Err(cause) => self.abandon(WorkerError::Progress(cause.clone())),
                Ok(()) => self.flash_step(&AccessEvent::Done),
            },
            (JobPhase::FinalSignals(result), JobEvent::Markers(looks)) => {
                self.after_flash(looks, result)
            },
            (JobPhase::Abandoning(error), _) => self.give_up(true, error),
            _ => vstd::pervasive::unreached(),
        }
    }

    fn step_after(&mut self, event: &JobEvent) -> (action: JobAction)
        requires
            old(self).well_formed(),
            old(self)@.expects(*event),
            is_after(old(self)@.phase),
        ensures
            final(self).well_formed(),
            (final(self)@, action@) == old(self)@.step_after(*event),
    {
        let mut phase = JobPhase::Closed;
        core::mem::swap(&mut phase, &mut self.phase);
        match (phase, event) {
            (JobPhase::AnnouncingSync(report), JobEvent::Emitted(emitted)) => match emitted {
                Err(cause) => self.abandon(WorkerError::Progress(cause.clone())),
                Ok(()) => self.go(JobPhase::SyncingTarget(report), JobAction::SyncTarget),
            },
            (JobPhase::SyncingTarget(report), JobEvent::Access(access)) => match access {
                AccessEvent::Failed(message) => {
                    self.give_up(true, WorkerError::Flash(FlashError::Io(message.clone())))
                },
                _ => self.announce(JobPhase::AnnouncingEject(report), WorkerPhase::Ejecting),
            },
            (JobPhase::AnnouncingEject(report), JobEvent::Emitted(emitted)) => self.after_emit(
                emitted,
                true,
                JobPhase::Ejecting(report),
                JobAction::Eject,
            ),
            (JobPhase::Ejecting(report), JobEvent::Platform(result)) => {
                let progress = WorkerProgress::completed(&report);
                self.after_platform(
                    result,
                    true,
                    JobPhase::AnnouncingCompletion(report),
                    JobAction::Emit(progress),
                )
            },
            (JobPhase::AnnouncingCompletion(report), JobEvent::Emitted(emitted)) => {
                self.after_emit(emitted, true, JobPhase::Closed, JobAction::Return(report))
            },
            (JobPhase::CleaningUp(error), _) => self.give_up(false, error),
            (JobPhase::ReportingFailure(error), JobEvent::Emitted(emitted)) => match emitted {
                Err(cause) => self.go(
                    JobPhase::Closed,
                    JobAction::Fail(WorkerError::Progress(cause.clone())),
                ),
                Ok(()) => self.go(JobPhase::Closed, JobAction::Fail(error)),
            },
            _ => vstd::pervasive::unreached(),
        }
    }

    /// What to do next after an access.
    pub fn step(&mut self, event: &JobEvent) -> (action: JobAction)
        requires
            old(self).well_formed(),
            old(self)@.expects(*event),
        ensures
            final(self).well_formed(),
            (final(self)@, action@) == old(self)@.step(*event),
    {
        match &self.phase {
            JobPhase::Unmounting
            | JobPhase::UnmountedSignals
            | JobPhase::AnnouncingTargetAgain
            | JobPhase::ValidatingTargetAgain
            | JobPhase::OpeningTarget => self.step_opening(event),
            JobPhase::MeasuringCopy
            | JobPhase::Flashing
            | JobPhase::WritingTarget(_)
            | JobPhase::FlashSignals(_)
            | JobPhase::ReportingFlash
            | JobPhase::FinalSignals(_)
            | JobPhase::Abandoning(_) => self.step_flashing(event),
            JobPhase::AnnouncingSync(_)
            | JobPhase::SyncingTarget(_)
            | JobPhase::AnnouncingEject(_)
            | JobPhase::Ejecting(_)
            | JobPhase::AnnouncingCompletion(_)
            | JobPhase::CleaningUp(_)
            | JobPhase::ReportingFailure(_)
            | JobPhase::Closed => self.step_after(event),
            _ => self.step_before(event),
        }
    }
}

/// The phases from the unmounting to the opened target.
pub open spec fn is_opening(phase: JobPhaseView) -> bool {
    phase is Unmounting || phase is UnmountedSignals || phase is AnnouncingTargetAgain
        || phase is ValidatingTargetAgain || phase is OpeningTarget
}

/// The phases in which the target is written and read back.
pub open spec fn is_flashing(phase: JobPhaseView) -> bool {
    phase is MeasuringCopy || phase is Flashing || phase is WritingTarget || phase is FlashSignals
        || phase is ReportingFlash || phase is FinalSignals || phase is Abandoning
}

/// The phases after the target has been written, and those of a failed job.
pub open spec fn is_after(phase: JobPhaseView) -> bool {
    phase is AnnouncingSync || phase is SyncingTarget || phase is AnnouncingEject
        || phase is Ejecting || phase is AnnouncingCompletion || phase is CleaningUp
        || phase is ReportingFailure || phase is Closed
}

/// The phases before the target is touched.
pub open spec fn is_before(phase: JobPhaseView) -> bool {
    !is_opening(phase) && !is_flashing(phase) && !is_after(phase)
}

// ---------------------------------------------------------------------------------------------
// What holds of a whole job
// ---------------------------------------------------------------------------------------------

/// The state after a run of events.
pub open spec fn job_after(start: JobState, events: Seq<JobEvent>) -> JobState
    decreases events.len(),
{
    if events.len() == 0 {
        start
    } else {
        job_after(start, events.drop_last()).step(events.last()).0
    }
}

/// Whether every event of the run answers what the job waited for.
pub open spec fn job_accepts(start: JobState, events: Seq<JobEvent>) -> bool
    decreases events.len(),
{
    events.len() == 0 || (job_accepts(start, events.drop_last()) && job_after(
        start,
        events.drop_last(),
    ).expects(events.last()))
}

/// The phases that end a job which was successful so far.
pub open spec fn is_finishing(phase: JobPhaseView) -> bool {
    phase is AnnouncingSync || phase is SyncingTarget || phase is AnnouncingEject
        || phase is Ejecting || phase is AnnouncingCompletion
}

/// The phases up to the complete copy.
pub open spec fn is_copying(phase: JobPhaseView) -> bool {
    phase is CheckingJob || phase is FirstSignals || phase is AnnouncingImage
        || phase is OpeningImage || phase is CreatingCopy || phase is CopySignals
        || phase is ReadingImage || phase is WritingCopy || phase is ReportingCopy
}

/// The report that a phase holds.
pub open spec fn held_report(phase: JobPhaseView) -> Option<FlashReportView> {
    match phase {
        JobPhaseView::FinalSignals(Ok(report)) => Some(report),
        JobPhaseView::AnnouncingSync(report) => Some(report),
        JobPhaseView::SyncingTarget(report) => Some(report),
        JobPhaseView::AnnouncingEject(report) => Some(report),
        JobPhaseView::Ejecting(report) => Some(report),
        JobPhaseView::AnnouncingCompletion(report) => Some(report),
        _ => None,
    }
}

/// Whether a report is that of a write: every byte written is counted and digested, and it says
/// `verified` only where as many bytes were read back, with the same digest.
pub open spec fn report_is_of(report: FlashReportView, write: WriteState) -> bool {
    &&& report.bytes_written == write.written.len()
    &&& report.raw_sha256 == digest::sha256_text(write.written)
    &&& report.verified ==> {
        &&& write.options.verify
        &&& write.read_back.len() == write.written.len()
        &&& digest::sha256(write.read_back) == digest::sha256(write.written)
    }
}

/// What a job keeps: nothing but a complete copy of the expected image gets past the copying, the
/// write is one of that job, and a report that is held is the write's own.
pub open spec fn job_keeps(state: JobState) -> bool {
    &&& is_copying(state.phase) || state.phase is ReportingFailure || state.phase is Closed
        || state.copy_is_expected()
    &&& state.write matches Some(write) ==> {
        &&& write.options == state.options()
        &&& write.phase != WritePhase::Closed ==> write.well_formed()
    }
    &&& state.phase is Flashing || state.phase is WritingTarget || state.phase is FlashSignals
        || state.phase is ReportingFlash ==> (state.write matches Some(write) && write.phase
        != WritePhase::Closed)
    &&& state.write_is_due()
    &&& held_report(state.phase) matches Some(report) ==> {
        &&& state.write matches Some(write)
        &&& report_is_of(report, write)
        &&& !(state.phase is FinalSignals) ==> report_is_expected(state.job, report)
    }
}

proof fn write_step_keeps(state: JobState, access: AccessEvent)
    requires
        job_keeps(state),
        state.write is Some,
        state.write->0.phase != WritePhase::Closed,
        state.copy_is_expected(),
        state.write->0.expects(access),
    ensures
        job_keeps(state.flash_step(access).0),
        state.flash_step(access).0.job == state.job,
        is_flashing(state.flash_step(access).0.phase),
{
}

proof fn flashing_keeps(state: JobState, event: JobEvent)
    requires
        job_keeps(state),
        state.expects(event),
        is_flashing(state.phase),
    ensures
        job_keeps(state.step(event).0),
        state.step(event).0.job == state.job,
{
    match state.phase {
        JobPhaseView::Flashing => write_step_keeps(state, event->Access_0),
        JobPhaseView::WritingTarget(_) => if event->Access_0 is Failed {
            write_step_keeps(state, event->Access_0);
        },
        JobPhaseView::ReportingFlash => if event->Emitted_0 is Ok {
            write_step_keeps(state, AccessEvent::Done);
        },
        _ => {},
    }
}

proof fn other_steps_keep(state: JobState, event: JobEvent)
    requires
        job_keeps(state),
        state.expects(event),
        !is_flashing(state.phase),
    ensures
        job_keeps(state.step(event).0),
        state.step(event).0.job == state.job,
{
}

proof fn run_keeps(platform: Platform, job: WorkerJob, events: Seq<JobEvent>)
    requires
        job_accepts(job_start(platform, job).0, events),
    ensures
        job_keeps(job_after(job_start(platform, job).0, events)),
        job_after(job_start(platform, job).0, events).job == job,
    decreases events.len(),
{
    let start = job_start(platform, job).0;
    if events.len() > 0 {
        run_keeps(platform, job, events.drop_last());
        let before = job_after(start, events.drop_last());
        if is_flashing(before.phase) {
            flashing_keeps(before, events.last());
        } else {
            other_steps_keep(before, events.last());
        }
    }
}

/// No volume is unmounted, and the target is never opened, written or read, before the worker has
/// copied the raw image completely and found the copy to have the size and the digest that the job
/// names.
pub proof fn target_is_touched_only_for_the_expected_image(
    platform: Platform,
    job: WorkerJob,
    events: Seq<JobEvent>,
)
    requires
        job_accepts(job_start(platform, job).0, events),
    ensures
        ({
            let state = job_after(job_start(platform, job).0, events);
            is_opening(state.phase) || is_flashing(state.phase) || is_finishing(state.phase)
                || state.phase is ValidatingTarget ==> {
                &&& state.copied.len() == job.raw_size
                &&& text::lower_text(digest::sha256_text(state.copied)) == text::lower_text(
                    job.expected_raw_sha256@,
                )
            }
        }),
{
    run_keeps(platform, job, events);
}

/// A job that returns a report has written exactly the image that was asked for: as many bytes as
/// the job names, with the digest that the job names. The report says `verified` only where the
/// job asked for it, and then the bytes read back from the target have that digest too.
pub proof fn returned_report_is_of_the_expected_image(
    platform: Platform,
    job: WorkerJob,
    events: Seq<JobEvent>,
    event: JobEvent,
)
    requires
        job_accepts(job_start(platform, job).0, events.push(event)),
    ensures
        ({
            let state = job_after(job_start(platform, job).0, events);
            state.step(event).1 matches JobActionView::Return(report) ==> {
                &&& report_is_expected(job, report)
                &&& state.write matches Some(write)
                &&& report_is_of(report, write)
                &&& report.verified ==> job.verify
            }
        }),
{
    assert(events.push(event).drop_last() =~= events);
    run_keeps(platform, job, events);
    let state = job_after(job_start(platform, job).0, events);
    if is_flashing(state.phase) {
        flash_never_returns(state, event);
    } else {
        only_completion_returns(state, event);
    }
}

proof fn flash_never_returns(state: JobState, event: JobEvent)
    requires
        is_flashing(state.phase),
    ensures
        !(state.step(event).1 is Return),
{
}

proof fn only_completion_returns(state: JobState, event: JobEvent)
    requires
        !is_flashing(state.phase),
    ensures
        state.step(event).1 matches JobActionView::Return(report) ==> state.phase
            == JobPhaseView::AnnouncingCompletion(report),
{
}

/// How often the platform has found the target to be the selected one.
pub open spec fn matches_seen(job: WorkerJob, events: Seq<JobEvent>) -> nat
    decreases events.len(),
{
    if events.len() == 0 {
        0
    } else {
        matches_seen(job, events.drop_last()) + (if events.last() matches JobEvent::Target(
            Ok(drive),
        ) && drive@ == job.drive@ {
            1nat
        } else {
            0nat
        })
    }
}

/// The volumes are unmounted only after the platform has found the target to be the selected one,
/// and the target is opened and written only after it was found to be so once more.
pub proof fn target_is_validated_before_each_stage(
    platform: Platform,
    job: WorkerJob,
    events: Seq<JobEvent>,
)
    requires
        job_accepts(job_start(platform, job).0, events),
    ensures
        ({
            let phase = job_after(job_start(platform, job).0, events).phase;
            &&& is_opening(phase) ==> matches_seen(job, events) >= 1
            &&& phase is OpeningTarget || is_flashing(phase) || is_finishing(phase)
                ==> matches_seen(job, events) >= 2
            &&& phase is TargetSignals || phase is AnnouncingUnmount ==> matches_seen(job, events)
                >= 1
        }),
    decreases events.len(),
{
    let start = job_start(platform, job).0;
    if events.len() > 0 {
        let head = events.drop_last();
        target_is_validated_before_each_stage(platform, job, head);
        run_keeps(platform, job, head);
        let before = job_after(start, head);
        if is_flashing(before.phase) {
            flash_leads_on(before, events.last());
        } else {
            other_steps_lead_on(before, events.last());
        }
    }
}

/// The phases that a step from here can lead to.
spec fn leads_on(before: JobPhaseView, after: JobPhaseView, matching: bool) -> bool {
    &&& is_finishing(after) ==> is_flashing(before) || is_finishing(before)
    &&& is_flashing(after) ==> before is OpeningTarget || is_flashing(before)
        || is_finishing(before)
    &&& is_opening(after) ==> is_opening(before) || before is AnnouncingUnmount
    &&& after is OpeningTarget ==> before is ValidatingTargetAgain && matching
    &&& after is AnnouncingUnmount ==> before is TargetSignals
    &&& after is TargetSignals ==> before is ValidatingTarget && matching
    &&& after is Unmounting ==> before is AnnouncingUnmount
    &&& after is Closed ==> before is AnnouncingCompletion || before is ReportingFailure
    &&& after is ReportingFailure ==> is_before(before) || before is CleaningUp
    &&& before is Unmounting || is_opening(before) || is_flashing(before) ==> !is_before(after)
    &&& is_after(before) ==> is_after(after) || after is Abandoning
    &&& after is AnnouncingCompletion ==> before is Ejecting
}

spec fn is_match(job: WorkerJob, event: JobEvent) -> bool {
    event matches JobEvent::Target(Ok(drive)) && drive@ == job.drive@
}

proof fn flash_leads_on(state: JobState, event: JobEvent)
    requires
        state.expects(event),
        is_flashing(state.phase),
    ensures
        leads_on(state.phase, state.step(event).0.phase, is_match(state.job, event)),
{
}

proof fn other_steps_lead_on(state: JobState, event: JobEvent)
    requires
        state.expects(event),
        !is_flashing(state.phase),
    ensures
        leads_on(state.phase, state.step(event).0.phase, is_match(state.job, event)),
{
}

/// Whether the job tried to unmount the target's volumes.
pub open spec fn unmount_was_tried(start: JobState, events: Seq<JobEvent>) -> bool
    decreases events.len(),
{
    job_after(start, events).phase is Unmounting || (events.len() > 0 && unmount_was_tried(
        start,
        events.drop_last(),
    ))
}

/// Whether the job tried to eject the medium.
pub open spec fn eject_was_tried(start: JobState, events: Seq<JobEvent>) -> bool
    decreases events.len(),
{
    job_after(start, events).phase is CleaningUp || job_after(start, events).phase is Ejecting || (
    events.len() > 0 && eject_was_tried(start, events.drop_last()))
}

/// Once the job has tried to unmount the target's volumes it never ends without having tried to
/// eject the medium, whatever failed in between.
pub proof fn unmounted_media_are_ejected(
    platform: Platform,
    job: WorkerJob,
    events: Seq<JobEvent>,
)
    requires
        job_accepts(job_start(platform, job).0, events),
        unmount_was_tried(job_start(platform, job).0, events),
        ({
            let phase = job_after(job_start(platform, job).0, events).phase;
            phase is Closed || phase is ReportingFailure
        }),
    ensures
        eject_was_tried(job_start(platform, job).0, events),
{
    eject_is_due(platform, job, events);
}

proof fn eject_is_due(platform: Platform, job: WorkerJob, events: Seq<JobEvent>)
    requires
        job_accepts(job_start(platform, job).0, events),
    ensures
        ({
            let start = job_start(platform, job).0;
            let phase = job_after(start, events).phase;
            &&& is_before(phase) ==> !unmount_was_tried(start, events)
            &&& phase is AnnouncingCompletion || phase is CleaningUp ==> eject_was_tried(
                start,
                events,
            )
            &&& phase is Closed || phase is ReportingFailure ==> unmount_was_tried(start, events)
                ==> eject_was_tried(start, events)
        }),
    decreases events.len(),
{
    let start = job_start(platform, job).0;
    if events.len() > 0 {
        let head = events.drop_last();
        eject_is_due(platform, job, head);
        let before = job_after(start, head);
        if is_flashing(before.phase) {
            flash_leads_on(before, events.last());
        } else {
            other_steps_lead_on(before, events.last());
        }
        let phase = job_after(start, events).phase;
        assert(unmount_was_tried(start, events) == (phase is Unmounting || unmount_was_tried(
            start,
            head,
        )));
        assert(before.phase is Ejecting ==> eject_was_tried(start, head));
        assert(eject_was_tried(start, head) ==> eject_was_tried(start, events));
    }
}

/// A cancel marker that is there when the job starts ends it: the error is the cancellation, and
/// it is reported as such without a look at the image's content or the target.
pub proof fn early_cancellation_ends_the_job(state: JobState, looks: MarkerLooks)
    requires
        state.phase is FirstSignals,
        state.job.cancel_path is Some,
        looks.cancel is Found,
        !(looks.skip_verification is Failed),
    ensures
        state.step(JobEvent::Markers(looks)).0.phase == JobPhaseView::ReportingFailure(
            WorkerErrorView::Cancelled,
        ),
        state.step(JobEvent::Markers(looks)).1 == JobActionView::Emit(
            worker::failed_progress(WorkerErrorView::Cancelled),
        ),
        worker::failed_progress(WorkerErrorView::Cancelled).phase == WorkerPhase::Cancelled,
{
}

/// What fails while the target is open is not the end of the job: the write goes on, or it is
/// complete, or the target is let go of before the medium is ejected.
pub proof fn open_target_is_always_let_go(state: JobState, event: JobEvent)
    requires
        is_flashing(state.phase),
        state.expects(event),
    ensures
        ({
            let (after, action) = state.step(event);
            if state.phase is Abandoning {
                after.phase is CleaningUp && action is Eject
            } else {
                &&& is_flashing(after.phase) || after.phase is AnnouncingSync
                &&& after.phase is Abandoning ==> action is AbandonTarget
            }
        }),
{
}

/// What cleaning up comes to never hides why the job failed: whatever letting go of the target and
/// ejecting the medium come to, the fault that is reported is the first one.
pub proof fn cleaning_up_never_hides_the_fault(
    state: JobState,
    fault: WorkerErrorView,
    closing: AccessEvent,
    ejecting: Result<(), WorkerError>,
)
    requires
        state.phase == JobPhaseView::Abandoning(fault),
    ensures
        ({
            let (closed, next) = state.step(JobEvent::Access(closing));
            let (reporting, last) = closed.step(JobEvent::Platform(ejecting));
            &&& next is Eject
            &&& reporting.phase == JobPhaseView::ReportingFailure(fault)
            &&& last == JobActionView::Emit(worker::failed_progress(fault))
        }),
{
}

/// Whether a look at the markers asks for nothing: a marker that the job names is not there.
pub open spec fn asks_for_nothing(job: WorkerJob, looks: MarkerLooks) -> bool {
    &&& job.cancel_path is Some ==> looks.cancel is NotFound
    &&& job.skip_verification_path is Some ==> looks.skip_verification is NotFound
}

/// Whether an access was untroubled: what was asked for was done, nothing asks the job to stop, and
/// a target that was looked at is the selected one.
pub open spec fn goes_well(job: WorkerJob, event: JobEvent) -> bool {
    match event {
        JobEvent::Markers(looks) => asks_for_nothing(job, looks),
        JobEvent::Emitted(result) => result is Ok,
        JobEvent::Access(access) => access is Done,
        JobEvent::Platform(result) => result is Ok,
        JobEvent::Target(result) => result matches Ok(drive) && drive.id@ == job.drive.id@
            && drive.device@ == job.drive.device@ && drive.capacity == job.drive.capacity,
        _ => false,
    }
}

/// An event that says only which phase the worker is in.
pub open spec fn says_only(action: JobActionView, phase: WorkerPhase) -> bool {
    action matches JobActionView::Emit(event) && event.phase == phase && event.bytes_processed
        is None && event.total_bytes is None && event.raw_sha256 is None && event.verified is None
        && event.message is None
}

/// An event that counts bytes in a phase.
pub open spec fn counts_bytes(
    action: JobActionView,
    phase: WorkerPhase,
    processed: u64,
    total: Option<u64>,
) -> bool {
    action matches JobActionView::Emit(event) && event.phase == phase && event.bytes_processed
        == Some(processed) && event.total_bytes == total && event.raw_sha256 is None
        && event.verified is None && event.message is None
}

/// A job that says nothing wrong begins with a look at its raw image, and one whose image is the
/// plain file of the size that it names goes on to open it and to make room for the copy.
pub proof fn untroubled_job_opens_its_image(
    platform: Platform,
    job: WorkerJob,
    facts: RawImageFacts,
    looks: MarkerLooks,
    emitted: JobEvent,
    opening: RawImageOpening,
    created: JobEvent,
)
    requires
        worker::text_fault(platform, job) is None,
        facts.is_file && !facts.is_symlink && facts.length == job.raw_size,
        asks_for_nothing(job, looks),
        emitted is Emitted && goes_well(job, emitted),
        staging::opening_fault(job, opening) is None,
        created is Access && goes_well(job, created),
    ensures
        ({
            let (first, looking) = job_start(platform, job);
            let (second, checking) = first.step(JobEvent::Image(Ok(facts)));
            let (third, announcing) = second.step(JobEvent::Markers(looks));
            let (fourth, opens) = third.step(emitted);
            let (fifth, creates) = fourth.step(JobEvent::Opened(opening));
            let (sixth, checks) = fifth.step(created);
            &&& looking is InspectImage
            &&& checking is InspectMarkers
            &&& says_only(announcing, WorkerPhase::ValidatingImage)
            &&& opens is OpenImage
            &&& creates is CreateCopy
            &&& checks is InspectMarkers
            &&& sixth == JobState {
                platform,
                job,
                phase: JobPhaseView::CopySignals,
                signals: Wishes { cancelled: false, skip_verification: false },
                copied: Seq::empty(),
                write: None,
            }
        }),
{
}

/// Every chunk of the raw image within the size that the job names is read, written to the copy and
/// counted, after which the next one is read.
pub proof fn every_chunk_is_copied(
    state: JobState,
    looks: MarkerLooks,
    chunk: AccessEvent,
    written: JobEvent,
    emitted: JobEvent,
)
    requires
        state.phase == JobPhaseView::CopySignals,
        !state.signals.cancelled,
        asks_for_nothing(state.job, looks),
        chunk is Chunk && chunk.bytes().len() > 0,
        state.copied.len() + chunk.bytes().len() <= state.job.raw_size,
        written is Access && goes_well(state.job, written),
        emitted is Emitted && goes_well(state.job, emitted),
    ensures
        ({
            let (reading, reads) = state.step(JobEvent::Markers(looks));
            let (writing, writes) = reading.step(JobEvent::Access(chunk));
            let (reporting, reports) = writing.step(written);
            let (after, checks) = reporting.step(emitted);
            &&& reads is ReadImage
            &&& writes is WriteCopy
            &&& counts_bytes(
                reports,
                WorkerPhase::ValidatingImage,
                (state.copied.len() + chunk.bytes().len()) as u64,
                Some(state.job.raw_size),
            )
            &&& checks is InspectMarkers
            &&& after == JobState { copied: state.copied + chunk.bytes(), ..state }
        }),
{
}

/// The copy is taken for the image exactly where the raw image ends with as many bytes as the job
/// names and with the digest that it names, without regard to the case of its digits; a chunk that
/// goes beyond that size is refused.
pub proof fn copy_is_judged_at_its_end(state: JobState, chunk: AccessEvent)
    requires
        state.phase == JobPhaseView::ReadingImage,
        chunk is Chunk,
    ensures
        ({
            let (after, action) = state.step(JobEvent::Access(chunk));
            let size = state.copied.len() + chunk.bytes().len();
            let is_image = size == state.job.raw_size && text::lower_text(
                digest::sha256_text(state.copied),
            ) == text::lower_text(state.job.expected_raw_sha256@);
            let refused = JobPhaseView::ReportingFailure(
                WorkerErrorView::Flash(FlashError::Verification),
            );
            &&& chunk.bytes().len() == 0 && is_image ==> action is SyncCopy
            &&& chunk.bytes().len() == 0 && !is_image ==> after.phase == refused
            &&& chunk.bytes().len() > 0 && size > state.job.raw_size ==> after.phase == refused
            &&& chunk.bytes().len() > 0 && size <= state.job.raw_size ==> action is WriteCopy
        }),
{
}

/// Once the copy is the expected image, an untroubled job writes it through, sets it to its first
/// byte, has it checked, and looks at the target before it unmounts its volumes.
pub proof fn untroubled_job_unmounts_the_target(
    state: JobState,
    synced: JobEvent,
    rewound: JobEvent,
    checked: JobEvent,
    looks: MarkerLooks,
    announced: JobEvent,
    target: JobEvent,
    again: MarkerLooks,
    unmounting: JobEvent,
)
    requires
        state.phase == JobPhaseView::SyncingCopy,
        !state.signals.cancelled,
        synced is Access && goes_well(state.job, synced),
        rewound is Access && goes_well(state.job, rewound),
        checked is Platform && goes_well(state.job, checked),
        asks_for_nothing(state.job, looks),
        announced is Emitted && goes_well(state.job, announced),
        target is Target && goes_well(state.job, target),
        asks_for_nothing(state.job, again),
        unmounting is Emitted && goes_well(state.job, unmounting),
    ensures
        ({
            let (first, rewinds) = state.step(synced);
            let (second, checks) = first.step(rewound);
            let (third, looks_again) = second.step(checked);
            let (fourth, says_target) = third.step(JobEvent::Markers(looks));
            let (fifth, validates) = fourth.step(announced);
            let (sixth, looks_once_more) = fifth.step(target);
            let (seventh, says_unmounting) = sixth.step(JobEvent::Markers(again));
            let (eighth, unmounts) = seventh.step(unmounting);
            &&& rewinds is RewindCopy
            &&& checks is CheckCopy
            &&& looks_again is InspectMarkers
            &&& says_only(says_target, WorkerPhase::ValidatingTarget)
            &&& validates is ValidateTarget
            &&& looks_once_more is InspectMarkers
            &&& says_only(says_unmounting, WorkerPhase::Unmounting)
            &&& unmounts is Unmount
            &&& eighth == JobState { phase: JobPhaseView::Unmounting, ..state }
        }),
{
}

/// Once the volumes are unmounted, an untroubled job looks at the target a second time and opens it,
/// for reading too exactly where the job asks for the read-back; then the write begins, with the
/// target's capacity and the job's wish for a read-back.
pub proof fn untroubled_job_begins_to_write(
    state: JobState,
    unmounted: JobEvent,
    looks: MarkerLooks,
    announced: JobEvent,
    target: JobEvent,
    opened: JobEvent,
    total: u64,
)
    requires
        state.phase == JobPhaseView::Unmounting,
        !state.signals.cancelled,
        unmounted is Platform && goes_well(state.job, unmounted),
        asks_for_nothing(state.job, looks),
        announced is Emitted && goes_well(state.job, announced),
        target is Target && goes_well(state.job, target),
        opened is Platform && goes_well(state.job, opened),
        0 < total <= state.job.drive.capacity,
    ensures
        ({
            let (first, checks) = state.step(unmounted);
            let (second, says_target) = first.step(JobEvent::Markers(looks));
            let (third, validates) = second.step(announced);
            let (fourth, opens) = third.step(target);
            let (fifth, measures) = fourth.step(opened);
            let (sixth, rewinds) = fifth.step(JobEvent::Length(Ok(total)));
            &&& checks is InspectMarkers
            &&& says_only(says_target, WorkerPhase::ValidatingTarget)
            &&& validates is ValidateTarget
            &&& opens == JobActionView::OpenTarget(state.job.verify)
            &&& measures is MeasureCopy
            &&& rewinds is RewindBoth
            &&& sixth.phase == JobPhaseView::Flashing
            &&& sixth.write matches Some(write) && write.total == total
                && write.options.verify == state.job.verify && write.options.target_capacity
                == state.job.drive.capacity && write.written.len() == 0
        }),
{
}

/// What the write asks for is done to the copy and to the target: the copy is read, the target is
/// written, flushed, made ready, set to its first byte and read back; and each report waits until
/// the markers were looked at. The write gets back what the access came to.
pub proof fn write_is_served(state: JobState, access: AccessEvent)
    requires
        state.phase == JobPhaseView::Flashing,
        state.write is Some,
    ensures
        ({
            let (write, wanted) = state.write->0.step(access, state.signals);
            let (after, action) = state.step(JobEvent::Access(access));
            &&& after.write == Some(write)
            &&& after.copied == state.copied && after.job == state.job && after.signals
                == state.signals
            &&& match wanted {
                WriteActionView::Rewind => action is RewindBoth,
                WriteActionView::Read => action is ReadCopy,
                WriteActionView::Write(progress) => action is WriteTarget && after.phase
                    == JobPhaseView::WritingTarget(progress),
                WriteActionView::Flush => action is FlushTarget,
                WriteActionView::Prepare => action is PrepareVerification,
                WriteActionView::RewindTarget => action is RewindTarget,
                WriteActionView::ReadBack(most) => action == JobActionView::ReadTarget(most),
                WriteActionView::Report(progress) => action is InspectMarkers && after.phase
                    == JobPhaseView::FlashSignals(progress),
                WriteActionView::Finish(report) => action is InspectMarkers && after.phase
                    == JobPhaseView::FinalSignals(Ok(report)),
                WriteActionView::Fail(error) => action is InspectMarkers && after.phase
                    == JobPhaseView::FinalSignals(Err(error)),
            }
        }),
{
}

/// A chunk that was written is reported under its stage once the markers were looked at, and only
/// then is the write told; it hears of a wish that was given meanwhile.
pub proof fn written_chunk_is_reported(
    state: JobState,
    progress: FlashProgress,
    written: JobEvent,
    looks: MarkerLooks,
    emitted: JobEvent,
)
    requires
        state.phase == JobPhaseView::WritingTarget(progress),
        state.write is Some,
        written is Access && goes_well(state.job, written),
        !(looks.cancel is Failed) && !(looks.skip_verification is Failed),
        emitted is Emitted && goes_well(state.job, emitted),
        !(progress.stage is Decompressing),
    ensures
        ({
            let (first, checks) = state.step(written);
            let (second, reports) = first.step(JobEvent::Markers(looks));
            let (third, action) = second.step(emitted);
            let wishes = Wishes {
                cancelled: state.signals.cancelled || (state.job.cancel_path is Some
                    && looks.cancel is Found),
                skip_verification: state.signals.skip_verification || (
                state.job.skip_verification_path is Some && looks.skip_verification is Found),
            };
            &&& checks is InspectMarkers
            &&& counts_bytes(
                reports,
                if progress.stage is Writing {
                    WorkerPhase::Writing
                } else {
                    WorkerPhase::Verifying
                },
                progress.processed,
                progress.total,
            )
            &&& second.signals == wishes
            &&& third.write == Some(state.write->0.step(AccessEvent::Done, wishes).0)
        }),
{
}

/// A write that reports the image that the job names is followed by writing the target through and
/// ejecting the medium; then the job says what was written and returns it. A report of anything
/// else gives the target up.
pub proof fn untroubled_job_completes(
    state: JobState,
    report: FlashReportView,
    looks: MarkerLooks,
    syncing: JobEvent,
    synced: JobEvent,
    ejecting: JobEvent,
    ejected: JobEvent,
    completed: JobEvent,
)
    requires
        state.phase == JobPhaseView::FinalSignals(Ok(report)),
        !state.signals.cancelled,
        asks_for_nothing(state.job, looks),
        syncing is Emitted && goes_well(state.job, syncing),
        synced is Access && goes_well(state.job, synced),
        ejecting is Emitted && goes_well(state.job, ejecting),
        ejected is Platform && goes_well(state.job, ejected),
        completed is Emitted && goes_well(state.job, completed),
    ensures
        ({
            let is_image = report.bytes_written == state.job.raw_size && text::lower_text(
                report.raw_sha256,
            ) == text::lower_text(state.job.expected_raw_sha256@);
            let (first, says_syncing) = state.step(JobEvent::Markers(looks));
            let (second, syncs) = first.step(syncing);
            let (third, says_ejecting) = second.step(synced);
            let (fourth, ejects) = third.step(ejecting);
            let (fifth, says_completed) = fourth.step(ejected);
            let (sixth, last) = fifth.step(completed);
            &&& is_image ==> {
                &&& says_only(says_syncing, WorkerPhase::Syncing)
                &&& syncs is SyncTarget
                &&& says_only(says_ejecting, WorkerPhase::Ejecting)
                &&& ejects is Eject
                &&& says_completed matches JobActionView::Emit(event) && event.phase
                    == WorkerPhase::Completed && event.bytes_processed == Some(
                    report.bytes_written,
                ) && event.total_bytes == Some(report.bytes_written) && event.raw_sha256 == Some(
                    report.raw_sha256,
                ) && event.verified == Some(report.verified) && event.message is None
                &&& last == JobActionView::Return(report)
            }
            &&& !is_image ==> first.phase == JobPhaseView::Abandoning(
                WorkerErrorView::Flash(FlashError::Verification),
            ) && says_syncing is AbandonTarget
        }),
{
}

/// The fault that a phase carries to the job's end.
pub open spec fn held_fault(phase: JobPhaseView) -> Option<WorkerErrorView> {
    match phase {
        JobPhaseView::Abandoning(fault) => Some(fault),
        JobPhaseView::CleaningUp(fault) => Some(fault),
        JobPhaseView::ReportingFailure(fault) => Some(fault),
        _ => None,
    }
}

/// Why an event stops a job that waits for it.
pub open spec fn is_reason(state: JobState, event: JobEvent, fault: WorkerErrorView) -> bool {
    match event {
        JobEvent::Image(image) => worker::raw_image_fault(state.job, image) == Some(fault),
        JobEvent::Opened(opening) => staging::opening_fault(state.job, opening) == Some(fault),
        JobEvent::Emitted(result) => result matches Err(cause) && fault
            == WorkerErrorView::Progress(cause@),
        JobEvent::Platform(result) => result matches Err(error) && fault == error@,
        JobEvent::Target(result) => match result {
            Err(error) => fault == error@,
            Ok(drive) => fault is TargetChanged && (drive.id@ != state.job.drive.id@
                || drive.device@ != state.job.drive.device@ || drive.capacity
                != state.job.drive.capacity),
        },
        JobEvent::Access(access) => match access {
            AccessEvent::Failed(cause) => fault == WorkerErrorView::Flash(FlashError::Io(cause)),
            _ => fault == WorkerErrorView::Flash(FlashError::Verification) && state.phase
                == JobPhaseView::ReadingImage,
        },
        JobEvent::Markers(looks) => {
            let seen = state.job.cancel_path is Some && looks.cancel is Found;
            ||| fault is Platform && state.job.cancel_path is Some && looks.cancel is Failed
            ||| fault is Platform && state.job.skip_verification_path is Some
                && looks.skip_verification is Failed
            ||| fault is Cancelled && !(state.phase is FlashSignals) && (state.signals.cancelled
                || seen)
            ||| (state.phase matches JobPhaseView::FinalSignals(result) && match result {
                Err(error) => fault == WorkerErrorView::Flash(error),
                Ok(report) => fault == WorkerErrorView::Flash(FlashError::Verification) && (
                report.bytes_written != state.job.raw_size || text::lower_text(report.raw_sha256)
                    != text::lower_text(state.job.expected_raw_sha256@)),
            })
        },
        JobEvent::Length(_) => false,
    }
}

proof fn early_faults_have_their_reason(state: JobState, event: JobEvent)
    requires
        state.expects(event),
        is_before(state.phase) || is_opening(state.phase),
    ensures
        held_fault(state.step(event).0.phase) matches Some(fault) ==> is_reason(
            state,
            event,
            fault,
        ),
        !(state.step(event).1 is Fail) && !(state.step(event).1 is Return),
{
}

proof fn faults_of_the_write_have_their_reason(state: JobState, event: JobEvent)
    requires
        state.expects(event),
        is_flashing(state.phase) && !(state.phase is Abandoning),
    ensures
        held_fault(state.step(event).0.phase) matches Some(fault) ==> is_reason(
            state,
            event,
            fault,
        ),
        !(state.step(event).1 is Fail) && !(state.step(event).1 is Return),
{
    match state.phase {
        JobPhaseView::Flashing => {
            write_is_served(state, event->Access_0);
        },
        JobPhaseView::WritingTarget(_) => {},
        JobPhaseView::ReportingFlash => {},
        _ => {},
    }
}

/// A job fails only for a reason, which the event that stopped it gives; and it is the first such
/// reason that it fails with, whatever giving up comes to, unless even that cannot be reported.
pub proof fn failed_job_has_its_reason(state: JobState, event: JobEvent)
    requires
        state.expects(event),
    ensures
        held_fault(state.phase) is None ==> (held_fault(state.step(event).0.phase) matches Some(
            fault,
        ) ==> is_reason(state, event, fault)),
        (state.phase matches JobPhaseView::Abandoning(fault) ==> state.step(event).0.phase
            == JobPhaseView::CleaningUp(fault) && state.step(event).1 is Eject),
        (state.phase matches JobPhaseView::CleaningUp(fault) ==> state.step(event).0.phase
            == JobPhaseView::ReportingFailure(fault) && (state.step(event).1 matches
            JobActionView::Emit(progress) && progress.message == Some(fault.text())
            && progress.phase == (if fault is Cancelled {
            WorkerPhase::Cancelled
        } else {
            WorkerPhase::Failed
        }))),
        (state.phase matches JobPhaseView::ReportingFailure(fault) ==> state.step(event).1
            == JobActionView::Fail(
            match event->Emitted_0 {
                Ok(_) => fault,
                Err(cause) => WorkerErrorView::Progress(cause@),
            },
        )),
        state.step(event).1 is Fail ==> state.phase is ReportingFailure,
        state.step(event).1 is Return ==> state.phase is AnnouncingCompletion,
{
    if is_before(state.phase) || is_opening(state.phase) {
        early_faults_have_their_reason(state, event);
    } else if is_flashing(state.phase) && !(state.phase is Abandoning) {
        faults_of_the_write_have_their_reason(state, event);
    }
}

/// Nothing that goes wrong is passed over while a job is worked on: an event that says that something
/// failed, or that the target is another one, is held as the fault of the job, until it is reported.
/// An access of the write that failed ends the write with it.
pub proof fn trouble_stops_the_job(state: JobState, event: JobEvent)
    requires
        state.expects(event),
        held_fault(state.phase) is None,
    ensures
        event matches JobEvent::Emitted(Err(_)) ==> held_fault(state.step(event).0.phase) is Some,
        event matches JobEvent::Platform(Err(_)) ==> held_fault(state.step(event).0.phase) is Some,
        event matches JobEvent::Target(result) ==> !goes_well(state.job, event) ==> held_fault(
            state.step(event).0.phase,
        ) is Some,
        event matches JobEvent::Image(image) ==> worker::raw_image_fault(state.job, image) is Some
            ==> held_fault(state.step(event).0.phase) is Some,
        event matches JobEvent::Opened(opening) ==> staging::opening_fault(state.job, opening)
            is Some ==> held_fault(state.step(event).0.phase) is Some,
        event matches JobEvent::Access(AccessEvent::Failed(cause)) ==> if state.phase is Flashing
            || state.phase is WritingTarget {
            state.step(event).0.phase == JobPhaseView::FinalSignals(Err(FlashError::Io(cause)))
        } else {
            held_fault(state.step(event).0.phase) == Some(
                WorkerErrorView::Flash(FlashError::Io(cause)),
            )
        },
        event matches JobEvent::Length(Err(cause)) ==> state.step(event).0.phase
            == JobPhaseView::FinalSignals(Err(FlashError::Io(cause))),
{
}

/// A wish to cancel stops the job at the next look at the markers, and so does a marker that cannot be
/// looked for; while the target is being written, the wish is passed on to the write instead. A write
/// that failed fails the job.
pub proof fn markers_stop_the_job(state: JobState, looks: MarkerLooks)
    requires
        state.expects(JobEvent::Markers(looks)),
    ensures
        ({
            let after = state.step(JobEvent::Markers(looks)).0;
            let readable = !(looks.cancel is Failed) && !(looks.skip_verification is Failed);
            let wished = state.job.cancel_path is Some && looks.cancel is Found;
            &&& state.job.cancel_path is Some && looks.cancel is Failed ==> held_fault(
                after.phase,
            ) is Some
            &&& readable && wished && !(state.phase is FlashSignals) ==> held_fault(after.phase)
                == Some(WorkerErrorView::Cancelled)
            &&& readable && wished ==> after.signals.cancelled
            &&& state.phase matches JobPhaseView::FinalSignals(Err(error)) ==> asks_for_nothing(
                state.job,
                looks,
            ) && !state.signals.cancelled ==> held_fault(after.phase) == Some(
                WorkerErrorView::Flash(error),
            )
        }),
{
}

} // verus!
