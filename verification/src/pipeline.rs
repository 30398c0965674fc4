//! Unprivileged image preparation and the orchestration of the isolated writer.

use vstd::prelude::*;
use vstd::string::*;

pub mod command_line;
pub mod handover;
pub mod launch;
pub mod linux;
pub mod macos;
pub mod monitor;
pub mod run;
pub mod runner;
pub mod tail;
pub mod windows;

pub use crate::pipeline::linux::LinuxWorkerRunner;
pub use crate::pipeline::macos::MacOsWorkerRunner;
pub use crate::pipeline::run::run_pipeline;
pub use crate::pipeline::windows::WindowsWorkerRunner;

use crate::download::{DownloadError, DownloadErrorView, DownloadProgress};
use crate::flash::{FlashError, FlashProgress, PreparedImage, PreparedImageView};
use crate::paths;
use crate::paths::member_path;
use crate::text;
use crate::text::{decimal_text, join2, join3};
use crate::worker::windows_paths;
use crate::worker::{
    Platform, ProgressDestination, WorkerDrive, WorkerJob, WorkerProgress,
    WORKER_JOB_SCHEMA_VERSION, WORKER_PROGRESS_SCHEMA_VERSION,
};

verus! {

/// Command-line switch used to re-enter this executable as the isolated writer.
pub const WORKER_JOB_ARGUMENT: &'static str = "--worker-job";

/// Everything required to download, prepare, and flash one image.
#[derive(Clone, Debug, PartialEq, Eq)]
pub struct PipelineRequest {
    pub image_url: String,
    pub expected_compressed_sha256: Option<String>,
    pub expected_compressed_size: Option<u64>,
    pub expected_raw_size: Option<u64>,
    pub expected_raw_sha256: Option<String>,
    pub drive: WorkerDrive,
    pub verify: bool,
}

/// Progress surfaced to the unprivileged UI.
#[derive(Clone, Debug, PartialEq, Eq)]
pub enum PipelineEvent {
    Download(DownloadProgress),
    Preparing(FlashProgress),
    AwaitingAuthorization,
    Worker(WorkerProgress),
}

/// Stable metadata retained after temporary pipeline files have been removed.
#[derive(Clone, Debug, PartialEq, Eq)]
pub struct PipelineReport {
    pub bytes_downloaded: u64,
    pub compressed_sha256: String,
    pub raw_size: u64,
    pub raw_sha256: String,
    pub verified: bool,
}

/// What a [`PipelineReport`] holds.
pub struct PipelineReportView {
    pub bytes_downloaded: u64,
    pub compressed_sha256: Seq<char>,
    pub raw_size: u64,
    pub raw_sha256: Seq<char>,
    pub verified: bool,
}

impl View for PipelineReport {
    type V = PipelineReportView;

    open spec fn view(&self) -> PipelineReportView {
        PipelineReportView {
            bytes_downloaded: self.bytes_downloaded,
            compressed_sha256: self.compressed_sha256@,
            raw_size: self.raw_size,
            raw_sha256: self.raw_sha256@,
            verified: self.verified,
        }
    }
}

// ---------------------------------------------------------------------------------------------
// Errors
// ---------------------------------------------------------------------------------------------

/// Failures while creating a cancel or skip marker.
#[derive(Debug)]
pub enum PipelineControlError {
    Unavailable,
    Io(String),
}

/// What a [`PipelineControlError`] holds.
pub enum PipelineControlErrorView {
    Unavailable,
    Io(Seq<char>),
}

impl View for PipelineControlError {
    type V = PipelineControlErrorView;

    open spec fn view(&self) -> PipelineControlErrorView {
        match *self {
            PipelineControlError::Unavailable => PipelineControlErrorView::Unavailable,
            PipelineControlError::Io(cause) => PipelineControlErrorView::Io(cause@),
        }
    }
}

impl PipelineControlErrorView {
    /// The sentence shown for the error.
    pub open spec fn text(self) -> Seq<char> {
        match self {
            PipelineControlErrorView::Unavailable => "pipeline control is unavailable"@,
            PipelineControlErrorView::Io(cause) => {
                "could not write a pipeline control marker: "@ + cause
            },
        }
    }
}

impl PipelineControlError {
    /// The sentence shown for the error.
    pub fn message(&self) -> (result: String)
        ensures
            result@ == self@.text(),
    {
        match self {
            PipelineControlError::Unavailable => "pipeline control is unavailable".to_owned(),
            PipelineControlError::Io(cause) => join2(
                "could not write a pipeline control marker: ",
                cause.as_str(),
            ),
        }
    }
}

/// Failures while launching or monitoring the isolated same-executable writer.
#[derive(Debug)]
pub enum WorkerRunnerError {
    AuthorizationDenied,
    Io(String),
    InvalidProgress(String),
    Failed { status: String, message: String },
    Unsupported,
}

/// What a [`WorkerRunnerError`] holds.
pub enum WorkerRunnerErrorView {
    AuthorizationDenied,
    Io(Seq<char>),
    InvalidProgress(Seq<char>),
    Failed { status: Seq<char>, message: Seq<char> },
    Unsupported,
}

impl View for WorkerRunnerError {
    type V = WorkerRunnerErrorView;

    open spec fn view(&self) -> WorkerRunnerErrorView {
        match *self {
            WorkerRunnerError::AuthorizationDenied => WorkerRunnerErrorView::AuthorizationDenied,
            WorkerRunnerError::Io(cause) => WorkerRunnerErrorView::Io(cause@),
            WorkerRunnerError::InvalidProgress(reason) => WorkerRunnerErrorView::InvalidProgress(
                reason@,
            ),
            WorkerRunnerError::Failed { status, message } => WorkerRunnerErrorView::Failed {
                status: status@,
                message: message@,
            },
            WorkerRunnerError::Unsupported => WorkerRunnerErrorView::Unsupported,
        }
    }
}

impl WorkerRunnerErrorView {
    /// The sentence shown for the error.
    pub open spec fn text(self) -> Seq<char> {
        match self {
            WorkerRunnerErrorView::AuthorizationDenied => {
                "administrator authorization was cancelled or denied"@
            },
            WorkerRunnerErrorView::Io(cause) => "worker process I/O failed: "@ + cause,
            WorkerRunnerErrorView::InvalidProgress(reason) => {
                "worker emitted invalid JSON-lines progress: "@ + reason
            },
            WorkerRunnerErrorView::Failed { status, message } => {
                "worker process failed with status "@ + status + ": "@ + message
            },
            WorkerRunnerErrorView::Unsupported => {
                "an isolated writer runner is not implemented on this platform"@
            },
        }
    }
}

impl WorkerRunnerError {
    /// The sentence shown for the error.
    pub fn message(&self) -> (result: String)
        ensures
            result@ == self@.text(),
    {
        match self {
            WorkerRunnerError::AuthorizationDenied => {
                "administrator authorization was cancelled or denied".to_owned()
            },
            WorkerRunnerError::Io(cause) => join2("worker process I/O failed: ", cause.as_str()),
            WorkerRunnerError::InvalidProgress(reason) => join2(
                "worker emitted invalid JSON-lines progress: ",
                reason.as_str(),
            ),
            WorkerRunnerError::Failed { status, message } => {
                let start = join3("worker process failed with status ", status.as_str(), ": ");
                join2(start.as_str(), message.as_str())
            },
            WorkerRunnerError::Unsupported => {
                "an isolated writer runner is not implemented on this platform".to_owned()
            },
        }
    }

    /// A copy of the error.
    pub fn copy(&self) -> (result: WorkerRunnerError)
        ensures
            result == *self,
    {
        match self {
            WorkerRunnerError::AuthorizationDenied => WorkerRunnerError::AuthorizationDenied,
            WorkerRunnerError::Io(cause) => WorkerRunnerError::Io(cause.clone()),
            WorkerRunnerError::InvalidProgress(reason) => WorkerRunnerError::InvalidProgress(
                reason.clone(),
            ),
            WorkerRunnerError::Failed { status, message } => WorkerRunnerError::Failed {
                status: status.clone(),
                message: message.clone(),
            },
            WorkerRunnerError::Unsupported => WorkerRunnerError::Unsupported,
        }
    }
}

/// Whether a validation of the runner found exactly this fault, or none.
pub open spec fn is_verdict<T>(
    result: Result<T, WorkerRunnerError>,
    fault: Option<WorkerRunnerErrorView>,
) -> bool {
    match result {
        Ok(_) => fault is None,
        Err(error) => fault == Some(error@),
    }
}

/// End-to-end pipeline failures.
#[derive(Debug)]
pub enum PipelineError {
    AlreadyRunning,
    Cancelled,
    TargetTooSmall { image_size: u64, target_size: u64 },
    Download(DownloadError),
    Preparation(FlashError),
    Control(PipelineControlError),
    Serialization(String),
    Io(String),
    Runner(WorkerRunnerError),
    WorkerFailed(String),
    MissingTerminalEvent,
}

/// What a [`PipelineError`] holds.
pub enum PipelineErrorView {
    AlreadyRunning,
    Cancelled,
    TargetTooSmall { image_size: u64, target_size: u64 },
    Download(DownloadErrorView),
    Preparation(FlashError),
    Control(PipelineControlErrorView),
    Serialization(Seq<char>),
    Io(Seq<char>),
    Runner(WorkerRunnerErrorView),
    WorkerFailed(Seq<char>),
    MissingTerminalEvent,
}

impl View for PipelineError {
    type V = PipelineErrorView;

    open spec fn view(&self) -> PipelineErrorView {
        match *self {
            PipelineError::AlreadyRunning => PipelineErrorView::AlreadyRunning,
            PipelineError::Cancelled => PipelineErrorView::Cancelled,
            PipelineError::TargetTooSmall { image_size, target_size } => {
                PipelineErrorView::TargetTooSmall { image_size, target_size }
            },
            PipelineError::Download(error) => PipelineErrorView::Download(error@),
            PipelineError::Preparation(error) => PipelineErrorView::Preparation(error),
            PipelineError::Control(error) => PipelineErrorView::Control(error@),
            PipelineError::Serialization(cause) => PipelineErrorView::Serialization(cause@),
            PipelineError::Io(cause) => PipelineErrorView::Io(cause@),
            PipelineError::Runner(error) => PipelineErrorView::Runner(error@),
            PipelineError::WorkerFailed(message) => PipelineErrorView::WorkerFailed(message@),
            PipelineError::MissingTerminalEvent => PipelineErrorView::MissingTerminalEvent,
        }
    }
}

impl PipelineErrorView {
    /// The sentence shown for the error.
    pub open spec fn text(self) -> Seq<char> {
        match self {
            PipelineErrorView::AlreadyRunning => {
                "this pipeline control is already running an operation"@
            },
            PipelineErrorView::Cancelled => "the image pipeline was cancelled"@,
            PipelineErrorView::TargetTooSmall { image_size, target_size } => {
                "the prepared image requires "@ + text::decimal(image_size as nat)
                    + " bytes but the target has "@ + text::decimal(target_size as nat)
            },
            PipelineErrorView::Download(error) => error.text(),
            PipelineErrorView::Preparation(error) => error.text(),
            PipelineErrorView::Control(error) => error.text(),
            PipelineErrorView::Serialization(cause) => {
                "could not serialize the isolated writer job: "@ + cause
            },
            PipelineErrorView::Io(cause) => "pipeline file operation failed: "@ + cause,
            PipelineErrorView::Runner(error) => error.text(),
            PipelineErrorView::WorkerFailed(message) => "the isolated writer failed: "@ + message,
            PipelineErrorView::MissingTerminalEvent => {
                "the isolated writer exited without a terminal progress event"@
            },
        }
    }
}

impl PipelineError {
    /// The sentence shown for the error.
    pub fn message(&self) -> (result: String)
        ensures
            result@ == self@.text(),
    {
        match self {
            PipelineError::AlreadyRunning => {
                "this pipeline control is already running an operation".to_owned()
            },
            PipelineError::Cancelled => "the image pipeline was cancelled".to_owned(),
            PipelineError::TargetTooSmall { image_size, target_size } => {
                let image = decimal_text(*image_size);
                let target = decimal_text(*target_size);
                let start = join3(
                    "the prepared image requires ",
                    image.as_str(),
                    " bytes but the target has ",
                );
                join2(start.as_str(), target.as_str())
            },
            PipelineError::Download(error) => error.message(),
            PipelineError::Preparation(error) => error.message(),
            PipelineError::Control(error) => error.message(),
            PipelineError::Serialization(cause) => join2(
                "could not serialize the isolated writer job: ",
                cause.as_str(),
            ),
            PipelineError::Io(cause) => join2("pipeline file operation failed: ", cause.as_str()),
            PipelineError::Runner(error) => error.message(),
            PipelineError::WorkerFailed(message) => join2(
                "the isolated writer failed: ",
                message.as_str(),
            ),
            PipelineError::MissingTerminalEvent => {
                "the isolated writer exited without a terminal progress event".to_owned()
            },
        }
    }
}

/// What a failed download makes of the pipeline.
pub open spec fn download_fault(error: DownloadErrorView) -> PipelineErrorView {
    if error is Cancelled {
        PipelineErrorView::Cancelled
    } else {
        PipelineErrorView::Download(error)
    }
}

/// What a failed preparation makes of the pipeline.
pub open spec fn preparation_fault(error: FlashError) -> PipelineErrorView {
    if error is Cancelled {
        PipelineErrorView::Cancelled
    } else {
        PipelineErrorView::Preparation(error)
    }
}

/// What a failed download makes of the pipeline.
pub fn map_download_error(error: DownloadError) -> (result: PipelineError)
    ensures
        result@ == download_fault(error@),
{
    match error {
        DownloadError::Cancelled => PipelineError::Cancelled,
        other => PipelineError::Download(other),
    }
}

/// What a failed preparation makes of the pipeline.
pub fn map_preparation_error(error: FlashError) -> (result: PipelineError)
    ensures
        result@ == preparation_fault(error),
{
    match error {
        FlashError::Cancelled => PipelineError::Cancelled,
        other => PipelineError::Preparation(other),
    }
}

/// Why an image is not written to a target of this capacity.
pub open spec fn capacity_fault(image_size: u64, target_size: u64) -> Option<PipelineErrorView> {
    if image_size > target_size {
        Some(PipelineErrorView::TargetTooSmall { image_size, target_size })
    } else {
        None
    }
}

/// Check that a prepared image fits the selected target.
pub fn ensure_target_capacity(prepared: &PreparedImage, drive: &WorkerDrive) -> (result: Result<
    (),
    PipelineError,
>)
    ensures
        match result {
            Ok(_) => capacity_fault(prepared.bytes, drive.capacity) is None,
            Err(error) => capacity_fault(prepared.bytes, drive.capacity) == Some(error@),
        },
{
    if prepared.bytes > drive.capacity {
        Err(
            PipelineError::TargetTooSmall {
                image_size: prepared.bytes,
                target_size: drive.capacity,
            },
        )
    } else {
        Ok(())
    }
}

/// Why a progress event of the worker is refused.
pub open spec fn progress_fault(progress: WorkerProgress) -> Option<WorkerRunnerErrorView> {
    if progress.schema_version == WORKER_PROGRESS_SCHEMA_VERSION {
        None
    } else {
        Some(
            WorkerRunnerErrorView::InvalidProgress(
                "unsupported worker progress schema "@ + text::decimal(
                    progress.schema_version as nat,
                ),
            ),
        )
    }
}

/// Check the schema of a progress event.
pub fn validate_progress(progress: &WorkerProgress) -> (result: Result<(), WorkerRunnerError>)
    ensures
        is_verdict(result, progress_fault(*progress)),
{
    if progress.schema_version == WORKER_PROGRESS_SCHEMA_VERSION {
        Ok(())
    } else {
        let version = decimal_text(progress.schema_version as u64);
        Err(
            WorkerRunnerError::InvalidProgress(
                join2("unsupported worker progress schema ", version.as_str()),
            ),
        )
    }
}

// ---------------------------------------------------------------------------------------------
// Control
// ---------------------------------------------------------------------------------------------

/// The files by which a running worker is told what to do.
#[derive(Clone, Debug, PartialEq, Eq)]
pub struct MarkerPaths {
    pub cancel: String,
    pub skip_verification: String,
}

/// What [`MarkerPaths`] hold.
pub struct MarkerPathsView {
    pub cancel: Seq<char>,
    pub skip_verification: Seq<char>,
}

impl View for MarkerPaths {
    type V = MarkerPathsView;

    open spec fn view(&self) -> MarkerPathsView {
        MarkerPathsView { cancel: self.cancel@, skip_verification: self.skip_verification@ }
    }
}

/// Which markers are to be created.
pub struct DueMarkersView {
    pub cancel: Option<Seq<char>>,
    pub skip_verification: Option<Seq<char>>,
}

/// The state of a [`PipelineControl`].
pub struct ControlState {
    pub active: bool,
    pub cancelled: bool,
    pub skip_verification: bool,
    pub markers: Option<MarkerPathsView>,
}

impl ControlState {
    /// A control that was never used.
    pub open spec fn unused() -> ControlState {
        ControlState { active: false, cancelled: false, skip_verification: false, markers: None }
    }

    /// Cancellation is requested: the state, and the marker to create.
    pub open spec fn cancel(self) -> (ControlState, Option<Seq<char>>) {
        (
            ControlState { cancelled: true, ..self },
            match self.markers {
                Some(markers) => Some(markers.cancel),
                None => None,
            },
        )
    }

    /// Skipping the verification is requested: the state, and the marker to create.
    pub open spec fn skip(self) -> (ControlState, Option<Seq<char>>) {
        (
            ControlState { skip_verification: true, ..self },
            match self.markers {
                Some(markers) => Some(markers.skip_verification),
                None => None,
            },
        )
    }

    /// A worker is about to run: the state, and the markers to create.
    pub open spec fn register(self, markers: MarkerPathsView) -> (ControlState, DueMarkersView) {
        (
            ControlState { markers: Some(markers), ..self },
            DueMarkersView {
                cancel: if self.cancelled {
                    Some(markers.cancel)
                } else {
                    None
                },
                skip_verification: if self.skip_verification {
                    Some(markers.skip_verification)
                } else {
                    None
                },
            },
        )
    }

    /// An operation is to begin: the state, and whether it may.
    pub open spec fn begin(self) -> (ControlState, bool) {
        (ControlState { active: true, ..self }, !self.active)
    }

    /// The operation is over.
    pub open spec fn end(self) -> ControlState {
        ControlState { active: false, markers: None, ..self }
    }
}

/// One-operation control for cancellation and verification skipping.
///
/// A request is remembered, and reaches the worker by a marker file: at once where a worker is
/// running, and otherwise as soon as one is about to be. Whoever uses the control of an operation
/// uses this one value, so it has no copies.
#[derive(Debug, PartialEq, Eq)]
pub struct PipelineControl {
    active: bool,
    cancelled: bool,
    skip_verification: bool,
    markers: Option<MarkerPaths>,
}

impl View for PipelineControl {
    type V = ControlState;

    closed spec fn view(&self) -> ControlState {
        ControlState {
            active: self.active,
            cancelled: self.cancelled,
            skip_verification: self.skip_verification,
            markers: match self.markers {
                Some(markers) => Some(markers@),
                None => None,
            },
        }
    }
}

impl Default for PipelineControl {
    fn default() -> (control: PipelineControl)
        ensures
            control@ == ControlState::unused(),
    {
        PipelineControl { active: false, cancelled: false, skip_verification: false, markers: None }
    }
}

/// Which markers are to be created.
#[derive(Clone, Debug, PartialEq, Eq)]
pub struct DueMarkers {
    pub cancel: Option<String>,
    pub skip_verification: Option<String>,
}

impl View for DueMarkers {
    type V = DueMarkersView;

    open spec fn view(&self) -> DueMarkersView {
        DueMarkersView {
            cancel: text::optional_text(self.cancel),
            skip_verification: text::optional_text(self.skip_verification),
        }
    }
}

impl PipelineControl {
    /// Request cancellation. Where a worker is running, the marker to create for it.
    pub fn cancel(&mut self) -> (marker: Option<String>)
        ensures
            (final(self)@, text::optional_text(marker)) == old(self)@.cancel(),
    {
        self.cancelled = true;
        match &self.markers {
            Some(markers) => Some(markers.cancel.clone()),
            None => None,
        }
    }

    /// Skip read-back verification once the worker reaches that phase. Where a worker is running,
    /// the marker to create for it.
    pub fn skip_verification(&mut self) -> (marker: Option<String>)
        ensures
            (final(self)@, text::optional_text(marker)) == old(self)@.skip(),
    {
        self.skip_verification = true;
        match &self.markers {
            Some(markers) => Some(markers.skip_verification.clone()),
            None => None,
        }
    }

    /// Whether cancellation has been requested for this one-shot control.
    pub fn is_cancelled(&self) -> (result: bool)
        ensures
            result == self@.cancelled,
    {
        self.cancelled
    }

    /// Whether verification skipping has been requested for this one-shot control.
    pub fn is_verification_skipped(&self) -> (result: bool)
        ensures
            result == self@.skip_verification,
    {
        self.skip_verification
    }

    /// Begin an operation. A control runs one at a time.
    pub fn begin(&mut self) -> (result: Result<(), PipelineError>)
        ensures
            (final(self)@, result is Ok) == old(self)@.begin(),
            result matches Err(error) ==> error@ == PipelineErrorView::AlreadyRunning,
    {
        if self.active {
            return Err(PipelineError::AlreadyRunning);
        }
        self.active = true;
        Ok(())
    }

    /// Register the markers of a worker that is about to run. Those of requests that were made
    /// before are to be created now.
    pub fn register_markers(&mut self, cancel: &str, skip_verification: &str) -> (due: DueMarkers)
        ensures
            (final(self)@, due@) == old(self)@.register(
                MarkerPathsView { cancel: cancel@, skip_verification: skip_verification@ },
            ),
    {
        self.markers = Some(
            MarkerPaths {
                cancel: cancel.to_owned(),
                skip_verification: skip_verification.to_owned(),
            },
        );
        DueMarkers {
            cancel: if self.cancelled {
                Some(cancel.to_owned())
            } else {
                None
            },
            skip_verification: if self.skip_verification {
                Some(skip_verification.to_owned())
            } else {
                None
            },
        }
    }

    /// The operation is over.
    pub fn end(&mut self)
        ensures
            final(self)@ == old(self)@.end(),
    {
        self.markers = None;
        self.active = false;
    }
}

/// A request reaches the worker whenever it is made: one that comes before the markers are
/// registered has its marker created then, and one that comes after has it created at once.
pub proof fn request_reaches_the_worker(control: ControlState, markers: MarkerPathsView)
    ensures
        control.cancel().0.register(markers).1.cancel == Some(markers.cancel),
        control.register(markers).0.cancel().1 == Some(markers.cancel),
        control.skip().0.register(markers).1.skip_verification == Some(
            markers.skip_verification,
        ),
        control.register(markers).0.skip().1 == Some(markers.skip_verification),
{
}

/// A call on a control that changes it.
pub enum ControlCall {
    Cancel,
    SkipVerification,
    Begin,
    RegisterMarkers(MarkerPathsView),
    End,
}

/// A control after some calls on it, by anyone who shares it, in the order in which they came.
pub open spec fn control_after(calls: Seq<ControlCall>) -> ControlState
    decreases calls.len(),
{
    if calls.len() == 0 {
        ControlState::unused()
    } else {
        let before = control_after(calls.drop_last());
        match calls.last() {
            ControlCall::Cancel => before.cancel().0,
            ControlCall::SkipVerification => before.skip().0,
            ControlCall::Begin => before.begin().0,
            ControlCall::RegisterMarkers(markers) => before.register(markers).0,
            ControlCall::End => before.end(),
        }
    }
}

/// Whether an operation has begun and not ended since.
pub open spec fn run_is_in_force(calls: Seq<ControlCall>) -> bool {
    exists|i: int|
        0 <= i < calls.len() && #[trigger] calls[i] is Begin && no_end_from(calls, i + 1)
}

/// Whether no operation ends from this call on.
pub open spec fn no_end_from(calls: Seq<ControlCall>, from: int) -> bool {
    forall|j: int| from <= j < calls.len() ==> !(#[trigger] calls[j] is End)
}

/// A control is cancelled exactly where cancellation was requested of it at some time, and it skips
/// the verification exactly where that was requested. Neither the end of an operation nor any other
/// call sets or resets a request.
pub proof fn requests_are_exactly_those_made(calls: Seq<ControlCall>)
    ensures
        control_after(calls).cancelled <==> exists|i: int|
            0 <= i < calls.len() && #[trigger] calls[i] is Cancel,
        control_after(calls).skip_verification <==> exists|i: int|
            0 <= i < calls.len() && #[trigger] calls[i] is SkipVerification,
    decreases calls.len(),
{
    if calls.len() > 0 {
        let front = calls.drop_last();
        requests_are_exactly_those_made(front);
        let last = calls.len() - 1;
        assert(calls[last] == calls.last());
        assert(forall|i: int| 0 <= i < last ==> #[trigger] front[i] == calls[i]);
        if control_after(front).cancelled {
            let i = choose|i: int| 0 <= i < front.len() && #[trigger] front[i] is Cancel;
            assert(calls[i] is Cancel);
        }
        if control_after(front).skip_verification {
            let i = choose|i: int|
                0 <= i < front.len() && #[trigger] front[i] is SkipVerification;
            assert(calls[i] is SkipVerification);
        }
        if exists|i: int| 0 <= i < calls.len() && #[trigger] calls[i] is Cancel {
            let i = choose|i: int| 0 <= i < calls.len() && #[trigger] calls[i] is Cancel;
            if i < last {
                assert(front[i] is Cancel);
            }
        }
        if exists|i: int| 0 <= i < calls.len() && #[trigger] calls[i] is SkipVerification {
            let i = choose|i: int|
                0 <= i < calls.len() && #[trigger] calls[i] is SkipVerification;
            if i < last {
                assert(front[i] is SkipVerification);
            }
        }
    }
}

proof fn control_is_active_while_a_run_is_in_force(calls: Seq<ControlCall>)
    ensures
        control_after(calls).active == run_is_in_force(calls),
    decreases calls.len(),
{
    if calls.len() > 0 {
        let front = calls.drop_last();
        control_is_active_while_a_run_is_in_force(front);
        let last = calls.len() - 1;
        assert(calls[last] == calls.last());
        assert(forall|i: int| 0 <= i < last ==> #[trigger] front[i] == calls[i]);
        if run_is_in_force(front) && !(calls.last() is End) {
            let i = choose|i: int|
                0 <= i < front.len() && #[trigger] front[i] is Begin && no_end_from(front, i + 1);
            assert forall|j: int| i + 1 <= j < calls.len() implies !(#[trigger] calls[j]
                is End) by {
                if j < last {
                    assert(front[j] == calls[j]);
                }
            }
            assert(calls[i] is Begin && no_end_from(calls, i + 1));
        }
        if calls.last() is Begin {
            assert(no_end_from(calls, last + 1));
            assert(run_is_in_force(calls));
        }
        if run_is_in_force(calls) {
            let i = choose|i: int|
                0 <= i < calls.len() && #[trigger] calls[i] is Begin && no_end_from(calls, i + 1);
            if i < last {
                assert(!(calls[last] is End));
                assert forall|j: int| i + 1 <= j < front.len() implies !(#[trigger] front[j]
                    is End) by {
                    assert(calls[j] == front[j]);
                }
                assert(front[i] is Begin && no_end_from(front, i + 1));
            }
        }
    }
}

/// A control runs one operation at a time: a further one may begin exactly where none is in force.
/// Beginning changes no request, and a refused one changes nothing at all, so that the operation in
/// force stays so. Once that has ended, the next one may begin, and no markers are registered.
pub proof fn one_operation_runs_at_a_time(calls: Seq<ControlCall>)
    ensures
        control_after(calls).begin().1 == !run_is_in_force(calls),
        control_after(calls).begin().0.cancelled == control_after(calls).cancelled,
        control_after(calls).begin().0.skip_verification == control_after(
            calls,
        ).skip_verification,
        run_is_in_force(calls) ==> control_after(calls).begin().0 == control_after(calls),
        control_after(calls.push(ControlCall::End)).begin().1,
        control_after(calls.push(ControlCall::End)).markers is None,
{
    control_is_active_while_a_run_is_in_force(calls);
    assert(calls.push(ControlCall::End).drop_last() =~= calls);
}

// ---------------------------------------------------------------------------------------------
// The session
// ---------------------------------------------------------------------------------------------

/// The path of a member of a directory, as the platform writes it.
pub open spec fn member_on(platform: Platform, directory: Seq<char>, name: Seq<char>) -> Seq<char> {
    match platform {
        Platform::Windows => windows_paths::member_text(directory, name),
        _ => paths::member_text(directory, name),
    }
}

/// The path of a member of a directory, as the platform writes it.
pub fn member_of(platform: Platform, directory: &str, name: &str) -> (path: String)
    ensures
        path@ == member_on(platform, directory@, name@),
{
    match platform {
        Platform::Windows => windows_paths::member_path(directory, name),
        _ => member_path(directory, name),
    }
}

/// The files of one operation, all of them in its private directory.
#[derive(Clone, Debug, PartialEq, Eq)]
pub struct SessionFiles {
    pub archive: String,
    pub raw: String,
    pub job: String,
    pub progress: String,
    pub cancel: String,
    pub skip_verification: String,
    pub macos_target_socket: Option<String>,
}

/// What [`SessionFiles`] holds.
pub struct SessionFilesView {
    pub archive: Seq<char>,
    pub raw: Seq<char>,
    pub job: Seq<char>,
    pub progress: Seq<char>,
    pub cancel: Seq<char>,
    pub skip_verification: Seq<char>,
    pub macos_target_socket: Option<Seq<char>>,
}

impl View for SessionFiles {
    type V = SessionFilesView;

    open spec fn view(&self) -> SessionFilesView {
        SessionFilesView {
            archive: self.archive@,
            raw: self.raw@,
            job: self.job@,
            progress: self.progress@,
            cancel: self.cancel@,
            skip_verification: self.skip_verification@,
            macos_target_socket: text::optional_text(self.macos_target_socket),
        }
    }
}

/// The files of an operation in this directory.
pub open spec fn session_files(platform: Platform, directory: Seq<char>) -> SessionFilesView {
    SessionFilesView {
        archive: member_on(platform, directory, "snapdog-os.img.gz"@),
        raw: member_on(platform, directory, "snapdog-os.img"@),
        job: member_on(platform, directory, "worker-job.json"@),
        progress: member_on(platform, directory, "worker-progress.jsonl"@),
        cancel: member_on(platform, directory, "cancel"@),
        skip_verification: member_on(platform, directory, "skip-verification"@),
        macos_target_socket: if platform == Platform::MacOs {
            Some(member_on(platform, directory, "authorized-target.sock"@))
        } else {
            None
        },
    }
}

impl SessionFiles {
    /// The files of an operation in this directory.
    pub fn within(platform: Platform, directory: &str) -> (files: SessionFiles)
        ensures
            files@ == session_files(platform, directory@),
    {
        SessionFiles {
            archive: member_of(platform, directory, "snapdog-os.img.gz"),
            raw: member_of(platform, directory, "snapdog-os.img"),
            job: member_of(platform, directory, "worker-job.json"),
            progress: member_of(platform, directory, "worker-progress.jsonl"),
            cancel: member_of(platform, directory, "cancel"),
            skip_verification: member_of(platform, directory, "skip-verification"),
            macos_target_socket: if platform == Platform::MacOs {
                Some(member_of(platform, directory, "authorized-target.sock"))
            } else {
                None
            },
        }
    }
}

/// Paths supplied to a worker runner for one operation.
#[derive(Clone, Debug, PartialEq, Eq)]
pub struct WorkerLaunch {
    pub job_path: String,
    pub progress_path: String,
    pub cancel_path: String,
    pub skip_verification_path: String,
    pub target_device: String,
    pub macos_target_socket: Option<String>,
}

/// What a [`WorkerLaunch`] holds.
pub struct WorkerLaunchView {
    pub job_path: Seq<char>,
    pub progress_path: Seq<char>,
    pub cancel_path: Seq<char>,
    pub skip_verification_path: Seq<char>,
    pub target_device: Seq<char>,
    pub macos_target_socket: Option<Seq<char>>,
}

impl View for WorkerLaunch {
    type V = WorkerLaunchView;

    open spec fn view(&self) -> WorkerLaunchView {
        WorkerLaunchView {
            job_path: self.job_path@,
            progress_path: self.progress_path@,
            cancel_path: self.cancel_path@,
            skip_verification_path: self.skip_verification_path@,
            target_device: self.target_device@,
            macos_target_socket: text::optional_text(self.macos_target_socket),
        }
    }
}

/// The launch of a worker on a drive, with the files of a session.
pub open spec fn launch_of(files: SessionFilesView, device: Seq<char>) -> WorkerLaunchView {
    WorkerLaunchView {
        job_path: files.job,
        progress_path: files.progress,
        cancel_path: files.cancel,
        skip_verification_path: files.skip_verification,
        target_device: device,
        macos_target_socket: files.macos_target_socket,
    }
}

/// The launch of a worker on a drive, with the files of a session.
pub fn worker_launch(files: &SessionFiles, device: &str) -> (launch: WorkerLaunch)
    ensures
        launch@ == launch_of(files@, device@),
{
    WorkerLaunch {
        job_path: files.job.clone(),
        progress_path: files.progress.clone(),
        cancel_path: files.cancel.clone(),
        skip_verification_path: files.skip_verification.clone(),
        target_device: device.to_owned(),
        macos_target_socket: text::copy_text(&files.macos_target_socket),
    }
}

/// Whether a job is the one for a prepared image.
pub open spec fn is_worker_job(
    job: WorkerJob,
    request: PipelineRequest,
    prepared: PreparedImageView,
    files: SessionFilesView,
) -> bool {
    &&& job.schema_version == WORKER_JOB_SCHEMA_VERSION
    &&& job.drive == request.drive
    &&& job.raw_path@ == files.raw
    &&& job.raw_size == prepared.bytes
    &&& job.verify == request.verify
    &&& job.expected_raw_sha256@ == prepared.raw_sha256
    &&& job.progress matches ProgressDestination::File { path } && path@ == files.progress
    &&& job.cancel_path matches Some(path) && path@ == files.cancel
    &&& job.skip_verification_path matches Some(path) && path@ == files.skip_verification
    &&& text::optional_text(job.macos_target_socket) == files.macos_target_socket
}

/// The job for a prepared image.
pub fn build_worker_job(
    request: &PipelineRequest,
    prepared: &PreparedImage,
    files: &SessionFiles,
) -> (job: WorkerJob)
    ensures
        is_worker_job(job, *request, prepared@, files@),
{
    WorkerJob {
        schema_version: WORKER_JOB_SCHEMA_VERSION,
        drive: request.drive.copy(),
        raw_path: files.raw.clone(),
        raw_size: prepared.bytes,
        verify: request.verify,
        expected_raw_sha256: prepared.raw_sha256.clone(),
        progress: ProgressDestination::File { path: files.progress.clone() },
        cancel_path: Some(files.cancel.clone()),
        skip_verification_path: Some(files.skip_verification.clone()),
        macos_target_socket: text::copy_text(&files.macos_target_socket),
    }
}

/// The job that is written asks the worker for what was requested: to write the prepared image, all
/// of it and with its digest, to the selected drive, and to read it back exactly where the request
/// asks for verification. It names the files of the session, of which no two are the same.
pub proof fn job_asks_for_what_was_requested(
    platform: Platform,
    directory: Seq<char>,
    job: WorkerJob,
    request: PipelineRequest,
    prepared: PreparedImageView,
)
    requires
        is_worker_job(job, request, prepared, session_files(platform, directory)),
    ensures
        job.verify == request.verify,
        job.raw_size == prepared.bytes,
        job.expected_raw_sha256@ == prepared.raw_sha256,
        job.drive.id@ == request.drive.id@,
        job.drive.device@ == request.drive.device@,
        job.drive.capacity == request.drive.capacity,
        job.schema_version == 1,
        job.raw_path@ == member_on(platform, directory, "snapdog-os.img"@),
        job.progress matches ProgressDestination::File { path } && path@ == member_on(
            platform,
            directory,
            "worker-progress.jsonl"@,
        ),
        job.cancel_path matches Some(path) && path@ == member_on(platform, directory, "cancel"@),
        job.skip_verification_path matches Some(path) && path@ == member_on(
            platform,
            directory,
            "skip-verification"@,
        ),
        job.macos_target_socket is Some <==> platform == Platform::MacOs,
        job.macos_target_socket matches Some(path) ==> path@ == member_on(
            platform,
            directory,
            "authorized-target.sock"@,
        ),
{
}

/// The worker is launched with the files that its job names: it reads this job, and what it reports,
/// and what cancels it or skips its verification, is where the job says.
pub proof fn launch_names_the_files_of_the_job(
    platform: Platform,
    directory: Seq<char>,
    device: Seq<char>,
    job: WorkerJob,
    request: PipelineRequest,
    prepared: PreparedImageView,
)
    requires
        is_worker_job(job, request, prepared, session_files(platform, directory)),
    ensures
        ({
            let launch = launch_of(session_files(platform, directory), device);
            &&& launch.job_path == member_on(platform, directory, "worker-job.json"@)
            &&& job.progress matches ProgressDestination::File { path }
            &&& path@ == launch.progress_path
            &&& job.cancel_path matches Some(cancel)
            &&& cancel@ == launch.cancel_path
            &&& job.skip_verification_path matches Some(skip)
            &&& skip@ == launch.skip_verification_path
            &&& launch.target_device == device
            &&& launch.macos_target_socket == text::optional_text(job.macos_target_socket)
        }),
{
}

/// A failed download or preparation is reported as such with its own error, and as a cancellation
/// exactly where it was cancelled.
pub proof fn failures_keep_their_cause(download: DownloadErrorView, preparation: FlashError)
    ensures
        download_fault(download) is Cancelled <==> download is Cancelled,
        !(download is Cancelled) ==> download_fault(download) == PipelineErrorView::Download(
            download,
        ),
        preparation_fault(preparation) is Cancelled <==> preparation is Cancelled,
        !(preparation is Cancelled) ==> preparation_fault(preparation)
            == PipelineErrorView::Preparation(preparation),
{
}

/// A marker is due exactly where its request was made: one that was not is neither created when a
/// worker is about to run, nor by the other request, nor before there is a worker.
pub proof fn no_marker_without_a_request(control: ControlState, markers: MarkerPathsView)
    ensures
        control.register(markers).1.cancel is Some <==> control.cancelled,
        control.register(markers).1.skip_verification is Some <==> control.skip_verification,
        control.markers is None ==> control.cancel().1 is None && control.skip().1 is None,
        control.cancel().0.skip_verification == control.skip_verification,
        control.skip().0.cancelled == control.cancelled,
        control.cancel().0.active == control.active && control.skip().0.active == control.active,
{
}

/// A progress event is accepted exactly where it has the known schema, whatever else it says.
pub proof fn events_of_the_known_schema_are_accepted(progress: WorkerProgress)
    ensures
        progress_fault(progress) is None <==> progress.schema_version == 1,
        progress_fault(progress) matches Some(fault) ==> fault is InvalidProgress,
{
}

/// A target that is exactly as large as the image takes it, and so does every larger one. A smaller
/// one is refused, with both sizes.
pub proof fn image_goes_where_it_fits(image_size: u64, target_size: u64, larger: u64)
    ensures
        capacity_fault(image_size, image_size) is None,
        capacity_fault(image_size, target_size) is None && target_size <= larger
            ==> capacity_fault(image_size, larger) is None,
        target_size < image_size ==> capacity_fault(image_size, target_size) == Some(
            PipelineErrorView::TargetTooSmall { image_size, target_size },
        ),
{
}

} // verus!
