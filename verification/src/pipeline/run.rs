//! The course of one operation, from the download to the end of the isolated writer.

use vstd::prelude::*;
use vstd::string::*;

use crate::digest;
use crate::download;
use crate::download::{
    DownloadError, DownloadEvent, DownloadInput, DownloadReport, DownloadReportView,
    DownloadRequest,
};
use crate::flash;
use crate::flash::prepare;
use crate::flash::prepare::{PrepareInput, PreparePhase, PrepareState};
use crate::flash::{
    digest_is_accepted, AccessEvent, FlashError, PreparedImage, PreparedImageView,
};
use crate::pipeline;
use crate::pipeline::{
    build_worker_job, ensure_target_capacity, map_download_error, map_preparation_error,
    worker_launch, ControlCall, ControlState, DueMarkers, DueMarkersView, MarkerPathsView,
    PipelineControl, PipelineControlError, PipelineError, PipelineErrorView, PipelineReport,
    PipelineReportView, PipelineRequest, SessionFiles, SessionFilesView, WorkerLaunch,
    WorkerLaunchView, WorkerRunnerError,
};
use crate::text;
use crate::text::copy_text;
use crate::worker::{Platform, WorkerJob, WorkerPhase, WorkerProgress, WorkerProgressView};

verus! {

/// What an operation waits for.
#[derive(Clone, Copy, Debug, PartialEq, Eq, Structural)]
pub enum RunPhase {
    /// The private directory is to be created.
    CreatingDirectory,
    /// The image is to be downloaded.
    Downloading,
    /// The image is to be prepared.
    Preparing,
    /// The raw image is to be synchronized.
    Syncing,
    /// The progress file is to be created.
    CreatingProgress,
    /// The job file is to be written.
    WritingJob,
    /// The markers that are due are to be created.
    Registering,
    /// The worker is running.
    Running,
    /// The operation is over.
    Closed,
}

/// What an access came to.
#[derive(Debug)]
pub enum RunEvent {
    /// The access succeeded.
    Done,
    /// The access failed.
    Failed(String),
    /// The private directory was created.
    Directory(String),
    /// The image was downloaded.
    Downloaded(DownloadReport),
    /// The image could not be downloaded.
    DownloadFailed(DownloadError),
    /// The image was prepared.
    Prepared(PreparedImage),
    /// The image could not be prepared.
    PreparationFailed(FlashError),
    /// The job could not be serialized.
    EncodingFailed(String),
    /// A marker could not be created.
    ControlFailed(PipelineControlError),
    /// The worker reported progress.
    Progress(WorkerProgress),
    /// The worker has ended.
    Ended(Result<(), WorkerRunnerError>),
}

/// What to do next.
#[derive(Debug)]
pub enum RunAction {
    /// Create a private directory.
    CreateDirectory,
    /// Download the image to this path, and only where it is what is expected.
    Download {
        url: String,
        destination: String,
        expected_sha256: Option<String>,
        expected_size: Option<u64>,
    },
    /// Prepare the downloaded image, and only where it is what is expected.
    Prepare {
        archive: String,
        raw: String,
        expected_size: Option<u64>,
        expected_sha256: Option<String>,
    },
    /// Make the raw image private and synchronize it.
    SyncRaw(String),
    /// Create an empty private file.
    CreateProgress(String),
    /// Write the job to a new private file.
    WriteJob { path: String, job: WorkerJob },
    /// Create the markers that are due.
    CreateMarkers(DueMarkers),
    /// Announce that authorization is awaited, then run the worker.
    Launch(WorkerLaunch),
    /// Hand the progress on; the worker goes on running.
    Relay(WorkerProgress),
    /// Remove the private directory and hand out the report.
    Finish(PipelineReport),
    /// Remove the private directory and report the error.
    Fail(PipelineError),
}

/// What a [`RunAction`] holds.
pub enum RunActionView {
    CreateDirectory,
    Download {
        url: Seq<char>,
        destination: Seq<char>,
        expected_sha256: Option<Seq<char>>,
        expected_size: Option<u64>,
    },
    Prepare {
        archive: Seq<char>,
        raw: Seq<char>,
        expected_size: Option<u64>,
        expected_sha256: Option<Seq<char>>,
    },
    SyncRaw(Seq<char>),
    CreateProgress(Seq<char>),
    /// The job for a prepared image.
    WriteJob { path: Seq<char>, prepared: PreparedImageView },
    CreateMarkers(DueMarkersView),
    Launch(WorkerLaunchView),
    Relay(WorkerProgressView),
    Finish(PipelineReportView),
    Fail(PipelineErrorView),
}

/// The state of an operation.
pub struct RunState {
    pub platform: Platform,
    pub request: PipelineRequest,
    pub phase: RunPhase,
    pub directory: Seq<char>,
    pub downloaded: DownloadReportView,
    pub prepared: PreparedImageView,
    /// The last progress that ends the work of the worker.
    pub terminal: Option<WorkerProgressView>,
}

/// What follows on an event: the operation, its control, and the action.
pub struct RunStep {
    pub state: RunState,
    pub control: ControlState,
    pub action: RunActionView,
}

/// Whether a worker is at its end when it reports this phase.
pub open spec fn is_terminal(phase: WorkerPhase) -> bool {
    phase == WorkerPhase::Completed || phase == WorkerPhase::Cancelled || phase
        == WorkerPhase::Failed
}

/// Whether the work is known to be complete, given the last progress that ends it.
pub open spec fn work_verdict(terminal: Option<WorkerProgressView>) -> Result<
    bool,
    PipelineErrorView,
> {
    match terminal {
        Some(progress) => if progress.phase == WorkerPhase::Completed {
            match progress.verified {
                Some(verified) => Ok(verified),
                None => Err(PipelineErrorView::MissingTerminalEvent),
            }
        } else if progress.phase == WorkerPhase::Cancelled {
            Err(PipelineErrorView::Cancelled)
        } else if progress.phase == WorkerPhase::Failed {
            Err(
                PipelineErrorView::WorkerFailed(
                    match progress.message {
                        Some(message) => message,
                        None => "unknown worker failure"@,
                    },
                ),
            )
        } else {
            Err(PipelineErrorView::MissingTerminalEvent)
        },
        None => Err(PipelineErrorView::MissingTerminalEvent),
    }
}

/// Whether the work is known to be complete, given the last progress that ends it.
pub fn judge_work(terminal: &Option<WorkerProgress>) -> (result: Result<bool, PipelineError>)
    ensures
        match result {
            Ok(verified) => work_verdict(optional_view(*terminal)) == Ok::<bool, PipelineErrorView>(
                verified,
            ),
            Err(error) => work_verdict(optional_view(*terminal)) == Err::<bool, PipelineErrorView>(
                error@,
            ),
        },
{
    match terminal {
        None => Err(PipelineError::MissingTerminalEvent),
        Some(progress) => match progress.phase {
            WorkerPhase::Completed => match progress.verified {
                Some(verified) => Ok(verified),
                None => Err(PipelineError::MissingTerminalEvent),
            },
            WorkerPhase::Cancelled => Err(PipelineError::Cancelled),
            WorkerPhase::Failed => Err(
                PipelineError::WorkerFailed(
                    match &progress.message {
                        Some(message) => message.clone(),
                        None => "unknown worker failure".to_owned(),
                    },
                ),
            ),
            _ => Err(PipelineError::MissingTerminalEvent),
        },
    }
}

/// Why a prepared image is not the one that the request expects, if it is not.
pub open spec fn image_refusal(request: PipelineRequest, image: PreparedImageView) -> Option<
    FlashError,
> {
    if request.expected_raw_size matches Some(size) && size != image.bytes {
        Some(FlashError::RawSize)
    } else if !flash::digest_accepted(
        text::optional_text(request.expected_raw_sha256),
        image.raw_sha256,
    ) {
        Some(FlashError::Verification)
    } else {
        None
    }
}

/// Check that a prepared image is the one that the request expects.
pub fn accept_image(request: &PipelineRequest, image: &PreparedImage) -> (result: Result<
    (),
    FlashError,
>)
    ensures
        match result {
            Ok(_) => image_refusal(*request, image@) is None,
            Err(error) => image_refusal(*request, image@) == Some(error),
        },
{
    if let Some(expected) = request.expected_raw_size {
        if expected != image.bytes {
            return Err(FlashError::RawSize);
        }
    }
    if digest_is_accepted(&request.expected_raw_sha256, image.raw_sha256.as_str()) {
        Ok(())
    } else {
        Err(FlashError::Verification)
    }
}

/// The view of an optional progress.
pub open spec fn optional_view(progress: Option<WorkerProgress>) -> Option<WorkerProgressView> {
    match progress {
        Some(progress) => Some(progress@),
        None => None,
    }
}

impl RunState {
    /// The files of the operation.
    pub open spec fn files(self) -> SessionFilesView {
        pipeline::session_files(self.platform, self.directory)
    }

    /// Whether the event answers what the operation waits for.
    pub open spec fn expects(self, event: RunEvent) -> bool {
        match self.phase {
            RunPhase::CreatingDirectory => event is Directory || event is Failed,
            RunPhase::Downloading => event is Downloaded || event is DownloadFailed,
            RunPhase::Preparing => event is Prepared || event is PreparationFailed,
            RunPhase::Syncing | RunPhase::CreatingProgress => event is Done || event is Failed,
            RunPhase::WritingJob => event is Done || event is Failed || event is EncodingFailed,
            RunPhase::Registering => event is Done || event is ControlFailed,
            RunPhase::Running => event is Progress || event is Ended,
            RunPhase::Closed => false,
        }
    }

    /// The operation goes on in another phase.
    pub open spec fn go(self, phase: RunPhase, control: ControlState, action: RunActionView) ->
        RunStep {
        RunStep { state: RunState { phase, ..self }, control, action }
    }

    /// The operation gives up.
    pub open spec fn fail(self, control: ControlState, error: PipelineErrorView) -> RunStep {
        RunStep {
            state: RunState { phase: RunPhase::Closed, ..self },
            control: control.end(),
            action: RunActionView::Fail(error),
        }
    }

    /// The access that the operation waited for has succeeded.
    pub open spec fn done(self, control: ControlState) -> RunStep {
        let files = self.files();
        match self.phase {
            RunPhase::Syncing => self.go(
                RunPhase::CreatingProgress,
                control,
                RunActionView::CreateProgress(files.progress),
            ),
            RunPhase::CreatingProgress => self.go(
                RunPhase::WritingJob,
                control,
                RunActionView::WriteJob { path: files.job, prepared: self.prepared },
            ),
            RunPhase::WritingJob => {
                let markers = MarkerPathsView {
                    cancel: files.cancel,
                    skip_verification: files.skip_verification,
                };
                let (registered, due) = control.register(markers);
                self.go(RunPhase::Registering, registered, RunActionView::CreateMarkers(due))
            },
            _ => if control.cancelled {
                self.fail(control, PipelineErrorView::Cancelled)
            } else {
                self.go(
                    RunPhase::Running,
                    control,
                    RunActionView::Launch(
                        pipeline::launch_of(files, self.request.drive.device@),
                    ),
                )
            },
        }
    }

    /// The image has been prepared.
    pub open spec fn image(self, prepared: PreparedImageView, control: ControlState) -> RunStep {
        if control.cancelled {
            self.fail(control, PipelineErrorView::Cancelled)
        } else if let Some(error) = image_refusal(self.request, prepared) {
            self.fail(control, pipeline::preparation_fault(error))
        } else if prepared.bytes > self.request.drive.capacity {
            self.fail(
                control,
                PipelineErrorView::TargetTooSmall {
                    image_size: prepared.bytes,
                    target_size: self.request.drive.capacity,
                },
            )
        } else {
            (RunState { prepared, ..self }).go(
                RunPhase::Syncing,
                control,
                RunActionView::SyncRaw(self.files().raw),
            )
        }
    }

    /// The worker has ended.
    pub open spec fn ended(self, result: Result<(), WorkerRunnerError>, control: ControlState) ->
        RunStep {
        if control.cancelled {
            self.fail(control, PipelineErrorView::Cancelled)
        } else {
            match result {
                Err(error) => self.fail(control, PipelineErrorView::Runner(error@)),
                Ok(_) => match work_verdict(self.terminal) {
                    Err(error) => self.fail(control, error),
                    Ok(verified) => RunStep {
                        state: RunState { phase: RunPhase::Closed, ..self },
                        control: control.end(),
                        action: RunActionView::Finish(
                            PipelineReportView {
                                bytes_downloaded: self.downloaded.bytes_downloaded,
                                compressed_sha256: self.downloaded.sha256,
                                raw_size: self.prepared.bytes,
                                raw_sha256: self.prepared.raw_sha256,
                                verified,
                            },
                        ),
                    },
                },
            }
        }
    }

    /// What follows on an event.
    pub open spec fn step(self, event: RunEvent, control: ControlState) -> RunStep {
        match event {
            RunEvent::Failed(cause) => self.fail(control, PipelineErrorView::Io(cause@)),
            RunEvent::DownloadFailed(error) => self.fail(
                control,
                pipeline::download_fault(error@),
            ),
            RunEvent::PreparationFailed(error) => self.fail(
                control,
                pipeline::preparation_fault(error),
            ),
            RunEvent::EncodingFailed(cause) => self.fail(
                control,
                PipelineErrorView::Serialization(cause@),
            ),
            RunEvent::ControlFailed(error) => self.fail(
                control,
                PipelineErrorView::Control(error@),
            ),
            RunEvent::Directory(path) => {
                let opened = RunState { directory: path@, ..self };
                opened.go(
                    RunPhase::Downloading,
                    control,
                    RunActionView::Download {
                        url: self.request.image_url@,
                        destination: opened.files().archive,
                        expected_sha256: text::optional_text(
                            self.request.expected_compressed_sha256,
                        ),
                        expected_size: self.request.expected_compressed_size,
                    },
                )
            },
            RunEvent::Downloaded(report) => if control.cancelled {
                self.fail(control, PipelineErrorView::Cancelled)
            } else {
                (RunState { downloaded: report@, ..self }).go(
                    RunPhase::Preparing,
                    control,
                    RunActionView::Prepare {
                        archive: self.files().archive,
                        raw: self.files().raw,
                        expected_size: self.request.expected_raw_size,
                        expected_sha256: text::optional_text(self.request.expected_raw_sha256),
                    },
                )
            },
            RunEvent::Prepared(prepared) => self.image(prepared@, control),
            RunEvent::Progress(progress) => RunStep {
                state: RunState {
                    terminal: if is_terminal(progress.phase) {
                        Some(progress@)
                    } else {
                        self.terminal
                    },
                    ..self
                },
                control,
                action: RunActionView::Relay(progress@),
            },
            RunEvent::Ended(result) => self.ended(result, control),
            RunEvent::Done => self.done(control),
        }
    }
}

/// Whether an action is the one that a view describes, in an operation for this request whose
/// files these are.
pub open spec fn is_action(
    action: RunAction,
    view: RunActionView,
    request: PipelineRequest,
    files: SessionFilesView,
) -> bool {
    match action {
        RunAction::CreateDirectory => view == RunActionView::CreateDirectory,
        RunAction::Download { url, destination, expected_sha256, expected_size } => view
            == (RunActionView::Download {
            url: url@,
            destination: destination@,
            expected_sha256: text::optional_text(expected_sha256),
            expected_size,
        }),
        RunAction::Prepare { archive, raw, expected_size, expected_sha256 } => view
            == (RunActionView::Prepare {
            archive: archive@,
            raw: raw@,
            expected_size,
            expected_sha256: text::optional_text(expected_sha256),
        }),
        RunAction::SyncRaw(path) => view == RunActionView::SyncRaw(path@),
        RunAction::CreateProgress(path) => view == RunActionView::CreateProgress(path@),
        RunAction::WriteJob { path, job } => {
            &&& view matches RunActionView::WriteJob { path: wanted, prepared }
            &&& wanted == path@
            &&& pipeline::is_worker_job(job, request, prepared, files)
        },
        RunAction::CreateMarkers(due) => view == RunActionView::CreateMarkers(due@),
        RunAction::Launch(launch) => view == RunActionView::Launch(launch@),
        RunAction::Relay(progress) => view == RunActionView::Relay(progress@),
        RunAction::Finish(report) => view == RunActionView::Finish(report@),
        RunAction::Fail(error) => view == RunActionView::Fail(error@),
    }
}

/// One operation.
pub struct PipelineRun<'a> {
    platform: Platform,
    request: &'a PipelineRequest,
    phase: RunPhase,
    directory: String,
    downloaded: DownloadReport,
    prepared: PreparedImage,
    terminal: Option<WorkerProgress>,
}

impl<'a> View for PipelineRun<'a> {
    type V = RunState;

    closed spec fn view(&self) -> RunState {
        RunState {
            platform: self.platform,
            request: *self.request,
            phase: self.phase,
            directory: self.directory@,
            downloaded: self.downloaded@,
            prepared: self.prepared@,
            terminal: optional_view(self.terminal),
        }
    }
}

/// How an operation begins.
pub open spec fn is_run_start(state: RunState, platform: Platform, request: PipelineRequest) ->
    bool {
    &&& state.platform == platform
    &&& state.request == request
    &&& state.phase == RunPhase::CreatingDirectory
    &&& state.terminal is None
}

/// Begin the complete pipeline, unless the control already runs one or has been cancelled. The first
/// thing to do is to create a private directory.
pub fn run_pipeline<'a>(
    platform: Platform,
    request: &'a PipelineRequest,
    control: &mut PipelineControl,
) -> (result: Result<PipelineRun<'a>, PipelineError>)
    ensures
        match result {
            Ok(run) => {
                &&& !old(control)@.active && !old(control)@.cancelled
                &&& final(control)@ == (ControlState { active: true, ..old(control)@ })
                &&& is_run_start(run@, platform, *request)
            },
            Err(error) => if old(control)@.active {
                &&& error@ == PipelineErrorView::AlreadyRunning
                &&& final(control)@ == old(control)@
            } else {
                &&& old(control)@.cancelled
                &&& error@ == PipelineErrorView::Cancelled
                &&& final(control)@ == old(control)@.end()
            },
        },
{
    match control.begin() {
        Err(error) => {
            return Err(error);
        },
        Ok(()) => {},
    }
    if control.is_cancelled() {
        control.end();
        return Err(PipelineError::Cancelled);
    }
    Ok(
        PipelineRun {
            platform,
            request,
            phase: RunPhase::CreatingDirectory,
            directory: String::new(),
            downloaded: DownloadReport {
                destination: String::new(),
                bytes_downloaded: 0,
                sha256: String::new(),
            },
            prepared: PreparedImage { bytes: 0, raw_sha256: String::new() },
            terminal: None,
        },
    )
}

impl<'a> PipelineRun<'a> {
    /// The files of the operation.
    fn files(&self) -> (files: SessionFiles)
        ensures
            files@ == self@.files(),
    {
        SessionFiles::within(self.platform, self.directory.as_str())
    }

    fn fail(&mut self, control: &mut PipelineControl, error: PipelineError) -> (action: RunAction)
        ensures
            ({
                let step = old(self)@.fail(old(control)@, error@);
                &&& final(self)@ == step.state
                &&& final(control)@ == step.control
                &&& action == RunAction::Fail(error)
            }),
    {
        self.phase = RunPhase::Closed;
        control.end();
        RunAction::Fail(error)
    }

    fn done(&mut self, control: &mut PipelineControl) -> (action: RunAction)
        ensures
            ({
                let step = old(self)@.done(old(control)@);
                &&& final(self)@ == step.state
                &&& final(control)@ == step.control
                &&& is_action(action, step.action, old(self)@.request, old(self)@.files())
            }),
    {
        let files = self.files();
        match self.phase {
            RunPhase::Syncing => {
                self.phase = RunPhase::CreatingProgress;
                RunAction::CreateProgress(files.progress)
            },
            RunPhase::CreatingProgress => {
                self.phase = RunPhase::WritingJob;
                let job = build_worker_job(self.request, &self.prepared, &files);
                RunAction::WriteJob { path: files.job, job }
            },
            RunPhase::WritingJob => {
                self.phase = RunPhase::Registering;
                RunAction::CreateMarkers(
                    control.register_markers(
                        files.cancel.as_str(),
                        files.skip_verification.as_str(),
                    ),
                )
            },
            _ => {
                if control.is_cancelled() {
                    return self.fail(control, PipelineError::Cancelled);
                }
                self.phase = RunPhase::Running;
                RunAction::Launch(worker_launch(&files, self.request.drive.device.as_str()))
            },
        }
    }

    fn ended(&mut self, result: Result<(), WorkerRunnerError>, control: &mut PipelineControl) -> (
        action: RunAction)
        ensures
            ({
                let step = old(self)@.ended(result, old(control)@);
                &&& final(self)@ == step.state
                &&& final(control)@ == step.control
                &&& is_action(action, step.action, old(self)@.request, old(self)@.files())
            }),
    {
        if control.is_cancelled() {
            return self.fail(control, PipelineError::Cancelled);
        }
        match result {
            Err(error) => {
                return self.fail(control, PipelineError::Runner(error));
            },
            Ok(()) => {},
        }
        match judge_work(&self.terminal) {
            Err(error) => self.fail(control, error),
            Ok(verified) => {
                self.phase = RunPhase::Closed;
                control.end();
                RunAction::Finish(
                    PipelineReport {
                        bytes_downloaded: self.downloaded.bytes_downloaded,
                        compressed_sha256: self.downloaded.sha256.clone(),
                        raw_size: self.prepared.bytes,
                        raw_sha256: self.prepared.raw_sha256.clone(),
                        verified,
                    },
                )
            },
        }
    }

    /// What follows on an event.
    pub fn step(&mut self, event: RunEvent, control: &mut PipelineControl) -> (action: RunAction)
        requires
            old(self)@.expects(event),
        ensures
            ({
                let step = old(self)@.step(event, old(control)@);
                &&& final(self)@ == step.state
                &&& final(control)@ == step.control
                &&& is_action(action, step.action, step.state.request, step.state.files())
            }),
    {
        match event {
            RunEvent::Failed(cause) => self.fail(control, PipelineError::Io(cause)),
            RunEvent::DownloadFailed(error) => self.fail(control, map_download_error(error)),
            RunEvent::PreparationFailed(error) => self.fail(control, map_preparation_error(error)),
            RunEvent::EncodingFailed(cause) => self.fail(
                control,
                PipelineError::Serialization(cause),
            ),
            RunEvent::ControlFailed(error) => self.fail(control, PipelineError::Control(error)),
            RunEvent::Directory(path) => {
                self.directory = path;
                self.phase = RunPhase::Downloading;
                RunAction::Download {
                    url: self.request.image_url.clone(),
                    destination: self.files().archive,
                    expected_sha256: copy_text(&self.request.expected_compressed_sha256),
                    expected_size: self.request.expected_compressed_size,
                }
            },
            RunEvent::Downloaded(report) => {
                if control.is_cancelled() {
                    return self.fail(control, PipelineError::Cancelled);
                }
                self.downloaded = report;
                self.phase = RunPhase::Preparing;
                let files = self.files();
                RunAction::Prepare {
                    archive: files.archive,
                    raw: files.raw,
                    expected_size: self.request.expected_raw_size,
                    expected_sha256: copy_text(&self.request.expected_raw_sha256),
                }
            },
            RunEvent::Prepared(prepared) => {
                if control.is_cancelled() {
                    return self.fail(control, PipelineError::Cancelled);
                }
                match accept_image(self.request, &prepared) {
                    Err(error) => {
                        return self.fail(control, map_preparation_error(error));
                    },
                    Ok(()) => {},
                }
                match ensure_target_capacity(&prepared, &self.request.drive) {
                    Err(error) => {
                        return self.fail(control, error);
                    },
                    Ok(()) => {},
                }
                self.prepared = prepared;
                self.phase = RunPhase::Syncing;
                RunAction::SyncRaw(self.files().raw)
            },
            RunEvent::Progress(progress) => {
                if matches!(
                    progress.phase,
                    WorkerPhase::Completed | WorkerPhase::Cancelled | WorkerPhase::Failed
                ) {
                    self.terminal = Some(progress.copy());
                }
                RunAction::Relay(progress)
            },
            RunEvent::Ended(result) => self.ended(result, control),
            RunEvent::Done => self.done(control),
        }
    }
}

// ---------------------------------------------------------------------------------------------
// Whole operations
// ---------------------------------------------------------------------------------------------

/// An event, and the control as it was then. Between two events anyone may use the control.
pub struct RunInput {
    pub event: RunEvent,
    pub control: ControlState,
}

/// The state after some events.
pub open spec fn run_after(start: RunState, inputs: Seq<RunInput>) -> RunState
    decreases inputs.len(),
{
    if inputs.len() == 0 {
        start
    } else {
        run_after(start, inputs.drop_last()).step(inputs.last().event, inputs.last().control).state
    }
}

/// Whether each event answers what the operation waited for.
pub open spec fn run_accepts(start: RunState, inputs: Seq<RunInput>) -> bool
    decreases inputs.len(),
{
    inputs.len() == 0 || (run_accepts(start, inputs.drop_last()) && run_after(
        start,
        inputs.drop_last(),
    ).expects(inputs.last().event))
}

/// What follows on the event with this number.
pub open spec fn run_step_at(start: RunState, inputs: Seq<RunInput>, index: int) -> RunStep {
    run_after(start, inputs.take(index)).step(inputs[index].event, inputs[index].control)
}

/// Whether this image was prepared.
pub open spec fn was_prepared(inputs: Seq<RunInput>, image: PreparedImageView) -> bool {
    exists|i: int|
        0 <= i < inputs.len() && (#[trigger] inputs[i].event matches RunEvent::Prepared(prepared)
            && prepared@ == image)
}

/// Whether this image was downloaded.
pub open spec fn was_downloaded(inputs: Seq<RunInput>, report: DownloadReportView) -> bool {
    exists|i: int|
        0 <= i < inputs.len() && (#[trigger] inputs[i].event matches RunEvent::Downloaded(
            downloaded,
        ) && downloaded@ == report)
}

/// Whether the job for this image was to be written.
pub open spec fn job_was_written(
    start: RunState,
    inputs: Seq<RunInput>,
    path: Seq<char>,
    image: PreparedImageView,
) -> bool {
    exists|i: int|
        0 <= i < inputs.len() && #[trigger] run_step_at(start, inputs, i).action
            == (RunActionView::WriteJob { path, prepared: image })
}

/// The last progress among some events that ends the work of the worker.
pub open spec fn last_terminal(inputs: Seq<RunInput>) -> Option<WorkerProgressView>
    decreases inputs.len(),
{
    if inputs.len() == 0 {
        None
    } else {
        match inputs.last().event {
            RunEvent::Progress(progress) => if is_terminal(progress.phase) {
                Some(progress@)
            } else {
                last_terminal(inputs.drop_last())
            },
            _ => last_terminal(inputs.drop_last()),
        }
    }
}

/// Whether an image is prepared in this phase.
spec fn holds_image(phase: RunPhase) -> bool {
    phase == RunPhase::Syncing || phase == RunPhase::CreatingProgress || holds_job(phase)
}

/// Whether the job is about to be written or was written in this phase.
spec fn holds_job(phase: RunPhase) -> bool {
    phase == RunPhase::WritingJob || phase == RunPhase::Registering || phase == RunPhase::Running
}

/// What holds of an operation at any time.
spec fn run_keeps(start: RunState, inputs: Seq<RunInput>) -> bool {
    let state = run_after(start, inputs);
    &&& state.platform == start.platform
    &&& state.request == start.request
    &&& state.terminal == last_terminal(inputs)
    &&& holds_image(state.phase) || state.phase == RunPhase::Preparing ==> was_downloaded(
        inputs,
        state.downloaded,
    )
    &&& holds_image(state.phase) ==> was_prepared(inputs, state.prepared) && image_refusal(
        start.request,
        state.prepared,
    ) is None && state.prepared.bytes <= start.request.drive.capacity
    &&& holds_job(state.phase) ==> job_was_written(
        start,
        inputs,
        state.files().job,
        state.prepared,
    )
}

proof fn earlier_events_stay(start: RunState, inputs: Seq<RunInput>)
    requires
        inputs.len() > 0,
    ensures
        forall|image: PreparedImageView|
            was_prepared(inputs.drop_last(), image) ==> #[trigger] was_prepared(inputs, image),
        forall|report: DownloadReportView|
            was_downloaded(inputs.drop_last(), report) ==> #[trigger] was_downloaded(
                inputs,
                report,
            ),
        forall|path: Seq<char>, image: PreparedImageView|
            job_was_written(start, inputs.drop_last(), path, image)
                ==> #[trigger] job_was_written(start, inputs, path, image),
{
    let before = inputs.drop_last();
    assert forall|image: PreparedImageView| was_prepared(
        before,
        image,
    ) implies #[trigger] was_prepared(inputs, image) by {
        let i = choose|i: int|
            0 <= i < before.len() && (#[trigger] before[i].event matches RunEvent::Prepared(
                prepared,
            ) && prepared@ == image);
        assert(inputs[i].event == before[i].event);
    }
    assert forall|report: DownloadReportView| was_downloaded(
        before,
        report,
    ) implies #[trigger] was_downloaded(inputs, report) by {
        let i = choose|i: int|
            0 <= i < before.len() && (#[trigger] before[i].event matches RunEvent::Downloaded(
                downloaded,
            ) && downloaded@ == report);
        assert(inputs[i].event == before[i].event);
    }
    assert forall|path: Seq<char>, image: PreparedImageView| job_was_written(
        start,
        before,
        path,
        image,
    ) implies #[trigger] job_was_written(start, inputs, path, image) by {
        let i = choose|i: int|
            0 <= i < before.len() && #[trigger] run_step_at(start, before, i).action
                == (RunActionView::WriteJob { path, prepared: image });
        assert(before.take(i) =~= inputs.take(i));
        assert(run_step_at(start, inputs, i) == run_step_at(start, before, i));
    }
}

proof fn run_is_kept(start: RunState, inputs: Seq<RunInput>)
    requires
        start.phase == RunPhase::CreatingDirectory,
        start.terminal is None,
        run_accepts(start, inputs),
    ensures
        run_keeps(start, inputs),
    decreases inputs.len(),
{
    if inputs.len() > 0 {
        let before = inputs.drop_last();
        run_is_kept(start, before);
        earlier_events_stay(start, inputs);
        let last = inputs.len() - 1;
        assert(inputs.take(last) =~= before);
        assert(inputs[last] == inputs.last());
        let state = run_after(start, before);
        let step = run_step_at(start, inputs, last);
        assert(run_after(start, inputs) == step.state);
        match inputs.last().event {
            RunEvent::Prepared(prepared) => {
                if holds_image(step.state.phase) {
                    assert(step.state.prepared == prepared@);
                    assert(was_prepared(inputs, prepared@));
                }
            },
            RunEvent::Downloaded(report) => {
                if step.state.phase == RunPhase::Preparing {
                    assert(was_downloaded(inputs, report@));
                }
            },
            RunEvent::Done => {
                if state.phase == RunPhase::CreatingProgress {
                    assert(run_step_at(start, inputs, last).action == (RunActionView::WriteJob {
                        path: state.files().job,
                        prepared: state.prepared,
                    }));
                    assert(job_was_written(start, inputs, state.files().job, state.prepared));
                }
            },
            _ => {},
        }
    }
}

/// Whether a prepared image has the size and the digest that the request expects of it, and fits
/// the selected target.
pub open spec fn is_expected_image(request: PipelineRequest, image: PreparedImageView) -> bool {
    &&& request.expected_raw_size matches Some(size) ==> image.bytes == size
    &&& flash::digest_accepted(text::optional_text(request.expected_raw_sha256), image.raw_sha256)
    &&& image.bytes <= request.drive.capacity
}

/// The worker is launched only after an archive was downloaded, and only for an image that was then
/// prepared, is what the request expects, and fits the selected target; with a job file for that
/// image, and never once the user has cancelled.
pub proof fn worker_is_launched_only_for_a_prepared_image_that_fits(
    start: RunState,
    inputs: Seq<RunInput>,
    event: RunEvent,
    control: ControlState,
)
    requires
        start.phase == RunPhase::CreatingDirectory,
        start.terminal is None,
        run_accepts(start, inputs),
        run_after(start, inputs).expects(event),
        run_after(start, inputs).step(event, control).action is Launch,
    ensures
        !control.cancelled,
        exists|archive: DownloadReportView| #[trigger] was_downloaded(inputs, archive),
        exists|image: PreparedImageView|
            #![trigger was_prepared(inputs, image)]
            was_prepared(inputs, image) && is_expected_image(start.request, image)
                && job_was_written(start, inputs, run_after(start, inputs).files().job, image),
        run_after(start, inputs).step(event, control).action == RunActionView::Launch(
            pipeline::launch_of(run_after(start, inputs).files(), start.request.drive.device@),
        ),
{
    run_is_kept(start, inputs);
    let state = run_after(start, inputs);
    assert(was_downloaded(inputs, state.downloaded));
    assert(was_prepared(inputs, state.prepared));
}

/// A job for an image that the request expects makes the worker expect the same: the size and the
/// digest that it holds are those of the request, and the target is the selected one.
pub proof fn job_expects_the_requested_image(
    job: WorkerJob,
    request: PipelineRequest,
    image: PreparedImageView,
    files: SessionFilesView,
)
    requires
        pipeline::is_worker_job(job, request, image, files),
        is_expected_image(request, image),
    ensures
        request.expected_raw_size matches Some(size) ==> job.raw_size == size,
        flash::digest_accepted(
            text::optional_text(request.expected_raw_sha256),
            job.expected_raw_sha256@,
        ),
        job.drive@ == request.drive@,
        job.raw_size <= job.drive.capacity,
{
}

/// What is downloaded and prepared is what the request names: the download is asked for with its
/// address and with the size and the digest that it expects of the archive, and the preparation of
/// that archive with those that it expects of the image.
pub proof fn work_is_asked_for_as_requested(
    start: RunState,
    inputs: Seq<RunInput>,
    event: RunEvent,
    control: ControlState,
)
    requires
        start.phase == RunPhase::CreatingDirectory,
        start.terminal is None,
        run_accepts(start, inputs),
        run_after(start, inputs).expects(event),
    ensures
        ({
            let step = run_after(start, inputs).step(event, control);
            let request = start.request;
            &&& step.action is Download ==> step.action == (RunActionView::Download {
                url: request.image_url@,
                destination: step.state.files().archive,
                expected_sha256: text::optional_text(request.expected_compressed_sha256),
                expected_size: request.expected_compressed_size,
            })
            &&& step.action is Prepare ==> step.action == (RunActionView::Prepare {
                archive: step.state.files().archive,
                raw: step.state.files().raw,
                expected_size: request.expected_raw_size,
                expected_sha256: text::optional_text(request.expected_raw_sha256),
            })
        }),
{
    run_is_kept(start, inputs);
}

/// Whether a worker was launched in this phase.
spec fn is_launched(phase: RunPhase) -> bool {
    phase == RunPhase::Running || phase == RunPhase::Closed
}

proof fn launched_run_stays_launched(
    start: RunState,
    inputs: Seq<RunInput>,
    earlier: int,
    later: int,
)
    requires
        run_accepts(start, inputs),
        0 <= earlier <= later <= inputs.len(),
        is_launched(run_after(start, inputs.take(earlier)).phase),
    ensures
        is_launched(run_after(start, inputs.take(later)).phase),
    decreases inputs.len(), later,
{
    if later < inputs.len() {
        assert(inputs.drop_last().take(later) =~= inputs.take(later));
        assert(inputs.drop_last().take(earlier) =~= inputs.take(earlier));
        launched_run_stays_launched(start, inputs.drop_last(), earlier, later);
    } else if earlier < later {
        assert(inputs.take(later) =~= inputs);
        assert(inputs.drop_last().take(earlier) =~= inputs.take(earlier));
        launched_run_stays_launched(start, inputs.drop_last(), earlier, later - 1);
        assert(inputs.drop_last().take(later - 1) =~= inputs.drop_last());
    }
}

/// An operation launches its worker at most once.
pub proof fn worker_is_launched_at_most_once(
    start: RunState,
    inputs: Seq<RunInput>,
    first: int,
    second: int,
)
    requires
        run_accepts(start, inputs),
        0 <= first < second < inputs.len(),
        run_step_at(start, inputs, first).action is Launch,
    ensures
        !(run_step_at(start, inputs, second).action is Launch),
{
    let after = inputs.take(first + 1);
    assert(after.drop_last() =~= inputs.take(first));
    assert(after.last() == inputs[first]);
    launched_run_stays_launched(start, inputs, first + 1, second);
    accepted_events_are_expected(start, inputs, second);
}

proof fn accepted_events_are_expected(start: RunState, inputs: Seq<RunInput>, index: int)
    requires
        run_accepts(start, inputs),
        0 <= index < inputs.len(),
    ensures
        run_after(start, inputs.take(index)).expects(inputs[index].event),
    decreases inputs.len(),
{
    if index < inputs.len() - 1 {
        accepted_events_are_expected(start, inputs.drop_last(), index);
        assert(inputs.drop_last().take(index) =~= inputs.take(index));
    } else {
        assert(inputs.take(index) =~= inputs.drop_last());
    }
}

/// An image that a preparation with the expectations of the request finishes with is one that the
/// request expects: its size and its digest are those of all bytes that were decompressed.
pub proof fn finished_preparation_is_expected(
    request: PipelineRequest,
    start: PrepareState,
    inputs: Seq<PrepareInput>,
    event: AccessEvent,
    cancelled: bool,
)
    requires
        start.phase == PreparePhase::Opening,
        start.received.len() == 0,
        start.expected_size == request.expected_raw_size,
        start.expected_sha256 == text::optional_text(request.expected_raw_sha256),
        prepare::prepare_accepts(start, inputs.push((event, cancelled))),
        prepare::prepare_after(start, inputs).step(event, cancelled).1 is Finish,
    ensures
        ({
            let image = prepare::prepare_after(start, inputs).step(event, cancelled).1->Finish_0;
            &&& image_refusal(request, image) is None
            &&& image.bytes == prepare::prepare_bytes(inputs).len()
            &&& image.raw_sha256 == digest::sha256_text(prepare::prepare_bytes(inputs))
        }),
{
    prepare::prepared_image_is_what_was_read(start, inputs, event, cancelled);
}

/// Whether a downloaded archive has the size and the digest that the request expects of it.
pub open spec fn is_expected_archive(request: PipelineRequest, report: DownloadReportView) -> bool {
    &&& request.expected_compressed_size matches Some(size) ==> report.bytes_downloaded == size
    &&& flash::digest_accepted(
        text::optional_text(request.expected_compressed_sha256),
        report.sha256,
    )
}

/// An archive that a download with the expectations of the request finishes with is one that the
/// request expects: its size and its digest are those of all bytes that were received.
pub proof fn finished_download_is_expected(
    request: PipelineRequest,
    wanted: DownloadRequest,
    inputs: Seq<DownloadInput>,
    event: DownloadEvent,
    cancelled: bool,
)
    requires
        download::request_fault(wanted, false) is None,
        wanted.expected_size == request.expected_compressed_size,
        match wanted.expected_sha256 {
            Some(value) => text::optional_text(request.expected_compressed_sha256) == Some(value@),
            None => request.expected_compressed_sha256 is None,
        },
        download::download_accepts(
            download::download_start(wanted),
            inputs.push((event, cancelled)),
        ),
        download::download_after(download::download_start(wanted), inputs).step(
            event,
            cancelled,
        ).1 is Finish,
    ensures
        ({
            let report = download::download_after(download::download_start(wanted), inputs).step(
                event,
                cancelled,
            ).1->Finish_0;
            &&& is_expected_archive(request, report)
            &&& report.bytes_downloaded == download::download_bytes(inputs).len()
            &&& report.sha256 == digest::sha256_text(download::download_bytes(inputs))
        }),
{
    let start = download::download_start(wanted);
    download::only_a_complete_download_is_published(start, inputs, event, cancelled);
    if let Some(value) = wanted.expected_sha256 {
        digest::hex_digits_are_read_in_either_case(value@);
        digest::hex_reads_back(digest::sha256(download::download_bytes(inputs)));
    }
}

/// Success is reported only where the worker ended well and last said that it completed; what is
/// reported is what was downloaded, what was prepared, and whether the worker verified it.
pub proof fn success_is_what_the_worker_reported(
    start: RunState,
    inputs: Seq<RunInput>,
    event: RunEvent,
    control: ControlState,
)
    requires
        start.phase == RunPhase::CreatingDirectory,
        start.terminal is None,
        run_accepts(start, inputs),
        run_after(start, inputs).expects(event),
        run_after(start, inputs).step(event, control).action is Finish,
    ensures
        ({
            let report = run_after(start, inputs).step(event, control).action->Finish_0;
            &&& !control.cancelled
            &&& event matches RunEvent::Ended(result) && result is Ok
            &&& last_terminal(inputs) matches Some(progress) && progress.phase
                == WorkerPhase::Completed && progress.verified == Some(report.verified)
            &&& was_prepared(
                inputs,
                PreparedImageView { bytes: report.raw_size, raw_sha256: report.raw_sha256 },
            )
            &&& report.raw_size <= start.request.drive.capacity
            &&& exists|download: DownloadReportView| #[trigger]
                was_downloaded(inputs, download) && download.bytes_downloaded
                    == report.bytes_downloaded && download.sha256 == report.compressed_sha256
        }),
{
    run_is_kept(start, inputs);
    let state = run_after(start, inputs);
    assert(was_downloaded(inputs, state.downloaded));
    let report = state.step(event, control).action->Finish_0;
    assert(state.prepared == PreparedImageView {
        bytes: report.raw_size,
        raw_sha256: report.raw_sha256,
    });
}

/// A cancelled operation never succeeds and never launches a worker; it ends as cancelled as soon
/// as an image was downloaded or prepared, before a launch, and when the worker has ended.
pub proof fn cancelled_operation_never_succeeds(
    state: RunState,
    event: RunEvent,
    control: ControlState,
)
    requires
        state.expects(event),
        control.cancelled,
    ensures
        !(state.step(event, control).action is Finish),
        !(state.step(event, control).action is Launch),
        event is Downloaded || event is Prepared || event is Ended || (event is Done && state.phase
            == RunPhase::Registering) ==> state.step(event, control).action == RunActionView::Fail(
            PipelineErrorView::Cancelled,
        ),
{
}

/// The calls on its control by which an operation follows on an event.
pub open spec fn control_calls(state: RunState, event: RunEvent, control: ControlState) -> Seq<
    ControlCall,
> {
    let action = state.step(event, control).action;
    if action is Finish || action is Fail {
        seq![ControlCall::End]
    } else if action is CreateMarkers {
        seq![
            ControlCall::RegisterMarkers(
                MarkerPathsView {
                    cancel: state.files().cancel,
                    skip_verification: state.files().skip_verification,
                },
            ),
        ]
    } else {
        seq![]
    }
}

/// An operation does to its control only what calls on it do: it registers its markers before the
/// worker is launched, and ends. So what holds after any calls on a control holds through every
/// operation.
pub proof fn operation_changes_its_control_by_calls(
    state: RunState,
    event: RunEvent,
    calls: Seq<ControlCall>,
)
    requires
        state.expects(event),
    ensures
        state.step(event, pipeline::control_after(calls)).control == pipeline::control_after(
            calls + control_calls(state, event, pipeline::control_after(calls)),
        ),
{
    let more = control_calls(state, event, pipeline::control_after(calls));
    let all = calls + more;
    if more.len() > 0 {
        assert(all.drop_last() =~= calls);
        assert(all.last() == more[0]);
    } else {
        assert(all =~= calls);
    }
}

/// An operation that is over has released its control, and one that goes on has not.
pub proof fn control_is_released_exactly_at_the_end(
    state: RunState,
    event: RunEvent,
    control: ControlState,
)
    requires
        state.expects(event),
        control.active,
    ensures
        ({
            let step = state.step(event, control);
            &&& step.control.active == (step.state.phase != RunPhase::Closed)
            &&& step.state.phase == RunPhase::Closed ==> step.control.markers is None
            &&& (step.state.phase == RunPhase::Closed) == (step.action is Finish
                || step.action is Fail)
            &&& step.control.cancelled == control.cancelled
        }),
{
}

/// An operation in which every access succeeds does everything once and in order, and launches the
/// worker: it downloads what the request names into its private directory, prepares that archive,
/// makes the raw image durable, creates the progress file, writes the job for the prepared image and
/// creates the markers that are due. Nothing is needed for this but an image that the request
/// expects and that fits the target, and that nobody cancels.
pub proof fn smooth_operation_launches_the_worker(
    start: RunState,
    control: ControlState,
    directory: RunEvent,
    downloaded: RunEvent,
    prepared: RunEvent,
)
    requires
        start.phase == RunPhase::CreatingDirectory,
        directory is Directory,
        downloaded is Downloaded,
        prepared is Prepared,
        is_expected_image(start.request, prepared->Prepared_0@),
        !control.cancelled,
    ensures
        ({
            let request = start.request;
            let files = pipeline::session_files(start.platform, directory->Directory_0@);
            let markers = MarkerPathsView {
                cancel: files.cancel,
                skip_verification: files.skip_verification,
            };
            let s1 = start.step(directory, control);
            let s2 = s1.state.step(downloaded, control);
            let s3 = s2.state.step(prepared, control);
            let s4 = s3.state.step(RunEvent::Done, control);
            let s5 = s4.state.step(RunEvent::Done, control);
            let s6 = s5.state.step(RunEvent::Done, control);
            let s7 = s6.state.step(RunEvent::Done, s6.control);
            &&& start.expects(directory)
            &&& s1.action == (RunActionView::Download {
                url: request.image_url@,
                destination: files.archive,
                expected_sha256: text::optional_text(request.expected_compressed_sha256),
                expected_size: request.expected_compressed_size,
            })
            &&& s1.state.expects(downloaded)
            &&& s2.action == (RunActionView::Prepare {
                archive: files.archive,
                raw: files.raw,
                expected_size: request.expected_raw_size,
                expected_sha256: text::optional_text(request.expected_raw_sha256),
            })
            &&& s2.state.expects(prepared)
            &&& s3.action == RunActionView::SyncRaw(files.raw)
            &&& s3.state.expects(RunEvent::Done)
            &&& s4.action == RunActionView::CreateProgress(files.progress)
            &&& s4.state.expects(RunEvent::Done)
            &&& s5.action == (RunActionView::WriteJob {
                path: files.job,
                prepared: prepared->Prepared_0@,
            })
            &&& s5.state.expects(RunEvent::Done)
            &&& s6.action == RunActionView::CreateMarkers(control.register(markers).1)
            &&& s6.control == control.register(markers).0
            &&& s6.state.expects(RunEvent::Done)
            &&& s7.action == RunActionView::Launch(
                pipeline::launch_of(files, request.drive.device@),
            )
            &&& s7.state.phase == RunPhase::Running
            &&& s7.state.downloaded == downloaded->Downloaded_0@
            &&& s7.state.prepared == prepared->Prepared_0@
            &&& s7.state.request == request
            &&& s1.control == control && s2.control == control && s3.control == control
                && s4.control == control && s5.control == control
        }),
{
}

/// While the worker runs, everything that it reports is handed on unchanged; and when it has ended
/// well after a last report that it completed, the operation succeeds with the sizes and digests of
/// what was downloaded and prepared, and with the verdict of the worker.
pub proof fn completed_worker_makes_the_operation_succeed(
    state: RunState,
    control: ControlState,
    progress: WorkerProgress,
    ended: RunEvent,
)
    requires
        state.phase == RunPhase::Running,
        !control.cancelled,
        ended matches RunEvent::Ended(result) && result is Ok,
    ensures
        ({
            let relayed = state.step(RunEvent::Progress(progress), control);
            let finished = relayed.state.step(ended, control);
            let earlier = state.step(ended, control);
            &&& relayed.action == RunActionView::Relay(progress@)
            &&& relayed.state.phase == RunPhase::Running && relayed.control == control
            &&& relayed.state.downloaded == state.downloaded && relayed.state.prepared
                == state.prepared
            &&& progress.phase == WorkerPhase::Completed && progress.verified is Some
                ==> finished.action == RunActionView::Finish(
                PipelineReportView {
                    bytes_downloaded: state.downloaded.bytes_downloaded,
                    compressed_sha256: state.downloaded.sha256,
                    raw_size: state.prepared.bytes,
                    raw_sha256: state.prepared.raw_sha256,
                    verified: progress.verified->0,
                },
            )
            &&& progress.phase == WorkerPhase::Failed ==> finished.action == RunActionView::Fail(
                PipelineErrorView::WorkerFailed(
                    if progress.message is Some {
                        progress.message->0@
                    } else {
                        "unknown worker failure"@
                    },
                ),
            )
            &&& progress.phase == WorkerPhase::Cancelled ==> finished.action
                == RunActionView::Fail(PipelineErrorView::Cancelled)
            &&& progress.phase == WorkerPhase::Completed && progress.verified is None
                ==> finished.action == RunActionView::Fail(PipelineErrorView::MissingTerminalEvent)
            &&& progress.phase != WorkerPhase::Completed && progress.phase != WorkerPhase::Failed
                && progress.phase != WorkerPhase::Cancelled ==> finished.action == earlier.action
            &&& state.terminal is None ==> earlier.action == RunActionView::Fail(
                PipelineErrorView::MissingTerminalEvent,
            )
        }),
{
}

/// A worker that ended badly makes the operation fail with that error, whatever it reported.
pub proof fn failed_runner_makes_the_operation_fail(
    state: RunState,
    control: ControlState,
    error: WorkerRunnerError,
)
    requires
        state.phase == RunPhase::Running,
    ensures
        state.step(RunEvent::Ended(Err(error)), control).action == RunActionView::Fail(
            if control.cancelled {
                PipelineErrorView::Cancelled
            } else {
                PipelineErrorView::Runner(error@)
            },
        ),
{
}

/// An operation fails only for a reason, and the error is that reason: an access, a download, a
/// preparation, a marker or a worker that failed, an image that is not the expected one or does not
/// fit, a missing end of the worker, or a wish to cancel.
pub proof fn failed_operation_has_its_reason(
    state: RunState,
    event: RunEvent,
    control: ControlState,
)
    requires
        state.expects(event),
        state.step(event, control).action is Fail,
    ensures
        ({
            let error = state.step(event, control).action->Fail_0;
            match event {
                RunEvent::Failed(cause) => error == PipelineErrorView::Io(cause@),
                RunEvent::EncodingFailed(cause) => error == PipelineErrorView::Serialization(
                    cause@,
                ),
                RunEvent::ControlFailed(fault) => error == PipelineErrorView::Control(fault@),
                RunEvent::DownloadFailed(fault) => error == (if fault@ is Cancelled {
                    PipelineErrorView::Cancelled
                } else {
                    PipelineErrorView::Download(fault@)
                }),
                RunEvent::PreparationFailed(fault) => error == (if fault is Cancelled {
                    PipelineErrorView::Cancelled
                } else {
                    PipelineErrorView::Preparation(fault)
                }),
                RunEvent::Downloaded(_) | RunEvent::Done => control.cancelled && error
                    == PipelineErrorView::Cancelled,
                RunEvent::Prepared(image) => if control.cancelled {
                    error == PipelineErrorView::Cancelled
                } else {
                    &&& !is_expected_image(state.request, image@)
                    &&& error is TargetTooSmall ==> image.bytes > state.request.drive.capacity
                    &&& error is TargetTooSmall || error is Preparation
                },
                RunEvent::Ended(_) => true,
                _ => false,
            }
        }),
{
}

/// An image that does not fit the target is refused with both sizes.
pub proof fn image_that_does_not_fit_is_refused(
    state: RunState,
    control: ControlState,
    image: PreparedImage,
)
    requires
        state.phase == RunPhase::Preparing,
        !control.cancelled,
        image_refusal(state.request, image@) is None,
    ensures
        image.bytes > state.request.drive.capacity ==> state.step(
            RunEvent::Prepared(image),
            control,
        ).action == RunActionView::Fail(
            PipelineErrorView::TargetTooSmall {
                image_size: image.bytes,
                target_size: state.request.drive.capacity,
            },
        ),
        image.bytes <= state.request.drive.capacity ==> state.step(
            RunEvent::Prepared(image),
            control,
        ).action is SyncRaw,
{
}

/// Nothing that goes wrong is passed over: a failed access, download, preparation, encoding or request
/// ends the operation, and so does an image that is not the expected one.
pub proof fn trouble_ends_the_operation(state: RunState, event: RunEvent, control: ControlState)
    requires
        state.expects(event),
    ensures
        event is Failed || event is DownloadFailed || event is PreparationFailed || event
            is EncodingFailed || event is ControlFailed ==> state.step(event, control).action is Fail,
        event matches RunEvent::Prepared(image) ==> !is_expected_image(state.request, image@)
            ==> state.step(event, control).action is Fail,
{
}

/// The last word of a worker decides: only one that says it completed, and whether it read back what
/// it wrote, makes a success; one that failed is reported in its own words, and a cancelled one as
/// cancelled.
pub proof fn last_word_of_the_worker_decides(progress: WorkerProgressView)
    ensures
        work_verdict(Some(progress)) is Ok <==> progress.phase == WorkerPhase::Completed
            && progress.verified is Some,
        work_verdict(Some(progress)) matches Ok(verified) ==> progress.verified == Some(verified),
        progress.phase == WorkerPhase::Cancelled ==> work_verdict(Some(progress)) == Err::<
            bool,
            PipelineErrorView,
        >(PipelineErrorView::Cancelled),
        progress.phase == WorkerPhase::Failed ==> (progress.message matches Some(message)
            ==> work_verdict(Some(progress)) == Err::<bool, PipelineErrorView>(
            PipelineErrorView::WorkerFailed(message),
        )),
        work_verdict(None) is Err,
{
}

} // verus!
