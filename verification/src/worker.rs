//! Isolated flash-worker boundary: jobs, progress, errors and the checks that every job passes
//! before any target is touched.

use vstd::prelude::*;
use vstd::string::*;

pub mod aligned;
pub mod job;
pub mod linux;
pub mod macos;
pub mod session;
pub mod signals;
pub mod staging;
pub mod windows;
pub mod windows_paths;
pub mod windows_session;

use crate::digest;
use crate::flash::{FlashError, FlashProgress, FlashReport, FlashStage};
use crate::paths;
use crate::pipeline::tail::LINE_FEED;
use crate::pipeline::WORKER_JOB_ARGUMENT;
use crate::text;
use crate::text::{chars_of, decimal_text, hex_between, same_text};
use crate::worker::session::{Preflight, PreflightAction};
use crate::worker::windows_session::{WindowsPreflight, WindowsPreflightAction};

verus! {

/// Current serialized worker-job schema.
pub const WORKER_JOB_SCHEMA_VERSION: u32 = 1;

/// Current JSON-lines progress schema.
pub const WORKER_PROGRESS_SCHEMA_VERSION: u32 = 1;

/// Worker argument carrying the pinned job-file digest across interactive authorization.
pub const WORKER_JOB_SHA256_ARGUMENT: &'static str = "--worker-job-sha256";

/// Windows worker argument proving intentional raw-device re-entry.
pub const WINDOWS_RAW_DEVICE_OPT_IN_ARGUMENT: &'static str = "--raw-device-opt-in";

/// Exact Windows worker opt-in value.
pub const WINDOWS_RAW_DEVICE_OPT_IN_VALUE: &'static str = "YES-I-UNDERSTAND";

/// The operating systems that a worker runs on.
#[derive(Clone, Copy, Debug, PartialEq, Eq, Structural)]
pub enum Platform {
    Linux,
    MacOs,
    Windows,
}

/// Target identity captured while the user selected a drive.
#[derive(Clone, Debug, PartialEq, Eq)]
pub struct WorkerDrive {
    pub id: String,
    pub device: String,
    pub capacity: u64,
}

/// What a [`WorkerDrive`] holds.
#[verifier::ext_equal]
pub struct WorkerDriveView {
    pub id: Seq<char>,
    pub device: Seq<char>,
    pub capacity: u64,
}

impl View for WorkerDrive {
    type V = WorkerDriveView;

    open spec fn view(&self) -> WorkerDriveView {
        WorkerDriveView { id: self.id@, device: self.device@, capacity: self.capacity }
    }
}

impl WorkerDrive {
    /// A copy of the identity.
    pub fn copy(&self) -> (result: WorkerDrive)
        ensures
            result == *self,
    {
        WorkerDrive {
            id: self.id.clone(),
            device: self.device.clone(),
            capacity: self.capacity,
        }
    }

    /// Whether two identities agree in every field.
    pub fn same(&self, other: &WorkerDrive) -> (result: bool)
        ensures
            result == (self@ == other@),
    {
        self.id == other.id && self.device == other.device && self.capacity == other.capacity
    }
}

/// Where the worker writes machine-readable progress events.
#[derive(Clone, Debug, PartialEq, Eq)]
pub enum ProgressDestination {
    /// Write one JSON object per line to standard output.
    Stdout,
    /// Write one JSON object per line to a GUI-provided file.
    File { path: String },
}

impl Default for ProgressDestination {
    fn default() -> (destination: ProgressDestination)
        ensures
            destination == ProgressDestination::Stdout,
    {
        ProgressDestination::Stdout
    }
}

/// Serializable request accepted by the privileged worker.
#[derive(Clone, Debug, PartialEq, Eq)]
pub struct WorkerJob {
    pub schema_version: u32,
    pub drive: WorkerDrive,
    pub raw_path: String,
    pub raw_size: u64,
    pub verify: bool,
    pub expected_raw_sha256: String,
    pub progress: ProgressDestination,
    pub cancel_path: Option<String>,
    pub skip_verification_path: Option<String>,
    /// Private Unix socket used to pass an `authopen`-authorized target descriptor on macOS.
    pub macos_target_socket: Option<String>,
}

/// Worker state emitted as JSON lines.
#[derive(Clone, Copy, Debug, PartialEq, Eq, Structural)]
pub enum WorkerPhase {
    ValidatingImage,
    ValidatingTarget,
    Unmounting,
    Writing,
    Verifying,
    Syncing,
    Ejecting,
    Completed,
    Cancelled,
    Failed,
}

/// One versioned JSON-lines progress event.
#[derive(Clone, Debug, PartialEq, Eq)]
pub struct WorkerProgress {
    pub schema_version: u32,
    pub phase: WorkerPhase,
    pub bytes_processed: Option<u64>,
    pub total_bytes: Option<u64>,
    pub raw_sha256: Option<String>,
    pub verified: Option<bool>,
    pub message: Option<String>,
}

/// What a [`WorkerProgress`] holds.
pub struct WorkerProgressView {
    pub schema_version: u32,
    pub phase: WorkerPhase,
    pub bytes_processed: Option<u64>,
    pub total_bytes: Option<u64>,
    pub raw_sha256: Option<Seq<char>>,
    pub verified: Option<bool>,
    pub message: Option<Seq<char>>,
}

impl View for WorkerProgress {
    type V = WorkerProgressView;

    open spec fn view(&self) -> WorkerProgressView {
        WorkerProgressView {
            schema_version: self.schema_version,
            phase: self.phase,
            bytes_processed: self.bytes_processed,
            total_bytes: self.total_bytes,
            raw_sha256: text::optional_text(self.raw_sha256),
            verified: self.verified,
            message: text::optional_text(self.message),
        }
    }
}

/// A progress event that says nothing but the phase.
pub open spec fn phase_progress(phase: WorkerPhase) -> WorkerProgressView {
    WorkerProgressView {
        schema_version: WORKER_PROGRESS_SCHEMA_VERSION,
        phase,
        bytes_processed: None,
        total_bytes: None,
        raw_sha256: None,
        verified: None,
        message: None,
    }
}

/// A progress event that counts bytes.
pub open spec fn byte_progress(phase: WorkerPhase, processed: u64, total: Option<u64>) ->
    WorkerProgressView {
    WorkerProgressView {
        bytes_processed: Some(processed),
        total_bytes: total,
        ..phase_progress(phase)
    }
}

/// The event of a finished flash.
pub open spec fn completed_progress(report: crate::flash::FlashReportView) -> WorkerProgressView {
    WorkerProgressView {
        bytes_processed: Some(report.bytes_written),
        total_bytes: Some(report.bytes_written),
        raw_sha256: Some(report.raw_sha256),
        verified: Some(report.verified),
        ..phase_progress(WorkerPhase::Completed)
    }
}

/// The event of a failed flash. A cancellation is a phase of its own.
pub open spec fn failed_progress(error: WorkerErrorView) -> WorkerProgressView {
    WorkerProgressView {
        message: Some(error.text()),
        ..phase_progress(
            if error is Cancelled {
                WorkerPhase::Cancelled
            } else {
                WorkerPhase::Failed
            },
        )
    }
}

/// The phase in which the worker reports a stage of the flash core.
pub open spec fn phase_of(stage: FlashStage) -> WorkerPhase {
    match stage {
        FlashStage::Decompressing => WorkerPhase::ValidatingImage,
        FlashStage::Writing => WorkerPhase::Writing,
        FlashStage::Verifying => WorkerPhase::Verifying,
    }
}

impl WorkerProgress {
    /// A copy of the event.
    pub fn copy(&self) -> (result: WorkerProgress)
        ensures
            result@ == self@,
    {
        WorkerProgress {
            schema_version: self.schema_version,
            phase: self.phase,
            bytes_processed: self.bytes_processed,
            total_bytes: self.total_bytes,
            raw_sha256: text::copy_text(&self.raw_sha256),
            verified: self.verified,
            message: text::copy_text(&self.message),
        }
    }

    /// A progress event that says nothing but the phase.
    pub fn phase(phase: WorkerPhase) -> (progress: WorkerProgress)
        ensures
            progress@ == phase_progress(phase),
    {
        WorkerProgress {
            schema_version: WORKER_PROGRESS_SCHEMA_VERSION,
            phase,
            bytes_processed: None,
            total_bytes: None,
            raw_sha256: None,
            verified: None,
            message: None,
        }
    }

    /// A progress event that counts bytes.
    pub fn bytes(phase: WorkerPhase, processed: u64, total: Option<u64>) -> (progress:
        WorkerProgress)
        ensures
            progress@ == byte_progress(phase, processed, total),
    {
        WorkerProgress {
            schema_version: WORKER_PROGRESS_SCHEMA_VERSION,
            phase,
            bytes_processed: Some(processed),
            total_bytes: total,
            raw_sha256: None,
            verified: None,
            message: None,
        }
    }

    /// The event of a finished flash.
    pub fn completed(report: &FlashReport) -> (progress: WorkerProgress)
        ensures
            progress@ == completed_progress(report@),
    {
        WorkerProgress {
            schema_version: WORKER_PROGRESS_SCHEMA_VERSION,
            phase: WorkerPhase::Completed,
            bytes_processed: Some(report.bytes_written),
            total_bytes: Some(report.bytes_written),
            raw_sha256: Some(report.raw_sha256.clone()),
            verified: Some(report.verified),
            message: None,
        }
    }

    /// The event of a failed flash.
    pub fn failed(error: &WorkerError) -> (progress: WorkerProgress)
        ensures
            progress@ == failed_progress(error@),
    {
        let phase = match error {
            WorkerError::Cancelled => WorkerPhase::Cancelled,
            _ => WorkerPhase::Failed,
        };
        WorkerProgress {
            schema_version: WORKER_PROGRESS_SCHEMA_VERSION,
            phase,
            bytes_processed: None,
            total_bytes: None,
            raw_sha256: None,
            verified: None,
            message: Some(error.message()),
        }
    }
}

/// The worker event for a progress of the flash core.
pub fn progress_from_flash(progress: FlashProgress) -> (result: WorkerProgress)
    ensures
        result@ == byte_progress(phase_of(progress.stage), progress.processed, progress.total),
{
    let phase = match progress.stage {
        FlashStage::Decompressing => WorkerPhase::ValidatingImage,
        FlashStage::Writing => WorkerPhase::Writing,
        FlashStage::Verifying => WorkerPhase::Verifying,
    };
    WorkerProgress::bytes(phase, progress.processed, progress.total)
}

/// Emit progress events using JSON Lines.
///
/// Each event is one serialized object and a line feed, written and flushed at once.
pub struct JsonLineProgress {}

impl JsonLineProgress {
    /// What is written of an event that was serialized.
    pub fn line(encoded: Vec<u8>) -> (line: Vec<u8>)
        ensures
            line@ == encoded@.push(LINE_FEED),
    {
        let mut line = encoded;
        line.push(LINE_FEED);
        line
    }
}

/// Failures at the privileged worker boundary.
#[derive(Debug)]
pub enum WorkerError {
    InvalidJob(String),
    RawDeviceDisabled,
    NotRoot,
    TargetMissing,
    TargetChanged,
    UnsafeTarget,
    Cancelled,
    Progress(String),
    Platform(String),
    Flash(FlashError),
}

/// What a [`WorkerError`] holds.
pub enum WorkerErrorView {
    InvalidJob(Seq<char>),
    RawDeviceDisabled,
    NotRoot,
    TargetMissing,
    TargetChanged,
    UnsafeTarget,
    Cancelled,
    Progress(Seq<char>),
    Platform(Seq<char>),
    Flash(FlashError),
}

impl View for WorkerError {
    type V = WorkerErrorView;

    open spec fn view(&self) -> WorkerErrorView {
        match *self {
            WorkerError::InvalidJob(reason) => WorkerErrorView::InvalidJob(reason@),
            WorkerError::RawDeviceDisabled => WorkerErrorView::RawDeviceDisabled,
            WorkerError::NotRoot => WorkerErrorView::NotRoot,
            WorkerError::TargetMissing => WorkerErrorView::TargetMissing,
            WorkerError::TargetChanged => WorkerErrorView::TargetChanged,
            WorkerError::UnsafeTarget => WorkerErrorView::UnsafeTarget,
            WorkerError::Cancelled => WorkerErrorView::Cancelled,
            WorkerError::Progress(cause) => WorkerErrorView::Progress(cause@),
            WorkerError::Platform(cause) => WorkerErrorView::Platform(cause@),
            WorkerError::Flash(error) => WorkerErrorView::Flash(error),
        }
    }
}

impl WorkerErrorView {
    /// The sentence shown for the error.
    pub open spec fn text(self) -> Seq<char> {
        match self {
            WorkerErrorView::InvalidJob(reason) => "invalid worker job: "@ + reason,
            WorkerErrorView::RawDeviceDisabled => {
                "raw-device execution is not explicitly enabled"@
            },
            WorkerErrorView::NotRoot => {
                "the privileged worker must run with administrator privileges"@
            },
            WorkerErrorView::TargetMissing => "the selected target is no longer available"@,
            WorkerErrorView::TargetChanged => "the selected target changed after selection"@,
            WorkerErrorView::UnsafeTarget => {
                "the selected target is not a writable, whole removable physical disk"@
            },
            WorkerErrorView::Cancelled => "the flash operation was cancelled"@,
            WorkerErrorView::Progress(cause) => "progress output failed: "@ + cause,
            WorkerErrorView::Platform(cause) => "platform operation failed: "@ + cause,
            WorkerErrorView::Flash(error) => error.text(),
        }
    }
}

impl WorkerError {
    /// The sentence shown for the error.
    pub fn message(&self) -> (result: String)
        ensures
            result@ == self@.text(),
    {
        match self {
            WorkerError::InvalidJob(reason) => text::join2("invalid worker job: ", reason.as_str()),
            WorkerError::RawDeviceDisabled => {
                "raw-device execution is not explicitly enabled".to_owned()
            },
            WorkerError::NotRoot => {
                "the privileged worker must run with administrator privileges".to_owned()
            },
            WorkerError::TargetMissing => "the selected target is no longer available".to_owned(),
            WorkerError::TargetChanged => "the selected target changed after selection".to_owned(),
            WorkerError::UnsafeTarget => {
                "the selected target is not a writable, whole removable physical disk".to_owned()
            },
            WorkerError::Cancelled => "the flash operation was cancelled".to_owned(),
            WorkerError::Progress(cause) => text::join2("progress output failed: ", cause.as_str()),
            WorkerError::Platform(cause) => text::join2(
                "platform operation failed: ",
                cause.as_str(),
            ),
            WorkerError::Flash(error) => error.message(),
        }
    }

    /// A copy of the error.
    pub fn copy(&self) -> (result: WorkerError)
        ensures
            result == *self,
    {
        match self {
            WorkerError::InvalidJob(reason) => WorkerError::InvalidJob(reason.clone()),
            WorkerError::RawDeviceDisabled => WorkerError::RawDeviceDisabled,
            WorkerError::NotRoot => WorkerError::NotRoot,
            WorkerError::TargetMissing => WorkerError::TargetMissing,
            WorkerError::TargetChanged => WorkerError::TargetChanged,
            WorkerError::UnsafeTarget => WorkerError::UnsafeTarget,
            WorkerError::Cancelled => WorkerError::Cancelled,
            WorkerError::Progress(cause) => WorkerError::Progress(cause.clone()),
            WorkerError::Platform(cause) => WorkerError::Platform(cause.clone()),
            WorkerError::Flash(error) => WorkerError::Flash(error.copy()),
        }
    }
}

/// The error by which the write fails when the target could not be made ready for reading it back.
pub open spec fn flash_error(error: WorkerErrorView) -> Option<FlashError> {
    match error {
        WorkerErrorView::Flash(error) => Some(error),
        _ => None,
    }
}

/// The error by which the write fails when the target could not be made ready for reading it back.
pub fn preparation_error(error: WorkerError) -> (result: FlashError)
    ensures
        match flash_error(error@) {
            Some(own) => result == own,
            None => result matches FlashError::Io(message) && message@ == error@.text(),
        },
{
    match error {
        WorkerError::Flash(own) => own,
        other => FlashError::Io(other.message()),
    }
}

/// Whether a check gave exactly this verdict.
pub open spec fn is_verdict<T>(
    result: Result<T, WorkerError>,
    fault: Option<WorkerErrorView>,
) -> bool {
    match result {
        Ok(_) => fault is None,
        Err(error) => fault == Some(error@),
    }
}

/// An invalid job, for this reason.
pub(crate) fn invalid_session(reason: &str) -> (error: WorkerError)
    ensures
        error@ == WorkerErrorView::InvalidJob(reason@),
{
    WorkerError::InvalidJob(reason.to_owned())
}

/// An invalid job, for a reason in two parts.
pub(crate) fn invalid_session2(first: &str, second: &str) -> (error: WorkerError)
    ensures
        error@ == WorkerErrorView::InvalidJob(first@ + second@),
{
    WorkerError::InvalidJob(text::join2(first, second))
}

/// Whether a text is a SHA-256 digest in hexadecimal digits.
pub fn valid_sha256(value: &str) -> (result: bool)
    ensures
        result == digest::is_sha256_text(value@),
{
    let characters = chars_of(value);
    assert(characters@.subrange(0, characters@.len() as int) =~= characters@);
    characters.len() == 64 && hex_between(&characters, 0, characters.len())
}

/// Why the drive that is there is not the selected one.
pub open spec fn drive_fault(selected: WorkerDriveView, current: WorkerDriveView) -> Option<
    WorkerErrorView,
> {
    if selected == current {
        None
    } else {
        Some(WorkerErrorView::TargetChanged)
    }
}

/// Whether the drive found now is the one that was selected, in every field.
pub fn compare_drive(selected: &WorkerDrive, current: &WorkerDrive) -> (result: Result<
    (),
    WorkerError,
>)
    ensures
        is_verdict(result, drive_fault(selected@, current@)),
{
    if selected.same(current) {
        Ok(())
    } else {
        Err(WorkerError::TargetChanged)
    }
}

// ---------------------------------------------------------------------------------------------
// Jobs
// ---------------------------------------------------------------------------------------------

/// What is known of the raw image without opening it.
#[derive(Clone, Debug, PartialEq, Eq)]
pub struct RawImageFacts {
    pub is_symlink: bool,
    pub is_file: bool,
    pub length: u64,
}

/// Why a job is refused for what it says, before its raw image is looked at. `drive_is_valid` is
/// the platform's verdict on the drive's identity, and `absolute` the platform's notion of an
/// absolute path.
pub open spec fn job_text_fault(
    job: WorkerJob,
    drive_is_valid: bool,
    absolute: spec_fn(Seq<char>) -> bool,
) -> Option<WorkerErrorView> {
    if job.schema_version != WORKER_JOB_SCHEMA_VERSION {
        Some(
            WorkerErrorView::InvalidJob(
                "unsupported schema version "@ + text::decimal(job.schema_version as nat),
            ),
        )
    } else if !drive_is_valid {
        Some(WorkerErrorView::InvalidJob("invalid whole-disk identity"@))
    } else if !digest::is_sha256_text(job.expected_raw_sha256@) {
        Some(
            WorkerErrorView::InvalidJob(
                "expected raw SHA-256 must contain 64 hexadecimal characters"@,
            ),
        )
    } else if !absolute(job.raw_path@) || (job.cancel_path matches Some(path) && !absolute(path@))
        || (job.skip_verification_path matches Some(path) && !absolute(path@)) || (
    job.progress matches ProgressDestination::File { path } && !absolute(path@)) || (
    job.macos_target_socket matches Some(path) && !absolute(path@)) {
        Some(WorkerErrorView::InvalidJob("worker file paths must be absolute"@))
    } else if job.raw_size == 0 || job.raw_size > job.drive.capacity {
        Some(WorkerErrorView::InvalidJob("raw image size must fit the selected target"@))
    } else {
        None
    }
}

/// Why a job is refused for what its raw image turned out to be.
pub open spec fn raw_image_fault(job: WorkerJob, raw: Result<RawImageFacts, String>) -> Option<
    WorkerErrorView,
> {
    match raw {
        Err(cause) => Some(WorkerErrorView::InvalidJob("raw image is not readable: "@ + cause@)),
        Ok(facts) => if facts.is_symlink || !facts.is_file {
            Some(
                WorkerErrorView::InvalidJob("raw image path must be a non-symlink regular file"@),
            )
        } else if facts.length != job.raw_size {
            Some(WorkerErrorView::InvalidJob("raw image size changed after preparation"@))
        } else {
            None
        },
    }
}

/// Whether a drive identity is one that a platform's discovery gives out.
pub open spec fn drive_identity_is_valid(platform: Platform, drive: WorkerDriveView) -> bool {
    match platform {
        Platform::Linux => crate::drives::linux::is_worker_drive(drive),
        Platform::MacOs => crate::drives::macos::is_worker_drive(drive),
        Platform::Windows => crate::drives::windows::is_worker_drive(drive),
    }
}

/// A platform's notion of an absolute path.
pub open spec fn absolute_on(platform: Platform) -> spec_fn(Seq<char>) -> bool {
    match platform {
        Platform::Windows => |path: Seq<char>| crate::worker::windows_paths::is_absolute_text(path),
        _ => |path: Seq<char>| paths::path_view(path).absolute,
    }
}

/// Why a job is refused, with what is known of its raw image.
pub open spec fn job_fault(
    platform: Platform,
    job: WorkerJob,
    raw: Result<RawImageFacts, String>,
) -> Option<WorkerErrorView> {
    match text_fault(platform, job) {
        Some(fault) => Some(fault),
        None => raw_image_fault(job, raw),
    }
}

/// Why a platform refuses a job for what it says.
pub open spec fn text_fault(platform: Platform, job: WorkerJob) -> Option<WorkerErrorView> {
    job_text_fault(job, drive_identity_is_valid(platform, job.drive@), absolute_on(platform))
}

/// Whether a drive identity is one that the platform's discovery gives out.
pub fn valid_worker_drive(platform: Platform, drive: &WorkerDrive) -> (result: bool)
    ensures
        result == drive_identity_is_valid(platform, drive@),
{
    match platform {
        Platform::Linux => crate::drives::linux::valid_worker_drive(drive),
        Platform::MacOs => crate::drives::macos::valid_worker_drive(drive),
        Platform::Windows => crate::drives::windows::valid_worker_drive(drive),
    }
}

/// Whether a path is absolute on a platform.
pub(crate) fn is_absolute(platform: Platform, path: &str) -> (result: bool)
    ensures
        result == absolute_on(platform)(path@),
{
    match platform {
        Platform::Windows => windows_paths::is_absolute(path),
        _ => paths::is_absolute(path),
    }
}

fn absent_or_absolute(platform: Platform, path: &Option<String>) -> (result: bool)
    ensures
        result == (path matches Some(text) ==> absolute_on(platform)(text@)),
{
    match path {
        Some(text) => is_absolute(platform, text.as_str()),
        None => true,
    }
}

fn all_paths_are_absolute(platform: Platform, job: &WorkerJob) -> (result: bool)
    ensures
        result == ({
            &&& absolute_on(platform)(job.raw_path@)
            &&& job.cancel_path matches Some(path) ==> absolute_on(platform)(path@)
            &&& job.skip_verification_path matches Some(path) ==> absolute_on(platform)(path@)
            &&& job.progress matches ProgressDestination::File { path } ==> absolute_on(platform)(
                path@,
            )
            &&& job.macos_target_socket matches Some(path) ==> absolute_on(platform)(path@)
        }),
{
    let progress = match &job.progress {
        ProgressDestination::File { path } => is_absolute(platform, path.as_str()),
        ProgressDestination::Stdout => true,
    };
    is_absolute(platform, job.raw_path.as_str()) && absent_or_absolute(platform, &job.cancel_path)
        && absent_or_absolute(platform, &job.skip_verification_path) && progress
        && absent_or_absolute(platform, &job.macos_target_socket)
}

/// Check what a job says, before its raw image is looked at.
pub fn validate_job_text(platform: Platform, job: &WorkerJob) -> (result: Result<(), WorkerError>)
    ensures
        is_verdict(result, text_fault(platform, *job)),
{
    if job.schema_version != WORKER_JOB_SCHEMA_VERSION {
        let version = decimal_text(job.schema_version as u64);
        return Err(invalid_session2("unsupported schema version ", version.as_str()));
    }
    if !valid_worker_drive(platform, &job.drive) {
        return Err(invalid_session("invalid whole-disk identity"));
    }
    if !valid_sha256(job.expected_raw_sha256.as_str()) {
        return Err(
            invalid_session("expected raw SHA-256 must contain 64 hexadecimal characters"),
        );
    }
    if !all_paths_are_absolute(platform, job) {
        return Err(invalid_session("worker file paths must be absolute"));
    }
    if job.raw_size == 0 || job.raw_size > job.drive.capacity {
        return Err(invalid_session("raw image size must fit the selected target"));
    }
    Ok(())
}

/// Check a job completely. `raw` is what is known of the file at the job's raw-image path.
pub fn validate_job(platform: Platform, job: &WorkerJob, raw: &Result<RawImageFacts, String>) -> (
    result: Result<(), WorkerError>)
    ensures
        is_verdict(result, job_fault(platform, *job, *raw)),
{
    match validate_job_text(platform, job) {
        Err(error) => {
            return Err(error);
        },
        Ok(()) => {},
    }
    inspect_raw_image(job, raw)
}

/// Check the raw image of a job. `raw` is what is known of the file at its path.
pub fn inspect_raw_image(job: &WorkerJob, raw: &Result<RawImageFacts, String>) -> (result: Result<
    (),
    WorkerError,
>)
    ensures
        is_verdict(result, raw_image_fault(*job, *raw)),
{
    match raw {
        Err(cause) => Err(invalid_session2("raw image is not readable: ", cause.as_str())),
        Ok(facts) => {
            if facts.is_symlink || !facts.is_file {
                return Err(invalid_session("raw image path must be a non-symlink regular file"));
            }
            if facts.length != job.raw_size {
                return Err(invalid_session("raw image size changed after preparation"));
            }
            Ok(())
        },
    }
}

// ---------------------------------------------------------------------------------------------
// Authorization
// ---------------------------------------------------------------------------------------------

/// Environment variable by which the isolated macOS worker is opted in.
pub const RAW_DEVICE_OPT_IN: &'static str = "SNAPDOG_INSTALLER_ALLOW_RAW_DEVICE_WRITE";

/// The value of [`RAW_DEVICE_OPT_IN`] that opts in.
pub const RAW_DEVICE_OPT_IN_VALUE: &'static str = "YES-I-UNDERSTAND";

/// What a worker process knows of its own authorization.
#[derive(Debug)]
pub enum WorkerEnvironment {
    /// The value of [`RAW_DEVICE_OPT_IN`].
    MacOs { opt_in: Option<String> },
    /// What the first `id -u` that could be started came to, where one could.
    Linux { user_id: Option<UserIdOutput> },
    /// The arguments of the process, and whether its token is elevated.
    Windows { arguments: Vec<String>, elevated: Result<bool, String> },
}

/// What `id -u` came to.
#[derive(Clone, Debug, PartialEq, Eq)]
pub struct UserIdOutput {
    pub success: bool,
    pub stdout: Vec<u8>,
}

/// Whether a process prints the user ID of root, and nothing else.
pub open spec fn is_root_output(output: UserIdOutput) -> bool {
    output.success && output.stdout@ == seq![48u8, 10u8]
}

/// Whether the argument at `index` is this text.
pub open spec fn argument_is(arguments: Seq<String>, index: int, wanted: Seq<char>) -> bool {
    index < arguments.len() && arguments[index]@ == wanted
}

/// Whether the arguments end with the pinned digest of the job file, from `index` on.
pub open spec fn pins_digest(arguments: Seq<String>, index: int) -> bool {
    &&& argument_is(arguments, index, WORKER_JOB_SHA256_ARGUMENT@)
    &&& index + 1 < arguments.len()
    &&& digest::is_sha256_text(arguments[index + 1]@)
}

/// Whether the arguments behind the job path are exactly those that the platform expects.
pub open spec fn trailing_arguments_are_valid(platform: Platform, arguments: Seq<String>) -> bool {
    &&& pins_digest(arguments, 3)
    &&& match platform {
        Platform::Windows => {
            &&& argument_is(arguments, 5, WINDOWS_RAW_DEVICE_OPT_IN_ARGUMENT@)
            &&& argument_is(arguments, 6, WINDOWS_RAW_DEVICE_OPT_IN_VALUE@)
            &&& arguments.len() == 7
        },
        _ => arguments.len() == 5,
    }
}

/// Why a worker may not touch a raw device.
pub open spec fn environment_fault(environment: WorkerEnvironment) -> Option<WorkerErrorView> {
    match environment {
        WorkerEnvironment::MacOs { opt_in } => if opt_in matches Some(value) && value@
            == RAW_DEVICE_OPT_IN_VALUE@ {
            None
        } else {
            Some(WorkerErrorView::RawDeviceDisabled)
        },
        WorkerEnvironment::Linux { user_id } => match user_id {
            None => Some(WorkerErrorView::Platform("could not determine the worker user ID"@)),
            Some(output) => if is_root_output(output) {
                None
            } else {
                Some(WorkerErrorView::NotRoot)
            },
        },
        WorkerEnvironment::Windows { arguments, elevated } => if !(argument_is(
            arguments@,
            1,
            WORKER_JOB_ARGUMENT@,
        ) && trailing_arguments_are_valid(Platform::Windows, arguments@)) {
            Some(WorkerErrorView::RawDeviceDisabled)
        } else {
            match elevated {
                Err(cause) => Some(WorkerErrorView::Platform(cause@)),
                Ok(true) => None,
                Ok(false) => Some(WorkerErrorView::NotRoot),
            }
        },
    }
}

/// Capability required before production code can open a raw device.
///
/// On macOS it can only be obtained by the explicitly opted-in isolated worker; the worker still
/// cannot open a raw device by path and must receive the exact `authopen` descriptor from the GUI.
/// On Linux it takes the root identity supplied by PolicyKit: the exact worker arguments, the
/// private session and the worker's own check of the target form the authorization boundary. On
/// Windows it takes the explicit opt-in and an elevated administrator token.
#[derive(Debug)]
pub struct RawDeviceGate {
    platform: Platform,
}

impl RawDeviceGate {
    /// The platform that the capability was obtained on.
    pub closed spec fn platform(self) -> Platform {
        self.platform
    }

    /// Validate the authorization of the running worker.
    pub fn from_environment(environment: &WorkerEnvironment) -> (result: Result<
        RawDeviceGate,
        WorkerError,
    >)
        ensures
            is_verdict(result, environment_fault(*environment)),
            result matches Ok(gate) ==> match environment {
                WorkerEnvironment::MacOs { .. } => gate.platform() == Platform::MacOs,
                WorkerEnvironment::Linux { .. } => gate.platform() == Platform::Linux,
                WorkerEnvironment::Windows { .. } => gate.platform() == Platform::Windows,
            },
    {
        match environment {
            WorkerEnvironment::MacOs { opt_in } => {
                let enabled = match opt_in {
                    Some(value) => same_text(value.as_str(), RAW_DEVICE_OPT_IN_VALUE),
                    None => false,
                };
                if !enabled {
                    return Err(WorkerError::RawDeviceDisabled);
                }
                Ok(RawDeviceGate { platform: Platform::MacOs })
            },
            WorkerEnvironment::Linux { user_id } => {
                RawDeviceGate::from_root_worker(user_id)
            },
            WorkerEnvironment::Windows { arguments, elevated } => {
                if !windows_worker_arguments_are_authorized(arguments) {
                    return Err(WorkerError::RawDeviceDisabled);
                }
                match elevated {
                    Err(cause) => Err(WorkerError::Platform(cause.clone())),
                    Ok(true) => Ok(RawDeviceGate { platform: Platform::Windows }),
                    Ok(false) => Err(WorkerError::NotRoot),
                }
            },
        }
    }

    fn from_root_worker(user_id: &Option<UserIdOutput>) -> (result: Result<
        RawDeviceGate,
        WorkerError,
    >)
        ensures
            is_verdict(
                result,
                environment_fault(WorkerEnvironment::Linux { user_id: *user_id }),
            ),
            result matches Ok(gate) ==> gate.platform() == Platform::Linux,
    {
        match user_id {
            None => Err(WorkerError::Platform("could not determine the worker user ID".to_owned())),
            Some(output) => {
                let root = output.success && output.stdout.len() == 2 && output.stdout[0] == 48
                    && output.stdout[1] == 10;
                assert(root == is_root_output(*output)) by {
                    if root {
                        assert(output.stdout@ =~= seq![48u8, 10u8]);
                    }
                }
                if root {
                    Ok(RawDeviceGate { platform: Platform::Linux })
                } else {
                    Err(WorkerError::NotRoot)
                }
            },
        }
    }
}

fn is_argument(arguments: &Vec<String>, index: usize, wanted: &str) -> (result: bool)
    ensures
        result == argument_is(arguments@, index as int, wanted@),
{
    index < arguments.len() && same_text(arguments[index].as_str(), wanted)
}

/// Whether the arguments behind the job path are exactly those that the platform expects.
pub(crate) fn has_valid_trailing_arguments(platform: Platform, arguments: &Vec<String>) -> (result: bool)
    ensures
        result == trailing_arguments_are_valid(platform, arguments@),
{
    if !is_argument(arguments, 3, WORKER_JOB_SHA256_ARGUMENT) || arguments.len() < 5
        || !valid_sha256(arguments[4].as_str()) {
        return false;
    }
    match platform {
        Platform::Windows => is_argument(arguments, 5, WINDOWS_RAW_DEVICE_OPT_IN_ARGUMENT)
            && is_argument(arguments, 6, WINDOWS_RAW_DEVICE_OPT_IN_VALUE) && arguments.len() == 7,
        _ => arguments.len() == 5,
    }
}

fn windows_worker_arguments_are_authorized(arguments: &Vec<String>) -> (result: bool)
    ensures
        result == (argument_is(arguments@, 1, WORKER_JOB_ARGUMENT@)
            && trailing_arguments_are_valid(Platform::Windows, arguments@)),
{
    is_argument(arguments, 1, WORKER_JOB_ARGUMENT) && has_valid_trailing_arguments(
        Platform::Windows,
        arguments,
    )
}

/// Why the arguments of a worker process name no job file.
pub open spec fn arguments_fault(platform: Platform, arguments: Seq<String>) -> Option<
    WorkerErrorView,
> {
    if !argument_is(arguments, 1, WORKER_JOB_ARGUMENT@) {
        Some(WorkerErrorView::InvalidJob("worker re-entry argument is missing"@))
    } else if arguments.len() < 3 {
        Some(WorkerErrorView::InvalidJob("worker job path is missing"@))
    } else if !trailing_arguments_are_valid(platform, arguments) {
        Some(WorkerErrorView::InvalidJob("worker re-entry has unexpected arguments"@))
    } else {
        None
    }
}

/// The path of the job file in the arguments of a worker process, the first of which names the
/// executable.
pub fn current_worker_job_path(platform: Platform, arguments: &Vec<String>) -> (result: Result<
    String,
    WorkerError,
>)
    ensures
        is_verdict(result, arguments_fault(platform, arguments@)),
        result matches Ok(path) ==> path@ == arguments@[2]@,
{
    if !is_argument(arguments, 1, WORKER_JOB_ARGUMENT) {
        return Err(invalid_session("worker re-entry argument is missing"));
    }
    if arguments.len() < 3 {
        return Err(invalid_session("worker job path is missing"));
    }
    if !has_valid_trailing_arguments(platform, arguments) {
        return Err(invalid_session("worker re-entry has unexpected arguments"));
    }
    Ok(arguments[2].clone())
}

// ---------------------------------------------------------------------------------------------
// Starting a worker
// ---------------------------------------------------------------------------------------------

/// Begin one raw-device job on macOS. The capability can only be had inside the opted-in worker process;
/// no raw path that the job names is ever opened.
pub fn run_macos_worker<'a>(job: &'a WorkerJob, gate: RawDeviceGate, arguments: &Vec<String>) -> (
    result: (Preflight<'a>, PreflightAction))
    ensures
        (result.0@, result.1@) == session::preflight_start(Platform::MacOs, *job, arguments@),
{
    Preflight::start(Platform::MacOs, job, arguments)
}

/// Begin one raw-device job on Linux after native privilege elevation.
pub fn run_linux_worker<'a>(job: &'a WorkerJob, gate: RawDeviceGate, arguments: &Vec<String>) -> (
    result: (Preflight<'a>, PreflightAction))
    ensures
        (result.0@, result.1@) == session::preflight_start(Platform::Linux, *job, arguments@),
{
    Preflight::start(Platform::Linux, job, arguments)
}

/// Begin one raw-device job on Windows after elevation.
pub fn run_windows_worker<'a>(
    job: &'a WorkerJob,
    gate: RawDeviceGate,
    arguments: &Vec<String>,
) -> (result: (WindowsPreflight<'a>, WindowsPreflightAction))
    ensures
        (result.0@, result.1@) == windows_session::preflight_start(*job, arguments@),
{
    WindowsPreflight::start(job, arguments)
}

/// Whether every path that a job names is absolute.
pub open spec fn names_absolute_paths(
    job: WorkerJob,
    absolute: spec_fn(Seq<char>) -> bool,
) -> bool {
    &&& absolute(job.raw_path@)
    &&& job.cancel_path matches Some(path) ==> absolute(path@)
    &&& job.skip_verification_path matches Some(path) ==> absolute(path@)
    &&& job.progress matches ProgressDestination::File { path } ==> absolute(path@)
    &&& job.macos_target_socket matches Some(path) ==> absolute(path@)
}

/// A job is taken exactly where it has the known version, names a drive as the platform's discovery
/// does, a digest, absolute paths only, and an image that is not empty and fits the drive; a job
/// that is refused is called an invalid one.
pub proof fn job_is_taken_only_if_it_can_be_done(platform: Platform, job: WorkerJob)
    ensures
        text_fault(platform, job) is None <==> {
            &&& job.schema_version == WORKER_JOB_SCHEMA_VERSION
            &&& drive_identity_is_valid(platform, job.drive@)
            &&& digest::is_sha256_text(job.expected_raw_sha256@)
            &&& names_absolute_paths(job, absolute_on(platform))
            &&& 0 < job.raw_size <= job.drive.capacity
        },
        text_fault(platform, job) matches Some(fault) ==> fault is InvalidJob,
{
}

/// A path of a job is absolute on Unix exactly where it starts with a slash.
pub proof fn unix_path_is_absolute_from_the_root(path: Seq<char>)
    ensures
        absolute_on(Platform::Linux)(path) <==> path.len() > 0 && path[0] == '/',
        absolute_on(Platform::MacOs)(path) <==> path.len() > 0 && path[0] == '/',
{
}

/// The raw image of a job is accepted exactly where it can be looked at and is a plain file of the
/// size that the job names; then a job that says nothing wrong is accepted too.
pub proof fn raw_image_is_a_plain_file_of_the_named_size(
    platform: Platform,
    job: WorkerJob,
    raw: Result<RawImageFacts, String>,
)
    ensures
        raw_image_fault(job, raw) is None <==> (raw matches Ok(facts) && facts.is_file
            && !facts.is_symlink && facts.length == job.raw_size),
        job_fault(platform, job, raw) is None <==> text_fault(platform, job) is None
            && raw_image_fault(job, raw) is None,
        job_fault(platform, job, raw) matches Some(fault) ==> fault is InvalidJob,
{
}

/// Raw devices may be touched exactly where the process was let: on macOS by the environment, on
/// Linux as root, and on Windows by its arguments with an elevated token.
pub proof fn raw_devices_are_for_permitted_processes(environment: WorkerEnvironment)
    ensures
        environment_fault(environment) is None <==> match environment {
            WorkerEnvironment::MacOs { opt_in } => opt_in matches Some(value) && value@
                == RAW_DEVICE_OPT_IN_VALUE@,
            WorkerEnvironment::Linux { user_id } => user_id matches Some(output)
                && output.success && output.stdout@.len() == 2 && output.stdout@[0] == 48
                && output.stdout@[1] == 10,
            WorkerEnvironment::Windows { arguments, elevated } => {
                &&& arguments@.len() == 7
                &&& arguments@[1]@ == WORKER_JOB_ARGUMENT@
                &&& arguments@[3]@ == WORKER_JOB_SHA256_ARGUMENT@
                &&& digest::is_sha256_text(arguments@[4]@)
                &&& arguments@[5]@ == WINDOWS_RAW_DEVICE_OPT_IN_ARGUMENT@
                &&& arguments@[6]@ == WINDOWS_RAW_DEVICE_OPT_IN_VALUE@
                &&& elevated matches Ok(is_elevated) && is_elevated
            },
        },
        environment_fault(environment) matches Some(fault) ==> match environment {
            WorkerEnvironment::MacOs { .. } => fault is RawDeviceDisabled,
            WorkerEnvironment::Linux { user_id } => if user_id is None {
                fault is Platform
            } else {
                fault is NotRoot
            },
            WorkerEnvironment::Windows { elevated, .. } => match elevated {
                Ok(false) => fault is NotRoot || fault is RawDeviceDisabled,
                Ok(true) => fault is RawDeviceDisabled,
                Err(cause) => fault == WorkerErrorView::Platform(cause@)
                    || fault is RawDeviceDisabled,
            },
        },
{
    if let WorkerEnvironment::Linux { user_id: Some(output) } = environment {
        assert(output.stdout@ =~= seq![48u8, 10u8] <==> output.stdout@.len() == 2
            && output.stdout@[0] == 48 && output.stdout@[1] == 10);
    }
}

/// A process is taken for a worker exactly where its arguments are the marker of a worker, the path
/// of the job, and the pinned digest of the job file, on Windows with the opt-in behind them, and
/// nothing else.
pub proof fn worker_is_told_by_its_arguments(platform: Platform, arguments: Seq<String>)
    ensures
        arguments_fault(platform, arguments) is None <==> {
            &&& arguments.len() == (if platform is Windows {
                7int
            } else {
                5int
            })
            &&& arguments[1]@ == WORKER_JOB_ARGUMENT@
            &&& arguments[3]@ == WORKER_JOB_SHA256_ARGUMENT@
            &&& digest::is_sha256_text(arguments[4]@)
            &&& platform is Windows ==> arguments[5]@ == WINDOWS_RAW_DEVICE_OPT_IN_ARGUMENT@
                && arguments[6]@ == WINDOWS_RAW_DEVICE_OPT_IN_VALUE@
        },
        arguments_fault(platform, arguments) matches Some(fault) ==> fault is InvalidJob,
{
}

/// A failure is told by its own words: a cancellation as such, any other as a failure; and what the
/// flash core reports keeps its count, under the phase of its stage.
pub proof fn events_say_what_happened(error: WorkerErrorView, progress: FlashProgress)
    ensures
        failed_progress(error).message == Some(error.text()),
        failed_progress(error).phase == WorkerPhase::Cancelled <==> error is Cancelled,
        !(error is Cancelled) ==> failed_progress(error).phase == WorkerPhase::Failed,
        ({
            let event = byte_progress(
                phase_of(progress.stage),
                progress.processed,
                progress.total,
            );
            &&& event.bytes_processed == Some(progress.processed)
            &&& event.total_bytes == progress.total
            &&& event.phase == WorkerPhase::Verifying <==> progress.stage is Verifying
            &&& event.phase == WorkerPhase::Writing <==> progress.stage is Writing
            &&& event.phase == WorkerPhase::ValidatingImage <==> progress.stage is Decompressing
            &&& event.schema_version == WORKER_PROGRESS_SCHEMA_VERSION
        }),
{
}

/// A drive passes as the selected one with the same identifier, path and capacity, and with any other
/// one of them it does not.
pub proof fn drive_is_known_by_all_it_shows(selected: WorkerDriveView, current: WorkerDriveView)
    ensures
        drive_fault(selected, current) is None <==> selected.id == current.id && selected.device
            == current.device && selected.capacity == current.capacity,
        drive_fault(selected, current) is Some ==> drive_fault(selected, current)
            == drive_fault(current, selected),
{
}

} // verus!
