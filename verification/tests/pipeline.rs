use std::io::{Read, Write};

use flate2::read::GzDecoder;
use flate2::write::GzEncoder;
use flate2::Compression;
use sha2::{Digest, Sha256};
use snapdog_os_installer::download::{DownloadError, DownloadProgress, DownloadReport};
use snapdog_os_installer::flash::prepare::PrepareAction;
use snapdog_os_installer::flash::{
    prepare_gzip, AccessEvent, FlashError, FlashProgress, PreparedImage, BUFFER_SIZE,
};
use snapdog_os_installer::pipeline::run::{judge_work, RunAction, RunEvent};
use snapdog_os_installer::pipeline::{
    build_worker_job, ensure_target_capacity, map_download_error, map_preparation_error,
    run_pipeline, LinuxWorkerRunner, MacOsWorkerRunner, PipelineControl, PipelineControlError,
    PipelineError, PipelineEvent, PipelineReport, PipelineRequest, SessionFiles,
    WindowsWorkerRunner, WorkerLaunch, WorkerRunnerError, WORKER_JOB_ARGUMENT,
};
use snapdog_os_installer::worker::{
    validate_job_text, Platform, ProgressDestination, WorkerDrive, WorkerJob, WorkerPhase,
    WorkerProgress, WORKER_PROGRESS_SCHEMA_VERSION,
};

const SESSION: &str = "/tmp/session";

/// What is on disk, and what has happened.
#[derive(Default)]
struct World {
    files: Vec<(String, Vec<u8>)>,
    markers: Vec<String>,
    downloaded: bool,
    job: Option<WorkerJob>,
    launch: Option<WorkerLaunch>,
    saw_skip: bool,
    events: Vec<PipelineEvent>,
}

impl World {
    fn bytes(&self, path: &str) -> Option<Vec<u8>> {
        self.files
            .iter()
            .find(|(name, _)| name == path)
            .map(|(_, bytes)| bytes.clone())
    }
}

fn worker_progress(phase: WorkerPhase, message: Option<String>) -> WorkerProgress {
    WorkerProgress {
        schema_version: WORKER_PROGRESS_SCHEMA_VERSION,
        phase,
        bytes_processed: None,
        total_bytes: None,
        raw_sha256: None,
        verified: (phase == WorkerPhase::Completed).then_some(true),
        message,
    }
}

fn fixture() -> (Vec<u8>, Vec<u8>, PipelineRequest) {
    let raw = b"snapdog pipeline image".repeat(16_384);
    let mut encoder = GzEncoder::new(Vec::new(), Compression::default());
    encoder.write_all(&raw).unwrap();
    let archive = encoder.finish().unwrap();
    let request = PipelineRequest {
        image_url: "https://example.invalid/snapdog.img.gz".to_owned(),
        expected_compressed_sha256: Some(hex::encode(Sha256::digest(&archive))),
        expected_compressed_size: Some(archive.len() as u64),
        expected_raw_size: Some(raw.len() as u64),
        expected_raw_sha256: Some(hex::encode(Sha256::digest(&raw))),
        drive: WorkerDrive {
            id: "disk42".to_owned(),
            device: "/dev/disk42".to_owned(),
            capacity: raw.len() as u64 + 4096,
        },
        verify: true,
    };
    (archive, raw, request)
}

fn prepare(
    archive: &[u8],
    request: &PipelineRequest,
    events: &mut Vec<PipelineEvent>,
) -> (Vec<u8>, Result<PreparedImage, FlashError>) {
    let mut reader = GzDecoder::new(archive);
    let mut preparation = prepare_gzip(
        request.expected_raw_size,
        request.expected_raw_sha256.clone(),
    );
    let mut raw = Vec::new();
    let mut chunk = Vec::new();
    let mut event = AccessEvent::Done;
    loop {
        event = match preparation.step(&event, false) {
            PrepareAction::Read => {
                let mut buffer = vec![0_u8; BUFFER_SIZE];
                let count = reader.read(&mut buffer).unwrap();
                buffer.truncate(count);
                chunk = buffer;
                AccessEvent::Chunk(chunk.clone())
            }
            PrepareAction::Write(progress) => {
                raw.extend_from_slice(&chunk);
                events.push(PipelineEvent::Preparing(progress));
                AccessEvent::Done
            }
            PrepareAction::Flush => AccessEvent::Done,
            PrepareAction::Finish(image) => return (raw, Ok(image)),
            PrepareAction::Abandon(error) => return (Vec::new(), Err(error)),
        };
    }
}

/// Carries out a pipeline on files in memory, with a worker that does what it is told.
fn run(
    archive: &[u8],
    request: &PipelineRequest,
    control: &mut PipelineControl,
    world: &mut World,
    mut observe: impl FnMut(&PipelineEvent, &mut PipelineControl) -> Option<String>,
) -> Result<PipelineReport, PipelineError> {
    let mut run = run_pipeline(Platform::MacOs, request, control)?;
    let mut event = RunEvent::Directory(SESSION.to_owned());
    let mut script: Vec<WorkerProgress> = Vec::new();
    loop {
        event = match run.step(event, control) {
            RunAction::CreateDirectory => RunEvent::Directory(SESSION.to_owned()),
            RunAction::Download {
                url,
                destination,
                expected_sha256,
                expected_size,
            } => {
                assert_eq!(url, request.image_url);
                assert_eq!(expected_sha256, request.expected_compressed_sha256);
                assert_eq!(expected_size, request.expected_compressed_size);
                world.downloaded = true;
                world
                    .events
                    .push(PipelineEvent::Download(DownloadProgress {
                        downloaded: 0,
                        total: Some(archive.len() as u64),
                    }));
                world.files.push((destination.clone(), archive.to_vec()));
                RunEvent::Downloaded(DownloadReport {
                    destination,
                    bytes_downloaded: archive.len() as u64,
                    sha256: hex::encode(Sha256::digest(archive)),
                })
            }
            RunAction::Prepare {
                archive: from,
                raw: to,
                expected_size,
                expected_sha256,
            } => {
                assert_eq!(expected_size, request.expected_raw_size);
                assert_eq!(expected_sha256, request.expected_raw_sha256);
                let bytes = world.bytes(&from).unwrap();
                let (raw, result) = prepare(&bytes, request, &mut world.events);
                match result {
                    Ok(image) => {
                        world.files.push((to, raw));
                        RunEvent::Prepared(image)
                    }
                    Err(error) => RunEvent::PreparationFailed(error),
                }
            }
            RunAction::SyncRaw(path) => {
                assert!(world.bytes(&path).is_some());
                RunEvent::Done
            }
            RunAction::CreateProgress(path) => {
                world.files.push((path, Vec::new()));
                RunEvent::Done
            }
            RunAction::WriteJob { path, job } => {
                world.files.push((path, b"{}".to_vec()));
                world.job = Some(job);
                RunEvent::Done
            }
            RunAction::CreateMarkers(due) => {
                world.markers.extend(due.cancel);
                world.markers.extend(due.skip_verification);
                RunEvent::Done
            }
            RunAction::Launch(launch) => {
                world.events.push(PipelineEvent::AwaitingAuthorization);
                let job = world.job.as_ref().unwrap();
                assert_eq!(world.bytes(&job.raw_path).unwrap().len() as u64, job.raw_size);
                assert!(world.bytes(&launch.progress_path).is_some());
                assert_eq!(
                    job.cancel_path.as_deref(),
                    Some(launch.cancel_path.as_str())
                );
                assert_eq!(
                    job.skip_verification_path.as_deref(),
                    Some(launch.skip_verification_path.as_str())
                );
                world.launch = Some(launch);
                script = vec![
                    worker_progress(WorkerPhase::Completed, None),
                    worker_progress(WorkerPhase::Verifying, None),
                    worker_progress(WorkerPhase::Writing, None),
                ];
                RunEvent::Progress(script.pop().unwrap())
            }
            RunAction::Relay(progress) => {
                let relayed = PipelineEvent::Worker(progress);
                world.markers.extend(observe(&relayed, control));
                world.events.push(relayed);
                let skip = &world.launch.as_ref().unwrap().skip_verification_path;
                world.saw_skip = world.markers.contains(skip);
                match script.pop() {
                    Some(progress) => RunEvent::Progress(progress),
                    None => RunEvent::Ended(Ok(())),
                }
            }
            RunAction::Finish(report) => {
                world.files.clear();
                return Ok(report);
            }
            RunAction::Fail(error) => {
                world.files.clear();
                return Err(error);
            }
        };
    }
}

#[test]
fn orchestrates_files_and_removes_temporary_directory() {
    let (archive, raw, request) = fixture();
    let mut control = PipelineControl::default();
    let mut world = World::default();

    let report = run(&archive, &request, &mut control, &mut world, |_, _| None).unwrap();

    assert!(world.downloaded);
    assert_eq!(report.raw_size, raw.len() as u64);
    assert_eq!(report.raw_sha256, hex::encode(Sha256::digest(&raw)));
    let job = world.job.as_ref().unwrap();
    assert_eq!(job.raw_size, raw.len() as u64);
    assert_eq!(job.expected_raw_sha256, report.raw_sha256);
    assert!(world.files.is_empty());
    assert!(matches!(
        world.events.first(),
        Some(PipelineEvent::Download(_))
    ));
    assert!(world.events.iter().any(|event| matches!(
        event,
        PipelineEvent::Preparing(FlashProgress { processed, .. }) if *processed > 0
    )));
    assert!(matches!(
        world.events.last(),
        Some(PipelineEvent::Worker(WorkerProgress {
            phase: WorkerPhase::Completed,
            ..
        }))
    ));
}

#[test]
fn cancel_before_start_never_calls_downloader_or_runner() {
    let (archive, _raw, request) = fixture();
    let mut control = PipelineControl::default();
    assert!(control.cancel().is_none());
    let mut world = World::default();

    let result = run(&archive, &request, &mut control, &mut world, |_, _| None);

    assert!(matches!(result, Err(PipelineError::Cancelled)));
    assert!(!world.downloaded);
    assert!(world.job.is_none());
}

#[test]
fn skip_control_creates_worker_marker() {
    let (archive, _raw, request) = fixture();
    let mut control = PipelineControl::default();
    let mut world = World::default();

    run(
        &archive,
        &request,
        &mut control,
        &mut world,
        |event, control| {
            if matches!(
                event,
                PipelineEvent::Worker(WorkerProgress {
                    phase: WorkerPhase::Verifying,
                    ..
                })
            ) {
                control.skip_verification()
            } else {
                None
            }
        },
    )
    .unwrap();

    assert!(world.saw_skip);
}

#[test]
fn target_size_is_checked_before_worker_launch() {
    let (archive, raw, mut request) = fixture();
    request.drive.capacity = raw.len() as u64 - 1;
    let mut world = World::default();

    let result = run(
        &archive,
        &request,
        &mut PipelineControl::default(),
        &mut world,
        |_, _| None,
    );

    assert!(matches!(result, Err(PipelineError::TargetTooSmall { .. })));
    assert!(world.job.is_none());
}

#[test]
fn request_made_early_has_its_marker_created_later() {
    let (archive, _raw, request) = fixture();
    let mut control = PipelineControl::default();
    assert!(control.skip_verification().is_none());
    assert!(control.is_verification_skipped());
    let mut world = World::default();
    run(&archive, &request, &mut control, &mut world, |_, _| None).unwrap();
    assert_eq!(world.markers, ["/tmp/session/skip-verification"]);
}

#[test]
fn cancellation_during_the_worker_wins() {
    let (archive, _raw, request) = fixture();
    let mut control = PipelineControl::default();
    let mut world = World::default();
    let result = run(
        &archive,
        &request,
        &mut control,
        &mut world,
        |_, control| control.cancel(),
    );
    assert!(matches!(result, Err(PipelineError::Cancelled)));
    assert!(control.is_cancelled());
    assert_eq!(world.markers[0], "/tmp/session/cancel");
}

#[test]
fn control_runs_one_operation_at_a_time() {
    let (_, _, request) = fixture();
    let mut control = PipelineControl::default();
    let first = run_pipeline(Platform::Linux, &request, &mut control);
    assert!(first.is_ok());
    assert!(matches!(
        run_pipeline(Platform::Linux, &request, &mut control),
        Err(PipelineError::AlreadyRunning)
    ));
    control.end();
    assert!(run_pipeline(Platform::Linux, &request, &mut control).is_ok());
}

#[test]
fn session_files_are_members_of_the_session() {
    let files = SessionFiles::within(Platform::MacOs, "/tmp/x");
    assert_eq!(files.archive, "/tmp/x/snapdog-os.img.gz");
    assert_eq!(files.raw, "/tmp/x/snapdog-os.img");
    assert_eq!(files.job, "/tmp/x/worker-job.json");
    assert_eq!(files.progress, "/tmp/x/worker-progress.jsonl");
    assert_eq!(
        files.macos_target_socket.as_deref(),
        Some("/tmp/x/authorized-target.sock")
    );
    let files = SessionFiles::within(Platform::Windows, r"C:\Temp\x");
    assert_eq!(files.cancel, r"C:\Temp\x\cancel");
    assert_eq!(files.macos_target_socket, None);
}

#[test]
fn written_job_is_accepted_by_the_worker() {
    let (_, _, mut request) = fixture();
    request.drive.id = "sdz@4242".to_owned();
    request.drive.device = "/dev/sdz".to_owned();
    let prepared = PreparedImage {
        bytes: 4096,
        raw_sha256: "ab".repeat(32),
    };
    let files = SessionFiles::within(Platform::Linux, "/tmp/x");
    let job = build_worker_job(&request, &prepared, &files);
    assert!(validate_job_text(Platform::Linux, &job).is_ok());
    assert_eq!(
        job.progress,
        ProgressDestination::File {
            path: "/tmp/x/worker-progress.jsonl".to_owned()
        }
    );
    assert_eq!(job.expected_raw_sha256, "ab".repeat(32));
    assert!(ensure_target_capacity(&prepared, &request.drive).is_ok());
}

#[test]
fn written_windows_job_is_accepted_by_the_elevated_worker() {
    let (_, _, mut request) = fixture();
    request.drive.id = format!(r"\\.\PHYSICALDRIVE42@{}", "a".repeat(64));
    request.drive.device = r"\\.\PHYSICALDRIVE42".to_owned();
    let prepared = PreparedImage {
        bytes: 4096,
        raw_sha256: "ab".repeat(32),
    };
    for directory in [r"C:\Temp\x", r"C:\Temp\x\", "c:/Temp/x"] {
        let files = SessionFiles::within(Platform::Windows, directory);
        let job = build_worker_job(&request, &prepared, &files);
        assert!(validate_job_text(Platform::Windows, &job).is_ok());
        assert!(job.raw_path.ends_with("snapdog-os.img"));
    }
}

#[test]
fn cancelled_parts_cancel_the_pipeline() {
    assert!(matches!(
        map_download_error(DownloadError::Cancelled),
        PipelineError::Cancelled
    ));
    assert!(matches!(
        map_download_error(DownloadError::ChecksumMismatch),
        PipelineError::Download(DownloadError::ChecksumMismatch)
    ));
    assert!(matches!(
        map_preparation_error(FlashError::Cancelled),
        PipelineError::Cancelled
    ));
    assert!(matches!(
        map_preparation_error(FlashError::RawSize),
        PipelineError::Preparation(FlashError::RawSize)
    ));
}

#[test]
fn work_is_judged_by_its_last_event() {
    assert_eq!(
        judge_work(&Some(worker_progress(WorkerPhase::Completed, None))).unwrap(),
        true
    );
    let mut silent = worker_progress(WorkerPhase::Completed, None);
    silent.verified = None;
    assert!(matches!(
        judge_work(&Some(silent)),
        Err(PipelineError::MissingTerminalEvent)
    ));
    assert!(matches!(
        judge_work(&Some(worker_progress(WorkerPhase::Cancelled, None))),
        Err(PipelineError::Cancelled)
    ));
    assert_eq!(
        judge_work(&Some(worker_progress(WorkerPhase::Failed, None)))
            .unwrap_err()
            .message(),
        "the isolated writer failed: unknown worker failure"
    );
    assert_eq!(
        judge_work(&Some(worker_progress(
            WorkerPhase::Failed,
            Some("card removed".to_owned())
        )))
        .unwrap_err()
        .message(),
        "the isolated writer failed: card removed"
    );
    assert_eq!(
        judge_work(&None).unwrap_err().message(),
        "the isolated writer exited without a terminal progress event"
    );
}

#[test]
fn failures_are_reported_with_their_causes() {
    let (_, _, request) = fixture();
    let start = |control: &mut PipelineControl| {
        run_pipeline(Platform::Linux, &request, control).unwrap()
    };
    let mut control = PipelineControl::default();
    let mut run = start(&mut control);
    match run.step(RunEvent::Failed("disk full".to_owned()), &mut control) {
        RunAction::Fail(error) => assert_eq!(
            error.message(),
            "pipeline file operation failed: disk full"
        ),
        _ => panic!("the pipeline fails"),
    }
    let mut run = start(&mut control);
    run.step(RunEvent::Directory(SESSION.to_owned()), &mut control);
    let failed = RunEvent::DownloadFailed(DownloadError::ChecksumMismatch);
    assert!(matches!(
        run.step(failed, &mut control),
        RunAction::Fail(PipelineError::Download(_))
    ));
    assert_eq!(
        PipelineError::Control(PipelineControlError::Io("denied".to_owned())).message(),
        "could not write a pipeline control marker: denied"
    );
    assert_eq!(
        PipelineError::Control(PipelineControlError::Unavailable).message(),
        "pipeline control is unavailable"
    );
    assert_eq!(
        PipelineError::Serialization("bad".to_owned()).message(),
        "could not serialize the isolated writer job: bad"
    );
    assert_eq!(
        PipelineError::TargetTooSmall {
            image_size: 5,
            target_size: 4
        }
        .message(),
        "the prepared image requires 5 bytes but the target has 4"
    );
    assert_eq!(
        PipelineError::Runner(WorkerRunnerError::AuthorizationDenied).message(),
        "administrator authorization was cancelled or denied"
    );
    assert_eq!(
        WorkerRunnerError::Failed {
            status: "exit status: 1".to_owned(),
            message: "no".to_owned()
        }
        .message(),
        "worker process failed with status exit status: 1: no"
    );
    assert_eq!(
        WorkerRunnerError::Unsupported.message(),
        "an isolated writer runner is not implemented on this platform"
    );
}

#[test]
fn explicit_paths_are_retained_without_command_construction() {
    let runner = LinuxWorkerRunner::with_paths(
        "/opt/snapdog/snapdog-os-installer".to_owned(),
        "/unused/compatibility-argument".to_owned(),
    );
    assert_eq!(runner.executable, "/opt/snapdog/snapdog-os-installer");
    assert_eq!(
        MacOsWorkerRunner::with_bundle("/Applications/A.app".to_owned()).executable(),
        "/Applications/A.app/Contents/MacOS/SnapDog OS Installer"
    );
    assert_eq!(
        WindowsWorkerRunner::with_executable(r"C:\a.exe".to_owned()).executable,
        r"C:\a.exe"
    );
    assert_eq!(WORKER_JOB_ARGUMENT, "--worker-job");
}

fn prepared(bytes: u64, raw_sha256: &str) -> RunEvent {
    RunEvent::Prepared(PreparedImage {
        bytes,
        raw_sha256: raw_sha256.to_owned(),
    })
}

fn downloaded(bytes_downloaded: u64, sha256: &str) -> RunEvent {
    RunEvent::Downloaded(DownloadReport {
        destination: "/tmp/session/snapdog-os.img.gz".to_owned(),
        bytes_downloaded,
        sha256: sha256.to_owned(),
    })
}

fn expecting(digest: &str) -> PipelineRequest {
    let (_, _, request) = fixture();
    PipelineRequest {
        expected_compressed_size: Some(7),
        expected_compressed_sha256: Some(digest.to_owned()),
        expected_raw_size: Some(9),
        expected_raw_sha256: Some(digest.to_uppercase()),
        ..request
    }
}

#[test]
fn report_of_the_downloader_is_taken_as_it_is() {
    let wanted = "ab".repeat(32);
    let request = expecting(&wanted);
    for event in [downloaded(6, &wanted), downloaded(7, "another digest")] {
        let mut control = PipelineControl::default();
        let mut run = run_pipeline(Platform::Linux, &request, &mut control).unwrap();
        match run.step(RunEvent::Directory(SESSION.to_owned()), &mut control) {
            RunAction::Download {
                expected_sha256,
                expected_size,
                ..
            } => {
                assert_eq!(expected_sha256.as_deref(), Some(wanted.as_str()));
                assert_eq!(expected_size, Some(7));
            }
            other => panic!("unexpected {other:?}"),
        }
        assert!(matches!(
            run.step(event, &mut control),
            RunAction::Prepare { .. }
        ));
    }
}

#[test]
fn another_image_than_expected_is_refused() {
    let wanted = "ab".repeat(32);
    let other = "cd".repeat(32);
    let request = expecting(&wanted);
    for (event, fault) in [
        (prepared(8, &wanted), Some(FlashError::RawSize)),
        (prepared(9, &other), Some(FlashError::Verification)),
        (prepared(9, &wanted), None),
    ] {
        let mut control = PipelineControl::default();
        let mut run = run_pipeline(Platform::Linux, &request, &mut control).unwrap();
        run.step(RunEvent::Directory(SESSION.to_owned()), &mut control);
        assert!(matches!(
            run.step(downloaded(7, &wanted), &mut control),
            RunAction::Prepare {
                expected_size: Some(9),
                ..
            }
        ));
        match (run.step(event, &mut control), fault) {
            (RunAction::Fail(PipelineError::Preparation(error)), Some(fault)) => {
                assert_eq!(error.message(), fault.message());
            }
            (RunAction::SyncRaw(path), None) => assert_eq!(path, "/tmp/session/snapdog-os.img"),
            (other, _) => panic!("unexpected {other:?}"),
        }
    }
}

#[test]
fn one_operation_runs_at_a_time_and_requests_outlive_it() {
    let mut control = PipelineControl::default();
    assert!(control.skip_verification().is_none());
    assert!(!control.is_cancelled());
    assert!(control.begin().is_ok());
    assert!(matches!(
        control.begin(),
        Err(PipelineError::AlreadyRunning)
    ));
    control.register_markers("/s/cancel", "/s/skip");
    assert_eq!(control.cancel().as_deref(), Some("/s/cancel"));
    control.end();
    assert!(control.is_cancelled());
    assert!(control.is_verification_skipped());
    assert!(control.cancel().is_none());
    assert!(control.begin().is_ok());
}
