use sha2::{Digest, Sha256};
use snapdog_os_installer::flash::{AccessEvent, FlashError, FlashReport, BUFFER_SIZE};
use snapdog_os_installer::worker::job::{JobAction, JobEvent, WorkerRun, STAGING_BUFFER_SIZE};
use snapdog_os_installer::worker::signals::{MarkerLookup, MarkerLooks};
use snapdog_os_installer::worker::staging::{OpenedIdentity, RawImageOpening};
use snapdog_os_installer::worker::windows_session::WindowsFileFacts;
use snapdog_os_installer::worker::{
    compare_drive, current_worker_job_path, preparation_error, valid_sha256, validate_job,
    Platform, ProgressDestination, RawDeviceGate, RawImageFacts, UserIdOutput,
    WorkerDrive, WorkerEnvironment, WorkerError, WorkerJob, WorkerPhase, WorkerProgress,
    RAW_DEVICE_OPT_IN_VALUE, WORKER_JOB_SCHEMA_VERSION,
};

#[derive(Clone, Copy, Debug, Eq, PartialEq)]
enum FailureMode {
    Nothing,
    SecondValidation,
    Unmount,
    VerificationBarrier,
}

/// A target in memory, the files around it, and what was done to them.
struct MemoryPlatform {
    current: WorkerDrive,
    raw: Vec<u8>,
    raw_is_symlink: bool,
    target: Vec<u8>,
    mutate_raw_after_staging: Option<Vec<u8>>,
    cancel: bool,
    cancel_when_writing: bool,
    skip_verification: bool,
    failure: FailureMode,
    sync_count: usize,
    validations: usize,
    unmounted: bool,
    ejected: bool,
    eject_fails: bool,
    events: Vec<WorkerProgress>,
}

impl MemoryPlatform {
    fn facts(&self) -> RawImageFacts {
        RawImageFacts {
            is_symlink: self.raw_is_symlink,
            is_file: true,
            length: self.raw.len() as u64,
        }
    }

    fn look(found: bool) -> MarkerLookup {
        if found {
            MarkerLookup::Found
        } else {
            MarkerLookup::NotFound
        }
    }
}

/// Carries a job out in memory.
fn run_and_report(
    job: &WorkerJob,
    platform: &mut MemoryPlatform,
) -> Result<FlashReport, WorkerError> {
    let done = || JobEvent::Access(AccessEvent::Done);
    let (mut run, mut action) = WorkerRun::start(Platform::Linux, job);
    let mut copy: Vec<u8> = Vec::new();
    let mut chunk: Vec<u8> = Vec::new();
    let (mut image_at, mut copy_at, mut target_at) = (0, 0, 0);
    loop {
        let event = match action {
            JobAction::InspectImage => JobEvent::Image(Ok(platform.facts())),
            JobAction::InspectMarkers => JobEvent::Markers(MarkerLooks {
                cancel: MemoryPlatform::look(platform.cancel),
                skip_verification: MemoryPlatform::look(platform.skip_verification),
            }),
            JobAction::Emit(progress) => {
                if platform.cancel_when_writing && progress.phase == WorkerPhase::Writing {
                    platform.cancel = true;
                }
                platform.events.push(progress);
                JobEvent::Emitted(Ok(()))
            }
            JobAction::OpenImage => JobEvent::Opened(RawImageOpening {
                path: Ok(platform.facts()),
                opened: Ok((
                    platform.facts(),
                    OpenedIdentity::Unix {
                        named: (1, 2),
                        found: (1, 2),
                    },
                )),
            }),
            JobAction::CreateCopy => {
                copy.clear();
                done()
            }
            JobAction::ReadImage => {
                let end = platform.raw.len().min(image_at + STAGING_BUFFER_SIZE);
                chunk = platform.raw[image_at..end].to_vec();
                image_at = end;
                JobEvent::Access(AccessEvent::Chunk(chunk.clone()))
            }
            JobAction::WriteCopy => {
                copy.extend_from_slice(&chunk);
                done()
            }
            JobAction::SyncCopy | JobAction::FlushTarget => done(),
            JobAction::RewindCopy => {
                copy_at = 0;
                done()
            }
            JobAction::CheckCopy => JobEvent::Platform(Ok(())),
            JobAction::ValidateTarget => {
                platform.validations += 1;
                if let Some(replacement) = platform.mutate_raw_after_staging.take() {
                    platform.raw = replacement;
                }
                if platform.failure == FailureMode::SecondValidation && platform.validations == 2 {
                    JobEvent::Target(Err(WorkerError::TargetMissing))
                } else {
                    JobEvent::Target(Ok(platform.current.clone()))
                }
            }
            JobAction::Unmount => {
                platform.unmounted = true;
                JobEvent::Platform(if platform.failure == FailureMode::Unmount {
                    Err(WorkerError::Platform("partial unmount failed".to_owned()))
                } else {
                    Ok(())
                })
            }
            JobAction::OpenTarget(_) => JobEvent::Platform(Ok(())),
            JobAction::MeasureCopy => JobEvent::Length(Ok(copy.len() as u64)),
            JobAction::RewindBoth => {
                copy_at = 0;
                target_at = 0;
                done()
            }
            JobAction::ReadCopy => {
                let end = copy.len().min(copy_at + BUFFER_SIZE);
                chunk = copy[copy_at..end].to_vec();
                copy_at = end;
                JobEvent::Access(AccessEvent::Chunk(chunk.clone()))
            }
            JobAction::WriteTarget => {
                platform.target[target_at..target_at + chunk.len()].copy_from_slice(&chunk);
                target_at += chunk.len();
                done()
            }
            JobAction::PrepareVerification => {
                platform.sync_count += 1;
                if platform.failure == FailureMode::VerificationBarrier {
                    JobEvent::Access(AccessEvent::Failed(
                        "injected verification barrier failure".to_owned(),
                    ))
                } else {
                    done()
                }
            }
            JobAction::RewindTarget => {
                target_at = 0;
                done()
            }
            JobAction::ReadTarget(most) => {
                let end = platform.target.len().min(target_at + most);
                let read = platform.target[target_at..end].to_vec();
                target_at = end;
                JobEvent::Access(AccessEvent::Chunk(read))
            }
            JobAction::AbandonTarget | JobAction::SyncTarget => {
                platform.sync_count += 1;
                done()
            }
            JobAction::Eject => {
                platform.ejected = true;
                JobEvent::Platform(if platform.eject_fails {
                    Err(WorkerError::Platform("the card is busy".to_owned()))
                } else {
                    Ok(())
                })
            }
            JobAction::Return(report) => return Ok(report),
            JobAction::Fail(error) => return Err(error),
        };
        action = run.step(&event);
    }
}

fn fixture() -> (WorkerJob, MemoryPlatform, Vec<u8>) {
    let payload = b"snapdog worker image".repeat(131_072);
    let drive = WorkerDrive {
        id: "sdz@4242".to_owned(),
        device: "/dev/sdz".to_owned(),
        capacity: payload.len() as u64 + 4096,
    };
    let job = WorkerJob {
        schema_version: WORKER_JOB_SCHEMA_VERSION,
        drive: drive.clone(),
        raw_path: "/session/image.img".to_owned(),
        raw_size: payload.len() as u64,
        verify: true,
        expected_raw_sha256: hex::encode(Sha256::digest(&payload)),
        progress: ProgressDestination::Stdout,
        cancel_path: None,
        skip_verification_path: None,
        macos_target_socket: None,
    };
    let platform = MemoryPlatform {
        current: drive,
        raw: payload.clone(),
        raw_is_symlink: false,
        target: vec![0; payload.len() + 4096],
        mutate_raw_after_staging: None,
        cancel: false,
        cancel_when_writing: false,
        skip_verification: false,
        failure: FailureMode::Nothing,
        sync_count: 0,
        validations: 0,
        unmounted: false,
        ejected: false,
        eject_fails: false,
        events: Vec::new(),
    };
    (job, platform, payload)
}

#[test]
fn file_backend_runs_full_flash_and_verification() {
    let (job, mut platform, payload) = fixture();

    let report = run_and_report(&job, &mut platform).unwrap();

    assert!(report.verified);
    assert_eq!(report.bytes_written, payload.len() as u64);
    assert_eq!(&platform.target[..payload.len()], payload);
    assert_eq!(platform.validations, 2);
    assert!(platform.unmounted);
    assert!(platform.ejected);
    assert_eq!(
        platform.events.last().unwrap().phase,
        WorkerPhase::Completed
    );
    assert!(platform
        .events
        .iter()
        .any(|event| event.phase == WorkerPhase::Writing));
    assert!(platform
        .events
        .iter()
        .any(|event| event.phase == WorkerPhase::Verifying));
}

#[test]
fn changed_drive_is_rejected_before_unmount() {
    let (job, mut platform, _payload) = fixture();
    platform.current.capacity += 1;

    let result = run_and_report(&job, &mut platform);

    assert!(matches!(result, Err(WorkerError::TargetChanged)));
    assert!(!platform.unmounted);
    assert!(!platform.ejected);
    assert_eq!(platform.events.last().unwrap().phase, WorkerPhase::Failed);
}

#[test]
fn failure_after_unmount_attempts_eject() {
    let (job, mut platform, _payload) = fixture();
    platform.failure = FailureMode::SecondValidation;

    let result = run_and_report(&job, &mut platform);

    assert!(matches!(result, Err(WorkerError::TargetMissing)));
    assert!(platform.unmounted);
    assert!(platform.ejected);
    assert_eq!(platform.validations, 2);
}

#[test]
fn partial_unmount_failure_attempts_eject() {
    let (job, mut platform, _payload) = fixture();
    platform.failure = FailureMode::Unmount;

    let result = run_and_report(&job, &mut platform);

    assert!(matches!(result, Err(WorkerError::Platform(_))));
    assert!(platform.unmounted);
    assert!(platform.ejected);
    assert_eq!(platform.validations, 1);
}

#[test]
fn verification_failure_syncs_target_before_cleanup() {
    let (job, mut platform, _payload) = fixture();
    platform.failure = FailureMode::VerificationBarrier;

    let result = run_and_report(&job, &mut platform);

    assert!(matches!(result, Err(WorkerError::Flash(_))));
    assert!(platform.sync_count >= 2);
    assert!(platform.ejected);
}

#[test]
fn cancellation_after_writing_starts_syncs_target_before_cleanup() {
    let (mut job, mut platform, _payload) = fixture();
    job.cancel_path = Some("/session/cancel-during-write".to_owned());
    platform.cancel_when_writing = true;

    let result = run_and_report(&job, &mut platform);

    assert!(matches!(result, Err(WorkerError::Cancelled)));
    assert!(platform.sync_count >= 1);
    assert!(platform.ejected);
    assert!(platform
        .events
        .iter()
        .any(|event| event.phase == WorkerPhase::Writing));
}

#[test]
fn existing_cancel_path_prevents_target_validation() {
    let (mut job, mut platform, _payload) = fixture();
    job.cancel_path = Some("/session/cancel".to_owned());
    platform.cancel = true;

    let result = run_and_report(&job, &mut platform);

    assert!(matches!(result, Err(WorkerError::Cancelled)));
    assert_eq!(platform.validations, 0);
    assert_eq!(
        platform.events.last().unwrap().phase,
        WorkerPhase::Cancelled
    );
}

#[test]
fn rejects_partition_identifier_and_bad_hash() {
    let (mut job, mut platform, _payload) = fixture();
    job.drive.id = "invalid/partition".to_owned();
    job.drive.device = "invalid/partition".to_owned();
    assert!(matches!(
        run_and_report(&job, &mut platform),
        Err(WorkerError::InvalidJob(_))
    ));

    let (mut job, mut platform, _payload) = fixture();
    job.expected_raw_sha256 = "not-a-hash".to_owned();
    assert!(matches!(
        run_and_report(&job, &mut platform),
        Err(WorkerError::InvalidJob(_))
    ));
}

#[test]
fn existing_skip_path_skips_readback_only() {
    let (mut job, mut platform, payload) = fixture();
    job.skip_verification_path = Some("/session/skip".to_owned());
    platform.skip_verification = true;

    let report = run_and_report(&job, &mut platform).unwrap();

    assert!(!report.verified);
    assert_eq!(&platform.target[..payload.len()], payload);
    assert!(!platform
        .events
        .iter()
        .any(|event| event.phase == WorkerPhase::Verifying));
}

#[test]
fn raw_hash_is_rechecked_before_target_validation() {
    let (mut job, mut platform, _payload) = fixture();
    platform.raw = b"changed after preparation".to_vec();
    job.raw_size = platform.raw.len() as u64;

    let result = run_and_report(&job, &mut platform);

    assert!(matches!(result, Err(WorkerError::Flash(_))));
    assert_eq!(platform.validations, 0);
    assert!(!platform.unmounted);
}

#[test]
fn staged_image_cannot_be_changed_through_the_original_path() {
    let (job, mut platform, payload) = fixture();
    let replacement = vec![b'X'; payload.len()];
    platform.mutate_raw_after_staging = Some(replacement.clone());

    let report = run_and_report(&job, &mut platform).unwrap();

    assert!(report.verified);
    assert_eq!(platform.raw, replacement);
    assert_eq!(&platform.target[..payload.len()], payload);
}

#[test]
fn raw_image_symlink_is_rejected_before_target_validation() {
    let (job, mut platform, _payload) = fixture();
    platform.raw_is_symlink = true;

    let result = run_and_report(&job, &mut platform);

    assert!(matches!(result, Err(WorkerError::InvalidJob(_))));
    assert_eq!(platform.validations, 0);
}

#[test]
fn oversized_raw_image_is_rejected_before_target_validation() {
    let (mut job, mut platform, _payload) = fixture();
    job.drive.capacity = job.raw_size - 1;
    platform.current.capacity = job.drive.capacity;

    let result = run_and_report(&job, &mut platform);

    assert!(matches!(result, Err(WorkerError::InvalidJob(_))));
    assert_eq!(platform.validations, 0);
}

#[test]
fn progress_counts_the_written_bytes() {
    let (job, mut platform, payload) = fixture();
    run_and_report(&job, &mut platform).unwrap();
    let last = platform
        .events
        .iter()
        .filter(|event| event.phase == WorkerPhase::Writing)
        .last()
        .unwrap();
    assert_eq!(last.bytes_processed, Some(payload.len() as u64));
    assert_eq!(last.total_bytes, Some(payload.len() as u64));
    let completed = platform.events.last().unwrap();
    assert_eq!(completed.verified, Some(true));
    assert_eq!(
        completed.raw_sha256.as_deref(),
        Some(job.expected_raw_sha256.as_str())
    );
}

#[test]
fn replaced_image_file_is_rejected() {
    let facts = RawImageFacts {
        is_symlink: false,
        is_file: true,
        length: 4,
    };
    let plain = WindowsFileFacts {
        is_symlink: false,
        is_dir: false,
        is_file: true,
        attributes: 0x20,
        length: 4,
    };
    let (mut job, _platform, _payload) = fixture();
    job.raw_size = 4;
    let windows = |same: bool| OpenedIdentity::Windows {
        path: Ok(plain),
        opened: plain,
        same: Ok(same),
    };
    let unix = |inode: u64| OpenedIdentity::Unix {
        named: (1, 2),
        found: (1, inode),
    };
    for (identity, accepted) in [
        (windows(true), true),
        (windows(false), false),
        (unix(2), true),
        (unix(3), false),
    ] {
        let opening = RawImageOpening {
            path: Ok(facts.clone()),
            opened: Ok((facts.clone(), identity)),
        };
        let result = snapdog_os_installer::worker::staging::open_raw_image(&job, &opening);
        assert_eq!(result.is_ok(), accepted);
    }
}

#[test]
fn drives_are_compared_field_by_field() {
    let (job, _platform, _payload) = fixture();
    assert!(compare_drive(&job.drive, &job.drive).is_ok());
    for change in [
        |drive: &mut WorkerDrive| drive.id.push('0'),
        |drive: &mut WorkerDrive| drive.device.push('0'),
        |drive: &mut WorkerDrive| drive.capacity -= 1,
    ] {
        let mut other = job.drive.clone();
        change(&mut other);
        assert!(matches!(
            compare_drive(&job.drive, &other),
            Err(WorkerError::TargetChanged)
        ));
    }
}

#[test]
fn digests_are_sixty_four_hex_digits() {
    assert!(valid_sha256(&"aF".repeat(32)));
    assert!(!valid_sha256(&"a".repeat(63)));
    assert!(!valid_sha256(&"g".repeat(64)));
}

#[test]
fn job_is_refused_for_each_fault() {
    let check = |change: fn(&mut WorkerJob)| {
        let (mut job, platform, _payload) = fixture();
        change(&mut job);
        validate_job(Platform::Linux, &job, &Ok(platform.facts()))
    };
    assert!(check(|_| ()).is_ok());
    for change in [
        |job: &mut WorkerJob| job.schema_version = 2,
        |job: &mut WorkerJob| job.raw_path = "image.img".to_owned(),
        |job: &mut WorkerJob| job.raw_size = 0,
        |job: &mut WorkerJob| job.raw_size += 1,
        |job: &mut WorkerJob| job.cancel_path = Some("cancel".to_owned()),
        |job: &mut WorkerJob| job.skip_verification_path = Some("skip".to_owned()),
        |job: &mut WorkerJob| {
            job.progress = ProgressDestination::File {
                path: "progress".to_owned(),
            }
        },
    ] {
        assert!(matches!(check(change), Err(WorkerError::InvalidJob(_))));
    }
}

#[test]
fn worker_starts_only_where_it_is_allowed() {
    let allowed = |environment: &WorkerEnvironment| RawDeviceGate::from_environment(environment);
    let mac = |value: Option<&str>| WorkerEnvironment::MacOs {
        opt_in: value.map(str::to_owned),
    };
    assert!(allowed(&mac(Some(RAW_DEVICE_OPT_IN_VALUE))).is_ok());
    assert!(matches!(
        allowed(&mac(Some("yes"))),
        Err(WorkerError::RawDeviceDisabled)
    ));
    assert!(allowed(&mac(None)).is_err());
    let linux = |success: bool, stdout: &str| WorkerEnvironment::Linux {
        user_id: Some(UserIdOutput {
            success,
            stdout: stdout.as_bytes().to_vec(),
        }),
    };
    assert!(allowed(&linux(true, "0\n")).is_ok());
    assert!(matches!(
        allowed(&linux(true, "1000\n")),
        Err(WorkerError::NotRoot)
    ));
    assert!(allowed(&linux(false, "0\n")).is_err());
    assert!(matches!(
        allowed(&WorkerEnvironment::Linux { user_id: None }),
        Err(WorkerError::Platform(_))
    ));
    let windows = |arguments: &[&str], elevated: bool| WorkerEnvironment::Windows {
        arguments: arguments.iter().map(|text| (*text).to_owned()).collect(),
        elevated: Ok(elevated),
    };
    let digest = "a".repeat(64);
    let all = [
        "installer.exe",
        "--worker-job",
        r"C:\session\worker-job.json",
        "--worker-job-sha256",
        digest.as_str(),
        "--raw-device-opt-in",
        "YES-I-UNDERSTAND",
    ];
    assert!(allowed(&windows(&all, true)).is_ok());
    assert!(allowed(&windows(&all, false)).is_err());
    assert!(allowed(&windows(&all[..5], true)).is_err());
}

#[test]
fn job_path_comes_from_exact_arguments() {
    let digest = "a".repeat(64);
    let arguments = |rest: &[&str]| -> Vec<String> {
        rest.iter().map(|text| (*text).to_owned()).collect()
    };
    let good = arguments(&[
        "installer",
        "--worker-job",
        "/session/worker-job.json",
        "--worker-job-sha256",
        &digest,
    ]);
    assert_eq!(
        current_worker_job_path(Platform::Linux, &good).unwrap(),
        "/session/worker-job.json"
    );
    assert!(current_worker_job_path(Platform::Windows, &good).is_err());
    assert!(current_worker_job_path(Platform::Linux, &arguments(&["installer"])).is_err());
}

#[test]
fn errors_have_their_messages() {
    for (error, message) in [
        (
            WorkerError::InvalidJob("x".to_owned()),
            "invalid worker job: x",
        ),
        (
            WorkerError::RawDeviceDisabled,
            "raw-device execution is not explicitly enabled",
        ),
        (
            WorkerError::NotRoot,
            "the privileged worker must run with administrator privileges",
        ),
        (
            WorkerError::TargetMissing,
            "the selected target is no longer available",
        ),
        (
            WorkerError::TargetChanged,
            "the selected target changed after selection",
        ),
        (
            WorkerError::UnsafeTarget,
            "the selected target is not a writable, whole removable physical disk",
        ),
        (
            WorkerError::Cancelled,
            "the flash operation was cancelled",
        ),
        (
            WorkerError::Progress("x".to_owned()),
            "progress output failed: x",
        ),
        (
            WorkerError::Platform("x".to_owned()),
            "platform operation failed: x",
        ),
    ] {
        assert_eq!(error.message(), message);
        assert_eq!(error.copy().message(), message);
    }
    assert!(matches!(
        preparation_error(WorkerError::Flash(FlashError::RawSize)),
        FlashError::RawSize
    ));
    assert!(matches!(
        preparation_error(WorkerError::TargetMissing),
        FlashError::Io(message) if message == "the selected target is no longer available"
    ));
}

#[test]
fn failed_eject_does_not_hide_why_the_job_failed() {
    let (job, mut platform, _payload) = fixture();
    platform.failure = FailureMode::VerificationBarrier;
    platform.eject_fails = true;

    let result = run_and_report(&job, &mut platform);

    assert!(platform.ejected);
    match result {
        Err(WorkerError::Flash(FlashError::Io(cause))) => {
            assert_eq!(cause, "injected verification barrier failure");
        }
        other => panic!("{other:?}"),
    }

    let (job, mut platform, _payload) = fixture();
    platform.eject_fails = true;
    assert!(matches!(
        run_and_report(&job, &mut platform),
        Err(WorkerError::Platform(_))
    ));
}
