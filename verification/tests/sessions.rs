use snapdog_os_installer::drives::macos::split_stable_identifier;
use snapdog_os_installer::macos_native::DiskRecord;
use snapdog_os_installer::worker::macos::{
    look_up, raw_device, validate_authorized_descriptor, validate_response, validate_target, LookupAction,
    MacAction, MacEvent, MacOperation, MacRun, RawNodeFacts, TargetLookup,
};
use snapdog_os_installer::worker::session::{
    valid_session_parent, FileFacts, LookFailure, PreflightAction, SessionEvent,
};
use snapdog_os_installer::worker::windows_paths::{
    is_absolute, is_clean_windows_absolute_path, is_local_member_path, lies_in_directory,
    member_path,
    windows_local_disk,
};
use snapdog_os_installer::worker::windows_session::{
    validate_windows_metadata, WindowsFileFacts, WindowsPreflightAction, WindowsSessionEvent,
};
use snapdog_os_installer::worker::{
    run_linux_worker, run_macos_worker, run_windows_worker, Platform, ProgressDestination,
    RawDeviceGate, UserIdOutput, WorkerDrive, WorkerEnvironment, WorkerError, WorkerJob,
    WORKER_JOB_SCHEMA_VERSION,
};

const DIRECTORY: &str = "/tmp/session";

fn member(name: &str) -> String {
    format!("{DIRECTORY}/{name}")
}

fn linux_gate() -> RawDeviceGate {
    RawDeviceGate::from_environment(&WorkerEnvironment::Linux {
        user_id: Some(UserIdOutput {
            success: true,
            stdout: b"0\n".to_vec(),
        }),
    })
    .unwrap()
}

fn arguments(path: &str) -> Vec<String> {
    vec![
        "installer".to_owned(),
        "--worker-job".to_owned(),
        path.to_owned(),
        "--worker-job-sha256".to_owned(),
        "a".repeat(64),
    ]
}

fn job() -> WorkerJob {
    WorkerJob {
        schema_version: WORKER_JOB_SCHEMA_VERSION,
        drive: WorkerDrive {
            id: "sdz@4242".to_owned(),
            device: "/dev/sdz".to_owned(),
            capacity: 4096,
        },
        raw_path: member("snapdog-os.img"),
        raw_size: 13,
        verify: true,
        expected_raw_sha256: "a".repeat(64),
        progress: ProgressDestination::File {
            path: member("worker-progress.jsonl"),
        },
        cancel_path: Some(member("cancel")),
        skip_verification_path: Some(member("skip-verification")),
        macos_target_socket: None,
    }
}

fn file(length: u64) -> FileFacts {
    FileFacts {
        is_symlink: false,
        is_dir: false,
        is_file: true,
        is_socket: false,
        uid: 1000,
        mode: 0o100_600,
        device: 1,
        inode: 10 + length,
        links: 1,
        length,
    }
}

fn directory(mode: u32, uid: u32, inode: u64) -> FileFacts {
    FileFacts {
        is_symlink: false,
        is_dir: true,
        is_file: false,
        is_socket: false,
        uid,
        mode,
        device: 1,
        inode,
        links: 2,
        length: 4096,
    }
}

/// What lies at a path of a sound session.
fn look(path: &str) -> Result<FileFacts, LookFailure> {
    match path {
        "/tmp" => Ok(directory(0o041_777, 0, 2)),
        "/tmp/session" => Ok(directory(0o040_700, 1000, 3)),
        "/tmp/session/snapdog-os.img" => Ok(file(13)),
        "/tmp/session/worker-job.json" => Ok(file(2)),
        "/tmp/session/worker-progress.jsonl" => Ok(file(0)),
        _ => Err(LookFailure::NotFound("no such file".to_owned())),
    }
}

fn preflight(
    job: &WorkerJob,
    look: impl Fn(&str) -> Result<FileFacts, LookFailure>,
) -> Result<(), WorkerError> {
    let (mut run, mut action) = run_linux_worker(
        job,
        linux_gate(),
        &arguments("/tmp/session/worker-job.json"),
    );
    loop {
        let event = match action {
            PreflightAction::Look(path) => SessionEvent::Looked(look(&path)),
            PreflightAction::OpenProgress(path) => SessionEvent::Opened(match look(&path) {
                Ok(facts) => Ok((facts, facts)),
                Err(failure) => Err(failure.cause().to_owned()),
            }),
            PreflightAction::TruncateProgress => SessionEvent::Truncated(Ok(())),
            PreflightAction::Start => return Ok(()),
            PreflightAction::Fail(error) => return Err(error),
        };
        action = run.step(&event);
    }
}

#[test]
fn sound_session_is_accepted() {
    assert!(preflight(&job(), look).is_ok());
}

#[test]
fn progress_file_must_already_be_regular_file() {
    let result = preflight(&job(), |path| match path {
        "/tmp/session/worker-progress.jsonl" => {
            Err(LookFailure::NotFound("no such file".to_owned()))
        }
        other => look(other),
    });
    assert!(result.is_err());
    let result = preflight(&job(), |path| match path {
        "/tmp/session/worker-progress.jsonl" => Ok(directory(0o040_700, 1000, 9)),
        other => look(other),
    });
    assert!(result.is_err());
}

#[test]
fn privileged_session_rejects_progress_outside_its_private_directory() {
    let mut job = job();
    job.progress = ProgressDestination::File {
        path: "/tmp/outside".to_owned(),
    };
    assert!(matches!(
        preflight(&job, look),
        Err(WorkerError::InvalidJob(_))
    ));
}

#[test]
fn privileged_session_rejects_multiply_linked_progress_file() {
    let result = preflight(&job(), |path| match path {
        "/tmp/session/worker-progress.jsonl" => {
            let mut facts = file(0);
            facts.links = 2;
            Ok(facts)
        }
        other => look(other),
    });
    assert!(matches!(result, Err(WorkerError::InvalidJob(_))));
}

#[test]
fn session_is_refused_for_each_unsafe_part() {
    for (part, facts) in [
        ("/tmp/session", directory(0o040_755, 1000, 3)),
        ("/tmp", directory(0o040_777, 0, 2)),
        ("/tmp/session/snapdog-os.img", file(14)),
        ("/tmp/session/cancel", directory(0o040_700, 1000, 9)),
    ] {
        let result = preflight(&job(), |path| if path == part { Ok(facts) } else { look(path) });
        assert!(matches!(result, Err(WorkerError::InvalidJob(_))));
    }
    let mut stdout = job();
    stdout.progress = ProgressDestination::Stdout;
    assert!(preflight(&stdout, look).is_err());
    let mut unnamed = job();
    unnamed.cancel_path = None;
    assert!(preflight(&unnamed, look).is_err());
}

#[test]
fn session_parents_are_sticky_or_private() {
    let allowed = |platform: Platform, mode: u32, uid: u32| {
        valid_session_parent(platform, &directory(mode, uid, 2), 1000)
    };
    assert!(allowed(Platform::Linux, 0o041_777, 0));
    assert!(!allowed(Platform::Linux, 0o040_777, 0));
    assert!(allowed(Platform::Linux, 0o040_700, 1000));
    assert!(!allowed(Platform::Linux, 0o040_700, 1001));
}

#[test]
fn macos_worker_needs_an_authorized_target() {
    let gate = RawDeviceGate::from_environment(&WorkerEnvironment::MacOs {
        opt_in: Some("YES-I-UNDERSTAND".to_owned()),
    })
    .unwrap();
    let job = job();
    let (_, action) = run_macos_worker(&job, gate, &arguments("/tmp/session/worker-job.json"));
    assert!(matches!(
        action,
        PreflightAction::Fail(WorkerError::InvalidJob(_))
    ));
}

#[test]
fn target_lookup_tolerates_a_transient_registry_gap() {
    let expected = WorkerDrive {
        id: "disk21@4242".to_owned(),
        device: "/dev/disk21".to_owned(),
        capacity: 63_864_569_856,
    };
    let mut attempts = 0;
    let mut lookup = TargetLookup::new();
    let found = loop {
        attempts += 1;
        let looked = Ok((attempts == 3).then_some(expected.clone()));
        match lookup.step(&looked) {
            LookupAction::Retry => (),
            LookupAction::Settled(found) => break found,
            LookupAction::Fail(error) => panic!("{}", error.message()),
        }
    };
    assert_eq!(found, Some(expected));
    assert_eq!(attempts, 3);
}

#[test]
fn target_lookup_gives_up_in_the_end() {
    let mut lookup = TargetLookup::new();
    let mut attempts = 1;
    while matches!(lookup.step(&Ok(None)), LookupAction::Retry) {
        attempts += 1;
    }
    assert_eq!(attempts, 25);
}

#[test]
fn registry_entry_must_be_the_selected_one() {
    let record = |entry: u64| DiskRecord {
        bsd_name: "disk21".to_owned(),
        name: Some("Card".to_owned()),
        registry_entry_id: entry,
        size: 4096,
        whole: true,
        writable: true,
        removable: true,
        ejectable: true,
        physical: true,
    };
    let selected = WorkerDrive {
        id: "disk21@4242".to_owned(),
        device: "/dev/disk21".to_owned(),
        capacity: 4096,
    };
    assert!(split_stable_identifier(&selected.id).is_some());
    let found = look_up(&selected, &Ok(vec![record(4242)])).unwrap();
    assert_eq!(found.as_ref(), Some(&selected));
    assert_eq!(validate_target(&selected, found).unwrap(), selected);
    assert!(look_up(&selected, &Ok(vec![record(4243)])).unwrap().is_none());
    assert!(matches!(
        validate_target(&selected, None),
        Err(WorkerError::TargetMissing)
    ));
}

#[test]
fn authorized_descriptor_is_the_raw_device() {
    let node = |inode: u64| RawNodeFacts {
        is_char_device: true,
        device: 1,
        inode,
        rdev: 5,
    };
    assert!(validate_authorized_descriptor(&Ok(node(1)), &Ok(node(1))).is_ok());
    assert!(validate_authorized_descriptor(&Ok(node(1)), &Ok(node(2))).is_err());
    assert!(validate_response(&b"SNAPDOG_TARGET_FD_RESPONSE_V1\n".to_vec(), 1).is_ok());
    assert!(validate_response(&b"SNAPDOG_TARGET_FD_RESPONSE_V1\n".to_vec(), 0).is_err());
    assert!(validate_response(&b"x".to_vec(), 1).is_err());
}

#[test]
fn macos_target_is_validated_before_it_is_ejected() {
    let selected = WorkerDrive {
        id: "disk21@4242".to_owned(),
        device: "/dev/disk21".to_owned(),
        capacity: 4096,
    };
    let (mut run, mut action) = MacRun::start(MacOperation::Eject, &selected);
    let mut disks = Vec::new();
    loop {
        let event = match action {
            MacAction::Validate => MacEvent::Target(Ok(selected.clone())),
            MacAction::Disk(_, disk) => {
                disks.push(disk);
                MacEvent::Done(Ok(()))
            }
            MacAction::Finish => break,
            MacAction::Fail(error) => panic!("{}", error.message()),
        };
        action = run.step(&event);
    }
    assert_eq!(disks.last().map(String::as_str), Some("disk21"));
    let (mut run, _) = MacRun::start(MacOperation::Eject, &selected);
    assert!(matches!(
        run.step(&MacEvent::Target(Err(WorkerError::TargetMissing))),
        MacAction::Fail(WorkerError::TargetMissing)
    ));
}

fn windows_facts(length: u64) -> WindowsFileFacts {
    WindowsFileFacts {
        is_symlink: false,
        is_dir: false,
        is_file: true,
        attributes: 0x20,
        length,
    }
}

fn windows_job() -> WorkerJob {
    let inside = |name: &str| format!(r"C:\Temp\session\{name}");
    WorkerJob {
        schema_version: WORKER_JOB_SCHEMA_VERSION,
        drive: WorkerDrive {
            id: format!(r"\\.\PHYSICALDRIVE42@{}", "a".repeat(64)),
            device: r"\\.\PHYSICALDRIVE42".to_owned(),
            capacity: 4096,
        },
        raw_path: inside("snapdog-os.img"),
        raw_size: 13,
        verify: true,
        expected_raw_sha256: "a".repeat(64),
        progress: ProgressDestination::File {
            path: inside("worker-progress.jsonl"),
        },
        cancel_path: Some(inside("cancel")),
        skip_verification_path: Some(inside("skip-verification")),
        macos_target_socket: None,
    }
}

fn windows_preflight(job: &WorkerJob, fixed: bool, same: bool) -> Result<(), WorkerError> {
    let mut arguments = arguments(r"C:\Temp\session\worker-job.json");
    arguments.push("--raw-device-opt-in".to_owned());
    arguments.push("YES-I-UNDERSTAND".to_owned());
    let gate = RawDeviceGate::from_environment(&WorkerEnvironment::Windows {
        arguments: arguments.clone(),
        elevated: Ok(true),
    })
    .unwrap();
    let look = |path: &str| -> Result<WindowsFileFacts, LookFailure> {
        let mut folder = windows_facts(0);
        folder.is_dir = true;
        folder.is_file = false;
        match path.rsplit('\\').next().unwrap() {
            "session" => Ok(folder),
            "snapdog-os.img" => Ok(windows_facts(13)),
            "worker-job.json" => Ok(windows_facts(2)),
            "worker-progress.jsonl" => Ok(windows_facts(0)),
            _ => Err(LookFailure::NotFound("no such file".to_owned())),
        }
    };
    let (mut run, mut action) = run_windows_worker(job, gate, &arguments);
    loop {
        let event = match action {
            WindowsPreflightAction::CheckDrive(_) => WindowsSessionEvent::Drive(fixed),
            WindowsPreflightAction::Look(path) => WindowsSessionEvent::Looked(look(&path)),
            WindowsPreflightAction::Pin(path) => {
                WindowsSessionEvent::Pinned(look(&path), Ok(()))
            }
            WindowsPreflightAction::Compare(path) => {
                WindowsSessionEvent::Compared(look(&path), Ok(same))
            }
            WindowsPreflightAction::OpenProgress(_) => {
                WindowsSessionEvent::Opened(Ok((windows_facts(0), Ok(true))))
            }
            WindowsPreflightAction::TruncateProgress => WindowsSessionEvent::Truncated(Ok(())),
            WindowsPreflightAction::Start => return Ok(()),
            WindowsPreflightAction::Fail(error) => return Err(error),
        };
        action = run.step(&event);
    }
}

#[test]
fn windows_session_is_local_and_stays_the_same() {
    assert!(windows_preflight(&windows_job(), true, true).is_ok());
    assert!(windows_preflight(&windows_job(), false, true).is_err());
    assert!(windows_preflight(&windows_job(), true, false).is_err());
    let mut outside = windows_job();
    outside.cancel_path = Some(r"C:\Temp\cancel".to_owned());
    assert!(windows_preflight(&outside, true, true).is_err());
}

#[test]
fn windows_paths_are_local_and_clean() {
    assert!(is_absolute(r"C:\a"));
    assert!(!is_absolute(r"C:a"));
    assert!(!is_absolute(r"a\b"));
    assert_eq!(windows_local_disk(r"c:\a"), Some('C'));
    assert_eq!(windows_local_disk(r"\\server\share\a"), None);
    assert!(is_clean_windows_absolute_path(r"C:\a\b"));
    assert!(!is_clean_windows_absolute_path(r"C:\a\..\b"));
    assert!(is_local_member_path(r"C:\a\cancel", r"C:\a", "cancel"));
    assert!(!is_local_member_path(r"C:\b\cancel", r"C:\a", "cancel"));
}

#[test]
fn windows_entries_are_plain() {
    assert!(validate_windows_metadata(&windows_facts(4), false, Some(4), false, "x").is_ok());
    let mut reparse = windows_facts(4);
    reparse.attributes = 0x400;
    assert!(validate_windows_metadata(&reparse, false, None, false, "x").is_err());
    assert!(validate_windows_metadata(&windows_facts(4), false, Some(5), false, "x").is_err());
    assert!(validate_windows_metadata(&windows_facts(4), true, None, false, "x").is_err());
    assert!(validate_windows_metadata(&windows_facts(4), false, None, true, "x").is_err());
}

#[test]
fn windows_member_paths_have_one_separator() {
    assert_eq!(member_path(r"C:\Temp", "cancel"), r"C:\Temp\cancel");
    assert_eq!(member_path(r"C:\Temp\", "cancel"), r"C:\Temp\cancel");
    assert_eq!(member_path("C:/Temp/", "cancel"), "C:/Temp/cancel");
    assert_eq!(member_path(r"\\?\C:\x/", "cancel"), r"\\?\C:\x/\cancel");
    assert_eq!(member_path("", "cancel"), "cancel");
    assert_eq!(member_path("C:", "cancel"), "C:cancel");
    for directory in [r"C:\Temp", r"c:\Temp\", "C:/Temp/x", r"\\?\C:\Temp", r"\\?\C:"] {
        assert!(is_local_member_path(
            &member_path(directory, "cancel"),
            directory,
            "cancel"
        ));
    }
}

#[test]
fn raw_device_belongs_to_the_disk() {
    assert_eq!(raw_device("disk4"), "/dev/rdisk4");
}

#[test]
fn macos_target_is_validated_after_it_is_opened() {
    let selected = WorkerDrive {
        id: "disk21@4242".to_owned(),
        device: "/dev/disk21".to_owned(),
        capacity: 4096,
    };
    let (mut run, action) = MacRun::start(MacOperation::Open, &selected);
    assert!(matches!(action, MacAction::Disk(_, _)));
    assert!(matches!(
        run.step(&MacEvent::Done(Ok(()))),
        MacAction::Validate
    ));
    let mut other = selected.clone();
    other.capacity += 1;
    assert!(matches!(
        run.step(&MacEvent::Target(Ok(other))),
        MacAction::Fail(WorkerError::TargetChanged)
    ));
}

#[test]
fn windows_job_outside_its_session_is_never_started() {
    let moved: [fn(&mut WorkerJob); 4] = [
        |job| job.raw_path = r"C:\Temp\other\snapdog-os.img".to_owned(),
        |job| job.skip_verification_path = None,
        |job| {
            job.progress = ProgressDestination::File {
                path: r"C:\Temp\session\progress.jsonl".to_owned(),
            }
        },
        |job| job.expected_raw_sha256 = "not a digest".to_owned(),
    ];
    for change in moved {
        let mut job = windows_job();
        change(&mut job);
        assert!(windows_preflight(&job, true, true).is_err());
    }
}

#[test]
fn windows_raw_image_needs_a_parent_directory() {
    for (path, reason) in [
        ("", "raw image has no parent directory"),
        (r"C:\", "raw image has no parent directory"),
        ("C:", "raw image has no parent directory"),
        (r"\", "raw image has no parent directory"),
        (r"\\server\share", "raw image has no parent directory"),
        (r"\\server\share\", "raw image has no parent directory"),
        (r"\\?\UNC\server\share", "raw image has no parent directory"),
        (r"\\.\PHYSICALDRIVE1", "raw image has no parent directory"),
        (r"\\?\volume", "raw image has no parent directory"),
        ("image", "session directory path is not canonical"),
        (".", "session directory path is not canonical"),
        ("C:image", "session directory path is not canonical"),
        ("C:.", "session directory path is not canonical"),
        (r"\image", "session directory path is not canonical"),
        (r"\\server\share\image", "session directory path is not canonical"),
        (r"\\?\UNC\server\share\image", "session directory path is not canonical"),
        (r"\\server\", "session directory path is not canonical"),
        (r"\\.\COM1\image", "session directory path is not canonical"),
        (r"\\?\volume\image", "session directory path is not canonical"),
        (r"C:\a\..\image", "session directory path is not canonical"),
    ] {
        let mut job = windows_job();
        job.raw_path = path.to_owned();
        let error = windows_preflight(&job, true, true).unwrap_err();
        assert_eq!(error.message(), format!("invalid worker job: {reason}"), "{path}");
        assert_eq!(
            lies_in_directory(path),
            reason == "session directory path is not canonical"
        );
    }
}
