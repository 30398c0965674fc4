use sha2::{Digest, Sha256};
use snapdog_os_installer::pipeline::command_line::{
    native_command_line, quote_native_argument, worker_arguments,
};
use snapdog_os_installer::pipeline::launch::{
    job_digest, validate_executable, validate_job_size, validate_pinned, validate_unpinned,
    FileIdentity, LaunchFacts, LaunchIdentity, PinAction, PinEvent, Pinning, MAX_WORKER_JOB_SIZE,
};
use snapdog_os_installer::pipeline::linux as linux_runner;
use snapdog_os_installer::pipeline::macos::{
    authopen_arguments, authorized_raw_target, bundle_for_executable, codesign_arguments,
    raw_device_path, validate_request, validate_sent, DescriptorMessage, HelperExit,
    AUTHOPEN_RAW_FLAGS, WORKER_RELATIVE_PATH, WORKER_REQUIREMENT,
};
use snapdog_os_installer::pipeline::monitor::{
    accept_stderr, stderr_message, Attempt, Monitor, MonitorEvent, MonitorTask, ProcessExit,
    MAX_HELPER_STDERR,
};
use snapdog_os_installer::pipeline::runner::{LaunchAction, LaunchEvent};
use snapdog_os_installer::pipeline::windows::{ElevatedAction, ElevatedEvent};
use snapdog_os_installer::pipeline::{
    LinuxWorkerRunner, MacOsWorkerRunner, WindowsWorkerRunner, WorkerLaunch, WorkerRunnerError,
    WORKER_JOB_ARGUMENT,
};
use snapdog_os_installer::reentry::{
    validate_job_bytes, validate_job_digest, validate_pinned_digest, validate_job_path, validate_opened_job,
    worker_job_path,
};
use snapdog_os_installer::worker::session::FileFacts;
use snapdog_os_installer::worker::windows_session::WindowsFileFacts;
use snapdog_os_installer::worker::{
    current_worker_job_path, Platform, RAW_DEVICE_OPT_IN, RAW_DEVICE_OPT_IN_VALUE,
};

fn wide(text: &str) -> Vec<u16> {
    text.encode_utf16().collect()
}

fn narrow(units: &[u16]) -> String {
    String::from_utf16(units).unwrap()
}

#[test]
fn native_argument_quoting_handles_spaces_quotes_and_trailing_slashes() {
    assert_eq!(
        narrow(&quote_native_argument(&wide(r"C:\safe path\job.json"))),
        r#""C:\safe path\job.json""#
    );
    assert_eq!(
        narrow(&quote_native_argument(&wide("a\\\"b\\"))),
        "\"a\\\\\\\"b\\\\\""
    );
    assert_eq!(
        narrow(&native_command_line(&vec![
            wide(WORKER_JOB_ARGUMENT),
            wide(r"C:\safe path\job.json")
        ])),
        r#""--worker-job" "C:\safe path\job.json""#
    );
    assert_eq!(narrow(&quote_native_argument(&wide(""))), "\"\"");
    assert!(native_command_line(&Vec::new()).is_empty());
}

#[test]
fn worker_accepts_the_arguments_it_is_launched_with() {
    let sha256 = "0a".repeat(32);
    for platform in [Platform::Linux, Platform::MacOs, Platform::Windows] {
        let path = if platform == Platform::Windows {
            r"C:\session\worker-job.json"
        } else {
            "/session/worker-job.json"
        };
        let mut arguments = vec!["installer".to_owned()];
        arguments.extend(worker_arguments(platform, path, &sha256));
        assert_eq!(
            current_worker_job_path(platform, &arguments).unwrap(),
            path
        );
        assert_eq!(
            worker_job_path(platform, &arguments).unwrap().as_deref(),
            Some(path)
        );
    }
}

fn arguments(rest: &[&str]) -> Vec<String> {
    let mut all = vec!["installer".to_owned()];
    all.extend(rest.iter().map(|text| (*text).to_owned()));
    all
}

#[test]
fn parses_only_exact_worker_reentry() {
    let path = worker_job_path(
        Platform::Linux,
        &arguments(&[WORKER_JOB_ARGUMENT, "/tmp/job.json"]),
    )
    .unwrap();
    assert_eq!(path.as_deref(), Some("/tmp/job.json"));
    assert!(worker_job_path(Platform::Linux, &arguments(&["--other"]))
        .unwrap()
        .is_none());
}

#[test]
fn rejects_incomplete_or_relative_worker_reentry() {
    assert!(worker_job_path(Platform::Linux, &arguments(&[WORKER_JOB_ARGUMENT])).is_err());
    assert!(worker_job_path(
        Platform::Linux,
        &arguments(&[WORKER_JOB_ARGUMENT, "relative.json"])
    )
    .is_err());
    assert_eq!(
        worker_job_path(
            Platform::Linux,
            &arguments(&[WORKER_JOB_ARGUMENT, "/tmp/job.json", "--extra"])
        )
        .unwrap_err(),
        "unexpected arguments after worker job path"
    );
    assert!(worker_job_path(Platform::Linux, &Vec::new())
        .unwrap()
        .is_none());
}

fn file_facts(length: u64, inode: u64) -> FileFacts {
    FileFacts {
        is_symlink: false,
        is_dir: false,
        is_file: true,
        is_socket: false,
        uid: 0,
        mode: 0o100_600,
        device: 1,
        inode,
        links: 1,
        length,
    }
}

#[test]
fn job_file_is_small_and_stays_the_same() {
    assert!(validate_job_path(&file_facts(65_536, 2)).is_ok());
    assert!(validate_job_path(&file_facts(65_537, 2)).is_err());
    let mut link = file_facts(1, 2);
    link.is_symlink = true;
    assert!(validate_job_path(&link).is_err());
    assert!(validate_opened_job(&file_facts(1, 2), &file_facts(1, 2)).is_ok());
    assert_eq!(
        validate_opened_job(&file_facts(1, 2), &file_facts(1, 3)).unwrap_err(),
        "worker job changed while it was opened"
    );
    assert!(validate_job_bytes(&vec![0; 65_536]).is_ok());
    assert!(validate_job_bytes(&vec![0; 65_537]).is_err());
}

fn identity(inode: u64, length: u64) -> FileIdentity {
    FileIdentity {
        device: 1,
        inode,
        length,
        modified_seconds: 10,
        modified_nanoseconds: 0,
        changed_seconds: 10,
        changed_nanoseconds: 0,
    }
}

fn facts(inode: u64, length: u64, mode: u32) -> LaunchFacts {
    LaunchFacts {
        is_symlink: false,
        is_file: true,
        mode,
        identity: identity(inode, length),
    }
}

#[test]
fn executable_validation_rejects_relative_and_symlink_paths() {
    let good = facts(1, 6, 0o100_755);
    assert!(validate_executable("relative-worker", &Ok(good)).is_err());
    let mut link = good;
    link.is_symlink = true;
    assert!(validate_executable("/opt/worker", &Ok(link)).is_err());
    assert!(validate_executable("/opt/worker", &Ok(good)).is_ok());
    assert!(validate_executable("/opt/worker", &Ok(facts(1, 6, 0o100_644))).is_err());
    assert!(validate_executable("/opt/worker", &Ok(facts(1, 6, 0o100_775))).is_err());
    assert!(validate_executable("/opt/worker", &Ok(facts(1, 0, 0o100_755))).is_err());
    assert!(validate_executable("/opt/worker", &Err("gone".to_owned())).is_err());
}

#[test]
fn file_identity_detects_replacement() {
    let first = identity(1, 5);
    assert!(first
        .ensure_unchanged(Platform::Linux, &Ok(facts(1, 5, 0o100_644)))
        .is_ok());
    assert!(first
        .ensure_unchanged(Platform::Linux, &Ok(facts(1, 6, 0o100_644)))
        .is_err());
    assert_eq!(
        first
            .ensure_unchanged(Platform::MacOs, &Ok(facts(2, 5, 0o100_644)))
            .unwrap_err()
            .message(),
        "worker process I/O failed: launch file changed during worker startup"
    );
}

fn pin(contents: &[u8], mode: u32, executable: bool) -> PinAction {
    let facts = facts(1, contents.len() as u64, mode);
    let limit = if executable {
        None
    } else {
        Some(MAX_WORKER_JOB_SIZE)
    };
    let (mut pinning, mut action) =
        Pinning::start(Platform::Linux, "/session/file", limit, executable).unwrap();
    let mut chunks = vec![Vec::new(), contents.to_vec()];
    loop {
        let event = match action {
            PinAction::LookAtPath | PinAction::LookAtFile => PinEvent::Looked(facts),
            PinAction::Open => PinEvent::Opened,
            PinAction::Read => PinEvent::Chunk(chunks.pop().unwrap()),
            other => return other,
        };
        action = pinning.step(&event);
    }
}

#[test]
fn launch_files_are_hashed_from_pinned_descriptors() {
    let job = b"{\"schema_version\":1}";
    let executable = match pin(b"trusted executable", 0o100_700, true) {
        PinAction::Pinned { identity, .. } => identity,
        _ => panic!("the executable is pinned"),
    };
    match pin(job, 0o100_600, false) {
        PinAction::Pinned { identity, sha256 } => {
            assert_eq!(sha256, hex::encode(Sha256::digest(job)));
            let launch = LaunchIdentity {
                executable,
                job: identity,
            };
            let same = facts(1, job.len() as u64, 0o100_600);
            let other = facts(1, 11, 0o100_700);
            assert!(launch
                .ensure_unchanged(Platform::Linux, &Ok(other), &Ok(same))
                .is_err());
        }
        _ => panic!("the job is pinned"),
    }
}

#[test]
fn pinned_launch_file_is_hashed_and_detects_mutation() {
    match pin(b"pinned SnapDog job", 0o100_600, false) {
        PinAction::Pinned { identity, sha256 } => {
            assert_eq!(sha256, hex::encode(Sha256::digest(b"pinned SnapDog job")));
            assert!(identity
                .ensure_unchanged(Platform::MacOs, &Ok(facts(1, 20, 0o100_600)))
                .is_err());
        }
        _ => panic!("the file is pinned"),
    }
    assert!(matches!(
        pin(b"job", 0o100_622, false),
        PinAction::Fail(_)
    ));
}

#[test]
fn removable_volume_primer_accepts_only_whole_disk_devices() {
    assert_eq!(raw_device_path("/dev/disk21").unwrap(), "/dev/rdisk21");
    for invalid in [
        "/dev/disk21s1",
        "/dev/rdisk21",
        "/tmp/disk21",
        "/dev/disk21;touch /tmp/injected",
    ] {
        assert!(raw_device_path(invalid).is_err());
    }
    let runner = MacOsWorkerRunner::with_bundle("/Applications/A.app".to_owned());
    assert_eq!(
        runner.prime_removable_volume_access("/dev/disk3").unwrap(),
        "/dev/rdisk3"
    );
    assert!(runner.prime_removable_volume_access("/dev/disk").is_err());
}

#[test]
fn direct_worker_contract_uses_an_explicit_opt_in() {
    assert_eq!(
        RAW_DEVICE_OPT_IN,
        "SNAPDOG_INSTALLER_ALLOW_RAW_DEVICE_WRITE"
    );
    assert_eq!(RAW_DEVICE_OPT_IN_VALUE, "YES-I-UNDERSTAND");
    assert_eq!(WORKER_RELATIVE_PATH, "Contents/MacOS/SnapDog OS Installer");
    assert_eq!(AUTHOPEN_RAW_FLAGS, "130");
    assert_eq!(
        linux_runner::RAW_DEVICE_OPT_IN,
        "SNAPDOG_INSTALLER_ALLOW_UDISKS_WRITE"
    );
}

#[test]
fn bundle_is_three_levels_above_its_executable() {
    let inside = "/Applications/SnapDog.app/Contents/MacOS/SnapDog OS Installer";
    assert_eq!(
        bundle_for_executable(inside, true).unwrap(),
        "/Applications/SnapDog.app"
    );
    assert!(bundle_for_executable(inside, false).is_err());
    assert!(bundle_for_executable("/Applications/SnapDog/Contents/MacOS/x", true).is_err());
    assert!(bundle_for_executable("/x", true).is_err());
    let exit = |success: bool| HelperExit {
        success,
        status: "exit status: 3".to_owned(),
        stderr: b" not signed \n".to_vec(),
    };
    let path = Ok(inside.to_owned());
    assert!(MacOsWorkerRunner::current(&path, true, &None).is_ok());
    assert!(MacOsWorkerRunner::current(&path, true, &Some(Ok(exit(true)))).is_ok());
    assert_eq!(
        MacOsWorkerRunner::current(&path, true, &Some(Ok(exit(false))))
            .unwrap_err()
            .message(),
        "worker process failed with status exit status: 3: not signed"
    );
    let arguments = codesign_arguments("/Applications/SnapDog.app");
    assert_eq!(arguments[3], format!("-R={WORKER_REQUIREMENT}"));
    assert_eq!(arguments.len(), 5);
}

#[test]
fn exactly_one_target_comes_from_the_helper() {
    let exit = |success: bool| HelperExit {
        success,
        status: "exit status: 1".to_owned(),
        stderr: Vec::new(),
    };
    let one = DescriptorMessage {
        bytes: 1,
        descriptors: 1,
    };
    assert!(authorized_raw_target(&exit(true), &Ok(one)).is_ok());
    for message in [(0, 1), (1, 0), (1, 2)] {
        let received = DescriptorMessage {
            bytes: message.0,
            descriptors: message.1,
        };
        assert!(authorized_raw_target(&exit(true), &Ok(received)).is_err());
    }
    assert_eq!(
        authorized_raw_target(&exit(false), &Ok(one))
            .unwrap_err()
            .message(),
        "worker process failed with status exit status: 1: the macOS authorization helper returned no error details"
    );
    assert!(validate_request(&b"SNAPDOG_TARGET_FD_REQUEST_V1\n".to_vec()).is_ok());
    assert!(validate_request(&b"SNAPDOG_TARGET_FD_REQUEST_V2\n".to_vec()).is_err());
    assert!(validate_request(&Vec::new()).is_err());
    assert!(validate_sent(30).is_ok());
    assert!(validate_sent(29).is_err());
    assert_eq!(
        authopen_arguments("/dev/rdisk3"),
        ["-stdoutpipe", "-o", "130", "/dev/rdisk3"]
    );
}

#[test]
fn error_output_is_bounded_and_readable() {
    assert_eq!(
        stderr_message(Platform::Linux, &b"  denied \xff\n".to_vec()),
        "denied \u{fffd}"
    );
    assert_eq!(
        stderr_message(Platform::Linux, &b" \n".to_vec()),
        "UDisks2 authorization was denied or the worker returned no details"
    );
    assert!(accept_stderr(vec![0; MAX_HELPER_STDERR]).is_ok());
    assert!(accept_stderr(vec![0; MAX_HELPER_STDERR + 1]).is_err());
}

fn exit(success: bool) -> ProcessExit {
    ProcessExit::Unix {
        success,
        status: "exit status: 1".to_owned(),
        stderr: b"broken\n".to_vec(),
    }
}

fn drained(saw_event: bool) -> MonitorEvent {
    MonitorEvent::Drained {
        result: Ok(()),
        saw_event,
    }
}

#[test]
fn watched_worker_succeeds_once_it_has_ended() {
    let (mut monitor, action) = Monitor::start(Platform::Linux, false);
    assert!(matches!(action.task, MonitorTask::CheckIdentity));
    let action = monitor.step(MonitorEvent::Identity(Ok(())), false);
    assert!(matches!(action.task, MonitorTask::Drain));
    let action = monitor.step(drained(true), false);
    assert!(matches!(action.task, MonitorTask::TryWait));
    let action = monitor.step(MonitorEvent::Waited(Ok(false)), false);
    assert!(matches!(action.task, MonitorTask::Sleep));
    let action = monitor.step(MonitorEvent::Woken, false);
    assert!(matches!(action.task, MonitorTask::Drain));
    monitor.step(drained(true), false);
    let action = monitor.step(MonitorEvent::Waited(Ok(true)), false);
    assert!(matches!(action.task, MonitorTask::FinishTail));
    let action = monitor.step(MonitorEvent::TailFinished(Ok(())), false);
    assert!(matches!(action.task, MonitorTask::FinishProcess));
    let action = monitor.step(MonitorEvent::ProcessFinished(Ok(exit(true))), false);
    assert!(matches!(action.task, MonitorTask::Return));
}

#[test]
fn changed_launch_file_stops_the_worker() {
    let (mut monitor, _) = Monitor::start(Platform::MacOs, false);
    let changed = WorkerRunnerError::Io("changed".to_owned());
    let action = monitor.step(MonitorEvent::Identity(Err(changed)), false);
    assert_eq!(
        action.attempt,
        Attempt {
            touch: true,
            stop: true
        }
    );
    assert!(matches!(action.task, MonitorTask::TryWait));
    let action = monitor.step(MonitorEvent::Waited(Ok(true)), false);
    assert!(matches!(action.task, MonitorTask::FinishProcess));
    match monitor
        .step(MonitorEvent::ProcessFinished(Ok(exit(true))), false)
        .task
    {
        MonitorTask::Fail(error) => {
            assert_eq!(error.message(), "worker process I/O failed: changed")
        }
        _ => panic!("the failure is reported"),
    }
}

#[test]
fn cancellation_is_passed_on_once() {
    let (mut monitor, _) = Monitor::start(Platform::Linux, false);
    monitor.step(MonitorEvent::Identity(Ok(())), true);
    let action = monitor.step(drained(false), true);
    assert!(matches!(
        action.task,
        MonitorTask::SendCancel { stop: true }
    ));
    let sent = MonitorEvent::CancelSent {
        marker: Ok(()),
        stop: Ok(()),
    };
    monitor.step(sent, true);
    monitor.step(MonitorEvent::Waited(Ok(false)), true);
    monitor.step(MonitorEvent::Woken, true);
    monitor.step(MonitorEvent::Identity(Ok(())), true);
    let action = monitor.step(drained(false), true);
    assert!(matches!(action.task, MonitorTask::TryWait));
}

#[test]
fn elevated_worker_is_never_stopped() {
    let (mut monitor, action) = Monitor::start(Platform::Windows, false);
    assert!(matches!(action.task, MonitorTask::Drain));
    let failed = MonitorEvent::Drained {
        result: Err(WorkerRunnerError::InvalidProgress("bad".to_owned())),
        saw_event: false,
    };
    let action = monitor.step(failed, true);
    assert_eq!(
        action.attempt,
        Attempt {
            touch: true,
            stop: false
        }
    );
    assert!(matches!(
        action.task,
        MonitorTask::SendCancel { stop: false }
    ));
    let sent = MonitorEvent::CancelSent {
        marker: Err("denied".to_owned()),
        stop: Ok(()),
    };
    monitor.step(sent, true);
    monitor.step(MonitorEvent::Waited(Ok(true)), true);
    match monitor
        .step(
            MonitorEvent::ProcessFinished(Ok(ProcessExit::Windows(0))),
            true,
        )
        .task
    {
        MonitorTask::Fail(error) => assert_eq!(
            error.message(),
            "worker emitted invalid JSON-lines progress: bad"
        ),
        _ => panic!("the first failure is reported"),
    }
}

#[test]
fn unobservable_worker_is_reported_with_its_output() {
    let (mut monitor, _) = Monitor::start(Platform::Linux, false);
    monitor.step(MonitorEvent::Identity(Ok(())), false);
    monitor.step(drained(true), false);
    let lost = WorkerRunnerError::Io("no child".to_owned());
    let action = monitor.step(MonitorEvent::Waited(Err(lost)), false);
    assert!(action.attempt.touch);
    match monitor
        .step(MonitorEvent::ProcessFinished(Ok(exit(true))), false)
        .task
    {
        MonitorTask::Fail(error) => assert_eq!(
            error.message(),
            "worker process failed with status exit status: 1: worker process I/O failed: no child; broken"
        ),
        _ => panic!("the failure is reported"),
    }
}

#[test]
fn failed_elevated_worker_is_reported_by_its_code() {
    let (mut monitor, _) = Monitor::start(Platform::Windows, false);
    monitor.step(drained(true), false);
    monitor.step(MonitorEvent::Waited(Ok(true)), false);
    monitor.step(MonitorEvent::TailFinished(Ok(())), false);
    match monitor
        .step(
            MonitorEvent::ProcessFinished(Ok(ProcessExit::Windows(5))),
            false,
        )
        .task
    {
        MonitorTask::Fail(error) => assert_eq!(
            error.message(),
            "worker process failed with status exit code 5: the native elevated worker reported a failure"
        ),
        _ => panic!("the failure is reported"),
    }
}

fn launch(socket: Option<&str>) -> WorkerLaunch {
    WorkerLaunch {
        job_path: "/session/worker-job.json".to_owned(),
        progress_path: "/session/worker-progress.jsonl".to_owned(),
        cancel_path: "/session/cancel".to_owned(),
        skip_verification_path: "/session/skip-verification".to_owned(),
        target_device: "/dev/disk3".to_owned(),
        macos_target_socket: socket.map(str::to_owned),
    }
}

/// Answers what pinning asks for.
fn answer(action: &PinAction, facts: LaunchFacts, chunks: &mut Vec<Vec<u8>>) -> LaunchEvent {
    LaunchEvent::Pin(match action {
        PinAction::LookAtPath | PinAction::LookAtFile => PinEvent::Looked(facts),
        PinAction::Open => PinEvent::Opened,
        _ => PinEvent::Chunk(chunks.pop().unwrap()),
    })
}

#[test]
fn linux_worker_is_started_with_pinned_files() {
    let job = b"{\"job\":1}";
    let executable_facts = facts(1, 6, 0o100_755);
    let job_facts = facts(2, job.len() as u64, 0o100_600);
    let runner = LinuxWorkerRunner::with_paths(
        "/opt/installer".to_owned(),
        "/opt/helper".to_owned(),
    );
    let (mut run, mut action) = runner.run(launch(None));
    let mut program = vec![Vec::new(), b"binary".to_vec()];
    let mut contents = vec![Vec::new(), job.to_vec()];
    loop {
        let event = match &action {
            LaunchAction::LookAtExecutable => LaunchEvent::Looked(Ok(executable_facts)),
            LaunchAction::LookAtHelper(path) => {
                assert_eq!(path, "/opt/helper");
                LaunchEvent::Looked(Ok(facts(3, 5, 0o100_755)))
            }
            LaunchAction::PinExecutable(inner) => answer(inner, executable_facts, &mut program),
            LaunchAction::PinJob(inner) => answer(inner, job_facts, &mut contents),
            LaunchAction::OpenTail => LaunchEvent::Done,
            LaunchAction::Spawn(arguments) => {
                assert_eq!(arguments[1], "/session/worker-job.json");
                assert_eq!(arguments[3], hex::encode(Sha256::digest(job)));
                LaunchEvent::Done
            }
            LaunchAction::LookAgain => LaunchEvent::LookedAgain {
                executable: Ok(executable_facts),
                job: Ok(facts(2, 1, 0o100_600)),
            },
            LaunchAction::Abort(error) => {
                assert_eq!(
                    error.message(),
                    "worker process I/O failed: pinned launch file changed during worker launch"
                );
                assert_eq!(run.identity().executable, executable_facts.identity);
                return;
            }
            other => panic!("unexpected {other:?}"),
        };
        action = run.step(event, false);
    }
}

#[test]
fn macos_worker_needs_its_socket() {
    for (socket, exists, message) in [
        (None, false, "macOS authorized target socket is missing"),
        (
            Some("relative.sock"),
            false,
            "macOS authorized target socket path is invalid",
        ),
        (
            Some("/session/a.sock"),
            true,
            "macOS authorized target socket path is invalid",
        ),
    ] {
        let executable_facts = facts(1, 6, 0o100_755);
        let job_facts = facts(2, 3, 0o100_600);
        let runner = MacOsWorkerRunner::with_bundle("/Applications/A.app".to_owned());
        let (mut run, mut action) = runner.run(launch(socket));
        let mut program = vec![Vec::new(), b"binary".to_vec()];
        let mut contents = vec![Vec::new(), b"job".to_vec()];
        loop {
            let event = match &action {
                LaunchAction::PinExecutable(inner) => {
                    answer(inner, executable_facts, &mut program)
                }
                LaunchAction::PinJob(inner) => answer(inner, job_facts, &mut contents),
                LaunchAction::OpenTail => LaunchEvent::Done,
                LaunchAction::CheckSocket(_) => LaunchEvent::SocketExists(exists),
                LaunchAction::Fail(error) => {
                    assert!(error.message().ends_with(message));
                    break;
                }
                other => panic!("unexpected {other:?}"),
            };
            action = run.step(event, false);
        }
    }
}

fn windows_facts(length: u64) -> WindowsFileFacts {
    WindowsFileFacts {
        is_symlink: false,
        is_dir: false,
        is_file: true,
        attributes: 0x20,
        length,
    }
}

#[test]
fn elevated_worker_gets_the_digest_of_its_pinned_job() {
    let job = b"{\"job\":1}".to_vec();
    let runner = WindowsWorkerRunner::current(Ok(r"C:\App\Installer.EXE".to_owned()), true).unwrap();
    let mut launch = launch(None);
    launch.job_path = r"C:\session\worker-job.json".to_owned();
    let (mut run, mut action) = runner.run(launch);
    let mut looked = Vec::new();
    loop {
        let event = match &action {
            ElevatedAction::OpenTail => ElevatedEvent::Done,
            ElevatedAction::Look(path) => {
                looked.push(path.clone());
                ElevatedEvent::Looked(windows_facts(9))
            }
            ElevatedAction::Open(_) => ElevatedEvent::Opened {
                facts: windows_facts(9),
                same: true,
            },
            ElevatedAction::Measure => ElevatedEvent::Measured(9),
            ElevatedAction::Read => ElevatedEvent::Read(job.clone()),
            ElevatedAction::Decode => ElevatedEvent::Decoded {
                raw_path: r"C:\session\snapdog-os.img".to_owned(),
                raw_size: 9,
            },
            ElevatedAction::Launch(arguments) => {
                assert_eq!(arguments.len(), 6);
                assert_eq!(arguments[3], hex::encode(Sha256::digest(&job)));
                assert_eq!(looked.len(), 3);
                ElevatedEvent::Done
            }
            ElevatedAction::Watch(watch) => {
                assert!(matches!(watch.task, MonitorTask::Drain));
                return;
            }
            other => panic!("unexpected {other:?}"),
        };
        action = run.step(event, false);
    }
}

#[test]
fn unsafe_windows_launch_files_are_refused() {
    assert!(validate_unpinned(&windows_facts(9), Some(9)).is_ok());
    assert!(validate_unpinned(&windows_facts(9), Some(8)).is_err());
    let mut reparse = windows_facts(9);
    reparse.attributes = 0x400;
    assert!(validate_unpinned(&reparse, None).is_err());
    assert!(validate_pinned(&windows_facts(9), true, None).is_ok());
    assert_eq!(
        validate_pinned(&windows_facts(9), false, None)
            .unwrap_err()
            .message(),
        "worker process I/O failed: launch file changed while it was pinned"
    );
    assert!(validate_job_size(0).is_err());
    assert!(validate_job_size(65_536).is_ok());
    assert!(validate_job_size(65_537).is_err());
    assert!(job_digest(4, &b"job".to_vec()).is_err());
    assert!(WindowsWorkerRunner::current(Ok(r"C:\App\a.com".to_owned()), true).is_err());
    assert!(WindowsWorkerRunner::current(Ok(r"a.exe".to_owned()), true).is_err());
    assert!(WindowsWorkerRunner::current(Ok(r"C:\a.exe".to_owned()), false).is_err());
}

#[test]
fn current_linux_executable_is_validated() {
    let good = Ok(facts(1, 6, 0o100_755));
    assert!(LinuxWorkerRunner::current(Ok("/opt/installer".to_owned()), &good).is_ok());
    assert!(LinuxWorkerRunner::current(Err("unknown".to_owned()), &good).is_err());
    let writable = Ok(facts(1, 6, 0o100_777));
    assert!(LinuxWorkerRunner::current(Ok("/opt/installer".to_owned()), &writable).is_err());
}

#[test]
fn job_file_must_match_the_digest_of_its_command_line() {
    let job = b"{\"job\":1}".to_vec();
    let digest = hex::encode(Sha256::digest(&job));
    let mut all = vec!["installer".to_owned()];
    all.extend(worker_arguments(
        Platform::Linux,
        "/session/worker-job.json",
        &digest,
    ));
    assert!(validate_job_digest(&all, &job).is_ok());
    all[4] = digest.to_uppercase();
    assert!(validate_job_digest(&all, &job).is_ok());
    assert_eq!(
        validate_job_digest(&all, &b"{\"job\":2}".to_vec()).unwrap_err(),
        "worker job does not match its pinned digest"
    );
    assert!(validate_job_digest(&arguments(&[WORKER_JOB_ARGUMENT, "/job"]), &job).is_ok());
    assert!(validate_pinned_digest(&all, &digest).is_ok());
    assert!(validate_pinned_digest(&all, &"0".repeat(64)).is_err());
}

#[test]
fn both_paths_are_validated_before_every_launch() {
    let good = facts(1, 6, 0o100_755);
    for (helper, looked, message) in [
        (
            "relative-helper",
            Ok(good),
            "worker executable path must be absolute",
        ),
        (
            "/opt/helper",
            Ok(facts(3, 5, 0o100_777)),
            "not group- or world-writable",
        ),
        ("/opt/helper", Err("gone".to_owned()), "gone"),
    ] {
        let runner =
            LinuxWorkerRunner::with_paths("/opt/installer".to_owned(), helper.to_owned());
        let (mut run, action) = runner.run(launch(None));
        assert!(matches!(action, LaunchAction::LookAtExecutable));
        let action = run.step(LaunchEvent::Looked(Ok(good)), false);
        assert!(matches!(action, LaunchAction::LookAtHelper(path) if path == helper));
        match run.step(LaunchEvent::Looked(looked), false) {
            LaunchAction::Fail(error) => assert!(error.message().ends_with(message)),
            other => panic!("unexpected {other:?}"),
        }
    }
    let looked = Ok(good);
    let runner = LinuxWorkerRunner::current(Ok("/opt/installer".to_owned()), &looked).unwrap();
    assert!(runner.authorization_helper.is_none());
    let (mut run, _) = runner.run(launch(None));
    assert!(matches!(
        run.step(LaunchEvent::Looked(Ok(good)), false),
        LaunchAction::PinExecutable(PinAction::LookAtPath)
    ));
}
